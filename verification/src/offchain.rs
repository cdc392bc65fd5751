//! The off-chain consistency check of a receipt's recorded proof.

use crate::json::{hash_json, hash_of_object, text_member, JsonField, JsonFieldView, JsonObject};
use crate::models::{
    claim_type_text, venue_text, ClaimType, ProofBackend, ReceiptStatus, Venue, ZKReceipt,
    ZKReceiptView,
};
use vstd::prelude::*;
use vstd::string::*;

verus! {

/// The public inputs that a proof binds: the claim hash, the claim type, the
/// evidence root and the venue.
pub open spec fn public_inputs_of(
    claim_hash: Seq<char>,
    evidence_root: Seq<char>,
    venue: Venue,
    claim_type: ClaimType,
) -> Seq<JsonFieldView> {
    seq![
        text_member("claim_hash"@, claim_hash),
        text_member("claim_type"@, claim_type_text(claim_type)),
        text_member("evidence_root"@, evidence_root),
        text_member("venue"@, venue_text(venue)),
    ]
}

/// The hash of public inputs that a receipt's own content calls for.
pub open spec fn expected_inputs_hash(receipt: ZKReceiptView) -> Seq<char> {
    hash_of_object(
        public_inputs_of(
            receipt.claim.claim_hash,
            receipt.provenance.evidence_root,
            receipt.subject.venue,
            receipt.claim.claim_type,
        ),
    )
}

/// Whether a receipt's proof is consistent with its content: the receipt is
/// proved, by a real backend, over exactly the public inputs that its claim and
/// evidence give.
pub open spec fn verifies(receipt: ZKReceiptView) -> bool {
    &&& receipt.status == ReceiptStatus::PROVED
    &&& receipt.proof.backend != ProofBackend::NONE
    &&& expected_inputs_hash(receipt) == receipt.proof.public_inputs_hash
}

/// No receipt verifies unless it is proved, and none whose backend is `NONE`.
pub proof fn lemma_unproved_never_verifies(receipt: ZKReceiptView)
    requires
        receipt.status != ReceiptStatus::PROVED || receipt.proof.backend == ProofBackend::NONE,
    ensures
        !verifies(receipt),
{
}

/// Builds the public inputs of a proof.
pub fn public_inputs(
    claim_hash: &str,
    evidence_root: &str,
    venue: Venue,
    claim_type: ClaimType,
) -> (inputs: JsonObject)
    ensures
        inputs@ == public_inputs_of(claim_hash@, evidence_root@, venue, claim_type),
{
    let inputs = JsonObject::new().with(JsonField::text("claim_hash", claim_hash)).with(
        JsonField::text("claim_type", claim_type.as_str()),
    ).with(JsonField::text("evidence_root", evidence_root)).with(
        JsonField::text("venue", venue.as_str()),
    );
    assert(inputs@ =~= public_inputs_of(claim_hash@, evidence_root@, venue, claim_type));
    inputs
}

/// The verifier that works from the receipt alone, without any chain.
#[derive(Debug, Default, Clone, Copy)]
pub struct OffchainVerifier;

impl OffchainVerifier {
    /// Checks a receipt's proof against the receipt's content.
    pub fn verify(&self, receipt: &ZKReceipt) -> (ok: bool)
        ensures
            ok == verifies(receipt@),
    {
        if receipt.status != ReceiptStatus::PROVED {
            return false;
        }
        if receipt.proof.backend == ProofBackend::NONE {
            return false;
        }
        let inputs = public_inputs(
            receipt.claim.claim_hash.as_str(),
            receipt.provenance.evidence_root.as_str(),
            receipt.subject.venue,
            receipt.claim.claim_type,
        );
        let expected = hash_json(&inputs);
        expected == receipt.proof.public_inputs_hash
    }
}

} // verus!
