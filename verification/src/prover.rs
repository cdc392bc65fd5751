//! The proving interface, the placeholder backend, and the metadata that
//! stands for "no proof".

use crate::json::{hash_json, hash_of_object, text_member, JsonField, JsonFieldView, JsonObject};
use crate::models::{ProofBackend, ProofMetadata, ProofMetadataView, VerificationMode};
use vstd::prelude::*;
use vstd::string::*;

verus! {

/// A proving backend. Nothing is asked of an implementation here: what it
/// returns is checked afterwards against the public inputs that it was given.
pub trait ProverBackend {
    /// The backend that this prover stands for.
    fn backend_name(&self) -> ProofBackend;

    /// Produces proof metadata for the public inputs, or the reason why no
    /// proof could be made.
    fn prove(&self, public_inputs: &JsonObject) -> Result<ProofMetadata, String>;
}

/// The placeholder SP1 backend: it proves nothing, and records the hash of the
/// public inputs that it was given.
#[derive(Debug, Clone, Copy)]
pub struct Sp1MvpProver;

/// The hash that stands for the verifier key of the placeholder SP1 backend.
pub open spec fn sp1_verifier_key_hash() -> Seq<char> {
    hash_of_object(seq![text_member("backend"@, "SP1"@), text_member("verifier_key"@, "001"@)])
}

/// The metadata that the placeholder SP1 backend returns for public inputs.
pub open spec fn sp1_proof(public_inputs: Seq<JsonFieldView>) -> ProofMetadataView {
    ProofMetadataView {
        backend: ProofBackend::SP1,
        circuit_id: "trade-receipt-sp1"@,
        circuit_version: "v0.1.0"@,
        verifier_key_id: "sp1-vk-001"@,
        verifier_key_hash: sp1_verifier_key_hash(),
        public_inputs_hash: hash_of_object(public_inputs),
        verification_mode: VerificationMode::OFFCHAIN,
        proof_artifact_ref: Some("boundless://sp1/"@ + hash_of_object(public_inputs)),
        anchored_root_ref: None,
    }
}

impl ProverBackend for Sp1MvpProver {
    fn backend_name(&self) -> (backend: ProofBackend)
        ensures
            backend == ProofBackend::SP1,
    {
        ProofBackend::SP1
    }

    fn prove(&self, public_inputs: &JsonObject) -> (proof: Result<ProofMetadata, String>)
        ensures
            proof matches Ok(metadata) && metadata@ == sp1_proof(public_inputs@),
    {
        let public_inputs_hash = hash_json(public_inputs);
        let key = JsonObject::new().with(JsonField::text("backend", "SP1")).with(
            JsonField::text("verifier_key", "001"),
        );
        assert(key@ =~= seq![
            text_member("backend"@, "SP1"@),
            text_member("verifier_key"@, "001"@),
        ]);
        let mut artifact = String::from_str("boundless://sp1/");
        artifact.append(public_inputs_hash.as_str());
        Ok(
            ProofMetadata {
                backend: ProofBackend::SP1,
                circuit_id: "trade-receipt-sp1".to_owned(),
                circuit_version: "v0.1.0".to_owned(),
                verifier_key_id: "sp1-vk-001".to_owned(),
                verifier_key_hash: hash_json(&key),
                public_inputs_hash,
                verification_mode: VerificationMode::OFFCHAIN,
                proof_artifact_ref: Some(artifact),
                anchored_root_ref: None,
            },
        )
    }
}

/// The hash that stands where no hash has been computed: `0x` and sixty-four
/// zeros.
pub open spec fn zero_hash() -> Seq<char> {
    "0x"@ + Seq::new(64, |i: int| '0')
}

/// The metadata of a receipt without a proof.
pub open spec fn no_proof() -> ProofMetadataView {
    ProofMetadataView {
        backend: ProofBackend::NONE,
        circuit_id: "none"@,
        circuit_version: "none"@,
        verifier_key_id: "none"@,
        verifier_key_hash: zero_hash(),
        public_inputs_hash: zero_hash(),
        verification_mode: VerificationMode::OFFCHAIN,
        proof_artifact_ref: None,
        anchored_root_ref: None,
    }
}

/// The metadata of a receipt that has no proof yet, or will never have one.
pub fn no_proof_metadata() -> (metadata: ProofMetadata)
    ensures
        metadata@ == no_proof(),
{
    proof {
        reveal_strlit("0x0000000000000000000000000000000000000000000000000000000000000000");
        reveal_strlit("0x");
        assert("0x0000000000000000000000000000000000000000000000000000000000000000"@
            =~= zero_hash());
    }
    ProofMetadata {
        backend: ProofBackend::NONE,
        circuit_id: "none".to_owned(),
        circuit_version: "none".to_owned(),
        verifier_key_id: "none".to_owned(),
        verifier_key_hash: "0x0000000000000000000000000000000000000000000000000000000000000000".to_owned(),
        public_inputs_hash: "0x0000000000000000000000000000000000000000000000000000000000000000".to_owned(),
        verification_mode: VerificationMode::OFFCHAIN,
        proof_artifact_ref: None,
        anchored_root_ref: None,
    }
}

} // verus!
