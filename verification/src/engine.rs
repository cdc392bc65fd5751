//! The receipt engine: it keeps the receipts, takes submissions, and runs each
//! submission's pipeline when its outcome is waited for. Beside it stand the
//! functions that build receipts: the integrity hash chain, the pending receipt
//! of a fresh submission, and the two terminal forms.

use crate::json::{
    hash_json, hash_of_object, opt_member, text_member, JsonField, JsonFieldView, JsonObject,
    JsonValue, JsonValueView,
};
use crate::models::{
    claim_type_text, evidence_root_of, new_receipt_id, now_iso, status_text, venue_text,
    ClaimType, EvidenceBundle, EvidenceBundleView, Integrity, IntegrityView, NonProvable,
    NonProvableReason, NonProvableView, PolicyContext, PolicyContextView, ProofMetadata,
    ProofMetadataView, ProofRequest, ProofRequestView, Provenance, ProvenanceView, ReceiptStatus,
    Subject, SubjectView, Timing, TimingView, TruthClaim, TruthClaimView, Venue, ZKReceipt,
    ZKReceiptView,
};
use crate::adapters::base::VenueAdapter;
use crate::offchain::OffchainVerifier;
use crate::pipeline::{
    ends_a_run, process_receipt_task, terminal_of, unsupported_venue_details, Signing,
};
use crate::policy::PolicyEngine;
use crate::prover::{no_proof, no_proof_metadata, ProverBackend};
use vstd::hash_map::StringHashMap;
use vstd::prelude::*;
use vstd::string::*;

verus! {

/// The hash that binds a receipt's status, claim hash, evidence root and proof
/// hash.
pub open spec fn receipt_hash_of(
    status: ReceiptStatus,
    claim_hash: Seq<char>,
    evidence_root: Seq<char>,
    proof_hash: Seq<char>,
) -> Seq<char> {
    hash_of_object(
        seq![
            text_member("claim_hash"@, claim_hash),
            text_member("evidence_root"@, evidence_root),
            text_member("proof_hash"@, proof_hash),
            text_member("status"@, status_text(status)),
        ],
    )
}

/// The hash that binds the shape of a receipt and its version.
pub open spec fn schema_hash_of(receipt_version: Seq<char>) -> Seq<char> {
    hash_of_object(
        seq![
            text_member("schema"@, "zkreceipt.schema.json"@),
            text_member("version"@, receipt_version),
        ],
    )
}

/// The stand-in signature of `signer` over a receipt hash.
pub open spec fn signature_of(signer: Seq<char>, receipt_hash: Seq<char>) -> Seq<char> {
    hash_of_object(seq![text_member("receipt_hash"@, receipt_hash), text_member("signer"@, signer)])
}

/// The integrity chain of a receipt, as a function of what it binds.
pub open spec fn integrity_of(
    signer: Seq<char>,
    receipt_version: Seq<char>,
    status: ReceiptStatus,
    claim_hash: Seq<char>,
    evidence_root: Seq<char>,
    proof_hash: Seq<char>,
) -> IntegrityView {
    let receipt_hash = receipt_hash_of(status, claim_hash, evidence_root, proof_hash);
    IntegrityView {
        schema_hash: schema_hash_of(receipt_version),
        receipt_hash,
        signer,
        signature: signature_of(signer, receipt_hash),
    }
}

/// Whether a receipt's integrity chain is the one that its own content gives,
/// for `signer` and `receipt_version`.
pub open spec fn integrity_holds(
    receipt: ZKReceiptView,
    signer: Seq<char>,
    receipt_version: Seq<char>,
) -> bool {
    receipt.integrity == integrity_of(
        signer,
        receipt_version,
        receipt.status,
        receipt.claim.claim_hash,
        receipt.provenance.evidence_root,
        receipt.proof.public_inputs_hash,
    )
}

/// Two receipts that agree on status, claim hash, evidence root and proof hash,
/// and whose integrity chains were computed for the same signer and version,
/// carry the same integrity chain.
pub proof fn lemma_integrity_reproducible(
    a: ZKReceiptView,
    b: ZKReceiptView,
    signer: Seq<char>,
    receipt_version: Seq<char>,
)
    requires
        integrity_holds(a, signer, receipt_version),
        integrity_holds(b, signer, receipt_version),
        a.status == b.status,
        a.claim.claim_hash == b.claim.claim_hash,
        a.provenance.evidence_root == b.provenance.evidence_root,
        a.proof.public_inputs_hash == b.proof.public_inputs_hash,
    ensures
        a.integrity == b.integrity,
{
}

/// Computes the integrity chain over a receipt's status, claim hash, evidence
/// root and proof hash.
pub fn build_integrity(
    signer: &str,
    receipt_version: &str,
    status: ReceiptStatus,
    claim_hash: &str,
    evidence_root: &str,
    proof_hash: &str,
) -> (integrity: Integrity)
    ensures
        integrity@ == integrity_of(
            signer@,
            receipt_version@,
            status,
            claim_hash@,
            evidence_root@,
            proof_hash@,
        ),
{
    let schema = JsonObject::new().with(JsonField::text("schema", "zkreceipt.schema.json")).with(
        JsonField::text("version", receipt_version),
    );
    assert(schema@ =~= seq![
        text_member("schema"@, "zkreceipt.schema.json"@),
        text_member("version"@, receipt_version@),
    ]);
    let schema_hash = hash_json(&schema);
    let bound = JsonObject::new().with(JsonField::text("claim_hash", claim_hash)).with(
        JsonField::text("evidence_root", evidence_root),
    ).with(JsonField::text("proof_hash", proof_hash)).with(
        JsonField::text("status", status.as_str()),
    );
    assert(bound@ =~= seq![
        text_member("claim_hash"@, claim_hash@),
        text_member("evidence_root"@, evidence_root@),
        text_member("proof_hash"@, proof_hash@),
        text_member("status"@, status_text(status)),
    ]);
    let receipt_hash = hash_json(&bound);
    let signed = JsonObject::new().with(JsonField::text("receipt_hash", receipt_hash.as_str())).with(
        JsonField::text("signer", signer),
    );
    assert(signed@ =~= seq![
        text_member("receipt_hash"@, receipt_hash@),
        text_member("signer"@, signer@),
    ]);
    let signature = hash_json(&signed);
    Integrity { schema_hash, receipt_hash, signer: signer.to_owned(), signature }
}

/// The claim hash of a request before any evidence is known: over venue, claim
/// type, account, order and execution references.
pub open spec fn pending_claim_hash(request: ProofRequestView) -> Seq<char> {
    hash_of_object(
        seq![
            text_member("account_ref"@, request.account_ref),
            text_member("claim_type"@, claim_type_text(request.claim_type)),
            opt_member("execution_ref"@, request.execution_ref),
            text_member("order_ref"@, request.order_ref),
            text_member("venue"@, venue_text(request.venue)),
        ],
    )
}

/// The claim hash of a finalized claim: over claim type, execution reference,
/// order reference and statement.
pub open spec fn final_claim_hash(request: ProofRequestView, statement: Seq<char>) -> Seq<char> {
    hash_of_object(
        seq![
            text_member("claim_type"@, claim_type_text(request.claim_type)),
            opt_member("execution_ref"@, request.execution_ref),
            text_member("order_ref"@, request.order_ref),
            text_member("statement"@, statement),
        ],
    )
}

/// The evidence root of a receipt that has no evidence yet.
pub open spec fn empty_evidence_root() -> Seq<char> {
    hash_of_object(seq![JsonFieldView { name: "empty"@, value: JsonValueView::Bool(true) }])
}

/// The statement of a receipt that has no evidence yet.
pub open spec fn pending_statement() -> Seq<char> {
    "PENDING: statement unavailable until evidence collection completes"@
}

/// The policy context that `policy` gives to its receipts.
pub open spec fn policy_context_of(policy: PolicyEngine) -> PolicyContextView {
    PolicyContextView {
        policy_id: "default-v0.1.0"@,
        finality_rule_id: "venue-default-finality-v0.1.0"@,
        source_precedence_version: policy.precedence_version(),
    }
}

/// The pending receipt of a request, created at `now` under `receipt_id`.
pub open spec fn pending_receipt_of(
    request: ProofRequestView,
    policy: PolicyEngine,
    signer: Seq<char>,
    receipt_version: Seq<char>,
    receipt_id: Seq<char>,
    now: Seq<char>,
) -> ZKReceiptView {
    ZKReceiptView {
        receipt_id,
        version: receipt_version,
        status: ReceiptStatus::PENDING,
        claim: TruthClaimView {
            claim_type: request.claim_type,
            statement: pending_statement(),
            claim_hash: pending_claim_hash(request),
        },
        subject: SubjectView {
            venue: request.venue,
            account_ref: request.account_ref,
            order_ref: request.order_ref,
            execution_ref: request.execution_ref,
        },
        policy: policy_context_of(policy),
        provenance: ProvenanceView {
            evidence_root: empty_evidence_root(),
            evidence_items: Seq::empty(),
        },
        timing: TimingView {
            created_at: now,
            updated_at: now,
            execution_observed_at: None,
            finality_observed_at: None,
        },
        proof: no_proof(),
        integrity: integrity_of(
            signer,
            receipt_version,
            ReceiptStatus::PENDING,
            pending_claim_hash(request),
            empty_evidence_root(),
            no_proof().public_inputs_hash,
        ),
        non_provable: None,
    }
}

/// The receipt `receipt` once it is proved at `now`: the statement and its claim
/// hash replace the placeholder claim, the bundle becomes the provenance, and
/// the integrity chain is computed anew.
pub open spec fn proved_receipt_of(
    receipt: ZKReceiptView,
    claim_hash: Seq<char>,
    statement: Seq<char>,
    bundle: EvidenceBundleView,
    proof: ProofMetadataView,
    signer: Seq<char>,
    receipt_version: Seq<char>,
    now: Seq<char>,
) -> ZKReceiptView {
    ZKReceiptView {
        status: ReceiptStatus::PROVED,
        claim: TruthClaimView { claim_type: receipt.claim.claim_type, statement, claim_hash },
        provenance: ProvenanceView {
            evidence_root: evidence_root_of(bundle.items),
            evidence_items: bundle.items,
        },
        timing: TimingView {
            created_at: receipt.timing.created_at,
            updated_at: now,
            execution_observed_at: Some(now),
            finality_observed_at: bundle.finality_observed_at,
        },
        proof,
        integrity: integrity_of(
            signer,
            receipt_version,
            ReceiptStatus::PROVED,
            claim_hash,
            evidence_root_of(bundle.items),
            proof.public_inputs_hash,
        ),
        non_provable: None,
        ..receipt
    }
}

/// The receipt `receipt` once it is found not provable at `now`: it carries the
/// reason, loses any proof, and its integrity chain is computed anew.
pub open spec fn non_provable_receipt_of(
    receipt: ZKReceiptView,
    reason: NonProvableReason,
    details: Seq<char>,
    signer: Seq<char>,
    receipt_version: Seq<char>,
    now: Seq<char>,
) -> ZKReceiptView {
    ZKReceiptView {
        status: ReceiptStatus::NON_PROVABLE,
        non_provable: Some(NonProvableView { reason_code: reason, details }),
        timing: TimingView { updated_at: now, ..receipt.timing },
        proof: no_proof(),
        integrity: integrity_of(
            signer,
            receipt_version,
            ReceiptStatus::NON_PROVABLE,
            receipt.claim.claim_hash,
            receipt.provenance.evidence_root,
            no_proof().public_inputs_hash,
        ),
        ..receipt
    }
}

/// However a receipt is built, its integrity chain is the one that its content
/// gives: a pending, a proved and a not provable receipt each carry the chain
/// over their own status, claim hash, evidence root and proof hash.
pub proof fn lemma_built_receipts_keep_integrity(
    receipt: ZKReceiptView,
    request: ProofRequestView,
    policy: PolicyEngine,
    signer: Seq<char>,
    receipt_version: Seq<char>,
    receipt_id: Seq<char>,
    now: Seq<char>,
    claim_hash: Seq<char>,
    statement: Seq<char>,
    bundle: EvidenceBundleView,
    proof: ProofMetadataView,
    reason: NonProvableReason,
    details: Seq<char>,
)
    ensures
        integrity_holds(
            pending_receipt_of(request, policy, signer, receipt_version, receipt_id, now),
            signer,
            receipt_version,
        ),
        integrity_holds(
            proved_receipt_of(
                receipt,
                claim_hash,
                statement,
                bundle,
                proof,
                signer,
                receipt_version,
                now,
            ),
            signer,
            receipt_version,
        ),
        integrity_holds(
            non_provable_receipt_of(receipt, reason, details, signer, receipt_version, now),
            signer,
            receipt_version,
        ),
{
}

/// Builds the pending receipt of a request under `receipt_id`, created at
/// `now`.
pub fn pending_receipt(
    request: &ProofRequest,
    policy: &PolicyEngine,
    signer: &str,
    receipt_version: &str,
    receipt_id: String,
    now: String,
) -> (receipt: ZKReceipt)
    ensures
        receipt@ == pending_receipt_of(
            request@,
            *policy,
            signer@,
            receipt_version@,
            receipt_id@,
            now@,
        ),
{
    let hashed = JsonObject::new().with(
        JsonField::text("account_ref", request.account_ref.as_str()),
    ).with(JsonField::text("claim_type", request.claim_type.as_str())).with(
        JsonField::optional("execution_ref", &request.execution_ref),
    ).with(JsonField::text("order_ref", request.order_ref.as_str())).with(
        JsonField::text("venue", request.venue.as_str()),
    );
    assert(hashed@ =~= seq![
        text_member("account_ref"@, request@.account_ref),
        text_member("claim_type"@, claim_type_text(request.claim_type)),
        opt_member("execution_ref"@, request@.execution_ref),
        text_member("order_ref"@, request@.order_ref),
        text_member("venue"@, venue_text(request.venue)),
    ]);
    let claim_hash = hash_json(&hashed);
    let empty = JsonObject::new().with(
        JsonField { name: "empty".to_owned(), value: JsonValue::Bool(true) },
    );
    assert(empty@ =~= seq![JsonFieldView { name: "empty"@, value: JsonValueView::Bool(true) }]);
    let evidence_root = hash_json(&empty);
    let proof = no_proof_metadata();
    let integrity = build_integrity(
        signer,
        receipt_version,
        ReceiptStatus::PENDING,
        claim_hash.as_str(),
        evidence_root.as_str(),
        proof.public_inputs_hash.as_str(),
    );
    let receipt = ZKReceipt {
        receipt_id,
        version: receipt_version.to_owned(),
        status: ReceiptStatus::PENDING,
        claim: TruthClaim {
            claim_type: request.claim_type,
            statement: "PENDING: statement unavailable until evidence collection completes".to_owned(),
            claim_hash,
        },
        subject: Subject {
            venue: request.venue,
            account_ref: request.account_ref.clone(),
            order_ref: request.order_ref.clone(),
            execution_ref: crate::text::clone_opt(&request.execution_ref),
        },
        policy: PolicyContext {
            policy_id: policy.policy_id(),
            finality_rule_id: policy.finality_rule_id(),
            source_precedence_version: policy.source_precedence_version(),
        },
        provenance: Provenance { evidence_root, evidence_items: Vec::new() },
        timing: Timing {
            created_at: now.clone(),
            updated_at: now,
            execution_observed_at: None,
            finality_observed_at: None,
        },
        proof,
        integrity,
        non_provable: None,
    };
    assert(receipt@.provenance.evidence_items =~= Seq::empty());
    receipt
}

/// Turns `receipt` into a proved receipt at `now`.
pub fn build_proved_receipt_at(
    receipt: ZKReceipt,
    claim_hash: String,
    statement: String,
    bundle: EvidenceBundle,
    proof: ProofMetadata,
    signer: &str,
    receipt_version: &str,
    now: String,
) -> (proved: ZKReceipt)
    ensures
        proved@ == proved_receipt_of(
            receipt@,
            claim_hash@,
            statement@,
            bundle@,
            proof@,
            signer@,
            receipt_version@,
            now@,
        ),
{
    let evidence_root = bundle.evidence_root();
    let integrity = build_integrity(
        signer,
        receipt_version,
        ReceiptStatus::PROVED,
        claim_hash.as_str(),
        evidence_root.as_str(),
        proof.public_inputs_hash.as_str(),
    );
    ZKReceipt {
        receipt_id: receipt.receipt_id,
        version: receipt.version,
        status: ReceiptStatus::PROVED,
        claim: TruthClaim { claim_type: receipt.claim.claim_type, statement, claim_hash },
        subject: receipt.subject,
        policy: receipt.policy,
        provenance: Provenance { evidence_root, evidence_items: bundle.items },
        timing: Timing {
            created_at: receipt.timing.created_at,
            updated_at: now.clone(),
            execution_observed_at: Some(now),
            finality_observed_at: bundle.finality_observed_at,
        },
        proof,
        integrity,
        non_provable: None,
    }
}

/// Turns `receipt` into a proved receipt, stamped with the current time.
pub fn build_proved_receipt(
    receipt: ZKReceipt,
    claim_hash: String,
    statement: String,
    bundle: EvidenceBundle,
    proof: ProofMetadata,
    signer: &str,
    receipt_version: &str,
) -> (proved: ZKReceipt)
    ensures
        proved@ == proved_receipt_of(
            receipt@,
            claim_hash@,
            statement@,
            bundle@,
            proof@,
            signer@,
            receipt_version@,
            proved@.timing.updated_at,
        ),
{
    build_proved_receipt_at(
        receipt,
        claim_hash,
        statement,
        bundle,
        proof,
        signer,
        receipt_version,
        now_iso(),
    )
}

/// Turns `receipt` into a receipt that is not provable for `reason`, at `now`.
pub fn mark_non_provable_at(
    receipt: ZKReceipt,
    reason: NonProvableReason,
    details: String,
    signer: &str,
    receipt_version: &str,
    now: String,
) -> (marked: ZKReceipt)
    ensures
        marked@ == non_provable_receipt_of(
            receipt@,
            reason,
            details@,
            signer@,
            receipt_version@,
            now@,
        ),
{
    let proof = no_proof_metadata();
    let integrity = build_integrity(
        signer,
        receipt_version,
        ReceiptStatus::NON_PROVABLE,
        receipt.claim.claim_hash.as_str(),
        receipt.provenance.evidence_root.as_str(),
        proof.public_inputs_hash.as_str(),
    );
    ZKReceipt {
        receipt_id: receipt.receipt_id,
        version: receipt.version,
        status: ReceiptStatus::NON_PROVABLE,
        claim: receipt.claim,
        subject: receipt.subject,
        policy: receipt.policy,
        provenance: receipt.provenance,
        timing: Timing {
            created_at: receipt.timing.created_at,
            updated_at: now,
            execution_observed_at: receipt.timing.execution_observed_at,
            finality_observed_at: receipt.timing.finality_observed_at,
        },
        proof,
        integrity,
        non_provable: Some(NonProvable { reason_code: reason, details }),
    }
}

/// Turns `receipt` into a receipt that is not provable for `reason`, stamped
/// with the current time.
pub fn mark_non_provable(
    receipt: ZKReceipt,
    reason: NonProvableReason,
    details: String,
    signer: &str,
    receipt_version: &str,
) -> (marked: ZKReceipt)
    ensures
        marked@ == non_provable_receipt_of(
            receipt@,
            reason,
            details@,
            signer@,
            receipt_version@,
            marked@.timing.updated_at,
        ),
{
    mark_non_provable_at(receipt, reason, details, signer, receipt_version, now_iso())
}

/// Why the engine could not answer.
#[derive(Debug)]
pub enum EngineError {
    /// No receipt was ever stored under the identifier.
    UnknownReceipt { receipt_id: String },
}

impl EngineError {
    /// The error in words.
    pub fn message(&self) -> (text: String)
        ensures
            self matches EngineError::UnknownReceipt { receipt_id } ==> text@
                == "unknown receipt id: "@ + receipt_id@,
    {
        match self {
            EngineError::UnknownReceipt { receipt_id } => {
                let mut text = String::from_str("unknown receipt id: ");
                text.append(receipt_id.as_str());
                text
            },
        }
    }
}

/// An adapter together with the venue that it serves.
pub struct Registration<A> {
    pub venue: Venue,
    pub adapter: A,
}

/// Whether one of the adapters serves `venue`.
pub open spec fn some_adapter_serves<A: VenueAdapter>(adapters: Seq<A>, venue: Venue) -> bool {
    exists|i: int| 0 <= i < adapters.len() && (#[trigger] adapters[i]).served() == venue
}

/// Whether `receipt` may stand in the store under `id`: it carries that
/// identifier and the engine's version, its integrity chain is the one that its
/// content gives, it is pending exactly while its pipeline is due, it is never
/// invalidated, and where it is proved its proof verifies.
pub open spec fn stored_soundly(
    receipt: ZKReceiptView,
    id: Seq<char>,
    signing: Signing,
    awaited: bool,
) -> bool {
    &&& receipt.receipt_id == id
    &&& receipt.version == signing.receipt_version
    &&& integrity_holds(receipt, signing.signer, signing.receipt_version)
    &&& awaited <==> receipt.status == ReceiptStatus::PENDING
    &&& receipt.status != ReceiptStatus::INVALIDATED
    &&& receipt.status == ReceiptStatus::PROVED ==> crate::offchain::verifies(receipt)
}

/// The receipt engine. It owns the receipts, each under its identifier, and the
/// work that is still due: the request of every submission whose pipeline has
/// not been run yet.
pub struct ReceiptEngine<A: VenueAdapter, P: ProverBackend> {
    adapters: Vec<Registration<A>>,
    policy_engine: PolicyEngine,
    prover: P,
    verifier: OffchainVerifier,
    signer: String,
    receipt_version: String,
    store: StringHashMap<ZKReceipt>,
    tasks: StringHashMap<ProofRequest>,
}

impl<A: VenueAdapter, P: ProverBackend> ReceiptEngine<A, P> {
    /// The receipt stored under `id`, if there is one.
    pub closed spec fn receipt(&self, id: Seq<char>) -> Option<ZKReceiptView> {
        if self.store@.contains_key(id) {
            Some(self.store@[id]@)
        } else {
            None
        }
    }

    /// Whether the pipeline of the submission `id` is still due.
    pub closed spec fn awaited(&self, id: Seq<char>) -> bool {
        self.tasks@.contains_key(id)
    }

    /// The request of the submission `id`, while its pipeline is due.
    pub closed spec fn request_of(&self, id: Seq<char>) -> ProofRequestView {
        self.tasks@[id]@
    }

    /// The signer and version of the engine's receipts.
    pub closed spec fn signing(&self) -> Signing {
        Signing { signer: self.signer@, receipt_version: self.receipt_version@ }
    }

    /// The policy that the engine judges by.
    pub closed spec fn policy(&self) -> PolicyEngine {
        self.policy_engine
    }

    /// Whether an adapter is registered for `venue`.
    pub closed spec fn registered(&self, venue: Venue) -> bool {
        exists|i: int|
            0 <= i < self.adapters@.len() && (#[trigger] self.adapters@[i]).venue == venue
    }

    /// Whether the engine is in order: every receipt is stored soundly, and
    /// work is due only for receipts that are stored.
    pub closed spec fn wf(&self) -> bool {
        &&& forall|id: Seq<char>| #[trigger]
            self.tasks@.contains_key(id) ==> self.store@.contains_key(id)
        &&& forall|id: Seq<char>| #[trigger]
            self.store@.contains_key(id) ==> stored_soundly(
                self.store@[id]@,
                id,
                self.signing(),
                self.tasks@.contains_key(id),
            )
    }

    /// In an engine that is in order every receipt is stored soundly: under
    /// its own identifier, with the integrity chain that its content gives,
    /// pending exactly while its pipeline is due.
    pub proof fn lemma_receipts_stored_soundly(&self, id: Seq<char>)
        requires
            self.wf(),
            self.receipt(id) is Some,
        ensures
            stored_soundly(self.receipt(id)->0, id, self.signing(), self.awaited(id)),
    {
    }

    /// Whether `self` is set up as `other` is: the same adapters, policy,
    /// signer and version.
    pub closed spec fn same_setup(&self, other: &Self) -> bool {
        &&& self.adapters == other.adapters
        &&& self.policy_engine == other.policy_engine
        &&& self.signer == other.signer
        &&& self.receipt_version == other.receipt_version
    }

    /// An engine over the adapters given, without receipts. Each adapter is
    /// registered for the venue that it names; of two adapters that name the
    /// same venue, the later one serves it.
    pub fn new(
        adapters: Vec<A>,
        policy_engine: PolicyEngine,
        prover: P,
        verifier: OffchainVerifier,
    ) -> (engine: Self)
        ensures
            engine.wf(),
            forall|id: Seq<char>| engine.receipt(id) is None && !engine.awaited(id),
            engine.policy() == policy_engine,
            engine.signing() == (Signing {
                signer: "zkputer-dev-signer"@,
                receipt_version: "v0.1.0"@,
            }),
            forall|venue: Venue|
                engine.registered(venue) == some_adapter_serves(adapters@, venue),
    {
        let ghost given = adapters@;
        let mut adapters = adapters;
        let mut registry: Vec<Registration<A>> = Vec::new();
        while adapters.len() > 0
            invariant
                adapters@.len() <= given.len(),
                adapters@ == given.take(adapters@.len() as int),
                registry@.len() + adapters@.len() == given.len(),
                forall|k: int|
                    0 <= k < registry@.len() ==> (#[trigger] registry@[k]).venue == given[given.len()
                        - 1 - k].served(),
            decreases adapters.len(),
        {
            let ghost before = adapters@;
            match adapters.pop() {
                Some(adapter) => {
                    assert(adapter == before.last());
                    assert(adapters@ =~= given.take(adapters@.len() as int));
                    let venue = adapter.venue();
                    registry.push(Registration { venue, adapter });
                },
                None => {},
            }
        }
        proof {
            assert forall|venue: Venue|
                (exists|i: int| 0 <= i < registry@.len() && (#[trigger] registry@[i]).venue == venue)
                    == some_adapter_serves(given, venue) by {
                if some_adapter_serves(given, venue) {
                    let j = choose|j: int| 0 <= j < given.len() && (#[trigger] given[j]).served() == venue;
                    assert(registry@[given.len() - 1 - j].venue == venue);
                }
                if exists|i: int| 0 <= i < registry@.len() && (#[trigger] registry@[i]).venue == venue {
                    let i = choose|i: int| 0 <= i < registry@.len() && (#[trigger] registry@[i]).venue == venue;
                    assert(given[given.len() - 1 - i].served() == venue);
                }
            }
        }
        ReceiptEngine {
            adapters: registry,
            policy_engine,
            prover,
            verifier,
            signer: "zkputer-dev-signer".to_owned(),
            receipt_version: "v0.1.0".to_owned(),
            store: StringHashMap::new(),
            tasks: StringHashMap::new(),
        }
    }

    /// The adapter that serves `venue`, if one is registered.
    fn adapter_for(&self, venue: Venue) -> (found: Option<&A>)
        ensures
            found is Some == self.registered(venue),
    {
        let mut i: usize = 0;
        while i < self.adapters.len()
            invariant
                i <= self.adapters.len(),
                forall|k: int| 0 <= k < i ==> self.adapters@[k].venue != venue,
            decreases self.adapters.len() - i,
        {
            if self.adapters[i].venue == venue {
                return Some(&self.adapters[i].adapter);
            }
            i += 1;
        }
        None
    }

    /// The pending receipt of a request, under a fresh identifier and stamped
    /// with the current time.
    pub fn new_pending_receipt(&self, request: &ProofRequest) -> (receipt: ZKReceipt)
        ensures
            receipt@ == pending_receipt_of(
                request@,
                self.policy(),
                self.signing().signer,
                self.signing().receipt_version,
                receipt@.receipt_id,
                receipt@.timing.created_at,
            ),
    {
        pending_receipt(
            request,
            &self.policy_engine,
            self.signer.as_str(),
            self.receipt_version.as_str(),
            new_receipt_id(),
            now_iso(),
        )
    }

    /// Takes a request: stores its pending receipt, notes that its pipeline is
    /// due, and returns the receipt's identifier. No adapter and no prover is
    /// asked for anything yet.
    pub fn submit(&mut self, request: ProofRequest) -> (submitted: Result<String, EngineError>)
        requires
            old(self).wf(),
        ensures
            final(self).wf(),
            submitted is Ok,
            final(self).same_setup(old(self)),
            final(self).receipt(submitted->Ok_0@) is Some,
            final(self).receipt(submitted->Ok_0@)->0 == pending_receipt_of(
                request@,
                old(self).policy(),
                old(self).signing().signer,
                old(self).signing().receipt_version,
                submitted->Ok_0@,
                final(self).receipt(submitted->Ok_0@)->0.timing.created_at,
            ),
            final(self).awaited(submitted->Ok_0@),
            final(self).request_of(submitted->Ok_0@) == request@,
            forall|other: Seq<char>|
                other != submitted->Ok_0@ ==> final(self).receipt(other) == old(self).receipt(other)
                    && final(self).awaited(other) == old(self).awaited(other),
    {
        let receipt = self.new_pending_receipt(&request);
        let receipt_id = receipt.receipt_id.clone();
        self.store.insert(receipt_id.clone(), receipt);
        self.tasks.insert(receipt_id.clone(), request);
        Ok(receipt_id)
    }

    /// A snapshot of the receipt stored under `receipt_id`.
    pub fn get_receipt(&self, receipt_id: &str) -> (found: Option<ZKReceipt>)
        ensures
            match found {
                Some(receipt) => self.receipt(receipt_id@) == Some(receipt@),
                None => self.receipt(receipt_id@) is None,
            },
    {
        match self.store.get(receipt_id) {
            Some(receipt) => Some(receipt.clone()),
            None => None,
        }
    }

    /// Waits for the outcome of a submission. Where the submission's pipeline
    /// is still due, it is run to its end now, and its terminal receipt replaces
    /// the pending one; a later call finds no work left and returns the receipt
    /// as it is stored. An identifier that was never stored is an error.
    pub fn wait_for_receipt(&mut self, receipt_id: &str) -> (waited: Result<ZKReceipt, EngineError>)
        requires
            old(self).wf(),
        ensures
            final(self).wf(),
            final(self).same_setup(old(self)),
            !final(self).awaited(receipt_id@),
            forall|other: Seq<char>|
                other != receipt_id@ ==> final(self).receipt(other) == old(self).receipt(other)
                    && final(self).awaited(other) == old(self).awaited(other),
            match waited {
                Ok(receipt) => {
                    &&& old(self).receipt(receipt_id@) is Some
                    &&& final(self).receipt(receipt_id@) == Some(receipt@)
                    &&& old(self).awaited(receipt_id@) ==> terminal_of(
                        receipt@,
                        old(self).receipt(receipt_id@)->0,
                        old(self).signing(),
                    )
                    &&& old(self).awaited(receipt_id@) && !old(self).registered(
                        old(self).request_of(receipt_id@).venue,
                    ) ==> receipt@ == non_provable_receipt_of(
                        old(self).receipt(receipt_id@)->0,
                        NonProvableReason::UNSUPPORTED_VENUE_CLAIM,
                        unsupported_venue_details(old(self).request_of(receipt_id@).venue),
                        old(self).signing().signer,
                        old(self).signing().receipt_version,
                        receipt@.timing.updated_at,
                    )
                    &&& old(self).awaited(receipt_id@) && old(self).registered(
                        old(self).request_of(receipt_id@).venue,
                    ) ==> ends_a_run(
                        receipt@,
                        old(self).receipt(receipt_id@)->0,
                        old(self).request_of(receipt_id@),
                        old(self).policy(),
                        old(self).signing(),
                    )
                    &&& !old(self).awaited(receipt_id@) ==> Some(receipt@) == old(self).receipt(
                        receipt_id@,
                    )
                },
                Err(EngineError::UnknownReceipt { receipt_id: unknown }) => {
                    &&& unknown@ == receipt_id@
                    &&& old(self).receipt(receipt_id@) is None
                    &&& final(self).receipt(receipt_id@) is None
                },
            },
    {
        let due = match self.tasks.get(receipt_id) {
            Some(request) => Some(request.clone()),
            None => None,
        };
        match due {
            Some(request) => {
                self.tasks.remove(receipt_id);
                let current = match self.store.get(receipt_id) {
                    Some(receipt) => Some(receipt.clone()),
                    None => None,
                };
                match current {
                    Some(receipt) => {
                        let done = process_receipt_task(
                            receipt,
                            self.adapter_for(request.venue),
                            &self.policy_engine,
                            &self.prover,
                            &self.verifier,
                            self.signer.as_str(),
                            self.receipt_version.as_str(),
                            &request,
                        );
                        self.store.insert(receipt_id.to_owned(), done);
                    },
                    None => {},
                }
            },
            None => {},
        }
        match self.get_receipt(receipt_id) {
            Some(receipt) => Ok(receipt),
            None => Err(EngineError::UnknownReceipt { receipt_id: receipt_id.to_owned() }),
        }
    }
}

} // verus!
