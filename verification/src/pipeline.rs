//! The receipt pipeline as a state machine. Between two states lies work that
//! is done outside: a call to the venue's adapter or to the prover. The machine
//! says which work is due, and decides from its outcome how to go on.

use crate::adapters::base::VenueAdapter;
use crate::engine::{
    build_proved_receipt_at, final_claim_hash, integrity_holds, mark_non_provable_at,
    non_provable_receipt_of, proved_receipt_of,
};
use crate::json::{hash_json, opt_member, text_member, JsonField, JsonFieldView, JsonObject};
use crate::models::{
    claim_type_text, evidence_root_of, now_iso, ClaimType, EvidenceBundle, EvidenceBundleView,
    ExecutionAck, ExecutionAckView, NonProvableReason, ProofMetadata, ProofMetadataView,
    ProofRequest, ProofRequestView, ReceiptStatus, Venue, ZKReceipt, ZKReceiptView,
};
use crate::offchain::{public_inputs, public_inputs_of, verifies, OffchainVerifier};
use crate::policy::{PolicyDecisionView, PolicyEngine};
use crate::prover::ProverBackend;
use vstd::prelude::*;
use vstd::string::*;

verus! {

/// Where the pipeline of one receipt stands: which outside work it waits for,
/// or the terminal receipt that it has reached.
#[derive(Debug)]
pub enum PipelineState {
    /// The venue has to acknowledge the order.
    AwaitingAck { receipt: ZKReceipt },
    /// The venue has to hand over its evidence.
    AwaitingEvidence { receipt: ZKReceipt, ack: ExecutionAck },
    /// The adapter has to put the claim in words.
    AwaitingStatement { receipt: ZKReceipt, ack: ExecutionAck, bundle: EvidenceBundle },
    /// The prover has to prove the public inputs.
    AwaitingProof {
        receipt: ZKReceipt,
        bundle: EvidenceBundle,
        statement: String,
        claim_hash: String,
        public_inputs: JsonObject,
    },
    /// The pipeline has ended with this receipt.
    Finished { receipt: ZKReceipt },
}

/// What a [`PipelineState`] holds.
pub enum PipelineStateView {
    AwaitingAck { receipt: ZKReceiptView },
    AwaitingEvidence { receipt: ZKReceiptView, ack: ExecutionAckView },
    AwaitingStatement { receipt: ZKReceiptView, ack: ExecutionAckView, bundle: EvidenceBundleView },
    AwaitingProof {
        receipt: ZKReceiptView,
        bundle: EvidenceBundleView,
        statement: Seq<char>,
        claim_hash: Seq<char>,
        public_inputs: Seq<JsonFieldView>,
    },
    Finished { receipt: ZKReceiptView },
}

impl View for PipelineState {
    type V = PipelineStateView;

    open spec fn view(&self) -> PipelineStateView {
        match self {
            PipelineState::AwaitingAck { receipt } => PipelineStateView::AwaitingAck {
                receipt: receipt@,
            },
            PipelineState::AwaitingEvidence { receipt, ack } => PipelineStateView::AwaitingEvidence {
                receipt: receipt@,
                ack: ack@,
            },
            PipelineState::AwaitingStatement {
                receipt,
                ack,
                bundle,
            } => PipelineStateView::AwaitingStatement {
                receipt: receipt@,
                ack: ack@,
                bundle: bundle@,
            },
            PipelineState::AwaitingProof {
                receipt,
                bundle,
                statement,
                claim_hash,
                public_inputs,
            } => PipelineStateView::AwaitingProof {
                receipt: receipt@,
                bundle: bundle@,
                statement: statement@,
                claim_hash: claim_hash@,
                public_inputs: public_inputs@,
            },
            PipelineState::Finished { receipt } => PipelineStateView::Finished { receipt: receipt@ },
        }
    }
}

/// The outcome of the outside work that a state waited for.
#[derive(Debug)]
pub enum PipelineEvent {
    Acknowledged(Result<ExecutionAck, String>),
    EvidenceCollected(Result<EvidenceBundle, String>),
    StatementBuilt(Result<String, String>),
    ProofMade(Result<ProofMetadata, String>),
}

/// What a [`PipelineEvent`] holds.
pub enum PipelineEventView {
    Acknowledged(Result<ExecutionAckView, Seq<char>>),
    EvidenceCollected(Result<EvidenceBundleView, Seq<char>>),
    StatementBuilt(Result<Seq<char>, Seq<char>>),
    ProofMade(Result<ProofMetadataView, Seq<char>>),
}

impl View for PipelineEvent {
    type V = PipelineEventView;

    open spec fn view(&self) -> PipelineEventView {
        match self {
            PipelineEvent::Acknowledged(Ok(ack)) => PipelineEventView::Acknowledged(Ok(ack@)),
            PipelineEvent::Acknowledged(Err(e)) => PipelineEventView::Acknowledged(Err(e@)),
            PipelineEvent::EvidenceCollected(Ok(bundle)) => PipelineEventView::EvidenceCollected(
                Ok(bundle@),
            ),
            PipelineEvent::EvidenceCollected(Err(e)) => PipelineEventView::EvidenceCollected(
                Err(e@),
            ),
            PipelineEvent::StatementBuilt(Ok(text)) => PipelineEventView::StatementBuilt(Ok(text@)),
            PipelineEvent::StatementBuilt(Err(e)) => PipelineEventView::StatementBuilt(Err(e@)),
            PipelineEvent::ProofMade(Ok(proof)) => PipelineEventView::ProofMade(Ok(proof@)),
            PipelineEvent::ProofMade(Err(e)) => PipelineEventView::ProofMade(Err(e@)),
        }
    }
}

/// What the pipeline is run with: the signer and version of its receipts.
pub struct Signing {
    pub signer: Seq<char>,
    pub receipt_version: Seq<char>,
}

/// The name of a venue as the details of a receipt spell it.
pub open spec fn venue_name(venue: Venue) -> Seq<char> {
    match venue {
        Venue::Hyperliquid => "Hyperliquid"@,
        Venue::Base => "Base"@,
        Venue::Solana => "Solana"@,
        Venue::Polymarket => "Polymarket"@,
    }
}

/// The details of a receipt for a venue that has no adapter.
pub open spec fn unsupported_venue_details(venue: Venue) -> Seq<char> {
    "No adapter registered for venue "@ + venue_name(venue)
}

/// The details of a receipt whose proof did not pass verification.
pub open spec fn verification_failed_details() -> Seq<char> {
    "Offchain verification failed for produced proof metadata."@
}

/// The state in which the pipeline of `receipt` starts. Without an adapter for
/// the venue it ends at once, and no outside work is asked for.
pub open spec fn begin_of(
    receipt: ZKReceiptView,
    adapter_registered: bool,
    venue: Venue,
    signing: Signing,
    now: Seq<char>,
) -> PipelineStateView {
    if adapter_registered {
        PipelineStateView::AwaitingAck { receipt }
    } else {
        PipelineStateView::Finished {
            receipt: non_provable_receipt_of(
                receipt,
                NonProvableReason::UNSUPPORTED_VENUE_CLAIM,
                unsupported_venue_details(venue),
                signing.signer,
                signing.receipt_version,
                now,
            ),
        }
    }
}

/// The pipeline ended with `receipt` not provable for `reason`.
pub open spec fn failed(
    receipt: ZKReceiptView,
    reason: NonProvableReason,
    details: Seq<char>,
    signing: Signing,
    now: Seq<char>,
) -> PipelineStateView {
    PipelineStateView::Finished {
        receipt: non_provable_receipt_of(
            receipt,
            reason,
            details,
            signing.signer,
            signing.receipt_version,
            now,
        ),
    }
}

/// The reason that a rejection carries: the one that the policy reports, or
/// `POLICY_VIOLATION` where it reports none.
pub open spec fn rejection_reason(decision: PolicyDecisionView) -> NonProvableReason {
    match decision.reason {
        Some(reason) => reason,
        None => NonProvableReason::POLICY_VIOLATION,
    }
}

/// How the pipeline goes on once the evidence is there: the policy judges it.
pub open spec fn after_evidence(
    receipt: ZKReceiptView,
    ack: ExecutionAckView,
    bundle: EvidenceBundleView,
    request: ProofRequestView,
    policy: PolicyEngine,
    signing: Signing,
    now: Seq<char>,
) -> PipelineStateView {
    let decision = policy.decide(request.venue, request.claim_type, bundle);
    if decision.ok {
        PipelineStateView::AwaitingStatement { receipt, ack, bundle }
    } else {
        failed(receipt, rejection_reason(decision), decision.details, signing, now)
    }
}

/// How the pipeline goes on once the statement is there: the claim hash is
/// computed over it, and the public inputs are put together.
pub open spec fn after_statement(
    receipt: ZKReceiptView,
    bundle: EvidenceBundleView,
    statement: Seq<char>,
    request: ProofRequestView,
) -> PipelineStateView {
    let claim_hash = final_claim_hash(request, statement);
    PipelineStateView::AwaitingProof {
        receipt,
        bundle,
        statement,
        claim_hash,
        public_inputs: public_inputs_of(
            claim_hash,
            evidence_root_of(bundle.items),
            request.venue,
            request.claim_type,
        ),
    }
}

/// How the pipeline ends once the proof is there: the proved receipt is put
/// together and verified; one that does not verify is not provable.
pub open spec fn after_proof(
    receipt: ZKReceiptView,
    bundle: EvidenceBundleView,
    statement: Seq<char>,
    claim_hash: Seq<char>,
    proof: ProofMetadataView,
    signing: Signing,
    now: Seq<char>,
) -> PipelineStateView {
    let proved = proved_receipt_of(
        receipt,
        claim_hash,
        statement,
        bundle,
        proof,
        signing.signer,
        signing.receipt_version,
        now,
    );
    if verifies(proved) {
        PipelineStateView::Finished { receipt: proved }
    } else {
        failed(
            proved,
            NonProvableReason::PROOF_FAILURE,
            verification_failed_details(),
            signing,
            now,
        )
    }
}

/// The state that follows `state` on `event`, at `now`. An event that is not
/// the outcome of the work that the state waited for leaves the state as it is.
pub open spec fn step_of(
    state: PipelineStateView,
    event: PipelineEventView,
    request: ProofRequestView,
    policy: PolicyEngine,
    signing: Signing,
    now: Seq<char>,
) -> PipelineStateView {
    match (state, event) {
        (
            PipelineStateView::AwaitingAck { receipt },
            PipelineEventView::Acknowledged(Ok(ack)),
        ) => PipelineStateView::AwaitingEvidence { receipt, ack },
        (PipelineStateView::AwaitingAck { receipt }, PipelineEventView::Acknowledged(Err(e))) => failed(
            receipt,
            NonProvableReason::SOURCE_UNAVAILABLE,
            e,
            signing,
            now,
        ),
        (
            PipelineStateView::AwaitingEvidence { receipt, ack },
            PipelineEventView::EvidenceCollected(Ok(bundle)),
        ) => after_evidence(receipt, ack, bundle, request, policy, signing, now),
        (
            PipelineStateView::AwaitingEvidence { receipt, ack },
            PipelineEventView::EvidenceCollected(Err(e)),
        ) => failed(receipt, NonProvableReason::SOURCE_UNAVAILABLE, e, signing, now),
        (
            PipelineStateView::AwaitingStatement { receipt, ack, bundle },
            PipelineEventView::StatementBuilt(Ok(statement)),
        ) => after_statement(receipt, bundle, statement, request),
        (
            PipelineStateView::AwaitingStatement { receipt, ack, bundle },
            PipelineEventView::StatementBuilt(Err(e)),
        ) => failed(receipt, NonProvableReason::POLICY_VIOLATION, e, signing, now),
        (
            PipelineStateView::AwaitingProof { receipt, bundle, statement, claim_hash, public_inputs },
            PipelineEventView::ProofMade(Ok(proof)),
        ) => after_proof(receipt, bundle, statement, claim_hash, proof, signing, now),
        (
            PipelineStateView::AwaitingProof { receipt, bundle, statement, claim_hash, public_inputs },
            PipelineEventView::ProofMade(Err(e)),
        ) => failed(receipt, NonProvableReason::PROOF_FAILURE, e, signing, now),
        _ => state,
    }
}

/// The name of a venue as the details of a receipt spell it.
pub fn venue_debug_name(venue: Venue) -> (name: &'static str)
    ensures
        name@ == venue_name(venue),
{
    match venue {
        Venue::Hyperliquid => "Hyperliquid",
        Venue::Base => "Base",
        Venue::Solana => "Solana",
        Venue::Polymarket => "Polymarket",
    }
}

/// Ends a receipt whose venue has no adapter: it is not provable, for an
/// unsupported venue.
pub fn reject_unsupported_venue(
    receipt: ZKReceipt,
    venue: Venue,
    signer: &str,
    receipt_version: &str,
    now: String,
) -> (rejected: ZKReceipt)
    ensures
        rejected@ == non_provable_receipt_of(
            receipt@,
            NonProvableReason::UNSUPPORTED_VENUE_CLAIM,
            unsupported_venue_details(venue),
            signer@,
            receipt_version@,
            now@,
        ),
{
    let mut details = String::from_str("No adapter registered for venue ");
    details.append(venue_debug_name(venue));
    mark_non_provable_at(
        receipt,
        NonProvableReason::UNSUPPORTED_VENUE_CLAIM,
        details,
        signer,
        receipt_version,
        now,
    )
}

impl PipelineState {
    /// Starts the pipeline of a pending receipt. `adapter_registered` says
    /// whether the request's venue has an adapter.
    pub fn begin(
        receipt: ZKReceipt,
        adapter_registered: bool,
        venue: Venue,
        signer: &str,
        receipt_version: &str,
        now: String,
    ) -> (state: PipelineState)
        ensures
            state@ == begin_of(
                receipt@,
                adapter_registered,
                venue,
                Signing { signer: signer@, receipt_version: receipt_version@ },
                now@,
            ),
    {
        if adapter_registered {
            PipelineState::AwaitingAck { receipt }
        } else {
            PipelineState::Finished {
                receipt: reject_unsupported_venue(receipt, venue, signer, receipt_version, now),
            }
        }
    }

    /// Whether the pipeline has ended.
    pub fn is_finished(&self) -> (finished: bool)
        ensures
            finished == (self@ is Finished),
    {
        match self {
            PipelineState::Finished { .. } => true,
            _ => false,
        }
    }

    /// Takes the outcome of the work that the state waited for, and moves on.
    pub fn step(
        self,
        event: PipelineEvent,
        request: &ProofRequest,
        policy: &PolicyEngine,
        verifier: &OffchainVerifier,
        signer: &str,
        receipt_version: &str,
        now: String,
    ) -> (next: PipelineState)
        ensures
            next@ == step_of(
                self@,
                event@,
                request@,
                *policy,
                Signing { signer: signer@, receipt_version: receipt_version@ },
                now@,
            ),
    {
        match (self, event) {
            (
                PipelineState::AwaitingAck { receipt },
                PipelineEvent::Acknowledged(Ok(ack)),
            ) => PipelineState::AwaitingEvidence { receipt, ack },
            (
                PipelineState::AwaitingAck { receipt },
                PipelineEvent::Acknowledged(Err(e)),
            ) => PipelineState::Finished {
                receipt: mark_non_provable_at(
                    receipt,
                    NonProvableReason::SOURCE_UNAVAILABLE,
                    e,
                    signer,
                    receipt_version,
                    now,
                ),
            },
            (
                PipelineState::AwaitingEvidence { receipt, ack },
                PipelineEvent::EvidenceCollected(Ok(bundle)),
            ) => {
                let decision = policy.evaluate(request.venue, request.claim_type, &bundle);
                if decision.ok {
                    PipelineState::AwaitingStatement { receipt, ack, bundle }
                } else {
                    let reason = match decision.reason {
                        Some(reason) => reason,
                        None => NonProvableReason::POLICY_VIOLATION,
                    };
                    PipelineState::Finished {
                        receipt: mark_non_provable_at(
                            receipt,
                            reason,
                            decision.details,
                            signer,
                            receipt_version,
                            now,
                        ),
                    }
                }
            },
            (
                PipelineState::AwaitingEvidence { receipt, ack },
                PipelineEvent::EvidenceCollected(Err(e)),
            ) => PipelineState::Finished {
                receipt: mark_non_provable_at(
                    receipt,
                    NonProvableReason::SOURCE_UNAVAILABLE,
                    e,
                    signer,
                    receipt_version,
                    now,
                ),
            },
            (
                PipelineState::AwaitingStatement { receipt, ack, bundle },
                PipelineEvent::StatementBuilt(Ok(statement)),
            ) => {
                let hashed = JsonObject::new().with(
                    JsonField::text("claim_type", request.claim_type.as_str()),
                ).with(JsonField::optional("execution_ref", &request.execution_ref)).with(
                    JsonField::text("order_ref", request.order_ref.as_str()),
                ).with(JsonField::text("statement", statement.as_str()));
                assert(hashed@ =~= seq![
                    text_member("claim_type"@, claim_type_text(request.claim_type)),
                    opt_member("execution_ref"@, request@.execution_ref),
                    text_member("order_ref"@, request@.order_ref),
                    text_member("statement"@, statement@),
                ]);
                let claim_hash = hash_json(&hashed);
                let evidence_root = bundle.evidence_root();
                let inputs = public_inputs(
                    claim_hash.as_str(),
                    evidence_root.as_str(),
                    request.venue,
                    request.claim_type,
                );
                PipelineState::AwaitingProof {
                    receipt,
                    bundle,
                    statement,
                    claim_hash,
                    public_inputs: inputs,
                }
            },
            (
                PipelineState::AwaitingStatement { receipt, ack, bundle },
                PipelineEvent::StatementBuilt(Err(e)),
            ) => PipelineState::Finished {
                receipt: mark_non_provable_at(
                    receipt,
                    NonProvableReason::POLICY_VIOLATION,
                    e,
                    signer,
                    receipt_version,
                    now,
                ),
            },
            (
                PipelineState::AwaitingProof { receipt, bundle, statement, claim_hash, public_inputs },
                PipelineEvent::ProofMade(Ok(proof)),
            ) => {
                let proved = build_proved_receipt_at(
                    receipt,
                    claim_hash,
                    statement,
                    bundle,
                    proof,
                    signer,
                    receipt_version,
                    now.clone(),
                );
                if verifier.verify(&proved) {
                    PipelineState::Finished { receipt: proved }
                } else {
                    PipelineState::Finished {
                        receipt: mark_non_provable_at(
                            proved,
                            NonProvableReason::PROOF_FAILURE,
                            "Offchain verification failed for produced proof metadata.".to_owned(),
                            signer,
                            receipt_version,
                            now,
                        ),
                    }
                }
            },
            (
                PipelineState::AwaitingProof { receipt, bundle, statement, claim_hash, public_inputs },
                PipelineEvent::ProofMade(Err(e)),
            ) => PipelineState::Finished {
                receipt: mark_non_provable_at(
                    receipt,
                    NonProvableReason::PROOF_FAILURE,
                    e,
                    signer,
                    receipt_version,
                    now,
                ),
            },
            (state, _) => state,
        }
    }
}

impl PipelineStateView {
    /// Whether the pipeline has ended with a receipt that is not provable for
    /// `reason`.
    pub open spec fn ended_for(self, reason: NonProvableReason) -> bool {
        match self {
            PipelineStateView::Finished { receipt } => receipt.status
                == ReceiptStatus::NON_PROVABLE && match receipt.non_provable {
                Some(why) => why.reason_code == reason,
                None => false,
            },
            _ => false,
        }
    }
}

/// Whether the pipeline gives `reason` to a receipt: the two reserved reasons
/// are never given.
pub open spec fn reason_in_use(reason: NonProvableReason) -> bool {
    reason != NonProvableReason::FINALITY_TIMEOUT && reason != NonProvableReason::SCHEMA_INVALID
}

/// Whether `done` is a terminal form of the receipt `origin`: proved or not
/// provable, about the same subject under the same identifier, with an
/// integrity chain that its content gives; where it is proved, with a proof
/// that verifies; where it is not, without a proof and for a reason in use.
pub open spec fn terminal_of(done: ZKReceiptView, origin: ZKReceiptView, signing: Signing) -> bool {
    &&& done.status == ReceiptStatus::PROVED || done.status == ReceiptStatus::NON_PROVABLE
    &&& done.status == ReceiptStatus::PROVED ==> verifies(done) && done.non_provable is None
    &&& done.status == ReceiptStatus::NON_PROVABLE ==> done.proof == crate::prover::no_proof()
        && match done.non_provable {
        Some(why) => reason_in_use(why.reason_code),
        None => false,
    }
    &&& done.receipt_id == origin.receipt_id
    &&& done.version == origin.version
    &&& done.subject == origin.subject
    &&& done.policy == origin.policy
    &&& done.claim.claim_type == origin.claim.claim_type
    &&& done.timing.created_at == origin.timing.created_at
    &&& integrity_holds(done, signing.signer, signing.receipt_version)
}

/// Whether `state` belongs to the pipeline of the receipt `origin`: until the
/// pipeline ends the receipt is untouched, and it ends with a terminal form of
/// it.
pub open spec fn on_track(state: PipelineStateView, origin: ZKReceiptView, signing: Signing) -> bool {
    match state {
        PipelineStateView::AwaitingAck { receipt } => receipt == origin,
        PipelineStateView::AwaitingEvidence { receipt, .. } => receipt == origin,
        PipelineStateView::AwaitingStatement { receipt, .. } => receipt == origin,
        PipelineStateView::AwaitingProof { receipt, .. } => receipt == origin,
        PipelineStateView::Finished { receipt } => terminal_of(receipt, origin, signing),
    }
}

/// How many pieces of outside work a state is away from the end, at most.
pub open spec fn remaining(state: PipelineStateView) -> nat {
    match state {
        PipelineStateView::AwaitingAck { .. } => 4,
        PipelineStateView::AwaitingEvidence { .. } => 3,
        PipelineStateView::AwaitingStatement { .. } => 2,
        PipelineStateView::AwaitingProof { .. } => 1,
        PipelineStateView::Finished { .. } => 0,
    }
}

/// Whether `event` is the outcome of the work that `state` waits for.
pub open spec fn answers(state: PipelineStateView, event: PipelineEventView) -> bool {
    match (state, event) {
        (PipelineStateView::AwaitingAck { .. }, PipelineEventView::Acknowledged(_)) => true,
        (PipelineStateView::AwaitingEvidence { .. }, PipelineEventView::EvidenceCollected(_)) => true,
        (PipelineStateView::AwaitingStatement { .. }, PipelineEventView::StatementBuilt(_)) => true,
        (PipelineStateView::AwaitingProof { .. }, PipelineEventView::ProofMade(_)) => true,
        _ => false,
    }
}

/// Every step keeps the pipeline on track, and a step on the outcome that the
/// state waited for brings it nearer to its end. So every pipeline ends, after
/// at most four pieces of outside work, with a terminal form of its receipt.
pub proof fn lemma_step_keeps_track(
    state: PipelineStateView,
    event: PipelineEventView,
    request: ProofRequestView,
    policy: PolicyEngine,
    signing: Signing,
    now: Seq<char>,
    origin: ZKReceiptView,
)
    requires
        on_track(state, origin, signing),
    ensures
        on_track(step_of(state, event, request, policy, signing, now), origin, signing),
        answers(state, event) ==> remaining(step_of(state, event, request, policy, signing, now))
            < remaining(state),
{
}

/// A bundle that reports a conflict ends the pipeline as not provable, for
/// conflicting evidence, whatever tags it carries and whatever its sources are.
pub proof fn lemma_conflict_ends_pipeline(
    receipt: ZKReceiptView,
    ack: ExecutionAckView,
    bundle: EvidenceBundleView,
    request: ProofRequestView,
    policy: PolicyEngine,
    signing: Signing,
    now: Seq<char>,
)
    requires
        bundle.conflicts.len() > 0,
    ensures
        step_of(
            PipelineStateView::AwaitingEvidence { receipt, ack },
            PipelineEventView::EvidenceCollected(Ok(bundle)),
            request,
            policy,
            signing,
            now,
        ).ended_for(NonProvableReason::EVIDENCE_CONFLICT),
{
}

/// The state that a pipeline reaches from `start` on a run of events, the
/// event at each place taken at the time at the same place.
pub open spec fn run_of(
    start: PipelineStateView,
    events: Seq<PipelineEventView>,
    stamps: Seq<Seq<char>>,
    request: ProofRequestView,
    policy: PolicyEngine,
    signing: Signing,
) -> PipelineStateView
    decreases events.len(),
{
    if events.len() == 0 {
        start
    } else {
        step_of(
            run_of(start, events.drop_last(), stamps.drop_last(), request, policy, signing),
            events.last(),
            request,
            policy,
            signing,
            stamps.last(),
        )
    }
}

/// Whether `done` ends a run of the pipeline of the receipt `origin`: some
/// outcomes of the outside work, taken at some times, lead the state machine
/// from the receipt's first state to `done`.
pub open spec fn ends_a_run(
    done: ZKReceiptView,
    origin: ZKReceiptView,
    request: ProofRequestView,
    policy: PolicyEngine,
    signing: Signing,
) -> bool {
    exists|events: Seq<PipelineEventView>, stamps: Seq<Seq<char>>|
        events.len() == stamps.len() && #[trigger] run_of(
            PipelineStateView::AwaitingAck { receipt: origin },
            events,
            stamps,
            request,
            policy,
            signing,
        ) == (PipelineStateView::Finished { receipt: done })
}

/// The synthetic venue's evidence for an executed trade that names no
/// execution, and asks for no simulated conflict, ends the pipeline as not
/// provable for missing evidence under every policy that requires of an
/// executed trade a tag beyond those of an acknowledged order. The statement
/// and the prover are never asked.
pub proof fn lemma_trade_without_execution_ends_pipeline(
    venue: Venue,
    receipt: ZKReceiptView,
    ack: ExecutionAckView,
    request: ProofRequestView,
    policy: PolicyEngine,
    signing: Signing,
    shadow_at: Seq<char>,
    execution_at: Seq<char>,
    finality_at: Seq<char>,
    now: Seq<char>,
    i: int,
)
    requires
        request.claim_type == ClaimType::TRADE_EXECUTED,
        request.execution_ref is None,
        !crate::adapters::synthetic::simulates_conflict(request.payload),
        0 <= i < policy.required_tags(ClaimType::TRADE_EXECUTED).len(),
        !crate::adapters::synthetic::acceptance_tags().contains(
            policy.required_tags(ClaimType::TRADE_EXECUTED)[i],
        ),
    ensures
        step_of(
            PipelineStateView::AwaitingEvidence { receipt, ack },
            PipelineEventView::EvidenceCollected(
                Ok(
                    crate::adapters::synthetic::synthetic_bundle(
                        venue,
                        request,
                        ack,
                        shadow_at,
                        execution_at,
                        finality_at,
                    ),
                ),
            ),
            request,
            policy,
            signing,
            now,
        ).ended_for(NonProvableReason::EVIDENCE_MISSING),
{
    crate::adapters::synthetic::lemma_trade_without_execution_lacks_evidence(
        venue,
        request,
        ack,
        shadow_at,
        execution_at,
        finality_at,
        policy.required_tags(ClaimType::TRADE_EXECUTED),
        policy.preferred(request.venue, ClaimType::TRADE_EXECUTED),
        i,
    );
}

/// A bundle that the policy rejects ends the pipeline as not provable for the
/// policy's reason, and the adapter's statement and the prover are never asked.
pub proof fn lemma_rejection_ends_pipeline(
    receipt: ZKReceiptView,
    ack: ExecutionAckView,
    bundle: EvidenceBundleView,
    request: ProofRequestView,
    policy: PolicyEngine,
    signing: Signing,
    now: Seq<char>,
    reason: NonProvableReason,
)
    requires
        !policy.decide(request.venue, request.claim_type, bundle).ok,
        policy.decide(request.venue, request.claim_type, bundle).reason == Some(reason),
    ensures
        step_of(
            PipelineStateView::AwaitingEvidence { receipt, ack },
            PipelineEventView::EvidenceCollected(Ok(bundle)),
            request,
            policy,
            signing,
            now,
        ).ended_for(reason),
{
}

/// Runs the pipeline of a pending receipt to its end: it asks the adapter and
/// the prover for each piece of work in turn and decides from what comes back.
/// Without an adapter nothing is asked, and the receipt ends as not provable
/// for an unsupported venue.
pub fn process_receipt_task<A: VenueAdapter, P: ProverBackend>(
    receipt: ZKReceipt,
    adapter: Option<&A>,
    policy: &PolicyEngine,
    prover: &P,
    verifier: &OffchainVerifier,
    signer: &str,
    receipt_version: &str,
    request: &ProofRequest,
) -> (done: ZKReceipt)
    ensures
        terminal_of(
            done@,
            receipt@,
            Signing { signer: signer@, receipt_version: receipt_version@ },
        ),
        adapter is None ==> done@ == non_provable_receipt_of(
            receipt@,
            NonProvableReason::UNSUPPORTED_VENUE_CLAIM,
            unsupported_venue_details(request.venue),
            signer@,
            receipt_version@,
            done@.timing.updated_at,
        ),
        adapter is Some ==> ends_a_run(
            done@,
            receipt@,
            request@,
            *policy,
            Signing { signer: signer@, receipt_version: receipt_version@ },
        ),
{
    let ghost origin = receipt@;
    let ghost signing = Signing { signer: signer@, receipt_version: receipt_version@ };
    let venue_adapter = match adapter {
        Some(venue_adapter) => venue_adapter,
        None => {
            return reject_unsupported_venue(
                receipt,
                request.venue,
                signer,
                receipt_version,
                now_iso(),
            );
        },
    };
    let mut state = PipelineState::begin(
        receipt,
        true,
        request.venue,
        signer,
        receipt_version,
        now_iso(),
    );
    let ghost start = PipelineStateView::AwaitingAck { receipt: origin };
    let ghost mut events = Seq::<PipelineEventView>::empty();
    let ghost mut stamps = Seq::<Seq<char>>::empty();
    loop
        invariant
            adapter is Some,
            origin == receipt@,
            start == (PipelineStateView::AwaitingAck { receipt: origin }),
            on_track(state@, origin, signing),
            signing == (Signing { signer: signer@, receipt_version: receipt_version@ }),
            events.len() == stamps.len(),
            state@ == run_of(start, events, stamps, request@, *policy, signing),
        decreases remaining(state@),
    {
        let event = match &state {
            PipelineState::AwaitingAck { .. } => PipelineEvent::Acknowledged(
                venue_adapter.acknowledge(request),
            ),
            PipelineState::AwaitingEvidence { ack, .. } => PipelineEvent::EvidenceCollected(
                venue_adapter.collect_evidence(request, ack),
            ),
            PipelineState::AwaitingStatement { ack, bundle, .. } => PipelineEvent::StatementBuilt(
                venue_adapter.build_statement(request, ack, bundle),
            ),
            PipelineState::AwaitingProof { public_inputs, .. } => PipelineEvent::ProofMade(
                prover.prove(public_inputs),
            ),
            PipelineState::Finished { receipt } => {
                return receipt.clone();
            },
        };
        let now = now_iso();
        proof {
            lemma_step_keeps_track(state@, event@, request@, *policy, signing, now@, origin);
            assert(events.push(event@).drop_last() =~= events);
            assert(stamps.push(now@).drop_last() =~= stamps);
            events = events.push(event@);
            stamps = stamps.push(now@);
        }
        state = state.step(event, request, policy, verifier, signer, receipt_version, now);
    }
}

} // verus!
