//! The receipt data model: requests, evidence, claims, proof metadata and the
//! receipt that binds them, each with the mathematical value it stands for.

pub use crate::hashing::hash_str;
pub use crate::json::hash_json;
use crate::json::{hash_of_object, JsonField, JsonFieldView, JsonObject, JsonValue, JsonValueView};
use crate::order::{lemma_sorted_texts_of_permutation, sort_texts, sorted_texts};
use crate::text::{clone_opt, clone_texts, opt_text, str_eq, texts};
use vstd::prelude::*;
use vstd::string::*;

verus! {

/// An external trading system that claims are made about.
#[derive(Debug, Clone, Copy, PartialEq, Eq, Hash, Structural)]
pub enum Venue {
    Hyperliquid,
    Base,
    Solana,
    Polymarket,
}

/// The kind of event that a claim attests.
#[derive(Debug, Clone, Copy, PartialEq, Eq, Structural)]
#[allow(non_camel_case_types)]
pub enum ClaimType {
    ORDER_PLACED,
    TRADE_EXECUTED,
}

/// Where a receipt stands in its life: `PENDING` at first, then one of the
/// terminal states. `INVALIDATED` is reserved and never produced here.
#[derive(Debug, Clone, Copy, PartialEq, Eq, Structural)]
#[allow(non_camel_case_types)]
pub enum ReceiptStatus {
    PENDING,
    PROVED,
    NON_PROVABLE,
    INVALIDATED,
}

/// Why a claim could not be proved.
#[derive(Debug, Clone, Copy, PartialEq, Eq, Structural)]
#[allow(non_camel_case_types)]
pub enum NonProvableReason {
    EVIDENCE_MISSING,
    EVIDENCE_CONFLICT,
    SOURCE_UNAVAILABLE,
    FINALITY_TIMEOUT,
    POLICY_VIOLATION,
    SCHEMA_INVALID,
    UNSUPPORTED_VENUE_CLAIM,
    PROOF_FAILURE,
}

/// How a proof is meant to be checked.
#[derive(Debug, Clone, Copy, PartialEq, Eq, Structural)]
#[allow(non_camel_case_types)]
pub enum VerificationMode {
    OFFCHAIN,
    ONCHAIN_ANCHORED,
    OFFCHAIN_AND_ANCHORED,
}

/// The proving backend behind a proof; `NONE` marks the absence of a proof.
#[derive(Debug, Clone, Copy, PartialEq, Eq, Structural)]
pub enum ProofBackend {
    SP1,
    PICO,
    NONE,
}

/// The canonical text of a venue: its lowercase slug.
pub open spec fn venue_text(venue: Venue) -> Seq<char> {
    match venue {
        Venue::Hyperliquid => "hyperliquid"@,
        Venue::Base => "base"@,
        Venue::Solana => "solana"@,
        Venue::Polymarket => "polymarket"@,
    }
}

/// The canonical text of a claim type.
pub open spec fn claim_type_text(claim_type: ClaimType) -> Seq<char> {
    match claim_type {
        ClaimType::ORDER_PLACED => "ORDER_PLACED"@,
        ClaimType::TRADE_EXECUTED => "TRADE_EXECUTED"@,
    }
}

/// The canonical text of a receipt status.
pub open spec fn status_text(status: ReceiptStatus) -> Seq<char> {
    match status {
        ReceiptStatus::PENDING => "PENDING"@,
        ReceiptStatus::PROVED => "PROVED"@,
        ReceiptStatus::NON_PROVABLE => "NON_PROVABLE"@,
        ReceiptStatus::INVALIDATED => "INVALIDATED"@,
    }
}

/// The canonical text of a reason code.
pub open spec fn reason_text(reason: NonProvableReason) -> Seq<char> {
    match reason {
        NonProvableReason::EVIDENCE_MISSING => "EVIDENCE_MISSING"@,
        NonProvableReason::EVIDENCE_CONFLICT => "EVIDENCE_CONFLICT"@,
        NonProvableReason::SOURCE_UNAVAILABLE => "SOURCE_UNAVAILABLE"@,
        NonProvableReason::FINALITY_TIMEOUT => "FINALITY_TIMEOUT"@,
        NonProvableReason::POLICY_VIOLATION => "POLICY_VIOLATION"@,
        NonProvableReason::SCHEMA_INVALID => "SCHEMA_INVALID"@,
        NonProvableReason::UNSUPPORTED_VENUE_CLAIM => "UNSUPPORTED_VENUE_CLAIM"@,
        NonProvableReason::PROOF_FAILURE => "PROOF_FAILURE"@,
    }
}

/// The canonical text of a verification mode.
pub open spec fn verification_mode_text(mode: VerificationMode) -> Seq<char> {
    match mode {
        VerificationMode::OFFCHAIN => "OFFCHAIN"@,
        VerificationMode::ONCHAIN_ANCHORED => "ONCHAIN_ANCHORED"@,
        VerificationMode::OFFCHAIN_AND_ANCHORED => "OFFCHAIN_AND_ANCHORED"@,
    }
}

/// The canonical text of a proof backend.
pub open spec fn backend_text(backend: ProofBackend) -> Seq<char> {
    match backend {
        ProofBackend::SP1 => "SP1"@,
        ProofBackend::PICO => "PICO"@,
        ProofBackend::NONE => "NONE"@,
    }
}

/// Reads a venue from its slug. Only the four slugs name a venue, letter for
/// letter; an absent value names none.
pub fn parse_venue(value: Option<&str>) -> (venue: Option<Venue>)
    ensures
        match venue {
            Some(v) => value is Some && value->0@ == venue_text(v),
            None => value is Some ==> forall|v: Venue| value->0@ != venue_text(v),
        },
{
    match value {
        None => None,
        Some(text) => {
            if str_eq(text, "hyperliquid") {
                Some(Venue::Hyperliquid)
            } else if str_eq(text, "base") {
                Some(Venue::Base)
            } else if str_eq(text, "solana") {
                Some(Venue::Solana)
            } else if str_eq(text, "polymarket") {
                Some(Venue::Polymarket)
            } else {
                None
            }
        },
    }
}

/// Reads a claim type from its name. Only the two names are claim types, letter
/// for letter; an absent value names none.
pub fn parse_claim_type(value: Option<&str>) -> (claim_type: Option<ClaimType>)
    ensures
        match claim_type {
            Some(c) => value is Some && value->0@ == claim_type_text(c),
            None => value is Some ==> forall|c: ClaimType| value->0@ != claim_type_text(c),
        },
{
    match value {
        None => None,
        Some(text) => {
            if str_eq(text, "ORDER_PLACED") {
                Some(ClaimType::ORDER_PLACED)
            } else if str_eq(text, "TRADE_EXECUTED") {
                Some(ClaimType::TRADE_EXECUTED)
            } else {
                None
            }
        },
    }
}

impl Venue {
    /// The lowercase slug of the venue.
    pub fn as_str(self) -> (name: &'static str)
        ensures
            name@ == venue_text(self),
    {
        match self {
            Venue::Hyperliquid => "hyperliquid",
            Venue::Base => "base",
            Venue::Solana => "solana",
            Venue::Polymarket => "polymarket",
        }
    }
}

impl ClaimType {
    /// The name of the claim type.
    pub fn as_str(self) -> (name: &'static str)
        ensures
            name@ == claim_type_text(self),
    {
        match self {
            ClaimType::ORDER_PLACED => "ORDER_PLACED",
            ClaimType::TRADE_EXECUTED => "TRADE_EXECUTED",
        }
    }
}

impl ReceiptStatus {
    /// The name of the status.
    pub fn as_str(self) -> (name: &'static str)
        ensures
            name@ == status_text(self),
    {
        match self {
            ReceiptStatus::PENDING => "PENDING",
            ReceiptStatus::PROVED => "PROVED",
            ReceiptStatus::NON_PROVABLE => "NON_PROVABLE",
            ReceiptStatus::INVALIDATED => "INVALIDATED",
        }
    }
}

impl NonProvableReason {
    /// The name of the reason code.
    pub fn as_str(self) -> (name: &'static str)
        ensures
            name@ == reason_text(self),
    {
        match self {
            NonProvableReason::EVIDENCE_MISSING => "EVIDENCE_MISSING",
            NonProvableReason::EVIDENCE_CONFLICT => "EVIDENCE_CONFLICT",
            NonProvableReason::SOURCE_UNAVAILABLE => "SOURCE_UNAVAILABLE",
            NonProvableReason::FINALITY_TIMEOUT => "FINALITY_TIMEOUT",
            NonProvableReason::POLICY_VIOLATION => "POLICY_VIOLATION",
            NonProvableReason::SCHEMA_INVALID => "SCHEMA_INVALID",
            NonProvableReason::UNSUPPORTED_VENUE_CLAIM => "UNSUPPORTED_VENUE_CLAIM",
            NonProvableReason::PROOF_FAILURE => "PROOF_FAILURE",
        }
    }
}

impl VerificationMode {
    /// The name of the verification mode.
    pub fn as_str(self) -> (name: &'static str)
        ensures
            name@ == verification_mode_text(self),
    {
        match self {
            VerificationMode::OFFCHAIN => "OFFCHAIN",
            VerificationMode::ONCHAIN_ANCHORED => "ONCHAIN_ANCHORED",
            VerificationMode::OFFCHAIN_AND_ANCHORED => "OFFCHAIN_AND_ANCHORED",
        }
    }
}

impl ProofBackend {
    /// The name of the backend.
    pub fn as_str(self) -> (name: &'static str)
        ensures
            name@ == backend_text(self),
    {
        match self {
            ProofBackend::SP1 => "SP1",
            ProofBackend::PICO => "PICO",
            ProofBackend::NONE => "NONE",
        }
    }
}

/// One observed artifact that supports a claim.
#[derive(Debug)]
pub struct EvidenceItem {
    pub source_id: String,
    pub source_kind: String,
    pub artifact_ref: String,
    pub artifact_hash: String,
    pub observed_at: String,
    pub tags: Vec<String>,
}

/// What an [`EvidenceItem`] holds.
pub struct EvidenceItemView {
    pub source_id: Seq<char>,
    pub source_kind: Seq<char>,
    pub artifact_ref: Seq<char>,
    pub artifact_hash: Seq<char>,
    pub observed_at: Seq<char>,
    pub tags: Seq<Seq<char>>,
}

impl View for EvidenceItem {
    type V = EvidenceItemView;

    open spec fn view(&self) -> EvidenceItemView {
        EvidenceItemView {
            source_id: self.source_id@,
            source_kind: self.source_kind@,
            artifact_ref: self.artifact_ref@,
            artifact_hash: self.artifact_hash@,
            observed_at: self.observed_at@,
            tags: texts(self.tags@),
        }
    }
}

impl Clone for EvidenceItem {
    fn clone(&self) -> (copy: EvidenceItem)
        ensures
            copy@ == self@,
    {
        EvidenceItem {
            source_id: self.source_id.clone(),
            source_kind: self.source_kind.clone(),
            artifact_ref: self.artifact_ref.clone(),
            artifact_hash: self.artifact_hash.clone(),
            observed_at: self.observed_at.clone(),
            tags: clone_texts(&self.tags),
        }
    }
}

/// The views of a list of evidence items, in order.
pub open spec fn item_views(items: Seq<EvidenceItem>) -> Seq<EvidenceItemView> {
    Seq::new(items.len(), |i: int| items[i]@)
}

/// A copy of a list of evidence items.
pub fn clone_items(items: &Vec<EvidenceItem>) -> (copy: Vec<EvidenceItem>)
    ensures
        item_views(copy@) == item_views(items@),
{
    let mut copy: Vec<EvidenceItem> = Vec::new();
    let mut i: usize = 0;
    while i < items.len()
        invariant
            i <= items.len(),
            copy@.len() == i,
            forall|k: int| 0 <= k < i ==> copy@[k]@ == items@[k]@,
        decreases items.len() - i,
    {
        copy.push(items[i].clone());
        i += 1;
    }
    assert(item_views(copy@) =~= item_views(items@));
    copy
}

/// The evidence collected for one request.
#[derive(Debug)]
pub struct EvidenceBundle {
    pub items: Vec<EvidenceItem>,
    /// The tags that the evidence satisfies, as a set: order and repetition do
    /// not matter.
    pub observed_tags: Vec<String>,
    pub conflicts: Vec<String>,
    pub finality_observed_at: Option<String>,
}

/// What an [`EvidenceBundle`] holds.
pub struct EvidenceBundleView {
    pub items: Seq<EvidenceItemView>,
    pub observed_tags: Set<Seq<char>>,
    pub conflicts: Seq<Seq<char>>,
    pub finality_observed_at: Option<Seq<char>>,
}

impl View for EvidenceBundle {
    type V = EvidenceBundleView;

    open spec fn view(&self) -> EvidenceBundleView {
        EvidenceBundleView {
            items: item_views(self.items@),
            observed_tags: texts(self.observed_tags@).to_set(),
            conflicts: texts(self.conflicts@),
            finality_observed_at: opt_text(self.finality_observed_at),
        }
    }
}

impl Clone for EvidenceBundle {
    fn clone(&self) -> (copy: EvidenceBundle)
        ensures
            copy@ == self@,
    {
        EvidenceBundle {
            items: clone_items(&self.items),
            observed_tags: clone_texts(&self.observed_tags),
            conflicts: clone_texts(&self.conflicts),
            finality_observed_at: clone_opt(&self.finality_observed_at),
        }
    }
}

/// The artifact hashes of a list of evidence items, in order.
pub open spec fn artifact_hashes(items: Seq<EvidenceItemView>) -> Seq<Seq<char>> {
    Seq::new(items.len(), |i: int| items[i].artifact_hash)
}

/// The evidence root of a list of items: the hash of the object whose one
/// member, `leaves`, lists the items' artifact hashes in ascending order.
pub open spec fn evidence_root_of(items: Seq<EvidenceItemView>) -> Seq<char> {
    hash_of_object(
        seq![
            JsonFieldView {
                name: "leaves"@,
                value: JsonValueView::TextList(sorted_texts(artifact_hashes(items))),
            },
        ],
    )
}

/// The evidence root does not depend on the order in which the items were
/// collected: two lists whose artifact hashes are the same, each as often,
/// have the same root.
pub proof fn lemma_evidence_root_permutation(a: Seq<EvidenceItemView>, b: Seq<EvidenceItemView>)
    requires
        artifact_hashes(a).to_multiset() == artifact_hashes(b).to_multiset(),
    ensures
        evidence_root_of(a) == evidence_root_of(b),
{
    lemma_sorted_texts_of_permutation(artifact_hashes(a), artifact_hashes(b));
}

impl EvidenceBundle {
    /// The hash that stands for the bundle's items, whatever their order.
    pub fn evidence_root(&self) -> (root: String)
        ensures
            root@ == evidence_root_of(self@.items),
    {
        let mut leaves: Vec<String> = Vec::new();
        let mut i: usize = 0;
        while i < self.items.len()
            invariant
                i <= self.items.len(),
                leaves@.len() == i,
                forall|k: int| 0 <= k < i ==> leaves@[k]@ == self.items@[k].artifact_hash@,
            decreases self.items.len() - i,
        {
            leaves.push(self.items[i].artifact_hash.clone());
            i += 1;
        }
        assert(texts(leaves@) =~= artifact_hashes(self@.items));
        let sorted = sort_texts(&leaves);
        let object = JsonObject::new().with(
            JsonField { name: "leaves".to_owned(), value: JsonValue::TextList(sorted) },
        );
        assert(object@ =~= seq![
            JsonFieldView {
                name: "leaves"@,
                value: JsonValueView::TextList(sorted_texts(artifact_hashes(self@.items))),
            },
        ]);
        hash_json(&object)
    }
}

/// A claim submitted for a receipt.
#[derive(Debug)]
pub struct ProofRequest {
    pub venue: Venue,
    pub claim_type: ClaimType,
    pub account_ref: String,
    pub order_ref: String,
    pub execution_ref: Option<String>,
    /// Free-form members that steer how evidence is simulated.
    pub payload: crate::json::JsonObject,
}

/// What a [`ProofRequest`] holds.
pub struct ProofRequestView {
    pub venue: Venue,
    pub claim_type: ClaimType,
    pub account_ref: Seq<char>,
    pub order_ref: Seq<char>,
    pub execution_ref: Option<Seq<char>>,
    pub payload: Seq<crate::json::JsonFieldView>,
}

impl View for ProofRequest {
    type V = ProofRequestView;

    open spec fn view(&self) -> ProofRequestView {
        ProofRequestView {
            venue: self.venue,
            claim_type: self.claim_type,
            account_ref: self.account_ref@,
            order_ref: self.order_ref@,
            execution_ref: opt_text(self.execution_ref),
            payload: self.payload@,
        }
    }
}

impl Clone for ProofRequest {
    fn clone(&self) -> (copy: ProofRequest)
        ensures
            copy@ == self@,
    {
        ProofRequest {
            venue: self.venue,
            claim_type: self.claim_type,
            account_ref: self.account_ref.clone(),
            order_ref: self.order_ref.clone(),
            execution_ref: clone_opt(&self.execution_ref),
            payload: self.payload.clone(),
        }
    }
}

/// A venue's acknowledgement that it accepted an order.
#[derive(Debug)]
pub struct ExecutionAck {
    pub accepted: bool,
    pub venue_order_ref: String,
    pub acceptance_artifact_ref: String,
    pub acceptance_artifact_hash: String,
    pub accepted_at: String,
}

/// What an [`ExecutionAck`] holds.
pub struct ExecutionAckView {
    pub accepted: bool,
    pub venue_order_ref: Seq<char>,
    pub acceptance_artifact_ref: Seq<char>,
    pub acceptance_artifact_hash: Seq<char>,
    pub accepted_at: Seq<char>,
}

impl View for ExecutionAck {
    type V = ExecutionAckView;

    open spec fn view(&self) -> ExecutionAckView {
        ExecutionAckView {
            accepted: self.accepted,
            venue_order_ref: self.venue_order_ref@,
            acceptance_artifact_ref: self.acceptance_artifact_ref@,
            acceptance_artifact_hash: self.acceptance_artifact_hash@,
            accepted_at: self.accepted_at@,
        }
    }
}

impl Clone for ExecutionAck {
    fn clone(&self) -> (copy: ExecutionAck)
        ensures
            copy@ == self@,
    {
        ExecutionAck {
            accepted: self.accepted,
            venue_order_ref: self.venue_order_ref.clone(),
            acceptance_artifact_ref: self.acceptance_artifact_ref.clone(),
            acceptance_artifact_hash: self.acceptance_artifact_hash.clone(),
            accepted_at: self.accepted_at.clone(),
        }
    }
}

/// The claim that a receipt attests.
#[derive(Debug)]
pub struct TruthClaim {
    pub claim_type: ClaimType,
    pub statement: String,
    pub claim_hash: String,
}

/// What a [`TruthClaim`] holds.
pub struct TruthClaimView {
    pub claim_type: ClaimType,
    pub statement: Seq<char>,
    pub claim_hash: Seq<char>,
}

impl View for TruthClaim {
    type V = TruthClaimView;

    open spec fn view(&self) -> TruthClaimView {
        TruthClaimView {
            claim_type: self.claim_type,
            statement: self.statement@,
            claim_hash: self.claim_hash@,
        }
    }
}

impl Clone for TruthClaim {
    fn clone(&self) -> (copy: TruthClaim)
        ensures
            copy@ == self@,
    {
        TruthClaim {
            claim_type: self.claim_type,
            statement: self.statement.clone(),
            claim_hash: self.claim_hash.clone(),
        }
    }
}

/// Whom and what a receipt is about.
#[derive(Debug)]
pub struct Subject {
    pub venue: Venue,
    pub account_ref: String,
    pub order_ref: String,
    pub execution_ref: Option<String>,
}

/// What a [`Subject`] holds.
pub struct SubjectView {
    pub venue: Venue,
    pub account_ref: Seq<char>,
    pub order_ref: Seq<char>,
    pub execution_ref: Option<Seq<char>>,
}

impl View for Subject {
    type V = SubjectView;

    open spec fn view(&self) -> SubjectView {
        SubjectView {
            venue: self.venue,
            account_ref: self.account_ref@,
            order_ref: self.order_ref@,
            execution_ref: opt_text(self.execution_ref),
        }
    }
}

impl Clone for Subject {
    fn clone(&self) -> (copy: Subject)
        ensures
            copy@ == self@,
    {
        Subject {
            venue: self.venue,
            account_ref: self.account_ref.clone(),
            order_ref: self.order_ref.clone(),
            execution_ref: clone_opt(&self.execution_ref),
        }
    }
}

/// The policy under which a receipt was judged.
#[derive(Debug)]
pub struct PolicyContext {
    pub policy_id: String,
    pub finality_rule_id: String,
    pub source_precedence_version: String,
}

/// What a [`PolicyContext`] holds.
pub struct PolicyContextView {
    pub policy_id: Seq<char>,
    pub finality_rule_id: Seq<char>,
    pub source_precedence_version: Seq<char>,
}

impl View for PolicyContext {
    type V = PolicyContextView;

    open spec fn view(&self) -> PolicyContextView {
        PolicyContextView {
            policy_id: self.policy_id@,
            finality_rule_id: self.finality_rule_id@,
            source_precedence_version: self.source_precedence_version@,
        }
    }
}

impl Clone for PolicyContext {
    fn clone(&self) -> (copy: PolicyContext)
        ensures
            copy@ == self@,
    {
        PolicyContext {
            policy_id: self.policy_id.clone(),
            finality_rule_id: self.finality_rule_id.clone(),
            source_precedence_version: self.source_precedence_version.clone(),
        }
    }
}

/// The evidence behind a receipt: its root and its items.
#[derive(Debug)]
pub struct Provenance {
    pub evidence_root: String,
    pub evidence_items: Vec<EvidenceItem>,
}

/// What a [`Provenance`] holds.
pub struct ProvenanceView {
    pub evidence_root: Seq<char>,
    pub evidence_items: Seq<EvidenceItemView>,
}

impl View for Provenance {
    type V = ProvenanceView;

    open spec fn view(&self) -> ProvenanceView {
        ProvenanceView {
            evidence_root: self.evidence_root@,
            evidence_items: item_views(self.evidence_items@),
        }
    }
}

impl Clone for Provenance {
    fn clone(&self) -> (copy: Provenance)
        ensures
            copy@ == self@,
    {
        Provenance {
            evidence_root: self.evidence_root.clone(),
            evidence_items: clone_items(&self.evidence_items),
        }
    }
}

/// The timestamps of a receipt.
#[derive(Debug)]
pub struct Timing {
    pub created_at: String,
    pub updated_at: String,
    pub execution_observed_at: Option<String>,
    pub finality_observed_at: Option<String>,
}

/// What a [`Timing`] holds.
pub struct TimingView {
    pub created_at: Seq<char>,
    pub updated_at: Seq<char>,
    pub execution_observed_at: Option<Seq<char>>,
    pub finality_observed_at: Option<Seq<char>>,
}

impl View for Timing {
    type V = TimingView;

    open spec fn view(&self) -> TimingView {
        TimingView {
            created_at: self.created_at@,
            updated_at: self.updated_at@,
            execution_observed_at: opt_text(self.execution_observed_at),
            finality_observed_at: opt_text(self.finality_observed_at),
        }
    }
}

impl Clone for Timing {
    fn clone(&self) -> (copy: Timing)
        ensures
            copy@ == self@,
    {
        Timing {
            created_at: self.created_at.clone(),
            updated_at: self.updated_at.clone(),
            execution_observed_at: clone_opt(&self.execution_observed_at),
            finality_observed_at: clone_opt(&self.finality_observed_at),
        }
    }
}

/// A backend-agnostic description of a proof and of the public inputs that it
/// binds.
#[derive(Debug)]
pub struct ProofMetadata {
    pub backend: ProofBackend,
    pub circuit_id: String,
    pub circuit_version: String,
    pub verifier_key_id: String,
    pub verifier_key_hash: String,
    pub public_inputs_hash: String,
    pub verification_mode: VerificationMode,
    pub proof_artifact_ref: Option<String>,
    pub anchored_root_ref: Option<String>,
}

/// What a [`ProofMetadata`] holds.
pub struct ProofMetadataView {
    pub backend: ProofBackend,
    pub circuit_id: Seq<char>,
    pub circuit_version: Seq<char>,
    pub verifier_key_id: Seq<char>,
    pub verifier_key_hash: Seq<char>,
    pub public_inputs_hash: Seq<char>,
    pub verification_mode: VerificationMode,
    pub proof_artifact_ref: Option<Seq<char>>,
    pub anchored_root_ref: Option<Seq<char>>,
}

impl View for ProofMetadata {
    type V = ProofMetadataView;

    open spec fn view(&self) -> ProofMetadataView {
        ProofMetadataView {
            backend: self.backend,
            circuit_id: self.circuit_id@,
            circuit_version: self.circuit_version@,
            verifier_key_id: self.verifier_key_id@,
            verifier_key_hash: self.verifier_key_hash@,
            public_inputs_hash: self.public_inputs_hash@,
            verification_mode: self.verification_mode,
            proof_artifact_ref: opt_text(self.proof_artifact_ref),
            anchored_root_ref: opt_text(self.anchored_root_ref),
        }
    }
}

impl Clone for ProofMetadata {
    fn clone(&self) -> (copy: ProofMetadata)
        ensures
            copy@ == self@,
    {
        ProofMetadata {
            backend: self.backend,
            circuit_id: self.circuit_id.clone(),
            circuit_version: self.circuit_version.clone(),
            verifier_key_id: self.verifier_key_id.clone(),
            verifier_key_hash: self.verifier_key_hash.clone(),
            public_inputs_hash: self.public_inputs_hash.clone(),
            verification_mode: self.verification_mode,
            proof_artifact_ref: clone_opt(&self.proof_artifact_ref),
            anchored_root_ref: clone_opt(&self.anchored_root_ref),
        }
    }
}

/// Why a receipt ended without a proof.
#[derive(Debug)]
pub struct NonProvable {
    pub reason_code: NonProvableReason,
    pub details: String,
}

/// What a [`NonProvable`] holds.
pub struct NonProvableView {
    pub reason_code: NonProvableReason,
    pub details: Seq<char>,
}

impl View for NonProvable {
    type V = NonProvableView;

    open spec fn view(&self) -> NonProvableView {
        NonProvableView { reason_code: self.reason_code, details: self.details@ }
    }
}

impl Clone for NonProvable {
    fn clone(&self) -> (copy: NonProvable)
        ensures
            copy@ == self@,
    {
        NonProvable { reason_code: self.reason_code, details: self.details.clone() }
    }
}

/// The view of an optional [`NonProvable`].
pub open spec fn opt_non_provable(value: Option<NonProvable>) -> Option<NonProvableView> {
    match value {
        Some(n) => Some(n@),
        None => None,
    }
}

/// The hash chain that binds a receipt's content.
#[derive(Debug)]
pub struct Integrity {
    pub schema_hash: String,
    pub receipt_hash: String,
    pub signer: String,
    pub signature: String,
}

/// What an [`Integrity`] holds.
pub struct IntegrityView {
    pub schema_hash: Seq<char>,
    pub receipt_hash: Seq<char>,
    pub signer: Seq<char>,
    pub signature: Seq<char>,
}

impl View for Integrity {
    type V = IntegrityView;

    open spec fn view(&self) -> IntegrityView {
        IntegrityView {
            schema_hash: self.schema_hash@,
            receipt_hash: self.receipt_hash@,
            signer: self.signer@,
            signature: self.signature@,
        }
    }
}

impl Clone for Integrity {
    fn clone(&self) -> (copy: Integrity)
        ensures
            copy@ == self@,
    {
        Integrity {
            schema_hash: self.schema_hash.clone(),
            receipt_hash: self.receipt_hash.clone(),
            signer: self.signer.clone(),
            signature: self.signature.clone(),
        }
    }
}

/// A receipt: the claim, its evidence, its proof and its integrity chain,
/// together with the status that it has reached.
#[derive(Debug)]
pub struct ZKReceipt {
    pub receipt_id: String,
    pub version: String,
    pub status: ReceiptStatus,
    pub claim: TruthClaim,
    pub subject: Subject,
    pub policy: PolicyContext,
    pub provenance: Provenance,
    pub timing: Timing,
    pub proof: ProofMetadata,
    pub integrity: Integrity,
    pub non_provable: Option<NonProvable>,
}

/// What a [`ZKReceipt`] holds.
pub struct ZKReceiptView {
    pub receipt_id: Seq<char>,
    pub version: Seq<char>,
    pub status: ReceiptStatus,
    pub claim: TruthClaimView,
    pub subject: SubjectView,
    pub policy: PolicyContextView,
    pub provenance: ProvenanceView,
    pub timing: TimingView,
    pub proof: ProofMetadataView,
    pub integrity: IntegrityView,
    pub non_provable: Option<NonProvableView>,
}

impl View for ZKReceipt {
    type V = ZKReceiptView;

    open spec fn view(&self) -> ZKReceiptView {
        ZKReceiptView {
            receipt_id: self.receipt_id@,
            version: self.version@,
            status: self.status,
            claim: self.claim@,
            subject: self.subject@,
            policy: self.policy@,
            provenance: self.provenance@,
            timing: self.timing@,
            proof: self.proof@,
            integrity: self.integrity@,
            non_provable: opt_non_provable(self.non_provable),
        }
    }
}

impl Clone for ZKReceipt {
    fn clone(&self) -> (copy: ZKReceipt)
        ensures
            copy@ == self@,
    {
        let non_provable = match &self.non_provable {
            Some(n) => Some(n.clone()),
            None => None,
        };
        ZKReceipt {
            receipt_id: self.receipt_id.clone(),
            version: self.version.clone(),
            status: self.status,
            claim: self.claim.clone(),
            subject: self.subject.clone(),
            policy: self.policy.clone(),
            provenance: self.provenance.clone(),
            timing: self.timing.clone(),
            proof: self.proof.clone(),
            integrity: self.integrity.clone(),
            non_provable,
        }
    }
}

/// Calls `chrono::Utc::now` and formats the instant as RFC 3339 in UTC with
/// milliseconds. Trusted: nothing is claimed of the text, which depends on the
/// clock.
#[verifier::external_body]
pub fn now_iso() -> (now: String) {
    chrono::Utc::now().to_rfc3339_opts(chrono::SecondsFormat::Millis, true)
}

/// Calls `uuid::Uuid::new_v4` and writes the identifier in its hyphenated form.
/// Trusted: nothing is claimed of the text, which is drawn at random.
#[verifier::external_body]
pub fn new_receipt_id() -> (id: String) {
    uuid::Uuid::new_v4().to_string()
}

} // verus!
