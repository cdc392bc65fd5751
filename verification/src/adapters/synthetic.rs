//! A synthetic venue: it accepts every order, and makes up the evidence that a
//! real venue would hold. The request's payload steers the simulation: it can
//! ask for a conflict, and it can name tags to withhold.

use crate::adapters::base::{default_statement, default_statement_of, lemma_default_statement_nonempty, venue_slug, VenueAdapter};
use crate::json::{
    hash_json, hash_of_object, lookup, text_member, JsonField, JsonFieldView, JsonObject,
    JsonValue, JsonValueView,
};
use crate::models::{
    now_iso, venue_text, ClaimType, EvidenceBundle, EvidenceBundleView, EvidenceItem,
    EvidenceItemView, ExecutionAck, ExecutionAckView, ProofRequest, ProofRequestView, Venue,
};
use crate::models::NonProvableReason;
use crate::policy::{decision_for, lemma_missing_tag_rejected};
use crate::text::{absent_from, clone_texts, texts, without};
use vstd::prelude::*;
use vstd::string::*;

verus! {

/// The adapter of a synthetic venue.
#[derive(Debug)]
pub struct SyntheticVenueAdapter {
    venue: Venue,
}

/// The kind of source that vouches for acceptance on a venue.
pub open spec fn acceptance_source_kind_of(venue: Venue) -> Seq<char> {
    match venue {
        Venue::Hyperliquid => "venue_signed_attestation"@,
        _ => "canonical_chain_state"@,
    }
}

/// The kind of source that vouches for acceptance on a venue.
pub fn acceptance_source_kind(venue: Venue) -> (kind: &'static str)
    ensures
        kind@ == acceptance_source_kind_of(venue),
{
    match venue {
        Venue::Hyperliquid => "venue_signed_attestation",
        _ => "canonical_chain_state",
    }
}

/// The acknowledgement that the synthetic venue gives at `accepted_at`.
pub open spec fn synthetic_ack(
    venue: Venue,
    request: ProofRequestView,
    accepted_at: Seq<char>,
) -> ExecutionAckView {
    ExecutionAckView {
        accepted: true,
        venue_order_ref: request.order_ref,
        acceptance_artifact_ref: venue_text(venue) + "://ack/"@ + request.order_ref,
        acceptance_artifact_hash: hash_of_object(
            seq![
                text_member("accepted_at"@, accepted_at),
                text_member("kind"@, "acknowledgement"@),
                text_member("order_ref"@, request.order_ref),
                text_member("venue"@, venue_text(venue)),
            ],
        ),
        accepted_at,
    }
}

/// The tags that an acknowledged order satisfies.
pub open spec fn acceptance_tags() -> Seq<Seq<char>> {
    seq!["order_identity"@, "submission_timestamp"@, "venue_acceptance_artifact"@]
}

/// The tags that an observed execution satisfies.
pub open spec fn execution_tags() -> Seq<Seq<char>> {
    seq!["execution_identity"@, "execution_timestamp"@, "execution_artifact"@]
}

/// Whether the request is for an executed trade and names the execution.
pub open spec fn has_execution(request: ProofRequestView) -> bool {
    request.claim_type == ClaimType::TRADE_EXECUTED && request.execution_ref is Some
}

/// Whether the payload asks for a simulated conflict.
pub open spec fn simulates_conflict(payload: Seq<JsonFieldView>) -> bool {
    lookup(payload, "simulate_conflict"@) == Some(JsonValueView::Bool(true))
}

/// The tags that the payload asks to withhold.
pub open spec fn withheld_tags(payload: Seq<JsonFieldView>) -> Seq<Seq<char>> {
    match lookup(payload, "missing_tags"@) {
        Some(JsonValueView::TextList(tags)) => tags,
        _ => Seq::empty(),
    }
}

/// The tags that the evidence would satisfy if none were withheld.
pub open spec fn candidate_tags(request: ProofRequestView) -> Seq<Seq<char>> {
    if has_execution(request) {
        acceptance_tags() + execution_tags()
    } else {
        acceptance_tags()
    }
}

/// The tags that the synthetic evidence satisfies: the candidates that the
/// payload does not withhold.
pub open spec fn synthetic_tags(request: ProofRequestView) -> Set<Seq<char>> {
    candidate_tags(request).filter(absent_from(withheld_tags(request.payload).to_set())).to_set()
}

/// The venue's own record of the acknowledgement.
pub open spec fn primary_item(venue: Venue, ack: ExecutionAckView) -> EvidenceItemView {
    EvidenceItemView {
        source_id: venue_text(venue) + "-primary"@,
        source_kind: acceptance_source_kind_of(venue),
        artifact_ref: ack.acceptance_artifact_ref,
        artifact_hash: ack.acceptance_artifact_hash,
        observed_at: ack.accepted_at,
        tags: acceptance_tags(),
    }
}

/// What the venue's unsigned API says of the order.
pub open spec fn shadow_item(
    venue: Venue,
    request: ProofRequestView,
    observed_at: Seq<char>,
) -> EvidenceItemView {
    EvidenceItemView {
        source_id: venue_text(venue) + "-api"@,
        source_kind: "venue_api_unsigned"@,
        artifact_ref: venue_text(venue) + "://api/order/"@ + request.order_ref,
        artifact_hash: hash_of_object(
            seq![
                text_member("api_order_ref"@, request.order_ref),
                text_member("venue"@, venue_text(venue)),
            ],
        ),
        observed_at,
        tags: seq!["order_identity"@, "submission_timestamp"@],
    }
}

/// The venue's record of the execution `execution_ref`.
pub open spec fn execution_item(
    venue: Venue,
    request: ProofRequestView,
    execution_ref: Seq<char>,
    observed_at: Seq<char>,
) -> EvidenceItemView {
    EvidenceItemView {
        source_id: venue_text(venue) + "-execution"@,
        source_kind: acceptance_source_kind_of(venue),
        artifact_ref: venue_text(venue) + "://execution/"@ + execution_ref,
        artifact_hash: hash_of_object(
            seq![
                text_member("execution_ref"@, execution_ref),
                text_member("order_ref"@, request.order_ref),
                text_member("venue"@, venue_text(venue)),
            ],
        ),
        observed_at,
        tags: execution_tags(),
    }
}

/// The evidence of the synthetic venue for a request, observed at the given
/// times: the acknowledgement, the API's view of the order and, for an executed
/// trade that names its execution, the execution.
pub open spec fn synthetic_bundle(
    venue: Venue,
    request: ProofRequestView,
    ack: ExecutionAckView,
    shadow_at: Seq<char>,
    execution_at: Seq<char>,
    finality_at: Seq<char>,
) -> EvidenceBundleView {
    EvidenceBundleView {
        items: if has_execution(request) {
            seq![
                primary_item(venue, ack),
                shadow_item(venue, request, shadow_at),
                execution_item(venue, request, request.execution_ref->0, execution_at),
            ]
        } else {
            seq![primary_item(venue, ack), shadow_item(venue, request, shadow_at)]
        },
        observed_tags: synthetic_tags(request),
        conflicts: if simulates_conflict(request.payload) {
            seq!["source_value_mismatch"@]
        } else {
            Seq::empty()
        },
        finality_observed_at: if has_execution(request) {
            Some(finality_at)
        } else {
            None
        },
    }
}

/// A request for an executed trade that names no execution, and asks for no
/// simulated conflict, is rejected for missing evidence by every policy that
/// requires of an executed trade a tag beyond those of an acknowledged order:
/// the synthetic venue has no execution to show.
pub proof fn lemma_trade_without_execution_lacks_evidence(
    venue: Venue,
    request: ProofRequestView,
    ack: ExecutionAckView,
    shadow_at: Seq<char>,
    execution_at: Seq<char>,
    finality_at: Seq<char>,
    required: Seq<Seq<char>>,
    preferred: Seq<Seq<char>>,
    i: int,
)
    requires
        request.claim_type == ClaimType::TRADE_EXECUTED,
        request.execution_ref is None,
        !simulates_conflict(request.payload),
        0 <= i < required.len(),
        !acceptance_tags().contains(required[i]),
    ensures
        !decision_for(
            required,
            preferred,
            synthetic_bundle(venue, request, ack, shadow_at, execution_at, finality_at),
        ).ok,
        decision_for(
            required,
            preferred,
            synthetic_bundle(venue, request, ack, shadow_at, execution_at, finality_at),
        ).reason == Some(NonProvableReason::EVIDENCE_MISSING),
{
    let bundle = synthetic_bundle(venue, request, ack, shadow_at, execution_at, finality_at);
    let absent = absent_from(withheld_tags(request.payload).to_set());
    if bundle.observed_tags.contains(required[i]) {
        assert(candidate_tags(request).filter(absent).contains(required[i]));
        candidate_tags(request).lemma_filter_contains_rev(absent, required[i]);
    }
    lemma_missing_tag_rejected(required, preferred, bundle, i);
}

/// The three tags of an acknowledged order.
fn acceptance_tag_list() -> (tags: Vec<String>)
    ensures
        texts(tags@) == acceptance_tags(),
{
    let mut tags: Vec<String> = Vec::new();
    tags.push("order_identity".to_owned());
    tags.push("submission_timestamp".to_owned());
    tags.push("venue_acceptance_artifact".to_owned());
    assert(texts(tags@) =~= acceptance_tags());
    tags
}

/// The three tags of an observed execution.
fn execution_tag_list() -> (tags: Vec<String>)
    ensures
        texts(tags@) == execution_tags(),
{
    let mut tags: Vec<String> = Vec::new();
    tags.push("execution_identity".to_owned());
    tags.push("execution_timestamp".to_owned());
    tags.push("execution_artifact".to_owned());
    assert(texts(tags@) =~= execution_tags());
    tags
}

/// The venue's slug followed by `suffix`.
fn venue_label(venue: Venue, suffix: &str) -> (label: String)
    ensures
        label@ == venue_text(venue) + suffix@,
{
    let mut label = String::from_str(venue_slug(venue));
    label.append(suffix);
    label
}

/// The venue's slug followed by `middle` and `tail`.
fn venue_path(venue: Venue, middle: &str, tail: &str) -> (path: String)
    ensures
        path@ == venue_text(venue) + middle@ + tail@,
{
    let mut path = venue_label(venue, middle);
    path.append(tail);
    path
}

impl SyntheticVenueAdapter {
    /// The synthetic adapter of `venue`.
    pub fn new(venue: Venue) -> (adapter: SyntheticVenueAdapter)
        ensures
            adapter.served() == venue,
    {
        SyntheticVenueAdapter { venue }
    }

    /// The acknowledgement of the request's order, given at `accepted_at`.
    pub fn acknowledge_at(&self, request: &ProofRequest, accepted_at: String) -> (ack: ExecutionAck)
        ensures
            ack@ == synthetic_ack(self.served(), request@, accepted_at@),
    {
        let hashed = JsonObject::new().with(
            JsonField::text("accepted_at", accepted_at.as_str()),
        ).with(JsonField::text("kind", "acknowledgement")).with(
            JsonField::text("order_ref", request.order_ref.as_str()),
        ).with(JsonField::text("venue", venue_slug(self.venue)));
        assert(hashed@ =~= seq![
            text_member("accepted_at"@, accepted_at@),
            text_member("kind"@, "acknowledgement"@),
            text_member("order_ref"@, request@.order_ref),
            text_member("venue"@, venue_text(self.venue)),
        ]);
        ExecutionAck {
            accepted: true,
            venue_order_ref: request.order_ref.clone(),
            acceptance_artifact_ref: venue_path(self.venue, "://ack/", request.order_ref.as_str()),
            acceptance_artifact_hash: hash_json(&hashed),
            accepted_at,
        }
    }

    /// The evidence for the request, with the API's view observed at
    /// `shadow_at`, the execution at `execution_at` and finality at
    /// `finality_at`.
    pub fn collect_evidence_at(
        &self,
        request: &ProofRequest,
        ack: &ExecutionAck,
        shadow_at: String,
        execution_at: String,
        finality_at: String,
    ) -> (bundle: EvidenceBundle)
        ensures
            bundle@ == synthetic_bundle(
                self.served(),
                request@,
                ack@,
                shadow_at@,
                execution_at@,
                finality_at@,
            ),
    {
        let mut candidates = acceptance_tag_list();
        let mut conflicts: Vec<String> = Vec::new();
        let simulate = match request.payload.get("simulate_conflict") {
            Some(JsonValue::Bool(flag)) => *flag,
            _ => false,
        };
        assert(simulate == simulates_conflict(request@.payload));
        if simulate {
            conflicts.push("source_value_mismatch".to_owned());
        }
        assert(texts(conflicts@) =~= if simulate {
            seq!["source_value_mismatch"@]
        } else {
            Seq::empty()
        });

        let primary = EvidenceItem {
            source_id: venue_label(self.venue, "-primary"),
            source_kind: acceptance_source_kind(self.venue).to_owned(),
            artifact_ref: ack.acceptance_artifact_ref.clone(),
            artifact_hash: ack.acceptance_artifact_hash.clone(),
            observed_at: ack.accepted_at.clone(),
            tags: acceptance_tag_list(),
        };

        let shadow_hashed = JsonObject::new().with(
            JsonField::text("api_order_ref", request.order_ref.as_str()),
        ).with(JsonField::text("venue", venue_slug(self.venue)));
        assert(shadow_hashed@ =~= seq![
            text_member("api_order_ref"@, request@.order_ref),
            text_member("venue"@, venue_text(self.venue)),
        ]);
        let mut shadow_tags: Vec<String> = Vec::new();
        shadow_tags.push("order_identity".to_owned());
        shadow_tags.push("submission_timestamp".to_owned());
        assert(texts(shadow_tags@) =~= seq!["order_identity"@, "submission_timestamp"@]);
        let shadow = EvidenceItem {
            source_id: venue_label(self.venue, "-api"),
            source_kind: "venue_api_unsigned".to_owned(),
            artifact_ref: venue_path(self.venue, "://api/order/", request.order_ref.as_str()),
            artifact_hash: hash_json(&shadow_hashed),
            observed_at: shadow_at,
            tags: shadow_tags,
        };

        let mut items: Vec<EvidenceItem> = Vec::new();
        items.push(primary);
        items.push(shadow);
        let mut finality_observed_at: Option<String> = None;

        match request.claim_type {
            ClaimType::TRADE_EXECUTED => {
                match &request.execution_ref {
                    Some(execution_ref) => {
                        let mut extra = execution_tag_list();
                        candidates.append(&mut extra);
                        let hashed = JsonObject::new().with(
                            JsonField::text("execution_ref", execution_ref.as_str()),
                        ).with(JsonField::text("order_ref", request.order_ref.as_str())).with(
                            JsonField::text("venue", venue_slug(self.venue)),
                        );
                        assert(hashed@ =~= seq![
                            text_member("execution_ref"@, execution_ref@),
                            text_member("order_ref"@, request@.order_ref),
                            text_member("venue"@, venue_text(self.venue)),
                        ]);
                        items.push(
                            EvidenceItem {
                                source_id: venue_label(self.venue, "-execution"),
                                source_kind: acceptance_source_kind(self.venue).to_owned(),
                                artifact_ref: venue_path(
                                    self.venue,
                                    "://execution/",
                                    execution_ref.as_str(),
                                ),
                                artifact_hash: hash_json(&hashed),
                                observed_at: execution_at,
                                tags: execution_tag_list(),
                            },
                        );
                        finality_observed_at = Some(finality_at);
                    },
                    None => {},
                }
            },
            ClaimType::ORDER_PLACED => {},
        }
        assert(texts(candidates@) =~= candidate_tags(request@));

        let withheld = match request.payload.get("missing_tags") {
            Some(JsonValue::TextList(tags)) => clone_texts(tags),
            _ => Vec::new(),
        };
        assert(texts(withheld@) =~= withheld_tags(request@.payload));
        let observed_tags = without(&candidates, &withheld);

        let bundle = EvidenceBundle { items, observed_tags, conflicts, finality_observed_at };
        assert(bundle@.items =~= synthetic_bundle(
            self.served(),
            request@,
            ack@,
            shadow_at@,
            execution_at@,
            finality_at@,
        ).items);
        bundle
    }
}

impl VenueAdapter for SyntheticVenueAdapter {
    closed spec fn served(&self) -> Venue {
        self.venue
    }

    fn venue(&self) -> (venue: Venue) {
        self.venue
    }

    fn acknowledge(&self, request: &ProofRequest) -> (ack: Result<ExecutionAck, String>)
        ensures
            ack matches Ok(given) && given@ == synthetic_ack(
                self.served(),
                request@,
                given@.accepted_at,
            ),
    {
        Ok(self.acknowledge_at(request, now_iso()))
    }

    fn collect_evidence(&self, request: &ProofRequest, ack: &ExecutionAck) -> (bundle: Result<
        EvidenceBundle,
        String,
    >)
        ensures
            bundle matches Ok(found) && exists|
                shadow_at: Seq<char>,
                execution_at: Seq<char>,
                finality_at: Seq<char>,
            |
                found@ == synthetic_bundle(
                    self.served(),
                    request@,
                    ack@,
                    shadow_at,
                    execution_at,
                    finality_at,
                ),
    {
        Ok(self.collect_evidence_at(request, ack, now_iso(), now_iso(), now_iso()))
    }

    fn build_statement(
        &self,
        request: &ProofRequest,
        ack: &ExecutionAck,
        _bundle: &EvidenceBundle,
    ) -> (statement: Result<String, String>)
        ensures
            statement matches Ok(text) && text@ == default_statement_of(request@, ack@),
    {
        proof {
            lemma_default_statement_nonempty(request@, ack@);
        }
        Ok(default_statement(request, ack))
    }
}

} // verus!
