//! The policy engine: whether the evidence collected for a claim is sufficient
//! and comes from acceptable sources.

use crate::models::{
    ClaimType, EvidenceBundle, EvidenceBundleView, EvidenceItem, EvidenceItemView,
    NonProvableReason, Venue,
};
use crate::text::{absent_from, clone_texts, contains_text, join, join_texts, str_eq, texts, without};
use vstd::prelude::*;
use vstd::string::*;

verus! {

/// The verdict of the policy engine on one bundle of evidence.
#[derive(Debug)]
pub struct PolicyDecision {
    pub ok: bool,
    pub reason: Option<NonProvableReason>,
    pub details: String,
}

/// What a [`PolicyDecision`] holds.
pub struct PolicyDecisionView {
    pub ok: bool,
    pub reason: Option<NonProvableReason>,
    pub details: Seq<char>,
}

impl View for PolicyDecision {
    type V = PolicyDecisionView;

    open spec fn view(&self) -> PolicyDecisionView {
        PolicyDecisionView { ok: self.ok, reason: self.reason, details: self.details@ }
    }
}

impl Clone for PolicyDecision {
    fn clone(&self) -> (copy: PolicyDecision)
        ensures
            copy@ == self@,
    {
        PolicyDecision { ok: self.ok, reason: self.reason, details: self.details.clone() }
    }
}

/// What the claim taxonomy asks of one claim type.
#[derive(Debug)]
pub struct ClaimRule {
    pub claim_type: ClaimType,
    /// The evidence tags that must all be present.
    pub required_evidence_tags_all: Vec<String>,
}

/// The claim taxonomy: the rule of each claim type, and the reason codes that
/// a receipt may carry.
#[derive(Debug)]
pub struct ClaimTaxonomy {
    pub claim_types: Vec<ClaimRule>,
    pub non_provable_reason_codes: Vec<String>,
}

/// The evidence source kinds that one venue prefers, by claim type. A list
/// that the document leaves out is `None`.
#[derive(Debug)]
pub struct VenueSources {
    pub venue: Venue,
    pub order_placed_sources_preferred: Option<Vec<String>>,
    pub trade_executed_sources_preferred: Option<Vec<String>>,
}

/// The source precedence table, with its version.
#[derive(Debug)]
pub struct SourcePrecedence {
    pub version: Option<String>,
    pub venues: Vec<VenueSources>,
}

/// The tags that the first rule for `claim_type` requires; none where no rule
/// names the claim type.
pub open spec fn required_tags_in(rules: Seq<ClaimRule>, claim_type: ClaimType) -> Seq<Seq<char>>
    decreases rules.len(),
{
    if rules.len() == 0 {
        Seq::empty()
    } else if rules[0].claim_type == claim_type {
        texts(rules[0].required_evidence_tags_all@)
    } else {
        required_tags_in(rules.drop_first(), claim_type)
    }
}

/// The source kinds that one venue's entry prefers for `claim_type`.
pub open spec fn sources_of(entry: VenueSources, claim_type: ClaimType) -> Seq<Seq<char>> {
    let list = match claim_type {
        ClaimType::ORDER_PLACED => entry.order_placed_sources_preferred,
        ClaimType::TRADE_EXECUTED => entry.trade_executed_sources_preferred,
    };
    match list {
        Some(kinds) => texts(kinds@),
        None => Seq::empty(),
    }
}

/// The first entry of the table for `venue`, if there is one.
pub open spec fn venue_entry(venues: Seq<VenueSources>, venue: Venue) -> Option<VenueSources>
    decreases venues.len(),
{
    if venues.len() == 0 {
        None
    } else if venues[0].venue == venue {
        Some(venues[0])
    } else {
        venue_entry(venues.drop_first(), venue)
    }
}

/// The source kinds that the table prefers for `venue` and `claim_type`; none
/// where no entry names the venue.
pub open spec fn preferred_sources_in(
    venues: Seq<VenueSources>,
    venue: Venue,
    claim_type: ClaimType,
) -> Seq<Seq<char>> {
    match venue_entry(venues, venue) {
        Some(entry) => sources_of(entry, claim_type),
        None => Seq::empty(),
    }
}

/// What is wrong with a policy document.
#[derive(Debug, Clone, Copy, PartialEq, Eq, Structural)]
pub enum PolicyDocumentError {
    /// The claim taxonomy has no rule for the claim type.
    MissingClaimType(ClaimType),
    /// The claim taxonomy does not list every reason code.
    MissingReasonCodes,
    /// The source precedence table has no entry for the venue.
    MissingVenuePolicy(Venue),
    /// The venue's entry lacks one of its two lists of preferred sources.
    MissingSourceLists(Venue),
}

/// What a [`PolicyDocumentError`] says in words.
pub open spec fn document_error_text(error: PolicyDocumentError) -> Seq<char> {
    match error {
        PolicyDocumentError::MissingClaimType(claim_type) => "claim-taxonomy: missing claim type "@
            + crate::models::claim_type_text(claim_type),
        PolicyDocumentError::MissingReasonCodes => "claim-taxonomy: missing required non_provable_reason_codes"@,
        PolicyDocumentError::MissingVenuePolicy(venue) => "source-precedence: missing venue policy "@
            + crate::models::venue_text(venue),
        PolicyDocumentError::MissingSourceLists(venue) => "source-precedence: missing source preference lists for "@
            + crate::models::venue_text(venue),
    }
}

impl PolicyDocumentError {
    /// The error in words.
    pub fn message(&self) -> (text: String)
        ensures
            text@ == document_error_text(*self),
    {
        match self {
            PolicyDocumentError::MissingClaimType(claim_type) => {
                let mut text = String::from_str("claim-taxonomy: missing claim type ");
                text.append(claim_type.as_str());
                text
            },
            PolicyDocumentError::MissingReasonCodes => {
                "claim-taxonomy: missing required non_provable_reason_codes".to_owned()
            },
            PolicyDocumentError::MissingVenuePolicy(venue) => {
                let mut text = String::from_str("source-precedence: missing venue policy ");
                text.append(venue.as_str());
                text
            },
            PolicyDocumentError::MissingSourceLists(venue) => {
                let mut text = String::from_str(
                    "source-precedence: missing source preference lists for ",
                );
                text.append(venue.as_str());
                text
            },
        }
    }
}

/// Whether the taxonomy has a rule for `claim_type`.
pub open spec fn has_rule(rules: Seq<ClaimRule>, claim_type: ClaimType) -> bool {
    exists|i: int| 0 <= i < rules.len() && (#[trigger] rules[i]).claim_type == claim_type
}

/// Whether the codes listed include the name of every reason.
pub open spec fn names_every_reason(codes: Seq<Seq<char>>) -> bool {
    forall|reason: NonProvableReason| codes.contains(#[trigger] crate::models::reason_text(reason))
}

/// The first thing that is wrong with a claim taxonomy, if anything is: a claim
/// type without a rule, the placed order first, or a reason code that the
/// taxonomy does not list.
pub open spec fn taxonomy_fault(taxonomy: ClaimTaxonomy) -> Option<PolicyDocumentError> {
    if !has_rule(taxonomy.claim_types@, ClaimType::ORDER_PLACED) {
        Some(PolicyDocumentError::MissingClaimType(ClaimType::ORDER_PLACED))
    } else if !has_rule(taxonomy.claim_types@, ClaimType::TRADE_EXECUTED) {
        Some(PolicyDocumentError::MissingClaimType(ClaimType::TRADE_EXECUTED))
    } else if !names_every_reason(texts(taxonomy.non_provable_reason_codes@)) {
        Some(PolicyDocumentError::MissingReasonCodes)
    } else {
        None
    }
}

/// What is wrong with the table's entry for `venue`, if anything is: there is
/// none, or it lacks a list.
pub open spec fn venue_fault(venues: Seq<VenueSources>, venue: Venue) -> Option<
    PolicyDocumentError,
> {
    match venue_entry(venues, venue) {
        None => Some(PolicyDocumentError::MissingVenuePolicy(venue)),
        Some(entry) => if entry.order_placed_sources_preferred is None
            || entry.trade_executed_sources_preferred is None {
            Some(PolicyDocumentError::MissingSourceLists(venue))
        } else {
            None
        },
    }
}

/// The first thing that is wrong with a source precedence table, if anything
/// is, going through the venues in their order.
pub open spec fn precedence_fault(table: SourcePrecedence) -> Option<PolicyDocumentError> {
    if venue_fault(table.venues@, Venue::Hyperliquid) is Some {
        venue_fault(table.venues@, Venue::Hyperliquid)
    } else if venue_fault(table.venues@, Venue::Base) is Some {
        venue_fault(table.venues@, Venue::Base)
    } else if venue_fault(table.venues@, Venue::Solana) is Some {
        venue_fault(table.venues@, Venue::Solana)
    } else {
        venue_fault(table.venues@, Venue::Polymarket)
    }
}

/// The first entry of the table for `venue`, if there is one.
fn find_venue(venues: &Vec<VenueSources>, venue: Venue) -> (found: Option<&VenueSources>)
    ensures
        match found {
            Some(entry) => venue_entry(venues@, venue) == Some(*entry),
            None => venue_entry(venues@, venue) is None,
        },
{
    let mut i: usize = 0;
    assert(venues@.skip(0) =~= venues@);
    while i < venues.len()
        invariant
            i <= venues.len(),
            venue_entry(venues@, venue) == venue_entry(venues@.skip(i as int), venue),
        decreases venues.len() - i,
    {
        assert(venues@.skip(i as int)[0] == venues@[i as int]);
        if venues[i].venue == venue {
            return Some(&venues[i]);
        }
        assert(venues@.skip(i as int).drop_first() =~= venues@.skip(i + 1));
        i += 1;
    }
    None
}

/// The tags that the first rule for `claim_type` requires; none where no rule
/// names the claim type.
pub fn required_tags_of(rules: &Vec<ClaimRule>, claim_type: ClaimType) -> (tags: Vec<String>)
    ensures
        texts(tags@) == required_tags_in(rules@, claim_type),
{
    let mut i: usize = 0;
    assert(rules@.skip(0) =~= rules@);
    while i < rules.len()
        invariant
            i <= rules.len(),
            required_tags_in(rules@, claim_type) == required_tags_in(
                rules@.skip(i as int),
                claim_type,
            ),
        decreases rules.len() - i,
    {
        assert(rules@.skip(i as int)[0] == rules@[i as int]);
        if rules[i].claim_type == claim_type {
            return clone_texts(&rules[i].required_evidence_tags_all);
        }
        assert(rules@.skip(i as int).drop_first() =~= rules@.skip(i + 1));
        i += 1;
    }
    let tags: Vec<String> = Vec::new();
    assert(texts(tags@) =~= Seq::<Seq<char>>::empty());
    tags
}

/// Whether the taxonomy has a rule for `claim_type`.
pub fn rule_exists(rules: &Vec<ClaimRule>, claim_type: ClaimType) -> (found: bool)
    ensures
        found == has_rule(rules@, claim_type),
{
    let mut i: usize = 0;
    while i < rules.len()
        invariant
            i <= rules.len(),
            forall|k: int| 0 <= k < i ==> rules@[k].claim_type != claim_type,
        decreases rules.len() - i,
    {
        if rules[i].claim_type == claim_type {
            return true;
        }
        i += 1;
    }
    false
}

/// Checks one venue's entry in the table.
fn check_venue(venues: &Vec<VenueSources>, venue: Venue) -> (checked: Result<
    (),
    PolicyDocumentError,
>)
    ensures
        match venue_fault(venues@, venue) {
            Some(fault) => checked == Err::<(), PolicyDocumentError>(fault),
            None => checked is Ok,
        },
{
    match find_venue(venues, venue) {
        None => Err(PolicyDocumentError::MissingVenuePolicy(venue)),
        Some(entry) => {
            if entry.order_placed_sources_preferred.is_none()
                || entry.trade_executed_sources_preferred.is_none() {
                Err(PolicyDocumentError::MissingSourceLists(venue))
            } else {
                Ok(())
            }
        },
    }
}

/// Checks a claim taxonomy: it must have a rule for each claim type and list
/// every reason code.
pub fn validate_claim_taxonomy(data: &ClaimTaxonomy) -> (checked: Result<(), PolicyDocumentError>)
    ensures
        match taxonomy_fault(*data) {
            Some(fault) => checked == Err::<(), PolicyDocumentError>(fault),
            None => checked is Ok,
        },
{
    if !rule_exists(&data.claim_types, ClaimType::ORDER_PLACED) {
        return Err(PolicyDocumentError::MissingClaimType(ClaimType::ORDER_PLACED));
    }
    if !rule_exists(&data.claim_types, ClaimType::TRADE_EXECUTED) {
        return Err(PolicyDocumentError::MissingClaimType(ClaimType::TRADE_EXECUTED));
    }
    let codes = &data.non_provable_reason_codes;
    let complete = contains_text(codes, NonProvableReason::EVIDENCE_MISSING.as_str())
        && contains_text(codes, NonProvableReason::EVIDENCE_CONFLICT.as_str())
        && contains_text(codes, NonProvableReason::SOURCE_UNAVAILABLE.as_str())
        && contains_text(codes, NonProvableReason::FINALITY_TIMEOUT.as_str())
        && contains_text(codes, NonProvableReason::POLICY_VIOLATION.as_str())
        && contains_text(codes, NonProvableReason::SCHEMA_INVALID.as_str())
        && contains_text(codes, NonProvableReason::UNSUPPORTED_VENUE_CLAIM.as_str())
        && contains_text(codes, NonProvableReason::PROOF_FAILURE.as_str());
    if !complete {
        return Err(PolicyDocumentError::MissingReasonCodes);
    }
    Ok(())
}

/// Checks a source precedence table: every venue must have an entry with both
/// of its lists.
pub fn validate_source_precedence(data: &SourcePrecedence) -> (checked: Result<
    (),
    PolicyDocumentError,
>)
    ensures
        match precedence_fault(*data) {
            Some(fault) => checked == Err::<(), PolicyDocumentError>(fault),
            None => checked is Ok,
        },
{
    match check_venue(&data.venues, Venue::Hyperliquid) {
        Err(fault) => {
            return Err(fault);
        },
        Ok(_) => {},
    }
    match check_venue(&data.venues, Venue::Base) {
        Err(fault) => {
            return Err(fault);
        },
        Ok(_) => {},
    }
    match check_venue(&data.venues, Venue::Solana) {
        Err(fault) => {
            return Err(fault);
        },
        Ok(_) => {},
    }
    check_venue(&data.venues, Venue::Polymarket)
}

/// The source kinds of a list of evidence items, in order.
pub open spec fn source_kinds(items: Seq<EvidenceItemView>) -> Seq<Seq<char>> {
    Seq::new(items.len(), |i: int| items[i].source_kind)
}

/// The required tags that the evidence does not satisfy, in the order of the
/// rule.
pub open spec fn missing_tags(required: Seq<Seq<char>>, observed: Set<Seq<char>>) -> Seq<
    Seq<char>,
> {
    required.filter(absent_from(observed))
}

/// Whether one of the preferred source kinds is the kind of one of the items.
pub open spec fn some_preferred_observed(
    preferred: Seq<Seq<char>>,
    items: Seq<EvidenceItemView>,
) -> bool {
    exists|i: int| 0 <= i < preferred.len() && source_kinds(items).contains(#[trigger] preferred[i])
}

/// A rejection for `reason`.
pub open spec fn rejection(reason: NonProvableReason, details: Seq<char>) -> PolicyDecisionView {
    PolicyDecisionView { ok: false, reason: Some(reason), details }
}

/// Whether two rules say the same.
pub open spec fn same_rule(a: ClaimRule, b: ClaimRule) -> bool {
    a.claim_type == b.claim_type && texts(a.required_evidence_tags_all@) == texts(
        b.required_evidence_tags_all@,
    )
}

/// Whether two optional lists hold the same texts.
pub open spec fn same_list(a: Option<Vec<String>>, b: Option<Vec<String>>) -> bool {
    match (a, b) {
        (Some(x), Some(y)) => texts(x@) == texts(y@),
        (None, None) => true,
        _ => false,
    }
}

/// Whether two entries of the table say the same.
pub open spec fn same_sources(a: VenueSources, b: VenueSources) -> bool {
    &&& a.venue == b.venue
    &&& same_list(a.order_placed_sources_preferred, b.order_placed_sources_preferred)
    &&& same_list(a.trade_executed_sources_preferred, b.trade_executed_sources_preferred)
}

/// Whether two policy engines hold the same documents.
pub open spec fn same_policy(a: PolicyEngine, b: PolicyEngine) -> bool {
    &&& a.claim_taxonomy.claim_types@.len() == b.claim_taxonomy.claim_types@.len()
    &&& forall|k: int|
        0 <= k < a.claim_taxonomy.claim_types@.len() ==> same_rule(
            #[trigger] a.claim_taxonomy.claim_types@[k],
            b.claim_taxonomy.claim_types@[k],
        )
    &&& texts(a.claim_taxonomy.non_provable_reason_codes@) == texts(
        b.claim_taxonomy.non_provable_reason_codes@,
    )
    &&& a.precedence_version() == b.precedence_version()
    &&& a.source_precedence.venues@.len() == b.source_precedence.venues@.len()
    &&& forall|k: int|
        0 <= k < a.source_precedence.venues@.len() ==> same_sources(
            #[trigger] a.source_precedence.venues@[k],
            b.source_precedence.venues@[k],
        )
}

proof fn lemma_same_rules_require_the_same(a: Seq<ClaimRule>, b: Seq<ClaimRule>, claim_type: ClaimType)
    requires
        a.len() == b.len(),
        forall|k: int| 0 <= k < a.len() ==> same_rule(#[trigger] a[k], b[k]),
    ensures
        required_tags_in(a, claim_type) == required_tags_in(b, claim_type),
    decreases a.len(),
{
    if a.len() > 0 {
        assert(same_rule(a[0], b[0]));
        assert forall|k: int| 0 <= k < a.drop_first().len() implies same_rule(
            #[trigger] a.drop_first()[k],
            b.drop_first()[k],
        ) by {
            assert(same_rule(a[k + 1], b[k + 1]));
        }
        lemma_same_rules_require_the_same(a.drop_first(), b.drop_first(), claim_type);
    }
}

proof fn lemma_same_sources_prefer_the_same(
    a: Seq<VenueSources>,
    b: Seq<VenueSources>,
    venue: Venue,
    claim_type: ClaimType,
)
    requires
        a.len() == b.len(),
        forall|k: int| 0 <= k < a.len() ==> same_sources(#[trigger] a[k], b[k]),
    ensures
        preferred_sources_in(a, venue, claim_type) == preferred_sources_in(b, venue, claim_type),
    decreases a.len(),
{
    if a.len() > 0 {
        assert(same_sources(a[0], b[0]));
        assert forall|k: int| 0 <= k < a.drop_first().len() implies same_sources(
            #[trigger] a.drop_first()[k],
            b.drop_first()[k],
        ) by {
            assert(same_sources(a[k + 1], b[k + 1]));
        }
        lemma_same_sources_prefer_the_same(a.drop_first(), b.drop_first(), venue, claim_type);
    }
}

/// Two engines that hold the same documents judge alike: they require the same
/// tags, prefer the same sources and so reach the same verdict on every bundle.
pub proof fn lemma_same_policy_decides_the_same(
    a: PolicyEngine,
    b: PolicyEngine,
    venue: Venue,
    claim_type: ClaimType,
    bundle: EvidenceBundleView,
)
    requires
        same_policy(a, b),
    ensures
        a.required_tags(claim_type) == b.required_tags(claim_type),
        a.preferred(venue, claim_type) == b.preferred(venue, claim_type),
        a.decide(venue, claim_type, bundle) == b.decide(venue, claim_type, bundle),
{
    lemma_same_rules_require_the_same(
        a.claim_taxonomy.claim_types@,
        b.claim_taxonomy.claim_types@,
        claim_type,
    );
    lemma_same_sources_prefer_the_same(
        a.source_precedence.venues@,
        b.source_precedence.venues@,
        venue,
        claim_type,
    );
}

impl Clone for ClaimRule {
    fn clone(&self) -> (copy: ClaimRule)
        ensures
            same_rule(*self, copy),
    {
        ClaimRule {
            claim_type: self.claim_type,
            required_evidence_tags_all: clone_texts(&self.required_evidence_tags_all),
        }
    }
}

/// A copy of an optional list of strings.
fn clone_list(list: &Option<Vec<String>>) -> (copy: Option<Vec<String>>)
    ensures
        same_list(*list, copy),
{
    match list {
        Some(items) => Some(clone_texts(items)),
        None => None,
    }
}

impl Clone for VenueSources {
    fn clone(&self) -> (copy: VenueSources)
        ensures
            same_sources(*self, copy),
    {
        VenueSources {
            venue: self.venue,
            order_placed_sources_preferred: clone_list(&self.order_placed_sources_preferred),
            trade_executed_sources_preferred: clone_list(&self.trade_executed_sources_preferred),
        }
    }
}

impl Clone for PolicyEngine {
    fn clone(&self) -> (copy: PolicyEngine)
        ensures
            same_policy(*self, copy),
    {
        let mut claim_types: Vec<ClaimRule> = Vec::new();
        let mut i: usize = 0;
        while i < self.claim_taxonomy.claim_types.len()
            invariant
                i <= self.claim_taxonomy.claim_types.len(),
                claim_types@.len() == i,
                forall|k: int|
                    0 <= k < i ==> same_rule(
                        #[trigger] self.claim_taxonomy.claim_types@[k],
                        claim_types@[k],
                    ),
            decreases self.claim_taxonomy.claim_types.len() - i,
        {
            claim_types.push(self.claim_taxonomy.claim_types[i].clone());
            i += 1;
        }
        let mut venues: Vec<VenueSources> = Vec::new();
        let mut j: usize = 0;
        while j < self.source_precedence.venues.len()
            invariant
                j <= self.source_precedence.venues.len(),
                venues@.len() == j,
                forall|k: int|
                    0 <= k < j ==> same_sources(
                        #[trigger] self.source_precedence.venues@[k],
                        venues@[k],
                    ),
            decreases self.source_precedence.venues.len() - j,
        {
            venues.push(self.source_precedence.venues[j].clone());
            j += 1;
        }
        PolicyEngine {
            claim_taxonomy: ClaimTaxonomy {
                claim_types,
                non_provable_reason_codes: clone_texts(
                    &self.claim_taxonomy.non_provable_reason_codes,
                ),
            },
            source_precedence: SourcePrecedence {
                version: crate::text::clone_opt(&self.source_precedence.version),
                venues,
            },
        }
    }
}

/// The verdict on a bundle, given the tags that are required and the source
/// kinds that are preferred. The checks apply in this order, and the first that
/// fails decides: recorded conflicts, no evidence at all, a required tag that
/// is missing, no preferred source among those observed.
pub open spec fn decision_for(
    required: Seq<Seq<char>>,
    preferred: Seq<Seq<char>>,
    bundle: EvidenceBundleView,
) -> PolicyDecisionView {
    if bundle.conflicts.len() > 0 {
        rejection(
            NonProvableReason::EVIDENCE_CONFLICT,
            "Conflicting evidence entries detected: "@ + join_texts(bundle.conflicts, ", "@),
        )
    } else if bundle.items.len() == 0 {
        rejection(NonProvableReason::EVIDENCE_MISSING, "No evidence artifacts were collected."@)
    } else if missing_tags(required, bundle.observed_tags).len() > 0 {
        rejection(
            NonProvableReason::EVIDENCE_MISSING,
            "Missing required evidence tags: "@ + join_texts(
                missing_tags(required, bundle.observed_tags),
                ", "@,
            ),
        )
    } else if preferred.len() > 0 && !some_preferred_observed(preferred, bundle.items) {
        rejection(
            NonProvableReason::SOURCE_UNAVAILABLE,
            "No acceptable preferred source kinds observed. Expected one of: "@ + join_texts(
                preferred,
                ", "@,
            ),
        )
    } else {
        PolicyDecisionView { ok: true, reason: None, details: Seq::empty() }
    }
}

/// Conflicts decide before anything else: a bundle that reports one is rejected
/// for conflicting evidence, whatever is required or preferred and whatever
/// else the bundle holds.
pub proof fn lemma_conflict_has_priority(
    required: Seq<Seq<char>>,
    preferred: Seq<Seq<char>>,
    bundle: EvidenceBundleView,
)
    requires
        bundle.conflicts.len() > 0,
    ensures
        !decision_for(required, preferred, bundle).ok,
        decision_for(required, preferred, bundle).reason == Some(
            NonProvableReason::EVIDENCE_CONFLICT,
        ),
{
}

/// A bundle without conflicts that lacks a required tag is rejected for missing
/// evidence, whatever its sources are.
pub proof fn lemma_missing_tag_rejected(
    required: Seq<Seq<char>>,
    preferred: Seq<Seq<char>>,
    bundle: EvidenceBundleView,
    i: int,
)
    requires
        bundle.conflicts.len() == 0,
        0 <= i < required.len(),
        !bundle.observed_tags.contains(required[i]),
    ensures
        !decision_for(required, preferred, bundle).ok,
        decision_for(required, preferred, bundle).reason == Some(
            NonProvableReason::EVIDENCE_MISSING,
        ),
{
    required.lemma_filter_contains(absent_from(bundle.observed_tags), i);
}

/// The policy engine, loaded once with the claim taxonomy and the source
/// precedence table.
#[derive(Debug)]
pub struct PolicyEngine {
    pub claim_taxonomy: ClaimTaxonomy,
    pub source_precedence: SourcePrecedence,
}

/// Whether one of the preferred source kinds is the kind of one of the items.
fn any_preferred_observed(preferred: &Vec<String>, items: &Vec<EvidenceItem>) -> (found: bool)
    ensures
        found == some_preferred_observed(texts(preferred@), crate::models::item_views(items@)),
{
    let ghost kinds = source_kinds(crate::models::item_views(items@));
    let mut i: usize = 0;
    while i < preferred.len()
        invariant
            i <= preferred.len(),
            kinds == source_kinds(crate::models::item_views(items@)),
            forall|k: int| 0 <= k < i ==> !kinds.contains(#[trigger] texts(preferred@)[k]),
        decreases preferred.len() - i,
    {
        let mut j: usize = 0;
        while j < items.len()
            invariant
                i < preferred.len(),
                j <= items.len(),
                kinds == source_kinds(crate::models::item_views(items@)),
                forall|k: int| 0 <= k < j ==> kinds[k] != preferred@[i as int]@,
            decreases items.len() - j,
        {
            if str_eq(items[j].source_kind.as_str(), preferred[i].as_str()) {
                assert(kinds[j as int] == texts(preferred@)[i as int]);
                return true;
            }
            j += 1;
        }
        assert(!kinds.contains(texts(preferred@)[i as int]));
        i += 1;
    }
    false
}

impl PolicyEngine {
    /// The engine over the two policy documents.
    pub fn new(claim_taxonomy: ClaimTaxonomy, source_precedence: SourcePrecedence) -> (engine:
        PolicyEngine)
        ensures
            engine.claim_taxonomy == claim_taxonomy,
            engine.source_precedence == source_precedence,
    {
        PolicyEngine { claim_taxonomy, source_precedence }
    }

    /// The tags that the taxonomy requires for `claim_type`.
    pub open spec fn required_tags(&self, claim_type: ClaimType) -> Seq<Seq<char>> {
        required_tags_in(self.claim_taxonomy.claim_types@, claim_type)
    }

    /// The source kinds that the table prefers for `venue` and `claim_type`.
    pub open spec fn preferred(&self, venue: Venue, claim_type: ClaimType) -> Seq<Seq<char>> {
        preferred_sources_in(self.source_precedence.venues@, venue, claim_type)
    }

    /// The version of the source precedence table; `unknown` where the table
    /// names none.
    pub open spec fn precedence_version(&self) -> Seq<char> {
        match self.source_precedence.version {
            Some(v) => v@,
            None => "unknown"@,
        }
    }

    /// The verdict of this engine on a bundle.
    pub open spec fn decide(
        &self,
        venue: Venue,
        claim_type: ClaimType,
        bundle: EvidenceBundleView,
    ) -> PolicyDecisionView {
        decision_for(self.required_tags(claim_type), self.preferred(venue, claim_type), bundle)
    }

    /// The version of the source precedence table.
    pub fn source_precedence_version(&self) -> (version: String)
        ensures
            version@ == self.precedence_version(),
    {
        match &self.source_precedence.version {
            Some(v) => v.clone(),
            None => "unknown".to_owned(),
        }
    }

    /// The identifier of the policy.
    pub fn policy_id(&self) -> (id: String)
        ensures
            id@ == "default-v0.1.0"@,
    {
        "default-v0.1.0".to_owned()
    }

    /// The identifier of the finality rule.
    pub fn finality_rule_id(&self) -> (id: String)
        ensures
            id@ == "venue-default-finality-v0.1.0"@,
    {
        "venue-default-finality-v0.1.0".to_owned()
    }

    /// Judges the evidence collected for a claim of `claim_type` on `venue`.
    pub fn evaluate(&self, venue: Venue, claim_type: ClaimType, bundle: &EvidenceBundle) -> (decision:
        PolicyDecision)
        ensures
            decision@ == self.decide(venue, claim_type, bundle@),
    {
        if bundle.conflicts.len() > 0 {
            let mut details = String::from_str("Conflicting evidence entries detected: ");
            details.append(join(&bundle.conflicts, ", ").as_str());
            return PolicyDecision {
                ok: false,
                reason: Some(NonProvableReason::EVIDENCE_CONFLICT),
                details,
            };
        }
        if bundle.items.len() == 0 {
            return PolicyDecision {
                ok: false,
                reason: Some(NonProvableReason::EVIDENCE_MISSING),
                details: "No evidence artifacts were collected.".to_owned(),
            };
        }
        let required = self.required_tags_for_claim(claim_type);
        let missing = without(&required, &bundle.observed_tags);
        if missing.len() > 0 {
            let mut details = String::from_str("Missing required evidence tags: ");
            details.append(join(&missing, ", ").as_str());
            return PolicyDecision {
                ok: false,
                reason: Some(NonProvableReason::EVIDENCE_MISSING),
                details,
            };
        }
        let preferred = self.preferred_sources(venue, claim_type);
        if preferred.len() > 0 && !any_preferred_observed(&preferred, &bundle.items) {
            let mut details = String::from_str(
                "No acceptable preferred source kinds observed. Expected one of: ",
            );
            details.append(join(&preferred, ", ").as_str());
            return PolicyDecision {
                ok: false,
                reason: Some(NonProvableReason::SOURCE_UNAVAILABLE),
                details,
            };
        }
        PolicyDecision { ok: true, reason: None, details: String::new() }
    }

    /// The tags that the taxonomy requires for `claim_type`.
    pub fn required_tags_for_claim(&self, claim_type: ClaimType) -> (tags: Vec<String>)
        ensures
            texts(tags@) == self.required_tags(claim_type),
    {
        required_tags_of(&self.claim_taxonomy.claim_types, claim_type)
    }

    /// The source kinds that the table prefers for `venue` and `claim_type`.
    pub fn preferred_sources(&self, venue: Venue, claim_type: ClaimType) -> (kinds: Vec<String>)
        ensures
            texts(kinds@) == self.preferred(venue, claim_type),
    {
        let list = match find_venue(&self.source_precedence.venues, venue) {
            Some(entry) => match claim_type {
                ClaimType::ORDER_PLACED => &entry.order_placed_sources_preferred,
                ClaimType::TRADE_EXECUTED => &entry.trade_executed_sources_preferred,
            },
            None => &None,
        };
        match list {
            Some(kinds) => clone_texts(kinds),
            None => {
                let kinds: Vec<String> = Vec::new();
                assert(texts(kinds@) =~= Seq::<Seq<char>>::empty());
                kinds
            },
        }
    }
}

} // verus!
