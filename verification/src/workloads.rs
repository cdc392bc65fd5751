//! Benchmark workloads: the check that every scenario is well formed and backed
//! by the evidence that the claim taxonomy requires, and the digest that stands
//! for each scenario.

use crate::hashing::{digest_of_text, sha256_hex};
use crate::json::{
    object_text, text_member, JsonField, JsonFieldView, JsonObject, JsonValue, JsonValueView,
};
use crate::models::{claim_type_text, parse_claim_type, parse_venue, venue_text, ClaimType, Venue};
use crate::order::{drop_repeats, sort_texts, sorted_texts, without_repeats};
use crate::policy::{
    has_rule, missing_tags, required_tags_in, required_tags_of, rule_exists, ClaimTaxonomy,
};
use crate::text::{contains_text, opt_text, texts, without};
use vstd::prelude::*;
use vstd::string::*;

verus! {

/// One benchmark scenario, as its document gives it. What the document leaves
/// out is `None`.
#[derive(Debug)]
pub struct Scenario {
    pub id: Option<String>,
    pub venue: Option<String>,
    pub claim_type: Option<String>,
    pub evidence_profile: Option<Vec<String>>,
    pub action_template: Option<String>,
    pub payload_bytes_target: Option<u64>,
}

/// What a [`Scenario`] holds.
pub struct ScenarioView {
    pub id: Option<Seq<char>>,
    pub venue: Option<Seq<char>>,
    pub claim_type: Option<Seq<char>>,
    pub evidence_profile: Option<Seq<Seq<char>>>,
    pub action_template: Option<Seq<char>>,
    pub payload_bytes_target: Option<nat>,
}

impl View for Scenario {
    type V = ScenarioView;

    open spec fn view(&self) -> ScenarioView {
        ScenarioView {
            id: opt_text(self.id),
            venue: opt_text(self.venue),
            claim_type: opt_text(self.claim_type),
            evidence_profile: match self.evidence_profile {
                Some(tags) => Some(texts(tags@)),
                None => None,
            },
            action_template: opt_text(self.action_template),
            payload_bytes_target: match self.payload_bytes_target {
                Some(n) => Some(n as nat),
                None => None,
            },
        }
    }
}

/// The views of a list of scenarios, in order.
pub open spec fn scenario_views(scenarios: Seq<Scenario>) -> Seq<ScenarioView> {
    Seq::new(scenarios.len(), |i: int| scenarios[i]@)
}

/// What is wrong with a set of workloads.
#[derive(Debug)]
pub enum WorkloadError {
    NoScenarios,
    MissingId,
    DuplicateId { id: String },
    MissingVenue { id: String },
    UnsupportedVenue { venue: String },
    MissingClaimType { id: String },
    UnsupportedClaim { claim_type: String },
    MissingEvidenceProfile { id: String },
    UnknownClaimType { claim_type: String },
    MissingRequiredTags { id: String, claim_type: String },
}

/// What a [`WorkloadError`] holds.
pub enum WorkloadErrorView {
    NoScenarios,
    MissingId,
    DuplicateId { id: Seq<char> },
    MissingVenue { id: Seq<char> },
    UnsupportedVenue { venue: Seq<char> },
    MissingClaimType { id: Seq<char> },
    UnsupportedClaim { claim_type: Seq<char> },
    MissingEvidenceProfile { id: Seq<char> },
    UnknownClaimType { claim_type: Seq<char> },
    MissingRequiredTags { id: Seq<char>, claim_type: Seq<char> },
}

impl View for WorkloadError {
    type V = WorkloadErrorView;

    open spec fn view(&self) -> WorkloadErrorView {
        match self {
            WorkloadError::NoScenarios => WorkloadErrorView::NoScenarios,
            WorkloadError::MissingId => WorkloadErrorView::MissingId,
            WorkloadError::DuplicateId { id } => WorkloadErrorView::DuplicateId { id: id@ },
            WorkloadError::MissingVenue { id } => WorkloadErrorView::MissingVenue { id: id@ },
            WorkloadError::UnsupportedVenue { venue } => WorkloadErrorView::UnsupportedVenue {
                venue: venue@,
            },
            WorkloadError::MissingClaimType { id } => WorkloadErrorView::MissingClaimType {
                id: id@,
            },
            WorkloadError::UnsupportedClaim { claim_type } => WorkloadErrorView::UnsupportedClaim {
                claim_type: claim_type@,
            },
            WorkloadError::MissingEvidenceProfile {
                id,
            } => WorkloadErrorView::MissingEvidenceProfile { id: id@ },
            WorkloadError::UnknownClaimType { claim_type } => WorkloadErrorView::UnknownClaimType {
                claim_type: claim_type@,
            },
            WorkloadError::MissingRequiredTags {
                id,
                claim_type,
            } => WorkloadErrorView::MissingRequiredTags { id: id@, claim_type: claim_type@ },
        }
    }
}

/// What a [`WorkloadError`] says in words.
pub open spec fn workload_error_text(error: WorkloadErrorView) -> Seq<char> {
    match error {
        WorkloadErrorView::NoScenarios => "workloads: scenarios must be non-empty"@,
        WorkloadErrorView::MissingId => "workloads: scenario missing id"@,
        WorkloadErrorView::DuplicateId { id } => "workloads: duplicate scenario id "@ + id,
        WorkloadErrorView::MissingVenue { id } => "workloads: scenario "@ + id + " missing venue"@,
        WorkloadErrorView::UnsupportedVenue { venue } => "workloads: unsupported venue "@ + venue,
        WorkloadErrorView::MissingClaimType { id } => "workloads: scenario "@ + id
            + " missing claim_type"@,
        WorkloadErrorView::UnsupportedClaim { claim_type } => "workloads: unsupported claim "@
            + claim_type,
        WorkloadErrorView::MissingEvidenceProfile { id } => "workloads: scenario "@ + id
            + " missing evidence_profile"@,
        WorkloadErrorView::UnknownClaimType { claim_type } => "workloads: unknown claim type "@
            + claim_type,
        WorkloadErrorView::MissingRequiredTags { id, claim_type } => "workloads: scenario "@ + id
            + " missing required evidence tags for "@ + claim_type,
    }
}

/// The text `head + middle + tail`.
fn three(head: &str, middle: &str, tail: &str) -> (text: String)
    ensures
        text@ == head@ + middle@ + tail@,
{
    let mut text = String::from_str(head);
    text.append(middle);
    text.append(tail);
    text
}

impl WorkloadError {
    /// The error in words.
    pub fn message(&self) -> (text: String)
        ensures
            text@ == workload_error_text(self@),
    {
        match self {
            WorkloadError::NoScenarios => "workloads: scenarios must be non-empty".to_owned(),
            WorkloadError::MissingId => "workloads: scenario missing id".to_owned(),
            WorkloadError::DuplicateId { id } => {
                let mut text = String::from_str("workloads: duplicate scenario id ");
                text.append(id.as_str());
                text
            },
            WorkloadError::MissingVenue { id } => three(
                "workloads: scenario ",
                id.as_str(),
                " missing venue",
            ),
            WorkloadError::UnsupportedVenue { venue } => {
                let mut text = String::from_str("workloads: unsupported venue ");
                text.append(venue.as_str());
                text
            },
            WorkloadError::MissingClaimType { id } => three(
                "workloads: scenario ",
                id.as_str(),
                " missing claim_type",
            ),
            WorkloadError::UnsupportedClaim { claim_type } => {
                let mut text = String::from_str("workloads: unsupported claim ");
                text.append(claim_type.as_str());
                text
            },
            WorkloadError::MissingEvidenceProfile { id } => three(
                "workloads: scenario ",
                id.as_str(),
                " missing evidence_profile",
            ),
            WorkloadError::UnknownClaimType { claim_type } => {
                let mut text = String::from_str("workloads: unknown claim type ");
                text.append(claim_type.as_str());
                text
            },
            WorkloadError::MissingRequiredTags { id, claim_type } => {
                let mut text = three(
                    "workloads: scenario ",
                    id.as_str(),
                    " missing required evidence tags for ",
                );
                text.append(claim_type.as_str());
                text
            },
        }
    }
}

/// Whether a text is the slug of a venue.
pub open spec fn names_venue(text: Seq<char>) -> bool {
    exists|venue: Venue| text == #[trigger] venue_text(venue)
}

/// Whether a text is the name of the claim type.
pub open spec fn names_claim_type(text: Seq<char>, claim_type: ClaimType) -> bool {
    text == claim_type_text(claim_type)
}

/// The text of an optional text: empty where there is none.
pub open spec fn text_or_empty(value: Option<Seq<char>>) -> Seq<char> {
    match value {
        Some(text) => text,
        None => Seq::empty(),
    }
}

/// The number of an optional number: zero where there is none.
pub open spec fn number_or_zero(value: Option<nat>) -> nat {
    match value {
        Some(n) => n,
        None => 0,
    }
}

/// The tags of a profile, each once, in ascending order.
pub open spec fn profile_tags(profile: Seq<Seq<char>>) -> Seq<Seq<char>> {
    without_repeats(sorted_texts(profile))
}

/// The digest of a scenario: the hexadecimal SHA-256 digest of the object that
/// holds its action template, claim type, evidence profile, payload size and
/// venue.
pub open spec fn scenario_digest(
    venue: Seq<char>,
    claim_type: Seq<char>,
    action_template: Seq<char>,
    profile: Seq<Seq<char>>,
    payload_bytes_target: nat,
) -> Seq<char> {
    digest_of_text(
        object_text(
            seq![
                text_member("action_template"@, action_template),
                text_member("claim_type"@, claim_type),
                JsonFieldView {
                    name: "evidence_profile"@,
                    value: JsonValueView::TextList(profile_tags(profile)),
                },
                JsonFieldView {
                    name: "payload_bytes_target"@,
                    value: JsonValueView::Number(payload_bytes_target),
                },
                text_member("venue"@, venue),
            ],
        ),
    )
}

/// The first thing that is wrong with a scenario, if anything is, given the
/// identifiers of the scenarios before it. The checks apply in this order: the
/// identifier is there and new; the venue is there and known; the claim type is
/// there and known; the evidence profile is there; the taxonomy has a rule for
/// the claim type; the profile holds every tag that the rule requires.
pub open spec fn scenario_fault(
    scenario: ScenarioView,
    earlier: Seq<Seq<char>>,
    taxonomy: ClaimTaxonomy,
) -> Option<WorkloadErrorView> {
    if scenario.id is None {
        Some(WorkloadErrorView::MissingId)
    } else if earlier.contains(scenario.id->0) {
        Some(WorkloadErrorView::DuplicateId { id: scenario.id->0 })
    } else if scenario.venue is None {
        Some(WorkloadErrorView::MissingVenue { id: scenario.id->0 })
    } else if !names_venue(scenario.venue->0) {
        Some(WorkloadErrorView::UnsupportedVenue { venue: scenario.venue->0 })
    } else if scenario.claim_type is None {
        Some(WorkloadErrorView::MissingClaimType { id: scenario.id->0 })
    } else if !names_claim_type(scenario.claim_type->0, ClaimType::ORDER_PLACED)
        && !names_claim_type(scenario.claim_type->0, ClaimType::TRADE_EXECUTED) {
        Some(WorkloadErrorView::UnsupportedClaim { claim_type: scenario.claim_type->0 })
    } else if scenario.evidence_profile is None {
        Some(WorkloadErrorView::MissingEvidenceProfile { id: scenario.id->0 })
    } else {
        let claim_type = if names_claim_type(scenario.claim_type->0, ClaimType::ORDER_PLACED) {
            ClaimType::ORDER_PLACED
        } else {
            ClaimType::TRADE_EXECUTED
        };
        if !has_rule(taxonomy.claim_types@, claim_type) {
            Some(WorkloadErrorView::UnknownClaimType { claim_type: scenario.claim_type->0 })
        } else if missing_tags(
            required_tags_in(taxonomy.claim_types@, claim_type),
            scenario.evidence_profile->0.to_set(),
        ).len() > 0 {
            Some(
                WorkloadErrorView::MissingRequiredTags {
                    id: scenario.id->0,
                    claim_type: scenario.claim_type->0,
                },
            )
        } else {
            None
        }
    }
}

/// The identifier of a scenario together with its digest.
pub open spec fn digest_entry(scenario: ScenarioView) -> (Seq<char>, Seq<char>) {
    (
        scenario.id->0,
        scenario_digest(
            scenario.venue->0,
            scenario.claim_type->0,
            text_or_empty(scenario.action_template),
            scenario.evidence_profile->0,
            number_or_zero(scenario.payload_bytes_target),
        ),
    )
}

/// The identifiers of the scenarios, in order. Where one has none, its place
/// holds the empty text.
pub open spec fn scenario_ids(scenarios: Seq<ScenarioView>) -> Seq<Seq<char>> {
    Seq::new(scenarios.len(), |i: int| text_or_empty(scenarios[i].id))
}

/// What is wrong with the scenario at `i`, given those before it.
pub open spec fn fault_at(
    scenarios: Seq<ScenarioView>,
    i: int,
    taxonomy: ClaimTaxonomy,
) -> Option<WorkloadErrorView> {
    scenario_fault(scenarios[i], scenario_ids(scenarios.take(i)), taxonomy)
}

/// Whether the workloads are sound: there is a scenario, and nothing is wrong
/// with any.
pub open spec fn workloads_sound(scenarios: Seq<ScenarioView>, taxonomy: ClaimTaxonomy) -> bool {
    scenarios.len() > 0 && forall|i: int|
        0 <= i < scenarios.len() ==> fault_at(scenarios, i, taxonomy) is None
}

/// Whether `i` is the place of the first scenario with which something is
/// wrong.
pub open spec fn first_fault_at(
    scenarios: Seq<ScenarioView>,
    i: int,
    taxonomy: ClaimTaxonomy,
) -> bool {
    &&& 0 <= i < scenarios.len()
    &&& fault_at(scenarios, i, taxonomy) is Some
    &&& forall|k: int| 0 <= k < i ==> fault_at(scenarios, k, taxonomy) is None
}

/// The digest entries of the scenarios, in order.
pub open spec fn digest_entries(scenarios: Seq<ScenarioView>) -> Seq<(Seq<char>, Seq<char>)> {
    Seq::new(scenarios.len(), |i: int| digest_entry(scenarios[i]))
}

/// The views of a list of digest entries.
pub open spec fn entry_views(entries: Seq<(String, String)>) -> Seq<(Seq<char>, Seq<char>)> {
    Seq::new(entries.len(), |i: int| (entries[i].0@, entries[i].1@))
}

/// The digest of a scenario whose venue, claim type and profile are given.
fn digest_of(
    venue: &str,
    claim_type: &str,
    action_template: &Option<String>,
    profile: &Vec<String>,
    payload_bytes_target: Option<u64>,
) -> (digest: String)
    ensures
        digest@ == scenario_digest(
            venue@,
            claim_type@,
            text_or_empty(opt_text(*action_template)),
            texts(profile@),
            match payload_bytes_target {
                Some(n) => n as nat,
                None => 0,
            },
        ),
{
    let sorted = sort_texts(profile);
    let tags = drop_repeats(&sorted);
    let template = match action_template {
        Some(text) => JsonField::text("action_template", text.as_str()),
        None => JsonField::text("action_template", ""),
    };
    assert(template@ == text_member(
        "action_template"@,
        text_or_empty(opt_text(*action_template)),
    )) by {
        reveal_strlit("");
        assert(""@ =~= Seq::<char>::empty());
    }
    let target = match payload_bytes_target {
        Some(n) => n,
        None => 0,
    };
    let object = JsonObject::new().with(template).with(
        JsonField::text("claim_type", claim_type),
    ).with(JsonField { name: "evidence_profile".to_owned(), value: JsonValue::TextList(tags) }).with(
        JsonField { name: "payload_bytes_target".to_owned(), value: JsonValue::Number(target) },
    ).with(JsonField::text("venue", venue));
    assert(object@ =~= seq![
        text_member("action_template"@, text_or_empty(opt_text(*action_template))),
        text_member("claim_type"@, claim_type@),
        JsonFieldView {
            name: "evidence_profile"@,
            value: JsonValueView::TextList(profile_tags(texts(profile@))),
        },
        JsonFieldView {
            name: "payload_bytes_target"@,
            value: JsonValueView::Number(target as nat),
        },
        text_member("venue"@, venue@),
    ]);
    let text = object.encode();
    sha256_hex(text.as_str())
}

/// Checks one scenario, given the identifiers of those before it, and computes
/// its digest.
fn check_scenario(scenario: &Scenario, earlier: &Vec<String>, taxonomy: &ClaimTaxonomy) -> (checked:
    Result<(String, String), WorkloadError>)
    ensures
        match checked {
            Ok(entry) => scenario_fault(scenario@, texts(earlier@), *taxonomy) is None && (
                entry.0@,
                entry.1@,
            ) == digest_entry(scenario@),
            Err(error) => scenario_fault(scenario@, texts(earlier@), *taxonomy) == Some(error@),
        },
{
    let id = match &scenario.id {
        Some(id) => id,
        None => {
            return Err(WorkloadError::MissingId);
        },
    };
    if contains_text(earlier, id.as_str()) {
        return Err(WorkloadError::DuplicateId { id: id.clone() });
    }
    let venue = match &scenario.venue {
        Some(venue) => venue,
        None => {
            return Err(WorkloadError::MissingVenue { id: id.clone() });
        },
    };
    if parse_venue(Some(venue.as_str())).is_none() {
        return Err(WorkloadError::UnsupportedVenue { venue: venue.clone() });
    }
    let claim_name = match &scenario.claim_type {
        Some(name) => name,
        None => {
            return Err(WorkloadError::MissingClaimType { id: id.clone() });
        },
    };
    let claim_type = match parse_claim_type(Some(claim_name.as_str())) {
        Some(claim_type) => claim_type,
        None => {
            return Err(WorkloadError::UnsupportedClaim { claim_type: claim_name.clone() });
        },
    };
    proof {
        lemma_claim_type_names_differ();
    }
    let profile = match &scenario.evidence_profile {
        Some(profile) => profile,
        None => {
            return Err(WorkloadError::MissingEvidenceProfile { id: id.clone() });
        },
    };
    if !rule_exists(&taxonomy.claim_types, claim_type) {
        return Err(WorkloadError::UnknownClaimType { claim_type: claim_name.clone() });
    }
    let required = required_tags_of(&taxonomy.claim_types, claim_type);
    let missing = without(&required, profile);
    if missing.len() > 0 {
        return Err(
            WorkloadError::MissingRequiredTags { id: id.clone(), claim_type: claim_name.clone() },
        );
    }
    let digest = digest_of(
        venue.as_str(),
        claim_name.as_str(),
        &scenario.action_template,
        profile,
        scenario.payload_bytes_target,
    );
    Ok((id.clone(), digest))
}

/// The two claim types have different names.
pub proof fn lemma_claim_type_names_differ()
    ensures
        claim_type_text(ClaimType::ORDER_PLACED) != claim_type_text(ClaimType::TRADE_EXECUTED),
{
    reveal_strlit("ORDER_PLACED");
    reveal_strlit("TRADE_EXECUTED");
    assert("ORDER_PLACED"@.len() != "TRADE_EXECUTED"@.len());
}

/// Checks the workloads against the claim taxonomy and computes the digest of
/// every scenario. It fails on the first scenario with which something is
/// wrong, and on workloads without scenarios.
pub fn validate_workloads_and_digests(scenarios: &Vec<Scenario>, taxonomy: &ClaimTaxonomy) -> (checked:
    Result<Vec<(String, String)>, WorkloadError>)
    ensures
        match checked {
            Ok(digests) => workloads_sound(scenario_views(scenarios@), *taxonomy) && entry_views(
                digests@,
            ) == digest_entries(scenario_views(scenarios@)),
            Err(error) => if scenarios@.len() == 0 {
                error@ == WorkloadErrorView::NoScenarios
            } else {
                exists|i: int|
                    first_fault_at(scenario_views(scenarios@), i, *taxonomy) && fault_at(
                        scenario_views(scenarios@),
                        i,
                        *taxonomy,
                    ) == Some(error@)
            },
        },
{
    if scenarios.len() == 0 {
        return Err(WorkloadError::NoScenarios);
    }
    let ghost views = scenario_views(scenarios@);
    let mut seen: Vec<String> = Vec::new();
    let mut digests: Vec<(String, String)> = Vec::new();
    let mut i: usize = 0;
    assert(texts(seen@) =~= scenario_ids(views.take(0)));
    while i < scenarios.len()
        invariant
            i <= scenarios.len(),
            views == scenario_views(scenarios@),
            texts(seen@) == scenario_ids(views.take(i as int)),
            digests@.len() == i,
            forall|k: int| 0 <= k < i ==> fault_at(views, k, *taxonomy) is None,
            forall|k: int|
                0 <= k < i ==> (#[trigger] digests@[k].0@, digests@[k].1@) == digest_entry(views[k]),
        decreases scenarios.len() - i,
    {
        match check_scenario(&scenarios[i], &seen, taxonomy) {
            Err(error) => {
                assert(first_fault_at(views, i as int, *taxonomy));
                return Err(error);
            },
            Ok(entry) => {
                let ghost before = texts(seen@);
                seen.push(entry.0.clone());
                digests.push(entry);
                assert(texts(seen@) =~= before.push(views[i as int].id->0));
                assert(scenario_ids(views.take(i + 1)) =~= scenario_ids(views.take(i as int)).push(
                    views[i as int].id->0,
                ));
            },
        }
        i += 1;
    }
    assert(entry_views(digests@) =~= digest_entries(views));
    Ok(digests)
}

} // verus!
