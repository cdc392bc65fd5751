use zkputer::adapters::base::{default_statement, venue_slug};
use zkputer::adapters::synthetic::acceptance_source_kind;
use zkputer::adapters::{SyntheticVenueAdapter, VenueAdapter};
use zkputer::engine::{
    build_integrity, build_proved_receipt, build_proved_receipt_at, mark_non_provable,
    mark_non_provable_at, pending_receipt,
};
use zkputer::json::{JsonField, JsonObject, JsonValue};
use zkputer::models::{
    hash_json, hash_str, new_receipt_id, now_iso, parse_claim_type, parse_venue, ClaimType,
    EvidenceBundle, EvidenceItem, ExecutionAck, NonProvableReason, ProofBackend, ProofRequest,
    ReceiptStatus, Venue, VerificationMode, ZKReceipt,
};
use zkputer::offchain::{public_inputs, OffchainVerifier};
use zkputer::pipeline::{
    process_receipt_task, reject_unsupported_venue, venue_debug_name, PipelineEvent, PipelineState,
};
use zkputer::policy::{
    validate_claim_taxonomy, validate_source_precedence, ClaimRule, ClaimTaxonomy,
    PolicyDocumentError, PolicyEngine, SourcePrecedence, VenueSources,
};
use zkputer::prover::{no_proof_metadata, ProverBackend, Sp1MvpProver};

const ZERO_HASH: &str = "0x0000000000000000000000000000000000000000000000000000000000000000";

fn strings(items: &[&str]) -> Vec<String> {
    items.iter().map(|s| s.to_string()).collect()
}

fn taxonomy() -> ClaimTaxonomy {
    ClaimTaxonomy {
        claim_types: vec![
            ClaimRule {
                claim_type: ClaimType::ORDER_PLACED,
                required_evidence_tags_all: strings(&[
                    "order_identity",
                    "submission_timestamp",
                    "venue_acceptance_artifact",
                ]),
            },
            ClaimRule {
                claim_type: ClaimType::TRADE_EXECUTED,
                required_evidence_tags_all: strings(&[
                    "order_identity",
                    "execution_identity",
                    "execution_timestamp",
                    "execution_artifact",
                ]),
            },
        ],
        non_provable_reason_codes: strings(&[
            "EVIDENCE_MISSING",
            "EVIDENCE_CONFLICT",
            "SOURCE_UNAVAILABLE",
            "FINALITY_TIMEOUT",
            "POLICY_VIOLATION",
            "SCHEMA_INVALID",
            "UNSUPPORTED_VENUE_CLAIM",
            "PROOF_FAILURE",
        ]),
    }
}

fn sources(venue: Venue, kinds: &[&str]) -> VenueSources {
    VenueSources {
        venue,
        order_placed_sources_preferred: Some(strings(kinds)),
        trade_executed_sources_preferred: Some(strings(kinds)),
    }
}

fn precedence() -> SourcePrecedence {
    SourcePrecedence {
        version: Some("v0.1.0".to_string()),
        venues: vec![
            sources(Venue::Hyperliquid, &["venue_signed_attestation", "venue_api_unsigned"]),
            sources(Venue::Base, &["canonical_chain_state", "indexer_api"]),
            sources(Venue::Solana, &["canonical_chain_state", "indexer_api"]),
            sources(Venue::Polymarket, &["canonical_chain_state", "venue_api_unsigned"]),
        ],
    }
}

fn policy() -> PolicyEngine {
    PolicyEngine::new(taxonomy(), precedence())
}

fn item(kind: &str, hash: &str) -> EvidenceItem {
    EvidenceItem {
        source_id: "src".to_string(),
        source_kind: kind.to_string(),
        artifact_ref: "ref".to_string(),
        artifact_hash: hash.to_string(),
        observed_at: "2024-01-01T00:00:00.000Z".to_string(),
        tags: vec![],
    }
}

fn good_bundle() -> EvidenceBundle {
    EvidenceBundle {
        items: vec![item("canonical_chain_state", "0x01"), item("venue_api_unsigned", "0x02")],
        observed_tags: strings(&[
            "order_identity",
            "submission_timestamp",
            "venue_acceptance_artifact",
        ]),
        conflicts: vec![],
        finality_observed_at: None,
    }
}

fn request() -> ProofRequest {
    ProofRequest {
        venue: Venue::Base,
        claim_type: ClaimType::ORDER_PLACED,
        account_ref: "acct-1".to_string(),
        order_ref: "order-1".to_string(),
        execution_ref: None,
        payload: JsonObject::new(),
    }
}

fn ack() -> ExecutionAck {
    ExecutionAck {
        accepted: true,
        venue_order_ref: "order-1".to_string(),
        acceptance_artifact_ref: "base://ack/order-1".to_string(),
        acceptance_artifact_hash: "0xaa".to_string(),
        accepted_at: "2024-01-01T00:00:00.000Z".to_string(),
    }
}

fn pending() -> ZKReceipt {
    pending_receipt(
        &request(),
        &policy(),
        "signer-1",
        "v9",
        "id-1".to_string(),
        "2024-01-01T00:00:00.000Z".to_string(),
    )
}

#[test]
fn policy_accepts_sufficient_evidence() {
    let decision = policy().evaluate(Venue::Base, ClaimType::ORDER_PLACED, &good_bundle());
    assert!(decision.ok);
    assert_eq!(decision.reason, None);
    assert_eq!(decision.details, "");
}

#[test]
fn policy_reports_conflicts_first() {
    let mut bundle = good_bundle();
    bundle.conflicts = strings(&["source_value_mismatch", "timestamp_skew"]);
    let decision = policy().evaluate(Venue::Base, ClaimType::ORDER_PLACED, &bundle);
    assert!(!decision.ok);
    assert_eq!(decision.reason, Some(NonProvableReason::EVIDENCE_CONFLICT));
    assert_eq!(
        decision.details,
        "Conflicting evidence entries detected: source_value_mismatch, timestamp_skew"
    );
}

#[test]
fn policy_reports_conflicts_before_anything_else_is_wrong() {
    let bundle = EvidenceBundle {
        items: vec![],
        observed_tags: vec![],
        conflicts: strings(&["c1"]),
        finality_observed_at: None,
    };
    let decision = policy().evaluate(Venue::Base, ClaimType::TRADE_EXECUTED, &bundle);
    assert_eq!(decision.reason, Some(NonProvableReason::EVIDENCE_CONFLICT));
    assert_eq!(decision.details, "Conflicting evidence entries detected: c1");
}

#[test]
fn policy_rejects_a_bundle_without_items() {
    let mut bundle = good_bundle();
    bundle.items = vec![];
    let decision = policy().evaluate(Venue::Base, ClaimType::ORDER_PLACED, &bundle);
    assert!(!decision.ok);
    assert_eq!(decision.reason, Some(NonProvableReason::EVIDENCE_MISSING));
    assert_eq!(decision.details, "No evidence artifacts were collected.");
}

#[test]
fn policy_lists_missing_tags_in_the_order_of_the_rule() {
    let decision = policy().evaluate(Venue::Base, ClaimType::TRADE_EXECUTED, &good_bundle());
    assert!(!decision.ok);
    assert_eq!(decision.reason, Some(NonProvableReason::EVIDENCE_MISSING));
    assert_eq!(
        decision.details,
        "Missing required evidence tags: execution_identity, execution_timestamp, execution_artifact"
    );
}

#[test]
fn policy_reports_missing_tags_before_sources() {
    let mut bundle = good_bundle();
    bundle.items = vec![item("gossip", "0x01")];
    bundle.observed_tags = strings(&["order_identity"]);
    let decision = policy().evaluate(Venue::Base, ClaimType::ORDER_PLACED, &bundle);
    assert_eq!(decision.reason, Some(NonProvableReason::EVIDENCE_MISSING));
    assert_eq!(
        decision.details,
        "Missing required evidence tags: submission_timestamp, venue_acceptance_artifact"
    );
}

#[test]
fn policy_rejects_when_no_preferred_source_was_observed() {
    let mut bundle = good_bundle();
    bundle.items = vec![item("gossip", "0x01"), item("venue_api_unsigned", "0x02")];
    let decision = policy().evaluate(Venue::Base, ClaimType::ORDER_PLACED, &bundle);
    assert!(!decision.ok);
    assert_eq!(decision.reason, Some(NonProvableReason::SOURCE_UNAVAILABLE));
    assert_eq!(
        decision.details,
        "No acceptable preferred source kinds observed. Expected one of: canonical_chain_state, indexer_api"
    );
}

#[test]
fn policy_accepts_any_source_where_none_is_preferred() {
    let mut table = precedence();
    table.venues[1].order_placed_sources_preferred = Some(vec![]);
    let engine = PolicyEngine::new(taxonomy(), table);
    let mut bundle = good_bundle();
    bundle.items = vec![item("gossip", "0x01")];
    assert!(engine.evaluate(Venue::Base, ClaimType::ORDER_PLACED, &bundle).ok);
    let engine = PolicyEngine::new(
        taxonomy(),
        SourcePrecedence { version: None, venues: vec![] },
    );
    assert!(engine.evaluate(Venue::Base, ClaimType::ORDER_PLACED, &bundle).ok);
    assert_eq!(engine.source_precedence_version(), "unknown");
}

#[test]
fn policy_requires_nothing_of_a_claim_type_without_a_rule() {
    let engine = PolicyEngine::new(
        ClaimTaxonomy { claim_types: vec![], non_provable_reason_codes: vec![] },
        precedence(),
    );
    let mut bundle = good_bundle();
    bundle.observed_tags = vec![];
    assert!(engine.evaluate(Venue::Base, ClaimType::TRADE_EXECUTED, &bundle).ok);
    assert_eq!(engine.required_tags_for_claim(ClaimType::ORDER_PLACED), Vec::<String>::new());
}

#[test]
fn policy_lookups_and_identifiers() {
    let engine = policy();
    assert_eq!(
        engine.required_tags_for_claim(ClaimType::ORDER_PLACED),
        strings(&["order_identity", "submission_timestamp", "venue_acceptance_artifact"])
    );
    assert_eq!(
        engine.preferred_sources(Venue::Hyperliquid, ClaimType::TRADE_EXECUTED),
        strings(&["venue_signed_attestation", "venue_api_unsigned"])
    );
    assert_eq!(engine.source_precedence_version(), "v0.1.0");
    assert_eq!(engine.policy_id(), "default-v0.1.0");
    assert_eq!(engine.finality_rule_id(), "venue-default-finality-v0.1.0");
}

#[test]
fn taxonomy_validation_names_the_first_fault() {
    assert_eq!(validate_claim_taxonomy(&taxonomy()), Ok(()));
    let mut t = taxonomy();
    t.claim_types.remove(0);
    let err = validate_claim_taxonomy(&t).expect_err("fault");
    assert_eq!(err, PolicyDocumentError::MissingClaimType(ClaimType::ORDER_PLACED));
    assert_eq!(err.message(), "claim-taxonomy: missing claim type ORDER_PLACED");
    let mut t = taxonomy();
    t.claim_types.remove(1);
    let err = validate_claim_taxonomy(&t).expect_err("fault");
    assert_eq!(err.message(), "claim-taxonomy: missing claim type TRADE_EXECUTED");
    let mut t = taxonomy();
    t.non_provable_reason_codes.remove(7);
    let err = validate_claim_taxonomy(&t).expect_err("fault");
    assert_eq!(err, PolicyDocumentError::MissingReasonCodes);
    assert_eq!(err.message(), "claim-taxonomy: missing required non_provable_reason_codes");
    let mut t = taxonomy();
    t.non_provable_reason_codes.push("EXTRA".to_string());
    assert_eq!(validate_claim_taxonomy(&t), Ok(()));
}

#[test]
fn precedence_validation_names_the_first_fault() {
    assert_eq!(validate_source_precedence(&precedence()), Ok(()));
    let mut p = precedence();
    p.venues.remove(2);
    let err = validate_source_precedence(&p).expect_err("fault");
    assert_eq!(err, PolicyDocumentError::MissingVenuePolicy(Venue::Solana));
    assert_eq!(err.message(), "source-precedence: missing venue policy solana");
    let mut p = precedence();
    p.venues[3].trade_executed_sources_preferred = None;
    p.venues[1].order_placed_sources_preferred = None;
    let err = validate_source_precedence(&p).expect_err("fault");
    assert_eq!(err, PolicyDocumentError::MissingSourceLists(Venue::Base));
    assert_eq!(err.message(), "source-precedence: missing source preference lists for base");
}

#[test]
fn integrity_is_the_hash_chain_over_its_inputs() {
    let integrity =
        build_integrity("signer-1", "v9", ReceiptStatus::NON_PROVABLE, "0xc", "0xe", "0xp");
    assert_eq!(
        integrity.schema_hash,
        hash_str("{\"schema\":\"zkreceipt.schema.json\",\"version\":\"v9\"}")
    );
    let receipt_hash = hash_str(
        "{\"claim_hash\":\"0xc\",\"evidence_root\":\"0xe\",\"proof_hash\":\"0xp\",\"status\":\"NON_PROVABLE\"}",
    );
    assert_eq!(integrity.receipt_hash, receipt_hash);
    assert_eq!(integrity.signer, "signer-1");
    assert_eq!(
        integrity.signature,
        hash_str(&format!("{{\"receipt_hash\":\"{}\",\"signer\":\"signer-1\"}}", receipt_hash))
    );
}

#[test]
fn integrity_is_reproducible_and_binds_every_input() {
    let base = build_integrity("s", "v", ReceiptStatus::PENDING, "0xc", "0xe", "0xp");
    let again = build_integrity("s", "v", ReceiptStatus::PENDING, "0xc", "0xe", "0xp");
    assert_eq!(base.schema_hash, again.schema_hash);
    assert_eq!(base.receipt_hash, again.receipt_hash);
    assert_eq!(base.signature, again.signature);
    let other = build_integrity("s", "v", ReceiptStatus::PROVED, "0xc", "0xe", "0xp");
    assert_ne!(base.receipt_hash, other.receipt_hash);
    let other = build_integrity("s", "v", ReceiptStatus::PENDING, "0xd", "0xe", "0xp");
    assert_ne!(base.receipt_hash, other.receipt_hash);
    let other = build_integrity("s", "v", ReceiptStatus::PENDING, "0xc", "0xf", "0xp");
    assert_ne!(base.receipt_hash, other.receipt_hash);
    let other = build_integrity("s", "v", ReceiptStatus::PENDING, "0xc", "0xe", "0xq");
    assert_ne!(base.receipt_hash, other.receipt_hash);
    let other = build_integrity("t", "v", ReceiptStatus::PENDING, "0xc", "0xe", "0xp");
    assert_eq!(base.receipt_hash, other.receipt_hash);
    assert_ne!(base.signature, other.signature);
    let other = build_integrity("s", "w", ReceiptStatus::PENDING, "0xc", "0xe", "0xp");
    assert_ne!(base.schema_hash, other.schema_hash);
}

#[test]
fn no_proof_metadata_is_the_none_placeholder() {
    let proof = no_proof_metadata();
    assert_eq!(proof.backend, ProofBackend::NONE);
    assert_eq!(proof.circuit_id, "none");
    assert_eq!(proof.circuit_version, "none");
    assert_eq!(proof.verifier_key_id, "none");
    assert_eq!(proof.verifier_key_hash, ZERO_HASH);
    assert_eq!(proof.public_inputs_hash, ZERO_HASH);
    assert_eq!(proof.public_inputs_hash, format!("0x{}", "0".repeat(64)));
    assert_eq!(proof.verification_mode, VerificationMode::OFFCHAIN);
    assert_eq!(proof.proof_artifact_ref, None);
    assert_eq!(proof.anchored_root_ref, None);
}

#[test]
fn sp1_prover_records_the_hash_of_its_inputs() {
    let inputs = public_inputs("0xc", "0xe", Venue::Polymarket, ClaimType::TRADE_EXECUTED);
    assert_eq!(
        inputs.encode(),
        "{\"claim_hash\":\"0xc\",\"claim_type\":\"TRADE_EXECUTED\",\"evidence_root\":\"0xe\",\"venue\":\"polymarket\"}"
    );
    let proof = Sp1MvpProver.prove(&inputs).expect("proves");
    assert_eq!(Sp1MvpProver.backend_name(), ProofBackend::SP1);
    assert_eq!(proof.backend, ProofBackend::SP1);
    assert_eq!(proof.circuit_id, "trade-receipt-sp1");
    assert_eq!(proof.circuit_version, "v0.1.0");
    assert_eq!(proof.verifier_key_id, "sp1-vk-001");
    assert_eq!(
        proof.verifier_key_hash,
        hash_str("{\"backend\":\"SP1\",\"verifier_key\":\"001\"}")
    );
    assert_eq!(proof.public_inputs_hash, hash_json(&inputs));
    assert_eq!(proof.verification_mode, VerificationMode::OFFCHAIN);
    assert_eq!(
        proof.proof_artifact_ref,
        Some(format!("boundless://sp1/{}", hash_json(&inputs)))
    );
    assert_eq!(proof.anchored_root_ref, None);
}

#[test]
fn pending_receipt_has_placeholder_claim_and_proof() {
    let mut req = request();
    req.execution_ref = Some("exec-1".to_string());
    let receipt = pending_receipt(
        &req,
        &policy(),
        "signer-1",
        "v9",
        "id-1".to_string(),
        "2024-01-01T00:00:00.000Z".to_string(),
    );
    assert_eq!(receipt.receipt_id, "id-1");
    assert_eq!(receipt.version, "v9");
    assert_eq!(receipt.status, ReceiptStatus::PENDING);
    assert_eq!(
        receipt.claim.claim_hash,
        hash_str(
            "{\"account_ref\":\"acct-1\",\"claim_type\":\"ORDER_PLACED\",\"execution_ref\":\"exec-1\",\"order_ref\":\"order-1\",\"venue\":\"base\"}"
        )
    );
    assert_eq!(receipt.subject.execution_ref, Some("exec-1".to_string()));
    assert_eq!(receipt.timing.created_at, "2024-01-01T00:00:00.000Z");
    assert_eq!(receipt.timing.updated_at, "2024-01-01T00:00:00.000Z");
    let expected = build_integrity(
        "signer-1",
        "v9",
        ReceiptStatus::PENDING,
        &receipt.claim.claim_hash,
        &hash_str("{\"empty\":true}"),
        ZERO_HASH,
    );
    assert_eq!(receipt.integrity.receipt_hash, expected.receipt_hash);
    assert_eq!(receipt.integrity.signature, expected.signature);
    assert_eq!(receipt.integrity.schema_hash, expected.schema_hash);
}

#[test]
fn mark_non_provable_keeps_claim_and_evidence_and_drops_the_proof() {
    let before = pending();
    let marked = mark_non_provable_at(
        pending(),
        NonProvableReason::SOURCE_UNAVAILABLE,
        "venue is down".to_string(),
        "signer-1",
        "v9",
        "2024-02-02T00:00:00.000Z".to_string(),
    );
    assert_eq!(marked.status, ReceiptStatus::NON_PROVABLE);
    let why = marked.non_provable.as_ref().expect("non provable present");
    assert_eq!(why.reason_code, NonProvableReason::SOURCE_UNAVAILABLE);
    assert_eq!(why.details, "venue is down");
    assert_eq!(marked.receipt_id, before.receipt_id);
    assert_eq!(marked.claim.claim_hash, before.claim.claim_hash);
    assert_eq!(marked.claim.statement, before.claim.statement);
    assert_eq!(marked.provenance.evidence_root, before.provenance.evidence_root);
    assert_eq!(marked.timing.created_at, "2024-01-01T00:00:00.000Z");
    assert_eq!(marked.timing.updated_at, "2024-02-02T00:00:00.000Z");
    assert_eq!(marked.proof.backend, ProofBackend::NONE);
    let expected = build_integrity(
        "signer-1",
        "v9",
        ReceiptStatus::NON_PROVABLE,
        &before.claim.claim_hash,
        &before.provenance.evidence_root,
        ZERO_HASH,
    );
    assert_eq!(marked.integrity.receipt_hash, expected.receipt_hash);
    assert_ne!(marked.integrity.receipt_hash, before.integrity.receipt_hash);
    let stamped = mark_non_provable(
        pending(),
        NonProvableReason::PROOF_FAILURE,
        "d".to_string(),
        "signer-1",
        "v9",
    );
    assert_eq!(stamped.integrity.receipt_hash, expected.receipt_hash);
    assert_eq!(stamped.status, ReceiptStatus::NON_PROVABLE);
    assert!(!stamped.timing.updated_at.is_empty());
}

#[test]
fn build_proved_receipt_folds_statement_evidence_and_proof_in() {
    let mut bundle = good_bundle();
    bundle.finality_observed_at = Some("2024-03-03T00:00:00.000Z".to_string());
    let root = bundle.evidence_root();
    let inputs = public_inputs("0xclaim", &root, Venue::Base, ClaimType::ORDER_PLACED);
    let proof = Sp1MvpProver.prove(&inputs).expect("proves");
    let proved = build_proved_receipt_at(
        pending(),
        "0xclaim".to_string(),
        "the statement".to_string(),
        bundle.clone(),
        proof.clone(),
        "signer-1",
        "v9",
        "2024-02-02T00:00:00.000Z".to_string(),
    );
    assert_eq!(proved.status, ReceiptStatus::PROVED);
    assert_eq!(proved.claim.statement, "the statement");
    assert_eq!(proved.claim.claim_hash, "0xclaim");
    assert_eq!(proved.provenance.evidence_root, root);
    assert_eq!(proved.provenance.evidence_items.len(), 2);
    assert_eq!(proved.timing.created_at, "2024-01-01T00:00:00.000Z");
    assert_eq!(proved.timing.updated_at, "2024-02-02T00:00:00.000Z");
    assert_eq!(proved.timing.execution_observed_at, Some("2024-02-02T00:00:00.000Z".to_string()));
    assert_eq!(proved.timing.finality_observed_at, Some("2024-03-03T00:00:00.000Z".to_string()));
    assert_eq!(proved.proof.public_inputs_hash, proof.public_inputs_hash);
    assert!(proved.non_provable.is_none());
    let expected = build_integrity(
        "signer-1",
        "v9",
        ReceiptStatus::PROVED,
        "0xclaim",
        &root,
        &proof.public_inputs_hash,
    );
    assert_eq!(proved.integrity.receipt_hash, expected.receipt_hash);
    assert!(OffchainVerifier.verify(&proved));
    let stamped = build_proved_receipt(
        pending(),
        "0xclaim".to_string(),
        "the statement".to_string(),
        bundle,
        proof,
        "signer-1",
        "v9",
    );
    assert_eq!(stamped.integrity.receipt_hash, expected.receipt_hash);
    assert_eq!(stamped.timing.execution_observed_at, Some(stamped.timing.updated_at.clone()));
}

#[test]
fn verify_rejects_what_is_not_proved_by_a_real_backend_over_its_own_inputs() {
    let bundle = good_bundle();
    let root = bundle.evidence_root();
    let inputs = public_inputs("0xclaim", &root, Venue::Base, ClaimType::ORDER_PLACED);
    let proof = Sp1MvpProver.prove(&inputs).expect("proves");
    let proved = build_proved_receipt_at(
        pending(),
        "0xclaim".to_string(),
        "s".to_string(),
        bundle,
        proof,
        "signer-1",
        "v9",
        "t".to_string(),
    );
    let verifier = OffchainVerifier::default();
    assert!(verifier.verify(&proved));
    assert!(verifier.verify(&proved));
    assert!(!verifier.verify(&pending()));
    for status in
        [ReceiptStatus::PENDING, ReceiptStatus::NON_PROVABLE, ReceiptStatus::INVALIDATED]
    {
        let mut other = proved.clone();
        other.status = status;
        assert!(!verifier.verify(&other));
    }
    let mut none = proved.clone();
    none.proof.backend = ProofBackend::NONE;
    assert!(!verifier.verify(&none));
    let mut pico = proved.clone();
    pico.proof.backend = ProofBackend::PICO;
    assert!(verifier.verify(&pico));
    let mut other = proved.clone();
    other.claim.claim_hash = "0xother".to_string();
    assert!(!verifier.verify(&other));
    let mut other = proved.clone();
    other.provenance.evidence_root = "0xother".to_string();
    assert!(!verifier.verify(&other));
    let mut other = proved.clone();
    other.subject.venue = Venue::Solana;
    assert!(!verifier.verify(&other));
    let mut other = proved.clone();
    other.claim.claim_type = ClaimType::TRADE_EXECUTED;
    assert!(!verifier.verify(&other));
    let mut other = proved.clone();
    other.proof.public_inputs_hash = ZERO_HASH.to_string();
    assert!(!verifier.verify(&other));
}

#[test]
fn default_statement_for_a_placed_order() {
    assert_eq!(
        default_statement(&request(), &ack()),
        "Order order-1 for account acct-1 was accepted on venue base at 2024-01-01T00:00:00.000Z."
    );
}

#[test]
fn default_statement_for_an_executed_trade() {
    let mut req = request();
    req.claim_type = ClaimType::TRADE_EXECUTED;
    req.venue = Venue::Hyperliquid;
    assert_eq!(
        default_statement(&req, &ack()),
        "Order order-1 for account acct-1 was executed on venue hyperliquid with execution ref UNKNOWN."
    );
    req.execution_ref = Some("exec-7".to_string());
    assert_eq!(
        default_statement(&req, &ack()),
        "Order order-1 for account acct-1 was executed on venue hyperliquid with execution ref exec-7."
    );
}

#[test]
fn canonical_names_of_the_enumerations() {
    assert_eq!(Venue::Hyperliquid.as_str(), "hyperliquid");
    assert_eq!(venue_slug(Venue::Base), "base");
    assert_eq!(venue_slug(Venue::Solana), "solana");
    assert_eq!(venue_slug(Venue::Polymarket), "polymarket");
    assert_eq!(venue_debug_name(Venue::Polymarket), "Polymarket");
    assert_eq!(format!("{:?}", Venue::Hyperliquid), venue_debug_name(Venue::Hyperliquid));
    assert_eq!(ClaimType::ORDER_PLACED.as_str(), "ORDER_PLACED");
    assert_eq!(ClaimType::TRADE_EXECUTED.as_str(), "TRADE_EXECUTED");
    assert_eq!(ReceiptStatus::PENDING.as_str(), "PENDING");
    assert_eq!(ReceiptStatus::PROVED.as_str(), "PROVED");
    assert_eq!(ReceiptStatus::NON_PROVABLE.as_str(), "NON_PROVABLE");
    assert_eq!(ReceiptStatus::INVALIDATED.as_str(), "INVALIDATED");
    assert_eq!(NonProvableReason::UNSUPPORTED_VENUE_CLAIM.as_str(), "UNSUPPORTED_VENUE_CLAIM");
    assert_eq!(NonProvableReason::FINALITY_TIMEOUT.as_str(), "FINALITY_TIMEOUT");
    assert_eq!(VerificationMode::OFFCHAIN_AND_ANCHORED.as_str(), "OFFCHAIN_AND_ANCHORED");
    assert_eq!(VerificationMode::ONCHAIN_ANCHORED.as_str(), "ONCHAIN_ANCHORED");
    assert_eq!(ProofBackend::PICO.as_str(), "PICO");
    assert_eq!(ProofBackend::NONE.as_str(), "NONE");
    assert_eq!(acceptance_source_kind(Venue::Hyperliquid), "venue_signed_attestation");
    assert_eq!(acceptance_source_kind(Venue::Solana), "canonical_chain_state");
}

#[test]
fn parsing_reads_only_the_canonical_names() {
    assert_eq!(parse_venue(Some("hyperliquid")), Some(Venue::Hyperliquid));
    assert_eq!(parse_venue(Some("base")), Some(Venue::Base));
    assert_eq!(parse_venue(Some("solana")), Some(Venue::Solana));
    assert_eq!(parse_venue(Some("polymarket")), Some(Venue::Polymarket));
    assert_eq!(parse_venue(Some("Base")), None);
    assert_eq!(parse_venue(Some("")), None);
    assert_eq!(parse_venue(None), None);
    assert_eq!(parse_claim_type(Some("ORDER_PLACED")), Some(ClaimType::ORDER_PLACED));
    assert_eq!(parse_claim_type(Some("TRADE_EXECUTED")), Some(ClaimType::TRADE_EXECUTED));
    assert_eq!(parse_claim_type(Some("order_placed")), None);
    assert_eq!(parse_claim_type(None), None);
}

#[test]
fn clock_and_identifier_have_their_documented_shapes() {
    let now = now_iso();
    assert_eq!(now.len(), 24);
    assert!(now.ends_with('Z'));
    assert_eq!(&now[10..11], "T");
    let id = new_receipt_id();
    assert_eq!(id.len(), 36);
    assert_ne!(id, new_receipt_id());
}

#[test]
fn synthetic_acknowledgement_is_derived_from_the_order() {
    let adapter = SyntheticVenueAdapter::new(Venue::Solana);
    assert_eq!(adapter.venue(), Venue::Solana);
    let given = adapter.acknowledge_at(&request(), "2024-01-01T00:00:00.000Z".to_string());
    assert!(given.accepted);
    assert_eq!(given.venue_order_ref, "order-1");
    assert_eq!(given.acceptance_artifact_ref, "solana://ack/order-1");
    assert_eq!(
        given.acceptance_artifact_hash,
        hash_str(
            "{\"accepted_at\":\"2024-01-01T00:00:00.000Z\",\"kind\":\"acknowledgement\",\"order_ref\":\"order-1\",\"venue\":\"solana\"}"
        )
    );
    assert_eq!(given.accepted_at, "2024-01-01T00:00:00.000Z");
    let live = adapter.acknowledge(&request()).expect("acknowledges");
    assert_eq!(live.acceptance_artifact_ref, "solana://ack/order-1");
}

#[test]
fn synthetic_evidence_for_a_placed_order() {
    let adapter = SyntheticVenueAdapter::new(Venue::Hyperliquid);
    let bundle = adapter.collect_evidence_at(
        &request(),
        &ack(),
        "t-shadow".to_string(),
        "t-exec".to_string(),
        "t-final".to_string(),
    );
    assert_eq!(bundle.items.len(), 2);
    assert_eq!(bundle.items[0].source_id, "hyperliquid-primary");
    assert_eq!(bundle.items[0].source_kind, "venue_signed_attestation");
    assert_eq!(bundle.items[0].artifact_ref, "base://ack/order-1");
    assert_eq!(bundle.items[0].artifact_hash, "0xaa");
    assert_eq!(bundle.items[0].observed_at, "2024-01-01T00:00:00.000Z");
    assert_eq!(
        bundle.items[0].tags,
        strings(&["order_identity", "submission_timestamp", "venue_acceptance_artifact"])
    );
    assert_eq!(bundle.items[1].source_id, "hyperliquid-api");
    assert_eq!(bundle.items[1].source_kind, "venue_api_unsigned");
    assert_eq!(bundle.items[1].artifact_ref, "hyperliquid://api/order/order-1");
    assert_eq!(
        bundle.items[1].artifact_hash,
        hash_str("{\"api_order_ref\":\"order-1\",\"venue\":\"hyperliquid\"}")
    );
    assert_eq!(bundle.items[1].observed_at, "t-shadow");
    assert_eq!(bundle.items[1].tags, strings(&["order_identity", "submission_timestamp"]));
    assert_eq!(
        bundle.observed_tags,
        strings(&["order_identity", "submission_timestamp", "venue_acceptance_artifact"])
    );
    assert!(bundle.conflicts.is_empty());
    assert_eq!(bundle.finality_observed_at, None);
}

#[test]
fn synthetic_evidence_for_an_executed_trade() {
    let adapter = SyntheticVenueAdapter::new(Venue::Base);
    let mut req = request();
    req.claim_type = ClaimType::TRADE_EXECUTED;
    req.execution_ref = Some("exec-1".to_string());
    let bundle = adapter.collect_evidence_at(
        &req,
        &ack(),
        "t-shadow".to_string(),
        "t-exec".to_string(),
        "t-final".to_string(),
    );
    assert_eq!(bundle.items.len(), 3);
    assert_eq!(bundle.items[2].source_id, "base-execution");
    assert_eq!(bundle.items[2].source_kind, "canonical_chain_state");
    assert_eq!(bundle.items[2].artifact_ref, "base://execution/exec-1");
    assert_eq!(
        bundle.items[2].artifact_hash,
        hash_str("{\"execution_ref\":\"exec-1\",\"order_ref\":\"order-1\",\"venue\":\"base\"}")
    );
    assert_eq!(bundle.items[2].observed_at, "t-exec");
    assert_eq!(
        bundle.items[2].tags,
        strings(&["execution_identity", "execution_timestamp", "execution_artifact"])
    );
    assert_eq!(bundle.observed_tags.len(), 6);
    assert_eq!(bundle.finality_observed_at, Some("t-final".to_string()));
    assert!(policy().evaluate(Venue::Base, ClaimType::TRADE_EXECUTED, &bundle).ok);
    req.execution_ref = None;
    let bundle = adapter.collect_evidence(&req, &ack()).expect("collects");
    assert_eq!(bundle.items.len(), 2);
    assert_eq!(bundle.finality_observed_at, None);
    assert_eq!(
        policy().evaluate(Venue::Base, ClaimType::TRADE_EXECUTED, &bundle).reason,
        Some(NonProvableReason::EVIDENCE_MISSING)
    );
}

#[test]
fn synthetic_payload_steers_conflicts_and_withheld_tags() {
    let adapter = SyntheticVenueAdapter::new(Venue::Base);
    let mut req = request();
    req.payload = JsonObject::new()
        .with(JsonField { name: "simulate_conflict".to_string(), value: JsonValue::Bool(true) })
        .with(JsonField {
            name: "missing_tags".to_string(),
            value: JsonValue::TextList(strings(&["order_identity", "unheard_of"])),
        });
    let bundle = adapter.collect_evidence(&req, &ack()).expect("collects");
    assert_eq!(bundle.conflicts, strings(&["source_value_mismatch"]));
    assert_eq!(
        bundle.observed_tags,
        strings(&["submission_timestamp", "venue_acceptance_artifact"])
    );
    req.payload = JsonObject::new()
        .with(JsonField { name: "simulate_conflict".to_string(), value: JsonValue::Bool(false) })
        .with(JsonField::text("missing_tags", "order_identity"));
    let bundle = adapter.collect_evidence(&req, &ack()).expect("collects");
    assert!(bundle.conflicts.is_empty());
    assert_eq!(bundle.observed_tags.len(), 3);
    req.payload = JsonObject::new().with(JsonField::text("simulate_conflict", "true"));
    let bundle = adapter.collect_evidence(&req, &ack()).expect("collects");
    assert!(bundle.conflicts.is_empty());
}

#[test]
fn pipeline_steps_through_its_stages() {
    let policy = policy();
    let verifier = OffchainVerifier;
    let req = request();
    let state =
        PipelineState::begin(pending(), true, Venue::Base, "signer-1", "v9", "t0".to_string());
    assert!(matches!(state, PipelineState::AwaitingAck { .. }));
    assert!(!state.is_finished());
    let state = state.step(
        PipelineEvent::Acknowledged(Ok(ack())),
        &req,
        &policy,
        &verifier,
        "signer-1",
        "v9",
        "t1".to_string(),
    );
    assert!(matches!(state, PipelineState::AwaitingEvidence { .. }));
    let state = state.step(
        PipelineEvent::EvidenceCollected(Ok(good_bundle())),
        &req,
        &policy,
        &verifier,
        "signer-1",
        "v9",
        "t2".to_string(),
    );
    assert!(matches!(state, PipelineState::AwaitingStatement { .. }));
    let state = state.step(
        PipelineEvent::StatementBuilt(Ok("it happened".to_string())),
        &req,
        &policy,
        &verifier,
        "signer-1",
        "v9",
        "t3".to_string(),
    );
    let inputs = match &state {
        PipelineState::AwaitingProof { claim_hash, statement, public_inputs, .. } => {
            assert_eq!(statement, "it happened");
            assert_eq!(
                claim_hash,
                &hash_str(
                    "{\"claim_type\":\"ORDER_PLACED\",\"execution_ref\":null,\"order_ref\":\"order-1\",\"statement\":\"it happened\"}"
                )
            );
            assert_eq!(
                public_inputs.encode(),
                format!(
                    "{{\"claim_hash\":\"{}\",\"claim_type\":\"ORDER_PLACED\",\"evidence_root\":\"{}\",\"venue\":\"base\"}}",
                    claim_hash,
                    good_bundle().evidence_root()
                )
            );
            public_inputs.clone()
        }
        other => panic!("unexpected state {:?}", other),
    };
    let state = state.step(
        PipelineEvent::ProofMade(Sp1MvpProver.prove(&inputs)),
        &req,
        &policy,
        &verifier,
        "signer-1",
        "v9",
        "t4".to_string(),
    );
    assert!(state.is_finished());
    match state {
        PipelineState::Finished { receipt } => {
            assert_eq!(receipt.status, ReceiptStatus::PROVED);
            assert_eq!(receipt.timing.updated_at, "t4");
            assert_eq!(receipt.timing.execution_observed_at, Some("t4".to_string()));
            assert_eq!(receipt.claim.statement, "it happened");
        }
        other => panic!("unexpected state {:?}", other),
    }
}

#[test]
fn pipeline_ignores_an_event_that_it_did_not_wait_for() {
    let state =
        PipelineState::begin(pending(), true, Venue::Base, "signer-1", "v9", "t0".to_string());
    let state = state.step(
        PipelineEvent::StatementBuilt(Ok("early".to_string())),
        &request(),
        &policy(),
        &OffchainVerifier,
        "signer-1",
        "v9",
        "t1".to_string(),
    );
    assert!(matches!(state, PipelineState::AwaitingAck { .. }));
    let done =
        PipelineState::begin(pending(), false, Venue::Base, "signer-1", "v9", "t0".to_string());
    assert!(done.is_finished());
    let done = done.step(
        PipelineEvent::Acknowledged(Ok(ack())),
        &request(),
        &policy(),
        &OffchainVerifier,
        "signer-1",
        "v9",
        "t1".to_string(),
    );
    match done {
        PipelineState::Finished { receipt } => {
            assert_eq!(receipt.timing.updated_at, "t0");
            let why = receipt.non_provable.expect("non provable present");
            assert_eq!(why.reason_code, NonProvableReason::UNSUPPORTED_VENUE_CLAIM);
            assert_eq!(why.details, "No adapter registered for venue Base");
        }
        other => panic!("unexpected state {:?}", other),
    }
}

#[test]
fn pipeline_ends_on_each_failure_with_its_reason() {
    let policy = policy();
    let step = |state: PipelineState, event: PipelineEvent| {
        state.step(event, &request(), &policy, &OffchainVerifier, "signer-1", "v9", "t".to_string())
    };
    let reason = |state: PipelineState| match state {
        PipelineState::Finished { receipt } => {
            let why = receipt.non_provable.expect("non provable present");
            (why.reason_code, why.details)
        }
        other => panic!("unexpected state {:?}", other),
    };
    let start = || PipelineState::AwaitingAck { receipt: pending() };
    let ended = step(start(), PipelineEvent::Acknowledged(Err("no ack".to_string())));
    assert_eq!(reason(ended), (NonProvableReason::SOURCE_UNAVAILABLE, "no ack".to_string()));
    let acked = || step(start(), PipelineEvent::Acknowledged(Ok(ack())));
    let ended = step(acked(), PipelineEvent::EvidenceCollected(Err("no evidence".to_string())));
    assert_eq!(reason(ended), (NonProvableReason::SOURCE_UNAVAILABLE, "no evidence".to_string()));
    let mut conflicted = good_bundle();
    conflicted.conflicts = strings(&["c1"]);
    let ended = step(acked(), PipelineEvent::EvidenceCollected(Ok(conflicted)));
    assert_eq!(
        reason(ended),
        (
            NonProvableReason::EVIDENCE_CONFLICT,
            "Conflicting evidence entries detected: c1".to_string()
        )
    );
    let collected = || step(acked(), PipelineEvent::EvidenceCollected(Ok(good_bundle())));
    let ended = step(collected(), PipelineEvent::StatementBuilt(Err("no words".to_string())));
    assert_eq!(reason(ended), (NonProvableReason::POLICY_VIOLATION, "no words".to_string()));
    let stated = || step(collected(), PipelineEvent::StatementBuilt(Ok("s".to_string())));
    let ended = step(stated(), PipelineEvent::ProofMade(Err("no proof".to_string())));
    assert_eq!(reason(ended), (NonProvableReason::PROOF_FAILURE, "no proof".to_string()));
    let ended = step(stated(), PipelineEvent::ProofMade(Ok(no_proof_metadata())));
    assert_eq!(
        reason(ended),
        (
            NonProvableReason::PROOF_FAILURE,
            "Offchain verification failed for produced proof metadata.".to_string()
        )
    );
}

#[test]
fn process_receipt_without_an_adapter_rejects_the_venue() {
    let none: Option<&SyntheticVenueAdapter> = None;
    let done = process_receipt_task(
        pending(),
        none,
        &policy(),
        &Sp1MvpProver,
        &OffchainVerifier,
        "signer-1",
        "v9",
        &request(),
    );
    assert_eq!(done.status, ReceiptStatus::NON_PROVABLE);
    let why = done.non_provable.as_ref().expect("non provable present");
    assert_eq!(why.reason_code, NonProvableReason::UNSUPPORTED_VENUE_CLAIM);
    assert_eq!(why.details, "No adapter registered for venue Base");
    let rejected = reject_unsupported_venue(
        pending(),
        Venue::Hyperliquid,
        "signer-1",
        "v9",
        "t".to_string(),
    );
    assert_eq!(
        rejected.non_provable.expect("non provable present").details,
        "No adapter registered for venue Hyperliquid"
    );
    let adapter = SyntheticVenueAdapter::new(Venue::Base);
    let done = process_receipt_task(
        pending(),
        Some(&adapter),
        &policy(),
        &Sp1MvpProver,
        &OffchainVerifier,
        "signer-1",
        "v9",
        &request(),
    );
    assert_eq!(done.status, ReceiptStatus::PROVED);
    assert_eq!(done.receipt_id, "id-1");
}

#[test]
fn a_copy_of_the_policy_judges_alike() {
    let engine = policy();
    let copy = engine.clone();
    assert_eq!(copy.source_precedence_version(), engine.source_precedence_version());
    for claim_type in [ClaimType::ORDER_PLACED, ClaimType::TRADE_EXECUTED] {
        assert_eq!(
            copy.required_tags_for_claim(claim_type),
            engine.required_tags_for_claim(claim_type)
        );
        for venue in [Venue::Hyperliquid, Venue::Base, Venue::Solana, Venue::Polymarket] {
            assert_eq!(
                copy.preferred_sources(venue, claim_type),
                engine.preferred_sources(venue, claim_type)
            );
            let a = copy.evaluate(venue, claim_type, &good_bundle());
            let b = engine.evaluate(venue, claim_type, &good_bundle());
            assert_eq!((a.ok, a.reason, a.details), (b.ok, b.reason, b.details));
        }
    }
}
