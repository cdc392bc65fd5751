use zkputer::json::{JsonField, JsonObject, JsonValue};
use zkputer::models::{ClaimType, Venue};
use zkputer::tools::{error_code, parse_tool_call, ToolCall, ToolError};

fn claim_arguments() -> JsonObject {
    JsonObject::new()
        .with(JsonField::text("venue", "solana"))
        .with(JsonField::text("claim_type", "TRADE_EXECUTED"))
        .with(JsonField::text("account_ref", "acct-2"))
        .with(JsonField::text("order_ref", "order-2"))
}

fn without(arguments: JsonObject, name: &str) -> JsonObject {
    JsonObject { fields: arguments.fields.into_iter().filter(|f| f.name != name).collect() }
}

#[test]
fn verify_claim_reads_its_arguments_with_defaults() {
    let call = parse_tool_call(Some("zkputer_verify_claim"), &claim_arguments()).expect("reads");
    match call {
        ToolCall::VerifyClaim { request, wait_for_result, wait_timeout_ms } => {
            assert_eq!(request.venue, Venue::Solana);
            assert_eq!(request.claim_type, ClaimType::TRADE_EXECUTED);
            assert_eq!(request.account_ref, "acct-2");
            assert_eq!(request.order_ref, "order-2");
            assert_eq!(request.execution_ref, None);
            assert!(request.payload.fields.is_empty());
            assert!(wait_for_result);
            assert_eq!(wait_timeout_ms, 3000);
        }
        other => panic!("unexpected call {:?}", other),
    }
}

#[test]
fn verify_claim_reads_its_optional_arguments() {
    let arguments = claim_arguments()
        .with(JsonField::text("execution_ref", "exec-2"))
        .with(JsonField { name: "wait_for_result".to_string(), value: JsonValue::Bool(false) })
        .with(JsonField { name: "wait_timeout_ms".to_string(), value: JsonValue::Number(25) });
    match parse_tool_call(Some("zkputer_verify_claim"), &arguments).expect("reads") {
        ToolCall::VerifyClaim { request, wait_for_result, wait_timeout_ms } => {
            assert_eq!(request.execution_ref, Some("exec-2".to_string()));
            assert!(!wait_for_result);
            assert_eq!(wait_timeout_ms, 25);
        }
        other => panic!("unexpected call {:?}", other),
    }
    let arguments = claim_arguments()
        .with(JsonField { name: "execution_ref".to_string(), value: JsonValue::Number(7) })
        .with(JsonField::text("wait_for_result", "no"))
        .with(JsonField::text("wait_timeout_ms", "25"));
    match parse_tool_call(Some("zkputer_verify_claim"), &arguments).expect("reads") {
        ToolCall::VerifyClaim { request, wait_for_result, wait_timeout_ms } => {
            assert_eq!(request.execution_ref, None);
            assert!(wait_for_result);
            assert_eq!(wait_timeout_ms, 3000);
        }
        other => panic!("unexpected call {:?}", other),
    }
}

#[test]
fn verify_claim_names_the_first_fault() {
    let fault = |arguments: JsonObject| {
        parse_tool_call(Some("zkputer_verify_claim"), &arguments).expect_err("fault")
    };
    assert_eq!(fault(JsonObject::new()), ToolError::InvalidVenue);
    assert_eq!(fault(without(claim_arguments(), "venue")), ToolError::InvalidVenue);
    let mut arguments = claim_arguments();
    arguments.fields[0] = JsonField::text("venue", "kraken");
    assert_eq!(fault(arguments), ToolError::InvalidVenue);
    assert_eq!(fault(without(claim_arguments(), "claim_type")), ToolError::InvalidClaimType);
    let mut arguments = claim_arguments();
    arguments.fields[1] = JsonField { name: "claim_type".to_string(), value: JsonValue::Bool(true) };
    assert_eq!(fault(arguments), ToolError::InvalidClaimType);
    assert_eq!(fault(without(claim_arguments(), "account_ref")), ToolError::MissingAccountRef);
    assert_eq!(fault(without(claim_arguments(), "order_ref")), ToolError::MissingOrderRef);
    assert_eq!(
        fault(without(without(claim_arguments(), "order_ref"), "account_ref")),
        ToolError::MissingAccountRef
    );
}

#[test]
fn get_receipt_needs_an_identifier() {
    let arguments = JsonObject::new().with(JsonField::text("receipt_id", "id-1"));
    match parse_tool_call(Some("zkputer_get_receipt"), &arguments).expect("reads") {
        ToolCall::GetReceipt { receipt_id } => assert_eq!(receipt_id, "id-1"),
        other => panic!("unexpected call {:?}", other),
    }
    assert_eq!(
        parse_tool_call(Some("zkputer_get_receipt"), &JsonObject::new()).expect_err("fault"),
        ToolError::MissingReceiptId
    );
}

#[test]
fn other_names_are_unknown_tools_and_no_name_is_refused() {
    match parse_tool_call(Some("zkputer_delete"), &claim_arguments()).expect("reads") {
        ToolCall::UnknownTool { name } => assert_eq!(name, "zkputer_delete"),
        other => panic!("unexpected call {:?}", other),
    }
    assert_eq!(
        parse_tool_call(None, &claim_arguments()).expect_err("fault"),
        ToolError::MissingName
    );
}

#[test]
fn tool_errors_say_what_is_wrong() {
    assert_eq!(ToolError::MissingName.message(), "tools/call missing name");
    assert_eq!(ToolError::InvalidVenue.message(), "invalid venue");
    assert_eq!(ToolError::InvalidClaimType.message(), "invalid claim_type");
    assert_eq!(ToolError::MissingAccountRef.message(), "account_ref is required");
    assert_eq!(ToolError::MissingOrderRef.message(), "order_ref is required");
    assert_eq!(ToolError::MissingReceiptId.message(), "receipt_id is required");
}

#[test]
fn error_code_tells_tool_failures_from_unknown_methods() {
    assert_eq!(error_code("tools/call"), -32000);
    assert_eq!(error_code("tools/list"), -32601);
    assert_eq!(error_code("nope"), -32601);
    assert_eq!(error_code(""), -32601);
}
