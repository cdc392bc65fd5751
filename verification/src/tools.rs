//! The tool surface of the engine: reading a tool call and its arguments, and
//! the error code that a failed method carries.

use crate::json::{lookup, JsonFieldView, JsonObject, JsonValue, JsonValueView};
use crate::models::{
    claim_type_text, parse_claim_type, parse_venue, venue_text, ClaimType, ProofRequest,
    ProofRequestView, Venue,
};
use crate::text::str_eq;
use vstd::prelude::*;
use vstd::string::*;

verus! {

/// What a caller asks of the engine.
#[derive(Debug)]
pub enum ToolCall {
    /// Submit a claim, and wait for its receipt or not.
    VerifyClaim { request: ProofRequest, wait_for_result: bool, wait_timeout_ms: u64 },
    /// Fetch the receipt stored under an identifier.
    GetReceipt { receipt_id: String },
    /// A tool that the engine does not offer.
    UnknownTool { name: String },
}

/// What a [`ToolCall`] holds.
pub enum ToolCallView {
    VerifyClaim { request: ProofRequestView, wait_for_result: bool, wait_timeout_ms: nat },
    GetReceipt { receipt_id: Seq<char> },
    UnknownTool { name: Seq<char> },
}

impl View for ToolCall {
    type V = ToolCallView;

    open spec fn view(&self) -> ToolCallView {
        match self {
            ToolCall::VerifyClaim {
                request,
                wait_for_result,
                wait_timeout_ms,
            } => ToolCallView::VerifyClaim {
                request: request@,
                wait_for_result: *wait_for_result,
                wait_timeout_ms: *wait_timeout_ms as nat,
            },
            ToolCall::GetReceipt { receipt_id } => ToolCallView::GetReceipt {
                receipt_id: receipt_id@,
            },
            ToolCall::UnknownTool { name } => ToolCallView::UnknownTool { name: name@ },
        }
    }
}

/// Why a tool call could not be read.
#[derive(Debug, Clone, Copy, PartialEq, Eq, Structural)]
pub enum ToolError {
    MissingName,
    InvalidVenue,
    InvalidClaimType,
    MissingAccountRef,
    MissingOrderRef,
    MissingReceiptId,
}

/// What a [`ToolError`] says in words.
pub open spec fn tool_error_text(error: ToolError) -> Seq<char> {
    match error {
        ToolError::MissingName => "tools/call missing name"@,
        ToolError::InvalidVenue => "invalid venue"@,
        ToolError::InvalidClaimType => "invalid claim_type"@,
        ToolError::MissingAccountRef => "account_ref is required"@,
        ToolError::MissingOrderRef => "order_ref is required"@,
        ToolError::MissingReceiptId => "receipt_id is required"@,
    }
}

impl ToolError {
    /// The error in words.
    pub fn message(&self) -> (text: &'static str)
        ensures
            text@ == tool_error_text(*self),
    {
        match self {
            ToolError::MissingName => "tools/call missing name",
            ToolError::InvalidVenue => "invalid venue",
            ToolError::InvalidClaimType => "invalid claim_type",
            ToolError::MissingAccountRef => "account_ref is required",
            ToolError::MissingOrderRef => "order_ref is required",
            ToolError::MissingReceiptId => "receipt_id is required",
        }
    }
}

/// The argument `name` where it holds a string.
pub open spec fn text_argument(arguments: Seq<JsonFieldView>, name: Seq<char>) -> Option<
    Seq<char>,
> {
    match lookup(arguments, name) {
        Some(JsonValueView::Text(text)) => Some(text),
        _ => None,
    }
}

/// The argument `name` where it holds a flag, and `otherwise` where it does
/// not.
pub open spec fn flag_argument(
    arguments: Seq<JsonFieldView>,
    name: Seq<char>,
    otherwise: bool,
) -> bool {
    match lookup(arguments, name) {
        Some(JsonValueView::Bool(flag)) => flag,
        _ => otherwise,
    }
}

/// The argument `name` where it holds a number, and `otherwise` where it does
/// not.
pub open spec fn number_argument(
    arguments: Seq<JsonFieldView>,
    name: Seq<char>,
    otherwise: nat,
) -> nat {
    match lookup(arguments, name) {
        Some(JsonValueView::Number(n)) => n,
        _ => otherwise,
    }
}

/// Whether a text is the slug of `venue`.
pub open spec fn is_venue(text: Option<Seq<char>>, venue: Venue) -> bool {
    text == Some(venue_text(venue))
}

/// Whether a text is the name of `claim_type`.
pub open spec fn is_claim_type(text: Option<Seq<char>>, claim_type: ClaimType) -> bool {
    text == Some(claim_type_text(claim_type))
}

/// Whether the arguments of a claim are complete for `venue` and `claim_type`:
/// they name both, and the account and the order.
pub open spec fn claim_arguments_for(
    arguments: Seq<JsonFieldView>,
    venue: Venue,
    claim_type: ClaimType,
) -> bool {
    &&& is_venue(text_argument(arguments, "venue"@), venue)
    &&& is_claim_type(text_argument(arguments, "claim_type"@), claim_type)
    &&& text_argument(arguments, "account_ref"@) is Some
    &&& text_argument(arguments, "order_ref"@) is Some
}

/// The call that complete arguments of a claim make. The payload is empty, the
/// caller waits unless told otherwise, and for three seconds unless told
/// otherwise.
pub open spec fn claim_call_of(
    arguments: Seq<JsonFieldView>,
    venue: Venue,
    claim_type: ClaimType,
) -> ToolCallView {
    ToolCallView::VerifyClaim {
        request: ProofRequestView {
            venue,
            claim_type,
            account_ref: text_argument(arguments, "account_ref"@)->0,
            order_ref: text_argument(arguments, "order_ref"@)->0,
            execution_ref: text_argument(arguments, "execution_ref"@),
            payload: Seq::empty(),
        },
        wait_for_result: flag_argument(arguments, "wait_for_result"@, true),
        wait_timeout_ms: number_argument(arguments, "wait_timeout_ms"@, 3000),
    }
}

/// What is wrong with the arguments of a claim, the first fault first: the
/// venue is not one, the claim type is not one, the account is missing, the
/// order is missing.
pub open spec fn claim_fault(arguments: Seq<JsonFieldView>) -> Option<ToolError> {
    if forall|venue: Venue| !is_venue(text_argument(arguments, "venue"@), venue) {
        Some(ToolError::InvalidVenue)
    } else if forall|claim_type: ClaimType|
        !is_claim_type(text_argument(arguments, "claim_type"@), claim_type) {
        Some(ToolError::InvalidClaimType)
    } else if text_argument(arguments, "account_ref"@) is None {
        Some(ToolError::MissingAccountRef)
    } else if text_argument(arguments, "order_ref"@) is None {
        Some(ToolError::MissingOrderRef)
    } else {
        None
    }
}

/// A copy of the argument `name` where it holds a string.
fn text_of(arguments: &JsonObject, name: &str) -> (text: Option<String>)
    ensures
        crate::text::opt_text(text) == text_argument(arguments@, name@),
{
    match arguments.get(name) {
        Some(JsonValue::Text(text)) => Some(text.clone()),
        _ => None,
    }
}

/// The view of an optional string slice.
pub open spec fn opt_str(value: Option<&str>) -> Option<Seq<char>> {
    match value {
        Some(text) => Some(text@),
        None => None,
    }
}

/// The string in an optional string, as a slice.
fn as_slice(value: &Option<String>) -> (slice: Option<&str>)
    ensures
        opt_str(slice) == crate::text::opt_text(*value),
{
    match value {
        Some(text) => Some(text.as_str()),
        None => None,
    }
}

/// Reads a tool call from the tool's name and its arguments.
///
/// Without a name the call is refused. `zkputer_verify_claim` needs a venue, a
/// claim type, an account and an order; `zkputer_get_receipt` needs a receipt
/// identifier. Any other name is a call of an unknown tool.
pub fn parse_tool_call(name: Option<&str>, arguments: &JsonObject) -> (call: Result<
    ToolCall,
    ToolError,
>)
    ensures
        name is None ==> call == Err::<ToolCall, ToolError>(ToolError::MissingName),
        opt_str(name) == Some("zkputer_verify_claim"@) ==> match call {
            Ok(parsed) => exists|venue: Venue, claim_type: ClaimType|
                claim_arguments_for(arguments@, venue, claim_type) && parsed@ == #[trigger] claim_call_of(
                    arguments@,
                    venue,
                    claim_type,
                ),
            Err(error) => claim_fault(arguments@) == Some(error),
        },
        opt_str(name) == Some("zkputer_get_receipt"@) ==> match call {
            Ok(parsed) => text_argument(arguments@, "receipt_id"@) matches Some(id) && parsed@ == (
            ToolCallView::GetReceipt { receipt_id: id }),
            Err(error) => error == ToolError::MissingReceiptId && text_argument(
                arguments@,
                "receipt_id"@,
            ) is None,
        },
        name is Some && opt_str(name) != Some("zkputer_verify_claim"@) && opt_str(name) != Some(
            "zkputer_get_receipt"@,
        ) ==> call is Ok && call->Ok_0@ == (ToolCallView::UnknownTool { name: name->0@ }),
{
    proof {
        reveal_strlit("zkputer_verify_claim");
        reveal_strlit("zkputer_get_receipt");
        assert("zkputer_verify_claim"@.len() != "zkputer_get_receipt"@.len());
    }
    let name = match name {
        Some(name) => name,
        None => {
            return Err(ToolError::MissingName);
        },
    };
    if str_eq(name, "zkputer_verify_claim") {
        let venue_text = text_of(arguments, "venue");
        let venue = match parse_venue(as_slice(&venue_text)) {
            Some(venue) => venue,
            None => {
                return Err(ToolError::InvalidVenue);
            },
        };
        let claim_text = text_of(arguments, "claim_type");
        let claim_type = match parse_claim_type(as_slice(&claim_text)) {
            Some(claim_type) => claim_type,
            None => {
                assert(is_venue(text_argument(arguments@, "venue"@), venue));
                return Err(ToolError::InvalidClaimType);
            },
        };
        proof {
            assert(is_venue(text_argument(arguments@, "venue"@), venue));
            assert(is_claim_type(text_argument(arguments@, "claim_type"@), claim_type));
        }
        let account_ref = match text_of(arguments, "account_ref") {
            Some(text) => text,
            None => {
                return Err(ToolError::MissingAccountRef);
            },
        };
        let order_ref = match text_of(arguments, "order_ref") {
            Some(text) => text,
            None => {
                return Err(ToolError::MissingOrderRef);
            },
        };
        let execution_ref = text_of(arguments, "execution_ref");
        let wait_for_result = match arguments.get("wait_for_result") {
            Some(JsonValue::Bool(flag)) => *flag,
            _ => true,
        };
        let wait_timeout_ms = match arguments.get("wait_timeout_ms") {
            Some(JsonValue::Number(n)) => *n,
            _ => 3000,
        };
        let call = ToolCall::VerifyClaim {
            request: ProofRequest {
                venue,
                claim_type,
                account_ref,
                order_ref,
                execution_ref,
                payload: JsonObject::new(),
            },
            wait_for_result,
            wait_timeout_ms,
        };
        assert(call@ == claim_call_of(arguments@, venue, claim_type));
        Ok(call)
    } else if str_eq(name, "zkputer_get_receipt") {
        match text_of(arguments, "receipt_id") {
            Some(receipt_id) => Ok(ToolCall::GetReceipt { receipt_id }),
            None => Err(ToolError::MissingReceiptId),
        }
    } else {
        Ok(ToolCall::UnknownTool { name: name.to_owned() })
    }
}

/// The error code of a method that failed: a failed tool call is a server
/// error, anything else is a method that was not found.
pub fn error_code(method: &str) -> (code: i64)
    ensures
        code == if method@ == "tools/call"@ {
            -32000int
        } else {
            -32601int
        },
{
    if str_eq(method, "tools/call") {
        -32000
    } else {
        -32601
    }
}

} // verus!
