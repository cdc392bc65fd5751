//! The adapter interface and the statement that every venue gives by default.

use crate::models::{
    venue_text, ClaimType, EvidenceBundle, ExecutionAck, ExecutionAckView, ProofRequest,
    ProofRequestView, Venue,
};
use vstd::prelude::*;
use vstd::string::*;

verus! {

/// The lowercase slug of a venue.
pub fn venue_slug(venue: Venue) -> (slug: &'static str)
    ensures
        slug@ == venue_text(venue),
{
    venue.as_str()
}

/// The execution reference as a statement names it: the reference itself, or
/// `UNKNOWN` where there is none.
pub open spec fn execution_ref_text(execution_ref: Option<Seq<char>>) -> Seq<char> {
    match execution_ref {
        Some(reference) => reference,
        None => "UNKNOWN"@,
    }
}

/// The default statement of a claim. For a placed order it says that the order
/// was accepted on the venue at the time of the acknowledgement; for any other
/// claim, that the order was executed on the venue under its execution
/// reference.
pub open spec fn default_statement_of(request: ProofRequestView, ack: ExecutionAckView) -> Seq<
    char,
> {
    if request.claim_type == ClaimType::ORDER_PLACED {
        "Order "@ + request.order_ref + " for account "@ + request.account_ref
            + " was accepted on venue "@ + venue_text(request.venue) + " at "@ + ack.accepted_at
            + "."@
    } else {
        "Order "@ + request.order_ref + " for account "@ + request.account_ref
            + " was executed on venue "@ + venue_text(request.venue) + " with execution ref "@
            + execution_ref_text(request.execution_ref) + "."@
    }
}

/// The default statement is never empty.
pub proof fn lemma_default_statement_nonempty(request: ProofRequestView, ack: ExecutionAckView)
    ensures
        default_statement_of(request, ack).len() > 0,
{
    reveal_strlit("Order ");
}

/// Writes the default statement of a claim.
pub fn default_statement(request: &ProofRequest, ack: &ExecutionAck) -> (statement: String)
    ensures
        statement@ == default_statement_of(request@, ack@),
{
    let mut statement = String::from_str("Order ");
    statement.append(request.order_ref.as_str());
    statement.append(" for account ");
    statement.append(request.account_ref.as_str());
    match request.claim_type {
        ClaimType::ORDER_PLACED => {
            statement.append(" was accepted on venue ");
            statement.append(venue_slug(request.venue));
            statement.append(" at ");
            statement.append(ack.accepted_at.as_str());
        },
        ClaimType::TRADE_EXECUTED => {
            statement.append(" was executed on venue ");
            statement.append(venue_slug(request.venue));
            statement.append(" with execution ref ");
            match &request.execution_ref {
                Some(reference) => statement.append(reference.as_str()),
                None => statement.append("UNKNOWN"),
            }
        },
    }
    statement.append(".");
    statement
}

/// What a venue does for the receipt pipeline. Each call may fail with a reason
/// in words. Of the acknowledgement and of the evidence nothing is asked here:
/// the pipeline judges what comes back. A statement must not be empty; an
/// adapter that does not word its own gives the default statement, and always
/// gives it.
pub trait VenueAdapter {
    /// The venue that this adapter serves.
    spec fn served(&self) -> Venue;

    /// The venue that this adapter serves.
    fn venue(&self) -> (venue: Venue)
        ensures
            venue == self.served(),
    ;

    /// The venue's acknowledgement of the request's order.
    fn acknowledge(&self, request: &ProofRequest) -> Result<ExecutionAck, String>;

    /// The evidence that the venue holds for the request.
    fn collect_evidence(&self, request: &ProofRequest, ack: &ExecutionAck) -> Result<
        EvidenceBundle,
        String,
    >;

    /// The statement of the claim in words. Unless the adapter provides its
    /// own, this is the default statement of the request and its
    /// acknowledgement, whatever the evidence holds.
    fn build_statement(
        &self,
        request: &ProofRequest,
        ack: &ExecutionAck,
        _bundle: &EvidenceBundle,
    ) -> (statement: Result<String, String>)
        ensures
            statement matches Ok(text) ==> text@.len() > 0,
        default_ensures
            statement is Ok,
            statement->Ok_0@ == default_statement_of(request@, ack@),
    {
        proof {
            lemma_default_statement_nonempty(request@, ack@);
        }
        Ok(default_statement(request, ack))
    }
}

} // verus!
