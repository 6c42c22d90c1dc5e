//! The response assembler and the gateway's error taxonomy.
//!
//! Outcomes are reported exactly in the order the transaction controller
//! produced them; the overall success flag is false exactly when some
//! outcome is a failure, and the transport status follows it.  Errors
//! raised before any execution carry their own client- or server-side
//! status.

use vstd::prelude::*;

use crate::txn::Outcome;

verus! {

/// No recorded outcome is a failure.
pub open spec fn all_succeeded(outcomes: Seq<Outcome>) -> bool {
    forall|j: int| 0 <= j < outcomes.len() ==> !((#[trigger] outcomes[j]) is Failed)
}

/// The overall success of a finished transaction: false exactly when some
/// outcome is a failure.
pub fn overall_success(outcomes: &Vec<Outcome>) -> (r: bool)
    ensures
        r == all_succeeded(outcomes@),
{
    let mut j: usize = 0;
    while j < outcomes.len()
        invariant
            0 <= j <= outcomes@.len(),
            forall|i: int| 0 <= i < j ==> !((#[trigger] outcomes@[i]) is Failed),
        decreases outcomes@.len() - j,
    {
        match &outcomes[j] {
            Outcome::Failed { .. } => {
                return false;
            },
            _ => {},
        }
        j += 1;
    }
    true
}

/// The transport status of a finished transaction: success when no
/// outcome is a failure, a server error otherwise.
pub fn transaction_status(outcomes: &Vec<Outcome>) -> (s: u16)
    ensures
        s == 200 <==> all_succeeded(outcomes@),
        s == 200 || s == 500,
{
    if overall_success(outcomes) {
        200
    } else {
        500
    }
}

/// What can go wrong before or outside execution: a malformed request or
/// header (the caller's fault), a pool that could not be created for the
/// given connection string (the caller's fault), or a registry that could
/// not be acquired promptly (the server's fault, retryable).
#[derive(Debug)]
pub enum GatewayError {
    Validation(String),
    Connection(String),
    Contention(String),
}

/// The transport status of each error kind: validation and connection
/// failures are client errors; contention is a server error.
pub fn error_status(e: &GatewayError) -> (s: u16)
    ensures
        e is Validation ==> s == 400,
        e is Connection ==> s == 400,
        e is Contention ==> s == 500,
{
    match e {
        GatewayError::Validation(_) => 400,
        GatewayError::Connection(_) => 400,
        GatewayError::Contention(_) => 500,
    }
}

/// The message carried by a gateway error.
pub fn error_message(e: &GatewayError) -> (m: &String)
    ensures
        e matches GatewayError::Validation(s) ==> *m == s,
        e matches GatewayError::Connection(s) ==> *m == s,
        e matches GatewayError::Contention(s) ==> *m == s,
{
    match e {
        GatewayError::Validation(s) => s,
        GatewayError::Connection(s) => s,
        GatewayError::Contention(s) => s,
    }
}

} // verus!
