//! The ways in which an operation on an escrow record fails.

use vstd::prelude::*;

verus! {

/// Why an operation was refused. Every failure leaves the record as it was.
#[derive(Clone, Copy, Debug, PartialEq, Eq, Structural)]
pub enum EscrowError {
    /// The record has reached its terminal state.
    AlreadyExecuted,
    /// Delivery is not confirmed and the deadline has not passed.
    NotReady,
    /// The caller is not the maker of the record.
    Unauthorized,
    /// The accompanying accounts do not agree with the record.
    InvalidAccounts,
    /// The asset transfer service rejected a request, or the record yields no
    /// authority to present to it.
    ServiceFailure,
    /// An event arrived that answers no request of the running invocation.
    OutOfOrder,
}

} // verus!
