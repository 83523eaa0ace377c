use vstd::prelude::*;

verus! {

/// Reasons for which an escrow operation is rejected. A rejected operation
/// leaves every record and balance as it was.
#[derive(Clone, Copy, Debug, PartialEq, Eq, Structural)]
pub enum EscrowError {
    /// Cancel asked of a record that is no longer in `Created`.
    EscrowAlreadyFunded,
    /// Release or refund asked of a record that is not in `Funded`.
    EscrowNotFunded,
    /// The caller satisfies none of the clauses that authorize the operation.
    UnauthorizedOperation,
    /// Creation asked with a zero amount.
    InvalidAmount,
    /// The seller's timeout has not run out yet.
    TimeoutNotReached,
    /// Funding asked of a record that is not in `Created`.
    InvalidState,
    /// Creation asked with a timeout period that is not positive.
    InvalidTimeout,
    /// The paying account holds less than the amount to move.
    InsufficientFunds,
}

} // verus!
