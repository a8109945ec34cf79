use vstd::prelude::*;

verus! {

/// Why an operation was refused. A refused operation changes nothing.
#[derive(Clone, Copy, Debug, PartialEq, Eq, Structural)]
pub enum ErrorCode {
    /// The caller is not the identity that the operation requires.
    AuthorizationMismatch,
    /// The paying side holds less than the amount to move.
    InsufficientFunds,
    /// No further ticket record can be addressed in this round.
    AllocationFailure,
    /// A transfer names a receiver other than the configured one.
    InvalidFixedDestination,
    /// The winning ordinal names no ticket that was sold.
    WinnerIndexOutOfRange,
    /// A balance would exceed what it can hold.
    BalanceOverflow,
    /// The round was already paid out and takes no further changes.
    AlreadySettled,
}

} // verus!
