use vstd::prelude::*;

verus! {

/// Every way an operation of this library can fail.
#[derive(Debug, Clone, Copy, PartialEq, Eq, Structural)]
pub enum ErrorCode {
    /// A ledger already exists at the owner's storage location.
    AlreadyInitialized,
    /// The spendable balance does not cover the amount to move.
    InsufficientFunds,
    /// The addressed entry holds less than the amount asked to withdraw.
    InsufficientFundsForUnlocking,
    /// The entry index does not address an entry of the ledger.
    LockIndexOutOfBounds,
    /// A running total would leave the range of `u64`.
    Overflow,
    /// The fund transfer gateway refused the transfer.
    TransferFailed,
    /// A stored record is too short, or a destination has the wrong size.
    InvalidAccountData,
    /// An instruction's bytes do not name a known instruction.
    InvalidInstructionData,
    /// A deposit of zero was asked for.
    ZeroAmount,
    /// The caller may not perform this action.
    NotAuthorized,
}

} // verus!
