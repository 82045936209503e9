//! The refusals of the contest's operations.

use vstd::prelude::*;

verus! {

/// Why an operation on the contest was refused.
#[derive(Clone, Copy, Debug, PartialEq, Eq, Structural)]
pub enum ErrorCode {
    /// The initial prize was zero.
    InvalidPrize,
    /// The bid does not exceed the current prize.
    BidTooLow,
    /// A record to be created is already there.
    AlreadyExists,
    /// The paying account holds less than the amount to move.
    InsufficientFunds,
    /// No bump seed yields an address off the curve.
    NoValidAddress,
    /// A supplied address is not the canonical derived address.
    AddressMismatch,
    /// The supplied leader is not the leader on record.
    LeaderMismatch,
    /// A balance would leave the range of `u64`.
    Overflow,
}

} // verus!
