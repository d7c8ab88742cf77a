//! Contract errors.
use vstd::prelude::*;

verus! {

/// Why a call is refused. [`Error::code`] is the number under which an error
/// leaves the contract.
#[derive(Clone, Copy, Debug, PartialEq, Eq, PartialOrd, Ord, Structural)]
pub enum Error {
    AlreadyInitialized,
    NotInitialized,
    /// An address whose signature the call needs has not signed it.
    Unauthorized,
    InvalidStateTransition,
    BookingNotFound,
    InvalidAmount,
    InvalidAddress,
    InvalidToken,
    EscrowAlreadyLocked,
    EscrowNotLocked,
    AlreadySettled,
    AlreadyCancelled,
    InvalidDispute,
    InvalidBpsAllocation,
    MathError,
    InvalidUpdate,
    EscrowExceedsAmount,
    /// Contract token balance is below the accounted total escrowed.
    Insolvent,
    /// `start_time` must be strictly after the current ledger timestamp.
    InvalidStartTime,
    /// Cancel settlement record missing.
    SettlementNotFound,
    /// The claimant has no claimable balance.
    NothingToClaim,
}

impl Error {
    /// The number of each error.
    pub open spec fn spec_code(self) -> u32 {
        match self {
            Error::AlreadyInitialized => 1,
            Error::NotInitialized => 2,
            Error::Unauthorized => 3,
            Error::InvalidStateTransition => 4,
            Error::BookingNotFound => 5,
            Error::InvalidAmount => 6,
            Error::InvalidAddress => 7,
            Error::InvalidToken => 8,
            Error::EscrowAlreadyLocked => 9,
            Error::EscrowNotLocked => 10,
            Error::AlreadySettled => 11,
            Error::AlreadyCancelled => 12,
            Error::InvalidDispute => 13,
            Error::InvalidBpsAllocation => 14,
            Error::MathError => 15,
            Error::InvalidUpdate => 16,
            Error::EscrowExceedsAmount => 17,
            Error::Insolvent => 18,
            Error::InvalidStartTime => 19,
            Error::SettlementNotFound => 20,
            Error::NothingToClaim => 21,
        }
    }

    /// The number under which the error leaves the contract.
    pub fn code(self) -> (code: u32)
        ensures
            code == self.spec_code(),
    {
        match self {
            Error::AlreadyInitialized => 1,
            Error::NotInitialized => 2,
            Error::Unauthorized => 3,
            Error::InvalidStateTransition => 4,
            Error::BookingNotFound => 5,
            Error::InvalidAmount => 6,
            Error::InvalidAddress => 7,
            Error::InvalidToken => 8,
            Error::EscrowAlreadyLocked => 9,
            Error::EscrowNotLocked => 10,
            Error::AlreadySettled => 11,
            Error::AlreadyCancelled => 12,
            Error::InvalidDispute => 13,
            Error::InvalidBpsAllocation => 14,
            Error::MathError => 15,
            Error::InvalidUpdate => 16,
            Error::EscrowExceedsAmount => 17,
            Error::Insolvent => 18,
            Error::InvalidStartTime => 19,
            Error::SettlementNotFound => 20,
            Error::NothingToClaim => 21,
        }
    }
}

/// No two errors leave the contract under the same number.
pub proof fn error_codes_are_unique(a: Error, b: Error)
    ensures
        a.spec_code() == b.spec_code() ==> a == b,
{
}

/// The numbers of the errors run from 1 to 21 in the order in which the errors are
/// declared.
pub proof fn error_codes_are_in_order(e: Error)
    ensures
        1 <= e.spec_code() <= 21,
        e.spec_code() == 1 <==> e == Error::AlreadyInitialized,
        e.spec_code() == 2 <==> e == Error::NotInitialized,
        e.spec_code() == 3 <==> e == Error::Unauthorized,
        e.spec_code() == 4 <==> e == Error::InvalidStateTransition,
        e.spec_code() == 5 <==> e == Error::BookingNotFound,
        e.spec_code() == 6 <==> e == Error::InvalidAmount,
        e.spec_code() == 7 <==> e == Error::InvalidAddress,
        e.spec_code() == 8 <==> e == Error::InvalidToken,
        e.spec_code() == 9 <==> e == Error::EscrowAlreadyLocked,
        e.spec_code() == 10 <==> e == Error::EscrowNotLocked,
        e.spec_code() == 11 <==> e == Error::AlreadySettled,
        e.spec_code() == 12 <==> e == Error::AlreadyCancelled,
        e.spec_code() == 13 <==> e == Error::InvalidDispute,
        e.spec_code() == 14 <==> e == Error::InvalidBpsAllocation,
        e.spec_code() == 15 <==> e == Error::MathError,
        e.spec_code() == 16 <==> e == Error::InvalidUpdate,
        e.spec_code() == 17 <==> e == Error::EscrowExceedsAmount,
        e.spec_code() == 18 <==> e == Error::Insolvent,
        e.spec_code() == 19 <==> e == Error::InvalidStartTime,
        e.spec_code() == 20 <==> e == Error::SettlementNotFound,
        e.spec_code() == 21 <==> e == Error::NothingToClaim,
{
}

} // verus!
