//! Booking lifecycle with token escrow and push settlement: book → fund the
//! escrow → check in → complete → settle, with cancellations and disputes on the
//! way.
//!
//! [`StelloBookingContract`] holds the calls. They work on an [`Env`]: the entries
//! of the contract, the time and the signers of one invocation, and the effects that
//! the invocation is to have. [`acceptance`] says when a call goes through and
//! [`outcomes`] what it then leaves behind. [`laws`], [`accounting`], [`indexing`],
//! [`ordering`], [`payouts`] and [`records`] state what holds over all calls and all
//! histories of calls.
pub mod acceptance;
pub mod accounting;
pub mod contract;
pub mod env;
pub mod errors;
pub mod events;
pub mod indexing;
pub mod laws;
pub mod ordering;
pub mod outcomes;
pub mod payouts;
pub mod records;
pub mod refund;
pub mod scripted_token;
pub mod split;
pub mod state_machine;
pub mod storage;
pub mod types;

pub use contract::StelloBookingContract;
pub use env::Env;
pub use errors::Error;
pub use refund::compute_refund;
pub use split::{compute_bps_amounts, compute_completion_split};
pub use state_machine::{is_terminal, validate_transition};
pub use types::{
    Address, Booking, BookingState, Bytes32, CancelSettlement, CancelledBy, Config,
    SettlementAmounts, SettlementType, SplitAmounts, BPS_DENOM, DEFAULT_HOST_CANCEL_FEE, FOUR_WEEKS,
    HOST_BPS, O2O_BPS, OPS_BPS, QA_BPS, REVIEW_BPS, SECONDS_PER_WEEK, TWO_WEEKS,
};
