//! Contract events for off-chain indexers.
//!
//! # Settlement accounting for indexers
//! - [`SettlementExecuted`] is the **canonical** escrow settlement event. Sum
//!   its amount fields for on-escrow financial accounting.
//! - [`BookingCancelled`] is lifecycle / cancellation metadata. It may repeat
//!   escrow allocation figures for UX, but **MUST NOT** be independently summed
//!   as a second financial settlement (that would double-count vs
//!   [`SettlementExecuted`]).
//! - [`HostCancellationFeePaid`] is a separate host → operations payment
//!   **outside** booking escrow and is not escrow settlement.
use vstd::prelude::*;

use crate::types::{Address, Bytes32, SettlementType};

verus! {

#[derive(Clone, Copy, Debug, PartialEq, Eq)]
pub struct BookingCreated {
    pub booking_id: u64,
    /// Opaque backend booking id.
    pub booking_ref: Bytes32,
    /// Opaque backend service id.
    pub service_ref: Bytes32,
    pub traveller: Address,
    pub host: Address,
    pub amount: i128,
    pub token: Address,
    pub start_time: u64,
}

#[derive(Clone, Copy, Debug, PartialEq, Eq)]
pub struct BookingUpdated {
    pub booking_id: u64,
    pub amount: i128,
    pub start_time: u64,
    pub host: Address,
}

#[derive(Clone, Copy, Debug, PartialEq, Eq)]
pub struct EscrowLocked {
    pub booking_id: u64,
    pub amount: i128,
    pub token: Address,
}

#[derive(Clone, Copy, Debug, PartialEq, Eq)]
pub struct BookingCheckedIn {
    pub booking_id: u64,
    pub timestamp: u64,
}

#[derive(Clone, Copy, Debug, PartialEq, Eq)]
pub struct BookingCompleted {
    pub booking_id: u64,
}

/// Canonical **escrow** settlement event (completion, traveller/host cancel, dispute).
///
/// For `SettlementType::HostCancel`, amounts reflect booking escrow only (full
/// escrow → traveller; `ops_amount = 0`). The host's fee to operations is
/// outside the escrow and is published separately as [`HostCancellationFeePaid`].
#[derive(Clone, Copy, Debug, PartialEq, Eq)]
pub struct SettlementExecuted {
    pub booking_id: u64,
    pub settlement_type: SettlementType,
    pub traveller_amount: i128,
    pub host_amount: i128,
    pub ops_amount: i128,
    pub review_amount: i128,
    pub qa_amount: i128,
    pub o2o_amount: i128,
    pub timestamp: u64,
}

/// Lifecycle / cancellation signal. Amount fields mirror the escrow allocation
/// for convenience; use [`SettlementExecuted`] for escrow accounting.
#[derive(Clone, Copy, Debug, PartialEq, Eq)]
pub struct BookingCancelled {
    pub booking_id: u64,
    pub by_host: bool,
    pub traveller_amount: i128,
    pub host_amount: i128,
    pub ops_amount: i128,
}

/// Host wallet → operations fee on host cancel. **Not** part of booking escrow
/// and **not** escrow settlement.
#[derive(Clone, Copy, Debug, PartialEq, Eq)]
pub struct HostCancellationFeePaid {
    pub booking_id: u64,
    pub host: Address,
    pub ops: Address,
    pub amount: i128,
}

#[derive(Clone, Copy, Debug, PartialEq, Eq)]
pub struct DisputeOpened {
    pub booking_id: u64,
}

#[derive(Clone, Copy, Debug, PartialEq, Eq)]
pub struct DisputeResolved {
    pub booking_id: u64,
    pub traveller_bps: u32,
    pub host_bps: u32,
    pub ops_bps: u32,
    pub review_bps: u32,
    pub qa_bps: u32,
    pub o2o_bps: u32,
}

/// A claimable balance was withdrawn.
#[derive(Clone, Copy, Debug, PartialEq, Eq)]
pub struct PayoutClaimed {
    pub claimant: Address,
    pub amount: i128,
    pub token: Address,
}

/// Any event of the contract.
#[derive(Clone, Copy, Debug, PartialEq, Eq)]
pub enum Event {
    BookingCreated(BookingCreated),
    BookingUpdated(BookingUpdated),
    EscrowLocked(EscrowLocked),
    BookingCheckedIn(BookingCheckedIn),
    BookingCompleted(BookingCompleted),
    SettlementExecuted(SettlementExecuted),
    BookingCancelled(BookingCancelled),
    HostCancellationFeePaid(HostCancellationFeePaid),
    DisputeOpened(DisputeOpened),
    DisputeResolved(DisputeResolved),
    PayoutClaimed(PayoutClaimed),
}

impl SettlementExecuted {
    /// What the event says was paid out of the escrow.
    pub open spec fn total(self) -> int {
        self.traveller_amount + self.host_amount + self.ops_amount + self.review_amount
            + self.qa_amount + self.o2o_amount
    }
}

} // verus!
