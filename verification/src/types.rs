//! Core types of the booking, escrow and settlement contract.
use vstd::prelude::*;

verus! {

/// An account or a contract. Addresses are only ever compared for equality,
/// so a handle that is unique per account stands for one.
#[derive(Clone, Copy, Debug, PartialEq, Eq, Structural)]
pub struct Address {
    pub id: u64,
}

/// An opaque reference of thirty-two bytes.
#[derive(Clone, Copy, Debug, PartialEq, Eq)]
pub struct Bytes32 {
    pub bytes: [u8; 32],
}

/// The reference that stands for "none was given": all bytes are zero.
pub open spec fn zero_ref() -> Bytes32 {
    Bytes32 { bytes: vstd::array::spec_array_fill_for_copy_type::<u8, 32>(0u8) }
}

/// Every byte of the reference that stands for "none was given" is zero.
pub proof fn zero_ref_holds_zeros(i: int)
    requires
        0 <= i < 32,
    ensures
        zero_ref().bytes[i] == 0,
{
}

/// A reference whose bytes are all zero is the one that stands for "none was given".
pub proof fn zero_ref_is_the_only_one(r: Bytes32)
    requires
        forall|i: int| 0 <= i < 32 ==> #[trigger] r.bytes[i] == 0,
    ensures
        r == zero_ref(),
{
    assert forall|i: int| 0 <= i < 32 implies #[trigger] r.bytes[i] == zero_ref().bytes[i] by {
        zero_ref_holds_zeros(i);
    }
    assert(r.bytes =~= zero_ref().bytes);
}

impl Bytes32 {
    /// The all-zero reference.
    pub fn zero() -> (r: Bytes32)
        ensures
            r == zero_ref(),
    {
        Bytes32 { bytes: [0u8; 32] }
    }

    /// Whether two references hold the same bytes.
    pub fn same(&self, other: &Bytes32) -> (r: bool)
        ensures
            r == (*self == *other),
    {
        let mut i: usize = 0;
        while i < 32
            invariant
                i <= 32,
                forall|j: int| 0 <= j < i ==> self.bytes[j] == other.bytes[j],
            decreases 32 - i,
        {
            if self.bytes[i] != other.bytes[i] {
                return false;
            }
            i = i + 1;
        }
        assert(self.bytes =~= other.bytes);
        true
    }
}

/// Booking lifecycle states.
#[derive(Clone, Copy, Debug, PartialEq, Eq, Structural)]
pub enum BookingState {
    Created,
    Escrowed,
    CheckedIn,
    Completed,
    Cancelled,
    Disputed,
}

/// Who initiated cancellation (drives refund policy).
#[derive(Clone, Copy, Debug, PartialEq, Eq, Structural)]
pub enum CancelledBy {
    Nobody,
    Traveller,
    Host,
}

/// Protocol configuration.
#[derive(Clone, Copy, Debug, PartialEq, Eq, Structural)]
pub struct Config {
    /// Privileged Stello wallet.
    pub stello_wallet: Address,
    /// Token contract in which bookings are paid.
    pub token: Address,
    pub ops_pool: Address,
    pub review_pool: Address,
    pub qa_pool: Address,
    pub o2o_pool: Address,
    /// Host cancellation fee in token base units ($5 USDC @ 7 decimals = 50_000_000).
    pub host_cancel_fee: i128,
}

/// A booking record.
#[derive(Clone, Copy, Debug, PartialEq, Eq)]
pub struct Booking {
    /// Internal sequential ID.
    pub booking_id: u64,
    /// Immutable opaque reference to the backend booking; zero when none was given.
    pub booking_ref: Bytes32,
    /// Immutable opaque reference to the backend service (not unique).
    pub service_ref: Bytes32,
    pub traveller: Address,
    pub host: Address,
    pub amount: i128,
    pub token: Address,
    /// Unix seconds: experience start (cancellation windows).
    pub start_time: u64,
    pub created_at: u64,
    pub state: BookingState,
    pub escrow_locked: bool,
    /// Tokens held in escrow for this booking (0 until lock; then == amount).
    pub escrow_amount: i128,
    pub checked_in: bool,
    pub settled: bool,
    pub was_cancelled: bool,
    pub cancelled_by: CancelledBy,
}

/// Cancellation settlement breakdown.
#[derive(Clone, Copy, Debug, PartialEq, Eq, Structural)]
pub struct CancelSettlement {
    pub traveller_amount: i128,
    pub host_amount: i128,
    pub ops_amount: i128,
}

/// Completion split breakdown (basis-point math).
#[derive(Clone, Copy, Debug, PartialEq, Eq, Structural)]
pub struct SplitAmounts {
    pub host_amount: i128,
    pub ops_amount: i128,
    pub review_amount: i128,
    pub qa_amount: i128,
    pub o2o_amount: i128,
}

/// Full multi-party settlement amounts (completion or dispute).
#[derive(Clone, Copy, Debug, PartialEq, Eq, Structural)]
pub struct SettlementAmounts {
    pub traveller_amount: i128,
    pub host_amount: i128,
    pub ops_amount: i128,
    pub review_amount: i128,
    pub qa_amount: i128,
    pub o2o_amount: i128,
}

/// Distinguishes settlement outcomes in events.
#[derive(Clone, Copy, Debug, PartialEq, Eq, Structural)]
pub enum SettlementType {
    Completed,
    TravellerCancel,
    /// Escrow-only settlement. The host's fee to operations is not in it;
    /// see `HostCancellationFeePaid`.
    HostCancel,
    Dispute,
}

/// Revenue split basis points (they sum to [`BPS_DENOM`]).
pub const HOST_BPS: u32 = 8000;

pub const OPS_BPS: u32 = 1000;

pub const REVIEW_BPS: u32 = 500;

pub const QA_BPS: u32 = 300;

pub const O2O_BPS: u32 = 200;

pub const BPS_DENOM: u32 = 10_000;

/// Cancellation window thresholds (seconds).
pub const SECONDS_PER_WEEK: u64 = 7 * 24 * 60 * 60;

pub const FOUR_WEEKS: u64 = 4 * SECONDS_PER_WEEK;

pub const TWO_WEEKS: u64 = 2 * SECONDS_PER_WEEK;

/// Default host cancel fee: $5 USDC with 7 decimals.
pub const DEFAULT_HOST_CANCEL_FEE: i128 = 50_000_000;

/// The completion shares are 80, 10, 5, 3 and 2 percent; the refund windows are four and
/// two weeks of seven days; the fee is five units of seven decimals.
pub proof fn policy_in_numbers()
    ensures
        BPS_DENOM == 10_000,
        HOST_BPS * 100 == 80 * BPS_DENOM,
        OPS_BPS * 100 == 10 * BPS_DENOM,
        REVIEW_BPS * 100 == 5 * BPS_DENOM,
        QA_BPS * 100 == 3 * BPS_DENOM,
        O2O_BPS * 100 == 2 * BPS_DENOM,
        SECONDS_PER_WEEK == 604_800,
        FOUR_WEEKS == 2_419_200,
        TWO_WEEKS == 1_209_600,
        DEFAULT_HOST_CANCEL_FEE == 50_000_000,
{
}

} // verus!
