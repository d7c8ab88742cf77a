//! Traveller / host cancellation refund policy.
//!
//! The time left until the start, with inclusive lower bounds, decides a
//! traveller's cancellation:
//! - `>= FOUR_WEEKS` → 70/15/15 (traveller/host/ops)
//! - `>= TWO_WEEKS` (and < 4 weeks) → 50/35/15
//! - `< TWO_WEEKS` → 0/80/20
//!
//! A host's cancellation refunds the whole escrow to the traveller (the fee is
//! handled separately).
//!
//! The remainder after flooring goes to operations when the ops share is
//! positive; otherwise to the host; otherwise to the traveller.
use vstd::prelude::*;

use crate::errors::Error;
use crate::split;
use crate::types::{CancelSettlement, CancelledBy, FOUR_WEEKS, TWO_WEEKS};

verus! {

/// The seconds left until the start, none once it has come.
pub open spec fn time_until(start_time: u64, now: u64) -> int {
    if start_time >= now {
        start_time - now
    } else {
        0
    }
}

/// The basis points of traveller, host and operations when the traveller
/// cancels with so many seconds left.
pub open spec fn refund_tier(until_start: int) -> (int, int, int) {
    if until_start >= FOUR_WEEKS {
        (7000, 1500, 1500)
    } else if until_start >= TWO_WEEKS {
        (5000, 3500, 1500)
    } else {
        (0, 8000, 2000)
    }
}

/// The largest share of a tier.
pub open spec fn largest_of_tier(until_start: int) -> int {
    if until_start >= FOUR_WEEKS {
        7000
    } else if until_start >= TWO_WEEKS {
        5000
    } else {
        8000
    }
}

/// Why a refund is not computed, if it is not.
pub open spec fn refund_refusal(
    amount: int,
    start_time: u64,
    now: u64,
    cancelled_by: CancelledBy,
) -> Option<Error> {
    if amount <= 0 || cancelled_by == CancelledBy::Nobody {
        Some(Error::InvalidAmount)
    } else if cancelled_by == CancelledBy::Traveller && !split::bps_product_fits(
        amount,
        largest_of_tier(time_until(start_time, now)),
    ) {
        Some(Error::MathError)
    } else {
        None
    }
}

/// How a cancelled escrow is shared out.
pub open spec fn refund(
    amount: int,
    start_time: u64,
    now: u64,
    cancelled_by: CancelledBy,
) -> CancelSettlement {
    if cancelled_by == CancelledBy::Host {
        CancelSettlement { traveller_amount: amount as i128, host_amount: 0, ops_amount: 0 }
    } else {
        let (traveller_bps, host_bps, ops_bps) = refund_tier(time_until(start_time, now));
        let traveller = split::bps_share(amount, traveller_bps);
        let host = split::bps_share(amount, host_bps);
        CancelSettlement {
            traveller_amount: traveller as i128,
            host_amount: host as i128,
            ops_amount: (amount - traveller - host) as i128,
        }
    }
}

/// Pure refund computation for escrow; does not cover the host's fee.
pub fn compute_refund(
    amount: i128,
    start_time: u64,
    now: u64,
    cancelled_by: CancelledBy,
) -> (result: Result<CancelSettlement, Error>)
    ensures
        match refund_refusal(amount as int, start_time, now, cancelled_by) {
            Some(e) => result == Err::<CancelSettlement, Error>(e),
            None => result == Ok::<CancelSettlement, Error>(
                refund(amount as int, start_time, now, cancelled_by),
            ),
        },
        result == Err::<CancelSettlement, Error>(Error::InvalidAmount) <==> amount <= 0
            || cancelled_by == CancelledBy::Nobody,
        amount > 0 && cancelled_by == CancelledBy::Host ==> result is Ok,
        amount > 0 && cancelled_by == CancelledBy::Traveller ==> (result is Ok <==> (if start_time
            - now >= 2_419_200 {
            amount * 7000 <= i128::MAX
        } else if start_time - now >= 1_209_600 {
            amount * 5000 <= i128::MAX
        } else {
            amount * 8000 <= i128::MAX
        })),
        result matches Ok(s) ==> {
            &&& s.ops_amount == amount - s.traveller_amount - s.host_amount
            &&& cancelled_by == CancelledBy::Host ==> s.traveller_amount == amount && s.host_amount
                == 0
            &&& cancelled_by == CancelledBy::Traveller ==> {
                &&& start_time - now >= 2_419_200 ==> s.traveller_amount == amount * 70 / 100
                    && s.host_amount == amount * 15 / 100
                &&& 1_209_600 <= start_time - now < 2_419_200 ==> s.traveller_amount == amount * 50
                    / 100 && s.host_amount == amount * 35 / 100
                &&& start_time - now < 1_209_600 ==> s.traveller_amount == 0 && s.host_amount
                    == amount * 80 / 100
            }
        },
{
    if amount <= 0 {
        return Err(Error::InvalidAmount);
    }
    if cancelled_by == CancelledBy::Host {
        return Ok(
            CancelSettlement { traveller_amount: amount, host_amount: 0, ops_amount: 0 },
        );
    }
    if cancelled_by != CancelledBy::Traveller {
        return Err(Error::InvalidAmount);
    }

    let until_start = start_time.saturating_sub(now);
    let (traveller_bps, host_bps, ops_bps) = if until_start >= FOUR_WEEKS {
        (7000u32, 1500u32, 1500u32)
    } else if until_start >= TWO_WEEKS {
        (5000u32, 3500u32, 1500u32)
    } else {
        (0u32, 8000u32, 2000u32)
    };
    proof {
        refund_follows_the_tiers(amount, start_time, now);
        let largest = largest_of_tier(until_start as int);
        split::share_bounds(amount as int, traveller_bps as int);
        split::share_bounds(amount as int, host_bps as int);
        split::share_bounds(amount as int, ops_bps as int);
        if split::bps_product_fits(amount as int, largest) {
            split::product_fits_below(amount as int, traveller_bps as int, largest);
            split::product_fits_below(amount as int, host_bps as int, largest);
            split::product_fits_below(amount as int, ops_bps as int, largest);
        }
    }

    let mut traveller_amount = split::bps_floor(amount, traveller_bps)?;
    let mut host_amount = split::bps_floor(amount, host_bps)?;
    let mut ops_amount = split::bps_floor(amount, ops_bps)?;

    let sum = checked_sum3(traveller_amount, host_amount, ops_amount)?;
    let remainder = match amount.checked_sub(sum) {
        Some(v) => v,
        None => return Err(Error::MathError),
    };

    if ops_bps > 0 {
        ops_amount = match ops_amount.checked_add(remainder) {
            Some(v) => v,
            None => return Err(Error::MathError),
        };
    } else if host_bps > 0 {
        host_amount = match host_amount.checked_add(remainder) {
            Some(v) => v,
            None => return Err(Error::MathError),
        };
    } else {
        traveller_amount = match traveller_amount.checked_add(remainder) {
            Some(v) => v,
            None => return Err(Error::MathError),
        };
    }

    let total = checked_sum3(traveller_amount, host_amount, ops_amount)?;
    if total != amount {
        return Err(Error::MathError);
    }
    Ok(CancelSettlement { traveller_amount, host_amount, ops_amount })
}

/// The sum of three amounts that are not negative.
pub(crate) fn checked_sum3(a: i128, b: i128, c: i128) -> (result: Result<i128, Error>)
    requires
        a >= 0,
        b >= 0,
        c >= 0,
    ensures
        result == (if a + b + c <= i128::MAX {
            Ok::<i128, Error>((a + b + c) as i128)
        } else {
            Err::<i128, Error>(Error::MathError)
        }),
{
    match a.checked_add(b) {
        Some(ab) => match ab.checked_add(c) {
            Some(total) => Ok(total),
            None => Err(Error::MathError),
        },
        None => Err(Error::MathError),
    }
}

/// A refund shares out exactly the escrow, and no share is negative.
pub proof fn refund_is_exact(amount: i128, start_time: u64, now: u64, cancelled_by: CancelledBy)
    requires
        refund_refusal(amount as int, start_time, now, cancelled_by) is None,
    ensures
        ({
            let s = refund(amount as int, start_time, now, cancelled_by);
            &&& s.traveller_amount + s.host_amount + s.ops_amount == amount
            &&& s.traveller_amount >= 0
            &&& s.host_amount >= 0
            &&& s.ops_amount >= 0
        }),
{
    if cancelled_by == CancelledBy::Traveller {
        let (traveller_bps, host_bps, ops_bps) = refund_tier(time_until(start_time, now));
        split::share_bounds(amount as int, traveller_bps);
        split::share_bounds(amount as int, host_bps);
        assert(amount * traveller_bps + amount * host_bps <= amount * 10_000) by (nonlinear_arith)
            requires
                amount > 0,
                traveller_bps + host_bps <= 10_000,
        ;
    }
}

/// What a traveller's cancellation shares out, over the whole range of each tier: with at
/// least four weeks left, 70% to the traveller and 15% to the host; with at least two and
/// less than four weeks left, 50% and 35%; with less than two weeks left, or once the start
/// has come, nothing and 80%. Each is rounded down, and operations get the rest. It is refused
/// exactly where the amount is not positive or the largest product behind it is no number.
pub proof fn refund_follows_the_tiers(amount: i128, start_time: u64, now: u64)
    ensures
        ({
            let refusal = refund_refusal(amount as int, start_time, now, CancelledBy::Traveller);
            let s = refund(amount as int, start_time, now, CancelledBy::Traveller);
            let left = start_time - now;
            &&& refusal == Some(Error::InvalidAmount) <==> amount <= 0
            &&& refusal == Some(Error::MathError) <==> amount > 0 && (if left >= 2_419_200 {
                amount * 7000 > i128::MAX
            } else if left >= 1_209_600 {
                amount * 5000 > i128::MAX
            } else {
                amount * 8000 > i128::MAX
            })
            &&& refusal is None <==> refusal != Some(Error::InvalidAmount) && refusal != Some(
                Error::MathError,
            )
            &&& amount > 0 && left >= 2_419_200 ==> s.traveller_amount == amount * 70 / 100
                && s.host_amount == amount * 15 / 100
            &&& amount > 0 && 1_209_600 <= left < 2_419_200 ==> s.traveller_amount == amount * 50
                / 100 && s.host_amount == amount * 35 / 100
            &&& amount > 0 && left < 1_209_600 ==> s.traveller_amount == 0 && s.host_amount
                == amount * 80 / 100
            &&& amount > 0 ==> s.ops_amount == amount - s.traveller_amount - s.host_amount
        }),
{
}

/// A refund for a cancellation by nobody is refused, and so is any refund of an amount
/// that is not positive.
pub proof fn refund_takes_a_canceller_and_an_amount(
    amount: i128,
    start_time: u64,
    now: u64,
    cancelled_by: CancelledBy,
)
    ensures
        amount <= 0 || cancelled_by == CancelledBy::Nobody ==> refund_refusal(
            amount as int,
            start_time,
            now,
            cancelled_by,
        ) == Some(Error::InvalidAmount),
{
}

/// A traveller who cancels earlier never gets less back.
pub proof fn earlier_cancellation_refunds_no_less(
    amount: i128,
    start_time: u64,
    earlier: u64,
    later: u64,
)
    requires
        earlier <= later,
        refund_refusal(amount as int, start_time, earlier, CancelledBy::Traveller) is None,
        refund_refusal(amount as int, start_time, later, CancelledBy::Traveller) is None,
    ensures
        refund(amount as int, start_time, earlier, CancelledBy::Traveller).traveller_amount
            >= refund(amount as int, start_time, later, CancelledBy::Traveller).traveller_amount,
{
    let a = amount as int;
    split::share_bounds(a, 0);
    split::share_bounds(a, 5000);
    split::share_bounds(a, 7000);
    assert(a * 0 <= a * 5000 <= a * 7000) by (nonlinear_arith)
        requires
            a > 0,
    ;
}

/// A host's cancellation gives the traveller the whole escrow, whenever it
/// comes.
pub proof fn host_cancellation_refunds_all(amount: i128, start_time: u64, now: u64)
    requires
        amount > 0,
    ensures
        refund_refusal(amount as int, start_time, now, CancelledBy::Host) is None,
        refund(amount as int, start_time, now, CancelledBy::Host) == (CancelSettlement {
            traveller_amount: amount,
            host_amount: 0,
            ops_amount: 0,
        }),
{
}

} // verus!
