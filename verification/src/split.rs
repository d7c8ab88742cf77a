//! Completion revenue split (basis points, integer math).
//!
//! The remainder after flooring each share is assigned to the host, so that
//! `host + ops + review + qa + o2o == amount` exactly.
use vstd::prelude::*;

use crate::errors::Error;
use crate::types::{SplitAmounts, BPS_DENOM, HOST_BPS, O2O_BPS, OPS_BPS, QA_BPS, REVIEW_BPS};

verus! {

/// The share of `amount` that `bps` basis points give: `amount * bps / 10_000`,
/// rounded towards zero.
pub open spec fn bps_share(amount: int, bps: int) -> int {
    if amount >= 0 {
        (amount * bps) / BPS_DENOM as int
    } else {
        -((-amount * bps) / BPS_DENOM as int)
    }
}

/// Whether the product behind a share can be computed.
pub open spec fn bps_product_fits(amount: int, bps: int) -> bool {
    i128::MIN <= amount * bps <= i128::MAX
}

/// The sum of a list of basis points.
pub open spec fn bps_total(list: Seq<u32>) -> int
    decreases list.len(),
{
    if list.len() == 0 {
        0
    } else {
        bps_total(list.drop_last()) + list.last()
    }
}

/// The sum of the shares that a list of basis points gives.
pub open spec fn shares_total(amount: int, list: Seq<u32>) -> int
    decreases list.len(),
{
    if list.len() == 0 {
        0
    } else {
        shares_total(amount, list.drop_last()) + bps_share(amount, list.last() as int)
    }
}

/// The sum of a list of amounts.
pub open spec fn amounts_total(list: Seq<i128>) -> int
    decreases list.len(),
{
    if list.len() == 0 {
        0
    } else {
        amounts_total(list.drop_last()) + list.last()
    }
}

/// What entry `i` of an allocation of `amount` over `list` receives: its own
/// share, and for the first entry also what flooring left over.
pub open spec fn allocated(amount: int, list: Seq<u32>, i: int) -> int {
    bps_share(amount, list[i] as int) + if i == 0 {
        amount - shares_total(amount, list)
    } else {
        0
    }
}

/// The completion shares of `amount`: everybody but the host gets the floor of
/// the own share, the host gets the rest.
pub open spec fn completion_split(amount: int) -> SplitAmounts {
    let ops = bps_share(amount, OPS_BPS as int);
    let review = bps_share(amount, REVIEW_BPS as int);
    let qa = bps_share(amount, QA_BPS as int);
    let o2o = bps_share(amount, O2O_BPS as int);
    SplitAmounts {
        host_amount: (amount - ops - review - qa - o2o) as i128,
        ops_amount: ops as i128,
        review_amount: review as i128,
        qa_amount: qa as i128,
        o2o_amount: o2o as i128,
    }
}

/// Why an amount is not split, if it is not: it is not positive, or the
/// largest product behind a share (the host's) leaves the number range.
pub open spec fn completion_split_refusal(amount: int) -> Option<Error> {
    if amount <= 0 {
        Some(Error::InvalidAmount)
    } else if !bps_product_fits(amount, HOST_BPS as int) {
        Some(Error::MathError)
    } else {
        None
    }
}

/// `amount * bps / 10_000`, rounded towards zero.
pub fn bps_floor(amount: i128, bps: u32) -> (result: Result<i128, Error>)
    ensures
        result is Ok <==> bps_product_fits(amount as int, bps as int),
        result matches Ok(share) ==> share == bps_share(amount as int, bps as int),
        result matches Err(e) ==> e == Error::MathError,
        result is Ok <==> i128::MIN <= amount * bps <= i128::MAX,
        result matches Ok(share) ==> if amount >= 0 {
            share == amount * bps / 10_000
        } else {
            share == -((-amount) * bps / 10_000)
        },
{
    let bps_i = bps as i128;
    let denom = BPS_DENOM as i128;
    proof {
        assert(amount < 0 ==> (-amount) * bps == -(amount * bps)) by (nonlinear_arith);
        assert(amount < 0 ==> amount * bps <= 0) by (nonlinear_arith)
            requires
                bps >= 0,
        ;
        assert(amount >= 0 ==> amount * bps >= 0) by (nonlinear_arith)
            requires
                bps >= 0,
        ;
    }
    match amount.checked_mul(bps_i) {
        Some(product) => match product.checked_div(denom) {
            Some(share) => Ok(share),
            None => Err(Error::MathError),
        },
        None => Err(Error::MathError),
    }
}

/// A share of a positive amount lies between nothing and what the basis points
/// give without rounding.
pub proof fn share_bounds(amount: int, bps: int)
    requires
        amount >= 0,
        0 <= bps,
    ensures
        0 <= bps_share(amount, bps),
        bps_share(amount, bps) * 10_000 <= amount * bps < bps_share(amount, bps) * 10_000 + 10_000,
        bps <= 10_000 ==> bps_share(amount, bps) <= amount,
{
    assert(amount * bps >= 0) by (nonlinear_arith)
        requires
            amount >= 0,
            bps >= 0,
    ;
    assert(bps <= 10_000 ==> amount * bps <= amount * 10_000) by (nonlinear_arith)
        requires
            amount >= 0,
            bps >= 0,
    ;
}

/// A product fits if one with more basis points does.
pub proof fn product_fits_below(amount: int, small: int, large: int)
    requires
        amount >= 0,
        0 <= small <= large,
        bps_product_fits(amount, large),
    ensures
        bps_product_fits(amount, small),
{
    assert(0 <= amount * small <= amount * large) by (nonlinear_arith)
        requires
            amount >= 0,
            0 <= small <= large,
    ;
}

/// The shares of a list of basis points never add up to more than the basis
/// points give together.
pub proof fn shares_total_bounds(amount: int, list: Seq<u32>)
    requires
        amount >= 0,
    ensures
        0 <= shares_total(amount, list),
        0 <= bps_total(list),
        shares_total(amount, list) * 10_000 <= amount * bps_total(list),
    decreases list.len(),
{
    if list.len() > 0 {
        let head = list.drop_last();
        let bps = list.last() as int;
        shares_total_bounds(amount, head);
        share_bounds(amount, bps);
        assert(amount * (bps_total(head) + bps) == amount * bps_total(head) + amount * bps)
            by (nonlinear_arith);
    } else {
        assert(amount * 0 == 0) by (nonlinear_arith);
    }
}

/// Splits `amount` into completion shares.
pub fn compute_completion_split(amount: i128) -> (result: Result<SplitAmounts, Error>)
    ensures
        match completion_split_refusal(amount as int) {
            Some(e) => result == Err::<SplitAmounts, Error>(e),
            None => result == Ok::<SplitAmounts, Error>(completion_split(amount as int)),
        },
        result is Ok <==> amount > 0 && amount * 8000 <= i128::MAX,
        result == Err::<SplitAmounts, Error>(Error::InvalidAmount) <==> amount <= 0,
        result == Err::<SplitAmounts, Error>(Error::MathError) <==> amount > 0 && amount * 8000
            > i128::MAX,
        result matches Ok(s) ==> {
            &&& s.ops_amount == amount * 1000 / 10_000
            &&& s.review_amount == amount * 500 / 10_000
            &&& s.qa_amount == amount * 300 / 10_000
            &&& s.o2o_amount == amount * 200 / 10_000
            &&& s.host_amount == amount - s.ops_amount - s.review_amount - s.qa_amount
                - s.o2o_amount
        },
{
    if amount <= 0 {
        return Err(Error::InvalidAmount);
    }
    proof {
        share_bounds(amount as int, HOST_BPS as int);
        share_bounds(amount as int, OPS_BPS as int);
        share_bounds(amount as int, REVIEW_BPS as int);
        share_bounds(amount as int, QA_BPS as int);
        share_bounds(amount as int, O2O_BPS as int);
        if bps_product_fits(amount as int, HOST_BPS as int) {
            product_fits_below(amount as int, OPS_BPS as int, HOST_BPS as int);
            product_fits_below(amount as int, REVIEW_BPS as int, HOST_BPS as int);
            product_fits_below(amount as int, QA_BPS as int, HOST_BPS as int);
            product_fits_below(amount as int, O2O_BPS as int, HOST_BPS as int);
        }
    }

    let mut host_amount = bps_floor(amount, HOST_BPS)?;
    let ops_amount = bps_floor(amount, OPS_BPS)?;
    let review_amount = bps_floor(amount, REVIEW_BPS)?;
    let qa_amount = bps_floor(amount, QA_BPS)?;
    let o2o_amount = bps_floor(amount, O2O_BPS)?;

    let sum = checked_sum5(host_amount, ops_amount, review_amount, qa_amount, o2o_amount)?;
    let remainder = match amount.checked_sub(sum) {
        Some(v) => v,
        None => return Err(Error::MathError),
    };
    host_amount = match host_amount.checked_add(remainder) {
        Some(v) => v,
        None => return Err(Error::MathError),
    };

    let total = checked_sum5(host_amount, ops_amount, review_amount, qa_amount, o2o_amount)?;
    if total != amount {
        return Err(Error::MathError);
    }
    Ok(SplitAmounts { host_amount, ops_amount, review_amount, qa_amount, o2o_amount })
}

/// The sum of five amounts that are not negative.
pub(crate) fn checked_sum5(a: i128, b: i128, c: i128, d: i128, e: i128) -> (result: Result<
    i128,
    Error,
>)
    requires
        a >= 0,
        b >= 0,
        c >= 0,
        d >= 0,
        e >= 0,
    ensures
        result == (if a + b + c + d + e <= i128::MAX {
            Ok::<i128, Error>((a + b + c + d + e) as i128)
        } else {
            Err::<i128, Error>(Error::MathError)
        }),
{
    match a.checked_add(b) {
        Some(ab) => match ab.checked_add(c) {
            Some(abc) => match abc.checked_add(d) {
                Some(abcd) => match abcd.checked_add(e) {
                    Some(total) => Ok(total),
                    None => Err(Error::MathError),
                },
                None => Err(Error::MathError),
            },
            None => Err(Error::MathError),
        },
        None => Err(Error::MathError),
    }
}

/// Why an allocation of `amount` over `list` into `slots` slots is refused, if
/// it is.
pub open spec fn bps_amounts_refusal(amount: int, list: Seq<u32>, slots: nat) -> Option<Error> {
    if amount <= 0 {
        Some(Error::InvalidAmount)
    } else if list.len() == 0 || slots < list.len() || bps_total(list) != BPS_DENOM {
        Some(Error::InvalidBpsAllocation)
    } else if exists|i: int|
        0 <= i < list.len() && !bps_product_fits(amount, #[trigger] list[i] as int) {
        Some(Error::MathError)
    } else {
        None
    }
}

/// The allocation of `amount` over `list`, written over the front of `out`.
pub open spec fn bps_amounts_written(amount: int, list: Seq<u32>, out: Seq<i128>) -> Seq<i128> {
    Seq::new(
        out.len(),
        |i: int|
            if i < list.len() {
                allocated(amount, list, i) as i128
            } else {
                out[i]
            },
    )
}

/// The first `k` floored shares, written over the front of `out`.
pub open spec fn shares_written(amount: int, list: Seq<u32>, out: Seq<i128>, k: int) -> Seq<
    i128,
> {
    Seq::new(
        out.len(),
        |i: int|
            if i < k {
                bps_share(amount, list[i] as int) as i128
            } else {
                out[i]
            },
    )
}

/// Leaving off the last entries of a list never makes its total larger.
proof fn bps_total_of_prefix(list: Seq<u32>, k: int)
    requires
        0 <= k <= list.len(),
    ensures
        bps_total(list.take(k)) <= bps_total(list),
    decreases list.len(),
{
    if k == list.len() {
        assert(list.take(k) =~= list);
    } else {
        bps_total_of_prefix(list.drop_last(), k);
        assert(list.drop_last().take(k) =~= list.take(k));
    }
}

/// The shares of a prefix of a full list add up to at most the amount.
proof fn shares_of_prefix_fit(amount: int, list: Seq<u32>, k: int)
    requires
        amount >= 0,
        0 <= k <= list.len(),
        bps_total(list) == 10_000,
    ensures
        0 <= shares_total(amount, list.take(k)) <= amount,
{
    let head = list.take(k);
    shares_total_bounds(amount, head);
    bps_total_of_prefix(list, k);
    assert(amount * bps_total(head) <= amount * 10_000) by (nonlinear_arith)
        requires
            amount >= 0,
            0 <= bps_total(head) <= 10_000,
    ;
}

/// Leaving off the last entries of a list never makes its shares add up to more.
proof fn shares_of_prefix_below_total(amount: int, list: Seq<u32>, k: int)
    requires
        amount >= 0,
        0 <= k <= list.len(),
    ensures
        shares_total(amount, list.take(k)) <= shares_total(amount, list),
    decreases list.len(),
{
    if k == list.len() {
        assert(list.take(k) =~= list);
    } else {
        shares_of_prefix_below_total(amount, list.drop_last(), k);
        assert(list.drop_last().take(k) =~= list.take(k));
        share_bounds(amount, list.last() as int);
    }
}

/// The sum of six basis points, written out.
pub proof fn six_bps_total(a: u32, b: u32, c: u32, d: u32, e: u32, f: u32)
    ensures
        bps_total(seq![a, b, c, d, e, f]) == a + b + c + d + e + f,
{
    let list = seq![a, b, c, d, e, f];
    reveal_with_fuel(bps_total, 7);
    assert(list.drop_last() =~= seq![a, b, c, d, e]);
    assert(seq![a, b, c, d, e].drop_last() =~= seq![a, b, c, d]);
    assert(seq![a, b, c, d].drop_last() =~= seq![a, b, c]);
    assert(seq![a, b, c].drop_last() =~= seq![a, b]);
    assert(seq![a, b].drop_last() =~= seq![a]);
    assert(seq![a].drop_last() =~= Seq::<u32>::empty());
}

/// The product behind a share of a positive amount is not negative.
pub(crate) proof fn product_is_not_negative(amount: int, bps: int)
    requires
        amount >= 0,
        bps >= 0,
    ensures
        amount * bps >= 0,
{
    assert(amount * bps >= 0) by (nonlinear_arith)
        requires
            amount >= 0,
            bps >= 0,
    ;
}

/// One more entry adds one more share.
proof fn totals_step(amount: int, list: Seq<u32>, k: int)
    requires
        0 <= k < list.len(),
    ensures
        bps_total(list.take(k + 1)) == bps_total(list.take(k)) + list[k],
        shares_total(amount, list.take(k + 1)) == shares_total(amount, list.take(k)) + bps_share(
            amount,
            list[k] as int,
        ),
{
    assert(list.take(k + 1).drop_last() =~= list.take(k));
}

/// Fills `out` with `floor(amount * bps / 10_000)` for each entry of
/// `bps_list`; the remainder after flooring is added to `out[0]`. Returns the
/// number of shares written. Slots behind them keep what they held.
///
/// A refusal for the sizes or the total leaves `out` as it was; one for a
/// product that leaves the number range comes after the shares before it have
/// been written.
pub fn compute_bps_amounts(amount: i128, bps_list: &[u32], out: &mut [i128]) -> (result: Result<
    usize,
    Error,
>)
    ensures
        match bps_amounts_refusal(amount as int, bps_list@, old(out)@.len()) {
            Some(e) => {
                &&& result == Err::<usize, Error>(e)
                &&& e != Error::MathError ==> final(out)@ == old(out)@
                &&& e == Error::MathError ==> exists|k: int|
                    {
                        &&& 0 <= k < bps_list@.len()
                        &&& !bps_product_fits(amount as int, #[trigger] bps_list@[k] as int)
                        &&& forall|j: int|
                            0 <= j < k ==> bps_product_fits(
                                amount as int,
                                #[trigger] bps_list@[j] as int,
                            )
                        &&& final(out)@ == shares_written(amount as int, bps_list@, old(out)@, k)
                    }
            },
            None => {
                &&& result == Ok::<usize, Error>(bps_list@.len() as usize)
                &&& final(out)@ == bps_amounts_written(amount as int, bps_list@, old(out)@)
            },
        },
        final(out)@.len() == old(out)@.len(),
        result matches Ok(n) ==> {
            &&& n == bps_list@.len()
            &&& forall|i: int|
                1 <= i < n ==> #[trigger] final(out)@[i] == amount * bps_list@[i] / 10_000
            &&& amounts_total(final(out)@.take(n as int)) == amount
            &&& forall|i: int|
                n <= i < old(out)@.len() ==> #[trigger] final(out)@[i] == old(out)@[i]
        },
{
    if amount <= 0 {
        return Err(Error::InvalidAmount);
    }
    let n: usize = bps_list.len();
    if n == 0 || out.len() < n {
        return Err(Error::InvalidBpsAllocation);
    }
    let ghost list = bps_list@;
    let ghost before = out@;

    let mut total_bps: u32 = 0;
    let mut i: usize = 0;
    while i < n
        invariant
            i <= n,
            n == list.len(),
            list == bps_list@,
            total_bps == bps_total(list.take(i as int)),
            out@ == before,
            before == old(out)@,
            amount > 0,
            n > 0,
            before.len() >= n,
        decreases n - i,
    {
        proof {
            totals_step(amount as int, list, i as int);
            bps_total_of_prefix(list, i + 1);
        }
        total_bps = match total_bps.checked_add(bps_list[i]) {
            Some(v) => v,
            None => return Err(Error::InvalidBpsAllocation),
        };
        i = i + 1;
    }
    assert(list.take(n as int) =~= list);
    if total_bps != BPS_DENOM {
        return Err(Error::InvalidBpsAllocation);
    }

    let mut sum: i128 = 0;
    let mut i: usize = 0;
    while i < n
        invariant
            i <= n,
            n == list.len(),
            list == bps_list@,
            before == old(out)@,
            out@ == shares_written(amount as int, list, before, i as int),
            amount > 0,
            n > 0,
            before.len() >= n,
            bps_total(list) == BPS_DENOM,
            sum == shares_total(amount as int, list.take(i as int)),
            forall|j: int| 0 <= j < i ==> bps_product_fits(amount as int, #[trigger] list[j] as int),
        decreases n - i,
    {
        let share = match bps_floor(amount, bps_list[i]) {
            Ok(v) => v,
            Err(e) => {
                assert(!bps_product_fits(amount as int, list[i as int] as int));
                return Err(e);
            },
        };
        proof {
            totals_step(amount as int, list, i as int);
            shares_of_prefix_fit(amount as int, list, i + 1);
        }
        out[i] = share;
        assert(out@ =~= shares_written(amount as int, list, before, i + 1));
        sum = match sum.checked_add(share) {
            Some(v) => v,
            None => return Err(Error::MathError),
        };
        i = i + 1;
    }

    proof {
        assert(list.take(n as int) =~= list);
        shares_of_prefix_fit(amount as int, list, n as int);
        shares_of_prefix_fit(amount as int, list, 1);
        totals_step(amount as int, list, 0);
        assert(list.take(0) =~= Seq::<u32>::empty());
        share_bounds(amount as int, list[0] as int);
    }
    let remainder = match amount.checked_sub(sum) {
        Some(v) => v,
        None => return Err(Error::MathError),
    };
    let first: i128 = out[0];
    proof {
        shares_of_prefix_below_total(amount as int, list, 1);
    }
    out[0] = match first.checked_add(remainder) {
        Some(v) => v,
        None => return Err(Error::MathError),
    };
    assert(out@ =~= bps_amounts_written(amount as int, list, before));

    let mut check: i128 = 0;
    let mut i: usize = 0;
    while i < n
        invariant
            i <= n,
            n == list.len(),
            list == bps_list@,
            before == old(out)@,
            out@ == bps_amounts_written(amount as int, list, before),
            amount > 0,
            n > 0,
            before.len() >= n,
            bps_total(list) == BPS_DENOM,
            check == (if i == 0 {
                0
            } else {
                shares_total(amount as int, list.take(i as int)) + amount - shares_total(
                    amount as int,
                    list,
                )
            }),
            forall|j: int| 0 <= j < n ==> bps_product_fits(amount as int, #[trigger] list[j] as int),
            0 <= shares_total(amount as int, list) <= amount,
        decreases n - i,
    {
        proof {
            totals_step(amount as int, list, i as int);
            shares_of_prefix_fit(amount as int, list, i + 1);
            share_bounds(amount as int, list[i as int] as int);
            shares_of_prefix_below_total(amount as int, list, i + 1);
            assert(list.take(0) =~= Seq::<u32>::empty());
        }
        check = match check.checked_add(out[i]) {
            Some(v) => v,
            None => return Err(Error::MathError),
        };
        i = i + 1;
    }
    assert(list.take(n as int) =~= list);
    if check != amount {
        return Err(Error::MathError);
    }
    proof {
        assert(bps_amounts_refusal(amount as int, list, before.len()) is None);
        each_gets_the_own_share(amount, list, before);
    }
    Ok(n)
}

/// A completion split gives away exactly the amount; no share is negative, and
/// the host is paid the floor of the own share and at most four base units of
/// rounding on top.
pub proof fn completion_split_is_exact(amount: int)
    requires
        completion_split_refusal(amount) is None,
    ensures
        ({
            let s = completion_split(amount);
            &&& s.host_amount + s.ops_amount + s.review_amount + s.qa_amount + s.o2o_amount
                == amount
            &&& 0 <= s.ops_amount && 0 <= s.review_amount && 0 <= s.qa_amount && 0 <= s.o2o_amount
            &&& bps_share(amount, HOST_BPS as int) <= s.host_amount <= bps_share(
                amount,
                HOST_BPS as int,
            ) + 4
        }),
{
    share_bounds(amount, HOST_BPS as int);
    share_bounds(amount, OPS_BPS as int);
    share_bounds(amount, REVIEW_BPS as int);
    share_bounds(amount, QA_BPS as int);
    share_bounds(amount, O2O_BPS as int);
    assert(amount <= i128::MAX) by (nonlinear_arith)
        requires
            amount > 0,
            amount * 8000 <= i128::MAX,
    ;
}

/// The basis points of the completion split.
pub open spec fn completion_bps() -> Seq<u32> {
    seq![HOST_BPS, OPS_BPS, REVIEW_BPS, QA_BPS, O2O_BPS]
}

/// The basis points of the completion split sum to the whole, and the split is
/// the allocation over them, with the host first.
pub proof fn completion_split_is_the_allocation(amount: int)
    requires
        completion_split_refusal(amount) is None,
    ensures
        bps_total(completion_bps()) == BPS_DENOM,
        ({
            let s = completion_split(amount);
            &&& s.host_amount == allocated(amount, completion_bps(), 0)
            &&& s.ops_amount == allocated(amount, completion_bps(), 1)
            &&& s.review_amount == allocated(amount, completion_bps(), 2)
            &&& s.qa_amount == allocated(amount, completion_bps(), 3)
            &&& s.o2o_amount == allocated(amount, completion_bps(), 4)
        }),
{
    let list = completion_bps();
    completion_split_is_exact(amount);
    assert(list.take(0) =~= Seq::<u32>::empty());
    assert(list.take(5) =~= list);
    totals_step(amount, list, 0);
    totals_step(amount, list, 1);
    totals_step(amount, list, 2);
    totals_step(amount, list, 3);
    totals_step(amount, list, 4);
}

/// An allocation over basis points gives away exactly the amount, and each
/// entry gets something between nothing and the whole of it.
pub proof fn bps_allocation_is_exact(amount: i128, list: Seq<u32>, out: Seq<i128>)
    requires
        bps_amounts_refusal(amount as int, list, out.len()) is None,
    ensures
        amounts_total(bps_amounts_written(amount as int, list, out).take(list.len() as int))
            == amount,
        forall|i: int|
            0 <= i < list.len() ==> 0 <= #[trigger] bps_amounts_written(
                amount as int,
                list,
                out,
            )[i] <= amount,
{
    let written = bps_amounts_written(amount as int, list, out);
    assert(list.take(list.len() as int) =~= list);
    shares_of_prefix_fit(amount as int, list, list.len() as int);
    allocation_total(amount as int, list, out, list.len() as int);
    assert forall|i: int| 0 <= i < list.len() implies 0 <= #[trigger] written[i] <= amount by {
        entry_is_allocated(amount as int, list, i);
    }
}

/// Sums are sums: each starts at nothing and grows by what is put behind.
pub proof fn sums_grow_by_what_is_added(
    amount: int,
    bps: Seq<u32>,
    next_bps: u32,
    amounts: Seq<i128>,
    next_amount: i128,
)
    ensures
        bps_total(Seq::empty()) == 0,
        bps_total(bps.push(next_bps)) == bps_total(bps) + next_bps,
        amounts_total(Seq::empty()) == 0,
        amounts_total(amounts.push(next_amount)) == amounts_total(amounts) + next_amount,
        shares_total(amount, Seq::empty()) == 0,
        amount >= 0 ==> shares_total(amount, bps.push(next_bps)) == shares_total(amount, bps)
            + amount * next_bps / 10_000,
{
    assert(bps.push(next_bps).drop_last() =~= bps);
    assert(amounts.push(next_amount).drop_last() =~= amounts);
}

/// A share is the amount times the basis points over 10_000, rounded towards zero, and
/// can be computed whenever that product is a number.
pub proof fn share_is_the_floor(amount: int, bps: int)
    requires
        bps >= 0,
    ensures
        amount >= 0 ==> bps_share(amount, bps) == amount * bps / 10_000,
        amount < 0 ==> bps_share(amount, bps) == -((-amount) * bps / 10_000),
        bps_product_fits(amount, bps) <==> i128::MIN <= amount * bps <= i128::MAX,
{
}

/// The completion split of an amount: operations, review, QA and O2O get 10%, 5%, 3% and
/// 2% of it, each rounded down, and the host gets the rest, at least 80%. It is refused
/// exactly where the amount is not positive or 8000 times the amount is no number.
pub proof fn completion_split_is_80_10_5_3_2(amount: i128)
    ensures
        completion_split_refusal(amount as int) is None <==> amount > 0 && amount * 8000
            <= i128::MAX,
        completion_split_refusal(amount as int) == Some(Error::InvalidAmount) <==> amount <= 0,
        completion_split_refusal(amount as int) == Some(Error::MathError) <==> amount > 0 && amount
            * 8000 > i128::MAX,
        amount > 0 ==> {
            let s = completion_split(amount as int);
            &&& s.ops_amount == amount * 1000 / 10_000
            &&& s.review_amount == amount * 500 / 10_000
            &&& s.qa_amount == amount * 300 / 10_000
            &&& s.o2o_amount == amount * 200 / 10_000
            &&& s.host_amount == amount - s.ops_amount - s.review_amount - s.qa_amount
                - s.o2o_amount
            &&& s.host_amount * 100 >= amount * 80
        },
{
}

/// In an allocation over basis points every entry but the first gets exactly its own
/// share, rounded down; the first gets the rest, which is its own share and less than one
/// base unit of rounding for each entry; and what lies behind the entries is not touched.
pub proof fn each_gets_the_own_share(amount: i128, list: Seq<u32>, out: Seq<i128>)
    requires
        amount > 0,
        0 < list.len() <= out.len(),
        bps_total(list) == 10_000,
    ensures
        ({
            let written = bps_amounts_written(amount as int, list, out);
            &&& written.len() == out.len()
            &&& forall|i: int|
                1 <= i < list.len() ==> #[trigger] written[i] == amount * list[i] / 10_000
            &&& amounts_total(written.take(list.len() as int)) == amount
            &&& amount * list[0] / 10_000 <= written[0] <= amount
            &&& forall|i: int| list.len() <= i < out.len() ==> #[trigger] written[i] == out[i]
        }),
{
    let written = bps_amounts_written(amount as int, list, out);
    assert(list.take(list.len() as int) =~= list);
    shares_of_prefix_fit(amount as int, list, list.len() as int);
    allocation_total(amount as int, list, out, list.len() as int);
    assert forall|i: int| 1 <= i < list.len() implies #[trigger] written[i] == amount * list[i]
        / 10_000 by {
        entry_is_allocated(amount as int, list, i);
    }
    entry_is_allocated(amount as int, list, 0);
}

/// An allocation is refused exactly where the amount is not positive, where there is no
/// entry or no room for all of them or they do not sum to 10_000 basis points, or where one
/// of the products is no number.
pub proof fn allocation_is_refused_for_these(amount: i128, list: Seq<u32>, slots: nat)
    ensures
        ({
            let refusal = bps_amounts_refusal(amount as int, list, slots);
            let full = 0 < list.len() <= slots && bps_total(list) == 10_000;
            let fits = forall|i: int|
                0 <= i < list.len() ==> amount * (#[trigger] list[i]) <= i128::MAX;
            &&& refusal is None <==> amount > 0 && full && fits
            &&& refusal == Some(Error::InvalidAmount) <==> amount <= 0
            &&& refusal == Some(Error::InvalidBpsAllocation) <==> amount > 0 && !full
            &&& refusal == Some(Error::MathError) <==> amount > 0 && full && !fits
        }),
{
    if amount > 0 {
        assert forall|i: int| 0 <= i < list.len() implies (amount * (#[trigger] list[i])
            <= i128::MAX <==> bps_product_fits(amount as int, list[i] as int)) by {
            product_is_not_negative(amount as int, list[i] as int);
        }
        if forall|i: int| 0 <= i < list.len() ==> amount * (#[trigger] list[i]) <= i128::MAX {
            assert forall|i: int| 0 <= i < list.len() implies bps_product_fits(
                amount as int,
                #[trigger] list[i] as int,
            ) by {
                assert(amount * list[i] <= i128::MAX);
            }
        }
    }
}

/// Where an allocation breaks off, the first entries hold their own shares, rounded down,
/// and the others are as they were.
pub proof fn broken_off_allocation_holds_shares(
    amount: i128,
    list: Seq<u32>,
    out: Seq<i128>,
    k: int,
)
    requires
        amount > 0,
        0 <= k < list.len() <= out.len(),
        forall|i: int| 0 <= i < k ==> amount * (#[trigger] list[i]) <= i128::MAX,
    ensures
        ({
            let written = shares_written(amount as int, list, out, k);
            &&& written.len() == out.len()
            &&& forall|i: int| 0 <= i < k ==> #[trigger] written[i] == amount * list[i] / 10_000
            &&& forall|i: int| k <= i < out.len() ==> #[trigger] written[i] == out[i]
        }),
{
    let written = shares_written(amount as int, list, out, k);
    assert forall|i: int| 0 <= i < k implies #[trigger] written[i] == amount * list[i] / 10_000 by {
        assert(amount * list[i] <= i128::MAX);
        share_bounds(amount as int, list[i] as int);
    }
}

/// An entry of an allocation lies between nothing and the amount, and an entry
/// behind the first is a plain share.
proof fn entry_is_allocated(amount: int, list: Seq<u32>, i: int)
    requires
        amount >= 0,
        0 <= i < list.len(),
        bps_total(list) == 10_000,
    ensures
        0 <= allocated(amount, list, i) <= amount,
{
    assert(list.take(list.len() as int) =~= list);
    shares_of_prefix_fit(amount, list, list.len() as int);
    shares_of_prefix_fit(amount, list, i);
    totals_step(amount, list, i);
    shares_of_prefix_below_total(amount, list, i + 1);
    share_bounds(amount, list[i] as int);
    assert(list.take(0) =~= Seq::<u32>::empty());
}

/// The first `k` entries of an allocation add up to their shares and, where
/// there is a first entry, the remainder.
proof fn allocation_total(amount: int, list: Seq<u32>, out: Seq<i128>, k: int)
    requires
        0 <= amount <= i128::MAX,
        0 <= k <= list.len(),
        list.len() <= out.len(),
        bps_total(list) == 10_000,
    ensures
        amounts_total(bps_amounts_written(amount, list, out).take(k)) == shares_total(
            amount,
            list.take(k),
        ) + if k == 0 {
            0
        } else {
            amount - shares_total(amount, list)
        },
    decreases k,
{
    let written = bps_amounts_written(amount, list, out);
    if k > 0 {
        allocation_total(amount, list, out, k - 1);
        totals_step(amount, list, k - 1);
        entry_is_allocated(amount, list, k - 1);
        assert(written.take(k).drop_last() =~= written.take(k - 1));
    } else {
        assert(written.take(0) =~= Seq::<i128>::empty());
        assert(list.take(0) =~= Seq::<u32>::empty());
    }
}

} // verus!
