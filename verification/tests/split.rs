use stello_booking::errors::Error;
use stello_booking::split::{bps_floor, compute_bps_amounts, compute_completion_split};
use stello_booking::types::{HOST_BPS, O2O_BPS, OPS_BPS, QA_BPS, REVIEW_BPS};

fn assert_sums_to(amount: i128) {
    let s = compute_completion_split(amount).unwrap();
    assert_eq!(
        s.host_amount + s.ops_amount + s.review_amount + s.qa_amount + s.o2o_amount,
        amount
    );
}

#[test]
fn split_100_units() {
    let s = compute_completion_split(100).unwrap();
    assert_eq!(s.host_amount, 80);
    assert_eq!(s.ops_amount, 10);
    assert_eq!(s.review_amount, 5);
    assert_eq!(s.qa_amount, 3);
    assert_eq!(s.o2o_amount, 2);
}

#[test]
fn split_50_remainder_to_host() {
    let s = compute_completion_split(50).unwrap();
    assert_eq!(s.host_amount, 41);
    assert_eq!(s.ops_amount, 5);
    assert_eq!(s.review_amount, 2);
    assert_eq!(s.qa_amount, 1);
    assert_eq!(s.o2o_amount, 1);
    assert_sums_to(50);
}

#[test]
fn split_dust() {
    assert_sums_to(1);
    assert_sums_to(3);
    assert_sums_to(7);
    assert_sums_to(99);
}

#[test]
fn rejects_non_positive() {
    assert_eq!(compute_completion_split(0), Err(Error::InvalidAmount));
    assert_eq!(compute_completion_split(-1), Err(Error::InvalidAmount));
}

#[test]
fn dispute_bps_must_sum_10000() {
    let mut out = [0i128; 4];
    let n = compute_bps_amounts(100, &[5000, 5000], &mut out).unwrap();
    assert_eq!(n, 2);
    assert_eq!(&out[..2], &[50, 50]);

    let n = compute_bps_amounts(100, &[8000, 1000, 1000], &mut out).unwrap();
    assert_eq!(n, 3);
    assert_eq!(&out[..3], &[80, 10, 10]);

    assert_eq!(
        compute_bps_amounts(100, &[5000, 4000], &mut out),
        Err(Error::InvalidBpsAllocation)
    );
}

#[test]
fn host_rounding_is_at_most_four_units() {
    for amount in 1..2_000i128 {
        let s = compute_completion_split(amount).unwrap();
        let floor = bps_floor(amount, 8000).unwrap();
        assert!(floor <= s.host_amount && s.host_amount <= floor + 4);
        assert_sums_to(amount);
    }
}

#[test]
fn split_refuses_what_leaves_the_number_range() {
    let largest = i128::MAX / 8000;
    assert!(compute_completion_split(largest).is_ok());
    assert_eq!(compute_completion_split(largest + 1), Err(Error::MathError));
}

#[test]
fn floor_rounds_towards_zero() {
    assert_eq!(bps_floor(99, 1000), Ok(9));
    assert_eq!(bps_floor(-99, 1000), Ok(-9));
    assert_eq!(bps_floor(0, 1000), Ok(0));
    assert_eq!(bps_floor(i128::MAX, 1), Ok(i128::MAX / 10_000));
    assert_eq!(bps_floor(i128::MAX, 2), Err(Error::MathError));
    assert_eq!(bps_floor(i128::MIN, 2), Err(Error::MathError));
}

#[test]
fn allocation_remainder_goes_to_the_first() {
    let mut out = [7i128; 4];
    assert_eq!(compute_bps_amounts(10, &[3333, 3333, 3334], &mut out), Ok(3));
    assert_eq!(out, [4, 3, 3, 7]);
}

#[test]
fn allocation_refusals() {
    let mut out = [7i128; 2];
    assert_eq!(compute_bps_amounts(0, &[10_000], &mut out), Err(Error::InvalidAmount));
    assert_eq!(compute_bps_amounts(1, &[], &mut out), Err(Error::InvalidBpsAllocation));
    assert_eq!(
        compute_bps_amounts(1, &[5000, 2500, 2500], &mut out),
        Err(Error::InvalidBpsAllocation)
    );
    assert_eq!(
        compute_bps_amounts(1, &[u32::MAX, 10_001], &mut out),
        Err(Error::InvalidBpsAllocation)
    );
    assert_eq!(out, [7, 7]);

    // the share of the first entry fits, that of the second does not
    let amount = i128::MAX / 2;
    assert_eq!(compute_bps_amounts(amount, &[1, 9_999], &mut out), Err(Error::MathError));
    assert_eq!(out, [amount / 10_000, 7]);
}

#[test]
fn completion_split_is_the_allocation_with_the_host_first() {
    for amount in [1i128, 7, 50, 99, 100, 12_345, 100_000_001] {
        let split = compute_completion_split(amount).unwrap();
        let list = [HOST_BPS, OPS_BPS, REVIEW_BPS, QA_BPS, O2O_BPS];
        let mut out = [0i128; 5];
        assert_eq!(compute_bps_amounts(amount, &list, &mut out), Ok(5));
        assert_eq!(
            out,
            [
                split.host_amount,
                split.ops_amount,
                split.review_amount,
                split.qa_amount,
                split.o2o_amount,
            ]
        );
    }
}
