use stello_booking::errors::Error;
use stello_booking::refund::compute_refund;
use stello_booking::types::{CancelledBy, FOUR_WEEKS, TWO_WEEKS};

#[test]
fn host_cancel_full_refund() {
    let s = compute_refund(100, 1_000_000, 0, CancelledBy::Host).unwrap();
    assert_eq!(s.traveller_amount, 100);
    assert_eq!(s.host_amount, 0);
    assert_eq!(s.ops_amount, 0);
}

#[test]
fn ge_four_weeks() {
    let s = compute_refund(100, FOUR_WEEKS + 100, 0, CancelledBy::Traveller).unwrap();
    assert_eq!(s.traveller_amount, 70);
    assert_eq!(s.host_amount, 15);
    assert_eq!(s.ops_amount, 15);
}

#[test]
fn exactly_four_weeks() {
    let s = compute_refund(100, FOUR_WEEKS, 0, CancelledBy::Traveller).unwrap();
    assert_eq!(s.traveller_amount, 70);
}

#[test]
fn just_below_four_weeks() {
    let s = compute_refund(100, FOUR_WEEKS - 1, 0, CancelledBy::Traveller).unwrap();
    assert_eq!(s.traveller_amount, 50);
    assert_eq!(s.host_amount, 35);
    assert_eq!(s.ops_amount, 15);
}

#[test]
fn exactly_two_weeks() {
    let s = compute_refund(100, TWO_WEEKS, 0, CancelledBy::Traveller).unwrap();
    assert_eq!(s.traveller_amount, 50);
}

#[test]
fn just_below_two_weeks() {
    let s = compute_refund(100, TWO_WEEKS - 1, 0, CancelledBy::Traveller).unwrap();
    assert_eq!(s.traveller_amount, 0);
    assert_eq!(s.host_amount, 80);
    assert_eq!(s.ops_amount, 20);
}

#[test]
fn amounts_sum() {
    for amount in [1i128, 3, 7, 50, 99, 100, 10_000] {
        for &delta in &[0u64, TWO_WEEKS - 1, TWO_WEEKS, FOUR_WEEKS - 1, FOUR_WEEKS] {
            let s = compute_refund(amount, delta, 0, CancelledBy::Traveller).unwrap();
            assert_eq!(
                s.traveller_amount + s.host_amount + s.ops_amount,
                amount
            );
        }
    }
}

#[test]
fn remainder_goes_to_operations() {
    // floors 34 + 7 + 7 = 48 of 49, remainder 1 to operations
    let s = compute_refund(49, FOUR_WEEKS, 0, CancelledBy::Traveller).unwrap();
    assert_eq!(s.traveller_amount, 34);
    assert_eq!(s.host_amount, 7);
    assert_eq!(s.ops_amount, 8);
}

#[test]
fn start_in_the_past_counts_as_no_time_left() {
    let s = compute_refund(100, 5, 1_000, CancelledBy::Traveller).unwrap();
    assert_eq!((s.traveller_amount, s.host_amount, s.ops_amount), (0, 80, 20));
}

#[test]
fn refund_refusals() {
    assert_eq!(compute_refund(0, 5, 1, CancelledBy::Host), Err(Error::InvalidAmount));
    assert_eq!(compute_refund(-4, 5, 1, CancelledBy::Traveller), Err(Error::InvalidAmount));
    assert_eq!(compute_refund(100, 5, 1, CancelledBy::Nobody), Err(Error::InvalidAmount));
    assert_eq!(
        compute_refund(i128::MAX, 5, 1, CancelledBy::Traveller),
        Err(Error::MathError)
    );
    assert!(compute_refund(i128::MAX, 5, 1, CancelledBy::Host).is_ok());
}

#[test]
fn earlier_cancellation_never_refunds_less() {
    let start = FOUR_WEEKS * 2;
    let mut last = i128::MAX;
    for now in [0, FOUR_WEEKS, FOUR_WEEKS + 1, FOUR_WEEKS + TWO_WEEKS, start, start + 9] {
        let s = compute_refund(1_003, start, now, CancelledBy::Traveller).unwrap();
        assert!(s.traveller_amount <= last);
        last = s.traveller_amount;
    }
    assert_eq!(last, 0);
}
