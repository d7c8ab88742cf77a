use stello_booking::env::{Effect, Env};
use stello_booking::errors::Error;
use stello_booking::storage::{
    booking_ref_exists, bump_instance_ttl, decrease_total_escrowed, get_booking,
    get_booking_id_by_ref, get_cancel_settlement, get_claimable, get_config, get_total_escrowed,
    increase_total_escrowed, next_booking_id, peek_next_booking_id, require_booking,
    require_booking_id_by_ref, require_config, set_booking, set_booking_ref_index,
    set_cancel_settlement, set_claimable, set_config, set_total_escrowed, DataKey,
};
use stello_booking::types::{
    Address, Booking, BookingState, Bytes32, CancelSettlement, CancelledBy, Config,
};

fn addr(id: u64) -> Address {
    Address { id }
}

fn reference(byte: u8) -> Bytes32 {
    Bytes32 { bytes: [byte; 32] }
}

fn booking(id: u64, booking_ref: Bytes32) -> Booking {
    Booking {
        booking_id: id,
        booking_ref,
        service_ref: reference(9),
        traveller: addr(1),
        host: addr(2),
        amount: 100,
        token: addr(3),
        start_time: 50,
        created_at: 5,
        state: BookingState::Created,
        escrow_locked: false,
        escrow_amount: 0,
        checked_in: false,
        settled: false,
        was_cancelled: false,
        cancelled_by: CancelledBy::Nobody,
    }
}

const INSTANCE: Effect = Effect::ExtendInstance { threshold: 100_000, extend_to: 500_000 };

fn kept(key: DataKey) -> Effect {
    Effect::ExtendEntry { key, threshold: 100_000, extend_to: 500_000 }
}

#[test]
fn numbers_are_given_out_in_turn() {
    let mut env = Env::new(addr(0), 0);
    assert_eq!(peek_next_booking_id(&env), 1);
    assert_eq!(next_booking_id(&mut env), 1);
    assert_eq!(peek_next_booking_id(&env), 2);
    assert_eq!(next_booking_id(&mut env), 2);
    assert_eq!(next_booking_id(&mut env), 3);
    assert_eq!(env.effects[..2], [Effect::Store(DataKey::NextBookingId), INSTANCE]);
}

#[test]
fn config_is_read_back() {
    let mut env = Env::new(addr(0), 0);
    assert_eq!(get_config(&env), None);
    assert_eq!(require_config(&mut env), Err(Error::NotInitialized));
    assert!(env.effects.is_empty());
    let config = Config {
        stello_wallet: addr(1),
        token: addr(2),
        ops_pool: addr(3),
        review_pool: addr(4),
        qa_pool: addr(5),
        o2o_pool: addr(6),
        host_cancel_fee: 7,
    };
    set_config(&mut env, &config);
    assert_eq!(require_config(&mut env), Ok(config));
    assert_eq!(env.effects, vec![Effect::Store(DataKey::Config), INSTANCE, INSTANCE]);
}

#[test]
fn total_escrowed_is_accounted() {
    let mut env = Env::new(addr(0), 0);
    assert_eq!(get_total_escrowed(&env), 0);
    assert_eq!(increase_total_escrowed(&mut env, 30), Ok(()));
    assert_eq!(decrease_total_escrowed(&mut env, 10), Ok(()));
    assert_eq!(get_total_escrowed(&env), 20);
    assert_eq!(increase_total_escrowed(&mut env, -1), Err(Error::InvalidAmount));
    assert_eq!(decrease_total_escrowed(&mut env, -1), Err(Error::InvalidAmount));
    set_total_escrowed(&mut env, i128::MAX);
    assert_eq!(increase_total_escrowed(&mut env, 1), Err(Error::MathError));
    set_total_escrowed(&mut env, i128::MIN);
    assert_eq!(decrease_total_escrowed(&mut env, 1), Err(Error::MathError));
    assert_eq!(get_total_escrowed(&env), i128::MIN);
}

#[test]
fn bookings_are_read_back_and_kept_alive() {
    let mut env = Env::new(addr(0), 0);
    assert_eq!(get_booking(&env, 4), None);
    assert_eq!(require_booking(&mut env, 4), Err(Error::BookingNotFound));
    let b = booking(4, reference(1));
    set_booking(&mut env, &b);
    assert_eq!(
        env.effects,
        vec![Effect::Store(DataKey::Booking(4)), kept(DataKey::Booking(4)), INSTANCE]
    );
    env.effects.clear();
    assert_eq!(require_booking(&mut env, 4), Ok(b));
    assert_eq!(env.effects, vec![kept(DataKey::Booking(4)), INSTANCE]);
}

#[test]
fn references_find_their_booking() {
    let mut env = Env::new(addr(0), 0);
    let r = reference(1);
    assert!(!booking_ref_exists(&env, &r));
    assert_eq!(get_booking_id_by_ref(&env, &r), None);
    assert_eq!(require_booking_id_by_ref(&mut env, &r), Err(Error::BookingNotFound));

    set_booking_ref_index(&mut env, &r, 4);
    assert_eq!(
        env.effects,
        vec![Effect::Store(DataKey::BookingRef(r)), kept(DataKey::BookingRef(r)), INSTANCE]
    );
    assert!(booking_ref_exists(&env, &r));
    assert!(!booking_ref_exists(&env, &reference(2)));
    // the entry alone is not enough: the booking must exist
    assert_eq!(require_booking_id_by_ref(&mut env, &r), Err(Error::BookingNotFound));

    set_booking(&mut env, &booking(4, r));
    env.effects.clear();
    assert_eq!(require_booking_id_by_ref(&mut env, &r), Ok(4));
    // the booking and its reference entry are extended under the same policy
    assert_eq!(
        env.effects,
        vec![kept(DataKey::Booking(4)), kept(DataKey::BookingRef(r)), INSTANCE]
    );

    set_booking_ref_index(&mut env, &r, 5);
    assert_eq!(get_booking_id_by_ref(&env, &r), Some(5));
}

#[test]
fn settlements_and_claims_are_read_back() {
    let mut env = Env::new(addr(0), 0);
    let s = CancelSettlement { traveller_amount: 1, host_amount: 2, ops_amount: 3 };
    assert_eq!(get_cancel_settlement(&mut env, 8), None);
    assert!(env.effects.is_empty());
    set_cancel_settlement(&mut env, 8, &s);
    assert_eq!(get_cancel_settlement(&mut env, 8), Some(s));
    let extended = Effect::ExtendEntry {
        key: DataKey::CancelSettlement(8),
        threshold: 50_000,
        extend_to: 200_000,
    };
    assert_eq!(
        env.effects,
        vec![Effect::Store(DataKey::CancelSettlement(8)), extended, extended]
    );

    assert_eq!(get_claimable(&env, &addr(1)), 0);
    set_claimable(&mut env, &addr(1), 40);
    assert_eq!(get_claimable(&env, &addr(1)), 40);
    assert_eq!(get_claimable(&env, &addr(2)), 0);
}

#[test]
fn instance_lifetime_is_extended() {
    let mut env = Env::new(addr(0), 0);
    bump_instance_ttl(&mut env);
    assert_eq!(env.effects, vec![INSTANCE]);
}

#[test]
fn zero_reference_holds_zeros() {
    assert_eq!(Bytes32::zero().bytes, [0u8; 32]);
    assert!(Bytes32::zero().same(&reference(0)));
    let mut other = reference(0);
    other.bytes[31] = 1;
    assert!(!Bytes32::zero().same(&other));
}
