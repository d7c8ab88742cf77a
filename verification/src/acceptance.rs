//! When a call goes through and when it is refused, in terms of its arguments, the
//! signatures, the time and the entries as they stand.
use vstd::prelude::*;

use crate::contract;
use crate::env::EnvView;
use crate::errors::Error;
use crate::laws;
use crate::split;
use crate::types::{Address, BookingState, Config};

verus! {

/// `initialize` goes through exactly once, with a fee that is not negative and the
/// signature of the wallet that it names.
pub proof fn initialize_is_accepted_once(env: EnvView, config: Config)
    ensures
        ({
            let refusal = contract::initialize_refusal(env, config);
            let signed = env.signers.contains(config.stello_wallet);
            &&& refusal is None <==> env.config is None && config.host_cancel_fee >= 0 && signed
            &&& refusal == Some(Error::AlreadyInitialized) <==> env.config is Some
            &&& refusal == Some(Error::InvalidAmount) <==> env.config is None
                && config.host_cancel_fee < 0
            &&& refusal == Some(Error::Unauthorized) <==> env.config is None
                && config.host_cancel_fee >= 0 && !signed
        }),
{
}

/// With a configuration and the Stello wallet's signature, a booking of two different
/// parties, a positive amount and any start time that lies ahead is never refused; any
/// other is, with the error of the first of these that is missing.
pub proof fn book_is_accepted_for_any_start_ahead(
    env: EnvView,
    traveller: Address,
    host: Address,
    amount: i128,
    start_time: u64,
)
    ensures
        ({
            let refusal = contract::book_refusal(env, traveller, host, amount, start_time);
            let signed = env.signers.contains(env.config.unwrap().stello_wallet);
            let allowed = env.config is Some && signed;
            &&& refusal is None <==> allowed && traveller != host && amount > 0 && start_time
                > env.timestamp
            &&& refusal == Some(Error::NotInitialized) <==> env.config is None
            &&& refusal == Some(Error::Unauthorized) <==> env.config is Some && !signed
            &&& refusal == Some(Error::InvalidAddress) <==> allowed && traveller == host
            &&& refusal == Some(Error::InvalidAmount) <==> allowed && traveller != host && amount
                <= 0
            &&& refusal == Some(Error::InvalidStartTime) <==> allowed && traveller != host && amount
                > 0 && start_time <= env.timestamp
        }),
{
}

/// The terms of a booking can be changed to any that it could have been booked with,
/// while it is `Created` and nothing is locked, and at no other time.
pub proof fn update_is_accepted_before_escrow(
    env: EnvView,
    id: u64,
    host: Address,
    amount: i128,
    start_time: u64,
)
    ensures
        ({
            let refusal = contract::update_booking_refusal(env, id, host, amount, start_time);
            let signed = env.signers.contains(env.config.unwrap().stello_wallet);
            let allowed = env.config is Some && signed && env.bookings.contains_key(id);
            let b = env.bookings[id];
            let open = allowed && b.state == BookingState::Created && !b.escrow_locked;
            &&& refusal is None <==> open && host != b.traveller && amount > 0 && start_time
                > env.timestamp
            &&& refusal == Some(Error::NotInitialized) <==> env.config is None
            &&& refusal == Some(Error::Unauthorized) <==> env.config is Some && !signed
            &&& refusal == Some(Error::BookingNotFound) <==> env.config is Some && signed
                && !env.bookings.contains_key(id)
            &&& refusal == Some(Error::InvalidUpdate) <==> allowed && !open
            &&& refusal == Some(Error::InvalidAddress) <==> open && host == b.traveller
            &&& refusal == Some(Error::InvalidAmount) <==> open && host != b.traveller && amount
                <= 0
            &&& refusal == Some(Error::InvalidStartTime) <==> open && host != b.traveller && amount
                > 0 && start_time <= env.timestamp
        }),
{
}

/// An escrow is locked for exactly the amount of a booking that is `Created`, whenever
/// the Stello wallet and the traveller both sign, and for no other amount.
pub proof fn lock_is_accepted_for_the_amount(env: EnvView, id: u64, amount: i128)
    ensures
        ({
            let refusal = contract::lock_escrow_refusal(env, id, amount);
            let config = env.config.unwrap();
            let signed = env.signers.contains(config.stello_wallet);
            let allowed = env.config is Some && signed && env.bookings.contains_key(id);
            let b = env.bookings[id];
            let created = allowed && b.state == BookingState::Created;
            let open = created && !b.escrow_locked && b.escrow_amount == 0;
            let exact = open && amount > 0 && amount == b.amount;
            &&& refusal is None <==> exact && b.token == config.token && env.signers.contains(
                b.traveller,
            )
            &&& refusal == Some(Error::NotInitialized) <==> env.config is None
            &&& refusal == Some(Error::Unauthorized) <==> env.config is Some && !signed || exact
                && b.token == config.token && !env.signers.contains(b.traveller)
            &&& refusal == Some(Error::BookingNotFound) <==> env.config is Some && signed
                && !env.bookings.contains_key(id)
            &&& refusal == Some(Error::InvalidStateTransition) <==> allowed && !created
            &&& refusal == Some(Error::EscrowAlreadyLocked) <==> created && !open
            &&& refusal == Some(Error::InvalidAmount) <==> open && !exact
            &&& refusal == Some(Error::InvalidToken) <==> exact && b.token != config.token
        }),
{
}

/// A booking in escrow can be checked in at any time, and no other can.
pub proof fn check_in_is_accepted_in_escrow(env: EnvView, id: u64)
    ensures
        ({
            let refusal = contract::check_in_refusal(env, id);
            let signed = env.signers.contains(env.config.unwrap().stello_wallet);
            let allowed = env.config is Some && signed && env.bookings.contains_key(id);
            let b = env.bookings[id];
            &&& refusal is None <==> allowed && b.state == BookingState::Escrowed
                && b.escrow_locked
            &&& refusal == Some(Error::NotInitialized) <==> env.config is None
            &&& refusal == Some(Error::Unauthorized) <==> env.config is Some && !signed
            &&& refusal == Some(Error::BookingNotFound) <==> env.config is Some && signed
                && !env.bookings.contains_key(id)
            &&& refusal == Some(Error::InvalidStateTransition) <==> allowed && b.state
                != BookingState::Escrowed
            &&& refusal == Some(Error::EscrowNotLocked) <==> allowed && b.state
                == BookingState::Escrowed && !b.escrow_locked
        }),
{
}

/// A booking that was checked in can be completed at any time, and no other can.
pub proof fn complete_is_accepted_after_check_in(env: EnvView, id: u64)
    ensures
        ({
            let refusal = contract::complete_refusal(env, id);
            let signed = env.signers.contains(env.config.unwrap().stello_wallet);
            let allowed = env.config is Some && signed && env.bookings.contains_key(id);
            let b = env.bookings[id];
            let ready = b.state == BookingState::CheckedIn && b.escrow_locked && b.checked_in;
            &&& refusal is None <==> allowed && ready
            &&& refusal == Some(Error::NotInitialized) <==> env.config is None
            &&& refusal == Some(Error::Unauthorized) <==> env.config is Some && !signed
            &&& refusal == Some(Error::BookingNotFound) <==> env.config is Some && signed
                && !env.bookings.contains_key(id)
            &&& refusal == Some(Error::InvalidStateTransition) <==> allowed && !ready
        }),
{
}

/// A completed booking can be split whenever it is not settled, holds an escrow, and
/// 8000 times the escrow is still a number.
pub proof fn split_is_accepted_once_completed(env: EnvView, id: u64)
    ensures
        ({
            let refusal = contract::execute_split_refusal(env, id);
            let signed = env.signers.contains(env.config.unwrap().stello_wallet);
            let allowed = env.config is Some && signed && env.bookings.contains_key(id);
            let b = env.bookings[id];
            let completed = allowed && b.state == BookingState::Completed;
            let open = completed && !b.settled;
            &&& refusal is None <==> open && b.escrow_amount > 0 && b.escrow_amount * 8000
                <= i128::MAX
            &&& refusal == Some(Error::NotInitialized) <==> env.config is None
            &&& refusal == Some(Error::Unauthorized) <==> env.config is Some && !signed
            &&& refusal == Some(Error::BookingNotFound) <==> env.config is Some && signed
                && !env.bookings.contains_key(id)
            &&& refusal == Some(Error::InvalidStateTransition) <==> allowed && !completed
            &&& refusal == Some(Error::AlreadySettled) <==> completed && b.settled
            &&& refusal == Some(Error::InvalidAmount) <==> open && b.escrow_amount <= 0
            &&& refusal == Some(Error::MathError) <==> open && b.escrow_amount > 0
                && b.escrow_amount * 8000 > i128::MAX
        }),
{
}

/// A traveller's cancellation of a booking in escrow goes through at whatever time it
/// comes, as long as the products behind the refund are still numbers.
pub proof fn traveller_can_cancel_at_any_time(env: EnvView, id: u64)
    ensures
        ({
            let refusal = contract::cancel_by_traveller_refusal(env, id);
            let signed = env.signers.contains(env.config.unwrap().stello_wallet);
            let allowed = env.config is Some && signed && env.bookings.contains_key(id);
            let b = env.bookings[id];
            let gone = b.was_cancelled || b.state == BookingState::Cancelled;
            let open = allowed && !gone && !b.settled;
            let held = open && b.state == BookingState::Escrowed && b.escrow_amount > 0;
            let product = if b.start_time - env.timestamp >= 2_419_200 {
                b.escrow_amount * 7000
            } else if b.start_time - env.timestamp >= 1_209_600 {
                b.escrow_amount * 5000
            } else {
                b.escrow_amount * 8000
            };
            &&& refusal is None <==> held && product <= i128::MAX
            &&& refusal == Some(Error::NotInitialized) <==> env.config is None
            &&& refusal == Some(Error::Unauthorized) <==> env.config is Some && !signed
            &&& refusal == Some(Error::BookingNotFound) <==> env.config is Some && signed
                && !env.bookings.contains_key(id)
            &&& refusal == Some(Error::AlreadyCancelled) <==> allowed && gone
            &&& refusal == Some(Error::AlreadySettled) <==> allowed && !gone && b.settled
            &&& refusal == Some(Error::InvalidStateTransition) <==> open && b.state
                != BookingState::Escrowed
            &&& refusal == Some(Error::InvalidAmount) <==> open && b.state
                == BookingState::Escrowed && b.escrow_amount <= 0
            &&& refusal == Some(Error::MathError) <==> held && product > i128::MAX
        }),
{
}

/// A host's cancellation of a booking in escrow that the host signed goes through at
/// whatever time it comes, as long as there is a fee to charge. The Stello wallet's
/// signature plays no part in it.
pub proof fn host_can_cancel_at_any_time(env: EnvView, id: u64)
    ensures
        ({
            let refusal = contract::cancel_by_host_refusal(env, id);
            let b = env.bookings[id];
            let found = env.config is Some && env.bookings.contains_key(id);
            let allowed = found && env.signers.contains(b.host);
            let gone = b.was_cancelled || b.state == BookingState::Cancelled;
            let open = allowed && !gone && !b.settled;
            let fee = env.config.unwrap().host_cancel_fee;
            &&& refusal is None <==> open && b.state == BookingState::Escrowed && b.escrow_amount
                > 0 && fee > 0
            &&& refusal == Some(Error::NotInitialized) <==> env.config is None
            &&& refusal == Some(Error::BookingNotFound) <==> env.config is Some
                && !env.bookings.contains_key(id)
            &&& refusal == Some(Error::Unauthorized) <==> found && !env.signers.contains(b.host)
            &&& refusal == Some(Error::AlreadyCancelled) <==> allowed && gone
            &&& refusal == Some(Error::AlreadySettled) <==> allowed && !gone && b.settled
            &&& refusal == Some(Error::InvalidStateTransition) <==> open && b.state
                != BookingState::Escrowed
            &&& refusal == Some(Error::InvalidAmount) <==> open && b.state
                == BookingState::Escrowed && (b.escrow_amount <= 0 || fee <= 0)
        }),
{
}

/// In a consistent contract with a positive fee, a host's cancellation of an escrowed
/// booking that the host signed is never refused, whoever else signed and at whatever
/// time it comes.
pub proof fn consistent_escrow_can_be_cancelled_by_the_host(
    env: EnvView,
    id: u64,
    timestamp: u64,
    signers: Seq<Address>,
)
    requires
        laws::consistent(env),
        env.bookings.contains_key(id),
        env.bookings[id].state == BookingState::Escrowed,
        env.config.unwrap().host_cancel_fee > 0,
        signers.contains(env.bookings[id].host),
    ensures
        contract::cancel_by_host_refusal(EnvView { timestamp, signers, ..env }, id) is None,
{
}

/// A dispute can be opened at any time on a booking that holds an escrow and is in
/// escrow, or is completed and not settled; and on no other.
pub proof fn dispute_is_accepted_while_money_is_held(env: EnvView, id: u64)
    ensures
        ({
            let refusal = contract::open_dispute_refusal(env, id);
            let signed = env.signers.contains(env.config.unwrap().stello_wallet);
            let allowed = env.config is Some && signed && env.bookings.contains_key(id);
            let b = env.bookings[id];
            let open = allowed && !b.settled;
            let disputable = b.state == BookingState::Escrowed || b.state
                == BookingState::Completed;
            &&& refusal is None <==> open && disputable && b.escrow_amount > 0
            &&& refusal == Some(Error::NotInitialized) <==> env.config is None
            &&& refusal == Some(Error::Unauthorized) <==> env.config is Some && !signed
            &&& refusal == Some(Error::BookingNotFound) <==> env.config is Some && signed
                && !env.bookings.contains_key(id)
            &&& refusal == Some(Error::AlreadySettled) <==> allowed && b.settled
            &&& refusal == Some(Error::InvalidStateTransition) <==> open && !disputable
            &&& refusal == Some(Error::InvalidAmount) <==> open && disputable && b.escrow_amount
                <= 0
        }),
{
}

/// A dispute is resolved with any six shares that sum to 10_000 basis points and whose
/// products with the escrow are still numbers, and with no others.
pub proof fn resolution_is_accepted_for_any_full_allocation(
    env: EnvView,
    id: u64,
    traveller_bps: u32,
    host_bps: u32,
    ops_bps: u32,
    review_bps: u32,
    qa_bps: u32,
    o2o_bps: u32,
)
    ensures
        ({
            let refusal = contract::resolve_dispute_refusal(
                env,
                id,
                seq![traveller_bps, host_bps, ops_bps, review_bps, qa_bps, o2o_bps],
            );
            let signed = env.signers.contains(env.config.unwrap().stello_wallet);
            let allowed = env.config is Some && signed && env.bookings.contains_key(id);
            let b = env.bookings[id];
            let disputed = allowed && b.state == BookingState::Disputed;
            let held = disputed && !b.settled && b.escrow_amount > 0;
            let full = traveller_bps + host_bps + ops_bps + review_bps + qa_bps + o2o_bps
                == 10_000;
            let fits = b.escrow_amount * traveller_bps <= i128::MAX && b.escrow_amount * host_bps
                <= i128::MAX && b.escrow_amount * ops_bps <= i128::MAX && b.escrow_amount
                * review_bps <= i128::MAX && b.escrow_amount * qa_bps <= i128::MAX
                && b.escrow_amount * o2o_bps <= i128::MAX;
            &&& refusal is None <==> held && full && fits
            &&& refusal == Some(Error::NotInitialized) <==> env.config is None
            &&& refusal == Some(Error::Unauthorized) <==> env.config is Some && !signed
            &&& refusal == Some(Error::BookingNotFound) <==> env.config is Some && signed
                && !env.bookings.contains_key(id)
            &&& refusal == Some(Error::InvalidDispute) <==> allowed && !disputed
            &&& refusal == Some(Error::AlreadySettled) <==> disputed && b.settled
            &&& refusal == Some(Error::InvalidAmount) <==> disputed && !b.settled
                && b.escrow_amount <= 0
            &&& refusal == Some(Error::InvalidBpsAllocation) <==> held && !full
            &&& refusal == Some(Error::MathError) <==> held && full && !fits
        }),
{
    let bps = seq![traveller_bps, host_bps, ops_bps, review_bps, qa_bps, o2o_bps];
    let escrow = env.bookings[id].escrow_amount as int;
    split::six_bps_total(traveller_bps, host_bps, ops_bps, review_bps, qa_bps, o2o_bps);
    if escrow > 0 {
        split::product_is_not_negative(escrow, traveller_bps as int);
        split::product_is_not_negative(escrow, host_bps as int);
        split::product_is_not_negative(escrow, ops_bps as int);
        split::product_is_not_negative(escrow, review_bps as int);
        split::product_is_not_negative(escrow, qa_bps as int);
        split::product_is_not_negative(escrow, o2o_bps as int);
        assert(split::bps_product_fits(escrow, bps[0] as int) <==> escrow * traveller_bps
            <= i128::MAX);
        assert(split::bps_product_fits(escrow, bps[1] as int) <==> escrow * host_bps <= i128::MAX);
        assert(split::bps_product_fits(escrow, bps[2] as int) <==> escrow * ops_bps <= i128::MAX);
        assert(split::bps_product_fits(escrow, bps[3] as int) <==> escrow * review_bps
            <= i128::MAX);
        assert(split::bps_product_fits(escrow, bps[4] as int) <==> escrow * qa_bps <= i128::MAX);
        assert(split::bps_product_fits(escrow, bps[5] as int) <==> escrow * o2o_bps <= i128::MAX);
    }
}

/// Whoever signs and has a positive claimable balance can claim it.
pub proof fn claim_is_accepted_for_a_balance(env: EnvView, who: Address)
    ensures
        ({
            let refusal = contract::claim_payout_refusal(env, who);
            let signed = env.signers.contains(who);
            let something = env.claimable.contains_key(who.id) && env.claimable[who.id] > 0;
            &&& refusal is None <==> signed && env.config is Some && something
            &&& refusal == Some(Error::Unauthorized) <==> !signed
            &&& refusal == Some(Error::NotInitialized) <==> signed && env.config is None
            &&& refusal == Some(Error::NothingToClaim) <==> signed && env.config is Some
                && !something
        }),
{
}

} // verus!
