//! The booking contract: book → fund the escrow → check in → complete → settle.
//!
//! ## Roles
//! - **Stello wallet:** `book`, `update_booking`, `lock_escrow`, `check_in`, `complete`,
//!   `execute_split`, `cancel_by_traveller`, `open_dispute`, `resolve_dispute`.
//! - **Traveller:** signs the transfer into escrow that `lock_escrow` makes.
//! - **Host wallet:** `cancel_by_host` (its fee is paid by the host, not out of escrow).
//! - The Stello wallet is the sole dispute-resolution authority.
//!
//! Every call either does all of what it is for, or is refused with an error and
//! leaves the environment as it was. For each call a `.._refusal` function says
//! which error it is refused with, if any, and an `.._after` function says what
//! the environment is afterwards if it is not.
use vstd::prelude::*;

use crate::env::{Env, EnvView};
use crate::errors::Error;
use crate::events::{
    BookingCancelled, BookingCheckedIn, BookingCompleted, BookingCreated, BookingUpdated,
    DisputeOpened, DisputeResolved, EscrowLocked, Event, HostCancellationFeePaid, PayoutClaimed,
    SettlementExecuted,
};
use crate::refund;
use crate::split;
use crate::state_machine;
use crate::storage;
use crate::types::{
    Address, Booking, BookingState, Bytes32, CancelSettlement, CancelledBy, Config,
    SettlementAmounts, SettlementType, SplitAmounts, BPS_DENOM,
};

verus! {

/// The contract.
#[derive(Clone, Copy, Debug, PartialEq, Eq)]
pub struct StelloBookingContract;

/// Why a call that only the Stello wallet may make is refused before it is
/// looked at.
pub open spec fn stello_refusal(env: EnvView) -> Option<Error> {
    match env.config {
        None => Some(Error::NotInitialized),
        Some(config) => if env.signed_by(config.stello_wallet) {
            None
        } else {
            Some(Error::Unauthorized)
        },
    }
}

/// Why a Stello wallet's call on a booking is refused before the booking is
/// looked at.
pub open spec fn stello_booking_refusal(env: EnvView, booking_id: u64) -> Option<Error> {
    match stello_refusal(env) {
        Some(e) => Some(e),
        None => if env.booking(booking_id) is None {
            Some(Error::BookingNotFound)
        } else {
            None
        },
    }
}

/// After the configuration and one booking have been read.
pub open spec fn booking_loaded(env: EnvView, booking_id: u64) -> EnvView {
    env.config_read().booking_read(booking_id)
}

/// Why `initialize` is refused, if it is.
pub open spec fn initialize_refusal(env: EnvView, config: Config) -> Option<Error> {
    if env.config is Some {
        Some(Error::AlreadyInitialized)
    } else if config.host_cancel_fee < 0 {
        Some(Error::InvalidAmount)
    } else if !env.signed_by(config.stello_wallet) {
        Some(Error::Unauthorized)
    } else {
        None
    }
}

/// Why terms of a booking are refused, if they are.
pub open spec fn terms_refusal(
    env: EnvView,
    traveller: Address,
    host: Address,
    amount: i128,
    start_time: u64,
) -> Option<Error> {
    if traveller == host {
        Some(Error::InvalidAddress)
    } else if amount <= 0 {
        Some(Error::InvalidAmount)
    } else if start_time <= env.timestamp {
        Some(Error::InvalidStartTime)
    } else {
        None
    }
}

/// Why `book` is refused, if it is.
pub open spec fn book_refusal(
    env: EnvView,
    traveller: Address,
    host: Address,
    amount: i128,
    start_time: u64,
) -> Option<Error> {
    match stello_refusal(env) {
        Some(e) => Some(e),
        None => terms_refusal(env, traveller, host, amount, start_time),
    }
}

/// The booking that `book` creates.
pub open spec fn new_booking(
    env: EnvView,
    traveller: Address,
    host: Address,
    amount: i128,
    start_time: u64,
) -> Booking {
    Booking {
        booking_id: env.upcoming_id(),
        booking_ref: crate::types::zero_ref(),
        service_ref: crate::types::zero_ref(),
        traveller,
        host,
        amount,
        token: env.config.unwrap().token,
        start_time,
        created_at: env.timestamp,
        state: BookingState::Created,
        escrow_locked: false,
        escrow_amount: 0,
        checked_in: false,
        settled: false,
        was_cancelled: false,
        cancelled_by: CancelledBy::Nobody,
    }
}

/// The environment after `book`.
pub open spec fn book_after(
    env: EnvView,
    traveller: Address,
    host: Address,
    amount: i128,
    start_time: u64,
) -> EnvView {
    let booking = new_booking(env, traveller, host, amount, start_time);
    env.config_read().id_taken().booking_written(booking).published(
        Event::BookingCreated(
            BookingCreated {
                booking_id: booking.booking_id,
                booking_ref: booking.booking_ref,
                service_ref: booking.service_ref,
                traveller,
                host,
                amount,
                token: booking.token,
                start_time,
            },
        ),
    )
}

/// Why `update_booking` is refused, if it is.
pub open spec fn update_booking_refusal(
    env: EnvView,
    booking_id: u64,
    host: Address,
    amount: i128,
    start_time: u64,
) -> Option<Error> {
    match stello_booking_refusal(env, booking_id) {
        Some(e) => Some(e),
        None => {
            let booking = env.bookings[booking_id];
            if booking.state != BookingState::Created || booking.escrow_locked {
                Some(Error::InvalidUpdate)
            } else {
                terms_refusal(env, booking.traveller, host, amount, start_time)
            }
        },
    }
}

/// The environment after `update_booking`.
pub open spec fn update_booking_after(
    env: EnvView,
    booking_id: u64,
    host: Address,
    amount: i128,
    start_time: u64,
) -> EnvView {
    booking_loaded(env, booking_id).booking_written(
        Booking { host, amount, start_time, ..env.bookings[booking_id] },
    ).published(Event::BookingUpdated(BookingUpdated { booking_id, amount, start_time, host }))
}

/// Why `lock_escrow` is refused, if it is.
pub open spec fn lock_escrow_refusal(env: EnvView, booking_id: u64, amount: i128) -> Option<Error> {
    match stello_booking_refusal(env, booking_id) {
        Some(e) => Some(e),
        None => {
            let booking = env.bookings[booking_id];
            if booking.state != BookingState::Created {
                Some(Error::InvalidStateTransition)
            } else if booking.escrow_locked || booking.escrow_amount != 0 {
                Some(Error::EscrowAlreadyLocked)
            } else if amount <= 0 || amount != booking.amount {
                Some(Error::InvalidAmount)
            } else if booking.token != env.config.unwrap().token {
                Some(Error::InvalidToken)
            } else if !env.signed_by(booking.traveller) {
                Some(Error::Unauthorized)
            } else {
                None
            }
        },
    }
}

/// The environment after `lock_escrow`: the traveller has paid the amount into
/// the contract, and the booking holds it in escrow.
pub open spec fn lock_escrow_after(env: EnvView, booking_id: u64, amount: i128) -> EnvView {
    let booking = env.bookings[booking_id];
    let token = env.config.unwrap().token;
    booking_loaded(env, booking_id).paid(
        token,
        booking.traveller,
        env.contract,
        amount,
    ).booking_written(
        Booking {
            state: BookingState::Escrowed,
            escrow_locked: true,
            escrow_amount: amount,
            ..booking
        },
    ).published(Event::EscrowLocked(EscrowLocked { booking_id, amount, token }))
}

/// Why `check_in` is refused, if it is.
pub open spec fn check_in_refusal(env: EnvView, booking_id: u64) -> Option<Error> {
    match stello_booking_refusal(env, booking_id) {
        Some(e) => Some(e),
        None => {
            let booking = env.bookings[booking_id];
            if booking.state != BookingState::Escrowed {
                Some(Error::InvalidStateTransition)
            } else if !booking.escrow_locked {
                Some(Error::EscrowNotLocked)
            } else {
                None
            }
        },
    }
}

/// The environment after `check_in`.
pub open spec fn check_in_after(env: EnvView, booking_id: u64) -> EnvView {
    booking_loaded(env, booking_id).booking_written(
        Booking { state: BookingState::CheckedIn, checked_in: true, ..env.bookings[booking_id] },
    ).published(
        Event::BookingCheckedIn(BookingCheckedIn { booking_id, timestamp: env.timestamp }),
    )
}

/// Why `complete` is refused, if it is.
pub open spec fn complete_refusal(env: EnvView, booking_id: u64) -> Option<Error> {
    match stello_booking_refusal(env, booking_id) {
        Some(e) => Some(e),
        None => {
            let booking = env.bookings[booking_id];
            if booking.state != BookingState::CheckedIn || !booking.escrow_locked
                || !booking.checked_in {
                Some(Error::InvalidStateTransition)
            } else {
                None
            }
        },
    }
}

/// The environment after `complete`.
pub open spec fn complete_after(env: EnvView, booking_id: u64) -> EnvView {
    booking_loaded(env, booking_id).booking_written(
        Booking { state: BookingState::Completed, ..env.bookings[booking_id] },
    ).published(Event::BookingCompleted(BookingCompleted { booking_id }))
}

/// Why `execute_split` is refused, if it is.
pub open spec fn execute_split_refusal(env: EnvView, booking_id: u64) -> Option<Error> {
    match stello_booking_refusal(env, booking_id) {
        Some(e) => Some(e),
        None => {
            let booking = env.bookings[booking_id];
            if booking.state != BookingState::Completed {
                Some(Error::InvalidStateTransition)
            } else if booking.settled {
                Some(Error::AlreadySettled)
            } else {
                split::completion_split_refusal(booking.escrow_amount as int)
            }
        },
    }
}

/// A booking whose escrow has been paid out.
pub open spec fn settled_booking(booking: Booking, state: BookingState) -> Booking {
    Booking { state, settled: true, escrow_amount: 0, ..booking }
}

/// The settlement event of a completion split.
pub open spec fn split_event(env: EnvView, booking_id: u64, s: SplitAmounts) -> Event {
    Event::SettlementExecuted(
        SettlementExecuted {
            booking_id,
            settlement_type: SettlementType::Completed,
            traveller_amount: 0,
            host_amount: s.host_amount,
            ops_amount: s.ops_amount,
            review_amount: s.review_amount,
            qa_amount: s.qa_amount,
            o2o_amount: s.o2o_amount,
            timestamp: env.timestamp,
        },
    )
}

/// The environment after `execute_split`: the booking is settled, and then the
/// five shares are paid out and the settlement is published.
pub open spec fn execute_split_after(env: EnvView, booking_id: u64) -> EnvView {
    let booking = env.bookings[booking_id];
    let config = env.config.unwrap();
    let s = split::completion_split(booking.escrow_amount as int);
    booking_loaded(env, booking_id).booking_written(
        settled_booking(booking, BookingState::Completed),
    ).paid_out(config.token, booking.host, s.host_amount).paid_out(
        config.token,
        config.ops_pool,
        s.ops_amount,
    ).paid_out(config.token, config.review_pool, s.review_amount).paid_out(
        config.token,
        config.qa_pool,
        s.qa_amount,
    ).paid_out(config.token, config.o2o_pool, s.o2o_amount).published(
        split_event(env, booking_id, s),
    )
}

/// Why an escrowed booking cannot be cancelled, if it cannot.
pub open spec fn cancel_refusal(booking: Booking) -> Option<Error> {
    if booking.was_cancelled || booking.state == BookingState::Cancelled {
        Some(Error::AlreadyCancelled)
    } else if booking.settled {
        Some(Error::AlreadySettled)
    } else if booking.state != BookingState::Escrowed {
        Some(Error::InvalidStateTransition)
    } else if booking.escrow_amount <= 0 {
        Some(Error::InvalidAmount)
    } else {
        None
    }
}

/// A booking that has been cancelled and settled.
pub open spec fn cancelled_booking(booking: Booking, by: CancelledBy) -> Booking {
    Booking {
        was_cancelled: true,
        cancelled_by: by,
        ..settled_booking(booking, BookingState::Cancelled)
    }
}

/// The settlement event of a cancellation.
pub open spec fn cancel_settlement_event(
    env: EnvView,
    booking_id: u64,
    by_host: bool,
    s: CancelSettlement,
) -> Event {
    Event::SettlementExecuted(
        SettlementExecuted {
            booking_id,
            settlement_type: if by_host {
                SettlementType::HostCancel
            } else {
                SettlementType::TravellerCancel
            },
            traveller_amount: s.traveller_amount,
            host_amount: s.host_amount,
            ops_amount: s.ops_amount,
            review_amount: 0,
            qa_amount: 0,
            o2o_amount: 0,
            timestamp: env.timestamp,
        },
    )
}

/// The lifecycle event of a cancellation.
pub open spec fn cancelled_event(booking_id: u64, by_host: bool, s: CancelSettlement) -> Event {
    Event::BookingCancelled(
        BookingCancelled {
            booking_id,
            by_host,
            traveller_amount: s.traveller_amount,
            host_amount: s.host_amount,
            ops_amount: s.ops_amount,
        },
    )
}

/// How a traveller's cancellation shares out the escrow.
pub open spec fn traveller_settlement(env: EnvView, booking_id: u64) -> CancelSettlement {
    let booking = env.bookings[booking_id];
    refund::refund(
        booking.escrow_amount as int,
        booking.start_time,
        env.timestamp,
        CancelledBy::Traveller,
    )
}

/// Why `cancel_by_traveller` is refused, if it is.
pub open spec fn cancel_by_traveller_refusal(env: EnvView, booking_id: u64) -> Option<Error> {
    match stello_booking_refusal(env, booking_id) {
        Some(e) => Some(e),
        None => {
            let booking = env.bookings[booking_id];
            match cancel_refusal(booking) {
                Some(e) => Some(e),
                None => refund::refund_refusal(
                    booking.escrow_amount as int,
                    booking.start_time,
                    env.timestamp,
                    CancelledBy::Traveller,
                ),
            }
        },
    }
}

/// The environment after `cancel_by_traveller`: the booking is cancelled and
/// settled and the shares are on record, and then they are paid out and the
/// cancellation and the settlement are published.
pub open spec fn cancel_by_traveller_after(env: EnvView, booking_id: u64) -> EnvView {
    let booking = env.bookings[booking_id];
    let config = env.config.unwrap();
    let s = traveller_settlement(env, booking_id);
    booking_loaded(env, booking_id).booking_written(
        cancelled_booking(booking, CancelledBy::Traveller),
    ).settlement_written(booking_id, s).paid_out(
        config.token,
        booking.traveller,
        s.traveller_amount,
    ).paid_out(config.token, booking.host, s.host_amount).paid_out(
        config.token,
        config.ops_pool,
        s.ops_amount,
    ).published(cancelled_event(booking_id, false, s)).published(
        cancel_settlement_event(env, booking_id, false, s),
    )
}

/// How a host's cancellation shares out the escrow: all of it goes back.
pub open spec fn host_settlement(booking: Booking) -> CancelSettlement {
    CancelSettlement { traveller_amount: booking.escrow_amount, host_amount: 0, ops_amount: 0 }
}

/// Why `cancel_by_host` is refused, if it is.
pub open spec fn cancel_by_host_refusal(env: EnvView, booking_id: u64) -> Option<Error> {
    if env.config is None {
        Some(Error::NotInitialized)
    } else if env.booking(booking_id) is None {
        Some(Error::BookingNotFound)
    } else if !env.signed_by(env.bookings[booking_id].host) {
        Some(Error::Unauthorized)
    } else {
        match cancel_refusal(env.bookings[booking_id]) {
            Some(e) => Some(e),
            None => if env.config.unwrap().host_cancel_fee <= 0 {
                Some(Error::InvalidAmount)
            } else {
                None
            },
        }
    }
}

/// The event of a host's cancellation fee.
pub open spec fn fee_event(env: EnvView, booking_id: u64) -> Event {
    let config = env.config.unwrap();
    Event::HostCancellationFeePaid(
        HostCancellationFeePaid {
            booking_id,
            host: env.bookings[booking_id].host,
            ops: config.ops_pool,
            amount: config.host_cancel_fee,
        },
    )
}

/// The environment after `cancel_by_host`: the booking is cancelled and settled
/// and the refund is on record; then the host pays the fee to operations, and the
/// whole escrow goes back to the traveller.
pub open spec fn cancel_by_host_after(env: EnvView, booking_id: u64) -> EnvView {
    let booking = env.bookings[booking_id];
    let config = env.config.unwrap();
    let s = host_settlement(booking);
    booking_loaded(env, booking_id).booking_written(
        cancelled_booking(booking, CancelledBy::Host),
    ).settlement_written(booking_id, s).paid(
        config.token,
        booking.host,
        config.ops_pool,
        config.host_cancel_fee,
    ).published(fee_event(env, booking_id)).paid_out(
        config.token,
        booking.traveller,
        s.traveller_amount,
    ).published(cancelled_event(booking_id, true, s)).published(
        cancel_settlement_event(env, booking_id, true, s),
    )
}

/// Why `open_dispute` is refused, if it is.
pub open spec fn open_dispute_refusal(env: EnvView, booking_id: u64) -> Option<Error> {
    match stello_booking_refusal(env, booking_id) {
        Some(e) => Some(e),
        None => {
            let booking = env.bookings[booking_id];
            if booking.settled {
                Some(Error::AlreadySettled)
            } else if booking.state != BookingState::Escrowed && booking.state
                != BookingState::Completed {
                Some(Error::InvalidStateTransition)
            } else if booking.escrow_amount <= 0 {
                Some(Error::InvalidAmount)
            } else {
                None
            }
        },
    }
}

/// The environment after `open_dispute`: no tokens move.
pub open spec fn open_dispute_after(env: EnvView, booking_id: u64) -> EnvView {
    booking_loaded(env, booking_id).booking_written(
        Booking { state: BookingState::Disputed, ..env.bookings[booking_id] },
    ).published(Event::DisputeOpened(DisputeOpened { booking_id }))
}

/// Why `resolve_dispute` is refused, if it is. `bps` lists the basis points of
/// traveller, host, operations, review, QA and O2O.
pub open spec fn resolve_dispute_refusal(
    env: EnvView,
    booking_id: u64,
    bps: Seq<u32>,
) -> Option<Error> {
    match stello_booking_refusal(env, booking_id) {
        Some(e) => Some(e),
        None => {
            let booking = env.bookings[booking_id];
            if booking.state != BookingState::Disputed {
                Some(Error::InvalidDispute)
            } else if booking.settled {
                Some(Error::AlreadySettled)
            } else {
                split::bps_amounts_refusal(booking.escrow_amount as int, bps, 6)
            }
        },
    }
}

/// How a resolved dispute shares out the escrow.
pub open spec fn dispute_settlement(escrow: int, bps: Seq<u32>) -> SettlementAmounts {
    SettlementAmounts {
        traveller_amount: split::allocated(escrow, bps, 0) as i128,
        host_amount: split::allocated(escrow, bps, 1) as i128,
        ops_amount: split::allocated(escrow, bps, 2) as i128,
        review_amount: split::allocated(escrow, bps, 3) as i128,
        qa_amount: split::allocated(escrow, bps, 4) as i128,
        o2o_amount: split::allocated(escrow, bps, 5) as i128,
    }
}

/// The event of a resolution.
pub open spec fn resolved_event(booking_id: u64, bps: Seq<u32>) -> Event {
    Event::DisputeResolved(
        DisputeResolved {
            booking_id,
            traveller_bps: bps[0],
            host_bps: bps[1],
            ops_bps: bps[2],
            review_bps: bps[3],
            qa_bps: bps[4],
            o2o_bps: bps[5],
        },
    )
}

/// The settlement event of a resolution.
pub open spec fn dispute_event(env: EnvView, booking_id: u64, s: SettlementAmounts) -> Event {
    Event::SettlementExecuted(
        SettlementExecuted {
            booking_id,
            settlement_type: SettlementType::Dispute,
            traveller_amount: s.traveller_amount,
            host_amount: s.host_amount,
            ops_amount: s.ops_amount,
            review_amount: s.review_amount,
            qa_amount: s.qa_amount,
            o2o_amount: s.o2o_amount,
            timestamp: env.timestamp,
        },
    )
}

/// The environment after `resolve_dispute`: the booking is completed and
/// settled, and then the six shares are paid out and the resolution and the
/// settlement are published.
pub open spec fn resolve_dispute_after(env: EnvView, booking_id: u64, bps: Seq<u32>) -> EnvView {
    let booking = env.bookings[booking_id];
    let config = env.config.unwrap();
    let s = dispute_settlement(booking.escrow_amount as int, bps);
    booking_loaded(env, booking_id).booking_written(
        settled_booking(booking, BookingState::Completed),
    ).paid_out(config.token, booking.traveller, s.traveller_amount).paid_out(
        config.token,
        booking.host,
        s.host_amount,
    ).paid_out(config.token, config.ops_pool, s.ops_amount).paid_out(
        config.token,
        config.review_pool,
        s.review_amount,
    ).paid_out(config.token, config.qa_pool, s.qa_amount).paid_out(
        config.token,
        config.o2o_pool,
        s.o2o_amount,
    ).published(resolved_event(booking_id, bps)).published(dispute_event(env, booking_id, s))
}

/// Why `claim_payout` is refused, if it is.
pub open spec fn claim_payout_refusal(env: EnvView, who: Address) -> Option<Error> {
    if !env.signed_by(who) {
        Some(Error::Unauthorized)
    } else if env.config is None {
        Some(Error::NotInitialized)
    } else if env.claimable_by(who) <= 0 {
        Some(Error::NothingToClaim)
    } else {
        None
    }
}

/// The environment after `claim_payout`: the balance is zeroed, and then paid
/// out.
pub open spec fn claim_payout_after(env: EnvView, who: Address) -> EnvView {
    let token = env.config.unwrap().token;
    let amount = env.claimable_by(who);
    env.config_read().claimable_written(who, 0).paid_out(token, who, amount).published(
        Event::PayoutClaimed(PayoutClaimed { claimant: who, amount, token }),
    )
}

/// Asks for the Stello wallet's signature.
fn require_stello(env: &mut Env, config: &Config) -> (result: Result<(), Error>)
    ensures
        final(env)@ == old(env)@,
        result == (if old(env)@.signed_by(config.stello_wallet) {
            Ok::<(), Error>(())
        } else {
            Err::<(), Error>(Error::Unauthorized)
        }),
        result is Err ==> final(env).denied == Some(config.stello_wallet),
{
    env.require_auth(config.stello_wallet)
}

/// Refuses a negative fee.
fn validate_config(config: &Config) -> (result: Result<(), Error>)
    ensures
        result == (if config.host_cancel_fee < 0 {
            Err::<(), Error>(Error::InvalidAmount)
        } else {
            Ok::<(), Error>(())
        }),
{
    if config.host_cancel_fee < 0 {
        return Err(Error::InvalidAmount);
    }
    Ok(())
}

/// Refuses a traveller who is the host.
fn validate_parties(traveller: &Address, host: &Address) -> (result: Result<(), Error>)
    ensures
        result == (if *traveller == *host {
            Err::<(), Error>(Error::InvalidAddress)
        } else {
            Ok::<(), Error>(())
        }),
{
    if *traveller == *host {
        return Err(Error::InvalidAddress);
    }
    Ok(())
}

/// Refuses parties, an amount or a start time that no booking can have.
fn validate_terms(
    env: &Env,
    traveller: &Address,
    host: &Address,
    amount: i128,
    start_time: u64,
) -> (result: Result<(), Error>)
    ensures
        result == (match terms_refusal(env@, *traveller, *host, amount, start_time) {
            Some(e) => Err::<(), Error>(e),
            None => Ok::<(), Error>(()),
        }),
{
    validate_parties(traveller, host)?;
    if amount <= 0 {
        return Err(Error::InvalidAmount);
    }
    if start_time <= env.timestamp {
        return Err(Error::InvalidStartTime);
    }
    Ok(())
}

/// Pays tokens out of the contract, if there is anything to pay.
fn transfer_from_contract(env: &mut Env, token: &Address, to: &Address, amount: i128)
    ensures
        final(env)@ == old(env)@.paid_out(*token, *to, amount),
{
    if amount > 0 {
        let contract = env.contract;
        env.transfer(*token, contract, *to, amount);
    }
}

/// Reads the configuration, asks for the Stello wallet's signature, and reads a
/// booking; takes its own effects back where one of these fails.
fn load_for_stello(env: &mut Env, booking_id: u64) -> (result: Result<(Config, Booking), Error>)
    ensures
        match stello_booking_refusal(old(env)@, booking_id) {
            Some(e) => result == Err::<(Config, Booking), Error>(e) && final(env)@ == old(env)@,
            None => {
                &&& result == Ok::<(Config, Booking), Error>(
                    (old(env)@.config.unwrap(), old(env)@.bookings[booking_id]),
                )
                &&& final(env)@ == booking_loaded(old(env)@, booking_id)
            },
        },
        result == Err::<(Config, Booking), Error>(Error::Unauthorized) ==> final(env).denied
            == Some(old(env)@.config.unwrap().stello_wallet),
{
    let mark: usize = env.effects.len();
    let config = match storage::require_config(env) {
        Ok(config) => config,
        Err(e) => return env.refuse(mark, e),
    };
    if let Err(e) = require_stello(env, &config) {
        return env.refuse(mark, e);
    }
    match storage::require_booking(env, booking_id) {
        Ok(booking) => Ok((config, booking)),
        Err(e) => env.refuse(mark, e),
    }
}

/// Refuses to cancel a booking that is not in escrow.
fn validate_cancellable(booking: &Booking) -> (result: Result<(), Error>)
    ensures
        result == (match cancel_refusal(*booking) {
            Some(e) => Err::<(), Error>(e),
            None => Ok::<(), Error>(()),
        }),
{
    if booking.was_cancelled || booking.state == BookingState::Cancelled {
        return Err(Error::AlreadyCancelled);
    }
    if booking.settled {
        return Err(Error::AlreadySettled);
    }
    if booking.state != BookingState::Escrowed {
        return Err(Error::InvalidStateTransition);
    }
    state_machine::validate_transition(booking.state, BookingState::Cancelled)?;
    if booking.escrow_amount <= 0 {
        return Err(Error::InvalidAmount);
    }
    Ok(())
}

/// Writes a cancelled and settled booking, and its settlement.
fn record_cancellation(
    env: &mut Env,
    booking_id: u64,
    booking: &Booking,
    by: CancelledBy,
    settlement: &CancelSettlement,
)
    ensures
        final(env)@ == old(env)@.booking_written(
            cancelled_booking(*booking, by),
        ).settlement_written(booking_id, *settlement),
{
    let mut cancelled = *booking;
    cancelled.state = BookingState::Cancelled;
    cancelled.was_cancelled = true;
    cancelled.cancelled_by = by;
    cancelled.settled = true;
    cancelled.escrow_amount = 0;
    storage::set_booking(env, &cancelled);
    storage::set_cancel_settlement(env, booking_id, settlement);
}

/// Publishes a cancellation and its settlement.
fn publish_cancellation(env: &mut Env, booking_id: u64, by_host: bool, s: &CancelSettlement)
    ensures
        final(env)@ == old(env)@.published(cancelled_event(booking_id, by_host, *s)).published(
            cancel_settlement_event(old(env)@, booking_id, by_host, *s),
        ),
{
    env.publish(
        Event::BookingCancelled(
            BookingCancelled {
                booking_id,
                by_host,
                traveller_amount: s.traveller_amount,
                host_amount: s.host_amount,
                ops_amount: s.ops_amount,
            },
        ),
    );
    let timestamp: u64 = env.timestamp;
    env.publish(
        Event::SettlementExecuted(
            SettlementExecuted {
                booking_id,
                settlement_type: if by_host {
                    SettlementType::HostCancel
                } else {
                    SettlementType::TravellerCancel
                },
                traveller_amount: s.traveller_amount,
                host_amount: s.host_amount,
                ops_amount: s.ops_amount,
                review_amount: 0,
                qa_amount: 0,
                o2o_amount: 0,
                timestamp,
            },
        ),
    );
}

impl StelloBookingContract {
    /// Sets the protocol configuration, once. The caller must be
    /// `config.stello_wallet`.
    pub fn initialize(env: &mut Env, config: Config) -> (result: Result<(), Error>)
        ensures
            match initialize_refusal(old(env)@, config) {
                Some(e) => result == Err::<(), Error>(e) && final(env)@ == old(env)@,
                None => result == Ok::<(), Error>(()) && final(env)@ == old(env)@.config_written(
                    config,
                ),
            },
            result == Err::<(), Error>(Error::Unauthorized) ==> final(env).denied == Some(
                config.stello_wallet,
            ),
            result is Ok ==> final(env).config == Some(config),
            result is Ok <==> old(env).config is None && config.host_cancel_fee >= 0
                && old(env).signers@.contains(config.stello_wallet),
    {
        if storage::get_config(env).is_some() {
            return Err(Error::AlreadyInitialized);
        }
        validate_config(&config)?;
        env.require_auth(config.stello_wallet)?;
        storage::set_config(env, &config);
        Ok(())
    }

    /// Creates a booking in `Created`. **Auth:** Stello wallet.
    pub fn book(
        env: &mut Env,
        traveller: Address,
        host: Address,
        amount: i128,
        start_time: u64,
    ) -> (result: Result<u64, Error>)
        requires
            book_refusal(old(env)@, traveller, host, amount, start_time) is None ==> old(
                env,
            )@.upcoming_id() < u64::MAX,
        ensures
            match book_refusal(old(env)@, traveller, host, amount, start_time) {
                Some(e) => result == Err::<u64, Error>(e) && final(env)@ == old(env)@,
                None => {
                    &&& result == Ok::<u64, Error>(old(env)@.upcoming_id())
                    &&& final(env)@ == book_after(old(env)@, traveller, host, amount, start_time)
                },
            },
            result == Err::<u64, Error>(Error::Unauthorized) ==> final(env).denied == Some(
                old(env)@.config.unwrap().stello_wallet,
            ),
            result is Ok <==> old(env).config is Some && old(env).signers@.contains(
                old(env).config.unwrap().stello_wallet,
            ) && traveller != host && amount > 0 && start_time > old(env).timestamp,
            result matches Ok(id) ==> {
                &&& final(env).next_booking_id == Some((id + 1) as u64)
                &&& final(env).bookings@.contains_key(id)
                &&& final(env).bookings@.remove(id) == old(env).bookings@.remove(id)
                &&& final(env).bookings@[id].traveller == traveller
                &&& final(env).bookings@[id].host == host
                &&& final(env).bookings@[id].amount == amount
                &&& final(env).bookings@[id].start_time == start_time
                &&& final(env).bookings@[id].state == BookingState::Created
            },
    {
        let mark: usize = env.effects.len();
        let config = match storage::require_config(env) {
            Ok(config) => config,
            Err(e) => return env.refuse(mark, e),
        };
        if let Err(e) = require_stello(env, &config) {
            return env.refuse(mark, e);
        }
        if let Err(e) = validate_terms(env, &traveller, &host, amount, start_time) {
            return env.refuse(mark, e);
        }

        let booking_id: u64 = storage::next_booking_id(env);
        let booking = Booking {
            booking_id,
            booking_ref: Bytes32::zero(),
            service_ref: Bytes32::zero(),
            traveller,
            host,
            amount,
            token: config.token,
            start_time,
            created_at: env.timestamp,
            state: BookingState::Created,
            escrow_locked: false,
            escrow_amount: 0,
            checked_in: false,
            settled: false,
            was_cancelled: false,
            cancelled_by: CancelledBy::Nobody,
        };
        storage::set_booking(env, &booking);
        env.publish(
            Event::BookingCreated(
                BookingCreated {
                    booking_id,
                    booking_ref: booking.booking_ref,
                    service_ref: booking.service_ref,
                    traveller,
                    host,
                    amount,
                    token: config.token,
                    start_time,
                },
            ),
        );
        Ok(booking_id)
    }

    /// Changes host, amount and start while still `Created` (before escrow).
    /// **Auth:** Stello wallet.
    pub fn update_booking(
        env: &mut Env,
        booking_id: u64,
        host: Address,
        amount: i128,
        start_time: u64,
    ) -> (result: Result<(), Error>)
        ensures
            match update_booking_refusal(old(env)@, booking_id, host, amount, start_time) {
                Some(e) => result == Err::<(), Error>(e) && final(env)@ == old(env)@,
                None => {
                    &&& result == Ok::<(), Error>(())
                    &&& final(env)@ == update_booking_after(
                        old(env)@,
                        booking_id,
                        host,
                        amount,
                        start_time,
                    )
                },
            },
            result == Err::<(), Error>(Error::Unauthorized) ==> final(env).denied == Some(
                old(env)@.config.unwrap().stello_wallet,
            ),
            result is Ok && old(env).bookings@[booking_id].booking_id == booking_id
                ==> final(env).bookings@ == old(env).bookings@.insert(
                booking_id,
                Booking {
                    host,
                    amount,
                    start_time,
                    ..old(env).bookings@[booking_id]
                },
            ),
    {
        let mark: usize = env.effects.len();
        let (_, mut booking) = load_for_stello(env, booking_id)?;
        if booking.state != BookingState::Created || booking.escrow_locked {
            return env.refuse(mark, Error::InvalidUpdate);
        }
        if let Err(e) = validate_terms(env, &booking.traveller, &host, amount, start_time) {
            return env.refuse(mark, e);
        }

        booking.host = host;
        booking.amount = amount;
        booking.start_time = start_time;
        storage::set_booking(env, &booking);
        env.publish(
            Event::BookingUpdated(BookingUpdated { booking_id, amount, start_time, host }),
        );
        Ok(())
    }

    /// Pulls the amount from the traveller into contract escrow
    /// (`Created → Escrowed`).
    ///
    /// `amount` must equal `booking.amount` and be `> 0`.
    /// **Auth:** Stello wallet; the traveller also signs, for the transfer.
    pub fn lock_escrow(env: &mut Env, booking_id: u64, amount: i128) -> (result: Result<(), Error>)
        ensures
            match lock_escrow_refusal(old(env)@, booking_id, amount) {
                Some(e) => result == Err::<(), Error>(e) && final(env)@ == old(env)@,
                None => {
                    &&& result == Ok::<(), Error>(())
                    &&& final(env)@ == lock_escrow_after(old(env)@, booking_id, amount)
                },
            },
            result == Err::<(), Error>(Error::Unauthorized) ==> final(env).denied == Some(
                if stello_refusal(old(env)@) is Some {
                    old(env)@.config.unwrap().stello_wallet
                } else {
                    old(env)@.bookings[booking_id].traveller
                },
            ),
            result is Ok && old(env).bookings@[booking_id].booking_id == booking_id
                ==> final(env).bookings@ == old(env).bookings@.insert(
                booking_id,
                Booking {
                    state: BookingState::Escrowed,
                    escrow_locked: true,
                    escrow_amount: amount,
                    ..old(env).bookings@[booking_id]
                },
            ),
    {
        let mark: usize = env.effects.len();
        let (config, mut booking) = load_for_stello(env, booking_id)?;

        if booking.state != BookingState::Created {
            return env.refuse(mark, Error::InvalidStateTransition);
        }
        if let Err(e) = state_machine::validate_transition(booking.state, BookingState::Escrowed) {
            return env.refuse(mark, e);
        }
        if booking.escrow_locked || booking.escrow_amount != 0 {
            return env.refuse(mark, Error::EscrowAlreadyLocked);
        }
        if amount <= 0 || amount != booking.amount {
            return env.refuse(mark, Error::InvalidAmount);
        }
        let new_escrow = match booking.escrow_amount.checked_add(amount) {
            Some(v) => v,
            None => return env.refuse(mark, Error::MathError),
        };
        if new_escrow > booking.amount {
            return env.refuse(mark, Error::EscrowExceedsAmount);
        }
        if booking.token != config.token {
            return env.refuse(mark, Error::InvalidToken);
        }
        if let Err(e) = env.require_auth(booking.traveller) {
            return env.refuse(mark, e);
        }

        let contract = env.contract;
        env.transfer(config.token, booking.traveller, contract, amount);

        booking.state = BookingState::Escrowed;
        booking.escrow_locked = true;
        booking.escrow_amount = new_escrow;
        storage::set_booking(env, &booking);
        env.publish(
            Event::EscrowLocked(EscrowLocked { booking_id, amount, token: config.token }),
        );
        Ok(())
    }

    /// GPS / experience check-in (`Escrowed → CheckedIn`). **Auth:** Stello wallet.
    pub fn check_in(env: &mut Env, booking_id: u64) -> (result: Result<(), Error>)
        ensures
            match check_in_refusal(old(env)@, booking_id) {
                Some(e) => result == Err::<(), Error>(e) && final(env)@ == old(env)@,
                None => {
                    &&& result == Ok::<(), Error>(())
                    &&& final(env)@ == check_in_after(old(env)@, booking_id)
                },
            },
            result == Err::<(), Error>(Error::Unauthorized) ==> final(env).denied == Some(
                old(env)@.config.unwrap().stello_wallet,
            ),
            result is Ok && old(env).bookings@[booking_id].booking_id == booking_id
                ==> final(env).bookings@ == old(env).bookings@.insert(
                booking_id,
                Booking {
                    state: BookingState::CheckedIn,
                    checked_in: true,
                    ..old(env).bookings@[booking_id]
                },
            ),
    {
        let mark: usize = env.effects.len();
        let (_, mut booking) = load_for_stello(env, booking_id)?;
        if let Err(e) = state_machine::validate_transition(booking.state, BookingState::CheckedIn) {
            return env.refuse(mark, e);
        }
        if !booking.escrow_locked {
            return env.refuse(mark, Error::EscrowNotLocked);
        }

        let timestamp: u64 = env.timestamp;
        booking.state = BookingState::CheckedIn;
        booking.checked_in = true;
        storage::set_booking(env, &booking);
        env.publish(Event::BookingCheckedIn(BookingCheckedIn { booking_id, timestamp }));
        Ok(())
    }

    /// Marks a booking completed (`CheckedIn → Completed`). **Auth:** Stello wallet.
    /// Moves no tokens: [`Self::execute_split`] settles.
    pub fn complete(env: &mut Env, booking_id: u64) -> (result: Result<(), Error>)
        ensures
            match complete_refusal(old(env)@, booking_id) {
                Some(e) => result == Err::<(), Error>(e) && final(env)@ == old(env)@,
                None => {
                    &&& result == Ok::<(), Error>(())
                    &&& final(env)@ == complete_after(old(env)@, booking_id)
                },
            },
            result == Err::<(), Error>(Error::Unauthorized) ==> final(env).denied == Some(
                old(env)@.config.unwrap().stello_wallet,
            ),
            result is Ok && old(env).bookings@[booking_id].booking_id == booking_id
                ==> final(env).bookings@ == old(env).bookings@.insert(
                booking_id,
                Booking {
                    state: BookingState::Completed,
                    ..old(env).bookings@[booking_id]
                },
            ),
    {
        let mark: usize = env.effects.len();
        let (_, mut booking) = load_for_stello(env, booking_id)?;
        if let Err(e) = state_machine::validate_transition(booking.state, BookingState::Completed) {
            return env.refuse(mark, e);
        }
        if !booking.escrow_locked || !booking.checked_in {
            return env.refuse(mark, Error::InvalidStateTransition);
        }

        booking.state = BookingState::Completed;
        storage::set_booking(env, &booking);
        env.publish(Event::BookingCompleted(BookingCompleted { booking_id }));
        Ok(())
    }

    /// Settles a `Completed` booking: 80/10/5/3/2 split of the escrow.
    ///
    /// All shares (host, ops, review, QA, O2O) are pushed from escrow.
    ///
    /// **Auth:** Stello wallet. A booking is settled only once.
    pub fn execute_split(env: &mut Env, booking_id: u64) -> (result: Result<SplitAmounts, Error>)
        ensures
            match execute_split_refusal(old(env)@, booking_id) {
                Some(e) => result == Err::<SplitAmounts, Error>(e) && final(env)@ == old(env)@,
                None => {
                    &&& result == Ok::<SplitAmounts, Error>(
                        split::completion_split(
                            old(env)@.bookings[booking_id].escrow_amount as int,
                        ),
                    )
                    &&& final(env)@ == execute_split_after(old(env)@, booking_id)
                },
            },
            result == Err::<SplitAmounts, Error>(Error::Unauthorized) ==> final(env).denied == Some(
                old(env)@.config.unwrap().stello_wallet,
            ),
            result matches Ok(s) ==> {
                let escrow = old(env).bookings@[booking_id].escrow_amount;
                &&& s.ops_amount == escrow * 1000 / 10_000
                &&& s.review_amount == escrow * 500 / 10_000
                &&& s.qa_amount == escrow * 300 / 10_000
                &&& s.o2o_amount == escrow * 200 / 10_000
                &&& s.host_amount == escrow - s.ops_amount - s.review_amount - s.qa_amount
                    - s.o2o_amount
            },
            result is Ok && old(env).bookings@[booking_id].booking_id == booking_id
                ==> final(env).bookings@ == old(env).bookings@.insert(
                booking_id,
                Booking {
                    state: BookingState::Completed,
                    settled: true,
                    escrow_amount: 0,
                    ..old(env).bookings@[booking_id]
                },
            ),
    {
        let mark: usize = env.effects.len();
        let (config, mut booking) = load_for_stello(env, booking_id)?;

        if booking.state != BookingState::Completed {
            return env.refuse(mark, Error::InvalidStateTransition);
        }
        if booking.settled {
            return env.refuse(mark, Error::AlreadySettled);
        }
        if booking.escrow_amount <= 0 {
            return env.refuse(mark, Error::InvalidAmount);
        }

        let escrow: i128 = booking.escrow_amount;
        let split = match split::compute_completion_split(escrow) {
            Ok(split) => split,
            Err(e) => return env.refuse(mark, e),
        };
        proof {
            split::completion_split_is_exact(escrow as int);
        }
        let total = match split::checked_sum5(
            split.host_amount,
            split.ops_amount,
            split.review_amount,
            split.qa_amount,
            split.o2o_amount,
        ) {
            Ok(total) => total,
            Err(e) => return env.refuse(mark, e),
        };
        if total != escrow {
            return env.refuse(mark, Error::MathError);
        }

        // The booking is settled before any token moves.
        booking.settled = true;
        booking.escrow_amount = 0;
        storage::set_booking(env, &booking);

        transfer_from_contract(env, &config.token, &booking.host, split.host_amount);
        transfer_from_contract(env, &config.token, &config.ops_pool, split.ops_amount);
        transfer_from_contract(env, &config.token, &config.review_pool, split.review_amount);
        transfer_from_contract(env, &config.token, &config.qa_pool, split.qa_amount);
        transfer_from_contract(env, &config.token, &config.o2o_pool, split.o2o_amount);

        let timestamp: u64 = env.timestamp;
        env.publish(
            Event::SettlementExecuted(
                SettlementExecuted {
                    booking_id,
                    settlement_type: SettlementType::Completed,
                    traveller_amount: 0,
                    host_amount: split.host_amount,
                    ops_amount: split.ops_amount,
                    review_amount: split.review_amount,
                    qa_amount: split.qa_amount,
                    o2o_amount: split.o2o_amount,
                    timestamp,
                },
            ),
        );
        Ok(split)
    }

    /// Traveller cancellation while `Escrowed`. **Auth:** Stello wallet only.
    ///
    /// Tiered refund from `start_time` vs ledger timestamp:
    /// - `>= 4 weeks`: traveller 70% / host 15% / ops 15%
    /// - `2–4 weeks`: traveller 50% / host 35% / ops 15%
    /// - `< 2 weeks`: traveller 0% / host 80% / ops 20%
    ///
    /// Traveller, host, and ops shares are pushed from escrow. The booking ends
    /// up `Cancelled` and settled.
    pub fn cancel_by_traveller(env: &mut Env, booking_id: u64) -> (result: Result<
        CancelSettlement,
        Error,
    >)
        ensures
            match cancel_by_traveller_refusal(old(env)@, booking_id) {
                Some(e) => result == Err::<CancelSettlement, Error>(e) && final(env)@ == old(env)@,
                None => {
                    &&& result == Ok::<CancelSettlement, Error>(
                        traveller_settlement(old(env)@, booking_id),
                    )
                    &&& final(env)@ == cancel_by_traveller_after(old(env)@, booking_id)
                },
            },
            result == Err::<CancelSettlement, Error>(Error::Unauthorized) ==> final(env).denied
                == Some(old(env)@.config.unwrap().stello_wallet),
            result matches Ok(s) ==> {
                let escrow = old(env).bookings@[booking_id].escrow_amount;
                let left = old(env).bookings@[booking_id].start_time - old(env).timestamp;
                &&& s.ops_amount == escrow - s.traveller_amount - s.host_amount
                &&& left >= 2_419_200 ==> s.traveller_amount == escrow * 70 / 100 && s.host_amount
                    == escrow * 15 / 100
                &&& 1_209_600 <= left < 2_419_200 ==> s.traveller_amount == escrow * 50 / 100
                    && s.host_amount == escrow * 35 / 100
                &&& left < 1_209_600 ==> s.traveller_amount == 0 && s.host_amount == escrow * 80
                    / 100
                &&& final(env).settlements@ == old(env).settlements@.insert(booking_id, s)
            },
            result is Ok && old(env).bookings@[booking_id].booking_id == booking_id
                ==> final(env).bookings@ == old(env).bookings@.insert(
                booking_id,
                Booking {
                    state: BookingState::Cancelled,
                    settled: true,
                    escrow_amount: 0,
                    was_cancelled: true,
                    cancelled_by: CancelledBy::Traveller,
                    ..old(env).bookings@[booking_id]
                },
            ),
    {
        let mark: usize = env.effects.len();
        let (config, booking) = load_for_stello(env, booking_id)?;
        if let Err(e) = validate_cancellable(&booking) {
            return env.refuse(mark, e);
        }

        let now: u64 = env.timestamp;
        let settlement = match refund::compute_refund(
            booking.escrow_amount,
            booking.start_time,
            now,
            CancelledBy::Traveller,
        ) {
            Ok(settlement) => settlement,
            Err(e) => return env.refuse(mark, e),
        };
        proof {
            refund::refund_is_exact(
                booking.escrow_amount,
                booking.start_time,
                now,
                CancelledBy::Traveller,
            );
        }
        let total = match refund::checked_sum3(
            settlement.traveller_amount,
            settlement.host_amount,
            settlement.ops_amount,
        ) {
            Ok(total) => total,
            Err(e) => return env.refuse(mark, e),
        };
        if total != booking.escrow_amount {
            return env.refuse(mark, Error::MathError);
        }

        // The booking is cancelled and settled before any token moves.
        record_cancellation(env, booking_id, &booking, CancelledBy::Traveller, &settlement);

        transfer_from_contract(
            env,
            &config.token,
            &booking.traveller,
            settlement.traveller_amount,
        );
        transfer_from_contract(env, &config.token, &booking.host, settlement.host_amount);
        transfer_from_contract(env, &config.token, &config.ops_pool, settlement.ops_amount);

        publish_cancellation(env, booking_id, false, &settlement);
        Ok(settlement)
    }

    /// Host cancellation while `Escrowed`. **Auth:** booking host only (not Stello).
    ///
    /// - 100% of the escrow is pushed to the traveller (not reduced by the fee).
    /// - The host pays `config.host_cancel_fee` from the host wallet → operations.
    pub fn cancel_by_host(env: &mut Env, booking_id: u64) -> (result: Result<
        CancelSettlement,
        Error,
    >)
        ensures
            match cancel_by_host_refusal(old(env)@, booking_id) {
                Some(e) => result == Err::<CancelSettlement, Error>(e) && final(env)@ == old(env)@,
                None => {
                    &&& result == Ok::<CancelSettlement, Error>(
                        host_settlement(old(env)@.bookings[booking_id]),
                    )
                    &&& final(env)@ == cancel_by_host_after(old(env)@, booking_id)
                },
            },
            result == Err::<CancelSettlement, Error>(Error::Unauthorized) ==> final(env).denied
                == Some(old(env)@.bookings[booking_id].host),
            result matches Ok(s) ==> {
                &&& s.traveller_amount == old(env).bookings@[booking_id].escrow_amount
                &&& s.host_amount == 0
                &&& s.ops_amount == 0
                &&& final(env).settlements@ == old(env).settlements@.insert(booking_id, s)
            },
            result is Ok && old(env).bookings@[booking_id].booking_id == booking_id
                ==> final(env).bookings@ == old(env).bookings@.insert(
                booking_id,
                Booking {
                    state: BookingState::Cancelled,
                    settled: true,
                    escrow_amount: 0,
                    was_cancelled: true,
                    cancelled_by: CancelledBy::Host,
                    ..old(env).bookings@[booking_id]
                },
            ),
    {
        let mark: usize = env.effects.len();
        let config = match storage::require_config(env) {
            Ok(config) => config,
            Err(e) => return env.refuse(mark, e),
        };
        let booking = match storage::require_booking(env, booking_id) {
            Ok(booking) => booking,
            Err(e) => return env.refuse(mark, e),
        };
        // The host must sign: the Stello wallet cannot act for the host.
        if let Err(e) = env.require_auth(booking.host) {
            return env.refuse(mark, e);
        }
        if let Err(e) = validate_cancellable(&booking) {
            return env.refuse(mark, e);
        }
        let fee: i128 = config.host_cancel_fee;
        if fee <= 0 {
            return env.refuse(mark, Error::InvalidAmount);
        }

        let settlement = CancelSettlement {
            traveller_amount: booking.escrow_amount,
            host_amount: 0,
            ops_amount: 0,
        };

        // The booking is cancelled and settled before any token moves.
        record_cancellation(env, booking_id, &booking, CancelledBy::Host, &settlement);

        // The fee comes from the host wallet, not from escrow.
        env.transfer(config.token, booking.host, config.ops_pool, fee);
        env.publish(
            Event::HostCancellationFeePaid(
                HostCancellationFeePaid {
                    booking_id,
                    host: booking.host,
                    ops: config.ops_pool,
                    amount: fee,
                },
            ),
        );

        // 100% of the escrow → traveller.
        transfer_from_contract(
            env,
            &config.token,
            &booking.traveller,
            settlement.traveller_amount,
        );

        publish_cancellation(env, booking_id, true, &settlement);
        Ok(settlement)
    }

    /// Opens a dispute on a booking that is `Escrowed`, or `Completed` and not
    /// settled (recovery where [`Self::execute_split`] does not go through).
    /// Freezes the escrow: no funds are released. **Auth:** Stello wallet.
    pub fn open_dispute(env: &mut Env, booking_id: u64) -> (result: Result<(), Error>)
        ensures
            match open_dispute_refusal(old(env)@, booking_id) {
                Some(e) => result == Err::<(), Error>(e) && final(env)@ == old(env)@,
                None => {
                    &&& result == Ok::<(), Error>(())
                    &&& final(env)@ == open_dispute_after(old(env)@, booking_id)
                },
            },
            result == Err::<(), Error>(Error::Unauthorized) ==> final(env).denied == Some(
                old(env)@.config.unwrap().stello_wallet,
            ),
            result is Ok && old(env).bookings@[booking_id].booking_id == booking_id
                ==> final(env).bookings@ == old(env).bookings@.insert(
                booking_id,
                Booking {
                    state: BookingState::Disputed,
                    ..old(env).bookings@[booking_id]
                },
            ),
    {
        let mark: usize = env.effects.len();
        let (_, mut booking) = load_for_stello(env, booking_id)?;
        if booking.settled {
            return env.refuse(mark, Error::AlreadySettled);
        }
        if let Err(e) = state_machine::validate_dispute_transition(
            booking.state,
            BookingState::Disputed,
        ) {
            return env.refuse(mark, e);
        }
        if booking.escrow_amount <= 0 {
            return env.refuse(mark, Error::InvalidAmount);
        }

        booking.state = BookingState::Disputed;
        storage::set_booking(env, &booking);
        env.publish(Event::DisputeOpened(DisputeOpened { booking_id }));
        Ok(())
    }

    /// Resolves a dispute with a custom allocation in basis points (they must
    /// sum to 10_000). Pushes the escrow to traveller/host/ops/review/qa/o2o; what
    /// flooring leaves over goes to the traveller. **Auth:** Stello wallet.
    pub fn resolve_dispute(
        env: &mut Env,
        booking_id: u64,
        traveller_bps: u32,
        host_bps: u32,
        ops_bps: u32,
        review_bps: u32,
        qa_bps: u32,
        o2o_bps: u32,
    ) -> (result: Result<SettlementAmounts, Error>)
        ensures
            ({
                let bps = seq![traveller_bps, host_bps, ops_bps, review_bps, qa_bps, o2o_bps];
                match resolve_dispute_refusal(old(env)@, booking_id, bps) {
                    Some(e) => {
                        &&& result == Err::<SettlementAmounts, Error>(e)
                        &&& final(env)@ == old(env)@
                    },
                    None => {
                        &&& result == Ok::<SettlementAmounts, Error>(
                            dispute_settlement(
                                old(env)@.bookings[booking_id].escrow_amount as int,
                                bps,
                            ),
                        )
                        &&& final(env)@ == resolve_dispute_after(old(env)@, booking_id, bps)
                    },
                }
            }),
            result == Err::<SettlementAmounts, Error>(Error::Unauthorized) ==> final(env).denied
                == Some(old(env)@.config.unwrap().stello_wallet),
            result matches Ok(s) ==> {
                let escrow = old(env).bookings@[booking_id].escrow_amount;
                &&& s.host_amount == escrow * host_bps / 10_000
                &&& s.ops_amount == escrow * ops_bps / 10_000
                &&& s.review_amount == escrow * review_bps / 10_000
                &&& s.qa_amount == escrow * qa_bps / 10_000
                &&& s.o2o_amount == escrow * o2o_bps / 10_000
                &&& s.traveller_amount == escrow - s.host_amount - s.ops_amount - s.review_amount
                    - s.qa_amount - s.o2o_amount
            },
            result is Ok && old(env).bookings@[booking_id].booking_id == booking_id
                ==> final(env).bookings@ == old(env).bookings@.insert(
                booking_id,
                Booking {
                    state: BookingState::Completed,
                    settled: true,
                    escrow_amount: 0,
                    ..old(env).bookings@[booking_id]
                },
            ),
    {
        let mark: usize = env.effects.len();
        let (config, mut booking) = load_for_stello(env, booking_id)?;

        if booking.state != BookingState::Disputed {
            return env.refuse(mark, Error::InvalidDispute);
        }
        if booking.settled {
            return env.refuse(mark, Error::AlreadySettled);
        }
        if let Err(e) = state_machine::validate_dispute_transition(
            booking.state,
            BookingState::Completed,
        ) {
            return env.refuse(mark, e);
        }
        if booking.escrow_amount <= 0 {
            return env.refuse(mark, Error::InvalidAmount);
        }

        let escrow: i128 = booking.escrow_amount;
        let bps_list = [traveller_bps, host_bps, ops_bps, review_bps, qa_bps, o2o_bps];
        let ghost bps = seq![traveller_bps, host_bps, ops_bps, review_bps, qa_bps, o2o_bps];
        assert(bps_list@ =~= bps);
        let mut amounts = [0i128; 6];
        let ghost blank = amounts@;
        if let Err(e) = split::compute_bps_amounts(escrow, &bps_list, &mut amounts) {
            return env.refuse(mark, e);
        }
        proof {
            split::bps_allocation_is_exact(escrow, bps, blank);
            six_amounts_total(amounts@);
        }

        let traveller_amount: i128 = amounts[0];
        let host_amount: i128 = amounts[1];
        let ops_amount: i128 = amounts[2];
        let review_amount: i128 = amounts[3];
        let qa_amount: i128 = amounts[4];
        let o2o_amount: i128 = amounts[5];

        let partial = match split::checked_sum5(
            traveller_amount,
            host_amount,
            ops_amount,
            review_amount,
            qa_amount,
        ) {
            Ok(partial) => partial,
            Err(e) => return env.refuse(mark, e),
        };
        let total = match partial.checked_add(o2o_amount) {
            Some(total) => total,
            None => return env.refuse(mark, Error::MathError),
        };
        if total != escrow {
            return env.refuse(mark, Error::MathError);
        }
        if traveller_amount > escrow || host_amount > escrow || ops_amount > escrow || review_amount
            > escrow || qa_amount > escrow || o2o_amount > escrow {
            return env.refuse(mark, Error::EscrowExceedsAmount);
        }

        // The booking is settled before any token moves.
        booking.state = BookingState::Completed;
        booking.settled = true;
        booking.escrow_amount = 0;
        storage::set_booking(env, &booking);

        transfer_from_contract(env, &config.token, &booking.traveller, traveller_amount);
        transfer_from_contract(env, &config.token, &booking.host, host_amount);
        transfer_from_contract(env, &config.token, &config.ops_pool, ops_amount);
        transfer_from_contract(env, &config.token, &config.review_pool, review_amount);
        transfer_from_contract(env, &config.token, &config.qa_pool, qa_amount);
        transfer_from_contract(env, &config.token, &config.o2o_pool, o2o_amount);

        env.publish(
            Event::DisputeResolved(
                DisputeResolved {
                    booking_id,
                    traveller_bps,
                    host_bps,
                    ops_bps,
                    review_bps,
                    qa_bps,
                    o2o_bps,
                },
            ),
        );
        let timestamp: u64 = env.timestamp;
        env.publish(
            Event::SettlementExecuted(
                SettlementExecuted {
                    booking_id,
                    settlement_type: SettlementType::Dispute,
                    traveller_amount,
                    host_amount,
                    ops_amount,
                    review_amount,
                    qa_amount,
                    o2o_amount,
                    timestamp,
                },
            ),
        );
        Ok(
            SettlementAmounts {
                traveller_amount,
                host_amount,
                ops_amount,
                review_amount,
                qa_amount,
                o2o_amount,
            },
        )
    }

    /// Withdraws the claimable balance (if any). **Auth:** claimant.
    pub fn claim_payout(env: &mut Env, who: Address) -> (result: Result<i128, Error>)
        ensures
            match claim_payout_refusal(old(env)@, who) {
                Some(e) => result == Err::<i128, Error>(e) && final(env)@ == old(env)@,
                None => {
                    &&& result == Ok::<i128, Error>(old(env)@.claimable_by(who))
                    &&& final(env)@ == claim_payout_after(old(env)@, who)
                },
            },
            result == Err::<i128, Error>(Error::Unauthorized) ==> final(env).denied == Some(who),
            result matches Ok(amount) ==> {
                &&& amount > 0
                &&& amount == old(env).claimable@[who.id]
                &&& final(env).claimable@ == old(env).claimable@.insert(who.id, 0)
            },
    {
        let mark: usize = env.effects.len();
        env.require_auth(who)?;
        let config = match storage::require_config(env) {
            Ok(config) => config,
            Err(e) => return env.refuse(mark, e),
        };
        let amount: i128 = storage::get_claimable(env, &who);
        if amount <= 0 {
            return env.refuse(mark, Error::NothingToClaim);
        }

        // The balance is zeroed before any token moves.
        storage::set_claimable(env, &who, 0);
        transfer_from_contract(env, &config.token, &who, amount);
        env.publish(
            Event::PayoutClaimed(PayoutClaimed { claimant: who, amount, token: config.token }),
        );
        Ok(amount)
    }

    /// The configuration; reading it extends the instance lifetime.
    pub fn get_config(env: &mut Env) -> (result: Result<Config, Error>)
        ensures
            match old(env)@.config {
                Some(config) => {
                    &&& result == Ok::<Config, Error>(config)
                    &&& final(env)@ == old(env)@.config_read()
                },
                None => {
                    &&& result == Err::<Config, Error>(Error::NotInitialized)
                    &&& final(env)@ == old(env)@
                },
            },
            result matches Ok(config) ==> old(env).config == Some(config),
    {
        storage::require_config(env)
    }

    /// A booking; reading it extends its lifetime.
    pub fn get_booking(env: &mut Env, booking_id: u64) -> (result: Result<Booking, Error>)
        ensures
            match old(env)@.booking(booking_id) {
                Some(booking) => {
                    &&& result == Ok::<Booking, Error>(booking)
                    &&& final(env)@ == old(env)@.booking_read(booking_id)
                },
                None => {
                    &&& result == Err::<Booking, Error>(Error::BookingNotFound)
                    &&& final(env)@ == old(env)@
                },
            },
            result matches Ok(booking) ==> booking == old(env).bookings@[booking_id],
            result is Ok <==> old(env).bookings@.contains_key(booking_id),
    {
        storage::require_booking(env, booking_id)
    }

    /// The state of a booking; reading it extends the booking's lifetime.
    pub fn get_booking_state(env: &mut Env, booking_id: u64) -> (result: Result<
        BookingState,
        Error,
    >)
        ensures
            match old(env)@.booking(booking_id) {
                Some(booking) => {
                    &&& result == Ok::<BookingState, Error>(booking.state)
                    &&& final(env)@ == old(env)@.booking_read(booking_id)
                },
                None => {
                    &&& result == Err::<BookingState, Error>(Error::BookingNotFound)
                    &&& final(env)@ == old(env)@
                },
            },
            result matches Ok(state) ==> state == old(env).bookings@[booking_id].state,
            result is Ok <==> old(env).bookings@.contains_key(booking_id),
    {
        Ok(storage::require_booking(env, booking_id)?.state)
    }

    /// What `who` can claim.
    pub fn get_claimable_balance(env: &Env, who: Address) -> (amount: i128)
        ensures
            amount == env@.claimable_by(who),
            amount == (if env.claimable@.contains_key(who.id) {
                env.claimable@[who.id]
            } else {
                0
            }),
    {
        storage::get_claimable(env, &who)
    }

    /// The settlement of a cancelled booking; reading it extends its lifetime.
    pub fn get_cancel_settlement(env: &mut Env, booking_id: u64) -> (result: Result<
        CancelSettlement,
        Error,
    >)
        ensures
            match old(env)@.settlement(booking_id) {
                Some(settlement) => {
                    &&& result == Ok::<CancelSettlement, Error>(settlement)
                    &&& final(env)@ == old(env)@.settlement_extended(booking_id)
                },
                None => {
                    &&& result == Err::<CancelSettlement, Error>(Error::SettlementNotFound)
                    &&& final(env)@ == old(env)@
                },
            },
            result matches Ok(settlement) ==> settlement == old(env).settlements@[booking_id],
            result is Ok <==> old(env).settlements@.contains_key(booking_id),
    {
        match storage::get_cancel_settlement(env, booking_id) {
            Some(settlement) => Ok(settlement),
            None => Err(Error::SettlementNotFound),
        }
    }
}

/// A resolved dispute gives away exactly the escrow, and no share is negative.
pub proof fn dispute_settlement_is_exact(escrow: i128, bps: Seq<u32>)
    requires
        bps.len() == 6,
        split::bps_amounts_refusal(escrow as int, bps, 6) is None,
    ensures
        ({
            let s = dispute_settlement(escrow as int, bps);
            &&& s.traveller_amount + s.host_amount + s.ops_amount + s.review_amount + s.qa_amount
                + s.o2o_amount == escrow
            &&& s.traveller_amount >= 0 && s.host_amount >= 0 && s.ops_amount >= 0
            &&& s.review_amount >= 0 && s.qa_amount >= 0 && s.o2o_amount >= 0
        }),
{
    let blank = Seq::new(6, |i: int| 0i128);
    let amounts = split::bps_amounts_written(escrow as int, bps, blank);
    split::bps_allocation_is_exact(escrow, bps, blank);
    six_amounts_total(amounts);
    assert(forall|i: int| 0 <= i < 6 ==> 0 <= #[trigger] amounts[i]);
    assert(amounts[0] >= 0 && amounts[1] >= 0 && amounts[2] >= 0);
    assert(amounts[3] >= 0 && amounts[4] >= 0 && amounts[5] >= 0);
}

/// A resolved dispute gives host, operations, review, QA and O2O exactly the share of
/// their own basis points, rounded down, so nothing to one with none, and the traveller the
/// rest.
pub proof fn dispute_shares_are_the_own(
    escrow: i128,
    traveller_bps: u32,
    host_bps: u32,
    ops_bps: u32,
    review_bps: u32,
    qa_bps: u32,
    o2o_bps: u32,
)
    requires
        escrow > 0,
        traveller_bps + host_bps + ops_bps + review_bps + qa_bps + o2o_bps == 10_000,
    ensures
        ({
            let s = dispute_settlement(
                escrow as int,
                seq![traveller_bps, host_bps, ops_bps, review_bps, qa_bps, o2o_bps],
            );
            &&& s.host_amount == escrow * host_bps / 10_000
            &&& s.ops_amount == escrow * ops_bps / 10_000
            &&& s.review_amount == escrow * review_bps / 10_000
            &&& s.qa_amount == escrow * qa_bps / 10_000
            &&& s.o2o_amount == escrow * o2o_bps / 10_000
            &&& s.traveller_amount == escrow - s.host_amount - s.ops_amount - s.review_amount
                - s.qa_amount - s.o2o_amount
            &&& escrow * traveller_bps / 10_000 <= s.traveller_amount <= escrow * traveller_bps
                / 10_000 + 5
        }),
{
    let bps = seq![traveller_bps, host_bps, ops_bps, review_bps, qa_bps, o2o_bps];
    let blank = Seq::new(6, |i: int| 0i128);
    let amounts = split::bps_amounts_written(escrow as int, bps, blank);
    split::six_bps_total(traveller_bps, host_bps, ops_bps, review_bps, qa_bps, o2o_bps);
    split::each_gets_the_own_share(escrow, bps, blank);
    six_amounts_total(amounts);
    let s = dispute_settlement(escrow as int, bps);
    assert(amounts[0] == s.traveller_amount && amounts[1] == s.host_amount);
    assert(amounts[2] == s.ops_amount && amounts[3] == s.review_amount);
    assert(amounts[4] == s.qa_amount && amounts[5] == s.o2o_amount);
    assert(escrow * 10_000 == escrow * traveller_bps + escrow * host_bps + escrow * ops_bps + escrow
        * review_bps + escrow * qa_bps + escrow * o2o_bps) by (nonlinear_arith)
        requires
            traveller_bps + host_bps + ops_bps + review_bps + qa_bps + o2o_bps == 10_000,
    ;
}

/// The total of six amounts, written out.
proof fn six_amounts_total(amounts: Seq<i128>)
    requires
        amounts.len() == 6,
    ensures
        split::amounts_total(amounts.take(6)) == amounts[0] + amounts[1] + amounts[2] + amounts[3]
            + amounts[4] + amounts[5],
{
    reveal_with_fuel(split::amounts_total, 7);
}

} // verus!
