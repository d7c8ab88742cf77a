//! What holds of the contract as a whole, over every call and every history of
//! calls.
use vstd::prelude::*;

use crate::contract;
use crate::env::{Effect, EnvView};
use crate::errors::Error;
use crate::state_machine;
use crate::types::{Address, Booking, BookingState, CancelledBy, Config};

verus! {

/// A call that can change something.
pub enum Call {
    Initialize(Config),
    Book { traveller: Address, host: Address, amount: i128, start_time: u64 },
    UpdateBooking { booking_id: u64, host: Address, amount: i128, start_time: u64 },
    LockEscrow { booking_id: u64, amount: i128 },
    CheckIn { booking_id: u64 },
    Complete { booking_id: u64 },
    ExecuteSplit { booking_id: u64 },
    CancelByTraveller { booking_id: u64 },
    CancelByHost { booking_id: u64 },
    OpenDispute { booking_id: u64 },
    ResolveDispute { booking_id: u64, bps: Seq<u32> },
    ClaimPayout { who: Address },
}

/// What the type of a call's arguments and the number range of booking numbers
/// allow.
pub open spec fn possible(env: EnvView, call: Call) -> bool {
    match call {
        Call::Book { .. } => env.upcoming_id() < u64::MAX,
        Call::ResolveDispute { bps, .. } => bps.len() == 6,
        _ => true,
    }
}

/// Why a call is refused, if it is.
pub open spec fn refusal(env: EnvView, call: Call) -> Option<Error> {
    match call {
        Call::Initialize(config) => contract::initialize_refusal(env, config),
        Call::Book { traveller, host, amount, start_time } => contract::book_refusal(
            env,
            traveller,
            host,
            amount,
            start_time,
        ),
        Call::UpdateBooking { booking_id, host, amount, start_time } =>
            contract::update_booking_refusal(env, booking_id, host, amount, start_time),
        Call::LockEscrow { booking_id, amount } => contract::lock_escrow_refusal(
            env,
            booking_id,
            amount,
        ),
        Call::CheckIn { booking_id } => contract::check_in_refusal(env, booking_id),
        Call::Complete { booking_id } => contract::complete_refusal(env, booking_id),
        Call::ExecuteSplit { booking_id } => contract::execute_split_refusal(env, booking_id),
        Call::CancelByTraveller { booking_id } => contract::cancel_by_traveller_refusal(
            env,
            booking_id,
        ),
        Call::CancelByHost { booking_id } => contract::cancel_by_host_refusal(env, booking_id),
        Call::OpenDispute { booking_id } => contract::open_dispute_refusal(env, booking_id),
        Call::ResolveDispute { booking_id, bps } => contract::resolve_dispute_refusal(
            env,
            booking_id,
            bps,
        ),
        Call::ClaimPayout { who } => contract::claim_payout_refusal(env, who),
    }
}

/// The environment after a call that is not refused.
pub open spec fn after(env: EnvView, call: Call) -> EnvView {
    match call {
        Call::Initialize(config) => env.config_written(config),
        Call::Book { traveller, host, amount, start_time } => contract::book_after(
            env,
            traveller,
            host,
            amount,
            start_time,
        ),
        Call::UpdateBooking { booking_id, host, amount, start_time } =>
            contract::update_booking_after(env, booking_id, host, amount, start_time),
        Call::LockEscrow { booking_id, amount } => contract::lock_escrow_after(
            env,
            booking_id,
            amount,
        ),
        Call::CheckIn { booking_id } => contract::check_in_after(env, booking_id),
        Call::Complete { booking_id } => contract::complete_after(env, booking_id),
        Call::ExecuteSplit { booking_id } => contract::execute_split_after(env, booking_id),
        Call::CancelByTraveller { booking_id } => contract::cancel_by_traveller_after(
            env,
            booking_id,
        ),
        Call::CancelByHost { booking_id } => contract::cancel_by_host_after(env, booking_id),
        Call::OpenDispute { booking_id } => contract::open_dispute_after(env, booking_id),
        Call::ResolveDispute { booking_id, bps } => contract::resolve_dispute_after(
            env,
            booking_id,
            bps,
        ),
        Call::ClaimPayout { who } => contract::claim_payout_after(env, who),
    }
}

/// The environment after a call, refused or not.
pub open spec fn step(env: EnvView, call: Call) -> EnvView {
    if refusal(env, call) is None {
        after(env, call)
    } else {
        env
    }
}

/// The booking that a call writes, if it writes one.
pub open spec fn written(env: EnvView, call: Call) -> Option<Booking> {
    match call {
        Call::Initialize(_) => None,
        Call::Book { traveller, host, amount, start_time } => Some(
            contract::new_booking(env, traveller, host, amount, start_time),
        ),
        Call::UpdateBooking { booking_id, host, amount, start_time } => Some(
            Booking { host, amount, start_time, ..env.bookings[booking_id] },
        ),
        Call::LockEscrow { booking_id, amount } => Some(
            Booking {
                state: BookingState::Escrowed,
                escrow_locked: true,
                escrow_amount: amount,
                ..env.bookings[booking_id]
            },
        ),
        Call::CheckIn { booking_id } => Some(
            Booking {
                state: BookingState::CheckedIn,
                checked_in: true,
                ..env.bookings[booking_id]
            },
        ),
        Call::Complete { booking_id } => Some(
            Booking { state: BookingState::Completed, ..env.bookings[booking_id] },
        ),
        Call::ExecuteSplit { booking_id } => Some(
            contract::settled_booking(env.bookings[booking_id], BookingState::Completed),
        ),
        Call::CancelByTraveller { booking_id } => Some(
            contract::cancelled_booking(env.bookings[booking_id], CancelledBy::Traveller),
        ),
        Call::CancelByHost { booking_id } => Some(
            contract::cancelled_booking(env.bookings[booking_id], CancelledBy::Host),
        ),
        Call::OpenDispute { booking_id } => Some(
            Booking { state: BookingState::Disputed, ..env.bookings[booking_id] },
        ),
        Call::ResolveDispute { booking_id, .. } => Some(
            contract::settled_booking(env.bookings[booking_id], BookingState::Completed),
        ),
        Call::ClaimPayout { .. } => None,
    }
}

/// What a call makes of the entries, its effects left aside.
pub open spec fn entries_after(env: EnvView, call: Call, effects: Seq<Effect>) -> EnvView {
    EnvView {
        config: match call {
            Call::Initialize(config) => Some(config),
            _ => env.config,
        },
        next_booking_id: match call {
            Call::Book { .. } => Some((env.upcoming_id() + 1) as u64),
            _ => env.next_booking_id,
        },
        bookings: match written(env, call) {
            Some(b) => env.bookings.insert(b.booking_id, b),
            None => env.bookings,
        },
        settlements: match call {
            Call::CancelByTraveller { booking_id } => env.settlements.insert(
                booking_id,
                contract::traveller_settlement(env, booking_id),
            ),
            Call::CancelByHost { booking_id } => env.settlements.insert(
                booking_id,
                contract::host_settlement(env.bookings[booking_id]),
            ),
            _ => env.settlements,
        },
        claimable: match call {
            Call::ClaimPayout { who } => env.claimable.insert(who.id, 0),
            _ => env.claimable,
        },
        effects,
        ..env
    }
}

/// A call touches no entries but the ones it names: at most one booking, its
/// settlement, the configuration, the booking counter, one claimable balance.
pub proof fn calls_touch_only_their_entries(env: EnvView, call: Call)
    ensures
        after(env, call) == entries_after(env, call, after(env, call).effects),
{
}

/// What the fields of a booking say about each other in each state.
pub open spec fn booking_consistent(b: Booking) -> bool {
    &&& b.amount > 0
    &&& b.traveller != b.host
    &&& b.was_cancelled <==> b.state == BookingState::Cancelled
    &&& b.was_cancelled <==> b.cancelled_by != CancelledBy::Nobody
    &&& b.escrow_locked <==> b.state != BookingState::Created
    &&& b.escrow_amount == if b.escrow_locked && !b.settled {
        b.amount as int
    } else {
        0
    }
    &&& match b.state {
        BookingState::Created => !b.settled && !b.checked_in,
        BookingState::Escrowed => !b.settled && !b.checked_in,
        BookingState::CheckedIn => !b.settled && b.checked_in,
        BookingState::Completed => b.settled || b.checked_in,
        BookingState::Cancelled => b.settled && !b.checked_in,
        BookingState::Disputed => !b.settled,
    }
}

/// What the entries of the contract say about each other.
pub open spec fn consistent(env: EnvView) -> bool {
    &&& env.config matches Some(config) ==> config.host_cancel_fee >= 0
    &&& env.upcoming_id() >= 1
    &&& forall|id: u64| #[trigger]
        env.bookings.contains_key(id) ==> {
            let b = env.bookings[id];
            &&& b.booking_id == id
            &&& 1 <= id < env.upcoming_id()
            &&& env.config matches Some(config) && b.token == config.token
            &&& booking_consistent(b)
            &&& b.was_cancelled <==> env.settlements.contains_key(id)
        }
    &&& forall|id: u64| #[trigger]
        env.settlements.contains_key(id) ==> {
            let s = env.settlements[id];
            &&& env.bookings.contains_key(id)
            &&& s.traveller_amount >= 0 && s.host_amount >= 0 && s.ops_amount >= 0
            &&& s.traveller_amount + s.host_amount + s.ops_amount == env.bookings[id].amount
        }
}

/// A contract without any entry is consistent.
pub proof fn empty_contract_is_consistent(env: EnvView)
    requires
        env.config is None,
        env.next_booking_id is None,
        env.bookings == Map::<u64, Booking>::empty(),
        env.settlements.dom() == Set::<u64>::empty(),
    ensures
        consistent(env),
{
}

/// No call, refused or not, makes a consistent contract inconsistent.
pub proof fn calls_keep_the_contract_consistent(env: EnvView, call: Call)
    requires
        consistent(env),
        possible(env, call),
    ensures
        consistent(step(env, call)),
{
    if refusal(env, call) is None {
        calls_touch_only_their_entries(env, call);
        match call {
            Call::CancelByTraveller { booking_id } => {
                let b = env.bookings[booking_id];
                crate::refund::refund_is_exact(
                    b.escrow_amount,
                    b.start_time,
                    env.timestamp,
                    CancelledBy::Traveller,
                );
            },
            _ => {},
        }
    }
}

/// The booking that a call is about, if it is about an existing one.
pub open spec fn subject(call: Call) -> Option<u64> {
    match call {
        Call::Initialize(_) => None,
        Call::Book { .. } => None,
        Call::UpdateBooking { booking_id, .. } => Some(booking_id),
        Call::LockEscrow { booking_id, .. } => Some(booking_id),
        Call::CheckIn { booking_id } => Some(booking_id),
        Call::Complete { booking_id } => Some(booking_id),
        Call::ExecuteSplit { booking_id } => Some(booking_id),
        Call::CancelByTraveller { booking_id } => Some(booking_id),
        Call::CancelByHost { booking_id } => Some(booking_id),
        Call::OpenDispute { booking_id } => Some(booking_id),
        Call::ResolveDispute { booking_id, .. } => Some(booking_id),
        Call::ClaimPayout { .. } => None,
    }
}

/// The booking whose escrow a call releases, if it releases one.
pub open spec fn settles(call: Call) -> Option<u64> {
    match call {
        Call::ExecuteSplit { booking_id } => Some(booking_id),
        Call::CancelByTraveller { booking_id } => Some(booking_id),
        Call::CancelByHost { booking_id } => Some(booking_id),
        Call::ResolveDispute { booking_id, .. } => Some(booking_id),
        _ => None,
    }
}

/// One invocation in a history: a call, the time of it, and who signed it.
pub struct Invocation {
    pub call: Call,
    pub timestamp: u64,
    pub signers: Seq<Address>,
}

/// What an invocation finds: the entries as they stand, its own time and signers,
/// and no effect yet.
pub open spec fn entered(env: EnvView, invocation: Invocation) -> EnvView {
    EnvView {
        timestamp: invocation.timestamp,
        signers: invocation.signers,
        effects: Seq::empty(),
        ..env
    }
}

/// The environment after a history of invocations.
pub open spec fn run(env: EnvView, history: Seq<Invocation>) -> EnvView
    decreases history.len(),
{
    if history.len() == 0 {
        env
    } else {
        let before = run(env, history.drop_last());
        step(entered(before, history.last()), history.last().call)
    }
}

/// Whether each invocation of a history is possible when it comes.
pub open spec fn possible_history(env: EnvView, history: Seq<Invocation>) -> bool
    decreases history.len(),
{
    history.len() > 0 ==> {
        &&& possible_history(env, history.drop_last())
        &&& possible(
            entered(run(env, history.drop_last()), history.last()),
            history.last().call,
        )
    }
}

/// Whatever is called, whenever, and by whomever: the contract stays consistent.
pub proof fn every_history_keeps_the_contract_consistent(env: EnvView, history: Seq<Invocation>)
    requires
        consistent(env),
        possible_history(env, history),
    ensures
        consistent(run(env, history)),
    decreases history.len(),
{
    if history.len() > 0 {
        let before = run(env, history.drop_last());
        every_history_keeps_the_contract_consistent(env, history.drop_last());
        assert(consistent(entered(before, history.last())));
        calls_keep_the_contract_consistent(entered(before, history.last()), history.last().call);
    }
}

/// The configuration is set once: from then on `initialize` is refused, and no
/// call changes it.
pub proof fn configuration_is_set_once(env: EnvView, call: Call)
    requires
        env.config is Some,
    ensures
        step(env, call).config == env.config,
        call is Initialize ==> refusal(env, call) == Some(Error::AlreadyInitialized),
{
    calls_touch_only_their_entries(env, call);
}

/// A booking is never lost, and its number, references, traveller, token and time
/// of creation never change.
pub proof fn identity_of_a_booking_never_changes(env: EnvView, call: Call, id: u64)
    requires
        consistent(env),
        possible(env, call),
        env.bookings.contains_key(id),
    ensures
        step(env, call).bookings.contains_key(id),
        ({
            let old_booking = env.bookings[id];
            let new_booking = step(env, call).bookings[id];
            &&& new_booking.booking_id == old_booking.booking_id
            &&& new_booking.booking_ref == old_booking.booking_ref
            &&& new_booking.service_ref == old_booking.service_ref
            &&& new_booking.traveller == old_booking.traveller
            &&& new_booking.token == old_booking.token
            &&& new_booking.created_at == old_booking.created_at
        }),
{
    calls_touch_only_their_entries(env, call);
    if let Some(subject_id) = subject(call) {
        assert(env.bookings.contains_key(subject_id) || refusal(env, call) is Some);
    }
}

/// A new booking gets a number that no booking has, and the one after it gets
/// the next number.
pub proof fn booking_numbers_are_fresh_and_sequential(
    env: EnvView,
    traveller: Address,
    host: Address,
    amount: i128,
    start_time: u64,
)
    requires
        consistent(env),
        env.upcoming_id() < u64::MAX,
        contract::book_refusal(env, traveller, host, amount, start_time) is None,
    ensures
        !env.bookings.contains_key(env.upcoming_id()),
        ({
            let booked = contract::book_after(env, traveller, host, amount, start_time);
            &&& booked.booking(env.upcoming_id()) == Some(
                contract::new_booking(env, traveller, host, amount, start_time),
            )
            &&& booked.upcoming_id() == env.upcoming_id() + 1
        }),
{
    let call = Call::Book { traveller, host, amount, start_time };
    calls_touch_only_their_entries(env, call);
    assert(refusal(env, call) is None);
}

/// A call on one booking leaves every other booking as it is, and `book` leaves
/// all of them.
pub proof fn other_bookings_stay_as_they_are(env: EnvView, call: Call, id: u64)
    requires
        consistent(env),
        possible(env, call),
        env.bookings.contains_key(id),
        subject(call) != Some(id),
    ensures
        step(env, call).bookings.contains_key(id),
        step(env, call).bookings[id] == env.bookings[id],
        step(env, call).settlement(id) == env.settlement(id),
{
    calls_touch_only_their_entries(env, call);
    if let Some(subject_id) = subject(call) {
        assert(env.bookings.contains_key(subject_id) || refusal(env, call) is Some);
    }
}

/// A booking changes its state only along an edge of the lifecycle or of a
/// dispute.
pub proof fn states_change_along_edges(env: EnvView, call: Call, id: u64)
    requires
        consistent(env),
        possible(env, call),
        env.bookings.contains_key(id),
    ensures
        ({
            let from = env.bookings[id].state;
            let to = step(env, call).bookings[id].state;
            from == to || state_machine::is_lifecycle_edge(from, to)
                || state_machine::is_dispute_edge(from, to)
        }),
{
    calls_touch_only_their_entries(env, call);
    if let Some(subject_id) = subject(call) {
        assert(env.bookings.contains_key(subject_id) || refusal(env, call) is Some);
    }
}

/// A settled booking is final: every call on it is refused, so it is never
/// settled twice and never changes again.
pub proof fn settled_bookings_are_final(env: EnvView, call: Call, id: u64)
    requires
        consistent(env),
        possible(env, call),
        env.bookings.contains_key(id),
        env.bookings[id].settled,
    ensures
        subject(call) == Some(id) ==> refusal(env, call) is Some,
        step(env, call).bookings.contains_key(id),
        step(env, call).bookings[id] == env.bookings[id],
        call == (Call::ExecuteSplit { booking_id: id }) && contract::stello_refusal(env) is None
            && env.bookings[id].state == BookingState::Completed ==> refusal(env, call) == Some(
            Error::AlreadySettled,
        ),
{
    calls_touch_only_their_entries(env, call);
    if let Some(subject_id) = subject(call) {
        assert(env.bookings.contains_key(subject_id) || refusal(env, call) is Some);
    }
}

/// A dispute freezes a booking: until it is resolved, every other call on the
/// booking is refused.
pub proof fn disputes_freeze_the_booking(env: EnvView, call: Call, id: u64)
    requires
        consistent(env),
        env.bookings.contains_key(id),
        env.bookings[id].state == BookingState::Disputed,
        subject(call) == Some(id),
        !(call is ResolveDispute),
    ensures
        refusal(env, call) is Some,
        step(env, call) == env,
{
}

/// In a consistent contract the escrow can always be locked for the agreed
/// amount while the booking is `Created` and the two signatures are there, and
/// what is locked is exactly the amount.
pub proof fn agreed_amount_can_be_locked(env: EnvView, id: u64)
    requires
        consistent(env),
        env.bookings.contains_key(id),
        env.bookings[id].state == BookingState::Created,
        contract::stello_refusal(env) is None,
        env.signed_by(env.bookings[id].traveller),
    ensures
        contract::lock_escrow_refusal(env, id, env.bookings[id].amount) is None,
        ({
            let locked = contract::lock_escrow_after(env, id, env.bookings[id].amount).bookings[id];
            locked.escrow_amount == locked.amount && locked.amount == env.bookings[id].amount
        }),
{
    calls_touch_only_their_entries(
        env,
        Call::LockEscrow { booking_id: id, amount: env.bookings[id].amount },
    );
}

/// The way of a booking through the lifecycle: with the signatures of the Stello
/// wallet and the traveller, an escrowed booking follows on a created one, then
/// check-in, completion and settlement each go through in turn, and the booking
/// ends up completed and settled with an empty escrow.
pub proof fn lifecycle_goes_through(env: EnvView, id: u64)
    requires
        consistent(env),
        env.bookings.contains_key(id),
        env.bookings[id].state == BookingState::Created,
        contract::stello_refusal(env) is None,
        env.signed_by(env.bookings[id].traveller),
        crate::split::completion_split_refusal(env.bookings[id].amount as int) is None,
    ensures
        ({
            let amount = env.bookings[id].amount;
            let locked = contract::lock_escrow_after(env, id, amount);
            let checked_in = contract::check_in_after(locked, id);
            let completed = contract::complete_after(checked_in, id);
            let settled = contract::execute_split_after(completed, id);
            &&& contract::lock_escrow_refusal(env, id, amount) is None
            &&& contract::check_in_refusal(locked, id) is None
            &&& contract::complete_refusal(checked_in, id) is None
            &&& contract::execute_split_refusal(completed, id) is None
            &&& settled.bookings[id].state == BookingState::Completed
            &&& settled.bookings[id].settled
            &&& settled.bookings[id].escrow_amount == 0
        }),
{
    let amount = env.bookings[id].amount;
    let locked = contract::lock_escrow_after(env, id, amount);
    let checked_in = contract::check_in_after(locked, id);
    let completed = contract::complete_after(checked_in, id);
    calls_touch_only_their_entries(env, Call::LockEscrow { booking_id: id, amount });
    calls_touch_only_their_entries(locked, Call::CheckIn { booking_id: id });
    calls_touch_only_their_entries(checked_in, Call::Complete { booking_id: id });
    calls_touch_only_their_entries(completed, Call::ExecuteSplit { booking_id: id });
}

/// Recovery: a booking that was completed but not settled can be disputed, and
/// the dispute can be resolved with any allocation that adds up and whose
/// products fit; the booking is then completed and settled.
pub proof fn unsettled_completion_can_be_recovered(env: EnvView, id: u64, bps: Seq<u32>)
    requires
        consistent(env),
        env.bookings.contains_key(id),
        env.bookings[id].state == BookingState::Completed,
        !env.bookings[id].settled,
        contract::stello_refusal(env) is None,
        crate::split::bps_amounts_refusal(env.bookings[id].amount as int, bps, 6) is None,
    ensures
        contract::open_dispute_refusal(env, id) is None,
        ({
            let disputed = contract::open_dispute_after(env, id);
            let resolved = contract::resolve_dispute_after(disputed, id, bps);
            &&& contract::resolve_dispute_refusal(disputed, id, bps) is None
            &&& resolved.bookings[id].state == BookingState::Completed
            &&& resolved.bookings[id].settled
            &&& resolved.bookings[id].escrow_amount == 0
        }),
{
    let disputed = contract::open_dispute_after(env, id);
    calls_touch_only_their_entries(env, Call::OpenDispute { booking_id: id });
    calls_touch_only_their_entries(disputed, Call::ResolveDispute { booking_id: id, bps });
}

/// A cancellation is on record: its settlement can be read back, and adds up to
/// the escrow.
pub proof fn cancellations_are_on_record(env: EnvView, id: u64, by_host: bool)
    requires
        consistent(env),
        refusal(
            env,
            if by_host {
                Call::CancelByHost { booking_id: id }
            } else {
                Call::CancelByTraveller { booking_id: id }
            },
        ) is None,
    ensures
        ({
            let cancelled = after(
                env,
                if by_host {
                    Call::CancelByHost { booking_id: id }
                } else {
                    Call::CancelByTraveller { booking_id: id }
                },
            );
            &&& cancelled.settlement(id) matches Some(s) && s.traveller_amount + s.host_amount
                + s.ops_amount == env.bookings[id].escrow_amount
            &&& cancelled.settlement(id) == Some(
                if by_host {
                    contract::host_settlement(env.bookings[id])
                } else {
                    contract::traveller_settlement(env, id)
                },
            )
        }),
{
    let call = if by_host {
        Call::CancelByHost { booking_id: id }
    } else {
        Call::CancelByTraveller { booking_id: id }
    };
    calls_touch_only_their_entries(env, call);
    let b = env.bookings[id];
    if !by_host {
        crate::refund::refund_is_exact(
            b.escrow_amount,
            b.start_time,
            env.timestamp,
            CancelledBy::Traveller,
        );
    }
}

/// Whose signature a call needs.
pub open spec fn authority(env: EnvView, call: Call) -> Address {
    match call {
        Call::Initialize(config) => config.stello_wallet,
        Call::CancelByHost { booking_id } => env.bookings[booking_id].host,
        Call::ClaimPayout { who } => who,
        _ => env.config.unwrap().stello_wallet,
    }
}

/// No call goes through without the signature of the one who may make it: the
/// host for a host's cancellation, the claimant for a claim, the Stello wallet for
/// the rest. Locking an escrow also takes the traveller's.
pub proof fn calls_need_their_signatures(env: EnvView, call: Call)
    requires
        refusal(env, call) is None,
    ensures
        env.signed_by(authority(env, call)),
        call matches Call::LockEscrow { booking_id, .. } ==> env.signed_by(
            env.bookings[booking_id].traveller,
        ),
{
}

/// Settlement pushes: no call ever credits a claimable balance, so whoever has
/// nothing to claim still has nothing to claim afterwards.
pub proof fn no_call_credits_a_claimable_balance(env: EnvView, call: Call, who: Address)
    requires
        env.claimable_by(who) <= 0,
    ensures
        step(env, call).claimable_by(who) <= 0,
{
    calls_touch_only_their_entries(env, call);
}

/// Every part of a possible history is possible, and a consistent contract is
/// consistent after it.
proof fn parts_of_a_history(env: EnvView, history: Seq<Invocation>)
    requires
        history.len() > 0,
        consistent(env),
        possible_history(env, history),
    ensures
        possible_history(env, history.drop_last()),
        consistent(entered(run(env, history.drop_last()), history.last())),
        possible(entered(run(env, history.drop_last()), history.last()), history.last().call),
{
    every_history_keeps_the_contract_consistent(env, history.drop_last());
}

/// Over every history the configuration is set at most once: from the moment that
/// it is there it stays, and `initialize` is refused.
pub proof fn every_history_keeps_the_configuration(env: EnvView, history: Seq<Invocation>, k: int)
    requires
        0 <= k <= history.len(),
        run(env, history.take(k)).config is Some,
    ensures
        run(env, history).config == run(env, history.take(k)).config,
        forall|config: Config|
            #![trigger contract::initialize_refusal(run(env, history), config)]
            contract::initialize_refusal(run(env, history), config) == Some(
                Error::AlreadyInitialized,
            ),
    decreases history.len(),
{
    if k < history.len() {
        let head = history.drop_last();
        assert(head.take(k) =~= history.take(k));
        every_history_keeps_the_configuration(env, head, k);
        configuration_is_set_once(entered(run(env, head), history.last()), history.last().call);
    } else {
        assert(history.take(k) =~= history);
    }
}

/// Over every history a settled booking is final: from the moment that a booking
/// is settled it never changes again, so it is settled only once.
pub proof fn every_history_keeps_settled_bookings(
    env: EnvView,
    history: Seq<Invocation>,
    k: int,
    id: u64,
)
    requires
        consistent(env),
        possible_history(env, history),
        0 <= k <= history.len(),
        run(env, history.take(k)).bookings.contains_key(id),
        run(env, history.take(k)).bookings[id].settled,
    ensures
        run(env, history).bookings.contains_key(id),
        run(env, history).bookings[id] == run(env, history.take(k)).bookings[id],
        forall|i: int|
            k <= i < history.len() && subject(#[trigger] history[i].call) == Some(id) ==> refusal(
                entered(run(env, history.take(i)), history[i]),
                history[i].call,
            ) is Some,
    decreases history.len(),
{
    if k < history.len() {
        let head = history.drop_last();
        let last = history.last();
        assert(head.take(k) =~= history.take(k));
        parts_of_a_history(env, history);
        every_history_keeps_settled_bookings(env, head, k, id);
        settled_bookings_are_final(entered(run(env, head), last), last.call, id);
        assert forall|i: int|
            k <= i < history.len() && subject(
                #[trigger] history[i].call,
            ) == Some(id) implies refusal(
            entered(run(env, history.take(i)), history[i]),
            history[i].call,
        ) is Some by {
            if i < head.len() {
                assert(head[i].call == history[i].call);
                assert(head.take(i) =~= history.take(i));
            } else {
                assert(history.take(i) =~= head);
            }
        }
    } else {
        assert(history.take(k) =~= history);
    }
}

/// Over every history a booking is never lost, and its number, references,
/// traveller, token and time of creation never change.
pub proof fn every_history_keeps_the_identity_of_bookings(
    env: EnvView,
    history: Seq<Invocation>,
    k: int,
    id: u64,
)
    requires
        consistent(env),
        possible_history(env, history),
        0 <= k <= history.len(),
        run(env, history.take(k)).bookings.contains_key(id),
    ensures
        run(env, history).bookings.contains_key(id),
        ({
            let earlier = run(env, history.take(k)).bookings[id];
            let later = run(env, history).bookings[id];
            &&& later.booking_id == earlier.booking_id
            &&& later.booking_ref == earlier.booking_ref
            &&& later.service_ref == earlier.service_ref
            &&& later.traveller == earlier.traveller
            &&& later.token == earlier.token
            &&& later.created_at == earlier.created_at
        }),
    decreases history.len(),
{
    if k < history.len() {
        let head = history.drop_last();
        let last = history.last();
        assert(head.take(k) =~= history.take(k));
        parts_of_a_history(env, history);
        every_history_keeps_the_identity_of_bookings(env, head, k, id);
        identity_of_a_booking_never_changes(entered(run(env, head), last), last.call, id);
    } else {
        assert(history.take(k) =~= history);
    }
}

/// How many bookings a history makes.
pub open spec fn bookings_made(env: EnvView, history: Seq<Invocation>) -> nat
    decreases history.len(),
{
    if history.len() == 0 {
        0
    } else {
        let head = history.drop_last();
        let last = history.last();
        bookings_made(env, head) + if last.call is Book && refusal(
            entered(run(env, head), last),
            last.call,
        ) is None {
            1nat
        } else {
            0nat
        }
    }
}

/// After any history of a contract that starts out empty, the bookings are
/// numbered 1, 2, 3, ... without a gap: there are as many as were made, and the
/// next number is one more than that.
pub proof fn every_history_numbers_bookings_in_sequence(env: EnvView, history: Seq<Invocation>)
    requires
        env.config is None,
        env.next_booking_id is None,
        env.bookings == Map::<u64, Booking>::empty(),
        env.settlements.dom() == Set::<u64>::empty(),
        possible_history(env, history),
    ensures
        run(env, history).upcoming_id() == bookings_made(env, history) + 1,
        run(env, history).bookings.dom().finite(),
        run(env, history).bookings.len() == bookings_made(env, history),
        forall|id: u64| #[trigger]
            run(env, history).bookings.contains_key(id) <==> 1 <= id <= bookings_made(env, history),
    decreases history.len(),
{
    if history.len() > 0 {
        let head = history.drop_last();
        let last = history.last();
        let before = entered(run(env, head), last);
        empty_contract_is_consistent(env);
        parts_of_a_history(env, history);
        every_history_numbers_bookings_in_sequence(env, head);
        calls_touch_only_their_entries(before, last.call);
        assert(before.bookings == run(env, head).bookings);
        if refusal(before, last.call) is None {
            match last.call {
                Call::Book { traveller, host, amount, start_time } => {
                    booking_numbers_are_fresh_and_sequential(
                        before,
                        traveller,
                        host,
                        amount,
                        start_time,
                    );
                },
                _ => {
                    if let Some(b) = written(before, last.call) {
                        assert(before.bookings.contains_key(b.booking_id));
                        assert(before.bookings.insert(b.booking_id, b).dom()
                            =~= before.bookings.dom());
                    }
                },
            }
        }
    }
}

} // verus!
