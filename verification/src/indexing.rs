//! What can be read off the events: summing the settlement events accounts for the
//! escrow exactly, call by call and over every history.
use vstd::prelude::*;

use crate::accounting;
use crate::contract;
use crate::env::{Effect, EnvView};
use crate::events::Event;
use crate::laws;
use crate::laws::{Call, Invocation};
use crate::refund;
use crate::split;
use crate::types::{Address, Booking, CancelledBy, SettlementType};

verus! {

/// A figure that an indexer keeps.
pub enum Figure {
    /// How many settlement events there are.
    Settlements,
    /// What the settlement events say was paid out of escrow.
    Settled,
    /// How many lock events there are.
    Locks,
    /// What the lock events say was paid into escrow.
    Locked,
    /// How many cancellation events there are.
    Cancellations,
    /// How many events of a host's cancellation fee there are.
    Fees,
    /// What these say hosts paid to operations, outside of escrow.
    FeesPaid,
}

/// What one effect adds to a figure on the bookings in `about`.
pub open spec fn figure_of(effect: Effect, figure: Figure, about: Set<u64>) -> int {
    match effect {
        Effect::Publish(Event::SettlementExecuted(event)) if about.contains(event.booking_id) =>
            match figure {
                Figure::Settlements => 1,
                Figure::Settled => event.total(),
                _ => 0,
            },
        Effect::Publish(Event::EscrowLocked(event)) if about.contains(event.booking_id) =>
            match figure {
                Figure::Locks => 1,
                Figure::Locked => event.amount as int,
                _ => 0,
            },
        Effect::Publish(Event::BookingCancelled(event)) if about.contains(event.booking_id) =>
            match figure {
                Figure::Cancellations => 1,
                _ => 0,
            },
        Effect::Publish(Event::HostCancellationFeePaid(event)) if about.contains(
            event.booking_id,
        ) => match figure {
            Figure::Fees => 1,
            Figure::FeesPaid => event.amount as int,
            _ => 0,
        },
        _ => 0,
    }
}

/// A figure over a list of effects.
pub open spec fn total(effects: Seq<Effect>, figure: Figure, about: Set<u64>) -> int
    decreases effects.len(),
{
    if effects.len() == 0 {
        0
    } else {
        total(effects.drop_last(), figure, about) + figure_of(effects.last(), figure, about)
    }
}

broadcast proof fn total_with_effect(
    env: EnvView,
    effect: Effect,
    figure: Figure,
    about: Set<u64>,
)
    ensures
        #[trigger] total(env.with_effect(effect).effects, figure, about) == total(
            env.effects,
            figure,
            about,
        ) + figure_of(effect, figure, about),
{
    assert(env.with_effect(effect).effects.drop_last() =~= env.effects);
}

broadcast proof fn total_paid_out(
    env: EnvView,
    token: Address,
    to: Address,
    amount: i128,
    figure: Figure,
    about: Set<u64>,
)
    ensures
        #[trigger] total(env.paid_out(token, to, amount).effects, figure, about) == total(
            env.effects,
            figure,
            about,
        ),
{
    broadcast use total_with_effect;

}

broadcast proof fn total_booking_kept(env: EnvView, b: Booking, figure: Figure, about: Set<u64>)
    ensures
        #[trigger] total(env.booking_kept(b).effects, figure, about) == total(
            env.effects,
            figure,
            about,
        ),
{
    broadcast use total_with_effect;

}

broadcast group totals {
    total_with_effect,
    total_paid_out,
    total_booking_kept,
}

proof fn total_of_both(first: Seq<Effect>, second: Seq<Effect>, figure: Figure, about: Set<u64>)
    ensures
        total(first + second, figure, about) == total(first, figure, about) + total(
            second,
            figure,
            about,
        ),
    decreases second.len(),
{
    if second.len() == 0 {
        assert(first + second =~= first);
    } else {
        total_of_both(first, second.drop_last(), figure, about);
        assert((first + second).drop_last() =~= first + second.drop_last());
    }
}

/// What a call adds to a figure on the bookings in `about`.
pub open spec fn figure_added(env: EnvView, call: Call, figure: Figure, about: Set<u64>) -> int {
    match figure {
        Figure::Settlements => match laws::settles(call) {
            Some(id) if about.contains(id) => 1,
            _ => 0,
        },
        Figure::Settled => match laws::settles(call) {
            Some(id) if about.contains(id) => env.bookings[id].escrow_amount as int,
            _ => 0,
        },
        Figure::Locks => match call {
            Call::LockEscrow { booking_id, .. } if about.contains(booking_id) => 1,
            _ => 0,
        },
        Figure::Locked => match call {
            Call::LockEscrow { booking_id, amount } if about.contains(booking_id) => amount as int,
            _ => 0,
        },
        Figure::Cancellations => match call {
            Call::CancelByTraveller { booking_id } if about.contains(booking_id) => 1,
            Call::CancelByHost { booking_id } if about.contains(booking_id) => 1,
            _ => 0,
        },
        Figure::Fees => match call {
            Call::CancelByHost { booking_id } if about.contains(booking_id) => 1,
            _ => 0,
        },
        Figure::FeesPaid => match call {
            Call::CancelByHost { booking_id } if about.contains(booking_id) =>
                env.config.unwrap().host_cancel_fee as int,
            _ => 0,
        },
    }
}

/// A call that goes through publishes exactly one settlement event if it is
/// `execute_split`, `cancel_by_traveller`, `cancel_by_host` or `resolve_dispute`, about
/// its booking and over exactly the escrow that it releases; any other call publishes
/// none. In the same way only `lock_escrow` publishes a lock event, over the amount that
/// it locks; only the two cancellations publish a cancellation event; and only
/// `cancel_by_host` publishes a fee event, over the fee, which is in no settlement.
pub proof fn calls_publish_what_they_move(
    env: EnvView,
    call: Call,
    figure: Figure,
    about: Set<u64>,
)
    requires
        laws::possible(env, call),
        laws::refusal(env, call) is None,
    ensures
        total(laws::after(env, call).effects, figure, about) == total(env.effects, figure, about)
            + figure_added(env, call, figure, about),
{
    broadcast use totals;

    match call {
        Call::ExecuteSplit { booking_id } => {
            split::completion_split_is_exact(env.bookings[booking_id].escrow_amount as int);
        },
        Call::CancelByTraveller { booking_id } => {
            let b = env.bookings[booking_id];
            refund::refund_is_exact(
                b.escrow_amount,
                b.start_time,
                env.timestamp,
                CancelledBy::Traveller,
            );
        },
        Call::ResolveDispute { booking_id, bps } => {
            contract::dispute_settlement_is_exact(env.bookings[booking_id].escrow_amount, bps);
        },
        _ => {},
    }
}

/// The settlement event is the last thing that a settlement does; it is about the
/// booking, and its amounts add up to the escrow that was released.
pub proof fn settlements_end_with_their_event(env: EnvView, call: Call)
    requires
        laws::possible(env, call),
        laws::refusal(env, call) is None,
        laws::settles(call) is Some,
    ensures
        laws::after(env, call).effects.last() matches Effect::Publish(
            Event::SettlementExecuted(event),
        ) && laws::settles(call) == Some(event.booking_id) && event.total()
            == env.bookings[event.booking_id].escrow_amount,
{
    match call {
        Call::ExecuteSplit { booking_id } => {
            split::completion_split_is_exact(env.bookings[booking_id].escrow_amount as int);
        },
        Call::CancelByTraveller { booking_id } => {
            let b = env.bookings[booking_id];
            refund::refund_is_exact(
                b.escrow_amount,
                b.start_time,
                env.timestamp,
                CancelledBy::Traveller,
            );
        },
        Call::ResolveDispute { booking_id, bps } => {
            contract::dispute_settlement_is_exact(env.bookings[booking_id].escrow_amount, bps);
        },
        _ => {},
    }
}

/// A cancellation event is followed by the settlement event of the cancellation and
/// repeats its amounts; nothing of the escrow goes to the pools besides operations, and
/// on a host's cancellation nothing goes to operations or the host.
pub proof fn cancellations_repeat_their_settlement(env: EnvView, call: Call, booking_id: u64)
    requires
        call == (Call::CancelByTraveller { booking_id }) || call == (Call::CancelByHost {
            booking_id,
        }),
    ensures
        ({
            let effects = laws::after(env, call).effects;
            let n = effects.len() as int;
            &&& n >= 2
            &&& effects[n - 2] matches Effect::Publish(Event::BookingCancelled(cancelled))
            &&& effects[n - 1] matches Effect::Publish(Event::SettlementExecuted(settled))
            &&& cancelled.booking_id == booking_id && settled.booking_id == booking_id
            &&& cancelled.by_host == (call is CancelByHost)
            &&& settled.settlement_type == if call is CancelByHost {
                SettlementType::HostCancel
            } else {
                SettlementType::TravellerCancel
            }
            &&& cancelled.traveller_amount == settled.traveller_amount
            &&& cancelled.host_amount == settled.host_amount
            &&& cancelled.ops_amount == settled.ops_amount
            &&& settled.review_amount == 0 && settled.qa_amount == 0 && settled.o2o_amount == 0
            &&& call is CancelByHost ==> settled.host_amount == 0 && settled.ops_amount == 0
        }),
{
}

/// Everything that a history of invocations does, in order. A refused one does
/// nothing.
pub open spec fn history_effects(env: EnvView, history: Seq<Invocation>) -> Seq<Effect>
    decreases history.len(),
{
    if history.len() == 0 {
        Seq::empty()
    } else {
        history_effects(env, history.drop_last()) + laws::run(env, history).effects
    }
}

/// What the last invocation of a history adds to a figure.
proof fn figure_grows(env: EnvView, history: Seq<Invocation>, figure: Figure, about: Set<u64>)
    requires
        history.len() > 0,
        laws::possible_history(env, history),
    ensures
        ({
            let before = laws::entered(laws::run(env, history.drop_last()), history.last());
            total(history_effects(env, history), figure, about) == total(
                history_effects(env, history.drop_last()),
                figure,
                about,
            ) + if laws::refusal(before, history.last().call) is None {
                figure_added(before, history.last().call, figure, about)
            } else {
                0
            }
        }),
{
    let before = laws::entered(laws::run(env, history.drop_last()), history.last());
    let call = history.last().call;
    total_of_both(
        history_effects(env, history.drop_last()),
        laws::run(env, history).effects,
        figure,
        about,
    );
    assert(total(before.effects, figure, about) == 0);
    if laws::refusal(before, call) is None {
        calls_publish_what_they_move(before, call, figure, about);
    }
}

/// Over every history, what the settlement events sum up to and what is then held in
/// escrow are together what was held at the start and what was locked since: summing the
/// settlement events accounts for the escrow exactly.
pub proof fn settlement_events_account_for_the_escrow(env: EnvView, history: Seq<Invocation>)
    requires
        laws::consistent(env),
        laws::possible_history(env, history),
    ensures
        ({
            let done = history_effects(env, history);
            total(done, Figure::Settled, Set::full()) + accounting::escrow_held(
                laws::run(env, history),
            ) == accounting::escrow_held(env) + total(done, Figure::Locked, Set::full())
        }),
    decreases history.len(),
{
    if history.len() > 0 {
        let head = history.drop_last();
        let before = laws::entered(laws::run(env, head), history.last());
        let call = history.last().call;
        settlement_events_account_for_the_escrow(env, head);
        laws::every_history_keeps_the_contract_consistent(env, head);
        assert(laws::consistent(before));
        assert(accounting::escrow_held(before) == accounting::escrow_held(laws::run(env, head)));
        figure_grows(env, history, Figure::Settled, Set::full());
        figure_grows(env, history, Figure::Locked, Set::full());
        if laws::refusal(before, call) is None {
            accounting::escrow_changes_by_locks_and_settlements(before, call);
        }
    }
}

/// From an empty contract on, what the settlement events sum up to and what is held in
/// escrow are together what was locked.
pub proof fn settled_and_held_is_what_was_locked(env: EnvView, history: Seq<Invocation>)
    requires
        env.config is None,
        env.next_booking_id is None,
        env.bookings == Map::<u64, Booking>::empty(),
        env.settlements.dom() == Set::<u64>::empty(),
        laws::possible_history(env, history),
    ensures
        ({
            let done = history_effects(env, history);
            total(done, Figure::Settled, Set::full()) + accounting::escrow_held(
                laws::run(env, history),
            ) == total(done, Figure::Locked, Set::full())
        }),
{
    laws::empty_contract_is_consistent(env);
    settlement_events_account_for_the_escrow(env, history);
    reveal_with_fuel(accounting::escrow_below, 2);
}

/// From an empty contract on, the events tell of each booking: there is one lock event
/// once its escrow has been locked, over its amount, and one settlement event once it has
/// been settled, over the same amount; one cancellation event once it has been cancelled,
/// and one fee event if that was by the host. There is never a second one.
pub proof fn events_tell_of_each_booking(env: EnvView, history: Seq<Invocation>, id: u64)
    requires
        env.config is None,
        env.next_booking_id is None,
        env.bookings == Map::<u64, Booking>::empty(),
        env.settlements.dom() == Set::<u64>::empty(),
        laws::possible_history(env, history),
    ensures
        ({
            let done = history_effects(env, history);
            let about = set![id];
            let now = laws::run(env, history).booking(id);
            let locked = now matches Some(b) && b.escrow_locked;
            let settled = now matches Some(b) && b.settled;
            &&& total(done, Figure::Locks, about) == if locked {
                1int
            } else {
                0
            }
            &&& total(done, Figure::Locked, about) == if locked {
                now.unwrap().amount as int
            } else {
                0
            }
            &&& total(done, Figure::Settlements, about) == if settled {
                1int
            } else {
                0
            }
            &&& total(done, Figure::Settled, about) == if settled {
                now.unwrap().amount as int
            } else {
                0
            }
            &&& total(done, Figure::Cancellations, about) == if now matches Some(b)
                && b.was_cancelled {
                1int
            } else {
                0
            }
            &&& total(done, Figure::Fees, about) == if now matches Some(b) && b.cancelled_by
                == CancelledBy::Host {
                1int
            } else {
                0
            }
        }),
    decreases history.len(),
{
    if history.len() > 0 {
        let head = history.drop_last();
        let before = laws::entered(laws::run(env, head), history.last());
        let call = history.last().call;
        let about = set![id];
        events_tell_of_each_booking(env, head, id);
        laws::empty_contract_is_consistent(env);
        laws::every_history_keeps_the_contract_consistent(env, head);
        assert(laws::consistent(before));
        assert(before.booking(id) == laws::run(env, head).booking(id));
        figure_grows(env, history, Figure::Locks, about);
        figure_grows(env, history, Figure::Locked, about);
        figure_grows(env, history, Figure::Settlements, about);
        figure_grows(env, history, Figure::Settled, about);
        figure_grows(env, history, Figure::Cancellations, about);
        figure_grows(env, history, Figure::Fees, about);
        laws::calls_touch_only_their_entries(before, call);
        if laws::refusal(before, call) is None {
            if let Some(subject_id) = laws::subject(call) {
                assert(before.bookings.contains_key(subject_id));
            }
        }
    }
}

} // verus!
