//! In which order things happen: the books change before tokens move.
use vstd::prelude::*;

use crate::contract;
use crate::env::{Effect, EnvView, Transfer};
use crate::events::{Event, PayoutClaimed};
use crate::laws;
use crate::laws::Call;
use crate::split;
use crate::storage::DataKey;
use crate::types::{Address, Booking, BookingState, CancelSettlement, CancelledBy};

verus! {

/// No entry is written after the first transfer, counted from effect `from`.
pub open spec fn writes_before_transfers(effects: Seq<Effect>, from: int) -> bool {
    forall|i: int, j: int|
        from <= i < j < effects.len() && #[trigger] effects[i] is Pay ==> !(
        #[trigger] effects[j] is Store)
}

/// Whether no transfer has been made since effect `from`.
spec fn no_transfer_since(effects: Seq<Effect>, from: int) -> bool
    decreases effects.len(),
{
    effects.len() <= from || (effects.len() > 0 && !(effects.last() is Pay) && no_transfer_since(
        effects.drop_last(),
        from,
    ))
}

/// Whether each write since effect `from` came before any transfer.
spec fn ordered_since(effects: Seq<Effect>, from: int) -> bool
    decreases effects.len(),
{
    effects.len() <= from || (effects.len() > 0 && ordered_since(effects.drop_last(), from) && (
    effects.last() is Store ==> no_transfer_since(effects.drop_last(), from)))
}

/// Whether since effect `from` nothing but writes, extensions and events happened.
spec fn quiet(env: EnvView, from: int) -> bool {
    0 <= from <= env.effects.len() && no_transfer_since(env.effects, from) && ordered_since(
        env.effects,
        from,
    )
}

/// Whether since effect `from` each write came before any transfer.
spec fn tidy(env: EnvView, from: int) -> bool {
    0 <= from <= env.effects.len() && ordered_since(env.effects, from)
}

proof fn quiet_with_effect(env: EnvView, effect: Effect, from: int)
    requires
        quiet(env, from),
        !(effect is Pay),
    ensures
        quiet(env.with_effect(effect), from),
{
    assert(env.with_effect(effect).effects.drop_last() =~= env.effects);
}

proof fn tidy_with_effect(env: EnvView, effect: Effect, from: int)
    requires
        tidy(env, from),
        !(effect is Store),
    ensures
        tidy(env.with_effect(effect), from),
{
    assert(env.with_effect(effect).effects.drop_last() =~= env.effects);
}

proof fn tidy_paid_out(env: EnvView, token: Address, to: Address, amount: i128, from: int)
    requires
        tidy(env, from),
    ensures
        tidy(env.paid_out(token, to, amount), from),
{
    tidy_with_effect(
        env,
        Effect::Pay(Transfer { token, from: env.contract, to, amount }),
        from,
    );
}

proof fn tidy_published(env: EnvView, event: Event, from: int)
    requires
        tidy(env, from),
    ensures
        tidy(env.published(event), from),
{
    tidy_with_effect(env, Effect::Publish(event), from);
}

proof fn quiet_instance_extended(env: EnvView, from: int)
    requires
        quiet(env, from),
    ensures
        quiet(env.instance_extended(), from),
{
    quiet_with_effect(env, env.instance_extended().effects.last(), from);
}

proof fn quiet_booking_kept(env: EnvView, b: Booking, from: int)
    requires
        quiet(env, from),
    ensures
        quiet(env.booking_kept(b), from),
{
    let extended = env.booking_extended(b.booking_id);
    quiet_with_effect(env, extended.effects.last(), from);
    quiet_with_effect(extended, extended.ref_extended(b.booking_ref).effects.last(), from);
}

proof fn quiet_loaded(env: EnvView, id: u64, from: int)
    requires
        quiet(env, from),
    ensures
        quiet(contract::booking_loaded(env, id), from),
{
    let read = env.config_read();
    quiet_instance_extended(env, from);
    quiet_booking_kept(read, read.bookings[id], from);
    quiet_instance_extended(read.booking_kept(read.bookings[id]), from);
}

proof fn quiet_booking_written(env: EnvView, b: Booking, from: int)
    requires
        quiet(env, from),
    ensures
        quiet(env.booking_written(b), from),
{
    let inserted = EnvView { bookings: env.bookings.insert(b.booking_id, b), ..env };
    let stored = inserted.stored(DataKey::Booking(b.booking_id));
    quiet_with_effect(inserted, Effect::Store(DataKey::Booking(b.booking_id)), from);
    quiet_booking_kept(stored, b, from);
    quiet_instance_extended(stored.booking_kept(b), from);
}

proof fn quiet_settlement_written(env: EnvView, id: u64, s: CancelSettlement, from: int)
    requires
        quiet(env, from),
    ensures
        quiet(env.settlement_written(id, s), from),
{
    let inserted = EnvView { settlements: env.settlements.insert(id, s), ..env };
    let stored = inserted.stored(DataKey::CancelSettlement(id));
    quiet_with_effect(inserted, Effect::Store(DataKey::CancelSettlement(id)), from);
    quiet_with_effect(stored, stored.settlement_extended(id).effects.last(), from);
}

proof fn no_transfer_means_none(effects: Seq<Effect>, from: int, i: int)
    requires
        no_transfer_since(effects, from),
        0 <= from <= i < effects.len(),
    ensures
        !(effects[i] is Pay),
    decreases effects.len(),
{
    if i < effects.len() - 1 {
        no_transfer_means_none(effects.drop_last(), from, i);
    }
}

proof fn ordered_means_writes_first(effects: Seq<Effect>, from: int)
    requires
        ordered_since(effects, from),
        0 <= from,
    ensures
        writes_before_transfers(effects, from),
    decreases effects.len(),
{
    if effects.len() > from {
        let head = effects.drop_last();
        ordered_means_writes_first(head, from);
        assert forall|i: int, j: int|
            from <= i < j < effects.len() && #[trigger] effects[i] is Pay implies !(
        #[trigger] effects[j] is Store) by {
            if j < head.len() {
                assert(head[i] is Pay);
                assert(!(head[j] is Store));
            } else if effects[j] is Store {
                no_transfer_means_none(head, from, i);
                assert(head[i] == effects[i]);
            }
        }
    }
}

/// Settlements and claims change the books before they move tokens: no entry is
/// written once the first transfer has been made.
pub proof fn books_change_before_tokens_move(env: EnvView, call: Call)
    requires
        call is ExecuteSplit || call is CancelByTraveller || call is CancelByHost
            || call is ResolveDispute || call is ClaimPayout,
    ensures
        writes_before_transfers(laws::after(env, call).effects, env.effects.len() as int),
{
    let from = env.effects.len() as int;
    assert(quiet(env, from));
    match call {
        Call::ExecuteSplit { booking_id } => {
            let b = env.bookings[booking_id];
            let c = env.config.unwrap();
            let s = split::completion_split(b.escrow_amount as int);
            let settled = contract::settled_booking(b, BookingState::Completed);
            quiet_loaded(env, booking_id, from);
            let e0 = contract::booking_loaded(env, booking_id);
            quiet_booking_written(e0, settled, from);
            let e1 = e0.booking_written(settled);
            tidy_paid_out(e1, c.token, b.host, s.host_amount, from);
            let e2 = e1.paid_out(c.token, b.host, s.host_amount);
            tidy_paid_out(e2, c.token, c.ops_pool, s.ops_amount, from);
            let e3 = e2.paid_out(c.token, c.ops_pool, s.ops_amount);
            tidy_paid_out(e3, c.token, c.review_pool, s.review_amount, from);
            let e4 = e3.paid_out(c.token, c.review_pool, s.review_amount);
            tidy_paid_out(e4, c.token, c.qa_pool, s.qa_amount, from);
            let e5 = e4.paid_out(c.token, c.qa_pool, s.qa_amount);
            tidy_paid_out(e5, c.token, c.o2o_pool, s.o2o_amount, from);
            let e6 = e5.paid_out(c.token, c.o2o_pool, s.o2o_amount);
            tidy_published(e6, contract::split_event(env, booking_id, s), from);
        },
        Call::CancelByTraveller { booking_id } => {
            let b = env.bookings[booking_id];
            let c = env.config.unwrap();
            let s = contract::traveller_settlement(env, booking_id);
            let cancelled = contract::cancelled_booking(b, CancelledBy::Traveller);
            quiet_loaded(env, booking_id, from);
            let e0 = contract::booking_loaded(env, booking_id);
            quiet_booking_written(e0, cancelled, from);
            let e1 = e0.booking_written(cancelled);
            quiet_settlement_written(e1, booking_id, s, from);
            let e2 = e1.settlement_written(booking_id, s);
            tidy_paid_out(e2, c.token, b.traveller, s.traveller_amount, from);
            let e3 = e2.paid_out(c.token, b.traveller, s.traveller_amount);
            tidy_paid_out(e3, c.token, b.host, s.host_amount, from);
            let e4 = e3.paid_out(c.token, b.host, s.host_amount);
            tidy_paid_out(e4, c.token, c.ops_pool, s.ops_amount, from);
            let e5 = e4.paid_out(c.token, c.ops_pool, s.ops_amount);
            let event = contract::cancelled_event(booking_id, false, s);
            tidy_published(e5, event, from);
            tidy_published(
                e5.published(event),
                contract::cancel_settlement_event(env, booking_id, false, s),
                from,
            );
        },
        Call::CancelByHost { booking_id } => {
            let b = env.bookings[booking_id];
            let c = env.config.unwrap();
            let s = contract::host_settlement(b);
            let cancelled = contract::cancelled_booking(b, CancelledBy::Host);
            quiet_loaded(env, booking_id, from);
            let e0 = contract::booking_loaded(env, booking_id);
            quiet_booking_written(e0, cancelled, from);
            let e1 = e0.booking_written(cancelled);
            quiet_settlement_written(e1, booking_id, s, from);
            let e2 = e1.settlement_written(booking_id, s);
            let e3 = e2.paid(c.token, b.host, c.ops_pool, c.host_cancel_fee);
            tidy_with_effect(e2, e3.effects.last(), from);
            let fee_event = contract::fee_event(env, booking_id);
            tidy_published(e3, fee_event, from);
            let e4 = e3.published(fee_event);
            tidy_paid_out(e4, c.token, b.traveller, s.traveller_amount, from);
            let e5 = e4.paid_out(c.token, b.traveller, s.traveller_amount);
            let event = contract::cancelled_event(booking_id, true, s);
            tidy_published(e5, event, from);
            tidy_published(
                e5.published(event),
                contract::cancel_settlement_event(env, booking_id, true, s),
                from,
            );
        },
        Call::ResolveDispute { booking_id, bps } => {
            let b = env.bookings[booking_id];
            let c = env.config.unwrap();
            let s = contract::dispute_settlement(b.escrow_amount as int, bps);
            let settled = contract::settled_booking(b, BookingState::Completed);
            quiet_loaded(env, booking_id, from);
            let e0 = contract::booking_loaded(env, booking_id);
            quiet_booking_written(e0, settled, from);
            let e1 = e0.booking_written(settled);
            tidy_paid_out(e1, c.token, b.traveller, s.traveller_amount, from);
            let e2 = e1.paid_out(c.token, b.traveller, s.traveller_amount);
            tidy_paid_out(e2, c.token, b.host, s.host_amount, from);
            let e3 = e2.paid_out(c.token, b.host, s.host_amount);
            tidy_paid_out(e3, c.token, c.ops_pool, s.ops_amount, from);
            let e4 = e3.paid_out(c.token, c.ops_pool, s.ops_amount);
            tidy_paid_out(e4, c.token, c.review_pool, s.review_amount, from);
            let e5 = e4.paid_out(c.token, c.review_pool, s.review_amount);
            tidy_paid_out(e5, c.token, c.qa_pool, s.qa_amount, from);
            let e6 = e5.paid_out(c.token, c.qa_pool, s.qa_amount);
            tidy_paid_out(e6, c.token, c.o2o_pool, s.o2o_amount, from);
            let e7 = e6.paid_out(c.token, c.o2o_pool, s.o2o_amount);
            let event = contract::resolved_event(booking_id, bps);
            tidy_published(e7, event, from);
            tidy_published(
                e7.published(event),
                contract::dispute_event(env, booking_id, s),
                from,
            );
        },
        Call::ClaimPayout { who } => {
            let token = env.config.unwrap().token;
            let amount = env.claimable_by(who);
            quiet_instance_extended(env, from);
            let e0 = env.config_read();
            let inserted = EnvView { claimable: e0.claimable.insert(who.id, 0), ..e0 };
            quiet_with_effect(inserted, Effect::Store(DataKey::Claimable(who)), from);
            quiet_instance_extended(inserted.stored(DataKey::Claimable(who)), from);
            let e1 = e0.claimable_written(who, 0);
            tidy_paid_out(e1, token, who, amount, from);
            tidy_published(
                e1.paid_out(token, who, amount),
                Event::PayoutClaimed(PayoutClaimed { claimant: who, amount, token }),
                from,
            );
        },
        _ => {},
    }
    assert(tidy(laws::after(env, call), from));
    ordered_means_writes_first(laws::after(env, call).effects, from);
}

} // verus!
