//! What the effects of a call hold: every entry that it changes is written, and
//! what it works with is kept alive.
use vstd::prelude::*;

use crate::contract;
use crate::env::{Effect, EnvView};
use crate::laws;
use crate::laws::Call;
use crate::storage::{
    DataKey, INSTANCE_TTL_EXTEND_TO, INSTANCE_TTL_THRESHOLD, PERSISTENT_BOOKING_TTL_EXTEND_TO,
    PERSISTENT_BOOKING_TTL_THRESHOLD, PERSISTENT_SETTLEMENT_TTL_EXTEND_TO,
    PERSISTENT_SETTLEMENT_TTL_THRESHOLD,
};
use crate::types::{Address, Booking, Bytes32, CancelSettlement};

verus! {

/// Whether `effect` is among the effects from number `from` on.
#[verifier::opaque]
pub open spec fn recorded(effects: Seq<Effect>, from: int, effect: Effect) -> bool {
    exists|i: int| 0 <= from <= i < effects.len() && #[trigger] effects[i] == effect
}

/// The extension of the instance lifetime.
pub open spec fn instance_extension() -> Effect {
    Effect::ExtendInstance { threshold: INSTANCE_TTL_THRESHOLD, extend_to: INSTANCE_TTL_EXTEND_TO }
}

/// The extension of an entry under the policy of bookings.
pub open spec fn booking_extension(key: DataKey) -> Effect {
    Effect::ExtendEntry {
        key,
        threshold: PERSISTENT_BOOKING_TTL_THRESHOLD,
        extend_to: PERSISTENT_BOOKING_TTL_EXTEND_TO,
    }
}

/// The extension of a cancel settlement.
pub open spec fn settlement_extension(booking_id: u64) -> Effect {
    Effect::ExtendEntry {
        key: DataKey::CancelSettlement(booking_id),
        threshold: PERSISTENT_SETTLEMENT_TTL_THRESHOLD,
        extend_to: PERSISTENT_SETTLEMENT_TTL_EXTEND_TO,
    }
}

proof fn added_effect_is_recorded(env: EnvView, effect: Effect, from: int)
    requires
        0 <= from <= env.effects.len(),
    ensures
        recorded(env.with_effect(effect).effects, from, effect),
{
    reveal(recorded);
    assert(env.with_effect(effect).effects[env.effects.len() as int] == effect);
}

broadcast proof fn with_effect_keeps_records(
    env: EnvView,
    added: Effect,
    from: int,
    effect: Effect,
)
    requires
        recorded(env.effects, from, effect),
    ensures
        #[trigger] recorded(env.with_effect(added).effects, from, effect),
{
    reveal(recorded);
    let i = choose|i: int|
        0 <= from <= i < env.effects.len() && #[trigger] env.effects[i] == effect;
    assert(env.with_effect(added).effects[i] == effect);
}

broadcast proof fn paid_out_keeps_records(
    env: EnvView,
    token: Address,
    to: Address,
    amount: i128,
    from: int,
    effect: Effect,
)
    requires
        recorded(env.effects, from, effect),
    ensures
        #[trigger] recorded(env.paid_out(token, to, amount).effects, from, effect),
{
    broadcast use with_effect_keeps_records;

}

broadcast proof fn booking_kept_keeps_records(
    env: EnvView,
    b: Booking,
    from: int,
    effect: Effect,
)
    requires
        recorded(env.effects, from, effect),
    ensures
        #[trigger] recorded(env.booking_kept(b).effects, from, effect),
{
    broadcast use with_effect_keeps_records;

}

broadcast group keeps_records {
    with_effect_keeps_records,
    paid_out_keeps_records,
    booking_kept_keeps_records,
}

/// What every call that reads one booking has done before it does anything else.
proof fn loading_is_recorded(env: EnvView, booking_id: u64)
    ensures
        ({
            let b = env.bookings[booking_id];
            let effects = contract::booking_loaded(env, booking_id).effects;
            let from = env.effects.len() as int;
            &&& recorded(effects, from, instance_extension())
            &&& recorded(effects, from, booking_extension(DataKey::Booking(b.booking_id)))
            &&& env.refs.contains_key(b.booking_ref) ==> recorded(
                effects,
                from,
                booking_extension(DataKey::BookingRef(b.booking_ref)),
            )
            &&& from <= effects.len()
        }),
{
    broadcast use keeps_records;

    let from = env.effects.len() as int;
    let b = env.bookings[booking_id];
    let read = env.config_read();
    added_effect_is_recorded(env, instance_extension(), from);
    keeping_is_recorded(read, b, from);
}

proof fn keeping_is_recorded(env: EnvView, b: Booking, from: int)
    requires
        0 <= from <= env.effects.len(),
    ensures
        recorded(
            env.booking_kept(b).effects,
            from,
            booking_extension(DataKey::Booking(b.booking_id)),
        ),
        env.refs.contains_key(b.booking_ref) ==> recorded(
            env.booking_kept(b).effects,
            from,
            booking_extension(DataKey::BookingRef(b.booking_ref)),
        ),
        from <= env.booking_kept(b).effects.len(),
{
    broadcast use keeps_records;

    let extended = env.booking_extended(b.booking_id);
    added_effect_is_recorded(env, booking_extension(DataKey::Booking(b.booking_id)), from);
    added_effect_is_recorded(
        extended,
        booking_extension(DataKey::BookingRef(b.booking_ref)),
        from,
    );
}

proof fn writing_is_recorded(env: EnvView, b: Booking, from: int)
    requires
        0 <= from <= env.effects.len(),
    ensures
        recorded(
            env.booking_written(b).effects,
            from,
            Effect::Store(DataKey::Booking(b.booking_id)),
        ),
        recorded(
            env.booking_written(b).effects,
            from,
            booking_extension(DataKey::Booking(b.booking_id)),
        ),
        env.refs.contains_key(b.booking_ref) ==> recorded(
            env.booking_written(b).effects,
            from,
            booking_extension(DataKey::BookingRef(b.booking_ref)),
        ),
        from <= env.booking_written(b).effects.len(),
{
    broadcast use keeps_records;

    let inserted = EnvView { bookings: env.bookings.insert(b.booking_id, b), ..env };
    added_effect_is_recorded(inserted, Effect::Store(DataKey::Booking(b.booking_id)), from);
    keeping_is_recorded(inserted.stored(DataKey::Booking(b.booking_id)), b, from);
}

proof fn settling_is_recorded(env: EnvView, booking_id: u64, s: CancelSettlement, from: int)
    requires
        0 <= from <= env.effects.len(),
    ensures
        recorded(
            env.settlement_written(booking_id, s).effects,
            from,
            Effect::Store(DataKey::CancelSettlement(booking_id)),
        ),
        recorded(
            env.settlement_written(booking_id, s).effects,
            from,
            settlement_extension(booking_id),
        ),
{
    broadcast use keeps_records;

    let inserted = EnvView { settlements: env.settlements.insert(booking_id, s), ..env };
    let key = DataKey::CancelSettlement(booking_id);
    added_effect_is_recorded(inserted, Effect::Store(key), from);
    added_effect_is_recorded(inserted.stored(key), settlement_extension(booking_id), from);
}

/// Every call that goes through extends the lifetime of the contract instance.
pub proof fn calls_keep_the_instance_alive(env: EnvView, call: Call)
    ensures
        recorded(
            laws::after(env, call).effects,
            env.effects.len() as int,
            instance_extension(),
        ),
{
    broadcast use keeps_records;

    let from = env.effects.len() as int;
    added_effect_is_recorded(env, instance_extension(), from);
    match call {
        Call::Initialize(config) => {
            let stored = (EnvView { config: Some(config), ..env }).stored(DataKey::Config);
            added_effect_is_recorded(stored, instance_extension(), from);
        },
        _ => {},
    }
}

/// A call that writes a booking extends the lifetimes of the booking and of its
/// reference entry, if it has one, both under the same policy.
pub proof fn calls_keep_their_booking_alive(env: EnvView, call: Call)
    ensures
        laws::written(env, call) matches Some(b) ==> {
            let effects = laws::after(env, call).effects;
            let from = env.effects.len() as int;
            &&& recorded(effects, from, booking_extension(DataKey::Booking(b.booking_id)))
            &&& env.refs.contains_key(b.booking_ref) ==> recorded(
                effects,
                from,
                booking_extension(DataKey::BookingRef(b.booking_ref)),
            )
        },
{
    broadcast use keeps_records;

    let from = env.effects.len() as int;
    match laws::subject(call) {
        Some(id) => loading_is_recorded(env, id),
        None => {},
    }
    match call {
        Call::Book { traveller, host, amount, start_time } => {
            let b = contract::new_booking(env, traveller, host, amount, start_time);
            writing_is_recorded(env.config_read().id_taken(), b, from);
        },
        _ => {},
    }

}

/// Reading a booking extends its lifetime, that of its reference entry, if it has
/// one, and that of the instance.
pub proof fn reads_keep_the_booking_alive(env: EnvView, booking_id: u64)
    ensures
        ({
            let b = env.bookings[booking_id];
            let effects = env.booking_read(booking_id).effects;
            let from = env.effects.len() as int;
            &&& recorded(effects, from, booking_extension(DataKey::Booking(b.booking_id)))
            &&& env.refs.contains_key(b.booking_ref) ==> recorded(
                effects,
                from,
                booking_extension(DataKey::BookingRef(b.booking_ref)),
            )
            &&& recorded(effects, from, instance_extension())
        }),
{
    broadcast use keeps_records;

    let from = env.effects.len() as int;
    let kept = env.booking_kept(env.bookings[booking_id]);
    keeping_is_recorded(env, env.bookings[booking_id], from);
    added_effect_is_recorded(kept, instance_extension(), from);
}

/// Entering a reference extends its lifetime and that of the instance.
pub proof fn entered_references_are_kept_alive(env: EnvView, booking_ref: Bytes32, booking_id: u64)
    ensures
        ({
            let effects = env.ref_written(booking_ref, booking_id).effects;
            let from = env.effects.len() as int;
            &&& recorded(effects, from, booking_extension(DataKey::BookingRef(booking_ref)))
            &&& recorded(effects, from, instance_extension())
        }),
{
    broadcast use keeps_records;

    let from = env.effects.len() as int;
    let key = DataKey::BookingRef(booking_ref);
    let stored = (EnvView {
        refs: env.refs.insert(booking_ref, booking_id),
        ..env
    }).stored(key);
    added_effect_is_recorded(stored, booking_extension(key), from);
    added_effect_is_recorded(stored.ref_extended(booking_ref), instance_extension(), from);
}

/// A cancellation writes the settlement that it leaves and extends its lifetime,
/// for less long than that of a booking.
pub proof fn cancellations_keep_their_settlement_alive(env: EnvView, call: Call, booking_id: u64)
    requires
        call == (Call::CancelByTraveller { booking_id }) || call == (Call::CancelByHost {
            booking_id,
        }),
    ensures
        recorded(
            laws::after(env, call).effects,
            env.effects.len() as int,
            Effect::Store(DataKey::CancelSettlement(booking_id)),
        ),
        recorded(
            laws::after(env, call).effects,
            env.effects.len() as int,
            settlement_extension(booking_id),
        ),
        PERSISTENT_SETTLEMENT_TTL_EXTEND_TO < PERSISTENT_BOOKING_TTL_EXTEND_TO,
        PERSISTENT_SETTLEMENT_TTL_THRESHOLD < PERSISTENT_BOOKING_TTL_THRESHOLD,
{
    broadcast use keeps_records;

    let from = env.effects.len() as int;
    let loaded = contract::booking_loaded(env, booking_id);
    let b = laws::written(env, call).unwrap();
    let s = match call {
        Call::CancelByTraveller { .. } => contract::traveller_settlement(env, booking_id),
        _ => contract::host_settlement(env.bookings[booking_id]),
    };
    loading_is_recorded(env, booking_id);
    writing_is_recorded(loaded, b, from);
    settling_is_recorded(loaded.booking_written(b), booking_id, s, from);
}

/// Whoever writes the entries that the effects of a call name has written
/// everything that the call changed.
pub proof fn changed_entries_are_written(env: EnvView, call: Call)
    ensures
        ({
            let next = laws::after(env, call);
            let from = env.effects.len() as int;
            &&& next.config != env.config ==> recorded(
                next.effects,
                from,
                Effect::Store(DataKey::Config),
            )
            &&& next.next_booking_id != env.next_booking_id ==> recorded(
                next.effects,
                from,
                Effect::Store(DataKey::NextBookingId),
            )
            &&& next.total_escrowed == env.total_escrowed
            &&& next.refs == env.refs
            &&& forall|id: u64| #[trigger]
                next.booking(id) != env.booking(id) ==> recorded(
                    next.effects,
                    from,
                    Effect::Store(DataKey::Booking(id)),
                )
            &&& forall|id: u64| #[trigger]
                next.settlement(id) != env.settlement(id) ==> recorded(
                    next.effects,
                    from,
                    Effect::Store(DataKey::CancelSettlement(id)),
                )
            &&& forall|who: Address| #[trigger]
                next.claimable_by(who) != env.claimable_by(who) ==> recorded(
                    next.effects,
                    from,
                    Effect::Store(DataKey::Claimable(who)),
                )
        }),
{
    broadcast use keeps_records;

    let from = env.effects.len() as int;
    laws::calls_touch_only_their_entries(env, call);
    match call {
        Call::Initialize(config) => {
            let set = EnvView { config: Some(config), ..env };
            added_effect_is_recorded(set, Effect::Store(DataKey::Config), from);
        },
        Call::Book { .. } => {
            let b = laws::written(env, call).unwrap();
            let read = env.config_read();
            let set = EnvView {
                next_booking_id: Some((env.upcoming_id() + 1) as u64),
                ..read
            };
            added_effect_is_recorded(set, Effect::Store(DataKey::NextBookingId), from);
            writing_is_recorded(read.id_taken(), b, from);
        },
        Call::LockEscrow { booking_id, amount } => {
            let b = env.bookings[booking_id];
            let loaded = contract::booking_loaded(env, booking_id);
            loading_is_recorded(env, booking_id);
            writing_is_recorded(
                loaded.paid(env.config.unwrap().token, b.traveller, env.contract, amount),
                laws::written(env, call).unwrap(),
                from,
            );
        },
        Call::ClaimPayout { who } => {
            let read = env.config_read();
            let set = EnvView { claimable: read.claimable.insert(who.id, 0), ..read };
            added_effect_is_recorded(set, Effect::Store(DataKey::Claimable(who)), from);
        },
        _ => {
            let id = laws::subject(call).unwrap();
            loading_is_recorded(env, id);
            writing_is_recorded(
                contract::booking_loaded(env, id),
                laws::written(env, call).unwrap(),
                from,
            );
            if call is CancelByTraveller || call is CancelByHost {
                cancellations_keep_their_settlement_alive(env, call, id);
            }
        },
    }
}

} // verus!
