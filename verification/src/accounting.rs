//! Where the tokens go: what is held in escrow is what came in and has not gone
//! out again.
use vstd::prelude::*;

use crate::contract;
use crate::env::{Effect, EnvView};
use crate::laws;
use crate::laws::{Call, Invocation};
use crate::refund;
use crate::split;
use crate::types::{Address, Booking, CancelledBy};

verus! {

/// What one effect adds to the holdings of `who` in `token`.
pub open spec fn flow_of(effect: Effect, token: Address, who: Address) -> int {
    match effect {
        Effect::Pay(p) => if p.token == token {
            (if p.to == who {
                p.amount as int
            } else {
                0
            }) - (if p.from == who {
                p.amount as int
            } else {
                0
            })
        } else {
            0
        },
        _ => 0,
    }
}

/// What a list of effects adds to the holdings of `who` in `token`.
pub open spec fn flow(effects: Seq<Effect>, token: Address, who: Address) -> int
    decreases effects.len(),
{
    if effects.len() == 0 {
        0
    } else {
        flow(effects.drop_last(), token, who) + flow_of(effects.last(), token, who)
    }
}

/// One more effect adds what it adds.
broadcast proof fn flow_with_effect(env: EnvView, effect: Effect, token: Address, who: Address)
    ensures
        #[trigger] flow(env.with_effect(effect).effects, token, who) == flow(
            env.effects,
            token,
            who,
        ) + flow_of(effect, token, who),
{
    assert(env.with_effect(effect).effects.drop_last() =~= env.effects);
}

/// The escrows of all bookings with numbers below `bound`.
pub open spec fn escrow_below(bookings: Map<u64, Booking>, bound: nat) -> int
    decreases bound,
{
    if bound == 0 {
        0
    } else {
        let id = (bound - 1) as u64;
        escrow_below(bookings, (bound - 1) as nat) + if bookings.contains_key(id) {
            bookings[id].escrow_amount as int
        } else {
            0
        }
    }
}

/// What the contract holds in escrow for all bookings.
pub open spec fn escrow_held(env: EnvView) -> int {
    escrow_below(env.bookings, env.upcoming_id() as nat)
}

/// Writing one booking changes the escrow total by what it changes in that
/// booking.
proof fn escrow_below_insert(bookings: Map<u64, Booking>, id: u64, b: Booking, bound: nat)
    requires
        bound <= u64::MAX,
    ensures
        escrow_below(bookings.insert(id, b), bound) == escrow_below(bookings, bound) + if id
            < bound {
            b.escrow_amount - if bookings.contains_key(id) {
                bookings[id].escrow_amount as int
            } else {
                0
            }
        } else {
            0
        },
    decreases bound,
{
    if bound > 0 {
        escrow_below_insert(bookings, id, b, (bound - 1) as nat);
    }
}

/// The payers and recipients of a booking's payments are not the contract itself.
pub open spec fn outsiders(env: EnvView, b: Booking) -> bool {
    let config = env.config.unwrap();
    &&& b.traveller != env.contract
    &&& b.host != env.contract
    &&& config.ops_pool != env.contract
    &&& config.review_pool != env.contract
    &&& config.qa_pool != env.contract
    &&& config.o2o_pool != env.contract
}

/// What `who` has of an amount that goes to `to`.
pub open spec fn received(who: Address, to: Address, amount: i128) -> int {
    if who == to {
        amount as int
    } else {
        0
    }
}

/// Paying an amount out of the contract adds it to the recipient and takes it from
/// the contract.
broadcast proof fn flow_paid_out(
    env: EnvView,
    token: Address,
    to: Address,
    amount: i128,
    who: Address,
)
    requires
        amount >= 0,
    ensures
        #[trigger] flow(env.paid_out(token, to, amount).effects, token, who) == flow(
            env.effects,
            token,
            who,
        ) + received(who, to, amount) - received(who, env.contract, amount),
        env.paid_out(token, to, amount).contract == env.contract,
{
    broadcast use flow_with_effect;

}

/// `execute_split` pays each of the five shares to its recipient, and takes the
/// escrow of the booking out of the contract. Nobody else is paid anything.
pub proof fn split_pays_each_share(env: EnvView, id: u64, who: Address)
    requires
        contract::execute_split_refusal(env, id) is None,
    ensures
        ({
            let b = env.bookings[id];
            let config = env.config.unwrap();
            let s = split::completion_split(b.escrow_amount as int);
            flow(contract::execute_split_after(env, id).effects, config.token, who) == flow(
                env.effects,
                config.token,
                who,
            ) + received(who, b.host, s.host_amount) + received(who, config.ops_pool, s.ops_amount)
                + received(who, config.review_pool, s.review_amount) + received(
                who,
                config.qa_pool,
                s.qa_amount,
            ) + received(who, config.o2o_pool, s.o2o_amount) - received(
                who,
                env.contract,
                b.escrow_amount,
            )
        }),
{
    broadcast use {flow_with_effect, flow_paid_out};

    split::completion_split_is_exact(env.bookings[id].escrow_amount as int);
}

/// `execute_split` pays out of the contract exactly the escrow of the booking.
pub proof fn split_pays_out_the_escrow(env: EnvView, id: u64)
    requires
        contract::execute_split_refusal(env, id) is None,
        outsiders(env, env.bookings[id]),
    ensures
        ({
            let token = env.config.unwrap().token;
            flow(contract::execute_split_after(env, id).effects, token, env.contract) == flow(
                env.effects,
                token,
                env.contract,
            ) - env.bookings[id].escrow_amount
        }),
{
    split_pays_each_share(env, id, env.contract);
}

/// A traveller's cancellation pays each of the three shares to its recipient, and
/// takes the escrow of the booking out of the contract. Nobody else is paid
/// anything.
pub proof fn traveller_cancellation_pays_each_share(env: EnvView, id: u64, who: Address)
    requires
        contract::cancel_by_traveller_refusal(env, id) is None,
    ensures
        ({
            let b = env.bookings[id];
            let config = env.config.unwrap();
            let s = contract::traveller_settlement(env, id);
            flow(contract::cancel_by_traveller_after(env, id).effects, config.token, who) == flow(
                env.effects,
                config.token,
                who,
            ) + received(who, b.traveller, s.traveller_amount) + received(
                who,
                b.host,
                s.host_amount,
            ) + received(who, config.ops_pool, s.ops_amount) - received(
                who,
                env.contract,
                b.escrow_amount,
            )
        }),
{
    broadcast use {flow_with_effect, flow_paid_out};

    let b = env.bookings[id];
    refund::refund_is_exact(b.escrow_amount, b.start_time, env.timestamp, CancelledBy::Traveller);
}

/// A traveller's cancellation pays out of the contract exactly the escrow of the
/// booking.
pub proof fn traveller_cancellation_pays_out_the_escrow(env: EnvView, id: u64)
    requires
        contract::cancel_by_traveller_refusal(env, id) is None,
        outsiders(env, env.bookings[id]),
    ensures
        ({
            let token = env.config.unwrap().token;
            flow(contract::cancel_by_traveller_after(env, id).effects, token, env.contract) == flow(
                env.effects,
                token,
                env.contract,
            ) - env.bookings[id].escrow_amount
        }),
{
    traveller_cancellation_pays_each_share(env, id, env.contract);
}

/// A host's cancellation pays the whole escrow of the booking to the traveller,
/// and the fee goes from the host's wallet to operations. Nobody else is paid
/// anything.
pub proof fn host_cancellation_pays_back_the_escrow(env: EnvView, id: u64, who: Address)
    requires
        contract::cancel_by_host_refusal(env, id) is None,
    ensures
        ({
            let b = env.bookings[id];
            let config = env.config.unwrap();
            flow(contract::cancel_by_host_after(env, id).effects, config.token, who) == flow(
                env.effects,
                config.token,
                who,
            ) + received(who, b.traveller, b.escrow_amount) - received(
                who,
                env.contract,
                b.escrow_amount,
            ) + received(who, config.ops_pool, config.host_cancel_fee) - received(
                who,
                b.host,
                config.host_cancel_fee,
            )
        }),
{
    broadcast use flow_with_effect;

}

/// A resolved dispute pays each of the six shares to its recipient, and takes the
/// escrow of the booking out of the contract. Nobody else is paid anything.
pub proof fn resolution_pays_each_share(env: EnvView, id: u64, bps: Seq<u32>, who: Address)
    requires
        bps.len() == 6,
        contract::resolve_dispute_refusal(env, id, bps) is None,
    ensures
        ({
            let b = env.bookings[id];
            let config = env.config.unwrap();
            let s = contract::dispute_settlement(b.escrow_amount as int, bps);
            flow(contract::resolve_dispute_after(env, id, bps).effects, config.token, who) == flow(
                env.effects,
                config.token,
                who,
            ) + received(who, b.traveller, s.traveller_amount) + received(
                who,
                b.host,
                s.host_amount,
            ) + received(who, config.ops_pool, s.ops_amount) + received(
                who,
                config.review_pool,
                s.review_amount,
            ) + received(who, config.qa_pool, s.qa_amount) + received(
                who,
                config.o2o_pool,
                s.o2o_amount,
            ) - received(who, env.contract, b.escrow_amount)
        }),
{
    broadcast use {flow_with_effect, flow_paid_out};

    contract::dispute_settlement_is_exact(env.bookings[id].escrow_amount, bps);
}

/// A resolved dispute pays out of the contract exactly the escrow of the booking.
pub proof fn resolution_pays_out_the_escrow(env: EnvView, id: u64, bps: Seq<u32>)
    requires
        bps.len() == 6,
        contract::resolve_dispute_refusal(env, id, bps) is None,
        outsiders(env, env.bookings[id]),
    ensures
        ({
            let token = env.config.unwrap().token;
            flow(contract::resolve_dispute_after(env, id, bps).effects, token, env.contract)
                == flow(env.effects, token, env.contract) - env.bookings[id].escrow_amount
        }),
{
    resolution_pays_each_share(env, id, bps, env.contract);
}

/// Locking an escrow takes the amount from the traveller into the contract.
pub proof fn locking_pays_in_the_amount(env: EnvView, id: u64, amount: i128)
    requires
        contract::lock_escrow_refusal(env, id, amount) is None,
        outsiders(env, env.bookings[id]),
    ensures
        ({
            let token = env.config.unwrap().token;
            let traveller = env.bookings[id].traveller;
            let paid = contract::lock_escrow_after(env, id, amount).effects;
            &&& flow(paid, token, env.contract) == flow(env.effects, token, env.contract) + amount
            &&& flow(paid, token, traveller) == flow(env.effects, token, traveller) - amount
        }),
{
    broadcast use flow_with_effect;

}

/// A claim pays out of the contract exactly the claimable balance, and leaves
/// none.
pub proof fn claims_pay_out_the_balance(env: EnvView, who: Address)
    requires
        contract::claim_payout_refusal(env, who) is None,
        who != env.contract,
    ensures
        ({
            let token = env.config.unwrap().token;
            let claimed = contract::claim_payout_after(env, who);
            &&& claimed.claimable_by(who) == 0
            &&& flow(claimed.effects, token, env.contract) == flow(
                env.effects,
                token,
                env.contract,
            ) - env.claimable_by(who)
            &&& flow(claimed.effects, token, who) == flow(env.effects, token, who)
                + env.claimable_by(who)
        }),
{
    broadcast use flow_with_effect;

}

/// A call that neither locks nor releases an escrow nor claims a balance moves no
/// tokens at all.
pub proof fn other_calls_move_no_tokens(env: EnvView, call: Call, token: Address, who: Address)
    requires
        call is Initialize || call is Book || call is UpdateBooking || call is CheckIn
            || call is Complete || call is OpenDispute,
    ensures
        flow(laws::after(env, call).effects, token, who) == flow(env.effects, token, who),
{
    broadcast use flow_with_effect;

}

/// What is held in escrow grows by what is locked and shrinks by the escrow of a
/// booking that is settled; nothing else changes it.
pub proof fn escrow_changes_by_locks_and_settlements(env: EnvView, call: Call)
    requires
        laws::consistent(env),
        laws::possible(env, call),
        laws::refusal(env, call) is None,
    ensures
        escrow_held(laws::after(env, call)) == escrow_held(env) + match call {
            Call::LockEscrow { amount, .. } => amount as int,
            _ => 0,
        } - match laws::settles(call) {
            Some(id) => env.bookings[id].escrow_amount as int,
            None => 0,
        },
{
    laws::calls_touch_only_their_entries(env, call);
    if let Some(b) = laws::written(env, call) {
        escrow_below_insert(env.bookings, b.booking_id, b, env.upcoming_id() as nat);
        assert(laws::subject(call) matches Some(id) ==> env.bookings.contains_key(id));
    }
}

/// The escrow total is backed by tokens: each call changes what is held in escrow
/// by exactly what it moves into or out of the contract. (Claims are paid from
/// claimable balances, not from escrow.)
pub proof fn escrow_is_backed(env: EnvView, call: Call)
    requires
        laws::consistent(env),
        laws::possible(env, call),
        laws::refusal(env, call) is None,
        !(call is ClaimPayout),
        laws::subject(call) matches Some(id) ==> outsiders(env, env.bookings[id]),
    ensures
        ({
            let done = laws::after(env, call);
            let token = done.config.unwrap().token;
            escrow_held(done) - escrow_held(env) == flow(done.effects, token, env.contract) - flow(
                env.effects,
                token,
                env.contract,
            )
        }),
{
    let done = laws::after(env, call);
    let token = done.config.unwrap().token;
    laws::calls_touch_only_their_entries(env, call);
    if let Some(b) = laws::written(env, call) {
        escrow_below_insert(env.bookings, b.booking_id, b, env.upcoming_id() as nat);
        assert(laws::subject(call) matches Some(id) ==> env.bookings.contains_key(id));
    }
    match call {
        Call::Book { .. } => {
            other_calls_move_no_tokens(env, call, token, env.contract);
        },
        Call::LockEscrow { booking_id, amount } => {
            locking_pays_in_the_amount(env, booking_id, amount);
        },
        Call::ExecuteSplit { booking_id } => {
            split_pays_out_the_escrow(env, booking_id);
        },
        Call::CancelByTraveller { booking_id } => {
            traveller_cancellation_pays_out_the_escrow(env, booking_id);
        },
        Call::CancelByHost { booking_id } => {
            host_cancellation_pays_back_the_escrow(env, booking_id, env.contract);
        },
        Call::ResolveDispute { booking_id, bps } => {
            resolution_pays_out_the_escrow(env, booking_id, bps);
        },
        _ => {
            other_calls_move_no_tokens(env, call, token, env.contract);
        },
    }
}

/// What a history of invocations moves into the contract.
pub open spec fn history_flow(env: EnvView, history: Seq<Invocation>, token: Address) -> int
    decreases history.len(),
{
    if history.len() == 0 {
        0
    } else {
        history_flow(env, history.drop_last(), token) + flow(
            laws::run(env, history).effects,
            token,
            env.contract,
        )
    }
}

/// Whether the parties and pools of each booking that a history is about are not
/// the contract itself.
pub open spec fn outsiders_history(env: EnvView, history: Seq<Invocation>) -> bool
    decreases history.len(),
{
    history.len() > 0 ==> {
        let before = laws::run(env, history.drop_last());
        &&& outsiders_history(env, history.drop_last())
        &&& laws::subject(history.last().call) matches Some(id) ==> (before.bookings.contains_key(id)
            ==> outsiders(before, before.bookings[id]))
    }
}

/// Solvency: over every history, what is held in escrow grows by exactly what the
/// contract takes in and has not paid out again.
pub proof fn every_history_keeps_the_escrow_backed(env: EnvView, history: Seq<Invocation>)
    requires
        laws::consistent(env),
        laws::possible_history(env, history),
        outsiders_history(env, history),
        env.config is Some,
        forall|who: Address| env.claimable_by(who) <= 0,
    ensures
        escrow_held(laws::run(env, history)) == escrow_held(env) + history_flow(
            env,
            history,
            env.config.unwrap().token,
        ),
        laws::run(env, history).config == env.config,
        laws::run(env, history).contract == env.contract,
        forall|who: Address| laws::run(env, history).claimable_by(who) <= 0,
    decreases history.len(),
{
    if history.len() > 0 {
        let invocation = history.last();
        let call = invocation.call;
        let token = env.config.unwrap().token;
        let before = laws::run(env, history.drop_last());
        let entered = laws::entered(before, invocation);
        every_history_keeps_the_escrow_backed(env, history.drop_last());
        laws::every_history_keeps_the_contract_consistent(env, history.drop_last());
        assert(laws::consistent(entered));
        laws::configuration_is_set_once(entered, call);
        laws::calls_touch_only_their_entries(entered, call);
        assert forall|who: Address| laws::run(env, history).claimable_by(who) <= 0 by {
            assert(before.claimable_by(who) <= 0);
            assert(entered.claimable_by(who) == before.claimable_by(who));
            laws::no_call_credits_a_claimable_balance(entered, call, who);
        }
        assert(escrow_held(entered) == escrow_held(before));
        assert(flow(entered.effects, token, env.contract) == 0);
        if laws::refusal(entered, call) is None {
            if let Call::ClaimPayout { who } = call {
                assert(before.claimable_by(who) <= 0);
                assert(entered.claimable_by(who) == before.claimable_by(who));
            } else {
                if let Some(id) = laws::subject(call) {
                    assert(entered.bookings.contains_key(id));
                }
                escrow_is_backed(entered, call);
            }
        }
    }
}

} // verus!
