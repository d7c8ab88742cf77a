//! What the recorded transfers do on a token: a settlement is paid in full, or not
//! at all.
use vstd::prelude::*;

use crate::accounting;
use crate::contract;
use crate::env::{Effect, EnvView};
use crate::indexing;
use crate::laws;
use crate::laws::{Call, Invocation};
use crate::scripted_token;
use crate::scripted_token::{TokenError, TokenView};
use crate::split;
use crate::types::{Address, BookingState};

verus! {

/// Whether an effect is no payment of `who` to themselves in `token`.
pub open spec fn pays_another(effect: Effect, token: Address, who: Address) -> bool {
    effect matches Effect::Pay(p) ==> p.token != token || p.from != who || p.to != who
}

/// Whether `who` never pays to themselves in `token`.
pub open spec fn no_self_payment(effects: Seq<Effect>, token: Address, who: Address) -> bool
    decreases effects.len(),
{
    effects.len() == 0 || (no_self_payment(effects.drop_last(), token, who) && pays_another(
        effects.last(),
        token,
        who,
    ))
}

broadcast proof fn no_self_payment_with_effect(
    env: EnvView,
    effect: Effect,
    token: Address,
    who: Address,
)
    ensures
        #[trigger] no_self_payment(env.with_effect(effect).effects, token, who) == (
        no_self_payment(env.effects, token, who) && pays_another(effect, token, who)),
{
    assert(env.with_effect(effect).effects.drop_last() =~= env.effects);
}

/// Where the transfers of an invocation go through, a holder who does not pay to
/// themselves ends up with what they held and what the invocation moved their way.
pub proof fn balances_move_by_the_flow(
    token: TokenView,
    address: Address,
    env: EnvView,
    effects: Seq<Effect>,
    who: Address,
)
    requires
        no_self_payment(effects, address, who),
        scripted_token::carried_out(token, address, env, effects) is Ok,
    ensures
        scripted_token::carried_out(token, address, env, effects).unwrap().balance_of(who)
            == token.balance_of(who) + accounting::flow(effects, address, who),
    decreases effects.len(),
{
    if effects.len() > 0 {
        balances_move_by_the_flow(token, address, env, effects.drop_last(), who);
        if let Effect::Pay(p) = effects.last() {
            if p.token == address && p.from != p.to {
                let paid = scripted_token::carried_out(
                    token,
                    address,
                    env,
                    effects.drop_last(),
                ).unwrap();
                scripted_token::transfer_moves_the_amount(
                    paid,
                    env,
                    p.from,
                    p.to,
                    p.amount,
                    who,
                );
            }
        }
    }
}

/// Whether every transfer in `token` is a payout of the contract to somebody else.
pub open spec fn payouts_only(effects: Seq<Effect>, token: Address, contract: Address) -> bool
    decreases effects.len(),
{
    effects.len() == 0 || (payouts_only(effects.drop_last(), token, contract) && is_payout(
        effects.last(),
        token,
        contract,
    ))
}

/// Whether an effect is no transfer in `token`, or a payout of the contract to
/// somebody else.
pub open spec fn is_payout(effect: Effect, token: Address, contract: Address) -> bool {
    effect matches Effect::Pay(p) ==> (p.token == token ==> p.from == contract && p.to != contract
        && p.amount >= 0)
}

broadcast proof fn payouts_with_effect(
    env: EnvView,
    effect: Effect,
    token: Address,
    contract: Address,
)
    ensures
        #[trigger] payouts_only(env.with_effect(effect).effects, token, contract) == (payouts_only(
            env.effects,
            token,
            contract,
        ) && is_payout(effect, token, contract)),
{
    assert(env.with_effect(effect).effects.drop_last() =~= env.effects);
}

/// Payouts go through on a token that refuses nobody, where the contract holds
/// what it pays out and no recipient's balance can leave the number range; every
/// holder then has what they had and what the payouts moved their way.
pub proof fn backed_payouts_go_through(
    token: TokenView,
    address: Address,
    env: EnvView,
    effects: Seq<Effect>,
)
    requires
        payouts_only(effects, address, env.contract),
        token.fail_to is None,
        token.balance_of(env.contract) >= -accounting::flow(effects, address, env.contract),
        forall|who: Address| #[trigger]
            token.balance_of(who) - accounting::flow(effects, address, env.contract) <= i128::MAX,
    ensures
        accounting::flow(effects, address, env.contract) <= 0,
        ({
            let paid = scripted_token::carried_out(token, address, env, effects);
            &&& paid is Ok
            &&& paid.unwrap().fail_to is None
            &&& forall|who: Address| #[trigger]
                paid.unwrap().balance_of(who) == token.balance_of(who) + accounting::flow(
                    effects,
                    address,
                    who,
                )
            &&& forall|who: Address|
                who != env.contract ==> 0 <= #[trigger] accounting::flow(effects, address, who)
                    <= -accounting::flow(effects, address, env.contract)
        }),
    decreases effects.len(),
{
    if effects.len() > 0 {
        let head = effects.drop_last();
        payouts_take_out(head, address, env.contract);
        backed_payouts_go_through(token, address, env, head);
        let before = scripted_token::carried_out(token, address, env, head).unwrap();
        let paid = scripted_token::carried_out(token, address, env, effects);
        if let Effect::Pay(p) = effects.last() {
            if p.token == address {
                assert(before.balance_of(p.from) == token.balance_of(p.from) + accounting::flow(
                    head,
                    address,
                    p.from,
                ));
                assert(before.balance_of(p.to) == token.balance_of(p.to) + accounting::flow(
                    head,
                    address,
                    p.to,
                ));
                assert(token.balance_of(p.to) - accounting::flow(effects, address, env.contract)
                    <= i128::MAX);
                assert(before.transfer_refusal(env, p.from, p.to, p.amount) is None);
                assert forall|who: Address| #[trigger]
                    paid.unwrap().balance_of(who) == token.balance_of(who) + accounting::flow(
                        effects,
                        address,
                        who,
                    ) by {
                    assert(before.balance_of(who) == token.balance_of(who) + accounting::flow(
                        head,
                        address,
                        who,
                    ));
                    scripted_token::transfer_moves_the_amount(
                        before,
                        env,
                        p.from,
                        p.to,
                        p.amount,
                        who,
                    );
                }
            }
        }
        assert forall|who: Address| who != env.contract implies 0 <= #[trigger] accounting::flow(
            effects,
            address,
            who,
        ) <= -accounting::flow(effects, address, env.contract) by {
            assert(0 <= accounting::flow(head, address, who) <= -accounting::flow(
                head,
                address,
                env.contract,
            ));
        }
    }
}

/// Payouts never add to what the contract holds.
proof fn payouts_take_out(effects: Seq<Effect>, token: Address, contract: Address)
    requires
        payouts_only(effects, token, contract),
    ensures
        accounting::flow(effects, token, contract) <= 0,
    decreases effects.len(),
{
    if effects.len() > 0 {
        payouts_take_out(effects.drop_last(), token, contract);
    }
}

/// A settlement out of escrow goes through in full: where the contract holds the
/// booking's escrow in a token that refuses nobody, and no balance is near the end
/// of the number range, every share is paid, and the contract holds less by exactly
/// the escrow.
pub proof fn backed_settlements_go_through(env: EnvView, call: Call, token: TokenView, id: u64)
    requires
        laws::possible(env, call),
        laws::refusal(env, call) is None,
        call == (Call::ExecuteSplit { booking_id: id }) || call == (Call::CancelByTraveller {
            booking_id: id,
        }) || (call matches Call::ResolveDispute { booking_id, .. } && booking_id == id),
        accounting::outsiders(env, env.bookings[id]),
        env.effects == Seq::<Effect>::empty(),
        token.fail_to is None,
        token.balance_of(env.contract) >= env.bookings[id].escrow_amount,
        forall|who: Address| #[trigger]
            token.balance_of(who) + env.bookings[id].escrow_amount <= i128::MAX,
    ensures
        ({
            let address = env.config.unwrap().token;
            let done = laws::after(env, call);
            let paid = scripted_token::carried_out(token, address, done, done.effects);
            &&& paid is Ok
            &&& paid.unwrap().balance_of(env.contract) == token.balance_of(env.contract)
                - env.bookings[id].escrow_amount
            &&& forall|who: Address| #[trigger]
                paid.unwrap().balance_of(who) == token.balance_of(who) + accounting::flow(
                    done.effects,
                    address,
                    who,
                )
        }),
{
    broadcast use payouts_with_effect;

    let address = env.config.unwrap().token;
    match call {
        Call::ExecuteSplit { booking_id } => {
            accounting::split_pays_out_the_escrow(env, booking_id);
        },
        Call::CancelByTraveller { booking_id } => {
            accounting::traveller_cancellation_pays_out_the_escrow(env, booking_id);
        },
        Call::ResolveDispute { booking_id, bps } => {
            accounting::resolution_pays_out_the_escrow(env, booking_id, bps);
        },
        _ => {},
    }
    assert(accounting::flow(env.effects, address, env.contract) == 0);
    assert(payouts_only(env.effects, address, env.contract));
    let effects = laws::after(env, call).effects;
    assert(payouts_only(effects, address, env.contract));
    assert(accounting::flow(effects, address, env.contract) == -env.bookings[id].escrow_amount);
    assert forall|who: Address| #[trigger]
        token.balance_of(who) - accounting::flow(effects, address, env.contract) <= i128::MAX by {
        assert(token.balance_of(who) + env.bookings[id].escrow_amount <= i128::MAX);
    }
    let done = laws::after(env, call);
    laws::calls_touch_only_their_entries(env, call);
    backed_payouts_go_through(token, address, done, effects);
    let paid = scripted_token::carried_out(token, address, done, effects);
    assert(paid.unwrap().balance_of(env.contract) == token.balance_of(env.contract)
        + accounting::flow(effects, address, env.contract));
}

/// Effects that move no tokens change nothing on a token, and a transfer does what
/// it does on its own.
broadcast proof fn carried_out_with_effect(
    token: TokenView,
    address: Address,
    env: EnvView,
    done: EnvView,
    effect: Effect,
)
    ensures
        #[trigger] scripted_token::carried_out(
            token,
            address,
            env,
            done.with_effect(effect).effects,
        ) == match scripted_token::carried_out(token, address, env, done.effects) {
            Err(e) => Err(e),
            Ok(paid) => match effect {
                Effect::Pay(p) if p.token == address => match paid.transfer_refusal(
                    env,
                    p.from,
                    p.to,
                    p.amount,
                ) {
                    Some(e) => Err(e),
                    None => Ok(paid.transferred(p.from, p.to, p.amount)),
                },
                _ => Ok(paid),
            },
        },
{
    assert(done.with_effect(effect).effects.drop_last() =~= done.effects);
}

/// Whether an escrow can be locked depends on the traveller's balance alone: where
/// the token refuses nobody and the contract's balance stays in the number range,
/// the transfer goes through if and only if the traveller holds the amount.
pub proof fn locking_takes_a_funded_traveller(
    env: EnvView,
    id: u64,
    amount: i128,
    token: TokenView,
)
    requires
        contract::lock_escrow_refusal(env, id, amount) is None,
        env.bookings[id].traveller != env.contract,
        env.effects == Seq::<Effect>::empty(),
        token.fail_to is None,
        token.balance_of(env.contract) + amount <= i128::MAX,
    ensures
        ({
            let address = env.config.unwrap().token;
            let traveller = env.bookings[id].traveller;
            let done = contract::lock_escrow_after(env, id, amount);
            let paid = scripted_token::carried_out(token, address, done, done.effects);
            if token.balance_of(traveller) >= amount {
                &&& paid is Ok
                &&& paid.unwrap().balance_of(env.contract) == token.balance_of(env.contract)
                    + amount
                &&& paid.unwrap().balance_of(traveller) == token.balance_of(traveller) - amount
            } else {
                paid == Err::<TokenView, TokenError>(TokenError::InsufficientBalance)
            }
        }),
{
    broadcast use carried_out_with_effect;

    let call = Call::LockEscrow { booking_id: id, amount };
    laws::calls_touch_only_their_entries(env, call);
}

/// A host cannot cancel on credit: where the token refuses nobody, the contract
/// holds the escrow and no balance is near the end of the number range, the
/// transfers of a host's cancellation go through if and only if the host holds the
/// fee. If they do, the traveller has the whole escrow back.
pub proof fn host_cancellation_takes_the_fee(env: EnvView, id: u64, token: TokenView)
    requires
        contract::cancel_by_host_refusal(env, id) is None,
        env.bookings[id].traveller != env.bookings[id].host,
        env.bookings[id].host != env.config.unwrap().ops_pool,
        accounting::outsiders(env, env.bookings[id]),
        env.effects == Seq::<Effect>::empty(),
        token.fail_to is None,
        token.balance_of(env.contract) >= env.bookings[id].escrow_amount,
        forall|who: Address| #[trigger]
            token.balance_of(who) + env.bookings[id].escrow_amount
                + env.config.unwrap().host_cancel_fee <= i128::MAX,
    ensures
        ({
            let b = env.bookings[id];
            let config = env.config.unwrap();
            let done = contract::cancel_by_host_after(env, id);
            let paid = scripted_token::carried_out(token, config.token, done, done.effects);
            if token.balance_of(b.host) >= config.host_cancel_fee {
                &&& paid is Ok
                &&& paid.unwrap().balance_of(b.host) == token.balance_of(b.host)
                    - config.host_cancel_fee
                &&& paid.unwrap().balance_of(env.contract) == token.balance_of(env.contract)
                    - b.escrow_amount
                &&& paid.unwrap().balance_of(b.traveller) == token.balance_of(b.traveller)
                    + b.escrow_amount + accounting::received(
                    b.traveller,
                    config.ops_pool,
                    config.host_cancel_fee,
                )
            } else {
                paid == Err::<TokenView, TokenError>(TokenError::InsufficientBalance)
            }
        }),
{
    broadcast use carried_out_with_effect;

    let b = env.bookings[id];
    let config = env.config.unwrap();
    laws::calls_touch_only_their_entries(env, Call::CancelByHost { booking_id: id });
    assert(token.balance_of(config.ops_pool) + b.escrow_amount + config.host_cancel_fee
        <= i128::MAX);
    assert(token.balance_of(b.traveller) + b.escrow_amount + config.host_cancel_fee <= i128::MAX);
    let fee_paid = token.transferred(b.host, config.ops_pool, config.host_cancel_fee);
    assert(fee_paid.balance_of(env.contract) == token.balance_of(env.contract));
}

/// What an invocation makes of the entries and of the token at `address`, whether it
/// is refused, fails on a transfer, or goes through.
pub open spec fn invoked(
    env: EnvView,
    call: Call,
    token: TokenView,
    address: Address,
) -> (EnvView, TokenView) {
    if laws::refusal(env, call) is None {
        scripted_token::committed(token, address, env, laws::after(env, call))
    } else {
        (env, token)
    }
}

/// All or nothing: an invocation that is refused, or one of whose transfers is
/// refused, leaves every entry and every balance as it was; any other has all of its
/// entries written and all of its transfers made.
pub proof fn invocations_are_all_or_nothing(
    env: EnvView,
    call: Call,
    token: TokenView,
    address: Address,
)
    ensures
        ({
            let done = laws::after(env, call);
            let paid = scripted_token::carried_out(token, address, done, done.effects);
            if laws::refusal(env, call) is None && paid is Ok {
                invoked(env, call, token, address) == (done, paid.unwrap())
            } else {
                invoked(env, call, token, address) == (env, token)
            }
        }),
{
}

/// Recovery: where a transfer of `execute_split` is refused, the booking is still
/// completed and not settled and holds its escrow; a dispute can be opened on it, and
/// resolved with any allocation that adds up and whose products fit.
pub proof fn failed_split_can_be_recovered(
    env: EnvView,
    id: u64,
    token: TokenView,
    address: Address,
    bps: Seq<u32>,
)
    requires
        laws::consistent(env),
        contract::execute_split_refusal(env, id) is None,
        ({
            let done = contract::execute_split_after(env, id);
            scripted_token::carried_out(token, address, done, done.effects) is Err
        }),
        split::bps_amounts_refusal(env.bookings[id].amount as int, bps, 6) is None,
    ensures
        ({
            let left = invoked(env, Call::ExecuteSplit { booking_id: id }, token, address).0;
            let disputed = contract::open_dispute_after(left, id);
            &&& left.bookings[id].state == BookingState::Completed
            &&& !left.bookings[id].settled
            &&& left.bookings[id].escrow_amount == env.bookings[id].amount
            &&& contract::open_dispute_refusal(left, id) is None
            &&& contract::resolve_dispute_refusal(disputed, id, bps) is None
        }),
{
    laws::unsettled_completion_can_be_recovered(env, id, bps);
}

/// The contract never pays to itself where the parties of the booking are not the
/// contract.
proof fn calls_pay_others(env: EnvView, call: Call, token: Address)
    requires
        laws::refusal(env, call) is None,
        !(call is ClaimPayout),
        laws::subject(call) matches Some(id) ==> accounting::outsiders(env, env.bookings[id]),
        env.effects == Seq::<Effect>::empty(),
    ensures
        no_self_payment(laws::after(env, call).effects, token, env.contract),
{
    broadcast use no_self_payment_with_effect;

    assert(no_self_payment(env.effects, token, env.contract));
}

/// Solvency: whether an invocation is refused, fails on a transfer, or goes through,
/// what the contract holds in the token beyond all the escrows stays the same. (Claims
/// are paid from claimable balances, not from escrow.)
pub proof fn invocations_keep_the_contract_solvent(env: EnvView, call: Call, token: TokenView)
    requires
        laws::consistent(env),
        laws::possible(env, call),
        env.config is Some,
        env.effects == Seq::<Effect>::empty(),
        !(call is ClaimPayout),
        laws::refusal(env, call) is None ==> (laws::subject(call) matches Some(id)
            ==> accounting::outsiders(env, env.bookings[id])),
    ensures
        ({
            let (left, ledger) = invoked(env, call, token, env.config.unwrap().token);
            ledger.balance_of(env.contract) - accounting::escrow_held(left) == token.balance_of(
                env.contract,
            ) - accounting::escrow_held(env)
        }),
{
    let address = env.config.unwrap().token;
    let done = laws::after(env, call);
    laws::configuration_is_set_once(env, call);
    if laws::refusal(env, call) is None && scripted_token::carried_out(
        token,
        address,
        done,
        done.effects,
    ) is Ok {
        accounting::escrow_is_backed(env, call);
        calls_pay_others(env, call, address);
        balances_move_by_the_flow(token, address, done, done.effects, env.contract);
        assert(accounting::flow(env.effects, address, env.contract) == 0);
    }
}

/// The entries and the token after a history of invocations, each of which is
/// refused, fails on a transfer, or goes through.
pub open spec fn ledger_run(
    env: EnvView,
    token: TokenView,
    address: Address,
    history: Seq<Invocation>,
) -> (EnvView, TokenView)
    decreases history.len(),
{
    if history.len() == 0 {
        (env, token)
    } else {
        let (stored, ledger) = ledger_run(env, token, address, history.drop_last());
        invoked(laws::entered(stored, history.last()), history.last().call, ledger, address)
    }
}

/// Whether each invocation of a history is possible when it comes, and is about no
/// booking of which a party or pool is the contract itself.
pub open spec fn ledger_possible(
    env: EnvView,
    token: TokenView,
    address: Address,
    history: Seq<Invocation>,
) -> bool
    decreases history.len(),
{
    history.len() > 0 ==> {
        let before = laws::entered(
            ledger_run(env, token, address, history.drop_last()).0,
            history.last(),
        );
        &&& ledger_possible(env, token, address, history.drop_last())
        &&& laws::possible(before, history.last().call)
        &&& laws::subject(history.last().call) matches Some(id) ==> (before.bookings.contains_key(
            id,
        ) ==> accounting::outsiders(before, before.bookings[id]))
    }
}

/// Solvency over every history, failing transfers included: a contract that holds
/// all the escrows and owes nobody a claim goes on to hold all of them.
pub proof fn every_history_keeps_the_contract_solvent(
    env: EnvView,
    token: TokenView,
    history: Seq<Invocation>,
)
    requires
        laws::consistent(env),
        env.config is Some,
        forall|who: Address| env.claimable_by(who) <= 0,
        ledger_possible(env, token, env.config.unwrap().token, history),
        token.balance_of(env.contract) >= accounting::escrow_held(env),
    ensures
        ({
            let (stored, ledger) = ledger_run(env, token, env.config.unwrap().token, history);
            &&& laws::consistent(stored)
            &&& stored.config == env.config
            &&& stored.contract == env.contract
            &&& forall|who: Address| stored.claimable_by(who) <= 0
            &&& ledger.balance_of(env.contract) - accounting::escrow_held(stored)
                == token.balance_of(env.contract) - accounting::escrow_held(env)
            &&& ledger.balance_of(env.contract) >= accounting::escrow_held(stored)
        }),
    decreases history.len(),
{
    if history.len() > 0 {
        let address = env.config.unwrap().token;
        let invocation = history.last();
        let call = invocation.call;
        every_history_keeps_the_contract_solvent(env, token, history.drop_last());
        let (stored, ledger) = ledger_run(env, token, address, history.drop_last());
        let before = laws::entered(stored, invocation);
        assert(laws::consistent(before));
        assert(accounting::escrow_held(before) == accounting::escrow_held(stored));
        laws::calls_keep_the_contract_consistent(before, call);
        laws::configuration_is_set_once(before, call);
        laws::calls_touch_only_their_entries(before, call);
        let (left, _) = ledger_run(env, token, address, history);
        assert(left == before || left == laws::step(before, call));
        assert forall|who: Address| left.claimable_by(who) <= 0 by {
            assert(stored.claimable_by(who) <= 0);
            assert(before.claimable_by(who) == stored.claimable_by(who));
            laws::no_call_credits_a_claimable_balance(before, call, who);
        }
        if let Call::ClaimPayout { who } = call {
            assert(stored.claimable_by(who) <= 0);
            assert(before.claimable_by(who) == stored.claimable_by(who));
            assert(laws::refusal(before, call) is Some);
        } else {
            if laws::refusal(before, call) is None {
                if let Some(id) = laws::subject(call) {
                    assert(before.bookings.contains_key(id));
                }
            }
            invocations_keep_the_contract_solvent(before, call, ledger);
        }
    }
}

/// Everything that a history of invocations does on the ledger, in order. One that is
/// refused or fails on a transfer does nothing.
pub open spec fn ledger_effects(
    env: EnvView,
    token: TokenView,
    address: Address,
    history: Seq<Invocation>,
) -> Seq<Effect>
    decreases history.len(),
{
    if history.len() == 0 {
        Seq::empty()
    } else {
        ledger_effects(env, token, address, history.drop_last()) + ledger_run(
            env,
            token,
            address,
            history,
        ).0.effects
    }
}

/// A failing transfer counts as a refusal: whatever a history does and leaves in the
/// entries where some of its invocations fail on a transfer, a history of calls alone
/// does and leaves too, in which those are refused. So all that holds over every history
/// of calls holds whichever transfers fail.
pub proof fn failing_transfers_count_as_refusals(
    env: EnvView,
    token: TokenView,
    address: Address,
    history: Seq<Invocation>,
) -> (calls: Seq<Invocation>)
    ensures
        calls.len() == history.len(),
        laws::run(env, calls) == (EnvView {
            signers: laws::run(env, calls).signers,
            ..ledger_run(env, token, address, history).0
        }),
        indexing::history_effects(env, calls) == ledger_effects(env, token, address, history),
        ledger_possible(env, token, address, history) ==> laws::possible_history(env, calls),
    decreases history.len(),
{
    if history.len() == 0 {
        history
    } else {
        let last = history.last();
        let head = failing_transfers_count_as_refusals(env, token, address, history.drop_last());
        let (stored, ledger) = ledger_run(env, token, address, history.drop_last());
        let before = laws::entered(stored, last);
        let done = laws::after(before, last.call);
        let failed = laws::refusal(before, last.call) is None && scripted_token::carried_out(
            ledger,
            address,
            done,
            done.effects,
        ) is Err;
        let counted = if failed {
            Invocation { signers: Seq::empty(), ..last }
        } else {
            last
        };
        let calls = head.push(counted);
        assert(calls.drop_last() =~= head);
        let entered = laws::entered(laws::run(env, head), counted);
        if failed {
            if laws::refusal(entered, last.call) is None {
                laws::calls_need_their_signatures(entered, last.call);
            }
        } else {
            assert(entered == before);
        }
        calls
    }
}

} // verus!
