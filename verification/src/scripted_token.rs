//! Minimal token with scripted failures: it can refuse transfers to a chosen
//! recipient, so that what happens around a failing transfer can be tried out.
use std::collections::HashMap;

use vstd::prelude::*;

use crate::env::{Effect, Env, EnvView};
use crate::types::Address;

verus! {

/// Why the token does not do what it was asked to.
#[derive(Clone, Copy, Debug, PartialEq, Eq, Structural)]
pub enum TokenError {
    /// The payer has not authorized the transfer.
    Unauthorized,
    /// The token is armed against the recipient.
    Refused,
    InsufficientBalance,
    /// A balance would leave the number range.
    Overflow,
}

/// The token.
#[derive(Clone, Debug)]
pub struct ScriptedToken {
    /// Balances by the holder's handle.
    pub balances: HashMap<u64, i128>,
    /// The recipient whose transfers are refused, while the token is armed.
    pub fail_to: Option<Address>,
}

/// The model of a [`ScriptedToken`].
#[verifier::ext_equal]
pub struct TokenView {
    pub balances: Map<u64, i128>,
    pub fail_to: Option<Address>,
}

impl View for ScriptedToken {
    type V = TokenView;

    open spec fn view(&self) -> TokenView {
        TokenView { balances: self.balances@, fail_to: self.fail_to }
    }
}

impl TokenView {
    /// The balance of `who`.
    pub open spec fn balance_of(self, who: Address) -> i128 {
        if self.balances.contains_key(who.id) {
            self.balances[who.id]
        } else {
            0
        }
    }

    /// With a balance written.
    pub open spec fn with_balance(self, who: Address, amount: int) -> TokenView {
        TokenView { balances: self.balances.insert(who.id, amount as i128), ..self }
    }

    /// Why a transfer is refused, if it is.
    pub open spec fn transfer_refusal(
        self,
        env: EnvView,
        from: Address,
        to: Address,
        amount: i128,
    ) -> Option<TokenError> {
        if from != env.contract && !env.signed_by(from) {
            Some(TokenError::Unauthorized)
        } else if self.fail_to == Some(to) {
            Some(TokenError::Refused)
        } else if self.balance_of(from) < amount {
            Some(TokenError::InsufficientBalance)
        } else if self.balance_of(from) - amount > i128::MAX || !(i128::MIN <= self.balance_of(to)
            + amount <= i128::MAX) {
            Some(TokenError::Overflow)
        } else {
            None
        }
    }

    /// After a transfer. The recipient's balance is computed from what it was
    /// before the payer's was written.
    pub open spec fn transferred(self, from: Address, to: Address, amount: i128) -> TokenView {
        self.with_balance(from, self.balance_of(from) - amount).with_balance(
            to,
            self.balance_of(to) + amount,
        )
    }
}

/// What becomes of the token at `address` when the transfers among `effects` are
/// made in turn: the token afterwards, or what the first refused transfer is
/// refused with.
pub open spec fn carried_out(
    token: TokenView,
    address: Address,
    env: EnvView,
    effects: Seq<Effect>,
) -> Result<TokenView, TokenError>
    decreases effects.len(),
{
    if effects.len() == 0 {
        Ok(token)
    } else {
        match carried_out(token, address, env, effects.drop_last()) {
            Err(e) => Err(e),
            Ok(paid) => match effects.last() {
                Effect::Pay(p) => if p.token != address {
                    Ok(paid)
                } else {
                    match paid.transfer_refusal(env, p.from, p.to, p.amount) {
                        Some(e) => Err(e),
                        None => Ok(paid.transferred(p.from, p.to, p.amount)),
                    }
                },
                _ => Ok(paid),
            },
        }
    }
}

/// What an invocation that found `stored` and left `done` makes of the entries and
/// of the token at `address`: both are as the invocation leaves them, or both are as
/// it found them.
pub open spec fn committed(
    token: TokenView,
    address: Address,
    stored: EnvView,
    done: EnvView,
) -> (EnvView, TokenView) {
    match carried_out(token, address, done, done.effects) {
        Ok(paid) => (done, paid),
        Err(_) => (stored, token),
    }
}

/// A refused transfer refuses everything behind it.
proof fn refused_stays_refused(
    token: TokenView,
    address: Address,
    env: EnvView,
    effects: Seq<Effect>,
    k: int,
)
    requires
        0 <= k <= effects.len(),
        carried_out(token, address, env, effects.take(k)) is Err,
    ensures
        carried_out(token, address, env, effects) == carried_out(
            token,
            address,
            env,
            effects.take(k),
        ),
    decreases effects.len(),
{
    if k < effects.len() {
        assert(effects.drop_last().take(k) =~= effects.take(k));
        refused_stays_refused(token, address, env, effects.drop_last(), k);
    } else {
        assert(effects.take(k) =~= effects);
    }
}

impl ScriptedToken {
    /// A token that nobody holds and that refuses nobody.
    pub fn new() -> (token: ScriptedToken)
        ensures
            token@ == (TokenView { balances: Map::empty(), fail_to: None }),
    {
        broadcast use vstd::std_specs::hash::group_hash_axioms;

        ScriptedToken { balances: HashMap::new(), fail_to: None }
    }

    /// From now on every transfer to `fail_to` is refused.
    pub fn arm_fail_to(&mut self, fail_to: Address)
        ensures
            final(self)@ == (TokenView { fail_to: Some(fail_to), ..old(self)@ }),
    {
        self.fail_to = Some(fail_to);
    }

    /// From now on no transfer is refused for its recipient.
    pub fn disarm(&mut self)
        ensures
            final(self)@ == (TokenView { fail_to: None, ..old(self)@ }),
    {
        self.fail_to = None;
    }

    /// Creates tokens.
    pub fn mint(&mut self, to: Address, amount: i128) -> (result: Result<(), TokenError>)
        ensures
            ({
                let next = old(self)@.balance_of(to) + amount;
                if i128::MIN <= next <= i128::MAX {
                    result == Ok::<(), TokenError>(()) && final(self)@ == old(self)@.with_balance(
                        to,
                        next,
                    )
                } else {
                    result == Err::<(), TokenError>(TokenError::Overflow) && final(self)@
                        == old(self)@
                }
            }),
    {
        broadcast use vstd::std_specs::hash::group_hash_axioms;

        match self.balance(to).checked_add(amount) {
            Some(next) => {
                self.balances.insert(to.id, next);
                Ok(())
            },
            None => Err(TokenError::Overflow),
        }
    }

    /// What `id` holds.
    pub fn balance(&self, id: Address) -> (amount: i128)
        ensures
            amount == self@.balance_of(id),
    {
        broadcast use vstd::std_specs::hash::group_hash_axioms;

        match self.balances.get(&id.id) {
            Some(amount) => *amount,
            None => 0,
        }
    }

    /// Moves tokens in an invocation that `env` describes. The contract that
    /// makes the invocation may spend its own tokens; any other payer must have
    /// signed. A refused transfer changes nothing.
    pub fn transfer(&mut self, env: &Env, from: Address, to: Address, amount: i128) -> (result:
        Result<(), TokenError>)
        ensures
            match old(self)@.transfer_refusal(env@, from, to, amount) {
                Some(e) => result == Err::<(), TokenError>(e) && final(self)@ == old(self)@,
                None => {
                    &&& result == Ok::<(), TokenError>(())
                    &&& final(self)@ == old(self)@.transferred(from, to, amount)
                },
            },
    {
        broadcast use vstd::std_specs::hash::group_hash_axioms;

        if from != env.contract && !env.is_signer(from) {
            return Err(TokenError::Unauthorized);
        }
        if let Some(fail_to) = self.fail_to {
            if to == fail_to {
                return Err(TokenError::Refused);
            }
        }
        let from_bal: i128 = self.balance(from);
        if from_bal < amount {
            return Err(TokenError::InsufficientBalance);
        }
        let to_bal: i128 = self.balance(to);
        let from_next = match from_bal.checked_sub(amount) {
            Some(v) => v,
            None => return Err(TokenError::Overflow),
        };
        let to_next = match to_bal.checked_add(amount) {
            Some(v) => v,
            None => return Err(TokenError::Overflow),
        };
        self.balances.insert(from.id, from_next);
        self.balances.insert(to.id, to_next);
        Ok(())
    }

    /// Makes all the transfers that the invocation recorded in this token, which is
    /// known under `address`; all of them, or none where one is refused.
    pub fn carry_out(&mut self, address: Address, env: &Env) -> (result: Result<(), TokenError>)
        ensures
            match carried_out(old(self)@, address, env@, env@.effects) {
                Ok(paid) => result == Ok::<(), TokenError>(()) && final(self)@ == paid,
                Err(e) => result == Err::<(), TokenError>(e) && final(self)@ == old(self)@,
            },
    {
        let mut paid = ScriptedToken { balances: self.balances.clone(), fail_to: self.fail_to };
        let ghost effects = env@.effects;
        let ghost start = self@;
        let mut i: usize = 0;
        assert(effects.take(0) =~= Seq::<Effect>::empty());
        while i < env.effects.len()
            invariant
                i <= effects.len(),
                effects == env@.effects,
                start == old(self)@,
                self@ == start,
                carried_out(start, address, env@, effects.take(i as int)) == Ok::<
                    TokenView,
                    TokenError,
                >(paid@),
            decreases effects.len() - i,
        {
            proof {
                assert(effects.take(i + 1).drop_last() =~= effects.take(i as int));
                assert(effects.take(i + 1).last() == effects[i as int]);
            }
            if let Effect::Pay(p) = env.effects[i] {
                if p.token == address {
                    if let Err(e) = paid.transfer(env, p.from, p.to, p.amount) {
                        proof {
                            refused_stays_refused(start, address, env@, effects, i + 1);
                        }
                        return Err(e);
                    }
                }
            }
            i = i + 1;
        }
        assert(effects.take(i as int) =~= effects);
        *self = paid;
        Ok(())
    }

    /// Ends an invocation that found the entries of `stored` and left those of
    /// `done`: makes the transfers that `done` recorded in this token, and puts `done`
    /// in the place of `stored`. All or nothing: where a transfer is refused, no
    /// balance changes, and what was stored stays as it was.
    pub fn commit(&mut self, address: Address, stored: &mut Env, done: Env) -> (result: Result<
        (),
        TokenError,
    >)
        ensures
            match carried_out(old(self)@, address, done@, done@.effects) {
                Ok(paid) => {
                    &&& result == Ok::<(), TokenError>(())
                    &&& final(self)@ == paid
                    &&& *final(stored) == done
                },
                Err(e) => {
                    &&& result == Err::<(), TokenError>(e)
                    &&& final(self)@ == old(self)@
                    &&& *final(stored) == *old(stored)
                },
            },
            (final(stored)@, final(self)@) == committed(old(self)@, address, old(stored)@, done@),
    {
        self.carry_out(address, &done)?;
        *stored = done;
        Ok(())
    }

    /// The number of decimals of an amount.
    pub fn decimals(&self) -> (decimals: u32)
        ensures
            decimals == 7,
    {
        7
    }
}

/// A transfer between two holders moves exactly the amount from one to the
/// other, and touches nobody else's balance.
pub proof fn transfer_moves_the_amount(
    token: TokenView,
    env: EnvView,
    from: Address,
    to: Address,
    amount: i128,
    other: Address,
)
    requires
        from != to,
        token.transfer_refusal(env, from, to, amount) is None,
    ensures
        token.transferred(from, to, amount).balance_of(from) == token.balance_of(from) - amount,
        token.transferred(from, to, amount).balance_of(to) == token.balance_of(to) + amount,
        other != from && other != to ==> token.transferred(from, to, amount).balance_of(other)
            == token.balance_of(other),
{
}

/// Who holds what, and when a transfer goes through: the payer is the contract or has
/// signed, the token is not armed against the recipient, the payer holds the amount, and
/// both balances stay in the number range. A transfer that is refused is refused with the
/// first of these that is missing.
pub proof fn transfer_goes_through_when(
    token: TokenView,
    env: EnvView,
    from: Address,
    to: Address,
    amount: i128,
)
    ensures
        ({
            let refusal = token.transfer_refusal(env, from, to, amount);
            let payer = if token.balances.contains_key(from.id) {
                token.balances[from.id] as int
            } else {
                0
            };
            let recipient = if token.balances.contains_key(to.id) {
                token.balances[to.id] as int
            } else {
                0
            };
            let signed = from == env.contract || env.signers.contains(from);
            let willing = signed && token.fail_to != Some(to);
            let funded = willing && payer >= amount;
            let fits = payer - amount <= i128::MAX && i128::MIN <= recipient + amount <= i128::MAX;
            &&& token.balance_of(from) == payer
            &&& refusal is None <==> funded && fits
            &&& refusal == Some(TokenError::Unauthorized) <==> !signed
            &&& refusal == Some(TokenError::Refused) <==> signed && !willing
            &&& refusal == Some(TokenError::InsufficientBalance) <==> willing && !funded
            &&& refusal == Some(TokenError::Overflow) <==> funded && !fits
            &&& token.transferred(from, to, amount).fail_to == token.fail_to
            &&& refusal is None ==> token.transferred(from, to, amount).balances
                == token.balances.insert(from.id, (payer - amount) as i128).insert(
                to.id,
                (recipient + amount) as i128,
            )
        }),
{
}

/// The model of a token is made of its own fields.
pub proof fn model_shows_the_token(token: ScriptedToken)
    ensures
        token@.balances == token.balances@,
        token@.fail_to == token.fail_to,
{
}

/// Writing a balance writes that balance alone.
pub proof fn balances_are_written_one_by_one(
    token: TokenView,
    who: Address,
    amount: i128,
    other: Address,
)
    ensures
        token.with_balance(who, amount as int).balance_of(who) == amount,
        other != who ==> token.with_balance(who, amount as int).balance_of(other)
            == token.balance_of(other),
        token.with_balance(who, amount as int).fail_to == token.fail_to,
{
}

/// Transfers are made in order, each on what the ones before it left; effects that are no
/// transfer in this token change nothing; and once one is refused nothing is made.
pub proof fn transfers_are_made_in_order(
    token: TokenView,
    address: Address,
    env: EnvView,
    effects: Seq<Effect>,
    next: Effect,
    stored: EnvView,
    done: EnvView,
)
    ensures
        carried_out(token, address, env, Seq::empty()) == Ok::<TokenView, TokenError>(token),
        ({
            let before = carried_out(token, address, env, effects);
            let after = carried_out(token, address, env, effects.push(next));
            match (before, next) {
                (Err(_), _) => after == before,
                (Ok(paid), Effect::Pay(p)) => if p.token != address {
                    after == before
                } else {
                    match paid.transfer_refusal(env, p.from, p.to, p.amount) {
                        Some(e) => after == Err::<TokenView, TokenError>(e),
                        None => after == Ok::<TokenView, TokenError>(
                            paid.transferred(p.from, p.to, p.amount),
                        ),
                    }
                },
                _ => after == before,
            }
        }),
        match carried_out(token, address, done, done.effects) {
            Ok(paid) => committed(token, address, stored, done) == (done, paid),
            Err(_) => committed(token, address, stored, done) == (stored, token),
        },
{
    assert(effects.push(next).drop_last() =~= effects);
}

} // verus!
