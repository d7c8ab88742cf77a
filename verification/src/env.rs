//! What one invocation of the contract sees and does.
//!
//! [`Env`] holds the contract's entries as they stand, the ledger time, the
//! addresses that signed the invocation, and the [`Effect`]s of the invocation
//! in the order in which they are to be carried out. A host fills an `Env` with
//! the entries that a call can touch, makes the call, and carries the effects
//! out: it writes each stored entry, extends each lifetime, makes each transfer
//! and publishes each event. Where one of them fails, it drops all of them.
//! [`crate::scripted_token::ScriptedToken::commit`] does so for the entries and the
//! transfers in one token.
use std::collections::HashMap;

use vstd::prelude::*;

use crate::errors::Error;
use crate::events::Event;
use crate::storage::DataKey;
use crate::types::{Address, Booking, Bytes32, CancelSettlement, Config};

verus! {

/// A token transfer.
#[derive(Clone, Copy, Debug, PartialEq, Eq, Structural)]
pub struct Transfer {
    pub token: Address,
    pub from: Address,
    pub to: Address,
    pub amount: i128,
}

/// One thing that an invocation does to the world around it.
#[derive(Clone, Copy, Debug, PartialEq, Eq)]
pub enum Effect {
    /// The entry under the key is written.
    Store(DataKey),
    /// The lifetime of the contract instance and its code is extended to
    /// `extend_to` ledgers if it is below `threshold`.
    ExtendInstance { threshold: u32, extend_to: u32 },
    /// The lifetime of one persistent entry is extended in the same way.
    ExtendEntry { key: DataKey, threshold: u32, extend_to: u32 },
    /// Tokens change hands.
    Pay(Transfer),
    /// An event is published.
    Publish(Event),
}

/// The environment of one invocation.
#[derive(Clone, Debug)]
pub struct Env {
    /// The address of the contract itself.
    pub contract: Address,
    /// The ledger time in Unix seconds.
    pub timestamp: u64,
    /// The addresses that signed the invocation.
    pub signers: Vec<Address>,
    /// The address whose missing signature was last asked for.
    pub denied: Option<Address>,
    pub config: Option<Config>,
    pub next_booking_id: Option<u64>,
    pub total_escrowed: Option<i128>,
    pub bookings: HashMap<u64, Booking>,
    /// Every booking reference that was written, in order; the last entry for a
    /// reference counts.
    pub refs: Vec<(Bytes32, u64)>,
    pub settlements: HashMap<u64, CancelSettlement>,
    /// Claimable balances by the claimant's handle.
    pub claimable: HashMap<u64, i128>,
    pub effects: Vec<Effect>,
}

/// What the last entry for `key` says.
pub open spec fn last_entry(entries: Seq<(Bytes32, u64)>, key: Bytes32) -> Option<u64>
    decreases entries.len(),
{
    if entries.len() == 0 {
        None
    } else if entries.last().0 == key {
        Some(entries.last().1)
    } else {
        last_entry(entries.drop_last(), key)
    }
}

/// The map that a list of entries stands for.
pub open spec fn entries_map(entries: Seq<(Bytes32, u64)>) -> Map<Bytes32, u64> {
    Map::new(
        |key: Bytes32| last_entry(entries, key) is Some,
        |key: Bytes32| last_entry(entries, key).unwrap(),
    )
}

/// The model of an [`Env`].
#[verifier::ext_equal]
pub struct EnvView {
    pub contract: Address,
    pub timestamp: u64,
    pub signers: Seq<Address>,
    pub config: Option<Config>,
    pub next_booking_id: Option<u64>,
    pub total_escrowed: Option<i128>,
    pub bookings: Map<u64, Booking>,
    pub refs: Map<Bytes32, u64>,
    pub settlements: Map<u64, CancelSettlement>,
    pub claimable: Map<u64, i128>,
    pub effects: Seq<Effect>,
}

impl View for Env {
    type V = EnvView;

    open spec fn view(&self) -> EnvView {
        EnvView {
            contract: self.contract,
            timestamp: self.timestamp,
            signers: self.signers@,
            config: self.config,
            next_booking_id: self.next_booking_id,
            total_escrowed: self.total_escrowed,
            bookings: self.bookings@,
            refs: entries_map(self.refs@),
            settlements: self.settlements@,
            claimable: self.claimable@,
            effects: self.effects@,
        }
    }
}

impl EnvView {
    /// With one more effect.
    pub open spec fn with_effect(self, effect: Effect) -> EnvView {
        EnvView { effects: self.effects.push(effect), ..self }
    }

    /// With one more published event.
    pub open spec fn published(self, event: Event) -> EnvView {
        self.with_effect(Effect::Publish(event))
    }

    /// With one more transfer.
    pub open spec fn paid(
        self,
        token: Address,
        from: Address,
        to: Address,
        amount: i128,
    ) -> EnvView {
        self.with_effect(Effect::Pay(Transfer { token, from, to, amount }))
    }

    /// With one more transfer out of the contract, if there is anything to pay.
    pub open spec fn paid_out(self, token: Address, to: Address, amount: i128) -> EnvView {
        if amount > 0 {
            self.paid(token, self.contract, to, amount)
        } else {
            self
        }
    }

    /// Whether `who` signed the invocation.
    pub open spec fn signed_by(self, who: Address) -> bool {
        self.signers.contains(who)
    }
}

impl Env {
    /// An environment without any entry, signer or effect.
    pub fn new(contract: Address, timestamp: u64) -> (env: Env)
        ensures
            env@ == (EnvView {
                contract,
                timestamp,
                signers: Seq::empty(),
                config: None,
                next_booking_id: None,
                total_escrowed: None,
                bookings: Map::empty(),
                refs: Map::empty(),
                settlements: Map::empty(),
                claimable: Map::empty(),
                effects: Seq::empty(),
            }),
            env.denied is None,
    {
        broadcast use vstd::std_specs::hash::group_hash_axioms;

        let env = Env {
            contract,
            timestamp,
            signers: Vec::new(),
            denied: None,
            config: None,
            next_booking_id: None,
            total_escrowed: None,
            bookings: HashMap::new(),
            refs: Vec::new(),
            settlements: HashMap::new(),
            claimable: HashMap::new(),
            effects: Vec::new(),
        };
        assert(entries_map(env.refs@) =~= Map::<Bytes32, u64>::empty());
        env
    }

    /// Whether `who` signed the invocation.
    pub fn is_signer(&self, who: Address) -> (result: bool)
        ensures
            result == self@.signed_by(who),
    {
        let mut i: usize = 0;
        while i < self.signers.len()
            invariant
                i <= self.signers@.len(),
                forall|j: int| 0 <= j < i ==> self.signers@[j] != who,
            decreases self.signers@.len() - i,
        {
            if self.signers[i] == who {
                assert(self.signers@[i as int] == who);
                return true;
            }
            i = i + 1;
        }
        false
    }

    /// Asks for the signature of `who`; a missing one is remembered in `denied`.
    pub fn require_auth(&mut self, who: Address) -> (result: Result<(), Error>)
        ensures
            final(self)@ == old(self)@,
            result == (if old(self)@.signed_by(who) {
                Ok::<(), Error>(())
            } else {
                Err::<(), Error>(Error::Unauthorized)
            }),
            result is Err ==> final(self).denied == Some(who),
    {
        if self.is_signer(who) {
            Ok(())
        } else {
            self.denied = Some(who);
            Err(Error::Unauthorized)
        }
    }

    /// Adds an effect.
    pub fn record(&mut self, effect: Effect)
        ensures
            final(self)@ == old(self)@.with_effect(effect),
    {
        self.effects.push(effect);
    }

    /// Publishes an event.
    pub fn publish(&mut self, event: Event)
        ensures
            final(self)@ == old(self)@.published(event),
    {
        self.record(Effect::Publish(event));
    }

    /// Moves tokens.
    pub fn transfer(&mut self, token: Address, from: Address, to: Address, amount: i128)
        ensures
            final(self)@ == old(self)@.paid(token, from, to, amount),
    {
        self.record(Effect::Pay(Transfer { token, from, to, amount }));
    }

    /// Takes back the effects from number `mark` on and refuses the call.
    pub(crate) fn refuse<T>(&mut self, mark: usize, error: Error) -> (result: Result<T, Error>)
        requires
            mark <= old(self)@.effects.len(),
        ensures
            result == Err::<T, Error>(error),
            final(self)@ == (EnvView {
                effects: old(self)@.effects.take(mark as int),
                ..old(self)@
            }),
            final(self).denied == old(self).denied,
    {
        self.effects.truncate(mark);
        Err(error)
    }
}

/// The model of an environment is made of its own fields, and what has been entered
/// last for a reference is what the reference stands for.
pub proof fn model_shows_the_environment(env: Env, key: Bytes32, i: int)
    ensures
        env@.contract == env.contract,
        env@.timestamp == env.timestamp,
        env@.signers == env.signers@,
        env@.config == env.config,
        env@.next_booking_id == env.next_booking_id,
        env@.total_escrowed == env.total_escrowed,
        env@.bookings == env.bookings@,
        env@.settlements == env.settlements@,
        env@.claimable == env.claimable@,
        env@.effects == env.effects@,
        0 <= i < env.refs@.len() && env.refs@[i].0 == key && (forall|j: int|
            i < j < env.refs@.len() ==> (#[trigger] env.refs@[j]).0 != key)
            ==> env@.refs.contains_key(key) && env@.refs[key] == env.refs@[i].1,
        (forall|j: int| 0 <= j < env.refs@.len() ==> (#[trigger] env.refs@[j]).0 != key)
            ==> !env@.refs.contains_key(key),
{
    last_entry_is_the_last(env.refs@, key, i);
}

proof fn last_entry_is_the_last(entries: Seq<(Bytes32, u64)>, key: Bytes32, i: int)
    ensures
        0 <= i < entries.len() && entries[i].0 == key && (forall|j: int|
            i < j < entries.len() ==> (#[trigger] entries[j]).0 != key) ==> last_entry(entries, key)
            == Some(entries[i].1),
        (forall|j: int| 0 <= j < entries.len() ==> (#[trigger] entries[j]).0 != key)
            ==> last_entry(entries, key) is None,
    decreases entries.len(),
{
    if entries.len() > 0 {
        let head = entries.drop_last();
        last_entry_is_the_last(head, key, i);
        assert(entries.last() == entries[entries.len() - 1]);
        assert(forall|j: int| 0 <= j < head.len() ==> (#[trigger] head[j]) == entries[j]);
    }
}

/// Effects are recorded behind those that are there, and recording one changes nothing
/// else; a payment of nothing is not recorded.
pub proof fn effects_are_recorded_in_order(
    env: EnvView,
    effect: Effect,
    event: Event,
    token: Address,
    from: Address,
    to: Address,
    amount: i128,
)
    ensures
        env.with_effect(effect) == (EnvView { effects: env.effects + seq![effect], ..env }),
        env.published(event) == (EnvView {
            effects: env.effects + seq![Effect::Publish(event)],
            ..env
        }),
        env.paid(token, from, to, amount) == (EnvView {
            effects: env.effects + seq![Effect::Pay(Transfer { token, from, to, amount })],
            ..env
        }),
        env.paid_out(token, to, amount) == (EnvView {
            effects: env.effects + if amount > 0 {
                seq![Effect::Pay(Transfer { token, from: env.contract, to, amount })]
            } else {
                Seq::empty()
            },
            ..env
        }),
        env.signed_by(to) <==> env.signers.contains(to),
{
    assert(env.effects + Seq::<Effect>::empty() =~= env.effects);
}

} // verus!
