//! Storage keys, lifetime policy, and helpers.
//!
//! # Lifetime strategy (ledger counts, not wall-clock)
//!
//! All constants below are **ledgers**.
//!
//! ## Persistent `Booking(id)` and `BookingRef(ref)`
//! Extended on every write and on successful active reads ([`require_booking`] /
//! reference lookups). Both use the same policy, so that the reverse-lookup index
//! cannot expire significantly earlier than the booking itself.
//!
//! ## Persistent `CancelSettlement(id)`
//! Written once at traveller/host cancellation. Retention is intentionally
//! **shorter** than that of active bookings: the record is terminal audit
//! metadata, not live escrow state. Readers still extend it.
//!
//! ## Instance storage
//! `Config`, `TotalEscrowed`, and `NextBookingId` share **one** contract-instance
//! lifetime. It is extended after instance writes, on active config reads, and on
//! booking activity, so that it stays aligned with active protocol use.
use vstd::prelude::*;

use crate::env::{Effect, Env, EnvView};
use crate::errors::Error;
use crate::types::{Address, Booking, Bytes32, CancelSettlement, Config};

verus! {

/// If the remaining lifetime is below this, booking entries are extended to
/// [`PERSISTENT_BOOKING_TTL_EXTEND_TO`].
pub const PERSISTENT_BOOKING_TTL_THRESHOLD: u32 = 100_000;

/// Target remaining lifetime of `Booking(id)` / `BookingRef(ref)` after an extension.
pub const PERSISTENT_BOOKING_TTL_EXTEND_TO: u32 = 500_000;

/// Threshold for `CancelSettlement(id)` (terminal history; see module docs).
pub const PERSISTENT_SETTLEMENT_TTL_THRESHOLD: u32 = 50_000;

/// Target remaining lifetime of cancel-settlement history entries.
pub const PERSISTENT_SETTLEMENT_TTL_EXTEND_TO: u32 = 200_000;

/// If the instance lifetime is below this, it is extended to
/// [`INSTANCE_TTL_EXTEND_TO`].
pub const INSTANCE_TTL_THRESHOLD: u32 = 100_000;

/// Target remaining lifetime of the shared contract instance entry
/// (`Config` / `TotalEscrowed` / `NextBookingId`).
pub const INSTANCE_TTL_EXTEND_TO: u32 = 500_000;

/// The key of an entry.
///
/// `Config`, `NextBookingId` and `TotalEscrowed` are kept in the contract
/// instance and share its lifetime; the others are persistent entries, each with
/// a lifetime of its own.
#[derive(Clone, Copy, Debug, PartialEq, Eq)]
pub enum DataKey {
    Config,
    NextBookingId,
    TotalEscrowed,
    Booking(u64),
    /// `booking_ref` → `booking_id` (the booking itself stays under `Booking(id)`).
    BookingRef(Bytes32),
    CancelSettlement(u64),
    Claimable(Address),
}

impl EnvView {
    /// After the write of the entry under `key` has been announced.
    pub open spec fn stored(self, key: DataKey) -> EnvView {
        self.with_effect(Effect::Store(key))
    }

    /// After the instance lifetime has been extended.
    pub open spec fn instance_extended(self) -> EnvView {
        self.with_effect(
            Effect::ExtendInstance {
                threshold: INSTANCE_TTL_THRESHOLD,
                extend_to: INSTANCE_TTL_EXTEND_TO,
            },
        )
    }

    /// After the lifetime of a booking has been extended.
    pub open spec fn booking_extended(self, booking_id: u64) -> EnvView {
        self.with_effect(
            Effect::ExtendEntry {
                key: DataKey::Booking(booking_id),
                threshold: PERSISTENT_BOOKING_TTL_THRESHOLD,
                extend_to: PERSISTENT_BOOKING_TTL_EXTEND_TO,
            },
        )
    }

    /// After the lifetime of a reference entry has been extended.
    pub open spec fn ref_extended(self, booking_ref: Bytes32) -> EnvView {
        self.with_effect(
            Effect::ExtendEntry {
                key: DataKey::BookingRef(booking_ref),
                threshold: PERSISTENT_BOOKING_TTL_THRESHOLD,
                extend_to: PERSISTENT_BOOKING_TTL_EXTEND_TO,
            },
        )
    }

    /// After the lifetime of a cancel settlement has been extended.
    pub open spec fn settlement_extended(self, booking_id: u64) -> EnvView {
        self.with_effect(
            Effect::ExtendEntry {
                key: DataKey::CancelSettlement(booking_id),
                threshold: PERSISTENT_SETTLEMENT_TTL_THRESHOLD,
                extend_to: PERSISTENT_SETTLEMENT_TTL_EXTEND_TO,
            },
        )
    }

    /// After a booking, and its reference entry where there is one, have been
    /// extended.
    pub open spec fn booking_kept(self, booking: Booking) -> EnvView {
        if self.refs.contains_key(booking.booking_ref) {
            self.booking_extended(booking.booking_id).ref_extended(booking.booking_ref)
        } else {
            self.booking_extended(booking.booking_id)
        }
    }

    /// After the configuration has been read.
    pub open spec fn config_read(self) -> EnvView {
        self.instance_extended()
    }

    /// After the configuration has been written.
    pub open spec fn config_written(self, config: Config) -> EnvView {
        (EnvView { config: Some(config), ..self }).stored(DataKey::Config).instance_extended()
    }

    /// The number that the next booking gets.
    pub open spec fn upcoming_id(self) -> u64 {
        match self.next_booking_id {
            Some(id) => id,
            None => 1,
        }
    }

    /// After a booking number has been given out.
    pub open spec fn id_taken(self) -> EnvView {
        (EnvView {
            next_booking_id: Some((self.upcoming_id() + 1) as u64),
            ..self
        }).stored(DataKey::NextBookingId).instance_extended()
    }

    /// The accounted total of all escrows.
    pub open spec fn escrow_account(self) -> i128 {
        match self.total_escrowed {
            Some(total) => total,
            None => 0,
        }
    }

    /// After the accounted total has been written.
    pub open spec fn escrow_account_written(self, amount: i128) -> EnvView {
        (EnvView { total_escrowed: Some(amount), ..self }).stored(
            DataKey::TotalEscrowed,
        ).instance_extended()
    }

    /// The booking under a number, if there is one.
    pub open spec fn booking(self, booking_id: u64) -> Option<Booking> {
        if self.bookings.contains_key(booking_id) {
            Some(self.bookings[booking_id])
        } else {
            None
        }
    }

    /// After the booking under a number has been read.
    pub open spec fn booking_read(self, booking_id: u64) -> EnvView {
        self.booking_kept(self.bookings[booking_id]).instance_extended()
    }

    /// After a booking has been written.
    pub open spec fn booking_written(self, booking: Booking) -> EnvView {
        (EnvView {
            bookings: self.bookings.insert(booking.booking_id, booking),
            ..self
        }).stored(DataKey::Booking(booking.booking_id)).booking_kept(booking).instance_extended()
    }

    /// The booking number under a reference, if there is one.
    pub open spec fn referenced(self, booking_ref: Bytes32) -> Option<u64> {
        if self.refs.contains_key(booking_ref) {
            Some(self.refs[booking_ref])
        } else {
            None
        }
    }

    /// After a reference has been entered.
    pub open spec fn ref_written(self, booking_ref: Bytes32, booking_id: u64) -> EnvView {
        (EnvView { refs: self.refs.insert(booking_ref, booking_id), ..self }).stored(
            DataKey::BookingRef(booking_ref),
        ).ref_extended(booking_ref).instance_extended()
    }

    /// The cancel settlement of a booking, if there is one.
    pub open spec fn settlement(self, booking_id: u64) -> Option<CancelSettlement> {
        if self.settlements.contains_key(booking_id) {
            Some(self.settlements[booking_id])
        } else {
            None
        }
    }

    /// After a cancel settlement has been written.
    pub open spec fn settlement_written(
        self,
        booking_id: u64,
        settlement: CancelSettlement,
    ) -> EnvView {
        (EnvView { settlements: self.settlements.insert(booking_id, settlement), ..self }).stored(
            DataKey::CancelSettlement(booking_id),
        ).settlement_extended(booking_id)
    }

    /// What `who` can claim.
    pub open spec fn claimable_by(self, who: Address) -> i128 {
        if self.claimable.contains_key(who.id) {
            self.claimable[who.id]
        } else {
            0
        }
    }

    /// After the claimable balance of `who` has been written.
    pub open spec fn claimable_written(self, who: Address, amount: i128) -> EnvView {
        (EnvView { claimable: self.claimable.insert(who.id, amount), ..self }).stored(
            DataKey::Claimable(who),
        ).instance_extended()
    }
}

/// Extends the shared instance lifetime (and with it that of the contract code).
/// Does **not** extend persistent entries.
pub fn bump_instance_ttl(env: &mut Env)
    ensures
        final(env)@ == old(env)@.instance_extended(),
{
    env.record(
        Effect::ExtendInstance {
            threshold: INSTANCE_TTL_THRESHOLD,
            extend_to: INSTANCE_TTL_EXTEND_TO,
        },
    );
}

/// Writes the configuration.
pub fn set_config(env: &mut Env, config: &Config)
    ensures
        final(env)@ == old(env)@.config_written(*config),
{
    env.config = Some(*config);
    env.record(Effect::Store(DataKey::Config));
    bump_instance_ttl(env);
}

/// The configuration, if it has been set.
pub fn get_config(env: &Env) -> (result: Option<Config>)
    ensures
        result == env@.config,
{
    env.config
}

/// The configuration; reading it extends the instance lifetime.
pub fn require_config(env: &mut Env) -> (result: Result<Config, Error>)
    ensures
        match old(env)@.config {
            Some(config) => {
                &&& result == Ok::<Config, Error>(config)
                &&& final(env)@ == old(env)@.config_read()
            },
            None => {
                &&& result == Err::<Config, Error>(Error::NotInitialized)
                &&& final(env)@ == old(env)@
            },
        },
{
    match get_config(env) {
        Some(config) => {
            bump_instance_ttl(env);
            Ok(config)
        },
        None => Err(Error::NotInitialized),
    }
}

/// Gives out the next booking number: 1, 2, 3, ...
pub fn next_booking_id(env: &mut Env) -> (id: u64)
    requires
        old(env)@.upcoming_id() < u64::MAX,
    ensures
        id == old(env)@.upcoming_id(),
        final(env)@ == old(env)@.id_taken(),
{
    let id: u64 = peek_next_booking_id(env);
    env.next_booking_id = Some(id + 1);
    env.record(Effect::Store(DataKey::NextBookingId));
    bump_instance_ttl(env);
    id
}

/// The next booking number that would be given out, **without** changing anything.
pub fn peek_next_booking_id(env: &Env) -> (id: u64)
    ensures
        id == env@.upcoming_id(),
{
    match env.next_booking_id {
        Some(id) => id,
        None => 1,
    }
}

/// The accounted total of all escrows.
pub fn get_total_escrowed(env: &Env) -> (total: i128)
    ensures
        total == env@.escrow_account(),
{
    match env.total_escrowed {
        Some(total) => total,
        None => 0,
    }
}

/// Writes the accounted total of all escrows.
pub fn set_total_escrowed(env: &mut Env, amount: i128)
    ensures
        final(env)@ == old(env)@.escrow_account_written(amount),
{
    env.total_escrowed = Some(amount);
    env.record(Effect::Store(DataKey::TotalEscrowed));
    bump_instance_ttl(env);
}

/// Adds to the accounted total of all escrows.
pub fn increase_total_escrowed(env: &mut Env, amount: i128) -> (result: Result<(), Error>)
    ensures
        ({
            let next = old(env)@.escrow_account() + amount;
            if amount < 0 {
                result == Err::<(), Error>(Error::InvalidAmount) && final(env)@ == old(env)@
            } else if next > i128::MAX {
                result == Err::<(), Error>(Error::MathError) && final(env)@ == old(env)@
            } else {
                result == Ok::<(), Error>(()) && final(env)@ == old(env)@.escrow_account_written(
                    next as i128,
                )
            }
        }),
{
    if amount < 0 {
        return Err(Error::InvalidAmount);
    }
    match get_total_escrowed(env).checked_add(amount) {
        Some(next) => {
            set_total_escrowed(env, next);
            Ok(())
        },
        None => Err(Error::MathError),
    }
}

/// Takes from the accounted total of all escrows.
pub fn decrease_total_escrowed(env: &mut Env, amount: i128) -> (result: Result<(), Error>)
    ensures
        ({
            let next = old(env)@.escrow_account() - amount;
            if amount < 0 {
                result == Err::<(), Error>(Error::InvalidAmount) && final(env)@ == old(env)@
            } else if next < i128::MIN {
                result == Err::<(), Error>(Error::MathError) && final(env)@ == old(env)@
            } else {
                result == Ok::<(), Error>(()) && final(env)@ == old(env)@.escrow_account_written(
                    next as i128,
                )
            }
        }),
{
    if amount < 0 {
        return Err(Error::InvalidAmount);
    }
    match get_total_escrowed(env).checked_sub(amount) {
        Some(next) => {
            set_total_escrowed(env, next);
            Ok(())
        },
        None => Err(Error::MathError),
    }
}

fn extend_booking_ttl(env: &mut Env, booking_id: u64)
    ensures
        final(env)@ == old(env)@.booking_extended(booking_id),
{
    env.record(
        Effect::ExtendEntry {
            key: DataKey::Booking(booking_id),
            threshold: PERSISTENT_BOOKING_TTL_THRESHOLD,
            extend_to: PERSISTENT_BOOKING_TTL_EXTEND_TO,
        },
    );
}

fn extend_booking_ref_ttl(env: &mut Env, booking_ref: &Bytes32)
    ensures
        final(env)@ == old(env)@.ref_extended(*booking_ref),
{
    env.record(
        Effect::ExtendEntry {
            key: DataKey::BookingRef(*booking_ref),
            threshold: PERSISTENT_BOOKING_TTL_THRESHOLD,
            extend_to: PERSISTENT_BOOKING_TTL_EXTEND_TO,
        },
    );
}

fn extend_settlement_ttl(env: &mut Env, booking_id: u64)
    ensures
        final(env)@ == old(env)@.settlement_extended(booking_id),
{
    env.record(
        Effect::ExtendEntry {
            key: DataKey::CancelSettlement(booking_id),
            threshold: PERSISTENT_SETTLEMENT_TTL_THRESHOLD,
            extend_to: PERSISTENT_SETTLEMENT_TTL_EXTEND_TO,
        },
    );
}

/// Extends a booking and, where its reference has been entered, the reference
/// entry, both under the same policy.
fn bump_booking_and_ref_ttl(env: &mut Env, booking: &Booking)
    ensures
        final(env)@ == old(env)@.booking_kept(*booking),
{
    extend_booking_ttl(env, booking.booking_id);
    if booking_ref_exists(env, &booking.booking_ref) {
        extend_booking_ref_ttl(env, &booking.booking_ref);
    }
}

/// Writes a booking under its number.
pub fn set_booking(env: &mut Env, booking: &Booking)
    ensures
        final(env)@ == old(env)@.booking_written(*booking),
{
    broadcast use vstd::std_specs::hash::group_hash_axioms;

    env.bookings.insert(booking.booking_id, *booking);
    env.record(Effect::Store(DataKey::Booking(booking.booking_id)));
    bump_booking_and_ref_ttl(env, booking);
    bump_instance_ttl(env);
}

/// The booking under a number, if there is one.
pub fn get_booking(env: &Env, booking_id: u64) -> (result: Option<Booking>)
    ensures
        result == env@.booking(booking_id),
{
    broadcast use vstd::std_specs::hash::group_hash_axioms;

    match env.bookings.get(&booking_id) {
        Some(booking) => Some(*booking),
        None => None,
    }
}

/// The booking under a number; reading it extends its lifetime.
pub fn require_booking(env: &mut Env, booking_id: u64) -> (result: Result<Booking, Error>)
    ensures
        match old(env)@.booking(booking_id) {
            Some(booking) => {
                &&& result == Ok::<Booking, Error>(booking)
                &&& final(env)@ == old(env)@.booking_read(booking_id)
            },
            None => {
                &&& result == Err::<Booking, Error>(Error::BookingNotFound)
                &&& final(env)@ == old(env)@
            },
        },
{
    match get_booking(env, booking_id) {
        Some(booking) => {
            bump_booking_and_ref_ttl(env, &booking);
            bump_instance_ttl(env);
            Ok(booking)
        },
        None => Err(Error::BookingNotFound),
    }
}

/// Whether a reference has been entered.
pub fn booking_ref_exists(env: &Env, booking_ref: &Bytes32) -> (result: bool)
    ensures
        result == env@.refs.contains_key(*booking_ref),
{
    get_booking_id_by_ref(env, booking_ref).is_some()
}

/// The booking number under a reference, if there is one.
pub fn get_booking_id_by_ref(env: &Env, booking_ref: &Bytes32) -> (result: Option<u64>)
    ensures
        result == env@.referenced(*booking_ref),
{
    let ghost entries = env.refs@;
    let mut i: usize = env.refs.len();
    assert(entries.take(i as int) =~= entries);
    while i > 0
        invariant
            i <= entries.len(),
            entries == env.refs@,
            crate::env::last_entry(entries, *booking_ref) == crate::env::last_entry(
                entries.take(i as int),
                *booking_ref,
            ),
        decreases i,
    {
        let ghost head = entries.take(i as int);
        i = i - 1;
        assert(head.drop_last() =~= entries.take(i as int));
        assert(head.last() == entries[i as int]);
        if env.refs[i].0.same(booking_ref) {
            return Some(env.refs[i].1);
        }
    }
    None
}

/// Enters `booking_ref → booking_id` and applies the booking lifetime policy.
pub fn set_booking_ref_index(env: &mut Env, booking_ref: &Bytes32, booking_id: u64)
    ensures
        final(env)@ == old(env)@.ref_written(*booking_ref, booking_id),
{
    let ghost entries = env.refs@;
    env.refs.push((*booking_ref, booking_id));
    proof {
        assert(env.refs@.drop_last() =~= entries);
        assert(crate::env::entries_map(env.refs@) =~= crate::env::entries_map(entries).insert(
            *booking_ref,
            booking_id,
        ));
    }
    env.record(Effect::Store(DataKey::BookingRef(*booking_ref)));
    extend_booking_ref_ttl(env, booking_ref);
    bump_instance_ttl(env);
}

/// The booking number under a reference; the booking itself must exist and is
/// read on the way.
pub fn require_booking_id_by_ref(env: &mut Env, booking_ref: &Bytes32) -> (result: Result<
    u64,
    Error,
>)
    ensures
        match old(env)@.referenced(*booking_ref) {
            Some(id) if old(env)@.booking(id) is Some => {
                &&& result == Ok::<u64, Error>(id)
                &&& final(env)@ == old(env)@.booking_read(id)
            },
            _ => {
                &&& result == Err::<u64, Error>(Error::BookingNotFound)
                &&& final(env)@ == old(env)@
            },
        },
{
    match get_booking_id_by_ref(env, booking_ref) {
        Some(booking_id) => match require_booking(env, booking_id) {
            Ok(_) => Ok(booking_id),
            Err(e) => Err(e),
        },
        None => Err(Error::BookingNotFound),
    }
}

/// Writes the cancel settlement of a booking.
pub fn set_cancel_settlement(env: &mut Env, booking_id: u64, settlement: &CancelSettlement)
    ensures
        final(env)@ == old(env)@.settlement_written(booking_id, *settlement),
{
    broadcast use vstd::std_specs::hash::group_hash_axioms;

    env.settlements.insert(booking_id, *settlement);
    env.record(Effect::Store(DataKey::CancelSettlement(booking_id)));
    extend_settlement_ttl(env, booking_id);
}

/// The cancel settlement of a booking, if there is one; reading it extends its
/// lifetime.
pub fn get_cancel_settlement(env: &mut Env, booking_id: u64) -> (result: Option<CancelSettlement>)
    ensures
        result == old(env)@.settlement(booking_id),
        final(env)@ == (if result is Some {
            old(env)@.settlement_extended(booking_id)
        } else {
            old(env)@
        }),
{
    broadcast use vstd::std_specs::hash::group_hash_axioms;

    let found = match env.settlements.get(&booking_id) {
        Some(settlement) => Some(*settlement),
        None => None,
    };
    if found.is_some() {
        extend_settlement_ttl(env, booking_id);
    }
    found
}

/// What `who` can claim.
pub fn get_claimable(env: &Env, who: &Address) -> (amount: i128)
    ensures
        amount == env@.claimable_by(*who),
{
    broadcast use vstd::std_specs::hash::group_hash_axioms;

    match env.claimable.get(&who.id) {
        Some(amount) => *amount,
        None => 0,
    }
}

/// Writes what `who` can claim.
pub fn set_claimable(env: &mut Env, who: &Address, amount: i128)
    ensures
        final(env)@ == old(env)@.claimable_written(*who, amount),
{
    broadcast use vstd::std_specs::hash::group_hash_axioms;

    env.claimable.insert(who.id, amount);
    env.record(Effect::Store(DataKey::Claimable(*who)));
    bump_instance_ttl(env);
}

/// What is written is what is read back, and nothing else of its kind changes.
pub proof fn writes_are_read_back(env: EnvView)
    ensures
        forall|config: Config| #[trigger] env.config_written(config).config == Some(config),
        forall|amount: i128| #[trigger]
            env.escrow_account_written(amount).escrow_account() == amount,
        forall|b: Booking, id: u64| #[trigger]
            env.booking_written(b).booking(id) == if id == b.booking_id {
                Some(b)
            } else {
                env.booking(id)
            },
        forall|booking_ref: Bytes32, id: u64, other: Bytes32| #[trigger]
            env.ref_written(booking_ref, id).referenced(other) == if other == booking_ref {
                Some(id)
            } else {
                env.referenced(other)
            },
        forall|s: CancelSettlement, id: u64, other: u64| #[trigger]
            env.settlement_written(id, s).settlement(other) == if other == id {
                Some(s)
            } else {
                env.settlement(other)
            },
        forall|who: Address, amount: i128, other: Address| #[trigger]
            env.claimable_written(who, amount).claimable_by(other) == if other == who {
                amount
            } else {
                env.claimable_by(other)
            },
{
}

/// Adding to the accounted total and taking the same amount away again gives the
/// total that was there before.
pub proof fn escrow_account_adds_up(env: EnvView, amount: i128)
    requires
        amount >= 0,
        env.escrow_account() + amount <= i128::MAX,
    ensures
        ({
            let increased = env.escrow_account_written((env.escrow_account() + amount) as i128);
            increased.escrow_account() - amount == env.escrow_account()
        }),
{
}

/// The numbers of the lifetime policy, in ledgers.
pub proof fn lifetimes_in_numbers()
    ensures
        PERSISTENT_BOOKING_TTL_THRESHOLD == 100_000,
        PERSISTENT_BOOKING_TTL_EXTEND_TO == 500_000,
        PERSISTENT_SETTLEMENT_TTL_THRESHOLD == 50_000,
        PERSISTENT_SETTLEMENT_TTL_EXTEND_TO == 200_000,
        INSTANCE_TTL_THRESHOLD == 100_000,
        INSTANCE_TTL_EXTEND_TO == 500_000,
{
}

/// What is read is what stands in the entries: a booking, a reference, a settlement, a
/// claimable balance, the next number and the accounted total, with nothing, 1 and 0 for
/// what is not there.
pub proof fn reads_give_the_entries(env: EnvView, id: u64, booking_ref: Bytes32, who: Address)
    ensures
        env.bookings.contains_key(id) ==> env.booking(id) == Some(env.bookings[id]),
        !env.bookings.contains_key(id) ==> env.booking(id) is None,
        env.refs.contains_key(booking_ref) ==> env.referenced(booking_ref) == Some(
            env.refs[booking_ref],
        ),
        !env.refs.contains_key(booking_ref) ==> env.referenced(booking_ref) is None,
        env.settlements.contains_key(id) ==> env.settlement(id) == Some(env.settlements[id]),
        !env.settlements.contains_key(id) ==> env.settlement(id) is None,
        env.claimable.contains_key(who.id) ==> env.claimable_by(who) == env.claimable[who.id],
        !env.claimable.contains_key(who.id) ==> env.claimable_by(who) == 0,
        env.next_booking_id matches Some(next) ==> env.upcoming_id() == next,
        env.next_booking_id is None ==> env.upcoming_id() == 1,
        env.total_escrowed matches Some(total) ==> env.escrow_account() == total,
        env.total_escrowed is None ==> env.escrow_account() == 0,
{
}

/// Reading the configuration, a booking or a settlement changes no entry: it extends
/// lifetimes, that of the instance, or of the booking with its reference entry and the
/// instance, or of the settlement.
pub proof fn reads_only_extend_lifetimes(env: EnvView, id: u64)
    ensures
        ({
            let instance = Effect::ExtendInstance { threshold: 100_000, extend_to: 500_000 };
            let b = env.bookings[id];
            let kept = seq![
                Effect::ExtendEntry {
                    key: DataKey::Booking(b.booking_id),
                    threshold: 100_000,
                    extend_to: 500_000,
                },
            ] + if env.refs.contains_key(b.booking_ref) {
                seq![
                    Effect::ExtendEntry {
                        key: DataKey::BookingRef(b.booking_ref),
                        threshold: 100_000,
                        extend_to: 500_000,
                    },
                ]
            } else {
                Seq::empty()
            } + seq![instance];
            &&& env.config_read() == (EnvView { effects: env.effects + seq![instance], ..env })
            &&& env.instance_extended() == env.config_read()
            &&& env.booking_read(id) == (EnvView { effects: env.effects + kept, ..env })
            &&& env.settlement_extended(id) == (EnvView {
                effects: env.effects + seq![
                    Effect::ExtendEntry {
                        key: DataKey::CancelSettlement(id),
                        threshold: 50_000,
                        extend_to: 200_000,
                    },
                ],
                ..env
            })
        }),
{
}

/// Writing one entry changes that entry alone, and extends its lifetime and that of the
/// instance (a settlement: its own alone).
pub proof fn writes_change_one_entry(
    env: EnvView,
    config: Config,
    amount: i128,
    b: Booking,
    booking_ref: Bytes32,
    id: u64,
    s: CancelSettlement,
    who: Address,
)
    ensures
        ({
            let instance = Effect::ExtendInstance { threshold: 100_000, extend_to: 500_000 };
            let ref_kept = Effect::ExtendEntry {
                key: DataKey::BookingRef(booking_ref),
                threshold: 100_000,
                extend_to: 500_000,
            };
            let kept = seq![
                Effect::ExtendEntry {
                    key: DataKey::Booking(b.booking_id),
                    threshold: 100_000,
                    extend_to: 500_000,
                },
            ] + if env.refs.contains_key(b.booking_ref) {
                seq![
                    Effect::ExtendEntry {
                        key: DataKey::BookingRef(b.booking_ref),
                        threshold: 100_000,
                        extend_to: 500_000,
                    },
                ]
            } else {
                Seq::empty()
            } + seq![instance];
            &&& env.config_written(config) == (EnvView {
                config: Some(config),
                effects: env.effects + seq![Effect::Store(DataKey::Config), instance],
                ..env
            })
            &&& env.escrow_account_written(amount) == (EnvView {
                total_escrowed: Some(amount),
                effects: env.effects + seq![Effect::Store(DataKey::TotalEscrowed), instance],
                ..env
            })
            &&& env.booking_written(b) == (EnvView {
                bookings: env.bookings.insert(b.booking_id, b),
                effects: env.effects + seq![Effect::Store(DataKey::Booking(b.booking_id))] + kept,
                ..env
            })
            &&& env.ref_written(booking_ref, id) == (EnvView {
                refs: env.refs.insert(booking_ref, id),
                effects: env.effects + seq![
                    Effect::Store(DataKey::BookingRef(booking_ref)),
                    ref_kept,
                    instance,
                ],
                ..env
            })
            &&& env.settlement_written(id, s) == (EnvView {
                settlements: env.settlements.insert(id, s),
                effects: env.effects + seq![
                    Effect::Store(DataKey::CancelSettlement(id)),
                    Effect::ExtendEntry {
                        key: DataKey::CancelSettlement(id),
                        threshold: 50_000,
                        extend_to: 200_000,
                    },
                ],
                ..env
            })
            &&& env.claimable_written(who, amount) == (EnvView {
                claimable: env.claimable.insert(who.id, amount),
                effects: env.effects + seq![Effect::Store(DataKey::Claimable(who)), instance],
                ..env
            })
        }),
{
}

/// Giving out a booking number counts up by one and changes nothing else.
pub proof fn numbers_count_up_by_one(env: EnvView)
    requires
        env.next_booking_id matches Some(next) ==> next < u64::MAX,
    ensures
        env.id_taken() == (EnvView {
            next_booking_id: Some(
                match env.next_booking_id {
                    Some(next) => (next + 1) as u64,
                    None => 2,
                },
            ),
            effects: env.effects + seq![
                Effect::Store(DataKey::NextBookingId),
                Effect::ExtendInstance { threshold: 100_000, extend_to: 500_000 },
            ],
            ..env
        }),
{
}

} // verus!
