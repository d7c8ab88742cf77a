//! What a call leaves behind, in full: the entries, the transfers and the events, in
//! terms of its arguments and the entries as they stood.
use vstd::prelude::*;

use crate::contract;
use crate::env::{Effect, EnvView, Transfer};
use crate::events::{
    BookingCancelled, BookingCheckedIn, BookingCompleted, BookingCreated, BookingUpdated,
    DisputeOpened, DisputeResolved, EscrowLocked, Event, HostCancellationFeePaid, PayoutClaimed,
    SettlementExecuted,
};
use crate::refund;
use crate::split;
use crate::types::{
    Address, Booking, BookingState, Bytes32, CancelSettlement, CancelledBy, SettlementType,
};

verus! {

/// Paying out is recorded where there is anything to pay.
proof fn step_paid_out(env: EnvView, token: Address, to: Address, amount: i128)
    ensures
        env.paid_out(token, to, amount) == (EnvView {
            effects: env.effects + if amount > 0 {
                seq![Effect::Pay(Transfer { token, from: env.contract, to, amount })]
            } else {
                Seq::empty()
            },
            ..env
        }),
{
    assert(env.effects + Seq::<Effect>::empty() =~= env.effects);
}

/// Publishing is recorded.
proof fn step_published(env: EnvView, event: Event)
    ensures
        env.published(event) == (EnvView {
            effects: env.effects + seq![Effect::Publish(event)],
            ..env
        }),
{
}

/// Paying is recorded.
proof fn step_paid(env: EnvView, token: Address, from: Address, to: Address, amount: i128)
    ensures
        env.paid(token, from, to, amount) == (EnvView {
            effects: env.effects + seq![Effect::Pay(Transfer { token, from, to, amount })],
            ..env
        }),
{
}

/// Reading a booking and writing one touches no other entry.
proof fn step_written(env: EnvView, id: u64, next: Booking)
    ensures
        ({
            let written = env.config_read().booking_read(id).booking_written(next);
            written == (EnvView {
                bookings: env.bookings.insert(next.booking_id, next),
                effects: written.effects,
                ..env
            })
        }),
{
}

/// `book` stores one new booking under the next number, with the parties, the amount and
/// the start that it is given, the configured token, the time, and nothing locked, paid or
/// settled; it counts the number up, and publishes the booking. No tokens move.
pub proof fn book_creates_the_booking(
    env: EnvView,
    traveller: Address,
    host: Address,
    amount: i128,
    start_time: u64,
    zero: Bytes32,
)
    requires
        contract::book_refusal(env, traveller, host, amount, start_time) is None,
        env.next_booking_id matches Some(next) ==> next < u64::MAX,
        forall|i: int| 0 <= i < 32 ==> #[trigger] zero.bytes[i] == 0,
    ensures
        ({
            let token = env.config.unwrap().token;
            let id = match env.next_booking_id {
                Some(next) => next,
                None => 1,
            };
            let next = Booking {
                booking_id: id,
                booking_ref: zero,
                service_ref: zero,
                traveller,
                host,
                amount,
                token,
                start_time,
                created_at: env.timestamp,
                state: BookingState::Created,
                escrow_locked: false,
                escrow_amount: 0,
                checked_in: false,
                settled: false,
                was_cancelled: false,
                cancelled_by: CancelledBy::Nobody,
            };
            let event = BookingCreated {
                booking_id: id,
                booking_ref: zero,
                service_ref: zero,
                traveller,
                host,
                amount,
                token,
                start_time,
            };
            let written = env.config_read().id_taken().booking_written(next);
            &&& env.upcoming_id() == id
            &&& contract::book_after(env, traveller, host, amount, start_time) == (EnvView {
                next_booking_id: Some((id + 1) as u64),
                bookings: env.bookings.insert(id, next),
                effects: written.effects + seq![Effect::Publish(Event::BookingCreated(event))],
                ..env
            })
        }),
{
    crate::types::zero_ref_is_the_only_one(zero);
}

/// `update_booking` makes host, amount and start time of the booking the three that it is
/// given, whatever they were before, keeps the rest of it, and publishes them. No tokens move.
pub proof fn update_writes_the_new_terms(
    env: EnvView,
    id: u64,
    host: Address,
    amount: i128,
    start_time: u64,
)
    requires
        env.bookings[id].booking_id == id,
        contract::update_booking_refusal(env, id, host, amount, start_time) is None,
    ensures
        ({
            let b = env.bookings[id];
            let config = env.config.unwrap();
            let next = Booking { host, amount, start_time, ..b };
            let event = BookingUpdated { booking_id: id, amount, start_time, host };
            let written = env.config_read().booking_read(id).booking_written(next);
            contract::update_booking_after(env, id, host, amount, start_time) == (EnvView {
                bookings: env.bookings.insert(id, next),
                effects: written.effects + seq![Effect::Publish(Event::BookingUpdated(event))],
                ..env
            })
        }),
{
    step_written(env, id, Booking { host, amount, start_time, ..env.bookings[id] });
}

/// `lock_escrow` has the traveller pay the amount into the contract, and then makes the
/// booking hold it in escrow and publishes it.
pub proof fn lock_moves_the_amount_into_escrow(env: EnvView, id: u64, amount: i128)
    requires
        env.bookings[id].booking_id == id,
        contract::lock_escrow_refusal(env, id, amount) is None,
    ensures
        ({
            let b = env.bookings[id];
            let config = env.config.unwrap();
            let next = Booking {
                state: BookingState::Escrowed,
                escrow_locked: true,
                escrow_amount: amount,
                ..b
            };
            let event = EscrowLocked { booking_id: id, amount, token: config.token };
            let written = env.config_read().booking_read(id).paid(
                config.token,
                b.traveller,
                env.contract,
                amount,
            ).booking_written(next);
            contract::lock_escrow_after(env, id, amount) == (EnvView {
                bookings: env.bookings.insert(id, next),
                effects: written.effects + seq![Effect::Publish(Event::EscrowLocked(event))],
                ..env
            })
        }),
{
}

/// `check_in` makes the booking `CheckedIn` and marks it so, keeps the rest of it, and
/// publishes the time. No tokens move.
pub proof fn check_in_marks_the_booking(env: EnvView, id: u64)
    requires
        env.bookings[id].booking_id == id,
        contract::check_in_refusal(env, id) is None,
    ensures
        ({
            let b = env.bookings[id];
            let config = env.config.unwrap();
            let next = Booking { state: BookingState::CheckedIn, checked_in: true, ..b };
            let event = BookingCheckedIn { booking_id: id, timestamp: env.timestamp };
            let written = env.config_read().booking_read(id).booking_written(next);
            contract::check_in_after(env, id) == (EnvView {
                bookings: env.bookings.insert(id, next),
                effects: written.effects + seq![Effect::Publish(Event::BookingCheckedIn(event))],
                ..env
            })
        }),
{
    let b = env.bookings[id];
    step_written(env, id, Booking { state: BookingState::CheckedIn, checked_in: true, ..b });
}

/// `complete` makes the booking `Completed`, keeps the rest of it, and publishes it. No
/// tokens move.
pub proof fn complete_marks_the_booking(env: EnvView, id: u64)
    requires
        env.bookings[id].booking_id == id,
        contract::complete_refusal(env, id) is None,
    ensures
        ({
            let b = env.bookings[id];
            let config = env.config.unwrap();
            let next = Booking { state: BookingState::Completed, ..b };
            let event = BookingCompleted { booking_id: id };
            let written = env.config_read().booking_read(id).booking_written(next);
            contract::complete_after(env, id) == (EnvView {
                bookings: env.bookings.insert(id, next),
                effects: written.effects + seq![Effect::Publish(Event::BookingCompleted(event))],
                ..env
            })
        }),
{
    step_written(env, id, Booking { state: BookingState::Completed, ..env.bookings[id] });
}

/// `open_dispute` makes the booking `Disputed`, keeps the rest of it with its escrow, and
/// publishes it. No tokens move.
pub proof fn dispute_freezes_the_money(env: EnvView, id: u64)
    requires
        env.bookings[id].booking_id == id,
        contract::open_dispute_refusal(env, id) is None,
    ensures
        ({
            let b = env.bookings[id];
            let config = env.config.unwrap();
            let next = Booking { state: BookingState::Disputed, ..b };
            let event = DisputeOpened { booking_id: id };
            let written = env.config_read().booking_read(id).booking_written(next);
            contract::open_dispute_after(env, id) == (EnvView {
                bookings: env.bookings.insert(id, next),
                effects: written.effects + seq![Effect::Publish(Event::DisputeOpened(event))],
                ..env
            })
        }),
{
    step_written(env, id, Booking { state: BookingState::Disputed, ..env.bookings[id] });
}

/// `execute_split` settles the booking, and then pays 10%, 5%, 3% and 2% of the escrow, each
/// rounded down, to operations, review, QA and O2O, and the rest of it to the host, in the
/// order host, operations, review, QA, O2O; it returns and publishes what it paid.
pub proof fn split_pays_80_10_5_3_2(env: EnvView, id: u64)
    requires
        env.bookings[id].booking_id == id,
        contract::execute_split_refusal(env, id) is None,
    ensures
        ({
            let b = env.bookings[id];
            let config = env.config.unwrap();
            let escrow = b.escrow_amount as int;
            let ops = escrow * 1000 / 10_000;
            let review = escrow * 500 / 10_000;
            let qa = escrow * 300 / 10_000;
            let o2o = escrow * 200 / 10_000;
            let host = escrow - ops - review - qa - o2o;
            let s = split::completion_split(escrow);
            let next = Booking {
                state: BookingState::Completed,
                settled: true,
                escrow_amount: 0,
                ..b
            };
            let event = SettlementExecuted {
                booking_id: id,
                settlement_type: SettlementType::Completed,
                traveller_amount: 0,
                host_amount: host as i128,
                ops_amount: ops as i128,
                review_amount: review as i128,
                qa_amount: qa as i128,
                o2o_amount: o2o as i128,
                timestamp: env.timestamp,
            };
            let written = env.config_read().booking_read(id).booking_written(next);
            &&& s.host_amount == host
            &&& s.ops_amount == ops
            &&& s.review_amount == review
            &&& s.qa_amount == qa
            &&& s.o2o_amount == o2o
            &&& contract::execute_split_after(env, id) == (EnvView {
                bookings: env.bookings.insert(id, next),
                effects: written.effects + (if host > 0 {
                    seq![
                        Effect::Pay(
                            Transfer {
                                token: config.token,
                                from: env.contract,
                                to: b.host,
                                amount: host as i128,
                            },
                        ),
                    ]
                } else {
                    Seq::empty()
                }) + (if ops > 0 {
                    seq![
                        Effect::Pay(
                            Transfer {
                                token: config.token,
                                from: env.contract,
                                to: config.ops_pool,
                                amount: ops as i128,
                            },
                        ),
                    ]
                } else {
                    Seq::empty()
                }) + (if review > 0 {
                    seq![
                        Effect::Pay(
                            Transfer {
                                token: config.token,
                                from: env.contract,
                                to: config.review_pool,
                                amount: review as i128,
                            },
                        ),
                    ]
                } else {
                    Seq::empty()
                }) + (if qa > 0 {
                    seq![
                        Effect::Pay(
                            Transfer {
                                token: config.token,
                                from: env.contract,
                                to: config.qa_pool,
                                amount: qa as i128,
                            },
                        ),
                    ]
                } else {
                    Seq::empty()
                }) + (if o2o > 0 {
                    seq![
                        Effect::Pay(
                            Transfer {
                                token: config.token,
                                from: env.contract,
                                to: config.o2o_pool,
                                amount: o2o as i128,
                            },
                        ),
                    ]
                } else {
                    Seq::empty()
                }) + seq![Effect::Publish(Event::SettlementExecuted(event))],
                ..env
            })
        }),
{
    let b = env.bookings[id];
    let config = env.config.unwrap();
    let s = split::completion_split(b.escrow_amount as int);
    let settled = contract::settled_booking(b, BookingState::Completed);
    split::completion_split_is_80_10_5_3_2(b.escrow_amount);
    split::completion_split_is_exact(b.escrow_amount as int);
    step_written(env, id, settled);
    let e1 = contract::booking_loaded(env, id).booking_written(settled);
    step_paid_out(e1, config.token, b.host, s.host_amount);
    let e2 = e1.paid_out(config.token, b.host, s.host_amount);
    step_paid_out(e2, config.token, config.ops_pool, s.ops_amount);
    let e3 = e2.paid_out(config.token, config.ops_pool, s.ops_amount);
    step_paid_out(e3, config.token, config.review_pool, s.review_amount);
    let e4 = e3.paid_out(config.token, config.review_pool, s.review_amount);
    step_paid_out(e4, config.token, config.qa_pool, s.qa_amount);
    let e5 = e4.paid_out(config.token, config.qa_pool, s.qa_amount);
    step_paid_out(e5, config.token, config.o2o_pool, s.o2o_amount);
    let e6 = e5.paid_out(config.token, config.o2o_pool, s.o2o_amount);
    step_published(e6, contract::split_event(env, id, s));
}

/// `cancel_by_traveller` cancels and settles the booking and puts the shares on record, and
/// then pays them: with at least four weeks left 70% to the traveller and 15% to the host, with
/// at least two weeks left 50% and 35%, with less left nothing and 80%, each rounded down, and
/// the rest to operations; it returns and publishes what it paid.
pub proof fn traveller_cancellation_pays_by_tier(env: EnvView, id: u64)
    requires
        env.bookings[id].booking_id == id,
        contract::cancel_by_traveller_refusal(env, id) is None,
    ensures
        ({
            let b = env.bookings[id];
            let config = env.config.unwrap();
            let escrow = b.escrow_amount as int;
            let left = b.start_time - env.timestamp;
            let traveller = if left >= 2_419_200 {
                escrow * 70 / 100
            } else if left >= 1_209_600 {
                escrow * 50 / 100
            } else {
                0
            };
            let host = if left >= 2_419_200 {
                escrow * 15 / 100
            } else if left >= 1_209_600 {
                escrow * 35 / 100
            } else {
                escrow * 80 / 100
            };
            let ops = escrow - traveller - host;
            let s = contract::traveller_settlement(env, id);
            let next = Booking {
                state: BookingState::Cancelled,
                settled: true,
                escrow_amount: 0,
                was_cancelled: true,
                cancelled_by: CancelledBy::Traveller,
                ..b
            };
            let record = CancelSettlement {
                traveller_amount: traveller as i128,
                host_amount: host as i128,
                ops_amount: ops as i128,
            };
            let cancelled = BookingCancelled {
                booking_id: id,
                by_host: false,
                traveller_amount: traveller as i128,
                host_amount: host as i128,
                ops_amount: ops as i128,
            };
            let settled = SettlementExecuted {
                booking_id: id,
                settlement_type: SettlementType::TravellerCancel,
                traveller_amount: traveller as i128,
                host_amount: host as i128,
                ops_amount: ops as i128,
                review_amount: 0,
                qa_amount: 0,
                o2o_amount: 0,
                timestamp: env.timestamp,
            };
            let loaded = env.config_read().booking_read(id);
            let written = loaded.booking_written(next).settlement_written(id, record);
            &&& s.traveller_amount == traveller
            &&& s.host_amount == host
            &&& s.ops_amount == ops
            &&& contract::cancel_by_traveller_after(env, id) == (EnvView {
                bookings: env.bookings.insert(id, next),
                settlements: env.settlements.insert(id, record),
                effects: written.effects + (if traveller > 0 {
                    seq![
                        Effect::Pay(
                            Transfer {
                                token: config.token,
                                from: env.contract,
                                to: b.traveller,
                                amount: traveller as i128,
                            },
                        ),
                    ]
                } else {
                    Seq::empty()
                }) + (if host > 0 {
                    seq![
                        Effect::Pay(
                            Transfer {
                                token: config.token,
                                from: env.contract,
                                to: b.host,
                                amount: host as i128,
                            },
                        ),
                    ]
                } else {
                    Seq::empty()
                }) + (if ops > 0 {
                    seq![
                        Effect::Pay(
                            Transfer {
                                token: config.token,
                                from: env.contract,
                                to: config.ops_pool,
                                amount: ops as i128,
                            },
                        ),
                    ]
                } else {
                    Seq::empty()
                }) + seq![
                    Effect::Publish(Event::BookingCancelled(cancelled)),
                ] + seq![Effect::Publish(Event::SettlementExecuted(settled))],
                ..env
            })
        }),
{
    let b = env.bookings[id];
    let config = env.config.unwrap();
    let s = contract::traveller_settlement(env, id);
    let cancelled = contract::cancelled_booking(b, CancelledBy::Traveller);
    refund::refund_follows_the_tiers(b.escrow_amount, b.start_time, env.timestamp);
    refund::refund_is_exact(b.escrow_amount, b.start_time, env.timestamp, CancelledBy::Traveller);
    step_written(env, id, cancelled);
    let e1 = contract::booking_loaded(env, id).booking_written(cancelled).settlement_written(
        id,
        s,
    );
    step_paid_out(e1, config.token, b.traveller, s.traveller_amount);
    let e2 = e1.paid_out(config.token, b.traveller, s.traveller_amount);
    step_paid_out(e2, config.token, b.host, s.host_amount);
    let e3 = e2.paid_out(config.token, b.host, s.host_amount);
    step_paid_out(e3, config.token, config.ops_pool, s.ops_amount);
    let e4 = e3.paid_out(config.token, config.ops_pool, s.ops_amount);
    step_published(e4, contract::cancelled_event(id, false, s));
    step_published(
        e4.published(contract::cancelled_event(id, false, s)),
        contract::cancel_settlement_event(env, id, false, s),
    );
}

/// `cancel_by_host` cancels and settles the booking and puts the refund on record; then the
/// host pays the fee to operations, and the contract pays the whole escrow to the traveller; it
/// returns and publishes the refund.
pub proof fn host_cancellation_pays_all_back(env: EnvView, id: u64)
    requires
        env.bookings[id].booking_id == id,
        contract::cancel_by_host_refusal(env, id) is None,
    ensures
        ({
            let b = env.bookings[id];
            let config = env.config.unwrap();
            let s = contract::host_settlement(b);
            let next = Booking {
                state: BookingState::Cancelled,
                settled: true,
                escrow_amount: 0,
                was_cancelled: true,
                cancelled_by: CancelledBy::Host,
                ..b
            };
            let record = CancelSettlement {
                traveller_amount: b.escrow_amount,
                host_amount: 0,
                ops_amount: 0,
            };
            let fee = HostCancellationFeePaid {
                booking_id: id,
                host: b.host,
                ops: config.ops_pool,
                amount: config.host_cancel_fee,
            };
            let cancelled = BookingCancelled {
                booking_id: id,
                by_host: true,
                traveller_amount: b.escrow_amount,
                host_amount: 0,
                ops_amount: 0,
            };
            let settled = SettlementExecuted {
                booking_id: id,
                settlement_type: SettlementType::HostCancel,
                traveller_amount: b.escrow_amount,
                host_amount: 0,
                ops_amount: 0,
                review_amount: 0,
                qa_amount: 0,
                o2o_amount: 0,
                timestamp: env.timestamp,
            };
            let loaded = env.config_read().booking_read(id);
            let written = loaded.booking_written(next).settlement_written(id, record);
            &&& s.traveller_amount == b.escrow_amount
            &&& s.host_amount == 0
            &&& s.ops_amount == 0
            &&& contract::cancel_by_host_after(env, id) == (EnvView {
                bookings: env.bookings.insert(id, next),
                settlements: env.settlements.insert(id, record),
                effects: written.effects + seq![
                    Effect::Pay(
                        Transfer {
                            token: config.token,
                            from: b.host,
                            to: config.ops_pool,
                            amount: config.host_cancel_fee,
                        },
                    ),
                ] + seq![Effect::Publish(Event::HostCancellationFeePaid(fee))] + seq![
                    Effect::Pay(
                        Transfer {
                            token: config.token,
                            from: env.contract,
                            to: b.traveller,
                            amount: b.escrow_amount,
                        },
                    ),
                ] + seq![
                    Effect::Publish(Event::BookingCancelled(cancelled)),
                ] + seq![Effect::Publish(Event::SettlementExecuted(settled))],
                ..env
            })
        }),
{
    let b = env.bookings[id];
    let config = env.config.unwrap();
    let s = contract::host_settlement(b);
    let cancelled = contract::cancelled_booking(b, CancelledBy::Host);
    step_written(env, id, cancelled);
    let e1 = contract::booking_loaded(env, id).booking_written(cancelled).settlement_written(
        id,
        s,
    );
    step_paid(e1, config.token, b.host, config.ops_pool, config.host_cancel_fee);
    let e2 = e1.paid(config.token, b.host, config.ops_pool, config.host_cancel_fee);
    step_published(e2, contract::fee_event(env, id));
    let e3 = e2.published(contract::fee_event(env, id));
    step_paid_out(e3, config.token, b.traveller, s.traveller_amount);
    let e4 = e3.paid_out(config.token, b.traveller, s.traveller_amount);
    step_published(e4, contract::cancelled_event(id, true, s));
    step_published(
        e4.published(contract::cancelled_event(id, true, s)),
        contract::cancel_settlement_event(env, id, true, s),
    );
}

/// `resolve_dispute` makes the booking completed and settled, and then pays each of host,
/// operations, review, QA and O2O the share of the escrow of their own basis points, rounded
/// down, and the traveller the rest, in the order traveller, host, operations, review, QA, O2O;
/// it returns and publishes what it paid.
pub proof fn resolution_pays_each_by_the_own_basis_points(
    env: EnvView,
    id: u64,
    traveller_bps: u32,
    host_bps: u32,
    ops_bps: u32,
    review_bps: u32,
    qa_bps: u32,
    o2o_bps: u32,
)
    requires
        env.bookings[id].booking_id == id,
        contract::resolve_dispute_refusal(
            env,
            id,
            seq![traveller_bps, host_bps, ops_bps, review_bps, qa_bps, o2o_bps],
        ) is None,
    ensures
        ({
            let b = env.bookings[id];
            let config = env.config.unwrap();
            let escrow = b.escrow_amount as int;
            let host = escrow * host_bps / 10_000;
            let ops = escrow * ops_bps / 10_000;
            let review = escrow * review_bps / 10_000;
            let qa = escrow * qa_bps / 10_000;
            let o2o = escrow * o2o_bps / 10_000;
            let traveller = escrow - host - ops - review - qa - o2o;
            let bps = seq![traveller_bps, host_bps, ops_bps, review_bps, qa_bps, o2o_bps];
            let s = contract::dispute_settlement(escrow, bps);
            let next = Booking {
                state: BookingState::Completed,
                settled: true,
                escrow_amount: 0,
                ..b
            };
            let resolved = DisputeResolved {
                booking_id: id,
                traveller_bps,
                host_bps,
                ops_bps,
                review_bps,
                qa_bps,
                o2o_bps,
            };
            let settled = SettlementExecuted {
                booking_id: id,
                settlement_type: SettlementType::Dispute,
                traveller_amount: traveller as i128,
                host_amount: host as i128,
                ops_amount: ops as i128,
                review_amount: review as i128,
                qa_amount: qa as i128,
                o2o_amount: o2o as i128,
                timestamp: env.timestamp,
            };
            let written = env.config_read().booking_read(id).booking_written(next);
            &&& s.traveller_amount == traveller
            &&& s.host_amount == host
            &&& s.ops_amount == ops
            &&& s.review_amount == review
            &&& s.qa_amount == qa
            &&& s.o2o_amount == o2o
            &&& contract::resolve_dispute_after(env, id, bps) == (EnvView {
                bookings: env.bookings.insert(id, next),
                effects: written.effects + (if traveller > 0 {
                    seq![
                        Effect::Pay(
                            Transfer {
                                token: config.token,
                                from: env.contract,
                                to: b.traveller,
                                amount: traveller as i128,
                            },
                        ),
                    ]
                } else {
                    Seq::empty()
                }) + (if host > 0 {
                    seq![
                        Effect::Pay(
                            Transfer {
                                token: config.token,
                                from: env.contract,
                                to: b.host,
                                amount: host as i128,
                            },
                        ),
                    ]
                } else {
                    Seq::empty()
                }) + (if ops > 0 {
                    seq![
                        Effect::Pay(
                            Transfer {
                                token: config.token,
                                from: env.contract,
                                to: config.ops_pool,
                                amount: ops as i128,
                            },
                        ),
                    ]
                } else {
                    Seq::empty()
                }) + (if review > 0 {
                    seq![
                        Effect::Pay(
                            Transfer {
                                token: config.token,
                                from: env.contract,
                                to: config.review_pool,
                                amount: review as i128,
                            },
                        ),
                    ]
                } else {
                    Seq::empty()
                }) + (if qa > 0 {
                    seq![
                        Effect::Pay(
                            Transfer {
                                token: config.token,
                                from: env.contract,
                                to: config.qa_pool,
                                amount: qa as i128,
                            },
                        ),
                    ]
                } else {
                    Seq::empty()
                }) + (if o2o > 0 {
                    seq![
                        Effect::Pay(
                            Transfer {
                                token: config.token,
                                from: env.contract,
                                to: config.o2o_pool,
                                amount: o2o as i128,
                            },
                        ),
                    ]
                } else {
                    Seq::empty()
                }) + seq![
                    Effect::Publish(Event::DisputeResolved(resolved)),
                ] + seq![Effect::Publish(Event::SettlementExecuted(settled))],
                ..env
            })
        }),
{
    let b = env.bookings[id];
    let config = env.config.unwrap();
    let bps = seq![traveller_bps, host_bps, ops_bps, review_bps, qa_bps, o2o_bps];
    let s = contract::dispute_settlement(b.escrow_amount as int, bps);
    let settled = contract::settled_booking(b, BookingState::Completed);
    split::six_bps_total(traveller_bps, host_bps, ops_bps, review_bps, qa_bps, o2o_bps);
    contract::dispute_shares_are_the_own(
        b.escrow_amount,
        traveller_bps,
        host_bps,
        ops_bps,
        review_bps,
        qa_bps,
        o2o_bps,
    );
    step_written(env, id, settled);
    let e1 = contract::booking_loaded(env, id).booking_written(settled);
    step_paid_out(e1, config.token, b.traveller, s.traveller_amount);
    let e2 = e1.paid_out(config.token, b.traveller, s.traveller_amount);
    step_paid_out(e2, config.token, b.host, s.host_amount);
    let e3 = e2.paid_out(config.token, b.host, s.host_amount);
    step_paid_out(e3, config.token, config.ops_pool, s.ops_amount);
    let e4 = e3.paid_out(config.token, config.ops_pool, s.ops_amount);
    step_paid_out(e4, config.token, config.review_pool, s.review_amount);
    let e5 = e4.paid_out(config.token, config.review_pool, s.review_amount);
    step_paid_out(e5, config.token, config.qa_pool, s.qa_amount);
    let e6 = e5.paid_out(config.token, config.qa_pool, s.qa_amount);
    step_paid_out(e6, config.token, config.o2o_pool, s.o2o_amount);
    let e7 = e6.paid_out(config.token, config.o2o_pool, s.o2o_amount);
    step_published(e7, contract::resolved_event(id, bps));
    step_published(
        e7.published(contract::resolved_event(id, bps)),
        contract::dispute_event(env, id, s),
    );
}

/// `claim_payout` zeroes the claimable balance, and then pays exactly that balance to the
/// claimant and publishes it.
pub proof fn claim_pays_the_balance(env: EnvView, who: Address)
    requires
        contract::claim_payout_refusal(env, who) is None,
    ensures
        ({
            let token = env.config.unwrap().token;
            let amount = env.claimable[who.id];
            let event = PayoutClaimed { claimant: who, amount, token };
            let written = env.config_read().claimable_written(who, 0);
            &&& env.claimable_by(who) == amount
            &&& contract::claim_payout_after(env, who) == (EnvView {
                claimable: env.claimable.insert(who.id, 0),
                effects: written.effects + seq![
                    Effect::Pay(Transfer { token, from: env.contract, to: who, amount }),
                ] + seq![Effect::Publish(Event::PayoutClaimed(event))],
                ..env
            })
        }),
{
    let token = env.config.unwrap().token;
    let amount = env.claimable_by(who);
    let zeroed = env.config_read().claimable_written(who, 0);
    step_paid_out(zeroed, token, who, amount);
    step_published(
        zeroed.paid_out(token, who, amount),
        Event::PayoutClaimed(PayoutClaimed { claimant: who, amount, token }),
    );
}

/// A new booking can be read back under the number that `book` gives, with the terms that
/// `book` was given, and its amount can be locked with the traveller's signature.
pub proof fn booked_terms_are_read_back_and_locked(
    env: EnvView,
    traveller: Address,
    host: Address,
    amount: i128,
    start_time: u64,
)
    requires
        contract::book_refusal(env, traveller, host, amount, start_time) is None,
        env.upcoming_id() < u64::MAX,
    ensures
        ({
            let id = env.upcoming_id();
            let done = contract::book_after(env, traveller, host, amount, start_time);
            &&& done.booking(id) matches Some(b) && b.booking_id == id && b.traveller == traveller
                && b.host == host && b.amount == amount && b.start_time == start_time && b.state
                == BookingState::Created
            &&& env.signers.contains(traveller) ==> contract::lock_escrow_refusal(
                done,
                id,
                amount,
            ) is None
        }),
{
}

/// After an update the booking that can be read back has the host, the amount and the start
/// of the update, whatever they were before; and it is the new amount that can be locked, and
/// no other.
pub proof fn updated_terms_are_read_back_and_locked(
    env: EnvView,
    id: u64,
    host: Address,
    amount: i128,
    start_time: u64,
    other: i128,
)
    requires
        contract::update_booking_refusal(env, id, host, amount, start_time) is None,
        env.bookings[id].booking_id == id,
        env.bookings[id].escrow_amount == 0,
        env.bookings[id].token == env.config.unwrap().token,
        env.signers.contains(env.bookings[id].traveller),
    ensures
        ({
            let done = contract::update_booking_after(env, id, host, amount, start_time);
            &&& done.booking(id) matches Some(b) && b.host == host && b.amount == amount
                && b.start_time == start_time
            &&& contract::lock_escrow_refusal(done, id, other) is None <==> other == amount
        }),
{
}

} // verus!
