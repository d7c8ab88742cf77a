use stello_booking::env::{Effect, Env, Transfer};
use stello_booking::events::{Event, SettlementExecuted};
use stello_booking::scripted_token::{ScriptedToken, TokenError};
use stello_booking::storage::{set_booking_ref_index, set_claimable, DataKey};
use stello_booking::{
    Address, Booking, BookingState, Bytes32, CancelSettlement, CancelledBy, Config, Error,
    SettlementAmounts, SettlementType, SplitAmounts, StelloBookingContract,
    DEFAULT_HOST_CANCEL_FEE, FOUR_WEEKS, TWO_WEEKS,
};

/// An invocation fails with a contract error, or because a transfer failed.
type Failure = Result<Error, TokenError>;

fn addr(id: u64) -> Address {
    Address { id }
}

/// One contract with its token. An invocation that fails leaves no trace.
struct TestCtx {
    env: Env,
    ledger: ScriptedToken,
    contract_id: Address,
    token: Address,
    stello: Address,
    traveller: Address,
    host: Address,
    ops: Address,
    review: Address,
    qa: Address,
    o2o: Address,
}

impl TestCtx {
    fn invoke<T>(&mut self, call: impl FnOnce(&mut Env) -> Result<T, Error>) -> Result<T, Failure> {
        let mut env = self.env.clone();
        env.effects.clear();
        let value = call(&mut env).map_err(Ok)?;
        self.ledger.commit(self.token, &mut self.env, env).map_err(Err)?;
        Ok(value)
    }

    fn balance(&self, who: Address) -> i128 {
        self.ledger.balance(who)
    }

    fn mint(&mut self, to: Address, amount: i128) {
        self.ledger.mint(to, amount).unwrap();
    }

    fn config(&self) -> Config {
        Config {
            stello_wallet: self.stello,
            token: self.token,
            ops_pool: self.ops,
            review_pool: self.review,
            qa_pool: self.qa,
            o2o_pool: self.o2o,
            host_cancel_fee: DEFAULT_HOST_CANCEL_FEE,
        }
    }

    fn try_book(
        &mut self,
        traveller: Address,
        host: Address,
        amount: i128,
        start_time: u64,
    ) -> Result<u64, Failure> {
        self.invoke(|env| StelloBookingContract::book(env, traveller, host, amount, start_time))
    }

    fn fund_and_book(&mut self, amount: i128, start_time: u64) -> u64 {
        let (traveller, host) = (self.traveller, self.host);
        self.mint(traveller, amount);
        self.try_book(traveller, host, amount, start_time).unwrap()
    }

    fn try_update_booking(
        &mut self,
        id: u64,
        host: Address,
        amount: i128,
        start_time: u64,
    ) -> Result<(), Failure> {
        self.invoke(|env| StelloBookingContract::update_booking(env, id, host, amount, start_time))
    }

    fn try_lock_escrow(&mut self, id: u64, amount: i128) -> Result<(), Failure> {
        self.invoke(|env| StelloBookingContract::lock_escrow(env, id, amount))
    }

    fn lock_escrow(&mut self, id: u64, amount: i128) {
        self.try_lock_escrow(id, amount).unwrap();
    }

    fn try_check_in(&mut self, id: u64) -> Result<(), Failure> {
        self.invoke(|env| StelloBookingContract::check_in(env, id))
    }

    fn check_in(&mut self, id: u64) {
        self.try_check_in(id).unwrap();
    }

    fn try_complete(&mut self, id: u64) -> Result<(), Failure> {
        self.invoke(|env| StelloBookingContract::complete(env, id))
    }

    fn complete(&mut self, id: u64) {
        self.try_complete(id).unwrap();
    }

    fn try_execute_split(&mut self, id: u64) -> Result<SplitAmounts, Failure> {
        self.invoke(|env| StelloBookingContract::execute_split(env, id))
    }

    fn execute_split(&mut self, id: u64) -> SplitAmounts {
        self.try_execute_split(id).unwrap()
    }

    fn try_cancel_by_traveller(&mut self, id: u64) -> Result<CancelSettlement, Failure> {
        self.invoke(|env| StelloBookingContract::cancel_by_traveller(env, id))
    }

    fn try_cancel_by_host(&mut self, id: u64) -> Result<CancelSettlement, Failure> {
        self.invoke(|env| StelloBookingContract::cancel_by_host(env, id))
    }

    fn try_open_dispute(&mut self, id: u64) -> Result<(), Failure> {
        self.invoke(|env| StelloBookingContract::open_dispute(env, id))
    }

    fn try_resolve_dispute(
        &mut self,
        id: u64,
        bps: [u32; 6],
    ) -> Result<SettlementAmounts, Failure> {
        let [traveller, host, ops, review, qa, o2o] = bps;
        self.invoke(|env| {
            StelloBookingContract::resolve_dispute(env, id, traveller, host, ops, review, qa, o2o)
        })
    }

    fn try_claim_payout(&mut self, who: Address) -> Result<i128, Failure> {
        self.invoke(|env| StelloBookingContract::claim_payout(env, who))
    }

    fn get_booking(&mut self, id: u64) -> Booking {
        self.invoke(|env| StelloBookingContract::get_booking(env, id)).unwrap()
    }

    fn get_booking_state(&mut self, id: u64) -> BookingState {
        self.invoke(|env| StelloBookingContract::get_booking_state(env, id)).unwrap()
    }

    fn get_claimable_balance(&self, who: Address) -> i128 {
        StelloBookingContract::get_claimable_balance(&self.env, who)
    }

    /// book → lock (in escrow).
    fn reach_escrowed(&mut self, amount: i128, start_time: u64) -> u64 {
        let booking_id = self.fund_and_book(amount, start_time);
        self.lock_escrow(booking_id, amount);
        booking_id
    }

    /// book → lock → check_in → complete (not settled).
    fn reach_completed(&mut self, amount: i128) -> u64 {
        let booking_id = self.fund_and_book(amount, 1_000_000);
        self.lock_escrow(booking_id, amount);
        self.check_in(booking_id);
        self.complete(booking_id);
        booking_id
    }

    fn last_effects(&self) -> &[Effect] {
        &self.env.effects
    }

    fn settlement_event(&self) -> SettlementExecuted {
        match self.last_effects().last() {
            Some(Effect::Publish(Event::SettlementExecuted(event))) => *event,
            other => panic!("no settlement event: {:?}", other),
        }
    }
}

fn uninitialized() -> TestCtx {
    let mut ctx = TestCtx {
        env: Env::new(addr(100), 0),
        ledger: ScriptedToken::new(),
        contract_id: addr(100),
        token: addr(101),
        stello: addr(1),
        traveller: addr(2),
        host: addr(3),
        ops: addr(4),
        review: addr(5),
        qa: addr(6),
        o2o: addr(7),
    };
    for id in 1..8 {
        ctx.env.signers.push(addr(id));
    }
    ctx
}

fn setup() -> TestCtx {
    let mut ctx = uninitialized();
    let cfg = ctx.config();
    ctx.invoke(|env| StelloBookingContract::initialize(env, cfg)).unwrap();
    ctx
}

#[test]
fn initialize_once() {
    let mut ctx = setup();
    let got = ctx.invoke(StelloBookingContract::get_config).unwrap();
    assert_eq!(got.stello_wallet, ctx.stello);

    let cfg = ctx.config();
    assert_eq!(
        ctx.invoke(|env| StelloBookingContract::initialize(env, cfg)),
        Err(Ok(Error::AlreadyInitialized))
    );
}

#[test]
fn valid_lifecycle_created_escrowed_checked_in_completed() {
    let mut ctx = setup();
    let amount = 100_000_000i128;
    let booking_id = ctx.fund_and_book(amount, 1_000_000);
    assert_eq!(ctx.get_booking_state(booking_id), BookingState::Created);

    let host = ctx.host;
    ctx.try_update_booking(booking_id, host, amount, 2_000_000).unwrap();
    let b = ctx.get_booking(booking_id);
    assert_eq!(b.start_time, 2_000_000);
    assert_eq!(b.state, BookingState::Created);

    ctx.lock_escrow(booking_id, amount);
    assert_eq!(ctx.get_booking_state(booking_id), BookingState::Escrowed);
    assert_eq!(ctx.balance(ctx.contract_id), amount);
    assert_eq!(ctx.balance(ctx.traveller), 0);

    ctx.check_in(booking_id);
    let b = ctx.get_booking(booking_id);
    assert_eq!(b.state, BookingState::CheckedIn);
    assert!(b.checked_in);

    // Escrow remains in the contract: settlement is deferred.
    assert_eq!(ctx.balance(ctx.contract_id), amount);

    ctx.complete(booking_id);
    assert_eq!(ctx.get_booking_state(booking_id), BookingState::Completed);
    assert_eq!(ctx.balance(ctx.contract_id), amount);
}

#[test]
fn successful_escrow() {
    let mut ctx = setup();
    let amount = 50_000_000i128;
    let booking_id = ctx.fund_and_book(amount, 1_000_000);

    ctx.lock_escrow(booking_id, amount);

    let b = ctx.get_booking(booking_id);
    assert_eq!(b.state, BookingState::Escrowed);
    assert!(b.escrow_locked);
    assert_eq!(b.escrow_amount, amount);
    assert_eq!(ctx.balance(ctx.contract_id), amount);
    assert_eq!(ctx.balance(ctx.traveller), 0);
}

#[test]
fn escrow_rejects_incorrect_amount() {
    let mut ctx = setup();
    let amount = 100i128;
    let booking_id = ctx.fund_and_book(amount, 1_000_000);

    assert_eq!(
        ctx.try_lock_escrow(booking_id, amount + 1),
        Err(Ok(Error::InvalidAmount))
    );
    assert_eq!(
        ctx.try_lock_escrow(booking_id, amount - 1),
        Err(Ok(Error::InvalidAmount))
    );

    let b = ctx.get_booking(booking_id);
    assert_eq!(b.state, BookingState::Created);
    assert_eq!(b.escrow_amount, 0);
    assert_eq!(ctx.balance(ctx.contract_id), 0);
    assert_eq!(ctx.balance(ctx.traveller), amount);
}

#[test]
fn escrow_rejects_double_lock() {
    let mut ctx = setup();
    let amount = 100i128;
    let booking_id = ctx.fund_and_book(amount, 1_000_000);
    ctx.lock_escrow(booking_id, amount);

    assert_eq!(
        ctx.try_lock_escrow(booking_id, amount),
        Err(Ok(Error::InvalidStateTransition))
    );

    let b = ctx.get_booking(booking_id);
    assert_eq!(b.escrow_amount, amount);
    assert_eq!(ctx.balance(ctx.contract_id), amount);
}

#[test]
fn escrow_rejects_zero_amount() {
    let mut ctx = setup();
    let amount = 100i128;
    let booking_id = ctx.fund_and_book(amount, 1_000_000);

    assert_eq!(
        ctx.try_lock_escrow(booking_id, 0i128),
        Err(Ok(Error::InvalidAmount))
    );
    assert_eq!(ctx.get_booking(booking_id).escrow_amount, 0);
    assert_eq!(ctx.balance(ctx.contract_id), 0);
}

#[test]
fn escrow_rejects_unauthorized_caller() {
    let mut ctx = uninitialized();
    let cfg = ctx.config();

    // Only the Stello wallet signs "initialize" and "book".
    ctx.env.signers = vec![ctx.stello];
    ctx.invoke(|env| StelloBookingContract::initialize(env, cfg)).unwrap();

    let amount = 100i128;
    let booking_id = ctx.fund_and_book(amount, 1_000_000u64);

    // Nobody signs: lock_escrow without Stello authorization must fail.
    ctx.env.signers.clear();
    let result = ctx.try_lock_escrow(booking_id, amount);
    assert!(result.is_err(), "expected unauthorized lock_escrow to fail");
}

#[test]
fn escrow_rejects_insufficient_balance() {
    let mut ctx = setup();
    let amount = 100i128;
    // Book without funding traveller fully.
    let (traveller, host) = (ctx.traveller, ctx.host);
    let booking_id = ctx.try_book(traveller, host, amount, 1_000_000u64).unwrap();
    ctx.mint(traveller, amount - 1);

    let result = ctx.try_lock_escrow(booking_id, amount);
    assert!(result.is_err(), "expected insufficient balance to fail");
    assert_eq!(ctx.get_booking(booking_id).state, BookingState::Created);
    assert_eq!(ctx.get_booking(booking_id).escrow_amount, 0);
    assert_eq!(ctx.balance(ctx.contract_id), 0);
}

#[test]
fn escrow_balance_tracking() {
    let mut ctx = setup();
    let amount = 25_000_000i128;
    let booking_id = ctx.fund_and_book(amount, 1_000_000);

    assert_eq!(ctx.get_booking(booking_id).escrow_amount, 0);
    assert_eq!(ctx.balance(ctx.contract_id), 0);

    ctx.lock_escrow(booking_id, amount);

    let b = ctx.get_booking(booking_id);
    assert_eq!(b.escrow_amount, amount);
    assert_eq!(b.escrow_amount, b.amount);
    assert_eq!(ctx.balance(ctx.contract_id), b.escrow_amount);
    assert!(b.escrow_amount <= b.amount);
}

#[test]
fn escrow_rejects_invalid_booking() {
    let mut ctx = setup();
    assert_eq!(
        ctx.try_lock_escrow(999u64, 100i128),
        Err(Ok(Error::BookingNotFound))
    );
}

#[test]
fn reject_lock_escrow_from_non_created() {
    let mut ctx = setup();
    let amount = 100i128;
    let booking_id = ctx.fund_and_book(amount, 1_000_000);
    ctx.lock_escrow(booking_id, amount);
    assert_eq!(
        ctx.try_lock_escrow(booking_id, amount),
        Err(Ok(Error::InvalidStateTransition))
    );
}

#[test]
fn reject_check_in_from_created() {
    let mut ctx = setup();
    let booking_id = ctx.fund_and_book(100, 1_000_000);
    assert_eq!(
        ctx.try_check_in(booking_id),
        Err(Ok(Error::InvalidStateTransition))
    );
}

#[test]
fn reject_check_in_from_checked_in_and_completed() {
    let mut ctx = setup();
    let amount = 100i128;
    let booking_id = ctx.fund_and_book(amount, 1_000_000);
    ctx.lock_escrow(booking_id, amount);
    ctx.check_in(booking_id);
    assert_eq!(
        ctx.try_check_in(booking_id),
        Err(Ok(Error::InvalidStateTransition))
    );

    ctx.complete(booking_id);
    assert_eq!(
        ctx.try_check_in(booking_id),
        Err(Ok(Error::InvalidStateTransition))
    );
}

#[test]
fn reject_complete_from_created() {
    let mut ctx = setup();
    let (traveller, host) = (ctx.traveller, ctx.host);
    let booking_id = ctx.try_book(traveller, host, 100i128, 1_000_000).unwrap();
    assert_eq!(
        ctx.try_complete(booking_id),
        Err(Ok(Error::InvalidStateTransition))
    );
}

#[test]
fn reject_complete_from_escrowed_without_check_in() {
    let mut ctx = setup();
    let amount = 100i128;
    let booking_id = ctx.fund_and_book(amount, 1_000_000);
    ctx.lock_escrow(booking_id, amount);
    assert_eq!(
        ctx.try_complete(booking_id),
        Err(Ok(Error::InvalidStateTransition))
    );
}

#[test]
fn reject_complete_twice() {
    let mut ctx = setup();
    let amount = 100i128;
    let booking_id = ctx.fund_and_book(amount, 1_000_000);
    ctx.lock_escrow(booking_id, amount);
    ctx.check_in(booking_id);
    ctx.complete(booking_id);
    assert_eq!(
        ctx.try_complete(booking_id),
        Err(Ok(Error::InvalidStateTransition))
    );
}

#[test]
fn reject_update_after_escrow_locked() {
    let mut ctx = setup();
    let amount = 100i128;
    let booking_id = ctx.fund_and_book(amount, 1_000_000);
    ctx.lock_escrow(booking_id, amount);
    let host = ctx.host;
    assert_eq!(
        ctx.try_update_booking(booking_id, host, amount, 2_000_000),
        Err(Ok(Error::InvalidUpdate))
    );
}

#[test]
fn reject_book_identical_traveller_host() {
    let mut ctx = setup();
    let traveller = ctx.traveller;
    assert_eq!(
        ctx.try_book(traveller, traveller, 100i128, 1_000_000),
        Err(Ok(Error::InvalidAddress))
    );
}

#[test]
fn reject_book_non_positive_amount() {
    let mut ctx = setup();
    let (traveller, host) = (ctx.traveller, ctx.host);
    assert_eq!(
        ctx.try_book(traveller, host, 0i128, 1_000_000),
        Err(Ok(Error::InvalidAmount))
    );
}

// --- Completed settlement ---

#[test]
fn execute_split_successful_100_units() {
    let mut ctx = setup();
    let amount = 100i128;
    let booking_id = ctx.reach_completed(amount);

    let split = ctx.execute_split(booking_id);
    assert_eq!(split.host_amount, 80);
    assert_eq!(split.ops_amount, 10);
    assert_eq!(split.review_amount, 5);
    assert_eq!(split.qa_amount, 3);
    assert_eq!(split.o2o_amount, 2);
    assert_eq!(
        split.host_amount
            + split.ops_amount
            + split.review_amount
            + split.qa_amount
            + split.o2o_amount,
        amount
    );

    let b = ctx.get_booking(booking_id);
    assert!(b.settled);
    assert_eq!(b.escrow_amount, 0);
    assert_eq!(b.state, BookingState::Completed);

    // All five shares are pushed immediately.
    assert_eq!(ctx.balance(ctx.host), 80);
    assert_eq!(ctx.balance(ctx.ops), 10);
    assert_eq!(ctx.balance(ctx.review), 5);
    assert_eq!(ctx.balance(ctx.qa), 3);
    assert_eq!(ctx.balance(ctx.o2o), 2);
    assert_eq!(ctx.balance(ctx.contract_id), 0);
    assert_eq!(ctx.get_claimable_balance(ctx.host), 0);
    assert_eq!(ctx.get_claimable_balance(ctx.o2o), 0);
}

#[test]
fn execute_split_dust_remainder_to_host() {
    let mut ctx = setup();
    let amount = 50i128;
    let booking_id = ctx.reach_completed(amount);

    let split = ctx.execute_split(booking_id);
    // floors 40+5+2+1+1=49, remainder 1 → host 41
    assert_eq!(split.host_amount, 41);
    assert_eq!(split.ops_amount, 5);
    assert_eq!(split.review_amount, 2);
    assert_eq!(split.qa_amount, 1);
    assert_eq!(split.o2o_amount, 1);
    assert_eq!(
        split.host_amount
            + split.ops_amount
            + split.review_amount
            + split.qa_amount
            + split.o2o_amount,
        amount
    );
}

#[test]
fn execute_split_rejects_before_completed() {
    let mut ctx = setup();
    let amount = 100i128;
    let booking_id = ctx.fund_and_book(amount, 1_000_000);
    assert_eq!(
        ctx.try_execute_split(booking_id),
        Err(Ok(Error::InvalidStateTransition))
    );

    ctx.lock_escrow(booking_id, amount);
    assert_eq!(
        ctx.try_execute_split(booking_id),
        Err(Ok(Error::InvalidStateTransition))
    );

    ctx.check_in(booking_id);
    assert_eq!(
        ctx.try_execute_split(booking_id),
        Err(Ok(Error::InvalidStateTransition))
    );
}

#[test]
fn execute_split_rejects_double_settlement() {
    let mut ctx = setup();
    let amount = 100i128;
    let booking_id = ctx.reach_completed(amount);
    ctx.execute_split(booking_id);

    assert_eq!(
        ctx.try_execute_split(booking_id),
        Err(Ok(Error::AlreadySettled))
    );
}

#[test]
fn execute_split_rejects_unknown_booking() {
    let mut ctx = setup();
    assert_eq!(
        ctx.try_execute_split(999u64),
        Err(Ok(Error::BookingNotFound))
    );
}

#[test]
fn claim_payout_rejects_nothing_to_claim_after_push_settlement() {
    let mut ctx = setup();
    let amount = 100i128;
    let booking_id = ctx.reach_completed(amount);
    ctx.execute_split(booking_id);

    // Host/O2O were pushed; nothing left to claim.
    let (host, o2o) = (ctx.host, ctx.o2o);
    assert_eq!(ctx.try_claim_payout(host), Err(Ok(Error::NothingToClaim)));
    assert_eq!(ctx.try_claim_payout(o2o), Err(Ok(Error::NothingToClaim)));
}

#[test]
fn claim_payout_rejects_nothing_to_claim() {
    let mut ctx = setup();
    let host = ctx.host;
    assert_eq!(ctx.try_claim_payout(host), Err(Ok(Error::NothingToClaim)));
}

#[test]
fn full_lifecycle_with_settlement_and_claims() {
    let mut ctx = setup();
    let amount = 100_000_000i128;
    let booking_id = ctx.reach_completed(amount);

    let split = ctx.execute_split(booking_id);
    assert_eq!(split.host_amount, 80_000_000);
    assert_eq!(split.ops_amount, 10_000_000);
    assert_eq!(split.review_amount, 5_000_000);
    assert_eq!(split.qa_amount, 3_000_000);
    assert_eq!(split.o2o_amount, 2_000_000);

    assert_eq!(ctx.balance(ctx.host), 80_000_000);
    assert_eq!(ctx.balance(ctx.ops), 10_000_000);
    assert_eq!(ctx.balance(ctx.review), 5_000_000);
    assert_eq!(ctx.balance(ctx.qa), 3_000_000);
    assert_eq!(ctx.balance(ctx.o2o), 2_000_000);
    assert_eq!(ctx.balance(ctx.contract_id), 0);
}

// --- Configuration and signatures ---

#[test]
fn calls_need_a_configuration() {
    let mut ctx = uninitialized();
    let (traveller, host) = (ctx.traveller, ctx.host);
    assert_eq!(
        ctx.invoke(StelloBookingContract::get_config),
        Err(Ok(Error::NotInitialized))
    );
    assert_eq!(
        ctx.try_book(traveller, host, 1, 1_000_000),
        Err(Ok(Error::NotInitialized))
    );
    assert_eq!(ctx.try_cancel_by_host(1), Err(Ok(Error::NotInitialized)));
    assert_eq!(ctx.try_claim_payout(host), Err(Ok(Error::NotInitialized)));
}

#[test]
fn initialize_refuses_a_negative_fee_and_a_missing_signature() {
    let mut ctx = uninitialized();
    let mut cfg = ctx.config();
    cfg.host_cancel_fee = -1;
    assert_eq!(
        ctx.invoke(|env| StelloBookingContract::initialize(env, cfg)),
        Err(Ok(Error::InvalidAmount))
    );
    cfg.host_cancel_fee = 0;
    ctx.env.signers.clear();
    assert_eq!(
        ctx.invoke(|env| StelloBookingContract::initialize(env, cfg)),
        Err(Ok(Error::Unauthorized))
    );
    assert_eq!(ctx.env.config, None);
}

#[test]
fn stello_calls_need_the_stello_signature() {
    let mut ctx = setup();
    let booking_id = ctx.reach_escrowed(100, 1_000_000);
    let (traveller, host, stello) = (ctx.traveller, ctx.host, ctx.stello);
    ctx.env.signers.retain(|who| *who != stello);
    let denied = Err(Ok(Error::Unauthorized));
    assert_eq!(ctx.try_book(traveller, host, 5, 1_000_000), denied);
    let denied = Err(Ok(Error::Unauthorized));
    assert_eq!(ctx.try_check_in(booking_id), denied);
    assert_eq!(ctx.try_open_dispute(booking_id), denied);
    assert_eq!(ctx.try_update_booking(booking_id, host, 5, 1_000_000), denied);
    assert_eq!(ctx.try_lock_escrow(booking_id, 100), denied);
    assert_eq!(ctx.try_cancel_by_traveller(booking_id), Err(Ok(Error::Unauthorized)));
    // the unsigned address is named
    let mut env = ctx.env.clone();
    let _ = StelloBookingContract::check_in(&mut env, booking_id);
    assert_eq!(env.denied, Some(stello));
}

#[test]
fn locking_needs_the_traveller_too() {
    let mut ctx = setup();
    let booking_id = ctx.fund_and_book(100, 1_000_000);
    let stello = ctx.stello;
    ctx.env.signers = vec![stello];
    assert_eq!(ctx.try_lock_escrow(booking_id, 100), Err(Ok(Error::Unauthorized)));
    let mut env = ctx.env.clone();
    let _ = StelloBookingContract::lock_escrow(&mut env, booking_id, 100);
    assert_eq!(env.denied, Some(ctx.traveller));
}

#[test]
fn stello_cannot_cancel_for_the_host() {
    let mut ctx = setup();
    let booking_id = ctx.reach_escrowed(100, 1_000_000);
    ctx.env.signers = vec![ctx.stello];
    assert_eq!(ctx.try_cancel_by_host(booking_id), Err(Ok(Error::Unauthorized)));
}

// --- Bookings ---

#[test]
fn booking_numbers_count_up_and_records_are_complete() {
    let mut ctx = setup();
    ctx.env.timestamp = 77;
    let (traveller, host) = (ctx.traveller, ctx.host);
    assert_eq!(ctx.try_book(traveller, host, 5, 78), Ok(1));
    assert_eq!(ctx.try_book(traveller, host, 6, 90), Ok(2));
    let b = ctx.get_booking(1);
    assert_eq!(
        b,
        Booking {
            booking_id: 1,
            booking_ref: Bytes32::zero(),
            service_ref: Bytes32::zero(),
            traveller,
            host,
            amount: 5,
            token: ctx.token,
            start_time: 78,
            created_at: 77,
            state: BookingState::Created,
            escrow_locked: false,
            escrow_amount: 0,
            checked_in: false,
            settled: false,
            was_cancelled: false,
            cancelled_by: CancelledBy::Nobody,
        }
    );
    assert_eq!(ctx.get_booking(2).amount, 6);
}

#[test]
fn start_must_lie_ahead() {
    let mut ctx = setup();
    ctx.env.timestamp = 50;
    let (traveller, host) = (ctx.traveller, ctx.host);
    assert_eq!(ctx.try_book(traveller, host, 5, 50), Err(Ok(Error::InvalidStartTime)));
    let id = ctx.try_book(traveller, host, 5, 51).unwrap();
    assert_eq!(
        ctx.try_update_booking(id, host, 5, 49),
        Err(Ok(Error::InvalidStartTime))
    );
}

#[test]
fn update_changes_the_terms_only() {
    let mut ctx = setup();
    let id = ctx.fund_and_book(100, 1_000_000);
    let before = ctx.get_booking(id);
    let (traveller, ops) = (ctx.traveller, ctx.ops);
    assert_eq!(
        ctx.try_update_booking(id, traveller, 7, 2_000_000),
        Err(Ok(Error::InvalidAddress))
    );
    assert_eq!(
        ctx.try_update_booking(id, ops, 0, 2_000_000),
        Err(Ok(Error::InvalidAmount))
    );
    ctx.try_update_booking(id, ops, 7, 2_000_000).unwrap();
    let after = ctx.get_booking(id);
    assert_eq!(
        after,
        Booking { host: ops, amount: 7, start_time: 2_000_000, ..before }
    );
    assert_eq!(
        ctx.try_update_booking(999, ops, 7, 2_000_000),
        Err(Ok(Error::BookingNotFound))
    );
}

#[test]
fn inconsistent_records_are_refused() {
    let mut ctx = setup();
    let id = ctx.fund_and_book(100, 1_000_000);
    let clean = ctx.get_booking(id);

    ctx.env.bookings.insert(id, Booking { escrow_locked: true, ..clean });
    assert_eq!(ctx.try_lock_escrow(id, 100), Err(Ok(Error::EscrowAlreadyLocked)));
    ctx.env.bookings.insert(id, Booking { token: addr(55), ..clean });
    assert_eq!(ctx.try_lock_escrow(id, 100), Err(Ok(Error::InvalidToken)));
    ctx.env.bookings.insert(id, Booking { state: BookingState::Escrowed, ..clean });
    assert_eq!(ctx.try_check_in(id), Err(Ok(Error::EscrowNotLocked)));
    assert_eq!(ctx.try_cancel_by_traveller(id), Err(Ok(Error::InvalidAmount)));
    assert_eq!(ctx.try_open_dispute(id), Err(Ok(Error::InvalidAmount)));
    ctx.env.bookings.insert(id, Booking { state: BookingState::Completed, ..clean });
    assert_eq!(ctx.try_execute_split(id), Err(Ok(Error::InvalidAmount)));
    let big = Booking { state: BookingState::Completed, escrow_amount: i128::MAX, ..clean };
    ctx.env.bookings.insert(id, big);
    assert_eq!(ctx.try_execute_split(id), Err(Ok(Error::MathError)));
}

// --- Cancellation ---

#[test]
fn traveller_cancellation_pays_by_tier() {
    for (left, expected) in [
        (FOUR_WEEKS, (70, 15, 15)),
        (FOUR_WEEKS - 1, (50, 35, 15)),
        (TWO_WEEKS, (50, 35, 15)),
        (TWO_WEEKS - 1, (0, 80, 20)),
    ] {
        let mut ctx = setup();
        let id = ctx.reach_escrowed(100, FOUR_WEEKS + 10);
        ctx.env.timestamp = FOUR_WEEKS + 10 - left;
        let s = ctx.try_cancel_by_traveller(id).unwrap();
        assert_eq!((s.traveller_amount, s.host_amount, s.ops_amount), expected);
        assert_eq!(ctx.balance(ctx.traveller), expected.0);
        assert_eq!(ctx.balance(ctx.host), expected.1);
        assert_eq!(ctx.balance(ctx.ops), expected.2);
        assert_eq!(ctx.balance(ctx.contract_id), 0);

        let event = ctx.settlement_event();
        assert_eq!(event.settlement_type, SettlementType::TravellerCancel);
        assert_eq!(event.timestamp, FOUR_WEEKS + 10 - left);
        assert_eq!(event.traveller_amount + event.host_amount + event.ops_amount, 100);

        let b = ctx.get_booking(id);
        assert_eq!(b.state, BookingState::Cancelled);
        assert!(b.was_cancelled && b.settled);
        assert_eq!(b.cancelled_by, CancelledBy::Traveller);
        assert_eq!(b.escrow_amount, 0);
        assert_eq!(
            ctx.invoke(|env| StelloBookingContract::get_cancel_settlement(env, id)),
            Ok(s)
        );
        assert_eq!(ctx.try_cancel_by_traveller(id), Err(Ok(Error::AlreadyCancelled)));
        assert_eq!(ctx.try_cancel_by_host(id), Err(Ok(Error::AlreadyCancelled)));
        assert_eq!(ctx.try_open_dispute(id), Err(Ok(Error::AlreadySettled)));
    }
}

#[test]
fn host_cancellation_refunds_all_and_costs_the_host() {
    let mut ctx = setup();
    let id = ctx.reach_escrowed(100, 1_000_000);
    let host = ctx.host;
    ctx.mint(host, DEFAULT_HOST_CANCEL_FEE + 1);
    let s = ctx.try_cancel_by_host(id).unwrap();
    assert_eq!((s.traveller_amount, s.host_amount, s.ops_amount), (100, 0, 0));
    assert_eq!(ctx.balance(ctx.traveller), 100);
    assert_eq!(ctx.balance(host), 1);
    assert_eq!(ctx.balance(ctx.ops), DEFAULT_HOST_CANCEL_FEE);
    assert_eq!(ctx.balance(ctx.contract_id), 0);
    assert_eq!(ctx.settlement_event().settlement_type, SettlementType::HostCancel);
    assert_eq!(ctx.settlement_event().ops_amount, 0);
    assert_eq!(ctx.get_booking(id).cancelled_by, CancelledBy::Host);
}

#[test]
fn host_without_the_fee_cannot_cancel() {
    let mut ctx = setup();
    let id = ctx.reach_escrowed(100, 1_000_000);
    let host = ctx.host;
    ctx.mint(host, DEFAULT_HOST_CANCEL_FEE - 1);
    assert_eq!(ctx.try_cancel_by_host(id), Err(Err(TokenError::InsufficientBalance)));
    // everything is as it was
    assert_eq!(ctx.get_booking_state(id), BookingState::Escrowed);
    assert_eq!(ctx.balance(ctx.contract_id), 100);
    assert_eq!(ctx.balance(host), DEFAULT_HOST_CANCEL_FEE - 1);
    assert_eq!(
        ctx.invoke(|env| StelloBookingContract::get_cancel_settlement(env, id)),
        Err(Ok(Error::SettlementNotFound))
    );
}

#[test]
fn host_cancellation_needs_a_fee_to_charge() {
    let mut ctx = uninitialized();
    let mut cfg = ctx.config();
    cfg.host_cancel_fee = 0;
    ctx.invoke(|env| StelloBookingContract::initialize(env, cfg)).unwrap();
    let id = ctx.reach_escrowed(100, 1_000_000);
    assert_eq!(ctx.try_cancel_by_host(id), Err(Ok(Error::InvalidAmount)));
    assert_eq!(ctx.try_cancel_by_host(9), Err(Ok(Error::BookingNotFound)));
}

#[test]
fn cancellation_only_from_escrow() {
    let mut ctx = setup();
    let created = ctx.fund_and_book(100, 1_000_000);
    assert_eq!(
        ctx.try_cancel_by_traveller(created),
        Err(Ok(Error::InvalidStateTransition))
    );
    let completed = ctx.reach_completed(100);
    assert_eq!(
        ctx.try_cancel_by_host(completed),
        Err(Ok(Error::InvalidStateTransition))
    );
    ctx.execute_split(completed);
    assert_eq!(
        ctx.try_cancel_by_traveller(completed),
        Err(Ok(Error::AlreadySettled))
    );
}

// --- Disputes ---

#[test]
fn dispute_is_frozen_and_then_shared_out() {
    let mut ctx = setup();
    let id = ctx.reach_escrowed(101, 1_000_000);
    ctx.try_open_dispute(id).unwrap();
    assert_eq!(ctx.get_booking_state(id), BookingState::Disputed);
    assert_eq!(ctx.balance(ctx.contract_id), 101);

    assert_eq!(ctx.try_check_in(id), Err(Ok(Error::InvalidStateTransition)));
    assert_eq!(ctx.try_complete(id), Err(Ok(Error::InvalidStateTransition)));
    assert_eq!(ctx.try_execute_split(id), Err(Ok(Error::InvalidStateTransition)));
    assert_eq!(ctx.try_cancel_by_traveller(id), Err(Ok(Error::InvalidStateTransition)));
    assert_eq!(ctx.try_cancel_by_host(id), Err(Ok(Error::InvalidStateTransition)));
    assert_eq!(ctx.try_open_dispute(id), Err(Ok(Error::InvalidStateTransition)));
    assert_eq!(ctx.try_lock_escrow(id, 101), Err(Ok(Error::InvalidStateTransition)));

    assert_eq!(
        ctx.try_resolve_dispute(id, [5000, 4000, 500, 200, 200, 99]),
        Err(Ok(Error::InvalidBpsAllocation))
    );
    assert_eq!(
        ctx.try_resolve_dispute(id, [u32::MAX, 10_001, 0, 0, 0, 0]),
        Err(Ok(Error::InvalidBpsAllocation))
    );
    let s = ctx.try_resolve_dispute(id, [5000, 4000, 500, 200, 200, 100]).unwrap();
    // floors 50+40+5+2+2+1=100, remainder 1 → traveller
    assert_eq!(
        s,
        SettlementAmounts {
            traveller_amount: 51,
            host_amount: 40,
            ops_amount: 5,
            review_amount: 2,
            qa_amount: 2,
            o2o_amount: 1,
        }
    );
    assert_eq!(ctx.balance(ctx.traveller), 51);
    assert_eq!(ctx.balance(ctx.host), 40);
    assert_eq!(ctx.balance(ctx.ops), 5);
    assert_eq!(ctx.balance(ctx.review), 2);
    assert_eq!(ctx.balance(ctx.qa), 2);
    assert_eq!(ctx.balance(ctx.o2o), 1);
    assert_eq!(ctx.balance(ctx.contract_id), 0);
    assert_eq!(ctx.settlement_event().settlement_type, SettlementType::Dispute);

    let b = ctx.get_booking(id);
    assert_eq!(b.state, BookingState::Completed);
    assert!(b.settled);
    assert_eq!(
        ctx.try_resolve_dispute(id, [10_000, 0, 0, 0, 0, 0]),
        Err(Ok(Error::InvalidDispute))
    );
    assert_eq!(ctx.try_execute_split(id), Err(Ok(Error::AlreadySettled)));
}

#[test]
fn failed_split_is_recovered_by_a_dispute() {
    let mut ctx = setup();
    let id = ctx.reach_completed(100);
    let qa = ctx.qa;
    ctx.ledger.arm_fail_to(qa);
    assert_eq!(ctx.try_execute_split(id), Err(Err(TokenError::Refused)));
    // no share was paid, and the booking is completed and not settled
    assert_eq!(ctx.balance(ctx.host), 0);
    assert_eq!(ctx.balance(ctx.contract_id), 100);
    let b = ctx.get_booking(id);
    assert_eq!(b.state, BookingState::Completed);
    assert!(!b.settled);

    ctx.try_open_dispute(id).unwrap();
    ctx.try_resolve_dispute(id, [0, 8300, 1000, 500, 0, 200]).unwrap();
    assert_eq!(ctx.balance(ctx.host), 83);
    assert_eq!(ctx.balance(ctx.contract_id), 0);
}

#[test]
fn settled_dispute_record_is_refused() {
    let mut ctx = setup();
    let id = ctx.reach_escrowed(100, 1_000_000);
    ctx.try_open_dispute(id).unwrap();
    let b = ctx.get_booking(id);
    ctx.env.bookings.insert(id, Booking { settled: true, ..b });
    assert_eq!(
        ctx.try_resolve_dispute(id, [10_000, 0, 0, 0, 0, 0]),
        Err(Ok(Error::AlreadySettled))
    );
    ctx.env.bookings.insert(id, Booking { escrow_amount: i128::MAX, ..b });
    assert_eq!(
        ctx.try_resolve_dispute(id, [10_000, 0, 0, 0, 0, 0]),
        Err(Ok(Error::MathError))
    );
}

// --- Claims, effects ---

#[test]
fn claimable_balance_is_paid_once() {
    let mut ctx = setup();
    let (host, contract_id) = (ctx.host, ctx.contract_id);
    set_claimable(&mut ctx.env, &host, 40);
    ctx.mint(contract_id, 40);
    assert_eq!(ctx.get_claimable_balance(host), 40);
    assert_eq!(ctx.try_claim_payout(host), Ok(40));
    assert_eq!(ctx.balance(host), 40);
    assert_eq!(ctx.get_claimable_balance(host), 0);
    assert_eq!(ctx.try_claim_payout(host), Err(Ok(Error::NothingToClaim)));
    ctx.env.signers.clear();
    assert_eq!(ctx.try_claim_payout(host), Err(Ok(Error::Unauthorized)));
}

#[test]
fn split_writes_the_booking_before_it_pays() {
    let mut ctx = setup();
    let id = ctx.reach_completed(50);
    ctx.execute_split(id);
    let effects = ctx.last_effects();
    let stored = effects
        .iter()
        .position(|e| *e == Effect::Store(DataKey::Booking(id)))
        .unwrap();
    let pays: Vec<Transfer> = effects
        .iter()
        .filter_map(|e| match e {
            Effect::Pay(p) => Some(*p),
            _ => None,
        })
        .collect();
    let first_pay = effects.iter().position(|e| matches!(e, Effect::Pay(_))).unwrap();
    assert!(stored < first_pay);
    assert_eq!(pays.iter().map(|p| p.amount).sum::<i128>(), 50);
    assert!(pays.iter().all(|p| p.from == ctx.contract_id && p.token == ctx.token));
    assert_eq!(ctx.settlement_event().settlement_type, SettlementType::Completed);
}

#[test]
fn dust_shares_are_not_transferred() {
    let mut ctx = setup();
    let id = ctx.reach_completed(1);
    let split = ctx.execute_split(id);
    assert_eq!(split.host_amount, 1);
    let pays = ctx.last_effects().iter().filter(|e| matches!(e, Effect::Pay(_))).count();
    assert_eq!(pays, 1);
    assert_eq!(ctx.balance(ctx.host), 1);
}

#[test]
fn refused_calls_leave_no_effects() {
    let mut ctx = setup();
    let id = ctx.reach_escrowed(100, 1_000_000);
    let mut env = ctx.env.clone();
    env.effects.clear();
    assert_eq!(
        StelloBookingContract::complete(&mut env, id),
        Err(Error::InvalidStateTransition)
    );
    assert!(env.effects.is_empty());
}

#[test]
fn indexed_booking_keeps_its_reference_alive() {
    let mut ctx = setup();
    let id = ctx.fund_and_book(100, 1_000_000);
    let booking_ref = Bytes32 { bytes: [3; 32] };
    let b = ctx.get_booking(id);
    ctx.env.bookings.insert(id, Booking { booking_ref, ..b });
    set_booking_ref_index(&mut ctx.env, &booking_ref, id);
    ctx.lock_escrow(id, 100);
    let extended = Effect::ExtendEntry {
        key: DataKey::BookingRef(booking_ref),
        threshold: 100_000,
        extend_to: 500_000,
    };
    // once on reading, once on writing
    assert_eq!(ctx.last_effects().iter().filter(|e| **e == extended).count(), 2);
    assert_eq!(ctx.get_booking(id).booking_ref, booking_ref);
}

#[test]
fn calls_leave_other_bookings_alone() {
    let mut ctx = setup();
    let first = ctx.reach_escrowed(100, 1_000_000);
    let second = ctx.reach_escrowed(70, 2_000_000);
    let before = ctx.get_booking(first);
    ctx.try_cancel_by_traveller(second).unwrap();
    assert_eq!(ctx.get_booking(first), before);
    // the escrow of the first booking is still there
    assert_eq!(ctx.balance(ctx.contract_id), 100);
}

#[test]
fn cancellation_writes_and_keeps_alive_what_it_touches() {
    let mut ctx = setup();
    let id = ctx.reach_escrowed(100, 1_000_000);
    ctx.try_cancel_by_traveller(id).unwrap();
    let effects = ctx.last_effects();
    for expected in [
        Effect::Store(DataKey::Booking(id)),
        Effect::Store(DataKey::CancelSettlement(id)),
        Effect::ExtendInstance { threshold: 100_000, extend_to: 500_000 },
        Effect::ExtendEntry {
            key: DataKey::Booking(id),
            threshold: 100_000,
            extend_to: 500_000,
        },
        Effect::ExtendEntry {
            key: DataKey::CancelSettlement(id),
            threshold: 50_000,
            extend_to: 200_000,
        },
    ] {
        assert!(effects.contains(&expected), "missing {:?}", expected);
    }
    assert!(!effects.contains(&Effect::Store(DataKey::Config)));
}

#[test]
fn shares_add_up_when_one_address_has_several_roles() {
    let mut ctx = uninitialized();
    let mut cfg = ctx.config();
    cfg.review_pool = ctx.ops;
    cfg.qa_pool = ctx.host;
    ctx.invoke(|env| StelloBookingContract::initialize(env, cfg)).unwrap();
    let id = ctx.reach_completed(1_000);
    ctx.execute_split(id);
    assert_eq!(ctx.balance(ctx.host), 830);
    assert_eq!(ctx.balance(ctx.ops), 150);
    assert_eq!(ctx.balance(ctx.o2o), 20);
    assert_eq!(ctx.balance(ctx.contract_id), 0);
}

#[test]
fn history_numbers_bookings_without_a_gap() {
    let mut ctx = setup();
    let (traveller, host) = (ctx.traveller, ctx.host);
    for expected in 1..=3u64 {
        assert_eq!(ctx.try_book(traveller, host, 10, 1_000_000), Ok(expected));
        // refused calls and failing transfers take no number
        assert_eq!(
            ctx.try_book(traveller, traveller, 10, 1_000_000),
            Err(Ok(Error::InvalidAddress))
        );
        assert_eq!(
            ctx.try_lock_escrow(expected, 10),
            Err(Err(TokenError::InsufficientBalance))
        );
    }
    assert_eq!(ctx.env.bookings.len(), 3);
    assert_eq!(ctx.env.next_booking_id, Some(4));
}

#[test]
fn history_leaves_a_settled_booking_and_the_configuration_alone() {
    let mut ctx = setup();
    let cfg = ctx.config();
    let settled = ctx.reach_completed(100);
    ctx.execute_split(settled);
    let before = ctx.get_booking(settled);
    let other = ctx.reach_escrowed(50, 2_000_000);
    ctx.try_open_dispute(other).unwrap();
    ctx.try_resolve_dispute(other, [10_000, 0, 0, 0, 0, 0]).unwrap();
    assert_eq!(ctx.try_open_dispute(settled), Err(Ok(Error::AlreadySettled)));
    assert_eq!(
        ctx.try_resolve_dispute(settled, [10_000, 0, 0, 0, 0, 0]),
        Err(Ok(Error::InvalidDispute))
    );
    assert_eq!(ctx.get_booking(settled), before);
    assert_eq!(
        ctx.invoke(|env| StelloBookingContract::initialize(env, cfg)),
        Err(Ok(Error::AlreadyInitialized))
    );
    assert_eq!(ctx.invoke(StelloBookingContract::get_config), Ok(cfg));
}

#[test]
fn contract_holds_all_escrows_whatever_fails() {
    let mut ctx = setup();
    let first = ctx.reach_escrowed(100, 1_000_000);
    let second = ctx.reach_completed(70);
    assert_eq!(ctx.balance(ctx.contract_id), 170);
    ctx.ledger.arm_fail_to(ctx.host);
    assert_eq!(ctx.try_execute_split(second), Err(Err(TokenError::Refused)));
    assert_eq!(ctx.balance(ctx.contract_id), 170);
    assert_eq!(ctx.get_booking(second).escrow_amount, 70);
    ctx.ledger.disarm();
    ctx.execute_split(second);
    assert_eq!(ctx.balance(ctx.contract_id), ctx.get_booking(first).escrow_amount);
}

/// Adds up what a call's events say was locked and settled, and counts the
/// settlement events.
fn figures(ctx: &TestCtx) -> (i128, i128, usize) {
    let (mut locked, mut settled, mut count) = (0i128, 0i128, 0usize);
    for effect in ctx.last_effects() {
        match effect {
            Effect::Publish(Event::EscrowLocked(e)) => locked += e.amount,
            Effect::Publish(Event::SettlementExecuted(e)) => {
                count += 1;
                settled += e.traveller_amount
                    + e.host_amount
                    + e.ops_amount
                    + e.review_amount
                    + e.qa_amount
                    + e.o2o_amount;
            }
            _ => {}
        }
    }
    (locked, settled, count)
}

#[test]
fn events_account_for_the_escrow() {
    let mut ctx = setup();
    let host = ctx.host;
    ctx.mint(host, DEFAULT_HOST_CANCEL_FEE);
    let (mut locked, mut settled) = (0i128, 0i128);
    let mut ids = Vec::new();
    for amount in [101i128, 77, 50, 33, 9] {
        let id = ctx.fund_and_book(amount, 1_000_000);
        assert_eq!(figures(&ctx), (0, 0, 0));
        ctx.lock_escrow(id, amount);
        assert_eq!(figures(&ctx), (amount, 0, 0));
        locked += amount;
        ids.push(id);
    }
    ctx.check_in(ids[0]);
    assert_eq!(figures(&ctx), (0, 0, 0));
    ctx.complete(ids[0]);
    assert_eq!(figures(&ctx), (0, 0, 0));
    ctx.execute_split(ids[0]);
    assert_eq!(figures(&ctx), (0, 101, 1));
    settled += 101;
    ctx.try_cancel_by_traveller(ids[1]).unwrap();
    assert_eq!(figures(&ctx), (0, 77, 1));
    settled += 77;
    // the fee is not part of it
    ctx.try_cancel_by_host(ids[2]).unwrap();
    assert_eq!(figures(&ctx), (0, 50, 1));
    settled += 50;
    ctx.try_open_dispute(ids[3]).unwrap();
    assert_eq!(figures(&ctx), (0, 0, 0));
    ctx.try_resolve_dispute(ids[3], [3333, 3333, 3334, 0, 0, 0]).unwrap();
    assert_eq!(figures(&ctx), (0, 33, 1));
    settled += 33;
    let held: i128 = ctx.env.bookings.values().map(|b| b.escrow_amount).sum();
    assert_eq!(held, 9);
    assert_eq!(settled + held, locked);
}

#[test]
fn cancellation_event_repeats_the_settlement() {
    let mut ctx = setup();
    let host = ctx.host;
    ctx.mint(host, DEFAULT_HOST_CANCEL_FEE);
    let id = ctx.reach_escrowed(100, 1_000_000);
    ctx.try_cancel_by_host(id).unwrap();
    let events: Vec<Event> = ctx
        .last_effects()
        .iter()
        .filter_map(|e| match e {
            Effect::Publish(event) => Some(*event),
            _ => None,
        })
        .collect();
    assert_eq!(events.len(), 3);
    assert!(matches!(
        events[0],
        Event::HostCancellationFeePaid(e) if e.amount == DEFAULT_HOST_CANCEL_FEE
    ));
    assert!(matches!(
        events[1],
        Event::BookingCancelled(e)
            if e.by_host && (e.traveller_amount, e.host_amount, e.ops_amount) == (100, 0, 0)
    ));
    assert!(matches!(
        events[2],
        Event::SettlementExecuted(e)
            if (e.traveller_amount, e.host_amount, e.ops_amount) == (100, 0, 0)
    ));
}
