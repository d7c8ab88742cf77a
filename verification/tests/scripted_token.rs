use stello_booking::env::Env;
use stello_booking::scripted_token::{ScriptedToken, TokenError};
use stello_booking::types::Address;

fn addr(id: u64) -> Address {
    Address { id }
}

#[test]
fn transfers_move_the_amount() {
    let mut token = ScriptedToken::new();
    let mut env = Env::new(addr(0), 0);
    env.signers.push(addr(1));
    token.mint(addr(1), 10).unwrap();
    assert_eq!(token.transfer(&env, addr(1), addr(2), 4), Ok(()));
    assert_eq!(token.balance(addr(1)), 6);
    assert_eq!(token.balance(addr(2)), 4);
    assert_eq!(token.balance(addr(3)), 0);
    assert_eq!(token.decimals(), 7);
}

#[test]
fn contract_spends_its_own_tokens_unsigned() {
    let mut token = ScriptedToken::new();
    let env = Env::new(addr(0), 0);
    token.mint(addr(0), 5).unwrap();
    assert_eq!(token.transfer(&env, addr(0), addr(2), 5), Ok(()));
    assert_eq!(token.balance(addr(2)), 5);
}

#[test]
fn token_refusals() {
    let mut token = ScriptedToken::new();
    let mut env = Env::new(addr(0), 0);
    token.mint(addr(1), 10).unwrap();
    assert_eq!(token.transfer(&env, addr(1), addr(2), 4), Err(TokenError::Unauthorized));
    env.signers.push(addr(1));
    assert_eq!(
        token.transfer(&env, addr(1), addr(2), 11),
        Err(TokenError::InsufficientBalance)
    );
    token.arm_fail_to(addr(2));
    assert_eq!(token.transfer(&env, addr(1), addr(2), 4), Err(TokenError::Refused));
    assert_eq!(token.transfer(&env, addr(1), addr(3), 1), Ok(()));
    token.disarm();
    assert_eq!(token.transfer(&env, addr(1), addr(2), 4), Ok(()));
    token.mint(addr(5), i128::MAX).unwrap();
    assert_eq!(token.mint(addr(5), 1), Err(TokenError::Overflow));
    assert_eq!(token.transfer(&env, addr(1), addr(5), 1), Err(TokenError::Overflow));
    assert_eq!(token.balance(addr(1)), 5);
}

#[test]
fn transfer_to_oneself_adds_the_amount() {
    let mut token = ScriptedToken::new();
    let mut env = Env::new(addr(0), 0);
    env.signers.push(addr(1));
    token.mint(addr(1), 10).unwrap();
    assert_eq!(token.transfer(&env, addr(1), addr(1), 4), Ok(()));
    assert_eq!(token.balance(addr(1)), 14);
}

#[test]
fn recorded_transfers_are_made_together_or_not_at_all() {
    let mut token = ScriptedToken::new();
    let mut env = Env::new(addr(0), 0);
    token.mint(addr(0), 10).unwrap();
    env.transfer(addr(9), addr(0), addr(1), 3);
    env.transfer(addr(8), addr(0), addr(1), 100); // another token
    env.transfer(addr(9), addr(0), addr(2), 4);
    token.arm_fail_to(addr(2));
    assert_eq!(token.carry_out(addr(9), &env), Err(TokenError::Refused));
    assert_eq!(token.balance(addr(0)), 10);
    assert_eq!(token.balance(addr(1)), 0);
    token.disarm();
    assert_eq!(token.carry_out(addr(9), &env), Ok(()));
    assert_eq!(token.balance(addr(0)), 3);
    assert_eq!(token.balance(addr(1)), 3);
    assert_eq!(token.balance(addr(2)), 4);
}

#[test]
fn commit_keeps_entries_and_balances_together() {
    let mut token = ScriptedToken::new();
    token.mint(addr(0), 5).unwrap();
    let mut stored = Env::new(addr(0), 0);
    let mut done = stored.clone();
    done.next_booking_id = Some(9);
    done.transfer(addr(50), addr(0), addr(1), 3);
    done.transfer(addr(50), addr(0), addr(2), 3);
    // the second transfer is not covered: nothing happens
    assert_eq!(
        token.commit(addr(50), &mut stored, done.clone()),
        Err(TokenError::InsufficientBalance)
    );
    assert_eq!(stored.next_booking_id, None);
    assert!(stored.effects.is_empty());
    assert_eq!(token.balance(addr(0)), 5);
    assert_eq!(token.balance(addr(1)), 0);

    token.mint(addr(0), 1).unwrap();
    assert_eq!(token.commit(addr(50), &mut stored, done), Ok(()));
    assert_eq!(stored.next_booking_id, Some(9));
    assert_eq!(stored.effects.len(), 2);
    assert_eq!(token.balance(addr(0)), 0);
    assert_eq!(token.balance(addr(1)), 3);
    assert_eq!(token.balance(addr(2)), 3);
}
