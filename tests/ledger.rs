use sbtc_rewards::error::ErrorCode;
use sbtc_rewards::init_lock_account;
use sbtc_rewards::ledger::{LockAccount, LockEntry};
use sbtc_rewards::lock_tokens;
use sbtc_rewards::unlock_tokens;

const OWNER: [u8; 32] = [7u8; 32];

fn empty_ledger() -> LockAccount {
    let mut slot: Option<LockAccount> = None;
    init_lock_account::handler(&mut slot, OWNER).unwrap();
    slot.unwrap()
}

fn amounts(ledger: &LockAccount) -> Vec<u64> {
    ledger.locks.iter().map(|e| e.amount).collect()
}

fn sum(ledger: &LockAccount) -> u64 {
    ledger.locks.iter().map(|e| e.amount).sum()
}

#[test]
fn init_creates_empty_ledger() {
    let ledger = empty_ledger();
    assert_eq!(ledger.owner, OWNER);
    assert!(ledger.locks.is_empty());
}

#[test]
fn init_twice_fails_already_initialized() {
    let mut slot: Option<LockAccount> = None;
    assert_eq!(init_lock_account::handler(&mut slot, OWNER), Ok(()));
    lock_tokens::handler(slot.as_mut().unwrap(), 10, 10, 1).unwrap();
    assert_eq!(
        init_lock_account::handler(&mut slot, [1u8; 32]),
        Err(ErrorCode::AlreadyInitialized)
    );
    let ledger = slot.unwrap();
    assert_eq!(ledger.owner, OWNER);
    assert_eq!(amounts(&ledger), vec![10]);
}

#[test]
fn lock_then_unlock_down_to_zero() {
    let mut ledger = empty_ledger();
    let t0: i64 = 1_700_000_000;
    assert_eq!(lock_tokens::handler(&mut ledger, 500, 1_000, t0), Ok(0));
    assert_eq!(ledger.locks, vec![LockEntry { amount: 500, timestamp: t0 }]);

    assert_eq!(unlock_tokens::handler(&mut ledger, 200, 0), Ok(200));
    assert_eq!(ledger.locks, vec![LockEntry { amount: 300, timestamp: t0 }]);

    assert_eq!(unlock_tokens::handler(&mut ledger, 300, 0), Ok(300));
    assert_eq!(ledger.locks, vec![LockEntry { amount: 0, timestamp: t0 }]);

    assert_eq!(
        unlock_tokens::handler(&mut ledger, 1, 0),
        Err(ErrorCode::InsufficientFundsForUnlocking)
    );
    assert_eq!(ledger.locks, vec![LockEntry { amount: 0, timestamp: t0 }]);
}

#[test]
fn partial_unlock_keeps_later_index() {
    let mut ledger = empty_ledger();
    assert_eq!(lock_tokens::handler(&mut ledger, 100, 1_000, 1), Ok(0));
    assert_eq!(lock_tokens::handler(&mut ledger, 200, 1_000, 2), Ok(1));
    assert_eq!(amounts(&ledger), vec![100, 200]);

    assert_eq!(unlock_tokens::handler(&mut ledger, 50, 0), Ok(50));
    assert_eq!(amounts(&ledger), vec![50, 200]);
    assert_eq!(ledger.locks[1], LockEntry { amount: 200, timestamp: 2 });
    assert_eq!(unlock_tokens::handler(&mut ledger, 200, 1), Ok(200));
    assert_eq!(amounts(&ledger), vec![50, 0]);
}

#[test]
fn unlock_at_length_is_out_of_bounds() {
    let mut ledger = empty_ledger();
    lock_tokens::handler(&mut ledger, 100, 1_000, 1).unwrap();
    lock_tokens::handler(&mut ledger, 200, 1_000, 2).unwrap();
    assert_eq!(
        unlock_tokens::handler(&mut ledger, 1, 2),
        Err(ErrorCode::LockIndexOutOfBounds)
    );
    assert_eq!(amounts(&ledger), vec![100, 200]);
    assert_eq!(unlock_tokens::handler(&mut ledger, 200, 1), Ok(200));
    assert_eq!(amounts(&ledger), vec![100, 0]);
}

#[test]
fn unlock_on_empty_ledger_is_out_of_bounds() {
    let mut ledger = empty_ledger();
    assert_eq!(
        unlock_tokens::handler(&mut ledger, 0, 0),
        Err(ErrorCode::LockIndexOutOfBounds)
    );
    assert_eq!(
        unlock_tokens::handler(&mut ledger, 1, u64::MAX),
        Err(ErrorCode::LockIndexOutOfBounds)
    );
    assert!(ledger.locks.is_empty());
}

#[test]
fn lock_of_zero_is_rejected() {
    let mut ledger = empty_ledger();
    assert_eq!(lock_tokens::handler(&mut ledger, 0, 1_000, 1), Err(ErrorCode::ZeroAmount));
    assert!(ledger.locks.is_empty());
}

#[test]
fn lock_beyond_balance_is_rejected() {
    let mut ledger = empty_ledger();
    assert_eq!(
        lock_tokens::handler(&mut ledger, 101, 100, 1),
        Err(ErrorCode::InsufficientFunds)
    );
    assert!(ledger.locks.is_empty());
    assert_eq!(lock_tokens::handler(&mut ledger, 100, 100, 1), Ok(0));
    assert_eq!(amounts(&ledger), vec![100]);
}

#[test]
fn two_equal_locks_make_two_entries() {
    let mut ledger = empty_ledger();
    assert_eq!(lock_tokens::handler(&mut ledger, 100, 1_000, 5), Ok(0));
    assert_eq!(lock_tokens::handler(&mut ledger, 100, 1_000, 5), Ok(1));
    assert_eq!(
        ledger.locks,
        vec![
            LockEntry { amount: 100, timestamp: 5 },
            LockEntry { amount: 100, timestamp: 5 }
        ]
    );
}

#[test]
fn locked_sum_follows_deposits_and_withdrawals() {
    let mut ledger = empty_ledger();
    let mut deposited: u64 = 0;
    let mut withdrawn: u64 = 0;
    for (i, amount) in [300u64, 0, 50, 1_000, 7].iter().enumerate() {
        if let Ok(_) = lock_tokens::handler(&mut ledger, *amount, 500, i as i64) {
            deposited += amount;
        }
        assert_eq!(sum(&ledger), deposited - withdrawn);
    }
    for (amount, index) in [(100u64, 0u64), (60, 1), (7, 2), (1, 9), (200, 0), (1, 0)] {
        if let Ok(returned) = unlock_tokens::handler(&mut ledger, amount, index) {
            withdrawn += returned;
        }
        assert_eq!(sum(&ledger), deposited - withdrawn);
    }
    assert_eq!(deposited, 357);
    assert_eq!(withdrawn, 307);
    assert_eq!(amounts(&ledger), vec![0, 50, 0]);
}
