use vstd::prelude::*;

use crate::error::ErrorCode;
use crate::ledger::{lemma_total_push, lock_spec, total, LockAccount, LockEntry};

verus! {

/// Deposits `amount` into the ledger as a new entry stamped with `timestamp`.
///
/// `spendable` is the owner's spendable balance, from which the fund transfer gateway
/// moves the deposit into custody. A deposit of zero is refused with `ZeroAmount`, one
/// that the balance does not cover with `InsufficientFunds`; either way the ledger is
/// left as it was. On success the new entry's index, the previous length, is returned.
pub fn handler(lock_account: &mut LockAccount, amount: u64, spendable: u64, timestamp: i64) -> (r:
    Result<usize, ErrorCode>)
    ensures
        final(lock_account).owner == old(lock_account).owner,
        match lock_spec(old(lock_account).locks@, amount, spendable, timestamp) {
            Ok(locks) => r == Ok::<usize, ErrorCode>(old(lock_account).locks@.len() as usize)
                && final(lock_account).locks@ == locks,
            Err(e) => r == Err::<usize, ErrorCode>(e) && final(lock_account).locks@ == old(
                lock_account,
            ).locks@,
        },
        r is Ok ==> total(final(lock_account).locks@) == total(old(lock_account).locks@) + amount,
{
    if amount == 0 {
        return Err(ErrorCode::ZeroAmount);
    }
    if spendable < amount {
        return Err(ErrorCode::InsufficientFunds);
    }
    let index = lock_account.locks.len();
    let entry = LockEntry { amount, timestamp };
    proof {
        lemma_total_push(lock_account.locks@, entry);
    }
    lock_account.locks.push(entry);
    Ok(index)
}

} // verus!
