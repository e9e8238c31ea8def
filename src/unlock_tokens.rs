use vstd::prelude::*;

use crate::error::ErrorCode;
use crate::ledger::{lemma_total_update, total, unlock_spec, LockAccount};

verus! {

/// Withdraws `amount` from the entry at `lock_index`, returning the amount that the fund
/// transfer gateway is to move from custody back to the owner.
///
/// The entry is taken out of the sequence, checked, reduced and put back at the same
/// position; when it holds less than `amount` it is put back unchanged and the call fails
/// with `InsufficientFundsForUnlocking`. An index past the end fails with
/// `LockIndexOutOfBounds`. Every other entry keeps its value and its index, and an entry
/// emptied by the withdrawal stays in its slot with amount zero.
pub fn handler(lock_account: &mut LockAccount, amount: u64, lock_index: u64) -> (r: Result<
    u64,
    ErrorCode,
>)
    ensures
        final(lock_account).owner == old(lock_account).owner,
        match unlock_spec(old(lock_account).locks@, amount, lock_index) {
            Ok(locks) => r == Ok::<u64, ErrorCode>(amount) && final(lock_account).locks@ == locks,
            Err(e) => r == Err::<u64, ErrorCode>(e) && final(lock_account).locks@ == old(
                lock_account,
            ).locks@,
        },
        r == Err::<u64, ErrorCode>(ErrorCode::LockIndexOutOfBounds) <==> lock_index >= old(
            lock_account,
        ).locks@.len(),
        r is Ok ==> {
            let before = old(lock_account).locks@;
            let after = final(lock_account).locks@;
            let i = lock_index as int;
            &&& after.len() == before.len()
            &&& after[i].amount == before[i].amount - amount
            &&& after[i].timestamp == before[i].timestamp
            &&& forall|j: int| 0 <= j < before.len() && j != i ==> #[trigger] after[j] == before[j]
            &&& total(after) == total(before) - amount
        },
{
    if lock_index >= lock_account.locks.len() as u64 {
        return Err(ErrorCode::LockIndexOutOfBounds);
    }
    let index = lock_index as usize;
    let ghost before = lock_account.locks@;
    let mut lock = lock_account.locks.remove(index);
    if lock.amount < amount {
        lock_account.locks.insert(index, lock);
        assert(lock_account.locks@ =~= before);
        return Err(ErrorCode::InsufficientFundsForUnlocking);
    }
    lock.amount = lock.amount - amount;
    lock_account.locks.insert(index, lock);
    assert(lock_account.locks@ =~= before.update(index as int, lock));
    proof {
        lemma_total_update(before, index as int, lock);
    }
    Ok(amount)
}

} // verus!
