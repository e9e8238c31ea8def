use vstd::prelude::*;

use crate::error::ErrorCode;

verus! {

/// One deposit held in custody: how much is still locked, and when it was locked.
#[derive(Debug, Clone, Copy, PartialEq, Eq, Structural)]
pub struct LockEntry {
    pub amount: u64,
    pub timestamp: i64,
}

/// The entry type under the name the ledger's account layout gives it.
pub type TokenLock = LockEntry;

/// The per-owner custody ledger: an insertion-ordered sequence of lock entries.
///
/// Entries are addressed by position. An entry is never dropped: withdrawing all of it
/// leaves a zero-amount entry in its slot.
pub struct Ledger {
    pub owner: [u8; 32],
    pub locks: Vec<LockEntry>,
}

/// The ledger under the name of the account that stores it.
pub type LockAccount = Ledger;

/// Sum of the amounts held by a sequence of entries.
pub open spec fn total(locks: Seq<LockEntry>) -> int
    decreases locks.len(),
{
    if locks.len() == 0 {
        0
    } else {
        total(locks.drop_last()) + locks.last().amount
    }
}

/// What `lock` makes of the entries: the error it reports, or the entries after the deposit.
pub open spec fn lock_spec(locks: Seq<LockEntry>, amount: u64, spendable: u64, timestamp: i64) -> Result<
    Seq<LockEntry>,
    ErrorCode,
> {
    if amount == 0 {
        Err(ErrorCode::ZeroAmount)
    } else if spendable < amount {
        Err(ErrorCode::InsufficientFunds)
    } else {
        Ok(locks.push(LockEntry { amount, timestamp }))
    }
}

/// What `unlock` makes of the entries: the error it reports, or the entries after the
/// withdrawal, in which the addressed entry is reduced in place.
pub open spec fn unlock_spec(locks: Seq<LockEntry>, amount: u64, lock_index: u64) -> Result<
    Seq<LockEntry>,
    ErrorCode,
> {
    if lock_index >= locks.len() {
        Err(ErrorCode::LockIndexOutOfBounds)
    } else if locks[lock_index as int].amount < amount {
        Err(ErrorCode::InsufficientFundsForUnlocking)
    } else {
        Ok(
            locks.update(
                lock_index as int,
                LockEntry {
                    amount: (locks[lock_index as int].amount - amount) as u64,
                    timestamp: locks[lock_index as int].timestamp,
                },
            ),
        )
    }
}

/// Appending an entry adds its amount to the total.
pub proof fn lemma_total_push(locks: Seq<LockEntry>, e: LockEntry)
    ensures
        total(locks.push(e)) == total(locks) + e.amount,
{
    assert(locks.push(e).drop_last() =~= locks);
}

/// Replacing one entry changes the total by the difference of the two amounts.
pub proof fn lemma_total_update(locks: Seq<LockEntry>, i: int, e: LockEntry)
    requires
        0 <= i < locks.len(),
    ensures
        total(locks.update(i, e)) == total(locks) - locks[i].amount + e.amount,
    decreases locks.len(),
{
    let u = locks.update(i, e);
    if i == locks.len() - 1 {
        assert(u.drop_last() =~= locks.drop_last());
    } else {
        lemma_total_update(locks.drop_last(), i, e);
        assert(u.drop_last() =~= locks.drop_last().update(i, e));
    }
}

} // verus!
