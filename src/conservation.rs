use vstd::prelude::*;

use crate::ledger::{lemma_total_push, lemma_total_update, lock_spec, total, unlock_spec, LockEntry};

verus! {

/// One call on a ledger, with the arguments it is given.
pub enum LedgerOp {
    Lock { amount: u64, spendable: u64, timestamp: i64 },
    Unlock { amount: u64, lock_index: u64 },
}

/// The entries after `op`: the new entries when it succeeds, the same ones when it fails.
pub open spec fn apply_op(locks: Seq<LockEntry>, op: LedgerOp) -> Seq<LockEntry> {
    let outcome = match op {
        LedgerOp::Lock { amount, spendable, timestamp } => lock_spec(
            locks,
            amount,
            spendable,
            timestamp,
        ),
        LedgerOp::Unlock { amount, lock_index } => unlock_spec(locks, amount, lock_index),
    };
    match outcome {
        Ok(after) => after,
        Err(_) => locks,
    }
}

/// The entries after each of `ops` in turn.
pub open spec fn replay(locks: Seq<LockEntry>, ops: Seq<LedgerOp>) -> Seq<LockEntry>
    decreases ops.len(),
{
    if ops.len() == 0 {
        locks
    } else {
        apply_op(replay(locks, ops.drop_last()), ops.last())
    }
}

/// Sum of the amounts that the successful `Lock` calls among `ops` deposited.
pub open spec fn deposited(locks: Seq<LockEntry>, ops: Seq<LedgerOp>) -> int
    decreases ops.len(),
{
    if ops.len() == 0 {
        0
    } else {
        let before = replay(locks, ops.drop_last());
        let gained = match ops.last() {
            LedgerOp::Lock { amount, spendable, timestamp } => if lock_spec(
                before,
                amount,
                spendable,
                timestamp,
            ) is Ok {
                amount as int
            } else {
                0
            },
            LedgerOp::Unlock { .. } => 0,
        };
        deposited(locks, ops.drop_last()) + gained
    }
}

/// Sum of the amounts that the successful `Unlock` calls among `ops` returned to the owner.
pub open spec fn withdrawn(locks: Seq<LockEntry>, ops: Seq<LedgerOp>) -> int
    decreases ops.len(),
{
    if ops.len() == 0 {
        0
    } else {
        let before = replay(locks, ops.drop_last());
        let returned = match ops.last() {
            LedgerOp::Unlock { amount, lock_index } => if unlock_spec(
                before,
                amount,
                lock_index,
            ) is Ok {
                amount as int
            } else {
                0
            },
            LedgerOp::Lock { .. } => 0,
        };
        withdrawn(locks, ops.drop_last()) + returned
    }
}

/// Conservation: after any sequence of `lock` and `unlock` calls, the entries hold what
/// they held before, plus everything deposited, minus everything withdrawn.
pub proof fn conservation(locks: Seq<LockEntry>, ops: Seq<LedgerOp>)
    ensures
        total(replay(locks, ops)) == total(locks) + deposited(locks, ops) - withdrawn(locks, ops),
    decreases ops.len(),
{
    if ops.len() > 0 {
        conservation(locks, ops.drop_last());
        let before = replay(locks, ops.drop_last());
        match ops.last() {
            LedgerOp::Lock { amount, spendable, timestamp } => {
                lemma_total_push(before, LockEntry { amount, timestamp });
            },
            LedgerOp::Unlock { amount, lock_index } => {
                if lock_index < before.len() {
                    let i = lock_index as int;
                    lemma_total_update(
                        before,
                        i,
                        LockEntry { amount: (before[i].amount - amount) as u64, timestamp: before[i].timestamp },
                    );
                }
            },
        }
    }
}

/// Two deposits of the same amount make two separate entries of that amount, one after
/// the other, and leave the earlier entries as they were: nothing is merged.
pub proof fn lock_twice_appends_two_entries(
    locks: Seq<LockEntry>,
    amount: u64,
    spendable1: u64,
    timestamp1: i64,
    spendable2: u64,
    timestamp2: i64,
)
    requires
        amount > 0,
        spendable1 >= amount,
        spendable2 >= amount,
    ensures
        ({
            let once = locks.push(LockEntry { amount, timestamp: timestamp1 });
            let twice = once.push(LockEntry { amount, timestamp: timestamp2 });
            &&& lock_spec(locks, amount, spendable1, timestamp1) == Ok::<Seq<LockEntry>, crate::error::ErrorCode>(once)
            &&& lock_spec(once, amount, spendable2, timestamp2) == Ok::<Seq<LockEntry>, crate::error::ErrorCode>(twice)
            &&& twice.len() == locks.len() + 2
            &&& twice.subrange(0, locks.len() as int) == locks
            &&& twice[locks.len() as int].amount == amount
            &&& twice[locks.len() + 1int].amount == amount
        }),
{
    let once = locks.push(LockEntry { amount, timestamp: timestamp1 });
    let twice = once.push(LockEntry { amount, timestamp: timestamp2 });
    assert(twice.subrange(0, locks.len() as int) =~= locks);
}

} // verus!
