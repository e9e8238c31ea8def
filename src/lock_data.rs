use vstd::prelude::*;

use crate::error::ErrorCode;
use crate::state::LockInfo;

verus! {

/// Process-wide total of the amounts locked in all single-record ledgers.
#[derive(Debug, Clone, Copy, PartialEq, Eq, Structural)]
pub struct GlobalState {
    pub total_locked: u64,
}

/// The record created for `wallet` at time `now` (seconds since the epoch): nothing locked
/// yet, and the creation time as the start of the lock.
pub fn create_lock_data(wallet: [u8; 32], now: i64) -> (r: LockInfo)
    ensures
        r == (LockInfo { address: wallet, initial_timestamp: now as u64, end_timestamp: 0, amount_locked: 0 }),
{
    LockInfo { address: wallet, initial_timestamp: now as u64, end_timestamp: 0, amount_locked: 0 }
}

/// Sets the record's locked amount to `new_amount` and moves the global total by the
/// difference between the new amount and the old one.
///
/// The record is updated first. When the adjusted total would fall below zero or rise past
/// `u64::MAX` the call fails with `Overflow`: the total is left as it was, while the
/// record keeps its new amount.
pub fn modify_lock_data(lock_data: &mut LockInfo, global_state: &mut GlobalState, new_amount: u32) -> (r:
    Result<(), ErrorCode>)
    ensures
        *final(lock_data) == (LockInfo { amount_locked: new_amount as u64, ..*old(lock_data) }),
        ({
            let adjusted = old(global_state).total_locked + new_amount - old(lock_data).amount_locked;
            &&& 0 <= adjusted <= u64::MAX ==> r == Ok::<(), ErrorCode>(())
                && final(global_state).total_locked == adjusted
            &&& !(0 <= adjusted <= u64::MAX) ==> r == Err::<(), ErrorCode>(ErrorCode::Overflow)
                && *final(global_state) == *old(global_state)
        }),
{
    let old_amount = lock_data.amount_locked;
    lock_data.amount_locked = new_amount as u64;
    let total = global_state.total_locked;
    let new_total = if new_amount as u64 >= old_amount {
        let increase = new_amount as u64 - old_amount;
        if total > u64::MAX - increase {
            return Err(ErrorCode::Overflow);
        }
        total + increase
    } else {
        let decrease = old_amount - new_amount as u64;
        if total < decrease {
            return Err(ErrorCode::Overflow);
        }
        total - decrease
    };
    global_state.total_locked = new_total;
    Ok(())
}

} // verus!
