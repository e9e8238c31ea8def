use vstd::prelude::*;

use crate::error::ErrorCode;
use crate::state::{decode, encode, LockInfo, RECORD_LEN};

verus! {

/// The fee, in lamports, that is paid out on top of the locked amount when funds are unlocked.
pub const FEES_EARNED: u64 = 100_000_000;

/// Fee earned by a lock when it is released.
pub fn get_fees_earned() -> (r: u64)
    ensures
        r == FEES_EARNED,
{
    FEES_EARNED
}

/// The record that a lock or an unlock leaves behind for `address`: all other fields zero.
pub open spec fn cleared_record(address: [u8; 32]) -> LockInfo {
    LockInfo { address, initial_timestamp: 0, end_timestamp: 0, amount_locked: 0 }
}

/// Decides a deposit of `amount` from a user whose balance is `user_lamports`.
///
/// A balance below `amount` fails with `InsufficientFunds`. Otherwise the caller moves
/// `amount` into custody and stores the returned record.
pub fn lock_funds(user_address: [u8; 32], user_lamports: u64, amount: u64) -> (r: Result<
    LockInfo,
    ErrorCode,
>)
    ensures
        user_lamports < amount ==> r == Err::<LockInfo, ErrorCode>(ErrorCode::InsufficientFunds),
        user_lamports >= amount ==> r == Ok::<LockInfo, ErrorCode>(cleared_record(user_address)),
{
    if user_lamports < amount {
        return Err(ErrorCode::InsufficientFunds);
    }
    Ok(LockInfo { address: user_address, initial_timestamp: 0, end_timestamp: 0, amount_locked: 0 })
}

/// The lamports to release and the record to store, after an unlock.
#[derive(Debug, Clone, Copy, PartialEq, Eq)]
pub struct Release {
    pub amount: u64,
    pub record: LockInfo,
}

/// Decides the release of the funds recorded in `record` to `user_address`, out of a
/// custody account that holds `custody_lamports`.
///
/// The amount released is the locked amount plus the fee. A record that does not decode
/// fails with `InvalidAccountData`, a sum past `u64` with `Overflow`, and a custody
/// balance that does not cover it with `InsufficientFunds`.
pub fn unlock_funds(record: &[u8], custody_lamports: u64, user_address: [u8; 32]) -> (r: Result<
    Release,
    ErrorCode,
>)
    ensures
        record@.len() < RECORD_LEN ==> r == Err::<Release, ErrorCode>(ErrorCode::InvalidAccountData),
        record@.len() >= RECORD_LEN ==> {
            let owed = decode(record@).amount_locked + FEES_EARNED;
            &&& owed > u64::MAX ==> r == Err::<Release, ErrorCode>(ErrorCode::Overflow)
            &&& owed <= u64::MAX && custody_lamports < owed ==> r == Err::<Release, ErrorCode>(
                ErrorCode::InsufficientFunds,
            )
            &&& owed <= custody_lamports ==> r == Ok::<Release, ErrorCode>(
                Release { amount: owed as u64, record: cleared_record(user_address) },
            )
        },
{
    let info = LockInfo::deserialize(record)?;
    let fee_amount = get_fees_earned();
    if info.amount_locked > u64::MAX - fee_amount {
        return Err(ErrorCode::Overflow);
    }
    let total_amount = info.amount_locked + fee_amount;
    if custody_lamports < total_amount {
        return Err(ErrorCode::InsufficientFunds);
    }
    Ok(
        Release {
            amount: total_amount,
            record: LockInfo {
                address: user_address,
                initial_timestamp: 0,
                end_timestamp: 0,
                amount_locked: 0,
            },
        },
    )
}

/// Reads the record stored in `data`; one that does not decode fails with
/// `InvalidAccountData`.
pub fn get_lock_info(data: &[u8]) -> (r: Result<Option<LockInfo>, ErrorCode>)
    ensures
        data@.len() < RECORD_LEN ==> r == Err::<Option<LockInfo>, ErrorCode>(
            ErrorCode::InvalidAccountData,
        ),
        data@.len() >= RECORD_LEN ==> r == Ok::<Option<LockInfo>, ErrorCode>(Some(decode(data@))),
{
    let info = LockInfo::deserialize(data)?;
    Ok(Some(info))
}

/// Overwrites the stored record in `data` with `new_lock_info`, whole.
///
/// The destination must be exactly one record long; otherwise it is left as it was and
/// the call fails with `InvalidAccountData`.
pub fn update_lock_info(data: &mut Vec<u8>, new_lock_info: LockInfo) -> (r: Result<(), ErrorCode>)
    ensures
        old(data)@.len() != RECORD_LEN ==> r == Err::<(), ErrorCode>(ErrorCode::InvalidAccountData)
            && final(data)@ == old(data)@,
        old(data)@.len() == RECORD_LEN ==> r == Ok::<(), ErrorCode>(()) && final(data)@ == encode(
            new_lock_info,
        ),
{
    let serialized = match new_lock_info.serialize() {
        Ok(bytes) => bytes,
        Err(e) => {
            return Err(e);
        },
    };
    if data.len() != serialized.len() {
        return Err(ErrorCode::InvalidAccountData);
    }
    *data = serialized;
    Ok(())
}

} // verus!
