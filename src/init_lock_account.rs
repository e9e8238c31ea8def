use vstd::prelude::*;

use crate::error::ErrorCode;
use crate::ledger::LockAccount;

verus! {

/// Creates the empty ledger of `owner` in `slot`, the owner's storage location.
///
/// A slot that already holds a ledger is left as it is, and the call fails with
/// `AlreadyInitialized`.
pub fn handler(slot: &mut Option<LockAccount>, owner: [u8; 32]) -> (r: Result<(), ErrorCode>)
    ensures
        *old(slot) is Some ==> r == Err::<(), ErrorCode>(ErrorCode::AlreadyInitialized)
            && *final(slot) == *old(slot),
        *old(slot) is None ==> r == Ok::<(), ErrorCode>(()) && match *final(slot) {
            Some(account) => account.owner == owner && account.locks@ == Seq::<
                crate::ledger::LockEntry,
            >::empty(),
            None => false,
        },
{
    if slot.is_some() {
        return Err(ErrorCode::AlreadyInitialized);
    }
    *slot = Some(LockAccount { owner, locks: Vec::new() });
    Ok(())
}

} // verus!
