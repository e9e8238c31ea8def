use vstd::prelude::*;

use vstd::bytes::spec_u64_from_le_bytes;
use vstd::slice::slice_subrange;

use crate::error::ErrorCode;
use crate::state::u64_from_le;

verus! {

/// An instruction to the single-record custody program.
#[derive(Debug, Clone, Copy, PartialEq, Eq, Structural)]
pub enum FundInstruction {
    LockFunds { amount: u64 },
    UnlockFunds,
    GetLockInfo,
}

/// The instruction that `data` encodes: a tag byte, 1 to lock (followed by the amount as
/// eight little-endian bytes), 2 to unlock, 3 to read the record; `None` for anything else.
pub open spec fn instruction_of(data: Seq<u8>) -> Option<FundInstruction> {
    if data.len() == 0 {
        None
    } else if data[0] == 1 {
        if data.len() < 9 {
            None
        } else {
            Some(FundInstruction::LockFunds { amount: spec_u64_from_le_bytes(data.subrange(1, 9)) })
        }
    } else if data[0] == 2 {
        Some(FundInstruction::UnlockFunds)
    } else if data[0] == 3 {
        Some(FundInstruction::GetLockInfo)
    } else {
        None
    }
}

/// Decodes an instruction; bytes that encode none fail with `InvalidInstructionData`.
pub fn parse_instruction(data: &[u8]) -> (r: Result<FundInstruction, ErrorCode>)
    ensures
        match instruction_of(data@) {
            Some(ins) => r == Ok::<FundInstruction, ErrorCode>(ins),
            None => r == Err::<FundInstruction, ErrorCode>(ErrorCode::InvalidInstructionData),
        },
{
    if data.len() == 0 {
        return Err(ErrorCode::InvalidInstructionData);
    }
    let tag = data[0];
    if tag == 1 {
        let rest = slice_subrange(data, 1, data.len());
        if data.len() >= 9 {
            assert(rest@.subrange(0, 8) =~= data@.subrange(1, 9));
        }
        parse_lock_funds(rest)
    } else if tag == 2 {
        Ok(FundInstruction::UnlockFunds)
    } else if tag == 3 {
        Ok(FundInstruction::GetLockInfo)
    } else {
        Err(ErrorCode::InvalidInstructionData)
    }
}

/// Decodes the arguments of a lock instruction: the amount, from the first eight bytes,
/// little-endian. Fewer than eight bytes fail with `InvalidInstructionData`.
pub fn parse_lock_funds(data: &[u8]) -> (r: Result<FundInstruction, ErrorCode>)
    ensures
        data@.len() < 8 ==> r == Err::<FundInstruction, ErrorCode>(
            ErrorCode::InvalidInstructionData,
        ),
        data@.len() >= 8 ==> r == Ok::<FundInstruction, ErrorCode>(
            FundInstruction::LockFunds { amount: spec_u64_from_le_bytes(data@.subrange(0, 8)) },
        ),
{
    if data.len() < 8 {
        return Err(ErrorCode::InvalidInstructionData);
    }
    let amount = u64_from_le(data, 0);
    Ok(FundInstruction::LockFunds { amount })
}

} // verus!
