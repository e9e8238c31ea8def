use vstd::prelude::*;

use vstd::bytes::{lemma_auto_spec_u64_to_from_le_bytes, spec_u64_from_le_bytes, spec_u64_to_le_bytes};

use crate::error::ErrorCode;

verus! {

/// Bytes of an encoded `LockInfo`.
pub const RECORD_LEN: usize = 56;

/// Bytes of an owner's address, the first field of a record.
pub const ADDRESS_LEN: usize = 32;

/// A single-entry custody record: whose funds, over which period, and how much.
#[derive(Debug, Clone, Copy, PartialEq, Eq)]
pub struct LockInfo {
    pub address: [u8; 32],
    pub initial_timestamp: u64,
    pub end_timestamp: u64,
    pub amount_locked: u64,
}

/// The record's bytes: the address, then the three integers, each little-endian.
pub open spec fn encode(info: LockInfo) -> Seq<u8> {
    info.address@ + spec_u64_to_le_bytes(info.initial_timestamp) + spec_u64_to_le_bytes(
        info.end_timestamp,
    ) + spec_u64_to_le_bytes(info.amount_locked)
}

/// The record read from the first 56 of `data`.
pub open spec fn decode(data: Seq<u8>) -> LockInfo {
    LockInfo {
        address: choose|a: [u8; 32]| a@ == data.subrange(0, 32),
        initial_timestamp: spec_u64_from_le_bytes(data.subrange(32, 40)),
        end_timestamp: spec_u64_from_le_bytes(data.subrange(40, 48)),
        amount_locked: spec_u64_from_le_bytes(data.subrange(48, 56)),
    }
}

/// Relies on `u64::to_le_bytes`: the eight bytes of `x`, least significant first.
#[verifier::external_body]
fn u64_to_le(x: u64) -> (r: Vec<u8>)
    ensures
        r@ == spec_u64_to_le_bytes(x),
{
    x.to_le_bytes().to_vec()
}

/// Relies on `u64::from_le_bytes`: the integer whose little-endian bytes are
/// `data[start..start + 8]`.
#[verifier::external_body]
pub(crate) fn u64_from_le(data: &[u8], start: usize) -> (r: u64)
    requires
        start + 8 <= data@.len(),
    ensures
        r == spec_u64_from_le_bytes(data@.subrange(start as int, start + 8)),
{
    let bytes: [u8; 8] = data[start..start + 8].try_into().unwrap();
    u64::from_le_bytes(bytes)
}

/// Decoding the bytes of a record gives back the record.
pub proof fn decode_encode(info: LockInfo)
    ensures
        encode(info).len() == RECORD_LEN,
        decode(encode(info)) == info,
{
    lemma_auto_spec_u64_to_from_le_bytes();
    let e = encode(info);
    assert(e.subrange(0, 32) =~= info.address@);
    assert(e.subrange(32, 40) =~= spec_u64_to_le_bytes(info.initial_timestamp));
    assert(e.subrange(40, 48) =~= spec_u64_to_le_bytes(info.end_timestamp));
    assert(e.subrange(48, 56) =~= spec_u64_to_le_bytes(info.amount_locked));
    let a = choose|a: [u8; 32]| a@ == e.subrange(0, 32);
    assert(a == info.address);
}

impl LockInfo {
    /// Encodes the record into its 56 bytes. Encoding never fails.
    pub fn serialize(&self) -> (r: Result<Vec<u8>, ErrorCode>)
        ensures
            r matches Ok(data) && data@ == encode(*self) && data@.len() == RECORD_LEN,
    {
        proof {
            lemma_auto_spec_u64_to_from_le_bytes();
        }
        let mut data: Vec<u8> = Vec::with_capacity(RECORD_LEN);
        let mut i: usize = 0;
        while i < ADDRESS_LEN
            invariant
                i <= ADDRESS_LEN,
                data@ == self.address@.subrange(0, i as int),
            decreases ADDRESS_LEN - i,
        {
            data.push(self.address[i]);
            i = i + 1;
            assert(data@ =~= self.address@.subrange(0, i as int));
        }
        assert(self.address@.subrange(0, 32) =~= self.address@);
        let mut initial = u64_to_le(self.initial_timestamp);
        data.append(&mut initial);
        let mut end = u64_to_le(self.end_timestamp);
        data.append(&mut end);
        let mut amount = u64_to_le(self.amount_locked);
        data.append(&mut amount);
        Ok(data)
    }

    /// Decodes a record from the first 56 bytes of `data`; what follows them is ignored.
    /// Fewer than 56 bytes fail with `InvalidAccountData`.
    pub fn deserialize(data: &[u8]) -> (r: Result<LockInfo, ErrorCode>)
        ensures
            data@.len() < RECORD_LEN ==> r == Err::<LockInfo, ErrorCode>(
                ErrorCode::InvalidAccountData,
            ),
            data@.len() >= RECORD_LEN ==> r == Ok::<LockInfo, ErrorCode>(decode(data@)),
    {
        if data.len() < RECORD_LEN {
            return Err(ErrorCode::InvalidAccountData);
        }
        let mut address: [u8; 32] = [0u8; 32];
        let mut i: usize = 0;
        while i < ADDRESS_LEN
            invariant
                i <= ADDRESS_LEN,
                data@.len() >= RECORD_LEN,
                forall|j: int| 0 <= j < i ==> #[trigger] address@[j] == data@[j],
            decreases ADDRESS_LEN - i,
        {
            address.set(i, data[i]);
            i = i + 1;
        }
        assert(address@ =~= data@.subrange(0, 32));
        let initial_timestamp = u64_from_le(data, 32);
        let end_timestamp = u64_from_le(data, 40);
        let amount_locked = u64_from_le(data, 48);
        let info = LockInfo { address, initial_timestamp, end_timestamp, amount_locked };
        proof {
            let a = choose|a: [u8; 32]| a@ == data@.subrange(0, 32);
            assert(a@ == address@);
            assert(a == address);
        }
        Ok(info)
    }
}

} // verus!
