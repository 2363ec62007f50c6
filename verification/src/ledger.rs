//! A user's record in its account's storage: how it is read, how the two
//! operations change it, and how it is written back.

use vstd::prelude::*;
use crate::codec::{
    decode, decoded, encode, fits, lemma_record_bytes_len, record_bytes, record_len,
};
use crate::error::{DecodeError, VaultError};
use crate::state::{RecordView, VaultAccountState};

verus! {

/// The live record that storage holds: none if the storage was never
/// written or its record is not initialized, and an error if its bytes are
/// set and do not parse.
pub open spec fn live_record(data: Seq<u8>) -> Result<Option<RecordView>, VaultError> {
    match decoded(data) {
        Ok(r) => Ok(
            if r.is_initialized {
                Some(r)
            } else {
                None
            },
        ),
        Err(DecodeError::Unwritten) => Ok(None),
        Err(DecodeError::Malformed) => Err(VaultError::DecodeCorruption),
    }
}

/// The balance that storage credits to its user: that of its live record,
/// and zero where it has none.
pub open spec fn ledger_balance(data: Seq<u8>) -> int {
    match live_record(data) {
        Ok(Some(r)) => r.amount as int,
        _ => 0,
    }
}

/// Whether a record can be written to storage of `capacity` bytes.
pub open spec fn storable(r: RecordView, capacity: nat) -> bool {
    fits(r) && record_len(r) <= capacity
}

/// Storage after a record was written over its beginning.
pub open spec fn stored(data: Seq<u8>, r: RecordView) -> Seq<u8>
    recommends
        record_len(r) <= data.len(),
{
    record_bytes(r) + data.subrange(record_len(r) as int, data.len() as int)
}

/// A record after a deposit of `amount` to it, or the first record of a
/// user who had none.
pub open spec fn deposited(
    prior: Option<RecordView>,
    vault_id: Seq<char>,
    user_pubkey: Seq<char>,
    amount: u32,
    fund_status: Seq<char>,
    bot_status: Seq<char>,
) -> RecordView {
    match prior {
        Some(r) => RecordView {
            is_initialized: true,
            vault_id,
            user_pubkey: r.user_pubkey,
            amount: (r.amount + amount) as u32,
            fund_status,
            bot_status,
        },
        None => RecordView {
            is_initialized: true,
            vault_id,
            user_pubkey,
            amount,
            fund_status,
            bot_status,
        },
    }
}

/// A record after a withdrawal of `amount` from it.
pub open spec fn withdrawn(
    prior: RecordView,
    vault_id: Seq<char>,
    amount: u32,
    fund_status: Seq<char>,
    bot_status: Seq<char>,
) -> RecordView {
    RecordView {
        is_initialized: true,
        vault_id,
        user_pubkey: prior.user_pubkey,
        amount: (prior.amount - amount) as u32,
        fund_status,
        bot_status,
    }
}

/// Reads the live record of an account's storage.
pub fn load(data: &[u8]) -> (r: Result<Option<VaultAccountState>, VaultError>)
    ensures
        match live_record(data@) {
            Ok(Some(v)) => r is Ok && r.unwrap() is Some && r.unwrap().unwrap()@ == v,
            Ok(None) => r is Ok && r.unwrap() is None,
            Err(e) => r is Err && r.unwrap_err() == e,
        },
{
    match decode(data) {
        Ok(record) => if record.is_initialized {
            Ok(Some(record))
        } else {
            Ok(None)
        },
        Err(DecodeError::Unwritten) => Ok(None),
        Err(DecodeError::Malformed) => Err(VaultError::DecodeCorruption),
    }
}

/// The storage that results from writing a record over the beginning of
/// `data`, unless the record is over the ceiling or longer than the storage.
pub fn store(data: &Vec<u8>, record: &VaultAccountState) -> (r: Result<Vec<u8>, VaultError>)
    ensures
        storable(record@, data@.len()) ==> r is Ok && r.unwrap()@ == stored(data@, record@),
        !storable(record@, data@.len()) ==> r is Err && r.unwrap_err()
            == VaultError::RecordTooLarge,
{
    let mut out: Vec<u8> = encode(record)?;
    proof {
        lemma_record_bytes_len(record@);
    }
    let used: usize = out.len();
    if used > data.len() {
        return Err(VaultError::RecordTooLarge);
    }
    let mut i: usize = used;
    while i < data.len()
        invariant
            used <= i <= data@.len(),
            out@ == record_bytes(record@) + data@.subrange(used as int, i as int),
            used == record_len(record@),
            used == record_bytes(record@).len(),
        decreases data@.len() - i,
    {
        out.push(data[i]);
        assert(data@.subrange(used as int, i + 1) =~= data@.subrange(used as int, i as int).push(
            data@[i as int],
        ));
        i = i + 1;
    }
    Ok(out)
}

} // verus!
