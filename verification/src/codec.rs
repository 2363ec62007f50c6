//! The byte layout of a persisted record: one flag byte, the balance as four
//! little-endian bytes, then the vault id, the user key and the two status
//! tags, each as a four-byte little-endian length followed by that many bytes
//! of UTF-8. Whatever follows the record in its buffer is ignored.

use vstd::prelude::*;
use vstd::slice::{slice_subrange, slice_to_vec};
use vstd::string::StringSliceAdditionalSpecFns;
use vstd::utf8::*;
use crate::error::{DecodeError, VaultError};
use crate::state::{RecordView, VaultAccountState};

verus! {

/// The most bytes an encoded record may take.
pub const MAX_RECORD_LEN: usize = 1000;

/// Bytes of every record: the flag, the balance and four length prefixes.
pub const FIXED_LEN: usize = 21;

/// The four bytes of `x`, least significant first.
#[verifier::opaque]
pub open spec fn u32_le(x: u32) -> Seq<u8> {
    seq![
        (x % 256) as u8,
        (x / 256 % 256) as u8,
        (x / 65536 % 256) as u8,
        (x / 16777216) as u8,
    ]
}

/// The number that four bytes spell, least significant first.
#[verifier::opaque]
pub open spec fn le_u32(b: Seq<u8>) -> int
    recommends
        b.len() == 4,
{
    b[0] + 256 * b[1] + 65536 * b[2] + 16777216 * b[3]
}

/// A text as it is stored: its length in bytes, then its UTF-8 bytes.
pub open spec fn text_bytes(t: Seq<char>) -> Seq<u8> {
    u32_le(encode_utf8(t).len() as u32) + encode_utf8(t)
}

/// The length of the encoding of a record with these texts.
pub open spec fn packed_size(
    vault_id: Seq<char>,
    user_pubkey: Seq<char>,
    fund_status: Seq<char>,
    bot_status: Seq<char>,
) -> nat {
    21 + encode_utf8(vault_id).len() + encode_utf8(user_pubkey).len() + encode_utf8(
        fund_status,
    ).len() + encode_utf8(bot_status).len()
}

/// The length of a record's encoding.
pub open spec fn record_len(r: RecordView) -> nat {
    packed_size(r.vault_id, r.user_pubkey, r.fund_status, r.bot_status)
}

/// Whether a record's encoding stays under the ceiling.
pub open spec fn fits(r: RecordView) -> bool {
    record_len(r) <= MAX_RECORD_LEN
}

/// A record's encoding.
pub open spec fn record_bytes(r: RecordView) -> Seq<u8> {
    seq![if r.is_initialized { 1u8 } else { 0u8 }] + u32_le(r.amount) + text_bytes(r.vault_id)
        + text_bytes(r.user_pubkey) + text_bytes(r.fund_status) + text_bytes(r.bot_status)
}

/// The text stored at position `at` of `b`, and the position behind it.
pub open spec fn read_text(b: Seq<u8>, at: int) -> Option<(Seq<char>, int)> {
    if at < 0 || at + 4 > b.len() {
        None
    } else {
        let n = le_u32(b.subrange(at, at + 4));
        if at + 4 + n > b.len() {
            None
        } else if !valid_utf8(b.subrange(at + 4, at + 4 + n)) {
            None
        } else {
            Some((decode_utf8(b.subrange(at + 4, at + 4 + n)), at + 4 + n))
        }
    }
}

/// The record that `b` begins with, if it begins with one.
pub open spec fn parse_record(b: Seq<u8>) -> Option<RecordView> {
    if b.len() < 5 || b[0] > 1 {
        None
    } else {
        match read_text(b, 5) {
            None => None,
            Some((vault_id, p1)) => match read_text(b, p1) {
                None => None,
                Some((user_pubkey, p2)) => match read_text(b, p2) {
                    None => None,
                    Some((fund_status, p3)) => match read_text(b, p3) {
                        None => None,
                        Some((bot_status, _)) => Some(
                            RecordView {
                                is_initialized: b[0] == 1,
                                vault_id,
                                user_pubkey,
                                amount: le_u32(b.subrange(1, 5)) as u32,
                                fund_status,
                                bot_status,
                            },
                        ),
                    },
                },
            },
        }
    }
}

/// Whether every byte of `b` is zero, as in storage that was never written.
pub open spec fn all_zero(b: Seq<u8>) -> bool {
    forall|i: int| 0 <= i < b.len() ==> b[i] == 0
}

/// What reading a buffer gives: the record it begins with, or the reason
/// there is none.
pub open spec fn decoded(b: Seq<u8>) -> Result<RecordView, DecodeError> {
    match parse_record(b) {
        Some(r) => Ok(r),
        None => if all_zero(b) {
            Err(DecodeError::Unwritten)
        } else {
            Err(DecodeError::Malformed)
        },
    }
}

/// Four bytes spell the number they were made from.
pub proof fn lemma_u32_le(x: u32)
    ensures
        u32_le(x).len() == 4,
        le_u32(u32_le(x)) == x,
{
    reveal(u32_le);
    reveal(le_u32);
}

/// An encoding is as long as `record_len` says.
pub proof fn lemma_record_bytes_len(r: RecordView)
    ensures
        record_bytes(r).len() == record_len(r),
{
    reveal(u32_le);
}

/// A number spelled by four bytes is made of those bytes.
pub proof fn lemma_le_u32(b: Seq<u8>)
    requires
        b.len() == 4,
    ensures
        0 <= le_u32(b) <= u32::MAX,
        u32_le(le_u32(b) as u32) == b,
{
    reveal(u32_le);
    reveal(le_u32);
    let b0 = b[0] as int;
    let b1 = b[1] as int;
    let b2 = b[2] as int;
    let b3 = b[3] as int;
    let x = b0 + 256 * b1 + 65536 * b2 + 16777216 * b3;
    assert(le_u32(b) == x);
    lemma_digits(b0, b1, b2, b3);
    assert(u32_le(x as u32) =~= b);
}

/// The base-256 digits of a number below 2^32 are unique.
proof fn lemma_digits(b0: int, b1: int, b2: int, b3: int)
    requires
        0 <= b0 < 256,
        0 <= b1 < 256,
        0 <= b2 < 256,
        0 <= b3 < 256,
    ensures
        ({
            let x = b0 + 256 * b1 + 65536 * b2 + 16777216 * b3;
            &&& 0 <= x <= u32::MAX
            &&& x % 256 == b0
            &&& x / 256 % 256 == b1
            &&& x / 65536 % 256 == b2
            &&& x / 16777216 == b3
        }),
{
    let x = b0 + 256 * b1 + 65536 * b2 + 16777216 * b3;
    let y = b1 + 256 * b2 + 65536 * b3;
    let z = b2 + 256 * b3;
    assert(x == 256 * y + b0);
    assert(x / 256 == y && x % 256 == b0);
    assert(x == 65536 * z + (b0 + 256 * b1));
    assert(x / 65536 == z);
    assert(y % 256 == b1);
    assert(z % 256 == b2);
    assert(x / 16777216 == b3);
}

fn put_u32(out: &mut Vec<u8>, x: u32)
    ensures
        final(out)@ == old(out)@ + u32_le(x),
{
    proof {
        reveal(u32_le);
    }
    out.push((x % 256) as u8);
    out.push((x / 256 % 256) as u8);
    out.push((x / 65536 % 256) as u8);
    out.push((x / 16777216) as u8);
    assert(out@ =~= old(out)@ + u32_le(x));
}

fn put_text(out: &mut Vec<u8>, t: &str)
    requires
        encode_utf8(t@).len() <= u32::MAX,
    ensures
        final(out)@ == old(out)@ + text_bytes(t@),
{
    let body = t.as_bytes();
    put_u32(out, body.len() as u32);
    out.extend_from_slice(body);
    assert(out@ =~= old(out)@ + text_bytes(t@));
}

fn get_u32(bytes: &[u8], at: usize) -> (x: u32)
    requires
        at + 4 <= bytes@.len(),
    ensures
        x == le_u32(bytes@.subrange(at as int, at + 4)),
{
    proof {
        reveal(le_u32);
    }
    let b0: u32 = bytes[at] as u32;
    let b1: u32 = bytes[at + 1] as u32;
    let b2: u32 = bytes[at + 2] as u32;
    let b3: u32 = bytes[at + 3] as u32;
    b0 + 256 * b1 + 65536 * b2 + 16777216 * b3
}

/// `String::from_utf8`: gives the string that holds exactly these bytes, and
/// gives one if and only if the bytes are well-formed UTF-8.
#[verifier::external_body]
fn string_from_utf8(bytes: Vec<u8>) -> (r: Option<String>)
    ensures
        r is Some <==> valid_utf8(bytes@),
        r is Some ==> encode_utf8(r.unwrap()@) == bytes@,
{
    match String::from_utf8(bytes) {
        Ok(s) => Some(s),
        Err(_) => None,
    }
}

fn get_text(bytes: &[u8], at: usize) -> (r: Option<(String, usize)>)
    requires
        at <= bytes@.len(),
    ensures
        match read_text(bytes@, at as int) {
            Some((t, next)) => r is Some && r.unwrap().0@ == t && r.unwrap().1 == next,
            None => r is None,
        },
{
    let len: usize = bytes.len();
    if len - at < 4 {
        return None;
    }
    let n: usize = get_u32(bytes, at) as usize;
    let start: usize = at + 4;
    if len - start < n {
        return None;
    }
    let body = slice_to_vec(slice_subrange(bytes, start, start + n));
    match string_from_utf8(body) {
        None => None,
        Some(text) => {
            proof {
                encode_utf8_decode_utf8(text@);
            }
            Some((text, start + n))
        },
    }
}

/// The length that a record with these texts would take, if that is under
/// the ceiling.
pub fn packed_len(vault_id: &str, user_pubkey: &str, fund_status: &str, bot_status: &str) -> (n:
    Option<usize>)
    ensures
        n == if packed_size(vault_id@, user_pubkey@, fund_status@, bot_status@)
            <= MAX_RECORD_LEN {
            Some(packed_size(vault_id@, user_pubkey@, fund_status@, bot_status@) as usize)
        } else {
            None::<usize>
        },
{
    let mut total: usize = FIXED_LEN;
    let a: usize = vault_id.as_bytes().len();
    if a > MAX_RECORD_LEN - total {
        return None;
    }
    total = total + a;
    let b: usize = user_pubkey.as_bytes().len();
    if b > MAX_RECORD_LEN - total {
        return None;
    }
    total = total + b;
    let c: usize = fund_status.as_bytes().len();
    if c > MAX_RECORD_LEN - total {
        return None;
    }
    total = total + c;
    let d: usize = bot_status.as_bytes().len();
    if d > MAX_RECORD_LEN - total {
        return None;
    }
    Some(total + d)
}

/// Encodes a record, unless its encoding would pass the ceiling.
pub fn encode(record: &VaultAccountState) -> (r: Result<Vec<u8>, VaultError>)
    ensures
        fits(record@) ==> r is Ok && r.unwrap()@ == record_bytes(record@),
        !fits(record@) ==> r == Err::<Vec<u8>, VaultError>(VaultError::RecordTooLarge),
{
    let len = packed_len(
        record.vault_id.as_str(),
        record.user_pubkey.as_str(),
        record.fund_status.as_str(),
        record.bot_status.as_str(),
    );
    match len {
        None => Err(VaultError::RecordTooLarge),
        Some(n) => {
            let mut out: Vec<u8> = Vec::with_capacity(n);
            out.push(if record.is_initialized { 1u8 } else { 0u8 });
            put_u32(&mut out, record.amount);
            put_text(&mut out, record.vault_id.as_str());
            put_text(&mut out, record.user_pubkey.as_str());
            put_text(&mut out, record.fund_status.as_str());
            put_text(&mut out, record.bot_status.as_str());
            assert(out@ =~= record_bytes(record@));
            Ok(out)
        },
    }
}

/// Whether every byte is zero.
pub fn is_blank(bytes: &[u8]) -> (b: bool)
    ensures
        b == all_zero(bytes@),
{
    let mut i: usize = 0;
    while i < bytes.len()
        invariant
            i <= bytes@.len(),
            forall|j: int| 0 <= j < i ==> bytes@[j] == 0,
        decreases bytes@.len() - i,
    {
        if bytes[i] != 0 {
            return false;
        }
        i = i + 1;
    }
    true
}

fn parse(bytes: &[u8]) -> (r: Option<VaultAccountState>)
    ensures
        match parse_record(bytes@) {
            Some(v) => r is Some && r.unwrap()@ == v,
            None => r is None,
        },
{
    if bytes.len() < 5 || bytes[0] > 1 {
        return None;
    }
    let is_initialized = bytes[0] == 1;
    let amount: u32 = get_u32(bytes, 1);
    let (vault_id, p1) = match get_text(bytes, 5) {
        None => { return None; },
        Some(found) => found,
    };
    let (user_pubkey, p2) = match get_text(bytes, p1) {
        None => { return None; },
        Some(found) => found,
    };
    let (fund_status, p3) = match get_text(bytes, p2) {
        None => { return None; },
        Some(found) => found,
    };
    let (bot_status, _) = match get_text(bytes, p3) {
        None => { return None; },
        Some(found) => found,
    };
    Some(VaultAccountState { is_initialized, vault_id, user_pubkey, amount, fund_status, bot_status })
}

/// Reads the record that a buffer begins with. A buffer that holds none is
/// unwritten if all its bytes are zero, and malformed otherwise.
pub fn decode(bytes: &[u8]) -> (r: Result<VaultAccountState, DecodeError>)
    ensures
        match decoded(bytes@) {
            Ok(v) => r is Ok && r.unwrap()@ == v,
            Err(e) => r is Err && r.unwrap_err() == e,
        },
{
    match parse(bytes) {
        Some(record) => Ok(record),
        None => if is_blank(bytes) {
            Err(DecodeError::Unwritten)
        } else {
            Err(DecodeError::Malformed)
        },
    }
}

/// Reading a stored text gives the text back, wherever it stands in a
/// buffer, and ends right behind it.
pub proof fn lemma_read_text(b: Seq<u8>, at: int, t: Seq<char>)
    requires
        0 <= at,
        at + text_bytes(t).len() <= b.len(),
        b.subrange(at, at + text_bytes(t).len()) == text_bytes(t),
        encode_utf8(t).len() <= u32::MAX,
    ensures
        read_text(b, at) == Some((t, at + 4 + encode_utf8(t).len())),
{
    let body = encode_utf8(t);
    let n = body.len() as u32;
    let stored = text_bytes(t);
    lemma_u32_le(n);
    assert(stored.len() == 4 + body.len());
    assert(b.subrange(at, at + 4) =~= stored.subrange(0, 4));
    assert(stored.subrange(0, 4) =~= u32_le(n));
    assert(b.subrange(at + 4, at + 4 + n) =~= stored.subrange(4, 4 + n));
    assert(stored.subrange(4, 4 + n) =~= body);
    encode_utf8_valid_utf8(t);
    encode_utf8_decode_utf8(t);
}

/// A text that was read stands in the buffer as its own encoding.
pub proof fn lemma_text_read(b: Seq<u8>, at: int)
    requires
        read_text(b, at) is Some,
    ensures
        ({
            let (t, next) = read_text(b, at).unwrap();
            &&& next == at + text_bytes(t).len()
            &&& next <= b.len()
            &&& encode_utf8(t).len() <= u32::MAX
            &&& b.subrange(at, next) == text_bytes(t)
        }),
{
    let prefix = b.subrange(at, at + 4);
    let n = le_u32(prefix);
    let body = b.subrange(at + 4, at + 4 + n);
    lemma_le_u32(prefix);
    decode_utf8_encode_utf8(body);
    let t = decode_utf8(body);
    assert(encode_utf8(t) == body);
    assert(b.subrange(at, at + 4 + n) =~= text_bytes(t));
}

/// Decoding inverts encoding: a buffer that begins with a record's encoding
/// decodes to that record, whatever follows it.
pub proof fn decode_inverts_encode(r: RecordView, tail: Seq<u8>)
    requires
        fits(r),
    ensures
        parse_record(record_bytes(r) + tail) == Some(r),
        decoded(record_bytes(r) + tail) == Ok::<RecordView, DecodeError>(r),
{
    let b = record_bytes(r) + tail;
    let t1 = text_bytes(r.vault_id);
    let t2 = text_bytes(r.user_pubkey);
    let t3 = text_bytes(r.fund_status);
    let t4 = text_bytes(r.bot_status);
    lemma_u32_le(r.amount);
    lemma_u32_le(encode_utf8(r.vault_id).len() as u32);
    lemma_u32_le(encode_utf8(r.user_pubkey).len() as u32);
    lemma_u32_le(encode_utf8(r.fund_status).len() as u32);
    lemma_u32_le(encode_utf8(r.bot_status).len() as u32);
    let p1 = 5 + t1.len();
    let p2 = p1 + t2.len();
    let p3 = p2 + t3.len();
    let p4 = p3 + t4.len();
    assert(record_bytes(r).len() == p4);
    assert(b.subrange(1, 5) =~= u32_le(r.amount));
    assert(b.subrange(5, p1 as int) =~= t1);
    assert(b.subrange(p1 as int, p2 as int) =~= t2);
    assert(b.subrange(p2 as int, p3 as int) =~= t3);
    assert(b.subrange(p3 as int, p4 as int) =~= t4);
    lemma_read_text(b, 5, r.vault_id);
    lemma_read_text(b, p1 as int, r.user_pubkey);
    lemma_read_text(b, p2 as int, r.fund_status);
    lemma_read_text(b, p3 as int, r.bot_status);
}

/// Whatever decodes to a record begins with that record's encoding: no two
/// records share a buffer.
pub proof fn encode_inverts_decode(b: Seq<u8>)
    requires
        parse_record(b) is Some,
    ensures
        ({
            let r = parse_record(b).unwrap();
            &&& record_len(r) <= b.len()
            &&& b.subrange(0, record_len(r) as int) == record_bytes(r)
        }),
{
    let r = parse_record(b).unwrap();
    lemma_le_u32(b.subrange(1, 5));
    lemma_text_read(b, 5);
    let p1 = read_text(b, 5).unwrap().1;
    lemma_text_read(b, p1);
    let p2 = read_text(b, p1).unwrap().1;
    lemma_text_read(b, p2);
    let p3 = read_text(b, p2).unwrap().1;
    lemma_text_read(b, p3);
    let p4 = read_text(b, p3).unwrap().1;
    lemma_u32_le(encode_utf8(r.vault_id).len() as u32);
    lemma_u32_le(encode_utf8(r.user_pubkey).len() as u32);
    lemma_u32_le(encode_utf8(r.fund_status).len() as u32);
    lemma_u32_le(encode_utf8(r.bot_status).len() as u32);
    assert(p4 == record_len(r));
    let head = seq![if r.is_initialized { 1u8 } else { 0u8 }];
    assert(b.subrange(0, 1) =~= head);
    assert(b.subrange(0, p4) =~= b.subrange(0, 1) + b.subrange(1, 5) + b.subrange(5, p1)
        + b.subrange(p1, p2) + b.subrange(p2, p3) + b.subrange(p3, p4));
}

/// Storage that was never written reads as a record that is not initialized
/// or as unwritten, never as malformed and never as a live record.
pub proof fn unwritten_is_not_live(b: Seq<u8>)
    requires
        all_zero(b),
    ensures
        match decoded(b) {
            Ok(r) => !r.is_initialized,
            Err(e) => e == DecodeError::Unwritten,
        },
{
}

} // verus!
