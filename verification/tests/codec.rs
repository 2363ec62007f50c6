use borsh::BorshDeserialize;
use vault_program::codec::{decode, encode, is_blank, packed_len, FIXED_LEN, MAX_RECORD_LEN};
use vault_program::error::{DecodeError, VaultError};
use vault_program::ledger::{load, store};
use vault_program::state::VaultAccountState;

fn record(amount: u32, vault_id: &str, user: &str, fund: &str, bot: &str) -> VaultAccountState {
    VaultAccountState {
        is_initialized: true,
        vault_id: vault_id.to_string(),
        user_pubkey: user.to_string(),
        amount,
        fund_status: fund.to_string(),
        bot_status: bot.to_string(),
    }
}

#[test]
fn encode_lays_the_fields_out_in_order() {
    let bytes = encode(&record(0x0102_0304, "v1", "u", "", "ok")).unwrap();
    let expected: Vec<u8> = vec![
        1, 0x04, 0x03, 0x02, 0x01, 2, 0, 0, 0, b'v', b'1', 1, 0, 0, 0, b'u', 0, 0, 0, 0, 2, 0, 0,
        0, b'o', b'k',
    ];
    assert_eq!(bytes, expected);
}

#[test]
fn encode_agrees_with_borsh() {
    let r = record(4_000_000_000, "vault-7", "alice", "funded", "running");
    let ours = encode(&r).unwrap();
    let theirs = borsh::to_vec(&(
        true,
        4_000_000_000u32,
        "vault-7".to_string(),
        "alice".to_string(),
        "funded".to_string(),
        "running".to_string(),
    ))
    .unwrap();
    assert_eq!(ours, theirs);
}

#[test]
fn decode_agrees_with_borsh() {
    let bytes = borsh::to_vec(&(
        true,
        77u32,
        "v".to_string(),
        "bob".to_string(),
        "f".to_string(),
        "b".to_string(),
    ))
    .unwrap();
    assert_eq!(decode(&bytes).unwrap(), record(77, "v", "bob", "f", "b"));
    let mut slice: &[u8] = &bytes;
    let theirs =
        <(bool, u32, String, String, String, String)>::deserialize(&mut slice).unwrap();
    assert_eq!(theirs.1, 77);
    assert_eq!(theirs.3, "bob");
}

#[test]
fn decode_inverts_encode() {
    let r = record(123_456, "vault", "user-key", "active", "idle");
    let bytes = encode(&r).unwrap();
    assert_eq!(decode(&bytes).unwrap(), r);
}

#[test]
fn decode_keeps_text_beyond_ascii() {
    let r = record(1, "väult", "ユーザー", "✓", "🙂");
    let bytes = encode(&r).unwrap();
    assert_eq!(bytes.len(), 21 + 6 + 12 + 3 + 4);
    assert_eq!(decode(&bytes).unwrap(), r);
}

#[test]
fn decode_ignores_what_follows_the_record() {
    let r = record(9, "v", "u", "f", "b");
    let mut bytes = encode(&r).unwrap();
    bytes.extend_from_slice(&[0xff, 0, 3, 0, 0]);
    assert_eq!(decode(&bytes).unwrap(), r);
}

#[test]
fn decode_of_an_empty_buffer_is_unwritten() {
    assert_eq!(decode(&[]), Err(DecodeError::Unwritten));
}

#[test]
fn decode_of_short_zeroes_is_unwritten() {
    assert_eq!(decode(&[0u8; 20]), Err(DecodeError::Unwritten));
}

#[test]
fn decode_of_zeroed_storage_is_a_record_not_initialized() {
    let r = decode(&[0u8; 1000]).unwrap();
    assert!(!r.is_initialized());
    assert_eq!(r.amount, 0);
    assert_eq!(r.vault_id, "");
    assert_eq!(r.user_pubkey, "");
}

#[test]
fn decode_rejects_a_flag_that_is_no_bool() {
    let mut bytes = encode(&record(9, "v", "u", "f", "b")).unwrap();
    bytes[0] = 2;
    assert_eq!(decode(&bytes), Err(DecodeError::Malformed));
}

#[test]
fn decode_rejects_a_length_past_the_end() {
    let mut bytes = encode(&record(9, "v", "u", "f", "b")).unwrap();
    let last = bytes.len() - 1;
    bytes.truncate(last);
    assert_eq!(decode(&bytes), Err(DecodeError::Malformed));
}

#[test]
fn decode_rejects_a_huge_length() {
    let mut bytes = vec![1u8, 0, 0, 0, 0, 0xff, 0xff, 0xff, 0xff];
    bytes.extend_from_slice(&[0u8; 40]);
    assert_eq!(decode(&bytes), Err(DecodeError::Malformed));
}

#[test]
fn decode_rejects_text_that_is_not_utf8() {
    let mut bytes = encode(&record(9, "v", "u", "f", "b")).unwrap();
    bytes[9] = 0xff;
    assert_eq!(decode(&bytes), Err(DecodeError::Malformed));
}

#[test]
fn is_blank_tells_zeroes_from_data() {
    assert!(is_blank(&[]));
    assert!(is_blank(&[0, 0, 0]));
    assert!(!is_blank(&[0, 0, 1]));
}

#[test]
fn packed_len_counts_every_field() {
    assert_eq!(FIXED_LEN, 21);
    assert_eq!(MAX_RECORD_LEN, 1000);
    assert_eq!(packed_len("", "", "", ""), Some(21));
    assert_eq!(packed_len("ab", "c", "def", "ghij"), Some(31));
    assert_eq!(packed_len("é", "", "", ""), Some(23));
}

#[test]
fn a_record_of_exactly_the_ceiling_is_accepted() {
    let fund = "f".repeat(500);
    let bot = "b".repeat(1000 - 21 - 500 - 2);
    assert_eq!(packed_len("v", "u", &fund, &bot), Some(1000));
    let r = record(1, "v", "u", &fund, &bot);
    let bytes = encode(&r).unwrap();
    assert_eq!(bytes.len(), 1000);
    assert_eq!(decode(&bytes).unwrap(), r);
}

#[test]
fn a_record_one_byte_over_the_ceiling_is_rejected() {
    let fund = "f".repeat(500);
    let bot = "b".repeat(1000 - 21 - 500 - 2 + 1);
    assert_eq!(packed_len("v", "u", &fund, &bot), None);
    assert_eq!(encode(&record(1, "v", "u", &fund, &bot)), Err(VaultError::RecordTooLarge));
}

#[test]
fn load_tells_live_from_unwritten_from_corrupt() {
    assert_eq!(load(&[0u8; 64]), Ok(None));
    assert_eq!(load(&[]), Ok(None));
    let bytes = encode(&record(3, "v", "u", "f", "b")).unwrap();
    assert_eq!(load(&bytes), Ok(Some(record(3, "v", "u", "f", "b"))));
    let mut unset = bytes.clone();
    unset[0] = 0;
    assert_eq!(load(&unset), Ok(None));
    let mut broken = bytes.clone();
    broken[0] = 7;
    assert_eq!(load(&broken), Err(VaultError::DecodeCorruption));
}

#[test]
fn store_writes_over_the_beginning_and_keeps_the_rest() {
    let data = vec![0xaau8; 40];
    let r = record(3, "v", "u", "f", "b");
    let out = store(&data, &r).unwrap();
    let encoded = encode(&r).unwrap();
    assert_eq!(encoded.len(), 25);
    assert_eq!(out.len(), 40);
    assert_eq!(&out[..25], &encoded[..]);
    assert_eq!(&out[25..], &[0xaau8; 15][..]);
}

#[test]
fn store_rejects_a_record_longer_than_the_storage() {
    let r = record(3, "v", "u", "f", "b");
    assert_eq!(store(&vec![0u8; 24], &r), Err(VaultError::RecordTooLarge));
    assert!(store(&vec![0u8; 25], &r).is_ok());
}

#[test]
fn clone_keeps_every_field() {
    let r = record(3, "v", "u", "f", "b");
    assert_eq!(r.clone(), r);
}
