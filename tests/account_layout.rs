use confidential_balances::account::{
    decode_account, decode_mint_auditor, decode_mint_decimals, encode_account,
    ConfidentialAccountView,
};
use confidential_balances::errors::AccountDecodeError;

fn sample_view() -> ConfidentialAccountView {
    ConfidentialAccountView {
        owner: vec![2u8; 32],
        mint: vec![1u8; 32],
        elgamal_pubkey: (0..32).map(|i| i as u8).collect(),
        pending_balance_lo: vec![3u8; 64],
        pending_balance_hi: vec![4u8; 64],
        available_balance: vec![5u8; 64],
        decryptable_available_balance: vec![6u8; 36],
        pending_balance_credit_counter: 7,
        maximum_pending_balance_credit_counter: 65536,
    }
}

fn mint_bytes(decimals: u8, auditor: [u8; 32]) -> Vec<u8> {
    let mut b = vec![0u8; 82];
    b[44] = decimals;
    b[45] = 1;
    b.resize(165, 0);
    b.push(1);
    b.extend_from_slice(&[4, 0, 65, 0]);
    b.extend_from_slice(&[9u8; 32]);
    b.push(1);
    b.extend_from_slice(&auditor);
    b
}

#[test]
fn decode_of_encode_is_identity() {
    let v = sample_view();
    let bytes = encode_account(&v);
    assert_eq!(bytes.len(), 465);
    assert_eq!(decode_account(&bytes), Ok(v));
}

#[test]
fn encoded_layout_places_fields() {
    let bytes = encode_account(&sample_view());
    assert_eq!(&bytes[0..32], &[1u8; 32]);
    assert_eq!(&bytes[32..64], &[2u8; 32]);
    assert_eq!(bytes[108], 1);
    assert_eq!(bytes[165], 2);
    assert_eq!(&bytes[166..170], &[5, 0, 0x27, 0x01]);
    assert_eq!(&bytes[170 + 263..170 + 271], &7u64.to_le_bytes());
}

#[test]
fn other_extensions_are_passed_over() {
    let v = sample_view();
    let bytes = encode_account(&v);
    let mut with_other = bytes[..166].to_vec();
    with_other.extend_from_slice(&[7, 0, 0, 0]);
    with_other.extend_from_slice(&[17, 0, 2, 0, 0xaa, 0xbb]);
    with_other.extend_from_slice(&bytes[166..]);
    assert_eq!(decode_account(&with_other), Ok(v));
}

#[test]
fn truncated_account_is_refused() {
    let bytes = encode_account(&sample_view());
    assert_eq!(decode_account(&bytes[..100]), Err(AccountDecodeError::InvalidAccountData));
    assert_eq!(decode_account(&bytes[..165]), Err(AccountDecodeError::InvalidAccountData));
    assert_eq!(decode_account(&bytes[..300]), Err(AccountDecodeError::InvalidAccountData));
}

#[test]
fn uninitialized_account_is_refused() {
    let mut bytes = encode_account(&sample_view());
    bytes[108] = 0;
    assert_eq!(decode_account(&bytes), Err(AccountDecodeError::UninitializedAccount));
    bytes[108] = 3;
    assert_eq!(decode_account(&bytes), Err(AccountDecodeError::InvalidAccountData));
}

#[test]
fn missing_extension_is_refused() {
    let bytes = encode_account(&sample_view());
    let mut other = bytes[..166].to_vec();
    other.extend_from_slice(&[7, 0, 0, 0]);
    other.extend_from_slice(&[0, 0, 0, 0]);
    assert_eq!(decode_account(&other), Err(AccountDecodeError::ExtensionNotFound));
}

#[test]
fn wrong_extension_length_is_refused() {
    let mut bytes = encode_account(&sample_view());
    bytes[168] = 0x26;
    bytes.pop();
    assert_eq!(decode_account(&bytes), Err(AccountDecodeError::InvalidArgument));
}

#[test]
fn mint_kind_is_not_an_account() {
    let mut bytes = encode_account(&sample_view());
    bytes[165] = 1;
    assert_eq!(decode_account(&bytes), Err(AccountDecodeError::InvalidAccountData));
}

#[test]
fn mint_auditor_and_decimals_are_read() {
    let b = mint_bytes(6, [8u8; 32]);
    assert_eq!(decode_mint_decimals(&b), Ok(6));
    assert_eq!(decode_mint_auditor(&b), Ok(Some(vec![8u8; 32])));
    let none = mint_bytes(9, [0u8; 32]);
    assert_eq!(decode_mint_auditor(&none), Ok(None));
    assert_eq!(decode_mint_decimals(&none[..82]), Ok(9));
    assert_eq!(decode_mint_auditor(&none[..82]), Err(AccountDecodeError::InvalidAccountData));
}

#[test]
fn mint_with_dirty_padding_is_refused() {
    let mut b = mint_bytes(6, [8u8; 32]);
    b[100] = 1;
    assert_eq!(decode_mint_decimals(&b), Err(AccountDecodeError::InvalidAccountData));
    let mut u = mint_bytes(6, [8u8; 32]);
    u[45] = 0;
    assert_eq!(decode_mint_decimals(&u), Err(AccountDecodeError::UninitializedAccount));
}
