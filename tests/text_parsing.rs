use base64::Engine;
use confidential_balances::encoding::{
    parse_base58_pubkey, parse_base64_base58_pubkey, parse_latest_blockhash,
};
use confidential_balances::errors::AppError;
use confidential_balances::parse::{parse_priority_fee, parse_u64};

fn b64(b: &[u8]) -> String {
    base64::engine::general_purpose::STANDARD.encode(b)
}

#[test]
fn decimal_amounts_are_read() {
    assert_eq!(parse_u64("0"), Some(0));
    assert_eq!(parse_u64("1000"), Some(1000));
    assert_eq!(parse_u64("+42"), Some(42));
    assert_eq!(parse_u64("18446744073709551615"), Some(u64::MAX));
    assert_eq!(parse_u64("18446744073709551616"), None);
    assert_eq!(parse_u64("99999999999999999999999"), None);
    assert_eq!(parse_u64(""), None);
    assert_eq!(parse_u64("+"), None);
    assert_eq!(parse_u64("-1"), None);
    assert_eq!(parse_u64("12a"), None);
    assert_eq!(parse_u64(" 1"), None);
}

#[test]
fn bad_priority_fee_counts_as_zero() {
    assert_eq!(parse_priority_fee("250"), 250);
    assert_eq!(parse_priority_fee("abc"), 0);
}

#[test]
fn base58_addresses_are_read() {
    assert_eq!(parse_base58_pubkey("11111111111111111111111111111111"), Ok(vec![0u8; 32]));
    assert_eq!(parse_base58_pubkey("0OIl"), Err(AppError::InvalidAddress));
    assert_eq!(parse_base58_pubkey("2"), Err(AppError::InvalidAddress));
    let text = bs58::encode([5u8; 32]).into_string();
    assert_eq!(parse_base58_pubkey(&text), Ok(vec![5u8; 32]));
}

#[test]
fn blockhash_is_read() {
    let text = bs58::encode([9u8; 32]).into_string();
    assert_eq!(parse_latest_blockhash(&text), Ok(vec![9u8; 32]));
    assert_eq!(parse_latest_blockhash(&"xyz0".to_string()), Err(AppError::SerializationError));
    assert_eq!(parse_latest_blockhash(&"2".to_string()), Err(AppError::SerializationError));
}

#[test]
fn wrapped_addresses_are_read() {
    let text = bs58::encode([3u8; 32]).into_string();
    assert_eq!(parse_base64_base58_pubkey(&b64(text.as_bytes())), Ok(vec![3u8; 32]));
    assert_eq!(parse_base64_base58_pubkey("%%%"), Err(AppError::Base64Error));
    assert_eq!(parse_base64_base58_pubkey(&b64(&[0x80])), Err(AppError::Utf8Error));
    assert_eq!(parse_base64_base58_pubkey(&b64(b"0OIl")), Err(AppError::Base58Error));
    assert_eq!(parse_base64_base58_pubkey(&b64(b"2")), Err(AppError::InvalidAddress));
}

#[test]
fn test_all_error_variants_can_be_constructed() {
    let simple_errors = vec![
        AppError::InvalidTransactionHash,
        AppError::TransactionFetchError,
        AppError::TransactionDataNotFound,
        AppError::InvalidPublicKey,
        AppError::InvalidPrivateKey,
        AppError::InvalidBlockhash,
        AppError::InstructionCreationError,
    ];
    assert_eq!(simple_errors.len(), 7);
    let utf8_error = parse_base64_base58_pubkey(&b64(&[0x80])).unwrap_err();
    assert_eq!(utf8_error, AppError::Utf8Error);
    let base58_error = parse_base64_base58_pubkey(&b64(b"0OIl")).unwrap_err();
    assert_eq!(base58_error, AppError::Base58Error);
}

#[test]
fn errors_map_to_status_codes() {
    assert_eq!(AppError::MintMismatch.status_code(), 400);
    assert_eq!(AppError::NoConfidentialTransferFound.status_code(), 404);
    assert_eq!(AppError::AmountDecodeError.status_code(), 422);
    assert_eq!(AppError::InvalidAuditorSignature.status_code(), 401);
    assert_eq!(AppError::AuditorAccessDenied.status_code(), 403);
    assert_eq!(AppError::ProofGeneration.status_code(), 500);
}
