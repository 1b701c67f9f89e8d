use base64::Engine;
use confidential_balances::audit::{audit_transaction, extract_confidential_transfer};
use confidential_balances::crypto::derive_elgamal_pubkey;
use confidential_balances::errors::AppError;
use confidential_balances::models::AuditTransactionRequest;
use solana_zk_sdk::encryption::elgamal::ElGamalPubkey;

const AUDITOR_SIG: [u8; 64] = [44u8; 64];
const TOKEN_2022: [u8; 32] = [
    6, 221, 246, 225, 238, 117, 143, 222, 24, 66, 93, 188, 228, 108, 205, 218, 182, 26, 252, 77,
    131, 185, 13, 39, 254, 189, 249, 40, 216, 161, 139, 252,
];

fn b64(b: &[u8]) -> String {
    base64::engine::general_purpose::STANDARD.encode(b)
}

fn transfer_data(lo: &[u8], hi: &[u8]) -> Vec<u8> {
    let mut d = vec![27u8, 7];
    d.extend_from_slice(&[0u8; 36]);
    d.extend_from_slice(lo);
    d.extend_from_slice(hi);
    d.extend_from_slice(&[0, 0, 0]);
    d
}

fn transaction_at(prefix: u8, program: [u8; 32], program_index: u8, data: &[u8]) -> Vec<u8> {
    let mut t = vec![1u8];
    t.extend_from_slice(&[0u8; 64]);
    t.push(prefix);
    t.extend_from_slice(&[1, 0, 1]);
    t.push(5);
    for k in [[1u8; 32], [2u8; 32], [3u8; 32], [4u8; 32], program] {
        t.extend_from_slice(&k);
    }
    t.extend_from_slice(&[9u8; 32]);
    t.push(1);
    t.push(program_index);
    t.extend_from_slice(&[3, 1, 2, 3]);
    let n = data.len();
    if n < 128 {
        t.push(n as u8);
    } else {
        t.push((n as u8 & 0x7f) | 0x80);
        t.push((n >> 7) as u8);
    }
    t.extend_from_slice(data);
    t.push(0);
    t
}

fn transaction(prefix: u8, program: [u8; 32], data: &[u8]) -> Vec<u8> {
    transaction_at(prefix, program, 4, data)
}

fn ciphertexts(lo: u64, hi: u64) -> ([u8; 64], [u8; 64]) {
    let key = derive_elgamal_pubkey(&AUDITOR_SIG).unwrap();
    let pubkey = ElGamalPubkey::try_from(key.as_slice()).unwrap();
    (pubkey.encrypt(lo).to_bytes(), pubkey.encrypt(hi).to_bytes())
}

#[test]
fn transfer_instruction_is_found() {
    let lo = [5u8; 64];
    let hi = [6u8; 64];
    let tx = transaction(0x80, TOKEN_2022, &transfer_data(&lo, &hi));
    let t = extract_confidential_transfer(&tx).unwrap();
    assert_eq!(t.ciphertext_lo, lo.to_vec());
    assert_eq!(t.ciphertext_hi, hi.to_vec());
    assert_eq!(t.sender, vec![2u8; 32]);
    assert_eq!(t.mint, vec![3u8; 32]);
    assert_eq!(t.recipient, vec![4u8; 32]);
}

#[test]
fn transaction_errors_are_told_apart() {
    let data = transfer_data(&[5u8; 64], &[6u8; 64]);
    let legacy = transaction(0x01, TOKEN_2022, &data);
    assert_eq!(extract_confidential_transfer(&legacy).err(), Some(AppError::SerializationError));
    let other_program = transaction(0x80, [8u8; 32], &data);
    assert_eq!(
        extract_confidential_transfer(&other_program).err(),
        Some(AppError::NoConfidentialTransferFound)
    );
    let short = transaction(0x80, TOKEN_2022, &data[..100]);
    assert_eq!(extract_confidential_transfer(&short).err(), Some(AppError::InvalidInstructionData));
    let full = transaction(0x80, TOKEN_2022, &data);
    assert_eq!(
        extract_confidential_transfer(&full[..full.len() - 1]).err(),
        Some(AppError::SerializationError)
    );
}

#[test]
fn auditor_reads_amount_from_transaction() {
    let (lo, hi) = ciphertexts(0x1234, 2);
    let tx = transaction(0x80, TOKEN_2022, &transfer_data(&lo, &hi));
    let req = AuditTransactionRequest {
        transaction_signature: "sig".to_string(),
        transaction_data: b64(&tx),
        elgamal_signature: b64(&AUDITOR_SIG),
    };
    let (amount, t) = audit_transaction(&req).unwrap();
    assert_eq!(amount, 2 * 65536 + 0x1234);
    assert_eq!(t.mint, vec![3u8; 32]);
    assert_eq!(t.recipient, vec![4u8; 32]);
    let bad_sig = AuditTransactionRequest {
        transaction_signature: "sig".to_string(),
        transaction_data: b64(&tx),
        elgamal_signature: b64(&[1u8; 12]),
    };
    assert_eq!(audit_transaction(&bad_sig).err(), Some(AppError::InvalidAuditorSignature));
}

#[test]
fn program_index_outside_keys_is_refused() {
    let data = transfer_data(&[5u8; 64], &[6u8; 64]);
    let tx = transaction_at(0x80, TOKEN_2022, 9, &data);
    assert_eq!(extract_confidential_transfer(&tx).err(), Some(AppError::SerializationError));
}
