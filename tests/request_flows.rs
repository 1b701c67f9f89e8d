use base64::Engine;
use confidential_balances::account::{encode_account, ConfidentialAccountView};
use confidential_balances::crypto::{
    audit_amount, balance_after_debit, decrypt_balance, derive_ae_key, derive_elgamal_pubkey,
    derive_keys, encrypt_balance,
};
use confidential_balances::errors::{AccountDecodeError, AppError};
use confidential_balances::models::{
    ApplyCbRequest, CreateCbAtaRequest, CreateTestTokenTransactionRequest, DecryptCbRequest,
    DepositCbRequest, TransferCbRequest, WithdrawCbRequest,
};
use confidential_balances::pipeline::{
    decrypt_cb, prepare_apply, prepare_create, prepare_deposit, prepare_test_token,
    prepare_transfer, prepare_withdraw, reveal_elgamal_pubkey, transfer_cb_space,
    withdraw_cb_space,
};
use confidential_balances::plan::PlannedInstruction;
use confidential_balances::proofs::{
    generate_pubkey_validity_proof, generate_transfer_proofs, generate_withdraw_proofs,
};
use solana_zk_sdk::encryption::elgamal::ElGamalPubkey;

const ELGAMAL_SIG: [u8; 64] = [11u8; 64];
const AES_SIG: [u8; 64] = [22u8; 64];

fn b64(b: &[u8]) -> String {
    base64::engine::general_purpose::STANDARD.encode(b)
}

fn blockhash() -> String {
    bs58::encode([9u8; 32]).into_string()
}

fn wrapped(addr: [u8; 32]) -> String {
    b64(bs58::encode(addr).into_string().as_bytes())
}

fn account(owner: u8, mint: u8, decryptable: Vec<u8>) -> ConfidentialAccountView {
    ConfidentialAccountView {
        owner: vec![owner; 32],
        mint: vec![mint; 32],
        elgamal_pubkey: vec![0u8; 32],
        pending_balance_lo: vec![0u8; 64],
        pending_balance_hi: vec![0u8; 64],
        available_balance: vec![0u8; 64],
        decryptable_available_balance: decryptable,
        pending_balance_credit_counter: 0,
        maximum_pending_balance_credit_counter: 65536,
    }
}

fn mint_bytes(auditor: [u8; 32]) -> Vec<u8> {
    let mut b = vec![0u8; 82];
    b[44] = 9;
    b[45] = 1;
    b.resize(165, 0);
    b.push(1);
    b.extend_from_slice(&[4, 0, 65, 0]);
    b.extend_from_slice(&[0u8; 33]);
    b.extend_from_slice(&auditor);
    b
}

fn ae_key() -> Vec<u8> {
    derive_ae_key(&AES_SIG).unwrap()
}

fn transfer_request(sender: &ConfidentialAccountView, recipient: &ConfidentialAccountView, amount: &str) -> TransferCbRequest {
    TransferCbRequest {
        elgamal_signature: b64(&ELGAMAL_SIG),
        aes_signature: b64(&AES_SIG),
        sender_token_account: b64(&encode_account(sender)),
        recipient_token_account: b64(&encode_account(recipient)),
        mint_token_account: b64(&mint_bytes([0u8; 32])),
        amount: amount.to_string(),
        priority_fee: "0".to_string(),
        latest_blockhash: blockhash(),
        equality_proof_rent: "100".to_string(),
        ciphertext_validity_proof_rent: "200".to_string(),
        range_proof_rent: "300".to_string(),
    }
}

#[test]
fn key_derivation_is_deterministic() {
    let a = derive_keys(&ELGAMAL_SIG, &AES_SIG).unwrap();
    let b = derive_keys(&ELGAMAL_SIG, &AES_SIG).unwrap();
    assert_eq!(a.elgamal_pubkey, b.elgamal_pubkey);
    assert_eq!(a.elgamal_secret, b.elgamal_secret);
    assert_eq!(a.ae_key, b.ae_key);
    assert_eq!(a.elgamal_pubkey.len(), 32);
    assert_eq!(a.ae_key.len(), 16);
    let c = derive_keys(&[12u8; 64], &[23u8; 64]).unwrap();
    assert_ne!(a.elgamal_pubkey, c.elgamal_pubkey);
    assert_ne!(a.ae_key, c.ae_key);
    assert_ne!(a.elgamal_secret, ELGAMAL_SIG[..32].to_vec());
}

#[test]
fn short_signature_is_refused() {
    assert_eq!(derive_keys(&[1u8; 63], &AES_SIG).err(), Some(AppError::KeyDerivation));
    assert_eq!(derive_ae_key(&[1u8; 65]).err(), Some(AppError::KeyDerivation));
}

#[test]
fn revealed_pubkey_matches_derived_keys() {
    let keys = derive_keys(&ELGAMAL_SIG, &AES_SIG).unwrap();
    assert_eq!(reveal_elgamal_pubkey(&b64(&ELGAMAL_SIG)), Ok(keys.elgamal_pubkey.clone()));
    assert_eq!(derive_elgamal_pubkey(&ELGAMAL_SIG), Ok(keys.elgamal_pubkey));
    assert_eq!(reveal_elgamal_pubkey("not base64!"), Err(AppError::Base64Error));
}

#[test]
fn encrypted_balance_decrypts() {
    let key = ae_key();
    let ct = encrypt_balance(&key, 777);
    assert_eq!(ct.len(), 36);
    assert_eq!(decrypt_balance(&key, &ct), Some(777));
    let other = derive_ae_key(&[33u8; 64]).unwrap();
    assert_eq!(decrypt_balance(&other, &ct), None);
}

#[test]
fn debit_above_balance_is_proof_error() {
    let key = ae_key();
    let ct = encrypt_balance(&key, 500);
    assert_eq!(balance_after_debit(&key, &ct, 501).err(), Some(AppError::ProofGeneration));
    let (before, after) = balance_after_debit(&key, &ct, 200).unwrap();
    assert_eq!(before, 500);
    assert_eq!(decrypt_balance(&key, &after), Some(300));
}

#[test]
fn space_requirements_are_exact() {
    let t = transfer_cb_space();
    assert_eq!(t.equality_proof_space, 161);
    assert_eq!(t.ciphertext_validity_proof_space, 385);
    assert_eq!(t.range_proof_space, 297);
    let w = withdraw_cb_space();
    assert_eq!((w.equality_proof_space, w.range_proof_space), (161, 297));
}

#[test]
fn transfer_request_gives_five_transactions() {
    let key = ae_key();
    let sender = account(2, 1, encrypt_balance(&key, 5000));
    let recipient = account(3, 1, vec![0u8; 36]);
    let p = prepare_transfer(&transfer_request(&sender, &recipient, "1200")).unwrap();
    assert_eq!(p.transactions.len(), 5);
    assert_eq!(p.amount, 1200);
    assert_eq!(p.current_balance, 5000);
    assert_eq!(decrypt_balance(&key, &p.new_decryptable_available_balance), Some(3800));
    assert_eq!(p.mint, vec![1u8; 32]);
    assert_eq!(p.auditor_elgamal_pubkey, None);
    assert_ne!(p.sender_token_account, p.recipient_token_account);
    assert_ne!(p.sender_token_account, vec![2u8; 32]);
    assert_eq!(p.blockhash, vec![9u8; 32]);
    assert_eq!(
        p.transactions[0].instructions[0],
        PlannedInstruction::CreateContextAccount {
            kind: confidential_balances::plan::ProofKind::Range,
            lamports: 300,
            space: 297
        }
    );
}

#[test]
fn transfer_between_mints_is_refused() {
    let key = ae_key();
    let sender = account(2, 1, encrypt_balance(&key, 5000));
    let recipient = account(3, 4, vec![0u8; 36]);
    let mut req = transfer_request(&sender, &recipient, "10");
    req.elgamal_signature = "!!".to_string();
    assert_eq!(prepare_transfer(&req).err(), Some(AppError::MintMismatch));
}

#[test]
fn transfer_errors_come_in_order() {
    let key = ae_key();
    let sender = account(2, 1, encrypt_balance(&key, 5000));
    let recipient = account(3, 1, vec![0u8; 36]);
    assert_eq!(prepare_transfer(&transfer_request(&sender, &recipient, "x")).err(), Some(AppError::InvalidAmount));
    let mut req = transfer_request(&sender, &recipient, "10");
    req.range_proof_rent = "-".to_string();
    assert_eq!(prepare_transfer(&req).err(), Some(AppError::SerializationError));
    let mut req = transfer_request(&sender, &recipient, "10");
    req.sender_token_account = b64(&[1u8; 10]);
    assert_eq!(
        prepare_transfer(&req).err(),
        Some(AppError::AccountDecode(AccountDecodeError::InvalidAccountData))
    );
    assert_eq!(prepare_transfer(&transfer_request(&sender, &recipient, "5001")).err(), Some(AppError::ProofGeneration));
}

#[test]
fn withdraw_request_gives_four_transactions() {
    let key = ae_key();
    let acct = account(2, 1, encrypt_balance(&key, 900));
    let req = WithdrawCbRequest {
        elgamal_signature: b64(&ELGAMAL_SIG),
        aes_signature: b64(&AES_SIG),
        recipient_token_account: b64(&encode_account(&acct)),
        mint_account_info: b64(&mint_bytes([0u8; 32])),
        withdraw_amount_lamports: "400".to_string(),
        latest_blockhash: blockhash(),
        equality_proof_rent: "100".to_string(),
        range_proof_rent: "300".to_string(),
    };
    let p = prepare_withdraw(&req).unwrap();
    assert_eq!(p.transactions.len(), 4);
    assert_eq!(p.decimals, 9);
    assert_eq!(decrypt_balance(&key, &p.new_decryptable_available_balance), Some(500));
}

#[test]
fn withdraw_above_balance_is_proof_error() {
    let key = ae_key();
    let acct = account(2, 1, encrypt_balance(&key, 900));
    let req = WithdrawCbRequest {
        elgamal_signature: b64(&ELGAMAL_SIG),
        aes_signature: b64(&AES_SIG),
        recipient_token_account: b64(&encode_account(&acct)),
        mint_account_info: b64(&mint_bytes([0u8; 32])),
        withdraw_amount_lamports: "901".to_string(),
        latest_blockhash: blockhash(),
        equality_proof_rent: "100".to_string(),
        range_proof_rent: "300".to_string(),
    };
    assert_eq!(prepare_withdraw(&req).err(), Some(AppError::ProofGeneration));
}

#[test]
fn deposit_then_apply_then_decrypt() {
    let owner = [2u8; 32];
    let mint = [1u8; 32];
    let create = prepare_create(&CreateCbAtaRequest {
        mint: wrapped(mint),
        ata_authority: wrapped(owner),
        elgamal_signature: b64(&ELGAMAL_SIG),
        aes_signature: b64(&AES_SIG),
        latest_blockhash: blockhash(),
    })
    .unwrap();
    assert_eq!(create.maximum_pending_balance_credit_counter, 65536);
    let mut acct = account(2, 1, create.decryptable_zero_balance.clone());
    acct.elgamal_pubkey = create.keys.elgamal_pubkey.clone();
    let zero = decrypt_cb(&DecryptCbRequest {
        aes_signature: b64(&AES_SIG),
        token_account_data: b64(&encode_account(&acct)),
    });
    assert_eq!(zero, Ok(0));

    let deposit = prepare_deposit(&DepositCbRequest {
        token_account_data: b64(&encode_account(&acct)),
        lamport_amount: "1000".to_string(),
        mint_decimals: 9,
        latest_blockhash: blockhash(),
    })
    .unwrap();
    assert_eq!(deposit.amount, 1000);
    assert_eq!(deposit.token_account, create.token_account);

    let pubkey = ElGamalPubkey::try_from(acct.elgamal_pubkey.as_slice()).unwrap();
    acct.pending_balance_lo = pubkey.encrypt(1000u64).to_bytes().to_vec();
    acct.pending_balance_hi = pubkey.encrypt(0u64).to_bytes().to_vec();
    acct.pending_balance_credit_counter = 1;
    let apply = prepare_apply(&ApplyCbRequest {
        ata_authority: wrapped(owner),
        elgamal_signature: b64(&ELGAMAL_SIG),
        aes_signature: b64(&AES_SIG),
        token_account_data: b64(&encode_account(&acct)),
        latest_blockhash: blockhash(),
    })
    .unwrap();
    assert_eq!(apply.new_available_balance, 1000);
    assert_eq!(apply.expected_pending_balance_credit_counter, 1);

    acct.decryptable_available_balance = apply.new_decryptable_available_balance.clone();
    let after = decrypt_cb(&DecryptCbRequest {
        aes_signature: b64(&AES_SIG),
        token_account_data: b64(&encode_account(&acct)),
    });
    assert_eq!(after, Ok(1000));
}

#[test]
fn auditor_reads_transfer_amount() {
    let keys = derive_keys(&ELGAMAL_SIG, &AES_SIG).unwrap();
    let pubkey = ElGamalPubkey::try_from(keys.elgamal_pubkey.as_slice()).unwrap();
    let lo = pubkey.encrypt(0x1234u64).to_bytes();
    let hi = pubkey.encrypt(3u64).to_bytes();
    assert_eq!(audit_amount(&ELGAMAL_SIG, &lo, &hi), Ok(3 * 65536 + 0x1234));
    assert_eq!(audit_amount(&[1u8; 10], &lo, &hi), Err(AppError::InvalidAuditorSignature));
}

#[test]
fn test_mint_request_is_checked() {
    let req = CreateTestTokenTransactionRequest {
        account: bs58::encode([2u8; 32]).into_string(),
        mint: bs58::encode([1u8; 32]).into_string(),
        latest_blockhash: blockhash(),
        mint_rent: Some(4_000_000),
        auditor_elgamal_pubkey: Some(b64(&[4u8; 32])),
    };
    let p = prepare_test_token(&req).unwrap();
    assert_eq!(p.space, 271);
    assert_eq!(p.rent, 4_000_000);
    let no_rent = CreateTestTokenTransactionRequest {
        account: bs58::encode([2u8; 32]).into_string(),
        mint: bs58::encode([1u8; 32]).into_string(),
        latest_blockhash: blockhash(),
        mint_rent: None,
        auditor_elgamal_pubkey: None,
    };
    assert_eq!(prepare_test_token(&no_rent).err(), Some(AppError::SerializationError));
    assert_eq!(p.auditor_elgamal_pubkey, Some(vec![4u8; 32]));
    let same = CreateTestTokenTransactionRequest {
        account: bs58::encode([2u8; 32]).into_string(),
        mint: bs58::encode([2u8; 32]).into_string(),
        latest_blockhash: blockhash(),
        mint_rent: Some(10),
        auditor_elgamal_pubkey: None,
    };
    assert_eq!(prepare_test_token(&same).err(), Some(AppError::InvalidAddress));
}

#[test]
fn proofs_are_generated_for_a_covered_transfer() {
    let keys = derive_keys(&ELGAMAL_SIG, &AES_SIG).unwrap();
    let pubkey = ElGamalPubkey::try_from(keys.elgamal_pubkey.as_slice()).unwrap();
    let available = pubkey.encrypt(5000u64).to_bytes();
    let decryptable = encrypt_balance(&keys.ae_key, 5000);
    let recipient = derive_elgamal_pubkey(&[55u8; 64]).unwrap();
    let ok = generate_transfer_proofs(&keys, &available, &decryptable, 1200, &recipient, &None);
    assert!(ok.is_ok());
    let over = generate_transfer_proofs(&keys, &available, &decryptable, 5001, &recipient, &None);
    assert_eq!(over.err(), Some(AppError::ProofGeneration));
    let huge = generate_transfer_proofs(&keys, &available, &decryptable, 1u64 << 48, &recipient, &None);
    assert_eq!(huge.err(), Some(AppError::ProofGeneration));
}

#[test]
fn withdraw_proofs_refuse_overdraw() {
    let keys = derive_keys(&ELGAMAL_SIG, &AES_SIG).unwrap();
    let pubkey = ElGamalPubkey::try_from(keys.elgamal_pubkey.as_slice()).unwrap();
    let available = pubkey.encrypt(900u64).to_bytes();
    assert!(generate_withdraw_proofs(&keys, &available, 900, 400).is_ok());
    assert_eq!(
        generate_withdraw_proofs(&keys, &available, 900, 901).err(),
        Some(AppError::ProofGeneration)
    );
    assert!(generate_pubkey_validity_proof(&keys).is_ok());
}

#[test]
fn wrong_key_is_a_decryption_error() {
    let key = ae_key();
    let ct = encrypt_balance(&key, 500);
    let other = derive_ae_key(&[66u8; 64]).unwrap();
    assert_eq!(balance_after_debit(&other, &ct, 1).err(), Some(AppError::DecryptionError));
    let acct = account(2, 1, ct);
    let req = DecryptCbRequest {
        aes_signature: b64(&[66u8; 64]),
        token_account_data: b64(&encode_account(&acct)),
    };
    assert_eq!(decrypt_cb(&req), Err(AppError::SerializationError));
}

#[test]
fn oversized_audited_part_is_amount_decode_error() {
    let keys = derive_keys(&ELGAMAL_SIG, &AES_SIG).unwrap();
    let pubkey = ElGamalPubkey::try_from(keys.elgamal_pubkey.as_slice()).unwrap();
    let lo = pubkey.encrypt(1u64 << 32).to_bytes();
    let hi = pubkey.encrypt(0u64).to_bytes();
    assert_eq!(audit_amount(&ELGAMAL_SIG, &lo, &hi), Err(AppError::AmountDecodeError));
}

#[test]
fn apply_by_other_authority_is_refused() {
    let acct = account(2, 1, encrypt_balance(&ae_key(), 0));
    let req = ApplyCbRequest {
        ata_authority: wrapped([7u8; 32]),
        elgamal_signature: "not base64!".to_string(),
        aes_signature: b64(&AES_SIG),
        token_account_data: b64(&encode_account(&acct)),
        latest_blockhash: blockhash(),
    };
    assert_eq!(prepare_apply(&req).err(), Some(AppError::InvalidAddress));
}
