use vstd::prelude::*;
use crate::account::append;
use crate::crypto::{ae_decrypt_of, elgamal_keypair_of, KeyMaterial};
use crate::errors::AppError;
use solana_zk_sdk::encryption::auth_encryption::{AeCiphertext, AeKey};
use solana_zk_sdk::encryption::elgamal::{ElGamalCiphertext, ElGamalKeypair, ElGamalPubkey};
use solana_zk_elgamal_proof_interface::proof_data::PubkeyValidityProofData;
use solana_zk_sdk::zk_elgamal_proof_program::build_pubkey_validity_proof_data;
use spl_token_confidential_transfer_proof_generation::transfer::{
    transfer_split_proof_data, TransferProofData,
};
use spl_token_confidential_transfer_proof_generation::withdraw::{
    withdraw_proof_data, WithdrawProofData,
};

verus! {

/// The equality, ciphertext-validity and range proof data of a transfer,
/// with the auditor's ciphertexts of the amount.
#[verifier::external_type_specification]
#[verifier::external_body]
pub struct ExTransferProofData(TransferProofData);

/// The equality and range proof data of a withdrawal.
#[verifier::external_type_specification]
#[verifier::external_body]
pub struct ExWithdrawProofData(WithdrawProofData);

/// The proof that an ElGamal public key is well formed.
#[verifier::external_type_specification]
#[verifier::external_body]
pub struct ExPubkeyValidityProofData(PubkeyValidityProofData);

/// Relies on solana_zk_sdk's `build_pubkey_validity_proof_data`, which never
/// fails, with the keypair read by `ElGamalKeypair::try_from`, which reads
/// back every encoding that signature derivation gives.
#[verifier::external_body]
fn pubkey_validity_proof(keypair: &[u8]) -> (r: Option<PubkeyValidityProofData>)
    ensures
        (exists|sig: Seq<u8>| #[trigger] elgamal_keypair_of(sig) == Some(keypair@)) ==> r is Some,
{
    let keypair = ElGamalKeypair::try_from(keypair).ok()?;
    build_pubkey_validity_proof_data(&keypair).ok()
}

/// Relies on spl_token_confidential_transfer_proof_generation's
/// `transfer_split_proof_data`, which refuses a balance that the symmetric
/// key does not open and an amount above the balance it opens; the arguments are read with solana_zk_sdk's byte
/// conversions.
#[verifier::external_body]
fn split_transfer_proofs(
    available: &[u8],
    decryptable: &[u8],
    amount: u64,
    keypair: &[u8],
    ae_key: &[u8],
    recipient: &[u8],
    auditor: Option<&[u8]>,
) -> (r: Option<TransferProofData>)
    ensures
        ae_decrypt_of(ae_key@, decryptable@) is None ==> r is None,
        ae_decrypt_of(ae_key@, decryptable@) matches Some(b) && amount > b ==> r is None,
{
    let available = ElGamalCiphertext::from_bytes(available)?;
    let current = AeCiphertext::from_bytes(decryptable)?;
    let keypair = ElGamalKeypair::try_from(keypair).ok()?;
    let aes = AeKey::try_from(ae_key).ok()?;
    let recipient = ElGamalPubkey::try_from(recipient).ok()?;
    let auditor = match auditor {
        Some(a) => Some(ElGamalPubkey::try_from(a).ok()?),
        None => None,
    };
    let auditor = auditor.as_ref();
    transfer_split_proof_data(&available, &current, amount, &keypair, &aes, &recipient, auditor)
        .ok()
}

/// Relies on spl_token_confidential_transfer_proof_generation's
/// `withdraw_proof_data`, which refuses an amount above the current
/// balance; the arguments are read with solana_zk_sdk's byte conversions.
#[verifier::external_body]
fn withdraw_proofs(available: &[u8], balance: u64, amount: u64, keypair: &[u8]) -> (r: Option<
    WithdrawProofData,
>)
    ensures
        amount > balance ==> r is None,
{
    let available = ElGamalCiphertext::from_bytes(available)?;
    let keypair = ElGamalKeypair::try_from(keypair).ok()?;
    withdraw_proof_data(&available, balance, amount, &keypair).ok()
}

/// The encoded ElGamal keypair of key material: public key, then secret key.
fn keypair_bytes(keys: &KeyMaterial) -> (r: Vec<u8>)
    ensures
        r@ == keys.elgamal_pubkey@ + keys.elgamal_secret@,
{
    let mut out: Vec<u8> = Vec::new();
    append(&mut out, keys.elgamal_pubkey.as_slice());
    append(&mut out, keys.elgamal_secret.as_slice());
    assert(out@ =~= keys.elgamal_pubkey@ + keys.elgamal_secret@);
    out
}

/// Generates the proofs of a transfer of `amount` from an account whose
/// available balance is `available` (ElGamal) and `decryptable` (symmetric)
/// to the holder of `recipient`, readable by `auditor`. The proof library
/// refuses, among others, a balance the key does not open and an amount
/// above the balance; every refusal is a proof-generation error.
pub fn generate_transfer_proofs(
    keys: &KeyMaterial,
    available: &[u8],
    decryptable: &[u8],
    amount: u64,
    recipient: &[u8],
    auditor: &Option<Vec<u8>>,
) -> (r: Result<TransferProofData, AppError>)
    ensures
        r is Err ==> r == Err::<TransferProofData, AppError>(AppError::ProofGeneration),
        match ae_decrypt_of(keys.ae_key@, decryptable@) {
            None => true,
            Some(b) => amount > b,
        } ==> r == Err::<TransferProofData, AppError>(AppError::ProofGeneration),
{
    let keypair = keypair_bytes(keys);
    let auditor_key = match auditor {
        Some(a) => Some(a.as_slice()),
        None => None,
    };
    match split_transfer_proofs(
        available,
        decryptable,
        amount,
        keypair.as_slice(),
        keys.ae_key.as_slice(),
        recipient,
        auditor_key,
    ) {
        Some(p) => Ok(p),
        None => Err(AppError::ProofGeneration),
    }
}

/// Generates the proofs of a withdrawal of `amount` from an account whose
/// available balance is `available` (ElGamal) and `balance` in plain; an
/// amount above the balance, or any other refusal of the proof library, is
/// a proof-generation error.
pub fn generate_withdraw_proofs(
    keys: &KeyMaterial,
    available: &[u8],
    balance: u64,
    amount: u64,
) -> (r: Result<WithdrawProofData, AppError>)
    ensures
        r is Err ==> r == Err::<WithdrawProofData, AppError>(AppError::ProofGeneration),
        amount > balance ==> r == Err::<WithdrawProofData, AppError>(AppError::ProofGeneration),
{
    let keypair = keypair_bytes(keys);
    match withdraw_proofs(available, balance, amount, keypair.as_slice()) {
        Some(p) => Ok(p),
        None => Err(AppError::ProofGeneration),
    }
}

/// Generates the proof that the ElGamal public key of the key material is
/// well formed, which configuring an account carries inline. It is made for
/// every keypair that a signature derives; a refusal of the proof library is
/// a proof-generation error.
pub fn generate_pubkey_validity_proof(keys: &KeyMaterial) -> (r: Result<
    PubkeyValidityProofData,
    AppError,
>)
    ensures
        r is Err ==> r == Err::<PubkeyValidityProofData, AppError>(AppError::ProofGeneration),
        (exists|sig: Seq<u8>|
            #[trigger] elgamal_keypair_of(sig) == Some(keys.elgamal_pubkey@ + keys.elgamal_secret@))
            ==> r is Ok,
{
    let keypair = keypair_bytes(keys);
    match pubkey_validity_proof(keypair.as_slice()) {
        Some(p) => Ok(p),
        None => Err(AppError::ProofGeneration),
    }
}

} // verus!
