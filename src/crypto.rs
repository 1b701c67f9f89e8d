use vstd::prelude::*;
use crate::account::{copy_bytes, AE_CIPHERTEXT_LEN, ELGAMAL_CIPHERTEXT_LEN};
use crate::errors::AppError;

verus! {

/// Size of a ledger signature.
pub const SIGNATURE_LEN: usize = 64;
/// Size of an encoded ElGamal keypair: public key, then secret key.
pub const ELGAMAL_KEYPAIR_LEN: usize = 64;
/// Size of an ElGamal secret key.
pub const ELGAMAL_SECRET_LEN: usize = 32;
/// Size of an authenticated-encryption key.
pub const AE_KEY_LEN: usize = 16;
/// Bits of the low part of a pending balance. The token program splits
/// pending balances and transfer amounts at 16 bits, not at the 32-bit halves
/// of `amount::split_amount`.
pub const PENDING_BALANCE_LO_BITS: u64 = 16;

/// The encoded ElGamal keypair derived from the bytes of a signature.
pub uninterp spec fn elgamal_keypair_of(sig: Seq<u8>) -> Option<Seq<u8>>;

/// The authenticated-encryption key derived from the bytes of a signature.
pub uninterp spec fn ae_key_of(sig: Seq<u8>) -> Option<Seq<u8>>;

/// The amount that an authenticated-encryption ciphertext holds under a key.
pub uninterp spec fn ae_decrypt_of(key: Seq<u8>, ct: Seq<u8>) -> Option<u64>;

/// The 32-bit amount that an ElGamal ciphertext holds under a secret key.
pub uninterp spec fn elgamal_decrypt_u32_of(secret: Seq<u8>, ct: Seq<u8>) -> Option<u64>;

/// Relies on solana_zk_sdk's `ElGamalKeypair::new_from_signature_legacy`,
/// which seeds the keypair with the SHA3-512 digest of the signature (64
/// bytes, within the seed sizes it accepts, so it never fails), and on its
/// 64-byte encoding.
#[verifier::external_body]
#[allow(deprecated)]
fn elgamal_keypair_from_signature(sig: &[u8]) -> (r: Option<Vec<u8>>)
    requires
        sig@.len() == SIGNATURE_LEN,
    ensures
        match r {
            Some(k) => elgamal_keypair_of(sig@) == Some(k@) && k@.len() == ELGAMAL_KEYPAIR_LEN,
            None => elgamal_keypair_of(sig@) is None,
        },
        r is Some,
{
    let bytes: [u8; 64] = sig.try_into().unwrap();
    let keypair = solana_zk_sdk::encryption::elgamal::ElGamalKeypair::new_from_signature_legacy(
        &bytes.into(),
    ).ok()?;
    Some(<[u8; 64]>::from(&keypair).to_vec())
}

/// Relies on solana_zk_sdk's `AeKey::new_from_signature_legacy`, which seeds
/// the key with the SHA3-512 digest of the signature (64 bytes, within the
/// seed sizes it accepts, so it never fails), and on its 16-byte encoding.
#[verifier::external_body]
#[allow(deprecated)]
fn ae_key_from_signature(sig: &[u8]) -> (r: Option<Vec<u8>>)
    requires
        sig@.len() == SIGNATURE_LEN,
    ensures
        match r {
            Some(k) => ae_key_of(sig@) == Some(k@) && k@.len() == AE_KEY_LEN,
            None => ae_key_of(sig@) is None,
        },
        r is Some,
{
    let bytes: [u8; 64] = sig.try_into().unwrap();
    let key = solana_zk_sdk::encryption::auth_encryption::AeKey::new_from_signature_legacy(
        &bytes.into(),
    ).ok()?;
    Some(<[u8; 16]>::from(&key).to_vec())
}

/// Relies on solana_zk_sdk's `AeCiphertext::from_bytes` and `AeKey::decrypt`.
#[verifier::external_body]
fn ae_decrypt(key: &[u8], ct: &[u8]) -> (r: Option<u64>)
    requires
        key@.len() == AE_KEY_LEN,
        ct@.len() == AE_CIPHERTEXT_LEN,
    ensures
        r == ae_decrypt_of(key@, ct@),
{
    let key = solana_zk_sdk::encryption::auth_encryption::AeKey::try_from(key).ok()?;
    let ct = solana_zk_sdk::encryption::auth_encryption::AeCiphertext::from_bytes(ct)?;
    key.decrypt(&ct)
}

/// Relies on solana_zk_sdk's `AeKey::encrypt`, which draws a fresh nonce, and
/// on `AeCiphertext::to_bytes`: the ciphertext decrypts to the amount under
/// the same key.
#[verifier::external_body]
fn ae_encrypt(key: &[u8], amount: u64) -> (r: Vec<u8>)
    requires
        key@.len() == AE_KEY_LEN,
    ensures
        r@.len() == AE_CIPHERTEXT_LEN,
        ae_decrypt_of(key@, r@) == Some(amount),
{
    let bytes: [u8; 16] = key.try_into().unwrap();
    let key = solana_zk_sdk::encryption::auth_encryption::AeKey::from(bytes);
    key.encrypt(amount).to_bytes().to_vec()
}

/// Relies on solana_zk_sdk's `ElGamalCiphertext::from_bytes` and
/// `ElGamalSecretKey::decrypt_u32`, which gives the amount only where it is
/// below 2^32.
#[verifier::external_body]
fn elgamal_decrypt_u32(secret: &[u8], ct: &[u8]) -> (r: Option<u64>)
    requires
        secret@.len() == ELGAMAL_SECRET_LEN,
        ct@.len() == ELGAMAL_CIPHERTEXT_LEN,
    ensures
        r == elgamal_decrypt_u32_of(secret@, ct@),
        r matches Some(v) ==> v < 0x1_0000_0000,
{
    let secret = solana_zk_sdk::encryption::elgamal::ElGamalSecretKey::try_from(secret).ok()?;
    let ct = solana_zk_sdk::encryption::elgamal::ElGamalCiphertext::from_bytes(ct)?;
    secret.decrypt_u32(&ct)
}

/// Key material of one request, as plain bytes.
pub struct KeyMaterial {
    pub elgamal_pubkey: Vec<u8>,
    pub elgamal_secret: Vec<u8>,
    pub ae_key: Vec<u8>,
}

/// Key material as values.
pub struct KeyModel {
    pub elgamal_pubkey: Seq<u8>,
    pub elgamal_secret: Seq<u8>,
    pub ae_key: Seq<u8>,
}

impl View for KeyMaterial {
    type V = KeyModel;

    open spec fn view(&self) -> KeyModel {
        KeyModel {
            elgamal_pubkey: self.elgamal_pubkey@,
            elgamal_secret: self.elgamal_secret@,
            ae_key: self.ae_key@,
        }
    }
}

/// The key material derived from an ElGamal signature and an AES signature;
/// `None` where either signature has the wrong length or gives no key.
pub open spec fn derived_keys(elgamal_sig: Seq<u8>, ae_sig: Seq<u8>) -> Option<KeyModel> {
    if elgamal_sig.len() != SIGNATURE_LEN || ae_sig.len() != SIGNATURE_LEN {
        None
    } else {
        match (elgamal_keypair_of(elgamal_sig), ae_key_of(ae_sig)) {
            (Some(kp), Some(ae)) => Some(
                KeyModel {
                    elgamal_pubkey: kp.subrange(0, 32),
                    elgamal_secret: kp.subrange(32, 64),
                    ae_key: ae,
                },
            ),
            _ => None,
        }
    }
}

/// Key material has the sizes of its parts.
pub open spec fn keys_wf(k: KeyModel) -> bool {
    k.elgamal_pubkey.len() == 32 && k.elgamal_secret.len() == ELGAMAL_SECRET_LEN
        && k.ae_key.len() == AE_KEY_LEN
}

/// Derives the ElGamal keypair from one signature and the authenticated-
/// encryption key from another; fails where either signature is not 64
/// bytes long or gives no key.
pub fn derive_keys(elgamal_sig: &[u8], ae_sig: &[u8]) -> (r: Result<KeyMaterial, AppError>)
    ensures
        match r {
            Ok(k) => derived_keys(elgamal_sig@, ae_sig@) == Some(k@) && keys_wf(k@)
                && elgamal_keypair_of(elgamal_sig@) == Some(k.elgamal_pubkey@ + k.elgamal_secret@),
            Err(e) => derived_keys(elgamal_sig@, ae_sig@) is None && e == AppError::KeyDerivation,
        },
        elgamal_sig@.len() == SIGNATURE_LEN && ae_sig@.len() == SIGNATURE_LEN ==> r is Ok,
{
    if elgamal_sig.len() != SIGNATURE_LEN || ae_sig.len() != SIGNATURE_LEN {
        return Err(AppError::KeyDerivation);
    }
    let keypair = match elgamal_keypair_from_signature(elgamal_sig) {
        Some(k) => k,
        None => return Err(AppError::KeyDerivation),
    };
    let ae_key = match ae_key_from_signature(ae_sig) {
        Some(k) => k,
        None => return Err(AppError::KeyDerivation),
    };
    let k = KeyMaterial {
        elgamal_pubkey: copy_bytes(keypair.as_slice(), 0, 32),
        elgamal_secret: copy_bytes(keypair.as_slice(), 32, 64),
        ae_key,
    };
    assert(keypair@ =~= k.elgamal_pubkey@ + k.elgamal_secret@);
    Ok(k)
}

/// Key derivation is a function of the signature bytes: signatures with the
/// same bytes give the same ElGamal keypair and the same symmetric key.
pub proof fn lemma_derivation_deterministic(
    elgamal_sig1: Seq<u8>,
    ae_sig1: Seq<u8>,
    elgamal_sig2: Seq<u8>,
    ae_sig2: Seq<u8>,
)
    requires
        elgamal_sig1 == elgamal_sig2,
        ae_sig1 == ae_sig2,
    ensures
        derived_keys(elgamal_sig1, ae_sig1) == derived_keys(elgamal_sig2, ae_sig2),
{
}

/// Decrypts the balance held by an authenticated-encryption ciphertext.
pub fn decrypt_balance(ae_key: &[u8], ct: &[u8]) -> (r: Option<u64>)
    requires
        ae_key@.len() == AE_KEY_LEN,
        ct@.len() == AE_CIPHERTEXT_LEN,
    ensures
        r == ae_decrypt_of(ae_key@, ct@),
{
    ae_decrypt(ae_key, ct)
}

/// Encrypts a balance under an authenticated-encryption key.
pub fn encrypt_balance(ae_key: &[u8], amount: u64) -> (r: Vec<u8>)
    requires
        ae_key@.len() == AE_KEY_LEN,
    ensures
        r@.len() == AE_CIPHERTEXT_LEN,
        ae_decrypt_of(ae_key@, r@) == Some(amount),
{
    ae_encrypt(ae_key, amount)
}

/// The available balance left after spending `amount` from the available
/// balance `current`, encrypted under `ae_key`: the spend fails with a
/// proof-generation error where it exceeds the balance, and with a
/// decryption error where the key does not open the balance.
pub fn balance_after_debit(ae_key: &[u8], current: &[u8], amount: u64) -> (r: Result<
    (u64, Vec<u8>),
    AppError,
>)
    requires
        ae_key@.len() == AE_KEY_LEN,
        current@.len() == AE_CIPHERTEXT_LEN,
    ensures
        match ae_decrypt_of(ae_key@, current@) {
            None => r == Err::<(u64, Vec<u8>), AppError>(AppError::DecryptionError),
            Some(b) => if amount > b {
                r == Err::<(u64, Vec<u8>), AppError>(AppError::ProofGeneration)
            } else {
                r is Ok && r->Ok_0.0 == b && ae_decrypt_of(ae_key@, r->Ok_0.1@) == Some(
                    (b - amount) as u64,
                ) && r->Ok_0.1@.len() == AE_CIPHERTEXT_LEN
            },
        },
{
    let balance = match ae_decrypt(ae_key, current) {
        Some(b) => b,
        None => return Err(AppError::DecryptionError),
    };
    if amount > balance {
        return Err(AppError::ProofGeneration);
    }
    Ok((balance, ae_encrypt(ae_key, balance - amount)))
}

/// The pending balance that a low part and a high part stand for: the high
/// part counts from bit 16, as the token program splits it.
pub open spec fn pending_total(lo: u64, hi: u64) -> int {
    lo as int + hi as int * 0x1_0000
}

/// The available balance after the pending balance is folded in, encrypted
/// under the key: the pending parts are opened with the ElGamal secret key,
/// the available balance with the symmetric key, and the sum is encrypted
/// again. Fails with a decryption error where a part does not open or the
/// sum exceeds 64 bits.
pub fn balance_after_apply(
    keys: &KeyMaterial,
    pending_lo: &[u8],
    pending_hi: &[u8],
    available: &[u8],
) -> (r: Result<(u64, Vec<u8>), AppError>)
    requires
        keys_wf(keys@),
        pending_lo@.len() == ELGAMAL_CIPHERTEXT_LEN,
        pending_hi@.len() == ELGAMAL_CIPHERTEXT_LEN,
        available@.len() == AE_CIPHERTEXT_LEN,
    ensures
        match (
            elgamal_decrypt_u32_of(keys.elgamal_secret@, pending_lo@),
            elgamal_decrypt_u32_of(keys.elgamal_secret@, pending_hi@),
            ae_decrypt_of(keys.ae_key@, available@),
        ) {
            (Some(lo), Some(hi), Some(a)) => if a + pending_total(lo, hi) <= u64::MAX {
                r is Ok && r->Ok_0.0 == a + pending_total(lo, hi) && ae_decrypt_of(
                    keys.ae_key@,
                    r->Ok_0.1@,
                ) == Some(r->Ok_0.0) && r->Ok_0.1@.len() == AE_CIPHERTEXT_LEN
            } else {
                r == Err::<(u64, Vec<u8>), AppError>(AppError::DecryptionError)
            },
            _ => r == Err::<(u64, Vec<u8>), AppError>(AppError::DecryptionError),
        },
{
    let lo = match elgamal_decrypt_u32(keys.elgamal_secret.as_slice(), pending_lo) {
        Some(v) => v,
        None => return Err(AppError::DecryptionError),
    };
    let hi = match elgamal_decrypt_u32(keys.elgamal_secret.as_slice(), pending_hi) {
        Some(v) => v,
        None => return Err(AppError::DecryptionError),
    };
    let a = match ae_decrypt(keys.ae_key.as_slice(), available) {
        Some(v) => v,
        None => return Err(AppError::DecryptionError),
    };
    let pending: u64 = lo + hi * 0x1_0000;
    if a > u64::MAX - pending {
        return Err(AppError::DecryptionError);
    }
    let total = a + pending;
    Ok((total, ae_encrypt(keys.ae_key.as_slice(), total)))
}

/// The ElGamal public key that a signature derives.
pub open spec fn derived_elgamal_pubkey(sig: Seq<u8>) -> Option<Seq<u8>> {
    if sig.len() != SIGNATURE_LEN {
        None
    } else {
        match elgamal_keypair_of(sig) {
            Some(kp) => Some(kp.subrange(0, 32)),
            None => None,
        }
    }
}

/// The authenticated-encryption key that a signature derives.
pub open spec fn derived_ae_key(sig: Seq<u8>) -> Option<Seq<u8>> {
    if sig.len() != SIGNATURE_LEN {
        None
    } else {
        ae_key_of(sig)
    }
}

/// Derives the ElGamal public key from a signature.
pub fn derive_elgamal_pubkey(sig: &[u8]) -> (r: Result<Vec<u8>, AppError>)
    ensures
        match r {
            Ok(k) => derived_elgamal_pubkey(sig@) == Some(k@) && k@.len() == 32,
            Err(e) => derived_elgamal_pubkey(sig@) is None && e == AppError::KeyDerivation,
        },
        sig@.len() == SIGNATURE_LEN ==> r is Ok,
{
    if sig.len() != SIGNATURE_LEN {
        return Err(AppError::KeyDerivation);
    }
    match elgamal_keypair_from_signature(sig) {
        Some(k) => Ok(copy_bytes(k.as_slice(), 0, 32)),
        None => Err(AppError::KeyDerivation),
    }
}

/// Derives the authenticated-encryption key from a signature.
pub fn derive_ae_key(sig: &[u8]) -> (r: Result<Vec<u8>, AppError>)
    ensures
        match r {
            Ok(k) => derived_ae_key(sig@) == Some(k@) && k@.len() == AE_KEY_LEN,
            Err(e) => derived_ae_key(sig@) is None && e == AppError::KeyDerivation,
        },
        sig@.len() == SIGNATURE_LEN ==> r is Ok,
{
    if sig.len() != SIGNATURE_LEN {
        return Err(AppError::KeyDerivation);
    }
    match ae_key_from_signature(sig) {
        Some(k) => Ok(k),
        None => Err(AppError::KeyDerivation),
    }
}

/// Bits of the low part of an audited transfer amount: the token program
/// splits transfer amounts at 16 bits, not at the 32-bit halves of
/// `amount::split_amount`.
pub const TRANSFER_AMOUNT_LO_BITS: u64 = 16;

/// The transfer amount that an auditor reads from the two ciphertexts of a
/// transfer, under the keypair that the auditor's signature derives.
pub open spec fn audited_amount(sig: Seq<u8>, ct_lo: Seq<u8>, ct_hi: Seq<u8>) -> Result<
    u64,
    AppError,
> {
    if sig.len() != SIGNATURE_LEN {
        Err(AppError::InvalidAuditorSignature)
    } else {
        match elgamal_keypair_of(sig) {
            None => Err(AppError::AuditorAccessDenied),
            Some(kp) => match (
                elgamal_decrypt_u32_of(kp.subrange(32, 64), ct_lo),
                elgamal_decrypt_u32_of(kp.subrange(32, 64), ct_hi),
            ) {
                (Some(lo), Some(hi)) => Ok((lo + hi * 0x1_0000) as u64),
                _ => Err(AppError::AmountDecodeError),
            },
        }
    }
}

/// Reads the amount of a transfer as its auditor: the low and high parts
/// are opened with the auditor's secret key and recombined.
pub fn audit_amount(sig: &[u8], ct_lo: &[u8], ct_hi: &[u8]) -> (r: Result<u64, AppError>)
    requires
        ct_lo@.len() == ELGAMAL_CIPHERTEXT_LEN,
        ct_hi@.len() == ELGAMAL_CIPHERTEXT_LEN,
    ensures
        r == audited_amount(sig@, ct_lo@, ct_hi@),
{
    if sig.len() != SIGNATURE_LEN {
        return Err(AppError::InvalidAuditorSignature);
    }
    let keypair = match elgamal_keypair_from_signature(sig) {
        Some(k) => k,
        None => return Err(AppError::AuditorAccessDenied),
    };
    let secret = copy_bytes(keypair.as_slice(), 32, 64);
    let lo = match elgamal_decrypt_u32(secret.as_slice(), ct_lo) {
        Some(v) => v,
        None => return Err(AppError::AmountDecodeError),
    };
    let hi = match elgamal_decrypt_u32(secret.as_slice(), ct_hi) {
        Some(v) => v,
        None => return Err(AppError::AmountDecodeError),
    };
    Ok(lo + hi * 0x1_0000)
}

} // verus!
