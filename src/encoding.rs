use vstd::prelude::*;
use vstd::utf8::{decode_utf8, valid_utf8};
use base64::Engine;
use crate::account::ADDRESS_LEN;
use crate::errors::AppError;

verus! {

/// The bytes that a text writes in standard, padded base64.
pub uninterp spec fn base64_decoded_of(s: Seq<char>) -> Option<Seq<u8>>;

/// The bytes that a text writes in the Bitcoin base58 alphabet.
pub uninterp spec fn base58_decoded_of(s: Seq<char>) -> Option<Seq<u8>>;

/// Relies on base64's `STANDARD` engine, `Engine::decode`.
#[verifier::external_body]
fn base64_decode(s: &str) -> (r: Option<Vec<u8>>)
    ensures
        match r {
            Some(b) => base64_decoded_of(s@) == Some(b@),
            None => base64_decoded_of(s@) is None,
        },
{
    base64::engine::general_purpose::STANDARD.decode(s).ok()
}

/// Relies on bs58's `decode(..).into_vec()`.
#[verifier::external_body]
fn base58_decode(s: &str) -> (r: Option<Vec<u8>>)
    ensures
        match r {
            Some(b) => base58_decoded_of(s@) == Some(b@),
            None => base58_decoded_of(s@) is None,
        },
{
    bs58::decode(s).into_vec().ok()
}

/// Relies on std's `String::from_utf8`, which accepts exactly the valid
/// UTF-8 byte strings.
#[verifier::external_body]
fn utf8_string(b: Vec<u8>) -> (r: Option<String>)
    ensures
        r is Some <==> valid_utf8(b@),
        r matches Some(s) ==> s@ == decode_utf8(b@),
{
    String::from_utf8(b).ok()
}

/// Decodes a standard base64 field.
pub fn decode_base64_field(s: &str) -> (r: Result<Vec<u8>, AppError>)
    ensures
        match base64_decoded_of(s@) {
            Some(b) => r is Ok && r->Ok_0@ == b,
            None => r == Err::<Vec<u8>, AppError>(AppError::Base64Error),
        },
{
    match base64_decode(s) {
        Some(b) => Ok(b),
        None => Err(AppError::Base64Error),
    }
}

/// The 32 bytes of an address written in base58, or the error that says why
/// there are none.
pub open spec fn base58_address(s: Seq<char>, err: AppError) -> Result<Seq<u8>, AppError> {
    match base58_decoded_of(s) {
        Some(b) => if b.len() == ADDRESS_LEN {
            Ok(b)
        } else {
            Err(AppError::InvalidAddress)
        },
        None => Err(err),
    }
}

/// Reads an address written in base58; it must be 32 bytes long.
pub fn parse_base58_pubkey(address: &str) -> (r: Result<Vec<u8>, AppError>)
    ensures
        match r {
            Ok(b) => base58_address(address@, AppError::InvalidAddress) == Ok::<
                Seq<u8>,
                AppError,
            >(b@),
            Err(e) => base58_address(address@, AppError::InvalidAddress) == Err::<
                Seq<u8>,
                AppError,
            >(e),
        },
{
    match base58_decode(address) {
        Some(b) => if b.len() == ADDRESS_LEN {
            Ok(b)
        } else {
            Err(AppError::InvalidAddress)
        },
        None => Err(AppError::InvalidAddress),
    }
}

/// What reading a blockhash gives: the 32 bytes it writes in base58.
pub open spec fn parsed_blockhash(s: Seq<char>) -> Result<Seq<u8>, AppError> {
    match base58_decoded_of(s) {
        Some(b) => if b.len() == 32 {
            Ok(b)
        } else {
            Err(AppError::SerializationError)
        },
        None => Err(AppError::SerializationError),
    }
}

/// Reads a recent blockhash written in base58.
pub fn parse_latest_blockhash(latest_blockhash: &String) -> (r: Result<Vec<u8>, AppError>)
    ensures
        match r {
            Ok(b) => parsed_blockhash(latest_blockhash@) == Ok::<Seq<u8>, AppError>(b@),
            Err(e) => parsed_blockhash(latest_blockhash@) == Err::<Seq<u8>, AppError>(e),
        },
{
    match base58_decode(latest_blockhash.as_str()) {
        Some(b) => if b.len() == 32 {
            Ok(b)
        } else {
            Err(AppError::SerializationError)
        },
        None => Err(AppError::SerializationError),
    }
}

/// What reading an address written in base58 and then wrapped in base64
/// gives.
pub open spec fn parsed_wrapped_address(s: Seq<char>) -> Result<Seq<u8>, AppError> {
    match base64_decoded_of(s) {
        None => Err(AppError::Base64Error),
        Some(b) => if !valid_utf8(b) {
            Err(AppError::Utf8Error)
        } else {
            base58_address(decode_utf8(b), AppError::Base58Error)
        },
    }
}

/// Reads an address written in base58, then wrapped in base64.
pub fn parse_base64_base58_pubkey(encoded_address: &str) -> (r: Result<Vec<u8>, AppError>)
    ensures
        match r {
            Ok(b) => parsed_wrapped_address(encoded_address@) == Ok::<Seq<u8>, AppError>(b@),
            Err(e) => parsed_wrapped_address(encoded_address@) == Err::<Seq<u8>, AppError>(e),
        },
{
    let bytes = match base64_decode(encoded_address) {
        Some(b) => b,
        None => return Err(AppError::Base64Error),
    };
    let text = match utf8_string(bytes) {
        Some(t) => t,
        None => return Err(AppError::Utf8Error),
    };
    match base58_decode(text.as_str()) {
        Some(b) => if b.len() == ADDRESS_LEN {
            Ok(b)
        } else {
            Err(AppError::InvalidAddress)
        },
        None => Err(AppError::Base58Error),
    }
}

} // verus!
