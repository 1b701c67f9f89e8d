use vstd::prelude::*;

verus! {

/// Why a serialized token account or mint could not be read.
#[derive(Clone, Copy, Debug, PartialEq, Eq, Structural)]
pub enum AccountDecodeError {
    /// The bytes are too short, malformed, or of the wrong account kind.
    InvalidAccountData,
    /// The base state is well formed but not initialized.
    UninitializedAccount,
    /// The extension list ends before the requested extension.
    ExtensionNotFound,
    /// The requested extension has a length other than its fixed size.
    InvalidArgument,
}

/// Errors of the service.
#[derive(Clone, Copy, Debug, PartialEq, Eq, Structural)]
pub enum AppError {
    InvalidAddress,
    InvalidAmount,
    SerializationError,
    ProofGeneration,
    MintMismatch,
    InvalidTransactionHash,
    TransactionFetchError,
    DecryptionError,
    TransactionDataNotFound,
    InvalidPublicKey,
    InvalidPrivateKey,
    InvalidBlockhash,
    InstructionCreationError,
    InvalidAuditorSignature,
    AuditorAccessDenied,
    NoConfidentialTransferFound,
    AmountDecodeError,
    InvalidInstructionData,
    /// A base64 field could not be decoded.
    Base64Error,
    /// Decoded bytes were not UTF-8.
    Utf8Error,
    /// A base58 string could not be decoded.
    Base58Error,
    /// Account bytes could not be read.
    AccountDecode(AccountDecodeError),
    /// A signature could not be turned into key material.
    KeyDerivation,
}

impl AppError {
    /// The HTTP status code that reports this error.
    pub fn status_code(&self) -> (r: u16)
        ensures
            r == status_of(*self),
    {
        match self {
            AppError::InvalidAddress | AppError::Base64Error | AppError::SerializationError
            | AppError::InvalidAmount | AppError::MintMismatch | AppError::InvalidTransactionHash
            | AppError::InvalidPublicKey | AppError::InvalidPrivateKey
            | AppError::InvalidBlockhash => 400,
            AppError::TransactionFetchError | AppError::TransactionDataNotFound
            | AppError::NoConfidentialTransferFound => 404,
            AppError::AmountDecodeError | AppError::InvalidInstructionData => 422,
            AppError::InvalidAuditorSignature => 401,
            AppError::AuditorAccessDenied => 403,
            _ => 500,
        }
    }
}

/// The HTTP status code of each error.
pub open spec fn status_of(e: AppError) -> u16 {
    match e {
        AppError::InvalidAddress | AppError::Base64Error | AppError::SerializationError
        | AppError::InvalidAmount | AppError::MintMismatch | AppError::InvalidTransactionHash
        | AppError::InvalidPublicKey | AppError::InvalidPrivateKey
        | AppError::InvalidBlockhash => 400,
        AppError::TransactionFetchError | AppError::TransactionDataNotFound
        | AppError::NoConfidentialTransferFound => 404,
        AppError::AmountDecodeError | AppError::InvalidInstructionData => 422,
        AppError::InvalidAuditorSignature => 401,
        AppError::AuditorAccessDenied => 403,
        _ => 500,
    }
}

} // verus!
