use vstd::prelude::*;

verus! {

/// A request that names one account.
pub struct TransactionRequest {
    pub account: String,
}

/// One unsigned transaction, base64-encoded, with a status message.
pub struct TransactionResponse {
    pub transaction: String,
    pub message: String,
}

/// Unsigned transactions, base64-encoded, to be submitted in order, with a
/// status message.
pub struct MultiTransactionResponse {
    pub transactions: Vec<String>,
    pub message: String,
}

/// Creation of a confidential token account.
pub struct CreateCbAtaRequest {
    /// The mint, base58 text wrapped in base64.
    pub mint: String,
    /// The owner, base58 text wrapped in base64.
    pub ata_authority: String,
    /// Signature for the ElGamal key, base64.
    pub elgamal_signature: String,
    /// Signature for the symmetric key, base64.
    pub aes_signature: String,
    /// Recent blockhash, base58.
    pub latest_blockhash: String,
}

/// Deposit of public tokens into the pending confidential balance.
pub struct DepositCbRequest {
    /// The token account's bytes, base64.
    pub token_account_data: String,
    /// The amount, in decimal.
    pub lamport_amount: String,
    pub mint_decimals: u8,
    pub latest_blockhash: String,
}

/// Folding of the pending balance into the available balance.
pub struct ApplyCbRequest {
    pub ata_authority: String,
    pub elgamal_signature: String,
    pub aes_signature: String,
    pub token_account_data: String,
    pub latest_blockhash: String,
}

/// Confidential transfer between two token accounts of one mint.
pub struct TransferCbRequest {
    pub elgamal_signature: String,
    pub aes_signature: String,
    /// The sender's token account bytes, base64.
    pub sender_token_account: String,
    /// The recipient's token account bytes, base64.
    pub recipient_token_account: String,
    /// The mint's bytes, base64.
    pub mint_token_account: String,
    pub amount: String,
    pub priority_fee: String,
    pub latest_blockhash: String,
    pub equality_proof_rent: String,
    pub ciphertext_validity_proof_rent: String,
    pub range_proof_rent: String,
}

/// Withdrawal from the available confidential balance.
pub struct WithdrawCbRequest {
    pub elgamal_signature: String,
    pub aes_signature: String,
    pub recipient_token_account: String,
    pub mint_account_info: String,
    pub withdraw_amount_lamports: String,
    pub latest_blockhash: String,
    pub equality_proof_rent: String,
    pub range_proof_rent: String,
}

/// Sizes of the staging accounts of a transfer.
pub struct TransferCbSpaceResponse {
    pub equality_proof_space: usize,
    pub ciphertext_validity_proof_space: usize,
    pub range_proof_space: usize,
    pub message: String,
}

/// Sizes of the staging accounts of a withdrawal.
pub struct WithdrawCbSpaceResponse {
    pub equality_proof_space: usize,
    pub range_proof_space: usize,
    pub message: String,
}

/// Decryption of the available balance.
pub struct DecryptCbRequest {
    pub aes_signature: String,
    pub token_account_data: String,
}

/// A decrypted amount, in decimal.
pub struct DecryptCbResponse {
    pub amount: String,
    pub message: String,
}

/// Creation of a test mint.
pub struct CreateTestTokenTransactionRequest {
    pub account: String,
    pub mint: String,
    pub latest_blockhash: String,
    pub mint_rent: Option<u64>,
    pub auditor_elgamal_pubkey: Option<String>,
}

/// Audit of a confidential transfer.
pub struct AuditTransactionRequest {
    pub transaction_signature: String,
    pub transaction_data: String,
    pub elgamal_signature: String,
}

/// What an audit reveals of a transfer.
pub struct AuditTransactionResponse {
    pub amount: String,
    pub mint: String,
    pub sender: String,
    pub receiver: String,
    pub message: String,
}

/// Request for the ElGamal public key that a signature derives.
pub struct RevealElGamalPubkeyRequest {
    pub elgamal_signature: String,
}

/// An ElGamal public key, as text.
pub struct RevealElGamalPubkeyResponse {
    pub pubkey: String,
    pub message: String,
}

} // verus!
