use vstd::prelude::*;
use vstd::utf8::encode_utf8;
use crate::account::{
    decode_account, decode_mint_auditor, model_wf, decode_mint_decimals, decoded_account,
    decoded_mint_auditor, decoded_mint_decimals, AccountModel, ConfidentialAccountView,
};
use crate::crypto::{
    ae_decrypt_of, balance_after_apply, balance_after_debit, derive_ae_key, derive_elgamal_pubkey,
    derive_keys, derived_ae_key, derived_elgamal_pubkey, derived_keys, elgamal_keypair_of,
    SIGNATURE_LEN,
    elgamal_decrypt_u32_of, encrypt_balance, keys_wf, pending_total, KeyMaterial, KeyModel,
};
use crate::encoding::{
    base58_address, parse_base58_pubkey, base64_decoded_of, decode_base64_field, parse_base64_base58_pubkey, parse_latest_blockhash,
    parsed_blockhash, parsed_wrapped_address,
};
use crate::errors::AppError;
use crate::models::{
    ApplyCbRequest, CreateTestTokenTransactionRequest, CreateCbAtaRequest, DecryptCbRequest, DepositCbRequest, TransferCbRequest,
    TransferCbSpaceResponse, WithdrawCbRequest, WithdrawCbSpaceResponse,
};
use crate::parse::{parse_priority_fee, parse_u64, parsed_u64};
use crate::plan::{
    fee_in_range, instructions_of, plan_transfer, plan_withdraw, transfer_plan, withdraw_plan,
    PlannedTransaction, ProofKind, StagingCost,
};
use solana_zk_elgamal_proof_interface::proof_data::{
    BatchedGroupedCiphertext3HandlesValidityProofContext, BatchedRangeProofContext,
    CiphertextCommitmentEqualityProofContext,
};
use solana_zk_elgamal_proof_interface::state::ProofContextState;

verus! {

/// Size of the staging account of an equality proof.
pub const EQUALITY_PROOF_SPACE: usize = 161;
/// Size of the staging account of a ciphertext-validity proof.
pub const CIPHERTEXT_VALIDITY_PROOF_SPACE: usize = 385;
/// Size of the staging account of a range proof.
pub const RANGE_PROOF_SPACE: usize = 297;
/// How many deposits and transfers may credit the pending balance before it
/// must be applied.
pub const MAXIMUM_PENDING_BALANCE_CREDIT_COUNTER: u64 = 65536;

/// The associated token account of an owner for a mint.
pub uninterp spec fn associated_token_address_of(owner: Seq<u8>, mint: Seq<u8>) -> Seq<u8>;

/// Relies on spl_associated_token_account's
/// `get_associated_token_address_with_program_id`, with the token-2022
/// program's id: the address derived from owner and mint.
#[verifier::external_body]
#[allow(deprecated)]
fn associated_token_address(owner: &[u8], mint: &[u8]) -> (r: Vec<u8>)
    requires
        owner@.len() == 32,
        mint@.len() == 32,
    ensures
        r@ == associated_token_address_of(owner@, mint@),
        r@.len() == 32,
{
    let owner: [u8; 32] = owner.try_into().unwrap();
    let mint: [u8; 32] = mint.try_into().unwrap();
    let program: [u8; 32] = spl_token_2022::id().to_bytes();
    spl_associated_token_account::get_associated_token_address_with_program_id(
        &owner.into(),
        &mint.into(),
        &program.into(),
    ).to_bytes().to_vec()
}

/// Relies on the layout of solana_zk_elgamal_proof_interface's
/// `ProofContextState<CiphertextCommitmentEqualityProofContext>`: authority
/// (32 bytes), proof type (1), context (128).
#[verifier::external_body]
fn equality_context_space() -> (r: usize)
    ensures
        r == EQUALITY_PROOF_SPACE,
{
    core::mem::size_of::<ProofContextState<CiphertextCommitmentEqualityProofContext>>()
}

/// Relies on the layout of solana_zk_elgamal_proof_interface's
/// `ProofContextState<BatchedGroupedCiphertext3HandlesValidityProofContext>`:
/// authority (32 bytes), proof type (1), context (352).
#[verifier::external_body]
fn ciphertext_validity_context_space() -> (r: usize)
    ensures
        r == CIPHERTEXT_VALIDITY_PROOF_SPACE,
{
    core::mem::size_of::<ProofContextState<BatchedGroupedCiphertext3HandlesValidityProofContext>>()
}

/// Relies on the layout of solana_zk_elgamal_proof_interface's
/// `ProofContextState<BatchedRangeProofContext>`: authority (32 bytes),
/// proof type (1), context (264).
#[verifier::external_body]
fn range_context_space() -> (r: usize)
    ensures
        r == RANGE_PROOF_SPACE,
{
    core::mem::size_of::<ProofContextState<BatchedRangeProofContext>>()
}

/// Sizes of the three staging accounts of a transfer.
pub fn transfer_cb_space() -> (r: TransferCbSpaceResponse)
    ensures
        r.equality_proof_space == EQUALITY_PROOF_SPACE,
        r.ciphertext_validity_proof_space == CIPHERTEXT_VALIDITY_PROOF_SPACE,
        r.range_proof_space == RANGE_PROOF_SPACE,
{
    TransferCbSpaceResponse {
        equality_proof_space: equality_context_space(),
        ciphertext_validity_proof_space: ciphertext_validity_context_space(),
        range_proof_space: range_context_space(),
        message: String::from_str("Space requirements for transfer-cb proofs"),
    }
}

/// Sizes of the two staging accounts of a withdrawal.
pub fn withdraw_cb_space() -> (r: WithdrawCbSpaceResponse)
    ensures
        r.equality_proof_space == EQUALITY_PROOF_SPACE,
        r.range_proof_space == RANGE_PROOF_SPACE,
{
    WithdrawCbSpaceResponse {
        equality_proof_space: equality_context_space(),
        range_proof_space: range_context_space(),
        message: String::from_str("Space requirements for withdraw-cb proofs"),
    }
}

/// The number a text field writes in decimal.
pub open spec fn field_u64(s: Seq<char>) -> Option<u64> {
    parsed_u64(encode_utf8(s))
}

/// The confidential view of the account whose bytes a base64 field holds.
pub open spec fn account_field(s: Seq<char>) -> Result<AccountModel, AppError> {
    match base64_decoded_of(s) {
        None => Err(AppError::Base64Error),
        Some(b) => match decoded_account(b) {
            Ok(m) => Ok(m),
            Err(e) => Err(AppError::AccountDecode(e)),
        },
    }
}

/// The auditor key of the mint whose bytes a base64 field holds.
pub open spec fn mint_auditor_field(s: Seq<char>) -> Result<Option<Seq<u8>>, AppError> {
    match base64_decoded_of(s) {
        None => Err(AppError::Base64Error),
        Some(b) => match decoded_mint_auditor(b) {
            Ok(a) => Ok(a),
            Err(e) => Err(AppError::AccountDecode(e)),
        },
    }
}

/// The decimals of the mint whose bytes a base64 field holds.
pub open spec fn mint_decimals_field(s: Seq<char>) -> Result<u8, AppError> {
    match base64_decoded_of(s) {
        None => Err(AppError::Base64Error),
        Some(b) => match decoded_mint_decimals(b) {
            Ok(d) => Ok(d),
            Err(e) => Err(AppError::AccountDecode(e)),
        },
    }
}

/// The key material that two base64 signature fields give.
pub open spec fn signature_keys(elgamal_sig: Seq<char>, ae_sig: Seq<char>) -> Result<
    KeyModel,
    AppError,
> {
    match (base64_decoded_of(elgamal_sig), base64_decoded_of(ae_sig)) {
        (Some(e), Some(a)) => match derived_keys(e, a) {
            Some(k) => Ok(k),
            None => Err(AppError::KeyDerivation),
        },
        _ => Err(AppError::Base64Error),
    }
}

/// Both fields hold 64 bytes in base64.
pub open spec fn signatures_well_formed(elgamal_sig: Seq<char>, ae_sig: Seq<char>) -> bool {
    &&& base64_decoded_of(elgamal_sig) matches Some(e) && e.len() == SIGNATURE_LEN
    &&& base64_decoded_of(ae_sig) matches Some(a) && a.len() == SIGNATURE_LEN
}

/// The ElGamal keypair of the key material is one that a signature derives.
pub open spec fn keys_from_signature(k: &KeyMaterial) -> bool {
    exists|sig: Seq<u8>|
        #[trigger] elgamal_keypair_of(sig) == Some(k.elgamal_pubkey@ + k.elgamal_secret@)
}

/// Reads the account whose bytes a base64 field holds.
pub fn read_account_field(s: &str) -> (r: Result<ConfidentialAccountView, AppError>)
    ensures
        match r {
            Ok(v) => account_field(s@) == Ok::<AccountModel, AppError>(v@) && model_wf(v@),
            Err(e) => account_field(s@) == Err::<AccountModel, AppError>(e),
        },
{
    let bytes = decode_base64_field(s)?;
    match decode_account(bytes.as_slice()) {
        Ok(v) => Ok(v),
        Err(e) => Err(AppError::AccountDecode(e)),
    }
}

/// Reads the auditor key of the mint whose bytes a base64 field holds.
pub fn read_mint_auditor_field(s: &str) -> (r: Result<Option<Vec<u8>>, AppError>)
    ensures
        match r {
            Ok(Some(k)) => mint_auditor_field(s@) == Ok::<Option<Seq<u8>>, AppError>(Some(k@)),
            Ok(None) => mint_auditor_field(s@) == Ok::<Option<Seq<u8>>, AppError>(None),
            Err(e) => mint_auditor_field(s@) == Err::<Option<Seq<u8>>, AppError>(e),
        },
{
    let bytes = decode_base64_field(s)?;
    match decode_mint_auditor(bytes.as_slice()) {
        Ok(a) => Ok(a),
        Err(e) => Err(AppError::AccountDecode(e)),
    }
}

/// Reads the decimals of the mint whose bytes a base64 field holds.
pub fn read_mint_decimals_field(s: &str) -> (r: Result<u8, AppError>)
    ensures
        r == mint_decimals_field(s@),
{
    let bytes = decode_base64_field(s)?;
    match decode_mint_decimals(bytes.as_slice()) {
        Ok(d) => Ok(d),
        Err(e) => Err(AppError::AccountDecode(e)),
    }
}

/// Derives the key material from two base64 signature fields.
pub fn read_signature_keys(elgamal_sig: &str, ae_sig: &str) -> (r: Result<KeyMaterial, AppError>)
    ensures
        match r {
            Ok(k) => signature_keys(elgamal_sig@, ae_sig@) == Ok::<KeyModel, AppError>(k@)
                && keys_wf(k@) && keys_from_signature(&k),
            Err(e) => signature_keys(elgamal_sig@, ae_sig@) == Err::<KeyModel, AppError>(e),
        },
        signatures_well_formed(elgamal_sig@, ae_sig@) ==> r is Ok,
{
    let e = decode_base64_field(elgamal_sig)?;
    let a = decode_base64_field(ae_sig)?;
    derive_keys(e.as_slice(), a.as_slice())
}

/// The two byte strings are equal.
pub(crate) fn bytes_equal(a: &[u8], b: &[u8]) -> (r: bool)
    ensures
        r == (a@ == b@),
{
    if a.len() != b.len() {
        return false;
    }
    let mut i: usize = 0;
    while i < a.len()
        invariant
            i <= a@.len(),
            a@.len() == b@.len(),
            forall|j: int| 0 <= j < i ==> a@[j] == b@[j],
        decreases a@.len() - i,
    {
        if a[i] != b[i] {
            return false;
        }
        i = i + 1;
    }
    assert(a@ =~= b@);
    true
}

/// Checks that the two accounts of a transfer hold tokens of one mint.
pub fn check_same_mint(sender: &ConfidentialAccountView, recipient: &ConfidentialAccountView) -> (r:
    Result<(), AppError>)
    ensures
        r is Ok <==> sender.mint@ == recipient.mint@,
        r is Err ==> r == Err::<(), AppError>(AppError::MintMismatch),
{
    if bytes_equal(sender.mint.as_slice(), recipient.mint.as_slice()) {
        Ok(())
    } else {
        Err(AppError::MintMismatch)
    }
}

/// Everything a confidential transfer needs besides its proofs, checked and
/// derived from the request.
pub struct TransferPrepared {
    pub sender: ConfidentialAccountView,
    pub recipient: ConfidentialAccountView,
    pub mint: Vec<u8>,
    pub sender_token_account: Vec<u8>,
    pub recipient_token_account: Vec<u8>,
    pub auditor_elgamal_pubkey: Option<Vec<u8>>,
    pub keys: KeyMaterial,
    pub amount: u64,
    /// The sender's available balance before the transfer.
    pub current_balance: u64,
    /// The sender's available balance after the transfer, encrypted.
    pub new_decryptable_available_balance: Vec<u8>,
    pub blockhash: Vec<u8>,
    pub transactions: Vec<PlannedTransaction>,
}

/// Why a transfer request is refused, in the order in which it is checked;
/// `None` where it is not. The mints of the two accounts are compared
/// before any key is derived or any balance opened.
pub open spec fn transfer_error(req: &TransferCbRequest) -> Option<AppError> {
    if field_u64(req.amount@) is None {
        Some(AppError::InvalidAmount)
    } else if field_u64(req.equality_proof_rent@) is None || field_u64(
        req.ciphertext_validity_proof_rent@,
    ) is None || field_u64(req.range_proof_rent@) is None {
        Some(AppError::SerializationError)
    } else {
        match (account_field(req.sender_token_account@), account_field(req.recipient_token_account@)) {
            (Err(e), _) => Some(e),
            (Ok(_), Err(e)) => Some(e),
            (Ok(sender), Ok(recipient)) => if sender.mint != recipient.mint {
                Some(AppError::MintMismatch)
            } else {
                match mint_auditor_field(req.mint_token_account@) {
                    Err(e) => Some(e),
                    Ok(_) => match signature_keys(req.elgamal_signature@, req.aes_signature@) {
                        Err(e) => Some(e),
                        Ok(k) => match ae_decrypt_of(k.ae_key, sender.decryptable_available_balance) {
                            None => Some(AppError::DecryptionError),
                            Some(b) => if field_u64(req.amount@)->0 > b {
                                Some(AppError::ProofGeneration)
                            } else {
                                match parsed_blockhash(req.latest_blockhash@) {
                                    Err(e) => Some(e),
                                    Ok(_) => if !fee_in_range(transfer_fee(req)) {
                                        Some(AppError::InvalidAmount)
                                    } else {
                                        None
                                    },
                                }
                            },
                        },
                    },
                }
            },
        }
    }
}

/// The priority fee of a transfer request; zero where none is written.
pub open spec fn transfer_fee(req: &TransferCbRequest) -> u64 {
    match field_u64(req.priority_fee@) {
        Some(v) => v,
        None => 0,
    }
}

/// What a prepared transfer holds for an accepted request.
pub open spec fn transfer_prepared_for(req: &TransferCbRequest, p: &TransferPrepared) -> bool {
    let sender = account_field(req.sender_token_account@)->Ok_0;
    let recipient = account_field(req.recipient_token_account@)->Ok_0;
    let k = signature_keys(req.elgamal_signature@, req.aes_signature@)->Ok_0;
    let amount = field_u64(req.amount@)->0;
    let b = ae_decrypt_of(k.ae_key, sender.decryptable_available_balance)->0;
    &&& p.sender@ == sender
    &&& p.recipient@ == recipient
    &&& p.mint@ == sender.mint
    &&& p.sender_token_account@ == associated_token_address_of(sender.owner, sender.mint)
    &&& p.recipient_token_account@ == associated_token_address_of(recipient.owner, sender.mint)
    &&& match (p.auditor_elgamal_pubkey, mint_auditor_field(req.mint_token_account@)->Ok_0) {
        (Some(a), Some(m)) => a@ == m,
        (None, None) => true,
        _ => false,
    }
    &&& p.keys@ == k
    &&& p.amount == amount
    &&& p.current_balance == b
    &&& ae_decrypt_of(k.ae_key, p.new_decryptable_available_balance@) == Some((b - amount) as u64)
    &&& p.new_decryptable_available_balance@.len() == 36
    &&& p.blockhash@ == parsed_blockhash(req.latest_blockhash@)->Ok_0
    &&& instructions_of(p.transactions@) == transfer_plan(
        transfer_fee(req),
        StagingCost {
            lamports: field_u64(req.equality_proof_rent@)->0,
            space: EQUALITY_PROOF_SPACE as u64,
        },
        StagingCost {
            lamports: field_u64(req.ciphertext_validity_proof_rent@)->0,
            space: CIPHERTEXT_VALIDITY_PROOF_SPACE as u64,
        },
        StagingCost {
            lamports: field_u64(req.range_proof_rent@)->0,
            space: RANGE_PROOF_SPACE as u64,
        },
    )
    &&& p.transactions@[0].cosigners@ == seq![
        ProofKind::Range,
        ProofKind::Equality,
        ProofKind::CiphertextValidity,
    ]
    &&& forall|t: int|
        1 <= t < p.transactions@.len() ==> (#[trigger] p.transactions@[t]).cosigners@.len() == 0
}

/// Checks a transfer request and derives all that its five transactions
/// need besides the proofs: the accounts, which must share a mint (checked
/// before any key work), the token-account addresses, the auditor key, the
/// key material, the sender's new encrypted balance (a transfer above the
/// available balance fails as a proof-generation error) and the plan of the
/// five transactions.
pub fn prepare_transfer(req: &TransferCbRequest) -> (r: Result<TransferPrepared, AppError>)
    ensures
        match r {
            Ok(p) => transfer_error(req) is None && transfer_prepared_for(req, &p),
            Err(e) => transfer_error(req) == Some(e),
        },
{
    let amount = match parse_u64(req.amount.as_str()) {
        Some(v) => v,
        None => return Err(AppError::InvalidAmount),
    };
    let equality_rent = parse_u64(req.equality_proof_rent.as_str());
    let validity_rent = parse_u64(req.ciphertext_validity_proof_rent.as_str());
    let range_rent = parse_u64(req.range_proof_rent.as_str());
    let (equality_rent, validity_rent, range_rent) = match (
        equality_rent,
        validity_rent,
        range_rent,
    ) {
        (Some(e), Some(v), Some(g)) => (e, v, g),
        _ => return Err(AppError::SerializationError),
    };
    let sender = read_account_field(req.sender_token_account.as_str())?;
    let recipient = read_account_field(req.recipient_token_account.as_str())?;
    check_same_mint(&sender, &recipient)?;
    let auditor = read_mint_auditor_field(req.mint_token_account.as_str())?;
    let keys = read_signature_keys(req.elgamal_signature.as_str(), req.aes_signature.as_str())?;
    let (current_balance, new_balance) = balance_after_debit(
        keys.ae_key.as_slice(),
        sender.decryptable_available_balance.as_slice(),
        amount,
    )?;
    let blockhash = parse_latest_blockhash(&req.latest_blockhash)?;
    let fee = parse_priority_fee(req.priority_fee.as_str());
    let transactions = plan_transfer(
        fee,
        StagingCost { lamports: equality_rent, space: equality_context_space() as u64 },
        StagingCost { lamports: validity_rent, space: ciphertext_validity_context_space() as u64 },
        StagingCost { lamports: range_rent, space: range_context_space() as u64 },
    )?;
    let sender_token_account = associated_token_address(
        sender.owner.as_slice(),
        sender.mint.as_slice(),
    );
    let recipient_token_account = associated_token_address(
        recipient.owner.as_slice(),
        sender.mint.as_slice(),
    );
    let mint = crate::account::copy_bytes(sender.mint.as_slice(), 0, 32);
    assert(mint@ =~= sender.mint@);
    Ok(
        TransferPrepared {
            sender,
            recipient,
            mint,
            sender_token_account,
            recipient_token_account,
            auditor_elgamal_pubkey: auditor,
            keys,
            amount,
            current_balance,
            new_decryptable_available_balance: new_balance,
            blockhash,
            transactions,
        },
    )
}

/// Everything a confidential withdrawal needs besides its proofs.
pub struct WithdrawPrepared {
    pub account: ConfidentialAccountView,
    pub token_account: Vec<u8>,
    pub decimals: u8,
    pub keys: KeyMaterial,
    pub amount: u64,
    /// The available balance before the withdrawal.
    pub current_balance: u64,
    /// The available balance after the withdrawal, encrypted.
    pub new_decryptable_available_balance: Vec<u8>,
    pub blockhash: Vec<u8>,
    pub transactions: Vec<PlannedTransaction>,
}

/// Why a withdrawal request is refused, in the order in which it is
/// checked; `None` where it is not.
pub open spec fn withdraw_error(req: &WithdrawCbRequest) -> Option<AppError> {
    match account_field(req.recipient_token_account@) {
        Err(e) => Some(e),
        Ok(account) => if field_u64(req.equality_proof_rent@) is None || field_u64(
            req.range_proof_rent@,
        ) is None {
            Some(AppError::SerializationError)
        } else {
            match mint_decimals_field(req.mint_account_info@) {
                Err(e) => Some(e),
                Ok(_) => match parsed_blockhash(req.latest_blockhash@) {
                    Err(e) => Some(e),
                    Ok(_) => match field_u64(req.withdraw_amount_lamports@) {
                        None => Some(AppError::SerializationError),
                        Some(amount) => match signature_keys(
                            req.elgamal_signature@,
                            req.aes_signature@,
                        ) {
                            Err(e) => Some(e),
                            Ok(k) => match ae_decrypt_of(
                                k.ae_key,
                                account.decryptable_available_balance,
                            ) {
                                None => Some(AppError::DecryptionError),
                                Some(b) => if amount > b {
                                    Some(AppError::ProofGeneration)
                                } else {
                                    None
                                },
                            },
                        },
                    },
                },
            }
        },
    }
}

/// What a prepared withdrawal holds for an accepted request.
pub open spec fn withdraw_prepared_for(req: &WithdrawCbRequest, p: &WithdrawPrepared) -> bool {
    let account = account_field(req.recipient_token_account@)->Ok_0;
    let k = signature_keys(req.elgamal_signature@, req.aes_signature@)->Ok_0;
    let amount = field_u64(req.withdraw_amount_lamports@)->0;
    let b = ae_decrypt_of(k.ae_key, account.decryptable_available_balance)->0;
    &&& p.account@ == account
    &&& p.token_account@ == associated_token_address_of(account.owner, account.mint)
    &&& p.decimals == mint_decimals_field(req.mint_account_info@)->Ok_0
    &&& p.keys@ == k
    &&& p.amount == amount
    &&& p.current_balance == b
    &&& ae_decrypt_of(k.ae_key, p.new_decryptable_available_balance@) == Some((b - amount) as u64)
    &&& p.new_decryptable_available_balance@.len() == 36
    &&& p.blockhash@ == parsed_blockhash(req.latest_blockhash@)->Ok_0
    &&& instructions_of(p.transactions@) == withdraw_plan(
        StagingCost {
            lamports: field_u64(req.equality_proof_rent@)->0,
            space: EQUALITY_PROOF_SPACE as u64,
        },
        StagingCost {
            lamports: field_u64(req.range_proof_rent@)->0,
            space: RANGE_PROOF_SPACE as u64,
        },
    )
    &&& p.transactions@[0].cosigners@ == seq![ProofKind::Range, ProofKind::Equality]
    &&& forall|t: int|
        1 <= t < p.transactions@.len() ==> (#[trigger] p.transactions@[t]).cosigners@.len() == 0
}

/// Checks a withdrawal request and derives all that its four transactions
/// need besides the proofs; a withdrawal above the available balance fails
/// as a proof-generation error.
pub fn prepare_withdraw(req: &WithdrawCbRequest) -> (r: Result<WithdrawPrepared, AppError>)
    ensures
        match r {
            Ok(p) => withdraw_error(req) is None && withdraw_prepared_for(req, &p),
            Err(e) => withdraw_error(req) == Some(e),
        },
{
    let account = read_account_field(req.recipient_token_account.as_str())?;
    let equality_rent = parse_u64(req.equality_proof_rent.as_str());
    let range_rent = parse_u64(req.range_proof_rent.as_str());
    let (equality_rent, range_rent) = match (equality_rent, range_rent) {
        (Some(e), Some(g)) => (e, g),
        _ => return Err(AppError::SerializationError),
    };
    let decimals = read_mint_decimals_field(req.mint_account_info.as_str())?;
    let blockhash = parse_latest_blockhash(&req.latest_blockhash)?;
    let amount = match parse_u64(req.withdraw_amount_lamports.as_str()) {
        Some(v) => v,
        None => return Err(AppError::SerializationError),
    };
    let keys = read_signature_keys(req.elgamal_signature.as_str(), req.aes_signature.as_str())?;
    let (current_balance, new_balance) = balance_after_debit(
        keys.ae_key.as_slice(),
        account.decryptable_available_balance.as_slice(),
        amount,
    )?;
    let transactions = plan_withdraw(
        StagingCost { lamports: equality_rent, space: equality_context_space() as u64 },
        StagingCost { lamports: range_rent, space: range_context_space() as u64 },
    );
    let token_account = associated_token_address(
        account.owner.as_slice(),
        account.mint.as_slice(),
    );
    Ok(
        WithdrawPrepared {
            account,
            token_account,
            decimals,
            keys,
            amount,
            current_balance,
            new_decryptable_available_balance: new_balance,
            blockhash,
            transactions,
        },
    )
}

/// Everything the transaction that applies the pending balance needs.
pub struct ApplyPrepared {
    pub authority: Vec<u8>,
    pub mint: Vec<u8>,
    pub token_account: Vec<u8>,
    /// The credit counter that the instruction expects to find.
    pub expected_pending_balance_credit_counter: u64,
    /// The available balance once the pending balance is folded in.
    pub new_available_balance: u64,
    /// The same, encrypted under the owner's symmetric key.
    pub new_decryptable_available_balance: Vec<u8>,
    pub blockhash: Vec<u8>,
}

/// The balance that applying the pending balance of `account` gives under
/// the key material `k`; `None` where a part does not open or the sum
/// exceeds 64 bits.
pub open spec fn applied_balance(k: KeyModel, account: AccountModel) -> Option<u64> {
    match (
        elgamal_decrypt_u32_of(k.elgamal_secret, account.pending_balance_lo),
        elgamal_decrypt_u32_of(k.elgamal_secret, account.pending_balance_hi),
        ae_decrypt_of(k.ae_key, account.decryptable_available_balance),
    ) {
        (Some(lo), Some(hi), Some(a)) => if a + pending_total(lo, hi) <= u64::MAX {
            Some((a + pending_total(lo, hi)) as u64)
        } else {
            None
        },
        _ => None,
    }
}

/// Why a request to apply the pending balance is refused; `None` where it
/// is not. The claimed authority must be the account's owner, which is
/// checked before any key is derived.
pub open spec fn apply_error(req: &ApplyCbRequest) -> Option<AppError> {
    match parsed_wrapped_address(req.ata_authority@) {
        Err(e) => Some(e),
        Ok(authority) => match account_field(req.token_account_data@) {
            Err(e) => Some(e),
            Ok(account) => if authority != account.owner {
                Some(AppError::InvalidAddress)
            } else {
                match signature_keys(req.elgamal_signature@, req.aes_signature@) {
                    Err(e) => Some(e),
                    Ok(k) => match applied_balance(k, account) {
                        None => Some(AppError::DecryptionError),
                        Some(_) => match parsed_blockhash(req.latest_blockhash@) {
                            Err(e) => Some(e),
                            Ok(_) => None,
                        },
                    },
                }
            },
        },
    }
}

/// Checks a request to apply the pending balance, whose authority must own
/// the account, and derives the data of its one transaction.
pub fn prepare_apply(req: &ApplyCbRequest) -> (r: Result<ApplyPrepared, AppError>)
    ensures
        match r {
            Ok(p) => {
                let account = account_field(req.token_account_data@)->Ok_0;
                let k = signature_keys(req.elgamal_signature@, req.aes_signature@)->Ok_0;
                let authority = parsed_wrapped_address(req.ata_authority@)->Ok_0;
                &&& apply_error(req) is None
                &&& p.authority@ == authority
                &&& p.mint@ == account.mint
                &&& p.token_account@ == associated_token_address_of(authority, account.mint)
                &&& p.expected_pending_balance_credit_counter
                    == account.pending_balance_credit_counter
                &&& Some(p.new_available_balance) == applied_balance(k, account)
                &&& ae_decrypt_of(k.ae_key, p.new_decryptable_available_balance@) == Some(
                    p.new_available_balance,
                )
                &&& p.blockhash@ == parsed_blockhash(req.latest_blockhash@)->Ok_0
            },
            Err(e) => apply_error(req) == Some(e),
        },
{
    let authority = parse_base64_base58_pubkey(req.ata_authority.as_str())?;
    let account = read_account_field(req.token_account_data.as_str())?;
    if !bytes_equal(authority.as_slice(), account.owner.as_slice()) {
        return Err(AppError::InvalidAddress);
    }
    let keys = read_signature_keys(req.elgamal_signature.as_str(), req.aes_signature.as_str())?;
    let (total, new_balance) = balance_after_apply(
        &keys,
        account.pending_balance_lo.as_slice(),
        account.pending_balance_hi.as_slice(),
        account.decryptable_available_balance.as_slice(),
    )?;
    let blockhash = parse_latest_blockhash(&req.latest_blockhash)?;
    let token_account = associated_token_address(authority.as_slice(), account.mint.as_slice());
    let mint = crate::account::copy_bytes(account.mint.as_slice(), 0, 32);
    assert(mint@ =~= account.mint@);
    Ok(
        ApplyPrepared {
            authority,
            mint,
            token_account,
            expected_pending_balance_credit_counter: account.pending_balance_credit_counter,
            new_available_balance: total,
            new_decryptable_available_balance: new_balance,
            blockhash,
        },
    )
}

/// Everything a deposit transaction needs.
pub struct DepositPrepared {
    pub owner: Vec<u8>,
    pub mint: Vec<u8>,
    pub token_account: Vec<u8>,
    pub amount: u64,
    pub decimals: u8,
    pub blockhash: Vec<u8>,
}

/// Why a deposit request is refused; `None` where it is not.
pub open spec fn deposit_error(req: &DepositCbRequest) -> Option<AppError> {
    match account_field(req.token_account_data@) {
        Err(e) => Some(e),
        Ok(_) => match field_u64(req.lamport_amount@) {
            None => Some(AppError::InvalidAmount),
            Some(_) => match parsed_blockhash(req.latest_blockhash@) {
                Err(e) => Some(e),
                Ok(_) => None,
            },
        },
    }
}

/// Checks a deposit request and derives the data of its one transaction.
pub fn prepare_deposit(req: &DepositCbRequest) -> (r: Result<DepositPrepared, AppError>)
    ensures
        match r {
            Ok(p) => {
                let account = account_field(req.token_account_data@)->Ok_0;
                &&& deposit_error(req) is None
                &&& p.owner@ == account.owner
                &&& p.mint@ == account.mint
                &&& p.token_account@ == associated_token_address_of(account.owner, account.mint)
                &&& p.amount == field_u64(req.lamport_amount@)->0
                &&& p.decimals == req.mint_decimals
                &&& p.blockhash@ == parsed_blockhash(req.latest_blockhash@)->Ok_0
            },
            Err(e) => deposit_error(req) == Some(e),
        },
{
    let account = read_account_field(req.token_account_data.as_str())?;
    let amount = match parse_u64(req.lamport_amount.as_str()) {
        Some(v) => v,
        None => return Err(AppError::InvalidAmount),
    };
    let blockhash = parse_latest_blockhash(&req.latest_blockhash)?;
    let token_account = associated_token_address(
        account.owner.as_slice(),
        account.mint.as_slice(),
    );
    let owner = crate::account::copy_bytes(account.owner.as_slice(), 0, 32);
    let mint = crate::account::copy_bytes(account.mint.as_slice(), 0, 32);
    assert(owner@ =~= account.owner@);
    assert(mint@ =~= account.mint@);
    Ok(
        DepositPrepared {
            owner,
            mint,
            token_account,
            amount,
            decimals: req.mint_decimals,
            blockhash,
        },
    )
}

/// Everything the transaction that creates and configures a confidential
/// token account needs besides the public-key validity proof.
pub struct CreatePrepared {
    pub authority: Vec<u8>,
    pub mint: Vec<u8>,
    pub token_account: Vec<u8>,
    pub keys: KeyMaterial,
    /// A zero balance, encrypted under the owner's symmetric key.
    pub decryptable_zero_balance: Vec<u8>,
    pub maximum_pending_balance_credit_counter: u64,
    pub blockhash: Vec<u8>,
}

/// Why a request to create a confidential account is refused; `None` where
/// it is not.
pub open spec fn create_error(req: &CreateCbAtaRequest) -> Option<AppError> {
    match parsed_wrapped_address(req.ata_authority@) {
        Err(e) => Some(e),
        Ok(_) => match parsed_wrapped_address(req.mint@) {
            Err(e) => Some(e),
            Ok(_) => match signature_keys(req.elgamal_signature@, req.aes_signature@) {
                Err(e) => Some(e),
                Ok(_) => match parsed_blockhash(req.latest_blockhash@) {
                    Err(e) => Some(e),
                    Ok(_) => None,
                },
            },
        },
    }
}

/// Checks a request to create a confidential token account and derives the
/// data of its one transaction: the account starts with an encrypted zero
/// balance.
pub fn prepare_create(req: &CreateCbAtaRequest) -> (r: Result<CreatePrepared, AppError>)
    ensures
        match r {
            Ok(p) => {
                let authority = parsed_wrapped_address(req.ata_authority@)->Ok_0;
                let mint = parsed_wrapped_address(req.mint@)->Ok_0;
                let k = signature_keys(req.elgamal_signature@, req.aes_signature@)->Ok_0;
                &&& create_error(req) is None
                &&& p.authority@ == authority
                &&& p.mint@ == mint
                &&& p.token_account@ == associated_token_address_of(authority, mint)
                &&& p.keys@ == k
                &&& keys_from_signature(&p.keys)
                &&& ae_decrypt_of(k.ae_key, p.decryptable_zero_balance@) == Some(0u64)
                &&& p.maximum_pending_balance_credit_counter
                    == MAXIMUM_PENDING_BALANCE_CREDIT_COUNTER
                &&& p.blockhash@ == parsed_blockhash(req.latest_blockhash@)->Ok_0
            },
            Err(e) => create_error(req) == Some(e),
        },
{
    let authority = parse_base64_base58_pubkey(req.ata_authority.as_str())?;
    let mint = parse_base64_base58_pubkey(req.mint.as_str())?;
    let keys = read_signature_keys(req.elgamal_signature.as_str(), req.aes_signature.as_str())?;
    let blockhash = parse_latest_blockhash(&req.latest_blockhash)?;
    let token_account = associated_token_address(authority.as_slice(), mint.as_slice());
    let decryptable_zero_balance = encrypt_balance(keys.ae_key.as_slice(), 0);
    Ok(
        CreatePrepared {
            authority,
            mint,
            token_account,
            keys,
            decryptable_zero_balance,
            maximum_pending_balance_credit_counter: MAXIMUM_PENDING_BALANCE_CREDIT_COUNTER,
            blockhash,
        },
    )
}

/// What decrypting the available balance of an account gives.
pub open spec fn decrypted_available(req: &DecryptCbRequest) -> Result<u64, AppError> {
    match base64_decoded_of(req.aes_signature@) {
        None => Err(AppError::Base64Error),
        Some(sig) => match derived_ae_key(sig) {
            None => Err(AppError::KeyDerivation),
            Some(key) => match account_field(req.token_account_data@) {
                Err(e) => Err(e),
                Ok(account) => match ae_decrypt_of(key, account.decryptable_available_balance) {
                    Some(v) => Ok(v),
                    None => Err(AppError::SerializationError),
                },
            },
        },
    }
}

/// Decrypts the available balance of a confidential account with the key
/// that the signature derives.
pub fn decrypt_cb(req: &DecryptCbRequest) -> (r: Result<u64, AppError>)
    ensures
        r == decrypted_available(req),
{
    let sig = decode_base64_field(req.aes_signature.as_str())?;
    let key = derive_ae_key(sig.as_slice())?;
    let account = read_account_field(req.token_account_data.as_str())?;
    match crate::crypto::decrypt_balance(
        key.as_slice(),
        account.decryptable_available_balance.as_slice(),
    ) {
        Some(v) => Ok(v),
        None => Err(AppError::SerializationError),
    }
}

/// The ElGamal public key that a base64 signature field derives.
pub open spec fn revealed_pubkey(sig: Seq<char>) -> Result<Seq<u8>, AppError> {
    match base64_decoded_of(sig) {
        None => Err(AppError::Base64Error),
        Some(s) => match derived_elgamal_pubkey(s) {
            Some(k) => Ok(k),
            None => Err(AppError::KeyDerivation),
        },
    }
}

/// Derives the ElGamal public key of the signature in a base64 field.
pub fn reveal_elgamal_pubkey(elgamal_signature: &str) -> (r: Result<Vec<u8>, AppError>)
    ensures
        match r {
            Ok(k) => revealed_pubkey(elgamal_signature@) == Ok::<Seq<u8>, AppError>(k@),
            Err(e) => revealed_pubkey(elgamal_signature@) == Err::<Seq<u8>, AppError>(e),
        },
        base64_decoded_of(elgamal_signature@) matches Some(s) && s.len() == SIGNATURE_LEN ==> r is Ok,
{
    let sig = decode_base64_field(elgamal_signature)?;
    derive_elgamal_pubkey(sig.as_slice())
}

/// Size of a mint with the confidential-transfer and close-authority
/// extensions.
pub const TEST_MINT_SPACE: usize = 271;
/// Decimals of a test mint.
pub const TEST_MINT_DECIMALS: u8 = 9;

/// Relies on spl_token_2022's `ExtensionType::try_calculate_account_len` for
/// a mint with the confidential-transfer and close-authority extensions:
/// 165 base bytes, the account-kind byte, then 4 + 65 and 4 + 32 bytes of
/// entries.
#[verifier::external_body]
fn test_mint_space() -> (r: Option<usize>)
    ensures
        r == Some(TEST_MINT_SPACE),
{
    spl_token_2022::extension::ExtensionType::try_calculate_account_len::<
        spl_token_2022::state::Mint,
    >(
        &[
            spl_token_2022::extension::ExtensionType::ConfidentialTransferMint,
            spl_token_2022::extension::ExtensionType::MintCloseAuthority,
        ],
    ).ok()
}

/// Everything the transaction that creates a test mint needs.
pub struct TestTokenPrepared {
    pub authority: Vec<u8>,
    pub mint: Vec<u8>,
    pub space: u64,
    pub rent: u64,
    pub decimals: u8,
    pub auditor_elgamal_pubkey: Option<Vec<u8>>,
    pub blockhash: Vec<u8>,
}

/// The auditor key a test-mint request names, as 32 bytes of base64.
pub open spec fn test_auditor(a: Option<String>) -> Result<Option<Seq<u8>>, AppError> {
    match a {
        None => Ok(None),
        Some(s) => match base64_decoded_of(s@) {
            Some(b) => if b.len() == 32 {
                Ok(Some(b))
            } else {
                Err(AppError::SerializationError)
            },
            None => Err(AppError::SerializationError),
        },
    }
}

/// Why a request to create a test mint is refused; `None` where it is not.
pub open spec fn test_token_error(req: &CreateTestTokenTransactionRequest) -> Option<AppError> {
    match (
        base58_address(req.account@, AppError::InvalidAddress),
        base58_address(req.mint@, AppError::InvalidAddress),
    ) {
        (Err(e), _) => Some(e),
        (Ok(_), Err(e)) => Some(e),
        (Ok(a), Ok(m)) => if a == m {
            Some(AppError::InvalidAddress)
        } else if req.mint_rent is None {
            Some(AppError::SerializationError)
        } else {
            match test_auditor(req.auditor_elgamal_pubkey) {
                Err(e) => Some(e),
                Ok(_) => match parsed_blockhash(req.latest_blockhash@) {
                    Err(e) => Some(e),
                    Ok(_) => None,
                },
            }
        },
    }
}

/// Checks a request to create a test mint with confidential transfers and a
/// close authority, both held by the requesting account, and derives the
/// data of its one transaction. The rent must be given by the caller.
pub fn prepare_test_token(req: &CreateTestTokenTransactionRequest) -> (r: Result<
    TestTokenPrepared,
    AppError,
>)
    ensures
        match r {
            Ok(p) => {
                &&& test_token_error(req) is None
                &&& p.authority@ == base58_address(req.account@, AppError::InvalidAddress)->Ok_0
                &&& p.mint@ == base58_address(req.mint@, AppError::InvalidAddress)->Ok_0
                &&& p.space == TEST_MINT_SPACE
                &&& req.mint_rent == Some(p.rent)
                &&& p.decimals == TEST_MINT_DECIMALS
                &&& match (p.auditor_elgamal_pubkey, test_auditor(req.auditor_elgamal_pubkey)->Ok_0) {
                    (Some(k), Some(m)) => k@ == m,
                    (None, None) => true,
                    _ => false,
                }
                &&& p.blockhash@ == parsed_blockhash(req.latest_blockhash@)->Ok_0
            },
            Err(e) => test_token_error(req) == Some(e),
        },
{
    let authority = parse_base58_pubkey(req.account.as_str())?;
    let mint = parse_base58_pubkey(req.mint.as_str())?;
    if bytes_equal(authority.as_slice(), mint.as_slice()) {
        return Err(AppError::InvalidAddress);
    }
    let rent = match req.mint_rent {
        Some(v) => v,
        None => return Err(AppError::SerializationError),
    };
    let space = match test_mint_space() {
        Some(s) => s,
        None => return Err(AppError::SerializationError),
    };
    let auditor = match &req.auditor_elgamal_pubkey {
        None => None,
        Some(s) => match decode_base64_field(s.as_str()) {
            Ok(b) => if b.len() == 32 {
                Some(b)
            } else {
                return Err(AppError::SerializationError);
            },
            Err(_) => return Err(AppError::SerializationError),
        },
    };
    let blockhash = parse_latest_blockhash(&req.latest_blockhash)?;
    Ok(
        TestTokenPrepared {
            authority,
            mint,
            space: space as u64,
            rent,
            decimals: TEST_MINT_DECIMALS,
            auditor_elgamal_pubkey: auditor,
            blockhash,
        },
    )
}

/// A transfer request whose two accounts are readable but hold tokens of
/// different mints is refused as a mint mismatch, before any key is derived
/// or any proof input computed; an accepted transfer has one mint.
pub proof fn lemma_transfer_mint_mismatch_first(req: &TransferCbRequest)
    ensures
        field_u64(req.amount@) is Some && field_u64(req.equality_proof_rent@) is Some
            && field_u64(req.ciphertext_validity_proof_rent@) is Some && field_u64(
            req.range_proof_rent@,
        ) is Some && account_field(req.sender_token_account@) is Ok && account_field(
            req.recipient_token_account@,
        ) is Ok && account_field(req.sender_token_account@)->Ok_0.mint != account_field(
            req.recipient_token_account@,
        )->Ok_0.mint ==> transfer_error(req) == Some(AppError::MintMismatch),
        transfer_error(req) is None ==> account_field(req.sender_token_account@)->Ok_0.mint
            == account_field(req.recipient_token_account@)->Ok_0.mint,
{
}

/// A withdrawal whose amount exceeds the available balance that the
/// owner's key opens is refused as a proof-generation error.
pub proof fn lemma_withdraw_overdraw_refused(req: &WithdrawCbRequest)
    ensures
        ({
            let account = account_field(req.recipient_token_account@);
            let k = signature_keys(req.elgamal_signature@, req.aes_signature@);
            &&& account is Ok
            &&& field_u64(req.equality_proof_rent@) is Some
            &&& field_u64(req.range_proof_rent@) is Some
            &&& mint_decimals_field(req.mint_account_info@) is Ok
            &&& parsed_blockhash(req.latest_blockhash@) is Ok
            &&& field_u64(req.withdraw_amount_lamports@) is Some
            &&& k is Ok
            &&& ae_decrypt_of(k->Ok_0.ae_key, account->Ok_0.decryptable_available_balance) is Some
            &&& field_u64(req.withdraw_amount_lamports@)->0 > ae_decrypt_of(
                k->Ok_0.ae_key,
                account->Ok_0.decryptable_available_balance,
            )->0
        }) ==> withdraw_error(req) == Some(AppError::ProofGeneration),
{
}

} // verus!
