use vstd::prelude::*;
use vstd::bytes::*;
use vstd::slice::slice_to_vec;
use crate::errors::AccountDecodeError;

verus! {

/// Size of a ledger address.
pub const ADDRESS_LEN: usize = 32;
/// Size of an ElGamal public key.
pub const ELGAMAL_PUBKEY_LEN: usize = 32;
/// Size of an ElGamal ciphertext.
pub const ELGAMAL_CIPHERTEXT_LEN: usize = 64;
/// Size of an authenticated-encryption ciphertext.
pub const AE_CIPHERTEXT_LEN: usize = 36;
/// Size of the base fields of a token account.
pub const ACCOUNT_LEN: usize = 165;
/// Size of the base fields of a mint.
pub const MINT_LEN: usize = 82;
/// Size of a multisig account, which never carries extensions.
pub const MULTISIG_LEN: usize = 355;
/// Offset of the account-kind byte in an account with extensions.
pub const ACCOUNT_TYPE_INDEX: usize = 165;
/// Offset of the first extension entry.
pub const TLV_START: usize = 166;
/// Account-kind byte of a mint.
pub const ACCOUNT_TYPE_MINT: u8 = 1;
/// Account-kind byte of a token account.
pub const ACCOUNT_TYPE_ACCOUNT: u8 = 2;
/// Extension tag of an empty slot; nothing follows it.
pub const EXT_UNINITIALIZED: usize = 0;
/// Extension tag of the confidential-transfer mint configuration.
pub const EXT_CONFIDENTIAL_MINT: usize = 4;
/// Extension tag of the confidential-transfer account state.
pub const EXT_CONFIDENTIAL_ACCOUNT: usize = 5;
/// Size of the confidential-transfer account state.
pub const CONFIDENTIAL_ACCOUNT_EXT_LEN: usize = 295;
/// Size of the confidential-transfer mint configuration.
pub const CONFIDENTIAL_MINT_EXT_LEN: usize = 65;

/// A little-endian 16-bit value at `i`.
pub open spec fn u16_at(b: Seq<u8>, i: int) -> int {
    b[i] as int + 256 * b[i + 1] as int
}

/// A little-endian 64-bit value at `i`.
pub open spec fn u64_at(b: Seq<u8>, i: int) -> u64 {
    spec_u64_from_le_bytes(b.subrange(i, i + 8))
}

/// Scans the extension entries from `pos` for one tagged `ty`; gives the
/// offset of its value and its declared length.
pub open spec fn find_entry(b: Seq<u8>, ty: int, pos: int) -> Result<(int, int), AccountDecodeError>
    decreases b.len() - pos,
{
    if pos < 0 || pos >= b.len() || pos + 4 > b.len() {
        Err(AccountDecodeError::InvalidAccountData)
    } else if u16_at(b, pos) == ty {
        Ok((pos + 4, u16_at(b, pos + 2)))
    } else if u16_at(b, pos) == EXT_UNINITIALIZED {
        Err(AccountDecodeError::ExtensionNotFound)
    } else if pos + 4 + u16_at(b, pos + 2) >= b.len() {
        Err(AccountDecodeError::InvalidAccountData)
    } else {
        find_entry(b, ty, pos + 4 + u16_at(b, pos + 2))
    }
}

/// The value of the extension tagged `ty`, which must be `len` bytes long.
pub open spec fn extension_value(b: Seq<u8>, ty: int, len: int) -> Result<
    Seq<u8>,
    AccountDecodeError,
> {
    match find_entry(b, ty, TLV_START as int) {
        Ok((start, l)) => if start + l > b.len() {
            Err(AccountDecodeError::InvalidAccountData)
        } else if l != len {
            Err(AccountDecodeError::InvalidArgument)
        } else {
            Ok(b.subrange(start, start + l))
        },
        Err(e) => Err(e),
    }
}

/// An optional-value tag (four bytes, 0 or 1) at `i` is well formed.
pub open spec fn tag_ok(b: Seq<u8>, i: int) -> bool {
    b[i] <= 1 && b[i + 1] == 0 && b[i + 2] == 0 && b[i + 3] == 0
}

/// What the base fields of a token account say of it, before extensions.
pub open spec fn account_base_check(b: Seq<u8>) -> Result<(), AccountDecodeError> {
    if b.len() < ACCOUNT_LEN || b.len() == MULTISIG_LEN {
        Err(AccountDecodeError::InvalidAccountData)
    } else if !tag_ok(b, 72) || b[108] > 2 || !tag_ok(b, 109) || !tag_ok(b, 129) {
        Err(AccountDecodeError::InvalidAccountData)
    } else if b[108] == 0 {
        Err(AccountDecodeError::UninitializedAccount)
    } else if b.len() > ACCOUNT_LEN && b[165] != ACCOUNT_TYPE_ACCOUNT {
        Err(AccountDecodeError::InvalidAccountData)
    } else {
        Ok(())
    }
}

/// The confidential view of a token account, as plain values.
pub struct AccountModel {
    pub owner: Seq<u8>,
    pub mint: Seq<u8>,
    pub elgamal_pubkey: Seq<u8>,
    pub pending_balance_lo: Seq<u8>,
    pub pending_balance_hi: Seq<u8>,
    pub available_balance: Seq<u8>,
    pub decryptable_available_balance: Seq<u8>,
    pub pending_balance_credit_counter: u64,
    pub maximum_pending_balance_credit_counter: u64,
}

/// Every field of the model has the size the layout gives it.
pub open spec fn model_wf(m: AccountModel) -> bool {
    &&& m.owner.len() == ADDRESS_LEN
    &&& m.mint.len() == ADDRESS_LEN
    &&& m.elgamal_pubkey.len() == ELGAMAL_PUBKEY_LEN
    &&& m.pending_balance_lo.len() == ELGAMAL_CIPHERTEXT_LEN
    &&& m.pending_balance_hi.len() == ELGAMAL_CIPHERTEXT_LEN
    &&& m.available_balance.len() == ELGAMAL_CIPHERTEXT_LEN
    &&& m.decryptable_available_balance.len() == AE_CIPHERTEXT_LEN
}

/// The model read from the base fields `b` and the extension value `v`.
pub open spec fn model_from(b: Seq<u8>, v: Seq<u8>) -> AccountModel {
    AccountModel {
        mint: b.subrange(0, 32),
        owner: b.subrange(32, 64),
        elgamal_pubkey: v.subrange(1, 33),
        pending_balance_lo: v.subrange(33, 97),
        pending_balance_hi: v.subrange(97, 161),
        available_balance: v.subrange(161, 225),
        decryptable_available_balance: v.subrange(225, 261),
        pending_balance_credit_counter: u64_at(v, 263),
        maximum_pending_balance_credit_counter: u64_at(v, 271),
    }
}

/// What decoding the bytes `b` of a token account gives.
pub open spec fn decoded_account(b: Seq<u8>) -> Result<AccountModel, AccountDecodeError> {
    match account_base_check(b) {
        Err(e) => Err(e),
        Ok(_) => match extension_value(
            b,
            EXT_CONFIDENTIAL_ACCOUNT as int,
            CONFIDENTIAL_ACCOUNT_EXT_LEN as int,
        ) {
            Ok(v) => Ok(model_from(b, v)),
            Err(e) => Err(e),
        },
    }
}

/// The confidential view of a token account.
#[derive(Debug, PartialEq, Eq)]
pub struct ConfidentialAccountView {
    pub owner: Vec<u8>,
    pub mint: Vec<u8>,
    pub elgamal_pubkey: Vec<u8>,
    pub pending_balance_lo: Vec<u8>,
    pub pending_balance_hi: Vec<u8>,
    pub available_balance: Vec<u8>,
    pub decryptable_available_balance: Vec<u8>,
    pub pending_balance_credit_counter: u64,
    pub maximum_pending_balance_credit_counter: u64,
}

impl View for ConfidentialAccountView {
    type V = AccountModel;

    open spec fn view(&self) -> AccountModel {
        AccountModel {
            owner: self.owner@,
            mint: self.mint@,
            elgamal_pubkey: self.elgamal_pubkey@,
            pending_balance_lo: self.pending_balance_lo@,
            pending_balance_hi: self.pending_balance_hi@,
            available_balance: self.available_balance@,
            decryptable_available_balance: self.decryptable_available_balance@,
            pending_balance_credit_counter: self.pending_balance_credit_counter,
            maximum_pending_balance_credit_counter: self.maximum_pending_balance_credit_counter,
        }
    }
}

/// The little-endian 16-bit value at `i`.
fn read_u16(b: &[u8], i: usize) -> (r: usize)
    requires
        i + 2 <= b@.len(),
    ensures
        r as int == u16_at(b@, i as int),
        r < 0x1_0000,
{
    b[i] as usize + 256 * (b[i + 1] as usize)
}

/// A copy of `b[s..e]`.
pub fn copy_bytes(b: &[u8], s: usize, e: usize) -> (r: Vec<u8>)
    requires
        s <= e <= b@.len(),
    ensures
        r@ == b@.subrange(s as int, e as int),
{
    slice_to_vec(&b[s..e])
}

/// Finds the extension tagged `ty` in the entries that follow the base
/// fields, as `find_entry` describes.
fn find_extension(b: &[u8], ty: usize) -> (r: Result<(usize, usize), AccountDecodeError>)
    ensures
        match r {
            Ok((s, l)) => find_entry(b@, ty as int, TLV_START as int) == Ok::<(int, int), AccountDecodeError>((s as int, l as int)),
            Err(e) => find_entry(b@, ty as int, TLV_START as int) == Err::<(int, int), AccountDecodeError>(e),
        },
{
    let mut pos: usize = TLV_START;
    while pos < b.len()
        invariant
            pos >= TLV_START,
            find_entry(b@, ty as int, pos as int) == find_entry(b@, ty as int, TLV_START as int),
        decreases b.len() - pos,
    {
        if b.len() - pos < 4 {
            return Err(AccountDecodeError::InvalidAccountData);
        }
        let t = read_u16(b, pos);
        let l = read_u16(b, pos + 2);
        if t == ty {
            return Ok((pos + 4, l));
        }
        if t == EXT_UNINITIALIZED {
            return Err(AccountDecodeError::ExtensionNotFound);
        }
        if l >= b.len() - pos - 4 {
            return Err(AccountDecodeError::InvalidAccountData);
        }
        pos = pos + 4 + l;
    }
    Err(AccountDecodeError::InvalidAccountData)
}

/// The value of the extension tagged `ty`, which must be `len` bytes long.
fn find_extension_value(b: &[u8], ty: usize, len: usize) -> (r: Result<
    (usize, usize),
    AccountDecodeError,
>)
    ensures
        match r {
            Ok((s, e)) => {
                &&& s <= e <= b@.len()
                &&& e == s + len
                &&& extension_value(b@, ty as int, len as int) == Ok::<
                    Seq<u8>,
                    AccountDecodeError,
                >(b@.subrange(s as int, e as int))
            },
            Err(e) => extension_value(b@, ty as int, len as int) == Err::<
                Seq<u8>,
                AccountDecodeError,
            >(e),
        },
{
    match find_extension(b, ty) {
        Err(e) => Err(e),
        Ok((s, l)) => {
            if s > b.len() || l > b.len() - s {
                Err(AccountDecodeError::InvalidAccountData)
            } else if l != len {
                Err(AccountDecodeError::InvalidArgument)
            } else {
                Ok((s, s + l))
            }
        },
    }
}

/// Checks the base fields of a token account.
fn check_account_base(b: &[u8]) -> (r: Result<(), AccountDecodeError>)
    ensures
        r == account_base_check(b@),
{
    if b.len() < ACCOUNT_LEN || b.len() == MULTISIG_LEN {
        return Err(AccountDecodeError::InvalidAccountData);
    }
    let tags_ok = b[72] <= 1 && b[73] == 0 && b[74] == 0 && b[75] == 0 && b[109] <= 1 && b[110]
        == 0 && b[111] == 0 && b[112] == 0 && b[129] <= 1 && b[130] == 0 && b[131] == 0 && b[132]
        == 0;
    if !tags_ok || b[108] > 2 {
        Err(AccountDecodeError::InvalidAccountData)
    } else if b[108] == 0 {
        Err(AccountDecodeError::UninitializedAccount)
    } else if b.len() > ACCOUNT_LEN && b[ACCOUNT_TYPE_INDEX] != ACCOUNT_TYPE_ACCOUNT {
        Err(AccountDecodeError::InvalidAccountData)
    } else {
        Ok(())
    }
}

/// Decodes the bytes of a token account into its confidential view: the
/// base fields, then the confidential-transfer extension found among the
/// tagged extension entries, others being passed over.
pub fn decode_account(b: &[u8]) -> (r: Result<ConfidentialAccountView, AccountDecodeError>)
    ensures
        match r {
            Ok(v) => decoded_account(b@) == Ok::<AccountModel, AccountDecodeError>(v@) && model_wf(
                v@,
            ),
            Err(e) => decoded_account(b@) == Err::<AccountModel, AccountDecodeError>(e),
        },
{
    match check_account_base(b) {
        Err(e) => Err(e),
        Ok(_) => {
            match find_extension_value(b, EXT_CONFIDENTIAL_ACCOUNT, CONFIDENTIAL_ACCOUNT_EXT_LEN) {
                Err(e) => Err(e),
                Ok((s, e)) => {
                    let ghost v = b@.subrange(s as int, e as int);
                    let view = ConfidentialAccountView {
                        mint: copy_bytes(b, 0, 32),
                        owner: copy_bytes(b, 32, 64),
                        elgamal_pubkey: copy_bytes(b, s + 1, s + 33),
                        pending_balance_lo: copy_bytes(b, s + 33, s + 97),
                        pending_balance_hi: copy_bytes(b, s + 97, s + 161),
                        available_balance: copy_bytes(b, s + 161, s + 225),
                        decryptable_available_balance: copy_bytes(b, s + 225, s + 261),
                        pending_balance_credit_counter: u64_from_le_bytes(&b[s + 263..s + 271]),
                        maximum_pending_balance_credit_counter: u64_from_le_bytes(
                            &b[s + 271..s + 279],
                        ),
                    };
                    assert(view@ =~= model_from(b@, v)) by {
                        assert(v.subrange(1, 33) =~= b@.subrange(s + 1, s + 33));
                        assert(v.subrange(33, 97) =~= b@.subrange(s + 33, s + 97));
                        assert(v.subrange(97, 161) =~= b@.subrange(s + 97, s + 161));
                        assert(v.subrange(161, 225) =~= b@.subrange(s + 161, s + 225));
                        assert(v.subrange(225, 261) =~= b@.subrange(s + 225, s + 261));
                        assert(v.subrange(263, 271) =~= b@.subrange(s + 263, s + 271));
                        assert(v.subrange(271, 279) =~= b@.subrange(s + 271, s + 279));
                    }
                    Ok(view)
                },
            }
        },
    }
}

/// `n` zero bytes.
pub open spec fn zeros(n: nat) -> Seq<u8> {
    Seq::new(n, |_i: int| 0u8)
}

/// The base fields of an initialized token account that holds no tokens,
/// with no delegate, close authority or native amount.
pub open spec fn encoded_base(m: AccountModel) -> Seq<u8> {
    m.mint + m.owner + zeros(44) + seq![1u8] + zeros(56)
}

/// The account-kind byte and the header of the confidential-transfer entry.
pub open spec fn encoded_header() -> Seq<u8> {
    seq![ACCOUNT_TYPE_ACCOUNT, 5u8, 0u8, 39u8, 1u8]
}

/// The confidential-transfer extension of an approved account that accepts
/// both kinds of credits.
pub open spec fn encoded_extension(m: AccountModel) -> Seq<u8> {
    seq![1u8] + m.elgamal_pubkey + m.pending_balance_lo + m.pending_balance_hi
        + m.available_balance + m.decryptable_available_balance + seq![1u8, 1u8]
        + spec_u64_to_le_bytes(m.pending_balance_credit_counter) + spec_u64_to_le_bytes(
        m.maximum_pending_balance_credit_counter,
    ) + zeros(16)
}

/// The bytes of a token account that carries the confidential view `m`.
pub open spec fn encoded_account(m: AccountModel) -> Seq<u8> {
    encoded_base(m) + encoded_header() + encoded_extension(m)
}

/// Appends `src` to `out`.
pub(crate) fn append(out: &mut Vec<u8>, src: &[u8])
    ensures
        final(out)@ == old(out)@ + src@,
{
    let mut i: usize = 0;
    while i < src.len()
        invariant
            i <= src@.len(),
            out@ == old(out)@ + src@.subrange(0, i as int),
        decreases src@.len() - i,
    {
        out.push(src[i]);
        i = i + 1;
        assert(src@.subrange(0, i as int) =~= src@.subrange(0, i - 1) + seq![src@[i - 1]]);
    }
    assert(src@.subrange(0, i as int) =~= src@);
}

/// Appends `n` zero bytes to `out`.
fn append_zeros(out: &mut Vec<u8>, n: usize)
    ensures
        final(out)@ == old(out)@ + zeros(n as nat),
{
    let mut i: usize = 0;
    while i < n
        invariant
            i <= n,
            out@ == old(out)@ + zeros(i as nat),
        decreases n - i,
    {
        out.push(0u8);
        i = i + 1;
        assert(zeros(i as nat) =~= zeros((i - 1) as nat) + seq![0u8]);
    }
}

/// Encodes a confidential view as the bytes of a token account: base fields,
/// the account-kind byte, then one confidential-transfer extension entry.
pub fn encode_account(v: &ConfidentialAccountView) -> (r: Vec<u8>)
    requires
        model_wf(v@),
    ensures
        r@ == encoded_account(v@),
{
    let mut out: Vec<u8> = Vec::new();
    append(&mut out, v.mint.as_slice());
    append(&mut out, v.owner.as_slice());
    append_zeros(&mut out, 44);
    out.push(1u8);
    append_zeros(&mut out, 56);
    assert(out@ =~= encoded_base(v@));
    out.push(ACCOUNT_TYPE_ACCOUNT);
    out.push(5u8);
    out.push(0u8);
    out.push(39u8);
    out.push(1u8);
    assert(out@ =~= encoded_base(v@) + encoded_header());
    let ghost head = out@;
    out.push(1u8);
    append(&mut out, v.elgamal_pubkey.as_slice());
    append(&mut out, v.pending_balance_lo.as_slice());
    append(&mut out, v.pending_balance_hi.as_slice());
    append(&mut out, v.available_balance.as_slice());
    append(&mut out, v.decryptable_available_balance.as_slice());
    out.push(1u8);
    out.push(1u8);
    let counter = u64_to_le_bytes(v.pending_balance_credit_counter);
    append(&mut out, counter.as_slice());
    let maximum = u64_to_le_bytes(v.maximum_pending_balance_credit_counter);
    append(&mut out, maximum.as_slice());
    append_zeros(&mut out, 16);
    assert(out@ =~= head + encoded_extension(v@));
    out
}

/// Decoding the encoding of a well-formed confidential view gives the view
/// back.
pub proof fn lemma_decode_encode(m: AccountModel)
    requires
        model_wf(m),
    ensures
        decoded_account(encoded_account(m)) == Ok::<AccountModel, AccountDecodeError>(m),
{
    let base = encoded_base(m);
    let ext = encoded_extension(m);
    let e = encoded_account(m);
    lemma_auto_spec_u64_to_from_le_bytes();
    assert(base.len() == 165);
    assert(ext.len() == 295);
    assert(e.len() == 465);
    assert(base[108] == 1);
    assert(e.subrange(0, 165) =~= base);
    assert(e[72] == 0 && e[73] == 0 && e[74] == 0 && e[75] == 0);
    assert(e[108] == 1);
    assert(e[109] == 0 && e[110] == 0 && e[111] == 0 && e[112] == 0);
    assert(e[129] == 0 && e[130] == 0 && e[131] == 0 && e[132] == 0);
    assert(e[165] == 2);
    assert(account_base_check(e) == Ok::<(), AccountDecodeError>(()));
    assert(e[166] == 5 && e[167] == 0 && e[168] == 39 && e[169] == 1);
    assert(find_entry(e, 5, 166) == Ok::<(int, int), AccountDecodeError>((170, 295)));
    assert(e.subrange(170, 465) =~= ext);
    assert(extension_value(e, 5, 295) == Ok::<Seq<u8>, AccountDecodeError>(ext));
    assert(base.subrange(0, 32) =~= m.mint);
    assert(base.subrange(32, 64) =~= m.owner);
    assert(e.subrange(0, 32) =~= m.mint);
    assert(e.subrange(32, 64) =~= m.owner);
    assert(ext.subrange(1, 33) =~= m.elgamal_pubkey);
    assert(ext.subrange(33, 97) =~= m.pending_balance_lo);
    assert(ext.subrange(97, 161) =~= m.pending_balance_hi);
    assert(ext.subrange(161, 225) =~= m.available_balance);
    assert(ext.subrange(225, 261) =~= m.decryptable_available_balance);
    assert(ext.subrange(263, 271) =~= spec_u64_to_le_bytes(m.pending_balance_credit_counter));
    assert(ext.subrange(271, 279) =~= spec_u64_to_le_bytes(
        m.maximum_pending_balance_credit_counter,
    ));
    assert(model_from(e, ext) == m);
}

/// What the base fields of a mint, and the padding and account-kind byte
/// that precede its extensions, say of it.
pub open spec fn mint_base_check(b: Seq<u8>) -> Result<(), AccountDecodeError> {
    if b.len() < MINT_LEN || b.len() == MULTISIG_LEN {
        Err(AccountDecodeError::InvalidAccountData)
    } else if !tag_ok(b, 0) || b[45] > 1 || !tag_ok(b, 46) {
        Err(AccountDecodeError::InvalidAccountData)
    } else if b[45] == 0 {
        Err(AccountDecodeError::UninitializedAccount)
    } else if b.len() > MINT_LEN && (b.len() < TLV_START || (exists|i: int|
        MINT_LEN <= i < ACCOUNT_TYPE_INDEX && #[trigger] b[i] != 0) || b[165] != ACCOUNT_TYPE_MINT) {
        Err(AccountDecodeError::InvalidAccountData)
    } else {
        Ok(())
    }
}

/// The auditor key of a confidential-transfer mint configuration `v`; all
/// zeros means none.
pub open spec fn auditor_of(v: Seq<u8>) -> Option<Seq<u8>> {
    if v.subrange(33, 65) == zeros(32) {
        None
    } else {
        Some(v.subrange(33, 65))
    }
}

/// What decoding the bytes `b` of a mint gives: its decimals.
pub open spec fn decoded_mint_decimals(b: Seq<u8>) -> Result<u8, AccountDecodeError> {
    match mint_base_check(b) {
        Err(e) => Err(e),
        Ok(_) => Ok(b[44]),
    }
}

/// What reading the auditor key out of the bytes `b` of a mint gives.
pub open spec fn decoded_mint_auditor(b: Seq<u8>) -> Result<Option<Seq<u8>>, AccountDecodeError> {
    match mint_base_check(b) {
        Err(e) => Err(e),
        Ok(_) => match extension_value(
            b,
            EXT_CONFIDENTIAL_MINT as int,
            CONFIDENTIAL_MINT_EXT_LEN as int,
        ) {
            Ok(v) => Ok(auditor_of(v)),
            Err(e) => Err(e),
        },
    }
}

/// Checks the base fields of a mint and what precedes its extensions.
fn check_mint_base(b: &[u8]) -> (r: Result<(), AccountDecodeError>)
    ensures
        r == mint_base_check(b@),
{
    if b.len() < MINT_LEN || b.len() == MULTISIG_LEN {
        return Err(AccountDecodeError::InvalidAccountData);
    }
    let tags_ok = b[0] <= 1 && b[1] == 0 && b[2] == 0 && b[3] == 0 && b[46] <= 1 && b[47] == 0
        && b[48] == 0 && b[49] == 0;
    if !tags_ok || b[45] > 1 {
        return Err(AccountDecodeError::InvalidAccountData);
    }
    if b[45] == 0 {
        return Err(AccountDecodeError::UninitializedAccount);
    }
    if b.len() > MINT_LEN {
        if b.len() < TLV_START {
            return Err(AccountDecodeError::InvalidAccountData);
        }
        let mut i: usize = MINT_LEN;
        while i < ACCOUNT_TYPE_INDEX
            invariant
                MINT_LEN <= i <= ACCOUNT_TYPE_INDEX,
                b@.len() >= TLV_START,
                b@.len() != MULTISIG_LEN,
                tag_ok(b@, 0) && tag_ok(b@, 46) && b@[45] == 1,
                forall|j: int| MINT_LEN <= j < i ==> b@[j] == 0,
            decreases ACCOUNT_TYPE_INDEX - i,
        {
            if b[i] != 0 {
                assert(exists|j: int| MINT_LEN <= j < ACCOUNT_TYPE_INDEX && #[trigger] b@[j] != 0) by {
                    assert(MINT_LEN <= i < ACCOUNT_TYPE_INDEX && b@[i as int] != 0);
                }
                assert(mint_base_check(b@) == Err::<(), AccountDecodeError>(
                    AccountDecodeError::InvalidAccountData,
                ));
                return Err(AccountDecodeError::InvalidAccountData);
            }
            i = i + 1;
        }
        if b[ACCOUNT_TYPE_INDEX] != ACCOUNT_TYPE_MINT {
            return Err(AccountDecodeError::InvalidAccountData);
        }
    }
    Ok(())
}

/// Reads the decimals of a mint from its bytes.
pub fn decode_mint_decimals(b: &[u8]) -> (r: Result<u8, AccountDecodeError>)
    ensures
        r == decoded_mint_decimals(b@),
{
    match check_mint_base(b) {
        Err(e) => Err(e),
        Ok(_) => Ok(b[44]),
    }
}

/// Reads the auditor key of a mint from its confidential-transfer
/// configuration.
pub fn decode_mint_auditor(b: &[u8]) -> (r: Result<Option<Vec<u8>>, AccountDecodeError>)
    ensures
        match r {
            Ok(Some(k)) => decoded_mint_auditor(b@) == Ok::<
                Option<Seq<u8>>,
                AccountDecodeError,
            >(Some(k@)),
            Ok(None) => decoded_mint_auditor(b@) == Ok::<Option<Seq<u8>>, AccountDecodeError>(
                None,
            ),
            Err(e) => decoded_mint_auditor(b@) == Err::<Option<Seq<u8>>, AccountDecodeError>(e),
        },
{
    match check_mint_base(b) {
        Err(e) => Err(e),
        Ok(_) => match find_extension_value(b, EXT_CONFIDENTIAL_MINT, CONFIDENTIAL_MINT_EXT_LEN) {
            Err(e) => Err(e),
            Ok((s, e)) => {
                let ghost v = b@.subrange(s as int, e as int);
                let mut all_zero = true;
                let mut i: usize = s + 33;
                while i < e
                    invariant
                        s + 33 <= i <= e,
                        e == s + 65,
                        e <= b@.len(),
                        all_zero <==> forall|j: int| s + 33 <= j < i ==> b@[j] == 0,
                    decreases e - i,
                {
                    if b[i] != 0 {
                        all_zero = false;
                    }
                    i = i + 1;
                }
                let key = copy_bytes(b, s + 33, e);
                assert(key@ =~= v.subrange(33, 65));
                if all_zero {
                    assert(v.subrange(33, 65) =~= zeros(32));
                    Ok(None)
                } else {
                    assert(v.subrange(33, 65) != zeros(32)) by {
                        let j = choose|j: int| s + 33 <= j < e && b@[j] != 0;
                        assert(v.subrange(33, 65)[j - s - 33] != 0);
                    }
                    Ok(Some(key))
                }
            },
        },
    }
}

} // verus!
