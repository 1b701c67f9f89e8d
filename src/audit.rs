use vstd::prelude::*;
use crate::account::copy_bytes;
use crate::errors::AppError;
use crate::crypto::{audit_amount, audited_amount, SIGNATURE_LEN};
use crate::encoding::{base64_decoded_of, decode_base64_field};
use crate::models::AuditTransactionRequest;
use crate::pipeline::bytes_equal;

verus! {

/// Tag of the token program's confidential-transfer instructions.
pub const CONFIDENTIAL_TRANSFER_TAG: u8 = 27;
/// Length of the data of a confidential transfer: two tags, the new
/// decryptable balance (36), the auditor's low and high ciphertexts (64
/// each) and three proof offsets.
pub const TRANSFER_DATA_LEN: usize = 169;
/// Offset of the auditor's low ciphertext in the data of a transfer.
pub const AUDITOR_LO_OFFSET: usize = 38;
/// Offset of the auditor's high ciphertext in the data of a transfer.
pub const AUDITOR_HI_OFFSET: usize = 102;
/// Prefix byte of a version-0 message.
pub const V0_PREFIX: u8 = 128;

/// The token-2022 program's address.
pub open spec fn token_program_bytes() -> Seq<u8> {
    seq![
        6u8, 221u8, 246u8, 225u8, 238u8, 117u8, 143u8, 222u8, 24u8, 66u8, 93u8, 188u8, 228u8,
        108u8, 205u8, 218u8, 182u8, 26u8, 252u8, 77u8, 131u8, 185u8, 13u8, 39u8, 254u8, 189u8,
        249u8, 40u8, 216u8, 161u8, 139u8, 252u8,
    ]
}

/// Relies on spl_token_2022's `id()`, the token-2022 program's address.
#[verifier::external_body]
fn token_program_id() -> (r: Vec<u8>)
    ensures
        r@ == token_program_bytes(),
{
    spl_token_2022::id().to_bytes().to_vec()
}

/// A length written in one to three bytes, seven bits each, low first, at
/// `p`: its value and the position after it. No byte after the first may be
/// zero, and the value must fit in 16 bits.
pub open spec fn short_u16(b: Seq<u8>, p: int) -> Option<(int, int)> {
    if p < 0 || p >= b.len() {
        None
    } else if b[p] < 128 {
        Some((b[p] as int, p + 1))
    } else if p + 1 >= b.len() || b[p + 1] == 0 {
        None
    } else if b[p + 1] < 128 {
        Some((b[p] as int - 128 + b[p + 1] as int * 128, p + 2))
    } else if p + 2 >= b.len() || b[p + 2] == 0 || b[p + 2] > 3 {
        None
    } else {
        Some((b[p] as int - 128 + (b[p + 1] as int - 128) * 128 + b[p + 2] as int * 16384, p + 3))
    }
}

/// Where an instruction of a message keeps its parts.
#[derive(Clone, Copy, Debug, PartialEq, Eq, Structural)]
pub struct IxSpan {
    pub program_index: u8,
    pub accounts_start: usize,
    pub accounts_len: usize,
    pub data_start: usize,
    pub data_len: usize,
}

/// One compiled instruction at `p`: program index, account indexes, data.
pub open spec fn parse_ix(b: Seq<u8>, p: int) -> Option<(IxSpan, int)> {
    if p < 0 || p >= b.len() {
        None
    } else {
        match short_u16(b, p + 1) {
            None => None,
            Some((na, q)) => if q + na > b.len() {
                None
            } else {
                match short_u16(b, q + na) {
                    None => None,
                    Some((nd, r)) => if r + nd > b.len() {
                        None
                    } else {
                        Some(
                            (
                                IxSpan {
                                    program_index: b[p],
                                    accounts_start: q as usize,
                                    accounts_len: na as usize,
                                    data_start: r as usize,
                                    data_len: nd as usize,
                                },
                                r + nd,
                            ),
                        )
                    },
                }
            },
        }
    }
}

/// `n` compiled instructions from `p`, and the position after them.
pub open spec fn parse_ixs(b: Seq<u8>, p: int, n: nat) -> Option<(Seq<IxSpan>, int)>
    decreases n,
{
    if n == 0 {
        Some((Seq::empty(), p))
    } else {
        match parse_ix(b, p) {
            None => None,
            Some((ix, q)) => match parse_ixs(b, q, (n - 1) as nat) {
                None => None,
                Some((rest, e)) => Some((seq![ix] + rest, e)),
            },
        }
    }
}

/// One address-table lookup at `p`: a table address and two index lists.
pub open spec fn parse_lookup(b: Seq<u8>, p: int) -> Option<int> {
    match short_u16(b, p + 32) {
        None => None,
        Some((nw, q)) => if q + nw > b.len() {
            None
        } else {
            match short_u16(b, q + nw) {
                None => None,
                Some((nr, r)) => if r + nr > b.len() {
                    None
                } else {
                    Some(r + nr)
                },
            }
        },
    }
}

/// `n` address-table lookups from `p`, and the position after them.
pub open spec fn parse_lookups(b: Seq<u8>, p: int, n: nat) -> Option<int>
    decreases n,
{
    if n == 0 {
        Some(p)
    } else {
        match parse_lookup(b, p) {
            None => None,
            Some(q) => parse_lookups(b, q, (n - 1) as nat),
        }
    }
}

/// A serialized transaction whose message is of version 0: where its
/// account keys start, how many there are, and its instructions. Bytes after
/// the message are allowed.
pub open spec fn parsed_message(b: Seq<u8>) -> Option<(int, int, Seq<IxSpan>)> {
    match short_u16(b, 0) {
        None => None,
        Some((ns, sigs_at)) => {
            let prefix_at = sigs_at + 64 * ns;
            if prefix_at >= b.len() || b[prefix_at] != V0_PREFIX {
                None
            } else {
                match short_u16(b, prefix_at + 4) {
                    None => None,
                    Some((nk, keys_at)) => {
                        let ixs_len_at = keys_at + 32 * nk + 32;
                        if ixs_len_at > b.len() {
                            None
                        } else {
                            match short_u16(b, ixs_len_at) {
                                None => None,
                                Some((ni, ixs_at)) => match parse_ixs(b, ixs_at, ni as nat) {
                                    None => None,
                                    Some((ixs, lookups_len_at)) => match short_u16(b, lookups_len_at) {
                                        None => None,
                                        Some((nl, lookups_at)) => match parse_lookups(b, lookups_at, nl as nat) {
                                            None => None,
                                            Some(_) => Some((keys_at, nk, ixs)),
                                        },
                                    },
                                },
                            }
                        }
                    },
                }
            }
        },
    }
}

/// The account key with index `i`.
pub open spec fn key_at(b: Seq<u8>, keys_start: int, i: int) -> Seq<u8> {
    b.subrange(keys_start + 32 * i, keys_start + 32 * i + 32)
}

/// The instruction is a confidential-transfer instruction of the token
/// program.
pub open spec fn is_transfer_ix(b: Seq<u8>, keys_start: int, nk: int, ix: IxSpan) -> bool {
    &&& ix.program_index < nk
    &&& key_at(b, keys_start, ix.program_index as int) == token_program_bytes()
    &&& ix.data_len >= 1
    &&& b[ix.data_start as int] == CONFIDENTIAL_TRANSFER_TAG
}

/// The first confidential-transfer instruction from position `i` on. Each
/// instruction looked at must name a program among the message's keys; the
/// scan stops with an error at one that does not.
pub open spec fn scan_transfer(
    b: Seq<u8>,
    keys_start: int,
    nk: int,
    ixs: Seq<IxSpan>,
    i: int,
) -> Result<int, AppError>
    decreases ixs.len() - i,
{
    if i < 0 || i >= ixs.len() {
        Err(AppError::NoConfidentialTransferFound)
    } else if ixs[i].program_index >= nk {
        Err(AppError::SerializationError)
    } else if is_transfer_ix(b, keys_start, nk, ixs[i]) {
        Ok(i)
    } else {
        scan_transfer(b, keys_start, nk, ixs, i + 1)
    }
}

/// What an auditor needs of a confidential transfer.
pub struct AuditedTransfer {
    pub ciphertext_lo: Vec<u8>,
    pub ciphertext_hi: Vec<u8>,
    pub sender: Vec<u8>,
    pub recipient: Vec<u8>,
    pub mint: Vec<u8>,
}

/// The instruction's first three accounts are keys of the message.
pub open spec fn accounts_ok(b: Seq<u8>, nk: int, ix: IxSpan) -> bool {
    &&& ix.accounts_len >= 3
    &&& b[ix.accounts_start as int] < nk
    &&& b[ix.accounts_start + 1] < nk
    &&& b[ix.accounts_start + 2] < nk
}

/// Why no transfer can be read out of a serialized transaction; `None`
/// where one can.
pub open spec fn extract_error(b: Seq<u8>) -> Option<AppError> {
    match parsed_message(b) {
        None => Some(AppError::SerializationError),
        Some((ks, nk, ixs)) => match scan_transfer(b, ks, nk, ixs, 0) {
            Err(e) => Some(e),
            Ok(i) => if !accounts_ok(b, nk, ixs[i]) || ixs[i].data_len != TRANSFER_DATA_LEN {
                Some(AppError::InvalidInstructionData)
            } else {
                None
            },
        },
    }
}

/// What is read of the transfer where `extract_error` gives `None`. The
/// transfer instruction lists the source account, the mint, then the
/// destination account.
pub open spec fn extracted(b: Seq<u8>, r: &AuditedTransfer) -> bool {
    let (ks, nk, ixs) = parsed_message(b)->0;
    let ix = ixs[scan_transfer(b, ks, nk, ixs, 0)->Ok_0];
    let d = ix.data_start as int;
    let a = ix.accounts_start as int;
    &&& r.ciphertext_lo@ == b.subrange(d + 38, d + 102)
    &&& r.ciphertext_hi@ == b.subrange(d + 102, d + 166)
    &&& r.sender@ == key_at(b, ks, b[a] as int)
    &&& r.mint@ == key_at(b, ks, b[a + 1] as int)
    &&& r.recipient@ == key_at(b, ks, b[a + 2] as int)
}

/// The instruction's parts lie within the bytes.
pub open spec fn span_within(b: Seq<u8>, ix: IxSpan) -> bool {
    ix.accounts_start + ix.accounts_len <= b.len() && ix.data_start + ix.data_len <= b.len()
}

/// Reads a short length at `p`.
fn read_short_u16(b: &[u8], p: usize) -> (r: Option<(usize, usize)>)
    ensures
        match r {
            Some((v, q)) => short_u16(b@, p as int) == Some((v as int, q as int)) && q <= b@.len()
                && v < 0x1_0000,
            None => short_u16(b@, p as int) is None,
        },
{
    if p >= b.len() {
        return None;
    }
    let b0 = b[p];
    if b0 < 128 {
        return Some((b0 as usize, p + 1));
    }
    if p + 1 >= b.len() || b[p + 1] == 0 {
        return None;
    }
    let b1 = b[p + 1];
    if b1 < 128 {
        return Some(((b0 - 128) as usize + (b1 as usize) * 128, p + 2));
    }
    if p + 2 >= b.len() || b[p + 2] == 0 || b[p + 2] > 3 {
        return None;
    }
    let b2 = b[p + 2];
    Some(((b0 - 128) as usize + ((b1 - 128) as usize) * 128 + (b2 as usize) * 16384, p + 3))
}

/// Reads one compiled instruction at `p`.
fn parse_instruction(b: &[u8], p: usize) -> (r: Option<(IxSpan, usize)>)
    ensures
        match r {
            Some((ix, q)) => parse_ix(b@, p as int) == Some((ix, q as int)) && q <= b@.len()
                && span_within(b@, ix),
            None => parse_ix(b@, p as int) is None,
        },
{
    if p >= b.len() {
        return None;
    }
    let (na, q) = match read_short_u16(b, p + 1) {
        Some(x) => x,
        None => return None,
    };
    if na > b.len() - q {
        return None;
    }
    let (nd, r) = match read_short_u16(b, q + na) {
        Some(x) => x,
        None => return None,
    };
    if nd > b.len() - r {
        return None;
    }
    let ix = IxSpan {
        program_index: b[p],
        accounts_start: q,
        accounts_len: na,
        data_start: r,
        data_len: nd,
    };
    Some((ix, r + nd))
}

/// `acc` put in front of the instructions of a parse.
pub open spec fn prepend(acc: Seq<IxSpan>, o: Option<(Seq<IxSpan>, int)>) -> Option<
    (Seq<IxSpan>, int),
> {
    match o {
        Some((rest, e)) => Some((acc + rest, e)),
        None => None,
    }
}

/// Reads `n` compiled instructions from `start`.
fn parse_instructions(b: &[u8], start: usize, n: usize) -> (r: Option<(Vec<IxSpan>, usize)>)
    ensures
        match r {
            Some((v, e)) => parse_ixs(b@, start as int, n as nat) == Some((v@, e as int))
                && forall|j: int| 0 <= j < v@.len() ==> span_within(b@, #[trigger] v@[j]),
            None => parse_ixs(b@, start as int, n as nat) is None,
        },
{
    let mut out: Vec<IxSpan> = Vec::new();
    let mut p = start;
    let mut i: usize = 0;
    assert(out@ + Seq::<IxSpan>::empty() =~= out@);
    while i < n
        invariant
            i <= n,
            parse_ixs(b@, start as int, n as nat) == prepend(out@, parse_ixs(b@, p as int, (n - i) as nat)),
            forall|j: int| 0 <= j < out@.len() ==> span_within(b@, #[trigger] out@[j]),
        decreases n - i,
    {
        match parse_instruction(b, p) {
            None => {
                return None;
            },
            Some((ix, q)) => {
                let ghost old_out = out@;
                let ghost m = (n - i) as nat;
                proof {
                    match parse_ixs(b@, q as int, (m - 1) as nat) {
                        Some((rest, e)) => {
                            assert(old_out + (seq![ix] + rest) =~= old_out.push(ix) + rest);
                        },
                        None => {},
                    }
                }
                out.push(ix);
                p = q;
                i = i + 1;
            },
        }
    }
    assert(out@ + Seq::<IxSpan>::empty() =~= out@);
    Some((out, p))
}

/// Reads one address-table lookup at `p`.
fn parse_table_lookup(b: &[u8], p: usize) -> (r: Option<usize>)
    ensures
        match r {
            Some(q) => parse_lookup(b@, p as int) == Some(q as int),
            None => parse_lookup(b@, p as int) is None,
        },
{
    if p >= b.len() || b.len() - p <= 32 {
        return None;
    }
    let (nw, q) = match read_short_u16(b, p + 32) {
        Some(x) => x,
        None => return None,
    };
    if nw > b.len() - q {
        return None;
    }
    let (nr, r) = match read_short_u16(b, q + nw) {
        Some(x) => x,
        None => return None,
    };
    if nr > b.len() - r {
        return None;
    }
    Some(r + nr)
}

/// Reads `n` address-table lookups from `start`.
fn parse_table_lookups(b: &[u8], start: usize, n: usize) -> (r: bool)
    ensures
        r == parse_lookups(b@, start as int, n as nat) is Some,
{
    let mut p = start;
    let mut i: usize = 0;
    while i < n
        invariant
            i <= n,
            parse_lookups(b@, start as int, n as nat) == parse_lookups(b@, p as int, (n - i) as nat),
        decreases n - i,
    {
        match parse_table_lookup(b, p) {
            None => {
                return false;
            },
            Some(q) => {
                p = q;
                i = i + 1;
            },
        }
    }
    true
}

/// Reads a serialized transaction whose message is of version 0.
fn parse_message(b: &[u8]) -> (r: Option<(usize, usize, Vec<IxSpan>)>)
    ensures
        match r {
            Some((ks, nk, ixs)) => {
                &&& parsed_message(b@) == Some((ks as int, nk as int, ixs@))
                &&& ks + 32 * nk <= b@.len()
                &&& forall|j: int| 0 <= j < ixs@.len() ==> span_within(b@, #[trigger] ixs@[j])
            },
            None => parsed_message(b@) is None,
        },
{
    let (ns, sigs_at) = match read_short_u16(b, 0) {
        Some(x) => x,
        None => return None,
    };
    if 64 * ns >= b.len() - sigs_at {
        return None;
    }
    let prefix_at = sigs_at + 64 * ns;
    if b[prefix_at] != V0_PREFIX {
        return None;
    }
    let (nk, keys_at) = match read_short_u16(b, prefix_at + 4) {
        Some(x) => x,
        None => return None,
    };
    if 32 * nk + 32 > b.len() - keys_at {
        return None;
    }
    let ixs_len_at = keys_at + 32 * nk + 32;
    let (ni, ixs_at) = match read_short_u16(b, ixs_len_at) {
        Some(x) => x,
        None => return None,
    };
    let (ixs, lookups_len_at) = match parse_instructions(b, ixs_at, ni) {
        Some(x) => x,
        None => return None,
    };
    let (nl, lookups_at) = match read_short_u16(b, lookups_len_at) {
        Some(x) => x,
        None => return None,
    };
    if !parse_table_lookups(b, lookups_at, nl) {
        return None;
    }
    Some((keys_at, nk, ixs))
}

/// Reads, from a serialized transaction, the first confidential-transfer
/// instruction of the token program: the auditor's two ciphertexts of the
/// amount and, by their roles in the instruction, the source account, the
/// mint and the destination account.
pub fn extract_confidential_transfer(b: &[u8]) -> (r: Result<AuditedTransfer, AppError>)
    ensures
        match r {
            Ok(t) => extract_error(b@) is None && extracted(b@, &t) && t.ciphertext_lo@.len() == 64
                && t.ciphertext_hi@.len() == 64,
            Err(e) => extract_error(b@) == Some(e),
        },
{
    let (ks, nk, ixs) = match parse_message(b) {
        Some(x) => x,
        None => return Err(AppError::SerializationError),
    };
    let token = token_program_id();
    let mut i: usize = 0;
    let mut found: Option<usize> = None;
    while i < ixs.len() && found.is_none()
        invariant
            i <= ixs@.len(),
            parsed_message(b@) == Some((ks as int, nk as int, ixs@)),
            ks + 32 * nk <= b@.len(),
            forall|j: int| 0 <= j < ixs@.len() ==> span_within(b@, #[trigger] ixs@[j]),
            token@ == token_program_bytes(),
            found is None ==> scan_transfer(b@, ks as int, nk as int, ixs@, 0) == scan_transfer(
                b@,
                ks as int,
                nk as int,
                ixs@,
                i as int,
            ),
            found matches Some(f) ==> scan_transfer(b@, ks as int, nk as int, ixs@, 0) == Ok::<
                int,
                AppError,
            >(f as int) && f < ixs@.len(),
        decreases ixs@.len() - i,
    {
        let ix = ixs[i];
        assert(span_within(b@, ixs@[i as int]));
        let pi = ix.program_index as usize;
        if pi >= nk {
            assert(ix == ixs@[i as int]);
            assert(scan_transfer(b@, ks as int, nk as int, ixs@, i as int) == Err::<int, AppError>(
                AppError::SerializationError,
            ));
            return Err(AppError::SerializationError);
        }
        let is_transfer = if ix.data_len >= 1 {
            assert(32 * pi + 32 <= 32 * nk) by (nonlinear_arith)
                requires
                    pi < nk,
            ;
            let blen = b.len();
            assert(ks + 32 * pi + 32 <= blen);
            let key = &b[ks + 32 * pi..ks + 32 * pi + 32];
            bytes_equal(key, token.as_slice()) && b[ix.data_start] == CONFIDENTIAL_TRANSFER_TAG
        } else {
            false
        };
        assert(is_transfer == is_transfer_ix(b@, ks as int, nk as int, ixs@[i as int]));
        if is_transfer {
            found = Some(i);
        }
        i = i + 1;
    }
    let f = match found {
        Some(f) => f,
        None => return Err(AppError::NoConfidentialTransferFound),
    };
    let ix = ixs[f];
    assert(span_within(b@, ixs@[f as int]));
    if ix.accounts_len < 3 {
        return Err(AppError::InvalidInstructionData);
    }
    let a0 = b[ix.accounts_start] as usize;
    assert(ix == ixs@[f as int]);
    let a1 = b[ix.accounts_start + 1] as usize;
    let a2 = b[ix.accounts_start + 2] as usize;
    if a0 >= nk || a1 >= nk || a2 >= nk || ix.data_len != TRANSFER_DATA_LEN {
        return Err(AppError::InvalidInstructionData);
    }
    let d = ix.data_start;
    assert(32 * a0 + 32 <= 32 * nk && 32 * a1 + 32 <= 32 * nk && 32 * a2 + 32 <= 32 * nk)
        by (nonlinear_arith)
        requires
            a0 < nk,
            a1 < nk,
            a2 < nk,
    ;
    Ok(
        AuditedTransfer {
            ciphertext_lo: copy_bytes(b, d + AUDITOR_LO_OFFSET, d + AUDITOR_HI_OFFSET),
            ciphertext_hi: copy_bytes(b, d + AUDITOR_HI_OFFSET, d + 166),
            sender: copy_bytes(b, ks + 32 * a0, ks + 32 * a0 + 32),
            mint: copy_bytes(b, ks + 32 * a1, ks + 32 * a1 + 32),
            recipient: copy_bytes(b, ks + 32 * a2, ks + 32 * a2 + 32),
        },
    )
}

/// What auditing a transaction gives: the amount of its first confidential
/// transfer, read with the auditor's key, or the error that stops it.
pub open spec fn audit_outcome(req: &AuditTransactionRequest) -> Result<u64, AppError> {
    match (base64_decoded_of(req.transaction_data@), base64_decoded_of(req.elgamal_signature@)) {
        (None, _) => Err(AppError::Base64Error),
        (Some(_), None) => Err(AppError::InvalidAuditorSignature),
        (Some(tx), Some(sig)) => if sig.len() != SIGNATURE_LEN {
            Err(AppError::InvalidAuditorSignature)
        } else {
            match extract_error(tx) {
                Some(e) => Err(e),
                None => {
                    let (ks, nk, ixs) = parsed_message(tx)->0;
                    let d = ixs[scan_transfer(tx, ks, nk, ixs, 0)->Ok_0].data_start as int;
                    audited_amount(sig, tx.subrange(d + 38, d + 102), tx.subrange(d + 102, d + 166))
                },
            }
        },
    }
}

/// Audits a serialized transaction: finds its confidential transfer and
/// reads the amount with the key that the auditor's signature derives.
pub fn audit_transaction(req: &AuditTransactionRequest) -> (r: Result<
    (u64, AuditedTransfer),
    AppError,
>)
    ensures
        match r {
            Ok((amount, t)) => audit_outcome(req) == Ok::<u64, AppError>(amount) && extracted(
                base64_decoded_of(req.transaction_data@)->0,
                &t,
            ),
            Err(e) => audit_outcome(req) == Err::<u64, AppError>(e),
        },
{
    let tx = decode_base64_field(req.transaction_data.as_str())?;
    let sig = match decode_base64_field(req.elgamal_signature.as_str()) {
        Ok(s) => s,
        Err(_) => return Err(AppError::InvalidAuditorSignature),
    };
    if sig.len() != SIGNATURE_LEN {
        return Err(AppError::InvalidAuditorSignature);
    }
    let t = extract_confidential_transfer(tx.as_slice())?;
    let amount = audit_amount(
        sig.as_slice(),
        t.ciphertext_lo.as_slice(),
        t.ciphertext_hi.as_slice(),
    )?;
    Ok((amount, t))
}

} // verus!
