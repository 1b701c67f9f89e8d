use vstd::prelude::*;
use vstd::bytes::*;
use crate::account::append;

verus! {

/// Tag of the system program's create-account instruction.
pub const CREATE_ACCOUNT_TAG: u32 = 0;
/// Tag of the compute-budget instruction that sets the unit limit.
pub const SET_COMPUTE_UNIT_LIMIT_TAG: u8 = 2;
/// Tag of the compute-budget instruction that sets the unit price.
pub const SET_COMPUTE_UNIT_PRICE_TAG: u8 = 3;

/// The data of a create-account instruction: its tag, the lamports, the
/// size, and the owning program, little-endian.
pub open spec fn create_account_bytes(lamports: u64, space: u64, owner: Seq<u8>) -> Seq<u8> {
    spec_u32_to_le_bytes(CREATE_ACCOUNT_TAG) + spec_u64_to_le_bytes(lamports)
        + spec_u64_to_le_bytes(space) + owner
}

/// Encodes the data of a create-account instruction.
pub fn create_account_data(lamports: u64, space: u64, owner: &[u8]) -> (r: Vec<u8>)
    requires
        owner@.len() == 32,
    ensures
        r@ == create_account_bytes(lamports, space, owner@),
        r@.len() == 52,
{
    let mut out = u32_to_le_bytes(CREATE_ACCOUNT_TAG);
    let l = u64_to_le_bytes(lamports);
    append(&mut out, l.as_slice());
    let s = u64_to_le_bytes(space);
    append(&mut out, s.as_slice());
    append(&mut out, owner);
    proof {
        lemma_auto_spec_u32_to_from_le_bytes();
    }
    out
}

/// Encodes the data of the instruction that sets the compute-unit limit.
pub fn compute_unit_limit_data(units: u32) -> (r: Vec<u8>)
    ensures
        r@ == seq![SET_COMPUTE_UNIT_LIMIT_TAG] + spec_u32_to_le_bytes(units),
{
    let mut out: Vec<u8> = Vec::new();
    out.push(SET_COMPUTE_UNIT_LIMIT_TAG);
    let b = u32_to_le_bytes(units);
    append(&mut out, b.as_slice());
    assert(out@ =~= seq![SET_COMPUTE_UNIT_LIMIT_TAG] + spec_u32_to_le_bytes(units));
    out
}

/// Encodes the data of the instruction that sets the compute-unit price.
pub fn compute_unit_price_data(micro_lamports: u64) -> (r: Vec<u8>)
    ensures
        r@ == seq![SET_COMPUTE_UNIT_PRICE_TAG] + spec_u64_to_le_bytes(micro_lamports),
{
    let mut out: Vec<u8> = Vec::new();
    out.push(SET_COMPUTE_UNIT_PRICE_TAG);
    let b = u64_to_le_bytes(micro_lamports);
    append(&mut out, b.as_slice());
    assert(out@ =~= seq![SET_COMPUTE_UNIT_PRICE_TAG] + spec_u64_to_le_bytes(micro_lamports));
    out
}

} // verus!
