//! Assembly of unsigned transactions for confidential token transfers.
//!
//! Each request is handled on its own: caller-supplied account bytes are
//! decoded, keys are derived from caller-supplied signatures, amounts and
//! balances are checked, and the operation is planned as an ordered batch of
//! transactions in which every proof staging account is created, verified,
//! used and closed in turn.
use vstd::prelude::*;

pub mod account;
pub mod amount;
pub mod audit;
pub mod crypto;
pub mod encoding;
pub mod errors;
pub mod instruction_data;
pub mod models;
pub mod parse;
pub mod pipeline;
pub mod plan;
pub mod proofs;

verus! {

} // verus!
