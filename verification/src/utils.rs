use vstd::prelude::*;

verus! {

use crate::balances;
use crate::proof_of_existence;
use crate::support;

/// The concrete types this runtime instantiates its ledgers with.
pub type AccountId = String;

pub type BlockNumber = u32;

pub type Nonce = u32;

pub type Balance = u128;

pub type Content = String;

pub type Extrinsic = support::Extrinsic<AccountId, RuntimeCall>;

pub type Header = support::Header<BlockNumber>;

pub type Block = support::Block<Header, Extrinsic>;

/// The closed union over all ledgers' call sets: which ledger an extrinsic
/// addresses, and which of its operations.
pub enum RuntimeCall {
    Balances(balances::Call),
    ProofOfExistence(proof_of_existence::Call),
}

/// One recorded call-level failure: which block, which extrinsic within it,
/// and what went wrong. Failures are reported to the caller of
/// `execute_block`, never raised as errors.
#[derive(Clone, Copy, Debug, PartialEq, Eq, Structural)]
pub struct ExtrinsicFailure {
    pub block_number: BlockNumber,
    pub index: usize,
    pub error: support::DispatchError,
}

} // verus!
