use vstd::prelude::*;

verus! {

/// The closed set of ways an action or a block can fail.
///
/// `BlockNumberMismatch` is a block-level failure: it rejects a whole block.
/// The remaining variants are call-level failures: they are reported for the
/// extrinsic that raised them and never abort the surrounding block.
#[derive(Clone, Copy, Debug, PartialEq, Eq, Structural)]
pub enum DispatchError {
    /// The declared header height differs from the advanced chain height.
    BlockNumberMismatch,
    /// The caller's balance is smaller than the amount to transfer.
    InsufficientBalance,
    /// Crediting the recipient would exceed the representable balance range.
    BalanceOverflow,
    /// The content is already owned by some account.
    ClaimAlreadyExists,
    /// A revocation named content that nobody owns.
    ClaimNotFound,
    /// A revocation came from an account that does not own the content.
    NotClaimOwner,
}

/// The outcome of dispatching a single call.
pub type DispatchResult = Result<(), DispatchError>;

/// A block header: the height the block claims to sit at.
pub struct Header<BlockNumber> {
    pub block_number: BlockNumber,
}

/// One caller-attributed action submitted for execution within a block.
pub struct Extrinsic<Caller, Call> {
    pub caller: Caller,
    pub call: Call,
}

/// A header together with the ordered actions to execute under it.
pub struct Block<Header, Extrinsic> {
    pub header: Header,
    pub extrinsics: Vec<Extrinsic>,
}

} // verus!
