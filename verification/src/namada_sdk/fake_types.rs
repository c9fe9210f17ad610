//! Plain stand-ins for the SDK's query types.

use vstd::prelude::*;

verus! {

/// The height of a block.
pub struct BlockHeight(pub u64);

/// An epoch of the chain.
pub struct Epoch(pub u64);

/// The answer of a ledger node to a query.
#[derive(Clone, Debug, Default)]
pub struct ResponseQuery<T> {
    /// Response data to be borsh encoded
    pub data: T,
    /// Non-deterministic log of the request execution
    pub info: String,
    /// Optional proof - used for storage value reads which request `prove`
    pub proof: Option<String>,
}

/// [`ResponseQuery`] with borsh-encoded `data` field
pub type EncodedResponseQuery = ResponseQuery<Vec<u8>>;

} // verus!
