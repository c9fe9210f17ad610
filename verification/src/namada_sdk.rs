//! The client side of ledger queries: what a query request carries and what
//! a simple request hands back.

pub mod fake_types;

use crate::namada_sdk::fake_types::{BlockHeight, EncodedResponseQuery};
use vstd::prelude::*;

verus! {

/// The arguments of a query request to a ledger node: the storage path,
/// optional request data, an optional block height and whether a proof is
/// asked for.
pub struct QueryRequest {
    pub path: String,
    pub data: Option<Vec<u8>>,
    pub height: Option<BlockHeight>,
    pub prove: bool,
}

/// The request that a simple query sends: the path alone, with no data, no
/// height and no proof.
pub fn simple_query_request(path: String) -> (req: QueryRequest)
    ensures
        req.path == path,
        req.data is None,
        req.height is None,
        !req.prove,
{
    QueryRequest { path, data: None, height: None, prove: false }
}

/// What a simple query hands back of the answer to its request: the response
/// data alone on success, the error unchanged otherwise.
pub fn simple_request_data<E>(response: Result<EncodedResponseQuery, E>) -> (res: Result<Vec<u8>, E>)
    ensures
        match response {
            Ok(query) => res == Ok::<Vec<u8>, E>(query.data),
            Err(err) => res == Err::<Vec<u8>, E>(err),
        },
{
    match response {
        Ok(query) => Ok(query.data),
        Err(err) => Err(err),
    }
}

} // verus!
