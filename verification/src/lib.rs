//! Verified core of a web client for the Namada SDK: the values handed to and
//! taken from the JavaScript networking helper, and the conversions between
//! them. The asynchronous plumbing and the JavaScript bindings live in `app/`.

pub mod codec;
pub mod mock_web_namada;
pub mod namada_sdk;
pub mod namada_web_sdk;
pub mod web_namada;

use vstd::prelude::*;
use crate::web_namada::BalanceQuery;

verus! {

/// The balance query that the testing page makes for an address: the
/// account is the NAM token's address and the token is the address given.
pub fn ui_balance_query(address_to_query: String) -> (query: BalanceQuery)
    ensures
        query.account_address@
            == "atest1v4ehgw36x3prswzxggunzv6pxqmnvdj9xvcyzvpsggeyvs3cg9qnywf589qnwvfsg5erg3fkl09rg5"@,
        query.token_address == address_to_query,
{
    let nam_address =
        "atest1v4ehgw36x3prswzxggunzv6pxqmnvdj9xvcyzvpsggeyvs3cg9qnywf589qnwvfsg5erg3fkl09rg5";
    BalanceQuery { account_address: nam_address.to_owned(), token_address: address_to_query }
}

} // verus!
