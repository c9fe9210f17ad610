//! An SDK object for web browsers, made with the address of a node's RPC
//! endpoint, through which balance queries are made.

use vstd::prelude::*;

verus! {

/// Exposes the Namada SDK to web browsers.
pub struct NamadaWebSdk {
    rpc_address: String,
}

/// The browser client that the SDK hands its queries to, bound to the
/// node's RPC address.
pub struct NamadaWebClient {
    pub rpc_address: String,
}

impl View for NamadaWebSdk {
    type V = Seq<char>;

    /// The RPC address of the node that the SDK queries.
    closed spec fn view(&self) -> Seq<char> {
        self.rpc_address@
    }
}

impl NamadaWebSdk {
    /// Creates an SDK for the node at the given RPC address.
    pub fn new(rpc_address: String) -> (sdk: Self)
        ensures
            sdk@ == rpc_address@,
    {
        NamadaWebSdk { rpc_address: rpc_address }
    }

    /// The client through which a query of this SDK is made: one bound to
    /// the SDK's RPC address.
    pub fn web_client(&self) -> (client: NamadaWebClient)
        ensures
            client.rpc_address@ == self@,
    {
        let rpc_address = self.rpc_address.clone();
        NamadaWebClient { rpc_address }
    }
}

/// A client made by an SDK that was created for an address queries that same
/// address.
pub proof fn lemma_client_keeps_rpc_address(rpc_address: String, sdk: NamadaWebSdk, client: NamadaWebClient)
    requires
        sdk@ == rpc_address@,
        client.rpc_address@ == sdk@,
    ensures
        client.rpc_address@ == rpc_address@,
{
}

} // verus!
