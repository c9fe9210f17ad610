//! The browser client as first written against the plain stand-in types:
//! responses are taken over field by field, with no decoding, and a request
//! sends the block height that it is given.

use crate::codec::{decimal_digits, u64_to_string};
use crate::namada_sdk::fake_types::{BlockHeight, EncodedResponseQuery, ResponseQuery};
use crate::web_namada::{data_as_string, request_text, sends_text, PerformRequestArgs, RequestError, ResponseQuerySerde};
use vstd::prelude::*;

verus! {

/// The client that performs ledger queries through the browser.
pub struct NamadaWebClient;

/// The response fields that JavaScript is handed for `data`, `info` and `proof`.
pub open spec fn js_response(data: Vec<u8>, info: String, proof: Option<String>) -> ResponseQuerySerde {
    ResponseQuerySerde { data, info, proof }
}

/// The query response that the fields of a JavaScript response stand for.
pub open spec fn response_of(response: ResponseQuerySerde) -> EncodedResponseQuery {
    ResponseQuery { data: response.data, info: response.info, proof: response.proof }
}

/// How a request ends, given the helper's reply: a failed call gives
/// `RequestError::Other`, a response gives the query that it stands for.
pub open spec fn request_outcome(reply: Result<ResponseQuerySerde, ()>) -> Result<
    EncodedResponseQuery,
    RequestError,
> {
    match reply {
        Ok(response) => Ok(response_of(response)),
        Err(_) => Err(RequestError::Other),
    }
}

/// The response fields handed to JavaScript: all three as given.
pub fn response_query_serde_for_js(data: Vec<u8>, info: String, proof: Option<String>) -> (res:
    ResponseQuerySerde)
    ensures
        res == js_response(data, info, proof),
        res.data == data,
        res.info == info,
        res.proof == proof,
{
    ResponseQuerySerde { data, info, proof }
}

/// The query response for the fields that JavaScript answered with.
pub fn response_query_from_serde(response: ResponseQuerySerde) -> (res: EncodedResponseQuery)
    ensures
        res == response_of(response),
        res.data == response.data,
        res.info == response.info,
        res.proof == response.proof,
{
    ResponseQuery { data: response.data, info: response.info, proof: response.proof }
}

/// The rest of a request once the helper has answered.
pub fn finish_request(reply: Result<ResponseQuerySerde, ()>) -> (res: Result<
    EncodedResponseQuery,
    RequestError,
>)
    ensures
        res == request_outcome(reply),
        reply matches Ok(r) ==> res matches Ok(q) && q.data == r.data && q.info == r.info
            && q.proof == r.proof,
        reply is Err ==> res == Err::<EncodedResponseQuery, RequestError>(RequestError::Other),
{
    match reply {
        Ok(response) => Ok(response_query_from_serde(response)),
        Err(_) => Err(RequestError::Other),
    }
}

impl NamadaWebClient {
    /// What a request hands to `perform_request`: the path and the proof flag
    /// as given, the data as text, and the block height in decimal. A request
    /// without a height is left out: there the request does not return.
    pub fn request_args(
        &self,
        path: String,
        data: Option<Vec<u8>>,
        height: Option<BlockHeight>,
        prove: bool,
    ) -> (args: PerformRequestArgs)
        requires
            height is Some,
        ensures
            args.path == path,
            args.prove == prove,
            sends_text(args.data, request_text(data)),
            args.height matches Some(h) && h@ == decimal_digits(height.unwrap().0 as nat),
    {
        let height_as_u64 = match height {
            Some(BlockHeight(h)) => h,
            None => {
                proof {
                    assert(false);
                }
                0
            },
        };
        let height_as_string = u64_to_string(height_as_u64);
        let data_as_string = data_as_string(data);
        PerformRequestArgs { path, prove, data: data_as_string, height: Some(height_as_string) }
    }
}

/// Fields handed to JavaScript are passed on each as given, and a response
/// read back keeps each of its fields; so a round trip gives back the query
/// made of the fields first given.
pub proof fn lemma_js_response_round_trip(data: Vec<u8>, info: String, proof: Option<String>)
    ensures
        js_response(data, info, proof).data == data,
        js_response(data, info, proof).info == info,
        js_response(data, info, proof).proof == proof,
        response_of(js_response(data, info, proof)) == (ResponseQuery { data, info, proof }),
{
}

/// Every answered reply ends in the query made of the reply's own fields,
/// whatever they hold; only a failed call ends in an error.
pub proof fn lemma_request_outcome_keeps_fields(reply: Result<ResponseQuerySerde, ()>)
    ensures
        reply matches Ok(r) ==> request_outcome(reply) matches Ok(q) && q.data == r.data && q.info
            == r.info && q.proof == r.proof,
        reply is Err <==> request_outcome(reply) is Err,
{
}

} // verus!
