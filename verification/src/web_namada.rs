//! The browser client: what it hands to the JavaScript networking helper and
//! how it turns the helper's answers into query responses. The answer's data
//! arrives as base64 text and is decoded here.

use crate::codec::{
    base64_standard_decode, standard_base64_decode, str_from_utf8, u64_to_string, utf8_text,
    decimal_digits,
};
use crate::namada_sdk::fake_types::{BlockHeight, EncodedResponseQuery, ResponseQuery};
use vstd::prelude::*;
use vstd::utf8::*;

verus! {

/// The fields of a query response as the JavaScript side exchanges them.
pub struct ResponseQuerySerde {
    pub data: Vec<u8>,
    pub info: String,
    pub proof: Option<String>,
}

/// The client that performs ledger queries through the browser.
pub struct NamadaWebClient;

/// The error of a request. It stands for `std::io::ErrorKind::Other`, the one
/// kind of error that the client reports.
#[derive(Clone, Copy, Debug, PartialEq, Eq, Structural)]
pub enum RequestError {
    Other,
}

/// What the networking helper's `rpcCall` is handed: the storage path,
/// whether a proof is asked for, the request data and the block height, the
/// last two as text.
pub struct RpcCallArgs {
    pub path: String,
    pub prove: bool,
    pub data: String,
    pub height: String,
}

/// What the client hands to `perform_request`.
pub struct PerformRequestArgs {
    pub path: String,
    pub prove: bool,
    pub data: Option<String>,
    pub height: Option<String>,
}

/// The account and the token whose balance is asked for.
pub struct BalanceQuery {
    pub account_address: String,
    pub token_address: String,
}

/// The text of `s`, or `default` where there is none.
pub open spec fn text_or(s: Option<String>, default: Seq<char>) -> Seq<char> {
    match s {
        Some(t) => t@,
        None => default,
    }
}

/// The bytes that a response's data field carries as base64 text, or `None`
/// where that field is not valid UTF-8 or not valid base64.
pub open spec fn base64_payload(data: Seq<u8>) -> Option<Seq<u8>> {
    if valid_utf8(data) {
        standard_base64_decode(data)
    } else {
        None
    }
}

/// The text sent for optional request data: none for none, and for bytes
/// their UTF-8 text, or none where they are not valid UTF-8.
pub open spec fn request_text(data: Option<Vec<u8>>) -> Option<Seq<char>> {
    match data {
        Some(bytes) => utf8_text(bytes@),
        None => None,
    }
}

/// Whether `sent` is the text that `request_text` gives.
pub open spec fn sends_text(sent: Option<String>, text: Option<Seq<char>>) -> bool {
    match text {
        Some(t) => sent matches Some(s) && s@ == t,
        None => sent is None,
    }
}

/// How a request ends, given the helper's reply: a failed call gives
/// `RequestError::Other`; a response gives a query whose data is the decoded
/// base64 payload, whose info is kept and which carries no proof.
pub open spec fn request_finished(
    reply: Result<ResponseQuerySerde, String>,
    res: Result<EncodedResponseQuery, RequestError>,
) -> bool {
    match reply {
        Err(_) => res == Err::<EncodedResponseQuery, RequestError>(RequestError::Other),
        Ok(r) => res matches Ok(q) && q.data@ == base64_payload(r.data@).unwrap() && q.info
            == r.info && q.proof is None,
    }
}

/// The response fields handed to JavaScript: data and info as given, and never
/// a proof.
pub fn response_query_serde_for_js(data: Vec<u8>, info: String, _proof: Option<String>) -> (res:
    ResponseQuerySerde)
    ensures
        res.data == data,
        res.info == info,
        res.proof is None,
{
    ResponseQuerySerde { data, info, proof: None }
}

/// What `rpcCall` is handed for a request: absent data becomes the empty text
/// and an absent height becomes "0".
pub fn rpc_call_args(path: String, prove: bool, data: Option<String>, height: Option<String>) -> (args:
    RpcCallArgs)
    ensures
        args.path == path,
        args.prove == prove,
        args.data@ == text_or(data, Seq::empty()),
        args.height@ == text_or(height, seq!['0']),
        data matches Some(d) ==> args.data@ == d@,
        data is None ==> args.data@ == Seq::<char>::empty(),
        height matches Some(h) ==> args.height@ == h@,
        height is None ==> args.height@ == seq!['0'],
{
    let data = match data {
        Some(d) => d,
        None => String::new(),
    };
    let height = match height {
        Some(h) => h,
        None => {
            let zero = "0".to_owned();
            proof {
                reveal_strlit("0");
            }
            zero
        },
    };
    RpcCallArgs { path, prove, data, height }
}

/// Decodes the base64 text that a response's data field carries, or gives
/// `None` where that field is not valid UTF-8 or not valid base64.
pub fn decode_payload(data: &Vec<u8>) -> (res: Option<Vec<u8>>)
    ensures
        match base64_payload(data@) {
            Some(payload) => res matches Some(bytes) && bytes@ == payload,
            None => res is None,
        },
        res is Some <==> (valid_utf8(data@) && standard_base64_decode(data@) is Some),
        res matches Some(bytes) ==> standard_base64_decode(data@) == Some(bytes@),
{
    match str_from_utf8(data.as_slice()) {
        Some(text) => {
            let bytes = text.as_bytes();
            assert(bytes@ == data@);
            match base64_standard_decode(bytes) {
                Ok(decoded) => Some(decoded),
                Err(_) => None,
            }
        },
        None => None,
    }
}

/// The rest of a request once the helper has answered. A reply whose data is
/// not valid base64 text is left out: there the request does not return.
pub fn finish_request(reply: Result<ResponseQuerySerde, String>) -> (res: Result<
    EncodedResponseQuery,
    RequestError,
>)
    requires
        reply matches Ok(r) ==> base64_payload(r.data@) is Some,
    ensures
        request_finished(reply, res),
        reply is Err ==> res == Err::<EncodedResponseQuery, RequestError>(RequestError::Other),
        reply matches Ok(r) ==> res matches Ok(q) && standard_base64_decode(r.data@) == Some(
            q.data@,
        ) && q.info == r.info && q.proof is None,
{
    match reply {
        Err(_) => Err(RequestError::Other),
        Ok(response) => {
            let decoded = decode_payload(&response.data);
            match decoded {
                Some(bytes) => Ok(ResponseQuery { data: bytes, info: response.info, proof: None }),
                None => {
                    proof {
                        assert(false);
                    }
                    Err(RequestError::Other)
                },
            }
        },
    }
}

/// Finishes a request where it can end: gives `None` exactly for a reply whose
/// data is not valid base64 text, and otherwise how the request ends.
pub fn try_finish_request(reply: Result<ResponseQuerySerde, String>) -> (res: Option<
    Result<EncodedResponseQuery, RequestError>,
>)
    ensures
        res is None <==> (reply matches Ok(r) && base64_payload(r.data@) is None),
        res matches Some(out) ==> request_finished(reply, out),
        res is None <==> (reply matches Ok(r) && !(valid_utf8(r.data@) && standard_base64_decode(
            r.data@,
        ) is Some)),
        reply is Err ==> res == Some(
            Err::<EncodedResponseQuery, RequestError>(RequestError::Other),
        ),
        reply matches Ok(r) ==> (res matches Some(Ok(q)) ==> standard_base64_decode(r.data@)
            == Some(q.data@) && q.info == r.info && q.proof is None),
{
    let decodable = match &reply {
        Ok(response) => decode_payload(&response.data).is_some(),
        Err(_) => true,
    };
    if decodable {
        Some(finish_request(reply))
    } else {
        None
    }
}

/// The text of optional request data: the UTF-8 text of the bytes, or none
/// where there are no bytes or they are not valid UTF-8.
pub fn data_as_string(data: Option<Vec<u8>>) -> (res: Option<String>)
    ensures
        sends_text(res, request_text(data)),
        res is None <==> (data is None || !valid_utf8(data.unwrap()@)),
        res matches Some(s) ==> data matches Some(bytes) && encode_utf8(s@) == bytes@,
{
    match data {
        Some(bytes) => match str_from_utf8(bytes.as_slice()) {
            Some(text) => {
                let owned = text.to_owned();
                proof {
                    encode_utf8_decode_utf8(text@);
                    decode_utf8_encode_utf8(bytes@);
                }
                Some(owned)
            },
            None => None,
        },
        None => None,
    }
}

impl NamadaWebClient {
    /// What a request hands to `perform_request`: the path and the proof flag
    /// as given, the data as text, and the height "0" whatever was asked.
    pub fn request_args(
        &self,
        path: String,
        data: Option<Vec<u8>>,
        _height: Option<BlockHeight>,
        prove: bool,
    ) -> (args: PerformRequestArgs)
        ensures
            args.path == path,
            args.prove == prove,
            sends_text(args.data, request_text(data)),
            args.height matches Some(h) && h@ == seq!['0'],
            args.data is None <==> (data is None || !valid_utf8(data.unwrap()@)),
            args.data matches Some(s) ==> data matches Some(bytes) && encode_utf8(s@) == bytes@,
    {
        let height_as_string = u64_to_string(0);
        assert(decimal_digits(0) =~= seq!['0']);
        let data_as_string = data_as_string(data);
        PerformRequestArgs { path, prove, data: data_as_string, height: Some(height_as_string) }
    }
}

/// Request data is sent as text exactly when it is valid UTF-8, whatever
/// its length, and the text sent encodes back to exactly the same bytes.
pub proof fn lemma_request_text_round_trip(data: Option<Vec<u8>>)
    ensures
        request_text(data) is None <==> (data is None || !valid_utf8(data.unwrap()@)),
        request_text(data) matches Some(t) ==> data matches Some(bytes) && encode_utf8(t)
            == bytes@,
{
    if let Some(bytes) = data {
        if valid_utf8(bytes@) {
            decode_utf8_encode_utf8(bytes@);
        }
    }
}

/// Decoding the data field gives the whole of what standard base64 decodes
/// it to, whatever its length, and succeeds exactly where the field is valid
/// UTF-8 and valid standard base64.
pub proof fn lemma_base64_payload_is_full_decode(data: Seq<u8>)
    ensures
        base64_payload(data) is Some <==> (valid_utf8(data) && standard_base64_decode(data) is Some),
        base64_payload(data) matches Some(p) ==> standard_base64_decode(data) == Some(p),
{
}

/// A value that is given is handed on unchanged, whatever its length; the
/// default stands only for an absent value.
pub proof fn lemma_text_or_keeps_given(s: Option<String>, default: Seq<char>)
    ensures
        s matches Some(t) ==> text_or(s, default) == t@,
        s is None ==> text_or(s, default) == default,
{
}

/// A reply that the helper answered ends in a query whose data is the full
/// standard base64 decoding of the reply's data and whose info is the
/// reply's; only a failed call ends in an error.
pub proof fn lemma_request_finished_keeps_answer(
    reply: Result<ResponseQuerySerde, String>,
    res: Result<EncodedResponseQuery, RequestError>,
)
    requires
        reply matches Ok(r) ==> base64_payload(r.data@) is Some,
        request_finished(reply, res),
    ensures
        reply matches Ok(r) ==> res matches Ok(q) && standard_base64_decode(r.data@) == Some(
            q.data@,
        ) && q.info == r.info && q.proof is None,
        reply is Err <==> res is Err,
{
}

} // verus!
