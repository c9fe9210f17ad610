use usage_of_namada_sdk::mock_web_namada;
use usage_of_namada_sdk::namada_sdk::fake_types::{BlockHeight, Epoch, ResponseQuery};
use usage_of_namada_sdk::namada_sdk::{simple_query_request, simple_request_data};
use usage_of_namada_sdk::namada_web_sdk::NamadaWebSdk;
use usage_of_namada_sdk::ui_balance_query;
use usage_of_namada_sdk::web_namada::{
    data_as_string, decode_payload, finish_request, response_query_serde_for_js, rpc_call_args,
    try_finish_request, NamadaWebClient, RequestError, ResponseQuerySerde,
};

fn serde_response(data: &[u8], info: &str, proof: Option<&str>) -> ResponseQuerySerde {
    ResponseQuerySerde {
        data: data.to_vec(),
        info: info.to_string(),
        proof: proof.map(|p| p.to_string()),
    }
}

#[test]
fn simple_request_asks_for_path_only() {
    let req = simple_query_request("/shell/epoch".to_string());
    assert_eq!(req.path, "/shell/epoch");
    assert!(req.data.is_none());
    assert!(req.height.is_none());
    assert!(!req.prove);
}

#[test]
fn simple_request_keeps_only_data() {
    let response = ResponseQuery { data: vec![1u8, 2, 3], info: "log".to_string(), proof: Some("p".to_string()) };
    let res: Result<Vec<u8>, String> = simple_request_data(Ok(response));
    assert_eq!(res, Ok(vec![1u8, 2, 3]));
    let err: Result<Vec<u8>, String> = simple_request_data(Err("boom".to_string()));
    assert_eq!(err, Err("boom".to_string()));
}

#[test]
fn rpc_call_args_fill_in_defaults() {
    let args = rpc_call_args("/path".to_string(), true, None, None);
    assert_eq!(args.path, "/path");
    assert!(args.prove);
    assert_eq!(args.data, "");
    assert_eq!(args.height, "0");
}

#[test]
fn rpc_call_args_keep_given_values() {
    let args = rpc_call_args("/p".to_string(), false, Some("abc".to_string()), Some("42".to_string()));
    assert!(!args.prove);
    assert_eq!(args.data, "abc");
    assert_eq!(args.height, "42");
}

#[test]
fn decode_payload_of_balance_answer() {
    // the node's answer for a balance of 1000000 micro units
    let decoded = decode_payload(&b"ABCl1OgAAAA=".to_vec());
    assert_eq!(decoded, Some(vec![0u8, 16, 165, 212, 232, 0, 0, 0]));
}

#[test]
fn decode_payload_refuses_bad_text() {
    assert_eq!(decode_payload(&b"not base64!".to_vec()), None);
    assert_eq!(decode_payload(&vec![0xffu8, 0xfe, 0x41, 0x41]), None);
    assert_eq!(decode_payload(&b"QQ".to_vec()), None);
    assert_eq!(decode_payload(&Vec::new()), Some(Vec::new()));
}

#[test]
fn finish_request_decodes_and_drops_proof() {
    let reply = Ok(serde_response(b"aGVsbG8=", "info", Some("proof")));
    let res = finish_request(reply).unwrap();
    assert_eq!(res.data, b"hello".to_vec());
    assert_eq!(res.info, "info");
    assert_eq!(res.proof, None);
}

#[test]
fn finish_request_reports_failed_call() {
    let res = finish_request(Err("network down".to_string()));
    assert_eq!(res.unwrap_err(), RequestError::Other);
}

#[test]
fn try_finish_request_refuses_undecodable_reply() {
    assert!(try_finish_request(Ok(serde_response(b"@@@@", "", None))).is_none());
    let failed = try_finish_request(Err("x".to_string())).unwrap();
    assert_eq!(failed.unwrap_err(), RequestError::Other);
    let ok = try_finish_request(Ok(serde_response(b"AQID", "i", None))).unwrap().unwrap();
    assert_eq!(ok.data, vec![1u8, 2, 3]);
}

#[test]
fn data_as_string_checks_utf8() {
    assert_eq!(data_as_string(None), None);
    assert_eq!(data_as_string(Some(b"hello".to_vec())), Some("hello".to_string()));
    assert_eq!(data_as_string(Some(vec![0xc3u8, 0x28])), None);
    let text = data_as_string(Some("\u{e9}t\u{e9}".as_bytes().to_vec())).unwrap();
    assert_eq!(text.as_bytes(), "\u{e9}t\u{e9}".as_bytes());
}

#[test]
fn web_client_always_sends_height_zero() {
    let client = NamadaWebClient;
    let args = client.request_args("/q".to_string(), Some(b"d".to_vec()), Some(BlockHeight(77)), true);
    assert_eq!(args.path, "/q");
    assert!(args.prove);
    assert_eq!(args.data, Some("d".to_string()));
    assert_eq!(args.height, Some("0".to_string()));
    let args = client.request_args("/q".to_string(), Some(vec![0xffu8]), None, false);
    assert_eq!(args.data, None);
}

#[test]
fn js_response_never_carries_proof() {
    let r = response_query_serde_for_js(vec![9u8], "i".to_string(), Some("p".to_string()));
    assert_eq!(r.data, vec![9u8]);
    assert_eq!(r.info, "i");
    assert_eq!(r.proof, None);
}

#[test]
fn mock_client_sends_given_height() {
    let client = mock_web_namada::NamadaWebClient;
    let args = client.request_args("/q".to_string(), None, Some(BlockHeight(12345)), false);
    assert_eq!(args.height, Some("12345".to_string()));
    assert_eq!(args.data, None);
    let zero = client.request_args("/q".to_string(), None, Some(BlockHeight(0)), false);
    assert_eq!(zero.height, Some("0".to_string()));
    let max = client.request_args("/q".to_string(), None, Some(BlockHeight(u64::MAX)), false);
    assert_eq!(max.height, Some("18446744073709551615".to_string()));
}

#[test]
fn mock_distinct_heights_send_distinct_texts() {
    let client = mock_web_namada::NamadaWebClient;
    let a = client.request_args("/q".to_string(), None, Some(BlockHeight(10)), false);
    let b = client.request_args("/q".to_string(), None, Some(BlockHeight(1)), false);
    assert_ne!(a.height, b.height);
}

#[test]
fn mock_js_response_round_trip() {
    let js = mock_web_namada::response_query_serde_for_js(vec![1u8, 2], "info".to_string(), Some("proof".to_string()));
    assert_eq!(js.proof, Some("proof".to_string()));
    let q = mock_web_namada::response_query_from_serde(js);
    assert_eq!(q.data, vec![1u8, 2]);
    assert_eq!(q.info, "info");
    assert_eq!(q.proof, Some("proof".to_string()));
}

#[test]
fn mock_finish_request() {
    let ok = mock_web_namada::finish_request(Ok(serde_response(b"raw", "i", None))).unwrap();
    assert_eq!(ok.data, b"raw".to_vec());
    assert_eq!(ok.proof, None);
    let err = mock_web_namada::finish_request(Err(()));
    assert_eq!(err.unwrap_err(), RequestError::Other);
}

#[test]
fn sdk_client_uses_rpc_address() {
    let sdk = NamadaWebSdk::new("http://localhost:26657".to_string());
    let client = sdk.web_client();
    assert_eq!(client.rpc_address, "http://localhost:26657");
}

#[test]
fn ui_queries_nam_token() {
    let q = ui_balance_query("atest1xyz".to_string());
    assert_eq!(
        q.account_address,
        "atest1v4ehgw36x3prswzxggunzv6pxqmnvdj9xvcyzvpsggeyvs3cg9qnywf589qnwvfsg5erg3fkl09rg5"
    );
    assert_eq!(q.token_address, "atest1xyz");
}

#[test]
fn plain_types_hold_values() {
    let h = BlockHeight(5);
    let e = Epoch(7);
    assert_eq!(h.0 + e.0, 12);
    let q: ResponseQuery<Vec<u8>> = ResponseQuery::default();
    assert!(q.data.is_empty() && q.info.is_empty() && q.proof.is_none());
}
