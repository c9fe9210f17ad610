# usage-of-namada-sdk

A web client for the Namada SDK. The library in `src/` is verified with Verus:
it decides what each query sends to the JavaScript networking helper
(`rpc_call_args`, `NamadaWebClient::request_args`), how the helper's answer
becomes a query response (`finish_request`, with base64 decoding of the data),
what a simple query keeps (`simple_request_data`) and how the SDK object binds
its client to the node's RPC address.

`app/` holds the WebAssembly side: the `wasm_bindgen` imports and exports,
serde conversions of JavaScript values, the asynchronous request functions,
and the balance query through the `namada` crate.

Modules of `src/`:
- `codec`: UTF-8, base64 and decimal conversions, and their contracts.
- `namada_sdk`: the plain query types and the simple-request logic.
- `web_namada`: the browser client that decodes base64 answers.
- `mock_web_namada`: the browser client against the plain stand-in types.
- `namada_web_sdk`: the SDK object.
