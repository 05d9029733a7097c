//! Error taxonomy and response assembly tests: fixed codes, one error per
//! kind of broken input, and shape mirroring of the reply.

use mcp_rpc::json::JsonValue;
use mcp_rpc::decode::{decode_batch, decode_request};
use mcp_rpc::rpc::{assemble, BatchResponse, RequestId, RpcError};

fn s(text: &str) -> String {
    text.to_string()
}

fn obj(entries: Vec<(&str, JsonValue)>) -> JsonValue {
    JsonValue::Obj(entries.into_iter().map(|(k, v)| (k.to_string(), v)).collect())
}

#[test]
fn error_codes_are_stable_literals() {
    assert_eq!(RpcError::<()>::parse_error("m").code(), -32700);
    assert_eq!(RpcError::<()>::invalid_request("m").code(), -32600);
    assert_eq!(RpcError::<()>::method_not_found("m").code(), -32601);
    assert_eq!(RpcError::<()>::invalid_params("m").code(), -32602);
    assert_eq!(RpcError::<()>::internal_error("m").code(), -32603);
}

#[test]
fn error_carries_message_and_data() {
    let plain = RpcError::<()>::new(-32000, "server fault");
    assert_eq!(plain.code(), -32000);
    assert_eq!(plain.message(), "server fault");
    assert!(plain.data().is_none());

    let with_data = plain.with_data(s("details"));
    assert_eq!(with_data.code(), -32000);
    assert_eq!(with_data.message(), "server fault");
    assert_eq!(with_data.data().as_deref(), Some("details"));
}

#[test]
fn scalar_root_is_a_parse_error() {
    for root in [
        JsonValue::Null,
        JsonValue::Bool(true),
        JsonValue::Int(3),
        JsonValue::Num(s("2.5")),
        JsonValue::Str(s("hello")),
    ] {
        let error = decode_batch(root).err().expect("scalar roots are rejected");
        assert_eq!(error.code(), -32700);
    }
}

#[test]
fn missing_jsonrpc_is_invalid_request() {
    let error = decode_request(&obj(vec![("method", JsonValue::Str(s("ping")))]))
        .err()
        .expect("the jsonrpc tag is required");
    assert_eq!(error.code(), -32600);
}

#[test]
fn unknown_method_is_method_not_found() {
    let error = decode_request(&obj(vec![
        ("jsonrpc", JsonValue::Str(s("2.0"))),
        ("method", JsonValue::Str(s("tools/explode"))),
    ]))
    .err()
    .expect("unknown methods are rejected");
    assert_eq!(error.code(), -32601);
}

#[test]
fn bad_id_type_is_invalid_request() {
    let error = decode_request(&obj(vec![
        ("jsonrpc", JsonValue::Str(s("2.0"))),
        ("id", JsonValue::Bool(true)),
        ("method", JsonValue::Str(s("ping"))),
    ]))
    .err()
    .expect("a boolean id is rejected");
    assert_eq!(error.code(), -32600);
}

#[test]
fn missing_required_params_is_invalid_request() {
    let error = decode_request(&obj(vec![
        ("jsonrpc", JsonValue::Str(s("2.0"))),
        ("id", JsonValue::Int(1)),
        ("method", JsonValue::Str(s("initialize"))),
    ]))
    .err()
    .expect("initialize needs params");
    assert_eq!(error.code(), -32600);
}

#[test]
fn bad_cursor_type_is_invalid_params() {
    let error = decode_request(&obj(vec![
        ("jsonrpc", JsonValue::Str(s("2.0"))),
        ("id", JsonValue::Int(1)),
        ("method", JsonValue::Str(s("tools/list"))),
        ("params", obj(vec![("cursor", JsonValue::Int(1))])),
    ]))
    .err()
    .expect("a numeric cursor is rejected");
    assert_eq!(error.code(), -32602);
}

#[test]
fn ping_with_params_is_invalid_params() {
    let error = decode_request(&obj(vec![
        ("jsonrpc", JsonValue::Str(s("2.0"))),
        ("method", JsonValue::Str(s("ping"))),
        ("params", JsonValue::Obj(vec![])),
    ]))
    .err()
    .expect("ping takes no params");
    assert_eq!(error.code(), -32602);
}

#[test]
fn cancelled_without_request_id_is_invalid_request() {
    let error = decode_request(&obj(vec![
        ("jsonrpc", JsonValue::Str(s("2.0"))),
        ("method", JsonValue::Str(s("notifications/cancelled"))),
    ]))
    .err()
    .expect("cancelled needs a request id");
    assert_eq!(error.code(), -32600);
}

#[test]
fn tools_call_without_name_is_invalid_params() {
    let error = decode_request(&obj(vec![
        ("jsonrpc", JsonValue::Str(s("2.0"))),
        ("id", JsonValue::Int(1)),
        ("method", JsonValue::Str(s("tools/call"))),
        ("params", JsonValue::Obj(vec![])),
    ]))
    .err()
    .expect("tools/call needs a name");
    assert_eq!(error.code(), -32602);
}

#[test]
fn single_request_gets_single_response_with_same_id() {
    let decoded = decode_batch(obj(vec![
        ("jsonrpc", JsonValue::Str(s("2.0"))),
        ("id", JsonValue::Int(1)),
        ("method", JsonValue::Str(s("resources/templates/list"))),
        ("params", JsonValue::Obj(vec![])),
    ]))
    .expect("parse resources/templates/list");
    let request = decoded.requests().first().expect("single request");
    let id = match request.id {
        Some(RequestId::Int(n)) => RequestId::Int(n),
        _ => panic!("the request carries the integer id 1"),
    };

    let reply = assemble(true, vec![(Some(id), Ok(s("listed")))])
        .expect("a request with an id gets a reply");
    match reply {
        BatchResponse::Single(resp) => {
            assert_eq!(resp.jsonrpc, "2.0");
            assert!(matches!(resp.id, Some(RequestId::Int(1))));
            assert_eq!(resp.result.as_deref(), Some("listed"));
            assert!(resp.error.is_none());
        },
        BatchResponse::Batch(_) => panic!("a single request must get a single response"),
    }
}

#[test]
fn single_notification_gets_no_reply() {
    let reply = assemble::<()>(true, vec![(None, Ok(()))]);
    assert!(reply.is_none());
}

#[test]
fn empty_batch_gets_empty_response_array() {
    let reply = assemble::<()>(false, vec![]).expect("an array reply is never suppressed");
    match reply {
        BatchResponse::Batch(responses) => assert!(responses.is_empty()),
        BatchResponse::Single(_) => panic!("an array request must get an array reply"),
    }
}

#[test]
fn batch_reply_skips_notifications_and_keeps_order() {
    let outcomes: Vec<(Option<RequestId>, Result<String, RpcError>)> = vec![
        (Some(RequestId::Int(1)), Ok(s("pong"))),
        (None, Ok(s("ignored"))),
        (
            Some(RequestId::String(s("b"))),
            Err(RpcError::internal_error("handler failed")),
        ),
    ];
    let reply = assemble(false, outcomes).expect("an array reply is never suppressed");
    match reply {
        BatchResponse::Batch(responses) => {
            assert_eq!(responses.len(), 2);
            assert!(matches!(responses[0].id, Some(RequestId::Int(1))));
            assert_eq!(responses[0].result.as_deref(), Some("pong"));
            assert!(responses[0].error.is_none());
            assert!(
                matches!(responses[1].id, Some(RequestId::String(ref b)) if b == "b")
            );
            assert!(responses[1].result.is_none());
            let error = responses[1].error.as_ref().expect("the failure is kept");
            assert_eq!(error.code(), -32603);
            assert_eq!(error.message(), "handler failed");
        },
        BatchResponse::Single(_) => panic!("an array request must get an array reply"),
    }
}
