//! Decoding tests: the wire shapes the layer accepts and the typed
//! requests they become.

use mcp_rpc::json::JsonValue;
use mcp_rpc::decode::{decode_batch, decode_request};
use mcp_rpc::normalize::normalize_request;
use mcp_rpc::rpc::{BatchRequest, RequestId, Requests};

fn s(text: &str) -> String {
    text.to_string()
}

fn obj(entries: Vec<(&str, JsonValue)>) -> JsonValue {
    JsonValue::Obj(entries.into_iter().map(|(k, v)| (k.to_string(), v)).collect())
}

#[test]
fn parse_initialized_with_empty_params() {
    let request = decode_batch(obj(vec![
        ("jsonrpc", JsonValue::Str(s("2.0"))),
        ("method", JsonValue::Str(s("notifications/initialized"))),
        ("params", JsonValue::Obj(vec![])),
    ]))
    .expect("parse initialized notification");

    let request = request.requests().first().expect("single request");
    assert!(matches!(request.body, Requests::Initialized));
}

#[test]
fn parse_cancelled_with_params_object() {
    let request = decode_batch(obj(vec![
        ("jsonrpc", JsonValue::Str(s("2.0"))),
        ("method", JsonValue::Str(s("notifications/cancelled"))),
        (
            "params",
            obj(vec![
                ("requestId", JsonValue::Int(42)),
                ("reason", JsonValue::Str(s("user cancelled"))),
            ]),
        ),
    ]))
    .expect("parse cancelled notification");

    let request = request.requests().first().expect("single request");
    assert!(matches!(
        request.body,
        Requests::Cancelled {
            request_id: RequestId::Int(42),
            reason: Some(ref reason),
        } if reason == "user cancelled"
    ));
}

#[test]
fn parse_cancelled_top_level_fields() {
    let request = decode_batch(obj(vec![
        ("jsonrpc", JsonValue::Str(s("2.0"))),
        ("method", JsonValue::Str(s("notifications/cancelled"))),
        ("requestId", JsonValue::Str(s("abc"))),
        ("reason", JsonValue::Str(s("timeout"))),
    ]))
    .expect("parse cancelled notification");

    let request = request.requests().first().expect("single request");
    assert!(matches!(
        request.body,
        Requests::Cancelled {
            request_id: RequestId::String(ref request_id),
            reason: Some(ref reason),
        } if request_id == "abc" && reason == "timeout"
    ));
}

#[test]
fn parse_resources_templates_list() {
    let request = decode_batch(obj(vec![
        ("jsonrpc", JsonValue::Str(s("2.0"))),
        ("id", JsonValue::Int(1)),
        ("method", JsonValue::Str(s("resources/templates/list"))),
        ("params", JsonValue::Obj(vec![])),
    ]))
    .expect("parse resources/templates/list");

    let request = request.requests().first().expect("single request");
    assert!(matches!(
        request.body,
        Requests::ResourcesTemplatesList { .. }
    ));
}

#[test]
fn single_object_decodes_to_single_arm() {
    let decoded = decode_batch(obj(vec![
        ("jsonrpc", JsonValue::Str(s("2.0"))),
        ("id", JsonValue::Int(7)),
        ("method", JsonValue::Str(s("ping"))),
    ]))
    .expect("parse ping");

    assert!(matches!(decoded, BatchRequest::Single(_)));
    assert_eq!(decoded.len(), 1);
    assert!(!decoded.is_empty());
    let request = decoded.requests().first().expect("single request");
    assert!(matches!(request.body, Requests::Ping));
    assert!(matches!(request.id, Some(RequestId::Int(7))));
    assert_eq!(request.jsonrpc, "2.0");
}

#[test]
fn array_decodes_to_batch_in_order() {
    let decoded = decode_batch(JsonValue::Arr(vec![
        obj(vec![
            ("jsonrpc", JsonValue::Str(s("2.0"))),
            ("id", JsonValue::Int(1)),
            ("method", JsonValue::Str(s("ping"))),
        ]),
        obj(vec![
            ("jsonrpc", JsonValue::Str(s("2.0"))),
            ("id", JsonValue::Int(2)),
            ("method", JsonValue::Str(s("tools/list"))),
        ]),
    ]))
    .expect("parse batch");

    assert!(matches!(decoded, BatchRequest::Batch(_)));
    assert_eq!(decoded.len(), 2);
    let requests = decoded.requests();
    assert!(matches!(requests[0].body, Requests::Ping));
    assert!(matches!(requests[1].body, Requests::ToolsList { .. }));
}

#[test]
fn initialized_empty_params_same_as_omitted() {
    let with_params = decode_batch(obj(vec![
        ("jsonrpc", JsonValue::Str(s("2.0"))),
        ("method", JsonValue::Str(s("notifications/initialized"))),
        ("params", JsonValue::Obj(vec![])),
    ]))
    .expect("parse with empty params");
    let without_params = decode_batch(obj(vec![
        ("jsonrpc", JsonValue::Str(s("2.0"))),
        ("method", JsonValue::Str(s("notifications/initialized"))),
    ]))
    .expect("parse without params");

    let a = with_params.requests().first().expect("single request");
    let b = without_params.requests().first().expect("single request");
    assert!(matches!(a.body, Requests::Initialized));
    assert!(matches!(b.body, Requests::Initialized));
    assert!(a.id.is_none() && b.id.is_none());
}

#[test]
fn initialized_nonempty_params_rejected() {
    let result = decode_batch(obj(vec![
        ("jsonrpc", JsonValue::Str(s("2.0"))),
        ("method", JsonValue::Str(s("notifications/initialized"))),
        ("params", obj(vec![("foo", JsonValue::Int(1))])),
    ]));

    let error = result.err().expect("non-empty params must be rejected");
    assert_eq!(error.code(), -32602);
}

#[test]
fn cancelled_nested_equals_top_level() {
    let nested = decode_batch(obj(vec![
        ("jsonrpc", JsonValue::Str(s("2.0"))),
        ("method", JsonValue::Str(s("notifications/cancelled"))),
        (
            "params",
            obj(vec![
                ("requestId", JsonValue::Int(42)),
                ("reason", JsonValue::Str(s("x"))),
            ]),
        ),
    ]))
    .expect("parse nested form");
    let top_level = decode_batch(obj(vec![
        ("jsonrpc", JsonValue::Str(s("2.0"))),
        ("method", JsonValue::Str(s("notifications/cancelled"))),
        ("requestId", JsonValue::Int(42)),
        ("reason", JsonValue::Str(s("x"))),
    ]))
    .expect("parse top-level form");

    let a = nested.requests().first().expect("single request");
    let b = top_level.requests().first().expect("single request");
    match (&a.body, &b.body) {
        (
            Requests::Cancelled { request_id: ra, reason: na },
            Requests::Cancelled { request_id: rb, reason: nb },
        ) => {
            assert!(matches!(ra, RequestId::Int(42)));
            assert!(matches!(rb, RequestId::Int(42)));
            assert_eq!(na.as_deref(), Some("x"));
            assert_eq!(nb.as_deref(), Some("x"));
        },
        _ => panic!("both forms must decode to the cancelled variant"),
    }
}

#[test]
fn normalize_does_not_overwrite_top_level_fields() {
    let normalized = normalize_request(obj(vec![
        ("jsonrpc", JsonValue::Str(s("2.0"))),
        ("method", JsonValue::Str(s("notifications/cancelled"))),
        ("request_id", JsonValue::Int(1)),
        (
            "params",
            obj(vec![
                ("requestId", JsonValue::Int(2)),
                ("reason", JsonValue::Str(s("nested"))),
            ]),
        ),
    ]));

    let decoded = decode_request(&normalized).expect("parse cancelled notification");
    assert!(matches!(
        decoded.body,
        Requests::Cancelled { request_id: RequestId::Int(1), reason: Some(ref reason) }
            if reason == "nested"
    ));
}

#[test]
fn normalize_leaves_other_methods_alone() {
    let message = obj(vec![
        ("jsonrpc", JsonValue::Str(s("2.0"))),
        ("id", JsonValue::Int(3)),
        ("method", JsonValue::Str(s("ping"))),
    ]);
    let normalized = normalize_request(message);
    let decoded = decode_request(&normalized).expect("parse ping");
    assert!(matches!(decoded.body, Requests::Ping));
}

#[test]
fn batch_with_one_malformed_request_fails_whole() {
    let result = decode_batch(JsonValue::Arr(vec![
        obj(vec![
            ("jsonrpc", JsonValue::Str(s("2.0"))),
            ("id", JsonValue::Int(1)),
            ("method", JsonValue::Str(s("ping"))),
        ]),
        obj(vec![("method", JsonValue::Str(s("ping")))]),
    ]));

    assert!(result.is_err());
}

#[test]
fn empty_array_decodes_to_empty_batch() {
    let decoded = decode_batch(JsonValue::Arr(vec![])).expect("parse empty batch");
    assert!(matches!(decoded, BatchRequest::Batch(ref v) if v.is_empty()));
    assert!(decoded.is_empty());
    assert_eq!(decoded.len(), 0);
    assert_eq!(decoded.requests().len(), 0);
}

#[test]
fn cursor_round_trips_through_list_params() {
    let decoded = decode_batch(obj(vec![
        ("jsonrpc", JsonValue::Str(s("2.0"))),
        ("id", JsonValue::Int(9)),
        ("method", JsonValue::Str(s("resources/list"))),
        ("params", obj(vec![("cursor", JsonValue::Str(s("next-page")))])),
    ]))
    .expect("parse resources/list");

    let request = decoded.requests().first().expect("single request");
    match &request.body {
        Requests::ResourcesList { params } => {
            assert_eq!(params.cursor.as_deref(), Some("next-page"));
        },
        _ => panic!("expected the resources/list variant"),
    }
}

#[test]
fn tools_call_carries_name_and_arguments() {
    let decoded = decode_request(&obj(vec![
        ("jsonrpc", JsonValue::Str(s("2.0"))),
        ("id", JsonValue::Int(4)),
        ("method", JsonValue::Str(s("tools/call"))),
        (
            "params",
            obj(vec![
                ("name", JsonValue::Str(s("echo"))),
                ("arguments", obj(vec![("text", JsonValue::Str(s("hi")))])),
            ]),
        ),
    ]))
    .expect("parse tools/call");

    match &decoded.body {
        Requests::ToolsCall { params } => {
            assert_eq!(params.name, "echo");
            assert!(params.arguments.is_some());
        },
        _ => panic!("expected the tools/call variant"),
    }
}

#[test]
fn resources_read_requires_uri() {
    let ok = decode_request(&obj(vec![
        ("jsonrpc", JsonValue::Str(s("2.0"))),
        ("id", JsonValue::Int(5)),
        ("method", JsonValue::Str(s("resources/read"))),
        ("params", obj(vec![("uri", JsonValue::Str(s("file:///a")))])),
    ]))
    .expect("parse resources/read");
    match &ok.body {
        Requests::ResourcesRead { params } => assert_eq!(params.uri, "file:///a"),
        _ => panic!("expected the resources/read variant"),
    }

    let missing = decode_request(&obj(vec![
        ("jsonrpc", JsonValue::Str(s("2.0"))),
        ("id", JsonValue::Int(5)),
        ("method", JsonValue::Str(s("resources/read"))),
        ("params", JsonValue::Obj(vec![])),
    ]));
    assert_eq!(missing.err().expect("uri is required").code(), -32602);
}

#[test]
fn is_initialize_recognizes_only_initialize() {
    let init = decode_request(&obj(vec![
        ("jsonrpc", JsonValue::Str(s("2.0"))),
        ("id", JsonValue::Int(1)),
        ("method", JsonValue::Str(s("initialize"))),
        (
            "params",
            obj(vec![("protocolVersion", JsonValue::Str(s("2024-11-05")))]),
        ),
    ]))
    .expect("parse initialize");
    assert!(init.is_initialize());

    let ping = decode_request(&obj(vec![
        ("jsonrpc", JsonValue::Str(s("2.0"))),
        ("method", JsonValue::Str(s("ping"))),
    ]))
    .expect("parse ping");
    assert!(!ping.is_initialize());
}
