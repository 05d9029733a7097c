//! The structural decoder.
//!
//! Turns a normalized message tree into a typed [`Request`], and the root
//! document into a [`BatchRequest`], classifying every failure into the
//! fixed JSON-RPC error taxonomy: a root that is neither an object nor an
//! array is a parse error, a broken envelope or a missing required `params`
//! is an invalid request, an unknown method tag is method-not-found, and
//! `params` content that does not fit its variant is an invalid-params
//! error. A failing element rejects a whole batch.

use vstd::prelude::*;

use crate::initialize::{InitializeRequest, InitializeSpec};
use crate::json::{entries_view, items_view, lemma_obj_view, obj_lookup, spec_lookup, JsonSpec,
    JsonValue};
use crate::normalize::{normalize_request, spec_normalize};
use crate::prompts::{PromptsGetRequest, PromptsGetSpec, PromptsListRequest, PromptsListSpec};
use crate::resources::{
    ResourcesListRequest, ResourcesListSpec, ResourcesReadRequest, ResourcesReadSpec,
    ResourcesTemplatesListRequest, ResourcesTemplatesListSpec,
};
use crate::rpc::{
    BatchRequest, BatchRequestSpec, Request, RequestId, RequestIdSpec, RequestSpec, Requests,
    RequestsSpec, RpcError, INVALID_PARAMS, INVALID_REQUEST, METHOD_NOT_FOUND, PARSE_ERROR,
};
use crate::tool::{ToolsCallRequest, ToolsCallSpec, ToolsListRequest, ToolsListSpec};

verus! {

/// The model of a decode failure: a fixed code and a message.
pub struct ErrSpec {
    /// The JSON-RPC error code of the failure.
    pub code: i32,
    /// The message of the failure.
    pub message: Seq<char>,
}

/// Whether an error value carries exactly the modelled failure, with no
/// data payload.
pub open spec fn error_matches(e: RpcError, s: ErrSpec) -> bool {
    &&& e.code_spec() == s.code
    &&& e.message_spec() == s.message
    &&& e.data_spec() is None
}

/// An optional string field: absent and `null` both mean `None`; any
/// non-string value is a failure.
pub open spec fn spec_opt_str(pe: Seq<(Seq<char>, JsonSpec)>, key: Seq<char>) -> Result<
    Option<Seq<char>>,
    (),
> {
    match spec_lookup(pe, key) {
        None => Ok(None),
        Some(JsonSpec::Null) => Ok(None),
        Some(JsonSpec::Str(s)) => Ok(Some(s)),
        Some(_) => Err(()),
    }
}

/// A required string field: it must be present and a string.
pub open spec fn spec_req_str(pe: Seq<(Seq<char>, JsonSpec)>, key: Seq<char>) -> Result<
    Seq<char>,
    (),
> {
    match spec_lookup(pe, key) {
        Some(JsonSpec::Str(s)) => Ok(s),
        _ => Err(()),
    }
}

/// An optional field carried opaquely: absent and `null` both mean `None`.
pub open spec fn spec_opt_json(pe: Seq<(Seq<char>, JsonSpec)>, key: Seq<char>) -> Option<
    JsonSpec,
> {
    match spec_lookup(pe, key) {
        None => None,
        Some(JsonSpec::Null) => None,
        Some(v) => Some(v),
    }
}

/// The pagination cursor of a list method: `params` may be absent entirely;
/// if present it must be an object, whose `cursor`, if any, is a string.
pub open spec fn spec_list_params(entries: Seq<(Seq<char>, JsonSpec)>) -> Result<
    Option<Seq<char>>,
    ErrSpec,
> {
    match spec_lookup(entries, "params"@) {
        None => Ok(None),
        Some(JsonSpec::Obj(pe)) => match spec_opt_str(pe, "cursor"@) {
            Ok(c) => Ok(c),
            Err(_) => Err(ErrSpec { code: INVALID_PARAMS, message: "the cursor must be a string"@ }),
        },
        Some(_) => Err(ErrSpec { code: INVALID_PARAMS, message: "the params must be an object"@ }),
    }
}

/// The required `params` object of a method that cannot do without one.
pub open spec fn spec_req_params(entries: Seq<(Seq<char>, JsonSpec)>) -> Result<
    Seq<(Seq<char>, JsonSpec)>,
    ErrSpec,
> {
    match spec_lookup(entries, "params"@) {
        None => Err(ErrSpec { code: INVALID_REQUEST, message: "the params are missing"@ }),
        Some(JsonSpec::Obj(pe)) => Ok(pe),
        Some(_) => Err(ErrSpec { code: INVALID_PARAMS, message: "the params must be an object"@ }),
    }
}

/// A method without parameters tolerates no `params` field at all; the
/// normalizer already stripped an empty one from `initialized`.
pub open spec fn spec_unit_body(entries: Seq<(Seq<char>, JsonSpec)>) -> Result<(), ErrSpec> {
    if spec_lookup(entries, "params"@) is Some {
        Err(ErrSpec { code: INVALID_PARAMS, message: "the method takes no params"@ })
    } else {
        Ok(())
    }
}

/// The `initialize` parameters: `params` is required; its fields are
/// carried leniently for the external handler.
pub open spec fn spec_initialize_params(entries: Seq<(Seq<char>, JsonSpec)>) -> Result<
    InitializeSpec,
    ErrSpec,
> {
    match spec_req_params(entries) {
        Err(e) => Err(e),
        Ok(pe) => match spec_opt_str(pe, "protocolVersion"@) {
            Err(_) => Err(
                ErrSpec { code: INVALID_PARAMS, message: "the protocolVersion must be a string"@ },
            ),
            Ok(pv) => Ok(
                InitializeSpec {
                    protocol_version: pv,
                    capabilities: spec_opt_json(pe, "capabilities"@),
                    client_info: spec_opt_json(pe, "clientInfo"@),
                },
            ),
        },
    }
}

/// The parameters of a method that names its target: a required string
/// `name` and opaque optional `arguments`.
pub open spec fn spec_named_params(entries: Seq<(Seq<char>, JsonSpec)>) -> Result<
    (Seq<char>, Option<JsonSpec>),
    ErrSpec,
> {
    match spec_req_params(entries) {
        Err(e) => Err(e),
        Ok(pe) => match spec_req_str(pe, "name"@) {
            Err(_) => Err(ErrSpec { code: INVALID_PARAMS, message: "the params need a string name"@ }),
            Ok(name) => Ok((name, spec_opt_json(pe, "arguments"@))),
        },
    }
}

/// The `resources/read` parameters: a required string `uri`.
pub open spec fn spec_read_params(entries: Seq<(Seq<char>, JsonSpec)>) -> Result<
    Seq<char>,
    ErrSpec,
> {
    match spec_req_params(entries) {
        Err(e) => Err(e),
        Ok(pe) => match spec_req_str(pe, "uri"@) {
            Err(_) => Err(ErrSpec { code: INVALID_PARAMS, message: "the params need a string uri"@ }),
            Ok(uri) => Ok(uri),
        },
    }
}

/// The `cancelled` notification's fields, read at the top level after
/// normalization: a required `request_id` (or its `requestId` alias) that
/// is an integer or a string, and an optional string `reason`.
pub open spec fn spec_cancelled_fields(entries: Seq<(Seq<char>, JsonSpec)>) -> Result<
    (RequestIdSpec, Option<Seq<char>>),
    ErrSpec,
> {
    let rid = match spec_lookup(entries, "request_id"@) {
        Some(v) => Some(v),
        None => spec_lookup(entries, "requestId"@),
    };
    match rid {
        None => Err(ErrSpec { code: INVALID_REQUEST, message: "the request_id field is missing"@ }),
        Some(JsonSpec::Int(n)) => match spec_opt_str(entries, "reason"@) {
            Err(_) => Err(ErrSpec { code: INVALID_PARAMS, message: "the reason must be a string"@ }),
            Ok(reason) => Ok((RequestIdSpec::Int(n), reason)),
        },
        Some(JsonSpec::Str(s)) => match spec_opt_str(entries, "reason"@) {
            Err(_) => Err(ErrSpec { code: INVALID_PARAMS, message: "the reason must be a string"@ }),
            Ok(reason) => Ok((RequestIdSpec::Str(s), reason)),
        },
        Some(_) => Err(
            ErrSpec { code: INVALID_PARAMS, message: "the request_id must be an integer or a string"@ },
        ),
    }
}

/// The body a method tag selects, decoded from the envelope's entries.
pub open spec fn spec_decode_body(entries: Seq<(Seq<char>, JsonSpec)>, m: Seq<char>) -> Result<
    RequestsSpec,
    ErrSpec,
> {
    if m == "ping"@ {
        match spec_unit_body(entries) {
            Err(e) => Err(e),
            Ok(_) => Ok(RequestsSpec::Ping),
        }
    } else if m == "initialize"@ {
        match spec_initialize_params(entries) {
            Err(e) => Err(e),
            Ok(params) => Ok(RequestsSpec::Initialize { params }),
        }
    } else if m == "notifications/initialized"@ {
        match spec_unit_body(entries) {
            Err(e) => Err(e),
            Ok(_) => Ok(RequestsSpec::Initialized),
        }
    } else if m == "notifications/cancelled"@ {
        match spec_cancelled_fields(entries) {
            Err(e) => Err(e),
            Ok((request_id, reason)) => Ok(RequestsSpec::Cancelled { request_id, reason }),
        }
    } else if m == "tools/list"@ {
        match spec_list_params(entries) {
            Err(e) => Err(e),
            Ok(cursor) => Ok(RequestsSpec::ToolsList { params: ToolsListSpec { cursor } }),
        }
    } else if m == "tools/call"@ {
        match spec_named_params(entries) {
            Err(e) => Err(e),
            Ok((name, arguments)) => Ok(
                RequestsSpec::ToolsCall { params: ToolsCallSpec { name, arguments } },
            ),
        }
    } else if m == "prompts/list"@ {
        match spec_list_params(entries) {
            Err(e) => Err(e),
            Ok(cursor) => Ok(RequestsSpec::PromptsList { params: PromptsListSpec { cursor } }),
        }
    } else if m == "prompts/get"@ {
        match spec_named_params(entries) {
            Err(e) => Err(e),
            Ok((name, arguments)) => Ok(
                RequestsSpec::PromptsGet { params: PromptsGetSpec { name, arguments } },
            ),
        }
    } else if m == "resources/list"@ {
        match spec_list_params(entries) {
            Err(e) => Err(e),
            Ok(cursor) => Ok(
                RequestsSpec::ResourcesList { params: ResourcesListSpec { cursor } },
            ),
        }
    } else if m == "resources/templates/list"@ {
        match spec_list_params(entries) {
            Err(e) => Err(e),
            Ok(cursor) => Ok(
                RequestsSpec::ResourcesTemplatesList {
                    params: ResourcesTemplatesListSpec { cursor },
                },
            ),
        }
    } else if m == "resources/read"@ {
        match spec_read_params(entries) {
            Err(e) => Err(e),
            Ok(uri) => Ok(RequestsSpec::ResourcesRead { params: ResourcesReadSpec { uri } }),
        }
    } else {
        Err(ErrSpec { code: METHOD_NOT_FOUND, message: "the method is not supported"@ })
    }
}

/// The decoded form of one normalized message node.
///
/// The envelope needs a string `jsonrpc` tag (its content is checked
/// upstream, not here), an optional integer-or-string `id` (`null` counts
/// as absent), and a string `method` tag that selects the body.
pub open spec fn spec_decode_request(v: JsonSpec) -> Result<RequestSpec, ErrSpec> {
    match v {
        JsonSpec::Obj(entries) => match spec_lookup(entries, "jsonrpc"@) {
            Some(JsonSpec::Str(ver)) => {
                let idr = match spec_lookup(entries, "id"@) {
                    None => Ok(None),
                    Some(JsonSpec::Null) => Ok(None),
                    Some(JsonSpec::Int(n)) => Ok(Some(RequestIdSpec::Int(n))),
                    Some(JsonSpec::Str(s)) => Ok(Some(RequestIdSpec::Str(s))),
                    Some(_) => Err(
                        ErrSpec {
                            code: INVALID_REQUEST,
                            message: "the id must be an integer or a string"@,
                        },
                    ),
                };
                match idr {
                    Err(e) => Err(e),
                    Ok(id) => match spec_lookup(entries, "method"@) {
                        Some(JsonSpec::Str(m)) => match spec_decode_body(entries, m) {
                            Err(e) => Err(e),
                            Ok(body) => Ok(RequestSpec { jsonrpc: ver, id, body }),
                        },
                        _ => Err(
                            ErrSpec {
                                code: INVALID_REQUEST,
                                message: "the method field is missing or not a string"@,
                            },
                        ),
                    },
                }
            },
            _ => Err(
                ErrSpec {
                    code: INVALID_REQUEST,
                    message: "the jsonrpc field is missing or not a string"@,
                },
            ),
        },
        _ => Err(ErrSpec { code: INVALID_REQUEST, message: "a request must be an object"@ }),
    }
}

/// The decoded form of a whole batch element list, from position `i` on:
/// the first failing element rejects the rest.
pub open spec fn spec_decode_elems(items: Seq<JsonSpec>, i: int) -> Result<
    Seq<RequestSpec>,
    ErrSpec,
>
    decreases items.len() - i,
{
    if i < 0 || i >= items.len() {
        Ok(Seq::empty())
    } else {
        match spec_decode_request(spec_normalize(items[i])) {
            Err(e) => Err(e),
            Ok(r) => match spec_decode_elems(items, i + 1) {
                Err(e) => Err(e),
                Ok(rest) => Ok(seq![r] + rest),
            },
        }
    }
}

/// The decoded form of a root document: a bare object becomes a single
/// request, an array becomes a batch (empty is legal), and any scalar root
/// is a parse error naming the unsupported shape. Every element is
/// normalized before structural decoding.
pub open spec fn spec_decode_batch(v: JsonSpec) -> Result<BatchRequestSpec, ErrSpec> {
    match v {
        JsonSpec::Obj(_) => match spec_decode_request(spec_normalize(v)) {
            Err(e) => Err(e),
            Ok(r) => Ok(BatchRequestSpec::Single(r)),
        },
        JsonSpec::Arr(items) => match spec_decode_elems(items, 0) {
            Err(e) => Err(e),
            Ok(rs) => Ok(BatchRequestSpec::Batch(rs)),
        },
        JsonSpec::Null => Err(
            ErrSpec { code: PARSE_ERROR, message: "the root cannot be null"@ },
        ),
        JsonSpec::Bool(_) => Err(
            ErrSpec { code: PARSE_ERROR, message: "the root cannot be a boolean"@ },
        ),
        JsonSpec::Int(_) => Err(
            ErrSpec { code: PARSE_ERROR, message: "the root cannot be a number"@ },
        ),
        JsonSpec::Num(_) => Err(
            ErrSpec { code: PARSE_ERROR, message: "the root cannot be a number"@ },
        ),
        JsonSpec::Str(_) => Err(
            ErrSpec { code: PARSE_ERROR, message: "the root cannot be a string"@ },
        ),
    }
}

/// When every element from position `k` on decodes, the element list
/// decodes to their results in order.
proof fn lemma_decode_elems_ok(items: Seq<JsonSpec>, k: int)
    requires
        0 <= k <= items.len(),
        forall|j: int|
            k <= j < items.len() ==> (#[trigger] spec_decode_request(
                spec_normalize(items[j]),
            )) is Ok,
    ensures
        spec_decode_elems(items, k) matches Ok(rs) && rs.len() == items.len() - k && (forall|
            j: int,
        |
            k <= j < items.len() ==> rs[j - k] == (#[trigger] spec_decode_request(
                spec_normalize(items[j]),
            ))->Ok_0),
    decreases items.len() - k,
{
    if k < items.len() {
        lemma_decode_elems_ok(items, k + 1);
    }
}

/// When the elements before position `f` decode and the element at `f`
/// does not, the element list fails with that element's error.
proof fn lemma_decode_elems_err(items: Seq<JsonSpec>, k: int, f: int)
    requires
        0 <= k <= f < items.len(),
        forall|j: int|
            k <= j < f ==> (#[trigger] spec_decode_request(spec_normalize(items[j]))) is Ok,
        spec_decode_request(spec_normalize(items[f])) is Err,
    ensures
        spec_decode_elems(items, k) matches Err(e) && e == spec_decode_request(
            spec_normalize(items[f]),
        )->Err_0,
    decreases f - k,
{
    if k < f {
        lemma_decode_elems_err(items, k + 1, f);
    }
}

/// Whether a string holds the given text.
fn string_is(m: &String, s: &str) -> (r: bool)
    ensures
        r == (m@ == s@),
{
    m.eq(&s.to_owned())
}

/// Read an optional string field: absent and `null` both mean `None`.
fn opt_str_field(pe: &Vec<(String, JsonValue)>, key: &str) -> (r: Result<Option<String>, ()>)
    ensures
        match spec_opt_str(entries_view(pe@), key@) {
            Ok(c) => r matches Ok(rc) && match c {
                Some(s) => rc matches Some(t) && t@ == s,
                None => rc is None,
            },
            Err(_) => r is Err,
        },
{
    match obj_lookup(pe, &key.to_owned()) {
        None => Ok(None),
        Some(JsonValue::Null) => Ok(None),
        Some(JsonValue::Str(s)) => Ok(Some(s.clone())),
        Some(_) => Err(()),
    }
}

/// Read a required string field.
fn req_str_field(pe: &Vec<(String, JsonValue)>, key: &str) -> (r: Result<String, ()>)
    ensures
        match spec_req_str(entries_view(pe@), key@) {
            Ok(s) => r matches Ok(t) && t@ == s,
            Err(_) => r is Err,
        },
{
    match obj_lookup(pe, &key.to_owned()) {
        Some(JsonValue::Str(s)) => Ok(s.clone()),
        _ => Err(()),
    }
}

/// Read an optional field carried opaquely: absent and `null` both mean
/// `None`.
fn opt_json_field(pe: &Vec<(String, JsonValue)>, key: &str) -> (r: Option<JsonValue>)
    ensures
        match spec_opt_json(entries_view(pe@), key@) {
            Some(v) => r matches Some(x) && x@ == v,
            None => r is None,
        },
{
    match obj_lookup(pe, &key.to_owned()) {
        None => None,
        Some(JsonValue::Null) => None,
        Some(v) => Some(v.clone()),
    }
}

/// Read the required `params` object of a method that cannot do without
/// one.
fn req_params<'a>(entries: &'a Vec<(String, JsonValue)>) -> (r: Result<
    &'a Vec<(String, JsonValue)>,
    RpcError,
>)
    ensures
        match spec_req_params(entries_view(entries@)) {
            Ok(pe) => r matches Ok(p) && entries_view(p@) == pe,
            Err(e) => r matches Err(er) && error_matches(er, e),
        },
{
    match obj_lookup(entries, &"params".to_owned()) {
        None => Err(RpcError::invalid_request("the params are missing")),
        Some(JsonValue::Obj(pe)) => {
            proof {
                lemma_obj_view(*pe);
            }
            Ok(pe)
        },
        Some(_) => Err(RpcError::invalid_params("the params must be an object")),
    }
}

/// Check that a method without parameters got none.
fn unit_body(entries: &Vec<(String, JsonValue)>) -> (r: Result<(), RpcError>)
    ensures
        match spec_unit_body(entries_view(entries@)) {
            Ok(_) => r is Ok,
            Err(e) => r matches Err(er) && error_matches(er, e),
        },
{
    match obj_lookup(entries, &"params".to_owned()) {
        Some(_) => Err(RpcError::invalid_params("the method takes no params")),
        None => Ok(()),
    }
}

/// Read a list method's pagination cursor.
fn list_params(entries: &Vec<(String, JsonValue)>) -> (r: Result<Option<String>, RpcError>)
    ensures
        match spec_list_params(entries_view(entries@)) {
            Ok(c) => r matches Ok(rc) && match c {
                Some(s) => rc matches Some(t) && t@ == s,
                None => rc is None,
            },
            Err(e) => r matches Err(er) && error_matches(er, e),
        },
{
    match obj_lookup(entries, &"params".to_owned()) {
        None => Ok(None),
        Some(JsonValue::Obj(pe)) => {
            proof {
                lemma_obj_view(*pe);
            }
            match opt_str_field(pe, "cursor") {
                Ok(c) => Ok(c),
                Err(_) => Err(RpcError::invalid_params("the cursor must be a string")),
            }
        },
        Some(_) => Err(RpcError::invalid_params("the params must be an object")),
    }
}

/// Read the `initialize` parameters.
fn initialize_params(entries: &Vec<(String, JsonValue)>) -> (r: Result<
    InitializeRequest,
    RpcError,
>)
    ensures
        match spec_initialize_params(entries_view(entries@)) {
            Ok(p) => r matches Ok(rp) && rp@ == p,
            Err(e) => r matches Err(er) && error_matches(er, e),
        },
{
    let pe = match req_params(entries) {
        Ok(pe) => pe,
        Err(e) => {
            return Err(e);
        },
    };
    match opt_str_field(pe, "protocolVersion") {
        Err(_) => Err(RpcError::invalid_params("the protocolVersion must be a string")),
        Ok(pv) => Ok(
            InitializeRequest {
                protocol_version: pv,
                capabilities: opt_json_field(pe, "capabilities"),
                client_info: opt_json_field(pe, "clientInfo"),
            },
        ),
    }
}

/// Read the parameters of a method that names its target.
fn named_params(entries: &Vec<(String, JsonValue)>) -> (r: Result<
    (String, Option<JsonValue>),
    RpcError,
>)
    ensures
        match spec_named_params(entries_view(entries@)) {
            Ok(p) => r matches Ok(rp) && rp.0@ == p.0 && match p.1 {
                Some(v) => rp.1 matches Some(x) && x@ == v,
                None => rp.1 is None,
            },
            Err(e) => r matches Err(er) && error_matches(er, e),
        },
{
    let pe = match req_params(entries) {
        Ok(pe) => pe,
        Err(e) => {
            return Err(e);
        },
    };
    match req_str_field(pe, "name") {
        Err(_) => Err(RpcError::invalid_params("the params need a string name")),
        Ok(name) => Ok((name, opt_json_field(pe, "arguments"))),
    }
}

/// Read the `resources/read` parameters.
fn read_params(entries: &Vec<(String, JsonValue)>) -> (r: Result<String, RpcError>)
    ensures
        match spec_read_params(entries_view(entries@)) {
            Ok(uri) => r matches Ok(t) && t@ == uri,
            Err(e) => r matches Err(er) && error_matches(er, e),
        },
{
    let pe = match req_params(entries) {
        Ok(pe) => pe,
        Err(e) => {
            return Err(e);
        },
    };
    match req_str_field(pe, "uri") {
        Err(_) => Err(RpcError::invalid_params("the params need a string uri")),
        Ok(uri) => Ok(uri),
    }
}

/// Read the `cancelled` notification's fields at the top level.
fn cancelled_fields(entries: &Vec<(String, JsonValue)>) -> (r: Result<
    (RequestId, Option<String>),
    RpcError,
>)
    ensures
        match spec_cancelled_fields(entries_view(entries@)) {
            Ok(p) => r matches Ok(rp) && rp.0@ == p.0 && match p.1 {
                Some(s) => rp.1 matches Some(t) && t@ == s,
                None => rp.1 is None,
            },
            Err(e) => r matches Err(er) && error_matches(er, e),
        },
{
    let looked = match obj_lookup(entries, &"request_id".to_owned()) {
        Some(v) => Some(v),
        None => obj_lookup(entries, &"requestId".to_owned()),
    };
    let rid = match looked {
        None => {
            return Err(RpcError::invalid_request("the request_id field is missing"));
        },
        Some(JsonValue::Int(n)) => RequestId::Int(*n),
        Some(JsonValue::Str(s)) => RequestId::String(s.clone()),
        Some(_) => {
            return Err(RpcError::invalid_params("the request_id must be an integer or a string"));
        },
    };
    match opt_str_field(entries, "reason") {
        Err(_) => Err(RpcError::invalid_params("the reason must be a string")),
        Ok(reason) => Ok((rid, reason)),
    }
}

/// Decode the body a method tag selects.
fn decode_body(entries: &Vec<(String, JsonValue)>, m: &String) -> (r: Result<Requests, RpcError>)
    ensures
        match spec_decode_body(entries_view(entries@), m@) {
            Ok(b) => r matches Ok(rb) && rb@ == b,
            Err(e) => r matches Err(er) && error_matches(er, e),
        },
{
    if string_is(m, "ping") {
        match unit_body(entries) {
            Err(e) => Err(e),
            Ok(_) => Ok(Requests::Ping),
        }
    } else if string_is(m, "initialize") {
        match initialize_params(entries) {
            Err(e) => Err(e),
            Ok(params) => Ok(Requests::Initialize { params }),
        }
    } else if string_is(m, "notifications/initialized") {
        match unit_body(entries) {
            Err(e) => Err(e),
            Ok(_) => Ok(Requests::Initialized),
        }
    } else if string_is(m, "notifications/cancelled") {
        match cancelled_fields(entries) {
            Err(e) => Err(e),
            Ok((request_id, reason)) => Ok(Requests::Cancelled { request_id, reason }),
        }
    } else if string_is(m, "tools/list") {
        match list_params(entries) {
            Err(e) => Err(e),
            Ok(cursor) => Ok(Requests::ToolsList { params: ToolsListRequest { cursor } }),
        }
    } else if string_is(m, "tools/call") {
        match named_params(entries) {
            Err(e) => Err(e),
            Ok((name, arguments)) => Ok(
                Requests::ToolsCall { params: ToolsCallRequest { name, arguments } },
            ),
        }
    } else if string_is(m, "prompts/list") {
        match list_params(entries) {
            Err(e) => Err(e),
            Ok(cursor) => Ok(Requests::PromptsList { params: PromptsListRequest { cursor } }),
        }
    } else if string_is(m, "prompts/get") {
        match named_params(entries) {
            Err(e) => Err(e),
            Ok((name, arguments)) => Ok(
                Requests::PromptsGet { params: PromptsGetRequest { name, arguments } },
            ),
        }
    } else if string_is(m, "resources/list") {
        match list_params(entries) {
            Err(e) => Err(e),
            Ok(cursor) => Ok(Requests::ResourcesList { params: ResourcesListRequest { cursor } }),
        }
    } else if string_is(m, "resources/templates/list") {
        match list_params(entries) {
            Err(e) => Err(e),
            Ok(cursor) => Ok(
                Requests::ResourcesTemplatesList {
                    params: ResourcesTemplatesListRequest { cursor },
                },
            ),
        }
    } else if string_is(m, "resources/read") {
        match read_params(entries) {
            Err(e) => Err(e),
            Ok(uri) => Ok(Requests::ResourcesRead { params: ResourcesReadRequest { uri } }),
        }
    } else {
        Err(RpcError::method_not_found("the method is not supported"))
    }
}

/// Decode one normalized message node into a typed request.
pub fn decode_request(v: &JsonValue) -> (r: Result<Request, RpcError>)
    ensures
        match spec_decode_request(v@) {
            Ok(rs) => r matches Ok(req) && req@ == rs,
            Err(e) => r matches Err(er) && error_matches(er, e),
        },
{
    let entries = match v {
        JsonValue::Obj(entries) => entries,
        _ => {
            return Err(RpcError::invalid_request("a request must be an object"));
        },
    };
    proof {
        lemma_obj_view(*entries);
    }
    let jsonrpc = match obj_lookup(entries, &"jsonrpc".to_owned()) {
        Some(JsonValue::Str(s)) => s.clone(),
        _ => {
            return Err(RpcError::invalid_request("the jsonrpc field is missing or not a string"));
        },
    };
    let id = match obj_lookup(entries, &"id".to_owned()) {
        None => None,
        Some(JsonValue::Null) => None,
        Some(JsonValue::Int(n)) => Some(RequestId::Int(*n)),
        Some(JsonValue::Str(s)) => Some(RequestId::String(s.clone())),
        Some(_) => {
            return Err(RpcError::invalid_request("the id must be an integer or a string"));
        },
    };
    let m = match obj_lookup(entries, &"method".to_owned()) {
        Some(JsonValue::Str(m)) => m,
        _ => {
            return Err(RpcError::invalid_request("the method field is missing or not a string"));
        },
    };
    match decode_body(entries, m) {
        Err(e) => Err(e),
        Ok(body) => Ok(Request { jsonrpc, id, body }),
    }
}

/// Decode a root document: a bare object into a single request, an array
/// into a batch, each element normalized first; see [`spec_decode_batch`].
pub fn decode_batch(v: JsonValue) -> (r: Result<BatchRequest, RpcError>)
    ensures
        match spec_decode_batch(v@) {
            Ok(bs) => r matches Ok(b) && b@ == bs,
            Err(e) => r matches Err(er) && error_matches(er, e),
        },
{
    match v {
        JsonValue::Obj(_) => {
            let n = normalize_request(v);
            match decode_request(&n) {
                Ok(req) => Ok(BatchRequest::Single(req)),
                Err(e) => Err(e),
            }
        },
        JsonValue::Arr(items) => {
            let ghost iv = items_view(items@);
            proof {
                crate::json::lemma_arr_view(items);
                assert(v == JsonValue::Arr(items));
                assert(v@ == JsonSpec::Arr(iv));
            }
            let mut out: Vec<Request> = Vec::new();
            let mut i: usize = 0;
            #[verifier::loop_isolation(false)]
            while i < items.len()
                invariant
                    i <= items.len(),
                    out@.len() == i as int,
                    forall|j: int|
                        0 <= j < i as int ==> (#[trigger] spec_decode_request(
                            spec_normalize(iv[j]),
                        )) == Ok::<RequestSpec, ErrSpec>(out@[j]@),
                decreases items.len() - i,
            {
                let n = normalize_request(items[i].clone());
                match decode_request(&n) {
                    Ok(req) => {
                        out.push(req);
                    },
                    Err(e) => {
                        proof {
                            lemma_decode_elems_err(iv, 0, i as int);
                        }
                        return Err(e);
                    },
                }
                i += 1;
            }
            proof {
                lemma_decode_elems_ok(iv, 0);
                let rs = spec_decode_elems(iv, 0)->Ok_0;
                assert forall|k: int| 0 <= k < out@.len() implies out@[k]@ == rs[k] by {
                    assert(spec_decode_request(spec_normalize(iv[k])) == Ok::<
                        RequestSpec,
                        ErrSpec,
                    >(out@[k]@));
                }
                assert(Seq::new(out@.len(), |k: int| out@[k]@) =~= rs);
            }
            Ok(BatchRequest::Batch(out))
        },
        JsonValue::Null => Err(RpcError::parse_error("the root cannot be null")),
        JsonValue::Bool(_) => Err(RpcError::parse_error("the root cannot be a boolean")),
        JsonValue::Int(_) => Err(RpcError::parse_error("the root cannot be a number")),
        JsonValue::Num(_) => Err(RpcError::parse_error("the root cannot be a number")),
        JsonValue::Str(_) => Err(RpcError::parse_error("the root cannot be a string")),
    }
}

} // verus!
