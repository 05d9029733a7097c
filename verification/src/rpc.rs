//! JSON-RPC protocol types.

use vstd::prelude::*;

use crate::initialize::{InitializeRequest, InitializeSpec};
use crate::prompts::{PromptsGetRequest, PromptsGetSpec, PromptsListRequest, PromptsListSpec};
use crate::resources::{
    ResourcesListRequest, ResourcesListSpec, ResourcesReadRequest, ResourcesReadSpec,
    ResourcesTemplatesListRequest, ResourcesTemplatesListSpec,
};
use crate::tool::{ToolsCallRequest, ToolsCallSpec, ToolsListRequest, ToolsListSpec};

verus! {

/// The fixed code of a parse error.
pub const PARSE_ERROR: i32 = -32700;

/// The fixed code of an invalid request error.
pub const INVALID_REQUEST: i32 = -32600;

/// The fixed code of a method-not-found error.
pub const METHOD_NOT_FOUND: i32 = -32601;

/// The fixed code of an invalid-params error.
pub const INVALID_PARAMS: i32 = -32602;

/// The fixed code of an internal error.
pub const INTERNAL_ERROR: i32 = -32603;

/// The model of a JSON-RPC request id.
pub enum RequestIdSpec {
    /// A numeric request id.
    Int(i64),
    /// A string request id.
    Str(Seq<char>),
}

/// A JSON-RPC request id.
#[derive(Debug)]
pub enum RequestId {
    /// A numeric request id.
    Int(i64),
    /// A string request id.
    String(String),
}

impl View for RequestId {
    type V = RequestIdSpec;

    open spec fn view(&self) -> RequestIdSpec {
        match self {
            RequestId::Int(i) => RequestIdSpec::Int(*i),
            RequestId::String(s) => RequestIdSpec::Str(s@),
        }
    }
}

/// The model of a JSON-RPC request body.
pub enum RequestsSpec {
    /// Ping.
    Ping,
    /// Initialize.
    Initialize { params: InitializeSpec },
    /// Initialized notification.
    Initialized,
    /// Cancelled notification.
    Cancelled { request_id: RequestIdSpec, reason: Option<Seq<char>> },
    /// Tools list.
    ToolsList { params: ToolsListSpec },
    /// Call a tool.
    ToolsCall { params: ToolsCallSpec },
    /// Prompts list.
    PromptsList { params: PromptsListSpec },
    /// Get a prompt.
    PromptsGet { params: PromptsGetSpec },
    /// Resources list.
    ResourcesList { params: ResourcesListSpec },
    /// Resource templates list.
    ResourcesTemplatesList { params: ResourcesTemplatesListSpec },
    /// Read a resource.
    ResourcesRead { params: ResourcesReadSpec },
}

/// A JSON-RPC request body, one variant per supported method.
#[derive(Debug)]
pub enum Requests {
    /// Ping.
    Ping,
    /// Initialize.
    Initialize {
        /// Initialize request parameters.
        params: InitializeRequest,
    },
    /// Initialized notification.
    Initialized,
    /// Cancelled notification.
    Cancelled {
        /// The ID of the request to cancel.
        request_id: RequestId,
        /// An optional reason string that can be logged or displayed.
        reason: Option<String>,
    },
    /// Tools list.
    ToolsList {
        /// Tools list request parameters.
        params: ToolsListRequest,
    },
    /// Call a tool.
    ToolsCall {
        /// Tool call request parameters.
        params: ToolsCallRequest,
    },
    /// Prompts list.
    PromptsList {
        /// Prompts list request parameters.
        params: PromptsListRequest,
    },
    /// Get a prompt.
    PromptsGet {
        /// Prompts get request parameters.
        params: PromptsGetRequest,
    },
    /// Resources list.
    ResourcesList {
        /// Resources list request parameters.
        params: ResourcesListRequest,
    },
    /// Resource templates list.
    ResourcesTemplatesList {
        /// Resource templates list request parameters.
        params: ResourcesTemplatesListRequest,
    },
    /// Read a resource.
    ResourcesRead {
        /// Resources read request parameters.
        params: ResourcesReadRequest,
    },
}

impl View for Requests {
    type V = RequestsSpec;

    open spec fn view(&self) -> RequestsSpec {
        match self {
            Requests::Ping => RequestsSpec::Ping,
            Requests::Initialize { params } => RequestsSpec::Initialize { params: params@ },
            Requests::Initialized => RequestsSpec::Initialized,
            Requests::Cancelled { request_id, reason } => RequestsSpec::Cancelled {
                request_id: request_id@,
                reason: match reason {
                    Some(s) => Some(s@),
                    None => None,
                },
            },
            Requests::ToolsList { params } => RequestsSpec::ToolsList { params: params@ },
            Requests::ToolsCall { params } => RequestsSpec::ToolsCall { params: params@ },
            Requests::PromptsList { params } => RequestsSpec::PromptsList { params: params@ },
            Requests::PromptsGet { params } => RequestsSpec::PromptsGet { params: params@ },
            Requests::ResourcesList { params } => RequestsSpec::ResourcesList { params: params@ },
            Requests::ResourcesTemplatesList { params } => RequestsSpec::ResourcesTemplatesList {
                params: params@,
            },
            Requests::ResourcesRead { params } => RequestsSpec::ResourcesRead { params: params@ },
        }
    }
}

/// The model of a JSON-RPC request envelope.
pub struct RequestSpec {
    /// The JSON-RPC version tag.
    pub jsonrpc: Seq<char>,
    /// The request id; a request without one is a notification.
    pub id: Option<RequestIdSpec>,
    /// The request body.
    pub body: RequestsSpec,
}

/// A JSON-RPC request.
#[derive(Debug)]
pub struct Request {
    /// The JSON-RPC version.
    pub jsonrpc: String,
    /// The request id.
    pub id: Option<RequestId>,
    /// The request body.
    pub body: Requests,
}

impl View for Request {
    type V = RequestSpec;

    open spec fn view(&self) -> RequestSpec {
        RequestSpec {
            jsonrpc: self.jsonrpc@,
            id: match self.id {
                Some(id) => Some(id@),
                None => None,
            },
            body: self.body@,
        }
    }
}

impl Request {
    /// Whether this request is an `initialize` request.
    #[inline]
    pub fn is_initialize(&self) -> (r: bool)
        ensures
            r == (self.body@ matches RequestsSpec::Initialize { .. }),
    {
        matches!(self.body, Requests::Initialize { .. })
    }
}

/// The model of a batch request: the wire shape (bare object or array) is
/// part of the model, since the response must mirror it.
pub enum BatchRequestSpec {
    /// A single request, received as a bare object.
    Single(RequestSpec),
    /// A batch of requests, received as an array.
    Batch(Seq<RequestSpec>),
}

/// A JSON-RPC batch request: either one bare request object or an array of
/// request objects.
#[derive(Debug)]
pub enum BatchRequest {
    /// A single request.
    Single(Request),
    /// A batch of requests.
    Batch(Vec<Request>),
}

impl View for BatchRequest {
    type V = BatchRequestSpec;

    open spec fn view(&self) -> BatchRequestSpec {
        match self {
            BatchRequest::Single(r) => BatchRequestSpec::Single(r@),
            BatchRequest::Batch(rs) => BatchRequestSpec::Batch(
                Seq::new(rs@.len(), |i: int| rs@[i]@),
            ),
        }
    }
}

/// Relies on `core::slice::from_ref`: it returns a slice of length one whose
/// only element is the referenced value.
pub assume_specification<T>[ core::slice::from_ref ](r: &T) -> (s: &[T])
    ensures
        s@ =~= seq![*r],
;

impl BatchRequest {
    /// The requests contained, in order, regardless of the wire shape.
    pub open spec fn req_seq(&self) -> Seq<Request> {
        match self {
            BatchRequest::Single(r) => seq![*r],
            BatchRequest::Batch(rs) => rs@,
        }
    }

    /// Return the number of requests in the batch.
    pub fn len(&self) -> (n: usize)
        ensures
            n == self.req_seq().len(),
    {
        match self {
            BatchRequest::Single(_) => 1,
            BatchRequest::Batch(requests) => requests.len(),
        }
    }

    /// Return `true` if the batch is empty.
    pub fn is_empty(&self) -> (r: bool)
        ensures
            r == (self.req_seq().len() == 0),
    {
        self.len() == 0
    }

    /// Return the requests in the batch.
    pub fn requests(&self) -> (r: &[Request])
        ensures
            r@ == self.req_seq(),
    {
        match self {
            BatchRequest::Single(request) => core::slice::from_ref(request),
            BatchRequest::Batch(requests) => requests.as_slice(),
        }
    }
}

/// A JSON-RPC error: one of five fixed categories, each with an immutable
/// numeric code, a message, and an optional structured-data payload.
#[derive(Debug)]
pub struct RpcError<E = ()> {
    code: i32,
    message: String,
    data: Option<E>,
}

impl<E> RpcError<E> {
    /// The numeric code carried by this error.
    pub closed spec fn code_spec(&self) -> i32 {
        self.code
    }

    /// The message carried by this error.
    pub closed spec fn message_spec(&self) -> Seq<char> {
        self.message@
    }

    /// The structured-data payload carried by this error.
    pub closed spec fn data_spec(&self) -> Option<E> {
        self.data
    }

    /// Create a new JSON-RPC error with the given code and message.
    #[inline]
    pub fn new(code: i32, message: &str) -> (r: Self)
        ensures
            r.code_spec() == code,
            r.message_spec() == message@,
            r.data_spec() is None,
    {
        RpcError { code, message: message.to_owned(), data: None }
    }

    /// Attach data to the JSON-RPC error.
    #[inline]
    pub fn with_data<Q>(self, data: Q) -> (r: RpcError<Q>)
        ensures
            r.code_spec() == self.code_spec(),
            r.message_spec() == self.message_spec(),
            r.data_spec() == Some(data),
    {
        RpcError { code: self.code, message: self.message, data: Some(data) }
    }

    /// Create a JSON-RPC error with code `PARSE_ERROR(-32700)` and the given
    /// message.
    #[inline]
    pub fn parse_error(message: &str) -> (r: Self)
        ensures
            r.code_spec() == -32700,
            r.message_spec() == message@,
            r.data_spec() is None,
    {
        RpcError::new(PARSE_ERROR, message)
    }

    /// Create a JSON-RPC error with code `INVALID_REQUEST(-32600)` and the
    /// given message.
    #[inline]
    pub fn invalid_request(message: &str) -> (r: Self)
        ensures
            r.code_spec() == -32600,
            r.message_spec() == message@,
            r.data_spec() is None,
    {
        RpcError::new(INVALID_REQUEST, message)
    }

    /// Create a JSON-RPC error with code `METHOD_NOT_FOUND(-32601)` and the
    /// given message.
    #[inline]
    pub fn method_not_found(message: &str) -> (r: Self)
        ensures
            r.code_spec() == -32601,
            r.message_spec() == message@,
            r.data_spec() is None,
    {
        RpcError::new(METHOD_NOT_FOUND, message)
    }

    /// Create a JSON-RPC error with code `INVALID_PARAMS(-32602)` and the
    /// given message.
    #[inline]
    pub fn invalid_params(message: &str) -> (r: Self)
        ensures
            r.code_spec() == -32602,
            r.message_spec() == message@,
            r.data_spec() is None,
    {
        RpcError::new(INVALID_PARAMS, message)
    }

    /// Create a JSON-RPC error with code `INTERNAL_ERROR(-32603)` and the
    /// given message.
    #[inline]
    pub fn internal_error(message: &str) -> (r: Self)
        ensures
            r.code_spec() == -32603,
            r.message_spec() == message@,
            r.data_spec() is None,
    {
        RpcError::new(INTERNAL_ERROR, message)
    }

    /// The numeric code carried by this error.
    pub fn code(&self) -> (c: i32)
        ensures
            c == self.code_spec(),
    {
        self.code
    }

    /// The message carried by this error.
    pub fn message(&self) -> (m: &String)
        ensures
            m@ == self.message_spec(),
    {
        &self.message
    }

    /// The structured-data payload carried by this error.
    pub fn data(&self) -> (d: &Option<E>)
        ensures
            *d == self.data_spec(),
    {
        &self.data
    }
}

/// A JSON-RPC response: the original request id, and exactly one of a
/// success result or an error.
#[derive(Debug)]
pub struct Response<T = ()> {
    /// The JSON-RPC version.
    pub jsonrpc: String,
    /// The request id.
    pub id: Option<RequestId>,
    /// The response result.
    pub result: Option<T>,
    /// The response error.
    pub error: Option<RpcError>,
}

/// A JSON-RPC batch response, mirroring the shape of the batch request it
/// answers.
#[derive(Debug)]
pub enum BatchResponse<T = ()> {
    /// A single response.
    Single(Response<T>),
    /// A batch of responses.
    Batch(Vec<Response<T>>),
}

/// The answered entries of a batch: the outcomes that carry an id, in
/// order. An outcome without an id belongs to a notification, which gets
/// no response entry at all.
pub open spec fn with_ids<T>(outcomes: Seq<(Option<RequestId>, Result<T, RpcError>)>) -> Seq<
    (RequestId, Result<T, RpcError>),
>
    decreases outcomes.len(),
{
    if outcomes.len() == 0 {
        Seq::empty()
    } else {
        let rest = with_ids(outcomes.drop_first());
        match outcomes[0].0 {
            Some(id) => seq![(id, outcomes[0].1)] + rest,
            None => rest,
        }
    }
}

/// Whether a response answers the given outcome: it echoes the id
/// unchanged and carries exactly one of the success payload or the error.
pub open spec fn response_matches<T>(
    resp: Response<T>,
    ans: (RequestId, Result<T, RpcError>),
) -> bool {
    &&& resp.jsonrpc@ == "2.0"@
    &&& resp.id == Some(ans.0)
    &&& match ans.1 {
        Ok(t) => resp.result == Some(t) && resp.error is None,
        Err(e) => resp.result is None && resp.error == Some(e),
    }
}

/// Appending an outcome appends its answered entry, if it has one.
proof fn lemma_with_ids_push<T>(
    s: Seq<(Option<RequestId>, Result<T, RpcError>)>,
    x: (Option<RequestId>, Result<T, RpcError>),
)
    ensures
        with_ids(s.push(x)) == with_ids(s) + (match x.0 {
            Some(id) => seq![(id, x.1)],
            None => Seq::empty(),
        }),
    decreases s.len(),
{
    let tail = match x.0 {
        Some(id) => seq![(id, x.1)],
        None => Seq::<(RequestId, Result<T, RpcError>)>::empty(),
    };
    if s.len() == 0 {
        assert(s.push(x)[0] == x);
        assert(s.push(x).drop_first() =~= s);
        assert(with_ids(s) + tail =~= tail);
        match x.0 {
            Some(id) => {
                assert(seq![(id, x.1)] + with_ids(s) =~= tail);
            },
            None => {},
        }
    } else {
        lemma_with_ids_push(s.drop_first(), x);
        assert(s.push(x)[0] == s[0]);
        assert(s.push(x).drop_first() =~= s.drop_first().push(x));
        match s[0].0 {
            Some(id) => {
                assert((seq![(id, s[0].1)] + with_ids(s.drop_first())) + tail =~= seq![
                    (id, s[0].1),
                ] + (with_ids(s.drop_first()) + tail));
            },
            None => {},
        }
    }
}

/// A response carrying the given id and exactly one of a result or an
/// error.
fn make_response<T>(id: RequestId, outcome: Result<T, RpcError>) -> (resp: Response<T>)
    ensures
        response_matches(resp, (id, outcome)),
{
    match outcome {
        Ok(t) => Response {
            jsonrpc: "2.0".to_owned(),
            id: Some(id),
            result: Some(t),
            error: None,
        },
        Err(e) => Response {
            jsonrpc: "2.0".to_owned(),
            id: Some(id),
            result: None,
            error: Some(e),
        },
    }
}

/// Assemble the reply to a batch from the per-request outcomes, in request
/// order, mirroring the request's wire shape.
///
/// A single-object request gets a single response object (or, when that
/// one request was a notification, no reply at all: `None`); an array
/// request gets an array of responses, one per outcome that carries an id,
/// in the original order — an empty array stays an empty array, never a
/// null reply.
pub fn assemble<T>(
    was_single: bool,
    outcomes: Vec<(Option<RequestId>, Result<T, RpcError>)>,
) -> (r: Option<BatchResponse<T>>)
    requires
        was_single ==> outcomes@.len() == 1,
    ensures
        was_single ==> match outcomes@[0].0 {
            Some(id) => match r {
                Some(BatchResponse::Single(resp)) => response_matches(
                    resp,
                    (id, outcomes@[0].1),
                ),
                _ => false,
            },
            None => r is None,
        },
        !was_single ==> match r {
            Some(BatchResponse::Batch(rs)) => {
                &&& rs@.len() == with_ids(outcomes@).len()
                &&& forall|k: int|
                    0 <= k < rs@.len() ==> response_matches(
                        #[trigger] rs@[k],
                        with_ids(outcomes@)[k],
                    )
            },
            _ => false,
        },
{
    let mut outcomes = outcomes;
    let ghost full = outcomes@;
    if was_single {
        let (id_opt, outcome) = outcomes.remove(0);
        match id_opt {
            None => None,
            Some(id) => Some(BatchResponse::Single(make_response(id, outcome))),
        }
    } else {
        let total = outcomes.len();
        let mut rs: Vec<Response<T>> = Vec::new();
        let mut i: usize = 0;
        proof {
            assert(full.skip(0) =~= full);
            assert(full.take(0) =~= Seq::<(Option<RequestId>, Result<T, RpcError>)>::empty());
        }
        #[verifier::loop_isolation(false)]
        while outcomes.len() > 0
            invariant
                total == full.len(),
                i <= total,
                i + outcomes@.len() == full.len(),
                outcomes@ == full.skip(i as int),
                rs@.len() == with_ids(full.take(i as int)).len(),
                forall|k: int|
                    0 <= k < rs@.len() ==> response_matches(
                        #[trigger] rs@[k],
                        with_ids(full.take(i as int))[k],
                    ),
            decreases outcomes@.len(),
        {
            let (id_opt, outcome) = outcomes.remove(0);
            proof {
                assert(full.skip(i as int)[0] == full[i as int]);
                assert(full.skip(i as int).drop_first() =~= full.skip(i as int + 1));
                full.lemma_take_succ_push(i as int);
                lemma_with_ids_push(full.take(i as int), full[i as int]);
            }
            match id_opt {
                Some(id) => {
                    rs.push(make_response(id, outcome));
                },
                None => {},
            }
            i += 1;
        }
        proof {
            assert(full.take(full.len() as int) =~= full);
        }
        Some(BatchResponse::Batch(rs))
    }
}

} // verus!
