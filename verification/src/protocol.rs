//! The protocol session: what a line of input is, which calls it holds, what
//! each call is answered with, and the line that goes back.

use crate::catalog::{catalog_json, catalog_spec, list_tools};
use crate::dispatch::{
    is_tool, is_tool_name, resolve, resolve_spec, ResolveError, ResolveErrorV, ToolCall,
    ToolCallV,
};
use crate::json::{json_text, lemma_array_view, parse_spec, views_of, Json, JsonV, MemberV};
use crate::outside::{
    json_of_value, parsed_request, request_from_str, request_value, value_json,
    value_of_request,
};
use crate::text::{chars_of, is_digit, join2, join3, same_text, trim, trim_text};
use crate::{ErrorV, TauriMcpError};
use vstd::prelude::*;

verus! {

/// The code of the error for a line that is no JSON-RPC request.
pub const PARSE_ERROR: i64 = -32700;

/// The code of the error for a call that is malformed.
pub const INVALID_REQUEST: i64 = -32600;

/// The code of the error for a method that the server does not have.
pub const METHOD_NOT_FOUND: i64 = -32601;

/// The code of the error for arguments that a method cannot take.
pub const INVALID_PARAMS: i64 = -32602;

/// The version of this server, as `initialize` reports it.
pub open spec fn server_version() -> Seq<char> {
    "0.1.0"@
}

/// The error object of a response.
#[derive(Debug, PartialEq)]
pub struct RpcError {
    pub code: i64,
    pub message: String,
}

/// The mathematical value of an [`RpcError`].
pub struct RpcErrorV {
    pub code: i64,
    pub message: Seq<char>,
}

impl View for RpcError {
    type V = RpcErrorV;

    open spec fn view(&self) -> RpcErrorV {
        RpcErrorV { code: self.code, message: self.message@ }
    }
}

/// The error for arguments that a method cannot take.
pub open spec fn invalid_params(message: Seq<char>) -> RpcErrorV {
    RpcErrorV { code: INVALID_PARAMS, message }
}

/// The error for a method that the server does not have.
pub open spec fn method_not_found() -> RpcErrorV {
    RpcErrorV { code: METHOD_NOT_FOUND, message: "Method not found"@ }
}

/// The error for a line that is no JSON-RPC request.
pub open spec fn parse_error() -> RpcErrorV {
    RpcErrorV { code: PARSE_ERROR, message: "Parse error"@ }
}

/// The error for a call that is malformed.
pub open spec fn invalid_request() -> RpcErrorV {
    RpcErrorV { code: INVALID_REQUEST, message: "Invalid request"@ }
}

/// The error for a call that does not name version 2.0 of JSON-RPC.
pub open spec fn invalid_version() -> RpcErrorV {
    RpcErrorV { code: INVALID_REQUEST, message: "Unsupported JSON-RPC protocol version"@ }
}

/// The error for parameters that are not an object.
pub open spec fn expected_object() -> RpcErrorV {
    invalid_params("Expected object parameters"@)
}

/// The id by which a client tells its requests apart.
#[derive(Debug, PartialEq)]
pub enum RequestId {
    Null,
    Num(u64),
    Str(String),
}

/// The mathematical value of a [`RequestId`].
pub enum RequestIdV {
    Null,
    Num(u64),
    Str(Seq<char>),
}

impl View for RequestId {
    type V = RequestIdV;

    open spec fn view(&self) -> RequestIdV {
        match self {
            RequestId::Null => RequestIdV::Null,
            RequestId::Num(n) => RequestIdV::Num(*n),
            RequestId::Str(s) => RequestIdV::Str(s@),
        }
    }
}

/// One call of a line.
#[derive(Debug, PartialEq)]
pub enum Call {
    /// A request: it has an id and is owed one response.
    Method { version_ok: bool, method: String, params: Json, id: RequestId },
    /// A notification: it has no id and is never answered.
    Notification { version_ok: bool, method: String, params: Json },
    /// A document with a method and without an id that is no well-formed
    /// notification.  It is never answered either.
    Unanswered,
    /// An object that is neither.
    Invalid { id: RequestId },
}

/// The mathematical value of a [`Call`].
pub enum CallV {
    Method { version_ok: bool, method: Seq<char>, params: JsonV, id: RequestIdV },
    Notification { version_ok: bool, method: Seq<char>, params: JsonV },
    Unanswered,
    Invalid { id: RequestIdV },
}

impl View for Call {
    type V = CallV;

    open spec fn view(&self) -> CallV {
        match self {
            Call::Method { version_ok, method, params, id } => CallV::Method {
                version_ok: *version_ok,
                method: method@,
                params: params@,
                id: id@,
            },
            Call::Notification { version_ok, method, params } => CallV::Notification {
                version_ok: *version_ok,
                method: method@,
                params: params@,
            },
            Call::Unanswered => CallV::Unanswered,
            Call::Invalid { id } => CallV::Invalid { id: id@ },
        }
    }
}

/// The values of `calls`, in order.
pub open spec fn call_views(calls: Seq<Call>) -> Seq<CallV> {
    Seq::new(calls.len(), |i: int| calls[i]@)
}

/// What one line of input is.
#[derive(Debug, PartialEq)]
pub enum Incoming {
    /// Nothing but white space: the line is skipped.
    Blank,
    /// No JSON-RPC request: the line is answered with a parse error.
    Malformed,
    /// One call.
    Single(Call),
    /// An array of calls.
    Batch(Vec<Call>),
}

/// The mathematical value of an [`Incoming`].
pub enum IncomingV {
    Blank,
    Malformed,
    Single(CallV),
    Batch(Seq<CallV>),
}

impl View for Incoming {
    type V = IncomingV;

    open spec fn view(&self) -> IncomingV {
        match self {
            Incoming::Blank => IncomingV::Blank,
            Incoming::Malformed => IncomingV::Malformed,
            Incoming::Single(call) => IncomingV::Single(call@),
            Incoming::Batch(calls) => IncomingV::Batch(call_views(calls@)),
        }
    }
}

/// The answer to one request.
#[derive(Debug, PartialEq)]
pub struct Reply {
    /// Whether the response names the version of JSON-RPC.
    pub versioned: bool,
    pub id: RequestId,
    pub outcome: Result<Json, RpcError>,
}

/// The mathematical value of a [`Reply`].
pub struct ReplyV {
    pub versioned: bool,
    pub id: RequestIdV,
    pub outcome: Result<JsonV, RpcErrorV>,
}

/// The value of an outcome: that of the result, or that of the error.
pub open spec fn outcome_view(outcome: Result<Json, RpcError>) -> Result<JsonV, RpcErrorV> {
    match outcome {
        Ok(j) => Ok(j@),
        Err(e) => Err(e@),
    }
}

impl View for Reply {
    type V = ReplyV;

    open spec fn view(&self) -> ReplyV {
        ReplyV { versioned: self.versioned, id: self.id@, outcome: outcome_view(self.outcome) }
    }
}

/// The values of `replies`, in order.
pub open spec fn reply_views(replies: Seq<Reply>) -> Seq<ReplyV> {
    Seq::new(replies.len(), |i: int| replies[i]@)
}

/// What the method table makes of a method and its parameters.
#[derive(Debug, PartialEq)]
pub enum MethodPlan {
    /// The outcome is known at once.
    Answer(Result<Json, RpcError>),
    /// The tool has to run first.
    Run(ToolCall),
}

/// The mathematical value of a [`MethodPlan`].
pub enum MethodPlanV {
    Answer(Result<JsonV, RpcErrorV>),
    Run(ToolCallV),
}

impl View for MethodPlan {
    type V = MethodPlanV;

    open spec fn view(&self) -> MethodPlanV {
        match self {
            MethodPlan::Answer(outcome) => MethodPlanV::Answer(outcome_view(*outcome)),
            MethodPlan::Run(call) => MethodPlanV::Run(call@),
        }
    }
}

/// What is to be done about one call.
#[derive(Debug, PartialEq)]
pub enum Plan {
    /// Nothing is written.
    Silent,
    /// The reply is known at once.
    Answer(Reply),
    /// The tool has to run; its outcome is then the reply to `id`.
    Run { id: RequestId, call: ToolCall },
}

/// The mathematical value of a [`Plan`].
pub enum PlanV {
    Silent,
    Answer(ReplyV),
    Run { id: RequestIdV, call: ToolCallV },
}

impl View for Plan {
    type V = PlanV;

    open spec fn view(&self) -> PlanV {
        match self {
            Plan::Silent => PlanV::Silent,
            Plan::Answer(reply) => PlanV::Answer(reply@),
            Plan::Run { id, call } => PlanV::Run { id: id@, call: call@ },
        }
    }
}

/// The id that a document stands for: a whole number that is not negative,
/// a string, or else the null id.
pub open spec fn id_of(j: Option<JsonV>) -> RequestIdV {
    match j {
        Some(JsonV::Int(n)) => if 0 <= n <= u64::MAX {
            RequestIdV::Num(n as u64)
        } else {
            RequestIdV::Null
        },
        Some(JsonV::Str(s)) => RequestIdV::Str(s),
        _ => RequestIdV::Null,
    }
}

/// The parameters that a call holds; `null` where it holds none.
pub open spec fn params_of(j: JsonV) -> JsonV {
    match j.field("params"@) {
        Some(p) => p,
        None => JsonV::Null,
    }
}

/// Whether a call names version 2.0 of JSON-RPC.
pub open spec fn names_version_2(j: JsonV) -> bool {
    j.field("jsonrpc"@) == Some(JsonV::Str("2.0"@))
}

/// The call that a request holds, read from the document that the request
/// is written back as.  With a method and an id it is a method call, with a
/// method and no id a notification, and without a method it is invalid.
pub open spec fn call_of(j: JsonV) -> CallV {
    match j.str_field("method"@) {
        Some(method) => if j.field("id"@) is Some {
            CallV::Method {
                version_ok: names_version_2(j),
                method,
                params: params_of(j),
                id: id_of(j.field("id"@)),
            }
        } else {
            CallV::Notification { version_ok: names_version_2(j), method, params: params_of(j) }
        },
        None => CallV::Invalid { id: id_of(j.field("id"@)) },
    }
}

/// Whether a document has the shape of a notification: it has a member
/// `method` and no member `id`.
pub open spec fn lacks_id(raw: JsonV) -> bool {
    raw.field("method"@) is Some && raw.field("id"@) is None
}

/// The id under which a document asks to be answered: its member `id`.
pub open spec fn request_id(raw: JsonV) -> RequestIdV {
    id_of(raw.field("id"@))
}

/// A call as it is answered under `id`: a method call stays the call that
/// it is, and what is no method call is an invalid call.
pub open spec fn answered_as(call: CallV, id: RequestIdV) -> CallV {
    match call {
        CallV::Method { version_ok, method, params, id: _ } => CallV::Method {
            version_ok,
            method,
            params,
            id,
        },
        _ => CallV::Invalid { id },
    }
}

/// The call that the document `raw` of a line holds, where `read` is what
/// the request made of it.  A document with a method and without an id is
/// never answered: it is the notification that the request holds, or it is
/// unanswered where the request holds none.  Any other document is answered
/// under its own id: as the method call that the request holds, or as an
/// invalid call where the request holds none.
pub open spec fn call_from(raw: JsonV, read: JsonV) -> CallV {
    if lacks_id(raw) {
        if call_of(read) is Notification {
            call_of(read)
        } else {
            CallV::Unanswered
        }
    } else {
        answered_as(call_of(read), request_id(raw))
    }
}

/// What the request made of the items of a batch, item by item; where the
/// request is no batch of as many items, each item is read by itself.
pub open spec fn readings(raw_items: Seq<JsonV>, read: JsonV) -> Seq<JsonV> {
    match read {
        JsonV::Array(items) => if items.len() == raw_items.len() {
            items
        } else {
            raw_items
        },
        _ => raw_items,
    }
}

/// The calls of a line whose document is `raw` and whose request was read
/// as `read`.  The line is a batch where its document is an array, and then
/// it holds one call for each item of that array; else it holds the one
/// call that the document is.
pub open spec fn request_calls(raw: JsonV, read: JsonV) -> IncomingV {
    match raw {
        JsonV::Array(raw_items) => IncomingV::Batch(
            Seq::new(
                raw_items.len(),
                |i: int| call_from(raw_items[i], readings(raw_items, read)[i]),
            ),
        ),
        _ => IncomingV::Single(call_from(raw, read)),
    }
}

/// Whether nothing in a document asks for an answer: it has a method and no
/// id, or it is an array of such documents.
pub open spec fn asks_no_answer(raw: JsonV) -> bool {
    match raw {
        JsonV::Array(items) => forall|i: int| 0 <= i < items.len() ==> lacks_id(#[trigger] items[i]),
        _ => lacks_id(raw),
    }
}

/// What a line of input is.  A line that holds only white space is blank.
/// Else the line is trimmed and read twice, as a document and as a JSON-RPC
/// request.  A line that is no document is malformed.  A document that is
/// a request holds the calls of that request.  A document that is no
/// request is malformed, unless nothing in it asks for an answer: then it
/// holds what its own members say, and is never answered.
pub open spec fn incoming_spec(line: Seq<char>) -> IncomingV {
    let text = trim_text(line);
    if text.len() == 0 {
        IncomingV::Blank
    } else {
        match parse_spec(text) {
            Err(_) => IncomingV::Malformed,
            Ok(raw) => match parsed_request(text) {
                Some(request) => request_calls(raw, value_json(request_value(request))),
                None => if asks_no_answer(raw) {
                    request_calls(raw, raw)
                } else {
                    IncomingV::Malformed
                },
            },
        }
    }
}

/// Whether `v` has the form of a date: four digits, a hyphen, two digits, a
/// hyphen, two digits.
pub open spec fn is_date_version(v: Seq<char>) -> bool {
    &&& v.len() == 10
    &&& is_digit(v[0])
    &&& is_digit(v[1])
    &&& is_digit(v[2])
    &&& is_digit(v[3])
    &&& v[4] == '-'
    &&& is_digit(v[5])
    &&& is_digit(v[6])
    &&& v[7] == '-'
    &&& is_digit(v[8])
    &&& is_digit(v[9])
}

/// Whether the server speaks the protocol version `v`.
pub open spec fn version_accepted(v: Seq<char>) -> bool {
    v == "1.0"@ || v == "2024-11-05"@ || is_date_version(v)
}

/// The error for a protocol version that the server does not speak.  Its
/// message names the versions that it does.
pub open spec fn unsupported_version(v: Seq<char>) -> RpcErrorV {
    invalid_params(
        "Unsupported protocol version: "@ + v
            + ". Supported versions: [\"1.0\", \"2024-11-05\"]. Date-based versions (YYYY-MM-DD) are also accepted."@,
    )
}

/// The object with no member.
pub open spec fn empty_object() -> JsonV {
    JsonV::Object(Seq::empty())
}

/// What the server says of itself and of what it can do, with the protocol
/// version that the client asked for.
pub open spec fn initialize_json(v: Seq<char>) -> JsonV {
    JsonV::Object(
        seq![
            MemberV { key: "protocolVersion"@, value: JsonV::Str(v) },
            MemberV {
                key: "serverInfo"@,
                value: JsonV::Object(
                    seq![
                        MemberV { key: "name"@, value: JsonV::Str("tauri-mcp"@) },
                        MemberV { key: "version"@, value: JsonV::Str(server_version()) },
                        MemberV {
                            key: "description"@,
                            value: JsonV::Str(
                                "MCP server for testing and interacting with Tauri v2 applications"@,
                            ),
                        },
                    ],
                ),
            },
            MemberV {
                key: "capabilities"@,
                value: JsonV::Object(
                    seq![
                        MemberV {
                            key: "tools"@,
                            value: JsonV::Object(
                                seq![MemberV { key: "listTools"@, value: JsonV::Bool(true) }],
                            ),
                        },
                        MemberV { key: "resources"@, value: empty_object() },
                        MemberV { key: "prompts"@, value: empty_object() },
                        MemberV { key: "logging"@, value: empty_object() },
                    ],
                ),
            },
        ],
    )
}

/// What `initialize` answers to the protocol version `v`.
pub open spec fn initialize_spec(v: Seq<char>) -> Result<JsonV, RpcErrorV> {
    if version_accepted(v) {
        Ok(initialize_json(v))
    } else {
        Err(unsupported_version(v))
    }
}

/// The protocol version that the parameters of `initialize` ask for: their
/// string member `protocolVersion`, and `1.0` where there is none.
pub open spec fn requested_version(params: JsonV) -> Seq<char> {
    match params.str_field("protocolVersion"@) {
        Some(v) => v,
        None => "1.0"@,
    }
}

/// What `shutdown` answers.
pub open spec fn shutdown_json() -> JsonV {
    JsonV::Object(seq![MemberV { key: "status"@, value: JsonV::Str("shutdown"@) }])
}

/// The error that reports to a client why a tool call was not resolved.
pub open spec fn rpc_error_of(e: ResolveErrorV) -> RpcErrorV {
    match e {
        ResolveErrorV::Missing(what) => invalid_params("Missing "@ + what),
        ResolveErrorV::UnknownTool => method_not_found(),
    }
}

/// A resolved call is run; a call that was not resolved is answered with the
/// reason.
pub open spec fn tool_plan(r: Result<ToolCallV, ResolveErrorV>) -> MethodPlanV {
    match r {
        Ok(call) => MethodPlanV::Run(call),
        Err(e) => MethodPlanV::Answer(Err(rpc_error_of(e))),
    }
}

/// The arguments that the parameters of `tools/call` hold: their member
/// `arguments`, and the empty object where there is none.
pub open spec fn arguments_of(params: JsonV) -> JsonV {
    match params.field("arguments"@) {
        Some(a) => a,
        None => empty_object(),
    }
}

/// What `tools/call` makes of its parameters.
pub open spec fn call_tool_spec(params: JsonV) -> MethodPlanV {
    match params.str_field("name"@) {
        None => MethodPlanV::Answer(Err(invalid_params("Missing tool name"@))),
        Some(name) => tool_plan(resolve_spec(name, arguments_of(params))),
    }
}

/// The method table.  `initialize`, `tools/call` and the tools, called by
/// their own names, take an object as parameters; `shutdown` and
/// `tools/list` take anything.
pub open spec fn plan_method_spec(method: Seq<char>, params: JsonV) -> MethodPlanV {
    if method == "initialize"@ {
        if params is Object {
            MethodPlanV::Answer(initialize_spec(requested_version(params)))
        } else {
            MethodPlanV::Answer(Err(expected_object()))
        }
    } else if method == "shutdown"@ {
        MethodPlanV::Answer(Ok(shutdown_json()))
    } else if method == "tools/list"@ {
        MethodPlanV::Answer(Ok(catalog_json(catalog_spec())))
    } else if method == "tools/call"@ {
        if params is Object {
            call_tool_spec(params)
        } else {
            MethodPlanV::Answer(Err(expected_object()))
        }
    } else if is_tool_name(method) {
        if params is Object {
            tool_plan(resolve_spec(method, params))
        } else {
            MethodPlanV::Answer(Err(expected_object()))
        }
    } else {
        MethodPlanV::Answer(Err(method_not_found()))
    }
}

/// What is to be done about a call.  A notification is never answered, and
/// neither is a document that has only the shape of one.  A request that
/// does not name version 2.0 is refused, and so is an invalid call; any
/// other request goes to the method table.
pub open spec fn plan_spec(call: CallV) -> PlanV {
    match call {
        CallV::Notification { .. } => PlanV::Silent,
        CallV::Unanswered => PlanV::Silent,
        CallV::Invalid { id } => PlanV::Answer(
            ReplyV { versioned: true, id, outcome: Err(invalid_request()) },
        ),
        CallV::Method { version_ok, method, params, id } => if !version_ok {
            PlanV::Answer(ReplyV { versioned: false, id, outcome: Err(invalid_version()) })
        } else {
            match plan_method_spec(method, params) {
                MethodPlanV::Answer(outcome) => PlanV::Answer(
                    ReplyV { versioned: true, id, outcome },
                ),
                MethodPlanV::Run(tool) => PlanV::Run { id, call: tool },
            }
        },
    }
}

/// The reply to the request `id` whose tool ended in `outcome`: the result,
/// or an error with the message of the failure.
pub open spec fn tool_reply_spec(id: RequestIdV, outcome: Result<JsonV, ErrorV>) -> ReplyV {
    ReplyV {
        versioned: true,
        id,
        outcome: match outcome {
            Ok(j) => Ok(j),
            Err(e) => Err(invalid_params(e.message())),
        },
    }
}

/// The reply to a line that is no JSON-RPC request.
pub open spec fn malformed_reply() -> ReplyV {
    ReplyV { versioned: true, id: RequestIdV::Null, outcome: Err(parse_error()) }
}

/// An id as a document.
pub open spec fn id_json(id: RequestIdV) -> JsonV {
    match id {
        RequestIdV::Null => JsonV::Null,
        RequestIdV::Num(n) => JsonV::Int(n as int),
        RequestIdV::Str(s) => JsonV::Str(s),
    }
}

/// An error object as a document.
pub open spec fn error_json(e: RpcErrorV) -> JsonV {
    JsonV::Object(
        seq![
            MemberV { key: "code"@, value: JsonV::Int(e.code as int) },
            MemberV { key: "message"@, value: JsonV::Str(e.message) },
        ],
    )
}

/// The response object of a reply: the version where the reply names it,
/// then the result or the error, then the id.
pub open spec fn reply_json(reply: ReplyV) -> JsonV {
    let head = if reply.versioned {
        seq![MemberV { key: "jsonrpc"@, value: JsonV::Str("2.0"@) }]
    } else {
        Seq::empty()
    };
    let body = match reply.outcome {
        Ok(j) => MemberV { key: "result"@, value: j },
        Err(e) => MemberV { key: "error"@, value: error_json(e) },
    };
    JsonV::Object(head.push(body).push(MemberV { key: "id"@, value: id_json(reply.id) }))
}

/// The document that answers a line: none where no reply is owed, the array
/// of the response objects for a batch, and else the one response object.
pub open spec fn response_json(batch: bool, replies: Seq<ReplyV>) -> Option<JsonV> {
    if replies.len() == 0 {
        None
    } else if batch {
        Some(JsonV::Array(Seq::new(replies.len(), |i: int| reply_json(replies[i]))))
    } else {
        Some(reply_json(replies[0]))
    }
}

/// The line that answers a line of input, or none.
pub open spec fn response_text(batch: bool, replies: Seq<ReplyV>) -> Option<Seq<char>> {
    match response_json(batch, replies) {
        Some(doc) => Some(json_text(doc)),
        None => None,
    }
}

/// Whether a call is owed a reply.
pub open spec fn owes_reply(call: CallV) -> bool {
    !(plan_spec(call) is Silent)
}

impl RpcError {
    /// The error for arguments that a method cannot take.
    pub fn invalid_params(message: String) -> (e: RpcError)
        ensures
            e@ == invalid_params(message@),
    {
        RpcError { code: INVALID_PARAMS, message }
    }

    /// The error for a method that the server does not have.
    pub fn method_not_found() -> (e: RpcError)
        ensures
            e@ == method_not_found(),
    {
        RpcError { code: METHOD_NOT_FOUND, message: "Method not found".to_owned() }
    }

    /// The error that reports why a tool call was not resolved.
    pub fn from_resolve(e: &ResolveError) -> (r: RpcError)
        ensures
            r@ == rpc_error_of(e@),
    {
        match e {
            ResolveError::Missing(what) => RpcError::invalid_params(
                join2("Missing ", what.as_str()),
            ),
            ResolveError::UnknownTool => RpcError::method_not_found(),
        }
    }
}

/// The id that a document stands for.
fn read_id(j: Option<&Json>) -> (id: RequestId)
    ensures
        id@ == id_of(
            match j {
                Some(v) => Some(v@),
                None => None,
            },
        ),
{
    match j {
        Some(v) => match v.as_u64() {
            Some(n) => RequestId::Num(n),
            None => match v.as_str() {
                Some(s) => RequestId::Str(s.to_owned()),
                None => RequestId::Null,
            },
        },
        None => RequestId::Null,
    }
}

/// Whether `v` is the string `text`.
fn is_string(v: Option<&Json>, text: &str) -> (r: bool)
    ensures
        r == (match v {
            Some(j) => j@ == JsonV::Str(text@),
            None => false,
        }),
{
    match v {
        Some(j) => match j.as_str() {
            Some(s) => same_text(s, text),
            None => false,
        },
        None => false,
    }
}

/// The call that a request holds, read from the document that the request
/// is written back as.
pub fn classify(j: &Json) -> (call: Call)
    ensures
        call@ == call_of(j@),
{
    let method = match j.get("method") {
        Some(m) => match m.as_str() {
            Some(s) => Some(s.to_owned()),
            None => None,
        },
        None => None,
    };
    let id = j.get("id");
    match method {
        None => Call::Invalid { id: read_id(id) },
        Some(method) => {
            let version_ok = is_string(j.get("jsonrpc"), "2.0");
            let params = match j.get("params") {
                Some(p) => p.copy(),
                None => Json::Null,
            };
            if id.is_some() {
                Call::Method { version_ok, method, params, id: read_id(id) }
            } else {
                Call::Notification { version_ok, method, params }
            }
        },
    }
}

/// Whether a document has the shape of a notification.
pub fn has_no_id(raw: &Json) -> (r: bool)
    ensures
        r == lacks_id(raw@),
{
    raw.get("method").is_some() && raw.get("id").is_none()
}

/// Whether nothing in a document asks for an answer.
pub fn needs_no_answer(raw: &Json) -> (r: bool)
    ensures
        r == asks_no_answer(raw@),
{
    match raw {
        Json::Array(items) => {
            proof {
                lemma_array_view(*items);
            }
            let mut i: usize = 0;
            while i < items.len()
                invariant
                    i <= items.len(),
                    raw@ == JsonV::Array(views_of(items@)),
                    forall|k: int| 0 <= k < i ==> lacks_id(#[trigger] views_of(items@)[k]),
                decreases items.len() - i,
            {
                let lacking = has_no_id(&items[i]);
                proof {
                    assert(views_of(items@)[i as int] == items@[i as int]@);
                }
                if !lacking {
                    proof {
                        let held = raw@->Array_0;
                        assert(!lacks_id(held[i as int]));
                    }
                    return false;
                }
                i += 1;
            }
            true
        },
        _ => has_no_id(raw),
    }
}

/// The call that the document `raw` of a line holds, where `read` is what
/// the request made of it.
pub fn classify_with(raw: &Json, read: &Json) -> (call: Call)
    ensures
        call@ == call_from(raw@, read@),
{
    let call = classify(read);
    if has_no_id(raw) {
        match call {
            Call::Notification { version_ok, method, params } => Call::Notification {
                version_ok,
                method,
                params,
            },
            _ => Call::Unanswered,
        }
    } else {
        let id = read_id(raw.get("id"));
        match call {
            Call::Method { version_ok, method, params, id: _ } => Call::Method {
                version_ok,
                method,
                params,
                id,
            },
            _ => Call::Invalid { id },
        }
    }
}

/// The calls of the items of a batch, where `read` holds what the request
/// made of each item.
fn classify_each(raw: &Vec<Json>, read: &Vec<Json>) -> (calls: Vec<Call>)
    requires
        raw@.len() == read@.len(),
    ensures
        calls@.len() == raw@.len(),
        forall|k: int| 0 <= k < raw@.len() ==> calls@[k]@ == call_from(raw@[k]@, read@[k]@),
{
    let mut calls: Vec<Call> = Vec::new();
    let mut i: usize = 0;
    while i < raw.len()
        invariant
            i <= raw.len(),
            raw@.len() == read@.len(),
            calls@.len() == i,
            forall|k: int| 0 <= k < i ==> calls@[k]@ == call_from(raw@[k]@, read@[k]@),
        decreases raw.len() - i,
    {
        calls.push(classify_with(&raw[i], &read[i]));
        i += 1;
    }
    calls
}

/// The calls of a line whose document is `raw` and whose request was read
/// as `read`.
pub fn calls_of(raw: &Json, read: &Json) -> (r: Incoming)
    ensures
        r@ == request_calls(raw@, read@),
{
    match raw {
        Json::Array(raw_items) => {
            proof {
                lemma_array_view(*raw_items);
            }
            let paired: &Vec<Json> = match read {
                Json::Array(read_items) => {
                    proof {
                        lemma_array_view(*read_items);
                    }
                    if read_items.len() == raw_items.len() {
                        read_items
                    } else {
                        raw_items
                    }
                },
                _ => raw_items,
            };
            proof {
                assert(views_of(paired@) == readings(views_of(raw_items@), read@));
            }
            let calls = classify_each(raw_items, paired);
            proof {
                let wanted = request_calls(raw@, read@);
                assert(wanted is Batch);
                assert(call_views(calls@) =~= wanted->Batch_0);
            }
            Incoming::Batch(calls)
        },
        _ => Incoming::Single(classify_with(raw, read)),
    }
}

/// What a line of input is.
pub fn decode(line: &str) -> (r: Incoming)
    ensures
        r@ == incoming_spec(line@),
{
    let text = trim(line);
    if text.is_empty() {
        return Incoming::Blank;
    }
    let raw = match Json::parse(text) {
        Ok(raw) => raw,
        Err(_) => {
            return Incoming::Malformed;
        },
    };
    match request_from_str(text) {
        Some(request) => {
            let value = value_of_request(&request);
            let read = json_of_value(&value);
            calls_of(&raw, &read)
        },
        None => {
            if needs_no_answer(&raw) {
                calls_of(&raw, &raw)
            } else {
                Incoming::Malformed
            }
        },
    }
}

/// Whether `v` has the form of a date.
pub fn is_date(v: &str) -> (r: bool)
    ensures
        r == is_date_version(v@),
{
    let cs = chars_of(v);
    cs.len() == 10 && digit(cs[0]) && digit(cs[1]) && digit(cs[2]) && digit(cs[3]) && cs[4] == '-'
        && digit(cs[5]) && digit(cs[6]) && cs[7] == '-' && digit(cs[8]) && digit(cs[9])
}

/// Whether `c` is one of the ten decimal digits.
fn digit(c: char) -> (r: bool)
    ensures
        r == is_digit(c),
{
    '0' <= c && c <= '9'
}

/// Whether the server speaks the protocol version `v`.
pub fn accepts_version(v: &str) -> (r: bool)
    ensures
        r == version_accepted(v@),
{
    same_text(v, "1.0") || same_text(v, "2024-11-05") || is_date(v)
}

/// Negotiates the protocol version: answers with what the server is and can
/// do, or refuses the version.  The capabilities of the client are not
/// looked at.
pub fn initialize(protocol_version: &str, capabilities: &Json) -> (r: Result<Json, RpcError>)
    ensures
        outcome_view(r) == initialize_spec(protocol_version@),
{
    if !accepts_version(protocol_version) {
        return Err(
            RpcError::invalid_params(
                join3(
                    "Unsupported protocol version: ",
                    protocol_version,
                    ". Supported versions: [\"1.0\", \"2024-11-05\"]. Date-based versions (YYYY-MM-DD) are also accepted.",
                ),
            ),
        );
    }
    let info = Json::object().with("name", Json::string("tauri-mcp")).with(
        "version",
        Json::string("0.1.0"),
    ).with(
        "description",
        Json::string("MCP server for testing and interacting with Tauri v2 applications"),
    );
    let tools = Json::object().with("listTools", Json::Bool(true));
    let capable = Json::object().with("tools", tools).with("resources", Json::object()).with(
        "prompts",
        Json::object(),
    ).with("logging", Json::object());
    let r = Json::object().with("protocolVersion", Json::string(protocol_version)).with(
        "serverInfo",
        info,
    ).with("capabilities", capable);
    proof {
        let wanted = initialize_json(protocol_version@)->Object_0;
        assert(info@->Object_0 =~= wanted[1].value->Object_0);
        assert(tools@->Object_0 =~= wanted[2].value->Object_0[0].value->Object_0);
        assert(tools@ == wanted[2].value->Object_0[0].value);
        assert(capable@->Object_0 =~= wanted[2].value->Object_0);
        assert(info@ == wanted[1].value);
        assert(capable@ == wanted[2].value);
        assert(r@->Object_0 =~= wanted);
    }
    Ok(r)
}

/// Acknowledges a shutdown.  The session goes on until its input ends.
pub fn shutdown() -> (r: Json)
    ensures
        r@ == shutdown_json(),
{
    let r = Json::object().with("status", Json::string("shutdown"));
    proof {
        assert(r@->Object_0 =~= shutdown_json()->Object_0);
    }
    r
}

/// Whether `params` is an object.
fn is_object(params: &Json) -> (r: bool)
    ensures
        r == (params@ is Object),
{
    match params {
        Json::Object(_) => true,
        _ => false,
    }
}

/// A resolved call is run; a call that was not resolved is answered with the
/// reason.
fn plan_tool(r: Result<ToolCall, ResolveError>) -> (plan: MethodPlan)
    ensures
        plan@ == tool_plan(crate::dispatch::resolution_view(r)),
{
    match r {
        Ok(call) => MethodPlan::Run(call),
        Err(e) => MethodPlan::Answer(Err(RpcError::from_resolve(&e))),
    }
}

/// The generic entry to the tools: resolves the tool that `params` names
/// with the arguments that `params` holds.
pub fn call_tool(params: &Json) -> (plan: MethodPlan)
    ensures
        plan@ == call_tool_spec(params@),
{
    let name = match params.get("name") {
        Some(n) => match n.as_str() {
            Some(s) => Some(s),
            None => None,
        },
        None => None,
    };
    match name {
        None => MethodPlan::Answer(
            Err(RpcError::invalid_params("Missing tool name".to_owned())),
        ),
        Some(name) => match params.get("arguments") {
            Some(arguments) => plan_tool(resolve(name, arguments)),
            None => {
                let arguments = Json::object();
                plan_tool(resolve(name, &arguments))
            },
        },
    }
}

/// The method table.
pub fn plan_method(method: &str, params: &Json) -> (plan: MethodPlan)
    ensures
        plan@ == plan_method_spec(method@, params@),
{
    let refused = MethodPlan::Answer(
        Err(RpcError::invalid_params("Expected object parameters".to_owned())),
    );
    if same_text(method, "initialize") {
        if is_object(params) {
            let version = match params.get("protocolVersion") {
                Some(v) => match v.as_str() {
                    Some(s) => s,
                    None => "1.0",
                },
                None => "1.0",
            };
            let capabilities = Json::Null;
            MethodPlan::Answer(initialize(version, &capabilities))
        } else {
            refused
        }
    } else if same_text(method, "shutdown") {
        MethodPlan::Answer(Ok(shutdown()))
    } else if same_text(method, "tools/list") {
        MethodPlan::Answer(Ok(list_tools()))
    } else if same_text(method, "tools/call") {
        if is_object(params) {
            call_tool(params)
        } else {
            refused
        }
    } else if is_tool(method) {
        if is_object(params) {
            plan_tool(resolve(method, params))
        } else {
            refused
        }
    } else {
        MethodPlan::Answer(Err(RpcError::method_not_found()))
    }
}

/// What is to be done about a call.
pub fn plan(call: Call) -> (r: Plan)
    ensures
        r@ == plan_spec(call@),
{
    match call {
        Call::Notification { version_ok, method, params } => Plan::Silent,
        Call::Unanswered => Plan::Silent,
        Call::Invalid { id } => Plan::Answer(
            Reply {
                versioned: true,
                id,
                outcome: Err(
                    RpcError { code: INVALID_REQUEST, message: "Invalid request".to_owned() },
                ),
            },
        ),
        Call::Method { version_ok, method, params, id } => {
            if !version_ok {
                Plan::Answer(
                    Reply {
                        versioned: false,
                        id,
                        outcome: Err(
                            RpcError {
                                code: INVALID_REQUEST,
                                message: "Unsupported JSON-RPC protocol version".to_owned(),
                            },
                        ),
                    },
                )
            } else {
                match plan_method(method.as_str(), &params) {
                    MethodPlan::Answer(outcome) => Plan::Answer(
                        Reply { versioned: true, id, outcome },
                    ),
                    MethodPlan::Run(tool) => Plan::Run { id, call: tool },
                }
            }
        },
    }
}

/// The reply to the request `id` whose tool ended in `outcome`.
pub fn tool_reply(id: RequestId, outcome: Result<Json, TauriMcpError>) -> (reply: Reply)
    ensures
        reply@ == tool_reply_spec(
            id@,
            match outcome {
                Ok(j) => Ok(j@),
                Err(e) => Err(e@),
            },
        ),
{
    match outcome {
        Ok(j) => Reply { versioned: true, id, outcome: Ok(j) },
        Err(e) => Reply {
            versioned: true,
            id,
            outcome: Err(RpcError::invalid_params(e.to_string())),
        },
    }
}

/// The reply to a line that is no JSON-RPC request.
pub fn malformed() -> (reply: Reply)
    ensures
        reply@ == malformed_reply(),
{
    Reply {
        versioned: true,
        id: RequestId::Null,
        outcome: Err(RpcError { code: PARSE_ERROR, message: "Parse error".to_owned() }),
    }
}

/// The response object of a reply.
pub fn reply_document(reply: &Reply) -> (r: Json)
    ensures
        r@ == reply_json(reply@),
{
    let mut r = Json::object();
    if reply.versioned {
        r = r.with("jsonrpc", Json::string("2.0"));
    }
    match &reply.outcome {
        Ok(j) => {
            r = r.with("result", j.copy());
        },
        Err(e) => {
            let code = if e.code >= 0 {
                Json::PosInt(e.code as u64)
            } else {
                Json::NegInt(e.code)
            };
            let error = Json::object().with("code", code).with(
                "message",
                Json::string(e.message.as_str()),
            );
            proof {
                assert(error@->Object_0 =~= error_json(e@)->Object_0);
            }
            r = r.with("error", error);
        },
    }
    let id = match &reply.id {
        RequestId::Null => Json::Null,
        RequestId::Num(n) => Json::PosInt(*n),
        RequestId::Str(s) => Json::string(s.as_str()),
    };
    let r = r.with("id", id);
    proof {
        assert(r@->Object_0 =~= reply_json(reply@)->Object_0);
    }
    r
}

/// The line that answers a line of input, from the replies to its calls in
/// the order of the calls; none where no reply is owed.
pub fn render(batch: bool, replies: &Vec<Reply>) -> (line: Option<String>)
    ensures
        match line {
            Some(text) => response_text(batch, reply_views(replies@)) == Some(text@),
            None => response_text(batch, reply_views(replies@)) is None,
        },
{
    if replies.len() == 0 {
        return None;
    }
    if !batch {
        return Some(reply_document(&replies[0]).to_text());
    }
    let mut documents: Vec<Json> = Vec::new();
    let mut i: usize = 0;
    while i < replies.len()
        invariant
            i <= replies.len(),
            documents@.len() == i,
            forall|k: int| 0 <= k < i ==> documents@[k]@ == reply_json(replies@[k]@),
        decreases replies.len() - i,
    {
        documents.push(reply_document(&replies[i]));
        i += 1;
    }
    let all = Json::array(documents);
    proof {
        let views = reply_views(replies@);
        assert(views_of(documents@) =~= Seq::new(views.len(), |i: int| reply_json(views[i])));
    }
    Some(all.to_text())
}

/// A notification is never answered, whatever method it names and whatever
/// its parameters are.
pub proof fn lemma_notification_is_silent(call: CallV)
    requires
        call is Notification || call is Unanswered,
    ensures
        plan_spec(call) is Silent,
        !owes_reply(call),
{
}

/// A document with a method and without an id is never answered, whatever
/// else it holds and whatever the request made of it; and a line of which
/// no call is owed a reply gets no response.
pub proof fn lemma_no_id_no_response(raw: JsonV, read: JsonV, batch: bool)
    requires
        raw.field("method"@) is Some,
        raw.field("id"@) is None,
    ensures
        plan_spec(call_from(raw, read)) is Silent,
        !owes_reply(call_from(raw, read)),
        response_text(batch, Seq::empty()) is None,
{
}

/// A document is answered if and only if it is not one with a method and
/// without an id; and where it is answered, the reply carries the id of the
/// document, whether it is known at once or a tool has to run first.
pub proof fn lemma_answered_under_its_id(raw: JsonV, read: JsonV)
    ensures
        owes_reply(call_from(raw, read)) <==> !lacks_id(raw),
        match plan_spec(call_from(raw, read)) {
            PlanV::Answer(reply) => reply.id == request_id(raw),
            PlanV::Run { id, call } => id == request_id(raw),
            PlanV::Silent => lacks_id(raw),
        },
{
}

/// Every request is owed exactly one reply: its plan is an answer, or a tool
/// to run whose outcome becomes the reply to the same id.
pub proof fn lemma_request_is_answered(call: CallV)
    requires
        call is Method || call is Invalid,
    ensures
        owes_reply(call),
        match plan_spec(call) {
            PlanV::Answer(reply) => call is Method ==> reply.id == call->Method_id,
            PlanV::Run { id, call: tool } => call is Method && id == call->Method_id,
            PlanV::Silent => false,
        },
{
}

/// The tools that `tools/call` reaches are exactly the tools that
/// `tools/list` names: a name is refused as an unknown method if and only if
/// the list does not hold it.
pub proof fn lemma_call_reaches_listed_tools(params: JsonV, name: Seq<char>)
    requires
        params.str_field("name"@) == Some(name),
    ensures
        (call_tool_spec(params) == MethodPlanV::Answer(Err(method_not_found())))
            <==> !crate::catalog::catalog_names(catalog_spec()).contains(name),
{
    crate::catalog::lemma_catalog_names();
    crate::dispatch::lemma_dispatch_names(name, arguments_of(params));
}

/// No tool has the name of a method of the session itself.
pub proof fn lemma_tools_are_no_session_methods(name: Seq<char>)
    requires
        is_tool_name(name),
    ensures
        name != "initialize"@,
        name != "shutdown"@,
        name != "tools/list"@,
        name != "tools/call"@,
{
    reveal_strlit("initialize");
    reveal_strlit("shutdown");
    reveal_strlit("tools/list");
    reveal_strlit("tools/call");
    reveal_strlit("launch_app");
    reveal_strlit("stop_app");
    reveal_strlit("get_app_logs");
    reveal_strlit("take_screenshot");
    reveal_strlit("get_window_info");
    reveal_strlit("send_keyboard_input");
    reveal_strlit("send_mouse_click");
    reveal_strlit("execute_js");
    reveal_strlit("get_devtools_info");
    reveal_strlit("monitor_resources");
    reveal_strlit("list_ipc_handlers");
    reveal_strlit("call_ipc_command");
    reveal_strlit("find_running_apps");
    reveal_strlit("attach_to_app");
    let names = crate::dispatch::tool_names();
    let i = choose|i: int| 0 <= i < names.len() && names[i] == name;
    assert(names[i] == name);
    assert("initialize"@.len() == 10 && "initialize"@[0] == 'i');
    assert("shutdown"@.len() == 8 && "shutdown"@[1] == 'h');
    assert("tools/list"@.len() == 10 && "tools/list"@[0] == 't');
    assert("tools/call"@.len() == 10 && "tools/call"@[0] == 't');
    assert(names[0].len() == 10 && names[0][0] == 'l');
    assert(names[1].len() == 8 && names[1][1] == 't');
    assert(names[2].len() == 12);
    assert(names[3].len() == 15);
    assert(names[4].len() == 15);
    assert(names[5].len() == 19);
    assert(names[6].len() == 16);
    assert(names[7].len() == 10 && names[7][0] == 'e');
    assert(names[8].len() == 17);
    assert(names[9].len() == 17);
    assert(names[10].len() == 17);
    assert(names[11].len() == 16);
    assert(names[12].len() == 17);
    assert(names[13].len() == 13);
}

/// A tool called by its own name has the same effect as the tool called
/// through `tools/call` with that name and the same arguments.
pub proof fn lemma_direct_call_is_tool_call(method: Seq<char>, arguments: JsonV, params: JsonV)
    requires
        is_tool_name(method),
        arguments is Object,
        params is Object,
        params.str_field("name"@) == Some(method),
        params.field("arguments"@) == Some(arguments),
    ensures
        plan_method_spec(method, arguments) == tool_plan(resolve_spec(method, arguments)),
        plan_method_spec(method, arguments) == plan_method_spec("tools/call"@, params),
{
    lemma_tools_are_no_session_methods(method);
    reveal_strlit("initialize");
    reveal_strlit("shutdown");
    reveal_strlit("tools/list");
    reveal_strlit("tools/call");
    assert("initialize"@.len() == 10 && "initialize"@[0] == 'i');
    assert("shutdown"@.len() == 8);
    assert("tools/list"@.len() == 10 && "tools/list"@[6] == 'l');
    assert("tools/call"@.len() == 10 && "tools/call"@[0] == 't' && "tools/call"@[6] == 'c');
}

/// The versions `1.0` and `2024-11-05` and every version in the form of a
/// date are accepted, and `abc` is refused with an error for invalid
/// parameters whose message lists the supported versions.
pub proof fn lemma_versions(v: Seq<char>)
    ensures
        initialize_spec("1.0"@) is Ok,
        initialize_spec("2024-11-05"@) is Ok,
        is_date_version(v) ==> initialize_spec(v) == Ok::<JsonV, RpcErrorV>(initialize_json(v)),
        initialize_spec("abc"@) == Err::<JsonV, RpcErrorV>(unsupported_version("abc"@)),
        unsupported_version("abc"@).code == INVALID_PARAMS,
{
    reveal_strlit("abc");
    reveal_strlit("1.0");
    reveal_strlit("2024-11-05");
    assert("abc"@.len() == 3);
    assert("abc"@[0] == 'a');
    assert("1.0"@[0] == '1');
    assert("2024-11-05"@.len() == 10);
}

} // verus!
