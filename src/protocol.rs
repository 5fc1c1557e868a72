//! Wire types of the line-delimited JSON-RPC 2.0 protocol and their text
//! encoding.

use std::collections::HashMap;
use vstd::prelude::*;

verus! {

/// Structured JSON values (parameters, results, correlation identifiers) are
/// carried through unchanged; this library never looks inside one.
#[verifier::external_type_specification]
#[verifier::external_body]
pub struct ExJsonValue(serde_json::Value);

/// Relies on `serde_json::Value::Null`: the JSON `null` value, the empty
/// result of an acknowledged request.
#[verifier::external_body]
pub(crate) fn json_null() -> (r: serde_json::Value) {
    serde_json::Value::Null
}

/// Protocol version tag written into every message.
pub open spec fn version_tag() -> Seq<char> {
    seq!['2', '.', '0']
}

/// Invalid method parameters.
pub const INVALID_PARAMS: i32 = -32602;

/// The method does not exist.
pub const METHOD_NOT_FOUND: i32 = -32601;

/// A JSON-RPC 2.0 request, or a notification when `id` is absent.
pub struct Request {
    pub jsonrpc: String,
    pub method: String,
    pub params: serde_json::Value,
    pub id: Option<serde_json::Value>,
}

impl Request {
    /// A notification: a request without identifier, which gets no response.
    pub fn notification(method: &str, params: serde_json::Value) -> (r: Request)
        ensures
            r.jsonrpc@ == version_tag(),
            r.method@ == method@,
            r.params == params,
            r.id is None,
    {
        let jsonrpc = String::from_str("2.0");
        proof {
            reveal_strlit("2.0");
        }
        Request { jsonrpc, method: String::from_str(method), params, id: None }
    }
}

/// A JSON-RPC 2.0 response: exactly one of `result` and `error` is present.
pub struct Response {
    pub jsonrpc: String,
    pub result: Option<serde_json::Value>,
    pub error: Option<RpcError>,
    pub id: serde_json::Value,
}

/// The error object of a failed request.
pub struct RpcError {
    pub code: i32,
    pub message: String,
    pub data: Option<serde_json::Value>,
}

impl Response {
    /// A success response carrying `result` for request `id`.
    pub fn success(id: serde_json::Value, result: serde_json::Value) -> (r: Response)
        ensures
            r.jsonrpc@ == version_tag(),
            r.result == Some(result),
            r.error is None,
            r.id == id,
    {
        let jsonrpc = String::from_str("2.0");
        proof {
            reveal_strlit("2.0");
        }
        Response { jsonrpc, result: Some(result), error: None, id }
    }

    /// An error response for request `id`, without additional data.
    pub fn error(id: serde_json::Value, code: i32, message: &str) -> (r: Response)
        ensures
            r.jsonrpc@ == version_tag(),
            r.result is None,
            r.error matches Some(e) && e.code == code && e.message@ == message@ && e.data is None,
            r.id == id,
    {
        let jsonrpc = String::from_str("2.0");
        proof {
            reveal_strlit("2.0");
        }
        let error = RpcError { code, message: String::from_str(message), data: None };
        Response { jsonrpc, result: None, error: Some(error), id }
    }
}

/// An unsolicited notification from the agent to the control plane.
pub enum StreamEvent {
    /// One line of the child's standard output.
    Stdout { chunk: String },
    /// One line of the child's standard error.
    Stderr { chunk: String },
    /// The child terminated with this code (-1: status unknown, e.g. a signal).
    Exit { code: i32 },
    /// A file that appeared or changed under the watched root.
    Artifact { path: String, mime: String, data_base64: String },
    /// A failure on the asynchronous path.
    Error { message: String },
}

/// The fixed notification method name of each event variant.
pub open spec fn event_method(e: StreamEvent) -> Seq<char> {
    match e {
        StreamEvent::Stdout { .. } => "stdout"@,
        StreamEvent::Stderr { .. } => "stderr"@,
        StreamEvent::Exit { .. } => "exit"@,
        StreamEvent::Artifact { .. } => "artifact"@,
        StreamEvent::Error { .. } => "error"@,
    }
}

impl StreamEvent {
    /// The notification method name under which this event is sent.
    pub fn method_name(&self) -> (r: String)
        ensures
            r@ == event_method(*self),
    {
        match self {
            StreamEvent::Stdout { .. } => String::from_str("stdout"),
            StreamEvent::Stderr { .. } => String::from_str("stderr"),
            StreamEvent::Exit { .. } => String::from_str("exit"),
            StreamEvent::Artifact { .. } => String::from_str("artifact"),
            StreamEvent::Error { .. } => String::from_str("error"),
        }
    }
}

/// Parameters of `exec`.
pub struct ExecParams {
    pub cmd: String,
    pub args: Vec<String>,
    pub env: HashMap<String, String>,
}

/// Parameters of `repl.start`.
pub struct ReplStartParams {
    pub cmd: String,
    pub args: Vec<String>,
    pub env: HashMap<String, String>,
}

/// Parameters of `repl.input`.
pub struct ReplInputParams {
    pub data: String,
}

} // verus!
