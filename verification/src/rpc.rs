//! The request/response envelope of a plugin call, and what a round trip
//! over a plugin's pipes comes to.
//!
//! One call is one request line written to the plugin's input and one
//! response line read from its output. The host does the writing, the
//! reading and the turning of lines into values; it reports how far the
//! round trip got as an [`Exchange`]. What the caller is told is decided
//! here.

use vstd::prelude::*;
use vstd::string::StringExecFns;
use crate::text::{agrees, message};

verus! {

/// A JSON value. It is carried through: parameters go to the plugin and
/// results come back without the manager looking inside.
#[verifier::external_type_specification]
#[verifier::external_body]
pub struct ExJsonValue(serde_json::Value);

/// A request to a plugin.
#[derive(Debug)]
pub struct JsonRpcRequest {
    /// Protocol version.
    pub jsonrpc: String,
    /// Name of the method to run.
    pub method: String,
    /// Parameters of the call.
    pub params: serde_json::Value,
    /// Request identifier.
    pub id: u64,
}

/// The error object of a response.
#[derive(Debug)]
pub struct JsonRpcError {
    /// Numeric code chosen by the plugin.
    pub code: i32,
    /// The plugin's own description of what went wrong.
    pub message: String,
    /// Further detail, if any.
    pub data: Option<serde_json::Value>,
}

/// A plugin's response to a request. A well-behaved plugin fills exactly one
/// of `result` and `error`.
#[derive(Debug)]
pub struct JsonRpcResponse {
    /// Protocol version.
    pub jsonrpc: String,
    /// The value of the call, on success.
    pub result: Option<serde_json::Value>,
    /// The error, on failure.
    pub error: Option<JsonRpcError>,
    /// Identifier of the request this answers. Requests and responses are
    /// matched by order alone, so it is not looked at.
    pub id: u64,
}

/// The protocol version every request carries.
pub open spec fn protocol_version() -> Seq<char> {
    "2.0"@
}

/// The identifier every request carries. A plugin has at most one request
/// in flight, so there is nothing to tell apart.
pub open spec fn request_id() -> u64 {
    1
}

impl JsonRpcRequest {
    /// Whether this is the request for running `method` with `params`.
    pub open spec fn is_call(self, method: Seq<char>, params: serde_json::Value) -> bool {
        &&& self.jsonrpc@ == protocol_version()
        &&& self.method@ == method
        &&& self.params == params
        &&& self.id == request_id()
    }

    /// The request for running `method` with `params`.
    pub fn new(method: &str, params: serde_json::Value) -> (request: Self)
        ensures
            request.is_call(method@, params),
    {
        JsonRpcRequest {
            jsonrpc: String::from_str("2.0"),
            method: String::from_str(method),
            params,
            id: 1,
        }
    }
}

/// What a response means to the caller: an error object makes the call fail
/// with the plugin's message, whatever else the response holds; without one,
/// a missing result makes it fail too; otherwise the result is the value of
/// the call.
pub open spec fn reply_outcome(response: JsonRpcResponse) -> Result<serde_json::Value, Seq<char>> {
    match response.error {
        Some(error) => Err("Plugin error: "@ + error.message@),
        None => match response.result {
            Some(value) => Ok(value),
            None => Err("No result in response"@),
        },
    }
}

impl JsonRpcResponse {
    /// Resolves the response into the value of the call or the reason for
    /// its failure.
    pub fn into_result(self) -> (outcome: Result<serde_json::Value, String>)
        ensures
            agrees(outcome, reply_outcome(self)),
    {
        match self.error {
            Some(error) => Err(message("Plugin error: ", error.message.as_str())),
            None => match self.result {
                Some(value) => Ok(value),
                None => Err(String::from_str("No result in response")),
            },
        }
    }
}

/// How far one round trip over a plugin's pipes got. The failures carry the
/// host's description of what went wrong.
#[derive(Debug)]
pub enum Exchange {
    /// The request could not be turned into a line.
    SerializeFailed(String),
    /// The process has no input pipe.
    StdinUnavailable,
    /// Writing the request line failed.
    WriteFailed(String),
    /// Flushing the input pipe failed.
    FlushFailed(String),
    /// The process has no output pipe.
    StdoutUnavailable,
    /// Reading the response line failed.
    ReadFailed(String),
    /// The line that was read is no response.
    ParseFailed(String),
    /// A response arrived.
    Reply(JsonRpcResponse),
}

/// What a round trip means to the caller: a failure of the transport ends
/// the call with a message that names the step; a response is resolved by
/// [`reply_outcome`].
pub open spec fn exchange_outcome(exchange: Exchange) -> Result<serde_json::Value, Seq<char>> {
    match exchange {
        Exchange::SerializeFailed(why) => Err("Failed to serialize request: "@ + why@),
        Exchange::StdinUnavailable => Err("Failed to get stdin"@),
        Exchange::WriteFailed(why) => Err("Failed to write to stdin: "@ + why@),
        Exchange::FlushFailed(why) => Err("Failed to flush stdin: "@ + why@),
        Exchange::StdoutUnavailable => Err("Failed to get stdout"@),
        Exchange::ReadFailed(why) => Err("Failed to read response: "@ + why@),
        Exchange::ParseFailed(why) => Err("Failed to parse response: "@ + why@),
        Exchange::Reply(response) => reply_outcome(response),
    }
}

/// Resolves a round trip into the value of the call or the reason for its
/// failure.
pub fn resolve_exchange(exchange: Exchange) -> (outcome: Result<serde_json::Value, String>)
    ensures
        agrees(outcome, exchange_outcome(exchange)),
{
    match exchange {
        Exchange::SerializeFailed(why) => Err(
            message("Failed to serialize request: ", why.as_str()),
        ),
        Exchange::StdinUnavailable => Err(String::from_str("Failed to get stdin")),
        Exchange::WriteFailed(why) => Err(message("Failed to write to stdin: ", why.as_str())),
        Exchange::FlushFailed(why) => Err(message("Failed to flush stdin: ", why.as_str())),
        Exchange::StdoutUnavailable => Err(String::from_str("Failed to get stdout")),
        Exchange::ReadFailed(why) => Err(message("Failed to read response: ", why.as_str())),
        Exchange::ParseFailed(why) => Err(message("Failed to parse response: ", why.as_str())),
        Exchange::Reply(response) => response.into_result(),
    }
}

} // verus!
