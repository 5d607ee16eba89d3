//! The protocol server's decisions: which request is answered how, one
//! request at a time. Reading lines, parsing them and writing the answers is
//! left to the program around the library.

use vstd::prelude::*;
use vstd::string::*;
use serde_json::Value;
use crate::catalogue::{catalogue, get_tools, Tool};
use crate::json::{json_member, member, text_arg_or_empty, text_under};
use crate::text::text_eq;
use crate::tools::{
    called, handle_tool_call, store_tool, tool_preparation, Preparation, Prepared, ToolReply,
};

verus! {

pub const JSONRPC_VERSION: &'static str = "2.0";

pub const PROTOCOL_VERSION: &'static str = "2024-11-05";

pub const SERVER_NAME: &'static str = "tsk";

pub const SERVER_VERSION: &'static str = "0.1.0";

/// The error code for a line that is no well-formed request.
pub const PARSE_ERROR: i32 = -32700;

/// The error code for a method that the server does not have.
pub const METHOD_NOT_FOUND: i32 = -32601;

/// The error code for an invocation of a tool that the server does not have.
pub const INVALID_PARAMS: i32 = -32602;

/// A request as it was read from one line.
pub struct JsonRpcRequest {
    pub jsonrpc: String,
    pub id: Option<Value>,
    pub method: String,
    pub params: Value,
}

/// A protocol-level error.
#[derive(Debug, PartialEq, Eq)]
pub struct JsonRpcError {
    pub code: i32,
    pub message: String,
}

/// The name and version that the server announces.
#[derive(Debug, PartialEq, Eq)]
pub struct ServerInfo {
    pub name: String,
    pub version: String,
}

/// What the server says of its tools.
#[derive(Debug, PartialEq, Eq)]
pub struct ToolsCapability {
    pub list_changed: bool,
}

/// The capabilities that the server declares.
#[derive(Debug, PartialEq, Eq)]
pub struct Capabilities {
    pub tools: ToolsCapability,
}

/// The answer to the handshake.
#[derive(Debug, PartialEq, Eq)]
pub struct InitializeResult {
    pub protocol_version: String,
    pub capabilities: Capabilities,
    pub server_info: ServerInfo,
}

/// The answer to the capability listing.
#[derive(Debug, PartialEq, Eq)]
pub struct ToolsListResult {
    pub tools: Vec<Tool>,
}

/// The result that a successful response carries.
#[derive(Debug, PartialEq, Eq)]
pub enum Payload {
    Initialize(InitializeResult),
    ToolsList(ToolsListResult),
    ToolCall(ToolReply),
}

/// A response: the correlation id of its request, and either a result or an
/// error.
#[derive(Debug, PartialEq)]
pub struct JsonRpcResponse {
    pub jsonrpc: String,
    pub id: Option<Value>,
    pub result: Option<Payload>,
    pub error: Option<JsonRpcError>,
}

impl JsonRpcResponse {
    /// This response carries a result and no error.
    pub open spec fn succeeds(self, id: Option<Value>) -> bool {
        &&& self.jsonrpc@ == JSONRPC_VERSION@
        &&& self.id == id
        &&& self.result is Some
        &&& self.error is None
    }

    /// This response carries this error and no result.
    pub open spec fn fails(self, id: Option<Value>, code: i32, message: Seq<char>) -> bool {
        &&& self.jsonrpc@ == JSONRPC_VERSION@
        &&& self.id == id
        &&& self.result is None
        &&& self.error matches Some(e) && e.code == code && e.message@ == message
    }

    /// The response that carries a result.
    pub fn success(id: Option<Value>, result: Payload) -> (response: JsonRpcResponse)
        ensures
            response.succeeds(id),
            response.result == Some(result),
    {
        JsonRpcResponse {
            jsonrpc: String::from_str(JSONRPC_VERSION),
            id,
            result: Some(result),
            error: None,
        }
    }

    /// The response that carries a protocol-level error.
    pub fn error(id: Option<Value>, code: i32, message: String) -> (response: JsonRpcResponse)
        ensures
            response.fails(id, code, message@),
    {
        JsonRpcResponse {
            jsonrpc: String::from_str(JSONRPC_VERSION),
            id,
            result: None,
            error: Some(JsonRpcError { code, message }),
        }
    }
}

/// Whether a line is skipped: a blank line gets no answer and is not parsed.
pub fn skips(line: &str) -> (skipped: bool)
    ensures
        skipped == crate::text::blank(line@),
{
    crate::text::is_blank(line)
}

/// The answer to a line that is no well-formed request: a protocol-level
/// error without a correlation id. `detail` is what the parser said.
pub fn parse_error(detail: &str) -> (response: JsonRpcResponse)
    ensures
        response.fails(None, PARSE_ERROR, "Parse error: "@ + detail@),
{
    let mut message = String::from_str("Parse error: ");
    message.append(detail);
    JsonRpcResponse::error(None, PARSE_ERROR, message)
}

/// The name of the tool that an invocation carries; a name that is missing
/// or no text reads as empty.
pub open spec fn tool_name(params: Value) -> Seq<char> {
    match text_under(params, "name"@) {
        Some(name) => name,
        None => Seq::<char>::empty(),
    }
}

/// The argument bundle that an invocation carries.
pub open spec fn tool_args(params: Value) -> Value {
    json_member(params, "arguments"@)
}

/// What a request needs done outside before it can be answered: an
/// invocation needs what its tool needs, every other request nothing.
pub open spec fn needed(method: Seq<char>, params: Value) -> Preparation {
    if method == "tools/call"@ {
        if tool_name(params) == "init"@ {
            Preparation::InitProject
        } else {
            Preparation::OpenStore
        }
    } else {
        Preparation::Nothing
    }
}

/// Says what has to be done outside before `handle_request` is called.
pub fn preparation(request: &JsonRpcRequest) -> (prepare: Preparation)
    ensures
        prepare == needed(request.method@, request.params),
{
    if text_eq(request.method.as_str(), "tools/call") {
        tool_preparation(text_arg_or_empty(&request.params, "name"))
    } else {
        Preparation::Nothing
    }
}

/// The handshake's answer: the protocol version, the declared capabilities
/// and the server's name and version.
pub open spec fn announces(info: InitializeResult) -> bool {
    &&& info.protocol_version@ == PROTOCOL_VERSION@
    &&& !info.capabilities.tools.list_changed
    &&& info.server_info.name@ == SERVER_NAME@
    &&& info.server_info.version@ == SERVER_VERSION@
}

/// The four methods of the server are different texts.
proof fn methods_differ()
    ensures
        "initialize"@.len() == 10,
        "notifications/initialized"@.len() == 25,
        "tools/list"@.len() == 10,
        "tools/call"@.len() == 10,
        "initialize"@[0] == 'i',
        "tools/list"@[6] == 'l',
        "tools/call"@[6] == 'c',
        "tools/list"@[0] == 't',
        "tools/call"@[0] == 't',
{
    reveal_strlit("initialize");
    reveal_strlit("notifications/initialized");
    reveal_strlit("tools/list");
    reveal_strlit("tools/call");
}

/// An invocation that is refused at the level of the protocol: the store is
/// open and has no tool of this name.
pub open spec fn refused(name: Seq<char>, prepared: Prepared) -> bool {
    name != "init"@ && prepared is Store && !store_tool(name)
}

/// What the server answers to a request, given what the preparation came
/// to. The acknowledgment notification gets no answer. The handshake, the
/// capability listing and an invocation get a result under the request's
/// correlation id; a failed tool call is such a result too. An unknown tool
/// and an unknown method get protocol-level errors.
pub open spec fn answered(
    method: Seq<char>,
    id: Option<Value>,
    params: Value,
    prepared: Prepared,
    response: Option<JsonRpcResponse>,
) -> bool {
    if method == "notifications/initialized"@ {
        response is None
    } else if method == "initialize"@ {
        &&& response matches Some(r)
        &&& r.succeeds(id)
        &&& r.result matches Some(Payload::Initialize(info))
        &&& announces(info)
    } else if method == "tools/list"@ {
        &&& response matches Some(r)
        &&& r.succeeds(id)
        &&& r.result matches Some(Payload::ToolsList(list))
        &&& list.tools.deep_view() == catalogue()
    } else if method == "tools/call"@ {
        &&& response matches Some(r)
        &&& if refused(tool_name(params), prepared) {
            r.fails(id, INVALID_PARAMS, "Unknown tool: "@ + tool_name(params))
        } else {
            &&& r.succeeds(id)
            &&& r.result matches Some(Payload::ToolCall(reply))
            &&& called(tool_name(params), tool_args(params), prepared, Ok(reply))
        }
    } else {
        &&& response matches Some(r)
        &&& r.fails(id, METHOD_NOT_FOUND, "Method not found: "@ + method)
    }
}

/// Answers one request. `prepared` is what came of the preparation that
/// `preparation` asked for.
pub fn handle_request(request: JsonRpcRequest, prepared: Prepared) -> (response: Option<
    JsonRpcResponse,
>)
    ensures
        answered(request.method@, request.id, request.params, prepared, response),
{
    proof {
        methods_differ();
    }
    let JsonRpcRequest { jsonrpc: _, id, method, params } = request;
    if text_eq(method.as_str(), "initialize") {
        let info = InitializeResult {
            protocol_version: String::from_str(PROTOCOL_VERSION),
            capabilities: Capabilities { tools: ToolsCapability { list_changed: false } },
            server_info: ServerInfo {
                name: String::from_str(SERVER_NAME),
                version: String::from_str(SERVER_VERSION),
            },
        };
        Some(JsonRpcResponse::success(id, Payload::Initialize(info)))
    } else if text_eq(method.as_str(), "notifications/initialized") {
        None
    } else if text_eq(method.as_str(), "tools/list") {
        let list = ToolsListResult { tools: get_tools() };
        Some(JsonRpcResponse::success(id, Payload::ToolsList(list)))
    } else if text_eq(method.as_str(), "tools/call") {
        let name = text_arg_or_empty(&params, "name");
        let args = member(&params, "arguments");
        match handle_tool_call(name, args, prepared) {
            Ok(reply) => Some(JsonRpcResponse::success(id, Payload::ToolCall(reply))),
            Err(e) => Some(JsonRpcResponse::error(id, e.code, e.message)),
        }
    } else {
        let mut message = String::from_str("Method not found: ");
        message.append(method.as_str());
        Some(JsonRpcResponse::error(id, METHOD_NOT_FOUND, message))
    }
}

} // verus!
