//! JSON-RPC 2.0 messages and the results that MCP tools return.

use vstd::prelude::*;
use serde_json::Value;

verus! {

/// A JSON value, carried through unchanged.
#[verifier::external_type_specification]
#[verifier::external_body]
pub struct ExJsonValue(Value);

/// A JSON-RPC 2.0 request.
#[derive(Debug)]
pub struct JsonRpcRequest {
    /// The protocol version, `"2.0"`.
    pub jsonrpc: String,
    /// The request id; `None` for a notification.
    pub id: Option<Value>,
    /// The method called.
    pub method: String,
    /// The method's parameters.
    pub params: Value,
}

/// A JSON-RPC 2.0 response: a result or an error, never both.
#[derive(Debug)]
pub struct JsonRpcResponse {
    /// The protocol version, `"2.0"`.
    pub jsonrpc: String,
    /// The id of the request answered.
    pub id: Value,
    /// The result, on success.
    pub result: Option<Value>,
    /// The error, on failure.
    pub error: Option<JsonRpcError>,
}

impl JsonRpcResponse {
    /// A successful response.
    pub fn success(id: Value, result: Value) -> (r: Self)
        ensures
            r.jsonrpc@ == "2.0"@,
            r.id == id,
            r.result == Some(result),
            r.error is None,
    {
        JsonRpcResponse { jsonrpc: String::from_str("2.0"), id, result: Some(result), error: None }
    }

    /// A failed response.
    pub fn error(id: Value, error: JsonRpcError) -> (r: Self)
        ensures
            r.jsonrpc@ == "2.0"@,
            r.id == id,
            r.result is None,
            r.error == Some(error),
    {
        JsonRpcResponse { jsonrpc: String::from_str("2.0"), id, result: None, error: Some(error) }
    }
}

/// A JSON-RPC 2.0 error.
#[derive(Debug)]
pub struct JsonRpcError {
    /// The error code.
    pub code: i32,
    /// What went wrong.
    pub message: String,
    /// More about it.
    pub data: Option<Value>,
}

/// The text of `prefix` followed by `message`.
fn labelled(prefix: &str, message: &str) -> (r: String)
    ensures
        r@ == prefix@ + message@,
{
    let mut r = String::from_str(prefix);
    r.append(message);
    r
}

impl JsonRpcError {
    /// The request was not valid JSON.
    pub const PARSE_ERROR: i32 = -32700;
    /// The JSON was not a valid request.
    pub const INVALID_REQUEST: i32 = -32600;
    /// The method does not exist.
    pub const METHOD_NOT_FOUND: i32 = -32601;
    /// The parameters are not valid.
    pub const INVALID_PARAMS: i32 = -32602;
    /// The server failed.
    pub const INTERNAL_ERROR: i32 = -32603;

    /// A parse error.
    pub fn parse_error(message: &str) -> (r: Self)
        ensures
            r.code == -32700,
            r.message@ == "Parse error: "@ + message@,
            r.data is None,
    {
        JsonRpcError { code: Self::PARSE_ERROR, message: labelled("Parse error: ", message), data: None }
    }

    /// An invalid request.
    pub fn invalid_request(message: &str) -> (r: Self)
        ensures
            r.code == -32600,
            r.message@ == "Invalid request: "@ + message@,
            r.data is None,
    {
        JsonRpcError {
            code: Self::INVALID_REQUEST,
            message: labelled("Invalid request: ", message),
            data: None,
        }
    }

    /// A call of a method that does not exist.
    pub fn method_not_found(method: &str) -> (r: Self)
        ensures
            r.code == -32601,
            r.message@ == "Method not found: "@ + method@,
            r.data is None,
    {
        JsonRpcError {
            code: Self::METHOD_NOT_FOUND,
            message: labelled("Method not found: ", method),
            data: None,
        }
    }

    /// Parameters that are not valid.
    pub fn invalid_params(message: &str) -> (r: Self)
        ensures
            r.code == -32602,
            r.message@ == "Invalid params: "@ + message@,
            r.data is None,
    {
        JsonRpcError {
            code: Self::INVALID_PARAMS,
            message: labelled("Invalid params: ", message),
            data: None,
        }
    }

    /// A failure of the server.
    pub fn internal_error(message: &str) -> (r: Self)
        ensures
            r.code == -32603,
            r.message@ == "Internal error: "@ + message@,
            r.data is None,
    {
        JsonRpcError {
            code: Self::INTERNAL_ERROR,
            message: labelled("Internal error: ", message),
            data: None,
        }
    }
}

/// What the server can do.
#[derive(Debug)]
pub struct ServerCapabilities {
    /// It offers tools.
    pub tools: ToolsCapability,
}

/// Marks that the server offers tools.
#[derive(Debug)]
pub struct ToolsCapability {}

/// The server's name and version.
#[derive(Debug)]
pub struct ServerInfo {
    /// Name of the server.
    pub name: String,
    /// Its version.
    pub version: String,
}

/// The answer to `initialize`.
#[derive(Debug)]
pub struct InitializeResult {
    /// The protocol version spoken.
    pub protocol_version: String,
    /// What the server can do.
    pub capabilities: ServerCapabilities,
    /// Who the server is.
    pub server_info: ServerInfo,
}

impl InitializeResult {
    /// The answer of the Smelt server at the given version: protocol
    /// `2024-11-05`, tools offered, named `smelt-mcp`.
    pub fn for_version(version: &str) -> (r: Self)
        ensures
            r.protocol_version@ == "2024-11-05"@,
            r.server_info.name@ == "smelt-mcp"@,
            r.server_info.version@ == version@,
    {
        InitializeResult {
            protocol_version: String::from_str("2024-11-05"),
            capabilities: ServerCapabilities { tools: ToolsCapability {  } },
            server_info: ServerInfo {
                name: String::from_str("smelt-mcp"),
                version: String::from_str(version),
            },
        }
    }
}

/// One piece of a tool's output.
#[derive(Debug)]
pub struct ToolContent {
    /// The kind of content: `text`.
    pub content_type: String,
    /// The text.
    pub text: String,
}

/// What a tool call returns.
#[derive(Debug)]
pub struct ToolResult {
    /// The output, one piece of text.
    pub content: Vec<ToolContent>,
    /// `Some(true)` when the call failed; absent otherwise.
    pub is_error: Option<bool>,
}

impl ToolResult {
    /// A successful result with one text.
    pub fn success(text: String) -> (r: Self)
        ensures
            r.content@.len() == 1,
            r.content@[0].content_type@ == "text"@,
            r.content@[0].text == text,
            r.is_error is None,
    {
        ToolResult {
            content: vec![ToolContent { content_type: String::from_str("text"), text }],
            is_error: None,
        }
    }

    /// A failed result with one text.
    pub fn error(text: String) -> (r: Self)
        ensures
            r.content@.len() == 1,
            r.content@[0].content_type@ == "text"@,
            r.content@[0].text == text,
            r.is_error == Some(true),
    {
        ToolResult {
            content: vec![ToolContent { content_type: String::from_str("text"), text }],
            is_error: Some(true),
        }
    }
}

} // verus!
