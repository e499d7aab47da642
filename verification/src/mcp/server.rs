//! The session state of the MCP server and how it answers each method.
//!
//! The application reads requests, runs the tools and writes responses; the
//! decisions about which handler runs, what the session remembers and which
//! error a request gets are made here.

use vstd::prelude::*;
use serde_json::Value;
use crate::mcp::protocol::{JsonRpcError, JsonRpcResponse};
use crate::text::str_eq;

verus! {

/// The methods the server answers.
#[derive(Clone, Copy, Debug, PartialEq, Eq, Structural)]
pub enum Method {
    /// `initialize`: opens the session.
    Initialize,
    /// `initialized`: the client's acknowledgement.
    Initialized,
    /// `tools/list`: the tools on offer.
    ToolsList,
    /// `tools/call`: runs a tool.
    ToolsCall,
    /// `shutdown`: closes the session.
    Shutdown,
}

/// The method a request names, if the server answers it.
pub open spec fn method_named(name: Seq<char>) -> Option<Method> {
    if name == "initialize"@ {
        Some(Method::Initialize)
    } else if name == "initialized"@ {
        Some(Method::Initialized)
    } else if name == "tools/list"@ {
        Some(Method::ToolsList)
    } else if name == "tools/call"@ {
        Some(Method::ToolsCall)
    } else if name == "shutdown"@ {
        Some(Method::Shutdown)
    } else {
        None
    }
}

/// Reads the method a request names.
pub fn method_of(name: &str) -> (r: Option<Method>)
    ensures
        r == method_named(name@),
{
    if str_eq(name, "initialize") {
        Some(Method::Initialize)
    } else if str_eq(name, "initialized") {
        Some(Method::Initialized)
    } else if str_eq(name, "tools/list") {
        Some(Method::ToolsList)
    } else if str_eq(name, "tools/call") {
        Some(Method::ToolsCall)
    } else if str_eq(name, "shutdown") {
        Some(Method::Shutdown)
    } else {
        None
    }
}

/// Whether the session is open after a request for `method` when it was
/// `open` before: `initialize` opens it, `shutdown` closes it, and nothing
/// else changes it.
pub open spec fn session_after(open: bool, method: Option<Method>) -> bool {
    match method {
        Some(Method::Initialize) => true,
        Some(Method::Shutdown) => false,
        _ => open,
    }
}

/// The session's life: `initialize` opens it whatever its state before,
/// `shutdown` closes it, and no other request changes it; so a session
/// initialized and then shut down is closed.
pub proof fn lemma_session_lifecycle(open: bool, other: Option<Method>)
    ensures
        session_after(open, Some(Method::Initialize)),
        !session_after(open, Some(Method::Shutdown)),
        !session_after(session_after(open, Some(Method::Initialize)), Some(Method::Shutdown)),
        other != Some(Method::Initialize) && other != Some(Method::Shutdown) ==> session_after(
            open,
            other,
        ) == open,
{
}

/// What the application does to answer a request that the server accepts.
#[derive(Debug)]
pub enum Action {
    /// Loads the project's context if there is one, and describes the server.
    Initialize,
    /// Acknowledges the client's acknowledgement.
    Initialized,
    /// Lists the tools on offer.
    ListTools,
    /// Runs the named tool.
    CallTool(String),
    /// Acknowledges the end of the session.
    Shutdown,
}

/// The action that answers a request for `method`, given the tool name that a
/// `tools/call` request carries; none for a `tools/call` without one.
pub open spec fn action_for(method: Method, tool_name: Option<String>) -> Option<Action> {
    match method {
        Method::Initialize => Some(Action::Initialize),
        Method::Initialized => Some(Action::Initialized),
        Method::ToolsList => Some(Action::ListTools),
        Method::ToolsCall => match tool_name {
            Some(n) => Some(Action::CallTool(n)),
            None => None,
        },
        Method::Shutdown => Some(Action::Shutdown),
    }
}

/// Makes the JSON `null` value (`serde_json::Value::Null`); nothing is
/// claimed of it, as Verus sees no value of this type from inside.
#[verifier::external_body]
fn json_null() -> Value {
    Value::Null
}

/// The MCP server's session.
#[derive(Debug)]
pub struct McpServer {
    initialized: bool,
}

impl McpServer {
    /// Whether the session has been opened and not closed since.
    pub closed spec fn is_open(&self) -> bool {
        self.initialized
    }

    /// A server whose session is not open yet.
    pub fn new() -> (r: Self)
        ensures
            !r.is_open(),
    {
        McpServer { initialized: false }
    }

    /// Whether the session is open.
    pub fn is_initialized(&self) -> (r: bool)
        ensures
            r == self.is_open(),
    {
        self.initialized
    }

    /// Starts answering a request for `method`: records what it does to the
    /// session and says which handler runs, or gives the error for a method
    /// the server does not know.
    pub fn dispatch(&mut self, method: &str) -> (r: Result<Method, JsonRpcError>)
        ensures
            final(self).is_open() == session_after(old(self).is_open(), method_named(method@)),
            method_named(method@) matches Some(m) ==> r == Ok::<Method, JsonRpcError>(m),
            method_named(method@) is None ==> (r matches Err(e) && e.code == JsonRpcError::METHOD_NOT_FOUND
                && e.message@ == "Method not found: "@ + method@ && e.data is None),
    {
        match method_of(method) {
            Some(m) => {
                match m {
                    Method::Initialize => {
                        self.initialized = true;
                    },
                    Method::Shutdown => {
                        self.initialized = false;
                    },
                    _ => {},
                }
                Ok(m)
            },
            None => Err(JsonRpcError::method_not_found(method)),
        }
    }

    /// The name of the tool a `tools/call` request asks for; a request
    /// without one gets an invalid-params error.
    pub fn tool_call_name(name: Option<String>) -> (r: Result<String, JsonRpcError>)
        ensures
            name matches Some(n) ==> r == Ok::<String, JsonRpcError>(n),
            name is None ==> (r matches Err(e) && e.code == JsonRpcError::INVALID_PARAMS
                && e.message@ == "Invalid params: "@ + "Missing tool name"@ && e.data is None),
    {
        match name {
            Some(n) => Ok(n),
            None => Err(JsonRpcError::invalid_params("Missing tool name")),
        }
    }

    /// Answers a request for `method` with the given id and, for `tools/call`,
    /// tool name: updates the session, has `perform` carry out the action the
    /// method asks for, and responds with what it gives, or with the error for
    /// an unknown method or a tool call without a tool name. The response is
    /// JSON-RPC 2.0, carries the request's id, and holds a result or an error,
    /// never both.
    pub fn handle_request<F: FnOnce(Action) -> Value>(
        &mut self,
        method: &str,
        id: Option<Value>,
        tool_name: Option<String>,
        perform: F,
    ) -> (r: JsonRpcResponse)
        requires
            forall|a: Action| call_requires(perform, (a,)),
        ensures
            r.jsonrpc@ == "2.0"@,
            id matches Some(v) ==> r.id == v,
            r.result is Some <==> r.error is None,
            final(self).is_open() == session_after(old(self).is_open(), method_named(method@)),
            match method_named(method@) {
                None => r.error matches Some(e) && e.code == JsonRpcError::METHOD_NOT_FOUND
                    && e.message@ == "Method not found: "@ + method@ && e.data is None,
                Some(m) => match action_for(m, tool_name) {
                    None => r.error matches Some(e) && e.code == JsonRpcError::INVALID_PARAMS
                        && e.message@ == "Invalid params: "@ + "Missing tool name"@ && e.data is None,
                    Some(a) => r.result matches Some(v) && call_ensures(perform, (a,), v),
                },
            },
    {
        let outcome = match self.dispatch(method) {
            Err(e) => Err(e),
            Ok(m) => {
                let action = match m {
                    Method::Initialize => Ok(Action::Initialize),
                    Method::Initialized => Ok(Action::Initialized),
                    Method::ToolsList => Ok(Action::ListTools),
                    Method::ToolsCall => match Self::tool_call_name(tool_name) {
                        Ok(n) => Ok(Action::CallTool(n)),
                        Err(e) => Err(e),
                    },
                    Method::Shutdown => Ok(Action::Shutdown),
                };
                match action {
                    Ok(a) => Ok(perform(a)),
                    Err(e) => Err(e),
                }
            },
        };
        Self::respond(id, outcome)
    }

    /// The response to a request with the given id (null for a notification)
    /// and outcome.
    pub fn respond(id: Option<Value>, outcome: Result<Value, JsonRpcError>) -> (r: JsonRpcResponse)
        ensures
            r.jsonrpc@ == "2.0"@,
            id matches Some(v) ==> r.id == v,
            outcome matches Ok(v) ==> r.result == Some(v) && r.error is None,
            outcome matches Err(e) ==> r.result is None && r.error == Some(e),
    {
        let id = match id {
            Some(v) => v,
            None => json_null(),
        };
        match outcome {
            Ok(v) => JsonRpcResponse::success(id, v),
            Err(e) => JsonRpcResponse::error(id, e),
        }
    }
}

} // verus!
