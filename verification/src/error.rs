//! The JSON-RPC error kinds of the server.
use vstd::prelude::*;
use vstd::string::*;

verus! {

#[derive(Debug)]
pub enum McpError {
    ParseError,
    InvalidRequest,
    MethodNotFound,
    InvalidParams,
    InternalError,
    Custom(String),
}

impl McpError {
    /// The JSON-RPC error code of each kind.
    pub open spec fn code_spec(&self) -> i32 {
        match self {
            McpError::ParseError => -32700i32,
            McpError::InvalidRequest => -32600i32,
            McpError::MethodNotFound => -32601i32,
            McpError::InvalidParams => -32602i32,
            McpError::InternalError => -32603i32,
            McpError::Custom(_) => -32000i32,
        }
    }

    /// The text that the error displays.
    pub open spec fn message_spec(&self) -> Seq<char> {
        match self {
            McpError::ParseError => "Parse error"@,
            McpError::InvalidRequest => "Invalid request"@,
            McpError::MethodNotFound => "Method not found"@,
            McpError::InvalidParams => "Invalid params"@,
            McpError::InternalError => "Internal error"@,
            McpError::Custom(s) => "Custom error: "@ + s@,
        }
    }

    pub fn to_code(&self) -> (code: i32)
        ensures
            code == self.code_spec(),
    {
        match self {
            McpError::ParseError => -32700i32,
            McpError::InvalidRequest => -32600i32,
            McpError::MethodNotFound => -32601i32,
            McpError::InvalidParams => -32602i32,
            McpError::InternalError => -32603i32,
            McpError::Custom(_) => -32000i32,
        }
    }

    pub fn message(&self) -> (text: String)
        ensures
            text@ == self.message_spec(),
    {
        match self {
            McpError::ParseError => String::from_str("Parse error"),
            McpError::InvalidRequest => String::from_str("Invalid request"),
            McpError::MethodNotFound => String::from_str("Method not found"),
            McpError::InvalidParams => String::from_str("Invalid params"),
            McpError::InternalError => String::from_str("Internal error"),
            McpError::Custom(s) => {
                let mut t = String::from_str("Custom error: ");
                t.append(s.as_str());
                t
            },
        }
    }
}

} // verus!
