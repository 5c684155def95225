//! JSON-RPC 2.0 messages.
use vstd::prelude::*;
use vstd::string::*;
use crate::json::{JsonValue, JsonModel};

verus! {

#[derive(Debug)]
pub struct JsonRpcRequest {
    pub jsonrpc: String,
    pub id: Option<JsonValue>,
    pub method: String,
    pub params: Option<JsonValue>,
}

#[derive(Debug)]
pub struct JsonRpcError {
    pub code: i32,
    pub message: String,
    pub data: Option<JsonValue>,
}

#[derive(Debug)]
pub struct JsonRpcResponse {
    pub jsonrpc: String,
    pub id: JsonValue,
    pub result: Option<JsonValue>,
    pub error: Option<JsonRpcError>,
}

/// An error as its code, message and data.
pub struct ErrorModel {
    pub code: i32,
    pub message: Seq<char>,
    pub data: Option<JsonModel>,
}

pub open spec fn opt_json_view(o: Option<JsonValue>) -> Option<JsonModel> {
    match o {
        Some(v) => Some(v@),
        None => None,
    }
}

impl View for JsonRpcError {
    type V = ErrorModel;

    open spec fn view(&self) -> ErrorModel {
        ErrorModel { code: self.code, message: self.message@, data: opt_json_view(self.data) }
    }
}

/// The error that invalid arguments are answered with.
pub open spec fn invalid_params_spec(msg: Seq<char>) -> ErrorModel {
    ErrorModel { code: -32602i32, message: msg, data: None }
}

pub fn invalid_params(msg: &str) -> (e: JsonRpcError)
    ensures
        e@ == invalid_params_spec(msg@),
{
    JsonRpcError { code: -32602, message: String::from_str(msg), data: None }
}

/// A response with a result, as version 2.0 of the protocol frames it.
pub fn success_response(id: JsonValue, result: JsonValue) -> (r: JsonRpcResponse)
    ensures
        r.jsonrpc@ == "2.0"@,
        r.id == id,
        r.result == Some(result),
        r.error is None,
{
    JsonRpcResponse { jsonrpc: String::from_str("2.0"), id, result: Some(result), error: None }
}

/// A response with an error, as version 2.0 of the protocol frames it.
pub fn error_response(id: JsonValue, error: JsonRpcError) -> (r: JsonRpcResponse)
    ensures
        r.jsonrpc@ == "2.0"@,
        r.id == id,
        r.result is None,
        r.error == Some(error),
{
    JsonRpcResponse { jsonrpc: String::from_str("2.0"), id, result: None, error: Some(error) }
}

} // verus!
