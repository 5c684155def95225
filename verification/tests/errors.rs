use telegram_mcp_rs::error::McpError;
use telegram_mcp_rs::protocol::invalid_params;

#[test]
fn error_codes() {
    assert_eq!(McpError::ParseError.to_code(), -32700);
    assert_eq!(McpError::InvalidRequest.to_code(), -32600);
    assert_eq!(McpError::MethodNotFound.to_code(), -32601);
    assert_eq!(McpError::InvalidParams.to_code(), -32602);
    assert_eq!(McpError::InternalError.to_code(), -32603);
    assert_eq!(McpError::Custom("x".to_string()).to_code(), -32000);
}

#[test]
fn error_messages() {
    assert_eq!(McpError::MethodNotFound.message(), "Method not found");
    assert_eq!(McpError::Custom("boom".to_string()).message(), "Custom error: boom");
    let e = invalid_params("chat_id is required");
    assert_eq!(e.code, -32602);
    assert_eq!(e.message, "chat_id is required");
    assert!(e.data.is_none());
}
