use telegram_mcp_rs::json::{JsonNumber, JsonValue};
use telegram_mcp_rs::service::ServiceCall;
use telegram_mcp_rs::tools::chats::ListChatsTool;
use telegram_mcp_rs::tools::media::GetImageTool;
use telegram_mcp_rs::tools::bots::{PressInlineButtonTool, SetBotCommandsTool};
use telegram_mcp_rs::tools::messages::{DeleteMessagesTool, PinMessageTool, SendMessageTool};
use telegram_mcp_rs::tools::profile::GetMeTool;
use telegram_mcp_rs::tools::{info_of, Tool, ToolKind};

fn obj(entries: Vec<(&str, JsonValue)>) -> JsonValue {
    JsonValue::Object(entries.into_iter().map(|(k, v)| (k.to_string(), v)).collect())
}

fn intv(n: i64) -> JsonValue {
    if n >= 0 { JsonValue::Number(JsonNumber::PosInt(n as u64)) } else { JsonValue::Number(JsonNumber::NegInt(n)) }
}

#[test]
fn tools_describe_themselves() {
    let info = SendMessageTool.info();
    assert_eq!(info.name, "send_message");
    assert_eq!(info.description, "Send a text message.");
    let schema = info.input_schema;
    let required = schema.get("required").unwrap().as_array().unwrap();
    assert_eq!(required.len(), 2);
    assert_eq!(required[0].as_str().unwrap(), "chat_id");
    let props = schema.get("properties").unwrap();
    assert_eq!(props.get("chat_id").unwrap().get("type").unwrap().as_str().unwrap(), "integer");
    let limit = ListChatsTool.info().input_schema;
    assert!(limit.get("required").is_none());
    assert_eq!(limit.get("properties").unwrap().get("limit").unwrap().get("default").unwrap().as_i64(), Some(10));
    assert_eq!(GetImageTool.info().name, "get_image");
    assert!(GetMeTool.kind() == ToolKind::GetMe);
    assert_eq!(info_of(ToolKind::SearchGlobal).name, "search_global");
}

#[test]
fn arguments_are_read_with_their_defaults() {
    let c = SendMessageTool.prepare(&obj(vec![("chat_id", intv(-5)), ("text", JsonValue::Str("hi".to_string())), ("reply_to_id", intv(4294967297))])).ok().unwrap();
    match c {
        ServiceCall::SendMessage { peer_id, text, reply_to_id } => {
            assert_eq!(peer_id, -5);
            assert_eq!(text, "hi");
            assert_eq!(reply_to_id, Some(1));
        }
        _ => panic!("expected send_message"),
    }
    let d = DeleteMessagesTool.prepare(&obj(vec![("chat_id", intv(1)), ("message_ids", JsonValue::Array(vec![intv(3)]))])).ok().unwrap();
    assert!(matches!(d, ServiceCall::DeleteMessages { revoke: true, .. }));
    let e = DeleteMessagesTool.prepare(&obj(vec![("chat_id", intv(1)), ("message_ids", intv(3))])).err().unwrap();
    assert_eq!(e.message, "message_ids must be an array of integers");
    let f = SendMessageTool.prepare(&obj(vec![("chat_id", JsonValue::Str("5".to_string()))])).err().unwrap();
    assert_eq!(f.message, "chat_id is required");
}

#[test]
fn pinning_needs_a_message_id() {
    let e = PinMessageTool.prepare(&obj(vec![("peer_id", intv(5)), ("silent", JsonValue::Bool(false))])).err().unwrap();
    assert_eq!(e.code, -32602);
    assert_eq!(e.message, "message_id is required");
    let c = PinMessageTool.prepare(&obj(vec![("peer_id", intv(5)), ("message_id", intv(7))])).ok().unwrap();
    assert!(matches!(c, ServiceCall::PinMessage { peer_id: 5, message_id: 7, silent: false }));
}

#[test]
fn bot_commands_are_read_from_the_list() {
    let e = SetBotCommandsTool.prepare(&obj(vec![])).err().unwrap();
    assert_eq!(e.code, -32602);
    assert_eq!(e.message, "commands is required");
    let item = obj(vec![("command", JsonValue::Str("start".to_string())), ("description", JsonValue::Str("Begin".to_string()))]);
    let c = SetBotCommandsTool.prepare(&obj(vec![("commands", JsonValue::Array(vec![item]))])).ok().unwrap();
    match c {
        ServiceCall::SetBotCommands { commands } => assert_eq!(commands, vec![("start".to_string(), "Begin".to_string())]),
        _ => panic!("expected set_bot_commands"),
    }
    let bad = obj(vec![("command", JsonValue::Str("stop".to_string()))]);
    let good = obj(vec![("command", JsonValue::Str("help".to_string())), ("description", JsonValue::Str("Ask".to_string()))]);
    match SetBotCommandsTool.prepare(&obj(vec![("commands", JsonValue::Array(vec![bad, intv(3), good]))])).ok().unwrap() {
        ServiceCall::SetBotCommands { commands } => assert_eq!(commands, vec![("help".to_string(), "Ask".to_string())]),
        _ => panic!("expected set_bot_commands"),
    }
    let empty = SetBotCommandsTool.prepare(&obj(vec![("commands", JsonValue::Array(vec![]))])).ok().unwrap();
    assert!(matches!(empty, ServiceCall::SetBotCommands { commands } if commands.is_empty()));
}

#[test]
fn button_data_is_decoded_from_base64() {
    let args = |data: &str| obj(vec![("chat_id", intv(1)), ("message_id", intv(2)), ("button_data", JsonValue::Str(data.to_string()))]);
    match PressInlineButtonTool.prepare(&args("aGk=")).ok().unwrap() {
        ServiceCall::PressInlineButton { peer_id, message_id, button_data } => {
            assert_eq!((peer_id, message_id), (1, 2));
            assert_eq!(button_data, vec![104, 105]);
        }
        _ => panic!("expected press_inline_button"),
    }
    for bad in ["aGk", "a!k=", "aGl="] {
        let e = PressInlineButtonTool.prepare(&args(bad)).err().unwrap();
        assert_eq!(e.message, "button_data must be base64");
    }
}
