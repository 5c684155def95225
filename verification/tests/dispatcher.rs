use telegram_mcp_rs::dispatcher::{Dispatcher, Event, PendingCall, Step};
use telegram_mcp_rs::json::{JsonNumber, JsonValue};
use telegram_mcp_rs::protocol::{JsonRpcRequest, JsonRpcResponse};
use telegram_mcp_rs::registry::ToolRegistry;
use telegram_mcp_rs::service::{BotInfo, MessageInfo, ServiceAnswer, ServiceCall, ServiceReply, UserInfo};
use telegram_mcp_rs::tools::ToolKind;

fn obj(entries: Vec<(&str, JsonValue)>) -> JsonValue {
    JsonValue::Object(entries.into_iter().map(|(k, v)| (k.to_string(), v)).collect())
}

fn num(n: u64) -> JsonValue {
    JsonValue::Number(JsonNumber::PosInt(n))
}

fn text(s: &str) -> JsonValue {
    JsonValue::Str(s.to_string())
}

fn request(id: Option<u64>, method: &str, params: Option<JsonValue>) -> JsonRpcRequest {
    JsonRpcRequest { jsonrpc: "2.0".to_string(), id: id.map(num), method: method.to_string(), params }
}

fn call(id: u64, name: &str, args: JsonValue) -> JsonRpcRequest {
    request(Some(id), "tools/call", Some(obj(vec![("name", text(name)), ("arguments", args)])))
}

fn done(step: Step) -> JsonRpcResponse {
    match step {
        Step::Done(Some(r)) => r,
        _ => panic!("expected a response"),
    }
}

fn pending(step: Step) -> PendingCall {
    match step {
        Step::Call(p) => p,
        _ => panic!("expected a service call"),
    }
}

fn content_text(r: &JsonRpcResponse) -> String {
    let result = r.result.as_ref().unwrap();
    let content = result.get("content").unwrap().as_array().unwrap();
    content[0].get("text").unwrap().as_str().unwrap().clone()
}

fn is_error_result(r: &JsonRpcResponse) -> bool {
    r.result.as_ref().unwrap().get("isError").and_then(|v| v.as_bool()).unwrap_or(false)
}

fn answer(reply: ServiceReply) -> Event {
    Event::Answered(Ok(ServiceAnswer { reply, serialized: "null".to_string() }))
}

fn number_of(v: &JsonValue) -> i64 {
    v.as_i64().unwrap()
}

#[test]
fn test_dispatch_initialize() {
    let dispatcher = Dispatcher::new();
    let resp = done(dispatcher.dispatch(request(Some(1), "initialize", None)));
    assert!(resp.error.is_none());
    let result = resp.result.unwrap();
    let name = result.get("serverInfo").unwrap().get("name").unwrap().as_str().unwrap().clone();
    assert_eq!(name, "telegram-mcp-rs");
    assert_eq!(result.get("protocolVersion").unwrap().as_str().unwrap(), "2024-11-05");
}

#[test]
fn test_dispatch_get_me_authorized() {
    let dispatcher = Dispatcher::new();
    let p = pending(dispatcher.dispatch(call(2, "get_me", obj(vec![]))));
    assert!(matches!(p.call, ServiceCall::GetMe));
    let user = UserInfo { id: 123, first_name: "Test".to_string(), last_name: None, username: Some("testuser".to_string()) };
    let ev = answer(ServiceReply::User(user));
    assert!(p.expects(&ev));
    let resp = done(dispatcher.resume(p, ev));
    assert!(resp.error.is_none());
    assert_eq!(content_text(&resp), "User: Test (ID: 123)");
}

#[test]
fn test_dispatch_create_group() {
    let dispatcher = Dispatcher::new();
    let args = obj(vec![("title", text("New Group")), ("user_ids", JsonValue::Array(vec![num(123)]))]);
    let p = pending(dispatcher.dispatch(call(3, "create_group", args)));
    match &p.call {
        ServiceCall::CreateGroup { title, user_ids } => {
            assert_eq!(title, "New Group");
            assert_eq!(user_ids, &vec![123i64]);
        }
        _ => panic!("expected create_group"),
    }
    let resp = done(dispatcher.resume(p, answer(ServiceReply::Id(999))));
    assert!(resp.error.is_none());
    assert!(content_text(&resp).contains("Group created"));
    assert_eq!(content_text(&resp), "Group created (ID: 999)");
}

#[test]
fn test_dispatch_get_bot_info() {
    let dispatcher = Dispatcher::new();
    let p = pending(dispatcher.dispatch(call(4, "get_bot_info", obj(vec![("bot_username", text("test_bot"))]))));
    match &p.call {
        ServiceCall::GetBotInfo { bot_username } => assert_eq!(bot_username, "test_bot"),
        _ => panic!("expected get_bot_info"),
    }
    let mut m = serde_json::Map::new();
    m.insert("name".to_string(), serde_json::Value::String("Bot".to_string()));
    m.insert("about".to_string(), serde_json::Value::String("About".to_string()));
    m.insert("description".to_string(), serde_json::Value::String("Description".to_string()));
    let serialized = serde_json::to_string_pretty(&serde_json::Value::Object(m)).unwrap();
    let bot = BotInfo { name: "Bot".to_string(), about: "About".to_string(), description: "Description".to_string() };
    let ev = Event::Answered(Ok(ServiceAnswer { reply: ServiceReply::Bot(bot), serialized }));
    let resp = done(dispatcher.resume(p, ev));
    assert!(resp.error.is_none());
    assert!(content_text(&resp).contains("About"));
}

#[test]
fn notification_gets_no_response() {
    let dispatcher = Dispatcher::new();
    assert!(matches!(dispatcher.dispatch(request(None, "initialize", None)), Step::Done(None)));
    assert!(matches!(dispatcher.dispatch(request(None, "nope", None)), Step::Done(None)));
}

#[test]
fn unknown_method_is_not_found() {
    let dispatcher = Dispatcher::new();
    let resp = done(dispatcher.dispatch(request(Some(7), "subtract", None)));
    assert_eq!(resp.jsonrpc, "2.0");
    assert_eq!(number_of(&resp.id), 7);
    assert!(resp.result.is_none());
    let e = resp.error.unwrap();
    assert_eq!(e.code, -32601);
    assert_eq!(e.message, "Method not found: subtract");
}

#[test]
fn tools_call_without_params() {
    let dispatcher = Dispatcher::new();
    let e = done(dispatcher.dispatch(request(Some(1), "tools/call", None))).error.unwrap();
    assert_eq!(e.code, -32602);
    assert_eq!(e.message, "Missing params");
}

#[test]
fn tools_call_without_name() {
    let dispatcher = Dispatcher::new();
    let e = done(dispatcher.dispatch(request(Some(1), "tools/call", Some(obj(vec![("name", num(5))]))))).error.unwrap();
    assert_eq!(e.code, -32602);
    assert_eq!(e.message, "Missing or invalid 'name' in params");
    let e2 = done(dispatcher.dispatch(request(Some(1), "tools/call", Some(text("x"))))).error.unwrap();
    assert_eq!(e2.message, "Missing or invalid 'name' in params");
}

#[test]
fn tools_call_unknown_tool() {
    let dispatcher = Dispatcher::new();
    let e = done(dispatcher.dispatch(call(1, "get_image", obj(vec![])))).error.unwrap();
    assert_eq!(e.code, -32601);
    assert_eq!(e.message, "Tool not found: get_image");
}

#[test]
fn tools_call_missing_argument() {
    let dispatcher = Dispatcher::new();
    let e = done(dispatcher.dispatch(call(1, "send_message", obj(vec![("chat_id", num(5))])))).error.unwrap();
    assert_eq!(e.code, -32602);
    assert_eq!(e.message, "text is required");
    assert!(e.data.is_none());
}

#[test]
fn tools_call_without_arguments_uses_empty_object() {
    let dispatcher = Dispatcher::new();
    let req = request(Some(1), "tools/call", Some(obj(vec![("name", text("list_chats"))])));
    let p = pending(dispatcher.dispatch(req));
    assert!(matches!(p.call, ServiceCall::ListChats { limit: 10 }));
}

#[test]
fn service_error_is_reported_as_tool_error() {
    let dispatcher = Dispatcher::new();
    let p = pending(dispatcher.dispatch(call(9, "leave_chat", obj(vec![("chat_id", num(5))]))));
    let resp = done(dispatcher.resume(p, Event::Answered(Err("Can only leave groups or channels".to_string()))));
    assert!(resp.error.is_none());
    assert_eq!(content_text(&resp), "Error: Can only leave groups or channels");
    assert!(is_error_result(&resp));
}

#[test]
fn tools_list_lists_every_registered_tool() {
    let dispatcher = Dispatcher::new();
    let resp = done(dispatcher.dispatch(request(Some(1), "tools/list", None)));
    let result = resp.result.unwrap();
    let tools = result.get("tools").unwrap().as_array().unwrap();
    assert_eq!(tools.len(), 96);
    let first = &tools[0];
    assert_eq!(first.get("name").unwrap().as_str().unwrap(), "get_me");
    let schema = first.get("inputSchema").unwrap();
    assert_eq!(schema.get("type").unwrap().as_str().unwrap(), "object");
    for t in tools {
        let name = t.get("name").unwrap().as_str().unwrap().clone();
        let p = dispatcher.dispatch(call(1, &name, obj(vec![])));
        if let Step::Done(Some(r)) = p {
            assert_ne!(r.error.unwrap().code, -32601);
        }
    }
}

#[test]
fn muting_answers_with_the_new_state() {
    let dispatcher = Dispatcher::new();
    let args = obj(vec![("chat_id", num(5)), ("muted", JsonValue::Bool(false))]);
    let p = pending(dispatcher.dispatch(call(1, "set_chat_muted", args)));
    assert!(matches!(p.call, ServiceCall::SetChatMuted { peer_id: 5, muted: false, until: None }));
    assert_eq!(content_text(&done(dispatcher.resume(p, answer(ServiceReply::Unit)))), "Chat unmuted");
}

#[test]
fn forwarding_lists_the_ids() {
    let dispatcher = Dispatcher::new();
    let args = obj(vec![
        ("to_chat_id", num(1)),
        ("from_chat_id", num(2)),
        ("message_ids", JsonValue::Array(vec![num(7), text("x"), num(8)])),
    ]);
    let p = pending(dispatcher.dispatch(call(1, "forward_messages", args)));
    match &p.call {
        ServiceCall::ForwardMessages { message_ids, .. } => assert_eq!(message_ids, &vec![7i32, 8]),
        _ => panic!("expected forward_messages"),
    }
    let msg = |id: i32| MessageInfo { id, sender_id: 0, text: String::new(), date: 0, reply_to_msg_id: None };
    let resp = done(dispatcher.resume(p, answer(ServiceReply::Messages(vec![msg(-3), msg(40)]))));
    assert_eq!(content_text(&resp), "Messages forwarded (IDs: [-3, 40])");
}

#[test]
fn download_answers_with_the_quoted_path() {
    let dispatcher = Dispatcher::new();
    let args = obj(vec![("chat_id", num(1)), ("message_id", num(2))]);
    let p = pending(dispatcher.dispatch(call(1, "download_media", args)));
    let resp = done(dispatcher.resume(p, answer(ServiceReply::Path("/tmp/test.media".to_string()))));
    assert_eq!(content_text(&resp), "Media downloaded to: \"/tmp/test.media\"");
}

#[test]
fn get_image_reads_and_encodes_the_download() {
    let mut tools = ToolRegistry::new();
    tools.insert("get_image".to_string(), ToolKind::GetImage);
    let dispatcher = Dispatcher::with_tools(tools);
    let args = obj(vec![("chat_id", num(1)), ("message_id", num(2))]);
    let p = pending(dispatcher.dispatch(call(1, "get_image", args)));
    assert!(matches!(p.call, ServiceCall::DownloadMedia { peer_id: 1, message_id: 2, path: None }));
    let read = match dispatcher.resume(p, answer(ServiceReply::Path("/tmp/pic.png".to_string()))) {
        Step::ReadFile(q) => q,
        _ => panic!("expected a file read"),
    };
    assert_eq!(read.downloaded.as_deref(), Some("/tmp/pic.png"));
    let resp = done(dispatcher.resume(read, Event::FileRead(Ok(b"hello".to_vec()))));
    let result = resp.result.unwrap();
    let item = &result.get("content").unwrap().as_array().unwrap()[0];
    assert_eq!(item.get("type").unwrap().as_str().unwrap(), "image");
    assert_eq!(item.get("data").unwrap().as_str().unwrap(), "aGVsbG8=");
    assert_eq!(item.get("mimeType").unwrap().as_str().unwrap(), "image/png");
}

#[test]
fn get_image_reports_a_failed_download() {
    let mut tools = ToolRegistry::new();
    tools.insert("get_image".to_string(), ToolKind::GetImage);
    let dispatcher = Dispatcher::with_tools(tools);
    let args = obj(vec![("chat_id", num(1)), ("message_id", num(2))]);
    let p = pending(dispatcher.dispatch(call(1, "get_image", args)));
    let resp = done(dispatcher.resume(p, Event::Answered(Err("Message not found".to_string()))));
    assert_eq!(content_text(&resp), "Error downloading media: Message not found");
    assert!(is_error_result(&resp));
}
