//! Tools on messages: reading, sending, editing, pinning and reacting.
use vstd::prelude::*;
use vstd::string::*;
use crate::json::{JsonModel, JsonValue, collect_ints, collect_strs, ints_of, strs_of};
use crate::protocol::{invalid_params, invalid_params_spec, ErrorModel, JsonRpcError};
use crate::service::{CallModel, ServiceCall};
use crate::tools::args::{arg_array, arg_array_spec, arg_bool, arg_bool_spec, arg_i64, arg_i64_spec, arg_str, arg_str_spec, narrow, narrow_ids};
use crate::tools::schema::{build_info, names_view, params_view, ParamDefault, ParamKind, ParamModel, ParamSpec, ToolInfo};
use crate::tools::{prepared_view, tool_info_spec, tool_params_spec, tool_required_spec, Tool, ToolKind};

verus! {

/// `get_messages`: Get messages from a chat.
#[derive(Debug)]
pub struct GetMessagesTool;

impl Tool for GetMessagesTool {
    open spec fn kind_spec(&self) -> ToolKind {
        ToolKind::GetMessages
    }

    fn kind(&self) -> (k: ToolKind) {
        ToolKind::GetMessages
    }
}

pub fn get_messages_info() -> (i: ToolInfo)
    ensures
        i@ == tool_info_spec(ToolKind::GetMessages),
{
    let params: Vec<ParamSpec> = vec![ParamSpec { name: "chat_id", kind: ParamKind::Integer, description: None, default: None }, ParamSpec { name: "limit", kind: ParamKind::Integer, description: None, default: Some(ParamDefault::Int(20)) }];
    assert(params_view(params@) =~= tool_params_spec(ToolKind::GetMessages));
    let required: Vec<&'static str> = vec!["chat_id"];
    assert(names_view(required@) =~= tool_required_spec(ToolKind::GetMessages)->Some_0);
    build_info("get_messages", "Get messages from a chat.", params, Some(required))
}

/// The request that `get_messages` makes of its arguments, or the error that it
/// answers them with.
pub open spec fn get_messages_call(a: JsonModel) -> Result<CallModel, ErrorModel> {
    match arg_i64_spec(a, "chat_id"@) {
        Some(chat_id) => {
        let limit = match arg_i64_spec(a, "limit"@) {
            Some(n) => n as i32,
            None => 20i32,
        };
        Ok(CallModel::GetMessages { peer_id: chat_id, limit: limit })
    },
        None => Err(invalid_params_spec("chat_id is required"@)),
    }
}

pub fn prepare_get_messages(args: &JsonValue) -> (r: Result<ServiceCall, JsonRpcError>)
    ensures
        prepared_view(r) == get_messages_call(args@),
{
    let chat_id = match arg_i64(args, "chat_id") {
        Some(n) => n,
        None => return Err(invalid_params("chat_id is required")),
    };
    let limit = match arg_i64(args, "limit") {
        Some(n) => n as i32,
        None => 20i32,
    };
    Ok(ServiceCall::GetMessages { peer_id: chat_id, limit: limit })
}

/// `get_history`: Get paginated message history.
#[derive(Debug)]
pub struct GetHistoryTool;

impl Tool for GetHistoryTool {
    open spec fn kind_spec(&self) -> ToolKind {
        ToolKind::GetHistory
    }

    fn kind(&self) -> (k: ToolKind) {
        ToolKind::GetHistory
    }
}

pub fn get_history_info() -> (i: ToolInfo)
    ensures
        i@ == tool_info_spec(ToolKind::GetHistory),
{
    let params: Vec<ParamSpec> = vec![ParamSpec { name: "chat_id", kind: ParamKind::Integer, description: None, default: None }, ParamSpec { name: "limit", kind: ParamKind::Integer, description: None, default: Some(ParamDefault::Int(20)) }, ParamSpec { name: "offset_id", kind: ParamKind::Integer, description: None, default: None }];
    assert(params_view(params@) =~= tool_params_spec(ToolKind::GetHistory));
    let required: Vec<&'static str> = vec!["chat_id"];
    assert(names_view(required@) =~= tool_required_spec(ToolKind::GetHistory)->Some_0);
    build_info("get_history", "Get paginated message history.", params, Some(required))
}

/// The request that `get_history` makes of its arguments, or the error that it
/// answers them with.
pub open spec fn get_history_call(a: JsonModel) -> Result<CallModel, ErrorModel> {
    match arg_i64_spec(a, "chat_id"@) {
        Some(chat_id) => {
        let limit = match arg_i64_spec(a, "limit"@) {
            Some(n) => n as i32,
            None => 20i32,
        };
        {
        let offset_id = match arg_i64_spec(a, "offset_id"@) {
            Some(n) => Some(n as i32),
            None => None,
        };
        Ok(CallModel::GetHistory { peer_id: chat_id, limit: limit, offset_id: offset_id })
    }
    },
        None => Err(invalid_params_spec("chat_id is required"@)),
    }
}

pub fn prepare_get_history(args: &JsonValue) -> (r: Result<ServiceCall, JsonRpcError>)
    ensures
        prepared_view(r) == get_history_call(args@),
{
    let chat_id = match arg_i64(args, "chat_id") {
        Some(n) => n,
        None => return Err(invalid_params("chat_id is required")),
    };
    let limit = match arg_i64(args, "limit") {
        Some(n) => n as i32,
        None => 20i32,
    };
    let offset_id = match arg_i64(args, "offset_id") {
        Some(n) => Some(n as i32),
        None => None,
    };
    Ok(ServiceCall::GetHistory { peer_id: chat_id, limit: limit, offset_id: offset_id })
}

/// `search_messages`: Search for messages within a chat.
#[derive(Debug)]
pub struct SearchMessagesTool;

impl Tool for SearchMessagesTool {
    open spec fn kind_spec(&self) -> ToolKind {
        ToolKind::SearchMessages
    }

    fn kind(&self) -> (k: ToolKind) {
        ToolKind::SearchMessages
    }
}

pub fn search_messages_info() -> (i: ToolInfo)
    ensures
        i@ == tool_info_spec(ToolKind::SearchMessages),
{
    let params: Vec<ParamSpec> = vec![ParamSpec { name: "chat_id", kind: ParamKind::Integer, description: None, default: None }, ParamSpec { name: "query", kind: ParamKind::Str, description: None, default: None }, ParamSpec { name: "limit", kind: ParamKind::Integer, description: None, default: Some(ParamDefault::Int(20)) }];
    assert(params_view(params@) =~= tool_params_spec(ToolKind::SearchMessages));
    let required: Vec<&'static str> = vec!["chat_id", "query"];
    assert(names_view(required@) =~= tool_required_spec(ToolKind::SearchMessages)->Some_0);
    build_info("search_messages", "Search for messages within a chat.", params, Some(required))
}

/// The request that `search_messages` makes of its arguments, or the error that it
/// answers them with.
pub open spec fn search_messages_call(a: JsonModel) -> Result<CallModel, ErrorModel> {
    match arg_i64_spec(a, "chat_id"@) {
        Some(chat_id) => match arg_str_spec(a, "query"@) {
        Some(query) => {
        let limit = match arg_i64_spec(a, "limit"@) {
            Some(n) => n as i32,
            None => 20i32,
        };
        Ok(CallModel::SearchMessages { peer_id: chat_id, query: query, limit: limit })
    },
        None => Err(invalid_params_spec("query is required"@)),
    },
        None => Err(invalid_params_spec("chat_id is required"@)),
    }
}

pub fn prepare_search_messages(args: &JsonValue) -> (r: Result<ServiceCall, JsonRpcError>)
    ensures
        prepared_view(r) == search_messages_call(args@),
{
    let chat_id = match arg_i64(args, "chat_id") {
        Some(n) => n,
        None => return Err(invalid_params("chat_id is required")),
    };
    let query = match arg_str(args, "query") {
        Some(s) => s,
        None => return Err(invalid_params("query is required")),
    };
    let limit = match arg_i64(args, "limit") {
        Some(n) => n as i32,
        None => 20i32,
    };
    Ok(ServiceCall::SearchMessages { peer_id: chat_id, query: query, limit: limit })
}

/// `send_message`: Send a text message.
#[derive(Debug)]
pub struct SendMessageTool;

impl Tool for SendMessageTool {
    open spec fn kind_spec(&self) -> ToolKind {
        ToolKind::SendMessage
    }

    fn kind(&self) -> (k: ToolKind) {
        ToolKind::SendMessage
    }
}

pub fn send_message_info() -> (i: ToolInfo)
    ensures
        i@ == tool_info_spec(ToolKind::SendMessage),
{
    let params: Vec<ParamSpec> = vec![ParamSpec { name: "chat_id", kind: ParamKind::Integer, description: None, default: None }, ParamSpec { name: "text", kind: ParamKind::Str, description: None, default: None }, ParamSpec { name: "reply_to_id", kind: ParamKind::Integer, description: None, default: None }];
    assert(params_view(params@) =~= tool_params_spec(ToolKind::SendMessage));
    let required: Vec<&'static str> = vec!["chat_id", "text"];
    assert(names_view(required@) =~= tool_required_spec(ToolKind::SendMessage)->Some_0);
    build_info("send_message", "Send a text message.", params, Some(required))
}

/// The request that `send_message` makes of its arguments, or the error that it
/// answers them with.
pub open spec fn send_message_call(a: JsonModel) -> Result<CallModel, ErrorModel> {
    match arg_i64_spec(a, "chat_id"@) {
        Some(chat_id) => match arg_str_spec(a, "text"@) {
        Some(text) => {
        let reply_to_id = match arg_i64_spec(a, "reply_to_id"@) {
            Some(n) => Some(n as i32),
            None => None,
        };
        Ok(CallModel::SendMessage { peer_id: chat_id, text: text, reply_to_id: reply_to_id })
    },
        None => Err(invalid_params_spec("text is required"@)),
    },
        None => Err(invalid_params_spec("chat_id is required"@)),
    }
}

pub fn prepare_send_message(args: &JsonValue) -> (r: Result<ServiceCall, JsonRpcError>)
    ensures
        prepared_view(r) == send_message_call(args@),
{
    let chat_id = match arg_i64(args, "chat_id") {
        Some(n) => n,
        None => return Err(invalid_params("chat_id is required")),
    };
    let text = match arg_str(args, "text") {
        Some(s) => s,
        None => return Err(invalid_params("text is required")),
    };
    let reply_to_id = match arg_i64(args, "reply_to_id") {
        Some(n) => Some(n as i32),
        None => None,
    };
    Ok(ServiceCall::SendMessage { peer_id: chat_id, text: text, reply_to_id: reply_to_id })
}

/// `edit_message`: Edit an existing message.
#[derive(Debug)]
pub struct EditMessageTool;

impl Tool for EditMessageTool {
    open spec fn kind_spec(&self) -> ToolKind {
        ToolKind::EditMessage
    }

    fn kind(&self) -> (k: ToolKind) {
        ToolKind::EditMessage
    }
}

pub fn edit_message_info() -> (i: ToolInfo)
    ensures
        i@ == tool_info_spec(ToolKind::EditMessage),
{
    let params: Vec<ParamSpec> = vec![ParamSpec { name: "chat_id", kind: ParamKind::Integer, description: None, default: None }, ParamSpec { name: "message_id", kind: ParamKind::Integer, description: None, default: None }, ParamSpec { name: "text", kind: ParamKind::Str, description: None, default: None }];
    assert(params_view(params@) =~= tool_params_spec(ToolKind::EditMessage));
    let required: Vec<&'static str> = vec!["chat_id", "message_id", "text"];
    assert(names_view(required@) =~= tool_required_spec(ToolKind::EditMessage)->Some_0);
    build_info("edit_message", "Edit an existing message.", params, Some(required))
}

/// The request that `edit_message` makes of its arguments, or the error that it
/// answers them with.
pub open spec fn edit_message_call(a: JsonModel) -> Result<CallModel, ErrorModel> {
    match arg_i64_spec(a, "chat_id"@) {
        Some(chat_id) => match arg_i64_spec(a, "message_id"@) {
        Some(message_id_raw) => {
            let message_id = message_id_raw as i32;
            match arg_str_spec(a, "text"@) {
        Some(text) => Ok(CallModel::EditMessage { peer_id: chat_id, message_id: message_id, new_text: text }),
        None => Err(invalid_params_spec("text is required"@)),
    }
        },
        None => Err(invalid_params_spec("message_id is required"@)),
    },
        None => Err(invalid_params_spec("chat_id is required"@)),
    }
}

pub fn prepare_edit_message(args: &JsonValue) -> (r: Result<ServiceCall, JsonRpcError>)
    ensures
        prepared_view(r) == edit_message_call(args@),
{
    let chat_id = match arg_i64(args, "chat_id") {
        Some(n) => n,
        None => return Err(invalid_params("chat_id is required")),
    };
    let message_id = match arg_i64(args, "message_id") {
        Some(n) => n as i32,
        None => return Err(invalid_params("message_id is required")),
    };
    let text = match arg_str(args, "text") {
        Some(s) => s,
        None => return Err(invalid_params("text is required")),
    };
    Ok(ServiceCall::EditMessage { peer_id: chat_id, message_id: message_id, new_text: text })
}

/// `delete_messages`: Delete messages from a chat.
#[derive(Debug)]
pub struct DeleteMessagesTool;

impl Tool for DeleteMessagesTool {
    open spec fn kind_spec(&self) -> ToolKind {
        ToolKind::DeleteMessages
    }

    fn kind(&self) -> (k: ToolKind) {
        ToolKind::DeleteMessages
    }
}

pub fn delete_messages_info() -> (i: ToolInfo)
    ensures
        i@ == tool_info_spec(ToolKind::DeleteMessages),
{
    let params: Vec<ParamSpec> = vec![ParamSpec { name: "chat_id", kind: ParamKind::Integer, description: None, default: None }, ParamSpec { name: "message_ids", kind: ParamKind::IntegerArray, description: None, default: None }, ParamSpec { name: "revoke", kind: ParamKind::Boolean, description: None, default: Some(ParamDefault::Bool(true)) }];
    assert(params_view(params@) =~= tool_params_spec(ToolKind::DeleteMessages));
    let required: Vec<&'static str> = vec!["chat_id", "message_ids"];
    assert(names_view(required@) =~= tool_required_spec(ToolKind::DeleteMessages)->Some_0);
    build_info("delete_messages", "Delete messages from a chat.", params, Some(required))
}

/// The request that `delete_messages` makes of its arguments, or the error that it
/// answers them with.
pub open spec fn delete_messages_call(a: JsonModel) -> Result<CallModel, ErrorModel> {
    match arg_i64_spec(a, "chat_id"@) {
        Some(chat_id) => match arg_array_spec(a, "message_ids"@) {
        Some(items) => {
            let message_ids = narrow_ids(ints_of(items));
            {
        let revoke = match arg_bool_spec(a, "revoke"@) {
            Some(b) => b,
            None => true,
        };
        Ok(CallModel::DeleteMessages { peer_id: chat_id, message_ids: message_ids, revoke: revoke })
    }
        },
        None => Err(invalid_params_spec("message_ids must be an array of integers"@)),
    },
        None => Err(invalid_params_spec("chat_id is required"@)),
    }
}

pub fn prepare_delete_messages(args: &JsonValue) -> (r: Result<ServiceCall, JsonRpcError>)
    ensures
        prepared_view(r) == delete_messages_call(args@),
{
    let chat_id = match arg_i64(args, "chat_id") {
        Some(n) => n,
        None => return Err(invalid_params("chat_id is required")),
    };
    let message_ids = match arg_array(args, "message_ids") {
        Some(items) => narrow(collect_ints(items)),
        None => return Err(invalid_params("message_ids must be an array of integers")),
    };
    let revoke = match arg_bool(args, "revoke") {
        Some(b) => b,
        None => true,
    };
    Ok(ServiceCall::DeleteMessages { peer_id: chat_id, message_ids: message_ids, revoke: revoke })
}

/// `forward_messages`: Forward messages from one chat to another.
#[derive(Debug)]
pub struct ForwardMessagesTool;

impl Tool for ForwardMessagesTool {
    open spec fn kind_spec(&self) -> ToolKind {
        ToolKind::ForwardMessages
    }

    fn kind(&self) -> (k: ToolKind) {
        ToolKind::ForwardMessages
    }
}

pub fn forward_messages_info() -> (i: ToolInfo)
    ensures
        i@ == tool_info_spec(ToolKind::ForwardMessages),
{
    let params: Vec<ParamSpec> = vec![ParamSpec { name: "to_chat_id", kind: ParamKind::Integer, description: None, default: None }, ParamSpec { name: "from_chat_id", kind: ParamKind::Integer, description: None, default: None }, ParamSpec { name: "message_ids", kind: ParamKind::IntegerArray, description: None, default: None }];
    assert(params_view(params@) =~= tool_params_spec(ToolKind::ForwardMessages));
    let required: Vec<&'static str> = vec!["to_chat_id", "from_chat_id", "message_ids"];
    assert(names_view(required@) =~= tool_required_spec(ToolKind::ForwardMessages)->Some_0);
    build_info("forward_messages", "Forward messages from one chat to another.", params, Some(required))
}

/// The request that `forward_messages` makes of its arguments, or the error that it
/// answers them with.
pub open spec fn forward_messages_call(a: JsonModel) -> Result<CallModel, ErrorModel> {
    match arg_i64_spec(a, "to_chat_id"@) {
        Some(to_chat_id) => match arg_i64_spec(a, "from_chat_id"@) {
        Some(from_chat_id) => match arg_array_spec(a, "message_ids"@) {
        Some(items) => {
            let message_ids = narrow_ids(ints_of(items));
            Ok(CallModel::ForwardMessages { to_peer_id: to_chat_id, from_peer_id: from_chat_id, message_ids: message_ids })
        },
        None => Err(invalid_params_spec("message_ids must be an array of integers"@)),
    },
        None => Err(invalid_params_spec("from_chat_id is required"@)),
    },
        None => Err(invalid_params_spec("to_chat_id is required"@)),
    }
}

pub fn prepare_forward_messages(args: &JsonValue) -> (r: Result<ServiceCall, JsonRpcError>)
    ensures
        prepared_view(r) == forward_messages_call(args@),
{
    let to_chat_id = match arg_i64(args, "to_chat_id") {
        Some(n) => n,
        None => return Err(invalid_params("to_chat_id is required")),
    };
    let from_chat_id = match arg_i64(args, "from_chat_id") {
        Some(n) => n,
        None => return Err(invalid_params("from_chat_id is required")),
    };
    let message_ids = match arg_array(args, "message_ids") {
        Some(items) => narrow(collect_ints(items)),
        None => return Err(invalid_params("message_ids must be an array of integers")),
    };
    Ok(ServiceCall::ForwardMessages { to_peer_id: to_chat_id, from_peer_id: from_chat_id, message_ids: message_ids })
}

/// `send_reaction`: Send an emoji reaction to a message. Pass empty string to remove.
#[derive(Debug)]
pub struct SendReactionTool;

impl Tool for SendReactionTool {
    open spec fn kind_spec(&self) -> ToolKind {
        ToolKind::SendReaction
    }

    fn kind(&self) -> (k: ToolKind) {
        ToolKind::SendReaction
    }
}

pub fn send_reaction_info() -> (i: ToolInfo)
    ensures
        i@ == tool_info_spec(ToolKind::SendReaction),
{
    let params: Vec<ParamSpec> = vec![ParamSpec { name: "chat_id", kind: ParamKind::Integer, description: None, default: None }, ParamSpec { name: "message_id", kind: ParamKind::Integer, description: None, default: None }, ParamSpec { name: "emoji", kind: ParamKind::Str, description: None, default: None }];
    assert(params_view(params@) =~= tool_params_spec(ToolKind::SendReaction));
    let required: Vec<&'static str> = vec!["chat_id", "message_id", "emoji"];
    assert(names_view(required@) =~= tool_required_spec(ToolKind::SendReaction)->Some_0);
    build_info("send_reaction", "Send an emoji reaction to a message. Pass empty string to remove.", params, Some(required))
}

/// The request that `send_reaction` makes of its arguments, or the error that it
/// answers them with.
pub open spec fn send_reaction_call(a: JsonModel) -> Result<CallModel, ErrorModel> {
    match arg_i64_spec(a, "chat_id"@) {
        Some(chat_id) => match arg_i64_spec(a, "message_id"@) {
        Some(message_id_raw) => {
            let message_id = message_id_raw as i32;
            match arg_str_spec(a, "emoji"@) {
        Some(emoji) => Ok(CallModel::SendReaction { peer_id: chat_id, message_id: message_id, emoji: emoji }),
        None => Err(invalid_params_spec("emoji is required"@)),
    }
        },
        None => Err(invalid_params_spec("message_id is required"@)),
    },
        None => Err(invalid_params_spec("chat_id is required"@)),
    }
}

pub fn prepare_send_reaction(args: &JsonValue) -> (r: Result<ServiceCall, JsonRpcError>)
    ensures
        prepared_view(r) == send_reaction_call(args@),
{
    let chat_id = match arg_i64(args, "chat_id") {
        Some(n) => n,
        None => return Err(invalid_params("chat_id is required")),
    };
    let message_id = match arg_i64(args, "message_id") {
        Some(n) => n as i32,
        None => return Err(invalid_params("message_id is required")),
    };
    let emoji = match arg_str(args, "emoji") {
        Some(s) => s,
        None => return Err(invalid_params("emoji is required")),
    };
    Ok(ServiceCall::SendReaction { peer_id: chat_id, message_id: message_id, emoji: emoji })
}

/// `get_scheduled_messages`: List scheduled messages for a chat.
#[derive(Debug)]
pub struct GetScheduledMessagesTool;

impl Tool for GetScheduledMessagesTool {
    open spec fn kind_spec(&self) -> ToolKind {
        ToolKind::GetScheduledMessages
    }

    fn kind(&self) -> (k: ToolKind) {
        ToolKind::GetScheduledMessages
    }
}

pub fn get_scheduled_messages_info() -> (i: ToolInfo)
    ensures
        i@ == tool_info_spec(ToolKind::GetScheduledMessages),
{
    let params: Vec<ParamSpec> = vec![ParamSpec { name: "chat_id", kind: ParamKind::Integer, description: None, default: None }];
    assert(params_view(params@) =~= tool_params_spec(ToolKind::GetScheduledMessages));
    let required: Vec<&'static str> = vec!["chat_id"];
    assert(names_view(required@) =~= tool_required_spec(ToolKind::GetScheduledMessages)->Some_0);
    build_info("get_scheduled_messages", "List scheduled messages for a chat.", params, Some(required))
}

/// The request that `get_scheduled_messages` makes of its arguments, or the error that it
/// answers them with.
pub open spec fn get_scheduled_messages_call(a: JsonModel) -> Result<CallModel, ErrorModel> {
    match arg_i64_spec(a, "chat_id"@) {
        Some(chat_id) => Ok(CallModel::GetScheduledMessages { peer_id: chat_id }),
        None => Err(invalid_params_spec("chat_id is required"@)),
    }
}

pub fn prepare_get_scheduled_messages(args: &JsonValue) -> (r: Result<ServiceCall, JsonRpcError>)
    ensures
        prepared_view(r) == get_scheduled_messages_call(args@),
{
    let chat_id = match arg_i64(args, "chat_id") {
        Some(n) => n,
        None => return Err(invalid_params("chat_id is required")),
    };
    Ok(ServiceCall::GetScheduledMessages { peer_id: chat_id })
}

/// `save_draft`: Save a draft message in a chat.
#[derive(Debug)]
pub struct SaveDraftTool;

impl Tool for SaveDraftTool {
    open spec fn kind_spec(&self) -> ToolKind {
        ToolKind::SaveDraft
    }

    fn kind(&self) -> (k: ToolKind) {
        ToolKind::SaveDraft
    }
}

pub fn save_draft_info() -> (i: ToolInfo)
    ensures
        i@ == tool_info_spec(ToolKind::SaveDraft),
{
    let params: Vec<ParamSpec> = vec![ParamSpec { name: "chat_id", kind: ParamKind::Integer, description: None, default: None }, ParamSpec { name: "message", kind: ParamKind::Str, description: None, default: None }, ParamSpec { name: "reply_to_id", kind: ParamKind::Integer, description: None, default: None }];
    assert(params_view(params@) =~= tool_params_spec(ToolKind::SaveDraft));
    let required: Vec<&'static str> = vec!["chat_id", "message"];
    assert(names_view(required@) =~= tool_required_spec(ToolKind::SaveDraft)->Some_0);
    build_info("save_draft", "Save a draft message in a chat.", params, Some(required))
}

/// The request that `save_draft` makes of its arguments, or the error that it
/// answers them with.
pub open spec fn save_draft_call(a: JsonModel) -> Result<CallModel, ErrorModel> {
    match arg_i64_spec(a, "chat_id"@) {
        Some(chat_id) => match arg_str_spec(a, "message"@) {
        Some(message) => {
        let reply_to_id = match arg_i64_spec(a, "reply_to_id"@) {
            Some(n) => Some(n as i32),
            None => None,
        };
        Ok(CallModel::SaveDraft { peer_id: chat_id, message: message, reply_to_id: reply_to_id })
    },
        None => Err(invalid_params_spec("message is required"@)),
    },
        None => Err(invalid_params_spec("chat_id is required"@)),
    }
}

pub fn prepare_save_draft(args: &JsonValue) -> (r: Result<ServiceCall, JsonRpcError>)
    ensures
        prepared_view(r) == save_draft_call(args@),
{
    let chat_id = match arg_i64(args, "chat_id") {
        Some(n) => n,
        None => return Err(invalid_params("chat_id is required")),
    };
    let message = match arg_str(args, "message") {
        Some(s) => s,
        None => return Err(invalid_params("message is required")),
    };
    let reply_to_id = match arg_i64(args, "reply_to_id") {
        Some(n) => Some(n as i32),
        None => None,
    };
    Ok(ServiceCall::SaveDraft { peer_id: chat_id, message: message, reply_to_id: reply_to_id })
}

/// `clear_drafts`: Clear all drafts on the account.
#[derive(Debug)]
pub struct ClearDraftsTool;

impl Tool for ClearDraftsTool {
    open spec fn kind_spec(&self) -> ToolKind {
        ToolKind::ClearDrafts
    }

    fn kind(&self) -> (k: ToolKind) {
        ToolKind::ClearDrafts
    }
}

pub fn clear_drafts_info() -> (i: ToolInfo)
    ensures
        i@ == tool_info_spec(ToolKind::ClearDrafts),
{
    let params: Vec<ParamSpec> = Vec::new();
    assert(params_view(params@) =~= tool_params_spec(ToolKind::ClearDrafts));
    build_info("clear_drafts", "Clear all drafts on the account.", params, None)
}

/// The request that `clear_drafts` makes of its arguments, or the error that it
/// answers them with.
pub open spec fn clear_drafts_call(a: JsonModel) -> Result<CallModel, ErrorModel> {
    Ok(CallModel::ClearDrafts)
}

pub fn prepare_clear_drafts(args: &JsonValue) -> (r: Result<ServiceCall, JsonRpcError>)
    ensures
        prepared_view(r) == clear_drafts_call(args@),
{
    Ok(ServiceCall::ClearDrafts)
}

/// `create_poll`: Create a poll.
#[derive(Debug)]
pub struct CreatePollTool;

impl Tool for CreatePollTool {
    open spec fn kind_spec(&self) -> ToolKind {
        ToolKind::CreatePoll
    }

    fn kind(&self) -> (k: ToolKind) {
        ToolKind::CreatePoll
    }
}

pub fn create_poll_info() -> (i: ToolInfo)
    ensures
        i@ == tool_info_spec(ToolKind::CreatePoll),
{
    let params: Vec<ParamSpec> = vec![ParamSpec { name: "peer_id", kind: ParamKind::Integer, description: None, default: None }, ParamSpec { name: "question", kind: ParamKind::Str, description: None, default: None }, ParamSpec { name: "options", kind: ParamKind::Array, description: None, default: None }];
    assert(params_view(params@) =~= tool_params_spec(ToolKind::CreatePoll));
    let required: Vec<&'static str> = vec!["peer_id", "question", "options"];
    assert(names_view(required@) =~= tool_required_spec(ToolKind::CreatePoll)->Some_0);
    build_info("create_poll", "Create a poll.", params, Some(required))
}

/// The request that `create_poll` makes of its arguments, or the error that it
/// answers them with.
pub open spec fn create_poll_call(a: JsonModel) -> Result<CallModel, ErrorModel> {
    match arg_i64_spec(a, "peer_id"@) {
        Some(peer_id) => match arg_str_spec(a, "question"@) {
        Some(question) => match arg_array_spec(a, "options"@) {
        Some(items) => {
            let options = strs_of(items);
            Ok(CallModel::CreatePoll { peer_id: peer_id, question: question, options: options })
        },
        None => Err(invalid_params_spec("options is required"@)),
    },
        None => Err(invalid_params_spec("question is required"@)),
    },
        None => Err(invalid_params_spec("peer_id is required"@)),
    }
}

pub fn prepare_create_poll(args: &JsonValue) -> (r: Result<ServiceCall, JsonRpcError>)
    ensures
        prepared_view(r) == create_poll_call(args@),
{
    let peer_id = match arg_i64(args, "peer_id") {
        Some(n) => n,
        None => return Err(invalid_params("peer_id is required")),
    };
    let question = match arg_str(args, "question") {
        Some(s) => s,
        None => return Err(invalid_params("question is required")),
    };
    let options = match arg_array(args, "options") {
        Some(items) => collect_strs(items),
        None => return Err(invalid_params("options is required")),
    };
    Ok(ServiceCall::CreatePoll { peer_id: peer_id, question: question, options: options })
}

/// `get_message_context`: Get message context.
#[derive(Debug)]
pub struct GetMessageContextTool;

impl Tool for GetMessageContextTool {
    open spec fn kind_spec(&self) -> ToolKind {
        ToolKind::GetMessageContext
    }

    fn kind(&self) -> (k: ToolKind) {
        ToolKind::GetMessageContext
    }
}

pub fn get_message_context_info() -> (i: ToolInfo)
    ensures
        i@ == tool_info_spec(ToolKind::GetMessageContext),
{
    let params: Vec<ParamSpec> = vec![ParamSpec { name: "peer_id", kind: ParamKind::Integer, description: None, default: None }, ParamSpec { name: "message_id", kind: ParamKind::Integer, description: None, default: None }];
    assert(params_view(params@) =~= tool_params_spec(ToolKind::GetMessageContext));
    let required: Vec<&'static str> = vec!["peer_id", "message_id"];
    assert(names_view(required@) =~= tool_required_spec(ToolKind::GetMessageContext)->Some_0);
    build_info("get_message_context", "Get message context.", params, Some(required))
}

/// The request that `get_message_context` makes of its arguments, or the error that it
/// answers them with.
pub open spec fn get_message_context_call(a: JsonModel) -> Result<CallModel, ErrorModel> {
    match arg_i64_spec(a, "peer_id"@) {
        Some(peer_id) => match arg_i64_spec(a, "message_id"@) {
        Some(message_id_raw) => {
            let message_id = message_id_raw as i32;
            Ok(CallModel::GetMessageContext { peer_id: peer_id, message_id: message_id })
        },
        None => Err(invalid_params_spec("message_id is required"@)),
    },
        None => Err(invalid_params_spec("peer_id is required"@)),
    }
}

pub fn prepare_get_message_context(args: &JsonValue) -> (r: Result<ServiceCall, JsonRpcError>)
    ensures
        prepared_view(r) == get_message_context_call(args@),
{
    let peer_id = match arg_i64(args, "peer_id") {
        Some(n) => n,
        None => return Err(invalid_params("peer_id is required")),
    };
    let message_id = match arg_i64(args, "message_id") {
        Some(n) => n as i32,
        None => return Err(invalid_params("message_id is required")),
    };
    Ok(ServiceCall::GetMessageContext { peer_id: peer_id, message_id: message_id })
}

/// `get_message_link`: Get message link.
#[derive(Debug)]
pub struct GetMessageLinkTool;

impl Tool for GetMessageLinkTool {
    open spec fn kind_spec(&self) -> ToolKind {
        ToolKind::GetMessageLink
    }

    fn kind(&self) -> (k: ToolKind) {
        ToolKind::GetMessageLink
    }
}

pub fn get_message_link_info() -> (i: ToolInfo)
    ensures
        i@ == tool_info_spec(ToolKind::GetMessageLink),
{
    let params: Vec<ParamSpec> = vec![ParamSpec { name: "peer_id", kind: ParamKind::Integer, description: None, default: None }, ParamSpec { name: "message_id", kind: ParamKind::Integer, description: None, default: None }];
    assert(params_view(params@) =~= tool_params_spec(ToolKind::GetMessageLink));
    let required: Vec<&'static str> = vec!["peer_id", "message_id"];
    assert(names_view(required@) =~= tool_required_spec(ToolKind::GetMessageLink)->Some_0);
    build_info("get_message_link", "Get message link.", params, Some(required))
}

/// The request that `get_message_link` makes of its arguments, or the error that it
/// answers them with.
pub open spec fn get_message_link_call(a: JsonModel) -> Result<CallModel, ErrorModel> {
    match arg_i64_spec(a, "peer_id"@) {
        Some(peer_id) => match arg_i64_spec(a, "message_id"@) {
        Some(message_id_raw) => {
            let message_id = message_id_raw as i32;
            Ok(CallModel::GetMessageLink { peer_id: peer_id, message_id: message_id })
        },
        None => Err(invalid_params_spec("message_id is required"@)),
    },
        None => Err(invalid_params_spec("peer_id is required"@)),
    }
}

pub fn prepare_get_message_link(args: &JsonValue) -> (r: Result<ServiceCall, JsonRpcError>)
    ensures
        prepared_view(r) == get_message_link_call(args@),
{
    let peer_id = match arg_i64(args, "peer_id") {
        Some(n) => n,
        None => return Err(invalid_params("peer_id is required")),
    };
    let message_id = match arg_i64(args, "message_id") {
        Some(n) => n as i32,
        None => return Err(invalid_params("message_id is required")),
    };
    Ok(ServiceCall::GetMessageLink { peer_id: peer_id, message_id: message_id })
}

/// `get_message_reactions`: Get message reactions.
#[derive(Debug)]
pub struct GetMessageReactionsTool;

impl Tool for GetMessageReactionsTool {
    open spec fn kind_spec(&self) -> ToolKind {
        ToolKind::GetMessageReactions
    }

    fn kind(&self) -> (k: ToolKind) {
        ToolKind::GetMessageReactions
    }
}

pub fn get_message_reactions_info() -> (i: ToolInfo)
    ensures
        i@ == tool_info_spec(ToolKind::GetMessageReactions),
{
    let params: Vec<ParamSpec> = vec![ParamSpec { name: "peer_id", kind: ParamKind::Integer, description: None, default: None }, ParamSpec { name: "message_id", kind: ParamKind::Integer, description: None, default: None }];
    assert(params_view(params@) =~= tool_params_spec(ToolKind::GetMessageReactions));
    let required: Vec<&'static str> = vec!["peer_id", "message_id"];
    assert(names_view(required@) =~= tool_required_spec(ToolKind::GetMessageReactions)->Some_0);
    build_info("get_message_reactions", "Get message reactions.", params, Some(required))
}

/// The request that `get_message_reactions` makes of its arguments, or the error that it
/// answers them with.
pub open spec fn get_message_reactions_call(a: JsonModel) -> Result<CallModel, ErrorModel> {
    match arg_i64_spec(a, "peer_id"@) {
        Some(peer_id) => match arg_i64_spec(a, "message_id"@) {
        Some(message_id_raw) => {
            let message_id = message_id_raw as i32;
            Ok(CallModel::GetMessageReactions { peer_id: peer_id, message_id: message_id })
        },
        None => Err(invalid_params_spec("message_id is required"@)),
    },
        None => Err(invalid_params_spec("peer_id is required"@)),
    }
}

pub fn prepare_get_message_reactions(args: &JsonValue) -> (r: Result<ServiceCall, JsonRpcError>)
    ensures
        prepared_view(r) == get_message_reactions_call(args@),
{
    let peer_id = match arg_i64(args, "peer_id") {
        Some(n) => n,
        None => return Err(invalid_params("peer_id is required")),
    };
    let message_id = match arg_i64(args, "message_id") {
        Some(n) => n as i32,
        None => return Err(invalid_params("message_id is required")),
    };
    Ok(ServiceCall::GetMessageReactions { peer_id: peer_id, message_id: message_id })
}

/// `get_message_read_by`: Get message read by.
#[derive(Debug)]
pub struct GetMessageReadByTool;

impl Tool for GetMessageReadByTool {
    open spec fn kind_spec(&self) -> ToolKind {
        ToolKind::GetMessageReadBy
    }

    fn kind(&self) -> (k: ToolKind) {
        ToolKind::GetMessageReadBy
    }
}

pub fn get_message_read_by_info() -> (i: ToolInfo)
    ensures
        i@ == tool_info_spec(ToolKind::GetMessageReadBy),
{
    let params: Vec<ParamSpec> = vec![ParamSpec { name: "peer_id", kind: ParamKind::Integer, description: None, default: None }, ParamSpec { name: "message_id", kind: ParamKind::Integer, description: None, default: None }];
    assert(params_view(params@) =~= tool_params_spec(ToolKind::GetMessageReadBy));
    let required: Vec<&'static str> = vec!["peer_id", "message_id"];
    assert(names_view(required@) =~= tool_required_spec(ToolKind::GetMessageReadBy)->Some_0);
    build_info("get_message_read_by", "Get message read by.", params, Some(required))
}

/// The request that `get_message_read_by` makes of its arguments, or the error that it
/// answers them with.
pub open spec fn get_message_read_by_call(a: JsonModel) -> Result<CallModel, ErrorModel> {
    match arg_i64_spec(a, "peer_id"@) {
        Some(peer_id) => match arg_i64_spec(a, "message_id"@) {
        Some(message_id_raw) => {
            let message_id = message_id_raw as i32;
            Ok(CallModel::GetMessageReadBy { peer_id: peer_id, message_id: message_id })
        },
        None => Err(invalid_params_spec("message_id is required"@)),
    },
        None => Err(invalid_params_spec("peer_id is required"@)),
    }
}

pub fn prepare_get_message_read_by(args: &JsonValue) -> (r: Result<ServiceCall, JsonRpcError>)
    ensures
        prepared_view(r) == get_message_read_by_call(args@),
{
    let peer_id = match arg_i64(args, "peer_id") {
        Some(n) => n,
        None => return Err(invalid_params("peer_id is required")),
    };
    let message_id = match arg_i64(args, "message_id") {
        Some(n) => n as i32,
        None => return Err(invalid_params("message_id is required")),
    };
    Ok(ServiceCall::GetMessageReadBy { peer_id: peer_id, message_id: message_id })
}

/// `get_pinned_messages`: Get pinned messages.
#[derive(Debug)]
pub struct GetPinnedMessagesTool;

impl Tool for GetPinnedMessagesTool {
    open spec fn kind_spec(&self) -> ToolKind {
        ToolKind::GetPinnedMessages
    }

    fn kind(&self) -> (k: ToolKind) {
        ToolKind::GetPinnedMessages
    }
}

pub fn get_pinned_messages_info() -> (i: ToolInfo)
    ensures
        i@ == tool_info_spec(ToolKind::GetPinnedMessages),
{
    let params: Vec<ParamSpec> = vec![ParamSpec { name: "peer_id", kind: ParamKind::Integer, description: None, default: None }];
    assert(params_view(params@) =~= tool_params_spec(ToolKind::GetPinnedMessages));
    let required: Vec<&'static str> = vec!["peer_id"];
    assert(names_view(required@) =~= tool_required_spec(ToolKind::GetPinnedMessages)->Some_0);
    build_info("get_pinned_messages", "Get pinned messages.", params, Some(required))
}

/// The request that `get_pinned_messages` makes of its arguments, or the error that it
/// answers them with.
pub open spec fn get_pinned_messages_call(a: JsonModel) -> Result<CallModel, ErrorModel> {
    match arg_i64_spec(a, "peer_id"@) {
        Some(peer_id) => Ok(CallModel::GetPinnedMessages { peer_id: peer_id }),
        None => Err(invalid_params_spec("peer_id is required"@)),
    }
}

pub fn prepare_get_pinned_messages(args: &JsonValue) -> (r: Result<ServiceCall, JsonRpcError>)
    ensures
        prepared_view(r) == get_pinned_messages_call(args@),
{
    let peer_id = match arg_i64(args, "peer_id") {
        Some(n) => n,
        None => return Err(invalid_params("peer_id is required")),
    };
    Ok(ServiceCall::GetPinnedMessages { peer_id: peer_id })
}

/// `unpin_message`: Unpin message.
#[derive(Debug)]
pub struct UnpinMessageTool;

impl Tool for UnpinMessageTool {
    open spec fn kind_spec(&self) -> ToolKind {
        ToolKind::UnpinMessage
    }

    fn kind(&self) -> (k: ToolKind) {
        ToolKind::UnpinMessage
    }
}

pub fn unpin_message_info() -> (i: ToolInfo)
    ensures
        i@ == tool_info_spec(ToolKind::UnpinMessage),
{
    let params: Vec<ParamSpec> = vec![ParamSpec { name: "peer_id", kind: ParamKind::Integer, description: None, default: None }, ParamSpec { name: "message_id", kind: ParamKind::Integer, description: None, default: None }];
    assert(params_view(params@) =~= tool_params_spec(ToolKind::UnpinMessage));
    let required: Vec<&'static str> = vec!["peer_id", "message_id"];
    assert(names_view(required@) =~= tool_required_spec(ToolKind::UnpinMessage)->Some_0);
    build_info("unpin_message", "Unpin message.", params, Some(required))
}

/// The request that `unpin_message` makes of its arguments, or the error that it
/// answers them with.
pub open spec fn unpin_message_call(a: JsonModel) -> Result<CallModel, ErrorModel> {
    match arg_i64_spec(a, "peer_id"@) {
        Some(peer_id) => match arg_i64_spec(a, "message_id"@) {
        Some(message_id_raw) => {
            let message_id = message_id_raw as i32;
            Ok(CallModel::UnpinMessage { peer_id: peer_id, message_id: message_id })
        },
        None => Err(invalid_params_spec("message_id is required"@)),
    },
        None => Err(invalid_params_spec("peer_id is required"@)),
    }
}

pub fn prepare_unpin_message(args: &JsonValue) -> (r: Result<ServiceCall, JsonRpcError>)
    ensures
        prepared_view(r) == unpin_message_call(args@),
{
    let peer_id = match arg_i64(args, "peer_id") {
        Some(n) => n,
        None => return Err(invalid_params("peer_id is required")),
    };
    let message_id = match arg_i64(args, "message_id") {
        Some(n) => n as i32,
        None => return Err(invalid_params("message_id is required")),
    };
    Ok(ServiceCall::UnpinMessage { peer_id: peer_id, message_id: message_id })
}

/// `unpin_all_messages`: Unpin all messages.
#[derive(Debug)]
pub struct UnpinAllMessagesTool;

impl Tool for UnpinAllMessagesTool {
    open spec fn kind_spec(&self) -> ToolKind {
        ToolKind::UnpinAllMessages
    }

    fn kind(&self) -> (k: ToolKind) {
        ToolKind::UnpinAllMessages
    }
}

pub fn unpin_all_messages_info() -> (i: ToolInfo)
    ensures
        i@ == tool_info_spec(ToolKind::UnpinAllMessages),
{
    let params: Vec<ParamSpec> = vec![ParamSpec { name: "peer_id", kind: ParamKind::Integer, description: None, default: None }];
    assert(params_view(params@) =~= tool_params_spec(ToolKind::UnpinAllMessages));
    let required: Vec<&'static str> = vec!["peer_id"];
    assert(names_view(required@) =~= tool_required_spec(ToolKind::UnpinAllMessages)->Some_0);
    build_info("unpin_all_messages", "Unpin all messages.", params, Some(required))
}

/// The request that `unpin_all_messages` makes of its arguments, or the error that it
/// answers them with.
pub open spec fn unpin_all_messages_call(a: JsonModel) -> Result<CallModel, ErrorModel> {
    match arg_i64_spec(a, "peer_id"@) {
        Some(peer_id) => Ok(CallModel::UnpinAllMessages { peer_id: peer_id }),
        None => Err(invalid_params_spec("peer_id is required"@)),
    }
}

pub fn prepare_unpin_all_messages(args: &JsonValue) -> (r: Result<ServiceCall, JsonRpcError>)
    ensures
        prepared_view(r) == unpin_all_messages_call(args@),
{
    let peer_id = match arg_i64(args, "peer_id") {
        Some(n) => n,
        None => return Err(invalid_params("peer_id is required")),
    };
    Ok(ServiceCall::UnpinAllMessages { peer_id: peer_id })
}

/// `delete_scheduled_message`: Delete scheduled message.
#[derive(Debug)]
pub struct DeleteScheduledMessageTool;

impl Tool for DeleteScheduledMessageTool {
    open spec fn kind_spec(&self) -> ToolKind {
        ToolKind::DeleteScheduledMessage
    }

    fn kind(&self) -> (k: ToolKind) {
        ToolKind::DeleteScheduledMessage
    }
}

pub fn delete_scheduled_message_info() -> (i: ToolInfo)
    ensures
        i@ == tool_info_spec(ToolKind::DeleteScheduledMessage),
{
    let params: Vec<ParamSpec> = vec![ParamSpec { name: "peer_id", kind: ParamKind::Integer, description: None, default: None }, ParamSpec { name: "message_id", kind: ParamKind::Integer, description: None, default: None }];
    assert(params_view(params@) =~= tool_params_spec(ToolKind::DeleteScheduledMessage));
    let required: Vec<&'static str> = vec!["peer_id", "message_id"];
    assert(names_view(required@) =~= tool_required_spec(ToolKind::DeleteScheduledMessage)->Some_0);
    build_info("delete_scheduled_message", "Delete scheduled message.", params, Some(required))
}

/// The request that `delete_scheduled_message` makes of its arguments, or the error that it
/// answers them with.
pub open spec fn delete_scheduled_message_call(a: JsonModel) -> Result<CallModel, ErrorModel> {
    match arg_i64_spec(a, "peer_id"@) {
        Some(peer_id) => match arg_i64_spec(a, "message_id"@) {
        Some(message_id_raw) => {
            let message_id = message_id_raw as i32;
            Ok(CallModel::DeleteScheduledMessage { peer_id: peer_id, message_id: message_id })
        },
        None => Err(invalid_params_spec("message_id is required"@)),
    },
        None => Err(invalid_params_spec("peer_id is required"@)),
    }
}

pub fn prepare_delete_scheduled_message(args: &JsonValue) -> (r: Result<ServiceCall, JsonRpcError>)
    ensures
        prepared_view(r) == delete_scheduled_message_call(args@),
{
    let peer_id = match arg_i64(args, "peer_id") {
        Some(n) => n,
        None => return Err(invalid_params("peer_id is required")),
    };
    let message_id = match arg_i64(args, "message_id") {
        Some(n) => n as i32,
        None => return Err(invalid_params("message_id is required")),
    };
    Ok(ServiceCall::DeleteScheduledMessage { peer_id: peer_id, message_id: message_id })
}

/// `remove_reaction`: Remove reaction.
#[derive(Debug)]
pub struct RemoveReactionTool;

impl Tool for RemoveReactionTool {
    open spec fn kind_spec(&self) -> ToolKind {
        ToolKind::RemoveReaction
    }

    fn kind(&self) -> (k: ToolKind) {
        ToolKind::RemoveReaction
    }
}

pub fn remove_reaction_info() -> (i: ToolInfo)
    ensures
        i@ == tool_info_spec(ToolKind::RemoveReaction),
{
    let params: Vec<ParamSpec> = vec![ParamSpec { name: "peer_id", kind: ParamKind::Integer, description: None, default: None }, ParamSpec { name: "message_id", kind: ParamKind::Integer, description: None, default: None }];
    assert(params_view(params@) =~= tool_params_spec(ToolKind::RemoveReaction));
    let required: Vec<&'static str> = vec!["peer_id", "message_id"];
    assert(names_view(required@) =~= tool_required_spec(ToolKind::RemoveReaction)->Some_0);
    build_info("remove_reaction", "Remove reaction.", params, Some(required))
}

/// The request that `remove_reaction` makes of its arguments, or the error that it
/// answers them with.
pub open spec fn remove_reaction_call(a: JsonModel) -> Result<CallModel, ErrorModel> {
    match arg_i64_spec(a, "peer_id"@) {
        Some(peer_id) => match arg_i64_spec(a, "message_id"@) {
        Some(message_id_raw) => {
            let message_id = message_id_raw as i32;
            Ok(CallModel::RemoveReaction { peer_id: peer_id, message_id: message_id })
        },
        None => Err(invalid_params_spec("message_id is required"@)),
    },
        None => Err(invalid_params_spec("peer_id is required"@)),
    }
}

pub fn prepare_remove_reaction(args: &JsonValue) -> (r: Result<ServiceCall, JsonRpcError>)
    ensures
        prepared_view(r) == remove_reaction_call(args@),
{
    let peer_id = match arg_i64(args, "peer_id") {
        Some(n) => n,
        None => return Err(invalid_params("peer_id is required")),
    };
    let message_id = match arg_i64(args, "message_id") {
        Some(n) => n as i32,
        None => return Err(invalid_params("message_id is required")),
    };
    Ok(ServiceCall::RemoveReaction { peer_id: peer_id, message_id: message_id })
}

/// `delete_chat_history`: Delete chat history.
#[derive(Debug)]
pub struct DeleteChatHistoryTool;

impl Tool for DeleteChatHistoryTool {
    open spec fn kind_spec(&self) -> ToolKind {
        ToolKind::DeleteChatHistory
    }

    fn kind(&self) -> (k: ToolKind) {
        ToolKind::DeleteChatHistory
    }
}

pub fn delete_chat_history_info() -> (i: ToolInfo)
    ensures
        i@ == tool_info_spec(ToolKind::DeleteChatHistory),
{
    let params: Vec<ParamSpec> = vec![ParamSpec { name: "peer_id", kind: ParamKind::Integer, description: None, default: None }];
    assert(params_view(params@) =~= tool_params_spec(ToolKind::DeleteChatHistory));
    let required: Vec<&'static str> = vec!["peer_id"];
    assert(names_view(required@) =~= tool_required_spec(ToolKind::DeleteChatHistory)->Some_0);
    build_info("delete_chat_history", "Delete chat history.", params, Some(required))
}

/// The request that `delete_chat_history` makes of its arguments, or the error that it
/// answers them with.
pub open spec fn delete_chat_history_call(a: JsonModel) -> Result<CallModel, ErrorModel> {
    match arg_i64_spec(a, "peer_id"@) {
        Some(peer_id) => Ok(CallModel::DeleteChatHistory { peer_id: peer_id }),
        None => Err(invalid_params_spec("peer_id is required"@)),
    }
}

pub fn prepare_delete_chat_history(args: &JsonValue) -> (r: Result<ServiceCall, JsonRpcError>)
    ensures
        prepared_view(r) == delete_chat_history_call(args@),
{
    let peer_id = match arg_i64(args, "peer_id") {
        Some(n) => n,
        None => return Err(invalid_params("peer_id is required")),
    };
    Ok(ServiceCall::DeleteChatHistory { peer_id: peer_id })
}

/// `pin_message`: Pin a message.
#[derive(Debug)]
pub struct PinMessageTool;

impl Tool for PinMessageTool {
    open spec fn kind_spec(&self) -> ToolKind {
        ToolKind::PinMessage
    }

    fn kind(&self) -> (k: ToolKind) {
        ToolKind::PinMessage
    }
}

pub fn pin_message_info() -> (i: ToolInfo)
    ensures
        i@ == tool_info_spec(ToolKind::PinMessage),
{
    let params: Vec<ParamSpec> = vec![ParamSpec { name: "peer_id", kind: ParamKind::Integer, description: None, default: None }, ParamSpec { name: "message_id", kind: ParamKind::Integer, description: None, default: None }, ParamSpec { name: "silent", kind: ParamKind::Boolean, description: None, default: None }];
    assert(params_view(params@) =~= tool_params_spec(ToolKind::PinMessage));
    let required: Vec<&'static str> = vec!["peer_id", "message_id", "silent"];
    assert(names_view(required@) =~= tool_required_spec(ToolKind::PinMessage)->Some_0);
    build_info("pin_message", "Pin a message.", params, Some(required))
}

/// The request that `pin_message` makes of its arguments, or the error that it
/// answers them with.
pub open spec fn pin_message_call(a: JsonModel) -> Result<CallModel, ErrorModel> {
    match arg_i64_spec(a, "peer_id"@) {
        Some(peer_id) => match arg_i64_spec(a, "message_id"@) {
            Some(message_id_raw) => {
                let message_id = message_id_raw as i32;
                let silent = match arg_bool_spec(a, "silent"@) {
                    Some(b) => b,
                    None => false,
                };
                Ok(CallModel::PinMessage { peer_id: peer_id, message_id: message_id, silent: silent })
            },
            None => Err(invalid_params_spec("message_id is required"@)),
        },
        None => Err(invalid_params_spec("peer_id is required"@)),
    }
}

pub fn prepare_pin_message(args: &JsonValue) -> (r: Result<ServiceCall, JsonRpcError>)
    ensures
        prepared_view(r) == pin_message_call(args@),
{
    let peer_id = match arg_i64(args, "peer_id") {
        Some(n) => n,
        None => return Err(invalid_params("peer_id is required")),
    };
    let message_id = match arg_i64(args, "message_id") {
        Some(n) => n as i32,
        None => return Err(invalid_params("message_id is required")),
    };
    let silent = match arg_bool(args, "silent") {
        Some(b) => b,
        None => false,
    };
    Ok(ServiceCall::PinMessage { peer_id: peer_id, message_id: message_id, silent: silent })
}

/// `mark_as_read`: Mark chat as read.
#[derive(Debug)]
pub struct MarkAsReadTool;

impl Tool for MarkAsReadTool {
    open spec fn kind_spec(&self) -> ToolKind {
        ToolKind::MarkAsRead
    }

    fn kind(&self) -> (k: ToolKind) {
        ToolKind::MarkAsRead
    }
}

pub fn mark_as_read_info() -> (i: ToolInfo)
    ensures
        i@ == tool_info_spec(ToolKind::MarkAsRead),
{
    let params: Vec<ParamSpec> = vec![ParamSpec { name: "peer_id", kind: ParamKind::Integer, description: None, default: None }];
    assert(params_view(params@) =~= tool_params_spec(ToolKind::MarkAsRead));
    let required: Vec<&'static str> = vec!["peer_id"];
    assert(names_view(required@) =~= tool_required_spec(ToolKind::MarkAsRead)->Some_0);
    build_info("mark_as_read", "Mark chat as read.", params, Some(required))
}

/// The request that `mark_as_read` makes of its arguments, or the error that it
/// answers them with.
pub open spec fn mark_as_read_call(a: JsonModel) -> Result<CallModel, ErrorModel> {
    match arg_i64_spec(a, "peer_id"@) {
        Some(peer_id) => Ok(CallModel::MarkAsRead { peer_id: peer_id }),
        None => Err(invalid_params_spec("peer_id is required"@)),
    }
}

pub fn prepare_mark_as_read(args: &JsonValue) -> (r: Result<ServiceCall, JsonRpcError>)
    ensures
        prepared_view(r) == mark_as_read_call(args@),
{
    let peer_id = match arg_i64(args, "peer_id") {
        Some(n) => n,
        None => return Err(invalid_params("peer_id is required")),
    };
    Ok(ServiceCall::MarkAsRead { peer_id: peer_id })
}

/// `get_drafts`: Get all drafts.
#[derive(Debug)]
pub struct GetDraftsTool;

impl Tool for GetDraftsTool {
    open spec fn kind_spec(&self) -> ToolKind {
        ToolKind::GetDrafts
    }

    fn kind(&self) -> (k: ToolKind) {
        ToolKind::GetDrafts
    }
}

pub fn get_drafts_info() -> (i: ToolInfo)
    ensures
        i@ == tool_info_spec(ToolKind::GetDrafts),
{
    let params: Vec<ParamSpec> = Vec::new();
    assert(params_view(params@) =~= tool_params_spec(ToolKind::GetDrafts));
    build_info("get_drafts", "Get all drafts.", params, None)
}

/// The request that `get_drafts` makes of its arguments, or the error that it
/// answers them with.
pub open spec fn get_drafts_call(a: JsonModel) -> Result<CallModel, ErrorModel> {
    Ok(CallModel::GetDrafts)
}

pub fn prepare_get_drafts(args: &JsonValue) -> (r: Result<ServiceCall, JsonRpcError>)
    ensures
        prepared_view(r) == get_drafts_call(args@),
{
    Ok(ServiceCall::GetDrafts)
}

/// `wait_for_new_message`: Wait for new message.
#[derive(Debug)]
pub struct WaitForNewMessageTool;

impl Tool for WaitForNewMessageTool {
    open spec fn kind_spec(&self) -> ToolKind {
        ToolKind::WaitForNewMessage
    }

    fn kind(&self) -> (k: ToolKind) {
        ToolKind::WaitForNewMessage
    }
}

pub fn wait_for_new_message_info() -> (i: ToolInfo)
    ensures
        i@ == tool_info_spec(ToolKind::WaitForNewMessage),
{
    let params: Vec<ParamSpec> = vec![ParamSpec { name: "timeout", kind: ParamKind::Integer, description: None, default: None }];
    assert(params_view(params@) =~= tool_params_spec(ToolKind::WaitForNewMessage));
    let required: Vec<&'static str> = vec!["timeout"];
    assert(names_view(required@) =~= tool_required_spec(ToolKind::WaitForNewMessage)->Some_0);
    build_info("wait_for_new_message", "Wait for new message.", params, Some(required))
}

/// The request that `wait_for_new_message` makes of its arguments, or the error that it
/// answers them with.
pub open spec fn wait_for_new_message_call(a: JsonModel) -> Result<CallModel, ErrorModel> {
    {
        let timeout = match arg_i64_spec(a, "timeout"@) {
            Some(n) => n as i32,
            None => 0i32,
        };
        Ok(CallModel::WaitForNewMessage { timeout: timeout })
    }
}

pub fn prepare_wait_for_new_message(args: &JsonValue) -> (r: Result<ServiceCall, JsonRpcError>)
    ensures
        prepared_view(r) == wait_for_new_message_call(args@),
{
    let timeout = match arg_i64(args, "timeout") {
        Some(n) => n as i32,
        None => 0i32,
    };
    Ok(ServiceCall::WaitForNewMessage { timeout: timeout })
}

/// `wait_for_settled_message`: Wait for settled message.
#[derive(Debug)]
pub struct WaitForSettledMessageTool;

impl Tool for WaitForSettledMessageTool {
    open spec fn kind_spec(&self) -> ToolKind {
        ToolKind::WaitForSettledMessage
    }

    fn kind(&self) -> (k: ToolKind) {
        ToolKind::WaitForSettledMessage
    }
}

pub fn wait_for_settled_message_info() -> (i: ToolInfo)
    ensures
        i@ == tool_info_spec(ToolKind::WaitForSettledMessage),
{
    let params: Vec<ParamSpec> = vec![ParamSpec { name: "settle_ms", kind: ParamKind::Integer, description: None, default: None }, ParamSpec { name: "max_wait_ms", kind: ParamKind::Integer, description: None, default: None }];
    assert(params_view(params@) =~= tool_params_spec(ToolKind::WaitForSettledMessage));
    let required: Vec<&'static str> = vec!["settle_ms", "max_wait_ms"];
    assert(names_view(required@) =~= tool_required_spec(ToolKind::WaitForSettledMessage)->Some_0);
    build_info("wait_for_settled_message", "Wait for settled message.", params, Some(required))
}

/// The request that `wait_for_settled_message` makes of its arguments, or the error that it
/// answers them with.
pub open spec fn wait_for_settled_message_call(a: JsonModel) -> Result<CallModel, ErrorModel> {
    {
        let settle_ms = match arg_i64_spec(a, "settle_ms"@) {
            Some(n) => n as i32,
            None => 0i32,
        };
        {
        let max_wait_ms = match arg_i64_spec(a, "max_wait_ms"@) {
            Some(n) => n as i32,
            None => 0i32,
        };
        Ok(CallModel::WaitForSettledMessage { settle_ms: settle_ms, max_wait_ms: max_wait_ms })
    }
    }
}

pub fn prepare_wait_for_settled_message(args: &JsonValue) -> (r: Result<ServiceCall, JsonRpcError>)
    ensures
        prepared_view(r) == wait_for_settled_message_call(args@),
{
    let settle_ms = match arg_i64(args, "settle_ms") {
        Some(n) => n as i32,
        None => 0i32,
    };
    let max_wait_ms = match arg_i64(args, "max_wait_ms") {
        Some(n) => n as i32,
        None => 0i32,
    };
    Ok(ServiceCall::WaitForSettledMessage { settle_ms: settle_ms, max_wait_ms: max_wait_ms })
}

} // verus!
