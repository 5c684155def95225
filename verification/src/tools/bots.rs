//! Tools that talk to bots.
use vstd::prelude::*;
use vstd::string::*;
use crate::json::{JsonModel, JsonValue};
use crate::protocol::{invalid_params, invalid_params_spec, ErrorModel, JsonRpcError};
use crate::service::{CallModel, ServiceCall};
use crate::tools::image::{base64_decoded, decode_base64};
use crate::tools::args::{arg_array, arg_array_spec, arg_bool, arg_bool_spec, arg_i64, arg_i64_spec, arg_str, arg_str_spec};
use crate::tools::schema::{build_info, names_view, params_view, ParamDefault, ParamKind, ParamModel, ParamSpec, ToolInfo};
use crate::tools::{prepared_view, tool_info_spec, tool_params_spec, tool_required_spec, Tool, ToolKind};

verus! {

/// `get_bot_info`: Get information about a bot.
#[derive(Debug)]
pub struct GetBotInfoTool;

impl Tool for GetBotInfoTool {
    open spec fn kind_spec(&self) -> ToolKind {
        ToolKind::GetBotInfo
    }

    fn kind(&self) -> (k: ToolKind) {
        ToolKind::GetBotInfo
    }
}

pub fn get_bot_info_info() -> (i: ToolInfo)
    ensures
        i@ == tool_info_spec(ToolKind::GetBotInfo),
{
    let params: Vec<ParamSpec> = vec![ParamSpec { name: "bot_username", kind: ParamKind::Str, description: None, default: None }];
    assert(params_view(params@) =~= tool_params_spec(ToolKind::GetBotInfo));
    let required: Vec<&'static str> = vec!["bot_username"];
    assert(names_view(required@) =~= tool_required_spec(ToolKind::GetBotInfo)->Some_0);
    build_info("get_bot_info", "Get information about a bot.", params, Some(required))
}

/// The request that `get_bot_info` makes of its arguments, or the error that it
/// answers them with.
pub open spec fn get_bot_info_call(a: JsonModel) -> Result<CallModel, ErrorModel> {
    match arg_str_spec(a, "bot_username"@) {
        Some(bot_username) => Ok(CallModel::GetBotInfo { bot_username: bot_username }),
        None => Err(invalid_params_spec("bot_username is required"@)),
    }
}

pub fn prepare_get_bot_info(args: &JsonValue) -> (r: Result<ServiceCall, JsonRpcError>)
    ensures
        prepared_view(r) == get_bot_info_call(args@),
{
    let bot_username = match arg_str(args, "bot_username") {
        Some(s) => s,
        None => return Err(invalid_params("bot_username is required")),
    };
    Ok(ServiceCall::GetBotInfo { bot_username: bot_username })
}

/// `list_inline_buttons`: List inline buttons attached to a specific message.
#[derive(Debug)]
pub struct ListInlineButtonsTool;

impl Tool for ListInlineButtonsTool {
    open spec fn kind_spec(&self) -> ToolKind {
        ToolKind::ListInlineButtons
    }

    fn kind(&self) -> (k: ToolKind) {
        ToolKind::ListInlineButtons
    }
}

pub fn list_inline_buttons_info() -> (i: ToolInfo)
    ensures
        i@ == tool_info_spec(ToolKind::ListInlineButtons),
{
    let params: Vec<ParamSpec> = vec![ParamSpec { name: "chat_id", kind: ParamKind::Integer, description: None, default: None }, ParamSpec { name: "message_id", kind: ParamKind::Integer, description: None, default: None }];
    assert(params_view(params@) =~= tool_params_spec(ToolKind::ListInlineButtons));
    let required: Vec<&'static str> = vec!["chat_id", "message_id"];
    assert(names_view(required@) =~= tool_required_spec(ToolKind::ListInlineButtons)->Some_0);
    build_info("list_inline_buttons", "List inline buttons attached to a specific message.", params, Some(required))
}

/// The request that `list_inline_buttons` makes of its arguments, or the error that it
/// answers them with.
pub open spec fn list_inline_buttons_call(a: JsonModel) -> Result<CallModel, ErrorModel> {
    match arg_i64_spec(a, "chat_id"@) {
        Some(chat_id) => match arg_i64_spec(a, "message_id"@) {
        Some(message_id_raw) => {
            let message_id = message_id_raw as i32;
            Ok(CallModel::ListInlineButtons { peer_id: chat_id, message_id: message_id })
        },
        None => Err(invalid_params_spec("message_id is required"@)),
    },
        None => Err(invalid_params_spec("chat_id is required"@)),
    }
}

pub fn prepare_list_inline_buttons(args: &JsonValue) -> (r: Result<ServiceCall, JsonRpcError>)
    ensures
        prepared_view(r) == list_inline_buttons_call(args@),
{
    let chat_id = match arg_i64(args, "chat_id") {
        Some(n) => n,
        None => return Err(invalid_params("chat_id is required")),
    };
    let message_id = match arg_i64(args, "message_id") {
        Some(n) => n as i32,
        None => return Err(invalid_params("message_id is required")),
    };
    Ok(ServiceCall::ListInlineButtons { peer_id: chat_id, message_id: message_id })
}

/// `press_inline_button`: Press an inline button attached to a message using its callback data.
#[derive(Debug)]
pub struct PressInlineButtonTool;

impl Tool for PressInlineButtonTool {
    open spec fn kind_spec(&self) -> ToolKind {
        ToolKind::PressInlineButton
    }

    fn kind(&self) -> (k: ToolKind) {
        ToolKind::PressInlineButton
    }
}

pub fn press_inline_button_info() -> (i: ToolInfo)
    ensures
        i@ == tool_info_spec(ToolKind::PressInlineButton),
{
    let params: Vec<ParamSpec> = vec![ParamSpec { name: "chat_id", kind: ParamKind::Integer, description: None, default: None }, ParamSpec { name: "message_id", kind: ParamKind::Integer, description: None, default: None }, ParamSpec { name: "button_data", kind: ParamKind::Str, description: Some("The base64 encoded data from list_inline_buttons"), default: None }];
    assert(params_view(params@) =~= tool_params_spec(ToolKind::PressInlineButton));
    let required: Vec<&'static str> = vec!["chat_id", "message_id", "button_data"];
    assert(names_view(required@) =~= tool_required_spec(ToolKind::PressInlineButton)->Some_0);
    build_info("press_inline_button", "Press an inline button attached to a message using its callback data.", params, Some(required))
}

/// The request that `press_inline_button` makes of its arguments, or the error that it
/// answers them with.
pub open spec fn press_inline_button_call(a: JsonModel) -> Result<CallModel, ErrorModel> {
    match arg_i64_spec(a, "chat_id"@) {
        Some(chat_id) => match arg_i64_spec(a, "message_id"@) {
        Some(message_id_raw) => {
            let message_id = message_id_raw as i32;
            match arg_str_spec(a, "button_data"@) {
        Some(text) => match base64_decoded(text) {
            Some(button_data) => Ok(CallModel::PressInlineButton { peer_id: chat_id, message_id: message_id, button_data: button_data }),
            None => Err(invalid_params_spec("button_data must be base64"@)),
        },
        None => Err(invalid_params_spec("button_data is required"@)),
    }
        },
        None => Err(invalid_params_spec("message_id is required"@)),
    },
        None => Err(invalid_params_spec("chat_id is required"@)),
    }
}

pub fn prepare_press_inline_button(args: &JsonValue) -> (r: Result<ServiceCall, JsonRpcError>)
    ensures
        prepared_view(r) == press_inline_button_call(args@),
{
    let chat_id = match arg_i64(args, "chat_id") {
        Some(n) => n,
        None => return Err(invalid_params("chat_id is required")),
    };
    let message_id = match arg_i64(args, "message_id") {
        Some(n) => n as i32,
        None => return Err(invalid_params("message_id is required")),
    };
    let text = match arg_str(args, "button_data") {
        Some(s) => s,
        None => return Err(invalid_params("button_data is required")),
    };
    let button_data = match decode_base64(text.as_str()) {
        Some(b) => b,
        None => return Err(invalid_params("button_data must be base64")),
    };
    Ok(ServiceCall::PressInlineButton { peer_id: chat_id, message_id: message_id, button_data: button_data })
}

/// `set_bot_commands`: Set bot commands.
#[derive(Debug)]
pub struct SetBotCommandsTool;

impl Tool for SetBotCommandsTool {
    open spec fn kind_spec(&self) -> ToolKind {
        ToolKind::SetBotCommands
    }

    fn kind(&self) -> (k: ToolKind) {
        ToolKind::SetBotCommands
    }
}

pub fn set_bot_commands_info() -> (i: ToolInfo)
    ensures
        i@ == tool_info_spec(ToolKind::SetBotCommands),
{
    let params: Vec<ParamSpec> = vec![ParamSpec { name: "commands", kind: ParamKind::Array, description: None, default: None }];
    assert(params_view(params@) =~= tool_params_spec(ToolKind::SetBotCommands));
    let required: Vec<&'static str> = vec!["commands"];
    assert(names_view(required@) =~= tool_required_spec(ToolKind::SetBotCommands)->Some_0);
    build_info("set_bot_commands", "Set bot commands.", params, Some(required))
}

/// A command as `{"command": ..., "description": ...}`, both strings.
pub open spec fn command_pair(v: JsonModel) -> Option<(Seq<char>, Seq<char>)> {
    match (arg_str_spec(v, "command"@), arg_str_spec(v, "description"@)) {
        (Some(c), Some(d)) => Some((c, d)),
        _ => None,
    }
}

/// The commands of a list, in order; items that are not commands are
/// skipped.
pub open spec fn command_pairs(items: Seq<JsonModel>) -> Seq<(Seq<char>, Seq<char>)>
    decreases items.len(),
{
    if items.len() == 0 {
        Seq::empty()
    } else {
        let rest = command_pairs(items.drop_last());
        match command_pair(items.last()) {
            Some(p) => rest.push(p),
            None => rest,
        }
    }
}

/// The request that `set_bot_commands` makes of its arguments, or the error that it
/// answers them with: the list under `commands`, each item with a string
/// `command` and `description` (other items are skipped).
pub open spec fn set_bot_commands_call(a: JsonModel) -> Result<CallModel, ErrorModel> {
    match arg_array_spec(a, "commands"@) {
        Some(items) => Ok(CallModel::SetBotCommands { commands: command_pairs(items) }),
        None => Err(invalid_params_spec("commands is required"@)),
    }
}

pub fn prepare_set_bot_commands(args: &JsonValue) -> (r: Result<ServiceCall, JsonRpcError>)
    ensures
        prepared_view(r) == set_bot_commands_call(args@),
{
    let items = match arg_array(args, "commands") {
        Some(items) => items,
        None => return Err(invalid_params("commands is required")),
    };
    let ghost model = Seq::new(items@.len(), |i: int| items@[i]@);
    let mut commands: Vec<(String, String)> = Vec::new();
    let mut i: usize = 0;
    while i < items.len()
        invariant
            0 <= i <= items.len(),
            model == Seq::new(items@.len(), |j: int| items@[j]@),
            crate::service::pairs_view(commands@) == command_pairs(model.take(i as int)),
        decreases items.len() - i,
    {
        assert(model.take(i + 1).drop_last() =~= model.take(i as int));
        assert(model.take(i + 1).last() == items@[i as int]@);
        let ghost before = commands@;
        let command = arg_str(&items[i], "command");
        let description = arg_str(&items[i], "description");
        match (command, description) {
            (Some(c), Some(d)) => {
                commands.push((c, d));
                assert(crate::service::pairs_view(commands@) =~= crate::service::pairs_view(before).push(
                    (c@, d@),
                ));
            },
            _ => {},
        }
        i = i + 1;
    }
    assert(model.take(i as int) =~= model);
    Ok(ServiceCall::SetBotCommands { commands: commands })
}

} // verus!
