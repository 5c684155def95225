//! Tools on chats: listing, creating, leaving and editing them.
use vstd::prelude::*;
use vstd::string::*;
use crate::json::{JsonModel, JsonValue, collect_ints, ints_of};
use crate::protocol::{invalid_params, invalid_params_spec, ErrorModel, JsonRpcError};
use crate::service::{CallModel, ServiceCall};
use crate::tools::args::{arg_array, arg_array_spec, arg_bool, arg_bool_spec, arg_i64, arg_i64_spec, arg_str, arg_str_spec};
use crate::tools::schema::{build_info, names_view, params_view, ParamDefault, ParamKind, ParamModel, ParamSpec, ToolInfo};
use crate::tools::{prepared_view, tool_info_spec, tool_params_spec, tool_required_spec, Tool, ToolKind};

verus! {

/// `list_chats`: List recent conversations.
#[derive(Debug)]
pub struct ListChatsTool;

impl Tool for ListChatsTool {
    open spec fn kind_spec(&self) -> ToolKind {
        ToolKind::ListChats
    }

    fn kind(&self) -> (k: ToolKind) {
        ToolKind::ListChats
    }
}

pub fn list_chats_info() -> (i: ToolInfo)
    ensures
        i@ == tool_info_spec(ToolKind::ListChats),
{
    let params: Vec<ParamSpec> = vec![ParamSpec { name: "limit", kind: ParamKind::Integer, description: None, default: Some(ParamDefault::Int(10)) }];
    assert(params_view(params@) =~= tool_params_spec(ToolKind::ListChats));
    build_info("list_chats", "List recent conversations.", params, None)
}

/// The request that `list_chats` makes of its arguments, or the error that it
/// answers them with.
pub open spec fn list_chats_call(a: JsonModel) -> Result<CallModel, ErrorModel> {
    {
        let limit = match arg_i64_spec(a, "limit"@) {
            Some(n) => n as i32,
            None => 10i32,
        };
        Ok(CallModel::ListChats { limit: limit })
    }
}

pub fn prepare_list_chats(args: &JsonValue) -> (r: Result<ServiceCall, JsonRpcError>)
    ensures
        prepared_view(r) == list_chats_call(args@),
{
    let limit = match arg_i64(args, "limit") {
        Some(n) => n as i32,
        None => 10i32,
    };
    Ok(ServiceCall::ListChats { limit: limit })
}

/// `get_chat_info`: Get detailed information about a specific chat.
#[derive(Debug)]
pub struct GetChatInfoTool;

impl Tool for GetChatInfoTool {
    open spec fn kind_spec(&self) -> ToolKind {
        ToolKind::GetChatInfo
    }

    fn kind(&self) -> (k: ToolKind) {
        ToolKind::GetChatInfo
    }
}

pub fn get_chat_info_info() -> (i: ToolInfo)
    ensures
        i@ == tool_info_spec(ToolKind::GetChatInfo),
{
    let params: Vec<ParamSpec> = vec![ParamSpec { name: "chat_id", kind: ParamKind::Integer, description: None, default: None }];
    assert(params_view(params@) =~= tool_params_spec(ToolKind::GetChatInfo));
    let required: Vec<&'static str> = vec!["chat_id"];
    assert(names_view(required@) =~= tool_required_spec(ToolKind::GetChatInfo)->Some_0);
    build_info("get_chat_info", "Get detailed information about a specific chat.", params, Some(required))
}

/// The request that `get_chat_info` makes of its arguments, or the error that it
/// answers them with.
pub open spec fn get_chat_info_call(a: JsonModel) -> Result<CallModel, ErrorModel> {
    match arg_i64_spec(a, "chat_id"@) {
        Some(chat_id) => Ok(CallModel::GetChatInfo { peer_id: chat_id }),
        None => Err(invalid_params_spec("chat_id is required"@)),
    }
}

pub fn prepare_get_chat_info(args: &JsonValue) -> (r: Result<ServiceCall, JsonRpcError>)
    ensures
        prepared_view(r) == get_chat_info_call(args@),
{
    let chat_id = match arg_i64(args, "chat_id") {
        Some(n) => n,
        None => return Err(invalid_params("chat_id is required")),
    };
    Ok(ServiceCall::GetChatInfo { peer_id: chat_id })
}

/// `create_group`: Create a new group chat.
#[derive(Debug)]
pub struct CreateGroupTool;

impl Tool for CreateGroupTool {
    open spec fn kind_spec(&self) -> ToolKind {
        ToolKind::CreateGroup
    }

    fn kind(&self) -> (k: ToolKind) {
        ToolKind::CreateGroup
    }
}

pub fn create_group_info() -> (i: ToolInfo)
    ensures
        i@ == tool_info_spec(ToolKind::CreateGroup),
{
    let params: Vec<ParamSpec> = vec![ParamSpec { name: "title", kind: ParamKind::Str, description: None, default: None }, ParamSpec { name: "user_ids", kind: ParamKind::IntegerArray, description: None, default: None }];
    assert(params_view(params@) =~= tool_params_spec(ToolKind::CreateGroup));
    let required: Vec<&'static str> = vec!["title", "user_ids"];
    assert(names_view(required@) =~= tool_required_spec(ToolKind::CreateGroup)->Some_0);
    build_info("create_group", "Create a new group chat.", params, Some(required))
}

/// The request that `create_group` makes of its arguments, or the error that it
/// answers them with.
pub open spec fn create_group_call(a: JsonModel) -> Result<CallModel, ErrorModel> {
    match arg_str_spec(a, "title"@) {
        Some(title) => match arg_array_spec(a, "user_ids"@) {
        Some(items) => {
            let user_ids = ints_of(items);
            Ok(CallModel::CreateGroup { title: title, user_ids: user_ids })
        },
        None => Err(invalid_params_spec("user_ids must be an array of integers"@)),
    },
        None => Err(invalid_params_spec("title is required"@)),
    }
}

pub fn prepare_create_group(args: &JsonValue) -> (r: Result<ServiceCall, JsonRpcError>)
    ensures
        prepared_view(r) == create_group_call(args@),
{
    let title = match arg_str(args, "title") {
        Some(s) => s,
        None => return Err(invalid_params("title is required")),
    };
    let user_ids = match arg_array(args, "user_ids") {
        Some(items) => collect_ints(items),
        None => return Err(invalid_params("user_ids must be an array of integers")),
    };
    Ok(ServiceCall::CreateGroup { title: title, user_ids: user_ids })
}

/// `create_channel`: Create a new channel or supergroup.
#[derive(Debug)]
pub struct CreateChannelTool;

impl Tool for CreateChannelTool {
    open spec fn kind_spec(&self) -> ToolKind {
        ToolKind::CreateChannel
    }

    fn kind(&self) -> (k: ToolKind) {
        ToolKind::CreateChannel
    }
}

pub fn create_channel_info() -> (i: ToolInfo)
    ensures
        i@ == tool_info_spec(ToolKind::CreateChannel),
{
    let params: Vec<ParamSpec> = vec![ParamSpec { name: "title", kind: ParamKind::Str, description: None, default: None }, ParamSpec { name: "about", kind: ParamKind::Str, description: None, default: None }, ParamSpec { name: "megagroup", kind: ParamKind::Boolean, description: None, default: Some(ParamDefault::Bool(false)) }];
    assert(params_view(params@) =~= tool_params_spec(ToolKind::CreateChannel));
    let required: Vec<&'static str> = vec!["title", "about"];
    assert(names_view(required@) =~= tool_required_spec(ToolKind::CreateChannel)->Some_0);
    build_info("create_channel", "Create a new channel or supergroup.", params, Some(required))
}

/// The request that `create_channel` makes of its arguments, or the error that it
/// answers them with.
pub open spec fn create_channel_call(a: JsonModel) -> Result<CallModel, ErrorModel> {
    match arg_str_spec(a, "title"@) {
        Some(title) => match arg_str_spec(a, "about"@) {
        Some(about) => {
        let megagroup = match arg_bool_spec(a, "megagroup"@) {
            Some(b) => b,
            None => false,
        };
        Ok(CallModel::CreateChannel { title: title, about: about, megagroup: megagroup })
    },
        None => Err(invalid_params_spec("about is required"@)),
    },
        None => Err(invalid_params_spec("title is required"@)),
    }
}

pub fn prepare_create_channel(args: &JsonValue) -> (r: Result<ServiceCall, JsonRpcError>)
    ensures
        prepared_view(r) == create_channel_call(args@),
{
    let title = match arg_str(args, "title") {
        Some(s) => s,
        None => return Err(invalid_params("title is required")),
    };
    let about = match arg_str(args, "about") {
        Some(s) => s,
        None => return Err(invalid_params("about is required")),
    };
    let megagroup = match arg_bool(args, "megagroup") {
        Some(b) => b,
        None => false,
    };
    Ok(ServiceCall::CreateChannel { title: title, about: about, megagroup: megagroup })
}

/// `leave_chat`: Leave a group chat or channel.
#[derive(Debug)]
pub struct LeaveChatTool;

impl Tool for LeaveChatTool {
    open spec fn kind_spec(&self) -> ToolKind {
        ToolKind::LeaveChat
    }

    fn kind(&self) -> (k: ToolKind) {
        ToolKind::LeaveChat
    }
}

pub fn leave_chat_info() -> (i: ToolInfo)
    ensures
        i@ == tool_info_spec(ToolKind::LeaveChat),
{
    let params: Vec<ParamSpec> = vec![ParamSpec { name: "chat_id", kind: ParamKind::Integer, description: None, default: None }];
    assert(params_view(params@) =~= tool_params_spec(ToolKind::LeaveChat));
    let required: Vec<&'static str> = vec!["chat_id"];
    assert(names_view(required@) =~= tool_required_spec(ToolKind::LeaveChat)->Some_0);
    build_info("leave_chat", "Leave a group chat or channel.", params, Some(required))
}

/// The request that `leave_chat` makes of its arguments, or the error that it
/// answers them with.
pub open spec fn leave_chat_call(a: JsonModel) -> Result<CallModel, ErrorModel> {
    match arg_i64_spec(a, "chat_id"@) {
        Some(chat_id) => Ok(CallModel::LeaveChat { peer_id: chat_id }),
        None => Err(invalid_params_spec("chat_id is required"@)),
    }
}

pub fn prepare_leave_chat(args: &JsonValue) -> (r: Result<ServiceCall, JsonRpcError>)
    ensures
        prepared_view(r) == leave_chat_call(args@),
{
    let chat_id = match arg_i64(args, "chat_id") {
        Some(n) => n,
        None => return Err(invalid_params("chat_id is required")),
    };
    Ok(ServiceCall::LeaveChat { peer_id: chat_id })
}

/// `set_chat_muted`: Mute or unmute a chat.
#[derive(Debug)]
pub struct SetChatMutedTool;

impl Tool for SetChatMutedTool {
    open spec fn kind_spec(&self) -> ToolKind {
        ToolKind::SetChatMuted
    }

    fn kind(&self) -> (k: ToolKind) {
        ToolKind::SetChatMuted
    }
}

pub fn set_chat_muted_info() -> (i: ToolInfo)
    ensures
        i@ == tool_info_spec(ToolKind::SetChatMuted),
{
    let params: Vec<ParamSpec> = vec![ParamSpec { name: "chat_id", kind: ParamKind::Integer, description: None, default: None }, ParamSpec { name: "muted", kind: ParamKind::Boolean, description: None, default: None }, ParamSpec { name: "until", kind: ParamKind::Integer, description: None, default: None }];
    assert(params_view(params@) =~= tool_params_spec(ToolKind::SetChatMuted));
    let required: Vec<&'static str> = vec!["chat_id", "muted"];
    assert(names_view(required@) =~= tool_required_spec(ToolKind::SetChatMuted)->Some_0);
    build_info("set_chat_muted", "Mute or unmute a chat.", params, Some(required))
}

/// The request that `set_chat_muted` makes of its arguments, or the error that it
/// answers them with.
pub open spec fn set_chat_muted_call(a: JsonModel) -> Result<CallModel, ErrorModel> {
    match arg_i64_spec(a, "chat_id"@) {
        Some(chat_id) => match arg_bool_spec(a, "muted"@) {
        Some(muted) => {
        let until = match arg_i64_spec(a, "until"@) {
            Some(n) => Some(n as i32),
            None => None,
        };
        Ok(CallModel::SetChatMuted { peer_id: chat_id, muted: muted, until: until })
    },
        None => Err(invalid_params_spec("muted is required"@)),
    },
        None => Err(invalid_params_spec("chat_id is required"@)),
    }
}

pub fn prepare_set_chat_muted(args: &JsonValue) -> (r: Result<ServiceCall, JsonRpcError>)
    ensures
        prepared_view(r) == set_chat_muted_call(args@),
{
    let chat_id = match arg_i64(args, "chat_id") {
        Some(n) => n,
        None => return Err(invalid_params("chat_id is required")),
    };
    let muted = match arg_bool(args, "muted") {
        Some(b) => b,
        None => return Err(invalid_params("muted is required")),
    };
    let until = match arg_i64(args, "until") {
        Some(n) => Some(n as i32),
        None => None,
    };
    Ok(ServiceCall::SetChatMuted { peer_id: chat_id, muted: muted, until: until })
}

/// `set_chat_archived`: Archive or unarchive a chat.
#[derive(Debug)]
pub struct SetChatArchivedTool;

impl Tool for SetChatArchivedTool {
    open spec fn kind_spec(&self) -> ToolKind {
        ToolKind::SetChatArchived
    }

    fn kind(&self) -> (k: ToolKind) {
        ToolKind::SetChatArchived
    }
}

pub fn set_chat_archived_info() -> (i: ToolInfo)
    ensures
        i@ == tool_info_spec(ToolKind::SetChatArchived),
{
    let params: Vec<ParamSpec> = vec![ParamSpec { name: "chat_id", kind: ParamKind::Integer, description: None, default: None }, ParamSpec { name: "archived", kind: ParamKind::Boolean, description: None, default: None }];
    assert(params_view(params@) =~= tool_params_spec(ToolKind::SetChatArchived));
    let required: Vec<&'static str> = vec!["chat_id", "archived"];
    assert(names_view(required@) =~= tool_required_spec(ToolKind::SetChatArchived)->Some_0);
    build_info("set_chat_archived", "Archive or unarchive a chat.", params, Some(required))
}

/// The request that `set_chat_archived` makes of its arguments, or the error that it
/// answers them with.
pub open spec fn set_chat_archived_call(a: JsonModel) -> Result<CallModel, ErrorModel> {
    match arg_i64_spec(a, "chat_id"@) {
        Some(chat_id) => match arg_bool_spec(a, "archived"@) {
        Some(archived) => Ok(CallModel::SetChatArchived { peer_id: chat_id, archived: archived }),
        None => Err(invalid_params_spec("archived is required"@)),
    },
        None => Err(invalid_params_spec("chat_id is required"@)),
    }
}

pub fn prepare_set_chat_archived(args: &JsonValue) -> (r: Result<ServiceCall, JsonRpcError>)
    ensures
        prepared_view(r) == set_chat_archived_call(args@),
{
    let chat_id = match arg_i64(args, "chat_id") {
        Some(n) => n,
        None => return Err(invalid_params("chat_id is required")),
    };
    let archived = match arg_bool(args, "archived") {
        Some(b) => b,
        None => return Err(invalid_params("archived is required")),
    };
    Ok(ServiceCall::SetChatArchived { peer_id: chat_id, archived: archived })
}

/// `edit_chat_about`: Edit chat about text.
#[derive(Debug)]
pub struct EditChatAboutTool;

impl Tool for EditChatAboutTool {
    open spec fn kind_spec(&self) -> ToolKind {
        ToolKind::EditChatAbout
    }

    fn kind(&self) -> (k: ToolKind) {
        ToolKind::EditChatAbout
    }
}

pub fn edit_chat_about_info() -> (i: ToolInfo)
    ensures
        i@ == tool_info_spec(ToolKind::EditChatAbout),
{
    let params: Vec<ParamSpec> = vec![ParamSpec { name: "peer_id", kind: ParamKind::Integer, description: None, default: None }, ParamSpec { name: "about", kind: ParamKind::Str, description: None, default: None }];
    assert(params_view(params@) =~= tool_params_spec(ToolKind::EditChatAbout));
    let required: Vec<&'static str> = vec!["peer_id", "about"];
    assert(names_view(required@) =~= tool_required_spec(ToolKind::EditChatAbout)->Some_0);
    build_info("edit_chat_about", "Edit chat about text.", params, Some(required))
}

/// The request that `edit_chat_about` makes of its arguments, or the error that it
/// answers them with.
pub open spec fn edit_chat_about_call(a: JsonModel) -> Result<CallModel, ErrorModel> {
    match arg_i64_spec(a, "peer_id"@) {
        Some(peer_id) => match arg_str_spec(a, "about"@) {
        Some(about) => Ok(CallModel::EditChatAbout { peer_id: peer_id, about: about }),
        None => Err(invalid_params_spec("about is required"@)),
    },
        None => Err(invalid_params_spec("peer_id is required"@)),
    }
}

pub fn prepare_edit_chat_about(args: &JsonValue) -> (r: Result<ServiceCall, JsonRpcError>)
    ensures
        prepared_view(r) == edit_chat_about_call(args@),
{
    let peer_id = match arg_i64(args, "peer_id") {
        Some(n) => n,
        None => return Err(invalid_params("peer_id is required")),
    };
    let about = match arg_str(args, "about") {
        Some(s) => s,
        None => return Err(invalid_params("about is required")),
    };
    Ok(ServiceCall::EditChatAbout { peer_id: peer_id, about: about })
}

/// `edit_chat_photo`: Edit chat photo.
#[derive(Debug)]
pub struct EditChatPhotoTool;

impl Tool for EditChatPhotoTool {
    open spec fn kind_spec(&self) -> ToolKind {
        ToolKind::EditChatPhoto
    }

    fn kind(&self) -> (k: ToolKind) {
        ToolKind::EditChatPhoto
    }
}

pub fn edit_chat_photo_info() -> (i: ToolInfo)
    ensures
        i@ == tool_info_spec(ToolKind::EditChatPhoto),
{
    let params: Vec<ParamSpec> = vec![ParamSpec { name: "peer_id", kind: ParamKind::Integer, description: None, default: None }, ParamSpec { name: "path", kind: ParamKind::Str, description: None, default: None }];
    assert(params_view(params@) =~= tool_params_spec(ToolKind::EditChatPhoto));
    let required: Vec<&'static str> = vec!["peer_id", "path"];
    assert(names_view(required@) =~= tool_required_spec(ToolKind::EditChatPhoto)->Some_0);
    build_info("edit_chat_photo", "Edit chat photo.", params, Some(required))
}

/// The request that `edit_chat_photo` makes of its arguments, or the error that it
/// answers them with.
pub open spec fn edit_chat_photo_call(a: JsonModel) -> Result<CallModel, ErrorModel> {
    match arg_i64_spec(a, "peer_id"@) {
        Some(peer_id) => match arg_str_spec(a, "path"@) {
        Some(path) => Ok(CallModel::EditChatPhoto { peer_id: peer_id, path: path }),
        None => Err(invalid_params_spec("path is required"@)),
    },
        None => Err(invalid_params_spec("peer_id is required"@)),
    }
}

pub fn prepare_edit_chat_photo(args: &JsonValue) -> (r: Result<ServiceCall, JsonRpcError>)
    ensures
        prepared_view(r) == edit_chat_photo_call(args@),
{
    let peer_id = match arg_i64(args, "peer_id") {
        Some(n) => n,
        None => return Err(invalid_params("peer_id is required")),
    };
    let path = match arg_str(args, "path") {
        Some(s) => s,
        None => return Err(invalid_params("path is required")),
    };
    Ok(ServiceCall::EditChatPhoto { peer_id: peer_id, path: path })
}

/// `edit_chat_title`: Edit chat title.
#[derive(Debug)]
pub struct EditChatTitleTool;

impl Tool for EditChatTitleTool {
    open spec fn kind_spec(&self) -> ToolKind {
        ToolKind::EditChatTitle
    }

    fn kind(&self) -> (k: ToolKind) {
        ToolKind::EditChatTitle
    }
}

pub fn edit_chat_title_info() -> (i: ToolInfo)
    ensures
        i@ == tool_info_spec(ToolKind::EditChatTitle),
{
    let params: Vec<ParamSpec> = vec![ParamSpec { name: "peer_id", kind: ParamKind::Integer, description: None, default: None }, ParamSpec { name: "title", kind: ParamKind::Str, description: None, default: None }];
    assert(params_view(params@) =~= tool_params_spec(ToolKind::EditChatTitle));
    let required: Vec<&'static str> = vec!["peer_id", "title"];
    assert(names_view(required@) =~= tool_required_spec(ToolKind::EditChatTitle)->Some_0);
    build_info("edit_chat_title", "Edit chat title.", params, Some(required))
}

/// The request that `edit_chat_title` makes of its arguments, or the error that it
/// answers them with.
pub open spec fn edit_chat_title_call(a: JsonModel) -> Result<CallModel, ErrorModel> {
    match arg_i64_spec(a, "peer_id"@) {
        Some(peer_id) => match arg_str_spec(a, "title"@) {
        Some(title) => Ok(CallModel::EditChatTitle { peer_id: peer_id, title: title }),
        None => Err(invalid_params_spec("title is required"@)),
    },
        None => Err(invalid_params_spec("peer_id is required"@)),
    }
}

pub fn prepare_edit_chat_title(args: &JsonValue) -> (r: Result<ServiceCall, JsonRpcError>)
    ensures
        prepared_view(r) == edit_chat_title_call(args@),
{
    let peer_id = match arg_i64(args, "peer_id") {
        Some(n) => n,
        None => return Err(invalid_params("peer_id is required")),
    };
    let title = match arg_str(args, "title") {
        Some(s) => s,
        None => return Err(invalid_params("title is required")),
    };
    Ok(ServiceCall::EditChatTitle { peer_id: peer_id, title: title })
}

/// `delete_chat_photo`: Delete chat photo.
#[derive(Debug)]
pub struct DeleteChatPhotoTool;

impl Tool for DeleteChatPhotoTool {
    open spec fn kind_spec(&self) -> ToolKind {
        ToolKind::DeleteChatPhoto
    }

    fn kind(&self) -> (k: ToolKind) {
        ToolKind::DeleteChatPhoto
    }
}

pub fn delete_chat_photo_info() -> (i: ToolInfo)
    ensures
        i@ == tool_info_spec(ToolKind::DeleteChatPhoto),
{
    let params: Vec<ParamSpec> = vec![ParamSpec { name: "peer_id", kind: ParamKind::Integer, description: None, default: None }];
    assert(params_view(params@) =~= tool_params_spec(ToolKind::DeleteChatPhoto));
    let required: Vec<&'static str> = vec!["peer_id"];
    assert(names_view(required@) =~= tool_required_spec(ToolKind::DeleteChatPhoto)->Some_0);
    build_info("delete_chat_photo", "Delete chat photo.", params, Some(required))
}

/// The request that `delete_chat_photo` makes of its arguments, or the error that it
/// answers them with.
pub open spec fn delete_chat_photo_call(a: JsonModel) -> Result<CallModel, ErrorModel> {
    match arg_i64_spec(a, "peer_id"@) {
        Some(peer_id) => Ok(CallModel::DeleteChatPhoto { peer_id: peer_id }),
        None => Err(invalid_params_spec("peer_id is required"@)),
    }
}

pub fn prepare_delete_chat_photo(args: &JsonValue) -> (r: Result<ServiceCall, JsonRpcError>)
    ensures
        prepared_view(r) == delete_chat_photo_call(args@),
{
    let peer_id = match arg_i64(args, "peer_id") {
        Some(n) => n,
        None => return Err(invalid_params("peer_id is required")),
    };
    Ok(ServiceCall::DeleteChatPhoto { peer_id: peer_id })
}

} // verus!
