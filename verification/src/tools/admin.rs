//! Tools that administer groups and channels.
use vstd::prelude::*;
use vstd::string::*;
use crate::json::{JsonModel, JsonValue, collect_ints, ints_of};
use crate::protocol::{invalid_params, invalid_params_spec, ErrorModel, JsonRpcError};
use crate::service::{CallModel, ServiceCall};
use crate::tools::args::{arg_array, arg_array_spec, arg_bool, arg_bool_spec, arg_i64, arg_i64_spec, arg_str, arg_str_spec};
use crate::tools::schema::{build_info, names_view, params_view, ParamDefault, ParamKind, ParamModel, ParamSpec, ToolInfo};
use crate::tools::{prepared_view, tool_info_spec, tool_params_spec, tool_required_spec, Tool, ToolKind};

verus! {

/// `ban_user`: Ban a user from a chat.
#[derive(Debug)]
pub struct BanUserTool;

impl Tool for BanUserTool {
    open spec fn kind_spec(&self) -> ToolKind {
        ToolKind::BanUser
    }

    fn kind(&self) -> (k: ToolKind) {
        ToolKind::BanUser
    }
}

pub fn ban_user_info() -> (i: ToolInfo)
    ensures
        i@ == tool_info_spec(ToolKind::BanUser),
{
    let params: Vec<ParamSpec> = vec![ParamSpec { name: "chat_id", kind: ParamKind::Integer, description: None, default: None }, ParamSpec { name: "user_id", kind: ParamKind::Integer, description: None, default: None }];
    assert(params_view(params@) =~= tool_params_spec(ToolKind::BanUser));
    let required: Vec<&'static str> = vec!["chat_id", "user_id"];
    assert(names_view(required@) =~= tool_required_spec(ToolKind::BanUser)->Some_0);
    build_info("ban_user", "Ban a user from a chat.", params, Some(required))
}

/// The request that `ban_user` makes of its arguments, or the error that it
/// answers them with.
pub open spec fn ban_user_call(a: JsonModel) -> Result<CallModel, ErrorModel> {
    match arg_i64_spec(a, "chat_id"@) {
        Some(chat_id) => match arg_i64_spec(a, "user_id"@) {
        Some(user_id) => Ok(CallModel::BanUser { peer_id: chat_id, user_id: user_id }),
        None => Err(invalid_params_spec("user_id is required"@)),
    },
        None => Err(invalid_params_spec("chat_id is required"@)),
    }
}

pub fn prepare_ban_user(args: &JsonValue) -> (r: Result<ServiceCall, JsonRpcError>)
    ensures
        prepared_view(r) == ban_user_call(args@),
{
    let chat_id = match arg_i64(args, "chat_id") {
        Some(n) => n,
        None => return Err(invalid_params("chat_id is required")),
    };
    let user_id = match arg_i64(args, "user_id") {
        Some(n) => n,
        None => return Err(invalid_params("user_id is required")),
    };
    Ok(ServiceCall::BanUser { peer_id: chat_id, user_id: user_id })
}

/// `promote_admin`: Promote a user to admin.
#[derive(Debug)]
pub struct PromoteAdminTool;

impl Tool for PromoteAdminTool {
    open spec fn kind_spec(&self) -> ToolKind {
        ToolKind::PromoteAdmin
    }

    fn kind(&self) -> (k: ToolKind) {
        ToolKind::PromoteAdmin
    }
}

pub fn promote_admin_info() -> (i: ToolInfo)
    ensures
        i@ == tool_info_spec(ToolKind::PromoteAdmin),
{
    let params: Vec<ParamSpec> = vec![ParamSpec { name: "chat_id", kind: ParamKind::Integer, description: None, default: None }, ParamSpec { name: "user_id", kind: ParamKind::Integer, description: None, default: None }, ParamSpec { name: "rank", kind: ParamKind::Str, description: None, default: None }];
    assert(params_view(params@) =~= tool_params_spec(ToolKind::PromoteAdmin));
    let required: Vec<&'static str> = vec!["chat_id", "user_id"];
    assert(names_view(required@) =~= tool_required_spec(ToolKind::PromoteAdmin)->Some_0);
    build_info("promote_admin", "Promote a user to admin.", params, Some(required))
}

/// The request that `promote_admin` makes of its arguments, or the error that it
/// answers them with.
pub open spec fn promote_admin_call(a: JsonModel) -> Result<CallModel, ErrorModel> {
    match arg_i64_spec(a, "chat_id"@) {
        Some(chat_id) => match arg_i64_spec(a, "user_id"@) {
        Some(user_id) => {
        let rank = arg_str_spec(a, "rank"@);
        Ok(CallModel::PromoteAdmin { peer_id: chat_id, user_id: user_id, rank: rank })
    },
        None => Err(invalid_params_spec("user_id is required"@)),
    },
        None => Err(invalid_params_spec("chat_id is required"@)),
    }
}

pub fn prepare_promote_admin(args: &JsonValue) -> (r: Result<ServiceCall, JsonRpcError>)
    ensures
        prepared_view(r) == promote_admin_call(args@),
{
    let chat_id = match arg_i64(args, "chat_id") {
        Some(n) => n,
        None => return Err(invalid_params("chat_id is required")),
    };
    let user_id = match arg_i64(args, "user_id") {
        Some(n) => n,
        None => return Err(invalid_params("user_id is required")),
    };
    let rank = arg_str(args, "rank");
    Ok(ServiceCall::PromoteAdmin { peer_id: chat_id, user_id: user_id, rank: rank })
}

/// `get_participants`: Get list of chat participants.
#[derive(Debug)]
pub struct GetParticipantsTool;

impl Tool for GetParticipantsTool {
    open spec fn kind_spec(&self) -> ToolKind {
        ToolKind::GetParticipants
    }

    fn kind(&self) -> (k: ToolKind) {
        ToolKind::GetParticipants
    }
}

pub fn get_participants_info() -> (i: ToolInfo)
    ensures
        i@ == tool_info_spec(ToolKind::GetParticipants),
{
    let params: Vec<ParamSpec> = vec![ParamSpec { name: "chat_id", kind: ParamKind::Integer, description: None, default: None }, ParamSpec { name: "limit", kind: ParamKind::Integer, description: None, default: Some(ParamDefault::Int(100)) }];
    assert(params_view(params@) =~= tool_params_spec(ToolKind::GetParticipants));
    let required: Vec<&'static str> = vec!["chat_id"];
    assert(names_view(required@) =~= tool_required_spec(ToolKind::GetParticipants)->Some_0);
    build_info("get_participants", "Get list of chat participants.", params, Some(required))
}

/// The request that `get_participants` makes of its arguments, or the error that it
/// answers them with.
pub open spec fn get_participants_call(a: JsonModel) -> Result<CallModel, ErrorModel> {
    match arg_i64_spec(a, "chat_id"@) {
        Some(chat_id) => {
        let limit = match arg_i64_spec(a, "limit"@) {
            Some(n) => n as i32,
            None => 100i32,
        };
        Ok(CallModel::GetParticipants { peer_id: chat_id, limit: limit })
    },
        None => Err(invalid_params_spec("chat_id is required"@)),
    }
}

pub fn prepare_get_participants(args: &JsonValue) -> (r: Result<ServiceCall, JsonRpcError>)
    ensures
        prepared_view(r) == get_participants_call(args@),
{
    let chat_id = match arg_i64(args, "chat_id") {
        Some(n) => n,
        None => return Err(invalid_params("chat_id is required")),
    };
    let limit = match arg_i64(args, "limit") {
        Some(n) => n as i32,
        None => 100i32,
    };
    Ok(ServiceCall::GetParticipants { peer_id: chat_id, limit: limit })
}

/// `invite_users`: Invite users to a chat.
#[derive(Debug)]
pub struct InviteUsersTool;

impl Tool for InviteUsersTool {
    open spec fn kind_spec(&self) -> ToolKind {
        ToolKind::InviteUsers
    }

    fn kind(&self) -> (k: ToolKind) {
        ToolKind::InviteUsers
    }
}

pub fn invite_users_info() -> (i: ToolInfo)
    ensures
        i@ == tool_info_spec(ToolKind::InviteUsers),
{
    let params: Vec<ParamSpec> = vec![ParamSpec { name: "chat_id", kind: ParamKind::Integer, description: None, default: None }, ParamSpec { name: "user_ids", kind: ParamKind::IntegerArray, description: None, default: None }];
    assert(params_view(params@) =~= tool_params_spec(ToolKind::InviteUsers));
    let required: Vec<&'static str> = vec!["chat_id", "user_ids"];
    assert(names_view(required@) =~= tool_required_spec(ToolKind::InviteUsers)->Some_0);
    build_info("invite_users", "Invite users to a chat.", params, Some(required))
}

/// The request that `invite_users` makes of its arguments, or the error that it
/// answers them with.
pub open spec fn invite_users_call(a: JsonModel) -> Result<CallModel, ErrorModel> {
    match arg_i64_spec(a, "chat_id"@) {
        Some(chat_id) => match arg_array_spec(a, "user_ids"@) {
        Some(items) => {
            let user_ids = ints_of(items);
            Ok(CallModel::InviteUsers { peer_id: chat_id, user_ids: user_ids })
        },
        None => Err(invalid_params_spec("user_ids must be an array of integers"@)),
    },
        None => Err(invalid_params_spec("chat_id is required"@)),
    }
}

pub fn prepare_invite_users(args: &JsonValue) -> (r: Result<ServiceCall, JsonRpcError>)
    ensures
        prepared_view(r) == invite_users_call(args@),
{
    let chat_id = match arg_i64(args, "chat_id") {
        Some(n) => n,
        None => return Err(invalid_params("chat_id is required")),
    };
    let user_ids = match arg_array(args, "user_ids") {
        Some(items) => collect_ints(items),
        None => return Err(invalid_params("user_ids must be an array of integers")),
    };
    Ok(ServiceCall::InviteUsers { peer_id: chat_id, user_ids: user_ids })
}

/// `demote_admin`: Demote an admin.
#[derive(Debug)]
pub struct DemoteAdminTool;

impl Tool for DemoteAdminTool {
    open spec fn kind_spec(&self) -> ToolKind {
        ToolKind::DemoteAdmin
    }

    fn kind(&self) -> (k: ToolKind) {
        ToolKind::DemoteAdmin
    }
}

pub fn demote_admin_info() -> (i: ToolInfo)
    ensures
        i@ == tool_info_spec(ToolKind::DemoteAdmin),
{
    let params: Vec<ParamSpec> = vec![ParamSpec { name: "peer_id", kind: ParamKind::Integer, description: None, default: None }, ParamSpec { name: "user_id", kind: ParamKind::Integer, description: None, default: None }];
    assert(params_view(params@) =~= tool_params_spec(ToolKind::DemoteAdmin));
    let required: Vec<&'static str> = vec!["peer_id", "user_id"];
    assert(names_view(required@) =~= tool_required_spec(ToolKind::DemoteAdmin)->Some_0);
    build_info("demote_admin", "Demote an admin.", params, Some(required))
}

/// The request that `demote_admin` makes of its arguments, or the error that it
/// answers them with.
pub open spec fn demote_admin_call(a: JsonModel) -> Result<CallModel, ErrorModel> {
    match arg_i64_spec(a, "peer_id"@) {
        Some(peer_id) => match arg_i64_spec(a, "user_id"@) {
        Some(user_id) => Ok(CallModel::DemoteAdmin { peer_id: peer_id, user_id: user_id }),
        None => Err(invalid_params_spec("user_id is required"@)),
    },
        None => Err(invalid_params_spec("peer_id is required"@)),
    }
}

pub fn prepare_demote_admin(args: &JsonValue) -> (r: Result<ServiceCall, JsonRpcError>)
    ensures
        prepared_view(r) == demote_admin_call(args@),
{
    let peer_id = match arg_i64(args, "peer_id") {
        Some(n) => n,
        None => return Err(invalid_params("peer_id is required")),
    };
    let user_id = match arg_i64(args, "user_id") {
        Some(n) => n,
        None => return Err(invalid_params("user_id is required")),
    };
    Ok(ServiceCall::DemoteAdmin { peer_id: peer_id, user_id: user_id })
}

/// `edit_admin_rights`: Edit admin rights.
#[derive(Debug)]
pub struct EditAdminRightsTool;

impl Tool for EditAdminRightsTool {
    open spec fn kind_spec(&self) -> ToolKind {
        ToolKind::EditAdminRights
    }

    fn kind(&self) -> (k: ToolKind) {
        ToolKind::EditAdminRights
    }
}

pub fn edit_admin_rights_info() -> (i: ToolInfo)
    ensures
        i@ == tool_info_spec(ToolKind::EditAdminRights),
{
    let params: Vec<ParamSpec> = vec![ParamSpec { name: "peer_id", kind: ParamKind::Integer, description: None, default: None }, ParamSpec { name: "user_id", kind: ParamKind::Integer, description: None, default: None }, ParamSpec { name: "add_admins", kind: ParamKind::Boolean, description: None, default: None }, ParamSpec { name: "ban_users", kind: ParamKind::Boolean, description: None, default: None }, ParamSpec { name: "pin_messages", kind: ParamKind::Boolean, description: None, default: None }];
    assert(params_view(params@) =~= tool_params_spec(ToolKind::EditAdminRights));
    let required: Vec<&'static str> = vec!["peer_id", "user_id", "add_admins", "ban_users", "pin_messages"];
    assert(names_view(required@) =~= tool_required_spec(ToolKind::EditAdminRights)->Some_0);
    build_info("edit_admin_rights", "Edit admin rights.", params, Some(required))
}

/// The request that `edit_admin_rights` makes of its arguments, or the error that it
/// answers them with.
pub open spec fn edit_admin_rights_call(a: JsonModel) -> Result<CallModel, ErrorModel> {
    match arg_i64_spec(a, "peer_id"@) {
        Some(peer_id) => match arg_i64_spec(a, "user_id"@) {
        Some(user_id) => match arg_bool_spec(a, "add_admins"@) {
        Some(add_admins) => match arg_bool_spec(a, "ban_users"@) {
        Some(ban_users) => match arg_bool_spec(a, "pin_messages"@) {
        Some(pin_messages) => Ok(CallModel::EditAdminRights { peer_id: peer_id, user_id: user_id, add_admins: add_admins, ban_users: ban_users, pin_messages: pin_messages }),
        None => Err(invalid_params_spec("pin_messages is required"@)),
    },
        None => Err(invalid_params_spec("ban_users is required"@)),
    },
        None => Err(invalid_params_spec("add_admins is required"@)),
    },
        None => Err(invalid_params_spec("user_id is required"@)),
    },
        None => Err(invalid_params_spec("peer_id is required"@)),
    }
}

pub fn prepare_edit_admin_rights(args: &JsonValue) -> (r: Result<ServiceCall, JsonRpcError>)
    ensures
        prepared_view(r) == edit_admin_rights_call(args@),
{
    let peer_id = match arg_i64(args, "peer_id") {
        Some(n) => n,
        None => return Err(invalid_params("peer_id is required")),
    };
    let user_id = match arg_i64(args, "user_id") {
        Some(n) => n,
        None => return Err(invalid_params("user_id is required")),
    };
    let add_admins = match arg_bool(args, "add_admins") {
        Some(b) => b,
        None => return Err(invalid_params("add_admins is required")),
    };
    let ban_users = match arg_bool(args, "ban_users") {
        Some(b) => b,
        None => return Err(invalid_params("ban_users is required")),
    };
    let pin_messages = match arg_bool(args, "pin_messages") {
        Some(b) => b,
        None => return Err(invalid_params("pin_messages is required")),
    };
    Ok(ServiceCall::EditAdminRights { peer_id: peer_id, user_id: user_id, add_admins: add_admins, ban_users: ban_users, pin_messages: pin_messages })
}

/// `set_default_chat_permissions`: Set default chat permissions.
#[derive(Debug)]
pub struct SetDefaultChatPermissionsTool;

impl Tool for SetDefaultChatPermissionsTool {
    open spec fn kind_spec(&self) -> ToolKind {
        ToolKind::SetDefaultChatPermissions
    }

    fn kind(&self) -> (k: ToolKind) {
        ToolKind::SetDefaultChatPermissions
    }
}

pub fn set_default_chat_permissions_info() -> (i: ToolInfo)
    ensures
        i@ == tool_info_spec(ToolKind::SetDefaultChatPermissions),
{
    let params: Vec<ParamSpec> = vec![ParamSpec { name: "peer_id", kind: ParamKind::Integer, description: None, default: None }, ParamSpec { name: "send_messages", kind: ParamKind::Boolean, description: None, default: None }, ParamSpec { name: "send_media", kind: ParamKind::Boolean, description: None, default: None }];
    assert(params_view(params@) =~= tool_params_spec(ToolKind::SetDefaultChatPermissions));
    let required: Vec<&'static str> = vec!["peer_id", "send_messages", "send_media"];
    assert(names_view(required@) =~= tool_required_spec(ToolKind::SetDefaultChatPermissions)->Some_0);
    build_info("set_default_chat_permissions", "Set default chat permissions.", params, Some(required))
}

/// The request that `set_default_chat_permissions` makes of its arguments, or the error that it
/// answers them with.
pub open spec fn set_default_chat_permissions_call(a: JsonModel) -> Result<CallModel, ErrorModel> {
    match arg_i64_spec(a, "peer_id"@) {
        Some(peer_id) => match arg_bool_spec(a, "send_messages"@) {
        Some(send_messages) => match arg_bool_spec(a, "send_media"@) {
        Some(send_media) => Ok(CallModel::SetDefaultChatPermissions { peer_id: peer_id, send_messages: send_messages, send_media: send_media }),
        None => Err(invalid_params_spec("send_media is required"@)),
    },
        None => Err(invalid_params_spec("send_messages is required"@)),
    },
        None => Err(invalid_params_spec("peer_id is required"@)),
    }
}

pub fn prepare_set_default_chat_permissions(args: &JsonValue) -> (r: Result<ServiceCall, JsonRpcError>)
    ensures
        prepared_view(r) == set_default_chat_permissions_call(args@),
{
    let peer_id = match arg_i64(args, "peer_id") {
        Some(n) => n,
        None => return Err(invalid_params("peer_id is required")),
    };
    let send_messages = match arg_bool(args, "send_messages") {
        Some(b) => b,
        None => return Err(invalid_params("send_messages is required")),
    };
    let send_media = match arg_bool(args, "send_media") {
        Some(b) => b,
        None => return Err(invalid_params("send_media is required")),
    };
    Ok(ServiceCall::SetDefaultChatPermissions { peer_id: peer_id, send_messages: send_messages, send_media: send_media })
}

/// `toggle_slow_mode`: Toggle slow mode.
#[derive(Debug)]
pub struct ToggleSlowModeTool;

impl Tool for ToggleSlowModeTool {
    open spec fn kind_spec(&self) -> ToolKind {
        ToolKind::ToggleSlowMode
    }

    fn kind(&self) -> (k: ToolKind) {
        ToolKind::ToggleSlowMode
    }
}

pub fn toggle_slow_mode_info() -> (i: ToolInfo)
    ensures
        i@ == tool_info_spec(ToolKind::ToggleSlowMode),
{
    let params: Vec<ParamSpec> = vec![ParamSpec { name: "peer_id", kind: ParamKind::Integer, description: None, default: None }, ParamSpec { name: "seconds", kind: ParamKind::Integer, description: None, default: None }];
    assert(params_view(params@) =~= tool_params_spec(ToolKind::ToggleSlowMode));
    let required: Vec<&'static str> = vec!["peer_id", "seconds"];
    assert(names_view(required@) =~= tool_required_spec(ToolKind::ToggleSlowMode)->Some_0);
    build_info("toggle_slow_mode", "Toggle slow mode.", params, Some(required))
}

/// The request that `toggle_slow_mode` makes of its arguments, or the error that it
/// answers them with.
pub open spec fn toggle_slow_mode_call(a: JsonModel) -> Result<CallModel, ErrorModel> {
    match arg_i64_spec(a, "peer_id"@) {
        Some(peer_id) => match arg_i64_spec(a, "seconds"@) {
        Some(seconds_raw) => {
            let seconds = seconds_raw as i32;
            Ok(CallModel::ToggleSlowMode { peer_id: peer_id, seconds: seconds })
        },
        None => Err(invalid_params_spec("seconds is required"@)),
    },
        None => Err(invalid_params_spec("peer_id is required"@)),
    }
}

pub fn prepare_toggle_slow_mode(args: &JsonValue) -> (r: Result<ServiceCall, JsonRpcError>)
    ensures
        prepared_view(r) == toggle_slow_mode_call(args@),
{
    let peer_id = match arg_i64(args, "peer_id") {
        Some(n) => n,
        None => return Err(invalid_params("peer_id is required")),
    };
    let seconds = match arg_i64(args, "seconds") {
        Some(n) => n as i32,
        None => return Err(invalid_params("seconds is required")),
    };
    Ok(ServiceCall::ToggleSlowMode { peer_id: peer_id, seconds: seconds })
}

/// `get_admins`: Get chat admins.
#[derive(Debug)]
pub struct GetAdminsTool;

impl Tool for GetAdminsTool {
    open spec fn kind_spec(&self) -> ToolKind {
        ToolKind::GetAdmins
    }

    fn kind(&self) -> (k: ToolKind) {
        ToolKind::GetAdmins
    }
}

pub fn get_admins_info() -> (i: ToolInfo)
    ensures
        i@ == tool_info_spec(ToolKind::GetAdmins),
{
    let params: Vec<ParamSpec> = vec![ParamSpec { name: "peer_id", kind: ParamKind::Integer, description: None, default: None }];
    assert(params_view(params@) =~= tool_params_spec(ToolKind::GetAdmins));
    let required: Vec<&'static str> = vec!["peer_id"];
    assert(names_view(required@) =~= tool_required_spec(ToolKind::GetAdmins)->Some_0);
    build_info("get_admins", "Get chat admins.", params, Some(required))
}

/// The request that `get_admins` makes of its arguments, or the error that it
/// answers them with.
pub open spec fn get_admins_call(a: JsonModel) -> Result<CallModel, ErrorModel> {
    match arg_i64_spec(a, "peer_id"@) {
        Some(peer_id) => Ok(CallModel::GetAdmins { peer_id: peer_id }),
        None => Err(invalid_params_spec("peer_id is required"@)),
    }
}

pub fn prepare_get_admins(args: &JsonValue) -> (r: Result<ServiceCall, JsonRpcError>)
    ensures
        prepared_view(r) == get_admins_call(args@),
{
    let peer_id = match arg_i64(args, "peer_id") {
        Some(n) => n,
        None => return Err(invalid_params("peer_id is required")),
    };
    Ok(ServiceCall::GetAdmins { peer_id: peer_id })
}

/// `get_banned_users`: Get banned users.
#[derive(Debug)]
pub struct GetBannedUsersTool;

impl Tool for GetBannedUsersTool {
    open spec fn kind_spec(&self) -> ToolKind {
        ToolKind::GetBannedUsers
    }

    fn kind(&self) -> (k: ToolKind) {
        ToolKind::GetBannedUsers
    }
}

pub fn get_banned_users_info() -> (i: ToolInfo)
    ensures
        i@ == tool_info_spec(ToolKind::GetBannedUsers),
{
    let params: Vec<ParamSpec> = vec![ParamSpec { name: "peer_id", kind: ParamKind::Integer, description: None, default: None }];
    assert(params_view(params@) =~= tool_params_spec(ToolKind::GetBannedUsers));
    let required: Vec<&'static str> = vec!["peer_id"];
    assert(names_view(required@) =~= tool_required_spec(ToolKind::GetBannedUsers)->Some_0);
    build_info("get_banned_users", "Get banned users.", params, Some(required))
}

/// The request that `get_banned_users` makes of its arguments, or the error that it
/// answers them with.
pub open spec fn get_banned_users_call(a: JsonModel) -> Result<CallModel, ErrorModel> {
    match arg_i64_spec(a, "peer_id"@) {
        Some(peer_id) => Ok(CallModel::GetBannedUsers { peer_id: peer_id }),
        None => Err(invalid_params_spec("peer_id is required"@)),
    }
}

pub fn prepare_get_banned_users(args: &JsonValue) -> (r: Result<ServiceCall, JsonRpcError>)
    ensures
        prepared_view(r) == get_banned_users_call(args@),
{
    let peer_id = match arg_i64(args, "peer_id") {
        Some(n) => n,
        None => return Err(invalid_params("peer_id is required")),
    };
    Ok(ServiceCall::GetBannedUsers { peer_id: peer_id })
}

/// `get_recent_actions`: Get recent admin actions.
#[derive(Debug)]
pub struct GetRecentActionsTool;

impl Tool for GetRecentActionsTool {
    open spec fn kind_spec(&self) -> ToolKind {
        ToolKind::GetRecentActions
    }

    fn kind(&self) -> (k: ToolKind) {
        ToolKind::GetRecentActions
    }
}

pub fn get_recent_actions_info() -> (i: ToolInfo)
    ensures
        i@ == tool_info_spec(ToolKind::GetRecentActions),
{
    let params: Vec<ParamSpec> = vec![ParamSpec { name: "peer_id", kind: ParamKind::Integer, description: None, default: None }, ParamSpec { name: "limit", kind: ParamKind::Integer, description: None, default: None }];
    assert(params_view(params@) =~= tool_params_spec(ToolKind::GetRecentActions));
    let required: Vec<&'static str> = vec!["peer_id", "limit"];
    assert(names_view(required@) =~= tool_required_spec(ToolKind::GetRecentActions)->Some_0);
    build_info("get_recent_actions", "Get recent admin actions.", params, Some(required))
}

/// The request that `get_recent_actions` makes of its arguments, or the error that it
/// answers them with.
pub open spec fn get_recent_actions_call(a: JsonModel) -> Result<CallModel, ErrorModel> {
    match arg_i64_spec(a, "peer_id"@) {
        Some(peer_id) => match arg_i64_spec(a, "limit"@) {
        Some(limit_raw) => {
            let limit = limit_raw as i32;
            Ok(CallModel::GetRecentActions { peer_id: peer_id, limit: limit })
        },
        None => Err(invalid_params_spec("limit is required"@)),
    },
        None => Err(invalid_params_spec("peer_id is required"@)),
    }
}

pub fn prepare_get_recent_actions(args: &JsonValue) -> (r: Result<ServiceCall, JsonRpcError>)
    ensures
        prepared_view(r) == get_recent_actions_call(args@),
{
    let peer_id = match arg_i64(args, "peer_id") {
        Some(n) => n,
        None => return Err(invalid_params("peer_id is required")),
    };
    let limit = match arg_i64(args, "limit") {
        Some(n) => n as i32,
        None => return Err(invalid_params("limit is required")),
    };
    Ok(ServiceCall::GetRecentActions { peer_id: peer_id, limit: limit })
}

/// `unban_user`: Unban a user.
#[derive(Debug)]
pub struct UnbanUserTool;

impl Tool for UnbanUserTool {
    open spec fn kind_spec(&self) -> ToolKind {
        ToolKind::UnbanUser
    }

    fn kind(&self) -> (k: ToolKind) {
        ToolKind::UnbanUser
    }
}

pub fn unban_user_info() -> (i: ToolInfo)
    ensures
        i@ == tool_info_spec(ToolKind::UnbanUser),
{
    let params: Vec<ParamSpec> = vec![ParamSpec { name: "peer_id", kind: ParamKind::Integer, description: None, default: None }, ParamSpec { name: "user_id", kind: ParamKind::Integer, description: None, default: None }];
    assert(params_view(params@) =~= tool_params_spec(ToolKind::UnbanUser));
    let required: Vec<&'static str> = vec!["peer_id", "user_id"];
    assert(names_view(required@) =~= tool_required_spec(ToolKind::UnbanUser)->Some_0);
    build_info("unban_user", "Unban a user.", params, Some(required))
}

/// The request that `unban_user` makes of its arguments, or the error that it
/// answers them with.
pub open spec fn unban_user_call(a: JsonModel) -> Result<CallModel, ErrorModel> {
    match arg_i64_spec(a, "peer_id"@) {
        Some(peer_id) => match arg_i64_spec(a, "user_id"@) {
        Some(user_id) => Ok(CallModel::UnbanUser { peer_id: peer_id, user_id: user_id }),
        None => Err(invalid_params_spec("user_id is required"@)),
    },
        None => Err(invalid_params_spec("peer_id is required"@)),
    }
}

pub fn prepare_unban_user(args: &JsonValue) -> (r: Result<ServiceCall, JsonRpcError>)
    ensures
        prepared_view(r) == unban_user_call(args@),
{
    let peer_id = match arg_i64(args, "peer_id") {
        Some(n) => n,
        None => return Err(invalid_params("peer_id is required")),
    };
    let user_id = match arg_i64(args, "user_id") {
        Some(n) => n,
        None => return Err(invalid_params("user_id is required")),
    };
    Ok(ServiceCall::UnbanUser { peer_id: peer_id, user_id: user_id })
}

/// `get_invite_link`: Get invite link.
#[derive(Debug)]
pub struct GetInviteLinkTool;

impl Tool for GetInviteLinkTool {
    open spec fn kind_spec(&self) -> ToolKind {
        ToolKind::GetInviteLink
    }

    fn kind(&self) -> (k: ToolKind) {
        ToolKind::GetInviteLink
    }
}

pub fn get_invite_link_info() -> (i: ToolInfo)
    ensures
        i@ == tool_info_spec(ToolKind::GetInviteLink),
{
    let params: Vec<ParamSpec> = vec![ParamSpec { name: "peer_id", kind: ParamKind::Integer, description: None, default: None }];
    assert(params_view(params@) =~= tool_params_spec(ToolKind::GetInviteLink));
    let required: Vec<&'static str> = vec!["peer_id"];
    assert(names_view(required@) =~= tool_required_spec(ToolKind::GetInviteLink)->Some_0);
    build_info("get_invite_link", "Get invite link.", params, Some(required))
}

/// The request that `get_invite_link` makes of its arguments, or the error that it
/// answers them with.
pub open spec fn get_invite_link_call(a: JsonModel) -> Result<CallModel, ErrorModel> {
    match arg_i64_spec(a, "peer_id"@) {
        Some(peer_id) => Ok(CallModel::GetInviteLink { peer_id: peer_id }),
        None => Err(invalid_params_spec("peer_id is required"@)),
    }
}

pub fn prepare_get_invite_link(args: &JsonValue) -> (r: Result<ServiceCall, JsonRpcError>)
    ensures
        prepared_view(r) == get_invite_link_call(args@),
{
    let peer_id = match arg_i64(args, "peer_id") {
        Some(n) => n,
        None => return Err(invalid_params("peer_id is required")),
    };
    Ok(ServiceCall::GetInviteLink { peer_id: peer_id })
}

/// `export_chat_invite`: Export chat invite.
#[derive(Debug)]
pub struct ExportChatInviteTool;

impl Tool for ExportChatInviteTool {
    open spec fn kind_spec(&self) -> ToolKind {
        ToolKind::ExportChatInvite
    }

    fn kind(&self) -> (k: ToolKind) {
        ToolKind::ExportChatInvite
    }
}

pub fn export_chat_invite_info() -> (i: ToolInfo)
    ensures
        i@ == tool_info_spec(ToolKind::ExportChatInvite),
{
    let params: Vec<ParamSpec> = vec![ParamSpec { name: "peer_id", kind: ParamKind::Integer, description: None, default: None }];
    assert(params_view(params@) =~= tool_params_spec(ToolKind::ExportChatInvite));
    let required: Vec<&'static str> = vec!["peer_id"];
    assert(names_view(required@) =~= tool_required_spec(ToolKind::ExportChatInvite)->Some_0);
    build_info("export_chat_invite", "Export chat invite.", params, Some(required))
}

/// The request that `export_chat_invite` makes of its arguments, or the error that it
/// answers them with.
pub open spec fn export_chat_invite_call(a: JsonModel) -> Result<CallModel, ErrorModel> {
    match arg_i64_spec(a, "peer_id"@) {
        Some(peer_id) => Ok(CallModel::ExportChatInvite { peer_id: peer_id }),
        None => Err(invalid_params_spec("peer_id is required"@)),
    }
}

pub fn prepare_export_chat_invite(args: &JsonValue) -> (r: Result<ServiceCall, JsonRpcError>)
    ensures
        prepared_view(r) == export_chat_invite_call(args@),
{
    let peer_id = match arg_i64(args, "peer_id") {
        Some(n) => n,
        None => return Err(invalid_params("peer_id is required")),
    };
    Ok(ServiceCall::ExportChatInvite { peer_id: peer_id })
}

/// `import_chat_invite`: Import chat invite.
#[derive(Debug)]
pub struct ImportChatInviteTool;

impl Tool for ImportChatInviteTool {
    open spec fn kind_spec(&self) -> ToolKind {
        ToolKind::ImportChatInvite
    }

    fn kind(&self) -> (k: ToolKind) {
        ToolKind::ImportChatInvite
    }
}

pub fn import_chat_invite_info() -> (i: ToolInfo)
    ensures
        i@ == tool_info_spec(ToolKind::ImportChatInvite),
{
    let params: Vec<ParamSpec> = vec![ParamSpec { name: "hash", kind: ParamKind::Str, description: None, default: None }];
    assert(params_view(params@) =~= tool_params_spec(ToolKind::ImportChatInvite));
    let required: Vec<&'static str> = vec!["hash"];
    assert(names_view(required@) =~= tool_required_spec(ToolKind::ImportChatInvite)->Some_0);
    build_info("import_chat_invite", "Import chat invite.", params, Some(required))
}

/// The request that `import_chat_invite` makes of its arguments, or the error that it
/// answers them with.
pub open spec fn import_chat_invite_call(a: JsonModel) -> Result<CallModel, ErrorModel> {
    match arg_str_spec(a, "hash"@) {
        Some(hash) => Ok(CallModel::ImportChatInvite { hash: hash }),
        None => Err(invalid_params_spec("hash is required"@)),
    }
}

pub fn prepare_import_chat_invite(args: &JsonValue) -> (r: Result<ServiceCall, JsonRpcError>)
    ensures
        prepared_view(r) == import_chat_invite_call(args@),
{
    let hash = match arg_str(args, "hash") {
        Some(s) => s,
        None => return Err(invalid_params("hash is required")),
    };
    Ok(ServiceCall::ImportChatInvite { hash: hash })
}

/// `join_chat_by_link`: Join chat by link.
#[derive(Debug)]
pub struct JoinChatByLinkTool;

impl Tool for JoinChatByLinkTool {
    open spec fn kind_spec(&self) -> ToolKind {
        ToolKind::JoinChatByLink
    }

    fn kind(&self) -> (k: ToolKind) {
        ToolKind::JoinChatByLink
    }
}

pub fn join_chat_by_link_info() -> (i: ToolInfo)
    ensures
        i@ == tool_info_spec(ToolKind::JoinChatByLink),
{
    let params: Vec<ParamSpec> = vec![ParamSpec { name: "link", kind: ParamKind::Str, description: None, default: None }];
    assert(params_view(params@) =~= tool_params_spec(ToolKind::JoinChatByLink));
    let required: Vec<&'static str> = vec!["link"];
    assert(names_view(required@) =~= tool_required_spec(ToolKind::JoinChatByLink)->Some_0);
    build_info("join_chat_by_link", "Join chat by link.", params, Some(required))
}

/// The request that `join_chat_by_link` makes of its arguments, or the error that it
/// answers them with.
pub open spec fn join_chat_by_link_call(a: JsonModel) -> Result<CallModel, ErrorModel> {
    match arg_str_spec(a, "link"@) {
        Some(link) => Ok(CallModel::JoinChatByLink { link: link }),
        None => Err(invalid_params_spec("link is required"@)),
    }
}

pub fn prepare_join_chat_by_link(args: &JsonValue) -> (r: Result<ServiceCall, JsonRpcError>)
    ensures
        prepared_view(r) == join_chat_by_link_call(args@),
{
    let link = match arg_str(args, "link") {
        Some(s) => s,
        None => return Err(invalid_params("link is required")),
    };
    Ok(ServiceCall::JoinChatByLink { link: link })
}

} // verus!
