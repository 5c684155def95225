//! Tools on the account's own profile.
use vstd::prelude::*;
use vstd::string::*;
use crate::json::{JsonModel, JsonValue};
use crate::protocol::{invalid_params, invalid_params_spec, ErrorModel, JsonRpcError};
use crate::service::{CallModel, ServiceCall};
use crate::tools::args::{arg_array, arg_array_spec, arg_bool, arg_bool_spec, arg_i64, arg_i64_spec, arg_str, arg_str_spec};
use crate::tools::schema::{build_info, names_view, params_view, ParamDefault, ParamKind, ParamModel, ParamSpec, ToolInfo};
use crate::tools::{prepared_view, tool_info_spec, tool_params_spec, tool_required_spec, Tool, ToolKind};

verus! {

/// `get_me`: Get your own user information.
#[derive(Debug)]
pub struct GetMeTool;

impl Tool for GetMeTool {
    open spec fn kind_spec(&self) -> ToolKind {
        ToolKind::GetMe
    }

    fn kind(&self) -> (k: ToolKind) {
        ToolKind::GetMe
    }
}

pub fn get_me_info() -> (i: ToolInfo)
    ensures
        i@ == tool_info_spec(ToolKind::GetMe),
{
    let params: Vec<ParamSpec> = Vec::new();
    assert(params_view(params@) =~= tool_params_spec(ToolKind::GetMe));
    let required: Vec<&'static str> = Vec::new();
    assert(names_view(required@) =~= tool_required_spec(ToolKind::GetMe)->Some_0);
    build_info("get_me", "Get your own user information.", params, Some(required))
}

/// The request that `get_me` makes of its arguments, or the error that it
/// answers them with.
pub open spec fn get_me_call(a: JsonModel) -> Result<CallModel, ErrorModel> {
    Ok(CallModel::GetMe)
}

pub fn prepare_get_me(args: &JsonValue) -> (r: Result<ServiceCall, JsonRpcError>)
    ensures
        prepared_view(r) == get_me_call(args@),
{
    Ok(ServiceCall::GetMe)
}

/// `update_profile`: Update your profile information.
#[derive(Debug)]
pub struct UpdateProfileTool;

impl Tool for UpdateProfileTool {
    open spec fn kind_spec(&self) -> ToolKind {
        ToolKind::UpdateProfile
    }

    fn kind(&self) -> (k: ToolKind) {
        ToolKind::UpdateProfile
    }
}

pub fn update_profile_info() -> (i: ToolInfo)
    ensures
        i@ == tool_info_spec(ToolKind::UpdateProfile),
{
    let params: Vec<ParamSpec> = vec![ParamSpec { name: "first_name", kind: ParamKind::Str, description: None, default: None }, ParamSpec { name: "last_name", kind: ParamKind::Str, description: None, default: None }, ParamSpec { name: "about", kind: ParamKind::Str, description: None, default: None }];
    assert(params_view(params@) =~= tool_params_spec(ToolKind::UpdateProfile));
    build_info("update_profile", "Update your profile information.", params, None)
}

/// The request that `update_profile` makes of its arguments, or the error that it
/// answers them with.
pub open spec fn update_profile_call(a: JsonModel) -> Result<CallModel, ErrorModel> {
    {
        let first_name = arg_str_spec(a, "first_name"@);
        {
        let last_name = arg_str_spec(a, "last_name"@);
        {
        let about = arg_str_spec(a, "about"@);
        Ok(CallModel::UpdateProfile { first_name: first_name, last_name: last_name, about: about })
    }
    }
    }
}

pub fn prepare_update_profile(args: &JsonValue) -> (r: Result<ServiceCall, JsonRpcError>)
    ensures
        prepared_view(r) == update_profile_call(args@),
{
    let first_name = arg_str(args, "first_name");
    let last_name = arg_str(args, "last_name");
    let about = arg_str(args, "about");
    Ok(ServiceCall::UpdateProfile { first_name: first_name, last_name: last_name, about: about })
}

/// `set_profile_photo`: Set profile photo.
#[derive(Debug)]
pub struct SetProfilePhotoTool;

impl Tool for SetProfilePhotoTool {
    open spec fn kind_spec(&self) -> ToolKind {
        ToolKind::SetProfilePhoto
    }

    fn kind(&self) -> (k: ToolKind) {
        ToolKind::SetProfilePhoto
    }
}

pub fn set_profile_photo_info() -> (i: ToolInfo)
    ensures
        i@ == tool_info_spec(ToolKind::SetProfilePhoto),
{
    let params: Vec<ParamSpec> = vec![ParamSpec { name: "path", kind: ParamKind::Str, description: None, default: None }];
    assert(params_view(params@) =~= tool_params_spec(ToolKind::SetProfilePhoto));
    let required: Vec<&'static str> = vec!["path"];
    assert(names_view(required@) =~= tool_required_spec(ToolKind::SetProfilePhoto)->Some_0);
    build_info("set_profile_photo", "Set profile photo.", params, Some(required))
}

/// The request that `set_profile_photo` makes of its arguments, or the error that it
/// answers them with.
pub open spec fn set_profile_photo_call(a: JsonModel) -> Result<CallModel, ErrorModel> {
    match arg_str_spec(a, "path"@) {
        Some(path) => Ok(CallModel::SetProfilePhoto { path: path }),
        None => Err(invalid_params_spec("path is required"@)),
    }
}

pub fn prepare_set_profile_photo(args: &JsonValue) -> (r: Result<ServiceCall, JsonRpcError>)
    ensures
        prepared_view(r) == set_profile_photo_call(args@),
{
    let path = match arg_str(args, "path") {
        Some(s) => s,
        None => return Err(invalid_params("path is required")),
    };
    Ok(ServiceCall::SetProfilePhoto { path: path })
}

/// `delete_profile_photo`: Delete profile photo.
#[derive(Debug)]
pub struct DeleteProfilePhotoTool;

impl Tool for DeleteProfilePhotoTool {
    open spec fn kind_spec(&self) -> ToolKind {
        ToolKind::DeleteProfilePhoto
    }

    fn kind(&self) -> (k: ToolKind) {
        ToolKind::DeleteProfilePhoto
    }
}

pub fn delete_profile_photo_info() -> (i: ToolInfo)
    ensures
        i@ == tool_info_spec(ToolKind::DeleteProfilePhoto),
{
    let params: Vec<ParamSpec> = Vec::new();
    assert(params_view(params@) =~= tool_params_spec(ToolKind::DeleteProfilePhoto));
    build_info("delete_profile_photo", "Delete profile photo.", params, None)
}

/// The request that `delete_profile_photo` makes of its arguments, or the error that it
/// answers them with.
pub open spec fn delete_profile_photo_call(a: JsonModel) -> Result<CallModel, ErrorModel> {
    Ok(CallModel::DeleteProfilePhoto)
}

pub fn prepare_delete_profile_photo(args: &JsonValue) -> (r: Result<ServiceCall, JsonRpcError>)
    ensures
        prepared_view(r) == delete_profile_photo_call(args@),
{
    Ok(ServiceCall::DeleteProfilePhoto)
}

/// `get_user_status`: Get user status.
#[derive(Debug)]
pub struct GetUserStatusTool;

impl Tool for GetUserStatusTool {
    open spec fn kind_spec(&self) -> ToolKind {
        ToolKind::GetUserStatus
    }

    fn kind(&self) -> (k: ToolKind) {
        ToolKind::GetUserStatus
    }
}

pub fn get_user_status_info() -> (i: ToolInfo)
    ensures
        i@ == tool_info_spec(ToolKind::GetUserStatus),
{
    let params: Vec<ParamSpec> = vec![ParamSpec { name: "user_id", kind: ParamKind::Integer, description: None, default: None }];
    assert(params_view(params@) =~= tool_params_spec(ToolKind::GetUserStatus));
    let required: Vec<&'static str> = vec!["user_id"];
    assert(names_view(required@) =~= tool_required_spec(ToolKind::GetUserStatus)->Some_0);
    build_info("get_user_status", "Get user status.", params, Some(required))
}

/// The request that `get_user_status` makes of its arguments, or the error that it
/// answers them with.
pub open spec fn get_user_status_call(a: JsonModel) -> Result<CallModel, ErrorModel> {
    match arg_i64_spec(a, "user_id"@) {
        Some(user_id) => Ok(CallModel::GetUserStatus { user_id: user_id }),
        None => Err(invalid_params_spec("user_id is required"@)),
    }
}

pub fn prepare_get_user_status(args: &JsonValue) -> (r: Result<ServiceCall, JsonRpcError>)
    ensures
        prepared_view(r) == get_user_status_call(args@),
{
    let user_id = match arg_i64(args, "user_id") {
        Some(n) => n,
        None => return Err(invalid_params("user_id is required")),
    };
    Ok(ServiceCall::GetUserStatus { user_id: user_id })
}

/// `resolve_username`: Resolve username.
#[derive(Debug)]
pub struct ResolveUsernameTool;

impl Tool for ResolveUsernameTool {
    open spec fn kind_spec(&self) -> ToolKind {
        ToolKind::ResolveUsername
    }

    fn kind(&self) -> (k: ToolKind) {
        ToolKind::ResolveUsername
    }
}

pub fn resolve_username_info() -> (i: ToolInfo)
    ensures
        i@ == tool_info_spec(ToolKind::ResolveUsername),
{
    let params: Vec<ParamSpec> = vec![ParamSpec { name: "username", kind: ParamKind::Str, description: None, default: None }];
    assert(params_view(params@) =~= tool_params_spec(ToolKind::ResolveUsername));
    let required: Vec<&'static str> = vec!["username"];
    assert(names_view(required@) =~= tool_required_spec(ToolKind::ResolveUsername)->Some_0);
    build_info("resolve_username", "Resolve username.", params, Some(required))
}

/// The request that `resolve_username` makes of its arguments, or the error that it
/// answers them with.
pub open spec fn resolve_username_call(a: JsonModel) -> Result<CallModel, ErrorModel> {
    {
        let username = match arg_str_spec(a, "username"@) {
            Some(s) => s,
            None => ""@,
        };
        Ok(CallModel::ResolveUsername { username: username })
    }
}

pub fn prepare_resolve_username(args: &JsonValue) -> (r: Result<ServiceCall, JsonRpcError>)
    ensures
        prepared_view(r) == resolve_username_call(args@),
{
    let username = match arg_str(args, "username") {
        Some(s) => s,
        None => String::from_str(""),
    };
    Ok(ServiceCall::ResolveUsername { username: username })
}

/// `list_accounts`: List accounts.
#[derive(Debug)]
pub struct ListAccountsTool;

impl Tool for ListAccountsTool {
    open spec fn kind_spec(&self) -> ToolKind {
        ToolKind::ListAccounts
    }

    fn kind(&self) -> (k: ToolKind) {
        ToolKind::ListAccounts
    }
}

pub fn list_accounts_info() -> (i: ToolInfo)
    ensures
        i@ == tool_info_spec(ToolKind::ListAccounts),
{
    let params: Vec<ParamSpec> = Vec::new();
    assert(params_view(params@) =~= tool_params_spec(ToolKind::ListAccounts));
    build_info("list_accounts", "List accounts.", params, None)
}

/// The request that `list_accounts` makes of its arguments, or the error that it
/// answers them with.
pub open spec fn list_accounts_call(a: JsonModel) -> Result<CallModel, ErrorModel> {
    Ok(CallModel::ListAccounts)
}

pub fn prepare_list_accounts(args: &JsonValue) -> (r: Result<ServiceCall, JsonRpcError>)
    ensures
        prepared_view(r) == list_accounts_call(args@),
{
    Ok(ServiceCall::ListAccounts)
}

} // verus!
