//! Tools on chat folders.
use vstd::prelude::*;
use vstd::string::*;
use crate::json::{JsonModel, JsonValue, collect_ints, ints_of};
use crate::protocol::{invalid_params, invalid_params_spec, ErrorModel, JsonRpcError};
use crate::service::{CallModel, ServiceCall};
use crate::tools::args::{arg_array, arg_array_spec, arg_bool, arg_bool_spec, arg_i64, arg_i64_spec, arg_str, arg_str_spec, narrow, narrow_ids};
use crate::tools::schema::{build_info, names_view, params_view, ParamDefault, ParamKind, ParamModel, ParamSpec, ToolInfo};
use crate::tools::{prepared_view, tool_info_spec, tool_params_spec, tool_required_spec, Tool, ToolKind};

verus! {

/// `list_folders`: List Telegram chat folders (dialog filters).
#[derive(Debug)]
pub struct ListFoldersTool;

impl Tool for ListFoldersTool {
    open spec fn kind_spec(&self) -> ToolKind {
        ToolKind::ListFolders
    }

    fn kind(&self) -> (k: ToolKind) {
        ToolKind::ListFolders
    }
}

pub fn list_folders_info() -> (i: ToolInfo)
    ensures
        i@ == tool_info_spec(ToolKind::ListFolders),
{
    let params: Vec<ParamSpec> = Vec::new();
    assert(params_view(params@) =~= tool_params_spec(ToolKind::ListFolders));
    build_info("list_folders", "List Telegram chat folders (dialog filters).", params, None)
}

/// The request that `list_folders` makes of its arguments, or the error that it
/// answers them with.
pub open spec fn list_folders_call(a: JsonModel) -> Result<CallModel, ErrorModel> {
    Ok(CallModel::ListFolders)
}

pub fn prepare_list_folders(args: &JsonValue) -> (r: Result<ServiceCall, JsonRpcError>)
    ensures
        prepared_view(r) == list_folders_call(args@),
{
    Ok(ServiceCall::ListFolders)
}

/// `get_folder`: Get detailed information about a chat folder.
#[derive(Debug)]
pub struct GetFolderTool;

impl Tool for GetFolderTool {
    open spec fn kind_spec(&self) -> ToolKind {
        ToolKind::GetFolder
    }

    fn kind(&self) -> (k: ToolKind) {
        ToolKind::GetFolder
    }
}

pub fn get_folder_info() -> (i: ToolInfo)
    ensures
        i@ == tool_info_spec(ToolKind::GetFolder),
{
    let params: Vec<ParamSpec> = vec![ParamSpec { name: "folder_id", kind: ParamKind::Integer, description: None, default: None }];
    assert(params_view(params@) =~= tool_params_spec(ToolKind::GetFolder));
    let required: Vec<&'static str> = vec!["folder_id"];
    assert(names_view(required@) =~= tool_required_spec(ToolKind::GetFolder)->Some_0);
    build_info("get_folder", "Get detailed information about a chat folder.", params, Some(required))
}

/// The request that `get_folder` makes of its arguments, or the error that it
/// answers them with.
pub open spec fn get_folder_call(a: JsonModel) -> Result<CallModel, ErrorModel> {
    match arg_i64_spec(a, "folder_id"@) {
        Some(folder_id_raw) => {
            let folder_id = folder_id_raw as i32;
            Ok(CallModel::GetFolder { folder_id: folder_id })
        },
        None => Err(invalid_params_spec("folder_id is required"@)),
    }
}

pub fn prepare_get_folder(args: &JsonValue) -> (r: Result<ServiceCall, JsonRpcError>)
    ensures
        prepared_view(r) == get_folder_call(args@),
{
    let folder_id = match arg_i64(args, "folder_id") {
        Some(n) => n as i32,
        None => return Err(invalid_params("folder_id is required")),
    };
    Ok(ServiceCall::GetFolder { folder_id: folder_id })
}

/// `create_folder`: Create a chat folder.
#[derive(Debug)]
pub struct CreateFolderTool;

impl Tool for CreateFolderTool {
    open spec fn kind_spec(&self) -> ToolKind {
        ToolKind::CreateFolder
    }

    fn kind(&self) -> (k: ToolKind) {
        ToolKind::CreateFolder
    }
}

pub fn create_folder_info() -> (i: ToolInfo)
    ensures
        i@ == tool_info_spec(ToolKind::CreateFolder),
{
    let params: Vec<ParamSpec> = vec![ParamSpec { name: "title", kind: ParamKind::Str, description: None, default: None }, ParamSpec { name: "included_peers", kind: ParamKind::Array, description: None, default: None }, ParamSpec { name: "excluded_peers", kind: ParamKind::Array, description: None, default: None }];
    assert(params_view(params@) =~= tool_params_spec(ToolKind::CreateFolder));
    let required: Vec<&'static str> = vec!["title", "included_peers", "excluded_peers"];
    assert(names_view(required@) =~= tool_required_spec(ToolKind::CreateFolder)->Some_0);
    build_info("create_folder", "Create a chat folder.", params, Some(required))
}

/// The request that `create_folder` makes of its arguments, or the error that it
/// answers them with.
pub open spec fn create_folder_call(a: JsonModel) -> Result<CallModel, ErrorModel> {
    match arg_str_spec(a, "title"@) {
        Some(title) => match arg_array_spec(a, "included_peers"@) {
        Some(items) => {
            let included_peers = ints_of(items);
            match arg_array_spec(a, "excluded_peers"@) {
        Some(items) => {
            let excluded_peers = ints_of(items);
            Ok(CallModel::CreateFolder { title: title, included_peers: included_peers, excluded_peers: excluded_peers })
        },
        None => Err(invalid_params_spec("excluded_peers is required"@)),
    }
        },
        None => Err(invalid_params_spec("included_peers is required"@)),
    },
        None => Err(invalid_params_spec("title is required"@)),
    }
}

pub fn prepare_create_folder(args: &JsonValue) -> (r: Result<ServiceCall, JsonRpcError>)
    ensures
        prepared_view(r) == create_folder_call(args@),
{
    let title = match arg_str(args, "title") {
        Some(s) => s,
        None => return Err(invalid_params("title is required")),
    };
    let included_peers = match arg_array(args, "included_peers") {
        Some(items) => collect_ints(items),
        None => return Err(invalid_params("included_peers is required")),
    };
    let excluded_peers = match arg_array(args, "excluded_peers") {
        Some(items) => collect_ints(items),
        None => return Err(invalid_params("excluded_peers is required")),
    };
    Ok(ServiceCall::CreateFolder { title: title, included_peers: included_peers, excluded_peers: excluded_peers })
}

/// `delete_folder`: Delete a chat folder.
#[derive(Debug)]
pub struct DeleteFolderTool;

impl Tool for DeleteFolderTool {
    open spec fn kind_spec(&self) -> ToolKind {
        ToolKind::DeleteFolder
    }

    fn kind(&self) -> (k: ToolKind) {
        ToolKind::DeleteFolder
    }
}

pub fn delete_folder_info() -> (i: ToolInfo)
    ensures
        i@ == tool_info_spec(ToolKind::DeleteFolder),
{
    let params: Vec<ParamSpec> = vec![ParamSpec { name: "folder_id", kind: ParamKind::Integer, description: None, default: None }];
    assert(params_view(params@) =~= tool_params_spec(ToolKind::DeleteFolder));
    let required: Vec<&'static str> = vec!["folder_id"];
    assert(names_view(required@) =~= tool_required_spec(ToolKind::DeleteFolder)->Some_0);
    build_info("delete_folder", "Delete a chat folder.", params, Some(required))
}

/// The request that `delete_folder` makes of its arguments, or the error that it
/// answers them with.
pub open spec fn delete_folder_call(a: JsonModel) -> Result<CallModel, ErrorModel> {
    match arg_i64_spec(a, "folder_id"@) {
        Some(folder_id_raw) => {
            let folder_id = folder_id_raw as i32;
            Ok(CallModel::DeleteFolder { folder_id: folder_id })
        },
        None => Err(invalid_params_spec("folder_id is required"@)),
    }
}

pub fn prepare_delete_folder(args: &JsonValue) -> (r: Result<ServiceCall, JsonRpcError>)
    ensures
        prepared_view(r) == delete_folder_call(args@),
{
    let folder_id = match arg_i64(args, "folder_id") {
        Some(n) => n as i32,
        None => return Err(invalid_params("folder_id is required")),
    };
    Ok(ServiceCall::DeleteFolder { folder_id: folder_id })
}

/// `add_chat_to_folder`: Add a chat to a folder.
#[derive(Debug)]
pub struct AddChatToFolderTool;

impl Tool for AddChatToFolderTool {
    open spec fn kind_spec(&self) -> ToolKind {
        ToolKind::AddChatToFolder
    }

    fn kind(&self) -> (k: ToolKind) {
        ToolKind::AddChatToFolder
    }
}

pub fn add_chat_to_folder_info() -> (i: ToolInfo)
    ensures
        i@ == tool_info_spec(ToolKind::AddChatToFolder),
{
    let params: Vec<ParamSpec> = vec![ParamSpec { name: "folder_id", kind: ParamKind::Integer, description: None, default: None }, ParamSpec { name: "peer_id", kind: ParamKind::Integer, description: None, default: None }];
    assert(params_view(params@) =~= tool_params_spec(ToolKind::AddChatToFolder));
    let required: Vec<&'static str> = vec!["folder_id", "peer_id"];
    assert(names_view(required@) =~= tool_required_spec(ToolKind::AddChatToFolder)->Some_0);
    build_info("add_chat_to_folder", "Add a chat to a folder.", params, Some(required))
}

/// The request that `add_chat_to_folder` makes of its arguments, or the error that it
/// answers them with.
pub open spec fn add_chat_to_folder_call(a: JsonModel) -> Result<CallModel, ErrorModel> {
    match arg_i64_spec(a, "folder_id"@) {
        Some(folder_id_raw) => {
            let folder_id = folder_id_raw as i32;
            match arg_i64_spec(a, "peer_id"@) {
        Some(peer_id) => Ok(CallModel::AddChatToFolder { folder_id: folder_id, peer_id: peer_id }),
        None => Err(invalid_params_spec("peer_id is required"@)),
    }
        },
        None => Err(invalid_params_spec("folder_id is required"@)),
    }
}

pub fn prepare_add_chat_to_folder(args: &JsonValue) -> (r: Result<ServiceCall, JsonRpcError>)
    ensures
        prepared_view(r) == add_chat_to_folder_call(args@),
{
    let folder_id = match arg_i64(args, "folder_id") {
        Some(n) => n as i32,
        None => return Err(invalid_params("folder_id is required")),
    };
    let peer_id = match arg_i64(args, "peer_id") {
        Some(n) => n,
        None => return Err(invalid_params("peer_id is required")),
    };
    Ok(ServiceCall::AddChatToFolder { folder_id: folder_id, peer_id: peer_id })
}

/// `remove_chat_from_folder`: Remove a chat from a folder.
#[derive(Debug)]
pub struct RemoveChatFromFolderTool;

impl Tool for RemoveChatFromFolderTool {
    open spec fn kind_spec(&self) -> ToolKind {
        ToolKind::RemoveChatFromFolder
    }

    fn kind(&self) -> (k: ToolKind) {
        ToolKind::RemoveChatFromFolder
    }
}

pub fn remove_chat_from_folder_info() -> (i: ToolInfo)
    ensures
        i@ == tool_info_spec(ToolKind::RemoveChatFromFolder),
{
    let params: Vec<ParamSpec> = vec![ParamSpec { name: "folder_id", kind: ParamKind::Integer, description: None, default: None }, ParamSpec { name: "peer_id", kind: ParamKind::Integer, description: None, default: None }];
    assert(params_view(params@) =~= tool_params_spec(ToolKind::RemoveChatFromFolder));
    let required: Vec<&'static str> = vec!["folder_id", "peer_id"];
    assert(names_view(required@) =~= tool_required_spec(ToolKind::RemoveChatFromFolder)->Some_0);
    build_info("remove_chat_from_folder", "Remove a chat from a folder.", params, Some(required))
}

/// The request that `remove_chat_from_folder` makes of its arguments, or the error that it
/// answers them with.
pub open spec fn remove_chat_from_folder_call(a: JsonModel) -> Result<CallModel, ErrorModel> {
    match arg_i64_spec(a, "folder_id"@) {
        Some(folder_id_raw) => {
            let folder_id = folder_id_raw as i32;
            match arg_i64_spec(a, "peer_id"@) {
        Some(peer_id) => Ok(CallModel::RemoveChatFromFolder { folder_id: folder_id, peer_id: peer_id }),
        None => Err(invalid_params_spec("peer_id is required"@)),
    }
        },
        None => Err(invalid_params_spec("folder_id is required"@)),
    }
}

pub fn prepare_remove_chat_from_folder(args: &JsonValue) -> (r: Result<ServiceCall, JsonRpcError>)
    ensures
        prepared_view(r) == remove_chat_from_folder_call(args@),
{
    let folder_id = match arg_i64(args, "folder_id") {
        Some(n) => n as i32,
        None => return Err(invalid_params("folder_id is required")),
    };
    let peer_id = match arg_i64(args, "peer_id") {
        Some(n) => n,
        None => return Err(invalid_params("peer_id is required")),
    };
    Ok(ServiceCall::RemoveChatFromFolder { folder_id: folder_id, peer_id: peer_id })
}

/// `reorder_folders`: Reorder chat folders.
#[derive(Debug)]
pub struct ReorderFoldersTool;

impl Tool for ReorderFoldersTool {
    open spec fn kind_spec(&self) -> ToolKind {
        ToolKind::ReorderFolders
    }

    fn kind(&self) -> (k: ToolKind) {
        ToolKind::ReorderFolders
    }
}

pub fn reorder_folders_info() -> (i: ToolInfo)
    ensures
        i@ == tool_info_spec(ToolKind::ReorderFolders),
{
    let params: Vec<ParamSpec> = vec![ParamSpec { name: "folder_ids", kind: ParamKind::Array, description: None, default: None }];
    assert(params_view(params@) =~= tool_params_spec(ToolKind::ReorderFolders));
    let required: Vec<&'static str> = vec!["folder_ids"];
    assert(names_view(required@) =~= tool_required_spec(ToolKind::ReorderFolders)->Some_0);
    build_info("reorder_folders", "Reorder chat folders.", params, Some(required))
}

/// The request that `reorder_folders` makes of its arguments, or the error that it
/// answers them with.
pub open spec fn reorder_folders_call(a: JsonModel) -> Result<CallModel, ErrorModel> {
    match arg_array_spec(a, "folder_ids"@) {
        Some(items) => {
            let folder_ids = narrow_ids(ints_of(items));
            Ok(CallModel::ReorderFolders { folder_ids: folder_ids })
        },
        None => Err(invalid_params_spec("folder_ids is required"@)),
    }
}

pub fn prepare_reorder_folders(args: &JsonValue) -> (r: Result<ServiceCall, JsonRpcError>)
    ensures
        prepared_view(r) == reorder_folders_call(args@),
{
    let folder_ids = match arg_array(args, "folder_ids") {
        Some(items) => narrow(collect_ints(items)),
        None => return Err(invalid_params("folder_ids is required")),
    };
    Ok(ServiceCall::ReorderFolders { folder_ids: folder_ids })
}

} // verus!
