//! Tools on contacts and blocked users.
use vstd::prelude::*;
use vstd::string::*;
use crate::json::{JsonModel, JsonValue};
use crate::protocol::{invalid_params, invalid_params_spec, ErrorModel, JsonRpcError};
use crate::service::{CallModel, ServiceCall};
use crate::tools::args::{arg_array, arg_array_spec, arg_bool, arg_bool_spec, arg_i64, arg_i64_spec, arg_str, arg_str_spec};
use crate::tools::schema::{build_info, names_view, params_view, ParamDefault, ParamKind, ParamModel, ParamSpec, ToolInfo};
use crate::tools::{prepared_view, tool_info_spec, tool_params_spec, tool_required_spec, Tool, ToolKind};

verus! {

/// `list_contacts`: List your Telegram contacts.
#[derive(Debug)]
pub struct ListContactsTool;

impl Tool for ListContactsTool {
    open spec fn kind_spec(&self) -> ToolKind {
        ToolKind::ListContacts
    }

    fn kind(&self) -> (k: ToolKind) {
        ToolKind::ListContacts
    }
}

pub fn list_contacts_info() -> (i: ToolInfo)
    ensures
        i@ == tool_info_spec(ToolKind::ListContacts),
{
    let params: Vec<ParamSpec> = Vec::new();
    assert(params_view(params@) =~= tool_params_spec(ToolKind::ListContacts));
    build_info("list_contacts", "List your Telegram contacts.", params, None)
}

/// The request that `list_contacts` makes of its arguments, or the error that it
/// answers them with.
pub open spec fn list_contacts_call(a: JsonModel) -> Result<CallModel, ErrorModel> {
    Ok(CallModel::ListContacts)
}

pub fn prepare_list_contacts(args: &JsonValue) -> (r: Result<ServiceCall, JsonRpcError>)
    ensures
        prepared_view(r) == list_contacts_call(args@),
{
    Ok(ServiceCall::ListContacts)
}

/// `search_contacts`: Search your Telegram contacts.
#[derive(Debug)]
pub struct SearchContactsTool;

impl Tool for SearchContactsTool {
    open spec fn kind_spec(&self) -> ToolKind {
        ToolKind::SearchContacts
    }

    fn kind(&self) -> (k: ToolKind) {
        ToolKind::SearchContacts
    }
}

pub fn search_contacts_info() -> (i: ToolInfo)
    ensures
        i@ == tool_info_spec(ToolKind::SearchContacts),
{
    let params: Vec<ParamSpec> = vec![ParamSpec { name: "query", kind: ParamKind::Str, description: None, default: None }];
    assert(params_view(params@) =~= tool_params_spec(ToolKind::SearchContacts));
    let required: Vec<&'static str> = vec!["query"];
    assert(names_view(required@) =~= tool_required_spec(ToolKind::SearchContacts)->Some_0);
    build_info("search_contacts", "Search your Telegram contacts.", params, Some(required))
}

/// The request that `search_contacts` makes of its arguments, or the error that it
/// answers them with.
pub open spec fn search_contacts_call(a: JsonModel) -> Result<CallModel, ErrorModel> {
    match arg_str_spec(a, "query"@) {
        Some(query) => Ok(CallModel::SearchContacts { query: query }),
        None => Err(invalid_params_spec("query is required"@)),
    }
}

pub fn prepare_search_contacts(args: &JsonValue) -> (r: Result<ServiceCall, JsonRpcError>)
    ensures
        prepared_view(r) == search_contacts_call(args@),
{
    let query = match arg_str(args, "query") {
        Some(s) => s,
        None => return Err(invalid_params("query is required")),
    };
    Ok(ServiceCall::SearchContacts { query: query })
}

/// `add_contact`: Add a user to your Telegram contacts.
#[derive(Debug)]
pub struct AddContactTool;

impl Tool for AddContactTool {
    open spec fn kind_spec(&self) -> ToolKind {
        ToolKind::AddContact
    }

    fn kind(&self) -> (k: ToolKind) {
        ToolKind::AddContact
    }
}

pub fn add_contact_info() -> (i: ToolInfo)
    ensures
        i@ == tool_info_spec(ToolKind::AddContact),
{
    let params: Vec<ParamSpec> = vec![ParamSpec { name: "user_id", kind: ParamKind::Integer, description: None, default: None }, ParamSpec { name: "first_name", kind: ParamKind::Str, description: None, default: None }, ParamSpec { name: "last_name", kind: ParamKind::Str, description: None, default: None }, ParamSpec { name: "phone", kind: ParamKind::Str, description: None, default: None }];
    assert(params_view(params@) =~= tool_params_spec(ToolKind::AddContact));
    let required: Vec<&'static str> = vec!["user_id", "first_name"];
    assert(names_view(required@) =~= tool_required_spec(ToolKind::AddContact)->Some_0);
    build_info("add_contact", "Add a user to your Telegram contacts.", params, Some(required))
}

/// The request that `add_contact` makes of its arguments, or the error that it
/// answers them with.
pub open spec fn add_contact_call(a: JsonModel) -> Result<CallModel, ErrorModel> {
    match arg_i64_spec(a, "user_id"@) {
        Some(user_id) => match arg_str_spec(a, "first_name"@) {
        Some(first_name) => {
        let last_name = match arg_str_spec(a, "last_name"@) {
            Some(s) => s,
            None => ""@,
        };
        {
        let phone = match arg_str_spec(a, "phone"@) {
            Some(s) => s,
            None => ""@,
        };
        Ok(CallModel::AddContact { user_id: user_id, first_name: first_name, last_name: last_name, phone: phone })
    }
    },
        None => Err(invalid_params_spec("first_name is required"@)),
    },
        None => Err(invalid_params_spec("user_id is required"@)),
    }
}

pub fn prepare_add_contact(args: &JsonValue) -> (r: Result<ServiceCall, JsonRpcError>)
    ensures
        prepared_view(r) == add_contact_call(args@),
{
    let user_id = match arg_i64(args, "user_id") {
        Some(n) => n,
        None => return Err(invalid_params("user_id is required")),
    };
    let first_name = match arg_str(args, "first_name") {
        Some(s) => s,
        None => return Err(invalid_params("first_name is required")),
    };
    let last_name = match arg_str(args, "last_name") {
        Some(s) => s,
        None => String::from_str(""),
    };
    let phone = match arg_str(args, "phone") {
        Some(s) => s,
        None => String::from_str(""),
    };
    Ok(ServiceCall::AddContact { user_id: user_id, first_name: first_name, last_name: last_name, phone: phone })
}

/// `delete_contact`: Remove a user from your Telegram contacts.
#[derive(Debug)]
pub struct DeleteContactTool;

impl Tool for DeleteContactTool {
    open spec fn kind_spec(&self) -> ToolKind {
        ToolKind::DeleteContact
    }

    fn kind(&self) -> (k: ToolKind) {
        ToolKind::DeleteContact
    }
}

pub fn delete_contact_info() -> (i: ToolInfo)
    ensures
        i@ == tool_info_spec(ToolKind::DeleteContact),
{
    let params: Vec<ParamSpec> = vec![ParamSpec { name: "user_id", kind: ParamKind::Integer, description: None, default: None }];
    assert(params_view(params@) =~= tool_params_spec(ToolKind::DeleteContact));
    let required: Vec<&'static str> = vec!["user_id"];
    assert(names_view(required@) =~= tool_required_spec(ToolKind::DeleteContact)->Some_0);
    build_info("delete_contact", "Remove a user from your Telegram contacts.", params, Some(required))
}

/// The request that `delete_contact` makes of its arguments, or the error that it
/// answers them with.
pub open spec fn delete_contact_call(a: JsonModel) -> Result<CallModel, ErrorModel> {
    match arg_i64_spec(a, "user_id"@) {
        Some(user_id) => Ok(CallModel::DeleteContact { user_id: user_id }),
        None => Err(invalid_params_spec("user_id is required"@)),
    }
}

pub fn prepare_delete_contact(args: &JsonValue) -> (r: Result<ServiceCall, JsonRpcError>)
    ensures
        prepared_view(r) == delete_contact_call(args@),
{
    let user_id = match arg_i64(args, "user_id") {
        Some(n) => n,
        None => return Err(invalid_params("user_id is required")),
    };
    Ok(ServiceCall::DeleteContact { user_id: user_id })
}

/// `block_user`: Block a user or peer.
#[derive(Debug)]
pub struct BlockUserTool;

impl Tool for BlockUserTool {
    open spec fn kind_spec(&self) -> ToolKind {
        ToolKind::BlockUser
    }

    fn kind(&self) -> (k: ToolKind) {
        ToolKind::BlockUser
    }
}

pub fn block_user_info() -> (i: ToolInfo)
    ensures
        i@ == tool_info_spec(ToolKind::BlockUser),
{
    let params: Vec<ParamSpec> = vec![ParamSpec { name: "peer_id", kind: ParamKind::Integer, description: None, default: None }];
    assert(params_view(params@) =~= tool_params_spec(ToolKind::BlockUser));
    let required: Vec<&'static str> = vec!["peer_id"];
    assert(names_view(required@) =~= tool_required_spec(ToolKind::BlockUser)->Some_0);
    build_info("block_user", "Block a user or peer.", params, Some(required))
}

/// The request that `block_user` makes of its arguments, or the error that it
/// answers them with.
pub open spec fn block_user_call(a: JsonModel) -> Result<CallModel, ErrorModel> {
    match arg_i64_spec(a, "peer_id"@) {
        Some(peer_id) => Ok(CallModel::BlockUser { peer_id: peer_id }),
        None => Err(invalid_params_spec("peer_id is required"@)),
    }
}

pub fn prepare_block_user(args: &JsonValue) -> (r: Result<ServiceCall, JsonRpcError>)
    ensures
        prepared_view(r) == block_user_call(args@),
{
    let peer_id = match arg_i64(args, "peer_id") {
        Some(n) => n,
        None => return Err(invalid_params("peer_id is required")),
    };
    Ok(ServiceCall::BlockUser { peer_id: peer_id })
}

/// `unblock_user`: Unblock a user or peer.
#[derive(Debug)]
pub struct UnblockUserTool;

impl Tool for UnblockUserTool {
    open spec fn kind_spec(&self) -> ToolKind {
        ToolKind::UnblockUser
    }

    fn kind(&self) -> (k: ToolKind) {
        ToolKind::UnblockUser
    }
}

pub fn unblock_user_info() -> (i: ToolInfo)
    ensures
        i@ == tool_info_spec(ToolKind::UnblockUser),
{
    let params: Vec<ParamSpec> = vec![ParamSpec { name: "peer_id", kind: ParamKind::Integer, description: None, default: None }];
    assert(params_view(params@) =~= tool_params_spec(ToolKind::UnblockUser));
    let required: Vec<&'static str> = vec!["peer_id"];
    assert(names_view(required@) =~= tool_required_spec(ToolKind::UnblockUser)->Some_0);
    build_info("unblock_user", "Unblock a user or peer.", params, Some(required))
}

/// The request that `unblock_user` makes of its arguments, or the error that it
/// answers them with.
pub open spec fn unblock_user_call(a: JsonModel) -> Result<CallModel, ErrorModel> {
    match arg_i64_spec(a, "peer_id"@) {
        Some(peer_id) => Ok(CallModel::UnblockUser { peer_id: peer_id }),
        None => Err(invalid_params_spec("peer_id is required"@)),
    }
}

pub fn prepare_unblock_user(args: &JsonValue) -> (r: Result<ServiceCall, JsonRpcError>)
    ensures
        prepared_view(r) == unblock_user_call(args@),
{
    let peer_id = match arg_i64(args, "peer_id") {
        Some(n) => n,
        None => return Err(invalid_params("peer_id is required")),
    };
    Ok(ServiceCall::UnblockUser { peer_id: peer_id })
}

/// `get_blocked_users`: Get blocked users.
#[derive(Debug)]
pub struct GetBlockedUsersTool;

impl Tool for GetBlockedUsersTool {
    open spec fn kind_spec(&self) -> ToolKind {
        ToolKind::GetBlockedUsers
    }

    fn kind(&self) -> (k: ToolKind) {
        ToolKind::GetBlockedUsers
    }
}

pub fn get_blocked_users_info() -> (i: ToolInfo)
    ensures
        i@ == tool_info_spec(ToolKind::GetBlockedUsers),
{
    let params: Vec<ParamSpec> = Vec::new();
    assert(params_view(params@) =~= tool_params_spec(ToolKind::GetBlockedUsers));
    build_info("get_blocked_users", "Get blocked users.", params, None)
}

/// The request that `get_blocked_users` makes of its arguments, or the error that it
/// answers them with.
pub open spec fn get_blocked_users_call(a: JsonModel) -> Result<CallModel, ErrorModel> {
    Ok(CallModel::GetBlockedUsers)
}

pub fn prepare_get_blocked_users(args: &JsonValue) -> (r: Result<ServiceCall, JsonRpcError>)
    ensures
        prepared_view(r) == get_blocked_users_call(args@),
{
    Ok(ServiceCall::GetBlockedUsers)
}

/// `import_contacts`: Import contacts.
#[derive(Debug)]
pub struct ImportContactsTool;

impl Tool for ImportContactsTool {
    open spec fn kind_spec(&self) -> ToolKind {
        ToolKind::ImportContacts
    }

    fn kind(&self) -> (k: ToolKind) {
        ToolKind::ImportContacts
    }
}

pub fn import_contacts_info() -> (i: ToolInfo)
    ensures
        i@ == tool_info_spec(ToolKind::ImportContacts),
{
    let params: Vec<ParamSpec> = vec![ParamSpec { name: "contacts", kind: ParamKind::Array, description: None, default: None }];
    assert(params_view(params@) =~= tool_params_spec(ToolKind::ImportContacts));
    let required: Vec<&'static str> = vec!["contacts"];
    assert(names_view(required@) =~= tool_required_spec(ToolKind::ImportContacts)->Some_0);
    build_info("import_contacts", "Import contacts.", params, Some(required))
}

/// The request that `import_contacts` makes of its arguments, or the error that it
/// answers them with.
pub open spec fn import_contacts_call(a: JsonModel) -> Result<CallModel, ErrorModel> {
    {
        let contacts = Seq::empty();
        Ok(CallModel::ImportContacts { contacts: contacts })
    }
}

pub fn prepare_import_contacts(args: &JsonValue) -> (r: Result<ServiceCall, JsonRpcError>)
    ensures
        prepared_view(r) == import_contacts_call(args@),
{
    let contacts = Vec::new();
    assert(crate::service::triples_view(contacts@) =~= Seq::empty());
    Ok(ServiceCall::ImportContacts { contacts: contacts })
}

/// `export_contacts`: Export contacts.
#[derive(Debug)]
pub struct ExportContactsTool;

impl Tool for ExportContactsTool {
    open spec fn kind_spec(&self) -> ToolKind {
        ToolKind::ExportContacts
    }

    fn kind(&self) -> (k: ToolKind) {
        ToolKind::ExportContacts
    }
}

pub fn export_contacts_info() -> (i: ToolInfo)
    ensures
        i@ == tool_info_spec(ToolKind::ExportContacts),
{
    let params: Vec<ParamSpec> = Vec::new();
    assert(params_view(params@) =~= tool_params_spec(ToolKind::ExportContacts));
    build_info("export_contacts", "Export contacts.", params, None)
}

/// The request that `export_contacts` makes of its arguments, or the error that it
/// answers them with.
pub open spec fn export_contacts_call(a: JsonModel) -> Result<CallModel, ErrorModel> {
    Ok(CallModel::ExportContacts)
}

pub fn prepare_export_contacts(args: &JsonValue) -> (r: Result<ServiceCall, JsonRpcError>)
    ensures
        prepared_view(r) == export_contacts_call(args@),
{
    Ok(ServiceCall::ExportContacts)
}

/// `get_contact_ids`: Get contact ids.
#[derive(Debug)]
pub struct GetContactIdsTool;

impl Tool for GetContactIdsTool {
    open spec fn kind_spec(&self) -> ToolKind {
        ToolKind::GetContactIds
    }

    fn kind(&self) -> (k: ToolKind) {
        ToolKind::GetContactIds
    }
}

pub fn get_contact_ids_info() -> (i: ToolInfo)
    ensures
        i@ == tool_info_spec(ToolKind::GetContactIds),
{
    let params: Vec<ParamSpec> = Vec::new();
    assert(params_view(params@) =~= tool_params_spec(ToolKind::GetContactIds));
    build_info("get_contact_ids", "Get contact ids.", params, None)
}

/// The request that `get_contact_ids` makes of its arguments, or the error that it
/// answers them with.
pub open spec fn get_contact_ids_call(a: JsonModel) -> Result<CallModel, ErrorModel> {
    Ok(CallModel::GetContactIds)
}

pub fn prepare_get_contact_ids(args: &JsonValue) -> (r: Result<ServiceCall, JsonRpcError>)
    ensures
        prepared_view(r) == get_contact_ids_call(args@),
{
    Ok(ServiceCall::GetContactIds)
}

/// `get_direct_chat_by_contact`: Get direct chat by contact.
#[derive(Debug)]
pub struct GetDirectChatByContactTool;

impl Tool for GetDirectChatByContactTool {
    open spec fn kind_spec(&self) -> ToolKind {
        ToolKind::GetDirectChatByContact
    }

    fn kind(&self) -> (k: ToolKind) {
        ToolKind::GetDirectChatByContact
    }
}

pub fn get_direct_chat_by_contact_info() -> (i: ToolInfo)
    ensures
        i@ == tool_info_spec(ToolKind::GetDirectChatByContact),
{
    let params: Vec<ParamSpec> = vec![ParamSpec { name: "contact_query", kind: ParamKind::Str, description: None, default: None }];
    assert(params_view(params@) =~= tool_params_spec(ToolKind::GetDirectChatByContact));
    let required: Vec<&'static str> = vec!["contact_query"];
    assert(names_view(required@) =~= tool_required_spec(ToolKind::GetDirectChatByContact)->Some_0);
    build_info("get_direct_chat_by_contact", "Get direct chat by contact.", params, Some(required))
}

/// The request that `get_direct_chat_by_contact` makes of its arguments, or the error that it
/// answers them with.
pub open spec fn get_direct_chat_by_contact_call(a: JsonModel) -> Result<CallModel, ErrorModel> {
    {
        let contact_query = match arg_str_spec(a, "contact_query"@) {
            Some(s) => s,
            None => ""@,
        };
        Ok(CallModel::GetDirectChatByContact { contact_query: contact_query })
    }
}

pub fn prepare_get_direct_chat_by_contact(args: &JsonValue) -> (r: Result<ServiceCall, JsonRpcError>)
    ensures
        prepared_view(r) == get_direct_chat_by_contact_call(args@),
{
    let contact_query = match arg_str(args, "contact_query") {
        Some(s) => s,
        None => String::from_str(""),
    };
    Ok(ServiceCall::GetDirectChatByContact { contact_query: contact_query })
}

/// `get_contact_chats`: Get contact chats.
#[derive(Debug)]
pub struct GetContactChatsTool;

impl Tool for GetContactChatsTool {
    open spec fn kind_spec(&self) -> ToolKind {
        ToolKind::GetContactChats
    }

    fn kind(&self) -> (k: ToolKind) {
        ToolKind::GetContactChats
    }
}

pub fn get_contact_chats_info() -> (i: ToolInfo)
    ensures
        i@ == tool_info_spec(ToolKind::GetContactChats),
{
    let params: Vec<ParamSpec> = vec![ParamSpec { name: "contact_id", kind: ParamKind::Integer, description: None, default: None }];
    assert(params_view(params@) =~= tool_params_spec(ToolKind::GetContactChats));
    let required: Vec<&'static str> = vec!["contact_id"];
    assert(names_view(required@) =~= tool_required_spec(ToolKind::GetContactChats)->Some_0);
    build_info("get_contact_chats", "Get contact chats.", params, Some(required))
}

/// The request that `get_contact_chats` makes of its arguments, or the error that it
/// answers them with.
pub open spec fn get_contact_chats_call(a: JsonModel) -> Result<CallModel, ErrorModel> {
    match arg_i64_spec(a, "contact_id"@) {
        Some(contact_id) => Ok(CallModel::GetContactChats { contact_id: contact_id }),
        None => Err(invalid_params_spec("contact_id is required"@)),
    }
}

pub fn prepare_get_contact_chats(args: &JsonValue) -> (r: Result<ServiceCall, JsonRpcError>)
    ensures
        prepared_view(r) == get_contact_chats_call(args@),
{
    let contact_id = match arg_i64(args, "contact_id") {
        Some(n) => n,
        None => return Err(invalid_params("contact_id is required")),
    };
    Ok(ServiceCall::GetContactChats { contact_id: contact_id })
}

/// `get_last_interaction`: Get last interaction.
#[derive(Debug)]
pub struct GetLastInteractionTool;

impl Tool for GetLastInteractionTool {
    open spec fn kind_spec(&self) -> ToolKind {
        ToolKind::GetLastInteraction
    }

    fn kind(&self) -> (k: ToolKind) {
        ToolKind::GetLastInteraction
    }
}

pub fn get_last_interaction_info() -> (i: ToolInfo)
    ensures
        i@ == tool_info_spec(ToolKind::GetLastInteraction),
{
    let params: Vec<ParamSpec> = vec![ParamSpec { name: "contact_id", kind: ParamKind::Integer, description: None, default: None }];
    assert(params_view(params@) =~= tool_params_spec(ToolKind::GetLastInteraction));
    let required: Vec<&'static str> = vec!["contact_id"];
    assert(names_view(required@) =~= tool_required_spec(ToolKind::GetLastInteraction)->Some_0);
    build_info("get_last_interaction", "Get last interaction.", params, Some(required))
}

/// The request that `get_last_interaction` makes of its arguments, or the error that it
/// answers them with.
pub open spec fn get_last_interaction_call(a: JsonModel) -> Result<CallModel, ErrorModel> {
    match arg_i64_spec(a, "contact_id"@) {
        Some(contact_id) => Ok(CallModel::GetLastInteraction { contact_id: contact_id }),
        None => Err(invalid_params_spec("contact_id is required"@)),
    }
}

pub fn prepare_get_last_interaction(args: &JsonValue) -> (r: Result<ServiceCall, JsonRpcError>)
    ensures
        prepared_view(r) == get_last_interaction_call(args@),
{
    let contact_id = match arg_i64(args, "contact_id") {
        Some(n) => n,
        None => return Err(invalid_params("contact_id is required")),
    };
    Ok(ServiceCall::GetLastInteraction { contact_id: contact_id })
}

} // verus!
