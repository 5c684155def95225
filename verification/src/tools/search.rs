//! Tools that search Telegram. No registry lists them.
use vstd::prelude::*;
use vstd::string::*;
use crate::json::{JsonModel, JsonValue};
use crate::protocol::{invalid_params, invalid_params_spec, ErrorModel, JsonRpcError};
use crate::service::{CallModel, ServiceCall};
use crate::tools::args::{arg_array, arg_array_spec, arg_bool, arg_bool_spec, arg_i64, arg_i64_spec, arg_str, arg_str_spec};
use crate::tools::schema::{build_info, names_view, params_view, ParamDefault, ParamKind, ParamModel, ParamSpec, ToolInfo};
use crate::tools::{prepared_view, tool_info_spec, tool_params_spec, tool_required_spec, Tool, ToolKind};

verus! {

/// `search_global`: Search for messages globally across all chats.
#[derive(Debug)]
pub struct SearchGlobalTool;

impl Tool for SearchGlobalTool {
    open spec fn kind_spec(&self) -> ToolKind {
        ToolKind::SearchGlobal
    }

    fn kind(&self) -> (k: ToolKind) {
        ToolKind::SearchGlobal
    }
}

pub fn search_global_info() -> (i: ToolInfo)
    ensures
        i@ == tool_info_spec(ToolKind::SearchGlobal),
{
    let params: Vec<ParamSpec> = vec![ParamSpec { name: "query", kind: ParamKind::Str, description: None, default: None }];
    assert(params_view(params@) =~= tool_params_spec(ToolKind::SearchGlobal));
    let required: Vec<&'static str> = vec!["query"];
    assert(names_view(required@) =~= tool_required_spec(ToolKind::SearchGlobal)->Some_0);
    build_info("search_global", "Search for messages globally across all chats.", params, Some(required))
}

/// The request that `search_global` makes of its arguments, or the error that it
/// answers them with.
pub open spec fn search_global_call(a: JsonModel) -> Result<CallModel, ErrorModel> {
    match arg_str_spec(a, "query"@) {
        Some(query) => Ok(CallModel::SearchGlobal { query: query }),
        None => Err(invalid_params_spec("query is required"@)),
    }
}

pub fn prepare_search_global(args: &JsonValue) -> (r: Result<ServiceCall, JsonRpcError>)
    ensures
        prepared_view(r) == search_global_call(args@),
{
    let query = match arg_str(args, "query") {
        Some(s) => s,
        None => return Err(invalid_params("query is required")),
    };
    Ok(ServiceCall::SearchGlobal { query: query })
}

/// `search_public_chats`: Search for public chats and channels.
#[derive(Debug)]
pub struct SearchPublicChatsTool;

impl Tool for SearchPublicChatsTool {
    open spec fn kind_spec(&self) -> ToolKind {
        ToolKind::SearchPublicChats
    }

    fn kind(&self) -> (k: ToolKind) {
        ToolKind::SearchPublicChats
    }
}

pub fn search_public_chats_info() -> (i: ToolInfo)
    ensures
        i@ == tool_info_spec(ToolKind::SearchPublicChats),
{
    let params: Vec<ParamSpec> = vec![ParamSpec { name: "query", kind: ParamKind::Str, description: None, default: None }];
    assert(params_view(params@) =~= tool_params_spec(ToolKind::SearchPublicChats));
    let required: Vec<&'static str> = vec!["query"];
    assert(names_view(required@) =~= tool_required_spec(ToolKind::SearchPublicChats)->Some_0);
    build_info("search_public_chats", "Search for public chats and channels.", params, Some(required))
}

/// The request that `search_public_chats` makes of its arguments, or the error that it
/// answers them with.
pub open spec fn search_public_chats_call(a: JsonModel) -> Result<CallModel, ErrorModel> {
    match arg_str_spec(a, "query"@) {
        Some(query) => Ok(CallModel::SearchPublicChats { query: query }),
        None => Err(invalid_params_spec("query is required"@)),
    }
}

pub fn prepare_search_public_chats(args: &JsonValue) -> (r: Result<ServiceCall, JsonRpcError>)
    ensures
        prepared_view(r) == search_public_chats_call(args@),
{
    let query = match arg_str(args, "query") {
        Some(s) => s,
        None => return Err(invalid_params("query is required")),
    };
    Ok(ServiceCall::SearchPublicChats { query: query })
}

/// `subscribe_public_channel`: Subscribe to a public channel by its username.
#[derive(Debug)]
pub struct SubscribePublicChannelTool;

impl Tool for SubscribePublicChannelTool {
    open spec fn kind_spec(&self) -> ToolKind {
        ToolKind::SubscribePublicChannel
    }

    fn kind(&self) -> (k: ToolKind) {
        ToolKind::SubscribePublicChannel
    }
}

pub fn subscribe_public_channel_info() -> (i: ToolInfo)
    ensures
        i@ == tool_info_spec(ToolKind::SubscribePublicChannel),
{
    let params: Vec<ParamSpec> = vec![ParamSpec { name: "query", kind: ParamKind::Str, description: None, default: None }];
    assert(params_view(params@) =~= tool_params_spec(ToolKind::SubscribePublicChannel));
    let required: Vec<&'static str> = vec!["query"];
    assert(names_view(required@) =~= tool_required_spec(ToolKind::SubscribePublicChannel)->Some_0);
    build_info("subscribe_public_channel", "Subscribe to a public channel by its username.", params, Some(required))
}

/// The request that `subscribe_public_channel` makes of its arguments, or the error that it
/// answers them with.
pub open spec fn subscribe_public_channel_call(a: JsonModel) -> Result<CallModel, ErrorModel> {
    match arg_str_spec(a, "query"@) {
        Some(query) => Ok(CallModel::SubscribePublicChannel { query: query }),
        None => Err(invalid_params_spec("query is required"@)),
    }
}

pub fn prepare_subscribe_public_channel(args: &JsonValue) -> (r: Result<ServiceCall, JsonRpcError>)
    ensures
        prepared_view(r) == subscribe_public_channel_call(args@),
{
    let query = match arg_str(args, "query") {
        Some(s) => s,
        None => return Err(invalid_params("query is required")),
    };
    Ok(ServiceCall::SubscribePublicChannel { query: query })
}

/// `get_common_chats`: Get common chats with a user.
#[derive(Debug)]
pub struct GetCommonChatsTool;

impl Tool for GetCommonChatsTool {
    open spec fn kind_spec(&self) -> ToolKind {
        ToolKind::GetCommonChats
    }

    fn kind(&self) -> (k: ToolKind) {
        ToolKind::GetCommonChats
    }
}

pub fn get_common_chats_info() -> (i: ToolInfo)
    ensures
        i@ == tool_info_spec(ToolKind::GetCommonChats),
{
    let params: Vec<ParamSpec> = vec![ParamSpec { name: "user_id", kind: ParamKind::Integer, description: None, default: None }];
    assert(params_view(params@) =~= tool_params_spec(ToolKind::GetCommonChats));
    let required: Vec<&'static str> = vec!["user_id"];
    assert(names_view(required@) =~= tool_required_spec(ToolKind::GetCommonChats)->Some_0);
    build_info("get_common_chats", "Get common chats with a user.", params, Some(required))
}

/// The request that `get_common_chats` makes of its arguments, or the error that it
/// answers them with.
pub open spec fn get_common_chats_call(a: JsonModel) -> Result<CallModel, ErrorModel> {
    match arg_i64_spec(a, "user_id"@) {
        Some(user_id) => Ok(CallModel::GetCommonChats { user_id: user_id }),
        None => Err(invalid_params_spec("user_id is required"@)),
    }
}

pub fn prepare_get_common_chats(args: &JsonValue) -> (r: Result<ServiceCall, JsonRpcError>)
    ensures
        prepared_view(r) == get_common_chats_call(args@),
{
    let user_id = match arg_i64(args, "user_id") {
        Some(n) => n,
        None => return Err(invalid_params("user_id is required")),
    };
    Ok(ServiceCall::GetCommonChats { user_id: user_id })
}

/// `list_topics`: List forum topics in a supergroup.
#[derive(Debug)]
pub struct ListTopicsTool;

impl Tool for ListTopicsTool {
    open spec fn kind_spec(&self) -> ToolKind {
        ToolKind::ListTopics
    }

    fn kind(&self) -> (k: ToolKind) {
        ToolKind::ListTopics
    }
}

pub fn list_topics_info() -> (i: ToolInfo)
    ensures
        i@ == tool_info_spec(ToolKind::ListTopics),
{
    let params: Vec<ParamSpec> = vec![ParamSpec { name: "peer_id", kind: ParamKind::Integer, description: None, default: None }];
    assert(params_view(params@) =~= tool_params_spec(ToolKind::ListTopics));
    let required: Vec<&'static str> = vec!["peer_id"];
    assert(names_view(required@) =~= tool_required_spec(ToolKind::ListTopics)->Some_0);
    build_info("list_topics", "List forum topics in a supergroup.", params, Some(required))
}

/// The request that `list_topics` makes of its arguments, or the error that it
/// answers them with.
pub open spec fn list_topics_call(a: JsonModel) -> Result<CallModel, ErrorModel> {
    match arg_i64_spec(a, "peer_id"@) {
        Some(peer_id) => Ok(CallModel::ListTopics { peer_id: peer_id }),
        None => Err(invalid_params_spec("peer_id is required"@)),
    }
}

pub fn prepare_list_topics(args: &JsonValue) -> (r: Result<ServiceCall, JsonRpcError>)
    ensures
        prepared_view(r) == list_topics_call(args@),
{
    let peer_id = match arg_i64(args, "peer_id") {
        Some(n) => n,
        None => return Err(invalid_params("peer_id is required")),
    };
    Ok(ServiceCall::ListTopics { peer_id: peer_id })
}

/// `get_privacy_settings`: Get Telegram privacy settings.
#[derive(Debug)]
pub struct GetPrivacySettingsTool;

impl Tool for GetPrivacySettingsTool {
    open spec fn kind_spec(&self) -> ToolKind {
        ToolKind::GetPrivacySettings
    }

    fn kind(&self) -> (k: ToolKind) {
        ToolKind::GetPrivacySettings
    }
}

pub fn get_privacy_settings_info() -> (i: ToolInfo)
    ensures
        i@ == tool_info_spec(ToolKind::GetPrivacySettings),
{
    let params: Vec<ParamSpec> = Vec::new();
    assert(params_view(params@) =~= tool_params_spec(ToolKind::GetPrivacySettings));
    build_info("get_privacy_settings", "Get Telegram privacy settings.", params, None)
}

/// The request that `get_privacy_settings` makes of its arguments, or the error that it
/// answers them with.
pub open spec fn get_privacy_settings_call(a: JsonModel) -> Result<CallModel, ErrorModel> {
    Ok(CallModel::GetPrivacySettings)
}

pub fn prepare_get_privacy_settings(args: &JsonValue) -> (r: Result<ServiceCall, JsonRpcError>)
    ensures
        prepared_view(r) == get_privacy_settings_call(args@),
{
    Ok(ServiceCall::GetPrivacySettings)
}

/// `set_privacy_settings`: Set Telegram privacy settings.
#[derive(Debug)]
pub struct SetPrivacySettingsTool;

impl Tool for SetPrivacySettingsTool {
    open spec fn kind_spec(&self) -> ToolKind {
        ToolKind::SetPrivacySettings
    }

    fn kind(&self) -> (k: ToolKind) {
        ToolKind::SetPrivacySettings
    }
}

pub fn set_privacy_settings_info() -> (i: ToolInfo)
    ensures
        i@ == tool_info_spec(ToolKind::SetPrivacySettings),
{
    let params: Vec<ParamSpec> = vec![ParamSpec { name: "key", kind: ParamKind::Str, description: None, default: None }, ParamSpec { name: "value", kind: ParamKind::Str, description: None, default: None }];
    assert(params_view(params@) =~= tool_params_spec(ToolKind::SetPrivacySettings));
    let required: Vec<&'static str> = vec!["key", "value"];
    assert(names_view(required@) =~= tool_required_spec(ToolKind::SetPrivacySettings)->Some_0);
    build_info("set_privacy_settings", "Set Telegram privacy settings.", params, Some(required))
}

/// The request that `set_privacy_settings` makes of its arguments, or the error that it
/// answers them with.
pub open spec fn set_privacy_settings_call(a: JsonModel) -> Result<CallModel, ErrorModel> {
    match arg_str_spec(a, "key"@) {
        Some(key) => match arg_str_spec(a, "value"@) {
        Some(value) => Ok(CallModel::SetPrivacySettings { key: key, value: value }),
        None => Err(invalid_params_spec("value is required"@)),
    },
        None => Err(invalid_params_spec("key is required"@)),
    }
}

pub fn prepare_set_privacy_settings(args: &JsonValue) -> (r: Result<ServiceCall, JsonRpcError>)
    ensures
        prepared_view(r) == set_privacy_settings_call(args@),
{
    let key = match arg_str(args, "key") {
        Some(s) => s,
        None => return Err(invalid_params("key is required")),
    };
    let value = match arg_str(args, "value") {
        Some(s) => s,
        None => return Err(invalid_params("value is required")),
    };
    Ok(ServiceCall::SetPrivacySettings { key: key, value: value })
}

} // verus!
