//! Tools that send and fetch files and media.
use vstd::prelude::*;
use vstd::string::*;
use crate::json::{JsonModel, JsonValue, collect_strs, strs_of};
use crate::protocol::{invalid_params, invalid_params_spec, ErrorModel, JsonRpcError};
use crate::service::{CallModel, ServiceCall};
use crate::tools::args::{arg_array, arg_array_spec, arg_bool, arg_bool_spec, arg_i64, arg_i64_spec, arg_str, arg_str_spec};
use crate::tools::schema::{build_info, names_view, params_view, ParamDefault, ParamKind, ParamModel, ParamSpec, ToolInfo};
use crate::tools::{prepared_view, tool_info_spec, tool_params_spec, tool_required_spec, Tool, ToolKind};

verus! {

/// `send_file`: Send a local file to a chat.
#[derive(Debug)]
pub struct SendFileTool;

impl Tool for SendFileTool {
    open spec fn kind_spec(&self) -> ToolKind {
        ToolKind::SendFile
    }

    fn kind(&self) -> (k: ToolKind) {
        ToolKind::SendFile
    }
}

pub fn send_file_info() -> (i: ToolInfo)
    ensures
        i@ == tool_info_spec(ToolKind::SendFile),
{
    let params: Vec<ParamSpec> = vec![ParamSpec { name: "chat_id", kind: ParamKind::Integer, description: None, default: None }, ParamSpec { name: "path", kind: ParamKind::Str, description: None, default: None }, ParamSpec { name: "caption", kind: ParamKind::Str, description: None, default: None }];
    assert(params_view(params@) =~= tool_params_spec(ToolKind::SendFile));
    let required: Vec<&'static str> = vec!["chat_id", "path"];
    assert(names_view(required@) =~= tool_required_spec(ToolKind::SendFile)->Some_0);
    build_info("send_file", "Send a local file to a chat.", params, Some(required))
}

/// The request that `send_file` makes of its arguments, or the error that it
/// answers them with.
pub open spec fn send_file_call(a: JsonModel) -> Result<CallModel, ErrorModel> {
    match arg_i64_spec(a, "chat_id"@) {
        Some(chat_id) => match arg_str_spec(a, "path"@) {
        Some(path) => {
        let caption = arg_str_spec(a, "caption"@);
        Ok(CallModel::SendFile { peer_id: chat_id, path: path, caption: caption })
    },
        None => Err(invalid_params_spec("path is required"@)),
    },
        None => Err(invalid_params_spec("chat_id is required"@)),
    }
}

pub fn prepare_send_file(args: &JsonValue) -> (r: Result<ServiceCall, JsonRpcError>)
    ensures
        prepared_view(r) == send_file_call(args@),
{
    let chat_id = match arg_i64(args, "chat_id") {
        Some(n) => n,
        None => return Err(invalid_params("chat_id is required")),
    };
    let path = match arg_str(args, "path") {
        Some(s) => s,
        None => return Err(invalid_params("path is required")),
    };
    let caption = arg_str(args, "caption");
    Ok(ServiceCall::SendFile { peer_id: chat_id, path: path, caption: caption })
}

/// `send_album`: Send multiple files as an album.
#[derive(Debug)]
pub struct SendAlbumTool;

impl Tool for SendAlbumTool {
    open spec fn kind_spec(&self) -> ToolKind {
        ToolKind::SendAlbum
    }

    fn kind(&self) -> (k: ToolKind) {
        ToolKind::SendAlbum
    }
}

pub fn send_album_info() -> (i: ToolInfo)
    ensures
        i@ == tool_info_spec(ToolKind::SendAlbum),
{
    let params: Vec<ParamSpec> = vec![ParamSpec { name: "chat_id", kind: ParamKind::Integer, description: None, default: None }, ParamSpec { name: "paths", kind: ParamKind::StringArray, description: None, default: None }, ParamSpec { name: "caption", kind: ParamKind::Str, description: None, default: None }];
    assert(params_view(params@) =~= tool_params_spec(ToolKind::SendAlbum));
    let required: Vec<&'static str> = vec!["chat_id", "paths"];
    assert(names_view(required@) =~= tool_required_spec(ToolKind::SendAlbum)->Some_0);
    build_info("send_album", "Send multiple files as an album.", params, Some(required))
}

/// The request that `send_album` makes of its arguments, or the error that it
/// answers them with.
pub open spec fn send_album_call(a: JsonModel) -> Result<CallModel, ErrorModel> {
    match arg_i64_spec(a, "chat_id"@) {
        Some(chat_id) => match arg_array_spec(a, "paths"@) {
        Some(items) => {
            let paths = strs_of(items);
            {
        let caption = arg_str_spec(a, "caption"@);
        Ok(CallModel::SendAlbum { peer_id: chat_id, paths: paths, caption: caption })
    }
        },
        None => Err(invalid_params_spec("paths must be an array of strings"@)),
    },
        None => Err(invalid_params_spec("chat_id is required"@)),
    }
}

pub fn prepare_send_album(args: &JsonValue) -> (r: Result<ServiceCall, JsonRpcError>)
    ensures
        prepared_view(r) == send_album_call(args@),
{
    let chat_id = match arg_i64(args, "chat_id") {
        Some(n) => n,
        None => return Err(invalid_params("chat_id is required")),
    };
    let paths = match arg_array(args, "paths") {
        Some(items) => collect_strs(items),
        None => return Err(invalid_params("paths must be an array of strings")),
    };
    let caption = arg_str(args, "caption");
    Ok(ServiceCall::SendAlbum { peer_id: chat_id, paths: paths, caption: caption })
}

/// `download_media`: Download media from a message.
#[derive(Debug)]
pub struct DownloadMediaTool;

impl Tool for DownloadMediaTool {
    open spec fn kind_spec(&self) -> ToolKind {
        ToolKind::DownloadMedia
    }

    fn kind(&self) -> (k: ToolKind) {
        ToolKind::DownloadMedia
    }
}

pub fn download_media_info() -> (i: ToolInfo)
    ensures
        i@ == tool_info_spec(ToolKind::DownloadMedia),
{
    let params: Vec<ParamSpec> = vec![ParamSpec { name: "chat_id", kind: ParamKind::Integer, description: None, default: None }, ParamSpec { name: "message_id", kind: ParamKind::Integer, description: None, default: None }, ParamSpec { name: "path", kind: ParamKind::Str, description: None, default: None }];
    assert(params_view(params@) =~= tool_params_spec(ToolKind::DownloadMedia));
    let required: Vec<&'static str> = vec!["chat_id", "message_id"];
    assert(names_view(required@) =~= tool_required_spec(ToolKind::DownloadMedia)->Some_0);
    build_info("download_media", "Download media from a message.", params, Some(required))
}

/// The request that `download_media` makes of its arguments, or the error that it
/// answers them with.
pub open spec fn download_media_call(a: JsonModel) -> Result<CallModel, ErrorModel> {
    match arg_i64_spec(a, "chat_id"@) {
        Some(chat_id) => match arg_i64_spec(a, "message_id"@) {
        Some(message_id_raw) => {
            let message_id = message_id_raw as i32;
            {
        let path = arg_str_spec(a, "path"@);
        Ok(CallModel::DownloadMedia { peer_id: chat_id, message_id: message_id, path: path })
    }
        },
        None => Err(invalid_params_spec("message_id is required"@)),
    },
        None => Err(invalid_params_spec("chat_id is required"@)),
    }
}

pub fn prepare_download_media(args: &JsonValue) -> (r: Result<ServiceCall, JsonRpcError>)
    ensures
        prepared_view(r) == download_media_call(args@),
{
    let chat_id = match arg_i64(args, "chat_id") {
        Some(n) => n,
        None => return Err(invalid_params("chat_id is required")),
    };
    let message_id = match arg_i64(args, "message_id") {
        Some(n) => n as i32,
        None => return Err(invalid_params("message_id is required")),
    };
    let path = arg_str(args, "path");
    Ok(ServiceCall::DownloadMedia { peer_id: chat_id, message_id: message_id, path: path })
}

/// `get_image`: Get an image from a message as base64 data so the LLM can see it.
#[derive(Debug)]
pub struct GetImageTool;

impl Tool for GetImageTool {
    open spec fn kind_spec(&self) -> ToolKind {
        ToolKind::GetImage
    }

    fn kind(&self) -> (k: ToolKind) {
        ToolKind::GetImage
    }
}

pub fn get_image_info() -> (i: ToolInfo)
    ensures
        i@ == tool_info_spec(ToolKind::GetImage),
{
    let params: Vec<ParamSpec> = vec![ParamSpec { name: "chat_id", kind: ParamKind::Integer, description: None, default: None }, ParamSpec { name: "message_id", kind: ParamKind::Integer, description: None, default: None }];
    assert(params_view(params@) =~= tool_params_spec(ToolKind::GetImage));
    let required: Vec<&'static str> = vec!["chat_id", "message_id"];
    assert(names_view(required@) =~= tool_required_spec(ToolKind::GetImage)->Some_0);
    build_info("get_image", "Get an image from a message as base64 data so the LLM can see it.", params, Some(required))
}

/// The request that `get_image` makes of its arguments, or the error that it
/// answers them with.
pub open spec fn get_image_call(a: JsonModel) -> Result<CallModel, ErrorModel> {
    match arg_i64_spec(a, "chat_id"@) {
        Some(chat_id) => match arg_i64_spec(a, "message_id"@) {
        Some(message_id_raw) => {
            let message_id = message_id_raw as i32;
            Ok(CallModel::DownloadMedia { peer_id: chat_id, message_id: message_id, path: None })
        },
        None => Err(invalid_params_spec("message_id is required"@)),
    },
        None => Err(invalid_params_spec("chat_id is required"@)),
    }
}

pub fn prepare_get_image(args: &JsonValue) -> (r: Result<ServiceCall, JsonRpcError>)
    ensures
        prepared_view(r) == get_image_call(args@),
{
    let chat_id = match arg_i64(args, "chat_id") {
        Some(n) => n,
        None => return Err(invalid_params("chat_id is required")),
    };
    let message_id = match arg_i64(args, "message_id") {
        Some(n) => n as i32,
        None => return Err(invalid_params("message_id is required")),
    };
    Ok(ServiceCall::DownloadMedia { peer_id: chat_id, message_id: message_id, path: None })
}

/// `send_contact`: Send contact.
#[derive(Debug)]
pub struct SendContactTool;

impl Tool for SendContactTool {
    open spec fn kind_spec(&self) -> ToolKind {
        ToolKind::SendContact
    }

    fn kind(&self) -> (k: ToolKind) {
        ToolKind::SendContact
    }
}

pub fn send_contact_info() -> (i: ToolInfo)
    ensures
        i@ == tool_info_spec(ToolKind::SendContact),
{
    let params: Vec<ParamSpec> = vec![ParamSpec { name: "peer_id", kind: ParamKind::Integer, description: None, default: None }, ParamSpec { name: "phone", kind: ParamKind::Str, description: None, default: None }, ParamSpec { name: "first_name", kind: ParamKind::Str, description: None, default: None }, ParamSpec { name: "last_name", kind: ParamKind::Str, description: None, default: None }];
    assert(params_view(params@) =~= tool_params_spec(ToolKind::SendContact));
    let required: Vec<&'static str> = vec!["peer_id", "phone", "first_name", "last_name"];
    assert(names_view(required@) =~= tool_required_spec(ToolKind::SendContact)->Some_0);
    build_info("send_contact", "Send contact.", params, Some(required))
}

/// The request that `send_contact` makes of its arguments, or the error that it
/// answers them with.
pub open spec fn send_contact_call(a: JsonModel) -> Result<CallModel, ErrorModel> {
    match arg_i64_spec(a, "peer_id"@) {
        Some(peer_id) => match arg_str_spec(a, "phone"@) {
        Some(phone) => match arg_str_spec(a, "first_name"@) {
        Some(first_name) => match arg_str_spec(a, "last_name"@) {
        Some(last_name) => Ok(CallModel::SendContact { peer_id: peer_id, phone: phone, first_name: first_name, last_name: last_name }),
        None => Err(invalid_params_spec("last_name is required"@)),
    },
        None => Err(invalid_params_spec("first_name is required"@)),
    },
        None => Err(invalid_params_spec("phone is required"@)),
    },
        None => Err(invalid_params_spec("peer_id is required"@)),
    }
}

pub fn prepare_send_contact(args: &JsonValue) -> (r: Result<ServiceCall, JsonRpcError>)
    ensures
        prepared_view(r) == send_contact_call(args@),
{
    let peer_id = match arg_i64(args, "peer_id") {
        Some(n) => n,
        None => return Err(invalid_params("peer_id is required")),
    };
    let phone = match arg_str(args, "phone") {
        Some(s) => s,
        None => return Err(invalid_params("phone is required")),
    };
    let first_name = match arg_str(args, "first_name") {
        Some(s) => s,
        None => return Err(invalid_params("first_name is required")),
    };
    let last_name = match arg_str(args, "last_name") {
        Some(s) => s,
        None => return Err(invalid_params("last_name is required")),
    };
    Ok(ServiceCall::SendContact { peer_id: peer_id, phone: phone, first_name: first_name, last_name: last_name })
}

/// `send_gif`: Send GIF.
#[derive(Debug)]
pub struct SendGifTool;

impl Tool for SendGifTool {
    open spec fn kind_spec(&self) -> ToolKind {
        ToolKind::SendGif
    }

    fn kind(&self) -> (k: ToolKind) {
        ToolKind::SendGif
    }
}

pub fn send_gif_info() -> (i: ToolInfo)
    ensures
        i@ == tool_info_spec(ToolKind::SendGif),
{
    let params: Vec<ParamSpec> = vec![ParamSpec { name: "peer_id", kind: ParamKind::Integer, description: None, default: None }, ParamSpec { name: "path", kind: ParamKind::Str, description: None, default: None }, ParamSpec { name: "caption", kind: ParamKind::Str, description: None, default: None }];
    assert(params_view(params@) =~= tool_params_spec(ToolKind::SendGif));
    let required: Vec<&'static str> = vec!["peer_id", "path"];
    assert(names_view(required@) =~= tool_required_spec(ToolKind::SendGif)->Some_0);
    build_info("send_gif", "Send GIF.", params, Some(required))
}

/// The request that `send_gif` makes of its arguments, or the error that it
/// answers them with.
pub open spec fn send_gif_call(a: JsonModel) -> Result<CallModel, ErrorModel> {
    match arg_i64_spec(a, "peer_id"@) {
        Some(peer_id) => match arg_str_spec(a, "path"@) {
        Some(path) => {
        let caption = arg_str_spec(a, "caption"@);
        Ok(CallModel::SendGif { peer_id: peer_id, path: path, caption: caption })
    },
        None => Err(invalid_params_spec("path is required"@)),
    },
        None => Err(invalid_params_spec("peer_id is required"@)),
    }
}

pub fn prepare_send_gif(args: &JsonValue) -> (r: Result<ServiceCall, JsonRpcError>)
    ensures
        prepared_view(r) == send_gif_call(args@),
{
    let peer_id = match arg_i64(args, "peer_id") {
        Some(n) => n,
        None => return Err(invalid_params("peer_id is required")),
    };
    let path = match arg_str(args, "path") {
        Some(s) => s,
        None => return Err(invalid_params("path is required")),
    };
    let caption = arg_str(args, "caption");
    Ok(ServiceCall::SendGif { peer_id: peer_id, path: path, caption: caption })
}

/// `send_sticker`: Send sticker.
#[derive(Debug)]
pub struct SendStickerTool;

impl Tool for SendStickerTool {
    open spec fn kind_spec(&self) -> ToolKind {
        ToolKind::SendSticker
    }

    fn kind(&self) -> (k: ToolKind) {
        ToolKind::SendSticker
    }
}

pub fn send_sticker_info() -> (i: ToolInfo)
    ensures
        i@ == tool_info_spec(ToolKind::SendSticker),
{
    let params: Vec<ParamSpec> = vec![ParamSpec { name: "peer_id", kind: ParamKind::Integer, description: None, default: None }, ParamSpec { name: "path", kind: ParamKind::Str, description: None, default: None }];
    assert(params_view(params@) =~= tool_params_spec(ToolKind::SendSticker));
    let required: Vec<&'static str> = vec!["peer_id", "path"];
    assert(names_view(required@) =~= tool_required_spec(ToolKind::SendSticker)->Some_0);
    build_info("send_sticker", "Send sticker.", params, Some(required))
}

/// The request that `send_sticker` makes of its arguments, or the error that it
/// answers them with.
pub open spec fn send_sticker_call(a: JsonModel) -> Result<CallModel, ErrorModel> {
    match arg_i64_spec(a, "peer_id"@) {
        Some(peer_id) => match arg_str_spec(a, "path"@) {
        Some(path) => Ok(CallModel::SendSticker { peer_id: peer_id, path: path }),
        None => Err(invalid_params_spec("path is required"@)),
    },
        None => Err(invalid_params_spec("peer_id is required"@)),
    }
}

pub fn prepare_send_sticker(args: &JsonValue) -> (r: Result<ServiceCall, JsonRpcError>)
    ensures
        prepared_view(r) == send_sticker_call(args@),
{
    let peer_id = match arg_i64(args, "peer_id") {
        Some(n) => n,
        None => return Err(invalid_params("peer_id is required")),
    };
    let path = match arg_str(args, "path") {
        Some(s) => s,
        None => return Err(invalid_params("path is required")),
    };
    Ok(ServiceCall::SendSticker { peer_id: peer_id, path: path })
}

/// `send_voice`: Send voice message.
#[derive(Debug)]
pub struct SendVoiceTool;

impl Tool for SendVoiceTool {
    open spec fn kind_spec(&self) -> ToolKind {
        ToolKind::SendVoice
    }

    fn kind(&self) -> (k: ToolKind) {
        ToolKind::SendVoice
    }
}

pub fn send_voice_info() -> (i: ToolInfo)
    ensures
        i@ == tool_info_spec(ToolKind::SendVoice),
{
    let params: Vec<ParamSpec> = vec![ParamSpec { name: "peer_id", kind: ParamKind::Integer, description: None, default: None }, ParamSpec { name: "path", kind: ParamKind::Str, description: None, default: None }, ParamSpec { name: "caption", kind: ParamKind::Str, description: None, default: None }];
    assert(params_view(params@) =~= tool_params_spec(ToolKind::SendVoice));
    let required: Vec<&'static str> = vec!["peer_id", "path"];
    assert(names_view(required@) =~= tool_required_spec(ToolKind::SendVoice)->Some_0);
    build_info("send_voice", "Send voice message.", params, Some(required))
}

/// The request that `send_voice` makes of its arguments, or the error that it
/// answers them with.
pub open spec fn send_voice_call(a: JsonModel) -> Result<CallModel, ErrorModel> {
    match arg_i64_spec(a, "peer_id"@) {
        Some(peer_id) => match arg_str_spec(a, "path"@) {
        Some(path) => {
        let caption = arg_str_spec(a, "caption"@);
        Ok(CallModel::SendVoice { peer_id: peer_id, path: path, caption: caption })
    },
        None => Err(invalid_params_spec("path is required"@)),
    },
        None => Err(invalid_params_spec("peer_id is required"@)),
    }
}

pub fn prepare_send_voice(args: &JsonValue) -> (r: Result<ServiceCall, JsonRpcError>)
    ensures
        prepared_view(r) == send_voice_call(args@),
{
    let peer_id = match arg_i64(args, "peer_id") {
        Some(n) => n,
        None => return Err(invalid_params("peer_id is required")),
    };
    let path = match arg_str(args, "path") {
        Some(s) => s,
        None => return Err(invalid_params("path is required")),
    };
    let caption = arg_str(args, "caption");
    Ok(ServiceCall::SendVoice { peer_id: peer_id, path: path, caption: caption })
}

/// `get_gif_search`: Search GIFs.
#[derive(Debug)]
pub struct GetGifSearchTool;

impl Tool for GetGifSearchTool {
    open spec fn kind_spec(&self) -> ToolKind {
        ToolKind::GetGifSearch
    }

    fn kind(&self) -> (k: ToolKind) {
        ToolKind::GetGifSearch
    }
}

pub fn get_gif_search_info() -> (i: ToolInfo)
    ensures
        i@ == tool_info_spec(ToolKind::GetGifSearch),
{
    let params: Vec<ParamSpec> = vec![ParamSpec { name: "query", kind: ParamKind::Str, description: None, default: None }];
    assert(params_view(params@) =~= tool_params_spec(ToolKind::GetGifSearch));
    let required: Vec<&'static str> = vec!["query"];
    assert(names_view(required@) =~= tool_required_spec(ToolKind::GetGifSearch)->Some_0);
    build_info("get_gif_search", "Search GIFs.", params, Some(required))
}

/// The request that `get_gif_search` makes of its arguments, or the error that it
/// answers them with.
pub open spec fn get_gif_search_call(a: JsonModel) -> Result<CallModel, ErrorModel> {
    match arg_str_spec(a, "query"@) {
        Some(query) => Ok(CallModel::GetGifSearch { query: query }),
        None => Err(invalid_params_spec("query is required"@)),
    }
}

pub fn prepare_get_gif_search(args: &JsonValue) -> (r: Result<ServiceCall, JsonRpcError>)
    ensures
        prepared_view(r) == get_gif_search_call(args@),
{
    let query = match arg_str(args, "query") {
        Some(s) => s,
        None => return Err(invalid_params("query is required")),
    };
    Ok(ServiceCall::GetGifSearch { query: query })
}

/// `get_media_info`: Get media info.
#[derive(Debug)]
pub struct GetMediaInfoTool;

impl Tool for GetMediaInfoTool {
    open spec fn kind_spec(&self) -> ToolKind {
        ToolKind::GetMediaInfo
    }

    fn kind(&self) -> (k: ToolKind) {
        ToolKind::GetMediaInfo
    }
}

pub fn get_media_info_info() -> (i: ToolInfo)
    ensures
        i@ == tool_info_spec(ToolKind::GetMediaInfo),
{
    let params: Vec<ParamSpec> = vec![ParamSpec { name: "peer_id", kind: ParamKind::Integer, description: None, default: None }, ParamSpec { name: "message_id", kind: ParamKind::Integer, description: None, default: None }];
    assert(params_view(params@) =~= tool_params_spec(ToolKind::GetMediaInfo));
    let required: Vec<&'static str> = vec!["peer_id", "message_id"];
    assert(names_view(required@) =~= tool_required_spec(ToolKind::GetMediaInfo)->Some_0);
    build_info("get_media_info", "Get media info.", params, Some(required))
}

/// The request that `get_media_info` makes of its arguments, or the error that it
/// answers them with.
pub open spec fn get_media_info_call(a: JsonModel) -> Result<CallModel, ErrorModel> {
    match arg_i64_spec(a, "peer_id"@) {
        Some(peer_id) => match arg_i64_spec(a, "message_id"@) {
        Some(message_id_raw) => {
            let message_id = message_id_raw as i32;
            Ok(CallModel::GetMediaInfo { peer_id: peer_id, message_id: message_id })
        },
        None => Err(invalid_params_spec("message_id is required"@)),
    },
        None => Err(invalid_params_spec("peer_id is required"@)),
    }
}

pub fn prepare_get_media_info(args: &JsonValue) -> (r: Result<ServiceCall, JsonRpcError>)
    ensures
        prepared_view(r) == get_media_info_call(args@),
{
    let peer_id = match arg_i64(args, "peer_id") {
        Some(n) => n,
        None => return Err(invalid_params("peer_id is required")),
    };
    let message_id = match arg_i64(args, "message_id") {
        Some(n) => n as i32,
        None => return Err(invalid_params("message_id is required")),
    };
    Ok(ServiceCall::GetMediaInfo { peer_id: peer_id, message_id: message_id })
}

/// `get_sticker_sets`: Get sticker sets.
#[derive(Debug)]
pub struct GetStickerSetsTool;

impl Tool for GetStickerSetsTool {
    open spec fn kind_spec(&self) -> ToolKind {
        ToolKind::GetStickerSets
    }

    fn kind(&self) -> (k: ToolKind) {
        ToolKind::GetStickerSets
    }
}

pub fn get_sticker_sets_info() -> (i: ToolInfo)
    ensures
        i@ == tool_info_spec(ToolKind::GetStickerSets),
{
    let params: Vec<ParamSpec> = Vec::new();
    assert(params_view(params@) =~= tool_params_spec(ToolKind::GetStickerSets));
    build_info("get_sticker_sets", "Get sticker sets.", params, None)
}

/// The request that `get_sticker_sets` makes of its arguments, or the error that it
/// answers them with.
pub open spec fn get_sticker_sets_call(a: JsonModel) -> Result<CallModel, ErrorModel> {
    Ok(CallModel::GetStickerSets)
}

pub fn prepare_get_sticker_sets(args: &JsonValue) -> (r: Result<ServiceCall, JsonRpcError>)
    ensures
        prepared_view(r) == get_sticker_sets_call(args@),
{
    Ok(ServiceCall::GetStickerSets)
}

/// `get_user_photos`: Get user photos.
#[derive(Debug)]
pub struct GetUserPhotosTool;

impl Tool for GetUserPhotosTool {
    open spec fn kind_spec(&self) -> ToolKind {
        ToolKind::GetUserPhotos
    }

    fn kind(&self) -> (k: ToolKind) {
        ToolKind::GetUserPhotos
    }
}

pub fn get_user_photos_info() -> (i: ToolInfo)
    ensures
        i@ == tool_info_spec(ToolKind::GetUserPhotos),
{
    let params: Vec<ParamSpec> = vec![ParamSpec { name: "user_id", kind: ParamKind::Integer, description: None, default: None }];
    assert(params_view(params@) =~= tool_params_spec(ToolKind::GetUserPhotos));
    let required: Vec<&'static str> = vec!["user_id"];
    assert(names_view(required@) =~= tool_required_spec(ToolKind::GetUserPhotos)->Some_0);
    build_info("get_user_photos", "Get user photos.", params, Some(required))
}

/// The request that `get_user_photos` makes of its arguments, or the error that it
/// answers them with.
pub open spec fn get_user_photos_call(a: JsonModel) -> Result<CallModel, ErrorModel> {
    match arg_i64_spec(a, "user_id"@) {
        Some(user_id) => Ok(CallModel::GetUserPhotos { user_id: user_id }),
        None => Err(invalid_params_spec("user_id is required"@)),
    }
}

pub fn prepare_get_user_photos(args: &JsonValue) -> (r: Result<ServiceCall, JsonRpcError>)
    ensures
        prepared_view(r) == get_user_photos_call(args@),
{
    let user_id = match arg_i64(args, "user_id") {
        Some(n) => n,
        None => return Err(invalid_params("user_id is required")),
    };
    Ok(ServiceCall::GetUserPhotos { user_id: user_id })
}

} // verus!
