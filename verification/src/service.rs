//! The requests that tools make of the Telegram service, and its replies.
use vstd::prelude::*;
use crate::json::{opt_string_view, strings_view};

verus! {

#[derive(Debug)]
pub struct UserInfo {
    pub id: i64,
    pub first_name: String,
    pub last_name: Option<String>,
    pub username: Option<String>,
}

#[derive(Debug)]
pub struct ChatInfo {
    pub id: i64,
    pub title: String,
    pub username: Option<String>,
    pub chat_type: String,
}

#[derive(Debug)]
pub struct MessageInfo {
    pub id: i32,
    pub sender_id: i64,
    pub text: String,
    pub date: i64,
    pub reply_to_msg_id: Option<i32>,
}

#[derive(Debug)]
pub struct ContactInfo {
    pub user_id: i64,
    pub first_name: String,
    pub last_name: Option<String>,
    pub username: Option<String>,
    pub phone: Option<String>,
}

#[derive(Debug)]
pub struct FolderInfo {
    pub id: i32,
    pub title: String,
    pub emoticon: Option<String>,
    pub pinned_peers: Vec<i64>,
    pub included_peers: Vec<i64>,
    pub excluded_peers: Vec<i64>,
}

#[derive(Debug)]
pub struct BotInfo {
    pub name: String,
    pub about: String,
    pub description: String,
}

pub open spec fn pairs_view(v: Seq<(String, String)>) -> Seq<(Seq<char>, Seq<char>)> {
    v.map_values(|p: (String, String)| (p.0@, p.1@))
}

pub open spec fn triples_view(v: Seq<(String, String, String)>) -> Seq<(Seq<char>, Seq<char>, Seq<char>)> {
    v.map_values(|p: (String, String, String)| (p.0@, p.1@, p.2@))
}

/// A request to the Telegram service: one method of it and its arguments.
#[derive(Debug)]
pub enum ServiceCall {
    GetMe,
    ListAccounts,
    ListChats { limit: i32 },
    GetChatInfo { peer_id: i64 },
    CreateGroup { title: String, user_ids: Vec<i64> },
    CreateChannel { title: String, about: String, megagroup: bool },
    LeaveChat { peer_id: i64 },
    SetChatMuted { peer_id: i64, muted: bool, until: Option<i32> },
    SetChatArchived { peer_id: i64, archived: bool },
    EditChatAbout { peer_id: i64, about: String },
    EditChatTitle { peer_id: i64, title: String },
    EditChatPhoto { peer_id: i64, path: String },
    DeleteChatPhoto { peer_id: i64 },
    GetMessages { peer_id: i64, limit: i32 },
    GetHistory { peer_id: i64, limit: i32, offset_id: Option<i32> },
    SearchMessages { peer_id: i64, query: String, limit: i32 },
    SendMessage { peer_id: i64, text: String, reply_to_id: Option<i32> },
    EditMessage { peer_id: i64, message_id: i32, new_text: String },
    MarkAsRead { peer_id: i64 },
    PinMessage { peer_id: i64, message_id: i32, silent: bool },
    DeleteMessages { peer_id: i64, message_ids: Vec<i32>, revoke: bool },
    ForwardMessages { to_peer_id: i64, from_peer_id: i64, message_ids: Vec<i32> },
    SendReaction { peer_id: i64, message_id: i32, emoji: String },
    GetScheduledMessages { peer_id: i64 },
    SaveDraft { peer_id: i64, message: String, reply_to_id: Option<i32> },
    ClearDrafts,
    CreatePoll { peer_id: i64, question: String, options: Vec<String> },
    GetMessageContext { peer_id: i64, message_id: i32 },
    GetMessageLink { peer_id: i64, message_id: i32 },
    GetMessageReactions { peer_id: i64, message_id: i32 },
    GetMessageReadBy { peer_id: i64, message_id: i32 },
    GetPinnedMessages { peer_id: i64 },
    UnpinMessage { peer_id: i64, message_id: i32 },
    UnpinAllMessages { peer_id: i64 },
    DeleteScheduledMessage { peer_id: i64, message_id: i32 },
    RemoveReaction { peer_id: i64, message_id: i32 },
    DeleteChatHistory { peer_id: i64 },
    GetDrafts,
    WaitForNewMessage { timeout: i32 },
    WaitForSettledMessage { settle_ms: i32, max_wait_ms: i32 },
    SendFile { peer_id: i64, path: String, caption: Option<String> },
    SendAlbum { peer_id: i64, paths: Vec<String>, caption: Option<String> },
    DownloadMedia { peer_id: i64, message_id: i32, path: Option<String> },
    SendContact { peer_id: i64, phone: String, first_name: String, last_name: String },
    SendGif { peer_id: i64, path: String, caption: Option<String> },
    SendSticker { peer_id: i64, path: String },
    SendVoice { peer_id: i64, path: String, caption: Option<String> },
    GetGifSearch { query: String },
    GetMediaInfo { peer_id: i64, message_id: i32 },
    GetStickerSets,
    GetUserPhotos { user_id: i64 },
    UpdateProfile { first_name: Option<String>, last_name: Option<String>, about: Option<String> },
    SetProfilePhoto { path: String },
    DeleteProfilePhoto,
    GetUserStatus { user_id: i64 },
    ResolveUsername { username: String },
    GetBotInfo { bot_username: String },
    ListInlineButtons { peer_id: i64, message_id: i32 },
    PressInlineButton { peer_id: i64, message_id: i32, button_data: Vec<u8> },
    SetBotCommands { commands: Vec<(String, String)> },
    ListContacts,
    SearchContacts { query: String },
    AddContact { user_id: i64, first_name: String, last_name: String, phone: String },
    DeleteContact { user_id: i64 },
    BlockUser { peer_id: i64 },
    UnblockUser { peer_id: i64 },
    GetBlockedUsers,
    ImportContacts { contacts: Vec<(String, String, String)> },
    ExportContacts,
    GetContactIds,
    GetDirectChatByContact { contact_query: String },
    GetContactChats { contact_id: i64 },
    GetLastInteraction { contact_id: i64 },
    ListFolders,
    GetFolder { folder_id: i32 },
    CreateFolder { title: String, included_peers: Vec<i64>, excluded_peers: Vec<i64> },
    DeleteFolder { folder_id: i32 },
    AddChatToFolder { folder_id: i32, peer_id: i64 },
    RemoveChatFromFolder { folder_id: i32, peer_id: i64 },
    ReorderFolders { folder_ids: Vec<i32> },
    SearchGlobal { query: String },
    SearchPublicChats { query: String },
    SubscribePublicChannel { query: String },
    GetCommonChats { user_id: i64 },
    ListTopics { peer_id: i64 },
    GetPrivacySettings,
    SetPrivacySettings { key: String, value: String },
    GetParticipants { peer_id: i64, limit: i32 },
    BanUser { peer_id: i64, user_id: i64 },
    PromoteAdmin { peer_id: i64, user_id: i64, rank: Option<String> },
    InviteUsers { peer_id: i64, user_ids: Vec<i64> },
    DemoteAdmin { peer_id: i64, user_id: i64 },
    EditAdminRights { peer_id: i64, user_id: i64, add_admins: bool, ban_users: bool, pin_messages: bool },
    SetDefaultChatPermissions { peer_id: i64, send_messages: bool, send_media: bool },
    ToggleSlowMode { peer_id: i64, seconds: i32 },
    GetAdmins { peer_id: i64 },
    GetBannedUsers { peer_id: i64 },
    GetRecentActions { peer_id: i64, limit: i32 },
    UnbanUser { peer_id: i64, user_id: i64 },
    GetInviteLink { peer_id: i64 },
    ExportChatInvite { peer_id: i64 },
    ImportChatInvite { hash: String },
    JoinChatByLink { link: String },
}

/// A request with its text as sequences of characters.
pub enum CallModel {
    GetMe,
    ListAccounts,
    ListChats { limit: i32 },
    GetChatInfo { peer_id: i64 },
    CreateGroup { title: Seq<char>, user_ids: Seq<i64> },
    CreateChannel { title: Seq<char>, about: Seq<char>, megagroup: bool },
    LeaveChat { peer_id: i64 },
    SetChatMuted { peer_id: i64, muted: bool, until: Option<i32> },
    SetChatArchived { peer_id: i64, archived: bool },
    EditChatAbout { peer_id: i64, about: Seq<char> },
    EditChatTitle { peer_id: i64, title: Seq<char> },
    EditChatPhoto { peer_id: i64, path: Seq<char> },
    DeleteChatPhoto { peer_id: i64 },
    GetMessages { peer_id: i64, limit: i32 },
    GetHistory { peer_id: i64, limit: i32, offset_id: Option<i32> },
    SearchMessages { peer_id: i64, query: Seq<char>, limit: i32 },
    SendMessage { peer_id: i64, text: Seq<char>, reply_to_id: Option<i32> },
    EditMessage { peer_id: i64, message_id: i32, new_text: Seq<char> },
    MarkAsRead { peer_id: i64 },
    PinMessage { peer_id: i64, message_id: i32, silent: bool },
    DeleteMessages { peer_id: i64, message_ids: Seq<i32>, revoke: bool },
    ForwardMessages { to_peer_id: i64, from_peer_id: i64, message_ids: Seq<i32> },
    SendReaction { peer_id: i64, message_id: i32, emoji: Seq<char> },
    GetScheduledMessages { peer_id: i64 },
    SaveDraft { peer_id: i64, message: Seq<char>, reply_to_id: Option<i32> },
    ClearDrafts,
    CreatePoll { peer_id: i64, question: Seq<char>, options: Seq<Seq<char>> },
    GetMessageContext { peer_id: i64, message_id: i32 },
    GetMessageLink { peer_id: i64, message_id: i32 },
    GetMessageReactions { peer_id: i64, message_id: i32 },
    GetMessageReadBy { peer_id: i64, message_id: i32 },
    GetPinnedMessages { peer_id: i64 },
    UnpinMessage { peer_id: i64, message_id: i32 },
    UnpinAllMessages { peer_id: i64 },
    DeleteScheduledMessage { peer_id: i64, message_id: i32 },
    RemoveReaction { peer_id: i64, message_id: i32 },
    DeleteChatHistory { peer_id: i64 },
    GetDrafts,
    WaitForNewMessage { timeout: i32 },
    WaitForSettledMessage { settle_ms: i32, max_wait_ms: i32 },
    SendFile { peer_id: i64, path: Seq<char>, caption: Option<Seq<char>> },
    SendAlbum { peer_id: i64, paths: Seq<Seq<char>>, caption: Option<Seq<char>> },
    DownloadMedia { peer_id: i64, message_id: i32, path: Option<Seq<char>> },
    SendContact { peer_id: i64, phone: Seq<char>, first_name: Seq<char>, last_name: Seq<char> },
    SendGif { peer_id: i64, path: Seq<char>, caption: Option<Seq<char>> },
    SendSticker { peer_id: i64, path: Seq<char> },
    SendVoice { peer_id: i64, path: Seq<char>, caption: Option<Seq<char>> },
    GetGifSearch { query: Seq<char> },
    GetMediaInfo { peer_id: i64, message_id: i32 },
    GetStickerSets,
    GetUserPhotos { user_id: i64 },
    UpdateProfile { first_name: Option<Seq<char>>, last_name: Option<Seq<char>>, about: Option<Seq<char>> },
    SetProfilePhoto { path: Seq<char> },
    DeleteProfilePhoto,
    GetUserStatus { user_id: i64 },
    ResolveUsername { username: Seq<char> },
    GetBotInfo { bot_username: Seq<char> },
    ListInlineButtons { peer_id: i64, message_id: i32 },
    PressInlineButton { peer_id: i64, message_id: i32, button_data: Seq<u8> },
    SetBotCommands { commands: Seq<(Seq<char>, Seq<char>)> },
    ListContacts,
    SearchContacts { query: Seq<char> },
    AddContact { user_id: i64, first_name: Seq<char>, last_name: Seq<char>, phone: Seq<char> },
    DeleteContact { user_id: i64 },
    BlockUser { peer_id: i64 },
    UnblockUser { peer_id: i64 },
    GetBlockedUsers,
    ImportContacts { contacts: Seq<(Seq<char>, Seq<char>, Seq<char>)> },
    ExportContacts,
    GetContactIds,
    GetDirectChatByContact { contact_query: Seq<char> },
    GetContactChats { contact_id: i64 },
    GetLastInteraction { contact_id: i64 },
    ListFolders,
    GetFolder { folder_id: i32 },
    CreateFolder { title: Seq<char>, included_peers: Seq<i64>, excluded_peers: Seq<i64> },
    DeleteFolder { folder_id: i32 },
    AddChatToFolder { folder_id: i32, peer_id: i64 },
    RemoveChatFromFolder { folder_id: i32, peer_id: i64 },
    ReorderFolders { folder_ids: Seq<i32> },
    SearchGlobal { query: Seq<char> },
    SearchPublicChats { query: Seq<char> },
    SubscribePublicChannel { query: Seq<char> },
    GetCommonChats { user_id: i64 },
    ListTopics { peer_id: i64 },
    GetPrivacySettings,
    SetPrivacySettings { key: Seq<char>, value: Seq<char> },
    GetParticipants { peer_id: i64, limit: i32 },
    BanUser { peer_id: i64, user_id: i64 },
    PromoteAdmin { peer_id: i64, user_id: i64, rank: Option<Seq<char>> },
    InviteUsers { peer_id: i64, user_ids: Seq<i64> },
    DemoteAdmin { peer_id: i64, user_id: i64 },
    EditAdminRights { peer_id: i64, user_id: i64, add_admins: bool, ban_users: bool, pin_messages: bool },
    SetDefaultChatPermissions { peer_id: i64, send_messages: bool, send_media: bool },
    ToggleSlowMode { peer_id: i64, seconds: i32 },
    GetAdmins { peer_id: i64 },
    GetBannedUsers { peer_id: i64 },
    GetRecentActions { peer_id: i64, limit: i32 },
    UnbanUser { peer_id: i64, user_id: i64 },
    GetInviteLink { peer_id: i64 },
    ExportChatInvite { peer_id: i64 },
    ImportChatInvite { hash: Seq<char> },
    JoinChatByLink { link: Seq<char> },
}

impl View for ServiceCall {
    type V = CallModel;

    open spec fn view(&self) -> CallModel {
        match *self {
            ServiceCall::GetMe => CallModel::GetMe,
            ServiceCall::ListAccounts => CallModel::ListAccounts,
            ServiceCall::ListChats { limit } => CallModel::ListChats { limit: limit },
            ServiceCall::GetChatInfo { peer_id } => CallModel::GetChatInfo { peer_id: peer_id },
            ServiceCall::CreateGroup { title, user_ids } => CallModel::CreateGroup { title: title@, user_ids: user_ids@ },
            ServiceCall::CreateChannel { title, about, megagroup } => CallModel::CreateChannel { title: title@, about: about@, megagroup: megagroup },
            ServiceCall::LeaveChat { peer_id } => CallModel::LeaveChat { peer_id: peer_id },
            ServiceCall::SetChatMuted { peer_id, muted, until } => CallModel::SetChatMuted { peer_id: peer_id, muted: muted, until: until },
            ServiceCall::SetChatArchived { peer_id, archived } => CallModel::SetChatArchived { peer_id: peer_id, archived: archived },
            ServiceCall::EditChatAbout { peer_id, about } => CallModel::EditChatAbout { peer_id: peer_id, about: about@ },
            ServiceCall::EditChatTitle { peer_id, title } => CallModel::EditChatTitle { peer_id: peer_id, title: title@ },
            ServiceCall::EditChatPhoto { peer_id, path } => CallModel::EditChatPhoto { peer_id: peer_id, path: path@ },
            ServiceCall::DeleteChatPhoto { peer_id } => CallModel::DeleteChatPhoto { peer_id: peer_id },
            ServiceCall::GetMessages { peer_id, limit } => CallModel::GetMessages { peer_id: peer_id, limit: limit },
            ServiceCall::GetHistory { peer_id, limit, offset_id } => CallModel::GetHistory { peer_id: peer_id, limit: limit, offset_id: offset_id },
            ServiceCall::SearchMessages { peer_id, query, limit } => CallModel::SearchMessages { peer_id: peer_id, query: query@, limit: limit },
            ServiceCall::SendMessage { peer_id, text, reply_to_id } => CallModel::SendMessage { peer_id: peer_id, text: text@, reply_to_id: reply_to_id },
            ServiceCall::EditMessage { peer_id, message_id, new_text } => CallModel::EditMessage { peer_id: peer_id, message_id: message_id, new_text: new_text@ },
            ServiceCall::MarkAsRead { peer_id } => CallModel::MarkAsRead { peer_id: peer_id },
            ServiceCall::PinMessage { peer_id, message_id, silent } => CallModel::PinMessage { peer_id: peer_id, message_id: message_id, silent: silent },
            ServiceCall::DeleteMessages { peer_id, message_ids, revoke } => CallModel::DeleteMessages { peer_id: peer_id, message_ids: message_ids@, revoke: revoke },
            ServiceCall::ForwardMessages { to_peer_id, from_peer_id, message_ids } => CallModel::ForwardMessages { to_peer_id: to_peer_id, from_peer_id: from_peer_id, message_ids: message_ids@ },
            ServiceCall::SendReaction { peer_id, message_id, emoji } => CallModel::SendReaction { peer_id: peer_id, message_id: message_id, emoji: emoji@ },
            ServiceCall::GetScheduledMessages { peer_id } => CallModel::GetScheduledMessages { peer_id: peer_id },
            ServiceCall::SaveDraft { peer_id, message, reply_to_id } => CallModel::SaveDraft { peer_id: peer_id, message: message@, reply_to_id: reply_to_id },
            ServiceCall::ClearDrafts => CallModel::ClearDrafts,
            ServiceCall::CreatePoll { peer_id, question, options } => CallModel::CreatePoll { peer_id: peer_id, question: question@, options: strings_view(options@) },
            ServiceCall::GetMessageContext { peer_id, message_id } => CallModel::GetMessageContext { peer_id: peer_id, message_id: message_id },
            ServiceCall::GetMessageLink { peer_id, message_id } => CallModel::GetMessageLink { peer_id: peer_id, message_id: message_id },
            ServiceCall::GetMessageReactions { peer_id, message_id } => CallModel::GetMessageReactions { peer_id: peer_id, message_id: message_id },
            ServiceCall::GetMessageReadBy { peer_id, message_id } => CallModel::GetMessageReadBy { peer_id: peer_id, message_id: message_id },
            ServiceCall::GetPinnedMessages { peer_id } => CallModel::GetPinnedMessages { peer_id: peer_id },
            ServiceCall::UnpinMessage { peer_id, message_id } => CallModel::UnpinMessage { peer_id: peer_id, message_id: message_id },
            ServiceCall::UnpinAllMessages { peer_id } => CallModel::UnpinAllMessages { peer_id: peer_id },
            ServiceCall::DeleteScheduledMessage { peer_id, message_id } => CallModel::DeleteScheduledMessage { peer_id: peer_id, message_id: message_id },
            ServiceCall::RemoveReaction { peer_id, message_id } => CallModel::RemoveReaction { peer_id: peer_id, message_id: message_id },
            ServiceCall::DeleteChatHistory { peer_id } => CallModel::DeleteChatHistory { peer_id: peer_id },
            ServiceCall::GetDrafts => CallModel::GetDrafts,
            ServiceCall::WaitForNewMessage { timeout } => CallModel::WaitForNewMessage { timeout: timeout },
            ServiceCall::WaitForSettledMessage { settle_ms, max_wait_ms } => CallModel::WaitForSettledMessage { settle_ms: settle_ms, max_wait_ms: max_wait_ms },
            ServiceCall::SendFile { peer_id, path, caption } => CallModel::SendFile { peer_id: peer_id, path: path@, caption: opt_string_view(caption) },
            ServiceCall::SendAlbum { peer_id, paths, caption } => CallModel::SendAlbum { peer_id: peer_id, paths: strings_view(paths@), caption: opt_string_view(caption) },
            ServiceCall::DownloadMedia { peer_id, message_id, path } => CallModel::DownloadMedia { peer_id: peer_id, message_id: message_id, path: opt_string_view(path) },
            ServiceCall::SendContact { peer_id, phone, first_name, last_name } => CallModel::SendContact { peer_id: peer_id, phone: phone@, first_name: first_name@, last_name: last_name@ },
            ServiceCall::SendGif { peer_id, path, caption } => CallModel::SendGif { peer_id: peer_id, path: path@, caption: opt_string_view(caption) },
            ServiceCall::SendSticker { peer_id, path } => CallModel::SendSticker { peer_id: peer_id, path: path@ },
            ServiceCall::SendVoice { peer_id, path, caption } => CallModel::SendVoice { peer_id: peer_id, path: path@, caption: opt_string_view(caption) },
            ServiceCall::GetGifSearch { query } => CallModel::GetGifSearch { query: query@ },
            ServiceCall::GetMediaInfo { peer_id, message_id } => CallModel::GetMediaInfo { peer_id: peer_id, message_id: message_id },
            ServiceCall::GetStickerSets => CallModel::GetStickerSets,
            ServiceCall::GetUserPhotos { user_id } => CallModel::GetUserPhotos { user_id: user_id },
            ServiceCall::UpdateProfile { first_name, last_name, about } => CallModel::UpdateProfile { first_name: opt_string_view(first_name), last_name: opt_string_view(last_name), about: opt_string_view(about) },
            ServiceCall::SetProfilePhoto { path } => CallModel::SetProfilePhoto { path: path@ },
            ServiceCall::DeleteProfilePhoto => CallModel::DeleteProfilePhoto,
            ServiceCall::GetUserStatus { user_id } => CallModel::GetUserStatus { user_id: user_id },
            ServiceCall::ResolveUsername { username } => CallModel::ResolveUsername { username: username@ },
            ServiceCall::GetBotInfo { bot_username } => CallModel::GetBotInfo { bot_username: bot_username@ },
            ServiceCall::ListInlineButtons { peer_id, message_id } => CallModel::ListInlineButtons { peer_id: peer_id, message_id: message_id },
            ServiceCall::PressInlineButton { peer_id, message_id, button_data } => CallModel::PressInlineButton { peer_id: peer_id, message_id: message_id, button_data: button_data@ },
            ServiceCall::SetBotCommands { commands } => CallModel::SetBotCommands { commands: pairs_view(commands@) },
            ServiceCall::ListContacts => CallModel::ListContacts,
            ServiceCall::SearchContacts { query } => CallModel::SearchContacts { query: query@ },
            ServiceCall::AddContact { user_id, first_name, last_name, phone } => CallModel::AddContact { user_id: user_id, first_name: first_name@, last_name: last_name@, phone: phone@ },
            ServiceCall::DeleteContact { user_id } => CallModel::DeleteContact { user_id: user_id },
            ServiceCall::BlockUser { peer_id } => CallModel::BlockUser { peer_id: peer_id },
            ServiceCall::UnblockUser { peer_id } => CallModel::UnblockUser { peer_id: peer_id },
            ServiceCall::GetBlockedUsers => CallModel::GetBlockedUsers,
            ServiceCall::ImportContacts { contacts } => CallModel::ImportContacts { contacts: triples_view(contacts@) },
            ServiceCall::ExportContacts => CallModel::ExportContacts,
            ServiceCall::GetContactIds => CallModel::GetContactIds,
            ServiceCall::GetDirectChatByContact { contact_query } => CallModel::GetDirectChatByContact { contact_query: contact_query@ },
            ServiceCall::GetContactChats { contact_id } => CallModel::GetContactChats { contact_id: contact_id },
            ServiceCall::GetLastInteraction { contact_id } => CallModel::GetLastInteraction { contact_id: contact_id },
            ServiceCall::ListFolders => CallModel::ListFolders,
            ServiceCall::GetFolder { folder_id } => CallModel::GetFolder { folder_id: folder_id },
            ServiceCall::CreateFolder { title, included_peers, excluded_peers } => CallModel::CreateFolder { title: title@, included_peers: included_peers@, excluded_peers: excluded_peers@ },
            ServiceCall::DeleteFolder { folder_id } => CallModel::DeleteFolder { folder_id: folder_id },
            ServiceCall::AddChatToFolder { folder_id, peer_id } => CallModel::AddChatToFolder { folder_id: folder_id, peer_id: peer_id },
            ServiceCall::RemoveChatFromFolder { folder_id, peer_id } => CallModel::RemoveChatFromFolder { folder_id: folder_id, peer_id: peer_id },
            ServiceCall::ReorderFolders { folder_ids } => CallModel::ReorderFolders { folder_ids: folder_ids@ },
            ServiceCall::SearchGlobal { query } => CallModel::SearchGlobal { query: query@ },
            ServiceCall::SearchPublicChats { query } => CallModel::SearchPublicChats { query: query@ },
            ServiceCall::SubscribePublicChannel { query } => CallModel::SubscribePublicChannel { query: query@ },
            ServiceCall::GetCommonChats { user_id } => CallModel::GetCommonChats { user_id: user_id },
            ServiceCall::ListTopics { peer_id } => CallModel::ListTopics { peer_id: peer_id },
            ServiceCall::GetPrivacySettings => CallModel::GetPrivacySettings,
            ServiceCall::SetPrivacySettings { key, value } => CallModel::SetPrivacySettings { key: key@, value: value@ },
            ServiceCall::GetParticipants { peer_id, limit } => CallModel::GetParticipants { peer_id: peer_id, limit: limit },
            ServiceCall::BanUser { peer_id, user_id } => CallModel::BanUser { peer_id: peer_id, user_id: user_id },
            ServiceCall::PromoteAdmin { peer_id, user_id, rank } => CallModel::PromoteAdmin { peer_id: peer_id, user_id: user_id, rank: opt_string_view(rank) },
            ServiceCall::InviteUsers { peer_id, user_ids } => CallModel::InviteUsers { peer_id: peer_id, user_ids: user_ids@ },
            ServiceCall::DemoteAdmin { peer_id, user_id } => CallModel::DemoteAdmin { peer_id: peer_id, user_id: user_id },
            ServiceCall::EditAdminRights { peer_id, user_id, add_admins, ban_users, pin_messages } => CallModel::EditAdminRights { peer_id: peer_id, user_id: user_id, add_admins: add_admins, ban_users: ban_users, pin_messages: pin_messages },
            ServiceCall::SetDefaultChatPermissions { peer_id, send_messages, send_media } => CallModel::SetDefaultChatPermissions { peer_id: peer_id, send_messages: send_messages, send_media: send_media },
            ServiceCall::ToggleSlowMode { peer_id, seconds } => CallModel::ToggleSlowMode { peer_id: peer_id, seconds: seconds },
            ServiceCall::GetAdmins { peer_id } => CallModel::GetAdmins { peer_id: peer_id },
            ServiceCall::GetBannedUsers { peer_id } => CallModel::GetBannedUsers { peer_id: peer_id },
            ServiceCall::GetRecentActions { peer_id, limit } => CallModel::GetRecentActions { peer_id: peer_id, limit: limit },
            ServiceCall::UnbanUser { peer_id, user_id } => CallModel::UnbanUser { peer_id: peer_id, user_id: user_id },
            ServiceCall::GetInviteLink { peer_id } => CallModel::GetInviteLink { peer_id: peer_id },
            ServiceCall::ExportChatInvite { peer_id } => CallModel::ExportChatInvite { peer_id: peer_id },
            ServiceCall::ImportChatInvite { hash } => CallModel::ImportChatInvite { hash: hash@ },
            ServiceCall::JoinChatByLink { link } => CallModel::JoinChatByLink { link: link@ },
        }
    }
}

/// What the service answers a request with.
#[derive(Debug)]
pub enum ServiceReply {
    Unit,
    Id(i64),
    Number(i32),
    Flag(bool),
    Text(String),
    Path(String),
    User(UserInfo),
    Users(Vec<UserInfo>),
    Chat(ChatInfo),
    Chats(Vec<ChatInfo>),
    Message(MessageInfo),
    Messages(Vec<MessageInfo>),
    Contacts(Vec<ContactInfo>),
    Folder(FolderInfo),
    Folders(Vec<FolderInfo>),
    Bot(BotInfo),
    Texts(Vec<String>),
    Ids(Vec<i64>),
}

/// The kind of reply, without its contents.
#[derive(Debug, PartialEq, Eq, Structural)]
pub enum ReplyShape {
    Unit,
    Id,
    Number,
    Flag,
    Text,
    Path,
    User,
    Users,
    Chat,
    Chats,
    Message,
    Messages,
    Contacts,
    Folder,
    Folders,
    Bot,
    Texts,
    Ids,
}

pub open spec fn reply_shape(r: ServiceReply) -> ReplyShape {
    match r {
        ServiceReply::Unit => ReplyShape::Unit,
        ServiceReply::Id(_) => ReplyShape::Id,
        ServiceReply::Number(_) => ReplyShape::Number,
        ServiceReply::Flag(_) => ReplyShape::Flag,
        ServiceReply::Text(_) => ReplyShape::Text,
        ServiceReply::Path(_) => ReplyShape::Path,
        ServiceReply::User(_) => ReplyShape::User,
        ServiceReply::Users(_) => ReplyShape::Users,
        ServiceReply::Chat(_) => ReplyShape::Chat,
        ServiceReply::Chats(_) => ReplyShape::Chats,
        ServiceReply::Message(_) => ReplyShape::Message,
        ServiceReply::Messages(_) => ReplyShape::Messages,
        ServiceReply::Contacts(_) => ReplyShape::Contacts,
        ServiceReply::Folder(_) => ReplyShape::Folder,
        ServiceReply::Folders(_) => ReplyShape::Folders,
        ServiceReply::Bot(_) => ReplyShape::Bot,
        ServiceReply::Texts(_) => ReplyShape::Texts,
        ServiceReply::Ids(_) => ReplyShape::Ids,
    }
}

/// The kind of reply that each request is answered with.
pub open spec fn call_shape(c: CallModel) -> ReplyShape {
    match c {
        CallModel::GetMe => ReplyShape::User,
        CallModel::ListAccounts => ReplyShape::Texts,
        CallModel::ListChats { .. } => ReplyShape::Chats,
        CallModel::GetChatInfo { .. } => ReplyShape::Chat,
        CallModel::CreateGroup { .. } => ReplyShape::Id,
        CallModel::CreateChannel { .. } => ReplyShape::Id,
        CallModel::LeaveChat { .. } => ReplyShape::Unit,
        CallModel::SetChatMuted { .. } => ReplyShape::Unit,
        CallModel::SetChatArchived { .. } => ReplyShape::Unit,
        CallModel::EditChatAbout { .. } => ReplyShape::Unit,
        CallModel::EditChatTitle { .. } => ReplyShape::Unit,
        CallModel::EditChatPhoto { .. } => ReplyShape::Unit,
        CallModel::DeleteChatPhoto { .. } => ReplyShape::Unit,
        CallModel::GetMessages { .. } => ReplyShape::Messages,
        CallModel::GetHistory { .. } => ReplyShape::Messages,
        CallModel::SearchMessages { .. } => ReplyShape::Messages,
        CallModel::SendMessage { .. } => ReplyShape::Message,
        CallModel::EditMessage { .. } => ReplyShape::Unit,
        CallModel::MarkAsRead { .. } => ReplyShape::Unit,
        CallModel::PinMessage { .. } => ReplyShape::Unit,
        CallModel::DeleteMessages { .. } => ReplyShape::Unit,
        CallModel::ForwardMessages { .. } => ReplyShape::Messages,
        CallModel::SendReaction { .. } => ReplyShape::Unit,
        CallModel::GetScheduledMessages { .. } => ReplyShape::Messages,
        CallModel::SaveDraft { .. } => ReplyShape::Unit,
        CallModel::ClearDrafts => ReplyShape::Unit,
        CallModel::CreatePoll { .. } => ReplyShape::Message,
        CallModel::GetMessageContext { .. } => ReplyShape::Messages,
        CallModel::GetMessageLink { .. } => ReplyShape::Text,
        CallModel::GetMessageReactions { .. } => ReplyShape::Texts,
        CallModel::GetMessageReadBy { .. } => ReplyShape::Users,
        CallModel::GetPinnedMessages { .. } => ReplyShape::Messages,
        CallModel::UnpinMessage { .. } => ReplyShape::Unit,
        CallModel::UnpinAllMessages { .. } => ReplyShape::Unit,
        CallModel::DeleteScheduledMessage { .. } => ReplyShape::Unit,
        CallModel::RemoveReaction { .. } => ReplyShape::Unit,
        CallModel::DeleteChatHistory { .. } => ReplyShape::Unit,
        CallModel::GetDrafts => ReplyShape::Messages,
        CallModel::WaitForNewMessage { .. } => ReplyShape::Message,
        CallModel::WaitForSettledMessage { .. } => ReplyShape::Message,
        CallModel::SendFile { .. } => ReplyShape::Message,
        CallModel::SendAlbum { .. } => ReplyShape::Messages,
        CallModel::DownloadMedia { .. } => ReplyShape::Path,
        CallModel::SendContact { .. } => ReplyShape::Message,
        CallModel::SendGif { .. } => ReplyShape::Message,
        CallModel::SendSticker { .. } => ReplyShape::Message,
        CallModel::SendVoice { .. } => ReplyShape::Message,
        CallModel::GetGifSearch { .. } => ReplyShape::Texts,
        CallModel::GetMediaInfo { .. } => ReplyShape::Text,
        CallModel::GetStickerSets => ReplyShape::Texts,
        CallModel::GetUserPhotos { .. } => ReplyShape::Texts,
        CallModel::UpdateProfile { .. } => ReplyShape::Unit,
        CallModel::SetProfilePhoto { .. } => ReplyShape::Unit,
        CallModel::DeleteProfilePhoto => ReplyShape::Unit,
        CallModel::GetUserStatus { .. } => ReplyShape::Text,
        CallModel::ResolveUsername { .. } => ReplyShape::Id,
        CallModel::GetBotInfo { .. } => ReplyShape::Bot,
        CallModel::ListInlineButtons { .. } => ReplyShape::Texts,
        CallModel::PressInlineButton { .. } => ReplyShape::Text,
        CallModel::SetBotCommands { .. } => ReplyShape::Unit,
        CallModel::ListContacts => ReplyShape::Contacts,
        CallModel::SearchContacts { .. } => ReplyShape::Contacts,
        CallModel::AddContact { .. } => ReplyShape::Unit,
        CallModel::DeleteContact { .. } => ReplyShape::Unit,
        CallModel::BlockUser { .. } => ReplyShape::Unit,
        CallModel::UnblockUser { .. } => ReplyShape::Unit,
        CallModel::GetBlockedUsers => ReplyShape::Users,
        CallModel::ImportContacts { .. } => ReplyShape::Unit,
        CallModel::ExportContacts => ReplyShape::Text,
        CallModel::GetContactIds => ReplyShape::Ids,
        CallModel::GetDirectChatByContact { .. } => ReplyShape::Id,
        CallModel::GetContactChats { .. } => ReplyShape::Chats,
        CallModel::GetLastInteraction { .. } => ReplyShape::Number,
        CallModel::ListFolders => ReplyShape::Folders,
        CallModel::GetFolder { .. } => ReplyShape::Folder,
        CallModel::CreateFolder { .. } => ReplyShape::Number,
        CallModel::DeleteFolder { .. } => ReplyShape::Unit,
        CallModel::AddChatToFolder { .. } => ReplyShape::Unit,
        CallModel::RemoveChatFromFolder { .. } => ReplyShape::Unit,
        CallModel::ReorderFolders { .. } => ReplyShape::Unit,
        CallModel::SearchGlobal { .. } => ReplyShape::Messages,
        CallModel::SearchPublicChats { .. } => ReplyShape::Chats,
        CallModel::SubscribePublicChannel { .. } => ReplyShape::Unit,
        CallModel::GetCommonChats { .. } => ReplyShape::Chats,
        CallModel::ListTopics { .. } => ReplyShape::Texts,
        CallModel::GetPrivacySettings => ReplyShape::Text,
        CallModel::SetPrivacySettings { .. } => ReplyShape::Unit,
        CallModel::GetParticipants { .. } => ReplyShape::Users,
        CallModel::BanUser { .. } => ReplyShape::Unit,
        CallModel::PromoteAdmin { .. } => ReplyShape::Unit,
        CallModel::InviteUsers { .. } => ReplyShape::Unit,
        CallModel::DemoteAdmin { .. } => ReplyShape::Unit,
        CallModel::EditAdminRights { .. } => ReplyShape::Unit,
        CallModel::SetDefaultChatPermissions { .. } => ReplyShape::Unit,
        CallModel::ToggleSlowMode { .. } => ReplyShape::Unit,
        CallModel::GetAdmins { .. } => ReplyShape::Users,
        CallModel::GetBannedUsers { .. } => ReplyShape::Users,
        CallModel::GetRecentActions { .. } => ReplyShape::Texts,
        CallModel::UnbanUser { .. } => ReplyShape::Unit,
        CallModel::GetInviteLink { .. } => ReplyShape::Text,
        CallModel::ExportChatInvite { .. } => ReplyShape::Text,
        CallModel::ImportChatInvite { .. } => ReplyShape::Id,
        CallModel::JoinChatByLink { .. } => ReplyShape::Id,
    }
}

/// A successful reply, with its JSON text as `serde_json::to_string_pretty`
/// writes it.
#[derive(Debug)]
pub struct ServiceAnswer {
    pub reply: ServiceReply,
    pub serialized: String,
}

/// The outcome of a request fits it: an error, or a reply of the kind that
/// the request is answered with.
pub open spec fn outcome_fits(c: CallModel, outcome: Result<ServiceAnswer, String>) -> bool {
    match outcome {
        Ok(a) => reply_shape(a.reply) == call_shape(c),
        Err(_) => true,
    }
}

impl ServiceReply {
    pub fn shape(&self) -> (s: ReplyShape)
        ensures
            s == reply_shape(*self),
    {
        match self {
            ServiceReply::Unit => ReplyShape::Unit,
            ServiceReply::Id(_) => ReplyShape::Id,
            ServiceReply::Number(_) => ReplyShape::Number,
            ServiceReply::Flag(_) => ReplyShape::Flag,
            ServiceReply::Text(_) => ReplyShape::Text,
            ServiceReply::Path(_) => ReplyShape::Path,
            ServiceReply::User(_) => ReplyShape::User,
            ServiceReply::Users(_) => ReplyShape::Users,
            ServiceReply::Chat(_) => ReplyShape::Chat,
            ServiceReply::Chats(_) => ReplyShape::Chats,
            ServiceReply::Message(_) => ReplyShape::Message,
            ServiceReply::Messages(_) => ReplyShape::Messages,
            ServiceReply::Contacts(_) => ReplyShape::Contacts,
            ServiceReply::Folder(_) => ReplyShape::Folder,
            ServiceReply::Folders(_) => ReplyShape::Folders,
            ServiceReply::Bot(_) => ReplyShape::Bot,
            ServiceReply::Texts(_) => ReplyShape::Texts,
            ServiceReply::Ids(_) => ReplyShape::Ids,
        }
    }
}

impl ServiceCall {
    pub fn reply_shape(&self) -> (s: ReplyShape)
        ensures
            s == call_shape(self@),
    {
        match self {
            ServiceCall::GetMe => ReplyShape::User,
            ServiceCall::ListAccounts => ReplyShape::Texts,
            ServiceCall::ListChats { .. } => ReplyShape::Chats,
            ServiceCall::GetChatInfo { .. } => ReplyShape::Chat,
            ServiceCall::CreateGroup { .. } => ReplyShape::Id,
            ServiceCall::CreateChannel { .. } => ReplyShape::Id,
            ServiceCall::LeaveChat { .. } => ReplyShape::Unit,
            ServiceCall::SetChatMuted { .. } => ReplyShape::Unit,
            ServiceCall::SetChatArchived { .. } => ReplyShape::Unit,
            ServiceCall::EditChatAbout { .. } => ReplyShape::Unit,
            ServiceCall::EditChatTitle { .. } => ReplyShape::Unit,
            ServiceCall::EditChatPhoto { .. } => ReplyShape::Unit,
            ServiceCall::DeleteChatPhoto { .. } => ReplyShape::Unit,
            ServiceCall::GetMessages { .. } => ReplyShape::Messages,
            ServiceCall::GetHistory { .. } => ReplyShape::Messages,
            ServiceCall::SearchMessages { .. } => ReplyShape::Messages,
            ServiceCall::SendMessage { .. } => ReplyShape::Message,
            ServiceCall::EditMessage { .. } => ReplyShape::Unit,
            ServiceCall::MarkAsRead { .. } => ReplyShape::Unit,
            ServiceCall::PinMessage { .. } => ReplyShape::Unit,
            ServiceCall::DeleteMessages { .. } => ReplyShape::Unit,
            ServiceCall::ForwardMessages { .. } => ReplyShape::Messages,
            ServiceCall::SendReaction { .. } => ReplyShape::Unit,
            ServiceCall::GetScheduledMessages { .. } => ReplyShape::Messages,
            ServiceCall::SaveDraft { .. } => ReplyShape::Unit,
            ServiceCall::ClearDrafts => ReplyShape::Unit,
            ServiceCall::CreatePoll { .. } => ReplyShape::Message,
            ServiceCall::GetMessageContext { .. } => ReplyShape::Messages,
            ServiceCall::GetMessageLink { .. } => ReplyShape::Text,
            ServiceCall::GetMessageReactions { .. } => ReplyShape::Texts,
            ServiceCall::GetMessageReadBy { .. } => ReplyShape::Users,
            ServiceCall::GetPinnedMessages { .. } => ReplyShape::Messages,
            ServiceCall::UnpinMessage { .. } => ReplyShape::Unit,
            ServiceCall::UnpinAllMessages { .. } => ReplyShape::Unit,
            ServiceCall::DeleteScheduledMessage { .. } => ReplyShape::Unit,
            ServiceCall::RemoveReaction { .. } => ReplyShape::Unit,
            ServiceCall::DeleteChatHistory { .. } => ReplyShape::Unit,
            ServiceCall::GetDrafts => ReplyShape::Messages,
            ServiceCall::WaitForNewMessage { .. } => ReplyShape::Message,
            ServiceCall::WaitForSettledMessage { .. } => ReplyShape::Message,
            ServiceCall::SendFile { .. } => ReplyShape::Message,
            ServiceCall::SendAlbum { .. } => ReplyShape::Messages,
            ServiceCall::DownloadMedia { .. } => ReplyShape::Path,
            ServiceCall::SendContact { .. } => ReplyShape::Message,
            ServiceCall::SendGif { .. } => ReplyShape::Message,
            ServiceCall::SendSticker { .. } => ReplyShape::Message,
            ServiceCall::SendVoice { .. } => ReplyShape::Message,
            ServiceCall::GetGifSearch { .. } => ReplyShape::Texts,
            ServiceCall::GetMediaInfo { .. } => ReplyShape::Text,
            ServiceCall::GetStickerSets => ReplyShape::Texts,
            ServiceCall::GetUserPhotos { .. } => ReplyShape::Texts,
            ServiceCall::UpdateProfile { .. } => ReplyShape::Unit,
            ServiceCall::SetProfilePhoto { .. } => ReplyShape::Unit,
            ServiceCall::DeleteProfilePhoto => ReplyShape::Unit,
            ServiceCall::GetUserStatus { .. } => ReplyShape::Text,
            ServiceCall::ResolveUsername { .. } => ReplyShape::Id,
            ServiceCall::GetBotInfo { .. } => ReplyShape::Bot,
            ServiceCall::ListInlineButtons { .. } => ReplyShape::Texts,
            ServiceCall::PressInlineButton { .. } => ReplyShape::Text,
            ServiceCall::SetBotCommands { .. } => ReplyShape::Unit,
            ServiceCall::ListContacts => ReplyShape::Contacts,
            ServiceCall::SearchContacts { .. } => ReplyShape::Contacts,
            ServiceCall::AddContact { .. } => ReplyShape::Unit,
            ServiceCall::DeleteContact { .. } => ReplyShape::Unit,
            ServiceCall::BlockUser { .. } => ReplyShape::Unit,
            ServiceCall::UnblockUser { .. } => ReplyShape::Unit,
            ServiceCall::GetBlockedUsers => ReplyShape::Users,
            ServiceCall::ImportContacts { .. } => ReplyShape::Unit,
            ServiceCall::ExportContacts => ReplyShape::Text,
            ServiceCall::GetContactIds => ReplyShape::Ids,
            ServiceCall::GetDirectChatByContact { .. } => ReplyShape::Id,
            ServiceCall::GetContactChats { .. } => ReplyShape::Chats,
            ServiceCall::GetLastInteraction { .. } => ReplyShape::Number,
            ServiceCall::ListFolders => ReplyShape::Folders,
            ServiceCall::GetFolder { .. } => ReplyShape::Folder,
            ServiceCall::CreateFolder { .. } => ReplyShape::Number,
            ServiceCall::DeleteFolder { .. } => ReplyShape::Unit,
            ServiceCall::AddChatToFolder { .. } => ReplyShape::Unit,
            ServiceCall::RemoveChatFromFolder { .. } => ReplyShape::Unit,
            ServiceCall::ReorderFolders { .. } => ReplyShape::Unit,
            ServiceCall::SearchGlobal { .. } => ReplyShape::Messages,
            ServiceCall::SearchPublicChats { .. } => ReplyShape::Chats,
            ServiceCall::SubscribePublicChannel { .. } => ReplyShape::Unit,
            ServiceCall::GetCommonChats { .. } => ReplyShape::Chats,
            ServiceCall::ListTopics { .. } => ReplyShape::Texts,
            ServiceCall::GetPrivacySettings => ReplyShape::Text,
            ServiceCall::SetPrivacySettings { .. } => ReplyShape::Unit,
            ServiceCall::GetParticipants { .. } => ReplyShape::Users,
            ServiceCall::BanUser { .. } => ReplyShape::Unit,
            ServiceCall::PromoteAdmin { .. } => ReplyShape::Unit,
            ServiceCall::InviteUsers { .. } => ReplyShape::Unit,
            ServiceCall::DemoteAdmin { .. } => ReplyShape::Unit,
            ServiceCall::EditAdminRights { .. } => ReplyShape::Unit,
            ServiceCall::SetDefaultChatPermissions { .. } => ReplyShape::Unit,
            ServiceCall::ToggleSlowMode { .. } => ReplyShape::Unit,
            ServiceCall::GetAdmins { .. } => ReplyShape::Users,
            ServiceCall::GetBannedUsers { .. } => ReplyShape::Users,
            ServiceCall::GetRecentActions { .. } => ReplyShape::Texts,
            ServiceCall::UnbanUser { .. } => ReplyShape::Unit,
            ServiceCall::GetInviteLink { .. } => ReplyShape::Text,
            ServiceCall::ExportChatInvite { .. } => ReplyShape::Text,
            ServiceCall::ImportChatInvite { .. } => ReplyShape::Id,
            ServiceCall::JoinChatByLink { .. } => ReplyShape::Id,
        }
    }

    /// Whether a reply is of the kind that this request is answered with.
    pub fn accepts(&self, reply: &ServiceReply) -> (b: bool)
        ensures
            b == (reply_shape(*reply) == call_shape(self@)),
    {
        let a = self.reply_shape();
        let b = reply.shape();
        a == b
    }
}

} // verus!
