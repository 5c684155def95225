//! The tools that the server offers: what each tells a client about itself,
//! the request that it makes of its arguments, and the text that it answers
//! with.
use vstd::prelude::*;
use vstd::string::*;
use crate::json::{JsonModel, JsonValue};
use crate::protocol::{ErrorModel, JsonRpcError};
use crate::service::{call_shape, outcome_fits, reply_shape, CallModel, ReplyShape, ServiceAnswer, ServiceCall, ServiceReply};
use crate::tools::output::{
    error_text, error_text_spec, id_line, id_line_spec, ids_line, ids_line_spec, msg_id_line,
    msg_id_line_spec, path_line, path_line_spec, raw_text, raw_text_spec, text_result,
    text_result_model, toggle_line, user_line, user_line_spec,
};
use crate::tools::schema::{schema_model, ParamDefault, ParamKind, ParamModel, ToolInfo, ToolInfoModel};

use crate::tools::profile::{delete_profile_photo_call, delete_profile_photo_info, get_me_call, get_me_info, get_user_status_call, get_user_status_info, list_accounts_call, list_accounts_info, prepare_delete_profile_photo, prepare_get_me, prepare_get_user_status, prepare_list_accounts, prepare_resolve_username, prepare_set_profile_photo, prepare_update_profile, resolve_username_call, resolve_username_info, set_profile_photo_call, set_profile_photo_info, update_profile_call, update_profile_info};
use crate::tools::bots::{get_bot_info_call, get_bot_info_info, list_inline_buttons_call, list_inline_buttons_info, prepare_get_bot_info, prepare_list_inline_buttons, prepare_press_inline_button, prepare_set_bot_commands, press_inline_button_call, press_inline_button_info, set_bot_commands_call, set_bot_commands_info};
use crate::tools::chats::{create_channel_call, create_channel_info, create_group_call, create_group_info, delete_chat_photo_call, delete_chat_photo_info, edit_chat_about_call, edit_chat_about_info, edit_chat_photo_call, edit_chat_photo_info, edit_chat_title_call, edit_chat_title_info, get_chat_info_call, get_chat_info_info, leave_chat_call, leave_chat_info, list_chats_call, list_chats_info, prepare_create_channel, prepare_create_group, prepare_delete_chat_photo, prepare_edit_chat_about, prepare_edit_chat_photo, prepare_edit_chat_title, prepare_get_chat_info, prepare_leave_chat, prepare_list_chats, prepare_set_chat_archived, prepare_set_chat_muted, set_chat_archived_call, set_chat_archived_info, set_chat_muted_call, set_chat_muted_info};
use crate::tools::messages::{clear_drafts_call, clear_drafts_info, create_poll_call, create_poll_info, delete_chat_history_call, delete_chat_history_info, delete_messages_call, delete_messages_info, delete_scheduled_message_call, delete_scheduled_message_info, edit_message_call, edit_message_info, forward_messages_call, forward_messages_info, get_drafts_call, get_drafts_info, get_history_call, get_history_info, get_message_context_call, get_message_context_info, get_message_link_call, get_message_link_info, get_message_reactions_call, get_message_reactions_info, get_message_read_by_call, get_message_read_by_info, get_messages_call, get_messages_info, get_pinned_messages_call, get_pinned_messages_info, get_scheduled_messages_call, get_scheduled_messages_info, mark_as_read_call, mark_as_read_info, pin_message_call, pin_message_info, prepare_clear_drafts, prepare_create_poll, prepare_delete_chat_history, prepare_delete_messages, prepare_delete_scheduled_message, prepare_edit_message, prepare_forward_messages, prepare_get_drafts, prepare_get_history, prepare_get_message_context, prepare_get_message_link, prepare_get_message_reactions, prepare_get_message_read_by, prepare_get_messages, prepare_get_pinned_messages, prepare_get_scheduled_messages, prepare_mark_as_read, prepare_pin_message, prepare_remove_reaction, prepare_save_draft, prepare_search_messages, prepare_send_message, prepare_send_reaction, prepare_unpin_all_messages, prepare_unpin_message, prepare_wait_for_new_message, prepare_wait_for_settled_message, remove_reaction_call, remove_reaction_info, save_draft_call, save_draft_info, search_messages_call, search_messages_info, send_message_call, send_message_info, send_reaction_call, send_reaction_info, unpin_all_messages_call, unpin_all_messages_info, unpin_message_call, unpin_message_info, wait_for_new_message_call, wait_for_new_message_info, wait_for_settled_message_call, wait_for_settled_message_info};
use crate::tools::admin::{ban_user_call, ban_user_info, demote_admin_call, demote_admin_info, edit_admin_rights_call, edit_admin_rights_info, export_chat_invite_call, export_chat_invite_info, get_admins_call, get_admins_info, get_banned_users_call, get_banned_users_info, get_invite_link_call, get_invite_link_info, get_participants_call, get_participants_info, get_recent_actions_call, get_recent_actions_info, import_chat_invite_call, import_chat_invite_info, invite_users_call, invite_users_info, join_chat_by_link_call, join_chat_by_link_info, prepare_ban_user, prepare_demote_admin, prepare_edit_admin_rights, prepare_export_chat_invite, prepare_get_admins, prepare_get_banned_users, prepare_get_invite_link, prepare_get_participants, prepare_get_recent_actions, prepare_import_chat_invite, prepare_invite_users, prepare_join_chat_by_link, prepare_promote_admin, prepare_set_default_chat_permissions, prepare_toggle_slow_mode, prepare_unban_user, promote_admin_call, promote_admin_info, set_default_chat_permissions_call, set_default_chat_permissions_info, toggle_slow_mode_call, toggle_slow_mode_info, unban_user_call, unban_user_info};
use crate::tools::media::{download_media_call, download_media_info, get_gif_search_call, get_gif_search_info, get_image_call, get_image_info, get_media_info_call, get_media_info_info, get_sticker_sets_call, get_sticker_sets_info, get_user_photos_call, get_user_photos_info, prepare_download_media, prepare_get_gif_search, prepare_get_image, prepare_get_media_info, prepare_get_sticker_sets, prepare_get_user_photos, prepare_send_album, prepare_send_contact, prepare_send_file, prepare_send_gif, prepare_send_sticker, prepare_send_voice, send_album_call, send_album_info, send_contact_call, send_contact_info, send_file_call, send_file_info, send_gif_call, send_gif_info, send_sticker_call, send_sticker_info, send_voice_call, send_voice_info};
use crate::tools::folders::{add_chat_to_folder_call, add_chat_to_folder_info, create_folder_call, create_folder_info, delete_folder_call, delete_folder_info, get_folder_call, get_folder_info, list_folders_call, list_folders_info, prepare_add_chat_to_folder, prepare_create_folder, prepare_delete_folder, prepare_get_folder, prepare_list_folders, prepare_remove_chat_from_folder, prepare_reorder_folders, remove_chat_from_folder_call, remove_chat_from_folder_info, reorder_folders_call, reorder_folders_info};
use crate::tools::contacts::{add_contact_call, add_contact_info, block_user_call, block_user_info, delete_contact_call, delete_contact_info, export_contacts_call, export_contacts_info, get_blocked_users_call, get_blocked_users_info, get_contact_chats_call, get_contact_chats_info, get_contact_ids_call, get_contact_ids_info, get_direct_chat_by_contact_call, get_direct_chat_by_contact_info, get_last_interaction_call, get_last_interaction_info, import_contacts_call, import_contacts_info, list_contacts_call, list_contacts_info, prepare_add_contact, prepare_block_user, prepare_delete_contact, prepare_export_contacts, prepare_get_blocked_users, prepare_get_contact_chats, prepare_get_contact_ids, prepare_get_direct_chat_by_contact, prepare_get_last_interaction, prepare_import_contacts, prepare_list_contacts, prepare_search_contacts, prepare_unblock_user, search_contacts_call, search_contacts_info, unblock_user_call, unblock_user_info};
use crate::tools::search::{get_common_chats_call, get_common_chats_info, get_privacy_settings_call, get_privacy_settings_info, list_topics_call, list_topics_info, prepare_get_common_chats, prepare_get_privacy_settings, prepare_list_topics, prepare_search_global, prepare_search_public_chats, prepare_set_privacy_settings, prepare_subscribe_public_channel, search_global_call, search_global_info, search_public_chats_call, search_public_chats_info, set_privacy_settings_call, set_privacy_settings_info, subscribe_public_channel_call, subscribe_public_channel_info};

pub mod admin;
pub mod args;
pub mod bots;
pub mod chats;
pub mod contacts;
pub mod folders;
pub mod image;
pub mod laws;
pub mod media;
pub mod messages;
pub mod output;
pub mod profile;
pub mod schema;
pub mod search;

verus! {

/// Every tool, by what it does.
#[derive(Debug, PartialEq, Eq, Structural, Clone, Copy)]
pub enum ToolKind {
    GetMe,
    UpdateProfile,
    SetProfilePhoto,
    DeleteProfilePhoto,
    GetUserStatus,
    ResolveUsername,
    ListAccounts,
    GetBotInfo,
    ListInlineButtons,
    PressInlineButton,
    SetBotCommands,
    ListChats,
    GetChatInfo,
    CreateGroup,
    CreateChannel,
    LeaveChat,
    SetChatMuted,
    SetChatArchived,
    EditChatAbout,
    EditChatPhoto,
    EditChatTitle,
    DeleteChatPhoto,
    GetMessages,
    GetHistory,
    SearchMessages,
    SendMessage,
    EditMessage,
    DeleteMessages,
    ForwardMessages,
    SendReaction,
    GetScheduledMessages,
    SaveDraft,
    ClearDrafts,
    CreatePoll,
    GetMessageContext,
    GetMessageLink,
    GetMessageReactions,
    GetMessageReadBy,
    GetPinnedMessages,
    UnpinMessage,
    UnpinAllMessages,
    DeleteScheduledMessage,
    RemoveReaction,
    DeleteChatHistory,
    PinMessage,
    MarkAsRead,
    GetDrafts,
    WaitForNewMessage,
    WaitForSettledMessage,
    BanUser,
    PromoteAdmin,
    GetParticipants,
    InviteUsers,
    DemoteAdmin,
    EditAdminRights,
    SetDefaultChatPermissions,
    ToggleSlowMode,
    GetAdmins,
    GetBannedUsers,
    GetRecentActions,
    UnbanUser,
    GetInviteLink,
    ExportChatInvite,
    ImportChatInvite,
    JoinChatByLink,
    SendFile,
    SendAlbum,
    DownloadMedia,
    GetImage,
    SendContact,
    SendGif,
    SendSticker,
    SendVoice,
    GetGifSearch,
    GetMediaInfo,
    GetStickerSets,
    GetUserPhotos,
    ListFolders,
    GetFolder,
    CreateFolder,
    DeleteFolder,
    AddChatToFolder,
    RemoveChatFromFolder,
    ReorderFolders,
    ListContacts,
    SearchContacts,
    AddContact,
    DeleteContact,
    BlockUser,
    UnblockUser,
    GetBlockedUsers,
    ImportContacts,
    ExportContacts,
    GetContactIds,
    GetDirectChatByContact,
    GetContactChats,
    GetLastInteraction,
    SearchGlobal,
    SearchPublicChats,
    SubscribePublicChannel,
    GetCommonChats,
    ListTopics,
    GetPrivacySettings,
    SetPrivacySettings,
}

/// The name that a client calls a tool by.
pub open spec fn tool_name_spec(k: ToolKind) -> Seq<char> {
    match k {
        ToolKind::GetMe => "get_me"@,
        ToolKind::UpdateProfile => "update_profile"@,
        ToolKind::SetProfilePhoto => "set_profile_photo"@,
        ToolKind::DeleteProfilePhoto => "delete_profile_photo"@,
        ToolKind::GetUserStatus => "get_user_status"@,
        ToolKind::ResolveUsername => "resolve_username"@,
        ToolKind::ListAccounts => "list_accounts"@,
        ToolKind::GetBotInfo => "get_bot_info"@,
        ToolKind::ListInlineButtons => "list_inline_buttons"@,
        ToolKind::PressInlineButton => "press_inline_button"@,
        ToolKind::SetBotCommands => "set_bot_commands"@,
        ToolKind::ListChats => "list_chats"@,
        ToolKind::GetChatInfo => "get_chat_info"@,
        ToolKind::CreateGroup => "create_group"@,
        ToolKind::CreateChannel => "create_channel"@,
        ToolKind::LeaveChat => "leave_chat"@,
        ToolKind::SetChatMuted => "set_chat_muted"@,
        ToolKind::SetChatArchived => "set_chat_archived"@,
        ToolKind::EditChatAbout => "edit_chat_about"@,
        ToolKind::EditChatPhoto => "edit_chat_photo"@,
        ToolKind::EditChatTitle => "edit_chat_title"@,
        ToolKind::DeleteChatPhoto => "delete_chat_photo"@,
        ToolKind::GetMessages => "get_messages"@,
        ToolKind::GetHistory => "get_history"@,
        ToolKind::SearchMessages => "search_messages"@,
        ToolKind::SendMessage => "send_message"@,
        ToolKind::EditMessage => "edit_message"@,
        ToolKind::DeleteMessages => "delete_messages"@,
        ToolKind::ForwardMessages => "forward_messages"@,
        ToolKind::SendReaction => "send_reaction"@,
        ToolKind::GetScheduledMessages => "get_scheduled_messages"@,
        ToolKind::SaveDraft => "save_draft"@,
        ToolKind::ClearDrafts => "clear_drafts"@,
        ToolKind::CreatePoll => "create_poll"@,
        ToolKind::GetMessageContext => "get_message_context"@,
        ToolKind::GetMessageLink => "get_message_link"@,
        ToolKind::GetMessageReactions => "get_message_reactions"@,
        ToolKind::GetMessageReadBy => "get_message_read_by"@,
        ToolKind::GetPinnedMessages => "get_pinned_messages"@,
        ToolKind::UnpinMessage => "unpin_message"@,
        ToolKind::UnpinAllMessages => "unpin_all_messages"@,
        ToolKind::DeleteScheduledMessage => "delete_scheduled_message"@,
        ToolKind::RemoveReaction => "remove_reaction"@,
        ToolKind::DeleteChatHistory => "delete_chat_history"@,
        ToolKind::PinMessage => "pin_message"@,
        ToolKind::MarkAsRead => "mark_as_read"@,
        ToolKind::GetDrafts => "get_drafts"@,
        ToolKind::WaitForNewMessage => "wait_for_new_message"@,
        ToolKind::WaitForSettledMessage => "wait_for_settled_message"@,
        ToolKind::BanUser => "ban_user"@,
        ToolKind::PromoteAdmin => "promote_admin"@,
        ToolKind::GetParticipants => "get_participants"@,
        ToolKind::InviteUsers => "invite_users"@,
        ToolKind::DemoteAdmin => "demote_admin"@,
        ToolKind::EditAdminRights => "edit_admin_rights"@,
        ToolKind::SetDefaultChatPermissions => "set_default_chat_permissions"@,
        ToolKind::ToggleSlowMode => "toggle_slow_mode"@,
        ToolKind::GetAdmins => "get_admins"@,
        ToolKind::GetBannedUsers => "get_banned_users"@,
        ToolKind::GetRecentActions => "get_recent_actions"@,
        ToolKind::UnbanUser => "unban_user"@,
        ToolKind::GetInviteLink => "get_invite_link"@,
        ToolKind::ExportChatInvite => "export_chat_invite"@,
        ToolKind::ImportChatInvite => "import_chat_invite"@,
        ToolKind::JoinChatByLink => "join_chat_by_link"@,
        ToolKind::SendFile => "send_file"@,
        ToolKind::SendAlbum => "send_album"@,
        ToolKind::DownloadMedia => "download_media"@,
        ToolKind::GetImage => "get_image"@,
        ToolKind::SendContact => "send_contact"@,
        ToolKind::SendGif => "send_gif"@,
        ToolKind::SendSticker => "send_sticker"@,
        ToolKind::SendVoice => "send_voice"@,
        ToolKind::GetGifSearch => "get_gif_search"@,
        ToolKind::GetMediaInfo => "get_media_info"@,
        ToolKind::GetStickerSets => "get_sticker_sets"@,
        ToolKind::GetUserPhotos => "get_user_photos"@,
        ToolKind::ListFolders => "list_folders"@,
        ToolKind::GetFolder => "get_folder"@,
        ToolKind::CreateFolder => "create_folder"@,
        ToolKind::DeleteFolder => "delete_folder"@,
        ToolKind::AddChatToFolder => "add_chat_to_folder"@,
        ToolKind::RemoveChatFromFolder => "remove_chat_from_folder"@,
        ToolKind::ReorderFolders => "reorder_folders"@,
        ToolKind::ListContacts => "list_contacts"@,
        ToolKind::SearchContacts => "search_contacts"@,
        ToolKind::AddContact => "add_contact"@,
        ToolKind::DeleteContact => "delete_contact"@,
        ToolKind::BlockUser => "block_user"@,
        ToolKind::UnblockUser => "unblock_user"@,
        ToolKind::GetBlockedUsers => "get_blocked_users"@,
        ToolKind::ImportContacts => "import_contacts"@,
        ToolKind::ExportContacts => "export_contacts"@,
        ToolKind::GetContactIds => "get_contact_ids"@,
        ToolKind::GetDirectChatByContact => "get_direct_chat_by_contact"@,
        ToolKind::GetContactChats => "get_contact_chats"@,
        ToolKind::GetLastInteraction => "get_last_interaction"@,
        ToolKind::SearchGlobal => "search_global"@,
        ToolKind::SearchPublicChats => "search_public_chats"@,
        ToolKind::SubscribePublicChannel => "subscribe_public_channel"@,
        ToolKind::GetCommonChats => "get_common_chats"@,
        ToolKind::ListTopics => "list_topics"@,
        ToolKind::GetPrivacySettings => "get_privacy_settings"@,
        ToolKind::SetPrivacySettings => "set_privacy_settings"@,
    }
}

/// What a tool tells a client it does.
pub open spec fn tool_description_spec(k: ToolKind) -> Seq<char> {
    match k {
        ToolKind::GetMe => "Get your own user information."@,
        ToolKind::UpdateProfile => "Update your profile information."@,
        ToolKind::SetProfilePhoto => "Set profile photo."@,
        ToolKind::DeleteProfilePhoto => "Delete profile photo."@,
        ToolKind::GetUserStatus => "Get user status."@,
        ToolKind::ResolveUsername => "Resolve username."@,
        ToolKind::ListAccounts => "List accounts."@,
        ToolKind::GetBotInfo => "Get information about a bot."@,
        ToolKind::ListInlineButtons => "List inline buttons attached to a specific message."@,
        ToolKind::PressInlineButton => "Press an inline button attached to a message using its callback data."@,
        ToolKind::SetBotCommands => "Set bot commands."@,
        ToolKind::ListChats => "List recent conversations."@,
        ToolKind::GetChatInfo => "Get detailed information about a specific chat."@,
        ToolKind::CreateGroup => "Create a new group chat."@,
        ToolKind::CreateChannel => "Create a new channel or supergroup."@,
        ToolKind::LeaveChat => "Leave a group chat or channel."@,
        ToolKind::SetChatMuted => "Mute or unmute a chat."@,
        ToolKind::SetChatArchived => "Archive or unarchive a chat."@,
        ToolKind::EditChatAbout => "Edit chat about text."@,
        ToolKind::EditChatPhoto => "Edit chat photo."@,
        ToolKind::EditChatTitle => "Edit chat title."@,
        ToolKind::DeleteChatPhoto => "Delete chat photo."@,
        ToolKind::GetMessages => "Get messages from a chat."@,
        ToolKind::GetHistory => "Get paginated message history."@,
        ToolKind::SearchMessages => "Search for messages within a chat."@,
        ToolKind::SendMessage => "Send a text message."@,
        ToolKind::EditMessage => "Edit an existing message."@,
        ToolKind::DeleteMessages => "Delete messages from a chat."@,
        ToolKind::ForwardMessages => "Forward messages from one chat to another."@,
        ToolKind::SendReaction => "Send an emoji reaction to a message. Pass empty string to remove."@,
        ToolKind::GetScheduledMessages => "List scheduled messages for a chat."@,
        ToolKind::SaveDraft => "Save a draft message in a chat."@,
        ToolKind::ClearDrafts => "Clear all drafts on the account."@,
        ToolKind::CreatePoll => "Create a poll."@,
        ToolKind::GetMessageContext => "Get message context."@,
        ToolKind::GetMessageLink => "Get message link."@,
        ToolKind::GetMessageReactions => "Get message reactions."@,
        ToolKind::GetMessageReadBy => "Get message read by."@,
        ToolKind::GetPinnedMessages => "Get pinned messages."@,
        ToolKind::UnpinMessage => "Unpin message."@,
        ToolKind::UnpinAllMessages => "Unpin all messages."@,
        ToolKind::DeleteScheduledMessage => "Delete scheduled message."@,
        ToolKind::RemoveReaction => "Remove reaction."@,
        ToolKind::DeleteChatHistory => "Delete chat history."@,
        ToolKind::PinMessage => "Pin a message."@,
        ToolKind::MarkAsRead => "Mark chat as read."@,
        ToolKind::GetDrafts => "Get all drafts."@,
        ToolKind::WaitForNewMessage => "Wait for new message."@,
        ToolKind::WaitForSettledMessage => "Wait for settled message."@,
        ToolKind::BanUser => "Ban a user from a chat."@,
        ToolKind::PromoteAdmin => "Promote a user to admin."@,
        ToolKind::GetParticipants => "Get list of chat participants."@,
        ToolKind::InviteUsers => "Invite users to a chat."@,
        ToolKind::DemoteAdmin => "Demote an admin."@,
        ToolKind::EditAdminRights => "Edit admin rights."@,
        ToolKind::SetDefaultChatPermissions => "Set default chat permissions."@,
        ToolKind::ToggleSlowMode => "Toggle slow mode."@,
        ToolKind::GetAdmins => "Get chat admins."@,
        ToolKind::GetBannedUsers => "Get banned users."@,
        ToolKind::GetRecentActions => "Get recent admin actions."@,
        ToolKind::UnbanUser => "Unban a user."@,
        ToolKind::GetInviteLink => "Get invite link."@,
        ToolKind::ExportChatInvite => "Export chat invite."@,
        ToolKind::ImportChatInvite => "Import chat invite."@,
        ToolKind::JoinChatByLink => "Join chat by link."@,
        ToolKind::SendFile => "Send a local file to a chat."@,
        ToolKind::SendAlbum => "Send multiple files as an album."@,
        ToolKind::DownloadMedia => "Download media from a message."@,
        ToolKind::GetImage => "Get an image from a message as base64 data so the LLM can see it."@,
        ToolKind::SendContact => "Send contact."@,
        ToolKind::SendGif => "Send GIF."@,
        ToolKind::SendSticker => "Send sticker."@,
        ToolKind::SendVoice => "Send voice message."@,
        ToolKind::GetGifSearch => "Search GIFs."@,
        ToolKind::GetMediaInfo => "Get media info."@,
        ToolKind::GetStickerSets => "Get sticker sets."@,
        ToolKind::GetUserPhotos => "Get user photos."@,
        ToolKind::ListFolders => "List Telegram chat folders (dialog filters)."@,
        ToolKind::GetFolder => "Get detailed information about a chat folder."@,
        ToolKind::CreateFolder => "Create a chat folder."@,
        ToolKind::DeleteFolder => "Delete a chat folder."@,
        ToolKind::AddChatToFolder => "Add a chat to a folder."@,
        ToolKind::RemoveChatFromFolder => "Remove a chat from a folder."@,
        ToolKind::ReorderFolders => "Reorder chat folders."@,
        ToolKind::ListContacts => "List your Telegram contacts."@,
        ToolKind::SearchContacts => "Search your Telegram contacts."@,
        ToolKind::AddContact => "Add a user to your Telegram contacts."@,
        ToolKind::DeleteContact => "Remove a user from your Telegram contacts."@,
        ToolKind::BlockUser => "Block a user or peer."@,
        ToolKind::UnblockUser => "Unblock a user or peer."@,
        ToolKind::GetBlockedUsers => "Get blocked users."@,
        ToolKind::ImportContacts => "Import contacts."@,
        ToolKind::ExportContacts => "Export contacts."@,
        ToolKind::GetContactIds => "Get contact ids."@,
        ToolKind::GetDirectChatByContact => "Get direct chat by contact."@,
        ToolKind::GetContactChats => "Get contact chats."@,
        ToolKind::GetLastInteraction => "Get last interaction."@,
        ToolKind::SearchGlobal => "Search for messages globally across all chats."@,
        ToolKind::SearchPublicChats => "Search for public chats and channels."@,
        ToolKind::SubscribePublicChannel => "Subscribe to a public channel by its username."@,
        ToolKind::GetCommonChats => "Get common chats with a user."@,
        ToolKind::ListTopics => "List forum topics in a supergroup."@,
        ToolKind::GetPrivacySettings => "Get Telegram privacy settings."@,
        ToolKind::SetPrivacySettings => "Set Telegram privacy settings."@,
    }
}

/// The arguments that a tool's schema describes, in order.
pub open spec fn tool_params_spec(k: ToolKind) -> Seq<ParamModel> {
    match k {
        ToolKind::GetMe => Seq::empty(),
        ToolKind::UpdateProfile => seq![ParamModel { name: "first_name"@, kind: ParamKind::Str, description: None, default: None }, ParamModel { name: "last_name"@, kind: ParamKind::Str, description: None, default: None }, ParamModel { name: "about"@, kind: ParamKind::Str, description: None, default: None }],
        ToolKind::SetProfilePhoto => seq![ParamModel { name: "path"@, kind: ParamKind::Str, description: None, default: None }],
        ToolKind::DeleteProfilePhoto => Seq::empty(),
        ToolKind::GetUserStatus => seq![ParamModel { name: "user_id"@, kind: ParamKind::Integer, description: None, default: None }],
        ToolKind::ResolveUsername => seq![ParamModel { name: "username"@, kind: ParamKind::Str, description: None, default: None }],
        ToolKind::ListAccounts => Seq::empty(),
        ToolKind::GetBotInfo => seq![ParamModel { name: "bot_username"@, kind: ParamKind::Str, description: None, default: None }],
        ToolKind::ListInlineButtons => seq![ParamModel { name: "chat_id"@, kind: ParamKind::Integer, description: None, default: None }, ParamModel { name: "message_id"@, kind: ParamKind::Integer, description: None, default: None }],
        ToolKind::PressInlineButton => seq![ParamModel { name: "chat_id"@, kind: ParamKind::Integer, description: None, default: None }, ParamModel { name: "message_id"@, kind: ParamKind::Integer, description: None, default: None }, ParamModel { name: "button_data"@, kind: ParamKind::Str, description: Some("The base64 encoded data from list_inline_buttons"@), default: None }],
        ToolKind::SetBotCommands => seq![ParamModel { name: "commands"@, kind: ParamKind::Array, description: None, default: None }],
        ToolKind::ListChats => seq![ParamModel { name: "limit"@, kind: ParamKind::Integer, description: None, default: Some(ParamDefault::Int(10)) }],
        ToolKind::GetChatInfo => seq![ParamModel { name: "chat_id"@, kind: ParamKind::Integer, description: None, default: None }],
        ToolKind::CreateGroup => seq![ParamModel { name: "title"@, kind: ParamKind::Str, description: None, default: None }, ParamModel { name: "user_ids"@, kind: ParamKind::IntegerArray, description: None, default: None }],
        ToolKind::CreateChannel => seq![ParamModel { name: "title"@, kind: ParamKind::Str, description: None, default: None }, ParamModel { name: "about"@, kind: ParamKind::Str, description: None, default: None }, ParamModel { name: "megagroup"@, kind: ParamKind::Boolean, description: None, default: Some(ParamDefault::Bool(false)) }],
        ToolKind::LeaveChat => seq![ParamModel { name: "chat_id"@, kind: ParamKind::Integer, description: None, default: None }],
        ToolKind::SetChatMuted => seq![ParamModel { name: "chat_id"@, kind: ParamKind::Integer, description: None, default: None }, ParamModel { name: "muted"@, kind: ParamKind::Boolean, description: None, default: None }, ParamModel { name: "until"@, kind: ParamKind::Integer, description: None, default: None }],
        ToolKind::SetChatArchived => seq![ParamModel { name: "chat_id"@, kind: ParamKind::Integer, description: None, default: None }, ParamModel { name: "archived"@, kind: ParamKind::Boolean, description: None, default: None }],
        ToolKind::EditChatAbout => seq![ParamModel { name: "peer_id"@, kind: ParamKind::Integer, description: None, default: None }, ParamModel { name: "about"@, kind: ParamKind::Str, description: None, default: None }],
        ToolKind::EditChatPhoto => seq![ParamModel { name: "peer_id"@, kind: ParamKind::Integer, description: None, default: None }, ParamModel { name: "path"@, kind: ParamKind::Str, description: None, default: None }],
        ToolKind::EditChatTitle => seq![ParamModel { name: "peer_id"@, kind: ParamKind::Integer, description: None, default: None }, ParamModel { name: "title"@, kind: ParamKind::Str, description: None, default: None }],
        ToolKind::DeleteChatPhoto => seq![ParamModel { name: "peer_id"@, kind: ParamKind::Integer, description: None, default: None }],
        ToolKind::GetMessages => seq![ParamModel { name: "chat_id"@, kind: ParamKind::Integer, description: None, default: None }, ParamModel { name: "limit"@, kind: ParamKind::Integer, description: None, default: Some(ParamDefault::Int(20)) }],
        ToolKind::GetHistory => seq![ParamModel { name: "chat_id"@, kind: ParamKind::Integer, description: None, default: None }, ParamModel { name: "limit"@, kind: ParamKind::Integer, description: None, default: Some(ParamDefault::Int(20)) }, ParamModel { name: "offset_id"@, kind: ParamKind::Integer, description: None, default: None }],
        ToolKind::SearchMessages => seq![ParamModel { name: "chat_id"@, kind: ParamKind::Integer, description: None, default: None }, ParamModel { name: "query"@, kind: ParamKind::Str, description: None, default: None }, ParamModel { name: "limit"@, kind: ParamKind::Integer, description: None, default: Some(ParamDefault::Int(20)) }],
        ToolKind::SendMessage => seq![ParamModel { name: "chat_id"@, kind: ParamKind::Integer, description: None, default: None }, ParamModel { name: "text"@, kind: ParamKind::Str, description: None, default: None }, ParamModel { name: "reply_to_id"@, kind: ParamKind::Integer, description: None, default: None }],
        ToolKind::EditMessage => seq![ParamModel { name: "chat_id"@, kind: ParamKind::Integer, description: None, default: None }, ParamModel { name: "message_id"@, kind: ParamKind::Integer, description: None, default: None }, ParamModel { name: "text"@, kind: ParamKind::Str, description: None, default: None }],
        ToolKind::DeleteMessages => seq![ParamModel { name: "chat_id"@, kind: ParamKind::Integer, description: None, default: None }, ParamModel { name: "message_ids"@, kind: ParamKind::IntegerArray, description: None, default: None }, ParamModel { name: "revoke"@, kind: ParamKind::Boolean, description: None, default: Some(ParamDefault::Bool(true)) }],
        ToolKind::ForwardMessages => seq![ParamModel { name: "to_chat_id"@, kind: ParamKind::Integer, description: None, default: None }, ParamModel { name: "from_chat_id"@, kind: ParamKind::Integer, description: None, default: None }, ParamModel { name: "message_ids"@, kind: ParamKind::IntegerArray, description: None, default: None }],
        ToolKind::SendReaction => seq![ParamModel { name: "chat_id"@, kind: ParamKind::Integer, description: None, default: None }, ParamModel { name: "message_id"@, kind: ParamKind::Integer, description: None, default: None }, ParamModel { name: "emoji"@, kind: ParamKind::Str, description: None, default: None }],
        ToolKind::GetScheduledMessages => seq![ParamModel { name: "chat_id"@, kind: ParamKind::Integer, description: None, default: None }],
        ToolKind::SaveDraft => seq![ParamModel { name: "chat_id"@, kind: ParamKind::Integer, description: None, default: None }, ParamModel { name: "message"@, kind: ParamKind::Str, description: None, default: None }, ParamModel { name: "reply_to_id"@, kind: ParamKind::Integer, description: None, default: None }],
        ToolKind::ClearDrafts => Seq::empty(),
        ToolKind::CreatePoll => seq![ParamModel { name: "peer_id"@, kind: ParamKind::Integer, description: None, default: None }, ParamModel { name: "question"@, kind: ParamKind::Str, description: None, default: None }, ParamModel { name: "options"@, kind: ParamKind::Array, description: None, default: None }],
        ToolKind::GetMessageContext => seq![ParamModel { name: "peer_id"@, kind: ParamKind::Integer, description: None, default: None }, ParamModel { name: "message_id"@, kind: ParamKind::Integer, description: None, default: None }],
        ToolKind::GetMessageLink => seq![ParamModel { name: "peer_id"@, kind: ParamKind::Integer, description: None, default: None }, ParamModel { name: "message_id"@, kind: ParamKind::Integer, description: None, default: None }],
        ToolKind::GetMessageReactions => seq![ParamModel { name: "peer_id"@, kind: ParamKind::Integer, description: None, default: None }, ParamModel { name: "message_id"@, kind: ParamKind::Integer, description: None, default: None }],
        ToolKind::GetMessageReadBy => seq![ParamModel { name: "peer_id"@, kind: ParamKind::Integer, description: None, default: None }, ParamModel { name: "message_id"@, kind: ParamKind::Integer, description: None, default: None }],
        ToolKind::GetPinnedMessages => seq![ParamModel { name: "peer_id"@, kind: ParamKind::Integer, description: None, default: None }],
        ToolKind::UnpinMessage => seq![ParamModel { name: "peer_id"@, kind: ParamKind::Integer, description: None, default: None }, ParamModel { name: "message_id"@, kind: ParamKind::Integer, description: None, default: None }],
        ToolKind::UnpinAllMessages => seq![ParamModel { name: "peer_id"@, kind: ParamKind::Integer, description: None, default: None }],
        ToolKind::DeleteScheduledMessage => seq![ParamModel { name: "peer_id"@, kind: ParamKind::Integer, description: None, default: None }, ParamModel { name: "message_id"@, kind: ParamKind::Integer, description: None, default: None }],
        ToolKind::RemoveReaction => seq![ParamModel { name: "peer_id"@, kind: ParamKind::Integer, description: None, default: None }, ParamModel { name: "message_id"@, kind: ParamKind::Integer, description: None, default: None }],
        ToolKind::DeleteChatHistory => seq![ParamModel { name: "peer_id"@, kind: ParamKind::Integer, description: None, default: None }],
        ToolKind::PinMessage => seq![ParamModel { name: "peer_id"@, kind: ParamKind::Integer, description: None, default: None }, ParamModel { name: "message_id"@, kind: ParamKind::Integer, description: None, default: None }, ParamModel { name: "silent"@, kind: ParamKind::Boolean, description: None, default: None }],
        ToolKind::MarkAsRead => seq![ParamModel { name: "peer_id"@, kind: ParamKind::Integer, description: None, default: None }],
        ToolKind::GetDrafts => Seq::empty(),
        ToolKind::WaitForNewMessage => seq![ParamModel { name: "timeout"@, kind: ParamKind::Integer, description: None, default: None }],
        ToolKind::WaitForSettledMessage => seq![ParamModel { name: "settle_ms"@, kind: ParamKind::Integer, description: None, default: None }, ParamModel { name: "max_wait_ms"@, kind: ParamKind::Integer, description: None, default: None }],
        ToolKind::BanUser => seq![ParamModel { name: "chat_id"@, kind: ParamKind::Integer, description: None, default: None }, ParamModel { name: "user_id"@, kind: ParamKind::Integer, description: None, default: None }],
        ToolKind::PromoteAdmin => seq![ParamModel { name: "chat_id"@, kind: ParamKind::Integer, description: None, default: None }, ParamModel { name: "user_id"@, kind: ParamKind::Integer, description: None, default: None }, ParamModel { name: "rank"@, kind: ParamKind::Str, description: None, default: None }],
        ToolKind::GetParticipants => seq![ParamModel { name: "chat_id"@, kind: ParamKind::Integer, description: None, default: None }, ParamModel { name: "limit"@, kind: ParamKind::Integer, description: None, default: Some(ParamDefault::Int(100)) }],
        ToolKind::InviteUsers => seq![ParamModel { name: "chat_id"@, kind: ParamKind::Integer, description: None, default: None }, ParamModel { name: "user_ids"@, kind: ParamKind::IntegerArray, description: None, default: None }],
        ToolKind::DemoteAdmin => seq![ParamModel { name: "peer_id"@, kind: ParamKind::Integer, description: None, default: None }, ParamModel { name: "user_id"@, kind: ParamKind::Integer, description: None, default: None }],
        ToolKind::EditAdminRights => seq![ParamModel { name: "peer_id"@, kind: ParamKind::Integer, description: None, default: None }, ParamModel { name: "user_id"@, kind: ParamKind::Integer, description: None, default: None }, ParamModel { name: "add_admins"@, kind: ParamKind::Boolean, description: None, default: None }, ParamModel { name: "ban_users"@, kind: ParamKind::Boolean, description: None, default: None }, ParamModel { name: "pin_messages"@, kind: ParamKind::Boolean, description: None, default: None }],
        ToolKind::SetDefaultChatPermissions => seq![ParamModel { name: "peer_id"@, kind: ParamKind::Integer, description: None, default: None }, ParamModel { name: "send_messages"@, kind: ParamKind::Boolean, description: None, default: None }, ParamModel { name: "send_media"@, kind: ParamKind::Boolean, description: None, default: None }],
        ToolKind::ToggleSlowMode => seq![ParamModel { name: "peer_id"@, kind: ParamKind::Integer, description: None, default: None }, ParamModel { name: "seconds"@, kind: ParamKind::Integer, description: None, default: None }],
        ToolKind::GetAdmins => seq![ParamModel { name: "peer_id"@, kind: ParamKind::Integer, description: None, default: None }],
        ToolKind::GetBannedUsers => seq![ParamModel { name: "peer_id"@, kind: ParamKind::Integer, description: None, default: None }],
        ToolKind::GetRecentActions => seq![ParamModel { name: "peer_id"@, kind: ParamKind::Integer, description: None, default: None }, ParamModel { name: "limit"@, kind: ParamKind::Integer, description: None, default: None }],
        ToolKind::UnbanUser => seq![ParamModel { name: "peer_id"@, kind: ParamKind::Integer, description: None, default: None }, ParamModel { name: "user_id"@, kind: ParamKind::Integer, description: None, default: None }],
        ToolKind::GetInviteLink => seq![ParamModel { name: "peer_id"@, kind: ParamKind::Integer, description: None, default: None }],
        ToolKind::ExportChatInvite => seq![ParamModel { name: "peer_id"@, kind: ParamKind::Integer, description: None, default: None }],
        ToolKind::ImportChatInvite => seq![ParamModel { name: "hash"@, kind: ParamKind::Str, description: None, default: None }],
        ToolKind::JoinChatByLink => seq![ParamModel { name: "link"@, kind: ParamKind::Str, description: None, default: None }],
        ToolKind::SendFile => seq![ParamModel { name: "chat_id"@, kind: ParamKind::Integer, description: None, default: None }, ParamModel { name: "path"@, kind: ParamKind::Str, description: None, default: None }, ParamModel { name: "caption"@, kind: ParamKind::Str, description: None, default: None }],
        ToolKind::SendAlbum => seq![ParamModel { name: "chat_id"@, kind: ParamKind::Integer, description: None, default: None }, ParamModel { name: "paths"@, kind: ParamKind::StringArray, description: None, default: None }, ParamModel { name: "caption"@, kind: ParamKind::Str, description: None, default: None }],
        ToolKind::DownloadMedia => seq![ParamModel { name: "chat_id"@, kind: ParamKind::Integer, description: None, default: None }, ParamModel { name: "message_id"@, kind: ParamKind::Integer, description: None, default: None }, ParamModel { name: "path"@, kind: ParamKind::Str, description: None, default: None }],
        ToolKind::GetImage => seq![ParamModel { name: "chat_id"@, kind: ParamKind::Integer, description: None, default: None }, ParamModel { name: "message_id"@, kind: ParamKind::Integer, description: None, default: None }],
        ToolKind::SendContact => seq![ParamModel { name: "peer_id"@, kind: ParamKind::Integer, description: None, default: None }, ParamModel { name: "phone"@, kind: ParamKind::Str, description: None, default: None }, ParamModel { name: "first_name"@, kind: ParamKind::Str, description: None, default: None }, ParamModel { name: "last_name"@, kind: ParamKind::Str, description: None, default: None }],
        ToolKind::SendGif => seq![ParamModel { name: "peer_id"@, kind: ParamKind::Integer, description: None, default: None }, ParamModel { name: "path"@, kind: ParamKind::Str, description: None, default: None }, ParamModel { name: "caption"@, kind: ParamKind::Str, description: None, default: None }],
        ToolKind::SendSticker => seq![ParamModel { name: "peer_id"@, kind: ParamKind::Integer, description: None, default: None }, ParamModel { name: "path"@, kind: ParamKind::Str, description: None, default: None }],
        ToolKind::SendVoice => seq![ParamModel { name: "peer_id"@, kind: ParamKind::Integer, description: None, default: None }, ParamModel { name: "path"@, kind: ParamKind::Str, description: None, default: None }, ParamModel { name: "caption"@, kind: ParamKind::Str, description: None, default: None }],
        ToolKind::GetGifSearch => seq![ParamModel { name: "query"@, kind: ParamKind::Str, description: None, default: None }],
        ToolKind::GetMediaInfo => seq![ParamModel { name: "peer_id"@, kind: ParamKind::Integer, description: None, default: None }, ParamModel { name: "message_id"@, kind: ParamKind::Integer, description: None, default: None }],
        ToolKind::GetStickerSets => Seq::empty(),
        ToolKind::GetUserPhotos => seq![ParamModel { name: "user_id"@, kind: ParamKind::Integer, description: None, default: None }],
        ToolKind::ListFolders => Seq::empty(),
        ToolKind::GetFolder => seq![ParamModel { name: "folder_id"@, kind: ParamKind::Integer, description: None, default: None }],
        ToolKind::CreateFolder => seq![ParamModel { name: "title"@, kind: ParamKind::Str, description: None, default: None }, ParamModel { name: "included_peers"@, kind: ParamKind::Array, description: None, default: None }, ParamModel { name: "excluded_peers"@, kind: ParamKind::Array, description: None, default: None }],
        ToolKind::DeleteFolder => seq![ParamModel { name: "folder_id"@, kind: ParamKind::Integer, description: None, default: None }],
        ToolKind::AddChatToFolder => seq![ParamModel { name: "folder_id"@, kind: ParamKind::Integer, description: None, default: None }, ParamModel { name: "peer_id"@, kind: ParamKind::Integer, description: None, default: None }],
        ToolKind::RemoveChatFromFolder => seq![ParamModel { name: "folder_id"@, kind: ParamKind::Integer, description: None, default: None }, ParamModel { name: "peer_id"@, kind: ParamKind::Integer, description: None, default: None }],
        ToolKind::ReorderFolders => seq![ParamModel { name: "folder_ids"@, kind: ParamKind::Array, description: None, default: None }],
        ToolKind::ListContacts => Seq::empty(),
        ToolKind::SearchContacts => seq![ParamModel { name: "query"@, kind: ParamKind::Str, description: None, default: None }],
        ToolKind::AddContact => seq![ParamModel { name: "user_id"@, kind: ParamKind::Integer, description: None, default: None }, ParamModel { name: "first_name"@, kind: ParamKind::Str, description: None, default: None }, ParamModel { name: "last_name"@, kind: ParamKind::Str, description: None, default: None }, ParamModel { name: "phone"@, kind: ParamKind::Str, description: None, default: None }],
        ToolKind::DeleteContact => seq![ParamModel { name: "user_id"@, kind: ParamKind::Integer, description: None, default: None }],
        ToolKind::BlockUser => seq![ParamModel { name: "peer_id"@, kind: ParamKind::Integer, description: None, default: None }],
        ToolKind::UnblockUser => seq![ParamModel { name: "peer_id"@, kind: ParamKind::Integer, description: None, default: None }],
        ToolKind::GetBlockedUsers => Seq::empty(),
        ToolKind::ImportContacts => seq![ParamModel { name: "contacts"@, kind: ParamKind::Array, description: None, default: None }],
        ToolKind::ExportContacts => Seq::empty(),
        ToolKind::GetContactIds => Seq::empty(),
        ToolKind::GetDirectChatByContact => seq![ParamModel { name: "contact_query"@, kind: ParamKind::Str, description: None, default: None }],
        ToolKind::GetContactChats => seq![ParamModel { name: "contact_id"@, kind: ParamKind::Integer, description: None, default: None }],
        ToolKind::GetLastInteraction => seq![ParamModel { name: "contact_id"@, kind: ParamKind::Integer, description: None, default: None }],
        ToolKind::SearchGlobal => seq![ParamModel { name: "query"@, kind: ParamKind::Str, description: None, default: None }],
        ToolKind::SearchPublicChats => seq![ParamModel { name: "query"@, kind: ParamKind::Str, description: None, default: None }],
        ToolKind::SubscribePublicChannel => seq![ParamModel { name: "query"@, kind: ParamKind::Str, description: None, default: None }],
        ToolKind::GetCommonChats => seq![ParamModel { name: "user_id"@, kind: ParamKind::Integer, description: None, default: None }],
        ToolKind::ListTopics => seq![ParamModel { name: "peer_id"@, kind: ParamKind::Integer, description: None, default: None }],
        ToolKind::GetPrivacySettings => Seq::empty(),
        ToolKind::SetPrivacySettings => seq![ParamModel { name: "key"@, kind: ParamKind::Str, description: None, default: None }, ParamModel { name: "value"@, kind: ParamKind::Str, description: None, default: None }],
    }
}

/// The arguments that a tool's schema marks required, where it gives a list.
pub open spec fn tool_required_spec(k: ToolKind) -> Option<Seq<Seq<char>>> {
    match k {
        ToolKind::GetMe => Some(Seq::empty()),
        ToolKind::UpdateProfile => None,
        ToolKind::SetProfilePhoto => Some(seq!["path"@]),
        ToolKind::DeleteProfilePhoto => None,
        ToolKind::GetUserStatus => Some(seq!["user_id"@]),
        ToolKind::ResolveUsername => Some(seq!["username"@]),
        ToolKind::ListAccounts => None,
        ToolKind::GetBotInfo => Some(seq!["bot_username"@]),
        ToolKind::ListInlineButtons => Some(seq!["chat_id"@, "message_id"@]),
        ToolKind::PressInlineButton => Some(seq!["chat_id"@, "message_id"@, "button_data"@]),
        ToolKind::SetBotCommands => Some(seq!["commands"@]),
        ToolKind::ListChats => None,
        ToolKind::GetChatInfo => Some(seq!["chat_id"@]),
        ToolKind::CreateGroup => Some(seq!["title"@, "user_ids"@]),
        ToolKind::CreateChannel => Some(seq!["title"@, "about"@]),
        ToolKind::LeaveChat => Some(seq!["chat_id"@]),
        ToolKind::SetChatMuted => Some(seq!["chat_id"@, "muted"@]),
        ToolKind::SetChatArchived => Some(seq!["chat_id"@, "archived"@]),
        ToolKind::EditChatAbout => Some(seq!["peer_id"@, "about"@]),
        ToolKind::EditChatPhoto => Some(seq!["peer_id"@, "path"@]),
        ToolKind::EditChatTitle => Some(seq!["peer_id"@, "title"@]),
        ToolKind::DeleteChatPhoto => Some(seq!["peer_id"@]),
        ToolKind::GetMessages => Some(seq!["chat_id"@]),
        ToolKind::GetHistory => Some(seq!["chat_id"@]),
        ToolKind::SearchMessages => Some(seq!["chat_id"@, "query"@]),
        ToolKind::SendMessage => Some(seq!["chat_id"@, "text"@]),
        ToolKind::EditMessage => Some(seq!["chat_id"@, "message_id"@, "text"@]),
        ToolKind::DeleteMessages => Some(seq!["chat_id"@, "message_ids"@]),
        ToolKind::ForwardMessages => Some(seq!["to_chat_id"@, "from_chat_id"@, "message_ids"@]),
        ToolKind::SendReaction => Some(seq!["chat_id"@, "message_id"@, "emoji"@]),
        ToolKind::GetScheduledMessages => Some(seq!["chat_id"@]),
        ToolKind::SaveDraft => Some(seq!["chat_id"@, "message"@]),
        ToolKind::ClearDrafts => None,
        ToolKind::CreatePoll => Some(seq!["peer_id"@, "question"@, "options"@]),
        ToolKind::GetMessageContext => Some(seq!["peer_id"@, "message_id"@]),
        ToolKind::GetMessageLink => Some(seq!["peer_id"@, "message_id"@]),
        ToolKind::GetMessageReactions => Some(seq!["peer_id"@, "message_id"@]),
        ToolKind::GetMessageReadBy => Some(seq!["peer_id"@, "message_id"@]),
        ToolKind::GetPinnedMessages => Some(seq!["peer_id"@]),
        ToolKind::UnpinMessage => Some(seq!["peer_id"@, "message_id"@]),
        ToolKind::UnpinAllMessages => Some(seq!["peer_id"@]),
        ToolKind::DeleteScheduledMessage => Some(seq!["peer_id"@, "message_id"@]),
        ToolKind::RemoveReaction => Some(seq!["peer_id"@, "message_id"@]),
        ToolKind::DeleteChatHistory => Some(seq!["peer_id"@]),
        ToolKind::PinMessage => Some(seq!["peer_id"@, "message_id"@, "silent"@]),
        ToolKind::MarkAsRead => Some(seq!["peer_id"@]),
        ToolKind::GetDrafts => None,
        ToolKind::WaitForNewMessage => Some(seq!["timeout"@]),
        ToolKind::WaitForSettledMessage => Some(seq!["settle_ms"@, "max_wait_ms"@]),
        ToolKind::BanUser => Some(seq!["chat_id"@, "user_id"@]),
        ToolKind::PromoteAdmin => Some(seq!["chat_id"@, "user_id"@]),
        ToolKind::GetParticipants => Some(seq!["chat_id"@]),
        ToolKind::InviteUsers => Some(seq!["chat_id"@, "user_ids"@]),
        ToolKind::DemoteAdmin => Some(seq!["peer_id"@, "user_id"@]),
        ToolKind::EditAdminRights => Some(seq!["peer_id"@, "user_id"@, "add_admins"@, "ban_users"@, "pin_messages"@]),
        ToolKind::SetDefaultChatPermissions => Some(seq!["peer_id"@, "send_messages"@, "send_media"@]),
        ToolKind::ToggleSlowMode => Some(seq!["peer_id"@, "seconds"@]),
        ToolKind::GetAdmins => Some(seq!["peer_id"@]),
        ToolKind::GetBannedUsers => Some(seq!["peer_id"@]),
        ToolKind::GetRecentActions => Some(seq!["peer_id"@, "limit"@]),
        ToolKind::UnbanUser => Some(seq!["peer_id"@, "user_id"@]),
        ToolKind::GetInviteLink => Some(seq!["peer_id"@]),
        ToolKind::ExportChatInvite => Some(seq!["peer_id"@]),
        ToolKind::ImportChatInvite => Some(seq!["hash"@]),
        ToolKind::JoinChatByLink => Some(seq!["link"@]),
        ToolKind::SendFile => Some(seq!["chat_id"@, "path"@]),
        ToolKind::SendAlbum => Some(seq!["chat_id"@, "paths"@]),
        ToolKind::DownloadMedia => Some(seq!["chat_id"@, "message_id"@]),
        ToolKind::GetImage => Some(seq!["chat_id"@, "message_id"@]),
        ToolKind::SendContact => Some(seq!["peer_id"@, "phone"@, "first_name"@, "last_name"@]),
        ToolKind::SendGif => Some(seq!["peer_id"@, "path"@]),
        ToolKind::SendSticker => Some(seq!["peer_id"@, "path"@]),
        ToolKind::SendVoice => Some(seq!["peer_id"@, "path"@]),
        ToolKind::GetGifSearch => Some(seq!["query"@]),
        ToolKind::GetMediaInfo => Some(seq!["peer_id"@, "message_id"@]),
        ToolKind::GetStickerSets => None,
        ToolKind::GetUserPhotos => Some(seq!["user_id"@]),
        ToolKind::ListFolders => None,
        ToolKind::GetFolder => Some(seq!["folder_id"@]),
        ToolKind::CreateFolder => Some(seq!["title"@, "included_peers"@, "excluded_peers"@]),
        ToolKind::DeleteFolder => Some(seq!["folder_id"@]),
        ToolKind::AddChatToFolder => Some(seq!["folder_id"@, "peer_id"@]),
        ToolKind::RemoveChatFromFolder => Some(seq!["folder_id"@, "peer_id"@]),
        ToolKind::ReorderFolders => Some(seq!["folder_ids"@]),
        ToolKind::ListContacts => None,
        ToolKind::SearchContacts => Some(seq!["query"@]),
        ToolKind::AddContact => Some(seq!["user_id"@, "first_name"@]),
        ToolKind::DeleteContact => Some(seq!["user_id"@]),
        ToolKind::BlockUser => Some(seq!["peer_id"@]),
        ToolKind::UnblockUser => Some(seq!["peer_id"@]),
        ToolKind::GetBlockedUsers => None,
        ToolKind::ImportContacts => Some(seq!["contacts"@]),
        ToolKind::ExportContacts => None,
        ToolKind::GetContactIds => None,
        ToolKind::GetDirectChatByContact => Some(seq!["contact_query"@]),
        ToolKind::GetContactChats => Some(seq!["contact_id"@]),
        ToolKind::GetLastInteraction => Some(seq!["contact_id"@]),
        ToolKind::SearchGlobal => Some(seq!["query"@]),
        ToolKind::SearchPublicChats => Some(seq!["query"@]),
        ToolKind::SubscribePublicChannel => Some(seq!["query"@]),
        ToolKind::GetCommonChats => Some(seq!["user_id"@]),
        ToolKind::ListTopics => Some(seq!["peer_id"@]),
        ToolKind::GetPrivacySettings => None,
        ToolKind::SetPrivacySettings => Some(seq!["key"@, "value"@]),
    }
}

/// The kind of reply that the request of a tool is answered with.
pub open spec fn tool_shape_spec(k: ToolKind) -> ReplyShape {
    match k {
        ToolKind::GetMe => ReplyShape::User,
        ToolKind::UpdateProfile => ReplyShape::Unit,
        ToolKind::SetProfilePhoto => ReplyShape::Unit,
        ToolKind::DeleteProfilePhoto => ReplyShape::Unit,
        ToolKind::GetUserStatus => ReplyShape::Text,
        ToolKind::ResolveUsername => ReplyShape::Id,
        ToolKind::ListAccounts => ReplyShape::Texts,
        ToolKind::GetBotInfo => ReplyShape::Bot,
        ToolKind::ListInlineButtons => ReplyShape::Texts,
        ToolKind::PressInlineButton => ReplyShape::Text,
        ToolKind::SetBotCommands => ReplyShape::Unit,
        ToolKind::ListChats => ReplyShape::Chats,
        ToolKind::GetChatInfo => ReplyShape::Chat,
        ToolKind::CreateGroup => ReplyShape::Id,
        ToolKind::CreateChannel => ReplyShape::Id,
        ToolKind::LeaveChat => ReplyShape::Unit,
        ToolKind::SetChatMuted => ReplyShape::Unit,
        ToolKind::SetChatArchived => ReplyShape::Unit,
        ToolKind::EditChatAbout => ReplyShape::Unit,
        ToolKind::EditChatPhoto => ReplyShape::Unit,
        ToolKind::EditChatTitle => ReplyShape::Unit,
        ToolKind::DeleteChatPhoto => ReplyShape::Unit,
        ToolKind::GetMessages => ReplyShape::Messages,
        ToolKind::GetHistory => ReplyShape::Messages,
        ToolKind::SearchMessages => ReplyShape::Messages,
        ToolKind::SendMessage => ReplyShape::Message,
        ToolKind::EditMessage => ReplyShape::Unit,
        ToolKind::DeleteMessages => ReplyShape::Unit,
        ToolKind::ForwardMessages => ReplyShape::Messages,
        ToolKind::SendReaction => ReplyShape::Unit,
        ToolKind::GetScheduledMessages => ReplyShape::Messages,
        ToolKind::SaveDraft => ReplyShape::Unit,
        ToolKind::ClearDrafts => ReplyShape::Unit,
        ToolKind::CreatePoll => ReplyShape::Message,
        ToolKind::GetMessageContext => ReplyShape::Messages,
        ToolKind::GetMessageLink => ReplyShape::Text,
        ToolKind::GetMessageReactions => ReplyShape::Texts,
        ToolKind::GetMessageReadBy => ReplyShape::Users,
        ToolKind::GetPinnedMessages => ReplyShape::Messages,
        ToolKind::UnpinMessage => ReplyShape::Unit,
        ToolKind::UnpinAllMessages => ReplyShape::Unit,
        ToolKind::DeleteScheduledMessage => ReplyShape::Unit,
        ToolKind::RemoveReaction => ReplyShape::Unit,
        ToolKind::DeleteChatHistory => ReplyShape::Unit,
        ToolKind::PinMessage => ReplyShape::Unit,
        ToolKind::MarkAsRead => ReplyShape::Unit,
        ToolKind::GetDrafts => ReplyShape::Messages,
        ToolKind::WaitForNewMessage => ReplyShape::Message,
        ToolKind::WaitForSettledMessage => ReplyShape::Message,
        ToolKind::BanUser => ReplyShape::Unit,
        ToolKind::PromoteAdmin => ReplyShape::Unit,
        ToolKind::GetParticipants => ReplyShape::Users,
        ToolKind::InviteUsers => ReplyShape::Unit,
        ToolKind::DemoteAdmin => ReplyShape::Unit,
        ToolKind::EditAdminRights => ReplyShape::Unit,
        ToolKind::SetDefaultChatPermissions => ReplyShape::Unit,
        ToolKind::ToggleSlowMode => ReplyShape::Unit,
        ToolKind::GetAdmins => ReplyShape::Users,
        ToolKind::GetBannedUsers => ReplyShape::Users,
        ToolKind::GetRecentActions => ReplyShape::Texts,
        ToolKind::UnbanUser => ReplyShape::Unit,
        ToolKind::GetInviteLink => ReplyShape::Text,
        ToolKind::ExportChatInvite => ReplyShape::Text,
        ToolKind::ImportChatInvite => ReplyShape::Id,
        ToolKind::JoinChatByLink => ReplyShape::Id,
        ToolKind::SendFile => ReplyShape::Message,
        ToolKind::SendAlbum => ReplyShape::Messages,
        ToolKind::DownloadMedia => ReplyShape::Path,
        ToolKind::GetImage => ReplyShape::Path,
        ToolKind::SendContact => ReplyShape::Message,
        ToolKind::SendGif => ReplyShape::Message,
        ToolKind::SendSticker => ReplyShape::Message,
        ToolKind::SendVoice => ReplyShape::Message,
        ToolKind::GetGifSearch => ReplyShape::Texts,
        ToolKind::GetMediaInfo => ReplyShape::Text,
        ToolKind::GetStickerSets => ReplyShape::Texts,
        ToolKind::GetUserPhotos => ReplyShape::Texts,
        ToolKind::ListFolders => ReplyShape::Folders,
        ToolKind::GetFolder => ReplyShape::Folder,
        ToolKind::CreateFolder => ReplyShape::Number,
        ToolKind::DeleteFolder => ReplyShape::Unit,
        ToolKind::AddChatToFolder => ReplyShape::Unit,
        ToolKind::RemoveChatFromFolder => ReplyShape::Unit,
        ToolKind::ReorderFolders => ReplyShape::Unit,
        ToolKind::ListContacts => ReplyShape::Contacts,
        ToolKind::SearchContacts => ReplyShape::Contacts,
        ToolKind::AddContact => ReplyShape::Unit,
        ToolKind::DeleteContact => ReplyShape::Unit,
        ToolKind::BlockUser => ReplyShape::Unit,
        ToolKind::UnblockUser => ReplyShape::Unit,
        ToolKind::GetBlockedUsers => ReplyShape::Users,
        ToolKind::ImportContacts => ReplyShape::Unit,
        ToolKind::ExportContacts => ReplyShape::Text,
        ToolKind::GetContactIds => ReplyShape::Ids,
        ToolKind::GetDirectChatByContact => ReplyShape::Id,
        ToolKind::GetContactChats => ReplyShape::Chats,
        ToolKind::GetLastInteraction => ReplyShape::Number,
        ToolKind::SearchGlobal => ReplyShape::Messages,
        ToolKind::SearchPublicChats => ReplyShape::Chats,
        ToolKind::SubscribePublicChannel => ReplyShape::Unit,
        ToolKind::GetCommonChats => ReplyShape::Chats,
        ToolKind::ListTopics => ReplyShape::Texts,
        ToolKind::GetPrivacySettings => ReplyShape::Text,
        ToolKind::SetPrivacySettings => ReplyShape::Unit,
    }
}

pub open spec fn tool_info_spec(k: ToolKind) -> ToolInfoModel {
    ToolInfoModel {
        name: tool_name_spec(k),
        description: tool_description_spec(k),
        input_schema: schema_model(tool_params_spec(k), tool_required_spec(k)),
    }
}

pub open spec fn prepared_view(r: Result<ServiceCall, JsonRpcError>) -> Result<CallModel, ErrorModel> {
    match r {
        Ok(c) => Ok(c@),
        Err(e) => Err(e@),
    }
}

/// The request that a tool makes of its arguments, or the error that it
/// answers them with.
pub open spec fn prepare_spec(k: ToolKind, a: JsonModel) -> Result<CallModel, ErrorModel> {
    match k {
        ToolKind::GetMe => get_me_call(a),
        ToolKind::UpdateProfile => update_profile_call(a),
        ToolKind::SetProfilePhoto => set_profile_photo_call(a),
        ToolKind::DeleteProfilePhoto => delete_profile_photo_call(a),
        ToolKind::GetUserStatus => get_user_status_call(a),
        ToolKind::ResolveUsername => resolve_username_call(a),
        ToolKind::ListAccounts => list_accounts_call(a),
        ToolKind::GetBotInfo => get_bot_info_call(a),
        ToolKind::ListInlineButtons => list_inline_buttons_call(a),
        ToolKind::PressInlineButton => press_inline_button_call(a),
        ToolKind::SetBotCommands => set_bot_commands_call(a),
        ToolKind::ListChats => list_chats_call(a),
        ToolKind::GetChatInfo => get_chat_info_call(a),
        ToolKind::CreateGroup => create_group_call(a),
        ToolKind::CreateChannel => create_channel_call(a),
        ToolKind::LeaveChat => leave_chat_call(a),
        ToolKind::SetChatMuted => set_chat_muted_call(a),
        ToolKind::SetChatArchived => set_chat_archived_call(a),
        ToolKind::EditChatAbout => edit_chat_about_call(a),
        ToolKind::EditChatPhoto => edit_chat_photo_call(a),
        ToolKind::EditChatTitle => edit_chat_title_call(a),
        ToolKind::DeleteChatPhoto => delete_chat_photo_call(a),
        ToolKind::GetMessages => get_messages_call(a),
        ToolKind::GetHistory => get_history_call(a),
        ToolKind::SearchMessages => search_messages_call(a),
        ToolKind::SendMessage => send_message_call(a),
        ToolKind::EditMessage => edit_message_call(a),
        ToolKind::DeleteMessages => delete_messages_call(a),
        ToolKind::ForwardMessages => forward_messages_call(a),
        ToolKind::SendReaction => send_reaction_call(a),
        ToolKind::GetScheduledMessages => get_scheduled_messages_call(a),
        ToolKind::SaveDraft => save_draft_call(a),
        ToolKind::ClearDrafts => clear_drafts_call(a),
        ToolKind::CreatePoll => create_poll_call(a),
        ToolKind::GetMessageContext => get_message_context_call(a),
        ToolKind::GetMessageLink => get_message_link_call(a),
        ToolKind::GetMessageReactions => get_message_reactions_call(a),
        ToolKind::GetMessageReadBy => get_message_read_by_call(a),
        ToolKind::GetPinnedMessages => get_pinned_messages_call(a),
        ToolKind::UnpinMessage => unpin_message_call(a),
        ToolKind::UnpinAllMessages => unpin_all_messages_call(a),
        ToolKind::DeleteScheduledMessage => delete_scheduled_message_call(a),
        ToolKind::RemoveReaction => remove_reaction_call(a),
        ToolKind::DeleteChatHistory => delete_chat_history_call(a),
        ToolKind::PinMessage => pin_message_call(a),
        ToolKind::MarkAsRead => mark_as_read_call(a),
        ToolKind::GetDrafts => get_drafts_call(a),
        ToolKind::WaitForNewMessage => wait_for_new_message_call(a),
        ToolKind::WaitForSettledMessage => wait_for_settled_message_call(a),
        ToolKind::BanUser => ban_user_call(a),
        ToolKind::PromoteAdmin => promote_admin_call(a),
        ToolKind::GetParticipants => get_participants_call(a),
        ToolKind::InviteUsers => invite_users_call(a),
        ToolKind::DemoteAdmin => demote_admin_call(a),
        ToolKind::EditAdminRights => edit_admin_rights_call(a),
        ToolKind::SetDefaultChatPermissions => set_default_chat_permissions_call(a),
        ToolKind::ToggleSlowMode => toggle_slow_mode_call(a),
        ToolKind::GetAdmins => get_admins_call(a),
        ToolKind::GetBannedUsers => get_banned_users_call(a),
        ToolKind::GetRecentActions => get_recent_actions_call(a),
        ToolKind::UnbanUser => unban_user_call(a),
        ToolKind::GetInviteLink => get_invite_link_call(a),
        ToolKind::ExportChatInvite => export_chat_invite_call(a),
        ToolKind::ImportChatInvite => import_chat_invite_call(a),
        ToolKind::JoinChatByLink => join_chat_by_link_call(a),
        ToolKind::SendFile => send_file_call(a),
        ToolKind::SendAlbum => send_album_call(a),
        ToolKind::DownloadMedia => download_media_call(a),
        ToolKind::GetImage => get_image_call(a),
        ToolKind::SendContact => send_contact_call(a),
        ToolKind::SendGif => send_gif_call(a),
        ToolKind::SendSticker => send_sticker_call(a),
        ToolKind::SendVoice => send_voice_call(a),
        ToolKind::GetGifSearch => get_gif_search_call(a),
        ToolKind::GetMediaInfo => get_media_info_call(a),
        ToolKind::GetStickerSets => get_sticker_sets_call(a),
        ToolKind::GetUserPhotos => get_user_photos_call(a),
        ToolKind::ListFolders => list_folders_call(a),
        ToolKind::GetFolder => get_folder_call(a),
        ToolKind::CreateFolder => create_folder_call(a),
        ToolKind::DeleteFolder => delete_folder_call(a),
        ToolKind::AddChatToFolder => add_chat_to_folder_call(a),
        ToolKind::RemoveChatFromFolder => remove_chat_from_folder_call(a),
        ToolKind::ReorderFolders => reorder_folders_call(a),
        ToolKind::ListContacts => list_contacts_call(a),
        ToolKind::SearchContacts => search_contacts_call(a),
        ToolKind::AddContact => add_contact_call(a),
        ToolKind::DeleteContact => delete_contact_call(a),
        ToolKind::BlockUser => block_user_call(a),
        ToolKind::UnblockUser => unblock_user_call(a),
        ToolKind::GetBlockedUsers => get_blocked_users_call(a),
        ToolKind::ImportContacts => import_contacts_call(a),
        ToolKind::ExportContacts => export_contacts_call(a),
        ToolKind::GetContactIds => get_contact_ids_call(a),
        ToolKind::GetDirectChatByContact => get_direct_chat_by_contact_call(a),
        ToolKind::GetContactChats => get_contact_chats_call(a),
        ToolKind::GetLastInteraction => get_last_interaction_call(a),
        ToolKind::SearchGlobal => search_global_call(a),
        ToolKind::SearchPublicChats => search_public_chats_call(a),
        ToolKind::SubscribePublicChannel => subscribe_public_channel_call(a),
        ToolKind::GetCommonChats => get_common_chats_call(a),
        ToolKind::ListTopics => list_topics_call(a),
        ToolKind::GetPrivacySettings => get_privacy_settings_call(a),
        ToolKind::SetPrivacySettings => set_privacy_settings_call(a),
    }
}

/// The kind of reply that the request of a tool is answered with.
pub fn tool_shape(k: ToolKind) -> (s: ReplyShape)
    ensures
        s == tool_shape_spec(k),
{
    match k {
        ToolKind::GetMe => ReplyShape::User,
        ToolKind::UpdateProfile => ReplyShape::Unit,
        ToolKind::SetProfilePhoto => ReplyShape::Unit,
        ToolKind::DeleteProfilePhoto => ReplyShape::Unit,
        ToolKind::GetUserStatus => ReplyShape::Text,
        ToolKind::ResolveUsername => ReplyShape::Id,
        ToolKind::ListAccounts => ReplyShape::Texts,
        ToolKind::GetBotInfo => ReplyShape::Bot,
        ToolKind::ListInlineButtons => ReplyShape::Texts,
        ToolKind::PressInlineButton => ReplyShape::Text,
        ToolKind::SetBotCommands => ReplyShape::Unit,
        ToolKind::ListChats => ReplyShape::Chats,
        ToolKind::GetChatInfo => ReplyShape::Chat,
        ToolKind::CreateGroup => ReplyShape::Id,
        ToolKind::CreateChannel => ReplyShape::Id,
        ToolKind::LeaveChat => ReplyShape::Unit,
        ToolKind::SetChatMuted => ReplyShape::Unit,
        ToolKind::SetChatArchived => ReplyShape::Unit,
        ToolKind::EditChatAbout => ReplyShape::Unit,
        ToolKind::EditChatPhoto => ReplyShape::Unit,
        ToolKind::EditChatTitle => ReplyShape::Unit,
        ToolKind::DeleteChatPhoto => ReplyShape::Unit,
        ToolKind::GetMessages => ReplyShape::Messages,
        ToolKind::GetHistory => ReplyShape::Messages,
        ToolKind::SearchMessages => ReplyShape::Messages,
        ToolKind::SendMessage => ReplyShape::Message,
        ToolKind::EditMessage => ReplyShape::Unit,
        ToolKind::DeleteMessages => ReplyShape::Unit,
        ToolKind::ForwardMessages => ReplyShape::Messages,
        ToolKind::SendReaction => ReplyShape::Unit,
        ToolKind::GetScheduledMessages => ReplyShape::Messages,
        ToolKind::SaveDraft => ReplyShape::Unit,
        ToolKind::ClearDrafts => ReplyShape::Unit,
        ToolKind::CreatePoll => ReplyShape::Message,
        ToolKind::GetMessageContext => ReplyShape::Messages,
        ToolKind::GetMessageLink => ReplyShape::Text,
        ToolKind::GetMessageReactions => ReplyShape::Texts,
        ToolKind::GetMessageReadBy => ReplyShape::Users,
        ToolKind::GetPinnedMessages => ReplyShape::Messages,
        ToolKind::UnpinMessage => ReplyShape::Unit,
        ToolKind::UnpinAllMessages => ReplyShape::Unit,
        ToolKind::DeleteScheduledMessage => ReplyShape::Unit,
        ToolKind::RemoveReaction => ReplyShape::Unit,
        ToolKind::DeleteChatHistory => ReplyShape::Unit,
        ToolKind::PinMessage => ReplyShape::Unit,
        ToolKind::MarkAsRead => ReplyShape::Unit,
        ToolKind::GetDrafts => ReplyShape::Messages,
        ToolKind::WaitForNewMessage => ReplyShape::Message,
        ToolKind::WaitForSettledMessage => ReplyShape::Message,
        ToolKind::BanUser => ReplyShape::Unit,
        ToolKind::PromoteAdmin => ReplyShape::Unit,
        ToolKind::GetParticipants => ReplyShape::Users,
        ToolKind::InviteUsers => ReplyShape::Unit,
        ToolKind::DemoteAdmin => ReplyShape::Unit,
        ToolKind::EditAdminRights => ReplyShape::Unit,
        ToolKind::SetDefaultChatPermissions => ReplyShape::Unit,
        ToolKind::ToggleSlowMode => ReplyShape::Unit,
        ToolKind::GetAdmins => ReplyShape::Users,
        ToolKind::GetBannedUsers => ReplyShape::Users,
        ToolKind::GetRecentActions => ReplyShape::Texts,
        ToolKind::UnbanUser => ReplyShape::Unit,
        ToolKind::GetInviteLink => ReplyShape::Text,
        ToolKind::ExportChatInvite => ReplyShape::Text,
        ToolKind::ImportChatInvite => ReplyShape::Id,
        ToolKind::JoinChatByLink => ReplyShape::Id,
        ToolKind::SendFile => ReplyShape::Message,
        ToolKind::SendAlbum => ReplyShape::Messages,
        ToolKind::DownloadMedia => ReplyShape::Path,
        ToolKind::GetImage => ReplyShape::Path,
        ToolKind::SendContact => ReplyShape::Message,
        ToolKind::SendGif => ReplyShape::Message,
        ToolKind::SendSticker => ReplyShape::Message,
        ToolKind::SendVoice => ReplyShape::Message,
        ToolKind::GetGifSearch => ReplyShape::Texts,
        ToolKind::GetMediaInfo => ReplyShape::Text,
        ToolKind::GetStickerSets => ReplyShape::Texts,
        ToolKind::GetUserPhotos => ReplyShape::Texts,
        ToolKind::ListFolders => ReplyShape::Folders,
        ToolKind::GetFolder => ReplyShape::Folder,
        ToolKind::CreateFolder => ReplyShape::Number,
        ToolKind::DeleteFolder => ReplyShape::Unit,
        ToolKind::AddChatToFolder => ReplyShape::Unit,
        ToolKind::RemoveChatFromFolder => ReplyShape::Unit,
        ToolKind::ReorderFolders => ReplyShape::Unit,
        ToolKind::ListContacts => ReplyShape::Contacts,
        ToolKind::SearchContacts => ReplyShape::Contacts,
        ToolKind::AddContact => ReplyShape::Unit,
        ToolKind::DeleteContact => ReplyShape::Unit,
        ToolKind::BlockUser => ReplyShape::Unit,
        ToolKind::UnblockUser => ReplyShape::Unit,
        ToolKind::GetBlockedUsers => ReplyShape::Users,
        ToolKind::ImportContacts => ReplyShape::Unit,
        ToolKind::ExportContacts => ReplyShape::Text,
        ToolKind::GetContactIds => ReplyShape::Ids,
        ToolKind::GetDirectChatByContact => ReplyShape::Id,
        ToolKind::GetContactChats => ReplyShape::Chats,
        ToolKind::GetLastInteraction => ReplyShape::Number,
        ToolKind::SearchGlobal => ReplyShape::Messages,
        ToolKind::SearchPublicChats => ReplyShape::Chats,
        ToolKind::SubscribePublicChannel => ReplyShape::Unit,
        ToolKind::GetCommonChats => ReplyShape::Chats,
        ToolKind::ListTopics => ReplyShape::Texts,
        ToolKind::GetPrivacySettings => ReplyShape::Text,
        ToolKind::SetPrivacySettings => ReplyShape::Unit,
    }
}

/// Every request that a tool makes is answered with the tool's kind of reply.
pub proof fn lemma_prepared_shape(k: ToolKind, a: JsonModel)
    ensures
        prepare_spec(k, a) is Ok ==> call_shape(prepare_spec(k, a)->Ok_0) == tool_shape_spec(k),
{
}

/// The text that a tool answers a successful request with.
pub open spec fn ok_text_spec(k: ToolKind, call: CallModel, answer: ServiceAnswer) -> Seq<char> {
    match k {
        ToolKind::GetMe => user_line_spec(answer.reply),
        ToolKind::UpdateProfile => "Profile updated."@,
        ToolKind::SetProfilePhoto => "Profile photo set."@,
        ToolKind::DeleteProfilePhoto => answer.serialized@,
        ToolKind::GetUserStatus => answer.serialized@,
        ToolKind::ResolveUsername => answer.serialized@,
        ToolKind::ListAccounts => answer.serialized@,
        ToolKind::GetBotInfo => answer.serialized@,
        ToolKind::ListInlineButtons => answer.serialized@,
        ToolKind::PressInlineButton => raw_text_spec(answer.reply),
        ToolKind::SetBotCommands => answer.serialized@,
        ToolKind::ListChats => answer.serialized@,
        ToolKind::GetChatInfo => answer.serialized@,
        ToolKind::CreateGroup => id_line_spec("Group created (ID: "@, answer.reply),
        ToolKind::CreateChannel => id_line_spec("Channel created (ID: "@, answer.reply),
        ToolKind::LeaveChat => "Left chat."@,
        ToolKind::SetChatMuted => match call {
            CallModel::SetChatMuted { muted, .. } => "Chat "@ + if muted {
                "muted"@
            } else {
                "unmuted"@
            },
            _ => Seq::empty(),
        },
        ToolKind::SetChatArchived => match call {
            CallModel::SetChatArchived { archived, .. } => "Chat "@ + if archived {
                "archived"@
            } else {
                "unarchived"@
            },
            _ => Seq::empty(),
        },
        ToolKind::EditChatAbout => answer.serialized@,
        ToolKind::EditChatPhoto => answer.serialized@,
        ToolKind::EditChatTitle => answer.serialized@,
        ToolKind::DeleteChatPhoto => answer.serialized@,
        ToolKind::GetMessages => answer.serialized@,
        ToolKind::GetHistory => answer.serialized@,
        ToolKind::SearchMessages => answer.serialized@,
        ToolKind::SendMessage => msg_id_line_spec("Message sent (ID: "@, answer.reply),
        ToolKind::EditMessage => "Message edited."@,
        ToolKind::DeleteMessages => "Messages deleted."@,
        ToolKind::ForwardMessages => ids_line_spec("Messages forwarded (IDs: "@, answer.reply),
        ToolKind::SendReaction => "Reaction sent."@,
        ToolKind::GetScheduledMessages => answer.serialized@,
        ToolKind::SaveDraft => "Draft saved."@,
        ToolKind::ClearDrafts => "All drafts cleared."@,
        ToolKind::CreatePoll => answer.serialized@,
        ToolKind::GetMessageContext => answer.serialized@,
        ToolKind::GetMessageLink => answer.serialized@,
        ToolKind::GetMessageReactions => answer.serialized@,
        ToolKind::GetMessageReadBy => answer.serialized@,
        ToolKind::GetPinnedMessages => answer.serialized@,
        ToolKind::UnpinMessage => answer.serialized@,
        ToolKind::UnpinAllMessages => answer.serialized@,
        ToolKind::DeleteScheduledMessage => answer.serialized@,
        ToolKind::RemoveReaction => answer.serialized@,
        ToolKind::DeleteChatHistory => answer.serialized@,
        ToolKind::PinMessage => answer.serialized@,
        ToolKind::MarkAsRead => answer.serialized@,
        ToolKind::GetDrafts => answer.serialized@,
        ToolKind::WaitForNewMessage => answer.serialized@,
        ToolKind::WaitForSettledMessage => answer.serialized@,
        ToolKind::BanUser => "User banned."@,
        ToolKind::PromoteAdmin => "User promoted."@,
        ToolKind::GetParticipants => answer.serialized@,
        ToolKind::InviteUsers => "Users invited."@,
        ToolKind::DemoteAdmin => answer.serialized@,
        ToolKind::EditAdminRights => answer.serialized@,
        ToolKind::SetDefaultChatPermissions => answer.serialized@,
        ToolKind::ToggleSlowMode => answer.serialized@,
        ToolKind::GetAdmins => answer.serialized@,
        ToolKind::GetBannedUsers => answer.serialized@,
        ToolKind::GetRecentActions => answer.serialized@,
        ToolKind::UnbanUser => answer.serialized@,
        ToolKind::GetInviteLink => answer.serialized@,
        ToolKind::ExportChatInvite => answer.serialized@,
        ToolKind::ImportChatInvite => answer.serialized@,
        ToolKind::JoinChatByLink => answer.serialized@,
        ToolKind::SendFile => msg_id_line_spec("File sent (ID: "@, answer.reply),
        ToolKind::SendAlbum => ids_line_spec("Album sent (IDs: "@, answer.reply),
        ToolKind::DownloadMedia => path_line_spec("Media downloaded to: "@, answer.reply),
        ToolKind::GetImage => Seq::empty(),
        ToolKind::SendContact => answer.serialized@,
        ToolKind::SendGif => answer.serialized@,
        ToolKind::SendSticker => answer.serialized@,
        ToolKind::SendVoice => answer.serialized@,
        ToolKind::GetGifSearch => answer.serialized@,
        ToolKind::GetMediaInfo => answer.serialized@,
        ToolKind::GetStickerSets => answer.serialized@,
        ToolKind::GetUserPhotos => answer.serialized@,
        ToolKind::ListFolders => answer.serialized@,
        ToolKind::GetFolder => answer.serialized@,
        ToolKind::CreateFolder => answer.serialized@,
        ToolKind::DeleteFolder => answer.serialized@,
        ToolKind::AddChatToFolder => answer.serialized@,
        ToolKind::RemoveChatFromFolder => answer.serialized@,
        ToolKind::ReorderFolders => answer.serialized@,
        ToolKind::ListContacts => answer.serialized@,
        ToolKind::SearchContacts => answer.serialized@,
        ToolKind::AddContact => "Contact added."@,
        ToolKind::DeleteContact => "Contact deleted."@,
        ToolKind::BlockUser => "User blocked."@,
        ToolKind::UnblockUser => "User unblocked."@,
        ToolKind::GetBlockedUsers => answer.serialized@,
        ToolKind::ImportContacts => answer.serialized@,
        ToolKind::ExportContacts => answer.serialized@,
        ToolKind::GetContactIds => answer.serialized@,
        ToolKind::GetDirectChatByContact => answer.serialized@,
        ToolKind::GetContactChats => answer.serialized@,
        ToolKind::GetLastInteraction => answer.serialized@,
        ToolKind::SearchGlobal => answer.serialized@,
        ToolKind::SearchPublicChats => answer.serialized@,
        ToolKind::SubscribePublicChannel => "Subscribed successfully."@,
        ToolKind::GetCommonChats => answer.serialized@,
        ToolKind::ListTopics => answer.serialized@,
        ToolKind::GetPrivacySettings => raw_text_spec(answer.reply),
        ToolKind::SetPrivacySettings => "Privacy settings updated."@,
    }
}

/// What a tool answers, once its request has been carried out.
pub open spec fn complete_spec(
    k: ToolKind,
    call: CallModel,
    outcome: Result<ServiceAnswer, String>,
) -> JsonModel {
    match outcome {
        Ok(answer) => text_result_model(ok_text_spec(k, call, answer), false),
        Err(e) => text_result_model(error_text_spec(e@), true),
    }
}

/// A tool, as the registry holds it.
pub trait Tool {
    spec fn kind_spec(&self) -> ToolKind;

    fn kind(&self) -> (k: ToolKind)
        ensures
            k == self.kind_spec(),
    ;

    /// The tool's name, description and argument schema.
    fn info(&self) -> (i: ToolInfo)
        ensures
            i@ == tool_info_spec(self.kind_spec()),
    {
        info_of(self.kind())
    }

    /// The request that the tool makes of these arguments, or the error that
    /// it answers them with.
    fn prepare(&self, args: &JsonValue) -> (r: Result<ServiceCall, JsonRpcError>)
        ensures
            prepared_view(r) == prepare_spec(self.kind_spec(), args@),
    {
        prepare_for(self.kind(), args)
    }
}

pub fn info_of(k: ToolKind) -> (i: ToolInfo)
    ensures
        i@ == tool_info_spec(k),
{
    match k {
        ToolKind::GetMe => get_me_info(),
        ToolKind::UpdateProfile => update_profile_info(),
        ToolKind::SetProfilePhoto => set_profile_photo_info(),
        ToolKind::DeleteProfilePhoto => delete_profile_photo_info(),
        ToolKind::GetUserStatus => get_user_status_info(),
        ToolKind::ResolveUsername => resolve_username_info(),
        ToolKind::ListAccounts => list_accounts_info(),
        ToolKind::GetBotInfo => get_bot_info_info(),
        ToolKind::ListInlineButtons => list_inline_buttons_info(),
        ToolKind::PressInlineButton => press_inline_button_info(),
        ToolKind::SetBotCommands => set_bot_commands_info(),
        ToolKind::ListChats => list_chats_info(),
        ToolKind::GetChatInfo => get_chat_info_info(),
        ToolKind::CreateGroup => create_group_info(),
        ToolKind::CreateChannel => create_channel_info(),
        ToolKind::LeaveChat => leave_chat_info(),
        ToolKind::SetChatMuted => set_chat_muted_info(),
        ToolKind::SetChatArchived => set_chat_archived_info(),
        ToolKind::EditChatAbout => edit_chat_about_info(),
        ToolKind::EditChatPhoto => edit_chat_photo_info(),
        ToolKind::EditChatTitle => edit_chat_title_info(),
        ToolKind::DeleteChatPhoto => delete_chat_photo_info(),
        ToolKind::GetMessages => get_messages_info(),
        ToolKind::GetHistory => get_history_info(),
        ToolKind::SearchMessages => search_messages_info(),
        ToolKind::SendMessage => send_message_info(),
        ToolKind::EditMessage => edit_message_info(),
        ToolKind::DeleteMessages => delete_messages_info(),
        ToolKind::ForwardMessages => forward_messages_info(),
        ToolKind::SendReaction => send_reaction_info(),
        ToolKind::GetScheduledMessages => get_scheduled_messages_info(),
        ToolKind::SaveDraft => save_draft_info(),
        ToolKind::ClearDrafts => clear_drafts_info(),
        ToolKind::CreatePoll => create_poll_info(),
        ToolKind::GetMessageContext => get_message_context_info(),
        ToolKind::GetMessageLink => get_message_link_info(),
        ToolKind::GetMessageReactions => get_message_reactions_info(),
        ToolKind::GetMessageReadBy => get_message_read_by_info(),
        ToolKind::GetPinnedMessages => get_pinned_messages_info(),
        ToolKind::UnpinMessage => unpin_message_info(),
        ToolKind::UnpinAllMessages => unpin_all_messages_info(),
        ToolKind::DeleteScheduledMessage => delete_scheduled_message_info(),
        ToolKind::RemoveReaction => remove_reaction_info(),
        ToolKind::DeleteChatHistory => delete_chat_history_info(),
        ToolKind::PinMessage => pin_message_info(),
        ToolKind::MarkAsRead => mark_as_read_info(),
        ToolKind::GetDrafts => get_drafts_info(),
        ToolKind::WaitForNewMessage => wait_for_new_message_info(),
        ToolKind::WaitForSettledMessage => wait_for_settled_message_info(),
        ToolKind::BanUser => ban_user_info(),
        ToolKind::PromoteAdmin => promote_admin_info(),
        ToolKind::GetParticipants => get_participants_info(),
        ToolKind::InviteUsers => invite_users_info(),
        ToolKind::DemoteAdmin => demote_admin_info(),
        ToolKind::EditAdminRights => edit_admin_rights_info(),
        ToolKind::SetDefaultChatPermissions => set_default_chat_permissions_info(),
        ToolKind::ToggleSlowMode => toggle_slow_mode_info(),
        ToolKind::GetAdmins => get_admins_info(),
        ToolKind::GetBannedUsers => get_banned_users_info(),
        ToolKind::GetRecentActions => get_recent_actions_info(),
        ToolKind::UnbanUser => unban_user_info(),
        ToolKind::GetInviteLink => get_invite_link_info(),
        ToolKind::ExportChatInvite => export_chat_invite_info(),
        ToolKind::ImportChatInvite => import_chat_invite_info(),
        ToolKind::JoinChatByLink => join_chat_by_link_info(),
        ToolKind::SendFile => send_file_info(),
        ToolKind::SendAlbum => send_album_info(),
        ToolKind::DownloadMedia => download_media_info(),
        ToolKind::GetImage => get_image_info(),
        ToolKind::SendContact => send_contact_info(),
        ToolKind::SendGif => send_gif_info(),
        ToolKind::SendSticker => send_sticker_info(),
        ToolKind::SendVoice => send_voice_info(),
        ToolKind::GetGifSearch => get_gif_search_info(),
        ToolKind::GetMediaInfo => get_media_info_info(),
        ToolKind::GetStickerSets => get_sticker_sets_info(),
        ToolKind::GetUserPhotos => get_user_photos_info(),
        ToolKind::ListFolders => list_folders_info(),
        ToolKind::GetFolder => get_folder_info(),
        ToolKind::CreateFolder => create_folder_info(),
        ToolKind::DeleteFolder => delete_folder_info(),
        ToolKind::AddChatToFolder => add_chat_to_folder_info(),
        ToolKind::RemoveChatFromFolder => remove_chat_from_folder_info(),
        ToolKind::ReorderFolders => reorder_folders_info(),
        ToolKind::ListContacts => list_contacts_info(),
        ToolKind::SearchContacts => search_contacts_info(),
        ToolKind::AddContact => add_contact_info(),
        ToolKind::DeleteContact => delete_contact_info(),
        ToolKind::BlockUser => block_user_info(),
        ToolKind::UnblockUser => unblock_user_info(),
        ToolKind::GetBlockedUsers => get_blocked_users_info(),
        ToolKind::ImportContacts => import_contacts_info(),
        ToolKind::ExportContacts => export_contacts_info(),
        ToolKind::GetContactIds => get_contact_ids_info(),
        ToolKind::GetDirectChatByContact => get_direct_chat_by_contact_info(),
        ToolKind::GetContactChats => get_contact_chats_info(),
        ToolKind::GetLastInteraction => get_last_interaction_info(),
        ToolKind::SearchGlobal => search_global_info(),
        ToolKind::SearchPublicChats => search_public_chats_info(),
        ToolKind::SubscribePublicChannel => subscribe_public_channel_info(),
        ToolKind::GetCommonChats => get_common_chats_info(),
        ToolKind::ListTopics => list_topics_info(),
        ToolKind::GetPrivacySettings => get_privacy_settings_info(),
        ToolKind::SetPrivacySettings => set_privacy_settings_info(),
    }
}

pub fn prepare_for(k: ToolKind, args: &JsonValue) -> (r: Result<ServiceCall, JsonRpcError>)
    ensures
        prepared_view(r) == prepare_spec(k, args@),
{
    match k {
        ToolKind::GetMe => prepare_get_me(args),
        ToolKind::UpdateProfile => prepare_update_profile(args),
        ToolKind::SetProfilePhoto => prepare_set_profile_photo(args),
        ToolKind::DeleteProfilePhoto => prepare_delete_profile_photo(args),
        ToolKind::GetUserStatus => prepare_get_user_status(args),
        ToolKind::ResolveUsername => prepare_resolve_username(args),
        ToolKind::ListAccounts => prepare_list_accounts(args),
        ToolKind::GetBotInfo => prepare_get_bot_info(args),
        ToolKind::ListInlineButtons => prepare_list_inline_buttons(args),
        ToolKind::PressInlineButton => prepare_press_inline_button(args),
        ToolKind::SetBotCommands => prepare_set_bot_commands(args),
        ToolKind::ListChats => prepare_list_chats(args),
        ToolKind::GetChatInfo => prepare_get_chat_info(args),
        ToolKind::CreateGroup => prepare_create_group(args),
        ToolKind::CreateChannel => prepare_create_channel(args),
        ToolKind::LeaveChat => prepare_leave_chat(args),
        ToolKind::SetChatMuted => prepare_set_chat_muted(args),
        ToolKind::SetChatArchived => prepare_set_chat_archived(args),
        ToolKind::EditChatAbout => prepare_edit_chat_about(args),
        ToolKind::EditChatPhoto => prepare_edit_chat_photo(args),
        ToolKind::EditChatTitle => prepare_edit_chat_title(args),
        ToolKind::DeleteChatPhoto => prepare_delete_chat_photo(args),
        ToolKind::GetMessages => prepare_get_messages(args),
        ToolKind::GetHistory => prepare_get_history(args),
        ToolKind::SearchMessages => prepare_search_messages(args),
        ToolKind::SendMessage => prepare_send_message(args),
        ToolKind::EditMessage => prepare_edit_message(args),
        ToolKind::DeleteMessages => prepare_delete_messages(args),
        ToolKind::ForwardMessages => prepare_forward_messages(args),
        ToolKind::SendReaction => prepare_send_reaction(args),
        ToolKind::GetScheduledMessages => prepare_get_scheduled_messages(args),
        ToolKind::SaveDraft => prepare_save_draft(args),
        ToolKind::ClearDrafts => prepare_clear_drafts(args),
        ToolKind::CreatePoll => prepare_create_poll(args),
        ToolKind::GetMessageContext => prepare_get_message_context(args),
        ToolKind::GetMessageLink => prepare_get_message_link(args),
        ToolKind::GetMessageReactions => prepare_get_message_reactions(args),
        ToolKind::GetMessageReadBy => prepare_get_message_read_by(args),
        ToolKind::GetPinnedMessages => prepare_get_pinned_messages(args),
        ToolKind::UnpinMessage => prepare_unpin_message(args),
        ToolKind::UnpinAllMessages => prepare_unpin_all_messages(args),
        ToolKind::DeleteScheduledMessage => prepare_delete_scheduled_message(args),
        ToolKind::RemoveReaction => prepare_remove_reaction(args),
        ToolKind::DeleteChatHistory => prepare_delete_chat_history(args),
        ToolKind::PinMessage => prepare_pin_message(args),
        ToolKind::MarkAsRead => prepare_mark_as_read(args),
        ToolKind::GetDrafts => prepare_get_drafts(args),
        ToolKind::WaitForNewMessage => prepare_wait_for_new_message(args),
        ToolKind::WaitForSettledMessage => prepare_wait_for_settled_message(args),
        ToolKind::BanUser => prepare_ban_user(args),
        ToolKind::PromoteAdmin => prepare_promote_admin(args),
        ToolKind::GetParticipants => prepare_get_participants(args),
        ToolKind::InviteUsers => prepare_invite_users(args),
        ToolKind::DemoteAdmin => prepare_demote_admin(args),
        ToolKind::EditAdminRights => prepare_edit_admin_rights(args),
        ToolKind::SetDefaultChatPermissions => prepare_set_default_chat_permissions(args),
        ToolKind::ToggleSlowMode => prepare_toggle_slow_mode(args),
        ToolKind::GetAdmins => prepare_get_admins(args),
        ToolKind::GetBannedUsers => prepare_get_banned_users(args),
        ToolKind::GetRecentActions => prepare_get_recent_actions(args),
        ToolKind::UnbanUser => prepare_unban_user(args),
        ToolKind::GetInviteLink => prepare_get_invite_link(args),
        ToolKind::ExportChatInvite => prepare_export_chat_invite(args),
        ToolKind::ImportChatInvite => prepare_import_chat_invite(args),
        ToolKind::JoinChatByLink => prepare_join_chat_by_link(args),
        ToolKind::SendFile => prepare_send_file(args),
        ToolKind::SendAlbum => prepare_send_album(args),
        ToolKind::DownloadMedia => prepare_download_media(args),
        ToolKind::GetImage => prepare_get_image(args),
        ToolKind::SendContact => prepare_send_contact(args),
        ToolKind::SendGif => prepare_send_gif(args),
        ToolKind::SendSticker => prepare_send_sticker(args),
        ToolKind::SendVoice => prepare_send_voice(args),
        ToolKind::GetGifSearch => prepare_get_gif_search(args),
        ToolKind::GetMediaInfo => prepare_get_media_info(args),
        ToolKind::GetStickerSets => prepare_get_sticker_sets(args),
        ToolKind::GetUserPhotos => prepare_get_user_photos(args),
        ToolKind::ListFolders => prepare_list_folders(args),
        ToolKind::GetFolder => prepare_get_folder(args),
        ToolKind::CreateFolder => prepare_create_folder(args),
        ToolKind::DeleteFolder => prepare_delete_folder(args),
        ToolKind::AddChatToFolder => prepare_add_chat_to_folder(args),
        ToolKind::RemoveChatFromFolder => prepare_remove_chat_from_folder(args),
        ToolKind::ReorderFolders => prepare_reorder_folders(args),
        ToolKind::ListContacts => prepare_list_contacts(args),
        ToolKind::SearchContacts => prepare_search_contacts(args),
        ToolKind::AddContact => prepare_add_contact(args),
        ToolKind::DeleteContact => prepare_delete_contact(args),
        ToolKind::BlockUser => prepare_block_user(args),
        ToolKind::UnblockUser => prepare_unblock_user(args),
        ToolKind::GetBlockedUsers => prepare_get_blocked_users(args),
        ToolKind::ImportContacts => prepare_import_contacts(args),
        ToolKind::ExportContacts => prepare_export_contacts(args),
        ToolKind::GetContactIds => prepare_get_contact_ids(args),
        ToolKind::GetDirectChatByContact => prepare_get_direct_chat_by_contact(args),
        ToolKind::GetContactChats => prepare_get_contact_chats(args),
        ToolKind::GetLastInteraction => prepare_get_last_interaction(args),
        ToolKind::SearchGlobal => prepare_search_global(args),
        ToolKind::SearchPublicChats => prepare_search_public_chats(args),
        ToolKind::SubscribePublicChannel => prepare_subscribe_public_channel(args),
        ToolKind::GetCommonChats => prepare_get_common_chats(args),
        ToolKind::ListTopics => prepare_list_topics(args),
        ToolKind::GetPrivacySettings => prepare_get_privacy_settings(args),
        ToolKind::SetPrivacySettings => prepare_set_privacy_settings(args),
    }
}

/// The text that a tool answers a successful request with.
pub fn ok_text(k: ToolKind, call: &ServiceCall, answer: &ServiceAnswer) -> (t: String)
    requires
        reply_shape(answer.reply) == tool_shape_spec(k),
    ensures
        t@ == ok_text_spec(k, call@, *answer),
{
    match k {
        ToolKind::GetMe => {
            user_line(&answer.reply)
        },
        ToolKind::UpdateProfile => {
            String::from_str("Profile updated.")
        },
        ToolKind::SetProfilePhoto => {
            String::from_str("Profile photo set.")
        },
        ToolKind::DeleteProfilePhoto => {
            answer.serialized.clone()
        },
        ToolKind::GetUserStatus => {
            answer.serialized.clone()
        },
        ToolKind::ResolveUsername => {
            answer.serialized.clone()
        },
        ToolKind::ListAccounts => {
            answer.serialized.clone()
        },
        ToolKind::GetBotInfo => {
            answer.serialized.clone()
        },
        ToolKind::ListInlineButtons => {
            answer.serialized.clone()
        },
        ToolKind::PressInlineButton => {
            raw_text(&answer.reply)
        },
        ToolKind::SetBotCommands => {
            answer.serialized.clone()
        },
        ToolKind::ListChats => {
            answer.serialized.clone()
        },
        ToolKind::GetChatInfo => {
            answer.serialized.clone()
        },
        ToolKind::CreateGroup => {
            id_line("Group created (ID: ", &answer.reply)
        },
        ToolKind::CreateChannel => {
            id_line("Channel created (ID: ", &answer.reply)
        },
        ToolKind::LeaveChat => {
            String::from_str("Left chat.")
        },
        ToolKind::SetChatMuted => {
            match call {
                ServiceCall::SetChatMuted { muted, .. } => toggle_line("Chat ", *muted, "muted", "unmuted"),
                _ => String::new(),
            }
        },
        ToolKind::SetChatArchived => {
            match call {
                ServiceCall::SetChatArchived { archived, .. } => toggle_line("Chat ", *archived, "archived", "unarchived"),
                _ => String::new(),
            }
        },
        ToolKind::EditChatAbout => {
            answer.serialized.clone()
        },
        ToolKind::EditChatPhoto => {
            answer.serialized.clone()
        },
        ToolKind::EditChatTitle => {
            answer.serialized.clone()
        },
        ToolKind::DeleteChatPhoto => {
            answer.serialized.clone()
        },
        ToolKind::GetMessages => {
            answer.serialized.clone()
        },
        ToolKind::GetHistory => {
            answer.serialized.clone()
        },
        ToolKind::SearchMessages => {
            answer.serialized.clone()
        },
        ToolKind::SendMessage => {
            msg_id_line("Message sent (ID: ", &answer.reply)
        },
        ToolKind::EditMessage => {
            String::from_str("Message edited.")
        },
        ToolKind::DeleteMessages => {
            String::from_str("Messages deleted.")
        },
        ToolKind::ForwardMessages => {
            ids_line("Messages forwarded (IDs: ", &answer.reply)
        },
        ToolKind::SendReaction => {
            String::from_str("Reaction sent.")
        },
        ToolKind::GetScheduledMessages => {
            answer.serialized.clone()
        },
        ToolKind::SaveDraft => {
            String::from_str("Draft saved.")
        },
        ToolKind::ClearDrafts => {
            String::from_str("All drafts cleared.")
        },
        ToolKind::CreatePoll => {
            answer.serialized.clone()
        },
        ToolKind::GetMessageContext => {
            answer.serialized.clone()
        },
        ToolKind::GetMessageLink => {
            answer.serialized.clone()
        },
        ToolKind::GetMessageReactions => {
            answer.serialized.clone()
        },
        ToolKind::GetMessageReadBy => {
            answer.serialized.clone()
        },
        ToolKind::GetPinnedMessages => {
            answer.serialized.clone()
        },
        ToolKind::UnpinMessage => {
            answer.serialized.clone()
        },
        ToolKind::UnpinAllMessages => {
            answer.serialized.clone()
        },
        ToolKind::DeleteScheduledMessage => {
            answer.serialized.clone()
        },
        ToolKind::RemoveReaction => {
            answer.serialized.clone()
        },
        ToolKind::DeleteChatHistory => {
            answer.serialized.clone()
        },
        ToolKind::PinMessage => {
            answer.serialized.clone()
        },
        ToolKind::MarkAsRead => {
            answer.serialized.clone()
        },
        ToolKind::GetDrafts => {
            answer.serialized.clone()
        },
        ToolKind::WaitForNewMessage => {
            answer.serialized.clone()
        },
        ToolKind::WaitForSettledMessage => {
            answer.serialized.clone()
        },
        ToolKind::BanUser => {
            String::from_str("User banned.")
        },
        ToolKind::PromoteAdmin => {
            String::from_str("User promoted.")
        },
        ToolKind::GetParticipants => {
            answer.serialized.clone()
        },
        ToolKind::InviteUsers => {
            String::from_str("Users invited.")
        },
        ToolKind::DemoteAdmin => {
            answer.serialized.clone()
        },
        ToolKind::EditAdminRights => {
            answer.serialized.clone()
        },
        ToolKind::SetDefaultChatPermissions => {
            answer.serialized.clone()
        },
        ToolKind::ToggleSlowMode => {
            answer.serialized.clone()
        },
        ToolKind::GetAdmins => {
            answer.serialized.clone()
        },
        ToolKind::GetBannedUsers => {
            answer.serialized.clone()
        },
        ToolKind::GetRecentActions => {
            answer.serialized.clone()
        },
        ToolKind::UnbanUser => {
            answer.serialized.clone()
        },
        ToolKind::GetInviteLink => {
            answer.serialized.clone()
        },
        ToolKind::ExportChatInvite => {
            answer.serialized.clone()
        },
        ToolKind::ImportChatInvite => {
            answer.serialized.clone()
        },
        ToolKind::JoinChatByLink => {
            answer.serialized.clone()
        },
        ToolKind::SendFile => {
            msg_id_line("File sent (ID: ", &answer.reply)
        },
        ToolKind::SendAlbum => {
            ids_line("Album sent (IDs: ", &answer.reply)
        },
        ToolKind::DownloadMedia => {
            path_line("Media downloaded to: ", &answer.reply)
        },
        ToolKind::GetImage => {
            String::new()
        },
        ToolKind::SendContact => {
            answer.serialized.clone()
        },
        ToolKind::SendGif => {
            answer.serialized.clone()
        },
        ToolKind::SendSticker => {
            answer.serialized.clone()
        },
        ToolKind::SendVoice => {
            answer.serialized.clone()
        },
        ToolKind::GetGifSearch => {
            answer.serialized.clone()
        },
        ToolKind::GetMediaInfo => {
            answer.serialized.clone()
        },
        ToolKind::GetStickerSets => {
            answer.serialized.clone()
        },
        ToolKind::GetUserPhotos => {
            answer.serialized.clone()
        },
        ToolKind::ListFolders => {
            answer.serialized.clone()
        },
        ToolKind::GetFolder => {
            answer.serialized.clone()
        },
        ToolKind::CreateFolder => {
            answer.serialized.clone()
        },
        ToolKind::DeleteFolder => {
            answer.serialized.clone()
        },
        ToolKind::AddChatToFolder => {
            answer.serialized.clone()
        },
        ToolKind::RemoveChatFromFolder => {
            answer.serialized.clone()
        },
        ToolKind::ReorderFolders => {
            answer.serialized.clone()
        },
        ToolKind::ListContacts => {
            answer.serialized.clone()
        },
        ToolKind::SearchContacts => {
            answer.serialized.clone()
        },
        ToolKind::AddContact => {
            String::from_str("Contact added.")
        },
        ToolKind::DeleteContact => {
            String::from_str("Contact deleted.")
        },
        ToolKind::BlockUser => {
            String::from_str("User blocked.")
        },
        ToolKind::UnblockUser => {
            String::from_str("User unblocked.")
        },
        ToolKind::GetBlockedUsers => {
            answer.serialized.clone()
        },
        ToolKind::ImportContacts => {
            answer.serialized.clone()
        },
        ToolKind::ExportContacts => {
            answer.serialized.clone()
        },
        ToolKind::GetContactIds => {
            answer.serialized.clone()
        },
        ToolKind::GetDirectChatByContact => {
            answer.serialized.clone()
        },
        ToolKind::GetContactChats => {
            answer.serialized.clone()
        },
        ToolKind::GetLastInteraction => {
            answer.serialized.clone()
        },
        ToolKind::SearchGlobal => {
            answer.serialized.clone()
        },
        ToolKind::SearchPublicChats => {
            answer.serialized.clone()
        },
        ToolKind::SubscribePublicChannel => {
            String::from_str("Subscribed successfully.")
        },
        ToolKind::GetCommonChats => {
            answer.serialized.clone()
        },
        ToolKind::ListTopics => {
            answer.serialized.clone()
        },
        ToolKind::GetPrivacySettings => {
            raw_text(&answer.reply)
        },
        ToolKind::SetPrivacySettings => {
            String::from_str("Privacy settings updated.")
        },
    }
}

} // verus!
