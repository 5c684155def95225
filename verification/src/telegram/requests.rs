//! The Telegram API requests that the service sends for a tool's request,
//! chosen by the kind of peer, and the errors for peers that a request does
//! not apply to.
use vstd::prelude::*;
use vstd::string::*;
use crate::telegram::peer::{channel_offset, classify_spec, ChannelRef, PeerRef};
use crate::telegram::rights::{
    banned_all, banned_flags, default_permissions, default_permissions_spec, edited_rights, edited_rights_spec,
    full_ban, no_admin_rights, no_admin_rights_spec, no_ban, promoted_rights, promoted_rights_spec,
    AdminRights, BannedRights,
};

verus! {

/// A user as the API addresses it: the account itself, or a user by id (with
/// no access hash).
#[derive(Debug, PartialEq, Eq, Structural, Clone, Copy)]
pub enum UserRef {
    Myself,
    ById(i64),
}

/// One request to Telegram's API.
#[derive(Debug)]
pub enum ApiRequest {
    /// `messages.deleteChatUser`
    DeleteChatUser { chat_id: i64, user: UserRef, revoke_history: bool },
    /// `channels.editBanned`, for a user
    EditBanned { channel: ChannelRef, user_id: i64, rights: BannedRights },
    /// `channels.editAdmin`
    EditAdmin { channel: ChannelRef, user_id: i64, rights: AdminRights, rank: String },
    /// `messages.addChatUser`
    AddChatUser { chat_id: i64, user_id: i64, fwd_limit: i32 },
    /// `channels.inviteToChannel`
    InviteToChannel { channel: ChannelRef, user_ids: Vec<i64> },
    /// `messages.editChatDefaultBannedRights`
    EditDefaultBannedRights { peer: PeerRef, rights: BannedRights },
    /// `channels.toggleSlowMode`
    ToggleSlowMode { channel: ChannelRef, seconds: i32 },
    /// `channels.leaveChannel`
    LeaveChannel { channel: ChannelRef },
    /// `messages.editChatAbout`
    EditChatAbout { peer: PeerRef, about: String },
    /// `channels.editTitle`
    EditChannelTitle { channel: ChannelRef, title: String },
    /// `messages.editChatTitle`
    EditChatTitle { chat_id: i64, title: String },
    /// `channels.deleteMessages`
    DeleteChannelMessages { channel: ChannelRef, ids: Vec<i32> },
    /// `messages.deleteMessages`
    DeleteMessages { revoke: bool, ids: Vec<i32> },
    /// `channels.deleteHistory`, for everyone
    DeleteChannelHistory { channel: ChannelRef },
    /// `messages.deleteHistory`, revoking, from date 0 to date 0
    DeleteHistory { peer: PeerRef },
    /// `channels.exportMessageLink`, of one message
    ExportMessageLink { channel: ChannelRef, id: i32 },
    /// `channels.joinChannel`
    JoinChannel { channel: ChannelRef },
}

/// The peer kinds that a request accepts, as the error for any other says.
pub open spec fn only_groups_error(action: Seq<char>) -> Seq<char> {
    "Can only "@ + action + " in groups or channels"@
}

/// Banning: a basic group drops the user and their history; a channel bans
/// them from every action for ever; a user cannot be banned from.
pub open spec fn ban_plan_spec(peer: PeerRef, user_id: i64, r: Result<Seq<ApiRequest>, Seq<char>>) -> bool {
    match peer {
        PeerRef::Chat { chat_id } => r == Ok::<Seq<ApiRequest>, Seq<char>>(
            seq![ApiRequest::DeleteChatUser { chat_id, user: UserRef::ById(user_id), revoke_history: true }],
        ),
        PeerRef::Channel { channel_id, access_hash } => r == Ok::<Seq<ApiRequest>, Seq<char>>(
            seq![
                ApiRequest::EditBanned {
                    channel: ChannelRef { channel_id, access_hash },
                    user_id,
                    rights: banned_all(true),
                },
            ],
        ),
        PeerRef::User { .. } => r == Err::<Seq<ApiRequest>, Seq<char>>(
            "Can only ban in groups or channels"@,
        ),
    }
}

/// Unbanning: a basic group needs nothing; a channel lifts every
/// restriction of the user; a user cannot be unbanned from.
pub open spec fn unban_plan_spec(peer: PeerRef, user_id: i64, r: Result<Seq<ApiRequest>, Seq<char>>) -> bool {
    match peer {
        PeerRef::Chat { .. } => r == Ok::<Seq<ApiRequest>, Seq<char>>(Seq::empty()),
        PeerRef::Channel { channel_id, access_hash } => r == Ok::<Seq<ApiRequest>, Seq<char>>(
            seq![
                ApiRequest::EditBanned {
                    channel: ChannelRef { channel_id, access_hash },
                    user_id,
                    rights: banned_all(false),
                },
            ],
        ),
        PeerRef::User { .. } => r == Err::<Seq<ApiRequest>, Seq<char>>(
            "Can only unban in groups or channels"@,
        ),
    }
}

/// On a channel's dialog id, unbanning sends the same request to the same
/// channel for the same user as banning, with every restriction lifted and
/// no end date; on a basic group's id it sends nothing; on a user's id it is
/// refused.
pub proof fn law_unban_undoes_ban(
    id: i64,
    access_hash: i64,
    user_id: i64,
    ban: Result<Seq<ApiRequest>, Seq<char>>,
    unban: Result<Seq<ApiRequest>, Seq<char>>,
)
    requires
        id > i64::MIN,
        ban_plan_spec(classify_spec(id, access_hash), user_id, ban),
        unban_plan_spec(classify_spec(id, access_hash), user_id, unban),
    ensures
        id <= -channel_offset() ==> {
            &&& ban matches Ok(b) && b.len() == 1
            &&& unban matches Ok(u) && u.len() == 1
            &&& ban->Ok_0[0] matches ApiRequest::EditBanned { channel: c1, user_id: u1, rights: r1 }
            &&& unban->Ok_0[0] matches ApiRequest::EditBanned { channel: c2, user_id: u2, rights: r2 }
            &&& c1 == c2 && u1 == u2 && u1 == user_id
            &&& r1 == banned_all(true)
            &&& r2 == banned_all(false)
            &&& r2.until_date == 0
            &&& forall|i: int| 0 <= i < banned_flags(r2).len() ==> !#[trigger] banned_flags(r2)[i]
        },
        -channel_offset() < id <= 0 ==> unban == Ok::<Seq<ApiRequest>, Seq<char>>(Seq::empty()),
        id > 0 ==> unban is Err && ban is Err,
{
}

pub open spec fn plan_view(r: Result<Vec<ApiRequest>, String>) -> Result<Seq<ApiRequest>, Seq<char>> {
    match r {
        Ok(v) => Ok(v@),
        Err(e) => Err(e@),
    }
}

pub fn plan_ban_user(peer: PeerRef, user_id: i64) -> (r: Result<Vec<ApiRequest>, String>)
    ensures
        ban_plan_spec(peer, user_id, plan_view(r)),
{
    match peer {
        PeerRef::Chat { chat_id } => {
            let v = vec![ApiRequest::DeleteChatUser { chat_id, user: UserRef::ById(user_id), revoke_history: true }];
            assert(v@ =~= seq![ApiRequest::DeleteChatUser { chat_id, user: UserRef::ById(user_id), revoke_history: true }]);
            Ok(v)
        },
        PeerRef::Channel { channel_id, access_hash } => {
            let v = vec![
                ApiRequest::EditBanned {
                    channel: ChannelRef { channel_id, access_hash },
                    user_id,
                    rights: full_ban(),
                },
            ];
            assert(v@ =~= seq![
                ApiRequest::EditBanned {
                    channel: ChannelRef { channel_id, access_hash },
                    user_id,
                    rights: banned_all(true),
                },
            ]);
            Ok(v)
        },
        PeerRef::User { .. } => Err(String::from_str("Can only ban in groups or channels")),
    }
}


/// Promoting: only in a channel or supergroup, with the rights of a promoted
/// admin and the given rank (`Admin` by default).
pub fn plan_promote_admin(peer: PeerRef, user_id: i64, rank: Option<String>) -> (r: Result<
    Vec<ApiRequest>,
    String,
>)
    ensures
        match peer {
            PeerRef::Chat { .. } => plan_view(r) == Err::<Seq<ApiRequest>, Seq<char>>(
                "Promoting in small groups is not supported via this API; use supergroups."@,
            ),
            PeerRef::Channel { channel_id, access_hash } => r matches Ok(v) && v@.len() == 1
                && (v@[0] matches ApiRequest::EditAdmin { channel, user_id: u, rights, rank: k }
                && channel == (ChannelRef { channel_id, access_hash }) && u == user_id && rights
                == promoted_rights_spec() && k@ == match rank {
                Some(x) => x@,
                None => "Admin"@,
            }),
            PeerRef::User { .. } => plan_view(r) == Err::<Seq<ApiRequest>, Seq<char>>(
                "Can only promote in channels or supergroups"@,
            ),
        },
{
    match peer {
        PeerRef::Chat { .. } => Err(
            String::from_str("Promoting in small groups is not supported via this API; use supergroups."),
        ),
        PeerRef::Channel { channel_id, access_hash } => {
            let rank_text = match rank {
                Some(x) => x,
                None => String::from_str("Admin"),
            };
            let v = vec![
                ApiRequest::EditAdmin {
                    channel: ChannelRef { channel_id, access_hash },
                    user_id,
                    rights: promoted_rights(),
                    rank: rank_text,
                },
            ];
            Ok(v)
        },
        PeerRef::User { .. } => Err(String::from_str("Can only promote in channels or supergroups")),
    }
}

/// Inviting: one `addChatUser` per user (in order) for a basic group, one
/// `inviteToChannel` with every user for a channel.
pub fn plan_invite_users(peer: PeerRef, user_ids: Vec<i64>) -> (r: Result<Vec<ApiRequest>, String>)
    ensures
        match peer {
            PeerRef::Chat { chat_id } => r matches Ok(v) && v@.len() == user_ids@.len() && forall|
                i: int,
            |
                0 <= i < v@.len() ==> #[trigger] v@[i] == (ApiRequest::AddChatUser {
                    chat_id,
                    user_id: user_ids@[i],
                    fwd_limit: 100,
                }),
            PeerRef::Channel { channel_id, access_hash } => r matches Ok(v) && v@.len() == 1
                && (v@[0] matches ApiRequest::InviteToChannel { channel, user_ids: ids } && channel
                == (ChannelRef { channel_id, access_hash }) && ids@ == user_ids@),
            PeerRef::User { .. } => plan_view(r) == Err::<Seq<ApiRequest>, Seq<char>>(
                "Can only invite to groups or channels"@,
            ),
        },
{
    match peer {
        PeerRef::Chat { chat_id } => {
            let mut v: Vec<ApiRequest> = Vec::new();
            let mut i: usize = 0;
            while i < user_ids.len()
                invariant
                    0 <= i <= user_ids.len(),
                    v@.len() == i,
                    forall|j: int|
                        0 <= j < i ==> #[trigger] v@[j] == (ApiRequest::AddChatUser {
                            chat_id,
                            user_id: user_ids@[j],
                            fwd_limit: 100,
                        }),
                decreases user_ids.len() - i,
            {
                v.push(ApiRequest::AddChatUser { chat_id, user_id: user_ids[i], fwd_limit: 100 });
                i = i + 1;
            }
            Ok(v)
        },
        PeerRef::Channel { channel_id, access_hash } => {
            let v = vec![
                ApiRequest::InviteToChannel {
                    channel: ChannelRef { channel_id, access_hash },
                    user_ids,
                },
            ];
            Ok(v)
        },
        PeerRef::User { .. } => Err(String::from_str("Can only invite to groups or channels")),
    }
}

/// Demoting: only in a channel or supergroup, with no right and no rank.
pub fn plan_demote_admin(peer: PeerRef, user_id: i64) -> (r: Result<Vec<ApiRequest>, String>)
    ensures
        match peer {
            PeerRef::Channel { channel_id, access_hash } => r matches Ok(v) && v@.len() == 1
                && (v@[0] matches ApiRequest::EditAdmin { channel, user_id: u, rights, rank: k }
                && channel == (ChannelRef { channel_id, access_hash }) && u == user_id && rights
                == no_admin_rights_spec() && k@ == Seq::<char>::empty()),
            _ => plan_view(r) == Err::<Seq<ApiRequest>, Seq<char>>(
                "Can only demote in channels or supergroups via this API"@,
            ),
        },
{
    match peer {
        PeerRef::Channel { channel_id, access_hash } => {
            let v = vec![
                ApiRequest::EditAdmin {
                    channel: ChannelRef { channel_id, access_hash },
                    user_id,
                    rights: no_admin_rights(),
                    rank: String::new(),
                },
            ];
            Ok(v)
        },
        _ => Err(String::from_str("Can only demote in channels or supergroups via this API")),
    }
}

/// Editing an admin's rights: only in a channel or supergroup, with the three
/// chosen rights and rank `Admin`.
pub fn plan_edit_admin_rights(
    peer: PeerRef,
    user_id: i64,
    add_admins: bool,
    ban_users: bool,
    pin_messages: bool,
) -> (r: Result<Vec<ApiRequest>, String>)
    ensures
        match peer {
            PeerRef::Channel { channel_id, access_hash } => r matches Ok(v) && v@.len() == 1
                && (v@[0] matches ApiRequest::EditAdmin { channel, user_id: u, rights, rank: k }
                && channel == (ChannelRef { channel_id, access_hash }) && u == user_id && rights
                == edited_rights_spec(add_admins, ban_users, pin_messages) && k@ == "Admin"@),
            _ => plan_view(r) == Err::<Seq<ApiRequest>, Seq<char>>(
                "Can only edit rights in channels or supergroups via this API"@,
            ),
        },
{
    match peer {
        PeerRef::Channel { channel_id, access_hash } => {
            let v = vec![
                ApiRequest::EditAdmin {
                    channel: ChannelRef { channel_id, access_hash },
                    user_id,
                    rights: edited_rights(add_admins, ban_users, pin_messages),
                    rank: String::from_str("Admin"),
                },
            ];
            Ok(v)
        },
        _ => Err(String::from_str("Can only edit rights in channels or supergroups via this API")),
    }
}

/// A group's default permissions: for a channel or a basic group.
pub fn plan_set_default_permissions(peer: PeerRef, send_messages: bool, send_media: bool) -> (r:
    Result<Vec<ApiRequest>, String>)
    ensures
        match peer {
            PeerRef::User { .. } => plan_view(r) == Err::<Seq<ApiRequest>, Seq<char>>(
                "Setting default permissions only supported in supergroups via this API"@,
            ),
            _ => r matches Ok(v) && v@ == seq![
                ApiRequest::EditDefaultBannedRights {
                    peer,
                    rights: default_permissions_spec(send_messages, send_media),
                },
            ],
        },
{
    let rights = default_permissions(send_messages, send_media);
    match peer {
        PeerRef::User { .. } => Err(
            String::from_str("Setting default permissions only supported in supergroups via this API"),
        ),
        _ => {
            let v = vec![ApiRequest::EditDefaultBannedRights { peer, rights }];
            assert(v@ =~= seq![ApiRequest::EditDefaultBannedRights { peer, rights }]);
            Ok(v)
        },
    }
}

/// Slow mode: only in a supergroup.
pub fn plan_toggle_slow_mode(peer: PeerRef, seconds: i32) -> (r: Result<Vec<ApiRequest>, String>)
    ensures
        match peer {
            PeerRef::Channel { channel_id, access_hash } => r matches Ok(v) && v@ == seq![
                ApiRequest::ToggleSlowMode { channel: ChannelRef { channel_id, access_hash }, seconds },
            ],
            _ => plan_view(r) == Err::<Seq<ApiRequest>, Seq<char>>(
                "Slow mode only supported in supergroups"@,
            ),
        },
{
    match peer {
        PeerRef::Channel { channel_id, access_hash } => {
            let v = vec![
                ApiRequest::ToggleSlowMode { channel: ChannelRef { channel_id, access_hash }, seconds },
            ];
            assert(v@ =~= seq![
                ApiRequest::ToggleSlowMode { channel: ChannelRef { channel_id, access_hash }, seconds },
            ]);
            Ok(v)
        },
        _ => Err(String::from_str("Slow mode only supported in supergroups")),
    }
}

/// Unbanning: nothing to do in a basic group; in a channel, a restriction
/// that forbids nothing.
pub fn plan_unban_user(peer: PeerRef, user_id: i64) -> (r: Result<Vec<ApiRequest>, String>)
    ensures
        unban_plan_spec(peer, user_id, plan_view(r)),
{
    match peer {
        PeerRef::Chat { .. } => Ok(Vec::new()),
        PeerRef::Channel { channel_id, access_hash } => {
            let v = vec![
                ApiRequest::EditBanned {
                    channel: ChannelRef { channel_id, access_hash },
                    user_id,
                    rights: no_ban(),
                },
            ];
            assert(v@ =~= seq![
                ApiRequest::EditBanned {
                    channel: ChannelRef { channel_id, access_hash },
                    user_id,
                    rights: banned_all(false),
                },
            ]);
            Ok(v)
        },
        PeerRef::User { .. } => Err(String::from_str("Can only unban in groups or channels")),
    }
}

/// Leaving: a basic group drops the account itself (keeping the history); a
/// channel is left.
pub fn plan_leave_chat(peer: PeerRef) -> (r: Result<Vec<ApiRequest>, String>)
    ensures
        match peer {
            PeerRef::Chat { chat_id } => r matches Ok(v) && v@ == seq![
                ApiRequest::DeleteChatUser { chat_id, user: UserRef::Myself, revoke_history: false },
            ],
            PeerRef::Channel { channel_id, access_hash } => r matches Ok(v) && v@ == seq![
                ApiRequest::LeaveChannel { channel: ChannelRef { channel_id, access_hash } },
            ],
            PeerRef::User { .. } => plan_view(r) == Err::<Seq<ApiRequest>, Seq<char>>(
                "Can only leave groups or channels"@,
            ),
        },
{
    match peer {
        PeerRef::Chat { chat_id } => {
            let v = vec![
                ApiRequest::DeleteChatUser { chat_id, user: UserRef::Myself, revoke_history: false },
            ];
            assert(v@ =~= seq![
                ApiRequest::DeleteChatUser { chat_id, user: UserRef::Myself, revoke_history: false },
            ]);
            Ok(v)
        },
        PeerRef::Channel { channel_id, access_hash } => {
            let v = vec![ApiRequest::LeaveChannel { channel: ChannelRef { channel_id, access_hash } }];
            assert(v@ =~= seq![
                ApiRequest::LeaveChannel { channel: ChannelRef { channel_id, access_hash } },
            ]);
            Ok(v)
        },
        PeerRef::User { .. } => Err(String::from_str("Can only leave groups or channels")),
    }
}

/// Editing a group's description: for a channel or a basic group.
pub fn plan_edit_chat_about(peer: PeerRef, about: String) -> (r: Result<Vec<ApiRequest>, String>)
    ensures
        match peer {
            PeerRef::User { .. } => plan_view(r) == Err::<Seq<ApiRequest>, Seq<char>>(
                "Invalid peer for editing about"@,
            ),
            _ => r matches Ok(v) && v@.len() == 1 && (v@[0] matches ApiRequest::EditChatAbout {
                peer: p,
                about: a,
            } && p == peer && a@ == about@),
        },
{
    match peer {
        PeerRef::User { .. } => Err(String::from_str("Invalid peer for editing about")),
        _ => {
            let v = vec![ApiRequest::EditChatAbout { peer, about }];
            Ok(v)
        },
    }
}

/// Renaming a group: `channels.editTitle` for a channel, `messages.editChatTitle`
/// for a basic group.
pub fn plan_edit_chat_title(peer: PeerRef, title: String) -> (r: Result<Vec<ApiRequest>, String>)
    ensures
        match peer {
            PeerRef::Channel { channel_id, access_hash } => r matches Ok(v) && v@.len() == 1
                && (v@[0] matches ApiRequest::EditChannelTitle { channel, title: t } && channel == (
            ChannelRef { channel_id, access_hash }) && t@ == title@),
            PeerRef::Chat { chat_id } => r matches Ok(v) && v@.len() == 1
                && (v@[0] matches ApiRequest::EditChatTitle { chat_id: c, title: t } && c == chat_id
                && t@ == title@),
            PeerRef::User { .. } => plan_view(r) == Err::<Seq<ApiRequest>, Seq<char>>(
                "Invalid peer for editing title"@,
            ),
        },
{
    match peer {
        PeerRef::Channel { channel_id, access_hash } => {
            let v = vec![
                ApiRequest::EditChannelTitle { channel: ChannelRef { channel_id, access_hash }, title },
            ];
            Ok(v)
        },
        PeerRef::Chat { chat_id } => {
            let v = vec![ApiRequest::EditChatTitle { chat_id, title }];
            Ok(v)
        },
        PeerRef::User { .. } => Err(String::from_str("Invalid peer for editing title")),
    }
}

/// Deleting messages: by channel in a channel; otherwise by id alone, revoking
/// them for everyone when asked.
pub fn plan_delete_messages(peer: PeerRef, ids: Vec<i32>, revoke: bool) -> (r: ApiRequest)
    ensures
        match peer {
            PeerRef::Channel { channel_id, access_hash } => r matches ApiRequest::DeleteChannelMessages {
                channel,
                ids: v,
            } && channel == (ChannelRef { channel_id, access_hash }) && v@ == ids@,
            _ => r matches ApiRequest::DeleteMessages { revoke: rv, ids: v } && rv == revoke && v@
                == ids@,
        },
{
    match peer {
        PeerRef::Channel { channel_id, access_hash } => ApiRequest::DeleteChannelMessages {
            channel: ChannelRef { channel_id, access_hash },
            ids,
        },
        _ => ApiRequest::DeleteMessages { revoke, ids },
    }
}

/// Deleting a chat's history: for everyone in a channel; otherwise revoking it.
pub fn plan_delete_chat_history(peer: PeerRef) -> (r: ApiRequest)
    ensures
        match peer {
            PeerRef::Channel { channel_id, access_hash } => r == (ApiRequest::DeleteChannelHistory {
                channel: ChannelRef { channel_id, access_hash },
            }),
            _ => r == (ApiRequest::DeleteHistory { peer }),
        },
{
    match peer {
        PeerRef::Channel { channel_id, access_hash } => ApiRequest::DeleteChannelHistory {
            channel: ChannelRef { channel_id, access_hash },
        },
        _ => ApiRequest::DeleteHistory { peer },
    }
}

/// A link to a message: only in a channel or supergroup.
pub fn plan_message_link(peer: PeerRef, id: i32) -> (r: Result<ApiRequest, String>)
    ensures
        match peer {
            PeerRef::Channel { channel_id, access_hash } => r == Ok::<ApiRequest, String>(
                ApiRequest::ExportMessageLink { channel: ChannelRef { channel_id, access_hash }, id },
            ),
            _ => r matches Err(e) && e@ == "Message links only available in supergroups/channels"@,
        },
{
    match peer {
        PeerRef::Channel { channel_id, access_hash } => Ok(
            ApiRequest::ExportMessageLink { channel: ChannelRef { channel_id, access_hash }, id },
        ),
        _ => Err(String::from_str("Message links only available in supergroups/channels")),
    }
}

/// Subscribing to a public channel: joining it if it is a channel, and doing
/// nothing otherwise.
pub fn plan_subscribe(peer: PeerRef) -> (r: Option<ApiRequest>)
    ensures
        match peer {
            PeerRef::Channel { channel_id, access_hash } => r == Some(
                ApiRequest::JoinChannel { channel: ChannelRef { channel_id, access_hash } },
            ),
            _ => r is None,
        },
{
    match peer {
        PeerRef::Channel { channel_id, access_hash } => Some(
            ApiRequest::JoinChannel { channel: ChannelRef { channel_id, access_hash } },
        ),
        _ => None,
    }
}

} // verus!
