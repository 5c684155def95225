//! The restrictions and admin rights that the admin tools ask Telegram for.
use vstd::prelude::*;

verus! {

/// What a ban or a group's default permissions forbid: each flag set forbids
/// that action.
#[derive(Debug, PartialEq, Eq, Structural, Clone, Copy)]
pub struct BannedRights {
    pub view_messages: bool,
    pub send_messages: bool,
    pub send_media: bool,
    pub send_stickers: bool,
    pub send_gifs: bool,
    pub send_games: bool,
    pub send_inline: bool,
    pub embed_links: bool,
    pub send_polls: bool,
    pub change_info: bool,
    pub invite_users: bool,
    pub pin_messages: bool,
    pub manage_topics: bool,
    pub send_photos: bool,
    pub send_videos: bool,
    pub send_roundvideos: bool,
    pub send_audios: bool,
    pub send_voices: bool,
    pub send_docs: bool,
    pub send_plain: bool,
    pub until_date: i32,
}

/// What an admin may do: each flag set grants that right.
#[derive(Debug, PartialEq, Eq, Structural, Clone, Copy)]
pub struct AdminRights {
    pub change_info: bool,
    pub post_messages: bool,
    pub edit_messages: bool,
    pub delete_messages: bool,
    pub ban_users: bool,
    pub invite_users: bool,
    pub pin_messages: bool,
    pub add_admins: bool,
    pub anonymous: bool,
    pub manage_call: bool,
    pub other: bool,
    pub manage_topics: bool,
    pub post_stories: bool,
    pub edit_stories: bool,
    pub delete_stories: bool,
    pub manage_direct_messages: bool,
}

/// Every flag of a set of restrictions, in declaration order.
pub open spec fn banned_flags(r: BannedRights) -> Seq<bool> {
    seq![
        r.view_messages,
        r.send_messages,
        r.send_media,
        r.send_stickers,
        r.send_gifs,
        r.send_games,
        r.send_inline,
        r.embed_links,
        r.send_polls,
        r.change_info,
        r.invite_users,
        r.pin_messages,
        r.manage_topics,
        r.send_photos,
        r.send_videos,
        r.send_roundvideos,
        r.send_audios,
        r.send_voices,
        r.send_docs,
        r.send_plain,
    ]
}

/// Every flag of a set of admin rights, in declaration order.
pub open spec fn admin_flags(r: AdminRights) -> Seq<bool> {
    seq![
        r.change_info,
        r.post_messages,
        r.edit_messages,
        r.delete_messages,
        r.ban_users,
        r.invite_users,
        r.pin_messages,
        r.add_admins,
        r.anonymous,
        r.manage_call,
        r.other,
        r.manage_topics,
        r.post_stories,
        r.edit_stories,
        r.delete_stories,
        r.manage_direct_messages,
    ]
}

pub open spec fn banned_all(value: bool) -> BannedRights {
    BannedRights {
        view_messages: value,
        send_messages: value,
        send_media: value,
        send_stickers: value,
        send_gifs: value,
        send_games: value,
        send_inline: value,
        embed_links: value,
        send_polls: value,
        change_info: value,
        invite_users: value,
        pin_messages: value,
        manage_topics: value,
        send_photos: value,
        send_videos: value,
        send_roundvideos: value,
        send_audios: value,
        send_voices: value,
        send_docs: value,
        send_plain: value,
        until_date: 0,
    }
}

/// A ban: every action forbidden, for ever.
pub fn full_ban() -> (r: BannedRights)
    ensures
        r == banned_all(true),
{
    BannedRights {
        view_messages: true,
        send_messages: true,
        send_media: true,
        send_stickers: true,
        send_gifs: true,
        send_games: true,
        send_inline: true,
        embed_links: true,
        send_polls: true,
        change_info: true,
        invite_users: true,
        pin_messages: true,
        manage_topics: true,
        send_photos: true,
        send_videos: true,
        send_roundvideos: true,
        send_audios: true,
        send_voices: true,
        send_docs: true,
        send_plain: true,
        until_date: 0,
    }
}

/// No restriction at all, which lifts a ban.
pub fn no_ban() -> (r: BannedRights)
    ensures
        r == banned_all(false),
{
    BannedRights {
        view_messages: false,
        send_messages: false,
        send_media: false,
        send_stickers: false,
        send_gifs: false,
        send_games: false,
        send_inline: false,
        embed_links: false,
        send_polls: false,
        change_info: false,
        invite_users: false,
        pin_messages: false,
        manage_topics: false,
        send_photos: false,
        send_videos: false,
        send_roundvideos: false,
        send_audios: false,
        send_voices: false,
        send_docs: false,
        send_plain: false,
        until_date: 0,
    }
}

/// A group's default permissions: members may read; sending text, inline
/// results, links and polls follows `send_messages`; sending media of every
/// kind follows `send_media`; members may invite, but not change the group's
/// info, pin or manage topics.
pub open spec fn default_permissions_spec(send_messages: bool, send_media: bool) -> BannedRights {
    BannedRights {
        view_messages: false,
        send_messages: !send_messages,
        send_media: !send_media,
        send_stickers: !send_media,
        send_gifs: !send_media,
        send_games: !send_media,
        send_inline: !send_messages,
        embed_links: !send_messages,
        send_polls: !send_messages,
        change_info: true,
        invite_users: false,
        pin_messages: true,
        manage_topics: true,
        send_photos: !send_media,
        send_videos: !send_media,
        send_roundvideos: !send_media,
        send_audios: !send_media,
        send_voices: !send_media,
        send_docs: !send_media,
        send_plain: !send_messages,
        until_date: 0,
    }
}

pub fn default_permissions(send_messages: bool, send_media: bool) -> (r: BannedRights)
    ensures
        r == default_permissions_spec(send_messages, send_media),
{
    BannedRights {
        view_messages: false,
        send_messages: !send_messages,
        send_media: !send_media,
        send_stickers: !send_media,
        send_gifs: !send_media,
        send_games: !send_media,
        send_inline: !send_messages,
        embed_links: !send_messages,
        send_polls: !send_messages,
        change_info: true,
        invite_users: false,
        pin_messages: true,
        manage_topics: true,
        send_photos: !send_media,
        send_videos: !send_media,
        send_roundvideos: !send_media,
        send_audios: !send_media,
        send_voices: !send_media,
        send_docs: !send_media,
        send_plain: !send_messages,
        until_date: 0,
    }
}

/// The rights of a promoted admin: everything but adding admins, posting
/// anonymously and managing direct messages.
pub open spec fn promoted_rights_spec() -> AdminRights {
    AdminRights {
        change_info: true,
        post_messages: true,
        edit_messages: true,
        delete_messages: true,
        ban_users: true,
        invite_users: true,
        pin_messages: true,
        add_admins: false,
        anonymous: false,
        manage_call: true,
        other: true,
        manage_topics: true,
        post_stories: true,
        edit_stories: true,
        delete_stories: true,
        manage_direct_messages: false,
    }
}

/// The rights that `edit_admin_rights` grants: the three chosen ones, and
/// otherwise what a promoted admin has.
pub open spec fn edited_rights_spec(add_admins: bool, ban_users: bool, pin_messages: bool) -> AdminRights {
    AdminRights {
        change_info: true,
        post_messages: true,
        edit_messages: true,
        delete_messages: true,
        ban_users,
        invite_users: true,
        pin_messages,
        add_admins,
        anonymous: false,
        manage_call: true,
        other: true,
        manage_topics: true,
        post_stories: true,
        edit_stories: true,
        delete_stories: true,
        manage_direct_messages: false,
    }
}

/// No admin right at all.
pub open spec fn no_admin_rights_spec() -> AdminRights {
    AdminRights {
        change_info: false,
        post_messages: false,
        edit_messages: false,
        delete_messages: false,
        ban_users: false,
        invite_users: false,
        pin_messages: false,
        add_admins: false,
        anonymous: false,
        manage_call: false,
        other: false,
        manage_topics: false,
        post_stories: false,
        edit_stories: false,
        delete_stories: false,
        manage_direct_messages: false,
    }
}

pub fn edited_rights(add_admins: bool, ban_users: bool, pin_messages: bool) -> (r: AdminRights)
    ensures
        r == edited_rights_spec(add_admins, ban_users, pin_messages),
{
    AdminRights {
        change_info: true,
        post_messages: true,
        edit_messages: true,
        delete_messages: true,
        ban_users,
        invite_users: true,
        pin_messages,
        add_admins,
        anonymous: false,
        manage_call: true,
        other: true,
        manage_topics: true,
        post_stories: true,
        edit_stories: true,
        delete_stories: true,
        manage_direct_messages: false,
    }
}

pub fn promoted_rights() -> (r: AdminRights)
    ensures
        r == promoted_rights_spec(),
{
    AdminRights {
        change_info: true,
        post_messages: true,
        edit_messages: true,
        delete_messages: true,
        ban_users: true,
        invite_users: true,
        pin_messages: true,
        add_admins: false,
        anonymous: false,
        manage_call: true,
        other: true,
        manage_topics: true,
        post_stories: true,
        edit_stories: true,
        delete_stories: true,
        manage_direct_messages: false,
    }
}

pub fn no_admin_rights() -> (r: AdminRights)
    ensures
        r == no_admin_rights_spec(),
{
    AdminRights {
        change_info: false,
        post_messages: false,
        edit_messages: false,
        delete_messages: false,
        ban_users: false,
        invite_users: false,
        pin_messages: false,
        add_admins: false,
        anonymous: false,
        manage_call: false,
        other: false,
        manage_topics: false,
        post_stories: false,
        edit_stories: false,
        delete_stories: false,
        manage_direct_messages: false,
    }
}

/// Lifting a ban forbids exactly what the ban allowed: each flag of the one is
/// the negation of the same flag of the other.
pub proof fn law_unban_lifts_ban()
    ensures
        banned_flags(banned_all(true)).len() == banned_flags(banned_all(false)).len(),
        forall|i: int|
            0 <= i < banned_flags(banned_all(true)).len() ==> #[trigger] banned_flags(
                banned_all(true),
            )[i] == !banned_flags(banned_all(false))[i],
{
}

/// Demoting leaves no right that promoting granted, and promoting grants
/// exactly the rights of an edit that grants no admin-adding, and grants bans
/// and pins.
pub proof fn law_demote_removes_rights()
    ensures
        forall|i: int|
            0 <= i < admin_flags(no_admin_rights_spec()).len() ==> !#[trigger] admin_flags(
                no_admin_rights_spec(),
            )[i],
        promoted_rights_spec() == edited_rights_spec(false, true, true),
{
}

/// Allowing both text and media in a group's defaults forbids only changing
/// its info, pinning and managing topics.
pub proof fn law_default_permissions_open()
    ensures
        default_permissions_spec(true, true) == (BannedRights {
            change_info: true,
            pin_messages: true,
            manage_topics: true,
            ..banned_all(false)
        }),
{
}

} // verus!
