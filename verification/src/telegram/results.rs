//! What the Telegram service makes of its arguments and of the API's answers.
use vstd::prelude::*;
use vstd::string::*;
use crate::json::opt_string_view;
use crate::service::{ChatInfo, ContactInfo, FolderInfo, MessageInfo, UserInfo};
use crate::text::{decimal, parse_in_range, parse_int_in, push_i64};
use crate::telegram::peer::{channel_offset, classify_spec, PeerRef};
use crate::tools::image::{base64_standard, encode_base64};

verus! {

/// Until when a chat is muted: the given time (or for ever, `i32::MAX`) when
/// muting, 0 when unmuting.
pub fn mute_until(muted: bool, until: Option<i32>) -> (r: i32)
    ensures
        r == if muted {
            match until {
                Some(t) => t,
                None => i32::MAX,
            }
        } else {
            0
        },
{
    if muted {
        match until {
            Some(t) => t,
            None => 2147483647,
        }
    } else {
        0
    }
}

/// The folder that archiving moves a chat to: 1 (the archive), or 0 (the
/// main list).
pub fn archive_folder(archived: bool) -> (r: i32)
    ensures
        r == if archived {
            1i32
        } else {
            0i32
        },
{
    if archived {
        1
    } else {
        0
    }
}

/// The reactions that sending `emoji` sets: none for an empty emoji, which
/// removes the reaction.
pub fn reaction_list(emoji: &str) -> (r: Vec<String>)
    ensures
        emoji@.len() == 0 ==> r@.len() == 0,
        emoji@.len() > 0 ==> r@.len() == 1 && r@[0]@ == emoji@,
{
    if emoji.unicode_len() == 0 {
        Vec::new()
    } else {
        let mut v: Vec<String> = Vec::new();
        v.push(String::from_str(emoji));
        v
    }
}

/// What follows the last `/` of the text (all of it where it has none).
pub open spec fn after_last_slash(s: Seq<char>) -> Seq<char>
    decreases s.len(),
{
    if s.len() == 0 {
        s
    } else if s.last() == '/' {
        Seq::empty()
    } else {
        after_last_slash(s.drop_last()).push(s.last())
    }
}

/// The hash of an invite link: its last path segment.
pub fn invite_hash(link: &str) -> (r: String)
    ensures
        r@ == after_last_slash(link@),
{
    let n = link.unicode_len();
    let mut start: usize = 0;
    let mut i: usize = 0;
    while i < n
        invariant
            n == link@.len(),
            0 <= start <= i <= n,
            after_last_slash(link@.take(i as int)) == link@.subrange(start as int, i as int),
        decreases n - i,
    {
        let c = link.get_char(i);
        assert(link@.take(i + 1).drop_last() =~= link@.take(i as int));
        if c == '/' {
            start = i + 1;
            assert(after_last_slash(link@.take(i + 1)) =~= link@.subrange(start as int, i + 1));
        } else {
            assert(after_last_slash(link@.take(i + 1)) =~= link@.subrange(start as int, i + 1));
        }
        i = i + 1;
    }
    assert(link@.take(n as int) =~= link@);
    String::from_str(link.substring_char(start, n))
}

/// The id of the message ten after the given one, where the context of a
/// message starts.
pub fn context_offset(message_id: i32) -> (r: i32)
    requires
        message_id <= i32::MAX - 10,
    ensures
        r == message_id + 10,
{
    message_id + 10
}

/// The dialog id of channel `c`.
pub open spec fn created_dialog_id(c: i64) -> int {
    -c - channel_offset()
}

/// The dialog id given to a created channel is read back as that channel.
pub proof fn law_created_channel_round_trips(c: i64, access_hash: i64)
    requires
        0 <= c <= i64::MAX - channel_offset(),
    ensures
        classify_spec(created_dialog_id(c) as i64, access_hash) == (PeerRef::Channel {
            channel_id: c,
            access_hash,
        }),
{
}

/// The dialog id of a newly created channel, from the first channel in the
/// answer's updates: channel `c` has dialog id `-1000000000000 - c`, the id
/// that `PeerRef::classify` reads back as that channel.
pub fn created_channel_id(channel_ids: &Vec<i64>) -> (r: Result<i64, String>)
    requires
        channel_ids@.len() > 0 ==> channel_ids@[0] > i64::MIN && -channel_ids@[0] - 1000000000000
            >= i64::MIN,
    ensures
        channel_ids@.len() > 0 ==> r == Ok::<i64, String>(created_dialog_id(channel_ids@[0]) as i64),
        channel_ids@.len() == 0 ==> (r matches Err(e) && e@
            == "Failed to extract channel ID from response"@),
{
    if channel_ids.len() > 0 {
        Ok(-channel_ids[0] - 1000000000000)
    } else {
        Err(String::from_str("Failed to extract channel ID from response"))
    }
}

/// The first entry that is present.
pub open spec fn first_some<T>(s: Seq<Option<T>>) -> Option<T>
    decreases s.len(),
{
    if s.len() == 0 {
        None
    } else if s[0] is Some {
        s[0]
    } else {
        first_some(s.drop_first())
    }
}

/// The chat that importing an invite joined: the first basic group or
/// channel among the answer's chats (`None` for the other kinds).
pub fn joined_chat_id(ids: &Vec<Option<i64>>) -> (r: Result<i64, String>)
    ensures
        match first_some(ids@) {
            Some(id) => r == Ok::<i64, String>(id),
            None => r matches Err(e) && e@ == "Failed to import invite"@,
        },
{
    let mut i: usize = 0;
    assert(ids@.subrange(0, ids@.len() as int) =~= ids@);
    while i < ids.len()
        invariant
            0 <= i <= ids.len(),
            first_some(ids@) == first_some(ids@.subrange(i as int, ids@.len() as int)),
        decreases ids.len() - i,
    {
        assert(ids@.subrange(i as int, ids@.len() as int).drop_first() =~= ids@.subrange(
            i + 1,
            ids@.len() as int,
        ));
        assert(ids@.subrange(i as int, ids@.len() as int)[0] == ids@[i as int]);
        match ids[i] {
            Some(id) => return Ok(id),
            None => {},
        }
        i = i + 1;
    }
    Err(String::from_str("Failed to import invite"))
}

/// A chat's invite link: the link of the first exported invite, if that one
/// is a link (`None` for the other kinds).
pub fn first_invite_link(invites: &Vec<Option<String>>) -> (r: Result<String, String>)
    ensures
        invites@.len() > 0 && invites@[0] is Some ==> (r matches Ok(l) && l@
            == invites@[0]->Some_0@),
        !(invites@.len() > 0 && invites@[0] is Some) ==> (r matches Err(e) && e@
            == "No invite link found"@),
{
    if invites.len() > 0 {
        match &invites[0] {
            Some(l) => return Ok(l.clone()),
            None => {},
        }
    }
    Err(String::from_str("No invite link found"))
}

/// What pressing an inline button answers: the bot's message, or a default.
pub fn callback_answer(message: Option<String>) -> (r: String)
    ensures
        r@ == match message {
            Some(m) => m@,
            None => "Callback triggered successfully."@,
        },
{
    match message {
        Some(m) => m,
        None => String::from_str("Callback triggered successfully."),
    }
}

/// `Text: '{text}' -> Data: '{data}'` for a callback button, with its data in
/// base64, as `press_inline_button` takes it back.
pub fn button_line(text: &str, data: &[u8]) -> (r: String)
    ensures
        r@ == "Text: '"@ + text@ + "' -> Data: '"@ + base64_standard(data@) + "'"@,
{
    let encoded = encode_base64(data);
    let mut r = String::from_str("Text: '");
    r.append(text);
    r.append("' -> Data: '");
    r.append(encoded.as_str());
    r.append("'");
    r
}

pub open spec fn or_empty(o: Option<String>) -> Seq<char> {
    match o {
        Some(s) => s@,
        None => Seq::empty(),
    }
}

/// `{first} {last} ({phone})` and a newline, for one contact.
pub open spec fn contact_line(c: ContactInfo) -> Seq<char> {
    c.first_name@ + " "@ + or_empty(c.last_name) + " ("@ + or_empty(c.phone) + ")\n"@
}

pub open spec fn contacts_text(cs: Seq<ContactInfo>) -> Seq<char>
    decreases cs.len(),
{
    if cs.len() == 0 {
        Seq::empty()
    } else {
        contacts_text(cs.drop_last()) + contact_line(cs.last())
    }
}

/// The exported contact list: one line per contact, in order.
pub fn export_contacts_text(contacts: &Vec<ContactInfo>) -> (r: String)
    ensures
        r@ == contacts_text(contacts@),
{
    let mut out = String::new();
    let mut i: usize = 0;
    while i < contacts.len()
        invariant
            0 <= i <= contacts.len(),
            out@ == contacts_text(contacts@.take(i as int)),
        decreases contacts.len() - i,
    {
        assert(contacts@.take(i + 1).drop_last() =~= contacts@.take(i as int));
        let c = &contacts[i];
        let ghost before = out@;
        out.append(c.first_name.as_str());
        out.append(" ");
        match &c.last_name {
            Some(l) => out.append(l.as_str()),
            None => {},
        }
        out.append(" (");
        match &c.phone {
            Some(p) => out.append(p.as_str()),
            None => {},
        }
        out.append(")\n");
        i = i + 1;
        assert(out@ =~= before + contact_line(contacts@[i - 1]));
    }
    assert(contacts@.take(i as int) =~= contacts@);
    out
}

/// The folder with the given id: the first such folder.
pub fn find_folder(folders: Vec<FolderInfo>, folder_id: i32) -> (r: Result<FolderInfo, String>)
    ensures
        match r {
            Ok(f) => f.id == folder_id && exists|i: int|
                0 <= i < folders@.len() && folders@[i] == f && forall|j: int|
                    0 <= j < i ==> #[trigger] folders@[j].id != folder_id,
            Err(e) => e@ == "Folder not found"@ && forall|j: int|
                0 <= j < folders@.len() ==> #[trigger] folders@[j].id != folder_id,
        },
{
    let mut rest = folders;
    let ghost all = rest@;
    let mut taken: usize = 0;
    let mut i: usize = 0;
    let n = rest.len();
    while i < n
        invariant
            n == all.len(),
            all == folders@,
            0 <= i <= n,
            rest@ == all.subrange(i as int, n as int),
            forall|j: int| 0 <= j < i ==> #[trigger] all[j].id != folder_id,
        decreases n - i,
    {
        let f = rest.remove(0);
        assert(f == all[i as int]);
        if f.id == folder_id {
            assert(0 <= i < all.len() && all[i as int] == f);
            return Ok(f);
        }
        i = i + 1;
        assert(rest@ =~= all.subrange(i as int, n as int));
    }
    Err(String::from_str("Folder not found"))
}

/// A message as the API's message lists hold it.
#[derive(Debug)]
pub struct RawMessage {
    pub id: i32,
    pub message: String,
    pub date: i32,
}

pub open spec fn plain_message(m: RawMessage) -> MessageInfo {
    MessageInfo { id: m.id, sender_id: 0, text: m.message, date: m.date as i64, reply_to_msg_id: None }
}

pub open spec fn plain_messages_spec(raw: Seq<Option<RawMessage>>) -> Seq<MessageInfo>
    decreases raw.len(),
{
    if raw.len() == 0 {
        Seq::empty()
    } else {
        let rest = plain_messages_spec(raw.drop_last());
        match raw.last() {
            Some(m) => rest.push(plain_message(m)),
            None => rest,
        }
    }
}

/// The messages of an answer (`None` for the entries that are not messages),
/// with no sender and no reply.
pub fn plain_messages(raw: Vec<Option<RawMessage>>) -> (r: Vec<MessageInfo>)
    ensures
        r@ == plain_messages_spec(raw@),
{
    let ghost all = raw@;
    let mut rest = raw;
    let mut out: Vec<MessageInfo> = Vec::new();
    let mut i: usize = 0;
    let n = rest.len();
    while i < n
        invariant
            n == all.len(),
            0 <= i <= n,
            rest@ == all.subrange(i as int, n as int),
            out@ == plain_messages_spec(all.take(i as int)),
        decreases n - i,
    {
        assert(all.take(i + 1).drop_last() =~= all.take(i as int));
        let item = rest.remove(0);
        assert(item == all[i as int]);
        match item {
            Some(m) => out.push(
                MessageInfo { id: m.id, sender_id: 0, text: m.message, date: m.date as i64, reply_to_msg_id: None },
            ),
            None => {},
        }
        i = i + 1;
        assert(rest@ =~= all.subrange(i as int, n as int));
    }
    assert(all.take(n as int) =~= all);
    out
}

/// A user as the API's user lists hold it.
#[derive(Debug)]
pub struct RawUser {
    pub id: i64,
    pub first_name: Option<String>,
    pub last_name: Option<String>,
    pub username: Option<String>,
    pub phone: Option<String>,
}

/// The users of an answer's list, in order, skipping the entries that are
/// not users.
pub open spec fn users_of(raw: Seq<Option<RawUser>>) -> Seq<RawUser>
    decreases raw.len(),
{
    if raw.len() == 0 {
        Seq::empty()
    } else {
        let rest = users_of(raw.drop_last());
        match raw.last() {
            Some(u) => rest.push(u),
            None => rest,
        }
    }
}

/// A contact made from a user: the same fields, with an empty first name where
/// the user has none.
pub open spec fn contact_of(c: ContactInfo, u: RawUser) -> bool {
    &&& c.user_id == u.id
    &&& c.first_name@ == or_empty(u.first_name)
    &&& c.last_name == u.last_name
    &&& c.username == u.username
    &&& c.phone == u.phone
}

/// The contacts among an answer's users (`None` for the entries that are not
/// users), in order.
pub fn contacts_of(raw: Vec<Option<RawUser>>) -> (r: Vec<ContactInfo>)
    ensures
        r@.len() == users_of(raw@).len(),
        forall|i: int| 0 <= i < r@.len() ==> contact_of(#[trigger] r@[i], users_of(raw@)[i]),
{
    let ghost all = raw@;
    let mut rest = raw;
    let mut out: Vec<ContactInfo> = Vec::new();
    let mut i: usize = 0;
    let n = rest.len();
    while i < n
        invariant
            n == all.len(),
            all == raw@,
            0 <= i <= n,
            rest@ == all.subrange(i as int, n as int),
            out@.len() == users_of(all.take(i as int)).len(),
            forall|k: int|
                0 <= k < out@.len() ==> contact_of(#[trigger] out@[k], users_of(all.take(i as int))[k]),
        decreases n - i,
    {
        assert(all.take(i + 1).drop_last() =~= all.take(i as int));
        let item = rest.remove(0);
        assert(item == all[i as int]);
        match item {
            Some(u) => {
                let first = match u.first_name {
                    Some(f) => f,
                    None => String::new(),
                };
                out.push(
                    ContactInfo {
                        user_id: u.id,
                        first_name: first,
                        last_name: u.last_name,
                        username: u.username,
                        phone: u.phone,
                    },
                );
            },
            None => {},
        }
        i = i + 1;
        assert(rest@ =~= all.subrange(i as int, n as int));
    }
    assert(all.take(n as int) =~= all);
    out
}

/// Who has read a message, as the service reports it: the answer's read dates
/// are not parsed, so nobody is listed.
pub fn read_by_users() -> (r: Vec<UserInfo>)
    ensures
        r@ == Seq::<UserInfo>::empty(),
{
    Vec::new()
}

/// A user's status: the first status that the answer's users have, or
/// `Unknown`.
pub fn status_text(statuses: Vec<Option<String>>) -> (r: String)
    ensures
        r@ == match first_some(statuses@) {
            Some(s) => s@,
            None => "Unknown"@,
        },
{
    let mut i: usize = 0;
    let ghost all = statuses@;
    let mut rest = statuses;
    let n = rest.len();
    assert(all.subrange(0, n as int) =~= all);
    while i < n
        invariant
            n == all.len(),
            0 <= i <= n,
            rest@ == all.subrange(i as int, n as int),
            all == statuses@,
            first_some(all) == first_some(all.subrange(i as int, n as int)),
        decreases n - i,
    {
        assert(all.subrange(i as int, n as int).drop_first() =~= all.subrange(i + 1, n as int));
        assert(all.subrange(i as int, n as int)[0] == all[i as int]);
        let s = rest.remove(0);
        assert(s == all[i as int]);
        match s {
            Some(t) => {
                return t;
            },
            None => {},
        }
        i = i + 1;
        assert(rest@ =~= all.subrange(i as int, n as int));
    }
    String::from_str("Unknown")
}

/// The dialog id that a peer's text is, where it is an integer.
pub fn peer_id_text(text: &str) -> (r: Option<i64>)
    ensures
        match r {
            Some(n) => parse_in_range(text@, i64::MIN as int, i64::MAX as int) == Some(n as int),
            None => parse_in_range(text@, i64::MIN as int, i64::MAX as int) is None,
        },
{
    parse_int_in(text, -9223372036854775808i64, 9223372036854775807i64)
}

/// What a participant is in a group or channel.
#[derive(Debug, PartialEq, Eq, Structural, Clone, Copy)]
pub enum ParticipantRole {
    Member,
    Creator,
    Admin,
    Banned,
    Left,
}

/// A participant of a group or channel, as the participant list gives it.
#[derive(Debug)]
pub struct Participant {
    pub user: UserInfo,
    pub role: ParticipantRole,
}

/// Whether the role is one that `get_admins` lists (admins and the creator)
/// or, otherwise, one that `get_banned_users` lists (banned users).
pub open spec fn listed_role(role: ParticipantRole, admins: bool) -> bool {
    if admins {
        role == ParticipantRole::Admin || role == ParticipantRole::Creator
    } else {
        role == ParticipantRole::Banned
    }
}

/// The users of the participants with a listed role, in order.
pub open spec fn users_in_role(ps: Seq<Participant>, admins: bool) -> Seq<UserInfo>
    decreases ps.len(),
{
    if ps.len() == 0 {
        Seq::empty()
    } else if listed_role(ps[0].role, admins) {
        seq![ps[0].user] + users_in_role(ps.drop_first(), admins)
    } else {
        users_in_role(ps.drop_first(), admins)
    }
}

fn pick_users(ps: Vec<Participant>, admins: bool) -> (r: Vec<UserInfo>)
    ensures
        r@ == users_in_role(ps@, admins),
{
    let ghost all = ps@;
    let mut rest = ps;
    let mut out: Vec<UserInfo> = Vec::new();
    while rest.len() > 0
        invariant
            users_in_role(all, admins) == out@ + users_in_role(rest@, admins),
        decreases rest.len(),
    {
        let ghost before = rest@;
        let p = rest.remove(0);
        assert(rest@ =~= before.drop_first());
        let ghost old_out = out@;
        let keep = match p.role {
            ParticipantRole::Admin => admins,
            ParticipantRole::Creator => admins,
            ParticipantRole::Banned => !admins,
            _ => false,
        };
        if keep {
            out.push(p.user);
            assert(old_out + users_in_role(before, admins) =~= out@ + users_in_role(rest@, admins));
        }
    }
    assert(out@ + users_in_role(rest@, admins) =~= out@);
    out
}

/// The admins of a chat, the creator among them, in the list's order.
pub fn admins_of(ps: Vec<Participant>) -> (r: Vec<UserInfo>)
    ensures
        r@ == users_in_role(ps@, true),
{
    pick_users(ps, true)
}

/// The banned users of a chat, in the list's order.
pub fn banned_of(ps: Vec<Participant>) -> (r: Vec<UserInfo>)
    ensures
        r@ == users_in_role(ps@, false),
{
    pick_users(ps, false)
}

} // verus!
