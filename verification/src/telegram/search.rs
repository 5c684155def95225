//! How the service filters what it searches.
use vstd::prelude::*;
use vstd::string::*;
use crate::service::ChatInfo;

verus! {

/// Whether `query` occurs in `text`.
pub open spec fn contains_spec(text: Seq<char>, query: Seq<char>) -> bool {
    exists|i: int| 0 <= i <= text.len() - query.len() && #[trigger] text.subrange(i, i + query.len()) == query
}

/// The characters of a text.
fn chars_of(text: &str) -> (v: Vec<char>)
    ensures
        v@ == text@,
{
    let n = text.unicode_len();
    let mut v: Vec<char> = Vec::new();
    let mut i: usize = 0;
    while i < n
        invariant
            n == text@.len(),
            i <= n,
            v@ == text@.take(i as int),
        decreases n - i,
    {
        v.push(text.get_char(i));
        i = i + 1;
        assert(v@ =~= text@.take(i as int));
    }
    assert(text@.take(n as int) =~= text@);
    v
}

/// Whether the query occurs in the text at position `at`.
fn occurs_at(t: &Vec<char>, q: &Vec<char>, at: usize) -> (b: bool)
    requires
        at + q@.len() <= t.len(),
    ensures
        b == (t@.subrange(at as int, at + q@.len()) == q@),
{
    let mut j: usize = 0;
    while j < q.len()
        invariant
            at + q@.len() <= t.len(),
            j <= q@.len(),
            forall|k: int| 0 <= k < j ==> t@[at + k] == q@[k],
        decreases q.len() - j,
    {
        if t[at + j] != q[j] {
            assert(t@.subrange(at as int, at + q@.len())[j as int] != q@[j as int]);
            return false;
        }
        j = j + 1;
    }
    assert(t@.subrange(at as int, at + q@.len()) =~= q@);
    true
}

/// Whether the query occurs in the text, as `str::contains` answers.
pub(crate) fn text_contains(text: &str, query: &str) -> (b: bool)
    ensures
        b == contains_spec(text@, query@),
{
    let t = chars_of(text);
    let q = chars_of(query);
    if q.len() > t.len() {
        return false;
    }
    let last = t.len() - q.len();
    let mut i: usize = 0;
    loop
        invariant
            last == t.len() - q.len(),
            i <= last,
            t@ == text@,
            q@ == query@,
            forall|k: int| 0 <= k < i ==> #[trigger] t@.subrange(k, k + q@.len()) != q@,
        decreases last - i,
    {
        if occurs_at(&t, &q, i) {
            return true;
        }
        if i == last {
            return false;
        }
        i = i + 1;
    }
}

/// A chat among the answers of a search.
#[derive(Debug)]
pub enum FoundChat {
    Channel { id: i64, title: String, username: Option<String> },
    Group { id: i64, title: String },
    Other,
}

/// The chat info that a found chat gives: channels as `Channel`, basic groups
/// as `Group` (with no username); other chats give none.
pub open spec fn chat_info_of(c: ChatInfo, f: FoundChat) -> bool {
    match f {
        FoundChat::Channel { id, title, username } => c.id == id && c.title == title && c.username
            == username && c.chat_type@ == "Channel"@,
        FoundChat::Group { id, title } => c.id == id && c.title == title && c.username is None
            && c.chat_type@ == "Group"@,
        FoundChat::Other => false,
    }
}

/// The channels and groups of a list, in order.
pub open spec fn listed_chats(raw: Seq<FoundChat>, groups_only: bool) -> Seq<FoundChat>
    decreases raw.len(),
{
    if raw.len() == 0 {
        Seq::empty()
    } else {
        let rest = listed_chats(raw.drop_last(), groups_only);
        match raw.last() {
            FoundChat::Channel { .. } => if groups_only {
                rest
            } else {
                rest.push(raw.last())
            },
            FoundChat::Group { .. } => rest.push(raw.last()),
            FoundChat::Other => rest,
        }
    }
}

/// The chats of a search's answer: its channels and basic groups, or (for
/// chats in common) its basic groups only.
pub fn found_chats(raw: Vec<FoundChat>, groups_only: bool) -> (r: Vec<ChatInfo>)
    ensures
        r@.len() == listed_chats(raw@, groups_only).len(),
        forall|i: int|
            0 <= i < r@.len() ==> chat_info_of(#[trigger] r@[i], listed_chats(raw@, groups_only)[i]),
{
    let ghost all = raw@;
    let mut rest = raw;
    let mut out: Vec<ChatInfo> = Vec::new();
    let mut i: usize = 0;
    let n = rest.len();
    while i < n
        invariant
            n == all.len(),
            all == raw@,
            0 <= i <= n,
            rest@ == all.subrange(i as int, n as int),
            out@.len() == listed_chats(all.take(i as int), groups_only).len(),
            forall|k: int|
                0 <= k < out@.len() ==> chat_info_of(
                    #[trigger] out@[k],
                    listed_chats(all.take(i as int), groups_only)[k],
                ),
        decreases n - i,
    {
        assert(all.take(i + 1).drop_last() =~= all.take(i as int));
        let item = rest.remove(0);
        assert(item == all[i as int]);
        match item {
            FoundChat::Channel { id, title, username } => {
                if !groups_only {
                    out.push(ChatInfo { id, title, username, chat_type: String::from_str("Channel") });
                }
            },
            FoundChat::Group { id, title } => {
                out.push(ChatInfo { id, title, username: None, chat_type: String::from_str("Group") });
            },
            FoundChat::Other => {},
        }
        i = i + 1;
        assert(rest@ =~= all.subrange(i as int, n as int));
    }
    assert(all.take(n as int) =~= all);
    out
}

} // verus!
