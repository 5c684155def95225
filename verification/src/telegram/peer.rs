//! Which kind of peer a Bot API dialog id stands for.
use vstd::prelude::*;

verus! {

/// A peer as Telegram's API addresses it.
#[derive(Debug, PartialEq, Eq, Structural, Clone, Copy)]
pub enum PeerRef {
    User { user_id: i64, access_hash: i64 },
    Chat { chat_id: i64 },
    Channel { channel_id: i64, access_hash: i64 },
}

/// A channel (or supergroup) as Telegram's API addresses it.
#[derive(Debug, PartialEq, Eq, Structural, Clone, Copy)]
pub struct ChannelRef {
    pub channel_id: i64,
    pub access_hash: i64,
}

/// The first dialog id of a channel: channel `c` has dialog id
/// `-1000000000000 - c`.
pub open spec fn channel_offset() -> int {
    1000000000000
}

/// The peer that a Bot API dialog id stands for: positive ids are users, ids
/// at or below `-1000000000000` are channels, and the others are basic groups.
pub open spec fn classify_spec(id: i64, access_hash: i64) -> PeerRef {
    if id > 0 {
        PeerRef::User { user_id: id, access_hash }
    } else if id <= -channel_offset() {
        PeerRef::Channel { channel_id: (-id - channel_offset()) as i64, access_hash }
    } else {
        PeerRef::Chat { chat_id: (-id) as i64 }
    }
}

/// The Bot API dialog id of a peer.
pub open spec fn dialog_id(p: PeerRef) -> int {
    match p {
        PeerRef::User { user_id, .. } => user_id as int,
        PeerRef::Chat { chat_id } => -chat_id,
        PeerRef::Channel { channel_id, .. } => -channel_id - channel_offset(),
    }
}

/// The ids that stand for a peer: users above zero, basic groups below
/// `1000000000000`, channels at or above zero.
pub open spec fn has_dialog_id(p: PeerRef) -> bool {
    match p {
        PeerRef::User { user_id, .. } => user_id > 0,
        PeerRef::Chat { chat_id } => 0 <= chat_id < channel_offset(),
        PeerRef::Channel { channel_id, .. } => 0 <= channel_id <= i64::MAX - channel_offset(),
    }
}

impl PeerRef {
    /// The peer for a dialog id, with the access hash that the session holds
    /// for it (a basic group has none).
    pub fn classify(id: i64, access_hash: i64) -> (p: PeerRef)
        requires
            id > i64::MIN,
        ensures
            p == classify_spec(id, access_hash),
    {
        if id > 0 {
            PeerRef::User { user_id: id, access_hash }
        } else if id <= -1000000000000 {
            PeerRef::Channel { channel_id: -id - 1000000000000, access_hash }
        } else {
            PeerRef::Chat { chat_id: -id }
        }
    }

    /// The channel, where the peer is one.
    pub fn channel(&self) -> (c: Option<ChannelRef>)
        ensures
            match *self {
                PeerRef::Channel { channel_id, access_hash } => c == Some(
                    ChannelRef { channel_id, access_hash },
                ),
                _ => c is None,
            },
    {
        match self {
            PeerRef::Channel { channel_id, access_hash } => Some(
                ChannelRef { channel_id: *channel_id, access_hash: *access_hash },
            ),
            _ => None,
        }
    }
}

/// Classifying the dialog id of a peer gives back the peer (with the access
/// hash that the session holds for users and channels).
pub proof fn law_classify_dialog_id(p: PeerRef)
    requires
        has_dialog_id(p),
    ensures
        classify_spec(
            dialog_id(p) as i64,
            match p {
                PeerRef::User { access_hash, .. } => access_hash,
                PeerRef::Channel { access_hash, .. } => access_hash,
                PeerRef::Chat { .. } => 0,
            },
        ) == match p {
            PeerRef::Chat { chat_id } => PeerRef::Chat { chat_id },
            _ => p,
        },
{
}

} // verus!
