//! How the service sends and stores files.
use vstd::prelude::*;
use vstd::string::*;
use crate::json::opt_string_view;
use crate::telegram::peer::PeerRef;
use crate::text::{decimal, push_i64};
use crate::tools::image::{extension_of, path_extension};

verus! {

/// The text in lower case, as `str::to_lowercase` writes it.
pub uninterp spec fn lowercase(s: Seq<char>) -> Seq<char>;

/// `str::to_lowercase`: the text with every character in its lower-case form
/// (Unicode's mapping). The text is named, not stated.
#[verifier::external_body]
fn to_lowercase(s: &str) -> (r: String)
    ensures
        r@ == lowercase(s@),
{
    s.to_lowercase()
}

/// Whether a file goes out as a photo: a JPEG by its extension, in any case.
/// (PNG images, like every other file, go out as documents.)
pub open spec fn photo_by_extension(ext: Option<Seq<char>>) -> bool {
    match ext {
        Some(e) => {
            let l = lowercase(e);
            (l == "jpg"@ || l == "jpeg"@ || l == "png"@) && l != "png"@
        },
        None => false,
    }
}

pub fn send_as_photo(path: &str) -> (b: bool)
    ensures
        b == photo_by_extension(path_extension(path@)),
{
    match extension_of(path) {
        Some(e) => {
            let l = to_lowercase(e.as_str());
            let is_image = l == String::from_str("jpg") || l == String::from_str("jpeg") || l
                == String::from_str("png");
            is_image && !(l == String::from_str("png"))
        },
        None => false,
    }
}

/// A random 64-bit value.
#[verifier::external_body]
fn random_u64() -> u64 {
    rand::random::<u64>()
}

/// Where a download without a target goes:
/// `/home/di/telegram-mcp/downloads/telegram_{peer}_{message}_{nonce}.media`.
pub open spec fn download_path_spec(peer_id: i64, message_id: i32, nonce: u32) -> Seq<char> {
    "/home/di/telegram-mcp/downloads/telegram_"@ + decimal(peer_id as int) + "_"@ + decimal(
        message_id as int,
    ) + "_"@ + decimal(nonce as int) + ".media"@
}

pub fn download_path(peer_id: i64, message_id: i32, nonce: u32) -> (r: String)
    ensures
        r@ == download_path_spec(peer_id, message_id, nonce),
{
    let mut p = String::from_str("/home/di/telegram-mcp/downloads/telegram_");
    push_i64(&mut p, peer_id);
    p.append("_");
    push_i64(&mut p, message_id as i64);
    p.append("_");
    push_i64(&mut p, nonce as i64);
    p.append(".media");
    p
}

/// A default download path with a random nonce.
pub fn fresh_download_path(peer_id: i64, message_id: i32) -> (r: String)
    ensures
        exists|nonce: u32| r@ == download_path_spec(peer_id, message_id, nonce),
{
    let nonce = random_u64() as u32;
    download_path(peer_id, message_id, nonce)
}

/// Forwarding messages from one chat to another, with a random id for the
/// forwarded batch.
#[derive(Debug)]
pub struct ForwardRequest {
    pub from_peer: PeerRef,
    pub to_peer: PeerRef,
    pub ids: Vec<i32>,
    pub random_id: i64,
}

pub fn plan_forward(to_peer: PeerRef, from_peer: PeerRef, ids: Vec<i32>) -> (r: ForwardRequest)
    ensures
        r.from_peer == from_peer,
        r.to_peer == to_peer,
        r.ids@ == ids@,
{
    ForwardRequest { from_peer, to_peer, ids, random_id: random_u64() as i64 }
}

/// The caption of file `index` of an album: the album's caption (or none) on
/// the first file, and an empty one on every other.
pub open spec fn album_caption_spec(caption: Option<Seq<char>>, index: int) -> Seq<char> {
    if index == 0 {
        match caption {
            Some(c) => c,
            None => Seq::empty(),
        }
    } else {
        Seq::empty()
    }
}

pub fn album_caption(caption: Option<&str>, index: usize) -> (r: String)
    ensures
        r@ == album_caption_spec(
            match caption {
                Some(c) => Some(c@),
                None => None,
            },
            index as int,
        ),
{
    if index == 0 {
        match caption {
            Some(c) => String::from_str(c),
            None => String::new(),
        }
    } else {
        String::new()
    }
}

} // verus!
