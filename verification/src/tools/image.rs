//! The two steps of `get_image` after its download request: reading the
//! downloaded file, then answering with its bytes as base64 and a MIME type.
use vstd::prelude::*;
use vstd::string::*;
use base64::Engine;
use crate::json::{opt_string_view, JsonModel, JsonValue};
use crate::service::ServiceReply;
use crate::tools::output::{image_result, image_result_model, text_result, text_result_model};

verus! {

/// The character of a six-bit value in the standard base64 alphabet:
/// `A`-`Z`, `a`-`z`, `0`-`9`, `+`, `/`.
pub open spec fn base64_digit(v: int) -> char {
    if v < 26 {
        (65 + v) as char
    } else if v < 52 {
        (97 + v - 26) as char
    } else if v < 62 {
        (48 + v - 52) as char
    } else if v == 62 {
        '+'
    } else {
        '/'
    }
}

/// The text of `bytes` in base64 with the standard alphabet and padding:
/// each three bytes become four characters, and a last group of one or two
/// bytes is padded with `=` to four.
pub open spec fn base64_standard(bytes: Seq<u8>) -> Seq<char>
    decreases bytes.len(),
{
    if bytes.len() == 0 {
        Seq::empty()
    } else if bytes.len() == 1 {
        seq![base64_digit((bytes[0] as int) / 4), base64_digit(((bytes[0] as int) % 4) * 16), '=', '=']
    } else if bytes.len() == 2 {
        seq![
            base64_digit((bytes[0] as int) / 4),
            base64_digit(((bytes[0] as int) % 4) * 16 + (bytes[1] as int) / 16),
            base64_digit(((bytes[1] as int) % 16) * 4),
            '=',
        ]
    } else {
        seq![
            base64_digit((bytes[0] as int) / 4),
            base64_digit(((bytes[0] as int) % 4) * 16 + (bytes[1] as int) / 16),
            base64_digit(((bytes[1] as int) % 16) * 4 + (bytes[2] as int) / 64),
            base64_digit((bytes[2] as int) % 64),
        ] + base64_standard(bytes.subrange(3, bytes.len() as int))
    }
}

/// `base64::engine::general_purpose::STANDARD.encode`: the base64 text of the
/// bytes (RFC 4648 alphabet, with `=` padding).
#[verifier::external_body]
pub(crate) fn encode_base64(bytes: &[u8]) -> (r: String)
    ensures
        r@ == base64_standard(bytes@),
{
    base64::engine::general_purpose::STANDARD.encode(bytes)
}

/// The bytes that `STANDARD.decode` gives back for a text, where it accepts
/// it.
pub uninterp spec fn base64_decoded(text: Seq<char>) -> Option<Seq<u8>>;

pub open spec fn opt_bytes_view(o: Option<Vec<u8>>) -> Option<Seq<u8>> {
    match o {
        Some(b) => Some(b@),
        None => None,
    }
}

/// `base64::engine::general_purpose::STANDARD.decode`: the engine requires
/// canonical padding and rejects non-zero trailing bits, so it accepts
/// exactly the texts that are the padded standard base64 of some bytes, and
/// gives those bytes back.
#[verifier::external_body]
pub(crate) fn decode_base64(text: &str) -> (r: Option<Vec<u8>>)
    ensures
        opt_bytes_view(r) == base64_decoded(text@),
        r matches Some(b) ==> base64_standard(b@) == text@,
        r is None ==> forall|b: Seq<u8>| #[trigger] base64_standard(b) != text@,
{
    base64::engine::general_purpose::STANDARD.decode(text).ok()
}

/// The extension of the file that a path names, as `Path::extension` finds it.
pub uninterp spec fn path_extension(path: Seq<char>) -> Option<Seq<char>>;

/// `Path::new(path).extension()`, as text: what follows the last `.` of the
/// file name, if the name has a `.` after its first character. Which
/// component is the file name is not stated here; the result is named.
#[verifier::external_body]
pub(crate) fn extension_of(path: &str) -> (r: Option<String>)
    ensures
        opt_string_view(r) == path_extension(path@),
{
    std::path::Path::new(path).extension().and_then(|e| e.to_str()).map(|e| e.to_string())
}

/// The MIME type of an image by its file extension; JPEG when unknown.
pub open spec fn mime_for(ext: Option<Seq<char>>) -> Seq<char> {
    match ext {
        Some(e) => if e == "png"@ {
            "image/png"@
        } else if e == "jpg"@ || e == "jpeg"@ {
            "image/jpeg"@
        } else if e == "gif"@ {
            "image/gif"@
        } else if e == "webp"@ {
            "image/webp"@
        } else {
            "image/jpeg"@
        },
        None => "image/jpeg"@,
    }
}

pub fn mime_type(ext: &Option<String>) -> (r: &'static str)
    ensures
        r@ == mime_for(opt_string_view(*ext)),
{
    match ext {
        Some(e) => {
            if *e == String::from_str("png") {
                "image/png"
            } else if *e == String::from_str("jpg") || *e == String::from_str("jpeg") {
                "image/jpeg"
            } else if *e == String::from_str("gif") {
                "image/gif"
            } else if *e == String::from_str("webp") {
                "image/webp"
            } else {
                "image/jpeg"
            }
        },
        None => "image/jpeg",
    }
}

/// What `get_image` does once its download request is answered: with the
/// path of the download it goes on to read the file; a failed download it
/// answers with an error.
#[derive(Debug)]
pub enum DownloadStep {
    ReadFile(String),
    Answer(JsonValue),
}

pub open spec fn after_download_spec(outcome: Result<ServiceReply, String>, step: DownloadStep) -> bool {
    match outcome {
        Ok(ServiceReply::Path(p)) => step matches DownloadStep::ReadFile(q) && q@ == p@,
        Ok(_) => false,
        Err(e) => step matches DownloadStep::Answer(v) && v@ == text_result_model(
            "Error downloading media: "@ + e@,
            true,
        ),
    }
}

pub fn after_download(outcome: Result<ServiceReply, String>) -> (step: DownloadStep)
    requires
        outcome matches Ok(r) ==> r is Path,
    ensures
        after_download_spec(outcome, step),
{
    match outcome {
        Ok(ServiceReply::Path(p)) => DownloadStep::ReadFile(p),
        Ok(_) => DownloadStep::ReadFile(String::new()),
        Err(e) => {
            let mut t = String::from_str("Error downloading media: ");
            t.append(e.as_str());
            DownloadStep::Answer(text_result(t, true))
        },
    }
}

/// What `get_image` answers once the downloaded file has been read: its
/// bytes in base64 with the MIME type that its extension gives, or an error.
pub open spec fn after_read_spec(path: Seq<char>, read: Result<Seq<u8>, Seq<char>>) -> JsonModel {
    match read {
        Ok(bytes) => image_result_model(base64_standard(bytes), mime_for(path_extension(path))),
        Err(e) => text_result_model("Error reading downloaded file: "@ + e, true),
    }
}

pub fn after_read(path: &str, read: Result<Vec<u8>, String>) -> (r: JsonValue)
    ensures
        r@ == after_read_spec(
            path@,
            match read {
                Ok(b) => Ok(b@),
                Err(e) => Err(e@),
            },
        ),
{
    match read {
        Ok(bytes) => {
            let data = encode_base64(bytes.as_slice());
            let ext = extension_of(path);
            let mime = mime_type(&ext);
            image_result(data, mime)
        },
        Err(e) => {
            let mut t = String::from_str("Error reading downloaded file: ");
            t.append(e.as_str());
            text_result(t, true)
        },
    }
}

} // verus!
