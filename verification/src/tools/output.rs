//! The results that tools hand back: a text (or an image) in MCP's content
//! format, and the lines of text that tools write.
use vstd::prelude::*;
use vstd::string::*;
use crate::json::{
    entries_view, items_view, json_str, make_array, make_object, push_entry, push_item, JsonModel,
    JsonValue,
};
use crate::service::{MessageInfo, ServiceReply};
use crate::text::{debug_ints, decimal, push_i64, render_debug_ints};

verus! {

pub open spec fn text_content(text: Seq<char>) -> JsonModel {
    JsonModel::Object(
        Seq::empty().push(("type"@, JsonModel::Str("text"@))).push(("text"@, JsonModel::Str(text))),
    )
}

/// `{"content": [{"type": "text", "text": text}]}`, with `"isError": true`
/// for an error.
pub open spec fn text_result_model(text: Seq<char>, is_error: bool) -> JsonModel {
    let content = Seq::empty().push(
        ("content"@, JsonModel::Array(Seq::empty().push(text_content(text)))),
    );
    if is_error {
        JsonModel::Object(content.push(("isError"@, JsonModel::Bool(true))))
    } else {
        JsonModel::Object(content)
    }
}

/// `{"content": [{"type": "image", "data": data, "mimeType": mime}]}`.
pub open spec fn image_result_model(data: Seq<char>, mime: Seq<char>) -> JsonModel {
    let item = JsonModel::Object(
        Seq::empty().push(("type"@, JsonModel::Str("image"@))).push(
            ("data"@, JsonModel::Str(data)),
        ).push(("mimeType"@, JsonModel::Str(mime))),
    );
    JsonModel::Object(Seq::empty().push(("content"@, JsonModel::Array(Seq::empty().push(item)))))
}

fn content_array(item: JsonValue) -> (r: JsonValue)
    ensures
        r@ == JsonModel::Array(Seq::empty().push(item@)),
{
    let mut items: Vec<JsonValue> = Vec::new();
    push_item(&mut items, item);
    assert(items_view(items@) =~= Seq::empty().push(item@));
    make_array(items)
}

pub fn text_result(text: String, is_error: bool) -> (r: JsonValue)
    ensures
        r@ == text_result_model(text@, is_error),
{
    let mut item: Vec<(String, JsonValue)> = Vec::new();
    push_entry(&mut item, "type", json_str("text"));
    push_entry(&mut item, "text", JsonValue::Str(text));
    assert(entries_view(item@) =~= Seq::empty().push(("type"@, JsonModel::Str("text"@))).push(
        ("text"@, JsonModel::Str(text@)),
    ));
    let mut e: Vec<(String, JsonValue)> = Vec::new();
    push_entry(&mut e, "content", content_array(make_object(item)));
    let ghost content = entries_view(e@);
    if is_error {
        push_entry(&mut e, "isError", JsonValue::Bool(true));
    }
    assert(content =~= Seq::empty().push(
        ("content"@, JsonModel::Array(Seq::empty().push(text_content(text@)))),
    ));
    make_object(e)
}

pub fn image_result(data: String, mime: &str) -> (r: JsonValue)
    ensures
        r@ == image_result_model(data@, mime@),
{
    let mut item: Vec<(String, JsonValue)> = Vec::new();
    push_entry(&mut item, "type", json_str("image"));
    push_entry(&mut item, "data", JsonValue::Str(data));
    push_entry(&mut item, "mimeType", json_str(mime));
    assert(entries_view(item@) =~= Seq::empty().push(("type"@, JsonModel::Str("image"@))).push(
        ("data"@, JsonModel::Str(data@)),
    ).push(("mimeType"@, JsonModel::Str(mime@))));
    let mut e: Vec<(String, JsonValue)> = Vec::new();
    push_entry(&mut e, "content", content_array(make_object(item)));
    assert(entries_view(e@) =~= Seq::empty().push(
        (
            "content"@,
            JsonModel::Array(Seq::empty().push(image_result_model(data@, mime@)->Object_0[0].1->Array_0[0])),
        ),
    ));
    make_object(e)
}

/// The text of a failed request.
pub open spec fn error_text_spec(e: Seq<char>) -> Seq<char> {
    "Error: "@ + e
}

pub fn error_text(e: &str) -> (r: String)
    ensures
        r@ == error_text_spec(e@),
{
    let mut t = String::from_str("Error: ");
    t.append(e);
    t
}

pub open spec fn user_line_spec(r: ServiceReply) -> Seq<char> {
    match r {
        ServiceReply::User(u) => "User: "@ + u.first_name@ + " (ID: "@ + decimal(u.id as int) + ")"@,
        _ => Seq::empty(),
    }
}

/// `User: {first_name} (ID: {id})`.
pub fn user_line(r: &ServiceReply) -> (t: String)
    requires
        r is User,
    ensures
        t@ == user_line_spec(*r),
{
    match r {
        ServiceReply::User(u) => {
            let mut t = String::from_str("User: ");
            t.append(u.first_name.as_str());
            t.append(" (ID: ");
            push_i64(&mut t, u.id);
            t.append(")");
            t
        },
        _ => String::new(),
    }
}

pub open spec fn id_line_spec(prefix: Seq<char>, r: ServiceReply) -> Seq<char> {
    match r {
        ServiceReply::Id(n) => prefix + decimal(n as int) + ")"@,
        _ => Seq::empty(),
    }
}

/// `{prefix}{id})` for a reply that is an id.
pub fn id_line(prefix: &str, r: &ServiceReply) -> (t: String)
    requires
        r is Id,
    ensures
        t@ == id_line_spec(prefix@, *r),
{
    match r {
        ServiceReply::Id(n) => {
            let mut t = String::from_str(prefix);
            push_i64(&mut t, *n);
            t.append(")");
            t
        },
        _ => String::new(),
    }
}

pub open spec fn msg_id_line_spec(prefix: Seq<char>, r: ServiceReply) -> Seq<char> {
    match r {
        ServiceReply::Message(m) => prefix + decimal(m.id as int) + ")"@,
        _ => Seq::empty(),
    }
}

/// `{prefix}{message id})` for a reply that is a message.
pub fn msg_id_line(prefix: &str, r: &ServiceReply) -> (t: String)
    requires
        r is Message,
    ensures
        t@ == msg_id_line_spec(prefix@, *r),
{
    match r {
        ServiceReply::Message(m) => {
            let mut t = String::from_str(prefix);
            push_i64(&mut t, m.id as i64);
            t.append(")");
            t
        },
        _ => String::new(),
    }
}

pub open spec fn message_ids(ms: Seq<MessageInfo>) -> Seq<i32> {
    ms.map_values(|m: MessageInfo| m.id)
}

pub open spec fn ids_line_spec(prefix: Seq<char>, r: ServiceReply) -> Seq<char> {
    match r {
        ServiceReply::Messages(ms) => prefix + debug_ints(message_ids(ms@)) + ")"@,
        _ => Seq::empty(),
    }
}

/// `{prefix}{ids:?})` for a reply that is a list of messages.
pub fn ids_line(prefix: &str, r: &ServiceReply) -> (t: String)
    requires
        r is Messages,
    ensures
        t@ == ids_line_spec(prefix@, *r),
{
    match r {
        ServiceReply::Messages(ms) => {
            let mut ids: Vec<i32> = Vec::new();
            let mut i: usize = 0;
            while i < ms.len()
                invariant
                    0 <= i <= ms.len(),
                    ids@ == message_ids(ms@.take(i as int)),
                decreases ms.len() - i,
            {
                ids.push(ms[i].id);
                i = i + 1;
                assert(ids@ =~= message_ids(ms@.take(i as int)));
            }
            assert(ms@.take(i as int) =~= ms@);
            let mut t = String::from_str(prefix);
            let d = render_debug_ints(&ids);
            t.append(d.as_str());
            t.append(")");
            t
        },
        _ => String::new(),
    }
}

/// What `{:?}` prints for a filesystem path with this text.
pub uninterp spec fn debug_path(p: Seq<char>) -> Seq<char>;

/// `format!("{:?}", Path::new(p))`: std's `Debug` of a path, a quoted and
/// escaped string. Its text is named, not stated.
#[verifier::external_body]
pub(crate) fn path_debug_text(p: &str) -> (r: String)
    ensures
        r@ == debug_path(p@),
{
    format!("{:?}", std::path::Path::new(p))
}

pub open spec fn path_line_spec(prefix: Seq<char>, r: ServiceReply) -> Seq<char> {
    match r {
        ServiceReply::Path(p) => prefix + debug_path(p@),
        _ => Seq::empty(),
    }
}

/// `{prefix}{path:?}` for a reply that is a path.
pub fn path_line(prefix: &str, r: &ServiceReply) -> (t: String)
    requires
        r is Path,
    ensures
        t@ == path_line_spec(prefix@, *r),
{
    match r {
        ServiceReply::Path(p) => {
            let mut t = String::from_str(prefix);
            let d = path_debug_text(p.as_str());
            t.append(d.as_str());
            t
        },
        _ => String::new(),
    }
}

pub open spec fn raw_text_spec(r: ServiceReply) -> Seq<char> {
    match r {
        ServiceReply::Text(t) => t@,
        _ => Seq::empty(),
    }
}

/// The reply's own text.
pub fn raw_text(r: &ServiceReply) -> (t: String)
    requires
        r is Text,
    ensures
        t@ == raw_text_spec(*r),
{
    match r {
        ServiceReply::Text(t) => t.clone(),
        _ => String::new(),
    }
}

/// `{prefix}{on}` or `{prefix}{off}`.
pub fn toggle_line(prefix: &str, flag: bool, on: &str, off: &str) -> (t: String)
    ensures
        t@ == prefix@ + if flag {
            on@
        } else {
            off@
        },
{
    let mut t = String::from_str(prefix);
    if flag {
        t.append(on);
    } else {
        t.append(off);
    }
    t
}

} // verus!
