//! What the tools ask of Telegram, stated directly over their arguments.
use vstd::prelude::*;
use vstd::string::*;
use crate::json::{ints_of, JsonModel};
use crate::service::{CallModel, ServiceAnswer};
use crate::tools::args::{arg_array_spec, arg_bool_spec, arg_i64_spec, arg_str_spec, narrow_ids};
use crate::tools::output::text_result_model;
use crate::tools::{complete_spec, prepare_spec, ToolKind};

verus! {

/// `forward_messages` takes the messages out of `from_chat_id` and posts them
/// into `to_chat_id`: the call's destination is the `to_chat_id` argument,
/// its source the `from_chat_id` argument, and its messages the integers of
/// `message_ids`, in order.
pub proof fn law_forward_keeps_direction(a: JsonModel, to: i64, from: i64, items: Seq<JsonModel>)
    requires
        arg_i64_spec(a, "to_chat_id"@) == Some(to),
        arg_i64_spec(a, "from_chat_id"@) == Some(from),
        arg_array_spec(a, "message_ids"@) == Some(items),
    ensures
        prepare_spec(ToolKind::ForwardMessages, a) matches Ok(
            CallModel::ForwardMessages { to_peer_id, from_peer_id, message_ids },
        ) && to_peer_id == to && from_peer_id == from && message_ids == narrow_ids(ints_of(items)),
{
}

/// `get_history` reads the page of `chat_id` that ends before `offset_id`
/// when one is given (narrowed to 32 bits), the newest page only when none
/// is given, and `limit` messages (20 by default).
pub proof fn law_history_pages_from_offset(a: JsonModel, chat: i64)
    requires
        arg_i64_spec(a, "chat_id"@) == Some(chat),
    ensures
        prepare_spec(ToolKind::GetHistory, a) matches Ok(
            CallModel::GetHistory { peer_id, limit, offset_id },
        ) && peer_id == chat
            && match arg_i64_spec(a, "offset_id"@) {
                Some(n) => offset_id == Some(n as i32),
                None => offset_id is None,
            } && match arg_i64_spec(a, "limit"@) {
                Some(l) => limit == l as i32,
                None => limit == 20,
            },
{
}

/// `ban_user` bans the `user_id` argument from the `chat_id` argument.
pub proof fn law_ban_targets_user_in_chat(a: JsonModel, chat: i64, user: i64)
    requires
        arg_i64_spec(a, "chat_id"@) == Some(chat),
        arg_i64_spec(a, "user_id"@) == Some(user),
    ensures
        prepare_spec(ToolKind::BanUser, a) == Ok::<CallModel, crate::protocol::ErrorModel>(
            CallModel::BanUser { peer_id: chat, user_id: user },
        ),
{
}

/// `add_contact` saves the user under the given first name, the given last
/// name (empty when none is given) and the given phone (empty when none).
pub proof fn law_contact_keeps_its_names(a: JsonModel, user: i64, first: Seq<char>)
    requires
        arg_i64_spec(a, "user_id"@) == Some(user),
        arg_str_spec(a, "first_name"@) == Some(first),
    ensures
        prepare_spec(ToolKind::AddContact, a) matches Ok(
            CallModel::AddContact { user_id, first_name, last_name, phone },
        ) && user_id == user && first_name == first
            && match arg_str_spec(a, "last_name"@) {
                Some(l) => last_name == l,
                None => last_name == Seq::<char>::empty(),
            } && match arg_str_spec(a, "phone"@) {
                Some(p) => phone == p,
                None => phone == Seq::<char>::empty(),
            },
{
    reveal_strlit("");
}

/// `set_chat_archived` moves `chat_id` into the archive exactly when
/// `archived` is true, and answers "Chat archived" or "Chat unarchived" by
/// that same flag, whatever the service replied.
pub proof fn law_archive_follows_flag(a: JsonModel, chat: i64, archived: bool, answer: ServiceAnswer)
    requires
        arg_i64_spec(a, "chat_id"@) == Some(chat),
        arg_bool_spec(a, "archived"@) == Some(archived),
    ensures
        prepare_spec(ToolKind::SetChatArchived, a) == Ok::<CallModel, crate::protocol::ErrorModel>(
            CallModel::SetChatArchived { peer_id: chat, archived },
        ),
        complete_spec(
            ToolKind::SetChatArchived,
            CallModel::SetChatArchived { peer_id: chat, archived },
            Ok(answer),
        ) == text_result_model(
            if archived {
                "Chat archived"@
            } else {
                "Chat unarchived"@
            },
            false,
        ),
{
    reveal_strlit("Chat ");
    reveal_strlit("archived");
    reveal_strlit("unarchived");
    reveal_strlit("Chat archived");
    reveal_strlit("Chat unarchived");
    assert("Chat "@ + "archived"@ =~= "Chat archived"@);
    assert("Chat "@ + "unarchived"@ =~= "Chat unarchived"@);
}

} // verus!
