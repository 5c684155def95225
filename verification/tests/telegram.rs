use telegram_mcp_rs::service::{ContactInfo, FolderInfo, UserInfo};
use telegram_mcp_rs::telegram::collect::Collector;
use telegram_mcp_rs::telegram::media::{album_caption, download_path, fresh_download_path, plan_forward, send_as_photo};
use telegram_mcp_rs::telegram::peer::{ChannelRef, PeerRef};
use telegram_mcp_rs::telegram::requests::{
    plan_ban_user, plan_delete_messages, plan_demote_admin, plan_edit_chat_title, plan_invite_users,
    plan_leave_chat, plan_message_link, plan_promote_admin, plan_set_default_permissions,
    plan_toggle_slow_mode, plan_unban_user, ApiRequest, UserRef,
};
use telegram_mcp_rs::telegram::results::{
    archive_folder, button_line, callback_answer, contacts_of, created_channel_id, export_contacts_text,
    find_folder, first_invite_link, invite_hash, joined_chat_id, mute_until, peer_id_text,
    plain_messages, reaction_list, read_by_users, admins_of, banned_of, Participant, ParticipantRole, status_text, RawMessage, RawUser,
};
use telegram_mcp_rs::telegram::rights::{default_permissions, full_ban, no_ban};
use telegram_mcp_rs::telegram::search::{found_chats, FoundChat};

const CHANNEL: PeerRef = PeerRef::Channel { channel_id: 77, access_hash: 9 };
const CHAT: PeerRef = PeerRef::Chat { chat_id: 5 };
const USER: PeerRef = PeerRef::User { user_id: 3, access_hash: 1 };

#[test]
fn dialog_ids_are_classified_by_range() {
    assert!(PeerRef::classify(42, 7) == PeerRef::User { user_id: 42, access_hash: 7 });
    assert!(PeerRef::classify(-42, 7) == PeerRef::Chat { chat_id: 42 });
    assert!(PeerRef::classify(0, 7) == PeerRef::Chat { chat_id: 0 });
    assert!(PeerRef::classify(-999999999999, 7) == PeerRef::Chat { chat_id: 999999999999 });
    assert!(PeerRef::classify(-1000000000000, 7) == PeerRef::Channel { channel_id: 0, access_hash: 7 });
    assert!(PeerRef::classify(-1001234567890, 7) == PeerRef::Channel { channel_id: 1234567890, access_hash: 7 });
    assert!(CHANNEL.channel() == Some(ChannelRef { channel_id: 77, access_hash: 9 }));
    assert!(CHAT.channel().is_none());
}

#[test]
fn banning_depends_on_the_peer() {
    let chat = plan_ban_user(CHAT, 8).ok().unwrap();
    assert!(matches!(chat[0], ApiRequest::DeleteChatUser { chat_id: 5, user: UserRef::ById(8), revoke_history: true }));
    let channel = plan_ban_user(CHANNEL, 8).ok().unwrap();
    match &channel[0] {
        ApiRequest::EditBanned { channel, user_id, rights } => {
            assert!(channel.channel_id == 77 && *user_id == 8);
            assert!(*rights == full_ban());
            assert!(rights.view_messages && rights.send_plain && rights.until_date == 0);
        }
        _ => panic!("expected editBanned"),
    }
    assert_eq!(plan_ban_user(USER, 8).err().unwrap(), "Can only ban in groups or channels");
}

#[test]
fn unbanning_lifts_every_restriction() {
    assert!(plan_unban_user(CHAT, 8).ok().unwrap().is_empty());
    match &plan_unban_user(CHANNEL, 8).ok().unwrap()[0] {
        ApiRequest::EditBanned { rights, .. } => {
            assert!(*rights == no_ban());
            assert!(!rights.view_messages && !rights.send_messages && !rights.send_docs);
        }
        _ => panic!("expected editBanned"),
    }
    assert_eq!(plan_unban_user(USER, 8).err().unwrap(), "Can only unban in groups or channels");
}

#[test]
fn promoting_and_demoting() {
    assert_eq!(
        plan_promote_admin(CHAT, 1, None).err().unwrap(),
        "Promoting in small groups is not supported via this API; use supergroups."
    );
    match &plan_promote_admin(CHANNEL, 1, None).ok().unwrap()[0] {
        ApiRequest::EditAdmin { rights, rank, .. } => {
            assert_eq!(rank, "Admin");
            assert!(rights.ban_users && !rights.add_admins && !rights.anonymous);
        }
        _ => panic!("expected editAdmin"),
    }
    match &plan_promote_admin(CHANNEL, 1, Some("Boss".to_string())).ok().unwrap()[0] {
        ApiRequest::EditAdmin { rank, .. } => assert_eq!(rank, "Boss"),
        _ => panic!("expected editAdmin"),
    }
    match &plan_demote_admin(CHANNEL, 1).ok().unwrap()[0] {
        ApiRequest::EditAdmin { rights, rank, .. } => {
            assert_eq!(rank, "");
            assert!(!rights.change_info && !rights.ban_users && !rights.manage_call);
        }
        _ => panic!("expected editAdmin"),
    }
    assert_eq!(plan_demote_admin(CHAT, 1).err().unwrap(), "Can only demote in channels or supergroups via this API");
}

#[test]
fn inviting_to_a_basic_group_adds_users_one_by_one() {
    let reqs = plan_invite_users(CHAT, vec![10, 11]).ok().unwrap();
    assert_eq!(reqs.len(), 2);
    assert!(matches!(reqs[1], ApiRequest::AddChatUser { chat_id: 5, user_id: 11, fwd_limit: 100 }));
    let reqs = plan_invite_users(CHANNEL, vec![10, 11]).ok().unwrap();
    assert_eq!(reqs.len(), 1);
    assert_eq!(plan_invite_users(USER, vec![]).err().unwrap(), "Can only invite to groups or channels");
}

#[test]
fn default_permissions_follow_the_two_switches() {
    let r = default_permissions(true, false);
    assert!(!r.send_messages && !r.send_plain && r.send_media && r.send_photos && r.change_info && !r.invite_users);
    let reqs = plan_set_default_permissions(CHAT, true, false).ok().unwrap();
    assert!(matches!(reqs[0], ApiRequest::EditDefaultBannedRights { peer: PeerRef::Chat { chat_id: 5 }, .. }));
    assert!(plan_set_default_permissions(USER, true, true).is_err());
    assert_eq!(plan_toggle_slow_mode(CHAT, 10).err().unwrap(), "Slow mode only supported in supergroups");
}

#[test]
fn chats_are_left_and_renamed_by_kind() {
    assert!(matches!(plan_leave_chat(CHAT).ok().unwrap()[0], ApiRequest::DeleteChatUser { user: UserRef::Myself, revoke_history: false, .. }));
    assert!(matches!(plan_leave_chat(CHANNEL).ok().unwrap()[0], ApiRequest::LeaveChannel { .. }));
    assert!(matches!(plan_edit_chat_title(CHAT, "t".to_string()).ok().unwrap()[0], ApiRequest::EditChatTitle { chat_id: 5, .. }));
    assert_eq!(plan_edit_chat_title(USER, "t".to_string()).err().unwrap(), "Invalid peer for editing title");
    assert!(matches!(plan_delete_messages(CHAT, vec![1], true), ApiRequest::DeleteMessages { revoke: true, .. }));
    assert!(matches!(plan_delete_messages(CHANNEL, vec![1], true), ApiRequest::DeleteChannelMessages { .. }));
    assert_eq!(plan_message_link(CHAT, 1).err().unwrap(), "Message links only available in supergroups/channels");
}

#[test]
fn small_decisions() {
    assert_eq!(mute_until(true, None), i32::MAX);
    assert_eq!(mute_until(true, Some(50)), 50);
    assert_eq!(mute_until(false, Some(50)), 0);
    assert_eq!(archive_folder(true), 1);
    assert_eq!(archive_folder(false), 0);
    assert!(reaction_list("").is_empty());
    assert_eq!(reaction_list("👍"), vec!["👍".to_string()]);
    assert_eq!(invite_hash("https://t.me/+AbCd"), "+AbCd");
    assert_eq!(invite_hash("AbCd"), "AbCd");
    assert_eq!(invite_hash("https://t.me/joinchat/"), "");
    assert_eq!(callback_answer(None), "Callback triggered successfully.");
    assert_eq!(peer_id_text("-100123"), Some(-100123));
    assert_eq!(peer_id_text("@name"), None);
}

#[test]
fn answers_are_read() {
    assert_eq!(created_channel_id(&vec![123, 5]).ok().unwrap(), -1000000000123);
    assert_eq!(created_channel_id(&vec![]).err().unwrap(), "Failed to extract channel ID from response");
    assert_eq!(joined_chat_id(&vec![None, Some(4), Some(5)]).ok().unwrap(), 4);
    assert_eq!(joined_chat_id(&vec![None]).err().unwrap(), "Failed to import invite");
    assert_eq!(first_invite_link(&vec![Some("l1".to_string()), Some("l2".to_string())]).ok().unwrap(), "l1");
    assert_eq!(first_invite_link(&vec![None, Some("l2".to_string())]).err().unwrap(), "No invite link found");
    assert_eq!(status_text(vec![None, Some("Online".to_string())]), "Online");
    assert_eq!(status_text(vec![]), "Unknown");
}

#[test]
fn messages_and_contacts_are_mapped() {
    let raw = vec![Some(RawMessage { id: 1, message: "a".to_string(), date: 10 }), None, Some(RawMessage { id: 2, message: "b".to_string(), date: 20 })];
    let msgs = plain_messages(raw);
    assert_eq!(msgs.len(), 2);
    assert_eq!(msgs[1].id, 2);
    assert_eq!(msgs[1].date, 20);
    assert_eq!(msgs[1].sender_id, 0);
    let users = vec![Some(RawUser { id: 9, first_name: None, last_name: Some("L".to_string()), username: None, phone: Some("555".to_string()) }), None];
    let contacts = contacts_of(users);
    assert_eq!(contacts.len(), 1);
    assert_eq!(contacts[0].first_name, "");
    let text = export_contacts_text(&vec![
        ContactInfo { user_id: 1, first_name: "Ann".to_string(), last_name: None, username: None, phone: Some("1".to_string()) },
        ContactInfo { user_id: 2, first_name: "Bo".to_string(), last_name: Some("Li".to_string()), username: None, phone: None },
    ]);
    assert_eq!(text, "Ann  (1)\nBo Li ()\n");
}

#[test]
fn folders_are_found_by_id() {
    let f = |id: i32| FolderInfo { id, title: format!("f{}", id), emoticon: None, pinned_peers: vec![], included_peers: vec![], excluded_peers: vec![] };
    assert_eq!(find_folder(vec![f(1), f(2)], 2).ok().unwrap().title, "f2");
    assert_eq!(find_folder(vec![f(1)], 3).err().unwrap(), "Folder not found");
}

#[test]
fn listings_stop_at_their_limit() {
    let mut c: Collector<i32> = Collector::new(2);
    let mut n = 0;
    while c.wants_more() && n < 10 {
        c.offer(n, true);
        n += 1;
    }
    assert_eq!(c.into_items(), vec![0, 1]);
    let mut z: Collector<i32> = Collector::new(0);
    z.offer(5, true);
    assert!(!z.wants_more());
    assert_eq!(z.into_items(), vec![5]);
    let mut s: Collector<&str> = Collector::new(1);
    s.offer_match("x", "hello world", "planet");
    assert!(s.wants_more());
    s.offer_match("y", "hello world", "lo wo");
    assert!(!s.wants_more());
    assert_eq!(s.into_items(), vec!["y"]);
}

#[test]
fn search_results_keep_channels_and_groups() {
    let raw = vec![
        FoundChat::Channel { id: 1, title: "c".to_string(), username: Some("u".to_string()) },
        FoundChat::Other,
        FoundChat::Group { id: 2, title: "g".to_string() },
    ];
    let chats = found_chats(raw, false);
    assert_eq!(chats.len(), 2);
    assert_eq!(chats[0].chat_type, "Channel");
    assert_eq!(chats[1].chat_type, "Group");
    assert!(chats[1].username.is_none());
    let groups = found_chats(vec![FoundChat::Channel { id: 1, title: "c".to_string(), username: None }, FoundChat::Group { id: 2, title: "g".to_string() }], true);
    assert_eq!(groups.len(), 1);
    assert_eq!(groups[0].id, 2);
}

#[test]
fn files_and_downloads() {
    assert!(send_as_photo("/tmp/a.JPG"));
    assert!(send_as_photo("/tmp/a.jpeg"));
    assert!(!send_as_photo("/tmp/a.png"));
    assert!(!send_as_photo("/tmp/a.pdf"));
    assert!(!send_as_photo("/tmp/jpg"));
    assert_eq!(download_path(-100, 7, 42), "/home/di/telegram-mcp/downloads/telegram_-100_7_42.media");
    let p = fresh_download_path(5, 6);
    assert!(p.starts_with("/home/di/telegram-mcp/downloads/telegram_5_6_") && p.ends_with(".media"));
    let f = plan_forward(CHAT, CHANNEL, vec![1, 2]);
    assert!(f.to_peer == CHAT && f.from_peer == CHANNEL && f.ids == vec![1, 2]);
}

#[test]
fn created_channels_are_read_back_as_channels() {
    let id = created_channel_id(&vec![123]).ok().unwrap();
    assert_eq!(PeerRef::classify(id, 9), PeerRef::Channel { channel_id: 123, access_hash: 9 });
}

#[test]
fn nobody_is_reported_as_a_reader() {
    assert!(read_by_users().is_empty());
}

fn member(id: i64, role: ParticipantRole) -> Participant {
    Participant { user: UserInfo { id, first_name: format!("U{}", id), last_name: None, username: None }, role }
}

fn everyone() -> Vec<Participant> {
    vec![
        member(1, ParticipantRole::Member),
        member(2, ParticipantRole::Creator),
        member(3, ParticipantRole::Banned),
        member(4, ParticipantRole::Admin),
        member(5, ParticipantRole::Left),
    ]
}

#[test]
fn admins_and_banned_users_are_picked_by_role() {
    let admins: Vec<i64> = admins_of(everyone()).iter().map(|u| u.id).collect();
    assert_eq!(admins, vec![2, 4]);
    let banned: Vec<i64> = banned_of(everyone()).iter().map(|u| u.id).collect();
    assert_eq!(banned, vec![3]);
    assert!(admins_of(vec![]).is_empty());
}

#[test]
fn button_data_is_listed_in_base64() {
    assert_eq!(button_line("Go", &[104, 105]), "Text: 'Go' -> Data: 'aGk='");
    assert_eq!(button_line("Buy", &[1, 2, 3]), "Text: 'Buy' -> Data: 'AQID'");
    assert_eq!(button_line("X", &[255]), "Text: 'X' -> Data: '/w=='");
    assert_eq!(button_line("E", &[]), "Text: 'E' -> Data: ''");
}

#[test]
fn searches_match_text_anywhere() {
    let mut s: Collector<&str> = Collector::new(5);
    s.offer_match("empty", "abc", "");
    s.offer_match("end", "abc", "bc");
    s.offer_match("long", "ab", "abc");
    s.offer_match("unicode", "grüße", "üß");
    assert_eq!(s.into_items(), vec!["empty", "end", "unicode"]);
}

#[test]
fn only_the_first_file_of_an_album_has_the_caption() {
    assert_eq!(album_caption(Some("trip"), 0), "trip");
    assert_eq!(album_caption(Some("trip"), 1), "");
    assert_eq!(album_caption(None, 0), "");
}

#[test]
fn unbanning_a_channel_member_lifts_what_banning_set() {
    let peer = PeerRef::classify(-1000000000077, 9);
    let ban = plan_ban_user(peer, 3).ok().unwrap();
    let unban = plan_unban_user(peer, 3).ok().unwrap();
    match (&ban[0], &unban[0]) {
        (
            ApiRequest::EditBanned { channel: c1, user_id: u1, rights: r1 },
            ApiRequest::EditBanned { channel: c2, user_id: u2, rights: r2 },
        ) => {
            assert_eq!((c1, u1), (c2, u2));
            assert!(r1.view_messages && !r2.view_messages && !r2.send_plain);
            assert_eq!(r2.until_date, 0);
        }
        _ => panic!("expected EditBanned"),
    }
    assert!(plan_unban_user(PeerRef::classify(-5, 0), 3).ok().unwrap().is_empty());
    assert!(plan_unban_user(PeerRef::classify(5, 0), 3).is_err());
}
