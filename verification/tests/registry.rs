use telegram_mcp_rs::registry::{register_all_tools, ToolRegistry};
use telegram_mcp_rs::tools::{info_of, ToolKind};

#[test]
fn a_name_finds_what_was_last_added_under_it() {
    let mut r = ToolRegistry::new();
    assert!(r.get("a").is_none());
    r.insert("a".to_string(), ToolKind::GetMe);
    r.insert("b".to_string(), ToolKind::ListChats);
    assert!(r.get("a") == Some(ToolKind::GetMe));
    r.insert("a".to_string(), ToolKind::SendMessage);
    assert!(r.get("a") == Some(ToolKind::SendMessage));
    assert!(r.get("b") == Some(ToolKind::ListChats));
    let kinds = r.kinds();
    assert_eq!(kinds.len(), 2);
    assert!(kinds[0] == ToolKind::SendMessage);
}

#[test]
fn every_registered_tool_is_found_by_its_name() {
    let r = register_all_tools();
    let kinds = r.kinds();
    assert_eq!(kinds.len(), 96);
    for k in kinds {
        let name = info_of(k).name;
        assert!(r.get(&name) == Some(k));
    }
    assert!(r.get("get_image").is_none());
    assert!(r.get("search_global").is_none());
    assert!(r.get("send_message") == Some(ToolKind::SendMessage));
}
