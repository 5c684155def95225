use telegram_mcp_rs::path_guard::{normalize, PathError, PathGuard};

#[test]
fn test_path_within_roots() {
    let guard = PathGuard::new(vec![Some("/tmp/dir1".to_string())]);
    let res = guard.canonicalize_path("/tmp/dir1/test.txt", Some("/tmp/dir1/test.txt".to_string()), false);
    assert!(res.is_ok());
}

#[test]
fn test_path_outside_roots() {
    let guard = PathGuard::new(vec![Some("/tmp/dir2".to_string())]);
    let res = guard.canonicalize_path("/tmp/dir1/test.txt", Some("/tmp/dir1/test.txt".to_string()), false);
    assert!(res.is_err());
}

#[test]
fn roots_compare_whole_components() {
    let guard = PathGuard::new(vec![None, Some("/data/a".to_string())]);
    assert!(guard.is_allowed("/data/a"));
    assert!(guard.is_allowed("/data/a/b/c.txt"));
    assert!(!guard.is_allowed("/data/ab/c.txt"));
    assert!(!guard.is_allowed("/data"));
}

#[test]
fn missing_files_are_refused_unless_written() {
    let guard = PathGuard::new(vec![Some("/data".to_string())]);
    match guard.canonicalize_path("/data/new.bin", None, false) {
        Err(e) => assert_eq!(e.message(), "File not found"),
        Ok(_) => panic!("a missing file cannot be read"),
    }
    assert_eq!(guard.canonicalize_path("/data/new.bin", None, true).ok().unwrap(), "/data/new.bin");
    match guard.canonicalize_path("/etc/new.bin", None, true) {
        Err(e) => assert_eq!(e.message(), "Path \"/etc/new.bin\" is outside of allowed roots"),
        Ok(_) => panic!("outside of the roots"),
    }
}

#[test]
fn no_roots_allow_nothing() {
    let guard = PathGuard::new(vec![]);
    assert!(matches!(guard.canonicalize_path("/x", Some("/x".to_string()), false), Err(PathError::OutsideRoots(_))));
}

#[test]
fn roots_that_do_not_exist_allow_nothing() {
    let guard = PathGuard::new(vec![None, None]);
    assert!(!guard.is_allowed("/"));
    assert!(matches!(guard.canonicalize_path("/tmp/a", None, true), Err(PathError::OutsideRoots(p)) if p == "/tmp/a"));
}

#[test]
fn new_files_cannot_climb_out_of_a_root() {
    let guard = PathGuard::new(vec![Some("/tmp/root".to_string())]);
    match guard.canonicalize_path("/tmp/root/../outside.txt", None, true) {
        Err(PathError::OutsideRoots(p)) => assert_eq!(p, "/tmp/outside.txt"),
        _ => panic!("expected the path to be refused"),
    }
    assert_eq!(guard.canonicalize_path("/tmp/root/./a/../b.txt", None, true).ok().unwrap(), "/tmp/root/b.txt");
}

#[test]
fn paths_are_normalized_as_text() {
    assert_eq!(normalize("/tmp/root/../outside.txt"), "/tmp/outside.txt");
    assert_eq!(normalize("/a//b/./c/"), "/a/b/c");
    assert_eq!(normalize("/../.."), "/");
    assert_eq!(normalize("/"), "/");
}

#[test]
fn downloads_go_under_a_root_or_nowhere() {
    let closed = PathGuard::new(vec![Some("/tmp/root".to_string())]);
    assert!(matches!(closed.download_target(None, 5, 6), Err(PathError::OutsideRoots(_))));
    let open = PathGuard::new(vec![Some("/home/di/telegram-mcp".to_string())]);
    let p = open.download_target(None, 5, 6).ok().unwrap();
    assert!(p.starts_with("/home/di/telegram-mcp/downloads/telegram_5_6_"));
    assert_eq!(
        closed.download_target(Some(("/tmp/root/x.bin".to_string(), None)), 5, 6).ok().unwrap(),
        "/tmp/root/x.bin"
    );
    assert!(matches!(
        closed.download_target(Some(("/tmp/root/../x.bin".to_string(), None)), 5, 6),
        Err(PathError::OutsideRoots(_))
    ));
}

#[test]
fn root_lists_combine_as_a_union() {
    let a = PathGuard::new(vec![Some("/a".to_string())]);
    let b = PathGuard::new(vec![Some("/b".to_string())]);
    let ab = PathGuard::new(vec![Some("/b".to_string()), Some("/a".to_string()), Some("/a".to_string())]);
    for p in ["/a/x", "/b/y", "/c/z"] {
        assert_eq!(ab.is_allowed(p), a.is_allowed(p) || b.is_allowed(p));
    }
}
