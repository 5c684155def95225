use telegram_mcp_rs::text::{parse_int_in, render_debug_ints, render_i64};

#[test]
fn renders_integers_as_display_does() {
    for n in [0i64, 7, -7, 10, 123, -4500, i64::MAX, i64::MIN] {
        assert_eq!(render_i64(n), n.to_string());
    }
}

#[test]
fn reads_back_what_it_renders() {
    for n in [0i64, 1, -1, 99, -100, 1234567890123, i64::MAX, i64::MIN] {
        assert_eq!(parse_int_in(&render_i64(n), i64::MIN, i64::MAX), Some(n));
    }
}

#[test]
fn reads_integers_as_parse_does() {
    for s in ["0", "+5", "-5", "007", "", "+", "-", "1a", " 1", "9223372036854775807", "9223372036854775808", "-9223372036854775808", "-9223372036854775809", "99999999999999999999999"] {
        assert_eq!(parse_int_in(s, i64::MIN, i64::MAX), s.parse::<i64>().ok(), "{}", s);
        assert_eq!(parse_int_in(s, i32::MIN as i64, i32::MAX as i64), s.parse::<i32>().ok().map(|n| n as i64), "{}", s);
    }
}

#[test]
fn renders_id_lists_as_debug_does() {
    let ids = vec![1i32, -2, 30];
    assert_eq!(render_debug_ints(&ids), format!("{:?}", ids));
    assert_eq!(render_debug_ints(&vec![]), "[]");
    assert_eq!(render_debug_ints(&vec![5]), "[5]");
}
