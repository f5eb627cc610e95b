use codex_models::text::{lossy_text, trim_str};

#[test]
fn trim_removes_unicode_white_space_at_both_ends() {
    assert_eq!(trim_str("  a b \n"), "a b");
    assert_eq!(trim_str("\u{85}\u{a0}x\u{2028}\u{3000}"), "x");
    assert_eq!(trim_str("\u{200b}x"), "\u{200b}x");
    assert_eq!(trim_str(" \t "), "");
}

#[test]
fn lossy_text_replaces_invalid_bytes() {
    assert_eq!(lossy_text(b"ok"), "ok");
    assert_eq!(lossy_text(b"\xf0\x90\x80"), "\u{fffd}");
}

#[test]
fn trimming_twice_is_trimming_once() {
    for s in ["  x ", "\u{2000}y\u{205f}", "", "z"] {
        assert_eq!(trim_str(trim_str(s)), trim_str(s));
    }
}
