use gifterm::terminal::{
    answer_is_yes, contains_bytes, env_reveals_graphics_terminal, names_graphics_terminal_exec,
    normalized_answer_is_yes, reply_is_ok,
};

#[test]
fn term_names_kitty() {
    assert!(env_reveals_graphics_terminal(Some("xterm-kitty"), None));
    assert!(!env_reveals_graphics_terminal(Some("xterm-256color"), None));
    assert!(!env_reveals_graphics_terminal(Some("KITTY"), None));
    assert!(!env_reveals_graphics_terminal(None, None));
}

#[test]
fn term_program_is_lowercased() {
    assert!(env_reveals_graphics_terminal(None, Some("WezTerm")));
    assert!(env_reveals_graphics_terminal(Some("xterm"), Some("KiTTY")));
    assert!(!env_reveals_graphics_terminal(Some("xterm"), Some("Apple_Terminal")));
}

#[test]
fn lowercased_names() {
    assert!(names_graphics_terminal_exec(None, Some("wezterm-gui")));
    assert!(!names_graphics_terminal_exec(None, Some("WezTerm")));
}

#[test]
fn reply_ok() {
    assert!(reply_is_ok(b"\x1b_Gi=31;OK\x1b\\"));
    assert!(!reply_is_ok(b"\x1b_Gi=31;ENOTSUPPORTED\x1b\\"));
    assert!(!reply_is_ok(b""));
    assert!(!reply_is_ok(b"O"));
    assert!(reply_is_ok(b"\xffOK"));
}

#[test]
fn byte_search() {
    assert!(contains_bytes(b"abc", b""));
    assert!(contains_bytes(b"abc", b"bc"));
    assert!(!contains_bytes(b"abc", b"abcd"));
    assert!(!contains_bytes(b"", b"a"));
}

#[test]
fn yes_answers() {
    assert!(answer_is_yes(""));
    assert!(answer_is_yes("\n"));
    assert!(answer_is_yes(" Y \n"));
    assert!(answer_is_yes("yes"));
    assert!(answer_is_yes("YeS\r\n"));
    assert!(!answer_is_yes("no"));
    assert!(!answer_is_yes("yess"));
    assert!(!answer_is_yes("y e s"));
}

#[test]
fn normalized_yes() {
    assert!(normalized_answer_is_yes("y"));
    assert!(!normalized_answer_is_yes("Y"));
    assert!(!normalized_answer_is_yes(" y"));
}

#[test]
fn trimming_uses_unicode_white_space() {
    assert!(answer_is_yes("\u{3000}yes\u{a0}"));
    assert!(answer_is_yes("\t\u{2028}Y\u{85}"));
    assert!(!answer_is_yes("\u{200b}y"));
}
