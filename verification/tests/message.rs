use chat_hub::message::{prompt, Message};
use chat_hub::text::{is_whitespace, trim};

#[test]
fn prompt_is_the_username_question() {
    assert_eq!(prompt(), "Enter your username:");
}

#[test]
fn join_notice_has_the_name_in_brackets_and_a_smile() {
    assert_eq!(Message::user_joined("alice").to_text(), "[alice] :)");
}

#[test]
fn departure_notice_keeps_the_frown_inside_the_brackets() {
    assert_eq!(Message::user_left("alice").to_text(), "[alice :(]");
}

#[test]
fn chat_line_is_sender_colon_content() {
    assert_eq!(Message::chat("alice", "hi").to_text(), "alice: hi");
}

#[test]
fn chat_content_is_not_trimmed() {
    assert_eq!(Message::chat("bob", "  two  spaces ").to_text(), "bob:   two  spaces ");
}

#[test]
fn empty_strings_are_serialized_as_they_are() {
    assert_eq!(Message::user_joined("").to_text(), "[] :)");
    assert_eq!(Message::user_left("").to_text(), "[ :(]");
    assert_eq!(Message::chat("", "").to_text(), ": ");
}

#[test]
fn constructors_fill_the_variants() {
    assert_eq!(Message::user_joined("a"), Message::Joined { username: "a".to_string() });
    assert_eq!(Message::user_left("b"), Message::Left { username: "b".to_string() });
    assert_eq!(
        Message::chat("c", "d"),
        Message::Chat { sender: "c".to_string(), content: "d".to_string() }
    );
}

#[test]
fn non_ascii_names_survive() {
    assert_eq!(Message::user_joined("zoë").to_text(), "[zoë] :)");
    assert_eq!(Message::chat("名前", "こんにちは").to_text(), "名前: こんにちは");
}

#[test]
fn trim_removes_white_space_at_both_ends() {
    assert_eq!(trim("  alice \t"), "alice");
    assert_eq!(trim("alice\r\n"), "alice");
    assert_eq!(trim("\u{3000}alice\u{a0}"), "alice");
}

#[test]
fn trim_keeps_inner_white_space() {
    assert_eq!(trim(" alice  cooper "), "alice  cooper");
}

#[test]
fn trim_of_white_space_only_is_empty() {
    assert_eq!(trim(" \t \n"), "");
    assert_eq!(trim(""), "");
}

#[test]
fn trim_leaves_a_clean_line_alone() {
    assert_eq!(trim("alice"), "alice");
    assert_eq!(trim("é"), "é");
}

#[test]
fn trim_agrees_with_the_standard_library() {
    for line in ["", " ", "a", " a", "a ", " a b ", "\u{2003}x\u{2028}", "\u{200b}x", "\tñ\n"] {
        assert_eq!(trim(line), line.trim());
    }
}

#[test]
fn white_space_is_what_the_standard_library_calls_so() {
    for code in 0..=0x10FFFFu32 {
        if let Some(c) = char::from_u32(code) {
            assert_eq!(is_whitespace(c), char::is_whitespace(c), "U+{:04X}", code);
        }
    }
}

#[test]
fn white_space_examples() {
    for c in [' ', '\t', '\n', '\u{b}', '\u{c}', '\r', '\u{85}', '\u{a0}', '\u{1680}', '\u{2000}',
        '\u{200a}', '\u{2028}', '\u{2029}', '\u{202f}', '\u{205f}', '\u{3000}']
    {
        assert!(is_whitespace(c));
    }
    for c in ['a', '0', '_', '\u{8}', '\u{e}', '\u{1f}', '\u{180e}', '\u{200b}', '\u{feff}'] {
        assert!(!is_whitespace(c));
    }
}
