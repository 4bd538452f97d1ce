use rusty_claw::text::{
    blank, decimal_string, join, signed_decimal_string, split_at_char, take_first_token, trim,
};

#[test]
fn blank_lines_are_white_space_only() {
    assert!(blank(""));
    assert!(blank("   "));
    assert!(blank(" \t\r\n"));
    assert!(blank("\u{a0}\u{2003}\u{3000}"));
    assert!(!blank(" x "));
    assert!(!blank("{}"));
    assert!(!blank("\u{200b}"));
}

#[test]
fn blank_agrees_with_trim_of_the_standard_library() {
    for code in 0u32..0x3100 {
        if let Some(c) = char::from_u32(code) {
            let text = c.to_string();
            assert_eq!(blank(&text), text.trim().is_empty(), "code point {:x}", code);
        }
    }
}

#[test]
fn first_token_is_the_first_word() {
    assert_eq!(take_first_token("2.0.0 (Backend)"), Some("2.0.0"));
    assert_eq!(take_first_token("  \n 1.5.2\n"), Some("1.5.2"));
    assert_eq!(take_first_token("word"), Some("word"));
    assert_eq!(take_first_token(""), None);
    assert_eq!(take_first_token(" \t "), None);
}

#[test]
fn first_token_agrees_with_split_whitespace() {
    for text in ["a b", " a", "a ", "\u{2003}x\u{a0}y", "", "\n", "tab\tbed", "é à"] {
        assert_eq!(take_first_token(text), text.split_whitespace().next());
    }
}

#[test]
fn trim_takes_both_ends() {
    assert_eq!(trim("  a b \n"), "a b");
    assert_eq!(trim("a"), "a");
    assert_eq!(trim(""), "");
    assert_eq!(trim(" \t"), "");
    for text in [" x", "x ", " é à ", "\u{3000}k\u{2009}"] {
        assert_eq!(trim(text), text.trim());
    }
}

#[test]
fn split_cuts_at_every_separator() {
    assert_eq!(split_at_char("/usr/bin:/bin", ':'), vec!["/usr/bin", "/bin"]);
    assert_eq!(split_at_char("", ':'), vec![""]);
    assert_eq!(split_at_char(":", ':'), vec!["", ""]);
    assert_eq!(split_at_char("a::b:", ':'), vec!["a", "", "b", ""]);
    assert_eq!(split_at_char("my_test_tool", '_'), vec!["my", "test", "tool"]);
    for text in ["", "a", ":a", "a:", "a:b:c", "::"] {
        let expected: Vec<String> = text.split(':').map(|piece| piece.to_string()).collect();
        assert_eq!(split_at_char(text, ':'), expected);
    }
}

#[test]
fn join_puts_the_separator_between() {
    assert_eq!(join(&vec![], ","), "");
    assert_eq!(join(&vec!["Read".to_string()], ","), "Read");
    assert_eq!(join(&vec!["Read".to_string(), "Bash".to_string()], ","), "Read,Bash");
    assert_eq!(join(&vec!["".to_string(), "".to_string()], "-"), "-");
}

#[test]
fn decimal_writes_digits() {
    assert_eq!(decimal_string(0), "0");
    assert_eq!(decimal_string(7), "7");
    assert_eq!(decimal_string(10), "10");
    assert_eq!(decimal_string(4294967295), "4294967295");
    assert_eq!(decimal_string(u64::MAX), u64::MAX.to_string());
    assert_eq!(signed_decimal_string(-32601), "-32601");
    assert_eq!(signed_decimal_string(0), "0");
    assert_eq!(signed_decimal_string(i64::MIN), i64::MIN.to_string());
    assert_eq!(signed_decimal_string(i64::MAX), i64::MAX.to_string());
}
