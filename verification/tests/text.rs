use protonvpn_rs::text::{
    chars_of, decimal_text, join_text, parse_u32_text, same_text, same_text_ignore_ascii_case,
    split_text, trim_text,
};

#[test]
fn split_text_matches_the_standard_split() {
    for text in ["", "a", "a b", " a  b ", "::", "-A OUTPUT -o lo -j ACCEPT", "é:ü"] {
        for sep in [' ', ':'] {
            let expected: Vec<&str> = text.split(sep).collect();
            assert_eq!(split_text(text, sep), expected);
        }
    }
}

#[test]
fn join_text_matches_the_standard_join() {
    let fields = vec!["a".to_string(), "".to_string(), "bc".to_string()];
    assert_eq!(join_text(&fields, "\n"), "a\n\nbc");
    assert_eq!(join_text(&vec![], ":"), "");
    assert_eq!(join_text(&vec!["x".to_string()], ":"), "x");
}

#[test]
fn split_then_join_gives_the_text_back() {
    for text in ["", ":", "a:b", "connect:server1:udp", "::a::"] {
        let fields: Vec<String> = split_text(text, ':').into_iter().map(String::from).collect();
        assert_eq!(join_text(&fields, ":"), text);
    }
}

#[test]
fn trim_text_matches_the_standard_trim() {
    for text in ["", " ", "a", " a ", "\t\n a b \r\n", "\u{2003}x\u{feff}", "\u{85}1\u{1680}", "\u{200b}x"] {
        assert_eq!(trim_text(text), text.trim());
    }
}

#[test]
fn parse_u32_text_matches_the_standard_parse() {
    for text in [
        "", "0", "+0", "-0", "+", "12", "+12", "++12", "012", "4294967295", "4294967296",
        "42949672950", "1a", "a1", " 1", "1 ", "٣", "１",
    ] {
        assert_eq!(parse_u32_text(text), text.parse::<u32>().ok(), "{:?}", text);
    }
}

#[test]
fn decimal_text_matches_the_standard_display() {
    for n in [0u32, 1, 9, 10, 11, 99, 100, 101, 1194, 51820, 4294967295] {
        assert_eq!(decimal_text(n), n.to_string());
        assert_eq!(parse_u32_text(&decimal_text(n)), Some(n));
    }
}

#[test]
fn text_comparisons() {
    assert!(same_text("abc", "abc"));
    assert!(!same_text("abc", "abd"));
    assert!(!same_text("abc", "ab"));
    assert!(same_text("", ""));
    assert!(same_text_ignore_ascii_case("udp", "UdP"));
    assert!(!same_text_ignore_ascii_case("udp", "tcp"));
    assert!(!same_text_ignore_ascii_case("udp", "udpp"));
    assert!(!same_text_ignore_ascii_case("k", "\u{212a}"));
    assert!(!same_text_ignore_ascii_case("@", "`"));
    assert!(!same_text_ignore_ascii_case("[", "{"));
    assert_eq!(chars_of("aé"), vec!['a', 'é']);
}
