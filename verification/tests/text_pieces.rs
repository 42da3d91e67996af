use mmo::text::{chars_of, join_text, split_text, trim_chars};

#[test]
fn split_and_join_round_trip() {
    for s in ["", "a", "a+b", "+", "++x+", "no separator"] {
        let parts = split_text(s, '+');
        assert_eq!(parts, s.split('+').collect::<Vec<_>>());
        assert_eq!(join_text(&parts, '+'), s);
    }
}

#[test]
fn trim_matches_std() {
    for s in ["", "  ", " a b ", "\u{2028}x\u{85}", "\tq\r\n", "\u{200b}z"] {
        let t: String = trim_chars(&chars_of(s)).into_iter().collect();
        assert_eq!(t, s.trim());
    }
}
