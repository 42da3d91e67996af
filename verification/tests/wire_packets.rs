use mmo::wire::{decode_message, parse_payload, read_fields, Packet};

fn packet(t: i16, s: i16, p: &str) -> Packet {
    Packet::new(t, s, p.to_string())
}

#[test]
fn encode_writes_kinds_and_payload() {
    assert_eq!(packet(1, 0, "bob").encode(), "1|0|bob");
    assert_eq!(packet(-1, -32768, "").encode(), "-1|-32768|");
    assert_eq!(packet(32767, 5, "a|b;c").encode(), "32767|5|a|b;c");
}

#[test]
fn encode_new_matches_encode() {
    assert_eq!(Packet::encode_new(3, 0, "y".to_string()), packet(3, 0, "y").encode());
}

#[test]
fn decode_reads_three_fields() {
    assert_eq!(Packet::decode("2|0|players".to_string()), packet(2, 0, "players"));
}

#[test]
fn decode_keeps_bars_in_payload() {
    assert_eq!(Packet::decode("1|2|a|b|c".to_string()), packet(1, 2, "a|b|c"));
}

#[test]
fn decode_unreadable_kinds_are_minus_one() {
    assert_eq!(Packet::decode("x|y|z".to_string()), packet(-1, -1, "z"));
    assert_eq!(Packet::decode("40000|1|p".to_string()), packet(-1, 1, "p"));
    assert_eq!(Packet::decode(" 1|2|p".to_string()), packet(-1, 2, "p"));
}

#[test]
fn decode_missing_fields() {
    assert_eq!(Packet::decode("".to_string()), packet(-1, -1, ""));
    assert_eq!(Packet::decode("7".to_string()), packet(7, -1, ""));
    assert_eq!(Packet::decode("7|8".to_string()), packet(7, 8, ""));
    assert_eq!(Packet::decode("7|8|".to_string()), packet(7, 8, ""));
}

#[test]
fn decode_accepts_signs_and_leading_zeros() {
    assert_eq!(Packet::decode("+7|-0008|q".to_string()), packet(7, -8, "q"));
    assert_eq!(Packet::decode("-|+|q".to_string()), packet(-1, -1, "q"));
    assert_eq!(Packet::decode("-32768|32767|".to_string()), packet(-32768, 32767, ""));
    assert_eq!(Packet::decode("-32769|32768|".to_string()), packet(-1, -1, ""));
}

#[test]
fn decode_of_encode_is_identity() {
    for (t, s, p) in [(0, 0, ""), (-5, 12, "a|b|c"), (i16::MIN, i16::MAX, "é;ü|")] {
        let sent = packet(t, s, p);
        assert_eq!(Packet::decode(sent.encode()), sent);
    }
}

#[test]
fn decode_message_trims_white_space() {
    assert_eq!(decode_message("  3|0|id;1,0;90\n"), packet(3, 0, "id;1,0;90"));
    assert_eq!(decode_message("\u{3000}0|0|\t"), packet(0, 0, ""));
}

#[test]
fn parse_payload_splits_on_semicolons() {
    assert_eq!(parse_payload("a;b;;c"), vec!["a", "b", "", "c"]);
    assert_eq!(parse_payload(""), vec![""]);
    assert_eq!(packet(1, 0, "name;x").parse_payload(), vec!["name", "x"]);
}

#[test]
fn read_fields_of_packet_and_nothing() {
    assert_eq!(
        read_fields(Some(packet(-3, 4, "p")), "empty"),
        ("-3".to_string(), "4".to_string(), "p".to_string())
    );
    assert_eq!(read_fields(None, "empty"), ("-1".to_string(), "-1".to_string(), "empty".to_string()));
    assert_eq!(read_fields(None, ""), ("-1".to_string(), "-1".to_string(), String::new()));
}
