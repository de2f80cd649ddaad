use ws_tunnel::message::Message;
use ws_tunnel::protocol::{
    connect, control, err, hello, ok, parse_control, parse_err, parse_hello, start,
};

fn text(message: Message) -> String {
    match message {
        Message::Text(text) => text,
        other => panic!("not a text frame: {other:?}"),
    }
}

#[test]
fn hello_is_written_and_read_back() {
    let frame = text(hello("change-me", 7000));
    assert_eq!(frame, "HELLO change-me 7000");
    assert_eq!(parse_hello(&frame), Some(("change-me", 7000)));
}

#[test]
fn control_is_written_and_read_back() {
    let frame = text(control("change-me", 65535));
    assert_eq!(frame, "CONTROL change-me 65535");
    assert_eq!(parse_control(&frame), Some(("change-me", 65535)));
}

#[test]
fn every_port_survives_the_round_trip() {
    for port in [0u16, 1, 9, 10, 99, 100, 999, 1000, 9999, 10000, 65534, 65535] {
        let frame = text(hello("t", port));
        assert_eq!(frame, format!("HELLO t {port}"));
        assert_eq!(parse_hello(&frame), Some(("t", port)));
    }
}

#[test]
fn a_token_beyond_ascii_survives_the_round_trip() {
    let frame = text(hello("pässwörd-\u{1F511}", 22));
    assert_eq!(parse_hello(&frame), Some(("pässwörd-\u{1F511}", 22)));
}

#[test]
fn plain_commands_have_their_texts() {
    assert_eq!(text(start()), "START");
    assert_eq!(text(connect()), "CONNECT");
    assert_eq!(text(ok()), "OK");
}

#[test]
fn an_error_is_written_and_read_back() {
    let frame = text(err("invalid token"));
    assert_eq!(frame, "ERR invalid token");
    assert_eq!(parse_err(&frame), Some("invalid token"));
    assert_eq!(parse_err("ERR "), Some(""));
    assert_eq!(parse_err("ERR"), None);
    assert_eq!(parse_err("err x"), None);
}

#[test]
fn any_ascii_whitespace_separates_the_fields() {
    assert_eq!(parse_hello("HELLO \t a \r\n\x0C 80 \n"), Some(("a", 80)));
}

#[test]
fn other_whitespace_is_part_of_a_word() {
    assert_eq!(parse_hello("HELLO a\u{00A0}b 80"), Some(("a\u{00A0}b", 80)));
    assert_eq!(parse_hello("HELLO a\x0B80"), None);
}

#[test]
fn wrong_field_counts_are_refused() {
    assert_eq!(parse_hello("HELLO "), None);
    assert_eq!(parse_hello("HELLO a"), None);
    assert_eq!(parse_hello("HELLO a 80 b"), None);
    assert_eq!(parse_control("CONTROL a"), None);
    assert_eq!(parse_control("CONTROL a 80 b"), None);
}

#[test]
fn numbers_are_read_as_16_bit_decimals() {
    assert_eq!(parse_hello("HELLO a +80"), Some(("a", 80)));
    assert_eq!(parse_hello("HELLO a 00080"), Some(("a", 80)));
    assert_eq!(parse_hello("HELLO a 65536"), None);
    assert_eq!(parse_hello("HELLO a 99999999999999999999"), None);
    assert_eq!(parse_hello("HELLO a -1"), None);
    assert_eq!(parse_hello("HELLO a +"), None);
    assert_eq!(parse_hello("HELLO a ++1"), None);
    assert_eq!(parse_hello("HELLO a 8o"), None);
}

#[test]
fn a_frame_is_of_one_kind_only() {
    assert_eq!(parse_control("HELLO a 80"), None);
    assert_eq!(parse_hello("CONTROL a 80"), None);
    assert_eq!(parse_hello("hello a 80"), None);
    assert_eq!(parse_hello(" HELLO a 80"), None);
    assert_eq!(parse_control("CONNECT"), None);
    assert_eq!(parse_err("HELLO a 80"), None);
}

#[test]
fn a_token_with_whitespace_does_not_read_back() {
    assert_eq!(parse_hello(&text(hello("two words", 80))), None);
    assert_eq!(parse_hello(&text(hello("", 80))), None);
}
