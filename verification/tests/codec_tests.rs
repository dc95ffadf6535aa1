use p2p_chat::codec::{encode_message, parse_message};
use p2p_chat::message::Message;

fn msg(username: &str, message: &str) -> Message {
    Message { username: username.to_string(), message: message.to_string() }
}

#[test]
fn encode_plain_message() {
    let m = msg("bob", "hi");
    assert_eq!(encode_message(&m), "{\"username\":\"bob\",\"message\":\"hi\"}");
}

#[test]
fn encode_empty_fields() {
    let m = msg("", "");
    assert_eq!(encode_message(&m), "{\"username\":\"\",\"message\":\"\"}");
}

#[test]
fn encode_escapes_specials() {
    let m = msg("a\"b", "c\\d\ne\tf\rg");
    assert_eq!(
        encode_message(&m),
        "{\"username\":\"a\\\"b\",\"message\":\"c\\\\d\\ne\\tf\\rg\"}"
    );
}

#[test]
fn parse_plain_message() {
    let r = parse_message("{\"username\":\"bob\",\"message\":\"hi\"}");
    assert_eq!(r, Some(msg("bob", "hi")));
}

#[test]
fn parse_decodes_escapes() {
    let r = parse_message("{\"username\":\"a\\\"b\",\"message\":\"c\\\\d\\ne\\tf\\rg\"}");
    assert_eq!(r, Some(msg("a\"b", "c\\d\ne\tf\rg")));
}

#[test]
fn parse_rejects_missing_message_field() {
    assert_eq!(parse_message("{\"username\":\"bob\"}"), None);
}

#[test]
fn parse_rejects_missing_username_field() {
    assert_eq!(parse_message("{\"message\":\"hi\"}"), None);
}

#[test]
fn parse_rejects_empty_body() {
    assert_eq!(parse_message(""), None);
    assert_eq!(parse_message("{}"), None);
}

#[test]
fn parse_rejects_unterminated_field() {
    assert_eq!(parse_message("{\"username\":\"bob"), None);
}

#[test]
fn parse_rejects_unknown_escape() {
    assert_eq!(parse_message("{\"username\":\"a\\qb\",\"message\":\"hi\"}"), None);
}

#[test]
fn parse_rejects_trailing_text() {
    assert_eq!(parse_message("{\"username\":\"bob\",\"message\":\"hi\"}x"), None);
}

#[test]
fn round_trip_returns_the_message() {
    let cases = [
        msg("bob", "hi"),
        msg("", ""),
        msg("Server", "Sending message..."),
        msg("a\"b\\c", "line1\nline2\ttab\rcr"),
        msg("unicode", "héllo wörld ☃"),
    ];
    for m in cases {
        let encoded = encode_message(&m);
        assert_eq!(parse_message(&encoded), Some(m));
    }
}
