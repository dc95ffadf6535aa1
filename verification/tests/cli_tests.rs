use p2p_chat::cli::{parse_port, port_or_default, DEFAULT_PORT};

#[test]
fn parses_a_port_in_range() {
    assert_eq!(parse_port("9000"), Some(9000));
    assert_eq!(parse_port("1024"), Some(1024));
    assert_eq!(parse_port("65535"), Some(65535));
}

#[test]
fn leading_zeroes_are_digits_too() {
    assert_eq!(parse_port("008080"), Some(8080));
}

#[test]
fn rejects_out_of_range_ports() {
    assert_eq!(parse_port("1023"), None);
    assert_eq!(parse_port("80"), None);
    assert_eq!(parse_port("65536"), None);
    assert_eq!(parse_port("999999999999999999999"), None);
    assert_eq!(parse_port("0"), None);
}

#[test]
fn rejects_non_numeric_text() {
    assert_eq!(parse_port(""), None);
    assert_eq!(parse_port("abc"), None);
    assert_eq!(parse_port("90a0"), None);
    assert_eq!(parse_port("-9000"), None);
    assert_eq!(parse_port(" 9000"), None);
}

#[test]
fn invalid_or_missing_values_fall_back_to_the_default() {
    assert_eq!(DEFAULT_PORT, 8080);
    assert_eq!(port_or_default(None), 8080);
    assert_eq!(port_or_default(Some("not a port")), 8080);
    assert_eq!(port_or_default(Some("80")), 8080);
    assert_eq!(port_or_default(Some("9000")), 9000);
}
