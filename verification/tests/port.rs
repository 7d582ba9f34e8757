use rusty_proxy::port::{is_port_flag, parse_port, port_from_args, DEFAULT_PORT};

fn args(words: &[&str]) -> Vec<Vec<u8>> {
    words.iter().map(|w| w.as_bytes().to_vec()).collect()
}

#[test]
fn default_port_is_eighty() {
    assert_eq!(DEFAULT_PORT, 80);
}

#[test]
fn ports_that_parse() {
    assert_eq!(parse_port(b"0"), Some(0));
    assert_eq!(parse_port(b"80"), Some(80));
    assert_eq!(parse_port(b"8080"), Some(8080));
    assert_eq!(parse_port(b"65535"), Some(65535));
    assert_eq!(parse_port(b"+443"), Some(443));
    assert_eq!(parse_port(b"00080"), Some(80));
    assert_eq!(parse_port(b"0000000065535"), Some(65535));
}

#[test]
fn ports_that_do_not_parse() {
    assert_eq!(parse_port(b""), None);
    assert_eq!(parse_port(b"+"), None);
    assert_eq!(parse_port(b"-1"), None);
    assert_eq!(parse_port(b"++1"), None);
    assert_eq!(parse_port(b"65536"), None);
    assert_eq!(parse_port(b"99999999999999999999"), None);
    assert_eq!(parse_port(b"80a"), None);
    assert_eq!(parse_port(b"8 0"), None);
    assert_eq!(parse_port(b" 80"), None);
    assert_eq!(parse_port(b"65536x"), None);
}

#[test]
fn parse_agrees_with_std() {
    for text in ["0", "7", "+7", "-7", "", "+", "65535", "65536", "070", "7 ", "x", "1e3"] {
        assert_eq!(parse_port(text.as_bytes()), text.parse::<u16>().ok());
    }
}

#[test]
fn the_flag_byte_for_byte() {
    assert!(is_port_flag(b"--port"));
    assert!(!is_port_flag(b"--PORT"));
    assert!(!is_port_flag(b"--port="));
    assert!(!is_port_flag(b"-port"));
    assert!(!is_port_flag(b""));
}

#[test]
fn port_from_the_command_line() {
    assert_eq!(port_from_args(&args(&["proxy", "--port", "8080"])), 8080);
    assert_eq!(port_from_args(&args(&["proxy", "-v", "--port", "443", "x"])), 443);
}

#[test]
fn default_without_a_flag() {
    assert_eq!(port_from_args(&args(&[])), 80);
    assert_eq!(port_from_args(&args(&["proxy"])), 80);
    assert_eq!(port_from_args(&args(&["proxy", "8080"])), 80);
    assert_eq!(port_from_args(&args(&["--port", "8080"])), 80);
}

#[test]
fn flag_without_a_value_is_ignored() {
    assert_eq!(port_from_args(&args(&["proxy", "--port"])), 80);
    assert_eq!(port_from_args(&args(&["proxy", "--port", "81", "--port"])), 81);
}

#[test]
fn the_last_flag_decides() {
    assert_eq!(port_from_args(&args(&["proxy", "--port", "81", "--port", "82"])), 82);
    assert_eq!(port_from_args(&args(&["proxy", "--port", "81", "--port", "bad"])), 80);
    assert_eq!(port_from_args(&args(&["proxy", "--port", "--port", "9"])), 9);
}

#[test]
fn a_value_that_is_no_port_gives_the_default() {
    assert_eq!(port_from_args(&args(&["proxy", "--port", "70000"])), 80);
    assert_eq!(port_from_args(&args(&["proxy", "--port", "http"])), 80);
}
