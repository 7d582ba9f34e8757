use rusty_proxy::ascii::{append, has_prefix_ignore_case, is_space, to_lower, trim};
use rusty_proxy::header::{extract_key, find_key, is_key_header};

#[test]
fn lower_case_of_letters_and_others() {
    assert_eq!(to_lower(b'A'), b'a');
    assert_eq!(to_lower(b'Z'), b'z');
    assert_eq!(to_lower(b'a'), b'a');
    assert_eq!(to_lower(b'@'), b'@');
    assert_eq!(to_lower(b'['), b'[');
    assert_eq!(to_lower(b'-'), b'-');
    assert_eq!(to_lower(0xc4), 0xc4);
}

#[test]
fn whitespace_bytes() {
    for b in [b' ', b'\t', b'\n', 0x0b, 0x0c, b'\r'] {
        assert!(is_space(b));
    }
    for b in [0x08u8, 0x0e, b'a', 0x00, 0xa0, 0x1f, 0x21] {
        assert!(!is_space(b));
    }
}

#[test]
fn trim_takes_both_sides() {
    assert_eq!(trim(b"  abc \r\n"), b"abc".to_vec());
    assert_eq!(trim(b"abc"), b"abc".to_vec());
    assert_eq!(trim(b"\ta b\t"), b"a b".to_vec());
}

#[test]
fn trim_of_whitespace_is_empty() {
    assert_eq!(trim(b""), Vec::<u8>::new());
    assert_eq!(trim(b" \r\n\t"), Vec::<u8>::new());
}

#[test]
fn append_adds_at_the_end() {
    let mut v = b"ab".to_vec();
    append(&mut v, b"cd");
    assert_eq!(v, b"abcd".to_vec());
    append(&mut v, b"");
    assert_eq!(v, b"abcd".to_vec());
}

#[test]
fn prefix_without_regard_to_case() {
    assert!(has_prefix_ignore_case(b"Hello, world", b"hELLO"));
    assert!(has_prefix_ignore_case(b"abc", b""));
    assert!(!has_prefix_ignore_case(b"ab", b"abc"));
    assert!(!has_prefix_ignore_case(b"abd", b"abc"));
}

#[test]
fn key_header_in_any_case() {
    assert!(is_key_header(b"Sec-WebSocket-Key: abc\r\n"));
    assert!(is_key_header(b"SEC-WEBSOCKET-KEY: abc\r\n"));
    assert!(is_key_header(b"sec-websocket-key: abc\r\n"));
    assert!(is_key_header(b"sEc-wEbSoCkEt-kEy:abc"));
}

#[test]
fn other_lines_are_no_key_header() {
    assert!(!is_key_header(b"Sec-WebSocket-Version: 13\r\n"));
    assert!(!is_key_header(b"Sec-WebSocket-Key"));
    assert!(!is_key_header(b" Sec-WebSocket-Key: abc"));
    assert!(!is_key_header(b"Sec-WebSocket-Key : abc"));
    assert!(!is_key_header(b"Sec_WebSocket_Key: abc"));
    assert!(!is_key_header(b""));
    assert!(!is_key_header(b"\r\n"));
}

#[test]
fn key_is_the_trimmed_value() {
    assert_eq!(
        extract_key(b"Sec-WebSocket-Key: dGhlIHNhbXBsZSBub25jZQ==\r\n"),
        Some(b"dGhlIHNhbXBsZSBub25jZQ==".to_vec())
    );
    assert_eq!(extract_key(b"SEC-WEBSOCKET-KEY:\t  k e y  \n"), Some(b"k e y".to_vec()));
    assert_eq!(extract_key(b"sec-websocket-key:abc"), Some(b"abc".to_vec()));
}

#[test]
fn key_keeps_its_own_case() {
    assert_eq!(extract_key(b"SEC-WEBSOCKET-KEY: AbC\r\n"), Some(b"AbC".to_vec()));
}

#[test]
fn key_may_be_empty() {
    assert_eq!(extract_key(b"Sec-WebSocket-Key:\r\n"), Some(Vec::new()));
    assert_eq!(extract_key(b"Sec-WebSocket-Key:"), Some(Vec::new()));
}

#[test]
fn no_key_in_another_line() {
    assert_eq!(extract_key(b"Host: example.org\r\n"), None);
    assert_eq!(extract_key(b"X: Sec-WebSocket-Key: abc\r\n"), None);
}

#[test]
fn same_key_in_every_casing() {
    let a = extract_key(b"SEC-WEBSOCKET-KEY: k\r\n");
    let b = extract_key(b"Sec-WebSocket-Key: k\r\n");
    let c = extract_key(b"sec-WEBSOCKET-key: k\r\n");
    assert_eq!(a, Some(b"k".to_vec()));
    assert_eq!(a, b);
    assert_eq!(b, c);
}

#[test]
fn first_key_header_wins() {
    let lines = vec![
        b"GET / HTTP/1.1\r\n".to_vec(),
        b"Host: example.org\r\n".to_vec(),
        b"Sec-WebSocket-Key: first\r\n".to_vec(),
        b"sec-websocket-key: second\r\n".to_vec(),
    ];
    assert_eq!(find_key(&lines), Some(b"first".to_vec()));
}

#[test]
fn no_key_among_the_lines() {
    let lines = vec![b"GET / HTTP/1.1\r\n".to_vec(), b"Upgrade: websocket\r\n".to_vec()];
    assert_eq!(find_key(&lines), None);
    assert_eq!(find_key(&Vec::new()), None);
}
