use rusty_proxy::accept::{derive_accept_token, response_for_key, upgrade_response};

#[test]
fn token_of_the_sample_nonce() {
    let token = derive_accept_token(b"dGhlIHNhbXBsZSBub25jZQ==");
    assert_eq!(token, b"s3pPLMBiTxaQ9kYGzzhZRbK+xOo=".to_vec());
}

#[test]
fn token_of_another_key() {
    let token = derive_accept_token(b"x3JJHMbDL1EzLkh9GBhXDw==");
    assert_eq!(token, b"HSmrc0sMlYUkAGmm5OPpG2HaGWk=".to_vec());
}

#[test]
fn token_of_the_empty_key() {
    assert_eq!(derive_accept_token(b""), b"Kfh9QIsMVZcl6xEPYxPHzW8SZ8w=".to_vec());
}

#[test]
fn token_of_a_short_key() {
    assert_eq!(derive_accept_token(b"abc"), b"zwKd5BnoWxQ6GxTxxSmBSHGHX9M=".to_vec());
}

#[test]
fn token_is_not_the_key() {
    let key = b"dGhlIHNhbXBsZSBub25jZQ==";
    assert_ne!(derive_accept_token(key), key.to_vec());
}

#[test]
fn equal_keys_give_equal_tokens() {
    let a = derive_accept_token(b"dGhlIHNhbXBsZSBub25jZQ==");
    let b = derive_accept_token(&b"dGhlIHNhbXBsZSBub25jZQ==".to_vec());
    assert_eq!(a, b);
    assert_eq!(a.len(), 28);
}

#[test]
fn different_keys_give_different_tokens_here() {
    assert_ne!(derive_accept_token(b"abc"), derive_accept_token(b"abd"));
}

#[test]
fn response_is_the_fixed_template() {
    let response = upgrade_response(b"s3pPLMBiTxaQ9kYGzzhZRbK+xOo=");
    let expected = b"HTTP/1.1 101 Switching Protocols\r\nUpgrade: websocket\r\nConnection: Upgrade\r\nSec-WebSocket-Accept: s3pPLMBiTxaQ9kYGzzhZRbK+xOo=\r\n\r\n";
    assert_eq!(response, expected.to_vec());
}

#[test]
fn response_around_an_empty_token() {
    let response = upgrade_response(b"");
    let expected = b"HTTP/1.1 101 Switching Protocols\r\nUpgrade: websocket\r\nConnection: Upgrade\r\nSec-WebSocket-Accept: \r\n\r\n";
    assert_eq!(response, expected.to_vec());
    assert_eq!(response.len(), 101);
}

#[test]
fn response_for_the_sample_nonce() {
    let response = response_for_key(b"dGhlIHNhbXBsZSBub25jZQ==");
    let expected = b"HTTP/1.1 101 Switching Protocols\r\nUpgrade: websocket\r\nConnection: Upgrade\r\nSec-WebSocket-Accept: s3pPLMBiTxaQ9kYGzzhZRbK+xOo=\r\n\r\n";
    assert_eq!(response, expected.to_vec());
}
