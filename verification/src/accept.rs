//! The accept token that answers a client's key, and the upgrade response that
//! carries it.

use vstd::prelude::*;
use crate::ascii::{append, ascii_bytes};

verus! {

/// The SHA-1 digest of `data`.
pub uninterp spec fn sha1_of(data: Seq<u8>) -> Seq<u8>;

/// The character that stands for the six-bit value `v` in the standard base64
/// alphabet: `A` to `Z`, `a` to `z`, `0` to `9`, `+` and `/`.
pub open spec fn sextet_char(v: int) -> u8 {
    if v < 26 {
        (0x41 + v) as u8
    } else if v < 52 {
        (0x61 + (v - 26)) as u8
    } else if v < 62 {
        (0x30 + (v - 52)) as u8
    } else if v == 62 {
        0x2b
    } else {
        0x2f
    }
}

/// The base64 text of `data`, in the standard alphabet and padded, as bytes:
/// four characters for every three bytes, the last group filled up with `=`.
pub open spec fn spec_base64(data: Seq<u8>) -> Seq<u8>
    decreases data.len(),
{
    if data.len() == 0 {
        Seq::empty()
    } else if data.len() == 1 {
        let a = data[0] as int;
        seq![sextet_char(a / 4), sextet_char(a % 4 * 16), 0x3du8, 0x3du8]
    } else if data.len() == 2 {
        let a = data[0] as int;
        let b = data[1] as int;
        seq![sextet_char(a / 4), sextet_char(a % 4 * 16 + b / 16), sextet_char(b % 16 * 4), 0x3du8]
    } else {
        let a = data[0] as int;
        let b = data[1] as int;
        let c = data[2] as int;
        seq![
            sextet_char(a / 4),
            sextet_char(a % 4 * 16 + b / 16),
            sextet_char(b % 16 * 4 + c / 64),
            sextet_char(c % 64),
        ] + spec_base64(data.skip(3))
    }
}

/// The text that is appended to a key before it is hashed.
pub open spec fn magic_guid() -> Seq<u8> {
    ascii_bytes("258EAFA5-E914-47DA-95CA-C5AB0DC85B11"@)
}

/// The accept token of `key`: the base64 text of the SHA-1 digest of the key
/// followed by the magic text.
pub open spec fn spec_accept_token(key: Seq<u8>) -> Seq<u8> {
    spec_base64(sha1_of(key + magic_guid()))
}

/// The response up to the token.
pub open spec fn response_head() -> Seq<u8> {
    ascii_bytes(
        "HTTP/1.1 101 Switching Protocols\r\nUpgrade: websocket\r\nConnection: Upgrade\r\nSec-WebSocket-Accept: "@,
    )
}

/// The response after the token: the end of the token's line, and an empty line.
pub open spec fn response_tail() -> Seq<u8> {
    ascii_bytes("\r\n\r\n"@)
}

/// The upgrade response that carries `token`.
pub open spec fn spec_upgrade_response(token: Seq<u8>) -> Seq<u8> {
    response_head() + token + response_tail()
}

/// Calls `sha1::Sha1::digest` (the `Digest` trait's one-shot function) on
/// `data`. Trusted: the result is the SHA-1 digest of `data`, which is 20 bytes
/// long whatever the input.
#[verifier::external_body]
fn sha1_digest(data: &[u8]) -> (digest: Vec<u8>)
    ensures
        digest@ == sha1_of(data@),
        digest@.len() == 20,
{
    <sha1::Sha1 as sha1::Digest>::digest(data).to_vec()
}

/// Calls `base64::Engine::encode` of `base64::engine::general_purpose::STANDARD`
/// on `data`. Trusted: the result is the base64 text of `data` in the standard
/// alphabet, padded with `=` to a multiple of four characters. The encoder
/// panics where the length of that text cannot be allocated, so such inputs are
/// left out.
#[verifier::external_body]
fn base64_encode(data: &[u8]) -> (text: Vec<u8>)
    requires
        (data@.len() + 2) / 3 * 4 <= isize::MAX,
    ensures
        text@ == spec_base64(data@),
{
    base64::Engine::encode(&base64::engine::general_purpose::STANDARD, data).into_bytes()
}

fn magic_guid_bytes() -> (r: &'static [u8])
    ensures
        r@ == magic_guid(),
{
    let text = "258EAFA5-E914-47DA-95CA-C5AB0DC85B11";
    proof {
        reveal_strlit("258EAFA5-E914-47DA-95CA-C5AB0DC85B11");
        assert(text.is_ascii());
        vstd::string::is_ascii_spec_bytes(text);
    }
    text.as_bytes()
}

fn response_head_bytes() -> (r: &'static [u8])
    ensures
        r@ == response_head(),
{
    let text =
        "HTTP/1.1 101 Switching Protocols\r\nUpgrade: websocket\r\nConnection: Upgrade\r\nSec-WebSocket-Accept: ";
    proof {
        reveal_strlit(
            "HTTP/1.1 101 Switching Protocols\r\nUpgrade: websocket\r\nConnection: Upgrade\r\nSec-WebSocket-Accept: ",
        );
        assert(text.is_ascii());
        vstd::string::is_ascii_spec_bytes(text);
    }
    text.as_bytes()
}

fn response_tail_bytes() -> (r: &'static [u8])
    ensures
        r@ == response_tail(),
{
    let text = "\r\n\r\n";
    proof {
        reveal_strlit("\r\n\r\n");
        assert(text.is_ascii());
        vstd::string::is_ascii_spec_bytes(text);
    }
    text.as_bytes()
}

/// Derives the accept token of a client's key.
pub fn derive_accept_token(key: &[u8]) -> (token: Vec<u8>)
    ensures
        token@ == spec_accept_token(key@),
{
    let mut data: Vec<u8> = Vec::new();
    append(&mut data, key);
    append(&mut data, magic_guid_bytes());
    assert(data@ =~= key@ + magic_guid());
    let digest = sha1_digest(data.as_slice());
    base64_encode(digest.as_slice())
}

/// Builds the upgrade response around a token: the status line, the three
/// headers and the empty line, byte for byte.
pub fn upgrade_response(token: &[u8]) -> (response: Vec<u8>)
    ensures
        response@ == spec_upgrade_response(token@),
{
    let mut response: Vec<u8> = Vec::new();
    append(&mut response, response_head_bytes());
    append(&mut response, token);
    append(&mut response, response_tail_bytes());
    assert(response@ =~= spec_upgrade_response(token@));
    response
}

/// The whole answer to a key: the upgrade response with the key's token.
pub fn response_for_key(key: &[u8]) -> (response: Vec<u8>)
    ensures
        response@ == spec_upgrade_response(spec_accept_token(key@)),
{
    let token = derive_accept_token(key);
    upgrade_response(token.as_slice())
}

/// The accept token depends on the key alone: equal keys have equal tokens, and
/// equal tokens are carried by equal responses.
pub proof fn accept_token_is_function_of_key(a: Seq<u8>, b: Seq<u8>)
    requires
        a =~= b,
    ensures
        spec_accept_token(a) == spec_accept_token(b),
        spec_upgrade_response(spec_accept_token(a)) == spec_upgrade_response(spec_accept_token(b)),
{
}

/// Base64 text is four characters for every three bytes begun.
pub proof fn base64_length(data: Seq<u8>)
    ensures
        spec_base64(data).len() == (data.len() + 2) / 3 * 4,
    decreases data.len(),
{
    if data.len() >= 3 {
        base64_length(data.skip(3));
    }
}

/// An accept token is 28 characters long and ends with one `=`, whatever the
/// key: a digest is 20 bytes.
pub proof fn base64_of_digest(digest: Seq<u8>)
    requires
        digest.len() == 20,
    ensures
        spec_base64(digest).len() == 28,
        spec_base64(digest)[27] == 0x3d,
{
    base64_length(digest);
    reveal_with_fuel(spec_base64, 8);
    let d3 = digest.skip(3);
    let d6 = d3.skip(3);
    let d9 = d6.skip(3);
    let d12 = d9.skip(3);
    let d15 = d12.skip(3);
    let d18 = d15.skip(3);
    base64_length(d3);
    base64_length(d6);
    base64_length(d9);
    base64_length(d12);
    base64_length(d15);
    base64_length(d18);
    assert(spec_base64(d18)[3] == 0x3d);
}

/// The text `Man` is written `TWFu`, `Ma` is `TWE=` and `M` is `TQ==`; the
/// bytes `fb ff bf` are written `+/+/` and the bytes `d3 5d b7` are `0123`.
pub proof fn base64_of_known_texts()
    ensures
        spec_base64(seq![0xfbu8, 0xffu8, 0xbfu8]) == seq![0x2bu8, 0x2fu8, 0x2bu8, 0x2fu8],
        spec_base64(seq![0xd3u8, 0x5du8, 0xb7u8]) == seq![0x30u8, 0x31u8, 0x32u8, 0x33u8],
        spec_base64(seq![0x4du8, 0x61u8, 0x6eu8]) == seq![0x54u8, 0x57u8, 0x46u8, 0x75u8],
        spec_base64(seq![0x4du8, 0x61u8]) == seq![0x54u8, 0x57u8, 0x45u8, 0x3du8],
        spec_base64(seq![0x4du8]) == seq![0x54u8, 0x51u8, 0x3du8, 0x3du8],
{
    reveal_with_fuel(spec_base64, 3);
    let man = seq![0x4du8, 0x61u8, 0x6eu8];
    assert(man.skip(3).len() == 0);
    let signs = seq![0xfbu8, 0xffu8, 0xbfu8];
    assert(signs.skip(3).len() == 0);
    assert(spec_base64(signs) =~= seq![0x2bu8, 0x2fu8, 0x2bu8, 0x2fu8]);
    let digits = seq![0xd3u8, 0x5du8, 0xb7u8];
    assert(digits.skip(3).len() == 0);
    assert(spec_base64(digits) =~= seq![0x30u8, 0x31u8, 0x32u8, 0x33u8]);
    assert(spec_base64(man) =~= seq![0x54u8, 0x57u8, 0x46u8, 0x75u8]);
    assert(spec_base64(seq![0x4du8, 0x61u8]) =~= seq![0x54u8, 0x57u8, 0x45u8, 0x3du8]);
    assert(spec_base64(seq![0x4du8]) =~= seq![0x54u8, 0x51u8, 0x3du8, 0x3du8]);
}

/// A response carries its token where the head ends, and is as long as head,
/// token and tail together.
pub proof fn response_holds_token(token: Seq<u8>)
    ensures
        spec_upgrade_response(token).len() == response_head().len() + token.len() + 4,
        spec_upgrade_response(token).subrange(
            response_head().len() as int,
            (response_head().len() + token.len()) as int,
        ) == token,
{
    reveal_strlit("\r\n\r\n");
    let r = spec_upgrade_response(token);
    assert(r.subrange(response_head().len() as int, (response_head().len() + token.len()) as int) =~= token);
}

} // verus!
