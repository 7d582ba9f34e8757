//! The one request header that the handshake reads: the client's key.

use vstd::prelude::*;
use crate::ascii::{ascii_bytes, has_prefix_ignore_case, starts_with_ignore_case, trim, trimmed};

verus! {

/// The name of the key header with its colon, in lower case.
pub open spec fn key_prefix() -> Seq<u8> {
    ascii_bytes("sec-websocket-key:"@)
}

/// Whether `line` is a key header: it begins with the header's name and colon,
/// in any mix of upper and lower case.
pub open spec fn is_key_line(line: Seq<u8>) -> bool {
    starts_with_ignore_case(line, key_prefix())
}

/// The key that a key header carries: what follows the colon, without the
/// whitespace around it (the line terminator included).
pub open spec fn key_value(line: Seq<u8>) -> Seq<u8> {
    trimmed(line.skip(key_prefix().len() as int))
}

/// The lines of a request as plain bytes.
pub open spec fn line_views(lines: Seq<Vec<u8>>) -> Seq<Seq<u8>> {
    Seq::new(lines.len(), |i: int| lines[i]@)
}

/// The key of a request: that of its first key header, if it has one.
pub open spec fn request_key(lines: Seq<Seq<u8>>) -> Option<Seq<u8>>
    decreases lines.len(),
{
    if lines.len() == 0 {
        None
    } else if is_key_line(lines[0]) {
        Some(key_value(lines[0]))
    } else {
        request_key(lines.skip(1))
    }
}

/// Whether `key` is the key of the first key header among `lines`.
pub open spec fn is_first_key(lines: Seq<Seq<u8>>, key: Seq<u8>) -> bool {
    exists|i: int|
        0 <= i < lines.len() && is_key_line(#[trigger] lines[i]) && key == key_value(lines[i])
            && forall|j: int| 0 <= j < i ==> !is_key_line(#[trigger] lines[j])
}

/// Whether no line of `lines` is a key header.
pub open spec fn has_no_key(lines: Seq<Seq<u8>>) -> bool {
    forall|i: int| 0 <= i < lines.len() ==> !is_key_line(#[trigger] lines[i])
}

/// The key prefix as bytes.
fn key_prefix_bytes() -> (r: &'static [u8])
    ensures
        r@ == key_prefix(),
        r@.len() == 18,
{
    let text = "sec-websocket-key:";
    proof {
        reveal_strlit("sec-websocket-key:");
        assert(text.is_ascii());
        vstd::string::is_ascii_spec_bytes(text);
    }
    text.as_bytes()
}

/// Tests whether `line` is a key header.
pub fn is_key_header(line: &[u8]) -> (r: bool)
    ensures
        r == is_key_line(line@),
{
    has_prefix_ignore_case(line, key_prefix_bytes())
}

/// Reads the key out of one header line; `None` for any other line.
pub fn extract_key(line: &[u8]) -> (r: Option<Vec<u8>>)
    ensures
        r.is_some() == is_key_line(line@),
        r matches Some(key) ==> key@ == key_value(line@),
{
    let prefix = key_prefix_bytes();
    if has_prefix_ignore_case(line, prefix) {
        let rest = vstd::slice::slice_subrange(line, prefix.len(), line.len());
        assert(rest@ =~= line@.skip(key_prefix().len() as int));
        Some(trim(rest))
    } else {
        None
    }
}

/// Finds the key among the lines of a request: that of the first key header.
/// `None` exactly when no line is a key header.
pub fn find_key(lines: &Vec<Vec<u8>>) -> (r: Option<Vec<u8>>)
    ensures
        r.is_some() == request_key(line_views(lines@)).is_some(),
        r matches Some(key) ==> request_key(line_views(lines@)) == Some(key@),
{
    let ghost all = line_views(lines@);
    let mut i: usize = 0;
    assert(all.skip(0) =~= all);
    while i < lines.len()
        invariant
            i <= lines.len(),
            all == line_views(lines@),
            request_key(all) == request_key(all.skip(i as int)),
        decreases lines.len() - i,
    {
        let found = extract_key(lines[i].as_slice());
        assert(all.skip(i as int)[0] == lines@[i as int]@);
        if found.is_some() {
            return found;
        }
        assert(all.skip(i as int).skip(1) =~= all.skip(i + 1));
        i += 1;
    }
    None
}

/// The key of a request is that of the first line that is a key header, and a
/// request has no key exactly when none of its lines is one.
pub proof fn request_key_is_first(lines: Seq<Seq<u8>>)
    ensures
        match request_key(lines) {
            Some(key) => is_first_key(lines, key),
            None => has_no_key(lines),
        },
    decreases lines.len(),
{
    if lines.len() == 0 {
    } else if is_key_line(lines[0]) {
    } else {
        let rest = lines.skip(1);
        request_key_is_first(rest);
        match request_key(rest) {
            Some(key) => {
                let i = choose|i: int|
                    0 <= i < rest.len() && is_key_line(#[trigger] rest[i]) && key == key_value(
                        rest[i],
                    ) && forall|j: int| 0 <= j < i ==> !is_key_line(#[trigger] rest[j]);
                assert(lines[i + 1] == rest[i]);
                assert forall|j: int| 0 <= j < i + 1 implies !is_key_line(#[trigger] lines[j]) by {
                    if j > 0 {
                        assert(lines[j] == rest[j - 1]);
                    }
                }
            },
            None => {
                assert forall|j: int| 0 <= j < lines.len() implies !is_key_line(
                    #[trigger] lines[j],
                ) by {
                    if j > 0 {
                        assert(lines[j] == rest[j - 1]);
                    }
                }
            },
        }
    }
}

/// The key of a request is unique: two keys that both are the key of the first
/// key header are equal, and a request with a key is not one without.
pub proof fn first_key_is_unique(lines: Seq<Seq<u8>>, a: Seq<u8>, b: Seq<u8>)
    requires
        is_first_key(lines, a),
    ensures
        !has_no_key(lines),
        is_first_key(lines, b) ==> a == b,
{
    let i = choose|i: int|
        0 <= i < lines.len() && is_key_line(#[trigger] lines[i]) && a == key_value(lines[i])
            && forall|j: int| 0 <= j < i ==> !is_key_line(#[trigger] lines[j]);
    if is_first_key(lines, b) {
        let k = choose|k: int|
            0 <= k < lines.len() && is_key_line(#[trigger] lines[k]) && b == key_value(lines[k])
                && forall|j: int| 0 <= j < k ==> !is_key_line(#[trigger] lines[j]);
        assert(i == k);
    }
}

/// Header matching ignores case: two lines that agree up to the case of their
/// letters in the header's name are key headers together, and two key headers
/// that agree after the colon carry the same key.
pub proof fn key_match_ignores_case(a: Seq<u8>, b: Seq<u8>)
    requires
        a.len() == b.len(),
        forall|i: int|
            0 <= i < a.len() && i < key_prefix().len() ==> crate::ascii::spec_to_lower(a[i])
                == crate::ascii::spec_to_lower(b[i]),
    ensures
        is_key_line(a) == is_key_line(b),
        a.skip(key_prefix().len() as int) == b.skip(key_prefix().len() as int) ==> key_value(a)
            == key_value(b),
{
}

} // verus!
