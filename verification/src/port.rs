//! The listening port, as the command line gives it.

use vstd::prelude::*;
use crate::ascii::ascii_bytes;

verus! {

/// The port that is listened on where the command line names none.
pub const DEFAULT_PORT: u16 = 80;

/// Whether `b` is a decimal digit.
pub open spec fn is_digit(b: u8) -> bool {
    0x30 <= b && b <= 0x39
}

/// Whether every byte of `s` is a decimal digit.
pub open spec fn all_digits(s: Seq<u8>) -> bool {
    forall|i: int| 0 <= i < s.len() ==> is_digit(#[trigger] s[i])
}

/// The number that the decimal digits `s` write.
pub open spec fn digits_value(s: Seq<u8>) -> nat
    decreases s.len(),
{
    if s.len() == 0 {
        0
    } else {
        digits_value(s.drop_last()) * 10 + (s.last() - 0x30) as nat
    }
}

/// `text` without one leading plus sign.
pub open spec fn unsigned_part(text: Seq<u8>) -> Seq<u8> {
    if text.len() > 0 && text[0] == 0x2b {
        text.skip(1)
    } else {
        text
    }
}

/// The port that `text` writes: decimal digits, at least one, after at most
/// one plus sign, with a value that a port can have.
pub open spec fn spec_parse_port(text: Seq<u8>) -> Option<u16> {
    let digits = unsigned_part(text);
    if digits.len() > 0 && all_digits(digits) && digits_value(digits) <= u16::MAX {
        Some(digits_value(digits) as u16)
    } else {
        None
    }
}

/// The flag that announces the port.
pub open spec fn port_flag() -> Seq<u8> {
    ascii_bytes("--port"@)
}

/// The port that the first `upto` arguments choose. The first argument is the
/// program's name and never a flag. Each flag that has an argument behind it
/// sets the port anew, to what that argument writes or, where it writes no
/// port, to the default; so the last such flag decides.
pub open spec fn spec_port_upto(args: Seq<Vec<u8>>, upto: int) -> u16
    decreases upto,
{
    if upto <= 1 {
        DEFAULT_PORT
    } else if args[upto - 1]@ == port_flag() && upto < args.len() {
        match spec_parse_port(args[upto]@) {
            Some(port) => port,
            None => DEFAULT_PORT,
        }
    } else {
        spec_port_upto(args, upto - 1)
    }
}

/// The port that a command line chooses.
pub open spec fn spec_port_from_args(args: Seq<Vec<u8>>) -> u16 {
    spec_port_upto(args, args.len() as int)
}

/// The digits of a prefix write no more than the digits of the whole.
proof fn digits_value_grows(s: Seq<u8>, n: int)
    requires
        0 <= n <= s.len(),
        all_digits(s),
    ensures
        digits_value(s.take(n)) <= digits_value(s),
    decreases s.len() - n,
{
    if n == s.len() {
        assert(s.take(n) =~= s);
    } else {
        digits_value_grows(s, n + 1);
        assert(s.take(n + 1).drop_last() =~= s.take(n));
        assert(is_digit(s[n]));
    }
}

/// Reads a port number.
pub fn parse_port(text: &[u8]) -> (r: Option<u16>)
    ensures
        r == spec_parse_port(text@),
{
    let start: usize = if text.len() > 0 && text[0] == 0x2b {
        1
    } else {
        0
    };
    let ghost digits = unsigned_part(text@);
    assert(digits =~= text@.skip(start as int));
    if start == text.len() {
        return None;
    }
    let mut value: u32 = 0;
    let mut i: usize = start;
    assert(digits.take(0) =~= Seq::<u8>::empty());
    while i < text.len()
        invariant
            start <= i <= text.len(),
            digits == text@.skip(start as int),
            digits == unsigned_part(text@),
            all_digits(digits.take(i - start)),
            value == digits_value(digits.take(i - start)),
            value <= u16::MAX,
        decreases text.len() - i,
    {
        let b = text[i];
        let ghost before = digits.take(i - start);
        let ghost after = digits.take(i - start + 1);
        assert(after.drop_last() =~= before);
        assert(after.last() == b);
        if !(0x30 <= b && b <= 0x39) {
            assert(!is_digit(digits[i - start]));
            return None;
        }
        assert(all_digits(after)) by {
            assert forall|j: int| 0 <= j < after.len() implies is_digit(#[trigger] after[j]) by {
                if j < before.len() {
                    assert(after[j] == before[j]);
                }
            }
        }
        let d: u32 = (b - 0x30) as u32;
        let next: u32 = value * 10 + d;
        assert(next == digits_value(after));
        if next > 0xffff {
            proof {
                if all_digits(digits) {
                    digits_value_grows(digits, i - start + 1);
                }
            }
            return None;
        }
        value = next;
        i += 1;
    }
    assert(digits.take(i - start) =~= digits);
    Some(value as u16)
}

fn port_flag_bytes() -> (r: &'static [u8])
    ensures
        r@ == port_flag(),
{
    let text = "--port";
    proof {
        reveal_strlit("--port");
        assert(text.is_ascii());
        vstd::string::is_ascii_spec_bytes(text);
    }
    text.as_bytes()
}

/// Tests whether an argument is the port flag, byte for byte.
pub fn is_port_flag(arg: &[u8]) -> (r: bool)
    ensures
        r == (arg@ == port_flag()),
{
    let flag = port_flag_bytes();
    if arg.len() != flag.len() {
        return false;
    }
    let mut i: usize = 0;
    while i < arg.len()
        invariant
            i <= arg.len() == flag.len(),
            flag@ == port_flag(),
            forall|j: int| 0 <= j < i ==> arg@[j] == flag@[j],
        decreases arg.len() - i,
    {
        if arg[i] != flag[i] {
            assert(arg@[i as int] != flag@[i as int]);
            return false;
        }
        i += 1;
    }
    assert(arg@ =~= flag@);
    true
}

/// Chooses the port from a command line, the program's name first.
pub fn port_from_args(args: &Vec<Vec<u8>>) -> (port: u16)
    ensures
        port == spec_port_from_args(args@),
{
    let mut port: u16 = DEFAULT_PORT;
    let mut i: usize = 1;
    while i < args.len()
        invariant
            1 <= i,
            port == spec_port_upto(args@, if i <= args.len() { i as int } else { args.len() as int }),
        decreases args.len() - i,
    {
        if is_port_flag(args[i].as_slice()) && i + 1 < args.len() {
            port = match parse_port(args[i + 1].as_slice()) {
                Some(p) => p,
                None => DEFAULT_PORT,
            };
        }
        i += 1;
    }
    port
}

/// A command line without the flag chooses the default port.
pub proof fn no_flag_gives_default(args: Seq<Vec<u8>>, upto: int)
    requires
        0 <= upto <= args.len(),
        forall|i: int| 1 <= i < upto ==> #[trigger] args[i]@ != port_flag(),
    ensures
        spec_port_upto(args, upto) == DEFAULT_PORT,
    decreases upto,
{
    if upto > 1 {
        no_flag_gives_default(args, upto - 1);
    }
}

} // verus!
