//! Verified text rendering helpers: lowercase hexadecimal and decimal
//! digit strings, used by the display methods of the decoded types.
use vstd::prelude::*;
use vstd::string::StringExecFns;

verus! {

/// The character for one digit value 0..=15, lowercase.
pub open spec fn spec_digit_char(n: int) -> char
    recommends
        0 <= n < 16,
{
    if n == 0 {
        '0'
    } else if n == 1 {
        '1'
    } else if n == 2 {
        '2'
    } else if n == 3 {
        '3'
    } else if n == 4 {
        '4'
    } else if n == 5 {
        '5'
    } else if n == 6 {
        '6'
    } else if n == 7 {
        '7'
    } else if n == 8 {
        '8'
    } else if n == 9 {
        '9'
    } else if n == 10 {
        'a'
    } else if n == 11 {
        'b'
    } else if n == 12 {
        'c'
    } else if n == 13 {
        'd'
    } else if n == 14 {
        'e'
    } else {
        'f'
    }
}

/// Two lowercase hex digits for one byte.
pub open spec fn spec_byte_hex(b: u8) -> Seq<char> {
    seq![spec_digit_char(b as int / 16), spec_digit_char(b as int % 16)]
}

/// The decimal digit string of a nonnegative number, without leading zeros
/// (a single `'0'` for zero).
pub open spec fn spec_dec_chars(n: int) -> Seq<char>
    recommends
        0 <= n,
    decreases n,
{
    if n < 10 {
        seq![spec_digit_char(n)]
    } else {
        spec_dec_chars(n / 10) + seq![spec_digit_char(n % 10)]
    }
}

/// One digit value 0..=15 as a one-character string slice.
pub fn digit_str(n: u8) -> (r: &'static str)
    requires
        n < 16,
    ensures
        r@ == seq![spec_digit_char(n as int)],
{
    proof {
        reveal_strlit("0");
        reveal_strlit("1");
        reveal_strlit("2");
        reveal_strlit("3");
        reveal_strlit("4");
        reveal_strlit("5");
        reveal_strlit("6");
        reveal_strlit("7");
        reveal_strlit("8");
        reveal_strlit("9");
        reveal_strlit("a");
        reveal_strlit("b");
        reveal_strlit("c");
        reveal_strlit("d");
        reveal_strlit("e");
        reveal_strlit("f");
    }
    if n == 0 {
        "0"
    } else if n == 1 {
        "1"
    } else if n == 2 {
        "2"
    } else if n == 3 {
        "3"
    } else if n == 4 {
        "4"
    } else if n == 5 {
        "5"
    } else if n == 6 {
        "6"
    } else if n == 7 {
        "7"
    } else if n == 8 {
        "8"
    } else if n == 9 {
        "9"
    } else if n == 10 {
        "a"
    } else if n == 11 {
        "b"
    } else if n == 12 {
        "c"
    } else if n == 13 {
        "d"
    } else if n == 14 {
        "e"
    } else {
        "f"
    }
}

/// One byte as two lowercase hex digits.
pub fn byte_hex(b: u8) -> (r: String)
    ensures
        r@ == spec_byte_hex(b),
{
    let s = String::from_str(digit_str(b / 16));
    let r = s.concat(digit_str(b % 16));
    proof {
        assert(r@ =~= spec_byte_hex(b));
    }
    r
}

/// The decimal digit string of a 16-bit number.
pub fn dec_u16(n: u16) -> (r: String)
    ensures
        r@ == spec_dec_chars(n as int),
    decreases n,
{
    if n < 10 {
        String::from_str(digit_str(n as u8))
    } else {
        let mut s = dec_u16(n / 10);
        s.append(digit_str((n % 10) as u8));
        proof {
            assert(s@ =~= spec_dec_chars(n as int));
        }
        s
    }
}

/// The decimal digit string of one byte.
pub fn dec_u8(n: u8) -> (r: String)
    ensures
        r@ == spec_dec_chars(n as int),
{
    dec_u16(n as u16)
}

/// The dotted-decimal rendering of a 4-byte IPv4 address.
pub open spec fn spec_ipv4_chars(a: u8, b: u8, c: u8, d: u8) -> Seq<char> {
    spec_dec_chars(a as int) + seq!['.'] + spec_dec_chars(b as int) + seq!['.'] + spec_dec_chars(
        c as int,
    ) + seq!['.'] + spec_dec_chars(d as int)
}

/// A 4-byte IPv4 address as dotted-decimal text.
pub fn ipv4_string(a: u8, b: u8, c: u8, d: u8) -> (r: String)
    ensures
        r@ == spec_ipv4_chars(a, b, c, d),
{
    proof {
        reveal_strlit(".");
    }
    let mut s = dec_u8(a);
    s.append(".");
    s.append(dec_u8(b).as_str());
    s.append(".");
    s.append(dec_u8(c).as_str());
    s.append(".");
    s.append(dec_u8(d).as_str());
    proof {
        assert(s@ =~= spec_ipv4_chars(a, b, c, d));
    }
    s
}

/// The decimal digit string of a machine-word count.
pub fn dec_usize(n: usize) -> (r: String)
    ensures
        r@ == spec_dec_chars(n as int),
    decreases n,
{
    if n < 10 {
        String::from_str(digit_str(n as u8))
    } else {
        let mut s = dec_usize(n / 10);
        s.append(digit_str((n % 10) as u8));
        proof {
            assert(s@ =~= spec_dec_chars(n as int));
        }
        s
    }
}

} // verus!
