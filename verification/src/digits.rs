//! Decimal and hexadecimal rendering of integers, proved against sequence
//! specifications.  These are the building blocks for error messages, clock
//! identities and the nanosecond formatter.

use vstd::prelude::*;

verus! {

/// Compare two string slices by content.
pub fn str_equal(a: &str, b: &str) -> (r: bool)
    ensures
        r == (a@ == b@),
{
    let sa = a.to_owned();
    let sb = b.to_owned();
    sa == sb
}

/// The character for one decimal digit value.
pub open spec fn digit_char(v: int) -> char {
    if v == 0 { '0' }
    else if v == 1 { '1' }
    else if v == 2 { '2' }
    else if v == 3 { '3' }
    else if v == 4 { '4' }
    else if v == 5 { '5' }
    else if v == 6 { '6' }
    else if v == 7 { '7' }
    else if v == 8 { '8' }
    else { '9' }
}

/// Decimal digits of a non-negative value, most significant first, with no
/// leading zeros (a lone `0` for zero).
pub open spec fn spec_udec(v: nat) -> Seq<char>
    decreases v,
{
    if v < 10 {
        seq![digit_char(v as int)]
    } else {
        spec_udec(v / 10).push(digit_char((v % 10) as int))
    }
}

/// Decimal rendering of a signed value: a `-` sign followed by the digits of
/// the magnitude, or just the digits when non-negative.
pub open spec fn spec_idec(v: int) -> Seq<char> {
    if v < 0 {
        seq!['-'] + spec_udec((-v) as nat)
    } else {
        spec_udec(v as nat)
    }
}

/// The character for one hexadecimal digit value, upper case.
pub open spec fn hex_char(v: int) -> char {
    if v < 10 { digit_char(v) }
    else if v == 10 { 'A' }
    else if v == 11 { 'B' }
    else if v == 12 { 'C' }
    else if v == 13 { 'D' }
    else if v == 14 { 'E' }
    else { 'F' }
}

/// Two upper-case hexadecimal digits of a byte.
pub open spec fn spec_hex_byte(b: u8) -> Seq<char> {
    seq![hex_char(b as int / 16), hex_char(b as int % 16)]
}

/// The one-character string for a decimal digit.
fn digit_literal(d: u64) -> (r: &'static str)
    requires
        d < 10,
    ensures
        r@ == seq![digit_char(d as int)],
{
    proof {
        reveal_strlit("0");
        reveal_strlit("1");
        reveal_strlit("2");
        reveal_strlit("3");
        reveal_strlit("4");
        reveal_strlit("5");
        reveal_strlit("6");
        reveal_strlit("7");
        reveal_strlit("8");
        reveal_strlit("9");
    }
    let r: &'static str = match d {
        0 => "0",
        1 => "1",
        2 => "2",
        3 => "3",
        4 => "4",
        5 => "5",
        6 => "6",
        7 => "7",
        8 => "8",
        _ => "9",
    };
    proof {
        assert(r@ =~= seq![digit_char(d as int)]);
    }
    r
}

/// The one-character string for a hexadecimal digit value.
fn hex_literal(d: u8) -> (r: &'static str)
    requires
        d < 16,
    ensures
        r@ == seq![hex_char(d as int)],
{
    if d < 10 {
        digit_literal(d as u64)
    } else {
        proof {
            reveal_strlit("A");
            reveal_strlit("B");
            reveal_strlit("C");
            reveal_strlit("D");
            reveal_strlit("E");
            reveal_strlit("F");
        }
        let r: &'static str = match d {
            10 => "A",
            11 => "B",
            12 => "C",
            13 => "D",
            14 => "E",
            _ => "F",
        };
        proof {
            assert(r@ =~= seq![hex_char(d as int)]);
        }
        r
    }
}

/// Render an unsigned value in decimal.
pub fn u64_to_string(v: u64) -> (r: String)
    ensures
        r@ == spec_udec(v as nat),
    decreases v,
{
    if v < 10 {
        digit_literal(v).to_owned()
    } else {
        let mut s = u64_to_string(v / 10);
        s.append(digit_literal(v % 10));
        proof {
            assert(s@ =~= spec_udec(v as nat));
        }
        s
    }
}

/// Render a signed value in decimal, with a leading `-` when negative.
pub fn i64_to_string(v: i64) -> (r: String)
    ensures
        r@ == spec_idec(v as int),
{
    if v >= 0 {
        u64_to_string(v as u64)
    } else {
        // Compute the magnitude without overflowing at i64::MIN.
        let mag: u64 = (-(v + 1)) as u64 + 1;
        proof {
            assert(mag == -(v as int));
        }
        let mut s = "-".to_owned();
        let digits = u64_to_string(mag);
        s.append(digits.as_str());
        proof {
            reveal_strlit("-");
            assert(s@ =~= spec_idec(v as int));
        }
        s
    }
}

/// Three-digit zero-padded rendering of a value below 1000.
pub open spec fn spec_pad3(r: int) -> Seq<char> {
    if r < 10 {
        seq!['0', '0'] + spec_udec(r as nat)
    } else if r < 100 {
        seq!['0'] + spec_udec(r as nat)
    } else {
        spec_udec(r as nat)
    }
}

/// Append a value below 1000 as exactly three digits, zero-padded.
pub fn append_pad3(out: &mut String, v: u64)
    requires
        v < 1000,
    ensures
        final(out)@ == old(out)@ + spec_pad3(v as int),
{
    let ghost orig = out@;
    if v < 10 {
        out.append("00");
        proof {
            reveal_strlit("00");
            assert("00"@ =~= seq!['0', '0']);
        }
    } else if v < 100 {
        out.append("0");
        proof {
            reveal_strlit("0");
            assert("0"@ =~= seq!['0']);
        }
    }
    let digits = u64_to_string(v);
    out.append(digits.as_str());
    proof {
        assert(out@ =~= orig + spec_pad3(v as int));
    }
}

/// Render a byte as two upper-case hexadecimal digits.
pub fn byte_to_hex(b: u8) -> (r: String)
    ensures
        r@ == spec_hex_byte(b),
{
    let mut s = hex_literal(b / 16).to_owned();
    s.append(hex_literal(b % 16));
    proof {
        assert(s@ =~= spec_hex_byte(b));
    }
    s
}

} // verus!
