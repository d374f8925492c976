//! Decimal rendering and JSON string escaping, over bytes and over text.
//!
//! Both wire formats of the pipeline need exact text: the JSON payload
//! renders numbers and escapes configuration strings, and the configuration
//! errors print pin numbers.  Everything here is specified to the byte or
//! character.

use vstd::prelude::*;
use vstd::string::StringExecFns;

verus! {

/// Decimal digits of `n` as ASCII bytes, most significant first.
pub open spec fn dec_digits(n: nat) -> Seq<u8>
    decreases n,
{
    if n < 10 {
        seq![(48 + n) as u8]
    } else {
        dec_digits(n / 10) + seq![(48 + n % 10) as u8]
    }
}

/// Decimal digits of `n` as characters, most significant first.
pub open spec fn dec_chars(n: nat) -> Seq<char>
    decreases n,
{
    if n < 10 {
        seq![digit_char(n)]
    } else {
        dec_chars(n / 10) + seq![digit_char(n % 10)]
    }
}

/// The character of one decimal digit.
pub open spec fn digit_char(d: nat) -> char {
    if d == 0 {
        '0'
    } else if d == 1 {
        '1'
    } else if d == 2 {
        '2'
    } else if d == 3 {
        '3'
    } else if d == 4 {
        '4'
    } else if d == 5 {
        '5'
    } else if d == 6 {
        '6'
    } else if d == 7 {
        '7'
    } else if d == 8 {
        '8'
    } else {
        '9'
    }
}

/// Decimal rendering of a signed value: a minus sign before the digits of
/// the magnitude.
pub open spec fn dec_chars_i64(n: int) -> Seq<char> {
    if n >= 0 {
        dec_chars(n as nat)
    } else {
        seq!['-'] + dec_chars((-n) as nat)
    }
}

/// Append the decimal digits of `n` to `out`.
pub fn push_decimal_u64(out: &mut Vec<u8>, n: u64)
    ensures
        final(out)@ == old(out)@ + dec_digits(n as nat),
    decreases n,
{
    if n < 10 {
        out.push(48 + (n as u8));
    } else {
        push_decimal_u64(out, n / 10);
        out.push(48 + ((n % 10) as u8));
    }
    proof {
        assert(out@ =~= old(out)@ + dec_digits(n as nat));
    }
}

/// The string of one decimal digit.
pub fn digit_str(d: u64) -> (r: &'static str)
    requires
        d < 10,
    ensures
        r@ == seq![digit_char(d as nat)],
{
    let r: &'static str = if d == 0 {
        "0"
    } else if d == 1 {
        "1"
    } else if d == 2 {
        "2"
    } else if d == 3 {
        "3"
    } else if d == 4 {
        "4"
    } else if d == 5 {
        "5"
    } else if d == 6 {
        "6"
    } else if d == 7 {
        "7"
    } else if d == 8 {
        "8"
    } else {
        "9"
    };
    proof {
        reveal_strlit("0");
        reveal_strlit("1");
        reveal_strlit("2");
        reveal_strlit("3");
        reveal_strlit("4");
        reveal_strlit("5");
        reveal_strlit("6");
        reveal_strlit("7");
        reveal_strlit("8");
        reveal_strlit("9");
        assert(r@ =~= seq![digit_char(d as nat)]);
    }
    r
}

/// The decimal rendering of `n` as a string.
pub fn u64_string(n: u64) -> (r: String)
    ensures
        r@ == dec_chars(n as nat),
    decreases n,
{
    if n < 10 {
        String::from_str(digit_str(n))
    } else {
        let mut s = u64_string(n / 10);
        s.append(digit_str(n % 10));
        proof {
            assert(s@ =~= dec_chars(n as nat));
        }
        s
    }
}

/// The decimal rendering of a signed value as a string.
pub fn i64_string(n: i64) -> (r: String)
    ensures
        r@ == dec_chars_i64(n as int),
{
    if n >= 0 {
        u64_string(n as u64)
    } else {
        // The magnitude of i64::MIN does not fit an i64, so step through
        // `-(n + 1) + 1` in u64 arithmetic.
        let mag: u64 = ((-(n + 1)) as u64) + 1;
        let mut s = String::from_str("-");
        let d = u64_string(mag);
        s.append(d.as_str());
        proof {
            reveal_strlit("-");
            assert(s@ =~= dec_chars_i64(n as int));
        }
        s
    }
}

/// The lowercase hex digit of `d`.
pub open spec fn spec_hex_digit(d: u8) -> u8 {
    if d < 10 {
        (48 + d) as u8
    } else {
        (87 + d) as u8
    }
}

/// The lowercase hex digit of `d`.
pub fn hex_digit(d: u8) -> (r: u8)
    requires
        d < 16,
    ensures
        r == spec_hex_digit(d),
{
    if d < 10 {
        48 + d
    } else {
        87 + d
    }
}

/// The JSON escape of one byte of a string, as the compact JSON encoders
/// write it: quote and backslash escaped, the named control escapes for
/// backspace, tab, newline, form feed and carriage return, `\u00XX` for the
/// other control bytes, and every other byte as itself.
pub open spec fn escape_byte(b: u8) -> Seq<u8> {
    if b == 34 {
        seq![92u8, 34u8]
    } else if b == 92 {
        seq![92u8, 92u8]
    } else if b == 8 {
        seq![92u8, 98u8]
    } else if b == 9 {
        seq![92u8, 116u8]
    } else if b == 10 {
        seq![92u8, 110u8]
    } else if b == 12 {
        seq![92u8, 102u8]
    } else if b == 13 {
        seq![92u8, 114u8]
    } else if b < 32 {
        seq![92u8, 117u8, 48u8, 48u8, spec_hex_digit(b / 16), spec_hex_digit(b % 16)]
    } else {
        seq![b]
    }
}

/// The JSON escape of a byte string.
pub open spec fn json_escape(bs: Seq<u8>) -> Seq<u8>
    decreases bs.len(),
{
    if bs.len() == 0 {
        Seq::empty()
    } else {
        json_escape(bs.drop_last()) + escape_byte(bs.last())
    }
}

/// Append the JSON escape of `bs` to `out`.
pub fn push_json_escaped(out: &mut Vec<u8>, bs: &[u8])
    ensures
        final(out)@ == old(out)@ + json_escape(bs@),
{
    let n = bs.len();
    let mut i: usize = 0;
    while i < n
        invariant
            n == bs@.len(),
            i <= n,
            out@ == old(out)@ + json_escape(bs@.take(i as int)),
        decreases n - i,
    {
        let b = bs[i];
        if b == 34 {
            out.push(92);
            out.push(34);
        } else if b == 92 {
            out.push(92);
            out.push(92);
        } else if b == 8 {
            out.push(92);
            out.push(98);
        } else if b == 9 {
            out.push(92);
            out.push(116);
        } else if b == 10 {
            out.push(92);
            out.push(110);
        } else if b == 12 {
            out.push(92);
            out.push(102);
        } else if b == 13 {
            out.push(92);
            out.push(114);
        } else if b < 32 {
            out.push(92);
            out.push(117);
            out.push(48);
            out.push(48);
            out.push(hex_digit(b / 16));
            out.push(hex_digit(b % 16));
        } else {
            out.push(b);
        }
        proof {
            assert(bs@.take(i as int + 1).drop_last() =~= bs@.take(i as int));
            assert(bs@.take(i as int + 1).last() == bs@[i as int]);
            assert(out@ =~= old(out)@ + json_escape(bs@.take(i as int + 1)));
        }
        i += 1;
    }
    proof {
        assert(bs@.take(n as int) =~= bs@);
    }
}

} // verus!
