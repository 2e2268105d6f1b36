use vstd::prelude::*;
use vstd::string::{StrSliceExecFns, StringExecFns};

verus! {

/// An upper-case hexadecimal digit.
pub open spec fn hex_digit(n: int) -> char {
    if n < 10 {
        ('0' as int + n) as char
    } else {
        ('A' as int + n - 10) as char
    }
}

/// A byte written as `0x` and two upper-case hexadecimal digits.
pub open spec fn hex_byte_text(b: u8) -> Seq<char> {
    seq!['0', 'x', hex_digit(b as int / 16), hex_digit(b as int % 16)]
}

/// A 16-bit value written as `0x` and four upper-case hexadecimal digits.
pub open spec fn hex_word_text(w: u16) -> Seq<char> {
    seq![
        '0',
        'x',
        hex_digit(w as int / 4096),
        hex_digit((w as int / 256) % 16),
        hex_digit((w as int / 16) % 16),
        hex_digit(w as int % 16),
    ]
}

/// A decimal digit.
pub open spec fn dec_digit(n: int) -> char {
    ('0' as int + n) as char
}

/// A natural number in decimal, without leading zeros.
pub open spec fn dec_text(n: nat) -> Seq<char>
    decreases n,
{
    if n < 10 {
        seq![dec_digit(n as int)]
    } else {
        dec_text(n / 10) + seq![dec_digit((n % 10) as int)]
    }
}

/// A signed byte in decimal, with a minus sign when negative.
pub open spec fn i8_text(v: i8) -> Seq<char> {
    if v < 0 {
        seq!['-'] + dec_text((-v) as nat)
    } else {
        dec_text(v as nat)
    }
}

/// The upper-case hexadecimal digit of `d`, as a one-character string.
fn hex_digit_str(d: u8) -> (r: &'static str)
    requires
        d < 16,
    ensures
        r@ == seq![hex_digit(d as int)],
{
    match d {
        0 => {
            proof {
                reveal_strlit("0");
            }
            "0"
        },
        1 => {
            proof {
                reveal_strlit("1");
            }
            "1"
        },
        2 => {
            proof {
                reveal_strlit("2");
            }
            "2"
        },
        3 => {
            proof {
                reveal_strlit("3");
            }
            "3"
        },
        4 => {
            proof {
                reveal_strlit("4");
            }
            "4"
        },
        5 => {
            proof {
                reveal_strlit("5");
            }
            "5"
        },
        6 => {
            proof {
                reveal_strlit("6");
            }
            "6"
        },
        7 => {
            proof {
                reveal_strlit("7");
            }
            "7"
        },
        8 => {
            proof {
                reveal_strlit("8");
            }
            "8"
        },
        9 => {
            proof {
                reveal_strlit("9");
            }
            "9"
        },
        10 => {
            proof {
                reveal_strlit("A");
            }
            "A"
        },
        11 => {
            proof {
                reveal_strlit("B");
            }
            "B"
        },
        12 => {
            proof {
                reveal_strlit("C");
            }
            "C"
        },
        13 => {
            proof {
                reveal_strlit("D");
            }
            "D"
        },
        14 => {
            proof {
                reveal_strlit("E");
            }
            "E"
        },
        _ => {
            proof {
                reveal_strlit("F");
            }
            "F"
        },
    }
}

/// The decimal digit of `d`, as a one-character string.
fn dec_digit_str(d: u8) -> (r: &'static str)
    requires
        d < 10,
    ensures
        r@ == seq![dec_digit(d as int)],
{
    hex_digit_str(d)
}

/// Appends a byte as `0x` and two upper-case hexadecimal digits.
pub fn push_hex_byte(s: &mut String, b: u8)
    ensures
        final(s)@ == old(s)@ + hex_byte_text(b),
{
    proof {
        reveal_strlit("0x");
    }
    s.append("0x");
    s.append(hex_digit_str(b / 16));
    s.append(hex_digit_str(b % 16));
    assert(final(s)@ =~= old(s)@ + hex_byte_text(b));
}

/// Appends a 16-bit value as `0x` and four upper-case hexadecimal digits.
pub fn push_hex_word(s: &mut String, w: u16)
    ensures
        final(s)@ == old(s)@ + hex_word_text(w),
{
    proof {
        reveal_strlit("0x");
    }
    s.append("0x");
    s.append(hex_digit_str((w / 4096) as u8));
    s.append(hex_digit_str(((w / 256) % 16) as u8));
    s.append(hex_digit_str(((w / 16) % 16) as u8));
    s.append(hex_digit_str((w % 16) as u8));
    assert(final(s)@ =~= old(s)@ + hex_word_text(w));
}

/// Appends a signed byte in decimal.
pub fn push_i8(s: &mut String, v: i8)
    ensures
        final(s)@ == old(s)@ + i8_text(v),
{
    let n: u8 = if v < 0 {
        proof {
            reveal_strlit("-");
        }
        s.append("-");
        if v == -128 {
            128
        } else {
            (-v) as u8
        }
    } else {
        v as u8
    };
    let ghost mid = s@;
    if n >= 100 {
        s.append(dec_digit_str(n / 100));
    }
    if n >= 10 {
        s.append(dec_digit_str((n / 10) % 10));
    }
    s.append(dec_digit_str(n % 10));
    proof {
        reveal_with_fuel(dec_text, 3);
        if n >= 100 {
            assert(dec_text(n as nat) =~= dec_text((n / 10) as nat) + seq![dec_digit((n % 10) as int)]);
            assert(dec_text((n / 10) as nat) =~= seq![dec_digit((n / 100) as int), dec_digit(((n / 10) % 10) as int)]);
        }
        assert(s@ =~= mid + dec_text(n as nat));
        assert(final(s)@ =~= old(s)@ + i8_text(v));
    }
}

/// The prefix, then the byte as `0x` and two upper-case hexadecimal digits.
pub fn prefixed_hex_byte(prefix: &str, byte: u8) -> (r: String)
    ensures
        r@ == prefix@ + hex_byte_text(byte),
{
    let mut s = String::from_str(prefix);
    push_hex_byte(&mut s, byte);
    s
}

} // verus!

verus! {

/// Drops leading NUL characters.
pub open spec fn trim_start_nul(s: Seq<char>) -> Seq<char>
    decreases s.len(),
{
    if s.len() > 0 && s[0] == '\0' {
        trim_start_nul(s.drop_first())
    } else {
        s
    }
}

/// Drops trailing NUL characters.
pub open spec fn trim_end_nul(s: Seq<char>) -> Seq<char>
    decreases s.len(),
{
    if s.len() > 0 && s.last() == '\0' {
        trim_end_nul(s.drop_last())
    } else {
        s
    }
}

/// `String::from_utf8`: the string when the bytes are valid UTF-8 (std's
/// documented contract), otherwise nothing.
#[verifier::external_body]
pub(crate) fn utf8_string(bytes: Vec<u8>) -> (r: Option<String>)
    ensures
        r is Some <==> vstd::utf8::valid_utf8(bytes@),
        r matches Some(s) ==> s@ == vstd::utf8::decode_utf8(bytes@),
{
    match String::from_utf8(bytes) {
        Ok(s) => Some(s),
        Err(_) => None,
    }
}

/// The string without NUL characters at either end.
pub fn trim_nul(s: &str) -> (r: String)
    ensures
        r@ == trim_end_nul(trim_start_nul(s@)),
{
    let n = s.unicode_len();
    let mut lo: usize = 0;
    assert(s@.subrange(0, n as int) =~= s@);
    while lo < n && s.get_char(lo) == '\0'
        invariant
            lo <= n,
            n == s@.len(),
            trim_start_nul(s@) == trim_start_nul(s@.subrange(lo as int, n as int)),
        decreases n - lo,
    {
        proof {
            assert(s@.subrange(lo as int, n as int).drop_first() =~= s@.subrange(lo + 1, n as int));
        }
        lo = lo + 1;
    }
    proof {
        if lo < n {
            assert(s@.subrange(lo as int, n as int)[0] == s@[lo as int]);
        } else {
            assert(s@.subrange(lo as int, n as int).len() == 0);
        }
    }
    let mut hi: usize = n;
    while hi > lo && s.get_char(hi - 1) == '\0'
        invariant
            lo <= hi <= n,
            n == s@.len(),
            trim_end_nul(s@.subrange(lo as int, n as int)) == trim_end_nul(s@.subrange(lo as int, hi as int)),
        decreases hi - lo,
    {
        proof {
            assert(s@.subrange(lo as int, hi as int).drop_last() =~= s@.subrange(lo as int, hi - 1));
        }
        hi = hi - 1;
    }
    proof {
        if hi > lo {
            assert(s@.subrange(lo as int, hi as int).last() == s@[hi - 1]);
        }
    }
    let t = s.substring_char(lo, hi);
    String::from_str(t)
}

} // verus!
