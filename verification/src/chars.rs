//! Character classes and digit/string conversions shared by the whole
//! library: ASCII digits, decimal and hexadecimal rendering of integers.

use vstd::prelude::*;

verus! {

/// An ASCII decimal digit: the only characters the sanitizer keeps.
pub open spec fn is_digit_char(c: char) -> bool {
    '0' <= c && c <= '9'
}

/// The digits of a string in their original order: what sanitizing leaves.
pub open spec fn filter_digits(s: Seq<char>) -> Seq<char>
    decreases s.len(),
{
    if s.len() == 0 {
        Seq::empty()
    } else {
        let rest = filter_digits(s.drop_last());
        if is_digit_char(s.last()) {
            rest.push(s.last())
        } else {
            rest
        }
    }
}

/// Every character of the sequence is an ASCII digit.
pub open spec fn all_digits(s: Seq<char>) -> bool {
    forall|i: int| 0 <= i < s.len() ==> is_digit_char(#[trigger] s[i])
}

/// Numeric value of an ASCII digit character.
pub open spec fn digit_val(c: char) -> int {
    c as u32 - '0' as u32
}

/// The ASCII digit character for a value below ten.
pub open spec fn digit_char(d: int) -> char {
    if d == 0 {
        '0'
    } else if d == 1 {
        '1'
    } else if d == 2 {
        '2'
    } else if d == 3 {
        '3'
    } else if d == 4 {
        '4'
    } else if d == 5 {
        '5'
    } else if d == 6 {
        '6'
    } else if d == 7 {
        '7'
    } else if d == 8 {
        '8'
    } else {
        '9'
    }
}

/// The decimal digit characters of a natural number, most significant first,
/// without leading zeros (a single `'0'` for zero itself).
pub open spec fn dec_chars(n: nat) -> Seq<char>
    decreases n,
{
    if n < 10 {
        seq![digit_char(n as int)]
    } else {
        dec_chars(n / 10).push(digit_char((n % 10) as int))
    }
}

/// Decimal rendering zero-padded on the left to at least two characters:
/// the form every TLV length prefix takes.
pub open spec fn len2_chars(n: nat) -> Seq<char> {
    if n < 10 {
        seq!['0', digit_char(n as int)]
    } else {
        dec_chars(n)
    }
}

/// The numeric value of a digit character names that character.
pub proof fn lemma_digit_char_val(c: char)
    requires
        is_digit_char(c),
    ensures
        digit_char(digit_val(c)) == c,
        0 <= digit_val(c) < 10,
{
}

/// Sanitizing leaves only ASCII digits behind.
pub proof fn lemma_filter_digits_all_digits(s: Seq<char>)
    ensures
        all_digits(filter_digits(s)),
    decreases s.len(),
{
    if s.len() > 0 {
        lemma_filter_digits_all_digits(s.drop_last());
    }
}

/// An uppercase hexadecimal digit character.
pub open spec fn is_upper_hex_char(c: char) -> bool {
    is_digit_char(c) || ('A' <= c && c <= 'F')
}

/// The uppercase hexadecimal character for a value below sixteen.
pub open spec fn hex_char(d: int) -> char {
    if d < 10 {
        digit_char(d)
    } else if d == 10 {
        'A'
    } else if d == 11 {
        'B'
    } else if d == 12 {
        'C'
    } else if d == 13 {
        'D'
    } else if d == 14 {
        'E'
    } else {
        'F'
    }
}

/// The four zero-padded uppercase hex digits of a 16-bit checksum.
pub open spec fn crc_hex_chars(c: u16) -> Seq<char> {
    seq![
        hex_char(c as int / 4096),
        hex_char((c as int / 256) % 16),
        hex_char((c as int / 16) % 16),
        hex_char(c as int % 16),
    ]
}

/// Hexadecimal rendering uses digits and the uppercase letters A to F only.
pub proof fn lemma_hex_char_upper_hex(d: int)
    requires
        0 <= d < 16,
    ensures
        is_upper_hex_char(hex_char(d)),
{
}

/// One-character string slice holding an ASCII digit.
pub fn digit_str(d: u8) -> (r: &'static str)
    requires
        d < 10,
    ensures
        r@ =~= seq![digit_char(d as int)],
{
    proof {
        reveal_strlit("0");
        reveal_strlit("1");
        reveal_strlit("2");
        reveal_strlit("3");
        reveal_strlit("4");
        reveal_strlit("5");
        reveal_strlit("6");
        reveal_strlit("7");
        reveal_strlit("8");
        reveal_strlit("9");
    }
    if d == 0 {
        "0"
    } else if d == 1 {
        "1"
    } else if d == 2 {
        "2"
    } else if d == 3 {
        "3"
    } else if d == 4 {
        "4"
    } else if d == 5 {
        "5"
    } else if d == 6 {
        "6"
    } else if d == 7 {
        "7"
    } else if d == 8 {
        "8"
    } else {
        "9"
    }
}

/// One-character string slice holding an uppercase hex digit.
pub fn hex_str(d: u8) -> (r: &'static str)
    requires
        d < 16,
    ensures
        r@ =~= seq![hex_char(d as int)],
{
    if d < 10 {
        digit_str(d)
    } else {
        proof {
            reveal_strlit("A");
            reveal_strlit("B");
            reveal_strlit("C");
            reveal_strlit("D");
            reveal_strlit("E");
            reveal_strlit("F");
        }
        if d == 10 {
            "A"
        } else if d == 11 {
            "B"
        } else if d == 12 {
            "C"
        } else if d == 13 {
            "D"
        } else if d == 14 {
            "E"
        } else {
            "F"
        }
    }
}

/// Appends the decimal rendering of `n` to `s`.
pub fn push_decimal(s: &mut String, n: u64)
    ensures
        final(s)@ == old(s)@ + dec_chars(n as nat),
    decreases n,
{
    if n < 10 {
        s.append(digit_str(n as u8));
    } else {
        push_decimal(s, n / 10);
        s.append(digit_str((n % 10) as u8));
        proof {
            assert(dec_chars(n as nat) =~= dec_chars((n / 10) as nat) + seq![
                digit_char((n % 10) as int),
            ]);
            assert(s@ =~= old(s)@ + dec_chars(n as nat));
        }
    }
}

/// Appends the decimal rendering of `n` zero-padded to at least two digits,
/// as every TLV length prefix is written.
pub fn push_len2(s: &mut String, n: u64)
    ensures
        final(s)@ == old(s)@ + len2_chars(n as nat),
{
    if n < 10 {
        proof {
            reveal_strlit("0");
        }
        s.append("0");
        s.append(digit_str(n as u8));
        proof {
            assert(len2_chars(n as nat) =~= seq!['0', digit_char(n as int)]);
            assert(s@ =~= old(s)@ + len2_chars(n as nat));
        }
    } else {
        push_decimal(s, n);
    }
}

/// Appends the four-digit uppercase hex rendering of a 16-bit checksum.
pub fn push_crc_hex(s: &mut String, c: u16)
    ensures
        final(s)@ == old(s)@ + crc_hex_chars(c),
{
    proof {
        assert(c / 4096 < 16);
        assert((c / 256) % 16 < 16);
        assert((c / 16) % 16 < 16);
        assert(c % 16 < 16);
    }
    s.append(hex_str((c / 4096) as u8));
    s.append(hex_str(((c / 256) % 16) as u8));
    s.append(hex_str(((c / 16) % 16) as u8));
    s.append(hex_str((c % 16) as u8));
    proof {
        assert(s@ =~= old(s)@ + crc_hex_chars(c));
    }
}

} // verus!
