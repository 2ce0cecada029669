//! Identifier sanitizing and PromptPay normalization of recipient
//! identifiers.

use vstd::prelude::*;
use crate::chars::{all_digits, digit_str, filter_digits, lemma_digit_char_val};

verus! {

/// A run of `n` zero characters: the left padding of short identifiers.
pub open spec fn zeros(n: nat) -> Seq<char> {
    Seq::new(n, |i: int| '0')
}

/// Left-pads with zeros to thirteen characters; a string already that long
/// is returned unchanged.
pub open spec fn pad13(s: Seq<char>) -> Seq<char> {
    if s.len() >= 13 {
        s
    } else {
        zeros((13 - s.len()) as nat) + s
    }
}

/// Replaces one leading `'0'` with the Thai country code `"66"`; a string
/// that does not start with `'0'` is returned unchanged.
pub open spec fn replace_leading_zero(s: Seq<char>) -> Seq<char> {
    if s.len() > 0 && s[0] == '0' {
        seq!['6', '6'] + s.subrange(1, s.len() as int)
    } else {
        s
    }
}

/// The PromptPay normal form of a sanitized identifier: thirteen digits and
/// longer pass through; shorter ones get the country-code substitution and
/// the zero padding.
pub open spec fn format_target_spec(s: Seq<char>) -> Seq<char> {
    if s.len() >= 13 {
        s
    } else {
        pad13(replace_leading_zero(s))
    }
}

/// Law: normalization never shortens an identifier. Thirteen characters and
/// longer pass through at their own length; anything shorter comes out at
/// exactly thirteen.
pub proof fn lemma_format_target_len(s: Seq<char>)
    ensures
        s.len() >= 13 ==> format_target_spec(s).len() == s.len(),
        s.len() < 13 ==> format_target_spec(s).len() == 13,
{
}

/// Removes every character that is not an ASCII digit, keeping the digits
/// in their original order.
pub fn sanitize_target(id: &str) -> (r: String)
    ensures
        r@ == filter_digits(id@),
{
    let n = id.unicode_len();
    let mut out = String::new();
    let mut i: usize = 0;
    while i < n
        invariant
            n == id@.len(),
            0 <= i <= n,
            out@ == filter_digits(id@.take(i as int)),
        decreases n - i,
    {
        let c = id.get_char(i);
        let u = c as u32;
        if 48 <= u && u <= 57 {
            proof {
                lemma_digit_char_val(c);
            }
            out.append(digit_str((u - 48) as u8));
        }
        proof {
            assert(id@.take(i + 1).drop_last() =~= id@.take(i as int));
            assert(id@.take(i + 1).last() == id@[i as int]);
        }
        i = i + 1;
    }
    proof {
        assert(id@.take(n as int) =~= id@);
    }
    out
}

/// Normalizes a sanitized identifier for the merchant account field:
/// thirteen or more digits pass through; otherwise a leading `'0'` becomes
/// `"66"` and the result is zero-padded on the left to thirteen digits.
pub fn format_target(id: &str) -> (r: String)
    requires
        all_digits(id@),
    ensures
        r@ == format_target_spec(id@),
{
    let n = id.unicode_len();
    if n >= 13 {
        return id.to_owned();
    }
    let mut body = String::new();
    let zero = id.unicode_len() > 0 && id.get_char(0) as u32 == 48;
    if zero {
        proof {
            reveal_strlit("66");
            assert(id@[0] == '0');
            assert("66"@ =~= seq!['6', '6']);
        }
        body.append("66");
        body.append(id.substring_char(1, n));
        proof {
            assert(body@ =~= replace_leading_zero(id@));
        }
    } else {
        proof {
            assert(id@.len() > 0 ==> id@[0] as u32 != 48);
        }
        body.append(id);
        proof {
            assert(body@ =~= replace_leading_zero(id@));
        }
    }
    let m = body.unicode_len();
    if m >= 13 {
        return body;
    }
    let mut out = String::new();
    let mut k: usize = 0;
    while k < 13 - m
        invariant
            m == body@.len(),
            m < 13,
            0 <= k <= 13 - m,
            out@ == zeros(k as nat),
        decreases 13 - m - k,
    {
        proof {
            reveal_strlit("0");
        }
        out.append("0");
        proof {
            assert(out@ =~= zeros((k + 1) as nat));
        }
        k = k + 1;
    }
    out.append(body.as_str());
    proof {
        assert(out@ =~= pad13(body@));
    }
    out
}

} // verus!
