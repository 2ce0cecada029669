//! Stand-alone validation of recipient identifiers and amounts: the Thai
//! mobile pattern, the 13-digit tax-ID checksum, the e-wallet length range
//! and the amount bounds, plus the strict pattern-based classifier built
//! from them.

use vstd::prelude::*;
use crate::chars::{
    all_digits, digit_val, filter_digits, is_digit_char, lemma_filter_digits_all_digits,
};
use crate::error::PromptPayError;
use crate::text::{is_blank, str_is_blank};
use crate::utils::sanitize_target;

verus! {

/// A digit that may follow the country or trunk prefix of a Thai mobile
/// number: `6`, `8` or `9`.
pub open spec fn is_mobile_class_digit(c: char) -> bool {
    c == '6' || c == '8' || c == '9'
}

/// The cleaned form a phone number is validated in: digits only, and a
/// ten-digit number starting with `'0'` rewritten to the international
/// `"66"` prefix.
pub open spec fn sanitize_phone_spec(s: Seq<char>) -> Seq<char> {
    let d = filter_digits(s);
    if d.len() == 10 && d[0] == '0' {
        seq!['6', '6'] + d.subrange(1, 10)
    } else {
        d
    }
}

/// The shape of a valid Thai mobile number after cleaning: `0`, then `6`,
/// `8` or `9`, then eight digits; or `66`, then `6`, `8` or `9`, then eight
/// digits.
pub open spec fn matches_thai_phone(s: Seq<char>) -> bool {
    ||| (s.len() == 10 && s[0] == '0' && is_mobile_class_digit(s[1]) && (forall|i: int|
        2 <= i < 10 ==> is_digit_char(#[trigger] s[i])))
    ||| (s.len() == 11 && s[0] == '6' && s[1] == '6' && is_mobile_class_digit(s[2]) && (forall|
        i: int,
    |
        3 <= i < 11 ==> is_digit_char(#[trigger] s[i])))
}

/// The weighted sum of the first `n` digits of a tax ID: digit at position
/// `i` carries weight `13 - i`.
pub open spec fn tax_sum_prefix(s: Seq<char>, n: int) -> int
    decreases n,
{
    if n <= 0 {
        0
    } else {
        tax_sum_prefix(s, n - 1) + digit_val(s[n - 1]) * (13 - (n - 1))
    }
}

/// The check digit the first twelve digits of a tax ID demand.
pub open spec fn tax_checksum(s: Seq<char>) -> int {
    (11 - (tax_sum_prefix(s, 12) % 11)) % 10
}

/// A valid tax ID: exactly thirteen digits after cleaning, the last one
/// equal to the weighted checksum of the first twelve.
pub open spec fn is_valid_tax_id_spec(s: Seq<char>) -> bool {
    let d = filter_digits(s);
    d.len() == 13 && digit_val(d[12]) == tax_checksum(d)
}

/// A valid e-wallet ID: thirteen to fifteen digits after cleaning.
pub open spec fn is_valid_ewallet_id_spec(s: Seq<char>) -> bool {
    13 <= filter_digits(s).len() <= 15
}

/// The strict, pattern-based classification: mobile pattern first, then
/// tax-ID checksum, then e-wallet length range, otherwise unknown.
pub open spec fn strict_classify_spec(s: Seq<char>) -> MerchantType {
    if matches_thai_phone(sanitize_phone_spec(s)) {
        MerchantType::Phone
    } else if is_valid_tax_id_spec(s) {
        MerchantType::TaxId
    } else if is_valid_ewallet_id_spec(s) {
        MerchantType::EWallet
    } else {
        MerchantType::Unknown
    }
}

/// Merchant-identifier type as the strict validator reports it; `Unknown`
/// marks an identifier that matches no accepted shape.
#[derive(Debug, Clone, PartialEq, Eq, Structural)]
pub enum MerchantType {
    Phone,
    TaxId,
    EWallet,
    Unknown,
}

/// The display name of a strict merchant type.
pub open spec fn merchant_type_name(t: MerchantType) -> Seq<char> {
    match t {
        MerchantType::Phone => "Phone"@,
        MerchantType::TaxId => "Tax ID"@,
        MerchantType::EWallet => "E-Wallet"@,
        MerchantType::Unknown => "Unknown"@,
    }
}

impl MerchantType {
    /// The display name of the type.
    pub fn to_string(&self) -> (r: String)
        ensures
            r@ == merchant_type_name(*self),
    {
        match self {
            MerchantType::Phone => String::from_str("Phone"),
            MerchantType::TaxId => String::from_str("Tax ID"),
            MerchantType::EWallet => String::from_str("E-Wallet"),
            MerchantType::Unknown => String::from_str("Unknown"),
        }
    }
}

/// The stand-alone input checks.
pub struct Validator;

impl Validator {
    /// Removes every character that is not an ASCII digit.
    pub fn sanitize_numbers(input: &str) -> (r: String)
        ensures
            r@ == filter_digits(input@),
    {
        sanitize_target(input)
    }

    /// Cleans a phone number: keeps the digits, and rewrites a ten-digit
    /// number starting with `'0'` to the international `"66"` prefix.
    pub fn sanitize_phone(phone: &str) -> (r: String)
        ensures
            r@ == sanitize_phone_spec(phone@),
    {
        let cleaned = Self::sanitize_numbers(phone);
        let n = cleaned.as_str().unicode_len();
        if n == 10 && cleaned.as_str().get_char(0) as u32 == 48 {
            let mut out = String::new();
            proof {
                reveal_strlit("66");
                assert("66"@ =~= seq!['6', '6']);
                assert(filter_digits(phone@)[0] == '0');
            }
            out.append("66");
            out.append(cleaned.as_str().substring_char(1, 10));
            proof {
                assert(out@ =~= sanitize_phone_spec(phone@));
            }
            out
        } else {
            proof {
                assert(cleaned@ =~= sanitize_phone_spec(phone@));
            }
            cleaned
        }
    }

    /// Whether the input is a valid Thai mobile number: after cleaning it
    /// matches `0[689]` or `66[689]` followed by eight digits.
    pub fn is_valid_thai_phone(phone: &str) -> (r: bool)
        ensures
            r == matches_thai_phone(sanitize_phone_spec(phone@)),
    {
        let clean = Self::sanitize_phone(phone);
        let s = clean.as_str();
        let n = s.unicode_len();
        proof {
            lemma_filter_digits_all_digits(phone@);
            assert(all_digits(clean@));
        }
        if n == 10 {
            let c0 = s.get_char(0) as u32;
            let c1 = s.get_char(1) as u32;
            c0 == 48 && (c1 == 54 || c1 == 56 || c1 == 57)
        } else if n == 11 {
            let c0 = s.get_char(0) as u32;
            let c1 = s.get_char(1) as u32;
            let c2 = s.get_char(2) as u32;
            c0 == 54 && c1 == 54 && (c2 == 54 || c2 == 56 || c2 == 57)
        } else {
            false
        }
    }

    /// Whether the input is a valid tax ID: exactly thirteen digits after
    /// cleaning, the thirteenth equal to the weighted checksum over the
    /// first twelve (weights 13 down to 2, `(11 - sum mod 11) mod 10`).
    pub fn is_valid_tax_id(tax_id: &str) -> (r: bool)
        ensures
            r == is_valid_tax_id_spec(tax_id@),
    {
        let clean = Self::sanitize_numbers(tax_id);
        let s = clean.as_str();
        if s.unicode_len() != 13 {
            return false;
        }
        proof {
            lemma_filter_digits_all_digits(tax_id@);
        }
        let mut sum: u32 = 0;
        let mut i: usize = 0;
        while i < 12
            invariant
                clean@ == filter_digits(tax_id@),
                all_digits(clean@),
                clean@.len() == 13,
                s@ == clean@,
                0 <= i <= 12,
                sum == tax_sum_prefix(clean@, i as int),
                sum <= 117 * i,
            decreases 12 - i,
        {
            let c = s.get_char(i);
            proof {
                assert(is_digit_char(clean@[i as int]));
                assert(48 <= c as u32 <= 57);
            }
            let d = c as u32 - 48;
            let weight = 13 - i as u32;
            proof {
                assert(d * weight <= 117) by (nonlinear_arith)
                    requires
                        d <= 9,
                        weight <= 13,
                ;
                assert(sum + d * weight <= 117 * (i + 1));
            }
            sum = sum + d * weight;
            i = i + 1;
        }
        let checksum = (11 - (sum % 11)) % 10;
        let last = s.get_char(12) as u32;
        proof {
            assert(is_digit_char(clean@[12]));
        }
        checksum == last - 48
    }

    /// Whether the input is a valid e-wallet ID: thirteen to fifteen digits
    /// after cleaning.
    pub fn is_valid_ewallet_id(ewallet_id: &str) -> (r: bool)
        ensures
            r == is_valid_ewallet_id_spec(ewallet_id@),
    {
        let clean = Self::sanitize_numbers(ewallet_id);
        let n = clean.as_str().unicode_len();
        13 <= n && n <= 15
    }

    /// Whether an amount, counted in satang (hundredths of a baht), lies in
    /// the accepted open-closed interval (0, 999,999,999.99] baht.
    pub fn is_valid_amount(satang: i64) -> (r: bool)
        ensures
            r == (0 < satang && satang <= 99_999_999_999i64),
    {
        0 < satang && satang <= 99_999_999_999
    }

    /// Classifies an identifier with the strict pattern matcher: mobile
    /// pattern, then tax-ID checksum, then e-wallet length range; anything
    /// else is `Unknown`.
    pub fn identify_merchant_type(merchant_id: &str) -> (r: MerchantType)
        ensures
            r == strict_classify_spec(merchant_id@),
    {
        if Self::is_valid_thai_phone(merchant_id) {
            MerchantType::Phone
        } else if Self::is_valid_tax_id(merchant_id) {
            MerchantType::TaxId
        } else if Self::is_valid_ewallet_id(merchant_id) {
            MerchantType::EWallet
        } else {
            MerchantType::Unknown
        }
    }

    /// Validates an identifier: a blank input is missing, one the strict
    /// classifier cannot place is invalid, and any other yields its
    /// resolved type.
    pub fn validate_merchant_id(merchant_id: &str) -> (r: Result<
        MerchantType,
        PromptPayError,
    >)
        ensures
            is_blank(merchant_id@) ==> r == Err::<MerchantType, PromptPayError>(
                PromptPayError::MissingMerchantId,
            ),
            !is_blank(merchant_id@) && strict_classify_spec(merchant_id@)
                == MerchantType::Unknown ==> (r matches Err(e) && (e matches
                PromptPayError::InvalidMerchantId(s) && s@ == merchant_id@)),
            !is_blank(merchant_id@) && strict_classify_spec(merchant_id@)
                != MerchantType::Unknown ==> r == Ok::<MerchantType, PromptPayError>(
                strict_classify_spec(merchant_id@),
            ),
    {
        if str_is_blank(merchant_id) {
            return Err(PromptPayError::MissingMerchantId);
        }
        let merchant_type = Self::identify_merchant_type(merchant_id);
        match merchant_type {
            MerchantType::Unknown => Err(PromptPayError::invalid_merchant_id(merchant_id)),
            _ => Ok(merchant_type),
        }
    }
}

} // verus!
