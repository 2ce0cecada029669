//! Country, currency and merchant-type codes used in the payload.
//!
//! PromptPay is Thailand-specific, so the only country is Thailand (`"TH"`)
//! and the only currency is the Thai Baht (numeric `"764"`).

use vstd::prelude::*;
use crate::chars::{all_digits, filter_digits};
use crate::text::{eq_icase, trim_spec, str_trim_eq, str_trim_eq_icase};
use crate::utils::sanitize_target;

verus! {

/// Country code according to the ISO 3166-1 alpha-2 standard.
#[derive(Debug, Clone, Copy, PartialEq, Eq, Structural)]
pub enum CountryCode {
    /// Thailand, code `"TH"`.
    Thailand,
}

/// The two-letter code of a country.
pub open spec fn country_chars(c: CountryCode) -> Seq<char> {
    "TH"@
}

impl CountryCode {
    /// Returns the 2-letter country code.
    pub fn as_str(&self) -> (r: &'static str)
        ensures
            r@ == country_chars(*self),
    {
        "TH"
    }

    /// The 2-letter country code as an owned string.
    pub fn to_string(&self) -> (r: String)
        ensures
            r@ == country_chars(*self),
    {
        String::from_str("TH")
    }

    /// Parses a country code, ignoring ASCII case and surrounding
    /// whitespace; both the 2-letter code and the country's name are
    /// accepted.
    pub fn from_str(s: &str) -> (r: Option<Self>)
        ensures
            r == if eq_icase(trim_spec(s@), "TH"@) || eq_icase(trim_spec(s@), "THAILAND"@) {
                Some(CountryCode::Thailand)
            } else {
                Option::<CountryCode>::None
            },
    {
        if str_trim_eq_icase(s, "TH") || str_trim_eq_icase(s, "THAILAND") {
            Some(CountryCode::Thailand)
        } else {
            None
        }
    }
}

/// Currency code according to the ISO 4217 standard.
#[derive(Debug, Clone, Copy, PartialEq, Eq, Structural)]
pub enum CurrencyCode {
    /// Thai Baht, numeric code `"764"`, alphabetic code `"THB"`.
    THB,
}

/// The three-digit numeric code of a currency, as the payload carries it.
pub open spec fn currency_chars(c: CurrencyCode) -> Seq<char> {
    "764"@
}

impl CurrencyCode {
    /// Returns the 3-digit numeric code used in the EMVCo payload.
    pub fn numeric_code(&self) -> (r: &'static str)
        ensures
            r@ == currency_chars(*self),
    {
        "764"
    }

    /// Returns the 3-letter alphabetic code.
    pub fn alphabetic_code(&self) -> (r: &'static str)
        ensures
            r@ == "THB"@,
    {
        "THB"
    }

    /// The 3-digit numeric code as an owned string, the form the payload
    /// carries.
    pub fn to_string(&self) -> (r: String)
        ensures
            r@ == currency_chars(*self),
    {
        String::from_str("764")
    }

    /// Parses a numeric currency code, ignoring surrounding whitespace.
    pub fn from_numeric(s: &str) -> (r: Option<Self>)
        ensures
            r == if trim_spec(s@) == "764"@ {
                Some(CurrencyCode::THB)
            } else {
                Option::<CurrencyCode>::None
            },
    {
        if str_trim_eq(s, "764") {
            Some(CurrencyCode::THB)
        } else {
            None
        }
    }

    /// Parses an alphabetic currency code, ignoring ASCII case and
    /// surrounding whitespace.
    pub fn from_alphabetic(s: &str) -> (r: Option<Self>)
        ensures
            r == if eq_icase(trim_spec(s@), "THB"@) {
                Some(CurrencyCode::THB)
            } else {
                Option::<CurrencyCode>::None
            },
    {
        if str_trim_eq_icase(s, "THB") {
            Some(CurrencyCode::THB)
        } else {
            None
        }
    }
}

/// Type of the merchant identifier, deciding the tag of the merchant
/// account sub-field: `"01"` mobile number, `"02"` tax ID, `"03"` e-wallet
/// ID.
#[derive(Debug, Clone, Copy, PartialEq, Eq, Structural)]
pub enum MerchantType {
    MobileNumber,
    TaxId,
    EWalletId,
}

/// The two-digit tag of a merchant type.
pub open spec fn type_tag_chars(t: MerchantType) -> Seq<char> {
    match t {
        MerchantType::MobileNumber => "01"@,
        MerchantType::TaxId => "02"@,
        MerchantType::EWalletId => "03"@,
    }
}

/// The permissive, length-based classification of a sanitized identifier:
/// fifteen digits or more are an e-wallet ID, thirteen or fourteen a tax
/// ID, anything shorter a mobile number.
pub open spec fn classify_spec(digits: Seq<char>) -> MerchantType {
    if digits.len() >= 15 {
        MerchantType::EWalletId
    } else if digits.len() >= 13 {
        MerchantType::TaxId
    } else {
        MerchantType::MobileNumber
    }
}

impl MerchantType {
    /// Returns the 2-digit tag used in the payload.
    pub fn as_str(&self) -> (r: &'static str)
        ensures
            r@ == type_tag_chars(*self),
    {
        match self {
            MerchantType::MobileNumber => "01",
            MerchantType::TaxId => "02",
            MerchantType::EWalletId => "03",
        }
    }

    /// Infers the merchant type from an identifier by the count of its
    /// digits, sanitizing first; this classification always succeeds.
    pub fn from_merchant_id(id: &str) -> (r: Self)
        ensures
            r == classify_spec(filter_digits(id@)),
    {
        let digits = sanitize_target(id);
        let len = digits.as_str().unicode_len();
        if len >= 15 {
            MerchantType::EWalletId
        } else if len >= 13 {
            MerchantType::TaxId
        } else {
            MerchantType::MobileNumber
        }
    }
}

/// Classification goes by digit count alone: at least fifteen digits are an
/// e-wallet ID, thirteen and fourteen a tax ID, fewer a mobile number.
pub proof fn lemma_length_classification(digits: Seq<char>)
    requires
        all_digits(digits),
    ensures
        digits.len() >= 15 ==> classify_spec(digits) == MerchantType::EWalletId,
        13 <= digits.len() < 15 ==> classify_spec(digits) == MerchantType::TaxId,
        digits.len() < 13 ==> classify_spec(digits) == MerchantType::MobileNumber,
{
}

} // verus!
