//! The payload builder: assembles the ordered TLV fields of an
//! EMVCo-compliant PromptPay payload and appends the CRC-16/CCITT checksum.

use vstd::prelude::*;
use vstd::string::StringSliceAdditionalSpecFns;
use vstd::utf8::encode_utf8;
use crate::chars::{
    crc_hex_chars, dec_chars, digit_char, digit_str, filter_digits, is_upper_hex_char,
    len2_chars, lemma_filter_digits_all_digits, lemma_hex_char_upper_hex, push_crc_hex,
    push_decimal, push_len2,
};
use crate::constants::{
    classify_spec, country_chars, currency_chars, type_tag_chars, CountryCode, CurrencyCode,
    MerchantType,
};
use crate::crc::{calculate_crc, crc16};
use crate::error::PromptPayError;
use crate::text::{is_blank, str_is_blank};
use crate::types::PromptPayConfig;
use crate::utils::{format_target, format_target_spec, sanitize_target};
use crate::validation::{strict_classify_spec, Validator};

verus! {

/// The amount string with exactly two fractional digits: the whole baht, a
/// decimal point, then the two satang digits.
pub open spec fn amount_chars(satang: nat) -> Seq<char> {
    dec_chars(satang / 100) + seq![
        '.',
        digit_char(((satang / 10) % 10) as int),
        digit_char((satang % 10) as int),
    ]
}

/// One TLV field: a two-character tag, the two-digit character count of the
/// value, then the value itself.
pub open spec fn tlv(tag: Seq<char>, value: Seq<char>) -> Seq<char> {
    tag + len2_chars(value.len()) + value
}

/// The merchant account information block (field 29): the fixed PromptPay
/// application identifier sub-field, then the typed, formatted identifier
/// sub-field.
pub open spec fn merchant_info_chars(digits: Seq<char>) -> Seq<char> {
    "0016A000000677010111"@ + tlv(
        type_tag_chars(classify_spec(digits)),
        format_target_spec(digits),
    )
}

/// The payload up to and including the `"6304"` checksum marker: the fixed
/// format indicator, the initiation mode (`11` static, `12` dynamic), the
/// merchant account block, the country, the currency, and the amount field
/// when an amount is present.
pub open spec fn payload_prefix_chars(
    digits: Seq<char>,
    amount: Option<u64>,
    country: CountryCode,
    currency: CurrencyCode,
) -> Seq<char> {
    "000201"@ + (if amount is Some {
        "010212"@
    } else {
        "010211"@
    }) + tlv("29"@, merchant_info_chars(digits)) + "5802"@ + country_chars(country) + "5303"@
        + currency_chars(currency) + (match amount {
        Some(a) => tlv("54"@, amount_chars(a as nat)),
        None => Seq::<char>::empty(),
    }) + "6304"@
}

/// The complete payload: the prefix followed by the four uppercase hex
/// digits of the prefix's CRC-16/CCITT checksum.
pub open spec fn payload_chars(
    digits: Seq<char>,
    amount: Option<u64>,
    country: CountryCode,
    currency: CurrencyCode,
) -> Seq<char> {
    let prefix = payload_prefix_chars(digits, amount, country, currency);
    prefix + crc_hex_chars(crc16(encode_utf8(prefix)))
}

/// Builder for PromptPay payloads: holds the recipient identifier, the
/// optional amount in satang (hundredths of a baht), the fixed country and
/// currency, and whether strict validation gates the build.
pub struct PromptPayQR {
    merchant_id: String,
    amount: Option<u64>,
    country_code: CountryCode,
    currency_code: CurrencyCode,
    validate_input: bool,
}

impl PromptPayQR {
    /// The characters of the raw recipient identifier.
    pub closed spec fn spec_merchant_id(&self) -> Seq<char> {
        self.merchant_id@
    }

    /// The amount in satang, if one was set.
    pub closed spec fn spec_amount(&self) -> Option<u64> {
        self.amount
    }

    /// The configured country code.
    pub closed spec fn spec_country_code(&self) -> CountryCode {
        self.country_code
    }

    /// The configured currency code.
    pub closed spec fn spec_currency_code(&self) -> CurrencyCode {
        self.currency_code
    }

    /// Whether strict validation gates the build.
    pub closed spec fn spec_validate_input(&self) -> bool {
        self.validate_input
    }

    /// A builder for the given recipient with the Thai defaults, no amount,
    /// and no input validation: building classifies permissively and always
    /// succeeds on a non-blank identifier.
    pub fn new(merchant_id: &str) -> (r: Self)
        ensures
            r.spec_merchant_id() == merchant_id@,
            r.spec_amount() is None,
            r.spec_country_code() == CountryCode::Thailand,
            r.spec_currency_code() == CurrencyCode::THB,
            r.spec_validate_input() == false,
    {
        PromptPayQR {
            merchant_id: merchant_id.to_owned(),
            amount: None,
            country_code: CountryCode::Thailand,
            currency_code: CurrencyCode::THB,
            validate_input: false,
        }
    }

    /// A builder configured by `config`; only its validation toggle varies,
    /// since Thailand and the Thai Baht are the single supported pair.
    pub fn with_config(merchant_id: &str, config: &PromptPayConfig) -> (r: Self)
        ensures
            r.spec_merchant_id() == merchant_id@,
            r.spec_amount() is None,
            r.spec_country_code() == CountryCode::Thailand,
            r.spec_currency_code() == CurrencyCode::THB,
            r.spec_validate_input() == config.validate_input,
    {
        PromptPayQR {
            merchant_id: merchant_id.to_owned(),
            amount: None,
            country_code: CountryCode::Thailand,
            currency_code: CurrencyCode::THB,
            validate_input: config.validate_input,
        }
    }

    /// Sets the transaction amount, in satang, turning the payload dynamic.
    pub fn set_amount(&mut self, satang: u64)
        ensures
            final(self).spec_merchant_id() == old(self).spec_merchant_id(),
            final(self).spec_amount() == Some(satang),
            final(self).spec_country_code() == old(self).spec_country_code(),
            final(self).spec_currency_code() == old(self).spec_currency_code(),
            final(self).spec_validate_input() == old(self).spec_validate_input(),
    {
        self.amount = Some(satang);
    }

    /// Builds the complete payload string.
    ///
    /// A blank identifier is rejected as missing. With validation enabled,
    /// an identifier the strict classifier cannot place is rejected as
    /// invalid. Every other build succeeds and returns exactly the payload
    /// the specification functions describe, with the permissive
    /// classification choosing the merchant-type tag.
    pub fn create(&self) -> (r: Result<String, PromptPayError>)
        ensures
            is_blank(self.spec_merchant_id()) ==> r == Err::<String, PromptPayError>(
                PromptPayError::MissingMerchantId,
            ),
            !is_blank(self.spec_merchant_id()) && self.spec_validate_input()
                && strict_classify_spec(self.spec_merchant_id())
                == crate::validation::MerchantType::Unknown ==> (r matches Err(e) && (e matches
                PromptPayError::InvalidMerchantId(s) && s@ == self.spec_merchant_id())),
            !is_blank(self.spec_merchant_id()) && (!self.spec_validate_input()
                || strict_classify_spec(self.spec_merchant_id())
                != crate::validation::MerchantType::Unknown) ==> (r matches Ok(p) && p@
                == payload_chars(
                filter_digits(self.spec_merchant_id()),
                self.spec_amount(),
                self.spec_country_code(),
                self.spec_currency_code(),
            )),
    {
        if str_is_blank(self.merchant_id.as_str()) {
            return Err(PromptPayError::MissingMerchantId);
        }
        if self.validate_input {
            match Validator::validate_merchant_id(self.merchant_id.as_str()) {
                Err(e) => {
                    return Err(e);
                },
                Ok(_) => {},
            }
        }
        let ghost digits = filter_digits(self.merchant_id@);
        let merchant_id = sanitize_target(self.merchant_id.as_str());

        let mut payload = String::new();
        payload.append("000201");
        if self.amount.is_some() {
            payload.append("010212");
        } else {
            payload.append("010211");
        }

        let mut merchant_info = String::new();
        merchant_info.append("0016A000000677010111");
        let merchant_type = MerchantType::from_merchant_id(self.merchant_id.as_str());
        merchant_info.append(merchant_type.as_str());
        proof {
            lemma_filter_digits_all_digits(self.merchant_id@);
        }
        let formatted = format_target(merchant_id.as_str());
        push_len2(&mut merchant_info, formatted.as_str().unicode_len() as u64);
        merchant_info.append(formatted.as_str());
        proof {
            assert(merchant_info@ =~= merchant_info_chars(digits));
        }

        payload.append("29");
        push_len2(&mut payload, merchant_info.as_str().unicode_len() as u64);
        payload.append(merchant_info.as_str());

        payload.append("5802");
        payload.append(self.country_code.as_str());
        payload.append("5303");
        payload.append(self.currency_code.numeric_code());

        if let Some(a) = self.amount {
            let mut amt = String::new();
            push_decimal(&mut amt, a / 100);
            proof {
                reveal_strlit(".");
                assert("."@ =~= seq!['.']);
            }
            amt.append(".");
            amt.append(digit_str(((a / 10) % 10) as u8));
            amt.append(digit_str((a % 10) as u8));
            proof {
                assert(amt@ =~= amount_chars(a as nat));
            }
            payload.append("54");
            push_len2(&mut payload, amt.as_str().unicode_len() as u64);
            payload.append(amt.as_str());
        }

        payload.append("6304");
        proof {
            assert(payload@ =~= payload_prefix_chars(
                digits,
                self.amount,
                self.country_code,
                self.currency_code,
            ));
        }
        let crc = calculate_crc(payload.as_str());
        push_crc_hex(&mut payload, crc);
        proof {
            assert(payload@ =~= payload_chars(
                digits,
                self.amount,
                self.country_code,
                self.currency_code,
            ));
        }
        Ok(payload)
    }

    /// The raw recipient identifier the builder was made with.
    pub fn merchant_id(&self) -> (r: &str)
        ensures
            r@ == self.spec_merchant_id(),
    {
        self.merchant_id.as_str()
    }

    /// The transaction amount in satang, if one was set.
    pub fn amount(&self) -> (r: Option<u64>)
        ensures
            r == self.spec_amount(),
    {
        self.amount
    }

    /// The configured country code.
    pub fn country_code(&self) -> (r: CountryCode)
        ensures
            r == self.spec_country_code(),
    {
        self.country_code
    }

    /// The configured currency code.
    pub fn currency_code(&self) -> (r: CurrencyCode)
        ensures
            r == self.spec_currency_code(),
    {
        self.currency_code
    }

    /// The permissive, length-based classification of the identifier.
    pub fn merchant_type(&self) -> (r: MerchantType)
        ensures
            r == classify_spec(filter_digits(self.spec_merchant_id())),
    {
        MerchantType::from_merchant_id(self.merchant_id.as_str())
    }
}

/// Builds a payload for a recipient and an optional amount in satang, with
/// the Thai defaults and no input validation.
pub fn quick_generate(merchant_id: &str, amount: Option<u64>) -> (r: Result<
    String,
    PromptPayError,
>)
    ensures
        is_blank(merchant_id@) ==> r == Err::<String, PromptPayError>(
            PromptPayError::MissingMerchantId,
        ),
        !is_blank(merchant_id@) ==> (r matches Ok(p) && p@ == payload_chars(
            filter_digits(merchant_id@),
            amount,
            CountryCode::Thailand,
            CurrencyCode::THB,
        )),
{
    let mut qr = PromptPayQR::new(merchant_id);
    if let Some(a) = amount {
        qr.set_amount(a);
    }
    qr.create()
}

/// Law: every payload begins with the fixed format indicator `"000201"`,
/// and its last eight characters are the `"6304"` checksum marker followed
/// by exactly four uppercase hexadecimal digits.
pub proof fn lemma_payload_frame(
    digits: Seq<char>,
    amount: Option<u64>,
    country: CountryCode,
    currency: CurrencyCode,
)
    ensures
        payload_chars(digits, amount, country, currency).len() >= 14,
        payload_chars(digits, amount, country, currency).subrange(0, 6) == "000201"@,
        payload_chars(digits, amount, country, currency).subrange(
            payload_chars(digits, amount, country, currency).len() - 8,
            payload_chars(digits, amount, country, currency).len() - 4,
        ) == "6304"@,
        forall|i: int|
            payload_chars(digits, amount, country, currency).len() - 4 <= i < payload_chars(
                digits,
                amount,
                country,
                currency,
            ).len() ==> is_upper_hex_char(
                #[trigger] payload_chars(digits, amount, country, currency)[i],
            ),
{
    reveal_strlit("000201");
    reveal_strlit("010211");
    reveal_strlit("010212");
    reveal_strlit("6304");
    let prefix = payload_prefix_chars(digits, amount, country, currency);
    let c = crc16(encode_utf8(prefix));
    let crc4 = crc_hex_chars(c);
    let p = payload_chars(digits, amount, country, currency);
    assert(prefix.len() >= 16);
    assert(p == prefix + crc4);
    assert(p.subrange(0, 6) =~= "000201"@);
    assert(p.subrange(p.len() - 8, p.len() - 4) =~= "6304"@);
    assert forall|i: int| p.len() - 4 <= i < p.len() implies is_upper_hex_char(
        #[trigger] p[i],
    ) by {
        assert(p[i] == crc4[i - (p.len() - 4)]);
        lemma_hex_char_upper_hex(c as int / 4096);
        lemma_hex_char_upper_hex((c as int / 256) % 16);
        lemma_hex_char_upper_hex((c as int / 16) % 16);
        lemma_hex_char_upper_hex(c as int % 16);
    }
}

/// Law: everything before a payload's last four characters is exactly the
/// checksum engine's input, and the last four characters are that input's
/// CRC-16/CCITT checksum in uppercase hex.
pub proof fn lemma_crc_covers_prefix(
    digits: Seq<char>,
    amount: Option<u64>,
    country: CountryCode,
    currency: CurrencyCode,
)
    ensures
        ({
            let p = payload_chars(digits, amount, country, currency);
            let prefix = p.subrange(0, p.len() - 4);
            p == prefix + crc_hex_chars(crc16(encode_utf8(prefix)))
        }),
{
    let p = payload_chars(digits, amount, country, currency);
    let prefix = payload_prefix_chars(digits, amount, country, currency);
    assert(p.subrange(0, p.len() - 4) =~= prefix);
    assert(p =~= p.subrange(0, p.len() - 4) + crc_hex_chars(
        crc16(encode_utf8(p.subrange(0, p.len() - 4))),
    ));
}

/// Law: the initiation-mode field at characters 6 to 12 reads `"010212"`
/// exactly when an amount is present and `"010211"` when none is.
pub proof fn lemma_initiation_mode(
    digits: Seq<char>,
    amount: Option<u64>,
    country: CountryCode,
    currency: CurrencyCode,
)
    ensures
        amount is Some ==> payload_chars(digits, amount, country, currency).subrange(6, 12)
            == "010212"@,
        amount is None ==> payload_chars(digits, amount, country, currency).subrange(6, 12)
            == "010211"@,
{
    reveal_strlit("000201");
    reveal_strlit("010211");
    reveal_strlit("010212");
    let p = payload_chars(digits, amount, country, currency);
    if amount is Some {
        assert(p.subrange(6, 12) =~= "010212"@);
    } else {
        assert(p.subrange(6, 12) =~= "010211"@);
    }
}

} // verus!
