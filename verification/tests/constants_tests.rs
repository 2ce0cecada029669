use promptpay_rs::{CountryCode, CurrencyCode};

#[test]
fn test_country_code() {
    let code = CountryCode::Thailand;
    assert_eq!(code.as_str(), "TH");
    assert_eq!(code.to_string(), "TH");

    assert_eq!(CountryCode::from_str("TH"), Some(CountryCode::Thailand));
    assert_eq!(CountryCode::from_str("th"), Some(CountryCode::Thailand));
    assert_eq!(
        CountryCode::from_str("Thailand"),
        Some(CountryCode::Thailand)
    );
    assert_eq!(
        CountryCode::from_str("THAILAND"),
        Some(CountryCode::Thailand)
    );
    assert_eq!(CountryCode::from_str("US"), None);
}

#[test]
fn code_parsing_trims_and_ignores_case() {
    assert_eq!(CountryCode::from_str("  th  "), Some(CountryCode::Thailand));
    assert_eq!(CountryCode::from_str("\tthailand\n"), Some(CountryCode::Thailand));
    assert_eq!(CountryCode::from_str(""), None);
    assert_eq!(CountryCode::from_str("T H"), None);
    assert_eq!(CurrencyCode::from_numeric(" 764 "), Some(CurrencyCode::THB));
    assert_eq!(CurrencyCode::from_alphabetic(" thb "), Some(CurrencyCode::THB));
    assert_eq!(CurrencyCode::from_alphabetic("THB."), None);
}

#[test]
fn test_currency_code() {
    let cur = CurrencyCode::THB;
    assert_eq!(cur.numeric_code(), "764");
    assert_eq!(cur.alphabetic_code(), "THB");
    assert_eq!(cur.to_string(), "764");

    assert_eq!(CurrencyCode::from_numeric("764"), Some(CurrencyCode::THB));
    assert_eq!(
        CurrencyCode::from_alphabetic("THB"),
        Some(CurrencyCode::THB)
    );
    assert_eq!(CurrencyCode::from_numeric("840"), None);
}
