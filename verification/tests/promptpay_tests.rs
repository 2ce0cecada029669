use promptpay_rs::crc::calculate_crc;
use promptpay_rs::utils::{format_target, sanitize_target};
use promptpay_rs::{CountryCode, CurrencyCode, PromptPayQR};

#[test]
fn promptpay_test_create_qr_phone_with_amount() {
    let mut qr = PromptPayQR::new("0812345678");
    qr.set_amount(10050);
    let result = qr.create().unwrap();
    assert!(!result.is_empty());
    assert!(result.starts_with("000201010212")); // dynamic QR
    assert!(result.contains("01130066812345678")); // phone number field
    assert!(result.contains("5406100.50")); // amount field
    assert!(result.contains("5802TH")); // country code
    assert!(result.contains("5303764")); // currency code
    assert!(result.len() >= 8);
    let crc_part = &result[result.len() - 8..];
    assert!(crc_part.starts_with("6304"));
    assert!(crc_part[4..].chars().all(|c| c.is_ascii_hexdigit()));
}

#[test]
fn promptpay_test_create_qr_phone_plus_66() {
    let mut qr = PromptPayQR::new("+66-8-1234-500 0");
    qr.set_amount(10050);
    let result = qr.create().unwrap();
    assert!(!result.is_empty());
    assert!(result.starts_with("000201010212")); // dynamic QR
    assert!(result.contains("01130066812345000")); // phone number field
    assert!(result.contains("5406100.50")); // amount field
    assert!(result.contains("5802TH"));
    assert!(result.contains("5303764"));
    assert!(result.len() >= 8);
    let crc_part = &result[result.len() - 8..];
    assert!(crc_part.starts_with("6304"));
    assert!(crc_part[4..].chars().all(|c| c.is_ascii_hexdigit()));
}

#[test]
fn promptpay_test_create_qr_phone_no_amount() {
    let qr = PromptPayQR::new("0812345678");
    let result = qr.create().unwrap();
    assert!(!result.is_empty());
    assert!(result.starts_with("000201010211")); // static QR
    assert!(result.contains("01130066812345678")); // phone number field
    assert!(!result.contains("54")); // no amount field
    assert!(result.contains("5802TH"));
    assert!(result.contains("5303764"));
    assert!(result.len() >= 8);
    let crc_part = &result[result.len() - 8..];
    assert!(crc_part.starts_with("6304"));
    assert!(crc_part[4..].chars().all(|c| c.is_ascii_hexdigit()));
}

#[test]
fn promptpay_test_create_qr_tax_id() {
    let qr = PromptPayQR::new("1234567890123");
    let result = qr.create().unwrap();
    assert!(!result.is_empty());
    assert!(result.starts_with("000201010211")); // static QR
    assert!(result.contains("02131234567890123")); // tax ID field
    assert!(!result.contains("54")); // no amount field
    assert!(result.contains("5802TH"));
    assert!(result.contains("5303764"));
    assert!(result.len() >= 8);
    let crc_part = &result[result.len() - 8..];
    assert!(crc_part.starts_with("6304"));
    assert!(crc_part[4..].chars().all(|c| c.is_ascii_hexdigit()));
}

#[test]
fn promptpay_test_create_qr_ewallet_id() {
    let qr = PromptPayQR::new("123456789012345");
    let result = qr.create().unwrap();
    assert!(!result.is_empty());
    assert!(result.starts_with("000201010211")); // static QR
    assert!(result.contains("0315123456789012345")); // e-wallet ID field
    assert!(!result.contains("54")); // no amount field
    assert!(result.contains("5802TH"));
    assert!(result.contains("5303764"));
    assert!(result.len() >= 8);
    let crc_part = &result[result.len() - 8..];
    assert!(crc_part.starts_with("6304"));
    assert!(crc_part[4..].chars().all(|c| c.is_ascii_hexdigit()));
}

#[test]
fn promptpay_test_create_qr_empty_merchant_id() {
    let qr = PromptPayQR::new("");
    let result = qr.create();
    assert!(result.is_err());
    assert_eq!(result.unwrap_err().to_string(), "Merchant ID is required");
}

#[test]
fn promptpay_test_sanitize_target_phone() {
    let qr = PromptPayQR::new("+66-8-1234-500 0");
    let sanitized = sanitize_target(qr.merchant_id());
    assert_eq!(sanitized, "66812345000");
}

#[test]
fn promptpay_test_format_target_phone() {
    let qr = PromptPayQR::new("0812345678");
    let formatted = format_target(&sanitize_target(qr.merchant_id()));
    assert_eq!(formatted, "0066812345678");
}

#[test]
fn promptpay_test_format_target_tax_id() {
    let qr = PromptPayQR::new("1234567890123");
    let formatted = format_target(&sanitize_target(qr.merchant_id()));
    assert_eq!(formatted, "1234567890123");
}

#[test]
fn promptpay_test_format_target_ewallet_id() {
    let qr = PromptPayQR::new("123456789012345");
    let formatted = format_target(&sanitize_target(qr.merchant_id()));
    assert_eq!(formatted, "123456789012345");
}

#[test]
fn promptpay_test_calculate_crc() {
    let qr = PromptPayQR::new("0812345678");
    let result = qr.create().unwrap();

    let payload_without_crc = &result[..result.len() - 4];
    let crc = calculate_crc(payload_without_crc);
    let expected_crc = &result[result.len() - 4..];

    assert_eq!(format!("{:04X}", crc), expected_crc);
}

#[test]
fn promptpay_test_calculate_crc_known_value() {
    let qr = PromptPayQR::new("0812345678");
    let result = qr.create().unwrap();
    let payload_without_crc = &result[..result.len() - 4];
    let crc = calculate_crc(payload_without_crc);
    assert_eq!(format!("{:04X}", crc), "5D82");
}

#[test]
fn promptpay_test_promptpay_qr_creation() {
    let mut qr = PromptPayQR::new("1234567890123");
    qr.set_amount(15075);
    assert_eq!(qr.merchant_id(), "1234567890123");
    assert_eq!(qr.amount(), Some(15075));
    assert_eq!(qr.country_code(), CountryCode::Thailand);
    assert_eq!(qr.currency_code(), CurrencyCode::THB);
}

#[test]
fn promptpay_test_promptpay_qr_no_amount() {
    let qr = PromptPayQR::new("9876543210987");
    assert_eq!(qr.amount(), None);
    assert_eq!(qr.country_code().as_str(), "TH");
    assert_eq!(qr.currency_code().numeric_code(), "764");
}
