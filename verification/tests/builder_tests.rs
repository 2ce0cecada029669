use promptpay_rs::constants::MerchantType;
use promptpay_rs::crc::calculate_crc;
use promptpay_rs::qr_output::{html_img_tag, png_data_url};
use promptpay_rs::validation::MerchantType as StrictMerchantType;
use promptpay_rs::{
    quick_generate, Formatter, PromptPayConfig, PromptPayData, PromptPayError, PromptPayQR,
    QRResult,
};

#[test]
fn quick_generate_matches_builder() {
    let direct = quick_generate("0812345678", Some(10050)).unwrap();
    let mut qr = PromptPayQR::new("0812345678");
    qr.set_amount(10050);
    assert_eq!(direct, qr.create().unwrap());

    let static_payload = quick_generate("0812345678", None).unwrap();
    assert_eq!(static_payload, PromptPayQR::new("0812345678").create().unwrap());
    assert_ne!(direct, static_payload);
}

#[test]
fn quick_generate_empty_fails_missing() {
    match quick_generate("", None) {
        Err(PromptPayError::MissingMerchantId) => {}
        other => panic!("expected MissingMerchantId, got {:?}", other),
    }
    match quick_generate("  \t ", Some(100)) {
        Err(PromptPayError::MissingMerchantId) => {}
        other => panic!("expected MissingMerchantId, got {:?}", other),
    }
}

#[test]
fn full_payload_known_value() {
    // The complete payload for the canonical phone number without an
    // amount, fixed once as a regression value; its CRC part is "5D82".
    let payload = quick_generate("0812345678", None).unwrap();
    assert_eq!(
        payload,
        "00020101021129370016A000000677010111011300668123456785802TH530376463045D82"
    );
}

#[test]
fn crc_is_deterministic_and_pinned() {
    let prefix = "00020101021129370016A000000677010111011300668123456785802TH53037646304";
    assert_eq!(calculate_crc(prefix), calculate_crc(prefix));
    assert_eq!(format!("{:04X}", calculate_crc(prefix)), "5D82");
    // A different byte sequence gives a different checksum here.
    assert_ne!(calculate_crc("6304"), calculate_crc(prefix));
}

#[test]
fn amount_is_rendered_with_two_decimals() {
    let mut qr = PromptPayQR::new("0812345678");
    qr.set_amount(100);
    let payload = qr.create().unwrap();
    assert!(payload.contains("54041.00"));

    let mut qr = PromptPayQR::new("0812345678");
    qr.set_amount(5);
    let payload = qr.create().unwrap();
    assert!(payload.contains("54040.05"));

    let mut qr = PromptPayQR::new("0812345678");
    qr.set_amount(99_999_999_999);
    let payload = qr.create().unwrap();
    assert!(payload.contains("5412999999999.99"));
}

#[test]
fn with_config_validation_gate() {
    // Ten digits that match no accepted shape: rejected when validation is
    // on, accepted when it is off.
    let config = PromptPayConfig::default();
    assert!(config.validate_input);
    let qr = PromptPayQR::with_config("1234567890", &config);
    match qr.create() {
        Err(PromptPayError::InvalidMerchantId(s)) => assert_eq!(s, "1234567890"),
        other => panic!("expected InvalidMerchantId, got {:?}", other),
    }

    let mut permissive = PromptPayConfig::default();
    permissive.validate_input = false;
    let qr = PromptPayQR::with_config("1234567890", &permissive);
    let payload = qr.create().unwrap();
    assert!(payload.starts_with("000201"));

    // A valid identifier builds the same payload under both settings.
    let strict = PromptPayQR::with_config("0812345678", &config);
    assert_eq!(
        strict.create().unwrap(),
        PromptPayQR::new("0812345678").create().unwrap()
    );
}

#[test]
fn formatter_round_trip() {
    let payload = quick_generate("0812345678", None).unwrap();
    let formatter = Formatter::new(&payload);
    assert_eq!(formatter.to_string(), payload);
}

#[test]
fn merchant_type_getter() {
    let qr = PromptPayQR::new("0812345678");
    assert_eq!(qr.merchant_type(), MerchantType::MobileNumber);
    let qr = PromptPayQR::new("1234567890123");
    assert_eq!(qr.merchant_type(), MerchantType::TaxId);
    let qr = PromptPayQR::new("123456789012345");
    assert_eq!(qr.merchant_type(), MerchantType::EWalletId);
}

#[test]
fn promptpay_data_and_qr_result() {
    let data = PromptPayData::new(
        String::from("0812345678"),
        StrictMerchantType::Phone,
        Some(10050),
        String::from("TH"),
        String::from("764"),
        String::from("payload"),
    );
    assert_eq!(data.merchant_type, "Phone");
    assert_eq!(data.amount, Some(10050));

    let result = QRResult::new(String::from("payload"), data);
    assert!(result.svg.is_none());
    assert!(result.png_base64.is_none());
    assert!(result.html_img.is_none());
    let result = result
        .with_svg(String::from("<svg/>"))
        .with_png_base64(String::from("data:..."))
        .with_html_img(String::from("<img/>"));
    assert_eq!(result.svg.as_deref(), Some("<svg/>"));
    assert_eq!(result.png_base64.as_deref(), Some("data:..."));
    assert_eq!(result.html_img.as_deref(), Some("<img/>"));
    assert_eq!(result.payload, "payload");
}

#[test]
fn png_data_url_encodes_bytes() {
    // Base64 of the bytes 1, 2, 3 is "AQID": the URL would differ if the
    // encoder handed its input back unchanged.
    assert_eq!(png_data_url(&[1, 2, 3]), "data:image/png;base64,AQID");
    assert_eq!(png_data_url(&[]), "data:image/png;base64,");
    // Padding appears for input lengths that are no multiple of three.
    assert_eq!(png_data_url(&[255]), "data:image/png;base64,/w==");
}

#[test]
fn html_img_tag_shapes() {
    assert_eq!(
        html_img_tag("data:x", 256, Some("alt text")),
        "<img src=\"data:x\" alt=\"alt text\" width=\"256\" height=\"256\" />"
    );
    assert_eq!(
        html_img_tag("data:x", 64, None),
        "<img src=\"data:x\" alt=\"PromptPay QR Code\" width=\"64\" height=\"64\" />"
    );
}
