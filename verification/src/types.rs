//! Configuration and result records that surround the payload builder.
//!
//! Amounts are carried as whole satang (hundredths of a baht), so every
//! value the builder can hold serializes to exactly two fractional digits.

use vstd::prelude::*;
use crate::validation::MerchantType;
use crate::validation::merchant_type_name;

verus! {

/// Output shapes a QR rendering collaborator can produce.
#[derive(Debug, Clone, PartialEq, Eq)]
pub enum OutputFormat {
    Payload,
    SVG,
    PNG,
    Base64PNG,
    HTML,
    JSON,
    All,
}

/// Per-build configuration: the country and currency codes, the rendering
/// parameters handed through to the QR collaborator, and the toggle that
/// makes the builder validate its input.
#[derive(Debug, Clone)]
pub struct PromptPayConfig {
    pub country_code: String,
    pub currency_code: String,
    pub qr_size: u32,
    pub qr_dark_color: String,
    pub qr_light_color: String,
    pub qr_quiet_zone: u32,
    pub validate_input: bool,
}

impl Default for PromptPayConfig {
    /// Thailand, Thai Baht, a 256-pixel black-on-white code with a
    /// four-module quiet zone, and validation switched on.
    fn default() -> (r: Self)
        ensures
            r.country_code@ == "TH"@,
            r.currency_code@ == "764"@,
            r.qr_size == 256,
            r.qr_dark_color@ == "#000000"@,
            r.qr_light_color@ == "#FFFFFF"@,
            r.qr_quiet_zone == 4,
            r.validate_input == true,
    {
        PromptPayConfig {
            country_code: String::from_str("TH"),
            currency_code: String::from_str("764"),
            qr_size: 256,
            qr_dark_color: String::from_str("#000000"),
            qr_light_color: String::from_str("#FFFFFF"),
            qr_quiet_zone: 4,
            validate_input: true,
        }
    }
}

/// The record a build reports: the inputs, the resolved merchant type by
/// its display name, and the finished payload. The amount is in satang.
#[derive(Debug, Clone)]
pub struct PromptPayData {
    pub merchant_id: String,
    pub merchant_type: String,
    pub amount: Option<u64>,
    pub country_code: String,
    pub currency_code: String,
    pub payload: String,
}

impl PromptPayData {
    /// Assembles the record, rendering the merchant type to its display
    /// name.
    pub fn new(
        merchant_id: String,
        merchant_type: MerchantType,
        amount: Option<u64>,
        country_code: String,
        currency_code: String,
        payload: String,
    ) -> (r: Self)
        ensures
            r.merchant_id == merchant_id,
            r.merchant_type@ == merchant_type_name(merchant_type),
            r.amount == amount,
            r.country_code == country_code,
            r.currency_code == currency_code,
            r.payload == payload,
    {
        PromptPayData {
            merchant_id,
            merchant_type: merchant_type.to_string(),
            amount,
            country_code,
            currency_code,
            payload,
        }
    }
}

/// A build result together with whichever renderings were produced.
#[derive(Debug, Clone)]
pub struct QRResult {
    pub payload: String,
    pub svg: Option<String>,
    pub png_base64: Option<String>,
    pub html_img: Option<String>,
    pub merchant_info: PromptPayData,
}

impl QRResult {
    /// A result holding the payload and its record, with no renderings yet.
    pub fn new(payload: String, merchant_info: PromptPayData) -> (r: Self)
        ensures
            r.payload == payload,
            r.svg is None,
            r.png_base64 is None,
            r.html_img is None,
            r.merchant_info == merchant_info,
    {
        QRResult { payload, svg: None, png_base64: None, html_img: None, merchant_info }
    }

    /// The same result with the SVG rendering attached.
    pub fn with_svg(self, svg: String) -> (r: Self)
        ensures
            r.payload == self.payload,
            r.svg == Some(svg),
            r.png_base64 == self.png_base64,
            r.html_img == self.html_img,
            r.merchant_info == self.merchant_info,
    {
        QRResult { svg: Some(svg), ..self }
    }

    /// The same result with the Base64 PNG rendering attached.
    pub fn with_png_base64(self, png_base64: String) -> (r: Self)
        ensures
            r.payload == self.payload,
            r.svg == self.svg,
            r.png_base64 == Some(png_base64),
            r.html_img == self.html_img,
            r.merchant_info == self.merchant_info,
    {
        QRResult { png_base64: Some(png_base64), ..self }
    }

    /// The same result with the HTML image tag attached.
    pub fn with_html_img(self, html_img: String) -> (r: Self)
        ensures
            r.payload == self.payload,
            r.svg == self.svg,
            r.png_base64 == self.png_base64,
            r.html_img == Some(html_img),
            r.merchant_info == self.merchant_info,
    {
        QRResult { html_img: Some(html_img), ..self }
    }
}

} // verus!
