//! PromptPay QR payload library.
//!
//! Builds the single-line, CRC-protected, EMVCo-compliant tag-length-value
//! payload string that Thai PromptPay QR codes carry: identifier
//! normalization, merchant-type inference, TLV field assembly and the
//! CRC-16/CCITT checksum, together with the stand-alone validators for
//! phone numbers, tax IDs, e-wallet IDs and amounts.

pub mod chars;
pub mod constants;
pub mod crc;
pub mod error;
pub mod formatter;
pub mod promptpay;
pub mod qr_output;
pub mod text;
pub mod types;
pub mod utils;
pub mod validation;

pub use constants::{CountryCode, CurrencyCode};
pub use error::PromptPayError;
pub use formatter::Formatter;
pub use promptpay::{quick_generate, PromptPayQR};
pub use types::{OutputFormat, PromptPayConfig, PromptPayData, QRResult};
pub use validation::Validator;
