//! Typed errors of payload construction and validation; rendering
//! collaborators propagate their failures through the message-carrying
//! variants.

use vstd::prelude::*;

verus! {

/// Everything that can go wrong while validating a recipient or building or
/// rendering a QR payload. Core errors signal a defect in caller-supplied
/// data; the message-carrying rendering variants propagate a collaborator's
/// failure unchanged.
#[derive(Debug, Clone, PartialEq, Eq)]
pub enum PromptPayError {
    /// The recipient identifier was empty or all whitespace.
    MissingMerchantId,
    /// The recipient identifier matched no accepted shape; carries the
    /// offending string.
    InvalidMerchantId(String),
    /// The transaction amount was outside the accepted bounds.
    InvalidAmount,
    /// QR-matrix generation failed; carries the collaborator's message.
    QrGenerationFailed(String),
    /// Image encoding failed; carries the collaborator's message.
    ImageGenerationFailed(String),
    /// JSON serialization failed; carries the collaborator's message.
    SerializationFailed(String),
}

/// The user-visible message of an error.
pub open spec fn error_message(e: PromptPayError) -> Seq<char> {
    match e {
        PromptPayError::MissingMerchantId => "Merchant ID is required"@,
        PromptPayError::InvalidMerchantId(s) => "Invalid merchant ID: "@ + s@,
        PromptPayError::InvalidAmount => "Invalid amount"@,
        PromptPayError::QrGenerationFailed(s) => "Failed to create QRCode: "@ + s@,
        PromptPayError::ImageGenerationFailed(s) => "Failed to generate image: "@ + s@,
        PromptPayError::SerializationFailed(s) => "Serialization failed: "@ + s@,
    }
}

impl PromptPayError {
    /// Wraps an offending identifier in the error that reports it.
    pub fn invalid_merchant_id(merchant_id: &str) -> (r: Self)
        ensures
            r matches PromptPayError::InvalidMerchantId(s) && s@ == merchant_id@,
    {
        PromptPayError::InvalidMerchantId(merchant_id.to_owned())
    }

    /// The descriptive message of the error.
    pub fn to_string(&self) -> (r: String)
        ensures
            r@ == error_message(*self),
    {
        match self {
            PromptPayError::MissingMerchantId => String::from_str("Merchant ID is required"),
            PromptPayError::InvalidMerchantId(s) => {
                let mut m = String::from_str("Invalid merchant ID: ");
                m.append(s.as_str());
                m
            },
            PromptPayError::InvalidAmount => String::from_str("Invalid amount"),
            PromptPayError::QrGenerationFailed(s) => {
                let mut m = String::from_str("Failed to create QRCode: ");
                m.append(s.as_str());
                m
            },
            PromptPayError::ImageGenerationFailed(s) => {
                let mut m = String::from_str("Failed to generate image: ");
                m.append(s.as_str());
                m
            },
            PromptPayError::SerializationFailed(s) => {
                let mut m = String::from_str("Serialization failed: ");
                m.append(s.as_str());
                m
            },
        }
    }
}

} // verus!
