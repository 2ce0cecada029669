//! Textual wrapping of rendered QR images: the Base64 data URL and the HTML
//! image tag. The pixel rendering itself is a collaborator's job; these
//! functions only dress its bytes.

use vstd::prelude::*;
use crate::chars::{dec_chars, push_decimal};

verus! {

/// What base64's standard-alphabet encoder returns for a byte sequence.
pub uninterp spec fn base64_of(bytes: Seq<u8>) -> Seq<char>;

/// Relies on base64's `STANDARD` engine `encode`: a deterministic encoding
/// of the bytes alone, four characters for every started group of three
/// bytes, padded with `'='`.
#[verifier::external_body]
fn base64_encode(bytes: &[u8]) -> (r: String)
    requires
        bytes@.len() <= 0x3fff_ffff_ffff_ffff,
    ensures
        r@ == base64_of(bytes@),
        r@.len() == 4 * ((bytes@.len() + 2) / 3),
{
    base64::Engine::encode(&base64::engine::general_purpose::STANDARD, bytes)
}

/// Wraps PNG bytes in the `data:` URL an `<img>` source takes.
pub fn png_data_url(png_bytes: &[u8]) -> (r: String)
    requires
        png_bytes@.len() <= 0x3fff_ffff_ffff_ffff,
    ensures
        r@ == "data:image/png;base64,"@ + base64_of(png_bytes@),
{
    let mut out = String::from_str("data:image/png;base64,");
    let encoded = base64_encode(png_bytes);
    out.append(encoded.as_str());
    out
}

/// The HTML image tag for a source URL, an alternative text and a square
/// pixel size.
pub open spec fn img_tag_chars(src: Seq<char>, alt: Seq<char>, size: nat) -> Seq<char> {
    "<img src=\""@ + src + "\" alt=\""@ + alt + "\" width=\""@ + dec_chars(size) + "\" height=\""@
        + dec_chars(size) + "\" />"@
}

/// Renders the HTML image tag around an image URL; a missing alternative
/// text falls back to naming the QR code.
pub fn html_img_tag(src: &str, size: u32, alt: Option<&str>) -> (r: String)
    ensures
        r@ == img_tag_chars(
            src@,
            match alt {
                Some(a) => a@,
                None => "PromptPay QR Code"@,
            },
            size as nat,
        ),
{
    let alt_text = match alt {
        Some(a) => a,
        None => "PromptPay QR Code",
    };
    let mut out = String::from_str("<img src=\"");
    out.append(src);
    out.append("\" alt=\"");
    out.append(alt_text);
    out.append("\" width=\"");
    push_decimal(&mut out, size as u64);
    out.append("\" height=\"");
    push_decimal(&mut out, size as u64);
    out.append("\" />");
    out
}

} // verus!
