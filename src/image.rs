//! Image content handed to the user interface, encoded for display.
use crate::text::{chars_of, ends_with_str, finishes_with, lower_of, lowercase};
use base64::Engine as _;
use vstd::prelude::*;

verus! {

#[derive(Clone, Debug)]
pub struct ImageContent {
    pub base64: String,
    pub mime_type: String,
    pub file_size: u64,
}

pub struct ImageContentView {
    pub base64: Seq<char>,
    pub mime_type: Seq<char>,
    pub file_size: u64,
}

impl View for ImageContent {
    type V = ImageContentView;

    open spec fn view(&self) -> ImageContentView {
        ImageContentView {
            base64: self.base64@,
            mime_type: self.mime_type@,
            file_size: self.file_size,
        }
    }
}

/// The MIME type of a file from its lower-cased path.
pub open spec fn mime_of(l: Seq<char>) -> Seq<char> {
    if finishes_with(l, ".png"@) {
        "image/png"@
    } else if finishes_with(l, ".jpg"@) || finishes_with(l, ".jpeg"@) {
        "image/jpeg"@
    } else if finishes_with(l, ".gif"@) {
        "image/gif"@
    } else if finishes_with(l, ".bmp"@) {
        "image/bmp"@
    } else if finishes_with(l, ".webp"@) {
        "image/webp"@
    } else if finishes_with(l, ".svg"@) {
        "image/svg+xml"@
    } else if finishes_with(l, ".ico"@) {
        "image/x-icon"@
    } else {
        "application/octet-stream"@
    }
}

/// The MIME type of a file whose path is already lower-cased.
pub fn mime_of_lowered(lowered: &str) -> (r: String)
    ensures
        r@ == mime_of(lowered@),
{
    let l = chars_of(lowered);
    if ends_with_str(&l, ".png") {
        String::from_str("image/png")
    } else if ends_with_str(&l, ".jpg") || ends_with_str(&l, ".jpeg") {
        String::from_str("image/jpeg")
    } else if ends_with_str(&l, ".gif") {
        String::from_str("image/gif")
    } else if ends_with_str(&l, ".bmp") {
        String::from_str("image/bmp")
    } else if ends_with_str(&l, ".webp") {
        String::from_str("image/webp")
    } else if ends_with_str(&l, ".svg") {
        String::from_str("image/svg+xml")
    } else if ends_with_str(&l, ".ico") {
        String::from_str("image/x-icon")
    } else {
        String::from_str("application/octet-stream")
    }
}

/// The MIME type of a file, by its extension in any case.
pub fn get_mime_type(file_path: &str) -> (r: String)
    ensures
        r@ == mime_of(lower_of(file_path@)),
{
    let lowered = lowercase(file_path);
    mime_of_lowered(lowered.as_str())
}

/// The standard base64 alphabet.
pub open spec fn base64_digit(v: int) -> char {
    "ABCDEFGHIJKLMNOPQRSTUVWXYZabcdefghijklmnopqrstuvwxyz0123456789+/"@[v]
}

/// Padded standard base64: each group of three bytes becomes four digits of
/// six bits each; a final group of one or two bytes is padded with '='.
pub open spec fn base64_text(b: Seq<u8>) -> Seq<char>
    decreases b.len(),
{
    if b.len() == 0 {
        seq![]
    } else {
        let x = b[0] as int;
        let y = if b.len() > 1 {
            b[1] as int
        } else {
            0
        };
        let z = if b.len() > 2 {
            b[2] as int
        } else {
            0
        };
        let d0 = base64_digit(x / 4);
        let d1 = base64_digit((x % 4) * 16 + y / 16);
        let d2 = base64_digit((y % 16) * 4 + z / 64);
        let d3 = base64_digit(z % 64);
        if b.len() == 1 {
            seq![d0, d1, '=', '=']
        } else if b.len() == 2 {
            seq![d0, d1, d2, '=']
        } else {
            seq![d0, d1, d2, d3] + base64_text(b.skip(3))
        }
    }
}

/// Relies on base64's `Engine::encode` with the `STANDARD` engine: the
/// padded standard-alphabet encoding.
#[verifier::external_body]
fn encode_base64(b: &[u8]) -> (r: String)
    ensures
        r@ == base64_text(b@),
{
    base64::engine::general_purpose::STANDARD.encode(b)
}

/// The display form of an image file's bytes: their base64 encoding, the
/// MIME type by extension, and the byte count.
pub fn image_content(file_path: &str, content: &[u8]) -> (r: ImageContent)
    ensures
        r@ == (ImageContentView {
            base64: base64_text(content@),
            mime_type: mime_of(lower_of(file_path@)),
            file_size: content@.len() as u64,
        }),
{
    ImageContent {
        base64: encode_base64(content),
        mime_type: get_mime_type(file_path),
        file_size: content.len() as u64,
    }
}

} // verus!
