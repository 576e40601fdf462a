//! Image utilities: format sniffing and full-decode validation through the
//! `image` crate (trusted), the format-to-mime mapping, and base64 data-URL
//! encoding and decoding built on the verified codec.

use vstd::prelude::*;
use vstd::string::*;

use crate::codec::{b64_decode, b64_encode, b64_of, data_uri_text, find_char, find_char_exec, is_b64_char};
use crate::error::AppError;

verus! {

/// Image formats the gateway distinguishes. Formats the mapping does not
/// name fall under `Other`.
#[derive(Clone, Copy, PartialEq, Eq, Structural, Debug)]
pub enum ImageKind {
    Png,
    Jpeg,
    Gif,
    WebP,
    Bmp,
    Tiff,
    Ico,
    Other,
}

/// The format `image::guess_format` detects from the magic bytes, if any.
pub uninterp spec fn format_of(data: Seq<u8>) -> Option<ImageKind>;

/// Whether `image::load_from_memory` can fully decode these bytes.
pub uninterp spec fn image_decodable(data: Seq<u8>) -> bool;

/// Relies on image::guess_format: the detected format is a pure function of
/// the magic bytes at the start of the buffer.
#[verifier::external_body]
fn guess_format_kind(data: &[u8]) -> (r: Option<ImageKind>)
    ensures
        r == format_of(data@),
{
    match image::guess_format(data) {
        Ok(f) => Some(match f {
            image::ImageFormat::Png => ImageKind::Png,
            image::ImageFormat::Jpeg => ImageKind::Jpeg,
            image::ImageFormat::Gif => ImageKind::Gif,
            image::ImageFormat::WebP => ImageKind::WebP,
            image::ImageFormat::Bmp => ImageKind::Bmp,
            image::ImageFormat::Tiff => ImageKind::Tiff,
            image::ImageFormat::Ico => ImageKind::Ico,
            _ => ImageKind::Other,
        }),
        Err(_) => None,
    }
}

/// Relies on image::load_from_memory: whether the bytes decode as an image
/// is a pure function of the bytes.
#[verifier::external_body]
pub fn validate_image_bytes(data: &[u8]) -> (r: Result<(), AppError>)
    ensures
        r is Ok <==> image_decodable(data@),
        r is Err ==> r->Err_0 is ImageProcessing,
{
    match image::load_from_memory(data) {
        Ok(_) => Ok(()),
        Err(e) => Err(AppError::ImageProcessing(format!("Failed to decode image: {}", e))),
    }
}

/// The mime type string for each image format.
pub open spec fn mime_of_kind(k: ImageKind) -> Seq<char> {
    match k {
        ImageKind::Png => "image/png"@,
        ImageKind::Jpeg => "image/jpeg"@,
        ImageKind::Gif => "image/gif"@,
        ImageKind::WebP => "image/webp"@,
        ImageKind::Bmp => "image/bmp"@,
        ImageKind::Tiff => "image/tiff"@,
        ImageKind::Ico => "image/x-icon"@,
        ImageKind::Other => "application/octet-stream"@,
    }
}

/// Map an image format to its mime type string.
pub fn format_to_mime_type(k: ImageKind) -> (r: &'static str)
    ensures
        r@ == mime_of_kind(k),
{
    match k {
        ImageKind::Png => "image/png",
        ImageKind::Jpeg => "image/jpeg",
        ImageKind::Gif => "image/gif",
        ImageKind::WebP => "image/webp",
        ImageKind::Bmp => "image/bmp",
        ImageKind::Tiff => "image/tiff",
        ImageKind::Ico => "image/x-icon",
        ImageKind::Other => "application/octet-stream",
    }
}

/// Determine the mime type of image data from its sniffed format.
pub fn get_mime_type(data: &[u8]) -> (r: Result<String, AppError>)
    ensures
        match format_of(data@) {
            Some(k) => r is Ok && r->Ok_0@ == mime_of_kind(k),
            None => r is Err && r->Err_0 is ImageProcessing,
        },
{
    match guess_format_kind(data) {
        Some(k) => Ok(String::from_str(format_to_mime_type(k))),
        None => Err(
            AppError::ImageProcessing(
                String::from_str(
                    "Unable to determine image format. File may be corrupted or not an image.",
                ),
            ),
        ),
    }
}

/// Encode image bytes as a base64 data URL, sniffing the mime type when none
/// is given.
pub fn bytes_to_base64(data: &[u8], mime_type: Option<&str>) -> (r: Result<String, AppError>)
    ensures
        match mime_type {
            Some(m) => r is Ok && r->Ok_0@ == data_uri_text(m@, b64_of(data@)),
            None => match format_of(data@) {
                Some(k) => r is Ok && r->Ok_0@ == data_uri_text(mime_of_kind(k), b64_of(data@)),
                None => r is Err && r->Err_0 is ImageProcessing,
            },
        },
{
    let mime: String = match mime_type {
        Some(m) => String::from_str(m),
        None => match get_mime_type(data) {
            Ok(m) => m,
            Err(e) => {
                return Err(e);
            },
        },
    };
    let encoded = b64_encode(data);
    let r = String::from_str("data:").concat(mime.as_str()).concat(";base64,").concat(
        encoded.as_str(),
    );
    Ok(r)
}

/// The base64 payload of a string: everything after the first comma when
/// there is one (a data-URL prefix is stripped), the whole string otherwise.
pub open spec fn b64_payload_of(s: Seq<char>) -> Seq<char> {
    match find_char(s, ',') {
        Some(i) => s.skip(i + 1),
        None => s,
    }
}

/// Decode a base64 string or base64 data URL into raw bytes.
pub fn base64_to_bytes(base64_str: &str) -> (r: Result<Vec<u8>, AppError>)
    ensures
        forall|x: Seq<u8>|
            b64_payload_of(base64_str@) == #[trigger] b64_of(x) ==> r is Ok && r->Ok_0@ == x,
        r is Ok ==> b64_payload_of(base64_str@) == b64_of(r->Ok_0@),
        (exists|i: int|
            0 <= i < b64_payload_of(base64_str@).len() && !is_b64_char(
                #[trigger] b64_payload_of(base64_str@)[i],
            )) ==> r is Err,
        r is Err ==> r->Err_0 is ImageProcessing && r->Err_0->ImageProcessing_0@
            == "Failed to decode base64 data"@,
{
    proof {
        crate::codec::lemma_find_char_first(base64_str@, ',');
    }
    let decoded = match find_char_exec(base64_str, ',') {
        Some(i) => {
            let len = base64_str.unicode_len();
            let payload = base64_str.substring_char(i + 1, len);
            b64_decode(payload)
        },
        None => b64_decode(base64_str),
    };
    match decoded {
        Ok(b) => Ok(b),
        Err(()) => Err(
            AppError::ImageProcessing(String::from_str("Failed to decode base64 data")),
        ),
    }
}

} // verus!
