//! Trusted bridges to the PNG and base64 encoders, and the verified
//! serialization step of the capture pipeline.

use crate::capture::CaptureError;
use crate::raster::Image;
use std::io::Cursor;
use vstd::prelude::*;

verus! {

/// The PNG serialization of an RGBA image, as the `image` crate produces it:
/// a deterministic function of the dimensions and the pixel bytes.
pub uninterp spec fn png_bytes(width: u32, height: u32, pixels: Seq<u8>) -> Seq<u8>;

/// The standard-alphabet base64 rendering of a byte string.
pub uninterp spec fn base64_chars(bytes: Seq<u8>) -> Seq<char>;

/// Relies on `image::ImageBuffer::write_to` with `ImageFormat::Png`: encoding
/// an RGBA buffer to PNG is deterministic in the dimensions and pixel bytes,
/// and on an exact-length buffer written to an in-memory cursor the encoder's
/// only data-dependent failure is a zero width or height.
#[verifier::external_body]
fn encode_png(img: &Image) -> (r: Option<Vec<u8>>)
    requires
        img.wf(),
    ensures
        r matches Some(b) ==> b@ == png_bytes(img.width, img.height, img.pixels@),
        img.width > 0 && img.height > 0 ==> r is Some,
{
    let buf: image::RgbaImage = match image::ImageBuffer::from_raw(
        img.width,
        img.height,
        img.pixels.clone(),
    ) {
        Some(b) => b,
        None => return None,
    };
    let mut out: Vec<u8> = Vec::new();
    match buf.write_to(&mut Cursor::new(&mut out), image::ImageFormat::Png) {
        Ok(()) => Some(out),
        Err(_) => None,
    }
}

/// Relies on `base64::Engine::encode` with the standard engine: the encoding
/// is a deterministic function of the input bytes.
#[verifier::external_body]
fn encode_base64(bytes: &Vec<u8>) -> (r: String)
    ensures
        r@ == base64_chars(bytes@),
{
    base64::Engine::encode(&base64::engine::general_purpose::STANDARD, bytes)
}

/// Serialize an image as PNG and wrap the result in transport-safe base64.
/// Success is owed whenever the image has pixels; every failure of the
/// underlying encoder surfaces as `EncodeFailed`.
pub fn image_to_base64_png(img: &Image) -> (r: Result<String, CaptureError>)
    requires
        img.wf(),
    ensures
        r matches Ok(s) ==> s@ == base64_chars(png_bytes(img.width, img.height, img.pixels@)),
        r matches Err(e) ==> e == CaptureError::EncodeFailed,
        img.width > 0 && img.height > 0 ==> r is Ok,
{
    match encode_png(img) {
        Some(b) => Ok(encode_base64(&b)),
        None => Err(CaptureError::EncodeFailed),
    }
}

} // verus!
