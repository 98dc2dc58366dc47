//! The application's icon: its pixels, decoded from the embedded image.
use vstd::prelude::*;

verus! {

/// The RGBA8 pixels, width and height that the `image` crate decodes from
/// the bytes of an encoded image; `None` where it cannot decode them.
pub uninterp spec fn decoded_rgba(encoded: Seq<u8>) -> Option<(Seq<u8>, u32, u32)>;

/// Decodes with `image::load_from_memory` (the format is guessed from the
/// bytes), converts to RGBA8 with `DynamicImage::into_rgba8`, and hands out
/// the raw pixels (`ImageBuffer::into_raw`) and the dimensions
/// (`ImageBuffer::dimensions`). The contract names the result
/// (`decoded_rgba` of the bytes) and states one fact of it: the pixels fill
/// exactly `width * height * 4` bytes (a decoded buffer holds the decoder's
/// `total_bytes`, width times height times the bytes of a pixel, and a
/// conversion to RGBA8 makes four bytes of each pixel).
#[verifier::external_body]
fn decode_rgba(encoded: &[u8]) -> (r: Option<(Vec<u8>, u32, u32)>)
    ensures
        match r {
            Some((px, w, h)) => decoded_rgba(encoded@) == Some((px@, w, h)) && px@.len() == w as int
                * h as int * 4,
            None => decoded_rgba(encoded@) is None,
        },
{
    match image::load_from_memory(encoded) {
        Ok(img) => {
            let rgba = img.into_rgba8();
            let (w, h) = rgba.dimensions();
            Some((rgba.into_raw(), w, h))
        },
        Err(_) => None,
    }
}

/// The icon's RGBA8 pixels, width and height, decoded from the encoded
/// image `png`; `None` where the bytes are no image.
pub fn decode_icon(png: &[u8]) -> (r: Option<(Vec<u8>, u32, u32)>)
    ensures
        match r {
            Some((px, w, h)) => decoded_rgba(png@) == Some((px@, w, h)) && px@.len() == w as int
                * h as int * 4,
            None => decoded_rgba(png@) is None,
        },
{
    decode_rgba(png)
}

/// The length in bytes of a row of RGBA8 pixels `width` wide, where it
/// fits an `i32` (as the window icon's pixel buffer needs it).
pub fn row_stride(width: u32) -> (r: Option<i32>)
    ensures
        width as int * 4 <= i32::MAX ==> r == Some((width * 4) as i32),
        width as int * 4 > i32::MAX ==> r is None,
{
    if width <= 0x1fff_ffff {
        Some((width * 4) as i32)
    } else {
        None
    }
}

} // verus!
