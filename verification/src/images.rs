//! The two image-codec calls the classification engine makes, each behind a
//! trusted wrapper: encoding one raw RGBA frame as a PNG, and decoding an
//! image file back to its raw pixels.  Both are functions of their input
//! bytes alone, so each result carries a name the contracts can speak of.

use vstd::prelude::*;

verus! {

/// The raw pixels an image file decodes to, or `None` when the bytes are not
/// a decodable image.
pub uninterp spec fn decoded_image(data: Seq<u8>) -> Option<Seq<u8>>;

/// The PNG encoding of one `width` x `height` RGBA frame.
pub uninterp spec fn png_encoding(width: nat, height: nat, pixels: Seq<u8>) -> Seq<u8>;

/// Relies on `image::load_from_memory` and `DynamicImage::as_bytes`: decoding
/// is a function of the input bytes alone, and yields the image's raw pixel
/// buffer.
#[verifier::external_body]
pub(crate) fn decode_image(data: &Vec<u8>) -> (r: Result<Vec<u8>, String>)
    ensures
        match r {
            Ok(pixels) => decoded_image(data@) == Some(pixels@),
            Err(_) => decoded_image(data@) is None,
        },
{
    match image::load_from_memory(data.as_slice()) {
        Ok(img) => Ok(img.as_bytes().to_vec()),
        Err(e) => Err(e.to_string()),
    }
}

/// Relies on `image::ImageBuffer::from_raw` and `ImageBuffer::write_to`: with
/// a buffer of exactly `width * height * 4` bytes the buffer is accepted, and
/// writing it in PNG format is a function of the dimensions and pixels alone.
/// The PNG encoder rejects only zero-width or zero-height frames, and the
/// writer here is an in-memory cursor, so encoding a frame with both
/// dimensions positive succeeds.
#[verifier::external_body]
pub(crate) fn encode_png(width: usize, height: usize, pixels: &Vec<u8>) -> (r: Result<
    Vec<u8>,
    String,
>)
    requires
        width * height * 4 == pixels@.len(),
        width <= u32::MAX,
        height <= u32::MAX,
    ensures
        r matches Ok(v) ==> v@ == png_encoding(width as nat, height as nat, pixels@),
        1 <= width && 1 <= height ==> r is Ok,
{
    let buffer: image::ImageBuffer<image::Rgba<u8>, &[u8]> =
        match image::ImageBuffer::from_raw(width as u32, height as u32, pixels.as_slice()) {
            Some(b) => b,
            None => return Err("framebuffer does not fit the expected dimensions".to_owned()),
        };
    let mut out = std::io::Cursor::new(Vec::new());
    match buffer.write_to(&mut out, image::ImageFormat::Png) {
        Ok(()) => Ok(out.into_inner()),
        Err(e) => Err(e.to_string()),
    }
}

} // verus!
