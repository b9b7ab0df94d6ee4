use vstd::prelude::*;

verus! {

/// What decoding a buffer of encoded image bytes yields: the pixel width,
/// the pixel height and the row-major RGBA8 pixel bytes, or nothing when
/// the bytes are not a decodable image. Decoding is a function of the
/// bytes alone.
pub uninterp spec fn decoded_rgba(bytes: Seq<u8>) -> Option<(nat, nat, Seq<u8>)>;

/// The encoded PNG stream, 8-bit RGBA color layout, for the given
/// row-major pixel bytes and dimensions. Encoding is a function of the
/// pixels and dimensions alone.
pub uninterp spec fn png_encoding(pixels: Seq<u8>, width: u16, height: u16) -> Seq<u8>;

/// Relies on `image::load_from_memory` followed by
/// `DynamicImage::to_rgba8`: decoding is deterministic in the input bytes,
/// and the RGBA8 buffer it yields holds exactly `width * height * 4`
/// bytes.
#[verifier::external_body]
pub(crate) fn decode_rgba(bytes: &[u8]) -> (r: Result<(u32, u32, Vec<u8>), ()>)
    ensures
        match r {
            Ok((w, h, px)) => {
                &&& decoded_rgba(bytes@) == Some((w as nat, h as nat, px@))
                &&& px@.len() == (w as int) * (h as int) * 4
            },
            Err(()) => decoded_rgba(bytes@) is None,
        },
{
    match image::load_from_memory(bytes) {
        Ok(img) => {
            let rgba = img.to_rgba8();
            let (w, h) = rgba.dimensions();
            Ok((w, h, rgba.into_raw()))
        },
        Err(_) => Err(()),
    }
}

/// Relies on `image::png::PngEncoder` with `ColorType::Rgba8`: the encoder
/// is created with fixed compression settings, so the stream it writes is
/// a function of the pixel bytes and dimensions alone. Its only failure
/// paths are a zero dimension, an unsupported depth/color layout (RGBA8 is
/// supported), a pixel buffer whose length is not `width * height * 4`,
/// and a writer error — and writing into a byte buffer cannot fail. The
/// precondition rules them all out, so encoding succeeds.
#[verifier::external_body]
pub(crate) fn encode_png(pixels: &[u8], width: u16, height: u16) -> (r: Result<Vec<u8>, ()>)
    requires
        width > 0,
        height > 0,
        pixels@.len() == (width as int) * (height as int) * 4,
    ensures
        r is Ok,
        r matches Ok(out) ==> out@ == png_encoding(pixels@, width, height),
{
    let mut out: Vec<u8> = Vec::new();
    let encoder = image::png::PngEncoder::new(&mut out);
    let res = encoder.encode(pixels, u32::from(width), u32::from(height), image::ColorType::Rgba8);
    match res {
        Ok(()) => Ok(out),
        Err(_) => Err(()),
    }
}

} // verus!
