//! The calls into the `png` crate: RGBA8 encoding, and decoding normalised to
//! eight-bit samples.

use vstd::prelude::*;

use crate::comparison::rgba_shape_error;

verus! {

/// `png::EncodingError`, carried through as an opaque value.
#[verifier::external_type_specification]
#[verifier::external_body]
pub struct ExEncodingError(png::EncodingError);

/// `png::DecodingError`, carried through as an opaque value.
#[verifier::external_type_specification]
#[verifier::external_body]
pub struct ExDecodingError(png::DecodingError);

/// The PNG file that the `png` encoder produces for an eight-bit RGBA image of the
/// given size and samples.
pub uninterp spec fn png_rgba8_encoding(width: u32, height: u32, pixels: Seq<u8>) -> Seq<u8>;

/// The image size that the `png` decoder reads from the header of `bytes`, decoding
/// under an allocation limit of `limit` bytes; `None` where the decoder rejects the
/// header.
pub uninterp spec fn png_header_size(bytes: Seq<u8>, limit: usize) -> Option<(u32, u32)>;

/// The first frame that the `png` decoder produces from `bytes` under an allocation
/// limit of `limit` bytes, with the `EXPAND | STRIP_16` transformations: its width,
/// height, colour-type code, bit depth and samples; `None` where the decoder rejects
/// the data.
pub uninterp spec fn png_decoded_frame(bytes: Seq<u8>, limit: usize) -> Option<(u32, u32, u8, u8, Seq<u8>)>;

/// Encodes eight-bit RGBA samples as a PNG with `png::Encoder` (colour type
/// `Rgba`, depth `Eight`, `write_header` then `write_image_data`).
///
/// Trusted: the encoder succeeds, and the bytes are its output for these
/// arguments. The sizes are required to be consistent: the encoder then fails
/// only on a zero size, an invalid colour and depth pair, a buffer of the wrong
/// length or a failing writer, and none of these can occur here (RGBA at depth
/// eight is valid, and the writer is a `Vec`). PNG is lossless: the `png`
/// decoder, without an allocation limit, reads back the header's size and
/// decodes the output to RGBA (colour-type code 6) at depth eight with the same
/// samples. The encoder writes only the header, the image data and the end
/// chunk, so no decoder transformation changes them, and the decoder's only
/// allocation checks are against the limit.
#[verifier::external_body]
pub(crate) fn encode_rgba8(width: u32, height: u32, pixels: &[u8]) -> (r: Result<Vec<u8>, png::EncodingError>)
    requires
        rgba_shape_error(width, height, pixels@.len() as int) is None,
    ensures
        r is Ok,
        r matches Ok(bytes) ==> bytes@ == png_rgba8_encoding(width, height, pixels@),
        r matches Ok(bytes) ==> png_header_size(bytes@, usize::MAX) == Some((width, height)),
        r matches Ok(bytes) ==> png_decoded_frame(bytes@, usize::MAX) == Some(
            (width, height, 6u8, 8u8, pixels@),
        ),
{
    let mut bytes = Vec::new();
    {
        let mut encoder = png::Encoder::new(&mut bytes, width, height);
        encoder.set_color(png::ColorType::Rgba);
        encoder.set_depth(png::BitDepth::Eight);
        encoder.write_header()?.write_image_data(pixels)?;
    }
    Ok(bytes)
}

/// Reads the image size from a PNG header with `png::Decoder::new_with_limits`
/// and `read_header_info`.
///
/// Trusted: the decoder reads the header exactly when the name gives a size, and
/// the size is the decoder's reading of these bytes.
#[verifier::external_body]
pub(crate) fn read_png_header(bytes: &[u8], limit: usize) -> (r: Result<(u32, u32), png::DecodingError>)
    ensures
        r is Ok <==> png_header_size(bytes@, limit) is Some,
        r matches Ok(size) ==> Some(size) == png_header_size(bytes@, limit),
{
    let mut decoder = png::Decoder::new_with_limits(std::io::Cursor::new(bytes), png::Limits { bytes: limit });
    let info = decoder.read_header_info()?;
    Ok((info.width, info.height))
}

/// One frame decoded by the `png` crate: the colour type and bit depth are the
/// numeric codes of `png::ColorType` and `png::BitDepth`.
pub struct DecodedPng {
    pub width: u32,
    pub height: u32,
    pub color_type: u8,
    pub bit_depth: u8,
    pub samples: Vec<u8>,
}

/// Decodes the first frame of a PNG with `png::Decoder::new_with_limits`,
/// `Transformations::normalize_to_color8`, `read_info`, `output_buffer_size`
/// and `next_frame`, keeping the first `OutputInfo::buffer_size` bytes.
///
/// Trusted: the decoder produces a frame exactly when the name gives one, and the
/// frame is the decoder's output for these bytes and limit. Nothing is claimed
/// about its shape: callers validate it.
#[verifier::external_body]
pub(crate) fn decode_png_frame(bytes: &[u8], limit: usize) -> (r: Result<DecodedPng, png::DecodingError>)
    ensures
        r is Ok <==> png_decoded_frame(bytes@, limit) is Some,
        r matches Ok(frame) ==> Some((frame.width, frame.height, frame.color_type, frame.bit_depth,
            frame.samples@)) == png_decoded_frame(bytes@, limit),
{
    let mut decoder = png::Decoder::new_with_limits(std::io::Cursor::new(bytes), png::Limits { bytes: limit });
    decoder.set_transformations(png::Transformations::normalize_to_color8());
    let mut reader = decoder.read_info()?;
    let size = reader.output_buffer_size().ok_or(png::DecodingError::LimitsExceeded)?;
    let mut samples = vec![0; size];
    let output = reader.next_frame(&mut samples)?;
    samples.truncate(output.buffer_size());
    Ok(DecodedPng { width: output.width, height: output.height, color_type: output.color_type as u8, bit_depth: output.bit_depth as u8, samples })
}

} // verus!
