//! PNG encoding of snapshot images and decoding of baselines into RGBA8.

use vstd::prelude::*;
use vstd::string::StringExecFns;

use crate::comparison::{rgba_shape_error, InvalidRgbaImage, RgbaView};
use crate::png_codec::{
    decode_png_frame, encode_rgba8, png_decoded_frame, png_header_size, png_rgba8_encoding,
    read_png_header, DecodedPng,
};
use crate::runtime::pixel_count;
use crate::testing::error::SnapshotTestError;

verus! {

// ---------------------------------------------------------------------------
// Model
// ---------------------------------------------------------------------------

/// PNG colour-type code of gray samples.
pub const GRAYSCALE: u8 = 0;

/// PNG colour-type code of red, green and blue samples.
pub const RGB: u8 = 2;

/// PNG colour-type code of the palette index samples.
pub const INDEXED: u8 = 3;

/// PNG colour-type code of gray and alpha samples.
pub const GRAYSCALE_ALPHA: u8 = 4;

/// PNG colour-type code of red, green, blue and alpha samples.
pub const RGBA: u8 = 6;

/// Three-sample RGB pixels with an opaque alpha channel added; a trailing
/// incomplete pixel is dropped.
pub open spec fn expand_rgb(samples: Seq<u8>) -> Seq<u8> {
    Seq::new(
        ((samples.len() / 3) * 4) as nat,
        |k: int|
            if k % 4 == 3 {
                255u8
            } else {
                samples[3 * (k / 4) + k % 4]
            },
    )
}

/// Gray-and-alpha pixels with the gray sample copied to red, green and blue; a
/// trailing incomplete pixel is dropped.
pub open spec fn expand_gray_alpha(samples: Seq<u8>) -> Seq<u8> {
    Seq::new(
        ((samples.len() / 2) * 4) as nat,
        |k: int|
            if k % 4 == 3 {
                samples[2 * (k / 4) + 1]
            } else {
                samples[2 * (k / 4)]
            },
    )
}

/// Gray pixels copied to red, green and blue, with an opaque alpha channel.
pub open spec fn expand_gray(samples: Seq<u8>) -> Seq<u8> {
    Seq::new(
        (samples.len() * 4) as nat,
        |k: int|
            if k % 4 == 3 {
                255u8
            } else {
                samples[k / 4]
            },
    )
}

/// Eight-bit samples of a colour type, expanded to RGBA; `None` for indexed
/// colour and unknown codes.
pub open spec fn normalized_rgba(color_type: u8, samples: Seq<u8>) -> Option<Seq<u8>> {
    if color_type == RGBA {
        Some(samples)
    } else if color_type == RGB {
        Some(expand_rgb(samples))
    } else if color_type == GRAYSCALE_ALPHA {
        Some(expand_gray_alpha(samples))
    } else if color_type == GRAYSCALE {
        Some(expand_gray(samples))
    } else {
        None
    }
}

/// The decoder's allocation limit for a baseline of at most `max_pixels` pixels:
/// room for the RGBA output plus 1 MiB, saturating at `usize::MAX`.
pub open spec fn decoder_limit(max_pixels: u64) -> usize {
    let rgba = if max_pixels * 4 <= usize::MAX {
        max_pixels * 4
    } else {
        usize::MAX as int
    };
    if rgba + 1048576 <= usize::MAX {
        (rgba + 1048576) as usize
    } else {
        usize::MAX
    }
}

pub(crate) proof fn lemma_pixel_slot(i: int, c: int, width: int)
    requires
        0 <= i,
        0 <= c < width,
    ensures
        (width * i + c) / width == i,
        (width * i + c) % width == c,
{
    assert(width * i == i * width) by (nonlinear_arith);
    vstd::arithmetic::div_mod::lemma_fundamental_div_mod_converse(width * i + c, width, i, c);
}

/// Normalising builds every RGBA pixel from that pixel's own samples alone:
/// RGBA samples are kept; pixel `i` of RGB samples is `samples[3i..3i+3]` with
/// an opaque alpha; pixel `i` of gray-and-alpha samples repeats `samples[2i]`
/// three times and takes `samples[2i+1]` as alpha; pixel `i` of gray samples
/// repeats `samples[i]` with an opaque alpha. There is one pixel per complete
/// group of samples.
pub proof fn law_normalized_pixels_come_from_their_own_samples(
    color_type: u8,
    samples: Seq<u8>,
    i: int,
)
    requires
        normalized_rgba(color_type, samples) is Some,
    ensures
        ({
            let out = normalized_rgba(color_type, samples).unwrap();
            let pixel = out.subrange(4 * i, 4 * i + 4);
            &&& color_type == RGBA ==> out == samples
            &&& color_type == RGB ==> out.len() == 4 * (samples.len() / 3)
            &&& color_type == RGB && 0 <= i < samples.len() / 3 ==> pixel == seq![
                samples[3 * i],
                samples[3 * i + 1],
                samples[3 * i + 2],
                255u8,
            ]
            &&& color_type == GRAYSCALE_ALPHA ==> out.len() == 4 * (samples.len() / 2)
            &&& color_type == GRAYSCALE_ALPHA && 0 <= i < samples.len() / 2 ==> pixel == seq![
                samples[2 * i],
                samples[2 * i],
                samples[2 * i],
                samples[2 * i + 1],
            ]
            &&& color_type == GRAYSCALE ==> out.len() == 4 * samples.len()
            &&& color_type == GRAYSCALE && 0 <= i < samples.len() ==> pixel == seq![
                samples[i],
                samples[i],
                samples[i],
                255u8,
            ]
        }),
{
    let out = normalized_rgba(color_type, samples).unwrap();
    if 0 <= i {
        lemma_pixel_slot(i, 0, 4);
        lemma_pixel_slot(i, 1, 4);
        lemma_pixel_slot(i, 2, 4);
        lemma_pixel_slot(i, 3, 4);
    }
    if color_type == RGB && 0 <= i < samples.len() / 3 {
        assert(4 * i + 4 <= (samples.len() / 3) * 4) by (nonlinear_arith)
            requires
                i < samples.len() / 3,
        ;
        assert(3 * i + 2 < samples.len()) by (nonlinear_arith)
            requires
                i < samples.len() / 3,
                0 <= i,
        ;
        assert(out.subrange(4 * i, 4 * i + 4) =~= seq![
            samples[3 * i],
            samples[3 * i + 1],
            samples[3 * i + 2],
            255u8,
        ]);
    }
    if color_type == GRAYSCALE_ALPHA && 0 <= i < samples.len() / 2 {
        assert(4 * i + 4 <= (samples.len() / 2) * 4) by (nonlinear_arith)
            requires
                i < samples.len() / 2,
        ;
        assert(out.subrange(4 * i, 4 * i + 4) =~= seq![
            samples[2 * i],
            samples[2 * i],
            samples[2 * i],
            samples[2 * i + 1],
        ]);
    }
    if color_type == GRAYSCALE && 0 <= i < samples.len() {
        assert(out.subrange(4 * i, 4 * i + 4) =~= seq![samples[i], samples[i], samples[i], 255u8]);
    }
}

// ---------------------------------------------------------------------------
// Images
// ---------------------------------------------------------------------------

/// An owned, validated RGBA8 image.
#[derive(Debug)]
pub struct OwnedRgbaImage {
    width: u32,
    height: u32,
    pixels: Vec<u8>,
}

impl OwnedRgbaImage {
    #[verifier::type_invariant]
    spec fn is_valid(self) -> bool {
        rgba_shape_error(self.width, self.height, self.pixels@.len() as int) is None
    }

    pub closed spec fn spec_width(&self) -> u32 {
        self.width
    }

    pub closed spec fn spec_height(&self) -> u32 {
        self.height
    }

    pub closed spec fn pixels_view(&self) -> Seq<u8> {
        self.pixels@
    }

    pub(crate) fn new(width: u32, height: u32, pixels: Vec<u8>) -> (r: Self)
        requires
            rgba_shape_error(width, height, pixels@.len() as int) is None,
        ensures
            r.width() == width,
            r.height() == height,
            r.pixels_view() == pixels@,
    {
        OwnedRgbaImage { width, height, pixels }
    }

    /// Returns the width in pixels.
    #[verifier::when_used_as_spec(spec_width)]
    pub fn width(&self) -> (r: u32)
        ensures
            r == self.spec_width(),
    {
        self.width
    }

    /// Returns the height in pixels.
    #[verifier::when_used_as_spec(spec_height)]
    pub fn height(&self) -> (r: u32)
        ensures
            r == self.spec_height(),
    {
        self.height
    }

    /// A validated view of this image.
    pub fn as_view(&self) -> (r: RgbaView<'_>)
        ensures
            r.width() == self.width(),
            r.height() == self.height(),
            r.pixels_view() == self.pixels_view(),
    {
        proof {
            use_type_invariant(self);
        }
        RgbaView::from_valid(self.width, self.height, self.pixels.as_slice())
    }
}

// ---------------------------------------------------------------------------
// Encoding
// ---------------------------------------------------------------------------

/// Encodes an image as an RGBA8 PNG destined for `path`.
///
/// The encoder accepts every valid image, so this always succeeds.
pub fn encode_png(image: RgbaView<'_>, path: &str) -> (r: Result<Vec<u8>, SnapshotTestError>)
    ensures
        r is Ok,
        r matches Ok(bytes) ==> bytes@ == png_rgba8_encoding(
            image.width(),
            image.height(),
            image.pixels_view(),
        ),
        r matches Err(e) ==> (e matches SnapshotTestError::PngEncoding { path: p, .. } && p@
            == path@),
        r matches Ok(bytes) ==> png_decoded_frame(bytes@, usize::MAX) == Some(
            (image.width(), image.height(), 6u8, 8u8, image.pixels_view()),
        ),
{
    match encode_rgba8(image.width(), image.height(), image.rgba8()) {
        Ok(bytes) => Ok(bytes),
        Err(source) => Err(SnapshotTestError::PngEncoding { path: String::from_str(path), source }),
    }
}

// ---------------------------------------------------------------------------
// Decoding
// ---------------------------------------------------------------------------

/// The decoder's allocation limit for baselines of at most `max_pixels` pixels.
pub fn decoder_byte_limit(max_pixels: u64) -> (r: usize)
    ensures
        r == decoder_limit(max_pixels),
{
    let rgba: usize = match max_pixels.checked_mul(4) {
        Some(bytes) => if bytes <= usize::MAX as u64 {
            bytes as usize
        } else {
            usize::MAX
        },
        None => usize::MAX,
    };
    rgba.saturating_add(1024 * 1024)
}

/// Rejects a baseline whose header announces more than `max_pixels` pixels.
pub fn validate_baseline_pixel_limit(size: (u32, u32), max_pixels: u64, path: &str) -> (r: Result<
    (),
    SnapshotTestError,
>)
    ensures
        size.0 * size.1 <= max_pixels ==> r is Ok,
        size.0 * size.1 > max_pixels ==> (r matches Err(
            SnapshotTestError::BaselinePixelLimitExceeded { path: p, width, height, pixels, max_pixels: m },
        ) && p@ == path@ && width == size.0 && height == size.1 && pixels == size.0 * size.1 && m
            == max_pixels),
{
    let (width, height) = size;
    let pixels = pixel_count(width, height);
    if pixels > max_pixels {
        return Err(
            SnapshotTestError::BaselinePixelLimitExceeded {
                path: String::from_str(path),
                width,
                height,
                pixels,
                max_pixels,
            },
        );
    }
    Ok(())
}

/// Expands decoded eight-bit samples of a colour type to RGBA8.
pub fn normalize_samples(color_type: u8, samples: &[u8]) -> (r: Option<Vec<u8>>)
    ensures
        match normalized_rgba(color_type, samples@) {
            Some(expected) => r matches Some(out) && out@ == expected,
            None => r is None,
        },
{
    if color_type == RGBA {
        return Some(vstd::slice::slice_to_vec(samples));
    }
    let per_pixel: usize = if color_type == RGB {
        3
    } else if color_type == GRAYSCALE_ALPHA {
        2
    } else if color_type == GRAYSCALE {
        1
    } else {
        return None;
    };
    let ghost expected = normalized_rgba(color_type, samples@).unwrap();
    let count: usize = samples.len() / per_pixel;
    let mut out: Vec<u8> = Vec::new();
    let mut i: usize = 0;
    while i < count
        invariant
            i <= count,
            samples@.len() <= usize::MAX,
            count == samples@.len() / (per_pixel as nat),
            per_pixel == 3 || per_pixel == 2 || per_pixel == 1,
            per_pixel == 3 <==> color_type == 2,
            per_pixel == 2 <==> color_type == 4,
            per_pixel == 1 <==> color_type == 0,
            expected == normalized_rgba(color_type, samples@).unwrap(),
            expected.len() == count * 4,
            out@ == expected.take(4 * i),
        decreases count - i,
    {
        proof {
            vstd::arithmetic::div_mod::lemma_fundamental_div_mod(samples@.len() as int, per_pixel as int);
            assert(per_pixel * (i + 1) <= per_pixel * count) by (nonlinear_arith)
                requires
                    i + 1 <= count,
                    per_pixel >= 1,
            ;
            assert(per_pixel * (i + 1) == per_pixel * i + per_pixel) by (nonlinear_arith);
        }
        let base: usize = per_pixel * i;
        let pixel: [u8; 4] = if per_pixel == 3 {
            [samples[base], samples[base + 1], samples[base + 2], 255]
        } else if per_pixel == 2 {
            [samples[base], samples[base], samples[base], samples[base + 1]]
        } else {
            [samples[base], samples[base], samples[base], 255]
        };
        out.push(pixel[0]);
        out.push(pixel[1]);
        out.push(pixel[2]);
        out.push(pixel[3]);
        proof {
            assert forall|k: int| 0 <= k < 4 * (i + 1) implies #[trigger] out@[k] == expected[k] by {
                if k >= 4 * i {
                    lemma_pixel_slot(i as int, k - 4 * i, 4);
                }
            }
            assert(out@ =~= expected.take(4 * (i + 1)));
        }
        i += 1;
    }
    assert(out@ =~= expected);
    Some(out)
}

/// The result of turning the decoded frame `frame` (width, height, colour-type
/// code, bit depth, samples) into a baseline of the header's `size`, read from
/// `path`.
pub open spec fn decoded_frame_result(
    path: Seq<char>,
    size: (u32, u32),
    frame: (u32, u32, u8, u8, Seq<u8>),
    r: Result<OwnedRgbaImage, SnapshotTestError>,
) -> bool {
    if frame.3 != 8 {
        r matches Err(SnapshotTestError::UnsupportedPngFormat { path: p, color_type, bit_depth })
            && p@ == path && color_type == frame.2 && bit_depth == frame.3
    } else if frame.0 * frame.1 * 4 > usize::MAX {
        r matches Err(SnapshotTestError::InvalidBaselineImage { path: p, source }) && p@ == path
            && source == (InvalidRgbaImage::DimensionsOverflow { width: frame.0, height: frame.1 })
    } else {
        match normalized_rgba(frame.2, frame.4) {
            None => r matches Err(
                SnapshotTestError::UnsupportedPngFormat { path: p, color_type, bit_depth },
            ) && p@ == path && color_type == frame.2 && bit_depth == frame.3,
            Some(pixels) => match rgba_shape_error(size.0, size.1, pixels.len() as int) {
                Some(e) => r matches Err(SnapshotTestError::InvalidBaselineImage { path: p, source })
                    && p@ == path && source == e,
                None => r matches Ok(image) && image.width() == size.0 && image.height() == size.1
                    && image.pixels_view() == pixels,
            },
        }
    }
}

/// The RGBA bytes of a decoded frame, when they form a baseline of the header's
/// size.
pub open spec fn decoded_rgba(size: (u32, u32), frame: (u32, u32, u8, u8, Seq<u8>)) -> Option<Seq<u8>> {
    if frame.3 == 8 && frame.0 * frame.1 * 4 <= usize::MAX {
        match normalized_rgba(frame.2, frame.4) {
            Some(pixels) => if rgba_shape_error(size.0, size.1, pixels.len() as int) is None {
                Some(pixels)
            } else {
                None
            },
            None => None,
        }
    } else {
        None
    }
}

/// The baseline that `bytes` decode to under a budget of `max_pixels` pixels: its
/// size and RGBA bytes, or `None` where decoding fails or is refused.
pub open spec fn decoded_baseline(bytes: Seq<u8>, max_pixels: u64) -> Option<((u32, u32), Seq<u8>)> {
    let limit = decoder_limit(max_pixels);
    match png_header_size(bytes, limit) {
        Some(size) => if size.0 * size.1 <= max_pixels {
            match png_decoded_frame(bytes, limit) {
                Some(frame) => match decoded_rgba(size, frame) {
                    Some(pixels) => Some((size, pixels)),
                    None => None,
                },
                None => None,
            }
        } else {
            None
        },
        None => None,
    }
}

/// The result of decoding the baseline `bytes` read from `path` under a budget of
/// `max_pixels` pixels: a rejected header or frame is a decoding error, a header
/// over the budget is refused before the image data is decoded, and a decoded
/// frame is turned into the baseline as [`decoded_frame_result`] says.
pub open spec fn decode_result(
    path: Seq<char>,
    bytes: Seq<u8>,
    max_pixels: u64,
    r: Result<OwnedRgbaImage, SnapshotTestError>,
) -> bool {
    let limit = decoder_limit(max_pixels);
    match png_header_size(bytes, limit) {
        None => r matches Err(SnapshotTestError::PngDecoding { path: p, .. }) && p@ == path,
        Some(size) => if size.0 * size.1 > max_pixels {
            &&& r matches Err(SnapshotTestError::BaselinePixelLimitExceeded {
                path: p,
                width,
                height,
                pixels,
                max_pixels: m,
            })
            &&& p@ == path && (width, height) == size && pixels == width * height
            &&& m == max_pixels
        } else {
            match png_decoded_frame(bytes, limit) {
                None => r matches Err(SnapshotTestError::PngDecoding { path: p, .. }) && p@ == path,
                Some(frame) => decoded_frame_result(path, size, frame, r),
            }
        },
    }
}

/// Turns a decoded frame into the baseline image of the given header size.
///
/// The frame must use eight-bit samples of a non-indexed colour type; its
/// samples, expanded to RGBA8, must be a valid image of the header's size.
pub fn baseline_from_decoded(path: &str, size: (u32, u32), frame: DecodedPng) -> (r: Result<
    OwnedRgbaImage,
    SnapshotTestError,
>)
    ensures
        decoded_frame_result(
            path@,
            size,
            (frame.width, frame.height, frame.color_type, frame.bit_depth, frame.samples@),
            r,
        ),
{
    if frame.bit_depth != 8 {
        return Err(
            SnapshotTestError::UnsupportedPngFormat {
                path: String::from_str(path),
                color_type: frame.color_type,
                bit_depth: frame.bit_depth,
            },
        );
    }
    let frame_pixels = pixel_count(frame.width, frame.height);
    let fits = match frame_pixels.checked_mul(4) {
        Some(bytes) => bytes <= usize::MAX as u64,
        None => false,
    };
    if !fits {
        return Err(
            SnapshotTestError::InvalidBaselineImage {
                path: String::from_str(path),
                source: InvalidRgbaImage::DimensionsOverflow {
                    width: frame.width,
                    height: frame.height,
                },
            },
        );
    }
    let rgba = match normalize_samples(frame.color_type, frame.samples.as_slice()) {
        Some(rgba) => rgba,
        None => {
            return Err(
                SnapshotTestError::UnsupportedPngFormat {
                    path: String::from_str(path),
                    color_type: frame.color_type,
                    bit_depth: frame.bit_depth,
                },
            );
        },
    };
    let (width, height) = size;
    match RgbaView::new(width, height, rgba.as_slice()) {
        Ok(_) => Ok(OwnedRgbaImage::new(width, height, rgba)),
        Err(source) => Err(
            SnapshotTestError::InvalidBaselineImage { path: String::from_str(path), source },
        ),
    }
}

/// Decodes a baseline PNG read from `path`, allowing at most `max_pixels` pixels.
///
/// The header is read first; a baseline over the pixel budget is rejected
/// before its image data is decoded. Decoder failures are reported for `path`.
pub fn decode_png(path: &str, bytes: &[u8], max_pixels: u64) -> (r: Result<
    OwnedRgbaImage,
    SnapshotTestError,
>)
    ensures
        r is Ok <==> decoded_baseline(bytes@, max_pixels) is Some,
        r matches Ok(image) ==> decoded_baseline(bytes@, max_pixels) == Some(
            ((image.width(), image.height()), image.pixels_view()),
        ),
        decode_result(path@, bytes@, max_pixels, r),
        r matches Err(e) ==> (e is PngDecoding || e is BaselinePixelLimitExceeded
            || e is UnsupportedPngFormat || e is InvalidBaselineImage),
{
    let limit = decoder_byte_limit(max_pixels);
    let size = match read_png_header(bytes, limit) {
        Ok(size) => size,
        Err(source) => {
            return Err(SnapshotTestError::PngDecoding { path: String::from_str(path), source });
        },
    };
    match validate_baseline_pixel_limit(size, max_pixels, path) {
        Ok(()) => {},
        Err(e) => return Err(e),
    }
    let frame = match decode_png_frame(bytes, limit) {
        Ok(frame) => frame,
        Err(source) => {
            return Err(SnapshotTestError::PngDecoding { path: String::from_str(path), source });
        },
    };
    baseline_from_decoded(path, size, frame)
}

} // verus!
