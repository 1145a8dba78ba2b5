//! Rendered RGBA frames and their PNG encoding.

use vstd::prelude::*;

use crate::comparison::{rgba_shape_error, InvalidRgbaImage, RgbaSource, RgbaView};
use crate::png_codec::{encode_rgba8, png_decoded_frame, png_header_size, png_rgba8_encoding};

verus! {

/// A rendered frame in eight-bit RGBA channel order.
///
/// The frame is the reusable boundary between the renderer and image tools,
/// snapshot tests, encoders, and file exporters. Its bytes are always tightly
/// packed: `width * height * 4` of them, with non-zero width and height.
#[derive(Debug)]
pub struct RenderedFrame {
    width: u32,
    height: u32,
    pixels: Vec<u8>,
}

impl RenderedFrame {
    #[verifier::type_invariant]
    spec fn is_tightly_packed(self) -> bool {
        rgba_shape_error(self.width, self.height, self.pixels@.len() as int) is None
    }

    pub closed spec fn spec_width(&self) -> u32 {
        self.width
    }

    pub closed spec fn spec_height(&self) -> u32 {
        self.height
    }

    pub open spec fn spec_dimensions(&self) -> (u32, u32) {
        (self.spec_width(), self.spec_height())
    }

    /// The frame's bytes.
    pub closed spec fn pixels_view(&self) -> Seq<u8> {
        self.pixels@
    }

    /// Takes ownership of a renderer's pixel buffer after checking that it is
    /// tightly packed RGBA8 data of the given size.
    pub fn from_pixels(width: u32, height: u32, pixels: Vec<u8>) -> (r: Result<
        Self,
        InvalidRgbaImage,
    >)
        ensures
            r is Ok <==> rgba_shape_error(width, height, pixels@.len() as int) is None,
            r matches Ok(frame) ==> frame.width() == width && frame.height() == height
                && frame.pixels_view() == pixels@,
            r matches Err(e) ==> Some(e) == rgba_shape_error(width, height, pixels@.len() as int),
    {
        match RgbaView::new(width, height, pixels.as_slice()) {
            Ok(_) => Ok(RenderedFrame { width, height, pixels }),
            Err(e) => Err(e),
        }
    }

    /// Returns the physical width and height in pixels.
    #[verifier::when_used_as_spec(spec_dimensions)]
    pub fn dimensions(&self) -> (r: (u32, u32))
        ensures
            r == self.spec_dimensions(),
    {
        (self.width, self.height)
    }

    /// Returns the physical width in pixels.
    #[verifier::when_used_as_spec(spec_width)]
    pub fn width(&self) -> (r: u32)
        ensures
            r == self.spec_width(),
    {
        self.width
    }

    /// Returns the physical height in pixels.
    #[verifier::when_used_as_spec(spec_height)]
    pub fn height(&self) -> (r: u32)
        ensures
            r == self.spec_height(),
    {
        self.height
    }

    /// Returns tightly packed RGBA bytes in row-major order.
    pub fn rgba8(&self) -> (r: &[u8])
        ensures
            r@ == self.pixels_view(),
            rgba_shape_error(self.width(), self.height(), r@.len() as int) is None,
    {
        proof {
            use_type_invariant(self);
        }
        self.pixels.as_slice()
    }

    /// A validated view of this frame for comparison.
    pub fn as_view(&self) -> (r: RgbaView<'_>)
        ensures
            r.width() == self.width(),
            r.height() == self.height(),
            r.pixels_view() == self.pixels_view(),
    {
        proof {
            use_type_invariant(self);
        }
        RgbaView::from_valid(self.width, self.height, self.pixels.as_slice())
    }

    /// Encodes this frame as an in-memory RGBA8 PNG.
    ///
    /// The encoder accepts every valid frame, so this always succeeds, and
    /// decoding the bytes gives back the frame's size, RGBA at depth eight, and
    /// its bytes.
    pub fn encode_png(&self) -> (r: Result<Vec<u8>, FrameEncodeError>)
        ensures
            r is Ok,
            r matches Ok(bytes) ==> bytes@ == png_rgba8_encoding(
                self.width(),
                self.height(),
                self.pixels_view(),
            ),
            r matches Ok(bytes) ==> png_header_size(bytes@, usize::MAX) == Some(self.dimensions()),
            r matches Ok(bytes) ==> png_decoded_frame(bytes@, usize::MAX) == Some(
                (self.width(), self.height(), 6u8, 8u8, self.pixels_view()),
            ),
    {
        proof {
            use_type_invariant(self);
        }
        match encode_rgba8(self.width, self.height, self.pixels.as_slice()) {
            Ok(bytes) => Ok(bytes),
            Err(source) => Err(FrameEncodeError { source }),
        }
    }
}

impl Clone for RenderedFrame {
    fn clone(&self) -> (r: Self)
        ensures
            r.dimensions() == self.dimensions(),
            r.pixels_view() == self.pixels_view(),
    {
        proof {
            use_type_invariant(self);
        }
        let pixels = self.pixels.clone();
        assert(pixels@ =~= self.pixels@);
        RenderedFrame { width: self.width, height: self.height, pixels }
    }
}

impl RgbaSource for RenderedFrame {
    fn dimensions(&self) -> (r: (u32, u32))
        ensures
            r == self.spec_dimensions(),
    {
        (self.width, self.height)
    }

    fn rgba8(&self) -> (r: &[u8])
        ensures
            r@ == self.pixels_view(),
    {
        self.pixels.as_slice()
    }
}

/// Whether a file extension names a PNG file: `png` in any ASCII letter case.
pub fn is_png_extension(extension: &str) -> (r: bool)
    ensures
        r == (extension@.len() == 3 && crate::testing::name::ascii_lower(extension@[0]) == 'p'
            && crate::testing::name::ascii_lower(extension@[1]) == 'n'
            && crate::testing::name::ascii_lower(extension@[2]) == 'g'),
{
    let chars = crate::text::chars_of(extension);
    chars.len() == 3 && crate::testing::name::lower_char(chars[0]) == 'p'
        && crate::testing::name::lower_char(chars[1]) == 'n'
        && crate::testing::name::lower_char(chars[2]) == 'g'
}

/// An RGBA frame could not be encoded as PNG.
#[derive(Debug)]
pub struct FrameEncodeError {
    source: png::EncodingError,
}

impl FrameEncodeError {
    /// The error that the PNG encoder reported.
    pub closed spec fn spec_source(&self) -> png::EncodingError {
        self.source
    }

    /// The encoder's error.
    pub fn source(&self) -> (r: &png::EncodingError)
        ensures
            *r == self.spec_source(),
    {
        &self.source
    }
}

} // verus!
