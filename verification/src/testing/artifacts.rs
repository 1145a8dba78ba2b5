//! Failure artifacts: the encoded expected, actual and diff images of a failed
//! check, and the file operations that store them.

use vstd::prelude::*;

use crate::comparison::{channels_over, pixel_over, rgba_shape_error, ComparisonPolicy, RgbaView};
use crate::png_codec::{encode_rgba8, png_rgba8_encoding};
use crate::runtime::pixel_count;
use crate::testing::codec::{encode_png, OwnedRgbaImage};
use crate::testing::error::{ArtifactPaths, SnapshotTestError, SnapshotWriteError};
use crate::testing::store::{join, join_path, WriteMode};

verus! {

// ---------------------------------------------------------------------------
// Model of the diff canvas
// ---------------------------------------------------------------------------

pub open spec fn max_u32(a: u32, b: u32) -> u32 {
    if a >= b {
        a
    } else {
        b
    }
}

/// Byte offset of pixel `(x, y)` in a tightly packed image of the given width.
pub open spec fn pixel_offset(width: u32, x: int, y: int) -> int {
    (y * width + x) * 4
}

/// The four bytes of pixel `(x, y)` of an image.
pub open spec fn pixel_bytes(image: RgbaView, x: int, y: int) -> Seq<u8> {
    let offset = pixel_offset(image.width(), x, y);
    image.pixels_view().subrange(offset, offset + 4)
}

pub open spec fn contains_pixel(image: RgbaView, x: int, y: int) -> bool {
    0 <= x < image.width() && 0 <= y < image.height()
}

/// The colour of diff pixel `(x, y)`: magenta where both images have the pixel and
/// it is over the policy's threshold, a darkened copy of the expected pixel where
/// it is within the threshold, red where only the expected image has the pixel,
/// and cyan where only the actual image has it.
pub open spec fn diff_pixel(
    expected: RgbaView,
    actual: RgbaView,
    policy: ComparisonPolicy,
    x: int,
    y: int,
) -> Seq<u8> {
    if contains_pixel(expected, x, y) && contains_pixel(actual, x, y) {
        let e = pixel_bytes(expected, x, y);
        if channels_over(e, pixel_bytes(actual, x, y), policy.channel_delta_threshold()) {
            seq![255u8, 0u8, 255u8, 255u8]
        } else {
            seq![e[0] / 3, e[1] / 3, e[2] / 3, 255u8]
        }
    } else if contains_pixel(expected, x, y) {
        seq![255u8, 0u8, 0u8, 255u8]
    } else {
        seq![0u8, 255u8, 255u8, 255u8]
    }
}

pub open spec fn canvas_width(expected: RgbaView, actual: RgbaView) -> u32 {
    max_u32(expected.width(), actual.width())
}

pub open spec fn canvas_height(expected: RgbaView, actual: RgbaView) -> u32 {
    max_u32(expected.height(), actual.height())
}

/// The diff canvas, which covers both images, in row-major RGBA8.
pub open spec fn diff_canvas(expected: RgbaView, actual: RgbaView, policy: ComparisonPolicy) -> Seq<
    u8,
> {
    let w = canvas_width(expected, actual);
    let h = canvas_height(expected, actual);
    Seq::new(
        (w * h * 4) as nat,
        |k: int| diff_pixel(expected, actual, policy, (k / 4) % (w as int), (k / 4) / (w as int))[k
            % 4],
    )
}

/// The canvas is within the pixel budget and its bytes can be addressed.
pub open spec fn diff_canvas_fits(expected: RgbaView, actual: RgbaView, max_pixels: u64) -> bool {
    let w = canvas_width(expected, actual);
    let h = canvas_height(expected, actual);
    w * h <= max_pixels && w * h * 4 <= usize::MAX
}

/// Every pixel of the canvas belongs to one of the images: one image is at least
/// as wide and as tall as the other.
pub open spec fn canvas_is_covered(expected: RgbaView, actual: RgbaView) -> bool {
    ||| expected.width() >= actual.width() && expected.height() >= actual.height()
    ||| actual.width() >= expected.width() && actual.height() >= expected.height()
}

/// The diff highlights exactly the pixels that the comparison counts. For two
/// images of the same size, the diff canvas has the images' size and its pixel
/// at `(x, y)` is magenta when that pixel is over the policy's channel
/// threshold (as the comparison counts it), and otherwise is the expected pixel
/// darkened to a third, with an opaque alpha.
pub proof fn law_diff_highlights_counted_pixels(
    expected: RgbaView,
    actual: RgbaView,
    policy: ComparisonPolicy,
    x: int,
    y: int,
)
    requires
        expected.dimensions() == actual.dimensions(),
        0 <= x < expected.width(),
        0 <= y < expected.height(),
    ensures
        ({
            let w = expected.width() as int;
            let p = y * w + x;
            let canvas = diff_canvas(expected, actual, policy);
            let pixel = canvas.subrange(4 * p, 4 * p + 4);
            let e = expected.pixels_view().subrange(4 * p, 4 * p + 4);
            &&& canvas_width(expected, actual) == expected.width()
            &&& canvas_height(expected, actual) == expected.height()
            &&& pixel_over(
                expected.pixels_view(),
                actual.pixels_view(),
                policy.channel_delta_threshold(),
                p,
            ) ==> pixel == seq![255u8, 0u8, 255u8, 255u8]
            &&& !pixel_over(
                expected.pixels_view(),
                actual.pixels_view(),
                policy.channel_delta_threshold(),
                p,
            ) ==> pixel == seq![e[0] / 3, e[1] / 3, e[2] / 3, 255u8]
        }),
{
    let w = expected.width() as int;
    let h = expected.height() as int;
    let p = y * w + x;
    let canvas = diff_canvas(expected, actual, policy);
    assert(y * w == w * y) by (nonlinear_arith);
    assert(p + 1 <= w * h) by (nonlinear_arith)
        requires
            p == y * w + x,
            0 <= x < w,
            0 <= y < h,
    ;
    assert(0 <= p) by (nonlinear_arith)
        requires
            p == y * w + x,
            0 <= x,
            0 <= y,
            0 <= w,
    ;
    crate::testing::codec::lemma_pixel_slot(y, x, w);
    assert(p / w == y && p % w == x);
    assert forall|c: int| 0 <= c < 4 implies #[trigger] canvas[4 * p + c] == diff_pixel(
        expected,
        actual,
        policy,
        x,
        y,
    )[c] by {
        crate::testing::codec::lemma_pixel_slot(p, c, 4);
    }
    assert(pixel_offset(expected.width(), x, y) == 4 * p);
    assert(pixel_bytes(actual, x, y) == actual.pixels_view().subrange(4 * p, 4 * p + 4));
    let d = diff_pixel(expected, actual, policy, x, y);
    assert(canvas.subrange(4 * p, 4 * p + 4) =~= d);
}

// ---------------------------------------------------------------------------
// Diff image
// ---------------------------------------------------------------------------

/// The four bytes of pixel `(x, y)`, or `None` outside the image.
pub fn pixel_at<'a>(image: RgbaView<'a>, x: u32, y: u32) -> (r: Option<&'a [u8]>)
    ensures
        r is Some <==> contains_pixel(image, x as int, y as int),
        r matches Some(pixel) ==> pixel@ == pixel_bytes(image, x as int, y as int) && pixel@.len()
            == 4,
{
    if x >= image.width() || y >= image.height() {
        return None;
    }
    let pixels = image.rgba8();
    let w: u64 = image.width() as u64;
    let h: u64 = image.height() as u64;
    proof {
        assert(((y as int) * (w as int) + (x as int)) * 4 + 4 <= (w as int) * (h as int) * 4)
            by (nonlinear_arith)
            requires
                (y as int) < (h as int),
                (x as int) < (w as int),
        ;
        assert(0 <= (y as int) * (w as int)) by (nonlinear_arith)
            requires
                0 <= (y as int),
                0 <= (w as int),
        ;
    }
    let len: usize = pixels.len();
    assert(len == (w as int) * (h as int) * 4);
    let row: u64 = y as u64 * w;
    let index: u64 = (row + x as u64) * 4;
    let index: usize = index as usize;
    Some(&pixels[index..index + 4])
}

/// A diff canvas covering both images, or `None` when the canvas exceeds
/// `max_pixels` or its bytes cannot be addressed.
pub fn create_diff_image(
    expected: RgbaView<'_>,
    actual: RgbaView<'_>,
    policy: ComparisonPolicy,
    max_pixels: u64,
) -> (r: Option<OwnedRgbaImage>)
    requires
        diff_canvas_fits(expected, actual, max_pixels) ==> canvas_is_covered(expected, actual),
    ensures
        r is Some <==> diff_canvas_fits(expected, actual, max_pixels),
        r matches Some(image) ==> image.width() == canvas_width(expected, actual) && image.height()
            == canvas_height(expected, actual) && image.pixels_view() == diff_canvas(
            expected,
            actual,
            policy,
        ),
{
    // `rgba8` states that both images are non-empty and tightly packed.
    let _ = expected.rgba8();
    let _ = actual.rgba8();
    let width = if expected.width() >= actual.width() {
        expected.width()
    } else {
        actual.width()
    };
    let height = if expected.height() >= actual.height() {
        expected.height()
    } else {
        actual.height()
    };
    let pixels = pixel_count(width, height);
    if pixels > max_pixels {
        return None;
    }
    let capacity: usize = match pixels.checked_mul(4) {
        Some(bytes) => if bytes <= usize::MAX as u64 {
            bytes as usize
        } else {
            return None;
        },
        None => return None,
    };
    let ghost canvas = diff_canvas(expected, actual, policy);
    let count: usize = capacity / 4;
    let mut output: Vec<u8> = Vec::new();
    let mut p: usize = 0;
    while p < count
        invariant
            p <= count,
            count == width * height,
            width == canvas_width(expected, actual),
            height == canvas_height(expected, actual),
            width > 0,
            canvas_is_covered(expected, actual),
            canvas == diff_canvas(expected, actual, policy),
            canvas.len() == count * 4,
            output@ == canvas.take(4 * p),
        decreases count - p,
    {
        let column: usize = p % (width as usize);
        let row: usize = p / (width as usize);
        proof {
            vstd::arithmetic::div_mod::lemma_fundamental_div_mod(p as int, width as int);
            assert((row as int) < (height as int)) by (nonlinear_arith)
                requires
                    (row as int) == (p as int) / (width as int),
                    (p as int) < (width as int) * (height as int),
                    (width as int) > 0,
            ;
        }
        let x: u32 = column as u32;
        let y: u32 = row as u32;
        let expected_pixel = pixel_at(expected, x, y);
        let actual_pixel = pixel_at(actual, x, y);
        let display: [u8; 4] = match (expected_pixel, actual_pixel) {
            (Some(e), Some(a)) => {
                if policy.pixel_exceeds_threshold(e, a) {
                    [255, 0, 255, 255]
                } else {
                    [e[0] / 3, e[1] / 3, e[2] / 3, 255]
                }
            },
            (Some(_), None) => [255, 0, 0, 255],
            (None, Some(_)) => [0, 255, 255, 255],
            (None, None) => {
                proof {
                    assert(false);
                }
                [0, 0, 0, 0]
            },
        };
        let ghost expected_display = diff_pixel(expected, actual, policy, x as int, y as int);
        assert(display@ =~= expected_display);
        output.push(display[0]);
        output.push(display[1]);
        output.push(display[2]);
        output.push(display[3]);
        proof {
            assert forall|k: int| 0 <= k < 4 * (p + 1) implies #[trigger] output@[k] == canvas[k] by {
                if k >= 4 * p {
                    crate::testing::codec::lemma_pixel_slot(p as int, k - 4 * p, 4);
                }
            }
            assert(output@ =~= canvas.take(4 * (p + 1)));
        }
        p += 1;
    }
    assert(output@ =~= canvas);
    Some(OwnedRgbaImage::new(width, height, output))
}

// ---------------------------------------------------------------------------
// File operations
// ---------------------------------------------------------------------------

/// One filesystem step of a snapshot check, performed by the caller in order.
#[derive(Debug)]
pub enum FileOperation {
    /// Remove the file if it exists.
    Remove { path: String },
    /// Write the bytes to the file, atomically.
    Write { path: String, bytes: Vec<u8>, mode: WriteMode },
}

/// The operation removes the file at `path`.
pub open spec fn is_remove(op: FileOperation, path: Seq<char>) -> bool {
    op matches FileOperation::Remove { path: p } && p@ == path
}

/// The operation writes `bytes` to the file at `path` in the given mode.
pub open spec fn is_write(op: FileOperation, path: Seq<char>, bytes: Seq<u8>, mode: WriteMode) -> bool {
    op matches FileOperation::Write { path: p, bytes: b, mode: m } && p@ == path && b@ == bytes && m
        == mode
}

/// The file of an artifact directory that holds the expected image.
pub open spec fn expected_artifact(dir: Seq<char>) -> Seq<char> {
    join_path(dir, "expected.png"@)
}

/// The file of an artifact directory that holds the actual image.
pub open spec fn actual_artifact(dir: Seq<char>) -> Seq<char> {
    join_path(dir, "actual.png"@)
}

/// The file of an artifact directory that holds the diff image.
pub open spec fn diff_artifact(dir: Seq<char>) -> Seq<char> {
    join_path(dir, "diff.png"@)
}

/// The encoding of an image.
pub open spec fn encoding_of(image: RgbaView) -> Seq<u8> {
    png_rgba8_encoding(image.width(), image.height(), image.pixels_view())
}

/// The artifacts of a missing baseline: stale expected and diff images are
/// removed and the actual image is written. Returns the operations and the
/// path of the actual image, or the failure to encode the actual image.
pub fn missing_actual_artifacts(artifact_dir: &str, actual: RgbaView<'_>) -> (r: Result<
    (Vec<FileOperation>, String),
    SnapshotWriteError,
>)
    ensures
        r is Ok,
        r matches Ok((ops, actual_path)) ==> {
            &&& actual_path@ == actual_artifact(artifact_dir@)
            &&& ops@.len() == 3
            &&& is_remove(ops@[0], expected_artifact(artifact_dir@))
            &&& is_remove(ops@[1], diff_artifact(artifact_dir@))
            &&& is_write(ops@[2], actual_artifact(artifact_dir@), encoding_of(actual), WriteMode::Replace)
        },
        r matches Err(e) ==> (e matches SnapshotWriteError::PngEncoding { path: p, .. } && p@
            == actual_artifact(artifact_dir@)),
{
    let expected_path = join(artifact_dir, "expected.png");
    let actual_path = join(artifact_dir, "actual.png");
    let diff_path = join(artifact_dir, "diff.png");
    let pixels = actual.rgba8();
    let actual_png = match encode_rgba8(actual.width(), actual.height(), pixels) {
        Ok(bytes) => bytes,
        Err(source) => return Err(SnapshotWriteError::PngEncoding { path: actual_path, source }),
    };
    let mut ops: Vec<FileOperation> = Vec::new();
    ops.push(FileOperation::Remove { path: expected_path });
    ops.push(FileOperation::Remove { path: diff_path });
    ops.push(
        FileOperation::Write {
            path: actual_path.clone(),
            bytes: actual_png,
            mode: WriteMode::Replace,
        },
    );
    Ok((ops, actual_path))
}

/// The artifacts of a failed comparison: the expected and actual images, and
/// the diff image when its canvas fits `max_pixels`; a stale diff image is
/// removed when the canvas does not fit. Every image is encoded before any
/// operation is returned. A fitting canvas must be covered by the images.
pub fn mismatch_artifacts(
    artifact_dir: &str,
    expected: RgbaView<'_>,
    actual: RgbaView<'_>,
    policy: ComparisonPolicy,
    max_pixels: u64,
) -> (r: Result<(Vec<FileOperation>, ArtifactPaths), SnapshotTestError>)
    requires
        diff_canvas_fits(expected, actual, max_pixels) ==> canvas_is_covered(expected, actual),
    ensures
        r is Ok,
        r matches Ok((ops, paths)) ==> {
            &&& paths.expected_view() == expected_artifact(artifact_dir@)
            &&& paths.actual_view() == actual_artifact(artifact_dir@)
            &&& if diff_canvas_fits(expected, actual, max_pixels) {
                &&& paths.diff_view() == Some(diff_artifact(artifact_dir@))
                &&& ops@.len() == 3
                &&& is_write(ops@[0], expected_artifact(artifact_dir@), encoding_of(expected), WriteMode::Replace)
                &&& is_write(ops@[1], actual_artifact(artifact_dir@), encoding_of(actual), WriteMode::Replace)
                &&& is_write(
                    ops@[2],
                    diff_artifact(artifact_dir@),
                    png_rgba8_encoding(
                        canvas_width(expected, actual),
                        canvas_height(expected, actual),
                        diff_canvas(expected, actual, policy),
                    ),
                    WriteMode::Replace,
                )
            } else {
                &&& paths.diff_view() is None
                &&& ops@.len() == 3
                &&& is_remove(ops@[0], diff_artifact(artifact_dir@))
                &&& is_write(ops@[1], expected_artifact(artifact_dir@), encoding_of(expected), WriteMode::Replace)
                &&& is_write(ops@[2], actual_artifact(artifact_dir@), encoding_of(actual), WriteMode::Replace)
            }
        },
{
    let expected_path = join(artifact_dir, "expected.png");
    let actual_path = join(artifact_dir, "actual.png");
    let diff_path = join(artifact_dir, "diff.png");
    let expected_png = match encode_png(expected, expected_path.as_str()) {
        Ok(bytes) => bytes,
        Err(e) => return Err(e),
    };
    let actual_png = match encode_png(actual, actual_path.as_str()) {
        Ok(bytes) => bytes,
        Err(e) => return Err(e),
    };
    let diff = create_diff_image(expected, actual, policy, max_pixels);
    let mut ops: Vec<FileOperation> = Vec::new();
    match diff {
        Some(image) => {
            let diff_png = match encode_png(image.as_view(), diff_path.as_str()) {
                Ok(bytes) => bytes,
                Err(e) => return Err(e),
            };
            ops.push(
                FileOperation::Write {
                    path: expected_path.clone(),
                    bytes: expected_png,
                    mode: WriteMode::Replace,
                },
            );
            ops.push(
                FileOperation::Write {
                    path: actual_path.clone(),
                    bytes: actual_png,
                    mode: WriteMode::Replace,
                },
            );
            ops.push(
                FileOperation::Write {
                    path: diff_path.clone(),
                    bytes: diff_png,
                    mode: WriteMode::Replace,
                },
            );
            Ok((ops, ArtifactPaths::new(expected_path, actual_path, Some(diff_path))))
        },
        None => {
            ops.push(FileOperation::Remove { path: diff_path });
            ops.push(
                FileOperation::Write {
                    path: expected_path.clone(),
                    bytes: expected_png,
                    mode: WriteMode::Replace,
                },
            );
            ops.push(
                FileOperation::Write {
                    path: actual_path.clone(),
                    bytes: actual_png,
                    mode: WriteMode::Replace,
                },
            );
            Ok((ops, ArtifactPaths::new(expected_path, actual_path, None)))
        },
    }
}

} // verus!
