use slint_snapshot::comparison::{compare, InvalidRgbaImage, RgbaView};
use slint_snapshot::frame::is_png_extension;
use slint_snapshot::png_codec::DecodedPng;
use slint_snapshot::testing::artifacts::{create_diff_image, pixel_at};
use slint_snapshot::testing::codec::{
    baseline_from_decoded, decode_png, decoder_byte_limit, encode_png, normalize_samples,
};
use slint_snapshot::testing::SnapshotTestError;
use slint_snapshot::{ComparisonPolicy, RenderedFrame};

#[test]
fn frame_round_trips_through_png() {
    let pixels = vec![0x33, 0x66, 0x99, 0xff, 1, 2, 3, 4];
    let frame = RenderedFrame::from_pixels(2, 1, pixels.clone()).expect("frame");
    assert_eq!(frame.dimensions(), (2, 1));
    assert_eq!(frame.rgba8(), &pixels[..]);
    let encoded = frame.encode_png().expect("in-memory PNG");
    assert!(encoded.starts_with(b"\x89PNG\r\n\x1a\n"));
    let decoded = decode_png("frame.png", &encoded, 16).expect("decoded");
    let view = decoded.as_view();
    assert_eq!(view.dimensions(), (2, 1));
    assert_eq!(view.rgba8(), &pixels[..]);
    assert!(compare(view, frame.as_view(), ComparisonPolicy::Exact).is_match());
}

#[test]
fn frames_must_be_tightly_packed() {
    assert!(matches!(
        RenderedFrame::from_pixels(2, 2, vec![0; 15]),
        Err(InvalidRgbaImage::InvalidBufferLength {
            expected_bytes: 16,
            actual_bytes: 15,
            ..
        })
    ));
    assert!(matches!(
        RenderedFrame::from_pixels(0, 2, vec![]),
        Err(InvalidRgbaImage::EmptyDimensions { .. })
    ));
}

#[test]
fn recognises_png_extensions_in_any_case() {
    assert!(is_png_extension("png"));
    assert!(is_png_extension("PnG"));
    assert!(!is_png_extension("invalid"));
    assert!(!is_png_extension("pn"));
}

#[test]
fn normalizes_every_supported_color_type() {
    assert_eq!(normalize_samples(6, &[1, 2, 3, 4]), Some(vec![1, 2, 3, 4]));
    assert_eq!(
        normalize_samples(2, &[1, 2, 3, 4, 5, 6, 7]),
        Some(vec![1, 2, 3, 255, 4, 5, 6, 255])
    );
    assert_eq!(normalize_samples(4, &[9, 8]), Some(vec![9, 9, 9, 8]));
    assert_eq!(
        normalize_samples(0, &[10, 200]),
        Some(vec![10, 10, 10, 255, 200, 200, 200, 255])
    );
    assert_eq!(normalize_samples(3, &[0]), None);
}

#[test]
fn decoded_frames_are_checked_before_use() {
    let frame = |color_type: u8, bit_depth: u8, samples: Vec<u8>| DecodedPng {
        width: 1,
        height: 1,
        color_type,
        bit_depth,
        samples,
    };
    assert!(matches!(
        baseline_from_decoded("b.png", (1, 1), frame(6, 16, vec![0; 8])),
        Err(SnapshotTestError::UnsupportedPngFormat {
            color_type: 6,
            bit_depth: 16,
            ..
        })
    ));
    assert!(matches!(
        baseline_from_decoded("b.png", (1, 1), frame(3, 8, vec![0])),
        Err(SnapshotTestError::UnsupportedPngFormat { color_type: 3, .. })
    ));
    assert!(matches!(
        baseline_from_decoded("b.png", (2, 1), frame(6, 8, vec![0; 4])),
        Err(SnapshotTestError::InvalidBaselineImage {
            source: InvalidRgbaImage::InvalidBufferLength { .. },
            ..
        })
    ));
    let image = baseline_from_decoded("b.png", (1, 1), frame(0, 8, vec![7])).expect("gray");
    assert_eq!(image.as_view().rgba8(), &[7, 7, 7, 255]);
}

#[test]
fn decoder_limit_leaves_room_for_metadata() {
    assert_eq!(decoder_byte_limit(3), 12 + 1024 * 1024);
    assert_eq!(decoder_byte_limit(u64::MAX), usize::MAX);
}

#[test]
fn decoding_garbage_names_the_baseline() {
    let error = decode_png("broken.png", b"stale", 16).expect_err("not a PNG");
    assert!(matches!(error, SnapshotTestError::PngDecoding { ref path, .. } if path == "broken.png"));
}

#[test]
fn diff_image_marks_changed_missing_and_extra_pixels() {
    let expected_bytes = [30, 60, 90, 255, 0, 0, 0, 255];
    let actual_bytes = [30, 60, 90, 255, 9, 0, 0, 255, 1, 1, 1, 1, 2, 2, 2, 2];
    let expected = RgbaView::new(2, 1, &expected_bytes).expect("expected");
    let actual = RgbaView::new(2, 2, &actual_bytes).expect("actual");
    let diff = create_diff_image(expected, actual, ComparisonPolicy::Exact, 4).expect("diff");
    let view = diff.as_view();
    assert_eq!(view.dimensions(), (2, 2));
    assert_eq!(
        view.rgba8(),
        &[10, 20, 30, 255, 255, 0, 255, 255, 0, 255, 255, 255, 0, 255, 255, 255]
    );
    assert!(create_diff_image(expected, actual, ComparisonPolicy::Exact, 3).is_none());
    assert_eq!(pixel_at(actual, 1, 1), Some(&[2u8, 2, 2, 2][..]));
    assert_eq!(pixel_at(actual, 2, 0), None);
}

#[test]
fn encoding_errors_name_the_destination() {
    let pixels = [1, 2, 3, 4];
    let image = RgbaView::new(1, 1, &pixels).expect("image");
    let bytes = encode_png(image, "out.png").expect("encoded");
    assert!(bytes.starts_with(b"\x89PNG"));
}
