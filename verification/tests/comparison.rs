use slint_snapshot::comparison::{
    channel_delta, compare, ComparisonOutcome, ComparisonPolicy, Difference, InvalidRgbaImage,
    RgbaView,
};

#[test]
fn validates_rgba_shape() {
    assert!(matches!(
        RgbaView::new(0, 1, &[]),
        Err(InvalidRgbaImage::EmptyDimensions {
            width: 0,
            height: 1
        })
    ));
    assert!(matches!(
        RgbaView::new(2, 1, &[0; 4]),
        Err(InvalidRgbaImage::InvalidBufferLength {
            expected_bytes: 8,
            actual_bytes: 4,
            ..
        })
    ));
}

#[test]
fn exact_comparison_reports_pixel_statistics() {
    let expected_bytes = [10, 20, 30, 255, 40, 50, 60, 255];
    let actual_bytes = [10, 20, 30, 255, 40, 55, 60, 255];
    let expected = RgbaView::new(2, 1, &expected_bytes).expect("expected image");
    let actual = RgbaView::new(2, 1, &actual_bytes).expect("actual image");

    let outcome = compare(expected, actual, ComparisonPolicy::Exact);
    let ComparisonOutcome::Mismatch(Difference::Pixels(stats)) = outcome else {
        panic!("expected a pixel mismatch: {outcome:?}");
    };
    assert_eq!(stats.total_pixels(), 2);
    assert_eq!(stats.different_pixels(), 1);
    let ratio = stats.different_pixels() as f64 / stats.total_pixels() as f64;
    assert!((ratio - 0.5).abs() < f64::EPSILON);
    assert_eq!(stats.maximum_channel_delta(), 5);
}

#[test]
fn tolerance_uses_a_strict_channel_threshold_and_pixel_budget() {
    let expected_bytes = [10, 20, 30, 255, 40, 50, 60, 255];
    let actual_bytes = [12, 18, 30, 255, 40, 53, 60, 255];
    let expected = RgbaView::new(2, 1, &expected_bytes).expect("expected image");
    let actual = RgbaView::new(2, 1, &actual_bytes).expect("actual image");
    let policy = ComparisonPolicy::PixelTolerance {
        channel_delta_threshold: 2,
        max_pixels_over_threshold: 1,
    };

    let ComparisonOutcome::Match(stats) = compare(expected, actual, policy) else {
        panic!("one over-threshold pixel should be tolerated");
    };
    assert_eq!(stats.different_pixels(), 1);
    assert_eq!(stats.maximum_channel_delta(), 3);
}

#[test]
fn reports_dimensions_without_inventing_pixel_statistics() {
    let expected_bytes = [0; 8];
    let actual_bytes = [0; 16];
    let expected = RgbaView::new(2, 1, &expected_bytes).expect("expected image");
    let actual = RgbaView::new(2, 2, &actual_bytes).expect("actual image");

    let ComparisonOutcome::Mismatch(Difference::Dimensions(dimensions)) =
        compare(expected, actual, ComparisonPolicy::Exact)
    else {
        panic!("expected dimension mismatch");
    };
    assert_eq!(dimensions.expected(), (2, 1));
    assert_eq!(dimensions.actual(), (2, 2));
}

#[test]
fn rejects_dimensions_whose_byte_length_overflows() {
    if usize::BITS == 64 {
        assert!(RgbaView::new(u32::MAX, u32::MAX, &[]).is_err());
        assert!(matches!(
            RgbaView::new(u32::MAX, u32::MAX, &[]),
            Err(InvalidRgbaImage::DimensionsOverflow { .. }) | Err(InvalidRgbaImage::InvalidBufferLength { .. })
        ));
    } else {
        assert!(matches!(
            RgbaView::new(u32::MAX, u32::MAX, &[]),
            Err(InvalidRgbaImage::DimensionsOverflow {
                width: u32::MAX,
                height: u32::MAX
            })
        ));
    }
    assert!(matches!(
        RgbaView::new(1, 0, &[]),
        Err(InvalidRgbaImage::EmptyDimensions {
            width: 1,
            height: 0
        })
    ));
}

#[test]
fn identical_images_match_under_every_policy() {
    let bytes = [1, 2, 3, 4, 200, 100, 50, 0];
    let image = RgbaView::new(1, 2, &bytes).expect("image");
    for policy in [
        ComparisonPolicy::Exact,
        ComparisonPolicy::PixelTolerance {
            channel_delta_threshold: 0,
            max_pixels_over_threshold: 0,
        },
    ] {
        let outcome = compare(image, image, policy);
        assert!(outcome.is_match());
        let stats = outcome.match_stats().expect("statistics");
        assert_eq!(stats.different_pixels(), 0);
        assert_eq!(stats.maximum_channel_delta(), 0);
        assert_eq!(stats.size(), (1, 2));
        assert!(outcome.difference().is_none());
    }
}

#[test]
fn swapping_images_keeps_the_statistics() {
    let a_bytes = [0, 0, 0, 255, 9, 9, 9, 9];
    let b_bytes = [3, 0, 0, 255, 9, 9, 9, 0];
    let a = RgbaView::new(2, 1, &a_bytes).expect("a");
    let b = RgbaView::new(2, 1, &b_bytes).expect("b");
    let policy = ComparisonPolicy::PixelTolerance {
        channel_delta_threshold: 3,
        max_pixels_over_threshold: 0,
    };
    let forward = compare(a, b, policy);
    let backward = compare(b, a, policy);
    assert_eq!(forward, backward);
    let ComparisonOutcome::Mismatch(Difference::Pixels(stats)) = forward else {
        panic!("expected a pixel mismatch");
    };
    assert_eq!(stats.different_pixels(), 1);
    assert_eq!(stats.maximum_channel_delta(), 9);
}

#[test]
fn looser_policy_accepts_what_a_stricter_one_accepts() {
    let expected_bytes = [10, 10, 10, 10];
    let actual_bytes = [11, 10, 10, 10];
    let expected = RgbaView::new(1, 1, &expected_bytes).expect("expected");
    let actual = RgbaView::new(1, 1, &actual_bytes).expect("actual");
    assert!(!compare(expected, actual, ComparisonPolicy::Exact).is_match());
    assert!(compare(
        expected,
        actual,
        ComparisonPolicy::PixelTolerance {
            channel_delta_threshold: 1,
            max_pixels_over_threshold: 0
        }
    )
    .is_match());
    assert!(compare(
        expected,
        actual,
        ComparisonPolicy::PixelTolerance {
            channel_delta_threshold: 0,
            max_pixels_over_threshold: 1
        }
    )
    .is_match());
}

#[test]
fn policy_accessors_and_pixel_threshold() {
    let policy = ComparisonPolicy::PixelTolerance {
        channel_delta_threshold: 4,
        max_pixels_over_threshold: 7,
    };
    assert_eq!(policy.channel_delta_threshold(), 4);
    assert_eq!(policy.max_pixels_over_threshold(), 7);
    assert_eq!(ComparisonPolicy::Exact.channel_delta_threshold(), 0);
    assert_eq!(ComparisonPolicy::default(), ComparisonPolicy::Exact);
    assert!(policy.pixel_exceeds_threshold(&[0, 0, 0, 0], &[0, 5, 0, 0]));
    assert!(!policy.pixel_exceeds_threshold(&[0, 0, 0, 0], &[4, 4, 4, 4]));
    assert_eq!(channel_delta(3, 250), 247);
    assert_eq!(channel_delta(250, 3), 247);
}
