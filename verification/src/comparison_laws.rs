//! Laws of RGBA8 comparison, stated over the model that [`crate::comparison::compare`]
//! is specified with.

use vstd::prelude::*;

use crate::comparison::{
    abs_diff, channels_over, count_over, images_match, max_delta, outcome_describes, pixel_over,
    rgba_shape_error, ComparisonOutcome, ComparisonPolicy, Difference,
};

verus! {

proof fn lemma_count_over_same_image(image: Seq<u8>, threshold: u8, n: nat)
    ensures
        count_over(image, image, threshold, n) == 0,
    decreases n,
{
    if n > 0 {
        lemma_count_over_same_image(image, threshold, (n - 1) as nat);
        let p = n - 1;
        let sub = image.subrange(4 * p, 4 * p + 4);
        assert forall|k: int| 0 <= k < sub.len() implies !(#[trigger] abs_diff(sub[k], sub[k])
            > threshold) by {}
        assert(!pixel_over(image, image, threshold, p));
    }
}

proof fn lemma_max_delta_same_image(image: Seq<u8>, m: nat)
    ensures
        max_delta(image, image, m) == 0,
    decreases m,
{
    if m > 0 {
        lemma_max_delta_same_image(image, (m - 1) as nat);
    }
}

proof fn lemma_count_over_symmetric(expected: Seq<u8>, actual: Seq<u8>, threshold: u8, n: nat)
    ensures
        count_over(expected, actual, threshold, n) == count_over(actual, expected, threshold, n),
    decreases n,
{
    if n > 0 {
        lemma_count_over_symmetric(expected, actual, threshold, (n - 1) as nat);
        let p = n - 1;
        let e = expected.subrange(4 * p, 4 * p + 4);
        let a = actual.subrange(4 * p, 4 * p + 4);
        if channels_over(e, a, threshold) {
            let k = choose|k: int|
                0 <= k < e.len() && k < a.len() && #[trigger] abs_diff(e[k], a[k]) > threshold;
            assert(abs_diff(a[k], e[k]) > threshold);
        }
        if channels_over(a, e, threshold) {
            let k = choose|k: int|
                0 <= k < a.len() && k < e.len() && #[trigger] abs_diff(a[k], e[k]) > threshold;
            assert(abs_diff(e[k], a[k]) > threshold);
        }
        assert(pixel_over(expected, actual, threshold, p) == pixel_over(actual, expected, threshold, p));
    }
}

proof fn lemma_max_delta_symmetric(expected: Seq<u8>, actual: Seq<u8>, m: nat)
    ensures
        max_delta(expected, actual, m) == max_delta(actual, expected, m),
    decreases m,
{
    if m > 0 {
        lemma_max_delta_symmetric(expected, actual, (m - 1) as nat);
    }
}

proof fn lemma_count_over_monotone(
    expected: Seq<u8>,
    actual: Seq<u8>,
    strict: u8,
    loose: u8,
    n: nat,
)
    requires
        strict <= loose,
    ensures
        count_over(expected, actual, loose, n) <= count_over(expected, actual, strict, n),
    decreases n,
{
    if n > 0 {
        lemma_count_over_monotone(expected, actual, strict, loose, (n - 1) as nat);
        let p = n - 1;
        let e = expected.subrange(4 * p, 4 * p + 4);
        let a = actual.subrange(4 * p, 4 * p + 4);
        if channels_over(e, a, loose) {
            let k = choose|k: int|
                0 <= k < e.len() && k < a.len() && #[trigger] abs_diff(e[k], a[k]) > loose;
            assert(abs_diff(e[k], a[k]) > strict);
        }
    }
}

/// Exact comparison counts a pixel exactly when its four bytes differ.
proof fn lemma_exact_count_zero_iff_equal(expected: Seq<u8>, actual: Seq<u8>, n: nat)
    requires
        expected.len() >= 4 * n,
        actual.len() >= 4 * n,
    ensures
        (count_over(expected, actual, 0, n) == 0) <==> (expected.take(4 * n as int)
            =~= actual.take(4 * n as int)),
    decreases n,
{
    if n > 0 {
        let p = n - 1;
        lemma_exact_count_zero_iff_equal(expected, actual, p as nat);
        let e = expected.subrange(4 * p, 4 * p + 4);
        let a = actual.subrange(4 * p, 4 * p + 4);
        if channels_over(e, a, 0) {
            let k = choose|k: int|
                0 <= k < e.len() && k < a.len() && #[trigger] abs_diff(e[k], a[k]) > 0;
            assert(expected.take(4 * n as int)[4 * p + k] != actual.take(4 * n as int)[4 * p + k]);
        } else {
            assert forall|k: int| 0 <= k < 4 implies e[k] == a[k] by {
                if e[k] != a[k] {
                    assert(abs_diff(e[k], a[k]) > 0);
                }
            }
            if expected.take(4 * p) =~= actual.take(4 * p) {
                assert forall|j: int| 0 <= j < 4 * n implies #[trigger] expected.take(4 * n as int)[j]
                    == actual.take(4 * n as int)[j] by {
                    if j < 4 * p {
                        assert(expected.take(4 * p)[j] == actual.take(4 * p)[j]);
                    } else {
                        assert(e[j - 4 * p] == a[j - 4 * p]);
                    }
                }
            }
        }
        if expected.take(4 * n as int) =~= actual.take(4 * n as int) {
            assert forall|j: int| 0 <= j < 4 * p implies #[trigger] expected.take(4 * p)[j] == actual.take(
                4 * p,
            )[j] by {
                assert(expected.take(4 * n as int)[j] == actual.take(4 * n as int)[j]);
            }
            assert(expected.take(4 * p) =~= actual.take(4 * p));
            if channels_over(e, a, 0) {
                let k = choose|k: int|
                    0 <= k < e.len() && k < a.len() && #[trigger] abs_diff(e[k], a[k]) > 0;
                assert(expected.take(4 * n as int)[4 * p + k] == actual.take(4 * n as int)[4 * p
                    + k]);
            }
        }
    }
}

proof fn lemma_max_delta_bounds(expected: Seq<u8>, actual: Seq<u8>, m: nat, k: int)
    requires
        0 <= k < m,
    ensures
        abs_diff(expected[k], actual[k]) <= max_delta(expected, actual, m),
    decreases m,
{
    if k < m - 1 {
        lemma_max_delta_bounds(expected, actual, (m - 1) as nat, k);
    }
}

proof fn lemma_counted_pixel_exceeds_max(
    expected: Seq<u8>,
    actual: Seq<u8>,
    threshold: u8,
    n: nat,
)
    requires
        count_over(expected, actual, threshold, n) > 0,
        expected.len() >= 4 * n,
        actual.len() >= 4 * n,
    ensures
        max_delta(expected, actual, 4 * n) > threshold,
    decreases n,
{
    let p = n - 1;
    if count_over(expected, actual, threshold, p as nat) > 0 {
        lemma_counted_pixel_exceeds_max(expected, actual, threshold, p as nat);
        lemma_max_delta_monotone(expected, actual, (4 * p) as nat, 4 * n);
    } else {
        let e = expected.subrange(4 * p, 4 * p + 4);
        let a = actual.subrange(4 * p, 4 * p + 4);
        assert(pixel_over(expected, actual, threshold, p));
        let k = choose|k: int|
            0 <= k < e.len() && k < a.len() && #[trigger] abs_diff(e[k], a[k]) > threshold;
        assert(e[k] == expected[4 * p + k] && a[k] == actual[4 * p + k]);
        lemma_max_delta_bounds(expected, actual, 4 * n, 4 * p + k);
    }
}

proof fn lemma_max_delta_monotone(expected: Seq<u8>, actual: Seq<u8>, small: nat, large: nat)
    requires
        small <= large,
    ensures
        max_delta(expected, actual, small) <= max_delta(expected, actual, large),
    decreases large,
{
    if small < large {
        lemma_max_delta_monotone(expected, actual, small, (large - 1) as nat);
    }
}

/// An image always matches itself, under every policy, with no changed pixel and
/// a largest channel delta of zero.
pub proof fn law_identical_images_match(size: (u32, u32), pixels: Seq<u8>, policy: ComparisonPolicy)
    ensures
        images_match(size, pixels, size, pixels, policy),
        count_over(pixels, pixels, policy.channel_delta_threshold(), (size.0 * size.1) as nat)
            == 0,
        max_delta(pixels, pixels, (size.0 * size.1 * 4) as nat) == 0,
{
    lemma_count_over_same_image(pixels, policy.channel_delta_threshold(), (size.0 * size.1) as nat);
    lemma_max_delta_same_image(pixels, (size.0 * size.1 * 4) as nat);
}

/// Under the exact policy two valid images match exactly when their dimensions and
/// every RGBA byte are identical.
pub proof fn law_exact_match_means_identical(
    expected_size: (u32, u32),
    expected: Seq<u8>,
    actual_size: (u32, u32),
    actual: Seq<u8>,
)
    requires
        rgba_shape_error(expected_size.0, expected_size.1, expected.len() as int) is None,
        rgba_shape_error(actual_size.0, actual_size.1, actual.len() as int) is None,
    ensures
        images_match(expected_size, expected, actual_size, actual, ComparisonPolicy::Exact) <==> (
        expected_size == actual_size && expected == actual),
{
    if expected_size == actual_size {
        let n = (expected_size.0 * expected_size.1) as nat;
        lemma_exact_count_zero_iff_equal(expected, actual, n);
        assert(expected.take(4 * n as int) =~= expected);
        assert(actual.take(4 * n as int) =~= actual);
    }
}

/// Swapping the two images changes neither the verdict nor the statistics.
pub proof fn law_comparison_is_symmetric(
    expected_size: (u32, u32),
    expected: Seq<u8>,
    actual_size: (u32, u32),
    actual: Seq<u8>,
    policy: ComparisonPolicy,
)
    ensures
        images_match(expected_size, expected, actual_size, actual, policy) == images_match(
            actual_size,
            actual,
            expected_size,
            expected,
            policy,
        ),
        count_over(
            expected,
            actual,
            policy.channel_delta_threshold(),
            (expected_size.0 * expected_size.1) as nat,
        ) == count_over(
            actual,
            expected,
            policy.channel_delta_threshold(),
            (expected_size.0 * expected_size.1) as nat,
        ),
        max_delta(expected, actual, (expected_size.0 * expected_size.1 * 4) as nat) == max_delta(
            actual,
            expected,
            (expected_size.0 * expected_size.1 * 4) as nat,
        ),
{
    lemma_count_over_symmetric(
        expected,
        actual,
        policy.channel_delta_threshold(),
        (expected_size.0 * expected_size.1) as nat,
    );
    lemma_max_delta_symmetric(expected, actual, (expected_size.0 * expected_size.1 * 4) as nat);
}

/// A policy with a threshold and a pixel budget at least as large accepts every
/// pair of images that a stricter policy accepts.
pub proof fn law_looser_policy_keeps_matches(
    expected_size: (u32, u32),
    expected: Seq<u8>,
    actual_size: (u32, u32),
    actual: Seq<u8>,
    strict: ComparisonPolicy,
    loose: ComparisonPolicy,
)
    requires
        strict.channel_delta_threshold() <= loose.channel_delta_threshold(),
        strict.max_pixels_over_threshold() <= loose.max_pixels_over_threshold(),
        images_match(expected_size, expected, actual_size, actual, strict),
    ensures
        images_match(expected_size, expected, actual_size, actual, loose),
{
    lemma_count_over_monotone(
        expected,
        actual,
        strict.channel_delta_threshold(),
        loose.channel_delta_threshold(),
        (expected_size.0 * expected_size.1) as nat,
    );
}

/// A pixel is only ever counted as changed when the largest channel delta of the
/// comparison exceeds the threshold; so a largest delta within the threshold means
/// that no pixel is counted.
pub proof fn law_counted_pixels_exceed_threshold(
    size: (u32, u32),
    expected: Seq<u8>,
    actual: Seq<u8>,
    threshold: u8,
)
    requires
        rgba_shape_error(size.0, size.1, expected.len() as int) is None,
        rgba_shape_error(size.0, size.1, actual.len() as int) is None,
        max_delta(expected, actual, (size.0 * size.1 * 4) as nat) <= threshold,
    ensures
        count_over(expected, actual, threshold, (size.0 * size.1) as nat) == 0,
{
    let n = (size.0 * size.1) as nat;
    if count_over(expected, actual, threshold, n) > 0 {
        lemma_counted_pixel_exceeds_max(expected, actual, threshold, n);
    }
}

/// The positions among the first `n` pixels that are over the channel threshold.
pub open spec fn changed_pixels(expected: Seq<u8>, actual: Seq<u8>, threshold: u8, n: nat) -> Set<int> {
    Set::new(|p: int| 0 <= p < n && pixel_over(expected, actual, threshold, p))
}

proof fn lemma_count_is_number_of_changed_pixels(
    expected: Seq<u8>,
    actual: Seq<u8>,
    threshold: u8,
    n: nat,
)
    ensures
        changed_pixels(expected, actual, threshold, n).finite(),
        count_over(expected, actual, threshold, n) == changed_pixels(
            expected,
            actual,
            threshold,
            n,
        ).len(),
    decreases n,
{
    let changed = changed_pixels(expected, actual, threshold, n);
    if n == 0 {
        assert(changed =~= Set::<int>::empty());
    } else {
        let m = (n - 1) as nat;
        lemma_count_is_number_of_changed_pixels(expected, actual, threshold, m);
        let before = changed_pixels(expected, actual, threshold, m);
        if pixel_over(expected, actual, threshold, m as int) {
            assert(changed =~= before.insert(m as int));
            assert(!before.contains(m as int));
        } else {
            assert(changed =~= before);
        }
    }
}

/// Every pixel over the threshold is counted, once. Comparing two images of
/// the same size reports, in its statistics, the number of positions whose
/// pixels differ by more than the policy's channel threshold; the images match
/// exactly when that number is within the policy's pixel budget. So when all
/// `n` pixels differ, `n` pixels are reported, and the images match only if the
/// budget allows `n`.
pub proof fn law_every_changed_pixel_is_counted(
    outcome: ComparisonOutcome,
    size: (u32, u32),
    expected: Seq<u8>,
    actual: Seq<u8>,
    policy: ComparisonPolicy,
)
    requires
        outcome_describes(outcome, size, expected, size, actual, policy),
    ensures
        ({
            let n = (size.0 * size.1) as nat;
            let changed = changed_pixels(expected, actual, policy.channel_delta_threshold(), n);
            &&& changed.finite()
            &&& outcome matches ComparisonOutcome::Match(stats) ==> stats.different_pixels()
                == changed.len()
            &&& outcome matches ComparisonOutcome::Mismatch(Difference::Pixels(stats))
                ==> stats.different_pixels() == changed.len()
            &&& outcome is Match <==> changed.len() <= policy.max_pixels_over_threshold()
            &&& (forall|p: int| 0 <= p < n ==> pixel_over(expected, actual, policy.channel_delta_threshold(), p))
                ==> changed.len() == n && (outcome is Match <==> n <= policy.max_pixels_over_threshold())
        }),
{
    let n = (size.0 * size.1) as nat;
    let threshold = policy.channel_delta_threshold();
    lemma_count_is_number_of_changed_pixels(expected, actual, threshold, n);
    if forall|p: int| 0 <= p < n ==> pixel_over(expected, actual, threshold, p) {
        vstd::set_lib::lemma_int_range(0, n as int);
        assert(changed_pixels(expected, actual, threshold, n) =~= vstd::set_lib::set_int_range(
            0,
            n as int,
        ));
    }
}

} // verus!
