//! Pure comparison for tightly packed, row-major RGBA8 images.

use vstd::prelude::*;

verus! {

// ---------------------------------------------------------------------------
// Mathematical model
// ---------------------------------------------------------------------------

/// Absolute difference of two channel values.
pub open spec fn abs_diff(a: u8, b: u8) -> u8 {
    if a >= b {
        (a - b) as u8
    } else {
        (b - a) as u8
    }
}

/// Some channel of two equally positioned byte runs differs by more than `threshold`.
/// Like `zip`, only the common prefix of the two runs takes part.
pub open spec fn channels_over(expected: Seq<u8>, actual: Seq<u8>, threshold: u8) -> bool {
    exists|k: int|
        0 <= k < expected.len() && k < actual.len() && #[trigger] abs_diff(expected[k], actual[k])
            > threshold
}

/// Pixel `p` (four bytes starting at `4 * p`) is over the channel threshold.
pub open spec fn pixel_over(expected: Seq<u8>, actual: Seq<u8>, threshold: u8, p: int) -> bool {
    channels_over(
        expected.subrange(4 * p, 4 * p + 4),
        actual.subrange(4 * p, 4 * p + 4),
        threshold,
    )
}

/// Number of pixels among the first `n` that are over the channel threshold.
pub open spec fn count_over(expected: Seq<u8>, actual: Seq<u8>, threshold: u8, n: nat) -> nat
    decreases n,
{
    if n == 0 {
        0
    } else {
        count_over(expected, actual, threshold, (n - 1) as nat) + if pixel_over(
            expected,
            actual,
            threshold,
            n - 1,
        ) {
            1nat
        } else {
            0nat
        }
    }
}

/// Largest absolute channel delta among the first `m` bytes (0 when `m == 0`).
pub open spec fn max_delta(expected: Seq<u8>, actual: Seq<u8>, m: nat) -> u8
    decreases m,
{
    if m == 0 {
        0
    } else {
        let rest = max_delta(expected, actual, (m - 1) as nat);
        let d = abs_diff(expected[m - 1], actual[m - 1]);
        if rest >= d {
            rest
        } else {
            d
        }
    }
}

/// Why `width`, `height` and a byte length of `len` do not describe a tightly packed
/// RGBA8 image, or `None` when they do.
pub open spec fn rgba_shape_error(width: u32, height: u32, len: int) -> Option<InvalidRgbaImage> {
    if width == 0 || height == 0 {
        Some(InvalidRgbaImage::EmptyDimensions { width, height })
    } else if width * height * 4 > usize::MAX {
        Some(InvalidRgbaImage::DimensionsOverflow { width, height })
    } else if len != width * height * 4 {
        Some(
            InvalidRgbaImage::InvalidBufferLength {
                width,
                height,
                expected_bytes: (width * height * 4) as usize,
                actual_bytes: len as usize,
            },
        )
    } else {
        None
    }
}

/// Two images with these dimensions and bytes satisfy `policy`.
pub open spec fn images_match(
    expected_size: (u32, u32),
    expected: Seq<u8>,
    actual_size: (u32, u32),
    actual: Seq<u8>,
    policy: ComparisonPolicy,
) -> bool {
    &&& expected_size == actual_size
    &&& count_over(
        expected,
        actual,
        policy.channel_delta_threshold(),
        (expected_size.0 * expected_size.1) as nat,
    ) <= policy.max_pixels_over_threshold()
}

// ---------------------------------------------------------------------------
// Sources and validated views
// ---------------------------------------------------------------------------

/// A source of tightly packed, row-major RGBA8 pixels.
///
/// This trait is intentionally open for downstream image types. Implementors
/// report their dimensions and bytes; [`RgbaView::from_source`] validates that
/// the representation is consistent before comparison or file access.
pub trait RgbaSource {
    /// Returns the physical width and height in pixels.
    fn dimensions(&self) -> (u32, u32);

    /// Returns tightly packed RGBA8 bytes in row-major order.
    fn rgba8(&self) -> &[u8];
}

/// `size` and `pixels` are what `source`'s `dimensions` and `rgba8` can return.
/// For a source whose methods carry a contract, these are exactly the values
/// that the contract gives.
pub open spec fn reports<T: RgbaSource>(source: &T, size: (u32, u32), pixels: &[u8]) -> bool {
    &&& call_ensures(T::dimensions, (source,), size)
    &&& call_ensures(T::rgba8, (source,), pixels)
}

impl<'s, T: RgbaSource> RgbaSource for &'s T {
    /// Returns what the referenced source reports.
    fn dimensions(&self) -> (r: (u32, u32))
        ensures
            call_ensures(T::dimensions, (*self,), r),
    {
        T::dimensions(*self)
    }

    /// Returns the bytes of the referenced source.
    fn rgba8(&self) -> (r: &[u8])
        ensures
            call_ensures(T::rgba8, (*self,), r),
    {
        T::rgba8(*self)
    }
}

/// What validating an image of `size` with the bytes `pixels` gives: a view of
/// exactly those, or the shape error.
pub open spec fn view_result(size: (u32, u32), pixels: Seq<u8>, r: Result<RgbaView, InvalidRgbaImage>) -> bool {
    let (width, height) = size;
    &&& r is Ok <==> rgba_shape_error(width, height, pixels.len() as int) is None
    &&& r matches Ok(view) ==> view.width() == width && view.height() == height
        && view.pixels_view() == pixels
    &&& r matches Err(e) ==> Some(e) == rgba_shape_error(width, height, pixels.len() as int)
}

/// A validated borrowed view of tightly packed RGBA8 pixels.
#[derive(Clone, Copy, Debug)]
pub struct RgbaView<'a> {
    width: u32,
    height: u32,
    pixels: &'a [u8],
}

impl<'a> RgbaView<'a> {
    #[verifier::type_invariant]
    spec fn shape_is_valid(self) -> bool {
        rgba_shape_error(self.width, self.height, self.pixels@.len() as int) is None
    }

    pub closed spec fn spec_width(&self) -> u32 {
        self.width
    }

    pub closed spec fn spec_height(&self) -> u32 {
        self.height
    }

    pub open spec fn spec_dimensions(&self) -> (u32, u32) {
        (self.spec_width(), self.spec_height())
    }

    /// The validated bytes.
    pub closed spec fn pixels_view(&self) -> Seq<u8> {
        self.pixels@
    }

    /// Creates an RGBA8 view after validating its dimensions and length.
    ///
    /// Returns an error for an empty image, overflowing dimensions, or a byte
    /// slice whose length is not exactly `width * height * 4`.
    pub fn new(width: u32, height: u32, pixels: &'a [u8]) -> (r: Result<Self, InvalidRgbaImage>)
        ensures
            r is Ok <==> rgba_shape_error(width, height, pixels@.len() as int) is None,
            r matches Ok(view) ==> view.width() == width && view.height() == height
                && view.pixels_view() == pixels@,
            r matches Err(e) ==> Some(e) == rgba_shape_error(width, height, pixels@.len() as int),
    {
        let expected_bytes = match checked_rgba_len(width, height) {
            Ok(bytes) => bytes,
            Err(e) => return Err(e),
        };
        if pixels.len() != expected_bytes {
            return Err(
                InvalidRgbaImage::InvalidBufferLength {
                    width,
                    height,
                    expected_bytes,
                    actual_bytes: pixels.len(),
                },
            );
        }
        Ok(RgbaView { width, height, pixels })
    }

    /// A view over bytes already known to describe a valid image.
    pub(crate) fn from_valid(width: u32, height: u32, pixels: &'a [u8]) -> (r: Self)
        requires
            rgba_shape_error(width, height, pixels@.len() as int) is None,
        ensures
            r.width() == width,
            r.height() == height,
            r.pixels_view() == pixels@,
    {
        RgbaView { width, height, pixels }
    }

    /// Creates a validated view over an [`RgbaSource`].
    ///
    /// The source's reported dimensions and bytes are validated exactly as
    /// [`RgbaView::new`] validates them.
    pub fn from_source<T: RgbaSource>(source: &'a T) -> (r: Result<Self, InvalidRgbaImage>)
        ensures
            exists|size: (u32, u32), pixels: &[u8]|
                #[trigger] reports(source, size, pixels) && view_result(size, pixels@, r),
    {
        let size = source.dimensions();
        let pixels = source.rgba8();
        let r = Self::new(size.0, size.1, pixels);
        assert(reports(source, size, pixels));
        r
    }

    /// Returns the physical width and height in pixels.
    #[verifier::when_used_as_spec(spec_dimensions)]
    pub fn dimensions(&self) -> (r: (u32, u32))
        ensures
            r == self.spec_dimensions(),
    {
        (self.width, self.height)
    }

    /// Returns the physical width in pixels.
    #[verifier::when_used_as_spec(spec_width)]
    pub fn width(&self) -> (r: u32)
        ensures
            r == self.spec_width(),
    {
        self.width
    }

    /// Returns the physical height in pixels.
    #[verifier::when_used_as_spec(spec_height)]
    pub fn height(&self) -> (r: u32)
        ensures
            r == self.spec_height(),
    {
        self.height
    }

    /// Returns the validated tightly packed RGBA8 bytes.
    pub fn rgba8(&self) -> (r: &'a [u8])
        ensures
            r@ == self.pixels_view(),
            r@.len() == self.width() * self.height() * 4,
            self.width() > 0,
            self.height() > 0,
            rgba_shape_error(self.width(), self.height(), r@.len() as int) is None,
    {
        proof {
            use_type_invariant(self);
        }
        self.pixels
    }
}

/// A view is determined by its size and its bytes.
pub proof fn lemma_view_determined<'x>(a: RgbaView<'x>, b: RgbaView<'x>)
    requires
        a.dimensions() == b.dimensions(),
        a.pixels_view() == b.pixels_view(),
    ensures
        a == b,
{
    assert(a.pixels =~= b.pixels);
}

impl<'a> RgbaSource for RgbaView<'a> {
    fn dimensions(&self) -> (r: (u32, u32))
        ensures
            r == self.spec_dimensions(),
    {
        (self.width, self.height)
    }

    fn rgba8(&self) -> (r: &[u8])
        ensures
            r@ == self.pixels_view(),
    {
        self.pixels
    }
}

fn checked_rgba_len(width: u32, height: u32) -> (r: Result<usize, InvalidRgbaImage>)
    ensures
        width == 0 || height == 0 ==> r == Err::<usize, InvalidRgbaImage>(
            InvalidRgbaImage::EmptyDimensions { width, height },
        ),
        width != 0 && height != 0 && width * height * 4 > usize::MAX ==> r == Err::<
            usize,
            InvalidRgbaImage,
        >(InvalidRgbaImage::DimensionsOverflow { width, height }),
        width != 0 && height != 0 && width * height * 4 <= usize::MAX ==> r == Ok::<
            usize,
            InvalidRgbaImage,
        >((width * height * 4) as usize),
{
    if width == 0 || height == 0 {
        return Err(InvalidRgbaImage::EmptyDimensions { width, height });
    }
    let w: u64 = width as u64;
    let h: u64 = height as u64;
    assert(w * h <= u64::MAX) by (nonlinear_arith)
        requires
            w <= u32::MAX,
            h <= u32::MAX,
    ;
    let pixels: u64 = w * h;
    match pixels.checked_mul(4) {
        Some(bytes) => {
            if bytes <= usize::MAX as u64 {
                Ok(bytes as usize)
            } else {
                Err(InvalidRgbaImage::DimensionsOverflow { width, height })
            }
        },
        None => Err(InvalidRgbaImage::DimensionsOverflow { width, height }),
    }
}

/// Why an RGBA8 view could not be constructed.
#[derive(Clone, Debug, PartialEq, Eq, Structural)]
#[non_exhaustive]
pub enum InvalidRgbaImage {
    /// Width and height must both be non-zero.
    EmptyDimensions { width: u32, height: u32 },
    /// Computing the required RGBA byte length overflowed this platform.
    DimensionsOverflow { width: u32, height: u32 },
    /// The pixel slice is not tightly packed RGBA8 data for the dimensions.
    InvalidBufferLength { width: u32, height: u32, expected_bytes: usize, actual_bytes: usize },
}

/// Policy used to decide whether two RGBA images match.
#[derive(Clone, Copy, Debug, PartialEq, Eq, Structural)]
#[non_exhaustive]
pub enum ComparisonPolicy {
    /// Dimensions and every RGBA channel must be identical.
    Exact,
    /// Ignores small per-channel changes and permits a bounded number of
    /// pixels whose change exceeds that threshold.
    ///
    /// A pixel is over the threshold when any of its four channel deltas is
    /// strictly greater than `channel_delta_threshold`. The images match when
    /// the number of such pixels is at most `max_pixels_over_threshold`.
    PixelTolerance { channel_delta_threshold: u8, max_pixels_over_threshold: u64 },
}

impl ComparisonPolicy {
    pub open spec fn spec_channel_delta_threshold(self) -> u8 {
        match self {
            ComparisonPolicy::Exact => 0,
            ComparisonPolicy::PixelTolerance { channel_delta_threshold, .. } => channel_delta_threshold,
        }
    }

    pub open spec fn spec_max_pixels_over_threshold(self) -> u64 {
        match self {
            ComparisonPolicy::Exact => 0,
            ComparisonPolicy::PixelTolerance { max_pixels_over_threshold, .. } => max_pixels_over_threshold,
        }
    }

    /// The per-channel delta that a pixel may reach without counting as changed.
    #[verifier::when_used_as_spec(spec_channel_delta_threshold)]
    pub fn channel_delta_threshold(self) -> (r: u8)
        ensures
            r == self.spec_channel_delta_threshold(),
    {
        match self {
            ComparisonPolicy::Exact => 0,
            ComparisonPolicy::PixelTolerance { channel_delta_threshold, .. } => channel_delta_threshold,
        }
    }

    /// The number of changed pixels that a match may contain.
    #[verifier::when_used_as_spec(spec_max_pixels_over_threshold)]
    pub fn max_pixels_over_threshold(self) -> (r: u64)
        ensures
            r == self.spec_max_pixels_over_threshold(),
    {
        match self {
            ComparisonPolicy::Exact => 0,
            ComparisonPolicy::PixelTolerance { max_pixels_over_threshold, .. } => max_pixels_over_threshold,
        }
    }

    /// Whether some channel of two pixels differs by more than the threshold.
    /// As with `zip`, only the common prefix of the two slices is compared.
    pub fn pixel_exceeds_threshold(self, expected: &[u8], actual: &[u8]) -> (r: bool)
        ensures
            r == channels_over(expected@, actual@, self.channel_delta_threshold()),
    {
        let threshold = self.channel_delta_threshold();
        let mut k: usize = 0;
        while k < expected.len() && k < actual.len()
            invariant
                k <= expected@.len(),
                threshold == self.channel_delta_threshold(),
                forall|j: int| 0 <= j < k && j < actual@.len() ==> !(#[trigger] abs_diff(expected@[j], actual@[j]) > threshold),
            decreases expected@.len() - k,
        {
            if channel_delta(expected[k], actual[k]) > threshold {
                assert(abs_diff(expected@[k as int], actual@[k as int]) > threshold);
                assert(channels_over(expected@, actual@, threshold));
                return true;
            }
            k += 1;
        }
        false
    }
}

impl Default for ComparisonPolicy {
    fn default() -> (r: Self)
        ensures
            r == ComparisonPolicy::Exact,
    {
        ComparisonPolicy::Exact
    }
}

/// Absolute difference of two channel values.
pub fn channel_delta(a: u8, b: u8) -> (r: u8)
    ensures
        r == abs_diff(a, b),
{
    if a >= b {
        a - b
    } else {
        b - a
    }
}

// ---------------------------------------------------------------------------
// Outcomes
// ---------------------------------------------------------------------------

/// Pixel statistics for two equal-sized images.
///
/// Fields are private so the size and the count cannot become inconsistent:
/// the number of differing pixels never exceeds the number of compared pixels.
#[derive(Clone, Copy, Debug, PartialEq, Eq)]
pub struct DiffStats {
    size: (u32, u32),
    different_pixels: u64,
    maximum_channel_delta: u8,
}

impl DiffStats {
    #[verifier::type_invariant]
    spec fn count_fits(self) -> bool {
        self.different_pixels <= self.size.0 * self.size.1
    }

    pub closed spec fn spec_size(&self) -> (u32, u32) {
        self.size
    }

    pub closed spec fn spec_different_pixels(&self) -> u64 {
        self.different_pixels
    }

    pub closed spec fn spec_maximum_channel_delta(&self) -> u8 {
        self.maximum_channel_delta
    }

    pub open spec fn spec_total_pixels(&self) -> u64 {
        (self.size().0 * self.size().1) as u64
    }

    /// Returns the compared physical dimensions.
    #[verifier::when_used_as_spec(spec_size)]
    pub fn size(&self) -> (r: (u32, u32))
        ensures
            r == self.spec_size(),
    {
        self.size
    }

    /// Returns the total number of compared pixels.
    #[verifier::when_used_as_spec(spec_total_pixels)]
    pub fn total_pixels(&self) -> (r: u64)
        ensures
            r == self.size().0 * self.size().1,
            self.different_pixels() <= r,
    {
        proof {
            use_type_invariant(self);
        }
        let w: u64 = self.size.0 as u64;
        let h: u64 = self.size.1 as u64;
        assert(w * h <= u64::MAX) by (nonlinear_arith)
            requires
                w <= u32::MAX,
                h <= u32::MAX,
        ;
        w * h
    }

    /// Returns pixels with at least one channel over the configured threshold.
    #[verifier::when_used_as_spec(spec_different_pixels)]
    pub fn different_pixels(&self) -> (r: u64)
        ensures
            r == self.spec_different_pixels(),
    {
        self.different_pixels
    }

    /// Returns the largest absolute delta across every compared RGBA channel.
    #[verifier::when_used_as_spec(spec_maximum_channel_delta)]
    pub fn maximum_channel_delta(&self) -> (r: u8)
        ensures
            r == self.spec_maximum_channel_delta(),
    {
        self.maximum_channel_delta
    }
}

/// Expected and actual dimensions for a size mismatch.
#[derive(Clone, Copy, Debug, PartialEq, Eq)]
pub struct DimensionMismatch {
    expected: (u32, u32),
    actual: (u32, u32),
}

impl DimensionMismatch {
    pub closed spec fn spec_expected(&self) -> (u32, u32) {
        self.expected
    }

    pub closed spec fn spec_actual(&self) -> (u32, u32) {
        self.actual
    }

    /// Returns the baseline dimensions.
    #[verifier::when_used_as_spec(spec_expected)]
    pub fn expected(&self) -> (r: (u32, u32))
        ensures
            r == self.spec_expected(),
    {
        self.expected
    }

    /// Returns the actual dimensions.
    #[verifier::when_used_as_spec(spec_actual)]
    pub fn actual(&self) -> (r: (u32, u32))
        ensures
            r == self.spec_actual(),
    {
        self.actual
    }
}

/// A comparison failure.
#[derive(Clone, Copy, Debug, PartialEq, Eq)]
#[non_exhaustive]
pub enum Difference {
    /// Expected and actual dimensions differ.
    Dimensions(DimensionMismatch),
    /// Equal-sized images exceeded the configured pixel budget.
    Pixels(DiffStats),
}

/// Structured result of comparing two RGBA8 images.
#[derive(Clone, Copy, Debug, PartialEq, Eq)]
#[non_exhaustive]
pub enum ComparisonOutcome {
    /// The images satisfy the configured policy. Tolerated differences remain
    /// visible in the statistics.
    Match(DiffStats),
    /// The images do not satisfy the configured policy.
    Mismatch(Difference),
}

impl ComparisonOutcome {
    /// Returns whether the comparison matched.
    pub fn is_match(&self) -> (r: bool)
        ensures
            r == (*self is Match),
    {
        match self {
            ComparisonOutcome::Match(_) => true,
            ComparisonOutcome::Mismatch(_) => false,
        }
    }

    /// Returns statistics when the images matched.
    pub fn match_stats(&self) -> (r: Option<&DiffStats>)
        ensures
            match *self {
                ComparisonOutcome::Match(stats) => r == Some(&stats),
                ComparisonOutcome::Mismatch(_) => r is None,
            },
    {
        match self {
            ComparisonOutcome::Match(stats) => Some(stats),
            ComparisonOutcome::Mismatch(_) => None,
        }
    }

    /// Returns the structured difference when the images mismatched.
    pub fn difference(&self) -> (r: Option<&Difference>)
        ensures
            match *self {
                ComparisonOutcome::Mismatch(difference) => r == Some(&difference),
                ComparisonOutcome::Match(_) => r is None,
            },
    {
        match self {
            ComparisonOutcome::Mismatch(difference) => Some(difference),
            ComparisonOutcome::Match(_) => None,
        }
    }
}

/// `stats` holds the statistics of comparing two equal-sized images.
pub open spec fn stats_describe(
    stats: DiffStats,
    size: (u32, u32),
    expected: Seq<u8>,
    actual: Seq<u8>,
    threshold: u8,
) -> bool {
    &&& stats.size() == size
    &&& stats.different_pixels() == count_over(expected, actual, threshold, (size.0 * size.1) as nat)
    &&& stats.maximum_channel_delta() == max_delta(expected, actual, (size.0 * size.1 * 4) as nat)
}

/// `outcome` is the result of comparing the two images under `policy`.
pub open spec fn outcome_describes(
    outcome: ComparisonOutcome,
    expected_size: (u32, u32),
    expected: Seq<u8>,
    actual_size: (u32, u32),
    actual: Seq<u8>,
    policy: ComparisonPolicy,
) -> bool {
    &&& outcome is Match <==> images_match(expected_size, expected, actual_size, actual, policy)
    &&& match outcome {
        ComparisonOutcome::Mismatch(Difference::Dimensions(dimensions)) => {
            &&& expected_size != actual_size
            &&& dimensions.expected() == expected_size
            &&& dimensions.actual() == actual_size
        },
        ComparisonOutcome::Mismatch(Difference::Pixels(stats)) => {
            &&& expected_size == actual_size
            &&& stats_describe(stats, expected_size, expected, actual, policy.channel_delta_threshold())
        },
        ComparisonOutcome::Match(stats) => {
            &&& expected_size == actual_size
            &&& stats_describe(stats, expected_size, expected, actual, policy.channel_delta_threshold())
        },
    }
}

/// Compares two validated RGBA8 views.
///
/// Dimension mismatches are reported separately. For equal dimensions, all
/// four RGBA channels participate in comparison and statistics.
pub fn compare(expected: RgbaView<'_>, actual: RgbaView<'_>, policy: ComparisonPolicy) -> (r:
    ComparisonOutcome)
    ensures
        outcome_describes(
            r,
            expected.dimensions(),
            expected.pixels_view(),
            actual.dimensions(),
            actual.pixels_view(),
            policy,
        ),
{
    let e = expected.rgba8();
    let a = actual.rgba8();
    if expected.width() != actual.width() || expected.height() != actual.height() {
        return ComparisonOutcome::Mismatch(
            Difference::Dimensions(
                DimensionMismatch { expected: expected.dimensions(), actual: actual.dimensions() },
            ),
        );
    }
    let threshold = policy.channel_delta_threshold();
    let n: usize = e.len() / 4;
    assert(n == expected.width() * expected.height());
    let mut different_pixels: u64 = 0;
    let mut maximum_channel_delta: u8 = 0;
    let mut i: usize = 0;
    while i < n
        invariant
            i <= n,
            n * 4 == e@.len(),
            e@.len() == a@.len(),
            e@.len() <= usize::MAX,
            threshold == policy.channel_delta_threshold(),
            different_pixels == count_over(e@, a@, threshold, i as nat),
            different_pixels <= i,
            maximum_channel_delta == max_delta(e@, a@, (4 * i) as nat),
        decreases n - i,
    {
        let base: usize = 4 * i;
        let over = policy.pixel_exceeds_threshold(&e[base..base + 4], &a[base..base + 4]);
        assert(over == pixel_over(e@, a@, threshold, i as int));
        if over {
            different_pixels = different_pixels + 1;
        }
        let mut c: usize = 0;
        while c < 4
            invariant
                c <= 4,
                base == 4 * i,
                base + 4 <= e@.len(),
                e@.len() == a@.len(),
                maximum_channel_delta == max_delta(e@, a@, (base + c) as nat),
            decreases 4 - c,
        {
            let delta = channel_delta(e[base + c], a[base + c]);
            if delta > maximum_channel_delta {
                maximum_channel_delta = delta;
            }
            c += 1;
        }
        i += 1;
    }
    let stats = DiffStats {
        size: expected.dimensions(),
        different_pixels,
        maximum_channel_delta,
    };
    if different_pixels <= policy.max_pixels_over_threshold() {
        ComparisonOutcome::Match(stats)
    } else {
        ComparisonOutcome::Mismatch(Difference::Pixels(stats))
    }
}

} // verus!