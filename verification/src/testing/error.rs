//! Results and errors of snapshot checks.

use vstd::prelude::*;

use crate::comparison::{ComparisonPolicy, DiffStats, Difference, InvalidRgbaImage};

verus! {

/// `std::io::Error`, carried through as an opaque value.
#[verifier::external_type_specification]
#[verifier::external_body]
pub struct ExIoError(std::io::Error);

/// Files written for a snapshot mismatch.
#[derive(Clone, Debug, PartialEq, Eq)]
pub struct ArtifactPaths {
    expected: String,
    actual: String,
    diff: Option<String>,
}

impl ArtifactPaths {
    pub closed spec fn expected_view(&self) -> Seq<char> {
        self.expected@
    }

    pub closed spec fn actual_view(&self) -> Seq<char> {
        self.actual@
    }

    pub closed spec fn diff_view(&self) -> Option<Seq<char>> {
        match self.diff {
            Some(diff) => Some(diff@),
            None => None,
        }
    }

    pub(crate) fn new(expected: String, actual: String, diff: Option<String>) -> (r: Self)
        ensures
            r.expected_view() == expected@,
            r.actual_view() == actual@,
            r.diff_view() == (match diff {
                Some(d) => Some(d@),
                None => None,
            }),
    {
        ArtifactPaths { expected, actual, diff }
    }

    /// Returns the copy of the accepted baseline used in the comparison.
    pub fn expected(&self) -> (r: &str)
        ensures
            r@ == self.expected_view(),
    {
        self.expected.as_str()
    }

    /// Returns the rendered image that failed comparison.
    pub fn actual(&self) -> (r: &str)
        ensures
            r@ == self.actual_view(),
    {
        self.actual.as_str()
    }

    /// Returns the visual diff path, when its canvas fit the pixel budget.
    pub fn diff(&self) -> (r: Option<&str>)
        ensures
            match r {
                Some(d) => self.diff_view() == Some(d@),
                None => self.diff_view() is None,
            },
    {
        match &self.diff {
            Some(diff) => Some(diff.as_str()),
            None => None,
        }
    }
}

/// Structured information about a failed snapshot comparison.
///
/// The comparison's difference is kept even when its failure artifacts could
/// not be saved; [`SnapshotMismatch::artifacts`] then returns that error.
#[derive(Debug)]
pub struct SnapshotMismatch {
    baseline_path: String,
    policy: ComparisonPolicy,
    difference: Difference,
    artifacts: Result<ArtifactPaths, SnapshotWriteError>,
}

impl SnapshotMismatch {
    pub closed spec fn baseline_path_view(&self) -> Seq<char> {
        self.baseline_path@
    }

    pub closed spec fn spec_policy(&self) -> ComparisonPolicy {
        self.policy
    }

    pub closed spec fn spec_difference(&self) -> Difference {
        self.difference
    }

    pub closed spec fn spec_artifacts(&self) -> Result<ArtifactPaths, SnapshotWriteError> {
        self.artifacts
    }

    pub(crate) fn new(
        baseline_path: String,
        policy: ComparisonPolicy,
        difference: Difference,
        artifacts: ArtifactPaths,
    ) -> (r: Self)
        ensures
            r.baseline_path_view() == baseline_path@,
            r.spec_policy() == policy,
            r.spec_difference() == difference,
            r.spec_artifacts() == Ok::<ArtifactPaths, SnapshotWriteError>(artifacts),
    {
        SnapshotMismatch { baseline_path, policy, difference, artifacts: Ok(artifacts) }
    }

    /// The same mismatch, recording that saving its artifacts failed.
    pub(crate) fn with_artifact_failure(self, error: SnapshotWriteError) -> (r: Self)
        ensures
            r.baseline_path_view() == self.baseline_path_view(),
            r.spec_policy() == self.spec_policy(),
            r.spec_difference() == self.spec_difference(),
            r.spec_artifacts() == Err::<ArtifactPaths, SnapshotWriteError>(error),
    {
        SnapshotMismatch { artifacts: Err(error), ..self }
    }

    /// Returns the accepted baseline path.
    pub fn baseline_path(&self) -> (r: &str)
        ensures
            r@ == self.baseline_path_view(),
    {
        self.baseline_path.as_str()
    }

    /// Returns the policy used for comparison and diff highlighting.
    #[verifier::when_used_as_spec(spec_policy)]
    pub fn policy(&self) -> (r: ComparisonPolicy)
        ensures
            r == self.spec_policy(),
    {
        self.policy
    }

    /// Returns the structured comparison difference.
    pub fn difference(&self) -> (r: &Difference)
        ensures
            *r == self.spec_difference(),
    {
        &self.difference
    }

    /// Returns the paths of the failure artifacts, or why they could not be saved.
    pub fn artifacts(&self) -> (r: Result<&ArtifactPaths, &SnapshotWriteError>)
        ensures
            match self.spec_artifacts() {
                Ok(paths) => r == Ok::<&ArtifactPaths, &SnapshotWriteError>(&paths),
                Err(e) => r == Err::<&ArtifactPaths, &SnapshotWriteError>(&e),
            },
    {
        match &self.artifacts {
            Ok(paths) => Ok(paths),
            Err(error) => Err(error),
        }
    }
}

/// The kind of successful snapshot operation.
#[derive(Clone, Copy, Debug, PartialEq, Eq, Structural)]
#[non_exhaustive]
pub enum SnapshotOutcomeKind {
    /// An existing baseline satisfied the policy.
    Matched,
    /// `CreateMissing` created a baseline.
    Created,
    /// `Accept` wrote the current image as the baseline.
    Accepted { replaced: bool },
}

/// Successful result of checking or updating a snapshot.
#[derive(Clone, Debug, PartialEq)]
pub struct SnapshotOutcome {
    kind: SnapshotOutcomeKind,
    baseline_path: String,
    stats: Option<DiffStats>,
}

impl SnapshotOutcome {
    pub closed spec fn spec_kind(&self) -> SnapshotOutcomeKind {
        self.kind
    }

    pub closed spec fn baseline_path_view(&self) -> Seq<char> {
        self.baseline_path@
    }

    pub closed spec fn spec_stats(&self) -> Option<DiffStats> {
        self.stats
    }

    pub(crate) fn matched(baseline_path: String, stats: DiffStats) -> (r: Self)
        ensures
            r.kind() == SnapshotOutcomeKind::Matched,
            r.baseline_path_view() == baseline_path@,
            r.spec_stats() == Some(stats),
    {
        SnapshotOutcome { kind: SnapshotOutcomeKind::Matched, baseline_path, stats: Some(stats) }
    }

    pub(crate) fn created(baseline_path: String) -> (r: Self)
        ensures
            r.kind() == SnapshotOutcomeKind::Created,
            r.baseline_path_view() == baseline_path@,
            r.spec_stats() is None,
    {
        SnapshotOutcome { kind: SnapshotOutcomeKind::Created, baseline_path, stats: None }
    }

    pub(crate) fn accepted(baseline_path: String, replaced: bool) -> (r: Self)
        ensures
            r.kind() == (SnapshotOutcomeKind::Accepted { replaced }),
            r.baseline_path_view() == baseline_path@,
            r.spec_stats() is None,
    {
        SnapshotOutcome {
            kind: SnapshotOutcomeKind::Accepted { replaced },
            baseline_path,
            stats: None,
        }
    }

    /// Returns which successful operation occurred.
    #[verifier::when_used_as_spec(spec_kind)]
    pub fn kind(&self) -> (r: SnapshotOutcomeKind)
        ensures
            r == self.spec_kind(),
    {
        self.kind
    }

    /// Returns the baseline path read or written by the operation.
    pub fn baseline_path(&self) -> (r: &str)
        ensures
            r@ == self.baseline_path_view(),
    {
        self.baseline_path.as_str()
    }

    /// Returns comparison statistics for a matched existing baseline.
    pub fn stats(&self) -> (r: Option<&DiffStats>)
        ensures
            match r {
                Some(s) => self.spec_stats() == Some(*s),
                None => self.spec_stats() is None,
            },
    {
        match &self.stats {
            Some(stats) => Some(stats),
            None => None,
        }
    }
}

/// Errors from image validation, PNG processing, file handling, or comparison.
///
/// PNG colour types and bit depths are the numeric codes of the PNG header.
#[derive(Debug)]
#[non_exhaustive]
#[allow(inconsistent_fields)]
pub enum SnapshotTestError {
    /// The actual image did not contain valid tightly packed RGBA8 data.
    InvalidActualImage(InvalidRgbaImage),
    /// A decoded baseline did not contain a representable RGBA8 image.
    InvalidBaselineImage { path: String, source: InvalidRgbaImage },
    /// The actual image exceeded the configured pixel limit.
    ActualPixelLimitExceeded { width: u32, height: u32, pixels: u64, max_pixels: u64 },
    /// A zero decoded-pixel limit was requested.
    InvalidPixelLimit { max_pixels: u64 },
    /// The baseline and artifact roots are equal or nested.
    OverlappingRoots { baseline_dir: String, artifact_dir: String },
    /// The baseline is missing in `Verify` mode. `actual_artifact` is the saved
    /// actual image, or why it could not be saved.
    MissingBaseline { baseline_path: String, actual_artifact: Result<String, SnapshotWriteError> },
    /// A decoded baseline exceeded the configured pixel limit.
    BaselinePixelLimitExceeded {
        path: String,
        width: u32,
        height: u32,
        pixels: u64,
        max_pixels: u64,
    },
    /// The decoded PNG format could not be normalized to RGBA8.
    UnsupportedPngFormat { path: String, color_type: u8, bit_depth: u8 },
    /// Decoding a baseline PNG failed.
    PngDecoding { path: String, source: png::DecodingError },
    /// Encoding a baseline or artifact PNG failed.
    PngEncoding { path: String, source: png::EncodingError },
    /// A filesystem operation failed.
    Io { operation: &'static str, path: String, source: std::io::Error },
    /// The actual image did not satisfy the baseline comparison.
    Mismatch(Box<SnapshotMismatch>),
}

/// Why a failure artifact could not be saved.
#[derive(Debug)]
#[non_exhaustive]
#[allow(inconsistent_fields)]
pub enum SnapshotWriteError {
    /// Encoding the artifact PNG failed.
    PngEncoding { path: String, source: png::EncodingError },
    /// A filesystem operation on the artifact failed.
    Io { operation: &'static str, path: String, source: std::io::Error },
}

impl SnapshotWriteError {
    /// The check error that reports this failure by itself.
    pub open spec fn as_check_error(self) -> SnapshotTestError {
        match self {
            SnapshotWriteError::PngEncoding { path, source } => SnapshotTestError::PngEncoding {
                path,
                source,
            },
            SnapshotWriteError::Io { operation, path, source } => SnapshotTestError::Io {
                operation,
                path,
                source,
            },
        }
    }

    /// Reports this failure by itself as a check error.
    pub fn into_check_error(self) -> (r: SnapshotTestError)
        ensures
            r == self.as_check_error(),
    {
        match self {
            SnapshotWriteError::PngEncoding { path, source } => SnapshotTestError::PngEncoding {
                path,
                source,
            },
            SnapshotWriteError::Io { operation, path, source } => SnapshotTestError::Io {
                operation,
                path,
                source,
            },
        }
    }
}

impl SnapshotTestError {
    /// Returns the structured mismatch, if comparison was the failure cause.
    pub fn mismatch(&self) -> (r: Option<&SnapshotMismatch>)
        ensures
            match self {
                SnapshotTestError::Mismatch(m) => r == Some(&**m),
                _ => r is None,
            },
    {
        match self {
            SnapshotTestError::Mismatch(mismatch) => Some(&**mismatch),
            _ => None,
        }
    }
}

} // verus!
