//! One file-backed snapshot assertion: its configuration and every decision
//! of a check. The caller inspects and reads the baseline and performs the
//! planned file operations in order.

use vstd::prelude::*;
use vstd::string::StringExecFns;

use crate::comparison::{
    compare, images_match, lemma_view_determined, outcome_describes, reports, rgba_shape_error,
    stats_describe, view_result, ComparisonOutcome, ComparisonPolicy, InvalidRgbaImage, RgbaSource, RgbaView,
};
use crate::png_codec::png_rgba8_encoding;
use crate::runtime::{pixel_count, DEFAULT_MAX_PIXELS};
use crate::testing::artifacts::{
    actual_artifact, canvas_height, canvas_is_covered, canvas_width, diff_artifact, diff_canvas,
    diff_canvas_fits, max_u32,
    encoding_of, expected_artifact, is_remove, is_write, missing_actual_artifacts, mismatch_artifacts, FileOperation,
};
use crate::testing::codec::{decode_png, decode_result, decoded_baseline, encode_png};
use crate::testing::error::{
    ArtifactPaths, SnapshotMismatch, SnapshotOutcome, SnapshotOutcomeKind, SnapshotTestError,
    SnapshotWriteError,
};
use crate::testing::mode::SnapshotMode;
use crate::testing::name::{name_error, InvalidSnapshotName, SnapshotName};
use crate::testing::store::{
    directories_overlap, join_path, law_artifact_files_are_not_the_baseline, roots_overlap,
    SnapshotStore, WriteMode,
};

verus! {

/// What a check does with the baseline.
#[derive(Clone, Copy, Debug, PartialEq, Eq, Structural)]
pub enum BaselineStep {
    /// Write the actual image as the baseline, replacing any existing one.
    Replace,
    /// Write the actual image as a new baseline.
    CreateNew,
    /// Report the missing baseline and save the actual image as an artifact.
    ReportMissing,
    /// Read the existing baseline and compare the actual image with it.
    Compare,
}

/// The step for a mode and the existence of the baseline: `Accept` always writes,
/// `CreateMissing` writes only a missing baseline, `Verify` never writes one.
pub open spec fn baseline_step_for(mode: SnapshotMode, baseline_exists: bool) -> BaselineStep {
    match mode {
        SnapshotMode::Accept => BaselineStep::Replace,
        SnapshotMode::CreateMissing => if baseline_exists {
            BaselineStep::Compare
        } else {
            BaselineStep::CreateNew
        },
        SnapshotMode::Verify => if baseline_exists {
            BaselineStep::Compare
        } else {
            BaselineStep::ReportMissing
        },
    }
}

/// The step of a check.
pub fn baseline_step(mode: SnapshotMode, baseline_exists: bool) -> (r: BaselineStep)
    ensures
        r == baseline_step_for(mode, baseline_exists),
{
    match mode {
        SnapshotMode::Accept => BaselineStep::Replace,
        SnapshotMode::CreateMissing => if baseline_exists {
            BaselineStep::Compare
        } else {
            BaselineStep::CreateNew
        },
        SnapshotMode::Verify => if baseline_exists {
            BaselineStep::Compare
        } else {
            BaselineStep::ReportMissing
        },
    }
}

/// Only `Accept`, and `CreateMissing` without a baseline, write the baseline: a
/// `Verify` check never writes it and an existing baseline is replaced only by
/// `Accept`.
pub proof fn law_only_updating_modes_write_baselines(mode: SnapshotMode, baseline_exists: bool)
    ensures
        mode == SnapshotMode::Verify ==> baseline_step_for(mode, baseline_exists)
            != BaselineStep::Replace && baseline_step_for(mode, baseline_exists)
            != BaselineStep::CreateNew,
        baseline_exists && mode != SnapshotMode::Accept ==> baseline_step_for(mode, baseline_exists)
            == BaselineStep::Compare,
        mode == SnapshotMode::Accept ==> baseline_step_for(mode, baseline_exists)
            == BaselineStep::Replace,
{
}

/// The decoded baseline and the actual image cross in size (neither is at least
/// as wide and as tall as the other) while their diff canvas fits the budget.
pub open spec fn sizes_cross_within_budget(
    expected: (u32, u32),
    actual: (u32, u32),
    max_pixels: u64,
) -> bool {
    let w = max_u32(expected.0, actual.0);
    let h = max_u32(expected.1, actual.1);
    &&& !(expected.0 >= actual.0 && expected.1 >= actual.1)
    &&& !(actual.0 >= expected.0 && actual.1 >= expected.1)
    &&& w * h <= max_pixels
    &&& w * h * 4 <= usize::MAX
}

/// A baseline that decodes is always compared when one of the two images is at
/// least as wide and as tall as the other, whatever their sizes: planning gives
/// a plan. No plan comes only when the images cross in size, one wider and the
/// other taller.
pub proof fn law_covered_sizes_are_always_compared(
    check: PreparedCheck,
    bytes: Seq<u8>,
    r: Result<Option<CheckPlan>, SnapshotTestError>,
)
    requires
        check.baseline_plan(bytes, r),
        decoded_baseline(bytes, check.spec_max_pixels()) is Some,
    ensures
        ({
            let size = decoded_baseline(bytes, check.spec_max_pixels()).unwrap().0;
            let (width, height) = check.spec_actual().dimensions();
            &&& r is Ok
            &&& ((size.0 >= width && size.1 >= height) || (width >= size.0 && height >= size.1)
                ==> r matches Ok(Some(_)))
            &&& (r matches Ok(None) ==> (size.0 < width && size.1 > height) || (size.0 > width
                && size.1 < height))
        }),
{
}

/// With a baseline present, a `CreateMissing` check does what a `Verify` check
/// of the same image, store, policy and budget does: both compare with the
/// baseline, and a plan made from the baseline's bytes for one is a plan for the
/// other, so both report the same result.
pub proof fn law_create_missing_with_baseline_is_verify(
    create: PreparedCheck,
    verify: PreparedCheck,
    bytes: Seq<u8>,
    r: Result<Option<CheckPlan>, SnapshotTestError>,
)
    requires
        create.spec_mode() == SnapshotMode::CreateMissing,
        verify.spec_mode() == SnapshotMode::Verify,
        create.spec_actual() == verify.spec_actual(),
        create.spec_policy() == verify.spec_policy(),
        create.spec_max_pixels() == verify.spec_max_pixels(),
        create.baseline_path_view() == verify.baseline_path_view(),
        create.artifact_dir_view() == verify.artifact_dir_view(),
    ensures
        baseline_step_for(create.spec_mode(), true) == BaselineStep::Compare,
        baseline_step_for(verify.spec_mode(), true) == BaselineStep::Compare,
        create.baseline_plan(bytes, r) <==> verify.baseline_plan(bytes, r),
{
    assert forall|expected: RgbaView, plan: Result<CheckPlan, SnapshotTestError>|
        #![trigger create.comparison_plan(expected, plan)]
        #![trigger verify.comparison_plan(expected, plan)]
        create.comparison_plan(expected, plan) == verify.comparison_plan(expected, plan) by {
    }
}

/// The file operations of a check and the result to report once they have
/// all been performed.
#[derive(Debug)]
pub struct CheckPlan {
    pub operations: Vec<FileOperation>,
    pub result: Result<SnapshotOutcome, SnapshotTestError>,
}

/// The error that a check reports when one of its planned operations fails
/// with `error`. A missing baseline or a mismatch stays the reported cause and
/// records that its artifacts could not be saved; a failure to write the
/// baseline itself is reported by itself.
pub fn result_after_failure(
    result: Result<SnapshotOutcome, SnapshotTestError>,
    error: SnapshotWriteError,
) -> (r: SnapshotTestError)
    ensures
        match result {
            Err(SnapshotTestError::MissingBaseline { baseline_path, .. }) => {
                &&& r matches SnapshotTestError::MissingBaseline {
                    baseline_path: kept,
                    actual_artifact: Err(e),
                }
                &&& kept == baseline_path
                &&& e == error
            },
            Err(SnapshotTestError::Mismatch(mismatch)) => {
                &&& r matches SnapshotTestError::Mismatch(kept)
                &&& kept.baseline_path_view() == mismatch.baseline_path_view()
                &&& kept.spec_policy() == mismatch.spec_policy()
                &&& kept.spec_difference() == mismatch.spec_difference()
                &&& kept.spec_artifacts() == Err::<ArtifactPaths, SnapshotWriteError>(error)
            },
            _ => r == error.as_check_error(),
        },
{
    match result {
        Err(SnapshotTestError::MissingBaseline { baseline_path, .. }) => {
            SnapshotTestError::MissingBaseline { baseline_path, actual_artifact: Err(error) }
        },
        Err(SnapshotTestError::Mismatch(mismatch)) => {
            SnapshotTestError::Mismatch(Box::new((*mismatch).with_artifact_failure(error)))
        },
        _ => error.into_check_error(),
    }
}

/// The path that an operation acts on.
pub open spec fn operation_path(op: FileOperation) -> Seq<char> {
    match op {
        FileOperation::Remove { path } => path@,
        FileOperation::Write { path, .. } => path@,
    }
}

/// Every operation acts on one of the three artifact files of `dir`.
pub open spec fn touches_only_artifacts(ops: Seq<FileOperation>, dir: Seq<char>) -> bool {
    forall|i: int|
        0 <= i < ops.len() ==> {
            let p = operation_path(#[trigger] ops[i]);
            p == expected_artifact(dir) || p == actual_artifact(dir) || p == diff_artifact(dir)
        }
}

/// No operation acts on the file at `path`.
pub open spec fn never_touches(ops: Seq<FileOperation>, path: Seq<char>) -> bool {
    forall|i: int| 0 <= i < ops.len() ==> operation_path(#[trigger] ops[i]) != path
}

/// Operations confined to a snapshot's artifact files never act on its baseline,
/// when the roots are neither equal nor nested.
proof fn lemma_artifacts_avoid_baseline(
    baseline_root: Seq<char>,
    artifact_root: Seq<char>,
    name: Seq<char>,
    ops: Seq<FileOperation>,
)
    requires
        name_error(name) is None,
        !roots_overlap(baseline_root, artifact_root),
        touches_only_artifacts(ops, join_path(artifact_root, name)),
    ensures
        never_touches(ops, join_path(baseline_root, name + ".png"@)),
{
    reveal_strlit("expected.png");
    reveal_strlit("actual.png");
    reveal_strlit("diff.png");
    assert("expected.png"@.len() != seq!['.'].len());
    assert("actual.png"@.len() != seq!['.'].len());
    assert("diff.png"@.len() != seq!['.'].len());
    law_artifact_files_are_not_the_baseline(baseline_root, artifact_root, name, "expected.png"@);
    law_artifact_files_are_not_the_baseline(baseline_root, artifact_root, name, "actual.png"@);
    law_artifact_files_are_not_the_baseline(baseline_root, artifact_root, name, "diff.png"@);
}

/// Configures and performs one file-backed snapshot assertion.
///
/// The default mode is [`SnapshotMode::Verify`], the default comparison is
/// [`ComparisonPolicy::Exact`], and the default store writes baselines below
/// `tests/snapshots` and artifacts below `target/slint-snapshots`.
#[derive(Debug)]
pub struct SnapshotAssertion<I> {
    name: SnapshotName,
    actual: I,
    store: SnapshotStore,
    policy: ComparisonPolicy,
    mode: SnapshotMode,
    max_pixels: u64,
}

impl<I: RgbaSource> SnapshotAssertion<I> {
    pub closed spec fn name_view(&self) -> Seq<char> {
        self.name.view_chars()
    }

    pub closed spec fn spec_store(&self) -> SnapshotStore {
        self.store
    }

    pub closed spec fn spec_policy(&self) -> ComparisonPolicy {
        self.policy
    }

    pub closed spec fn spec_mode(&self) -> SnapshotMode {
        self.mode
    }

    pub closed spec fn spec_max_pixels(&self) -> u64 {
        self.max_pixels
    }

    pub closed spec fn spec_actual(&self) -> I {
        self.actual
    }

    /// Creates an assertion from a previously validated logical name.
    pub fn new(name: SnapshotName, actual: I) -> (r: Self)
        ensures
            r.name_view() == name.view_chars(),
            r.spec_actual() == actual,
            r.spec_store().baseline_dir_view() == "tests/snapshots"@,
            r.spec_store().artifact_dir_view() == "target/slint-snapshots"@,
            r.spec_policy() == ComparisonPolicy::Exact,
            r.spec_mode() == SnapshotMode::Verify,
            r.spec_max_pixels() == DEFAULT_MAX_PIXELS,
    {
        SnapshotAssertion {
            name,
            actual,
            store: SnapshotStore::default(),
            policy: ComparisonPolicy::Exact,
            mode: SnapshotMode::Verify,
            max_pixels: DEFAULT_MAX_PIXELS,
        }
    }

    /// Validates a string name and creates an assertion.
    ///
    /// Returns an error when the name does not satisfy [`SnapshotName`]'s
    /// portable grammar.
    pub fn try_new(name: &str, actual: I) -> (r: Result<Self, InvalidSnapshotName>)
        ensures
            r is Ok <==> name_error(name@) is None,
            r matches Ok(a) ==> {
                &&& a.name_view() == name@
                &&& a.spec_actual() == actual
                &&& a.spec_store().baseline_dir_view() == "tests/snapshots"@
                &&& a.spec_store().artifact_dir_view() == "target/slint-snapshots"@
                &&& a.spec_mode() == SnapshotMode::Verify
                &&& a.spec_policy() == ComparisonPolicy::Exact
                &&& a.spec_max_pixels() == DEFAULT_MAX_PIXELS
            },
            r matches Err(e) ==> e.value_chars() == name@ && Some(e.rule()) == name_error(name@),
    {
        match SnapshotName::new(name) {
            Ok(name) => Ok(Self::new(name, actual)),
            Err(e) => Err(e),
        }
    }

    /// Selects the store for baselines and failure artifacts.
    pub fn store(self, store: SnapshotStore) -> (r: Self)
        ensures
            r.spec_store() == store,
            r.spec_actual() == self.spec_actual(),
            r.name_view() == self.name_view(),
            r.spec_policy() == self.spec_policy(),
            r.spec_mode() == self.spec_mode(),
            r.spec_max_pixels() == self.spec_max_pixels(),
    {
        SnapshotAssertion { store, ..self }
    }

    /// Sets the RGBA comparison policy.
    pub fn policy(self, policy: ComparisonPolicy) -> (r: Self)
        ensures
            r.spec_policy() == policy,
            r.spec_actual() == self.spec_actual(),
            r.name_view() == self.name_view(),
            r.spec_store() == self.spec_store(),
            r.spec_mode() == self.spec_mode(),
            r.spec_max_pixels() == self.spec_max_pixels(),
    {
        SnapshotAssertion { policy, ..self }
    }

    /// Sets how this invocation may create or update a baseline.
    pub fn mode(self, mode: SnapshotMode) -> (r: Self)
        ensures
            r.spec_mode() == mode,
            r.spec_actual() == self.spec_actual(),
            r.name_view() == self.name_view(),
            r.spec_store() == self.spec_store(),
            r.spec_policy() == self.spec_policy(),
            r.spec_max_pixels() == self.spec_max_pixels(),
    {
        SnapshotAssertion { mode, ..self }
    }

    /// Sets the maximum number of pixels accepted from actual images, decoded
    /// baselines, and generated diff canvases.
    pub fn max_pixels(self, max_pixels: u64) -> (r: Self)
        ensures
            r.spec_max_pixels() == max_pixels,
            r.spec_actual() == self.spec_actual(),
            r.name_view() == self.name_view(),
            r.spec_store() == self.spec_store(),
            r.spec_policy() == self.spec_policy(),
            r.spec_mode() == self.spec_mode(),
    {
        SnapshotAssertion { max_pixels, ..self }
    }

    /// What preparing gives when the actual image reports `size` and the bytes
    /// `pixels`: the first of a zero pixel budget, an invalid image, an image
    /// over the budget and equal or nested roots that holds is the error;
    /// otherwise the check of that image, with the snapshot's files.
    pub open spec fn prepared_result(
        &self,
        size: (u32, u32),
        pixels: Seq<u8>,
        r: Result<PreparedCheck, SnapshotTestError>,
    ) -> bool {
        let (width, height) = size;
        let max_pixels = self.spec_max_pixels();
        let baseline_root = self.spec_store().baseline_dir_view();
        let artifact_root = self.spec_store().artifact_dir_view();
        if max_pixels == 0 {
            r matches Err(SnapshotTestError::InvalidPixelLimit { max_pixels: m }) && m == 0
        } else if rgba_shape_error(width, height, pixels.len() as int) is Some {
            r matches Err(SnapshotTestError::InvalidActualImage(e)) && Some(e) == rgba_shape_error(
                width,
                height,
                pixels.len() as int,
            )
        } else if width * height > max_pixels {
            &&& r matches Err(SnapshotTestError::ActualPixelLimitExceeded {
                width: w,
                height: h,
                pixels: n,
                max_pixels: m,
            })
            &&& w == width && h == height && n == width * height && m == max_pixels
        } else if roots_overlap(baseline_root, artifact_root) {
            &&& r matches Err(SnapshotTestError::OverlappingRoots { baseline_dir, artifact_dir })
            &&& baseline_dir@ == baseline_root && artifact_dir@ == artifact_root
        } else {
            &&& r matches Ok(check)
            &&& check.spec_actual().dimensions() == size
            &&& check.spec_actual().pixels_view() == pixels
            &&& check.spec_policy() == self.spec_policy()
            &&& check.spec_mode() == self.spec_mode()
            &&& check.spec_max_pixels() == max_pixels
            &&& check.name_view() == self.name_view()
            &&& check.baseline_root_view() == baseline_root
            &&& check.artifact_root_view() == artifact_root
            &&& check.baseline_path_view() == join_path(baseline_root, self.name_view() + ".png"@)
            &&& check.artifact_dir_view() == join_path(artifact_root, self.name_view())
        }
    }

    /// Validates the configuration and the actual image, and resolves the
    /// snapshot's files, in the order a check reports these errors: a zero pixel
    /// budget, an invalid actual image, an actual image over the budget, and
    /// equal or nested baseline and artifact roots. The actual image is read
    /// once through `dimensions` and once through `rgba8`.
    pub fn prepare(&self) -> (r: Result<PreparedCheck<'_>, SnapshotTestError>)
        ensures
            self.spec_max_pixels() == 0 ==> (r matches Err(
                SnapshotTestError::InvalidPixelLimit { max_pixels: m },
            ) && m == 0),
            self.spec_max_pixels() > 0 ==> exists|size: (u32, u32), pixels: &[u8]|
                #[trigger] reports(&self.spec_actual(), size, pixels) && self.prepared_result(
                    size,
                    pixels@,
                    r,
                ),
    {
        if self.max_pixels == 0 {
            return Err(SnapshotTestError::InvalidPixelLimit { max_pixels: self.max_pixels });
        }
        let source_view = RgbaView::from_source(&self.actual);
        let ghost witness = choose|size: (u32, u32), pixels: &[u8]|
            #[trigger] reports(&self.actual, size, pixels) && view_result(size, pixels@, source_view);
        let r = self.prepare_view(source_view);
        proof {
            assert(view_result(witness.0, witness.1@, source_view));
            assert(self.prepared_result(witness.0, witness.1@, r));
            assert(reports(&self.spec_actual(), witness.0, witness.1));
        }
        r
    }

    /// The rest of [`SnapshotAssertion::prepare`], once the actual image has
    /// been validated into `source_view`.
    fn prepare_view<'v>(&self, source_view: Result<RgbaView<'v>, InvalidRgbaImage>) -> (r: Result<
        PreparedCheck<'v>,
        SnapshotTestError,
    >)
        requires
            self.spec_max_pixels() > 0,
        ensures
            forall|size: (u32, u32), pixels: Seq<u8>|
                view_result(size, pixels, source_view) ==> #[trigger] self.prepared_result(
                    size,
                    pixels,
                    r,
                ),
    {
        let actual = match source_view {
            Ok(view) => view,
            Err(e) => return Err(SnapshotTestError::InvalidActualImage(e)),
        };
        match validate_actual_pixel_limit(actual.dimensions(), self.max_pixels) {
            Ok(()) => {},
            Err(e) => return Err(e),
        }
        let baseline_root = self.store.baseline_dir();
        let artifact_root = self.store.artifact_dir();
        if directories_overlap(baseline_root, artifact_root) {
            return Err(
                SnapshotTestError::OverlappingRoots {
                    baseline_dir: String::from_str(baseline_root),
                    artifact_dir: String::from_str(artifact_root),
                },
            );
        }
        let paths = self.store.resolve(&self.name);
        // `as_str` states that a validated name satisfies the grammar.
        let _ = self.name.as_str();
        Ok(PreparedCheck::new(
            actual,
            String::from_str(baseline_root),
            String::from_str(artifact_root),
            paths.baseline,
            paths.artifact_dir,
            Ghost(self.name.view_chars()),
            self.policy,
            self.mode,
            self.max_pixels,
        ))
    }
}

/// Rejects an actual image with more than `max_pixels` pixels.
pub fn validate_actual_pixel_limit(size: (u32, u32), max_pixels: u64) -> (r: Result<
    (),
    SnapshotTestError,
>)
    ensures
        size.0 * size.1 <= max_pixels ==> r is Ok,
        size.0 * size.1 > max_pixels ==> (r matches Err(
            SnapshotTestError::ActualPixelLimitExceeded { width, height, pixels, max_pixels: m },
        ) && width == size.0 && height == size.1 && pixels == size.0 * size.1 && m == max_pixels),
{
    let (width, height) = size;
    let pixels = pixel_count(width, height);
    if pixels > max_pixels {
        return Err(SnapshotTestError::ActualPixelLimitExceeded { width, height, pixels, max_pixels });
    }
    Ok(())
}

/// A validated check, ready for its baseline to be inspected.
pub struct PreparedCheck<'a> {
    actual: RgbaView<'a>,
    baseline_root: String,
    artifact_root: String,
    baseline_path: String,
    artifact_dir: String,
    name: Ghost<Seq<char>>,
    policy: ComparisonPolicy,
    mode: SnapshotMode,
    max_pixels: u64,
}

impl<'a> PreparedCheck<'a> {
    #[verifier::type_invariant]
    spec fn is_consistent(self) -> bool {
        &&& self.max_pixels > 0
        &&& self.actual.width() * self.actual.height() <= self.max_pixels
        &&& name_error(self.name@) is None
        &&& !roots_overlap(self.baseline_root@, self.artifact_root@)
        &&& self.baseline_path@ == join_path(self.baseline_root@, self.name@ + ".png"@)
        &&& self.artifact_dir@ == join_path(self.artifact_root@, self.name@)
    }

    pub closed spec fn spec_actual(&self) -> RgbaView<'a> {
        self.actual
    }

    pub closed spec fn baseline_root_view(&self) -> Seq<char> {
        self.baseline_root@
    }

    pub closed spec fn artifact_root_view(&self) -> Seq<char> {
        self.artifact_root@
    }

    pub closed spec fn baseline_path_view(&self) -> Seq<char> {
        self.baseline_path@
    }

    pub closed spec fn artifact_dir_view(&self) -> Seq<char> {
        self.artifact_dir@
    }

    pub closed spec fn name_view(&self) -> Seq<char> {
        self.name@
    }

    pub closed spec fn spec_policy(&self) -> ComparisonPolicy {
        self.policy
    }

    pub closed spec fn spec_mode(&self) -> SnapshotMode {
        self.mode
    }

    pub closed spec fn spec_max_pixels(&self) -> u64 {
        self.max_pixels
    }

    /// The validated actual image.
    pub fn actual(&self) -> (r: RgbaView<'a>)
        ensures
            r == self.spec_actual(),
    {
        self.actual
    }

    /// The baseline file: `<baseline root>/<name>.png`.
    pub fn baseline_path(&self) -> (r: &str)
        ensures
            r@ == self.baseline_path_view(),
    {
        self.baseline_path.as_str()
    }

    /// The artifact directory: `<artifact root>/<name>`.
    pub fn artifact_dir(&self) -> (r: &str)
        ensures
            r@ == self.artifact_dir_view(),
    {
        self.artifact_dir.as_str()
    }

    /// The baseline root of the store.
    pub fn baseline_root(&self) -> (r: &str)
        ensures
            r@ == self.baseline_root_view(),
    {
        self.baseline_root.as_str()
    }

    /// The artifact root of the store.
    pub fn artifact_root(&self) -> (r: &str)
        ensures
            r@ == self.artifact_root_view(),
    {
        self.artifact_root.as_str()
    }

    /// The files of this check are where the store puts them, and its roots are
    /// neither equal nor nested.
    pub fn layout_is_consistent(&self) -> (r: bool)
        ensures
            r,
            self.spec_max_pixels() > 0,
            self.spec_actual().width() * self.spec_actual().height() <= self.spec_max_pixels(),
            name_error(self.name_view()) is None,
            !roots_overlap(self.baseline_root_view(), self.artifact_root_view()),
            self.baseline_path_view() == join_path(self.baseline_root_view(), self.name_view() + ".png"@),
            self.artifact_dir_view() == join_path(self.artifact_root_view(), self.name_view()),
    {
        proof {
            use_type_invariant(self);
        }
        true
    }

    /// What the check does with the baseline, given whether it exists.
    pub fn step(&self, baseline_exists: bool) -> (r: BaselineStep)
        ensures
            r == baseline_step_for(self.spec_mode(), baseline_exists),
    {
        baseline_step(self.mode, baseline_exists)
    }

    /// The plan of a check that does not compare: the baseline is written
    /// (`Accept`; `CreateMissing` without a baseline), or its absence is reported
    /// with the actual image saved as an artifact (`Verify` without a baseline).
    /// Every image is encoded before the plan is returned.
    pub fn plan_update(&self, baseline_exists: bool) -> (r: Result<CheckPlan, SnapshotTestError>)
        requires
            baseline_step_for(self.spec_mode(), baseline_exists) != BaselineStep::Compare,
        ensures
            r is Ok,
            baseline_step_for(self.spec_mode(), baseline_exists) == BaselineStep::Replace ==> {
                &&& r matches Ok(plan) ==> {
                    &&& plan.operations@.len() == 1
                    &&& is_write(plan.operations@[0], self.baseline_path_view(), encoding_of(self.spec_actual()), WriteMode::Replace)
                    &&& plan.result matches Ok(outcome)
                    &&& outcome.kind() == (SnapshotOutcomeKind::Accepted { replaced: baseline_exists })
                    &&& outcome.baseline_path_view() == self.baseline_path_view()
                    &&& outcome.spec_stats() is None
                }
                &&& r matches Err(e) ==> (e matches SnapshotTestError::PngEncoding { path: p, .. } && p@ == self.baseline_path_view())
            },
            baseline_step_for(self.spec_mode(), baseline_exists) == BaselineStep::CreateNew ==> {
                &&& r matches Ok(plan) ==> {
                    &&& plan.operations@.len() == 1
                    &&& is_write(plan.operations@[0], self.baseline_path_view(), encoding_of(self.spec_actual()), WriteMode::CreateNew)
                    &&& plan.result matches Ok(outcome)
                    &&& outcome.kind() == SnapshotOutcomeKind::Created
                    &&& outcome.baseline_path_view() == self.baseline_path_view()
                    &&& outcome.spec_stats() is None
                }
                &&& r matches Err(e) ==> (e matches SnapshotTestError::PngEncoding { path: p, .. } && p@ == self.baseline_path_view())
            },
            baseline_step_for(self.spec_mode(), baseline_exists) == BaselineStep::ReportMissing ==> {
                &&& r matches Ok(plan)
                &&& touches_only_artifacts(plan.operations@, self.artifact_dir_view())
                &&& never_touches(plan.operations@, self.baseline_path_view())
                &&& plan.result matches Err(SnapshotTestError::MissingBaseline { baseline_path, actual_artifact: saved })
                &&& baseline_path@ == self.baseline_path_view()
                &&& (saved matches Ok(actual_path) ==> {
                    &&& actual_path@ == actual_artifact(self.artifact_dir_view())
                    &&& plan.operations@.len() == 3
                    &&& is_remove(plan.operations@[0], expected_artifact(self.artifact_dir_view()))
                    &&& is_remove(plan.operations@[1], diff_artifact(self.artifact_dir_view()))
                    &&& is_write(plan.operations@[2], actual_artifact(self.artifact_dir_view()), encoding_of(self.spec_actual()), WriteMode::Replace)
                })
                &&& saved is Ok
            },
    {
        let step = baseline_step(self.mode, baseline_exists);
        match step {
            BaselineStep::Replace | BaselineStep::CreateNew => {
                let bytes = match encode_png(self.actual, self.baseline_path.as_str()) {
                    Ok(bytes) => bytes,
                    Err(e) => return Err(e),
                };
                let write_mode = if step == BaselineStep::Replace {
                    WriteMode::Replace
                } else {
                    WriteMode::CreateNew
                };
                let mut operations: Vec<FileOperation> = Vec::new();
                operations.push(
                    FileOperation::Write { path: self.baseline_path.clone(), bytes, mode: write_mode },
                );
                let outcome = if step == BaselineStep::Replace {
                    SnapshotOutcome::accepted(self.baseline_path.clone(), baseline_exists)
                } else {
                    SnapshotOutcome::created(self.baseline_path.clone())
                };
                Ok(CheckPlan { operations, result: Ok(outcome) })
            },
            BaselineStep::ReportMissing => {
                let (operations, saved) = match missing_actual_artifacts(
                    self.artifact_dir.as_str(),
                    self.actual,
                ) {
                    Ok((operations, actual_path)) => (operations, Ok(actual_path)),
                    Err(e) => (Vec::new(), Err(e)),
                };
                proof {
                    assert(touches_only_artifacts(operations@, self.artifact_dir@));
                    use_type_invariant(self);
                    lemma_artifacts_avoid_baseline(
                        self.baseline_root@,
                        self.artifact_root@,
                        self.name@,
                        operations@,
                    );
                }
                Ok(
                    CheckPlan {
                        operations,
                        result: Err(
                            SnapshotTestError::MissingBaseline {
                                baseline_path: self.baseline_path.clone(),
                                actual_artifact: saved,
                            },
                        ),
                    },
                )
            },
            BaselineStep::Compare => {
                proof {
                    assert(false);
                }
                Ok(CheckPlan { operations: Vec::new(), result: Ok(SnapshotOutcome::created(self.baseline_path.clone())) })
            },
        }
    }

    /// What comparing the actual image with the baseline image `expected` plans:
    /// nothing to write and a `Matched` outcome with the statistics when they
    /// match; otherwise the failure artifacts (with a diff image when it is
    /// drawn, which is when its canvas fits the pixel budget, else the removal
    /// of a stale one) and a `Mismatch` with the difference.
    pub open spec fn comparison_plan(
        &self,
        expected: RgbaView,
        r: Result<CheckPlan, SnapshotTestError>,
    ) -> bool {
        let actual = self.spec_actual();
        let policy = self.spec_policy();
        let dir = self.artifact_dir_view();
        let drawn = diff_canvas_fits(expected, actual, self.spec_max_pixels());
        &&& r matches Ok(plan)
        &&& if images_match(
            expected.dimensions(),
            expected.pixels_view(),
            actual.dimensions(),
            actual.pixels_view(),
            policy,
        ) {
            &&& plan.operations@.len() == 0
            &&& plan.result matches Ok(outcome)
            &&& outcome.kind() == SnapshotOutcomeKind::Matched
            &&& outcome.baseline_path_view() == self.baseline_path_view()
            &&& outcome.spec_stats() matches Some(stats)
            &&& stats_describe(
                stats,
                expected.dimensions(),
                expected.pixels_view(),
                actual.pixels_view(),
                policy.channel_delta_threshold(),
            )
        } else {
            &&& touches_only_artifacts(plan.operations@, dir)
            &&& never_touches(plan.operations@, self.baseline_path_view())
            &&& plan.operations@.len() == 3
            &&& plan.result matches Err(SnapshotTestError::Mismatch(mismatch))
            &&& mismatch.baseline_path_view() == self.baseline_path_view()
            &&& mismatch.policy() == policy
            &&& outcome_describes(
                ComparisonOutcome::Mismatch(mismatch.spec_difference()),
                expected.dimensions(),
                expected.pixels_view(),
                actual.dimensions(),
                actual.pixels_view(),
                policy,
            )
            &&& mismatch.spec_artifacts() matches Ok(paths)
            &&& paths.expected_view() == expected_artifact(dir)
            &&& paths.actual_view() == actual_artifact(dir)
            &&& (paths.diff_view() is Some <==> drawn)
            &&& is_write(plan.operations@[if drawn { 0int } else { 1int }], expected_artifact(dir), encoding_of(expected), WriteMode::Replace)
            &&& is_write(plan.operations@[if drawn { 1int } else { 2int }], actual_artifact(dir), encoding_of(actual), WriteMode::Replace)
            &&& (drawn ==> is_write(
                plan.operations@[2],
                diff_artifact(dir),
                png_rgba8_encoding(
                    canvas_width(expected, actual),
                    canvas_height(expected, actual),
                    diff_canvas(expected, actual, policy),
                ),
                WriteMode::Replace,
            ))
            &&& (!drawn ==> is_remove(plan.operations@[0], diff_artifact(dir)))
        }
    }

    /// The plan of comparing the actual image with the decoded baseline
    /// `expected`: nothing to write when they match, and the failure artifacts
    /// when they do not. Every image is encoded before the plan is returned.
    pub fn plan_comparison(&self, expected: RgbaView<'_>) -> (r: Result<CheckPlan, SnapshotTestError>)
        requires
            diff_canvas_fits(expected, self.spec_actual(), self.spec_max_pixels())
                ==> canvas_is_covered(expected, self.spec_actual()),
        ensures
            self.comparison_plan(expected, r),
    {
        match compare(expected, self.actual, self.policy) {
            ComparisonOutcome::Match(stats) => Ok(
                CheckPlan {
                    operations: Vec::new(),
                    result: Ok(SnapshotOutcome::matched(self.baseline_path.clone(), stats)),
                },
            ),
            ComparisonOutcome::Mismatch(difference) => {
                let (operations, artifacts) = match mismatch_artifacts(
                    self.artifact_dir.as_str(),
                    expected,
                    self.actual,
                    self.policy,
                    self.max_pixels,
                ) {
                    Ok(result) => result,
                    Err(e) => return Err(e),
                };
                proof {
                    assert(touches_only_artifacts(operations@, self.artifact_dir@));
                    use_type_invariant(self);
                    lemma_artifacts_avoid_baseline(
                        self.baseline_root@,
                        self.artifact_root@,
                        self.name@,
                        operations@,
                    );
                }
                let mismatch = SnapshotMismatch::new(
                    self.baseline_path.clone(),
                    self.policy,
                    difference,
                    artifacts,
                );
                Ok(
                    CheckPlan {
                        operations,
                        result: Err(SnapshotTestError::Mismatch(Box::new(mismatch))),
                    },
                )
            },
        }
    }

    /// What planning from the baseline bytes `bytes` gives: the decoding error
    /// when they do not decode within the pixel budget; no plan when the decoded
    /// image and the actual image cross in size and their diff canvas fits the
    /// budget (such a canvas has pixels of neither image); otherwise
    /// [`PreparedCheck::comparison_plan`] for the decoded image.
    pub open spec fn baseline_plan(
        &self,
        bytes: Seq<u8>,
        r: Result<Option<CheckPlan>, SnapshotTestError>,
    ) -> bool {
        match decoded_baseline(bytes, self.spec_max_pixels()) {
            None => r matches Err(e) && decode_result(
                self.baseline_path_view(),
                bytes,
                self.spec_max_pixels(),
                Err(e),
            ),
            Some((size, pixels)) => if sizes_cross_within_budget(
                size,
                self.spec_actual().dimensions(),
                self.spec_max_pixels(),
            ) {
                r matches Ok(None)
            } else {
                r matches Ok(Some(plan)) && forall|expected: RgbaView|
                    expected.dimensions() == size && expected.pixels_view() == pixels
                        ==> #[trigger] self.comparison_plan(
                        expected,
                        Ok::<CheckPlan, SnapshotTestError>(plan),
                    )
            },
        }
    }

    /// Decodes the bytes of the existing baseline and plans their comparison
    /// with the actual image, as [`PreparedCheck::baseline_plan`] says.
    ///
    /// Returns `Ok(None)` when the images cross in size and their diff canvas
    /// fits the pixel budget: such a canvas has pixels that belong to neither
    /// image, and no diff can be drawn.
    pub fn plan_from_baseline(&self, baseline_bytes: &[u8]) -> (r: Result<
        Option<CheckPlan>,
        SnapshotTestError,
    >)
        ensures
            self.baseline_plan(baseline_bytes@, r),
    {
        let image = match decode_png(self.baseline_path.as_str(), baseline_bytes, self.max_pixels) {
            Ok(image) => image,
            Err(e) => return Err(e),
        };
        let expected = image.as_view();
        let actual = self.actual;
        // `rgba8` states that both images are non-empty and tightly packed.
        let _ = expected.rgba8();
        let _ = actual.rgba8();
        let width = if expected.width() >= actual.width() { expected.width() } else { actual.width() };
        let height = if expected.height() >= actual.height() { expected.height() } else { actual.height() };
        let covered = (expected.width() >= actual.width() && expected.height() >= actual.height())
            || (actual.width() >= expected.width() && actual.height() >= expected.height());
        if !covered {
            let pixels = pixel_count(width, height);
            let fits = pixels <= self.max_pixels && match pixels.checked_mul(4) {
                Some(bytes) => bytes <= usize::MAX as u64,
                None => false,
            };
            if fits {
                return Ok(None);
            }
        }
        let r = self.plan_comparison(expected);
        proof {
            assert forall|other: RgbaView|
                other.dimensions() == expected.dimensions() && other.pixels_view()
                    == expected.pixels_view() implies #[trigger] self.comparison_plan(other, r) by {
                lemma_view_determined(other, expected);
            }
        }
        match r {
            Ok(plan) => Ok(Some(plan)),
            Err(e) => Err(e),
        }
    }

    fn new(
        actual: RgbaView<'a>,
        baseline_root: String,
        artifact_root: String,
        baseline_path: String,
        artifact_dir: String,
        name: Ghost<Seq<char>>,
        policy: ComparisonPolicy,
        mode: SnapshotMode,
        max_pixels: u64,
    ) -> (r: Self)
        requires
            max_pixels > 0,
            actual.width() * actual.height() <= max_pixels,
            name_error(name@) is None,
            !roots_overlap(baseline_root@, artifact_root@),
            baseline_path@ == join_path(baseline_root@, name@ + ".png"@),
            artifact_dir@ == join_path(artifact_root@, name@),
        ensures
            r.spec_actual() == actual,
            r.baseline_root_view() == baseline_root@,
            r.artifact_root_view() == artifact_root@,
            r.baseline_path_view() == baseline_path@,
            r.artifact_dir_view() == artifact_dir@,
            r.name_view() == name@,
            r.spec_policy() == policy,
            r.spec_mode() == mode,
            r.spec_max_pixels() == max_pixels,
    {
        PreparedCheck {
                actual,
                baseline_root,
                artifact_root,
                baseline_path,
                artifact_dir,
                name,
                policy,
                mode,
                max_pixels,
            }
    }
}

} // verus!
