use std::collections::HashMap;

use slint_snapshot::comparison::{ComparisonPolicy, Difference, RgbaSource};
use slint_snapshot::testing::artifacts::FileOperation;
use slint_snapshot::testing::assertion::{result_after_failure, BaselineStep};
use slint_snapshot::testing::store::WriteMode;
use slint_snapshot::testing::{
    SnapshotAssertion, SnapshotMode, SnapshotOutcome, SnapshotOutcomeKind, SnapshotStore,
    SnapshotTestError, SnapshotWriteError,
};

#[derive(Debug)]
struct TestImage {
    size: (u32, u32),
    pixels: Vec<u8>,
}

impl TestImage {
    fn solid(size: (u32, u32), color: [u8; 4]) -> Self {
        let mut pixels = Vec::new();
        for _ in 0..u64::from(size.0) * u64::from(size.1) {
            pixels.extend_from_slice(&color);
        }
        Self { size, pixels }
    }
}

impl RgbaSource for TestImage {
    fn dimensions(&self) -> (u32, u32) {
        self.size
    }

    fn rgba8(&self) -> &[u8] {
        &self.pixels
    }
}

/// Files kept in memory, keyed by path.
#[derive(Default)]
struct Files {
    files: HashMap<String, Vec<u8>>,
}

impl Files {
    fn has_file(&self, path: &str) -> bool {
        self.files.contains_key(path)
    }

    fn read(&self, path: &str) -> Vec<u8> {
        self.files.get(path).cloned().expect("file exists")
    }

    fn check<I: RgbaSource>(
        &mut self,
        assertion: SnapshotAssertion<I>,
    ) -> Result<SnapshotOutcome, SnapshotTestError> {
        let prepared = assertion.prepare()?;
        let baseline_exists = self.has_file(prepared.baseline_path());
        let plan = if prepared.step(baseline_exists) == BaselineStep::Compare {
            let bytes = self.read(prepared.baseline_path());
            prepared
                .plan_from_baseline(&bytes)?
                .expect("a diff canvas whose pixels belong to an image")
        } else {
            prepared.plan_update(baseline_exists)?
        };
        for operation in plan.operations {
            match operation {
                FileOperation::Remove { path } => {
                    self.files.remove(&path);
                }
                FileOperation::Write { path, bytes, mode } => {
                    if mode == WriteMode::CreateNew {
                        assert!(!self.has_file(&path), "create-new must not replace {path}");
                    }
                    self.files.insert(path, bytes);
                }
            }
        }
        plan.result
    }
}

fn store() -> SnapshotStore {
    SnapshotStore::new("workspace/snapshots", "workspace/artifacts")
}

fn assertion(name: &str, image: TestImage, store: &SnapshotStore) -> SnapshotAssertion<TestImage> {
    SnapshotAssertion::try_new(name, image)
        .expect("valid test snapshot name")
        .store(store.clone())
}

#[test]
fn baseline_lifecycle_is_explicit_and_preserves_failed_baselines() {
    let mut files = Files::default();
    let store = store();
    let baseline = "workspace/snapshots/settings/default.png";
    let artifact_dir = "workspace/artifacts/settings/default";

    let missing = files
        .check(assertion(
            "settings/default",
            TestImage::solid((2, 2), [10, 20, 30, 255]),
            &store,
        ))
        .expect_err("verify must not create a baseline");
    assert!(matches!(missing, SnapshotTestError::MissingBaseline { .. }));
    assert!(!files.has_file(baseline));
    assert!(files.has_file(&format!("{artifact_dir}/actual.png")));

    let created = files
        .check(
            assertion(
                "settings/default",
                TestImage::solid((2, 2), [10, 20, 30, 255]),
                &store,
            )
            .mode(SnapshotMode::CreateMissing),
        )
        .expect("create missing baseline");
    assert_eq!(created.kind(), SnapshotOutcomeKind::Created);
    assert_eq!(created.baseline_path(), baseline);
    let accepted_bytes = files.read(baseline);

    let matched = files
        .check(assertion(
            "settings/default",
            TestImage::solid((2, 2), [10, 20, 30, 255]),
            &store,
        ))
        .expect("matching baseline");
    assert_eq!(matched.kind(), SnapshotOutcomeKind::Matched);
    assert_eq!(
        matched
            .stats()
            .expect("match statistics")
            .different_pixels(),
        0
    );
    assert!(files.has_file(&format!("{artifact_dir}/actual.png")));

    let mismatch = files
        .check(assertion(
            "settings/default",
            TestImage::solid((2, 2), [40, 50, 60, 255]),
            &store,
        ))
        .expect_err("changed image must fail verification");
    let report = mismatch.mismatch().expect("structured mismatch");
    assert!(matches!(report.difference(), Difference::Pixels(_)));
    let artifacts = report.artifacts().expect("artifacts saved");
    assert!(files.has_file(artifacts.expected()));
    assert!(files.has_file(artifacts.actual()));
    assert!(files.has_file(artifacts.diff().expect("diff path")));
    assert_eq!(report.baseline_path(), baseline);
    assert_eq!(report.policy(), ComparisonPolicy::Exact);
    assert_eq!(files.read(baseline), accepted_bytes);

    let accepted = files
        .check(
            assertion(
                "settings/default",
                TestImage::solid((2, 2), [40, 50, 60, 255]),
                &store,
            )
            .mode(SnapshotMode::Accept),
        )
        .expect("accept changed baseline");
    assert_eq!(
        accepted.kind(),
        SnapshotOutcomeKind::Accepted { replaced: true }
    );
    assert_ne!(files.read(baseline), accepted_bytes);
    assert!(files.has_file(&format!("{artifact_dir}/diff.png")));
}

#[test]
fn create_missing_never_replaces_an_existing_baseline() {
    let mut files = Files::default();
    let store = store();
    files
        .check(assertion("card", TestImage::solid((1, 1), [0, 0, 0, 255]), &store).mode(SnapshotMode::CreateMissing))
        .expect("create baseline");
    let first_bytes = files.read("workspace/snapshots/card.png");

    let error = files
        .check(assertion("card", TestImage::solid((1, 1), [1, 0, 0, 255]), &store).mode(SnapshotMode::CreateMissing))
        .expect_err("existing mismatch must not be replaced");
    assert!(matches!(error, SnapshotTestError::Mismatch(_)));
    assert_eq!(files.read("workspace/snapshots/card.png"), first_bytes);
}

#[test]
fn tolerance_and_dimension_mismatches_are_structured() {
    let mut files = Files::default();
    let store = store();
    files
        .check(assertion("card", TestImage::solid((2, 1), [10, 20, 30, 255]), &store).mode(SnapshotMode::CreateMissing))
        .expect("create baseline");

    let matched = files
        .check(
            assertion("card", TestImage::solid((2, 1), [12, 20, 30, 255]), &store).policy(
                ComparisonPolicy::PixelTolerance {
                    channel_delta_threshold: 2,
                    max_pixels_over_threshold: 0,
                },
            ),
        )
        .expect("delta at threshold is tolerated");
    assert_eq!(matched.stats().expect("stats").maximum_channel_delta(), 2);

    let error = files
        .check(assertion("card", TestImage::solid((3, 1), [10, 20, 30, 255]), &store))
        .expect_err("dimensions must differ");
    let Difference::Dimensions(dimensions) =
        error.mismatch().expect("mismatch report").difference()
    else {
        panic!("expected dimension mismatch");
    };
    assert_eq!(dimensions.expected(), (2, 1));
    assert_eq!(dimensions.actual(), (3, 1));
}

#[test]
fn normalizes_grayscale_png_baselines_to_rgba8() {
    let mut files = Files::default();
    let store = store();
    let mut png_bytes = Vec::new();
    {
        let mut encoder = png::Encoder::new(&mut png_bytes, 2, 1);
        encoder.set_color(png::ColorType::Grayscale);
        encoder.set_depth(png::BitDepth::Eight);
        encoder
            .write_header()
            .expect("grayscale header")
            .write_image_data(&[10, 200])
            .expect("grayscale pixels");
    }
    files
        .files
        .insert("workspace/snapshots/gray.png".to_string(), png_bytes);

    let actual = TestImage {
        size: (2, 1),
        pixels: vec![10, 10, 10, 255, 200, 200, 200, 255],
    };
    let outcome = files
        .check(assertion("gray", actual, &store))
        .expect("normalized grayscale baseline should match");
    assert_eq!(outcome.kind(), SnapshotOutcomeKind::Matched);
}

#[test]
fn enforces_actual_and_decoded_baseline_pixel_limits() {
    let mut files = Files::default();
    let store = store();

    let zero = files
        .check(assertion("zero", TestImage::solid((1, 1), [0; 4]), &store).max_pixels(0))
        .expect_err("zero limit must fail");
    assert!(matches!(zero, SnapshotTestError::InvalidPixelLimit { .. }));

    let actual = files
        .check(assertion("actual-too-large", TestImage::solid((2, 2), [0; 4]), &store).max_pixels(3))
        .expect_err("actual image must respect the limit");
    assert!(matches!(
        actual,
        SnapshotTestError::ActualPixelLimitExceeded { pixels: 4, .. }
    ));

    files
        .check(
            assertion("baseline-too-large", TestImage::solid((2, 2), [0; 4]), &store)
                .mode(SnapshotMode::CreateMissing),
        )
        .expect("create larger baseline");
    let baseline = files
        .check(assertion("baseline-too-large", TestImage::solid((1, 1), [0; 4]), &store).max_pixels(3))
        .expect_err("decoded baseline must respect the limit");
    assert!(matches!(
        baseline,
        SnapshotTestError::BaselinePixelLimitExceeded { pixels: 4, .. }
    ));
}

#[test]
fn omits_an_oversized_diff_canvas_and_removes_a_stale_diff() {
    let mut files = Files::default();
    let store = store();
    files
        .check(assertion("cross", TestImage::solid((1, 4), [0; 4]), &store).mode(SnapshotMode::CreateMissing))
        .expect("create baseline");
    let artifact_dir = "workspace/artifacts/cross";
    files
        .files
        .insert(format!("{artifact_dir}/diff.png"), b"stale".to_vec());

    let error = files
        .check(assertion("cross", TestImage::solid((4, 1), [0; 4]), &store).max_pixels(4))
        .expect_err("dimensions differ");
    let artifacts = error
        .mismatch()
        .expect("mismatch")
        .artifacts()
        .expect("artifacts saved");
    assert!(artifacts.diff().is_none());
    assert!(!files.has_file(&format!("{artifact_dir}/diff.png")));
    assert!(files.has_file(artifacts.expected()));
    assert!(files.has_file(artifacts.actual()));
}

#[test]
fn crossing_sizes_with_a_fitting_canvas_have_no_plan() {
    let mut files = Files::default();
    let store = store();
    files
        .check(assertion("cross", TestImage::solid((1, 4), [0; 4]), &store).mode(SnapshotMode::CreateMissing))
        .expect("create baseline");
    let actual = TestImage::solid((4, 1), [0; 4]);
    let check = assertion("cross", actual, &store);
    let prepared = check.prepare().expect("prepared check");
    assert_eq!(prepared.step(true), BaselineStep::Compare);
    let bytes = files.read(prepared.baseline_path());
    assert!(prepared.plan_from_baseline(&bytes).expect("decoded").is_none());
}

#[test]
fn rejects_equal_or_nested_roots() {
    for (baseline, artifacts) in [
        ("snapshots", "snapshots"),
        ("snapshots", "snapshots/artifacts"),
        ("./out/a/", "out/a/b"),
        ("", "."),
    ] {
        let store = SnapshotStore::new(baseline, artifacts);
        let error = assertion("card", TestImage::solid((1, 1), [0; 4]), &store)
            .prepare()
            .err()
            .expect("overlapping roots");
        assert!(matches!(error, SnapshotTestError::OverlappingRoots { .. }));
    }
    for (baseline, artifacts) in [("snapshots", "snapshots-2"), ("/abs/a", "abs/a/b")] {
        let store = SnapshotStore::new(baseline, artifacts);
        assert!(assertion("card", TestImage::solid((1, 1), [0; 4]), &store)
            .prepare()
            .is_ok());
    }
}

#[test]
fn resolves_baseline_and_artifact_paths() {
    let store = SnapshotStore::new("tests/snapshots/", "target");
    let check = assertion("settings/default", TestImage::solid((1, 1), [0; 4]), &store);
    let prepared = check.prepare().expect("prepared check");
    assert_eq!(prepared.baseline_path(), "tests/snapshots/settings/default.png");
    assert_eq!(prepared.artifact_dir(), "target/settings/default");
    let default_store = SnapshotStore::default();
    assert_eq!(default_store.baseline_dir(), "tests/snapshots");
    assert_eq!(default_store.artifact_dir(), "target/slint-snapshots");
}

#[test]
fn reports_an_invalid_actual_image() {
    let store = store();
    let image = TestImage {
        size: (2, 2),
        pixels: vec![0; 4],
    };
    let error = assertion("bad", image, &store)
        .prepare()
        .err()
        .expect("invalid actual image");
    assert!(matches!(error, SnapshotTestError::InvalidActualImage(_)));
}

#[test]
fn a_missing_baseline_records_where_the_actual_image_was_saved() {
    let mut files = Files::default();
    let store = store();
    let missing = files
        .check(assertion("panel", TestImage::solid((1, 1), [5, 6, 7, 255]), &store))
        .expect_err("verify must not create a baseline");
    match missing {
        SnapshotTestError::MissingBaseline {
            baseline_path,
            actual_artifact,
        } => {
            assert_eq!(baseline_path, "workspace/snapshots/panel.png");
            assert_eq!(
                actual_artifact.expect("actual image saved"),
                "workspace/artifacts/panel/actual.png"
            );
        }
        other => panic!("expected a missing baseline: {other:?}"),
    }
}

fn write_failure(path: &str) -> SnapshotWriteError {
    SnapshotWriteError::Io {
        operation: "atomically replace",
        path: path.to_owned(),
        source: std::io::Error::new(std::io::ErrorKind::PermissionDenied, "read-only"),
    }
}

#[test]
fn a_failed_artifact_write_keeps_the_missing_baseline_report() {
    let result: Result<SnapshotOutcome, SnapshotTestError> = Err(SnapshotTestError::MissingBaseline {
        baseline_path: "snapshots/panel.png".to_owned(),
        actual_artifact: Ok("artifacts/panel/actual.png".to_owned()),
    });
    let error = result_after_failure(result, write_failure("artifacts/panel/actual.png"));
    match error {
        SnapshotTestError::MissingBaseline {
            baseline_path,
            actual_artifact: Err(SnapshotWriteError::Io { operation, path, .. }),
        } => {
            assert_eq!(baseline_path, "snapshots/panel.png");
            assert_eq!(operation, "atomically replace");
            assert_eq!(path, "artifacts/panel/actual.png");
        }
        other => panic!("expected a missing baseline with a write failure: {other:?}"),
    }
}

#[test]
fn a_failed_artifact_write_keeps_the_mismatch() {
    let mut files = Files::default();
    let store = store();
    files
        .check(assertion("panel", TestImage::solid((1, 1), [5, 6, 7, 255]), &store).mode(SnapshotMode::CreateMissing))
        .expect("create baseline");
    let result = files.check(assertion("panel", TestImage::solid((1, 1), [9, 6, 7, 255]), &store));
    let difference = match &result {
        Err(SnapshotTestError::Mismatch(mismatch)) => *mismatch.difference(),
        other => panic!("expected a mismatch: {other:?}"),
    };
    let error = result_after_failure(result, write_failure("workspace/artifacts/panel/expected.png"));
    let mismatch = error.mismatch().expect("the mismatch is kept");
    assert_eq!(*mismatch.difference(), difference);
    assert_eq!(mismatch.baseline_path(), "workspace/snapshots/panel.png");
    match mismatch.artifacts() {
        Err(SnapshotWriteError::Io { operation, path, .. }) => {
            assert_eq!(*operation, "atomically replace");
            assert_eq!(path, "workspace/artifacts/panel/expected.png");
        }
        other => panic!("expected the artifact write failure: {other:?}"),
    }
}

#[test]
fn a_failed_baseline_write_is_reported_by_itself() {
    let mut files = Files::default();
    let store = store();
    let created: Result<SnapshotOutcome, SnapshotTestError> = files.check(
        assertion("fresh", TestImage::solid((1, 1), [1, 1, 1, 255]), &store).mode(SnapshotMode::Accept),
    );
    assert!(created.is_ok());
    let error = result_after_failure(created, write_failure("workspace/snapshots/fresh.png"));
    match error {
        SnapshotTestError::Io { operation, path, .. } => {
            assert_eq!(operation, "atomically replace");
            assert_eq!(path, "workspace/snapshots/fresh.png");
        }
        other => panic!("expected an I/O failure: {other:?}"),
    }
}

#[test]
fn an_undecodable_baseline_is_a_decoding_error() {
    let store = store();
    let check = assertion("broken", TestImage::solid((1, 1), [0; 4]), &store);
    let prepared = check.prepare().expect("prepared check");
    let error = prepared
        .plan_from_baseline(b"not a png")
        .err()
        .expect("undecodable baseline");
    assert!(matches!(
        error,
        SnapshotTestError::PngDecoding { ref path, .. } if path == "workspace/snapshots/broken.png"
    ));
}

#[test]
fn create_missing_with_a_baseline_reports_what_verify_reports() {
    let mut files = Files::default();
    let store = store();
    files
        .check(assertion("same", TestImage::solid((2, 1), [0, 0, 0, 255]), &store).mode(SnapshotMode::CreateMissing))
        .expect("create baseline");
    let baseline = files.read("workspace/snapshots/same.png");
    let verify = files
        .check(assertion("same", TestImage::solid((2, 1), [1, 0, 0, 255]), &store))
        .expect_err("changed image");
    let create = files
        .check(assertion("same", TestImage::solid((2, 1), [1, 0, 0, 255]), &store).mode(SnapshotMode::CreateMissing))
        .expect_err("changed image");
    let verify = verify.mismatch().expect("mismatch");
    let create = create.mismatch().expect("mismatch");
    assert_eq!(verify.difference(), create.difference());
    assert_eq!(verify.baseline_path(), create.baseline_path());
    assert_eq!(files.read("workspace/snapshots/same.png"), baseline);
}
