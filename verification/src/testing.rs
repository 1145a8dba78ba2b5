//! PNG baseline management and assertions for visual regression tests.
//!
//! [`SnapshotName`] accepts a deliberately small portable identifier grammar
//! and prevents path traversal. The modules here hold every decision of a
//! snapshot check; the filesystem work itself is performed by the caller,
//! which executes the returned file operations in order. A missing baseline
//! or a mismatch stays the reported cause when its artifacts cannot be saved.

pub mod artifacts;
pub mod assertion;
pub mod codec;
pub mod error;
pub mod mode;
pub mod name;
pub mod store;

pub use assertion::SnapshotAssertion;
pub use error::{
    ArtifactPaths, SnapshotMismatch, SnapshotOutcome, SnapshotOutcomeKind, SnapshotTestError,
    SnapshotWriteError,
};
pub use mode::{ParseSnapshotModeError, SnapshotMode, SNAPSHOT_MODE_ENV};
pub use name::{InvalidSnapshotName, SnapshotName};
pub use store::SnapshotStore;
