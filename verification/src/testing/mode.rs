//! How a snapshot check may modify its baseline.

use std::str::FromStr;

use vstd::prelude::*;

use crate::text::str_equals;

verus! {

/// Environment variable that callers may read to select a [`SnapshotMode`].
pub const SNAPSHOT_MODE_ENV: &'static str = "SLINT_SNAPSHOT_MODE";

/// How a snapshot check may modify its baseline.
#[derive(Clone, Copy, Debug, PartialEq, Eq, Structural)]
#[non_exhaustive]
pub enum SnapshotMode {
    /// Only verifies existing baselines and never creates or modifies one.
    Verify,
    /// Creates a missing baseline but never replaces an existing one.
    CreateMissing,
    /// Creates or atomically replaces the baseline with the actual image.
    Accept,
}

/// The mode that a documented name selects: `verify`, `create-missing` or `accept`,
/// matched exactly.
pub open spec fn mode_named(text: Seq<char>) -> Option<SnapshotMode> {
    if text == "verify"@ {
        Some(SnapshotMode::Verify)
    } else if text == "create-missing"@ {
        Some(SnapshotMode::CreateMissing)
    } else if text == "accept"@ {
        Some(SnapshotMode::Accept)
    } else {
        None
    }
}

impl SnapshotMode {
    /// Parses one of the documented mode names.
    ///
    /// Accepted values are `verify`, `create-missing`, and `accept`; anything else,
    /// including other letter cases, is rejected with the input kept in the error.
    pub fn parse(value: &str) -> (r: Result<SnapshotMode, ParseSnapshotModeError>)
        ensures
            r is Ok <==> mode_named(value@) is Some,
            r matches Ok(mode) ==> mode_named(value@) == Some(mode),
            r matches Err(e) ==> e.value_chars() == value@,
    {
        if str_equals(value, "verify") {
            Ok(SnapshotMode::Verify)
        } else if str_equals(value, "create-missing") {
            Ok(SnapshotMode::CreateMissing)
        } else if str_equals(value, "accept") {
            Ok(SnapshotMode::Accept)
        } else {
            Err(ParseSnapshotModeError { value: value.to_owned() })
        }
    }
}

impl Default for SnapshotMode {
    fn default() -> (r: Self)
        ensures
            r == SnapshotMode::Verify,
    {
        SnapshotMode::Verify
    }
}

impl FromStr for SnapshotMode {
    type Err = ParseSnapshotModeError;

    fn from_str(value: &str) -> (r: Result<Self, Self::Err>)
        ensures
            r is Ok <==> mode_named(value@) is Some,
            r matches Ok(mode) ==> mode_named(value@) == Some(mode),
            r matches Err(e) ==> e.value_chars() == value@,
    {
        SnapshotMode::parse(value)
    }
}

/// A string was not a documented snapshot mode.
#[derive(Clone, Debug, Eq, PartialEq)]
pub struct ParseSnapshotModeError {
    value: String,
}

impl ParseSnapshotModeError {
    pub closed spec fn value_chars(&self) -> Seq<char> {
        self.value@
    }

    /// Returns the rejected string.
    pub fn value(&self) -> (r: &str)
        ensures
            r@ == self.value_chars(),
    {
        self.value.as_str()
    }
}

} // verus!
