//! Failures of a backend call or a file write.
use vstd::prelude::*;

verus! {

/// Why a bridge operation failed.
#[derive(Clone, Debug, PartialEq, Eq)]
pub enum BridgeError {
    /// The backend process could not be started.
    SpawnFailed { cause: String },
    /// The backend ran but did not exit with status zero; `code` is `None`
    /// when no exit code was reported (the process was killed).
    NonZeroExit { code: Option<i32>, stderr: String },
    /// Writing `path` failed.
    IoFailure { path: String, cause: String },
}

} // verus!
