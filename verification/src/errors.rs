//! The error taxonomy of a release run. Every fatal condition of the
//! orchestration ends the run with exactly one of these values; the
//! contracts of the state machine say on which inputs each one arises.

use vstd::prelude::*;

verus! {

/// A fatal condition of a release run.
///
/// Input validation fails before any I/O; precondition, environment and
/// conflict errors arise during preflight, before any mutation; mutation and
/// availability errors arise during the apply phase.
#[derive(Clone, Debug, PartialEq, Eq)]
pub enum ReleaseError {
    /// The operator-supplied version string is not acceptable.
    InvalidVersion { input: String },
    /// A repository's local directory does not exist.
    MissingDirectory { repo: String },
    /// A repository's origin remote does not reference the expected
    /// owner and name.
    OriginMismatch { repo: String, url: String },
    /// Refreshing remote references failed (network or auth).
    FetchFailed { repo: String, detail: String },
    /// The target tag already exists on the remote and the run is not a
    /// resume run.
    TagAlreadyReleased { repo: String },
    /// The working tree holds uncommitted changes.
    DirtyWorktree { repo: String, paths: Vec<String> },
    /// The checked-out ref is not a branch.
    DetachedHead { repo: String },
    /// Local HEAD differs from the remote-tracking branch's HEAD.
    BranchDiverged {
        repo: String,
        local_sha: String,
        remote_sha: String,
        ahead: u64,
        behind: u64,
    },
    /// A resume run found a local tag of the target name that does not
    /// point at HEAD.
    TagConflict { repo: String, existing_sha: String, head_sha: String },
    /// A non-resume run found the target tag locally or on the remote.
    TagAlreadyExists { repo: String },
    /// No hosting-service credential is available for a live run.
    MissingToken,
    /// Expected release assets did not stabilize before the deadline;
    /// `missing` enumerates the assets still missing or unstable at
    /// expiry, and the elapsed wait stands beside the configured timeout
    /// (both in milliseconds).
    AssetWaitTimeout { repo: String, missing: Vec<String>, waited_ms: u64, timeout_ms: u64 },
    /// A version-control command failed in a way the protocol does not
    /// classify further.
    CommandFailed { repo: String, detail: String },
    /// A hosting-service call failed while waiting for assets.
    ApiError { repo: String, detail: String },
}

} // verus!
