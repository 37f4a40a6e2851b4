//! Error kinds reported by the node lifecycle and log operations.

use vstd::prelude::*;

verus! {

/// The error kinds that the supervisor, shutdown coordinator and log cache
/// report to their callers.
#[derive(Clone, Copy, Debug, PartialEq, Eq, Structural)]
pub enum NodeError {
    /// `start` was refused because a node process is already active.
    AlreadyRunning,
    /// `stop` was refused because no node process is active.
    NotRunning,
    /// Local node execution is not supported on this platform or build.
    PlatformUnsupported,
    /// The operating system refused to create the node process.
    SpawnFailed,
    /// The shared supervisor state is unavailable after an earlier panic.
    LockUnavailable,
    /// Writing the log dump to disk failed.
    IoError,
    /// A log page request used a zero page number or a zero page size.
    InvalidPageRequest,
}

impl NodeError {
    /// A short human-readable description of the error.
    pub fn message(&self) -> (r: &'static str)
        ensures
            r@ == match self {
                NodeError::AlreadyRunning => "node is already running"@,
                NodeError::NotRunning => "node is not running"@,
                NodeError::PlatformUnsupported => "local node is not supported on this platform"@,
                NodeError::SpawnFailed => "failed to spawn the node process"@,
                NodeError::LockUnavailable => "node state is unavailable"@,
                NodeError::IoError => "failed to write logs to file"@,
                NodeError::InvalidPageRequest => "page number and page size must be at least 1"@,
            },
    {
        match self {
            NodeError::AlreadyRunning => "node is already running",
            NodeError::NotRunning => "node is not running",
            NodeError::PlatformUnsupported => "local node is not supported on this platform",
            NodeError::SpawnFailed => "failed to spawn the node process",
            NodeError::LockUnavailable => "node state is unavailable",
            NodeError::IoError => "failed to write logs to file",
            NodeError::InvalidPageRequest => "page number and page size must be at least 1",
        }
    }
}

} // verus!
