//! Errors of the install-snapshot pathway.
//!
//! Two categories matter to the caller: recoverable failures, after which
//! the leader may retry or resume the stream, and fatal failures during
//! finalization, after which the node's durability can no longer be
//! trusted and the caller must escalate to node shutdown.

use vstd::prelude::*;

use crate::message::SnapshotSegmentId;

verus! {

/// The storage operation that failed.
#[derive(Clone, Copy, PartialEq, Eq, Structural, Debug)]
pub enum ErrorVerb {
    Open,
    Write,
    Seek,
    Close,
    Install,
    Purge,
}

/// A failure of the durable store.
#[derive(Debug)]
pub enum StorageError {
    /// An I/O failure of the named operation.
    Io { verb: ErrorVerb },
    /// No membership configuration was stored after a snapshot install: an
    /// unrecoverable integrity violation, never a retryable error.
    MembershipMissing,
}

/// The chunk does not continue the stream the follower has open: the
/// follower expected the checkpoint `expect` and got `got`. The leader must
/// restart or resume the stream accordingly.
#[derive(Debug)]
pub struct SnapshotMismatch {
    pub expect: SnapshotSegmentId,
    pub got: SnapshotSegmentId,
}

/// Everything the install-snapshot RPC can fail with.
#[derive(Debug)]
pub enum InstallSnapshotError {
    Mismatch(SnapshotMismatch),
    Storage(StorageError),
}

/// Fatal errors are those of finalization: closing the sink, the atomic
/// install, and a missing membership configuration afterwards. Everything
/// else leaves the node in a state from which the leader's retry can
/// proceed.
pub open spec fn is_fatal_storage(e: StorageError) -> bool {
    match e {
        StorageError::Io { verb } => verb == ErrorVerb::Close || verb == ErrorVerb::Install,
        StorageError::MembershipMissing => true,
    }
}

/// Whether this error must be escalated to node shutdown.
pub open spec fn is_fatal(e: InstallSnapshotError) -> bool {
    match e {
        InstallSnapshotError::Mismatch(_) => false,
        InstallSnapshotError::Storage(s) => is_fatal_storage(s),
    }
}

impl InstallSnapshotError {
    /// Decides whether the caller must shut the node down rather than let
    /// the leader retry.
    pub fn is_fatal(&self) -> (r: bool)
        ensures
            r == is_fatal(*self),
    {
        match self {
            InstallSnapshotError::Mismatch(_) => false,
            InstallSnapshotError::Storage(s) => match s {
                StorageError::Io { verb } => match verb {
                    ErrorVerb::Close => true,
                    ErrorVerb::Install => true,
                    _ => false,
                },
                StorageError::MembershipMissing => true,
            },
        }
    }
}

} // verus!
