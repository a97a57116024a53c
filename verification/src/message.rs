//! The request and response of the install-snapshot RPC.

use vstd::prelude::*;

use crate::log_id::LogId;

verus! {

/// Opaque identifier the leader chooses to name one snapshot transfer
/// attempt; a chunk belongs to the stream currently open on the follower
/// exactly when their ids are equal.
pub type SnapshotId = String;

/// Describes the log position a snapshot represents. An absent
/// `last_log_id` means the snapshot represents the empty log.
#[derive(Debug)]
pub struct SnapshotMeta {
    pub snapshot_id: SnapshotId,
    pub last_log_id: Option<LogId>,
}

/// A byte-offset checkpoint within one snapshot stream, used to report a
/// mismatch between what the follower expected and what the leader sent.
#[derive(Debug)]
pub struct SnapshotSegmentId {
    pub id: SnapshotId,
    pub offset: usize,
}

/// One chunk of a snapshot, pushed by the leader.
#[derive(Debug)]
pub struct InstallSnapshotRequest {
    pub term: u64,
    pub leader_id: u64,
    pub meta: SnapshotMeta,
    /// Byte offset this chunk starts at.
    pub offset: usize,
    pub data: Vec<u8>,
    /// True on the final chunk of the stream.
    pub done: bool,
}

/// The follower's reply. `last_applied` is present only once the snapshot
/// (or an already-current one) has been durably reflected in the state
/// machine; while still streaming it is absent.
#[derive(Debug)]
pub struct InstallSnapshotResponse {
    pub term: u64,
    pub last_applied: Option<LogId>,
}

impl SnapshotMeta {
    /// A field-for-field copy; the id is compared by its characters, so the
    /// copy names the same stream.
    pub fn duplicate(&self) -> (r: SnapshotMeta)
        ensures
            r.snapshot_id@ == self.snapshot_id@,
            r.last_log_id == self.last_log_id,
    {
        SnapshotMeta { snapshot_id: self.snapshot_id.clone(), last_log_id: self.last_log_id }
    }
}

} // verus!
