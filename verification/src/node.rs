//! The node's runtime state and the install-snapshot protocol handler.
//!
//! [`RaftCore::handle_install_snapshot_request`] is the receiver side of
//! the install-snapshot RPC: it validates the chunk against the node's
//! term and stream state, begins, continues or rejects the stream, and on
//! the final chunk finalizes the installation. All mutations of the
//! node's consensus state run through this single owner; the contracts
//! state the exact outcome of every call.

use vstd::prelude::*;

use crate::error::ErrorVerb;
use crate::error::InstallSnapshotError;
use crate::error::SnapshotMismatch;
use crate::error::StorageError;
use crate::log_id::next_index_of;
use crate::log_id::opt_log_id_is_le;
use crate::log_id::opt_log_id_le;
use crate::log_id::opt_log_id_max;
use crate::log_id::LogId;
use crate::message::InstallSnapshotRequest;
use crate::message::InstallSnapshotResponse;
use crate::message::SnapshotMeta;
use crate::message::SnapshotSegmentId;
use crate::storage::log_has_exact;
use crate::storage::log_has_index;
use crate::storage::write_at;
use crate::storage::LogEntry;
use crate::storage::Membership;
use crate::storage::SnapshotData;
use crate::storage::Storage;

verus! {

/// The node's role.
#[derive(Clone, Copy, PartialEq, Eq, Structural, Debug)]
pub enum NodeRole {
    Follower,
    Learner,
    Candidate,
    Leader,
}

impl NodeRole {
    pub fn is_follower(&self) -> (r: bool)
        ensures
            r == (*self is Follower),
    {
        matches!(self, NodeRole::Follower)
    }

    pub fn is_learner(&self) -> (r: bool)
        ensures
            r == (*self is Learner),
    {
        matches!(self, NodeRole::Learner)
    }
}

/// A cancellation handle on a background local-snapshot build. Aborting
/// is a cooperative signal: it does not wait for the build to notice.
#[derive(Clone, Copy, PartialEq, Eq, Structural, Debug)]
pub struct BuildHandle {
    pub aborted: bool,
}

impl BuildHandle {
    pub fn abort(&mut self)
        ensures
            *final(self) == (BuildHandle { aborted: true }),
    {
        self.aborted = true;
    }
}

/// At most one snapshot activity is in progress at a time; this single
/// slot holds it.
#[verifier::ext_equal]
pub enum SnapshotState {
    /// The node is locally compacting its own snapshot.
    Snapshotting { handle: BuildHandle },
    /// The node is mid-receive from a leader: the stream's id, the byte
    /// offset the next chunk is expected at, and the open write sink.
    Streaming { offset: usize, id: String, snapshot: SnapshotData },
}

/// `x + 1`, stopping at the top of the range; used for the event
/// counters, where saturation only means the count is no longer exact.
pub open spec fn sat_inc(x: u64) -> u64 {
    if x == u64::MAX {
        x
    } else {
        (x + 1) as u64
    }
}

/// The node's authoritative consensus state, the stream slot, and the
/// durable store it drives.
///
/// `election_timer_resets`, `metrics_reports` and `purge_failures` count
/// the outward signals this pathway emits: election-timeout resets,
/// fire-and-forget metrics reports, and purge failures that were
/// reported but deliberately not escalated.
#[verifier::ext_equal]
pub struct RaftCore {
    pub current_term: u64,
    pub voted_for: Option<u64>,
    pub current_leader: Option<u64>,
    pub target_state: NodeRole,
    pub last_log_id: Option<LogId>,
    pub committed: Option<LogId>,
    pub last_applied: Option<LogId>,
    pub snapshot_last_log_id: Option<LogId>,
    pub membership: Option<Membership>,
    pub snapshot_state: Option<SnapshotState>,
    pub storage: Storage,
    pub election_timer_resets: u64,
    pub metrics_reports: u64,
    pub purge_failures: u64,
}

impl RaftCore {
    /// The invariant of the node at every observable boundary: the
    /// log-position markers are ordered, the stored log is sorted, and a
    /// stream's tracked offset equals its sink's write position.
    pub open spec fn wf(self) -> bool {
        &&& opt_log_id_le(self.last_applied, self.committed)
        &&& opt_log_id_le(self.committed, self.last_log_id)
        &&& self.storage.wf()
        &&& match self.snapshot_state {
            Some(SnapshotState::Streaming { offset, snapshot, .. }) => !snapshot.closed
                && snapshot.pos == offset,
            _ => true,
        }
    }

    /// Resets the election timeout clock: a chunk from a legitimate
    /// leader counts as a liveness signal.
    pub fn update_next_election_timeout(&mut self)
        ensures
            *final(self) == (RaftCore {
                election_timer_resets: sat_inc(old(self).election_timer_resets),
                ..*old(self)
            }),
    {
        if self.election_timer_resets < u64::MAX {
            self.election_timer_resets = self.election_timer_resets + 1;
        }
    }

    /// Emits a fire-and-forget metrics report.
    pub fn report_metrics(&mut self)
        ensures
            *final(self) == (RaftCore {
                metrics_reports: sat_inc(old(self).metrics_reports),
                ..*old(self)
            }),
    {
        if self.metrics_reports < u64::MAX {
            self.metrics_reports = self.metrics_reports + 1;
        }
    }

    /// Adopts a newer term together with the vote cast in it.
    pub fn update_current_term(&mut self, term: u64, voted_for: Option<u64>)
        requires
            old(self).current_term <= term,
        ensures
            *final(self) == (RaftCore { current_term: term, voted_for, ..*old(self) }),
    {
        self.current_term = term;
        self.voted_for = voted_for;
    }

    /// Durably persists the node's term and vote.
    pub fn save_hard_state(&mut self)
        ensures
            *final(self) == (RaftCore {
                storage: (Storage {
                    hard_state_term: old(self).current_term,
                    hard_state_voted_for: old(self).voted_for,
                    ..old(self).storage
                }),
                ..*old(self)
            }),
    {
        let term = self.current_term;
        let voted_for = self.voted_for;
        self.storage.save_hard_state(term, voted_for);
        proof {
            assert(*self =~= (RaftCore {
                storage: (Storage {
                    hard_state_term: old(self).current_term,
                    hard_state_voted_for: old(self).voted_for,
                    ..old(self).storage
                }),
                ..*old(self)
            }));
        }
    }

    /// Forces the node's role.
    pub fn set_target_state(&mut self, role: NodeRole)
        ensures
            *final(self) == (RaftCore {
                target_state: role,
                metrics_reports: sat_inc(old(self).metrics_reports),
                ..*old(self)
            }),
    {
        self.target_state = role;
        self.report_metrics();
    }

    /// Proposes a new applied position; the marker only ever moves
    /// forward, whichever path proposes (a snapshot install or the
    /// apply pipeline), so a slower in-flight apply can never roll a
    /// larger installed position back.
    pub fn advance_last_applied(&mut self, proposed: Option<LogId>)
        ensures
            *final(self) == (RaftCore {
                last_applied: opt_log_id_max(old(self).last_applied, proposed),
                ..*old(self)
            }),
    {
        if opt_log_id_is_le(&self.last_applied, &proposed) {
            self.last_applied = proposed;
        }
    }

    /// Deletes every local log entry at or after `index`; the markers are
    /// untouched, only the stored log shrinks.
    pub fn delete_conflict_logs_since(&mut self, index: u64)
        ensures
            final(self).storage.log@ == old(self).storage.log@.filter(
                |e: LogEntry| e.log_id.index < index,
            ),
            final(self).storage.same_but_log(old(self).storage),
            old(self).storage.wf() ==> final(self).storage.wf(),
            same_but_storage(*final(self), *old(self)),
    {
        self.storage.delete_logs_since(index);
    }
}

/// Every field of the two cores agrees except possibly the store.
pub open spec fn same_but_storage(a: RaftCore, b: RaftCore) -> bool {
    &&& a.current_term == b.current_term
    &&& a.voted_for == b.voted_for
    &&& a.current_leader == b.current_leader
    &&& a.target_state == b.target_state
    &&& a.last_log_id == b.last_log_id
    &&& a.committed == b.committed
    &&& a.last_applied == b.last_applied
    &&& a.snapshot_last_log_id == b.snapshot_last_log_id
    &&& a.membership == b.membership
    &&& a.snapshot_state == b.snapshot_state
    &&& a.election_timer_resets == b.election_timer_resets
    &&& a.metrics_reports == b.metrics_reports
    &&& a.purge_failures == b.purge_failures
}

/// A snapshot at `meta_last` is stale when it is not ahead of the
/// applied position: installing it could only roll state backward, so it
/// is skipped.
pub open spec fn snapshot_is_stale(meta_last: Option<LogId>, applied: Option<LogId>) -> bool {
    opt_log_id_le(meta_last, applied)
}

/// What finalization returns, decided by the injected failures and the
/// staleness guard alone: closing the sink fails first; a stale snapshot
/// is skipped successfully; then the atomic install can fail; then a
/// missing stored membership is an integrity violation.
pub open spec fn finalize_result(
    s0: RaftCore,
    meta_last: Option<LogId>,
    fail_close: bool,
) -> Result<(), StorageError> {
    if fail_close {
        Err(StorageError::Io { verb: ErrorVerb::Close })
    } else if snapshot_is_stale(meta_last, s0.last_applied) {
        Ok(())
    } else if s0.storage.fail_install {
        Err(StorageError::Io { verb: ErrorVerb::Install })
    } else if s0.storage.membership is None {
        Err(StorageError::MembershipMissing)
    } else {
        Ok(())
    }
}

/// The log after conflict reconciliation against a snapshot at `last`:
/// if the local entry at `last.index` is missing or disagrees, the local
/// log has diverged from the leader's history, and everything after the
/// applied position is deleted; applied entries are never deleted, and
/// if there is no entry just after the applied position there is nothing
/// to delete.
pub open spec fn reconciled_log(
    log: Seq<LogEntry>,
    applied: Option<LogId>,
    last: LogId,
) -> Seq<LogEntry> {
    if !log_has_exact(log, last) && log_has_index(log, next_index_of(applied)) {
        log.filter(|e: LogEntry| e.log_id.index < next_index_of(applied))
    } else {
        log
    }
}

/// The store after a successful install: the snapshot's metadata and
/// bytes replace the state machine's contents, the applied position is
/// the snapshot's, the log is `log2`, and everything else is untouched.
pub open spec fn storage_installed(
    t1: Storage,
    t0: Storage,
    meta: SnapshotMeta,
    bytes: Seq<u8>,
    log2: Seq<LogEntry>,
) -> bool {
    &&& t1.log@ == log2
    &&& t1.snapshot_meta matches Some(m) && m.snapshot_id@ == meta.snapshot_id@ && m.last_log_id
        == meta.last_log_id
    &&& t1.snapshot_data@ == bytes
    &&& t1.sm_applied == meta.last_log_id
    &&& t1.hard_state_term == t0.hard_state_term
    &&& t1.hard_state_voted_for == t0.hard_state_voted_for
    &&& t1.membership == t0.membership
    &&& t1.same_flags(t0)
}

/// How finalization transforms the node, for a completed snapshot at
/// `meta` whose sink holds `bytes` and whose close fails iff
/// `fail_close`. On a failed close, and on a stale snapshot, nothing
/// changes. Otherwise the log is reconciled, the snapshot is installed,
/// redundant entries are purged (a purge failure is only counted), the
/// markers advance, and the membership is refreshed from the store.
pub open spec fn finalize_state(
    s0: RaftCore,
    meta: SnapshotMeta,
    bytes: Seq<u8>,
    fail_close: bool,
    s1: RaftCore,
) -> bool {
    if fail_close || snapshot_is_stale(meta.last_log_id, s0.last_applied) {
        s1 == s0
    } else {
        match meta.last_log_id {
            // unreachable: an absent position is never ahead of the
            // applied one
            None => s1 == s0,
            Some(last) => {
                let rlog = reconciled_log(s0.storage.log@, s0.last_applied, last);
                if s0.storage.fail_install {
                    &&& same_but_storage(s1, s0)
                    &&& s1.storage.log@ == rlog
                    &&& s1.storage.same_but_log(s0.storage)
                } else {
                    let log2 = if s0.storage.fail_purge {
                        rlog
                    } else {
                        rlog.filter(|e: LogEntry| e.log_id.index > last.index)
                    };
                    &&& s1.current_term == s0.current_term
                    &&& s1.voted_for == s0.voted_for
                    &&& s1.current_leader == s0.current_leader
                    &&& s1.target_state == s0.target_state
                    &&& s1.snapshot_state == s0.snapshot_state
                    &&& s1.election_timer_resets == s0.election_timer_resets
                    &&& s1.purge_failures == (if s0.storage.fail_purge {
                        sat_inc(s0.purge_failures)
                    } else {
                        s0.purge_failures
                    })
                    &&& s1.last_applied == Some(last)
                    &&& s1.committed == opt_log_id_max(s0.committed, Some(last))
                    &&& s1.last_log_id == opt_log_id_max(s0.last_log_id, Some(last))
                    &&& storage_installed(s1.storage, s0.storage, meta, bytes, log2)
                    &&& if s0.storage.membership is None {
                        s1.membership == s0.membership && s1.snapshot_last_log_id
                            == s0.snapshot_last_log_id && s1.metrics_reports == s0.metrics_reports
                    } else {
                        (s1.membership matches Some(m1) && s0.storage.membership matches Some(m0)
                            && m1.members@ == m0.members@) && s1.snapshot_last_log_id
                            == s1.last_applied && s1.metrics_reports == sat_inc(s0.metrics_reports)
                    }
                }
            },
        }
    }
}

impl RaftCore {
    /// Finalizes the installation of a fully received snapshot: closes
    /// the sink, skips a stale snapshot, reconciles the local log,
    /// installs atomically, purges redundant entries, advances the
    /// markers and refreshes the membership. Every error from here is
    /// fatal: the caller must escalate to node shutdown, not retry.
    pub fn finalize_snapshot_installation(
        &mut self,
        req: InstallSnapshotRequest,
        mut snapshot: SnapshotData,
    ) -> (r: Result<(), StorageError>)
        requires
            old(self).wf(),
            !snapshot.closed,
        ensures
            final(self).wf(),
            r == finalize_result(*old(self), req.meta.last_log_id, snapshot.fail_close),
            finalize_state(*old(self), req.meta, snapshot.bytes@, snapshot.fail_close, *final(self)),
            opt_log_id_le(old(self).last_applied, final(self).last_applied),
    {
        match snapshot.close() {
            Err(e) => {
                return Err(e);
            },
            Ok(()) => {},
        }

        // A duplicate or superseded snapshot must never roll state
        // backward: accept it as a no-op.
        if opt_log_id_is_le(&req.meta.last_log_id, &self.last_applied) {
            return Ok(());
        }

        let last = match req.meta.last_log_id {
            Some(l) => l,
            None => {
                // An absent position is below every applied position, so
                // the staleness guard above already returned.
                proof {
                    assert(false);
                }
                LogId { term: 0, index: 0 }
            },
        };

        // Conflict detection: the local entry at the snapshot's position
        // must exist and agree exactly, else the local log has diverged
        // and the suffix after the applied position is deleted.
        let entry_matches = match self.storage.get_log_entry(last.index) {
            Some(ent) => ent.log_id == last,
            None => false,
        };
        if !entry_matches {
            let next: Option<u64> = match self.last_applied {
                None => Some(0),
                Some(l) => if l.index < u64::MAX {
                    Some(l.index + 1)
                } else {
                    None
                },
            };
            if let Some(n) = next {
                if self.storage.get_log_entry(n).is_some() {
                    self.delete_conflict_logs_since(n);
                }
            }
        }
        proof {
            assert(self.storage.log@ =~= reconciled_log(
                old(self).storage.log@,
                old(self).last_applied,
                last,
            ));
        }

        let changes = match self.storage.install_snapshot(&req.meta, snapshot) {
            Ok(c) => c,
            Err(e) => {
                return Err(e);
            },
        };

        // Entries at or below the new applied position are redundant;
        // purge them. A purge failure is reported but must not roll back
        // the already-durable install.
        match &changes {
            Some(l) => {
                match self.storage.purge_logs_upto(*l) {
                    Ok(()) => {},
                    Err(_e) => {
                        if self.purge_failures < u64::MAX {
                            self.purge_failures = self.purge_failures + 1;
                        }
                    },
                }
            },
            None => {},
        }

        self.advance_last_applied(changes);
        if opt_log_id_is_le(&self.committed, &self.last_applied) {
            self.committed = self.last_applied;
        }
        if opt_log_id_is_le(&self.last_log_id, &self.last_applied) {
            self.last_log_id = self.last_applied;
        }

        // The snapshot may encode a membership history unknown to the
        // in-memory state: adopt what the store now holds. Its absence
        // is an integrity violation, not a retryable error.
        let membership = match self.storage.get_membership() {
            Some(m) => m,
            None => {
                return Err(StorageError::MembershipMissing);
            },
        };
        self.membership = Some(membership);

        self.snapshot_last_log_id = self.last_applied;
        self.report_metrics();
        Ok(())
    }
}

/// The reply is a mismatch rejection naming the expected checkpoint
/// `(expect_id, expect_offset)` and the received one
/// `(got_id, got_offset)`.
pub open spec fn is_mismatch(
    r: Result<InstallSnapshotResponse, InstallSnapshotError>,
    expect_id: Seq<char>,
    expect_offset: int,
    got_id: Seq<char>,
    got_offset: int,
) -> bool {
    r matches Err(InstallSnapshotError::Mismatch(m)) && m.expect.id@ == expect_id
        && m.expect.offset == expect_offset && m.got.id@ == got_id && m.got.offset == got_offset
}

/// The node holds an open stream: id `id`, tracked offset `off`, and a
/// sink holding `bytes` with write position `pos` and the failure flags
/// `fw`/`fs`/`fc`.
pub open spec fn streaming_state(
    s1: RaftCore,
    id: Seq<char>,
    off: int,
    bytes: Seq<u8>,
    pos: int,
    fw: bool,
    fs: bool,
    fc: bool,
) -> bool {
    s1.snapshot_state matches Some(SnapshotState::Streaming { offset, id: sid, snapshot })
        && sid@ == id && offset == off && snapshot.bytes@ == bytes && snapshot.pos == pos
        && !snapshot.closed && snapshot.fail_write == fw && snapshot.fail_seek == fs
        && snapshot.fail_close == fc
}

/// The reply of a chunk that finalized: finalization's own result,
/// mapped to the RPC's types; on success the reply carries the term and
/// the now-current applied position.
pub open spec fn done_response(
    s0: RaftCore,
    meta_last: Option<LogId>,
    fail_close: bool,
    s1: RaftCore,
) -> Result<InstallSnapshotResponse, InstallSnapshotError> {
    match finalize_result(s0, meta_last, fail_close) {
        Ok(_) => Ok(
            InstallSnapshotResponse { term: s0.current_term, last_applied: s1.last_applied },
        ),
        Err(e) => Err(InstallSnapshotError::Storage(e)),
    }
}

/// How beginning a new stream transforms the node. A nonzero offset is
/// rejected (a stream must start at its first byte); a failed open or
/// first write leaves the node unchanged so the leader's retry starts
/// over; otherwise the chunk is written to a fresh sink, and the node
/// either holds the new stream or, on the final chunk, finalizes.
pub open spec fn begin_spec(
    s0: RaftCore,
    req: InstallSnapshotRequest,
    s1: RaftCore,
    r: Result<InstallSnapshotResponse, InstallSnapshotError>,
) -> bool {
    if req.offset != 0 {
        s1 == s0 && is_mismatch(r, req.meta.snapshot_id@, 0, req.meta.snapshot_id@, req.offset as int)
    } else if s0.storage.fail_open {
        s1 == s0 && r == Err::<InstallSnapshotResponse, InstallSnapshotError>(
            InstallSnapshotError::Storage(StorageError::Io { verb: ErrorVerb::Open }),
        )
    } else if s0.storage.sink_fail_write {
        s1 == s0 && r == Err::<InstallSnapshotResponse, InstallSnapshotError>(
            InstallSnapshotError::Storage(StorageError::Io { verb: ErrorVerb::Write }),
        )
    } else if !req.done {
        &&& r == Ok::<InstallSnapshotResponse, InstallSnapshotError>(
            InstallSnapshotResponse { term: s0.current_term, last_applied: None },
        )
        &&& streaming_state(
            s1,
            req.meta.snapshot_id@,
            req.data@.len() as int,
            req.data@,
            req.data@.len() as int,
            s0.storage.sink_fail_write,
            s0.storage.sink_fail_seek,
            s0.storage.sink_fail_close,
        )
        &&& same_but_stream(s1, s0)
    } else {
        &&& r == done_response(s0, req.meta.last_log_id, s0.storage.sink_fail_close, s1)
        &&& finalize_state(s0, req.meta, req.data@, s0.storage.sink_fail_close, s1)
    }
}

/// How continuing the open stream with sink `sink` at tracked offset
/// `offset` transforms the node. A chunk at another offset first seeks
/// there (the leader may retransmit or resume); a failed seek or write
/// restores the stream, with only the seek state advanced, so a retry
/// can resume; otherwise the chunk is written at its offset, and the
/// node tracks the position past it or, on the final chunk, finalizes.
pub open spec fn continue_spec(
    s0: RaftCore,
    req: InstallSnapshotRequest,
    offset: usize,
    sink: SnapshotData,
    s1: RaftCore,
    r: Result<InstallSnapshotResponse, InstallSnapshotError>,
) -> bool {
    if req.offset != offset && sink.fail_seek {
        &&& r == Err::<InstallSnapshotResponse, InstallSnapshotError>(
            InstallSnapshotError::Storage(StorageError::Io { verb: ErrorVerb::Seek }),
        )
        &&& streaming_state(
            s1,
            req.meta.snapshot_id@,
            offset as int,
            sink.bytes@,
            sink.pos as int,
            sink.fail_write,
            sink.fail_seek,
            sink.fail_close,
        )
        &&& same_but_stream(s1, s0)
    } else if sink.fail_write {
        &&& r == Err::<InstallSnapshotResponse, InstallSnapshotError>(
            InstallSnapshotError::Storage(StorageError::Io { verb: ErrorVerb::Write }),
        )
        &&& streaming_state(
            s1,
            req.meta.snapshot_id@,
            req.offset as int,
            sink.bytes@,
            req.offset as int,
            sink.fail_write,
            sink.fail_seek,
            sink.fail_close,
        )
        &&& same_but_stream(s1, s0)
    } else {
        let written = write_at(sink.bytes@, req.offset as int, req.data@);
        let new_offset = req.offset + req.data@.len();
        if !req.done {
            &&& r == Ok::<InstallSnapshotResponse, InstallSnapshotError>(
                InstallSnapshotResponse { term: s0.current_term, last_applied: None },
            )
            &&& streaming_state(
                s1,
                req.meta.snapshot_id@,
                new_offset,
                written,
                new_offset,
                sink.fail_write,
                sink.fail_seek,
                sink.fail_close,
            )
            &&& same_but_stream(s1, s0)
        } else {
            &&& r == done_response(s0, req.meta.last_log_id, sink.fail_close, s1)
            &&& finalize_state(s0, req.meta, written, sink.fail_close, s1)
        }
    }
}

impl RaftCore {
    /// Begins receiving a new snapshot stream with this chunk; the
    /// stream slot must be free. See [`begin_spec`].
    pub fn begin_installing_snapshot(&mut self, req: InstallSnapshotRequest) -> (r: Result<
        InstallSnapshotResponse,
        InstallSnapshotError,
    >)
        requires
            old(self).wf(),
            old(self).snapshot_state is None,
        ensures
            final(self).wf(),
            begin_spec(*old(self), req, *final(self), r),
    {
        if req.offset > 0 {
            let expect_id = req.meta.snapshot_id.clone();
            return Err(InstallSnapshotError::Mismatch(SnapshotMismatch {
                expect: SnapshotSegmentId { id: expect_id, offset: 0 },
                got: SnapshotSegmentId { id: req.meta.snapshot_id, offset: req.offset },
            }));
        }

        let chunk_len = req.data.len();
        let mut snapshot = match self.storage.begin_receiving_snapshot() {
            Ok(s) => s,
            Err(e) => {
                return Err(InstallSnapshotError::Storage(e));
            },
        };
        match snapshot.write_all(&req.data) {
            Ok(()) => {},
            Err(e) => {
                return Err(InstallSnapshotError::Storage(e));
            },
        }
        proof {
            assert(snapshot.bytes@ =~= req.data@);
        }

        // A small snapshot may arrive in a single chunk: finish up
        // immediately.
        if req.done {
            let term = self.current_term;
            match self.finalize_snapshot_installation(req, snapshot) {
                Ok(()) => {},
                Err(e) => {
                    return Err(InstallSnapshotError::Storage(e));
                },
            }
            return Ok(InstallSnapshotResponse { term, last_applied: self.last_applied });
        }

        // Retain the stream for the following chunks.
        let offset = chunk_len;
        self.snapshot_state = Some(
            SnapshotState::Streaming { offset, id: req.meta.snapshot_id, snapshot },
        );
        Ok(InstallSnapshotResponse { term: self.current_term, last_applied: None })
    }

    /// Continues the open stream, whose id already matched this chunk's,
    /// with `offset` and `snapshot` taken out of the stream slot. See
    /// [`continue_spec`].
    pub fn continue_installing_snapshot(
        &mut self,
        req: InstallSnapshotRequest,
        offset: usize,
        snapshot: SnapshotData,
    ) -> (r: Result<InstallSnapshotResponse, InstallSnapshotError>)
        requires
            old(self).wf(),
            old(self).snapshot_state is None,
            !snapshot.closed,
            snapshot.pos == offset,
            req.offset + req.data@.len() <= usize::MAX,
        ensures
            final(self).wf(),
            continue_spec(*old(self), req, offset, snapshot, *final(self), r),
    {
        let mut snapshot = snapshot;
        let mut offset = offset;

        // Seek to the chunk's offset if it is not an exact match: the
        // leader may retransmit an earlier segment or resume.
        if req.offset != offset {
            match snapshot.seek(req.offset) {
                Ok(()) => {
                    offset = req.offset;
                },
                Err(e) => {
                    let id = req.meta.snapshot_id.clone();
                    self.snapshot_state = Some(
                        SnapshotState::Streaming { offset, id, snapshot },
                    );
                    return Err(InstallSnapshotError::Storage(e));
                },
            }
        }

        match snapshot.write_all(&req.data) {
            Ok(()) => {},
            Err(e) => {
                let id = req.meta.snapshot_id.clone();
                self.snapshot_state = Some(SnapshotState::Streaming { offset, id, snapshot });
                return Err(InstallSnapshotError::Storage(e));
            },
        }
        let new_offset = req.offset + req.data.len();

        if req.done {
            let term = self.current_term;
            match self.finalize_snapshot_installation(req, snapshot) {
                Ok(()) => {},
                Err(e) => {
                    return Err(InstallSnapshotError::Storage(e));
                },
            }
            return Ok(InstallSnapshotResponse { term, last_applied: self.last_applied });
        }

        self.snapshot_state = Some(
            SnapshotState::Streaming { offset: new_offset, id: req.meta.snapshot_id, snapshot },
        );
        Ok(InstallSnapshotResponse { term: self.current_term, last_applied: None })
    }
}

/// The node after the term/leader/role synchronization a legitimate
/// (non-stale) chunk causes: the request's term is adopted and persisted
/// if newer, the sender becomes the known leader, a node that is neither
/// follower nor learner becomes a follower, the election timeout clock
/// is reset, and a metrics report is emitted for a term or leader
/// change (a forced role change reports on its own).
pub open spec fn synced_core(s0: RaftCore, req: InstallSnapshotRequest) -> RaftCore {
    let term_changed = s0.current_term != req.term;
    let leader_changed = s0.current_leader != Some(req.leader_id);
    let role_forced = !(s0.target_state is Follower) && !(s0.target_state is Learner);
    let role_reports = if role_forced {
        sat_inc(s0.metrics_reports)
    } else {
        s0.metrics_reports
    };
    RaftCore {
        current_term: req.term,
        voted_for: if term_changed {
            None
        } else {
            s0.voted_for
        },
        current_leader: Some(req.leader_id),
        target_state: if role_forced {
            NodeRole::Follower
        } else {
            s0.target_state
        },
        storage: if term_changed {
            Storage {
                hard_state_term: req.term,
                hard_state_voted_for: None,
                ..s0.storage
            }
        } else {
            s0.storage
        },
        election_timer_resets: sat_inc(s0.election_timer_resets),
        metrics_reports: if term_changed || leader_changed {
            sat_inc(role_reports)
        } else {
            role_reports
        },
        ..s0
    }
}

/// How one install-snapshot request transforms the node. A stale term
/// is answered with the current term and no state change. Otherwise the
/// node synchronizes term, leader and role, and dispatches on the
/// stream slot: no activity begins a stream; a local build is cancelled
/// in favour of the leader's snapshot; a chunk of the open stream
/// continues it; a chunk of another stream starting at offset zero
/// supersedes the open one; anything else is rejected with a mismatch,
/// the open stream staying as it was.
pub open spec fn handle_spec(
    s0: RaftCore,
    req: InstallSnapshotRequest,
    s1: RaftCore,
    r: Result<InstallSnapshotResponse, InstallSnapshotError>,
) -> bool {
    if req.term < s0.current_term {
        s1 == s0 && r == Ok::<InstallSnapshotResponse, InstallSnapshotError>(
            InstallSnapshotResponse { term: s0.current_term, last_applied: None },
        )
    } else {
        let sm = synced_core(s0, req);
        match s0.snapshot_state {
            None => begin_spec(sm, req, s1, r),
            Some(SnapshotState::Snapshotting { .. }) => begin_spec(
                (RaftCore { snapshot_state: None, ..sm }),
                req,
                s1,
                r,
            ),
            Some(SnapshotState::Streaming { offset, id, snapshot }) => {
                if id@ == req.meta.snapshot_id@ {
                    continue_spec((RaftCore { snapshot_state: None, ..sm }), req, offset, snapshot, s1, r)
                } else if req.offset == 0 {
                    begin_spec((RaftCore { snapshot_state: None, ..sm }), req, s1, r)
                } else {
                    s1 == sm && is_mismatch(
                        r,
                        id@,
                        offset as int,
                        req.meta.snapshot_id@,
                        req.offset as int,
                    )
                }
            },
        }
    }
}

impl RaftCore {
    /// Handles one chunk of a snapshot pushed by the leader: the
    /// receiver side of the install-snapshot RPC. See [`handle_spec`]
    /// for the exact outcome; in every case the applied position never
    /// moves backwards, and a stale sender changes nothing.
    #[verifier::rlimit(60)]
    pub fn handle_install_snapshot_request(&mut self, req: InstallSnapshotRequest) -> (r: Result<
        InstallSnapshotResponse,
        InstallSnapshotError,
    >)
        requires
            old(self).wf(),
            req.offset + req.data@.len() <= usize::MAX,
        ensures
            final(self).wf(),
            handle_spec(*old(self), req, *final(self), r),
            opt_log_id_le(old(self).last_applied, final(self).last_applied),
            req.term < old(self).current_term ==> *final(self) == *old(self),
    {
        // An outdated leader is not honored: reply with the current term
        // and touch nothing.
        if req.term < self.current_term {
            return Ok(InstallSnapshotResponse { term: self.current_term, last_applied: None });
        }

        // This RPC is a liveness signal from a legitimate leader.
        self.update_next_election_timeout();

        let mut report = false;
        if self.current_term != req.term {
            self.update_current_term(req.term, None);
            self.save_hard_state();
            report = true;
        }
        let leader_differs = match &self.current_leader {
            Some(l) => *l != req.leader_id,
            None => true,
        };
        if leader_differs {
            self.current_leader = Some(req.leader_id);
            report = true;
        }
        if !self.target_state.is_follower() && !self.target_state.is_learner() {
            self.set_target_state(NodeRole::Follower);
        }
        if report {
            self.report_metrics();
        }
        proof {
            assert(*self =~= synced_core(*old(self), req));
        }

        // Dispatch on the stream slot.
        match self.snapshot_state.take() {
            None => self.begin_installing_snapshot(req),
            Some(SnapshotState::Snapshotting { handle }) => {
                // Cancel the local build in favour of installation from
                // the leader; the signal does not wait for the build.
                let mut handle = handle;
                handle.abort();
                self.begin_installing_snapshot(req)
            },
            Some(SnapshotState::Streaming { offset, id, snapshot }) => {
                if req.meta.snapshot_id == id {
                    self.continue_installing_snapshot(req, offset, snapshot)
                } else if req.offset == 0 {
                    // The leader started a new stream: the superseded
                    // one is discarded.
                    self.begin_installing_snapshot(req)
                } else {
                    // An out-of-order chunk of a different stream: reject
                    // it and keep the open stream as it was.
                    let expect_id = id.clone();
                    let got = SnapshotSegmentId {
                        id: req.meta.snapshot_id,
                        offset: req.offset,
                    };
                    self.snapshot_state = Some(
                        SnapshotState::Streaming { offset, id, snapshot },
                    );
                    Err(InstallSnapshotError::Mismatch(SnapshotMismatch {
                        expect: SnapshotSegmentId { id: expect_id, offset },
                        got,
                    }))
                }
            },
        }
    }
}

/// Staleness law: a request whose term is behind the node's changes
/// nothing, and its reply carries the current term and no applied
/// position.
pub proof fn lemma_stale_request_is_noop(
    s0: RaftCore,
    req: InstallSnapshotRequest,
    s1: RaftCore,
    r: Result<InstallSnapshotResponse, InstallSnapshotError>,
)
    requires
        handle_spec(s0, req, s1, r),
        req.term < s0.current_term,
    ensures
        s1 == s0,
        r == Ok::<InstallSnapshotResponse, InstallSnapshotError>(
            InstallSnapshotResponse { term: s0.current_term, last_applied: None },
        ),
{
}

/// Idempotence law: a finalization whose snapshot is not ahead of the
/// applied position changes nothing — a duplicate or superseded
/// snapshot never rolls state backward, and in particular never changes
/// `last_applied`.
pub proof fn lemma_stale_finalization_is_noop(
    s0: RaftCore,
    meta: SnapshotMeta,
    bytes: Seq<u8>,
    s1: RaftCore,
)
    requires
        snapshot_is_stale(meta.last_log_id, s0.last_applied),
        finalize_state(s0, meta, bytes, false, s1),
    ensures
        s1 == s0,
{
}

/// Single-active-stream law: a chunk of a different stream starting at
/// offset zero supersedes the stream in progress — afterwards the one
/// slot holds the new stream, with this first chunk written.
pub proof fn lemma_new_stream_supersedes(
    s0: RaftCore,
    req: InstallSnapshotRequest,
    s1: RaftCore,
    r: Result<InstallSnapshotResponse, InstallSnapshotError>,
)
    requires
        handle_spec(s0, req, s1, r),
        req.term == s0.current_term,
        (s0.snapshot_state matches Some(SnapshotState::Streaming { id, .. }) && id@
            != req.meta.snapshot_id@),
        req.offset == 0,
        !req.done,
        !s0.storage.fail_open,
        !s0.storage.sink_fail_write,
    ensures
        streaming_state(
            s1,
            req.meta.snapshot_id@,
            req.data@.len() as int,
            req.data@,
            req.data@.len() as int,
            s0.storage.sink_fail_write,
            s0.storage.sink_fail_seek,
            s0.storage.sink_fail_close,
        ),
{
}

/// Every field of the two cores agrees except possibly the stream slot.
pub open spec fn same_but_stream(a: RaftCore, b: RaftCore) -> bool {
    &&& a.current_term == b.current_term
    &&& a.voted_for == b.voted_for
    &&& a.current_leader == b.current_leader
    &&& a.target_state == b.target_state
    &&& a.last_log_id == b.last_log_id
    &&& a.committed == b.committed
    &&& a.last_applied == b.last_applied
    &&& a.snapshot_last_log_id == b.snapshot_last_log_id
    &&& a.membership == b.membership
    &&& a.storage == b.storage
    &&& a.election_timer_resets == b.election_timer_resets
    &&& a.metrics_reports == b.metrics_reports
    &&& a.purge_failures == b.purge_failures
}

} // verus!
