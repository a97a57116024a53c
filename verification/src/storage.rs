//! In-memory model of the durable log and state-machine store.
//!
//! The protocol handler consumes the store only through the operations
//! here; each operation's contract states the interface semantics the
//! protocol relies on. Every fallible operation can be made to fail
//! through an injection flag, so the protocol's error paths are real
//! paths, and each contract says exactly what the operation leaves behind
//! on failure.

use vstd::prelude::*;
use vstd::pervasive::VecAdditionalExecFns;

use crate::error::ErrorVerb;
use crate::error::StorageError;
use crate::log_id::LogId;
use crate::message::SnapshotMeta;

verus! {

/// One log entry; this pathway reads nothing of an entry but its id.
#[derive(Clone, Copy, PartialEq, Eq, Structural, Debug)]
pub struct LogEntry {
    pub log_id: LogId,
}

/// A membership configuration: the ids of the member nodes.
pub struct Membership {
    pub members: Vec<u64>,
}

impl Membership {
    /// An element-for-element copy.
    pub fn duplicate(&self) -> (r: Membership)
        ensures
            r.members@ == self.members@,
    {
        let mut out: Vec<u64> = Vec::new();
        let mut i: usize = 0;
        while i < self.members.len()
            invariant
                i <= self.members.len(),
                out@ == self.members@.subrange(0, i as int),
            decreases self.members.len() - i,
        {
            out.push(self.members[i]);
            i += 1;
        }
        assert(out@ =~= self.members@);
        Membership { members: out }
    }
}

/// The bytes a sink holds after writing `d` at byte offset `pos` of `s`:
/// the write overwrites existing bytes, extends the sink if it runs past
/// the end, and any gap between the old end and `pos` reads as zeros.
pub open spec fn write_at(s: Seq<u8>, pos: int, d: Seq<u8>) -> Seq<u8> {
    Seq::new(
        if s.len() >= pos + d.len() {
            s.len()
        } else {
            (pos + d.len()) as nat
        },
        |i: int|
            if pos <= i < pos + d.len() {
                d[i - pos]
            } else if i < s.len() {
                s[i]
            } else {
                0u8
            },
    )
}

/// A fresh, writable, seekable byte sink for one snapshot transfer.
///
/// `pos` is the current write position; `bytes` is everything written so
/// far, gaps reading as zeros. The `fail_*` flags inject an I/O failure
/// into the corresponding operation; a failed operation leaves the sink
/// unchanged.
pub struct SnapshotData {
    pub bytes: Vec<u8>,
    pub pos: usize,
    pub closed: bool,
    pub fail_write: bool,
    pub fail_seek: bool,
    pub fail_close: bool,
}

impl SnapshotData {
    /// Writes all of `data` at the current position and advances the
    /// position past it; on failure the sink is unchanged.
    pub fn write_all(&mut self, data: &Vec<u8>) -> (r: Result<(), StorageError>)
        requires
            !old(self).closed,
            old(self).pos + data@.len() <= usize::MAX,
        ensures
            final(self).pos == if r is Ok {
                (old(self).pos + data@.len()) as usize
            } else {
                old(self).pos
            },
            final(self).bytes@ == if r is Ok {
                write_at(old(self).bytes@, old(self).pos as int, data@)
            } else {
                old(self).bytes@
            },
            final(self).closed == old(self).closed,
            final(self).fail_write == old(self).fail_write,
            final(self).fail_seek == old(self).fail_seek,
            final(self).fail_close == old(self).fail_close,
            r is Err <==> old(self).fail_write,
            r is Err ==> r == Err::<(), StorageError>(StorageError::Io { verb: ErrorVerb::Write }),
    {
        if self.fail_write {
            return Err(StorageError::Io { verb: ErrorVerb::Write });
        }
        // Zero-fill any gap between the current end and the write position.
        while self.bytes.len() < self.pos
            invariant
                self.pos == old(self).pos,
                self.closed == old(self).closed,
                self.fail_write == old(self).fail_write,
                self.fail_seek == old(self).fail_seek,
                self.fail_close == old(self).fail_close,
                self.bytes@.len() >= old(self).bytes@.len(),
                self.bytes@.len() <= write_at(
                    old(self).bytes@,
                    old(self).pos as int,
                    Seq::<u8>::empty(),
                ).len(),
                self.bytes@ == write_at(old(self).bytes@, old(self).pos as int, Seq::<u8>::empty())
                    .subrange(0, self.bytes@.len() as int),
            decreases self.pos - self.bytes.len(),
        {
            proof {
                assert(write_at(old(self).bytes@, old(self).pos as int, Seq::<u8>::empty())
                    .subrange(0, self.bytes@.len() as int).push(0u8) =~= write_at(
                    old(self).bytes@,
                    old(self).pos as int,
                    Seq::<u8>::empty(),
                ).subrange(0, self.bytes@.len() as int + 1));
            }
            self.bytes.push(0u8);
        }
        assert(self.bytes@ =~= write_at(
            old(self).bytes@,
            old(self).pos as int,
            data@.subrange(0, 0),
        ));
        // Write the chunk, overwriting where bytes exist and appending past
        // the end.
        let mut i: usize = 0;
        while i < data.len()
            invariant
                i <= data.len(),
                self.pos == old(self).pos,
                self.pos + data@.len() <= usize::MAX,
                self.closed == old(self).closed,
                self.fail_write == old(self).fail_write,
                self.fail_seek == old(self).fail_seek,
                self.fail_close == old(self).fail_close,
                self.bytes@.len() >= self.pos + i,
                self.bytes@ == write_at(old(self).bytes@, old(self).pos as int, data@.subrange(0, i as int)),
            decreases data.len() - i,
        {
            let j: usize = self.pos + i;
            if j < self.bytes.len() {
                self.bytes.set(j, data[i]);
            } else {
                self.bytes.push(data[i]);
            }
            proof {
                assert(self.bytes@ =~= write_at(
                    old(self).bytes@,
                    old(self).pos as int,
                    data@.subrange(0, i + 1),
                ));
            }
            i += 1;
        }
        proof {
            assert(data@.subrange(0, data@.len() as int) =~= data@);
        }
        self.pos = self.pos + data.len();
        Ok(())
    }

    /// Moves the write position to `offset`; on failure the sink is
    /// unchanged.
    pub fn seek(&mut self, offset: usize) -> (r: Result<(), StorageError>)
        requires
            !old(self).closed,
        ensures
            final(self).pos == if r is Ok {
                offset
            } else {
                old(self).pos
            },
            final(self).bytes@ == old(self).bytes@,
            final(self).closed == old(self).closed,
            final(self).fail_write == old(self).fail_write,
            final(self).fail_seek == old(self).fail_seek,
            final(self).fail_close == old(self).fail_close,
            r is Err <==> old(self).fail_seek,
            r is Err ==> r == Err::<(), StorageError>(StorageError::Io { verb: ErrorVerb::Seek }),
    {
        if self.fail_seek {
            return Err(StorageError::Io { verb: ErrorVerb::Seek });
        }
        self.pos = offset;
        Ok(())
    }

    /// Flushes and closes the sink; on failure the sink is unchanged, and
    /// the caller cannot know whether its bytes are durable.
    pub fn close(&mut self) -> (r: Result<(), StorageError>)
        requires
            !old(self).closed,
        ensures
            final(self).bytes@ == old(self).bytes@,
            final(self).pos == old(self).pos,
            final(self).closed == (r is Ok),
            final(self).fail_write == old(self).fail_write,
            final(self).fail_seek == old(self).fail_seek,
            final(self).fail_close == old(self).fail_close,
            r is Err <==> old(self).fail_close,
            r is Err ==> r == Err::<(), StorageError>(StorageError::Io { verb: ErrorVerb::Close }),
    {
        if self.fail_close {
            return Err(StorageError::Io { verb: ErrorVerb::Close });
        }
        self.closed = true;
        Ok(())
    }
}

/// The log is sorted by strictly increasing index, so an index names at
/// most one entry.
pub open spec fn log_sorted(log: Seq<LogEntry>) -> bool {
    forall|i: int, j: int|
        0 <= i < j < log.len() ==> log[i].log_id.index < log[j].log_id.index
}

/// Whether `log` holds an entry whose id is exactly `id`.
pub open spec fn log_has_exact(log: Seq<LogEntry>, id: LogId) -> bool {
    exists|i: int| 0 <= i < log.len() && log[i].log_id == id
}

/// Whether `log` holds an entry at index `index`.
pub open spec fn log_has_index(log: Seq<LogEntry>, index: int) -> bool {
    exists|i: int| 0 <= i < log.len() && log[i].log_id.index == index
}

/// The durable store: the log, the hard state, the installed snapshot and
/// the state machine's applied position and membership configuration.
///
/// The `fail_*` flags inject a failure into the corresponding operation;
/// the `sink_fail_*` flags are handed to every sink this store opens.
pub struct Storage {
    pub log: Vec<LogEntry>,
    pub hard_state_term: u64,
    pub hard_state_voted_for: Option<u64>,
    pub snapshot_meta: Option<SnapshotMeta>,
    pub snapshot_data: Vec<u8>,
    pub sm_applied: Option<LogId>,
    pub membership: Option<Membership>,
    pub fail_open: bool,
    pub sink_fail_write: bool,
    pub sink_fail_seek: bool,
    pub sink_fail_close: bool,
    pub fail_install: bool,
    pub fail_purge: bool,
}

impl Storage {
    /// The store is well-formed when its log is sorted by index.
    pub open spec fn wf(self) -> bool {
        log_sorted(self.log@)
    }

    /// Everything except the log equals that of `other`. Log deletion and
    /// purging touch nothing else.
    pub open spec fn same_but_log(self, other: Storage) -> bool {
        self.hard_state_term == other.hard_state_term
            && self.hard_state_voted_for == other.hard_state_voted_for
            && self.snapshot_meta == other.snapshot_meta
            && self.snapshot_data == other.snapshot_data
            && self.sm_applied == other.sm_applied
            && self.membership == other.membership
            && self.same_flags(other)
    }

    /// The failure-injection flags equal those of `other`.
    pub open spec fn same_flags(self, other: Storage) -> bool {
        self.fail_open == other.fail_open && self.sink_fail_write == other.sink_fail_write
            && self.sink_fail_seek == other.sink_fail_seek && self.sink_fail_close
            == other.sink_fail_close && self.fail_install == other.fail_install
            && self.fail_purge == other.fail_purge
    }

    /// Durably records the node's term and vote.
    pub fn save_hard_state(&mut self, term: u64, voted_for: Option<u64>)
        ensures
            final(self).hard_state_term == term,
            final(self).hard_state_voted_for == voted_for,
            final(self).log == old(self).log,
            final(self).snapshot_meta == old(self).snapshot_meta,
            final(self).snapshot_data == old(self).snapshot_data,
            final(self).sm_applied == old(self).sm_applied,
            final(self).membership == old(self).membership,
            final(self).same_flags(*old(self)),
    {
        self.hard_state_term = term;
        self.hard_state_voted_for = voted_for;
    }

    /// Opens a fresh, empty, writable sink for a snapshot about to be
    /// received; the store itself is untouched.
    pub fn begin_receiving_snapshot(&self) -> (r: Result<SnapshotData, StorageError>)
        ensures
            r is Err <==> self.fail_open,
            r is Err ==> r == Err::<SnapshotData, StorageError>(
                StorageError::Io { verb: ErrorVerb::Open },
            ),
            r matches Ok(sink) ==> sink.bytes@ == Seq::<u8>::empty() && sink.pos == 0
                && !sink.closed && sink.fail_write == self.sink_fail_write && sink.fail_seek
                == self.sink_fail_seek && sink.fail_close == self.sink_fail_close,
    {
        if self.fail_open {
            return Err(StorageError::Io { verb: ErrorVerb::Open });
        }
        Ok(SnapshotData {
            bytes: Vec::new(),
            pos: 0,
            closed: false,
            fail_write: self.sink_fail_write,
            fail_seek: self.sink_fail_seek,
            fail_close: self.sink_fail_close,
        })
    }

    /// The entry at log index `index`, if the log holds one.
    pub fn get_log_entry(&self, index: u64) -> (r: Option<LogEntry>)
        requires
            self.wf(),
        ensures
            r matches Some(e) ==> log_has_exact(self.log@, e.log_id) && e.log_id.index == index,
            r is None ==> !log_has_index(self.log@, index as int),
    {
        let mut i: usize = 0;
        while i < self.log.len()
            invariant
                i <= self.log.len(),
                forall|k: int| 0 <= k < i ==> self.log@[k].log_id.index != index,
            decreases self.log.len() - i,
        {
            if self.log[i].log_id.index == index {
                return Some(self.log[i]);
            }
            i += 1;
        }
        None
    }

    /// Removes every log entry at or after `index`; entries below it stay,
    /// in order.
    pub fn delete_logs_since(&mut self, index: u64)
        ensures
            final(self).log@ == old(self).log@.filter(
                |e: LogEntry| e.log_id.index < index,
            ),
            final(self).same_but_log(*old(self)),
            old(self).wf() ==> final(self).wf(),
    {
        self.retain_log(Ghost(|e: LogEntry| e.log_id.index < index), index, true);
    }

    /// Removes every log entry at or below `last.index`: once a snapshot
    /// at `last` is installed those entries are redundant. On failure the
    /// store is unchanged.
    pub fn purge_logs_upto(&mut self, last: LogId) -> (r: Result<(), StorageError>)
        ensures
            r is Err <==> old(self).fail_purge,
            r is Err ==> r == Err::<(), StorageError>(StorageError::Io { verb: ErrorVerb::Purge })
                && *final(self) == *old(self),
            r is Ok ==> final(self).log@ == old(self).log@.filter(
                |e: LogEntry| e.log_id.index > last.index,
            ) && final(self).same_but_log(*old(self)),
            old(self).wf() ==> final(self).wf(),
    {
        if self.fail_purge {
            return Err(StorageError::Io { verb: ErrorVerb::Purge });
        }
        self.retain_log(Ghost(|e: LogEntry| e.log_id.index > last.index), last.index, false);
        Ok(())
    }

    /// Keeps exactly the entries satisfying `pred`: index below `bound`
    /// when `below`, index above `bound` otherwise.
    fn retain_log(&mut self, Ghost(pred): Ghost<spec_fn(LogEntry) -> bool>, bound: u64, below: bool)
        requires
            below ==> pred == (|e: LogEntry| e.log_id.index < bound),
            !below ==> pred == (|e: LogEntry| e.log_id.index > bound),
        ensures
            final(self).log@ == old(self).log@.filter(pred),
            final(self).same_but_log(*old(self)),
            old(self).wf() ==> final(self).wf(),
    {
        let mut kept: Vec<LogEntry> = Vec::new();
        let mut i: usize = 0;
        proof {
            assert(old(self).log@.subrange(0, 0).filter(pred) =~= Seq::<LogEntry>::empty());
        }
        while i < self.log.len()
            invariant
                i <= self.log.len(),
                *self == *old(self),
                below ==> pred == (|e: LogEntry| e.log_id.index < bound),
                !below ==> pred == (|e: LogEntry| e.log_id.index > bound),
                kept@ == old(self).log@.subrange(0, i as int).filter(pred),
            decreases self.log.len() - i,
        {
            let e = self.log[i];
            proof {
                lemma_filter_push(old(self).log@.subrange(0, i as int), pred, e);
                assert(old(self).log@.subrange(0, i + 1) =~= old(self).log@.subrange(
                    0,
                    i as int,
                ).push(e));
            }
            let keep = if below {
                e.log_id.index < bound
            } else {
                e.log_id.index > bound
            };
            if keep {
                kept.push(e);
            }
            i += 1;
        }
        proof {
            assert(old(self).log@.subrange(0, old(self).log@.len() as int) =~= old(self).log@);
        }
        self.log = kept;
        proof {
            if old(self).wf() {
                lemma_filter_keeps_sorted(old(self).log@, pred);
            }
        }
    }

    /// Atomically installs a closed snapshot into the state machine: its
    /// bytes replace the state machine's contents, the applied position
    /// becomes the snapshot's log position, and that position is returned.
    /// On failure the store is unchanged. The log and the stored
    /// membership are not touched here.
    pub fn install_snapshot(&mut self, meta: &SnapshotMeta, data: SnapshotData) -> (r: Result<
        Option<LogId>,
        StorageError,
    >)
        requires
            data.closed,
        ensures
            r is Err <==> old(self).fail_install,
            r is Err ==> r == Err::<Option<LogId>, StorageError>(
                StorageError::Io { verb: ErrorVerb::Install },
            ) && *final(self) == *old(self),
            r is Ok ==> r == Ok::<Option<LogId>, StorageError>(meta.last_log_id)
                && (final(self).snapshot_meta matches Some(m) && m.snapshot_id@
                == meta.snapshot_id@ && m.last_log_id == meta.last_log_id)
                && final(self).snapshot_data@ == data.bytes@
                && final(self).sm_applied == meta.last_log_id && final(self).log == old(self).log
                && final(self).hard_state_term == old(self).hard_state_term
                && final(self).hard_state_voted_for == old(self).hard_state_voted_for
                && final(self).membership == old(self).membership
                && final(self).same_flags(*old(self)),
    {
        if self.fail_install {
            return Err(StorageError::Io { verb: ErrorVerb::Install });
        }
        self.snapshot_meta = Some(meta.duplicate());
        self.snapshot_data = data.bytes;
        self.sm_applied = meta.last_log_id;
        Ok(meta.last_log_id)
    }

    /// Reads the membership configuration currently stored in the state
    /// machine, if any.
    pub fn get_membership(&self) -> (r: Option<Membership>)
        ensures
            r is Some <==> self.membership is Some,
            r matches Some(m) ==> self.membership matches Some(sm) && m.members@ == sm.members@,
    {
        match &self.membership {
            None => None,
            Some(m) => Some(m.duplicate()),
        }
    }
}

/// Filtering a pushed element either appends it to the filtered sequence
/// or leaves the filtered sequence alone, by `pred`.
proof fn lemma_filter_push(s: Seq<LogEntry>, pred: spec_fn(LogEntry) -> bool, x: LogEntry)
    ensures
        s.push(x).filter(pred) == if pred(x) {
            s.filter(pred).push(x)
        } else {
            s.filter(pred)
        },
    decreases s.len(),
{
    reveal(Seq::filter);
    assert(s.push(x).drop_last() =~= s);
    assert(s.push(x).last() == x);
}

/// Keeping a subset of a sorted log keeps it sorted.
proof fn lemma_filter_keeps_sorted(s: Seq<LogEntry>, pred: spec_fn(LogEntry) -> bool)
    requires
        log_sorted(s),
    ensures
        log_sorted(s.filter(pred)),
    decreases s.len(),
{
    reveal(Seq::filter);
    if s.len() > 0 {
        let d = s.drop_last();
        assert(log_sorted(d));
        lemma_filter_keeps_sorted(d, pred);
        let f = s.filter(pred);
        let fd = d.filter(pred);
        if pred(s.last()) {
            assert(f == fd.push(s.last()));
            assert forall|i: int, j: int| 0 <= i < j < f.len() implies f[i].log_id.index
                < f[j].log_id.index by {
                if j < f.len() - 1 {
                    assert(fd[i].log_id.index < fd[j].log_id.index);
                } else {
                    assert(fd.contains(fd[i]));
                    d.lemma_filter_contains_rev(pred, fd[i]);
                    let k = choose|k: int| 0 <= k < d.len() && d[k] == fd[i];
                    assert(s[k].log_id.index < s.last().log_id.index);
                }
            }
        }
    }
}

} // verus!
