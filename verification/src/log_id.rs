//! Log positions: `(term, index)` pairs and their ordering.
//!
//! A `LogId` identifies one position in a Raft log. Log ids are ordered
//! lexicographically, term first; an absent log id (`Option::None`) sorts
//! below every present one, standing for the empty log.

use vstd::prelude::*;

verus! {

/// A log position: the election term the entry was proposed in, and its
/// index within the log.
#[derive(Clone, Copy, PartialEq, Eq, Structural, Debug)]
pub struct LogId {
    pub term: u64,
    pub index: u64,
}

/// `a <= b` in the lexicographic order on (term, index).
pub open spec fn log_id_le(a: LogId, b: LogId) -> bool {
    a.term < b.term || (a.term == b.term && a.index <= b.index)
}

/// `a <= b` on optional log ids: `None` sorts below every `Some`.
pub open spec fn opt_log_id_le(a: Option<LogId>, b: Option<LogId>) -> bool {
    match a {
        None => true,
        Some(x) => match b {
            None => false,
            Some(y) => log_id_le(x, y),
        },
    }
}

/// The larger of two optional log ids.
pub open spec fn opt_log_id_max(a: Option<LogId>, b: Option<LogId>) -> Option<LogId> {
    if opt_log_id_le(a, b) {
        b
    } else {
        a
    }
}

/// The index of the log entry immediately after position `a`: 0 for the
/// empty log, `index + 1` otherwise.
pub open spec fn next_index_of(a: Option<LogId>) -> int {
    match a {
        None => 0,
        Some(x) => x.index + 1,
    }
}

/// Decides `a <= b` in the lexicographic order on (term, index).
pub fn log_id_is_le(a: &LogId, b: &LogId) -> (r: bool)
    ensures
        r == log_id_le(*a, *b),
{
    a.term < b.term || (a.term == b.term && a.index <= b.index)
}

/// Decides `a <= b` on optional log ids.
pub fn opt_log_id_is_le(a: &Option<LogId>, b: &Option<LogId>) -> (r: bool)
    ensures
        r == opt_log_id_le(*a, *b),
{
    match a {
        None => true,
        Some(x) => match b {
            None => false,
            Some(y) => log_id_is_le(x, y),
        },
    }
}

/// The ordering on optional log ids is transitive. With each handled
/// request moving the applied position forward, this is what makes the
/// position non-decreasing across any sequence of requests.
pub proof fn lemma_opt_log_id_le_trans(a: Option<LogId>, b: Option<LogId>, c: Option<LogId>)
    requires
        opt_log_id_le(a, b),
        opt_log_id_le(b, c),
    ensures
        opt_log_id_le(a, c),
{
}

} // verus!
