//! Receiver side of Raft snapshot installation.
//!
//! A follower (or learner) accepts a snapshot from the leader as a stream of
//! byte chunks, reconciles its local log with the snapshot's log position,
//! and installs the snapshot into its state machine without ever violating
//! the Raft safety invariants: the applied position never moves backwards,
//! and `last_applied <= committed <= last_log_id` holds at every observable
//! boundary.
//!
//! The durable log and state-machine store is an in-memory model
//! ([`storage::Storage`]) whose methods carry the interface semantics the
//! protocol relies on, including injectable failures for every fallible
//! operation, so that the error paths of the protocol are exercised as well.

pub mod error;
pub mod log_id;
pub mod message;
pub mod node;
pub mod storage;
