use raft_snapshot::error::{ErrorVerb, InstallSnapshotError, StorageError};
use raft_snapshot::log_id::LogId;
use raft_snapshot::message::{InstallSnapshotRequest, SnapshotMeta};
use raft_snapshot::node::{BuildHandle, NodeRole, RaftCore, SnapshotState};
use raft_snapshot::storage::{Membership, SnapshotData, Storage};

fn base_storage() -> Storage {
    Storage {
        log: vec![],
        hard_state_term: 3,
        hard_state_voted_for: None,
        snapshot_meta: None,
        snapshot_data: vec![],
        sm_applied: None,
        membership: Some(Membership { members: vec![1, 2] }),
        fail_open: false,
        sink_fail_write: false,
        sink_fail_seek: false,
        sink_fail_close: false,
        fail_install: false,
        fail_purge: false,
    }
}

fn base_core() -> RaftCore {
    RaftCore {
        current_term: 3,
        voted_for: None,
        current_leader: Some(7),
        target_state: NodeRole::Follower,
        last_log_id: None,
        committed: None,
        last_applied: None,
        snapshot_last_log_id: None,
        membership: None,
        snapshot_state: None,
        storage: base_storage(),
        election_timer_resets: 0,
        metrics_reports: 0,
        purge_failures: 0,
    }
}

fn streaming_core(id: &str, offset: usize, bytes: Vec<u8>) -> RaftCore {
    let mut core = base_core();
    core.snapshot_state = Some(SnapshotState::Streaming {
        offset,
        id: id.to_string(),
        snapshot: SnapshotData {
            bytes,
            pos: offset,
            closed: false,
            fail_write: false,
            fail_seek: false,
            fail_close: false,
        },
    });
    core
}

fn req(id: &str, offset: usize, data: Vec<u8>, done: bool) -> InstallSnapshotRequest {
    InstallSnapshotRequest {
        term: 3,
        leader_id: 7,
        meta: SnapshotMeta {
            snapshot_id: id.to_string(),
            last_log_id: Some(LogId { term: 3, index: 10 }),
        },
        offset,
        data,
        done,
    }
}

fn stream_of(core: &RaftCore) -> (&usize, &String, &SnapshotData) {
    match &core.snapshot_state {
        Some(SnapshotState::Streaming { offset, id, snapshot }) => (offset, id, snapshot),
        _ => panic!("expected a streaming state"),
    }
}

#[test]
fn earlier_offset_reseeks_and_overwrites() {
    let mut core = streaming_core("s1", 3, vec![1, 2, 3]);
    core.handle_install_snapshot_request(req("s1", 1, vec![8, 9], false))
        .unwrap();
    let (offset, id, sink) = stream_of(&core);
    assert_eq!(*offset, 3);
    assert_eq!(id, "s1");
    assert_eq!(sink.bytes, vec![1, 8, 9]);
    assert_eq!(sink.pos, 3);
}

#[test]
fn matching_offset_appends() {
    let mut core = streaming_core("s1", 3, vec![1, 2, 3]);
    core.handle_install_snapshot_request(req("s1", 3, vec![4, 5], false))
        .unwrap();
    let (offset, _, sink) = stream_of(&core);
    assert_eq!(*offset, 5);
    assert_eq!(sink.bytes, vec![1, 2, 3, 4, 5]);
}

#[test]
fn offset_past_end_leaves_a_zero_gap() {
    let mut core = streaming_core("s1", 2, vec![1, 2]);
    core.handle_install_snapshot_request(req("s1", 5, vec![9], false))
        .unwrap();
    let (offset, _, sink) = stream_of(&core);
    assert_eq!(*offset, 6);
    assert_eq!(sink.bytes, vec![1, 2, 0, 0, 0, 9]);
}

#[test]
fn foreign_chunk_at_nonzero_offset_is_rejected() {
    let mut core = streaming_core("s1", 3, vec![1, 2, 3]);
    let err = core
        .handle_install_snapshot_request(req("s2", 5, vec![9], false))
        .unwrap_err();
    match &err {
        InstallSnapshotError::Mismatch(m) => {
            assert_eq!(m.expect.id, "s1");
            assert_eq!(m.expect.offset, 3);
            assert_eq!(m.got.id, "s2");
            assert_eq!(m.got.offset, 5);
        }
        _ => panic!("expected a mismatch"),
    }
    assert!(!err.is_fatal());
    // the open stream is untouched
    let (offset, id, sink) = stream_of(&core);
    assert_eq!(*offset, 3);
    assert_eq!(id, "s1");
    assert_eq!(sink.bytes, vec![1, 2, 3]);
}

#[test]
fn new_stream_at_offset_zero_supersedes() {
    let mut core = streaming_core("s1", 3, vec![1, 2, 3]);
    core.handle_install_snapshot_request(req("s2", 0, vec![7], false))
        .unwrap();
    let (offset, id, sink) = stream_of(&core);
    assert_eq!(*offset, 1);
    assert_eq!(id, "s2");
    assert_eq!(sink.bytes, vec![7]);
}

#[test]
fn build_in_progress_is_cancelled_for_the_leader() {
    let mut core = base_core();
    core.snapshot_state = Some(SnapshotState::Snapshotting {
        handle: BuildHandle { aborted: false },
    });
    core.handle_install_snapshot_request(req("s1", 0, vec![1], false))
        .unwrap();
    let (_, id, _) = stream_of(&core);
    assert_eq!(id, "s1");
}

#[test]
fn fresh_stream_must_start_at_offset_zero() {
    let mut core = base_core();
    let err = core
        .handle_install_snapshot_request(req("s1", 4, vec![1], false))
        .unwrap_err();
    match &err {
        InstallSnapshotError::Mismatch(m) => {
            assert_eq!(m.expect.id, "s1");
            assert_eq!(m.expect.offset, 0);
            assert_eq!(m.got.id, "s1");
            assert_eq!(m.got.offset, 4);
        }
        _ => panic!("expected a mismatch"),
    }
}

#[test]
fn failed_open_is_a_recoverable_storage_error() {
    let mut core = base_core();
    core.storage.fail_open = true;
    let err = core
        .handle_install_snapshot_request(req("s1", 0, vec![1], false))
        .unwrap_err();
    assert!(matches!(
        err,
        InstallSnapshotError::Storage(StorageError::Io { verb: ErrorVerb::Open })
    ));
    assert!(!err.is_fatal());
    assert!(core.snapshot_state.is_none());
}

#[test]
fn failed_seek_preserves_the_stream() {
    let mut core = streaming_core("s1", 3, vec![1, 2, 3]);
    match &mut core.snapshot_state {
        Some(SnapshotState::Streaming { snapshot, .. }) => snapshot.fail_seek = true,
        _ => unreachable!(),
    }
    let err = core
        .handle_install_snapshot_request(req("s1", 0, vec![9], false))
        .unwrap_err();
    assert!(matches!(
        err,
        InstallSnapshotError::Storage(StorageError::Io { verb: ErrorVerb::Seek })
    ));
    assert!(!err.is_fatal());
    let (offset, id, sink) = stream_of(&core);
    assert_eq!(*offset, 3);
    assert_eq!(id, "s1");
    assert_eq!(sink.bytes, vec![1, 2, 3]);
}

#[test]
fn failed_write_preserves_the_stream_with_the_seek_done() {
    let mut core = streaming_core("s1", 3, vec![1, 2, 3]);
    match &mut core.snapshot_state {
        Some(SnapshotState::Streaming { snapshot, .. }) => snapshot.fail_write = true,
        _ => unreachable!(),
    }
    let err = core
        .handle_install_snapshot_request(req("s1", 1, vec![9], false))
        .unwrap_err();
    assert!(matches!(
        err,
        InstallSnapshotError::Storage(StorageError::Io { verb: ErrorVerb::Write })
    ));
    let (offset, _, sink) = stream_of(&core);
    // the seek went through before the write failed
    assert_eq!(*offset, 1);
    assert_eq!(sink.pos, 1);
    assert_eq!(sink.bytes, vec![1, 2, 3]);
}

#[test]
fn failed_close_at_finalization_is_fatal() {
    let mut core = base_core();
    core.storage.sink_fail_close = true;
    let err = core
        .handle_install_snapshot_request(req("s1", 0, vec![1], true))
        .unwrap_err();
    assert!(matches!(
        err,
        InstallSnapshotError::Storage(StorageError::Io { verb: ErrorVerb::Close })
    ));
    assert!(err.is_fatal());
    assert_eq!(core.last_applied, None);
}

#[test]
fn failed_install_is_fatal() {
    let mut core = base_core();
    core.storage.fail_install = true;
    let err = core
        .handle_install_snapshot_request(req("s1", 0, vec![1], true))
        .unwrap_err();
    assert!(matches!(
        err,
        InstallSnapshotError::Storage(StorageError::Io { verb: ErrorVerb::Install })
    ));
    assert!(err.is_fatal());
    assert_eq!(core.last_applied, None);
    assert!(core.storage.snapshot_meta.is_none());
}

#[test]
fn missing_membership_after_install_is_fatal() {
    let mut core = base_core();
    core.storage.membership = None;
    let err = core
        .handle_install_snapshot_request(req("s1", 0, vec![1], true))
        .unwrap_err();
    assert!(matches!(
        err,
        InstallSnapshotError::Storage(StorageError::MembershipMissing)
    ));
    assert!(err.is_fatal());
    // the install itself went through before the integrity check
    assert_eq!(core.last_applied, Some(LogId { term: 3, index: 10 }));
}

#[test]
fn failed_purge_is_reported_but_not_escalated() {
    let mut core = base_core();
    core.storage.fail_purge = true;
    let r = core
        .handle_install_snapshot_request(req("s1", 0, vec![1], true))
        .unwrap();
    assert_eq!(r.last_applied, Some(LogId { term: 3, index: 10 }));
    assert_eq!(core.purge_failures, 1);
}

#[test]
fn membership_is_refreshed_from_the_store() {
    let mut core = base_core();
    core.storage.membership = Some(Membership { members: vec![4, 5, 6] });
    core.handle_install_snapshot_request(req("s1", 0, vec![1], true))
        .unwrap();
    match &core.membership {
        Some(m) => assert_eq!(m.members, vec![4, 5, 6]),
        None => panic!("membership must be present after an install"),
    }
}

#[test]
fn each_chunk_resets_the_election_timer() {
    let mut core = streaming_core("s1", 0, vec![]);
    core.handle_install_snapshot_request(req("s1", 0, vec![1], false))
        .unwrap();
    core.handle_install_snapshot_request(req("s1", 1, vec![2], false))
        .unwrap();
    assert_eq!(core.election_timer_resets, 2);
}
