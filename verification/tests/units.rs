use raft_snapshot::log_id::{log_id_is_le, opt_log_id_is_le, LogId};
use raft_snapshot::message::{InstallSnapshotRequest, SnapshotMeta};
use raft_snapshot::node::{NodeRole, RaftCore, SnapshotState};
use raft_snapshot::storage::{LogEntry, Membership, SnapshotData, Storage};

fn lid(term: u64, index: u64) -> LogId {
    LogId { term, index }
}

fn idle_core() -> RaftCore {
    RaftCore {
        current_term: 1,
        voted_for: None,
        current_leader: None,
        target_state: NodeRole::Learner,
        last_log_id: None,
        committed: None,
        last_applied: None,
        snapshot_last_log_id: None,
        membership: None,
        snapshot_state: None,
        storage: Storage {
            log: vec![],
            hard_state_term: 1,
            hard_state_voted_for: None,
            snapshot_meta: None,
            snapshot_data: vec![],
            sm_applied: None,
            membership: Some(Membership { members: vec![1] }),
            fail_open: false,
            sink_fail_write: false,
            sink_fail_seek: false,
            sink_fail_close: false,
            fail_install: false,
            fail_purge: false,
        },
        election_timer_resets: 0,
        metrics_reports: 0,
        purge_failures: 0,
    }
}

#[test]
fn log_ids_order_term_first() {
    assert!(log_id_is_le(&lid(2, 9), &lid(3, 1)));
    assert!(!log_id_is_le(&lid(3, 1), &lid(2, 9)));
    assert!(log_id_is_le(&lid(3, 1), &lid(3, 1)));
    assert!(log_id_is_le(&lid(3, 1), &lid(3, 2)));
    assert!(!log_id_is_le(&lid(3, 2), &lid(3, 1)));
}

#[test]
fn absent_log_id_sorts_lowest() {
    assert!(opt_log_id_is_le(&None, &None));
    assert!(opt_log_id_is_le(&None, &Some(lid(1, 0))));
    assert!(!opt_log_id_is_le(&Some(lid(1, 0)), &None));
    assert!(opt_log_id_is_le(&Some(lid(1, 0)), &Some(lid(1, 1))));
}

#[test]
fn advance_last_applied_takes_the_maximum() {
    let mut core = idle_core();
    core.advance_last_applied(Some(lid(2, 5)));
    assert_eq!(core.last_applied, Some(lid(2, 5)));
    // a smaller in-flight proposal never rolls it back
    core.advance_last_applied(Some(lid(1, 9)));
    assert_eq!(core.last_applied, Some(lid(2, 5)));
    core.advance_last_applied(None);
    assert_eq!(core.last_applied, Some(lid(2, 5)));
    core.advance_last_applied(Some(lid(2, 6)));
    assert_eq!(core.last_applied, Some(lid(2, 6)));
}

#[test]
fn delete_conflict_logs_since_trims_the_suffix() {
    let mut core = idle_core();
    core.storage.log = vec![
        LogEntry { log_id: lid(1, 3) },
        LogEntry { log_id: lid(1, 4) },
        LogEntry { log_id: lid(2, 7) },
    ];
    core.delete_conflict_logs_since(4);
    assert_eq!(core.storage.log, vec![LogEntry { log_id: lid(1, 3) }]);
}

#[test]
fn sink_write_overwrites_and_extends() {
    let mut sink = SnapshotData {
        bytes: vec![1, 2, 3],
        pos: 2,
        closed: false,
        fail_write: false,
        fail_seek: false,
        fail_close: false,
    };
    sink.write_all(&vec![8, 9]).unwrap();
    assert_eq!(sink.bytes, vec![1, 2, 8, 9]);
    assert_eq!(sink.pos, 4);
}

#[test]
fn first_chunk_write_failure_leaves_the_node_idle() {
    let mut core = idle_core();
    core.storage.sink_fail_write = true;
    let req = InstallSnapshotRequest {
        term: 1,
        leader_id: 4,
        meta: SnapshotMeta {
            snapshot_id: "s9".to_string(),
            last_log_id: Some(lid(1, 2)),
        },
        offset: 0,
        data: vec![1],
        done: false,
    };
    let err = core.handle_install_snapshot_request(req).unwrap_err();
    assert!(!err.is_fatal());
    assert!(core.snapshot_state.is_none());
    assert_eq!(core.last_applied, None);
}

#[test]
fn learner_keeps_its_role() {
    let mut core = idle_core();
    let req = InstallSnapshotRequest {
        term: 1,
        leader_id: 4,
        meta: SnapshotMeta {
            snapshot_id: "s9".to_string(),
            last_log_id: Some(lid(1, 2)),
        },
        offset: 0,
        data: vec![1],
        done: false,
    };
    core.handle_install_snapshot_request(req).unwrap();
    assert!(matches!(core.target_state, NodeRole::Learner));
    assert!(matches!(
        core.snapshot_state,
        Some(SnapshotState::Streaming { .. })
    ));
}
