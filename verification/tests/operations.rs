//! Compaction, storage status, shutdown and advertisements of a node.

use std::collections::BTreeSet;

use multiraft::lifecycle::ShutdownAction;
use multiraft::lifecycle::ShutdownReport;
use multiraft::lifecycle::ShutdownTurn;
use multiraft::maintenance::completion_observed;
use multiraft::maintenance::refused;
use multiraft::maintenance::Awaiting;
use multiraft::maintenance::Ending;
use multiraft::maintenance::Operation;
use multiraft::runtime::SnapshotRuntime;
use multiraft::CaptureRefusal;
use multiraft::ClusterConfig;
use multiraft::CompactionProgress;
use multiraft::CompactionRejection;
use multiraft::ErrorKind;
use multiraft::MultiRaft;
use multiraft::NativeBuildReservation;
use multiraft::NativeCaptureError;
use multiraft::NativeSnapshotInfo;
use multiraft::ObservedLogId;
use multiraft::SnapshotAdvertisement;
use multiraft::SnapshotMeta;
use multiraft::SnapshotMode;
use multiraft::StorageError;
use multiraft::StoredMembership;
use multiraft::NATIVE_SNAPSHOT_COMPACTION_CONTRACT;

fn empty_meta() -> SnapshotMeta {
    SnapshotMeta {
        last_log_id: None,
        last_membership: StoredMembership::empty(),
        snapshot_id: String::new(),
    }
}

fn at(index: u64) -> Option<ObservedLogId> {
    Some(ObservedLogId::new(1, 1, index))
}

fn info(index: u64) -> NativeSnapshotInfo {
    NativeSnapshotInfo {
        meta: SnapshotMeta {
            last_log_id: at(index),
            snapshot_id: format!("native-{index}"),
            ..empty_meta()
        },
        size: 11,
    }
}

fn io_error() -> StorageError {
    StorageError {
        kind: ErrorKind::Other,
        message: "disk".into(),
    }
}

#[test]
fn absent_native_positions_do_not_prove_an_empty_checkpoint_was_published() {
    assert_eq!(
        completion_observed(None, 1024, None, None, None, None),
        None
    );
    let durable = empty_meta();
    assert_eq!(
        completion_observed(None, 1024, None, None, None, Some(&durable)),
        Some(true)
    );
}

#[test]
fn completion_follows_checkpoint_position_and_purge() {
    let meta = info(20).meta;
    let observed = |native, purged, previous, meta: Option<&SnapshotMeta>| {
        completion_observed(at(20), 5, native, purged, previous, meta)
    };
    assert_eq!(observed(at(20), at(15), None, Some(&meta)), Some(false));
    assert_eq!(observed(at(20), at(15), at(14), Some(&meta)), Some(false));
    assert_eq!(observed(at(20), at(15), at(15), Some(&meta)), Some(true));
    assert_eq!(observed(at(20), at(14), at(15), Some(&meta)), None);
    assert_eq!(observed(at(20), None, None, Some(&meta)), None);
    assert_eq!(observed(at(19), at(15), None, Some(&meta)), None);
    assert_eq!(observed(None, at(15), None, Some(&meta)), None);
    assert_eq!(observed(at(20), at(15), None, Some(&info(19).meta)), None);
    assert_eq!(observed(at(20), at(15), None, None), None);
    // Everything is retained, so there is nothing to purge.
    assert_eq!(
        completion_observed(at(20), 21, at(20), None, None, Some(&meta)),
        Some(true)
    );
    assert_eq!(
        completion_observed(at(20), 20, at(20), None, None, Some(&meta)),
        None
    );
    assert_eq!(
        completion_observed(at(20), 0, at(20), at(20), None, Some(&meta)),
        Some(false)
    );
}

fn node(mode: SnapshotMode, groups: &[u64]) -> MultiRaft {
    let config = ClusterConfig {
        snapshot_mode: mode,
        data_dir: vec!["data".into()],
        snapshot_keep: 2,
        retain_log_entries: 5,
    };
    MultiRaft {
        node_id: 3,
        snapshot_rt: SnapshotRuntime::new(&config, Vec::new()),
        config,
        groups: groups.iter().copied().collect::<BTreeSet<u64>>(),
    }
}

#[test]
fn compaction_runs_from_reservation_to_observed_completion() {
    let mut node = node(SnapshotMode::NativeDurable, &[7, 8]);
    let task = node.request_compaction(7).unwrap();
    assert!(matches!(
        node.request_compaction(7),
        Err(CompactionRejection::Busy)
    ));
    // Another group is not kept out.
    assert!(node.request_compaction(8).is_ok());
    let operation: &mut Operation = node.snapshot_rt.operations.get_mut(&7).unwrap();
    assert_eq!(operation.progress, CompactionProgress::Preparing);
    let reservation = NativeBuildReservation { target: at(20) };
    let triggering = task.reserved(operation, Ok(reservation)).unwrap();
    let awaiting = triggering.triggered(operation, at(3), true).unwrap();
    assert_eq!(awaiting.submission().target, at(20));
    assert_eq!(operation.progress, CompactionProgress::Submitted);
    assert!(matches!(
        node.request_compaction(7),
        Err(CompactionRejection::Busy)
    ));
    let operation = node.snapshot_rt.operations.get_mut(&7).unwrap();
    let awaiting = awaiting.checked(true).unwrap();
    let observing = awaiting.completed(true).unwrap();
    // An earlier checkpoint does not complete it.
    let sampled = observing.sampled(true, at(20), at(15)).unwrap();
    let observing = sampled.described(Ok(Some(info(19)))).unwrap();
    let sampled = observing.sampled(true, at(20), at(14)).unwrap();
    let observing = sampled.described(Ok(Some(info(20)))).unwrap();
    assert_eq!(operation.progress, CompactionProgress::Submitted);
    let sampled = observing.sampled(true, at(20), at(15)).unwrap();
    let ending = sampled.described(Ok(Some(info(20)))).unwrap_err();
    assert!(!ending.releases());
    ending.noted(operation);
    assert_eq!(
        *operation,
        Operation {
            progress: CompactionProgress::CompletedObserved,
            no_purge_needed: false
        }
    );
    // The next one may come.
    assert!(node.request_compaction(7).is_ok());
}

#[test]
fn compaction_is_rejected_with_its_reason() {
    let mut disabled = node(SnapshotMode::Disabled, &[7]);
    assert!(matches!(
        disabled.request_compaction(7),
        Err(CompactionRejection::Disabled)
    ));
    assert!(matches!(
        disabled.request_compaction(8),
        Err(CompactionRejection::UnknownGroup)
    ));
    let mut offload = node(SnapshotMode::StandbyOffload, &[7]);
    assert!(matches!(
        offload.request_compaction(7),
        Err(CompactionRejection::Disabled)
    ));
    assert!(offload.snapshot_rt.operations.is_empty());
    let mut stopping = node(SnapshotMode::NativeDurable, &[7]);
    stopping.snapshot_rt.stopping = true;
    for group in [7, 8] {
        assert!(matches!(
            stopping.request_compaction(group),
            Err(CompactionRejection::ShuttingDown)
        ));
    }
    for (error, rejection) in [
        (
            NativeCaptureError::Refused(CaptureRefusal::Busy),
            CompactionRejection::Busy,
        ),
        (
            NativeCaptureError::Refused(CaptureRefusal::SizeLimit),
            CompactionRejection::SizeLimit,
        ),
        (
            NativeCaptureError::Refused(CaptureRefusal::Unsupported),
            CompactionRejection::UnsupportedCapture,
        ),
        (
            NativeCaptureError::Io(io_error()),
            CompactionRejection::StorageFailure,
        ),
    ] {
        assert_eq!(refused(error), rejection);
    }
    assert_eq!(
        NATIVE_SNAPSHOT_COMPACTION_CONTRACT,
        "native-snapshot-compaction-v1"
    );
}

#[test]
fn compactions_that_fail_say_how() {
    let fresh = || Operation {
        progress: CompactionProgress::Preparing,
        no_purge_needed: false,
    };
    let start = || node(SnapshotMode::NativeDurable, &[7]).request_compaction(7).unwrap();
    let reservation = || NativeBuildReservation { target: None };

    let mut operation = fresh();
    let refusal = NativeCaptureError::Refused(CaptureRefusal::SizeLimit);
    assert_eq!(
        start().reserved(&mut operation, Err(refusal)).unwrap_err(),
        CompactionRejection::SizeLimit
    );
    assert_eq!(operation.progress, CompactionProgress::Idle);

    let mut operation = fresh();
    let triggering = start().reserved(&mut operation, Ok(reservation())).unwrap();
    let (ending, rejection) = triggering.triggered(&mut operation, None, false).unwrap_err();
    assert_eq!(rejection, CompactionRejection::SubmissionFailed);
    assert!(ending.releases());
    assert_eq!(operation.progress, CompactionProgress::Preparing);
    ending.noted(&mut operation);
    assert_eq!(operation.progress, CompactionProgress::Unconfirmed);

    let submitted = |operation: &mut Operation| {
        let triggering = start().reserved(operation, Ok(reservation())).unwrap();
        triggering.triggered(operation, None, true).unwrap()
    };
    // Each end, whether it releases the reservation, and what is noted.
    let ends = |step: &dyn Fn(Awaiting) -> Ending, releases: bool| {
        let mut operation = fresh();
        let ending = step(submitted(&mut operation));
        assert_eq!(ending.releases(), releases);
        assert_eq!(operation.progress, CompactionProgress::Submitted);
        ending.noted(&mut operation);
        operation.progress
    };
    let unconfirmed = CompactionProgress::Unconfirmed;
    assert_eq!(
        ends(&|awaiting| awaiting.completed(false).unwrap_err(), false),
        unconfirmed
    );
    assert_eq!(
        ends(&|awaiting| awaiting.checked(false).unwrap_err(), true),
        unconfirmed
    );
    let stopped = |awaiting: Awaiting| {
        let observing = awaiting.completed(true).unwrap();
        observing.sampled(false, None, None).unwrap_err()
    };
    assert_eq!(ends(&stopped, true), unconfirmed);
    let unreadable = |awaiting: Awaiting| {
        let observing = awaiting.completed(true).unwrap();
        let sampled = observing.sampled(true, None, None).unwrap();
        sampled.described(Err(io_error())).unwrap_err()
    };
    assert_eq!(ends(&unreadable, false), unconfirmed);

    let mut operation = fresh();
    let observing = submitted(&mut operation).completed(true).unwrap();
    let sampled = observing.sampled(true, None, None).unwrap();
    assert!(sampled.described(Ok(None)).is_ok());
    assert_eq!(operation.progress, CompactionProgress::Submitted);
}

#[test]
fn status_puts_together_what_was_read() {
    let mut native = node(SnapshotMode::NativeDurable, &[7]);
    assert!(matches!(
        native.local_storage_status(8),
        Err(CompactionRejection::UnknownGroup)
    ));
    let probe = native.local_storage_status(7).unwrap();
    assert!(probe.wants_durable());
    assert_eq!(
        probe.log_directory(),
        Some(&vec!["data".to_string(), "group-7".to_string()])
    );
    let status = native
        .storage_status(probe, Ok(Some(info(20))), at(20), at(15), Ok(512))
        .unwrap();
    assert_eq!(status.group_id, 7);
    assert_eq!(status.local_node_id, 3);
    assert_eq!(status.mode, SnapshotMode::NativeDurable);
    let durable = status.durable_snapshot.unwrap();
    assert_eq!(durable.last_log_id, at(20));
    assert_eq!(durable.snapshot_id, "native-20");
    assert_eq!(durable.bytes, 11);
    assert_eq!(status.native_snapshot, at(20));
    assert_eq!(status.purged, at(15));
    assert_eq!(status.retained_log_bytes, Some(512));
    assert_eq!(status.progress, CompactionProgress::Idle);
    assert!(!status.no_purge_needed);

    native.snapshot_rt.operations.insert(
        7,
        Operation {
            progress: CompactionProgress::CompletedObserved,
            no_purge_needed: true,
        },
    );
    let probe = native.local_storage_status(7).unwrap();
    let status = native
        .storage_status(probe, Ok(None), None, None, Ok(0))
        .unwrap();
    assert_eq!(status.progress, CompactionProgress::CompletedObserved);
    assert!(status.no_purge_needed && status.durable_snapshot.is_none());
    for (durable, retained) in [(Err(io_error()), Ok(1)), (Ok(None), Err(io_error()))] {
        let probe = native.local_storage_status(7).unwrap();
        assert!(matches!(
            native.storage_status(probe, durable, None, None, retained),
            Err(CompactionRejection::StorageFailure)
        ));
    }

    let mut memory = node(SnapshotMode::Disabled, &[7]);
    memory.config.data_dir.clear();
    let probe = memory.local_storage_status(7).unwrap();
    assert!(!probe.wants_durable() && probe.log_directory().is_none());
    let status = memory
        .storage_status(probe, Err(io_error()), None, None, Err(io_error()))
        .unwrap();
    assert!(status.durable_snapshot.is_none() && status.retained_log_bytes.is_none());
}

#[test]
fn shutdown_closes_stops_joins_and_waits_in_order() {
    let mut node = node(SnapshotMode::NativeDurable, &[9, 7]);
    node.request_compaction(9).unwrap();
    let mut turn = node.shutdown_owned_groups();
    assert!(matches!(
        node.request_compaction(7),
        Err(CompactionRejection::ShuttingDown)
    ));
    let mut actions = Vec::new();
    loop {
        match turn {
            ShutdownTurn::Act { state, action } => {
                actions.push(action);
                assert_eq!(node.groups.len(), 2);
                turn = state.step(&mut node, ShutdownReport::Done);
            }
            ShutdownTurn::Over(result) => {
                assert!(result.is_ok());
                break;
            }
        }
    }
    assert_eq!(
        actions,
        vec![
            ShutdownAction::CloseIntake(7),
            ShutdownAction::CloseIntake(9),
            ShutdownAction::StopRaft(7),
            ShutdownAction::StopRaft(9),
            ShutdownAction::JoinOperation(9),
            ShutdownAction::AwaitQuiescence(7),
            ShutdownAction::AwaitQuiescence(9),
            ShutdownAction::AcquireBudget,
        ]
    );
    assert!(node.groups.is_empty());
    // A node without groups still waits for its budget.
    let turn = node.shutdown_owned_groups();
    assert!(matches!(
        turn,
        ShutdownTurn::Act {
            action: ShutdownAction::JoinOperation(9),
            ..
        }
    ));
}

#[test]
fn first_failure_ends_a_shutdown() {
    let mut node = node(SnapshotMode::NativeDurable, &[7]);
    let turn = match node.shutdown_owned_groups() {
        ShutdownTurn::Act { state, .. } => state.step(&mut node, ShutdownReport::Done),
        ShutdownTurn::Over(_) => panic!("two actions"),
    };
    match turn {
        ShutdownTurn::Act { state, action } => {
            assert_eq!(action, ShutdownAction::StopRaft(7));
            let report = ShutdownReport::RaftFailed("core is gone".into());
            match state.step(&mut node, report) {
                ShutdownTurn::Over(Err(error)) => {
                    assert_eq!(error.to_string(), "shutdown group 7: core is gone");
                }
                other => panic!("expected a failure, got {other:?}"),
            }
        }
        other => panic!("expected an action, got {other:?}"),
    }
    assert_eq!(node.groups.len(), 1);

    node.groups.clear();
    match node.shutdown_owned_groups() {
        ShutdownTurn::Act { state, action } => {
            assert_eq!(action, ShutdownAction::AcquireBudget);
            let lost = ShutdownReport::Lost(anyhow::Error::msg("budget closed"));
            match state.step(&mut node, lost) {
                ShutdownTurn::Over(Err(error)) => assert_eq!(error.to_string(), "budget closed"),
                other => panic!("expected a failure, got {other:?}"),
            }
        }
        other => panic!("expected an action, got {other:?}"),
    }
}

fn ad(group: u64, id: &str, size: u64) -> SnapshotAdvertisement {
    SnapshotAdvertisement {
        group,
        last_index: 1,
        last_term: 1,
        snapshot_id: id.into(),
        size,
        sha256_hex: String::new(),
        fetch_url: String::new(),
    }
}

#[test]
fn advertisements_replace_their_own_snapshot() {
    let config = ClusterConfig {
        snapshot_mode: SnapshotMode::StandbyOffload,
        data_dir: vec!["data".into()],
        snapshot_keep: 4,
        retain_log_entries: 0,
    };
    let mut runtime = SnapshotRuntime::new(&config, vec![ad(1, "a", 1), ad(1, "b", 2)]);
    runtime.record_ad(ad(2, "a", 3));
    runtime.record_ad(ad(1, "a", 4));
    assert_eq!(runtime.ads, vec![ad(1, "b", 2), ad(2, "a", 3), ad(1, "a", 4)]);
    assert_eq!(
        runtime.ads_path(),
        Some(vec!["data".to_string(), "snapshot_ads.json".to_string()])
    );
    let catalog = runtime.catalog.unwrap();
    assert_eq!(catalog.root, vec!["data", "snapshots"]);
    assert_eq!(catalog.keep, 4);
    assert_eq!(
        catalog.native_root(12),
        vec!["data", "snapshots", "12", "native-v1"]
    );
}

#[test]
fn only_nodes_that_keep_snapshots_on_disk_have_a_catalog() {
    for (mode, dir, expected) in [
        (SnapshotMode::Disabled, true, false),
        (SnapshotMode::StandbyOffload, true, true),
        (SnapshotMode::NativeDurable, true, true),
        (SnapshotMode::NativeDurable, false, false),
    ] {
        let config = ClusterConfig {
            snapshot_mode: mode,
            data_dir: if dir { vec!["data".into()] } else { vec![] },
            snapshot_keep: 1,
            retain_log_entries: 0,
        };
        let runtime = SnapshotRuntime::new(&config, Vec::new());
        assert_eq!(runtime.catalog.is_some(), expected);
        assert_eq!(runtime.ads_path().is_some(), dir);
    }
}
