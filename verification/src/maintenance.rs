//! Disposable per-group submission and observation of compaction.

use crate::bridge::NativeBuildReservation;
use crate::bridge::NativeCaptureError;
use crate::files;
use crate::files::PathView;
use crate::fsm::CaptureRefusal;
use crate::log_id;
use crate::log_id::ObservedLogId;
use crate::runtime::ClusterConfig;
use crate::runtime::SnapshotMode;
use crate::runtime::SnapshotRuntime;
use crate::snapshot::NativeSnapshotInfo;
use crate::snapshot::SnapshotMeta;
use crate::storage::StorageError;
use crate::text;
use crate::GroupId;
use crate::NodeId;
use std::collections::BTreeSet;
use vstd::prelude::*;

verus! {

/// The name of the compaction contract that this library keeps.
pub const NATIVE_SNAPSHOT_COMPACTION_CONTRACT: &'static str = "native-snapshot-compaction-v1";

/// Why a compaction request was not submitted.
#[derive(Debug, Clone, Copy, PartialEq, Eq, Structural)]
pub enum CompactionRejection {
    UnknownGroup,
    Disabled,
    Busy,
    SizeLimit,
    UnsupportedCapture,
    StorageFailure,
    SubmissionFailed,
    ShuttingDown,
}

/// How far the last compaction of a group came.
#[derive(Debug, Clone, Copy, PartialEq, Eq, Structural)]
pub enum CompactionProgress {
    Idle,
    Preparing,
    Submitted,
    CompletedObserved,
    Unconfirmed,
}

/// A submitted compaction, with the entry up to which it compacts.
#[derive(Debug, Clone, PartialEq, Eq, Structural)]
pub struct CompactionSubmission {
    pub target: Option<ObservedLogId>,
}

/// What is durable of a group.
#[derive(Debug, Clone)]
pub struct DurableSnapshotObservation {
    pub last_log_id: Option<ObservedLogId>,
    pub snapshot_id: String,
    pub bytes: u64,
}

/// Sampled storage facts of a group; no claim of health or causality.
#[derive(Debug, Clone)]
pub struct LocalStorageStatus {
    pub group_id: GroupId,
    pub local_node_id: NodeId,
    pub mode: SnapshotMode,
    pub durable_snapshot: Option<DurableSnapshotObservation>,
    pub native_snapshot: Option<ObservedLogId>,
    pub purged: Option<ObservedLogId>,
    pub retained_log_bytes: Option<u64>,
    pub progress: CompactionProgress,
    pub no_purge_needed: bool,
}

/// The last compaction of a group.
#[derive(Debug, Clone, Copy, PartialEq, Eq, Structural)]
pub struct Operation {
    pub progress: CompactionProgress,
    pub no_purge_needed: bool,
}

/// A node as far as compaction goes.
#[derive(Debug)]
pub struct MultiRaft {
    pub node_id: NodeId,
    pub config: ClusterConfig,
    /// The groups that the node hosts.
    pub groups: BTreeSet<GroupId>,
    pub snapshot_rt: SnapshotRuntime,
}

/// The rejection that a failed reservation comes to.
pub open spec fn rejection_of(error: NativeCaptureError) -> CompactionRejection {
    match error {
        NativeCaptureError::Refused(CaptureRefusal::Busy) => CompactionRejection::Busy,
        NativeCaptureError::Refused(CaptureRefusal::SizeLimit) => CompactionRejection::SizeLimit,
        NativeCaptureError::Refused(CaptureRefusal::Unsupported) => {
            CompactionRejection::UnsupportedCapture
        },
        NativeCaptureError::Io(_) => CompactionRejection::StorageFailure,
    }
}

/// The rejection that a failed reservation comes to.
pub fn refused(error: NativeCaptureError) -> (rejection: CompactionRejection)
    ensures
        rejection == rejection_of(error),
{
    match error {
        NativeCaptureError::Refused(CaptureRefusal::Busy) => CompactionRejection::Busy,
        NativeCaptureError::Refused(CaptureRefusal::SizeLimit) => CompactionRejection::SizeLimit,
        NativeCaptureError::Refused(CaptureRefusal::Unsupported) => {
            CompactionRejection::UnsupportedCapture
        },
        NativeCaptureError::Io(_) => CompactionRejection::StorageFailure,
    }
}

/// The index up to which the log may be purged once `target` is in a checkpoint; none where
/// everything is retained.
pub open spec fn purge_target(target: Option<ObservedLogId>, retain: u64) -> Option<int> {
    match target {
        Some(id) => if id.index >= retain {
            Some(id.index - retain)
        } else {
            None
        },
        None => None,
    }
}

/// Whether the log has been purged up to `index`.
pub open spec fn purged_to(purged: Option<ObservedLogId>, index: int) -> bool {
    purged matches Some(id) && id.index >= index
}

/// Whether a compaction is complete as far as can be observed, and then whether no purge was needed
/// for it. A durable checkpoint and the Raft core's own position both have to have reached the
/// target, and the log has to have been purged as far as it may be.
pub open spec fn completion(
    target: Option<ObservedLogId>,
    retain: u64,
    native_snapshot: Option<ObservedLogId>,
    purged: Option<ObservedLogId>,
    previous_purged: Option<ObservedLogId>,
    durable: Option<Option<ObservedLogId>>,
) -> Option<bool> {
    match durable {
        None => None,
        Some(durable) => if log_id::before(durable, target) || log_id::before(
            native_snapshot,
            target,
        ) {
            None
        } else {
            match purge_target(target, retain) {
                None => Some(true),
                Some(index) => if purged_to(purged, index) {
                    Some(purged_to(previous_purged, index))
                } else {
                    None
                },
            }
        },
    }
}

/// The cut of a checkpoint, where there is one.
pub open spec fn cut_of(durable: Option<&SnapshotMeta>) -> Option<Option<ObservedLogId>> {
    match durable {
        Some(meta) => Some(meta.last_log_id),
        None => None,
    }
}

/// Judges whether a compaction is complete. Positions of the Raft core alone, absent ones above
/// all, are no proof that a durable checkpoint exists.
pub fn completion_observed(
    target: Option<ObservedLogId>,
    retain: u64,
    native_snapshot: Option<ObservedLogId>,
    purged: Option<ObservedLogId>,
    previous_purged: Option<ObservedLogId>,
    durable_snapshot: Option<&SnapshotMeta>,
) -> (observed: Option<bool>)
    ensures
        observed == completion(
            target,
            retain,
            native_snapshot,
            purged,
            previous_purged,
            cut_of(durable_snapshot),
        ),
{
    let durable = match durable_snapshot {
        Some(meta) => meta,
        None => {
            return None;
        },
    };
    if log_id::is_before(durable.last_log_id, target) || log_id::is_before(
        native_snapshot,
        target,
    ) {
        return None;
    }
    let index: u64 = match target {
        Some(id) => match id.index.checked_sub(retain) {
            Some(index) => index,
            None => {
                return Some(true);
            },
        },
        None => {
            return Some(true);
        },
    };
    let done = match purged {
        Some(id) => id.index >= index,
        None => false,
    };
    if !done {
        return None;
    }
    let earlier = match previous_purged {
        Some(id) => id.index >= index,
        None => false,
    };
    Some(earlier)
}

impl SnapshotRuntime {
    /// The last operation of `group`; idle where there was none.
    pub open spec fn operation_of(self, group: GroupId) -> Operation {
        if self.operations@.contains_key(group) {
            self.operations@[group]
        } else {
            Operation { progress: CompactionProgress::Idle, no_purge_needed: false }
        }
    }
}

impl MultiRaft {
    /// Why a compaction of `group` is rejected at once, if it is: the node stops, does not host the
    /// group, keeps no durable checkpoints, or is at it already.
    pub open spec fn rejection(self, group: GroupId) -> Option<CompactionRejection> {
        let progress = self.snapshot_rt.operation_of(group).progress;
        if self.snapshot_rt.stopping {
            Some(CompactionRejection::ShuttingDown)
        } else if !self.groups@.contains(group) {
            Some(CompactionRejection::UnknownGroup)
        } else if !(self.config.snapshot_mode is NativeDurable) {
            Some(CompactionRejection::Disabled)
        } else if progress is Preparing || progress is Submitted {
            Some(CompactionRejection::Busy)
        } else {
            None
        }
    }

    /// Nothing but the operations differs from `other`.
    pub open spec fn same_but_operations(self, other: MultiRaft) -> bool {
        &&& self.node_id == other.node_id
        &&& self.config == other.config
        &&& self.groups == other.groups
        &&& self.snapshot_rt.stopping == other.snapshot_rt.stopping
        &&& self.snapshot_rt.catalog == other.snapshot_rt.catalog
        &&& self.snapshot_rt.ads == other.snapshot_rt.ads
        &&& self.snapshot_rt.data_dir == other.snapshot_rt.data_dir
    }

    /// Admits one compaction of `group`, whose task then goes on by itself: a caller who leaves does
    /// not cancel it.
    pub fn request_compaction(&mut self, group: GroupId) -> (task: Result<
        Reserving,
        CompactionRejection,
    >)
        ensures
            final(self).same_but_operations(*old(self)),
            match old(self).rejection(group) {
                Some(rejection) => {
                    &&& task matches Err(r) && r == rejection
                    &&& final(self).snapshot_rt.operations@ == old(self).snapshot_rt.operations@
                },
                None => {
                    &&& task matches Ok(task) && task.group() == group && task.retain()
                        == old(self).config.retain_log_entries
                    &&& final(self).snapshot_rt.operations@
                        == old(self).snapshot_rt.operations@.insert(
                        group,
                        Operation {
                            progress: CompactionProgress::Preparing,
                            no_purge_needed: false,
                        },
                    )
                },
            },
    {
        if self.snapshot_rt.stopping {
            return Err(CompactionRejection::ShuttingDown);
        }
        if !self.groups.contains(&group) {
            return Err(CompactionRejection::UnknownGroup);
        }
        match self.config.snapshot_mode {
            SnapshotMode::NativeDurable => {},
            _ => {
                return Err(CompactionRejection::Disabled);
            },
        }
        if let Some(operation) = self.snapshot_rt.operations.get(&group) {
            match operation.progress {
                CompactionProgress::Preparing | CompactionProgress::Submitted => {
                    return Err(CompactionRejection::Busy);
                },
                _ => {},
            }
        }
        self.snapshot_rt.operations.insert(
            group,
            Operation { progress: CompactionProgress::Preparing, no_purge_needed: false },
        );
        Ok(Reserving { group, retain: self.config.retain_log_entries })
    }
}

/// A compaction whose cut is to be reserved.
#[derive(Debug)]
pub struct Reserving {
    group: GroupId,
    retain: u64,
}

/// A compaction whose cut is reserved; the Raft core is to be triggered.
#[derive(Debug)]
pub struct Triggering {
    target: Option<ObservedLogId>,
    retain: u64,
}

/// A submitted compaction whose build is awaited.
#[derive(Debug)]
pub struct Awaiting {
    target: Option<ObservedLogId>,
    retain: u64,
    previous_purged: Option<ObservedLogId>,
}

/// A built compaction whose completion is observed.
#[derive(Debug)]
pub struct Observing {
    target: Option<ObservedLogId>,
    retain: u64,
    previous_purged: Option<ObservedLogId>,
}

/// An observation of the Raft core; the catalog's comes next.
#[derive(Debug)]
pub struct Sampled {
    observing: Observing,
    snapshot: Option<ObservedLogId>,
    purged: Option<ObservedLogId>,
}

/// A compaction that is over, as soon as that is noted.
#[derive(Debug)]
pub struct Ending {
    release: bool,
    completed: Option<bool>,
}

impl Ending {
    /// The reservation is to be released first.
    pub closed spec fn release(self) -> bool {
        self.release
    }

    /// Whether no purge was needed, for a compaction that is complete; one that is not is
    /// unconfirmed.
    pub closed spec fn completed(self) -> Option<bool> {
        self.completed
    }

    /// Whether the reservation is to be released. That comes before the end is noted, since another
    /// compaction may be admitted and reserve its own cut from then on.
    pub fn releases(&self) -> (release: bool)
        ensures
            release == self.release(),
    {
        self.release
    }

    /// Notes the end.
    pub fn noted(self, operation: &mut Operation)
        ensures
            *final(operation) == (match self.completed() {
                Some(no_purge_needed) => Operation {
                    progress: CompactionProgress::CompletedObserved,
                    no_purge_needed,
                },
                None => Operation {
                    progress: CompactionProgress::Unconfirmed,
                    ..*old(operation)
                },
            }),
    {
        match self.completed {
            Some(no_purge_needed) => {
                *operation = Operation {
                    progress: CompactionProgress::CompletedObserved,
                    no_purge_needed,
                };
            },
            None => {
                operation.progress = CompactionProgress::Unconfirmed;
            },
        }
    }
}

/// `ending` is that of a compaction of which nobody can tell any more how it went.
pub open spec fn is_unconfirmed(ending: Ending, release: bool) -> bool {
    ending.release() == release && ending.completed() is None
}

impl Reserving {
    /// The group.
    pub closed spec fn group(self) -> GroupId {
        self.group
    }

    /// How many entries are retained.
    pub closed spec fn retain(self) -> u64 {
        self.retain
    }

    /// Takes the reservation. A failed one is the answer to the caller, and the group is idle again.
    pub fn reserved(
        self,
        operation: &mut Operation,
        reserved: Result<NativeBuildReservation, NativeCaptureError>,
    ) -> (next: Result<Triggering, CompactionRejection>)
        ensures
            match reserved {
                Ok(reservation) => {
                    &&& next matches Ok(next) && next.target() == reservation.target
                        && next.retain() == self.retain()
                    &&& *final(operation) == *old(operation)
                },
                Err(error) => {
                    &&& next matches Err(rejection) && rejection == rejection_of(error)
                    &&& *final(operation) == (Operation {
                        progress: CompactionProgress::Idle,
                        ..*old(operation)
                    })
                },
            },
    {
        match reserved {
            Ok(reservation) => Ok(Triggering { target: reservation.target, retain: self.retain }),
            Err(error) => {
                operation.progress = CompactionProgress::Idle;
                Err(refused(error))
            },
        }
    }
}

impl Triggering {
    /// The entry up to which is compacted.
    pub closed spec fn target(self) -> Option<ObservedLogId> {
        self.target
    }

    /// How many entries are retained.
    pub closed spec fn retain(self) -> u64 {
        self.retain
    }

    /// Takes whether the trigger could be sent, and how far the log was purged before. Where it
    /// could not, the reservation is to be released, and the rejection is the answer to the caller.
    pub fn triggered(
        self,
        operation: &mut Operation,
        previous_purged: Option<ObservedLogId>,
        sent: bool,
    ) -> (next: Result<Awaiting, (Ending, CompactionRejection)>)
        ensures
            if sent {
                &&& next matches Ok(next) && next.target() == self.target() && next.retain()
                    == self.retain() && next.previous_purged() == previous_purged
                &&& *final(operation) == (Operation {
                    progress: CompactionProgress::Submitted,
                    ..*old(operation)
                })
            } else {
                &&& next matches Err((ending, rejection)) && is_unconfirmed(ending, true)
                    && rejection == CompactionRejection::SubmissionFailed
                &&& *final(operation) == *old(operation)
            },
    {
        if !sent {
            return Err(
                (Ending { release: true, completed: None }, CompactionRejection::SubmissionFailed),
            );
        }
        operation.progress = CompactionProgress::Submitted;
        Ok(Awaiting { target: self.target, retain: self.retain, previous_purged })
    }
}

impl Awaiting {
    /// The entry up to which is compacted.
    pub closed spec fn target(self) -> Option<ObservedLogId> {
        self.target
    }

    /// How many entries are retained.
    pub closed spec fn retain(self) -> u64 {
        self.retain
    }

    /// How far the log was purged before.
    pub closed spec fn previous_purged(self) -> Option<ObservedLogId> {
        self.previous_purged
    }

    /// The answer to the caller.
    pub fn submission(&self) -> (submission: CompactionSubmission)
        ensures
            submission.target == self.target(),
    {
        CompactionSubmission { target: self.target }
    }

    /// Takes the end of the build. Where nobody can tell any more how it went, the compaction is
    /// unconfirmed; the builder has taken the reservation.
    pub fn completed(self, told: bool) -> (next: Result<Observing, Ending>)
        ensures
            if told {
                next matches Ok(next) && next.target() == self.target() && next.retain()
                    == self.retain() && next.previous_purged() == self.previous_purged()
            } else {
                next matches Err(ending) && is_unconfirmed(ending, false)
            },
    {
        if !told {
            return Err(Ending { release: false, completed: None });
        }
        Ok(
            Observing {
                target: self.target,
                retain: self.retain,
                previous_purged: self.previous_purged,
            },
        )
    }

    /// Takes whether the Raft core still runs. Where it does not, the reservation is to be released,
    /// and the compaction is unconfirmed.
    pub fn checked(self, running: bool) -> (next: Result<Awaiting, Ending>)
        ensures
            if running {
                next == Ok::<Awaiting, Ending>(self)
            } else {
                next matches Err(ending) && is_unconfirmed(ending, true)
            },
    {
        if !running {
            return Err(Ending { release: true, completed: None });
        }
        Ok(self)
    }
}

impl Observing {
    /// The entry up to which is compacted.
    pub closed spec fn target(self) -> Option<ObservedLogId> {
        self.target
    }

    /// How many entries are retained.
    pub closed spec fn retain(self) -> u64 {
        self.retain
    }

    /// How far the log was purged before.
    pub closed spec fn previous_purged(self) -> Option<ObservedLogId> {
        self.previous_purged
    }

    /// Takes the metrics of the Raft core. Where it no longer runs, the reservation is to be
    /// released, and the compaction is unconfirmed.
    pub fn sampled(
        self,
        running: bool,
        snapshot: Option<ObservedLogId>,
        purged: Option<ObservedLogId>,
    ) -> (next: Result<Sampled, Ending>)
        ensures
            if running {
                next matches Ok(next) && next.observing() == self && next.positions() == (
                    snapshot,
                    purged,
                )
            } else {
                next matches Err(ending) && is_unconfirmed(ending, true)
            },
    {
        if !running {
            return Err(Ending { release: true, completed: None });
        }
        Ok(Sampled { observing: self, snapshot, purged })
    }
}

impl Sampled {
    /// The observed compaction.
    pub closed spec fn observing(self) -> Observing {
        self.observing
    }

    /// The Raft core's snapshot and purge positions.
    pub closed spec fn positions(self) -> (Option<ObservedLogId>, Option<ObservedLogId>) {
        (self.snapshot, self.purged)
    }

    /// Takes the catalog's view. The compaction is over where it is complete, or where the catalog
    /// cannot be read; else it is to be observed again.
    pub fn described(self, durable: Result<Option<NativeSnapshotInfo>, StorageError>) -> (next: Result<
        Observing,
        Ending,
    >)
        ensures
            match durable {
                Err(_) => next matches Err(ending) && is_unconfirmed(ending, false),
                Ok(info) => match completion(
                    self.observing().target(),
                    self.observing().retain(),
                    self.positions().0,
                    self.positions().1,
                    self.observing().previous_purged(),
                    match info {
                        Some(info) => Some(info.meta.last_log_id),
                        None => None,
                    },
                ) {
                    Some(no_purge_needed) => next matches Err(ending) && !ending.release()
                        && ending.completed() == Some(no_purge_needed),
                    None => next == Ok::<Observing, Ending>(self.observing()),
                },
            },
    {
        let info = match durable {
            Ok(info) => info,
            Err(_) => {
                return Err(Ending { release: false, completed: None });
            },
        };
        let meta = match &info {
            Some(info) => Some(&info.meta),
            None => None,
        };
        match completion_observed(
            self.observing.target,
            self.observing.retain,
            self.snapshot,
            self.purged,
            self.observing.previous_purged,
            meta,
        ) {
            Some(no_purge_needed) => Err(
                Ending { release: false, completed: Some(no_purge_needed) },
            ),
            None => Ok(self.observing),
        }
    }
}

/// What has to be read for the status of a group.
#[derive(Debug)]
pub struct StatusProbe {
    group: GroupId,
    /// The catalog has to be asked.
    durable: bool,
    /// The directory whose log has to be measured.
    log_dir: Option<Vec<String>>,
}

/// The directory that holds the log of `group`.
pub open spec fn log_path(data_dir: PathView, group: GroupId) -> PathView {
    data_dir.push("group-"@ + text::decimal(group as nat))
}

impl StatusProbe {
    /// The group.
    pub closed spec fn group(self) -> GroupId {
        self.group
    }

    /// Whether the catalog has to be asked.
    pub closed spec fn durable(self) -> bool {
        self.durable
    }

    /// The directory whose log has to be measured, if there is one.
    pub closed spec fn log_dir(self) -> Option<PathView> {
        match self.log_dir {
            Some(path) => Some(files::path_view(path@)),
            None => None,
        }
    }

    /// Whether the catalog has to be asked.
    pub fn wants_durable(&self) -> (wanted: bool)
        ensures
            wanted == self.durable(),
    {
        self.durable
    }

    /// The directory whose log has to be measured, if there is one.
    pub fn log_directory(&self) -> (path: Option<&Vec<String>>)
        ensures
            match path {
                Some(path) => self.log_dir() == Some(files::path_view(path@)),
                None => self.log_dir() is None,
            },
    {
        match &self.log_dir {
            Some(path) => Some(path),
            None => None,
        }
    }
}

/// The answers that a probe asks for could be had.
pub open spec fn is_readable(
    probe: StatusProbe,
    durable: Result<Option<NativeSnapshotInfo>, StorageError>,
    retained: Result<u64, StorageError>,
) -> bool {
    &&& probe.durable() ==> durable is Ok
    &&& probe.log_dir() is Some ==> retained is Ok
}

/// The observation of what is durable.
pub open spec fn is_observation(
    observation: Option<DurableSnapshotObservation>,
    info: Option<NativeSnapshotInfo>,
) -> bool {
    match info {
        None => observation is None,
        Some(info) => observation matches Some(o) && o.last_log_id == info.meta.last_log_id
            && o.snapshot_id@ == info.meta.snapshot_id@ && o.bytes == info.size,
    }
}

impl MultiRaft {
    /// Says what has to be read for the status of `group`.
    pub fn local_storage_status(&self, group: GroupId) -> (probe: Result<
        StatusProbe,
        CompactionRejection,
    >)
        ensures
            if self.groups@.contains(group) {
                &&& probe matches Ok(probe) && probe.group() == group && probe.durable() == (
                self.config.snapshot_mode is NativeDurable) && probe.log_dir() == (
                if self.config.data_dir@.len() > 0 {
                    Some(log_path(files::path_view(self.config.data_dir@), group))
                } else {
                    None
                })
            } else {
                probe matches Err(rejection) && rejection == CompactionRejection::UnknownGroup
            },
    {
        if !self.groups.contains(&group) {
            return Err(CompactionRejection::UnknownGroup);
        }
        let durable = match self.config.snapshot_mode {
            SnapshotMode::NativeDurable => true,
            _ => false,
        };
        let log_dir = if self.config.data_dir.len() == 0 {
            None
        } else {
            let mut name = "group-".to_owned();
            text::append_u64(&mut name, group);
            Some(files::child(&self.config.data_dir, name.as_str()))
        };
        Ok(StatusProbe { group, durable, log_dir })
    }

    /// Puts the status together from what was read: the catalog's view, the Raft core's positions
    /// and the size of the log. What the probe does not ask for is not used.
    pub fn storage_status(
        &self,
        probe: StatusProbe,
        durable: Result<Option<NativeSnapshotInfo>, StorageError>,
        snapshot: Option<ObservedLogId>,
        purged: Option<ObservedLogId>,
        retained: Result<u64, StorageError>,
    ) -> (status: Result<LocalStorageStatus, CompactionRejection>)
        ensures
            status is Ok <==> is_readable(probe, durable, retained),
            match status {
                Err(rejection) => rejection == CompactionRejection::StorageFailure,
                Ok(status) => {
                    let operation = self.snapshot_rt.operation_of(probe.group());
                    &&& status.group_id == probe.group()
                    &&& status.local_node_id == self.node_id
                    &&& status.mode == self.config.snapshot_mode
                    &&& is_observation(
                        status.durable_snapshot,
                        if probe.durable() {
                            durable->Ok_0
                        } else {
                            None
                        },
                    )
                    &&& status.native_snapshot == snapshot
                    &&& status.purged == purged
                    &&& status.retained_log_bytes == if probe.log_dir() is Some {
                        Some(retained->Ok_0)
                    } else {
                        None
                    }
                    &&& status.progress == operation.progress
                    &&& status.no_purge_needed == operation.no_purge_needed
                },
            },
    {
        let durable_snapshot = if probe.durable {
            match durable {
                Err(_) => {
                    return Err(CompactionRejection::StorageFailure);
                },
                Ok(None) => None,
                Ok(Some(info)) => Some(
                    DurableSnapshotObservation {
                        last_log_id: info.meta.last_log_id,
                        snapshot_id: info.meta.snapshot_id,
                        bytes: info.size,
                    },
                ),
            }
        } else {
            None
        };
        let retained_log_bytes = match &probe.log_dir {
            None => None,
            Some(_) => match retained {
                Err(_) => {
                    return Err(CompactionRejection::StorageFailure);
                },
                Ok(bytes) => Some(bytes),
            },
        };
        let operation = match self.snapshot_rt.operations.get(&probe.group) {
            Some(operation) => *operation,
            None => Operation { progress: CompactionProgress::Idle, no_purge_needed: false },
        };
        Ok(
            LocalStorageStatus {
                group_id: probe.group,
                local_node_id: self.node_id,
                mode: self.config.snapshot_mode,
                durable_snapshot,
                native_snapshot: snapshot,
                purged,
                retained_log_bytes,
                progress: operation.progress,
                no_purge_needed: operation.no_purge_needed,
            },
        )
    }
}

/// Without a durable checkpoint nothing counts as complete, whatever the Raft core's positions are;
/// and what counts as complete has a durable checkpoint and a position that reach the target.
pub proof fn law_completion_needs_a_durable_checkpoint(
    target: Option<ObservedLogId>,
    retain: u64,
    native_snapshot: Option<ObservedLogId>,
    purged: Option<ObservedLogId>,
    previous_purged: Option<ObservedLogId>,
    durable: Option<Option<ObservedLogId>>,
)
    ensures
        completion(target, retain, native_snapshot, purged, previous_purged, durable) is Some ==> {
            &&& durable matches Some(cut) && !log_id::before(cut, target)
            &&& !log_id::before(native_snapshot, target)
            &&& purge_target(target, retain) matches Some(index) ==> purged_to(purged, index)
        },
{
}

/// An admitted compaction keeps every other one of its group out until it is over.
pub proof fn law_one_compaction_at_a_time(before: MultiRaft, after: MultiRaft, group: GroupId)
    requires
        before.rejection(group) is None,
        after.same_but_operations(before),
        after.snapshot_rt.operation_of(group).progress is Preparing
            || after.snapshot_rt.operation_of(group).progress is Submitted,
    ensures
        after.rejection(group) == Some(CompactionRejection::Busy),
{
}

/// On a node that does not stop, hosts the group and keeps durable checkpoints, a compaction is
/// admitted exactly where the last one of the group is neither being prepared nor submitted. What
/// else keeps one out is told in this order: the node stops, the group is not hosted, checkpoints
/// are not kept.
pub proof fn law_compactions_are_admitted_one_at_a_time(
    node: &mut MultiRaft,
    group: GroupId,
    other: GroupId,
    task: Result<Reserving, CompactionRejection>,
)
    requires
        call_ensures(MultiRaft::request_compaction, (node, group), task),
        other != group,
    ensures
        ({
            let before = *old(node);
            let at_work = before.snapshot_rt.operations@.contains_key(group) && (
            before.snapshot_rt.operations@[group].progress is Preparing
                || before.snapshot_rt.operations@[group].progress is Submitted);
            let stops = before.snapshot_rt.stopping;
            let hosts = before.groups@.contains(group);
            let keeps = before.config.snapshot_mode is NativeDurable;
            &&& task is Ok <==> !stops && hosts && keeps && !at_work
            &&& stops ==> task == Err::<Reserving, _>(CompactionRejection::ShuttingDown)
            &&& !stops && !hosts ==> task == Err::<Reserving, _>(CompactionRejection::UnknownGroup)
            &&& !stops && hosts && !keeps ==> task == Err::<Reserving, _>(
                CompactionRejection::Disabled,
            )
            &&& !stops && hosts && keeps && at_work ==> task == Err::<Reserving, _>(
                CompactionRejection::Busy,
            )
        }),
        task is Err ==> final(node).snapshot_rt.operations@ == old(node).snapshot_rt.operations@,
        task is Ok ==> {
            &&& task->Ok_0.group() == group
            &&& task->Ok_0.retain() == old(node).config.retain_log_entries
            &&& final(node).snapshot_rt.operations@.contains_key(group)
            &&& final(node).snapshot_rt.operations@[group].progress is Preparing
            &&& !final(node).snapshot_rt.operations@[group].no_purge_needed
        },
        final(node).snapshot_rt.operations@.contains_key(other)
            <==> old(node).snapshot_rt.operations@.contains_key(other),
        old(node).snapshot_rt.operations@.contains_key(other)
            ==> final(node).snapshot_rt.operations@[other]
            == old(node).snapshot_rt.operations@[other],
        final(node).groups@ == old(node).groups@,
        final(node).node_id == old(node).node_id,
        final(node).config == old(node).config,
        final(node).snapshot_rt.stopping == old(node).snapshot_rt.stopping,
        final(node).snapshot_rt.ads == old(node).snapshot_rt.ads,
        final(node).snapshot_rt.catalog == old(node).snapshot_rt.catalog,
        final(node).snapshot_rt.data_dir == old(node).snapshot_rt.data_dir,
{
}

/// However a compaction ends, the next one of its group is admitted: after its end was noted,
/// complete or unconfirmed.
pub proof fn law_an_ended_compaction_lets_the_next_one_in(
    ending: Ending,
    operation: &mut Operation,
    node: &mut MultiRaft,
    group: GroupId,
    task: Result<Reserving, CompactionRejection>,
)
    requires
        call_ensures(Ending::noted, (ending, operation), ()),
        call_ensures(MultiRaft::request_compaction, (node, group), task),
        !old(node).snapshot_rt.stopping,
        old(node).groups@.contains(group),
        old(node).config.snapshot_mode is NativeDurable,
        old(node).snapshot_rt.operations@.contains_key(group),
        old(node).snapshot_rt.operations@[group] == *final(operation),
    ensures
        task is Ok,
        final(operation).progress is CompletedObserved <==> ending.completed() is Some,
        final(operation).progress is Unconfirmed <==> ending.completed() is None,
        ending.completed() is Some ==> final(operation).no_purge_needed == ending.completed()->0,
        ending.completed() is None ==> final(operation).no_purge_needed
            == old(operation).no_purge_needed,
{
}

/// A refused reservation is the answer to the caller, who may ask again at once: the next
/// compaction of the group is admitted.
pub proof fn law_a_refused_reservation_lets_the_next_one_in(
    reserving: Reserving,
    operation: &mut Operation,
    reserved: Result<NativeBuildReservation, NativeCaptureError>,
    next: Result<Triggering, CompactionRejection>,
    node: &mut MultiRaft,
    group: GroupId,
    task: Result<Reserving, CompactionRejection>,
)
    requires
        call_ensures(Reserving::reserved, (reserving, operation, reserved), next),
        call_ensures(MultiRaft::request_compaction, (node, group), task),
        !old(node).snapshot_rt.stopping,
        old(node).groups@.contains(group),
        old(node).config.snapshot_mode is NativeDurable,
        old(node).snapshot_rt.operations@.contains_key(group),
        old(node).snapshot_rt.operations@[group] == *final(operation),
        reserved is Err,
    ensures
        task is Ok,
        next is Err,
        final(operation).progress is Idle,
        final(operation).no_purge_needed == old(operation).no_purge_needed,
        reserved->Err_0 is Io ==> next->Err_0 is StorageFailure,
        reserved->Err_0 == NativeCaptureError::Refused(CaptureRefusal::Busy) ==> next->Err_0 is Busy,
        reserved->Err_0 == NativeCaptureError::Refused(CaptureRefusal::SizeLimit)
            ==> next->Err_0 is SizeLimit,
        reserved->Err_0 == NativeCaptureError::Refused(CaptureRefusal::Unsupported)
            ==> next->Err_0 is UnsupportedCapture,
{
}

/// A compaction keeps its target, how much it retains and how far the log was purged before from
/// its reservation to its observation, answers with that target once it is submitted, and releases
/// its reservation exactly where no builder can have taken it: a trigger that was not sent, or a
/// Raft core that no longer runs.
pub proof fn law_compactions_keep_their_target(
    reserving: Reserving,
    operation: &mut Operation,
    reservation: NativeBuildReservation,
    triggering: Triggering,
    submitted: &mut Operation,
    previous_purged: Option<ObservedLogId>,
    sent: bool,
    next: Result<Awaiting, (Ending, CompactionRejection)>,
    told: bool,
    observing: Result<Observing, Ending>,
    answer: CompactionSubmission,
)
    requires
        call_ensures(
            Reserving::reserved,
            (reserving, operation, Ok(reservation)),
            Ok::<Triggering, CompactionRejection>(triggering),
        ),
        call_ensures(
            Triggering::triggered,
            (triggering, submitted, previous_purged, sent),
            next,
        ),
        next is Ok ==> call_ensures(Awaiting::completed, (next->Ok_0, told), observing),
        next is Ok ==> call_ensures(Awaiting::submission, (&next->Ok_0,), answer),
    ensures
        *final(operation) == *old(operation),
        next is Ok <==> sent,
        !sent ==> {
            &&& next->Err_0.0.release() && next->Err_0.0.completed() is None
            &&& next->Err_0.1 is SubmissionFailed
            &&& *final(submitted) == *old(submitted)
        },
        sent ==> {
            &&& final(submitted).progress is Submitted
            &&& final(submitted).no_purge_needed == old(submitted).no_purge_needed
            &&& answer.target == reservation.target
            &&& observing is Ok <==> told
        },
        sent && told ==> {
            &&& observing->Ok_0.target() == reservation.target
            &&& observing->Ok_0.retain() == reserving.retain()
            &&& observing->Ok_0.previous_purged() == previous_purged
        },
        sent && !told ==> !observing->Err_0.release() && observing->Err_0.completed() is None,
{
}

/// A Raft core that no longer runs ends a compaction unconfirmed, with its reservation released;
/// one that runs lets it go on as it was.
pub proof fn law_a_stopped_raft_core_ends_a_compaction(
    awaiting: Awaiting,
    observing: Observing,
    running: bool,
    snapshot: Option<ObservedLogId>,
    purged: Option<ObservedLogId>,
    waited: Result<Awaiting, Ending>,
    sampled: Result<Sampled, Ending>,
)
    requires
        call_ensures(Awaiting::checked, (awaiting, running), waited),
        call_ensures(Observing::sampled, (observing, running, snapshot, purged), sampled),
    ensures
        waited is Ok <==> running,
        sampled is Ok <==> running,
        running ==> waited->Ok_0 == awaiting,
        running ==> sampled->Ok_0.observing() == observing && sampled->Ok_0.positions() == (
            snapshot,
            purged,
        ),
        !running ==> waited->Err_0.release() && waited->Err_0.completed() is None,
        !running ==> sampled->Err_0.release() && sampled->Err_0.completed() is None,
{
}

/// A compaction is complete exactly where a durable checkpoint exists that does not stand before
/// its target, the Raft core's own snapshot does not either, and the log is purged up to the target
/// less what is retained, if that leaves anything to purge. No purge was needed exactly where there
/// was nothing to purge, or the log had been purged that far before.
pub proof fn law_compactions_complete_at_their_target(
    target: Option<ObservedLogId>,
    retain: u64,
    native_snapshot: Option<ObservedLogId>,
    purged: Option<ObservedLogId>,
    previous_purged: Option<ObservedLogId>,
    durable: Option<&SnapshotMeta>,
    observed: Option<bool>,
)
    requires
        call_ensures(
            completion_observed,
            (target, retain, native_snapshot, purged, previous_purged, durable),
            observed,
        ),
    ensures
        ({
            let purges = target is Some && target->0.index >= retain;
            let goal = target->0.index - retain;
            &&& observed is Some <==> {
                &&& durable is Some
                &&& !log_id::before(durable->0.last_log_id, target)
                &&& !log_id::before(native_snapshot, target)
                &&& purges ==> purged is Some && purged->0.index >= goal
            }
            &&& observed is Some ==> (observed->0 <==> (!purges || (previous_purged is Some
                && previous_purged->0.index >= goal)))
        }),
{
}

/// What the catalog and the Raft core show ends an observed compaction exactly where it is
/// complete, or where the catalog cannot be read; that releases nothing, and anything else is
/// observed again.
pub proof fn law_observation_ends_where_it_is_complete(
    sampled: Sampled,
    info: Result<Option<NativeSnapshotInfo>, StorageError>,
    next: Result<Observing, Ending>,
    observed: Option<bool>,
)
    requires
        call_ensures(Sampled::described, (sampled, info), next),
        info is Ok ==> call_ensures(
            completion_observed,
            (
                sampled.observing().target(),
                sampled.observing().retain(),
                sampled.positions().0,
                sampled.positions().1,
                sampled.observing().previous_purged(),
                match info->Ok_0 {
                    Some(i) => Some(&i.meta),
                    None => None,
                },
            ),
            observed,
        ),
    ensures
        next is Ok <==> info is Ok && observed is None,
        next is Ok ==> next->Ok_0 == sampled.observing(),
        next is Err ==> !next->Err_0.release(),
        next is Err && info is Ok ==> next->Err_0.completed() == observed,
        info is Err ==> next->Err_0.completed() is None,
{
}

/// The status of a hosted group says what was read and nothing else: the catalog's checkpoint where
/// checkpoints are kept, the size of the log where the node has a data directory, and the progress
/// of the last compaction.
pub proof fn law_status_reports_what_was_read(
    node: MultiRaft,
    group: GroupId,
    probe: Result<StatusProbe, CompactionRejection>,
    durable: Result<Option<NativeSnapshotInfo>, StorageError>,
    snapshot: Option<ObservedLogId>,
    purged: Option<ObservedLogId>,
    retained: Result<u64, StorageError>,
    status: Result<LocalStorageStatus, CompactionRejection>,
)
    requires
        call_ensures(MultiRaft::local_storage_status, (&node, group), probe),
        probe is Ok ==> call_ensures(
            MultiRaft::storage_status,
            (&node, probe->Ok_0, durable, snapshot, purged, retained),
            status,
        ),
    ensures
        probe is Ok <==> node.groups@.contains(group),
        probe is Err ==> probe->Err_0 is UnknownGroup,
        probe is Ok ==> {
            let keeps = node.config.snapshot_mode is NativeDurable;
            let on_disk = node.config.data_dir@.len() > 0;
            &&& status is Ok <==> (keeps ==> durable is Ok) && (on_disk ==> retained is Ok)
            &&& status is Err ==> status->Err_0 is StorageFailure
            &&& status is Ok ==> {
                let s = status->Ok_0;
                &&& s.group_id == group && s.local_node_id == node.node_id
                &&& s.mode == node.config.snapshot_mode
                &&& s.durable_snapshot is Some <==> keeps && durable->Ok_0 is Some
                &&& s.durable_snapshot matches Some(o) ==> {
                    &&& o.last_log_id == durable->Ok_0->0.meta.last_log_id
                    &&& o.snapshot_id@ == durable->Ok_0->0.meta.snapshot_id@
                    &&& o.bytes == durable->Ok_0->0.size
                }
                &&& s.native_snapshot == snapshot && s.purged == purged
                &&& s.retained_log_bytes is Some <==> on_disk
                &&& on_disk ==> s.retained_log_bytes->0 == retained->Ok_0
                &&& node.snapshot_rt.operations@.contains_key(group) ==> s.progress
                    == node.snapshot_rt.operations@[group].progress && s.no_purge_needed
                    == node.snapshot_rt.operations@[group].no_purge_needed
                &&& !node.snapshot_rt.operations@.contains_key(group) ==> s.progress is Idle
                    && !s.no_purge_needed
            }
        },
{
}

/// The log that is measured for a group is its own: it stands in the data directory, under a name
/// that no other group has.
pub proof fn law_logs_are_told_apart(
    node: MultiRaft,
    group: GroupId,
    other: GroupId,
    first: Result<StatusProbe, CompactionRejection>,
    second: Result<StatusProbe, CompactionRejection>,
)
    requires
        call_ensures(MultiRaft::local_storage_status, (&node, group), first),
        call_ensures(MultiRaft::local_storage_status, (&node, other), second),
        first is Ok && second is Ok,
        node.config.data_dir@.len() > 0,
        group != other,
    ensures
        first->Ok_0.log_dir() is Some && second->Ok_0.log_dir() is Some,
        first->Ok_0.log_dir()->0 != second->Ok_0.log_dir()->0,
        first->Ok_0.log_dir()->0.drop_last() == files::path_view(node.config.data_dir@),
        first->Ok_0.log_dir()->0.last() == "group-"@ + text::decimal(group as nat),
{
    let root = files::path_view(node.config.data_dir@);
    let a = first->Ok_0.log_dir()->0;
    let b = second->Ok_0.log_dir()->0;
    assert(a.drop_last() =~= root);
    if a == b {
        assert(a.last() == b.last());
        let n = "group-"@.len() as int;
        assert(("group-"@ + text::decimal(group as nat)).skip(n) =~= text::decimal(group as nat));
        assert(("group-"@ + text::decimal(other as nat)).skip(n) =~= text::decimal(other as nat));
        text::lemma_decimal_is_injective(group as nat, other as nat);
    }
}

/// Endings and probes say what they hold: whether a reservation is to be released, whether the
/// catalog has to be asked, and which directory has to be measured.
pub proof fn law_endings_and_probes_say_what_they_hold(
    ending: Ending,
    release: bool,
    probe: StatusProbe,
    wanted: bool,
    path: Option<&Vec<String>>,
    error: NativeCaptureError,
    rejection: CompactionRejection,
)
    requires
        call_ensures(Ending::releases, (&ending,), release),
        call_ensures(StatusProbe::wants_durable, (&probe,), wanted),
        call_ensures(StatusProbe::log_directory, (&probe,), path),
        call_ensures(refused, (error,), rejection),
    ensures
        release == ending.release(),
        wanted == probe.durable(),
        path is Some <==> probe.log_dir() is Some,
        path is Some ==> files::path_view(path->0@) == probe.log_dir()->0,
        rejection is Busy <==> error == NativeCaptureError::Refused(CaptureRefusal::Busy),
        rejection is SizeLimit <==> error == NativeCaptureError::Refused(CaptureRefusal::SizeLimit),
        rejection is UnsupportedCapture <==> error == NativeCaptureError::Refused(
            CaptureRefusal::Unsupported,
        ),
        rejection is StorageFailure <==> error is Io,
{
}

} // verus!
