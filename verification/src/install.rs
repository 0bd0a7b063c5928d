//! Installing a snapshot that another node sent: staged first, then restored, then activated.
//!
//! Each step hands back the next one, so nothing is restored before it is staged, and nothing is
//! reported as installed before it is active.

use crate::bridge;
use crate::bridge::Capture;
use crate::bridge::CaptureFailure;
use crate::bridge::StateMachineStore;
use crate::files::Turn;
use crate::files::World;
use crate::fsm::CaptureError;
use crate::fsm::StateMachine;
use crate::log_id;
use crate::snapshot::NativeSnapshotView;
use crate::snapshot::SnapshotMeta;
use crate::snapshot::SnapshotMetaView;
use crate::staging;
use crate::staging::NativeSnapshotStage;
use crate::staging::NativeStaging;
use crate::staging::StageJob;
use crate::staging::StageView;
use crate::storage;
use crate::storage::ErrorKind;
use crate::storage::StorageError;
use crate::storage::StorageErrorView;
use vstd::prelude::*;

verus! {

/// An install that is small enough; the transition lock comes next.
pub struct InstallRequest {
    meta: SnapshotMeta,
    data: Vec<u8>,
}

/// An install that is admitted; staging comes next.
pub struct InstallAdmitted {
    meta: SnapshotMeta,
    data: Vec<u8>,
}

/// A staged install; restoring the application comes next.
pub struct InstallStaged {
    meta: SnapshotMeta,
    data: Vec<u8>,
    stage: NativeSnapshotStage,
}

/// An install whose application is restored; activation comes next.
pub struct InstallRestored {
    meta: SnapshotMeta,
}

/// An active install; the store takes over its cut last.
pub struct InstallActivated {
    meta: SnapshotMeta,
}

/// Why an install failed, an application error as it came.
#[derive(Debug)]
pub enum InstallFailure<E> {
    Storage(StorageError),
    Application(E),
}

/// The failure of an install that would take the application back.
pub open spec fn would_regress() -> StorageErrorView {
    storage::invalid_data("snapshot install would regress applied state"@)
}

impl InstallRequest {
    /// What is installed.
    pub closed spec fn snapshot(self) -> NativeSnapshotView {
        NativeSnapshotView { meta: self.meta@, data: self.data@ }
    }

    /// Goes on with the transition lock held; `closing` says whether the owner takes no more work.
    pub fn admitted(self, closing: bool) -> (next: Result<InstallAdmitted, StorageError>)
        ensures
            match next {
                Ok(next) => !closing && next.snapshot() == self.snapshot(),
                Err(error) => closing && error@ == bridge::owner_closed(),
            },
    {
        if closing {
            return Err(storage::fail(ErrorKind::BrokenPipe, "native snapshot owner closed"));
        }
        Ok(InstallAdmitted { meta: self.meta, data: self.data })
    }
}

impl InstallAdmitted {
    /// What is installed.
    pub closed spec fn snapshot(self) -> NativeSnapshotView {
        NativeSnapshotView { meta: self.meta@, data: self.data@ }
    }

    /// Starts to stage the snapshot in the catalog of `store`.
    pub fn stage<S: StateMachine, P, C>(
        &self,
        store: &StateMachineStore<S, P, C>,
        process: u64,
        sequence: u64,
    ) -> (turn: Option<Turn<NativeStaging, Result<NativeSnapshotStage, StorageError>>>)
        ensures
            turn is Some <==> store.native is Some,
            turn matches Some(turn) ==> {
                let options = store.native->0.options;
                let job = StageJob {
                    root: options.catalog.root_path(),
                    group: store.group_id,
                    meta: self.snapshot().meta,
                    data: self.snapshot().data,
                    max_bytes: options.max_snapshot_bytes,
                    stage_name: staging::stage_name(process, sequence),
                };
                &&& NativeStaging::proceeds(turn, 8)
                &&& forall|w: World| #[trigger] NativeStaging::turned(turn, w) == job.staged(w)
                &&& forall|w: World| #[trigger] NativeStaging::asked(turn, w) == job.stage_asks(w)
            },
    {
        match &store.native {
            None => None,
            Some(native) => {
                let data = self.data.clone();
                assert(data@ =~= self.data@);
                Some(
                    native.options.catalog.stage_native(
                        store.group_id,
                        &self.meta,
                        data,
                        native.options.max_snapshot_bytes,
                        process,
                        sequence,
                    ),
                )
            },
        }
    }

    /// Takes what staging came to.
    pub fn staged(self, staged: Result<NativeSnapshotStage, StorageError>) -> (next: Result<
        InstallStaged,
        StorageError,
    >)
        ensures
            match staged {
                Ok(stage) => next matches Ok(next) && next.snapshot() == self.snapshot()
                    && next.candidate() == stage@,
                Err(failure) => next matches Err(error) && error@ == failure@,
            },
    {
        match staged {
            Ok(stage) => Ok(InstallStaged { meta: self.meta, data: self.data, stage }),
            Err(error) => Err(error),
        }
    }
}

impl InstallStaged {
    /// What is installed.
    pub closed spec fn snapshot(self) -> NativeSnapshotView {
        NativeSnapshotView { meta: self.meta@, data: self.data@ }
    }

    /// The staged candidate.
    pub closed spec fn candidate(self) -> StageView {
        self.stage@
    }
}

impl InstallRestored {
    /// The metadata of what is installed.
    pub closed spec fn meta(self) -> SnapshotMetaView {
        self.meta@
    }

    /// Takes what activation came to.
    pub fn activated(self, activated: Result<(), StorageError>) -> (next: Result<
        InstallActivated,
        StorageError,
    >)
        ensures
            match activated {
                Ok(()) => next matches Ok(next) && next.meta() == self.meta(),
                Err(failure) => next matches Err(error) && error@ == failure@,
            },
    {
        match activated {
            Ok(()) => Ok(InstallActivated { meta: self.meta }),
            Err(error) => Err(error),
        }
    }
}

impl InstallActivated {
    /// The metadata of what is installed.
    pub closed spec fn meta(self) -> SnapshotMetaView {
        self.meta@
    }
}

impl<S: StateMachine, P, C> StateMachineStore<S, P, C> {
    /// Starts to install a snapshot, unless it is larger than the byte limit.
    pub fn install_native_snapshot(&self, meta: &SnapshotMeta, data: Vec<u8>) -> (request: Result<
        InstallRequest,
        StorageError,
    >)
        ensures
            request is Ok <==> data@.len() <= self.byte_limit(),
            match request {
                Ok(request) => request.snapshot() == (NativeSnapshotView {
                    meta: meta@,
                    data: data@,
                }),
                Err(error) => error@ == storage::invalid_data("snapshot install limit"@),
            },
    {
        if data.len() > self.snapshot_byte_limit() {
            return Err(storage::invalid("snapshot install limit"));
        }
        Ok(InstallRequest { meta: meta.clone(), data })
    }

    /// What restoring a staged install comes to: nothing is restored where the application is
    /// beyond the snapshot already.
    pub fn restore_staged(&mut self, install: InstallStaged) -> (restored: Result<
        (InstallRestored, NativeSnapshotStage),
        InstallFailure<S::Error>,
    >)
        ensures
            final(self).group_id == old(self).group_id,
            final(self).last_applied_log == old(self).last_applied_log,
            final(self).last_membership == old(self).last_membership,
            final(self).current_snapshot == old(self).current_snapshot,
            final(self).native == old(self).native,
            if log_id::before(install.snapshot().meta.last_log_id, old(self).last_applied_log) {
                &&& restored matches Err(InstallFailure::Storage(error)) && error@
                    == would_regress()
                &&& final(self).fsm == old(self).fsm
            } else {
                match restored {
                    Ok((next, stage)) => {
                        &&& next.meta() == install.snapshot().meta
                        &&& stage@ == install.candidate()
                        &&& S::restores(
                            &old(self).fsm,
                            &final(self).fsm,
                            old(self).group_id,
                            install.snapshot().data,
                            Ok(()),
                        )
                    },
                    Err(failure) => failure matches InstallFailure::Application(error)
                        && S::restores(
                        &old(self).fsm,
                        &final(self).fsm,
                        old(self).group_id,
                        install.snapshot().data,
                        Err(error),
                    ),
                }
            },
    {
        if log_id::is_before(install.meta.last_log_id, self.last_applied_log) {
            return Err(
                InstallFailure::Storage(
                    storage::invalid("snapshot install would regress applied state"),
                ),
            );
        }
        let restored = self.fsm.restore(self.group_id, install.data.as_slice());
        assert(S::restores(
            &old(self).fsm,
            &self.fsm,
            old(self).group_id,
            install.snapshot().data,
            restored,
        ));
        match restored {
            Ok(unit) => {
                assert(restored == Ok::<(), S::Error>(()));
                Ok((InstallRestored { meta: install.meta }, install.stage))
            },
            Err(error) => {
                Err(InstallFailure::Application(error))
            },
        }
    }

    /// Takes over the cut of an active install. Durable bytes remain owned by the catalog, not by a
    /// historical snapshot in memory.
    pub fn finish_install(&mut self, install: InstallActivated)
        ensures
            final(self).group_id == old(self).group_id,
            final(self).fsm == old(self).fsm,
            final(self).native == old(self).native,
            final(self).last_applied_log == install.meta().last_log_id,
            final(self).last_membership@ == install.meta().last_membership,
            final(self).current_snapshot is None,
    {
        self.last_applied_log = install.meta.last_log_id;
        self.last_membership = install.meta.last_membership;
        self.current_snapshot = None;
    }
}

/// What one store captured, another one takes over: once the capture is staged, restored and
/// activated there, that store stands at the cut and the membership of the first, and its
/// application was restored from the image of the first.
pub proof fn law_an_installed_capture_takes_its_state_over<S: StateMachine, P, C>(
    source: StateMachineStore<S, P, C>,
    frozen: Result<Vec<u8>, CaptureError<S::Error>>,
    permits: P,
    number: u64,
    capture: Capture<P, C>,
    target: StateMachineStore<S, P, C>,
    request: InstallRequest,
    admitted: InstallAdmitted,
    stage: NativeSnapshotStage,
    staged: InstallStaged,
    restoring: &mut StateMachineStore<S, P, C>,
    restored: InstallRestored,
    candidate: NativeSnapshotStage,
    activated: InstallActivated,
    finishing: &mut StateMachineStore<S, P, C>,
)
    requires
        call_ensures(
            StateMachineStore::<S, P, C>::captured,
            (&source, frozen, permits, number),
            Ok::<Capture<P, C>, CaptureFailure<S::Error>>(capture),
        ),
        call_ensures(
            StateMachineStore::<S, P, C>::install_native_snapshot,
            (&target, &capture.meta, capture.data),
            Ok::<InstallRequest, StorageError>(request),
        ),
        call_ensures(
            InstallRequest::admitted,
            (request, false),
            Ok::<InstallAdmitted, StorageError>(admitted),
        ),
        call_ensures(
            InstallAdmitted::staged,
            (admitted, Ok::<NativeSnapshotStage, StorageError>(stage)),
            Ok::<InstallStaged, StorageError>(staged),
        ),
        call_ensures(
            StateMachineStore::<S, P, C>::restore_staged,
            (restoring, staged),
            Ok::<(InstallRestored, NativeSnapshotStage), InstallFailure<S::Error>>(
                (restored, candidate),
            ),
        ),
        call_ensures(
            InstallRestored::activated,
            (restored, Ok::<(), StorageError>(())),
            Ok::<InstallActivated, StorageError>(activated),
        ),
        call_ensures(
            StateMachineStore::<S, P, C>::finish_install,
            (finishing, activated),
            (),
        ),
    ensures
        final(finishing).last_applied_log == source.last_applied_log,
        final(finishing).last_membership@ == source.last_membership@,
        final(finishing).current_snapshot is None,
        final(finishing).fsm == old(finishing).fsm,
        final(finishing).native == old(finishing).native,
        final(finishing).group_id == old(finishing).group_id,
        candidate@ == stage@,
        !log_id::before(source.last_applied_log, old(restoring).last_applied_log),
        S::restores(
            &old(restoring).fsm,
            &final(restoring).fsm,
            old(restoring).group_id,
            frozen->Ok_0@,
            Ok(()),
        ),
        final(restoring).last_applied_log == old(restoring).last_applied_log,
{
}

/// An install goes on exactly where it is within the byte limit, the owner is open, staging
/// succeeded, the application is not beyond the snapshot and takes it, and activation succeeded;
/// and nothing of the application changes where the snapshot stands before what is applied.
pub proof fn law_installs_stop_at_the_first_failure<S: StateMachine, P, C>(
    store: StateMachineStore<S, P, C>,
    meta: SnapshotMeta,
    data: Vec<u8>,
    request: Result<InstallRequest, StorageError>,
    open: InstallRequest,
    closing: bool,
    admitted: Result<InstallAdmitted, StorageError>,
    ready: InstallAdmitted,
    stage: Result<NativeSnapshotStage, StorageError>,
    staged: Result<InstallStaged, StorageError>,
    candidate: InstallStaged,
    restoring: &mut StateMachineStore<S, P, C>,
    restored: Result<(InstallRestored, NativeSnapshotStage), InstallFailure<S::Error>>,
    waiting: InstallRestored,
    active: Result<(), StorageError>,
    activated: Result<InstallActivated, StorageError>,
)
    requires
        call_ensures(
            StateMachineStore::<S, P, C>::install_native_snapshot,
            (&store, &meta, data),
            request,
        ),
        call_ensures(InstallRequest::admitted, (open, closing), admitted),
        call_ensures(InstallAdmitted::staged, (ready, stage), staged),
        call_ensures(
            StateMachineStore::<S, P, C>::restore_staged,
            (restoring, candidate),
            restored,
        ),
        call_ensures(InstallRestored::activated, (waiting, active), activated),
    ensures
        request is Ok <==> data@.len() <= (match store.native {
            Some(native) => native.options.max_snapshot_bytes as int,
            None => 67_108_864int,
        }),
        request is Ok ==> request->Ok_0.snapshot().meta == meta@ && request->Ok_0.snapshot().data
            == data@,
        request is Err ==> request->Err_0.kind is InvalidData,
        admitted is Ok <==> !closing,
        admitted is Ok ==> admitted->Ok_0.snapshot() == open.snapshot(),
        admitted is Err ==> admitted->Err_0.kind is BrokenPipe,
        staged is Ok <==> stage is Ok,
        staged is Ok ==> staged->Ok_0.snapshot() == ready.snapshot() && staged->Ok_0.candidate()
            == stage->Ok_0@,
        staged is Err ==> staged->Err_0@ == stage->Err_0@,
        log_id::before(candidate.snapshot().meta.last_log_id, old(restoring).last_applied_log) ==> {
            &&& restored matches Err(InstallFailure::Storage(error)) && error.kind is InvalidData
            &&& final(restoring).fsm == old(restoring).fsm
        },
        restored is Ok ==> !log_id::before(
            candidate.snapshot().meta.last_log_id,
            old(restoring).last_applied_log,
        ),
        restored matches Err(InstallFailure::Storage(_)) ==> log_id::before(
            candidate.snapshot().meta.last_log_id,
            old(restoring).last_applied_log,
        ),
        final(restoring).last_applied_log == old(restoring).last_applied_log,
        final(restoring).last_membership == old(restoring).last_membership,
        final(restoring).native == old(restoring).native,
        final(restoring).group_id == old(restoring).group_id,
        final(restoring).current_snapshot == old(restoring).current_snapshot,
        restored matches Err(InstallFailure::Application(error)) ==> S::restores(
            &old(restoring).fsm,
            &final(restoring).fsm,
            old(restoring).group_id,
            candidate.snapshot().data,
            Err(error),
        ),
        activated is Ok <==> active is Ok,
        activated is Err ==> activated->Err_0@ == active->Err_0@,
{
}

/// An install is staged in the store's own catalog, for its own group and within its own byte
/// limit, and is what was handed in.
pub proof fn law_installs_are_staged_in_their_own_catalog<S: StateMachine, P, C>(
    install: InstallAdmitted,
    store: StateMachineStore<S, P, C>,
    process: u64,
    sequence: u64,
    turn: Option<Turn<NativeStaging, Result<NativeSnapshotStage, StorageError>>>,
    meta: SnapshotMeta,
    data: Vec<u8>,
    directly: Turn<NativeStaging, Result<NativeSnapshotStage, StorageError>>,
    w: World,
)
    requires
        call_ensures(InstallAdmitted::stage::<S, P, C>, (&install, &store, process, sequence), turn),
        meta@ == install.snapshot().meta,
        data@ == install.snapshot().data,
        store.native is Some ==> call_ensures(
            crate::catalog::SnapshotCatalog::stage_native,
            (
                &store.native->0.options.catalog,
                store.group_id,
                &meta,
                data,
                store.native->0.options.max_snapshot_bytes,
                process,
                sequence,
            ),
            directly,
        ),
    ensures
        turn is Some <==> store.native is Some,
        turn is Some ==> NativeStaging::turned(turn->0, w) == NativeStaging::turned(directly, w),
        turn is Some ==> NativeStaging::asked(turn->0, w) == NativeStaging::asked(directly, w),
{
}

} // verus!
