//! Preparing builders, reserving builds, and building snapshots.

use crate::activation;
use crate::activation::NativePublication;
use crate::bridge;
use crate::bridge::Capture;
use crate::bridge::CaptureView;
use crate::bridge::NativeBuildReservation;
use crate::bridge::NativeCaptureError;
use crate::bridge::NativeRuntime;
use crate::bridge::SnapshotBuilder;
use crate::bridge::StateMachineStore;
use crate::catalog;
use crate::catalog::NativeLoad;
use crate::describe;
use crate::describe::NativeDescribe;
use crate::files::Turn;
use crate::files::World;
use crate::fsm::CaptureRefusal;
use crate::fsm::StateMachine;
use crate::log_id;
use crate::snapshot::NativeSnapshot;
use crate::snapshot::NativeSnapshotInfo;
use crate::snapshot::NativeSnapshotView;
use crate::staging;
use crate::staging::StageJob;
use crate::storage;
use crate::storage::ErrorKind;
use crate::storage::StorageError;
use crate::storage::StorageErrorView;
use vstd::prelude::*;

verus! {

/// What preparing a builder comes to at once.
#[derive(Debug)]
pub enum PrepareStep<P, C> {
    /// The builder, or none.
    Ready(Option<SnapshotBuilder<P, C>>),
    /// A capture has to be tried first.
    Capture,
}

/// What preparing a builder comes to once a capture was tried.
#[derive(Debug)]
pub enum CapturedStep<P, C> {
    /// The builder, or none.
    Ready(Option<SnapshotBuilder<P, C>>),
    /// The capture was refused, but a stored snapshot may do: it has to be loaded, the transition
    /// lock being held.
    LoadDurable(CaptureRefusal),
}

/// What a builder holds.
pub open spec fn builder_view<P, C>(builder: SnapshotBuilder<P, C>) -> Option<
    Result<CaptureView<P, C>, StorageErrorView>,
> {
    match builder.capture {
        None => None,
        Some(capture) => Some(storage::result_view(capture)),
    }
}

/// The refusal in a capture, if it was refused.
pub open spec fn refusal_of<P, C>(captured: Result<Capture<P, C>, NativeCaptureError>) -> Option<
    CaptureRefusal,
> {
    match captured {
        Err(NativeCaptureError::Refused(reason)) => Some(reason),
        _ => None,
    }
}

/// A stored snapshot stands in for a refused capture where it covers everything that was applied,
/// with the same membership.
pub open spec fn covers<S: StateMachine, P, C>(
    store: StateMachineStore<S, P, C>,
    snapshot: NativeSnapshotView,
) -> bool {
    &&& !log_id::before(snapshot.meta.last_log_id, store.last_applied_log)
    &&& snapshot.meta.last_membership == store.last_membership@
}

impl<S: StateMachine, P, C> StateMachineStore<S, P, C> {
    /// Prepares a builder as far as that can be done at once: in memory without native snapshots;
    /// none, or a failing one where it is forced, once intake is closed; else from a reserved
    /// capture. A forced request always gets a builder in the end.
    pub fn prepare_builder(&mut self, force: bool) -> (step: PrepareStep<P, C>)
        ensures
            final(self).same_application(*old(self)),
            force ==> step != PrepareStep::<P, C>::Ready(None),
            match old(self).native {
                None => {
                    &&& step matches PrepareStep::Ready(Some(builder)) && builder_view(builder)
                        is None
                    &&& *final(self) == *old(self)
                },
                Some(native) => if native.closing {
                    &&& *final(self) == *old(self)
                    &&& if force {
                        step matches PrepareStep::Ready(Some(builder)) && builder_view(builder)
                            == Some(
                            Err::<CaptureView<P, C>, StorageErrorView>(bridge::owner_closed()),
                        )
                    } else {
                        step matches PrepareStep::Ready(None)
                    }
                } else {
                    match native.pending {
                        Some(capture) => {
                            &&& step matches PrepareStep::Ready(Some(builder)) && builder_view(
                                builder,
                            ) == Some(Ok::<CaptureView<P, C>, StorageErrorView>(capture@))
                            &&& final(self).native == Some(native.released())
                        },
                        None => step is Capture && *final(self) == *old(self),
                    }
                },
            },
    {
        let native = match self.native.take() {
            Some(native) => native,
            None => {
                return PrepareStep::Ready(Some(SnapshotBuilder { capture: None }));
            },
        };
        if native.closing {
            self.native = Some(native);
            return if force {
                let error = storage::fail(ErrorKind::BrokenPipe, "native snapshot owner closed");
                PrepareStep::Ready(Some(SnapshotBuilder { capture: Some(Err(error)) }))
            } else {
                PrepareStep::Ready(None)
            };
        }
        let NativeRuntime { options, closing, refusal, pending } = native;
        self.native = Some(NativeRuntime { options, closing, refusal, pending: None });
        match pending {
            Some(capture) => PrepareStep::Ready(
                Some(SnapshotBuilder { capture: Some(Ok(capture)) }),
            ),
            None => PrepareStep::Capture,
        }
    }

    /// Takes the capture that was tried: a refusal is recorded, and gives no builder unless one is
    /// forced.
    pub fn prepare_captured(
        &mut self,
        captured: Result<Capture<P, C>, NativeCaptureError>,
        force: bool,
    ) -> (step: CapturedStep<P, C>)
        ensures
            final(self).same_application(*old(self)),
            force ==> step != CapturedStep::<P, C>::Ready(None),
            match old(self).native {
                Some(native) => final(self).native == Some(native.noting(refusal_of(captured))),
                None => final(self).native is None,
            },
            match captured {
                Err(NativeCaptureError::Refused(reason)) => if force {
                    step == CapturedStep::<P, C>::LoadDurable(reason)
                } else {
                    step matches CapturedStep::Ready(None)
                },
                Err(NativeCaptureError::Io(error)) => step matches CapturedStep::Ready(
                    Some(builder),
                ) && builder_view(builder) == Some(
                    Err::<CaptureView<P, C>, StorageErrorView>(error@),
                ),
                Ok(capture) => step matches CapturedStep::Ready(Some(builder)) && builder_view(
                    builder,
                ) == Some(Ok::<CaptureView<P, C>, StorageErrorView>(capture@)),
            },
    {
        let refused = match &captured {
            Err(NativeCaptureError::Refused(reason)) => Some(*reason),
            _ => None,
        };
        if let Some(native) = self.native.take() {
            self.native = Some(
                NativeRuntime {
                    options: native.options,
                    closing: native.closing,
                    refusal: refused,
                    pending: native.pending,
                },
            );
        }
        match captured {
            Err(NativeCaptureError::Refused(reason)) => {
                if force {
                    CapturedStep::LoadDurable(reason)
                } else {
                    CapturedStep::Ready(None)
                }
            },
            Err(NativeCaptureError::Io(error)) => CapturedStep::Ready(
                Some(SnapshotBuilder { capture: Some(Err(error)) }),
            ),
            Ok(capture) => CapturedStep::Ready(
                Some(SnapshotBuilder { capture: Some(Ok(capture)) }),
            ),
        }
    }

    /// Takes the stored snapshot after a refused, forced capture: where it covers the whole current
    /// cut it is served without competing for build admission, else the refusal stands.
    pub fn prepare_reused(
        &self,
        refusal: CaptureRefusal,
        loaded: Result<Option<NativeSnapshot>, StorageError>,
    ) -> (builder: SnapshotBuilder<P, C>)
        ensures
            builder_view(builder) == Some(
                match catalog::option_result_view(loaded) {
                    Err(error) => Err(error),
                    Ok(None) => Err(bridge::refusal_failure(refusal)),
                    Ok(Some(snapshot)) => if covers(*self, snapshot) {
                        Ok(
                            CaptureView::<P, C> {
                                meta: snapshot.meta,
                                data: snapshot.data,
                                permits: None,
                                already_durable: true,
                                completion: None,
                            },
                        )
                    } else {
                        Err(bridge::refusal_failure(refusal))
                    },
                },
            ),
    {
        let capture = match loaded {
            Err(error) => Err(error),
            Ok(None) => Err(bridge::refusal_io(refusal)),
            Ok(Some(snapshot)) => {
                if !log_id::is_before(snapshot.meta.last_log_id, self.last_applied_log)
                    && snapshot.meta.last_membership.same_as(&self.last_membership) {
                    Ok(
                        Capture {
                            meta: snapshot.meta,
                            data: snapshot.data,
                            permits: None,
                            already_durable: true,
                            completion: None,
                        },
                    )
                } else {
                    Err(bridge::refusal_io(refusal))
                }
            },
        };
        SnapshotBuilder { capture: Some(capture) }
    }

    /// Why no build can be reserved before a capture is even tried.
    pub fn reserve_native_compaction(&self) -> (admitted: Result<(), NativeCaptureError>)
        ensures
            match self.native {
                Some(_) => admitted is Ok,
                None => admitted == Err::<(), NativeCaptureError>(
                    NativeCaptureError::Refused(CaptureRefusal::Unsupported),
                ),
            },
    {
        match &self.native {
            Some(_) => Ok(()),
            None => Err(NativeCaptureError::Refused(CaptureRefusal::Unsupported)),
        }
    }

    /// Reserves a captured cut for the next native builder, without publishing it, and says who
    /// waits for it. One cut at a time is reserved.
    pub fn reserve_captured(&mut self, captured: Capture<P, C>, completion: C) -> (reserved: Result<
        NativeBuildReservation,
        NativeCaptureError,
    >)
        ensures
            final(self).same_application(*old(self)),
            match old(self).native {
                None => {
                    &&& reserved == Err::<NativeBuildReservation, NativeCaptureError>(
                        NativeCaptureError::Refused(CaptureRefusal::Unsupported),
                    )
                    &&& *final(self) == *old(self)
                },
                Some(native) => if native.closing {
                    &&& reserved matches Err(NativeCaptureError::Io(error)) && error@
                        == bridge::owner_closed()
                    &&& *final(self) == *old(self)
                } else if native.pending is Some {
                    &&& reserved == Err::<NativeBuildReservation, NativeCaptureError>(
                        NativeCaptureError::Refused(CaptureRefusal::Busy),
                    )
                    &&& *final(self) == *old(self)
                } else {
                    &&& reserved == Ok::<NativeBuildReservation, NativeCaptureError>(
                        NativeBuildReservation { target: captured.meta.last_log_id },
                    )
                    &&& final(self).native == Some(native.reserving(captured, completion))
                },
            },
    {
        let native = match self.native.take() {
            Some(native) => native,
            None => {
                return Err(NativeCaptureError::Refused(CaptureRefusal::Unsupported));
            },
        };
        if native.closing {
            self.native = Some(native);
            return Err(
                NativeCaptureError::Io(
                    storage::fail(ErrorKind::BrokenPipe, "native snapshot owner closed"),
                ),
            );
        }
        if native.pending.is_some() {
            self.native = Some(native);
            return Err(NativeCaptureError::Refused(CaptureRefusal::Busy));
        }
        let target = captured.meta.last_log_id;
        let capture = Capture {
            meta: captured.meta,
            data: captured.data,
            permits: captured.permits,
            already_durable: captured.already_durable,
            completion: Some(completion),
        };
        self.native = Some(
            NativeRuntime {
                options: native.options,
                closing: native.closing,
                refusal: native.refusal,
                pending: Some(capture),
            },
        );
        Ok(NativeBuildReservation { target })
    }

    /// Starts to read validated catalog facts without the image; there are none without native
    /// snapshots.
    pub fn native_snapshot_info(&self) -> (turn: Turn<
        NativeDescribe,
        Result<Option<NativeSnapshotInfo>, StorageError>,
    >)
        ensures
            match self.native {
                None => turn matches Turn::Done(Ok(None)),
                Some(native) => {
                    &&& NativeDescribe::proceeds(turn, (10, 0))
                    &&& forall|w: World| #[trigger]
                        NativeDescribe::turned(turn, w) == describe::described(
                            w,
                            native.options.catalog.root_path(),
                            self.group_id,
                            native.options.max_snapshot_bytes as int,
                        )
                    &&& forall|w: World| #[trigger]
                        NativeDescribe::asked(turn, w) == describe::describe_asks(
                            w,
                            native.options.catalog.root_path(),
                            self.group_id,
                            native.options.max_snapshot_bytes as int,
                        )
                },
            },
    {
        match &self.native {
            None => Turn::Done(Ok(None)),
            Some(native) => native.options.catalog.describe_native(
                self.group_id,
                native.options.max_snapshot_bytes,
            ),
        }
    }

    /// Starts to load the stored snapshot; there is none without native snapshots.
    pub fn load_native_snapshot(&self) -> (turn: Turn<
        NativeLoad,
        Result<Option<NativeSnapshot>, StorageError>,
    >)
        ensures
            match self.native {
                None => turn matches Turn::Done(Ok(None)),
                Some(native) => {
                    &&& NativeLoad::proceeds(turn, 8)
                    &&& forall|w: World| #[trigger]
                        NativeLoad::turned(turn, w) == catalog::loaded(
                            w,
                            native.options.catalog.root_path(),
                            self.group_id,
                            native.options.max_snapshot_bytes as int,
                        )
                    &&& forall|w: World| #[trigger]
                        NativeLoad::asked(turn, w) == catalog::load_asks(
                            w,
                            native.options.catalog.root_path(),
                            self.group_id,
                            native.options.max_snapshot_bytes as int,
                        )
                },
            },
    {
        match &self.native {
            None => Turn::Done(Ok(None)),
            Some(native) => native.options.catalog.load_native(
                self.group_id,
                native.options.max_snapshot_bytes,
            ),
        }
    }
}

/// A built snapshot, with who is to be told and what admitted the build.
#[derive(Debug)]
pub struct Built<P, C> {
    pub snapshot: NativeSnapshot,
    pub notify: Option<C>,
    pub permits: Option<P>,
}

/// `built` serves `snapshot` for `capture`.
pub open spec fn is_built<P, C>(
    built: Built<P, C>,
    snapshot: NativeSnapshotView,
    capture: CaptureView<P, C>,
) -> bool {
    &&& built.snapshot@ == snapshot
    &&& built.notify == capture.completion
    &&& built.permits == capture.permits
}

/// The snapshot that a capture holds.
pub open spec fn captured_snapshot<P, C>(capture: CaptureView<P, C>) -> NativeSnapshotView {
    NativeSnapshotView { meta: capture.meta, data: capture.data }
}

/// How a build starts.
#[derive(Debug)]
pub enum BuildStep<P, C> {
    /// A snapshot is built in memory.
    Legacy,
    /// The build is over.
    Done(Result<Built<P, C>, StorageError>),
    /// The transition lock has to be taken.
    Transition(Transition<P, C>),
}

/// A build that waits for the transition lock.
#[derive(Debug)]
pub struct Transition<P, C> {
    capture: Capture<P, C>,
}

/// A build that waits for the stored snapshot.
#[derive(Debug)]
pub struct Comparison<P, C> {
    capture: Capture<P, C>,
}

/// A build whose capture is to be published.
#[derive(Debug)]
pub struct Publishing<P, C> {
    capture: Capture<P, C>,
}

/// What follows from the stored snapshot.
#[derive(Debug)]
pub enum CompareStep<P, C> {
    /// The build is over.
    Done(Result<Built<P, C>, StorageError>),
    /// The capture is to be published.
    Publish(Publishing<P, C>),
}

fn finish_build<P, C>(capture: Capture<P, C>) -> (built: Built<P, C>)
    ensures
        is_built(built, captured_snapshot(capture@), capture@),
{
    Built {
        snapshot: NativeSnapshot { meta: capture.meta, data: capture.data },
        notify: capture.completion,
        permits: capture.permits,
    }
}

impl<P, C> SnapshotBuilder<P, C> {
    /// Starts the build. A builder builds once; a capture that is durable already is served as it
    /// is.
    pub fn build_snapshot(&mut self, native: bool) -> (step: BuildStep<P, C>)
        ensures
            final(self).capture is None,
            match builder_view(*old(self)) {
                None => if native {
                    step matches BuildStep::Done(Err(error)) && error@ == storage::failure(
                        ErrorKind::Other,
                        "snapshot builder already consumed"@,
                    )
                } else {
                    step is Legacy
                },
                Some(Err(failure)) => step matches BuildStep::Done(Err(error)) && error@ == failure,
                Some(Ok(capture)) => if capture.already_durable {
                    step matches BuildStep::Done(Ok(built)) && is_built(
                        built,
                        captured_snapshot(capture),
                        capture,
                    )
                } else {
                    step matches BuildStep::Transition(next) && next.holds() == capture
                },
            },
    {
        let captured = match self.capture.take() {
            None => {
                if native {
                    return BuildStep::Done(
                        Err(storage::fail(ErrorKind::Other, "snapshot builder already consumed")),
                    );
                }
                return BuildStep::Legacy;
            },
            Some(Err(error)) => {
                return BuildStep::Done(Err(error));
            },
            Some(Ok(captured)) => captured,
        };
        if captured.already_durable {
            return BuildStep::Done(Ok(finish_build(captured)));
        }
        BuildStep::Transition(Transition { capture: captured })
    }
}

impl<P, C> Transition<P, C> {
    /// The capture.
    pub closed spec fn holds(self) -> CaptureView<P, C> {
        self.capture@
    }

    /// Goes on with the transition lock held; `closing` says whether the owner takes no more work.
    pub fn admitted(self, closing: bool) -> (next: Result<Comparison<P, C>, StorageError>)
        ensures
            match next {
                Ok(next) => !closing && next.holds() == self.holds(),
                Err(error) => closing && error@ == bridge::owner_closed(),
            },
    {
        if closing {
            return Err(storage::fail(ErrorKind::BrokenPipe, "native snapshot owner closed"));
        }
        Ok(Comparison { capture: self.capture })
    }
}

impl<P, C> Comparison<P, C> {
    /// The capture.
    pub closed spec fn holds(self) -> CaptureView<P, C> {
        self.capture@
    }

    /// Takes the stored snapshot. Where a newer one was installed meanwhile it is served in place of
    /// the capture, so that an old build neither fails nor regresses the active generation.
    pub fn loaded(self, loaded: Result<Option<NativeSnapshot>, StorageError>) -> (step: CompareStep<
        P,
        C,
    >)
        ensures
            match catalog::option_result_view(loaded) {
                Err(failure) => step matches CompareStep::Done(Err(error)) && error@ == failure,
                Ok(Some(current)) => if log_id::before(
                    self.holds().meta.last_log_id,
                    current.meta.last_log_id,
                ) {
                    step matches CompareStep::Done(Ok(built)) && is_built(
                        built,
                        current,
                        self.holds(),
                    )
                } else {
                    step matches CompareStep::Publish(next) && next.holds() == self.holds()
                },
                Ok(None) => step matches CompareStep::Publish(next) && next.holds() == self.holds(),
            },
    {
        match loaded {
            Err(error) => CompareStep::Done(Err(error)),
            Ok(Some(current)) => {
                if log_id::is_before(self.capture.meta.last_log_id, current.meta.last_log_id) {
                    return CompareStep::Done(
                        Ok(
                            Built {
                                snapshot: current,
                                notify: self.capture.completion,
                                permits: self.capture.permits,
                            },
                        ),
                    );
                }
                CompareStep::Publish(Publishing { capture: self.capture })
            },
            Ok(None) => CompareStep::Publish(Publishing { capture: self.capture }),
        }
    }
}

impl<P, C> Publishing<P, C> {
    /// The capture.
    pub closed spec fn holds(self) -> CaptureView<P, C> {
        self.capture@
    }

    /// Starts to publish the capture in the catalog of `store`, for its group and within its byte
    /// limit.
    pub fn publish<S: StateMachine>(
        &self,
        store: &StateMachineStore<S, P, C>,
        process: u64,
        sequence: u64,
    ) -> (turn: Option<Turn<NativePublication, Result<(), StorageError>>>)
        ensures
            turn is Some <==> store.native is Some,
            turn matches Some(turn) ==> {
                let options = store.native->0.options;
                let root = options.catalog.root_path();
                let job = StageJob {
                    root,
                    group: store.group_id,
                    meta: self.holds().meta,
                    data: self.holds().data,
                    max_bytes: options.max_snapshot_bytes,
                    stage_name: staging::stage_name(process, sequence),
                };
                &&& NativePublication::proceeds(turn, 26)
                &&& forall|before: World, after: World| #[trigger]
                    NativePublication::turned(turn, before, after) == activation::activated_stage(
                        after,
                        root,
                        job.staged(before),
                    )
                &&& forall|before: World, after: World| #[trigger]
                    NativePublication::asked(turn, before, after) == job.stage_asks(before)
                        + activation::staged_asks(after, root, job.staged(before))
            },
    {
        match &store.native {
            None => None,
            Some(native) => {
                let data = self.capture.data.clone();
                assert(data@ =~= self.capture.data@);
                Some(
                    native.options.catalog.publish_native(
                        store.group_id,
                        &self.capture.meta,
                        data,
                        native.options.max_snapshot_bytes,
                        process,
                        sequence,
                    ),
                )
            },
        }
    }

    /// Takes what publication came to. Nobody is told of a build that failed.
    pub fn published(self, published: Result<(), StorageError>) -> (built: Result<
        Built<P, C>,
        StorageError,
    >)
        ensures
            match published {
                Err(failure) => built matches Err(error) && error@ == failure@,
                Ok(()) => built matches Ok(built) && is_built(
                    built,
                    captured_snapshot(self.holds()),
                    self.holds(),
                ),
            },
    {
        match published {
            Err(error) => Err(error),
            Ok(()) => Ok(finish_build(self.capture)),
        }
    }
}

/// Releasing undoes reserving, and what is reserved is what the next builder takes: nothing of the
/// capture changes but who waits for it.
pub proof fn law_release_undoes_a_reservation<P, C>(
    native: NativeRuntime<P, C>,
    capture: Capture<P, C>,
    completion: C,
)
    requires
        native.pending is None,
    ensures
        ({
            let reserved = native.reserving(capture, completion);
            &&& reserved.released() == native
            &&& reserved.pending matches Some(pending) && pending@ == (CaptureView {
                completion: Some(completion),
                ..capture@
            })
        }),
{
}

/// Closed intake stays closed, with nothing reserved: neither noting a refusal nor releasing a
/// reservation nor closing again opens it.
pub proof fn law_closed_intake_stays_closed<P, C>(
    native: NativeRuntime<P, C>,
    refusal: Option<CaptureRefusal>,
)
    ensures
        native.closed().closing && native.closed().pending is None,
        native.closed().noting(refusal).closing && native.closed().noting(refusal).pending is None,
        native.closed().released() == native.closed(),
        native.closed().closed() == native.closed(),
{
}

/// Preparing a builder: a group without native snapshots builds in memory; a closed one gives none,
/// or a failing one where it is forced; an open one hands out the capture that is reserved, whole
/// and once, and without one a capture has to be tried.
pub proof fn law_builders_take_the_reserved_capture<S: StateMachine, P, C>(
    store: &mut StateMachineStore<S, P, C>,
    force: bool,
    step: PrepareStep<P, C>,
)
    requires
        call_ensures(StateMachineStore::<S, P, C>::prepare_builder, (store, force), step),
    ensures
        old(store).native is None ==> (step matches PrepareStep::Ready(Some(builder))
            && builder.capture is None),
        old(store).native matches Some(native) ==> {
            &&& step is Capture <==> !native.closing && native.pending is None
            &&& native.closing && !force ==> (step matches PrepareStep::Ready(None))
            &&& native.closing && force ==> (step matches PrepareStep::Ready(Some(builder))
                && builder.capture matches Some(Err(error)) && error.kind is BrokenPipe)
            &&& !native.closing && native.pending is Some ==> {
                &&& step matches PrepareStep::Ready(Some(builder))
                &&& builder.capture matches Some(Ok(capture))
                &&& capture.meta@ == native.pending->0.meta@
                &&& capture.data@ == native.pending->0.data@
                &&& capture.permits == native.pending->0.permits
                &&& capture.completion == native.pending->0.completion
                &&& capture.already_durable == native.pending->0.already_durable
                &&& final(store).native is Some && final(store).native->0.pending is None
            }
            &&& final(store).native is Some
            &&& final(store).native->0.options == native.options
            &&& final(store).native->0.closing == native.closing
            &&& final(store).native->0.refusal == native.refusal
            &&& native.closing ==> final(store).native->0.pending == native.pending
        },
        old(store).native is None ==> final(store).native is None,
        final(store).group_id == old(store).group_id,
        final(store).current_snapshot == old(store).current_snapshot,
        final(store).fsm == old(store).fsm,
        final(store).last_applied_log == old(store).last_applied_log,
        final(store).last_membership == old(store).last_membership,
{
}

/// A capture that was tried gives a builder of the whole capture, or of its failure; a refusal
/// gives none, unless one is forced. The outcome is noted, and nothing else changes.
pub proof fn law_tried_captures_are_noted<S: StateMachine, P, C>(
    store: &mut StateMachineStore<S, P, C>,
    captured: Result<Capture<P, C>, NativeCaptureError>,
    force: bool,
    step: CapturedStep<P, C>,
)
    requires
        call_ensures(
            StateMachineStore::<S, P, C>::prepare_captured,
            (store, captured, force),
            step,
        ),
    ensures
        captured matches Ok(capture) ==> {
            &&& step matches CapturedStep::Ready(Some(builder))
            &&& builder.capture matches Some(Ok(held))
            &&& held.meta@ == capture.meta@ && held.data@ == capture.data@
            &&& held.permits == capture.permits && held.completion == capture.completion
            &&& held.already_durable == capture.already_durable
        },
        captured matches Err(NativeCaptureError::Io(error)) ==> {
            &&& step matches CapturedStep::Ready(Some(builder))
            &&& builder.capture matches Some(Err(held))
            &&& held.kind == error.kind && held.message@ == error.message@
        },
        captured matches Err(NativeCaptureError::Refused(reason)) ==> {
            &&& force ==> (step matches CapturedStep::LoadDurable(r) && r == reason)
            &&& !force ==> (step matches CapturedStep::Ready(None))
        },
        old(store).native matches Some(native) ==> {
            &&& final(store).native is Some
            &&& captured matches Err(NativeCaptureError::Refused(reason))
                ==> final(store).native->0.refusal == Some(reason)
            &&& !(captured matches Err(NativeCaptureError::Refused(_)))
                ==> final(store).native->0.refusal is None
            &&& final(store).native->0.options == native.options
            &&& final(store).native->0.closing == native.closing
            &&& final(store).native->0.pending == native.pending
        },
        old(store).native is None ==> final(store).native is None,
        final(store).group_id == old(store).group_id,
        final(store).current_snapshot == old(store).current_snapshot,
        final(store).fsm == old(store).fsm,
        final(store).last_applied_log == old(store).last_applied_log,
        final(store).last_membership == old(store).last_membership,
{
}

/// After a refused capture the stored snapshot is served exactly where there is one that does not
/// stand before what was applied and has the same membership: whole, without permits, and marked as
/// durable. Else the builder fails, with the catalog's own failure or with the refusal.
pub proof fn law_stored_snapshots_are_reused_where_they_cover<S: StateMachine, P, C>(
    store: StateMachineStore<S, P, C>,
    refusal: CaptureRefusal,
    loaded: Result<Option<NativeSnapshot>, StorageError>,
    builder: SnapshotBuilder<P, C>,
)
    requires
        call_ensures(
            StateMachineStore::<S, P, C>::prepare_reused,
            (&store, refusal, loaded),
            builder,
        ),
    ensures
        builder.capture is Some,
        builder.capture->0 is Ok <==> {
            &&& loaded is Ok && loaded->Ok_0 is Some
            &&& !log_id::before(loaded->Ok_0->0.meta.last_log_id, store.last_applied_log)
            &&& loaded->Ok_0->0.meta.last_membership@ == store.last_membership@
        },
        builder.capture->0 is Ok ==> {
            let capture = builder.capture->0->Ok_0;
            &&& capture.meta@ == loaded->Ok_0->0.meta@
            &&& capture.data@ == loaded->Ok_0->0.data@
            &&& capture.already_durable
            &&& capture.permits is None && capture.completion is None
        },
        loaded is Err ==> builder.capture->0->Err_0.kind == loaded->Err_0.kind
            && builder.capture->0->Err_0.message@ == loaded->Err_0.message@,
        loaded is Ok && builder.capture->0 is Err ==> builder.capture->0->Err_0.kind is WouldBlock,
{
}

/// One cut at a time is reserved, on an open group with native snapshots and nowhere else; what is
/// reserved is the capture, and the reservation says up to which entry it goes.
pub proof fn law_one_cut_at_a_time_is_reserved<S: StateMachine, P, C>(
    store: &mut StateMachineStore<S, P, C>,
    captured: Capture<P, C>,
    completion: C,
    reserved: Result<NativeBuildReservation, NativeCaptureError>,
)
    requires
        call_ensures(
            StateMachineStore::<S, P, C>::reserve_captured,
            (store, captured, completion),
            reserved,
        ),
    ensures
        reserved is Ok <==> {
            &&& old(store).native is Some
            &&& !old(store).native->0.closing
            &&& old(store).native->0.pending is None
        },
        reserved is Ok ==> {
            &&& reserved->Ok_0.target == captured.meta.last_log_id
            &&& final(store).native is Some && final(store).native->0.pending is Some
            &&& final(store).native->0.pending->0.meta == captured.meta
            &&& final(store).native->0.pending->0.data == captured.data
            &&& final(store).native->0.pending->0.permits == captured.permits
            &&& final(store).native->0.pending->0.already_durable == captured.already_durable
            &&& final(store).native->0.pending->0.completion == Some(completion)
            &&& final(store).native->0.options == old(store).native->0.options
            &&& final(store).native->0.refusal == old(store).native->0.refusal
            &&& !final(store).native->0.closing
        },
        reserved is Err ==> *final(store) == *old(store),
        final(store).group_id == old(store).group_id,
        final(store).fsm == old(store).fsm,
        final(store).last_applied_log == old(store).last_applied_log,
        final(store).last_membership == old(store).last_membership,
        final(store).current_snapshot == old(store).current_snapshot,
        old(store).native is None ==> reserved->Err_0 == NativeCaptureError::Refused(
            CaptureRefusal::Unsupported,
        ),
        old(store).native is Some && old(store).native->0.closing
            ==> (reserved matches Err(NativeCaptureError::Io(error)) && error.kind is BrokenPipe),
        old(store).native is Some && !old(store).native->0.closing
            && old(store).native->0.pending is Some ==> reserved->Err_0
            == NativeCaptureError::Refused(CaptureRefusal::Busy),
{
}

/// A builder builds once: with nothing left to build it fails on a group with native snapshots. A
/// capture that is durable already is served whole; a failed one fails; and any other waits for the
/// transition lock.
pub proof fn law_builders_build_once<P, C>(
    builder: &mut SnapshotBuilder<P, C>,
    again: &mut SnapshotBuilder<P, C>,
    native: bool,
    step: BuildStep<P, C>,
    second: BuildStep<P, C>,
)
    requires
        call_ensures(SnapshotBuilder::<P, C>::build_snapshot, (builder, native), step),
        call_ensures(SnapshotBuilder::<P, C>::build_snapshot, (again, native), second),
        *old(again) == *final(builder),
    ensures
        native ==> second matches BuildStep::Done(Err(_)),
        !native ==> second is Legacy,
        step is Legacy <==> old(builder).capture is None && !native,
        old(builder).capture matches Some(Err(failure)) ==> (step matches BuildStep::Done(Err(error))
            && error@ == failure@),
        old(builder).capture matches Some(Ok(capture)) ==> {
            &&& capture.already_durable ==> {
                &&& step matches BuildStep::Done(Ok(built))
                &&& built.snapshot.meta@ == capture.meta@ && built.snapshot.data@ == capture.data@
                &&& built.notify == capture.completion && built.permits == capture.permits
            }
            &&& !capture.already_durable ==> (step matches BuildStep::Transition(next)
                && next.holds() == capture@)
        },
{
}

/// Under the transition lock a capture is published exactly where no stored snapshot stands after
/// it; a newer one is served in its place. Either way the one who waits is told, and the permits
/// are handed back, exactly once: with the snapshot that was served.
pub proof fn law_a_build_never_regresses<P, C>(
    transition: Transition<P, C>,
    closing: bool,
    admitted: Result<Comparison<P, C>, StorageError>,
    comparison: Comparison<P, C>,
    loaded: Result<Option<NativeSnapshot>, StorageError>,
    step: CompareStep<P, C>,
    publishing: Publishing<P, C>,
    published: Result<(), StorageError>,
    built: Result<Built<P, C>, StorageError>,
)
    requires
        call_ensures(Transition::<P, C>::admitted, (transition, closing), admitted),
        call_ensures(Comparison::<P, C>::loaded, (comparison, loaded), step),
        call_ensures(Publishing::<P, C>::published, (publishing, published), built),
    ensures
        admitted is Ok <==> !closing,
        admitted is Ok ==> admitted->Ok_0.holds() == transition.holds(),
        admitted is Err ==> admitted->Err_0.kind is BrokenPipe,
        loaded is Err ==> (step matches CompareStep::Done(Err(error)) && error@ == loaded->Err_0@),
        loaded is Ok ==> {
            let newer = loaded->Ok_0 is Some && log_id::before(
                comparison.holds().meta.last_log_id,
                loaded->Ok_0->0.meta.last_log_id,
            );
            &&& newer ==> {
                &&& step matches CompareStep::Done(Ok(served))
                &&& served.snapshot.meta@ == loaded->Ok_0->0.meta@
                &&& served.snapshot.data@ == loaded->Ok_0->0.data@
                &&& served.notify == comparison.holds().completion
                &&& served.permits == comparison.holds().permits
            }
            &&& !newer ==> (step matches CompareStep::Publish(next) && next.holds()
                == comparison.holds())
        },
        built is Ok <==> published is Ok,
        built is Err ==> built->Err_0@ == published->Err_0@,
        built is Ok ==> {
            &&& built->Ok_0.snapshot.meta@ == publishing.holds().meta
            &&& built->Ok_0.snapshot.data@ == publishing.holds().data
            &&& built->Ok_0.notify == publishing.holds().completion
            &&& built->Ok_0.permits == publishing.holds().permits
        },
{
}

/// Captures are told apart by every part of them.
pub proof fn law_held_captures_are_told_apart<P, C>(a: Capture<P, C>, b: Capture<P, C>)
    requires
        a@ == b@,
    ensures
        a.meta.last_log_id == b.meta.last_log_id,
        a.meta.last_membership@ == b.meta.last_membership@,
        a.meta.snapshot_id@ == b.meta.snapshot_id@,
        a.data@ == b.data@,
        a.permits == b.permits,
        a.completion == b.completion,
        a.already_durable == b.already_durable,
{
}

/// A store loads, describes, stages and publishes in its own catalog, for its own group and within
/// its own byte limit; without native snapshots there is nothing to load or to describe, and
/// nothing to stage or to publish in.
pub proof fn law_stores_use_their_own_catalog<S: StateMachine, P, C>(
    store: StateMachineStore<S, P, C>,
    load: Turn<NativeLoad, Result<Option<NativeSnapshot>, StorageError>>,
    load_directly: Turn<NativeLoad, Result<Option<NativeSnapshot>, StorageError>>,
    describe: Turn<NativeDescribe, Result<Option<NativeSnapshotInfo>, StorageError>>,
    describe_directly: Turn<NativeDescribe, Result<Option<NativeSnapshotInfo>, StorageError>>,
    publishing: Publishing<P, C>,
    process: u64,
    sequence: u64,
    publish: Option<Turn<NativePublication, Result<(), StorageError>>>,
    meta: crate::snapshot::SnapshotMeta,
    data: Vec<u8>,
    publish_directly: Turn<NativePublication, Result<(), StorageError>>,
    w: World,
    after: World,
)
    requires
        call_ensures(StateMachineStore::<S, P, C>::load_native_snapshot, (&store,), load),
        call_ensures(StateMachineStore::<S, P, C>::native_snapshot_info, (&store,), describe),
        call_ensures(
            Publishing::<P, C>::publish::<S>,
            (&publishing, &store, process, sequence),
            publish,
        ),
        meta@ == publishing.holds().meta,
        data@ == publishing.holds().data,
        store.native is Some ==> {
            let options = store.native->0.options;
            &&& call_ensures(
                catalog::SnapshotCatalog::load_native,
                (&options.catalog, store.group_id, options.max_snapshot_bytes),
                load_directly,
            )
            &&& call_ensures(
                catalog::SnapshotCatalog::describe_native,
                (&options.catalog, store.group_id, options.max_snapshot_bytes),
                describe_directly,
            )
            &&& call_ensures(
                catalog::SnapshotCatalog::publish_native,
                (
                    &options.catalog,
                    store.group_id,
                    &meta,
                    data,
                    options.max_snapshot_bytes,
                    process,
                    sequence,
                ),
                publish_directly,
            )
        },
    ensures
        store.native is None ==> {
            &&& load matches Turn::Done(Ok(None))
            &&& describe matches Turn::Done(Ok(None))
            &&& publish is None
        },
        store.native is Some ==> {
            &&& NativeLoad::turned(load, w) == NativeLoad::turned(load_directly, w)
            &&& NativeLoad::asked(load, w) == NativeLoad::asked(load_directly, w)
            &&& NativeDescribe::turned(describe, w) == NativeDescribe::turned(describe_directly, w)
            &&& NativeDescribe::asked(describe, w) == NativeDescribe::asked(describe_directly, w)
            &&& publish is Some
            &&& NativePublication::turned(publish->0, w, after) == NativePublication::turned(
                publish_directly,
                w,
                after,
            )
            &&& NativePublication::asked(publish->0, w, after) == NativePublication::asked(
                publish_directly,
                w,
                after,
            )
        },
{
}

/// Only a group with native snapshots can reserve a build.
pub proof fn law_builds_are_reserved_with_native_snapshots<S: StateMachine, P, C>(
    store: StateMachineStore<S, P, C>,
    admitted: Result<(), NativeCaptureError>,
)
    requires
        call_ensures(
            StateMachineStore::<S, P, C>::reserve_native_compaction,
            (&store,),
            admitted,
        ),
    ensures
        admitted is Ok <==> store.native is Some,
        admitted is Err ==> admitted->Err_0 == NativeCaptureError::Refused(
            CaptureRefusal::Unsupported,
        ),
{
}

} // verus!
