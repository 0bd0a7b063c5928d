//! Making a staged candidate the current generation.

use crate::catalog;
use crate::catalog::CurrentRead;
use crate::catalog::GenerationRead;
use crate::catalog::ManifestRead;
use crate::catalog::SnapshotCatalog;
use crate::files;
use crate::files::Answer;
use crate::files::Ask;
use crate::files::AskView;
use crate::files::FileOp;
use crate::files::OpView;
use crate::files::PathView;
use crate::files::Turn;
use crate::files::World;
use crate::log_id;
use crate::snapshot::Active;
use crate::snapshot::ActiveView;
use crate::snapshot::NativeSnapshot;
use crate::snapshot::NativeSnapshotView;
use crate::snapshot::SnapshotMeta;
use crate::snapshot::SnapshotMetaView;
use crate::staging::NativeSnapshotStage;
use crate::staging::NativeStaging;
use crate::staging::StageJob;
use crate::staging::StageView;
use crate::storage;
use crate::storage::ErrorKind;
use crate::storage::StorageError;
use crate::storage::StorageErrorView;
use crate::GroupId;
use vstd::pervasive::unreached;
use vstd::prelude::*;

verus! {

/// Why a candidate may not follow the current snapshot: its cut must not stand before the current
/// one, and at the same cut the membership has to be the same.
pub open spec fn conflict(current: Option<NativeSnapshotView>, meta: SnapshotMetaView) -> Option<
    StorageErrorView,
> {
    match current {
        None => None,
        Some(current) => if log_id::before(meta.last_log_id, current.meta.last_log_id) {
            Some(storage::invalid_data("snapshot activation would regress"@))
        } else if current.meta.last_log_id == meta.last_log_id && current.meta.last_membership
            != meta.last_membership {
            Some(storage::invalid_data("conflicting snapshot membership at same cut"@))
        } else {
            None
        },
    }
}

/// Write the manifest beside the current one, make it durable, and put it in its place at once;
/// then remove the generation that the previous manifest named, where it is another one.
pub open spec fn switch_script(
    native: PathView,
    bytes: Seq<u8>,
    previous: Option<ActiveView>,
    active: ActiveView,
) -> Seq<OpView> {
    let switch = seq![
        OpView::Write(native.push("active.pending"@), bytes),
        OpView::Rename(native.push("active.pending"@), native.push("active.json"@)),
        OpView::SyncDir(native),
    ];
    match previous {
        Some(old) => if old.generation != active.generation {
            switch + seq![
                OpView::RemoveTree(native.push(old.generation)),
                OpView::SyncDir(native),
            ]
        } else {
            switch
        },
        None => switch,
    }
}

/// What the switch comes to.
pub open spec fn switched(
    w: World,
    stage: StageView,
    previous: Option<ActiveView>,
    bytes: Seq<u8>,
) -> Result<(), StorageErrorView> {
    match (w.perform)(switch_script(stage.root, bytes, previous, stage.active)) {
        Some(error) => Err(error),
        None => Ok(()),
    }
}

/// The manifest has to be encoded first.
pub open spec fn encoded(
    w: World,
    stage: StageView,
    previous: Option<ActiveView>,
    encoding: Result<Seq<u8>, Seq<char>>,
) -> Result<(), StorageErrorView> {
    match encoding {
        Err(message) => Err(storage::failure(ErrorKind::Other, message)),
        Ok(bytes) => switched(w, stage, previous, bytes),
    }
}

/// What follows from the manifest so far.
pub open spec fn succeeded(
    w: World,
    stage: StageView,
    previous: Result<Option<ActiveView>, StorageErrorView>,
) -> Result<(), StorageErrorView> {
    match previous {
        Err(error) => Err(error),
        Ok(previous) => encoded(w, stage, previous, (w.encode_manifest)(stage.active)),
    }
}

/// What follows from the snapshot so far.
pub open spec fn compared(
    w: World,
    stage: StageView,
    current: Result<Option<NativeSnapshotView>, StorageErrorView>,
) -> Result<(), StorageErrorView> {
    match current {
        Err(error) => Err(error),
        Ok(current) => match conflict(current, stage.meta) {
            Some(error) => Err(error),
            None => succeeded(w, stage, catalog::manifest_of(w, stage.root)),
        },
    }
}

/// What follows from the candidate, which has to be complete and valid itself.
pub open spec fn validated(
    w: World,
    root: PathView,
    stage: StageView,
    candidate: Result<NativeSnapshotView, StorageErrorView>,
) -> Result<(), StorageErrorView> {
    match candidate {
        Err(error) => Err(error),
        Ok(_) => compared(
            w,
            stage,
            catalog::current_of(w, root, stage.group, stage.max_bytes as int),
        ),
    }
}

/// What is done where the lock is held and the directories are in order.
pub open spec fn checked(w: World, root: PathView, stage: StageView) -> Result<
    (),
    StorageErrorView,
> {
    match catalog::paths_fault(w, root, stage.group) {
        Some(error) => Err(error),
        None => validated(
            w,
            root,
            stage,
            catalog::generation_of(
                w,
                stage.root,
                stage.group,
                stage.max_bytes as int,
                stage.active,
            ),
        ),
    }
}

/// What activation comes to. A candidate of another catalog is refused.
pub open spec fn activated(w: World, root: PathView, stage: StageView) -> Result<
    (),
    StorageErrorView,
> {
    if stage.root != catalog::native_path(root, stage.group) {
        Err(storage::invalid_data("foreign snapshot stage"@))
    } else if !w.locks {
        Err(catalog::poisoned())
    } else {
        checked(w, root, stage)
    }
}

/// What is asked for once the manifest so far is known: the encoded manifest, then the switch.
pub open spec fn succession_asks(
    w: World,
    stage: StageView,
    previous: Result<Option<ActiveView>, StorageErrorView>,
) -> Seq<AskView> {
    match previous {
        Ok(previous) => seq![AskView::EncodeManifest(stage.active)] + match (w.encode_manifest)(
            stage.active,
        ) {
            Ok(bytes) => seq![
                AskView::Perform(switch_script(stage.root, bytes, previous, stage.active)),
            ],
            Err(_) => Seq::empty(),
        },
        Err(_) => Seq::empty(),
    }
}

/// What is asked for once the snapshot so far is known: nothing where it conflicts.
pub open spec fn comparison_asks(
    w: World,
    stage: StageView,
    current: Result<Option<NativeSnapshotView>, StorageErrorView>,
) -> Seq<AskView> {
    match current {
        Ok(current) => if conflict(current, stage.meta) is None {
            catalog::manifest_asks(w, stage.root) + succession_asks(
                w,
                stage,
                catalog::manifest_of(w, stage.root),
            )
        } else {
            Seq::empty()
        },
        Err(_) => Seq::empty(),
    }
}

/// What is asked for once the candidate is known: nothing where it is not valid.
pub open spec fn validation_asks(
    w: World,
    root: PathView,
    stage: StageView,
    candidate: Result<NativeSnapshotView, StorageErrorView>,
) -> Seq<AskView> {
    match candidate {
        Ok(_) => catalog::current_asks(w, root, stage.group, stage.max_bytes as int)
            + comparison_asks(
            w,
            stage,
            catalog::current_of(w, root, stage.group, stage.max_bytes as int),
        ),
        Err(_) => Seq::empty(),
    }
}

/// What is asked for where the lock is held: the directories, then the candidate.
pub open spec fn checking_asks(w: World, root: PathView, stage: StageView) -> Seq<AskView> {
    seq![catalog::paths_ask(root, stage.group)] + if catalog::paths_fault(
        w,
        root,
        stage.group,
    ) is None {
        catalog::generation_asks(w, stage.root, stage.group, stage.max_bytes as int, stage.active)
            + validation_asks(
            w,
            root,
            stage,
            catalog::generation_of(
                w,
                stage.root,
                stage.group,
                stage.max_bytes as int,
                stage.active,
            ),
        )
    } else {
        Seq::empty()
    }
}

/// What is asked for once the candidate is known to be one of this catalog: the lock first, and
/// nothing without it.
pub open spec fn locking_asks(w: World, root: PathView, stage: StageView) -> Seq<AskView> {
    seq![AskView::Lock] + if w.locks {
        checking_asks(w, root, stage)
    } else {
        Seq::empty()
    }
}

/// What is asked for to activate a candidate: nothing for one of another catalog.
pub open spec fn activation_asks(w: World, root: PathView, stage: StageView) -> Seq<AskView> {
    if stage.root == catalog::native_path(root, stage.group) {
        locking_asks(w, root, stage)
    } else {
        Seq::empty()
    }
}

/// What a result without a value says.
pub open spec fn unit_view(result: Result<(), StorageError>) -> Result<(), StorageErrorView> {
    match result {
        Ok(()) => Ok(()),
        Err(error) => Err(error@),
    }
}

/// Activating a staged candidate.
pub struct NativeActivation {
    root: Vec<String>,
    stage: NativeSnapshotStage,
    at: ActivationPoint,
}

enum ActivationPoint {
    Lock,
    Paths,
    Candidate(GenerationRead),
    Current(CurrentRead),
    Previous(ManifestRead),
    Encode(Option<Active>),
    Switch(Ghost<Seq<OpView>>),
}

impl NativeActivation {
    spec fn root_path(self) -> PathView {
        files::path_view(self.root@)
    }

    /// What it waits for.
    pub closed spec fn pending(self) -> AskView {
        match self.at {
            ActivationPoint::Lock => AskView::Lock,
            ActivationPoint::Paths => catalog::paths_ask(self.root_path(), self.stage@.group),
            ActivationPoint::Candidate(read) => read.pending(),
            ActivationPoint::Current(read) => read.pending(),
            ActivationPoint::Previous(read) => read.pending(),
            ActivationPoint::Encode(_) => AskView::EncodeManifest(self.stage@.active),
            ActivationPoint::Switch(script) => AskView::Perform(script@),
        }
    }

    /// How many answers it waits for at most.
    pub closed spec fn rank(self) -> nat {
        match self.at {
            ActivationPoint::Lock => 18,
            ActivationPoint::Paths => 17,
            ActivationPoint::Candidate(read) => 12 + read.rank(),
            ActivationPoint::Current(read) => 5 + read.rank(),
            ActivationPoint::Previous(read) => 2 + read.rank(),
            ActivationPoint::Encode(_) => 2,
            ActivationPoint::Switch(_) => 1,
        }
    }

    /// What it comes to.
    pub closed spec fn outcome(self, w: World) -> Result<(), StorageErrorView> {
        let stage = self.stage@;
        match self.at {
            ActivationPoint::Lock => if w.locks {
                checked(w, self.root_path(), stage)
            } else {
                Err(catalog::poisoned())
            },
            ActivationPoint::Paths => checked(w, self.root_path(), stage),
            ActivationPoint::Candidate(read) => validated(
                w,
                self.root_path(),
                stage,
                read.outcome(w),
            ),
            ActivationPoint::Current(read) => compared(w, stage, read.outcome(w)),
            ActivationPoint::Previous(read) => succeeded(w, stage, read.outcome(w)),
            ActivationPoint::Encode(previous) => encoded(
                w,
                stage,
                catalog::option_view(previous),
                (w.encode_manifest)(stage.active),
            ),
            ActivationPoint::Switch(script) => match (w.perform)(script@) {
                Some(error) => Err(error),
                None => Ok(()),
            },
        }
    }

    /// What it asks for from here on, what it waits for first.
    pub closed spec fn asks(self, w: World) -> Seq<AskView> {
        let stage = self.stage@;
        match self.at {
            ActivationPoint::Lock => locking_asks(w, self.root_path(), stage),
            ActivationPoint::Paths => checking_asks(w, self.root_path(), stage),
            ActivationPoint::Candidate(read) => read.asks(w) + validation_asks(
                w,
                self.root_path(),
                stage,
                read.outcome(w),
            ),
            ActivationPoint::Current(read) => read.asks(w) + comparison_asks(
                w,
                stage,
                read.outcome(w),
            ),
            ActivationPoint::Previous(read) => read.asks(w) + succession_asks(
                w,
                stage,
                read.outcome(w),
            ),
            ActivationPoint::Encode(previous) => succession_asks(
                w,
                stage,
                Ok(catalog::option_view(previous)),
            ),
            ActivationPoint::Switch(script) => seq![AskView::Perform(script@)],
        }
    }

    /// What a turn of it comes to.
    pub open spec fn turned(turn: Turn<NativeActivation, Result<(), StorageError>>, w: World) -> Result<
        (),
        StorageErrorView,
    > {
        match turn {
            Turn::Ask { state, .. } => state.outcome(w),
            Turn::Done(result) => unit_view(result),
        }
    }

    /// What is asked for from a turn on.
    pub open spec fn asked(turn: Turn<NativeActivation, Result<(), StorageError>>, w: World) -> Seq<
        AskView,
    > {
        match turn {
            Turn::Ask { state, .. } => state.asks(w),
            Turn::Done(_) => Seq::empty(),
        }
    }

    /// A turn asks for what its state waits for, and at most `rank` answers follow.
    pub open spec fn proceeds(
        turn: Turn<NativeActivation, Result<(), StorageError>>,
        rank: nat,
    ) -> bool {
        turn matches Turn::Ask { state, ask } ==> ask@ == state.pending() && state.rank() <= rank
    }

    fn after_previous(
        root: Vec<String>,
        stage: NativeSnapshotStage,
        turn: Turn<ManifestRead, Result<Option<Active>, StorageError>>,
    ) -> (next: Turn<NativeActivation, Result<(), StorageError>>)
        requires
            stage@.root == catalog::native_path(files::path_view(root@), stage@.group),
        ensures
            forall|rank: nat| #[trigger]
                ManifestRead::proceeds(turn, rank) ==> Self::proceeds(next, 2 + rank),
            forall|w: World| #[trigger]
                Self::turned(next, w) == succeeded(w, stage@, ManifestRead::turned(turn, w)),
            forall|w: World| #[trigger]
                Self::asked(next, w) == ManifestRead::asked(turn, w) + succession_asks(
                    w,
                    stage@,
                    ManifestRead::turned(turn, w),
                ),
    {
        match turn {
            Turn::Ask { state, ask } => Turn::Ask {
                state: NativeActivation { root, stage, at: ActivationPoint::Previous(state) },
                ask,
            },
            Turn::Done(Err(error)) => Turn::Done(Err(error)),
            Turn::Done(Ok(previous)) => {
                let active = stage.active().clone();
                Turn::Ask {
                    state: NativeActivation { root, stage, at: ActivationPoint::Encode(previous) },
                    ask: Ask::EncodeManifest { active },
                }
            },
        }
    }

    fn after_current(
        root: Vec<String>,
        stage: NativeSnapshotStage,
        turn: Turn<CurrentRead, Result<Option<NativeSnapshot>, StorageError>>,
    ) -> (next: Turn<NativeActivation, Result<(), StorageError>>)
        requires
            stage@.root == catalog::native_path(files::path_view(root@), stage@.group),
        ensures
            forall|rank: nat| #[trigger]
                CurrentRead::proceeds(turn, rank) ==> Self::proceeds(next, 5 + rank),
            forall|w: World| #[trigger]
                Self::turned(next, w) == compared(w, stage@, CurrentRead::turned(turn, w)),
            forall|w: World| #[trigger]
                Self::asked(next, w) == CurrentRead::asked(turn, w) + comparison_asks(
                    w,
                    stage@,
                    CurrentRead::turned(turn, w),
                ),
    {
        let current = match turn {
            Turn::Ask { state, ask } => {
                return Turn::Ask {
                    state: NativeActivation { root, stage, at: ActivationPoint::Current(state) },
                    ask,
                };
            },
            Turn::Done(Err(error)) => {
                return Turn::Done(Err(error));
            },
            Turn::Done(Ok(current)) => current,
        };
        if let Some(current) = &current {
            if log_id::is_before(stage.meta().last_log_id, current.meta.last_log_id) {
                return Turn::Done(Err(storage::invalid("snapshot activation would regress")));
            }
            if log_id::same_position(current.meta.last_log_id, stage.meta().last_log_id) {
                // A different snapshot id is normal at the same cut, but another membership is not.
                if !current.meta.last_membership.same_as(&stage.meta().last_membership) {
                    return Turn::Done(
                        Err(storage::invalid("conflicting snapshot membership at same cut")),
                    );
                }
            }
        }
        let previous = ManifestRead::again(stage.group(), files::copy_path(&root));
        assert(ManifestRead::proceeds(previous, 2));
        Self::after_previous(root, stage, previous)
    }

    fn after_candidate(
        root: Vec<String>,
        stage: NativeSnapshotStage,
        turn: Turn<GenerationRead, Result<NativeSnapshot, StorageError>>,
    ) -> (next: Turn<NativeActivation, Result<(), StorageError>>)
        requires
            stage@.root == catalog::native_path(files::path_view(root@), stage@.group),
        ensures
            forall|rank: nat| #[trigger]
                GenerationRead::proceeds(turn, rank) ==> Self::proceeds(next, 12 + rank),
            forall|w: World| #[trigger]
                Self::turned(next, w) == validated(
                    w,
                    files::path_view(root@),
                    stage@,
                    GenerationRead::turned(turn, w),
                ),
            forall|w: World| #[trigger]
                Self::asked(next, w) == GenerationRead::asked(turn, w) + validation_asks(
                    w,
                    files::path_view(root@),
                    stage@,
                    GenerationRead::turned(turn, w),
                ),
    {
        match turn {
            Turn::Ask { state, ask } => Turn::Ask {
                state: NativeActivation { root, stage, at: ActivationPoint::Candidate(state) },
                ask,
            },
            Turn::Done(Err(error)) => Turn::Done(Err(error)),
            Turn::Done(Ok(_)) => {
                let current = CurrentRead::begin(
                    stage.group(),
                    stage.max_bytes(),
                    files::copy_path(&root),
                );
                assert(CurrentRead::proceeds(current, 7));
                Self::after_current(root, stage, current)
            },
        }
    }

    fn switch(stage: &NativeSnapshotStage, previous: Option<Active>, bytes: Vec<u8>) -> (script: Vec<
        FileOp,
    >)
        ensures
            files::script_view(script@) == switch_script(
                stage@.root,
                bytes@,
                catalog::option_view(previous),
                stage@.active,
            ),
    {
        let pending = files::child(stage.root(), "active.pending");
        let mut script = vec![
            FileOp::Write { path: files::copy_path(&pending), bytes },
            FileOp::Rename { from: pending, to: files::child(stage.root(), "active.json") },
            FileOp::SyncDir { path: files::copy_path(stage.root()) },
        ];
        if let Some(previous) = &previous {
            if previous.generation != stage.active().generation {
                // Readers share activation's lock, so nobody reads the previous generation now.
                // Other staged generations are left alone.
                script.push(
                    FileOp::RemoveTree {
                        path: files::child(stage.root(), previous.generation.as_str()),
                    },
                );
                script.push(FileOp::SyncDir { path: files::copy_path(stage.root()) });
            }
        }
        assert(files::script_view(script@) =~= switch_script(
            stage@.root,
            bytes@,
            catalog::option_view(previous),
            stage@.active,
        ));
        script
    }

    spec fn at_home(self) -> bool {
        self.stage@.root == catalog::native_path(self.root_path(), self.stage@.group)
    }

    #[verifier::type_invariant]
    spec fn inv(self) -> bool {
        self.at_home()
    }

    /// Goes on with an answer.
    pub fn step(self, answer: Answer) -> (turn: Turn<NativeActivation, Result<(), StorageError>>)
        requires
            files::fits(self.pending(), answer@),
        ensures
            self.rank() > 0,
            Self::proceeds(turn, (self.rank() - 1) as nat),
            forall|w: World| #[trigger]
                w.answers(self.pending(), answer@) ==> {
                    &&& Self::turned(turn, w) == self.outcome(w)
                    &&& self.asks(w) == seq![self.pending()] + Self::asked(turn, w)
                },
    {
        proof {
            use_type_invariant(&self);
        }
        let NativeActivation { root, stage, at } = self;
        match (at, answer) {
            (ActivationPoint::Lock, Answer::Locked(locked)) => {
                if !locked {
                    return Turn::Done(Err(storage::invalid("snapshot activation poisoned")));
                }
                let ask = catalog::ask_paths(&root, stage.group());
                Turn::Ask {
                    state: NativeActivation { root, stage, at: ActivationPoint::Paths },
                    ask,
                }
            },
            (
                ActivationPoint::Paths,
                Answer::Kinds { root: root_kind, group: group_kind, native: native_kind },
            ) => match catalog::validate_native_paths(root_kind, group_kind, native_kind) {
                Err(error) => Turn::Done(Err(error)),
                Ok(()) => {
                    let candidate = GenerationRead::begin(
                        stage.group(),
                        stage.max_bytes(),
                        files::copy_path(stage.root()),
                        stage.active().clone(),
                    );
                    assert(GenerationRead::proceeds(candidate, 4));
                    Self::after_candidate(root, stage, candidate)
                },
            },
            (ActivationPoint::Candidate(read), answer) => {
                let ghost rank = read.rank();
                let turn = read.step(answer);
                assert(GenerationRead::proceeds(turn, (rank - 1) as nat));
                Self::after_candidate(root, stage, turn)
            },
            (ActivationPoint::Current(read), answer) => {
                let ghost rank = read.rank();
                let turn = read.step(answer);
                assert(CurrentRead::proceeds(turn, (rank - 1) as nat));
                Self::after_current(root, stage, turn)
            },
            (ActivationPoint::Previous(read), answer) => {
                let ghost rank = read.rank();
                let turn = read.step(answer);
                assert(ManifestRead::proceeds(turn, (rank - 1) as nat));
                Self::after_previous(root, stage, turn)
            },
            (ActivationPoint::Encode(previous), Answer::Encoded(encoding)) => match encoding {
                Err(message) => Turn::Done(Err(storage::other(message))),
                Ok(bytes) => {
                    let script = Self::switch(&stage, previous, bytes);
                    Turn::Ask {
                        state: NativeActivation {
                            root,
                            stage,
                            at: ActivationPoint::Switch(Ghost(files::script_view(script@))),
                        },
                        ask: Ask::Perform { script },
                    }
                },
            },
            (ActivationPoint::Switch(_), Answer::Performed(failed)) => match failed {
                None => Turn::Done(Ok(())),
                Some(error) => Turn::Done(Err(error)),
            },
            _ => unreached(),
        }
    }
}

/// Staging a snapshot and activating it.
pub struct NativePublication {
    at: PublicationPoint,
}

enum PublicationPoint {
    Staging { root: Vec<String>, staging: NativeStaging },
    Activation(NativeActivation),
}

/// What activation of a staged candidate comes to.
pub open spec fn activated_stage(
    w: World,
    root: PathView,
    staged: Result<StageView, StorageErrorView>,
) -> Result<(), StorageErrorView> {
    match staged {
        Err(error) => Err(error),
        Ok(stage) => activated(w, root, stage),
    }
}

/// What is asked for to activate a staged candidate.
pub open spec fn staged_asks(
    w: World,
    root: PathView,
    staged: Result<StageView, StorageErrorView>,
) -> Seq<AskView> {
    match staged {
        Ok(stage) => activation_asks(w, root, stage),
        Err(_) => Seq::empty(),
    }
}

impl NativePublication {
    /// What it waits for.
    pub closed spec fn pending(self) -> AskView {
        match self.at {
            PublicationPoint::Staging { staging, .. } => staging.pending(),
            PublicationPoint::Activation(activation) => activation.pending(),
        }
    }

    /// How many answers it waits for at most.
    pub closed spec fn rank(self) -> nat {
        match self.at {
            PublicationPoint::Staging { staging, .. } => 18 + staging.rank(),
            PublicationPoint::Activation(activation) => activation.rank(),
        }
    }

    /// Whether the candidate is still being staged.
    pub closed spec fn is_staging(self) -> bool {
        self.at is Staging
    }

    /// What it comes to where the candidate is staged in one world and activated in another: the
    /// files are no longer the same.
    pub closed spec fn outcome(self, before: World, after: World) -> Result<(), StorageErrorView> {
        match self.at {
            PublicationPoint::Staging { root, staging } => activated_stage(
                after,
                files::path_view(root@),
                staging.outcome(before),
            ),
            PublicationPoint::Activation(activation) => activation.outcome(after),
        }
    }

    /// What it asks for from here on, what it waits for first.
    pub closed spec fn asks(self, before: World, after: World) -> Seq<AskView> {
        match self.at {
            PublicationPoint::Staging { root, staging } => staging.asks(before) + staged_asks(
                after,
                files::path_view(root@),
                staging.outcome(before),
            ),
            PublicationPoint::Activation(activation) => activation.asks(after),
        }
    }

    /// What a turn of it comes to.
    pub open spec fn turned(
        turn: Turn<NativePublication, Result<(), StorageError>>,
        before: World,
        after: World,
    ) -> Result<(), StorageErrorView> {
        match turn {
            Turn::Ask { state, .. } => state.outcome(before, after),
            Turn::Done(result) => unit_view(result),
        }
    }

    /// What is asked for from a turn on.
    pub open spec fn asked(
        turn: Turn<NativePublication, Result<(), StorageError>>,
        before: World,
        after: World,
    ) -> Seq<AskView> {
        match turn {
            Turn::Ask { state, .. } => state.asks(before, after),
            Turn::Done(_) => Seq::empty(),
        }
    }

    /// A turn asks for what its state waits for, and at most `rank` answers follow.
    pub open spec fn proceeds(
        turn: Turn<NativePublication, Result<(), StorageError>>,
        rank: nat,
    ) -> bool {
        turn matches Turn::Ask { state, ask } ==> ask@ == state.pending() && state.rank() <= rank
    }

    fn after_activation(turn: Turn<NativeActivation, Result<(), StorageError>>) -> (next: Turn<
        NativePublication,
        Result<(), StorageError>,
    >)
        ensures
            forall|rank: nat| #[trigger]
                NativeActivation::proceeds(turn, rank) ==> Self::proceeds(next, rank),
            forall|before: World, after: World| #[trigger]
                Self::turned(next, before, after) == NativeActivation::turned(turn, after),
            forall|before: World, after: World| #[trigger]
                Self::asked(next, before, after) == NativeActivation::asked(turn, after),
    {
        match turn {
            Turn::Ask { state, ask } => Turn::Ask {
                state: NativePublication { at: PublicationPoint::Activation(state) },
                ask,
            },
            Turn::Done(result) => Turn::Done(result),
        }
    }

    pub(crate) fn after_staging(
        catalog: &SnapshotCatalog,
        turn: Turn<NativeStaging, Result<NativeSnapshotStage, StorageError>>,
    ) -> (next: Turn<NativePublication, Result<(), StorageError>>)
        ensures
            forall|rank: nat| #[trigger]
                NativeStaging::proceeds(turn, rank) ==> Self::proceeds(next, 18 + rank),
            forall|before: World, after: World| #[trigger]
                Self::turned(next, before, after) == activated_stage(
                    after,
                    catalog.root_path(),
                    NativeStaging::turned(turn, before),
                ),
            forall|before: World, after: World| #[trigger]
                Self::asked(next, before, after) == NativeStaging::asked(turn, before)
                    + staged_asks(
                    after,
                    catalog.root_path(),
                    NativeStaging::turned(turn, before),
                ),
    {
        match turn {
            Turn::Ask { state, ask } => Turn::Ask {
                state: NativePublication {
                    at: PublicationPoint::Staging {
                        root: files::copy_path(&catalog.root),
                        staging: state,
                    },
                },
                ask,
            },
            Turn::Done(Err(error)) => Turn::Done(Err(error)),
            Turn::Done(Ok(stage)) => {
                let activation = catalog.activate_native(stage);
                assert(NativeActivation::proceeds(activation, 18));
                Self::after_activation(activation)
            },
        }
    }

    /// Goes on with an answer.
    pub fn step(self, answer: Answer) -> (turn: Turn<NativePublication, Result<(), StorageError>>)
        requires
            files::fits(self.pending(), answer@),
        ensures
            self.rank() > 0,
            Self::proceeds(turn, (self.rank() - 1) as nat),
            forall|before: World, after: World|
                #![trigger Self::turned(turn, before, after)]
                (if self.is_staging() {
                    before.answers(self.pending(), answer@)
                } else {
                    after.answers(self.pending(), answer@)
                }) ==> {
                    &&& Self::turned(turn, before, after) == self.outcome(before, after)
                    &&& self.asks(before, after) == seq![self.pending()] + Self::asked(
                        turn,
                        before,
                        after,
                    )
                },
    {
        match self.at {
            PublicationPoint::Staging { root, staging } => {
                let catalog = SnapshotCatalog { root, keep: 0 };
                let ghost rank = staging.rank();
                let turn = staging.step(answer);
                assert(NativeStaging::proceeds(turn, (rank - 1) as nat));
                Self::after_staging(&catalog, turn)
            },
            PublicationPoint::Activation(activation) => {
                let ghost rank = activation.rank();
                let turn = activation.step(answer);
                assert(NativeActivation::proceeds(turn, (rank - 1) as nat));
                Self::after_activation(turn)
            },
        }
    }
}

impl SnapshotCatalog {
    /// Makes a staged candidate the current generation, unless it would regress or conflict.
    pub fn activate_native(&self, staged: NativeSnapshotStage) -> (turn: Turn<
        NativeActivation,
        Result<(), StorageError>,
    >)
        ensures
            NativeActivation::proceeds(turn, 18),
            forall|w: World| #[trigger]
                NativeActivation::turned(turn, w) == activated(w, self.root_path(), staged@),
            forall|w: World| #[trigger]
                NativeActivation::asked(turn, w) == activation_asks(w, self.root_path(), staged@),
    {
        if !files::same_path(staged.root(), &self.native_root(staged.group())) {
            return Turn::Done(Err(storage::invalid("foreign snapshot stage")));
        }
        Turn::Ask {
            state: NativeActivation {
                root: files::copy_path(&self.root),
                stage: staged,
                at: ActivationPoint::Lock,
            },
            ask: Ask::Lock,
        }
    }

    /// Stages a snapshot and makes it the current generation.
    pub fn publish_native(
        &self,
        group: GroupId,
        meta: &SnapshotMeta,
        data: Vec<u8>,
        max_bytes: usize,
        process: u64,
        sequence: u64,
    ) -> (turn: Turn<NativePublication, Result<(), StorageError>>)
        ensures
            NativePublication::proceeds(turn, 26),
            forall|before: World, after: World| #[trigger]
                NativePublication::turned(turn, before, after) == activated_stage(
                    after,
                    self.root_path(),
                    (StageJob {
                        root: self.root_path(),
                        group,
                        meta: meta@,
                        data: data@,
                        max_bytes,
                        stage_name: crate::staging::stage_name(process, sequence),
                    }).staged(before),
                ),
            forall|before: World, after: World| #[trigger]
                NativePublication::asked(turn, before, after) == {
                    let job = StageJob {
                        root: self.root_path(),
                        group,
                        meta: meta@,
                        data: data@,
                        max_bytes,
                        stage_name: crate::staging::stage_name(process, sequence),
                    };
                    job.stage_asks(before) + staged_asks(
                        after,
                        self.root_path(),
                        job.staged(before),
                    )
                },
    {
        let turn = self.stage_native(group, meta, data, max_bytes, process, sequence);
        assert(NativeStaging::proceeds(turn, 8));
        NativePublication::after_staging(self, turn)
    }
}

} // verus!
