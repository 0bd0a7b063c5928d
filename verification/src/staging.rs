//! Staging a snapshot: a fully synced generation that is not yet the current one.

use crate::catalog;
use crate::catalog::SnapshotCatalog;
use crate::checksum;
use crate::collections;
use crate::files;
use crate::files::Answer;
use crate::files::Ask;
use crate::files::AskView;
use crate::files::FileOp;
use crate::files::OpView;
use crate::files::PathView;
use crate::files::Turn;
use crate::files::World;
use crate::snapshot;
use crate::snapshot::Active;
use crate::snapshot::ActiveView;
use crate::snapshot::NativeMeta;
use crate::snapshot::NativeMetaView;
use crate::snapshot::SnapshotMeta;
use crate::snapshot::SnapshotMetaView;
use crate::snapshot::META_LIMIT;
use crate::snapshot::VERSION;
use crate::storage;
use crate::storage::ErrorKind;
use crate::storage::StorageError;
use crate::storage::StorageErrorView;
use crate::text;
use crate::GroupId;
use vstd::pervasive::unreached;
use vstd::prelude::*;
use vstd::string::*;

verus! {

/// What a staged candidate is.
#[verifier::ext_equal]
pub struct StageView {
    pub group: GroupId,
    pub root: PathView,
    pub active: ActiveView,
    pub meta: SnapshotMetaView,
    pub max_bytes: usize,
}

/// A fully synced candidate which has not yet become recovery authority.
/// Dropping this value leaves an inert generation; it never activates implicitly.
pub struct NativeSnapshotStage {
    group: GroupId,
    root: Vec<String>,
    active: Active,
    meta: SnapshotMeta,
    max_bytes: usize,
}

impl View for NativeSnapshotStage {
    type V = StageView;

    closed spec fn view(&self) -> StageView {
        StageView {
            group: self.group,
            root: files::path_view(self.root@),
            active: self.active@,
            meta: self.meta@,
            max_bytes: self.max_bytes,
        }
    }
}

impl NativeSnapshotStage {
    pub(crate) fn group(&self) -> (group: GroupId)
        ensures
            group == self@.group,
    {
        self.group
    }

    pub(crate) fn root(&self) -> (root: &Vec<String>)
        ensures
            files::path_view(root@) == self@.root,
    {
        &self.root
    }

    pub(crate) fn active(&self) -> (active: &Active)
        ensures
            active@ == self@.active,
    {
        &self.active
    }

    pub(crate) fn meta(&self) -> (meta: &SnapshotMeta)
        ensures
            meta@ == self@.meta,
    {
        &self.meta
    }

    pub(crate) fn max_bytes(&self) -> (max_bytes: usize)
        ensures
            max_bytes == self@.max_bytes,
    {
        self.max_bytes
    }
}

/// The name of the directory in which a candidate is prepared: unique among the processes that run
/// and the candidates of each.
pub open spec fn stage_name(process: u64, sequence: u64) -> Seq<char> {
    ".stage-"@ + text::decimal(process as nat) + "-"@ + text::decimal(sequence as nat)
}

/// What is staged, and where.
pub struct StageJob {
    pub root: PathView,
    pub group: GroupId,
    pub meta: SnapshotMetaView,
    pub data: Seq<u8>,
    pub max_bytes: usize,
    pub stage_name: Seq<char>,
}

impl StageJob {
    /// The directory of the group's generations.
    pub open spec fn native(self) -> PathView {
        catalog::native_path(self.root, self.group)
    }

    /// The directory in which the candidate is prepared.
    pub open spec fn stage_dir(self) -> PathView {
        self.native().push(self.stage_name)
    }

    /// The directory of the generation whose metadata is `bytes`: it is named by their checksum.
    pub open spec fn final_dir(self, bytes: Seq<u8>) -> PathView {
        self.native().push(checksum::checksum(bytes))
    }

    /// The metadata of the image.
    pub open spec fn metadata(self) -> NativeMetaView {
        NativeMetaView {
            version: VERSION,
            group: self.group,
            meta: self.meta,
            size: self.data.len() as usize,
            data_sha256: checksum::checksum(self.data),
        }
    }

    /// The manifest that would make the candidate the current generation.
    pub open spec fn active(self, bytes: Seq<u8>) -> ActiveView {
        ActiveView {
            version: VERSION,
            group: self.group,
            generation: checksum::checksum(bytes),
            metadata_sha256: checksum::checksum(bytes),
        }
    }

    /// The staged candidate.
    pub open spec fn stage(self, bytes: Seq<u8>) -> StageView {
        StageView {
            group: self.group,
            root: self.native(),
            active: self.active(bytes),
            meta: self.meta,
            max_bytes: self.max_bytes,
        }
    }

    /// Create the directories and make each of them durable, then write the image and the metadata
    /// and make them durable, in a directory that no reader looks at.
    pub open spec fn preparation(self, bytes: Seq<u8>) -> Seq<OpView> {
        seq![
            OpView::CreateDirAll(self.native()),
            OpView::SyncDir(self.native()),
            OpView::SyncDir(catalog::group_path(self.root, self.group)),
            OpView::SyncDir(self.root),
            OpView::SyncParentOf(self.root),
            OpView::CreateDir(self.stage_dir()),
            OpView::Write(self.stage_dir().push("data.bin"@), self.data),
            OpView::Write(self.stage_dir().push("native-meta.json"@), bytes),
            OpView::SyncDir(self.stage_dir()),
        ]
    }

    /// Put the candidate at its final place, or drop it where its generation exists already.
    pub open spec fn publication(self, bytes: Seq<u8>, existing: bool) -> Seq<OpView> {
        seq![
            if existing {
                OpView::RemoveTree(self.stage_dir())
            } else {
                OpView::Rename(self.stage_dir(), self.final_dir(bytes))
            },
            OpView::SyncDir(self.native()),
        ]
    }

    /// What publication comes to.
    pub open spec fn published(self, w: World, bytes: Seq<u8>, existing: bool) -> Result<
        StageView,
        StorageErrorView,
    > {
        match (w.perform)(self.publication(bytes, existing)) {
            Some(error) => Err(error),
            None => Ok(self.stage(bytes)),
        }
    }

    /// An existing generation is never overwritten: its image has to be the same.
    pub open spec fn data_compared(self, w: World, bytes: Seq<u8>) -> Result<
        StageView,
        StorageErrorView,
    > {
        match files::bounded(
            (w.file)(self.final_dir(bytes).push("data.bin"@), self.max_bytes as int),
            self.max_bytes as int,
        ) {
            Err(error) => Err(error),
            Ok(data) => if data != self.data {
                Err(storage::invalid_data("existing snapshot generation is corrupt"@))
            } else {
                self.published(w, bytes, true)
            },
        }
    }

    /// And so has its metadata.
    pub open spec fn metadata_compared(self, w: World, bytes: Seq<u8>) -> Result<
        StageView,
        StorageErrorView,
    > {
        match files::bounded(
            (w.file)(self.final_dir(bytes).push("native-meta.json"@), META_LIMIT as int),
            META_LIMIT as int,
        ) {
            Err(error) => Err(error),
            Ok(found) => if found != bytes {
                Err(storage::invalid_data("existing snapshot generation is corrupt"@))
            } else {
                self.data_compared(w, bytes)
            },
        }
    }

    /// What is done where the lock is held.
    pub open spec fn placed(self, w: World, bytes: Seq<u8>) -> Result<StageView, StorageErrorView> {
        if (w.present)(self.final_dir(bytes)) {
            self.metadata_compared(w, bytes)
        } else {
            self.published(w, bytes, false)
        }
    }

    /// Placing the candidate needs the activation lock.
    pub open spec fn locked(self, w: World, bytes: Seq<u8>) -> Result<StageView, StorageErrorView> {
        if w.locks {
            self.placed(w, bytes)
        } else {
            Err(catalog::poisoned())
        }
    }

    /// The candidate is prepared first, without the lock.
    pub open spec fn prepared(self, w: World, bytes: Seq<u8>) -> Result<
        StageView,
        StorageErrorView,
    > {
        match (w.perform)(self.preparation(bytes)) {
            Some(error) => Err(error),
            None => self.locked(w, bytes),
        }
    }

    /// The catalog's directories are checked before anything is written.
    pub open spec fn checked(self, w: World, bytes: Seq<u8>) -> Result<StageView, StorageErrorView> {
        match catalog::paths_fault(w, self.root, self.group) {
            Some(error) => Err(error),
            None => self.prepared(w, bytes),
        }
    }

    /// The encoded metadata must not be too large.
    pub open spec fn encoded(self, w: World, encoding: Result<Seq<u8>, Seq<char>>) -> Result<
        StageView,
        StorageErrorView,
    > {
        match encoding {
            Err(message) => Err(storage::failure(ErrorKind::Other, message)),
            Ok(bytes) => if bytes.len() > META_LIMIT {
                Err(storage::invalid_data("snapshot metadata exceeds bound"@))
            } else {
                self.checked(w, bytes)
            },
        }
    }

    /// What is wrong with the job itself, if anything.
    pub open spec fn fault(self) -> Option<StorageErrorView> {
        if !snapshot::is_valid_cap(self.max_bytes as int) {
            Some(storage::failure(ErrorKind::InvalidInput, "invalid snapshot cap"@))
        } else if snapshot::meta_fault(self.meta) is Some {
            snapshot::meta_fault(self.meta)
        } else if self.data.len() > self.max_bytes {
            Some(storage::failure(ErrorKind::InvalidInput, "snapshot capture limit"@))
        } else {
            None
        }
    }

    /// What staging comes to.
    pub open spec fn staged(self, w: World) -> Result<StageView, StorageErrorView> {
        match self.fault() {
            Some(error) => Err(error),
            None => self.encoded(w, (w.encode_metadata)(self.metadata())),
        }
    }

    /// What is asked for to publish the candidate: one script, and nothing after it.
    pub open spec fn publication_asks(self, bytes: Seq<u8>, existing: bool) -> Seq<AskView> {
        seq![AskView::Perform(self.publication(bytes, existing))]
    }

    /// What is asked for once the metadata of an existing generation is known to be the same.
    pub open spec fn data_asks(self, w: World, bytes: Seq<u8>) -> Seq<AskView> {
        let path = self.final_dir(bytes).push("data.bin"@);
        seq![AskView::File(path, self.max_bytes as int)] + match files::bounded(
            (w.file)(path, self.max_bytes as int),
            self.max_bytes as int,
        ) {
            Ok(data) => if data == self.data {
                self.publication_asks(bytes, true)
            } else {
                Seq::empty()
            },
            Err(_) => Seq::empty(),
        }
    }

    /// What is asked for where the generation exists already.
    pub open spec fn existing_asks(self, w: World, bytes: Seq<u8>) -> Seq<AskView> {
        let path = self.final_dir(bytes).push("native-meta.json"@);
        seq![AskView::File(path, META_LIMIT as int)] + match files::bounded(
            (w.file)(path, META_LIMIT as int),
            META_LIMIT as int,
        ) {
            Ok(found) => if found == bytes {
                self.data_asks(w, bytes)
            } else {
                Seq::empty()
            },
            Err(_) => Seq::empty(),
        }
    }

    /// What is asked for where the lock is held.
    pub open spec fn placing_asks(self, w: World, bytes: Seq<u8>) -> Seq<AskView> {
        seq![AskView::Present(self.final_dir(bytes))] + if (w.present)(self.final_dir(bytes)) {
            self.existing_asks(w, bytes)
        } else {
            self.publication_asks(bytes, false)
        }
    }

    /// What is asked for once the candidate is prepared: the lock first, and nothing without it.
    pub open spec fn locking_asks(self, w: World, bytes: Seq<u8>) -> Seq<AskView> {
        seq![AskView::Lock] + if w.locks {
            self.placing_asks(w, bytes)
        } else {
            Seq::empty()
        }
    }

    /// What is asked for to prepare the candidate and to place it.
    pub open spec fn preparation_asks(self, w: World, bytes: Seq<u8>) -> Seq<AskView> {
        seq![AskView::Perform(self.preparation(bytes))] + if (w.perform)(self.preparation(bytes)) is None {
            self.locking_asks(w, bytes)
        } else {
            Seq::empty()
        }
    }

    /// What is asked for once the metadata is encoded: the directories, before anything is written.
    pub open spec fn checking_asks(self, w: World, bytes: Seq<u8>) -> Seq<AskView> {
        seq![catalog::paths_ask(self.root, self.group)] + if catalog::paths_fault(
            w,
            self.root,
            self.group,
        ) is None {
            self.preparation_asks(w, bytes)
        } else {
            Seq::empty()
        }
    }

    /// What is asked for to encode the metadata and to go on.
    pub open spec fn encoding_asks(self, w: World) -> Seq<AskView> {
        seq![AskView::EncodeMetadata(self.metadata())] + match (w.encode_metadata)(self.metadata()) {
            Ok(bytes) => if bytes.len() <= META_LIMIT {
                self.checking_asks(w, bytes)
            } else {
                Seq::empty()
            },
            Err(_) => Seq::empty(),
        }
    }

    /// What is asked for to stage the candidate: nothing where the job itself is at fault.
    pub open spec fn stage_asks(self, w: World) -> Seq<AskView> {
        if self.fault() is None {
            self.encoding_asks(w)
        } else {
            Seq::empty()
        }
    }
}

/// Staging a candidate.
pub struct NativeStaging {
    group: GroupId,
    meta: SnapshotMeta,
    data: Vec<u8>,
    max_bytes: usize,
    root: Vec<String>,
    stage_name: String,
    /// The encoded metadata, once it is known.
    bytes: Vec<u8>,
    at: StagePoint,
}

#[derive(Clone, Copy)]
enum StagePoint {
    Encode,
    Paths,
    Prepare,
    Lock,
    Present,
    CompareMetadata,
    CompareData,
    Publish(bool),
}

impl NativeStaging {
    spec fn job(self) -> StageJob {
        StageJob {
            root: files::path_view(self.root@),
            group: self.group,
            meta: self.meta@,
            data: self.data@,
            max_bytes: self.max_bytes,
            stage_name: self.stage_name@,
        }
    }

    /// What it waits for.
    pub closed spec fn pending(self) -> AskView {
        let job = self.job();
        let final_dir = job.final_dir(self.bytes@);
        match self.at {
            StagePoint::Encode => AskView::EncodeMetadata(job.metadata()),
            StagePoint::Paths => catalog::paths_ask(job.root, job.group),
            StagePoint::Prepare => AskView::Perform(job.preparation(self.bytes@)),
            StagePoint::Lock => AskView::Lock,
            StagePoint::Present => AskView::Present(final_dir),
            StagePoint::CompareMetadata => AskView::File(
                final_dir.push("native-meta.json"@),
                META_LIMIT as int,
            ),
            StagePoint::CompareData => AskView::File(
                final_dir.push("data.bin"@),
                self.max_bytes as int,
            ),
            StagePoint::Publish(existing) => AskView::Perform(
                job.publication(self.bytes@, existing),
            ),
        }
    }

    /// How many answers it waits for at most.
    pub closed spec fn rank(self) -> nat {
        match self.at {
            StagePoint::Encode => 8,
            StagePoint::Paths => 7,
            StagePoint::Prepare => 6,
            StagePoint::Lock => 5,
            StagePoint::Present => 4,
            StagePoint::CompareMetadata => 3,
            StagePoint::CompareData => 2,
            StagePoint::Publish(_) => 1,
        }
    }

    /// What it comes to.
    pub closed spec fn outcome(self, w: World) -> Result<StageView, StorageErrorView> {
        let job = self.job();
        let bytes = self.bytes@;
        match self.at {
            StagePoint::Encode => job.encoded(w, (w.encode_metadata)(job.metadata())),
            StagePoint::Paths => job.checked(w, bytes),
            StagePoint::Prepare => job.prepared(w, bytes),
            StagePoint::Lock => job.locked(w, bytes),
            StagePoint::Present => job.placed(w, bytes),
            StagePoint::CompareMetadata => job.metadata_compared(w, bytes),
            StagePoint::CompareData => job.data_compared(w, bytes),
            StagePoint::Publish(existing) => job.published(w, bytes, existing),
        }
    }

    /// What it asks for from here on, what it waits for first.
    pub closed spec fn asks(self, w: World) -> Seq<AskView> {
        let job = self.job();
        let bytes = self.bytes@;
        match self.at {
            StagePoint::Encode => job.encoding_asks(w),
            StagePoint::Paths => job.checking_asks(w, bytes),
            StagePoint::Prepare => job.preparation_asks(w, bytes),
            StagePoint::Lock => job.locking_asks(w, bytes),
            StagePoint::Present => job.placing_asks(w, bytes),
            StagePoint::CompareMetadata => job.existing_asks(w, bytes),
            StagePoint::CompareData => job.data_asks(w, bytes),
            StagePoint::Publish(existing) => job.publication_asks(bytes, existing),
        }
    }

    /// What a turn of it comes to.
    pub open spec fn turned(
        turn: Turn<NativeStaging, Result<NativeSnapshotStage, StorageError>>,
        w: World,
    ) -> Result<StageView, StorageErrorView> {
        match turn {
            Turn::Ask { state, .. } => state.outcome(w),
            Turn::Done(result) => storage::result_view(result),
        }
    }

    /// What is asked for from a turn on.
    pub open spec fn asked(
        turn: Turn<NativeStaging, Result<NativeSnapshotStage, StorageError>>,
        w: World,
    ) -> Seq<AskView> {
        match turn {
            Turn::Ask { state, .. } => state.asks(w),
            Turn::Done(_) => Seq::empty(),
        }
    }

    /// A turn asks for what its state waits for, and at most `rank` answers follow.
    pub open spec fn proceeds(
        turn: Turn<NativeStaging, Result<NativeSnapshotStage, StorageError>>,
        rank: nat,
    ) -> bool {
        turn matches Turn::Ask { state, ask } ==> ask@ == state.pending() && state.rank() <= rank
    }

    fn native(&self) -> (path: Vec<String>)
        ensures
            files::path_view(path@) == self.job().native(),
    {
        let group_dir = files::child(&self.root, text::u64_text(self.group).as_str());
        files::child(&group_dir, "native-v1")
    }

    fn final_dir(&self) -> (path: Vec<String>)
        ensures
            files::path_view(path@) == self.job().final_dir(self.bytes@),
    {
        files::child(&self.native(), checksum::hex_sha256(self.bytes.as_slice()).as_str())
    }

    fn preparation(&self) -> (script: Vec<FileOp>)
        ensures
            files::script_view(script@) == self.job().preparation(self.bytes@),
    {
        let group_dir = files::child(&self.root, text::u64_text(self.group).as_str());
        let native = self.native();
        let stage = files::child(&native, self.stage_name.as_str());
        let data = self.data.clone();
        assert(data@ =~= self.data@);
        let bytes = self.bytes.clone();
        assert(bytes@ =~= self.bytes@);
        let script = vec![
            FileOp::CreateDirAll { path: files::copy_path(&native) },
            FileOp::SyncDir { path: native },
            FileOp::SyncDir { path: group_dir },
            FileOp::SyncDir { path: files::copy_path(&self.root) },
            FileOp::SyncParentOf { path: files::copy_path(&self.root) },
            FileOp::CreateDir { path: files::copy_path(&stage) },
            FileOp::Write { path: files::child(&stage, "data.bin"), bytes: data },
            FileOp::Write { path: files::child(&stage, "native-meta.json"), bytes },
            FileOp::SyncDir { path: stage },
        ];
        assert(files::script_view(script@) =~= self.job().preparation(self.bytes@));
        script
    }

    fn publication(&self, existing: bool) -> (script: Vec<FileOp>)
        ensures
            files::script_view(script@) == self.job().publication(self.bytes@, existing),
    {
        let native = self.native();
        let stage = files::child(&native, self.stage_name.as_str());
        let first = if existing {
            FileOp::RemoveTree { path: stage }
        } else {
            FileOp::Rename { from: stage, to: self.final_dir() }
        };
        let script = vec![first, FileOp::SyncDir { path: native }];
        assert(files::script_view(script@) =~= self.job().publication(self.bytes@, existing));
        script
    }

    fn ask_at(self, at: StagePoint) -> (turn: Turn<
        NativeStaging,
        Result<NativeSnapshotStage, StorageError>,
    >)
        ensures
            turn matches Turn::Ask { state, ask } && ask@ == state.pending() && state.job()
                == self.job() && state.bytes@ == self.bytes@ && state.at == at,
    {
        let ask = match at {
            StagePoint::Encode => Ask::EncodeMetadata {
                metadata: NativeMeta {
                    version: VERSION,
                    group: self.group,
                    meta: self.meta.clone(),
                    size: self.data.len(),
                    data_sha256: checksum::hex_sha256(self.data.as_slice()),
                },
            },
            StagePoint::Paths => catalog::ask_paths(&self.root, self.group),
            StagePoint::Prepare => Ask::Perform { script: self.preparation() },
            StagePoint::Lock => Ask::Lock,
            StagePoint::Present => Ask::Present { path: self.final_dir() },
            StagePoint::CompareMetadata => Ask::File {
                path: files::child(&self.final_dir(), "native-meta.json"),
                limit: META_LIMIT,
            },
            StagePoint::CompareData => Ask::File {
                path: files::child(&self.final_dir(), "data.bin"),
                limit: self.max_bytes,
            },
            StagePoint::Publish(existing) => Ask::Perform { script: self.publication(existing) },
        };
        let state = NativeStaging {
            group: self.group,
            meta: self.meta,
            data: self.data,
            max_bytes: self.max_bytes,
            root: self.root,
            stage_name: self.stage_name,
            bytes: self.bytes,
            at,
        };
        Turn::Ask { state, ask }
    }

    fn staged(self) -> (stage: NativeSnapshotStage)
        ensures
            stage@ == self.job().stage(self.bytes@),
    {
        let root = self.native();
        let generation = checksum::hex_sha256(self.bytes.as_slice());
        let metadata_sha256 = generation.clone();
        NativeSnapshotStage {
            group: self.group,
            root,
            active: Active { version: VERSION, group: self.group, generation, metadata_sha256 },
            meta: self.meta,
            max_bytes: self.max_bytes,
        }
    }

    /// Goes on with an answer.
    pub fn step(self, answer: Answer) -> (turn: Turn<
        NativeStaging,
        Result<NativeSnapshotStage, StorageError>,
    >)
        requires
            files::fits(self.pending(), answer@),
        ensures
            self.rank() > 0,
            Self::proceeds(turn, (self.rank() - 1) as nat),
            forall|w: World| #[trigger]
                w.answers(self.pending(), answer@) ==> {
                    &&& Self::turned(turn, w) == self.outcome(w)
                    &&& self.asks(w) == seq![self.pending()] + Self::asked(turn, w)
                },
    {
        match (self.at, answer) {
            (StagePoint::Encode, Answer::Encoded(encoding)) => match encoding {
                Err(message) => Turn::Done(Err(storage::other(message))),
                Ok(bytes) => {
                    if bytes.len() > META_LIMIT {
                        return Turn::Done(Err(storage::invalid("snapshot metadata exceeds bound")));
                    }
                    let state = NativeStaging {
                        group: self.group,
                        meta: self.meta,
                        data: self.data,
                        max_bytes: self.max_bytes,
                        root: self.root,
                        stage_name: self.stage_name,
                        bytes,
                        at: StagePoint::Paths,
                    };
                    state.ask_at(StagePoint::Paths)
                },
            },
            (StagePoint::Paths, Answer::Kinds { root, group, native }) => {
                match catalog::validate_native_paths(root, group, native) {
                    Ok(()) => self.ask_at(StagePoint::Prepare),
                    Err(error) => Turn::Done(Err(error)),
                }
            },
            (StagePoint::Prepare, Answer::Performed(failed)) => match failed {
                None => self.ask_at(StagePoint::Lock),
                Some(error) => Turn::Done(Err(error)),
            },
            (StagePoint::Lock, Answer::Locked(locked)) => {
                if !locked {
                    return Turn::Done(Err(storage::invalid("snapshot activation poisoned")));
                }
                self.ask_at(StagePoint::Present)
            },
            (StagePoint::Present, Answer::Present(present)) => {
                if present {
                    self.ask_at(StagePoint::CompareMetadata)
                } else {
                    self.ask_at(StagePoint::Publish(false))
                }
            },
            (StagePoint::CompareMetadata, Answer::File(read)) => {
                match files::bounded_read(read, META_LIMIT) {
                    Err(error) => Turn::Done(Err(error)),
                    Ok(found) => {
                        if !collections::same_bytes(found.as_slice(), self.bytes.as_slice()) {
                            return Turn::Done(
                                Err(storage::invalid("existing snapshot generation is corrupt")),
                            );
                        }
                        self.ask_at(StagePoint::CompareData)
                    },
                }
            },
            (StagePoint::CompareData, Answer::File(read)) => {
                match files::bounded_read(read, self.max_bytes) {
                    Err(error) => Turn::Done(Err(error)),
                    Ok(found) => {
                        if !collections::same_bytes(found.as_slice(), self.data.as_slice()) {
                            return Turn::Done(
                                Err(storage::invalid("existing snapshot generation is corrupt")),
                            );
                        }
                        self.ask_at(StagePoint::Publish(true))
                    },
                }
            },
            (StagePoint::Publish(_), Answer::Performed(failed)) => match failed {
                None => Turn::Done(Ok(self.staged())),
                Some(error) => Turn::Done(Err(error)),
            },
            _ => unreached(),
        }
    }
}

impl SnapshotCatalog {
    /// Persists a candidate off the application lock, before it is restored or activated. The
    /// process and the sequence number make the directory in which it is prepared unique.
    pub fn stage_native(
        &self,
        group: GroupId,
        meta: &SnapshotMeta,
        data: Vec<u8>,
        max_bytes: usize,
        process: u64,
        sequence: u64,
    ) -> (turn: Turn<NativeStaging, Result<NativeSnapshotStage, StorageError>>)
        ensures
            NativeStaging::proceeds(turn, 8),
            forall|w: World| #[trigger]
                NativeStaging::turned(turn, w) == (StageJob {
                    root: self.root_path(),
                    group,
                    meta: meta@,
                    data: data@,
                    max_bytes,
                    stage_name: stage_name(process, sequence),
                }).staged(w),
            forall|w: World| #[trigger]
                NativeStaging::asked(turn, w) == (StageJob {
                    root: self.root_path(),
                    group,
                    meta: meta@,
                    data: data@,
                    max_bytes,
                    stage_name: stage_name(process, sequence),
                }).stage_asks(w),
    {
        match snapshot::check_cap(max_bytes) {
            Ok(()) => {},
            Err(error) => {
                return Turn::Done(Err(error));
            },
        }
        match snapshot::validate_meta(meta) {
            Ok(()) => {},
            Err(error) => {
                return Turn::Done(Err(error));
            },
        }
        if data.len() > max_bytes {
            return Turn::Done(
                Err(storage::fail(ErrorKind::InvalidInput, "snapshot capture limit")),
            );
        }
        let mut name = ".stage-".to_owned();
        text::append_u64(&mut name, process);
        name.append("-");
        text::append_u64(&mut name, sequence);
        let staging = NativeStaging {
            group,
            meta: meta.clone(),
            data,
            max_bytes,
            root: files::copy_path(&self.root),
            stage_name: name,
            bytes: Vec::new(),
            at: StagePoint::Encode,
        };
        staging.ask_at(StagePoint::Encode)
    }
}

} // verus!
