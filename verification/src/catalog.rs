//! The snapshot catalog: where native generations stand, and reading the current one.

use crate::checksum;
use crate::files;
use crate::files::Answer;
use crate::files::Ask;
use crate::files::AskView;
use crate::files::FileKind;
use crate::files::PathView;
use crate::files::ReadView;
use crate::files::Turn;
use crate::files::World;
use crate::snapshot;
use crate::snapshot::Active;
use crate::snapshot::ActiveView;
use crate::snapshot::NativeMeta;
use crate::snapshot::NativeMetaView;
use crate::snapshot::NativeSnapshot;
use crate::snapshot::NativeSnapshotView;
use crate::snapshot::META_LIMIT;
use crate::snapshot::VERSION;
use crate::storage;
use crate::storage::ErrorKind;
use crate::storage::StorageError;
use crate::storage::StorageErrorView;
use crate::text;
use crate::GroupId;
use vstd::pervasive::unreached;
use vstd::prelude::*;

verus! {

/// A catalog of snapshots under one root directory.
#[derive(Debug)]
pub struct SnapshotCatalog {
    /// The components of the root directory.
    pub root: Vec<String>,
    /// How many standby snapshots are kept.
    pub keep: usize,
}

/// The directory of `group`.
pub open spec fn group_path(root: PathView, group: GroupId) -> PathView {
    root.push(text::decimal(group as nat))
}

/// The directory of the native generations of `group`.
pub open spec fn native_path(root: PathView, group: GroupId) -> PathView {
    group_path(root, group).push("native-v1"@)
}

impl SnapshotCatalog {
    /// The root directory.
    pub open spec fn root_path(self) -> PathView {
        files::path_view(self.root@)
    }

    /// A catalog under `root`.
    pub fn new(root: Vec<String>, keep: usize) -> (catalog: Self)
        ensures
            catalog == (SnapshotCatalog { root, keep }),
    {
        SnapshotCatalog { root, keep }
    }

    /// The directory of the native generations of `group`.
    pub fn native_root(&self, group: GroupId) -> (path: Vec<String>)
        ensures
            files::path_view(path@) == native_path(self.root_path(), group),
    {
        let group_dir = files::child(&self.root, text::u64_text(group).as_str());
        files::child(&group_dir, "native-v1")
    }
}

/// What is wrong with a directory of the catalog, if anything: it may be missing, but not be
/// anything other than a directory.
pub open spec fn directory_fault(kind: Result<FileKind, StorageErrorView>) -> Option<
    StorageErrorView,
> {
    match kind {
        Ok(FileKind::Directory) => None,
        Ok(_) => Some(storage::invalid_data("snapshot root is not a directory"@)),
        Err(error) => if error.kind is NotFound {
            None
        } else {
            Some(error)
        },
    }
}

/// The first fault of three directories.
pub open spec fn directories_fault(
    root: Result<FileKind, StorageErrorView>,
    group: Result<FileKind, StorageErrorView>,
    native: Result<FileKind, StorageErrorView>,
) -> Option<StorageErrorView> {
    if directory_fault(root) is Some {
        directory_fault(root)
    } else if directory_fault(group) is Some {
        directory_fault(group)
    } else {
        directory_fault(native)
    }
}

/// The first fault of the directories from the root down to the native generations.
pub open spec fn paths_fault(w: World, root: PathView, group: GroupId) -> Option<StorageErrorView> {
    directories_fault(
        (w.kind)(root),
        (w.kind)(group_path(root, group)),
        (w.kind)(native_path(root, group)),
    )
}

fn check_directory(kind: Result<FileKind, StorageError>) -> (checked: Result<(), StorageError>)
    ensures
        match checked {
            Ok(()) => directory_fault(files::kind_view(kind)) is None,
            Err(error) => directory_fault(files::kind_view(kind)) == Some(error@),
        },
{
    match kind {
        Ok(FileKind::Directory) => Ok(()),
        Ok(_) => Err(storage::invalid("snapshot root is not a directory")),
        Err(error) => match error.kind {
            ErrorKind::NotFound => Ok(()),
            _ => Err(error),
        },
    }
}

/// Checks the directories from the root down to the native generations.
pub fn validate_native_paths(
    root: Result<FileKind, StorageError>,
    group: Result<FileKind, StorageError>,
    native: Result<FileKind, StorageError>,
) -> (checked: Result<(), StorageError>)
    ensures
        match checked {
            Ok(()) => directories_fault(
                files::kind_view(root),
                files::kind_view(group),
                files::kind_view(native),
            ) is None,
            Err(error) => directories_fault(
                files::kind_view(root),
                files::kind_view(group),
                files::kind_view(native),
            ) == Some(error@),
        },
{
    match check_directory(root) {
        Ok(()) => {},
        Err(error) => {
            return Err(error);
        },
    }
    match check_directory(group) {
        Ok(()) => {},
        Err(error) => {
            return Err(error);
        },
    }
    check_directory(native)
}

/// What asks for the directories from the root down to the native generations.
pub open spec fn paths_ask(root: PathView, group: GroupId) -> AskView {
    AskView::Kinds(root, group_path(root, group), native_path(root, group))
}

/// Asks for the directories from the root down to the native generations.
pub(crate) fn ask_paths(root: &Vec<String>, group: GroupId) -> (ask: Ask)
    ensures
        ask@ == paths_ask(files::path_view(root@), group),
{
    let group_dir = files::child(root, text::u64_text(group).as_str());
    let native = files::child(&group_dir, "native-v1");
    Ask::Kinds { root: files::copy_path(root), group: group_dir, native }
}

/// A manifest can be read here: it has the current layout, is of this group, and names a generation
/// by a checksum.
pub open spec fn is_compatible(active: ActiveView, group: GroupId) -> bool {
    &&& active.version == VERSION
    &&& active.group == group
    &&& checksum::has_checksum_form(active.generation)
}

/// The directory of the generation that a manifest names.
pub open spec fn generation_path(native: PathView, active: ActiveView) -> PathView {
    native.push(active.generation)
}

/// Decoded metadata, unless it is of another layout, another group or too large an image, or its
/// snapshot metadata is faulty.
pub open spec fn accepted_metadata(
    decoded: Result<NativeMetaView, Seq<char>>,
    group: GroupId,
    max_bytes: int,
) -> Result<NativeMetaView, StorageErrorView> {
    match decoded {
        Err(message) => Err(storage::failure(ErrorKind::Other, message)),
        Ok(metadata) => if metadata.version != VERSION || metadata.group != group || metadata.size
            > max_bytes {
            Err(storage::invalid_data("incompatible snapshot metadata"@))
        } else {
            match snapshot::meta_fault(metadata.meta) {
                Some(error) => Err(error),
                None => Ok(metadata),
            }
        },
    }
}

/// The metadata behind the bytes of a metadata file, which have to match the manifest's checksum.
pub open spec fn metadata_from(
    w: World,
    read: Result<ReadView, StorageErrorView>,
    group: GroupId,
    max_bytes: int,
    active: ActiveView,
) -> Result<NativeMetaView, StorageErrorView> {
    match files::bounded(read, META_LIMIT as int) {
        Err(error) => Err(error),
        Ok(bytes) => if checksum::checksum(bytes) != active.metadata_sha256 {
            Err(storage::invalid_data("snapshot metadata checksum mismatch"@))
        } else {
            accepted_metadata((w.metadata)(bytes), group, max_bytes)
        },
    }
}

/// The metadata in the directory of a generation.
pub open spec fn metadata_in(
    w: World,
    native: PathView,
    group: GroupId,
    max_bytes: int,
    active: ActiveView,
) -> Result<NativeMetaView, StorageErrorView> {
    let dir = generation_path(native, active);
    match (w.kind)(dir) {
        Err(error) => Err(error),
        Ok(FileKind::Directory) => metadata_from(
            w,
            (w.file)(dir.push("native-meta.json"@), META_LIMIT as int),
            group,
            max_bytes,
            active,
        ),
        Ok(_) => Err(storage::invalid_data("snapshot generation is not a directory"@)),
    }
}

/// The metadata of the generation that `active` names.
pub open spec fn metadata_of(
    w: World,
    native: PathView,
    group: GroupId,
    max_bytes: int,
    active: ActiveView,
) -> Result<NativeMetaView, StorageErrorView> {
    if is_compatible(active, group) {
        metadata_in(w, native, group, max_bytes, active)
    } else {
        Err(storage::invalid_data("incompatible snapshot manifest"@))
    }
}

/// What is asked for once a metadata file has been read.
pub open spec fn metadata_from_asks(
    read: Result<ReadView, StorageErrorView>,
    active: ActiveView,
) -> Seq<AskView> {
    match files::bounded(read, META_LIMIT as int) {
        Ok(bytes) => if checksum::checksum(bytes) == active.metadata_sha256 {
            seq![AskView::Metadata(bytes)]
        } else {
            Seq::empty()
        },
        Err(_) => Seq::empty(),
    }
}

/// What is asked for to read the metadata in the directory of a generation.
pub open spec fn metadata_in_asks(w: World, native: PathView, active: ActiveView) -> Seq<AskView> {
    let dir = generation_path(native, active);
    let path = dir.push("native-meta.json"@);
    seq![AskView::Kind(dir)] + match (w.kind)(dir) {
        Ok(FileKind::Directory) => seq![AskView::File(path, META_LIMIT as int)]
            + metadata_from_asks((w.file)(path, META_LIMIT as int), active),
        _ => Seq::empty(),
    }
}

/// What is asked for to read the metadata of the generation that `active` names.
pub open spec fn metadata_asks(
    w: World,
    native: PathView,
    group: GroupId,
    active: ActiveView,
) -> Seq<AskView> {
    if is_compatible(active, group) {
        metadata_in_asks(w, native, active)
    } else {
        Seq::empty()
    }
}

/// The snapshot behind an image, which has to match the size and checksum of the metadata.
pub open spec fn snapshot_from(
    read: Result<ReadView, StorageErrorView>,
    metadata: NativeMetaView,
) -> Result<NativeSnapshotView, StorageErrorView> {
    match files::bounded(read, metadata.size as int) {
        Err(error) => Err(error),
        Ok(data) => if data.len() != metadata.size || checksum::checksum(data)
            != metadata.data_sha256 {
            Err(storage::invalid_data("snapshot data checksum or size mismatch"@))
        } else {
            Ok(NativeSnapshotView { meta: metadata.meta, data })
        },
    }
}

/// The snapshot of the generation that `active` names.
pub open spec fn generation_of(
    w: World,
    native: PathView,
    group: GroupId,
    max_bytes: int,
    active: ActiveView,
) -> Result<NativeSnapshotView, StorageErrorView> {
    match metadata_of(w, native, group, max_bytes, active) {
        Err(error) => Err(error),
        Ok(metadata) => snapshot_from(
            (w.file)(generation_path(native, active).push("data.bin"@), metadata.size as int),
            metadata,
        ),
    }
}

/// What is asked for once the metadata is known: the image at `path`.
pub open spec fn image_asks(
    metadata: Result<NativeMetaView, StorageErrorView>,
    path: PathView,
) -> Seq<AskView> {
    match metadata {
        Ok(metadata) => seq![AskView::File(path, metadata.size as int)],
        Err(_) => Seq::empty(),
    }
}

/// What is asked for to read the generation that `active` names.
pub open spec fn generation_asks(
    w: World,
    native: PathView,
    group: GroupId,
    max_bytes: int,
    active: ActiveView,
) -> Seq<AskView> {
    metadata_asks(w, native, group, active) + image_asks(
        metadata_of(w, native, group, max_bytes, active),
        generation_path(native, active).push("data.bin"@),
    )
}

/// A decoded manifest, if there is one.
pub open spec fn manifest_from(decoded: Result<ActiveView, Seq<char>>) -> Result<
    Option<ActiveView>,
    StorageErrorView,
> {
    match decoded {
        Err(message) => Err(storage::failure(ErrorKind::Other, message)),
        Ok(active) => Ok(Some(active)),
    }
}

/// The manifest of a native directory; a missing file stands for none.
pub open spec fn manifest_of(w: World, native: PathView) -> Result<
    Option<ActiveView>,
    StorageErrorView,
> {
    match files::bounded((w.file)(native.push("active.json"@), META_LIMIT as int), META_LIMIT as int) {
        Ok(bytes) => manifest_from((w.manifest)(bytes)),
        Err(error) => if error.kind is NotFound {
            Ok(None)
        } else {
            Err(error)
        },
    }
}

/// What is asked for to read the manifest of a native directory.
pub open spec fn manifest_asks(w: World, native: PathView) -> Seq<AskView> {
    let path = native.push("active.json"@);
    seq![AskView::File(path, META_LIMIT as int)] + match files::bounded(
        (w.file)(path, META_LIMIT as int),
        META_LIMIT as int,
    ) {
        Ok(bytes) => seq![AskView::Manifest(bytes)],
        Err(_) => Seq::empty(),
    }
}

/// What is asked for once the byte limit has been checked: the directories, then the manifest.
pub open spec fn paths_then_manifest_asks(w: World, root: PathView, group: GroupId) -> Seq<AskView> {
    seq![paths_ask(root, group)] + if paths_fault(w, root, group) is None {
        manifest_asks(w, native_path(root, group))
    } else {
        Seq::empty()
    }
}

/// What is asked for to read the manifest of `group`.
pub open spec fn checked_manifest_asks(
    w: World,
    root: PathView,
    group: GroupId,
    max_bytes: int,
) -> Seq<AskView> {
    if snapshot::is_valid_cap(max_bytes) {
        paths_then_manifest_asks(w, root, group)
    } else {
        Seq::empty()
    }
}

/// The manifest of `group`, once the byte limit and the directories have been checked.
pub open spec fn checked_manifest(w: World, root: PathView, group: GroupId, max_bytes: int) -> Result<
    Option<ActiveView>,
    StorageErrorView,
> {
    if !snapshot::is_valid_cap(max_bytes) {
        Err(storage::failure(ErrorKind::InvalidInput, "invalid snapshot cap"@))
    } else {
        match paths_fault(w, root, group) {
            Some(error) => Err(error),
            None => manifest_of(w, native_path(root, group)),
        }
    }
}

/// The current snapshot of `group`: the generation that the manifest names, and no other.
pub open spec fn current_of(w: World, root: PathView, group: GroupId, max_bytes: int) -> Result<
    Option<NativeSnapshotView>,
    StorageErrorView,
> {
    match checked_manifest(w, root, group, max_bytes) {
        Err(error) => Err(error),
        Ok(None) => Ok(None),
        Ok(Some(active)) => match generation_of(
            w,
            native_path(root, group),
            group,
            max_bytes,
            active,
        ) {
            Err(error) => Err(error),
            Ok(found) => Ok(Some(found)),
        },
    }
}

/// What is asked for once the manifest is known: the generation that it names, and no other.
pub open spec fn named_asks(
    w: World,
    native: PathView,
    group: GroupId,
    max_bytes: int,
    manifest: Result<Option<ActiveView>, StorageErrorView>,
) -> Seq<AskView> {
    match manifest {
        Ok(Some(active)) => generation_asks(w, native, group, max_bytes, active),
        _ => Seq::empty(),
    }
}

/// What is asked for to read the current snapshot of `group`.
pub open spec fn current_asks(w: World, root: PathView, group: GroupId, max_bytes: int) -> Seq<
    AskView,
> {
    checked_manifest_asks(w, root, group, max_bytes) + named_asks(
        w,
        native_path(root, group),
        group,
        max_bytes,
        checked_manifest(w, root, group, max_bytes),
    )
}

/// The failure of an operation that could not take the lock.
pub open spec fn poisoned() -> StorageErrorView {
    storage::invalid_data("snapshot activation poisoned"@)
}

/// The current snapshot of `group`, read under the activation lock.
pub open spec fn loaded(w: World, root: PathView, group: GroupId, max_bytes: int) -> Result<
    Option<NativeSnapshotView>,
    StorageErrorView,
> {
    if w.locks {
        current_of(w, root, group, max_bytes)
    } else {
        Err(poisoned())
    }
}

/// What is asked for to load the current snapshot of `group`: the lock first, and nothing without
/// it.
pub open spec fn load_asks(w: World, root: PathView, group: GroupId, max_bytes: int) -> Seq<
    AskView,
> {
    seq![AskView::Lock] + if w.locks {
        current_asks(w, root, group, max_bytes)
    } else {
        Seq::empty()
    }
}

/// What an option says.
pub open spec fn option_view<T: View>(option: Option<T>) -> Option<T::V> {
    match option {
        Some(value) => Some(value@),
        None => None,
    }
}

/// What an optional result says.
pub open spec fn option_result_view<T: View>(result: Result<Option<T>, StorageError>) -> Result<
    Option<T::V>,
    StorageErrorView,
> {
    match result {
        Ok(value) => Ok(option_view(value)),
        Err(error) => Err(error@),
    }
}

/// Reading the metadata of one generation.
pub struct MetadataRead {
    group: GroupId,
    max_bytes: usize,
    native: Vec<String>,
    active: Active,
    at: MetadataPoint,
}

enum MetadataPoint {
    Directory,
    Bytes,
    Decode(Ghost<Seq<u8>>),
}

impl MetadataRead {
    /// What it waits for.
    pub closed spec fn pending(self) -> AskView {
        let dir = generation_path(files::path_view(self.native@), self.active@);
        match self.at {
            MetadataPoint::Directory => AskView::Kind(dir),
            MetadataPoint::Bytes => AskView::File(dir.push("native-meta.json"@), META_LIMIT as int),
            MetadataPoint::Decode(bytes) => AskView::Metadata(bytes@),
        }
    }

    /// How many answers it waits for at most.
    pub closed spec fn rank(self) -> nat {
        match self.at {
            MetadataPoint::Directory => 3,
            MetadataPoint::Bytes => 2,
            MetadataPoint::Decode(_) => 1,
        }
    }

    /// What it comes to.
    pub closed spec fn outcome(self, w: World) -> Result<NativeMetaView, StorageErrorView> {
        let native = files::path_view(self.native@);
        let dir = generation_path(native, self.active@);
        let max = self.max_bytes as int;
        match self.at {
            MetadataPoint::Directory => metadata_in(w, native, self.group, max, self.active@),
            MetadataPoint::Bytes => metadata_from(
                w,
                (w.file)(dir.push("native-meta.json"@), META_LIMIT as int),
                self.group,
                max,
                self.active@,
            ),
            MetadataPoint::Decode(bytes) => accepted_metadata(
                (w.metadata)(bytes@),
                self.group,
                max,
            ),
        }
    }

    /// What it asks for from here on, what it waits for first.
    pub closed spec fn asks(self, w: World) -> Seq<AskView> {
        let native = files::path_view(self.native@);
        let path = generation_path(native, self.active@).push("native-meta.json"@);
        match self.at {
            MetadataPoint::Directory => metadata_in_asks(w, native, self.active@),
            MetadataPoint::Bytes => seq![AskView::File(path, META_LIMIT as int)]
                + metadata_from_asks((w.file)(path, META_LIMIT as int), self.active@),
            MetadataPoint::Decode(bytes) => seq![AskView::Metadata(bytes@)],
        }
    }

    /// What a turn of it comes to.
    pub open spec fn turned(
        turn: Turn<MetadataRead, Result<NativeMeta, StorageError>>,
        w: World,
    ) -> Result<NativeMetaView, StorageErrorView> {
        match turn {
            Turn::Ask { state, .. } => state.outcome(w),
            Turn::Done(result) => storage::result_view(result),
        }
    }

    /// What is asked for from a turn on.
    pub open spec fn asked(
        turn: Turn<MetadataRead, Result<NativeMeta, StorageError>>,
        w: World,
    ) -> Seq<AskView> {
        match turn {
            Turn::Ask { state, .. } => state.asks(w),
            Turn::Done(_) => Seq::empty(),
        }
    }

    /// A turn asks for what its state waits for, and at most `rank` answers follow.
    pub open spec fn proceeds(
        turn: Turn<MetadataRead, Result<NativeMeta, StorageError>>,
        rank: nat,
    ) -> bool {
        turn matches Turn::Ask { state, ask } ==> ask@ == state.pending() && state.rank() <= rank
    }

    /// Starts to read the metadata of the generation that `active` names.
    pub(crate) fn begin(
        group: GroupId,
        max_bytes: usize,
        native: Vec<String>,
        active: Active,
    ) -> (turn: Turn<MetadataRead, Result<NativeMeta, StorageError>>)
        ensures
            Self::proceeds(turn, 3),
            forall|w: World| #[trigger]
                Self::turned(turn, w) == metadata_of(
                    w,
                    files::path_view(native@),
                    group,
                    max_bytes as int,
                    active@,
                ),
            forall|w: World| #[trigger]
                Self::asked(turn, w) == metadata_asks(
                    w,
                    files::path_view(native@),
                    group,
                    active@,
                ),
    {
        if active.version != VERSION || active.group != group || !checksum::is_checksum_form(
            &active.generation,
        ) {
            return Turn::Done(Err(storage::invalid("incompatible snapshot manifest")));
        }
        let path = files::child(&native, active.generation.as_str());
        Turn::Ask {
            state: MetadataRead { group, max_bytes, native, active, at: MetadataPoint::Directory },
            ask: Ask::Kind { path },
        }
    }

    /// Goes on with an answer.
    pub fn step(self, answer: Answer) -> (turn: Turn<
        MetadataRead,
        Result<NativeMeta, StorageError>,
    >)
        requires
            files::fits(self.pending(), answer@),
        ensures
            self.rank() > 0,
            Self::proceeds(turn, (self.rank() - 1) as nat),
            forall|w: World| #[trigger]
                w.answers(self.pending(), answer@) ==> {
                    &&& Self::turned(turn, w) == self.outcome(w)
                    &&& self.asks(w) == seq![self.pending()] + Self::asked(turn, w)
                },
    {
        match (self.at, answer) {
            (MetadataPoint::Directory, Answer::Kind(kind)) => match kind {
                Err(error) => Turn::Done(Err(error)),
                Ok(FileKind::Directory) => {
                    let dir = files::child(&self.native, self.active.generation.as_str());
                    let path = files::child(&dir, "native-meta.json");
                    Turn::Ask {
                        state: MetadataRead {
                            group: self.group,
                            max_bytes: self.max_bytes,
                            native: self.native,
                            active: self.active,
                            at: MetadataPoint::Bytes,
                        },
                        ask: Ask::File { path, limit: META_LIMIT },
                    }
                },
                Ok(_) => Turn::Done(
                    Err(storage::invalid("snapshot generation is not a directory")),
                ),
            },
            (MetadataPoint::Bytes, Answer::File(read)) => {
                let bytes = match files::bounded_read(read, META_LIMIT) {
                    Ok(bytes) => bytes,
                    Err(error) => {
                        return Turn::Done(Err(error));
                    },
                };
                if checksum::hex_sha256(bytes.as_slice()) != self.active.metadata_sha256 {
                    return Turn::Done(Err(storage::invalid("snapshot metadata checksum mismatch")));
                }
                Turn::Ask {
                    state: MetadataRead {
                        group: self.group,
                        max_bytes: self.max_bytes,
                        native: self.native,
                        active: self.active,
                        at: MetadataPoint::Decode(Ghost(bytes@)),
                    },
                    ask: Ask::Metadata { bytes },
                }
            },
            (MetadataPoint::Decode(_), Answer::Metadata(decoded)) => match decoded {
                Err(message) => Turn::Done(Err(storage::other(message))),
                Ok(metadata) => {
                    if metadata.version != VERSION || metadata.group != self.group || metadata.size
                        > self.max_bytes {
                        return Turn::Done(Err(storage::invalid("incompatible snapshot metadata")));
                    }
                    match snapshot::validate_meta(&metadata.meta) {
                        Ok(()) => Turn::Done(Ok(metadata)),
                        Err(error) => Turn::Done(Err(error)),
                    }
                },
            },
            _ => unreached(),
        }
    }
}

/// Reading one generation with its image.
pub struct GenerationRead {
    data_path: Vec<String>,
    at: GenerationPoint,
}

enum GenerationPoint {
    Metadata(MetadataRead),
    Data(NativeMeta),
}

impl GenerationRead {
    /// What it waits for.
    pub closed spec fn pending(self) -> AskView {
        match self.at {
            GenerationPoint::Metadata(read) => read.pending(),
            GenerationPoint::Data(metadata) => AskView::File(
                files::path_view(self.data_path@),
                metadata.size as int,
            ),
        }
    }

    /// How many answers it waits for at most.
    pub closed spec fn rank(self) -> nat {
        match self.at {
            GenerationPoint::Metadata(read) => 1 + read.rank(),
            GenerationPoint::Data(_) => 1,
        }
    }

    spec fn image(self, w: World, metadata: NativeMetaView) -> Result<
        NativeSnapshotView,
        StorageErrorView,
    > {
        snapshot_from(
            (w.file)(files::path_view(self.data_path@), metadata.size as int),
            metadata,
        )
    }

    /// What it comes to.
    pub closed spec fn outcome(self, w: World) -> Result<NativeSnapshotView, StorageErrorView> {
        match self.at {
            GenerationPoint::Metadata(read) => match read.outcome(w) {
                Err(error) => Err(error),
                Ok(metadata) => self.image(w, metadata),
            },
            GenerationPoint::Data(metadata) => self.image(w, metadata@),
        }
    }

    /// What it asks for from here on, what it waits for first.
    pub closed spec fn asks(self, w: World) -> Seq<AskView> {
        let path = files::path_view(self.data_path@);
        match self.at {
            GenerationPoint::Metadata(read) => read.asks(w) + image_asks(read.outcome(w), path),
            GenerationPoint::Data(metadata) => seq![AskView::File(path, metadata.size as int)],
        }
    }

    /// What a turn of it comes to.
    pub open spec fn turned(
        turn: Turn<GenerationRead, Result<NativeSnapshot, StorageError>>,
        w: World,
    ) -> Result<NativeSnapshotView, StorageErrorView> {
        match turn {
            Turn::Ask { state, .. } => state.outcome(w),
            Turn::Done(result) => storage::result_view(result),
        }
    }

    /// What is asked for from a turn on.
    pub open spec fn asked(
        turn: Turn<GenerationRead, Result<NativeSnapshot, StorageError>>,
        w: World,
    ) -> Seq<AskView> {
        match turn {
            Turn::Ask { state, .. } => state.asks(w),
            Turn::Done(_) => Seq::empty(),
        }
    }

    /// A turn asks for what its state waits for, and at most `rank` answers follow.
    pub open spec fn proceeds(
        turn: Turn<GenerationRead, Result<NativeSnapshot, StorageError>>,
        rank: nat,
    ) -> bool {
        turn matches Turn::Ask { state, ask } ==> ask@ == state.pending() && state.rank() <= rank
    }

    fn after_metadata(
        turn: Turn<MetadataRead, Result<NativeMeta, StorageError>>,
        data_path: Vec<String>,
    ) -> (next: Turn<GenerationRead, Result<NativeSnapshot, StorageError>>)
        ensures
            forall|rank: nat| #[trigger]
                MetadataRead::proceeds(turn, rank) ==> Self::proceeds(next, 1 + rank),
            forall|w: World| #[trigger]
                Self::turned(next, w) == match MetadataRead::turned(turn, w) {
                    Err(error) => Err(error),
                    Ok(metadata) => snapshot_from(
                        (w.file)(files::path_view(data_path@), metadata.size as int),
                        metadata,
                    ),
                },
            forall|w: World| #[trigger]
                Self::asked(next, w) == MetadataRead::asked(turn, w) + image_asks(
                    MetadataRead::turned(turn, w),
                    files::path_view(data_path@),
                ),
    {
        match turn {
            Turn::Ask { state, ask } => Turn::Ask {
                state: GenerationRead { data_path, at: GenerationPoint::Metadata(state) },
                ask,
            },
            Turn::Done(Err(error)) => Turn::Done(Err(error)),
            Turn::Done(Ok(metadata)) => {
                let path = files::copy_path(&data_path);
                let limit = metadata.size;
                Turn::Ask {
                    state: GenerationRead { data_path, at: GenerationPoint::Data(metadata) },
                    ask: Ask::File { path, limit },
                }
            },
        }
    }

    /// Starts to read the generation that `active` names.
    pub(crate) fn begin(
        group: GroupId,
        max_bytes: usize,
        native: Vec<String>,
        active: Active,
    ) -> (turn: Turn<GenerationRead, Result<NativeSnapshot, StorageError>>)
        ensures
            Self::proceeds(turn, 4),
            forall|w: World| #[trigger]
                Self::turned(turn, w) == generation_of(
                    w,
                    files::path_view(native@),
                    group,
                    max_bytes as int,
                    active@,
                ),
            forall|w: World| #[trigger]
                Self::asked(turn, w) == generation_asks(
                    w,
                    files::path_view(native@),
                    group,
                    max_bytes as int,
                    active@,
                ),
    {
        let dir = files::child(&native, active.generation.as_str());
        let data_path = files::child(&dir, "data.bin");
        let turn = MetadataRead::begin(group, max_bytes, native, active);
        assert(MetadataRead::proceeds(turn, 3));
        Self::after_metadata(turn, data_path)
    }

    /// Goes on with an answer.
    pub fn step(self, answer: Answer) -> (turn: Turn<
        GenerationRead,
        Result<NativeSnapshot, StorageError>,
    >)
        requires
            files::fits(self.pending(), answer@),
        ensures
            self.rank() > 0,
            Self::proceeds(turn, (self.rank() - 1) as nat),
            forall|w: World| #[trigger]
                w.answers(self.pending(), answer@) ==> {
                    &&& Self::turned(turn, w) == self.outcome(w)
                    &&& self.asks(w) == seq![self.pending()] + Self::asked(turn, w)
                },
    {
        match (self.at, answer) {
            (GenerationPoint::Metadata(read), answer) => {
                let ghost rank = read.rank();
                let turn = read.step(answer);
                assert(MetadataRead::proceeds(turn, (rank - 1) as nat));
                Self::after_metadata(turn, self.data_path)
            },
            (GenerationPoint::Data(metadata), Answer::File(read)) => {
                let data = match files::bounded_read(read, metadata.size) {
                    Ok(data) => data,
                    Err(error) => {
                        return Turn::Done(Err(error));
                    },
                };
                if data.len() != metadata.size || checksum::hex_sha256(data.as_slice())
                    != metadata.data_sha256 {
                    return Turn::Done(
                        Err(storage::invalid("snapshot data checksum or size mismatch")),
                    );
                }
                Turn::Done(Ok(NativeSnapshot { meta: metadata.meta, data }))
            },
            _ => unreached(),
        }
    }
}

/// Reading the manifest of a group, once the byte limit and the directories have been checked.
pub struct ManifestRead {
    group: GroupId,
    root: Vec<String>,
    at: ManifestPoint,
}

enum ManifestPoint {
    Paths,
    File,
    Decode(Ghost<Seq<u8>>),
}

impl ManifestRead {
    spec fn native(self) -> PathView {
        native_path(files::path_view(self.root@), self.group)
    }

    /// What it waits for.
    pub closed spec fn pending(self) -> AskView {
        match self.at {
            ManifestPoint::Paths => paths_ask(files::path_view(self.root@), self.group),
            ManifestPoint::File => AskView::File(
                self.native().push("active.json"@),
                META_LIMIT as int,
            ),
            ManifestPoint::Decode(bytes) => AskView::Manifest(bytes@),
        }
    }

    /// How many answers it waits for at most.
    pub closed spec fn rank(self) -> nat {
        match self.at {
            ManifestPoint::Paths => 3,
            ManifestPoint::File => 2,
            ManifestPoint::Decode(_) => 1,
        }
    }

    /// What it comes to.
    pub closed spec fn outcome(self, w: World) -> Result<Option<ActiveView>, StorageErrorView> {
        match self.at {
            ManifestPoint::Paths => match paths_fault(w, files::path_view(self.root@), self.group) {
                Some(error) => Err(error),
                None => manifest_of(w, self.native()),
            },
            ManifestPoint::File => manifest_of(w, self.native()),
            ManifestPoint::Decode(bytes) => manifest_from((w.manifest)(bytes@)),
        }
    }

    /// What it asks for from here on, what it waits for first.
    pub closed spec fn asks(self, w: World) -> Seq<AskView> {
        match self.at {
            ManifestPoint::Paths => paths_then_manifest_asks(
                w,
                files::path_view(self.root@),
                self.group,
            ),
            ManifestPoint::File => manifest_asks(w, self.native()),
            ManifestPoint::Decode(bytes) => seq![AskView::Manifest(bytes@)],
        }
    }

    /// What a turn of it comes to.
    pub open spec fn turned(
        turn: Turn<ManifestRead, Result<Option<Active>, StorageError>>,
        w: World,
    ) -> Result<Option<ActiveView>, StorageErrorView> {
        match turn {
            Turn::Ask { state, .. } => state.outcome(w),
            Turn::Done(result) => option_result_view(result),
        }
    }

    /// What is asked for from a turn on.
    pub open spec fn asked(
        turn: Turn<ManifestRead, Result<Option<Active>, StorageError>>,
        w: World,
    ) -> Seq<AskView> {
        match turn {
            Turn::Ask { state, .. } => state.asks(w),
            Turn::Done(_) => Seq::empty(),
        }
    }

    /// A turn asks for what its state waits for, and at most `rank` answers follow.
    pub open spec fn proceeds(
        turn: Turn<ManifestRead, Result<Option<Active>, StorageError>>,
        rank: nat,
    ) -> bool {
        turn matches Turn::Ask { state, ask } ==> ask@ == state.pending() && state.rank() <= rank
    }

    fn ask_file(group: GroupId, root: Vec<String>) -> (turn: Turn<
        ManifestRead,
        Result<Option<Active>, StorageError>,
    >)
        ensures
            Self::proceeds(turn, 2),
            forall|w: World| #[trigger]
                Self::turned(turn, w) == manifest_of(
                    w,
                    native_path(files::path_view(root@), group),
                ),
            forall|w: World| #[trigger]
                Self::asked(turn, w) == manifest_asks(
                    w,
                    native_path(files::path_view(root@), group),
                ),
    {
        let group_dir = files::child(&root, text::u64_text(group).as_str());
        let native = files::child(&group_dir, "native-v1");
        let path = files::child(&native, "active.json");
        Turn::Ask {
            state: ManifestRead { group, root, at: ManifestPoint::File },
            ask: Ask::File { path, limit: META_LIMIT },
        }
    }

    /// Starts to read the manifest of `group`.
    pub(crate) fn begin(group: GroupId, max_bytes: usize, root: Vec<String>) -> (turn: Turn<
        ManifestRead,
        Result<Option<Active>, StorageError>,
    >)
        ensures
            Self::proceeds(turn, 3),
            forall|w: World| #[trigger]
                Self::turned(turn, w) == checked_manifest(
                    w,
                    files::path_view(root@),
                    group,
                    max_bytes as int,
                ),
            forall|w: World| #[trigger]
                Self::asked(turn, w) == checked_manifest_asks(
                    w,
                    files::path_view(root@),
                    group,
                    max_bytes as int,
                ),
    {
        match snapshot::check_cap(max_bytes) {
            Ok(()) => {},
            Err(error) => {
                return Turn::Done(Err(error));
            },
        }
        let ask = ask_paths(&root, group);
        Turn::Ask { state: ManifestRead { group, root, at: ManifestPoint::Paths }, ask }
    }

    /// Starts to read the manifest of `group` where its directories have been checked already.
    pub(crate) fn again(group: GroupId, root: Vec<String>) -> (turn: Turn<
        ManifestRead,
        Result<Option<Active>, StorageError>,
    >)
        ensures
            Self::proceeds(turn, 2),
            forall|w: World| #[trigger]
                Self::turned(turn, w) == manifest_of(
                    w,
                    native_path(files::path_view(root@), group),
                ),
            forall|w: World| #[trigger]
                Self::asked(turn, w) == manifest_asks(
                    w,
                    native_path(files::path_view(root@), group),
                ),
    {
        Self::ask_file(group, root)
    }

    /// Goes on with an answer.
    pub fn step(self, answer: Answer) -> (turn: Turn<
        ManifestRead,
        Result<Option<Active>, StorageError>,
    >)
        requires
            files::fits(self.pending(), answer@),
        ensures
            self.rank() > 0,
            Self::proceeds(turn, (self.rank() - 1) as nat),
            forall|w: World| #[trigger]
                w.answers(self.pending(), answer@) ==> {
                    &&& Self::turned(turn, w) == self.outcome(w)
                    &&& self.asks(w) == seq![self.pending()] + Self::asked(turn, w)
                },
    {
        match (self.at, answer) {
            (ManifestPoint::Paths, Answer::Kinds { root, group, native }) => {
                match validate_native_paths(root, group, native) {
                    Ok(()) => Self::ask_file(self.group, self.root),
                    Err(error) => Turn::Done(Err(error)),
                }
            },
            (ManifestPoint::File, Answer::File(read)) => {
                match files::bounded_read(read, META_LIMIT) {
                    Ok(bytes) => Turn::Ask {
                        state: ManifestRead {
                            group: self.group,
                            root: self.root,
                            at: ManifestPoint::Decode(Ghost(bytes@)),
                        },
                        ask: Ask::Manifest { bytes },
                    },
                    Err(error) => match error.kind {
                        ErrorKind::NotFound => Turn::Done(Ok(None)),
                        _ => Turn::Done(Err(error)),
                    },
                }
            },
            (ManifestPoint::Decode(_), Answer::Manifest(decoded)) => match decoded {
                Ok(active) => Turn::Done(Ok(Some(active))),
                Err(message) => Turn::Done(Err(storage::other(message))),
            },
            _ => unreached(),
        }
    }
}

/// Reading the current snapshot of a group, the lock being held.
pub struct CurrentRead {
    group: GroupId,
    max_bytes: usize,
    native: Vec<String>,
    at: CurrentPoint,
}

enum CurrentPoint {
    Manifest(ManifestRead),
    Generation(GenerationRead),
}

impl CurrentRead {
    /// What it waits for.
    pub closed spec fn pending(self) -> AskView {
        match self.at {
            CurrentPoint::Manifest(read) => read.pending(),
            CurrentPoint::Generation(read) => read.pending(),
        }
    }

    /// How many answers it waits for at most.
    pub closed spec fn rank(self) -> nat {
        match self.at {
            CurrentPoint::Manifest(read) => 4 + read.rank(),
            CurrentPoint::Generation(read) => read.rank(),
        }
    }

    /// What it comes to.
    pub closed spec fn outcome(self, w: World) -> Result<
        Option<NativeSnapshotView>,
        StorageErrorView,
    > {
        match self.at {
            CurrentPoint::Manifest(read) => match read.outcome(w) {
                Err(error) => Err(error),
                Ok(None) => Ok(None),
                Ok(Some(active)) => found(
                    generation_of(
                        w,
                        files::path_view(self.native@),
                        self.group,
                        self.max_bytes as int,
                        active,
                    ),
                ),
            },
            CurrentPoint::Generation(read) => found(read.outcome(w)),
        }
    }

    /// What it asks for from here on, what it waits for first.
    pub closed spec fn asks(self, w: World) -> Seq<AskView> {
        match self.at {
            CurrentPoint::Manifest(read) => read.asks(w) + named_asks(
                w,
                files::path_view(self.native@),
                self.group,
                self.max_bytes as int,
                read.outcome(w),
            ),
            CurrentPoint::Generation(read) => read.asks(w),
        }
    }

    /// What a turn of it comes to.
    pub open spec fn turned(
        turn: Turn<CurrentRead, Result<Option<NativeSnapshot>, StorageError>>,
        w: World,
    ) -> Result<Option<NativeSnapshotView>, StorageErrorView> {
        match turn {
            Turn::Ask { state, .. } => state.outcome(w),
            Turn::Done(result) => option_result_view(result),
        }
    }

    /// What is asked for from a turn on.
    pub open spec fn asked(
        turn: Turn<CurrentRead, Result<Option<NativeSnapshot>, StorageError>>,
        w: World,
    ) -> Seq<AskView> {
        match turn {
            Turn::Ask { state, .. } => state.asks(w),
            Turn::Done(_) => Seq::empty(),
        }
    }

    /// A turn asks for what its state waits for, and at most `rank` answers follow.
    pub open spec fn proceeds(
        turn: Turn<CurrentRead, Result<Option<NativeSnapshot>, StorageError>>,
        rank: nat,
    ) -> bool {
        turn matches Turn::Ask { state, ask } ==> ask@ == state.pending() && state.rank() <= rank
    }

    fn after_generation(
        group: GroupId,
        max_bytes: usize,
        native: Vec<String>,
        turn: Turn<GenerationRead, Result<NativeSnapshot, StorageError>>,
    ) -> (next: Turn<CurrentRead, Result<Option<NativeSnapshot>, StorageError>>)
        ensures
            forall|rank: nat| #[trigger]
                GenerationRead::proceeds(turn, rank) ==> Self::proceeds(next, rank),
            forall|w: World| #[trigger]
                Self::turned(next, w) == found(GenerationRead::turned(turn, w)),
            forall|w: World| #[trigger] Self::asked(next, w) == GenerationRead::asked(turn, w),
    {
        match turn {
            Turn::Ask { state, ask } => Turn::Ask {
                state: CurrentRead {
                    group,
                    max_bytes,
                    native,
                    at: CurrentPoint::Generation(state),
                },
                ask,
            },
            Turn::Done(Ok(snapshot)) => Turn::Done(Ok(Some(snapshot))),
            Turn::Done(Err(error)) => Turn::Done(Err(error)),
        }
    }

    fn after_manifest(
        group: GroupId,
        max_bytes: usize,
        native: Vec<String>,
        turn: Turn<ManifestRead, Result<Option<Active>, StorageError>>,
    ) -> (next: Turn<CurrentRead, Result<Option<NativeSnapshot>, StorageError>>)
        ensures
            forall|rank: nat| #[trigger]
                ManifestRead::proceeds(turn, rank) ==> Self::proceeds(next, 4 + rank),
            forall|w: World| #[trigger]
                Self::turned(next, w) == match ManifestRead::turned(turn, w) {
                    Err(error) => Err(error),
                    Ok(None) => Ok(None),
                    Ok(Some(active)) => found(
                        generation_of(
                            w,
                            files::path_view(native@),
                            group,
                            max_bytes as int,
                            active,
                        ),
                    ),
                },
            forall|w: World| #[trigger]
                Self::asked(next, w) == ManifestRead::asked(turn, w) + named_asks(
                    w,
                    files::path_view(native@),
                    group,
                    max_bytes as int,
                    ManifestRead::turned(turn, w),
                ),
    {
        match turn {
            Turn::Ask { state, ask } => Turn::Ask {
                state: CurrentRead { group, max_bytes, native, at: CurrentPoint::Manifest(state) },
                ask,
            },
            Turn::Done(Err(error)) => Turn::Done(Err(error)),
            Turn::Done(Ok(None)) => Turn::Done(Ok(None)),
            Turn::Done(Ok(Some(active))) => {
                let generation = GenerationRead::begin(
                    group,
                    max_bytes,
                    files::copy_path(&native),
                    active,
                );
                assert(GenerationRead::proceeds(generation, 4));
                Self::after_generation(group, max_bytes, native, generation)
            },
        }
    }

    /// Starts to read the current snapshot of `group`.
    pub(crate) fn begin(group: GroupId, max_bytes: usize, root: Vec<String>) -> (turn: Turn<
        CurrentRead,
        Result<Option<NativeSnapshot>, StorageError>,
    >)
        ensures
            Self::proceeds(turn, 7),
            forall|w: World| #[trigger]
                Self::turned(turn, w) == current_of(
                    w,
                    files::path_view(root@),
                    group,
                    max_bytes as int,
                ),
            forall|w: World| #[trigger]
                Self::asked(turn, w) == current_asks(
                    w,
                    files::path_view(root@),
                    group,
                    max_bytes as int,
                ),
    {
        let group_dir = files::child(&root, text::u64_text(group).as_str());
        let native = files::child(&group_dir, "native-v1");
        let turn = ManifestRead::begin(group, max_bytes, root);
        assert(ManifestRead::proceeds(turn, 3));
        Self::after_manifest(group, max_bytes, native, turn)
    }

    /// Goes on with an answer.
    pub fn step(self, answer: Answer) -> (turn: Turn<
        CurrentRead,
        Result<Option<NativeSnapshot>, StorageError>,
    >)
        requires
            files::fits(self.pending(), answer@),
        ensures
            self.rank() > 0,
            Self::proceeds(turn, (self.rank() - 1) as nat),
            forall|w: World| #[trigger]
                w.answers(self.pending(), answer@) ==> {
                    &&& Self::turned(turn, w) == self.outcome(w)
                    &&& self.asks(w) == seq![self.pending()] + Self::asked(turn, w)
                },
    {
        match self.at {
            CurrentPoint::Manifest(read) => {
                let ghost rank = read.rank();
                let turn = read.step(answer);
                assert(ManifestRead::proceeds(turn, (rank - 1) as nat));
                Self::after_manifest(self.group, self.max_bytes, self.native, turn)
            },
            CurrentPoint::Generation(read) => {
                let ghost rank = read.rank();
                let turn = read.step(answer);
                assert(GenerationRead::proceeds(turn, (rank - 1) as nat));
                Self::after_generation(self.group, self.max_bytes, self.native, turn)
            },
        }
    }
}

/// A snapshot that was found.
pub open spec fn found(read: Result<NativeSnapshotView, StorageErrorView>) -> Result<
    Option<NativeSnapshotView>,
    StorageErrorView,
> {
    match read {
        Ok(snapshot) => Ok(Some(snapshot)),
        Err(error) => Err(error),
    }
}

/// Loading the current snapshot of a group.
pub struct NativeLoad {
    at: LoadPoint,
}

enum LoadPoint {
    Lock { group: GroupId, max_bytes: usize, root: Vec<String> },
    Current(CurrentRead),
}

impl NativeLoad {
    /// What it waits for.
    pub closed spec fn pending(self) -> AskView {
        match self.at {
            LoadPoint::Lock { .. } => AskView::Lock,
            LoadPoint::Current(read) => read.pending(),
        }
    }

    /// How many answers it waits for at most.
    pub closed spec fn rank(self) -> nat {
        match self.at {
            LoadPoint::Lock { .. } => 8,
            LoadPoint::Current(read) => read.rank(),
        }
    }

    /// What it comes to.
    pub closed spec fn outcome(self, w: World) -> Result<
        Option<NativeSnapshotView>,
        StorageErrorView,
    > {
        match self.at {
            LoadPoint::Lock { group, max_bytes, root } => loaded(
                w,
                files::path_view(root@),
                group,
                max_bytes as int,
            ),
            LoadPoint::Current(read) => read.outcome(w),
        }
    }

    /// What it asks for from here on, what it waits for first.
    pub closed spec fn asks(self, w: World) -> Seq<AskView> {
        match self.at {
            LoadPoint::Lock { group, max_bytes, root } => load_asks(
                w,
                files::path_view(root@),
                group,
                max_bytes as int,
            ),
            LoadPoint::Current(read) => read.asks(w),
        }
    }

    /// What a turn of it comes to.
    pub open spec fn turned(
        turn: Turn<NativeLoad, Result<Option<NativeSnapshot>, StorageError>>,
        w: World,
    ) -> Result<Option<NativeSnapshotView>, StorageErrorView> {
        match turn {
            Turn::Ask { state, .. } => state.outcome(w),
            Turn::Done(result) => option_result_view(result),
        }
    }

    /// What is asked for from a turn on.
    pub open spec fn asked(
        turn: Turn<NativeLoad, Result<Option<NativeSnapshot>, StorageError>>,
        w: World,
    ) -> Seq<AskView> {
        match turn {
            Turn::Ask { state, .. } => state.asks(w),
            Turn::Done(_) => Seq::empty(),
        }
    }

    /// A turn asks for what its state waits for, and at most `rank` answers follow.
    pub open spec fn proceeds(
        turn: Turn<NativeLoad, Result<Option<NativeSnapshot>, StorageError>>,
        rank: nat,
    ) -> bool {
        turn matches Turn::Ask { state, ask } ==> ask@ == state.pending() && state.rank() <= rank
    }

    fn after_current(turn: Turn<CurrentRead, Result<Option<NativeSnapshot>, StorageError>>) -> (next:
        Turn<NativeLoad, Result<Option<NativeSnapshot>, StorageError>>)
        ensures
            forall|rank: nat| #[trigger]
                CurrentRead::proceeds(turn, rank) ==> Self::proceeds(next, rank),
            forall|w: World| #[trigger] Self::turned(next, w) == CurrentRead::turned(turn, w),
            forall|w: World| #[trigger] Self::asked(next, w) == CurrentRead::asked(turn, w),
    {
        match turn {
            Turn::Ask { state, ask } => Turn::Ask {
                state: NativeLoad { at: LoadPoint::Current(state) },
                ask,
            },
            Turn::Done(result) => Turn::Done(result),
        }
    }

    /// Goes on with an answer.
    pub fn step(self, answer: Answer) -> (turn: Turn<
        NativeLoad,
        Result<Option<NativeSnapshot>, StorageError>,
    >)
        requires
            files::fits(self.pending(), answer@),
        ensures
            self.rank() > 0,
            Self::proceeds(turn, (self.rank() - 1) as nat),
            forall|w: World| #[trigger]
                w.answers(self.pending(), answer@) ==> {
                    &&& Self::turned(turn, w) == self.outcome(w)
                    &&& self.asks(w) == seq![self.pending()] + Self::asked(turn, w)
                },
    {
        match (self.at, answer) {
            (LoadPoint::Lock { group, max_bytes, root }, Answer::Locked(locked)) => {
                if !locked {
                    return Turn::Done(Err(storage::invalid("snapshot activation poisoned")));
                }
                let turn = CurrentRead::begin(group, max_bytes, root);
                assert(CurrentRead::proceeds(turn, 7));
                Self::after_current(turn)
            },
            (LoadPoint::Current(read), answer) => {
                let ghost rank = read.rank();
                let turn = read.step(answer);
                assert(CurrentRead::proceeds(turn, (rank - 1) as nat));
                Self::after_current(turn)
            },
            _ => unreached(),
        }
    }
}

impl SnapshotCatalog {
    /// Loads only the explicitly active generation; never guesses an older fallback.
    pub fn load_native(&self, group: GroupId, max_bytes: usize) -> (turn: Turn<
        NativeLoad,
        Result<Option<NativeSnapshot>, StorageError>,
    >)
        ensures
            turn is Ask,
            NativeLoad::proceeds(turn, 8),
            forall|w: World| #[trigger]
                NativeLoad::turned(turn, w) == loaded(
                    w,
                    self.root_path(),
                    group,
                    max_bytes as int,
                ),
            forall|w: World| #[trigger]
                NativeLoad::asked(turn, w) == load_asks(
                    w,
                    self.root_path(),
                    group,
                    max_bytes as int,
                ),
    {
        Turn::Ask {
            state: NativeLoad {
                at: LoadPoint::Lock { group, max_bytes, root: files::copy_path(&self.root) },
            },
            ask: Ask::Lock,
        }
    }
}

/// A catalog stands under the root that it was given.
pub proof fn law_catalogs_keep_their_root(
    root: Vec<String>,
    keep: usize,
    catalog: SnapshotCatalog,
    copy: Vec<String>,
    other: Vec<String>,
    same: bool,
)
    requires
        call_ensures(SnapshotCatalog::new, (root, keep), catalog),
        call_ensures(files::copy_path, (&root,), copy),
        call_ensures(files::same_path, (&root, &other), same),
    ensures
        catalog.root@ == root@ && catalog.keep == keep,
        catalog.root_path() == files::path_view(root@),
        files::path_view(copy@) == files::path_view(root@),
        same <==> files::path_view(root@) == files::path_view(other@),
{
}

} // verus!
