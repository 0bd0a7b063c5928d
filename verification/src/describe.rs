//! Describing the current snapshot of a group without holding its image.

use crate::catalog;
use crate::catalog::ManifestRead;
use crate::catalog::MetadataRead;
use crate::catalog::SnapshotCatalog;
use crate::checksum;
use crate::checksum::RunningDigest;
use crate::files;
use crate::files::Answer;
use crate::files::Ask;
use crate::files::AskView;
use crate::files::FileKind;
use crate::files::PathView;
use crate::files::Turn;
use crate::files::World;
use crate::snapshot::Active;
use crate::snapshot::ActiveView;
use crate::snapshot::NativeMeta;
use crate::snapshot::NativeMetaView;
use crate::snapshot::NativeSnapshotInfo;
use crate::snapshot::NativeSnapshotInfoView;
use crate::storage;
use crate::storage::StorageError;
use crate::storage::StorageErrorView;
use crate::text;
use crate::GroupId;
use vstd::pervasive::unreached;
use vstd::prelude::*;

verus! {

/// The most bytes of an image that are read at once.
pub const CHUNK_LIMIT: u64 = 8192;

/// How much is read next of an image of `size` bytes after `seen` bytes: never more than one byte
/// above the size.
pub open spec fn chunk_limit(size: int, seen: int) -> int {
    if size - seen >= CHUNK_LIMIT - 1 {
        CHUNK_LIMIT as int
    } else {
        size - seen + 1
    }
}

/// What is known of an image of which all bytes were seen: they have to match the metadata.
pub open spec fn described_image(metadata: NativeMetaView, seen: Seq<u8>) -> Result<
    NativeSnapshotInfoView,
    StorageErrorView,
> {
    if seen.len() != metadata.size || checksum::checksum(seen) != metadata.data_sha256 {
        Err(storage::invalid_data("snapshot data checksum or size mismatch"@))
    } else {
        Ok(NativeSnapshotInfoView { meta: metadata.meta, size: metadata.size as u64 })
    }
}

/// What is known of an image, read on after `seen` until its end or beyond its size.
pub open spec fn streamed(w: World, path: PathView, metadata: NativeMetaView, seen: Seq<u8>) -> Result<
    NativeSnapshotInfoView,
    StorageErrorView,
>
    decreases
            (if seen.len() > metadata.size {
                0
            } else {
                metadata.size + 1 - seen.len()
            }),
{
    if seen.len() > metadata.size {
        Err(storage::invalid_data("snapshot data checksum or size mismatch"@))
    } else {
        match (w.chunk)(
            path,
            seen.len() as int,
            chunk_limit(metadata.size as int, seen.len() as int),
        ) {
            Err(error) => Err(error),
            Ok(bytes) => if bytes.len() == 0 {
                described_image(metadata, seen)
            } else {
                streamed(w, path, metadata, seen + bytes)
            },
        }
    }
}

/// What is known of an image: it has to be a regular file of the size in the metadata.
pub open spec fn described_file(w: World, path: PathView, metadata: NativeMetaView) -> Result<
    NativeSnapshotInfoView,
    StorageErrorView,
> {
    match (w.kind)(path) {
        Err(error) => Err(error),
        Ok(FileKind::Regular { len }) => if len == metadata.size {
            streamed(w, path, metadata, Seq::empty())
        } else {
            Err(storage::invalid_data("snapshot data type or size mismatch"@))
        },
        Ok(_) => Err(storage::invalid_data("snapshot data type or size mismatch"@)),
    }
}

/// What is known of the generation that `active` names.
pub open spec fn described_generation(
    w: World,
    native: PathView,
    group: GroupId,
    max_bytes: int,
    active: ActiveView,
) -> Result<NativeSnapshotInfoView, StorageErrorView> {
    match catalog::metadata_of(w, native, group, max_bytes, active) {
        Err(error) => Err(error),
        Ok(metadata) => described_file(
            w,
            catalog::generation_path(native, active).push("data.bin"@),
            metadata,
        ),
    }
}

/// What is known of a snapshot that was found.
pub open spec fn found(read: Result<NativeSnapshotInfoView, StorageErrorView>) -> Result<
    Option<NativeSnapshotInfoView>,
    StorageErrorView,
> {
    match read {
        Ok(info) => Ok(Some(info)),
        Err(error) => Err(error),
    }
}

/// What is known of the generation that the manifest names.
pub open spec fn described_manifest(
    w: World,
    native: PathView,
    group: GroupId,
    max_bytes: int,
    manifest: Result<Option<ActiveView>, StorageErrorView>,
) -> Result<Option<NativeSnapshotInfoView>, StorageErrorView> {
    match manifest {
        Err(error) => Err(error),
        Ok(None) => Ok(None),
        Ok(Some(active)) => found(described_generation(w, native, group, max_bytes, active)),
    }
}

/// What is known of the current snapshot of `group`, read under the activation lock.
pub open spec fn described(w: World, root: PathView, group: GroupId, max_bytes: int) -> Result<
    Option<NativeSnapshotInfoView>,
    StorageErrorView,
> {
    if w.locks {
        described_manifest(
            w,
            catalog::native_path(root, group),
            group,
            max_bytes,
            catalog::checked_manifest(w, root, group, max_bytes),
        )
    } else {
        Err(catalog::poisoned())
    }
}

/// What is asked for to read an image on after `seen`: chunk by chunk, until its end or beyond its
/// size.
pub open spec fn stream_asks(w: World, path: PathView, metadata: NativeMetaView, seen: Seq<u8>) -> Seq<
    AskView,
>
    decreases
            (if seen.len() > metadata.size {
                0
            } else {
                metadata.size + 1 - seen.len()
            }),
{
    let limit = chunk_limit(metadata.size as int, seen.len() as int);
    if seen.len() > metadata.size {
        Seq::empty()
    } else {
        seq![AskView::Chunk(path, seen.len() as int, limit)] + match (w.chunk)(
            path,
            seen.len() as int,
            limit,
        ) {
            Err(_) => Seq::empty(),
            Ok(bytes) => if bytes.len() == 0 {
                Seq::empty()
            } else {
                stream_asks(w, path, metadata, seen + bytes)
            },
        }
    }
}

/// What is asked for to describe an image: what it is, then its bytes.
pub open spec fn file_asks(w: World, path: PathView, metadata: NativeMetaView) -> Seq<AskView> {
    seq![AskView::Kind(path)] + match (w.kind)(path) {
        Ok(FileKind::Regular { len }) => if len == metadata.size {
            stream_asks(w, path, metadata, Seq::empty())
        } else {
            Seq::empty()
        },
        _ => Seq::empty(),
    }
}

/// What is asked for once the metadata is known: the image at `path`.
pub open spec fn image_asks(
    w: World,
    path: PathView,
    metadata: Result<NativeMetaView, StorageErrorView>,
) -> Seq<AskView> {
    match metadata {
        Ok(metadata) => file_asks(w, path, metadata),
        Err(_) => Seq::empty(),
    }
}

/// What is asked for once the manifest is known: the generation that it names, and no other.
pub open spec fn named_asks(
    w: World,
    native: PathView,
    group: GroupId,
    max_bytes: int,
    manifest: Result<Option<ActiveView>, StorageErrorView>,
) -> Seq<AskView> {
    match manifest {
        Ok(Some(active)) => catalog::metadata_asks(w, native, group, active) + image_asks(
            w,
            catalog::generation_path(native, active).push("data.bin"@),
            catalog::metadata_of(w, native, group, max_bytes, active),
        ),
        _ => Seq::empty(),
    }
}

/// What is asked for to describe the current snapshot of `group`: the lock first, and nothing
/// without it.
pub open spec fn describe_asks(w: World, root: PathView, group: GroupId, max_bytes: int) -> Seq<
    AskView,
> {
    seq![AskView::Lock] + if w.locks {
        catalog::checked_manifest_asks(w, root, group, max_bytes) + named_asks(
            w,
            catalog::native_path(root, group),
            group,
            max_bytes,
            catalog::checked_manifest(w, root, group, max_bytes),
        )
    } else {
        Seq::empty()
    }
}

/// An image that is being read in chunks.
struct Streaming {
    path: Vec<String>,
    metadata: NativeMeta,
    seen: u64,
    digest: RunningDigest,
}

impl Streaming {
    #[verifier::type_invariant]
    spec fn inv(self) -> bool {
        &&& self.seen == checksum::digested(self.digest).len()
        &&& self.seen <= self.metadata.size
    }
}

/// Describing the current snapshot of a group.
pub struct NativeDescribe {
    at: DescribePoint,
}

enum DescribePoint {
    Lock { group: GroupId, max_bytes: usize, root: Vec<String> },
    Manifest { group: GroupId, max_bytes: usize, native: Vec<String>, read: ManifestRead },
    Metadata { data_path: Vec<String>, read: MetadataRead },
    Kind { data_path: Vec<String>, metadata: NativeMeta },
    Chunk(Streaming),
}

impl NativeDescribe {
    /// What it waits for.
    pub closed spec fn pending(self) -> AskView {
        match self.at {
            DescribePoint::Lock { .. } => AskView::Lock,
            DescribePoint::Manifest { read, .. } => read.pending(),
            DescribePoint::Metadata { read, .. } => read.pending(),
            DescribePoint::Kind { data_path, .. } => AskView::Kind(files::path_view(data_path@)),
            DescribePoint::Chunk(s) => AskView::Chunk(
                files::path_view(s.path@),
                s.seen as int,
                chunk_limit(s.metadata.size as int, s.seen as int),
            ),
        }
    }

    /// What comes before the first chunk counts first, then the bytes that are still to come.
    pub closed spec fn rank(self) -> (nat, nat) {
        match self.at {
            DescribePoint::Lock { .. } => (9, 0),
            DescribePoint::Manifest { read, .. } => (5 + read.rank(), 0),
            DescribePoint::Metadata { read, .. } => (2 + read.rank(), 0),
            DescribePoint::Kind { .. } => (1, 0),
            DescribePoint::Chunk(s) => (0, (s.metadata.size + 1 - s.seen) as nat),
        }
    }

    /// What it comes to.
    pub closed spec fn outcome(self, w: World) -> Result<
        Option<NativeSnapshotInfoView>,
        StorageErrorView,
    > {
        match self.at {
            DescribePoint::Lock { group, max_bytes, root } => described(
                w,
                files::path_view(root@),
                group,
                max_bytes as int,
            ),
            DescribePoint::Manifest { group, max_bytes, native, read } => described_manifest(
                w,
                files::path_view(native@),
                group,
                max_bytes as int,
                read.outcome(w),
            ),
            DescribePoint::Metadata { data_path, read } => found(
                match read.outcome(w) {
                    Err(error) => Err(error),
                    Ok(metadata) => described_file(w, files::path_view(data_path@), metadata),
                },
            ),
            DescribePoint::Kind { data_path, metadata } => found(
                described_file(w, files::path_view(data_path@), metadata@),
            ),
            DescribePoint::Chunk(s) => found(
                streamed(w, files::path_view(s.path@), s.metadata@, checksum::digested(s.digest)),
            ),
        }
    }

    /// What it asks for from here on, what it waits for first.
    pub closed spec fn asks(self, w: World) -> Seq<AskView> {
        match self.at {
            DescribePoint::Lock { group, max_bytes, root } => describe_asks(
                w,
                files::path_view(root@),
                group,
                max_bytes as int,
            ),
            DescribePoint::Manifest { group, max_bytes, native, read } => read.asks(w)
                + named_asks(
                w,
                files::path_view(native@),
                group,
                max_bytes as int,
                read.outcome(w),
            ),
            DescribePoint::Metadata { data_path, read } => read.asks(w) + image_asks(
                w,
                files::path_view(data_path@),
                read.outcome(w),
            ),
            DescribePoint::Kind { data_path, metadata } => file_asks(
                w,
                files::path_view(data_path@),
                metadata@,
            ),
            DescribePoint::Chunk(s) => stream_asks(
                w,
                files::path_view(s.path@),
                s.metadata@,
                checksum::digested(s.digest),
            ),
        }
    }

    /// What a turn of it comes to.
    pub open spec fn turned(
        turn: Turn<NativeDescribe, Result<Option<NativeSnapshotInfo>, StorageError>>,
        w: World,
    ) -> Result<Option<NativeSnapshotInfoView>, StorageErrorView> {
        match turn {
            Turn::Ask { state, .. } => state.outcome(w),
            Turn::Done(result) => catalog::option_result_view(result),
        }
    }

    /// What is asked for from a turn on.
    pub open spec fn asked(
        turn: Turn<NativeDescribe, Result<Option<NativeSnapshotInfo>, StorageError>>,
        w: World,
    ) -> Seq<AskView> {
        match turn {
            Turn::Ask { state, .. } => state.asks(w),
            Turn::Done(_) => Seq::empty(),
        }
    }

    /// A turn asks for what its state waits for, and its rank is below `rank`.
    pub open spec fn proceeds(
        turn: Turn<NativeDescribe, Result<Option<NativeSnapshotInfo>, StorageError>>,
        rank: (nat, nat),
    ) -> bool {
        turn matches Turn::Ask { state, ask } ==> ask@ == state.pending() && (state.rank().0
            < rank.0 || state.rank().0 == rank.0 && state.rank().1 < rank.1)
    }

    fn after_metadata(
        turn: Turn<MetadataRead, Result<NativeMeta, StorageError>>,
        data_path: Vec<String>,
    ) -> (next: Turn<NativeDescribe, Result<Option<NativeSnapshotInfo>, StorageError>>)
        ensures
            forall|rank: nat| #[trigger]
                MetadataRead::proceeds(turn, rank) ==> Self::proceeds(next, (3 + rank, 0)),
            forall|w: World| #[trigger]
                Self::turned(next, w) == found(
                    match MetadataRead::turned(turn, w) {
                        Err(error) => Err(error),
                        Ok(metadata) => described_file(w, files::path_view(data_path@), metadata),
                    },
                ),
            forall|w: World| #[trigger]
                Self::asked(next, w) == MetadataRead::asked(turn, w) + image_asks(
                    w,
                    files::path_view(data_path@),
                    MetadataRead::turned(turn, w),
                ),
    {
        match turn {
            Turn::Ask { state, ask } => Turn::Ask {
                state: NativeDescribe { at: DescribePoint::Metadata { data_path, read: state } },
                ask,
            },
            Turn::Done(Err(error)) => Turn::Done(Err(error)),
            Turn::Done(Ok(metadata)) => {
                let path = files::copy_path(&data_path);
                Turn::Ask {
                    state: NativeDescribe { at: DescribePoint::Kind { data_path, metadata } },
                    ask: Ask::Kind { path },
                }
            },
        }
    }

    fn after_manifest(
        group: GroupId,
        max_bytes: usize,
        native: Vec<String>,
        turn: Turn<ManifestRead, Result<Option<Active>, StorageError>>,
    ) -> (next: Turn<NativeDescribe, Result<Option<NativeSnapshotInfo>, StorageError>>)
        ensures
            forall|rank: nat| #[trigger]
                ManifestRead::proceeds(turn, rank) ==> Self::proceeds(next, (6 + rank, 0)),
            forall|w: World| #[trigger]
                Self::turned(next, w) == described_manifest(
                    w,
                    files::path_view(native@),
                    group,
                    max_bytes as int,
                    ManifestRead::turned(turn, w),
                ),
            forall|w: World| #[trigger]
                Self::asked(next, w) == ManifestRead::asked(turn, w) + named_asks(
                    w,
                    files::path_view(native@),
                    group,
                    max_bytes as int,
                    ManifestRead::turned(turn, w),
                ),
    {
        match turn {
            Turn::Ask { state, ask } => Turn::Ask {
                state: NativeDescribe {
                    at: DescribePoint::Manifest { group, max_bytes, native, read: state },
                },
                ask,
            },
            Turn::Done(Err(error)) => Turn::Done(Err(error)),
            Turn::Done(Ok(None)) => Turn::Done(Ok(None)),
            Turn::Done(Ok(Some(active))) => {
                let dir = files::child(&native, active.generation.as_str());
                let data_path = files::child(&dir, "data.bin");
                let metadata = MetadataRead::begin(group, max_bytes, native, active);
                assert(MetadataRead::proceeds(metadata, 3));
                Self::after_metadata(metadata, data_path)
            },
        }
    }

    fn ask_chunk(path: Vec<String>, metadata: NativeMeta, seen: u64, digest: RunningDigest) -> (next:
        Turn<NativeDescribe, Result<Option<NativeSnapshotInfo>, StorageError>>)
        requires
            seen == checksum::digested(digest).len(),
            seen <= metadata.size,
        ensures
            next matches Turn::Ask { state, ask } && ask@ == state.pending() && state.rank() == (
                0nat,
                (metadata.size + 1 - seen) as nat,
            ),
            forall|w: World| #[trigger]
                Self::turned(next, w) == found(
                    streamed(w, files::path_view(path@), metadata@, checksum::digested(digest)),
                ),
            forall|w: World| #[trigger]
                Self::asked(next, w) == stream_asks(
                    w,
                    files::path_view(path@),
                    metadata@,
                    checksum::digested(digest),
                ),
    {
        let left: u64 = metadata.size as u64 - seen;
        let limit: u64 = if left >= CHUNK_LIMIT - 1 {
            CHUNK_LIMIT
        } else {
            left + 1
        };
        let ask = Ask::Chunk { path: files::copy_path(&path), offset: seen, limit };
        Turn::Ask {
            state: NativeDescribe {
                at: DescribePoint::Chunk(Streaming { path, metadata, seen, digest }),
            },
            ask,
        }
    }

    fn take_chunk(streaming: Streaming, chunk: Result<Vec<u8>, StorageError>) -> (next: Turn<
        NativeDescribe,
        Result<Option<NativeSnapshotInfo>, StorageError>,
    >)
        ensures
            Self::proceeds(next, (0, (streaming.metadata.size + 1 - streaming.seen) as nat)),
            forall|w: World|
                (w.chunk)(
                    files::path_view(streaming.path@),
                    streaming.seen as int,
                    chunk_limit(streaming.metadata.size as int, streaming.seen as int),
                ) == storage::result_view(chunk) ==> #[trigger] Self::turned(next, w) == found(
                    streamed(
                        w,
                        files::path_view(streaming.path@),
                        streaming.metadata@,
                        checksum::digested(streaming.digest),
                    ),
                ),
            forall|w: World|
                (w.chunk)(
                    files::path_view(streaming.path@),
                    streaming.seen as int,
                    chunk_limit(streaming.metadata.size as int, streaming.seen as int),
                ) == storage::result_view(chunk) ==> stream_asks(
                    w,
                    files::path_view(streaming.path@),
                    streaming.metadata@,
                    checksum::digested(streaming.digest),
                ) == seq![
                    AskView::Chunk(
                        files::path_view(streaming.path@),
                        streaming.seen as int,
                        chunk_limit(streaming.metadata.size as int, streaming.seen as int),
                    ),
                ] + #[trigger] Self::asked(next, w),
    {
        proof {
            use_type_invariant(&streaming);
        }
        let Streaming { path, metadata, seen, digest } = streaming;
        let bytes = match chunk {
            Ok(bytes) => bytes,
            Err(error) => {
                return Turn::Done(Err(error));
            },
        };
        let read: u64 = bytes.len() as u64;
        if read == 0 {
            let sum = checksum::finish_checksum(digest);
            if seen != metadata.size as u64 || sum != metadata.data_sha256 {
                return Turn::Done(Err(storage::invalid("snapshot data checksum or size mismatch")));
            }
            return Turn::Done(Ok(Some(NativeSnapshotInfo { meta: metadata.meta, size: seen })));
        }
        proof {
            reveal_with_fuel(streamed, 2);
            reveal_with_fuel(stream_asks, 2);
        }
        if read > metadata.size as u64 - seen {
            return Turn::Done(Err(storage::invalid("snapshot data checksum or size mismatch")));
        }
        let mut digest = digest;
        checksum::digest_update(&mut digest, bytes.as_slice());
        Self::ask_chunk(path, metadata, seen + read, digest)
    }

    /// Goes on with an answer.
    pub fn step(self, answer: Answer) -> (turn: Turn<
        NativeDescribe,
        Result<Option<NativeSnapshotInfo>, StorageError>,
    >)
        requires
            files::fits(self.pending(), answer@),
        ensures
            Self::proceeds(turn, self.rank()),
            forall|w: World| #[trigger]
                w.answers(self.pending(), answer@) ==> {
                    &&& Self::turned(turn, w) == self.outcome(w)
                    &&& self.asks(w) == seq![self.pending()] + Self::asked(turn, w)
                },
    {
        match (self.at, answer) {
            (DescribePoint::Lock { group, max_bytes, root }, Answer::Locked(locked)) => {
                if !locked {
                    return Turn::Done(Err(storage::invalid("snapshot activation poisoned")));
                }
                let group_dir = files::child(&root, text::u64_text(group).as_str());
                let native = files::child(&group_dir, "native-v1");
                let turn = ManifestRead::begin(group, max_bytes, root);
                assert(ManifestRead::proceeds(turn, 3));
                Self::after_manifest(group, max_bytes, native, turn)
            },
            (DescribePoint::Manifest { group, max_bytes, native, read }, answer) => {
                let ghost rank = read.rank();
                let turn = read.step(answer);
                assert(ManifestRead::proceeds(turn, (rank - 1) as nat));
                Self::after_manifest(group, max_bytes, native, turn)
            },
            (DescribePoint::Metadata { data_path, read }, answer) => {
                let ghost rank = read.rank();
                let turn = read.step(answer);
                assert(MetadataRead::proceeds(turn, (rank - 1) as nat));
                Self::after_metadata(turn, data_path)
            },
            (DescribePoint::Kind { data_path, metadata }, Answer::Kind(kind)) => match kind {
                Err(error) => Turn::Done(Err(error)),
                Ok(FileKind::Regular { len }) => {
                    if len != metadata.size as u64 {
                        return Turn::Done(
                            Err(storage::invalid("snapshot data type or size mismatch")),
                        );
                    }
                    Self::ask_chunk(data_path, metadata, 0, checksum::digest_start())
                },
                Ok(_) => Turn::Done(Err(storage::invalid("snapshot data type or size mismatch"))),
            },
            (DescribePoint::Chunk(streaming), Answer::Chunk(chunk)) => {
                Self::take_chunk(streaming, chunk)
            },
            _ => unreached(),
        }
    }
}

impl SnapshotCatalog {
    /// Validates the current generation in chunks. Status readers never retain a whole image.
    pub fn describe_native(&self, group: GroupId, max_bytes: usize) -> (turn: Turn<
        NativeDescribe,
        Result<Option<NativeSnapshotInfo>, StorageError>,
    >)
        ensures
            turn is Ask,
            NativeDescribe::proceeds(turn, (10, 0)),
            forall|w: World| #[trigger]
                NativeDescribe::turned(turn, w) == described(
                    w,
                    self.root_path(),
                    group,
                    max_bytes as int,
                ),
            forall|w: World| #[trigger]
                NativeDescribe::asked(turn, w) == describe_asks(
                    w,
                    self.root_path(),
                    group,
                    max_bytes as int,
                ),
    {
        Turn::Ask {
            state: NativeDescribe {
                at: DescribePoint::Lock { group, max_bytes, root: files::copy_path(&self.root) },
            },
            ask: Ask::Lock,
        }
    }
}

} // verus!
