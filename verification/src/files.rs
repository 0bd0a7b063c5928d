//! What the snapshot catalog asks of the file system, and what it is answered.
//!
//! A catalog operation runs in turns: it asks for one thing, the caller does it and answers, and the
//! operation asks for the next thing or is done.

use crate::snapshot::Active;
use crate::snapshot::ActiveView;
use crate::snapshot::NativeMeta;
use crate::snapshot::NativeMetaView;
use crate::storage;
use crate::storage::StorageError;
use crate::storage::StorageErrorView;
use vstd::prelude::*;

verus! {

/// The components of a path.
pub type PathView = Seq<Seq<char>>;

/// The components behind a vector of strings.
pub open spec fn path_view(path: Seq<String>) -> PathView {
    path.map_values(|s: String| s@)
}

/// A copy of a path.
pub fn copy_path(path: &Vec<String>) -> (copy: Vec<String>)
    ensures
        path_view(copy@) == path_view(path@),
{
    let mut copy: Vec<String> = Vec::new();
    let mut i: usize = 0;
    while i < path.len()
        invariant
            i <= path.len(),
            copy.len() == i,
            forall|j: int| 0 <= j < i ==> copy@[j]@ == path@[j]@,
        decreases path.len() - i,
    {
        copy.push(path[i].clone());
        i += 1;
    }
    assert(path_view(copy@) =~= path_view(path@));
    copy
}

/// The path of `name` under `path`.
pub fn child(path: &Vec<String>, name: &str) -> (joined: Vec<String>)
    ensures
        path_view(joined@) == path_view(path@).push(name@),
{
    let mut joined = copy_path(path);
    let ghost before = joined@;
    joined.push(name.to_owned());
    assert(path_view(joined@) =~= path_view(before).push(name@));
    joined
}

/// Whether two paths are the same.
pub fn same_path(a: &Vec<String>, b: &Vec<String>) -> (same: bool)
    ensures
        same == (path_view(a@) == path_view(b@)),
{
    if a.len() != b.len() {
        assert(path_view(a@).len() != path_view(b@).len());
        return false;
    }
    let mut i: usize = 0;
    while i < a.len()
        invariant
            i <= a.len() == b.len(),
            forall|j: int| 0 <= j < i ==> path_view(a@)[j] == path_view(b@)[j],
        decreases a.len() - i,
    {
        if a[i] != b[i] {
            assert(path_view(a@)[i as int] != path_view(b@)[i as int]);
            return false;
        }
        i += 1;
    }
    assert(path_view(a@) =~= path_view(b@));
    true
}

/// What stands at a path.
#[derive(Debug, Clone, Copy, PartialEq, Eq, Structural)]
pub enum FileKind {
    Directory,
    /// A regular file of `len` bytes.
    Regular { len: u64 },
    /// Anything else, symbolic links included.
    Special,
}

/// What reading a file gave.
#[verifier::ext_equal]
pub struct ReadView {
    pub regular: bool,
    pub declared: u64,
    pub bytes: Seq<u8>,
}

/// What reading a file gave: whether it is a regular file, the length that it declares, and its
/// bytes, of which no more need to be read than one above the limit.
#[derive(Debug)]
pub struct ReadFile {
    pub regular: bool,
    pub declared: u64,
    pub bytes: Vec<u8>,
}

impl View for ReadFile {
    type V = ReadView;

    open spec fn view(&self) -> ReadView {
        ReadView { regular: self.regular, declared: self.declared, bytes: self.bytes@ }
    }
}

/// A change to the file system.
pub enum OpView {
    CreateDirAll(PathView),
    CreateDir(PathView),
    Write(PathView, Seq<u8>),
    SyncDir(PathView),
    SyncParentOf(PathView),
    Rename(PathView, PathView),
    RemoveTree(PathView),
}

/// A change to the file system.
#[derive(Debug)]
pub enum FileOp {
    /// Create the directory and its missing parents.
    CreateDirAll { path: Vec<String> },
    /// Create the directory, which must not exist.
    CreateDir { path: Vec<String> },
    /// Write the file anew and make its bytes durable.
    Write { path: Vec<String>, bytes: Vec<u8> },
    /// Make the entries of the directory durable.
    SyncDir { path: Vec<String> },
    /// Make the entries of the directory that holds `path` durable, where there is one.
    SyncParentOf { path: Vec<String> },
    /// Rename, replacing a file at `to`.
    Rename { from: Vec<String>, to: Vec<String> },
    /// Remove the directory and everything below it.
    RemoveTree { path: Vec<String> },
}

impl View for FileOp {
    type V = OpView;

    open spec fn view(&self) -> OpView {
        match self {
            FileOp::CreateDirAll { path } => OpView::CreateDirAll(path_view(path@)),
            FileOp::CreateDir { path } => OpView::CreateDir(path_view(path@)),
            FileOp::Write { path, bytes } => OpView::Write(path_view(path@), bytes@),
            FileOp::SyncDir { path } => OpView::SyncDir(path_view(path@)),
            FileOp::SyncParentOf { path } => OpView::SyncParentOf(path_view(path@)),
            FileOp::Rename { from, to } => OpView::Rename(path_view(from@), path_view(to@)),
            FileOp::RemoveTree { path } => OpView::RemoveTree(path_view(path@)),
        }
    }
}

/// The changes behind a vector of them.
pub open spec fn script_view(script: Seq<FileOp>) -> Seq<OpView> {
    script.map_values(|op: FileOp| op@)
}

/// What an operation asks for.
pub enum AskView {
    Lock,
    Kinds(PathView, PathView, PathView),
    Kind(PathView),
    File(PathView, int),
    Manifest(Seq<u8>),
    Metadata(Seq<u8>),
    EncodeManifest(ActiveView),
    EncodeMetadata(NativeMetaView),
    Present(PathView),
    Perform(Seq<OpView>),
    Chunk(PathView, int, int),
}

/// What an operation asks for.
#[derive(Debug)]
pub enum Ask {
    /// Take the activation lock, and keep it until the operation is done or asks for it anew.
    Lock,
    /// Say what stands at the three paths, without following links.
    Kinds { root: Vec<String>, group: Vec<String>, native: Vec<String> },
    /// Say what stands at the path, without following links.
    Kind { path: Vec<String> },
    /// Read the file, at most one byte above `limit`.
    File { path: Vec<String>, limit: usize },
    /// Decode a manifest.
    Manifest { bytes: Vec<u8> },
    /// Decode a metadata file.
    Metadata { bytes: Vec<u8> },
    /// Encode a manifest.
    EncodeManifest { active: Active },
    /// Encode a metadata file.
    EncodeMetadata { metadata: NativeMeta },
    /// Say whether anything stands at the path, following links.
    Present { path: Vec<String> },
    /// Make the changes in order, and stop at the first that fails.
    Perform { script: Vec<FileOp> },
    /// Read the next bytes of the file: at least one, unless the end is reached, and at most `limit`.
    /// An interrupted read is tried again.
    Chunk { path: Vec<String>, offset: u64, limit: u64 },
}

impl View for Ask {
    type V = AskView;

    open spec fn view(&self) -> AskView {
        match self {
            Ask::Lock => AskView::Lock,
            Ask::Kinds { root, group, native } => AskView::Kinds(
                path_view(root@),
                path_view(group@),
                path_view(native@),
            ),
            Ask::Kind { path } => AskView::Kind(path_view(path@)),
            Ask::File { path, limit } => AskView::File(path_view(path@), *limit as int),
            Ask::Manifest { bytes } => AskView::Manifest(bytes@),
            Ask::Metadata { bytes } => AskView::Metadata(bytes@),
            Ask::EncodeManifest { active } => AskView::EncodeManifest(active@),
            Ask::EncodeMetadata { metadata } => AskView::EncodeMetadata(metadata@),
            Ask::Present { path } => AskView::Present(path_view(path@)),
            Ask::Perform { script } => AskView::Perform(script_view(script@)),
            Ask::Chunk { path, offset, limit } => AskView::Chunk(
                path_view(path@),
                *offset as int,
                *limit as int,
            ),
        }
    }
}

/// What an operation is answered.
pub enum AnswerView {
    Locked(bool),
    Kinds(
        Result<FileKind, StorageErrorView>,
        Result<FileKind, StorageErrorView>,
        Result<FileKind, StorageErrorView>,
    ),
    Kind(Result<FileKind, StorageErrorView>),
    File(Result<ReadView, StorageErrorView>),
    Manifest(Result<ActiveView, Seq<char>>),
    Metadata(Result<NativeMetaView, Seq<char>>),
    Encoded(Result<Seq<u8>, Seq<char>>),
    Present(bool),
    Performed(Option<StorageErrorView>),
    Chunk(Result<Seq<u8>, StorageErrorView>),
}

/// What an operation is answered.
#[derive(Debug)]
pub enum Answer {
    /// Whether the lock could be taken; it cannot where an earlier holder failed.
    Locked(bool),
    Kinds {
        root: Result<FileKind, StorageError>,
        group: Result<FileKind, StorageError>,
        native: Result<FileKind, StorageError>,
    },
    Kind(Result<FileKind, StorageError>),
    File(Result<ReadFile, StorageError>),
    /// The manifest, or the decoder's message.
    Manifest(Result<Active, String>),
    /// The metadata, or the decoder's message.
    Metadata(Result<NativeMeta, String>),
    /// The encoding, or the encoder's message.
    Encoded(Result<Vec<u8>, String>),
    Present(bool),
    /// The first failure, if there was one.
    Performed(Option<StorageError>),
    Chunk(Result<Vec<u8>, StorageError>),
}

/// A kind, its failure by its view.
pub open spec fn kind_view(kind: Result<FileKind, StorageError>) -> Result<
    FileKind,
    StorageErrorView,
> {
    match kind {
        Ok(kind) => Ok(kind),
        Err(error) => Err(error@),
    }
}

/// A coded value, its failure being a message.
pub open spec fn coded_view<T: View>(coded: Result<T, String>) -> Result<T::V, Seq<char>> {
    match coded {
        Ok(value) => Ok(value@),
        Err(message) => Err(message@),
    }
}

impl View for Answer {
    type V = AnswerView;

    open spec fn view(&self) -> AnswerView {
        match self {
            Answer::Locked(locked) => AnswerView::Locked(*locked),
            Answer::Kinds { root, group, native } => AnswerView::Kinds(
                kind_view(*root),
                kind_view(*group),
                kind_view(*native),
            ),
            Answer::Kind(kind) => AnswerView::Kind(kind_view(*kind)),
            Answer::File(file) => AnswerView::File(storage::result_view(*file)),
            Answer::Manifest(active) => AnswerView::Manifest(coded_view(*active)),
            Answer::Metadata(metadata) => AnswerView::Metadata(coded_view(*metadata)),
            Answer::Encoded(bytes) => AnswerView::Encoded(coded_view(*bytes)),
            Answer::Present(present) => AnswerView::Present(*present),
            Answer::Performed(failed) => AnswerView::Performed(
                match failed {
                    Some(error) => Some(error@),
                    None => None,
                },
            ),
            Answer::Chunk(chunk) => AnswerView::Chunk(storage::result_view(*chunk)),
        }
    }
}

/// The answer is of the kind that was asked for.
pub open spec fn fits(ask: AskView, answer: AnswerView) -> bool {
    match ask {
        AskView::Lock => answer is Locked,
        AskView::Kinds(..) => answer is Kinds,
        AskView::Kind(_) => answer is Kind,
        AskView::File(..) => answer is File,
        AskView::Manifest(_) => answer is Manifest,
        AskView::Metadata(_) => answer is Metadata,
        AskView::EncodeManifest(_) => answer is Encoded,
        AskView::EncodeMetadata(_) => answer is Encoded,
        AskView::Present(_) => answer is Present,
        AskView::Perform(_) => answer is Performed,
        AskView::Chunk(..) => answer is Chunk,
    }
}

/// Everything that an operation can be answered: what the lock, the files and the coders say.
pub struct World {
    pub locks: bool,
    pub kind: spec_fn(PathView) -> Result<FileKind, StorageErrorView>,
    pub file: spec_fn(PathView, int) -> Result<ReadView, StorageErrorView>,
    pub manifest: spec_fn(Seq<u8>) -> Result<ActiveView, Seq<char>>,
    pub metadata: spec_fn(Seq<u8>) -> Result<NativeMetaView, Seq<char>>,
    pub encode_manifest: spec_fn(ActiveView) -> Result<Seq<u8>, Seq<char>>,
    pub encode_metadata: spec_fn(NativeMetaView) -> Result<Seq<u8>, Seq<char>>,
    pub present: spec_fn(PathView) -> bool,
    pub perform: spec_fn(Seq<OpView>) -> Option<StorageErrorView>,
    pub chunk: spec_fn(PathView, int, int) -> Result<Seq<u8>, StorageErrorView>,
}

impl World {
    /// The world answers `ask` with `answer`.
    pub open spec fn answers(self, ask: AskView, answer: AnswerView) -> bool {
        answer == match ask {
            AskView::Lock => AnswerView::Locked(self.locks),
            AskView::Kinds(root, group, native) => AnswerView::Kinds(
                (self.kind)(root),
                (self.kind)(group),
                (self.kind)(native),
            ),
            AskView::Kind(path) => AnswerView::Kind((self.kind)(path)),
            AskView::File(path, limit) => AnswerView::File((self.file)(path, limit)),
            AskView::Manifest(bytes) => AnswerView::Manifest((self.manifest)(bytes)),
            AskView::Metadata(bytes) => AnswerView::Metadata((self.metadata)(bytes)),
            AskView::EncodeManifest(active) => AnswerView::Encoded(
                (self.encode_manifest)(active),
            ),
            AskView::EncodeMetadata(metadata) => AnswerView::Encoded(
                (self.encode_metadata)(metadata),
            ),
            AskView::Present(path) => AnswerView::Present((self.present)(path)),
            AskView::Perform(script) => AnswerView::Performed((self.perform)(script)),
            AskView::Chunk(path, offset, limit) => AnswerView::Chunk(
                (self.chunk)(path, offset, limit),
            ),
        }
    }
}

/// What an operation does next.
pub enum Turn<M, T> {
    /// It asks for something, and goes on from `state` with the answer.
    Ask { state: M, ask: Ask },
    /// It is done.
    Done(T),
}

/// The bytes of a bounded read: the file has to be regular, and neither what it declares nor what
/// was read may exceed the limit.
pub open spec fn bounded(read: Result<ReadView, StorageErrorView>, limit: int) -> Result<
    Seq<u8>,
    StorageErrorView,
> {
    match read {
        Err(error) => Err(error),
        Ok(file) => if !file.regular {
            Err(storage::invalid_data("snapshot file is not regular"@))
        } else if file.declared > limit || file.bytes.len() > limit {
            Err(storage::invalid_data("snapshot file exceeds bound"@))
        } else {
            Ok(file.bytes)
        },
    }
}

/// Judges a bounded read.
pub fn bounded_read(read: Result<ReadFile, StorageError>, limit: usize) -> (bytes: Result<
    Vec<u8>,
    StorageError,
>)
    ensures
        storage::result_view(bytes) == bounded(storage::result_view(read), limit as int),
{
    match read {
        Err(error) => Err(error),
        Ok(file) => {
            if !file.regular {
                return Err(storage::invalid("snapshot file is not regular"));
            }
            if file.declared > limit as u64 || file.bytes.len() > limit {
                return Err(storage::invalid("snapshot file exceeds bound"));
            }
            Ok(file.bytes)
        },
    }
}

/// A bounded read gives the bytes of the file exactly where it is regular and neither what it
/// declares nor what was read exceeds the limit; a failed read fails as it failed.
pub proof fn law_bounded_reads_give_whole_files(
    read: Result<ReadFile, StorageError>,
    limit: usize,
    bytes: Result<Vec<u8>, StorageError>,
)
    requires
        call_ensures(bounded_read, (read, limit), bytes),
    ensures
        bytes is Ok <==> read is Ok && read->Ok_0.regular && read->Ok_0.declared <= limit
            && read->Ok_0.bytes@.len() <= limit,
        bytes is Ok ==> bytes->Ok_0@ == read->Ok_0.bytes@,
        read is Err ==> bytes is Err && bytes->Err_0.kind == read->Err_0.kind
            && bytes->Err_0.message@ == read->Err_0.message@,
        read is Ok && bytes is Err ==> bytes->Err_0.kind is InvalidData,
{
}

/// A world answers each question with what it knows of the very thing that is asked for.
pub proof fn law_worlds_answer_what_is_asked(
    w: World,
    p: PathView,
    q: PathView,
    r: PathView,
    n: int,
    m: int,
    bytes: Seq<u8>,
    active: ActiveView,
    metadata: NativeMetaView,
    script: Seq<OpView>,
)
    ensures
        w.answers(AskView::Lock, AnswerView::Locked(w.locks)),
        w.answers(
            AskView::Kinds(p, q, r),
            AnswerView::Kinds((w.kind)(p), (w.kind)(q), (w.kind)(r)),
        ),
        w.answers(AskView::Kind(p), AnswerView::Kind((w.kind)(p))),
        w.answers(AskView::File(p, n), AnswerView::File((w.file)(p, n))),
        w.answers(AskView::Manifest(bytes), AnswerView::Manifest((w.manifest)(bytes))),
        w.answers(AskView::Metadata(bytes), AnswerView::Metadata((w.metadata)(bytes))),
        w.answers(
            AskView::EncodeManifest(active),
            AnswerView::Encoded((w.encode_manifest)(active)),
        ),
        w.answers(
            AskView::EncodeMetadata(metadata),
            AnswerView::Encoded((w.encode_metadata)(metadata)),
        ),
        w.answers(AskView::Present(p), AnswerView::Present((w.present)(p))),
        w.answers(AskView::Perform(script), AnswerView::Performed((w.perform)(script))),
        w.answers(AskView::Chunk(p, n, m), AnswerView::Chunk((w.chunk)(p, n, m))),
{
}

/// A world gives one answer to a question, and an answer of the kind that was asked for.
pub proof fn law_answers_are_unique_and_fit(
    w: World,
    ask: AskView,
    first: AnswerView,
    second: AnswerView,
)
    requires
        w.answers(ask, first),
        w.answers(ask, second),
    ensures
        first == second,
        fits(ask, first),
{
}

/// What is asked for is told apart by every part of it.
pub proof fn law_asks_are_told_apart(a: Ask, b: Ask)
    requires
        a@ == b@,
    ensures
        a is Lock <==> b is Lock,
        a matches Ask::Kinds { root, group, native } ==> b matches Ask::Kinds {
            root: root2,
            group: group2,
            native: native2,
        } && path_view(root@) == path_view(root2@) && path_view(group@) == path_view(group2@)
            && path_view(native@) == path_view(native2@),
        a matches Ask::Kind { path } ==> b matches Ask::Kind { path: path2 } && path_view(path@)
            == path_view(path2@),
        a matches Ask::File { path, limit } ==> b matches Ask::File { path: path2, limit: limit2 }
            && path_view(path@) == path_view(path2@) && limit == limit2,
        a matches Ask::Manifest { bytes } ==> b matches Ask::Manifest { bytes: bytes2 } && bytes@
            == bytes2@,
        a matches Ask::Metadata { bytes } ==> b matches Ask::Metadata { bytes: bytes2 } && bytes@
            == bytes2@,
        a matches Ask::EncodeManifest { active } ==> b matches Ask::EncodeManifest {
            active: active2,
        } && active@ == active2@,
        a matches Ask::EncodeMetadata { metadata } ==> b matches Ask::EncodeMetadata {
            metadata: metadata2,
        } && metadata@ == metadata2@,
        a matches Ask::Present { path } ==> b matches Ask::Present { path: path2 } && path_view(
            path@,
        ) == path_view(path2@),
        a matches Ask::Perform { script } ==> b matches Ask::Perform { script: script2 }
            && script_view(script@) == script_view(script2@),
        a matches Ask::Chunk { path, offset, limit } ==> b matches Ask::Chunk {
            path: path2,
            offset: offset2,
            limit: limit2,
        } && path_view(path@) == path_view(path2@) && offset == offset2 && limit == limit2,
{
}

/// Changes are told apart by what they do, where, and with which bytes; and a script by each of its
/// changes in order.
pub proof fn law_changes_are_told_apart(a: FileOp, b: FileOp, script: Seq<FileOp>, i: int)
    requires
        a@ == b@,
        0 <= i < script.len(),
    ensures
        a matches FileOp::CreateDirAll { path } ==> b matches FileOp::CreateDirAll { path: path2 }
            && path_view(path@) == path_view(path2@),
        a matches FileOp::CreateDir { path } ==> b matches FileOp::CreateDir { path: path2 }
            && path_view(path@) == path_view(path2@),
        a matches FileOp::Write { path, bytes } ==> b matches FileOp::Write {
            path: path2,
            bytes: bytes2,
        } && path_view(path@) == path_view(path2@) && bytes@ == bytes2@,
        a matches FileOp::SyncDir { path } ==> b matches FileOp::SyncDir { path: path2 }
            && path_view(path@) == path_view(path2@),
        a matches FileOp::SyncParentOf { path } ==> b matches FileOp::SyncParentOf { path: path2 }
            && path_view(path@) == path_view(path2@),
        a matches FileOp::Rename { from, to } ==> b matches FileOp::Rename { from: from2, to: to2 }
            && path_view(from@) == path_view(from2@) && path_view(to@) == path_view(to2@),
        a matches FileOp::RemoveTree { path } ==> b matches FileOp::RemoveTree { path: path2 }
            && path_view(path@) == path_view(path2@),
        script_view(script).len() == script.len(),
        script_view(script)[i] == script[i]@,
{
}

/// A path is the list of its components, and a child adds its name at the end.
pub proof fn law_paths_are_their_components(
    path: Vec<String>,
    name: &str,
    joined: Vec<String>,
    i: int,
)
    requires
        call_ensures(child, (&path, name), joined),
        0 <= i < path@.len(),
    ensures
        path_view(path@).len() == path@.len(),
        path_view(path@)[i] == path@[i]@,
        joined@.len() == path@.len() + 1,
        joined@[i]@ == path@[i]@,
        joined@.last()@ == name@,
{
    assert(path_view(joined@).len() == joined@.len());
    assert(path_view(joined@)[i] == joined@[i]@);
    assert(path_view(joined@).last() == joined@.last()@);
}

/// Answers are taken as they are given: a failure is a failure with its kind and message, a value
/// the value.
pub proof fn law_answers_are_taken_as_given(answer: Answer)
    ensures
        answer matches Answer::Locked(locked) ==> answer@ == AnswerView::Locked(locked),
        answer matches Answer::Present(present) ==> answer@ == AnswerView::Present(present),
        answer matches Answer::Kind(Ok(kind)) ==> answer@ == AnswerView::Kind(Ok(kind)),
        answer matches Answer::Kind(Err(error)) ==> (answer@ matches AnswerView::Kind(Err(e))
            && e.kind == error.kind && e.message == error.message@),
        answer matches Answer::Kinds { root: Ok(a), group: Ok(b), native: Ok(c) } ==> answer@
            == AnswerView::Kinds(Ok(a), Ok(b), Ok(c)),
        answer matches Answer::Kinds { root: Err(a), group: Err(b), native: Err(c) } ==> answer@
            == AnswerView::Kinds(Err(a@), Err(b@), Err(c@)),
        answer matches Answer::File(Ok(file)) ==> (answer@ matches AnswerView::File(Ok(f))
            && f.regular == file.regular && f.declared == file.declared && f.bytes == file.bytes@),
        answer matches Answer::File(Err(error)) ==> (answer@ matches AnswerView::File(Err(e))
            && e.kind == error.kind && e.message == error.message@),
        answer matches Answer::Manifest(Ok(active)) ==> answer@ == AnswerView::Manifest(Ok(active@)),
        answer matches Answer::Manifest(Err(text)) ==> answer@ == AnswerView::Manifest(Err(text@)),
        answer matches Answer::Metadata(Ok(found)) ==> answer@ == AnswerView::Metadata(Ok(found@)),
        answer matches Answer::Metadata(Err(text)) ==> answer@ == AnswerView::Metadata(Err(text@)),
        answer matches Answer::Encoded(Ok(bytes)) ==> answer@ == AnswerView::Encoded(Ok(bytes@)),
        answer matches Answer::Encoded(Err(text)) ==> answer@ == AnswerView::Encoded(Err(text@)),
        answer matches Answer::Performed(None) ==> answer@ == AnswerView::Performed(None),
        answer matches Answer::Performed(Some(error)) ==> (answer@ matches AnswerView::Performed(
            Some(e),
        ) && e.kind == error.kind && e.message == error.message@),
        answer matches Answer::Chunk(Ok(bytes)) ==> answer@ == AnswerView::Chunk(Ok(bytes@)),
        answer matches Answer::Chunk(Err(error)) ==> (answer@ matches AnswerView::Chunk(Err(e))
            && e.kind == error.kind && e.message == error.message@),
{
}

} // verus!
