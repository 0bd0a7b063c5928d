//! A directory tree as the catalog sees it, and what the catalog's operations mean on it.

use crate::activation;
use crate::catalog;
use crate::checksum;
use crate::describe;
use crate::files;
use crate::files::AskView;
use crate::files::FileKind;
use crate::files::OpView;
use crate::files::PathView;
use crate::files::ReadView;
use crate::files::World;
use crate::log_id;
use crate::snapshot;
use crate::snapshot::ActiveView;
use crate::snapshot::NativeMetaView;
use crate::snapshot::NativeSnapshotView;
use crate::snapshot::SnapshotMetaView;
use crate::snapshot::META_LIMIT;
use crate::snapshot::VERSION;
use crate::staging;
use crate::staging::StageJob;
use crate::staging::StageView;
use crate::storage;
use crate::storage::ErrorKind;
use crate::storage::StorageErrorView;
use crate::text;
use crate::GroupId;
use vstd::prelude::*;
use vstd::string::*;

verus! {

/// What stands at a path.
pub enum Node {
    Dir,
    File(Seq<u8>),
    Special,
}

/// What stands at each path, if anything.
pub struct Tree {
    pub at: spec_fn(PathView) -> Option<Node>,
}

/// How manifests and metadata are encoded and decoded.
pub struct Codec {
    pub manifest: spec_fn(Seq<u8>) -> Result<ActiveView, Seq<char>>,
    pub metadata: spec_fn(Seq<u8>) -> Result<NativeMetaView, Seq<char>>,
    pub encode_manifest: spec_fn(ActiveView) -> Result<Seq<u8>, Seq<char>>,
    pub encode_metadata: spec_fn(NativeMetaView) -> Result<Seq<u8>, Seq<char>>,
}

/// Whether `path` is `top` or stands below it.
pub open spec fn under(top: PathView, path: PathView) -> bool {
    top.len() <= path.len() && path.take(top.len() as int) == top
}

/// The failure of reading what is not there.
pub open spec fn missing() -> StorageErrorView {
    storage::failure(ErrorKind::NotFound, Seq::empty())
}

impl Tree {
    /// Every file is one that a file system can hold.
    pub open spec fn wf(self) -> bool {
        forall|p: PathView|
            (#[trigger] (self.at)(p)) matches Some(Node::File(bytes)) ==> bytes.len() <= u64::MAX
    }

    /// The tree after one change.
    pub open spec fn after(self, op: OpView) -> Tree {
        match op {
            OpView::CreateDirAll(path) => Tree {
                at: |q: PathView|
                    if (self.at)(q) is None && under(q, path) {
                        Some(Node::Dir)
                    } else {
                        (self.at)(q)
                    },
            },
            OpView::CreateDir(path) => Tree {
                at: |q: PathView|
                    if q == path {
                        Some(Node::Dir)
                    } else {
                        (self.at)(q)
                    },
            },
            OpView::Write(path, bytes) => Tree {
                at: |q: PathView|
                    if q == path {
                        Some(Node::File(bytes))
                    } else {
                        (self.at)(q)
                    },
            },
            OpView::SyncDir(_) => self,
            OpView::SyncParentOf(_) => self,
            OpView::Rename(from, to) => Tree {
                at: |q: PathView|
                    if under(to, q) {
                        (self.at)(from + q.skip(to.len() as int))
                    } else if under(from, q) {
                        None
                    } else {
                        (self.at)(q)
                    },
            },
            OpView::RemoveTree(path) => Tree {
                at: |q: PathView|
                    if under(path, q) {
                        None
                    } else {
                        (self.at)(q)
                    },
            },
        }
    }

    /// The tree after a script.
    pub open spec fn after_all(self, script: Seq<OpView>) -> Tree
        decreases script.len(),
    {
        if script.len() == 0 {
            self
        } else {
            self.after_all(script.drop_last()).after(script.last())
        }
    }

    /// The tree after a script that stopped before its change `k`, which, where it is a write, may
    /// have left anything behind in its file.
    pub open spec fn interrupted(self, script: Seq<OpView>, k: int, torn: Option<Seq<u8>>) -> Tree {
        let done = self.after_all(script.take(k));
        match torn {
            Some(bytes) => if 0 <= k < script.len() && script[k] is Write {
                done.after(OpView::Write(script[k]->Write_0, bytes))
            } else {
                done
            },
            None => done,
        }
    }

    /// What stands at `path`, as the file system reports it.
    pub open spec fn kind(self, path: PathView) -> Result<FileKind, StorageErrorView> {
        match (self.at)(path) {
            None => Err(missing()),
            Some(Node::Dir) => Ok(FileKind::Directory),
            Some(Node::File(bytes)) => Ok(FileKind::Regular { len: bytes.len() as u64 }),
            Some(Node::Special) => Ok(FileKind::Special),
        }
    }

    /// What reading `path` gives, where no more is read than one byte above `limit`.
    pub open spec fn file(self, path: PathView, limit: int) -> Result<ReadView, StorageErrorView> {
        match (self.at)(path) {
            None => Err(missing()),
            Some(Node::File(bytes)) => Ok(
                ReadView {
                    regular: true,
                    declared: bytes.len() as u64,
                    bytes: if bytes.len() <= limit {
                        bytes
                    } else {
                        bytes.take(limit + 1)
                    },
                },
            ),
            Some(_) => Ok(ReadView { regular: false, declared: 0, bytes: Seq::empty() }),
        }
    }

    /// What reading on in `path` gives.
    pub open spec fn chunk(self, path: PathView, offset: int, limit: int) -> Result<
        Seq<u8>,
        StorageErrorView,
    > {
        match (self.at)(path) {
            Some(Node::File(bytes)) => Ok(
                if offset >= bytes.len() {
                    Seq::empty()
                } else if bytes.len() - offset <= limit {
                    bytes.skip(offset)
                } else {
                    bytes.subrange(offset, offset + limit)
                },
            ),
            _ => Err(missing()),
        }
    }

    /// A world of this tree, in which every change succeeds.
    pub open spec fn world(self, codec: Codec) -> World {
        World {
            locks: true,
            kind: |path: PathView| self.kind(path),
            file: |path: PathView, limit: int| self.file(path, limit),
            manifest: codec.manifest,
            metadata: codec.metadata,
            encode_manifest: codec.encode_manifest,
            encode_metadata: codec.encode_metadata,
            present: |path: PathView| (self.at)(path) is Some,
            perform: |script: Seq<OpView>| None::<StorageErrorView>,
            chunk: |path: PathView, offset: int, limit: int| self.chunk(path, offset, limit),
        }
    }

    /// The current snapshot of `group`.
    pub open spec fn current(self, codec: Codec, root: PathView, group: GroupId, max_bytes: int) -> Result<
        Option<NativeSnapshotView>,
        StorageErrorView,
    > {
        catalog::loaded(self.world(codec), root, group, max_bytes)
    }
}

proof fn lemma_push_differs(native: PathView, a: Seq<char>, b: Seq<char>)
    requires
        a != b,
    ensures
        native.push(a) != native.push(b),
        !under(native.push(a), native.push(b)),
        !under(native.push(b), native.push(a)),
        forall|x: Seq<char>| !under(native.push(a), #[trigger] native.push(b).push(x)),
        forall|x: Seq<char>| native.push(b) != #[trigger] native.push(a).push(x),
{
    let n = native.len() as int;
    assert(native.push(a)[n] == a);
    assert(native.push(b)[n] == b);
    assert(native.push(b).take(n + 1) =~= native.push(b));
    assert(native.push(a).take(n + 1) =~= native.push(a));
    assert forall|x: Seq<char>| !under(native.push(a), #[trigger] native.push(b).push(x)) by {
        assert(native.push(b).push(x).take(n + 1) =~= native.push(b));
    }
    assert forall|x: Seq<char>| native.push(b) != #[trigger] native.push(a).push(x) by {
        assert(native.push(b).len() != native.push(a).push(x).len());
    }
}

proof fn lemma_under_self(top: PathView, x: Seq<char>)
    ensures
        under(top, top),
        under(top, top.push(x)),
        !under(top.push(x), top),
        top.push(x) != top,
{
    assert(top.take(top.len() as int) =~= top);
    assert(top.push(x).take(top.len() as int) =~= top);
    assert(top.push(x).len() != top.len());
}

/// The paths that decide what the current snapshot of a group is.
pub open spec fn decides(path: PathView, root: PathView, group: GroupId, active: Option<ActiveView>) -> bool {
    let native = catalog::native_path(root, group);
    ||| path == native.push("active.json"@)
    ||| active matches Some(active) && {
        let dir = catalog::generation_path(native, active);
        path == dir || path == dir.push("native-meta.json"@) || path == dir.push("data.bin"@)
    }
}

/// The manifest of a group in a tree.
pub open spec fn manifest_in(tree: Tree, codec: Codec, root: PathView, group: GroupId) -> Option<
    ActiveView,
> {
    match catalog::manifest_of(tree.world(codec), catalog::native_path(root, group)) {
        Ok(active) => active,
        Err(_) => None,
    }
}

/// What decides the current snapshot is all that it depends on: where those paths and the catalog's
/// directories are as they were, so is the snapshot.
pub proof fn law_current_depends_on_its_generation_only(
    before: Tree,
    after: Tree,
    codec: Codec,
    root: PathView,
    group: GroupId,
    max_bytes: int,
)
    requires
        before.current(codec, root, group, max_bytes) is Ok,
        catalog::paths_fault(after.world(codec), root, group) is None,
        forall|path: PathView|
            decides(path, root, group, manifest_in(before, codec, root, group)) ==> (after.at)(path)
                == #[trigger] (before.at)(path),
    ensures
        after.current(codec, root, group, max_bytes) == before.current(
            codec,
            root,
            group,
            max_bytes,
        ),
{
    let native = catalog::native_path(root, group);
    let w1 = before.world(codec);
    let w2 = after.world(codec);
    let manifest = native.push("active.json"@);
    assert((after.at)(manifest) == (before.at)(manifest));
    assert(catalog::manifest_of(w1, native) == catalog::manifest_of(w2, native));
    match catalog::manifest_of(w1, native) {
        Ok(Some(active)) => {
            let dir = catalog::generation_path(native, active);
            assert((after.at)(dir) == (before.at)(dir));
            let meta = dir.push("native-meta.json"@);
            assert((after.at)(meta) == (before.at)(meta));
            let data = dir.push("data.bin"@);
            assert((after.at)(data) == (before.at)(data));
            assert(catalog::metadata_of(w1, native, group, max_bytes, active)
                == catalog::metadata_of(w2, native, group, max_bytes, active));
        },
        _ => {},
    }
}

proof fn lemma_names(process: u64, sequence: u64, generation: Seq<char>)
    requires
        checksum::has_checksum_form(generation),
    ensures
        staging::stage_name(process, sequence) != generation,
        staging::stage_name(process, sequence) != "active.json"@,
        generation != "active.json"@,
        generation != "active.pending"@,
        "active.pending"@ != "active.json"@,
        "native-meta.json"@ != "data.bin"@,
{
    reveal_strlit(".stage-");
    reveal_strlit("active.json");
    reveal_strlit("active.pending");
    reveal_strlit("native-meta.json");
    reveal_strlit("data.bin");
    let name = staging::stage_name(process, sequence);
    assert(name[0] == '.');
    assert("active.json"@[0] == 'a');
    assert(checksum::is_hex_digit(generation[0]));
    assert("active.pending"@.len() != "active.json"@.len());
    assert("native-meta.json"@.len() != "data.bin"@.len());
}

/// A change that touches nothing but the directory `stage`, and creates directories on the way to
/// `native`.
pub open spec fn confined(op: OpView, native: PathView, stage: PathView) -> bool {
    match op {
        OpView::CreateDirAll(path) => path == native,
        OpView::CreateDir(path) => under(stage, path),
        OpView::Write(path, _) => under(stage, path),
        OpView::SyncDir(_) => true,
        OpView::SyncParentOf(_) => true,
        OpView::Rename(..) => false,
        OpView::RemoveTree(path) => path == stage,
    }
}

/// Outside of `stage`, confined changes only create missing directories on the way to `native`.
proof fn lemma_confined_changes(tree: Tree, script: Seq<OpView>, native: PathView, stage: PathView)
    requires
        forall|i: int| 0 <= i < script.len() ==> confined(#[trigger] script[i], native, stage),
    ensures
        forall|q: PathView|
            !under(stage, q) ==> (#[trigger] (tree.after_all(script).at)(q) == (tree.at)(q) || (
            (tree.at)(q) is None && under(q, native) && (tree.after_all(script).at)(q) == Some(
                Node::Dir,
            ))),
    decreases script.len(),
{
    if script.len() > 0 {
        let rest = script.drop_last();
        assert forall|i: int| 0 <= i < rest.len() implies confined(
            #[trigger] rest[i],
            native,
            stage,
        ) by {
            assert(rest[i] == script[i]);
        }
        lemma_confined_changes(tree, rest, native, stage);
        let mid = tree.after_all(rest);
        let op = script.last();
        assert(op == script[script.len() - 1]);
        assert(tree.after_all(script) == mid.after(op));
        assert forall|q: PathView| !under(stage, q) implies (#[trigger] (tree.after_all(script).at)(
            q,
        ) == (tree.at)(q) || ((tree.at)(q) is None && under(q, native) && (tree.after_all(
            script,
        ).at)(q) == Some(Node::Dir))) by {
            assert((mid.at)(q) == (tree.at)(q) || ((tree.at)(q) is None && under(q, native) && (
            mid.at)(q) == Some(Node::Dir)));
            lemma_under_self(stage, Seq::empty());
        }
    }
}

/// The paths of the catalog's directories, and of what decides the current snapshot, are not in the
/// directory where a candidate is prepared.
proof fn lemma_stage_is_apart(
    root: PathView,
    group: GroupId,
    active: Option<ActiveView>,
    process: u64,
    sequence: u64,
)
    requires
        active matches Some(a) ==> checksum::has_checksum_form(a.generation),
    ensures
        ({
            let native = catalog::native_path(root, group);
            let stage = native.push(staging::stage_name(process, sequence));
            &&& !under(stage, root)
            &&& !under(stage, catalog::group_path(root, group))
            &&& !under(stage, native)
            &&& forall|q: PathView| #[trigger] decides(q, root, group, active) ==> !under(stage, q) && !under(q, native)
        }),
{
    let native = catalog::native_path(root, group);
    let name = staging::stage_name(process, sequence);
    let stage = native.push(name);
    assert(stage.len() == root.len() + 3);
    let generation = match active {
        Some(a) => a.generation,
        None => Seq::new(64, |i: int| '0'),
    };
    lemma_names(process, sequence, generation);
    lemma_push_differs(native, name, "active.json"@);
    lemma_push_differs(native, name, generation);
    assert forall|q: PathView| #[trigger] decides(q, root, group, active) implies !under(stage, q) && !under(q, native) by {
        assert(q.len() > native.len());
    }
}

/// Preparing a candidate, stopped anywhere, leaves the current snapshot as it was: what is staged
/// is not current.
pub proof fn law_preparation_keeps_the_current_snapshot(
    tree: Tree,
    codec: Codec,
    job: StageJob,
    process: u64,
    sequence: u64,
    bytes: Seq<u8>,
    k: int,
    torn: Option<Seq<u8>>,
    max_bytes: int,
)
    requires
        job.stage_name == staging::stage_name(process, sequence),
        tree.current(codec, job.root, job.group, max_bytes) is Ok,
        0 <= k <= job.preparation(bytes).len(),
    ensures
        tree.interrupted(job.preparation(bytes), k, torn).current(
            codec,
            job.root,
            job.group,
            max_bytes,
        ) == tree.current(codec, job.root, job.group, max_bytes),
{
    let native = job.native();
    let stage = job.stage_dir();
    let full = job.preparation(bytes);
    let part = full.take(k);
    lemma_under_self(stage, "data.bin"@);
    lemma_under_self(stage, "native-meta.json"@);
    assert forall|i: int| 0 <= i < full.len() implies confined(#[trigger] full[i], native, stage) by {
    }
    let script = match torn {
        Some(b) => if 0 <= k < full.len() && full[k] is Write {
            part.push(OpView::Write(full[k]->Write_0, b))
        } else {
            part
        },
        None => part,
    };
    let after = tree.interrupted(full, k, torn);
    assert(after == tree.after_all(script)) by {
        if torn is Some && 0 <= k < full.len() && full[k] is Write {
            assert(script.drop_last() =~= part);
        }
    }
    assert forall|i: int| 0 <= i < script.len() implies confined(
        #[trigger] script[i],
        native,
        stage,
    ) by {
        if i < k {
            assert(script[i] == full[i]);
        } else {
            assert(confined(full[k], native, stage));
        }
    }
    lemma_confined_changes(tree, script, native, stage);
    lemma_kept(tree, after, codec, job.root, job.group, max_bytes, process, sequence);
}

/// A tree that differs from another one only in the directory where a candidate is prepared, and in
/// new directories on the way to it, has the same current snapshot.
proof fn lemma_kept(
    tree: Tree,
    after: Tree,
    codec: Codec,
    root: PathView,
    group: GroupId,
    max_bytes: int,
    process: u64,
    sequence: u64,
)
    requires
        tree.current(codec, root, group, max_bytes) is Ok,
        ({
            let native = catalog::native_path(root, group);
            let stage = native.push(staging::stage_name(process, sequence));
            forall|q: PathView|
                !under(stage, q) ==> (#[trigger] (after.at)(q) == (tree.at)(q) || ((tree.at)(
                    q,
                ) is None && under(q, native) && (after.at)(q) == Some(Node::Dir)))
        }),
    ensures
        after.current(codec, root, group, max_bytes) == tree.current(codec, root, group, max_bytes),
        catalog::paths_fault(after.world(codec), root, group) is None,
{
    let native = catalog::native_path(root, group);
    let active = manifest_in(tree, codec, root, group);
    lemma_stage_is_apart(root, group, active, process, sequence);
    assert(catalog::paths_fault(tree.world(codec), root, group) is None);
    assert(catalog::paths_fault(after.world(codec), root, group) is None) by {
        assert((after.at)(root) == (tree.at)(root) || (after.at)(root) == Some(Node::Dir));
        let g = catalog::group_path(root, group);
        assert((after.at)(g) == (tree.at)(g) || (after.at)(g) == Some(Node::Dir));
        assert((after.at)(native) == (tree.at)(native) || (after.at)(native) == Some(Node::Dir));
    }
    assert forall|path: PathView| decides(path, root, group, active) implies (after.at)(path)
        == #[trigger] (tree.at)(path) by {
        assert((after.at)(path) == (tree.at)(path) || ((tree.at)(path) is None && under(
            path,
            native,
        ) && (after.at)(path) == Some(Node::Dir)));
    }
    law_current_depends_on_its_generation_only(tree, after, codec, root, group, max_bytes);
}

proof fn lemma_next(tree: Tree, script: Seq<OpView>, k: int)
    requires
        0 <= k < script.len(),
    ensures
        tree.after_all(script.take(k + 1)) == tree.after_all(script.take(k)).after(script[k]),
{
    assert(script.take(k + 1).drop_last() =~= script.take(k));
    assert(script.take(k + 1).last() == script[k]);
}

proof fn lemma_rename_moves(tree: Tree, from: PathView, to: PathView, x: Seq<char>)
    ensures
        (tree.after(OpView::Rename(from, to)).at)(to) == (tree.at)(from),
        (tree.after(OpView::Rename(from, to)).at)(to.push(x)) == (tree.at)(from.push(x)),
{
    lemma_under_self(to, x);
    assert(from + to.skip(to.len() as int) =~= from);
    assert(from + to.push(x).skip(to.len() as int) =~= from.push(x));
}

/// The tree in which a candidate has been prepared.
pub open spec fn prepared_tree(tree: Tree, job: StageJob, bytes: Seq<u8>) -> Tree {
    tree.after_all(job.preparation(bytes))
}

/// Whether the generation of a candidate exists already.
pub open spec fn exists_already(tree: Tree, job: StageJob, bytes: Seq<u8>) -> bool {
    (prepared_tree(tree, job, bytes).at)(job.final_dir(bytes)) is Some
}

/// The tree in which a candidate has been put at its final place, stopped before change `k` of
/// doing so.
pub open spec fn placed_tree(tree: Tree, job: StageJob, bytes: Seq<u8>, k: int) -> Tree {
    prepared_tree(tree, job, bytes).interrupted(
        job.publication(bytes, exists_already(tree, job, bytes)),
        k,
        None,
    )
}

/// Putting a candidate at its final place, stopped anywhere, leaves the current snapshot as it was.
pub proof fn law_placing_keeps_the_current_snapshot(
    tree: Tree,
    codec: Codec,
    job: StageJob,
    process: u64,
    sequence: u64,
    bytes: Seq<u8>,
    k: int,
    max_bytes: int,
)
    requires
        job.stage_name == staging::stage_name(process, sequence),
        tree.current(codec, job.root, job.group, max_bytes) is Ok,
        0 <= k <= 2,
    ensures
        placed_tree(tree, job, bytes, k).current(codec, job.root, job.group, max_bytes)
            == tree.current(codec, job.root, job.group, max_bytes),
{
    let native = job.native();
    let stage = job.stage_dir();
    let root = job.root;
    let group = job.group;
    let full = job.preparation(bytes);
    law_preparation_keeps_the_current_snapshot(
        tree,
        codec,
        job,
        process,
        sequence,
        bytes,
        full.len() as int,
        None,
        max_bytes,
    );
    assert(full.take(full.len() as int) =~= full);
    let mid = prepared_tree(tree, job, bytes);
    assert(mid.current(codec, root, group, max_bytes) == tree.current(
        codec,
        root,
        group,
        max_bytes,
    ));
    let existing = exists_already(tree, job, bytes);
    let script = job.publication(bytes, existing);
    let after = placed_tree(tree, job, bytes, k);
    assert(after == mid.after_all(script.take(k)));
    if k == 0 {
        assert(script.take(0) =~= Seq::empty());
    } else {
        lemma_next(mid, script, 0);
        assert(script.take(0) =~= Seq::empty());
        let moved = mid.after(script[0]);
        if k == 2 {
            lemma_next(mid, script, 1);
        }
        assert(after == moved);
        if existing {
            assert forall|q: PathView| !under(stage, q) implies #[trigger] (after.at)(q) == (mid.at)(
                q,
            ) by {
            }
            lemma_kept(mid, after, codec, root, group, max_bytes, process, sequence);
        } else {
            let final_dir = job.final_dir(bytes);
            let active = manifest_in(mid, codec, root, group);
            lemma_stage_is_apart(root, group, active, process, sequence);
            assert(catalog::paths_fault(mid.world(codec), root, group) is None);
            assert(final_dir.len() == root.len() + 3);
            assert(!under(final_dir, root));
            assert(!under(final_dir, catalog::group_path(root, group)));
            assert(!under(final_dir, native));
            assert(catalog::paths_fault(after.world(codec), root, group) is None) by {
                assert((after.at)(root) == (mid.at)(root));
                let g = catalog::group_path(root, group);
                assert((after.at)(g) == (mid.at)(g));
                assert((after.at)(native) == (mid.at)(native));
            }
            checksum::lemma_checksum_form(bytes);
            lemma_names(process, sequence, checksum::checksum(bytes));
            lemma_push_differs(native, checksum::checksum(bytes), "active.json"@);
            if active is Some {
                let generation = active->0.generation;
                assert((mid.at)(native.push(generation)) is Some);
                assert(generation != checksum::checksum(bytes));
                lemma_push_differs(native, checksum::checksum(bytes), generation);
            }
            assert forall|path: PathView| decides(path, root, group, active) implies (after.at)(path)
                == #[trigger] (mid.at)(path) by {
            }
            law_current_depends_on_its_generation_only(mid, after, codec, root, group, max_bytes);
        }
    }
}

/// Activation is atomic: stopped anywhere, it leaves either the snapshot that was current, or the
/// candidate as the current one. It is the candidate once the manifest has been renamed. That holds
/// for every reader whose byte limit admits them.
pub proof fn law_activation_is_atomic(
    tree: Tree,
    codec: Codec,
    root: PathView,
    stage: StageView,
    candidate: NativeSnapshotView,
    manifest: Seq<u8>,
    k: int,
    torn: Option<Seq<u8>>,
    max_bytes: int,
)
    requires
        activation::activated(tree.world(codec), root, stage) is Ok,
        catalog::generation_of(
            tree.world(codec),
            stage.root,
            stage.group,
            stage.max_bytes as int,
            stage.active,
        ) == Ok::<NativeSnapshotView, StorageErrorView>(candidate),
        (codec.encode_manifest)(stage.active) == Ok::<Seq<u8>, Seq<char>>(manifest),
        (codec.manifest)(manifest) == Ok::<ActiveView, Seq<char>>(stage.active),
        manifest.len() <= META_LIMIT,
        0 <= k <= activation::switch_script(
            stage.root,
            manifest,
            manifest_in(tree, codec, root, stage.group),
            stage.active,
        ).len(),
        snapshot::is_valid_cap(max_bytes),
    ensures
        ({
            let script = activation::switch_script(
                stage.root,
                manifest,
                manifest_in(tree, codec, root, stage.group),
                stage.active,
            );
            let before = tree.current(codec, root, stage.group, max_bytes);
            let now = tree.interrupted(script, k, torn).current(
                codec,
                root,
                stage.group,
                max_bytes,
            );
            &&& k <= 1 && before is Ok ==> now == before
            &&& k >= 2 && candidate.data.len() <= max_bytes ==> now == Ok::<
                Option<NativeSnapshotView>,
                StorageErrorView,
            >(Some(candidate))
        }),
{
    let native = stage.root;
    let group = stage.group;
    let max = stage.max_bytes as int;
    let w = tree.world(codec);
    let previous = manifest_in(tree, codec, root, group);
    let script = activation::switch_script(native, manifest, previous, stage.active);
    let pending = native.push("active.pending"@);
    let json = native.push("active.json"@);
    let after = tree.interrupted(script, k, torn);
    assert(native == catalog::native_path(root, group));
    assert(catalog::paths_fault(w, root, group) is None);
    assert(catalog::current_of(w, root, group, max) is Ok);
    let generation = stage.active.generation;
    assert(checksum::has_checksum_form(generation));
    lemma_names(0, 0, generation);
    lemma_push_differs(native, generation, "active.json"@);
    lemma_push_differs(native, generation, "active.pending"@);
    lemma_push_differs(native, "active.pending"@, "active.json"@);
    lemma_push_differs(native, "active.json"@, "active.pending"@);
    lemma_under_self(native, "active.pending"@);
    lemma_under_self(native, "active.json"@);
    if previous is Some {
        let old = previous->0.generation;
        assert(checksum::has_checksum_form(old));
        lemma_names(0, 0, old);
        lemma_push_differs(native, old, "active.json"@);
        lemma_push_differs(native, old, "active.pending"@);
        lemma_push_differs(native, "active.pending"@, old);
        lemma_push_differs(native, "active.json"@, old);
        if old != generation {
            lemma_push_differs(native, old, generation);
        }
    }
    lemma_push_differs(native, "active.pending"@, generation);
    lemma_push_differs(native, "active.json"@, generation);
    assert(script[0] == OpView::Write(pending, manifest));
    assert(script[1] == OpView::Rename(pending, json));
    assert(script[2] == OpView::SyncDir(native));
    assert(script.take(0) =~= Seq::empty());
    if k <= 1 {
        // Only the pending manifest may have been written.
        if k == 1 {
            lemma_next(tree, script, 0);
        }
        assert forall|q: PathView| q != pending implies #[trigger] (after.at)(q) == (tree.at)(q) by {
        }
        assert(root.len() < pending.len());
        assert(catalog::group_path(root, group).len() < pending.len());
        assert(catalog::paths_fault(after.world(codec), root, group) is None) by {
            assert((after.at)(root) == (tree.at)(root));
            let g = catalog::group_path(root, group);
            assert((after.at)(g) == (tree.at)(g));
            assert((after.at)(native) == (tree.at)(native));
        }
        assert forall|path: PathView| decides(path, root, group, previous) implies (after.at)(path)
            == #[trigger] (tree.at)(path) by {
            assert(path != pending);
        }
        if tree.current(codec, root, group, max_bytes) is Ok {
            law_current_depends_on_its_generation_only(
                tree,
                after,
                codec,
                root,
                group,
                max_bytes,
            );
        }
    } else {
        lemma_next(tree, script, 0);
        lemma_next(tree, script, 1);
        let t1 = tree.after(script[0]);
        let t2 = t1.after(script[1]);
        lemma_rename_moves(t1, pending, json, Seq::empty());
        assert((t2.at)(json) == Some(Node::File(manifest)));
        assert(script.len() > 3 ==> script[3] == OpView::RemoveTree(
            native.push(previous->0.generation),
        ) && script[4] == OpView::SyncDir(native) && previous is Some
            && previous->0.generation != generation);
        if k >= 3 {
            lemma_next(tree, script, 2);
        }
        if k >= 4 {
            lemma_next(tree, script, 3);
        }
        if k >= 5 {
            lemma_next(tree, script, 4);
        }
        let kept = |q: PathView|
            q == root || q == catalog::group_path(root, group) || q == native || q == native.push(
                generation,
            ) || q == native.push(generation).push("native-meta.json"@) || q == native.push(
                generation,
            ).push("data.bin"@);
        assert(!under(pending, root) && !under(json, root));
        let g = catalog::group_path(root, group);
        assert(!under(pending, g) && !under(json, g));
        assert(!under(pending, native) && !under(json, native));
        assert forall|q: PathView| #[trigger] kept(q) implies (t2.at)(q) == (tree.at)(q) by {
            assert(!under(pending, q));
            assert(!under(json, q));
            assert(q != pending) by {
                lemma_under_self(pending, Seq::empty());
            }
        }
        assert((after.at)(json) == Some(Node::File(manifest)));
        assert forall|q: PathView| #[trigger] kept(q) implies (after.at)(q) == (tree.at)(q) by {
            if k >= 4 {
                let old = native.push(previous->0.generation);
                assert(!under(old, q)) by {
                    if q == root || q == g || q == native {
                        assert(q.len() < old.len());
                    }
                }
            }
        }
        assert(kept(root) && kept(g) && kept(native));
        let dir = catalog::generation_path(native, stage.active);
        assert(kept(dir) && kept(dir.push("native-meta.json"@)) && kept(dir.push("data.bin"@)));
        let w2 = after.world(codec);
        assert(catalog::paths_fault(w2, root, group) is None);
        assert(catalog::manifest_of(w2, native) == Ok::<Option<ActiveView>, StorageErrorView>(
            Some(stage.active),
        ));
        assert(catalog::metadata_of(w2, native, group, max, stage.active) == catalog::metadata_of(
            w,
            native,
            group,
            max,
            stage.active,
        ));
        assert(catalog::generation_of(w2, native, group, max, stage.active)
            == catalog::generation_of(w, native, group, max, stage.active));
        if candidate.data.len() <= max_bytes {
            let metadata = catalog::metadata_of(w2, native, group, max, stage.active)->Ok_0;
            assert(metadata.size <= max_bytes);
            assert(catalog::metadata_of(w2, native, group, max_bytes, stage.active) == Ok::<
                NativeMetaView,
                StorageErrorView,
            >(metadata));
            assert(catalog::generation_of(w2, native, group, max_bytes, stage.active) == Ok::<
                NativeSnapshotView,
                StorageErrorView,
            >(candidate));
        }
    }
}

proof fn lemma_prepared(tree: Tree, job: StageJob, bytes: Seq<u8>)
    ensures
        (prepared_tree(tree, job, bytes).at)(job.stage_dir()) == Some(Node::Dir),
        (prepared_tree(tree, job, bytes).at)(job.stage_dir().push("data.bin"@)) == Some(
            Node::File(job.data),
        ),
        (prepared_tree(tree, job, bytes).at)(job.stage_dir().push("native-meta.json"@)) == Some(
            Node::File(bytes),
        ),
{
    let script = job.preparation(bytes);
    let stage = job.stage_dir();
    reveal_strlit("native-meta.json");
    reveal_strlit("data.bin");
    assert("native-meta.json"@.len() != "data.bin"@.len());
    lemma_push_differs(stage, "native-meta.json"@, "data.bin"@);
    lemma_under_self(stage, "data.bin"@);
    lemma_under_self(stage, "native-meta.json"@);
    let t5 = tree.after_all(script.take(5));
    lemma_next(tree, script, 5);
    lemma_next(tree, script, 6);
    lemma_next(tree, script, 7);
    lemma_next(tree, script, 8);
    assert(script.take(9) =~= script);
}

/// The directory of a generation holds the image and metadata of a candidate.
pub open spec fn holds_candidate(tree: Tree, job: StageJob, bytes: Seq<u8>) -> bool {
    let dir = job.final_dir(bytes);
    &&& (tree.at)(dir) == Some(Node::Dir)
    &&& (tree.at)(dir.push("native-meta.json"@)) == Some(Node::File(bytes))
    &&& (tree.at)(dir.push("data.bin"@)) == Some(Node::File(job.data))
}

/// What has become of a candidate tells that it was altered: its directory is gone, its metadata
/// has another checksum, or its image has another size or checksum.
pub open spec fn is_altered(tree: Tree, job: StageJob, bytes: Seq<u8>) -> bool {
    let dir = job.final_dir(bytes);
    ||| (tree.at)(dir) != Some(Node::Dir)
    ||| match (tree.at)(dir.push("native-meta.json"@)) {
        Some(Node::File(found)) => {
            ||| checksum::checksum(found) != checksum::checksum(bytes)
            ||| found == bytes && match (tree.at)(dir.push("data.bin"@)) {
                Some(Node::File(image)) => image.len() != job.data.len() || checksum::checksum(
                    image,
                ) != checksum::checksum(job.data),
                _ => true,
            }
        },
        _ => true,
    }
}

/// Placing a candidate leaves its image and metadata in its generation. Where the generation exists
/// already, it is compared first and has to hold the same.
pub proof fn law_placed_generation_holds_the_candidate(
    tree: Tree,
    codec: Codec,
    job: StageJob,
    process: u64,
    sequence: u64,
    bytes: Seq<u8>,
)
    requires
        job.stage_name == staging::stage_name(process, sequence),
        exists_already(tree, job, bytes) ==> job.metadata_compared(
            prepared_tree(tree, job, bytes).world(codec),
            bytes,
        ) is Ok,
    ensures
        (placed_tree(tree, job, bytes, 2).at)(job.final_dir(bytes).push("data.bin"@)) == Some(
            Node::File(job.data),
        ),
        (placed_tree(tree, job, bytes, 2).at)(job.final_dir(bytes).push("native-meta.json"@))
            == Some(Node::File(bytes)),
        (placed_tree(tree, job, bytes, 2).at)(job.final_dir(bytes)) == if exists_already(
            tree,
            job,
            bytes,
        ) {
            (prepared_tree(tree, job, bytes).at)(job.final_dir(bytes))
        } else {
            Some(Node::Dir)
        },
{
    let native = job.native();
    let stage = job.stage_dir();
    let final_dir = job.final_dir(bytes);
    let mid = prepared_tree(tree, job, bytes);
    let existing = exists_already(tree, job, bytes);
    let script = job.publication(bytes, existing);
    lemma_prepared(tree, job, bytes);
    assert(script.take(0) =~= Seq::empty());
    lemma_next(mid, script, 0);
    lemma_next(mid, script, 1);
    checksum::lemma_checksum_form(bytes);
    lemma_names(process, sequence, checksum::checksum(bytes));
    if existing {
        lemma_push_differs(native, job.stage_name, checksum::checksum(bytes));
        let w = mid.world(codec);
        assert(files::bounded(
            (w.file)(final_dir.push("native-meta.json"@), META_LIMIT as int),
            META_LIMIT as int,
        ) == Ok::<Seq<u8>, StorageErrorView>(bytes));
        assert(files::bounded(
            (w.file)(final_dir.push("data.bin"@), job.max_bytes as int),
            job.max_bytes as int,
        ) == Ok::<Seq<u8>, StorageErrorView>(job.data));
    } else {
        lemma_rename_moves(mid, stage, final_dir, "data.bin"@);
        lemma_rename_moves(mid, stage, final_dir, "native-meta.json"@);
    }
}

/// The answers that staging is given: the directories as they were before, and everything else as
/// it is once the candidate has been prepared.
pub open spec fn staging_world(tree: Tree, codec: Codec, job: StageJob, bytes: Seq<u8>) -> World {
    World {
        kind: |path: PathView| tree.kind(path),
        ..prepared_tree(tree, job, bytes).world(codec)
    }
}

/// A staged candidate that was not altered is judged by its cut and its membership alone: it is
/// activated exactly where it may follow the current snapshot, another identity or other bytes at
/// the same cut notwithstanding; else the conflict is the answer, and nothing is changed.
pub proof fn law_staged_candidate_is_judged_by_its_cut(
    tree: Tree,
    codec: Codec,
    job: StageJob,
    bytes: Seq<u8>,
    manifest: Seq<u8>,
    current: Option<NativeSnapshotView>,
)
    requires
        holds_candidate(tree, job, bytes),
        bytes.len() <= META_LIMIT,
        job.fault() is None,
        (codec.metadata)(bytes) == Ok::<NativeMetaView, Seq<char>>(job.metadata()),
        (codec.encode_manifest)(job.active(bytes)) == Ok::<Seq<u8>, Seq<char>>(manifest),
        tree.current(codec, job.root, job.group, job.max_bytes as int) == Ok::<
            Option<NativeSnapshotView>,
            StorageErrorView,
        >(current),
    ensures
        ({
            let w = tree.world(codec);
            let activated = activation::activated(w, job.root, job.stage(bytes));
            match activation::conflict(current, job.meta) {
                None => activated is Ok,
                Some(error) => activated == Err::<(), StorageErrorView>(error) && reads_only(
                    activation::activation_asks(w, job.root, job.stage(bytes)),
                ),
            }
        }),
{
    let w = tree.world(codec);
    let stage = job.stage(bytes);
    lemma_candidate_is_read(tree, codec, job, bytes);
    if activation::conflict(current, job.meta) is Some {
        law_refused_activation_changes_nothing(w, job.root, stage);
    }
}

/// The candidate in its generation is read as it was staged.
proof fn lemma_candidate_is_read(tree: Tree, codec: Codec, job: StageJob, bytes: Seq<u8>)
    requires
        holds_candidate(tree, job, bytes),
        bytes.len() <= META_LIMIT,
        job.fault() is None,
        (codec.metadata)(bytes) == Ok::<NativeMetaView, Seq<char>>(job.metadata()),
    ensures
        catalog::generation_of(
            tree.world(codec),
            job.native(),
            job.group,
            job.max_bytes as int,
            job.active(bytes),
        ) == Ok::<NativeSnapshotView, StorageErrorView>(
            NativeSnapshotView { meta: job.meta, data: job.data },
        ),
{
    let w = tree.world(codec);
    checksum::lemma_checksum_form(bytes);
    assert(catalog::generation_path(job.native(), job.active(bytes)) == job.final_dir(bytes));
    assert(catalog::metadata_of(
        w,
        job.native(),
        job.group,
        job.max_bytes as int,
        job.active(bytes),
    ) == Ok::<NativeMetaView, StorageErrorView>(job.metadata()));
}

/// A candidate that was altered after it was staged is refused, and nothing is changed: the current
/// snapshot stays what it was.
pub proof fn law_altered_candidate_is_refused(
    tree: Tree,
    codec: Codec,
    job: StageJob,
    bytes: Seq<u8>,
)
    requires
        is_altered(tree, job, bytes),
        job.fault() is None,
        (codec.metadata)(bytes) == Ok::<NativeMetaView, Seq<char>>(job.metadata()),
    ensures
        activation::activated(tree.world(codec), job.root, job.stage(bytes)) is Err,
        reads_only(
            activation::activation_asks(tree.world(codec), job.root, job.stage(bytes)),
        ),
{
    let w = tree.world(codec);
    let stage = job.stage(bytes);
    assert(catalog::generation_path(job.native(), job.active(bytes)) == job.final_dir(bytes));
    assert(catalog::generation_of(
        w,
        stage.root,
        stage.group,
        stage.max_bytes as int,
        stage.active,
    ) is Err);
    assert forall|i: int|
        0 <= i < activation::activation_asks(w, job.root, stage).len() implies !(
    #[trigger] activation::activation_asks(w, job.root, stage)[i] is Perform) by {
        if activation::activation_asks(w, job.root, stage)[i] is Perform {
            law_activation_changes_last(w, job.root, stage, i);
        }
    }
}

/// What is published is what is loaded: a snapshot that is staged and may follow the current one is
/// activated, and loading then gives back its metadata and its image to every reader whose byte
/// limit admits it.
pub proof fn law_published_snapshot_is_loaded(
    tree: Tree,
    codec: Codec,
    job: StageJob,
    process: u64,
    sequence: u64,
    bytes: Seq<u8>,
    manifest: Seq<u8>,
    max_bytes: int,
)
    requires
        job.stage_name == staging::stage_name(process, sequence),
        // what is encoded is decoded again
        (codec.encode_metadata)(job.metadata()) == Ok::<Seq<u8>, Seq<char>>(bytes),
        (codec.metadata)(bytes) == Ok::<NativeMetaView, Seq<char>>(job.metadata()),
        (codec.encode_manifest)(job.active(bytes)) == Ok::<Seq<u8>, Seq<char>>(manifest),
        (codec.manifest)(manifest) == Ok::<ActiveView, Seq<char>>(job.active(bytes)),
        manifest.len() <= META_LIMIT,
        // staging succeeds, and a generation that exists already is a directory
        job.staged(staging_world(tree, codec, job, bytes)) is Ok,
        exists_already(tree, job, bytes) ==> (prepared_tree(tree, job, bytes).at)(
            job.final_dir(bytes),
        ) == Some(Node::Dir),
        // the candidate may follow the current snapshot
        placed_tree(tree, job, bytes, 2).current(
            codec,
            job.root,
            job.group,
            job.max_bytes as int,
        ) matches Ok(current) && activation::conflict(current, job.meta) is None,
        job.data.len() <= max_bytes,
        snapshot::is_valid_cap(max_bytes),
    ensures
        activation::activated(
            placed_tree(tree, job, bytes, 2).world(codec),
            job.root,
            job.stage(bytes),
        ) is Ok,
        ({
            let placed = placed_tree(tree, job, bytes, 2);
            let script = activation::switch_script(
                job.native(),
                manifest,
                manifest_in(placed, codec, job.root, job.group),
                job.active(bytes),
            );
            placed.after_all(script).current(codec, job.root, job.group, max_bytes) == Ok::<
                Option<NativeSnapshotView>,
                StorageErrorView,
            >(Some(NativeSnapshotView { meta: job.meta, data: job.data }))
        }),
{
    let placed = placed_tree(tree, job, bytes, 2);
    let stage = job.stage(bytes);
    let mid = prepared_tree(tree, job, bytes).world(codec);
    let v = staging_world(tree, codec, job, bytes);
    assert((v.present)(job.final_dir(bytes)) == exists_already(tree, job, bytes));
    assert(job.metadata_compared(v, bytes) == job.metadata_compared(mid, bytes));
    law_placed_generation_holds_the_candidate(tree, codec, job, process, sequence, bytes);
    let candidate = NativeSnapshotView { meta: job.meta, data: job.data };
    lemma_candidate_is_read(placed, codec, job, bytes);
    law_staged_candidate_is_judged_by_its_cut(
        placed,
        codec,
        job,
        bytes,
        manifest,
        placed.current(codec, job.root, job.group, job.max_bytes as int)->Ok_0,
    );
    let script = activation::switch_script(
        job.native(),
        manifest,
        manifest_in(placed, codec, job.root, job.group),
        job.active(bytes),
    );
    law_activation_is_atomic(
        placed,
        codec,
        job.root,
        stage,
        candidate,
        manifest,
        script.len() as int,
        None,
        max_bytes,
    );
    assert(script.take(script.len() as int) =~= script);
}

/// Activation never regresses: it succeeds only where the candidate's cut does not stand before the
/// current one, and at the same cut only where the membership is the same.
pub proof fn law_activation_never_regresses(w: World, root: PathView, stage: StageView)
    requires
        activation::activated(w, root, stage) is Ok,
    ensures
        catalog::current_of(w, root, stage.group, stage.max_bytes as int) matches Ok(Some(current))
            ==> {
            &&& !log_id::before(stage.meta.last_log_id, current.meta.last_log_id)
            &&& current.meta.last_log_id == stage.meta.last_log_id ==> current.meta.last_membership
                == stage.meta.last_membership
        },
{
}

/// Whether none of the asks is for a change.
pub open spec fn reads_only(asks: Seq<AskView>) -> bool {
    forall|i: int| 0 <= i < asks.len() ==> !(#[trigger] asks[i] is Perform)
}

proof fn lemma_reading_a_generation(
    w: World,
    native: PathView,
    group: GroupId,
    max_bytes: int,
    active: ActiveView,
)
    ensures
        reads_only(catalog::metadata_asks(w, native, group, active)),
        reads_only(catalog::generation_asks(w, native, group, max_bytes, active)),
{
}

proof fn lemma_reading_the_current(w: World, root: PathView, group: GroupId, max_bytes: int)
    ensures
        reads_only(catalog::checked_manifest_asks(w, root, group, max_bytes)),
        reads_only(catalog::manifest_asks(w, catalog::native_path(root, group))),
        reads_only(catalog::current_asks(w, root, group, max_bytes)),
{
    let native = catalog::native_path(root, group);
    match catalog::checked_manifest(w, root, group, max_bytes) {
        Ok(Some(active)) => {
            lemma_reading_a_generation(w, native, group, max_bytes, active);
        },
        _ => {},
    }
}

proof fn lemma_streaming(w: World, path: PathView, metadata: NativeMetaView, seen: Seq<u8>)
    ensures
        reads_only(describe::stream_asks(w, path, metadata, seen)),
    decreases
            (if seen.len() > metadata.size {
                0
            } else {
                metadata.size + 1 - seen.len()
            }),
{
    let limit = describe::chunk_limit(metadata.size as int, seen.len() as int);
    if seen.len() <= metadata.size {
        match (w.chunk)(path, seen.len() as int, limit) {
            Ok(bytes) => if bytes.len() > 0 {
                lemma_streaming(w, path, metadata, seen + bytes);
            },
            Err(_) => {},
        }
    }
}

/// Reading changes nothing, and reads nothing before the lock is held: to load and to describe a
/// snapshot ask for the lock first, for nothing more where it cannot be had, and never for a
/// change.
pub proof fn law_reading_changes_nothing(w: World, root: PathView, group: GroupId, max_bytes: int)
    ensures
        ({
            let load = catalog::load_asks(w, root, group, max_bytes);
            let describe = describe::describe_asks(w, root, group, max_bytes);
            &&& reads_only(load)
            &&& reads_only(describe)
            &&& load[0] == AskView::Lock && describe[0] == AskView::Lock
            &&& !w.locks ==> load.len() == 1 && describe.len() == 1
        }),
{
    let native = catalog::native_path(root, group);
    lemma_reading_the_current(w, root, group, max_bytes);
    match catalog::checked_manifest(w, root, group, max_bytes) {
        Ok(Some(active)) => {
            lemma_reading_a_generation(w, native, group, max_bytes, active);
            match catalog::metadata_of(w, native, group, max_bytes, active) {
                Ok(metadata) => {
                    lemma_streaming(
                        w,
                        catalog::generation_path(native, active).push("data.bin"@),
                        metadata,
                        Seq::empty(),
                    );
                },
                Err(_) => {},
            }
        },
        _ => {},
    }
}

/// Activation asks for one change at most, and for it last: the switch of the manifest. It does so
/// only with the lock held, where the candidate is valid and may follow the current snapshot.
pub proof fn law_activation_changes_last(w: World, root: PathView, stage: StageView, i: int)
    requires
        0 <= i < activation::activation_asks(w, root, stage).len(),
        activation::activation_asks(w, root, stage)[i] is Perform,
    ensures
        ({
            let asks = activation::activation_asks(w, root, stage);
            let max_bytes = stage.max_bytes as int;
            &&& i == asks.len() - 1
            &&& asks[0] == AskView::Lock
            &&& w.locks
            &&& catalog::generation_of(
                w,
                stage.root,
                stage.group,
                max_bytes,
                stage.active,
            ) is Ok
            &&& catalog::current_of(w, root, stage.group, max_bytes) matches Ok(current)
            &&& activation::conflict(current, stage.meta) is None
            &&& catalog::manifest_of(w, stage.root) matches Ok(previous)
            &&& (w.encode_manifest)(stage.active) matches Ok(bytes)
            &&& asks[i] == AskView::Perform(
                activation::switch_script(stage.root, bytes, previous, stage.active),
            )
        }),
{
    let max_bytes = stage.max_bytes as int;
    lemma_reading_a_generation(w, stage.root, stage.group, max_bytes, stage.active);
    lemma_reading_the_current(w, root, stage.group, max_bytes);
}

/// A refused activation changes nothing: where the candidate conflicts with the current snapshot,
/// activation fails and has asked for no change.
pub proof fn law_refused_activation_changes_nothing(w: World, root: PathView, stage: StageView)
    requires
        catalog::current_of(w, root, stage.group, stage.max_bytes as int) matches Ok(current)
            && activation::conflict(current, stage.meta) is Some,
    ensures
        activation::activated(w, root, stage) is Err,
        reads_only(activation::activation_asks(w, root, stage)),
{
    assert forall|i: int|
        0 <= i < activation::activation_asks(w, root, stage).len() implies !(
    #[trigger] activation::activation_asks(w, root, stage)[i] is Perform) by {
        if activation::activation_asks(w, root, stage)[i] is Perform {
            law_activation_changes_last(w, root, stage, i);
        }
    }
}

/// Staging asks for two changes at most: it prepares the candidate where no reader looks, and, with
/// the lock held, puts it at its final place. It asks for none where the job is at fault.
pub proof fn law_staging_changes_under_the_lock(w: World, job: StageJob, i: int)
    requires
        0 <= i < job.stage_asks(w).len(),
        job.stage_asks(w)[i] is Perform,
    ensures
        ({
            let asks = job.stage_asks(w);
            &&& job.fault() is None
            &&& (w.encode_metadata)(job.metadata()) matches Ok(bytes)
            &&& catalog::paths_fault(w, job.root, job.group) is None
            &&& asks[2] == AskView::Perform(job.preparation(bytes))
            &&& i == 2 || {
                &&& i == asks.len() - 1
                &&& asks[3] == AskView::Lock
                &&& w.locks
                &&& asks[i] == AskView::Perform(
                    job.publication(bytes, (w.present)(job.final_dir(bytes))),
                )
            }
        }),
{
}

/// What is loaded has passed every check: the manifest is of this layout and group; the metadata
/// has the checksum that the manifest names and is of this layout and group too; the image has the
/// size and the checksum that the metadata names; the snapshot metadata is in order, and the image
/// within the byte limit.
pub proof fn law_loaded_snapshot_is_valid(w: World, root: PathView, group: GroupId, max_bytes: int)
    ensures
        catalog::loaded(w, root, group, max_bytes) matches Ok(Some(found)) ==> {
            let native = catalog::native_path(root, group);
            &&& catalog::manifest_of(w, native) matches Ok(Some(active))
            &&& active.version == VERSION
            &&& active.group == group
            &&& files::bounded(
                (w.file)(
                    catalog::generation_path(native, active).push("native-meta.json"@),
                    META_LIMIT as int,
                ),
                META_LIMIT as int,
            ) matches Ok(bytes)
            &&& checksum::checksum(bytes) == active.metadata_sha256
            &&& (w.metadata)(bytes) matches Ok(metadata)
            &&& metadata.version == VERSION
            &&& metadata.group == group
            &&& metadata.meta == found.meta
            &&& metadata.size == found.data.len()
            &&& metadata.data_sha256 == checksum::checksum(found.data)
            &&& files::bounded(
                (w.file)(
                    catalog::generation_path(native, active).push("data.bin"@),
                    metadata.size as int,
                ),
                metadata.size as int,
            ) == Ok::<Seq<u8>, StorageErrorView>(found.data)
            &&& snapshot::meta_fault(found.meta) is None
            &&& found.data.len() <= max_bytes
        },
{
}

/// There is no falling back: where a manifest can be read, the generation that it names is loaded
/// or nothing is, and where nothing is found there is no manifest.
pub proof fn law_load_never_falls_back(
    w: World,
    root: PathView,
    group: GroupId,
    max_bytes: int,
    active: ActiveView,
)
    ensures
        ({
            let native = catalog::native_path(root, group);
            let loaded = catalog::loaded(w, root, group, max_bytes);
            let found = catalog::generation_of(w, native, group, max_bytes, active);
            &&& loaded == Ok::<Option<NativeSnapshotView>, StorageErrorView>(None)
                ==> catalog::manifest_of(w, native) == Ok::<Option<ActiveView>, StorageErrorView>(
                None,
            )
            &&& catalog::manifest_of(w, native) == Ok::<Option<ActiveView>, StorageErrorView>(
                Some(active),
            ) ==> {
                &&& found is Err ==> loaded is Err
                &&& loaded matches Ok(current) ==> found is Ok && current == Some(found->Ok_0)
            }
        }),
{
}

/// A change that touches nothing but the directory of a group, and creates directories on the way
/// to its generations.
pub open spec fn within_group(op: OpView, group_dir: PathView, native: PathView) -> bool {
    match op {
        OpView::CreateDirAll(path) => path == native,
        OpView::CreateDir(path) => under(group_dir, path),
        OpView::Write(path, _) => under(group_dir, path),
        OpView::SyncDir(_) => true,
        OpView::SyncParentOf(_) => true,
        OpView::Rename(from, to) => under(group_dir, from) && under(group_dir, to),
        OpView::RemoveTree(path) => under(group_dir, path),
    }
}

/// Outside of the directory of a group, nothing differs but directories that are new on the way to
/// its generations.
pub open spec fn differs_within_group(
    before: Tree,
    after: Tree,
    group_dir: PathView,
    native: PathView,
) -> bool {
    forall|q: PathView|
        !under(group_dir, q) ==> (#[trigger] (after.at)(q) == (before.at)(q) || ((before.at)(q) is None
            && under(q, native) && (after.at)(q) == Some(Node::Dir)))
}

proof fn lemma_under_is_transitive(a: PathView, b: PathView, c: PathView)
    requires
        under(a, b),
        under(b, c),
    ensures
        under(a, c),
{
    assert(c.take(a.len() as int) =~= b.take(a.len() as int));
}

proof fn lemma_changes_within_group(
    tree: Tree,
    script: Seq<OpView>,
    group_dir: PathView,
    native: PathView,
)
    requires
        forall|i: int| 0 <= i < script.len() ==> within_group(#[trigger] script[i], group_dir, native),
    ensures
        differs_within_group(tree, tree.after_all(script), group_dir, native),
    decreases script.len(),
{
    if script.len() > 0 {
        let rest = script.drop_last();
        assert forall|i: int| 0 <= i < rest.len() implies within_group(
            #[trigger] rest[i],
            group_dir,
            native,
        ) by {
            assert(rest[i] == script[i]);
        }
        lemma_changes_within_group(tree, rest, group_dir, native);
        let mid = tree.after_all(rest);
        let op = script.last();
        assert(op == script[script.len() - 1]);
        let after = tree.after_all(script);
        assert(after == mid.after(op));
        assert forall|q: PathView| !under(group_dir, q) implies (#[trigger] (after.at)(q) == (
        tree.at)(q) || ((tree.at)(q) is None && under(q, native) && (after.at)(q) == Some(Node::Dir))) by {
            assert((mid.at)(q) == (tree.at)(q) || ((tree.at)(q) is None && under(q, native) && (
            mid.at)(q) == Some(Node::Dir)));
            match op {
                OpView::Rename(from, to) => {
                    if under(from, q) {
                        lemma_under_is_transitive(group_dir, from, q);
                    }
                    if under(to, q) {
                        lemma_under_is_transitive(group_dir, to, q);
                    }
                },
                OpView::RemoveTree(path) => {
                    if under(path, q) {
                        lemma_under_is_transitive(group_dir, path, q);
                    }
                },
                _ => {},
            }
        }
    }
}

/// A script within a group, stopped anywhere, leaves what other groups load as it was.
proof fn lemma_other_groups_are_kept(
    tree: Tree,
    codec: Codec,
    root: PathView,
    group: GroupId,
    script: Seq<OpView>,
    k: int,
    torn: Option<Seq<u8>>,
    other: GroupId,
    max_bytes: int,
)
    requires
        other != group,
        0 <= k <= script.len(),
        forall|i: int|
            0 <= i < script.len() ==> within_group(
                #[trigger] script[i],
                catalog::group_path(root, group),
                catalog::native_path(root, group),
            ),
    ensures
        tree.interrupted(script, k, torn).current(codec, root, other, max_bytes) == tree.current(
            codec,
            root,
            other,
            max_bytes,
        ),
{
    let group_dir = catalog::group_path(root, group);
    let native = catalog::native_path(root, group);
    let part = script.take(k);
    let ops = match torn {
        Some(b) => if 0 <= k < script.len() && script[k] is Write {
            part.push(OpView::Write(script[k]->Write_0, b))
        } else {
            part
        },
        None => part,
    };
    let after = tree.interrupted(script, k, torn);
    assert(after == tree.after_all(ops)) by {
        if torn is Some && 0 <= k < script.len() && script[k] is Write {
            assert(ops.drop_last() =~= part);
        }
    }
    assert forall|i: int| 0 <= i < ops.len() implies within_group(
        #[trigger] ops[i],
        group_dir,
        native,
    ) by {
        if i < k {
            assert(ops[i] == script[i]);
        } else {
            assert(within_group(script[k], group_dir, native));
        }
    }
    lemma_changes_within_group(tree, ops, group_dir, native);
    lemma_other_group(tree, after, codec, root, group, other, max_bytes);
}

proof fn lemma_other_group(
    tree: Tree,
    after: Tree,
    codec: Codec,
    root: PathView,
    group: GroupId,
    other: GroupId,
    max_bytes: int,
)
    requires
        other != group,
        differs_within_group(
            tree,
            after,
            catalog::group_path(root, group),
            catalog::native_path(root, group),
        ),
    ensures
        after.current(codec, root, other, max_bytes) == tree.current(
            codec,
            root,
            other,
            max_bytes,
        ),
{
    let group_dir = catalog::group_path(root, group);
    let native = catalog::native_path(root, group);
    let other_dir = catalog::group_path(root, other);
    let other_native = catalog::native_path(root, other);
    let n = root.len() as int;
    if text::decimal(group as nat) == text::decimal(other as nat) {
        text::lemma_decimal_is_injective(group as nat, other as nat);
    }
    assert(group_dir[n] == text::decimal(group as nat));
    assert(native[n] == text::decimal(group as nat));
    assert(!under(group_dir, root));
    assert((after.at)(root) == (tree.at)(root) || ((tree.at)(root) is None && (after.at)(root)
        == Some(Node::Dir)));
    assert forall|q: PathView|
        q.len() > n && q[n] == text::decimal(other as nat) implies #[trigger] (after.at)(q) == (
    tree.at)(q) by {
        if under(group_dir, q) {
            assert(q.take(n + 1)[n] == group_dir[n]);
        }
        if under(q, native) {
            assert(native.take(q.len() as int)[n] == native[n]);
        }
    }
    assert((after.at)(other_dir) == (tree.at)(other_dir));
    assert((after.at)(other_native) == (tree.at)(other_native));
    let w1 = tree.world(codec);
    let w2 = after.world(codec);
    assert(catalog::paths_fault(w1, root, other) == catalog::paths_fault(w2, root, other));
    let manifest = other_native.push("active.json"@);
    assert((after.at)(manifest) == (tree.at)(manifest));
    assert(catalog::manifest_of(w1, other_native) == catalog::manifest_of(w2, other_native));
    match catalog::manifest_of(w1, other_native) {
        Ok(Some(active)) => {
            let dir = catalog::generation_path(other_native, active);
            assert((after.at)(dir) == (tree.at)(dir));
            let meta = dir.push("native-meta.json"@);
            assert((after.at)(meta) == (tree.at)(meta));
            let data = dir.push("data.bin"@);
            assert((after.at)(data) == (tree.at)(data));
            assert(catalog::metadata_of(w1, other_native, other, max_bytes, active)
                == catalog::metadata_of(w2, other_native, other, max_bytes, active));
        },
        _ => {},
    }
}

/// Groups are isolated: while a snapshot of one group is prepared, placed and activated, and
/// wherever that stops, every other group loads what it loaded before, failures included.
pub proof fn law_groups_are_isolated(
    tree: Tree,
    codec: Codec,
    job: StageJob,
    bytes: Seq<u8>,
    manifest: Seq<u8>,
    previous: Option<ActiveView>,
    prepared: int,
    placed: int,
    switched: int,
    torn: Option<Seq<u8>>,
    other: GroupId,
    max_bytes: int,
)
    requires
        other != job.group,
        0 <= prepared <= job.preparation(bytes).len(),
        0 <= placed <= 2,
        0 <= switched <= activation::switch_script(
            job.native(),
            manifest,
            previous,
            job.active(bytes),
        ).len(),
    ensures
        ({
            let script = activation::switch_script(
                job.native(),
                manifest,
                previous,
                job.active(bytes),
            );
            let before = tree.current(codec, job.root, other, max_bytes);
            &&& tree.interrupted(job.preparation(bytes), prepared, torn).current(
                codec,
                job.root,
                other,
                max_bytes,
            ) == before
            &&& placed_tree(tree, job, bytes, placed).current(codec, job.root, other, max_bytes)
                == before
            &&& placed_tree(tree, job, bytes, 2).interrupted(script, switched, torn).current(
                codec,
                job.root,
                other,
                max_bytes,
            ) == before
        }),
{
    let root = job.root;
    let group = job.group;
    let native = job.native();
    let group_dir = catalog::group_path(root, group);
    let stage = job.stage_dir();
    let final_dir = job.final_dir(bytes);
    let preparation = job.preparation(bytes);
    let publication = job.publication(bytes, exists_already(tree, job, bytes));
    let script = activation::switch_script(native, manifest, previous, job.active(bytes));
    assert forall|x: Seq<char>| under(group_dir, #[trigger] native.push(x)) by {
        lemma_under_self(group_dir, "native-v1"@);
        lemma_under_self(native, x);
        lemma_under_is_transitive(group_dir, native, native.push(x));
    }
    assert(under(group_dir, stage) && under(group_dir, final_dir));
    lemma_under_self(stage, "data.bin"@);
    lemma_under_self(stage, "native-meta.json"@);
    lemma_under_is_transitive(group_dir, stage, stage.push("data.bin"@));
    lemma_under_is_transitive(group_dir, stage, stage.push("native-meta.json"@));
    assert forall|i: int| 0 <= i < preparation.len() implies within_group(
        #[trigger] preparation[i],
        group_dir,
        native,
    ) by {
    }
    assert forall|i: int| 0 <= i < publication.len() implies within_group(
        #[trigger] publication[i],
        group_dir,
        native,
    ) by {
    }
    assert forall|i: int| 0 <= i < script.len() implies within_group(
        #[trigger] script[i],
        group_dir,
        native,
    ) by {
    }
    lemma_other_groups_are_kept(
        tree,
        codec,
        root,
        group,
        preparation,
        prepared,
        torn,
        other,
        max_bytes,
    );
    let whole = preparation.len() as int;
    lemma_other_groups_are_kept(
        tree,
        codec,
        root,
        group,
        preparation,
        whole,
        None,
        other,
        max_bytes,
    );
    assert(preparation.take(whole) =~= preparation);
    let mid = prepared_tree(tree, job, bytes);
    lemma_other_groups_are_kept(
        mid,
        codec,
        root,
        group,
        publication,
        placed,
        None,
        other,
        max_bytes,
    );
    lemma_other_groups_are_kept(mid, codec, root, group, publication, 2, None, other, max_bytes);
    lemma_other_groups_are_kept(
        placed_tree(tree, job, bytes, 2),
        codec,
        root,
        group,
        script,
        switched,
        torn,
        other,
        max_bytes,
    );
}

/// The path stands in the generation that a manifest named before, where the new one names another.
pub open spec fn is_obsolete(
    path: PathView,
    native: PathView,
    previous: Option<ActiveView>,
    active: ActiveView,
) -> bool {
    previous matches Some(old) && old.generation != active.generation && under(
        native.push(old.generation),
        path,
    )
}

/// A replacement removes the obsolete generation and nothing else: it is gone with everything in
/// it; apart from it only the manifest and its pending copy change; and every other candidate that
/// was staged for the group is still there.
pub proof fn law_replacement_removes_only_the_obsolete_generation(
    tree: Tree,
    root: PathView,
    group: GroupId,
    manifest: Seq<u8>,
    previous: Option<ActiveView>,
    active: ActiveView,
    staged: StageJob,
    bytes: Seq<u8>,
)
    requires
        staged.root == root,
        staged.group == group,
    ensures
        ({
            let native = catalog::native_path(root, group);
            let after = tree.after_all(
                activation::switch_script(native, manifest, previous, active),
            );
            &&& forall|q: PathView|
                is_obsolete(q, native, previous, active) ==> #[trigger] (after.at)(q) is None
            &&& forall|q: PathView|
                !is_obsolete(q, native, previous, active) && !under(
                    native.push("active.pending"@),
                    q,
                ) && !under(native.push("active.json"@), q) ==> #[trigger] (after.at)(q) == (
                tree.at)(q)
            &&& holds_candidate(tree, staged, bytes) && !is_obsolete(
                staged.final_dir(bytes),
                native,
                previous,
                active,
            ) ==> holds_candidate(after, staged, bytes)
        }),
{
    let native = catalog::native_path(root, group);
    let script = activation::switch_script(native, manifest, previous, active);
    let after = tree.after_all(script);
    let pending = native.push("active.pending"@);
    let json = native.push("active.json"@);
    let t1 = tree.after(OpView::Write(pending, manifest));
    let t2 = t1.after(OpView::Rename(pending, json));
    assert(script.take(0) =~= Seq::empty());
    lemma_next(tree, script, 0);
    lemma_next(tree, script, 1);
    lemma_next(tree, script, 2);
    assert(tree.after_all(script.take(3)) == t2);
    let replaces = previous is Some && previous->0.generation != active.generation;
    if replaces {
        lemma_next(tree, script, 3);
        lemma_next(tree, script, 4);
        assert(script.take(5) =~= script);
        assert(after == t2.after(OpView::RemoveTree(native.push(previous->0.generation))));
    } else {
        assert(script.take(3) =~= script);
        assert(after == t2);
    }
    lemma_under_self(pending, Seq::empty());
    assert forall|q: PathView|
        !is_obsolete(q, native, previous, active) && !under(pending, q) && !under(json, q) implies
    #[trigger] (after.at)(q) == (tree.at)(q) by {
        assert(q != pending);
        assert((t1.at)(q) == (tree.at)(q));
        assert((t2.at)(q) == (tree.at)(q));
    }
    if holds_candidate(tree, staged, bytes) && !is_obsolete(
        staged.final_dir(bytes),
        native,
        previous,
        active,
    ) {
        let name = checksum::checksum(bytes);
        let dir = staged.final_dir(bytes);
        checksum::lemma_checksum_form(bytes);
        lemma_names(0, 0, name);
        lemma_push_differs(native, "active.pending"@, name);
        lemma_push_differs(native, "active.json"@, name);
        if replaces {
            let old = previous->0.generation;
            if old == name {
                lemma_under_self(dir, Seq::empty());
            }
            lemma_push_differs(native, old, name);
        }
        assert((after.at)(dir) == (tree.at)(dir));
        let meta = dir.push("native-meta.json"@);
        assert((after.at)(meta) == (tree.at)(meta));
        let data = dir.push("data.bin"@);
        assert((after.at)(data) == (tree.at)(data));
    }
}

proof fn lemma_streamed(tree: Tree, codec: Codec, path: PathView, metadata: NativeMetaView, seen: int)
    requires
        (tree.at)(path) matches Some(Node::File(bytes)) && bytes.len() == metadata.size && 0 <= seen
            <= bytes.len(),
    ensures
        describe::streamed(
            tree.world(codec),
            path,
            metadata,
            (tree.at)(path)->0->File_0.take(seen),
        ) == describe::described_image(metadata, (tree.at)(path)->0->File_0),
    decreases metadata.size - seen,
{
    let bytes = (tree.at)(path)->0->File_0;
    let prefix = bytes.take(seen);
    let limit = describe::chunk_limit(metadata.size as int, seen);
    let w = tree.world(codec);
    assert((w.chunk)(path, seen, limit) == tree.chunk(path, seen, limit));
    if seen == bytes.len() {
        assert(prefix =~= bytes);
    } else {
        let chunk = tree.chunk(path, seen, limit)->Ok_0;
        let next = seen + chunk.len();
        assert(prefix + chunk =~= bytes.take(next));
        lemma_streamed(tree, codec, path, metadata, next);
    }
}

/// Describing agrees with loading: a snapshot is described exactly where it is loaded, with the
/// same metadata and the size of the image.
pub proof fn law_description_agrees_with_load(
    tree: Tree,
    codec: Codec,
    root: PathView,
    group: GroupId,
    max_bytes: int,
)
    requires
        tree.wf(),
    ensures
        ({
            let described = describe::described(tree.world(codec), root, group, max_bytes);
            let loaded = tree.current(codec, root, group, max_bytes);
            &&& described is Ok <==> loaded is Ok
            &&& described is Ok ==> match loaded->Ok_0 {
                None => described->Ok_0 is None,
                Some(found) => described->Ok_0 matches Some(info) && info.meta == found.meta
                    && info.size == found.data.len(),
            }
        }),
{
    let w = tree.world(codec);
    let native = catalog::native_path(root, group);
    match catalog::checked_manifest(w, root, group, max_bytes) {
        Ok(Some(active)) => {
            match catalog::metadata_of(w, native, group, max_bytes, active) {
                Ok(metadata) => {
                    let path = catalog::generation_path(native, active).push("data.bin"@);
                    match (tree.at)(path) {
                        Some(Node::File(bytes)) => {
                            assert(bytes.len() <= u64::MAX);
                            if bytes.len() == metadata.size {
                                assert(bytes.take(0) =~= Seq::empty());
                                lemma_streamed(tree, codec, path, metadata, 0);
                            }
                        },
                        _ => {},
                    }
                },
                Err(_) => {},
            }
        },
        _ => {},
    }
}

/// Nothing stands at `path` but a directory, if anything does.
pub open spec fn in_order(tree: Tree, path: PathView) -> bool {
    (tree.at)(path) is None || (tree.at)(path) == Some(Node::Dir)
}

/// The directories from the root of a catalog down to the generations of a group are in order.
pub open spec fn is_reachable(tree: Tree, root: PathView, group: GroupId) -> bool {
    let group_dir = root.push(text::decimal(group as nat));
    in_order(tree, root) && in_order(tree, group_dir) && in_order(tree, group_dir.push("native-v1"@))
}

/// The identity of a snapshot has between 1 and 4096 bytes, and its membership stands at or before
/// its cut.
pub open spec fn is_sound(meta: SnapshotMetaView) -> bool {
    &&& meta.snapshot_id.len() > 0
    &&& vstd::utf8::encode_utf8(meta.snapshot_id).len() <= 4096
    &&& meta.last_membership.log_id matches Some(membership) ==> {
        meta.last_log_id matches Some(last) && membership.index <= last.index
    }
}

/// A file of at most 1 MiB stands at `path`.
pub open spec fn has_record(tree: Tree, path: PathView) -> bool {
    (tree.at)(path) matches Some(Node::File(bytes)) && bytes.len() <= 1_048_576
}

/// The files of a group say that `found` is its current snapshot: a manifest of this layout and
/// group that names a generation by 64 hexadecimal digits; in the directory of that generation
/// metadata with the checksum that the manifest gives, of this layout and group too; and beside it
/// the image, with the size and the checksum that the metadata gives.
pub open spec fn holds_current(
    tree: Tree,
    codec: Codec,
    root: PathView,
    group: GroupId,
    found: NativeSnapshotView,
) -> bool {
    let native = root.push(text::decimal(group as nat)).push("native-v1"@);
    let manifest = (tree.at)(native.push("active.json"@))->0->File_0;
    let active = (codec.manifest)(manifest)->Ok_0;
    let dir = native.push(active.generation);
    let bytes = (tree.at)(dir.push("native-meta.json"@))->0->File_0;
    let metadata = (codec.metadata)(bytes)->Ok_0;
    &&& has_record(tree, native.push("active.json"@))
    &&& (codec.manifest)(manifest) is Ok
    &&& active.version == 1 && active.group == group
    &&& active.generation.len() == 64
    &&& forall|i: int|
        0 <= i < 64 ==> {
            ||| '0' <= #[trigger] active.generation[i] <= '9'
            ||| 'a' <= active.generation[i] <= 'f'
            ||| 'A' <= active.generation[i] <= 'F'
        }
    &&& (tree.at)(dir) == Some(Node::Dir)
    &&& has_record(tree, dir.push("native-meta.json"@))
    &&& checksum::hex_text(checksum::sha256(bytes)@) == active.metadata_sha256
    &&& (codec.metadata)(bytes) is Ok
    &&& metadata.version == 1 && metadata.group == group
    &&& is_sound(metadata.meta) && found.meta == metadata.meta
    &&& (tree.at)(dir.push("data.bin"@)) == Some(Node::File(found.data))
    &&& found.data.len() == metadata.size
    &&& checksum::hex_text(checksum::sha256(found.data)@) == metadata.data_sha256
}

/// Loading finds what the files say, all of it and nothing else: a snapshot exactly where they hold
/// it and its image is within the byte limit, and none exactly where the group has no manifest. A
/// byte limit beyond 64 MiB, or a directory that is none, is a failure.
pub proof fn law_load_finds_what_the_files_hold(
    tree: Tree,
    codec: Codec,
    catalog: catalog::SnapshotCatalog,
    group: GroupId,
    max_bytes: usize,
    turn: files::Turn<
        catalog::NativeLoad,
        Result<Option<snapshot::NativeSnapshot>, storage::StorageError>,
    >,
    found: NativeSnapshotView,
)
    requires
        call_ensures(catalog::SnapshotCatalog::load_native, (&catalog, group, max_bytes), turn),
    ensures
        ({
            let root = files::path_view(catalog.root@);
            let native = root.push(text::decimal(group as nat)).push("native-v1"@);
            let loaded = catalog::NativeLoad::turned(turn, tree.world(codec));
            let admitted = 1 <= max_bytes <= 64 * 1024 * 1024 && is_reachable(tree, root, group);
            &&& loaded == Ok::<Option<NativeSnapshotView>, StorageErrorView>(Some(found))
                <==> admitted && holds_current(tree, codec, root, group, found) && found.data.len()
                <= max_bytes
            &&& loaded == Ok::<Option<NativeSnapshotView>, StorageErrorView>(None) <==> admitted && (
            tree.at)(native.push("active.json"@)) is None
            &&& tree.current(codec, root, group, max_bytes as int) == loaded
        }),
{
    let root = files::path_view(catalog.root@);
    let w = tree.world(codec);
    let native = catalog::native_path(root, group);
    let path = native.push("active.json"@);
    assert(files::bounded((w.file)(path, META_LIMIT as int), META_LIMIT as int) is Ok ==> has_record(
        tree,
        path,
    ));
    if has_record(tree, path) {
        let manifest = (tree.at)(path)->0->File_0;
        assert(files::bounded((w.file)(path, META_LIMIT as int), META_LIMIT as int) == Ok::<
            Seq<u8>,
            StorageErrorView,
        >(manifest));
        if (codec.manifest)(manifest) is Ok {
            lemma_generation_is_read(
                tree,
                codec,
                native,
                group,
                max_bytes as int,
                (codec.manifest)(manifest)->Ok_0,
                found,
            );
        }
    }
}

/// Reading a generation gives what its files hold.
proof fn lemma_generation_is_read(
    tree: Tree,
    codec: Codec,
    native: PathView,
    group: GroupId,
    max_bytes: int,
    active: ActiveView,
    found: NativeSnapshotView,
)
    ensures
        ({
            let dir = native.push(active.generation);
            let bytes = (tree.at)(dir.push("native-meta.json"@))->0->File_0;
            let metadata = (codec.metadata)(bytes)->Ok_0;
            catalog::generation_of(tree.world(codec), native, group, max_bytes, active) == Ok::<
                NativeSnapshotView,
                StorageErrorView,
            >(found) <==> {
                &&& active.version == 1 && active.group == group
                &&& active.generation.len() == 64
                &&& forall|i: int|
                    0 <= i < 64 ==> {
                        ||| '0' <= #[trigger] active.generation[i] <= '9'
                        ||| 'a' <= active.generation[i] <= 'f'
                        ||| 'A' <= active.generation[i] <= 'F'
                    }
                &&& (tree.at)(dir) == Some(Node::Dir)
                &&& has_record(tree, dir.push("native-meta.json"@))
                &&& checksum::hex_text(checksum::sha256(bytes)@) == active.metadata_sha256
                &&& (codec.metadata)(bytes) is Ok
                &&& metadata.version == 1 && metadata.group == group
                &&& is_sound(metadata.meta) && found.meta == metadata.meta
                &&& (tree.at)(dir.push("data.bin"@)) == Some(Node::File(found.data))
                &&& found.data.len() == metadata.size
                &&& checksum::hex_text(checksum::sha256(found.data)@) == metadata.data_sha256
                &&& found.data.len() <= max_bytes
            }
        }),
{
    let w = tree.world(codec);
    let dir = native.push(active.generation);
    let path = dir.push("native-meta.json"@);
    let data = dir.push("data.bin"@);
    let bytes = (tree.at)(path)->0->File_0;
    let metadata = (codec.metadata)(bytes)->Ok_0;
    assert(files::bounded((w.file)(path, META_LIMIT as int), META_LIMIT as int) is Ok ==> has_record(
        tree,
        path,
    ));
    if has_record(tree, path) {
        assert(files::bounded((w.file)(path, META_LIMIT as int), META_LIMIT as int) == Ok::<
            Seq<u8>,
            StorageErrorView,
        >(bytes));
    }
    let read = files::bounded((w.file)(data, metadata.size as int), metadata.size as int);
    match (tree.at)(data) {
        Some(Node::File(image)) => {
            if image.len() <= metadata.size {
                assert(read == Ok::<Seq<u8>, StorageErrorView>(image));
            } else {
                assert(read is Err);
            }
        },
        _ => {
            assert(read is Err);
        },
    }
    if catalog::generation_of(w, native, group, max_bytes, active) == Ok::<
        NativeSnapshotView,
        StorageErrorView,
    >(found) {
        assert(checksum::has_checksum_form(active.generation));
        assert forall|i: int| 0 <= i < 64 implies {
            ||| '0' <= #[trigger] active.generation[i] <= '9'
            ||| 'a' <= active.generation[i] <= 'f'
            ||| 'A' <= active.generation[i] <= 'F'
        } by {
            assert(checksum::is_hex_digit(active.generation[i]));
        }
    }
}

/// A candidate that was not altered is accepted exactly where there is no current snapshot, or its
/// cut does not stand before the current one and, at the same cut, its membership is the same. So a
/// later cut is always accepted, of another term and leader too, and whatever its membership; what
/// is refused changes nothing.
pub proof fn law_later_cuts_are_always_accepted(
    tree: Tree,
    codec: Codec,
    job: StageJob,
    bytes: Seq<u8>,
    manifest: Seq<u8>,
    current: Option<NativeSnapshotView>,
    catalog: catalog::SnapshotCatalog,
    staged: staging::NativeSnapshotStage,
    turn: files::Turn<activation::NativeActivation, Result<(), storage::StorageError>>,
)
    requires
        call_ensures(catalog::SnapshotCatalog::activate_native, (&catalog, staged), turn),
        files::path_view(catalog.root@) == job.root,
        staged@ == job.stage(bytes),
        holds_candidate(tree, job, bytes),
        bytes.len() <= 1_048_576,
        1 <= job.max_bytes <= 64 * 1024 * 1024,
        is_sound(job.meta),
        job.data.len() <= job.max_bytes,
        (codec.metadata)(bytes) == Ok::<NativeMetaView, Seq<char>>(job.metadata()),
        (codec.encode_manifest)(job.active(bytes)) == Ok::<Seq<u8>, Seq<char>>(manifest),
        tree.current(codec, job.root, job.group, job.max_bytes as int) == Ok::<
            Option<NativeSnapshotView>,
            StorageErrorView,
        >(current),
    ensures
        ({
            let outcome = activation::NativeActivation::turned(turn, tree.world(codec));
            let asks = activation::NativeActivation::asked(turn, tree.world(codec));
            let regresses = current is Some && log_id::before(
                job.meta.last_log_id,
                current->0.meta.last_log_id,
            );
            let disagrees = current is Some && job.meta.last_log_id == current->0.meta.last_log_id
                && job.meta.last_membership != current->0.meta.last_membership;
            &&& outcome is Ok <==> !regresses && !disagrees
            &&& current is None ==> outcome is Ok
            &&& current is Some && log_id::before(
                current->0.meta.last_log_id,
                job.meta.last_log_id,
            ) ==> outcome is Ok
            &&& current is Some && current->0.meta == job.meta ==> outcome is Ok
            &&& outcome is Err ==> outcome->Err_0.kind is InvalidData && reads_only(asks)
            &&& regresses ==> outcome->Err_0.message == "snapshot activation would regress"@
            &&& disagrees ==> outcome->Err_0.message
                == "conflicting snapshot membership at same cut"@
        }),
{
    let w = tree.world(codec);
    let stage = job.stage(bytes);
    lemma_candidate_is_read(tree, codec, job, bytes);
    if activation::conflict(current, job.meta) is Some {
        law_refused_activation_changes_nothing(w, job.root, stage);
    }
    if current is Some {
        log_id::law_positions_are_totally_ordered(
            current->0.meta.last_log_id,
            job.meta.last_log_id,
            None,
        );
    }
}

/// A candidate is staged exactly where its byte limit is in range, its metadata in order, its image
/// within the limit, its encoded metadata within 1 MiB, the directories in order, and a generation
/// of the same name, if there is one, holds the same image and metadata. What is staged says what
/// was handed in, and is named by the checksum of its metadata.
pub proof fn law_staging_succeeds_where_it_may(
    tree: Tree,
    codec: Codec,
    catalog: catalog::SnapshotCatalog,
    group: GroupId,
    meta: snapshot::SnapshotMeta,
    data: Vec<u8>,
    max_bytes: usize,
    process: u64,
    sequence: u64,
    turn: files::Turn<
        staging::NativeStaging,
        Result<staging::NativeSnapshotStage, storage::StorageError>,
    >,
    job: StageJob,
    bytes: Seq<u8>,
)
    requires
        call_ensures(
            catalog::SnapshotCatalog::stage_native,
            (&catalog, group, &meta, data, max_bytes, process, sequence),
            turn,
        ),
        job == (StageJob {
            root: files::path_view(catalog.root@),
            group,
            meta: meta@,
            data: data@,
            max_bytes,
            stage_name: staging::stage_name(process, sequence),
        }),
        (codec.encode_metadata)(
            NativeMetaView {
                version: 1,
                group,
                meta: meta@,
                size: data@.len() as usize,
                data_sha256: checksum::hex_text(checksum::sha256(data@)@),
            },
        ) == Ok::<Seq<u8>, Seq<char>>(bytes),
    ensures
        ({
            let root = files::path_view(catalog.root@);
            let native = root.push(text::decimal(group as nat)).push("native-v1"@);
            let name = checksum::hex_text(checksum::sha256(bytes)@);
            let prepared = prepared_tree(tree, job, bytes);
            let dir = native.push(name);
            let staged = staging::NativeStaging::turned(
                turn,
                staging_world(tree, codec, job, bytes),
            );
            &&& staged is Ok <==> {
                &&& 1 <= max_bytes <= 64 * 1024 * 1024
                &&& is_sound(meta@)
                &&& data@.len() <= max_bytes
                &&& bytes.len() <= 1_048_576
                &&& is_reachable(tree, root, group)
                &&& (prepared.at)(dir) is Some ==> {
                    &&& (prepared.at)(dir.push("native-meta.json"@)) == Some(Node::File(bytes))
                    &&& (prepared.at)(dir.push("data.bin"@)) == Some(Node::File(data@))
                }
            }
            &&& staged is Ok ==> {
                &&& staged->Ok_0.group == group
                &&& staged->Ok_0.root == native
                &&& staged->Ok_0.meta == meta@
                &&& staged->Ok_0.max_bytes == max_bytes
                &&& staged->Ok_0.active.version == 1
                &&& staged->Ok_0.active.group == group
                &&& staged->Ok_0.active.generation == name
                &&& staged->Ok_0.active.metadata_sha256 == name
            }
        }),
{
    let w = staging_world(tree, codec, job, bytes);
    let prepared = prepared_tree(tree, job, bytes);
    let dir = job.final_dir(bytes);
    let meta_path = dir.push("native-meta.json"@);
    let data_path = dir.push("data.bin"@);
    assert((w.present)(dir) == ((prepared.at)(dir) is Some));
    assert((w.file)(meta_path, META_LIMIT as int) == prepared.file(meta_path, META_LIMIT as int));
    assert((w.file)(data_path, job.max_bytes as int) == prepared.file(
        data_path,
        job.max_bytes as int,
    ));
    assert(catalog::paths_fault(w, job.root, job.group) is None <==> is_reachable(
        tree,
        job.root,
        job.group,
    ));
    lemma_bounded_file(prepared, meta_path, META_LIMIT as int, bytes);
    lemma_bounded_file(prepared, data_path, job.max_bytes as int, job.data);
}

/// A bounded read of a tree gives `bytes` exactly where they are the whole file and within the
/// limit.
proof fn lemma_bounded_file(tree: Tree, path: PathView, limit: int, bytes: Seq<u8>)
    requires
        0 <= limit <= u64::MAX,
    ensures
        files::bounded(tree.file(path, limit), limit) == Ok::<Seq<u8>, StorageErrorView>(bytes)
            <==> (tree.at)(path) == Some(Node::File(bytes)) && bytes.len() <= limit,
{
}

/// Activation reports success only after everything that it asked to be changed was changed: the
/// last thing asked for is a script of changes that puts the manifest of this candidate in its
/// place, and it succeeded. A failed change is the answer, and so is a lock that could not be
/// taken.
pub proof fn law_activation_succeeds_with_its_changes(w: World, root: PathView, stage: StageView)
    ensures
        ({
            let outcome = activation::activated(w, root, stage);
            let asks = activation::activation_asks(w, root, stage);
            let native = root.push(text::decimal(stage.group as nat)).push("native-v1"@);
            &&& outcome is Ok ==> {
                &&& w.locks && stage.root == native
                &&& asks.len() > 0
                &&& asks[0] is Lock
                &&& asks.last() is Perform
                &&& (w.perform)(asks.last()->Perform_0) is None
                &&& asks.last()->Perform_0.contains(
                    OpView::Rename(native.push("active.pending"@), native.push("active.json"@)),
                )
                &&& (w.encode_manifest)(stage.active) is Ok && asks.last()->Perform_0[0]
                    == OpView::Write(
                    native.push("active.pending"@),
                    (w.encode_manifest)(stage.active)->Ok_0,
                )
            }
            &&& asks.len() > 0 && asks.last() is Perform ==> match (w.perform)(
                asks.last()->Perform_0,
            ) {
                None => outcome is Ok,
                Some(error) => outcome == Err::<(), StorageErrorView>(error),
            }
            &&& stage.root != native ==> outcome is Err && asks.len() == 0
            &&& stage.root == native && !w.locks ==> outcome is Err && asks == seq![AskView::Lock]
        }),
{
    let native = catalog::native_path(root, stage.group);
    let asks = activation::activation_asks(w, root, stage);
    if activation::activated(w, root, stage) is Ok {
        let previous = catalog::manifest_of(w, native)->Ok_0;
        let bytes = (w.encode_manifest)(stage.active)->Ok_0;
        let script = activation::switch_script(native, bytes, previous, stage.active);
        assert(script[1] == OpView::Rename(
            native.push("active.pending"@),
            native.push("active.json"@),
        ));
    }
    if asks.len() > 0 && asks.last() is Perform {
        law_activation_changes_last(w, root, stage, asks.len() - 1);
    }
}

/// Staging reports success only after everything that it asked to be changed was changed; a failed
/// change is the answer.
pub proof fn law_staging_succeeds_with_its_changes(w: World, job: StageJob, i: int)
    requires
        0 <= i < job.stage_asks(w).len(),
        job.stage_asks(w)[i] is Perform,
    ensures
        job.staged(w) is Ok ==> (w.perform)(job.stage_asks(w)[i]->Perform_0) is None,
        (w.perform)(job.stage_asks(w)[i]->Perform_0) matches Some(error) ==> job.staged(w) == Err::<
            StageView,
            StorageErrorView,
        >(error),
{
}

/// The directory of a path.
pub open spec fn parent(path: PathView) -> PathView {
    path.drop_last()
}

/// `script` makes the change at `i` durable: the directory in which an entry was created, replaced
/// or removed is synced afterwards.
pub open spec fn is_synced(script: Seq<OpView>, i: int) -> bool {
    match script[i] {
        OpView::CreateDir(path) => exists|j: int|
            i < j < script.len() && #[trigger] script[j] == OpView::SyncDir(parent(path)),
        OpView::Write(path, _) => exists|j: int|
            i < j < script.len() && #[trigger] script[j] == OpView::SyncDir(parent(path)),
        OpView::Rename(from, to) => exists|j: int|
            i < j < script.len() && #[trigger] script[j] == OpView::SyncDir(parent(to)),
        OpView::RemoveTree(path) => exists|j: int|
            i < j < script.len() && #[trigger] script[j] == OpView::SyncDir(parent(path)),
        OpView::CreateDirAll(path) => exists|j: int|
            i < j < script.len() && #[trigger] script[j] == OpView::SyncDir(path),
        _ => true,
    }
}

/// Everything that staging and activation change is made durable. A candidate's own files are
/// synced before it is moved to its place, the move before it counts as staged; and the manifest is
/// written whole beside the current one and put in its place in one move.
pub proof fn law_every_change_is_made_durable(
    job: StageJob,
    bytes: Seq<u8>,
    existing: bool,
    manifest: Seq<u8>,
    previous: Option<ActiveView>,
    active: ActiveView,
    i: int,
)
    ensures
        ({
            let preparation = job.preparation(bytes);
            let staging = preparation + job.publication(bytes, existing);
            let switch = activation::switch_script(job.native(), manifest, previous, active);
            &&& 0 <= i < staging.len() ==> is_synced(staging, i)
            &&& 0 <= i < switch.len() ==> is_synced(switch, i)
            &&& preparation.len() > 0 && preparation.last() == OpView::SyncDir(job.stage_dir())
            &&& preparation.contains(OpView::Write(job.stage_dir().push("data.bin"@), job.data))
            &&& preparation.contains(OpView::Write(job.stage_dir().push("native-meta.json"@), bytes))
            &&& 0 <= i < switch.len() ==> (switch[i] matches OpView::Write(path, written) ==> path
                == job.native().push("active.pending"@) && written == manifest)
        }),
{
    let native = job.native();
    let preparation = job.preparation(bytes);
    let publication = job.publication(bytes, existing);
    let staging = preparation + publication;
    let switch = activation::switch_script(native, manifest, previous, active);
    assert(parent(job.stage_dir()) =~= native);
    assert(parent(job.final_dir(bytes)) =~= native);
    assert(parent(job.stage_dir().push("data.bin"@)) =~= job.stage_dir());
    assert(parent(job.stage_dir().push("native-meta.json"@)) =~= job.stage_dir());
    assert(parent(native.push("active.pending"@)) =~= native);
    assert(parent(native.push("active.json"@)) =~= native);
    assert(preparation[6] == OpView::Write(job.stage_dir().push("data.bin"@), job.data));
    assert(preparation[7] == OpView::Write(job.stage_dir().push("native-meta.json"@), bytes));
    assert(preparation.len() == 9 && publication.len() == 2);
    assert(staging[1] == OpView::SyncDir(native));
    assert(staging[8] == OpView::SyncDir(job.stage_dir()));
    assert(staging[10] == OpView::SyncDir(native));
    assert(switch[2] == OpView::SyncDir(native));
    if previous is Some && previous->0.generation != active.generation {
        assert(parent(native.push(previous->0.generation)) =~= native);
        assert(switch[4] == OpView::SyncDir(native));
    }
}

/// The directories that staging creates are durable down from the parent of the catalog's root,
/// before anything is written in them.
pub proof fn law_created_directories_are_made_durable(job: StageJob, bytes: Seq<u8>, i: int)
    requires
        0 <= i < job.preparation(bytes).len(),
        job.preparation(bytes)[i] is Write || job.preparation(bytes)[i] is CreateDir,
    ensures
        ({
            let before = job.preparation(bytes).take(i);
            let group_dir = job.root.push(text::decimal(job.group as nat));
            &&& before.contains(OpView::CreateDirAll(group_dir.push("native-v1"@)))
            &&& before.contains(OpView::SyncDir(group_dir.push("native-v1"@)))
            &&& before.contains(OpView::SyncDir(group_dir))
            &&& before.contains(OpView::SyncDir(job.root))
            &&& before.contains(OpView::SyncParentOf(job.root))
        }),
{
    let before = job.preparation(bytes).take(i);
    assert(i >= 5);
    assert(before[0] == job.preparation(bytes)[0]);
    assert(before[1] == job.preparation(bytes)[1]);
    assert(before[2] == job.preparation(bytes)[2]);
    assert(before[3] == job.preparation(bytes)[3]);
    assert(before[4] == job.preparation(bytes)[4]);
}

/// An obsolete generation is removed only once the manifest that replaces it is durable: what is
/// removed is the generation of the previous manifest, where the new one names another, and nothing
/// else.
pub proof fn law_obsolete_generations_go_last(
    native: PathView,
    manifest: Seq<u8>,
    previous: Option<ActiveView>,
    active: ActiveView,
    i: int,
)
    ensures
        ({
            let script = activation::switch_script(native, manifest, previous, active);
            let json = native.push("active.json"@);
            &&& 0 <= i < script.len() && script[i] is RemoveTree ==> {
                &&& previous is Some && previous->0.generation != active.generation
                &&& script[i] == OpView::RemoveTree(native.push(previous->0.generation))
                &&& exists|j: int, k: int|
                    0 <= j < k < i && #[trigger] script[j] == OpView::Rename(
                        native.push("active.pending"@),
                        json,
                    ) && #[trigger] script[k] == OpView::SyncDir(native)
            }
            &&& previous is Some && previous->0.generation != active.generation ==> script.contains(
                OpView::RemoveTree(native.push(previous->0.generation)),
            )
        }),
{
    let script = activation::switch_script(native, manifest, previous, active);
    assert(script[1] == OpView::Rename(
        native.push("active.pending"@),
        native.push("active.json"@),
    ));
    assert(script[2] == OpView::SyncDir(native));
    if previous is Some && previous->0.generation != active.generation {
        assert(script[3] == OpView::RemoveTree(native.push(previous->0.generation)));
    }
}

/// No operation goes on without the lock: it fails, with nothing read and nothing changed.
pub proof fn law_nothing_is_done_without_the_lock(
    w: World,
    root: PathView,
    group: GroupId,
    max_bytes: int,
)
    requires
        !w.locks,
    ensures
        catalog::loaded(w, root, group, max_bytes) matches Err(error) && error.kind is InvalidData,
        describe::described(w, root, group, max_bytes) matches Err(error)
            && error.kind is InvalidData,
        catalog::load_asks(w, root, group, max_bytes) == seq![AskView::Lock],
        describe::describe_asks(w, root, group, max_bytes) == seq![AskView::Lock],
{
}

/// A failed read is the answer, as it failed: of the directories, of the manifest where it is not
/// missing, of the generation, of its metadata, and of its image. So is what a decoder says.
pub proof fn law_failed_reads_are_reported(
    w: World,
    root: PathView,
    group: GroupId,
    max_bytes: int,
    active: ActiveView,
    metadata: NativeMetaView,
    bytes: Seq<u8>,
    error: StorageErrorView,
    message: Seq<char>,
)
    requires
        w.locks,
        1 <= max_bytes <= 64 * 1024 * 1024,
    ensures
        ({
            let native = root.push(text::decimal(group as nat)).push("native-v1"@);
            let loaded = catalog::loaded(w, root, group, max_bytes);
            let failed = Err::<Option<NativeSnapshotView>, StorageErrorView>(error);
            let unread = Err::<ReadView, StorageErrorView>(error);
            let undecoded = Err::<Option<NativeSnapshotView>, StorageErrorView>(
                StorageErrorView { kind: ErrorKind::Other, message },
            );
            let json = (w.file)(native.push("active.json"@), 1_048_576);
            let dir = native.push(active.generation);
            let named = catalog::manifest_of(w, native) == Ok::<Option<ActiveView>, StorageErrorView>(
                Some(active),
            ) && catalog::is_compatible(active, group);
            let whole = ReadView { regular: true, declared: bytes.len() as u64, bytes };
            let small = bytes.len() <= 1_048_576;
            &&& (w.kind)(root) == Err::<FileKind, StorageErrorView>(error) && !(
            error.kind is NotFound) ==> loaded == failed
            &&& catalog::paths_fault(w, root, group) is None ==> {
                &&& json == unread && !(error.kind is NotFound) ==> loaded == failed
                &&& json == Ok::<ReadView, StorageErrorView>(whole) && small && (w.manifest)(bytes)
                    == Err::<ActiveView, Seq<char>>(message) ==> loaded == undecoded
                &&& named && (w.kind)(dir) == Err::<FileKind, StorageErrorView>(error) ==> loaded
                    == failed
                &&& named && (w.kind)(dir) == Ok::<FileKind, StorageErrorView>(FileKind::Directory)
                    ==> {
                    let read = (w.file)(dir.push("native-meta.json"@), 1_048_576);
                    &&& read == unread ==> loaded == failed
                    &&& read == Ok::<ReadView, StorageErrorView>(whole) && small
                        && active.metadata_sha256 == checksum::checksum(bytes) && (w.metadata)(bytes)
                        == Err::<NativeMetaView, Seq<char>>(message) ==> loaded == undecoded
                    &&& catalog::metadata_of(w, native, group, max_bytes, active) == Ok::<
                        NativeMetaView,
                        StorageErrorView,
                    >(metadata) && (w.file)(dir.push("data.bin"@), metadata.size as int) == unread
                        ==> loaded == failed
                }
            }
        }),
{
}

/// A failure on the way to an activation is its answer, and nothing has been changed: of the
/// candidate, of the current snapshot, of the manifest so far, and of encoding the new one.
pub proof fn law_failures_before_the_switch_are_reported(w: World, root: PathView, stage: StageView)
    requires
        w.locks,
        stage.root == catalog::native_path(root, stage.group),
        catalog::paths_fault(w, root, stage.group) is None,
    ensures
        ({
            let outcome = activation::activated(w, root, stage);
            let candidate = catalog::generation_of(
                w,
                stage.root,
                stage.group,
                stage.max_bytes as int,
                stage.active,
            );
            let current = catalog::current_of(w, root, stage.group, stage.max_bytes as int);
            let encoded = (w.encode_manifest)(stage.active);
            &&& candidate is Err ==> outcome == Err::<(), StorageErrorView>(candidate->Err_0)
            &&& candidate is Ok && current is Err ==> outcome == Err::<(), StorageErrorView>(
                current->Err_0,
            )
            &&& outcome is Ok ==> candidate is Ok && current is Ok && encoded is Ok
            &&& encoded is Err ==> outcome is Err && reads_only(
                activation::activation_asks(w, root, stage),
            )
        }),
{
    let asks = activation::activation_asks(w, root, stage);
    if (w.encode_manifest)(stage.active) is Err {
        assert forall|i: int| 0 <= i < asks.len() implies !(#[trigger] asks[i] is Perform) by {
            if asks[i] is Perform {
                law_activation_changes_last(w, root, stage, i);
                law_activation_succeeds_with_its_changes(w, root, stage);
            }
        }
    }
}

/// What is described was read to its end: the bytes that were seen have the size and the checksum
/// that the metadata gives, nothing followed them, and a read that failed is the answer.
pub proof fn law_described_images_were_read_whole(
    w: World,
    path: PathView,
    metadata: NativeMetaView,
    seen: Seq<u8>,
)
    requires
        seen.len() <= metadata.size,
    ensures
        ({
            let described = describe::streamed(w, path, metadata, seen);
            let limit = describe::chunk_limit(metadata.size as int, seen.len() as int);
            let next = (w.chunk)(path, seen.len() as int, limit);
            &&& described is Ok ==> {
                &&& described->Ok_0.meta == metadata.meta
                &&& described->Ok_0.size == metadata.size as u64
                &&& exists|image: Seq<u8>|
                    {
                        &&& image.len() == metadata.size
                        &&& seen.len() <= image.len() && image.take(seen.len() as int) == seen
                        &&& #[trigger] checksum::checksum(image) == metadata.data_sha256
                        &&& (w.chunk)(path, image.len() as int, 1) == Ok::<
                            Seq<u8>,
                            StorageErrorView,
                        >(Seq::empty())
                    }
            }
            &&& next is Err ==> described == Err::<
                snapshot::NativeSnapshotInfoView,
                StorageErrorView,
            >(next->Err_0)
        }),
    decreases metadata.size + 1 - seen.len(),
{
    let described = describe::streamed(w, path, metadata, seen);
    let limit = describe::chunk_limit(metadata.size as int, seen.len() as int);
    let next = (w.chunk)(path, seen.len() as int, limit);
    if described is Ok {
        let chunk = next->Ok_0;
        if chunk.len() == 0 {
            assert(seen.take(seen.len() as int) =~= seen);
            assert(chunk =~= Seq::empty());
            assert(limit == 1);
            assert(checksum::checksum(seen) == metadata.data_sha256);
        } else {
            assert(describe::streamed(w, path, metadata, seen + chunk) == described);
            assert((seen + chunk).len() <= metadata.size);
            law_described_images_were_read_whole(w, path, metadata, seen + chunk);
            let image = choose|image: Seq<u8>|
                {
                    &&& image.len() == metadata.size
                    &&& (seen + chunk).len() <= image.len() && image.take(
                        (seen + chunk).len() as int,
                    ) == seen + chunk
                    &&& #[trigger] checksum::checksum(image) == metadata.data_sha256
                    &&& (w.chunk)(path, image.len() as int, 1) == Ok::<
                        Seq<u8>,
                        StorageErrorView,
                    >(Seq::empty())
                };
            assert(image.take(seen.len() as int) =~= (seen + chunk).take(seen.len() as int));
            assert((seen + chunk).take(seen.len() as int) =~= seen);
            assert(checksum::checksum(image) == metadata.data_sha256);
        }
    }
}

/// No two candidates are prepared in one directory, unless one process stages both under one
/// number.
pub proof fn law_stage_names_are_unique(
    process: u64,
    sequence: u64,
    other_process: u64,
    other_sequence: u64,
)
    requires
        staging::stage_name(process, sequence) == staging::stage_name(other_process, other_sequence),
    ensures
        process == other_process,
        sequence == other_sequence,
{
    reveal_strlit("-");
    let a = "-"@ + (text::decimal(sequence as nat) + Seq::empty());
    let b = "-"@ + (text::decimal(other_sequence as nat) + Seq::empty());
    assert(staging::stage_name(process, sequence) =~= ".stage-"@ + (text::decimal(process as nat)
        + a));
    assert(staging::stage_name(other_process, other_sequence) =~= ".stage-"@ + (text::decimal(
        other_process as nat,
    ) + b));
    text::lemma_number_follows(".stage-"@, process as nat, a, other_process as nat, b);
    text::lemma_number_follows("-"@, sequence as nat, Seq::empty(), other_sequence as nat, Seq::empty());
}

/// An image is read in chunks that never go further than one byte beyond its size, and never ask
/// for more than 8192 bytes; while there is something left to see, something is asked for.
pub proof fn law_chunks_stay_within_the_image(size: int, seen: int)
    requires
        0 <= seen <= size,
    ensures
        1 <= describe::chunk_limit(size, seen) <= 8192,
        seen + describe::chunk_limit(size, seen) <= size + 1,
        size - seen < 8191 ==> describe::chunk_limit(size, seen) == size + 1 - seen,
        size - seen >= 8191 ==> describe::chunk_limit(size, seen) == 8192,
{
}

/// Results without a value, and optional ones, are reported as they are.
pub proof fn law_outcomes_are_reported_as_they_are<T: View>(
    done: Result<(), storage::StorageError>,
    found: Result<Option<T>, storage::StorageError>,
)
    ensures
        activation::unit_view(done) is Ok <==> done is Ok,
        done is Err ==> activation::unit_view(done)->Err_0.kind == done->Err_0.kind
            && activation::unit_view(done)->Err_0.message == done->Err_0.message@,
        catalog::option_result_view(found) is Ok <==> found is Ok,
        found is Ok ==> (catalog::option_result_view(found)->Ok_0 is Some <==> found->Ok_0 is Some),
        found matches Ok(Some(value)) ==> catalog::option_result_view(found)->Ok_0 == Some(value@),
        found is Err ==> catalog::option_result_view(found)->Err_0.kind == found->Err_0.kind
            && catalog::option_result_view(found)->Err_0.message == found->Err_0.message@,
{
}

/// Publishing is staging and then activating: where the candidate cannot be staged that is the
/// answer and nothing is activated, else activating it is, and nothing else is asked for.
pub proof fn law_publication_is_staging_then_activation(
    catalog: catalog::SnapshotCatalog,
    group: GroupId,
    meta: snapshot::SnapshotMeta,
    data: Vec<u8>,
    max_bytes: usize,
    process: u64,
    sequence: u64,
    publishing: files::Turn<activation::NativePublication, Result<(), storage::StorageError>>,
    staging: files::Turn<
        staging::NativeStaging,
        Result<staging::NativeSnapshotStage, storage::StorageError>,
    >,
    candidate: staging::NativeSnapshotStage,
    activating: files::Turn<activation::NativeActivation, Result<(), storage::StorageError>>,
    before: World,
    after: World,
)
    requires
        call_ensures(
            catalog::SnapshotCatalog::publish_native,
            (&catalog, group, &meta, data, max_bytes, process, sequence),
            publishing,
        ),
        call_ensures(
            catalog::SnapshotCatalog::stage_native,
            (&catalog, group, &meta, data, max_bytes, process, sequence),
            staging,
        ),
        call_ensures(catalog::SnapshotCatalog::activate_native, (&catalog, candidate), activating),
    ensures
        ({
            let staged = staging::NativeStaging::turned(staging, before);
            let asked = staging::NativeStaging::asked(staging, before);
            let outcome = activation::NativePublication::turned(publishing, before, after);
            let asks = activation::NativePublication::asked(publishing, before, after);
            &&& staged is Err ==> outcome == Err::<(), StorageErrorView>(staged->Err_0) && asks
                == asked
            &&& staged == Ok::<StageView, StorageErrorView>(candidate@) ==> {
                &&& outcome == activation::NativeActivation::turned(activating, after)
                &&& asks == asked + activation::NativeActivation::asked(activating, after)
            }
        }),
{
}

/// Describing finds what the files hold, without the image: a snapshot exactly where they hold one
/// within the byte limit, with its metadata and its size, and none exactly where the group has no
/// manifest.
pub proof fn law_description_finds_what_the_files_hold(
    tree: Tree,
    codec: Codec,
    catalog: catalog::SnapshotCatalog,
    group: GroupId,
    max_bytes: usize,
    turn: files::Turn<
        describe::NativeDescribe,
        Result<Option<snapshot::NativeSnapshotInfo>, storage::StorageError>,
    >,
    loading: files::Turn<
        catalog::NativeLoad,
        Result<Option<snapshot::NativeSnapshot>, storage::StorageError>,
    >,
    found: NativeSnapshotView,
)
    requires
        tree.wf(),
        call_ensures(catalog::SnapshotCatalog::describe_native, (&catalog, group, max_bytes), turn),
        call_ensures(catalog::SnapshotCatalog::load_native, (&catalog, group, max_bytes), loading),
    ensures
        ({
            let root = files::path_view(catalog.root@);
            let native = root.push(text::decimal(group as nat)).push("native-v1"@);
            let described = describe::NativeDescribe::turned(turn, tree.world(codec));
            let admitted = 1 <= max_bytes <= 64 * 1024 * 1024 && is_reachable(tree, root, group);
            &&& admitted && holds_current(tree, codec, root, group, found) && found.data.len()
                <= max_bytes ==> {
                &&& described is Ok && described->Ok_0 is Some
                &&& described->Ok_0->0.meta == found.meta
                &&& described->Ok_0->0.size == found.data.len()
            }
            &&& described is Ok && described->Ok_0 is None <==> admitted && (tree.at)(
                native.push("active.json"@),
            ) is None
            &&& described is Ok <==> catalog::NativeLoad::turned(loading, tree.world(codec)) is Ok
        }),
{
    law_load_finds_what_the_files_hold(tree, codec, catalog, group, max_bytes, loading, found);
    law_description_agrees_with_load(
        tree,
        codec,
        files::path_view(catalog.root@),
        group,
        max_bytes as int,
    );
}

/// The generations of a group stand in a directory of its own below the root, and the directories
/// on the way are in order exactly where each is a directory or missing; the first failure is the
/// answer.
pub proof fn law_groups_have_directories_of_their_own(
    catalog: catalog::SnapshotCatalog,
    group: GroupId,
    other: GroupId,
    path: Vec<String>,
    other_path: Vec<String>,
    root: Result<FileKind, storage::StorageError>,
    middle: Result<FileKind, storage::StorageError>,
    native: Result<FileKind, storage::StorageError>,
    checked: Result<(), storage::StorageError>,
)
    requires
        call_ensures(catalog::SnapshotCatalog::native_root, (&catalog, group), path),
        call_ensures(catalog::SnapshotCatalog::native_root, (&catalog, other), other_path),
        call_ensures(catalog::validate_native_paths, (root, middle, native), checked),
    ensures
        files::path_view(path@) == files::path_view(catalog.root@).push(
            text::decimal(group as nat),
        ).push("native-v1"@),
        files::path_view(path@) == files::path_view(other_path@) ==> group == other,
        ({
            let fine = |kind: Result<FileKind, storage::StorageError>|
                match kind {
                    Ok(kind) => kind is Directory,
                    Err(error) => error.kind is NotFound,
                };
            &&& checked is Ok <==> fine(root) && fine(middle) && fine(native)
            &&& !fine(root) && root is Err ==> checked->Err_0@ == root->Err_0@
            &&& fine(root) && !fine(middle) && middle is Err ==> checked->Err_0@ == middle->Err_0@
            &&& fine(root) && fine(middle) && !fine(native) && native is Err ==> checked->Err_0@
                == native->Err_0@
            &&& !fine(root) && root is Ok ==> checked->Err_0.kind is InvalidData
        }),
{
    let a = files::path_view(path@);
    let b = files::path_view(other_path@);
    let n = files::path_view(catalog.root@).len() as int;
    assert(a[n] == text::decimal(group as nat));
    assert(b[n] == text::decimal(other as nat));
    if a == b {
        text::lemma_decimal_is_injective(group as nat, other as nat);
    }
}

/// What is staged was prepared and then, under the lock, put at its place: both changes were asked
/// for, in this order, and nothing was asked for after them.
pub proof fn law_staged_candidates_were_put_in_place(w: World, job: StageJob)
    requires
        job.staged(w) is Ok,
    ensures
        ({
            let asks = job.stage_asks(w);
            let bytes = (w.encode_metadata)(job.metadata())->Ok_0;
            let existing = (w.present)(job.final_dir(bytes));
            &&& w.locks
            &&& (w.encode_metadata)(job.metadata()) is Ok
            &&& asks.len() > 4
            &&& asks[2] == AskView::Perform(job.preparation(bytes))
            &&& asks[3] == AskView::Lock
            &&& asks.last() == AskView::Perform(job.publication(bytes, existing))
            &&& (w.perform)(job.preparation(bytes)) is None
            &&& (w.perform)(job.publication(bytes, existing)) is None
        }),
{
}

/// Nothing is left of the preparation once a candidate stands at its place: the directory in which
/// it was prepared is gone, moved or dropped with everything in it. What stood elsewhere stays.
pub proof fn law_nothing_is_left_of_the_preparation(
    tree: Tree,
    job: StageJob,
    process: u64,
    sequence: u64,
    bytes: Seq<u8>,
    path: PathView,
)
    requires
        job.stage_name == staging::stage_name(process, sequence),
    ensures
        under(job.stage_dir(), path) ==> (placed_tree(tree, job, bytes, 2).at)(path) is None,
        !under(job.stage_dir(), path) && !under(job.final_dir(bytes), path) ==> (placed_tree(
            tree,
            job,
            bytes,
            2,
        ).at)(path) == (prepared_tree(tree, job, bytes).at)(path),
        exists_already(tree, job, bytes) && !under(job.stage_dir(), path) ==> (placed_tree(
            tree,
            job,
            bytes,
            2,
        ).at)(path) == (prepared_tree(tree, job, bytes).at)(path),
{
    let native = job.native();
    let stage = job.stage_dir();
    let final_dir = job.final_dir(bytes);
    let mid = prepared_tree(tree, job, bytes);
    let existing = exists_already(tree, job, bytes);
    let script = job.publication(bytes, existing);
    assert(script.take(0) =~= Seq::empty());
    lemma_next(mid, script, 0);
    lemma_next(mid, script, 1);
    checksum::lemma_checksum_form(bytes);
    lemma_names(process, sequence, checksum::checksum(bytes));
    let n = native.len() as int;
    if under(stage, path) && under(final_dir, path) {
        assert(path.take(n + 1)[n] == job.stage_name);
        assert(path.take(n + 1)[n] == checksum::checksum(bytes));
    }
}

/// A failure on the way to a staged candidate is the answer, as it failed: of encoding the metadata, of
/// the directories, of the preparation, of the lock, and of reading a generation that exists already.
/// One that holds anything else is never overwritten: it is told as corrupt.
pub proof fn law_failures_of_staging_are_reported(
    w: World,
    job: StageJob,
    bytes: Seq<u8>,
    message: Seq<char>,
    error: StorageErrorView,
    found: Seq<u8>,
)
    requires
        1 <= job.max_bytes <= 64 * 1024 * 1024,
        is_sound(job.meta),
        job.data.len() <= job.max_bytes,
    ensures
        ({
            let staged = job.staged(w);
            let failed = Err::<StageView, StorageErrorView>(error);
            let encoding = (w.encode_metadata)(job.metadata());
            let dir = job.final_dir(bytes);
            let meta_read = (w.file)(dir.push("native-meta.json"@), 1_048_576);
            let data_read = (w.file)(dir.push("data.bin"@), job.max_bytes as int);
            let whole = |bytes: Seq<u8>|
                Ok::<ReadView, StorageErrorView>(
                    ReadView { regular: true, declared: bytes.len() as u64, bytes },
                );
            &&& encoding == Err::<Seq<u8>, Seq<char>>(message) ==> staged == Err::<
                StageView,
                StorageErrorView,
            >(StorageErrorView { kind: ErrorKind::Other, message })
            &&& encoding == Ok::<Seq<u8>, Seq<char>>(bytes) && bytes.len() <= 1_048_576 ==> {
                &&& catalog::paths_fault(w, job.root, job.group) == Some(error) ==> staged == failed
                &&& catalog::paths_fault(w, job.root, job.group) is None ==> {
                    &&& (w.perform)(job.preparation(bytes)) == Some(error) ==> staged == failed
                    &&& (w.perform)(job.preparation(bytes)) is None ==> {
                        &&& !w.locks ==> staged is Err && staged->Err_0.kind is InvalidData
                        &&& w.locks && (w.present)(dir) ==> {
                            &&& meta_read == Err::<ReadView, StorageErrorView>(error) ==> staged
                                == failed
                            &&& meta_read == whole(found) && found.len() <= 1_048_576 && found
                                != bytes ==> staged is Err && staged->Err_0.kind is InvalidData
                            &&& meta_read == whole(bytes) ==> {
                                &&& data_read == Err::<ReadView, StorageErrorView>(error) ==> staged
                                    == failed
                                &&& data_read == whole(found) && found.len() <= job.max_bytes
                                    && found != job.data ==> staged is Err
                                    && staged->Err_0.kind is InvalidData
                            }
                        }
                    }
                }
            }
        }),
{
}

} // verus!
