//! The snapshot catalog and the state machine bridge over a file system in memory.

use std::collections::BTreeMap;
use std::collections::BTreeSet;

use multiraft::bridge::Capture;
use multiraft::bridge::CaptureFailure;
use multiraft::bridge::NativeRuntime;
use multiraft::building::BuildStep;
use multiraft::building::CapturedStep;
use multiraft::building::CompareStep;
use multiraft::building::PrepareStep;
use multiraft::catalog::validate_native_paths;
use multiraft::catalog::NativeLoad;
use multiraft::files::Answer;
use multiraft::files::Ask;
use multiraft::files::FileKind;
use multiraft::files::FileOp;
use multiraft::files::ReadFile;
use multiraft::files::Turn;
use multiraft::install::InstallFailure;
use multiraft::snapshot::Active;
use multiraft::snapshot::NativeMeta;
use multiraft::ApplyOut;
use multiraft::CaptureError;
use multiraft::CaptureRefusal;
use multiraft::CounterError;
use multiraft::CounterFsm;
use multiraft::ErrorKind;
use multiraft::NativeCaptureError;
use multiraft::NativeSmOptions;
use multiraft::NativeSnapshot;
use multiraft::NativeSnapshotInfo;
use multiraft::NativeSnapshotStage;
use multiraft::ObservedLogId;
use multiraft::SnapshotBuilder;
use multiraft::SnapshotCatalog;
use multiraft::SnapshotMeta;
use multiraft::StateMachine;
use multiraft::StateMachineStore;
use multiraft::StorageError;
use multiraft::StoredMembership;

type LogTuple = Option<(u64, u64, u64)>;
type MembershipTuple = (LogTuple, Vec<BTreeSet<u64>>, BTreeMap<u64, String>);
type MetaTuple = (u32, u64, LogTuple, MembershipTuple, String, u64, String);
type ActiveTuple = (u32, u64, String, String);

fn log_tuple(log_id: Option<ObservedLogId>) -> LogTuple {
    log_id.map(|id| (id.term, id.node_id, id.index))
}

fn log_id(tuple: LogTuple) -> Option<ObservedLogId> {
    tuple.map(|(term, node_id, index)| ObservedLogId {
        term,
        node_id,
        index,
    })
}

fn encode_active(active: &Active) -> Vec<u8> {
    let tuple: ActiveTuple = (
        active.version,
        active.group,
        active.generation.clone(),
        active.metadata_sha256.clone(),
    );
    serde_json::to_vec(&tuple).unwrap()
}

fn decode_active(bytes: &[u8]) -> Result<Active, String> {
    let (version, group, generation, metadata_sha256): ActiveTuple =
        serde_json::from_slice(bytes).map_err(|error| error.to_string())?;
    Ok(Active {
        version,
        group,
        generation,
        metadata_sha256,
    })
}

fn encode_meta(metadata: &NativeMeta) -> Vec<u8> {
    let membership = &metadata.meta.last_membership;
    let tuple: MetaTuple = (
        metadata.version,
        metadata.group,
        log_tuple(metadata.meta.last_log_id),
        (
            log_tuple(membership.log_id),
            membership.voter_configs.clone(),
            membership.nodes.clone(),
        ),
        metadata.meta.snapshot_id.clone(),
        metadata.size as u64,
        metadata.data_sha256.clone(),
    );
    serde_json::to_vec(&tuple).unwrap()
}

fn decode_meta(bytes: &[u8]) -> Result<NativeMeta, String> {
    let (version, group, last, membership, snapshot_id, size, data_sha256): MetaTuple =
        serde_json::from_slice(bytes).map_err(|error| error.to_string())?;
    let (entry, voter_configs, nodes) = membership;
    Ok(NativeMeta {
        version,
        group,
        meta: SnapshotMeta {
            last_log_id: log_id(last),
            last_membership: StoredMembership {
                log_id: log_id(entry),
                voter_configs,
                nodes,
            },
            snapshot_id,
        },
        size: size as usize,
        data_sha256,
    })
}

#[derive(Clone)]
enum Node {
    Directory,
    File(Vec<u8>),
    Link,
}

/// A file system in memory that does what catalog operations ask for.
#[derive(Clone, Default)]
struct Disk {
    nodes: BTreeMap<String, Node>,
    /// How many more changes are made before everything stops.
    changes_left: Option<usize>,
    poisoned: bool,
    sequence: u64,
    /// What was asked for since it was looked at last.
    asked: Vec<&'static str>,
}

fn not_found() -> StorageError {
    StorageError {
        kind: ErrorKind::NotFound,
        message: "no such file".into(),
    }
}

fn name_of(ask: &Ask) -> &'static str {
    match ask {
        Ask::Lock => "lock",
        Ask::Kinds { .. } => "kinds",
        Ask::Kind { .. } => "kind",
        Ask::File { .. } => "file",
        Ask::Manifest { .. } => "manifest",
        Ask::Metadata { .. } => "metadata",
        Ask::EncodeManifest { .. } => "encode manifest",
        Ask::EncodeMetadata { .. } => "encode metadata",
        Ask::Present { .. } => "present",
        Ask::Perform { .. } => "perform",
        Ask::Chunk { .. } => "chunk",
    }
}

fn path_of(path: &[String]) -> String {
    path.join("/")
}

impl Disk {
    fn new() -> Self {
        let mut disk = Disk::default();
        disk.nodes.insert("root".into(), Node::Directory);
        disk
    }

    fn kind(&self, path: &[String]) -> Result<FileKind, StorageError> {
        match self.nodes.get(&path_of(path)) {
            None => Err(not_found()),
            Some(Node::Directory) => Ok(FileKind::Directory),
            Some(Node::File(bytes)) => Ok(FileKind::Regular {
                len: bytes.len() as u64,
            }),
            Some(Node::Link) => Ok(FileKind::Special),
        }
    }

    fn file(&self, path: &[String], limit: usize) -> Result<ReadFile, StorageError> {
        match self.nodes.get(&path_of(path)) {
            None => Err(not_found()),
            Some(Node::File(bytes)) => Ok(ReadFile {
                regular: true,
                declared: bytes.len() as u64,
                bytes: bytes.iter().copied().take(limit + 1).collect(),
            }),
            Some(_) => Ok(ReadFile {
                regular: false,
                declared: 0,
                bytes: Vec::new(),
            }),
        }
    }

    fn chunk(&self, path: &[String], offset: u64, limit: u64) -> Result<Vec<u8>, StorageError> {
        match self.nodes.get(&path_of(path)) {
            Some(Node::File(bytes)) => Ok(bytes
                .iter()
                .copied()
                .skip(offset as usize)
                // Short reads are allowed.
                .take((limit as usize).min(3))
                .collect()),
            _ => Err(not_found()),
        }
    }

    fn change(&mut self, op: &FileOp) -> Result<(), StorageError> {
        match op {
            FileOp::CreateDirAll { path } => {
                for end in 1..=path.len() {
                    let dir = path_of(&path[..end]);
                    self.nodes.entry(dir).or_insert(Node::Directory);
                }
            }
            FileOp::CreateDir { path } => {
                if self.nodes.contains_key(&path_of(path)) {
                    return Err(StorageError {
                        kind: ErrorKind::Other,
                        message: "file exists".into(),
                    });
                }
                self.nodes.insert(path_of(path), Node::Directory);
            }
            FileOp::Write { path, bytes } => {
                self.nodes.insert(path_of(path), Node::File(bytes.clone()));
            }
            FileOp::SyncDir { path } => {
                if !matches!(self.nodes.get(&path_of(path)), Some(Node::Directory)) {
                    return Err(not_found());
                }
            }
            FileOp::SyncParentOf { .. } => {}
            FileOp::Rename { from, to } => {
                let (from, to) = (path_of(from), path_of(to));
                let below = format!("{from}/");
                let moved: Vec<String> = self
                    .nodes
                    .keys()
                    .filter(|path| **path == from || path.starts_with(&below))
                    .cloned()
                    .collect();
                if moved.is_empty() {
                    return Err(not_found());
                }
                for path in moved {
                    let node = self.nodes.remove(&path).unwrap();
                    self.nodes.insert(format!("{to}{}", &path[from.len()..]), node);
                }
            }
            FileOp::RemoveTree { path } => {
                let dir = path_of(path);
                if !self.nodes.contains_key(&dir) {
                    return Err(not_found());
                }
                let below = format!("{dir}/");
                self.nodes
                    .retain(|path, _| *path != dir && !path.starts_with(&below));
            }
        }
        Ok(())
    }

    /// Answers, unless everything stopped before.
    fn answer(&mut self, ask: Ask) -> Option<Answer> {
        self.asked.push(name_of(&ask));
        Some(match ask {
            Ask::Lock => Answer::Locked(!self.poisoned),
            Ask::Kinds {
                root,
                group,
                native,
            } => Answer::Kinds {
                root: self.kind(&root),
                group: self.kind(&group),
                native: self.kind(&native),
            },
            Ask::Kind { path } => Answer::Kind(self.kind(&path)),
            Ask::File { path, limit } => Answer::File(self.file(&path, limit)),
            Ask::Manifest { bytes } => Answer::Manifest(decode_active(&bytes)),
            Ask::Metadata { bytes } => Answer::Metadata(decode_meta(&bytes)),
            Ask::EncodeManifest { active } => Answer::Encoded(Ok(encode_active(&active))),
            Ask::EncodeMetadata { metadata } => Answer::Encoded(Ok(encode_meta(&metadata))),
            Ask::Present { path } => Answer::Present(self.nodes.contains_key(&path_of(&path))),
            Ask::Perform { script } => {
                for op in &script {
                    if let Some(left) = &mut self.changes_left {
                        if *left == 0 {
                            return None;
                        }
                        *left -= 1;
                    }
                    if let Err(error) = self.change(op) {
                        return Some(Answer::Performed(Some(error)));
                    }
                }
                Answer::Performed(None)
            }
            Ask::Chunk {
                path,
                offset,
                limit,
            } => Answer::Chunk(self.chunk(&path, offset, limit)),
        })
    }

    fn run<M, T>(
        &mut self,
        mut turn: Turn<M, T>,
        step: impl Fn(M, Answer) -> Turn<M, T>,
    ) -> Option<T> {
        loop {
            match turn {
                Turn::Done(result) => return Some(result),
                Turn::Ask { state, ask } => turn = step(state, self.answer(ask)?),
            }
        }
    }

    fn load(&mut self, group: u64, max: usize) -> Result<Option<NativeSnapshot>, StorageError> {
        let turn = catalog().load_native(group, max);
        self.run(turn, |state, answer| state.step(answer)).unwrap()
    }

    fn describe(
        &mut self,
        group: u64,
        max: usize,
    ) -> Result<Option<NativeSnapshotInfo>, StorageError> {
        let turn = catalog().describe_native(group, max);
        self.run(turn, |state, answer| state.step(answer)).unwrap()
    }

    fn stage(
        &mut self,
        group: u64,
        meta: &SnapshotMeta,
        data: &[u8],
        max: usize,
    ) -> Result<NativeSnapshotStage, StorageError> {
        self.sequence += 1;
        let turn = catalog().stage_native(group, meta, data.to_vec(), max, 77, self.sequence);
        self.run(turn, |state, answer| state.step(answer)).unwrap()
    }

    fn activate(&mut self, stage: NativeSnapshotStage) -> Result<(), StorageError> {
        let turn = catalog().activate_native(stage);
        self.run(turn, |state, answer| state.step(answer)).unwrap()
    }

    /// The publication, unless everything stopped before it was over.
    fn try_publish(
        &mut self,
        group: u64,
        meta: &SnapshotMeta,
        data: &[u8],
        max: usize,
    ) -> Option<Result<(), StorageError>> {
        self.sequence += 1;
        let turn = catalog().publish_native(group, meta, data.to_vec(), max, 77, self.sequence);
        self.run(turn, |state, answer| state.step(answer))
    }

    fn publish(
        &mut self,
        group: u64,
        meta: &SnapshotMeta,
        data: &[u8],
        max: usize,
    ) -> Result<(), StorageError> {
        self.try_publish(group, meta, data, max).unwrap()
    }

    fn asked(&mut self) -> String {
        let asked = self.asked.join(", ");
        self.asked.clear();
        asked
    }

    fn manifest(&self) -> Active {
        match &self.nodes["root/42/native-v1/active.json"] {
            Node::File(bytes) => decode_active(bytes).unwrap(),
            _ => panic!("no manifest"),
        }
    }

    fn generation(&self) -> String {
        format!("root/42/native-v1/{}", self.manifest().generation)
    }

    fn write(&mut self, path: String, bytes: &[u8]) {
        self.nodes.insert(path, Node::File(bytes.to_vec()));
    }
}

fn catalog() -> SnapshotCatalog {
    SnapshotCatalog::new(vec!["root".into()], 1)
}

fn meta(index: u64) -> SnapshotMeta {
    SnapshotMeta {
        last_log_id: Some(ObservedLogId {
            term: 7,
            node_id: 22,
            index,
        }),
        last_membership: StoredMembership {
            log_id: Some(ObservedLogId {
                term: 6,
                node_id: 11,
                index: 3,
            }),
            voter_configs: vec![BTreeSet::from([11, 22, 33])],
            nodes: BTreeMap::from([
                (11, "one".into()),
                (22, "two".into()),
                (33, "three".into()),
            ]),
        },
        snapshot_id: format!("snapshot-{index}"),
    }
}

#[test]
fn native_roundtrip_reopens_full_metadata_and_opaque_bytes() {
    let mut disk = Disk::new();
    let expected = meta(19);
    disk.publish(42, &expected, b"opaque\0image", 1024).unwrap();
    let got = disk.load(42, 1024).unwrap().unwrap();
    assert_eq!(got.meta, expected);
    assert_eq!(got.data, b"opaque\0image");
    assert!(disk.load(43, 1024).unwrap().is_none());
}

#[test]
fn older_publication_cannot_replace_newer_install() {
    let mut disk = Disk::new();
    disk.publish(42, &meta(25), b"new", 1024).unwrap();
    assert!(disk.publish(42, &meta(19), b"old", 1024).is_err());
    assert_eq!(disk.load(42, 1024).unwrap().unwrap().data, b"new");
}

#[test]
fn oversized_publication_preserves_existing_checkpoint() {
    let mut disk = Disk::new();
    disk.publish(42, &meta(19), b"old", 3).unwrap();
    assert!(disk.publish(42, &meta(25), b"large", 3).is_err());
    assert_eq!(disk.load(42, 3).unwrap().unwrap().meta, meta(19));
    assert!(disk.load(42, 2).is_err());
}

#[test]
fn corrupt_active_metadata_or_data_rejects_without_fallback() {
    for component in ["native-meta.json", "data.bin"] {
        let mut disk = Disk::new();
        disk.publish(42, &meta(19), b"old", 1024).unwrap();
        disk.publish(42, &meta(25), b"new", 1024).unwrap();
        let path = format!("{}/{component}", disk.generation());
        disk.write(path, b"corrupt");
        assert!(disk.load(42, 1024).is_err());
    }
}

#[test]
fn staged_candidate_is_not_current_after_reopen() {
    let mut disk = Disk::new();
    disk.publish(42, &meta(19), b"old", 1024).unwrap();
    let staged = disk.stage(42, &meta(25), b"new", 1024).unwrap();
    assert_eq!(disk.load(42, 1024).unwrap().unwrap().data, b"old");
    disk.activate(staged).unwrap();
    assert_eq!(disk.load(42, 1024).unwrap().unwrap().data, b"new");
}

#[test]
fn foreign_or_incompatible_manifest_rejects() {
    for field in ["group", "version", "generation"] {
        let mut disk = Disk::new();
        disk.publish(42, &meta(19), b"old", 1024).unwrap();
        let mut manifest = disk.manifest();
        match field {
            "group" => manifest.group = 999,
            "version" => manifest.version = 999,
            _ => manifest.generation = "../../foreign".into(),
        }
        disk.write("root/42/native-v1/active.json".into(), &encode_active(&manifest));
        assert!(disk.load(42, 1024).is_err());
    }
}

#[test]
fn activation_revalidates_candidate_before_replacing_current() {
    let mut disk = Disk::new();
    disk.publish(42, &meta(19), b"old", 1024).unwrap();
    let old = disk.generation();
    let staged = disk.stage(42, &meta(25), b"new", 1024).unwrap();
    let candidates: Vec<String> = disk
        .nodes
        .keys()
        .filter(|path| path.ends_with("/data.bin") && !path.starts_with(&old))
        .cloned()
        .collect();
    assert_eq!(candidates.len(), 1);
    for path in candidates {
        disk.write(path, b"bad");
    }
    assert!(disk.activate(staged).is_err());
    assert_eq!(disk.load(42, 1024).unwrap().unwrap().data, b"old");
}

#[test]
fn successful_replacement_cleans_only_obsolete_active_generation() {
    let mut disk = Disk::new();
    disk.publish(42, &meta(19), b"old", 1024).unwrap();
    let old = disk.generation();
    let pending = disk.stage(42, &meta(30), b"future", 1024).unwrap();
    disk.publish(42, &meta(25), b"new", 1024).unwrap();
    assert!(
        !disk.nodes.contains_key(&old),
        "obsolete active generation retained"
    );
    disk.activate(pending).unwrap();
    assert_eq!(disk.load(42, 1024).unwrap().unwrap().data, b"future");
}

#[test]
fn symlinked_group_cannot_redirect_native_storage() {
    let mut disk = Disk::new();
    disk.nodes.insert("root/42".into(), Node::Link);
    let before = disk.nodes.len();
    assert!(disk.publish(42, &meta(19), b"foreign", 1024).is_err());
    assert_eq!(disk.nodes.len(), before);
}

#[test]
fn same_cut_accepts_equivalent_application_encodings_without_inventing_canonicalization() {
    let mut disk = Disk::new();
    let first = b"[5,[1,2]]";
    let second = b"[5,[2,1]]";
    let mut a = CounterFsm::new();
    let mut b = CounterFsm::new();
    a.restore(42, first).unwrap();
    b.restore(42, second).unwrap();
    a.apply(42, 20, &CounterFsm::encode_add(99, 1)).unwrap();
    b.apply(42, 20, &CounterFsm::encode_add(99, 1)).unwrap();
    assert_eq!(a.value(42), 5);
    assert_eq!(b.value(42), 5);
    disk.publish(42, &meta(19), first, 1024).unwrap();
    disk.publish(42, &meta(19), second, 1024).unwrap();
    assert_eq!(disk.load(42, 1024).unwrap().unwrap().data, second);
}

#[test]
fn native_description_validates_metadata_and_data_without_returning_an_image() {
    let mut disk = Disk::new();
    disk.publish(42, &meta(19), b"opaque", 1024).unwrap();
    let info = disk.describe(42, 1024).unwrap().unwrap();
    assert_eq!(info.meta, meta(19));
    assert_eq!(info.size, 6);
    let path = format!("{}/data.bin", disk.generation());
    disk.write(path, b"broken");
    assert!(disk.describe(42, 1024).is_err());
}

#[test]
fn every_cut_of_a_publication_keeps_a_valid_checkpoint() {
    let mut old = Disk::new();
    old.publish(42, &meta(19), b"old", 1024).unwrap();
    let mut seen = BTreeSet::new();
    for cut in 0.. {
        let mut disk = old.clone();
        disk.changes_left = Some(cut);
        let over = disk.try_publish(42, &meta(25), b"new", 1024).is_some();
        disk.changes_left = None;
        let current = disk.load(42, 1024).unwrap().unwrap();
        assert!(
            current.data == b"old" || current.data == b"new",
            "cut {cut}"
        );
        assert_eq!(
            current.meta,
            if current.data == b"old" {
                meta(19)
            } else {
                meta(25)
            }
        );
        seen.insert(current.data.clone());
        // What was interrupted can be done again.
        disk.publish(42, &meta(25), b"new", 1024).unwrap();
        assert_eq!(disk.load(42, 1024).unwrap().unwrap().data, b"new");
        if over {
            assert!(cut > 10);
            break;
        }
    }
    assert_eq!(seen.len(), 2);
}

#[test]
fn groups_are_isolated_at_every_cut_of_a_publication() {
    // One group number begins with the other.
    let mut start = Disk::new();
    start.publish(4, &meta(19), b"four", 1024).unwrap();
    start.publish(42, &meta(20), b"old", 1024).unwrap();
    let mut cut = 0;
    loop {
        let mut disk = start.clone();
        disk.changes_left = Some(cut);
        let published = disk.try_publish(42, &meta(25), b"new", 1024);
        disk.changes_left = None;
        let other = disk.load(4, 1024).unwrap().unwrap();
        assert_eq!(other.meta, meta(19));
        assert_eq!(other.data, b"four");
        assert!(disk.load(2, 1024).unwrap().is_none());
        if let Some(result) = published {
            result.unwrap();
            assert_eq!(disk.load(42, 1024).unwrap().unwrap().data, b"new");
            break;
        }
        cut += 1;
    }
    assert_eq!(cut, 16);
}

#[test]
fn generations_are_named_by_the_checksum_of_their_metadata() {
    let mut disk = Disk::new();
    disk.publish(42, &meta(19), b"abc", 1024).unwrap();
    let manifest = disk.manifest();
    assert_eq!(manifest.version, 1);
    assert_eq!(manifest.group, 42);
    assert_eq!(manifest.generation, manifest.metadata_sha256);
    let metadata = match &disk.nodes[&format!("{}/native-meta.json", disk.generation())] {
        Node::File(bytes) => decode_meta(bytes).unwrap(),
        _ => panic!("no metadata"),
    };
    assert_eq!(metadata.size, 3);
    assert_eq!(
        metadata.data_sha256,
        "ba7816bf8f01cfea414140de5dae2223b00361a396177a9cb410ff61f20015ad"
    );
    // Nothing is left of the directory in which it was prepared.
    assert!(disk.nodes.keys().all(|path| !path.contains(".stage-")));
}

#[test]
fn staging_the_same_candidate_again_keeps_its_generation() {
    let mut disk = Disk::new();
    disk.stage(42, &meta(19), b"same", 1024).unwrap();
    let before = disk.nodes.clone();
    let again = disk.stage(42, &meta(19), b"same", 1024).unwrap();
    assert_eq!(disk.nodes.len(), before.len());
    assert!(disk.nodes.keys().eq(before.keys()));
    assert!(disk.load(42, 1024).unwrap().is_none());
    let data: Vec<String> = disk
        .nodes
        .keys()
        .filter(|path| path.ends_with("/data.bin"))
        .cloned()
        .collect();
    disk.write(data[0].clone(), b"else");
    let error = disk.stage(42, &meta(19), b"same", 1024).err().unwrap();
    assert_eq!(error.message, "existing snapshot generation is corrupt");
    assert!(disk.activate(again).is_err());
}

#[test]
fn operations_ask_in_order_and_under_the_lock() {
    let mut disk = Disk::new();
    let first = disk.stage(42, &meta(25), b"four", 1024).unwrap();
    assert_eq!(
        disk.asked(),
        "encode metadata, kinds, perform, lock, present, perform"
    );
    disk.activate(first).unwrap();
    assert_eq!(
        disk.asked(),
        "lock, kinds, kind, file, metadata, file, kinds, file, file, encode manifest, perform"
    );
    let again = disk.stage(42, &meta(25), b"four", 1024).unwrap();
    assert_eq!(
        disk.asked(),
        "encode metadata, kinds, perform, lock, present, file, file, perform"
    );
    disk.activate(again).unwrap();
    assert_eq!(
        disk.asked(),
        "lock, kinds, kind, file, metadata, file, kinds, file, manifest, kind, file, metadata, \
         file, file, manifest, encode manifest, perform"
    );

    // A refused candidate asks for no change.
    let older = disk.stage(42, &meta(19), b"old", 1024).unwrap();
    disk.asked();
    assert!(disk.activate(older).is_err());
    assert_eq!(
        disk.asked(),
        "lock, kinds, kind, file, metadata, file, kinds, file, manifest, kind, file, metadata, file"
    );

    // Reading takes the lock first and changes nothing.
    disk.load(42, 1024).unwrap().unwrap();
    assert_eq!(
        disk.asked(),
        "lock, kinds, file, manifest, kind, file, metadata, file"
    );
    disk.describe(42, 1024).unwrap().unwrap();
    assert_eq!(
        disk.asked(),
        "lock, kinds, file, manifest, kind, file, metadata, kind, chunk, chunk, chunk"
    );

    // Without the lock nothing more is asked for.
    let waiting = disk.stage(42, &meta(30), b"new", 1024).unwrap();
    disk.poisoned = true;
    disk.asked();
    assert!(disk.load(42, 1024).is_err());
    assert!(disk.describe(42, 1024).is_err());
    assert!(disk.activate(waiting).is_err());
    assert_eq!(disk.asked(), "lock, lock, lock");
    assert!(disk.stage(42, &meta(31), b"newer", 1024).is_err());
    assert_eq!(disk.asked(), "encode metadata, kinds, perform, lock");
}

#[test]
fn jobs_that_cannot_succeed_touch_nothing() {
    let mut disk = Disk::new();
    let before = disk.nodes.len();
    let cases = [
        (meta(19), 0, ErrorKind::InvalidInput, "invalid snapshot cap"),
        (
            meta(19),
            67_108_865,
            ErrorKind::InvalidInput,
            "invalid snapshot cap",
        ),
        (
            meta(19),
            2,
            ErrorKind::InvalidInput,
            "snapshot capture limit",
        ),
        (
            SnapshotMeta {
                snapshot_id: String::new(),
                ..meta(19)
            },
            1024,
            ErrorKind::InvalidData,
            "invalid snapshot identity",
        ),
        (
            SnapshotMeta {
                snapshot_id: "x".repeat(4097),
                ..meta(19)
            },
            1024,
            ErrorKind::InvalidData,
            "invalid snapshot identity",
        ),
        (
            meta(2),
            1024,
            ErrorKind::InvalidData,
            "membership is beyond snapshot cut",
        ),
        (
            SnapshotMeta {
                last_log_id: None,
                ..meta(2)
            },
            1024,
            ErrorKind::InvalidData,
            "membership is beyond snapshot cut",
        ),
    ];
    for (meta, max, kind, message) in &cases {
        let error = disk.publish(42, meta, b"abc", *max).unwrap_err();
        assert_eq!(error.kind, *kind);
        assert_eq!(error.message, *message);
        assert_eq!(disk.nodes.len(), before);
    }
    disk.poisoned = true;
    assert!(disk.load(42, 1024).is_err());
    assert!(disk.describe(42, 1024).is_err());
}

#[test]
fn directories_have_to_be_directories() {
    let missing = || Err(not_found());
    assert!(validate_native_paths(missing(), missing(), missing()).is_ok());
    let dir = || Ok(FileKind::Directory);
    assert!(validate_native_paths(dir(), dir(), dir()).is_ok());
    for bad in [FileKind::Special, FileKind::Regular { len: 3 }] {
        let error = validate_native_paths(dir(), dir(), Ok(bad)).unwrap_err();
        assert_eq!(error.kind, ErrorKind::InvalidData);
        assert!(validate_native_paths(dir(), Ok(bad), missing()).is_err());
        assert!(validate_native_paths(Ok(bad), missing(), missing()).is_err());
    }
    let denied = StorageError {
        kind: ErrorKind::Other,
        message: "denied".into(),
    };
    assert_eq!(
        validate_native_paths(dir(), Err(denied.clone()), missing()),
        Err(denied)
    );
}

#[test]
fn failures_keep_their_kind() {
    for kind in [
        ErrorKind::PermissionDenied,
        ErrorKind::StorageFull,
        ErrorKind::ReadOnlyFilesystem,
        ErrorKind::Coded { code: 5 },
    ] {
        let failure = || StorageError {
            kind,
            message: "as it came".into(),
        };
        let here = || Ok(FileKind::Directory);
        let refused = validate_native_paths(here(), Err(failure()), here()).unwrap_err();
        assert_eq!(refused, failure());
        // The first change of a staging fails.
        let mut disk = Disk::new();
        let mut turn = catalog().stage_native(42, &meta(19), b"data".to_vec(), 1024, 77, 1);
        let result = loop {
            turn = match turn {
                Turn::Done(result) => break result,
                Turn::Ask {
                    state,
                    ask: Ask::Perform { .. },
                } => state.step(Answer::Performed(Some(failure()))),
                Turn::Ask { state, ask } => state.step(disk.answer(ask).unwrap()),
            };
        };
        assert_eq!(result.err().unwrap(), failure());
    }
}

#[test]
fn description_and_load_agree() {
    let mut disk = Disk::new();
    assert_eq!(disk.describe(42, 1024), Ok(None));
    let image: Vec<u8> = (0..10_000u32).map(|i| i as u8).collect();
    disk.publish(42, &meta(19), &image, 20_000).unwrap();
    let loaded = disk.load(42, 20_000).unwrap().unwrap();
    let info = disk.describe(42, 20_000).unwrap().unwrap();
    assert_eq!(info.meta, loaded.meta);
    assert_eq!(info.size as usize, loaded.data.len());
    assert!(disk.load(42, 9_999).is_err());
    assert!(disk.describe(42, 9_999).is_err());
    // A file that grew or shrank is noticed.
    for len in [9_999, 10_001] {
        let path = format!("{}/data.bin", disk.generation());
        let mut other = image.clone();
        other.resize(len, 0);
        disk.write(path, &other);
        assert!(disk.load(42, 20_000).is_err());
        assert!(disk.describe(42, 20_000).is_err());
    }
}

type Store = StateMachineStore<CounterFsm, &'static str, u32>;

fn store(cap: usize) -> Store {
    StateMachineStore::with_native_options(
        7,
        CounterFsm::new(),
        NativeSmOptions {
            catalog: catalog(),
            max_snapshot_bytes: cap,
        },
    )
    .unwrap()
}

fn apply(sm: &mut Store, index: u64, delta: i64) {
    sm.fsm
        .apply(7, index, &CounterFsm::encode_add(delta, index))
        .unwrap();
    sm.last_applied_log = Some(ObservedLogId {
        term: 1,
        node_id: 1,
        index,
    });
}

fn io<T>(captured: Result<T, CaptureFailure<CounterError>>) -> Result<T, NativeCaptureError> {
    captured.map_err(|failure| match failure {
        CaptureFailure::Native(error) => error,
        CaptureFailure::Application(error) => panic!("{error:?}"),
    })
}

fn prepare(
    disk: &mut Disk,
    sm: &mut Store,
    permits: Option<&'static str>,
    number: u64,
    force: bool,
) -> Option<SnapshotBuilder<&'static str, u32>> {
    match sm.prepare_builder(force) {
        PrepareStep::Ready(builder) => builder,
        PrepareStep::Capture => {
            let captured = io(sm.capture_native(permits, number));
            match sm.prepare_captured(captured, force) {
                CapturedStep::Ready(builder) => builder,
                CapturedStep::LoadDurable(refusal) => {
                    let turn = sm.load_native_snapshot();
                    let loaded = disk.run(turn, NativeLoad::step).unwrap();
                    Some(sm.prepare_reused(refusal, loaded))
                }
            }
        }
    }
}

fn build(
    disk: &mut Disk,
    sm: &Store,
    builder: &mut SnapshotBuilder<&'static str, u32>,
) -> Result<(NativeSnapshot, Option<u32>), StorageError> {
    let built = match builder.build_snapshot(sm.native.is_some()) {
        BuildStep::Legacy => panic!("native builder"),
        BuildStep::Done(built) => built?,
        BuildStep::Transition(transition) => {
            let comparison = transition.admitted(sm.native_is_closing())?;
            let turn = sm.load_native_snapshot();
            let loaded = disk.run(turn, NativeLoad::step).unwrap();
            match comparison.loaded(loaded) {
                CompareStep::Done(built) => built?,
                CompareStep::Publish(publishing) => {
                    disk.sequence += 1;
                    let turn = publishing.publish(sm, 77, disk.sequence).unwrap();
                    let published = disk.run(turn, |state, answer| state.step(answer)).unwrap();
                    publishing.published(published)?
                }
            }
        }
    };
    Ok((built.snapshot, built.notify))
}

fn install(
    disk: &mut Disk,
    sm: &mut Store,
    meta: &SnapshotMeta,
    data: &[u8],
) -> Result<(), InstallFailure<CounterError>> {
    let request = sm
        .install_native_snapshot(meta, data.to_vec())
        .map_err(InstallFailure::Storage)?;
    let admitted = request
        .admitted(sm.native_is_closing())
        .map_err(InstallFailure::Storage)?;
    disk.sequence += 1;
    let turn = admitted.stage(sm, 77, disk.sequence).unwrap();
    let staged = disk.run(turn, |state, answer| state.step(answer)).unwrap();
    let staged = admitted.staged(staged).map_err(InstallFailure::Storage)?;
    let (restored, stage) = sm.restore_staged(staged)?;
    let activated = disk.activate(stage);
    let active = restored.activated(activated).map_err(InstallFailure::Storage)?;
    sm.finish_install(active);
    Ok(())
}

fn current(disk: &mut Disk, sm: &Store) -> Option<NativeSnapshot> {
    let turn = sm.load_native_snapshot();
    disk.run(turn, NativeLoad::step).unwrap().unwrap()
}

#[test]
fn builder_keeps_its_cut_and_a_reopened_group_restores_it() {
    let mut disk = Disk::new();
    let mut sm = store(1024);
    apply(&mut sm, 1, 5);
    let mut builder = prepare(&mut disk, &mut sm, Some("permits"), 1, false).unwrap();
    apply(&mut sm, 2, 10);
    let (snapshot, _) = build(&mut disk, &sm, &mut builder).unwrap();
    assert_eq!(snapshot.meta.last_log_id.unwrap().index, 1);
    assert_eq!(snapshot.meta.snapshot_id, "native-7-T1-N1-1-1");
    let mut reopened = store(1024);
    assert_eq!(reopened.last_applied_log, None);
    let recovered = current(&mut disk, &reopened).unwrap();
    assert_eq!(recovered.meta, snapshot.meta);
    install(&mut disk, &mut reopened, &recovered.meta, &recovered.data).unwrap();
    assert_eq!(reopened.fsm.value(7), 5);
    assert_eq!(reopened.last_applied_log.unwrap().index, 1);
    // A builder builds once.
    let error = build(&mut disk, &sm, &mut builder).unwrap_err();
    assert_eq!(error.message, "snapshot builder already consumed");
}

#[test]
fn refusals_defer_but_forced_builders_fail() {
    let mut disk = Disk::new();
    let mut sm = store(1);
    apply(&mut sm, 1, 5);
    assert!(prepare(&mut disk, &mut sm, Some("permits"), 1, false).is_none());
    assert_eq!(
        sm.snapshot_capture_refusal(),
        Some(CaptureRefusal::SizeLimit)
    );
    let mut forced = prepare(&mut disk, &mut sm, Some("permits"), 2, true)
        .expect("force must return a builder");
    let error = build(&mut disk, &sm, &mut forced).unwrap_err();
    assert_eq!(error.kind, ErrorKind::WouldBlock);
    assert_eq!(error.message, "snapshot capture refused: SizeLimit");
    assert!(current(&mut disk, &sm).is_none());
}

#[test]
fn busy_budget_refuses_captures_and_builders_carry_their_permits() {
    let mut disk = Disk::new();
    let mut sm = store(1024);
    assert!(prepare(&mut disk, &mut sm, None, 1, false).is_none());
    assert_eq!(sm.snapshot_capture_refusal(), Some(CaptureRefusal::Busy));
    let builder = prepare(&mut disk, &mut sm, Some("permits"), 2, false).unwrap();
    let capture = builder.capture.unwrap().unwrap();
    assert_eq!(capture.permits, Some("permits"));
    assert_eq!(capture.meta.snapshot_id, "native-7-empty-2");
    assert_eq!(sm.snapshot_capture_refusal(), None);
}

#[test]
fn old_capture_serves_the_newer_received_snapshot() {
    let mut disk = Disk::new();
    let mut receiver = store(1024);
    apply(&mut receiver, 1, 5);
    let mut old = prepare(&mut disk, &mut receiver, Some("permits"), 1, false).unwrap();
    let mut source_disk = Disk::new();
    let mut source = store(1024);
    apply(&mut source, 1, 5);
    apply(&mut source, 2, 7);
    let mut builder = prepare(&mut source_disk, &mut source, Some("permits"), 1, false).unwrap();
    let (newer, _) = build(&mut source_disk, &source, &mut builder).unwrap();
    install(&mut disk, &mut receiver, &newer.meta, &newer.data).unwrap();
    let (completed, _) = build(&mut disk, &receiver, &mut old).unwrap();
    assert_eq!(completed.meta.last_log_id.unwrap().index, 2);
    let now = current(&mut disk, &receiver).unwrap();
    assert_eq!(now.meta.last_log_id.unwrap().index, 2);
    assert_eq!(receiver.fsm.value(7), 12);
}

#[test]
fn forced_builder_serves_a_sufficient_checkpoint_while_the_budget_is_busy() {
    let mut disk = Disk::new();
    let mut sm = store(1024);
    apply(&mut sm, 1, 9);
    let mut builder = prepare(&mut disk, &mut sm, Some("permits"), 1, false).unwrap();
    let (first, _) = build(&mut disk, &sm, &mut builder).unwrap();
    assert!(prepare(&mut disk, &mut sm, None, 2, false).is_none());
    let mut forced = prepare(&mut disk, &mut sm, None, 2, true).unwrap();
    let (served, _) = build(&mut disk, &sm, &mut forced).unwrap();
    assert_eq!(served, first);
    // Once more was applied, the stored checkpoint no longer does.
    apply(&mut sm, 2, 1);
    let mut forced = prepare(&mut disk, &mut sm, None, 3, true).unwrap();
    let error = build(&mut disk, &sm, &mut forced).unwrap_err();
    assert_eq!(error.message, "snapshot capture refused: Busy");
}

#[test]
fn snapshots_of_new_cuts_have_their_own_identity() {
    let mut disk = Disk::new();
    let mut first = store(1024);
    apply(&mut first, 1, 5);
    let mut builder = prepare(&mut disk, &mut first, Some("permits"), 1, false).unwrap();
    let (old, _) = build(&mut disk, &first, &mut builder).unwrap();
    let mut reopened = store(1024);
    let saved = current(&mut disk, &reopened).unwrap();
    install(&mut disk, &mut reopened, &saved.meta, &saved.data).unwrap();
    apply(&mut reopened, 2, 7);
    let mut builder = prepare(&mut disk, &mut reopened, Some("permits"), 1, false).unwrap();
    let (new, _) = build(&mut disk, &reopened, &mut builder).unwrap();
    assert_ne!(old.meta.snapshot_id, new.meta.snapshot_id);
    assert_eq!(new.meta.last_log_id.unwrap().index, 2);
}

#[test]
fn reserved_cut_goes_to_the_next_builder_and_is_reported() {
    let mut disk = Disk::new();
    let mut sm = store(1024);
    apply(&mut sm, 1, 9);
    assert!(sm.reserve_native_compaction().is_ok());
    let captured = io(sm.capture_native(Some("permits"), 4)).unwrap();
    let reservation = sm.reserve_captured(captured, 99).unwrap();
    assert_eq!(reservation.target, sm.last_applied_log);
    let second = io(sm.capture_native(Some("others"), 5)).unwrap();
    assert!(matches!(
        sm.reserve_captured(second, 100),
        Err(NativeCaptureError::Refused(CaptureRefusal::Busy))
    ));
    apply(&mut sm, 2, 1);
    let mut builder = prepare(&mut disk, &mut sm, None, 6, false).unwrap();
    let (snapshot, notify) = build(&mut disk, &sm, &mut builder).unwrap();
    assert_eq!(snapshot.meta.last_log_id, reservation.target);
    assert_eq!(notify, Some(99));
    // It is gone now.
    assert!(prepare(&mut disk, &mut sm, None, 7, false).is_none());
    let captured = io(sm.capture_native(Some("permits"), 8)).unwrap();
    sm.reserve_captured(captured, 101).unwrap();
    sm.release_native_reservation();
    assert!(prepare(&mut disk, &mut sm, None, 9, false).is_none());
}

#[test]
fn closed_intake_takes_no_more_work() {
    let mut disk = Disk::new();
    let mut sm = store(1024);
    apply(&mut sm, 1, 9);
    let captured = io(sm.capture_native(Some("permits"), 1)).unwrap();
    sm.reserve_captured(captured, 1).unwrap();
    let captured = io(sm.capture_native(Some("permits"), 2)).unwrap();
    let mut running = SnapshotBuilder {
        capture: Some(Ok(captured)),
    };
    sm.close_native_intake();
    assert!(sm.native_is_closing());
    assert!(prepare(&mut disk, &mut sm, Some("permits"), 3, false).is_none());
    let mut forced = prepare(&mut disk, &mut sm, Some("permits"), 3, true).unwrap();
    for builder in [&mut forced, &mut running] {
        let error = build(&mut disk, &sm, builder).unwrap_err();
        assert_eq!(error.kind, ErrorKind::BrokenPipe);
        assert_eq!(error.message, "native snapshot owner closed");
    }
    assert!(matches!(
        io(sm.capture_native(Some("permits"), 4)),
        Err(NativeCaptureError::Io(StorageError {
            kind: ErrorKind::BrokenPipe,
            ..
        }))
    ));
    let late = Capture {
        meta: meta(3),
        data: vec![],
        permits: None,
        already_durable: false,
        completion: None,
    };
    assert!(matches!(
        sm.reserve_captured(late, 5),
        Err(NativeCaptureError::Io(_))
    ));
    assert!(install(&mut disk, &mut sm, &meta(25), b"[1,[]]").is_err());
    let NativeRuntime { pending, .. } = sm.native.unwrap();
    assert!(pending.is_none());
}

#[test]
fn installs_are_bounded_ordered_and_reported_as_they_fail() {
    let mut disk = Disk::new();
    let mut sm = store(8);
    assert!(matches!(
        install(&mut disk, &mut sm, &meta(25), b"123456789"),
        Err(InstallFailure::Storage(error)) if error.message == "snapshot install limit"
    ));
    assert!(matches!(
        install(&mut disk, &mut sm, &meta(25), b"nonsense"),
        Err(InstallFailure::Application(CounterError::Decode(_)))
    ));
    assert!(current(&mut disk, &sm).is_none());
    install(&mut disk, &mut sm, &meta(25), b"[3,[]]").unwrap();
    assert_eq!(sm.fsm.value(7), 3);
    assert_eq!(sm.last_applied_log, meta(25).last_log_id);
    assert_eq!(sm.last_membership, meta(25).last_membership);
    assert!(matches!(
        install(&mut disk, &mut sm, &meta(24), b"[4,[]]"),
        Err(InstallFailure::Storage(error))
            if error.message == "snapshot install would regress applied state"
    ));
    assert_eq!(sm.fsm.value(7), 3);
    assert_eq!(current(&mut disk, &sm).unwrap().data, b"[3,[]]");
}

#[test]
fn byte_limits_are_in_range() {
    for (cap, ok) in [(0, false), (1, true), (67_108_864, true), (67_108_865, false)] {
        let options = NativeSmOptions {
            catalog: catalog(),
            max_snapshot_bytes: cap,
        };
        let made: Result<Store, StorageError> =
            StateMachineStore::with_native_options(7, CounterFsm::new(), options);
        assert_eq!(made.is_ok(), ok);
        if let Err(error) = made {
            assert_eq!(error.kind, ErrorKind::InvalidInput);
            assert_eq!(error.message, "invalid snapshot byte limit");
        }
    }
    let plain: Store = StateMachineStore::new(7, CounterFsm::new());
    assert_eq!(plain.snapshot_byte_limit(), 67_108_864);
    assert!(matches!(
        plain.reserve_native_compaction(),
        Err(NativeCaptureError::Refused(CaptureRefusal::Unsupported))
    ));
}

struct Verbose;

impl StateMachine for Verbose {
    type Error = String;

    fn apply(&mut self, _: u64, _: u64, _: &[u8]) -> Result<ApplyOut, String> {
        Ok(ApplyOut::default())
    }

    fn snapshot(&self, _: u64) -> Result<Vec<u8>, String> {
        Ok(vec![])
    }

    fn restore(&mut self, _: u64, _: &[u8]) -> Result<(), String> {
        Ok(())
    }

    fn freeze_bounded(&self, group: u64, max: usize) -> Result<Vec<u8>, CaptureError<String>> {
        if group == 1 {
            Ok(vec![0; max + 1])
        } else {
            Err(CaptureError::Application("broken".into()))
        }
    }
}

#[test]
fn applications_are_held_to_the_bound_and_their_failures_reported() {
    for group in [1, 2] {
        let options = NativeSmOptions {
            catalog: catalog(),
            max_snapshot_bytes: 16,
        };
        let sm: StateMachineStore<Verbose, (), ()> =
            StateMachineStore::with_native_options(group, Verbose, options).unwrap();
        let captured = sm.capture_native(Some(()), 0);
        if group == 1 {
            assert!(matches!(
                captured,
                Err(CaptureFailure::Native(NativeCaptureError::Refused(
                    CaptureRefusal::SizeLimit
                )))
            ));
        } else {
            assert!(matches!(
                captured,
                Err(CaptureFailure::Application(error)) if error == "broken"
            ));
        }
    }
}
