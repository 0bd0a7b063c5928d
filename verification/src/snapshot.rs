//! Native snapshots: their metadata, and what is stored beside their bytes.

use crate::log_id::ObservedLogId;
use crate::membership::StoredMembership;
use crate::membership::StoredMembershipView;
use crate::storage;
use crate::storage::StorageError;
use crate::storage::StorageErrorView;
use crate::GroupId;
use vstd::prelude::*;
use vstd::string::*;
use vstd::utf8::*;

verus! {

/// The layout version of stored snapshots.
pub const VERSION: u32 = 1;

/// The largest manifest or metadata file, in bytes.
pub const META_LIMIT: usize = 1_048_576;

/// The largest application image, in bytes.
pub const BYTE_LIMIT: usize = 67_108_864;

/// The longest snapshot identity, in bytes.
pub const ID_LIMIT: usize = 4096;

/// What snapshot metadata holds.
#[verifier::ext_equal]
pub struct SnapshotMetaView {
    pub last_log_id: Option<ObservedLogId>,
    pub last_membership: StoredMembershipView,
    pub snapshot_id: Seq<char>,
}

/// Where a snapshot was cut, the membership at the cut, and its identity.
#[derive(Debug, PartialEq, Eq)]
pub struct SnapshotMeta {
    pub last_log_id: Option<ObservedLogId>,
    pub last_membership: StoredMembership,
    pub snapshot_id: String,
}

impl View for SnapshotMeta {
    type V = SnapshotMetaView;

    open spec fn view(&self) -> SnapshotMetaView {
        SnapshotMetaView {
            last_log_id: self.last_log_id,
            last_membership: self.last_membership@,
            snapshot_id: self.snapshot_id@,
        }
    }
}

impl Clone for SnapshotMeta {
    fn clone(&self) -> (copy: Self)
        ensures
            copy@ == self@,
    {
        SnapshotMeta {
            last_log_id: self.last_log_id,
            last_membership: self.last_membership.clone(),
            snapshot_id: self.snapshot_id.clone(),
        }
    }
}

/// What a native snapshot holds.
#[verifier::ext_equal]
pub struct NativeSnapshotView {
    pub meta: SnapshotMetaView,
    pub data: Seq<u8>,
}

/// A stored snapshot with its application image.
#[derive(Debug, PartialEq, Eq)]
pub struct NativeSnapshot {
    pub meta: SnapshotMeta,
    pub data: Vec<u8>,
}

impl View for NativeSnapshot {
    type V = NativeSnapshotView;

    open spec fn view(&self) -> NativeSnapshotView {
        NativeSnapshotView { meta: self.meta@, data: self.data@ }
    }
}

/// What is known of a stored snapshot without its image.
#[verifier::ext_equal]
pub struct NativeSnapshotInfoView {
    pub meta: SnapshotMetaView,
    pub size: u64,
}

/// Validated persistent facts without materializing the application image.
#[derive(Debug, Clone, PartialEq, Eq)]
pub struct NativeSnapshotInfo {
    pub meta: SnapshotMeta,
    pub size: u64,
}

impl View for NativeSnapshotInfo {
    type V = NativeSnapshotInfoView;

    open spec fn view(&self) -> NativeSnapshotInfoView {
        NativeSnapshotInfoView { meta: self.meta@, size: self.size }
    }
}

/// What a metadata file says.
#[verifier::ext_equal]
pub struct NativeMetaView {
    pub version: u32,
    pub group: GroupId,
    pub meta: SnapshotMetaView,
    pub size: usize,
    pub data_sha256: Seq<char>,
}

/// The metadata file beside an application image.
#[derive(Debug, PartialEq, Eq)]
pub struct NativeMeta {
    pub version: u32,
    pub group: GroupId,
    pub meta: SnapshotMeta,
    pub size: usize,
    pub data_sha256: String,
}

impl View for NativeMeta {
    type V = NativeMetaView;

    open spec fn view(&self) -> NativeMetaView {
        NativeMetaView {
            version: self.version,
            group: self.group,
            meta: self.meta@,
            size: self.size,
            data_sha256: self.data_sha256@,
        }
    }
}

/// What a manifest says.
#[verifier::ext_equal]
pub struct ActiveView {
    pub version: u32,
    pub group: GroupId,
    pub generation: Seq<char>,
    pub metadata_sha256: Seq<char>,
}

/// The manifest: which generation is the current one.
#[derive(Debug, PartialEq, Eq)]
pub struct Active {
    pub version: u32,
    pub group: GroupId,
    pub generation: String,
    pub metadata_sha256: String,
}

impl View for Active {
    type V = ActiveView;

    open spec fn view(&self) -> ActiveView {
        ActiveView {
            version: self.version,
            group: self.group,
            generation: self.generation@,
            metadata_sha256: self.metadata_sha256@,
        }
    }
}

impl Clone for Active {
    fn clone(&self) -> (copy: Self)
        ensures
            copy@ == self@,
    {
        Active {
            version: self.version,
            group: self.group,
            generation: self.generation.clone(),
            metadata_sha256: self.metadata_sha256.clone(),
        }
    }
}

/// A byte limit for application images may be anything from one byte to the largest image.
pub open spec fn is_valid_cap(cap: int) -> bool {
    0 < cap <= BYTE_LIMIT
}

/// Checks a byte limit for application images.
pub fn check_cap(cap: usize) -> (checked: Result<(), StorageError>)
    ensures
        checked is Ok <==> is_valid_cap(cap as int),
        checked matches Err(error) ==> error@ == storage::failure(
            storage::ErrorKind::InvalidInput,
            "invalid snapshot cap"@,
        ),
{
    if cap == 0 || cap > BYTE_LIMIT {
        return Err(storage::fail(storage::ErrorKind::InvalidInput, "invalid snapshot cap"));
    }
    Ok(())
}

/// What is wrong with snapshot metadata, if anything: the identity is empty or too long, or the
/// membership stands beyond the cut.
pub open spec fn meta_fault(meta: SnapshotMetaView) -> Option<StorageErrorView> {
    let id_bytes = encode_utf8(meta.snapshot_id).len();
    if meta.snapshot_id.len() == 0 || id_bytes > ID_LIMIT {
        Some(storage::invalid_data("invalid snapshot identity"@))
    } else {
        match (meta.last_membership.log_id, meta.last_log_id) {
            (Some(_), None) => Some(storage::invalid_data("membership is beyond snapshot cut"@)),
            (Some(membership), Some(last)) => if membership.index > last.index {
                Some(storage::invalid_data("membership is beyond snapshot cut"@))
            } else {
                None
            },
            (None, _) => None,
        }
    }
}

/// Checks snapshot metadata.
pub fn validate_meta(meta: &SnapshotMeta) -> (checked: Result<(), StorageError>)
    ensures
        match checked {
            Ok(()) => meta_fault(meta@) is None,
            Err(error) => meta_fault(meta@) == Some(error@),
        },
{
    let id = meta.snapshot_id.as_str();
    if id.is_empty() || id.as_bytes().len() > ID_LIMIT {
        return Err(storage::invalid("invalid snapshot identity"));
    }
    if let Some(membership_log) = meta.last_membership.log_id {
        let beyond = match meta.last_log_id {
            None => true,
            Some(last) => membership_log.index > last.index,
        };
        if beyond {
            return Err(storage::invalid("membership is beyond snapshot cut"));
        }
    }
    Ok(())
}

/// A byte limit is accepted exactly from one byte to 64 MiB.
pub proof fn law_byte_limits_go_from_one_byte_to_64_mib(
    cap: usize,
    checked: Result<(), StorageError>,
)
    requires
        call_ensures(check_cap, (cap,), checked),
    ensures
        checked is Ok <==> 1 <= cap <= 64 * 1024 * 1024,
        is_valid_cap(cap as int) <==> 1 <= cap <= 64 * 1024 * 1024,
        checked is Err ==> checked->Err_0.kind is InvalidInput,
{
}

/// Snapshot metadata is accepted exactly where its identity has one byte at least and 4096 at most,
/// and its membership, where an entry carried it, stands at or before the cut.
pub proof fn law_metadata_is_accepted_within_its_bounds(
    meta: SnapshotMeta,
    checked: Result<(), StorageError>,
)
    requires
        call_ensures(validate_meta, (&meta,), checked),
    ensures
        checked is Ok <==> {
            &&& meta.snapshot_id@.len() > 0
            &&& encode_utf8(meta.snapshot_id@).len() <= 4096
            &&& meta.last_membership.log_id is Some ==> meta.last_log_id is Some
                && meta.last_membership.log_id->0.index <= meta.last_log_id->0.index
        },
        checked is Ok <==> meta_fault(meta@) is None,
        checked is Err ==> checked->Err_0.kind is InvalidData,
{
}

/// Snapshots are told apart by every part of them: cut, membership, identity and image.
pub proof fn law_snapshots_are_told_apart(a: NativeSnapshot, b: NativeSnapshot)
    requires
        a@ == b@,
    ensures
        a.data@ == b.data@,
        a.meta.last_log_id == b.meta.last_log_id,
        a.meta.snapshot_id@ == b.meta.snapshot_id@,
        a.meta.last_membership@ == b.meta.last_membership@,
{
}

/// And so are stored metadata, manifests and descriptions.
pub proof fn law_stored_records_are_told_apart(
    a: NativeMeta,
    b: NativeMeta,
    first: Active,
    second: Active,
    info: NativeSnapshotInfo,
    other: NativeSnapshotInfo,
)
    requires
        a@ == b@,
        first@ == second@,
        info@ == other@,
    ensures
        a.version == b.version && a.group == b.group && a.size == b.size,
        a.meta@ == b.meta@ && a.data_sha256@ == b.data_sha256@,
        first.version == second.version && first.group == second.group,
        first.generation@ == second.generation@ && first.metadata_sha256@
            == second.metadata_sha256@,
        info.meta@ == other.meta@ && info.size == other.size,
{
}

/// A copy of metadata is the metadata.
pub proof fn law_copied_metadata_is_the_same(meta: SnapshotMeta, copy: SnapshotMeta)
    requires
        call_ensures(SnapshotMeta::clone, (&meta,), copy),
    ensures
        copy.last_log_id == meta.last_log_id,
        copy.last_membership@ == meta.last_membership@,
        copy.snapshot_id@ == meta.snapshot_id@,
{
}

} // verus!
