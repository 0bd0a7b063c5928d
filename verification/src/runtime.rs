//! Snapshot state of one node: its catalog, its advertisements, and its operations.

use crate::catalog::SnapshotCatalog;
use crate::collections;
use crate::files;
use crate::maintenance::Operation;
use crate::GroupId;
use std::collections::BTreeMap;
use vstd::prelude::*;

verus! {

/// How a node takes and keeps snapshots.
#[derive(Debug, Clone, Copy, PartialEq, Eq, Structural)]
pub enum SnapshotMode {
    /// No snapshots are kept.
    Disabled,
    /// A standby takes snapshots off the application's path.
    StandbyOffload,
    /// Durable checkpoints that the Raft core builds, installs and recovers from.
    NativeDurable,
}

/// What a node is configured with, as far as snapshots go.
#[derive(Debug)]
pub struct ClusterConfig {
    pub snapshot_mode: SnapshotMode,
    /// The components of the data directory; none for a node that keeps everything in memory.
    pub data_dir: Vec<String>,
    /// How many standby snapshots are kept.
    pub snapshot_keep: usize,
    /// How many log entries are kept behind a checkpoint.
    pub retain_log_entries: u64,
}

/// What a standby says of a snapshot that it has.
#[derive(Debug, Clone, PartialEq, Eq)]
pub struct SnapshotAdvertisement {
    pub group: GroupId,
    pub last_index: u64,
    pub last_term: u64,
    pub snapshot_id: String,
    pub size: u64,
    pub sha256_hex: String,
    pub fetch_url: String,
}

impl SnapshotAdvertisement {
    /// Whether two advertisements speak of the same snapshot.
    pub open spec fn same_snapshot(self, other: SnapshotAdvertisement) -> bool {
        self.group == other.group && self.snapshot_id@ == other.snapshot_id@
    }
}

/// Shared snapshot catalog and advertisements of one node.
#[derive(Debug)]
pub struct SnapshotRuntime {
    /// The node takes no new operations.
    pub stopping: bool,
    /// The last operation of each group.
    pub operations: BTreeMap<GroupId, Operation>,
    pub catalog: Option<SnapshotCatalog>,
    pub ads: Vec<SnapshotAdvertisement>,
    pub data_dir: Vec<String>,
}

/// Whether a node with this configuration has a catalog.
pub open spec fn has_catalog(config: ClusterConfig) -> bool {
    &&& (config.snapshot_mode is StandbyOffload || config.snapshot_mode is NativeDurable)
    &&& config.data_dir@.len() > 0
}

/// The advertisements after one more: it takes the place of an earlier one of the same snapshot,
/// and comes last.
pub open spec fn recorded(ads: Seq<SnapshotAdvertisement>, ad: SnapshotAdvertisement) -> Seq<
    SnapshotAdvertisement,
> {
    ads.filter(|a: SnapshotAdvertisement| !a.same_snapshot(ad)).push(ad)
}

impl SnapshotRuntime {
    /// The snapshot state of a node that starts with the advertisements `ads`.
    pub fn new(config: &ClusterConfig, ads: Vec<SnapshotAdvertisement>) -> (runtime: Self)
        ensures
            !runtime.stopping,
            runtime.operations@ == Map::<GroupId, Operation>::empty(),
            runtime.ads == ads,
            files::path_view(runtime.data_dir@) == files::path_view(config.data_dir@),
            runtime.catalog is Some <==> has_catalog(*config),
            runtime.catalog matches Some(catalog) ==> catalog.root_path() == files::path_view(
                config.data_dir@,
            ).push("snapshots"@) && catalog.keep == config.snapshot_keep,
    {
        let keeps = match config.snapshot_mode {
            SnapshotMode::Disabled => false,
            SnapshotMode::StandbyOffload | SnapshotMode::NativeDurable => true,
        };
        let catalog = if keeps && config.data_dir.len() > 0 {
            let root = files::child(&config.data_dir, "snapshots");
            Some(SnapshotCatalog::new(root, config.snapshot_keep))
        } else {
            None
        };
        SnapshotRuntime {
            stopping: false,
            operations: BTreeMap::new(),
            catalog,
            ads,
            data_dir: files::copy_path(&config.data_dir),
        }
    }

    /// The file that holds the advertisements; a node in memory has none.
    pub fn ads_path(&self) -> (path: Option<Vec<String>>)
        ensures
            path is Some <==> self.data_dir@.len() > 0,
            path matches Some(path) ==> files::path_view(path@) == files::path_view(
                self.data_dir@,
            ).push("snapshot_ads.json"@),
    {
        if self.data_dir.len() == 0 {
            return None;
        }
        Some(files::child(&self.data_dir, "snapshot_ads.json"))
    }

    /// Records an advertisement: it takes the place of an earlier one of the same snapshot.
    pub fn record_ad(&mut self, ad: SnapshotAdvertisement)
        ensures
            final(self).ads@ == recorded(old(self).ads@, ad),
            final(self).stopping == old(self).stopping,
            final(self).operations == old(self).operations,
            final(self).catalog == old(self).catalog,
            final(self).data_dir == old(self).data_dir,
    {
        let mut kept: Vec<SnapshotAdvertisement> = Vec::new();
        let mut rest: Vec<SnapshotAdvertisement> = Vec::new();
        std::mem::swap(&mut rest, &mut self.ads);
        let ghost all = rest@;
        let ghost wanted = |a: SnapshotAdvertisement| !a.same_snapshot(ad);
        let total = rest.len();
        let mut i: usize = 0;
        proof {
            assert(all.take(0) =~= Seq::empty());
            reveal(Seq::filter);
        }
        while i < total
            invariant
                i <= total == all.len(),
                rest@ == all.skip(i as int),
                kept@ == all.take(i as int).filter(wanted),
                wanted == (|a: SnapshotAdvertisement| !a.same_snapshot(ad)),
            decreases total - i,
        {
            let next = rest.remove(0);
            let same = next.group == ad.group && collections::same_text(
                &next.snapshot_id,
                &ad.snapshot_id,
            );
            proof {
                assert(next == all[i as int]);
                assert(all.take(i + 1).drop_last() =~= all.take(i as int));
                assert(all.take(i + 1).last() == next);
                reveal(Seq::filter);
                assert(rest@ =~= all.skip(i + 1));
            }
            if !same {
                kept.push(next);
            }
            i += 1;
        }
        assert(all.take(total as int) =~= all);
        kept.push(ad);
        self.ads = kept;
    }
}

/// A recorded advertisement is there once, and every advertisement of another snapshot stays.
pub proof fn law_advertisements_are_unique(
    ads: Seq<SnapshotAdvertisement>,
    ad: SnapshotAdvertisement,
    other: SnapshotAdvertisement,
)
    ensures
        recorded(ads, ad).last() == ad,
        forall|i: int|
            0 <= i < recorded(ads, ad).len() - 1 ==> !(#[trigger] recorded(ads, ad)[i]).same_snapshot(
                ad,
            ),
        ads.contains(other) && !other.same_snapshot(ad) ==> recorded(ads, ad).contains(other),
{
    broadcast use vstd::seq_lib::group_filter_ensures;

    let wanted = |a: SnapshotAdvertisement| !a.same_snapshot(ad);
    let kept = ads.filter(wanted);
    assert forall|i: int| 0 <= i < recorded(ads, ad).len() - 1 implies !(#[trigger] recorded(
        ads,
        ad,
    )[i]).same_snapshot(ad) by {
        assert(wanted(kept[i]));
    }
    if ads.contains(other) && !other.same_snapshot(ad) {
        let i = choose|i: int| 0 <= i < ads.len() && ads[i] == other;
        assert(wanted(ads[i]));
        assert(kept.contains(other));
        let j = choose|j: int| 0 <= j < kept.len() && kept[j] == other;
        assert(recorded(ads, ad)[j] == other);
    }
}

/// A node has a catalog exactly where it keeps snapshots at all and has a data directory; it stands
/// there under a name of its own. A node starts with nothing under way.
pub proof fn law_nodes_with_snapshots_have_a_catalog(
    config: ClusterConfig,
    ads: Vec<SnapshotAdvertisement>,
    runtime: SnapshotRuntime,
)
    requires
        call_ensures(SnapshotRuntime::new, (&config, ads), runtime),
    ensures
        runtime.catalog is Some <==> !(config.snapshot_mode is Disabled) && config.data_dir@.len() > 0,
        runtime.catalog matches Some(catalog) ==> {
            &&& files::path_view(catalog.root@) == files::path_view(config.data_dir@).push(
                "snapshots"@,
            )
            &&& catalog.keep == config.snapshot_keep
        },
        !runtime.stopping,
        runtime.operations@.dom().is_empty(),
        runtime.ads@ == ads@,
        files::path_view(runtime.data_dir@) == files::path_view(config.data_dir@),
{
}

/// Recording an advertisement puts it last and takes away only what it replaces: those of the same
/// group and the same snapshot. All others stay, in their order, and nothing else of the node
/// changes.
pub proof fn law_recording_replaces_the_same_snapshot_only(
    runtime: &mut SnapshotRuntime,
    ad: SnapshotAdvertisement,
    other: SnapshotAdvertisement,
)
    requires
        call_ensures(SnapshotRuntime::record_ad, (runtime, ad), ()),
    ensures
        final(runtime).ads@.len() > 0,
        final(runtime).ads@.last() == ad,
        final(runtime).ads@.drop_last() == old(runtime).ads@.filter(
            |a: SnapshotAdvertisement| a.group != ad.group || a.snapshot_id@ != ad.snapshot_id@,
        ),
        final(runtime).ads@.contains(other) <==> other == ad || (old(runtime).ads@.contains(other) && (
        other.group != ad.group || other.snapshot_id@ != ad.snapshot_id@)),
        final(runtime).operations == old(runtime).operations,
        final(runtime).stopping == old(runtime).stopping,
        final(runtime).catalog == old(runtime).catalog,
        final(runtime).data_dir == old(runtime).data_dir,
{
    broadcast use vstd::seq_lib::group_filter_ensures;

    let ads = old(runtime).ads@;
    let wanted = |a: SnapshotAdvertisement| !a.same_snapshot(ad);
    let stays = |a: SnapshotAdvertisement|
        a.group != ad.group || a.snapshot_id@ != ad.snapshot_id@;
    assert(wanted =~= stays);
    let kept = ads.filter(wanted);
    let all = final(runtime).ads@;
    assert(all.drop_last() =~= kept);
    if all.contains(other) && other != ad {
        let i = choose|i: int| 0 <= i < all.len() && all[i] == other;
        assert(kept[i] == other);
        assert(wanted(kept[i]));
        assert(kept.contains(other));
        ads.lemma_filter_contains_rev(wanted, other);
    }
    if ads.contains(other) && stays(other) {
        let i = choose|i: int| 0 <= i < ads.len() && ads[i] == other;
        assert(wanted(ads[i]));
        assert(kept.contains(other));
        let j = choose|j: int| 0 <= j < kept.len() && kept[j] == other;
        assert(all[j] == other);
    }
    assert(all[all.len() - 1] == ad);
}

/// Advertisements are kept in a file of the data directory, where the node has one.
pub proof fn law_advertisements_have_a_file(runtime: SnapshotRuntime, path: Option<Vec<String>>)
    requires
        call_ensures(SnapshotRuntime::ads_path, (&runtime,), path),
    ensures
        path is Some <==> runtime.data_dir@.len() > 0,
        path matches Some(path) ==> files::path_view(path@) == files::path_view(
            runtime.data_dir@,
        ).push("snapshot_ads.json"@),
{
}

} // verus!
