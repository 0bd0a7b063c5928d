//! Memberships: voter configurations, nodes and learners.

use crate::collections;
use crate::log_id;
use crate::log_id::ObservedLogId;
use crate::NodeId;
use std::collections::BTreeMap;
use std::collections::BTreeSet;
use vstd::prelude::*;

verus! {

/// What a stored membership holds.
#[verifier::ext_equal]
pub struct StoredMembershipView {
    pub log_id: Option<ObservedLogId>,
    pub voter_configs: Seq<Set<NodeId>>,
    pub nodes: Map<NodeId, Seq<char>>,
}

/// A membership as it stands in the log or in a snapshot: the entry that carried it, the joint
/// voter configurations, and the address of every node.
#[derive(Debug, PartialEq, Eq)]
pub struct StoredMembership {
    /// The log entry that carried the membership, if there is one.
    pub log_id: Option<ObservedLogId>,
    /// Joint-consensus voter configurations.
    pub voter_configs: Vec<BTreeSet<NodeId>>,
    /// Addresses of all nodes, voters and learners.
    pub nodes: BTreeMap<NodeId, String>,
}

impl View for StoredMembership {
    type V = StoredMembershipView;

    open spec fn view(&self) -> StoredMembershipView {
        StoredMembershipView {
            log_id: self.log_id,
            voter_configs: collections::sets_view(self.voter_configs@),
            nodes: collections::texts_view(self.nodes@),
        }
    }
}

impl Clone for StoredMembership {
    fn clone(&self) -> (copy: Self)
        ensures
            copy@ == self@,
    {
        StoredMembership {
            log_id: self.log_id,
            voter_configs: collections::copy_sets(&self.voter_configs),
            nodes: self.nodes.clone(),
        }
    }
}

impl StoredMembership {
    /// The membership of a node that has seen no configuration yet.
    pub fn empty() -> (membership: Self)
        ensures
            membership@ == (StoredMembershipView {
                log_id: None,
                voter_configs: Seq::empty(),
                nodes: Map::empty(),
            }),
    {
        let membership = StoredMembership {
            log_id: None,
            voter_configs: Vec::new(),
            nodes: BTreeMap::new(),
        };
        assert(membership@.voter_configs =~= Seq::empty());
        assert(membership@.nodes =~= Map::empty());
        membership
    }

    /// Whether two stored memberships agree in every part.
    pub fn same_as(&self, other: &StoredMembership) -> (same: bool)
        ensures
            same == (self@ == other@),
    {
        log_id::same_position(self.log_id, other.log_id) && collections::same_sets(
            &self.voter_configs,
            &other.voter_configs,
        ) && collections::same_texts(&self.nodes, &other.nodes)
    }
}

/// What an observed membership holds.
#[verifier::ext_equal]
pub struct MembershipView {
    pub log_id: Option<ObservedLogId>,
    pub voter_configs: Seq<Set<NodeId>>,
    pub learner_ids: Set<NodeId>,
}

impl MembershipView {
    /// Whether `node` votes in one of the configurations.
    pub open spec fn has_voter(self, node: NodeId) -> bool {
        votes(self.voter_configs, node)
    }
}

/// Normalized membership plus the log id that carried it.
#[derive(Debug, PartialEq, Eq)]
pub struct MembershipObservation {
    /// Complete log id for this membership entry, when initialized.
    pub log_id: Option<ObservedLogId>,
    /// Joint-consensus voter configurations, preserved without flattening.
    pub voter_configs: Vec<BTreeSet<NodeId>>,
    /// Learner ids separate from voter ids.
    pub learner_ids: BTreeSet<NodeId>,
}

impl View for MembershipObservation {
    type V = MembershipView;

    open spec fn view(&self) -> MembershipView {
        MembershipView {
            log_id: self.log_id,
            voter_configs: collections::sets_view(self.voter_configs@),
            learner_ids: self.learner_ids@,
        }
    }
}

impl Clone for MembershipObservation {
    fn clone(&self) -> (copy: Self)
        ensures
            copy@ == self@,
    {
        MembershipObservation {
            log_id: self.log_id,
            voter_configs: collections::copy_sets(&self.voter_configs),
            learner_ids: self.learner_ids.clone(),
        }
    }
}

impl MembershipObservation {
    /// Creates a normalized membership observation without flattening joint consensus.
    pub fn new(
        log_id: Option<ObservedLogId>,
        voter_configs: Vec<BTreeSet<NodeId>>,
        learner_ids: BTreeSet<NodeId>,
    ) -> (membership: Self)
        ensures
            membership == (MembershipObservation { log_id, voter_configs, learner_ids }),
    {
        Self { log_id, voter_configs, learner_ids }
    }

    /// Whether two observed memberships agree in every part.
    pub fn same_as(&self, other: &MembershipObservation) -> (same: bool)
        ensures
            same == (self@ == other@),
    {
        log_id::same_position(self.log_id, other.log_id) && collections::same_sets(
            &self.voter_configs,
            &other.voter_configs,
        ) && collections::same_set(&self.learner_ids, &other.learner_ids)
    }

    /// Whether `node` votes in one of the configurations.
    pub fn is_voter(&self, node: NodeId) -> (voter: bool)
        ensures
            voter == self@.has_voter(node),
    {
        votes_in(&self.voter_configs, node)
    }
}

/// The learners of a stored membership: its nodes that vote in no configuration.
pub open spec fn learners(membership: StoredMembershipView) -> Set<NodeId> {
    membership.nodes.dom().filter(
        |node: NodeId| !votes(membership.voter_configs, node),
    )
}

/// Whether `node` votes in one of `configs`.
pub open spec fn votes(configs: Seq<Set<NodeId>>, node: NodeId) -> bool {
    exists|i: int| 0 <= i < configs.len() && #[trigger] configs[i].contains(node)
}

/// How a stored membership is observed.
pub open spec fn observed(membership: StoredMembershipView) -> MembershipView {
    MembershipView {
        log_id: membership.log_id,
        voter_configs: membership.voter_configs,
        learner_ids: learners(membership),
    }
}

fn votes_in(configs: &Vec<BTreeSet<NodeId>>, node: NodeId) -> (voter: bool)
    ensures
        voter == votes(collections::sets_view(configs@), node),
{
    let mut i: usize = 0;
    while i < configs.len()
        invariant
            i <= configs.len(),
            forall|j: int| 0 <= j < i ==> !#[trigger] collections::sets_view(configs@)[j].contains(node),
        decreases configs.len() - i,
    {
        if configs[i].contains(&node) {
            assert(collections::sets_view(configs@)[i as int].contains(node));
            return true;
        }
        i += 1;
    }
    false
}

/// Observes a stored membership: its entry and voter configurations as they are, and as learners
/// the nodes that vote in no configuration.
pub fn normalize_membership(membership: &StoredMembership) -> (normalized: MembershipObservation)
    ensures
        normalized@ == observed(membership@),
{
    let nodes = collections::keys_of(&membership.nodes);
    let mut learner_ids: BTreeSet<NodeId> = BTreeSet::new();
    let mut i: usize = 0;
    while i < nodes.len()
        invariant
            i <= nodes.len(),
            learner_ids@ == nodes@.take(i as int).to_set().filter(
                |node: NodeId| !votes(membership@.voter_configs, node),
            ),
        decreases nodes.len() - i,
    {
        let node: NodeId = nodes[i];
        let ghost before = nodes@.take(i as int);
        if !votes_in(&membership.voter_configs, node) {
            learner_ids.insert(node);
        }
        i += 1;
        proof {
            let after = nodes@.take(i as int);
            assert(after =~= before.push(node));
            collections::lemma_push_to_set(before, node);
            assert(learner_ids@ =~= after.to_set().filter(
                |node: NodeId| !votes(membership@.voter_configs, node),
            ));
        }
    }
    assert(nodes@.take(nodes.len() as int) =~= nodes@);
    assert(membership@.nodes.dom() =~= membership.nodes@.dom());
    let normalized = MembershipObservation {
        log_id: membership.log_id,
        voter_configs: collections::copy_sets(&membership.voter_configs),
        learner_ids,
    };
    assert(normalized@.learner_ids =~= learners(membership@));
    normalized
}

/// What is observed of a stored membership: its entry and its joint configurations, each as it is;
/// and as learners exactly the nodes that vote in none of them.
pub proof fn law_observed_memberships_keep_joint_configurations(
    stored: StoredMembership,
    seen: MembershipObservation,
    node: NodeId,
    i: int,
)
    requires
        call_ensures(normalize_membership, (&stored,), seen),
        0 <= i < stored.voter_configs@.len(),
    ensures
        seen.log_id == stored.log_id,
        seen.voter_configs@.len() == stored.voter_configs@.len(),
        seen.voter_configs@[i]@ == stored.voter_configs@[i]@,
        stored.voter_configs@[i]@.contains(node) ==> !seen.learner_ids@.contains(node),
        !stored.nodes@.contains_key(node) ==> !seen.learner_ids@.contains(node),
{
    assert(collections::sets_view(seen.voter_configs@).len() == seen.voter_configs@.len());
    assert(collections::sets_view(stored.voter_configs@).len() == stored.voter_configs@.len());
    assert(collections::sets_view(seen.voter_configs@)[i] == seen.voter_configs@[i]@);
    assert(collections::sets_view(stored.voter_configs@)[i] == stored.voter_configs@[i]@);
}

/// A node with an address that votes in no configuration is a learner.
pub proof fn law_nodes_without_a_vote_are_learners(
    stored: StoredMembership,
    seen: MembershipObservation,
    node: NodeId,
)
    requires
        call_ensures(normalize_membership, (&stored,), seen),
        stored.nodes@.contains_key(node),
        forall|i: int|
            0 <= i < stored.voter_configs@.len() ==> !(
            #[trigger] stored.voter_configs@[i])@.contains(node),
    ensures
        seen.learner_ids@.contains(node),
{
    let configs = collections::sets_view(stored.voter_configs@);
    assert forall|i: int| 0 <= i < configs.len() implies !#[trigger] configs[i].contains(node) by {
        assert(configs[i] == stored.voter_configs@[i]@);
    }
    assert(collections::texts_view(stored.nodes@).contains_key(node));
}

/// Memberships are the same exactly where they agree in entry, configurations, and learners or
/// addresses.
pub proof fn law_same_memberships_agree_in_every_part(
    a: StoredMembership,
    b: StoredMembership,
    x: MembershipObservation,
    y: MembershipObservation,
    stored: bool,
    observed: bool,
)
    requires
        call_ensures(StoredMembership::same_as, (&a, &b), stored),
        call_ensures(MembershipObservation::same_as, (&x, &y), observed),
    ensures
        stored <==> a.log_id == b.log_id && collections::sets_view(a.voter_configs@)
            == collections::sets_view(b.voter_configs@) && collections::texts_view(a.nodes@)
            == collections::texts_view(b.nodes@),
        observed <==> x.log_id == y.log_id && collections::sets_view(x.voter_configs@)
            == collections::sets_view(y.voter_configs@) && x.learner_ids@ == y.learner_ids@,
{
}

/// A node votes exactly where one of the joint configurations lists it.
pub proof fn law_voters_are_those_of_any_configuration(
    seen: MembershipObservation,
    node: NodeId,
    voter: bool,
)
    requires
        call_ensures(MembershipObservation::is_voter, (&seen, node), voter),
    ensures
        voter <==> exists|i: int|
            0 <= i < seen.voter_configs@.len() && (#[trigger] seen.voter_configs@[i])@.contains(node),
{
    let configs = collections::sets_view(seen.voter_configs@);
    assert forall|i: int| 0 <= i < configs.len() implies #[trigger] configs[i]
        == seen.voter_configs@[i]@ by {}
    if voter {
        let i = choose|i: int| 0 <= i < configs.len() && #[trigger] configs[i].contains(node);
        assert(seen.voter_configs@[i]@.contains(node));
    }
    if exists|i: int|
        0 <= i < seen.voter_configs@.len() && (#[trigger] seen.voter_configs@[i])@.contains(node) {
        let i = choose|i: int|
            0 <= i < seen.voter_configs@.len() && (#[trigger] seen.voter_configs@[i])@.contains(node);
        assert(configs[i].contains(node));
    }
}

/// Copies of memberships are the same in every part, and the empty one has nothing.
pub proof fn law_copied_memberships_are_the_same(
    stored: StoredMembership,
    copy: StoredMembership,
    seen: MembershipObservation,
    seen_copy: MembershipObservation,
    empty: StoredMembership,
)
    requires
        call_ensures(StoredMembership::clone, (&stored,), copy),
        call_ensures(MembershipObservation::clone, (&seen,), seen_copy),
        call_ensures(StoredMembership::empty, (), empty),
    ensures
        copy.log_id == stored.log_id,
        collections::sets_view(copy.voter_configs@) == collections::sets_view(stored.voter_configs@),
        collections::texts_view(copy.nodes@) == collections::texts_view(stored.nodes@),
        seen_copy.log_id == seen.log_id,
        collections::sets_view(seen_copy.voter_configs@) == collections::sets_view(
            seen.voter_configs@,
        ),
        seen_copy.learner_ids@ == seen.learner_ids@,
        empty.log_id is None,
        empty.voter_configs@.len() == 0,
        empty.nodes@.dom().is_empty(),
{
    assert(collections::sets_view(empty.voter_configs@).len() == empty.voter_configs@.len());
    assert(collections::texts_view(empty.nodes@).dom() =~= empty.nodes@.dom());
}

/// An observed membership has the parts that it was made with.
pub proof fn law_observed_memberships_keep_their_parts(
    log_id: Option<ObservedLogId>,
    voter_configs: Vec<BTreeSet<NodeId>>,
    learner_ids: BTreeSet<NodeId>,
    seen: MembershipObservation,
)
    requires
        call_ensures(MembershipObservation::new, (log_id, voter_configs, learner_ids), seen),
    ensures
        seen.log_id == log_id,
        seen.voter_configs@ == voter_configs@,
        seen.learner_ids@ == learner_ids@,
        seen@.voter_configs == collections::sets_view(voter_configs@),
        seen@.learner_ids == learner_ids@,
        seen@.log_id == log_id,
{
}

} // verus!
