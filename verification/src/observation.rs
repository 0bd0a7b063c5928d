//! Backend-neutral observations of one local Raft group.

use crate::error::ObservationClosed;
use crate::membership;
use crate::membership::MembershipObservation;
use crate::membership::MembershipView;
use crate::membership::StoredMembership;
use crate::text;
use crate::GroupId;
use crate::NodeId;
use vstd::prelude::*;
use vstd::string::*;

verus! {

/// Latest normalized server-side observation for one local Raft group.
///
/// This is a sampled observation, not an authorization token for business reads or writes.
#[non_exhaustive]
#[derive(Debug, Clone, PartialEq, Eq)]
pub struct GroupObservation {
    /// The observed Raft group.
    pub group_id: GroupId,
    /// This process' local Raft node id.
    pub local_node_id: NodeId,
    /// Local node role derived from the effective membership.
    pub local_membership_role: LocalMembershipRole,
    /// Current local server state.
    pub server_state: GroupServerState,
    /// Latest leader id hinted by the local Raft instance.
    pub leader_hint: Option<NodeId>,
    /// Latest vote flushed by the local Raft instance.
    pub flushed_vote: VoteObservation,
    /// Latest effective membership known locally.
    pub effective_membership: MembershipObservation,
    /// Latest committed membership known locally.
    pub committed_membership: MembershipObservation,
}

/// Normalized Raft vote observation.
#[derive(Debug, Clone, Copy, PartialEq, Eq, Structural)]
pub struct VoteObservation {
    /// Vote term.
    pub term: u64,
    /// Node id attached to the vote's leader id.
    pub node_id: NodeId,
    /// Whether the vote has been granted by a quorum.
    pub committed: bool,
}

impl VoteObservation {
    /// The debugging text of the vote.
    pub open spec fn text(self) -> Seq<char> {
        "VoteObservation { term: "@ + text::decimal(self.term as nat) + ", node_id: "@
            + text::decimal(self.node_id as nat) + ", committed: "@ + text::bool_text(
            self.committed,
        ) + " }"@
    }

    /// Creates a stable normalized vote observation.
    pub fn new(term: u64, node_id: NodeId, committed: bool) -> (vote: Self)
        ensures
            vote == (VoteObservation { term, node_id, committed }),
    {
        Self { term, node_id, committed }
    }

    /// Appends the debugging text of the vote.
    pub fn append_debug(&self, out: &mut String)
        ensures
            final(out)@ == old(out)@ + self.text(),
    {
        out.append("VoteObservation { term: ");
        text::append_u64(out, self.term);
        out.append(", node_id: ");
        text::append_u64(out, self.node_id);
        out.append(", committed: ");
        text::append_bool(out, self.committed);
        out.append(" }");
        assert(out@ =~= old(out)@ + self.text());
    }
}

/// Local node role derived from effective membership only.
#[non_exhaustive]
#[derive(Debug, Clone, Copy, PartialEq, Eq, Structural)]
pub enum LocalMembershipRole {
    /// The local node is present in at least one effective voter config.
    Voter,
    /// The local node is a learner in the effective membership.
    Learner,
    /// The local node is absent from the effective membership.
    NotMember,
}

/// Normalized active local Raft server state.
#[non_exhaustive]
#[derive(Debug, Clone, Copy, PartialEq, Eq, Structural)]
pub enum GroupServerState {
    /// Passive learner state.
    Learner,
    /// Follower state.
    Follower,
    /// Candidate state.
    Candidate,
    /// Leader state.
    Leader,
}

impl GroupServerState {
    /// The name of the state.
    pub open spec fn text(self) -> Seq<char> {
        match self {
            GroupServerState::Learner => "Learner"@,
            GroupServerState::Follower => "Follower"@,
            GroupServerState::Candidate => "Candidate"@,
            GroupServerState::Leader => "Leader"@,
        }
    }

    /// The name of the state.
    pub fn name(&self) -> (name: &'static str)
        ensures
            name@ == self.text(),
    {
        match self {
            GroupServerState::Learner => "Learner",
            GroupServerState::Follower => "Follower",
            GroupServerState::Candidate => "Candidate",
            GroupServerState::Leader => "Leader",
        }
    }
}

/// State that a Raft server reports, the terminal one included.
#[derive(Debug, Clone, Copy, PartialEq, Eq, Structural)]
pub enum RaftServerState {
    Learner,
    Follower,
    Candidate,
    Leader,
    /// The server has ended.
    Shutdown,
}

/// What a Raft server reports of itself at one moment.
#[derive(Debug)]
pub struct ServerMetrics {
    /// The reporting node.
    pub id: NodeId,
    /// The last flushed vote.
    pub vote: VoteObservation,
    /// The server state.
    pub state: RaftServerState,
    /// The leader that the node knows of.
    pub current_leader: Option<NodeId>,
    /// The effective membership.
    pub membership_config: StoredMembership,
    /// The committed membership.
    pub committed_membership_config: StoredMembership,
}

/// The active state that `state` stands for, unless it is the terminal one.
pub open spec fn active_state(state: RaftServerState) -> Option<GroupServerState> {
    match state {
        RaftServerState::Learner => Some(GroupServerState::Learner),
        RaftServerState::Follower => Some(GroupServerState::Follower),
        RaftServerState::Candidate => Some(GroupServerState::Candidate),
        RaftServerState::Leader => Some(GroupServerState::Leader),
        RaftServerState::Shutdown => None,
    }
}

/// The role of `node` in `membership`: a voter where a configuration lists it, else a learner where
/// the learners do.
pub open spec fn role_in(node: NodeId, membership: MembershipView) -> LocalMembershipRole {
    if membership.has_voter(node) {
        LocalMembershipRole::Voter
    } else if membership.learner_ids.contains(node) {
        LocalMembershipRole::Learner
    } else {
        LocalMembershipRole::NotMember
    }
}

/// Normalizes a server state; the terminal state closes the observation.
pub fn normalize_server_state(group_id: GroupId, state: RaftServerState) -> (normalized: Result<
    GroupServerState,
    ObservationClosed,
>)
    ensures
        match normalized {
            Ok(active) => active_state(state) == Some(active),
            Err(closed) => active_state(state) is None && closed.group() == group_id,
        },
{
    match state {
        RaftServerState::Learner => Ok(GroupServerState::Learner),
        RaftServerState::Follower => Ok(GroupServerState::Follower),
        RaftServerState::Candidate => Ok(GroupServerState::Candidate),
        RaftServerState::Leader => Ok(GroupServerState::Leader),
        RaftServerState::Shutdown => Err(ObservationClosed::new(group_id)),
    }
}

/// The role of the local node in an observed membership.
pub fn local_membership_role(
    local_node_id: NodeId,
    normalized: &MembershipObservation,
) -> (role: LocalMembershipRole)
    ensures
        role == role_in(local_node_id, normalized@),
{
    if normalized.is_voter(local_node_id) {
        LocalMembershipRole::Voter
    } else if normalized.learner_ids.contains(&local_node_id) {
        LocalMembershipRole::Learner
    } else {
        LocalMembershipRole::NotMember
    }
}

/// Normalizes what a server reports of itself into an observation of `group_id`.
///
/// # Errors
///
/// Returns [`ObservationClosed`] for the terminal state, and for no other.
pub fn normalize_server_metrics(group_id: GroupId, metrics: &ServerMetrics) -> (normalized: Result<
    GroupObservation,
    ObservationClosed,
>)
    ensures
        match normalized {
            Ok(observation) => {
                &&& observation.group_id == group_id
                &&& observation.local_node_id == metrics.id
                &&& observation.leader_hint == metrics.current_leader
                &&& observation.flushed_vote == metrics.vote
                &&& active_state(metrics.state) == Some(observation.server_state)
                &&& observation.effective_membership@ == membership::observed(
                    metrics.membership_config@,
                )
                &&& observation.committed_membership@ == membership::observed(
                    metrics.committed_membership_config@,
                )
                &&& observation.local_membership_role == role_in(
                    metrics.id,
                    membership::observed(metrics.membership_config@),
                )
            },
            Err(closed) => active_state(metrics.state) is None && closed.group() == group_id,
        },
{
    let server_state = match normalize_server_state(group_id, metrics.state) {
        Ok(server_state) => server_state,
        Err(closed) => {
            return Err(closed);
        },
    };
    let effective_membership = membership::normalize_membership(&metrics.membership_config);
    let local_membership_role = local_membership_role(metrics.id, &effective_membership);
    Ok(
        GroupObservation {
            group_id,
            local_node_id: metrics.id,
            local_membership_role,
            server_state,
            leader_hint: metrics.current_leader,
            flushed_vote: metrics.vote,
            effective_membership,
            committed_membership: membership::normalize_membership(
                &metrics.committed_membership_config,
            ),
        },
    )
}

/// The roles of a node exclude one another: in what is observed of a stored membership, no voter is
/// a learner, and a node that is neither stands in no configuration and has no address.
pub proof fn law_observed_roles_are_exclusive(
    node: NodeId,
    stored: membership::StoredMembershipView,
)
    ensures
        ({
            let seen = membership::observed(stored);
            &&& !(seen.has_voter(node) && seen.learner_ids.contains(node))
            &&& role_in(node, seen) == LocalMembershipRole::NotMember ==> !stored.nodes.contains_key(
                node,
            ) && !membership::votes(stored.voter_configs, node)
        }),
{
}

/// A server is observed exactly until it has ended, under its own name for its state.
pub proof fn law_states_are_observed_until_the_end(
    group_id: GroupId,
    state: RaftServerState,
    normalized: Result<GroupServerState, ObservationClosed>,
)
    requires
        call_ensures(normalize_server_state, (group_id, state), normalized),
    ensures
        normalized is Err <==> state is Shutdown,
        normalized is Err ==> normalized->Err_0.group() == group_id,
        state is Learner ==> normalized->Ok_0 is Learner,
        state is Follower ==> normalized->Ok_0 is Follower,
        state is Candidate ==> normalized->Ok_0 is Candidate,
        state is Leader ==> normalized->Ok_0 is Leader,
{
}

/// An observation says what the server reported: vote, leader, both memberships and state; the role
/// comes from the effective membership alone, and a vote in any of its configurations counts before
/// a place among its learners.
pub proof fn law_observations_report_the_server(
    group_id: GroupId,
    metrics: ServerMetrics,
    normalized: Result<GroupObservation, ObservationClosed>,
    i: int,
)
    requires
        call_ensures(normalize_server_metrics, (group_id, &metrics), normalized),
    ensures
        normalized is Err <==> metrics.state is Shutdown,
        normalized is Ok ==> {
            let seen = normalized->Ok_0;
            &&& seen.group_id == group_id && seen.local_node_id == metrics.id
            &&& seen.leader_hint == metrics.current_leader
            &&& seen.flushed_vote.term == metrics.vote.term
            &&& seen.flushed_vote.node_id == metrics.vote.node_id
            &&& seen.flushed_vote.committed == metrics.vote.committed
            &&& seen.effective_membership@ == membership::observed(metrics.membership_config@)
            &&& seen.committed_membership@ == membership::observed(
                metrics.committed_membership_config@,
            )
            &&& seen.effective_membership.log_id == metrics.membership_config.log_id
            &&& seen.committed_membership.log_id == metrics.committed_membership_config.log_id
            &&& seen.effective_membership@.voter_configs == metrics.membership_config@.voter_configs
            &&& seen.committed_membership@.voter_configs
                == metrics.committed_membership_config@.voter_configs
            &&& metrics.state is Leader <==> seen.server_state is Leader
            &&& metrics.state is Follower <==> seen.server_state is Follower
            &&& metrics.state is Candidate <==> seen.server_state is Candidate
            &&& 0 <= i < seen.effective_membership@.voter_configs.len()
                && seen.effective_membership@.voter_configs[i].contains(metrics.id)
                ==> seen.local_membership_role is Voter
            &&& seen.local_membership_role is Voter ==> !seen.effective_membership@.learner_ids.contains(
                metrics.id,
            )
            &&& seen.effective_membership@.learner_ids.contains(metrics.id)
                ==> seen.local_membership_role is Learner
            &&& seen.local_membership_role is Learner
                ==> seen.effective_membership@.learner_ids.contains(metrics.id)
        },
{
}

/// Whether a node is a voter, a learner or no member is decided by its places in the membership.
pub proof fn law_roles_follow_the_membership(
    node: NodeId,
    membership: MembershipObservation,
    role: LocalMembershipRole,
)
    requires
        call_ensures(local_membership_role, (node, &membership), role),
    ensures
        role is Voter <==> exists|i: int|
            0 <= i < membership@.voter_configs.len()
                && #[trigger] membership@.voter_configs[i].contains(node),
        role is Learner <==> !(role is Voter) && membership.learner_ids@.contains(node),
{
}

/// Votes and states are shown with every part of them, under names that tell them apart.
pub proof fn law_votes_and_states_are_shown_whole(
    vote: VoteObservation,
    out: &mut String,
    state: GroupServerState,
    name: &'static str,
    other: GroupServerState,
    other_name: &'static str,
)
    requires
        call_ensures(VoteObservation::append_debug, (&vote, out), ()),
        call_ensures(GroupServerState::name, (&state,), name),
        call_ensures(GroupServerState::name, (&other,), other_name),
    ensures
        final(out)@ == old(out)@ + ("VoteObservation { term: "@ + text::decimal(vote.term as nat)
            + ", node_id: "@ + text::decimal(vote.node_id as nat) + ", committed: "@ + (
        if vote.committed {
            "true"@
        } else {
            "false"@
        }) + " }"@),
        name@ == other_name@ ==> state == other,
        state is Leader ==> name@ == "Leader"@,
        state is Learner ==> name@ == "Learner"@,
        state is Follower ==> name@ == "Follower"@,
        state is Candidate ==> name@ == "Candidate"@,
{
    reveal_strlit("Leader");
    reveal_strlit("Learner");
    reveal_strlit("Follower");
    reveal_strlit("Candidate");
    assert("Leader"@.len() == 6 && "Learner"@.len() == 7 && "Follower"@.len() == 8
        && "Candidate"@.len() == 9);
}

/// A vote has the term, the node and the commitment that it was made with.
pub proof fn law_votes_keep_their_parts(
    term: u64,
    node_id: NodeId,
    committed: bool,
    vote: VoteObservation,
)
    requires
        call_ensures(VoteObservation::new, (term, node_id, committed), vote),
    ensures
        vote.term == term && vote.node_id == node_id && vote.committed == committed,
{
}

} // verus!
