//! Taking a best-effort control sample of a group that the local node leads.
//!
//! A sample is taken in steps, each of which takes what was read and hands back the next step:
//! the first state point, the read index, the metrics, the second state point, and the ages.

use crate::collections;
use crate::control::GroupControlSample;
use crate::control::GroupControlSampleError;
use crate::control::TargetQualification;
use crate::log_id::ObservedLogId;
use crate::membership;
use crate::membership::MembershipObservation;
use crate::membership::MembershipView;
use crate::membership::StoredMembership;
use crate::observation;
use crate::observation::GroupServerState;
use crate::observation::RaftServerState;
use crate::observation::VoteObservation;
use crate::span::TimeSpan;
use crate::text;
use crate::GroupId;
use crate::NodeId;
use std::collections::BTreeMap;
use std::collections::BTreeSet;
use vstd::prelude::*;
use vstd::string::*;

verus! {

/// One consistent read of the Raft state.
#[derive(Debug)]
pub struct StatePoint {
    pub server_state: GroupServerState,
    pub effective_membership: MembershipObservation,
    pub committed_membership: MembershipObservation,
    pub local_committed: Option<ObservedLogId>,
}

/// The Raft state as it was read.
#[derive(Debug)]
pub struct RawState {
    pub server_state: RaftServerState,
    pub effective: StoredMembership,
    pub committed: StoredMembership,
    pub local_committed: Option<ObservedLogId>,
}

/// Why the read index could not be had.
#[derive(Debug)]
pub enum ReadIndexError {
    /// Another node leads.
    ForwardToLeader { leader_id: Option<NodeId> },
    /// Anything else, with its message.
    Failed { reason: String },
}

/// What the metrics of a group say.
#[derive(Debug)]
pub struct ControlMetrics {
    pub state: RaftServerState,
    pub current_leader: Option<NodeId>,
    pub vote: VoteObservation,
    pub membership_config: StoredMembership,
    pub committed_membership_config: StoredMembership,
    /// The last log identity that each follower is known to hold, where this node leads.
    pub replication: Option<BTreeMap<NodeId, Option<ObservedLogId>>>,
}

/// How long ago each follower acknowledged last, where this node leads.
pub type AckAges = Option<BTreeMap<NodeId, Option<TimeSpan>>>;

/// The last acknowledgement of `target`, where there is one.
pub open spec fn ack_of(acks: AckAges, target: NodeId) -> Option<TimeSpan> {
    match acks {
        Some(ages) => if ages@.contains_key(target) {
            ages@[target]
        } else {
            None
        },
        None => None,
    }
}

/// The log identity that `target` is known to hold, where there is one.
pub open spec fn matched_of(
    replication: Option<BTreeMap<NodeId, Option<ObservedLogId>>>,
    target: NodeId,
) -> Option<ObservedLogId> {
    match replication {
        Some(matched) => if matched@.contains_key(target) {
            matched@[target]
        } else {
            None
        },
        None => None,
    }
}

/// Whether `matched` covers `required`: an entry of the same leader, at or after it.
pub open spec fn covers(matched: ObservedLogId, required: ObservedLogId) -> bool {
    &&& matched.term == required.term
    &&& matched.node_id == required.node_id
    &&& matched.index >= required.index
}

/// How a follower qualifies as a transfer target: it has to have acknowledged within the limit, and
/// to hold what is committed locally.
pub open spec fn qualification(
    ack: Option<TimeSpan>,
    matched: Option<ObservedLogId>,
    local_committed: Option<ObservedLogId>,
    max_ack_age: TimeSpan,
) -> TargetQualification {
    match ack {
        None => TargetQualification::MissingAck,
        Some(age) => if max_ack_age.as_nanos() == 0 || age.as_nanos() >= max_ack_age.as_nanos() {
            TargetQualification::AckTooOld { age, max: max_ack_age }
        } else {
            match (local_committed, matched) {
                (None, _) => TargetQualification::MissingLocalCommitted,
                (Some(_), None) => TargetQualification::MissingMatched,
                (Some(required), Some(matched)) => if covers(matched, required) {
                    TargetQualification::Qualified { ack_age: age, matched }
                } else {
                    TargetQualification::Lagging { matched, required }
                },
            }
        },
    }
}

/// The qualifications of all voters: the local node is the source.
pub open spec fn qualifications(
    voters: Set<NodeId>,
    local_node_id: NodeId,
    acks: AckAges,
    replication: Option<BTreeMap<NodeId, Option<ObservedLogId>>>,
    local_committed: Option<ObservedLogId>,
    max_ack_age: TimeSpan,
) -> Map<NodeId, TargetQualification> {
    Map::new(
        |target: NodeId| voters.contains(target),
        |target: NodeId|
            if target == local_node_id {
                TargetQualification::Source
            } else {
                qualification(
                    ack_of(acks, target),
                    matched_of(replication, target),
                    local_committed,
                    max_ack_age,
                )
            },
    )
}

/// Whether `matched` covers `required`.
pub fn covers_log_id(matched: ObservedLogId, required: ObservedLogId) -> (covered: bool)
    ensures
        covered == covers(matched, required),
{
    matched.term == required.term && matched.node_id == required.node_id && matched.index
        >= required.index
}

/// Qualifies one follower.
pub fn classify_one_target(
    acks: &AckAges,
    replication: &Option<BTreeMap<NodeId, Option<ObservedLogId>>>,
    target: NodeId,
    local_committed: Option<ObservedLogId>,
    max_target_ack_age: TimeSpan,
) -> (classified: TargetQualification)
    ensures
        classified == qualification(
            ack_of(*acks, target),
            matched_of(*replication, target),
            local_committed,
            max_target_ack_age,
        ),
{
    let ack_age = match acks {
        None => {
            return TargetQualification::MissingAck;
        },
        Some(ages) => match ages.get(&target) {
            Some(Some(age)) => *age,
            _ => {
                return TargetQualification::MissingAck;
            },
        },
    };
    if max_target_ack_age.is_zero() || ack_age.at_least(&max_target_ack_age) {
        return TargetQualification::AckTooOld { age: ack_age, max: max_target_ack_age };
    }
    let required = match local_committed {
        None => {
            return TargetQualification::MissingLocalCommitted;
        },
        Some(required) => required,
    };
    let matched = match replication {
        None => {
            return TargetQualification::MissingMatched;
        },
        Some(positions) => match positions.get(&target) {
            Some(Some(matched)) => *matched,
            _ => {
                return TargetQualification::MissingMatched;
            },
        },
    };
    if covers_log_id(matched, required) {
        TargetQualification::Qualified { ack_age, matched }
    } else {
        TargetQualification::Lagging { matched, required }
    }
}

/// Qualifies every expected voter.
pub fn classify_target_qualifications(
    acks: &AckAges,
    replication: &Option<BTreeMap<NodeId, Option<ObservedLogId>>>,
    expected_voters: &BTreeSet<NodeId>,
    local_node_id: NodeId,
    local_committed: Option<ObservedLogId>,
    max_target_ack_age: TimeSpan,
) -> (classified: BTreeMap<NodeId, TargetQualification>)
    ensures
        classified@ == qualifications(
            expected_voters@,
            local_node_id,
            *acks,
            *replication,
            local_committed,
            max_target_ack_age,
        ),
{
    let voters = text::ascending_members(expected_voters);
    let mut classified: BTreeMap<NodeId, TargetQualification> = BTreeMap::new();
    let mut i: usize = 0;
    let ghost wanted = qualifications(
        expected_voters@,
        local_node_id,
        *acks,
        *replication,
        local_committed,
        max_target_ack_age,
    );
    assert(voters@.take(0).to_set() =~= Set::empty());
    while i < voters.len()
        invariant
            i <= voters.len(),
            voters@.to_set() == expected_voters@,
            wanted == qualifications(
                expected_voters@,
                local_node_id,
                *acks,
                *replication,
                local_committed,
                max_target_ack_age,
            ),
            classified@.dom() == voters@.take(i as int).to_set(),
            forall|k: NodeId| #[trigger] classified@.contains_key(k) ==> classified@[k] == wanted[k],
        decreases voters.len() - i,
    {
        let target: NodeId = voters[i];
        assert(voters@.to_set().contains(target));
        let qualified = if target == local_node_id {
            TargetQualification::Source
        } else {
            classify_one_target(acks, replication, target, local_committed, max_target_ack_age)
        };
        let ghost before = voters@.take(i as int);
        classified.insert(target, qualified);
        i += 1;
        proof {
            collections::lemma_push_to_set(before, target);
            assert(voters@.take(i as int) =~= before.push(target));
        }
    }
    assert(voters@.take(voters.len() as int) =~= voters@);
    assert(classified@.dom() =~= wanted.dom());
    assert(classified@ =~= wanted);
    classified
}

/// Where the identities of two state points differ first; `None` where they agree. What is
/// committed locally may move on between the two.
pub open spec fn state_difference(label: Seq<char>, first: StatePoint, second: StatePoint) -> Option<
    Seq<char>,
> {
    if first.server_state != second.server_state {
        Some(
            label + " server state differs: "@ + first.server_state.text() + " != "@
                + second.server_state.text(),
        )
    } else if first.effective_membership@ != second.effective_membership@ {
        Some(label + " effective membership differs"@)
    } else if first.committed_membership@ != second.committed_membership@ {
        Some(label + " committed membership differs"@)
    } else {
        None
    }
}

/// Where the metrics differ first from a state point; `None` where they agree.
pub open spec fn metrics_difference(
    state: StatePoint,
    metrics_state: GroupServerState,
    metrics_effective: MembershipView,
    metrics_committed: MembershipView,
) -> Option<Seq<char>> {
    if state.server_state != metrics_state {
        Some(
            "metrics server state differs: "@ + state.server_state.text() + " != "@
                + metrics_state.text(),
        )
    } else if state.effective_membership@ != metrics_effective {
        Some("metrics effective membership differs"@)
    } else if state.committed_membership@ != metrics_committed {
        Some("metrics committed membership differs"@)
    } else {
        None
    }
}

/// `error` says that the identity of `group_id` changed, for `reason`.
pub open spec fn is_inconsistency(
    error: GroupControlSampleError,
    group_id: GroupId,
    reason: Seq<char>,
) -> bool {
    error matches GroupControlSampleError::InconsistentIdentity { group_id: g, reason: r } && g
        == group_id && r@ == reason
}

/// Checks that two state points have the same identity.
pub fn ensure_state_identity_matches(
    group_id: GroupId,
    label: &str,
    first: &StatePoint,
    second: &StatePoint,
) -> (checked: Result<(), GroupControlSampleError>)
    ensures
        match checked {
            Ok(()) => state_difference(label@, *first, *second) is None,
            Err(error) => state_difference(label@, *first, *second) matches Some(reason)
                && is_inconsistency(error, group_id, reason),
        },
{
    let mut reason = label.to_owned();
    if first.server_state != second.server_state {
        reason.append(" server state differs: ");
        reason.append(first.server_state.name());
        reason.append(" != ");
        reason.append(second.server_state.name());
        return Err(GroupControlSampleError::InconsistentIdentity { group_id, reason });
    }
    if !first.effective_membership.same_as(&second.effective_membership) {
        reason.append(" effective membership differs");
        return Err(GroupControlSampleError::InconsistentIdentity { group_id, reason });
    }
    if !first.committed_membership.same_as(&second.committed_membership) {
        reason.append(" committed membership differs");
        return Err(GroupControlSampleError::InconsistentIdentity { group_id, reason });
    }
    Ok(())
}

/// Checks that the metrics have the identity of a state point.
pub fn ensure_metrics_identity_matches(
    group_id: GroupId,
    state: &StatePoint,
    metrics_state: GroupServerState,
    metrics_effective: &MembershipObservation,
    metrics_committed: &MembershipObservation,
) -> (checked: Result<(), GroupControlSampleError>)
    ensures
        match checked {
            Ok(()) => metrics_difference(
                *state,
                metrics_state,
                metrics_effective@,
                metrics_committed@,
            ) is None,
            Err(error) => metrics_difference(
                *state,
                metrics_state,
                metrics_effective@,
                metrics_committed@,
            ) matches Some(reason) && is_inconsistency(error, group_id, reason),
        },
{
    if state.server_state != metrics_state {
        let mut reason = "metrics server state differs: ".to_owned();
        reason.append(state.server_state.name());
        reason.append(" != ");
        reason.append(metrics_state.name());
        return Err(GroupControlSampleError::InconsistentIdentity { group_id, reason });
    }
    if !state.effective_membership.same_as(metrics_effective) {
        let reason = "metrics effective membership differs".to_owned();
        return Err(GroupControlSampleError::InconsistentIdentity { group_id, reason });
    }
    if !state.committed_membership.same_as(metrics_committed) {
        let reason = "metrics committed membership differs".to_owned();
        return Err(GroupControlSampleError::InconsistentIdentity { group_id, reason });
    }
    Ok(())
}

/// The membership is one configuration of exactly the expected voters, without learners.
pub open spec fn fixed_voters(membership: MembershipView, expected: Set<NodeId>) -> bool {
    &&& membership.voter_configs =~= seq![expected]
    &&& membership.learner_ids =~= Set::empty()
}

/// Whether the membership is one configuration of exactly the expected voters, without learners.
pub fn is_expected_fixed_voter_membership(
    membership: &MembershipObservation,
    expected_voters: &BTreeSet<NodeId>,
) -> (fixed: bool)
    ensures
        fixed == fixed_voters(membership@, expected_voters@),
{
    proof {
        if membership.voter_configs.len() == 1 {
            assert(membership@.voter_configs[0] == membership.voter_configs@[0]@);
        } else {
            assert(membership@.voter_configs.len() != 1);
        }
        if membership@.learner_ids =~= Set::<NodeId>::empty() {
            assert(membership.learner_ids@.is_empty());
        }
    }
    membership.voter_configs.len() == 1 && collections::same_set(
        &membership.voter_configs[0],
        expected_voters,
    ) && membership.learner_ids.is_empty()
}

/// Checks that both memberships are the expected fixed voter set.
pub fn ensure_expected_membership(
    group_id: GroupId,
    expected_voters: &BTreeSet<NodeId>,
    effective: &MembershipObservation,
    committed: &MembershipObservation,
) -> (checked: Result<(), GroupControlSampleError>)
    ensures
        checked is Ok <==> fixed_voters(effective@, expected_voters@) && fixed_voters(
            committed@,
            expected_voters@,
        ),
        checked matches Err(error) ==> {
            &&& error matches GroupControlSampleError::UnexpectedMembership {
                group_id: g,
                expected_voters: v,
                effective_membership: e,
                committed_membership: c,
            }
            &&& g == group_id
            &&& v@ == expected_voters@
            &&& e@ == effective@
            &&& c@ == committed@
        },
{
    if is_expected_fixed_voter_membership(effective, expected_voters)
        && is_expected_fixed_voter_membership(committed, expected_voters) {
        return Ok(());
    }
    Err(
        GroupControlSampleError::UnexpectedMembership {
            group_id,
            expected_voters: expected_voters.clone(),
            effective_membership: effective.clone(),
            committed_membership: committed.clone(),
        },
    )
}

/// What to sample, and how fresh it has to be.
#[derive(Debug)]
pub struct SampleRequest {
    pub group_id: GroupId,
    pub local_node_id: NodeId,
    pub expected_voters: Vec<NodeId>,
    pub max_sample_age: TimeSpan,
    pub max_target_ack_age: TimeSpan,
}

/// The first state point has been read; the read index comes next.
#[derive(Debug)]
pub struct FirstRead {
    pub request: SampleRequest,
    pub state0: StatePoint,
}

/// The read index is known; the metrics come next.
#[derive(Debug)]
pub struct Indexed {
    pub request: SampleRequest,
    pub state0: StatePoint,
    pub read_log_id: Option<ObservedLogId>,
}

/// The metrics are known; the second state point comes next.
#[derive(Debug)]
pub struct Measured {
    pub request: SampleRequest,
    pub state0: StatePoint,
    pub read_log_id: Option<ObservedLogId>,
    pub metrics: ControlMetrics,
}

/// Both state points have been read; the ages come last.
#[derive(Debug)]
pub struct SecondRead {
    pub request: SampleRequest,
    pub state0: StatePoint,
    pub read_log_id: Option<ObservedLogId>,
    pub metrics: ControlMetrics,
    pub state1: StatePoint,
}

/// What keeps a group from being sampled, once everything has been read.
pub enum SampleFault {
    Inconsistent(Seq<char>),
    Closed,
    NotLeader,
    UnexpectedMembership,
    TooOld,
}

/// `point` is what `raw` says, normalized.
pub open spec fn is_point_of(point: StatePoint, raw: RawState) -> bool {
    &&& observation::active_state(raw.server_state) == Some(point.server_state)
    &&& point.effective_membership@ == membership::observed(raw.effective@)
    &&& point.committed_membership@ == membership::observed(raw.committed@)
    &&& point.local_committed == raw.local_committed
}

/// Nothing could be read, or the Raft server has ended.
pub open spec fn is_closed(read: Option<RawState>) -> bool {
    read matches Some(raw) ==> raw.server_state is Shutdown
}

/// Normalizes a read of the Raft state; `None` stands for a server that could not be asked.
pub fn read_state_point(group_id: GroupId, read: Option<RawState>) -> (point: Result<
    StatePoint,
    GroupControlSampleError,
>)
    ensures
        point is Err <==> is_closed(read),
        match point {
            Ok(point) => is_point_of(point, read->0),
            Err(error) => error == (GroupControlSampleError::Closed { group_id }),
        },
{
    let raw = match read {
        Some(raw) => raw,
        None => {
            return Err(GroupControlSampleError::Closed { group_id });
        },
    };
    match observation::normalize_server_state(group_id, raw.server_state) {
        Ok(server_state) => Ok(
            StatePoint {
                server_state,
                effective_membership: membership::normalize_membership(&raw.effective),
                committed_membership: membership::normalize_membership(&raw.committed),
                local_committed: raw.local_committed,
            },
        ),
        Err(_) => Err(GroupControlSampleError::Closed { group_id }),
    }
}

impl SampleRequest {
    /// Takes the first state point.
    pub fn first_state(self, read: Option<RawState>) -> (next: Result<
        FirstRead,
        GroupControlSampleError,
    >)
        ensures
            next is Err <==> is_closed(read),
            match next {
                Ok(next) => next.request == self && is_point_of(next.state0, read->0),
                Err(error) => error == (GroupControlSampleError::Closed {
                    group_id: self.group_id,
                }),
            },
    {
        match read_state_point(self.group_id, read) {
            Ok(state0) => Ok(FirstRead { request: self, state0 }),
            Err(error) => Err(error),
        }
    }
}

impl FirstRead {
    /// Takes the read index.
    pub fn read_index(self, index: Result<Option<ObservedLogId>, ReadIndexError>) -> (next: Result<
        Indexed,
        GroupControlSampleError,
    >)
        ensures
            match index {
                Ok(read_log_id) => next == Ok::<Indexed, GroupControlSampleError>(
                    Indexed { request: self.request, state0: self.state0, read_log_id },
                ),
                Err(ReadIndexError::ForwardToLeader { leader_id }) => next == Err::<
                    Indexed,
                    GroupControlSampleError,
                >(
                    GroupControlSampleError::NotLeader {
                        group_id: self.request.group_id,
                        local_node_id: self.request.local_node_id,
                        leader_hint: leader_id,
                    },
                ),
                Err(ReadIndexError::Failed { reason }) => next == Err::<
                    Indexed,
                    GroupControlSampleError,
                >(
                    GroupControlSampleError::ReadIndexFailed {
                        group_id: self.request.group_id,
                        reason,
                    },
                ),
            },
    {
        match index {
            Ok(read_log_id) => Ok(
                Indexed { request: self.request, state0: self.state0, read_log_id },
            ),
            Err(ReadIndexError::ForwardToLeader { leader_id }) => Err(
                GroupControlSampleError::NotLeader {
                    group_id: self.request.group_id,
                    local_node_id: self.request.local_node_id,
                    leader_hint: leader_id,
                },
            ),
            Err(ReadIndexError::Failed { reason }) => Err(
                GroupControlSampleError::ReadIndexFailed {
                    group_id: self.request.group_id,
                    reason,
                },
            ),
        }
    }
}

impl Indexed {
    /// Takes the metrics; `None` stands for a Raft core that no longer runs.
    pub fn metrics(self, metrics: Option<ControlMetrics>) -> (next: Result<
        Measured,
        GroupControlSampleError,
    >)
        ensures
            match metrics {
                Some(metrics) => next == Ok::<Measured, GroupControlSampleError>(
                    Measured {
                        request: self.request,
                        state0: self.state0,
                        read_log_id: self.read_log_id,
                        metrics,
                    },
                ),
                None => next == Err::<Measured, GroupControlSampleError>(
                    GroupControlSampleError::Closed { group_id: self.request.group_id },
                ),
            },
    {
        match metrics {
            Some(metrics) => Ok(
                Measured {
                    request: self.request,
                    state0: self.state0,
                    read_log_id: self.read_log_id,
                    metrics,
                },
            ),
            None => Err(GroupControlSampleError::Closed { group_id: self.request.group_id }),
        }
    }
}

impl Measured {
    /// Takes the second state point.
    pub fn second_state(self, read: Option<RawState>) -> (next: Result<
        SecondRead,
        GroupControlSampleError,
    >)
        ensures
            next is Err <==> is_closed(read),
            match next {
                Ok(next) => {
                    &&& next.request == self.request
                    &&& next.state0 == self.state0
                    &&& next.read_log_id == self.read_log_id
                    &&& next.metrics == self.metrics
                    &&& is_point_of(next.state1, read->0)
                },
                Err(error) => error == (GroupControlSampleError::Closed {
                    group_id: self.request.group_id,
                }),
            },
    {
        match read_state_point(self.request.group_id, read) {
            Ok(state1) => Ok(
                SecondRead {
                    request: self.request,
                    state0: self.state0,
                    read_log_id: self.read_log_id,
                    metrics: self.metrics,
                    state1,
                },
            ),
            Err(error) => Err(error),
        }
    }
}

impl SecondRead {
    /// The voters that the caller expects.
    pub open spec fn voters(self) -> Set<NodeId> {
        self.request.expected_voters@.to_set()
    }

    /// What keeps the group from being sampled: the two points differ, the server has ended, the
    /// metrics differ from the points, this node does not lead, its vote is another one's or not
    /// committed, the membership is not the expected one, or reading took too long. The first of
    /// these counts.
    pub open spec fn fault(self, elapsed: TimeSpan) -> Option<SampleFault> {
        let local = self.request.local_node_id;
        let between_points = state_difference("point reads"@, self.state0, self.state1);
        let active = observation::active_state(self.metrics.state);
        let to_metrics = metrics_difference(
            self.state1,
            active->0,
            membership::observed(self.metrics.membership_config@),
            membership::observed(self.metrics.committed_membership_config@),
        );
        if between_points is Some {
            Some(SampleFault::Inconsistent(between_points->0))
        } else if active is None {
            Some(SampleFault::Closed)
        } else if to_metrics is Some {
            Some(SampleFault::Inconsistent(to_metrics->0))
        } else if active != Some(GroupServerState::Leader) || self.metrics.current_leader != Some(
            local,
        ) {
            Some(SampleFault::NotLeader)
        } else if self.metrics.vote.node_id != local || !self.metrics.vote.committed {
            Some(
                SampleFault::Inconsistent(
                    "flushed vote "@ + self.metrics.vote.text() + " does not match local leader "@
                        + text::decimal(local as nat),
                ),
            )
        } else if !(fixed_voters(self.state1.effective_membership@, self.voters()) && fixed_voters(
            self.state1.committed_membership@,
            self.voters(),
        )) {
            Some(SampleFault::UnexpectedMembership)
        } else if self.request.max_sample_age.as_nanos() == 0 || elapsed.as_nanos()
            >= self.request.max_sample_age.as_nanos() {
            Some(SampleFault::TooOld)
        } else {
            None
        }
    }

    /// `error` reports `fault`.
    pub open spec fn reports(
        self,
        error: GroupControlSampleError,
        fault: SampleFault,
        elapsed: TimeSpan,
    ) -> bool {
        let group_id = self.request.group_id;
        match fault {
            SampleFault::Inconsistent(reason) => is_inconsistency(error, group_id, reason),
            SampleFault::Closed => error == (GroupControlSampleError::Closed { group_id }),
            SampleFault::NotLeader => error == (GroupControlSampleError::NotLeader {
                group_id,
                local_node_id: self.request.local_node_id,
                leader_hint: self.metrics.current_leader,
            }),
            SampleFault::UnexpectedMembership => {
                &&& error matches GroupControlSampleError::UnexpectedMembership {
                    group_id: g,
                    expected_voters: v,
                    effective_membership: e,
                    committed_membership: c,
                }
                &&& g == group_id
                &&& v@ == self.voters()
                &&& e@ == self.state1.effective_membership@
                &&& c@ == self.state1.committed_membership@
            },
            SampleFault::TooOld => error == (GroupControlSampleError::SampleTooOld {
                group_id,
                elapsed,
                max: self.request.max_sample_age,
            }),
        }
    }

    /// `sample` holds what was read.
    pub open spec fn is_sample(
        self,
        sample: GroupControlSample,
        acks: AckAges,
        elapsed: TimeSpan,
    ) -> bool {
        &&& sample.group_id == self.request.group_id
        &&& sample.local_node_id == self.request.local_node_id
        &&& sample.leader_id == self.request.local_node_id
        &&& sample.server_state is Leader
        &&& sample.flushed_vote == self.metrics.vote
        &&& sample.effective_membership@ == self.state1.effective_membership@
        &&& sample.committed_membership@ == self.state1.committed_membership@
        &&& sample.read_log_id == self.read_log_id
        &&& sample.local_committed == self.state1.local_committed
        &&& sample.target_qualifications@ == qualifications(
            self.voters(),
            self.request.local_node_id,
            acks,
            self.metrics.replication,
            self.state1.local_committed,
            self.request.max_target_ack_age,
        )
        &&& sample.sample_age == elapsed
    }

    /// Takes the acknowledgement ages and the time that reading took, and judges what was read.
    pub fn finish(self, acks: AckAges, elapsed: TimeSpan) -> (sampled: Result<
        GroupControlSample,
        GroupControlSampleError,
    >)
        ensures
            match sampled {
                Ok(sample) => self.fault(elapsed) is None && self.is_sample(sample, acks, elapsed),
                Err(error) => self.fault(elapsed) matches Some(fault) && self.reports(
                    error,
                    fault,
                    elapsed,
                ),
            },
    {
        let group_id = self.request.group_id;
        let local_node_id = self.request.local_node_id;
        match ensure_state_identity_matches(group_id, "point reads", &self.state0, &self.state1) {
            Ok(()) => {},
            Err(error) => {
                return Err(error);
            },
        }
        let metrics_state = match observation::normalize_server_state(group_id, self.metrics.state) {
            Ok(metrics_state) => metrics_state,
            Err(_) => {
                return Err(GroupControlSampleError::Closed { group_id });
            },
        };
        let metrics_effective = membership::normalize_membership(&self.metrics.membership_config);
        let metrics_committed = membership::normalize_membership(
            &self.metrics.committed_membership_config,
        );
        match ensure_metrics_identity_matches(
            group_id,
            &self.state1,
            metrics_state,
            &metrics_effective,
            &metrics_committed,
        ) {
            Ok(()) => {},
            Err(error) => {
                return Err(error);
            },
        }
        let leads = match self.metrics.current_leader {
            Some(leader) => leader == local_node_id,
            None => false,
        };
        if metrics_state != GroupServerState::Leader || !leads {
            return Err(
                GroupControlSampleError::NotLeader {
                    group_id,
                    local_node_id,
                    leader_hint: self.metrics.current_leader,
                },
            );
        }
        let vote = self.metrics.vote;
        if vote.node_id != local_node_id || !vote.committed {
            let mut reason = "flushed vote ".to_owned();
            vote.append_debug(&mut reason);
            reason.append(" does not match local leader ");
            text::append_u64(&mut reason, local_node_id);
            return Err(GroupControlSampleError::InconsistentIdentity { group_id, reason });
        }
        let expected_voters = collections::set_of(&self.request.expected_voters);
        match ensure_expected_membership(
            group_id,
            &expected_voters,
            &self.state1.effective_membership,
            &self.state1.committed_membership,
        ) {
            Ok(()) => {},
            Err(error) => {
                return Err(error);
            },
        }
        let target_qualifications = classify_target_qualifications(
            &acks,
            &self.metrics.replication,
            &expected_voters,
            local_node_id,
            self.state1.local_committed,
            self.request.max_target_ack_age,
        );
        if self.request.max_sample_age.is_zero() || elapsed.at_least(&self.request.max_sample_age) {
            return Err(
                GroupControlSampleError::SampleTooOld {
                    group_id,
                    elapsed,
                    max: self.request.max_sample_age,
                },
            );
        }
        Ok(
            GroupControlSample {
                group_id,
                local_node_id,
                leader_id: local_node_id,
                server_state: metrics_state,
                flushed_vote: vote,
                effective_membership: self.state1.effective_membership,
                committed_membership: self.state1.committed_membership,
                read_log_id: self.read_log_id,
                local_committed: self.state1.local_committed,
                target_qualifications,
                sample_age: elapsed,
            },
        )
    }
}

/// A sample is of a confirmed leader: the local node leads under its own committed vote, both
/// memberships are the expected voters and nobody else, the sample is younger than its limit, and
/// it qualifies exactly the expected voters, the leader as the source.
pub proof fn law_sample_is_of_a_confirmed_leader(
    read: SecondRead,
    acks: AckAges,
    elapsed: TimeSpan,
    sample: GroupControlSample,
)
    requires
        read.fault(elapsed) is None,
        read.is_sample(sample, acks, elapsed),
    ensures
        sample.leader_id == sample.local_node_id,
        sample.server_state is Leader,
        sample.flushed_vote.node_id == sample.leader_id && sample.flushed_vote.committed,
        fixed_voters(sample.effective_membership@, read.voters()),
        fixed_voters(sample.committed_membership@, read.voters()),
        sample.sample_age.as_nanos() < read.request.max_sample_age.as_nanos(),
        sample.target_qualifications@.dom() == read.voters(),
        read.voters().contains(sample.leader_id) ==> sample.qualification_of(sample.leader_id)
            == Some(TargetQualification::Source),
{
    assert(sample.target_qualifications@.dom() =~= read.voters());
}

/// A follower is qualified exactly where it acknowledged within the limit and is known to hold an
/// entry of the term and the leader of the locally committed one, at or after its index. It lags
/// exactly where it acknowledged in time and both entries are known, but that does not hold. An
/// acknowledgement as old as the limit is too old.
pub proof fn law_followers_qualify_by_what_they_hold(
    acks: AckAges,
    replication: Option<BTreeMap<NodeId, Option<ObservedLogId>>>,
    target: NodeId,
    local_committed: Option<ObservedLogId>,
    limit: TimeSpan,
    classified: TargetQualification,
)
    requires
        call_ensures(
            classify_one_target,
            (&acks, &replication, target, local_committed, limit),
            classified,
        ),
    ensures
        ({
            let acked = acks is Some && acks->0@.contains_key(target) && acks->0@[target] is Some;
            let age = acks->0@[target]->0;
            let in_time = acked && age.as_nanos() < limit.as_nanos();
            let known = replication is Some && replication->0@.contains_key(target)
                && replication->0@[target] is Some;
            let matched = replication->0@[target]->0;
            let required = local_committed->0;
            let holds = matched.term == required.term && matched.node_id == required.node_id
                && matched.index >= required.index;
            &&& classified is Qualified <==> in_time && known && local_committed is Some && holds
            &&& classified is Lagging <==> in_time && known && local_committed is Some && !holds
            &&& classified is MissingAck <==> !acked
            &&& classified is AckTooOld <==> acked && !in_time
            &&& classified is MissingLocalCommitted <==> in_time && local_committed is None
            &&& classified is MissingMatched <==> in_time && local_committed is Some && !known
            &&& classified matches TargetQualification::Qualified { ack_age, matched: m } ==> ack_age
                == age && m == matched
            &&& classified matches TargetQualification::Lagging { matched: m, required: r } ==> m
                == matched && r == required
            &&& classified matches TargetQualification::AckTooOld { age: a, max } ==> a == age && max
                == limit
        }),
{
}

/// An entry covers another one exactly where it has its term and leader and stands at or after it.
pub proof fn law_covering_needs_the_same_leader(
    matched: ObservedLogId,
    required: ObservedLogId,
    covered: bool,
)
    requires
        call_ensures(covers_log_id, (matched, required), covered),
    ensures
        covered <==> matched.term == required.term && matched.node_id == required.node_id
            && matched.index >= required.index,
{
}

/// Of the expected voters each is classified by itself, the local node as the source, and nobody
/// else is.
pub proof fn law_every_voter_is_classified(
    acks: AckAges,
    replication: Option<BTreeMap<NodeId, Option<ObservedLogId>>>,
    voters: BTreeSet<NodeId>,
    local_node_id: NodeId,
    local_committed: Option<ObservedLogId>,
    limit: TimeSpan,
    classified: BTreeMap<NodeId, TargetQualification>,
    target: NodeId,
    alone: TargetQualification,
)
    requires
        call_ensures(
            classify_target_qualifications,
            (&acks, &replication, &voters, local_node_id, local_committed, limit),
            classified,
        ),
        call_ensures(
            classify_one_target,
            (&acks, &replication, target, local_committed, limit),
            alone,
        ),
    ensures
        classified@.contains_key(target) <==> voters@.contains(target),
        voters@.contains(target) && target == local_node_id ==> classified@[target] is Source,
        voters@.contains(target) && target != local_node_id ==> classified@[target] == alone,
{
}

/// What was read makes a sample exactly where both reads agree in state and memberships, the
/// metrics agree with them, the local node leads under its own committed vote, both memberships are
/// one configuration of exactly the expected voters without learners, and reading took less than
/// the limit. The sample says what was read last, and classifies each voter by it.
pub proof fn law_samples_need_agreement(
    read: SecondRead,
    acks: AckAges,
    elapsed: TimeSpan,
    sampled: Result<GroupControlSample, GroupControlSampleError>,
    target: NodeId,
    alone: TargetQualification,
)
    requires
        call_ensures(SecondRead::finish, (read, acks, elapsed), sampled),
        call_ensures(
            classify_one_target,
            (
                &acks,
                &read.metrics.replication,
                target,
                read.state1.local_committed,
                read.request.max_target_ack_age,
            ),
            alone,
        ),
    ensures
        ({
            let local = read.request.local_node_id;
            let effective = read.state1.effective_membership@;
            let committed = read.state1.committed_membership@;
            let voters = read.request.expected_voters@.to_set();
            let points = read.state0.server_state == read.state1.server_state
                && read.state0.effective_membership@ == effective
                && read.state0.committed_membership@ == committed;
            let ended = read.metrics.state is Shutdown;
            let agrees = (read.metrics.state is Leader <==> read.state1.server_state is Leader) && (
            read.metrics.state is Follower <==> read.state1.server_state is Follower) && (
            read.metrics.state is Candidate <==> read.state1.server_state is Candidate) && (
            read.metrics.state is Learner <==> read.state1.server_state is Learner)
                && membership::observed(read.metrics.membership_config@) == effective
                && membership::observed(read.metrics.committed_membership_config@) == committed;
            let leads = read.metrics.state is Leader && read.metrics.current_leader == Some(local);
            let votes = read.metrics.vote.node_id == local && read.metrics.vote.committed;
            let fixed = effective.voter_configs.len() == 1 && effective.voter_configs[0] == voters
                && effective.learner_ids == Set::<NodeId>::empty() && committed.voter_configs.len()
                == 1 && committed.voter_configs[0] == voters && committed.learner_ids == Set::<
                NodeId,
            >::empty();
            let young = elapsed.as_nanos() < read.request.max_sample_age.as_nanos();
            &&& sampled is Ok <==> points && !ended && agrees && leads && votes && fixed && young
            &&& !points ==> sampled->Err_0 is InconsistentIdentity
            &&& points && ended ==> sampled->Err_0 is Closed
            &&& points && !ended && !agrees ==> sampled->Err_0 is InconsistentIdentity
            &&& points && !ended && agrees && !leads ==> (sampled
                matches Err(GroupControlSampleError::NotLeader { group_id, local_node_id, leader_hint })
                && group_id == read.request.group_id && local_node_id == local && leader_hint
                == read.metrics.current_leader)
            &&& points && !ended && agrees && leads && !votes
                ==> sampled->Err_0 is InconsistentIdentity
            &&& points && !ended && agrees && leads && votes && !fixed
                ==> sampled->Err_0 is UnexpectedMembership
            &&& points && !ended && agrees && leads && votes && fixed && !young ==> (sampled
                matches Err(GroupControlSampleError::SampleTooOld { group_id, elapsed: e, max })
                && group_id == read.request.group_id && e == elapsed && max
                == read.request.max_sample_age)
        }),
        sampled is Ok ==> {
            let sample = sampled->Ok_0;
            &&& sample.group_id == read.request.group_id
            &&& sample.local_node_id == read.request.local_node_id
            &&& sample.leader_id == read.request.local_node_id
            &&& sample.server_state is Leader
            &&& sample.flushed_vote.term == read.metrics.vote.term
            &&& sample.flushed_vote.node_id == read.metrics.vote.node_id
            &&& sample.flushed_vote.committed == read.metrics.vote.committed
            &&& sample.effective_membership@ == read.state1.effective_membership@
            &&& sample.committed_membership@ == read.state1.committed_membership@
            &&& sample.read_log_id == read.read_log_id
            &&& sample.local_committed == read.state1.local_committed
            &&& sample.sample_age == elapsed
            &&& sample.target_qualifications@.contains_key(target)
                <==> read.request.expected_voters@.contains(target)
            &&& read.request.expected_voters@.contains(target) && target
                == read.request.local_node_id ==> sample.target_qualifications@[target] is Source
            &&& read.request.expected_voters@.contains(target) && target
                != read.request.local_node_id ==> sample.target_qualifications@[target] == alone
        },
{
    let effective = read.state1.effective_membership@;
    let committed = read.state1.committed_membership@;
    let voters = read.request.expected_voters@.to_set();
    assert(effective.voter_configs.len() == 1 && effective.voter_configs[0] == voters
        <==> effective.voter_configs =~= seq![voters]);
    assert(committed.voter_configs.len() == 1 && committed.voter_configs[0] == voters
        <==> committed.voter_configs =~= seq![voters]);
    assert(voters.contains(target) <==> read.request.expected_voters@.contains(target));
}

/// A state point is to be had exactly of a server that could be asked and has not ended, and says
/// what was read.
pub proof fn law_state_points_say_what_was_read(
    group_id: GroupId,
    read: Option<RawState>,
    point: Result<StatePoint, GroupControlSampleError>,
)
    requires
        call_ensures(read_state_point, (group_id, read), point),
    ensures
        point is Ok <==> read is Some && !(read->0.server_state is Shutdown),
        point is Err ==> point->Err_0 == (GroupControlSampleError::Closed { group_id }),
        point is Ok ==> {
            &&& read->0.server_state is Leader <==> point->Ok_0.server_state is Leader
            &&& read->0.server_state is Follower <==> point->Ok_0.server_state is Follower
            &&& read->0.server_state is Candidate <==> point->Ok_0.server_state is Candidate
            &&& point->Ok_0.local_committed == read->0.local_committed
            &&& point->Ok_0.effective_membership@ == membership::observed(read->0.effective@)
            &&& point->Ok_0.committed_membership@ == membership::observed(read->0.committed@)
            &&& point->Ok_0.effective_membership@.log_id == read->0.effective@.log_id
            &&& point->Ok_0.effective_membership@.voter_configs == read->0.effective@.voter_configs
            &&& point->Ok_0.committed_membership@.log_id == read->0.committed@.log_id
            &&& point->Ok_0.committed_membership@.voter_configs == read->0.committed@.voter_configs
        },
{
}

/// The steps of a sample hand on what was read before, and what keeps one from going on is told: a
/// server that has ended, another leader, or a failed read.
pub proof fn law_sampling_keeps_what_was_read(
    request: SampleRequest,
    read: Option<RawState>,
    first: Result<FirstRead, GroupControlSampleError>,
    index: Result<Option<ObservedLogId>, ReadIndexError>,
    indexed: Result<Indexed, GroupControlSampleError>,
    metrics: Option<ControlMetrics>,
    measured: Result<Measured, GroupControlSampleError>,
    again: Option<RawState>,
    second: Result<SecondRead, GroupControlSampleError>,
)
    requires
        call_ensures(SampleRequest::first_state, (request, read), first),
        first is Ok ==> call_ensures(FirstRead::read_index, (first->Ok_0, index), indexed),
        first is Ok && indexed is Ok ==> call_ensures(
            Indexed::metrics,
            (indexed->Ok_0, metrics),
            measured,
        ),
        first is Ok && indexed is Ok && measured is Ok ==> call_ensures(
            Measured::second_state,
            (measured->Ok_0, again),
            second,
        ),
    ensures
        first is Ok <==> read is Some && !(read->0.server_state is Shutdown),
        first is Err ==> first->Err_0 == (GroupControlSampleError::Closed {
            group_id: request.group_id,
        }),
        first is Ok ==> {
            &&& indexed is Ok <==> index is Ok
            &&& index matches Err(ReadIndexError::ForwardToLeader { leader_id }) ==> indexed->Err_0
                == (GroupControlSampleError::NotLeader {
                group_id: request.group_id,
                local_node_id: request.local_node_id,
                leader_hint: leader_id,
            })
            &&& index matches Err(ReadIndexError::Failed { reason }) ==> indexed->Err_0 == (
            GroupControlSampleError::ReadIndexFailed { group_id: request.group_id, reason })
        },
        first is Ok && indexed is Ok ==> {
            &&& measured is Ok <==> metrics is Some
            &&& measured is Err ==> measured->Err_0 == (GroupControlSampleError::Closed {
                group_id: request.group_id,
            })
        },
        first is Ok && indexed is Ok && measured is Ok ==> {
            &&& second is Ok <==> again is Some && !(again->0.server_state is Shutdown)
            &&& second is Ok ==> {
                &&& second->Ok_0.request == request
                &&& second->Ok_0.state0 == first->Ok_0.state0
                &&& second->Ok_0.read_log_id == index->Ok_0
                &&& second->Ok_0.metrics == metrics->0
                &&& second->Ok_0.state0.local_committed == read->0.local_committed
                &&& second->Ok_0.state1.local_committed == again->0.local_committed
            }
            &&& second is Err ==> second->Err_0 == (GroupControlSampleError::Closed {
                group_id: request.group_id,
            })
        },
{
}

/// A membership is the expected one exactly where it is one configuration of exactly the expected
/// voters, without learners; two state points match exactly where they agree in state and
/// memberships, whatever is committed.
pub proof fn law_identities_match_in_every_part(
    membership: MembershipObservation,
    voters: BTreeSet<NodeId>,
    fixed: bool,
    group_id: GroupId,
    label: &str,
    first: StatePoint,
    second: StatePoint,
    checked: Result<(), GroupControlSampleError>,
)
    requires
        call_ensures(is_expected_fixed_voter_membership, (&membership, &voters), fixed),
        call_ensures(ensure_state_identity_matches, (group_id, label, &first, &second), checked),
    ensures
        fixed <==> membership@.voter_configs.len() == 1 && membership@.voter_configs[0] == voters@
            && membership@.learner_ids == Set::<NodeId>::empty(),
        checked is Ok <==> first.server_state == second.server_state
            && first.effective_membership@ == second.effective_membership@
            && first.committed_membership@ == second.committed_membership@,
        checked is Err ==> (checked
            matches Err(GroupControlSampleError::InconsistentIdentity { group_id: g, reason }) && g
            == group_id),
{
    assert(membership@.voter_configs.len() == 1 && membership@.voter_configs[0] == voters@
        <==> membership@.voter_configs =~= seq![voters@]);
}

/// Metrics match a state point exactly where they agree with it in state and memberships; and both
/// memberships are checked against the expected voters, and told where one of them is not.
pub proof fn law_metrics_and_memberships_are_checked_whole(
    group_id: GroupId,
    state: StatePoint,
    metrics_state: GroupServerState,
    metrics_effective: MembershipObservation,
    metrics_committed: MembershipObservation,
    matched: Result<(), GroupControlSampleError>,
    voters: BTreeSet<NodeId>,
    expected: Result<(), GroupControlSampleError>,
)
    requires
        call_ensures(
            ensure_metrics_identity_matches,
            (group_id, &state, metrics_state, &metrics_effective, &metrics_committed),
            matched,
        ),
        call_ensures(
            ensure_expected_membership,
            (group_id, &voters, &metrics_effective, &metrics_committed),
            expected,
        ),
    ensures
        matched is Ok <==> state.server_state == metrics_state && state.effective_membership@
            == metrics_effective@ && state.committed_membership@ == metrics_committed@,
        matched is Err ==> matched->Err_0 is InconsistentIdentity,
        expected is Ok <==> {
            &&& metrics_effective@.voter_configs == seq![voters@]
            &&& metrics_effective@.learner_ids == Set::<NodeId>::empty()
            &&& metrics_committed@.voter_configs == seq![voters@]
            &&& metrics_committed@.learner_ids == Set::<NodeId>::empty()
        },
        expected is Err ==> (expected matches Err(
            GroupControlSampleError::UnexpectedMembership {
                group_id: g,
                expected_voters,
                effective_membership,
                committed_membership,
            },
        ) && g == group_id && expected_voters@ == voters@ && effective_membership@
            == metrics_effective@ && committed_membership@ == metrics_committed@),
{
}

/// The reason that an identity changed says which part differs first, with both states where that
/// is the state, and with the vote and the leader where the vote is another one's.
pub proof fn law_inconsistencies_say_what_differs(
    read: SecondRead,
    acks: AckAges,
    elapsed: TimeSpan,
    sampled: Result<GroupControlSample, GroupControlSampleError>,
)
    requires
        call_ensures(SecondRead::finish, (read, acks, elapsed), sampled),
        sampled matches Err(GroupControlSampleError::InconsistentIdentity { .. }),
    ensures
        ({
            let reason = sampled->Err_0->InconsistentIdentity_reason@;
            let first = read.state0;
            let second = read.state1;
            let states = first.server_state == second.server_state;
            let effective = first.effective_membership@ == second.effective_membership@;
            let committed = first.committed_membership@ == second.committed_membership@;
            let active = observation::active_state(read.metrics.state)->0;
            &&& sampled->Err_0->InconsistentIdentity_group_id == read.request.group_id
            &&& !states ==> reason == "point reads"@ + " server state differs: "@
                + first.server_state.text() + " != "@ + second.server_state.text()
            &&& states && !effective ==> reason == "point reads"@ + " effective membership differs"@
            &&& states && effective && !committed ==> reason == "point reads"@
                + " committed membership differs"@
            &&& states && effective && committed ==> {
                let state = second.server_state == active;
                let same_effective = second.effective_membership@ == membership::observed(
                    read.metrics.membership_config@,
                );
                let same_committed = second.committed_membership@ == membership::observed(
                    read.metrics.committed_membership_config@,
                );
                &&& !state ==> reason == "metrics server state differs: "@
                    + second.server_state.text() + " != "@ + active.text()
                &&& state && !same_effective ==> reason == "metrics effective membership differs"@
                &&& state && same_effective && !same_committed ==> reason
                    == "metrics committed membership differs"@
                &&& state && same_effective && same_committed ==> reason == "flushed vote "@
                    + read.metrics.vote.text() + " does not match local leader "@ + text::decimal(
                    read.request.local_node_id as nat,
                )
            }
        }),
{
}

} // verus!
