//! Group-control samples, transfer preconditions and layout observation.

use crate::log_id::ObservedLogId;
use crate::membership::MembershipObservation;
use crate::observation::GroupServerState;
use crate::observation::VoteObservation;
use crate::span::TimeSpan;
use crate::text;
use crate::GroupId;
use crate::NodeId;
use std::collections::BTreeMap;
use std::collections::BTreeSet;
use vstd::prelude::*;
use vstd::string::*;

verus! {

/// Best-effort sample of a group that the local node leads.
#[derive(Debug, Clone, PartialEq, Eq)]
pub struct GroupControlSample {
    pub group_id: GroupId,
    pub local_node_id: NodeId,
    pub leader_id: NodeId,
    pub server_state: GroupServerState,
    pub flushed_vote: VoteObservation,
    pub effective_membership: MembershipObservation,
    pub committed_membership: MembershipObservation,
    pub read_log_id: Option<ObservedLogId>,
    pub local_committed: Option<ObservedLogId>,
    pub target_qualifications: BTreeMap<NodeId, TargetQualification>,
    pub sample_age: TimeSpan,
}

/// How far a voter qualifies as the target of a leadership transfer.
#[derive(Debug, Clone, Copy, PartialEq, Eq, Structural)]
pub enum TargetQualification {
    Source,
    Qualified { ack_age: TimeSpan, matched: ObservedLogId },
    NotVoter,
    MissingAck,
    AckTooOld { age: TimeSpan, max: TimeSpan },
    MissingLocalCommitted,
    MissingMatched,
    Lagging { matched: ObservedLogId, required: ObservedLogId },
}

impl TargetQualification {
    /// The debugging text of the qualification.
    pub open spec fn text(self) -> Seq<char> {
        match self {
            TargetQualification::Source => "Source"@,
            TargetQualification::Qualified { ack_age, matched } => "Qualified { ack_age: "@
                + ack_age.text() + ", matched: "@ + matched.text() + " }"@,
            TargetQualification::NotVoter => "NotVoter"@,
            TargetQualification::MissingAck => "MissingAck"@,
            TargetQualification::AckTooOld { age, max } => "AckTooOld { age: "@ + age.text()
                + ", max: "@ + max.text() + " }"@,
            TargetQualification::MissingLocalCommitted => "MissingLocalCommitted"@,
            TargetQualification::MissingMatched => "MissingMatched"@,
            TargetQualification::Lagging { matched, required } => "Lagging { matched: "@
                + matched.text() + ", required: "@ + required.text() + " }"@,
        }
    }

    /// Appends the debugging text of the qualification.
    pub fn append_debug(&self, out: &mut String)
        ensures
            final(out)@ == old(out)@ + self.text(),
    {
        match self {
            TargetQualification::Source => out.append("Source"),
            TargetQualification::Qualified { ack_age, matched } => {
                out.append("Qualified { ack_age: ");
                ack_age.append_debug(out);
                out.append(", matched: ");
                matched.append_debug(out);
                out.append(" }");
            },
            TargetQualification::NotVoter => out.append("NotVoter"),
            TargetQualification::MissingAck => out.append("MissingAck"),
            TargetQualification::AckTooOld { age, max } => {
                out.append("AckTooOld { age: ");
                age.append_debug(out);
                out.append(", max: ");
                max.append_debug(out);
                out.append(" }");
            },
            TargetQualification::MissingLocalCommitted => out.append("MissingLocalCommitted"),
            TargetQualification::MissingMatched => out.append("MissingMatched"),
            TargetQualification::Lagging { matched, required } => {
                out.append("Lagging { matched: ");
                matched.append_debug(out);
                out.append(", required: ");
                required.append_debug(out);
                out.append(" }");
            },
        }
        assert(out@ =~= old(out)@ + self.text());
    }
}

/// The group, source and target of a transfer request.
#[derive(Debug, Clone, Copy, PartialEq, Eq, Structural)]
pub struct GroupControlRequestEcho {
    pub group_id: GroupId,
    pub source: NodeId,
    pub target: NodeId,
}

/// What a caller has observed, and expects to hold still when a transfer is triggered.
#[derive(Debug, Clone, PartialEq, Eq)]
pub struct GroupControlPreconditions {
    pub group_id: GroupId,
    pub expected_source: NodeId,
    pub observed_vote: VoteObservation,
    pub effective_membership: MembershipObservation,
    pub committed_membership: MembershipObservation,
    pub target: NodeId,
}

impl GroupControlPreconditions {
    /// The request that the preconditions belong to.
    pub open spec fn request(self) -> GroupControlRequestEcho {
        GroupControlRequestEcho {
            group_id: self.group_id,
            source: self.expected_source,
            target: self.target,
        }
    }

    /// The request that the preconditions belong to.
    pub fn echo(&self) -> (echo: GroupControlRequestEcho)
        ensures
            echo == self.request(),
    {
        GroupControlRequestEcho {
            group_id: self.group_id,
            source: self.expected_source,
            target: self.target,
        }
    }
}

/// Which of the two memberships changed.
#[derive(Debug, Clone, Copy, PartialEq, Eq, Structural)]
pub enum MembershipChangeKind {
    Effective,
    Committed,
}

impl MembershipChangeKind {
    /// The name of the kind.
    pub open spec fn text(self) -> Seq<char> {
        match self {
            MembershipChangeKind::Effective => "Effective"@,
            MembershipChangeKind::Committed => "Committed"@,
        }
    }
}

/// Why a transfer is rejected before it is triggered.
#[non_exhaustive]
#[derive(Debug, Clone, PartialEq, Eq)]
pub enum GroupControlPrecheckError {
    GroupChanged { expected: GroupId, actual: GroupId },
    SourceChanged { expected: NodeId, actual: NodeId },
    VoteChanged { expected: VoteObservation, actual: VoteObservation },
    MembershipChanged {
        kind: MembershipChangeKind,
        expected: MembershipObservation,
        actual: MembershipObservation,
    },
    TargetNotVoter { target: NodeId },
    TargetIsSource { target: NodeId },
    TargetNotRecentlyAcked { target: NodeId, qualification: TargetQualification },
    TargetProgressUnavailable { target: NodeId, qualification: TargetQualification },
    TargetLagging { target: NodeId, matched: ObservedLogId, required: ObservedLogId },
}

impl GroupControlPrecheckError {
    /// The message of the error.
    pub open spec fn text(self) -> Seq<char> {
        match self {
            GroupControlPrecheckError::GroupChanged { expected, actual } => {
                "group changed before trigger: "@ + text::decimal(expected as nat) + " != "@
                    + text::decimal(actual as nat)
            },
            GroupControlPrecheckError::SourceChanged { expected, actual } => {
                "source changed before trigger: "@ + text::decimal(expected as nat) + " != "@
                    + text::decimal(actual as nat)
            },
            GroupControlPrecheckError::VoteChanged { expected, actual } => {
                "vote changed before trigger: "@ + expected.text() + " != "@ + actual.text()
            },
            GroupControlPrecheckError::MembershipChanged { kind, .. } => {
                kind.text() + " membership changed before trigger"@
            },
            GroupControlPrecheckError::TargetNotVoter { target } => {
                "target "@ + text::decimal(target as nat) + " is not a fixed voter"@
            },
            GroupControlPrecheckError::TargetIsSource { target } => {
                "target "@ + text::decimal(target as nat) + " is the current source"@
            },
            GroupControlPrecheckError::TargetNotRecentlyAcked { target, qualification } => {
                "target "@ + text::decimal(target as nat) + " is not recently acknowledged: "@
                    + qualification.text()
            },
            GroupControlPrecheckError::TargetProgressUnavailable { target, qualification } => {
                "target "@ + text::decimal(target as nat) + " progress is unavailable: "@
                    + qualification.text()
            },
            GroupControlPrecheckError::TargetLagging { target, matched, required } => {
                "target "@ + text::decimal(target as nat) + " is lagging: matched "@
                    + matched.text() + ", required "@ + required.text()
            },
        }
    }

    /// The message of the error.
    pub fn to_string(&self) -> (text: String)
        ensures
            text@ == self.text(),
    {
        let mut out = String::new();
        match self {
            GroupControlPrecheckError::GroupChanged { expected, actual } => {
                out.append("group changed before trigger: ");
                text::append_u64(&mut out, *expected);
                out.append(" != ");
                text::append_u64(&mut out, *actual);
            },
            GroupControlPrecheckError::SourceChanged { expected, actual } => {
                out.append("source changed before trigger: ");
                text::append_u64(&mut out, *expected);
                out.append(" != ");
                text::append_u64(&mut out, *actual);
            },
            GroupControlPrecheckError::VoteChanged { expected, actual } => {
                out.append("vote changed before trigger: ");
                expected.append_debug(&mut out);
                out.append(" != ");
                actual.append_debug(&mut out);
            },
            GroupControlPrecheckError::MembershipChanged { kind, .. } => {
                match kind {
                    MembershipChangeKind::Effective => out.append("Effective"),
                    MembershipChangeKind::Committed => out.append("Committed"),
                }
                out.append(" membership changed before trigger");
            },
            GroupControlPrecheckError::TargetNotVoter { target } => {
                out.append("target ");
                text::append_u64(&mut out, *target);
                out.append(" is not a fixed voter");
            },
            GroupControlPrecheckError::TargetIsSource { target } => {
                out.append("target ");
                text::append_u64(&mut out, *target);
                out.append(" is the current source");
            },
            GroupControlPrecheckError::TargetNotRecentlyAcked { target, qualification } => {
                out.append("target ");
                text::append_u64(&mut out, *target);
                out.append(" is not recently acknowledged: ");
                qualification.append_debug(&mut out);
            },
            GroupControlPrecheckError::TargetProgressUnavailable { target, qualification } => {
                out.append("target ");
                text::append_u64(&mut out, *target);
                out.append(" progress is unavailable: ");
                qualification.append_debug(&mut out);
            },
            GroupControlPrecheckError::TargetLagging { target, matched, required } => {
                out.append("target ");
                text::append_u64(&mut out, *target);
                out.append(" is lagging: matched ");
                matched.append_debug(&mut out);
                out.append(", required ");
                required.append_debug(&mut out);
            },
        }
        assert(out@ =~= self.text());
        out
    }
}

/// Why a request is rejected: no sample could be taken, or the sample does not admit it.
#[derive(Debug, Clone, PartialEq, Eq)]
pub enum GroupControlPrecheckRejection {
    Sample(GroupControlSampleError),
    Preconditions(GroupControlPrecheckError),
}

/// What became of a transfer request.
#[non_exhaustive]
#[derive(Debug, Clone, PartialEq, Eq)]
pub enum GroupControlRequestResult {
    PrecheckRejected { echo: GroupControlRequestEcho, reason: GroupControlPrecheckRejection },
    NotSubmitted { echo: GroupControlRequestEcho, reason: String },
    TriggerQueued { echo: GroupControlRequestEcho },
    OutcomeUnknown { echo: GroupControlRequestEcho, reason: String },
}

impl GroupControlRequestResult {
    /// The result of a request whose caller stopped waiting after it was sent.
    pub fn outcome_unknown(echo: GroupControlRequestEcho, reason: String) -> (result: Self)
        ensures
            result == (GroupControlRequestResult::OutcomeUnknown { echo, reason }),
    {
        GroupControlRequestResult::OutcomeUnknown { echo, reason }
    }
}

/// Who leads the group of a request, as far as a later sample shows.
#[non_exhaustive]
#[derive(Debug, Clone, PartialEq, Eq)]
pub enum GroupControlLayoutObservation {
    TargetObserved {
        echo: GroupControlRequestEcho,
        observed_leader: NodeId,
        observed_vote: VoteObservation,
        sample_age: TimeSpan,
    },
    DifferentLeaderObserved {
        echo: GroupControlRequestEcho,
        observed_leader: NodeId,
        observed_vote: VoteObservation,
        sample_age: TimeSpan,
    },
    SourceObserved {
        echo: GroupControlRequestEcho,
        observed_leader: NodeId,
        observed_vote: VoteObservation,
        sample_age: TimeSpan,
    },
    Unavailable { echo: GroupControlRequestEcho, reason: String },
}

/// Why no sample could be taken.
#[non_exhaustive]
#[derive(Debug, Clone, PartialEq, Eq)]
pub enum GroupControlSampleError {
    UnknownGroup { group_id: GroupId },
    Closed { group_id: GroupId },
    NotLeader { group_id: GroupId, local_node_id: NodeId, leader_hint: Option<NodeId> },
    ReadIndexFailed { group_id: GroupId, reason: String },
    InconsistentIdentity { group_id: GroupId, reason: String },
    UnexpectedMembership {
        group_id: GroupId,
        expected_voters: BTreeSet<NodeId>,
        effective_membership: MembershipObservation,
        committed_membership: MembershipObservation,
    },
    SampleTooOld { group_id: GroupId, elapsed: TimeSpan, max: TimeSpan },
}

impl GroupControlSampleError {
    /// The message of the error.
    pub open spec fn text(self) -> Seq<char> {
        match self {
            GroupControlSampleError::UnknownGroup { group_id } => {
                "unknown group "@ + text::decimal(group_id as nat)
            },
            GroupControlSampleError::Closed { group_id } => {
                "group "@ + text::decimal(group_id as nat) + " control sample is closed"@
            },
            GroupControlSampleError::NotLeader { group_id, local_node_id, leader_hint } => {
                "group "@ + text::decimal(group_id as nat) + " local node "@ + text::decimal(
                    local_node_id as nat,
                ) + " is not leader; hint="@ + text::option_text(leader_hint)
            },
            GroupControlSampleError::ReadIndexFailed { group_id, reason } => {
                "group "@ + text::decimal(group_id as nat) + " ReadIndex failed: "@ + reason@
            },
            GroupControlSampleError::InconsistentIdentity { group_id, reason } => {
                "group "@ + text::decimal(group_id as nat) + " control sample identity changed: "@
                    + reason@
            },
            GroupControlSampleError::UnexpectedMembership { group_id, expected_voters, .. } => {
                "group "@ + text::decimal(group_id as nat)
                    + " membership is not the expected fixed voter set "@ + text::set_text(
                    expected_voters@,
                )
            },
            GroupControlSampleError::SampleTooOld { group_id, elapsed, max } => {
                "group "@ + text::decimal(group_id as nat) + " control sample is too old: "@
                    + elapsed.text() + " >= "@ + max.text()
            },
        }
    }

    /// The message of the error.
    pub fn to_string(&self) -> (text: String)
        ensures
            text@ == self.text(),
    {
        let mut out = String::new();
        match self {
            GroupControlSampleError::UnknownGroup { group_id } => {
                out.append("unknown group ");
                text::append_u64(&mut out, *group_id);
            },
            GroupControlSampleError::Closed { group_id } => {
                out.append("group ");
                text::append_u64(&mut out, *group_id);
                out.append(" control sample is closed");
            },
            GroupControlSampleError::NotLeader { group_id, local_node_id, leader_hint } => {
                out.append("group ");
                text::append_u64(&mut out, *group_id);
                out.append(" local node ");
                text::append_u64(&mut out, *local_node_id);
                out.append(" is not leader; hint=");
                text::append_option(&mut out, *leader_hint);
            },
            GroupControlSampleError::ReadIndexFailed { group_id, reason } => {
                out.append("group ");
                text::append_u64(&mut out, *group_id);
                out.append(" ReadIndex failed: ");
                out.append(reason.as_str());
            },
            GroupControlSampleError::InconsistentIdentity { group_id, reason } => {
                out.append("group ");
                text::append_u64(&mut out, *group_id);
                out.append(" control sample identity changed: ");
                out.append(reason.as_str());
            },
            GroupControlSampleError::UnexpectedMembership { group_id, expected_voters, .. } => {
                out.append("group ");
                text::append_u64(&mut out, *group_id);
                out.append(" membership is not the expected fixed voter set ");
                text::append_set(&mut out, expected_voters);
            },
            GroupControlSampleError::SampleTooOld { group_id, elapsed, max } => {
                out.append("group ");
                text::append_u64(&mut out, *group_id);
                out.append(" control sample is too old: ");
                elapsed.append_debug(&mut out);
                out.append(" >= ");
                max.append_debug(&mut out);
            },
        }
        assert(out@ =~= self.text());
        out
    }
}

impl GroupControlSample {
    /// What the sample knows of `target`.
    pub open spec fn qualification_of(self, target: NodeId) -> Option<TargetQualification> {
        if self.target_qualifications@.contains_key(target) {
            Some(self.target_qualifications@[target])
        } else {
            None
        }
    }

    /// The sample is of the group that the caller observed.
    pub open spec fn same_group(self, preconditions: GroupControlPreconditions) -> bool {
        preconditions.group_id == self.group_id
    }

    /// And of the same leader.
    pub open spec fn same_source(self, preconditions: GroupControlPreconditions) -> bool {
        self.same_group(preconditions) && preconditions.expected_source == self.leader_id
    }

    /// And of the same vote.
    pub open spec fn same_vote(self, preconditions: GroupControlPreconditions) -> bool {
        self.same_source(preconditions) && preconditions.observed_vote == self.flushed_vote
    }

    /// And of the same effective membership.
    pub open spec fn same_effective(self, preconditions: GroupControlPreconditions) -> bool {
        self.same_vote(preconditions) && preconditions.effective_membership@
            == self.effective_membership@
    }

    /// Everything that the caller observed holds still.
    pub open spec fn same_identity(self, preconditions: GroupControlPreconditions) -> bool {
        self.same_effective(preconditions) && preconditions.committed_membership@
            == self.committed_membership@
    }

    /// The transfer may be triggered: the observed identity holds still, and the target qualifies.
    pub open spec fn admits(self, preconditions: GroupControlPreconditions) -> bool {
        self.same_identity(preconditions) && (self.qualification_of(preconditions.target) matches Some(
            q,
        ) && q is Qualified)
    }

    /// `error` is what the sample objects to first: the group, the source, the vote, the effective
    /// membership and the committed membership in this order, then the target.
    pub open spec fn objects(
        self,
        preconditions: GroupControlPreconditions,
        error: GroupControlPrecheckError,
    ) -> bool {
        let target_is = |q: TargetQualification|
            self.same_identity(preconditions) && self.qualification_of(preconditions.target)
                == Some(q);
        match error {
            GroupControlPrecheckError::GroupChanged { expected, actual } => {
                &&& !self.same_group(preconditions)
                &&& expected == preconditions.group_id
                &&& actual == self.group_id
            },
            GroupControlPrecheckError::SourceChanged { expected, actual } => {
                &&& self.same_group(preconditions)
                &&& !self.same_source(preconditions)
                &&& expected == preconditions.expected_source
                &&& actual == self.leader_id
            },
            GroupControlPrecheckError::VoteChanged { expected, actual } => {
                &&& self.same_source(preconditions)
                &&& !self.same_vote(preconditions)
                &&& expected == preconditions.observed_vote
                &&& actual == self.flushed_vote
            },
            GroupControlPrecheckError::MembershipChanged {
                kind: MembershipChangeKind::Effective,
                expected,
                actual,
            } => {
                &&& self.same_vote(preconditions)
                &&& !self.same_effective(preconditions)
                &&& expected@ == preconditions.effective_membership@
                &&& actual@ == self.effective_membership@
            },
            GroupControlPrecheckError::MembershipChanged {
                kind: MembershipChangeKind::Committed,
                expected,
                actual,
            } => {
                &&& self.same_effective(preconditions)
                &&& !self.same_identity(preconditions)
                &&& expected@ == preconditions.committed_membership@
                &&& actual@ == self.committed_membership@
            },
            GroupControlPrecheckError::TargetNotVoter { target } => {
                &&& target == preconditions.target
                &&& self.same_identity(preconditions)
                &&& (self.qualification_of(target) is None || target_is(
                    TargetQualification::NotVoter,
                ))
            },
            GroupControlPrecheckError::TargetIsSource { target } => {
                &&& target == preconditions.target
                &&& target_is(TargetQualification::Source)
            },
            GroupControlPrecheckError::TargetNotRecentlyAcked { target, qualification } => {
                &&& target == preconditions.target
                &&& target_is(qualification)
                &&& (qualification is MissingAck || qualification is AckTooOld)
            },
            GroupControlPrecheckError::TargetProgressUnavailable { target, qualification } => {
                &&& target == preconditions.target
                &&& target_is(qualification)
                &&& (qualification is MissingLocalCommitted || qualification is MissingMatched)
            },
            GroupControlPrecheckError::TargetLagging { target, matched, required } => {
                &&& target == preconditions.target
                &&& target_is(TargetQualification::Lagging { matched, required })
            },
        }
    }

    /// The preconditions that hold in this very sample, for a transfer to `target`.
    pub fn observed_preconditions_for(&self, target: NodeId) -> (preconditions:
        GroupControlPreconditions)
        ensures
            self.same_identity(preconditions),
            preconditions.target == target,
    {
        GroupControlPreconditions {
            group_id: self.group_id,
            expected_source: self.leader_id,
            observed_vote: self.flushed_vote,
            effective_membership: self.effective_membership.clone(),
            committed_membership: self.committed_membership.clone(),
            target,
        }
    }

    /// Checks that everything that the caller observed holds still, and that the target qualifies.
    ///
    /// # Errors
    ///
    /// Returns the first objection.
    pub fn check_transfer_preconditions(&self, preconditions: &GroupControlPreconditions) -> (checked:
        Result<(), GroupControlPrecheckError>)
        ensures
            match checked {
                Ok(()) => self.admits(*preconditions),
                Err(error) => self.objects(*preconditions, error),
            },
            checked is Ok <==> self.admits(*preconditions),
    {
        if preconditions.group_id != self.group_id {
            return Err(
                GroupControlPrecheckError::GroupChanged {
                    expected: preconditions.group_id,
                    actual: self.group_id,
                },
            );
        }
        if preconditions.expected_source != self.leader_id {
            return Err(
                GroupControlPrecheckError::SourceChanged {
                    expected: preconditions.expected_source,
                    actual: self.leader_id,
                },
            );
        }
        if preconditions.observed_vote != self.flushed_vote {
            return Err(
                GroupControlPrecheckError::VoteChanged {
                    expected: preconditions.observed_vote,
                    actual: self.flushed_vote,
                },
            );
        }
        if !preconditions.effective_membership.same_as(&self.effective_membership) {
            return Err(
                GroupControlPrecheckError::MembershipChanged {
                    kind: MembershipChangeKind::Effective,
                    expected: preconditions.effective_membership.clone(),
                    actual: self.effective_membership.clone(),
                },
            );
        }
        if !preconditions.committed_membership.same_as(&self.committed_membership) {
            return Err(
                GroupControlPrecheckError::MembershipChanged {
                    kind: MembershipChangeKind::Committed,
                    expected: preconditions.committed_membership.clone(),
                    actual: self.committed_membership.clone(),
                },
            );
        }
        let target = preconditions.target;
        match self.target_qualifications.get(&target) {
            None => Err(GroupControlPrecheckError::TargetNotVoter { target }),
            Some(qualification) => match *qualification {
                TargetQualification::Qualified { .. } => Ok(()),
                TargetQualification::Source => Err(
                    GroupControlPrecheckError::TargetIsSource { target },
                ),
                TargetQualification::MissingAck | TargetQualification::AckTooOld { .. } => Err(
                    GroupControlPrecheckError::TargetNotRecentlyAcked {
                        target,
                        qualification: *qualification,
                    },
                ),
                TargetQualification::MissingLocalCommitted
                | TargetQualification::MissingMatched => Err(
                    GroupControlPrecheckError::TargetProgressUnavailable {
                        target,
                        qualification: *qualification,
                    },
                ),
                TargetQualification::Lagging { matched, required } => Err(
                    GroupControlPrecheckError::TargetLagging { target, matched, required },
                ),
                TargetQualification::NotVoter => Err(
                    GroupControlPrecheckError::TargetNotVoter { target },
                ),
            },
        }
    }
}

/// Classifies who leads the group of a request: the target, the source or another node. Without a
/// sample the layout is unavailable, with the sampling error's message as the reason.
pub fn classify_group_control_layout(
    echo: GroupControlRequestEcho,
    sample_result: Result<&GroupControlSample, &GroupControlSampleError>,
) -> (observation: GroupControlLayoutObservation)
    ensures
        match sample_result {
            Err(error) => observation matches GroupControlLayoutObservation::Unavailable {
                echo: e,
                reason,
            } && e == echo && reason@ == error.text(),
            Ok(sample) => observation == (if sample.leader_id == echo.target {
                GroupControlLayoutObservation::TargetObserved {
                    echo,
                    observed_leader: sample.leader_id,
                    observed_vote: sample.flushed_vote,
                    sample_age: sample.sample_age,
                }
            } else if sample.leader_id == echo.source {
                GroupControlLayoutObservation::SourceObserved {
                    echo,
                    observed_leader: sample.leader_id,
                    observed_vote: sample.flushed_vote,
                    sample_age: sample.sample_age,
                }
            } else {
                GroupControlLayoutObservation::DifferentLeaderObserved {
                    echo,
                    observed_leader: sample.leader_id,
                    observed_vote: sample.flushed_vote,
                    sample_age: sample.sample_age,
                }
            }),
        },
{
    let sample = match sample_result {
        Ok(sample) => sample,
        Err(error) => {
            return GroupControlLayoutObservation::Unavailable { echo, reason: error.to_string() };
        },
    };
    if sample.leader_id == echo.target {
        return GroupControlLayoutObservation::TargetObserved {
            echo,
            observed_leader: sample.leader_id,
            observed_vote: sample.flushed_vote,
            sample_age: sample.sample_age,
        };
    }
    if sample.leader_id == echo.source {
        return GroupControlLayoutObservation::SourceObserved {
            echo,
            observed_leader: sample.leader_id,
            observed_vote: sample.flushed_vote,
            sample_age: sample.sample_age,
        };
    }
    GroupControlLayoutObservation::DifferentLeaderObserved {
        echo,
        observed_leader: sample.leader_id,
        observed_vote: sample.flushed_vote,
        sample_age: sample.sample_age,
    }
}

/// A transfer is admitted exactly where group, leader, vote and both memberships are those that the
/// caller observed, and the sample qualifies the target. What is objected to is the first of these
/// that does not hold, with what was expected and what was found.
pub proof fn law_transfers_need_the_observed_identity(
    sample: GroupControlSample,
    observed: GroupControlPreconditions,
    checked: Result<(), GroupControlPrecheckError>,
)
    requires
        call_ensures(
            GroupControlSample::check_transfer_preconditions,
            (&sample, &observed),
            checked,
        ),
    ensures
        ({
            let group = observed.group_id == sample.group_id;
            let source = observed.expected_source == sample.leader_id;
            let vote = observed.observed_vote.term == sample.flushed_vote.term
                && observed.observed_vote.node_id == sample.flushed_vote.node_id
                && observed.observed_vote.committed == sample.flushed_vote.committed;
            let effective = observed.effective_membership@ == sample.effective_membership@;
            let committed = observed.committed_membership@ == sample.committed_membership@;
            let identity = group && source && vote && effective && committed;
            let listed = sample.target_qualifications@.contains_key(observed.target);
            let found = sample.target_qualifications@[observed.target];
            &&& checked is Ok <==> identity && listed && found is Qualified
            &&& !group ==> (checked matches Err(GroupControlPrecheckError::GroupChanged {
                expected,
                actual,
            }) && expected == observed.group_id && actual == sample.group_id)
            &&& group && !source ==> (checked matches Err(
                GroupControlPrecheckError::SourceChanged { expected, actual },
            ) && expected == observed.expected_source && actual == sample.leader_id)
            &&& group && source && !vote ==> (checked matches Err(
                GroupControlPrecheckError::VoteChanged { expected, actual },
            ) && expected == observed.observed_vote && actual == sample.flushed_vote)
            &&& group && source && vote && !effective ==> (checked matches Err(
                GroupControlPrecheckError::MembershipChanged { kind, expected, actual },
            ) && kind is Effective && expected@ == observed.effective_membership@ && actual@
                == sample.effective_membership@)
            &&& group && source && vote && effective && !committed ==> (checked matches Err(
                GroupControlPrecheckError::MembershipChanged { kind, expected, actual },
            ) && kind is Committed && expected@ == observed.committed_membership@ && actual@
                == sample.committed_membership@)
            &&& identity && (!listed || found is NotVoter) ==> checked == Err::<(), _>(
                GroupControlPrecheckError::TargetNotVoter { target: observed.target },
            )
            &&& identity && listed && found is Source ==> checked == Err::<(), _>(
                GroupControlPrecheckError::TargetIsSource { target: observed.target },
            )
            &&& identity && listed && (found is MissingAck || found is AckTooOld) ==> checked == Err::<
                (),
                _,
            >(
                GroupControlPrecheckError::TargetNotRecentlyAcked {
                    target: observed.target,
                    qualification: found,
                },
            )
            &&& identity && listed && (found is MissingLocalCommitted || found is MissingMatched)
                ==> checked == Err::<(), _>(
                GroupControlPrecheckError::TargetProgressUnavailable {
                    target: observed.target,
                    qualification: found,
                },
            )
            &&& identity && listed && found is Lagging ==> checked == Err::<(), _>(
                GroupControlPrecheckError::TargetLagging {
                    target: observed.target,
                    matched: found->Lagging_matched,
                    required: found->Lagging_required,
                },
            )
        }),
{
}

/// What a sample shows is what it demands of a transfer: preconditions that are taken from it are
/// admitted on it exactly where it qualifies the target.
pub proof fn law_a_sample_admits_its_own_preconditions(
    sample: GroupControlSample,
    target: NodeId,
    observed: GroupControlPreconditions,
    checked: Result<(), GroupControlPrecheckError>,
    echo: GroupControlRequestEcho,
)
    requires
        call_ensures(
            GroupControlSample::observed_preconditions_for,
            (&sample, target),
            observed,
        ),
        call_ensures(
            GroupControlSample::check_transfer_preconditions,
            (&sample, &observed),
            checked,
        ),
        call_ensures(GroupControlPreconditions::echo, (&observed,), echo),
    ensures
        checked is Ok <==> sample.target_qualifications@.contains_key(target)
            && sample.target_qualifications@[target] is Qualified,
        observed.target == target,
        observed.group_id == sample.group_id,
        observed.expected_source == sample.leader_id,
        observed.observed_vote == sample.flushed_vote,
        observed.effective_membership@ == sample.effective_membership@,
        observed.committed_membership@ == sample.committed_membership@,
        echo.group_id == sample.group_id,
        echo.source == sample.leader_id,
        echo.target == target,
{
}

/// The layout after a request is told by who leads: the target first, then the source, then anybody
/// else; without a sample it is unavailable.
pub proof fn law_layouts_are_told_by_the_leader(
    echo: GroupControlRequestEcho,
    sample: Result<&GroupControlSample, &GroupControlSampleError>,
    observation: GroupControlLayoutObservation,
)
    requires
        call_ensures(classify_group_control_layout, (echo, sample), observation),
    ensures
        observation is Unavailable <==> sample is Err,
        sample is Ok ==> {
            let leader = sample->Ok_0.leader_id;
            &&& observation is TargetObserved <==> leader == echo.target
            &&& observation is SourceObserved <==> leader != echo.target && leader == echo.source
            &&& observation is DifferentLeaderObserved <==> leader != echo.target && leader
                != echo.source
        },
        observation matches GroupControlLayoutObservation::TargetObserved {
            echo: e,
            observed_leader,
            observed_vote,
            sample_age,
        } ==> e == echo && observed_leader == sample->Ok_0.leader_id && observed_vote
            == sample->Ok_0.flushed_vote && sample_age == sample->Ok_0.sample_age,
        observation matches GroupControlLayoutObservation::SourceObserved {
            echo: e,
            observed_leader,
            observed_vote,
            sample_age,
        } ==> e == echo && observed_leader == sample->Ok_0.leader_id && observed_vote
            == sample->Ok_0.flushed_vote && sample_age == sample->Ok_0.sample_age,
        observation matches GroupControlLayoutObservation::DifferentLeaderObserved {
            echo: e,
            observed_leader,
            observed_vote,
            sample_age,
        } ==> e == echo && observed_leader == sample->Ok_0.leader_id && observed_vote
            == sample->Ok_0.flushed_vote && sample_age == sample->Ok_0.sample_age,
{
}

/// The messages of sampling errors name the group, and give the reason where there is one.
pub proof fn law_sampling_errors_name_their_group(error: GroupControlSampleError, message: String)
    requires
        call_ensures(GroupControlSampleError::to_string, (&error,), message),
    ensures
        error matches GroupControlSampleError::UnknownGroup { group_id } ==> message@
            == "unknown group "@ + text::decimal(group_id as nat),
        error matches GroupControlSampleError::Closed { group_id } ==> message@ == "group "@
            + text::decimal(group_id as nat) + " control sample is closed"@,
        error matches GroupControlSampleError::NotLeader { group_id, local_node_id, leader_hint }
            ==> message@ == "group "@ + text::decimal(group_id as nat) + " local node "@
            + text::decimal(local_node_id as nat) + " is not leader; hint="@ + (match leader_hint {
            Some(leader) => "Some("@ + text::decimal(leader as nat) + ")"@,
            None => "None"@,
        }),
        error matches GroupControlSampleError::ReadIndexFailed { group_id, reason } ==> message@
            == "group "@ + text::decimal(group_id as nat) + " ReadIndex failed: "@ + reason@,
        error matches GroupControlSampleError::InconsistentIdentity { group_id, reason } ==> message@
            == "group "@ + text::decimal(group_id as nat) + " control sample identity changed: "@
            + reason@,
        error matches GroupControlSampleError::UnexpectedMembership {
            group_id,
            expected_voters,
            effective_membership,
            committed_membership,
        } ==> message@ == "group "@ + text::decimal(group_id as nat)
            + " membership is not the expected fixed voter set "@ + ("{"@ + text::joined(
            text::ascending(expected_voters@),
            ", "@,
        ) + "}"@),
        error matches GroupControlSampleError::SampleTooOld { group_id, elapsed, max } ==> message@
            == "group "@ + text::decimal(group_id as nat) + " control sample is too old: "@
            + elapsed.text() + " >= "@ + max.text(),
{
}

/// The messages of objections name the target, or what was expected and what was found.
pub proof fn law_objections_name_what_changed(error: GroupControlPrecheckError, message: String)
    requires
        call_ensures(GroupControlPrecheckError::to_string, (&error,), message),
    ensures
        error matches GroupControlPrecheckError::GroupChanged { expected, actual } ==> message@
            == "group changed before trigger: "@ + text::decimal(expected as nat) + " != "@
            + text::decimal(actual as nat),
        error matches GroupControlPrecheckError::SourceChanged { expected, actual } ==> message@
            == "source changed before trigger: "@ + text::decimal(expected as nat) + " != "@
            + text::decimal(actual as nat),
        error matches GroupControlPrecheckError::VoteChanged { expected, actual } ==> message@
            == "vote changed before trigger: "@ + expected.text() + " != "@ + actual.text(),
        error matches GroupControlPrecheckError::MembershipChanged { kind, expected, actual }
            ==> message@ == (if kind is Effective {
            "Effective"@
        } else {
            "Committed"@
        }) + " membership changed before trigger"@,
        error matches GroupControlPrecheckError::TargetNotVoter { target } ==> message@ == "target "@
            + text::decimal(target as nat) + " is not a fixed voter"@,
        error matches GroupControlPrecheckError::TargetIsSource { target } ==> message@ == "target "@
            + text::decimal(target as nat) + " is the current source"@,
        error matches GroupControlPrecheckError::TargetNotRecentlyAcked { target, qualification }
            ==> message@ == "target "@ + text::decimal(target as nat)
            + " is not recently acknowledged: "@ + qualification.text(),
        error matches GroupControlPrecheckError::TargetProgressUnavailable { target, qualification }
            ==> message@ == "target "@ + text::decimal(target as nat)
            + " progress is unavailable: "@ + qualification.text(),
        error matches GroupControlPrecheckError::TargetLagging { target, matched, required }
            ==> message@ == "target "@ + text::decimal(target as nat) + " is lagging: matched "@
            + matched.text() + ", required "@ + required.text(),
{
}

/// A caller who stopped waiting is told about the very request, with the reason.
pub proof fn law_unknown_outcomes_keep_the_request(
    echo: GroupControlRequestEcho,
    reason: String,
    result: GroupControlRequestResult,
)
    requires
        call_ensures(GroupControlRequestResult::outcome_unknown, (echo, reason), result),
    ensures
        result matches GroupControlRequestResult::OutcomeUnknown { echo: e, reason: r } && e == echo
            && r == reason,
{
}

} // verus!
