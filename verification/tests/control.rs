//! Transfer preconditions, layout observation and control sampling.

use std::collections::BTreeMap;
use std::collections::BTreeSet;

use multiraft::classify_group_control_layout;
use multiraft::membership::StoredMembership;
use multiraft::observation::RaftServerState;
use multiraft::sampling::covers_log_id;
use multiraft::sampling::ControlMetrics;
use multiraft::sampling::RawState;
use multiraft::sampling::ReadIndexError;
use multiraft::sampling::SampleRequest;
use multiraft::transfer::submit_transfer_from_sample;
use multiraft::transfer::TransferDecision;
use multiraft::GroupControlLayoutObservation;
use multiraft::GroupControlPrecheckError;
use multiraft::GroupControlPrecheckRejection;
use multiraft::GroupControlPreconditions;
use multiraft::GroupControlRequestEcho;
use multiraft::GroupControlRequestResult;
use multiraft::GroupControlSample;
use multiraft::GroupControlSampleError;
use multiraft::GroupServerState;
use multiraft::MembershipObservation;
use multiraft::ObservedLogId;
use multiraft::TargetQualification;
use multiraft::TimeSpan;
use multiraft::VoteObservation;

fn set(ids: &[u64]) -> BTreeSet<u64> {
    ids.iter().copied().collect()
}

fn log_id(term: u64, node_id: u64, index: u64) -> ObservedLogId {
    ObservedLogId {
        term,
        node_id,
        index,
    }
}

fn fixed_membership(voters: &[u64]) -> MembershipObservation {
    MembershipObservation {
        log_id: Some(log_id(1, 1, 0)),
        voter_configs: vec![set(voters)],
        learner_ids: BTreeSet::new(),
    }
}

fn synthetic_sample(target_2: TargetQualification) -> GroupControlSample {
    let membership = fixed_membership(&[1, 2, 3]);
    GroupControlSample {
        group_id: 10,
        local_node_id: 1,
        leader_id: 1,
        server_state: GroupServerState::Leader,
        flushed_vote: VoteObservation {
            term: 3,
            node_id: 1,
            committed: true,
        },
        effective_membership: membership.clone(),
        committed_membership: membership,
        read_log_id: Some(log_id(3, 1, 7)),
        local_committed: Some(log_id(3, 1, 7)),
        target_qualifications: BTreeMap::from([
            (1, TargetQualification::Source),
            (2, target_2),
            (
                3,
                TargetQualification::Qualified {
                    ack_age: TimeSpan::from_millis(5),
                    matched: log_id(3, 1, 7),
                },
            ),
        ]),
        sample_age: TimeSpan::from_millis(1),
    }
}

fn qualified() -> TargetQualification {
    TargetQualification::Qualified {
        ack_age: TimeSpan::from_millis(5),
        matched: log_id(3, 1, 7),
    }
}

#[test]
fn precheck_rejects_changed_observed_identity_before_trigger() {
    let sample = synthetic_sample(TargetQualification::Qualified {
        ack_age: TimeSpan::from_millis(5),
        matched: log_id(3, 1, 7),
    });
    let mut preconditions = sample.observed_preconditions_for(2);
    preconditions.expected_source = 3;

    let err = sample
        .check_transfer_preconditions(&preconditions)
        .expect_err("changed source must reject before trigger");

    assert!(matches!(
        err,
        GroupControlPrecheckError::SourceChanged { .. }
    ));

    let mut preconditions = sample.observed_preconditions_for(2);
    preconditions.observed_vote.term -= 1;

    let err = sample
        .check_transfer_preconditions(&preconditions)
        .expect_err("changed vote must reject before trigger");

    assert!(matches!(err, GroupControlPrecheckError::VoteChanged { .. }));

    let mut preconditions = sample.observed_preconditions_for(2);
    preconditions.effective_membership = fixed_membership(&[1, 2]);
    let err = sample
        .check_transfer_preconditions(&preconditions)
        .expect_err("changed membership must reject before trigger");
    assert!(matches!(
        err,
        GroupControlPrecheckError::MembershipChanged { .. }
    ));
}

#[test]
fn precheck_rejects_missing_ack_before_trigger() {
    let sample = synthetic_sample(TargetQualification::MissingAck);
    let preconditions = sample.observed_preconditions_for(2);

    let err = sample
        .check_transfer_preconditions(&preconditions)
        .expect_err("missing ack must reject before trigger");

    assert!(matches!(
        err,
        GroupControlPrecheckError::TargetNotRecentlyAcked {
            target: 2,
            qualification: TargetQualification::MissingAck,
        }
    ));
}

#[test]
fn precheck_uses_complete_log_identity_not_bare_index() {
    let sample = synthetic_sample(TargetQualification::Lagging {
        matched: log_id(2, 1, 99),
        required: log_id(3, 1, 7),
    });
    let preconditions = sample.observed_preconditions_for(2);

    let err = sample
        .check_transfer_preconditions(&preconditions)
        .expect_err("higher bare index with older term is still lagging");

    assert!(matches!(
        err,
        GroupControlPrecheckError::TargetLagging {
            target: 2,
            matched: ObservedLogId {
                term: 2,
                index: 99,
                ..
            },
            required: ObservedLogId {
                term: 3,
                index: 7,
                ..
            },
        }
    ));
}

#[test]
fn precheck_rejects_non_voter_target_before_trigger() {
    let sample = synthetic_sample(TargetQualification::Qualified {
        ack_age: TimeSpan::from_millis(5),
        matched: log_id(3, 1, 7),
    });
    let preconditions = GroupControlPreconditions {
        group_id: sample.group_id,
        expected_source: sample.leader_id,
        observed_vote: sample.flushed_vote,
        effective_membership: sample.effective_membership.clone(),
        committed_membership: sample.committed_membership.clone(),
        target: 9,
    };

    let err = sample
        .check_transfer_preconditions(&preconditions)
        .expect_err("non-voter target must reject before trigger");

    assert!(matches!(
        err,
        GroupControlPrecheckError::TargetNotVoter { target: 9, .. }
    ));
}

#[test]
fn layout_observation_is_independent_from_request_outcome() {
    let queued_source = synthetic_sample(TargetQualification::Qualified {
        ack_age: TimeSpan::from_millis(5),
        matched: log_id(3, 1, 7),
    });
    let echo = queued_source.observed_preconditions_for(2).echo();
    let outcome =
        GroupControlRequestResult::outcome_unknown(echo, "caller canceled after send".into());

    let source_observed = classify_group_control_layout(echo, Ok(&queued_source));
    assert!(matches!(
        source_observed,
        GroupControlLayoutObservation::SourceObserved { .. }
    ));

    let mut target_sample = queued_source.clone();
    target_sample.local_node_id = 2;
    target_sample.leader_id = 2;
    let target_observed = classify_group_control_layout(echo, Ok(&target_sample));
    assert!(matches!(
        target_observed,
        GroupControlLayoutObservation::TargetObserved { .. }
    ));
    assert!(matches!(
        outcome,
        GroupControlRequestResult::OutcomeUnknown { .. }
    ));

    let mut other_sample = queued_source.clone();
    other_sample.local_node_id = 3;
    other_sample.leader_id = 3;
    let different_observed = classify_group_control_layout(echo, Ok(&other_sample));
    assert!(matches!(
        different_observed,
        GroupControlLayoutObservation::DifferentLeaderObserved { .. }
    ));

    let unavailable = classify_group_control_layout(
        echo,
        Err(&GroupControlSampleError::UnknownGroup {
            group_id: echo.group_id,
        }),
    );
    assert!(matches!(
        unavailable,
        GroupControlLayoutObservation::Unavailable { .. }
    ));
}

fn assert_debug_clone_eq<T: std::fmt::Debug + Clone + PartialEq + Eq>() {}

#[test]
fn public_group_control_sample_contract_is_typed() {
    assert_debug_clone_eq::<GroupControlSample>();
    assert_debug_clone_eq::<GroupControlSampleError>();
    assert_debug_clone_eq::<GroupControlPreconditions>();
    assert_debug_clone_eq::<GroupControlPrecheckError>();
    assert_debug_clone_eq::<GroupControlPrecheckRejection>();
    assert_debug_clone_eq::<GroupControlRequestEcho>();
    assert_debug_clone_eq::<GroupControlRequestResult>();
    assert_debug_clone_eq::<GroupControlLayoutObservation>();
    assert_debug_clone_eq::<TargetQualification>();
}

#[test]
fn precheck_objects_in_order_with_both_sides() {
    let sample = synthetic_sample(qualified());
    let admitted = sample.observed_preconditions_for(2);
    assert_eq!(sample.check_transfer_preconditions(&admitted), Ok(()));

    let mut all_wrong = sample.observed_preconditions_for(9);
    all_wrong.group_id = 11;
    all_wrong.expected_source = 3;
    all_wrong.observed_vote.committed = false;
    all_wrong.effective_membership.learner_ids = set(&[4]);
    all_wrong.committed_membership.log_id = None;
    assert_eq!(
        sample.check_transfer_preconditions(&all_wrong),
        Err(GroupControlPrecheckError::GroupChanged {
            expected: 11,
            actual: 10
        })
    );
    all_wrong.group_id = 10;
    assert_eq!(
        sample.check_transfer_preconditions(&all_wrong),
        Err(GroupControlPrecheckError::SourceChanged {
            expected: 3,
            actual: 1
        })
    );
    all_wrong.expected_source = 1;
    let err = sample.check_transfer_preconditions(&all_wrong).unwrap_err();
    assert_eq!(
        err.to_string(),
        "vote changed before trigger: VoteObservation { term: 3, node_id: 1, committed: false } \
         != VoteObservation { term: 3, node_id: 1, committed: true }"
    );
    all_wrong.observed_vote.committed = true;
    let err = sample.check_transfer_preconditions(&all_wrong).unwrap_err();
    assert_eq!(err.to_string(), "Effective membership changed before trigger");
    all_wrong.effective_membership = sample.effective_membership.clone();
    let err = sample.check_transfer_preconditions(&all_wrong).unwrap_err();
    assert_eq!(err.to_string(), "Committed membership changed before trigger");
    all_wrong.committed_membership = sample.committed_membership.clone();
    let err = sample.check_transfer_preconditions(&all_wrong).unwrap_err();
    assert_eq!(err.to_string(), "target 9 is not a fixed voter");
}

#[test]
fn precheck_messages_name_the_qualification() {
    let to_self = synthetic_sample(qualified());
    let err = to_self
        .check_transfer_preconditions(&to_self.observed_preconditions_for(1))
        .unwrap_err();
    assert_eq!(err.to_string(), "target 1 is the current source");

    let cases = [
        (
            TargetQualification::MissingAck,
            "target 2 is not recently acknowledged: MissingAck",
        ),
        (
            TargetQualification::AckTooOld {
                age: TimeSpan::from_millis(1500),
                max: TimeSpan::from_millis(5),
            },
            "target 2 is not recently acknowledged: AckTooOld { age: 1.5s, max: 5ms }",
        ),
        (
            TargetQualification::MissingLocalCommitted,
            "target 2 progress is unavailable: MissingLocalCommitted",
        ),
        (
            TargetQualification::MissingMatched,
            "target 2 progress is unavailable: MissingMatched",
        ),
        (
            TargetQualification::Lagging {
                matched: log_id(2, 1, 99),
                required: log_id(3, 1, 7),
            },
            "target 2 is lagging: matched ObservedLogId { term: 2, node_id: 1, index: 99 }, \
             required ObservedLogId { term: 3, node_id: 1, index: 7 }",
        ),
        (
            TargetQualification::NotVoter,
            "target 2 is not a fixed voter",
        ),
    ];
    for (qualification, message) in cases {
        let sample = synthetic_sample(qualification);
        let err = sample
            .check_transfer_preconditions(&sample.observed_preconditions_for(2))
            .unwrap_err();
        assert_eq!(err.to_string(), message);
    }
}

#[test]
fn sample_errors_print_their_facts() {
    let cases = [
        (
            GroupControlSampleError::UnknownGroup { group_id: 4 },
            "unknown group 4",
        ),
        (
            GroupControlSampleError::Closed { group_id: 4 },
            "group 4 control sample is closed",
        ),
        (
            GroupControlSampleError::NotLeader {
                group_id: 4,
                local_node_id: 2,
                leader_hint: Some(3),
            },
            "group 4 local node 2 is not leader; hint=Some(3)",
        ),
        (
            GroupControlSampleError::ReadIndexFailed {
                group_id: 4,
                reason: "timeout".into(),
            },
            "group 4 ReadIndex failed: timeout",
        ),
        (
            GroupControlSampleError::InconsistentIdentity {
                group_id: 4,
                reason: "moved".into(),
            },
            "group 4 control sample identity changed: moved",
        ),
        (
            GroupControlSampleError::UnexpectedMembership {
                group_id: 4,
                expected_voters: set(&[30, 1, 2]),
                effective_membership: fixed_membership(&[1]),
                committed_membership: fixed_membership(&[1]),
            },
            "group 4 membership is not the expected fixed voter set {1, 2, 30}",
        ),
        (
            GroupControlSampleError::SampleTooOld {
                group_id: 4,
                elapsed: TimeSpan::from_parts(2, 0).unwrap(),
                max: TimeSpan::from_millis(250),
            },
            "group 4 control sample is too old: 2s >= 250ms",
        ),
    ];
    for (error, message) in cases {
        assert_eq!(error.to_string(), message);
    }
    let echo = GroupControlRequestEcho {
        group_id: 4,
        source: 1,
        target: 2,
    };
    let unknown = GroupControlSampleError::UnknownGroup { group_id: 4 };
    assert_eq!(
        classify_group_control_layout(echo, Err(&unknown)),
        GroupControlLayoutObservation::Unavailable {
            echo,
            reason: "unknown group 4".into()
        }
    );
}

#[test]
fn rejected_precheck_triggers_nothing() {
    let sample = synthetic_sample(TargetQualification::MissingAck);
    let preconditions = sample.observed_preconditions_for(2);
    match submit_transfer_from_sample(&preconditions, Ok(sample)) {
        TransferDecision::Answer(GroupControlRequestResult::PrecheckRejected { echo, reason }) => {
            assert_eq!(echo, preconditions.echo());
            assert!(matches!(
                reason,
                GroupControlPrecheckRejection::Preconditions(
                    GroupControlPrecheckError::TargetNotRecentlyAcked { target: 2, .. }
                )
            ));
        }
        other => panic!("expected a rejection, got {other:?}"),
    }
    let failed = GroupControlSampleError::Closed { group_id: 10 };
    match submit_transfer_from_sample(&preconditions, Err(failed.clone())) {
        TransferDecision::Answer(GroupControlRequestResult::PrecheckRejected { reason, .. }) => {
            assert_eq!(reason, GroupControlPrecheckRejection::Sample(failed));
        }
        other => panic!("expected a rejection, got {other:?}"),
    }
}

#[test]
fn admitted_transfer_reports_what_the_trigger_returned() {
    for sent in [Ok(()), Err("raft core stopped".to_string())] {
        let sample = synthetic_sample(qualified());
        let preconditions = sample.observed_preconditions_for(2);
        let echo = preconditions.echo();
        match submit_transfer_from_sample(&preconditions, Ok(sample)) {
            TransferDecision::Trigger(trigger) => {
                assert_eq!(trigger.target(), 2);
                let failed = sent.is_err();
                let result = trigger.finish(sent);
                if failed {
                    assert_eq!(
                        result,
                        GroupControlRequestResult::NotSubmitted {
                            echo,
                            reason: "raft core stopped".into()
                        }
                    );
                } else {
                    assert_eq!(result, GroupControlRequestResult::TriggerQueued { echo });
                }
            }
            other => panic!("expected a trigger, got {other:?}"),
        }
    }
}

fn stored(voters: &[u64]) -> StoredMembership {
    StoredMembership {
        log_id: Some(log_id(1, 1, 0)),
        voter_configs: vec![set(voters)],
        nodes: voters.iter().map(|&id| (id, format!("node-{id}"))).collect(),
    }
}

fn raw_state(committed: Option<ObservedLogId>) -> RawState {
    RawState {
        server_state: RaftServerState::Leader,
        effective: stored(&[1, 2, 3, 4]),
        committed: stored(&[1, 2, 3, 4]),
        local_committed: committed,
    }
}

fn metrics() -> ControlMetrics {
    ControlMetrics {
        state: RaftServerState::Leader,
        current_leader: Some(1),
        vote: VoteObservation::new(3, 1, true),
        membership_config: stored(&[1, 2, 3, 4]),
        committed_membership_config: stored(&[1, 2, 3, 4]),
        replication: Some(BTreeMap::from([
            (2, Some(log_id(3, 1, 8))),
            (3, Some(log_id(2, 1, 99))),
            (4, None),
        ])),
    }
}

fn request() -> SampleRequest {
    SampleRequest {
        group_id: 10,
        local_node_id: 1,
        expected_voters: vec![4, 3, 2, 1, 1],
        max_sample_age: TimeSpan::from_millis(100),
        max_target_ack_age: TimeSpan::from_millis(50),
    }
}

fn acks() -> Option<BTreeMap<u64, Option<TimeSpan>>> {
    Some(BTreeMap::from([
        (2, Some(TimeSpan::from_millis(49))),
        (3, Some(TimeSpan::from_millis(1))),
        (4, Some(TimeSpan::from_millis(50))),
    ]))
}

type Sampled = Result<GroupControlSample, GroupControlSampleError>;

fn sample_with(
    first: RawState,
    metrics: ControlMetrics,
    second: RawState,
    elapsed: TimeSpan,
) -> Sampled {
    request()
        .first_state(Some(first))?
        .read_index(Ok(Some(log_id(3, 1, 7))))?
        .metrics(Some(metrics))?
        .second_state(Some(second))?
        .finish(acks(), elapsed)
}

#[test]
fn sampling_qualifies_every_expected_voter() {
    // What is committed locally may move on between the two points; the later one counts.
    let sample = sample_with(
        raw_state(Some(log_id(3, 1, 6))),
        metrics(),
        raw_state(Some(log_id(3, 1, 7))),
        TimeSpan::from_millis(99),
    )
    .expect("sample");
    assert_eq!(sample.group_id, 10);
    assert_eq!(sample.leader_id, 1);
    assert_eq!(sample.server_state, GroupServerState::Leader);
    assert_eq!(sample.read_log_id, Some(log_id(3, 1, 7)));
    assert_eq!(sample.local_committed, Some(log_id(3, 1, 7)));
    assert_eq!(sample.sample_age, TimeSpan::from_millis(99));
    assert_eq!(sample.effective_membership.voter_configs, vec![set(&[1, 2, 3, 4])]);
    assert_eq!(
        sample.target_qualifications,
        BTreeMap::from([
            (1, TargetQualification::Source),
            (
                2,
                TargetQualification::Qualified {
                    ack_age: TimeSpan::from_millis(49),
                    matched: log_id(3, 1, 8)
                }
            ),
            (
                3,
                TargetQualification::Lagging {
                    matched: log_id(2, 1, 99),
                    required: log_id(3, 1, 7)
                }
            ),
            (
                4,
                TargetQualification::AckTooOld {
                    age: TimeSpan::from_millis(50),
                    max: TimeSpan::from_millis(50)
                }
            ),
        ])
    );
}

#[test]
fn sampling_without_progress_says_what_is_missing() {
    let mut unknown = metrics();
    unknown.replication = None;
    let sample = sample_with(
        raw_state(Some(log_id(3, 1, 7))),
        unknown,
        raw_state(Some(log_id(3, 1, 7))),
        TimeSpan::from_millis(1),
    )
    .unwrap();
    assert_eq!(
        sample.target_qualifications[&2],
        TargetQualification::MissingMatched
    );
    let sample = sample_with(
        raw_state(None),
        metrics(),
        raw_state(None),
        TimeSpan::from_millis(1),
    )
    .unwrap();
    assert_eq!(
        sample.target_qualifications[&3],
        TargetQualification::MissingLocalCommitted
    );
    let silent = request()
        .first_state(Some(raw_state(None)))
        .unwrap()
        .read_index(Ok(None))
        .unwrap()
        .metrics(Some(metrics()))
        .unwrap()
        .second_state(Some(raw_state(None)))
        .unwrap()
        .finish(None, TimeSpan::from_millis(1))
        .unwrap();
    assert_eq!(
        silent.target_qualifications[&2],
        TargetQualification::MissingAck
    );
    assert_eq!(silent.read_log_id, None);
}

#[test]
fn sampling_stops_at_the_first_fault() {
    let closed = GroupControlSampleError::Closed { group_id: 10 };
    assert_eq!(request().first_state(None).unwrap_err(), closed);
    let mut down = raw_state(None);
    down.server_state = RaftServerState::Shutdown;
    assert_eq!(request().first_state(Some(down)).unwrap_err(), closed);
    let first = request().first_state(Some(raw_state(None))).unwrap();
    assert_eq!(
        first
            .read_index(Err(ReadIndexError::ForwardToLeader { leader_id: Some(3) }))
            .unwrap_err(),
        GroupControlSampleError::NotLeader {
            group_id: 10,
            local_node_id: 1,
            leader_hint: Some(3)
        }
    );
    let first = request().first_state(Some(raw_state(None))).unwrap();
    assert_eq!(
        first
            .read_index(Err(ReadIndexError::Failed {
                reason: "quorum".into()
            }))
            .unwrap_err()
            .to_string(),
        "group 10 ReadIndex failed: quorum"
    );
    let indexed = request()
        .first_state(Some(raw_state(None)))
        .unwrap()
        .read_index(Ok(None))
        .unwrap();
    assert_eq!(indexed.metrics(None).unwrap_err(), closed);

    let soon = TimeSpan::from_millis(1);
    let mut follower = raw_state(None);
    follower.server_state = RaftServerState::Follower;
    assert_eq!(
        sample_with(raw_state(None), metrics(), follower, soon)
            .unwrap_err()
            .to_string(),
        "group 10 control sample identity changed: point reads server state differs: \
         Leader != Follower"
    );
    let mut moved = raw_state(None);
    moved.committed = stored(&[1, 2]);
    assert_eq!(
        sample_with(raw_state(None), metrics(), moved, soon)
            .unwrap_err()
            .to_string(),
        "group 10 control sample identity changed: point reads committed membership differs"
    );
    let mut ended = metrics();
    ended.state = RaftServerState::Shutdown;
    assert_eq!(
        sample_with(raw_state(None), ended, raw_state(None), soon).unwrap_err(),
        closed
    );
    let mut other = metrics();
    other.membership_config = stored(&[1, 2]);
    assert_eq!(
        sample_with(raw_state(None), other, raw_state(None), soon)
            .unwrap_err()
            .to_string(),
        "group 10 control sample identity changed: metrics effective membership differs"
    );
    let mut led = metrics();
    led.current_leader = Some(2);
    assert_eq!(
        sample_with(raw_state(None), led, raw_state(None), soon).unwrap_err(),
        GroupControlSampleError::NotLeader {
            group_id: 10,
            local_node_id: 1,
            leader_hint: Some(2)
        }
    );
    let mut unsure = metrics();
    unsure.vote.committed = false;
    assert_eq!(
        sample_with(raw_state(None), unsure, raw_state(None), soon)
            .unwrap_err()
            .to_string(),
        "group 10 control sample identity changed: flushed vote VoteObservation { term: 3, \
         node_id: 1, committed: false } does not match local leader 1"
    );
    let late = TimeSpan::from_millis(100);
    assert_eq!(
        sample_with(raw_state(None), metrics(), raw_state(None), late).unwrap_err(),
        GroupControlSampleError::SampleTooOld {
            group_id: 10,
            elapsed: late,
            max: late
        }
    );
}

#[test]
fn sampling_rejects_joint_and_learner_memberships() {
    let joint = StoredMembership {
        voter_configs: vec![set(&[1, 2, 3, 4]), set(&[1, 2, 3])],
        ..stored(&[1, 2, 3, 4])
    };
    let mut learner = stored(&[1, 2, 3, 4]);
    learner.nodes.insert(5, "node-5".into());
    for membership in [joint, learner] {
        let mut state = raw_state(None);
        state.effective = membership.clone();
        let mut again = raw_state(None);
        again.effective = membership.clone();
        let mut seen = metrics();
        seen.membership_config = membership;
        let error =
            sample_with(state, seen, again, TimeSpan::from_millis(1)).unwrap_err();
        assert!(matches!(
            error,
            GroupControlSampleError::UnexpectedMembership { group_id: 10, .. }
        ));
    }
}

#[test]
fn log_identity_covers_only_its_own_leader() {
    assert!(covers_log_id(log_id(3, 1, 7), log_id(3, 1, 7)));
    assert!(covers_log_id(log_id(3, 1, 8), log_id(3, 1, 7)));
    assert!(!covers_log_id(log_id(3, 1, 6), log_id(3, 1, 7)));
    assert!(!covers_log_id(log_id(4, 1, 9), log_id(3, 1, 7)));
    assert!(!covers_log_id(log_id(3, 2, 9), log_id(3, 1, 7)));
}

#[test]
fn time_spans_compare_and_convert() {
    let a = TimeSpan::from_millis(1999);
    assert_eq!((a.secs(), a.subsec_nanos()), (1, 999_000_000));
    assert!(TimeSpan::from_parts(1, 1_000_000_000).is_none());
    let b = TimeSpan::from_parts(2, 0).unwrap();
    assert!(b.at_least(&a) && !a.at_least(&b) && a.at_least(&a));
    assert!(TimeSpan::from_millis(0).is_zero() && !a.is_zero());
}
