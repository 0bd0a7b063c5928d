//! Observations of groups and of their memberships.

use std::collections::BTreeSet;

use multiraft::observation::normalize_server_metrics;
use multiraft::observation::RaftServerState;
use multiraft::observation::ServerMetrics;
use multiraft::GroupObservation;
use multiraft::GroupServerState;
use multiraft::LocalMembershipRole;
use multiraft::MembershipObservation;
use multiraft::MultiRaftError;
use multiraft::NodeId;
use multiraft::ObservationClosed;
use multiraft::ObservedLogId;
use multiraft::StoredMembership;
use multiraft::VoteObservation;

fn set(ids: &[NodeId]) -> BTreeSet<NodeId> {
    ids.iter().copied().collect()
}

fn stored_membership(
    term: u64,
    node_id: NodeId,
    index: u64,
    voter_configs: Vec<BTreeSet<NodeId>>,
    all_nodes: &[NodeId],
) -> StoredMembership {
    StoredMembership {
        log_id: Some(ObservedLogId::new(term, node_id, index)),
        voter_configs,
        nodes: all_nodes.iter().map(|&id| (id, String::new())).collect(),
    }
}

fn metrics_with(
    local_node_id: NodeId,
    state: RaftServerState,
    effective_membership: StoredMembership,
    committed_membership: StoredMembership,
) -> ServerMetrics {
    ServerMetrics {
        id: local_node_id,
        vote: VoteObservation::new(9, 2, true),
        state,
        current_leader: Some(2),
        membership_config: effective_membership,
        committed_membership_config: committed_membership,
    }
}

#[test]
fn public_observation_constructors_preserve_joint_identity() {
    let log_id = ObservedLogId::new(7, 2, 11);
    let vote = VoteObservation::new(9, 2, true);
    let membership =
        MembershipObservation::new(Some(log_id), vec![set(&[1, 2]), set(&[2, 3])], set(&[4]));

    assert_eq!(vote.term, 9);
    assert_eq!(vote.node_id, 2);
    assert!(vote.committed);
    assert_eq!(membership.log_id, Some(log_id));
    assert_eq!(membership.voter_configs, vec![set(&[1, 2]), set(&[2, 3])]);
    assert_eq!(membership.learner_ids, set(&[4]));
}

#[test]
fn normalization_preserves_advanced_log_id_and_joint_memberships() {
    let effective =
        stored_membership(7, 2, 11, vec![set(&[1, 2]), set(&[2, 3])], &[1, 2, 3, 4, 5]);
    let committed = stored_membership(6, 3, 8, vec![set(&[1, 2, 3])], &[1, 2, 3, 6]);
    let metrics = metrics_with(4, RaftServerState::Follower, effective, committed);

    let observed = normalize_server_metrics(5, &metrics).expect("active snapshot");

    assert_eq!(observed.group_id, 5);
    assert_eq!(observed.local_node_id, 4);
    assert_eq!(observed.leader_hint, Some(2));
    assert_eq!(
        observed.flushed_vote,
        VoteObservation {
            term: 9,
            node_id: 2,
            committed: true,
        }
    );
    assert_eq!(
        observed.effective_membership.log_id,
        Some(ObservedLogId {
            term: 7,
            node_id: 2,
            index: 11,
        })
    );
    assert_eq!(
        observed.effective_membership.voter_configs,
        vec![set(&[1, 2]), set(&[2, 3])]
    );
    assert_eq!(observed.effective_membership.learner_ids, set(&[4, 5]));
    assert_eq!(
        observed.committed_membership.log_id,
        Some(ObservedLogId {
            term: 6,
            node_id: 3,
            index: 8,
        })
    );
    assert_eq!(
        observed.committed_membership.voter_configs,
        vec![set(&[1, 2, 3])]
    );
    assert_eq!(observed.committed_membership.learner_ids, set(&[6]));
}

#[test]
fn normalization_derives_local_role_from_effective_membership() {
    let effective = stored_membership(7, 2, 11, vec![set(&[1, 2, 3])], &[1, 2, 3, 4]);
    let committed = effective.clone();

    let voter = metrics_with(
        2,
        RaftServerState::Follower,
        effective.clone(),
        committed.clone(),
    );
    let learner = metrics_with(
        4,
        RaftServerState::Follower,
        effective.clone(),
        committed.clone(),
    );
    let absent = metrics_with(9, RaftServerState::Follower, effective, committed);

    assert_eq!(
        normalize_server_metrics(5, &voter)
            .expect("voter snapshot")
            .local_membership_role,
        LocalMembershipRole::Voter
    );
    assert_eq!(
        normalize_server_metrics(5, &learner)
            .expect("learner snapshot")
            .local_membership_role,
        LocalMembershipRole::Learner
    );
    assert_eq!(
        normalize_server_metrics(5, &absent)
            .expect("absent snapshot")
            .local_membership_role,
        LocalMembershipRole::NotMember
    );
}

#[test]
fn normalization_maps_active_states_and_rejects_shutdown() {
    let membership = stored_membership(7, 2, 11, vec![set(&[1, 2, 3])], &[1, 2, 3]);
    let active_states = [
        (RaftServerState::Learner, GroupServerState::Learner),
        (RaftServerState::Follower, GroupServerState::Follower),
        (RaftServerState::Candidate, GroupServerState::Candidate),
        (RaftServerState::Leader, GroupServerState::Leader),
    ];

    for (raw, expected) in active_states {
        let metrics = metrics_with(1, raw, membership.clone(), membership.clone());
        assert_eq!(
            normalize_server_metrics(5, &metrics)
                .expect("active snapshot")
                .server_state,
            expected
        );
    }

    let shutdown = metrics_with(
        1,
        RaftServerState::Shutdown,
        membership.clone(),
        membership.clone(),
    );
    let err = normalize_server_metrics(5, &shutdown).expect_err("shutdown is terminal");
    assert_eq!(err.group_id(), 5);
}

fn assert_debug_clone_eq<T: std::fmt::Debug + Clone + PartialEq + Eq>() {}

#[test]
fn public_observation_contract_is_backend_neutral() {
    fn read_sample_fields(sample: GroupObservation) {
        let _: u64 = sample.group_id;
        let _: u64 = sample.local_node_id;
        let _: LocalMembershipRole = sample.local_membership_role;
        let _: GroupServerState = sample.server_state;
        let _: Option<u64> = sample.leader_hint;
        let _: u64 = sample.flushed_vote.term;
        let _: u64 = sample.flushed_vote.node_id;
        let _: bool = sample.flushed_vote.committed;
        let _: usize = sample.effective_membership.voter_configs.len();
        let _: usize = sample.effective_membership.learner_ids.len();
        if let Some(log_id) = sample.effective_membership.log_id {
            let _: u64 = log_id.term;
            let _: u64 = log_id.node_id;
            let _: u64 = log_id.index;
        }
        let _: usize = sample.committed_membership.voter_configs.len();
        let _: usize = sample.committed_membership.learner_ids.len();
        if let Some(log_id) = sample.committed_membership.log_id {
            let _: u64 = log_id.term;
            let _: u64 = log_id.node_id;
            let _: u64 = log_id.index;
        }
    }

    assert_debug_clone_eq::<GroupObservation>();
    assert_debug_clone_eq::<VoteObservation>();
    assert_debug_clone_eq::<MembershipObservation>();
    assert_debug_clone_eq::<ObservedLogId>();
    assert_debug_clone_eq::<LocalMembershipRole>();
    assert_debug_clone_eq::<GroupServerState>();
    assert_debug_clone_eq::<ObservationClosed>();

    let _read_sample_fields: fn(GroupObservation) = read_sample_fields;

    let err: MultiRaftError = ObservationClosed::new(9).into();
    assert!(matches!(err, MultiRaftError::ObservationClosed(_)));
}

#[test]
fn voters_of_any_configuration_are_no_learners() {
    // Node 1 left the newer configuration but still votes in the older one.
    let joint = stored_membership(1, 1, 1, vec![set(&[1, 2]), set(&[2, 3])], &[1, 2, 3, 4]);
    for (node, role) in [
        (1, LocalMembershipRole::Voter),
        (3, LocalMembershipRole::Voter),
        (4, LocalMembershipRole::Learner),
        (5, LocalMembershipRole::NotMember),
    ] {
        let metrics = metrics_with(node, RaftServerState::Learner, joint.clone(), joint.clone());
        let observed = normalize_server_metrics(5, &metrics).unwrap();
        assert_eq!(observed.local_membership_role, role);
        assert_eq!(observed.effective_membership.learner_ids, set(&[4]));
    }
}

#[test]
fn log_positions_are_ordered_by_leader_before_index() {
    let positions = [
        ObservedLogId::new(1, 9, 9),
        ObservedLogId::new(2, 1, 7),
        ObservedLogId::new(2, 1, 8),
        ObservedLogId::new(2, 2, 0),
        ObservedLogId::new(3, 0, 0),
    ];
    for (i, a) in positions.iter().enumerate() {
        for (j, b) in positions.iter().enumerate() {
            assert_eq!(a.is_before(b), i < j);
        }
    }
}
