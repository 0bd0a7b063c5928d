//! Decoding snapshot requests.

use std::collections::BTreeMap;
use std::collections::BTreeSet;

use multiraft::snapshot_rpc::decode_snapshot_request;
use multiraft::snapshot_rpc::framed_image;
use multiraft::snapshot_rpc::SnapshotDecodeError;
use multiraft::ObservedLogId;
use openraft::impls::leader_id_adv::LeaderId;
use openraft::BasicNode;

type Leader = LeaderId<u64, u64>;
type Vote = openraft::Vote<Leader>;
type LogId = openraft::LogId<Leader>;
type SnapshotMeta = openraft::SnapshotMeta<Leader, u64, BasicNode>;
type StoredMembership = openraft::StoredMembership<Leader, u64, BasicNode>;

fn encode(value: (Vote, SnapshotMeta, Vec<u8>)) -> Vec<u8> {
    bincode::serialize(&value).unwrap()
}

#[test]
fn oversized_declared_metadata_is_classified_before_payload_completeness() {
    let meta = SnapshotMeta {
        snapshot_id: "x".repeat(2 * 1024 * 1024),
        ..Default::default()
    };
    let mut encoded = encode((Vote::new_committed(0, 0), meta, Vec::<u8>::new()));
    encoded.truncate(1024 * 1024);
    assert!(matches!(
        decode_snapshot_request(&encoded, 8 * 1024 * 1024),
        Err(SnapshotDecodeError::SizeLimit)
    ));
}

#[test]
fn native_snapshot_decode_rejects_oversize_trailing_and_truncated_input() {
    let encoded = encode((
        Vote::new_committed(0, 0),
        SnapshotMeta::default(),
        vec![7_u8; 5],
    ));
    assert!(decode_snapshot_request(&encoded, 4).is_err());
    let (_, _, data) = decode_snapshot_request(&encoded, 5).unwrap();
    assert_eq!(data, vec![7; 5]);
    let mut trailing = encoded.clone();
    trailing.push(0);
    assert!(decode_snapshot_request(&trailing, 5).is_err());
    assert!(decode_snapshot_request(&encoded[..encoded.len() - 1], 5).is_err());
    assert!(decode_snapshot_request(&[255; 64], 5).is_err());
}

#[test]
fn every_part_of_a_request_is_given_back() {
    let at = |term, node_id, index| LogId::new(LeaderId { term, node_id }, index);
    let nodes = BTreeMap::from([
        (11, BasicNode::new("one")),
        (22, BasicNode::new("two")),
        (44, BasicNode::new("four")),
    ]);
    let meta = SnapshotMeta {
        last_log_id: Some(at(7, 22, 19)),
        last_membership: StoredMembership::new(
            Some(at(6, 11, 3)),
            openraft::Membership::new(
                vec![BTreeSet::from([11]), BTreeSet::from([11, 22])],
                nodes,
            )
            .unwrap(),
        ),
        snapshot_id: "snapshot-19".into(),
    };
    let request = encode((Vote::new_committed(8, 22), meta, b"image".to_vec()));
    let (vote, meta, data) = decode_snapshot_request(&request, 5).unwrap();
    assert_eq!((vote.term, vote.node_id, vote.committed), (8, 22, true));
    assert_eq!(meta.last_log_id, Some(ObservedLogId::new(7, 22, 19)));
    let membership = meta.last_membership;
    assert_eq!(membership.log_id, Some(ObservedLogId::new(6, 11, 3)));
    assert_eq!(
        membership.voter_configs,
        vec![BTreeSet::from([11]), BTreeSet::from([11, 22])]
    );
    assert_eq!(
        membership.nodes,
        BTreeMap::from([
            (11, "one".to_string()),
            (22, "two".to_string()),
            (44, "four".to_string())
        ])
    );
    assert_eq!(meta.snapshot_id, "snapshot-19");
    assert_eq!(data, b"image");
    let uncommitted = encode((Vote::new(8, 22), SnapshotMeta::default(), vec![]));
    let (vote, meta, data) = decode_snapshot_request(&uncommitted, 1).unwrap();
    assert!(!vote.committed && meta.last_log_id.is_none() && data.is_empty());
}

#[test]
fn requests_beyond_the_byte_limit_are_told_apart() {
    let request = encode((
        Vote::new_committed(0, 0),
        SnapshotMeta::default(),
        vec![7_u8; 5],
    ));
    for cap in [0, 4, 67_108_865, usize::MAX] {
        assert_eq!(
            decode_snapshot_request(&request, cap).unwrap_err(),
            SnapshotDecodeError::SizeLimit
        );
    }
    assert_eq!(
        decode_snapshot_request(&vec![0; 1_048_576 + 6], 5).unwrap_err(),
        SnapshotDecodeError::SizeLimit
    );
    assert_eq!(
        decode_snapshot_request(&request[..10], 5).unwrap_err(),
        SnapshotDecodeError::Encoding
    );
}

#[test]
fn images_are_framed_by_eight_bytes() {
    let mut request = vec![9, 9];
    request.extend([3, 0, 0, 0, 0, 0, 0, 0]);
    request.extend([1, 2, 3]);
    assert_eq!(framed_image(&request, 2, 3), Ok(vec![1, 2, 3]));
    assert_eq!(
        framed_image(&request, 2, 2),
        Err(SnapshotDecodeError::SizeLimit)
    );
    assert_eq!(
        framed_image(&request[..12], 2, 3),
        Err(SnapshotDecodeError::Encoding)
    );
    assert_eq!(
        framed_image(&request, 6, 3),
        Err(SnapshotDecodeError::Encoding)
    );
    assert_eq!(
        framed_image(&request, u64::MAX, 3),
        Err(SnapshotDecodeError::Encoding)
    );
    // What the length declares is judged before what is there.
    request[9] = 1;
    assert_eq!(
        framed_image(&request, 2, 3),
        Err(SnapshotDecodeError::SizeLimit)
    );
    let far = vec![0; 1_048_576 + 8];
    assert_eq!(
        framed_image(&far, 1_048_576, 3),
        Err(SnapshotDecodeError::SizeLimit)
    );
}
