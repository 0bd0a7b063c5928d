//! Messages and conversions of the public errors.

use multiraft::MultiRaftError;
use multiraft::ObservationClosed;
use multiraft::ProposeOk;
use multiraft::StaleRead;

#[test]
fn error_display_and_stale_read() {
    let e = MultiRaftError::NotLeader { hint: Some(2) };
    assert!(e.to_string().contains("not leader"));
    assert!(MultiRaftError::UnknownGroup(7).to_string().contains("7"));
    assert!(MultiRaftError::StaleQueriesDisabled
        .to_string()
        .contains("stale"));
    let unsupported = MultiRaftError::LiveSnapshotInstallUnsupported;
    assert_eq!(
        unsupported.to_string(),
        "live standby snapshot install is unsupported"
    );
    let other: MultiRaftError = anyhow::Error::msg("boom").into();
    assert!(other.to_string().contains("boom"));
    let _ = format!("{:?}", ProposeOk { index: 1, term: 1 });
    let sr = StaleRead {
        value: 42u64,
        applied_index: 3,
        applied_term: 1,
    };
    assert_eq!(sr.value, 42);
    let _ = format!("{sr:?}");
}

#[test]
fn observation_closed_is_typed_and_preserves_group() {
    let closed = ObservationClosed::new(42);
    assert_eq!(closed.group_id(), 42);
    assert_eq!(closed.to_string(), "group 42 observation is closed");

    let err: MultiRaftError = closed.into();
    match err {
        MultiRaftError::ObservationClosed(actual) => assert_eq!(actual, closed),
        other => panic!("expected ObservationClosed, got {other:?}"),
    }
}

#[test]
fn error_messages_are_exact() {
    assert_eq!(
        MultiRaftError::NotLeader { hint: Some(2) }.to_string(),
        "not leader; hint=Some(2)"
    );
    assert_eq!(
        MultiRaftError::NotLeader { hint: None }.to_string(),
        "not leader; hint=None"
    );
    assert_eq!(
        MultiRaftError::UnknownGroup(u64::MAX).to_string(),
        "unknown group 18446744073709551615"
    );
    assert_eq!(
        MultiRaftError::StaleQueriesDisabled.to_string(),
        "stale queries disabled (set ClusterConfig::enable_stale_queries)"
    );
    let closed: MultiRaftError = ObservationClosed::new(0).into();
    assert_eq!(closed.to_string(), "group 0 observation is closed");
    let other: MultiRaftError = anyhow::Error::msg("boom").into();
    assert_eq!(other.to_string(), "boom");
}
