//! Channels to peers and inbound calls.

use multiraft::pool::ChannelStep;
use multiraft::rpc::admission;
use multiraft::rpc::decode_status;
use multiraft::rpc::demux_raft_call;
use multiraft::rpc::slot_busy;
use multiraft::rpc::task_stopped;
use multiraft::rpc::Admission;
use multiraft::rpc::Handler;
use multiraft::rpc::StatusCode;
use multiraft::snapshot_rpc::SnapshotDecodeError;
use multiraft::GrpcPeerChannelError;
use multiraft::GrpcPeerChannelPool;
use multiraft::GrpcServer;

type Step = ChannelStep<&'static str, &'static str>;

#[test]
fn unknown_peers_are_named() {
    let pool: GrpcPeerChannelPool<&'static str> = GrpcPeerChannelPool::new(Vec::new());
    let step: Step = pool.channel(9);
    match step {
        ChannelStep::Ready(Err(error)) => {
            assert!(matches!(
                error,
                GrpcPeerChannelError::UnknownPeer { peer: 9 }
            ));
            assert_eq!(error.to_string(), "peer 9 is not configured");
            assert!(error.source().is_none());
        }
        other => panic!("expected an error, got {other:?}"),
    }
    assert_eq!(pool.unique_peer_links(), 0);
}

#[test]
fn failed_connections_are_reported_and_not_cached() {
    let mut pool: GrpcPeerChannelPool<&'static str> =
        GrpcPeerChannelPool::new(vec![(3, "127.0.0.1:0".into())]);
    let error = pool.connected(3, Err("refused")).unwrap_err();
    assert!(matches!(
        error,
        GrpcPeerChannelError::Connect { peer: 3, .. }
    ));
    assert_eq!(error.to_string(), "failed to connect to peer 3");
    assert_eq!(error.source(), Some(&"refused"));
    assert_eq!(pool.unique_peer_links(), 0);
}

#[test]
fn channels_are_cached_once_per_peer() {
    let mut pool: GrpcPeerChannelPool<&'static str> =
        GrpcPeerChannelPool::new(vec![(1, "a:1".into()), (2, "b:2".into()), (1, "c:3".into())]);
    let step: Step = pool.channel(1);
    assert!(matches!(
        step,
        ChannelStep::Connect { endpoint } if endpoint == "http://c:3"
    ));
    let first: Result<&'static str, GrpcPeerChannelError<()>> = pool.connected(1, Ok("first"));
    assert_eq!(first.unwrap(), "first");
    // Somebody else connected meanwhile: the cached channel stays.
    let second: Result<&'static str, GrpcPeerChannelError<()>> = pool.connected(1, Ok("second"));
    assert_eq!(second.unwrap(), "first");
    let step: Step = pool.channel(1);
    assert!(matches!(step, ChannelStep::Ready(Ok("first"))));
    assert_eq!(pool.unique_peer_links(), 1);
    let other: Result<&'static str, GrpcPeerChannelError<()>> = pool.connected(2, Ok("other"));
    assert_eq!(other.unwrap(), "other");
    assert_eq!(pool.unique_peer_links(), 2);
}

#[test]
fn only_configured_peers_get_links() {
    let mut pool: GrpcPeerChannelPool<&'static str> =
        GrpcPeerChannelPool::new(vec![(1, "a:1".into()), (2, "b:2".into())]);
    let stray: Result<&'static str, GrpcPeerChannelError<()>> = pool.connected(9, Ok("stray"));
    assert!(matches!(
        stray,
        Err(GrpcPeerChannelError::UnknownPeer { peer: 9 })
    ));
    let step: Step = pool.channel(9);
    assert!(matches!(
        step,
        ChannelStep::Ready(Err(GrpcPeerChannelError::UnknownPeer { peer: 9 }))
    ));
    assert_eq!(pool.unique_peer_links(), 0);
    for peer in [1, 2, 9, 2, 1] {
        let _: Result<&'static str, GrpcPeerChannelError<()>> = pool.connected(peer, Ok("link"));
    }
    assert_eq!(pool.unique_peer_links(), 2);
    // A failure after that leaves the links alone.
    let failed: Result<&'static str, GrpcPeerChannelError<()>> = pool.connected(1, Err(()));
    assert!(failed.is_err());
    let step: Step = pool.channel(1);
    assert!(matches!(step, ChannelStep::Ready(Ok("link"))));
    assert_eq!(pool.unique_peer_links(), 2);
}

#[test]
fn wire_limits_leave_room_for_the_envelope() {
    assert_eq!(GrpcServer::wire_limit(0), None);
    assert_eq!(GrpcServer::wire_limit(1), Some(4_194_304));
    assert_eq!(GrpcServer::wire_limit(3_145_728), Some(4_194_304));
    assert_eq!(GrpcServer::wire_limit(3_145_729), Some(4_194_305));
    assert_eq!(GrpcServer::wire_limit(67_108_864), Some(68_157_440));
    assert_eq!(GrpcServer::wire_limit(67_108_865), None);
}

#[test]
fn calls_go_to_the_handler_of_their_path() {
    for (path, handler) in [
        ("/raft/append", Handler::Append),
        ("/raft/snapshot", Handler::Snapshot { cap: 9 }),
        ("/raft/vote", Handler::Vote),
        ("/raft/transfer_leader", Handler::TransferLeader),
        ("/raft/other", Handler::Stopped),
        ("", Handler::Stopped),
    ] {
        let path = path.to_string();
        assert_eq!(demux_raft_call(&path, Some(9)), handler);
        assert_eq!(demux_raft_call(&path, None), Handler::Stopped);
        let expected = if path == "/raft/snapshot" {
            Admission::Slot
        } else {
            Admission::Direct
        };
        assert_eq!(admission(&path), expected);
    }
}

#[test]
fn statuses_carry_their_messages() {
    for (status, code, message) in [
        (
            slot_busy(),
            StatusCode::ResourceExhausted,
            "native snapshot install busy",
        ),
        (
            task_stopped(),
            StatusCode::Internal,
            "native snapshot task stopped",
        ),
        (
            decode_status(SnapshotDecodeError::SizeLimit),
            StatusCode::ResourceExhausted,
            "native snapshot size limit",
        ),
        (
            decode_status(SnapshotDecodeError::Encoding),
            StatusCode::InvalidArgument,
            "invalid native snapshot encoding",
        ),
    ] {
        assert_eq!(status.code, code);
        assert_eq!(status.message, message);
    }
}
