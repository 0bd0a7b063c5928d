//! Verified core of a multi-group Raft runtime: group observation and control, native snapshots and
//! their catalog, compaction, and the decisions around them.
//!
//! The library decides; the caller does the input and output. Where the two alternate, the library
//! hands out what is to be done next and takes back what came of it.

pub mod activation;
pub mod bridge;
pub mod building;
pub mod bytes;
pub mod catalog;
pub mod checksum;
pub mod collections;
pub mod control;
pub mod counter;
pub mod counter_codec;
pub mod describe;
pub mod directory;
pub mod error;
pub mod factory;
pub mod files;
pub mod fsm;
pub mod install;
pub mod lifecycle;
pub mod log_id;
pub mod maintenance;
pub mod membership;
pub mod observation;
pub mod pool;
pub mod rpc;
pub mod runtime;
pub mod sampling;
pub mod snapshot;
pub mod snapshot_rpc;
pub mod span;
pub mod staging;
pub mod storage;
pub mod text;
pub mod transfer;

pub use bridge::NativeBuildReservation;
pub use bridge::NativeCaptureError;
pub use bridge::NativeSmOptions;
pub use bridge::SnapshotBuilder;
pub use bridge::StateMachineStore;
pub use catalog::SnapshotCatalog;
pub use control::classify_group_control_layout;
pub use control::GroupControlLayoutObservation;
pub use control::GroupControlPrecheckError;
pub use control::GroupControlPrecheckRejection;
pub use control::GroupControlPreconditions;
pub use control::GroupControlRequestEcho;
pub use control::GroupControlRequestResult;
pub use control::GroupControlSample;
pub use control::GroupControlSampleError;
pub use control::MembershipChangeKind;
pub use control::TargetQualification;
pub use counter::CounterError;
pub use counter::CounterFsm;
pub use error::MultiRaftError;
pub use error::ObservationClosed;
pub use error::ProposeOk;
pub use error::StaleRead;
pub use factory::FsmFactoryContext;
pub use factory::StateMachineFactory;
pub use fsm::ApplyOut;
pub use fsm::CaptureError;
pub use fsm::CaptureRefusal;
pub use fsm::StateMachine;
pub use log_id::ObservedLogId;
pub use maintenance::CompactionProgress;
pub use maintenance::CompactionRejection;
pub use maintenance::CompactionSubmission;
pub use maintenance::DurableSnapshotObservation;
pub use maintenance::LocalStorageStatus;
pub use maintenance::MultiRaft;
pub use maintenance::NATIVE_SNAPSHOT_COMPACTION_CONTRACT;
pub use membership::MembershipObservation;
pub use membership::StoredMembership;
pub use observation::GroupObservation;
pub use observation::GroupServerState;
pub use observation::LocalMembershipRole;
pub use observation::VoteObservation;
pub use pool::GrpcPeerChannelError;
pub use pool::GrpcPeerChannelPool;
pub use rpc::GrpcServer;
pub use runtime::ClusterConfig;
pub use runtime::SnapshotAdvertisement;
pub use runtime::SnapshotMode;
pub use snapshot::NativeSnapshot;
pub use snapshot::NativeSnapshotInfo;
pub use snapshot::SnapshotMeta;
pub use span::TimeSpan;
pub use staging::NativeSnapshotStage;
pub use storage::ErrorKind;
pub use storage::StorageError;
use vstd::prelude::*;

verus! {

/// Identifies a Raft group hosted by a node.
pub type GroupId = u64;

/// Identifies a node of the cluster.
pub type NodeId = u64;

} // verus!
