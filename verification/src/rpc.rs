//! Inbound calls: limits, admission and dispatch by group and path.

use crate::snapshot;
use crate::snapshot::BYTE_LIMIT;
use crate::snapshot_rpc::SnapshotDecodeError;
use crate::snapshot_rpc::ENVELOPE;
use vstd::prelude::*;

verus! {

/// The smallest message limit, in bytes.
pub const WIRE_FLOOR: usize = 4_194_304;

/// The status that a failed call is answered with.
#[derive(Debug, Clone, Copy, PartialEq, Eq, Structural)]
pub enum StatusCode {
    ResourceExhausted,
    InvalidArgument,
    Internal,
}

/// The status and message that a failed call is answered with.
#[derive(Debug, Clone, Copy)]
pub struct CallStatus {
    pub code: StatusCode,
    pub message: &'static str,
}

/// A call's status has `code` and `message`.
pub open spec fn is_status(status: CallStatus, code: StatusCode, message: Seq<char>) -> bool {
    status.code == code && status.message@ == message
}

/// Serves the Raft service.
#[derive(Debug)]
pub struct GrpcServer;

impl GrpcServer {
    /// The message limit for images of up to `cap` bytes: room for the envelope, and never below the
    /// limit for other messages. A byte limit out of range has none.
    pub fn wire_limit(cap: usize) -> (limit: Option<usize>)
        ensures
            limit is Some <==> snapshot::is_valid_cap(cap as int),
            limit matches Some(limit) ==> limit == if cap + ENVELOPE >= WIRE_FLOOR {
                cap + ENVELOPE
            } else {
                WIRE_FLOOR as int
            },
    {
        if cap == 0 || cap > BYTE_LIMIT {
            return None;
        }
        let wide: usize = cap + ENVELOPE;
        if wide >= WIRE_FLOOR {
            Some(wide)
        } else {
            Some(WIRE_FLOOR)
        }
    }
}

/// How a call is taken in.
#[derive(Debug, Clone, Copy, PartialEq, Eq, Structural)]
pub enum Admission {
    /// At once.
    Direct,
    /// Under the snapshot slot, in a task of its own that keeps the slot even when the caller leaves.
    Slot,
}

/// How a call on `path` is taken in: snapshot installs take the slot.
pub fn admission(path: &String) -> (admission: Admission)
    ensures
        admission == if path@ == "/raft/snapshot"@ {
            Admission::Slot
        } else {
            Admission::Direct
        },
{
    if *path == "/raft/snapshot".to_owned() {
        Admission::Slot
    } else {
        Admission::Direct
    }
}

/// The status of an install while another one holds the slot.
pub fn slot_busy() -> (status: CallStatus)
    ensures
        is_status(status, StatusCode::ResourceExhausted, "native snapshot install busy"@),
{
    CallStatus { code: StatusCode::ResourceExhausted, message: "native snapshot install busy" }
}

/// The status of an install whose task stopped.
pub fn task_stopped() -> (status: CallStatus)
    ensures
        is_status(status, StatusCode::Internal, "native snapshot task stopped"@),
{
    CallStatus { code: StatusCode::Internal, message: "native snapshot task stopped" }
}

/// The status of a snapshot request that could not be decoded.
pub fn decode_status(error: SnapshotDecodeError) -> (status: CallStatus)
    ensures
        match error {
            SnapshotDecodeError::SizeLimit => is_status(
                status,
                StatusCode::ResourceExhausted,
                "native snapshot size limit"@,
            ),
            SnapshotDecodeError::Encoding => is_status(
                status,
                StatusCode::InvalidArgument,
                "invalid native snapshot encoding"@,
            ),
        },
{
    match error {
        SnapshotDecodeError::SizeLimit => CallStatus {
            code: StatusCode::ResourceExhausted,
            message: "native snapshot size limit",
        },
        SnapshotDecodeError::Encoding => CallStatus {
            code: StatusCode::InvalidArgument,
            message: "invalid native snapshot encoding",
        },
    }
}

/// Which handler takes a call.
#[derive(Debug, Clone, Copy, PartialEq, Eq, Structural)]
pub enum Handler {
    /// The call is answered with a stopped Raft core.
    Stopped,
    Append,
    /// The snapshot handler, with the byte limit of the group.
    Snapshot { cap: usize },
    Vote,
    TransferLeader,
}

/// The handler of a call on `path` for a group with byte limit `cap`, where the group is known.
pub open spec fn handler_of(path: Seq<char>, cap: Option<usize>) -> Handler {
    match cap {
        None => Handler::Stopped,
        Some(cap) => if path == "/raft/append"@ {
            Handler::Append
        } else if path == "/raft/snapshot"@ {
            Handler::Snapshot { cap }
        } else if path == "/raft/vote"@ {
            Handler::Vote
        } else if path == "/raft/transfer_leader"@ {
            Handler::TransferLeader
        } else {
            Handler::Stopped
        },
    }
}

/// Finds the handler of a call. A call for an unknown group or path is answered as by a stopped
/// Raft core.
pub fn demux_raft_call(path: &String, cap: Option<usize>) -> (handler: Handler)
    ensures
        handler == handler_of(path@, cap),
{
    let cap = match cap {
        None => {
            return Handler::Stopped;
        },
        Some(cap) => cap,
    };
    if *path == "/raft/append".to_owned() {
        Handler::Append
    } else if *path == "/raft/snapshot".to_owned() {
        Handler::Snapshot { cap }
    } else if *path == "/raft/vote".to_owned() {
        Handler::Vote
    } else if *path == "/raft/transfer_leader".to_owned() {
        Handler::TransferLeader
    } else {
        Handler::Stopped
    }
}

/// Every request within the byte limit fits a message: the limit has room for the largest envelope
/// and the largest image.
pub proof fn law_wire_limit_has_room_for_every_request(request: Seq<u8>, cap: int)
    requires
        crate::snapshot_rpc::within_envelope(request, cap),
    ensures
        request.len() <= if cap + ENVELOPE >= WIRE_FLOOR {
            cap + ENVELOPE
        } else {
            WIRE_FLOOR as int
        },
{
}

/// A byte limit from one byte to 64 MiB has a message limit: 1 MiB more, and 4 MiB at least. No
/// other has one.
pub proof fn law_messages_have_room_for_image_and_envelope(cap: usize, limit: Option<usize>)
    requires
        call_ensures(GrpcServer::wire_limit, (cap,), limit),
    ensures
        limit is Some <==> 1 <= cap <= 64 * 1024 * 1024,
        limit is Some ==> {
            &&& limit->0 >= cap + 1024 * 1024
            &&& limit->0 >= 4 * 1024 * 1024
            &&& limit->0 == cap + 1024 * 1024 || limit->0 == 4 * 1024 * 1024
        },
{
}

/// A call for a group that is not known, or on a path that is not, is answered as by a stopped Raft
/// core; every other goes to the handler of its path, and a snapshot with the byte limit of its
/// group. Snapshots alone take the slot.
pub proof fn law_calls_go_to_their_handlers(
    path: String,
    cap: Option<usize>,
    handler: Handler,
    taken: Admission,
)
    requires
        call_ensures(demux_raft_call, (&path, cap), handler),
        call_ensures(admission, (&path,), taken),
    ensures
        handler is Append <==> cap is Some && path@ == "/raft/append"@,
        handler is Snapshot <==> cap is Some && path@ == "/raft/snapshot"@,
        handler is Vote <==> cap is Some && path@ == "/raft/vote"@,
        handler is TransferLeader <==> cap is Some && path@ == "/raft/transfer_leader"@,
        handler matches Handler::Snapshot { cap: limit } ==> cap == Some(limit),
        taken is Slot <==> path@ == "/raft/snapshot"@,
{
    reveal_strlit("/raft/append");
    reveal_strlit("/raft/snapshot");
    reveal_strlit("/raft/vote");
    reveal_strlit("/raft/transfer_leader");
    assert("/raft/append"@.len() == 12);
    assert("/raft/snapshot"@.len() == 14);
    assert("/raft/vote"@.len() == 10);
    assert("/raft/transfer_leader"@.len() == 21);
}

/// What is too large is told apart from what is badly encoded, and a busy slot from a stopped task.
pub proof fn law_failed_calls_are_told_apart(
    error: crate::snapshot_rpc::SnapshotDecodeError,
    status: CallStatus,
    busy: CallStatus,
    stopped: CallStatus,
)
    requires
        call_ensures(decode_status, (error,), status),
        call_ensures(slot_busy, (), busy),
        call_ensures(task_stopped, (), stopped),
    ensures
        status.code is ResourceExhausted <==> error is SizeLimit,
        status.code is InvalidArgument <==> error is Encoding,
        busy.code is ResourceExhausted,
        stopped.code is Internal,
        error is SizeLimit ==> status.message@ == "native snapshot size limit"@,
        error is Encoding ==> status.message@ == "invalid native snapshot encoding"@,
        busy.message@ == "native snapshot install busy"@,
        stopped.message@ == "native snapshot task stopped"@,
{
}

} // verus!
