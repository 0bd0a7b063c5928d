//! Public errors and propose results.

use crate::text;
use crate::GroupId;
use crate::NodeId;
use vstd::prelude::*;
use vstd::string::*;

verus! {

/// `anyhow::Error`, carried through without looking inside.
#[verifier::external_type_specification]
#[verifier::external_body]
pub struct ExAnyhowError(anyhow::Error);

/// Terminal outcome for a local group observation stream.
#[non_exhaustive]
#[derive(Debug, Clone, Copy, PartialEq, Eq, Structural)]
pub struct ObservationClosed {
    group_id: GroupId,
}

impl ObservationClosed {
    /// The group whose local observation stream has ended.
    pub closed spec fn group(self) -> GroupId {
        self.group_id
    }

    /// The message of the error.
    pub open spec fn text(self) -> Seq<char> {
        "group "@ + text::decimal(self.group() as nat) + " observation is closed"@
    }

    /// Create a terminal observation error for `group_id`.
    pub fn new(group_id: GroupId) -> (closed: Self)
        ensures
            closed.group() == group_id,
    {
        Self { group_id }
    }

    /// The group whose local observation stream has ended.
    pub fn group_id(&self) -> (group_id: GroupId)
        ensures
            group_id == self.group(),
    {
        self.group_id
    }

    /// The message of the error.
    pub fn to_string(&self) -> (text: String)
        ensures
            text@ == self.text(),
    {
        let mut text = "group ".to_owned();
        text::append_u64(&mut text, self.group_id);
        text.append(" observation is closed");
        text
    }
}

/// Errors returned by propose and group operations.
#[derive(Debug)]
pub enum MultiRaftError {
    NotLeader { hint: Option<NodeId> },
    UnknownGroup(u64),
    StaleQueriesDisabled,
    LiveSnapshotInstallUnsupported,
    ObservationClosed(ObservationClosed),
    Other(anyhow::Error),
}

impl From<ObservationClosed> for MultiRaftError {
    fn from(closed: ObservationClosed) -> (error: Self) {
        MultiRaftError::ObservationClosed(closed)
    }
}

impl vstd::std_specs::convert::FromSpecImpl<ObservationClosed> for MultiRaftError {
    open spec fn obeys_from_spec() -> bool {
        true
    }

    open spec fn from_spec(closed: ObservationClosed) -> Self {
        MultiRaftError::ObservationClosed(closed)
    }
}

impl From<anyhow::Error> for MultiRaftError {
    fn from(error: anyhow::Error) -> (wrapped: Self) {
        MultiRaftError::Other(error)
    }
}

impl vstd::std_specs::convert::FromSpecImpl<anyhow::Error> for MultiRaftError {
    open spec fn obeys_from_spec() -> bool {
        true
    }

    open spec fn from_spec(error: anyhow::Error) -> Self {
        MultiRaftError::Other(error)
    }
}

impl MultiRaftError {
    /// The message of an error that is not an application error.
    pub open spec fn own_text(self) -> Seq<char> {
        match self {
            MultiRaftError::NotLeader { hint } => "not leader; hint="@ + text::option_text(hint),
            MultiRaftError::UnknownGroup(group) => "unknown group "@ + text::decimal(group as nat),
            MultiRaftError::StaleQueriesDisabled => {
                "stale queries disabled (set ClusterConfig::enable_stale_queries)"@
            },
            MultiRaftError::LiveSnapshotInstallUnsupported => {
                "live standby snapshot install is unsupported"@
            },
            MultiRaftError::ObservationClosed(closed) => closed.text(),
            MultiRaftError::Other(_) => Seq::empty(),
        }
    }

    /// The message of the error. An application error prints as itself.
    pub fn to_string(&self) -> (text: String)
        ensures
            match *self {
                MultiRaftError::Other(error) => to_string_from_display_ensures::<anyhow::Error>(
                    &error,
                    text,
                ),
                _ => text@ == self.own_text(),
            },
    {
        match self {
            MultiRaftError::NotLeader { hint } => {
                let mut text = "not leader; hint=".to_owned();
                text::append_option(&mut text, *hint);
                text
            },
            MultiRaftError::UnknownGroup(group) => {
                let mut text = "unknown group ".to_owned();
                text::append_u64(&mut text, *group);
                text
            },
            MultiRaftError::StaleQueriesDisabled => {
                "stale queries disabled (set ClusterConfig::enable_stale_queries)".to_owned()
            },
            MultiRaftError::LiveSnapshotInstallUnsupported => {
                "live standby snapshot install is unsupported".to_owned()
            },
            MultiRaftError::ObservationClosed(closed) => closed.to_string(),
            MultiRaftError::Other(error) => error.to_string(),
        }
    }
}

/// Successful propose: log index and term after quorum commit and apply, a linearizable write for
/// that group.
#[derive(Debug, Clone)]
pub struct ProposeOk {
    pub index: u64,
    pub term: u64,
}

/// Result of a local state machine read for standby service offload.
///
/// Never linearizable: `applied_index` is this node's last applied log only.
#[derive(Debug, Clone)]
pub struct StaleRead<T> {
    pub value: T,
    pub applied_index: u64,
    pub applied_term: u64,
}

/// The messages of errors name the group or the leader that they speak of; an application error
/// prints as itself.
pub proof fn law_errors_name_what_they_speak_of(
    error: MultiRaftError,
    message: String,
    closed: ObservationClosed,
    ended: String,
    group: GroupId,
)
    requires
        call_ensures(MultiRaftError::to_string, (&error,), message),
        call_ensures(ObservationClosed::to_string, (&closed,), ended),
        call_ensures(ObservationClosed::new, (group,), closed),
    ensures
        ended@ == "group "@ + text::decimal(group as nat) + " observation is closed"@,
        error == MultiRaftError::ObservationClosed(closed) ==> message@ == ended@,
        error matches MultiRaftError::NotLeader { hint: Some(leader) } ==> message@
            == "not leader; hint="@ + ("Some("@ + text::decimal(leader as nat) + ")"@),
        error matches MultiRaftError::NotLeader { hint: None } ==> message@ == "not leader; hint="@
            + "None"@,
        error matches MultiRaftError::UnknownGroup(unknown) ==> message@ == "unknown group "@
            + text::decimal(unknown as nat),
        error is StaleQueriesDisabled ==> message@
            == "stale queries disabled (set ClusterConfig::enable_stale_queries)"@,
        error is LiveSnapshotInstallUnsupported ==> message@
            == "live standby snapshot install is unsupported"@,
        error matches MultiRaftError::Other(inner) ==> to_string_from_display_ensures::<
            anyhow::Error,
        >(&inner, message),
{
}

/// The end of an observation stream says of which group it is.
pub proof fn law_ended_observations_keep_their_group(
    group: GroupId,
    closed: ObservationClosed,
    read: GroupId,
)
    requires
        call_ensures(ObservationClosed::new, (group,), closed),
        call_ensures(ObservationClosed::group_id, (&closed,), read),
    ensures
        read == group,
{
}

} // verus!
