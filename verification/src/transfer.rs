//! Submitting a leadership transfer: the precheck decides whether anything is triggered at all.

use crate::control::GroupControlPrecheckError;
use crate::control::GroupControlPrecheckRejection;
use crate::control::GroupControlPreconditions;
use crate::control::GroupControlRequestEcho;
use crate::control::GroupControlRequestResult;
use crate::control::GroupControlSample;
use crate::control::GroupControlSampleError;
use crate::NodeId;
use vstd::prelude::*;

verus! {

/// A transfer that passed its precheck and is to be triggered once.
#[derive(Debug)]
pub struct TransferTrigger {
    /// The request.
    pub echo: GroupControlRequestEcho,
}

/// What a transfer request comes to before anything is triggered.
#[derive(Debug)]
pub enum TransferDecision {
    /// The request is answered without triggering anything.
    Answer(GroupControlRequestResult),
    /// The transfer is to be triggered.
    Trigger(TransferTrigger),
}

/// Decides a transfer request on a fresh sample: a failed sample or an objection of the precheck
/// answers it, and only an admitted request is triggered.
pub fn submit_transfer_from_sample(
    preconditions: &GroupControlPreconditions,
    sample_result: Result<GroupControlSample, GroupControlSampleError>,
) -> (decision: TransferDecision)
    ensures
        match sample_result {
            Err(error) => decision == TransferDecision::Answer(
                GroupControlRequestResult::PrecheckRejected {
                    echo: preconditions.request(),
                    reason: GroupControlPrecheckRejection::Sample(error),
                },
            ),
            Ok(sample) => if sample.admits(*preconditions) {
                decision == TransferDecision::Trigger(
                    TransferTrigger { echo: preconditions.request() },
                )
            } else {
                &&& decision matches TransferDecision::Answer(
                    GroupControlRequestResult::PrecheckRejected {
                        echo,
                        reason: GroupControlPrecheckRejection::Preconditions(error),
                    },
                )
                &&& echo == preconditions.request()
                &&& sample.objects(*preconditions, error)
            },
        },
{
    let echo = preconditions.echo();
    let sample = match sample_result {
        Ok(sample) => sample,
        Err(error) => {
            return TransferDecision::Answer(
                GroupControlRequestResult::PrecheckRejected {
                    echo,
                    reason: GroupControlPrecheckRejection::Sample(error),
                },
            );
        },
    };
    match sample.check_transfer_preconditions(preconditions) {
        Ok(()) => TransferDecision::Trigger(TransferTrigger { echo }),
        Err(error) => TransferDecision::Answer(
            GroupControlRequestResult::PrecheckRejected {
                echo,
                reason: GroupControlPrecheckRejection::Preconditions(error),
            },
        ),
    }
}

impl TransferTrigger {
    /// The node that leadership goes to.
    pub fn target(&self) -> (target: NodeId)
        ensures
            target == self.echo.target,
    {
        self.echo.target
    }

    /// Takes what the trigger returned: queued, or definitely not sent.
    pub fn finish(self, sent: Result<(), String>) -> (result: GroupControlRequestResult)
        ensures
            result == (match sent {
                Ok(()) => GroupControlRequestResult::TriggerQueued { echo: self.echo },
                Err(reason) => GroupControlRequestResult::NotSubmitted { echo: self.echo, reason },
            }),
    {
        match sent {
            Ok(()) => GroupControlRequestResult::TriggerQueued { echo: self.echo },
            Err(reason) => GroupControlRequestResult::NotSubmitted { echo: self.echo, reason },
        }
    }
}

/// What a sample objects to is never admitted, and a sample has one objection: two errors that it
/// objects with have the same message.
pub proof fn law_objection_is_unique(
    sample: GroupControlSample,
    preconditions: GroupControlPreconditions,
    first: GroupControlPrecheckError,
    second: GroupControlPrecheckError,
)
    requires
        sample.objects(preconditions, first),
        sample.objects(preconditions, second),
    ensures
        !sample.admits(preconditions),
        first.text() == second.text(),
{
}

/// Preconditions that were observed in a sample admit a transfer on that sample exactly where the
/// target is qualified; the group's own leader is never admitted as a target.
pub proof fn law_observed_preconditions_admit_qualified_targets(
    sample: GroupControlSample,
    preconditions: GroupControlPreconditions,
)
    requires
        sample.same_identity(preconditions),
    ensures
        sample.admits(preconditions) <==> (sample.qualification_of(preconditions.target) matches Some(
            q,
        ) && q is Qualified),
        sample.qualification_of(preconditions.target) == Some(
            crate::control::TargetQualification::Source,
        ) ==> !sample.admits(preconditions),
{
}

/// A target that a complete sampling qualifies has acknowledged within the limit and holds every
/// entry that is committed locally, under the same leader: a larger index of another leader does
/// not count.
pub proof fn law_qualified_targets_hold_the_committed_log(
    read: crate::sampling::SecondRead,
    acks: crate::sampling::AckAges,
    elapsed: crate::span::TimeSpan,
    sample: GroupControlSample,
    target: NodeId,
)
    requires
        read.is_sample(sample, acks, elapsed),
        sample.qualification_of(target) matches Some(q) && q is Qualified,
    ensures
        target != sample.leader_id,
        read.voters().contains(target),
        crate::sampling::ack_of(acks, target) matches Some(age) && age.as_nanos()
            < read.request.max_target_ack_age.as_nanos(),
        sample.local_committed matches Some(required)
            && crate::sampling::matched_of(read.metrics.replication, target) matches Some(matched)
            && matched.term == required.term && matched.node_id == required.node_id && matched.index
            >= required.index,
{
}

/// A transfer is triggered exactly where a sample could be taken and the precheck of that sample
/// admits it, for the very request; anything else is answered at once, with the sampling error or
/// the objection.
pub proof fn law_transfers_are_triggered_where_they_are_admitted(
    preconditions: GroupControlPreconditions,
    sample: Result<GroupControlSample, GroupControlSampleError>,
    decision: TransferDecision,
    checked: Result<(), GroupControlPrecheckError>,
)
    requires
        call_ensures(submit_transfer_from_sample, (&preconditions, sample), decision),
        sample is Ok ==> call_ensures(
            GroupControlSample::check_transfer_preconditions,
            (&sample->Ok_0, &preconditions),
            checked,
        ),
    ensures
        decision is Trigger <==> sample is Ok && checked is Ok,
        decision matches TransferDecision::Trigger(trigger) ==> trigger.echo.group_id
            == preconditions.group_id && trigger.echo.source == preconditions.expected_source
            && trigger.echo.target == preconditions.target,
        sample is Err ==> decision == TransferDecision::Answer(
            GroupControlRequestResult::PrecheckRejected {
                echo: GroupControlRequestEcho {
                    group_id: preconditions.group_id,
                    source: preconditions.expected_source,
                    target: preconditions.target,
                },
                reason: GroupControlPrecheckRejection::Sample(sample->Err_0),
            },
        ),
        sample is Ok && checked is Err ==> (decision matches TransferDecision::Answer(
            GroupControlRequestResult::PrecheckRejected {
                echo,
                reason: GroupControlPrecheckRejection::Preconditions(error),
            },
        ) && echo.group_id == preconditions.group_id && echo.source
            == preconditions.expected_source && echo.target == preconditions.target && error.text()
            == checked->Err_0.text()),
{
    if sample is Ok && checked is Err {
        let error = decision->Answer_0->PrecheckRejected_reason->Preconditions_0;
        law_objection_is_unique(sample->Ok_0, preconditions, error, checked->Err_0);
    }
}

/// A trigger is sent to the target of the request, and its result is the answer: queued where it
/// was sent, and not submitted, with the reason, where it was not.
pub proof fn law_triggers_answer_for_their_request(
    trigger: TransferTrigger,
    sent: Result<(), String>,
    result: GroupControlRequestResult,
    target: NodeId,
)
    requires
        call_ensures(TransferTrigger::finish, (trigger, sent), result),
        call_ensures(TransferTrigger::target, (&trigger,), target),
    ensures
        target == trigger.echo.target,
        result is TriggerQueued <==> sent is Ok,
        result is NotSubmitted <==> sent is Err,
        sent is Ok ==> result == (GroupControlRequestResult::TriggerQueued { echo: trigger.echo }),
        sent is Err ==> result == (GroupControlRequestResult::NotSubmitted {
            echo: trigger.echo,
            reason: sent->Err_0,
        }),
{
}

} // verus!
