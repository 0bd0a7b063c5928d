//! Bounded shutdown of storage and operation owners.
//!
//! Shutdown runs in turns: the caller carries out one action and reports how it went.

use crate::error::MultiRaftError;
use crate::maintenance::MultiRaft;
use crate::text;
use crate::GroupId;
use std::collections::BTreeSet;
use vstd::pervasive::unreached;
use vstd::prelude::*;
use vstd::std_specs::btree::spec_keys_iter;
use vstd::std_specs::iter::IteratorSpec;
use vstd::string::*;

verus! {

/// One action of a shutdown.
#[derive(Debug, Clone, Copy, PartialEq, Eq, Structural)]
pub enum ShutdownAction {
    /// Close the native snapshot intake of a group.
    CloseIntake(GroupId),
    /// Shut the Raft core of a group down.
    StopRaft(GroupId),
    /// Wait for the compaction task of a group, where there is one.
    JoinOperation(GroupId),
    /// Wait for the transition and application locks of a group.
    AwaitQuiescence(GroupId),
    /// Wait for the node's build budget, so that no build runs any more.
    AcquireBudget,
}

/// How an action went.
#[derive(Debug)]
pub enum ShutdownReport {
    Done,
    /// A Raft core could not be shut down, with its message.
    RaftFailed(String),
    /// A task or the budget was lost.
    Lost(anyhow::Error),
}

/// The stage of a shutdown that each of a list of groups goes through.
#[derive(Debug, Clone, Copy, PartialEq, Eq, Structural)]
enum Stage {
    Close,
    Stop,
    Join,
    Await,
}

impl Stage {
    spec fn action(self, group: GroupId) -> ShutdownAction {
        match self {
            Stage::Close => ShutdownAction::CloseIntake(group),
            Stage::Stop => ShutdownAction::StopRaft(group),
            Stage::Join => ShutdownAction::JoinOperation(group),
            Stage::Await => ShutdownAction::AwaitQuiescence(group),
        }
    }
}

/// The actions before any operation is joined: close every intake, then stop every Raft core.
pub open spec fn stopping_plan(groups: Seq<GroupId>) -> Seq<ShutdownAction> {
    groups.map_values(|g: GroupId| ShutdownAction::CloseIntake(g)) + groups.map_values(
        |g: GroupId| ShutdownAction::StopRaft(g),
    )
}

/// The actions after that: join every operation, wait for every group, then for the budget.
pub open spec fn draining_plan(groups: Seq<GroupId>, operations: Seq<GroupId>) -> Seq<
    ShutdownAction,
> {
    operations.map_values(|g: GroupId| ShutdownAction::JoinOperation(g)) + groups.map_values(
        |g: GroupId| ShutdownAction::AwaitQuiescence(g),
    ).push(ShutdownAction::AcquireBudget)
}

/// What a shutdown does next.
#[derive(Debug)]
pub enum ShutdownTurn {
    /// Carry out the action and go on from `state` with the report.
    Act { state: Shutdown, action: ShutdownAction },
    /// The shutdown is over. The groups are gone where it succeeded.
    Over(Result<(), MultiRaftError>),
}

/// A shutdown that goes on.
#[derive(Debug)]
pub struct Shutdown {
    groups: Vec<GroupId>,
    plan: Vec<ShutdownAction>,
    next: usize,
    draining: bool,
}

/// `anyhow::Error::msg`: an error that prints as `message`.
#[verifier::external_body]
fn error_with_message(message: String) -> (error: anyhow::Error)
    ensures
        forall|text: String|
            to_string_from_display_ensures::<anyhow::Error>(&error, text) ==> text@ == message@,
{
    anyhow::Error::msg(message)
}

fn append_stage(plan: &mut Vec<ShutdownAction>, groups: &Vec<GroupId>, stage: Stage)
    ensures
        final(plan)@ == old(plan)@ + groups@.map_values(|g: GroupId| stage.action(g)),
{
    let ghost start = plan@;
    let mut i: usize = 0;
    while i < groups.len()
        invariant
            i <= groups.len(),
            plan@ == start + groups@.take(i as int).map_values(|g: GroupId| stage.action(g)),
        decreases groups.len() - i,
    {
        let group: GroupId = groups[i];
        let action = match stage {
            Stage::Close => ShutdownAction::CloseIntake(group),
            Stage::Stop => ShutdownAction::StopRaft(group),
            Stage::Join => ShutdownAction::JoinOperation(group),
            Stage::Await => ShutdownAction::AwaitQuiescence(group),
        };
        plan.push(action);
        i += 1;
        assert(plan@ =~= start + groups@.take(i as int).map_values(|g: GroupId| stage.action(g)));
    }
    assert(groups@.take(groups.len() as int) =~= groups@);
}

/// The report is one that the action can have: only Raft cores fail, and only tasks and the budget
/// get lost.
pub open spec fn can_report(action: ShutdownAction, report: ShutdownReport) -> bool {
    match report {
        ShutdownReport::Done => true,
        ShutdownReport::RaftFailed(_) => action is StopRaft,
        ShutdownReport::Lost(_) => action is JoinOperation || action is AcquireBudget,
    }
}

/// The message of a Raft core that could not be shut down.
pub open spec fn raft_failure(group: GroupId, message: Seq<char>) -> Seq<char> {
    "shutdown group "@ + text::decimal(group as nat) + ": "@ + message
}

impl Shutdown {
    /// The actions that are still to come in this phase, the pending one first.
    pub closed spec fn upcoming(self) -> Seq<ShutdownAction> {
        self.plan@.skip(self.next as int)
    }

    /// The groups that are shut down.
    pub closed spec fn groups(self) -> Seq<GroupId> {
        self.groups@
    }

    /// Whether every Raft core has been stopped.
    pub closed spec fn draining(self) -> bool {
        self.draining
    }

    #[verifier::type_invariant]
    spec fn inv(self) -> bool {
        self.next < self.plan@.len()
    }

    /// A turn goes on with `upcoming`.
    pub open spec fn goes_on(
        turn: ShutdownTurn,
        groups: Seq<GroupId>,
        upcoming: Seq<ShutdownAction>,
        draining: bool,
    ) -> bool {
        turn matches ShutdownTurn::Act { state, action } && {
            &&& upcoming.len() > 0
            &&& state.upcoming() == upcoming
            &&& action == upcoming[0]
            &&& state.groups() == groups
            &&& state.draining() == draining
        }
    }

    fn drain(groups: Vec<GroupId>, multi: &MultiRaft) -> (turn: ShutdownTurn)
        ensures
            text::lists_ascending(
                text::ascending(multi.snapshot_rt.operations@.dom()),
                multi.snapshot_rt.operations@.dom(),
            ),
            Self::goes_on(
                turn,
                groups@,
                draining_plan(
                    groups@,
                    text::ascending(multi.snapshot_rt.operations@.dom()),
                ),
                true,
            ),
    {
        let operations = operation_groups(multi);
        let mut plan: Vec<ShutdownAction> = Vec::new();
        append_stage(&mut plan, &operations, Stage::Join);
        append_stage(&mut plan, &groups, Stage::Await);
        plan.push(ShutdownAction::AcquireBudget);
        assert(plan@ =~= draining_plan(groups@, operations@));
        let action = plan[0];
        assert(plan@.skip(0) =~= plan@);
        ShutdownTurn::Act { state: Shutdown { groups, plan, next: 0, draining: true }, action }
    }

    /// Takes how the pending action went. The first failure ends the shutdown and leaves the groups
    /// where they are.
    pub fn step(self, multi: &mut MultiRaft, report: ShutdownReport) -> (turn: ShutdownTurn)
        requires
            can_report(self.upcoming()[0], report),
        ensures
            match report {
                ShutdownReport::RaftFailed(message) => {
                    &&& turn matches ShutdownTurn::Over(Err(MultiRaftError::Other(error)))
                        && forall|text: String| #[trigger]
                        to_string_from_display_ensures::<anyhow::Error>(&error, text) ==> text@
                            == raft_failure(self.upcoming()[0]->StopRaft_0, message@)
                    &&& *final(multi) == *old(multi)
                },
                ShutdownReport::Lost(error) => {
                    &&& turn matches ShutdownTurn::Over(Err(MultiRaftError::Other(e))) && e == error
                    &&& *final(multi) == *old(multi)
                },
                ShutdownReport::Done => if self.upcoming().len() > 1 {
                    &&& Self::goes_on(
                        turn,
                        self.groups(),
                        self.upcoming().skip(1),
                        self.draining(),
                    )
                    &&& *final(multi) == *old(multi)
                } else if !self.draining() {
                    &&& text::lists_ascending(
                        text::ascending(old(multi).snapshot_rt.operations@.dom()),
                        old(multi).snapshot_rt.operations@.dom(),
                    )
                    &&& Self::goes_on(
                        turn,
                        self.groups(),
                        draining_plan(
                            self.groups(),
                            text::ascending(old(multi).snapshot_rt.operations@.dom()),
                        ),
                        true,
                    )
                    &&& *final(multi) == *old(multi)
                } else {
                    &&& turn matches ShutdownTurn::Over(Ok(()))
                    &&& final(multi).groups@ == Set::<GroupId>::empty()
                    &&& final(multi).node_id == old(multi).node_id
                    &&& final(multi).config == old(multi).config
                    &&& final(multi).snapshot_rt == old(multi).snapshot_rt
                },
            },
    {
        proof {
            use_type_invariant(&self);
        }
        let action = self.plan[self.next];
        assert(action == self.upcoming()[0]);
        match report {
            ShutdownReport::RaftFailed(message) => {
                let group: GroupId = match action {
                    ShutdownAction::StopRaft(group) => group,
                    _ => unreached(),
                };
                let mut text = "shutdown group ".to_owned();
                text::append_u64(&mut text, group);
                text.append(": ");
                text.append(message.as_str());
                ShutdownTurn::Over(Err(MultiRaftError::Other(error_with_message(text))))
            },
            ShutdownReport::Lost(error) => ShutdownTurn::Over(Err(MultiRaftError::Other(error))),
            ShutdownReport::Done => {
                let ghost left = self.upcoming();
                let total = self.plan.len();
                let next: usize = self.next + 1;
                if next < total {
                    let action = self.plan[next];
                    let state = Shutdown {
                        groups: self.groups,
                        plan: self.plan,
                        next,
                        draining: self.draining,
                    };
                    assert(state.upcoming() =~= left.skip(1));
                    return ShutdownTurn::Act { state, action };
                }
                if !self.draining {
                    return Self::drain(self.groups, multi);
                }
                multi.groups.clear();
                ShutdownTurn::Over(Ok(()))
            },
        }
    }
}

/// The groups that have had an operation, in ascending order.
fn operation_groups(multi: &MultiRaft) -> (groups: Vec<GroupId>)
    ensures
        text::lists_ascending(groups@, multi.snapshot_rt.operations@.dom()),
        groups@ == text::ascending(multi.snapshot_rt.operations@.dom()),
{
    let mut set: BTreeSet<GroupId> = BTreeSet::new();
    let map = &multi.snapshot_rt.operations;
    for x in it: map.keys()
        invariant
            it.seq() == spec_keys_iter(map).remaining(),
            set@ == it.seq().unref().take(it.index()).to_set(),
    {
        set.insert(*x);
        proof {
            let all = it.seq().unref();
            crate::collections::lemma_push_to_set(all.take(it.index()), *x);
            assert(all.take(it.index() + 1) =~= all.take(it.index()).push(*x));
        }
    }
    proof {
        let all = spec_keys_iter(map).remaining().unref();
        assert(all.take(all.len() as int) =~= all);
        assert(set@ =~= map@.dom());
    }
    text::ascending_members(&set)
}

impl MultiRaft {
    /// Starts to shut the node down: no operation is taken in from now on. Intakes are closed before
    /// any Raft core is stopped, and nothing is joined before all of them are.
    pub fn shutdown_owned_groups(&mut self) -> (turn: ShutdownTurn)
        ensures
            final(self).snapshot_rt.stopping,
            final(self).snapshot_rt.operations == old(self).snapshot_rt.operations,
            final(self).snapshot_rt.catalog == old(self).snapshot_rt.catalog,
            final(self).snapshot_rt.ads == old(self).snapshot_rt.ads,
            final(self).snapshot_rt.data_dir == old(self).snapshot_rt.data_dir,
            final(self).node_id == old(self).node_id,
            final(self).config == old(self).config,
            final(self).groups == old(self).groups,
            text::lists_ascending(text::ascending(old(self).groups@), old(self).groups@),
            ({
                let groups = text::ascending(old(self).groups@);
                if groups.len() > 0 {
                    Shutdown::goes_on(turn, groups, stopping_plan(groups), false)
                } else {
                    &&& text::lists_ascending(
                        text::ascending(old(self).snapshot_rt.operations@.dom()),
                        old(self).snapshot_rt.operations@.dom(),
                    )
                    &&& Shutdown::goes_on(
                        turn,
                        groups,
                        draining_plan(
                            groups,
                            text::ascending(old(self).snapshot_rt.operations@.dom()),
                        ),
                        true,
                    )
                }
            }),
    {
        self.snapshot_rt.stopping = true;
        let groups = text::ascending_members(&self.groups);
        if groups.len() == 0 {
            return Shutdown::drain(groups, self);
        }
        let mut plan: Vec<ShutdownAction> = Vec::new();
        append_stage(&mut plan, &groups, Stage::Close);
        append_stage(&mut plan, &groups, Stage::Stop);
        assert(plan@ =~= stopping_plan(groups@));
        let action = plan[0];
        assert(plan@.skip(0) =~= plan@);
        ShutdownTurn::Act { state: Shutdown { groups, plan, next: 0, draining: false }, action }
    }
}

/// A node that shuts down rejects every compaction, of hosted groups and of others.
pub proof fn law_stopping_node_rejects_compaction(node: MultiRaft, group: GroupId)
    requires
        node.snapshot_rt.stopping,
    ensures
        node.rejection(group) == Some(crate::maintenance::CompactionRejection::ShuttingDown),
{
}

/// Every group's intake is closed before any Raft core is stopped, and every Raft core is stopped
/// before anything is joined or awaited.
pub proof fn law_shutdown_order(groups: Seq<GroupId>, operations: Seq<GroupId>, i: int, j: int)
    requires
        0 <= i < j < (stopping_plan(groups) + draining_plan(groups, operations)).len(),
    ensures
        ({
            let plan = stopping_plan(groups) + draining_plan(groups, operations);
            &&& plan[j] is CloseIntake ==> plan[i] is CloseIntake
            &&& plan[j] is StopRaft ==> plan[i] is CloseIntake || plan[i] is StopRaft
            &&& plan[i] is AwaitQuiescence ==> plan[j] is AwaitQuiescence || plan[j] is AcquireBudget
            &&& !(plan[i] is AcquireBudget)
        }),
{
}

/// A shutdown that starts closes the intake of every hosted group and stops its Raft core, once
/// each and for no other group; a node without groups goes on to its operations at once.
pub proof fn law_shutdown_reaches_every_group(node: &mut MultiRaft, turn: ShutdownTurn, group: GroupId)
    requires
        call_ensures(MultiRaft::shutdown_owned_groups, (node,), turn),
    ensures
        final(node).snapshot_rt.stopping,
        final(node).snapshot_rt.operations == old(node).snapshot_rt.operations,
        final(node).snapshot_rt.catalog == old(node).snapshot_rt.catalog,
        final(node).snapshot_rt.ads == old(node).snapshot_rt.ads,
        final(node).snapshot_rt.data_dir == old(node).snapshot_rt.data_dir,
        final(node).groups == old(node).groups,
        final(node).node_id == old(node).node_id,
        final(node).config == old(node).config,
        turn matches ShutdownTurn::Act { state, action } && {
            let plan = state.upcoming();
            &&& forall|i: int, j: int|
                0 <= i < j < state.groups().len() ==> #[trigger] state.groups()[i]
                    < #[trigger] state.groups()[j]
            &&& plan.len() > 0 && action == plan[0]
            &&& plan.no_duplicates()
            &&& state.groups().contains(group) <==> old(node).groups@.contains(group)
            &&& plan.contains(ShutdownAction::CloseIntake(group)) <==> old(node).groups@.contains(
                group,
            )
            &&& plan.contains(ShutdownAction::StopRaft(group)) <==> old(node).groups@.contains(group)
            &&& old(node).groups@.contains(group) ==> !state.draining()
            &&& state.draining() ==> {
                &&& plan.contains(ShutdownAction::JoinOperation(group))
                    <==> old(node).snapshot_rt.operations@.contains_key(group)
                &&& plan.last() == ShutdownAction::AcquireBudget
            }
        },
{
    let groups = text::ascending(old(node).groups@);
    let operations = text::ascending(old(node).snapshot_rt.operations@.dom());
    assert(groups.to_set().contains(group) == old(node).groups@.contains(group));
    if groups.len() > 0 {
        lemma_stopping_plan(groups, group);
    } else {
        assert(operations.to_set().contains(group)
            == old(node).snapshot_rt.operations@.dom().contains(group));
        lemma_draining_plan(groups, operations, group);
        assert(!groups.contains(group));
    }
}

/// Once every Raft core is stopped, every operation that a group has had is joined, every hosted
/// group is waited for, once each, and the build budget comes last: nothing is left out, and
/// nothing else is done.
pub proof fn law_draining_leaves_nothing_out(
    state: Shutdown,
    node: &mut MultiRaft,
    turn: ShutdownTurn,
    group: GroupId,
)
    requires
        call_ensures(Shutdown::step, (state, node, ShutdownReport::Done), turn),
        !state.draining(),
        state.upcoming().len() == 1,
        forall|i: int, j: int|
            0 <= i < j < state.groups().len() ==> #[trigger] state.groups()[i]
                < #[trigger] state.groups()[j],
    ensures
        *final(node) == *old(node),
        turn matches ShutdownTurn::Act { state: next, action } && {
            let plan = next.upcoming();
            &&& next.draining() && next.groups() == state.groups()
            &&& plan.len() > 0 && action == plan[0]
            &&& plan.contains(ShutdownAction::JoinOperation(group))
                <==> old(node).snapshot_rt.operations@.contains_key(group)
            &&& plan.contains(ShutdownAction::AwaitQuiescence(group)) <==> state.groups().contains(
                group,
            )
            &&& !plan.contains(ShutdownAction::CloseIntake(group))
            &&& !plan.contains(ShutdownAction::StopRaft(group))
            &&& plan.last() == ShutdownAction::AcquireBudget
            &&& plan.no_duplicates()
        },
{
    let operations = text::ascending(old(node).snapshot_rt.operations@.dom());
    assert(operations.to_set().contains(group)
        == old(node).snapshot_rt.operations@.dom().contains(group));
    lemma_draining_plan(state.groups(), operations, group);
}

/// A shutdown carries its actions out one after the other. It succeeds only after the last one of
/// the draining phase, and only then are the groups gone; the first failure ends it with everything
/// left where it was.
pub proof fn law_shutdown_skips_no_action(
    state: Shutdown,
    node: &mut MultiRaft,
    report: ShutdownReport,
    turn: ShutdownTurn,
)
    requires
        call_ensures(Shutdown::step, (state, node, report), turn),
    ensures
        report is Done && state.upcoming().len() > 1 ==> {
            &&& turn matches ShutdownTurn::Act { state: next, action }
            &&& next.upcoming() == state.upcoming().skip(1)
            &&& action == state.upcoming()[1]
            &&& next.groups() == state.groups() && next.draining() == state.draining()
        },
        turn matches ShutdownTurn::Over(Ok(())) <==> report is Done && state.draining()
            && state.upcoming().len() <= 1,
        turn matches ShutdownTurn::Over(Ok(())) ==> final(node).groups@.is_empty(),
        final(node).node_id == old(node).node_id,
        final(node).config == old(node).config,
        final(node).snapshot_rt == old(node).snapshot_rt,
        !(turn matches ShutdownTurn::Over(Ok(()))) ==> *final(node) == *old(node),
        !(report is Done) ==> turn matches ShutdownTurn::Over(Err(_)),
{
    if report is Done && state.upcoming().len() > 1 {
        assert(state.upcoming().skip(1)[0] == state.upcoming()[1]);
    }
}

/// A Raft core that could not be shut down ends the shutdown with a message that names its group; a
/// lost task or budget ends it with its own error.
pub proof fn law_failed_shutdowns_say_why(
    state: Shutdown,
    node: &mut MultiRaft,
    report: ShutdownReport,
    turn: ShutdownTurn,
    group: GroupId,
    shown: String,
)
    requires
        call_ensures(Shutdown::step, (state, node, report), turn),
        report is RaftFailed ==> state.upcoming()[0] == ShutdownAction::StopRaft(group),
    ensures
        report matches ShutdownReport::Lost(error) ==> turn matches ShutdownTurn::Over(
            Err(MultiRaftError::Other(e)),
        ) && e == error,
        report matches ShutdownReport::RaftFailed(message) ==> (turn matches ShutdownTurn::Over(
            Err(MultiRaftError::Other(e)),
        ) && (to_string_from_display_ensures::<anyhow::Error>(&e, shown) ==> shown@
            == "shutdown group "@ + text::decimal(group as nat) + ": "@ + message@)),
{
}

/// Only the stopping of a Raft core can fail, and only a task or the budget can get lost;
/// everything can be done.
pub proof fn law_reports_belong_to_their_actions(
    action: ShutdownAction,
    message: String,
    error: anyhow::Error,
)
    ensures
        can_report(action, ShutdownReport::Done),
        can_report(action, ShutdownReport::RaftFailed(message)) <==> action is StopRaft,
        can_report(action, ShutdownReport::Lost(error)) <==> action is JoinOperation
            || action is AcquireBudget,
{
}

proof fn lemma_stopping_plan(groups: Seq<GroupId>, group: GroupId)
    requires
        forall|i: int, j: int|
            0 <= i < j < groups.len() ==> #[trigger] groups[i] < #[trigger] groups[j],
    ensures
        stopping_plan(groups).no_duplicates(),
        stopping_plan(groups).contains(ShutdownAction::CloseIntake(group)) <==> groups.contains(
            group,
        ),
        stopping_plan(groups).contains(ShutdownAction::StopRaft(group)) <==> groups.contains(group),
{
    let plan = stopping_plan(groups);
    let n = groups.len() as int;
    if groups.contains(group) {
        let k = choose|k: int| 0 <= k < groups.len() && groups[k] == group;
        assert(plan[k] == ShutdownAction::CloseIntake(group));
        assert(plan[n + k] == ShutdownAction::StopRaft(group));
    }
    assert forall|i: int| 0 <= i < plan.len() implies #[trigger] plan[i] == (if i < n {
        ShutdownAction::CloseIntake(groups[i])
    } else {
        ShutdownAction::StopRaft(groups[i - n])
    }) by {}
}

proof fn lemma_draining_plan(groups: Seq<GroupId>, operations: Seq<GroupId>, group: GroupId)
    requires
        forall|i: int, j: int|
            0 <= i < j < groups.len() ==> #[trigger] groups[i] < #[trigger] groups[j],
        forall|i: int, j: int|
            0 <= i < j < operations.len() ==> #[trigger] operations[i] < #[trigger] operations[j],
    ensures
        draining_plan(groups, operations).no_duplicates(),
        draining_plan(groups, operations).contains(ShutdownAction::JoinOperation(group))
            <==> operations.contains(group),
        draining_plan(groups, operations).contains(ShutdownAction::AwaitQuiescence(group))
            <==> groups.contains(group),
        !draining_plan(groups, operations).contains(ShutdownAction::CloseIntake(group)),
        !draining_plan(groups, operations).contains(ShutdownAction::StopRaft(group)),
        draining_plan(groups, operations).last() == ShutdownAction::AcquireBudget,
{
    let plan = draining_plan(groups, operations);
    let m = operations.len() as int;
    let n = groups.len() as int;
    if operations.contains(group) {
        let k = choose|k: int| 0 <= k < operations.len() && operations[k] == group;
        assert(plan[k] == ShutdownAction::JoinOperation(group));
    }
    if groups.contains(group) {
        let k = choose|k: int| 0 <= k < groups.len() && groups[k] == group;
        assert(plan[m + k] == ShutdownAction::AwaitQuiescence(group));
    }
    assert forall|i: int| 0 <= i < plan.len() implies #[trigger] plan[i] == (if i < m {
        ShutdownAction::JoinOperation(operations[i])
    } else if i < m + n {
        ShutdownAction::AwaitQuiescence(groups[i - m])
    } else {
        ShutdownAction::AcquireBudget
    }) by {}
}

} // verus!
