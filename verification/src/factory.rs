//! Public factory contract for per-group state machines.

use crate::fsm::StateMachine;
use crate::GroupId;
use crate::NodeId;
use vstd::prelude::*;

verus! {

/// Immutable identity supplied when constructing a local group's state machine.
#[derive(Debug, Clone, Copy, PartialEq, Eq, Structural)]
#[non_exhaustive]
pub struct FsmFactoryContext {
    node_id: NodeId,
    group_id: GroupId,
}

impl FsmFactoryContext {
    /// The local node.
    pub closed spec fn node(self) -> NodeId {
        self.node_id
    }

    /// The group.
    pub closed spec fn group(self) -> GroupId {
        self.group_id
    }

    /// The identity of the state machine of `group_id` on `node_id`.
    pub fn new(node_id: NodeId, group_id: GroupId) -> (context: Self)
        ensures
            context.node() == node_id,
            context.group() == group_id,
    {
        FsmFactoryContext { node_id, group_id }
    }

    /// Returns the local node identifier for the state machine being created.
    pub fn node_id(self) -> (node_id: NodeId)
        ensures
            node_id == self.node(),
    {
        self.node_id
    }

    /// Returns the group identifier for the state machine being created.
    pub fn group_id(self) -> (group_id: GroupId)
        ensures
            group_id == self.group(),
    {
        self.group_id
    }
}

/// Constructs independently owned state machines for local groups.
///
/// Calls for the same key may be retried after a pre-publication construction failure or process
/// restart. Calls for different node/group keys may occur concurrently, so factory state must be
/// thread-safe. Each returned state machine must own its per-group resources and release them
/// safely when dropped.
///
/// Until group lifecycle serialization exists, callers must serialize same-key creation; concurrent
/// same-key creation is unsupported.
pub trait StateMachineFactory<S>: Send + Sync + 'static where S: StateMachine {
    /// The contexts for which the factory can be called. Default: every context.
    open spec fn serves(&self, context: FsmFactoryContext) -> bool {
        true
    }

    /// Constructs one state machine for `context`.
    ///
    /// # Errors
    ///
    /// Returns an error when the state machine cannot be constructed.
    fn create(&self, context: FsmFactoryContext) -> (fsm: Result<S, anyhow::Error>)
        requires
            self.serves(context),
    ;
}

impl<S, F> StateMachineFactory<S> for F where
    S: StateMachine,
    F: Fn(FsmFactoryContext) -> Result<S, anyhow::Error> + Send + Sync + 'static,
 {
    open spec fn serves(&self, context: FsmFactoryContext) -> bool {
        call_requires(*self, (context,))
    }

    fn create(&self, context: FsmFactoryContext) -> (fsm: Result<S, anyhow::Error>)
        ensures
            call_ensures(*self, (context,), fsm),
    {
        self(context)
    }
}

/// A context gives back the node and the group that it was made for.
pub proof fn law_contexts_keep_their_identity(
    node: NodeId,
    group: GroupId,
    context: FsmFactoryContext,
    read_node: NodeId,
    read_group: GroupId,
)
    requires
        call_ensures(FsmFactoryContext::new, (node, group), context),
        call_ensures(FsmFactoryContext::node_id, (context,), read_node),
        call_ensures(FsmFactoryContext::group_id, (context,), read_group),
    ensures
        read_node == node,
        read_group == group,
{
}

} // verus!
