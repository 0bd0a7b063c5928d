//! Complete log identities and their order.

use crate::text;
use crate::NodeId;
use vstd::prelude::*;
use vstd::string::*;

verus! {

/// Complete committed log identity.
#[derive(Debug, Clone, Copy, PartialEq, Eq, Structural)]
pub struct ObservedLogId {
    /// Committed leader term.
    pub term: u64,
    /// Committed leader node id.
    pub node_id: NodeId,
    /// Log index.
    pub index: u64,
}

impl ObservedLogId {
    /// Whether the entry stands before `other`: by term, then by leader, then by index.
    pub open spec fn precedes(self, other: ObservedLogId) -> bool {
        ||| self.term < other.term
        ||| self.term == other.term && self.node_id < other.node_id
        ||| self.term == other.term && self.node_id == other.node_id && self.index < other.index
    }

    /// The debugging text of the identity.
    pub open spec fn text(self) -> Seq<char> {
        "ObservedLogId { term: "@ + text::decimal(self.term as nat) + ", node_id: "@
            + text::decimal(self.node_id as nat) + ", index: "@ + text::decimal(self.index as nat)
            + " }"@
    }

    /// Creates a complete observed log identity.
    pub fn new(term: u64, node_id: NodeId, index: u64) -> (id: Self)
        ensures
            id == (ObservedLogId { term, node_id, index }),
    {
        Self { term, node_id, index }
    }

    /// Whether the entry stands before `other`.
    pub fn is_before(&self, other: &ObservedLogId) -> (res: bool)
        ensures
            res == self.precedes(*other),
    {
        if self.term != other.term {
            self.term < other.term
        } else if self.node_id != other.node_id {
            self.node_id < other.node_id
        } else {
            self.index < other.index
        }
    }

    /// Appends the debugging text of the identity.
    pub fn append_debug(&self, out: &mut String)
        ensures
            final(out)@ == old(out)@ + self.text(),
    {
        out.append("ObservedLogId { term: ");
        text::append_u64(out, self.term);
        out.append(", node_id: ");
        text::append_u64(out, self.node_id);
        out.append(", index: ");
        text::append_u64(out, self.index);
        out.append(" }");
        assert(out@ =~= old(out)@ + self.text());
    }
}

/// Whether position `a` stands before position `b`; no entry at all stands before every entry.
pub open spec fn before(a: Option<ObservedLogId>, b: Option<ObservedLogId>) -> bool {
    match (a, b) {
        (None, Some(_)) => true,
        (Some(x), Some(y)) => x.precedes(y),
        (_, None) => false,
    }
}

/// Whether position `a` stands before position `b`.
pub fn is_before(a: Option<ObservedLogId>, b: Option<ObservedLogId>) -> (res: bool)
    ensures
        res == before(a, b),
{
    match (a, b) {
        (None, Some(_)) => true,
        (Some(x), Some(y)) => x.is_before(&y),
        (_, None) => false,
    }
}

/// Whether two positions are the same.
pub fn same_position(a: Option<ObservedLogId>, b: Option<ObservedLogId>) -> (res: bool)
    ensures
        res == (a == b),
{
    match (a, b) {
        (None, None) => true,
        (Some(x), Some(y)) => x == y,
        _ => false,
    }
}

/// Log positions are totally ordered: of two positions exactly one stands before the other, or they
/// are the same; and the order is transitive.
pub proof fn law_positions_are_totally_ordered(
    a: Option<ObservedLogId>,
    b: Option<ObservedLogId>,
    c: Option<ObservedLogId>,
)
    ensures
        a == b || before(a, b) || before(b, a),
        !(before(a, b) && before(b, a)),
        before(a, b) ==> a != b,
        before(a, b) && before(b, c) ==> before(a, c),
        !before(b, a) && !before(c, b) ==> !before(c, a),
{
}

/// Of two entries the one of the older term stands first; within a term the one of the smaller
/// leader; and under one leader the one with the smaller index. A position without an entry stands
/// before every entry, and nothing stands before it.
pub proof fn law_positions_go_by_term_then_leader_then_index(
    a: ObservedLogId,
    b: ObservedLogId,
    p: Option<ObservedLogId>,
    answer: bool,
)
    requires
        call_ensures(is_before, (Some(a), Some(b)), answer),
    ensures
        answer == before(Some(a), Some(b)),
        a.term < b.term ==> answer,
        b.term < a.term ==> !answer,
        a.term == b.term && a.node_id < b.node_id ==> answer,
        a.term == b.term && b.node_id < a.node_id ==> !answer,
        a.term == b.term && a.node_id == b.node_id ==> answer == (a.index < b.index),
        before(None, Some(b)),
        !before(p, None),
{
}

/// Two positions are the same exactly where they agree in term, leader and index, or neither is an
/// entry.
pub proof fn law_same_positions_agree_in_every_part(
    a: Option<ObservedLogId>,
    b: Option<ObservedLogId>,
    answer: bool,
)
    requires
        call_ensures(same_position, (a, b), answer),
    ensures
        answer ==> (a is Some <==> b is Some),
        a is None && b is None ==> answer,
        a is Some && b is Some ==> answer == (a->0.term == b->0.term && a->0.node_id
            == b->0.node_id && a->0.index == b->0.index),
{
}

/// Entries are shown with term, leader and index.
pub proof fn law_entries_are_shown_whole(id: ObservedLogId, out: &mut String)
    requires
        call_ensures(ObservedLogId::append_debug, (&id, out), ()),
    ensures
        final(out)@ == old(out)@ + ("ObservedLogId { term: "@ + text::decimal(id.term as nat)
            + ", node_id: "@ + text::decimal(id.node_id as nat) + ", index: "@ + text::decimal(
            id.index as nat,
        ) + " }"@),
{
}

/// An identity has the term, the leader and the index that it was made with, and compares by them.
pub proof fn law_entries_keep_their_parts(
    term: u64,
    node_id: NodeId,
    index: u64,
    id: ObservedLogId,
    other: ObservedLogId,
    earlier: bool,
)
    requires
        call_ensures(ObservedLogId::new, (term, node_id, index), id),
        call_ensures(ObservedLogId::is_before, (&id, &other), earlier),
    ensures
        id.term == term && id.node_id == node_id && id.index == index,
        earlier <==> term < other.term || (term == other.term && (node_id < other.node_id || (node_id
            == other.node_id && index < other.index))),
{
}

} // verus!
