//! Node identity and per-node election state.

use vstd::prelude::*;

use crate::election::{Ballot, Role};

verus! {

/// The identifier of a cluster member.
///
/// Two identifiers denote the same node exactly when their names hold the
/// same characters; the view of an identifier is that character sequence.
#[derive(Debug, Eq, Hash)]
pub struct NodeId {
    pub name: String,
}

impl View for NodeId {
    type V = Seq<char>;

    open spec fn view(&self) -> Seq<char> {
        self.name@
    }
}

impl NodeId {
    /// Builds an identifier from its name.
    pub fn new(name: String) -> (id: NodeId)
        ensures
            id@ == name@,
    {
        NodeId { name }
    }

    /// The name of this node.
    pub fn as_str(&self) -> (s: &str)
        ensures
            s@ == self@,
    {
        self.name.as_str()
    }
}

impl Clone for NodeId {
    fn clone(&self) -> (c: Self)
        ensures
            c == *self,
    {
        NodeId { name: self.name.clone() }
    }
}

impl PartialEq for NodeId {
    fn eq(&self, other: &NodeId) -> (r: bool) {
        self.name == other.name
    }
}

impl vstd::std_specs::cmp::PartialEqSpecImpl for NodeId {
    open spec fn obeys_eq_spec() -> bool {
        true
    }

    open spec fn eq_spec(&self, other: &NodeId) -> bool {
        self@ == other@
    }
}

impl Default for NodeId {
    /// The anonymous identifier: an empty name.
    fn default() -> (id: NodeId)
        ensures
            id@ == Seq::<char>::empty(),
    {
        NodeId { name: String::new() }
    }
}

/// A node's identity together with its current role and ballot.
#[derive(Debug)]
pub struct Node {
    pub id: NodeId,
    pub role: Role,
    pub ballot: Ballot,
}

impl Node {
    /// A fresh node: Follower, term zero, no vote cast.
    pub fn new(id: NodeId) -> (n: Node)
        ensures
            n.id == id,
            n.role == Role::Follower,
            n.ballot.term.0 == 0,
            n.ballot.voted_for@ == Seq::<char>::empty(),
    {
        Node { id, role: Role::Follower, ballot: Ballot::default() }
    }
}

} // verus!
