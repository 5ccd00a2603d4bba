//! The active cluster configuration.

use vstd::prelude::*;

use crate::node::NodeId;

verus! {

/// The set of nodes that currently form the cluster, in a fixed order.
#[derive(Debug, Clone)]
pub struct ClusterConfig {
    pub members: Vec<NodeId>,
}

impl ClusterConfig {
    /// Builds a configuration from its member list.
    pub fn new(members: Vec<NodeId>) -> (c: ClusterConfig)
        ensures
            c.members == members,
    {
        ClusterConfig { members }
    }

    /// Whether a node with the given name belongs to this configuration.
    pub open spec fn spec_is_known(self, id: Seq<char>) -> bool {
        exists|i: int| 0 <= i < self.members@.len() && #[trigger] self.members@[i]@ == id
    }

    /// Whether `id` names a member of this configuration.
    pub fn is_known_node(&self, id: &NodeId) -> (r: bool)
        ensures
            r == self.spec_is_known(id@),
    {
        let mut i: usize = 0;
        while i < self.members.len()
            invariant
                0 <= i <= self.members@.len(),
                forall|j: int| 0 <= j < i ==> #[trigger] self.members@[j]@ != id@,
            decreases self.members@.len() - i,
        {
            if self.members[i] == *id {
                return true;
            }
            i = i + 1;
        }
        false
    }

    /// The members of this configuration.
    pub fn members(&self) -> (r: &Vec<NodeId>)
        ensures
            r == self.members,
    {
        &self.members
    }
}

} // verus!
