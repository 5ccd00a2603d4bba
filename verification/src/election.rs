//! Terms, roles, and ballots.

use vstd::prelude::*;

use crate::node::NodeId;

verus! {

/// A monotonic election epoch. It strictly increases across elections.
#[derive(Debug, Clone, Copy, PartialEq, Eq, Structural, Hash)]
pub struct Term(pub u64);

impl Term {
    /// Builds a term from its number.
    pub fn new(n: u64) -> (t: Term)
        ensures
            t.0 == n,
    {
        Term(n)
    }

    /// The number of this term.
    pub fn as_u64(&self) -> (n: u64)
        ensures
            n == self.0,
    {
        self.0
    }
}

/// The role a node currently plays.
#[derive(Debug, Clone, Copy, PartialEq, Eq, Structural, Hash)]
pub enum Role {
    Follower,
    Candidate,
    Leader,
}

/// The pair (term, voted_for) that a node must persist before replying to
/// vote or append calls.
#[derive(Debug)]
pub struct Ballot {
    pub term: Term,
    pub voted_for: NodeId,
}

/// Two ballots agree when their terms are equal and their votes name the
/// same node.
pub open spec fn ballot_eq(a: Ballot, b: Ballot) -> bool {
    a.term.0 == b.term.0 && a.voted_for@ == b.voted_for@
}

impl Clone for Ballot {
    fn clone(&self) -> (c: Self)
        ensures
            c == *self,
    {
        Ballot { term: self.term, voted_for: self.voted_for.clone() }
    }
}

impl PartialEq for Ballot {
    fn eq(&self, other: &Ballot) -> (r: bool) {
        self.term.0 == other.term.0 && self.voted_for == other.voted_for
    }
}

impl vstd::std_specs::cmp::PartialEqSpecImpl for Ballot {
    open spec fn obeys_eq_spec() -> bool {
        true
    }

    open spec fn eq_spec(&self, other: &Ballot) -> bool {
        ballot_eq(*self, *other)
    }
}

impl Default for Ballot {
    /// Term zero, no vote cast.
    fn default() -> (b: Ballot)
        ensures
            b.term.0 == 0,
            b.voted_for@ == Seq::<char>::empty(),
    {
        Ballot { term: Term(0), voted_for: NodeId::default() }
    }
}

} // verus!
