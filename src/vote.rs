use vstd::prelude::*;

verus! {

/// A vote: the term it belongs to and the node it was granted to.
/// Votes are ordered by term, then by node id, so any two are comparable.
#[derive(Debug, Clone, Copy, PartialEq, Eq, Structural)]
pub struct Vote {
    pub term: u64,
    pub node_id: u64,
}

/// `a` is strictly older than `b`.
pub open spec fn vote_lt(a: Vote, b: Vote) -> bool {
    a.term < b.term || (a.term == b.term && a.node_id < b.node_id)
}

/// `a` is older than `b`, or is `b`.
pub open spec fn vote_le(a: Vote, b: Vote) -> bool {
    a == b || vote_lt(a, b)
}

impl Vote {
    pub fn new(term: u64, node_id: u64) -> (r: Vote)
        ensures
            r.term == term,
            r.node_id == node_id,
    {
        Vote { term, node_id }
    }

    /// Whether `self` is strictly older than `other`.
    pub fn is_older_than(&self, other: &Vote) -> (r: bool)
        ensures
            r == vote_lt(*self, *other),
    {
        self.term < other.term || (self.term == other.term && self.node_id < other.node_id)
    }
}

} // verus!
