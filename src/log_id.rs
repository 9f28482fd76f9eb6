use vstd::prelude::*;

verus! {

/// The position of one entry in the replicated log: the term in which it was
/// proposed and its index. Log ids are ordered by term, then by index.
#[derive(Debug, Clone, Copy, PartialEq, Eq, Structural)]
pub struct LogId {
    pub term: u64,
    pub index: u64,
}

/// `a` comes strictly before `b` in log order.
pub open spec fn log_id_lt(a: LogId, b: LogId) -> bool {
    a.term < b.term || (a.term == b.term && a.index < b.index)
}

/// `a` comes before `b` in log order, or is `b`.
pub open spec fn log_id_le(a: LogId, b: LogId) -> bool {
    a == b || log_id_lt(a, b)
}

/// Order on optional log ids: absence ("nothing yet") is below every log id.
pub open spec fn opt_lt(a: Option<LogId>, b: Option<LogId>) -> bool {
    match (a, b) {
        (None, Some(_)) => true,
        (Some(x), Some(y)) => log_id_lt(x, y),
        _ => false,
    }
}

pub open spec fn opt_le(a: Option<LogId>, b: Option<LogId>) -> bool {
    a == b || opt_lt(a, b)
}

/// `a` is at or before `b` whenever both are present; an absent side
/// constrains nothing.
pub open spec fn le_if_present(a: Option<LogId>, b: Option<LogId>) -> bool {
    match (a, b) {
        (Some(x), Some(y)) => log_id_le(x, y),
        _ => true,
    }
}

impl LogId {
    pub fn new(term: u64, index: u64) -> (r: LogId)
        ensures
            r.term == term,
            r.index == index,
    {
        LogId { term, index }
    }

    /// Whether `self` comes strictly before `other`.
    pub fn precedes(&self, other: &LogId) -> (r: bool)
        ensures
            r == log_id_lt(*self, *other),
    {
        self.term < other.term || (self.term == other.term && self.index < other.index)
    }

    /// Whether `self` comes before `other` or is `other`.
    pub fn precedes_or_eq(&self, other: &LogId) -> (r: bool)
        ensures
            r == log_id_le(*self, *other),
    {
        self.term < other.term || (self.term == other.term && self.index <= other.index)
    }
}

/// Whether `a` is strictly below `b`, absence being the least value.
pub fn opt_precedes(a: &Option<LogId>, b: &Option<LogId>) -> (r: bool)
    ensures
        r == opt_lt(*a, *b),
{
    match (a, b) {
        (None, Some(_)) => true,
        (Some(x), Some(y)) => x.precedes(y),
        _ => false,
    }
}

/// Whether `a` is at or below `b`, absence being the least value.
pub fn opt_precedes_or_eq(a: &Option<LogId>, b: &Option<LogId>) -> (r: bool)
    ensures
        r == opt_le(*a, *b),
{
    match (a, b) {
        (None, _) => true,
        (Some(x), Some(y)) => x.precedes_or_eq(y),
        (Some(_), None) => false,
    }
}

/// Whether `a` is at or before `b`, when both are present.
pub fn ordered_if_present(a: &Option<LogId>, b: &Option<LogId>) -> (r: bool)
    ensures
        r == le_if_present(*a, *b),
{
    match (a, b) {
        (Some(x), Some(y)) => x.precedes_or_eq(y),
        _ => true,
    }
}

} // verus!
