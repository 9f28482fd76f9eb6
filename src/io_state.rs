use vstd::prelude::*;

use crate::log_id::{
    le_if_present, opt_le, opt_lt, opt_precedes, opt_precedes_or_eq, ordered_if_present, LogId,
};
use crate::vote::{vote_lt, Vote};

verus! {

/// One of the log watermarks that the ledger keeps.
#[derive(Debug, Clone, Copy, PartialEq, Eq, Structural)]
pub enum Watermark {
    Applied,
    Snapshot,
    Purged,
}

/// Why the ledger refused an update. The ledger is left as it was.
#[derive(Debug, Clone, Copy, PartialEq, Eq, Structural)]
pub enum IOStateError {
    /// The update does not move the watermark forward: `applied` and
    /// `snapshot` must strictly advance, `purged` must not go back.
    NotMonotonic { watermark: Watermark, current: Option<LogId>, update: Option<LogId> },
    /// The update would put the `lower` watermark past the `upper` one,
    /// breaking `purged <= snapshot <= applied`.
    OutOfOrder { lower: Watermark, upper: Watermark },
    /// The new vote is older than the vote already held.
    StaleVote { held: Vote, offered: Vote },
}

/// How far the I/O of one node has actually progressed: the last durable
/// vote and the log ids up to which entries have been flushed, applied,
/// included in a persisted snapshot, and purged.
///
/// These lag the decisions of the consensus core: each is updated only once
/// the corresponding I/O has completed.
#[derive(Debug, Clone, Copy, PartialEq, Eq, Structural)]
pub struct IOState {
    building_snapshot: bool,
    vote: Vote,
    flushed: Option<LogId>,
    applied: Option<LogId>,
    snapshot: Option<LogId>,
    purged: Option<LogId>,
}

/// The value of an `IOState`.
pub struct IOStateView {
    pub building_snapshot: bool,
    pub vote: Vote,
    pub flushed: Option<LogId>,
    pub applied: Option<LogId>,
    pub snapshot: Option<LogId>,
    pub purged: Option<LogId>,
}

/// The watermarks that are present stand in the order
/// `purged <= snapshot <= applied`.
pub open spec fn watermarks_ordered(
    applied: Option<LogId>,
    snapshot: Option<LogId>,
    purged: Option<LogId>,
) -> bool {
    &&& le_if_present(purged, snapshot)
    &&& le_if_present(snapshot, applied)
    &&& le_if_present(purged, applied)
}

impl IOStateView {
    /// Well-formedness: the present watermarks are ordered. `new` requires
    /// it of the recovered state, and every update keeps it, so it holds of
    /// every state a ledger can reach.
    pub open spec fn wf(self) -> bool {
        watermarks_ordered(self.applied, self.snapshot, self.purged)
    }

    /// What `update_applied(log_id)` does: the error, if any, and otherwise
    /// the state after the update.
    pub open spec fn applied_check(self, log_id: Option<LogId>) -> Option<IOStateError> {
        if !opt_lt(self.applied, log_id) {
            Some(
                IOStateError::NotMonotonic {
                    watermark: Watermark::Applied,
                    current: self.applied,
                    update: log_id,
                },
            )
        } else if !le_if_present(self.snapshot, log_id) {
            Some(IOStateError::OutOfOrder { lower: Watermark::Snapshot, upper: Watermark::Applied })
        } else if !le_if_present(self.purged, log_id) {
            Some(IOStateError::OutOfOrder { lower: Watermark::Purged, upper: Watermark::Applied })
        } else {
            None
        }
    }

    pub open spec fn snapshot_check(self, log_id: Option<LogId>) -> Option<IOStateError> {
        if !opt_lt(self.snapshot, log_id) {
            Some(
                IOStateError::NotMonotonic {
                    watermark: Watermark::Snapshot,
                    current: self.snapshot,
                    update: log_id,
                },
            )
        } else if !le_if_present(log_id, self.applied) {
            Some(IOStateError::OutOfOrder { lower: Watermark::Snapshot, upper: Watermark::Applied })
        } else if !le_if_present(self.purged, log_id) {
            Some(IOStateError::OutOfOrder { lower: Watermark::Purged, upper: Watermark::Snapshot })
        } else {
            None
        }
    }

    pub open spec fn purged_check(self, log_id: Option<LogId>) -> Option<IOStateError> {
        if !opt_le(self.purged, log_id) {
            Some(
                IOStateError::NotMonotonic {
                    watermark: Watermark::Purged,
                    current: self.purged,
                    update: log_id,
                },
            )
        } else if !le_if_present(log_id, self.snapshot) {
            Some(IOStateError::OutOfOrder { lower: Watermark::Purged, upper: Watermark::Snapshot })
        } else if !le_if_present(log_id, self.applied) {
            Some(IOStateError::OutOfOrder { lower: Watermark::Purged, upper: Watermark::Applied })
        } else {
            None
        }
    }

    pub open spec fn vote_check(self, vote: Vote) -> Option<IOStateError> {
        if vote_lt(vote, self.vote) {
            Some(IOStateError::StaleVote { held: self.vote, offered: vote })
        } else {
            None
        }
    }
}

impl View for IOState {
    type V = IOStateView;

    closed spec fn view(&self) -> IOStateView {
        IOStateView {
            building_snapshot: self.building_snapshot,
            vote: self.vote,
            flushed: self.flushed,
            applied: self.applied,
            snapshot: self.snapshot,
            purged: self.purged,
        }
    }
}

/// The result of a checked update: `Err` exactly when `check` found a fault.
pub open spec fn result_of(check: Option<IOStateError>, r: Result<(), IOStateError>) -> bool {
    match check {
        Some(e) => r == Err::<(), IOStateError>(e),
        None => r is Ok,
    }
}

/// `r` refers to the log id that `v` holds, or is absent as `v` is.
pub open spec fn refers_to(r: Option<&LogId>, v: Option<LogId>) -> bool {
    match r {
        Some(x) => v == Some(*x),
        None => v is None,
    }
}

impl IOState {
    /// A ledger seeded from the state recovered from storage: nothing is
    /// flushed yet and no snapshot is being built.
    pub fn new(
        vote: Vote,
        applied: Option<LogId>,
        snapshot: Option<LogId>,
        purged: Option<LogId>,
    ) -> (r: IOState)
        requires
            watermarks_ordered(applied, snapshot, purged),
        ensures
            r@ == (IOStateView {
                building_snapshot: false,
                vote,
                flushed: None,
                applied,
                snapshot,
                purged,
            }),
            r@.wf(),
    {
        IOState { building_snapshot: false, vote, flushed: None, applied, snapshot, purged }
    }

    /// Records a newly persisted vote. A vote older than the current one is
    /// refused; an equal or newer one replaces it.
    pub fn update_vote(&mut self, vote: Vote) -> (r: Result<(), IOStateError>)
        requires
            old(self)@.wf(),
        ensures
            result_of(old(self)@.vote_check(vote), r),
            r is Ok <==> !vote_lt(vote, old(self)@.vote),
            r is Ok ==> final(self)@ == (IOStateView { vote, ..old(self)@ }),
            r is Err ==> final(self)@ == old(self)@,
            final(self)@.wf(),
    {
        if vote.is_older_than(&self.vote) {
            return Err(IOStateError::StaleVote { held: self.vote, offered: vote });
        }
        self.vote = vote;
        Ok(())
    }

    pub fn vote(&self) -> (r: &Vote)
        ensures
            *r == self@.vote,
    {
        &self.vote
    }

    /// Records that state machine application has reached `log_id`, which
    /// must be strictly after the current applied log id and not before the
    /// snapshot or purged log ids.
    pub fn update_applied(&mut self, log_id: Option<LogId>) -> (r: Result<(), IOStateError>)
        requires
            old(self)@.wf(),
        ensures
            result_of(old(self)@.applied_check(log_id), r),
            r is Ok ==> opt_lt(old(self)@.applied, log_id),
            r is Ok ==> final(self)@ == (IOStateView { applied: log_id, ..old(self)@ }),
            r is Err ==> final(self)@ == old(self)@,
            final(self)@.wf(),
    {
        if !opt_precedes(&self.applied, &log_id) {
            return Err(
                IOStateError::NotMonotonic {
                    watermark: Watermark::Applied,
                    current: self.applied,
                    update: log_id,
                },
            );
        }
        if !ordered_if_present(&self.snapshot, &log_id) {
            return Err(
                IOStateError::OutOfOrder { lower: Watermark::Snapshot, upper: Watermark::Applied },
            );
        }
        if !ordered_if_present(&self.purged, &log_id) {
            return Err(
                IOStateError::OutOfOrder { lower: Watermark::Purged, upper: Watermark::Applied },
            );
        }
        self.applied = log_id;
        Ok(())
    }

    pub fn applied(&self) -> (r: Option<&LogId>)
        ensures
            refers_to(r, self@.applied),
    {
        self.applied.as_ref()
    }

    /// Records that the persisted snapshot now covers the log up to
    /// `log_id`, which must be strictly after the current snapshot log id,
    /// not after the applied log id and not before the purged one.
    pub fn update_snapshot(&mut self, log_id: Option<LogId>) -> (r: Result<(), IOStateError>)
        requires
            old(self)@.wf(),
        ensures
            result_of(old(self)@.snapshot_check(log_id), r),
            r is Ok ==> opt_lt(old(self)@.snapshot, log_id),
            r is Ok ==> final(self)@ == (IOStateView { snapshot: log_id, ..old(self)@ }),
            r is Err ==> final(self)@ == old(self)@,
            final(self)@.wf(),
    {
        if !opt_precedes(&self.snapshot, &log_id) {
            return Err(
                IOStateError::NotMonotonic {
                    watermark: Watermark::Snapshot,
                    current: self.snapshot,
                    update: log_id,
                },
            );
        }
        if !ordered_if_present(&log_id, &self.applied) {
            return Err(
                IOStateError::OutOfOrder { lower: Watermark::Snapshot, upper: Watermark::Applied },
            );
        }
        if !ordered_if_present(&self.purged, &log_id) {
            return Err(
                IOStateError::OutOfOrder { lower: Watermark::Purged, upper: Watermark::Snapshot },
            );
        }
        self.snapshot = log_id;
        Ok(())
    }

    pub fn snapshot(&self) -> (r: Option<&LogId>)
        ensures
            refers_to(r, self@.snapshot),
    {
        self.snapshot.as_ref()
    }

    /// Marks whether a snapshot is being built.
    pub fn set_building_snapshot(&mut self, building: bool)
        requires
            old(self)@.wf(),
        ensures
            final(self)@ == (IOStateView { building_snapshot: building, ..old(self)@ }),
            final(self)@.wf(),
    {
        self.building_snapshot = building;
    }

    pub fn building_snapshot(&self) -> (r: bool)
        ensures
            r == self@.building_snapshot,
    {
        self.building_snapshot
    }

    /// Records that log entries up to `log_id` have been removed from
    /// storage. The purged log id must not go back, and must not pass the
    /// snapshot or applied log ids.
    pub fn update_purged(&mut self, log_id: Option<LogId>) -> (r: Result<(), IOStateError>)
        requires
            old(self)@.wf(),
        ensures
            result_of(old(self)@.purged_check(log_id), r),
            r is Ok ==> opt_le(old(self)@.purged, log_id),
            r is Ok ==> final(self)@ == (IOStateView { purged: log_id, ..old(self)@ }),
            r is Err ==> final(self)@ == old(self)@,
            final(self)@.wf(),
    {
        if !opt_precedes_or_eq(&self.purged, &log_id) {
            return Err(
                IOStateError::NotMonotonic {
                    watermark: Watermark::Purged,
                    current: self.purged,
                    update: log_id,
                },
            );
        }
        if !ordered_if_present(&log_id, &self.snapshot) {
            return Err(
                IOStateError::OutOfOrder { lower: Watermark::Purged, upper: Watermark::Snapshot },
            );
        }
        if !ordered_if_present(&log_id, &self.applied) {
            return Err(
                IOStateError::OutOfOrder { lower: Watermark::Purged, upper: Watermark::Applied },
            );
        }
        self.purged = log_id;
        Ok(())
    }

    pub fn purged(&self) -> (r: Option<&LogId>)
        ensures
            refers_to(r, self@.purged),
    {
        self.purged.as_ref()
    }

    /// The last log id flushed to storage.
    pub fn flushed(&self) -> (r: Option<&LogId>)
        ensures
            refers_to(r, self@.flushed),
    {
        self.flushed.as_ref()
    }
}

} // verus!
