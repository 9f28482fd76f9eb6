//! The decisions a node takes on a replication request that carries a vote:
//! reject it, or persist the vote and accept it once the write is durable.
//!
//! The caller performs the durable write between the two steps:
//! `decide_append` says whether to write, and `complete_vote_write` takes the
//! outcome of the write and says what to answer.
use vstd::prelude::*;

use crate::io_state::{IOState, IOStateView};
use crate::vote::{vote_le, vote_lt, Vote};

verus! {

/// Why a request was turned down.
#[derive(Debug, Clone, Copy, PartialEq, Eq, Structural)]
pub enum RejectReason {
    /// The request's vote is not newer than the vote this node holds.
    StaleVote,
    /// The request's previous log id does not match this node's log.
    LogMismatch,
}

/// What to do with an incoming request.
#[derive(Debug, Clone, Copy, PartialEq, Eq, Structural)]
pub enum AppendDecision {
    /// Answer with a rejection; nothing is written and the ledger is unchanged.
    Reject(RejectReason),
    /// Durably persist this vote, then call `complete_vote_write`.
    PersistVote(Vote),
}

/// The answer to a request whose vote was handed to storage.
#[derive(Debug, Clone, Copy, PartialEq, Eq, Structural)]
pub enum AppendOutcome {
    /// The vote is durable and recorded; the request is accepted.
    Accepted,
    /// The request is turned down; the ledger is unchanged.
    Rejected(RejectReason),
    /// Storage did not persist the vote; the request failed and the ledger
    /// is unchanged.
    Failed,
}

pub open spec fn decision(held: Vote, offered: Vote, prev_log_matches: bool) -> AppendDecision {
    if !vote_lt(held, offered) {
        AppendDecision::Reject(RejectReason::StaleVote)
    } else if !prev_log_matches {
        AppendDecision::Reject(RejectReason::LogMismatch)
    } else {
        AppendDecision::PersistVote(offered)
    }
}

pub open spec fn outcome(held: Vote, written: Vote, write_succeeded: bool) -> AppendOutcome {
    if !write_succeeded {
        AppendOutcome::Failed
    } else if vote_lt(written, held) {
        AppendOutcome::Rejected(RejectReason::StaleVote)
    } else {
        AppendOutcome::Accepted
    }
}

/// Decides on a request carrying `vote`, given whether its previous log id
/// matches this node's log. A vote that is not strictly newer than the held
/// one is rejected as stale; otherwise a log mismatch is rejected; otherwise
/// the vote must be persisted before anything is answered.
pub fn decide_append(ledger: &IOState, vote: Vote, prev_log_matches: bool) -> (d: AppendDecision)
    ensures
        d == decision(ledger@.vote, vote, prev_log_matches),
{
    if !ledger.vote().is_older_than(&vote) {
        AppendDecision::Reject(RejectReason::StaleVote)
    } else if !prev_log_matches {
        AppendDecision::Reject(RejectReason::LogMismatch)
    } else {
        AppendDecision::PersistVote(vote)
    }
}

/// Takes the outcome of the durable write of `vote`. Only a successful write
/// records the vote in the ledger and accepts the request; a failed write
/// fails the request and leaves the ledger as it was.
pub fn complete_vote_write(ledger: &mut IOState, vote: Vote, write_succeeded: bool) -> (r:
    AppendOutcome)
    requires
        old(ledger)@.wf(),
    ensures
        r == outcome(old(ledger)@.vote, vote, write_succeeded),
        r == AppendOutcome::Accepted ==> final(ledger)@ == (IOStateView { vote, ..old(ledger)@ }),
        r != AppendOutcome::Accepted ==> final(ledger)@ == old(ledger)@,
        final(ledger)@.wf(),
{
    if !write_succeeded {
        return AppendOutcome::Failed;
    }
    match ledger.update_vote(vote) {
        Ok(()) => AppendOutcome::Accepted,
        Err(_) => AppendOutcome::Rejected(RejectReason::StaleVote),
    }
}

/// A request carrying a vote newer than the held one, whose previous log id
/// matches, is answered only after that vote is written: the decision is to
/// persist it, a successful write accepts the request and leaves that vote
/// held, and a failed write fails the request with the ledger unchanged.
pub proof fn lemma_newer_vote_advances(s: IOStateView, offered: Vote)
    requires
        s.wf(),
        vote_lt(s.vote, offered),
    ensures
        decision(s.vote, offered, true) == AppendDecision::PersistVote(offered),
        outcome(s.vote, offered, true) == AppendOutcome::Accepted,
        (IOStateView { vote: offered, ..s }).wf(),
        outcome(s.vote, offered, false) == AppendOutcome::Failed,
{
}

/// Once a vote is accepted, any later request carrying that vote or an older
/// one is rejected as stale, whatever its log, and nothing is written.
pub proof fn lemma_stale_after_advance(
    s: IOStateView,
    accepted: Vote,
    later: Vote,
    prev_log_matches: bool,
)
    requires
        s.wf(),
        outcome(s.vote, accepted, true) == AppendOutcome::Accepted,
        vote_le(later, accepted),
    ensures
        ({
            let after = IOStateView { vote: accepted, ..s };
            decision(after.vote, later, prev_log_matches) == AppendDecision::Reject(
                RejectReason::StaleVote,
            )
        }),
{
}

} // verus!
