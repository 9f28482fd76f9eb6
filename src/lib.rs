//! A node's ledger of completed I/O in a Raft-style replicated log: the last
//! durable vote and how far flushing, applying, snapshotting and purging of
//! log entries have actually progressed.
pub mod io_state;
pub mod log_id;
pub mod vote;
pub mod vote_gate;

pub use io_state::{IOState, IOStateError, Watermark};
pub use log_id::LogId;
pub use vote::Vote;
pub use vote_gate::{AppendDecision, AppendOutcome, RejectReason};
