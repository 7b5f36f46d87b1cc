//! A small worker pool: a manager owns idle resources, hands them out on
//! checkout, takes them back on checkin, opens a bounded number of overflow
//! slots when it runs dry, and replaces resources that were destroyed.
//!
//! The manager's decisions are verified here; the asynchronous plumbing that
//! creates resources and carries requests over channels drives them.
use vstd::prelude::*;

pub mod pool;
pub mod session;
pub mod laws;

verus! {

/// Why a request made through a session did not complete.
#[derive(Debug, Clone, Copy, PartialEq, Eq, Structural)]
pub enum SessionResult {
    /// The manager's channel is closed.
    Closed,
    /// The request could not be queued in time.
    Timeout,
    /// A non-blocking checkout found no resource and no free overflow slot.
    Full,
    /// The manager dropped the reply channel without answering.
    NoResponse,
}

/// What the manager's loop does after handling one message.
#[derive(Debug, Clone, Copy, PartialEq, Eq, Structural)]
pub enum WorkerState {
    Continue,
    Disconnected,
    Empty,
}

/// Errors about the senders registered with a pool.
#[derive(Debug, Clone, Copy, PartialEq, Eq, Structural)]
pub enum Status {
    SenderNotFound,
    SendersRepetive,
}

} // verus!
