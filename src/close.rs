//! The bounded graceful close sequence shared by client sessions and
//! server-side connection workers.
//!
//! The caller sends the close frame, then keeps flushing while
//! [`CloseWait::keep_waiting`] says so, then drops the transport and reports
//! [`CloseWait::outcome`]. Time is counted in milliseconds from any fixed
//! origin chosen by the caller.
use vstd::prelude::*;
use crate::error::SimpleSockleError;

verus! {

/// How long the peer gets to finish the close handshake, in milliseconds.
pub const CLOSE_CEILING_MS: u64 = 10000;

/// The deadline of one close sequence.
#[derive(Debug, Clone, Copy, PartialEq, Eq, Structural)]
pub struct CloseWait {
    pub deadline_ms: u64,
}

/// The deadline of a close sequence that starts at `now`, capped at the
/// largest time that can be represented.
pub open spec fn deadline_from(now: u64) -> u64 {
    if now as int + CLOSE_CEILING_MS as int > u64::MAX as int {
        u64::MAX
    } else {
        (now + CLOSE_CEILING_MS) as u64
    }
}

/// What a close sequence reports: success when the close frame could not be
/// sent (the connection is taken to be closed already) or when the flush
/// completed; `SocketCloseTimeout` when the deadline passed first.
pub open spec fn close_outcome(
    frame_sent: bool,
    flushed: bool,
    now: u64,
    deadline: u64,
) -> Result<(), SimpleSockleError> {
    if frame_sent && !flushed && now >= deadline {
        Err(SimpleSockleError::SocketCloseTimeout)
    } else {
        Ok(())
    }
}

impl CloseWait {
    /// Starts the wait of a close sequence at time `now_ms`.
    pub fn start(now_ms: u64) -> (w: CloseWait)
        ensures
            w.deadline_ms == deadline_from(now_ms),
            w.deadline_ms >= now_ms,
    {
        CloseWait { deadline_ms: now_ms.saturating_add(CLOSE_CEILING_MS) }
    }

    /// Whether to keep flushing: only while data is still pending and the
    /// deadline has not been reached.
    pub fn keep_waiting(&self, still_pending: bool, now_ms: u64) -> (r: bool)
        ensures
            r == (still_pending && now_ms < self.deadline_ms),
    {
        still_pending && now_ms < self.deadline_ms
    }

    /// The result of a close sequence that ends at `now_ms`.
    pub fn outcome(&self, frame_sent: bool, flushed: bool, now_ms: u64) -> (r: Result<
        (),
        SimpleSockleError,
    >)
        ensures
            r == close_outcome(frame_sent, flushed, now_ms, self.deadline_ms),
    {
        if frame_sent && !flushed && now_ms >= self.deadline_ms {
            Err(SimpleSockleError::SocketCloseTimeout)
        } else {
            Ok(())
        }
    }
}

} // verus!
