//! The decision of a transport that waits for bytes by polling.

use vstd::prelude::*;

verus! {

/// What one poll of a waiting transport comes to.
#[derive(Debug, Clone, Copy, PartialEq, Eq, Structural)]
pub enum WaitStatus {
    /// At least as many bytes as were asked for are ready.
    Ready,
    /// The wait is over and too few bytes are ready.
    TimedOut,
    /// The channel is about to close: nothing is waited for.
    Closed,
    /// Too few bytes are ready and time is left: poll again.
    Pending,
}

/// What one poll comes to. A channel that is about to close waits for
/// nothing. Enough bytes end the wait as ready, whatever the clock says; too
/// few end it as timed out once more time has passed than the timeout
/// allows.
pub open spec fn wait_status(
    close_pending: bool,
    ready: usize,
    size: usize,
    elapsed_ms: u128,
    timeout_ms: u32,
) -> WaitStatus {
    if close_pending {
        WaitStatus::Closed
    } else if ready >= size {
        WaitStatus::Ready
    } else if elapsed_ms > timeout_ms {
        WaitStatus::TimedOut
    } else {
        WaitStatus::Pending
    }
}

/// Decides one poll of a wait for `size` bytes: `ready` bytes can be read
/// now, and `elapsed_ms` milliseconds of the `timeout_ms` allowed have
/// passed.
pub fn wait_for_data(
    close_pending: bool,
    ready: usize,
    size: usize,
    elapsed_ms: u128,
    timeout_ms: u32,
) -> (status: WaitStatus)
    ensures
        status == wait_status(close_pending, ready, size, elapsed_ms, timeout_ms),
{
    if close_pending {
        WaitStatus::Closed
    } else if ready >= size {
        WaitStatus::Ready
    } else if elapsed_ms > timeout_ms as u128 {
        WaitStatus::TimedOut
    } else {
        WaitStatus::Pending
    }
}

} // verus!
