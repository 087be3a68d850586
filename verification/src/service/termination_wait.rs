use vstd::prelude::*;

verus! {

/// Longest single condition wait, in nanoseconds: one hour.
pub const MAX_WAIT_SLICE_NANOS: u64 = 3_600_000_000_000;

/// One decision of a bounded wait for service termination.
#[derive(Debug, Clone, Copy, PartialEq, Eq, Structural)]
pub enum TerminationWait {
    /// The service has terminated: the wait succeeds.
    Terminated,
    /// The timeout has elapsed first: the wait fails.
    TimedOut,
    /// Wait on the condition for this many nanoseconds, then decide again.
    WaitNanos(u64),
}

/// Decision of a bounded termination wait, given whether the service has
/// terminated, the total timeout and the time elapsed since the wait began.
pub open spec fn termination_wait_spec(terminated: bool, timeout_nanos: u128, elapsed_nanos: u128) -> TerminationWait {
    if terminated {
        TerminationWait::Terminated
    } else if elapsed_nanos >= timeout_nanos {
        TerminationWait::TimedOut
    } else if timeout_nanos - elapsed_nanos > MAX_WAIT_SLICE_NANOS {
        TerminationWait::WaitNanos(MAX_WAIT_SLICE_NANOS)
    } else {
        TerminationWait::WaitNanos((timeout_nanos - elapsed_nanos) as u64)
    }
}

/// Decides the next move of a bounded termination wait: succeed once the
/// service has terminated, fail once the remaining time is zero, and
/// otherwise wait for the remaining time, at most one hour at a time.
pub fn termination_wait_step(terminated: bool, timeout_nanos: u128, elapsed_nanos: u128) -> (step: TerminationWait)
    ensures
        step == termination_wait_spec(terminated, timeout_nanos, elapsed_nanos),
{
    if terminated {
        return TerminationWait::Terminated;
    }
    let remaining = timeout_nanos.saturating_sub(elapsed_nanos);
    if remaining == 0 {
        return TerminationWait::TimedOut;
    }
    if remaining > MAX_WAIT_SLICE_NANOS as u128 {
        TerminationWait::WaitNanos(MAX_WAIT_SLICE_NANOS)
    } else {
        TerminationWait::WaitNanos(remaining as u64)
    }
}

/// A bounded wait never waits past its timeout nor longer than one hour at
/// a time, and never reports a timeout for a terminated service.
pub proof fn lemma_termination_wait_is_bounded(terminated: bool, timeout_nanos: u128, elapsed_nanos: u128)
    ensures
        termination_wait_spec(terminated, timeout_nanos, elapsed_nanos) matches TerminationWait::WaitNanos(slice) ==> {
            &&& 0 < slice <= MAX_WAIT_SLICE_NANOS
            &&& elapsed_nanos + slice <= timeout_nanos
        },
        terminated ==> termination_wait_spec(terminated, timeout_nanos, elapsed_nanos) is Terminated,
        termination_wait_spec(terminated, timeout_nanos, elapsed_nanos) is TimedOut ==> elapsed_nanos >= timeout_nanos,
{
}

} // verus!
