use vstd::prelude::*;

verus! {

/// Count-based summary returned by an immediate executor-service stop request.
#[derive(Debug, Default, Clone, Copy, PartialEq, Eq, Structural)]
pub struct StopReport {
    /// Number of tasks that were still queued when stop was requested.
    pub queued: usize,
    /// Number of tasks that were running when stop was requested.
    pub running: usize,
    /// Number of tasks for which cancellation or abort was requested.
    pub cancelled: usize,
}

impl StopReport {
    /// Creates a stop report from explicit counters.
    pub fn new(queued: usize, running: usize, cancelled: usize) -> (report: Self)
        ensures
            report.queued == queued,
            report.running == running,
            report.cancelled == cancelled,
    {
        StopReport { queued, running, cancelled }
    }
}

} // verus!
