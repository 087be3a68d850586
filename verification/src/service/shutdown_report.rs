use vstd::prelude::*;

verus! {

/// Count-based summary returned by an immediate executor-service shutdown
/// request.
#[derive(Debug, Default, Clone, Copy, PartialEq, Eq, Structural)]
pub struct ShutdownReport {
    /// Number of tasks that were still queued when shutdown was requested.
    pub queued: usize,
    /// Number of tasks that were running when shutdown was requested.
    pub running: usize,
    /// Number of tasks for which cancellation or abort was requested.
    pub cancelled: usize,
}

impl ShutdownReport {
    /// Creates a shutdown report from explicit counters.
    pub fn new(queued: usize, running: usize, cancelled: usize) -> (report: Self)
        ensures
            report.queued == queued,
            report.running == running,
            report.cancelled == cancelled,
    {
        ShutdownReport { queued, running, cancelled }
    }
}

} // verus!
