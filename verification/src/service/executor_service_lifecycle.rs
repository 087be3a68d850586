use vstd::prelude::*;

verus! {

/// Lifecycle state for a managed executor service.
///
/// * `Running` accepts new tasks.
/// * `ShuttingDown` is entered by a graceful shutdown: new tasks are rejected,
///   accepted work finishes normally.
/// * `Stopping` is entered by an abrupt stop: new tasks are rejected and
///   accepted work that can still be stopped is cancelled.
/// * `Terminated` means shutdown or stop was requested and no accepted work
///   remains active.
#[derive(Debug, Clone, Copy, PartialEq, Eq, Hash, Structural)]
pub enum ExecutorServiceLifecycle {
    /// The service accepts new tasks and may have accepted work in progress.
    Running,
    /// Graceful shutdown has started.
    ShuttingDown,
    /// Abrupt stop has started.
    Stopping,
    /// The service no longer accepts tasks and has no accepted work in progress.
    Terminated,
}

} // verus!
