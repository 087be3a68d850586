use vstd::prelude::*;

verus! {

/// Status of an accepted task.
#[derive(Debug, Clone, Copy, PartialEq, Eq, Hash, Structural)]
pub enum TaskStatus {
    /// Accepted and waiting to start.
    Pending,
    /// Started and not yet finished.
    Running,
    /// Finished with a success value.
    Succeeded,
    /// Finished with an error value.
    Failed,
    /// Panicked while running.
    Panicked,
    /// Cancelled before it started.
    Cancelled,
    /// Its runner endpoint was dropped before publishing a result.
    Dropped,
}

} // verus!
