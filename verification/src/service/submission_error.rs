use vstd::prelude::*;

verus! {

/// `std::io::Error`, carried through this crate without being inspected.
#[verifier::external_type_specification]
#[verifier::external_body]
pub struct ExIoError(std::io::Error);

/// `std::io::ErrorKind`, carried through this crate without being inspected.
#[verifier::external_type_specification]
#[verifier::external_body]
pub struct ExIoErrorKind(std::io::ErrorKind);

/// Reason an executor or executor service refused a task before accepting it.
#[derive(Debug)]
pub enum SubmissionError {
    /// The service has started shutdown or stop and accepts no new work.
    Shutdown,
    /// The service has no capacity left for new work.
    Saturated,
    /// The operating system refused to create the worker thread.
    WorkerSpawnFailed {
        /// Error reported by the thread builder.
        source: std::io::Error,
    },
}

impl SubmissionError {
    /// Wraps a thread-spawn failure.
    pub fn worker_spawn_failed(source: std::io::Error) -> (error: Self)
        ensures
            error == (SubmissionError::WorkerSpawnFailed { source }),
    {
        SubmissionError::WorkerSpawnFailed { source }
    }
}

} // verus!
