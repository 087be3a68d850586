use vstd::prelude::*;

use std::sync::Arc;

use super::task_id::TaskId;
use crate::service::SubmissionError;
use crate::task::TaskStatus;

verus! {

/// Observes task lifecycle events emitted by executors and executor services.
///
/// A rejected submission emits only `on_rejected` and never receives a task
/// id. An accepted submission emits `on_accepted` before any later
/// `on_started` or `on_finished` event for the same task; `on_started` is
/// emitted only when the task actually begins running, so a task cancelled
/// before start may emit `on_finished` without `on_started`.
pub trait TaskHook: Send + Sync + 'static {
    /// Called after a task is accepted.
    fn on_accepted(&self, task_id: TaskId) {
    }

    /// Called when a submitted task is rejected.
    fn on_rejected(&self, error: &SubmissionError) {
    }

    /// Called immediately before an accepted task starts running.
    fn on_started(&self, task_id: TaskId) {
    }

    /// Called after an accepted task reaches a terminal status.
    fn on_finished(&self, task_id: TaskId, status: TaskStatus) {
    }
}

/// Task hook that ignores all events.
#[derive(Debug, Default, Clone, Copy, PartialEq, Eq, Structural)]
pub struct NoopTaskHook;

impl TaskHook for NoopTaskHook {
}

/// A present, shared [`NoopTaskHook`], made by `Arc::new` and the unsizing
/// coercion to `Arc<dyn TaskHook>`, which Verus does not take in verified
/// code. Only that a hook is present is stated: a contract cannot name the
/// concrete type behind a trait object.
#[verifier::external_body]
pub(crate) fn noop_task_hook() -> (hook: Option<Arc<dyn TaskHook>>)
    ensures
        hook is Some,
{
    let hook: Arc<dyn TaskHook> = Arc::new(NoopTaskHook);
    Some(hook)
}

/// Handle whose task can be marked accepted by the service that admitted it.
pub trait TaskAdmissionHandle {
    /// Marks the task accepted.
    fn mark_accepted(&self);
}

} // verus!
