use vstd::prelude::*;

use super::executor_service_lifecycle::ExecutorServiceLifecycle;
use super::submission_error::SubmissionError;

verus! {

/// Abstract state of a thread-per-task executor service: its lifecycle and
/// the number of accepted tasks whose worker has not finished.
pub struct ServiceView {
    pub lifecycle: ExecutorServiceLifecycle,
    pub active_tasks: nat,
}

/// The service terminates exactly when it is not running and idle.
pub open spec fn service_wf(v: ServiceView) -> bool {
    &&& (v.lifecycle == ExecutorServiceLifecycle::Terminated ==> v.active_tasks == 0)
    &&& (v.lifecycle != ExecutorServiceLifecycle::Running && v.active_tasks == 0
        ==> v.lifecycle == ExecutorServiceLifecycle::Terminated)
}

/// Marks a non-running, idle service terminated.
pub open spec fn settle_service(v: ServiceView) -> ServiceView {
    if v.lifecycle != ExecutorServiceLifecycle::Running && v.active_tasks == 0 {
        ServiceView { lifecycle: ExecutorServiceLifecycle::Terminated, active_tasks: 0 }
    } else {
        v
    }
}

/// Admission: a running service counts one more active task; any other
/// service refuses the task and stays as it is.
pub open spec fn service_after_accept(v: ServiceView) -> (ServiceView, bool) {
    if v.lifecycle == ExecutorServiceLifecycle::Running {
        (ServiceView { lifecycle: v.lifecycle, active_tasks: v.active_tasks + 1 }, true)
    } else {
        (v, false)
    }
}

/// A worker finished: one active task less, then terminate if ready.
pub open spec fn service_after_finish(v: ServiceView) -> ServiceView {
    settle_service(ServiceView { lifecycle: v.lifecycle, active_tasks: (v.active_tasks - 1) as nat })
}

/// Graceful shutdown: a running service starts shutting down, then
/// terminates if ready.
pub open spec fn service_after_shutdown(v: ServiceView) -> ServiceView {
    settle_service(
        ServiceView {
            lifecycle: if v.lifecycle == ExecutorServiceLifecycle::Running {
                ExecutorServiceLifecycle::ShuttingDown
            } else {
                v.lifecycle
            },
            active_tasks: v.active_tasks,
        },
    )
}

/// Abrupt stop: a service that has not terminated starts stopping, then
/// terminates if ready.
pub open spec fn service_after_stop(v: ServiceView) -> ServiceView {
    settle_service(
        ServiceView {
            lifecycle: if v.lifecycle != ExecutorServiceLifecycle::Terminated {
                ExecutorServiceLifecycle::Stopping
            } else {
                v.lifecycle
            },
            active_tasks: v.active_tasks,
        },
    )
}

/// Lifecycle and active-task counter of a thread-per-task executor service,
/// updated as one state machine.
#[derive(Debug, Clone, Copy)]
pub struct ServiceState {
    lifecycle: ExecutorServiceLifecycle,
    active_tasks: usize,
}

impl View for ServiceState {
    type V = ServiceView;

    closed spec fn view(&self) -> ServiceView {
        ServiceView { lifecycle: self.lifecycle, active_tasks: self.active_tasks as nat }
    }
}

impl ServiceState {
    /// Well-formedness: terminated exactly when not running and idle.
    pub open spec fn wf(&self) -> bool {
        service_wf(self@)
    }

    /// Creates a running state with no active tasks.
    pub fn new() -> (state: Self)
        ensures
            state.wf(),
            state@ == (ServiceView { lifecycle: ExecutorServiceLifecycle::Running, active_tasks: 0 }),
    {
        ServiceState { lifecycle: ExecutorServiceLifecycle::Running, active_tasks: 0 }
    }

    /// Returns the current lifecycle.
    pub fn lifecycle(&self) -> (lifecycle: ExecutorServiceLifecycle)
        ensures
            lifecycle == self@.lifecycle,
    {
        self.lifecycle
    }

    /// Returns the number of accepted tasks that have not finished.
    pub fn active_tasks(&self) -> (count: usize)
        ensures
            count == self@.active_tasks,
    {
        self.active_tasks
    }

    /// Accepts one task while running.
    ///
    /// # Errors
    ///
    /// Returns [`SubmissionError::Shutdown`] once shutdown or stop has been
    /// requested.
    pub fn accept_task(&mut self) -> (result: Result<(), SubmissionError>)
        requires
            old(self).wf(),
            old(self)@.active_tasks < usize::MAX,
        ensures
            final(self).wf(),
            final(self)@ == service_after_accept(old(self)@).0,
            result is Ok <==> service_after_accept(old(self)@).1,
            result is Err ==> result->Err_0 is Shutdown,
    {
        if self.lifecycle != ExecutorServiceLifecycle::Running {
            return Err(SubmissionError::Shutdown);
        }
        self.active_tasks = self.active_tasks + 1;
        Ok(())
    }

    /// Records that the worker of one accepted task finished.
    pub fn finish_task(&mut self)
        requires
            old(self).wf(),
            old(self)@.active_tasks > 0,
        ensures
            final(self).wf(),
            final(self)@ == service_after_finish(old(self)@),
    {
        self.active_tasks = self.active_tasks - 1;
        self.terminate_if_ready();
    }

    /// Requests graceful shutdown.
    pub fn shutdown(&mut self)
        requires
            old(self).wf(),
        ensures
            final(self).wf(),
            final(self)@ == service_after_shutdown(old(self)@),
            final(self)@.active_tasks == old(self)@.active_tasks,
    {
        if self.lifecycle == ExecutorServiceLifecycle::Running {
            self.lifecycle = ExecutorServiceLifecycle::ShuttingDown;
        }
        self.terminate_if_ready();
    }

    /// Requests abrupt stop and returns the active task count observed.
    pub fn stop(&mut self) -> (running: usize)
        requires
            old(self).wf(),
        ensures
            final(self).wf(),
            final(self)@ == service_after_stop(old(self)@),
            running == old(self)@.active_tasks,
    {
        if self.lifecycle != ExecutorServiceLifecycle::Terminated {
            self.lifecycle = ExecutorServiceLifecycle::Stopping;
        }
        let running = self.active_tasks;
        self.terminate_if_ready();
        running
    }

    /// Marks the service terminated when it is not running and idle.
    fn terminate_if_ready(&mut self)
        ensures
            final(self)@ == settle_service(old(self)@),
    {
        if self.lifecycle != ExecutorServiceLifecycle::Running && self.active_tasks == 0 {
            self.lifecycle = ExecutorServiceLifecycle::Terminated;
        }
    }
}

/// Shutdown and stop are terminal admission decisions: once a service is not
/// running, no operation makes it running again.
pub proof fn lemma_service_admission_is_terminal(v: ServiceView)
    requires
        v.lifecycle != ExecutorServiceLifecycle::Running,
    ensures
        service_after_accept(v).0.lifecycle != ExecutorServiceLifecycle::Running,
        !service_after_accept(v).1,
        service_after_finish(v).lifecycle != ExecutorServiceLifecycle::Running,
        service_after_shutdown(v).lifecycle != ExecutorServiceLifecycle::Running,
        service_after_stop(v).lifecycle != ExecutorServiceLifecycle::Running,
        settle_service(v).lifecycle != ExecutorServiceLifecycle::Running,
{
}

/// Every operation keeps the service terminated exactly when it is not
/// running and has no active task.
pub proof fn lemma_service_operations_keep_wf(v: ServiceView)
    requires
        service_wf(v),
    ensures
        service_wf(service_after_accept(v).0),
        v.active_tasks > 0 ==> service_wf(service_after_finish(v)),
        service_wf(service_after_shutdown(v)),
        service_wf(service_after_stop(v)),
{
}

/// A terminated service stays terminated and refuses every task.
pub proof fn lemma_service_terminated_is_absorbing(v: ServiceView)
    requires
        service_wf(v),
        v.lifecycle == ExecutorServiceLifecycle::Terminated,
    ensures
        service_after_accept(v) == (v, false),
        service_after_shutdown(v) == v,
        service_after_stop(v) == v,
{
}

/// Requesting shutdown or stop twice has the effect of requesting it once.
pub proof fn lemma_service_requests_are_idempotent(v: ServiceView)
    requires
        service_wf(v),
    ensures
        service_after_shutdown(service_after_shutdown(v)) == service_after_shutdown(v),
        service_after_stop(service_after_stop(v)) == service_after_stop(v),
{
}

/// Shutdown preserves accepted work: an idle service terminates at once,
/// a busy one keeps every active task and terminates when the last finishes.
pub proof fn lemma_service_shutdown_drains(v: ServiceView)
    requires
        service_wf(v),
        v.lifecycle == ExecutorServiceLifecycle::Running,
    ensures
        service_after_shutdown(v).active_tasks == v.active_tasks,
        v.active_tasks == 0 ==> service_after_shutdown(v).lifecycle
            == ExecutorServiceLifecycle::Terminated,
        v.active_tasks > 0 ==> service_after_shutdown(v).lifecycle
            == ExecutorServiceLifecycle::ShuttingDown,
        v.active_tasks == 1 ==> service_after_finish(service_after_shutdown(v)).lifecycle
            == ExecutorServiceLifecycle::Terminated,
{
}

/// A finished worker lowers the active count by exactly one, whatever the
/// lifecycle: the service keeps its lifecycle while other tasks remain active,
/// and when the last one finishes it terminates exactly when it is not
/// running. Accepting a task into a running service and finishing it returns
/// the service to where it was; accepting is possible exactly while running
/// and adds one active task.
pub proof fn lemma_service_finish_counts_one_task(v: ServiceView)
    requires
        service_wf(v),
    ensures
        v.active_tasks > 0 ==> service_after_finish(v).active_tasks + 1 == v.active_tasks,
        v.active_tasks > 1 ==> service_after_finish(v).lifecycle == v.lifecycle,
        v.active_tasks == 1 ==> (service_after_finish(v).lifecycle == ExecutorServiceLifecycle::Terminated
            <==> v.lifecycle != ExecutorServiceLifecycle::Running),
        v.active_tasks == 1 && v.lifecycle == ExecutorServiceLifecycle::Running ==> service_after_finish(v).lifecycle
            == ExecutorServiceLifecycle::Running,
        v.lifecycle == ExecutorServiceLifecycle::Running ==> service_after_finish(service_after_accept(v).0) == v,
        service_after_accept(v).1 == (v.lifecycle == ExecutorServiceLifecycle::Running),
        v.lifecycle == ExecutorServiceLifecycle::Running ==> service_after_accept(v).0.active_tasks == v.active_tasks + 1
            && service_after_accept(v).0.lifecycle == ExecutorServiceLifecycle::Running,
{
}

/// Shutdown moves only a running service, to `ShuttingDown` (or straight to
/// `Terminated` when no task is active); a service that is already shutting
/// down, stopping or terminated keeps its lifecycle. Stop moves every service
/// that has not terminated to `Stopping` (or `Terminated` when idle). Neither
/// changes the number of active tasks.
pub proof fn lemma_service_shutdown_and_stop_lifecycle(v: ServiceView)
    requires
        service_wf(v),
    ensures
        service_after_shutdown(v).active_tasks == v.active_tasks,
        service_after_stop(v).active_tasks == v.active_tasks,
        v.lifecycle != ExecutorServiceLifecycle::Running ==> service_after_shutdown(v).lifecycle == v.lifecycle,
        v.lifecycle == ExecutorServiceLifecycle::Running && v.active_tasks > 0 ==> service_after_shutdown(v).lifecycle
            == ExecutorServiceLifecycle::ShuttingDown,
        v.lifecycle != ExecutorServiceLifecycle::Terminated && v.active_tasks > 0 ==> service_after_stop(v).lifecycle
            == ExecutorServiceLifecycle::Stopping,
        v.active_tasks == 0 ==> service_after_shutdown(v).lifecycle == ExecutorServiceLifecycle::Terminated,
        v.active_tasks == 0 ==> service_after_stop(v).lifecycle == ExecutorServiceLifecycle::Terminated,
{
}

} // verus!
