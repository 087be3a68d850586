use vstd::prelude::*;

use qubit_collections::map::OrderedIndexMap;

use super::deadline_index::deadline_index_contains;
use super::deadline_index::deadline_index_detached;
use super::deadline_index::deadline_index_first;
use super::deadline_index::deadline_index_len;
use super::deadline_index::deadline_index_new;
use super::deadline_index::deadline_index_pop_first;
use super::deadline_index::deadline_index_records;
use super::deadline_index::deadline_index_remove;
use super::deadline_index::deadline_index_sequences;
use super::deadline_index::deadline_index_try_insert;
use super::deadline_index::has_id;
use super::deadline_index::ids_unique;
use super::deadline_index::insertion_point;
use super::deadline_index::lemma_drop_first;
use super::deadline_index::lemma_insertion_point;
use super::deadline_index::lemma_stable_insert;
use super::deadline_index::lemma_without_id;
use super::deadline_index::position_of;
use super::deadline_index::sorted_by_deadline;
use super::deadline_index::stable_insert;
use super::deadline_index::without_id;
use crate::hook::TaskId;
use crate::service::ExecutorServiceLifecycle;
use crate::service::StopReport;
use crate::service::SubmissionError;

verus! {

/// Abstract state of the scheduler shared by a scheduled service and its
/// single worker.
pub struct SchedulerView {
    /// Admission lifecycle; never `Terminated` (termination is `terminated`).
    pub lifecycle: ExecutorServiceLifecycle,
    /// Queued tasks as `(task id, deadline)`, ascending deadline, equal
    /// deadlines in the order they were scheduled.
    pub queue: Seq<(u64, u64)>,
    /// Number of tasks ever placed in the queue.
    pub attachments: nat,
    /// Whether the worker has exited.
    pub terminated: bool,
    /// Whether the worker holds a task outside the queue.
    pub worker_active: bool,
    /// Whether a stop request is cancelling drained tasks.
    pub stop_draining: bool,
}

/// Observable worker decision.
pub enum WorkerStepView {
    Exit,
    Wait,
    WaitUntil(u64),
    Start(u64),
}

/// No queued task, no worker activity and no pending drain remains after
/// shutdown or stop.
pub open spec fn scheduler_can_terminate(v: SchedulerView) -> bool {
    &&& v.lifecycle != ExecutorServiceLifecycle::Running
    &&& v.queue.len() == 0
    &&& !v.worker_active
    &&& !v.stop_draining
}

/// Invariant of the scheduler state.
pub open spec fn scheduler_wf(v: SchedulerView) -> bool {
    &&& v.lifecycle != ExecutorServiceLifecycle::Terminated
    &&& sorted_by_deadline(v.queue)
    &&& ids_unique(v.queue)
    &&& (v.terminated ==> scheduler_can_terminate(v))
}

/// Lifecycle reported to callers: `Terminated` once the worker has exited.
pub open spec fn observed_lifecycle(v: SchedulerView) -> ExecutorServiceLifecycle {
    if v.terminated {
        ExecutorServiceLifecycle::Terminated
    } else {
        v.lifecycle
    }
}

/// Marks the worker terminated when nothing remains.
pub open spec fn settle_scheduler(v: SchedulerView) -> SchedulerView {
    SchedulerView { terminated: v.terminated || scheduler_can_terminate(v), ..v }
}

/// Admission of a task: a running scheduler queues it in stable deadline
/// order, any other refuses it.
pub open spec fn scheduler_after_schedule(v: SchedulerView, id: u64, deadline: u64) -> (SchedulerView, bool) {
    if v.lifecycle == ExecutorServiceLifecycle::Running {
        (SchedulerView { queue: stable_insert(v.queue, id, deadline), attachments: v.attachments + 1, ..v }, true)
    } else {
        (v, false)
    }
}

/// A queued task whose handle published cancellation leaves the queue.
pub open spec fn scheduler_after_cancel(v: SchedulerView, id: u64) -> SchedulerView {
    SchedulerView { queue: without_id(v.queue, id), ..v }
}

/// Graceful shutdown keeps every queued task.
pub open spec fn scheduler_after_shutdown(v: SchedulerView) -> SchedulerView {
    SchedulerView {
        lifecycle: if v.lifecycle == ExecutorServiceLifecycle::Running {
            ExecutorServiceLifecycle::ShuttingDown
        } else {
            v.lifecycle
        },
        ..v
    }
}

/// First half of a stop: the queue is drained for cancellation outside the
/// lock, and a non-empty drain is marked in progress.
pub open spec fn scheduler_after_begin_stop(v: SchedulerView) -> SchedulerView {
    if v.lifecycle == ExecutorServiceLifecycle::Terminated {
        v
    } else {
        SchedulerView {
            lifecycle: ExecutorServiceLifecycle::Stopping,
            queue: Seq::empty(),
            stop_draining: v.stop_draining || v.queue.len() > 0,
            ..v
        }
    }
}

/// Second half of a stop: the stop that owned the drain releases it, then the
/// worker terminates if nothing remains.
pub open spec fn scheduler_after_finish_stop(v: SchedulerView, owns_drain: bool) -> SchedulerView {
    settle_scheduler(SchedulerView { stop_draining: if owns_drain { false } else { v.stop_draining }, ..v })
}

/// One decision of the worker loop at time `now`.
pub open spec fn scheduler_after_worker_step(v: SchedulerView, now: u64) -> (SchedulerView, WorkerStepView) {
    if scheduler_can_terminate(v) {
        (SchedulerView { terminated: true, ..v }, WorkerStepView::Exit)
    } else if v.stop_draining || v.queue.len() == 0 {
        (v, WorkerStepView::Wait)
    } else if v.queue[0].1 > now {
        (v, WorkerStepView::WaitUntil(v.queue[0].1))
    } else {
        (SchedulerView { queue: v.queue.drop_first(), worker_active: true, ..v }, WorkerStepView::Start(v.queue[0].0))
    }
}

/// The worker released the task it held.
pub open spec fn scheduler_after_finish_task(v: SchedulerView) -> SchedulerView {
    settle_scheduler(SchedulerView { worker_active: false, ..v })
}

/// Number of `true` outcomes.
pub open spec fn count_true(outcomes: Seq<bool>) -> nat
    decreases outcomes.len(),
{
    if outcomes.len() == 0 {
        0
    } else {
        count_true(outcomes.drop_last()) + if outcomes.last() { 1nat } else { 0nat }
    }
}

/// What the worker loop does next.
#[derive(Debug, Clone, Copy, PartialEq, Eq, Structural)]
pub enum WorkerStep {
    /// Nothing remains: the worker exits; waiters on termination are notified.
    Exit,
    /// Wait until the state changes.
    Wait,
    /// Wait until the given deadline or until the state changes.
    WaitUntil(u64),
    /// The due task with this id was taken off the queue and must be started.
    Start(TaskId),
}

impl View for WorkerStep {
    type V = WorkerStepView;

    open spec fn view(&self) -> WorkerStepView {
        match self {
            WorkerStep::Exit => WorkerStepView::Exit,
            WorkerStep::Wait => WorkerStepView::Wait,
            WorkerStep::WaitUntil(deadline) => WorkerStepView::WaitUntil(*deadline),
            WorkerStep::Start(id) => WorkerStepView::Start(id@),
        }
    }
}

/// Tasks taken off the queue by the first half of a stop.
pub struct StopDrain {
    /// Ids of the drained tasks, earliest deadline first.
    pub task_ids: Vec<TaskId>,
    /// Number of tasks queued when stop was requested.
    pub queued: usize,
    /// Number of tasks running when stop was requested.
    pub running: usize,
    /// Whether this stop drained tasks and must release the drain.
    pub owns_drain: bool,
}

/// Scheduler state shared by a single-threaded scheduled executor service
/// and its worker: admission lifecycle, deadline queue and worker status.
pub struct SchedulerState {
    lifecycle: ExecutorServiceLifecycle,
    tasks: OrderedIndexMap<u64, u64, ()>,
    attachments: u64,
    terminated: bool,
    worker_active: bool,
    stop_draining: bool,
}

impl View for SchedulerState {
    type V = SchedulerView;

    closed spec fn view(&self) -> SchedulerView {
        SchedulerView {
            lifecycle: self.lifecycle,
            queue: deadline_index_records(self.tasks),
            attachments: self.attachments as nat,
            terminated: self.terminated,
            worker_active: self.worker_active,
            stop_draining: self.stop_draining,
        }
    }
}

impl SchedulerState {
    /// Well-formedness: the scheduler invariant on the view (so the stored
    /// lifecycle is never `Terminated`), and a consistent deadline index.
    pub open spec fn wf(&self) -> bool {
        &&& scheduler_wf(self@)
        &&& self.index_wf()
    }

    /// The deadline index holds only attached records, and its sequence
    /// counter matches the number of attachments.
    pub closed spec fn index_wf(&self) -> bool {
        &&& deadline_index_detached(self.tasks) == 0
        &&& deadline_index_sequences(self.tasks) == self.attachments as nat
    }

    /// Creates an empty running scheduler state.
    pub fn new() -> (state: Self)
        ensures
            state.wf(),
            state@ == (SchedulerView {
                lifecycle: ExecutorServiceLifecycle::Running,
                queue: Seq::empty(),
                attachments: 0,
                terminated: false,
                worker_active: false,
                stop_draining: false,
            }),
    {
        SchedulerState {
            lifecycle: ExecutorServiceLifecycle::Running,
            tasks: deadline_index_new(),
            attachments: 0,
            terminated: false,
            worker_active: false,
            stop_draining: false,
        }
    }

    /// Returns whether no queued task, worker activity or pending drain
    /// remains after shutdown or stop.
    pub fn can_terminate(&self) -> (result: bool)
        requires
            self.wf(),
        ensures
            result == scheduler_can_terminate(self@),
    {
        self.lifecycle != ExecutorServiceLifecycle::Running && deadline_index_len(&self.tasks) == 0
            && !self.worker_active && !self.stop_draining
    }

    /// Returns the number of queued tasks.
    pub fn queued_count(&self) -> (count: usize)
        ensures
            count == self@.queue.len(),
    {
        deadline_index_len(&self.tasks)
    }

    /// Returns the number of tasks the worker is running: one or zero.
    pub fn running_count(&self) -> (count: usize)
        ensures
            count == (if self@.worker_active { 1usize } else { 0usize }),
    {
        if self.worker_active { 1 } else { 0 }
    }

    /// Returns how many tasks were ever placed in the queue.
    pub fn attachments(&self) -> (count: u64)
        ensures
            count == self@.attachments,
    {
        self.attachments
    }

    /// Returns whether a task with this id is queued.
    pub fn is_queued(&self, task_id: TaskId) -> (queued: bool)
        requires
            self.wf(),
        ensures
            queued == has_id(self@.queue, task_id@),
    {
        deadline_index_contains(&self.tasks, task_id.get())
    }

    /// Queues a task to start at `deadline` while the scheduler is running.
    ///
    /// # Errors
    ///
    /// Returns [`SubmissionError::Shutdown`] once shutdown or stop has been
    /// requested.
    pub fn schedule(&mut self, task_id: TaskId, deadline: u64) -> (result: Result<(), SubmissionError>)
        requires
            old(self).wf(),
            old(self)@.lifecycle == ExecutorServiceLifecycle::Running ==> !has_id(old(self)@.queue, task_id@),
            old(self)@.lifecycle == ExecutorServiceLifecycle::Running ==> old(self)@.attachments < u64::MAX,
        ensures
            final(self).wf(),
            final(self)@ == scheduler_after_schedule(old(self)@, task_id@, deadline).0,
            result is Ok <==> scheduler_after_schedule(old(self)@, task_id@, deadline).1,
            result is Err ==> result->Err_0 is Shutdown,
    {
        if self.lifecycle != ExecutorServiceLifecycle::Running {
            return Err(SubmissionError::Shutdown);
        }
        proof {
            lemma_stable_insert(self@.queue, task_id@, deadline);
        }
        let _inserted = deadline_index_try_insert(&mut self.tasks, task_id.get(), deadline);
        self.attachments = self.attachments + 1;
        Ok(())
    }

    /// Removes a queued task after its handle published cancellation.
    pub fn cancel_queued_task(&mut self, task_id: TaskId)
        requires
            old(self).wf(),
        ensures
            final(self).wf(),
            final(self)@ == scheduler_after_cancel(old(self)@, task_id@),
    {
        proof {
            lemma_without_id(self@.queue, task_id@);
        }
        let _removed = deadline_index_remove(&mut self.tasks, task_id.get());
    }

    /// Requests graceful shutdown; queued tasks stay queued.
    pub fn shutdown(&mut self)
        requires
            old(self).wf(),
        ensures
            final(self).wf(),
            final(self)@ == scheduler_after_shutdown(old(self)@),
    {
        if self.lifecycle == ExecutorServiceLifecycle::Running {
            self.lifecycle = ExecutorServiceLifecycle::ShuttingDown;
        }
    }

    /// First half of a stop: rejects later submissions and takes every queued
    /// task off the queue, earliest deadline first, for cancellation outside
    /// the lock.
    pub fn begin_stop(&mut self) -> (drain: StopDrain)
        requires
            old(self).wf(),
        ensures
            final(self).wf(),
            final(self)@ == scheduler_after_begin_stop(old(self)@),
            drain.queued == old(self)@.queue.len(),
            drain.running == (if old(self)@.worker_active { 1usize } else { 0usize }),
            drain.owns_drain == (old(self)@.queue.len() > 0),
            drain.task_ids@.len() == old(self)@.queue.len(),
            forall|i: int| 0 <= i < drain.task_ids@.len() ==> #[trigger] drain.task_ids@[i]@ == old(self)@.queue[i].0,
    {
        if self.lifecycle == ExecutorServiceLifecycle::Terminated {
            return StopDrain { task_ids: Vec::new(), queued: 0, running: 0, owns_drain: false };
        }
        self.lifecycle = ExecutorServiceLifecycle::Stopping;
        let queued = deadline_index_len(&self.tasks);
        let running: usize = if self.worker_active { 1 } else { 0 };
        let ghost initial = self@.queue;
        let mut task_ids: Vec<TaskId> = Vec::new();
        loop
            invariant_except_break
                deadline_index_records(self.tasks) == initial.skip(task_ids@.len() as int),
            invariant
                self.lifecycle == ExecutorServiceLifecycle::Stopping,
                self.attachments == old(self).attachments,
                self.terminated == old(self).terminated,
                self.worker_active == old(self).worker_active,
                self.stop_draining == old(self).stop_draining,
                task_ids@.len() <= initial.len(),
                forall|i: int| 0 <= i < task_ids@.len() ==> #[trigger] task_ids@[i]@ == initial[i].0,
                deadline_index_detached(self.tasks) == 0,
                deadline_index_sequences(self.tasks) == self.attachments as nat,
            ensures
                deadline_index_records(self.tasks).len() == 0,
                task_ids@.len() == initial.len(),
            decreases initial.len() - task_ids@.len(),
        {
            let ghost before = deadline_index_records(self.tasks);
            match deadline_index_pop_first(&mut self.tasks) {
                Some((id, _deadline)) => {
                    proof {
                        assert(initial[task_ids@.len() as int] == before[0]);
                    }
                    task_ids.push(TaskId::new(id));
                    proof {
                        assert(initial.skip(task_ids@.len() as int) =~= before.drop_first());
                    }
                },
                None => {
                    break;
                },
            }
        }
        let owns_drain = task_ids.len() > 0;
        if owns_drain {
            self.stop_draining = true;
        }
        proof {
            assert(deadline_index_records(self.tasks) =~= Seq::<(u64, u64)>::empty());
        }
        StopDrain { task_ids, queued, running, owns_drain }
    }

    /// Second half of a stop: records the outcome of cancelling each drained
    /// task, releases the drain this stop owns and terminates the worker state
    /// if nothing remains.
    pub fn finish_stop(&mut self, drain: &StopDrain, outcomes: &Vec<bool>) -> (report: StopReport)
        requires
            old(self).wf(),
        ensures
            final(self).wf(),
            final(self)@ == scheduler_after_finish_stop(old(self)@, drain.owns_drain),
            report.queued == drain.queued,
            report.running == drain.running,
            report.cancelled == count_true(outcomes@),
    {
        let mut cancelled: usize = 0;
        let mut i: usize = 0;
        while i < outcomes.len()
            invariant
                i <= outcomes@.len(),
                cancelled == count_true(outcomes@.take(i as int)),
                cancelled <= i,
            decreases outcomes@.len() - i,
        {
            proof {
                assert(outcomes@.take(i as int + 1).drop_last() =~= outcomes@.take(i as int));
            }
            if outcomes[i] {
                cancelled = cancelled + 1;
            }
            i = i + 1;
        }
        proof {
            assert(outcomes@.take(outcomes@.len() as int) =~= outcomes@);
        }
        if drain.owns_drain {
            self.stop_draining = false;
        }
        if self.can_terminate() {
            self.terminated = true;
        }
        StopReport::new(drain.queued, drain.running, cancelled)
    }

    /// Returns whether shutdown or stop has been requested.
    pub fn is_not_running(&self) -> (result: bool)
        ensures
            result == (self@.lifecycle != ExecutorServiceLifecycle::Running),
    {
        self.lifecycle != ExecutorServiceLifecycle::Running
    }

    /// Returns the lifecycle: `Terminated` once the worker has exited,
    /// otherwise the admission lifecycle.
    pub fn lifecycle(&self) -> (lifecycle: ExecutorServiceLifecycle)
        ensures
            lifecycle == observed_lifecycle(self@),
    {
        if self.terminated {
            ExecutorServiceLifecycle::Terminated
        } else {
            self.lifecycle
        }
    }

    /// Returns whether the worker has exited.
    pub fn is_terminated(&self) -> (result: bool)
        ensures
            result == self@.terminated,
    {
        self.terminated
    }

    /// Decides the worker's next move at time `now`: exit when nothing
    /// remains, wait while a stop drains or the queue is empty, wait for the
    /// earliest deadline while it lies ahead, and otherwise take the earliest
    /// task off the queue to start it.
    pub fn next_ready_step(&mut self, now: u64) -> (step: WorkerStep)
        requires
            old(self).wf(),
        ensures
            final(self).wf(),
            (final(self)@, step@) == scheduler_after_worker_step(old(self)@, now),
    {
        if self.can_terminate() {
            self.terminated = true;
            return WorkerStep::Exit;
        }
        if self.stop_draining {
            return WorkerStep::Wait;
        }
        match deadline_index_first(&self.tasks) {
            None => WorkerStep::Wait,
            Some((id, deadline)) => {
                if deadline > now {
                    WorkerStep::WaitUntil(deadline)
                } else {
                    proof {
                        lemma_drop_first(self@.queue);
                    }
                    let _taken = deadline_index_pop_first(&mut self.tasks);
                    self.worker_active = true;
                    WorkerStep::Start(TaskId::new(id))
                }
            },
        }
    }

    /// Records that the worker released the task it held.
    pub fn finish_task(&mut self)
        requires
            old(self).wf(),
        ensures
            final(self).wf(),
            final(self)@ == scheduler_after_finish_task(old(self)@),
    {
        self.worker_active = false;
        if self.can_terminate() {
            self.terminated = true;
        }
    }
}

/// Shutdown and stop are terminal admission decisions: once the scheduler is
/// not running every submission is refused and no operation makes it running
/// again.
pub proof fn lemma_scheduler_admission_is_terminal(v: SchedulerView, id: u64, deadline: u64, now: u64, owns_drain: bool)
    requires
        v.lifecycle != ExecutorServiceLifecycle::Running,
    ensures
        scheduler_after_schedule(v, id, deadline) == (v, false),
        scheduler_after_cancel(v, id).lifecycle != ExecutorServiceLifecycle::Running,
        scheduler_after_shutdown(v).lifecycle != ExecutorServiceLifecycle::Running,
        scheduler_after_begin_stop(v).lifecycle != ExecutorServiceLifecycle::Running,
        scheduler_after_finish_stop(v, owns_drain).lifecycle != ExecutorServiceLifecycle::Running,
        scheduler_after_worker_step(v, now).0.lifecycle != ExecutorServiceLifecycle::Running,
        scheduler_after_finish_task(v).lifecycle != ExecutorServiceLifecycle::Running,
{
}

/// Every operation keeps the queue sorted by deadline with unique ids, and
/// keeps a terminated worker free of queued, running and draining work.
pub proof fn lemma_scheduler_operations_keep_wf(v: SchedulerView, id: u64, deadline: u64, now: u64, owns_drain: bool)
    requires
        scheduler_wf(v),
    ensures
        !has_id(v.queue, id) ==> scheduler_wf(scheduler_after_schedule(v, id, deadline).0),
        scheduler_wf(scheduler_after_cancel(v, id)),
        scheduler_wf(scheduler_after_shutdown(v)),
        scheduler_wf(scheduler_after_begin_stop(v)),
        scheduler_wf(scheduler_after_finish_stop(v, owns_drain)),
        scheduler_wf(scheduler_after_worker_step(v, now).0),
        scheduler_wf(scheduler_after_finish_task(v)),
{
    lemma_stable_insert(v.queue, id, deadline);
    lemma_without_id(v.queue, id);
    if v.queue.len() > 0 {
        lemma_drop_first(v.queue);
    }
}

/// The worker never starts a task before its deadline and always starts the
/// task with the earliest deadline; while it waits for a deadline, that
/// deadline is the earliest one and still lies ahead.
pub proof fn lemma_worker_starts_earliest_due_task(v: SchedulerView, now: u64)
    requires
        scheduler_wf(v),
    ensures
        scheduler_after_worker_step(v, now).1 matches WorkerStepView::Start(id) ==> {
            &&& v.queue.len() > 0
            &&& v.queue[0].0 == id
            &&& v.queue[0].1 <= now
            &&& forall|i: int| 0 <= i < v.queue.len() ==> v.queue[0].1 <= #[trigger] v.queue[i].1
            &&& scheduler_after_worker_step(v, now).0.queue == v.queue.drop_first()
        },
        scheduler_after_worker_step(v, now).1 matches WorkerStepView::WaitUntil(deadline) ==> {
            &&& deadline > now
            &&& forall|i: int| 0 <= i < v.queue.len() ==> deadline <= #[trigger] v.queue[i].1
            &&& scheduler_after_worker_step(v, now).0 == v
        },
        scheduler_after_worker_step(v, now).1 is Exit <==> scheduler_can_terminate(v),
{
    if v.queue.len() > 0 {
        lemma_drop_first(v.queue);
    }
}

/// Cancelling a task right after scheduling it leaves the queue as it was.
pub proof fn lemma_schedule_then_cancel_restores_queue(v: SchedulerView, id: u64, deadline: u64)
    requires
        scheduler_wf(v),
        v.lifecycle == ExecutorServiceLifecycle::Running,
        !has_id(v.queue, id),
    ensures
        scheduler_after_cancel(scheduler_after_schedule(v, id, deadline).0, id).queue == v.queue,
{
    lemma_stable_insert(v.queue, id, deadline);
    lemma_insertion_point(v.queue, deadline);
    let inserted = stable_insert(v.queue, id, deadline);
    let p = insertion_point(v.queue, deadline) as int;
    assert(inserted[p].0 == id);
    let q = position_of(inserted, id);
    assert(0 <= q < inserted.len() && inserted[q].0 == id);
    assert(q == p);
    assert(inserted.remove(p) =~= v.queue);
}

/// Once the worker has exited, the scheduler stays terminated under every
/// operation and refuses every submission.
pub proof fn lemma_scheduler_terminated_is_absorbing(v: SchedulerView, id: u64, deadline: u64, now: u64)
    requires
        scheduler_wf(v),
        v.terminated,
    ensures
        scheduler_after_schedule(v, id, deadline) == (v, false),
        observed_lifecycle(scheduler_after_cancel(v, id)) == ExecutorServiceLifecycle::Terminated,
        observed_lifecycle(scheduler_after_shutdown(v)) == ExecutorServiceLifecycle::Terminated,
        observed_lifecycle(scheduler_after_finish_stop(scheduler_after_begin_stop(v), false))
            == ExecutorServiceLifecycle::Terminated,
        scheduler_after_worker_step(v, now).1 is Exit,
{
    lemma_without_id(v.queue, id);
}

/// Graceful shutdown keeps every queued task; once the queue is empty and the
/// worker idle, the next worker decision is to exit.
pub proof fn lemma_scheduler_shutdown_drains_queue(v: SchedulerView, now: u64)
    requires
        scheduler_wf(v),
    ensures
        scheduler_after_shutdown(v).queue == v.queue,
        scheduler_after_shutdown(v).lifecycle != ExecutorServiceLifecycle::Running,
        v.queue.len() == 0 && !v.worker_active && !v.stop_draining ==> scheduler_after_worker_step(
            scheduler_after_shutdown(v),
            now,
        ).1 is Exit,
{
}

/// Stop takes every queued task off the queue; a second stop that runs while
/// the first is still cancelling its drained tasks observes no queued task
/// and does not terminate the scheduler; the worker terminates only when the
/// first stop has released its drain.
pub proof fn lemma_concurrent_stop_waits_for_drain(v: SchedulerView)
    requires
        scheduler_wf(v),
        v.queue.len() > 0,
        !v.worker_active,
        !v.stop_draining,
    ensures
        ({
            let first = scheduler_after_begin_stop(v);
            let second = scheduler_after_finish_stop(scheduler_after_begin_stop(first), false);
            &&& first.queue.len() == 0
            &&& first.stop_draining
            &&& scheduler_after_begin_stop(first).queue.len() == 0
            &&& !second.terminated
            &&& scheduler_after_finish_stop(second, true).terminated
        }),
{
}

/// The scheduler reports itself not running exactly when its admission
/// lifecycle has left `Running`, and once it is not running no operation
/// makes it running again.
pub proof fn lemma_scheduler_not_running_is_stable(v: SchedulerView, id: u64, deadline: u64, now: u64, owns_drain: bool)
    requires
        scheduler_wf(v),
    ensures
        (observed_lifecycle(v) != ExecutorServiceLifecycle::Running) == (v.lifecycle != ExecutorServiceLifecycle::Running),
        observed_lifecycle(v) != ExecutorServiceLifecycle::Running ==> {
            &&& observed_lifecycle(scheduler_after_schedule(v, id, deadline).0) != ExecutorServiceLifecycle::Running
            &&& observed_lifecycle(scheduler_after_cancel(v, id)) != ExecutorServiceLifecycle::Running
            &&& observed_lifecycle(scheduler_after_shutdown(v)) != ExecutorServiceLifecycle::Running
            &&& observed_lifecycle(scheduler_after_begin_stop(v)) != ExecutorServiceLifecycle::Running
            &&& observed_lifecycle(scheduler_after_finish_stop(v, owns_drain)) != ExecutorServiceLifecycle::Running
            &&& observed_lifecycle(scheduler_after_worker_step(v, now).0) != ExecutorServiceLifecycle::Running
            &&& observed_lifecycle(scheduler_after_finish_task(v)) != ExecutorServiceLifecycle::Running
        },
{
    if v.lifecycle != ExecutorServiceLifecycle::Running {
        lemma_scheduler_admission_is_terminal(v, id, deadline, now, owns_drain);
    }
}

/// With a task queued and no stop draining, the worker never parks without a
/// deadline: while the earliest deadline lies ahead it sleeps until exactly
/// that deadline, and once the deadline is reached it takes the earliest task
/// off the queue and starts it. Waking at the deadline it slept for starts
/// that task.
pub proof fn lemma_worker_never_parks_with_queued_task(v: SchedulerView, now: u64)
    requires
        v.queue.len() > 0,
        !v.stop_draining,
    ensures
        !(scheduler_after_worker_step(v, now).1 is Wait),
        !(scheduler_after_worker_step(v, now).1 is Exit),
        v.queue[0].1 > now ==> scheduler_after_worker_step(v, now).1 == WorkerStepView::WaitUntil(v.queue[0].1),
        v.queue[0].1 > now ==> scheduler_after_worker_step(v, now).0 == v,
        v.queue[0].1 <= now ==> scheduler_after_worker_step(v, now).1 == WorkerStepView::Start(v.queue[0].0),
        v.queue[0].1 <= now ==> scheduler_after_worker_step(v, now).0.queue == v.queue.drop_first(),
        v.queue[0].1 <= now ==> scheduler_after_worker_step(v, now).0.worker_active,
        scheduler_after_worker_step(v, now).1 matches WorkerStepView::WaitUntil(deadline)
            ==> scheduler_after_worker_step(v, deadline).1 == WorkerStepView::Start(v.queue[0].0),
{
}

/// Cancelling a queued task removes that task, and only that one, whatever
/// the lifecycle: the id is no longer queued, every other id stays queued or
/// absent as it was, the queue shrinks by one exactly when the id was queued,
/// and nothing else changes.
pub proof fn lemma_cancel_removes_only_that_task(v: SchedulerView, id: u64)
    requires
        scheduler_wf(v),
    ensures
        !has_id(scheduler_after_cancel(v, id).queue, id),
        forall|other: u64| other != id ==> (has_id(scheduler_after_cancel(v, id).queue, other) <==> has_id(v.queue, other)),
        has_id(v.queue, id) ==> scheduler_after_cancel(v, id).queue.len() + 1 == v.queue.len(),
        !has_id(v.queue, id) ==> scheduler_after_cancel(v, id).queue == v.queue,
        sorted_by_deadline(scheduler_after_cancel(v, id).queue),
        scheduler_after_cancel(v, id).lifecycle == v.lifecycle,
        scheduler_after_cancel(v, id).attachments == v.attachments,
        scheduler_after_cancel(v, id).terminated == v.terminated,
        scheduler_after_cancel(v, id).worker_active == v.worker_active,
        scheduler_after_cancel(v, id).stop_draining == v.stop_draining,
{
    lemma_without_id(v.queue, id);
}

/// Shutdown moves only a running scheduler, to `ShuttingDown`; any other
/// lifecycle, an abrupt stop in particular, stays as it was. The queue and
/// the worker are untouched.
pub proof fn lemma_shutdown_moves_only_running(v: SchedulerView)
    ensures
        v.lifecycle == ExecutorServiceLifecycle::Running ==> scheduler_after_shutdown(v).lifecycle
            == ExecutorServiceLifecycle::ShuttingDown,
        v.lifecycle != ExecutorServiceLifecycle::Running ==> scheduler_after_shutdown(v).lifecycle == v.lifecycle,
        scheduler_after_shutdown(v).queue == v.queue,
        scheduler_after_shutdown(v).attachments == v.attachments,
        scheduler_after_shutdown(v).terminated == v.terminated,
        scheduler_after_shutdown(v).worker_active == v.worker_active,
        scheduler_after_shutdown(v).stop_draining == v.stop_draining,
{
}

/// A stop takes every queued task off the queue, leaves the running task to
/// the worker and the termination flag as it was, and moves a scheduler that
/// has not terminated to `Stopping`; a drain is pending exactly when tasks
/// were taken or a drain already was. Releasing the drain terminates the
/// scheduler exactly when the worker is idle and no other drain remains.
pub proof fn lemma_stop_drains_queue_and_keeps_worker(v: SchedulerView, owns_drain: bool)
    requires
        scheduler_wf(v),
    ensures
        scheduler_after_begin_stop(v).queue.len() == 0,
        scheduler_after_begin_stop(v).lifecycle == ExecutorServiceLifecycle::Stopping,
        scheduler_after_begin_stop(v).worker_active == v.worker_active,
        scheduler_after_begin_stop(v).terminated == v.terminated,
        scheduler_after_begin_stop(v).attachments == v.attachments,
        scheduler_after_begin_stop(v).stop_draining == (v.stop_draining || v.queue.len() > 0),
        scheduler_after_finish_stop(v, owns_drain).queue == v.queue,
        scheduler_after_finish_stop(v, owns_drain).lifecycle == v.lifecycle,
        scheduler_after_finish_stop(v, owns_drain).worker_active == v.worker_active,
        scheduler_after_finish_stop(v, true).stop_draining == false,
        scheduler_after_finish_stop(v, false).stop_draining == v.stop_draining,
        v.lifecycle != ExecutorServiceLifecycle::Running ==> scheduler_after_finish_stop(v, true).terminated == (v.terminated
            || (v.queue.len() == 0 && !v.worker_active)),
{
}

/// Releasing the running task clears the worker's activity, keeps the queue,
/// and terminates a scheduler that is not running exactly when nothing is
/// queued and no drain is pending.
pub proof fn lemma_finish_task_releases_worker(v: SchedulerView)
    requires
        scheduler_wf(v),
    ensures
        !scheduler_after_finish_task(v).worker_active,
        scheduler_after_finish_task(v).queue == v.queue,
        scheduler_after_finish_task(v).lifecycle == v.lifecycle,
        scheduler_after_finish_task(v).stop_draining == v.stop_draining,
        scheduler_after_finish_task(v).terminated == (v.terminated || (v.lifecycle
            != ExecutorServiceLifecycle::Running && v.queue.len() == 0 && !v.stop_draining)),
{
}

/// A running scheduler accepts every task and queues it after every queued
/// task whose deadline is not later and before every task whose deadline is
/// later, so equal deadlines start in submission order; nothing else in the
/// queue moves, and the attachment count grows by one. A scheduler that is
/// not running refuses the task and stays as it was.
pub proof fn lemma_schedule_places_task_by_deadline(v: SchedulerView, id: u64, deadline: u64)
    requires
        scheduler_wf(v),
    ensures
        scheduler_after_schedule(v, id, deadline).1 == (v.lifecycle == ExecutorServiceLifecycle::Running),
        v.lifecycle != ExecutorServiceLifecycle::Running ==> scheduler_after_schedule(v, id, deadline).0 == v,
        v.lifecycle == ExecutorServiceLifecycle::Running ==> exists|p: int| {
            &&& 0 <= p <= v.queue.len()
            &&& #[trigger] scheduler_after_schedule(v, id, deadline).0.queue == v.queue.insert(p, (id, deadline))
            &&& forall|i: int| 0 <= i < p ==> #[trigger] v.queue[i].1 <= deadline
            &&& forall|i: int| p <= i < v.queue.len() ==> #[trigger] v.queue[i].1 > deadline
        },
        v.lifecycle == ExecutorServiceLifecycle::Running ==> scheduler_after_schedule(v, id, deadline).0.attachments
            == v.attachments + 1,
        scheduler_after_schedule(v, id, deadline).0.lifecycle == v.lifecycle,
        scheduler_after_schedule(v, id, deadline).0.terminated == v.terminated,
        scheduler_after_schedule(v, id, deadline).0.worker_active == v.worker_active,
        scheduler_after_schedule(v, id, deadline).0.stop_draining == v.stop_draining,
{
    lemma_insertion_point(v.queue, deadline);
    if v.lifecycle == ExecutorServiceLifecycle::Running {
        let p = insertion_point(v.queue, deadline) as int;
        assert(scheduler_after_schedule(v, id, deadline).0.queue == v.queue.insert(p, (id, deadline)));
    }
}

} // verus!
