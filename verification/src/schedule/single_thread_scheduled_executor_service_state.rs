use vstd::prelude::*;

use super::scheduled_task::ScheduledTask;
use super::scheduler_state::count_true;
use crate::service::ExecutorServiceLifecycle;
use crate::service::StopReport;
use crate::service::SubmissionError;

verus! {

broadcast use {vstd::seq_lib::group_to_multiset_ensures, vstd::multiset::group_multiset_axioms};

/// Abstract state of a single-threaded scheduled service: lifecycle, the
/// tasks in its deadline heap, the next insertion sequence, termination and
/// the task counters.
pub struct ScheduledServiceView<E> {
    pub lifecycle: ExecutorServiceLifecycle,
    pub tasks: Seq<ScheduledTask<E>>,
    pub next_sequence: usize,
    pub terminated: bool,
    pub queued: nat,
    pub running: nat,
    pub completed: nat,
    pub cancelled: nat,
}

/// Whether `a` leaves the heap no later than `b`: earlier deadline, or equal
/// deadline and a sequence that is not larger.
pub open spec fn runs_before<E>(a: ScheduledTask<E>, b: ScheduledTask<E>) -> bool {
    a.deadline < b.deadline || (a.deadline == b.deadline && a.sequence <= b.sequence)
}

/// Tasks listed in the order the heap yields them.
pub open spec fn earliest_first<E>(tasks: Seq<ScheduledTask<E>>) -> bool {
    forall|i: int, j: int| 0 <= i < j < tasks.len() ==> runs_before(tasks[i], tasks[j])
}

/// Number of accepted tasks, whatever became of them.
pub open spec fn accepted_total<E>(v: ScheduledServiceView<E>) -> nat {
    v.queued + v.running + v.completed + v.cancelled
}

/// A queued task was accepted.
pub open spec fn scheduled_after_accept<E>(v: ScheduledServiceView<E>) -> ScheduledServiceView<E> {
    ScheduledServiceView { queued: v.queued + 1, ..v }
}

/// A queued task was cancelled before it started.
pub open spec fn scheduled_after_cancel<E>(v: ScheduledServiceView<E>) -> ScheduledServiceView<E> {
    ScheduledServiceView { queued: (v.queued - 1) as nat, cancelled: v.cancelled + 1, ..v }
}

/// A queued task started running.
pub open spec fn scheduled_after_start<E>(v: ScheduledServiceView<E>) -> ScheduledServiceView<E> {
    ScheduledServiceView { queued: (v.queued - 1) as nat, running: v.running + 1, ..v }
}

/// The running task completed.
pub open spec fn scheduled_after_finish<E>(v: ScheduledServiceView<E>) -> ScheduledServiceView<E> {
    ScheduledServiceView { running: (v.running - 1) as nat, completed: v.completed + 1, ..v }
}

/// Next insertion sequence, wrapping at the end of `usize`.
pub open spec fn next_sequence_after(sequence: usize) -> usize {
    if sequence == usize::MAX { 0 } else { (sequence + 1) as usize }
}

/// Admission: a running service accepts the task into its heap with the next
/// sequence and counts it queued; any other refuses it.
pub open spec fn scheduled_after_schedule<E>(v: ScheduledServiceView<E>, deadline: u64, entry: E) -> (ScheduledServiceView<E>, bool) {
    if v.lifecycle == ExecutorServiceLifecycle::Running {
        (
            ScheduledServiceView {
                tasks: v.tasks.push(ScheduledTask { deadline, sequence: v.next_sequence, entry }),
                next_sequence: next_sequence_after(v.next_sequence),
                queued: v.queued + 1,
                ..v
            },
            true,
        )
    } else {
        (v, false)
    }
}

/// Graceful shutdown keeps every queued task.
pub open spec fn scheduled_after_shutdown<E>(v: ScheduledServiceView<E>) -> ScheduledServiceView<E> {
    ScheduledServiceView {
        lifecycle: if v.lifecycle == ExecutorServiceLifecycle::Running {
            ExecutorServiceLifecycle::ShuttingDown
        } else {
            v.lifecycle
        },
        ..v
    }
}

/// Stop empties the heap for cancellation.
pub open spec fn scheduled_after_begin_stop<E>(v: ScheduledServiceView<E>) -> ScheduledServiceView<E> {
    ScheduledServiceView { lifecycle: ExecutorServiceLifecycle::Stopping, tasks: Seq::empty(), ..v }
}

/// Each task whose cancellation was published counts as cancelled.
pub open spec fn scheduled_after_settle_stop<E>(v: ScheduledServiceView<E>, cancelled: nat) -> ScheduledServiceView<E> {
    ScheduledServiceView { queued: (v.queued - cancelled) as nat, cancelled: v.cancelled + cancelled, ..v }
}

/// Lifecycle reported to callers: `Terminated` once the scheduler thread has
/// exited.
pub open spec fn scheduled_observed_lifecycle<E>(v: ScheduledServiceView<E>) -> ExecutorServiceLifecycle {
    if v.terminated {
        ExecutorServiceLifecycle::Terminated
    } else {
        v.lifecycle
    }
}

/// Mutable state of a single-threaded scheduled service: lifecycle, deadline
/// heap and task counters.
pub struct SingleThreadScheduledExecutorServiceState<E> {
    lifecycle: ExecutorServiceLifecycle,
    tasks: Vec<ScheduledTask<E>>,
    next_sequence: usize,
    terminated: bool,
    queued_task_count: usize,
    running_task_count: usize,
    completed_task_count: usize,
    cancelled_task_count: usize,
}

impl<E> View for SingleThreadScheduledExecutorServiceState<E> {
    type V = ScheduledServiceView<E>;

    closed spec fn view(&self) -> ScheduledServiceView<E> {
        ScheduledServiceView {
            lifecycle: self.lifecycle,
            tasks: self.tasks@,
            next_sequence: self.next_sequence,
            terminated: self.terminated,
            queued: self.queued_task_count as nat,
            running: self.running_task_count as nat,
            completed: self.completed_task_count as nat,
            cancelled: self.cancelled_task_count as nat,
        }
    }
}

impl<E> SingleThreadScheduledExecutorServiceState<E> {
    /// Creates an empty running scheduler state.
    pub fn new() -> (state: Self)
        ensures
            state@ == (ScheduledServiceView::<E> {
                lifecycle: ExecutorServiceLifecycle::Running,
                tasks: Seq::empty(),
                next_sequence: 0,
                terminated: false,
                queued: 0,
                running: 0,
                completed: 0,
                cancelled: 0,
            }),
    {
        SingleThreadScheduledExecutorServiceState {
            lifecycle: ExecutorServiceLifecycle::Running,
            tasks: Vec::new(),
            next_sequence: 0,
            terminated: false,
            queued_task_count: 0,
            running_task_count: 0,
            completed_task_count: 0,
            cancelled_task_count: 0,
        }
    }

    /// Returns the number of accepted tasks that have not started or been
    /// cancelled.
    pub fn queued_count(&self) -> (count: usize)
        ensures
            count == self@.queued,
    {
        self.queued_task_count
    }

    /// Returns the number of tasks executing on the scheduler thread.
    pub fn running_count(&self) -> (count: usize)
        ensures
            count == self@.running,
    {
        self.running_task_count
    }

    /// Returns the number of tasks that ran to completion.
    pub fn completed_count(&self) -> (count: usize)
        ensures
            count == self@.completed,
    {
        self.completed_task_count
    }

    /// Returns the number of tasks cancelled before they started.
    pub fn cancelled_count(&self) -> (count: usize)
        ensures
            count == self@.cancelled,
    {
        self.cancelled_task_count
    }

    /// Returns the number of tasks in the deadline heap.
    pub fn heap_len(&self) -> (count: usize)
        ensures
            count == self@.tasks.len(),
    {
        self.tasks.len()
    }

    /// Records that a queued task has been accepted.
    pub fn accept_task(&mut self)
        requires
            old(self)@.queued < usize::MAX,
        ensures
            final(self)@ == scheduled_after_accept(old(self)@),
    {
        self.queued_task_count = self.queued_task_count + 1;
    }

    /// Records that a queued task was cancelled before it started.
    pub fn cancel_queued_task(&mut self)
        requires
            old(self)@.queued > 0,
            old(self)@.cancelled < usize::MAX,
        ensures
            final(self)@ == scheduled_after_cancel(old(self)@),
    {
        self.queued_task_count = self.queued_task_count - 1;
        self.cancelled_task_count = self.cancelled_task_count + 1;
    }

    /// Records that a queued task has become running.
    pub fn start_task(&mut self)
        requires
            old(self)@.queued > 0,
            old(self)@.running < usize::MAX,
        ensures
            final(self)@ == scheduled_after_start(old(self)@),
    {
        self.queued_task_count = self.queued_task_count - 1;
        self.running_task_count = self.running_task_count + 1;
    }

    /// Records completion of the running task.
    pub fn finish_running_task(&mut self)
        requires
            old(self)@.running > 0,
            old(self)@.completed < usize::MAX,
        ensures
            final(self)@ == scheduled_after_finish(old(self)@),
    {
        self.running_task_count = self.running_task_count - 1;
        self.completed_task_count = self.completed_task_count + 1;
    }

    /// Accepts a task into the deadline heap while running.
    ///
    /// # Errors
    ///
    /// Returns [`SubmissionError::Shutdown`] once shutdown or stop has
    /// started; the entry is dropped.
    pub fn schedule_entry(&mut self, deadline: u64, entry: E) -> (result: Result<(), SubmissionError>)
        requires
            old(self)@.lifecycle == ExecutorServiceLifecycle::Running ==> old(self)@.queued < usize::MAX,
        ensures
            final(self)@ == scheduled_after_schedule(old(self)@, deadline, entry).0,
            result is Ok <==> scheduled_after_schedule(old(self)@, deadline, entry).1,
            result is Err ==> result->Err_0 is Shutdown,
    {
        if self.lifecycle != ExecutorServiceLifecycle::Running {
            return Err(SubmissionError::Shutdown);
        }
        let sequence = self.next_sequence;
        self.next_sequence = self.next_sequence.wrapping_add(1);
        self.tasks.push(ScheduledTask::new(deadline, sequence, entry));
        self.accept_task();
        Ok(())
    }

    /// Removes and returns the task the heap yields first: the earliest
    /// deadline, and on equal deadlines the lowest sequence.
    pub fn pop_earliest(&mut self) -> (task: Option<ScheduledTask<E>>)
        ensures
            old(self)@.tasks.len() == 0 ==> task is None && final(self)@ == old(self)@,
            old(self)@.tasks.len() > 0 ==> exists|i: int| {
                &&& 0 <= i < old(self)@.tasks.len()
                &&& task == Some(old(self)@.tasks[i])
                &&& final(self)@ == (ScheduledServiceView { tasks: old(self)@.tasks.remove(i), ..old(self)@ })
                &&& forall|j: int| 0 <= j < old(self)@.tasks.len() ==> runs_before(old(self)@.tasks[i], #[trigger] old(self)@.tasks[j])
            },
    {
        let len = self.tasks.len();
        if len == 0 {
            return None;
        }
        let mut best: usize = 0;
        let mut i: usize = 1;
        while i < len
            invariant
                len == self.tasks@.len(),
                best < i <= len,
                forall|j: int| 0 <= j < i ==> runs_before(self.tasks@[best as int], #[trigger] self.tasks@[j]),
            decreases len - i,
        {
            let candidate = &self.tasks[i];
            let current = &self.tasks[best];
            if candidate.deadline < current.deadline
                || (candidate.deadline == current.deadline && candidate.sequence < current.sequence) {
                best = i;
            }
            i = i + 1;
        }
        let task = self.tasks.remove(best);
        Some(task)
    }

    /// First half of a stop: rejects later submissions and empties the heap,
    /// returning its tasks in the order the heap yields them for
    /// cancellation, together with the queued count observed.
    pub fn begin_stop(&mut self) -> (drained: (usize, Vec<ScheduledTask<E>>))
        ensures
            final(self)@ == scheduled_after_begin_stop(old(self)@),
            drained.0 == old(self)@.queued,
            drained.1@.to_multiset() == old(self)@.tasks.to_multiset(),
            earliest_first(drained.1@),
    {
        self.lifecycle = ExecutorServiceLifecycle::Stopping;
        let queued = self.queued_task_count;
        let ghost initial = self.tasks@;
        let mut drained: Vec<ScheduledTask<E>> = Vec::new();
        loop
            invariant
                self.lifecycle == ExecutorServiceLifecycle::Stopping,
                self.next_sequence == old(self).next_sequence,
                self.terminated == old(self).terminated,
                self.queued_task_count == old(self).queued_task_count,
                self.running_task_count == old(self).running_task_count,
                self.completed_task_count == old(self).completed_task_count,
                self.cancelled_task_count == old(self).cancelled_task_count,
                drained@.to_multiset().add(self.tasks@.to_multiset()) == initial.to_multiset(),
                earliest_first(drained@),
                forall|a: int, b: int| 0 <= a < drained@.len() && 0 <= b < self.tasks@.len() ==> runs_before(
                    #[trigger] drained@[a],
                    #[trigger] self.tasks@[b],
                ),
            ensures
                self.tasks@.len() == 0,
            decreases self.tasks@.len(),
        {
            let ghost before = self.tasks@;
            let ghost pre = self@;
            match self.pop_earliest() {
                Some(task) => {
                    let ghost i = choose|i: int| {
                        &&& 0 <= i < before.len()
                        &&& Some(task) == Some(before[i])
                        &&& self@ == (ScheduledServiceView { tasks: before.remove(i), ..pre })
                        &&& forall|j: int| 0 <= j < before.len() ==> runs_before(before[i], #[trigger] before[j])
                    };
                    proof {
                        assert(self.tasks@ == before.remove(i));
                        assert(before.remove(i).to_multiset() == before.to_multiset().remove(before[i]));
                        assert forall|b: int| 0 <= b < self.tasks@.len() implies runs_before(task, #[trigger] self.tasks@[b]) by {
                            let ob = if b < i { b } else { b + 1 };
                            assert(self.tasks@[b] == before[ob]);
                        }
                        assert forall|a: int| 0 <= a < drained@.len() implies runs_before(#[trigger] drained@[a], task) by {
                            assert(runs_before(drained@[a], before[i]));
                        }
                        assert forall|a: int, b: int| 0 <= a < drained@.len() && 0 <= b < self.tasks@.len() implies runs_before(
                            #[trigger] drained@[a],
                            #[trigger] self.tasks@[b],
                        ) by {
                            let ob = if b < i { b } else { b + 1 };
                            assert(self.tasks@[b] == before[ob]);
                            assert(runs_before(drained@[a], before[ob]));
                        }
                    }
                    let ghost prior = drained@;
                    drained.push(task);
                    proof {
                        assert(drained@ == prior.push(task));
                        assert(drained@.to_multiset() == prior.to_multiset().insert(task));
                        assert forall|a: int, b: int| 0 <= a < b < drained@.len() implies runs_before(drained@[a], drained@[b]) by {
                            if b < prior.len() {
                                assert(drained@[a] == prior[a]);
                                assert(drained@[b] == prior[b]);
                            } else {
                                assert(drained@[a] == prior[a]);
                                assert(drained@[b] == task);
                            }
                        }
                        assert forall|a: int, b: int| 0 <= a < drained@.len() && 0 <= b < self.tasks@.len() implies runs_before(
                            #[trigger] drained@[a],
                            #[trigger] self.tasks@[b],
                        ) by {
                            if a < prior.len() {
                                assert(drained@[a] == prior[a]);
                            } else {
                                assert(drained@[a] == task);
                            }
                        }
                    }
                },
                None => {
                    break;
                },
            }
        }
        proof {
            assert(self.tasks@ =~= Seq::<ScheduledTask<E>>::empty());
            assert(drained@.to_multiset().add(vstd::multiset::Multiset::empty()) =~= drained@.to_multiset());
        }
        (queued, drained)
    }

    /// Second half of a stop: each task whose cancellation was published
    /// (`true` in `outcomes`) counts as cancelled; reports the queued count
    /// observed by [`Self::begin_stop`], the running count and the number of
    /// cancellations.
    pub fn settle_stop(&mut self, queued: usize, outcomes: &Vec<bool>) -> (report: StopReport)
        requires
            count_true(outcomes@) <= old(self)@.queued,
            old(self)@.cancelled + count_true(outcomes@) <= usize::MAX,
        ensures
            final(self)@ == scheduled_after_settle_stop(old(self)@, count_true(outcomes@)),
            report.queued == queued,
            report.running == old(self)@.running,
            report.cancelled == count_true(outcomes@),
    {
        let mut cancelled: usize = 0;
        let mut i: usize = 0;
        while i < outcomes.len()
            invariant
                i <= outcomes@.len(),
                cancelled == count_true(outcomes@.take(i as int)),
                count_true(outcomes@) <= old(self)@.queued,
                old(self)@.cancelled + count_true(outcomes@) <= usize::MAX,
                self@ == scheduled_after_settle_stop(old(self)@, cancelled as nat),
            decreases outcomes@.len() - i,
        {
            proof {
                assert(outcomes@.take(i as int + 1).drop_last() =~= outcomes@.take(i as int));
                lemma_count_true_prefix(outcomes@, i as int + 1);
            }
            if outcomes[i] {
                self.cancel_queued_task();
                cancelled = cancelled + 1;
            }
            i = i + 1;
        }
        proof {
            assert(outcomes@.take(outcomes@.len() as int) =~= outcomes@);
        }
        StopReport::new(queued, self.running_task_count, cancelled)
    }

    /// Requests graceful shutdown; queued tasks stay queued.
    pub fn shutdown(&mut self)
        ensures
            final(self)@ == scheduled_after_shutdown(old(self)@),
    {
        if self.lifecycle == ExecutorServiceLifecycle::Running {
            self.lifecycle = ExecutorServiceLifecycle::ShuttingDown;
        }
    }

    /// Returns whether shutdown or stop has started.
    pub fn is_not_running(&self) -> (result: bool)
        ensures
            result == (self@.lifecycle != ExecutorServiceLifecycle::Running),
    {
        self.lifecycle != ExecutorServiceLifecycle::Running
    }

    /// Returns the lifecycle: `Terminated` after the scheduler thread has
    /// exited, otherwise the stored lifecycle.
    pub fn lifecycle(&self) -> (lifecycle: ExecutorServiceLifecycle)
        ensures
            lifecycle == scheduled_observed_lifecycle(self@),
    {
        if self.terminated {
            ExecutorServiceLifecycle::Terminated
        } else {
            self.lifecycle
        }
    }

    /// Returns whether the scheduler thread has exited.
    pub fn is_terminated(&self) -> (result: bool)
        ensures
            result == self@.terminated,
    {
        self.terminated
    }

    /// Marks the scheduler thread as terminated.
    pub fn terminate(&mut self)
        ensures
            final(self)@ == (ScheduledServiceView { terminated: true, ..old(self)@ }),
    {
        self.terminated = true;
    }
}

/// Every accepted task is counted exactly once, as queued, running,
/// completed or cancelled: acceptance adds one to the total, and every other
/// counter move keeps it.
pub proof fn lemma_scheduled_counters_conserve_tasks<E>(v: ScheduledServiceView<E>, deadline: u64, entry: E, cancelled: nat)
    ensures
        accepted_total(scheduled_after_accept(v)) == accepted_total(v) + 1,
        scheduled_after_schedule(v, deadline, entry).1 ==> accepted_total(scheduled_after_schedule(v, deadline, entry).0)
            == accepted_total(v) + 1,
        !scheduled_after_schedule(v, deadline, entry).1 ==> scheduled_after_schedule(v, deadline, entry).0 == v,
        v.queued > 0 ==> accepted_total(scheduled_after_cancel(v)) == accepted_total(v),
        v.queued > 0 ==> accepted_total(scheduled_after_start(v)) == accepted_total(v),
        v.running > 0 ==> accepted_total(scheduled_after_finish(v)) == accepted_total(v),
        cancelled <= v.queued ==> accepted_total(scheduled_after_settle_stop(v, cancelled)) == accepted_total(v),
{
}

/// Shutdown and stop are terminal admission decisions: once the service is
/// not running every submission is refused and it never runs again.
pub proof fn lemma_scheduled_admission_is_terminal<E>(v: ScheduledServiceView<E>, deadline: u64, entry: E, cancelled: nat)
    requires
        v.lifecycle != ExecutorServiceLifecycle::Running,
    ensures
        scheduled_after_schedule(v, deadline, entry) == (v, false),
        scheduled_after_shutdown(v).lifecycle != ExecutorServiceLifecycle::Running,
        scheduled_after_begin_stop(v).lifecycle != ExecutorServiceLifecycle::Running,
        scheduled_after_settle_stop(v, cancelled).lifecycle != ExecutorServiceLifecycle::Running,
{
}

/// A service whose admission lifecycle has left `Running` reports a
/// lifecycle other than `Running`, and while it has not been marked
/// terminated before shutdown or stop the two agree exactly. Once not
/// running, no operation, the scheduler thread's exit included, makes it
/// running again.
pub proof fn lemma_scheduled_not_running_is_stable<E>(v: ScheduledServiceView<E>, deadline: u64, entry: E, cancelled: nat)
    ensures
        v.lifecycle != ExecutorServiceLifecycle::Running ==> scheduled_observed_lifecycle(v) != ExecutorServiceLifecycle::Running,
        !v.terminated ==> scheduled_observed_lifecycle(v) == v.lifecycle,
        v.lifecycle != ExecutorServiceLifecycle::Running ==> {
            &&& scheduled_after_schedule(v, deadline, entry).0.lifecycle != ExecutorServiceLifecycle::Running
            &&& scheduled_after_accept(v).lifecycle != ExecutorServiceLifecycle::Running
            &&& scheduled_after_cancel(v).lifecycle != ExecutorServiceLifecycle::Running
            &&& scheduled_after_start(v).lifecycle != ExecutorServiceLifecycle::Running
            &&& scheduled_after_finish(v).lifecycle != ExecutorServiceLifecycle::Running
            &&& scheduled_after_shutdown(v).lifecycle != ExecutorServiceLifecycle::Running
            &&& scheduled_after_begin_stop(v).lifecycle != ExecutorServiceLifecycle::Running
            &&& scheduled_after_settle_stop(v, cancelled).lifecycle != ExecutorServiceLifecycle::Running
            &&& scheduled_observed_lifecycle(ScheduledServiceView { terminated: true, ..v })
                == ExecutorServiceLifecycle::Terminated
        },
{
}

/// Stopping empties the heap and moves the service to `Stopping` without
/// touching any counter: the task the worker is running stays counted as
/// running, so the report of a stop counts it. Settling the stop moves
/// exactly the published cancellations from queued to cancelled. Shutdown
/// moves only a running service, and touches neither the heap nor a counter.
pub proof fn lemma_scheduled_stop_keeps_running_count<E>(v: ScheduledServiceView<E>, cancelled: nat)
    ensures
        scheduled_after_begin_stop(v).running == v.running,
        scheduled_after_begin_stop(v).queued == v.queued,
        scheduled_after_begin_stop(v).completed == v.completed,
        scheduled_after_begin_stop(v).cancelled == v.cancelled,
        scheduled_after_begin_stop(v).terminated == v.terminated,
        scheduled_after_begin_stop(v).tasks.len() == 0,
        scheduled_after_begin_stop(v).lifecycle == ExecutorServiceLifecycle::Stopping,
        scheduled_after_settle_stop(v, cancelled).running == v.running,
        scheduled_after_settle_stop(v, cancelled).completed == v.completed,
        scheduled_after_settle_stop(v, cancelled).lifecycle == v.lifecycle,
        cancelled <= v.queued ==> scheduled_after_settle_stop(v, cancelled).queued + cancelled == v.queued,
        scheduled_after_settle_stop(v, cancelled).cancelled == v.cancelled + cancelled,
        scheduled_after_settle_stop(scheduled_after_begin_stop(v), cancelled).running == v.running,
        v.lifecycle != ExecutorServiceLifecycle::Running ==> scheduled_after_shutdown(v).lifecycle == v.lifecycle,
        v.lifecycle == ExecutorServiceLifecycle::Running ==> scheduled_after_shutdown(v).lifecycle
            == ExecutorServiceLifecycle::ShuttingDown,
        scheduled_after_shutdown(v).tasks == v.tasks,
        scheduled_after_shutdown(v).running == v.running,
        scheduled_after_shutdown(v).queued == v.queued,
{
}

/// Each counter step moves exactly one task: starting moves one from queued
/// to running, finishing one from running to completed, cancelling one from
/// queued to cancelled, and accepting adds one queued task.
pub proof fn lemma_scheduled_counters_move_one_task<E>(v: ScheduledServiceView<E>)
    ensures
        scheduled_after_accept(v).queued == v.queued + 1,
        scheduled_after_accept(v).running == v.running,
        v.queued > 0 ==> scheduled_after_start(v).queued + 1 == v.queued,
        scheduled_after_start(v).running == v.running + 1,
        v.running > 0 ==> scheduled_after_finish(v).running + 1 == v.running,
        scheduled_after_finish(v).completed == v.completed + 1,
        scheduled_after_finish(v).queued == v.queued,
        v.queued > 0 ==> scheduled_after_cancel(v).queued + 1 == v.queued,
        scheduled_after_cancel(v).cancelled == v.cancelled + 1,
        scheduled_after_cancel(v).running == v.running,
{
}

/// Graceful shutdown keeps every queued task and every counter; stop rejects
/// later submissions and leaves no task in the heap.
pub proof fn lemma_scheduled_shutdown_keeps_tasks<E>(v: ScheduledServiceView<E>)
    ensures
        scheduled_after_shutdown(v).tasks == v.tasks,
        scheduled_after_shutdown(v).queued == v.queued,
        scheduled_after_begin_stop(v).tasks.len() == 0,
        scheduled_after_begin_stop(v).lifecycle == ExecutorServiceLifecycle::Stopping,
{
}

/// Counting the `true` outcomes of a prefix one element longer adds that
/// element's outcome.
pub proof fn lemma_count_true_prefix(outcomes: Seq<bool>, n: int)
    requires
        0 < n <= outcomes.len(),
    ensures
        count_true(outcomes.take(n)) == count_true(outcomes.take(n - 1)) + if outcomes[n - 1] { 1nat } else { 0nat },
        count_true(outcomes.take(n)) <= count_true(outcomes),
{
    assert(outcomes.take(n).drop_last() =~= outcomes.take(n - 1));
    lemma_count_true_prefix_bound(outcomes, n);
}

/// A prefix has no more `true` outcomes than the whole.
pub proof fn lemma_count_true_prefix_bound(outcomes: Seq<bool>, n: int)
    requires
        0 <= n <= outcomes.len(),
    ensures
        count_true(outcomes.take(n)) <= count_true(outcomes),
    decreases outcomes.len() - n,
{
    if n < outcomes.len() {
        lemma_count_true_prefix_bound(outcomes, n + 1);
        assert(outcomes.take(n + 1).drop_last() =~= outcomes.take(n));
    } else {
        assert(outcomes.take(n) =~= outcomes);
    }
}

} // verus!
