use vstd::prelude::*;

use std::cmp::Ordering;

use super::scheduled_task::ScheduledTask;
use super::scheduler_state::count_true;
use super::single_thread_scheduled_executor_service_state::SingleThreadScheduledExecutorServiceState;

verus! {

/// A scheduled task with no entry of its own.
fn scheduled_task(deadline: u64, sequence: usize) -> (task: ScheduledTask<()>)
    ensures
        task.deadline == deadline,
        task.sequence == sequence,
{
    ScheduledTask::new(deadline, sequence, ())
}

/// Checks the heap ordering of scheduled tasks: equal keys compare equal,
/// different deadlines or sequences do not, an earlier deadline or a lower
/// sequence orders greater, and `partial_cmp` agrees. Each check is proved
/// where it stands.
pub fn verify_scheduled_task_ordering() {
    let deadline: u64 = 1_000_000_000;
    let later: u64 = deadline + 1_000_000;
    let same = scheduled_task(deadline, 7) == scheduled_task(deadline, 7);
    let other_deadline = scheduled_task(deadline, 7) != scheduled_task(later, 7);
    let other_sequence = scheduled_task(deadline, 7) != scheduled_task(deadline, 8);
    let lower_sequence_first = scheduled_task(deadline, 0) > scheduled_task(deadline, 1);
    let earlier_deadline_first = scheduled_task(deadline, 0) > scheduled_task(later, 0);
    let partial = matches!(
        scheduled_task(deadline, 0).partial_cmp(&scheduled_task(deadline, 1)),
        Some(Ordering::Greater)
    );
    assert(same);
    assert(other_deadline);
    assert(other_sequence);
    assert(lower_sequence_first);
    assert(earlier_deadline_first);
    assert(partial);
}

/// Checks lifecycle and stop paths of the single-threaded scheduled service
/// state: a new state is running, shutdown stops admission, and stopping a
/// state whose only queued task refuses cancellation reports one queued task,
/// no running task and no cancellation. Counter underflow cannot happen: the
/// counter transitions require a task to move. Each check is proved where it
/// stands.
pub fn verify_single_thread_scheduled_executor_service_inner_paths() {
    let mut state: SingleThreadScheduledExecutorServiceState<()> = SingleThreadScheduledExecutorServiceState::new();
    let running_at_start = !state.is_not_running();
    assert(running_at_start);
    state.shutdown();
    let stopped_admission = state.is_not_running();
    assert(stopped_admission);

    let mut state: SingleThreadScheduledExecutorServiceState<()> = SingleThreadScheduledExecutorServiceState::new();
    let accepted = state.schedule_entry(0, ()).is_ok();
    assert(accepted);
    let (queued, _drained) = state.begin_stop();
    let mut outcomes: Vec<bool> = Vec::new();
    outcomes.push(false);
    proof {
        assert(outcomes@.drop_last() =~= Seq::<bool>::empty());
        assert(count_true(Seq::<bool>::empty()) == 0);
        assert(!outcomes@.last());
        assert(count_true(outcomes@) == 0);
    }
    let report = state.settle_stop(queued, &outcomes);
    assert(report.queued == 1);
    assert(report.running == 0);
    assert(report.cancelled == 0);
}

} // verus!
