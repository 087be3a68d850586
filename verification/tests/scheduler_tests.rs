use std::collections::HashMap;

use qubit_executor::schedule::scheduler_state::SchedulerState;
use qubit_executor::schedule::scheduler_state::WorkerStep;
use qubit_executor::ExecutorServiceLifecycle;
use qubit_executor::SubmissionError;
use qubit_executor::TaskId;

/// Test double for a scheduled entry: a cancelled entry yields no task when
/// started, a panicking one runs but produces nothing.
struct MaybeSkippedEntry {
    skip: bool,
    panic_on_run: bool,
}

/// Drives the worker loop over the scheduler state until it exits, the way the
/// scheduled worker thread does; returns how many entries ran to completion.
fn run_worker(state: &mut SchedulerState, entries: &mut HashMap<u64, MaybeSkippedEntry>, now: u64) -> usize {
    let mut ran = 0;
    loop {
        match state.next_ready_step(now) {
            WorkerStep::Exit => return ran,
            WorkerStep::Wait | WorkerStep::WaitUntil(_) => panic!("worker would block in this test"),
            WorkerStep::Start(id) => {
                let entry = entries.remove(&id.get()).expect("started entry must be known");
                if !entry.skip && !entry.panic_on_run {
                    ran += 1;
                }
                state.finish_task();
            }
        }
    }
}

#[test]
fn test_cancelled_due_entry_does_not_exit_worker() {
    let mut state = SchedulerState::new();
    let mut entries = HashMap::new();
    let now = 1_000;
    state.schedule(TaskId::new(1), now).expect("first entry should schedule");
    entries.insert(1, MaybeSkippedEntry { skip: true, panic_on_run: false });
    state.schedule(TaskId::new(2), now).expect("second entry should schedule");
    entries.insert(2, MaybeSkippedEntry { skip: false, panic_on_run: false });
    state.shutdown();

    let ran = run_worker(&mut state, &mut entries, now);

    assert_eq!(ran, 1);
    assert_eq!(state.running_count(), 0);
    assert!(state.is_terminated());
}

#[test]
fn test_panicking_started_entry_does_not_kill_worker() {
    let mut state = SchedulerState::new();
    let mut entries = HashMap::new();
    let now = 1_000;
    state.schedule(TaskId::new(3), now).expect("panicking entry should schedule");
    entries.insert(3, MaybeSkippedEntry { skip: false, panic_on_run: true });
    state.schedule(TaskId::new(4), now).expect("following entry should schedule");
    entries.insert(4, MaybeSkippedEntry { skip: false, panic_on_run: false });
    state.shutdown();

    let ran = run_worker(&mut state, &mut entries, now);

    assert_eq!(ran, 1);
    assert_eq!(state.running_count(), 0);
    assert!(state.is_terminated());
}

#[test]
fn test_concurrent_stop_waits_for_first_drain() {
    let mut state = SchedulerState::new();
    let now = 1_000;
    state
        .schedule(TaskId::new(1), now + 60_000_000_000)
        .expect("entry should schedule");

    // The first stop drains the queue and is cancelling outside the lock.
    let first_drain = state.begin_stop();
    assert_eq!(first_drain.task_ids, vec![TaskId::new(1)]);
    // A second stop runs to completion meanwhile.
    let second_drain = state.begin_stop();
    let second = state.finish_stop(&second_drain, &Vec::new());
    let terminated_early = state.is_terminated();
    // The first stop's cancellation is published.
    let first = state.finish_stop(&first_drain, &vec![true]);

    assert!(!terminated_early);
    assert!(state.is_terminated());
    assert_eq!(first.cancelled, 1);
    assert_eq!(second.queued, 0);
}

#[test]
fn test_schedule_orders_by_deadline_then_submission() {
    let mut state = SchedulerState::new();
    state.schedule(TaskId::new(10), 300).unwrap();
    state.schedule(TaskId::new(11), 100).unwrap();
    state.schedule(TaskId::new(12), 300).unwrap();
    state.schedule(TaskId::new(13), 200).unwrap();
    assert_eq!(state.queued_count(), 4);
    assert_eq!(state.attachments(), 4);
    state.shutdown();
    let drain = state.begin_stop();
    assert_eq!(
        drain.task_ids,
        vec![TaskId::new(11), TaskId::new(13), TaskId::new(10), TaskId::new(12)]
    );
    assert_eq!(drain.queued, 4);
    assert!(drain.owns_drain);
}

#[test]
fn test_worker_waits_for_earliest_deadline() {
    let mut state = SchedulerState::new();
    assert_eq!(state.next_ready_step(0), WorkerStep::Wait);
    state.schedule(TaskId::new(1), 500).unwrap();
    state.schedule(TaskId::new(2), 200).unwrap();
    assert_eq!(state.next_ready_step(100), WorkerStep::WaitUntil(200));
    assert_eq!(state.next_ready_step(200), WorkerStep::Start(TaskId::new(2)));
    assert_eq!(state.running_count(), 1);
    assert_eq!(state.queued_count(), 1);
    state.finish_task();
    assert_eq!(state.running_count(), 0);
    assert_eq!(state.next_ready_step(499), WorkerStep::WaitUntil(500));
    assert_eq!(state.next_ready_step(10_000), WorkerStep::Start(TaskId::new(1)));
    state.finish_task();
    assert_eq!(state.next_ready_step(10_000), WorkerStep::Wait);
    assert!(!state.is_terminated());
}

#[test]
fn test_schedule_after_shutdown_is_rejected() {
    let mut state = SchedulerState::new();
    assert!(!state.is_not_running());
    state.shutdown();
    assert!(state.is_not_running());
    assert_eq!(state.lifecycle(), ExecutorServiceLifecycle::ShuttingDown);
    let result = state.schedule(TaskId::new(7), 0);
    assert!(matches!(result, Err(SubmissionError::Shutdown)));
    assert_eq!(state.queued_count(), 0);
    assert_eq!(state.attachments(), 0);
}

#[test]
fn test_cancel_queued_task_removes_only_that_task() {
    let mut state = SchedulerState::new();
    state.schedule(TaskId::new(1), 10).unwrap();
    state.schedule(TaskId::new(2), 20).unwrap();
    state.schedule(TaskId::new(3), 30).unwrap();
    state.cancel_queued_task(TaskId::new(2));
    assert!(state.is_queued(TaskId::new(1)));
    assert!(!state.is_queued(TaskId::new(2)));
    assert!(state.is_queued(TaskId::new(3)));
    state.cancel_queued_task(TaskId::new(99));
    assert_eq!(state.queued_count(), 2);
    assert_eq!(state.next_ready_step(100), WorkerStep::Start(TaskId::new(1)));
}

#[test]
fn test_schedule_then_cancel_restores_queue() {
    let mut state = SchedulerState::new();
    state.schedule(TaskId::new(1), 10).unwrap();
    state.schedule(TaskId::new(2), 30).unwrap();
    state.schedule(TaskId::new(3), 20).unwrap();
    state.cancel_queued_task(TaskId::new(3));
    state.shutdown();
    let drain = state.begin_stop();
    assert_eq!(drain.task_ids, vec![TaskId::new(1), TaskId::new(2)]);
}

#[test]
fn test_shutdown_drains_queue_before_termination() {
    let mut state = SchedulerState::new();
    state.schedule(TaskId::new(1), 50).unwrap();
    state.shutdown();
    assert_eq!(state.queued_count(), 1);
    assert_eq!(state.lifecycle(), ExecutorServiceLifecycle::ShuttingDown);
    assert_eq!(state.next_ready_step(10), WorkerStep::WaitUntil(50));
    assert_eq!(state.next_ready_step(50), WorkerStep::Start(TaskId::new(1)));
    assert!(!state.can_terminate());
    state.finish_task();
    assert!(state.is_terminated());
    assert_eq!(state.lifecycle(), ExecutorServiceLifecycle::Terminated);
    assert_eq!(state.next_ready_step(60), WorkerStep::Exit);
}

#[test]
fn test_stop_reports_queued_running_and_cancelled() {
    let mut state = SchedulerState::new();
    state.schedule(TaskId::new(1), 0).unwrap();
    state.schedule(TaskId::new(2), 5).unwrap();
    state.schedule(TaskId::new(3), 6).unwrap();
    assert_eq!(state.next_ready_step(0), WorkerStep::Start(TaskId::new(1)));
    let drain = state.begin_stop();
    assert_eq!(drain.queued, 2);
    assert_eq!(drain.running, 1);
    assert_eq!(state.lifecycle(), ExecutorServiceLifecycle::Stopping);
    assert_eq!(state.queued_count(), 0);
    let report = state.finish_stop(&drain, &vec![true, false]);
    assert_eq!(report.queued, 2);
    assert_eq!(report.running, 1);
    assert_eq!(report.cancelled, 1);
    assert!(!state.is_terminated());
    state.finish_task();
    assert!(state.is_terminated());
}

#[test]
fn test_stop_after_termination_keeps_terminated() {
    let mut state = SchedulerState::new();
    state.shutdown();
    assert_eq!(state.next_ready_step(0), WorkerStep::Exit);
    let drain = state.begin_stop();
    assert!(!drain.owns_drain);
    let report = state.finish_stop(&drain, &Vec::new());
    assert_eq!(report.queued, 0);
    assert_eq!(report.running, 0);
    assert_eq!(report.cancelled, 0);
    assert_eq!(state.lifecycle(), ExecutorServiceLifecycle::Terminated);
    assert!(matches!(state.schedule(TaskId::new(1), 0), Err(SubmissionError::Shutdown)));
}

#[test]
fn test_worker_waits_while_stop_drains() {
    let mut state = SchedulerState::new();
    state.schedule(TaskId::new(1), 0).unwrap();
    let drain = state.begin_stop();
    assert_eq!(state.next_ready_step(100), WorkerStep::Wait);
    state.finish_stop(&drain, &vec![true]);
    assert!(state.is_terminated());
    assert_eq!(state.next_ready_step(100), WorkerStep::Exit);
}

#[test]
fn test_not_running_stays_not_running() {
    let mut state = SchedulerState::new();
    assert_eq!(state.is_not_running(), state.lifecycle() != ExecutorServiceLifecycle::Running);
    state.shutdown();
    assert!(state.is_not_running());
    assert!(matches!(state.schedule(TaskId::new(1), 5), Err(SubmissionError::Shutdown)));
    state.shutdown();
    assert!(state.is_not_running());
    let drain = state.begin_stop();
    assert!(state.is_not_running());
    state.finish_stop(&drain, &Vec::new());
    assert!(state.is_not_running());
    assert_eq!(state.next_ready_step(0), WorkerStep::Exit);
    assert_eq!(state.lifecycle(), ExecutorServiceLifecycle::Terminated);
    assert_eq!(state.is_not_running(), state.lifecycle() != ExecutorServiceLifecycle::Running);
}
