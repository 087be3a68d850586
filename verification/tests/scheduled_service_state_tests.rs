use std::cmp::Ordering;

use qubit_executor::schedule::scheduled_task::ScheduledTask;
use qubit_executor::schedule::single_thread_scheduled_executor_service_state::SingleThreadScheduledExecutorServiceState;
use qubit_executor::schedule::testing::verify_scheduled_task_ordering;
use qubit_executor::ExecutorServiceLifecycle;
use qubit_executor::SubmissionError;

#[test]
fn test_verify_scheduled_task_ordering() {
    verify_scheduled_task_ordering();
}

#[test]
fn test_scheduled_task_heap_order() {
    let early = ScheduledTask::new(10, 5, "early");
    let late = ScheduledTask::new(20, 0, "late");
    let early_second = ScheduledTask::new(10, 6, "second");
    assert_eq!(early.cmp(&late), Ordering::Greater);
    assert_eq!(late.cmp(&early), Ordering::Less);
    assert_eq!(early.cmp(&early_second), Ordering::Greater);
    assert_eq!(early.cmp(&ScheduledTask::new(10, 5, "other entry")), Ordering::Equal);
    assert!(early == ScheduledTask::new(10, 5, "other entry"));
    assert!(early != early_second);
    assert!(early_second < early);
    assert_eq!(late.partial_cmp(&early_second), Some(Ordering::Less));
}

#[test]
fn test_new_state_is_running_and_empty() {
    let state: SingleThreadScheduledExecutorServiceState<&str> = SingleThreadScheduledExecutorServiceState::new();
    assert_eq!(state.queued_count(), 0);
    assert_eq!(state.running_count(), 0);
    assert_eq!(state.completed_count(), 0);
    assert_eq!(state.cancelled_count(), 0);
    assert!(!state.is_not_running());
    assert!(!state.is_terminated());
    assert_eq!(state.lifecycle(), ExecutorServiceLifecycle::Running);
}

#[test]
fn test_counter_transitions() {
    let mut state: SingleThreadScheduledExecutorServiceState<()> = SingleThreadScheduledExecutorServiceState::new();
    state.accept_task();
    state.accept_task();
    state.accept_task();
    assert_eq!(state.queued_count(), 3);
    state.cancel_queued_task();
    assert_eq!(state.queued_count(), 2);
    assert_eq!(state.cancelled_count(), 1);
    state.start_task();
    assert_eq!(state.queued_count(), 1);
    assert_eq!(state.running_count(), 1);
    state.finish_running_task();
    assert_eq!(state.running_count(), 0);
    assert_eq!(state.completed_count(), 1);
    let total = state.queued_count() + state.running_count() + state.completed_count() + state.cancelled_count();
    assert_eq!(total, 3);
}

#[test]
fn test_schedule_entry_assigns_sequences_and_counts_queued() {
    let mut state = SingleThreadScheduledExecutorServiceState::new();
    state.schedule_entry(30, "a").unwrap();
    state.schedule_entry(10, "b").unwrap();
    state.schedule_entry(30, "c").unwrap();
    assert_eq!(state.queued_count(), 3);
    assert_eq!(state.heap_len(), 3);
    let first = state.pop_earliest().unwrap();
    assert_eq!((first.deadline, first.sequence, first.entry), (10, 1, "b"));
    let second = state.pop_earliest().unwrap();
    assert_eq!((second.deadline, second.sequence, second.entry), (30, 0, "a"));
    let third = state.pop_earliest().unwrap();
    assert_eq!((third.deadline, third.sequence, third.entry), (30, 2, "c"));
    assert!(state.pop_earliest().is_none());
}

#[test]
fn test_schedule_entry_after_shutdown_is_rejected() {
    let mut state = SingleThreadScheduledExecutorServiceState::new();
    state.shutdown();
    assert!(state.is_not_running());
    assert_eq!(state.lifecycle(), ExecutorServiceLifecycle::ShuttingDown);
    assert!(matches!(state.schedule_entry(0, 1u8), Err(SubmissionError::Shutdown)));
    assert_eq!(state.queued_count(), 0);
    assert_eq!(state.heap_len(), 0);
}

#[test]
fn test_stop_cancels_queued_tasks_in_heap_order() {
    let mut state = SingleThreadScheduledExecutorServiceState::new();
    state.schedule_entry(50, "late").unwrap();
    state.schedule_entry(5, "early").unwrap();
    state.schedule_entry(20, "middle").unwrap();
    let (queued, drained) = state.begin_stop();
    assert_eq!(queued, 3);
    let entries: Vec<&str> = drained.iter().map(|task| task.entry).collect();
    assert_eq!(entries, vec!["early", "middle", "late"]);
    assert_eq!(state.lifecycle(), ExecutorServiceLifecycle::Stopping);
    assert_eq!(state.heap_len(), 0);
    let report = state.settle_stop(queued, &vec![true, false, true]);
    assert_eq!(report.queued, 3);
    assert_eq!(report.running, 0);
    assert_eq!(report.cancelled, 2);
    assert_eq!(state.queued_count(), 1);
    assert_eq!(state.cancelled_count(), 2);
}

#[test]
fn test_stop_with_cancel_rejected_entry() {
    let mut state: SingleThreadScheduledExecutorServiceState<()> = SingleThreadScheduledExecutorServiceState::new();
    state.schedule_entry(0, ()).unwrap();
    let (queued, drained) = state.begin_stop();
    assert_eq!(drained.len(), 1);
    let report = state.settle_stop(queued, &vec![false]);
    assert_eq!(report.queued, 1);
    assert_eq!(report.cancelled, 0);
    assert_eq!(report.running, 0);
}

#[test]
fn test_terminate_reports_terminated() {
    let mut state: SingleThreadScheduledExecutorServiceState<()> = SingleThreadScheduledExecutorServiceState::new();
    state.shutdown();
    state.terminate();
    assert!(state.is_terminated());
    assert_eq!(state.lifecycle(), ExecutorServiceLifecycle::Terminated);
}

#[test]
fn test_verify_single_thread_scheduled_executor_service_inner_paths() {
    qubit_executor::schedule::testing::verify_single_thread_scheduled_executor_service_inner_paths();
}
