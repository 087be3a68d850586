use qubit_executor::service::ServiceState;
use qubit_executor::ExecutorServiceLifecycle;
use qubit_executor::SubmissionError;

#[test]
fn test_new_service_state_is_running_and_idle() {
    let state = ServiceState::new();
    assert_eq!(state.lifecycle(), ExecutorServiceLifecycle::Running);
    assert_eq!(state.active_tasks(), 0);
}

#[test]
fn test_accept_counts_active_tasks_while_running() {
    let mut state = ServiceState::new();
    assert!(state.accept_task().is_ok());
    assert!(state.accept_task().is_ok());
    assert_eq!(state.active_tasks(), 2);
    state.finish_task();
    assert_eq!(state.active_tasks(), 1);
    assert_eq!(state.lifecycle(), ExecutorServiceLifecycle::Running);
}

#[test]
fn test_accept_after_shutdown_is_rejected() {
    let mut state = ServiceState::new();
    state.shutdown();
    assert!(matches!(state.accept_task(), Err(SubmissionError::Shutdown)));
    assert_eq!(state.active_tasks(), 0);
}

#[test]
fn test_idle_shutdown_terminates_immediately() {
    let mut state = ServiceState::new();
    state.shutdown();
    assert_eq!(state.lifecycle(), ExecutorServiceLifecycle::Terminated);
}

#[test]
fn test_shutdown_waits_for_active_tasks() {
    let mut state = ServiceState::new();
    state.accept_task().unwrap();
    state.accept_task().unwrap();
    state.shutdown();
    assert_eq!(state.lifecycle(), ExecutorServiceLifecycle::ShuttingDown);
    assert_eq!(state.active_tasks(), 2);
    state.finish_task();
    assert_eq!(state.lifecycle(), ExecutorServiceLifecycle::ShuttingDown);
    state.finish_task();
    assert_eq!(state.lifecycle(), ExecutorServiceLifecycle::Terminated);
}

#[test]
fn test_stop_reports_active_tasks() {
    let mut state = ServiceState::new();
    state.accept_task().unwrap();
    state.accept_task().unwrap();
    state.accept_task().unwrap();
    assert_eq!(state.stop(), 3);
    assert_eq!(state.lifecycle(), ExecutorServiceLifecycle::Stopping);
    for _ in 0..3 {
        state.finish_task();
    }
    assert_eq!(state.lifecycle(), ExecutorServiceLifecycle::Terminated);
    assert_eq!(state.stop(), 0);
    assert_eq!(state.lifecycle(), ExecutorServiceLifecycle::Terminated);
}

#[test]
fn test_stop_after_shutdown_switches_to_stopping() {
    let mut state = ServiceState::new();
    state.accept_task().unwrap();
    state.shutdown();
    assert_eq!(state.stop(), 1);
    assert_eq!(state.lifecycle(), ExecutorServiceLifecycle::Stopping);
    state.shutdown();
    assert_eq!(state.lifecycle(), ExecutorServiceLifecycle::Stopping);
    state.finish_task();
    assert_eq!(state.lifecycle(), ExecutorServiceLifecycle::Terminated);
}

#[test]
fn test_terminated_state_is_absorbing() {
    let mut state = ServiceState::new();
    state.stop();
    assert_eq!(state.lifecycle(), ExecutorServiceLifecycle::Terminated);
    state.shutdown();
    assert_eq!(state.lifecycle(), ExecutorServiceLifecycle::Terminated);
    assert!(state.accept_task().is_err());
    assert_eq!(state.lifecycle(), ExecutorServiceLifecycle::Terminated);
}
