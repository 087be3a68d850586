use std::io;
use std::sync::Arc;
use std::time::Duration;
use std::time::Instant;

use qubit_executor::service::format_worker_index;
use qubit_executor::DelayExecutor;
use qubit_executor::DirectExecutor;
use qubit_executor::ExecutorServiceBuilderError;
use qubit_executor::NoopTaskHook;
use qubit_executor::ScheduleExecutor;
use qubit_executor::ShutdownReport;
use qubit_executor::StopReport;
use qubit_executor::SubmissionError;
use qubit_executor::TaskHook;
use qubit_executor::TaskId;
use qubit_executor::ThreadPerTaskExecutor;
use qubit_executor::ThreadPerTaskExecutorBuilder;
use qubit_executor::ThreadPerTaskExecutorServiceBuilder;

fn noop_hook() -> Arc<dyn TaskHook> {
    Arc::new(NoopTaskHook)
}

#[test]
fn test_delay_executor_configuration() {
    let executor = DelayExecutor::new(Duration::from_millis(25));
    assert_eq!(executor.delay(), Duration::from_millis(25));
    assert!(executor.hook().is_none());
    assert_eq!(executor.spawn_config().stack_size, None);
    let executor = executor.with_hook(noop_hook()).with_stack_size(64 * 1024);
    assert!(executor.hook().is_some());
    assert_eq!(executor.delay(), Duration::from_millis(25));
    assert_eq!(executor.spawn_config().stack_size, Some(64 * 1024));
}

#[test]
fn test_direct_executor_configuration() {
    assert!(DirectExecutor::new().hook().is_none());
    assert!(DirectExecutor::default().hook().is_none());
    assert!(DirectExecutor::new().with_hook(noop_hook()).hook().is_some());
}

#[test]
fn test_schedule_executor_configuration() {
    let instant = Instant::now() + Duration::from_secs(5);
    let executor = ScheduleExecutor::at(instant);
    assert_eq!(executor.instant(), instant);
    assert!(executor.hook().is_none());
    let executor = executor.with_hook(noop_hook());
    assert_eq!(executor.instant(), instant);
    assert!(executor.hook().is_some());
}

#[test]
fn test_thread_per_task_executor_builder() {
    let executor = ThreadPerTaskExecutor::new();
    assert_eq!(executor.stack_size(), None);
    let executor = ThreadPerTaskExecutor::builder()
        .stack_size(128 * 1024)
        .hook(noop_hook())
        .build()
        .expect("non-zero stack size should build");
    assert_eq!(executor.stack_size(), Some(128 * 1024));
    assert_eq!(executor.spawn_config().stack_size, Some(128 * 1024));
    assert!(executor.hook().is_some());
    assert!(ThreadPerTaskExecutorBuilder::default().build().is_ok());
}

#[test]
fn test_thread_per_task_executor_builder_rejects_zero_stack_size() {
    let result = ThreadPerTaskExecutorBuilder::new().stack_size(0).build();
    assert!(matches!(result, Err(ExecutorServiceBuilderError::ZeroStackSize)));
}

#[test]
fn test_thread_per_task_service_builder() {
    let (stack_size, hook) = ThreadPerTaskExecutorServiceBuilder::new()
        .stack_size(256 * 1024)
        .hook(noop_hook())
        .into_checked_parts()
        .expect("non-zero stack size should build");
    assert_eq!(stack_size, Some(256 * 1024));
    assert!(hook.is_some());
    let (stack_size, hook) = ThreadPerTaskExecutorServiceBuilder::default().into_checked_parts().unwrap();
    assert_eq!(stack_size, None);
    assert!(hook.is_none());
    let result = ThreadPerTaskExecutorServiceBuilder::new().stack_size(0).into_checked_parts();
    assert!(matches!(result, Err(ExecutorServiceBuilderError::ZeroStackSize)));
}

#[test]
fn test_task_id_round_trip() {
    assert_eq!(TaskId::new(42).get(), 42);
    assert_eq!(TaskId::new(7), TaskId::new(7));
    assert_ne!(TaskId::new(7), TaskId::new(8));
}

#[test]
fn test_reports_keep_counters() {
    let report = StopReport::new(3, 1, 2);
    assert_eq!((report.queued, report.running, report.cancelled), (3, 1, 2));
    assert_eq!(StopReport::default(), StopReport::new(0, 0, 0));
    let report = ShutdownReport::new(4, 0, 4);
    assert_eq!((report.queued, report.running, report.cancelled), (4, 0, 4));
}

#[test]
fn test_format_worker_index() {
    assert_eq!(format_worker_index(Some(0)), "0");
    assert_eq!(format_worker_index(Some(42)), "42");
    assert_eq!(format_worker_index(Some(1907)), "1907");
    assert_eq!(format_worker_index(None), "unknown");
}

#[test]
fn test_from_submission_error_maps_every_rejection() {
    let spawn = SubmissionError::worker_spawn_failed(io::Error::new(io::ErrorKind::OutOfMemory, "no threads left"));
    match ExecutorServiceBuilderError::from_submission_error(spawn) {
        ExecutorServiceBuilderError::SpawnWorker { index, source } => {
            assert_eq!(index, None);
            assert_eq!(source.kind(), io::ErrorKind::OutOfMemory);
            assert_eq!(source.to_string(), "no threads left");
        }
        other => panic!("unexpected build error {other:?}"),
    }
    match ExecutorServiceBuilderError::from_submission_error(SubmissionError::Shutdown) {
        ExecutorServiceBuilderError::SpawnWorker { index, source } => {
            assert_eq!(index, None);
            assert_eq!(source.kind(), io::ErrorKind::Other);
            assert_eq!(source.to_string(), "executor service shut down during prestart");
        }
        other => panic!("unexpected build error {other:?}"),
    }
    match ExecutorServiceBuilderError::from_submission_error(SubmissionError::Saturated) {
        ExecutorServiceBuilderError::SpawnWorker { index, source } => {
            assert_eq!(index, None);
            assert_eq!(source.kind(), io::ErrorKind::Other);
            assert_eq!(source.to_string(), "executor service saturated during prestart");
        }
        other => panic!("unexpected build error {other:?}"),
    }
}

#[test]
fn test_thread_per_task_executor_starts_with_noop_hook() {
    assert!(ThreadPerTaskExecutor::new().hook().is_some());
    assert!(ThreadPerTaskExecutor::default().hook().is_some());
    assert_eq!(ThreadPerTaskExecutor::default().stack_size(), None);
    let executor = ThreadPerTaskExecutor::builder().build().expect("default options should build");
    assert!(executor.hook().is_some());
    assert_eq!(executor.stack_size(), None);
    let hook = noop_hook();
    let executor = ThreadPerTaskExecutorBuilder::new()
        .hook(Arc::clone(&hook))
        .build()
        .expect("default stack size should build");
    assert!(Arc::ptr_eq(executor.hook().as_ref().expect("hook is present"), &hook));
    assert!(matches!(
        ThreadPerTaskExecutorBuilder::new().stack_size(0).build(),
        Err(ExecutorServiceBuilderError::ZeroStackSize)
    ));
}

#[test]
fn test_from_submission_error_keeps_os_error() {
    let original = io::Error::from_raw_os_error(11);
    let (kind, text) = (original.kind(), original.to_string());
    match ExecutorServiceBuilderError::from_submission_error(SubmissionError::worker_spawn_failed(original)) {
        ExecutorServiceBuilderError::SpawnWorker { index, source } => {
            assert_eq!(index, None);
            assert_eq!(source.kind(), kind);
            assert_eq!(source.to_string(), text);
        }
        other => panic!("unexpected build error {other:?}"),
    }
}

#[test]
fn test_spawn_worker_with_builds_fresh_source() {
    match ExecutorServiceBuilderError::spawn_worker_with(io::ErrorKind::WouldBlock, "try again".to_string()) {
        ExecutorServiceBuilderError::SpawnWorker { index, source } => {
            assert_eq!(index, None);
            assert_eq!(source.kind(), io::ErrorKind::WouldBlock);
            assert_eq!(source.to_string(), "try again");
        }
        other => panic!("unexpected build error {other:?}"),
    }
}
