//! Runtime-neutral executor building blocks: the lifecycle state machines of
//! managed executor services, the deadline scheduler that drives a single
//! scheduled worker, executor configurations, task hooks and error types.
//!
//! Each state machine here is a plain value whose transitions are verified
//! against a mathematical model; the threads, locks and condition variables
//! that share these values between workers hold them from outside.

pub mod executor;
pub mod hook;
pub mod schedule;
pub mod service;
pub mod task;

pub use crate::executor::DelayExecutor;
pub use crate::executor::DirectExecutor;
pub use crate::executor::ScheduleExecutor;
pub use crate::executor::ThreadPerTaskExecutor;
pub use crate::executor::ThreadPerTaskExecutorBuilder;
pub use crate::hook::NoopTaskHook;
pub use crate::hook::TaskHook;
pub use crate::hook::TaskId;
pub use crate::service::ExecutorServiceBuilderError;
pub use crate::service::ExecutorServiceLifecycle;
pub use crate::service::ShutdownReport;
pub use crate::service::StopReport;
pub use crate::service::SubmissionError;
pub use crate::service::ThreadPerTaskExecutorServiceBuilder;
pub use crate::task::TaskStatus;
