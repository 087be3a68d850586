//! Managed executor service building blocks: lifecycle, reports, errors and
//! the state machine of the thread-per-task service.

mod executor_service_builder_error;
mod executor_service_lifecycle;
pub mod service_state;
mod shutdown_report;
mod stop_report;
mod submission_error;
pub mod termination_wait;
mod thread_per_task_executor_service_builder;

pub use executor_service_builder_error::format_worker_index;
pub use executor_service_builder_error::ExecutorServiceBuilderError;
pub use executor_service_lifecycle::ExecutorServiceLifecycle;
pub use service_state::ServiceState;
pub use service_state::ServiceView;
pub use shutdown_report::ShutdownReport;
pub use stop_report::StopReport;
pub use submission_error::SubmissionError;
pub use termination_wait::termination_wait_step;
pub use termination_wait::TerminationWait;
pub use thread_per_task_executor_service_builder::ThreadPerTaskExecutorServiceBuilder;
