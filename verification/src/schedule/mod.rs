//! Deadline scheduling state for single-threaded scheduled executor services.

pub mod deadline_index;
pub mod scheduled_task;
pub mod scheduler_state;
pub mod testing;
pub mod single_thread_scheduled_executor_service_state;
