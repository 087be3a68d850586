//! Task status values observed by hooks and handles.

mod task_status;

pub use task_status::TaskStatus;
