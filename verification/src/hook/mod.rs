//! Task identifiers and task lifecycle hooks.

mod task_hook;
mod task_id;

pub use task_hook::NoopTaskHook;
pub use task_hook::TaskAdmissionHandle;
pub use task_hook::TaskHook;
pub(crate) use task_hook::noop_task_hook;
pub use task_id::TaskId;
