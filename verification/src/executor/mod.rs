//! Executor configurations: how each executor starts the tasks it accepts.

mod delay_executor;
mod direct_executor;
mod schedule_executor;
mod thread_per_task_executor;
mod thread_per_task_executor_builder;
mod thread_spawn_config;

pub use delay_executor::DelayExecutor;
pub use direct_executor::DirectExecutor;
pub use schedule_executor::ScheduleExecutor;
pub use thread_per_task_executor::ThreadPerTaskExecutor;
pub use thread_per_task_executor_builder::ThreadPerTaskExecutorBuilder;
pub use thread_spawn_config::ThreadSpawnConfig;
