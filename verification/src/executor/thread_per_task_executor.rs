use vstd::prelude::*;

use std::sync::Arc;

use super::thread_per_task_executor_builder::ThreadPerTaskExecutorBuilder;
use super::thread_spawn_config::ThreadSpawnConfig;
use crate::hook::noop_task_hook;
use crate::hook::TaskHook;

verus! {

/// Executor that runs each task on a dedicated OS thread, with no pool and no
/// queue.
#[derive(Clone)]
pub struct ThreadPerTaskExecutor {
    stack_size: Option<usize>,
    hook: Option<Arc<dyn TaskHook>>,
    /// Whether `hook` is the no-op hook that executors start with.
    noop_hook: Ghost<bool>,
}

impl ThreadPerTaskExecutor {
    /// Configured worker stack size.
    pub closed spec fn stack_size_spec(&self) -> Option<usize> {
        self.stack_size
    }

    /// Configured hook.
    pub closed spec fn hook_spec(&self) -> Option<Arc<dyn TaskHook>> {
        self.hook
    }

    /// Whether the configured hook is the no-op hook executors start with,
    /// that is, whether no hook has been supplied.
    pub closed spec fn has_noop_hook(&self) -> bool {
        self.noop_hook@
    }

    /// Creates an executor using the platform default worker stack size and
    /// the no-op hook: the same configuration as [`Default::default`].
    pub fn new() -> (executor: Self)
        ensures
            executor.stack_size_spec() is None,
            executor.hook_spec() is Some,
            executor.has_noop_hook(),
    {
        Self::default()
    }

    /// An executor with the given worker options; stack sizes are checked by
    /// the builder.
    pub(crate) fn from_parts(
        stack_size: Option<usize>,
        hook: Option<Arc<dyn TaskHook>>,
        noop_hook: Ghost<bool>,
    ) -> (executor: Self)
        ensures
            executor.stack_size_spec() == stack_size,
            executor.hook_spec() == hook,
            executor.has_noop_hook() == noop_hook@,
    {
        let mut executor = Self::default();
        executor.stack_size = stack_size;
        executor.hook = hook;
        executor.noop_hook = noop_hook;
        executor
    }

    /// Creates a builder initialized with default worker thread options.
    pub fn builder() -> (builder: ThreadPerTaskExecutorBuilder)
        ensures
            builder.stack_size_spec() is None,
            builder.hook_spec() is Some,
            builder.has_noop_hook(),
    {
        ThreadPerTaskExecutorBuilder::new()
    }

    /// Returns the configured worker stack size.
    pub fn stack_size(&self) -> (stack_size: Option<usize>)
        ensures
            stack_size == self.stack_size_spec(),
    {
        self.stack_size
    }

    /// Returns the configured hook.
    pub fn hook(&self) -> (hook: &Option<Arc<dyn TaskHook>>)
        ensures
            *hook == self.hook_spec(),
    {
        &self.hook
    }

    /// Returns the spawn configuration of the worker threads.
    pub fn spawn_config(&self) -> (config: ThreadSpawnConfig)
        ensures
            config.stack_size == self.stack_size_spec(),
    {
        ThreadSpawnConfig::new(self.stack_size)
    }
}

impl Default for ThreadPerTaskExecutor {
    /// Creates an executor using the platform default worker stack size and
    /// the no-op hook.
    fn default() -> (executor: Self)
        ensures
            executor.stack_size_spec() is None,
            executor.hook_spec() is Some,
            executor.has_noop_hook(),
    {
        let hook = noop_task_hook();
        ThreadPerTaskExecutor { stack_size: None, hook, noop_hook: Ghost(true) }
    }
}

} // verus!
