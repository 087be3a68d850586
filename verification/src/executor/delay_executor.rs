use vstd::prelude::*;

use std::sync::Arc;
use std::time::Duration;

use super::thread_spawn_config::ThreadSpawnConfig;
use crate::hook::TaskHook;

verus! {

/// `Clone` for `Duration`, which the derived `Clone` of [`DelayExecutor`]
/// calls: `Duration` is `Copy`, so a clone equals the
/// original.
pub assume_specification[ <Duration as Clone>::clone ](duration: &Duration) -> (copy: Duration)
    ensures
        copy == *duration,
;

/// Executor that starts each task after a fixed delay, each on a helper
/// thread of its own that sleeps for the delay before running the task.
#[derive(Clone)]
pub struct DelayExecutor {
    delay: Duration,
    hook: Option<Arc<dyn TaskHook>>,
    stack_size: Option<usize>,
}

impl DelayExecutor {
    /// Configured delay.
    pub closed spec fn delay_spec(&self) -> Duration {
        self.delay
    }

    /// Configured hook.
    pub closed spec fn hook_spec(&self) -> Option<Arc<dyn TaskHook>> {
        self.hook
    }

    /// Configured helper-thread stack size.
    pub closed spec fn stack_size_spec(&self) -> Option<usize> {
        self.stack_size
    }

    /// Creates an executor that delays task start by `delay`, with no hook and
    /// the platform default stack size.
    pub fn new(delay: Duration) -> (executor: Self)
        ensures
            executor.delay_spec() == delay,
            executor.hook_spec() is None,
            executor.stack_size_spec() is None,
    {
        DelayExecutor { delay, hook: None, stack_size: None }
    }

    /// Returns this executor using the supplied task hook.
    pub fn with_hook(self, hook: Arc<dyn TaskHook>) -> (executor: Self)
        ensures
            executor.delay_spec() == self.delay_spec(),
            executor.hook_spec() == Some(hook),
            executor.stack_size_spec() == self.stack_size_spec(),
    {
        let hook = Some(hook);
        DelayExecutor { delay: self.delay, hook, stack_size: self.stack_size }
    }

    /// Returns this executor using the supplied helper-thread stack size.
    pub fn with_stack_size(self, stack_size: usize) -> (executor: Self)
        ensures
            executor.delay_spec() == self.delay_spec(),
            executor.hook_spec() == self.hook_spec(),
            executor.stack_size_spec() == Some(stack_size),
    {
        DelayExecutor { delay: self.delay, hook: self.hook, stack_size: Some(stack_size) }
    }

    /// Returns the configured delay.
    pub fn delay(&self) -> (delay: Duration)
        ensures
            delay == self.delay_spec(),
    {
        self.delay
    }

    /// Returns the configured hook.
    pub fn hook(&self) -> (hook: &Option<Arc<dyn TaskHook>>)
        ensures
            *hook == self.hook_spec(),
    {
        &self.hook
    }

    /// Returns the spawn configuration of the helper threads.
    pub fn spawn_config(&self) -> (config: ThreadSpawnConfig)
        ensures
            config.stack_size == self.stack_size_spec(),
    {
        ThreadSpawnConfig::new(self.stack_size)
    }
}

} // verus!
