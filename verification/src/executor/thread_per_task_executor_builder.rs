use vstd::prelude::*;

use std::sync::Arc;

use super::thread_per_task_executor::ThreadPerTaskExecutor;
use crate::hook::noop_task_hook;
use crate::hook::TaskHook;
use crate::service::ExecutorServiceBuilderError;

verus! {

/// Builder for [`ThreadPerTaskExecutor`]. It starts with the platform default
/// stack size and a [`NoopTaskHook`](crate::hook::NoopTaskHook).
#[derive(Clone)]
pub struct ThreadPerTaskExecutorBuilder {
    stack_size: Option<usize>,
    hook: Option<Arc<dyn TaskHook>>,
    /// Whether `hook` is still the no-op hook the builder was created with.
    noop_hook: Ghost<bool>,
}

impl ThreadPerTaskExecutorBuilder {
    /// Configured worker stack size.
    pub closed spec fn stack_size_spec(&self) -> Option<usize> {
        self.stack_size
    }

    /// Configured hook.
    pub closed spec fn hook_spec(&self) -> Option<Arc<dyn TaskHook>> {
        self.hook
    }

    /// Whether the configured hook is the no-op hook the builder starts with,
    /// that is, whether no hook has been supplied.
    pub closed spec fn has_noop_hook(&self) -> bool {
        self.noop_hook@
    }

    /// Creates a builder with default worker thread options and the no-op
    /// hook.
    pub fn new() -> (builder: Self)
        ensures
            builder.stack_size_spec() is None,
            builder.hook_spec() is Some,
            builder.has_noop_hook(),
    {
        Self::default()
    }

    /// Sets the worker thread stack size.
    pub fn stack_size(self, stack_size: usize) -> (builder: Self)
        ensures
            builder.stack_size_spec() == Some(stack_size),
            builder.hook_spec() == self.hook_spec(),
            builder.has_noop_hook() == self.has_noop_hook(),
    {
        let mut builder = self;
        builder.stack_size = Some(stack_size);
        builder
    }

    /// Sets the task lifecycle hook.
    pub fn hook(self, hook: Arc<dyn TaskHook>) -> (builder: Self)
        ensures
            builder.stack_size_spec() == self.stack_size_spec(),
            builder.hook_spec() == Some(hook),
            !builder.has_noop_hook(),
    {
        let hook = Some(hook);
        let mut builder = self;
        builder.hook = hook;
        builder.noop_hook = Ghost(false);
        builder
    }

    /// Builds the executor.
    ///
    /// # Errors
    ///
    /// Returns [`ExecutorServiceBuilderError::ZeroStackSize`] exactly when the
    /// configured stack size is zero.
    pub fn build(self) -> (result: Result<ThreadPerTaskExecutor, ExecutorServiceBuilderError>)
        ensures
            self.stack_size_spec() == Some(0usize) <==> result is Err,
            result is Err ==> result->Err_0 is ZeroStackSize,
            result matches Ok(executor) ==> executor.stack_size_spec() == self.stack_size_spec()
                && executor.hook_spec() == self.hook_spec()
                && executor.has_noop_hook() == self.has_noop_hook(),
    {
        if self.stack_size == Some(0usize) {
            return Err(ExecutorServiceBuilderError::ZeroStackSize);
        }
        Ok(ThreadPerTaskExecutor::from_parts(self.stack_size, self.hook, self.noop_hook))
    }
}

impl Default for ThreadPerTaskExecutorBuilder {
    /// Creates a builder with default worker options and the no-op hook.
    fn default() -> (builder: Self)
        ensures
            builder.stack_size_spec() is None,
            builder.hook_spec() is Some,
            builder.has_noop_hook(),
    {
        let hook = noop_task_hook();
        ThreadPerTaskExecutorBuilder { stack_size: None, hook, noop_hook: Ghost(true) }
    }
}

} // verus!
