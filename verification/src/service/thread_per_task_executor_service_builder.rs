use vstd::prelude::*;

use std::sync::Arc;

use super::executor_service_builder_error::ExecutorServiceBuilderError;
use crate::hook::TaskHook;

verus! {

/// Builder for a thread-per-task executor service: worker stack size and task
/// hook.
#[derive(Clone)]
pub struct ThreadPerTaskExecutorServiceBuilder {
    stack_size: Option<usize>,
    hook: Option<Arc<dyn TaskHook>>,
}

impl ThreadPerTaskExecutorServiceBuilder {
    /// Configured worker stack size.
    pub closed spec fn stack_size_spec(&self) -> Option<usize> {
        self.stack_size
    }

    /// Configured hook.
    pub closed spec fn hook_spec(&self) -> Option<Arc<dyn TaskHook>> {
        self.hook
    }

    /// Creates a builder with default worker thread options and no hook.
    pub fn new() -> (builder: Self)
        ensures
            builder.stack_size_spec() is None,
            builder.hook_spec() is None,
    {
        Self::default()
    }

    /// Sets the worker thread stack size.
    pub fn stack_size(self, stack_size: usize) -> (builder: Self)
        ensures
            builder.stack_size_spec() == Some(stack_size),
            builder.hook_spec() == self.hook_spec(),
    {
        ThreadPerTaskExecutorServiceBuilder { stack_size: Some(stack_size), hook: self.hook }
    }

    /// Sets the task lifecycle hook.
    pub fn hook(self, hook: Arc<dyn TaskHook>) -> (builder: Self)
        ensures
            builder.stack_size_spec() == self.stack_size_spec(),
            builder.hook_spec() == Some(hook),
    {
        let hook = Some(hook);
        ThreadPerTaskExecutorServiceBuilder { stack_size: self.stack_size, hook }
    }

    /// Validates the configuration and hands back the worker stack size and
    /// hook the service is built from.
    ///
    /// # Errors
    ///
    /// Returns [`ExecutorServiceBuilderError::ZeroStackSize`] exactly when the
    /// configured stack size is zero.
    pub fn into_checked_parts(self) -> (result: Result<(Option<usize>, Option<Arc<dyn TaskHook>>), ExecutorServiceBuilderError>)
        ensures
            self.stack_size_spec() == Some(0usize) <==> result is Err,
            result is Err ==> result->Err_0 is ZeroStackSize,
            result matches Ok(parts) ==> parts.0 == self.stack_size_spec() && parts.1 == self.hook_spec(),
    {
        if self.stack_size == Some(0usize) {
            return Err(ExecutorServiceBuilderError::ZeroStackSize);
        }
        Ok((self.stack_size, self.hook))
    }
}

impl Default for ThreadPerTaskExecutorServiceBuilder {
    /// Creates a builder with default worker options and no hook.
    fn default() -> (builder: Self)
        ensures
            builder.stack_size_spec() is None,
            builder.hook_spec() is None,
    {
        ThreadPerTaskExecutorServiceBuilder { stack_size: None, hook: None }
    }
}

} // verus!
