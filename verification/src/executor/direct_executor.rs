use vstd::prelude::*;

use std::sync::Arc;

use crate::hook::TaskHook;

verus! {

/// Executor that runs each task immediately on the caller thread.
#[derive(Clone)]
pub struct DirectExecutor {
    hook: Option<Arc<dyn TaskHook>>,
}

impl DirectExecutor {
    /// Configured hook.
    pub closed spec fn hook_spec(&self) -> Option<Arc<dyn TaskHook>> {
        self.hook
    }

    /// Creates a direct executor without lifecycle hooks.
    pub fn new() -> (executor: Self)
        ensures
            executor.hook_spec() is None,
    {
        Self::default()
    }

    /// Returns this executor using the supplied task hook.
    pub fn with_hook(self, hook: Arc<dyn TaskHook>) -> (executor: Self)
        ensures
            executor.hook_spec() == Some(hook),
    {
        let hook = Some(hook);
        DirectExecutor { hook }
    }

    /// Returns the configured hook.
    pub fn hook(&self) -> (hook: &Option<Arc<dyn TaskHook>>)
        ensures
            *hook == self.hook_spec(),
    {
        &self.hook
    }
}

impl Default for DirectExecutor {
    /// Creates a direct executor without lifecycle hooks.
    fn default() -> (executor: Self)
        ensures
            executor.hook_spec() is None,
    {
        DirectExecutor { hook: None }
    }
}

} // verus!
