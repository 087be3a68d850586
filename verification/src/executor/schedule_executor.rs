use vstd::prelude::*;

use std::sync::Arc;
use std::time::Instant;

use crate::hook::TaskHook;

verus! {

/// `std::time::Instant`, carried through this crate without being inspected.
#[verifier::external_type_specification]
#[verifier::external_body]
pub struct ExInstant(Instant);

/// `Clone` for `Instant`, which the derived `Clone` of [`ScheduleExecutor`]
/// calls: `Instant` is `Copy`, so a clone equals the original.
pub assume_specification[ <Instant as Clone>::clone ](instant: &Instant) -> (copy: Instant)
    ensures
        copy == *instant,
;

/// Executor that starts each task at a fixed monotonic instant, on a helper
/// thread that waits until then; an instant that is not in the future starts
/// the task at once.
#[derive(Clone)]
pub struct ScheduleExecutor {
    instant: Instant,
    hook: Option<Arc<dyn TaskHook>>,
}

impl ScheduleExecutor {
    /// Configured start instant.
    pub closed spec fn instant_spec(&self) -> Instant {
        self.instant
    }

    /// Configured hook.
    pub closed spec fn hook_spec(&self) -> Option<Arc<dyn TaskHook>> {
        self.hook
    }

    /// Creates an executor that starts tasks at `instant`, without hooks.
    pub fn at(instant: Instant) -> (executor: Self)
        ensures
            executor.instant_spec() == instant,
            executor.hook_spec() is None,
    {
        ScheduleExecutor { instant, hook: None }
    }

    /// Returns this executor using the supplied task hook.
    pub fn with_hook(self, hook: Arc<dyn TaskHook>) -> (executor: Self)
        ensures
            executor.instant_spec() == self.instant_spec(),
            executor.hook_spec() == Some(hook),
    {
        let hook = Some(hook);
        ScheduleExecutor { instant: self.instant, hook }
    }

    /// Returns the configured start instant.
    pub fn instant(&self) -> (instant: Instant)
        ensures
            instant == self.instant_spec(),
    {
        self.instant
    }

    /// Returns the configured hook.
    pub fn hook(&self) -> (hook: &Option<Arc<dyn TaskHook>>)
        ensures
            *hook == self.hook_spec(),
    {
        &self.hook
    }
}

} // verus!
