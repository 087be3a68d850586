use vstd::prelude::*;

verus! {

/// Worker-thread spawn configuration shared by the thread-based executors.
#[derive(Debug, Default, Clone, Copy, PartialEq, Eq, Structural)]
pub struct ThreadSpawnConfig {
    /// Optional stack size in bytes for spawned worker threads.
    pub stack_size: Option<usize>,
}

impl ThreadSpawnConfig {
    /// Creates a spawn configuration from an optional stack size.
    pub fn new(stack_size: Option<usize>) -> (config: Self)
        ensures
            config.stack_size == stack_size,
    {
        ThreadSpawnConfig { stack_size }
    }
}

} // verus!
