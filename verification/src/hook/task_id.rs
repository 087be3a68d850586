use vstd::prelude::*;

verus! {

/// Unique identifier assigned to an accepted task.
#[derive(Debug, Clone, Copy, PartialEq, Eq, Hash, Structural)]
pub struct TaskId(u64);

impl View for TaskId {
    type V = u64;

    /// The raw numeric value.
    closed spec fn view(&self) -> u64 {
        self.0
    }
}

impl TaskId {
    /// Creates a task id from its raw numeric value. The id is the only one
    /// with that value, so equal values give equal ids.
    pub fn new(value: u64) -> (id: Self)
        ensures
            id@ == value,
            forall|other: TaskId| #[trigger] other@ == value <==> other == id,
    {
        TaskId(value)
    }

    /// Returns the raw numeric task id value.
    pub fn get(self) -> (value: u64)
        ensures
            value == self@,
    {
        self.0
    }
}

} // verus!
