use vstd::prelude::*;

use std::cmp::Ordering;
use vstd::std_specs::cmp::PartialEqSpecImpl;
use vstd::std_specs::cmp::PartialOrdSpecImpl;

verus! {

/// Task held by the deadline heap of a single-threaded scheduled service.
///
/// Deadlines are monotonic instants expressed as integers; `sequence` keeps
/// equal deadlines in submission order; `entry` is the accepted task.
pub struct ScheduledTask<E> {
    /// Instant at which the task becomes runnable.
    pub deadline: u64,
    /// Insertion order used to make equal deadlines deterministic.
    pub sequence: usize,
    /// The accepted task.
    pub entry: E,
}

/// Heap order of a task with key `(a_deadline, a_sequence)` relative to one
/// with key `(b_deadline, b_sequence)`: the earlier deadline is the greater
/// task, and on equal deadlines the smaller sequence is, so that a max-heap
/// yields the earliest task first.
pub open spec fn heap_order(a_deadline: u64, a_sequence: usize, b_deadline: u64, b_sequence: usize) -> Ordering {
    if b_deadline < a_deadline {
        Ordering::Less
    } else if b_deadline > a_deadline {
        Ordering::Greater
    } else if b_sequence < a_sequence {
        Ordering::Less
    } else if b_sequence > a_sequence {
        Ordering::Greater
    } else {
        Ordering::Equal
    }
}

impl<E> ScheduledTask<E> {
    /// Creates a heap entry for a scheduled task.
    pub fn new(deadline: u64, sequence: usize, entry: E) -> (task: Self)
        ensures
            task.deadline == deadline,
            task.sequence == sequence,
            task.entry == entry,
    {
        ScheduledTask { deadline, sequence, entry }
    }

    /// Heap order of `self` relative to `other`.
    pub open spec fn heap_order_to(&self, other: &Self) -> Ordering {
        heap_order(self.deadline, self.sequence, other.deadline, other.sequence)
    }

    /// Orders earliest deadlines first, then lowest sequence, when used as a
    /// max-heap key.
    pub fn cmp(&self, other: &Self) -> (order: Ordering)
        ensures
            order == self.heap_order_to(other),
    {
        if other.deadline < self.deadline {
            Ordering::Less
        } else if other.deadline > self.deadline {
            Ordering::Greater
        } else if other.sequence < self.sequence {
            Ordering::Less
        } else if other.sequence > self.sequence {
            Ordering::Greater
        } else {
            Ordering::Equal
        }
    }
}

impl<E> PartialEq for ScheduledTask<E> {
    /// Compares heap ordering keys.
    fn eq(&self, other: &Self) -> (equal: bool) {
        self.deadline == other.deadline && self.sequence == other.sequence
    }
}

impl<E> PartialEqSpecImpl for ScheduledTask<E> {
    open spec fn obeys_eq_spec() -> bool {
        true
    }

    open spec fn eq_spec(&self, other: &Self) -> bool {
        self.deadline == other.deadline && self.sequence == other.sequence
    }
}

impl<E> Eq for ScheduledTask<E> {
}

impl<E> PartialOrd for ScheduledTask<E> {
    /// Delegates partial ordering to the total heap ordering.
    fn partial_cmp(&self, other: &Self) -> (order: Option<Ordering>) {
        Some(self.cmp(other))
    }
}

impl<E> PartialOrdSpecImpl for ScheduledTask<E> {
    open spec fn obeys_partial_cmp_spec() -> bool {
        true
    }

    open spec fn partial_cmp_spec(&self, other: &Self) -> Option<Ordering> {
        Some(self.heap_order_to(other))
    }
}

/// The heap order is a total order whose equality is key equality: exactly
/// one of two tasks orders greater unless their keys are equal, and it is
/// transitive.
pub proof fn lemma_heap_order_is_total<E>(a: ScheduledTask<E>, b: ScheduledTask<E>, c: ScheduledTask<E>)
    ensures
        (a.heap_order_to(&b) == Ordering::Equal) <==> (a.deadline == b.deadline && a.sequence == b.sequence),
        (a.heap_order_to(&b) == Ordering::Greater) <==> (b.heap_order_to(&a) == Ordering::Less),
        a.heap_order_to(&b) == Ordering::Greater && b.heap_order_to(&c) == Ordering::Greater
            ==> a.heap_order_to(&c) == Ordering::Greater,
        a.deadline < b.deadline ==> a.heap_order_to(&b) == Ordering::Greater,
{
}

} // verus!
