use vstd::prelude::*;

use qubit_collections::map::OrderedIndexMap;

verus! {

/// `qubit_collections::map::OrderedIndexMap`: a primary-key map with an
/// ordered secondary index in which equal order keys keep attachment order.
///
/// This crate only uses `u64` keys and orders with unit values, whose hashing,
/// comparison, cloning and dropping cannot panic, so the map's poison flag is
/// never set and none of its operations panics for that reason.
#[verifier::external_type_specification]
#[verifier::external_body]
#[verifier::reject_recursive_types(K)]
#[verifier::reject_recursive_types(O)]
#[verifier::reject_recursive_types(V)]
#[verifier::reject_recursive_types(S)]
pub struct ExOrderedIndexMap<K, O, V, S>(OrderedIndexMap<K, O, V, S>);

/// The attached records of a deadline index as `(task id, deadline)` pairs,
/// in the order of its ordered index: ascending deadline, equal deadlines in
/// attachment order.
pub uninterp spec fn deadline_index_records(index: OrderedIndexMap<u64, u64, ()>) -> Seq<(u64, u64)>;

/// Number of attachment sequences the index has handed out so far.
pub uninterp spec fn deadline_index_sequences(index: OrderedIndexMap<u64, u64, ()>) -> nat;

/// Number of records of the index that are detached from its ordered index.
pub uninterp spec fn deadline_index_detached(index: OrderedIndexMap<u64, u64, ()>) -> nat;

/// Whether some record carries `id`.
pub open spec fn has_id(records: Seq<(u64, u64)>, id: u64) -> bool {
    exists|i: int| 0 <= i < records.len() && #[trigger] records[i].0 == id
}

/// Position of the record carrying `id`.
pub open spec fn position_of(records: Seq<(u64, u64)>, id: u64) -> int {
    choose|i: int| 0 <= i < records.len() && #[trigger] records[i].0 == id
}

/// The records without the one carrying `id`.
pub open spec fn without_id(records: Seq<(u64, u64)>, id: u64) -> Seq<(u64, u64)> {
    if has_id(records, id) {
        records.remove(position_of(records, id))
    } else {
        records
    }
}

/// Where a record of deadline `order` goes in deadline-sorted records: after
/// every record whose deadline is not later.
pub open spec fn insertion_point(records: Seq<(u64, u64)>, order: u64) -> nat
    decreases records.len(),
{
    if records.len() == 0 {
        0
    } else if records[0].1 > order {
        0
    } else {
        1 + insertion_point(records.drop_first(), order)
    }
}

/// Records after a stable insertion of `(id, order)`.
pub open spec fn stable_insert(records: Seq<(u64, u64)>, id: u64, order: u64) -> Seq<(u64, u64)> {
    records.insert(insertion_point(records, order) as int, (id, order))
}

/// Deadlines never decrease along the records.
pub open spec fn sorted_by_deadline(records: Seq<(u64, u64)>) -> bool {
    forall|i: int, j: int| 0 <= i < j < records.len() ==> records[i].1 <= records[j].1
}

/// No two records carry the same id.
pub open spec fn ids_unique(records: Seq<(u64, u64)>) -> bool {
    forall|i: int, j: int|
        0 <= i < records.len() && 0 <= j < records.len() && i != j ==> records[i].0 != records[j].0
}

/// An empty index, through `OrderedIndexMap::new`.
#[verifier::external_body]
pub(crate) fn deadline_index_new() -> (index: OrderedIndexMap<u64, u64, ()>)
    ensures
        deadline_index_records(index) == Seq::<(u64, u64)>::empty(),
        deadline_index_sequences(index) == 0,
        deadline_index_detached(index) == 0,
{
    OrderedIndexMap::new()
}

/// Number of attached records, through `OrderedIndexMap::attached_len`.
#[verifier::external_body]
pub(crate) fn deadline_index_len(index: &OrderedIndexMap<u64, u64, ()>) -> (count: usize)
    ensures
        count == deadline_index_records(*index).len(),
{
    index.attached_len()
}

/// Whether a record carries `id`, through `OrderedIndexMap::contains_key`.
#[verifier::external_body]
pub(crate) fn deadline_index_contains(index: &OrderedIndexMap<u64, u64, ()>, id: u64) -> (found: bool)
    requires
        deadline_index_detached(*index) == 0,
    ensures
        found == has_id(deadline_index_records(*index), id),
{
    index.contains_key(&id)
}

/// The first attached record, through `OrderedIndexMap::first`.
#[verifier::external_body]
pub(crate) fn deadline_index_first(index: &OrderedIndexMap<u64, u64, ()>) -> (first: Option<(u64, u64)>)
    ensures
        deadline_index_records(*index).len() == 0 ==> first is None,
        deadline_index_records(*index).len() > 0 ==> first == Some(deadline_index_records(*index)[0]),
{
    index.first().map(|entry| (*entry.key(), *entry.order()))
}

/// Inserts a record unless its id is already present, through
/// `OrderedIndexMap::try_insert`. A new record takes a fresh attachment
/// sequence, greater than every earlier one, so it goes after every record
/// whose deadline is not later. The sequence allocator panics once it has
/// handed out `u64::MAX` sequences, which `requires` leaves out.
#[verifier::external_body]
pub(crate) fn deadline_index_try_insert(index: &mut OrderedIndexMap<u64, u64, ()>, id: u64, order: u64) -> (inserted: bool)
    requires
        deadline_index_detached(*old(index)) == 0,
        !has_id(deadline_index_records(*old(index)), id) ==> deadline_index_sequences(*old(index)) < u64::MAX,
    ensures
        inserted == !has_id(deadline_index_records(*old(index)), id),
        inserted ==> deadline_index_records(*final(index)) == stable_insert(deadline_index_records(*old(index)), id, order),
        inserted ==> deadline_index_sequences(*final(index)) == deadline_index_sequences(*old(index)) + 1,
        !inserted ==> deadline_index_records(*final(index)) == deadline_index_records(*old(index)),
        !inserted ==> deadline_index_sequences(*final(index)) == deadline_index_sequences(*old(index)),
        deadline_index_detached(*final(index)) == 0,
{
    index.try_insert(id, order, ()).is_ok()
}

/// Removes the record carrying `id` and returns its deadline, through
/// `OrderedIndexMap::remove`.
#[verifier::external_body]
pub(crate) fn deadline_index_remove(index: &mut OrderedIndexMap<u64, u64, ()>, id: u64) -> (removed: Option<u64>)
    requires
        deadline_index_detached(*old(index)) == 0,
    ensures
        removed is Some <==> has_id(deadline_index_records(*old(index)), id),
        removed matches Some(order) ==> deadline_index_records(*old(index))[position_of(deadline_index_records(*old(index)), id)] == (id, order),
        deadline_index_records(*final(index)) == without_id(deadline_index_records(*old(index)), id),
        deadline_index_sequences(*final(index)) == deadline_index_sequences(*old(index)),
        deadline_index_detached(*final(index)) == 0,
{
    index.remove(&id).map(|entry| *entry.order())
}

/// Removes and returns the first attached record, through
/// `OrderedIndexMap::pop_first`.
#[verifier::external_body]
pub(crate) fn deadline_index_pop_first(index: &mut OrderedIndexMap<u64, u64, ()>) -> (first: Option<(u64, u64)>)
    ensures
        deadline_index_records(*old(index)).len() == 0 ==> first is None
            && deadline_index_records(*final(index)) == deadline_index_records(*old(index)),
        deadline_index_records(*old(index)).len() > 0 ==> first == Some(deadline_index_records(*old(index))[0])
            && deadline_index_records(*final(index)) == deadline_index_records(*old(index)).drop_first(),
        deadline_index_sequences(*final(index)) == deadline_index_sequences(*old(index)),
        deadline_index_detached(*final(index)) == deadline_index_detached(*old(index)),
{
    index.pop_first().map(|entry| {
        let (id, order, _, _) = entry.into_parts();
        (id, order)
    })
}

/// The insertion point lies within the records, every earlier record has a
/// deadline that is not later and, for sorted records, every later record has
/// a later deadline.
pub proof fn lemma_insertion_point(records: Seq<(u64, u64)>, order: u64)
    ensures
        insertion_point(records, order) <= records.len(),
        forall|i: int| 0 <= i < insertion_point(records, order) ==> #[trigger] records[i].1 <= order,
        sorted_by_deadline(records) ==> forall|i: int|
            insertion_point(records, order) <= i < records.len() ==> #[trigger] records[i].1 > order,
    decreases records.len(),
{
    if records.len() > 0 && records[0].1 <= order {
        let rest = records.drop_first();
        lemma_insertion_point(rest, order);
        assert forall|i: int| 0 <= i < insertion_point(records, order) implies #[trigger] records[i].1 <= order by {
            if i > 0 {
                assert(records[i] == rest[i - 1]);
            }
        }
        if sorted_by_deadline(records) {
            assert(sorted_by_deadline(rest));
            assert forall|i: int| insertion_point(records, order) <= i < records.len() implies #[trigger] records[i].1 > order by {
                assert(records[i] == rest[i - 1]);
            }
        }
    }
}

/// A stable insertion keeps the records sorted, and keeps ids unique when the
/// new id is fresh.
pub proof fn lemma_stable_insert(records: Seq<(u64, u64)>, id: u64, order: u64)
    requires
        sorted_by_deadline(records),
    ensures
        sorted_by_deadline(stable_insert(records, id, order)),
        ids_unique(records) && !has_id(records, id) ==> ids_unique(stable_insert(records, id, order)),
        stable_insert(records, id, order).len() == records.len() + 1,
        has_id(stable_insert(records, id, order), id),
        forall|other: u64| has_id(records, other) ==> has_id(stable_insert(records, id, order), other),
{
    lemma_insertion_point(records, order);
    let p = insertion_point(records, order) as int;
    let inserted = stable_insert(records, id, order);
    assert(inserted[p] == (id, order));
    assert(inserted[p].0 == id);
    assert forall|i: int, j: int| 0 <= i < j < inserted.len() implies inserted[i].1 <= inserted[j].1 by {
        if i < p && j < p {
        } else if i < p && j == p {
        } else if i < p {
            assert(inserted[j] == records[j - 1]);
        } else if i == p {
            assert(inserted[j] == records[j - 1]);
        } else {
            assert(inserted[i] == records[i - 1]);
            assert(inserted[j] == records[j - 1]);
        }
    }
    if ids_unique(records) && !has_id(records, id) {
        assert forall|i: int, j: int|
            0 <= i < inserted.len() && 0 <= j < inserted.len() && i != j implies inserted[i].0 != inserted[j].0 by {
            if i != p && j != p {
                let oi = if i < p { i } else { i - 1 };
                let oj = if j < p { j } else { j - 1 };
                assert(inserted[i] == records[oi]);
                assert(inserted[j] == records[oj]);
            } else if i == p {
                let oj = if j < p { j } else { j - 1 };
                assert(inserted[j] == records[oj]);
            } else {
                let oi = if i < p { i } else { i - 1 };
                assert(inserted[i] == records[oi]);
            }
        }
    }
    assert forall|other: u64| has_id(records, other) implies has_id(inserted, other) by {
        let k = choose|k: int| 0 <= k < records.len() && #[trigger] records[k].0 == other;
        if k < p {
            assert(inserted[k] == records[k]);
        } else {
            assert(inserted[k + 1] == records[k]);
        }
    }
}

/// Removing a record keeps the records sorted and ids unique, and the removed
/// id is gone.
pub proof fn lemma_without_id(records: Seq<(u64, u64)>, id: u64)
    requires
        sorted_by_deadline(records),
        ids_unique(records),
    ensures
        sorted_by_deadline(without_id(records, id)),
        ids_unique(without_id(records, id)),
        !has_id(without_id(records, id), id),
        has_id(records, id) ==> without_id(records, id).len() + 1 == records.len(),
        !has_id(records, id) ==> without_id(records, id) == records,
        forall|other: u64| other != id ==> (has_id(without_id(records, id), other) <==> has_id(records, other)),
{
    if has_id(records, id) {
        let p = position_of(records, id);
        let rest = records.remove(p);
        assert forall|i: int, j: int| 0 <= i < j < rest.len() implies rest[i].1 <= rest[j].1 by {
            let oi = if i < p { i } else { i + 1 };
            let oj = if j < p { j } else { j + 1 };
            assert(rest[i] == records[oi]);
            assert(rest[j] == records[oj]);
        }
        assert forall|i: int, j: int|
            0 <= i < rest.len() && 0 <= j < rest.len() && i != j implies rest[i].0 != rest[j].0 by {
            let oi = if i < p { i } else { i + 1 };
            let oj = if j < p { j } else { j + 1 };
            assert(rest[i] == records[oi]);
            assert(rest[j] == records[oj]);
        }
        assert forall|k: int| 0 <= k < rest.len() implies #[trigger] rest[k].0 != id by {
            let ok = if k < p { k } else { k + 1 };
            assert(rest[k] == records[ok]);
        }
        assert forall|other: u64| other != id implies (has_id(rest, other) <==> has_id(records, other)) by {
            if has_id(records, other) {
                let k = choose|k: int| 0 <= k < records.len() && #[trigger] records[k].0 == other;
                if k < p {
                    assert(rest[k] == records[k]);
                } else {
                    assert(k != p);
                    assert(rest[k - 1] == records[k]);
                }
            }
            if has_id(rest, other) {
                let k = choose|k: int| 0 <= k < rest.len() && #[trigger] rest[k].0 == other;
                let ok = if k < p { k } else { k + 1 };
                assert(rest[k] == records[ok]);
            }
        }
    }
}

/// Dropping the first record keeps the records sorted and ids unique.
pub proof fn lemma_drop_first(records: Seq<(u64, u64)>)
    requires
        records.len() > 0,
        sorted_by_deadline(records),
        ids_unique(records),
    ensures
        sorted_by_deadline(records.drop_first()),
        ids_unique(records.drop_first()),
        forall|i: int| 0 <= i < records.len() ==> records[0].1 <= #[trigger] records[i].1,
{
    let rest = records.drop_first();
    assert forall|i: int, j: int|
        0 <= i < rest.len() && 0 <= j < rest.len() && i != j implies rest[i].0 != rest[j].0 by {
        assert(rest[i] == records[i + 1]);
        assert(rest[j] == records[j + 1]);
    }
}

} // verus!
