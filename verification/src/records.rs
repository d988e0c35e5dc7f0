//! The records of a store as the contracts see them: a run of records in
//! which no identifier stands twice, and what each operation makes of it.

use crate::models::{Priority, Timestamp, TodoCreateView, TodoQueryView, TodoUpdateView, TodoView};
use crate::query::{passes, selected};
use crate::samples::{first_sample, second_sample, third_sample};
use crate::stats::is_active;
use vstd::prelude::*;

verus! {

/// Whether some record has the identifier.
pub open spec fn has_id(records: Seq<TodoView>, id: Seq<char>) -> bool {
    exists|i: int| 0 <= i < records.len() && (#[trigger] records[i]).id == id
}

/// The place of a record with the identifier, where there is one.
pub open spec fn index_of(records: Seq<TodoView>, id: Seq<char>) -> int {
    choose|i: int| 0 <= i < records.len() && (#[trigger] records[i]).id == id
}

/// The record with the identifier, where there is one.
pub open spec fn find(records: Seq<TodoView>, id: Seq<char>) -> Option<TodoView> {
    if has_id(records, id) {
        Some(records[index_of(records, id)])
    } else {
        None
    }
}

/// No two records have the same identifier.
pub open spec fn distinct_ids(records: Seq<TodoView>) -> bool {
    forall|i: int, j: int|
        0 <= i < j < records.len() ==> (#[trigger] records[i]).id != (#[trigger] records[j]).id
}

/// The record that is made from what a caller supplied, under the given
/// identifier and at the given instant: a priority that was not given is
/// medium, a completion flag that was not given is false.
pub open spec fn new_record(input: TodoCreateView, id: Seq<char>, now: Timestamp) -> TodoView {
    TodoView {
        id,
        text: input.text,
        priority: match input.priority {
            Some(priority) => priority,
            None => Priority::Medium,
        },
        completed: match input.completed {
            Some(completed) => completed,
            None => false,
        },
        due_date: input.due_date,
        reminder_time: input.reminder_time,
        created_at: now,
        updated_at: now,
    }
}

/// The record after a partial change at the given instant: each field that
/// the change holds replaces the record's, the others stay; the identifier
/// and the instant of creation never change.
pub open spec fn revised(todo: TodoView, change: TodoUpdateView, now: Timestamp) -> TodoView {
    TodoView {
        id: todo.id,
        text: match change.text {
            Some(text) => text,
            None => todo.text,
        },
        priority: match change.priority {
            Some(priority) => priority,
            None => todo.priority,
        },
        completed: match change.completed {
            Some(completed) => completed,
            None => todo.completed,
        },
        due_date: match change.due_date {
            Some(due_date) => Some(due_date),
            None => todo.due_date,
        },
        reminder_time: match change.reminder_time {
            Some(reminder_time) => Some(reminder_time),
            None => todo.reminder_time,
        },
        created_at: todo.created_at,
        updated_at: now,
    }
}

/// The record with its completion flag flipped at the given instant.
pub open spec fn toggled(todo: TodoView, now: Timestamp) -> TodoView {
    TodoView { completed: !todo.completed, updated_at: now, ..todo }
}

/// The records after `todo` was stored: it takes the place of the record
/// that had its identifier, or comes last where there was none.
pub open spec fn put(records: Seq<TodoView>, todo: TodoView) -> Seq<TodoView> {
    if has_id(records, todo.id) {
        records.update(index_of(records, todo.id), todo)
    } else {
        records.push(todo)
    }
}

/// The records without the one that had the identifier.
pub open spec fn removed(records: Seq<TodoView>, id: Seq<char>) -> Seq<TodoView> {
    if has_id(records, id) {
        records.remove(index_of(records, id))
    } else {
        records
    }
}

/// The records of a service that starts with its three samples, stored at
/// one instant under the identifiers `a`, `b` and `c`.
pub open spec fn seeded(
    records: Seq<TodoView>,
    now: Timestamp,
    today: i32,
    a: Seq<char>,
    b: Seq<char>,
    c: Seq<char>,
) -> Seq<TodoView> {
    put(
        put(put(records, new_record(first_sample(today), a, now)), new_record(
            second_sample(today),
            b,
            now,
        )),
        new_record(third_sample(today), c, now),
    )
}

/// Storing a record leaves the store with at least one record.
pub proof fn lemma_put_len(records: Seq<TodoView>, todo: TodoView)
    ensures
        put(records, todo).len() >= 1,
        put(records, todo).len() >= records.len(),
{
    if has_id(records, todo.id) {
        let i = index_of(records, todo.id);
        assert(0 <= i < records.len());
    }
}

/// Among records with distinct identifiers, the place of an identifier is
/// the one place where it stands.
pub proof fn lemma_index_of(records: Seq<TodoView>, id: Seq<char>, i: int)
    requires
        distinct_ids(records),
        0 <= i < records.len(),
        records[i].id == id,
    ensures
        has_id(records, id),
        index_of(records, id) == i,
        find(records, id) == Some(records[i]),
{
    let j = index_of(records, id);
    assert(records[j].id == records[i].id);
}

/// Storing a record in the place of one with the same identifier keeps the
/// identifiers distinct, and is what `put` does.
pub proof fn lemma_put_in_place(records: Seq<TodoView>, i: int, todo: TodoView)
    requires
        distinct_ids(records),
        0 <= i < records.len(),
        records[i].id == todo.id,
    ensures
        distinct_ids(records.update(i, todo)),
        put(records, todo) == records.update(i, todo),
{
    lemma_index_of(records, todo.id, i);
    let after = records.update(i, todo);
    assert forall|a: int, b: int| 0 <= a < b < after.len() implies (#[trigger] after[a]).id != (
    #[trigger] after[b]).id by {
        assert(after[a].id == records[a].id && after[b].id == records[b].id);
    }
}

/// Storing a record whose identifier is new appends it and keeps the
/// identifiers distinct.
pub proof fn lemma_put_last(records: Seq<TodoView>, todo: TodoView)
    requires
        distinct_ids(records),
        !has_id(records, todo.id),
    ensures
        distinct_ids(records.push(todo)),
        put(records, todo) == records.push(todo),
{
    let after = records.push(todo);
    assert forall|a: int, b: int| 0 <= a < b < after.len() implies (#[trigger] after[a]).id != (
    #[trigger] after[b]).id by {
        assert(after[a] == records[a]);
        if b < records.len() {
            assert(after[b] == records[b]);
        }
    }
}

/// Taking one record out keeps the identifiers of the others distinct, and
/// the identifier of the record that left is gone.
pub proof fn lemma_removed(records: Seq<TodoView>, i: int)
    requires
        distinct_ids(records),
        0 <= i < records.len(),
    ensures
        distinct_ids(records.remove(i)),
        removed(records, records[i].id) == records.remove(i),
        !has_id(records.remove(i), records[i].id),
{
    lemma_index_of(records, records[i].id, i);
    let after = records.remove(i);
    let origin = |a: int| if a < i { a } else { a + 1 };
    assert forall|a: int| 0 <= a < after.len() implies (#[trigger] after[a]).id
        != records[i].id by {
        assert(after[a] == records[origin(a)]);
    }
    assert forall|a: int, b: int| 0 <= a < b < after.len() implies (#[trigger] after[a]).id != (
    #[trigger] after[b]).id by {
        assert(after[a] == records[origin(a)] && after[b] == records[origin(b)]);
    }
}

/// Narrowing records keeps their identifiers distinct and brings in no
/// identifier that was not there.
pub proof fn lemma_filter_ids(records: Seq<TodoView>, pred: spec_fn(TodoView) -> bool)
    requires
        distinct_ids(records),
    ensures
        distinct_ids(records.filter(pred)),
        forall|id: Seq<char>| #[trigger]
            has_id(records.filter(pred), id) ==> has_id(records, id),
    decreases records.len(),
{
    reveal(Seq::filter);
    if records.len() > 0 {
        let front = records.drop_last();
        let last = records.last();
        let kept = records.filter(pred);
        let kept_front = front.filter(pred);
        assert(distinct_ids(front)) by {
            assert forall|a: int, b: int| 0 <= a < b < front.len() implies (#[trigger] front[a]).id
                != (#[trigger] front[b]).id by {
                assert(front[a] == records[a] && front[b] == records[b]);
            }
        }
        lemma_filter_ids(front, pred);
        // Whatever the front keeps stands in the front, and so before the last record.
        assert forall|id: Seq<char>| has_id(kept_front, id) implies has_id(records, id)
            && id != last.id by {
            assert(has_id(front, id));
            let f = index_of(front, id);
            assert(records[f] == front[f]);
            assert(records[f].id != records[records.len() - 1].id);
        }
        assert forall|id: Seq<char>| #[trigger] has_id(kept, id) implies has_id(records, id) by {
            let k = index_of(kept, id);
            if k < kept_front.len() {
                assert(kept_front[k].id == id);
            } else {
                assert(records[records.len() - 1].id == id);
            }
        }
        assert forall|a: int, b: int| 0 <= a < b < kept.len() implies (#[trigger] kept[a]).id != (
        #[trigger] kept[b]).id by {
            assert(kept[a] == kept_front[a]);
            if b < kept_front.len() {
                assert(kept[b] == kept_front[b]);
            } else {
                assert(has_id(kept_front, kept[a].id));
            }
        }
    }
}

/// Listing one record more appends the record where it passes.
pub proof fn lemma_filter_step(
    records: Seq<TodoView>,
    pred: spec_fn(TodoView) -> bool,
    i: int,
)
    requires
        0 <= i < records.len(),
    ensures
        records.take(i + 1).filter(pred) == if pred(records[i]) {
            records.take(i).filter(pred).push(records[i])
        } else {
            records.take(i).filter(pred)
        },
{
    reveal(Seq::filter);
    assert(records.take(i + 1).drop_last() == records.take(i));
}

/// A record that was stored is found under its identifier, and every other
/// identifier finds what it found before.
pub proof fn stored_record_is_found(records: Seq<TodoView>, todo: TodoView, other: Seq<char>)
    requires
        distinct_ids(records),
        other != todo.id,
    ensures
        find(put(records, todo), todo.id) == Some(todo),
        find(put(records, todo), other) == find(records, other),
{
    let after = put(records, todo);
    let place = if has_id(records, todo.id) {
        index_of(records, todo.id)
    } else {
        records.len() as int
    };
    if has_id(records, todo.id) {
        lemma_put_in_place(records, place, todo);
    } else {
        lemma_put_last(records, todo);
    }
    lemma_index_of(after, todo.id, place);
    if has_id(records, other) {
        let k = index_of(records, other);
        assert(after[k] == records[k]);
        lemma_index_of(after, other, k);
    } else if has_id(after, other) {
        let k = index_of(after, other);
        assert(after[k] == records[k]);
    }
}

/// Once a record is removed, its identifier finds nothing, and every other
/// identifier finds what it found before.
pub proof fn removed_record_is_gone(records: Seq<TodoView>, id: Seq<char>, other: Seq<char>)
    requires
        distinct_ids(records),
        other != id,
    ensures
        find(removed(records, id), id) is None,
        find(removed(records, id), other) == find(records, other),
{
    if has_id(records, id) {
        let i = index_of(records, id);
        lemma_removed(records, i);
        let after = records.remove(i);
        if has_id(records, other) {
            let k = index_of(records, other);
            let moved = if k < i { k } else { k - 1 };
            assert(after[moved] == records[k]);
            lemma_index_of(after, other, moved);
        } else if has_id(after, other) {
            let k = index_of(after, other);
            let origin = if k < i { k } else { k + 1 };
            assert(after[k] == records[origin]);
        }
    }
}

/// A request that names an identifier which no record has finds nothing and
/// removes nothing: reading, changing, toggling and deleting all answer that
/// there is no such record.
pub proof fn unknown_id_is_not_found(records: Seq<TodoView>, id: Seq<char>)
    requires
        !has_id(records, id),
    ensures
        find(records, id) is None,
        removed(records, id) == records,
{
}

/// Toggling a record twice brings its completion flag back to what it was:
/// the store is as before, except that the record notes the instant of the
/// second toggle as that of its last change.
pub proof fn toggle_twice_restores(
    records: Seq<TodoView>,
    id: Seq<char>,
    first: Timestamp,
    second: Timestamp,
)
    requires
        distinct_ids(records),
        has_id(records, id),
    ensures
        ({
            let before = find(records, id)->0;
            let once = put(records, toggled(before, first));
            let between = find(once, id)->0;
            let twice = put(once, toggled(between, second));
            &&& find(once, id) == Some(toggled(before, first))
            &&& between.completed == !before.completed
            &&& find(twice, id) == Some(TodoView { updated_at: second, ..before })
            &&& find(twice, id)->0.completed == before.completed
            &&& twice == records.update(
                index_of(records, id),
                TodoView { updated_at: second, ..before },
            )
        }),
{
    let i = index_of(records, id);
    let before = records[i];
    let once = put(records, toggled(before, first));
    lemma_put_in_place(records, i, toggled(before, first));
    lemma_index_of(once, id, i);
    let between = once[i];
    let twice = put(once, toggled(between, second));
    lemma_put_in_place(once, i, toggled(between, second));
    lemma_index_of(twice, id, i);
    assert(twice =~= records.update(i, TodoView { updated_at: second, ..before }));
}

/// Once the completed records are cleared, no listing shows a completed
/// record, whatever its criteria.
pub proof fn cleared_store_lists_no_completed(records: Seq<TodoView>, query: TodoQueryView)
    ensures
        forall|i: int|
            0 <= i < selected(records.filter(is_active()), query).len() ==> !(
            #[trigger] selected(records.filter(is_active()), query)[i]).completed,
{
    let cleared = records.filter(is_active());
    let pred = |todo: TodoView| passes(todo, query);
    let listed = cleared.filter(pred);
    assert forall|i: int| 0 <= i < listed.len() implies !(#[trigger] listed[i]).completed by {
        cleared.lemma_filter_contains_rev(pred, listed[i]);
        let k = choose|k: int| 0 <= k < cleared.len() && cleared[k] == listed[i];
        records.lemma_filter_pred(is_active(), k);
    }
}

/// A change or a toggle leaves a record its identifier and the instant of its
/// creation, and notes the instant of the change as that of the last one.
pub proof fn change_keeps_identity(todo: TodoView, change: TodoUpdateView, now: Timestamp)
    ensures
        revised(todo, change, now).id == todo.id,
        revised(todo, change, now).created_at == todo.created_at,
        revised(todo, change, now).updated_at == now,
        toggled(todo, now).id == todo.id,
        toggled(todo, now).created_at == todo.created_at,
        toggled(todo, now).updated_at == now,
{
}

} // verus!
