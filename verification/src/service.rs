//! The store: every todo record, found by its identifier.

use crate::clock;
use crate::ident::{self, ID_LEN};
use crate::models::{
    clone_opt_string, opt_chars, opt_view, views, Priority, Timestamp, Todo, TodoCreate, TodoQuery,
    TodoQueryView, TodoStats, TodoUpdate, TodoView,
};
use crate::query::{lowered, passes, selected};
use crate::records::{
    distinct_ids, find, has_id, index_of, lemma_filter_ids, lemma_filter_step, lemma_index_of,
    lemma_put_in_place, lemma_put_last, lemma_put_len, lemma_removed, new_record, put, removed,
    revised, seeded, toggled,
};
use crate::samples::{first_sample, sample_inputs, second_sample, third_sample};
use crate::stats::{describes, describes_some_day, is_active, summarize};
use crate::text::same_text;
use vstd::prelude::*;
use vstd::std_specs::iter::IteratorSpec;

verus! {

/// The todo records of one service, each under an identifier of its own.
pub struct TodoService {
    todos: Vec<Todo>,
}

impl View for TodoService {
    type V = Seq<TodoView>;

    /// The records in the order in which their identifiers were first seen.
    closed spec fn view(&self) -> Seq<TodoView> {
        views(self.todos@)
    }
}

impl TodoService {
    /// What holds of every store: no identifier stands twice in it.
    #[verifier::type_invariant]
    pub closed spec fn well_formed(self) -> bool {
        distinct_ids(views(self.todos@))
    }

    /// A store that holds the three samples, made for the present day and
    /// stored at the present instant under fresh identifiers.
    pub fn new() -> (service: TodoService)
        ensures
            exists|now: Timestamp, today: i32, a: Seq<char>, b: Seq<char>, c: Seq<char>|
                service@ == #[trigger] seeded(Seq::<TodoView>::empty(), now, today, a, b, c),
            service@.len() >= 1,
            distinct_ids(service@),
    {
        let mut service = TodoService::new_empty();
        service.load_sample_data();
        service
    }

    /// A store without records.
    pub fn new_empty() -> (service: TodoService)
        ensures
            service@ == Seq::<TodoView>::empty(),
            distinct_ids(service@),
    {
        TodoService { todos: Vec::new() }
    }

    /// Copies of the records that pass every criterion that is given, in the
    /// order of the store: `filter` narrows to open records when it is
    /// `"active"` and to finished ones when it is `"completed"`, `search`
    /// to records whose text holds it, whatever the case of either, and
    /// `priority` to records of the priority it names, in any case.
    pub fn get_all(
        &self,
        filter: Option<String>,
        search: Option<String>,
        priority: Option<String>,
    ) -> (listed: Vec<Todo>)
        ensures
            views(listed@) == selected(
                self@,
                (TodoQueryView {
                    filter: opt_chars(filter),
                    search: opt_chars(search),
                    priority: opt_chars(priority),
                }),
            ),
            distinct_ids(self@),
    {
        proof {
            use_type_invariant(self);
        }
        let query = TodoQuery { filter, search, priority };
        let ghost asked = query@;
        let ghost pred = |todo: TodoView| passes(todo, asked);
        let criteria = query.lowered();
        let mut listed: Vec<Todo> = Vec::new();
        let n = self.todos.len();
        let mut i: usize = 0;
        assert(self@.take(0).filter(pred) =~= Seq::<TodoView>::empty()) by {
            reveal(Seq::filter);
        }
        while i < n
            invariant
                i <= n,
                n == self.todos.len(),
                criteria@ == lowered(asked),
                pred == (|todo: TodoView| passes(todo, asked)),
                views(listed@) == self@.take(i as int).filter(pred),
            decreases n - i,
        {
            let todo = &self.todos[i];
            proof {
                lemma_filter_step(self@, pred, i as int);
            }
            if criteria.lists(todo) {
                listed.push(todo.clone());
            }
            i += 1;
        }
        assert(self@.take(n as int) == self@);
        listed
    }

    /// A copy of the record with the identifier, if there is one.
    pub fn get_by_id(&self, id: &str) -> (found: Option<Todo>)
        ensures
            opt_view(found) == find(self@, id@),
            found is Some <==> has_id(self@, id@),
            distinct_ids(self@),
    {
        proof {
            use_type_invariant(self);
        }
        match self.position(id) {
            Some(i) => Some(self.todos[i].clone()),
            None => None,
        }
    }

    /// Creates a record from what the caller supplied, under a fresh random
    /// identifier and with the present instant as that of its creation and
    /// of its last change, stores it and returns a copy. The identifier is
    /// never empty, and a priority that was not given is medium.
    pub fn create(&mut self, input: TodoCreate) -> (todo: Todo)
        ensures
            todo@ == new_record(input@, todo@.id, todo@.created_at),
            todo@.id.len() == ID_LEN,
            todo@.id.len() > 0,
            input@.priority is None ==> todo@.priority == Priority::Medium,
            final(self)@ == put(old(self)@, todo@),
            distinct_ids(final(self)@),
    {
        let now = clock::read().instant;
        let id = ident::fresh_id();
        self.create_with(input, id, now)
    }

    /// Creates a record from what the caller supplied, under the identifier
    /// `id` and with `now` as the instant of its creation and of its last
    /// change, stores it and returns a copy. A record that had the same
    /// identifier gives way to the new one.
    pub fn create_with(&mut self, input: TodoCreate, id: String, now: Timestamp) -> (todo: Todo)
        ensures
            todo@ == new_record(input@, id@, now),
            final(self)@ == put(old(self)@, todo@),
            distinct_ids(final(self)@),
    {
        let todo = Todo {
            id,
            text: input.text,
            priority: match input.priority {
                Some(priority) => priority,
                None => Priority::default(),
            },
            completed: match input.completed {
                Some(completed) => completed,
                None => false,
            },
            due_date: input.due_date,
            reminder_time: input.reminder_time,
            created_at: now,
            updated_at: now,
        };
        self.store(todo)
    }

    /// Changes the record with the identifier as `update_at` does, at the
    /// present instant.
    pub fn update(&mut self, id: &str, change: TodoUpdate) -> (changed: Option<Todo>)
        ensures
            match find(old(self)@, id@) {
                Some(todo) => {
                    &&& changed matches Some(after)
                    &&& after@ == revised(todo, change@, after@.updated_at)
                    &&& final(self)@ == put(old(self)@, after@)
                },
                None => changed is None && final(self)@ == old(self)@,
            },
            changed is Some <==> has_id(old(self)@, id@),
            distinct_ids(final(self)@),
    {
        let now = clock::read().instant;
        self.update_at(id, change, now)
    }

    /// Changes the record with the identifier: each field that `change`
    /// holds replaces the record's, the others stay, and `now` is noted as
    /// the instant of the last change. Returns a copy of the record as it
    /// then is, or `None`, with the store unchanged, where no record has the
    /// identifier.
    pub fn update_at(
        &mut self,
        id: &str,
        change: TodoUpdate,
        now: Timestamp,
    ) -> (changed: Option<Todo>)
        ensures
            match find(old(self)@, id@) {
                Some(todo) => {
                    &&& opt_view(changed) == Some(revised(todo, change@, now))
                    &&& final(self)@ == put(old(self)@, revised(todo, change@, now))
                },
                None => changed is None && final(self)@ == old(self)@,
            },
            changed is Some <==> has_id(old(self)@, id@),
            distinct_ids(final(self)@),
    {
        proof {
            use_type_invariant(&*self);
        }
        match self.position(id) {
            Some(i) => {
                let old = &self.todos[i];
                let todo = Todo {
                    id: old.id.clone(),
                    text: match change.text {
                        Some(text) => text,
                        None => old.text.clone(),
                    },
                    priority: match change.priority {
                        Some(priority) => priority,
                        None => old.priority,
                    },
                    completed: match change.completed {
                        Some(completed) => completed,
                        None => old.completed,
                    },
                    due_date: match change.due_date {
                        Some(due_date) => Some(due_date),
                        None => clone_opt_string(&old.due_date),
                    },
                    reminder_time: match change.reminder_time {
                        Some(reminder_time) => Some(reminder_time),
                        None => clone_opt_string(&old.reminder_time),
                    },
                    created_at: old.created_at,
                    updated_at: now,
                };
                Some(self.store(todo))
            },
            None => None,
        }
    }

    /// Removes the record with the identifier and tells whether there was one.
    pub fn delete(&mut self, id: &str) -> (existed: bool)
        ensures
            existed == has_id(old(self)@, id@),
            final(self)@ == removed(old(self)@, id@),
            !has_id(final(self)@, id@),
            distinct_ids(final(self)@),
    {
        proof {
            use_type_invariant(&*self);
        }
        let ghost before = self@;
        match self.position(id) {
            Some(i) => {
                let mut todos = self.take_all();
                proof {
                    lemma_removed(before, i as int);
                    assert(views(todos@.remove(i as int)) =~= before.remove(i as int));
                }
                todos.remove(i);
                self.put_all(todos);
                true
            },
            None => false,
        }
    }

    /// Flips the completion flag of the record with the identifier as
    /// `toggle_at` does, at the present instant.
    pub fn toggle(&mut self, id: &str) -> (changed: Option<Todo>)
        ensures
            match find(old(self)@, id@) {
                Some(todo) => {
                    &&& changed matches Some(after)
                    &&& after@ == toggled(todo, after@.updated_at)
                    &&& final(self)@ == put(old(self)@, after@)
                },
                None => changed is None && final(self)@ == old(self)@,
            },
            changed is Some <==> has_id(old(self)@, id@),
            distinct_ids(final(self)@),
    {
        let now = clock::read().instant;
        self.toggle_at(id, now)
    }

    /// Flips the completion flag of the record with the identifier and notes
    /// `now` as the instant of its last change. Returns a copy of the record
    /// as it then is, or `None`, with the store unchanged, where no record
    /// has the identifier.
    pub fn toggle_at(&mut self, id: &str, now: Timestamp) -> (changed: Option<Todo>)
        ensures
            match find(old(self)@, id@) {
                Some(todo) => {
                    &&& opt_view(changed) == Some(toggled(todo, now))
                    &&& final(self)@ == put(old(self)@, toggled(todo, now))
                },
                None => changed is None && final(self)@ == old(self)@,
            },
            changed is Some <==> has_id(old(self)@, id@),
            distinct_ids(final(self)@),
    {
        proof {
            use_type_invariant(&*self);
        }
        match self.position(id) {
            Some(i) => {
                let old = &self.todos[i];
                let todo = Todo {
                    id: old.id.clone(),
                    text: old.text.clone(),
                    priority: old.priority,
                    completed: !old.completed,
                    due_date: clone_opt_string(&old.due_date),
                    reminder_time: clone_opt_string(&old.reminder_time),
                    created_at: old.created_at,
                    updated_at: now,
                };
                Some(self.store(todo))
            },
            None => None,
        }
    }

    /// The figures of the store on the present day.
    pub fn get_stats(&self) -> (stats: TodoStats)
        ensures
            describes_some_day(stats, self@),
            stats.active + stats.completed == stats.total,
    {
        let today = clock::read().day;
        let stats = self.stats_on(today);
        assert(describes(stats, self@, today as int));
        stats
    }

    /// The figures of the store on the given day, counted in days since
    /// 1 January 1970.
    pub fn stats_on(&self, today: i32) -> (stats: TodoStats)
        ensures
            describes(stats, self@, today as int),
            stats.active + stats.completed == stats.total,
    {
        summarize(&self.todos, today)
    }

    /// Removes every record that is done. The others stay in their order.
    pub fn clear_completed(&mut self)
        ensures
            final(self)@ == old(self)@.filter(is_active()),
            forall|i: int| 0 <= i < final(self)@.len() ==> !(#[trigger] final(self)@[i]).completed,
            distinct_ids(final(self)@),
    {
        proof {
            use_type_invariant(&*self);
        }
        let ghost before = self@;
        let todos = self.take_all();
        let ghost all = todos@;
        let mut kept: Vec<Todo> = Vec::new();
        assert(before.take(0).filter(is_active()) =~= Seq::<TodoView>::empty()) by {
            reveal(Seq::filter);
        }
        let iter = todos.into_iter();
        for todo in it: iter
            invariant
                it.seq() == all,
                before == views(all),
                views(kept@) == before.take(it.index() as int).filter(is_active()),
        {
            proof {
                lemma_filter_step(before, is_active(), it.index() as int);
            }
            if !todo.completed {
                kept.push(todo);
            }
        }
        proof {
            assert(before.take(before.len() as int) == before);
            lemma_filter_ids(before, is_active());
            assert forall|i: int| 0 <= i < before.filter(is_active()).len() implies !(
            #[trigger] before.filter(is_active())[i]).completed by {
                before.lemma_filter_pred(is_active(), i);
            }
        }
        self.put_all(kept);
    }

    /// Stores the three samples for the given day at the instant `now`,
    /// under the three identifiers.
    pub fn seed_with(&mut self, now: Timestamp, today: i32, a: String, b: String, c: String)
        ensures
            final(self)@ == seeded(old(self)@, now, today, a@, b@, c@),
            distinct_ids(final(self)@),
    {
        let (first, second, third) = sample_inputs(today);
        self.create_with(first, a, now);
        self.create_with(second, b, now);
        self.create_with(third, c, now);
    }

    /// Stores the three samples for the present day, at the present instant
    /// and under fresh identifiers.
    fn load_sample_data(&mut self)
        ensures
            exists|now: Timestamp, today: i32, a: Seq<char>, b: Seq<char>, c: Seq<char>|
                final(self)@ == #[trigger] seeded(old(self)@, now, today, a, b, c),
            final(self)@.len() >= 1,
            distinct_ids(final(self)@),
    {
        let ghost before = self@;
        let reading = clock::read();
        let a = ident::fresh_id();
        let b = ident::fresh_id();
        let c = ident::fresh_id();
        proof {
            let two = put(
                put(before, new_record(first_sample(reading.day), a@, reading.instant)),
                new_record(second_sample(reading.day), b@, reading.instant),
            );
            lemma_put_len(two, new_record(third_sample(reading.day), c@, reading.instant));
        }
        self.seed_with(reading.instant, reading.day, a, b, c);
        assert(self@ == seeded(before, reading.instant, reading.day, a@, b@, c@));
    }

    /// The place of the record with the identifier.
    fn position(&self, id: &str) -> (place: Option<usize>)
        ensures
            match place {
                Some(i) => {
                    &&& i < self.todos.len()
                    &&& self.todos[i as int]@.id == id@
                    &&& has_id(self@, id@)
                    &&& index_of(self@, id@) == i
                },
                None => !has_id(self@, id@),
            },
    {
        proof {
            use_type_invariant(self);
        }
        let n = self.todos.len();
        let mut i: usize = 0;
        while i < n
            invariant
                i <= n,
                n == self.todos.len(),
                distinct_ids(self@),
                forall|k: int| 0 <= k < i ==> (#[trigger] self@[k]).id != id@,
            decreases n - i,
        {
            if same_text(self.todos[i].id.as_str(), id) {
                proof {
                    lemma_index_of(self@, id@, i as int);
                }
                return Some(i);
            }
            i += 1;
        }
        None
    }

    /// Stores `todo`, in the place of the record that has its identifier or
    /// last where none has, and hands back a copy of it.
    fn store(&mut self, todo: Todo) -> (copy: Todo)
        ensures
            copy@ == todo@,
            final(self)@ == put(old(self)@, todo@),
            distinct_ids(final(self)@),
    {
        proof {
            use_type_invariant(&*self);
        }
        let ghost before = self@;
        let copy = todo.clone();
        let place = self.position(todo.id.as_str());
        let mut todos = self.take_all();
        match place {
            Some(i) => {
                proof {
                    lemma_put_in_place(before, i as int, todo@);
                    assert(views(todos@.update(i as int, todo)) =~= before.update(i as int, todo@));
                }
                todos.set(i, todo);
            },
            None => {
                proof {
                    lemma_put_last(before, todo@);
                    assert(views(todos@.push(todo)) =~= before.push(todo@));
                }
                todos.push(todo);
            },
        }
        self.put_all(todos);
        copy
    }

    /// Takes every record out of the store and leaves it empty. A field of
    /// the store is only ever changed as a whole, so that no identifier
    /// stands twice in it at any moment.
    fn take_all(&mut self) -> (todos: Vec<Todo>)
        ensures
            todos == old(self).todos,
            final(self).todos@.len() == 0,
    {
        let mut todos: Vec<Todo> = Vec::new();
        core::mem::swap(&mut self.todos, &mut todos);
        todos
    }

    /// Makes `todos` the records of the store.
    fn put_all(&mut self, todos: Vec<Todo>)
        requires
            distinct_ids(views(todos@)),
        ensures
            final(self).todos == todos,
    {
        let mut todos = todos;
        core::mem::swap(&mut self.todos, &mut todos);
    }
}

} // verus!
