//! The criteria by which a listing is narrowed: completion status, a search
//! text and a priority. A record is listed when it passes every criterion
//! that was given.

use crate::models::{opt_chars, Priority, Todo, TodoQuery, TodoQueryView, TodoView};
use crate::text::{contains, is_substring, lowercase, same_text};
use vstd::prelude::*;

verus! {

/// The status criterion: `"active"` lets only open records pass,
/// `"completed"` only finished ones, and any other word every record.
pub open spec fn status_ok(filter: Option<Seq<char>>, completed: bool) -> bool {
    match filter {
        Some(word) => if word == "active"@ {
            !completed
        } else if word == "completed"@ {
            completed
        } else {
            true
        },
        None => true,
    }
}

/// The search criterion on lower-cased texts: the needle stands in the text.
pub open spec fn needle_ok(needle: Option<Seq<char>>, text: Seq<char>) -> bool {
    match needle {
        Some(needle) => is_substring(needle, text),
        None => true,
    }
}

/// The priority criterion on a lower-cased name: it is the priority's name.
pub open spec fn name_ok(name: Option<Seq<char>>, priority: Priority) -> bool {
    match name {
        Some(name) => name == priority.name_spec(),
        None => true,
    }
}

/// Whether a record passes criteria whose search text and priority name are
/// already in lower case, given the record's own text in lower case.
pub open spec fn admits(
    lowered: TodoQueryView,
    completed: bool,
    priority: Priority,
    text_lower: Seq<char>,
) -> bool {
    &&& status_ok(lowered.filter, completed)
    &&& needle_ok(lowered.search, text_lower)
    &&& name_ok(lowered.priority, priority)
}

/// A text in lower case, where there is one.
pub open spec fn lowercase_opt(text: Option<Seq<char>>) -> Option<Seq<char>> {
    match text {
        Some(text) => Some(lowercase(text)),
        None => None,
    }
}

/// The criteria with the search text and the priority name in lower case.
/// The status word is taken as it is written.
pub open spec fn lowered(query: TodoQueryView) -> TodoQueryView {
    TodoQueryView {
        filter: query.filter,
        search: lowercase_opt(query.search),
        priority: lowercase_opt(query.priority),
    }
}

/// Whether a record is listed under the criteria: search and priority are
/// matched without regard to case.
pub open spec fn passes(todo: TodoView, query: TodoQueryView) -> bool {
    admits(lowered(query), todo.completed, todo.priority, lowercase(todo.text))
}

/// The records that are listed under the criteria, in the order they had.
pub open spec fn selected(records: Seq<TodoView>, query: TodoQueryView) -> Seq<TodoView> {
    records.filter(|todo: TodoView| passes(todo, query))
}

/// The criteria that narrow nothing.
pub open spec fn no_criteria() -> TodoQueryView {
    TodoQueryView { filter: None, search: None, priority: None }
}

/// A listing without criteria shows every record.
pub proof fn listing_without_criteria_is_everything(records: Seq<TodoView>)
    ensures
        selected(records, no_criteria()) == records,
    decreases records.len(),
{
    reveal(Seq::filter);
    if records.len() > 0 {
        listing_without_criteria_is_everything(records.drop_last());
        assert(records.drop_last().push(records.last()) == records);
    }
}

/// Criteria combine by intersection: a record is listed under several
/// criteria exactly when it is listed under each of them alone.
pub proof fn criteria_intersect(todo: TodoView, query: TodoQueryView)
    ensures
        passes(todo, query) <==> {
            &&& passes(todo, TodoQueryView { filter: query.filter, ..no_criteria() })
            &&& passes(todo, TodoQueryView { search: query.search, ..no_criteria() })
            &&& passes(todo, TodoQueryView { priority: query.priority, ..no_criteria() })
        },
{
}

/// A text in lower case, where there is one.
fn lowercase_of(text: &Option<String>) -> (lower: Option<String>)
    ensures
        opt_chars(lower) == lowercase_opt(opt_chars(*text)),
{
    match text {
        Some(text) => Some(text.as_str().to_lowercase()),
        None => None,
    }
}

impl TodoQuery {
    /// The same criteria with the search text and the priority name in lower case.
    pub fn lowered(self) -> (l: TodoQuery)
        ensures
            l@ == lowered(self@),
    {
        let search = lowercase_of(&self.search);
        let priority = lowercase_of(&self.priority);
        TodoQuery { filter: self.filter, search, priority }
    }

    /// Decides whether a record passes these criteria from its completion
    /// flag, its priority and its text. Words are compared as they are
    /// written: where case is to be disregarded, the criteria and the text
    /// are handed in in lower case.
    pub fn admits(&self, completed: bool, priority: Priority, text_lower: &str) -> (ok: bool)
        ensures
            ok == admits(self@, completed, priority, text_lower@),
    {
        let status = match &self.filter {
            Some(word) => if same_text(word.as_str(), "active") {
                !completed
            } else if same_text(word.as_str(), "completed") {
                completed
            } else {
                true
            },
            None => true,
        };
        if !status {
            return false;
        }
        let named = match &self.priority {
            Some(name) => same_text(name.as_str(), priority.name()),
            None => true,
        };
        if !named {
            return false;
        }
        match &self.search {
            Some(needle) => contains(text_lower, needle.as_str()),
            None => true,
        }
    }

    /// Decides whether a record is listed under these criteria, which are
    /// taken to be in lower case already: the text of the record is put in
    /// lower case before it is searched.
    pub fn lists(&self, todo: &Todo) -> (ok: bool)
        ensures
            ok == admits(self@, todo@.completed, todo@.priority, lowercase(todo@.text)),
    {
        if self.search.is_some() {
            let text_lower = todo.text.as_str().to_lowercase();
            self.admits(todo.completed, todo.priority, text_lower.as_str())
        } else {
            self.admits(todo.completed, todo.priority, "")
        }
    }
}

} // verus!
