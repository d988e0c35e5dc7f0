//! The records the store keeps and the values that go in and out of it.

use vstd::prelude::*;

verus! {

/// How urgent a todo is.
#[derive(Debug, Clone, Copy, PartialEq, Eq, Structural)]
pub enum Priority {
    Low,
    Medium,
    High,
}

impl Default for Priority {
    /// A todo whose priority was not given is of medium priority.
    fn default() -> (p: Priority)
        ensures
            p == Priority::Medium,
    {
        Priority::Medium
    }
}

impl Priority {
    /// The lower-case name under which a priority is written and searched for.
    pub open spec fn name_spec(self) -> Seq<char> {
        match self {
            Priority::Low => "low"@,
            Priority::Medium => "medium"@,
            Priority::High => "high"@,
        }
    }

    /// The lower-case name of the priority: `"low"`, `"medium"` or `"high"`.
    pub fn name(&self) -> (s: &'static str)
        ensures
            s@ == self.name_spec(),
    {
        match self {
            Priority::Low => "low",
            Priority::Medium => "medium",
            Priority::High => "high",
        }
    }
}

/// An instant on the UTC time line: whole seconds since the Unix epoch and
/// the nanoseconds past that second.
#[derive(Debug, Clone, Copy, PartialEq, Eq, Structural)]
pub struct Timestamp {
    pub secs: i64,
    pub nanos: u32,
}

/// The view of an optional string: the characters it holds, if any.
pub open spec fn opt_chars(s: Option<String>) -> Option<Seq<char>> {
    match s {
        Some(s) => Some(s@),
        None => None,
    }
}

/// A todo record as the contracts see it.
pub struct TodoView {
    pub id: Seq<char>,
    pub text: Seq<char>,
    pub priority: Priority,
    pub completed: bool,
    pub due_date: Option<Seq<char>>,
    pub reminder_time: Option<Seq<char>>,
    pub created_at: Timestamp,
    pub updated_at: Timestamp,
}

/// A single task: its text, its priority, whether it is done, and when it is
/// due, was created and was last changed.
#[derive(Debug)]
pub struct Todo {
    pub id: String,
    pub text: String,
    pub priority: Priority,
    pub completed: bool,
    pub due_date: Option<String>,
    pub reminder_time: Option<String>,
    pub created_at: Timestamp,
    pub updated_at: Timestamp,
}

impl View for Todo {
    type V = TodoView;

    open spec fn view(&self) -> TodoView {
        TodoView {
            id: self.id@,
            text: self.text@,
            priority: self.priority,
            completed: self.completed,
            due_date: opt_chars(self.due_date),
            reminder_time: opt_chars(self.reminder_time),
            created_at: self.created_at,
            updated_at: self.updated_at,
        }
    }
}

/// A copy of an optional string.
pub fn clone_opt_string(s: &Option<String>) -> (r: Option<String>)
    ensures
        r == *s,
{
    match s {
        Some(s) => Some(s.clone()),
        None => None,
    }
}

impl Clone for Todo {
    fn clone(&self) -> (r: Todo)
        ensures
            r == *self,
    {
        Todo {
            id: self.id.clone(),
            text: self.text.clone(),
            priority: self.priority,
            completed: self.completed,
            due_date: clone_opt_string(&self.due_date),
            reminder_time: clone_opt_string(&self.reminder_time),
            created_at: self.created_at,
            updated_at: self.updated_at,
        }
    }
}

/// The views of a run of records, in the same order.
pub open spec fn views(todos: Seq<Todo>) -> Seq<TodoView> {
    todos.map_values(|todo: Todo| todo@)
}

/// The view of a record that may be absent.
pub open spec fn opt_view(todo: Option<Todo>) -> Option<TodoView> {
    match todo {
        Some(todo) => Some(todo@),
        None => None,
    }
}

/// What a caller supplies to create a todo, as the contracts see it.
pub struct TodoCreateView {
    pub text: Seq<char>,
    pub priority: Option<Priority>,
    pub completed: Option<bool>,
    pub due_date: Option<Seq<char>>,
    pub reminder_time: Option<Seq<char>>,
}

/// What a caller supplies to create a todo. Only the text is mandatory.
#[derive(Debug)]
pub struct TodoCreate {
    pub text: String,
    pub priority: Option<Priority>,
    pub completed: Option<bool>,
    pub due_date: Option<String>,
    pub reminder_time: Option<String>,
}

impl View for TodoCreate {
    type V = TodoCreateView;

    open spec fn view(&self) -> TodoCreateView {
        TodoCreateView {
            text: self.text@,
            priority: self.priority,
            completed: self.completed,
            due_date: opt_chars(self.due_date),
            reminder_time: opt_chars(self.reminder_time),
        }
    }
}

/// A partial change to a todo, as the contracts see it.
pub struct TodoUpdateView {
    pub text: Option<Seq<char>>,
    pub priority: Option<Priority>,
    pub completed: Option<bool>,
    pub due_date: Option<Seq<char>>,
    pub reminder_time: Option<Seq<char>>,
}

/// A partial change to a todo: a field that is `None` is left as it is.
#[derive(Debug)]
pub struct TodoUpdate {
    pub text: Option<String>,
    pub priority: Option<Priority>,
    pub completed: Option<bool>,
    pub due_date: Option<String>,
    pub reminder_time: Option<String>,
}

impl View for TodoUpdate {
    type V = TodoUpdateView;

    open spec fn view(&self) -> TodoUpdateView {
        TodoUpdateView {
            text: opt_chars(self.text),
            priority: self.priority,
            completed: self.completed,
            due_date: opt_chars(self.due_date),
            reminder_time: opt_chars(self.reminder_time),
        }
    }
}

/// The criteria of a listing, as the contracts see them.
pub struct TodoQueryView {
    pub filter: Option<Seq<char>>,
    pub search: Option<Seq<char>>,
    pub priority: Option<Seq<char>>,
}

/// The optional criteria by which a listing is narrowed.
#[derive(Debug)]
pub struct TodoQuery {
    pub filter: Option<String>,
    pub search: Option<String>,
    pub priority: Option<String>,
}

impl View for TodoQuery {
    type V = TodoQueryView;

    open spec fn view(&self) -> TodoQueryView {
        TodoQueryView {
            filter: opt_chars(self.filter),
            search: opt_chars(self.search),
            priority: opt_chars(self.priority),
        }
    }
}

/// How many records there are of each priority.
#[derive(Debug, Clone, Copy, PartialEq, Eq, Structural)]
pub struct PriorityBreakdown {
    pub low: usize,
    pub medium: usize,
    pub high: usize,
}

/// Figures over every record of the store, taken on one day.
#[derive(Debug, Clone, Copy, PartialEq, Eq, Structural)]
pub struct TodoStats {
    pub total: usize,
    pub active: usize,
    pub completed: usize,
    /// The share of completed records in hundredths of a percent, rounded
    /// down; 0 where there is no record.
    pub completion_rate_bp: u32,
    pub priority_breakdown: PriorityBreakdown,
    pub overdue_count: usize,
    pub due_today_count: usize,
    pub upcoming_count: usize,
}

} // verus!
