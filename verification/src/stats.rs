//! Figures over the records of the store: how many there are, how many are
//! done, how many of each priority, and how many open ones fall due when.

use crate::clock::{parse_day, parsed_day};
use crate::models::{views, Priority, PriorityBreakdown, Todo, TodoStats, TodoView};
use crate::text::same_text;
use vstd::prelude::*;

verus! {

/// Where the due date of an open record lies with respect to today.
#[derive(Debug, Clone, Copy, PartialEq, Eq, Structural)]
pub enum DueBucket {
    /// Due before today.
    Overdue,
    /// Due today.
    DueToday,
    /// Due after today and no later than seven days from today.
    Upcoming,
}

/// The day a due date names, in days since 1 January 1970, where the text is
/// a calendar date written as year, month and day.
pub open spec fn due_day(text: Seq<char>) -> Option<i32> {
    parsed_day(text, "%Y-%m-%d"@)
}

/// The bucket of a due day; a day more than seven days ahead has none.
pub open spec fn bucket_of(due: int, today: int) -> Option<DueBucket> {
    if due < today {
        Some(DueBucket::Overdue)
    } else if due == today {
        Some(DueBucket::DueToday)
    } else if due <= today + 7 {
        Some(DueBucket::Upcoming)
    } else {
        None
    }
}

/// The bucket of a record, from its completion flag and the day its due date
/// names: a completed record, or one whose due date names no day, has none.
pub open spec fn record_bucket(completed: bool, due: Option<i32>, today: int) -> Option<DueBucket> {
    match due {
        Some(due) => if completed {
            None
        } else {
            bucket_of(due as int, today)
        },
        None => None,
    }
}

/// The day that the due date of a record names, if it has one that names a day.
pub open spec fn due_day_of(todo: TodoView) -> Option<i32> {
    match todo.due_date {
        Some(text) => due_day(text),
        None => None,
    }
}

/// The bucket of a record on a given day.
pub open spec fn due_bucket(todo: TodoView, today: int) -> Option<DueBucket> {
    record_bucket(todo.completed, due_day_of(todo), today)
}

/// Decides the bucket of a due day with respect to today.
pub fn classify(due: i32, today: i32) -> (bucket: Option<DueBucket>)
    ensures
        bucket == bucket_of(due as int, today as int),
{
    if due < today {
        Some(DueBucket::Overdue)
    } else if due == today {
        Some(DueBucket::DueToday)
    } else if due as i64 <= today as i64 + 7 {
        Some(DueBucket::Upcoming)
    } else {
        None
    }
}

/// Decides the bucket of a record from its completion flag and the day that
/// its due date names.
pub fn classify_record(completed: bool, due: Option<i32>, today: i32) -> (bucket: Option<DueBucket>)
    ensures
        bucket == record_bucket(completed, due, today as int),
{
    match due {
        Some(due) => if completed {
            None
        } else {
            classify(due, today)
        },
        None => None,
    }
}

/// Reads the day that the due date of a record names.
pub fn read_due_day(todo: &Todo) -> (day: Option<i32>)
    ensures
        day == due_day_of(todo@),
{
    match &todo.due_date {
        Some(text) => parse_day(text.as_str(), "%Y-%m-%d"),
        None => None,
    }
}

/// The records that are not done.
pub open spec fn is_active() -> spec_fn(TodoView) -> bool {
    |todo: TodoView| !todo.completed
}

/// The records that are done.
pub open spec fn is_completed() -> spec_fn(TodoView) -> bool {
    |todo: TodoView| todo.completed
}

/// The records of one priority.
pub open spec fn has_priority(priority: Priority) -> spec_fn(TodoView) -> bool {
    |todo: TodoView| todo.priority == priority
}

/// The records that fall in one bucket on a given day.
pub open spec fn falls_in(bucket: DueBucket, today: int) -> spec_fn(TodoView) -> bool {
    |todo: TodoView| due_bucket(todo, today) == Some(bucket)
}

/// How many of the records meet a condition.
pub open spec fn count(records: Seq<TodoView>, pred: spec_fn(TodoView) -> bool) -> nat {
    records.filter(pred).len()
}

/// The share of `completed` in `total` in hundredths of a percent, rounded
/// down; 0 where `total` is 0.
pub open spec fn rate_bp(completed: int, total: int) -> int {
    if total == 0 {
        0
    } else {
        completed * 10000 / total
    }
}

/// What the figures must be for the given records on the given day.
pub open spec fn describes(stats: TodoStats, records: Seq<TodoView>, today: int) -> bool {
    &&& stats.total == records.len()
    &&& stats.completed == count(records, is_completed())
    &&& stats.active == stats.total - stats.completed
    &&& stats.completion_rate_bp == rate_bp(stats.completed as int, stats.total as int)
    &&& stats.priority_breakdown.low == count(records, has_priority(Priority::Low))
    &&& stats.priority_breakdown.medium == count(records, has_priority(Priority::Medium))
    &&& stats.priority_breakdown.high == count(records, has_priority(Priority::High))
    &&& stats.overdue_count == count(records, falls_in(DueBucket::Overdue, today))
    &&& stats.due_today_count == count(records, falls_in(DueBucket::DueToday, today))
    &&& stats.upcoming_count == count(records, falls_in(DueBucket::Upcoming, today))
}

/// What the figures must be for the given records, on whichever day they
/// were taken.
pub open spec fn describes_some_day(stats: TodoStats, records: Seq<TodoView>) -> bool {
    exists|today: i32| #[trigger] describes(stats, records, today as int)
}

/// Counting one record more adds one where the record meets the condition.
pub proof fn lemma_count_step(records: Seq<TodoView>, pred: spec_fn(TodoView) -> bool, i: int)
    requires
        0 <= i < records.len(),
    ensures
        count(records.take(i + 1), pred) == count(records.take(i), pred) + if pred(records[i]) {
            1nat
        } else {
            0nat
        },
        count(records.take(i + 1), pred) <= i + 1,
{
    reveal(Seq::filter);
    assert(records.take(i + 1).drop_last() == records.take(i));
    records.take(i).lemma_filter_len(pred);
}

/// Every record is either open or done: the open and the completed records
/// together are all the records.
pub proof fn lemma_active_or_completed(records: Seq<TodoView>)
    ensures
        count(records, is_active()) + count(records, is_completed()) == records.len(),
    decreases records.len(),
{
    reveal(Seq::filter);
    if records.len() > 0 {
        lemma_active_or_completed(records.drop_last());
    }
}

/// In the figures of a store, the open and the completed records add up to
/// the total, and the open ones are those that are not done.
pub proof fn active_and_completed_make_total(stats: TodoStats, records: Seq<TodoView>, today: int)
    requires
        describes(stats, records, today),
    ensures
        stats.active + stats.completed == stats.total,
        stats.active == count(records, is_active()),
{
    lemma_active_or_completed(records);
}

/// Computes the share of `completed` in `total` in hundredths of a percent.
fn completion_rate_bp(completed: usize, total: usize) -> (bp: u32)
    requires
        completed <= total,
    ensures
        bp == rate_bp(completed as int, total as int),
{
    if total == 0 {
        0
    } else {
        let scaled: u128 = completed as u128 * 10000;
        let bp: u128 = scaled / (total as u128);
        assert(bp <= 10000) by (nonlinear_arith)
            requires
                bp == (completed * 10000) / (total as int),
                0 <= completed <= total,
                total > 0,
        ;
        bp as u32
    }
}

/// Takes the figures of a run of records on the given day.
pub fn summarize(todos: &Vec<Todo>, today: i32) -> (stats: TodoStats)
    ensures
        describes(stats, views(todos@), today as int),
        stats.active + stats.completed == stats.total,
{
    let ghost records = views(todos@);
    let ghost day = today as int;
    let total = todos.len();
    let mut completed: usize = 0;
    let mut low: usize = 0;
    let mut medium: usize = 0;
    let mut high: usize = 0;
    let mut overdue: usize = 0;
    let mut due_today: usize = 0;
    let mut upcoming: usize = 0;
    let mut i: usize = 0;
    while i < total
        invariant
            i <= total,
            total == todos.len(),
            records == views(todos@),
            day == today as int,
            completed == count(records.take(i as int), is_completed()),
            low == count(records.take(i as int), has_priority(Priority::Low)),
            medium == count(records.take(i as int), has_priority(Priority::Medium)),
            high == count(records.take(i as int), has_priority(Priority::High)),
            overdue == count(records.take(i as int), falls_in(DueBucket::Overdue, day)),
            due_today == count(records.take(i as int), falls_in(DueBucket::DueToday, day)),
            upcoming == count(records.take(i as int), falls_in(DueBucket::Upcoming, day)),
        decreases total - i,
    {
        let todo = &todos[i];
        proof {
            lemma_count_step(records, is_completed(), i as int);
            lemma_count_step(records, has_priority(Priority::Low), i as int);
            lemma_count_step(records, has_priority(Priority::Medium), i as int);
            lemma_count_step(records, has_priority(Priority::High), i as int);
            lemma_count_step(records, falls_in(DueBucket::Overdue, day), i as int);
            lemma_count_step(records, falls_in(DueBucket::DueToday, day), i as int);
            lemma_count_step(records, falls_in(DueBucket::Upcoming, day), i as int);
        }
        if todo.completed {
            completed += 1;
        }
        match todo.priority {
            Priority::Low => {
                low += 1;
            },
            Priority::Medium => {
                medium += 1;
            },
            Priority::High => {
                high += 1;
            },
        }
        let due = if todo.completed {
            None
        } else {
            read_due_day(todo)
        };
        match classify_record(todo.completed, due, today) {
            Some(DueBucket::Overdue) => {
                overdue += 1;
            },
            Some(DueBucket::DueToday) => {
                due_today += 1;
            },
            Some(DueBucket::Upcoming) => {
                upcoming += 1;
            },
            None => {},
        }
        i += 1;
    }
    proof {
        assert(records.take(total as int) == records);
        records.lemma_filter_len(is_completed());
    }
    TodoStats {
        total,
        active: total - completed,
        completed,
        completion_rate_bp: completion_rate_bp(completed, total),
        priority_breakdown: PriorityBreakdown { low, medium, high },
        overdue_count: overdue,
        due_today_count: due_today,
        upcoming_count: upcoming,
    }
}

impl PriorityBreakdown {
    /// The count that stands under a priority's lower-case name; every
    /// priority has one, and no other word has.
    pub open spec fn entry(self, name: Seq<char>) -> Option<usize> {
        if name == "low"@ {
            Some(self.low)
        } else if name == "medium"@ {
            Some(self.medium)
        } else if name == "high"@ {
            Some(self.high)
        } else {
            None
        }
    }

    /// Looks a count up by the lower-case name of its priority.
    pub fn get(&self, name: &str) -> (found: Option<&usize>)
        ensures
            match found {
                Some(n) => self.entry(name@) == Some(*n),
                None => self.entry(name@) is None,
            },
    {
        if same_text(name, "low") {
            Some(&self.low)
        } else if same_text(name, "medium") {
            Some(&self.medium)
        } else if same_text(name, "high") {
            Some(&self.high)
        } else {
            None
        }
    }
}

} // verus!
