//! The three records that a freshly started service holds.

use crate::clock::{day_text, format_day};
use crate::models::{opt_chars, Priority, TodoCreate, TodoCreateView};
use vstd::prelude::*;

verus! {

/// The text of the day that lies `offset` days from `today`, where the
/// calendar has such a day.
pub open spec fn day_text_from(today: i32, offset: i32) -> Option<Seq<char>> {
    if i32::MIN <= today + offset <= i32::MAX {
        day_text((today + offset) as i32)
    } else {
        None
    }
}

/// Writes the day that lies `offset` days from `today`.
pub fn write_day_from(today: i32, offset: i32) -> (text: Option<String>)
    ensures
        opt_chars(text) == day_text_from(today, offset),
{
    match today.checked_add(offset) {
        Some(day) => format_day(day),
        None => None,
    }
}

/// An open sample of high priority that is due tomorrow.
pub open spec fn first_sample(today: i32) -> TodoCreateView {
    TodoCreateView {
        text: "Learn Rust programming language"@,
        priority: Some(Priority::High),
        completed: Some(false),
        due_date: day_text_from(today, 1),
        reminder_time: Some("09:00"@),
    }
}

/// A finished sample of high priority that was due yesterday.
pub open spec fn second_sample(today: i32) -> TodoCreateView {
    TodoCreateView {
        text: "Build blazingly fast API with Actix-web"@,
        priority: Some(Priority::High),
        completed: Some(true),
        due_date: day_text_from(today, -1i32),
        reminder_time: Some("14:30"@),
    }
}

/// An open sample of medium priority that is due a week from today.
pub open spec fn third_sample(today: i32) -> TodoCreateView {
    TodoCreateView {
        text: "Master async/await in Rust"@,
        priority: Some(Priority::Medium),
        completed: Some(false),
        due_date: day_text_from(today, 7),
        reminder_time: Some("16:00"@),
    }
}

/// Makes the three samples for the given day.
pub fn sample_inputs(today: i32) -> (inputs: (TodoCreate, TodoCreate, TodoCreate))
    ensures
        inputs.0@ == first_sample(today),
        inputs.1@ == second_sample(today),
        inputs.2@ == third_sample(today),
{
    let first = TodoCreate {
        text: "Learn Rust programming language".to_string(),
        priority: Some(Priority::High),
        completed: Some(false),
        due_date: write_day_from(today, 1),
        reminder_time: Some("09:00".to_string()),
    };
    let second = TodoCreate {
        text: "Build blazingly fast API with Actix-web".to_string(),
        priority: Some(Priority::High),
        completed: Some(true),
        due_date: write_day_from(today, -1),
        reminder_time: Some("14:30".to_string()),
    };
    let third = TodoCreate {
        text: "Master async/await in Rust".to_string(),
        priority: Some(Priority::Medium),
        completed: Some(false),
        due_date: write_day_from(today, 7),
        reminder_time: Some("16:00".to_string()),
    };
    (first, second, third)
}

} // verus!
