use spicy_todo::models::{Priority, PriorityBreakdown, Timestamp, Todo, TodoCreate};
use spicy_todo::service::TodoService;
use spicy_todo::stats::{classify, read_due_day, classify_record, summarize, DueBucket};

// 31 December 2024, counted in days since 1 January 1970.
const TODAY: i32 = 20088;

fn due(text: &str, completed: bool, due_date: Option<&str>) -> TodoCreate {
    TodoCreate {
        text: text.to_string(),
        priority: None,
        completed: Some(completed),
        due_date: due_date.map(|d| d.to_string()),
        reminder_time: None,
    }
}

fn store(inputs: Vec<TodoCreate>) -> TodoService {
    let mut service = TodoService::new_empty();
    for (i, input) in inputs.into_iter().enumerate() {
        service.create_with(input, format!("id-{}", i), Timestamp { secs: 0, nanos: 0 });
    }
    service
}

fn todo_due(due_date: Option<&str>) -> Todo {
    Todo {
        id: "x".to_string(),
        text: "x".to_string(),
        priority: Priority::Medium,
        completed: false,
        due_date: due_date.map(|d| d.to_string()),
        reminder_time: None,
        created_at: Timestamp { secs: 0, nanos: 0 },
        updated_at: Timestamp { secs: 0, nanos: 0 },
    }
}

#[test]
fn classify_draws_the_lines_at_today_and_a_week_ahead() {
    assert_eq!(classify(TODAY - 1, TODAY), Some(DueBucket::Overdue));
    assert_eq!(classify(TODAY - 400, TODAY), Some(DueBucket::Overdue));
    assert_eq!(classify(TODAY, TODAY), Some(DueBucket::DueToday));
    assert_eq!(classify(TODAY + 1, TODAY), Some(DueBucket::Upcoming));
    assert_eq!(classify(TODAY + 7, TODAY), Some(DueBucket::Upcoming));
    assert_eq!(classify(TODAY + 8, TODAY), None);
}

#[test]
fn classify_does_not_overflow_at_the_ends_of_the_range() {
    assert_eq!(classify(i32::MAX, i32::MAX), Some(DueBucket::DueToday));
    assert_eq!(classify(i32::MAX, i32::MAX - 7), Some(DueBucket::Upcoming));
    assert_eq!(classify(i32::MAX, i32::MAX - 8), None);
    assert_eq!(classify(i32::MIN, i32::MAX), Some(DueBucket::Overdue));
    assert_eq!(classify(i32::MAX, i32::MIN), None);
}

#[test]
fn a_completed_record_or_one_without_a_day_has_no_bucket() {
    assert_eq!(classify_record(true, Some(TODAY), TODAY), None);
    assert_eq!(classify_record(true, Some(TODAY - 1), TODAY), None);
    assert_eq!(classify_record(false, None, TODAY), None);
    assert_eq!(classify_record(true, None, TODAY), None);
    assert_eq!(classify_record(false, Some(TODAY), TODAY), Some(DueBucket::DueToday));
    assert_eq!(classify_record(false, Some(TODAY - 1), TODAY), Some(DueBucket::Overdue));
}

#[test]
fn due_dates_are_read_as_year_month_day() {
    assert_eq!(read_due_day(&todo_due(Some("2024-12-31"))), Some(20088));
    assert_eq!(read_due_day(&todo_due(Some("1970-01-01"))), Some(0));
    assert_eq!(read_due_day(&todo_due(Some("1969-12-31"))), Some(-1));
    assert_eq!(read_due_day(&todo_due(Some("2024-02-29"))), Some(19782));
    assert_eq!(read_due_day(&todo_due(Some("2000-01-01"))), Some(10957));
}

#[test]
fn what_is_no_calendar_date_names_no_day() {
    assert_eq!(read_due_day(&todo_due(None)), None);
    assert_eq!(read_due_day(&todo_due(Some(""))), None);
    assert_eq!(read_due_day(&todo_due(Some("tomorrow"))), None);
    assert_eq!(read_due_day(&todo_due(Some("2023-02-29"))), None);
    assert_eq!(read_due_day(&todo_due(Some("2024-13-01"))), None);
    assert_eq!(read_due_day(&todo_due(Some("31/12/2024"))), None);
    assert_eq!(read_due_day(&todo_due(Some("2024-12-31T10:00:00"))), None);
}

#[test]
fn open_records_are_counted_by_their_due_date() {
    let service = store(vec![
        due("long overdue", false, Some("2023-06-01")),
        due("due yesterday", false, Some("2024-12-30")),
        due("due today", false, Some("2024-12-31")),
        due("due tomorrow", false, Some("2025-01-01")),
        due("due in a week", false, Some("2025-01-07")),
        due("due in eight days", false, Some("2025-01-08")),
        due("no date", false, None),
        due("not a date", false, Some("soon")),
        due("done and overdue", true, Some("2024-12-30")),
        due("done and due today", true, Some("2024-12-31")),
        due("done and upcoming", true, Some("2025-01-02")),
    ]);

    let stats = service.stats_on(TODAY);
    assert_eq!(stats.total, 11);
    assert_eq!(stats.completed, 3);
    assert_eq!(stats.active, 8);
    assert_eq!(stats.overdue_count, 2);
    assert_eq!(stats.due_today_count, 1);
    assert_eq!(stats.upcoming_count, 2);
    assert_eq!(stats.completion_rate_bp, 2727);
}

#[test]
fn the_same_records_fall_in_other_buckets_on_another_day() {
    let service = store(vec![
        due("a", false, Some("2024-12-30")),
        due("b", false, Some("2024-12-31")),
        due("c", false, Some("2025-01-07")),
    ]);

    let before = service.stats_on(TODAY - 1);
    assert_eq!(
        (before.overdue_count, before.due_today_count, before.upcoming_count),
        (0, 1, 1)
    );

    let later = service.stats_on(TODAY + 7);
    assert_eq!((later.overdue_count, later.due_today_count, later.upcoming_count), (2, 1, 0));
}

#[test]
fn an_empty_store_has_a_rate_of_zero_and_every_priority_in_the_breakdown() {
    let service = TodoService::new_empty();
    let stats = service.stats_on(TODAY);
    assert_eq!(stats.total, 0);
    assert_eq!(stats.active, 0);
    assert_eq!(stats.completed, 0);
    assert_eq!(stats.completion_rate_bp, 0);
    assert_eq!(stats.priority_breakdown, PriorityBreakdown { low: 0, medium: 0, high: 0 });
    assert_eq!(stats.priority_breakdown.get("low"), Some(&0));
    assert_eq!(stats.priority_breakdown.get("medium"), Some(&0));
    assert_eq!(stats.priority_breakdown.get("high"), Some(&0));
    assert_eq!(stats.overdue_count, 0);
    assert_eq!(stats.due_today_count, 0);
    assert_eq!(stats.upcoming_count, 0);
}

#[test]
fn the_rate_is_in_hundredths_of_a_percent_rounded_down() {
    let rates = [
        (1usize, 1usize, 10000u32),
        (0, 1, 0),
        (1, 2, 5000),
        (1, 3, 3333),
        (2, 3, 6666),
        (1, 7, 1428),
    ];
    for (completed, total, expected) in rates {
        let mut inputs = Vec::new();
        for i in 0..total {
            inputs.push(due("t", i < completed, None));
        }
        let stats = store(inputs).stats_on(TODAY);
        assert_eq!(stats.completed, completed);
        assert_eq!(stats.total, total);
        assert_eq!(stats.completion_rate_bp, expected);
    }
}

#[test]
fn active_and_completed_add_up_to_the_total() {
    for completed in 0..5usize {
        let mut inputs = Vec::new();
        for i in 0..5usize {
            inputs.push(due("t", i < completed, None));
        }
        let stats = store(inputs).stats_on(TODAY);
        assert_eq!(stats.active + stats.completed, stats.total);
        assert_eq!(stats.completed, completed);
    }
}

#[test]
fn the_breakdown_counts_every_record_once() {
    let mut service = TodoService::new_empty();
    let priorities = [
        Some(Priority::Low),
        Some(Priority::High),
        None,
        Some(Priority::Medium),
        Some(Priority::High),
        Some(Priority::High),
    ];
    for (i, priority) in priorities.into_iter().enumerate() {
        service.create_with(
            TodoCreate {
                text: "t".to_string(),
                priority,
                completed: Some(i % 2 == 0),
                due_date: None,
                reminder_time: None,
            },
            format!("id-{}", i),
            Timestamp { secs: 0, nanos: 0 },
        );
    }
    let stats = service.stats_on(TODAY);
    assert_eq!(stats.priority_breakdown, PriorityBreakdown { low: 1, medium: 2, high: 3 });
    assert_eq!(stats.priority_breakdown.get("high"), Some(&3));
    assert_eq!(stats.priority_breakdown.get("medium"), Some(&2));
    assert_eq!(stats.priority_breakdown.get("low"), Some(&1));
    assert_eq!(stats.priority_breakdown.get("HIGH"), None);
    assert_eq!(stats.priority_breakdown.get("urgent"), None);
    assert_eq!(stats.priority_breakdown.get(""), None);
}

#[test]
fn summarize_counts_a_plain_run_of_records() {
    let mut done = todo_due(Some("2024-12-01"));
    done.completed = true;
    done.priority = Priority::High;
    let todos = vec![todo_due(Some("2024-12-31")), done, todo_due(Some("2025-01-03"))];
    let stats = summarize(&todos, TODAY);
    assert_eq!(stats.total, 3);
    assert_eq!(stats.completed, 1);
    assert_eq!(stats.active, 2);
    assert_eq!(stats.completion_rate_bp, 3333);
    assert_eq!(stats.overdue_count, 0);
    assert_eq!(stats.due_today_count, 1);
    assert_eq!(stats.upcoming_count, 1);
    assert_eq!(stats.priority_breakdown, PriorityBreakdown { low: 0, medium: 2, high: 1 });
}
