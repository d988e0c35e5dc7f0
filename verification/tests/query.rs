use spicy_todo::models::{Priority, Timestamp, Todo, TodoCreate, TodoQuery};
use spicy_todo::service::TodoService;

fn query(filter: Option<&str>, search: Option<&str>, priority: Option<&str>) -> TodoQuery {
    TodoQuery {
        filter: filter.map(|s| s.to_string()),
        search: search.map(|s| s.to_string()),
        priority: priority.map(|s| s.to_string()),
    }
}

fn todo(text: &str, priority: Priority, completed: bool) -> Todo {
    Todo {
        id: "x".to_string(),
        text: text.to_string(),
        priority,
        completed,
        due_date: None,
        reminder_time: None,
        created_at: Timestamp { secs: 0, nanos: 0 },
        updated_at: Timestamp { secs: 0, nanos: 0 },
    }
}

fn sample_store() -> TodoService {
    let mut service = TodoService::new_empty();
    let records = [
        ("Buy MILK", Priority::High, false),
        ("Walk the dog", Priority::Low, true),
        ("milk the cow", Priority::High, true),
        ("Read a book", Priority::Medium, false),
    ];
    for (i, (text, priority, completed)) in records.into_iter().enumerate() {
        service.create_with(
            TodoCreate {
                text: text.to_string(),
                priority: Some(priority),
                completed: Some(completed),
                due_date: None,
                reminder_time: None,
            },
            format!("id-{}", i),
            Timestamp { secs: 0, nanos: 0 },
        );
    }
    service
}

fn listed(
    service: &TodoService,
    filter: Option<&str>,
    search: Option<&str>,
    priority: Option<&str>,
) -> Vec<String> {
    service
        .get_all(
            filter.map(|s| s.to_string()),
            search.map(|s| s.to_string()),
            priority.map(|s| s.to_string()),
        )
        .into_iter()
        .map(|t| t.text)
        .collect()
}

#[test]
fn lowered_puts_search_and_priority_in_lower_case() {
    let lowered = query(Some("Active"), Some("MiLk ÄÖ"), Some("HIGH")).lowered();
    assert_eq!(lowered.filter.as_deref(), Some("Active"));
    assert_eq!(lowered.search.as_deref(), Some("milk äö"));
    assert_eq!(lowered.priority.as_deref(), Some("high"));

    let nothing = query(None, None, None).lowered();
    assert_eq!(nothing.filter, None);
    assert_eq!(nothing.search, None);
    assert_eq!(nothing.priority, None);
}

#[test]
fn admits_checks_the_status_word() {
    let active = query(Some("active"), None, None);
    assert!(active.admits(false, Priority::Low, ""));
    assert!(!active.admits(true, Priority::Low, ""));

    let completed = query(Some("completed"), None, None);
    assert!(completed.admits(true, Priority::Low, ""));
    assert!(!completed.admits(false, Priority::Low, ""));

    for word in ["all", "", "Active", "COMPLETED", "done"] {
        let other = query(Some(word), None, None);
        assert!(other.admits(true, Priority::Low, ""));
        assert!(other.admits(false, Priority::Low, ""));
    }
}

#[test]
fn admits_looks_for_the_needle_in_the_text() {
    let milk = query(None, Some("milk"), None);
    assert!(milk.admits(false, Priority::Low, "buy milk"));
    assert!(milk.admits(false, Priority::Low, "milk"));
    assert!(milk.admits(false, Priority::Low, "oatmilkshake"));
    assert!(!milk.admits(false, Priority::Low, "mil"));
    assert!(!milk.admits(false, Priority::Low, "m i l k"));
    assert!(!milk.admits(false, Priority::Low, ""));

    let empty = query(None, Some(""), None);
    assert!(empty.admits(false, Priority::Low, ""));
    assert!(empty.admits(false, Priority::Low, "anything"));
}

#[test]
fn admits_compares_the_priority_name() {
    let high = query(None, None, Some("high"));
    assert!(high.admits(false, Priority::High, ""));
    assert!(!high.admits(false, Priority::Medium, ""));
    assert!(!high.admits(false, Priority::Low, ""));

    let medium = query(None, None, Some("medium"));
    assert!(medium.admits(false, Priority::Medium, ""));
    assert!(!medium.admits(false, Priority::High, ""));

    let low = query(None, None, Some("low"));
    assert!(low.admits(false, Priority::Low, ""));

    for word in ["", "urgent", "hig", "highest", "High"] {
        let other = query(None, None, Some(word));
        assert!(!other.admits(false, Priority::High, ""));
        assert!(!other.admits(false, Priority::Medium, ""));
        assert!(!other.admits(false, Priority::Low, ""));
    }
}

#[test]
fn admits_asks_for_every_criterion_at_once() {
    let all = query(Some("active"), Some("milk"), Some("high"));
    assert!(all.admits(false, Priority::High, "buy milk"));
    assert!(!all.admits(true, Priority::High, "buy milk"));
    assert!(!all.admits(false, Priority::Low, "buy milk"));
    assert!(!all.admits(false, Priority::High, "buy bread"));
}

#[test]
fn lists_lowers_the_text_of_the_record() {
    let milk = query(None, Some("milk"), None);
    assert!(milk.lists(&todo("Buy MILK", Priority::Low, false)));
    assert!(milk.lists(&todo("Milk", Priority::Low, true)));
    assert!(!milk.lists(&todo("Buy bread", Priority::Low, false)));

    let none = query(None, None, None);
    assert!(none.lists(&todo("anything", Priority::Low, false)));
}

#[test]
fn search_disregards_case_on_both_sides() {
    let service = sample_store();
    assert_eq!(listed(&service, None, Some("milk"), None), vec!["Buy MILK", "milk the cow"]);
    assert_eq!(listed(&service, None, Some("MILK"), None), vec!["Buy MILK", "milk the cow"]);
    assert_eq!(listed(&service, None, Some("MiLk"), None), vec!["Buy MILK", "milk the cow"]);
    assert_eq!(listed(&service, None, Some("the"), None), vec!["Walk the dog", "milk the cow"]);
    assert!(listed(&service, None, Some("cheese"), None).is_empty());
    assert_eq!(listed(&service, None, Some(""), None).len(), 4);
}

#[test]
fn priority_is_matched_in_any_case_but_in_full() {
    let service = sample_store();
    assert_eq!(listed(&service, None, None, Some("high")), vec!["Buy MILK", "milk the cow"]);
    assert_eq!(listed(&service, None, None, Some("HIGH")), vec!["Buy MILK", "milk the cow"]);
    assert_eq!(listed(&service, None, None, Some("High")), vec!["Buy MILK", "milk the cow"]);
    assert_eq!(listed(&service, None, None, Some("low")), vec!["Walk the dog"]);
    assert_eq!(listed(&service, None, None, Some("Medium")), vec!["Read a book"]);
    assert!(listed(&service, None, None, Some("hi")).is_empty());
    assert!(listed(&service, None, None, Some("urgent")).is_empty());
    assert!(listed(&service, None, None, Some("")).is_empty());
}

#[test]
fn status_narrows_only_for_the_two_words() {
    let service = sample_store();
    assert_eq!(listed(&service, Some("active"), None, None), vec!["Buy MILK", "Read a book"]);
    assert_eq!(
        listed(&service, Some("completed"), None, None),
        vec!["Walk the dog", "milk the cow"]
    );
    assert_eq!(listed(&service, Some("all"), None, None).len(), 4);
    assert_eq!(listed(&service, Some("Active"), None, None).len(), 4);
    assert_eq!(listed(&service, Some(""), None, None).len(), 4);
    assert_eq!(listed(&service, None, None, None).len(), 4);
}

#[test]
fn criteria_combine_by_intersection() {
    let service = sample_store();
    assert_eq!(listed(&service, Some("active"), Some("milk"), None), vec!["Buy MILK"]);
    assert_eq!(listed(&service, Some("completed"), Some("milk"), None), vec!["milk the cow"]);
    assert_eq!(listed(&service, Some("completed"), None, Some("high")), vec!["milk the cow"]);
    assert_eq!(listed(&service, None, Some("milk"), Some("high")).len(), 2);
    assert_eq!(
        listed(&service, Some("active"), Some("MILK"), Some("HIGH")),
        vec!["Buy MILK"]
    );
    assert!(listed(&service, Some("active"), Some("milk"), Some("low")).is_empty());
    assert!(listed(&service, Some("active"), Some("dog"), None).is_empty());
}

#[test]
fn listing_hands_out_copies() {
    let service = sample_store();
    let mut first = service.get_all(None, None, None);
    first[0].text = "changed outside".to_string();
    first[0].completed = true;
    let second = service.get_all(None, None, None);
    assert_eq!(second[0].text, "Buy MILK");
    assert!(!second[0].completed);
}

#[test]
fn search_reaches_beyond_ascii() {
    let mut service = TodoService::new_empty();
    let texts = ["Café au lait", "Ärger im BÜRO", "日本語のメモ", "plain"];
    for (i, text) in texts.into_iter().enumerate() {
        service.create_with(
            TodoCreate {
                text: text.to_string(),
                priority: None,
                completed: None,
                due_date: None,
                reminder_time: None,
            },
            format!("id-{}", i),
            Timestamp { secs: 0, nanos: 0 },
        );
    }
    assert_eq!(listed(&service, None, Some("CAFÉ"), None), vec!["Café au lait"]);
    assert_eq!(listed(&service, None, Some("é a"), None), vec!["Café au lait"]);
    assert_eq!(listed(&service, None, Some("ärger"), None), vec!["Ärger im BÜRO"]);
    assert_eq!(listed(&service, None, Some("büro"), None), vec!["Ärger im BÜRO"]);
    assert_eq!(listed(&service, None, Some("本語"), None), vec!["日本語のメモ"]);
    assert!(listed(&service, None, Some("cafe"), None).is_empty());
    assert_eq!(listed(&service, None, Some("a"), None), vec!["Café au lait", "plain"]);
}

#[test]
fn admits_finds_a_needle_of_several_bytes_only_where_it_stands() {
    let accent = query(None, Some("é"), None);
    assert!(accent.admits(false, Priority::Low, "café"));
    assert!(accent.admits(false, Priority::Low, "é"));
    assert!(!accent.admits(false, Priority::Low, "cafe"));
    assert!(!accent.admits(false, Priority::Low, "è"));
}
