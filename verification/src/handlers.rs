//! The request handlers: each takes what was decoded from a request, asks
//! the store, and says which status and which body go back.

use crate::clock;
use crate::ident::ID_LEN;
use crate::models::{
    opt_view, views, Priority, Timestamp, Todo, TodoCreate, TodoQuery, TodoStats, TodoUpdate,
    TodoView,
};
use crate::query::selected;
use crate::records::{find, has_id, new_record, put, removed, revised, toggled};
use crate::service::TodoService;
use crate::stats::{describes_some_day, is_active};
use crate::text::{all_whitespace, is_blank};
use vstd::prelude::*;
use vstd::string::StrSliceExecFns;

verus! {

/// The status of a request that was served.
pub const OK: u16 = 200;

/// The status of a request that created a record.
pub const CREATED: u16 = 201;

/// The status of a request whose input was refused.
pub const BAD_REQUEST: u16 = 400;

/// The status of a request for a record that is not there.
pub const NOT_FOUND: u16 = 404;

/// The longest text that a new todo may have, in characters.
pub const MAX_TEXT_LEN: usize = 500;

/// What goes back in a response, as the contracts see it.
pub enum BodyView {
    Banner { message: Seq<char>, version: Seq<char>, docs: Seq<char> },
    Health { status: Seq<char>, service: Seq<char>, uptime: Timestamp },
    Todos(Seq<TodoView>),
    Todo(TodoView),
    Stats(TodoStats),
    Message(Seq<char>),
    Error(Seq<char>),
}

/// What goes back in a response.
#[derive(Debug)]
pub enum Body {
    /// The name of the service, its version and where its records are served.
    Banner { message: String, version: String, docs: String },
    /// That the service is up, and the instant at which it said so.
    Health { status: String, service: String, uptime: Timestamp },
    /// A listing of records.
    Todos(Vec<Todo>),
    /// One record.
    Todo(Todo),
    /// The figures of the store.
    Stats(TodoStats),
    /// A word on what was done.
    Message(String),
    /// A word on why nothing was done.
    Error(String),
}

impl View for Body {
    type V = BodyView;

    open spec fn view(&self) -> BodyView {
        match self {
            Body::Banner { message, version, docs } => BodyView::Banner {
                message: message@,
                version: version@,
                docs: docs@,
            },
            Body::Health { status, service, uptime } => BodyView::Health {
                status: status@,
                service: service@,
                uptime: *uptime,
            },
            Body::Todos(todos) => BodyView::Todos(views(todos@)),
            Body::Todo(todo) => BodyView::Todo(todo@),
            Body::Stats(stats) => BodyView::Stats(*stats),
            Body::Message(text) => BodyView::Message(text@),
            Body::Error(text) => BodyView::Error(text@),
        }
    }
}

/// A response as the contracts see it.
pub struct ResponseView {
    pub status: u16,
    pub body: BodyView,
}

/// A status and the body that goes with it.
#[derive(Debug)]
pub struct Response {
    pub status: u16,
    pub body: Body,
}

impl View for Response {
    type V = ResponseView;

    open spec fn view(&self) -> ResponseView {
        ResponseView { status: self.status, body: self.body@ }
    }
}

/// The response that carries one record.
pub open spec fn todo_response(status: u16, todo: TodoView) -> ResponseView {
    ResponseView { status, body: BodyView::Todo(todo) }
}

/// The response to a request for a record that is not there.
pub open spec fn not_found() -> ResponseView {
    ResponseView { status: NOT_FOUND, body: BodyView::Error("Todo not found"@) }
}

/// The response that carries the record, or says that there is none.
pub open spec fn found_or_not(found: Option<TodoView>) -> ResponseView {
    match found {
        Some(todo) => todo_response(OK, todo),
        None => not_found(),
    }
}

/// A request for an identifier that no record has is answered with the
/// status 404 and the word that there is no such todo.
pub proof fn unknown_id_is_answered_not_found(records: Seq<TodoView>, id: Seq<char>)
    requires
        !has_id(records, id),
    ensures
        found_or_not(find(records, id)) == not_found(),
        not_found().status == NOT_FOUND,
        not_found().body == BodyView::Error("Todo not found"@),
{
}

/// Why the text of a new todo is refused.
#[derive(Debug, Clone, Copy, PartialEq, Eq, Structural)]
pub enum TextFault {
    /// The text is empty or holds nothing but white space.
    Blank,
    /// The text has more than `MAX_TEXT_LEN` characters.
    TooLong,
}

/// The fault of a text, from whether it is blank and how many characters it
/// has. A blank text is refused as blank, whatever its length.
pub open spec fn fault_from(blank: bool, len: nat) -> Option<TextFault> {
    if blank {
        Some(TextFault::Blank)
    } else if len > MAX_TEXT_LEN {
        Some(TextFault::TooLong)
    } else {
        None
    }
}

/// The fault of the text of a new todo, if it has one.
pub open spec fn text_fault(text: Seq<char>) -> Option<TextFault> {
    fault_from(all_whitespace(text), text.len())
}

/// The response that refuses a text for its fault.
pub open spec fn refusal(fault: TextFault) -> ResponseView {
    ResponseView {
        status: BAD_REQUEST,
        body: BodyView::Error(
            match fault {
                TextFault::Blank => "Todo text is required"@,
                TextFault::TooLong => "Todo text must be less than 500 characters"@,
            },
        ),
    }
}

/// Decides the fault of a text from whether it is blank and how many
/// characters it has.
pub fn fault_of(blank: bool, len: usize) -> (fault: Option<TextFault>)
    ensures
        fault == fault_from(blank, len as nat),
{
    if blank {
        Some(TextFault::Blank)
    } else if len > MAX_TEXT_LEN {
        Some(TextFault::TooLong)
    } else {
        None
    }
}

/// Checks the text of a new todo.
pub fn check_text(text: &str) -> (fault: Option<TextFault>)
    ensures
        fault == text_fault(text@),
{
    fault_of(is_blank(text), text.unicode_len())
}

/// Makes the response that refuses a text for its fault.
pub fn refuse(fault: TextFault) -> (response: Response)
    ensures
        response@ == refusal(fault),
{
    let word = match fault {
        TextFault::Blank => "Todo text is required",
        TextFault::TooLong => "Todo text must be less than 500 characters",
    };
    Response { status: BAD_REQUEST, body: Body::Error(word.to_string()) }
}

/// Makes the response that carries the record, or says that there is none.
pub fn respond_found(found: Option<Todo>) -> (response: Response)
    ensures
        response@ == found_or_not(opt_view(found)),
{
    match found {
        Some(todo) => Response { status: OK, body: Body::Todo(todo) },
        None => Response { status: NOT_FOUND, body: Body::Error("Todo not found".to_string()) },
    }
}

/// Names the service.
pub fn root() -> (response: Response)
    ensures
        response@ == (ResponseView {
            status: OK,
            body: BodyView::Banner {
                message: "🌶️ Spicy Todo API - Rust/Actix Implementation"@,
                version: "1.0.0"@,
                docs: "/api/todos"@,
            },
        }),
{
    Response {
        status: OK,
        body: Body::Banner {
            message: "🌶️ Spicy Todo API - Rust/Actix Implementation".to_string(),
            version: "1.0.0".to_string(),
            docs: "/api/todos".to_string(),
        },
    }
}

/// Says that the service is up at the given instant.
pub fn health_at(now: Timestamp) -> (response: Response)
    ensures
        response@ == (ResponseView {
            status: OK,
            body: BodyView::Health {
                status: "healthy"@,
                service: "spicy-todo-rust-api"@,
                uptime: now,
            },
        }),
{
    Response {
        status: OK,
        body: Body::Health {
            status: "healthy".to_string(),
            service: "spicy-todo-rust-api".to_string(),
            uptime: now,
        },
    }
}

/// Says that the service is up, with the present instant.
pub fn health() -> (response: Response)
    ensures
        response@.status == OK,
        response@.body matches BodyView::Health { status, service, uptime }
            && status == "healthy"@ && service == "spicy-todo-rust-api"@,
{
    health_at(clock::read().instant)
}

/// Lists the records that pass the criteria of the query.
pub fn get_todos(service: &TodoService, query: TodoQuery) -> (response: Response)
    ensures
        response@ == (ResponseView {
            status: OK,
            body: BodyView::Todos(selected(service@, query@)),
        }),
{
    let todos = service.get_all(query.filter, query.search, query.priority);
    Response { status: OK, body: Body::Todos(todos) }
}

/// Fetches the record with the identifier.
pub fn get_todo(service: &TodoService, id: &str) -> (response: Response)
    ensures
        response@ == found_or_not(find(service@, id@)),
{
    respond_found(service.get_by_id(id))
}

/// Creates a record, unless its text is blank or too long: then nothing is
/// stored and the response says which.
pub fn create_todo(service: &mut TodoService, input: TodoCreate) -> (response: Response)
    ensures
        match text_fault(input@.text) {
            Some(fault) => response@ == refusal(fault) && final(service)@ == old(service)@,
            None => {
                &&& response@.status == CREATED
                &&& response@.body matches BodyView::Todo(todo)
                &&& todo == new_record(input@, todo.id, todo.created_at)
                &&& todo.id.len() == ID_LEN
                &&& todo.id.len() > 0
                &&& (input@.priority is None ==> todo.priority == Priority::Medium)
                &&& final(service)@ == put(old(service)@, todo)
            },
        },
{
    match check_text(input.text.as_str()) {
        Some(fault) => refuse(fault),
        None => {
            let todo = service.create(input);
            Response { status: CREATED, body: Body::Todo(todo) }
        },
    }
}

/// Changes the record with the identifier.
pub fn update_todo(service: &mut TodoService, id: &str, change: TodoUpdate) -> (response: Response)
    ensures
        match find(old(service)@, id@) {
            Some(before) => {
                &&& response@.status == OK
                &&& response@.body matches BodyView::Todo(todo)
                &&& todo == revised(before, change@, todo.updated_at)
                &&& final(service)@ == put(old(service)@, todo)
            },
            None => response@ == not_found() && final(service)@ == old(service)@,
        },
{
    respond_found(service.update(id, change))
}

/// Removes the record with the identifier.
pub fn delete_todo(service: &mut TodoService, id: &str) -> (response: Response)
    ensures
        response@ == if has_id(old(service)@, id@) {
            ResponseView { status: OK, body: BodyView::Message("Todo deleted successfully"@) }
        } else {
            not_found()
        },
        final(service)@ == removed(old(service)@, id@),
{
    if service.delete(id) {
        Response { status: OK, body: Body::Message("Todo deleted successfully".to_string()) }
    } else {
        Response { status: NOT_FOUND, body: Body::Error("Todo not found".to_string()) }
    }
}

/// Flips the completion flag of the record with the identifier.
pub fn toggle_todo(service: &mut TodoService, id: &str) -> (response: Response)
    ensures
        match find(old(service)@, id@) {
            Some(before) => {
                &&& response@.status == OK
                &&& response@.body matches BodyView::Todo(todo)
                &&& todo == toggled(before, todo.updated_at)
                &&& final(service)@ == put(old(service)@, todo)
            },
            None => response@ == not_found() && final(service)@ == old(service)@,
        },
{
    respond_found(service.toggle(id))
}

/// Reports the figures of the store on the present day.
pub fn get_stats(service: &TodoService) -> (response: Response)
    ensures
        response@.status == OK,
        response@.body matches BodyView::Stats(stats) && describes_some_day(stats, service@),
{
    let stats = service.get_stats();
    Response { status: OK, body: Body::Stats(stats) }
}

/// Removes every record that is done.
pub fn clear_completed(service: &mut TodoService) -> (response: Response)
    ensures
        response@ == (ResponseView {
            status: OK,
            body: BodyView::Message("Completed todos cleared"@),
        }),
        final(service)@ == old(service)@.filter(is_active()),
{
    service.clear_completed();
    Response { status: OK, body: Body::Message("Completed todos cleared".to_string()) }
}

} // verus!
