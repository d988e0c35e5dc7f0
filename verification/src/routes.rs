//! Which request goes to which handler, and who may call from another origin.

use vstd::prelude::*;

verus! {

/// The request methods that the service knows.
#[derive(Debug, Clone, Copy, PartialEq, Eq, Structural)]
pub enum Method {
    Get,
    Post,
    Put,
    Patch,
    Delete,
    Options,
}

impl Method {
    /// The method as it is written in a request.
    pub open spec fn name_spec(self) -> Seq<char> {
        match self {
            Method::Get => "GET"@,
            Method::Post => "POST"@,
            Method::Put => "PUT"@,
            Method::Patch => "PATCH"@,
            Method::Delete => "DELETE"@,
            Method::Options => "OPTIONS"@,
        }
    }

    /// The method as it is written in a request.
    pub fn name(&self) -> (word: &'static str)
        ensures
            word@ == self.name_spec(),
    {
        match self {
            Method::Get => "GET",
            Method::Post => "POST",
            Method::Put => "PUT",
            Method::Patch => "PATCH",
            Method::Delete => "DELETE",
            Method::Options => "OPTIONS",
        }
    }
}

/// The handlers that a request can reach.
#[derive(Debug, Clone, Copy, PartialEq, Eq, Structural)]
pub enum Endpoint {
    Root,
    Health,
    GetTodos,
    CreateTodo,
    GetTodo,
    UpdateTodo,
    DeleteTodo,
    ToggleTodo,
    GetStats,
    ClearCompleted,
}

/// One line of the routing table as the contracts see it.
pub struct RouteView {
    pub method: Method,
    pub path: Seq<char>,
    pub endpoint: Endpoint,
}

/// One line of the routing table: a method, a path in which `{id}` stands
/// for an identifier, and the handler that serves the two.
#[derive(Debug, Clone, Copy)]
pub struct Route {
    pub method: Method,
    pub path: &'static str,
    pub endpoint: Endpoint,
}

impl View for Route {
    type V = RouteView;

    open spec fn view(&self) -> RouteView {
        RouteView { method: self.method, path: self.path@, endpoint: self.endpoint }
    }
}

/// The routing table. A path of fixed words stands before the path with an
/// identifier that would also take it.
pub open spec fn route_table() -> Seq<RouteView> {
    seq![
        RouteView { method: Method::Get, path: "/"@, endpoint: Endpoint::Root },
        RouteView { method: Method::Get, path: "/health"@, endpoint: Endpoint::Health },
        RouteView { method: Method::Get, path: "/api/todos"@, endpoint: Endpoint::GetTodos },
        RouteView { method: Method::Post, path: "/api/todos"@, endpoint: Endpoint::CreateTodo },
        RouteView {
            method: Method::Get,
            path: "/api/todos/stats/summary"@,
            endpoint: Endpoint::GetStats,
        },
        RouteView {
            method: Method::Delete,
            path: "/api/todos/completed"@,
            endpoint: Endpoint::ClearCompleted,
        },
        RouteView { method: Method::Get, path: "/api/todos/{id}"@, endpoint: Endpoint::GetTodo },
        RouteView { method: Method::Put, path: "/api/todos/{id}"@, endpoint: Endpoint::UpdateTodo },
        RouteView {
            method: Method::Delete,
            path: "/api/todos/{id}"@,
            endpoint: Endpoint::DeleteTodo,
        },
        RouteView {
            method: Method::Patch,
            path: "/api/todos/{id}/toggle"@,
            endpoint: Endpoint::ToggleTodo,
        },
    ]
}

/// The lines of a routing table as the contracts see them.
pub open spec fn route_views(routes: Seq<Route>) -> Seq<RouteView> {
    routes.map_values(|route: Route| route@)
}

/// Lays out the routing table.
pub fn configure_routes() -> (routes: Vec<Route>)
    ensures
        route_views(routes@) == route_table(),
{
    vec![
        Route { method: Method::Get, path: "/", endpoint: Endpoint::Root },
        Route { method: Method::Get, path: "/health", endpoint: Endpoint::Health },
        Route { method: Method::Get, path: "/api/todos", endpoint: Endpoint::GetTodos },
        Route { method: Method::Post, path: "/api/todos", endpoint: Endpoint::CreateTodo },
        Route {
            method: Method::Get,
            path: "/api/todos/stats/summary",
            endpoint: Endpoint::GetStats,
        },
        Route {
            method: Method::Delete,
            path: "/api/todos/completed",
            endpoint: Endpoint::ClearCompleted,
        },
        Route { method: Method::Get, path: "/api/todos/{id}", endpoint: Endpoint::GetTodo },
        Route { method: Method::Put, path: "/api/todos/{id}", endpoint: Endpoint::UpdateTodo },
        Route { method: Method::Delete, path: "/api/todos/{id}", endpoint: Endpoint::DeleteTodo },
        Route {
            method: Method::Patch,
            path: "/api/todos/{id}/toggle",
            endpoint: Endpoint::ToggleTodo,
        },
    ]
}

/// Who may call from another origin, as the contracts see it.
pub struct CorsPolicyView {
    pub allowed_origins: Seq<Seq<char>>,
    pub allowed_methods: Seq<Method>,
    pub allowed_headers: Seq<Seq<char>>,
    pub max_age: usize,
}

/// Who may call from another origin: from where, with which methods and
/// headers, and for how many seconds a browser may remember the answer.
#[derive(Debug)]
pub struct CorsPolicy {
    pub allowed_origins: Vec<&'static str>,
    pub allowed_methods: Vec<Method>,
    pub allowed_headers: Vec<&'static str>,
    pub max_age: usize,
}

/// The characters of each word of a run of words.
pub open spec fn words(texts: Seq<&'static str>) -> Seq<Seq<char>> {
    texts.map_values(|text: &'static str| text@)
}

impl View for CorsPolicy {
    type V = CorsPolicyView;

    open spec fn view(&self) -> CorsPolicyView {
        CorsPolicyView {
            allowed_origins: words(self.allowed_origins@),
            allowed_methods: self.allowed_methods@,
            allowed_headers: words(self.allowed_headers@),
            max_age: self.max_age,
        }
    }
}

/// The policy of the service: two local front-ends may call, with the six
/// methods and the two headers, and the answer holds for an hour.
pub open spec fn cors_policy() -> CorsPolicyView {
    CorsPolicyView {
        allowed_origins: seq!["http://localhost:3000"@, "http://127.0.0.1:3000"@],
        allowed_methods: seq![
            Method::Get,
            Method::Post,
            Method::Put,
            Method::Patch,
            Method::Delete,
            Method::Options,
        ],
        allowed_headers: seq!["content-type"@, "accept"@],
        max_age: 3600,
    }
}

/// Lays out the policy for calls from another origin.
pub fn configure_cors() -> (policy: CorsPolicy)
    ensures
        policy@ == cors_policy(),
{
    let policy = CorsPolicy {
        allowed_origins: vec!["http://localhost:3000", "http://127.0.0.1:3000"],
        allowed_methods: vec![
            Method::Get,
            Method::Post,
            Method::Put,
            Method::Patch,
            Method::Delete,
            Method::Options,
        ],
        allowed_headers: vec!["content-type", "accept"],
        max_age: 3600,
    };
    assert(policy@.allowed_origins =~= cors_policy().allowed_origins);
    assert(policy@.allowed_methods =~= cors_policy().allowed_methods);
    assert(policy@.allowed_headers =~= cors_policy().allowed_headers);
    policy
}

} // verus!
