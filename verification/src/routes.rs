//! The route table: which method on which path reaches which handler.

use vstd::prelude::*;

verus! {

/// The path of the collection of users.
pub const USERS_PATH: &'static str = "/users";

/// The path of one user; `:id` stands for the user's id.
pub const USER_PATH: &'static str = "/users/:id";

/// An HTTP method that the service answers.
#[derive(Debug, Clone, Copy, PartialEq, Eq)]
pub enum Method {
    Get,
    Post,
    Put,
    Delete,
}

/// One of the five things that the service does.
#[derive(Debug, Clone, Copy, PartialEq, Eq)]
pub enum Operation {
    ListUsers,
    CreateUser,
    GetUser,
    UpdateUser,
    DeleteUser,
}

/// One line of the route table.
#[derive(Debug, Clone, Copy, PartialEq, Eq)]
pub struct Route {
    pub method: Method,
    pub path: &'static str,
    pub operation: Operation,
}

/// A line of the route table as a mathematical value.
pub struct RouteView {
    pub method: Method,
    pub path: Seq<char>,
    pub operation: Operation,
}

impl View for Route {
    type V = RouteView;

    open spec fn view(&self) -> RouteView {
        RouteView { method: self.method, path: self.path@, operation: self.operation }
    }
}

impl Operation {
    /// The method that reaches the operation.
    pub open spec fn spec_method(self) -> Method {
        match self {
            Operation::ListUsers => Method::Get,
            Operation::CreateUser => Method::Post,
            Operation::GetUser => Method::Get,
            Operation::UpdateUser => Method::Put,
            Operation::DeleteUser => Method::Delete,
        }
    }

    /// The operation works on one user, whose id is part of the path.
    pub open spec fn on_one_user(self) -> bool {
        self is GetUser || self is UpdateUser || self is DeleteUser
    }

    /// The path that reaches the operation.
    pub open spec fn spec_path(self) -> Seq<char> {
        if self.on_one_user() {
            USER_PATH@
        } else {
            USERS_PATH@
        }
    }

    /// The line of the route table for the operation.
    pub open spec fn spec_route(self) -> RouteView {
        RouteView { method: self.spec_method(), path: self.spec_path(), operation: self }
    }

    /// The method that reaches the operation.
    pub fn method(self) -> (method: Method)
        ensures
            method == self.spec_method(),
    {
        match self {
            Operation::ListUsers => Method::Get,
            Operation::CreateUser => Method::Post,
            Operation::GetUser => Method::Get,
            Operation::UpdateUser => Method::Put,
            Operation::DeleteUser => Method::Delete,
        }
    }

    /// The path that reaches the operation.
    pub fn path(self) -> (path: &'static str)
        ensures
            path@ == self.spec_path(),
    {
        match self {
            Operation::ListUsers | Operation::CreateUser => USERS_PATH,
            Operation::GetUser | Operation::UpdateUser | Operation::DeleteUser => USER_PATH,
        }
    }

    /// The line of the route table for the operation.
    pub fn route(self) -> (route: Route)
        ensures
            route@ == self.spec_route(),
    {
        Route { method: self.method(), path: self.path(), operation: self }
    }
}

/// The route table, as a sequence of its five lines.
pub open spec fn route_table() -> Seq<RouteView> {
    seq![
        Operation::ListUsers.spec_route(),
        Operation::CreateUser.spec_route(),
        Operation::GetUser.spec_route(),
        Operation::UpdateUser.spec_route(),
        Operation::DeleteUser.spec_route(),
    ]
}

/// The lines of a vector, each as a mathematical value.
pub open spec fn route_views(routes: Seq<Route>) -> Seq<RouteView> {
    routes.map_values(|r: Route| r@)
}

/// The route table: one line for each operation.
pub fn app_router() -> (routes: Vec<Route>)
    ensures
        route_views(routes@) == route_table(),
{
    let mut routes: Vec<Route> = Vec::new();
    routes.push(Operation::ListUsers.route());
    routes.push(Operation::CreateUser.route());
    routes.push(Operation::GetUser.route());
    routes.push(Operation::UpdateUser.route());
    routes.push(Operation::DeleteUser.route());
    assert(route_views(routes@) =~= route_table());
    routes
}

/// The two paths of the route table differ.
pub proof fn lemma_paths_differ()
    ensures
        USERS_PATH@ != USER_PATH@,
{
    reveal_strlit("/users");
    reveal_strlit("/users/:id");
    assert(USERS_PATH@.len() == 6);
    assert(USER_PATH@.len() == 10);
}

/// No two lines of the route table have the same method and the same path:
/// a request reaches one operation at most.
pub proof fn lemma_routes_are_distinct(a: Operation, b: Operation)
    requires
        a.spec_method() == b.spec_method(),
        a.spec_path() == b.spec_path(),
    ensures
        a == b,
{
    lemma_paths_differ();
}

} // verus!
