//! The user record and the two payloads that create and change it.

use vstd::prelude::*;

verus! {

/// A row of the `users` table.
#[derive(Debug, Clone, PartialEq, Eq)]
pub struct User {
    /// Assigned by the table when the row is inserted; never changes.
    pub id: i64,
    pub name: String,
    pub email: String,
}

/// The body of a request that creates a user. Both fields are required.
#[derive(Debug, Clone, PartialEq, Eq)]
pub struct CreateUser {
    pub name: String,
    pub email: String,
}

/// The body of a request that changes a user. A field that is absent leaves
/// the column as it is.
#[derive(Debug, Clone, PartialEq, Eq)]
pub struct UpdateUser {
    pub name: Option<String>,
    pub email: Option<String>,
}

/// A user as a mathematical value.
pub struct UserView {
    pub id: int,
    pub name: Seq<char>,
    pub email: Seq<char>,
}

/// A creation payload as a mathematical value.
pub struct CreateUserView {
    pub name: Seq<char>,
    pub email: Seq<char>,
}

/// An update payload as a mathematical value.
pub struct UpdateUserView {
    pub name: Option<Seq<char>>,
    pub email: Option<Seq<char>>,
}

impl View for User {
    type V = UserView;

    open spec fn view(&self) -> UserView {
        UserView { id: self.id as int, name: self.name@, email: self.email@ }
    }
}

impl View for CreateUser {
    type V = CreateUserView;

    open spec fn view(&self) -> CreateUserView {
        CreateUserView { name: self.name@, email: self.email@ }
    }
}

impl View for UpdateUser {
    type V = UpdateUserView;

    open spec fn view(&self) -> UpdateUserView {
        UpdateUserView { name: text_view(self.name), email: text_view(self.email) }
    }
}

/// The characters of an optional string.
pub open spec fn text_view(text: Option<String>) -> Option<Seq<char>> {
    match text {
        Some(s) => Some(s@),
        None => None,
    }
}

/// The users of a vector, each as a mathematical value.
pub open spec fn user_views(users: Seq<User>) -> Seq<UserView> {
    users.map_values(|u: User| u@)
}

} // verus!
