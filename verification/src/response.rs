//! What goes back to the client: a status and a body.

use crate::models::{user_views, User, UserView};
use vstd::prelude::*;

verus! {

/// The request succeeded and the body holds what was asked for.
pub const STATUS_OK: u16 = 200;

/// The request succeeded and there is nothing to send.
pub const STATUS_NO_CONTENT: u16 = 204;

/// No user has the id that the request names.
pub const STATUS_NOT_FOUND: u16 = 404;

/// The storage engine failed.
pub const STATUS_INTERNAL_SERVER_ERROR: u16 = 500;

/// The body that goes with [`STATUS_NOT_FOUND`].
pub const NOT_FOUND_MESSAGE: &'static str = "User not found";

/// The body of a response. Users go out as JSON, a text as it is.
#[derive(Debug, Clone, PartialEq, Eq)]
pub enum Body {
    Empty,
    Text(String),
    User(User),
    Users(Vec<User>),
}

/// An HTTP response.
#[derive(Debug, Clone, PartialEq, Eq)]
pub struct Response {
    pub status: u16,
    pub body: Body,
}

/// A body as a mathematical value.
pub enum BodyView {
    Empty,
    Text(Seq<char>),
    User(UserView),
    Users(Seq<UserView>),
}

/// A response as a mathematical value.
pub struct ResponseView {
    pub status: u16,
    pub body: BodyView,
}

impl View for Body {
    type V = BodyView;

    open spec fn view(&self) -> BodyView {
        match self {
            Body::Empty => BodyView::Empty,
            Body::Text(text) => BodyView::Text(text@),
            Body::User(user) => BodyView::User(user@),
            Body::Users(users) => BodyView::Users(user_views(users@)),
        }
    }
}

impl View for Response {
    type V = ResponseView;

    open spec fn view(&self) -> ResponseView {
        ResponseView { status: self.status, body: self.body@ }
    }
}

/// Why a request failed.
#[derive(Debug, Clone, PartialEq, Eq)]
pub enum ApiError {
    /// No row has the id.
    NotFound,
    /// The storage engine failed; the text is the engine's own.
    Internal(String),
}

/// A failure as a mathematical value.
pub enum ApiErrorView {
    NotFound,
    Internal(Seq<char>),
}

impl View for ApiError {
    type V = ApiErrorView;

    open spec fn view(&self) -> ApiErrorView {
        match self {
            ApiError::NotFound => ApiErrorView::NotFound,
            ApiError::Internal(message) => ApiErrorView::Internal(message@),
        }
    }
}

impl ApiErrorView {
    /// The status that reports the failure.
    pub open spec fn status(self) -> u16 {
        match self {
            ApiErrorView::NotFound => STATUS_NOT_FOUND,
            ApiErrorView::Internal(_) => STATUS_INTERNAL_SERVER_ERROR,
        }
    }

    /// The text that reports the failure.
    pub open spec fn message(self) -> Seq<char> {
        match self {
            ApiErrorView::NotFound => NOT_FOUND_MESSAGE@,
            ApiErrorView::Internal(message) => message,
        }
    }

    /// The response that reports the failure: its status, and its text as
    /// the body.
    pub open spec fn response(self) -> ResponseView {
        ResponseView { status: self.status(), body: BodyView::Text(self.message()) }
    }
}

impl ResponseView {
    /// 200 with one user.
    pub open spec fn user(user: UserView) -> ResponseView {
        ResponseView { status: STATUS_OK, body: BodyView::User(user) }
    }

    /// 200 with a list of users.
    pub open spec fn users(users: Seq<UserView>) -> ResponseView {
        ResponseView { status: STATUS_OK, body: BodyView::Users(users) }
    }

    /// 204 with nothing.
    pub open spec fn no_content() -> ResponseView {
        ResponseView { status: STATUS_NO_CONTENT, body: BodyView::Empty }
    }

    /// 404 with the text that says so.
    pub open spec fn not_found() -> ResponseView {
        ApiErrorView::NotFound.response()
    }

    /// 500 with the engine's text.
    pub open spec fn internal(message: Seq<char>) -> ResponseView {
        ApiErrorView::Internal(message).response()
    }
}

impl ApiError {
    /// The status that reports the failure.
    pub fn status(&self) -> (code: u16)
        ensures
            code == self@.status(),
    {
        match self {
            ApiError::NotFound => STATUS_NOT_FOUND,
            ApiError::Internal(_) => STATUS_INTERNAL_SERVER_ERROR,
        }
    }

    /// The text that reports the failure.
    pub fn message(self) -> (text: String)
        ensures
            text@ == self@.message(),
    {
        match self {
            ApiError::NotFound => NOT_FOUND_MESSAGE.to_owned(),
            ApiError::Internal(message) => message,
        }
    }

    /// The response that reports the failure.
    pub fn into_response(self) -> (response: Response)
        ensures
            response@ == self@.response(),
    {
        let status = self.status();
        Response { status, body: Body::Text(self.message()) }
    }
}

impl Response {
    /// 200 with one user.
    pub fn user(user: User) -> (response: Response)
        ensures
            response@ == ResponseView::user(user@),
    {
        Response { status: STATUS_OK, body: Body::User(user) }
    }

    /// 200 with a list of users.
    pub fn users(users: Vec<User>) -> (response: Response)
        ensures
            response@ == ResponseView::users(user_views(users@)),
    {
        Response { status: STATUS_OK, body: Body::Users(users) }
    }

    /// 204 with nothing.
    pub fn no_content() -> (response: Response)
        ensures
            response@ == ResponseView::no_content(),
    {
        Response { status: STATUS_NO_CONTENT, body: Body::Empty }
    }
}

} // verus!
