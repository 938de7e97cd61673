//! The five request handlers, each cut at the points where it waits for the
//! storage engine.
//!
//! A handler starts with the function that bears its name, which gives the
//! first statement to run. The caller runs the statement and hands the
//! engine's reply to the handler's next function, until one of them gives the
//! response. Listing, reading and deleting take one statement; creating and
//! updating take two, a write and a read of the row that was written. The
//! two are not one transaction: where the read fails after the write went
//! through, the write stays and the client gets the failure.
//!
//! A failure of the engine is answered with status 500 and the engine's own
//! text. A row that is not there is answered with status 404: by the two
//! handlers that read or re-read the row of the request, where the engine
//! finds none, and by the handler that deletes, where the engine removed none.

use crate::models::{CreateUser, CreateUserView, UpdateUser, UpdateUserView, User, UserView};
use crate::response::{ApiError, ApiErrorView, Response, ResponseView};
use crate::storage::{
    exec_reply_view, row_reply_view, rows_reply_view, ExecResult, Statement, StatementView,
    StorageError, StorageErrorKind, StorageErrorView,
};
use vstd::prelude::*;

verus! {

/// What a handler does after a write has been answered.
#[derive(Debug, Clone, PartialEq, Eq)]
pub enum Step {
    /// Run this statement, which reads one row, and hand its reply to the
    /// handler's last function.
    Fetch(Statement),
    /// Send this response; the handler is done.
    Respond(Response),
}

/// A step as a mathematical value.
pub enum StepView {
    Fetch(StatementView),
    Respond(ResponseView),
}

impl View for Step {
    type V = StepView;

    open spec fn view(&self) -> StepView {
        match self {
            Step::Fetch(statement) => StepView::Fetch(statement@),
            Step::Respond(response) => StepView::Respond(response@),
        }
    }
}

/// The statement with which [`list_users`] starts.
pub open spec fn list_users_statement() -> StatementView {
    StatementView::SelectAll
}

/// The statement with which [`create_user`] starts: the insert of the name
/// and the e-mail of the payload.
pub open spec fn create_user_statement(payload: CreateUserView) -> StatementView {
    StatementView::Insert { name: payload.name, email: payload.email }
}

/// The statement with which [`get_user`] starts.
pub open spec fn get_user_statement(id: int) -> StatementView {
    StatementView::SelectById { id }
}

/// The statement with which [`update_user`] starts: the update of the row
/// with that id, with a replacement for each field that the payload holds.
pub open spec fn update_user_statement(id: int, payload: UpdateUserView) -> StatementView {
    StatementView::Update { id, new_name: payload.name, new_email: payload.email }
}

/// The statement with which [`delete_user`] starts.
pub open spec fn delete_user_statement(id: int) -> StatementView {
    StatementView::DeleteById { id }
}

/// Every failure of the engine taken as an internal error.
pub open spec fn internal_error(e: StorageErrorView) -> ApiErrorView {
    ApiErrorView::Internal(e.message)
}

/// A failure of the engine where a missing row is an answer of its own.
pub open spec fn lookup_error(e: StorageErrorView) -> ApiErrorView {
    match e.kind {
        StorageErrorKind::RowNotFound => ApiErrorView::NotFound,
        StorageErrorKind::Other => ApiErrorView::Internal(e.message),
    }
}

/// The response to a request for all users, given the reply to
/// [`list_users`]: the users as they came, or the failure.
pub open spec fn list_users_response(
    reply: Result<Seq<UserView>, StorageErrorView>,
) -> ResponseView {
    match reply {
        Ok(users) => ResponseView::users(users),
        Err(e) => internal_error(e).response(),
    }
}

/// What follows the insert of [`create_user`]: the read of the row with the
/// id that the insert reports, or the failure.
pub open spec fn create_user_step(reply: Result<ExecResult, StorageErrorView>) -> StepView {
    match reply {
        Ok(done) => StepView::Fetch(get_user_statement(done.last_insert_rowid as int)),
        Err(e) => StepView::Respond(internal_error(e).response()),
    }
}

/// The response to a request that creates a user, given the reply to the
/// read: the row, or the failure, whatever its kind.
pub open spec fn create_user_response(reply: Result<UserView, StorageErrorView>) -> ResponseView {
    match reply {
        Ok(user) => ResponseView::user(user),
        Err(e) => internal_error(e).response(),
    }
}

/// The response to a request for one user, given the reply to [`get_user`].
pub open spec fn get_user_response(reply: Result<UserView, StorageErrorView>) -> ResponseView {
    match reply {
        Ok(user) => ResponseView::user(user),
        Err(e) => lookup_error(e).response(),
    }
}

/// What follows the update of [`update_user`]: the read of the row with the
/// id of the request, whether or not the update changed a row, or the failure.
pub open spec fn update_user_step(
    id: int,
    reply: Result<ExecResult, StorageErrorView>,
) -> StepView {
    match reply {
        Ok(_) => StepView::Fetch(get_user_statement(id)),
        Err(e) => StepView::Respond(internal_error(e).response()),
    }
}

/// The response to a request that changes a user, given the reply to the
/// read. A row that is not there means that the id is unknown.
pub open spec fn update_user_response(reply: Result<UserView, StorageErrorView>) -> ResponseView {
    match reply {
        Ok(user) => ResponseView::user(user),
        Err(e) => lookup_error(e).response(),
    }
}

/// The response to a request that deletes a user, given the reply to
/// [`delete_user`]. A delete that removed no row means that the id is unknown.
pub open spec fn delete_user_response(reply: Result<ExecResult, StorageErrorView>) -> ResponseView {
    match reply {
        Ok(done) => if done.rows_affected == 0 {
            ApiErrorView::NotFound.response()
        } else {
            ResponseView::no_content()
        },
        Err(e) => internal_error(e).response(),
    }
}

/// Takes a failure of the engine as an internal error with the engine's text.
pub fn internal(e: StorageError) -> (error: ApiError)
    ensures
        error@ == internal_error(e@),
{
    ApiError::Internal(e.message)
}

/// Tells a missing row from the other failures of the engine.
pub fn lookup_failed(e: StorageError) -> (error: ApiError)
    ensures
        error@ == lookup_error(e@),
{
    match e.kind {
        StorageErrorKind::RowNotFound => ApiError::NotFound,
        StorageErrorKind::Other => ApiError::Internal(e.message),
    }
}

/// `GET /users`: the statement that reads all users in the order of their ids.
pub fn list_users() -> (statement: Statement)
    ensures
        statement@ == list_users_statement(),
{
    Statement::SelectAll
}

/// `GET /users`, after the read: 200 with the users, or 500.
pub fn list_users_done(reply: Result<Vec<User>, StorageError>) -> (response: Response)
    ensures
        response@ == list_users_response(rows_reply_view(reply)),
{
    match reply {
        Ok(users) => Response::users(users),
        Err(e) => internal(e).into_response(),
    }
}

/// `POST /users`: the statement that inserts the name and the e-mail of the
/// payload.
pub fn create_user(payload: CreateUser) -> (statement: Statement)
    ensures
        statement@ == create_user_statement(payload@),
{
    Statement::Insert { name: payload.name, email: payload.email }
}

/// `POST /users`, after the insert: read the new row, or 500.
pub fn create_user_inserted(reply: Result<ExecResult, StorageError>) -> (step: Step)
    ensures
        step@ == create_user_step(exec_reply_view(reply)),
{
    match reply {
        Ok(done) => Step::Fetch(Statement::SelectById { id: done.last_insert_rowid }),
        Err(e) => Step::Respond(internal(e).into_response()),
    }
}

/// `POST /users`, after the read: 200 with the new user, or 500.
pub fn create_user_done(reply: Result<User, StorageError>) -> (response: Response)
    ensures
        response@ == create_user_response(row_reply_view(reply)),
{
    match reply {
        Ok(user) => Response::user(user),
        Err(e) => internal(e).into_response(),
    }
}

/// `GET /users/:id`: the statement that reads the row with that id.
pub fn get_user(id: i64) -> (statement: Statement)
    ensures
        statement@ == get_user_statement(id as int),
{
    Statement::SelectById { id }
}

/// `GET /users/:id`, after the read: 200 with the user, 404 where there is
/// no such row, or 500.
pub fn get_user_done(reply: Result<User, StorageError>) -> (response: Response)
    ensures
        response@ == get_user_response(row_reply_view(reply)),
{
    match reply {
        Ok(user) => Response::user(user),
        Err(e) => lookup_failed(e).into_response(),
    }
}

/// `PUT /users/:id`: the statement that replaces the fields that the payload
/// holds and keeps the others.
pub fn update_user(id: i64, payload: UpdateUser) -> (statement: Statement)
    ensures
        statement@ == update_user_statement(id as int, payload@),
{
    Statement::Update { id, new_name: payload.name, new_email: payload.email }
}

/// `PUT /users/:id`, after the update: read the row again, or 500.
pub fn update_user_updated(id: i64, reply: Result<ExecResult, StorageError>) -> (step: Step)
    ensures
        step@ == update_user_step(id as int, exec_reply_view(reply)),
{
    match reply {
        Ok(_) => Step::Fetch(Statement::SelectById { id }),
        Err(e) => Step::Respond(internal(e).into_response()),
    }
}

/// `PUT /users/:id`, after the read: 200 with the user as it is now, 404
/// where there is no such row, or 500.
pub fn update_user_done(reply: Result<User, StorageError>) -> (response: Response)
    ensures
        response@ == update_user_response(row_reply_view(reply)),
{
    match reply {
        Ok(user) => Response::user(user),
        Err(e) => lookup_failed(e).into_response(),
    }
}

/// `DELETE /users/:id`: the statement that removes the row with that id.
pub fn delete_user(id: i64) -> (statement: Statement)
    ensures
        statement@ == delete_user_statement(id as int),
{
    Statement::DeleteById { id }
}

/// `DELETE /users/:id`, after the delete: 204 where a row went, 404 where
/// none did, or 500.
pub fn delete_user_done(reply: Result<ExecResult, StorageError>) -> (response: Response)
    ensures
        response@ == delete_user_response(exec_reply_view(reply)),
{
    match reply {
        Ok(done) => if done.rows_affected == 0 {
            ApiError::NotFound.into_response()
        } else {
            Response::no_content()
        },
        Err(e) => internal(e).into_response(),
    }
}

} // verus!
