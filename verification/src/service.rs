//! What a client of the service observes.
//!
//! [`serves`] puts a handler of [`crate::handlers`] and the table of
//! [`crate::table`] together: it holds of a table, a request, a response and
//! a second table where the handler, run to its end against an engine that
//! answers as the table says, gives that response and leaves that table.
//! The lemmas below are proved of it. They hold of one request after the
//! other; where requests overlap, the engine puts their statements in some
//! order.

use crate::handlers::{
    create_user_response, create_user_statement, create_user_step, delete_user_response,
    delete_user_statement, get_user_response, get_user_statement, list_users_response,
    list_users_statement, update_user_response, update_user_statement, update_user_step, StepView,
};
use crate::models::{CreateUserView, UpdateUserView, UserView};
use crate::response::{
    ResponseView, STATUS_INTERNAL_SERVER_ERROR, STATUS_NOT_FOUND, STATUS_OK,
};
use crate::routes::Operation;
use crate::storage::{ExecResult, StatementView, StorageErrorKind, StorageErrorView};
use crate::table::{
    lemma_listing_is_unique, lemma_listing_lists, lemma_statement_keeps_well_formed, Table,
};
use vstd::prelude::*;

verus! {

/// A request, after its path and its body have been decoded.
pub enum Request {
    /// `GET /users`
    ListUsers,
    /// `POST /users`
    CreateUser(CreateUserView),
    /// `GET /users/:id`
    GetUser(int),
    /// `PUT /users/:id`
    UpdateUser(int, UpdateUserView),
    /// `DELETE /users/:id`
    DeleteUser(int),
}

impl Request {
    /// The line of the route table that the request came in by.
    pub open spec fn operation(self) -> Operation {
        match self {
            Request::ListUsers => Operation::ListUsers,
            Request::CreateUser(_) => Operation::CreateUser,
            Request::GetUser(_) => Operation::GetUser,
            Request::UpdateUser(_, _) => Operation::UpdateUser,
            Request::DeleteUser(_) => Operation::DeleteUser,
        }
    }

    /// The statement with which the handler of the request starts.
    pub open spec fn first_statement(self) -> StatementView {
        match self {
            Request::ListUsers => list_users_statement(),
            Request::CreateUser(payload) => create_user_statement(payload),
            Request::GetUser(id) => get_user_statement(id),
            Request::UpdateUser(id, payload) => update_user_statement(id, payload),
            Request::DeleteUser(id) => delete_user_statement(id),
        }
    }
}

/// The handler that lists gives `response` when its read is answered with
/// `fetched`.
pub open spec fn lists_users(
    table: Table,
    fetched: Result<Seq<UserView>, StorageErrorView>,
    response: ResponseView,
) -> bool {
    &&& table.fetches_all(list_users_statement(), fetched)
    &&& response == list_users_response(fetched)
}

/// The handler that creates gives `response` when its insert is answered
/// with `inserted` and its read, if it comes to one, with `fetched`.
pub open spec fn creates_user(
    table: Table,
    payload: CreateUserView,
    inserted: Result<ExecResult, StorageErrorView>,
    fetched: Result<UserView, StorageErrorView>,
    response: ResponseView,
) -> bool {
    &&& table.executes(create_user_statement(payload), inserted)
    &&& match create_user_step(inserted) {
        StepView::Respond(early) => response == early,
        StepView::Fetch(select) => {
            &&& table.after(create_user_statement(payload)).fetches_one(select, fetched)
            &&& response == create_user_response(fetched)
        },
    }
}

/// The handler that reads gives `response` when its read is answered with
/// `fetched`.
pub open spec fn gets_user(
    table: Table,
    id: int,
    fetched: Result<UserView, StorageErrorView>,
    response: ResponseView,
) -> bool {
    &&& table.fetches_one(get_user_statement(id), fetched)
    &&& response == get_user_response(fetched)
}

/// The handler that updates gives `response` when its update is answered
/// with `updated` and its read, if it comes to one, with `fetched`.
pub open spec fn updates_user(
    table: Table,
    id: int,
    payload: UpdateUserView,
    updated: Result<ExecResult, StorageErrorView>,
    fetched: Result<UserView, StorageErrorView>,
    response: ResponseView,
) -> bool {
    &&& table.executes(update_user_statement(id, payload), updated)
    &&& match update_user_step(id, updated) {
        StepView::Respond(early) => response == early,
        StepView::Fetch(select) => {
            &&& table.after(update_user_statement(id, payload)).fetches_one(select, fetched)
            &&& response == update_user_response(fetched)
        },
    }
}

/// The handler that deletes gives `response` when its delete is answered
/// with `deleted`.
pub open spec fn deletes_user(
    table: Table,
    id: int,
    deleted: Result<ExecResult, StorageErrorView>,
    response: ResponseView,
) -> bool {
    &&& table.executes(delete_user_statement(id), deleted)
    &&& response == delete_user_response(deleted)
}

/// Served on `table`, `request` can be answered with `response`, and the
/// table is `next` afterwards. Only the first statement of a handler writes,
/// so the table afterwards is the table after that statement.
pub open spec fn serves(
    table: Table,
    request: Request,
    response: ResponseView,
    next: Table,
) -> bool {
    &&& next == table.after(request.first_statement())
    &&& match request {
        Request::ListUsers => exists|fetched: Result<Seq<UserView>, StorageErrorView>| #[trigger]
            lists_users(table, fetched, response),
        Request::CreateUser(payload) => exists|
            inserted: Result<ExecResult, StorageErrorView>,
            fetched: Result<UserView, StorageErrorView>,
        | #[trigger] creates_user(table, payload, inserted, fetched, response),
        Request::GetUser(id) => exists|fetched: Result<UserView, StorageErrorView>| #[trigger]
            gets_user(table, id, fetched, response),
        Request::UpdateUser(id, payload) => exists|
            updated: Result<ExecResult, StorageErrorView>,
            fetched: Result<UserView, StorageErrorView>,
        | #[trigger] updates_user(table, id, payload, updated, fetched, response),
        Request::DeleteUser(id) => exists|deleted: Result<ExecResult, StorageErrorView>| #[trigger]
            deletes_user(table, id, deleted, response),
    }
}

/// The user that a creation on `table` returns: the payload under the next id.
pub open spec fn created_user(table: Table, payload: CreateUserView) -> UserView {
    UserView { id: table.last_id + 1, name: payload.name, email: payload.email }
}

/// The user that an update on `table` returns: the row with each field
/// replaced that the payload holds.
pub open spec fn updated_user(table: Table, id: int, payload: UpdateUserView) -> UserView {
    let row = table.merged(id, payload.name, payload.email);
    UserView { id, name: row.name, email: row.email }
}

/// Whatever is served, the table stays as the schema wants it, and the
/// highest id that was assigned never goes down.
pub proof fn lemma_table_stays_well_formed(
    table: Table,
    request: Request,
    response: ResponseView,
    next: Table,
)
    requires
        table.wf(),
        serves(table, request, response, next),
    ensures
        next.wf(),
        table.last_id <= next.last_id,
{
    match request {
        Request::CreateUser(payload) => {
            lemma_statement_keeps_well_formed(table, create_user_statement(payload));
        },
        Request::UpdateUser(id, payload) => {
            lemma_statement_keeps_well_formed(table, update_user_statement(id, payload));
        },
        Request::DeleteUser(id) => {
            lemma_statement_keeps_well_formed(table, delete_user_statement(id));
        },
        _ => {},
    }
}

/// Every request gets a response on a well-formed table.
pub proof fn lemma_every_request_is_served(table: Table, request: Request)
    requires
        table.wf(),
    ensures
        exists|response: ResponseView, next: Table| serves(table, request, response, next),
{
    let failure = StorageErrorView { kind: StorageErrorKind::Other, message: Seq::empty() };
    let missing = StorageErrorView { kind: StorageErrorKind::RowNotFound, message: Seq::empty() };
    let no_row = Err::<UserView, StorageErrorView>(missing);
    match request {
        Request::ListUsers => {
            lemma_listing_lists(table);
            let fetched = Ok::<Seq<UserView>, StorageErrorView>(table.listing());
            let response = list_users_response(fetched);
            assert(lists_users(table, fetched, response));
            assert(serves(table, request, response, table));
        },
        Request::CreateUser(payload) => {
            let insert = create_user_statement(payload);
            let next = table.after(insert);
            if table.accepts(insert) {
                let id = table.last_id + 1;
                let inserted = Ok::<ExecResult, StorageErrorView>(
                    ExecResult { rows_affected: 1, last_insert_rowid: id as i64 },
                );
                let fetched = Ok::<UserView, StorageErrorView>(next.user(id));
                let response = create_user_response(fetched);
                assert(creates_user(table, payload, inserted, fetched, response));
                assert(serves(table, request, response, next));
            } else {
                let inserted = Err::<ExecResult, StorageErrorView>(failure);
                let response = create_user_step(inserted)->Respond_0;
                assert(creates_user(table, payload, inserted, no_row, response));
                assert(serves(table, request, response, next));
            }
        },
        Request::GetUser(id) => {
            let fetched = if table.has(id) {
                Ok::<UserView, StorageErrorView>(table.user(id))
            } else {
                no_row
            };
            let response = get_user_response(fetched);
            assert(gets_user(table, id, fetched, response));
            assert(serves(table, request, response, table));
        },
        Request::UpdateUser(id, payload) => {
            let update = update_user_statement(id, payload);
            let next = table.after(update);
            if table.accepts(update) {
                let updated = Ok::<ExecResult, StorageErrorView>(
                    ExecResult {
                        rows_affected: if table.has(id) {
                            1
                        } else {
                            0
                        },
                        last_insert_rowid: 0,
                    },
                );
                let fetched = if next.has(id) {
                    Ok::<UserView, StorageErrorView>(next.user(id))
                } else {
                    no_row
                };
                let response = update_user_response(fetched);
                assert(updates_user(table, id, payload, updated, fetched, response));
                assert(serves(table, request, response, next));
            } else {
                let updated = Err::<ExecResult, StorageErrorView>(failure);
                let response = update_user_step(id, updated)->Respond_0;
                assert(updates_user(table, id, payload, updated, no_row, response));
                assert(serves(table, request, response, next));
            }
        },
        Request::DeleteUser(id) => {
            let delete = delete_user_statement(id);
            let deleted = Ok::<ExecResult, StorageErrorView>(
                ExecResult {
                    rows_affected: if table.has(id) {
                        1
                    } else {
                        0
                    },
                    last_insert_rowid: 0,
                },
            );
            let response = delete_user_response(deleted);
            assert(deletes_user(table, id, deleted, response));
            assert(serves(table, request, response, table.after(delete)));
        },
    }
}

/// Listing answers 200 with every user once, in strictly increasing order of
/// the ids, whatever was inserted, updated or deleted before, and changes
/// nothing.
pub proof fn lemma_list_is_in_id_order(table: Table, response: ResponseView, next: Table)
    requires
        table.wf(),
        serves(table, Request::ListUsers, response, next),
    ensures
        response == ResponseView::users(table.listing()),
        table.lists(table.listing()),
        forall|i: int, j: int|
            0 <= i < j < table.listing().len() ==> table.listing()[i].id < table.listing()[j].id,
        next == table,
{
    let fetched = choose|fetched: Result<Seq<UserView>, StorageErrorView>| #[trigger]
        lists_users(table, fetched, response);
    lemma_listing_lists(table);
    lemma_listing_is_unique(table, fetched->Ok_0, table.listing());
}

/// Creating answers 200 with the payload under a new id, one above the
/// highest id assigned before, where no row has the e-mail yet and an id is
/// left; the rows that were there stay as they are. Else it answers 500 and
/// the table stays as it is.
pub proof fn lemma_create_outcome(
    table: Table,
    payload: CreateUserView,
    response: ResponseView,
    next: Table,
)
    requires
        table.wf(),
        serves(table, Request::CreateUser(payload), response, next),
    ensures
        !table.email_in_use(payload.email) && table.last_id < i64::MAX ==> {
            &&& response == ResponseView::user(created_user(table, payload))
            &&& next.has(table.last_id + 1)
            &&& next.user(table.last_id + 1) == created_user(table, payload)
            &&& next.last_id == table.last_id + 1
            &&& forall|id: int| table.has(id) ==> next.has(id) && next.user(id) == table.user(id)
        },
        table.email_in_use(payload.email) || table.last_id == i64::MAX ==> {
            &&& response.status == STATUS_INTERNAL_SERVER_ERROR
            &&& next == table
        },
{
}

/// Reading answers 200 with the row where there is one with that id, else
/// 404, and changes nothing.
pub proof fn lemma_get_outcome(table: Table, id: int, response: ResponseView, next: Table)
    requires
        serves(table, Request::GetUser(id), response, next),
    ensures
        table.has(id) ==> response == ResponseView::user(table.user(id)),
        !table.has(id) ==> response == ResponseView::not_found(),
        next == table,
{
}

/// Updating answers 404 where no row has that id. Where one has, it answers
/// 200 with the row under the same id, each field replaced that the payload
/// holds and each other field as it was, unless another row has the new
/// e-mail: then it answers 500. Only on 200 the table changes, in that row
/// alone.
pub proof fn lemma_update_outcome(
    table: Table,
    id: int,
    payload: UpdateUserView,
    response: ResponseView,
    next: Table,
)
    requires
        table.wf(),
        serves(table, Request::UpdateUser(id, payload), response, next),
    ensures
        !table.has(id) ==> response == ResponseView::not_found() && next == table,
        table.has(id) && (payload.email matches Some(email) && table.email_of_another(id, email))
            ==> response.status == STATUS_INTERNAL_SERVER_ERROR && next == table,
        table.has(id) && !(payload.email matches Some(email) && table.email_of_another(id, email))
            ==> {
            &&& response == ResponseView::user(updated_user(table, id, payload))
            &&& next.has(id)
            &&& next.user(id) == updated_user(table, id, payload)
            &&& next.last_id == table.last_id
            &&& forall|other: int|
                other != id ==> next.has(other) == table.has(other) && next.rows[other]
                    == table.rows[other]
        },
{
    if table.has(id) && payload.email is None {
        assert(!table.email_of_another(id, table.rows[id].email));
    }
}

/// Deleting answers 204 where a row has that id and 404 where none has;
/// afterwards none has, and the other rows are as they were.
pub proof fn lemma_delete_outcome(table: Table, id: int, response: ResponseView, next: Table)
    requires
        serves(table, Request::DeleteUser(id), response, next),
    ensures
        table.has(id) ==> response == ResponseView::no_content(),
        !table.has(id) ==> response == ResponseView::not_found(),
        !next.has(id),
        next.last_id == table.last_id,
        forall|other: int|
            other != id ==> next.has(other) == table.has(other) && next.rows[other]
                == table.rows[other],
{
}

/// What is served is determined by the table and the request, but for the
/// text of a failure of the engine: the table afterwards and the status are
/// the same in every run, and so is the body unless the status is 500.
pub proof fn lemma_response_is_determined(
    table: Table,
    request: Request,
    one: ResponseView,
    next_one: Table,
    other: ResponseView,
    next_other: Table,
)
    requires
        table.wf(),
        serves(table, request, one, next_one),
        serves(table, request, other, next_other),
    ensures
        next_one == next_other,
        one.status == other.status,
        one.status != STATUS_INTERNAL_SERVER_ERROR ==> one == other,
{
    match request {
        Request::ListUsers => {
            lemma_list_is_in_id_order(table, one, next_one);
            lemma_list_is_in_id_order(table, other, next_other);
        },
        Request::CreateUser(payload) => {
            lemma_create_outcome(table, payload, one, next_one);
            lemma_create_outcome(table, payload, other, next_other);
        },
        Request::GetUser(id) => {
            lemma_get_outcome(table, id, one, next_one);
            lemma_get_outcome(table, id, other, next_other);
        },
        Request::UpdateUser(id, payload) => {
            lemma_update_outcome(table, id, payload, one, next_one);
            lemma_update_outcome(table, id, payload, other, next_other);
        },
        Request::DeleteUser(id) => {
            lemma_delete_outcome(table, id, one, next_one);
            lemma_delete_outcome(table, id, other, next_other);
        },
    }
}

/// A user that was created is read back under the id that the creation
/// returned, with the name and the e-mail that were sent.
pub proof fn lemma_created_user_is_read_back(
    table: Table,
    payload: CreateUserView,
    user: UserView,
    created: Table,
    read: ResponseView,
    next: Table,
)
    requires
        table.wf(),
        serves(table, Request::CreateUser(payload), ResponseView::user(user), created),
        serves(created, Request::GetUser(user.id), read, next),
    ensures
        read == ResponseView::user(user),
        user.name == payload.name,
        user.email == payload.email,
{
    lemma_create_outcome(table, payload, ResponseView::user(user), created);
    lemma_get_outcome(created, user.id, read, next);
}

/// After a user was deleted, reading it answers 404, whether or not the
/// delete found a row.
pub proof fn lemma_deleted_user_is_gone(
    table: Table,
    id: int,
    deleted: ResponseView,
    emptied: Table,
    read: ResponseView,
    next: Table,
)
    requires
        serves(table, Request::DeleteUser(id), deleted, emptied),
        serves(emptied, Request::GetUser(id), read, next),
    ensures
        read == ResponseView::not_found(),
        read.status == STATUS_NOT_FOUND,
{
    lemma_delete_outcome(table, id, deleted, emptied);
    lemma_get_outcome(emptied, id, read, next);
}

/// Reading an id that the table never assigned answers 404.
pub proof fn lemma_unissued_id_is_not_found(
    table: Table,
    id: int,
    read: ResponseView,
    next: Table,
)
    requires
        table.wf(),
        !table.issued(id),
        serves(table, Request::GetUser(id), read, next),
    ensures
        read == ResponseView::not_found(),
        read.status == STATUS_NOT_FOUND,
{
    lemma_get_outcome(table, id, read, next);
}

/// An update that succeeds returns the user with the fields of the payload
/// and, for a field that the payload lacks, what the row held before: with a
/// name only the e-mail stays, with an e-mail only the name stays, with both
/// both are replaced. The id stays in every case.
pub proof fn lemma_update_keeps_absent_fields(
    table: Table,
    id: int,
    payload: UpdateUserView,
    user: UserView,
    next: Table,
)
    requires
        table.wf(),
        serves(table, Request::UpdateUser(id, payload), ResponseView::user(user), next),
    ensures
        table.has(id),
        user.id == id,
        payload.name matches Some(name) ==> user.name == name,
        payload.name is None ==> user.name == table.user(id).name,
        payload.email matches Some(email) ==> user.email == email,
        payload.email is None ==> user.email == table.user(id).email,
        next.user(id) == user,
{
    lemma_update_outcome(table, id, payload, ResponseView::user(user), next);
}

/// Of two creations with the same e-mail, on a table where no row has it yet
/// and two ids are left, the first answers 200 with a user and the second 500.
pub proof fn lemma_email_is_created_once(
    table: Table,
    first: CreateUserView,
    second: CreateUserView,
    first_response: ResponseView,
    between: Table,
    second_response: ResponseView,
    next: Table,
)
    requires
        table.wf(),
        !table.email_in_use(first.email),
        table.last_id < i64::MAX,
        second.email == first.email,
        serves(table, Request::CreateUser(first), first_response, between),
        serves(between, Request::CreateUser(second), second_response, next),
    ensures
        first_response == ResponseView::user(created_user(table, first)),
        first_response.status == STATUS_OK,
        second_response.status == STATUS_INTERNAL_SERVER_ERROR,
        next == between,
{
    lemma_create_outcome(table, first, first_response, between);
    lemma_table_stays_well_formed(table, Request::CreateUser(first), first_response, between);
    assert(between.email_in_use(second.email)) by {
        assert(between.has(table.last_id + 1));
        assert(between.rows[table.last_id + 1].email == second.email);
    }
    lemma_create_outcome(between, second, second_response, next);
}

} // verus!
