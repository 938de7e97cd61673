use sqlx::query::Query;
use sqlx::sqlite::{SqliteArguments, SqlitePool, SqlitePoolOptions, SqliteRow};
use sqlx::{Row, Sqlite};
use tokio::runtime::{Builder, Runtime};
use users_api::handlers::{
    create_user, create_user_done, create_user_inserted, delete_user, delete_user_done, get_user,
    get_user_done, list_users, list_users_done, update_user, update_user_done,
    update_user_updated, Step,
};
use users_api::models::{CreateUser, UpdateUser, User};
use users_api::response::{Body, Response};
use users_api::storage::{ExecResult, Param, Statement, StorageError, StorageErrorKind};

/// An SQLite database in memory, and the handlers run against it.
struct Service {
    runtime: Runtime,
    pool: SqlitePool,
}

fn bind(statement: Statement) -> Query<'static, Sqlite, SqliteArguments<'static>> {
    let mut query = sqlx::query(statement.sql());
    for param in statement.params() {
        query = match param {
            Param::Integer(value) => query.bind(value),
            Param::Text(value) => query.bind(value),
            Param::Null => query.bind(None::<String>),
        };
    }
    query
}

fn storage_error(error: sqlx::Error) -> StorageError {
    let kind = match &error {
        sqlx::Error::RowNotFound => StorageErrorKind::RowNotFound,
        _ => StorageErrorKind::Other,
    };
    StorageError { kind, message: error.to_string() }
}

fn user_of(row: &SqliteRow) -> User {
    User {
        id: row.try_get("id").unwrap(),
        name: row.try_get("name").unwrap(),
        email: row.try_get("email").unwrap(),
    }
}

impl Service {
    fn start() -> Service {
        let runtime = Builder::new_current_thread().enable_all().build().unwrap();
        let pool = runtime
            .block_on(SqlitePoolOptions::new().max_connections(1).connect("sqlite::memory:"))
            .unwrap();
        let service = Service { runtime, pool };
        service.execute(Statement::CreateTable).unwrap();
        service
    }

    fn execute(&self, statement: Statement) -> Result<ExecResult, StorageError> {
        match self.runtime.block_on(bind(statement).execute(&self.pool)) {
            Ok(done) => Ok(ExecResult {
                rows_affected: done.rows_affected(),
                last_insert_rowid: done.last_insert_rowid(),
            }),
            Err(error) => Err(storage_error(error)),
        }
    }

    fn fetch_one(&self, statement: Statement) -> Result<User, StorageError> {
        match self.runtime.block_on(bind(statement).fetch_one(&self.pool)) {
            Ok(row) => Ok(user_of(&row)),
            Err(error) => Err(storage_error(error)),
        }
    }

    fn fetch_all(&self, statement: Statement) -> Result<Vec<User>, StorageError> {
        match self.runtime.block_on(bind(statement).fetch_all(&self.pool)) {
            Ok(rows) => Ok(rows.iter().map(user_of).collect()),
            Err(error) => Err(storage_error(error)),
        }
    }

    fn list(&self) -> Response {
        list_users_done(self.fetch_all(list_users()))
    }

    fn create(&self, name: &str, email: &str) -> Response {
        let payload = CreateUser { name: name.to_string(), email: email.to_string() };
        match create_user_inserted(self.execute(create_user(payload))) {
            Step::Fetch(select) => create_user_done(self.fetch_one(select)),
            Step::Respond(response) => response,
        }
    }

    fn get(&self, id: i64) -> Response {
        get_user_done(self.fetch_one(get_user(id)))
    }

    fn update(&self, id: i64, name: Option<&str>, email: Option<&str>) -> Response {
        let payload =
            UpdateUser { name: name.map(str::to_string), email: email.map(str::to_string) };
        match update_user_updated(id, self.execute(update_user(id, payload))) {
            Step::Fetch(select) => update_user_done(self.fetch_one(select)),
            Step::Respond(response) => response,
        }
    }

    fn delete(&self, id: i64) -> Response {
        delete_user_done(self.execute(delete_user(id)))
    }
}

fn user(id: i64, name: &str, email: &str) -> User {
    User { id, name: name.to_string(), email: email.to_string() }
}

fn ok_user(id: i64, name: &str, email: &str) -> Response {
    Response { status: 200, body: Body::User(user(id, name, email)) }
}

fn ok_users(users: Vec<User>) -> Response {
    Response { status: 200, body: Body::Users(users) }
}

fn not_found() -> Response {
    Response { status: 404, body: Body::Text("User not found".to_string()) }
}

fn no_content() -> Response {
    Response { status: 204, body: Body::Empty }
}

#[test]
fn scenario_create_list_update_delete_get() {
    let service = Service::start();
    assert_eq!(service.create("Ana", "ana@x.com"), ok_user(1, "Ana", "ana@x.com"));
    assert_eq!(service.list(), ok_users(vec![user(1, "Ana", "ana@x.com")]));
    assert_eq!(service.update(1, None, Some("a2@x.com")), ok_user(1, "Ana", "a2@x.com"));
    assert_eq!(service.delete(1), no_content());
    assert_eq!(service.get(1), not_found());
}

#[test]
fn list_of_an_empty_table_is_empty() {
    let service = Service::start();
    assert_eq!(service.list(), ok_users(vec![]));
}

#[test]
fn created_user_is_read_back() {
    let service = Service::start();
    let created = service.create("Bo", "bo@x.com");
    assert_eq!(created, ok_user(1, "Bo", "bo@x.com"));
    assert_eq!(service.get(1), created);
    let created = service.create("Cy", "cy@x.com");
    assert_eq!(created, ok_user(2, "Cy", "cy@x.com"));
    assert_eq!(service.get(2), created);
    assert_eq!(service.get(1), ok_user(1, "Bo", "bo@x.com"));
}

#[test]
fn created_user_keeps_every_character() {
    let service = Service::start();
    let name = "Zoë \"Z\" O'Neil; DROP TABLE users;--";
    let email = "zoë+tag@exämple.com";
    assert_eq!(service.create(name, email), ok_user(1, name, email));
    assert_eq!(service.get(1), ok_user(1, name, email));
    assert_eq!(service.create("", ""), ok_user(2, "", ""));
    assert_eq!(service.get(2), ok_user(2, "", ""));
}

#[test]
fn deleted_user_is_gone() {
    let service = Service::start();
    assert_eq!(service.create("Ana", "ana@x.com").status, 200);
    assert_eq!(service.create("Bo", "bo@x.com").status, 200);
    assert_eq!(service.delete(1), no_content());
    assert_eq!(service.get(1), not_found());
    assert_eq!(service.get(2), ok_user(2, "Bo", "bo@x.com"));
    assert_eq!(service.list(), ok_users(vec![user(2, "Bo", "bo@x.com")]));
}

#[test]
fn delete_of_an_unknown_id_answers_404_and_get_still_answers_404() {
    let service = Service::start();
    assert_eq!(service.delete(1), not_found());
    assert_eq!(service.get(1), not_found());
    assert_eq!(service.create("Ana", "ana@x.com").status, 200);
    assert_eq!(service.delete(1), no_content());
    assert_eq!(service.delete(1), not_found());
}

#[test]
fn id_that_was_never_issued_is_not_found() {
    let service = Service::start();
    assert_eq!(service.get(1), not_found());
    assert_eq!(service.create("Ana", "ana@x.com").status, 200);
    assert_eq!(service.get(2), not_found());
    assert_eq!(service.get(0), not_found());
    assert_eq!(service.get(-1), not_found());
    assert_eq!(service.get(i64::MAX), not_found());
    assert_eq!(service.get(i64::MIN), not_found());
}

#[test]
fn update_with_name_only_keeps_the_email() {
    let service = Service::start();
    assert_eq!(service.create("Ana", "ana@x.com").status, 200);
    assert_eq!(service.update(1, Some("Anna"), None), ok_user(1, "Anna", "ana@x.com"));
    assert_eq!(service.get(1), ok_user(1, "Anna", "ana@x.com"));
}

#[test]
fn update_with_email_only_keeps_the_name() {
    let service = Service::start();
    assert_eq!(service.create("Ana", "ana@x.com").status, 200);
    assert_eq!(service.update(1, None, Some("a2@x.com")), ok_user(1, "Ana", "a2@x.com"));
    assert_eq!(service.get(1), ok_user(1, "Ana", "a2@x.com"));
}

#[test]
fn update_with_both_replaces_both() {
    let service = Service::start();
    assert_eq!(service.create("Ana", "ana@x.com").status, 200);
    assert_eq!(
        service.update(1, Some("Anna"), Some("anna@x.com")),
        ok_user(1, "Anna", "anna@x.com")
    );
    assert_eq!(service.get(1), ok_user(1, "Anna", "anna@x.com"));
}

#[test]
fn update_with_neither_changes_nothing() {
    let service = Service::start();
    assert_eq!(service.create("Ana", "ana@x.com").status, 200);
    assert_eq!(service.update(1, None, None), ok_user(1, "Ana", "ana@x.com"));
    assert_eq!(service.get(1), ok_user(1, "Ana", "ana@x.com"));
}

#[test]
fn update_to_an_empty_text_replaces_the_field() {
    let service = Service::start();
    assert_eq!(service.create("Ana", "ana@x.com").status, 200);
    assert_eq!(service.update(1, Some(""), None), ok_user(1, "", "ana@x.com"));
}

#[test]
fn update_leaves_the_other_rows_alone() {
    let service = Service::start();
    assert_eq!(service.create("Ana", "ana@x.com").status, 200);
    assert_eq!(service.create("Bo", "bo@x.com").status, 200);
    assert_eq!(service.update(2, Some("Bob"), None), ok_user(2, "Bob", "bo@x.com"));
    assert_eq!(service.get(1), ok_user(1, "Ana", "ana@x.com"));
}

#[test]
fn update_of_an_unknown_id_answers_404() {
    let service = Service::start();
    assert_eq!(service.update(1, Some("Anna"), None), not_found());
    assert_eq!(service.create("Ana", "ana@x.com").status, 200);
    assert_eq!(service.update(2, Some("Anna"), Some("anna@x.com")), not_found());
    assert_eq!(service.list(), ok_users(vec![user(1, "Ana", "ana@x.com")]));
}

#[test]
fn update_to_the_email_of_another_user_answers_500() {
    let service = Service::start();
    assert_eq!(service.create("Ana", "ana@x.com").status, 200);
    assert_eq!(service.create("Bo", "bo@x.com").status, 200);
    let response = service.update(2, Some("Bob"), Some("ana@x.com"));
    assert_eq!(response.status, 500);
    assert!(matches!(response.body, Body::Text(_)));
    assert_eq!(service.get(2), ok_user(2, "Bo", "bo@x.com"));
}

#[test]
fn update_to_the_own_email_succeeds() {
    let service = Service::start();
    assert_eq!(service.create("Ana", "ana@x.com").status, 200);
    assert_eq!(service.update(1, Some("Anna"), Some("ana@x.com")), ok_user(1, "Anna", "ana@x.com"));
}

#[test]
fn list_is_in_id_order_whatever_was_done_before() {
    let service = Service::start();
    assert_eq!(service.create("d", "d@x.com").status, 200);
    assert_eq!(service.create("c", "c@x.com").status, 200);
    assert_eq!(service.create("b", "b@x.com").status, 200);
    assert_eq!(service.create("a", "a@x.com").status, 200);
    assert_eq!(service.update(3, Some("zz"), None).status, 200);
    assert_eq!(service.update(1, None, Some("0@x.com")).status, 200);
    assert_eq!(service.delete(2).status, 204);
    assert_eq!(service.create("e", "c@x.com").status, 200);
    assert_eq!(
        service.list(),
        ok_users(vec![
            user(1, "d", "0@x.com"),
            user(3, "zz", "b@x.com"),
            user(4, "a", "a@x.com"),
            user(5, "e", "c@x.com"),
        ])
    );
}

#[test]
fn same_email_is_created_once() {
    let service = Service::start();
    assert_eq!(service.create("Ana", "ana@x.com"), ok_user(1, "Ana", "ana@x.com"));
    let second = service.create("Other", "ana@x.com");
    assert_eq!(second.status, 500);
    match second.body {
        Body::Text(text) => assert!(text.contains("UNIQUE constraint failed")),
        other => panic!("unexpected body {other:?}"),
    }
    assert_eq!(service.list(), ok_users(vec![user(1, "Ana", "ana@x.com")]));
}

#[test]
fn same_name_is_created_twice() {
    let service = Service::start();
    assert_eq!(service.create("Ana", "ana@x.com"), ok_user(1, "Ana", "ana@x.com"));
    assert_eq!(service.create("Ana", "ana2@x.com"), ok_user(2, "Ana", "ana2@x.com"));
}

#[test]
fn refused_insert_uses_up_no_id() {
    let service = Service::start();
    assert_eq!(service.create("Ana", "ana@x.com"), ok_user(1, "Ana", "ana@x.com"));
    assert_eq!(service.create("Other", "ana@x.com").status, 500);
    assert_eq!(service.create("Bo", "bo@x.com"), ok_user(2, "Bo", "bo@x.com"));
}

#[test]
fn id_of_a_deleted_user_is_not_assigned_again() {
    let service = Service::start();
    assert_eq!(service.create("Ana", "ana@x.com"), ok_user(1, "Ana", "ana@x.com"));
    assert_eq!(service.create("Bo", "bo@x.com"), ok_user(2, "Bo", "bo@x.com"));
    assert_eq!(service.delete(2), no_content());
    assert_eq!(service.create("Cy", "cy@x.com"), ok_user(3, "Cy", "cy@x.com"));
    assert_eq!(service.delete(1), no_content());
    assert_eq!(service.delete(3), no_content());
    assert_eq!(service.create("Di", "di@x.com"), ok_user(4, "Di", "di@x.com"));
}

#[test]
fn email_of_a_deleted_user_is_free_again() {
    let service = Service::start();
    assert_eq!(service.create("Ana", "ana@x.com"), ok_user(1, "Ana", "ana@x.com"));
    assert_eq!(service.delete(1), no_content());
    assert_eq!(service.create("Ann", "ana@x.com"), ok_user(2, "Ann", "ana@x.com"));
}

#[test]
fn create_answers_500_when_no_id_is_left() {
    let service = Service::start();
    let highest =
        "INSERT INTO users (id, name, email) VALUES (9223372036854775807, 'Max', 'max@x.com')";
    service.runtime.block_on(sqlx::query(highest).execute(&service.pool)).unwrap();
    assert_eq!(service.create("Ana", "ana@x.com").status, 500);
    assert_eq!(service.list(), ok_users(vec![user(i64::MAX, "Max", "max@x.com")]));
}

#[test]
fn new_id_is_one_above_the_highest_that_was_assigned() {
    let service = Service::start();
    let tenth = "INSERT INTO users (id, name, email) VALUES (10, 'Ten', 'ten@x.com')";
    service.runtime.block_on(sqlx::query(tenth).execute(&service.pool)).unwrap();
    assert_eq!(service.create("Ana", "ana@x.com"), ok_user(11, "Ana", "ana@x.com"));
    assert_eq!(service.delete(11), no_content());
    assert_eq!(service.delete(10), no_content());
    assert_eq!(service.create("Bo", "bo@x.com"), ok_user(12, "Bo", "bo@x.com"));
}

#[test]
fn engine_reports_what_the_handlers_read() {
    let service = Service::start();
    let insert = Statement::Insert { name: "Ana".to_string(), email: "ana@x.com".to_string() };
    assert_eq!(
        service.execute(insert.clone()),
        Ok(ExecResult { rows_affected: 1, last_insert_rowid: 1 })
    );
    let refused = service.execute(insert).unwrap_err();
    assert_eq!(refused.kind, StorageErrorKind::Other);
    let update = Statement::Update { id: 1, new_name: None, new_email: None };
    assert_eq!(service.execute(update).unwrap().rows_affected, 1);
    let update = Statement::Update { id: 2, new_name: Some("x".to_string()), new_email: None };
    assert_eq!(service.execute(update).unwrap().rows_affected, 0);
    let missing = service.fetch_one(Statement::SelectById { id: 2 }).unwrap_err();
    assert_eq!(missing.kind, StorageErrorKind::RowNotFound);
    assert_eq!(
        missing.message,
        "no rows returned by a query that expected to return at least one row"
    );
    assert_eq!(service.execute(Statement::DeleteById { id: 2 }).unwrap().rows_affected, 0);
    assert_eq!(service.execute(Statement::DeleteById { id: 1 }).unwrap().rows_affected, 1);
    assert_eq!(service.fetch_all(Statement::SelectAll), Ok(vec![]));
}

#[test]
fn create_table_keeps_a_table_that_is_there() {
    let service = Service::start();
    assert_eq!(service.create("Ana", "ana@x.com").status, 200);
    assert!(service.execute(Statement::CreateTable).is_ok());
    assert_eq!(service.list(), ok_users(vec![user(1, "Ana", "ana@x.com")]));
}

#[test]
fn failure_of_the_engine_answers_500_with_its_text() {
    let service = Service::start();
    service.runtime.block_on(sqlx::query("DROP TABLE users").execute(&service.pool)).unwrap();
    for response in [
        service.list(),
        service.create("Ana", "ana@x.com"),
        service.get(1),
        service.update(1, Some("Anna"), None),
        service.delete(1),
    ] {
        assert_eq!(response.status, 500);
        match response.body {
            Body::Text(text) => assert!(text.contains("no such table: users")),
            other => panic!("unexpected body {other:?}"),
        }
    }
}
