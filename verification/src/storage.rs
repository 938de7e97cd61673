//! What is sent to the storage engine and what comes back from it.
//!
//! A [`Statement`] is one SQL statement with the values bound to its
//! placeholders. The caller runs it and hands back the engine's reply as
//! plain values: an [`ExecResult`], a [`User`](crate::models::User), a vector
//! of users, or a [`StorageError`].

use vstd::prelude::*;

verus! {

/// Creates the `users` table unless it is there already.
pub const CREATE_TABLE_SQL: &'static str =
    "CREATE TABLE IF NOT EXISTS users (id INTEGER PRIMARY KEY AUTOINCREMENT, name TEXT NOT NULL, email TEXT NOT NULL UNIQUE)";

/// Reads every user, lowest id first.
pub const SELECT_ALL_SQL: &'static str = "SELECT id, name, email FROM users ORDER BY id";

/// Inserts a user; the table assigns the id.
pub const INSERT_SQL: &'static str = "INSERT INTO users (name, email) VALUES (?, ?)";

/// Reads the user with a given id.
pub const SELECT_BY_ID_SQL: &'static str = "SELECT id, name, email FROM users WHERE id = ?";

/// Replaces the name and the e-mail of a user, each only where a value that
/// is not NULL is bound.
pub const UPDATE_SQL: &'static str =
    "UPDATE users SET name = COALESCE(?, name), email = COALESCE(?, email) WHERE id = ?";

/// Removes the user with a given id.
pub const DELETE_SQL: &'static str = "DELETE FROM users WHERE id = ?";

/// A value bound to a placeholder of a statement.
#[derive(Debug, Clone, PartialEq, Eq)]
pub enum Param {
    Integer(i64),
    Text(String),
    Null,
}

/// A bound value as a mathematical value.
pub enum ParamView {
    Integer(int),
    Text(Seq<char>),
    Null,
}

impl View for Param {
    type V = ParamView;

    open spec fn view(&self) -> ParamView {
        match self {
            Param::Integer(n) => ParamView::Integer(*n as int),
            Param::Text(s) => ParamView::Text(s@),
            Param::Null => ParamView::Null,
        }
    }
}

/// One statement on the `users` table.
#[derive(Debug, Clone, PartialEq, Eq)]
pub enum Statement {
    CreateTable,
    SelectAll,
    Insert { name: String, email: String },
    SelectById { id: i64 },
    Update { id: i64, new_name: Option<String>, new_email: Option<String> },
    DeleteById { id: i64 },
}

/// A statement as a mathematical value.
pub enum StatementView {
    CreateTable,
    SelectAll,
    Insert { name: Seq<char>, email: Seq<char> },
    SelectById { id: int },
    Update { id: int, new_name: Option<Seq<char>>, new_email: Option<Seq<char>> },
    DeleteById { id: int },
}

impl View for Statement {
    type V = StatementView;

    open spec fn view(&self) -> StatementView {
        match self {
            Statement::CreateTable => StatementView::CreateTable,
            Statement::SelectAll => StatementView::SelectAll,
            Statement::Insert { name, email } => StatementView::Insert {
                name: name@,
                email: email@,
            },
            Statement::SelectById { id } => StatementView::SelectById { id: *id as int },
            Statement::Update { id, new_name, new_email } => StatementView::Update {
                id: *id as int,
                new_name: crate::models::text_view(*new_name),
                new_email: crate::models::text_view(*new_email),
            },
            Statement::DeleteById { id } => StatementView::DeleteById { id: *id as int },
        }
    }
}

impl StatementView {
    /// The SQL text of the statement.
    pub open spec fn sql(self) -> Seq<char> {
        match self {
            StatementView::CreateTable => CREATE_TABLE_SQL@,
            StatementView::SelectAll => SELECT_ALL_SQL@,
            StatementView::Insert { .. } => INSERT_SQL@,
            StatementView::SelectById { .. } => SELECT_BY_ID_SQL@,
            StatementView::Update { .. } => UPDATE_SQL@,
            StatementView::DeleteById { .. } => DELETE_SQL@,
        }
    }

    /// The values bound to the placeholders of the SQL text, in the order of
    /// the placeholders. An absent replacement is bound as NULL.
    pub open spec fn params(self) -> Seq<ParamView> {
        match self {
            StatementView::CreateTable => seq![],
            StatementView::SelectAll => seq![],
            StatementView::Insert { name, email } => seq![
                ParamView::Text(name),
                ParamView::Text(email),
            ],
            StatementView::SelectById { id } => seq![ParamView::Integer(id)],
            StatementView::Update { id, new_name, new_email } => seq![
                text_or_null(new_name),
                text_or_null(new_email),
                ParamView::Integer(id),
            ],
            StatementView::DeleteById { id } => seq![ParamView::Integer(id)],
        }
    }
}

/// The text as a bound value, or NULL where there is none.
pub open spec fn text_or_null(text: Option<Seq<char>>) -> ParamView {
    match text {
        Some(s) => ParamView::Text(s),
        None => ParamView::Null,
    }
}

/// The bound values of a vector, each as a mathematical value.
pub open spec fn param_views(params: Seq<Param>) -> Seq<ParamView> {
    params.map_values(|p: Param| p@)
}

fn bind_text(text: Option<String>) -> (p: Param)
    ensures
        p@ == text_or_null(crate::models::text_view(text)),
{
    match text {
        Some(s) => Param::Text(s),
        None => Param::Null,
    }
}

impl Statement {
    /// The SQL text to prepare.
    pub fn sql(&self) -> (text: &'static str)
        ensures
            text@ == self@.sql(),
    {
        match self {
            Statement::CreateTable => CREATE_TABLE_SQL,
            Statement::SelectAll => SELECT_ALL_SQL,
            Statement::Insert { .. } => INSERT_SQL,
            Statement::SelectById { .. } => SELECT_BY_ID_SQL,
            Statement::Update { .. } => UPDATE_SQL,
            Statement::DeleteById { .. } => DELETE_SQL,
        }
    }

    /// The values to bind, first placeholder first.
    pub fn params(self) -> (bound: Vec<Param>)
        ensures
            param_views(bound@) == self@.params(),
    {
        let mut bound: Vec<Param> = Vec::new();
        match self {
            Statement::CreateTable => {},
            Statement::SelectAll => {},
            Statement::Insert { name, email } => {
                bound.push(Param::Text(name));
                bound.push(Param::Text(email));
            },
            Statement::SelectById { id } => {
                bound.push(Param::Integer(id));
            },
            Statement::Update { id, new_name, new_email } => {
                bound.push(bind_text(new_name));
                bound.push(bind_text(new_email));
                bound.push(Param::Integer(id));
            },
            Statement::DeleteById { id } => {
                bound.push(Param::Integer(id));
            },
        }
        assert(param_views(bound@) =~= self@.params());
        bound
    }
}

/// What the engine reports after a statement that writes.
#[derive(Debug, Clone, Copy, PartialEq, Eq)]
pub struct ExecResult {
    /// The number of rows that the statement changed.
    pub rows_affected: u64,
    /// The id of the row that the connection inserted last.
    pub last_insert_rowid: i64,
}

/// The two kinds of failure that the service tells apart.
#[derive(Debug, Clone, Copy, PartialEq, Eq)]
pub enum StorageErrorKind {
    /// A statement that has to yield a row matched none.
    RowNotFound,
    /// Anything else: a lost connection, a constraint that forbids the
    /// statement, a statement that the engine cannot run.
    Other,
}

/// A failure of the storage engine, with the text that describes it.
#[derive(Debug, Clone, PartialEq, Eq)]
pub struct StorageError {
    pub kind: StorageErrorKind,
    pub message: String,
}

/// A failure as a mathematical value.
pub struct StorageErrorView {
    pub kind: StorageErrorKind,
    pub message: Seq<char>,
}

impl View for StorageError {
    type V = StorageErrorView;

    open spec fn view(&self) -> StorageErrorView {
        StorageErrorView { kind: self.kind, message: self.message@ }
    }
}

/// The reply to a statement that writes, as a mathematical value.
pub open spec fn exec_reply_view(reply: Result<ExecResult, StorageError>) -> Result<
    ExecResult,
    StorageErrorView,
> {
    match reply {
        Ok(done) => Ok(done),
        Err(e) => Err(e@),
    }
}

/// The reply to a statement that reads one row, as a mathematical value.
pub open spec fn row_reply_view(reply: Result<crate::models::User, StorageError>) -> Result<
    crate::models::UserView,
    StorageErrorView,
> {
    match reply {
        Ok(user) => Ok(user@),
        Err(e) => Err(e@),
    }
}

/// The reply to a statement that reads all rows, as a mathematical value.
pub open spec fn rows_reply_view(
    reply: Result<Vec<crate::models::User>, StorageError>,
) -> Result<Seq<crate::models::UserView>, StorageErrorView> {
    match reply {
        Ok(users) => Ok(crate::models::user_views(users@)),
        Err(e) => Err(e@),
    }
}

} // verus!
