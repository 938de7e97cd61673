//! The `users` table as a mathematical value, and what the storage engine
//! answers to each statement on it.
//!
//! This is the table that the schema describes, on an engine that works:
//! it refuses a statement only where a constraint of the schema forbids it,
//! and it finds every row that is there. Nothing here runs; the module
//! states what the handlers may rely on, and [`crate::service`] proves from
//! it what a client of the service observes.

use crate::models::UserView;
use crate::storage::{ExecResult, StatementView, StorageErrorKind, StorageErrorView};
use vstd::prelude::*;

verus! {

/// The columns of a row besides its id.
pub struct Row {
    pub name: Seq<char>,
    pub email: Seq<char>,
}

/// The rows of the table by id, and the highest id that the table has
/// assigned so far (0 before the first insert).
pub struct Table {
    pub rows: Map<int, Row>,
    pub last_id: int,
}

impl Table {
    /// The table right after it was created.
    pub open spec fn empty() -> Table {
        Table { rows: Map::empty(), last_id: 0 }
    }

    /// There is a row with this id.
    #[verifier::inline]
    pub open spec fn has(self, id: int) -> bool {
        self.rows.dom().contains(id)
    }

    /// The row with this id as a user.
    pub open spec fn user(self, id: int) -> UserView {
        UserView { id, name: self.rows[id].name, email: self.rows[id].email }
    }

    /// The table has assigned this id, to a row that is there or to one that
    /// has been deleted since.
    #[verifier::inline]
    pub open spec fn issued(self, id: int) -> bool {
        1 <= id <= self.last_id
    }

    /// Some row has this e-mail.
    pub open spec fn email_in_use(self, email: Seq<char>) -> bool {
        exists|id: int| self.has(id) && #[trigger] self.rows[id].email == email
    }

    /// Some row other than the one with this id has this e-mail.
    pub open spec fn email_of_another(self, id: int, email: Seq<char>) -> bool {
        exists|other: int|
            other != id && self.has(other) && #[trigger] self.rows[other].email == email
    }

    /// What the schema keeps true: ids are assigned from 1 upwards and fit in
    /// 64 bits, and no two rows have the same e-mail.
    pub open spec fn wf(self) -> bool {
        &&& 0 <= self.last_id <= i64::MAX
        &&& forall|id: int| self.has(id) ==> self.issued(id)
        &&& forall|a: int, b: int|
            self.has(a) && self.has(b) && #[trigger] self.rows[a].email
                == #[trigger] self.rows[b].email ==> a == b
    }

    /// The row with this id after an update: each column takes its
    /// replacement where there is one and keeps its value where there is none.
    pub open spec fn merged(
        self,
        id: int,
        name: Option<Seq<char>>,
        email: Option<Seq<char>>,
    ) -> Row {
        Row {
            name: match name {
                Some(n) => n,
                None => self.rows[id].name,
            },
            email: match email {
                Some(e) => e,
                None => self.rows[id].email,
            },
        }
    }

    /// No constraint forbids the statement. An insert needs an e-mail that no
    /// row has and an id that is still free; an update of a row that is there
    /// needs an e-mail that no other row has.
    pub open spec fn accepts(self, statement: StatementView) -> bool {
        match statement {
            StatementView::Insert { name, email } => {
                !self.email_in_use(email) && self.last_id < i64::MAX
            },
            StatementView::Update { id, new_name, new_email } => {
                self.has(id) ==> !self.email_of_another(
                    id,
                    self.merged(id, new_name, new_email).email,
                )
            },
            _ => true,
        }
    }

    /// The table after the statement. A statement that is refused, or that
    /// only reads, leaves the table as it is. An insert adds a row under the
    /// next id; an update replaces the row with that id, if there is one; a
    /// delete removes it. Ids that were assigned are not assigned again.
    pub open spec fn after(self, statement: StatementView) -> Table {
        if !self.accepts(statement) {
            self
        } else {
            match statement {
                StatementView::Insert { name, email } => Table {
                    rows: self.rows.insert(self.last_id + 1, Row { name, email }),
                    last_id: self.last_id + 1,
                },
                StatementView::Update { id, new_name, new_email } => if self.has(id) {
                    Table {
                        rows: self.rows.insert(id, self.merged(id, new_name, new_email)),
                        ..self
                    }
                } else {
                    self
                },
                StatementView::DeleteById { id } => Table { rows: self.rows.remove(id), ..self },
                _ => self,
            }
        }
    }

    /// `reply` is an answer of the engine to a statement that writes. A
    /// statement that is refused is answered with a failure. An insert that
    /// is accepted is answered with one row changed and the id of the new
    /// row; an update or a delete with the number of rows that it found, one
    /// or none.
    pub open spec fn executes(
        self,
        statement: StatementView,
        reply: Result<ExecResult, StorageErrorView>,
    ) -> bool {
        if !self.accepts(statement) {
            reply is Err
        } else {
            match statement {
                StatementView::Insert { .. } => {
                    &&& reply matches Ok(done)
                    &&& done.rows_affected == 1
                    &&& done.last_insert_rowid == self.last_id + 1
                },
                StatementView::Update { id, .. } | StatementView::DeleteById { id } => {
                    &&& reply matches Ok(done)
                    &&& done.rows_affected == if self.has(id) { 1int } else { 0int }
                },
                _ => reply is Ok,
            }
        }
    }

    /// `reply` is an answer of the engine to the statement that reads the row
    /// with a given id: the row, or the failure that says that no row matched.
    pub open spec fn fetches_one(
        self,
        statement: StatementView,
        reply: Result<UserView, StorageErrorView>,
    ) -> bool {
        statement matches StatementView::SelectById { id } ==> if self.has(id) {
            reply == Ok::<UserView, StorageErrorView>(self.user(id))
        } else {
            reply matches Err(e) && e.kind == StorageErrorKind::RowNotFound
        }
    }

    /// `users` holds every row of the table once, lowest id first.
    pub open spec fn lists(self, users: Seq<UserView>) -> bool {
        &&& forall|i: int, j: int| 0 <= i < j < users.len() ==> users[i].id < users[j].id
        &&& forall|i: int|
            0 <= i < users.len() ==> self.has(#[trigger] users[i].id) && users[i] == self.user(
                users[i].id,
            )
        &&& forall|id: int|
            self.has(id) ==> exists|i: int| 0 <= i < users.len() && #[trigger] users[i].id == id
    }

    /// `reply` is an answer of the engine to the statement that reads all
    /// rows in the order of their ids.
    pub open spec fn fetches_all(
        self,
        statement: StatementView,
        reply: Result<Seq<UserView>, StorageErrorView>,
    ) -> bool {
        statement is SelectAll ==> (reply matches Ok(users) && self.lists(users))
    }

    /// The rows with ids up to `n`, lowest id first.
    pub open spec fn listing_through(self, n: int) -> Seq<UserView>
        decreases n,
    {
        if n <= 0 {
            Seq::empty()
        } else if self.has(n) {
            self.listing_through(n - 1).push(self.user(n))
        } else {
            self.listing_through(n - 1)
        }
    }

    /// All rows, lowest id first.
    pub open spec fn listing(self) -> Seq<UserView> {
        self.listing_through(self.last_id)
    }
}

/// The table right after it was created is as the schema wants it.
pub proof fn lemma_empty_is_well_formed()
    ensures
        Table::empty().wf(),
{
}

/// Whatever statement runs, the table stays as the schema wants it, and the
/// highest id that was assigned never goes down.
pub proof fn lemma_statement_keeps_well_formed(table: Table, statement: StatementView)
    requires
        table.wf(),
    ensures
        table.after(statement).wf(),
        table.last_id <= table.after(statement).last_id,
{
    let next = table.after(statement);
    if table.accepts(statement) {
        match statement {
            StatementView::Insert { name, email } => {
                assert forall|a: int, b: int|
                    next.has(a) && next.has(b) && #[trigger] next.rows[a].email
                        == #[trigger] next.rows[b].email implies a == b by {
                    if a != b {
                        if a == table.last_id + 1 {
                            assert(table.has(b) && table.rows[b].email == email);
                        } else if b == table.last_id + 1 {
                            assert(table.has(a) && table.rows[a].email == email);
                        }
                    }
                }
            },
            StatementView::Update { id, new_name, new_email } => {
                if table.has(id) {
                    let email = table.merged(id, new_name, new_email).email;
                    assert forall|a: int, b: int|
                        next.has(a) && next.has(b) && #[trigger] next.rows[a].email
                            == #[trigger] next.rows[b].email implies a == b by {
                        if a != b {
                            if a == id {
                                assert(table.has(b) && table.rows[b].email == email);
                            } else if b == id {
                                assert(table.has(a) && table.rows[a].email == email);
                            }
                        }
                    }
                }
            },
            _ => {},
        }
    }
}

/// The rows with ids up to `n` are listed by [`Table::listing_through`].
proof fn lemma_listing_through(table: Table, n: int)
    requires
        table.wf(),
    ensures
        ({
            let users = table.listing_through(n);
            &&& forall|i: int, j: int| 0 <= i < j < users.len() ==> users[i].id < users[j].id
            &&& forall|i: int|
                0 <= i < users.len() ==> table.has(#[trigger] users[i].id) && users[i].id <= n
                    && users[i] == table.user(users[i].id)
            &&& forall|id: int|
                table.has(id) && id <= n ==> exists|i: int|
                    0 <= i < users.len() && #[trigger] users[i].id == id
        }),
    decreases n,
{
    if n > 0 {
        lemma_listing_through(table, n - 1);
        let before = table.listing_through(n - 1);
        let users = table.listing_through(n);
        if table.has(n) {
            assert(users == before.push(table.user(n)));
            assert forall|id: int| table.has(id) && id <= n implies exists|i: int|
                0 <= i < users.len() && #[trigger] users[i].id == id by {
                if id == n {
                    assert(users[users.len() - 1].id == n);
                } else {
                    let i = choose|i: int| 0 <= i < before.len() && #[trigger] before[i].id == id;
                    assert(users[i].id == id);
                }
            }
        }
    }
}

/// A well-formed table has a listing: [`Table::listing`].
pub proof fn lemma_listing_lists(table: Table)
    requires
        table.wf(),
    ensures
        table.lists(table.listing()),
{
    lemma_listing_through(table, table.last_id);
}

/// A table has one listing only.
pub proof fn lemma_listing_is_unique(table: Table, a: Seq<UserView>, b: Seq<UserView>)
    requires
        table.lists(a),
        table.lists(b),
    ensures
        a == b,
    decreases a.len(),
{
    if a.len() == 0 {
        if b.len() > 0 {
            let id = b[0].id;
            assert(table.has(id));
            let i = choose|i: int| 0 <= i < a.len() && #[trigger] a[i].id == id;
        }
    } else if b.len() == 0 {
        let id = a[0].id;
        assert(table.has(id));
        let i = choose|i: int| 0 <= i < b.len() && #[trigger] b[i].id == id;
    } else {
        // Both end with the row of the highest id; without it, both list the
        // table without that row.
        let la = a.last();
        let lb = b.last();
        assert(table.has(la.id) && table.has(lb.id));
        let ib = choose|i: int| 0 <= i < b.len() && #[trigger] b[i].id == la.id;
        let ia = choose|i: int| 0 <= i < a.len() && #[trigger] a[i].id == lb.id;
        assert(la.id == lb.id) by {
            if ib < b.len() - 1 {
                assert(b[ib].id < b[b.len() - 1].id);
            }
            if ia < a.len() - 1 {
                assert(a[ia].id < a[a.len() - 1].id);
            }
        }
        let rest = Table { rows: table.rows.remove(la.id), ..table };
        let a0 = a.drop_last();
        let b0 = b.drop_last();
        assert(rest.lists(a0)) by {
            assert forall|i: int| 0 <= i < a0.len() implies rest.has(#[trigger] a0[i].id) && a0[i]
                == rest.user(a0[i].id) by {
                assert(a0[i] == a[i]);
                assert(a[i].id < a[a.len() - 1].id);
            }
            assert forall|id: int| rest.has(id) implies exists|i: int|
                0 <= i < a0.len() && #[trigger] a0[i].id == id by {
                assert(table.has(id) && id != la.id);
                let i = choose|i: int| 0 <= i < a.len() && #[trigger] a[i].id == id;
                assert(a0[i].id == id);
            }
        }
        assert(rest.lists(b0)) by {
            assert forall|i: int| 0 <= i < b0.len() implies rest.has(#[trigger] b0[i].id) && b0[i]
                == rest.user(b0[i].id) by {
                assert(b0[i] == b[i]);
                assert(b[i].id < b[b.len() - 1].id);
            }
            assert forall|id: int| rest.has(id) implies exists|i: int|
                0 <= i < b0.len() && #[trigger] b0[i].id == id by {
                assert(table.has(id) && id != lb.id);
                let i = choose|i: int| 0 <= i < b.len() && #[trigger] b[i].id == id;
                assert(b0[i].id == id);
            }
        }
        lemma_listing_is_unique(rest, a0, b0);
        assert(la == lb);
        assert(a =~= a0.push(la));
        assert(b =~= b0.push(lb));
    }
}

} // verus!
