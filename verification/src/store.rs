//! The durable identity store: one SQLite connection whose `identities`
//! table holds the rows. Each database statement stands behind a trusted
//! wrapper whose contract states its effect on the row sequence named by
//! `db_rows`; everything around the statements is verified.

use vstd::prelude::*;

use crate::model::{
    email_count, email_used, inserted_row, lemma_email_count_vs_used, reconcile_effect, remove_id,
    select_effect, RowModel,
};

verus! {

#[verifier::external_type_specification]
#[verifier::external_body]
pub struct ExConnection(rusqlite::Connection);

#[verifier::external_type_specification]
#[verifier::external_body]
pub struct ExRusqliteError(rusqlite::Error);

/// The rows of the connection's `identities` table, in the order the store
/// yields them.
pub uninterp spec fn db_rows(db: rusqlite::Connection) -> Seq<RowModel>;

/// Whether the connection's database holds the `identities` table.
pub uninterp spec fn schema_ready(db: rusqlite::Connection) -> bool;

/// The identity store, backed by an open database connection.
pub struct Store {
    conn: rusqlite::Connection,
}

/// A stored identity as the store hands it out: the assigned id, the name,
/// the email, and the selected flag.
#[derive(Debug, PartialEq)]
pub struct Identity {
    pub id: i32,
    pub name: String,
    pub email: String,
    pub selected: bool,
}

impl View for Identity {
    type V = RowModel;

    open spec fn view(&self) -> RowModel {
        RowModel {
            id: self.id as int,
            name: self.name@,
            email: self.email@,
            selected: self.selected,
        }
    }
}

/// A stored identity without its flag, as the plain listing returns it.
#[derive(Debug, PartialEq)]
pub struct User {
    pub id: i32,
    pub name: String,
    pub email: String,
}

/// The listed entry carries the row's id, name and email.
pub open spec fn user_matches(u: User, r: RowModel) -> bool {
    u.id as int == r.id && u.name@ == r.name && u.email@ == r.email
}

impl Clone for User {
    fn clone(&self) -> (r: Self)
        ensures
            r == *self,
    {
        User { id: self.id, name: self.name.clone(), email: self.email.clone() }
    }
}

/// A storage failure; every operation is fail-fast and hands the underlying
/// database error up unchanged for the caller to report.
#[derive(Debug)]
pub struct StoreError {
    pub cause: rusqlite::Error,
}

impl Store {
    /// The store's rows, in storage order.
    pub closed spec fn rows(&self) -> Seq<RowModel> {
        db_rows(self.conn)
    }

    /// Whether the store's schema is in place.
    pub closed spec fn ready(&self) -> bool {
        schema_ready(self.conn)
    }

    /// Relies on rusqlite's `Connection::execute_batch` running
    /// `CREATE TABLE IF NOT EXISTS identities (...)`: on success the table
    /// exists; a table that already existed keeps every row exactly, a
    /// created one is empty. A failed statement changes nothing (SQLite is
    /// atomic per statement).
    #[verifier::external_body]
    fn exec_create_schema(&mut self) -> (r: Result<(), rusqlite::Error>)
        ensures
            r is Ok ==> schema_ready(final(self).conn),
            r is Ok && schema_ready(old(self).conn) ==> db_rows(final(self).conn) == db_rows(
                old(self).conn,
            ),
            r is Ok && !schema_ready(old(self).conn) ==> db_rows(final(self).conn)
                == Seq::<RowModel>::empty(),
            r is Err ==> db_rows(final(self).conn) == db_rows(old(self).conn) && schema_ready(
                final(self).conn,
            ) == schema_ready(old(self).conn),
    {
        self.conn.execute_batch(
            "CREATE TABLE IF NOT EXISTS identities (id INTEGER PRIMARY KEY, name TEXT, email TEXT, selected INTEGER DEFAULT 0)",
        )
    }

    /// Relies on rusqlite's `Connection::execute` running
    /// `INSERT INTO identities (name, email, selected) VALUES (?1, ?2, ?3)`:
    /// on success one row holding exactly these values is stored under an
    /// integer-primary-key id that SQLite picks one above the largest id in
    /// use, so the row is fresh and comes last in storage order. Assumed
    /// here: the table's largest id is below the 64-bit maximum — at that
    /// ceiling SQLite would pick a random unused id instead, a state this
    /// tool's own operation never creates, since it never supplies ids. A
    /// failed statement changes nothing (SQLite is atomic per statement).
    #[verifier::external_body]
    fn exec_insert(&mut self, name: &String, email: &String, selected: bool) -> (r: Result<
        (),
        rusqlite::Error,
    >)
        ensures
            r is Ok ==> inserted_row(
                db_rows(old(self).conn),
                db_rows(final(self).conn),
                name@,
                email@,
                selected,
            ),
            r is Err ==> db_rows(final(self).conn) == db_rows(old(self).conn),
    {
        match self.conn.execute(
            "INSERT INTO identities (name, email, selected) VALUES (?1, ?2, ?3)",
            (name.as_str(), email.as_str(), selected),
        ) {
            Ok(_) => Ok(()),
            Err(e) => Err(e),
        }
    }

    /// Relies on rusqlite's `Connection::execute` running
    /// `DELETE FROM identities WHERE id = ?1`: on success every row with
    /// this id is gone and the others stand as they were, order kept. A
    /// failed statement changes nothing (SQLite is atomic per statement).
    #[verifier::external_body]
    fn exec_delete(&mut self, id: i32) -> (r: Result<(), rusqlite::Error>)
        ensures
            r is Ok ==> db_rows(final(self).conn) == remove_id(db_rows(old(self).conn), id as int),
            r is Err ==> db_rows(final(self).conn) == db_rows(old(self).conn),
    {
        match self.conn.execute("DELETE FROM identities WHERE id = ?1", [id]) {
            Ok(_) => Ok(()),
            Err(e) => Err(e),
        }
    }

    /// Relies on rusqlite's `Connection::execute` running
    /// `UPDATE identities SET selected = 1 WHERE id = ?1`: on success each
    /// row with this id has its flag set and every other row is untouched;
    /// no flag is cleared. A failed statement changes nothing (SQLite is
    /// atomic per statement).
    #[verifier::external_body]
    fn exec_mark_selected(&mut self, id: i32) -> (r: Result<(), rusqlite::Error>)
        ensures
            r is Ok ==> select_effect(db_rows(old(self).conn), db_rows(final(self).conn), id as int),
            r is Err ==> db_rows(final(self).conn) == db_rows(old(self).conn),
    {
        match self.conn.execute("UPDATE identities SET selected = 1 WHERE id = ?1", [id]) {
            Ok(_) => Ok(()),
            Err(e) => Err(e),
        }
    }

    /// Relies on rusqlite's `Connection::query_row` running
    /// `SELECT COUNT(*) FROM identities WHERE email = ?1`: on success the
    /// number of rows holding this email comes back.
    #[verifier::external_body]
    fn exec_count_email(&self, email: &String) -> (r: Result<i64, rusqlite::Error>)
        ensures
            r is Ok ==> r->Ok_0 >= 0 && r->Ok_0 as nat == email_count(db_rows(self.conn), email@),
    {
        self.conn.query_row(
            "SELECT COUNT(*) FROM identities WHERE email = ?1",
            &[email.as_str()],
            |row| row.get(0),
        )
    }

    /// Relies on rusqlite's `Connection::prepare` and `Statement::query_map`
    /// running `SELECT id, name, email, selected FROM identities`: on
    /// success the rows come back as stored, in the storage order that
    /// `db_rows` names.
    #[verifier::external_body]
    fn exec_fetch(&self) -> (r: Result<Vec<Identity>, rusqlite::Error>)
        ensures
            r is Ok ==> r->Ok_0@.len() == db_rows(self.conn).len() && (forall|i: int|
                0 <= i < db_rows(self.conn).len() ==> #[trigger] r->Ok_0@[i]@ == db_rows(
                    self.conn,
                )[i]),
    {
        let mut stmt = self.conn.prepare("SELECT id, name, email, selected FROM identities")?;
        let rows = stmt.query_map(
            (),
            |row| Ok(Identity {
                id: row.get(0)?,
                name: row.get(1)?,
                email: row.get(2)?,
                selected: row.get(3)?,
            }),
        )?;
        rows.collect()
    }

    /// Wraps an already-opened database connection as the store and makes
    /// sure the schema exists: a database that already held the table keeps
    /// every row and flag exactly, a fresh one starts empty — so repeated
    /// runs over the same database preserve it all.
    pub fn init_db(conn: rusqlite::Connection) -> (r: Result<Store, StoreError>)
        ensures
            r is Ok ==> r->Ok_0.ready(),
            r is Ok && schema_ready(conn) ==> r->Ok_0.rows() == db_rows(conn),
            r is Ok && !schema_ready(conn) ==> r->Ok_0.rows() == Seq::<RowModel>::empty(),
    {
        let mut store = Store { conn };
        match store.exec_create_schema() {
            Ok(()) => Ok(store),
            Err(e) => Err(StoreError { cause: e }),
        }
    }

    /// Every stored identity, with its flag, in storage order.
    pub fn list_identities(&self) -> (r: Result<Vec<Identity>, StoreError>)
        ensures
            r is Ok ==> r->Ok_0@.len() == self.rows().len() && (forall|i: int|
                0 <= i < self.rows().len() ==> #[trigger] r->Ok_0@[i]@ == self.rows()[i]),
    {
        match self.exec_fetch() {
            Ok(v) => Ok(v),
            Err(e) => Err(StoreError { cause: e }),
        }
    }

    /// Every stored identity without its flag, in storage order.
    pub fn get_all_users(&self) -> (r: Result<Vec<User>, StoreError>)
        ensures
            r is Ok ==> r->Ok_0@.len() == self.rows().len() && (forall|i: int|
                0 <= i < self.rows().len() ==> user_matches(#[trigger] r->Ok_0@[i], self.rows()[i])),
    {
        let rows = match self.exec_fetch() {
            Ok(v) => v,
            Err(e) => {
                return Err(StoreError { cause: e });
            }
        };
        let mut users: Vec<User> = Vec::new();
        let mut i: usize = 0;
        while i < rows.len()
            invariant
                i <= rows@.len(),
                users@.len() == i,
                rows@.len() == self.rows().len(),
                forall|j: int| 0 <= j < rows@.len() ==> #[trigger] rows@[j]@ == self.rows()[j],
                forall|j: int| 0 <= j < i ==> user_matches(#[trigger] users@[j], self.rows()[j]),
            decreases rows@.len() - i,
        {
            let u = User {
                id: rows[i].id,
                name: rows[i].name.clone(),
                email: rows[i].email.clone(),
            };
            proof {
                assert(rows@[i as int]@ == self.rows()[i as int]);
                assert(user_matches(u, self.rows()[i as int]));
            }
            users.push(u);
            i += 1;
        }
        Ok(users)
    }

    /// Inserts a new identity with the flag off. No uniqueness check is made
    /// on this path, so a duplicate email is possible here even though
    /// reconciliation avoids one.
    pub fn add_user(&mut self, name: &String, email: &String) -> (r: Result<(), StoreError>)
        ensures
            r is Ok ==> inserted_row(old(self).rows(), final(self).rows(), name@, email@, false),
            r is Err ==> final(self).rows() == old(self).rows(),
    {
        match self.exec_insert(name, email, false) {
            Ok(()) => Ok(()),
            Err(e) => Err(StoreError { cause: e }),
        }
    }

    /// Inserts a new identity with the flag already set.
    pub fn add_user_as_selected(&mut self, name: &String, email: &String) -> (r: Result<
        (),
        StoreError,
    >)
        ensures
            r is Ok ==> inserted_row(old(self).rows(), final(self).rows(), name@, email@, true),
            r is Err ==> final(self).rows() == old(self).rows(),
    {
        match self.exec_insert(name, email, true) {
            Ok(()) => Ok(()),
            Err(e) => Err(StoreError { cause: e }),
        }
    }

    /// Deletes the row with this id; a missing id is a no-op, not an error.
    pub fn remove_user(&mut self, id: i32) -> (r: Result<(), StoreError>)
        ensures
            r is Ok ==> final(self).rows() == remove_id(old(self).rows(), id as int),
            r is Err ==> final(self).rows() == old(self).rows(),
    {
        match self.exec_delete(id) {
            Ok(()) => Ok(()),
            Err(e) => Err(StoreError { cause: e }),
        }
    }

    /// Sets the flag on the row with this id; a missing id is a no-op, and
    /// no other row's flag is cleared.
    pub fn select_user(&mut self, id: i32) -> (r: Result<(), StoreError>)
        ensures
            r is Ok ==> select_effect(old(self).rows(), final(self).rows(), id as int),
            r is Err ==> final(self).rows() == old(self).rows(),
    {
        match self.exec_mark_selected(id) {
            Ok(()) => Ok(()),
            Err(e) => Err(StoreError { cause: e }),
        }
    }

    /// True when at least one row holds this email.
    pub fn email_in_use(&self, email: &String) -> (r: Result<bool, StoreError>)
        ensures
            r is Ok ==> r->Ok_0 == email_used(self.rows(), email@),
    {
        match self.exec_count_email(email) {
            Ok(n) => {
                proof {
                    lemma_email_count_vs_used(self.rows(), email@);
                }
                Ok(n > 0)
            },
            Err(e) => Err(StoreError { cause: e }),
        }
    }

    /// The startup reconciliation step: absorbs the externally configured
    /// identity. When its email is unseen a new, already-selected row is
    /// inserted; otherwise the store is left untouched. Returns whether a
    /// row was inserted.
    pub fn reconcile(&mut self, name: &String, email: &String) -> (r: Result<bool, StoreError>)
        ensures
            r is Ok ==> reconcile_effect(old(self).rows(), final(self).rows(), name@, email@)
                && r->Ok_0 == !email_used(old(self).rows(), email@),
            r is Err ==> final(self).rows() == old(self).rows(),
    {
        let used = match self.email_in_use(email) {
            Ok(b) => b,
            Err(e) => {
                return Err(e);
            }
        };
        if used {
            Ok(false)
        } else {
            match self.add_user_as_selected(name, email) {
                Ok(()) => Ok(true),
                Err(e) => Err(e),
            }
        }
    }
}

} // verus!
