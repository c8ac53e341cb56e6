//! The embedded backend's shared handle.
//!
//! The embedded engine does not support concurrent statement execution from
//! multiple threads on one raw connection, so the raw connection lives behind
//! a reference-counted, mutually exclusive guard: at most one statement
//! (read or write) runs at a time per shared handle, however many threads
//! hold clones of it. Relative order across threads is first-come-first-served
//! on guard acquisition, with no fairness promised.

use vstd::prelude::*;

use std::sync::Arc;
use std::sync::Mutex;

verus! {

/// A shared, reference-counted handle to one logical embedded database.
/// Cloning yields another handle to the same database, never a new one.
/// The raw `rusqlite` connection inside is an opaque capability: this layer
/// reasons only about the values passed into and out of the guarded region.
#[verifier::external_body]
pub struct SqliteMultithreaded {
    inner: Arc<Mutex<rusqlite::Connection>>,
}

impl SqliteMultithreaded {
    /// Open a fresh, empty in-memory database and wrap it into a shared
    /// handle.
    ///
    /// Relies on rusqlite's `Connection::open_in_memory`, which yields a raw
    /// connection to a new private in-memory database, and on
    /// `std::sync::Mutex::new` and `std::sync::Arc::new` for the guarded,
    /// reference-counted handle around it.
    #[verifier::external_body]
    pub fn open_in_memory() -> Result<SqliteMultithreaded, String> {
        match rusqlite::Connection::open_in_memory() {
            Ok(connection) => Ok(
                SqliteMultithreaded { inner: Arc::new(Mutex::new(connection)) },
            ),
            Err(e) => Err(e.to_string()),
        }
    }

    /// Run a batch of statements, reporting the backend's first failure as
    /// its own message.
    ///
    /// Relies on rusqlite's `Connection::execute_batch`: it prepares and runs
    /// each statement of `sql` in order against the database and stops at the
    /// first failure. The handle's guard is held for the whole batch.
    #[verifier::external_body]
    pub(crate) fn execute_batch_raw(&self, sql: &str) -> Result<(), String> {
        let guard = match self.inner.lock() {
            Ok(guard) => guard,
            Err(poisoned) => poisoned.into_inner(),
        };
        guard.execute_batch(sql).map_err(|e| e.to_string())
    }

    /// Run one mutating statement, reporting the id the engine generated
    /// last and the number of rows the statement touched.
    ///
    /// Relies on rusqlite's `Connection::execute` (runs one statement),
    /// `Connection::last_insert_rowid` (rowid of the most recent successful
    /// insert on this connection) and `Connection::changes` (rows modified,
    /// inserted or deleted by the most recently completed statement). The
    /// handle's guard is held across all three calls.
    #[verifier::external_body]
    pub(crate) fn execute_raw(&self, sql: &str) -> Result<(u64, u64), String> {
        let guard = match self.inner.lock() {
            Ok(guard) => guard,
            Err(poisoned) => poisoned.into_inner(),
        };
        match guard.execute(sql, []) {
            Ok(_) => Ok((guard.last_insert_rowid() as u64, guard.changes())),
            Err(e) => Err(e.to_string()),
        }
    }

    /// Run one read statement and hand back the first column of each row as
    /// an integer, in row order.
    ///
    /// Relies on rusqlite's `Connection::prepare`, `Statement::query_map` and
    /// `Row::get`: the statement is prepared, run, and each row's first
    /// column decoded as an integer. The handle's guard is held for the whole
    /// query.
    #[verifier::external_body]
    pub(crate) fn query_raw(&self, sql: &str) -> Result<Vec<i64>, String> {
        let guard = match self.inner.lock() {
            Ok(guard) => guard,
            Err(poisoned) => poisoned.into_inner(),
        };
        let result = guard.prepare(sql).and_then(|mut stmt| {
            stmt.query_map([], |row| row.get(0))
                .and_then(|rows| rows.collect::<rusqlite::Result<Vec<i64>>>())
        });
        result.map_err(|e| e.to_string())
    }

    /// Run a batch of statements, ignoring any failure. Never unwinds, so
    /// destructors may call it.
    ///
    /// Relies on rusqlite's `Connection::execute_batch`, as
    /// `execute_batch_raw` does; its outcome is discarded.
    #[verifier::external_body]
    pub(crate) fn execute_batch_quiet(&self, sql: &str)
        opens_invariants none
        no_unwind
    {
        let guard = match self.inner.lock() {
            Ok(guard) => guard,
            Err(poisoned) => poisoned.into_inner(),
        };
        let _ = guard.execute_batch(sql);
    }
}

impl Clone for SqliteMultithreaded {
    /// Relies on `std::sync::Arc::clone`: the clone shares the allocation of
    /// the original, so both are handles to the same database.
    #[verifier::external_body]
    fn clone(&self) -> (r: Self)
        ensures
            r == *self,
    {
        SqliteMultithreaded { inner: Arc::clone(&self.inner) }
    }
}

} // verus!
