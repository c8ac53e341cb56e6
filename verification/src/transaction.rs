//! A scoped unit of work bound to one connection.
//!
//! A transaction owns exclusive logical use of its connection's statement
//! path until committed or rolled back. Dropping an open, uncommitted
//! transaction rolls back on every exit path, so a caller error can neither
//! silently commit nor leave the embedded backend's exclusive-access guard
//! in an open transaction indefinitely.
//!
//! The embedded backend drives transactions here. The networked backend's
//! transactions belong to the external pooled client, so beginning one on the
//! networked variant reports an error rather than pretending to a unit of
//! work it cannot scope.

use vstd::prelude::*;

use crate::Connection;
use crate::WriteResult;
use crate::error::SqlError;
use crate::sqlite::SqliteMultithreaded;

verus! {

/// One atomic unit of work on an embedded database. All statements issued
/// through it take effect together on commit, or not at all on rollback or
/// drop.
pub struct Transaction {
    handle: SqliteMultithreaded,
    open: bool,
}

impl Transaction {
    /// Whether the transaction is still open; committing or rolling back
    /// consumes it.
    pub closed spec fn is_open(&self) -> bool {
        self.open
    }

    /// The embedded handle this transaction is bound to.
    pub closed spec fn spec_handle(&self) -> SqliteMultithreaded {
        self.handle
    }

    /// Begin a transaction bound to the given connection.
    ///
    /// On the embedded variant this opens a deferred transaction on the
    /// shared handle; the backend's refusal, if any, is surfaced unchanged.
    /// The networked variant reports
    /// [`SqlError::NetworkedClientRequired`], as its transactions are scoped
    /// by the external pooled client.
    pub fn begin(connection: Connection) -> (r: Result<Transaction, SqlError>)
        ensures
            connection is Mysql ==> r == Err::<Transaction, SqlError>(
                SqlError::NetworkedClientRequired,
            ),
            r matches Ok(t) ==> t.is_open() && (connection matches Connection::Sqlite(h)
                && t.spec_handle() == h),
            r matches Err(e) ==> (connection is Sqlite ==> (e matches SqlError::Backend {
                sql: s,
                ..
            } && s@ == "BEGIN DEFERRED"@)),
    {
        match connection {
            Connection::Sqlite(handle) => match handle.execute_batch_raw("BEGIN DEFERRED") {
                Ok(()) => Ok(Transaction { handle, open: true }),
                Err(message) => Err(
                    SqlError::Backend { sql: "BEGIN DEFERRED".to_owned(), message },
                ),
            },
            Connection::Mysql(_) => Err(SqlError::NetworkedClientRequired),
        }
    }

    /// Execute one mutating statement as part of this unit of work. The
    /// outcome has the same meaning as outside a transaction.
    pub fn execute_write(&mut self, sql: &str) -> (r: Result<WriteResult, SqlError>)
        requires
            old(self).is_open(),
        ensures
            final(self).is_open(),
            final(self).spec_handle() == old(self).spec_handle(),
            r matches Ok(w) ==> w.spec_last_insert_id() is Some,
            r matches Err(e) ==> e matches SqlError::Backend { sql: s, .. } && s@ == sql@,
    {
        match self.handle.execute_raw(sql) {
            Ok((last_insert_id, affected_rows)) => Ok(
                WriteResult::new(Some(last_insert_id), affected_rows),
            ),
            Err(message) => Err(SqlError::Backend { sql: sql.to_owned(), message }),
        }
    }

    /// Execute one read statement as part of this unit of work, returning
    /// the first column of each row as an integer, in row order.
    pub fn query_i64_column(&mut self, sql: &str) -> (r: Result<Vec<i64>, SqlError>)
        requires
            old(self).is_open(),
        ensures
            final(self).is_open(),
            final(self).spec_handle() == old(self).spec_handle(),
            r matches Err(e) ==> e matches SqlError::Backend { sql: s, .. } && s@ == sql@,
    {
        match self.handle.query_raw(sql) {
            Ok(values) => Ok(values),
            Err(message) => Err(SqlError::Backend { sql: sql.to_owned(), message }),
        }
    }

    /// Finalize every change made since [`Transaction::begin`]. The
    /// transaction is consumed whether or not the backend accepts the
    /// commit; on refusal the backend's error is surfaced unchanged.
    pub fn commit(self) -> (r: Result<(), SqlError>)
        requires
            self.is_open(),
        ensures
            r matches Err(e) ==> (e matches SqlError::Backend { sql: s, .. } && s@ == "COMMIT"@),
    {
        let mut this = self;
        this.open = false;
        match this.handle.execute_batch_raw("COMMIT") {
            Ok(()) => Ok(()),
            Err(message) => Err(SqlError::Backend { sql: "COMMIT".to_owned(), message }),
        }
    }

    /// Discard every change made since [`Transaction::begin`]. Fails only
    /// when the underlying connection itself has failed.
    pub fn rollback(self) -> (r: Result<(), SqlError>)
        requires
            self.is_open(),
        ensures
            r matches Err(e) ==> (e matches SqlError::Backend { sql: s, .. } && s@
                == "ROLLBACK"@),
    {
        let mut this = self;
        this.open = false;
        match this.handle.execute_batch_raw("ROLLBACK") {
            Ok(()) => Ok(()),
            Err(message) => Err(SqlError::Backend { sql: "ROLLBACK".to_owned(), message }),
        }
    }
}

impl Drop for Transaction {
    /// An open, uncommitted transaction rolls back when dropped, on every
    /// exit path; any backend failure during that rollback is ignored.
    fn drop(&mut self)
        opens_invariants none
        no_unwind
    {
        if self.open {
            self.open = false;
            self.handle.execute_batch_quiet("ROLLBACK");
        }
    }
}

} // verus!
