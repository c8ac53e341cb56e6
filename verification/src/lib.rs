//! Backend-agnostic connection and transaction layer for relational data
//! access: a polymorphic connection handle over an embedded and a networked
//! engine, role-based connection groupings per shard, their aggregation
//! across shards, a schema-bootstrap path for the embedded backend, and a
//! normalized result type for mutating statements.
//!
//! Application code issues queries and mutations through [`Connection`]
//! without knowing which engine is underneath. The embedded variant
//! serializes statements through an internal exclusive-access guard; the
//! networked variant is served by an external pooled client, whose own pool
//! manages concurrency.

pub mod error;
pub mod mysql;
pub mod sqlite;
pub mod transaction;

use vstd::prelude::*;

use crate::error::SqlError;

verus! {

/// Enum that generalizes over connections to the embedded and the networked
/// backend. The variant, once constructed, never changes; cloning yields
/// another handle to the same underlying resource, never a new connection.
pub enum Connection {
    /// A shared handle to an embedded database, in memory or on disk, useful
    /// for testing or local use. Statements on it are serialized by the
    /// handle's internal exclusive-access guard.
    Sqlite(sqlite::SqliteMultithreaded),
    /// A connection routed through the pooled client of the networked
    /// database service.
    Mysql(mysql::Connection),
}

impl Connection {
    /// Execute one mutating statement and normalize its outcome.
    ///
    /// On the embedded variant the statement runs under the handle's guard
    /// and the backend's verdict is surfaced unchanged, annotated with the
    /// SQL text. The networked variant's execution path belongs to the
    /// external pooled client, so it reports
    /// [`SqlError::NetworkedClientRequired`].
    pub fn execute_write(&self, sql: &str) -> (r: Result<WriteResult, SqlError>)
        ensures
            self is Mysql ==> r == Err::<WriteResult, SqlError>(SqlError::NetworkedClientRequired),
            r matches Ok(w) ==> self is Sqlite && w.spec_last_insert_id() is Some,
            r matches Err(e) ==> (self is Sqlite ==> (e matches SqlError::Backend {
                sql: s,
                ..
            } && s@ == sql@)),
    {
        match self {
            Connection::Sqlite(handle) => match handle.execute_raw(sql) {
                Ok((last_insert_id, affected_rows)) => Ok(
                    WriteResult::new(Some(last_insert_id), affected_rows),
                ),
                Err(message) => Err(SqlError::Backend { sql: sql.to_owned(), message }),
            },
            Connection::Mysql(_) => Err(SqlError::NetworkedClientRequired),
        }
    }

    /// Execute one read statement and return the first column of each row as
    /// an integer, in row order. Richer row decoding belongs to the external
    /// typed-query facility built on top of this primitive.
    ///
    /// As with [`Connection::execute_write`], the networked variant's
    /// execution path belongs to the external pooled client.
    pub fn query_i64_column(&self, sql: &str) -> (r: Result<Vec<i64>, SqlError>)
        ensures
            self is Mysql ==> r == Err::<Vec<i64>, SqlError>(SqlError::NetworkedClientRequired),
            r is Ok ==> self is Sqlite,
            r matches Err(e) ==> (self is Sqlite ==> (e matches SqlError::Backend {
                sql: s,
                ..
            } && s@ == sql@)),
    {
        match self {
            Connection::Sqlite(handle) => match handle.query_raw(sql) {
                Ok(values) => Ok(values),
                Err(message) => Err(SqlError::Backend { sql: sql.to_owned(), message }),
            },
            Connection::Mysql(_) => Err(SqlError::NetworkedClientRequired),
        }
    }

    /// Begin a transaction bound to this connection; see
    /// [`transaction::Transaction::begin`].
    pub fn begin_transaction(&self) -> (r: Result<transaction::Transaction, SqlError>)
        ensures
            self is Mysql ==> r == Err::<transaction::Transaction, SqlError>(
                SqlError::NetworkedClientRequired,
            ),
            r matches Ok(t) ==> t.is_open() && (*self matches Connection::Sqlite(h)
                && t.spec_handle() == h),
            r matches Err(e) ==> (self is Sqlite ==> (e matches SqlError::Backend {
                sql: s,
                ..
            } && s@ == "BEGIN DEFERRED"@)),
    {
        transaction::Transaction::begin(self.clone())
    }

    /// A short name of the variant, standing in for a debug rendering.
    pub fn backend_name(&self) -> (r: &'static str)
        ensures
            self is Sqlite ==> r@ == "Sqlite"@,
            self is Mysql ==> r@ == "Mysql client"@,
    {
        match self {
            Connection::Sqlite(_) => "Sqlite",
            Connection::Mysql(_) => "Mysql client",
        }
    }
}

impl Clone for Connection {
    /// Cloning a connection yields another handle to the same underlying
    /// resource.
    fn clone(&self) -> (r: Self)
        ensures
            r == *self,
    {
        match self {
            Connection::Sqlite(handle) => Connection::Sqlite(handle.clone()),
            Connection::Mysql(conn) => Connection::Mysql(conn.clone()),
        }
    }
}

impl From<sqlite::SqliteMultithreaded> for Connection {
    /// Lift an embedded-backend handle into a connection; one-way.
    fn from(con: sqlite::SqliteMultithreaded) -> (r: Self) {
        Connection::Sqlite(con)
    }
}

impl vstd::std_specs::convert::FromSpecImpl<sqlite::SqliteMultithreaded> for Connection {
    open spec fn obeys_from_spec() -> bool {
        true
    }

    open spec fn from_spec(con: sqlite::SqliteMultithreaded) -> Self {
        Connection::Sqlite(con)
    }
}

impl From<mysql::Connection> for Connection {
    /// Lift a networked-backend connection value into a connection; one-way.
    fn from(conn: mysql::Connection) -> (r: Self) {
        Connection::Mysql(conn)
    }
}

impl vstd::std_specs::convert::FromSpecImpl<mysql::Connection> for Connection {
    open spec fn obeys_from_spec() -> bool {
        true
    }

    open spec fn from_spec(conn: mysql::Connection) -> Self {
        Connection::Mysql(conn)
    }
}

/// Struct to store a set of write, read and read-only connections for a shard.
pub struct SqlConnections {
    /// Write connection to the master.
    pub write_connection: Connection,
    /// Read connection; may be served by a replica, possibly stale.
    pub read_connection: Connection,
    /// Read master connection, for reads that must not be stale.
    pub read_master_connection: Connection,
}

impl SqlConnections {
    /// Create SqlConnections from a single connection: all three roles
    /// resolve operations against the same underlying resource.
    pub fn new_single(connection: Connection) -> (r: Self)
        ensures
            r.write_connection == connection,
            r.read_connection == connection,
            r.read_master_connection == connection,
    {
        SqlConnections {
            write_connection: connection.clone(),
            read_connection: connection.clone(),
            read_master_connection: connection,
        }
    }
}

impl Clone for SqlConnections {
    fn clone(&self) -> (r: Self)
        ensures
            r == *self,
    {
        SqlConnections {
            write_connection: self.write_connection.clone(),
            read_connection: self.read_connection.clone(),
            read_master_connection: self.read_master_connection.clone(),
        }
    }
}

/// Struct to store a set of write, read and read-only connections for a
/// shard, plus a schema connection so that embedded-backend tables can be set
/// up. The schema connection is populated only for the embedded backend; for
/// the networked backend the schema is provisioned out of band.
pub struct SqlConnectionsWithSchema {
    /// Normal connections, not used for schema creation.
    connections: SqlConnections,
    /// Connection for schema creation, only populated for the embedded
    /// backend. Kept separate from the write connection so that schema can
    /// be present even where regular writes are not wanted.
    schema_connection: Option<Connection>,
}

impl SqlConnectionsWithSchema {
    /// The regular connection triple.
    pub closed spec fn spec_connections(&self) -> SqlConnections {
        self.connections
    }

    /// The schema-bootstrap connection, if one is configured.
    pub closed spec fn spec_schema_connection(&self) -> Option<Connection> {
        self.schema_connection
    }

    /// Create a new SqlConnectionsWithSchema.
    pub fn new(connections: SqlConnections, schema_connection: Option<Connection>) -> (r: Self)
        ensures
            r.spec_connections() == connections,
            r.spec_schema_connection() == schema_connection,
    {
        SqlConnectionsWithSchema { connections, schema_connection }
    }

    /// Create SqlConnectionsWithSchema from a single connection: the three
    /// regular roles and the schema connection all resolve operations against
    /// the same underlying resource.
    pub fn new_single(connection: Connection) -> (r: Self)
        ensures
            r.spec_connections().write_connection == connection,
            r.spec_connections().read_connection == connection,
            r.spec_connections().read_master_connection == connection,
            r.spec_schema_connection() == Some(connection),
    {
        SqlConnectionsWithSchema {
            connections: SqlConnections::new_single(connection.clone()),
            schema_connection: Some(connection),
        }
    }

    /// Get a reference to the regular connections.
    pub fn connections(&self) -> (r: &SqlConnections)
        ensures
            *r == self.spec_connections(),
    {
        &self.connections
    }

    /// Execute sql on the schema connection to create schema if not present.
    ///
    /// With no schema connection this is a no-op success: deployments that
    /// provision schema out of band are not forced to special-case setup.
    /// A networked schema connection is a configuration error and nothing is
    /// executed. An embedded schema connection runs the whole batch, and a
    /// failure is annotated with the SQL text that was being run.
    pub fn create_schema(&self, schema_sql: &str) -> (r: Result<(), SqlError>)
        ensures
            self.spec_schema_connection() is None ==> r == Ok::<(), SqlError>(()),
            (self.spec_schema_connection() matches Some(c) && c is Mysql) ==> r == Err::<
                (),
                SqlError,
            >(SqlError::ConfigurationMismatch),
            r matches Err(e) ==> (self.spec_schema_connection() matches Some(c) ==> (c is Sqlite
                ==> (e matches SqlError::Backend { sql: s, .. } && s@ == schema_sql@))),
            r is Err ==> self.spec_schema_connection() is Some,
    {
        match &self.schema_connection {
            Some(Connection::Sqlite(handle)) => match handle.execute_batch_raw(schema_sql) {
                Ok(()) => Ok(()),
                Err(message) => Err(SqlError::Backend { sql: schema_sql.to_owned(), message }),
            },
            Some(Connection::Mysql(_)) => Err(SqlError::ConfigurationMismatch),
            None => Ok(()),
        }
    }
}

impl Clone for SqlConnectionsWithSchema {
    fn clone(&self) -> (r: Self)
        ensures
            r == *self,
    {
        SqlConnectionsWithSchema {
            connections: self.connections.clone(),
            schema_connection: match &self.schema_connection {
                Some(connection) => Some(connection.clone()),
                None => None,
            },
        }
    }
}

impl From<SqlConnectionsWithSchema> for SqlConnections {
    /// Discard the schema connection, irreversibly: once converted, schema
    /// bootstrap is no longer available.
    fn from(from: SqlConnectionsWithSchema) -> (r: SqlConnections) {
        from.connections
    }
}

impl vstd::std_specs::convert::FromSpecImpl<SqlConnectionsWithSchema> for SqlConnections {
    open spec fn obeys_from_spec() -> bool {
        true
    }

    open spec fn from_spec(from: SqlConnectionsWithSchema) -> Self {
        from.spec_connections()
    }
}

/// Struct to store a set of write, read and read-only connections for
/// multiple shards, column-wise: position `i` in every sequence belongs to
/// shard `i`, so the three sequences always have equal length.
pub struct SqlShardedConnections {
    /// Write connections to the master for each shard.
    pub write_connections: Vec<Connection>,
    /// Read connections for each shard.
    pub read_connections: Vec<Connection>,
    /// Read master connections for each shard.
    pub read_master_connections: Vec<Connection>,
}

impl SqlShardedConnections {
    /// The equal-length invariant of the three role sequences.
    pub open spec fn wf(&self) -> bool {
        &&& self.read_connections@.len() == self.write_connections@.len()
        &&& self.read_master_connections@.len() == self.write_connections@.len()
    }

    /// Check if the struct is empty.
    pub fn is_empty(&self) -> (r: bool)
        ensures
            r == (self.write_connections@.len() == 0),
    {
        self.write_connections.len() == 0
    }
}

impl From<Vec<SqlConnections>> for SqlShardedConnections {
    /// Transpose an ordered sequence of per-shard connection triples into a
    /// triple of per-role sequences, preserving shard order: position `i` of
    /// every output sequence comes from position `i` of the input.
    fn from(shard_connections: Vec<SqlConnections>) -> (r: Self)
        ensures
            r.wf(),
            r.write_connections@.len() == shard_connections@.len(),
            forall|i: int| 0 <= i < shard_connections@.len()
                ==> #[trigger] r.write_connections@[i]
                == shard_connections@[i].write_connection,
            forall|i: int| 0 <= i < shard_connections@.len()
                ==> #[trigger] r.read_connections@[i] == shard_connections@[i].read_connection,
            forall|i: int| 0 <= i < shard_connections@.len()
                ==> #[trigger] r.read_master_connections@[i]
                == shard_connections@[i].read_master_connection,
    {
        let n = shard_connections.len();
        let mut write_connections: Vec<Connection> = Vec::with_capacity(n);
        let mut read_connections: Vec<Connection> = Vec::with_capacity(n);
        let mut read_master_connections: Vec<Connection> = Vec::with_capacity(n);
        let mut i: usize = 0;
        while i < n
            invariant
                n == shard_connections@.len(),
                i <= n,
                write_connections@.len() == i,
                read_connections@.len() == i,
                read_master_connections@.len() == i,
                forall|j: int| 0 <= j < i ==> #[trigger] write_connections@[j]
                    == shard_connections@[j].write_connection,
                forall|j: int| 0 <= j < i ==> #[trigger] read_connections@[j]
                    == shard_connections@[j].read_connection,
                forall|j: int| 0 <= j < i ==> #[trigger] read_master_connections@[j]
                    == shard_connections@[j].read_master_connection,
            decreases n - i,
        {
            let connections = &shard_connections[i];
            write_connections.push(connections.write_connection.clone());
            read_connections.push(connections.read_connection.clone());
            read_master_connections.push(connections.read_master_connection.clone());
            i = i + 1;
        }
        SqlShardedConnections { read_connections, read_master_connections, write_connections }
    }
}

impl Clone for SqlShardedConnections {
    /// The clone holds, role by role and shard by shard, handles to the same
    /// underlying resources as the original.
    fn clone(&self) -> (r: Self)
        ensures
            r.write_connections@ == self.write_connections@,
            r.read_connections@ == self.read_connections@,
            r.read_master_connections@ == self.read_master_connections@,
    {
        let write_connections = self.write_connections.clone();
        let read_connections = self.read_connections.clone();
        let read_master_connections = self.read_master_connections.clone();
        proof {
            assert(write_connections@ =~= self.write_connections@);
            assert(read_connections@ =~= self.read_connections@);
            assert(read_master_connections@ =~= self.read_master_connections@);
        }
        SqlShardedConnections { write_connections, read_connections, read_master_connections }
    }
}

impl vstd::std_specs::convert::FromSpecImpl<Vec<SqlConnections>> for SqlShardedConnections {
    open spec fn obeys_from_spec() -> bool {
        false
    }

    open spec fn from_spec(shard_connections: Vec<SqlConnections>) -> Self {
        arbitrary()
    }
}

/// Value returned from a `write` type of query.
pub struct WriteResult {
    last_insert_id: Option<u64>,
    affected_rows: u64,
}

impl WriteResult {
    /// The id of the last inserted row, if the statement generated one.
    pub closed spec fn spec_last_insert_id(&self) -> Option<u64> {
        self.last_insert_id
    }

    /// The number of rows affected by the mutating statement.
    pub closed spec fn spec_affected_rows(&self) -> u64 {
        self.affected_rows
    }

    /// Method made public for access from inside macros, you probably don't
    /// want to use it.
    pub fn new(last_insert_id: Option<u64>, affected_rows: u64) -> (r: Self)
        ensures
            r.spec_last_insert_id() == last_insert_id,
            r.spec_affected_rows() == affected_rows,
    {
        WriteResult { last_insert_id, affected_rows }
    }

    /// Return the id of last inserted row if any.
    pub fn last_insert_id(&self) -> (r: Option<u64>)
        ensures
            r == self.spec_last_insert_id(),
    {
        self.last_insert_id
    }

    /// Return number of rows affected by the `write` query.
    pub fn affected_rows(&self) -> (r: u64)
        ensures
            r == self.spec_affected_rows(),
    {
        self.affected_rows
    }
}

} // verus!
