use sql_common::Connection;
use sql_common::SqlConnections;
use sql_common::SqlConnectionsWithSchema;
use sql_common::SqlShardedConnections;
use sql_common::WriteResult;
use sql_common::error::SqlError;
use sql_common::mysql;
use sql_common::sqlite::SqliteMultithreaded;

fn embedded() -> Connection {
    Connection::from(SqliteMultithreaded::open_in_memory().unwrap())
}

fn networked() -> Connection {
    Connection::from(mysql::Connection::new())
}

#[test]
fn write_result_reports_fields() {
    let w = WriteResult::new(Some(7), 3);
    assert_eq!(w.last_insert_id(), Some(7));
    assert_eq!(w.affected_rows(), 3);
    // The accessors do not mutate: asking again gives the same answers.
    assert_eq!(w.last_insert_id(), Some(7));
    assert_eq!(w.affected_rows(), 3);
}

#[test]
fn write_result_without_id() {
    let w = WriteResult::new(None, 0);
    assert_eq!(w.last_insert_id(), None);
    assert_eq!(w.affected_rows(), 0);
}

#[test]
fn clone_shares_resource() {
    let original = embedded();
    let clone = original.clone();
    clone
        .execute_write("CREATE TABLE t (val INTEGER)")
        .unwrap();
    clone.execute_write("INSERT INTO t VALUES (42)").unwrap();
    let rows = original.query_i64_column("SELECT val FROM t").unwrap();
    assert_eq!(rows, vec![42]);
}

#[test]
fn new_single_shares_resource() {
    let c = embedded();
    let s = SqlConnections::new_single(c.clone());
    s.write_connection
        .execute_write("CREATE TABLE t (val INTEGER)")
        .unwrap();
    s.write_connection
        .execute_write("INSERT INTO t VALUES (5)")
        .unwrap();
    assert_eq!(
        s.read_connection.query_i64_column("SELECT val FROM t").unwrap(),
        vec![5]
    );
    assert_eq!(
        s.read_master_connection
            .query_i64_column("SELECT val FROM t")
            .unwrap(),
        vec![5]
    );
    assert_eq!(c.query_i64_column("SELECT val FROM t").unwrap(), vec![5]);
}

#[test]
fn create_schema_embedded_succeeds_and_is_queryable() {
    let c = embedded();
    let ws = SqlConnectionsWithSchema::new_single(c);
    ws.create_schema(
        "CREATE TABLE a (x INTEGER); CREATE TABLE b (y INTEGER);",
    )
    .unwrap();
    let conns = ws.connections();
    assert_eq!(
        conns
            .read_connection
            .query_i64_column("SELECT COUNT(*) FROM a")
            .unwrap(),
        vec![0]
    );
    assert_eq!(
        conns
            .read_connection
            .query_i64_column("SELECT COUNT(*) FROM b")
            .unwrap(),
        vec![0]
    );
}

#[test]
fn create_schema_networked_fails() {
    let ws = SqlConnectionsWithSchema::new_single(networked());
    let r = ws.create_schema("CREATE TABLE t (x INTEGER)");
    assert!(matches!(r, Err(SqlError::ConfigurationMismatch)));
}

#[test]
fn create_schema_without_schema_connection_is_noop_success() {
    let s = SqlConnections::new_single(embedded());
    let ws = SqlConnectionsWithSchema::new(s, None);
    // Even text that is not SQL at all succeeds: nothing is executed.
    assert!(ws.create_schema("THIS IS NOT SQL").is_ok());
}

#[test]
fn create_schema_reports_failing_sql() {
    let ws = SqlConnectionsWithSchema::new_single(embedded());
    let bad = "CREATE BROKEN NONSENSE";
    match ws.create_schema(bad) {
        Err(SqlError::Backend { sql, message }) => {
            assert_eq!(sql, bad);
            assert!(!message.is_empty());
        }
        other => panic!("expected a backend error, got {:?}", other.err()),
    }
}

#[test]
fn from_with_schema_discards_schema_connection() {
    let c = embedded();
    let ws = SqlConnectionsWithSchema::new_single(c);
    ws.create_schema("CREATE TABLE t (val INTEGER)").unwrap();
    let plain = SqlConnections::from(ws);
    plain
        .write_connection
        .execute_write("INSERT INTO t VALUES (1)")
        .unwrap();
    assert_eq!(
        plain
            .read_master_connection
            .query_i64_column("SELECT val FROM t")
            .unwrap(),
        vec![1]
    );
}

#[test]
fn sharded_transpose_preserves_shard_order() {
    let c0 = embedded();
    let c1 = embedded();
    c0.execute_write("CREATE TABLE t (val INTEGER)").unwrap();
    c0.execute_write("INSERT INTO t VALUES (10)").unwrap();
    c1.execute_write("CREATE TABLE t (val INTEGER)").unwrap();
    c1.execute_write("INSERT INTO t VALUES (20)").unwrap();
    let shards = vec![
        SqlConnections::new_single(c0),
        SqlConnections::new_single(c1),
    ];
    let sharded = SqlShardedConnections::from(shards);
    assert!(!sharded.is_empty());
    assert_eq!(sharded.write_connections.len(), 2);
    assert_eq!(sharded.read_connections.len(), 2);
    assert_eq!(sharded.read_master_connections.len(), 2);
    // Position i in every role sequence is shard i's connection.
    assert_eq!(
        sharded.write_connections[0]
            .query_i64_column("SELECT val FROM t")
            .unwrap(),
        vec![10]
    );
    assert_eq!(
        sharded.read_connections[1]
            .query_i64_column("SELECT val FROM t")
            .unwrap(),
        vec![20]
    );
    assert_eq!(
        sharded.read_master_connections[0]
            .query_i64_column("SELECT val FROM t")
            .unwrap(),
        vec![10]
    );
}

#[test]
fn sharded_from_empty_is_empty() {
    let sharded = SqlShardedConnections::from(Vec::new());
    assert!(sharded.is_empty());
    assert_eq!(sharded.write_connections.len(), 0);
    assert_eq!(sharded.read_connections.len(), 0);
    assert_eq!(sharded.read_master_connections.len(), 0);
}

#[test]
fn execute_write_reports_insert_id_and_affected_rows() {
    let c = embedded();
    c.execute_write("CREATE TABLE t (val INTEGER)").unwrap();
    let w = c.execute_write("INSERT INTO t VALUES (1)").unwrap();
    assert_eq!(w.last_insert_id(), Some(1));
    assert_eq!(w.affected_rows(), 1);
    let w = c.execute_write("INSERT INTO t VALUES (2)").unwrap();
    assert_eq!(w.last_insert_id(), Some(2));
    assert_eq!(w.affected_rows(), 1);
    let w = c.execute_write("UPDATE t SET val = 0").unwrap();
    assert_eq!(w.affected_rows(), 2);
}

#[test]
fn execute_write_reports_backend_error_with_sql() {
    let c = embedded();
    let bad = "INSERT INTO missing VALUES (1)";
    match c.execute_write(bad) {
        Err(SqlError::Backend { sql, message }) => {
            assert_eq!(sql, bad);
            assert!(!message.is_empty());
        }
        other => panic!("expected a backend error, got {:?}", other.err()),
    }
}

#[test]
fn networked_statements_require_the_pooled_client() {
    let c = networked();
    assert!(matches!(
        c.execute_write("INSERT INTO t VALUES (1)"),
        Err(SqlError::NetworkedClientRequired)
    ));
    assert!(matches!(
        c.query_i64_column("SELECT 1"),
        Err(SqlError::NetworkedClientRequired)
    ));
}

#[test]
fn backend_name_tells_the_variants_apart() {
    assert_eq!(embedded().backend_name(), "Sqlite");
    assert_eq!(networked().backend_name(), "Mysql client");
}

#[test]
fn sharded_clone_shares_resources() {
    let c = embedded();
    c.execute_write("CREATE TABLE t (val INTEGER)").unwrap();
    let sharded = SqlShardedConnections::from(vec![SqlConnections::new_single(c)]);
    let copy = sharded.clone();
    copy.write_connections[0]
        .execute_write("INSERT INTO t VALUES (4)")
        .unwrap();
    assert_eq!(
        sharded.read_connections[0]
            .query_i64_column("SELECT val FROM t")
            .unwrap(),
        vec![4]
    );
}
