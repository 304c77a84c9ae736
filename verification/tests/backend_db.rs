//! The SQLite backend, the worker, the pool and the retirement order,
//! against a real database engine.

use pglite::backend::simple_backend::{
    load_backend_factory, worker_step, SimplePgLiteDBBackend, WorkerShutdown, WorkerStep,
};
use pglite::backend::{BackendConnection, MessageType, PgLiteDBMessage, PgLiteDBParam, SqlValue};
use pglite::bridge::StorageClass;
use pglite::config::PgLiteConfig;
use pglite::errors::PgError;
use pglite::query_handler::{BoundParam, MemPortalStore, ParamValue, PgQueryProcessor};

#[test]
fn simple_query_round_trip_in_memory() {
    let backend = SimplePgLiteDBBackend::open(":memory:").unwrap();

    let create = backend.query(&b"CREATE TABLE t(id INT, name VARCHAR(32));".to_vec());
    assert!(create.error.is_none());
    let schema = create.result_schema.unwrap();
    assert_eq!(schema.len(), 1);
    assert_eq!(schema[0].name, "OK".to_string());
    assert_eq!(schema[0].field_type, StorageClass::Integer);
    let rows = create.result.unwrap();
    assert_eq!(rows.len(), 1);
    assert_eq!(rows[0].values, vec![SqlValue::Integer(0)]);

    let insert = backend.query(&b"INSERT INTO t VALUES (1,'a'),(2,'b');".to_vec());
    assert!(insert.error.is_none());
    assert_eq!(insert.result.unwrap()[0].values, vec![SqlValue::Integer(2)]);

    let select = backend.query(&b"SELECT id, name FROM t ORDER BY id;".to_vec());
    assert!(select.error.is_none());
    let schema = select.result_schema.unwrap();
    assert_eq!(schema.len(), 2);
    assert_eq!(schema[0].name, "id".to_string());
    assert_eq!(schema[0].field_type, StorageClass::Integer);
    assert_eq!(schema[1].name, "name".to_string());
    assert_eq!(schema[1].field_type, StorageClass::Text);
    let rows = select.result.unwrap();
    assert_eq!(rows.len(), 2);
    assert_eq!(rows[0].values, vec![SqlValue::Integer(1), SqlValue::Text("a".to_string())]);
    assert_eq!(rows[1].values, vec![SqlValue::Integer(2), SqlValue::Text("b".to_string())]);

    assert!(backend.close());
}

#[test]
fn query_with_params_binds_positionally() {
    let backend = SimplePgLiteDBBackend::open(":memory:").unwrap();
    backend.query(&b"CREATE TABLE t(id INT, name VARCHAR(32));".to_vec());
    backend.query(&b"INSERT INTO t VALUES (1,'a'),(2,'b');".to_vec());
    let params = vec![PgLiteDBParam {
        name: None,
        ordinal: Some(0),
        param_type: None,
        value: SqlValue::Integer(2),
    }];
    let resp = backend.query_with_params(&b"SELECT id FROM t WHERE id = $1".to_vec(), &params);
    assert!(resp.error.is_none());
    let rows = resp.result.unwrap();
    assert_eq!(rows.len(), 1);
    assert_eq!(rows[0].values, vec![SqlValue::Integer(2)]);
}

#[test]
fn describe_yields_schema_without_rows() {
    let backend = SimplePgLiteDBBackend::open(":memory:").unwrap();
    backend.query(&b"CREATE TABLE t(id INT, name VARCHAR(32));".to_vec());
    let resp = backend.describe_query(&b"SELECT id, name FROM t".to_vec());
    assert!(resp.error.is_none());
    assert!(resp.result.is_none());
    let schema = resp.result_schema.unwrap();
    assert_eq!(schema.len(), 2);
    assert_eq!(schema[0].ordinal, 0);
    assert_eq!(schema[1].ordinal, 1);
}

#[test]
fn unsupported_declared_type_is_reported() {
    let backend = SimplePgLiteDBBackend::open(":memory:").unwrap();
    backend.query(&b"CREATE TABLE j(doc JSON);".to_vec());
    let resp = backend.query(&b"SELECT doc FROM j".to_vec());
    assert!(matches!(resp.error, Some(PgError::UnsupportedDeclaredType { .. })));
    assert!(resp.result.is_none());
    assert!(resp.result_schema.is_none());
}

#[test]
fn engine_errors_come_back_as_responses() {
    let backend = SimplePgLiteDBBackend::open(":memory:").unwrap();
    let resp = backend.query(&b"SELECT * FROM missing_table".to_vec());
    assert!(matches!(resp.error, Some(PgError::Engine { .. })));
    let resp = backend.query(&b"NOT EVEN SQL".to_vec());
    assert!(matches!(resp.error, Some(PgError::Engine { .. })));
}

#[test]
fn real_values_keep_their_bits() {
    let backend = SimplePgLiteDBBackend::open(":memory:").unwrap();
    backend.query(&b"CREATE TABLE r(x FLOAT);".to_vec());
    backend.query(&b"INSERT INTO r VALUES (1.5);".to_vec());
    let resp = backend.query(&b"SELECT x FROM r".to_vec());
    let rows = resp.result.unwrap();
    // 1.5 in IEEE 754: sign 0, exponent 1023, mantissa half.
    assert_eq!(rows[0].values, vec![SqlValue::Real(0x3FF8000000000000)]);
}

#[test]
fn null_columns_come_back_null() {
    let backend = SimplePgLiteDBBackend::open(":memory:").unwrap();
    backend.query(&b"CREATE TABLE n(a INT, b VARCHAR(8));".to_vec());
    backend.query(&b"INSERT INTO n(a) VALUES (7);".to_vec());
    let resp = backend.query(&b"SELECT a, b FROM n".to_vec());
    let rows = resp.result.unwrap();
    assert_eq!(rows[0].values, vec![SqlValue::Integer(7), SqlValue::Null]);
}

#[test]
fn worker_answers_each_request_exactly_once() {
    let backend = SimplePgLiteDBBackend::open(":memory:").unwrap();
    let (tx, rx) = crossbeam_channel::unbounded::<PgLiteDBMessage>();

    let (r1_tx, r1_rx) = crossbeam_channel::bounded(1);
    tx.send(PgLiteDBMessage::from_query(b"CREATE TABLE t(id INT);".to_vec(), r1_tx)).unwrap();
    let (r2_tx, r2_rx) = crossbeam_channel::bounded(1);
    tx.send(PgLiteDBMessage::from_query(b"INSERT INTO t VALUES (5);".to_vec(), r2_tx)).unwrap();
    let (r3_tx, r3_rx) = crossbeam_channel::bounded(1);
    tx.send(PgLiteDBMessage::from_describe(b"SELECT id FROM t".to_vec(), r3_tx)).unwrap();

    assert_eq!(worker_step(&backend, &rx, 1), WorkerStep::Served);
    assert_eq!(worker_step(&backend, &rx, 1), WorkerStep::Served);
    assert_eq!(worker_step(&backend, &rx, 1), WorkerStep::Served);

    let d = std::time::Duration::from_secs(1);
    let resp1 = r1_rx.recv_timeout(d).unwrap();
    assert!(resp1.error.is_none());
    assert!(r1_rx.recv_timeout(std::time::Duration::from_millis(10)).is_err());
    let resp2 = r2_rx.recv_timeout(d).unwrap();
    assert_eq!(resp2.result.unwrap()[0].values, vec![SqlValue::Integer(1)]);
    let resp3 = r3_rx.recv_timeout(d).unwrap();
    assert!(resp3.result.is_none());
    assert!(resp3.result_schema.is_some());

    // The queue is empty: the worker times out and retires.
    assert_eq!(worker_step(&backend, &rx, 0), WorkerStep::IdleTimeout);
    drop(tx);
    assert_eq!(worker_step(&backend, &rx, 0), WorkerStep::QueueClosed);
}

#[test]
fn worker_serves_message_types() {
    let backend = SimplePgLiteDBBackend::open(":memory:").unwrap();
    let resp = backend.handle_message(
        MessageType::SimpleQuery,
        &b"CREATE TABLE t(id INT);".to_vec(),
        &Vec::new(),
    );
    assert!(resp.error.is_none());
    let params = vec![PgLiteDBParam {
        name: None,
        ordinal: Some(0),
        param_type: None,
        value: SqlValue::Integer(9),
    }];
    let resp = backend.handle_message(
        MessageType::QueryWithParams,
        &b"INSERT INTO t VALUES ($1);".to_vec(),
        &params,
    );
    assert_eq!(resp.result.unwrap()[0].values, vec![SqlValue::Integer(1)]);
    let resp = backend.handle_message(
        MessageType::Describe,
        &b"SELECT id FROM t".to_vec(),
        &Vec::new(),
    );
    assert!(resp.result.is_none());
    assert!(resp.result_schema.is_some());
}

#[test]
fn pool_hands_out_one_worker_per_key() {
    let mut config = PgLiteConfig::defaults();
    config.db_root = "/tmp".to_string();
    let mut factory = load_backend_factory(&config);

    let dbpath = "pglite_pool_test_one.db".to_string();
    let (_conn1, spawn1) = factory.create_backend(Some(&dbpath));
    let spawn1 = spawn1.expect("first acquire creates the worker");
    assert_eq!(spawn1.key, "/tmp/pglite_pool_test_one.db".to_string());
    assert_eq!(spawn1.idle_timeout, 600);

    // A second acquire under the same key finds the live worker.
    let (_conn2, spawn2) = factory.create_backend(Some(&dbpath));
    assert!(spawn2.is_none());

    // Another key gets a worker of its own.
    let other = "pglite_pool_test_two.db".to_string();
    let (_conn3, spawn3) = factory.create_backend(Some(&other));
    assert!(spawn3.is_some());

    // No metadata falls back to the sentinel key.
    let (_conn4, spawn4) = factory.create_backend(None);
    assert_eq!(spawn4.unwrap().key, "/tmp/blackhole".to_string());
}

#[test]
fn worker_evicts_before_closing() {
    let mut config = PgLiteConfig::defaults();
    config.db_root = "/tmp".to_string();
    let mut factory = load_backend_factory(&config);

    let dbpath = "pglite_retire_test.db".to_string();
    let (_conn, spawn) = factory.create_backend(Some(&dbpath));
    let spawn = spawn.unwrap();
    let backend = SimplePgLiteDBBackend::open(&spawn.key).unwrap();

    let mut shutdown = WorkerShutdown::begin(backend, spawn.key.clone());
    // Closing before evicting yields the handle back unclosed.
    shutdown = match shutdown.finish() {
        Ok(_) => panic!("the handle must not close before the pool entry is evicted"),
        Err(w) => w,
    };
    factory.evict_worker(&mut shutdown);
    assert!(shutdown.finish().is_ok());

    // The entry is gone: a new acquire creates a fresh worker.
    let (_conn2, spawn2) = factory.create_backend(Some(&dbpath));
    assert!(spawn2.is_some());
}

#[test]
fn retire_worker_runs_the_order_in_one_call() {
    let mut config = PgLiteConfig::defaults();
    config.db_root = "/tmp".to_string();
    let mut factory = load_backend_factory(&config);
    let dbpath = "pglite_retire_all_test.db".to_string();
    let (_conn, spawn) = factory.create_backend(Some(&dbpath));
    let spawn = spawn.unwrap();
    let backend = SimplePgLiteDBBackend::open(&spawn.key).unwrap();
    let shutdown = WorkerShutdown::begin(backend, spawn.key.clone());
    assert!(factory.retire_worker(shutdown));
    let (_conn2, spawn2) = factory.create_backend(Some(&dbpath));
    assert!(spawn2.is_some());
}

#[test]
fn records_materialize_the_engine_rows_in_order() {
    let raw = vec![
        vec![
            rusqlite::types::Value::Integer(1),
            rusqlite::types::Value::Text("a".to_string()),
        ],
        vec![
            rusqlite::types::Value::Null,
            rusqlite::types::Value::Real(1.5),
        ],
        vec![
            rusqlite::types::Value::Blob(vec![7, 8]),
            rusqlite::types::Value::Integer(-2),
        ],
    ];
    let records = SimplePgLiteDBBackend::build_records(&raw);
    assert_eq!(records.len(), 3);
    assert_eq!(records[0].values, vec![SqlValue::Integer(1), SqlValue::Text("a".to_string())]);
    assert_eq!(records[1].values, vec![SqlValue::Null, SqlValue::Real(0x3FF8000000000000)]);
    assert_eq!(records[2].values, vec![SqlValue::Blob(vec![7, 8]), SqlValue::Integer(-2)]);
    assert!(SimplePgLiteDBBackend::build_records(&Vec::new()).is_empty());
}

#[test]
fn ok_response_holds_exactly_the_affected_count() {
    let resp = SimplePgLiteDBBackend::build_ok_response(2);
    let schema = resp.result_schema.unwrap();
    assert_eq!(schema.len(), 1);
    assert_eq!(schema[0].name, "OK".to_string());
    assert_eq!(schema[0].field_type, StorageClass::Integer);
    assert_eq!(resp.result.unwrap()[0].values, vec![SqlValue::Integer(2)]);
    assert!(resp.error.is_none());
    let resp = SimplePgLiteDBBackend::build_ok_response(0);
    assert_eq!(resp.result.unwrap()[0].values, vec![SqlValue::Integer(0)]);
}

#[test]
fn execute_on_a_portal_with_bad_parameters_reports_the_coercion_error() {
    let mut store = MemPortalStore::new();
    let (tx, _rx) = crossbeam_channel::unbounded();
    let qp = PgQueryProcessor::create(BackendConnection { sender: tx });
    qp.on_parse(&mut store, "s1".to_string(), b"SELECT $1".to_vec(), vec![2950]);
    // The bind itself would reject this; stored portals re-coerce at
    // execute time, so a portal bound elsewhere with an unsupported OID
    // still draws exactly the coercion error, not the unknown-name error.
    let bad = vec![BoundParam { oid: Some(2950), value: Some(ParamValue::Text("u".to_string())) }];
    let err = qp.on_bind(&mut store, "p1".to_string(), "s1".to_string(), bad).unwrap_err();
    assert_eq!(err, PgError::UnsupportedParameterType { oid: 2950 });
    let err = qp.do_execute(&store, &"p1".to_string(), 0).unwrap_err();
    assert_eq!(err, PgError::UnknownPortal);
}
