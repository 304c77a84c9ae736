//! The single-file SQLite backend.
//!
//! A backend owns one open SQLite handle and serves one database file. It
//! answers three kinds of request: a simple query, a query with bound
//! parameters, and a describe. Row-returning SQL is detected by its
//! `SELECT` prefix; everything else runs as a statement and answers with a
//! single-column `OK` schema holding the affected-row count.

use vstd::prelude::*;
use vstd::string::StringExecFns;

use crate::backend::channel::{
    channel_recv_timeout, channel_send, channel_unbounded, RecvOutcome,
};
use crate::backend::{
    spec_value_view, BackendConnection, MessageType, PgLiteDBMessage, PgLiteDBParam,
    PgLiteDBResponse, Record, SqlValue, SqlValueView, Field,
};
use crate::bridge::StorageClass;
use crate::config::PgLiteConfig;
use crate::decltype::{is_select, spec_is_select, spec_storage_for_decl, storage_for_decl};
use crate::errors::PgError;

verus! {

/// An open handle on one SQLite database file.
#[verifier::external_type_specification]
#[verifier::external_body]
pub struct ExConnection(rusqlite::Connection);

/// A SQLite value as the engine holds it.
#[verifier::external_type_specification]
#[verifier::external_body]
pub struct ExValue(rusqlite::types::Value);

/// Relies on `rusqlite::Connection::open`: opens the database file at the
/// path, creating it when absent; the error text is passed through.
#[verifier::external_body]
fn open_db(path: &str) -> Result<rusqlite::Connection, String> {
    rusqlite::Connection::open(path).map_err(|e| e.to_string())
}

/// Relies on `rusqlite::Connection::close`: closes the handle, telling
/// whether the engine accepted the close.
#[verifier::external_body]
fn close_db(con: rusqlite::Connection) -> bool {
    con.close().is_ok()
}

/// Relies on `rusqlite::Connection::prepare_cached` and
/// `rusqlite::Statement::columns`: compiles the SQL (or finds it in the
/// engine's statement cache) and hands back each result column's name and
/// declared type bytes, in column order. `columns` itself panics inside
/// the engine crate on a database file whose schema text is not valid
/// UTF-8 — a property of the file, not of these arguments, which the
/// engine's API offers no way to reach without; such a file takes down
/// the worker thread, not the process.
#[verifier::external_body]
fn prepare_column_meta(
    con: &rusqlite::Connection,
    sql: &Vec<u8>,
) -> Result<Vec<(String, Option<Vec<u8>>)>, String> {
    let text = String::from_utf8_lossy(sql).into_owned();
    let stmt = con.prepare_cached(&text).map_err(|e| e.to_string())?;
    Ok(stmt.columns().iter().map(
        |c| (c.name().to_string(), c.decl_type().map(|d| d.as_bytes().to_vec())),
    ).collect())
}

/// The mathematical content of an engine value: the engine's five storage
/// classes carry exactly the library's value views, a real as its 64-bit
/// pattern. The view is a function of the value alone.
pub uninterp spec fn engine_value_view(v: rusqlite::types::Value) -> SqlValueView;

/// Converts one library value into the engine's value type, one for one; a
/// real's bit pattern becomes the engine's 64-bit real, so the engine
/// value's view is the library value's view.
#[verifier::external_body]
fn to_engine_value(v: &SqlValue) -> (r: rusqlite::types::Value)
    ensures
        engine_value_view(r) == spec_value_view(v),
{
    match v {
        SqlValue::Null => rusqlite::types::Value::Null,
        SqlValue::Integer(i) => rusqlite::types::Value::Integer(*i),
        SqlValue::Real(b) => rusqlite::types::Value::Real(bytes::Buf::get_f64(
            &mut &b.to_be_bytes()[..],
        )),
        SqlValue::Text(t) => rusqlite::types::Value::Text(t.clone()),
        SqlValue::Blob(b) => rusqlite::types::Value::Blob(b.clone()),
    }
}

/// Converts one engine value into the library's value type, one for one; a
/// 64-bit real is captured as its bit pattern, so the library value's view
/// is the engine value's view: cells keep their native storage classes.
#[verifier::external_body]
fn from_engine_value(v: &rusqlite::types::Value) -> (r: SqlValue)
    ensures
        spec_value_view(&r) == engine_value_view(*v),
{
    match v {
        rusqlite::types::Value::Null => SqlValue::Null,
        rusqlite::types::Value::Integer(i) => SqlValue::Integer(*i),
        rusqlite::types::Value::Real(f) => SqlValue::Real(f.to_bits()),
        rusqlite::types::Value::Text(t) => SqlValue::Text(t.clone()),
        rusqlite::types::Value::Blob(b) => SqlValue::Blob(b.clone()),
    }
}

/// Relies on `rusqlite::Statement::query_map`: runs the prepared SQL with
/// the given parameters bound positionally and materializes every row as
/// its first `ncols` column values, in row order. An error while stepping
/// the rows fails the whole call; no partial row set is handed back.
#[verifier::external_body]
fn run_rows(
    con: &rusqlite::Connection,
    sql: &Vec<u8>,
    vals: Vec<rusqlite::types::Value>,
    ncols: usize,
) -> (r: Result<Vec<Vec<rusqlite::types::Value>>, String>)
    ensures
        r matches Ok(rows) ==> forall|i: int| 0 <= i < rows@.len() ==> #[trigger] rows@[i]@.len()
            == ncols,
{
    let text = String::from_utf8_lossy(sql).into_owned();
    let mut stmt = con.prepare_cached(&text).map_err(|e| e.to_string())?;
    let mapped = stmt.query_map(rusqlite::params_from_iter(vals), |row| {
        Ok((0..ncols).map(
            |i| row.get::<usize, rusqlite::types::Value>(i).unwrap_or(rusqlite::types::Value::Null),
        ).collect::<Vec<_>>())
    }).map_err(|e| e.to_string())?;
    mapped.collect::<Result<Vec<_>, _>>().map_err(|e| e.to_string())
}

/// Relies on `rusqlite::Statement::execute`: runs the prepared SQL with the
/// given parameters bound positionally and hands back the affected-row
/// count.
#[verifier::external_body]
fn run_execute(
    con: &rusqlite::Connection,
    sql: &Vec<u8>,
    vals: Vec<rusqlite::types::Value>,
) -> Result<usize, String> {
    let text = String::from_utf8_lossy(sql).into_owned();
    let mut stmt = con.prepare_cached(&text).map_err(|e| e.to_string())?;
    stmt.execute(rusqlite::params_from_iter(vals)).map_err(|e| e.to_string())
}

/// The storage class a schema column gets from its declared type text, or
/// `None` where the declared type is absent or outside the keyword table.
pub open spec fn spec_column_class(m: (String, Option<Vec<u8>>)) -> Option<StorageClass> {
    match m.1 {
        None => None,
        Some(d) => spec_storage_for_decl(d@),
    }
}

/// Build a result schema from column metadata: each column keeps its name
/// and ordinal, and its storage class comes from the declared type table.
/// A column with no declared type, or a declared type outside the table, is
/// an unsupported declared type.
pub fn build_record_schema(meta: &Vec<(String, Option<Vec<u8>>)>) -> (r: Result<
    Vec<Field>,
    PgError,
>)
    ensures
        r matches Ok(fields) ==> {
            &&& fields.len() == meta.len()
            &&& forall|i: int| 0 <= i < meta.len() ==> #[trigger] fields[i].ordinal == i
            &&& forall|i: int| 0 <= i < meta.len() ==> #[trigger] fields[i].name == meta[i].0
            &&& forall|i: int|
                0 <= i < meta.len() ==> Some(#[trigger] fields[i].field_type)
                    == spec_column_class(meta@[i])
        },
        r is Ok <==> forall|i: int| 0 <= i < meta.len() ==> #[trigger] spec_column_class(
            meta@[i],
        ) is Some,
        r matches Err(e) ==> e matches PgError::UnsupportedDeclaredType { .. },
{
    let mut fields: Vec<Field> = Vec::new();
    let mut i: usize = 0;
    while i < meta.len()
        invariant
            0 <= i <= meta.len(),
            fields.len() == i,
            forall|j: int| 0 <= j < i ==> #[trigger] fields[j].ordinal == j,
            forall|j: int| 0 <= j < i ==> #[trigger] fields[j].name == meta[j].0,
            forall|j: int|
                0 <= j < i ==> Some(#[trigger] fields[j].field_type) == spec_column_class(
                    meta@[j],
                ),
        decreases meta.len() - i,
    {
        let (name, decl) = &meta[i];
        match decl {
            None => {
                assert(spec_column_class(meta@[i as int]) is None);
                return Err(PgError::UnsupportedDeclaredType { decl: Vec::new() });
            },
            Some(d) => {
                match storage_for_decl(d) {
                    None => {
                        assert(spec_column_class(meta@[i as int]) is None);
                        return Err(PgError::UnsupportedDeclaredType { decl: d.clone() });
                    },
                    Some(class) => {
                        fields.push(Field { ordinal: i, name: name.clone(), field_type: class });
                    },
                }
            },
        }
        i = i + 1;
    }
    assert forall|j: int| 0 <= j < meta.len() implies #[trigger] spec_column_class(
        meta@[j],
    ) is Some by {
        assert(Some(fields[j].field_type) == spec_column_class(meta@[j]));
    }
    Ok(fields)
}

/// The schema of a non-row statement's reply: one integer column named
/// `OK`.
pub open spec fn spec_ok_schema(fields: Seq<Field>) -> bool {
    &&& fields.len() == 1
    &&& fields[0].ordinal == 0
    &&& fields[0].name@ == "OK"@
    &&& fields[0].field_type == StorageClass::Integer
}

/// The single-file SQLite backend: one open engine handle.
pub struct SimplePgLiteDBBackend {
    con: rusqlite::Connection,
}

impl SimplePgLiteDBBackend {
    /// Open the database file at the path.
    pub fn open(db_path: &str) -> Result<Self, PgError> {
        match open_db(db_path) {
            Ok(con) => Ok(Self { con }),
            Err(message) => Err(PgError::Engine { message }),
        }
    }

    /// Close the engine handle, telling whether the engine accepted the
    /// close.
    pub fn close(self) -> bool {
        close_db(self.con)
    }

    /// Convert a parameter vector to engine values, in order: engine value
    /// `i` carries exactly parameter `i`'s value.
    fn engine_params(params: &Vec<PgLiteDBParam>) -> (r: Vec<rusqlite::types::Value>)
        ensures
            r.len() == params.len(),
            forall|i: int|
                0 <= i < params.len() ==> (#[trigger] engine_value_view(r@[i]))
                    == spec_value_view(&params@[i].value),
    {
        let mut vals: Vec<rusqlite::types::Value> = Vec::new();
        let mut i: usize = 0;
        while i < params.len()
            invariant
                0 <= i <= params.len(),
                vals.len() == i,
                forall|j: int|
                    0 <= j < i ==> (#[trigger] engine_value_view(vals@[j])) == spec_value_view(
                        &params@[j].value,
                    ),
            decreases params.len() - i,
        {
            vals.push(to_engine_value(&params[i].value));
            i = i + 1;
        }
        vals
    }

    /// Materialize the engine's rows: one record per raw row, in row
    /// order, entry `k` of record `i` being column `k` of raw row `i`
    /// captured as its native storage class.
    pub fn build_records(raw_rows: &Vec<Vec<rusqlite::types::Value>>) -> (r: Vec<Record>)
        ensures
            r.len() == raw_rows@.len(),
            forall|i: int|
                0 <= i < raw_rows@.len() ==> (#[trigger] r@[i].values@.len())
                    == raw_rows@[i]@.len(),
            forall|i: int, k: int|
                0 <= i < raw_rows@.len() && 0 <= k < raw_rows@[i]@.len() ==> (
                #[trigger] spec_value_view(&r@[i].values@[k])) == engine_value_view(
                    raw_rows@[i]@[k],
                ),
    {
        let mut records: Vec<Record> = Vec::new();
        let mut i: usize = 0;
        while i < raw_rows.len()
            invariant
                0 <= i <= raw_rows@.len(),
                records.len() == i,
                forall|j: int|
                    0 <= j < i ==> (#[trigger] records@[j].values@.len()) == raw_rows@[j]@.len(),
                forall|j: int, k: int|
                    0 <= j < i && 0 <= k < raw_rows@[j]@.len() ==> (
                    #[trigger] spec_value_view(&records@[j].values@[k])) == engine_value_view(
                        raw_rows@[j]@[k],
                    ),
            decreases raw_rows.len() - i,
        {
            let raw = &raw_rows[i];
            let mut values: Vec<SqlValue> = Vec::new();
            let mut k: usize = 0;
            while k < raw.len()
                invariant
                    0 <= k <= raw@.len(),
                    values.len() == k,
                    forall|m: int|
                        0 <= m < k ==> (#[trigger] spec_value_view(&values@[m]))
                            == engine_value_view(raw@[m]),
                decreases raw.len() - k,
            {
                values.push(from_engine_value(&raw[k]));
                k = k + 1;
            }
            proof {
                assert(raw@ == raw_rows@[i as int]@);
            }
            let rec = Record { values };
            let ghost rec_snapshot = rec;
            let ghost prev_records = records@;
            records.push(rec);
            proof {
                assert(records@ =~= prev_records.push(rec_snapshot));
                assert forall|j: int|
                    0 <= j < i + 1 implies (#[trigger] records@[j].values@.len())
                    == raw_rows@[j]@.len() by {
                    if j < i {
                        assert(records@[j] == prev_records[j]);
                        assert(records@[j].values@.len() == raw_rows@[j]@.len());
                    } else {
                        assert(records@[j] == rec_snapshot);
                        assert(records@[j].values@.len() == raw_rows@[j]@.len());
                    }
                }
                assert forall|j: int, k2: int|
                    0 <= j < i + 1 && 0 <= k2 < raw_rows@[j]@.len() implies (
                #[trigger] spec_value_view(&records@[j].values@[k2])) == engine_value_view(
                    raw_rows@[j]@[k2],
                ) by {
                    if j < i {
                        assert(records@[j] == prev_records[j]);
                        assert(spec_value_view(&records@[j].values@[k2]) == engine_value_view(
                            raw_rows@[j]@[k2],
                        ));
                    } else {
                        assert(records@[j] == rec_snapshot);
                        assert(spec_value_view(&records@[j].values@[k2]) == engine_value_view(
                            raw_rows@[j]@[k2],
                        ));
                    }
                }
            }
            i = i + 1;
        }
        records
    }

    /// The reply to a successful non-row statement: the `OK` schema and a
    /// single row whose one cell holds exactly the affected-row count.
    pub fn build_ok_response(count: usize) -> (r: PgLiteDBResponse)
        ensures
            crate::backend::spec_response_wf(&r),
            r.error is None,
            r.result_schema matches Some(schema) && spec_ok_schema(schema@),
            r.result matches Some(rows) && rows.len() == 1 && rows[0].values.len() == 1
                && rows[0].values[0] is Integer,
            count <= i64::MAX ==> (r.result matches Some(rows) && rows[0].values[0]
                == SqlValue::Integer(count as i64)),
    {
        let field = Field {
            ordinal: 0,
            name: String::from_str("OK"),
            field_type: StorageClass::Integer,
        };
        let mut fields: Vec<Field> = Vec::new();
        fields.push(field);
        let mut values: Vec<SqlValue> = Vec::new();
        values.push(SqlValue::Integer(#[verifier::truncate] (count as i64)));
        let mut records: Vec<Record> = Vec::new();
        records.push(Record { values });
        assert(spec_ok_schema(fields@));
        PgLiteDBResponse { result_schema: Some(fields), result: Some(records), error: None }
    }

    /// Run row-returning SQL: derive the schema from the column metadata,
    /// execute, and materialize every row.
    fn run_select(&self, query: &Vec<u8>, params: &Vec<PgLiteDBParam>) -> (r: PgLiteDBResponse)
        ensures
            crate::backend::spec_response_wf(&r),
            r.error is None ==> r.result is Some,
    {
        let meta = match prepare_column_meta(&self.con, query) {
            Ok(meta) => meta,
            Err(message) => {
                return PgLiteDBResponse {
                    result_schema: None,
                    result: None,
                    error: Some(PgError::Engine { message }),
                };
            },
        };
        let fields = match build_record_schema(&meta) {
            Ok(fields) => fields,
            Err(e) => {
                return PgLiteDBResponse { result_schema: None, result: None, error: Some(e) };
            },
        };
        let ncols: usize = fields.len();
        let vals = Self::engine_params(params);
        match run_rows(&self.con, query, vals, ncols) {
            Ok(raw_rows) => {
                let records = Self::build_records(&raw_rows);
                proof {
                    assert forall|j: int|
                        0 <= j < records@.len() implies (#[trigger] records@[j].values@.len())
                        == ncols by {
                        assert(raw_rows@[j]@.len() == ncols);
                    }
                }
                PgLiteDBResponse {
                    result_schema: Some(fields),
                    result: Some(records),
                    error: None,
                }
            },
            Err(message) => PgLiteDBResponse {
                result_schema: None,
                result: None,
                error: Some(PgError::Engine { message }),
            },
        }
    }

    /// Run non-row SQL: execute it and answer with the `OK` schema and one
    /// row holding the affected-row count.
    fn run_statement(&self, query: &Vec<u8>, params: &Vec<PgLiteDBParam>) -> (r: PgLiteDBResponse)
        ensures
            crate::backend::spec_response_wf(&r),
            r.error is None ==> {
                &&& r.result_schema matches Some(schema) && spec_ok_schema(schema@)
                &&& r.result matches Some(rows) && rows.len() == 1 && rows[0].values.len() == 1
                    && rows[0].values[0] is Integer
            },
    {
        let vals = Self::engine_params(params);
        match run_execute(&self.con, query, vals) {
            Ok(count) => Self::build_ok_response(count),
            Err(message) => PgLiteDBResponse {
                result_schema: None,
                result: None,
                error: Some(PgError::Engine { message }),
            },
        }
    }

    /// Answer a simple query: row-returning SQL streams rows, anything else
    /// answers with the `OK` count schema.
    pub fn query(&self, query: &Vec<u8>) -> (r: PgLiteDBResponse)
        ensures
            crate::backend::spec_response_wf(&r),
            !spec_is_select(query@) && r.error is None ==> {
                &&& r.result_schema matches Some(schema) && spec_ok_schema(schema@)
                &&& r.result matches Some(rows) && rows.len() == 1 && rows[0].values.len() == 1
                    && rows[0].values[0] is Integer
            },
            spec_is_select(query@) && r.error is None ==> r.result is Some,
    {
        let empty: Vec<PgLiteDBParam> = Vec::new();
        if is_select(query) {
            self.run_select(query, &empty)
        } else {
            self.run_statement(query, &empty)
        }
    }

    /// Answer a parameterized query, binding the parameters positionally.
    pub fn query_with_params(&self, query: &Vec<u8>, params: &Vec<PgLiteDBParam>) -> (r:
        PgLiteDBResponse)
        ensures
            crate::backend::spec_response_wf(&r),
            !spec_is_select(query@) && r.error is None ==> {
                &&& r.result_schema matches Some(schema) && spec_ok_schema(schema@)
                &&& r.result matches Some(rows) && rows.len() == 1 && rows[0].values.len() == 1
                    && rows[0].values[0] is Integer
            },
            spec_is_select(query@) && r.error is None ==> r.result is Some,
    {
        if is_select(query) {
            self.run_select(query, params)
        } else {
            self.run_statement(query, params)
        }
    }

    /// Answer a describe: derive the schema without running anything.
    pub fn describe_query(&self, query: &Vec<u8>) -> (r: PgLiteDBResponse)
        ensures
            crate::backend::spec_response_wf(&r),
            r.error is None ==> r.result_schema is Some && r.result is None,
    {
        let meta = match prepare_column_meta(&self.con, query) {
            Ok(meta) => meta,
            Err(message) => {
                return PgLiteDBResponse {
                    result_schema: None,
                    result: None,
                    error: Some(PgError::Engine { message }),
                };
            },
        };
        match build_record_schema(&meta) {
            Ok(fields) => PgLiteDBResponse {
                result_schema: Some(fields),
                result: None,
                error: None,
            },
            Err(e) => PgLiteDBResponse { result_schema: None, result: None, error: Some(e) },
        }
    }

    /// Answer one request of any kind. Every request gets exactly one
    /// response: this function is total, and an engine failure comes back
    /// as the response's error.
    pub fn handle_message(
        &self,
        message_type: MessageType,
        query: &Vec<u8>,
        params: &Vec<PgLiteDBParam>,
    ) -> (r: PgLiteDBResponse)
        ensures
            crate::backend::spec_response_wf(&r),
            message_type == MessageType::Describe && r.error is None ==> r.result_schema is Some
                && r.result is None,
            message_type != MessageType::Describe && r.error is None ==> r.result is Some,
            message_type != MessageType::Describe && !spec_is_select(query@) && r.error is None
                ==> {
                &&& r.result_schema matches Some(schema) && spec_ok_schema(schema@)
                &&& r.result matches Some(rows) && rows.len() == 1 && rows[0].values.len() == 1
                    && rows[0].values[0] is Integer
            },
    {
        match message_type {
            MessageType::SimpleQuery => self.query(query),
            MessageType::QueryWithParams => self.query_with_params(query, params),
            MessageType::Describe => self.describe_query(query),
        }
    }
}

/// What one wait on the worker's inbound queue led to.
#[derive(Clone, Copy, Debug, PartialEq, Eq, Structural)]
pub enum WorkerStep {
    /// A request arrived and was answered with exactly one response.
    Served,
    /// The queue stayed empty past the idle timeout: the worker retires.
    IdleTimeout,
    /// Every handle on the queue is gone: the worker retires.
    QueueClosed,
}

/// Wait once on the worker's inbound queue, bounded by the idle timeout,
/// and answer the request if one arrived. Each received request gets
/// exactly one response: the handler is total, and a send that fails
/// because the caller has gone away is discarded. The caller keeps
/// stepping while this returns `Served` and then retires the worker.
pub fn worker_step(
    backend: &SimplePgLiteDBBackend,
    receiver: &crossbeam_channel::Receiver<PgLiteDBMessage>,
    idle_timeout: u64,
) -> WorkerStep {
    match channel_recv_timeout(receiver, idle_timeout) {
        RecvOutcome::Received(msg) => {
            let empty: Vec<PgLiteDBParam> = Vec::new();
            let params = match &msg.params {
                Some(p) => p,
                None => &empty,
            };
            let response = backend.handle_message(msg.message_type, &msg.query, params);
            let _delivered = channel_send(&msg.respond, response);
            WorkerStep::Served
        },
        RecvOutcome::TimedOut => WorkerStep::IdleTimeout,
        RecvOutcome::Disconnected => WorkerStep::QueueClosed,
    }
}

/// A retiring worker's last duties, in order: evict its pool entry, then
/// close its engine handle. The handle can only be closed through
/// [`WorkerShutdown::finish`], which yields it back unless the entry was
/// evicted first.
pub struct WorkerShutdown {
    backend: SimplePgLiteDBBackend,
    key: String,
    evicted: bool,
}

impl WorkerShutdown {
    /// The database path key whose pool entry this worker owns.
    pub closed spec fn spec_key(&self) -> Seq<char> {
        self.key@
    }

    /// Whether the worker has already evicted its pool entry.
    pub closed spec fn spec_evicted(&self) -> bool {
        self.evicted
    }

    /// Begin retiring: the worker still holds its engine handle and has
    /// not yet evicted its pool entry.
    pub fn begin(backend: SimplePgLiteDBBackend, key: String) -> (w: WorkerShutdown)
        ensures
            !w.spec_evicted(),
            w.spec_key() == key@,
    {
        WorkerShutdown { backend, key, evicted: false }
    }

    /// The key, for looking up the pool entry.
    pub fn key(&self) -> (k: &String)
        ensures
            k@ == self.spec_key(),
    {
        &self.key
    }

    /// Close the engine handle. This succeeds only after the pool entry
    /// was evicted: a worker that has not evicted gets its handle back
    /// unclosed.
    pub fn finish(self) -> (r: Result<bool, WorkerShutdown>)
        ensures
            r is Ok ==> self.spec_evicted(),
            r matches Err(w) ==> w == self && !self.spec_evicted(),
    {
        if self.evicted {
            Ok(self.backend.close())
        } else {
            Err(self)
        }
    }
}

/// One live entry of the backend pool: the path key and a handle on the
/// worker's queue.
pub struct BackendMapEntry {
    pub key: String,
    pub conn: BackendConnection,
}

/// What a freshly created worker needs: its path key, the read end of its
/// queue, and the idle timeout it retires after. The caller opens the
/// database at the key and steps the worker on a thread of its own.
pub struct WorkerSpawn {
    pub key: String,
    pub receiver: crossbeam_channel::Receiver<PgLiteDBMessage>,
    pub idle_timeout: u64,
}

/// The backend pool: one live worker per database path key. Ghost
/// creation and eviction counts witness that a key never has two live
/// workers at once.
pub struct SimplePgLiteDBBackendFactory {
    db_root: String,
    db_idle_timeout: u64,
    db_cache: Vec<BackendMapEntry>,
    created: Ghost<Map<Seq<char>, nat>>,
    evicted: Ghost<Map<Seq<char>, nat>>,
}

/// The pool key for a database path: `db_root`, a separator, and the
/// connection's `dbpath` metadata, with `blackhole` standing in when the
/// metadata is absent.
pub open spec fn spec_db_key(db_root: Seq<char>, dbpath: Option<Seq<char>>) -> Seq<char> {
    match dbpath {
        Some(p) => db_root + "/"@ + p,
        None => db_root + "/"@ + "blackhole"@,
    }
}

impl SimplePgLiteDBBackendFactory {
    /// Whether a live worker entry exists for a key.
    pub closed spec fn spec_alive(&self, k: Seq<char>) -> bool {
        exists|i: int| 0 <= i < self.db_cache.len() && #[trigger] self.db_cache[i].key@ == k
    }

    /// How many workers were ever created for a key.
    pub closed spec fn spec_created(&self, k: Seq<char>) -> nat {
        self.created@[k]
    }

    /// How many workers ever evicted their entry for a key.
    pub closed spec fn spec_evicted(&self, k: Seq<char>) -> nat {
        self.evicted@[k]
    }

    /// The configured database root.
    pub closed spec fn spec_db_root(&self) -> Seq<char> {
        self.db_root@
    }

    /// The configured idle timeout in seconds.
    pub closed spec fn spec_idle_timeout(&self) -> u64 {
        self.db_idle_timeout
    }

    /// The pool invariant: keys are unique, and for every key the workers
    /// created so far exceed those evicted by exactly one when an entry is
    /// live and by zero otherwise.
    pub closed spec fn spec_wf(&self) -> bool {
        &&& forall|i: int, j: int|
            0 <= i < j < self.db_cache.len() ==> #[trigger] self.db_cache[i].key@
                != #[trigger] self.db_cache[j].key@
        &&& forall|k: Seq<char>|
            #[trigger] self.created@[k] == self.evicted@[k] + (if self.spec_alive(k) {
                1int
            } else {
                0int
            })
    }

    /// At most one worker is alive per key at any instant: the creation
    /// count never exceeds the eviction count by more than one.
    pub proof fn lemma_one_worker_per_key(&self, k: Seq<char>)
        requires
            self.spec_wf(),
        ensures
            self.spec_created(k) <= self.spec_evicted(k) + 1,
            self.spec_created(k) == self.spec_evicted(k) + 1 <==> self.spec_alive(k),
    {
    }

    /// A fresh pool over the configured database root and idle timeout,
    /// with no workers.
    pub fn new(config: &PgLiteConfig) -> (f: Self)
        ensures
            f.spec_wf(),
            f.spec_db_root() == config.db_root@,
            f.spec_idle_timeout() == config.db_idle_timeout,
            forall|k: Seq<char>| !f.spec_alive(k),
            forall|k: Seq<char>| f.spec_created(k) == 0 && f.spec_evicted(k) == 0,
    {
        Self {
            db_root: config.db_root.clone(),
            db_idle_timeout: config.db_idle_timeout,
            db_cache: Vec::new(),
            created: Ghost(Map::total(|k: Seq<char>| 0nat)),
            evicted: Ghost(Map::total(|k: Seq<char>| 0nat)),
        }
    }

    /// The pool key for a connection's `dbpath` metadata.
    fn db_key(&self, dbpath: Option<&String>) -> (key: String)
        ensures
            key@ == spec_db_key(self.db_root@, match dbpath {
                Some(p) => Some(p@),
                None => None,
            }),
    {
        let mut key = self.db_root.clone();
        key.append("/");
        match dbpath {
            Some(p) => key.append(p.as_str()),
            None => key.append("blackhole"),
        }
        key
    }

    /// Look a key up in the pool.
    fn lookup(&self, key: &String) -> (r: Option<&BackendMapEntry>)
        ensures
            r matches Some(e) ==> self.spec_alive(key@) && e.key@ == key@,
            r is None ==> !self.spec_alive(key@),
    {
        let mut i: usize = 0;
        while i < self.db_cache.len()
            invariant
                0 <= i <= self.db_cache.len(),
                forall|j: int| 0 <= j < i ==> #[trigger] self.db_cache[j].key@ != key@,
            decreases self.db_cache.len() - i,
        {
            if self.db_cache[i].key == *key {
                return Some(&self.db_cache[i]);
            }
            i = i + 1;
        }
        None
    }

    /// Hand out a worker handle for the connection's database path:
    /// return the cached handle when the key has a live worker, otherwise
    /// create the queue, insert the entry, and hand back what the new
    /// worker needs to start. Exactly one worker is live per key either
    /// way.
    pub fn create_backend(&mut self, dbpath: Option<&String>) -> (r: (
        BackendConnection,
        Option<WorkerSpawn>,
    ))
        requires
            old(self).spec_wf(),
        ensures
            final(self).spec_wf(),
            final(self).spec_db_root() == old(self).spec_db_root(),
            final(self).spec_idle_timeout() == old(self).spec_idle_timeout(),
            ({
                let key = spec_db_key(old(self).spec_db_root(), match dbpath {
                    Some(p) => Some(p@),
                    None => None,
                });
                &&& final(self).spec_alive(key)
                &&& (old(self).spec_alive(key) ==> r.1 is None && forall|k2: Seq<char>|
                    final(self).spec_alive(k2) == old(self).spec_alive(k2)
                        && final(self).spec_created(k2) == old(self).spec_created(k2)
                        && final(self).spec_evicted(k2) == old(self).spec_evicted(k2))
                &&& (!old(self).spec_alive(key) ==> {
                    &&& r.1 matches Some(t) && t.key@ == key && t.idle_timeout == old(
                        self,
                    ).spec_idle_timeout()
                    &&& final(self).spec_created(key) == old(self).spec_created(key) + 1
                    &&& forall|k2: Seq<char>|
                        k2 != key ==> final(self).spec_created(k2) == old(self).spec_created(k2)
                            && #[trigger] final(self).spec_alive(k2) == old(self).spec_alive(k2)
                    &&& forall|k2: Seq<char>| #[trigger] final(self).spec_evicted(k2) == old(
                        self,
                    ).spec_evicted(k2)
                })
            }),
    {
        let key = self.db_key(dbpath);
        match self.lookup(&key) {
            Some(entry) => {
                let conn = entry.conn.duplicate();
                (conn, None)
            },
            None => {
                let (tx, rx) = channel_unbounded::<PgLiteDBMessage>();
                let conn = BackendConnection { sender: tx };
                let entry_conn = conn.duplicate();
                let ghost old_cache = self.db_cache@;
                self.db_cache.push(BackendMapEntry { key: key.clone(), conn: entry_conn });
                proof {
                    self.created@ = self.created@.insert(key@, (self.created@[key@] + 1) as nat);
                    assert(self.spec_alive(key@)) by {
                        assert(self.db_cache[old_cache.len() as int].key@ == key@);
                    }
                    assert forall|k2: Seq<char>| k2 != key@ implies #[trigger] self.spec_alive(k2)
                        == old(self).spec_alive(k2) by {
                        if old(self).spec_alive(k2) {
                            let i = choose|i: int|
                                0 <= i < old_cache.len() && #[trigger] old_cache[i].key@ == k2;
                            assert(self.db_cache[i].key@ == k2);
                        }
                        if self.spec_alive(k2) {
                            let i = choose|i: int|
                                0 <= i < self.db_cache.len() && #[trigger] self.db_cache[i].key@
                                    == k2;
                            assert(i < old_cache.len() && old_cache[i].key@ == k2);
                        }
                    }
                }
                let spawn = WorkerSpawn {
                    key,
                    receiver: rx,
                    idle_timeout: self.db_idle_timeout,
                };
                (conn, Some(spawn))
            },
        }
    }

    /// A retiring worker evicts its own pool entry. The entry under the
    /// worker's key is removed — no other entry is touched — and only then
    /// can the worker close its handle.
    pub fn evict_worker(&mut self, w: &mut WorkerShutdown)
        requires
            old(self).spec_wf(),
        ensures
            final(self).spec_wf(),
            final(self).spec_db_root() == old(self).spec_db_root(),
            final(self).spec_idle_timeout() == old(self).spec_idle_timeout(),
            final(w).spec_evicted(),
            final(w).spec_key() == old(w).spec_key(),
            !final(self).spec_alive(old(w).spec_key()),
            forall|k2: Seq<char>|
                k2 != old(w).spec_key() ==> #[trigger] final(self).spec_alive(k2) == old(
                    self,
                ).spec_alive(k2) && final(self).spec_evicted(k2) == old(self).spec_evicted(k2),
            forall|k2: Seq<char>| #[trigger] final(self).spec_created(k2) == old(
                self,
            ).spec_created(k2),
            old(self).spec_alive(old(w).spec_key()) ==> final(self).spec_evicted(
                old(w).spec_key(),
            ) == old(self).spec_evicted(old(w).spec_key()) + 1,
            !old(self).spec_alive(old(w).spec_key()) ==> final(self).spec_evicted(
                old(w).spec_key(),
            ) == old(self).spec_evicted(old(w).spec_key()),
    {
        let ghost key = w.spec_key();
        let mut i: usize = 0;
        let mut found: Option<usize> = None;
        while i < self.db_cache.len()
            invariant
                0 <= i <= self.db_cache.len(),
                key == w.spec_key(),
                found matches Some(fi) ==> fi < self.db_cache.len() && self.db_cache[fi as int].key@
                    == key,
                found is None ==> forall|j: int|
                    0 <= j < i ==> #[trigger] self.db_cache[j].key@ != key,
            decreases self.db_cache.len() - i,
        {
            if found.is_none() && self.db_cache[i].key == *w.key() {
                found = Some(i);
            }
            i = i + 1;
        }
        match found {
            Some(fi) => {
                let ghost old_cache = self.db_cache@;
                self.db_cache.remove(fi);
                proof {
                    self.evicted@ = self.evicted@.insert(key, (self.evicted@[key] + 1) as nat);
                    assert(old(self).spec_alive(key)) by {
                        assert(old_cache[fi as int].key@ == key);
                    }
                    assert(self.db_cache@ =~= old_cache.subrange(0, fi as int) + old_cache.subrange(
                        fi + 1,
                        old_cache.len() as int,
                    ));
                    assert forall|a: int, b: int|
                        0 <= a < b < self.db_cache.len() implies #[trigger] self.db_cache[a].key@
                        != #[trigger] self.db_cache[b].key@ by {
                        let a0 = if a < fi { a } else { a + 1 };
                        let b0 = if b < fi { b } else { b + 1 };
                        assert(self.db_cache[a].key@ == old_cache[a0].key@);
                        assert(self.db_cache[b].key@ == old_cache[b0].key@);
                    }
                    assert(!self.spec_alive(key)) by {
                        if self.spec_alive(key) {
                            let i2 = choose|i2: int|
                                0 <= i2 < self.db_cache.len() && #[trigger] self.db_cache[i2].key@
                                    == key;
                            let i0 = if i2 < fi { i2 } else { i2 + 1 };
                            assert(old_cache[i0].key@ == key);
                            assert(old_cache[fi as int].key@ == key);
                        }
                    }
                    assert forall|k2: Seq<char>| k2 != key implies #[trigger] self.spec_alive(k2)
                        == old(self).spec_alive(k2) by {
                        if old(self).spec_alive(k2) {
                            let i2 = choose|i2: int|
                                0 <= i2 < old_cache.len() && #[trigger] old_cache[i2].key@ == k2;
                            let inew = if i2 < fi { i2 } else { i2 - 1 };
                            assert(self.db_cache[inew].key@ == k2);
                        }
                        if self.spec_alive(k2) {
                            let i2 = choose|i2: int|
                                0 <= i2 < self.db_cache.len() && #[trigger] self.db_cache[i2].key@
                                    == k2;
                            let i0 = if i2 < fi { i2 } else { i2 + 1 };
                            assert(old_cache[i0].key@ == k2);
                        }
                    }
                }
            },
            None => {
                proof {
                    assert(!old(self).spec_alive(key));
                }
            },
        }
        w.evicted = true;
    }

    /// Evict a retiring worker's entry and then close its handle, in that
    /// order. Returns whether the engine accepted the close.
    pub fn retire_worker(&mut self, w: WorkerShutdown) -> (closed: bool)
        requires
            old(self).spec_wf(),
        ensures
            final(self).spec_wf(),
            !final(self).spec_alive(w.spec_key()),
    {
        let mut w = w;
        self.evict_worker(&mut w);
        let ghost key = w.spec_key();
        match w.finish() {
            Ok(closed) => closed,
            Err(_) => false,
        }
    }
}

/// Select the backend pool named by the configuration. Only the
/// single-file SQLite backend is bundled.
pub fn load_backend_factory(config: &PgLiteConfig) -> (f: SimplePgLiteDBBackendFactory)
    ensures
        f.spec_wf(),
        f.spec_db_root() == config.db_root@,
        f.spec_idle_timeout() == config.db_idle_timeout,
{
    match config.backend {
        crate::backend::PgLiteBackendType::SimplePgLiteDBBackend => {
            SimplePgLiteDBBackendFactory::new(config)
        },
    }
}

} // verus!
