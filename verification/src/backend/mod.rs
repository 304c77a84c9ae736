//! The types that travel between a connection and a backend worker.
//!
//! A connection sends a `PgLiteDBMessage` down a worker's queue and waits on
//! a single-shot response channel for exactly one `PgLiteDBResponse`.

pub mod channel;
pub mod simple_backend;

use vstd::prelude::*;

use crate::bridge::StorageClass;
use crate::errors::PgError;

verus! {

/// A SQLite value in one of the five storage classes. A real is carried as
/// the bit pattern of its 64-bit IEEE representation, so the verified core
/// stays free of floating point; the boundary converts.
#[derive(Clone, Debug, PartialEq)]
pub enum SqlValue {
    Null,
    Integer(i64),
    /// The IEEE 754 bit pattern of a 64-bit real.
    Real(u64),
    Text(String),
    Blob(Vec<u8>),
}

/// The mathematical content of a [`SqlValue`]: text as a character
/// sequence, a blob as a byte sequence.
pub ghost enum SqlValueView {
    Null,
    Integer(i64),
    Real(u64),
    Text(Seq<char>),
    Blob(Seq<u8>),
}

/// The view of a value.
pub open spec fn spec_value_view(v: &SqlValue) -> SqlValueView {
    match v {
        SqlValue::Null => SqlValueView::Null,
        SqlValue::Integer(i) => SqlValueView::Integer(*i),
        SqlValue::Real(b) => SqlValueView::Real(*b),
        SqlValue::Text(t) => SqlValueView::Text(t@),
        SqlValue::Blob(b) => SqlValueView::Blob(b@),
    }
}

/// The storage class a value belongs to.
pub open spec fn spec_class_of(v: &SqlValue) -> StorageClass {
    match v {
        SqlValue::Null => StorageClass::Null,
        SqlValue::Integer(_) => StorageClass::Integer,
        SqlValue::Real(_) => StorageClass::Real,
        SqlValue::Text(_) => StorageClass::Text,
        SqlValue::Blob(_) => StorageClass::Blob,
    }
}

impl SqlValue {
    /// The storage class this value belongs to.
    pub fn class_of(&self) -> (c: StorageClass)
        ensures
            c == spec_class_of(self),
    {
        match self {
            SqlValue::Null => StorageClass::Null,
            SqlValue::Integer(_) => StorageClass::Integer,
            SqlValue::Real(_) => StorageClass::Real,
            SqlValue::Text(_) => StorageClass::Text,
            SqlValue::Blob(_) => StorageClass::Blob,
        }
    }
}

/// One column of a result schema.
#[derive(Clone, Debug, PartialEq)]
pub struct Field {
    pub ordinal: usize,
    pub name: String,
    pub field_type: StorageClass,
}

/// One row of a result, aligned with the active schema.
#[derive(Clone, Debug, PartialEq)]
pub struct Record {
    pub values: Vec<SqlValue>,
}

/// What a backend worker sends back: rows with their schema, a schema alone
/// for a describe, or an error.
#[derive(Clone, Debug, PartialEq)]
pub struct PgLiteDBResponse {
    pub result_schema: Option<Vec<Field>>,
    pub result: Option<Vec<Record>>,
    pub error: Option<PgError>,
}

/// A well-formed response: either schema and rows, or a schema alone
/// (describe), or an error, and every row as wide as the schema.
pub open spec fn spec_response_wf(r: &PgLiteDBResponse) -> bool {
    match r.error {
        Some(_) => r.result_schema is None && r.result is None,
        None => {
            &&& r.result_schema matches Some(schema)
            &&& r.result matches Some(rows) ==> forall|i: int|
                0 <= i < rows.len() ==> #[trigger] rows[i].values.len() == schema.len()
        },
    }
}

/// One bound parameter handed to the engine. The name is reserved for named
/// parameters and currently always absent.
#[derive(Clone, Debug, PartialEq)]
pub struct PgLiteDBParam {
    pub name: Option<String>,
    pub ordinal: Option<usize>,
    pub param_type: Option<StorageClass>,
    pub value: SqlValue,
}

/// The kind of work a message asks a worker for.
#[derive(Clone, Copy, Debug, PartialEq, Eq, Structural)]
pub enum MessageType {
    SimpleQuery,
    QueryWithParams,
    Describe,
}

/// One request to a backend worker: the SQL text, parameters where the kind
/// calls for them, and the single-shot channel the response goes back on.
pub struct PgLiteDBMessage {
    pub message_type: MessageType,
    pub query: Vec<u8>,
    pub params: Option<Vec<PgLiteDBParam>>,
    pub respond: crossbeam_channel::Sender<PgLiteDBResponse>,
}

impl PgLiteDBMessage {
    /// A simple-query request.
    pub fn from_query(
        query: Vec<u8>,
        respond: crossbeam_channel::Sender<PgLiteDBResponse>,
    ) -> (m: Self)
        ensures
            m.message_type == MessageType::SimpleQuery,
            m.query == query,
            m.params is None,
            m.respond == respond,
    {
        Self { message_type: MessageType::SimpleQuery, query, respond, params: None }
    }

    /// A parameterized-query request.
    pub fn from_query_with_params(
        query: Vec<u8>,
        params: Vec<PgLiteDBParam>,
        respond: crossbeam_channel::Sender<PgLiteDBResponse>,
    ) -> (m: Self)
        ensures
            m.message_type == MessageType::QueryWithParams,
            m.query == query,
            m.params == Some(params),
            m.respond == respond,
    {
        Self { message_type: MessageType::QueryWithParams, query, respond, params: Some(params) }
    }

    /// A describe request.
    pub fn from_describe(
        query: Vec<u8>,
        respond: crossbeam_channel::Sender<PgLiteDBResponse>,
    ) -> (m: Self)
        ensures
            m.message_type == MessageType::Describe,
            m.query == query,
            m.params is None,
            m.respond == respond,
    {
        Self { message_type: MessageType::Describe, query, respond, params: None }
    }
}

/// A cheap handle on a backend worker: the write end of its inbound queue.
pub struct BackendConnection {
    pub sender: crossbeam_channel::Sender<PgLiteDBMessage>,
}

impl BackendConnection {
    /// Another handle on the same worker queue.
    pub fn duplicate(&self) -> BackendConnection {
        BackendConnection { sender: channel::channel_sender_clone(&self.sender) }
    }
}

/// The backend variants bundled with the gateway.
#[derive(Clone, Copy, Debug, PartialEq, Eq, Structural)]
pub enum PgLiteBackendType {
    SimplePgLiteDBBackend,
}

} // verus!
