//! The gateway's error model.
//!
//! Each error carries a SQLSTATE code and a severity. Fatal errors close the
//! connection after the error response; plain errors are followed by a
//! `ReadyForQuery` so the connection stays usable.

use vstd::prelude::*;

verus! {

/// The severity field of an error response.
#[derive(Clone, Copy, Debug, PartialEq, Eq, Structural)]
pub enum Severity {
    Error,
    Fatal,
}

/// The SQLSTATE codes the gateway emits.
#[derive(Clone, Copy, Debug, PartialEq, Eq, Structural)]
pub enum SqlState {
    /// `28P01`: invalid password / authentication rejected.
    InvalidPassword,
    /// `42846`: unsupported declared column type.
    CannotCoerce,
    /// `XX000`: internal error (protocol, backend, engine).
    InternalError,
}

/// Everything that can go wrong between a frame arriving and its reply.
#[derive(Clone, Debug, PartialEq)]
pub enum PgError {
    /// The presented credentials were rejected, or no credential is
    /// configured. `28P01`, fatal.
    AuthenticationFailed,
    /// The backend worker did not answer within the response deadline.
    /// `XX000`, fatal.
    BackendTimeout,
    /// The backend worker's queue is gone. `XX000`, fatal.
    BackendDisconnected,
    /// A describe produced no schema. `XX000`, fatal.
    SchemaUnavailable,
    /// A declared column type outside the keyword table. `42846`, plain
    /// error; carries the declared text.
    UnsupportedDeclaredType { decl: Vec<u8> },
    /// A bound parameter whose declared type OID is outside the supported
    /// set. `XX000`, plain error; carries the OID.
    UnsupportedParameterType { oid: u32 },
    /// A bound parameter whose value does not fit its declared type OID.
    /// `XX000`, plain error; carries the parameter's ordinal.
    MalformedParameter { ordinal: usize },
    /// An unknown statement or portal name at execute or describe time.
    /// `XX000`, plain error.
    UnknownPortal,
    /// An error reported by the SQL engine, passed through verbatim.
    /// `XX000`, plain error.
    Engine { message: String },
    /// A response that carries neither rows nor an error. `XX000`, fatal.
    UnexpectedFailure,
}

/// The SQLSTATE of an error.
pub open spec fn spec_sql_state(e: &PgError) -> SqlState {
    match e {
        PgError::AuthenticationFailed => SqlState::InvalidPassword,
        PgError::UnsupportedDeclaredType { .. } => SqlState::CannotCoerce,
        _ => SqlState::InternalError,
    }
}

/// The severity of an error: authentication and backend-channel failures
/// are fatal, per-statement failures are plain errors.
pub open spec fn spec_severity(e: &PgError) -> Severity {
    match e {
        PgError::AuthenticationFailed => Severity::Fatal,
        PgError::BackendTimeout => Severity::Fatal,
        PgError::BackendDisconnected => Severity::Fatal,
        PgError::SchemaUnavailable => Severity::Fatal,
        PgError::UnexpectedFailure => Severity::Fatal,
        _ => Severity::Error,
    }
}

impl PgError {
    /// The SQLSTATE of this error.
    pub fn sql_state(&self) -> (s: SqlState)
        ensures
            s == spec_sql_state(self),
    {
        match self {
            PgError::AuthenticationFailed => SqlState::InvalidPassword,
            PgError::UnsupportedDeclaredType { .. } => SqlState::CannotCoerce,
            _ => SqlState::InternalError,
        }
    }

    /// The severity of this error.
    pub fn severity(&self) -> (s: Severity)
        ensures
            s == spec_severity(self),
    {
        match self {
            PgError::AuthenticationFailed => Severity::Fatal,
            PgError::BackendTimeout => Severity::Fatal,
            PgError::BackendDisconnected => Severity::Fatal,
            PgError::SchemaUnavailable => Severity::Fatal,
            PgError::UnexpectedFailure => Severity::Fatal,
            _ => Severity::Error,
        }
    }
}

/// The five bytes of a SQLSTATE code.
pub open spec fn spec_sql_state_bytes(s: SqlState) -> Seq<u8> {
    match s {
        SqlState::InvalidPassword => seq![50u8, 56u8, 80u8, 48u8, 49u8],
        SqlState::CannotCoerce => seq![52u8, 50u8, 56u8, 52u8, 54u8],
        SqlState::InternalError => seq![88u8, 88u8, 48u8, 48u8, 48u8],
    }
}

/// The five ASCII bytes of a SQLSTATE code: `28P01`, `42846` or `XX000`.
pub fn sql_state_bytes(s: SqlState) -> (r: Vec<u8>)
    ensures
        r@ == spec_sql_state_bytes(s),
{
    match s {
        SqlState::InvalidPassword => {
            let mut v: Vec<u8> = Vec::new();
            v.push(50);
            v.push(56);
            v.push(80);
            v.push(48);
            v.push(49);
            assert(v@ =~= spec_sql_state_bytes(s));
            v
        },
        SqlState::CannotCoerce => {
            let mut v: Vec<u8> = Vec::new();
            v.push(52);
            v.push(50);
            v.push(56);
            v.push(52);
            v.push(54);
            assert(v@ =~= spec_sql_state_bytes(s));
            v
        },
        SqlState::InternalError => {
            let mut v: Vec<u8> = Vec::new();
            v.push(88);
            v.push(88);
            v.push(48);
            v.push(48);
            v.push(48);
            assert(v@ =~= spec_sql_state_bytes(s));
            v
        },
    }
}

/// What the connection loop does with an error: always send an error
/// response; after a plain error also send `ReadyForQuery` so the client
/// can continue, after a fatal error close the stream.
#[derive(Clone, Copy, Debug, PartialEq, Eq, Structural)]
pub struct ErrorPlan {
    pub send_ready_for_query: bool,
    pub close_connection: bool,
}

/// Decide how the connection loop reacts to an error: the connection
/// remains usable exactly when the severity is `Error`.
pub fn error_plan(e: &PgError) -> (p: ErrorPlan)
    ensures
        p.send_ready_for_query == (spec_severity(e) == Severity::Error),
        p.close_connection == (spec_severity(e) == Severity::Fatal),
{
    match e.severity() {
        Severity::Error => ErrorPlan { send_ready_for_query: true, close_connection: false },
        Severity::Fatal => ErrorPlan { send_ready_for_query: false, close_connection: true },
    }
}

} // verus!
