//! One client connection: pre-startup peeks, the authentication state
//! machine, and the per-frame dispatch.
//!
//! A connection starts in `AwaitingStartup`, moves to
//! `AuthenticationInProgress` on the startup frame, and to `Ready` when the
//! authenticator accepts the credentials. The state only ever moves
//! forward, and once the connection is ready its database path metadata is
//! set and never changes again.

use vstd::prelude::*;

use crate::auth::basic_authenticator::{spec_password_accepted, BasicPasswordAuthenticator};
use crate::auth::AuthMethod;
use crate::backend::simple_backend::{SimplePgLiteDBBackendFactory, WorkerSpawn};
use crate::backend::BackendConnection;
use crate::errors::{error_plan, ErrorPlan, PgError};
use crate::query_handler::{
    spec_bind_step, spec_coerce_param, spec_portal, spec_statement, spec_statement_sql,
    BoundParam, MemPortalStore, PgQueryProcessor, StatementOrPortal, StoredStatement,
};
use crate::server::{spec_server_parameters, PgLiteServerParameterProvider};
use crate::wire::{translate_dbresponse_to_pgwire, translate_schema_to_pgwire, WireQueryResponse};

verus! {

/// The startup magic number of a GSSAPI encryption request.
pub const GSSENC_REQUEST_MAGIC_NUMBER: u32 = 80877104;

/// The startup magic number of an SSL request.
pub const SSL_REQUEST_MAGIC_NUMBER: u32 = 80877103;

/// The big-endian 32-bit number held in four bytes.
pub open spec fn spec_be_u32(b0: u8, b1: u8, b2: u8, b3: u8) -> int {
    (b0 as int) * 0x1000000 + (b1 as int) * 0x10000 + (b2 as int) * 0x100 + (b3 as int)
}

/// Whether an eight-byte peek holds the given startup magic: the first
/// four bytes are the length, the next four the magic number.
pub open spec fn spec_peek_matches(buf: Seq<u8>, magic: u32) -> bool {
    buf.len() >= 8 && spec_be_u32(buf[4], buf[5], buf[6], buf[7]) == magic
}

/// Whether the first eight peeked bytes hold the given startup magic.
pub fn peek_matches_magic(buf: &Vec<u8>, magic: u32) -> (r: bool)
    ensures
        r == spec_peek_matches(buf@, magic),
{
    if buf.len() < 8 {
        return false;
    }
    let b4: u32 = buf[4] as u32;
    let b5: u32 = buf[5] as u32;
    let b6: u32 = buf[6] as u32;
    let b7: u32 = buf[7] as u32;
    b4 * 0x1000000 + b5 * 0x10000 + b6 * 0x100 + b7 == magic
}

/// The single-byte reply to a GSSAPI encryption request: always `N` —
/// GSSAPI encryption is never supported. `None` when the peeked bytes are
/// no such request, in which case they stay in the buffer.
pub fn peek_for_gssenc_request(buf: &Vec<u8>) -> (r: Option<u8>)
    ensures
        spec_peek_matches(buf@, GSSENC_REQUEST_MAGIC_NUMBER) ==> r == Some(78u8),
        !spec_peek_matches(buf@, GSSENC_REQUEST_MAGIC_NUMBER) ==> r is None,
{
    if peek_matches_magic(buf, GSSENC_REQUEST_MAGIC_NUMBER) {
        Some(78)
    } else {
        None
    }
}

/// The single-byte reply to an SSL request, and whether the stream is to
/// be upgraded: `S` and an upgrade exactly when a TLS acceptor is
/// configured, else `N` and no upgrade. `None` when the peeked bytes are
/// no SSL request.
pub fn peek_for_tls_request(buf: &Vec<u8>, tls_supported: bool) -> (r: Option<(u8, bool)>)
    ensures
        spec_peek_matches(buf@, SSL_REQUEST_MAGIC_NUMBER) && tls_supported ==> r == Some((
            83u8,
            true,
        )),
        spec_peek_matches(buf@, SSL_REQUEST_MAGIC_NUMBER) && !tls_supported ==> r == Some((
            78u8,
            false,
        )),
        !spec_peek_matches(buf@, SSL_REQUEST_MAGIC_NUMBER) ==> r is None,
{
    if peek_matches_magic(buf, SSL_REQUEST_MAGIC_NUMBER) {
        if tls_supported {
            Some((83, true))
        } else {
            Some((78, false))
        }
    } else {
        None
    }
}

/// Relies on `uuid::Uuid::new_v4`: a freshly drawn random connection
/// identifier; nothing is promised of its value.
#[verifier::external_body]
fn new_connection_id() -> u128 {
    uuid::Uuid::new_v4().as_u128()
}

/// Where a connection stands in the startup exchange.
#[derive(Clone, Copy, Debug, PartialEq, Eq, Structural)]
pub enum ConnectionState {
    AwaitingStartup,
    AuthenticationInProgress,
    Ready,
}

/// How far along a state is: the state only ever moves forward.
pub open spec fn spec_state_rank(s: ConnectionState) -> int {
    match s {
        ConnectionState::AwaitingStartup => 0,
        ConnectionState::AuthenticationInProgress => 1,
        ConnectionState::Ready => 2,
    }
}

/// The connection's client metadata: the startup user and database, and
/// after authentication the relative database path `user/database`.
pub struct ClientMetadata {
    pub user: Option<String>,
    pub database: Option<String>,
    pub dbpath: Option<String>,
}

/// One frame from the client, decoded to plain values.
pub enum FrontendFrame {
    /// The startup message's `user` and `database` parameters.
    Startup { user: Option<String>, database: Option<String> },
    /// A password-family message; `None` when no password could be read
    /// from it.
    Password { password: Option<String> },
    Query { sql: Vec<u8> },
    Parse { name: String, sql: Vec<u8>, param_oids: Vec<u32> },
    Bind { portal: String, statement: String, params: Vec<BoundParam> },
    Execute { portal: String, max_rows: usize },
    Describe { target: StatementOrPortal },
    Sync,
    Close { target: StatementOrPortal },
    Terminate,
    /// A flush or any other frame the gateway ignores.
    Other,
}

/// What the connection sends back for one frame.
pub enum ConnectionReply {
    /// Ask the client for credentials with the announced method.
    AuthenticationRequest(AuthMethod),
    /// Authentication succeeded: the parameter-status pairs, then key
    /// data and readiness follow.
    AuthenticationOk { parameters: Vec<(String, String)> },
    /// Rows under a schema, or a synthesized count row, encoded for the
    /// wire.
    QueryResult(WireQueryResponse),
    /// A schema alone, encoded for the wire.
    DescribeResult(Vec<pgwire::api::results::FieldInfo>),
    ParseComplete,
    BindComplete,
    CloseComplete,
    ReadyForQuery,
    /// An error response, with what follows it.
    ErrorReply { error: PgError, plan: ErrorPlan },
    /// Nothing is sent.
    NoReply,
}

/// Everything one frame's processing asks of the caller: the reply to
/// send and whether the connection ends.
pub struct ProcessOutcome {
    pub reply: ConnectionReply,
    pub terminate: bool,
}

/// One client connection's state: its identifier, whether TLS is active,
/// where it stands in the startup exchange, its metadata, and its portal
/// store.
pub struct PgLiteConnection {
    pub connection_id: u128,
    pub is_tls: bool,
    state: ConnectionState,
    metadata: ClientMetadata,
    portal_store: MemPortalStore,
    server_version: String,
}

impl PgLiteConnection {
    /// The connection's identifier.
    pub closed spec fn spec_connection_id(&self) -> u128 {
        self.connection_id
    }

    /// Whether TLS is active on the connection.
    pub closed spec fn spec_is_tls(&self) -> bool {
        self.is_tls
    }

    /// The connection's protocol state.
    pub closed spec fn spec_state(&self) -> ConnectionState {
        self.state
    }

    /// The `dbpath` metadata, viewed.
    pub closed spec fn spec_dbpath(&self) -> Option<Seq<char>> {
        match self.metadata.dbpath {
            Some(ref p) => Some(p@),
            None => None,
        }
    }

    /// The `user` metadata, viewed.
    pub closed spec fn spec_user(&self) -> Option<Seq<char>> {
        match self.metadata.user {
            Some(ref u) => Some(u@),
            None => None,
        }
    }

    /// The `database` metadata, viewed.
    pub closed spec fn spec_database(&self) -> Option<Seq<char>> {
        match self.metadata.database {
            Some(ref d) => Some(d@),
            None => None,
        }
    }

    /// The per-connection portal store.
    pub closed spec fn spec_portal_store(&self) -> MemPortalStore {
        self.portal_store
    }

    /// The version string announced as `server_version`.
    pub closed spec fn spec_server_version(&self) -> Seq<char> {
        self.server_version@
    }

    /// A ready connection always carries its database path.
    pub closed spec fn spec_wf(&self) -> bool {
        &&& self.state == ConnectionState::Ready ==> self.spec_dbpath() is Some
        &&& self.portal_store.spec_wf()
    }

    /// The connection's protocol state.
    pub fn state(&self) -> (s: ConnectionState)
        ensures
            s == self.spec_state(),
    {
        self.state
    }

    /// The declared parameter type OIDs of a parsed statement, for
    /// decoding the values a bind frame carries.
    pub fn statement_param_oids(&self, name: &String) -> (r: Option<&Vec<u32>>)
        requires
            self.spec_wf(),
        ensures
            r matches Some(oids) ==> (spec_statement(&self.spec_portal_store(), name@) matches
                Some(stmt) && stmt.param_oids == *oids),
            r is None ==> spec_statement(&self.spec_portal_store(), name@) is None,
    {
        match self.portal_store.get_statement(name) {
            Some(stmt) => Some(&stmt.param_oids),
            None => None,
        }
    }

    /// The `dbpath` metadata, if set.
    pub fn dbpath(&self) -> (r: Option<&String>)
        ensures
            r matches Some(p) ==> self.spec_dbpath() == Some(p@),
            r is None ==> self.spec_dbpath() is None,
    {
        self.metadata.dbpath.as_ref()
    }

    /// A fresh connection: awaiting startup, no metadata, an empty portal
    /// store, and a freshly drawn identifier.
    pub fn create(is_tls: bool, server_version: String) -> (c: Self)
        ensures
            c.spec_wf(),
            c.spec_state() == ConnectionState::AwaitingStartup,
            c.spec_dbpath() is None,
            c.spec_is_tls() == is_tls,
            c.spec_server_version() == server_version@,
            forall|n: Seq<char>| (#[trigger] spec_statement(&c.spec_portal_store(), n)) is None,
            forall|n: Seq<char>| (#[trigger] spec_portal(&c.spec_portal_store(), n)) is None,
    {
        PgLiteConnection {
            connection_id: new_connection_id(),
            is_tls,
            state: ConnectionState::AwaitingStartup,
            metadata: ClientMetadata { user: None, database: None, dbpath: None },
            portal_store: MemPortalStore::new(),
            server_version,
        }
    }

    /// Process one frame of the startup and authentication phase. The
    /// protocol state moves monotonically through startup, authentication
    /// and readiness, and once the connection is ready its database path
    /// is set and never changes again. A frame arriving on an already
    /// ready connection is not for this phase and draws no reply: the
    /// caller routes ready-phase frames through [`Self::acquire_backend`]
    /// and [`Self::handle_ready_frame`].
    pub fn process_message(
        &mut self,
        authenticator: &BasicPasswordAuthenticator,
        frame: FrontendFrame,
    ) -> (outcome: ProcessOutcome)
        requires
            old(self).spec_wf(),
        ensures
            final(self).spec_wf(),
            spec_state_rank(final(self).spec_state()) >= spec_state_rank(old(self).spec_state()),
            old(self).spec_state() == ConnectionState::Ready ==> final(self).spec_state()
                == ConnectionState::Ready && final(self).spec_dbpath() == old(self).spec_dbpath(),
            final(self).spec_state() == ConnectionState::Ready ==> final(self).spec_dbpath()
                is Some,
            final(self).spec_state() != old(self).spec_state() ==> (final(self).spec_state()
                == ConnectionState::AuthenticationInProgress && frame is Startup) || (
            final(self).spec_state() == ConnectionState::Ready && old(self).spec_state()
                == ConnectionState::AuthenticationInProgress && frame is Password),
            old(self).spec_state() != ConnectionState::Ready && final(self).spec_state()
                == ConnectionState::Ready ==> ({
                &&& final(self).spec_user() matches Some(u)
                &&& final(self).spec_database() matches Some(d)
                &&& final(self).spec_dbpath() == Some(u + "/"@ + d)
            }),
            final(self).spec_server_version() == old(self).spec_server_version(),
            old(self).spec_state() != ConnectionState::Ready ==> (
            frame matches FrontendFrame::Startup { user, database } ==> ({
                &&& final(self).spec_state() == ConnectionState::AuthenticationInProgress
                &&& outcome.reply is AuthenticationRequest
                &&& !outcome.terminate
                &&& final(self).spec_user() == (match user {
                    Some(u) => Some(u@),
                    None => None::<Seq<char>>,
                })
                &&& final(self).spec_database() == (match database {
                    Some(d) => Some(d@),
                    None => None::<Seq<char>>,
                })
            })),
            old(self).spec_state() != ConnectionState::Ready ==> (
            frame matches FrontendFrame::Password { password } ==> ({
                let presented = match password {
                    Some(p) => Some(p@),
                    None => None::<Seq<char>>,
                };
                let accepted = spec_password_accepted(
                    authenticator.spec_expected_password(),
                    presented,
                );
                &&& old(self).spec_state() == ConnectionState::AuthenticationInProgress && accepted
                    ==> ({
                    &&& final(self).spec_state() == ConnectionState::Ready
                    &&& (outcome.reply matches ConnectionReply::AuthenticationOk { parameters }
                        && spec_server_parameters(parameters@, old(self).spec_server_version()))
                    &&& !outcome.terminate
                })
                &&& old(self).spec_state() == ConnectionState::AuthenticationInProgress
                    && !accepted ==> ({
                    &&& (outcome.reply matches ConnectionReply::ErrorReply { error, plan } && error
                        == PgError::AuthenticationFailed && plan.close_connection)
                    &&& outcome.terminate
                    &&& final(self).spec_state() == old(self).spec_state()
                })
                &&& old(self).spec_state() == ConnectionState::AwaitingStartup ==> final(self).spec_state()
                    == old(self).spec_state() && outcome.reply is NoReply && !outcome.terminate
            })),
            old(self).spec_state() != ConnectionState::Ready && frame !is Startup && frame
                !is Password ==> final(self).spec_state() == old(self).spec_state()
                && outcome.reply is NoReply && !outcome.terminate,
            old(self).spec_state() == ConnectionState::Ready ==> outcome.reply is NoReply
                && !outcome.terminate,
            final(self).spec_connection_id() == old(self).spec_connection_id(),
            final(self).spec_is_tls() == old(self).spec_is_tls(),
    {
        match self.state {
            ConnectionState::AwaitingStartup | ConnectionState::AuthenticationInProgress => {
                self.on_startup(authenticator, frame)
            },
            ConnectionState::Ready => ProcessOutcome {
                reply: ConnectionReply::NoReply,
                terminate: false,
            },
        }
    }

    /// Acquire the worker handle for the connection's database path. When
    /// the pool had no live worker under the path's key it creates the
    /// queue and hands back what the fresh worker needs; the caller starts
    /// that worker before dispatching the frame, so the query finds it
    /// serving.
    pub fn acquire_backend(&self, factory: &mut SimplePgLiteDBBackendFactory) -> (r: (
        BackendConnection,
        Option<WorkerSpawn>,
    ))
        requires
            old(factory).spec_wf(),
        ensures
            final(factory).spec_wf(),
            final(factory).spec_alive(
                crate::backend::simple_backend::spec_db_key(
                    old(factory).spec_db_root(),
                    self.spec_dbpath(),
                ),
            ),
            r.1 matches Some(t) ==> t.key@ == crate::backend::simple_backend::spec_db_key(
                old(factory).spec_db_root(),
                self.spec_dbpath(),
            ) && t.idle_timeout == old(factory).spec_idle_timeout(),
    {
        factory.create_backend(self.metadata.dbpath.as_ref())
    }

    /// The authentication phase: a startup frame stores the client's
    /// parameters and asks for credentials; a password frame is verified,
    /// and success stores the authenticator's metadata — above all the
    /// database path — announces the server parameters, and makes the
    /// connection ready. Failure is the fatal authentication error and
    /// the connection closes.
    fn on_startup(
        &mut self,
        authenticator: &BasicPasswordAuthenticator,
        frame: FrontendFrame,
    ) -> (outcome: ProcessOutcome)
        requires
            old(self).spec_wf(),
            old(self).spec_state() != ConnectionState::Ready,
        ensures
            final(self).spec_wf(),
            spec_state_rank(final(self).spec_state()) >= spec_state_rank(old(self).spec_state()),
            final(self).spec_state() == ConnectionState::Ready ==> final(self).spec_dbpath()
                is Some,
            final(self).spec_state() != old(self).spec_state() ==> (final(self).spec_state()
                == ConnectionState::AuthenticationInProgress && frame is Startup) || (
            final(self).spec_state() == ConnectionState::Ready && old(self).spec_state()
                == ConnectionState::AuthenticationInProgress && frame is Password),
            old(self).spec_state() != ConnectionState::Ready && final(self).spec_state()
                == ConnectionState::Ready ==> ({
                &&& final(self).spec_user() matches Some(u)
                &&& final(self).spec_database() matches Some(d)
                &&& final(self).spec_dbpath() == Some(u + "/"@ + d)
            }),
            final(self).spec_server_version() == old(self).spec_server_version(),
            frame matches FrontendFrame::Startup { user, database } ==> ({
                &&& final(self).spec_state() == ConnectionState::AuthenticationInProgress
                &&& outcome.reply is AuthenticationRequest
                &&& !outcome.terminate
                &&& final(self).spec_user() == (match user {
                    Some(u) => Some(u@),
                    None => None::<Seq<char>>,
                })
                &&& final(self).spec_database() == (match database {
                    Some(d) => Some(d@),
                    None => None::<Seq<char>>,
                })
            }),
            frame matches FrontendFrame::Password { password } ==> ({
                let presented = match password {
                    Some(p) => Some(p@),
                    None => None::<Seq<char>>,
                };
                let accepted = spec_password_accepted(
                    authenticator.spec_expected_password(),
                    presented,
                );
                &&& old(self).spec_state() == ConnectionState::AuthenticationInProgress && accepted
                    ==> ({
                    &&& final(self).spec_state() == ConnectionState::Ready
                    &&& (outcome.reply matches ConnectionReply::AuthenticationOk { parameters }
                        && spec_server_parameters(parameters@, old(self).spec_server_version()))
                    &&& !outcome.terminate
                })
                &&& old(self).spec_state() == ConnectionState::AuthenticationInProgress
                    && !accepted ==> ({
                    &&& (outcome.reply matches ConnectionReply::ErrorReply { error, plan } && error
                        == PgError::AuthenticationFailed && plan.close_connection)
                    &&& outcome.terminate
                    &&& final(self).spec_state() == old(self).spec_state()
                })
                &&& old(self).spec_state() == ConnectionState::AwaitingStartup ==> final(self).spec_state()
                    == old(self).spec_state() && outcome.reply is NoReply && !outcome.terminate
            }),
            frame !is Startup && frame !is Password ==> final(self).spec_state()
                == old(self).spec_state() && outcome.reply is NoReply && !outcome.terminate,
            final(self).spec_connection_id() == old(self).spec_connection_id(),
            final(self).spec_is_tls() == old(self).spec_is_tls(),
    {
        match frame {
            FrontendFrame::Startup { user, database } => {
                self.metadata.user = user;
                self.metadata.database = database;
                self.state = ConnectionState::AuthenticationInProgress;
                ProcessOutcome {
                    reply: ConnectionReply::AuthenticationRequest(authenticator.pg_auth_type()),
                    terminate: false,
                }
            },
            FrontendFrame::Password { password } => {
                if !matches!(self.state, ConnectionState::AuthenticationInProgress) {
                    return ProcessOutcome { reply: ConnectionReply::NoReply, terminate: false };
                }
                let unknown = String::from_str("unknown");
                let username = match &self.metadata.user {
                    Some(u) => u.clone(),
                    None => unknown.clone(),
                };
                let database = match &self.metadata.database {
                    Some(d) => d.clone(),
                    None => unknown,
                };
                match authenticator.verify_identity(password.as_ref(), &username, &database) {
                    Ok(auth_meta) => {
                        self.metadata.user = Some(auth_meta.user);
                        self.metadata.database = Some(auth_meta.database);
                        self.metadata.dbpath = Some(auth_meta.dbpath);
                        self.state = ConnectionState::Ready;
                        let provider = PgLiteServerParameterProvider {  };
                        let parameters = provider.server_parameters(
                            self.server_version.as_str(),
                        );
                        ProcessOutcome {
                            reply: ConnectionReply::AuthenticationOk { parameters },
                            terminate: false,
                        }
                    },
                    Err(error) => {
                        let plan = error_plan(&error);
                        ProcessOutcome {
                            reply: ConnectionReply::ErrorReply { error, plan },
                            terminate: true,
                        }
                    },
                }
            },
            _ => ProcessOutcome { reply: ConnectionReply::NoReply, terminate: false },
        }
    }

    /// The ready phase: dispatch one frame to the query processor over
    /// the acquired worker handle. A terminate frame ends the loop; errors
    /// are replied per their severity. The state stays ready and the
    /// database path never changes.
    pub fn handle_ready_frame(
        &mut self,
        backend: BackendConnection,
        frame: FrontendFrame,
    ) -> (outcome: ProcessOutcome)
        requires
            old(self).spec_wf(),
            old(self).spec_state() == ConnectionState::Ready,
        ensures
            final(self).spec_wf(),
            final(self).spec_state() == ConnectionState::Ready,
            final(self).spec_dbpath() == old(self).spec_dbpath(),
            final(self).spec_connection_id() == old(self).spec_connection_id(),
            final(self).spec_is_tls() == old(self).spec_is_tls(),
            final(self).spec_server_version() == old(self).spec_server_version(),
            frame is Terminate ==> outcome.terminate && outcome.reply is NoReply,
            frame is Sync ==> outcome.reply is ReadyForQuery && !outcome.terminate,
            frame is Parse ==> outcome.reply is ParseComplete && !outcome.terminate,
            frame is Close ==> outcome.reply is CloseComplete && !outcome.terminate,
            frame matches FrontendFrame::Parse { name, sql, param_oids } ==> ({
                &&& spec_statement(&final(self).spec_portal_store(), name@) == Some(
                    (StoredStatement { name, sql, param_oids }),
                )
                &&& forall|n: Seq<char>|
                    n != name@ ==> #[trigger] spec_statement(&final(self).spec_portal_store(), n)
                        == spec_statement(&old(self).spec_portal_store(), n)
                &&& final(self).spec_portal_store().spec_portals()
                    == old(self).spec_portal_store().spec_portals()
            }),
            frame matches FrontendFrame::Bind { portal, statement, params } ==> ({
                let accepted = spec_statement_sql(&old(self).spec_portal_store(), statement@)
                    is Some && (forall|i: int|
                    0 <= i < params.len() ==> (#[trigger] spec_coerce_param(i, &params[i])) is Ok);
                &&& accepted ==> outcome.reply is BindComplete && spec_bind_step(
                    &old(self).spec_portal_store(),
                    &final(self).spec_portal_store(),
                    statement@,
                    portal@,
                )
                &&& !accepted ==> (outcome.reply matches ConnectionReply::ErrorReply { .. })
                    && final(self).spec_portal_store() == old(self).spec_portal_store()
            }),
            frame matches FrontendFrame::Close { target } ==> (match target {
                StatementOrPortal::Statement(name) => spec_statement(
                    &final(self).spec_portal_store(),
                    name@,
                ) is None && final(self).spec_portal_store().spec_portals()
                    == old(self).spec_portal_store().spec_portals(),
                StatementOrPortal::Portal(name) => spec_portal(
                    &final(self).spec_portal_store(),
                    name@,
                ) is None && final(self).spec_portal_store().spec_statements()
                    == old(self).spec_portal_store().spec_statements(),
            }),
            frame is Query ==> (outcome.reply is QueryResult || outcome.reply is ErrorReply)
                && final(self).spec_portal_store() == old(self).spec_portal_store(),
            frame is Execute ==> (outcome.reply is QueryResult || outcome.reply is ErrorReply)
                && final(self).spec_portal_store() == old(self).spec_portal_store(),
            frame is Describe ==> (outcome.reply is DescribeResult || outcome.reply
                is ErrorReply) && final(self).spec_portal_store()
                == old(self).spec_portal_store(),
            frame is Sync || frame is Terminate || frame is Other ==> final(self).spec_portal_store()
                == old(self).spec_portal_store(),
    {
        if matches!(frame, FrontendFrame::Terminate) {
            return ProcessOutcome { reply: ConnectionReply::NoReply, terminate: true };
        }
        let query_handler = PgQueryProcessor::create(backend);
        let (reply, terminate) = match frame {
            FrontendFrame::Query { sql } => {
                let translated = match query_handler.do_query(sql) {
                    Ok(resp) => translate_dbresponse_to_pgwire(resp),
                    Err(error) => Err(error),
                };
                match translated {
                    Ok(out) => (ConnectionReply::QueryResult(out), false),
                    Err(error) => {
                        let plan = error_plan(&error);
                        let close = plan.close_connection;
                        (ConnectionReply::ErrorReply { error, plan }, close)
                    },
                }
            },
            FrontendFrame::Parse { name, sql, param_oids } => {
                query_handler.on_parse(&mut self.portal_store, name, sql, param_oids);
                (ConnectionReply::ParseComplete, false)
            },
            FrontendFrame::Bind { portal, statement, params } => {
                match query_handler.on_bind(&mut self.portal_store, portal, statement, params) {
                    Ok(()) => (ConnectionReply::BindComplete, false),
                    Err(error) => {
                        let plan = error_plan(&error);
                        let close = plan.close_connection;
                        (ConnectionReply::ErrorReply { error, plan }, close)
                    },
                }
            },
            FrontendFrame::Execute { portal, max_rows } => {
                let translated = match query_handler.do_execute(
                    &self.portal_store,
                    &portal,
                    max_rows,
                ) {
                    Ok(resp) => translate_dbresponse_to_pgwire(resp),
                    Err(error) => Err(error),
                };
                match translated {
                    Ok(out) => (ConnectionReply::QueryResult(out), false),
                    Err(error) => {
                        let plan = error_plan(&error);
                        let close = plan.close_connection;
                        (ConnectionReply::ErrorReply { error, plan }, close)
                    },
                }
            },
            FrontendFrame::Describe { target } => {
                match query_handler.do_describe(&self.portal_store, &target) {
                    Ok(fields) => (
                        ConnectionReply::DescribeResult(translate_schema_to_pgwire(&fields)),
                        false,
                    ),
                    Err(error) => {
                        let plan = error_plan(&error);
                        let close = plan.close_connection;
                        (ConnectionReply::ErrorReply { error, plan }, close)
                    },
                }
            },
            FrontendFrame::Sync => (ConnectionReply::ReadyForQuery, false),
            FrontendFrame::Close { target } => {
                query_handler.on_close(&mut self.portal_store, &target);
                (ConnectionReply::CloseComplete, false)
            },
            _ => (ConnectionReply::NoReply, false),
        };
        ProcessOutcome { reply, terminate }
    }
}

/// Whether a needle occurs in a haystack at offset `i`.
pub open spec fn spec_contains_at(h: Seq<u8>, n: Seq<u8>, i: int) -> bool {
    0 <= i && i + n.len() <= h.len() && h.subrange(i, i + n.len()) =~= n
}

/// Whether a needle occurs somewhere in a haystack.
pub open spec fn spec_contains(h: Seq<u8>, n: Seq<u8>) -> bool {
    exists|i: int| spec_contains_at(h, n, i)
}

/// Whether one byte string occurs inside another.
pub fn bytes_contain(h: &Vec<u8>, n: &Vec<u8>) -> (r: bool)
    ensures
        r == spec_contains(h@, n@),
{
    if n.len() > h.len() {
        proof {
            assert forall|i: int| !spec_contains_at(h@, n@, i) by {}
        }
        return false;
    }
    let last: usize = h.len() - n.len();
    let mut i: usize = 0;
    while i <= last
        invariant
            0 <= i <= last + 1,
            last == h@.len() - n@.len(),
            n@.len() <= h@.len(),
            h@.len() <= usize::MAX,
            forall|j: int| 0 <= j < i ==> !spec_contains_at(h@, n@, j),
        decreases last + 1 - i,
    {
        let mut k: usize = 0;
        let mut matched = true;
        while k < n.len()
            invariant
                0 <= k <= n@.len(),
                n@.len() <= h@.len(),
                0 <= i <= h@.len() - n@.len(),
                h@.len() <= usize::MAX,
                matched ==> forall|m: int| 0 <= m < k ==> h@[i + m] == n@[m],
                !matched ==> !spec_contains_at(h@, n@, i as int) && n@.len() > 0,
            decreases n@.len() - k,
        {
            if h[i + k] != n[k] {
                proof {
                    if spec_contains_at(h@, n@, i as int) {
                        assert(h@.subrange(i as int, i + n@.len())[k as int] == n@[k as int]);
                    }
                }
                matched = false;
                k = n.len();
            } else {
                k = k + 1;
            }
        }
        if matched {
            proof {
                assert(h@.subrange(i as int, i + n@.len()) =~= n@);
                assert(spec_contains_at(h@, n@, i as int));
            }
            return true;
        }
        proof {
            assert(n@.len() > 0);
        }
        i = i + 1;
    }
    proof {
        assert forall|j: int| !spec_contains_at(h@, n@, j) by {
            if j > last {
                assert(j + n@.len() > h@.len());
            }
        }
    }
    false
}

/// The bytes of the peer-reset marker an I/O error's text carries.
pub open spec fn spec_peer_reset_marker() -> Seq<u8> {
    seq![67, 111, 110, 110, 101, 99, 116, 105, 111, 110, 32, 114, 101, 115, 101, 116, 32, 98, 121, 32, 112, 101, 101, 114]
}

/// Whether an I/O error's text reports the peer resetting the connection,
/// which ends the connection cleanly; any other I/O error is logged and
/// closes it as a failure.
pub fn is_peer_reset(message: &Vec<u8>) -> (r: bool)
    ensures
        r == spec_contains(message@, spec_peer_reset_marker()),
{
    let marker: Vec<u8> = vec![67, 111, 110, 110, 101, 99, 116, 105, 111, 110, 32, 114, 101, 115, 101, 116, 32, 98, 121, 32, 112, 101, 101, 114];
    proof {
        assert(marker@ =~= spec_peer_reset_marker());
    }
    bytes_contain(message, &marker)
}

} // verus!
