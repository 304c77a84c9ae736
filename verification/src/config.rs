//! The gateway's configuration record, immutable after parse.
//!
//! Flag parsing and environment lookup happen outside the library; the
//! library receives the finished record.

use vstd::prelude::*;
use vstd::string::StringExecFns;

use crate::auth::PgLiteAuthType;
use crate::backend::PgLiteBackendType;

verus! {

/// A log level for the console or file logger.
#[derive(Clone, Copy, Debug, PartialEq, Eq, Structural)]
pub enum PgLiteLogLevel {
    OFF,
    ERROR,
    WARN,
    INFO,
    DEBUG,
    TRACE,
}

/// Every option the gateway runs under.
pub struct PgLiteConfig {
    /// The address the listener binds.
    pub listen_addr: String,
    /// The database backend variant.
    pub backend: PgLiteBackendType,
    /// The authenticator variant.
    pub authenticator: PgLiteAuthType,
    /// The authenticator's credential. Authentication is rejected while no
    /// credential is configured.
    pub auth_config: Option<String>,
    /// The console log level.
    pub consolelog_level: PgLiteLogLevel,
    /// The file log level.
    pub filelog_level: PgLiteLogLevel,
    /// Where the file log is written when enabled.
    pub filelog_path: String,
    /// The directory under which the SQLite database files live.
    pub db_root: String,
    /// How many idle seconds a backend worker waits before retiring.
    pub db_idle_timeout: u64,
}

impl PgLiteConfig {
    /// The default options: listen on every interface at the PostgreSQL
    /// port, the bundled backend and authenticator, no credential, console
    /// logging at `info`, file logging off, databases under `./local-data`,
    /// and a ten-minute idle timeout.
    pub fn defaults() -> (c: Self)
        ensures
            c.listen_addr@ == "0.0.0.0:5432"@,
            c.backend == PgLiteBackendType::SimplePgLiteDBBackend,
            c.authenticator == PgLiteAuthType::BasicPasswordAuthenticator,
            c.auth_config is None,
            c.consolelog_level == PgLiteLogLevel::INFO,
            c.filelog_level == PgLiteLogLevel::OFF,
            c.filelog_path@ == "/var/log/pglite"@,
            c.db_root@ == "./local-data"@,
            c.db_idle_timeout == 600,
    {
        PgLiteConfig {
            listen_addr: String::from_str("0.0.0.0:5432"),
            backend: PgLiteBackendType::SimplePgLiteDBBackend,
            authenticator: PgLiteAuthType::BasicPasswordAuthenticator,
            auth_config: None,
            consolelog_level: PgLiteLogLevel::INFO,
            filelog_level: PgLiteLogLevel::OFF,
            filelog_path: String::from_str("/var/log/pglite"),
            db_root: String::from_str("./local-data"),
            db_idle_timeout: 600,
        }
    }
}

} // verus!
