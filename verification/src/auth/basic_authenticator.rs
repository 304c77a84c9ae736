//! The cleartext-password authenticator.
//!
//! It announces `CleartextPassword` and compares the presented password
//! bytewise against the single configured secret. While no secret is
//! configured, every authentication attempt is rejected.

use vstd::prelude::*;
use vstd::string::StringExecFns;

use crate::auth::{AuthMethod, AuthMetadata};
use crate::config::PgLiteConfig;
use crate::errors::PgError;

verus! {

/// The bundled authenticator: a single expected password, or none, in
/// which case authentication always fails.
pub struct BasicPasswordAuthenticator {
    expected_password: Option<String>,
}

/// Builds the bundled authenticator from the configuration.
pub struct BasicPasswordAuthenticatorFactory {}

impl BasicPasswordAuthenticatorFactory {
    /// Build the authenticator: it expects exactly the configured
    /// credential, and rejects everything when none is configured.
    pub fn create_authenticator(&mut self, config: &PgLiteConfig) -> (r: Result<
        BasicPasswordAuthenticator,
        PgError,
    >)
        ensures
            r matches Ok(a) ==> a.spec_expected_password() == match config.auth_config {
                Some(s) => Some(s@),
                None => None,
            },
            r is Ok,
    {
        let expected_password = match &config.auth_config {
            Some(s) => Some(s.clone()),
            None => None,
        };
        Ok(BasicPasswordAuthenticator { expected_password })
    }

    /// Build the authenticator in one step.
    pub fn load_and_create_authenticator(config: &PgLiteConfig) -> (r: Result<
        BasicPasswordAuthenticator,
        PgError,
    >)
        ensures
            r matches Ok(a) ==> a.spec_expected_password() == match config.auth_config {
                Some(s) => Some(s@),
                None => None,
            },
            r is Ok,
    {
        let mut factory = BasicPasswordAuthenticatorFactory {  };
        factory.create_authenticator(config)
    }
}

/// Whether a presented password matches the configured secret: only a
/// configured secret equal to the presented password passes.
pub open spec fn spec_password_accepted(
    expected: Option<Seq<char>>,
    presented: Option<Seq<char>>,
) -> bool {
    match (expected, presented) {
        (Some(e), Some(p)) => e == p,
        _ => false,
    }
}

impl BasicPasswordAuthenticator {
    /// The configured secret, or `None` while unconfigured.
    pub closed spec fn spec_expected_password(&self) -> Option<Seq<char>> {
        match self.expected_password {
            Some(ref s) => Some(s@),
            None => None,
        }
    }

    /// The method announced to the client during startup.
    pub fn pg_auth_type(&self) -> (m: AuthMethod)
        ensures
            m == AuthMethod::CleartextPassword,
    {
        AuthMethod::CleartextPassword
    }

    /// Verify the client's identity: accept exactly when a secret is
    /// configured and the presented password equals it. Success yields the
    /// metadata `user`, `database` and `dbpath = user/database`; failure
    /// is the fatal `28P01` authentication error. A missing password (the
    /// frame held none) fails the same way.
    pub fn verify_identity(
        &self,
        password: Option<&String>,
        username: &String,
        database: &String,
    ) -> (r: Result<AuthMetadata, PgError>)
        ensures
            r is Ok <==> spec_password_accepted(self.spec_expected_password(), match password {
                Some(p) => Some(p@),
                None => None,
            }),
            r matches Ok(m) ==> {
                &&& m.user@ == username@
                &&& m.database@ == database@
                &&& m.dbpath@ == username@ + "/"@ + database@
            },
            r matches Err(e) ==> e == PgError::AuthenticationFailed,
    {
        let (expected, presented) = match (&self.expected_password, password) {
            (Some(e), Some(p)) => (e, p),
            _ => {
                return Err(PgError::AuthenticationFailed);
            },
        };
        if *expected == *presented {
            let mut dbpath = username.clone();
            dbpath.append("/");
            dbpath.append(database.as_str());
            Ok(AuthMetadata {
                user: username.clone(),
                database: database.clone(),
                dbpath,
            })
        } else {
            Err(PgError::AuthenticationFailed)
        }
    }
}

} // verus!
