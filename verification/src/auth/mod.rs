//! Authentication plug point.
//!
//! An authenticator announces its method during startup and verifies the
//! client's credentials against the username and database drawn from the
//! startup metadata. The bundled variant compares a cleartext password
//! against the configured secret.

pub mod basic_authenticator;

use vstd::prelude::*;

use basic_authenticator::{BasicPasswordAuthenticator, BasicPasswordAuthenticatorFactory};
use crate::config::PgLiteConfig;
use crate::errors::PgError;

verus! {

/// The authentication methods a variant can announce to the client.
#[derive(Clone, Copy, Debug, PartialEq, Eq, Structural)]
pub enum AuthMethod {
    CleartextPassword,
}

/// The authenticator variants bundled with the gateway.
#[derive(Clone, Copy, Debug, PartialEq, Eq, Structural)]
pub enum PgLiteAuthType {
    BasicPasswordAuthenticator,
}

/// The metadata a successful authentication yields: the user, the
/// database, and the relative database path `user/database`.
#[derive(Debug)]
pub struct AuthMetadata {
    pub user: String,
    pub database: String,
    pub dbpath: String,
}

/// Select and build the authenticator named by the configuration. Only
/// the cleartext-password variant is bundled.
pub fn load_authenticator(config: &PgLiteConfig) -> (r: Result<BasicPasswordAuthenticator, PgError>)
    ensures
        r matches Ok(a) ==> a.spec_expected_password() == match config.auth_config {
            Some(s) => Some(s@),
            None => None,
        },
{
    match config.authenticator {
        PgLiteAuthType::BasicPasswordAuthenticator => {
            BasicPasswordAuthenticatorFactory::load_and_create_authenticator(config)
        },
    }
}

} // verus!
