//! Parameter coercion, the authenticator, and the configuration record.

use pglite::auth::basic_authenticator::BasicPasswordAuthenticatorFactory;
use pglite::auth::{load_authenticator, AuthMethod, PgLiteAuthType};
use pglite::backend::{PgLiteBackendType, SqlValue};
use pglite::config::{PgLiteConfig, PgLiteLogLevel};
use pglite::errors::PgError;
use pglite::query_handler::{parse_params, BoundParam, ParamValue};

#[test]
fn coercion_by_declared_oid() {
    let params = vec![
        BoundParam { oid: Some(16), value: Some(ParamValue::Bool(true)) },
        BoundParam { oid: Some(16), value: Some(ParamValue::Bool(false)) },
        BoundParam { oid: Some(21), value: Some(ParamValue::Int16(-3)) },
        BoundParam { oid: Some(23), value: Some(ParamValue::Int32(100000)) },
        BoundParam { oid: Some(20), value: Some(ParamValue::Int64(1 << 40)) },
        BoundParam { oid: Some(701), value: Some(ParamValue::RealBits(0x4000000000000000)) },
        BoundParam { oid: Some(25), value: Some(ParamValue::Text("abc".to_string())) },
        BoundParam { oid: Some(1043), value: Some(ParamValue::Text("xyz".to_string())) },
        BoundParam { oid: Some(17), value: Some(ParamValue::Blob(vec![1, 2, 3])) },
    ];
    let coerced = parse_params(&params).unwrap();
    assert_eq!(coerced.len(), 9);
    assert_eq!(coerced[0].value, SqlValue::Integer(1));
    assert_eq!(coerced[1].value, SqlValue::Integer(0));
    assert_eq!(coerced[2].value, SqlValue::Integer(-3));
    assert_eq!(coerced[3].value, SqlValue::Integer(100000));
    assert_eq!(coerced[4].value, SqlValue::Integer(1 << 40));
    assert_eq!(coerced[5].value, SqlValue::Real(0x4000000000000000));
    assert_eq!(coerced[6].value, SqlValue::Text("abc".to_string()));
    assert_eq!(coerced[7].value, SqlValue::Text("xyz".to_string()));
    assert_eq!(coerced[8].value, SqlValue::Blob(vec![1, 2, 3]));
    for (i, p) in coerced.iter().enumerate() {
        assert_eq!(p.ordinal, Some(i));
        assert!(p.name.is_none());
        assert!(p.param_type.is_none());
    }
}

#[test]
fn absent_values_and_types_coerce_to_null() {
    let params = vec![
        BoundParam { oid: Some(23), value: None },
        BoundParam { oid: None, value: None },
        BoundParam { oid: None, value: Some(ParamValue::Int32(7)) },
    ];
    let coerced = parse_params(&params).unwrap();
    assert_eq!(coerced[0].value, SqlValue::Null);
    assert_eq!(coerced[1].value, SqlValue::Null);
    assert_eq!(coerced[2].value, SqlValue::Null);
}

#[test]
fn unsupported_oid_rejects_the_bind() {
    // 2950 is the UUID type.
    let params = vec![
        BoundParam { oid: Some(23), value: Some(ParamValue::Int32(1)) },
        BoundParam { oid: Some(2950), value: Some(ParamValue::Text("x".to_string())) },
    ];
    let err = parse_params(&params).unwrap_err();
    assert_eq!(err, PgError::UnsupportedParameterType { oid: 2950 });
}

#[test]
fn mismatched_value_rejects_the_bind() {
    let params = vec![BoundParam { oid: Some(16), value: Some(ParamValue::Int32(1)) }];
    let err = parse_params(&params).unwrap_err();
    assert_eq!(err, PgError::MalformedParameter { ordinal: 0 });
}

#[test]
fn cleartext_authentication_accepts_the_configured_secret() {
    let mut config = PgLiteConfig::defaults();
    config.auth_config = Some("secret".to_string());
    let auth = BasicPasswordAuthenticatorFactory::load_and_create_authenticator(&config).unwrap();
    assert_eq!(auth.pg_auth_type(), AuthMethod::CleartextPassword);
    let password = "secret".to_string();
    let meta = auth
        .verify_identity(Some(&password), &"alice".to_string(), &"notes".to_string())
        .unwrap();
    assert_eq!(meta.user, "alice".to_string());
    assert_eq!(meta.database, "notes".to_string());
    assert_eq!(meta.dbpath, "alice/notes".to_string());
}

#[test]
fn wrong_password_is_rejected() {
    let mut config = PgLiteConfig::defaults();
    config.auth_config = Some("secret".to_string());
    let auth = BasicPasswordAuthenticatorFactory::load_and_create_authenticator(&config).unwrap();
    let password = "wrong".to_string();
    let err = auth
        .verify_identity(Some(&password), &"alice".to_string(), &"notes".to_string())
        .unwrap_err();
    assert_eq!(err, PgError::AuthenticationFailed);
}

#[test]
fn unconfigured_credential_rejects_every_attempt() {
    let config = PgLiteConfig::defaults();
    assert!(config.auth_config.is_none());
    let auth = load_authenticator(&config).unwrap();
    let password = "123".to_string();
    let err = auth
        .verify_identity(Some(&password), &"alice".to_string(), &"notes".to_string())
        .unwrap_err();
    assert_eq!(err, PgError::AuthenticationFailed);
}

#[test]
fn missing_password_is_rejected() {
    let mut config = PgLiteConfig::defaults();
    config.auth_config = Some("secret".to_string());
    let auth = load_authenticator(&config).unwrap();
    let err = auth
        .verify_identity(None, &"alice".to_string(), &"notes".to_string())
        .unwrap_err();
    assert_eq!(err, PgError::AuthenticationFailed);
}

#[test]
fn configuration_defaults() {
    let config = PgLiteConfig::defaults();
    assert_eq!(config.listen_addr, "0.0.0.0:5432".to_string());
    assert_eq!(config.backend, PgLiteBackendType::SimplePgLiteDBBackend);
    assert_eq!(config.authenticator, PgLiteAuthType::BasicPasswordAuthenticator);
    assert!(config.auth_config.is_none());
    assert_eq!(config.consolelog_level, PgLiteLogLevel::INFO);
    assert_eq!(config.filelog_level, PgLiteLogLevel::OFF);
    assert_eq!(config.filelog_path, "/var/log/pglite".to_string());
    assert_eq!(config.db_root, "./local-data".to_string());
    assert_eq!(config.db_idle_timeout, 600);
}
