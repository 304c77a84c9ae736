//! The type bridge and the declared-type parser on concrete values.

use pglite::bridge::{
    storage_for_wire, wire_format_for, wire_oid, wire_type_for, StorageClass, WireFormat, WireType,
};
use pglite::decltype::{is_select, normalize_decl, storage_for_decl};
use pglite::errors::{error_plan, sql_state_bytes, PgError, Severity, SqlState};

#[test]
fn storage_class_wire_round_trip() {
    let classes = [
        StorageClass::Null,
        StorageClass::Integer,
        StorageClass::Real,
        StorageClass::Text,
        StorageClass::Blob,
    ];
    for class in classes {
        assert_eq!(storage_for_wire(wire_type_for(class)), class);
    }
}

#[test]
fn wire_types_by_storage_class() {
    assert_eq!(wire_type_for(StorageClass::Integer), WireType::Int8);
    assert_eq!(wire_type_for(StorageClass::Real), WireType::Float8);
    assert_eq!(wire_type_for(StorageClass::Text), WireType::Text);
    assert_eq!(wire_type_for(StorageClass::Blob), WireType::Bytea);
    assert_eq!(wire_type_for(StorageClass::Null), WireType::Varchar);
}

#[test]
fn wire_oids_are_the_postgres_oids() {
    assert_eq!(wire_oid(WireType::Int8), 20);
    assert_eq!(wire_oid(WireType::Float8), 701);
    assert_eq!(wire_oid(WireType::Text), 25);
    assert_eq!(wire_oid(WireType::Bytea), 17);
    assert_eq!(wire_oid(WireType::Varchar), 1043);
}

#[test]
fn blobs_are_binary_everything_else_text() {
    assert_eq!(wire_format_for(StorageClass::Blob), WireFormat::Binary);
    assert_eq!(wire_format_for(StorageClass::Integer), WireFormat::Text);
    assert_eq!(wire_format_for(StorageClass::Real), WireFormat::Text);
    assert_eq!(wire_format_for(StorageClass::Text), WireFormat::Text);
    assert_eq!(wire_format_for(StorageClass::Null), WireFormat::Text);
}

#[test]
fn normalize_strips_qualifiers_and_uppercases() {
    assert_eq!(normalize_decl(&b"varchar(64)".to_vec()), b"VARCHAR".to_vec());
    assert_eq!(normalize_decl(&b"int NOT NULL".to_vec()), b"INT".to_vec());
    assert_eq!(normalize_decl(&b"Timestamp".to_vec()), b"TIMESTAMP".to_vec());
    assert_eq!(normalize_decl(&b"".to_vec()), b"".to_vec());
}

#[test]
fn declared_type_keyword_table() {
    assert_eq!(storage_for_decl(&b"int".to_vec()), Some(StorageClass::Integer));
    assert_eq!(storage_for_decl(&b"INT".to_vec()), Some(StorageClass::Integer));
    assert_eq!(storage_for_decl(&b"serial".to_vec()), Some(StorageClass::Integer));
    assert_eq!(storage_for_decl(&b"varchar(64)".to_vec()), Some(StorageClass::Text));
    assert_eq!(storage_for_decl(&b"text".to_vec()), Some(StorageClass::Text));
    assert_eq!(storage_for_decl(&b"date".to_vec()), Some(StorageClass::Real));
    assert_eq!(storage_for_decl(&b"time".to_vec()), Some(StorageClass::Real));
    assert_eq!(storage_for_decl(&b"timestamp".to_vec()), Some(StorageClass::Real));
    assert_eq!(storage_for_decl(&b"float".to_vec()), Some(StorageClass::Real));
    assert_eq!(storage_for_decl(&b"binary(16)".to_vec()), Some(StorageClass::Blob));
    assert_eq!(storage_for_decl(&b"int NOT NULL".to_vec()), Some(StorageClass::Integer));
    assert_eq!(storage_for_decl(&b"json".to_vec()), None);
    assert_eq!(storage_for_decl(&b"".to_vec()), None);
    assert_eq!(storage_for_decl(&b"integer".to_vec()), None);
}

#[test]
fn select_prefix_classification() {
    assert!(is_select(&b"SELECT 1".to_vec()));
    assert!(is_select(&b"select id from t".to_vec()));
    assert!(is_select(&b"SeLeCt *".to_vec()));
    assert!(is_select(&b"SELECT".to_vec()));
    assert!(!is_select(&b" SELECT 1".to_vec()));
    assert!(!is_select(&b"INSERT INTO t VALUES (1)".to_vec()));
    assert!(!is_select(&b"sel".to_vec()));
    assert!(!is_select(&b"".to_vec()));
}

#[test]
fn sqlstate_codes_spell_out() {
    assert_eq!(sql_state_bytes(SqlState::InvalidPassword), b"28P01".to_vec());
    assert_eq!(sql_state_bytes(SqlState::CannotCoerce), b"42846".to_vec());
    assert_eq!(sql_state_bytes(SqlState::InternalError), b"XX000".to_vec());
}

#[test]
fn error_codes_and_severities() {
    assert_eq!(PgError::AuthenticationFailed.sql_state(), SqlState::InvalidPassword);
    assert_eq!(PgError::AuthenticationFailed.severity(), Severity::Fatal);
    assert_eq!(PgError::BackendTimeout.sql_state(), SqlState::InternalError);
    assert_eq!(PgError::BackendTimeout.severity(), Severity::Fatal);
    assert_eq!(PgError::BackendDisconnected.severity(), Severity::Fatal);
    let decl_err = PgError::UnsupportedDeclaredType { decl: b"json".to_vec() };
    assert_eq!(decl_err.sql_state(), SqlState::CannotCoerce);
    assert_eq!(decl_err.severity(), Severity::Error);
    let param_err = PgError::UnsupportedParameterType { oid: 2950 };
    assert_eq!(param_err.sql_state(), SqlState::InternalError);
    assert_eq!(param_err.severity(), Severity::Error);
    let engine = PgError::Engine { message: "no such table".to_string() };
    assert_eq!(engine.severity(), Severity::Error);
}

#[test]
fn connection_usable_iff_severity_is_error() {
    let plain = error_plan(&PgError::Engine { message: "boom".to_string() });
    assert!(plain.send_ready_for_query);
    assert!(!plain.close_connection);
    let fatal = error_plan(&PgError::BackendTimeout);
    assert!(!fatal.send_ready_for_query);
    assert!(fatal.close_connection);
}
