//! The startup peeks, the authentication state machine, and the portal
//! store.

use pglite::auth::load_authenticator;
use pglite::backend::channel::RecvOutcome;
use pglite::backend::{BackendConnection, Field, PgLiteDBResponse, Record, SqlValue};
use pglite::bridge::StorageClass;
use pglite::config::PgLiteConfig;
use pglite::connection::{
    bytes_contain, is_peer_reset, peek_for_gssenc_request, peek_for_tls_request, ConnectionReply,
    ConnectionState, FrontendFrame, PgLiteConnection,
};
use pglite::errors::PgError;
use pglite::query_handler::{
    classify_recv_outcome, parse_params, BoundParam, MemPortalStore, ParamValue, PgQueryProcessor,
    StatementOrPortal,
};
use pglite::server::PgLiteServerParameterProvider;
use pglite::wire::translate_dbresponse_to_pgwire;

fn gssenc_peek_bytes() -> Vec<u8> {
    // <i32 length = 8><i32 magic = 80877104>
    vec![0, 0, 0, 8, 4, 210, 22, 48]
}

fn ssl_peek_bytes() -> Vec<u8> {
    // <i32 length = 8><i32 magic = 80877103>
    vec![0, 0, 0, 8, 4, 210, 22, 47]
}

#[test]
fn gssenc_peek_always_elicits_n() {
    assert_eq!(peek_for_gssenc_request(&gssenc_peek_bytes()), Some(b'N'));
    assert_eq!(peek_for_gssenc_request(&ssl_peek_bytes()), None);
    assert_eq!(peek_for_gssenc_request(&vec![0, 0, 0, 8]), None);
    assert_eq!(peek_for_gssenc_request(&Vec::new()), None);
}

#[test]
fn ssl_peek_elicits_s_iff_tls_configured() {
    assert_eq!(peek_for_tls_request(&ssl_peek_bytes(), true), Some((b'S', true)));
    assert_eq!(peek_for_tls_request(&ssl_peek_bytes(), false), Some((b'N', false)));
    assert_eq!(peek_for_tls_request(&gssenc_peek_bytes(), true), None);
    assert_eq!(peek_for_tls_request(&vec![1, 2, 3], true), None);
}

#[test]
fn peer_reset_classification() {
    assert!(is_peer_reset(&b"Connection reset by peer (os error 104)".to_vec()));
    assert!(is_peer_reset(&b"Connection reset by peer".to_vec()));
    assert!(!is_peer_reset(&b"broken pipe".to_vec()));
    assert!(!is_peer_reset(&b"".to_vec()));
    assert!(bytes_contain(&b"abcdef".to_vec(), &b"cde".to_vec()));
    assert!(bytes_contain(&b"abc".to_vec(), &Vec::new()));
    assert!(!bytes_contain(&b"ab".to_vec(), &b"abc".to_vec()));
}

#[test]
fn server_parameters_announced() {
    let provider = PgLiteServerParameterProvider;
    let params = provider.server_parameters("0.1.0");
    assert_eq!(params.len(), 4);
    assert_eq!(params[0], ("server_version".to_string(), "0.1.0".to_string()));
    assert_eq!(params[1], ("server_encoding".to_string(), "UTF8".to_string()));
    assert_eq!(params[2], ("client_encoding".to_string(), "UTF8".to_string()));
    assert_eq!(params[3], ("DateStyle".to_string(), "ISO YMD".to_string()));
}

#[test]
fn startup_then_password_reaches_ready() {
    let mut config = PgLiteConfig::defaults();
    config.auth_config = Some("secret".to_string());
    let auth = load_authenticator(&config).unwrap();
    let mut conn = PgLiteConnection::create(false, "0.1.0".to_string());
    assert_eq!(conn.state(), ConnectionState::AwaitingStartup);
    assert!(conn.dbpath().is_none());

    let out = conn.process_message(
        &auth,
        FrontendFrame::Startup {
            user: Some("alice".to_string()),
            database: Some("notes".to_string()),
        },
    );
    assert!(matches!(out.reply, ConnectionReply::AuthenticationRequest(_)));
    assert!(!out.terminate);
    assert_eq!(conn.state(), ConnectionState::AuthenticationInProgress);

    let out = conn.process_message(
        &auth,
        FrontendFrame::Password { password: Some("secret".to_string()) },
    );
    match out.reply {
        ConnectionReply::AuthenticationOk { parameters } => {
            assert!(parameters.contains(&("server_encoding".to_string(), "UTF8".to_string())));
            assert!(parameters.contains(&("DateStyle".to_string(), "ISO YMD".to_string())));
        },
        _ => panic!("expected authentication to succeed"),
    }
    assert!(!out.terminate);
    assert_eq!(conn.state(), ConnectionState::Ready);
    assert_eq!(conn.dbpath().unwrap().as_str(), "alice/notes");
}

#[test]
fn wrong_password_is_fatal_and_closes() {
    let mut config = PgLiteConfig::defaults();
    config.auth_config = Some("secret".to_string());
    let auth = load_authenticator(&config).unwrap();
    let mut conn = PgLiteConnection::create(false, "0.1.0".to_string());
    conn.process_message(
        &auth,
        FrontendFrame::Startup {
            user: Some("alice".to_string()),
            database: Some("notes".to_string()),
        },
    );
    let out = conn.process_message(
        &auth,
        FrontendFrame::Password { password: Some("wrong".to_string()) },
    );
    match out.reply {
        ConnectionReply::ErrorReply { error, plan } => {
            assert_eq!(error, PgError::AuthenticationFailed);
            assert!(plan.close_connection);
            assert!(!plan.send_ready_for_query);
        },
        _ => panic!("expected an error reply"),
    }
    assert!(out.terminate);
    assert_eq!(conn.state(), ConnectionState::AuthenticationInProgress);
}

#[test]
fn password_before_startup_is_not_accepted() {
    let mut config = PgLiteConfig::defaults();
    config.auth_config = Some("secret".to_string());
    let auth = load_authenticator(&config).unwrap();
    let mut conn = PgLiteConnection::create(false, "0.1.0".to_string());
    let out = conn.process_message(
        &auth,
        FrontendFrame::Password { password: Some("secret".to_string()) },
    );
    assert!(matches!(out.reply, ConnectionReply::NoReply));
    assert_eq!(conn.state(), ConnectionState::AwaitingStartup);
}

#[test]
fn portal_store_parse_bind_execute_text() {
    let mut store = MemPortalStore::new();
    let (tx, _rx) = crossbeam_channel::unbounded();
    let qp = PgQueryProcessor::create(BackendConnection { sender: tx });

    qp.on_parse(&mut store, "s1".to_string(), b"SELECT id FROM t WHERE id = $1".to_vec(), vec![23]);
    let stmt = store.get_statement(&"s1".to_string()).unwrap();
    assert_eq!(stmt.sql, b"SELECT id FROM t WHERE id = $1".to_vec());

    let params = vec![BoundParam { oid: Some(23), value: Some(ParamValue::Int32(2)) }];
    qp.on_bind(&mut store, "p1".to_string(), "s1".to_string(), params).unwrap();
    let portal = store.get_portal(&"p1".to_string()).unwrap();
    // The text executing the portal sends equals the parsed text.
    assert_eq!(portal.sql, b"SELECT id FROM t WHERE id = $1".to_vec());
    assert_eq!(portal.statement_name, "s1".to_string());
    let coerced = parse_params(&portal.params).unwrap();
    assert_eq!(coerced[0].value, SqlValue::Integer(2));

    // Re-parsing the name replaces the stored text.
    qp.on_parse(&mut store, "s1".to_string(), b"SELECT 1".to_vec(), Vec::new());
    assert_eq!(store.get_statement(&"s1".to_string()).unwrap().sql, b"SELECT 1".to_vec());

    // Closing releases exactly the named entries.
    qp.on_close(&mut store, &StatementOrPortal::Portal("p1".to_string()));
    assert!(store.get_portal(&"p1".to_string()).is_none());
    assert!(store.get_statement(&"s1".to_string()).is_some());
    qp.on_close(&mut store, &StatementOrPortal::Statement("s1".to_string()));
    assert!(store.get_statement(&"s1".to_string()).is_none());
}

#[test]
fn bind_with_unsupported_oid_touches_nothing() {
    let mut store = MemPortalStore::new();
    let (tx, _rx) = crossbeam_channel::unbounded();
    let qp = PgQueryProcessor::create(BackendConnection { sender: tx });
    qp.on_parse(&mut store, "s1".to_string(), b"SELECT $1".to_vec(), vec![2950]);
    let params = vec![BoundParam { oid: Some(2950), value: Some(ParamValue::Text("u".to_string())) }];
    let err = qp.on_bind(&mut store, "p1".to_string(), "s1".to_string(), params).unwrap_err();
    assert_eq!(err, PgError::UnsupportedParameterType { oid: 2950 });
    assert!(store.get_portal(&"p1".to_string()).is_none());
    assert!(store.get_statement(&"s1".to_string()).is_some());
}

#[test]
fn bind_to_unknown_statement_is_rejected() {
    let mut store = MemPortalStore::new();
    let (tx, _rx) = crossbeam_channel::unbounded();
    let qp = PgQueryProcessor::create(BackendConnection { sender: tx });
    let err = qp.on_bind(&mut store, "p1".to_string(), "nope".to_string(), Vec::new()).unwrap_err();
    assert_eq!(err, PgError::UnknownPortal);
}

#[test]
fn backend_disconnect_is_told_apart_from_timeout() {
    let (tx, rx) = crossbeam_channel::unbounded();
    drop(rx);
    let qp = PgQueryProcessor::create(BackendConnection { sender: tx });
    let err = qp.do_query(b"SELECT 1".to_vec()).unwrap_err();
    assert_eq!(err, PgError::BackendDisconnected);
}

#[test]
fn backend_timeout_fires_after_the_deadline() {
    let (tx, _rx) = crossbeam_channel::unbounded();
    let qp = PgQueryProcessor::create(BackendConnection { sender: tx });
    let started = std::time::Instant::now();
    let err = qp.do_query(b"SELECT 1".to_vec()).unwrap_err();
    assert_eq!(err, PgError::BackendTimeout);
    assert!(started.elapsed() >= std::time::Duration::from_secs(10));
}

#[test]
fn backend_deadline_is_ten_seconds() {
    assert_eq!(pglite::query_handler::BACKEND_RESPONSE_TIMEOUT_SECS, 10);
}

#[test]
fn receive_outcomes_classify_exactly() {
    let resp = PgLiteDBResponse { result_schema: None, result: None, error: None };
    assert!(classify_recv_outcome(RecvOutcome::Received(resp)).is_ok());
    assert_eq!(
        classify_recv_outcome(RecvOutcome::TimedOut).unwrap_err(),
        PgError::BackendTimeout
    );
    assert_eq!(
        classify_recv_outcome(RecvOutcome::Disconnected).unwrap_err(),
        PgError::BackendDisconnected
    );
}

#[test]
fn worker_responses_classify_exactly() {
    let field = Field { ordinal: 0, name: "id".to_string(), field_type: StorageClass::Integer };
    let record = Record { values: vec![SqlValue::Integer(7)] };

    // An error surfaces verbatim, even beside rows.
    let resp = PgLiteDBResponse {
        result_schema: None,
        result: None,
        error: Some(PgError::Engine { message: "boom".to_string() }),
    };
    assert_eq!(
        PgQueryProcessor::accept_rows(resp).unwrap_err(),
        PgError::Engine { message: "boom".to_string() }
    );

    // Rows under a schema pass through unchanged.
    let resp = PgLiteDBResponse {
        result_schema: Some(vec![field.clone()]),
        result: Some(vec![record.clone()]),
        error: None,
    };
    let out = PgQueryProcessor::accept_rows(resp).unwrap();
    assert_eq!(out.result_schema, Some(vec![field.clone()]));
    assert_eq!(out.result, Some(vec![record]));
    assert!(out.error.is_none());

    // A schema alone is no row answer.
    let resp = PgLiteDBResponse {
        result_schema: Some(vec![field.clone()]),
        result: None,
        error: None,
    };
    assert_eq!(PgQueryProcessor::accept_rows(resp).unwrap_err(), PgError::UnexpectedFailure);

    // Describe classification: a schema yields it, none is the fatal
    // schema-unavailable error, and an error surfaces verbatim.
    let resp = PgLiteDBResponse {
        result_schema: Some(vec![field.clone()]),
        result: None,
        error: None,
    };
    assert_eq!(PgQueryProcessor::accept_schema(resp).unwrap(), vec![field]);
    let resp = PgLiteDBResponse { result_schema: None, result: None, error: None };
    assert_eq!(PgQueryProcessor::accept_schema(resp).unwrap_err(), PgError::SchemaUnavailable);
    let resp = PgLiteDBResponse {
        result_schema: None,
        result: None,
        error: Some(PgError::BackendTimeout),
    };
    assert_eq!(PgQueryProcessor::accept_schema(resp).unwrap_err(), PgError::BackendTimeout);
}

#[test]
fn mismatched_record_width_is_rejected_and_matching_widths_succeed() {
    let fields = vec![
        Field { ordinal: 0, name: "a".to_string(), field_type: StorageClass::Integer },
        Field { ordinal: 1, name: "b".to_string(), field_type: StorageClass::Text },
    ];
    let narrow = Record { values: vec![SqlValue::Integer(1)] };
    let resp = PgLiteDBResponse {
        result_schema: Some(fields.clone()),
        result: Some(vec![narrow]),
        error: None,
    };
    assert_eq!(
        translate_dbresponse_to_pgwire(resp).unwrap_err(),
        PgError::UnexpectedFailure
    );
    let wide = Record { values: vec![SqlValue::Integer(1), SqlValue::Text("x".to_string())] };
    let resp = PgLiteDBResponse {
        result_schema: Some(fields),
        result: Some(vec![wide]),
        error: None,
    };
    assert!(translate_dbresponse_to_pgwire(resp).is_ok());
}
