//! Tests of the fallback supervisor's decision machine, the child-line
//! classification, the startup sanity fixtures, the pool accounting and
//! the state-query session.

use blockfrost_platform::connection::StateQuerySession;
use blockfrost_platform::errors::AppError;
use blockfrost_platform::errors::BlockfrostError;
use blockfrost_platform::fallback_decoder::classify_child_line;
use blockfrost_platform::fallback_decoder::startup_sanity_expected;
use blockfrost_platform::fallback_decoder::startup_sanity_input;
use blockfrost_platform::fallback_decoder::ChildLine;
use blockfrost_platform::fallback_decoder::ChildOutcome;
use blockfrost_platform::fallback_decoder::FallbackDecoder;
use blockfrost_platform::fallback_decoder::FallbackRequest;
use blockfrost_platform::json::JsonValue;
use blockfrost_platform::node_pool::PoolEntry;
use blockfrost_platform::node_pool::PoolGauge;

#[test]
fn supervisor_serves_fresh_requests_and_retries_once() {
    let mut sup = FallbackDecoder::new();
    assert!(!sup.has_pending());

    // A fresh request is served and answered: one reply, no restart.
    let (line, is_retry) = sup
        .begin_round(Some(FallbackRequest {
            cbor: vec![0x81, 0x82],
            reply_to: 1,
        }))
        .unwrap();
    assert_eq!(line, "8182");
    assert!(!is_retry);
    let (reply, restart) = sup.commit_round(
        is_retry,
        ChildOutcome::Answer(ChildLine::Decoded(JsonValue::Null)),
    );
    let reply = reply.unwrap();
    assert_eq!(reply.reply_to, 1);
    assert_eq!(reply.outcome, Ok(JsonValue::Null));
    assert!(!restart);
    assert!(!sup.has_pending());

    // A child failure keeps the request for exactly one retry.
    let (_line, is_retry) = sup
        .begin_round(Some(FallbackRequest {
            cbor: vec![0x83],
            reply_to: 2,
        }))
        .unwrap();
    assert!(!is_retry);
    let (reply, restart) = sup.commit_round(is_retry, ChildOutcome::Failure);
    assert!(reply.is_none());
    assert!(restart);
    assert!(sup.has_pending());

    // The retry preempts the queue; a second failure surfaces the
    // terminal error so callers never wait forever.
    let (line, is_retry) = sup.begin_round(None).unwrap();
    assert_eq!(line, "83");
    assert!(is_retry);
    let (reply, restart) = sup.commit_round(is_retry, ChildOutcome::Failure);
    let reply = reply.unwrap();
    assert_eq!(reply.reply_to, 2);
    assert_eq!(reply.outcome, Err("repeated internal failure".to_string()));
    assert!(restart);
    assert!(!sup.has_pending());
}

#[test]
fn supervisor_retry_succeeds_on_a_fresh_child() {
    let mut sup = FallbackDecoder::new();
    let (_line, first) = sup
        .begin_round(Some(FallbackRequest {
            cbor: vec![0x00],
            reply_to: 7,
        }))
        .unwrap();
    let (reply, restart) = sup.commit_round(first, ChildOutcome::Failure);
    assert!(reply.is_none());
    assert!(restart);

    let (_line, retry) = sup.begin_round(None).unwrap();
    assert!(retry);
    let (reply, restart) = sup.commit_round(
        retry,
        ChildOutcome::Answer(ChildLine::DecodeFailed("bad cbor".to_string())),
    );
    let reply = reply.unwrap();
    assert_eq!(reply.reply_to, 7);
    assert_eq!(reply.outcome, Err("bad cbor".to_string()));
    assert!(!restart);
    assert!(!sup.has_pending());
}

#[test]
fn child_lines_are_classified_by_shape() {
    let error_line = JsonValue::Object(vec![(
        "error".to_string(),
        JsonValue::Str("unknown tag".to_string()),
    )]);
    match classify_child_line(error_line) {
        ChildLine::DecodeFailed(m) => assert_eq!(m, "unknown tag"),
        _ => panic!("expected a decode failure"),
    }

    let json_line = JsonValue::Object(vec![(
        "json".to_string(),
        JsonValue::Object(vec![("tag".to_string(), JsonValue::Str("TxSubmitFail".to_string()))]),
    )]);
    match classify_child_line(json_line) {
        ChildLine::Decoded(JsonValue::Object(fields)) => {
            assert_eq!(fields[0].0, "tag");
        }
        _ => panic!("expected the decoded document"),
    }

    let other = JsonValue::Object(vec![("status".to_string(), JsonValue::Null)]);
    assert!(matches!(classify_child_line(other), ChildLine::Protocol));
    assert!(matches!(
        classify_child_line(JsonValue::Str("hello".to_string())),
        ChildLine::Protocol
    ));
}

#[test]
fn startup_sanity_fixtures_are_consistent() {
    assert_eq!(
        startup_sanity_input(),
        hex::decode("8182068182028200a0").unwrap()
    );
    let expected = startup_sanity_expected();
    let parsed: serde_json::Value = serde_json::from_str(&expected).unwrap();
    assert_eq!(parsed["tag"], serde_json::Value::String("TxSubmitFail".to_string()));
    assert_eq!(
        parsed["contents"]["contents"]["contents"]["era"],
        serde_json::Value::String("ShelleyBasedEraConway".to_string())
    );
}

#[test]
fn pool_gauge_moves_once_per_connection() {
    let mut g = PoolGauge::new();
    assert_eq!(g.gauge, 0);
    g.on_create();
    g.on_create();
    assert_eq!(g.gauge, 2);
    g.on_evict();
    assert_eq!(g.gauge, 1);
    g.on_evict();
    assert_eq!(g.gauge, 0);
}

#[test]
fn pool_entry_detaches_exactly_its_connection() {
    let entry = PoolEntry::new("connection".to_string());
    assert_eq!(entry.conn(), &"connection".to_string());
    let conn = entry.detach();
    assert_eq!(conn, "connection");
}

#[test]
fn state_query_session_alternates_acquire_and_release() {
    let mut s = StateQuerySession::new();
    assert!(!s.is_acquired());
    s.acquire();
    assert!(s.is_acquired());
    s.release();
    assert!(!s.is_acquired());
    s.acquire();
    assert!(s.is_acquired());
    s.release();
}

#[test]
fn error_documents_carry_their_statuses() {
    assert_eq!(BlockfrostError::not_found().status_code, 404);
    assert_eq!(
        BlockfrostError::not_found().message,
        "The requested component has not been found."
    );
    assert_eq!(BlockfrostError::custom_400("nope".to_string()).status_code, 400);
    assert_eq!(BlockfrostError::internal_server_error("x".to_string()).status_code, 500);
    assert_eq!(
        BlockfrostError::internal_server_error_user().message,
        "An unexpected response was received from the backend."
    );
    assert_eq!(BlockfrostError::method_not_allowed().status_code, 400);
    assert_eq!(
        BlockfrostError::method_not_allowed()
            .to_message_string(),
        "BlockfrostError: Invalid path. Please check https://docs.blockfrost.io/"
    );
    let app = AppError::Node("socket closed".to_string());
    let doc = app.to_blockfrost_error();
    assert_eq!(doc.status_code, 500);
    assert_eq!(doc.message, "socket closed");
}
