//! Tests of the submission pipeline, the content-type policy, the
//! middleware rewriting, the sync-progress computation and the root
//! response.

use blockfrost_platform::api_root::health_check_delay_secs;
use blockfrost_platform::api_root::root_response;
use blockfrost_platform::common::validate_content_type;
use blockfrost_platform::config::resolve_config;
use blockfrost_platform::config::Config;
use blockfrost_platform::config::ConfigError;
use blockfrost_platform::config::ConfigInput;
use blockfrost_platform::config::LogLevel;
use blockfrost_platform::config::ServerInput;
use blockfrost_platform::json::JsonValue;
use blockfrost_platform::middlewares::normalize_response;
use blockfrost_platform::middlewares::request_metric_labels;
use blockfrost_platform::sync_progress::compute_sync_progress;
use blockfrost_platform::sync_progress::days_to_jan1;
use blockfrost_platform::sync_progress::ChainPoint;
use blockfrost_platform::sync_progress::SystemStart;
use blockfrost_platform::transactions::decide_rejection;
use blockfrost_platform::transactions::prepare_transaction;
use blockfrost_platform::transactions::reply_from_fallback;
use blockfrost_platform::transactions::transport_error_response;
use blockfrost_platform::transactions::RejectionDecision;
use blockfrost_platform::transactions::SubmitReply;
use blockfrost_platform::transactions::tx_id_hex;

#[test]
fn content_type_must_be_cbor() {
    let allowed = vec!["application/cbor".to_string()];
    let cbor = "application/cbor".to_string();
    assert_eq!(validate_content_type(Some(&cbor), &allowed), Ok(true));

    let json_type = "application/json".to_string();
    let wrong = validate_content_type(Some(&json_type), &allowed).unwrap_err();
    assert_eq!(wrong.status_code, 400);
    assert_eq!(wrong.message, "Content-Type must be: \"application/cbor\"");

    let missing = validate_content_type(None, &allowed).unwrap_err();
    assert_eq!(missing.status_code, 400);
    assert_eq!(missing.message, "Content-Type must be: \"application/cbor\"");
}

#[test]
fn submission_rejects_bad_hex_with_400() {
    let odd = prepare_transaction("abc").unwrap_err();
    assert_eq!(odd.status_code, 400);
    assert_eq!(odd.message, "Odd number of digits");

    let invalid = prepare_transaction("zz").unwrap_err();
    assert_eq!(invalid.status_code, 400);
    assert_eq!(invalid.error, "Bad Request");
    assert_eq!(invalid.message, "Invalid character at position 0");
}

#[test]
fn transaction_id_is_the_blake2b_digest() {
    // Blake2b-256 of the empty string, a published test vector.
    let (tx, id) = prepare_transaction("").unwrap();
    assert!(tx.is_empty());
    assert_eq!(
        id,
        "0e5751c026e543b2e8ab2eb06099daa1d1e5df47778f7787faab45cdf12fe3a8"
    );
    // The id is a function of the bytes alone: two computations agree.
    let body = vec![0x84u8, 0xa4, 0x00];
    assert_eq!(tx_id_hex(&body), tx_id_hex(&body));
    assert_eq!(tx_id_hex(&body).len(), 64);
    assert_ne!(tx_id_hex(&body), hex::encode(&body));
}

#[test]
fn rejection_decisions_split_native_and_fallback() {
    let native = hex::decode("8202818206828201820083051a000151351a00074b8582076162").unwrap();
    match decide_rejection(&native) {
        RejectionDecision::Respond(_) => {}
        RejectionDecision::NeedsFallback => panic!("expected a native response"),
    }
    let foreign = hex::decode("8182068182028200a0").unwrap();
    match decide_rejection(&foreign) {
        RejectionDecision::NeedsFallback => {}
        RejectionDecision::Respond(_) => panic!("expected the fallback path"),
    }
    // The same treasury mismatch without its wire framing is outside the
    // grammar and goes to the child.
    let unframed = hex::decode("8182068183051a000c275b1a000b35ec").unwrap();
    match decide_rejection(&unframed) {
        RejectionDecision::NeedsFallback => {}
        RejectionDecision::Respond(_) => panic!("expected the fallback path"),
    }
    // Framed, it decodes natively and renders the reference string.
    let treasury = hex::decode("82028182068183051a000c275b1a000b35ec").unwrap();
    match decide_rejection(&treasury) {
        RejectionDecision::Respond(envelope) => {
            let json = blockfrost_platform::json::json_to_string(&envelope);
            assert!(json.contains("ConwayTreasuryValueMismatch (Coin 796507) (Coin 734700)"));
        }
        RejectionDecision::NeedsFallback => panic!("expected a native response"),
    }
}

#[test]
fn fallback_replies_keep_json_and_name_terminal_failures() {
    match reply_from_fallback(Ok(JsonValue::Null)) {
        SubmitReply::RejectedJson { body } => assert_eq!(body, JsonValue::Null),
        _ => panic!("expected the JSON body"),
    }
    match reply_from_fallback(Err("repeated internal failure".to_string())) {
        SubmitReply::RejectedMessage { error } => {
            assert_eq!(error.status_code, 400);
            assert_eq!(
                error.message,
                "Failed to decode error reason: repeated internal failure"
            );
        }
        _ => panic!("expected the message"),
    }
    let transport = transport_error_response("broken pipe");
    assert_eq!(transport.status_code, 400);
    assert_eq!(
        transport.message,
        "Error during transaction submission: broken pipe"
    );
}

#[test]
fn middleware_rewrites_statuses() {
    let timeout = normalize_response(504).unwrap();
    assert_eq!(timeout.status_code, 500);
    assert_eq!(
        timeout.message,
        "An unexpected response was received from the backend."
    );

    let not_allowed = normalize_response(405).unwrap();
    assert_eq!(not_allowed.status_code, 400);
    assert_eq!(
        not_allowed.message,
        "Invalid path. Please check https://docs.blockfrost.io/"
    );

    let internal = normalize_response(500).unwrap();
    assert_eq!(internal.status_code, 500);

    assert!(normalize_response(200).is_none());
    assert!(normalize_response(400).is_none());

    let labels = request_metric_labels(
        "POST".to_string(),
        Some("/tx/submit".to_string()),
        "/tx/submit/".to_string(),
        400,
    );
    assert_eq!(labels, ("POST".to_string(), "/tx/submit".to_string(), "400".to_string()));
}

#[test]
fn sync_progress_is_exactly_one_within_tolerance() {
    let start = SystemStart {
        year: 2022,
        day_of_year: 298,
        picoseconds_of_day: 0,
    };
    // Preview network, slot exactly at the wall clock.
    let slot = 1000u64;
    let slot_time_ns = (1666656000 + 1000) * 1_000_000_000i128;
    let point = ChainPoint::Specific(slot, vec![0xde, 0xad]);
    let p = compute_sync_progress(6, 10, &vec![2], start, &point, slot_time_ns + 30_000_000_000)
        .unwrap();
    assert_eq!(p.percentage_num, 1);
    assert_eq!(p.percentage_den, 1);
    assert_eq!(p.slot, 1000);
    assert_eq!(p.block, "dead");
    assert_eq!(p.era, 6);
    assert_eq!(p.epoch, 10);
}

#[test]
fn sync_progress_origin_yields_empty_block() {
    let start = SystemStart {
        year: 2022,
        day_of_year: 298,
        picoseconds_of_day: 0,
    };
    let now_ns = 1_700_000_000i128 * 1_000_000_000;
    let p = compute_sync_progress(6, 0, &vec![2], start, &ChainPoint::Origin, now_ns).unwrap();
    assert_eq!(p.block, "");
    assert_eq!(p.slot, 0);
    // The origin sits far behind the wall clock, so the ratio is not one.
    assert!(p.percentage_num < p.percentage_den);
}

#[test]
fn sync_progress_names_its_failures() {
    let start = SystemStart {
        year: 2022,
        day_of_year: 1,
        picoseconds_of_day: 0,
    };
    let none = compute_sync_progress(6, 0, &vec![], start, &ChainPoint::Origin, 0).unwrap_err();
    assert_eq!(none.status_code, 500);
    assert_eq!(none.message, "Expected at least one genesis");

    let unknown = compute_sync_progress(6, 0, &vec![42], start, &ChainPoint::Origin, 0).unwrap_err();
    assert_eq!(unknown.status_code, 500);
    assert_eq!(
        unknown.message,
        "Only well-known networks are supported (unsupported network magic: 42)"
    );
}

#[test]
fn epoch_day_arithmetic_matches_the_calendar() {
    assert_eq!(days_to_jan1(1970), 0);
    assert_eq!(days_to_jan1(1971), 365);
    assert_eq!(days_to_jan1(1973), 365 + 366 + 365);
    assert_eq!(days_to_jan1(2000), 10957);
    assert_eq!(days_to_jan1(2020), 18262);
    assert_eq!(days_to_jan1(2023), 19358);
}

#[test]
fn root_response_names_the_service() {
    let start = SystemStart {
        year: 2022,
        day_of_year: 298,
        picoseconds_of_day: 0,
    };
    let slot_time_ns = 1666656000i128 * 1_000_000_000;
    let p = compute_sync_progress(6, 0, &vec![2], start, &ChainPoint::Origin, slot_time_ns)
        .unwrap();
    let r = root_response("1.0.0".to_string(), p, vec![]);
    assert_eq!(r.name, "blockfrost-platform");
    assert_eq!(r.version, "1.0.0");
    assert!(r.healthy);
    assert!(r.errors.is_empty());
    assert_eq!(r.node_info.percentage_num, 1);
    assert_eq!(r.node_info.percentage_den, 1);

    let p2 = compute_sync_progress(6, 0, &vec![2], start, &ChainPoint::Origin, slot_time_ns)
        .unwrap();
    let sick = root_response("1.0.0".to_string(), p2, vec!["node down".to_string()]);
    assert!(!sick.healthy);

    assert_eq!(health_check_delay_secs(true), 10);
    assert_eq!(health_check_delay_secs(false), 2);
}

#[test]
fn config_resolution_maps_networks_and_levels() {
    let input = ConfigInput {
        server: ServerInput {
            address: "0.0.0.0:3000".to_string(),
            log_level: "warn".to_string(),
            network: "preview".to_string(),
            relay: "relay.example:3001".to_string(),
        },
    };
    let config: Config = resolve_config(input).unwrap();
    assert_eq!(config.server.network_magic, 2);
    assert_eq!(config.server.log_level, LogLevel::Warn);
    assert_eq!(config.server.address, "0.0.0.0:3000");

    let bad = ConfigInput {
        server: ServerInput {
            address: "0.0.0.0:3000".to_string(),
            log_level: "info".to_string(),
            network: "devnet".to_string(),
            relay: String::new(),
        },
    };
    match resolve_config(bad) {
        Err(ConfigError::InvalidConfig(m)) => assert_eq!(m, "Invalid network"),
        _ => panic!("expected the invalid-network error"),
    }
}
