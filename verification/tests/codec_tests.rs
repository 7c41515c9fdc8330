//! Tests of the hex codec, the native rejection-reason decoder, the
//! constructor-string rendering and the JSON writer.

use blockfrost_platform::connection::NodeClient;
use blockfrost_platform::hex::hex_decode;
use blockfrost_platform::hex::hex_encode;
use blockfrost_platform::hex::HexError;
use blockfrost_platform::json::json_to_string;
use blockfrost_platform::json::JsonValue;
use blockfrost_platform::reject::ApplyConwayTxPredError;
use blockfrost_platform::reject::ApplyTxErr;
use blockfrost_platform::reject::ConwayUtxoPredFailure;
use blockfrost_platform::reject::ConwayUtxoWPredFailure;
use blockfrost_platform::reject::DisplayValue;
use blockfrost_platform::reject::ShelleyBasedEra;
use blockfrost_platform::reject::TxValidationError;
use blockfrost_platform::reject::ValidityInterval;
use blockfrost_platform::render::u64_to_dec;
use blockfrost_platform::submit_api::tx_submit_fail_to_json;

#[test]
fn test_try_decode_error() {
    assert_decoding(
        "8202818206828201820083061b00000002362a77301b0000000253b9c11d8201820083051a00028bfd18ad",
        2,
    );
    assert_decoding("8202818206828201820083051a000151351a00074b8582076162", 2);
}

fn assert_decoding(cbor_hex: &str, error_count: usize) {
    let buffer = hex::decode(cbor_hex).unwrap();

    let error = NodeClient::try_decode_error(&buffer);

    match error {
        Ok(TxValidationError::ShelleyTxValidationError {
            error: ApplyTxErr(errors),
            era,
        }) => {
            assert!(
                era == ShelleyBasedEra::ShelleyBasedEraConway,
                "Expected ShelleyBasedEraConway"
            );
            assert_eq!(errors.len(), error_count, "Errors count mismatch",);
        }
        Err(error) => panic!("Failed to decode cbor: {:?}, error: {:?}", cbor_hex, error),
        _ => panic!("Expected ShelleyTxValidationError"),
    }
}

#[test]
fn test_generate_error_response_with_multiple_errors() {
    let validation_error = TxValidationError::ShelleyTxValidationError {
        error: ApplyTxErr(vec![
            ApplyConwayTxPredError::MempoolFailure("error1".to_string()),
            ApplyConwayTxPredError::MempoolFailure("error2".to_string()),
        ]),
        era: ShelleyBasedEra::ShelleyBasedEraConway,
    };

    let error_string = json_to_string(&tx_submit_fail_to_json(
        &NodeClient::_unused_i_i_i_i_i_i_i_generate_error_response(validation_error),
    ));
    let expected_error_string = "{\"tag\":\"TxSubmitFail\",\"contents\":{\"tag\":\"TxCmdTxSubmitValidationError\",\"contents\":{\"tag\":\"TxValidationErrorInCardanoMode\",\"contents\":{\"kind\":\"ShelleyTxValidationError\",\"error\":[\"ConwayMempoolFailure \\\"error1\\\"\",\"ConwayMempoolFailure \\\"error2\\\"\"],\"era\":\"ShelleyBasedEraConway\"}}}}";

    assert_eq!(error_string, expected_error_string);
}

#[test]
fn hex_round_trip_and_agreement_with_reference() {
    let bytes: Vec<u8> = vec![0x00, 0x01, 0xab, 0xcd, 0xef, 0xff];
    let ours = hex_encode(&bytes);
    assert_eq!(ours, hex::encode(&bytes));
    assert_eq!(hex_decode(&ours).unwrap(), bytes);
    assert_eq!(hex_decode("ABCDEF").unwrap(), vec![0xab, 0xcd, 0xef]);
}

#[test]
fn hex_odd_length_is_refused() {
    assert_eq!(hex_decode("abc"), Err(HexError::OddLength));
    assert!(matches!(
        hex_decode("zz"),
        Err(HexError::InvalidChar { .. })
    ));
    assert_eq!(hex_decode(""), Ok(vec![]));
}

#[test]
fn decimal_rendering_is_exact() {
    assert_eq!(u64_to_dec(0), "0");
    assert_eq!(u64_to_dec(7), "7");
    assert_eq!(u64_to_dec(796507), "796507");
    assert_eq!(u64_to_dec(u64::MAX), "18446744073709551615");
}

#[test]
fn native_decode_details_of_two_error_vector() {
    let buffer = hex::decode(
        "8202818206828201820083061b00000002362a77301b0000000253b9c11d8201820083051a00028bfd18ad",
    )
    .unwrap();
    let decoded = NodeClient::try_decode_error(&buffer).unwrap();
    let expected = TxValidationError::ShelleyTxValidationError {
        error: ApplyTxErr(vec![
            ApplyConwayTxPredError::UtxowFailure(ConwayUtxoWPredFailure::UtxoFailure(
                ConwayUtxoPredFailure::ValueNotConservedUTxO(
                    DisplayValue { coin: 9498687280 },
                    DisplayValue { coin: 9994617117 },
                ),
            )),
            ApplyConwayTxPredError::UtxowFailure(ConwayUtxoWPredFailure::UtxoFailure(
                ConwayUtxoPredFailure::FeeTooSmallUTxO(166909, 173),
            )),
        ]),
        era: ShelleyBasedEra::ShelleyBasedEraConway,
    };
    assert_eq!(decoded, expected);
}

#[test]
fn native_decode_rejects_unknown_tags() {
    // A transaction-level tag outside the ledger's list surfaces as a
    // decode error, never a silent mapping.
    let buffer = hex::decode("8202818206818218ff00").unwrap();
    assert!(NodeClient::try_decode_error(&buffer).is_err());
    // The fallback-only sanity vector has no outer wrapper, so the
    // native decoder refuses it too.
    let sanity = hex::decode("8182068182028200a0").unwrap();
    assert!(NodeClient::try_decode_error(&sanity).is_err());
}

#[test]
fn renders_follow_the_reference_strings() {
    let fee = ConwayUtxoPredFailure::FeeTooSmallUTxO(86325, 477061);
    assert_eq!(fee.render(), "FeeTooSmallUTxO (Coin 86325) (Coin 477061)");
    let nested = ApplyConwayTxPredError::UtxowFailure(ConwayUtxoWPredFailure::UtxoFailure(
        ConwayUtxoPredFailure::ValueNotConservedUTxO(
            DisplayValue { coin: 9498687280 },
            DisplayValue { coin: 9994617117 },
        ),
    ));
    assert_eq!(
        nested.render(),
        "ConwayUtxowFailure (UtxoFailure (ValueNotConservedUTxO (MaryValue (Coin 9498687280) (MultiAsset (fromList []))) (MaryValue (Coin 9994617117) (MultiAsset (fromList [])))))"
    );
    let vi = ValidityInterval {
        invalid_before: Some(5),
        invalid_hereafter: None,
    };
    assert_eq!(
        vi.render(),
        "ValidityInterval {invalidBefore = SJust (SlotNo 5), invalidHereafter = SNothing}"
    );
}

#[test]
fn json_writer_renders_documents_exactly() {
    let doc = JsonValue::Object(vec![
        ("tag".to_string(), JsonValue::Str("TxSubmitFail".to_string())),
        (
            "contents".to_string(),
            JsonValue::Array(vec![
                JsonValue::Null,
                JsonValue::Bool(true),
                JsonValue::Number("42".to_string()),
            ]),
        ),
    ]);
    assert_eq!(
        json_to_string(&doc),
        "{\"tag\":\"TxSubmitFail\",\"contents\":[null,true,42]}"
    );
    let escaped = JsonValue::Str("a\"b\\c\nd".to_string());
    assert_eq!(json_to_string(&escaped), "\"a\\\"b\\\\c\\nd\"");
}

#[test]
fn native_decode_of_bad_inputs() {
    // [2, [[6, [[1, [0, [1, [[id, 0]]]]]]]]] with a 32-byte zero id.
    let mut hexstr = String::from("82028182068182018200820181825820");
    hexstr.push_str(&"00".repeat(32));
    hexstr.push_str("00");
    let buffer = hex::decode(&hexstr).unwrap();
    let decoded = NodeClient::try_decode_error(&buffer).unwrap();
    match &decoded {
        TxValidationError::ShelleyTxValidationError {
            error: ApplyTxErr(errors),
            era,
        } => {
            assert_eq!(*era, ShelleyBasedEra::ShelleyBasedEraConway);
            assert_eq!(errors.len(), 1);
            let rendered = errors[0].render();
            assert!(rendered.starts_with("ConwayUtxowFailure (UtxoFailure (BadInputsUTxO (TxIn { id: 0000"));
            assert!(rendered.ends_with("index: 0 })))"));
        }
        _ => panic!("expected a Shelley-based validation error"),
    }
}

#[test]
fn native_decode_of_metadata_and_validity_failures() {
    // [2, [[6, [[1, [7, h'aa', h'bb']]]]]]
    let buffer = hex::decode("8202818206818201830741aa41bb").unwrap();
    match NodeClient::try_decode_error(&buffer).unwrap() {
        TxValidationError::ShelleyTxValidationError {
            error: ApplyTxErr(errors),
            ..
        } => {
            assert_eq!(errors.len(), 1);
            assert_eq!(
                errors[0].render(),
                "ConwayUtxowFailure (ConflictingMetadataHash (aa) (bb))"
            );
        }
        _ => panic!("expected a Shelley-based validation error"),
    }

    // [2, [[6, [[1, [0, [2, [null, 1000], 2500]]]]]]]
    let buffer = hex::decode("82028182068182018200830282f61903e81909c4").unwrap();
    match NodeClient::try_decode_error(&buffer).unwrap() {
        TxValidationError::ShelleyTxValidationError {
            error: ApplyTxErr(errors),
            ..
        } => {
            assert_eq!(errors.len(), 1);
            assert_eq!(
                errors[0].render(),
                "ConwayUtxowFailure (UtxoFailure (OutsideValidityIntervalUTxO (ValidityInterval {invalidBefore = SNothing, invalidHereafter = SJust (SlotNo 1000)}) (SlotNo 2500)))"
            );
        }
        _ => panic!("expected a Shelley-based validation error"),
    }
}

#[test]
fn native_decode_of_mempool_failure_text() {
    // [2, [[6, [[7, "hello"]]]]]
    let buffer = hex::decode("82028182068182076568656c6c6f").unwrap();
    match NodeClient::try_decode_error(&buffer).unwrap() {
        TxValidationError::ShelleyTxValidationError {
            error: ApplyTxErr(errors),
            ..
        } => {
            assert_eq!(errors.len(), 1);
            assert_eq!(
                errors[0],
                ApplyConwayTxPredError::MempoolFailure("hello".to_string())
            );
            assert_eq!(errors[0].render(), "ConwayMempoolFailure \"hello\"");
        }
        _ => panic!("expected a Shelley-based validation error"),
    }
}

#[test]
fn native_decode_of_output_failures() {
    // [2, [[6, [[1, [0, [9, [[h'aa', 100]]]]]]]]]
    let buffer = hex::decode("820281820681820182008209818241aa1864").unwrap();
    match NodeClient::try_decode_error(&buffer).unwrap() {
        TxValidationError::ShelleyTxValidationError {
            error: ApplyTxErr(errors),
            ..
        } => {
            assert_eq!(errors.len(), 1);
            assert_eq!(
                errors[0].render(),
                "ConwayUtxowFailure (UtxoFailure (OutputTooSmallUTxO (TxOut { address: aa, coin: 100 })))"
            );
        }
        _ => panic!("expected a Shelley-based validation error"),
    }

    // [2, [[6, [[1, [0, [13, [[[h'bb', 0], [h'cc', 10]]]]]]]]]]
    let buffer = hex::decode("82028182068182018200820d81828241bb008241cc0a").unwrap();
    match NodeClient::try_decode_error(&buffer).unwrap() {
        TxValidationError::ShelleyTxValidationError {
            error: ApplyTxErr(errors),
            ..
        } => {
            assert_eq!(errors.len(), 1);
            assert_eq!(
                errors[0].render(),
                "ConwayUtxowFailure (UtxoFailure (ScriptsNotPaidUTxO (Utxo((TxIn { id: bb, index: 0 } TxOut { address: cc, coin: 10 })))))"
            );
        }
        _ => panic!("expected a Shelley-based validation error"),
    }
}

#[test]
fn hex_errors_name_the_first_offending_position() {
    match hex_decode("abzz") {
        Err(e @ HexError::InvalidChar { index: 2 }) => {
            assert_eq!(e.message(), "Invalid character at position 2");
        }
        other => panic!("expected the invalid character at two, got {:?}", other),
    }
    assert_eq!(
        HexError::OddLength.message(),
        "Odd number of digits"
    );
}
