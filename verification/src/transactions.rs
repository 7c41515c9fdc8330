//! The transaction submission pipeline: hex-decode, transaction id,
//! and the translation of each submission outcome into the response the
//! reference submission API gives.

use vstd::prelude::*;
use vstd::string::StringExecFns;

use crate::errors::BlockfrostError;
use crate::hex::hex_decode;
use crate::hex::hex_encode;
use crate::hex::all_hex;
use crate::hex::hex_decoded;
use crate::hex::hex_of;
use crate::hex::hex_val;
use crate::render::dec_of;
use crate::json::JsonV;
use crate::json::JsonValue;
use crate::reject::TxValidationError;
use crate::reject::TxValidationErrorV;
use crate::reject_decoder::sp_decode_rejection;
use crate::reject_decoder::try_decode_error;
use crate::submit_api::sp_error_strings;
use crate::submit_api::tx_submit_fail_to_json;
use crate::connection::NodeClient;
use crate::reject::ApplyConwayTxPredError;
use crate::reject::ConwayUtxoPredFailure;
use crate::reject::ConwayUtxoWPredFailure;
use crate::reject::PredErrorV;
use crate::reject::UtxoFailureV;
use crate::reject::UtxowFailureV;

verus! {

/// What the digest of pallas_crypto's Blake2b-256 hasher is, as a
/// function of the input bytes alone.
pub uninterp spec fn blake2b_256_of(bytes: Seq<u8>) -> Seq<u8>;

/// Relies on pallas_crypto's `Hasher::<256>::hash`: a Blake2b-256 digest
/// of the given bytes, 32 bytes long, depending on the bytes alone.
#[verifier::external_body]
fn blake2b_256(bytes: &Vec<u8>) -> (r: Vec<u8>)
    ensures
        r@ == blake2b_256_of(bytes@),
        r@.len() == 32,
{
    pallas_crypto::hash::Hasher::<256>::hash(bytes.as_slice()).as_ref().to_vec()
}

/// The transaction id of a transaction body: the lowercase hex of its
/// Blake2b-256 digest.
pub fn tx_id_hex(tx: &Vec<u8>) -> (r: String)
    ensures
        r@ == hex_of(blake2b_256_of(tx@)),
        r@.len() == 64,
{
    hex_encode(&blake2b_256(tx))
}

/// The decoded body and transaction id of a submission request.
/// Succeeds exactly on well-formed hex; a malformed body is answered
/// with a 400 carrying the hex decoder's account: the odd length, or the
/// first offending position.
pub fn prepare_transaction(tx_hex: &str) -> (r: Result<(Vec<u8>, String), BlockfrostError>)
    ensures
        r is Ok <==> tx_hex@.len() % 2 == 0 && all_hex(tx_hex@),
        r matches Ok((tx, id)) ==> tx@ == hex_decoded(tx_hex@) && id@ == hex_of(
            blake2b_256_of(hex_decoded(tx_hex@)),
        ),
        r matches Err(e) ==> {
            &&& e.status_code == 400
            &&& e.error@ == "Bad Request"@
            &&& (tx_hex@.len() % 2 != 0 ==> e.message@ == "Odd number of digits"@)
            &&& (tx_hex@.len() % 2 == 0 ==> exists|i: int|
                0 <= i < tx_hex@.len() && hex_val(#[trigger] tx_hex@[i]) is None && (forall|j: int|
                    0 <= j < i ==> hex_val(#[trigger] tx_hex@[j]) is Some) && e.message@
                    == "Invalid character at position "@ + dec_of(i))
        },
{
    match hex_decode(tx_hex) {
        Ok(tx) => {
            let id = tx_id_hex(&tx);
            Ok((tx, id))
        },
        Err(e) => Err(BlockfrostError::custom_400(e.message())),
    }
}

/// The JSON envelope of a natively decoded validation error, at the
/// view level.
pub open spec fn sp_rejection_envelope(tv: TxValidationErrorV) -> JsonV {
    JsonV::Object(
        seq![
            ("tag"@, JsonV::Str("TxSubmitFail"@)),
            (
                "contents"@,
                JsonV::Object(
                    seq![
                        ("tag"@, JsonV::Str("TxCmdTxSubmitValidationError"@)),
                        (
                            "contents"@,
                            JsonV::Object(
                                seq![
                                    ("tag"@, JsonV::Str("TxValidationErrorInCardanoMode"@)),
                                    ("contents"@, sp_validation_error_json_v(tv)),
                                ],
                            ),
                        ),
                    ],
                ),
            ),
        ],
    )
}

/// The JSON document of a validation error, at the view level.
pub open spec fn sp_validation_error_json_v(tv: TxValidationErrorV) -> JsonV {
    match tv {
        TxValidationErrorV::Byron { error } => JsonV::Object(
            seq![
                ("kind"@, JsonV::Str("ByronTxValidationError"@)),
                ("error"@, JsonV::Array(sp_error_strings(error))),
            ],
        ),
        TxValidationErrorV::Shelley { error, era } => JsonV::Object(
            seq![
                ("kind"@, JsonV::Str("ShelleyTxValidationError"@)),
                ("error"@, JsonV::Array(sp_error_strings(error))),
                ("era"@, JsonV::Str(era.spec_name())),
            ],
        ),
    }
}

/// What to do with a rejection reason: answer with the natively decoded
/// envelope, or hand the bytes to the fallback decoder.
pub enum RejectionDecision {
    Respond(JsonValue),
    NeedsFallback,
}

/// Text whose quoted rendering needs no escapes: the characters a
/// quoted string shows verbatim.
pub open spec fn sp_show_plain(s: Seq<char>) -> bool {
    forall|i: int|
        0 <= i < s.len() ==> 32 <= ((#[trigger] s[i]) as int) && (s[i] as int) < 127 && s[i] != '"'
            && s[i] != '\\'
}

/// The UTxO failures whose reference rendering is pinned: payloads of
/// coins, slots, counts and validity windows only.
pub open spec fn sp_exact_utxo(f: UtxoFailureV) -> bool {
    match f {
        UtxoFailureV::OutsideValidityIntervalUTxO(_vi, _s) => true,
        UtxoFailureV::InputSetEmptyUTxO => true,
        UtxoFailureV::FeeTooSmallUTxO(_a, _b) => true,
        UtxoFailureV::ValueNotConservedUTxO(_a, _b) => true,
        UtxoFailureV::OutsideForecast(_s) => true,
        UtxoFailureV::TooManyCollateralInputs(_n) => true,
        UtxoFailureV::NoCollateralInputs => true,
        UtxoFailureV::CollateralContainsNonADA(_v) => true,
        _ => false,
    }
}

/// The transaction-level failures whose reference rendering is pinned.
pub open spec fn sp_exact_pred(e: PredErrorV) -> bool {
    match e {
        PredErrorV::UtxowFailure(f) => match f {
            UtxowFailureV::UtxoFailure(x) => sp_exact_utxo(x),
            UtxowFailureV::InvalidMetadata => true,
            _ => false,
        },
        PredErrorV::TreasuryValueMismatch(_a, _b) => true,
        PredErrorV::MempoolFailure(s) => sp_show_plain(s),
        _ => false,
    }
}

/// Whether every failure of a decoded reason has a rendering pinned to
/// the reference server's output, so a native answer is bit-exact.
pub open spec fn sp_render_exact(tv: TxValidationErrorV) -> bool {
    match tv {
        TxValidationErrorV::Shelley { error, era: _ } => forall|i: int|
            0 <= i < error.len() ==> sp_exact_pred(#[trigger] error[i]),
        TxValidationErrorV::Byron { error: _ } => false,
    }
}

/// Whether a text renders verbatim inside quotes.
fn is_show_plain(s: &str) -> (r: bool)
    ensures
        r == sp_show_plain(s@),
{
    let n = vstd::string::StrSliceExecFns::unicode_len(s);
    let mut i: usize = 0;
    while i < n
        invariant
            n == s@.len(),
            i <= n,
            forall|k: int|
                0 <= k < i ==> 32 <= ((#[trigger] s@[k]) as int) && (s@[k] as int) < 127 && s@[k]
                    != '"' && s@[k] != '\\',
        decreases n - i,
    {
        let c = vstd::string::StrSliceExecFns::get_char(s, i);
        if !(c >= ' ' && (c as u32) < 127 && c != '"' && c != '\\') {
            return false;
        }
        i = i + 1;
    }
    true
}

/// Whether one failure's rendering is pinned to the reference output.
fn pred_exact(e: &ApplyConwayTxPredError) -> (r: bool)
    ensures
        r == sp_exact_pred(e@),
{
    match e {
        ApplyConwayTxPredError::UtxowFailure(f) => match f {
            ConwayUtxoWPredFailure::UtxoFailure(x) => match x {
                ConwayUtxoPredFailure::OutsideValidityIntervalUTxO(..) => true,
                ConwayUtxoPredFailure::InputSetEmptyUTxO() => true,
                ConwayUtxoPredFailure::FeeTooSmallUTxO(..) => true,
                ConwayUtxoPredFailure::ValueNotConservedUTxO(..) => true,
                ConwayUtxoPredFailure::OutsideForecast(..) => true,
                ConwayUtxoPredFailure::TooManyCollateralInputs(..) => true,
                ConwayUtxoPredFailure::NoCollateralInputs() => true,
                ConwayUtxoPredFailure::CollateralContainsNonADA(..) => true,
                _ => false,
            },
            ConwayUtxoWPredFailure::InvalidMetadata() => true,
            _ => false,
        },
        ApplyConwayTxPredError::TreasuryValueMismatch(..) => true,
        ApplyConwayTxPredError::MempoolFailure(m) => is_show_plain(m.as_str()),
        _ => false,
    }
}

/// Whether every failure of a decoded reason renders reference-exactly.
#[verifier::loop_isolation(false)]
fn render_exact(t: &TxValidationError) -> (r: bool)
    ensures
        r == sp_render_exact(t@),
{
    match t {
        TxValidationError::ByronTxValidationError { .. } => false,
        TxValidationError::ShelleyTxValidationError { error, era: _era } => {
            let mut i: usize = 0;
            while i < error.0.len()
                invariant
                    i <= error.0.len(),
                    forall|k: int| 0 <= k < i ==> sp_exact_pred(#[trigger] error@[k]),
                decreases error.0.len() - i,
            {
                if !pred_exact(&error.0[i]) {
                    proof {
                        assert(error@.len() == error.0@.len());
                        assert(error@[i as int] == error.0@[i as int]@);
                        assert(!sp_exact_pred(error@[i as int]));
                        match t@ {
                            TxValidationErrorV::Shelley { error: ev, era: _ } => {
                                assert(ev == error@);
                                assert(!sp_exact_pred(ev[i as int]));
                            },
                            TxValidationErrorV::Byron { .. } => {},
                        }
                        assert(!sp_render_exact(t@));
                    }
                    return false;
                }
                proof {
                    assert(error@[i as int] == error.0@[i as int]@);
                }
                i = i + 1;
            }
            true
        },
    }
}

/// Tries the native decoder on a rejection reason and answers natively
/// exactly when the decode succeeds and every failure's rendering is
/// pinned to the reference server's output; anything else is left to
/// the fallback decoder, whose output is reference-exact.
pub fn decide_rejection(reason: &Vec<u8>) -> (r: RejectionDecision)
    requires
        reason@.len() < usize::MAX,
    ensures
        r is NeedsFallback <==> (sp_decode_rejection(reason@) is None || !sp_render_exact(
            sp_decode_rejection(reason@).unwrap(),
        )),
        r matches RejectionDecision::Respond(j) ==> sp_decode_rejection(reason@) matches Some(tv)
            && sp_render_exact(tv) && j@ == sp_rejection_envelope(tv),
{
    match try_decode_error(reason) {
        Ok(t) => {
            if !render_exact(&t) {
                return RejectionDecision::NeedsFallback;
            }
            let envelope = NodeClient::_unused_i_i_i_i_i_i_i_generate_error_response(t);
            let j = tx_submit_fail_to_json(&envelope);
            proof {
                let tv = sp_decode_rejection(reason@).unwrap();
                assert(sp_validation_error_json_v(tv) == crate::submit_api::sp_validation_error_json(
                    match envelope {
                        crate::submit_api::TxSubmitFail::TxSubmitFail(
                            crate::submit_api::TxCmdError::TxCmdTxSubmitValidationError(
                                crate::submit_api::TxValidationErrorInCardanoMode::TxValidationErrorInCardanoMode(
                                    e,
                                ),
                            ),
                        ) => &e,
                        _ => arbitrary(),
                    },
                ));
            }
            RejectionDecision::Respond(j)
        },
        Err(_e) => RejectionDecision::NeedsFallback,
    }
}

/// The response for a rejection the fallback decoder handled: the
/// fallback's JSON verbatim under a 400, or, when the fallback itself
/// failed, a 400 naming the failure.
pub enum SubmitReply {
    Accepted { tx_id: String },
    RejectedJson { body: JsonValue },
    RejectedMessage { error: BlockfrostError },
}

/// Builds the reply for a fallback decoding outcome.
pub fn reply_from_fallback(outcome: Result<JsonValue, String>) -> (r: SubmitReply)
    ensures
        outcome matches Ok(j) ==> r matches SubmitReply::RejectedJson { body } && body == j,
        outcome matches Err(m) ==> r matches SubmitReply::RejectedMessage { error } && error.status_code
            == 400 && error.error@ == "Bad Request"@ && error.message@
            == "Failed to decode error reason: "@ + m@,
{
    match outcome {
        Ok(j) => SubmitReply::RejectedJson { body: j },
        Err(m) => {
            let mut s = String::from_str("Failed to decode error reason: ");
            s.append(m.as_str());
            SubmitReply::RejectedMessage { error: BlockfrostError::custom_400(s) }
        },
    }
}

/// The 400 for a transport failure during submission, carrying the
/// transport's own account.
pub fn transport_error_response(detail: &str) -> (r: BlockfrostError)
    ensures
        r.status_code == 400,
        r.error@ == "Bad Request"@,
        r.message@ == "Error during transaction submission: "@ + detail@,
{
    let mut s = String::from_str("Error during transaction submission: ");
    s.append(detail);
    BlockfrostError::custom_400(s)
}

} // verus!
