//! The error envelope of the reference submission API: the wrapper types
//! around a decoded rejection reason and their rendering as a JSON
//! document with the `{tag, contents}` shape.

use vstd::prelude::*;
use vstd::string::StringExecFns;

use crate::json::JsonV;
use crate::json::JsonValue;
use crate::json::lemma_array_view;
use crate::json::lemma_object_view;
use crate::reject::ApplyTxErr;
use crate::reject::PredErrorV;
use crate::reject::TxValidationError;
use crate::reject_render::sp_render_pred_error;

verus! {

/// The two eras named by an era mismatch report.
#[derive(Debug, PartialEq, Eq)]
pub struct EraMismatch {
    pub ledger: String,
    pub other: String,
}

/// A validation error as the node-to-client protocol frames it.
#[derive(Debug, PartialEq, Eq)]
pub enum TxValidationErrorInCardanoMode {
    TxValidationErrorInCardanoMode(TxValidationError),
    EraMismatch(EraMismatch),
}

/// A submission command failure.
#[derive(Debug, PartialEq, Eq)]
pub enum TxCmdError {
    SocketEnvError(String),
    TxReadError(Vec<String>),
    TxCmdTxSubmitValidationError(TxValidationErrorInCardanoMode),
}

/// The outermost envelope of a failed submission.
#[derive(Debug, PartialEq, Eq)]
pub enum TxSubmitFail {
    TxSubmitDecodeHex,
    TxSubmitEmpty,
    TxSubmitDecodeFail(String),
    TxSubmitBadTx(String),
    TxSubmitFail(TxCmdError),
}

/// The failure list rendered as constructor strings.
pub open spec fn sp_error_strings(es: Seq<PredErrorV>) -> Seq<JsonV> {
    es.map_values(|e: PredErrorV| JsonV::Str(sp_render_pred_error(e)))
}

/// The JSON document of a validation error: its kind, the rendered
/// failures, and for Shelley-based errors the era.
pub open spec fn sp_validation_error_json(t: &TxValidationError) -> JsonV {
    match t {
        TxValidationError::ByronTxValidationError { error } => JsonV::Object(
            seq![
                ("kind"@, JsonV::Str("ByronTxValidationError"@)),
                ("error"@, JsonV::Array(sp_error_strings(error@))),
            ],
        ),
        TxValidationError::ShelleyTxValidationError { error, era } => JsonV::Object(
            seq![
                ("kind"@, JsonV::Str("ShelleyTxValidationError"@)),
                ("error"@, JsonV::Array(sp_error_strings(error@))),
                ("era"@, JsonV::Str(era.spec_name())),
            ],
        ),
    }
}

/// The JSON document of the protocol-level wrapper.
pub open spec fn sp_in_mode_json(t: &TxValidationErrorInCardanoMode) -> JsonV {
    match t {
        TxValidationErrorInCardanoMode::TxValidationErrorInCardanoMode(e) => JsonV::Object(
            seq![
                ("tag"@, JsonV::Str("TxValidationErrorInCardanoMode"@)),
                ("contents"@, sp_validation_error_json(e)),
            ],
        ),
        TxValidationErrorInCardanoMode::EraMismatch(m) => JsonV::Object(
            seq![
                ("tag"@, JsonV::Str("EraMismatch"@)),
                (
                    "contents"@,
                    JsonV::Object(
                        seq![
                            ("ledger"@, JsonV::Str(m.ledger@)),
                            ("other"@, JsonV::Str(m.other@)),
                        ],
                    ),
                ),
            ],
        ),
    }
}

/// The JSON document of a submission command failure.
pub open spec fn sp_cmd_error_json(t: &TxCmdError) -> JsonV {
    match t {
        TxCmdError::SocketEnvError(s) => JsonV::Object(
            seq![("tag"@, JsonV::Str("SocketEnvError"@)), ("contents"@, JsonV::Str(s@))],
        ),
        TxCmdError::TxReadError(v) => JsonV::Object(
            seq![
                ("tag"@, JsonV::Str("TxReadError"@)),
                (
                    "contents"@,
                    JsonV::Array(v.deep_view().map_values(|s: Seq<char>| JsonV::Str(s))),
                ),
            ],
        ),
        TxCmdError::TxCmdTxSubmitValidationError(e) => JsonV::Object(
            seq![
                ("tag"@, JsonV::Str("TxCmdTxSubmitValidationError"@)),
                ("contents"@, sp_in_mode_json(e)),
            ],
        ),
    }
}

/// The JSON document of the outermost envelope.
pub open spec fn sp_submit_fail_json(t: &TxSubmitFail) -> JsonV {
    match t {
        TxSubmitFail::TxSubmitDecodeHex => JsonV::Object(
            seq![("tag"@, JsonV::Str("TxSubmitDecodeHex"@))],
        ),
        TxSubmitFail::TxSubmitEmpty => JsonV::Object(seq![("tag"@, JsonV::Str("TxSubmitEmpty"@))]),
        TxSubmitFail::TxSubmitDecodeFail(s) => JsonV::Object(
            seq![("tag"@, JsonV::Str("TxSubmitDecodeFail"@)), ("contents"@, JsonV::Str(s@))],
        ),
        TxSubmitFail::TxSubmitBadTx(s) => JsonV::Object(
            seq![("tag"@, JsonV::Str("TxSubmitBadTx"@)), ("contents"@, JsonV::Str(s@))],
        ),
        TxSubmitFail::TxSubmitFail(e) => JsonV::Object(
            seq![("tag"@, JsonV::Str("TxSubmitFail"@)), ("contents"@, sp_cmd_error_json(e))],
        ),
    }
}

/// Renders the failure list as constructor strings.
fn error_strings(es: &ApplyTxErr) -> (r: Vec<JsonValue>)
    ensures
        r@.len() == es@.len(),
        forall|k: int| 0 <= k < r@.len() ==> (#[trigger] r@[k])@ == JsonV::Str(
            sp_render_pred_error(es@[k]),
        ),
{
    let mut strs: Vec<JsonValue> = Vec::new();
    let mut i: usize = 0;
    while i < es.0.len()
        invariant
            i <= es.0.len(),
            es@.len() == es.0@.len(),
            forall|k: int| 0 <= k < es.0@.len() ==> #[trigger] es@[k] == es.0@[k]@,
            strs@.len() == i,
            forall|k: int| 0 <= k < i ==> (#[trigger] strs@[k])@ == JsonV::Str(
                sp_render_pred_error(es@[k]),
            ),
        decreases es.0.len() - i,
    {
        strs.push(JsonValue::Str(es.0[i].render()));
        i = i + 1;
    }
    strs
}

/// The JSON document of a validation error.
pub fn tx_validation_error_to_json(t: &TxValidationError) -> (r: JsonValue)
    ensures
        r@ == sp_validation_error_json(t),
{
    match t {
        TxValidationError::ByronTxValidationError { error } => {
            let strs = error_strings(error);
            proof {
                lemma_array_view(strs);
                assert(((JsonValue::Array(strs))@) -> Array_0 =~= sp_error_strings(error@));
            }
            let mut fields: Vec<(String, JsonValue)> = Vec::new();
            fields.push(
                (
                    String::from_str("kind"),
                    JsonValue::Str(String::from_str("ByronTxValidationError")),
                ),
            );
            fields.push((String::from_str("error"), JsonValue::Array(strs)));
            proof {
                lemma_object_view(fields);
            }
            let r = JsonValue::Object(fields);
            proof {
                assert((r@) -> Object_0 =~= sp_validation_error_json(t) -> Object_0);
            }
            r
        },
        TxValidationError::ShelleyTxValidationError { error, era } => {
            let strs = error_strings(error);
            proof {
                lemma_array_view(strs);
                assert(((JsonValue::Array(strs))@) -> Array_0 =~= sp_error_strings(error@));
            }
            let mut fields: Vec<(String, JsonValue)> = Vec::new();
            fields.push(
                (
                    String::from_str("kind"),
                    JsonValue::Str(String::from_str("ShelleyTxValidationError")),
                ),
            );
            fields.push((String::from_str("error"), JsonValue::Array(strs)));
            fields.push((String::from_str("era"), JsonValue::Str(era.name())));
            proof {
                lemma_object_view(fields);
            }
            let r = JsonValue::Object(fields);
            proof {
                assert((r@) -> Object_0 =~= sp_validation_error_json(t) -> Object_0);
            }
            r
        },
    }
}

/// The JSON document of the protocol-level wrapper.
pub fn in_mode_to_json(t: &TxValidationErrorInCardanoMode) -> (r: JsonValue)
    ensures
        r@ == sp_in_mode_json(t),
{
    match t {
        TxValidationErrorInCardanoMode::TxValidationErrorInCardanoMode(e) => {
            let mut fields: Vec<(String, JsonValue)> = Vec::new();
            fields.push(
                (
                    String::from_str("tag"),
                    JsonValue::Str(String::from_str("TxValidationErrorInCardanoMode")),
                ),
            );
            fields.push((String::from_str("contents"), tx_validation_error_to_json(e)));
            proof {
                lemma_object_view(fields);
            }
            let r = JsonValue::Object(fields);
            proof {
                assert((r@) -> Object_0 =~= sp_in_mode_json(t) -> Object_0);
            }
            r
        },
        TxValidationErrorInCardanoMode::EraMismatch(m) => {
            let mut inner: Vec<(String, JsonValue)> = Vec::new();
            inner.push((String::from_str("ledger"), JsonValue::Str(m.ledger.clone())));
            inner.push((String::from_str("other"), JsonValue::Str(m.other.clone())));
            proof {
                lemma_object_view(inner);
            }
            let contents = JsonValue::Object(inner);
            proof {
                assert((contents@) -> Object_0 =~= seq![
                    ("ledger"@, JsonV::Str(m.ledger@)),
                    ("other"@, JsonV::Str(m.other@)),
                ]);
            }
            let mut fields: Vec<(String, JsonValue)> = Vec::new();
            fields.push((String::from_str("tag"), JsonValue::Str(String::from_str("EraMismatch"))));
            fields.push((String::from_str("contents"), contents));
            proof {
                lemma_object_view(fields);
            }
            let r = JsonValue::Object(fields);
            proof {
                assert((r@) -> Object_0 =~= sp_in_mode_json(t) -> Object_0);
            }
            r
        },
    }
}

/// The JSON document of a submission command failure.
pub fn cmd_error_to_json(t: &TxCmdError) -> (r: JsonValue)
    ensures
        r@ == sp_cmd_error_json(t),
{
    match t {
        TxCmdError::SocketEnvError(s) => {
            let mut fields: Vec<(String, JsonValue)> = Vec::new();
            fields.push(
                (String::from_str("tag"), JsonValue::Str(String::from_str("SocketEnvError"))),
            );
            fields.push((String::from_str("contents"), JsonValue::Str(s.clone())));
            proof {
                lemma_object_view(fields);
            }
            let r = JsonValue::Object(fields);
            proof {
                assert((r@) -> Object_0 =~= sp_cmd_error_json(t) -> Object_0);
            }
            r
        },
        TxCmdError::TxReadError(v) => {
            let mut strs: Vec<JsonValue> = Vec::new();
            let mut i: usize = 0;
            while i < v.len()
                invariant
                    i <= v.len(),
                    strs@.len() == i,
                    forall|k: int| 0 <= k < i ==> (#[trigger] strs@[k])@ == JsonV::Str(v@[k]@),
                decreases v.len() - i,
            {
                strs.push(JsonValue::Str(v[i].clone()));
                i = i + 1;
            }
            proof {
                lemma_array_view(strs);
                let f = |s2: Seq<char>| JsonV::Str(s2);
                assert forall|k: int| 0 <= k < v@.len() implies ((JsonValue::Array(strs))@)
                    -> Array_0[k] == v.deep_view().map_values(f)[k] by {
                    assert(v.deep_view()[k] == v@[k]@);
                }
                assert(((JsonValue::Array(strs))@) -> Array_0 =~= v.deep_view().map_values(f));
                assert(v.deep_view().map_values(f) =~= v.deep_view().map_values(
                    |s2: Seq<char>| JsonV::Str(s2),
                ));
            }
            let mut fields: Vec<(String, JsonValue)> = Vec::new();
            fields.push((String::from_str("tag"), JsonValue::Str(String::from_str("TxReadError"))));
            fields.push((String::from_str("contents"), JsonValue::Array(strs)));
            proof {
                lemma_object_view(fields);
            }
            let r = JsonValue::Object(fields);
            proof {
                assert((r@) -> Object_0 =~= sp_cmd_error_json(t) -> Object_0);
            }
            r
        },
        TxCmdError::TxCmdTxSubmitValidationError(e) => {
            let mut fields: Vec<(String, JsonValue)> = Vec::new();
            fields.push(
                (
                    String::from_str("tag"),
                    JsonValue::Str(String::from_str("TxCmdTxSubmitValidationError")),
                ),
            );
            fields.push((String::from_str("contents"), in_mode_to_json(e)));
            proof {
                lemma_object_view(fields);
            }
            let r = JsonValue::Object(fields);
            proof {
                assert((r@) -> Object_0 =~= sp_cmd_error_json(t) -> Object_0);
            }
            r
        },
    }
}

/// The JSON document of the outermost envelope.
pub fn tx_submit_fail_to_json(t: &TxSubmitFail) -> (r: JsonValue)
    ensures
        r@ == sp_submit_fail_json(t),
{
    match t {
        TxSubmitFail::TxSubmitDecodeHex => {
            let mut fields: Vec<(String, JsonValue)> = Vec::new();
            fields.push(
                (String::from_str("tag"), JsonValue::Str(String::from_str("TxSubmitDecodeHex"))),
            );
            proof {
                lemma_object_view(fields);
            }
            let r = JsonValue::Object(fields);
            proof {
                assert((r@) -> Object_0 =~= sp_submit_fail_json(t) -> Object_0);
            }
            r
        },
        TxSubmitFail::TxSubmitEmpty => {
            let mut fields: Vec<(String, JsonValue)> = Vec::new();
            fields.push(
                (String::from_str("tag"), JsonValue::Str(String::from_str("TxSubmitEmpty"))),
            );
            proof {
                lemma_object_view(fields);
            }
            let r = JsonValue::Object(fields);
            proof {
                assert((r@) -> Object_0 =~= sp_submit_fail_json(t) -> Object_0);
            }
            r
        },
        TxSubmitFail::TxSubmitDecodeFail(s) => {
            let mut fields: Vec<(String, JsonValue)> = Vec::new();
            fields.push(
                (String::from_str("tag"), JsonValue::Str(String::from_str("TxSubmitDecodeFail"))),
            );
            fields.push((String::from_str("contents"), JsonValue::Str(s.clone())));
            proof {
                lemma_object_view(fields);
            }
            let r = JsonValue::Object(fields);
            proof {
                assert((r@) -> Object_0 =~= sp_submit_fail_json(t) -> Object_0);
            }
            r
        },
        TxSubmitFail::TxSubmitBadTx(s) => {
            let mut fields: Vec<(String, JsonValue)> = Vec::new();
            fields.push(
                (String::from_str("tag"), JsonValue::Str(String::from_str("TxSubmitBadTx"))),
            );
            fields.push((String::from_str("contents"), JsonValue::Str(s.clone())));
            proof {
                lemma_object_view(fields);
            }
            let r = JsonValue::Object(fields);
            proof {
                assert((r@) -> Object_0 =~= sp_submit_fail_json(t) -> Object_0);
            }
            r
        },
        TxSubmitFail::TxSubmitFail(e) => {
            let mut fields: Vec<(String, JsonValue)> = Vec::new();
            fields.push((String::from_str("tag"), JsonValue::Str(String::from_str("TxSubmitFail"))));
            fields.push((String::from_str("contents"), cmd_error_to_json(e)));
            proof {
                lemma_object_view(fields);
            }
            let r = JsonValue::Object(fields);
            proof {
                assert((r@) -> Object_0 =~= sp_submit_fail_json(t) -> Object_0);
            }
            r
        },
    }
}

} // verus!
