//! The serialization of rejection-reason trees: the mathematical model of
//! the ledger's CBOR encoding. Decoding a serialized tree gives the tree
//! back; that round trip is proved in `reject_roundtrip`.

use vstd::prelude::*;

use crate::cbor::enc_bytes;
use crate::cbor::enc_head;
use crate::cbor::enc_text;
use crate::cbor::is_ascii_char;
use crate::reject::Network;
use crate::reject::PlutusPurpose;
use crate::reject::PredErrorV;
use crate::reject::ShelleyBasedEra;
use crate::reject::TxInV;
use crate::reject::TxOutV;
use crate::reject::TxValidationErrorV;
use crate::reject::UtxoFailureV;
use crate::reject::UtxowFailureV;
use crate::reject::VKeyWitnessV;
use crate::reject::ValidityInterval;

verus! {

/// A byte string short enough for a CBOR head.
pub open spec fn wf_bytes(s: Seq<u8>) -> bool {
    s.len() < 18446744073709551616
}

/// A list short enough for a CBOR head.
pub open spec fn wf_len(n: nat) -> bool {
    n < 18446744073709551616
}

/// ASCII text short enough for a CBOR head.
pub open spec fn wf_text(s: Seq<char>) -> bool {
    &&& s.len() < 18446744073709551616
    &&& forall|i: int| 0 <= i < s.len() ==> is_ascii_char(#[trigger] s[i])
}

pub open spec fn wf_txin(t: TxInV) -> bool {
    wf_bytes(t.tx_id)
}

pub open spec fn wf_vkey(w: VKeyWitnessV) -> bool {
    wf_bytes(w.vkey) && wf_bytes(w.signature)
}

pub open spec fn wf_txout(t: TxOutV) -> bool {
    wf_bytes(t.address)
}

pub open spec fn wf_txout_seq(s: Seq<TxOutV>) -> bool {
    &&& wf_len(s.len())
    &&& forall|i: int| 0 <= i < s.len() ==> wf_txout(#[trigger] s[i])
}

pub open spec fn wf_txout_triple_seq(s: Seq<(u64, u64, TxOutV)>) -> bool {
    &&& wf_len(s.len())
    &&& forall|i: int| 0 <= i < s.len() ==> wf_txout((#[trigger] s[i]).2)
}

pub open spec fn wf_txout_coin_seq(s: Seq<(TxOutV, u64)>) -> bool {
    &&& wf_len(s.len())
    &&& forall|i: int| 0 <= i < s.len() ==> wf_txout((#[trigger] s[i]).0)
}

pub open spec fn wf_utxo_pair_seq(s: Seq<(TxInV, TxOutV)>) -> bool {
    &&& wf_len(s.len())
    &&& forall|i: int|
        0 <= i < s.len() ==> wf_txin((#[trigger] s[i]).0) && wf_txout(s[i].1)
}

pub open spec fn wf_txin_seq(s: Seq<TxInV>) -> bool {
    &&& wf_len(s.len())
    &&& forall|i: int| 0 <= i < s.len() ==> wf_txin(#[trigger] s[i])
}

pub open spec fn wf_bytes_seq(s: Seq<Seq<u8>>) -> bool {
    &&& wf_len(s.len())
    &&& forall|i: int| 0 <= i < s.len() ==> wf_bytes(#[trigger] s[i])
}

pub open spec fn wf_redeemer_seq(s: Seq<(PlutusPurpose, Seq<u8>)>) -> bool {
    &&& wf_len(s.len())
    &&& forall|i: int| 0 <= i < s.len() ==> wf_bytes((#[trigger] s[i]).1)
}

/// The tree shapes the native grammar covers: every variant, with
/// outputs in the modeled `[address, coin]` shape and values as pure
/// coins, and every carried sequence short enough for a CBOR head.
pub open spec fn wf_utxo_failure(f: UtxoFailureV) -> bool
    decreases f,
{
    match f {
        UtxoFailureV::UtxosFailure(e) => wf_utxo_failure(*e),
        UtxoFailureV::BadInputsUTxO(v) => wf_txin_seq(v),
        UtxoFailureV::OutsideValidityIntervalUTxO(_vi, _s) => true,
        UtxoFailureV::MaxTxSizeUTxO(_n) => true,
        UtxoFailureV::InputSetEmptyUTxO => true,
        UtxoFailureV::FeeTooSmallUTxO(_a, _b) => true,
        UtxoFailureV::ValueNotConservedUTxO(_a, _b) => true,
        UtxoFailureV::WrongNetwork(_n, v) => wf_bytes_seq(v),
        UtxoFailureV::WrongNetworkWithdrawal(_n, v) => wf_bytes_seq(v),
        UtxoFailureV::OutputTooSmallUTxO(v) => wf_txout_seq(v),
        UtxoFailureV::OutputBootAddrAttrsTooBig(v) => wf_txout_seq(v),
        UtxoFailureV::OutputTooBigUTxO(v) => wf_txout_triple_seq(v),
        UtxoFailureV::InsufficientCollateral(_a, _b) => true,
        UtxoFailureV::ScriptsNotPaidUTxO(u) => wf_utxo_pair_seq(u),
        UtxoFailureV::ExUnitsTooBigUTxO(_e) => true,
        UtxoFailureV::CollateralContainsNonADA(_v) => true,
        UtxoFailureV::WrongNetworkInTxBody => true,
        UtxoFailureV::OutsideForecast(_s) => true,
        UtxoFailureV::TooManyCollateralInputs(_n) => true,
        UtxoFailureV::NoCollateralInputs => true,
        UtxoFailureV::IncorrectTotalCollateralField(_a, _b) => true,
        UtxoFailureV::BabbageOutputTooSmallUTxO(v) => wf_txout_coin_seq(v),
        UtxoFailureV::BabbageNonDisjointRefInputs(v) => wf_txin_seq(v),
    }
}

pub open spec fn wf_utxow_failure(f: UtxowFailureV) -> bool {
    match f {
        UtxowFailureV::UtxoFailure(e) => wf_utxo_failure(e),
        UtxowFailureV::InvalidWitnessesUTXOW(w) => wf_vkey(w),
        UtxowFailureV::MissingVKeyWitnessesUTXOW(w) => wf_vkey(w),
        UtxowFailureV::MissingScriptWitnessesUTXOW(h) => wf_bytes(h),
        UtxowFailureV::ScriptWitnessNotValidatingUTXOW(h) => wf_bytes(h),
        UtxowFailureV::MissingTxBodyMetadataHash(h) => wf_bytes(h),
        UtxowFailureV::MissingTxMetadata(h) => wf_bytes(h),
        UtxowFailureV::ConflictingMetadataHash(a, b) => wf_bytes(a) && wf_bytes(b),
        UtxowFailureV::InvalidMetadata => true,
        UtxowFailureV::ExtraneousScriptWitnessesUTXOW(h) => wf_bytes(h),
        UtxowFailureV::MissingRedeemers(v) => wf_redeemer_seq(v),
        UtxowFailureV::MissingRequiredDatums(a, b) => wf_bytes_seq(a) && wf_bytes_seq(b),
        UtxowFailureV::NotAllowedSupplementalDatums(a, b) => wf_bytes_seq(a) && wf_bytes_seq(b),
        UtxowFailureV::PPViewHashesDontMatch(o) => match o {
            Option::Some(h) => wf_bytes(h),
            Option::None => true,
        },
        UtxowFailureV::UnspendableUTxONoDatumHash(v) => wf_txin_seq(v),
        UtxowFailureV::ExtraRedeemers(v) => wf_len(v.len()),
        UtxowFailureV::MalformedScriptWitnesses(v) => wf_bytes_seq(v),
        UtxowFailureV::MalformedReferenceScripts(v) => wf_bytes_seq(v),
    }
}

pub open spec fn wf_pred_error(e: PredErrorV) -> bool {
    match e {
        PredErrorV::UtxowFailure(f) => wf_utxow_failure(f),
        PredErrorV::CertsFailure(f) => wf_utxow_failure(f),
        PredErrorV::GovFailure(f) => wf_utxow_failure(f),
        PredErrorV::WdrlNotDelegatedToDRep(h) => wf_bytes(h),
        PredErrorV::TreasuryValueMismatch(_a, _b) => true,
        PredErrorV::TxRefScriptsSizeTooBig(_n) => true,
        PredErrorV::MempoolFailure(s) => wf_text(s),
    }
}

pub open spec fn wf_errors(s: Seq<PredErrorV>) -> bool {
    &&& wf_len(s.len())
    &&& forall|i: int| 0 <= i < s.len() ==> wf_pred_error(#[trigger] s[i])
}

/// The rejection reasons the native decoder can produce: failure trees
/// that stay inside the native grammar. Decoding only ever yields such
/// trees; `reject_roundtrip` proves that.
pub open spec fn wf_rejection(t: TxValidationErrorV) -> bool {
    match t {
        TxValidationErrorV::Byron { error } => wf_errors(error),
        TxValidationErrorV::Shelley { error, era: _ } => wf_errors(error),
    }
}

/// The encoding of a transaction input.
pub open spec fn enc_txin(t: TxInV) -> Seq<u8> {
    enc_head(4, 2) + enc_bytes(t.tx_id) + enc_head(0, t.index)
}

/// The encoding of a key witness.
pub open spec fn enc_vkey(w: VKeyWitnessV) -> Seq<u8> {
    enc_head(4, 2) + enc_bytes(w.vkey) + enc_bytes(w.signature)
}

/// The encoding of an optional slot number.
pub open spec fn enc_opt_u64(o: Option<u64>) -> Seq<u8> {
    match o {
        Option::Some(v) => enc_head(0, v),
        Option::None => seq![246u8],
    }
}

/// The encoding of a validity interval.
pub open spec fn enc_validity(vi: ValidityInterval) -> Seq<u8> {
    enc_head(4, 2) + enc_opt_u64(vi.invalid_before) + enc_opt_u64(vi.invalid_hereafter)
}

/// The encoding of execution units.
pub open spec fn enc_exunits(e: crate::reject::DisplayExUnits) -> Seq<u8> {
    enc_head(4, 2) + enc_head(0, e.mem) + enc_head(0, e.steps)
}

/// The encoding of an optional script integrity hash.
pub open spec fn enc_opt_hash(o: Option<Seq<u8>>) -> Seq<u8> {
    match o {
        Option::Some(h) => enc_bytes(h),
        Option::None => seq![246u8],
    }
}

/// The encoding of a script purpose.
pub open spec fn enc_purpose(p: PlutusPurpose) -> Seq<u8> {
    enc_head(0, p.spec_tag())
}

/// The encoding of a network id.
pub open spec fn enc_network(n: Network) -> Seq<u8> {
    enc_head(0, n.spec_tag())
}

/// The encoding of a missing-redeemer entry.
pub open spec fn enc_redeemer(t: (PlutusPurpose, Seq<u8>)) -> Seq<u8> {
    enc_head(4, 2) + enc_purpose(t.0) + enc_bytes(t.1)
}

/// The encodings of consecutive transaction inputs.
pub open spec fn enc_txin_seq(s: Seq<TxInV>) -> Seq<u8>
    decreases s.len(),
{
    if s.len() == 0 {
        Seq::empty()
    } else {
        enc_txin(s[0]) + enc_txin_seq(s.drop_first())
    }
}

/// The encodings of consecutive byte strings.
pub open spec fn enc_bytes_seq(s: Seq<Seq<u8>>) -> Seq<u8>
    decreases s.len(),
{
    if s.len() == 0 {
        Seq::empty()
    } else {
        enc_bytes(s[0]) + enc_bytes_seq(s.drop_first())
    }
}

/// The encodings of consecutive script purposes.
pub open spec fn enc_purpose_seq(s: Seq<PlutusPurpose>) -> Seq<u8>
    decreases s.len(),
{
    if s.len() == 0 {
        Seq::empty()
    } else {
        enc_purpose(s[0]) + enc_purpose_seq(s.drop_first())
    }
}

/// The encodings of consecutive missing-redeemer entries.
pub open spec fn enc_redeemer_seq(s: Seq<(PlutusPurpose, Seq<u8>)>) -> Seq<u8>
    decreases s.len(),
{
    if s.len() == 0 {
        Seq::empty()
    } else {
        enc_redeemer(s[0]) + enc_redeemer_seq(s.drop_first())
    }
}

/// The encoding of a list of transaction inputs.
pub open spec fn enc_txin_list(s: Seq<TxInV>) -> Seq<u8> {
    enc_head(4, s.len() as u64) + enc_txin_seq(s)
}

/// The encoding of a list of byte strings.
pub open spec fn enc_bytes_list(s: Seq<Seq<u8>>) -> Seq<u8> {
    enc_head(4, s.len() as u64) + enc_bytes_seq(s)
}

/// The encoding of a list of script purposes.
pub open spec fn enc_purpose_list(s: Seq<PlutusPurpose>) -> Seq<u8> {
    enc_head(4, s.len() as u64) + enc_purpose_seq(s)
}

/// The encoding of a list of missing-redeemer entries.
pub open spec fn enc_redeemer_list(s: Seq<(PlutusPurpose, Seq<u8>)>) -> Seq<u8> {
    enc_head(4, s.len() as u64) + enc_redeemer_seq(s)
}

/// The encoding of a transaction output in the modeled shape.
pub open spec fn enc_txout(t: TxOutV) -> Seq<u8> {
    enc_head(4, 2) + enc_bytes(t.address) + enc_head(0, t.coin)
}

/// The encoding of an oversize-output report.
pub open spec fn enc_txout_triple(t: (u64, u64, TxOutV)) -> Seq<u8> {
    enc_head(4, 3) + enc_head(0, t.0) + enc_head(0, t.1) + enc_txout(t.2)
}

/// The encoding of an output with its required minimum.
pub open spec fn enc_txout_coin(t: (TxOutV, u64)) -> Seq<u8> {
    enc_head(4, 2) + enc_txout(t.0) + enc_head(0, t.1)
}

/// The encoding of a UTxO entry.
pub open spec fn enc_utxo_pair(t: (TxInV, TxOutV)) -> Seq<u8> {
    enc_head(4, 2) + enc_txin(t.0) + enc_txout(t.1)
}

/// The encodings of consecutive transaction outputs.
pub open spec fn enc_txout_seq(s: Seq<TxOutV>) -> Seq<u8>
    decreases s.len(),
{
    if s.len() == 0 {
        Seq::empty()
    } else {
        enc_txout(s[0]) + enc_txout_seq(s.drop_first())
    }
}

/// The encodings of consecutive oversize-output reports.
pub open spec fn enc_txout_triple_seq(s: Seq<(u64, u64, TxOutV)>) -> Seq<u8>
    decreases s.len(),
{
    if s.len() == 0 {
        Seq::empty()
    } else {
        enc_txout_triple(s[0]) + enc_txout_triple_seq(s.drop_first())
    }
}

/// The encodings of consecutive outputs with their minimums.
pub open spec fn enc_txout_coin_seq(s: Seq<(TxOutV, u64)>) -> Seq<u8>
    decreases s.len(),
{
    if s.len() == 0 {
        Seq::empty()
    } else {
        enc_txout_coin(s[0]) + enc_txout_coin_seq(s.drop_first())
    }
}

/// The encodings of consecutive UTxO entries.
pub open spec fn enc_utxo_pair_seq(s: Seq<(TxInV, TxOutV)>) -> Seq<u8>
    decreases s.len(),
{
    if s.len() == 0 {
        Seq::empty()
    } else {
        enc_utxo_pair(s[0]) + enc_utxo_pair_seq(s.drop_first())
    }
}

/// The encoding of a list of transaction outputs.
pub open spec fn enc_txout_list(s: Seq<TxOutV>) -> Seq<u8> {
    enc_head(4, s.len() as u64) + enc_txout_seq(s)
}

/// The encoding of a list of oversize-output reports.
pub open spec fn enc_txout_triple_list(s: Seq<(u64, u64, TxOutV)>) -> Seq<u8> {
    enc_head(4, s.len() as u64) + enc_txout_triple_seq(s)
}

/// The encoding of a list of outputs with their minimums.
pub open spec fn enc_txout_coin_list(s: Seq<(TxOutV, u64)>) -> Seq<u8> {
    enc_head(4, s.len() as u64) + enc_txout_coin_seq(s)
}

/// The encoding of a list of UTxO entries.
pub open spec fn enc_utxo_pair_list(s: Seq<(TxInV, TxOutV)>) -> Seq<u8> {
    enc_head(4, s.len() as u64) + enc_utxo_pair_seq(s)
}

/// The encoding of a UTxO rule failure. Only well-formed trees have a
/// meaningful encoding.
pub open spec fn enc_utxo_failure(f: UtxoFailureV) -> Seq<u8>
    decreases f,
{
    match f {
        UtxoFailureV::UtxosFailure(e) => enc_head(4, 2) + enc_head(0, 0) + enc_utxo_failure(*e),
        UtxoFailureV::BadInputsUTxO(v) => enc_head(4, 2) + enc_head(0, 1) + enc_txin_list(v),
        UtxoFailureV::OutsideValidityIntervalUTxO(vi, s) => enc_head(4, 3) + enc_head(0, 2)
            + enc_validity(vi) + enc_head(0, s),
        UtxoFailureV::MaxTxSizeUTxO(n) => enc_head(4, 2) + enc_head(0, 3) + enc_head(0, n),
        UtxoFailureV::InputSetEmptyUTxO => enc_head(4, 1) + enc_head(0, 4),
        UtxoFailureV::FeeTooSmallUTxO(a, b) => enc_head(4, 3) + enc_head(0, 5) + enc_head(0, a)
            + enc_head(0, b),
        UtxoFailureV::ValueNotConservedUTxO(a, b) => enc_head(4, 3) + enc_head(0, 6) + enc_head(
            0,
            a.coin,
        ) + enc_head(0, b.coin),
        UtxoFailureV::WrongNetwork(n, v) => enc_head(4, 3) + enc_head(0, 7) + enc_network(n)
            + enc_bytes_list(v),
        UtxoFailureV::WrongNetworkWithdrawal(n, v) => enc_head(4, 3) + enc_head(0, 8)
            + enc_network(n) + enc_bytes_list(v),
        UtxoFailureV::OutputTooSmallUTxO(v) => enc_head(4, 2) + enc_head(0, 9) + enc_txout_list(
            v,
        ),
        UtxoFailureV::OutputBootAddrAttrsTooBig(v) => enc_head(4, 2) + enc_head(0, 10)
            + enc_txout_list(v),
        UtxoFailureV::OutputTooBigUTxO(v) => enc_head(4, 2) + enc_head(0, 11)
            + enc_txout_triple_list(v),
        UtxoFailureV::InsufficientCollateral(a, b) => enc_head(4, 3) + enc_head(0, 12) + enc_head(
            0,
            a,
        ) + enc_head(0, b),
        UtxoFailureV::ScriptsNotPaidUTxO(u) => enc_head(4, 2) + enc_head(0, 13)
            + enc_utxo_pair_list(u),
        UtxoFailureV::ExUnitsTooBigUTxO(e) => enc_head(4, 2) + enc_head(0, 14) + enc_exunits(e),
        UtxoFailureV::CollateralContainsNonADA(v) => enc_head(4, 2) + enc_head(0, 15) + enc_head(
            0,
            v.coin,
        ),
        UtxoFailureV::WrongNetworkInTxBody => enc_head(4, 1) + enc_head(0, 16),
        UtxoFailureV::OutsideForecast(s) => enc_head(4, 2) + enc_head(0, 17) + enc_head(0, s),
        UtxoFailureV::TooManyCollateralInputs(n) => enc_head(4, 2) + enc_head(0, 18) + enc_head(
            0,
            n,
        ),
        UtxoFailureV::NoCollateralInputs => enc_head(4, 1) + enc_head(0, 19),
        UtxoFailureV::IncorrectTotalCollateralField(a, b) => enc_head(4, 3) + enc_head(0, 20)
            + enc_head(0, a) + enc_head(0, b),
        UtxoFailureV::BabbageOutputTooSmallUTxO(v) => enc_head(4, 2) + enc_head(0, 21)
            + enc_txout_coin_list(v),
        UtxoFailureV::BabbageNonDisjointRefInputs(v) => enc_head(4, 2) + enc_head(0, 22)
            + enc_txin_list(v),
    }
}

/// The encoding of a witnessing rule failure.
pub open spec fn enc_utxow_failure(f: UtxowFailureV) -> Seq<u8> {
    match f {
        UtxowFailureV::UtxoFailure(e) => enc_head(4, 2) + enc_head(0, 0) + enc_utxo_failure(e),
        UtxowFailureV::InvalidWitnessesUTXOW(w) => enc_head(4, 2) + enc_head(0, 1) + enc_vkey(w),
        UtxowFailureV::MissingVKeyWitnessesUTXOW(w) => enc_head(4, 2) + enc_head(0, 2) + enc_vkey(
            w,
        ),
        UtxowFailureV::MissingScriptWitnessesUTXOW(h) => enc_head(4, 2) + enc_head(0, 3)
            + enc_bytes(h),
        UtxowFailureV::ScriptWitnessNotValidatingUTXOW(h) => enc_head(4, 2) + enc_head(0, 4)
            + enc_bytes(h),
        UtxowFailureV::MissingTxBodyMetadataHash(h) => enc_head(4, 2) + enc_head(0, 5) + enc_bytes(
            h,
        ),
        UtxowFailureV::MissingTxMetadata(h) => enc_head(4, 2) + enc_head(0, 6) + enc_bytes(h),
        UtxowFailureV::ConflictingMetadataHash(a, b) => enc_head(4, 3) + enc_head(0, 7)
            + enc_bytes(a) + enc_bytes(b),
        UtxowFailureV::InvalidMetadata => enc_head(4, 1) + enc_head(0, 8),
        UtxowFailureV::ExtraneousScriptWitnessesUTXOW(h) => enc_head(4, 2) + enc_head(0, 9)
            + enc_bytes(h),
        UtxowFailureV::MissingRedeemers(v) => enc_head(4, 2) + enc_head(0, 10) + enc_redeemer_list(
            v,
        ),
        UtxowFailureV::MissingRequiredDatums(a, b) => enc_head(4, 3) + enc_head(0, 11)
            + enc_bytes_list(a) + enc_bytes_list(b),
        UtxowFailureV::NotAllowedSupplementalDatums(a, b) => enc_head(4, 3) + enc_head(0, 12)
            + enc_bytes_list(a) + enc_bytes_list(b),
        UtxowFailureV::PPViewHashesDontMatch(o) => enc_head(4, 2) + enc_head(0, 13) + enc_opt_hash(
            o,
        ),
        UtxowFailureV::UnspendableUTxONoDatumHash(v) => enc_head(4, 2) + enc_head(0, 14)
            + enc_txin_list(v),
        UtxowFailureV::ExtraRedeemers(v) => enc_head(4, 2) + enc_head(0, 15) + enc_purpose_list(v),
        UtxowFailureV::MalformedScriptWitnesses(v) => enc_head(4, 2) + enc_head(0, 16)
            + enc_bytes_list(v),
        UtxowFailureV::MalformedReferenceScripts(v) => enc_head(4, 2) + enc_head(0, 17)
            + enc_bytes_list(v),
    }
}

/// The encoding of a transaction-level failure.
pub open spec fn enc_pred_error(e: PredErrorV) -> Seq<u8> {
    match e {
        PredErrorV::UtxowFailure(f) => enc_head(4, 2) + enc_head(0, 1) + enc_utxow_failure(f),
        PredErrorV::CertsFailure(f) => enc_head(4, 2) + enc_head(0, 2) + enc_utxow_failure(f),
        PredErrorV::GovFailure(f) => enc_head(4, 2) + enc_head(0, 3) + enc_utxow_failure(f),
        PredErrorV::WdrlNotDelegatedToDRep(h) => enc_head(4, 2) + enc_head(0, 4) + enc_bytes(h),
        PredErrorV::TreasuryValueMismatch(a, b) => enc_head(4, 3) + enc_head(0, 5) + enc_head(
            0,
            a,
        ) + enc_head(0, b),
        PredErrorV::TxRefScriptsSizeTooBig(n) => enc_head(4, 2) + enc_head(0, 6) + enc_head(0, n),
        PredErrorV::MempoolFailure(s) => enc_head(4, 2) + enc_head(0, 7) + enc_text(s),
    }
}

/// The encodings of consecutive transaction-level failures.
pub open spec fn enc_pred_seq(s: Seq<PredErrorV>) -> Seq<u8>
    decreases s.len(),
{
    if s.len() == 0 {
        Seq::empty()
    } else {
        enc_pred_error(s[0]) + enc_pred_seq(s.drop_first())
    }
}

/// The encoding of the failure list with its array head.
pub open spec fn enc_errors(s: Seq<PredErrorV>) -> Seq<u8> {
    enc_head(4, s.len() as u64) + enc_pred_seq(s)
}

/// The encoding of a whole rejection reason.
pub open spec fn enc_rejection(t: TxValidationErrorV) -> Seq<u8> {
    match t {
        TxValidationErrorV::Byron { error } => enc_head(4, 2) + enc_head(0, 1) + enc_head(4, 1)
            + enc_errors(error),
        TxValidationErrorV::Shelley { error, era } => enc_head(4, 2) + enc_head(0, 2) + enc_head(
            4,
            1,
        ) + enc_head(4, 2) + enc_head(0, era.spec_tag()) + enc_errors(error),
    }
}

/// How deeply `UtxosFailure` wrappers nest; the fuel a parse needs.
pub open spec fn depth_utxo(f: UtxoFailureV) -> nat
    decreases f,
{
    match f {
        UtxoFailureV::UtxosFailure(e) => 1 + depth_utxo(*e),
        _ => 1,
    }
}

pub open spec fn depth_utxow(f: UtxowFailureV) -> nat {
    match f {
        UtxowFailureV::UtxoFailure(e) => depth_utxo(e),
        _ => 1,
    }
}

pub open spec fn depth_pred(e: PredErrorV) -> nat {
    match e {
        PredErrorV::UtxowFailure(f) => depth_utxow(f),
        PredErrorV::CertsFailure(f) => depth_utxow(f),
        PredErrorV::GovFailure(f) => depth_utxow(f),
        _ => 1,
    }
}

pub open spec fn depth_errors(s: Seq<PredErrorV>) -> nat
    decreases s.len(),
{
    if s.len() == 0 {
        1
    } else {
        let rest = depth_errors(s.drop_first());
        if depth_pred(s[0]) > rest {
            depth_pred(s[0])
        } else {
            rest
        }
    }
}

} // verus!
