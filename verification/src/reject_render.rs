//! Rendering of the rejection-reason tree as the constructor strings the
//! error envelope carries, one string per transaction-level failure.
//!
//! The forms here follow the reference submission API's output. For the
//! failures whose payloads are coins, slots, counts, validity windows
//! and plain text, the strings are pinned to the reference exactly, and
//! only such failures are answered natively (see
//! `transactions::decide_rejection`). The remaining payload forms are
//! best-effort renderings: the pipeline routes those failures to the
//! fallback decoder, whose output is reference-exact, so they reach
//! callers only through tests and the envelope builder.

use vstd::prelude::*;
use vstd::string::StringExecFns;

use crate::hex::hex_encode;
use crate::hex::hex_of;
use crate::reject::ApplyConwayTxPredError;
use crate::reject::ConwayUtxoPredFailure;
use crate::reject::ConwayUtxoWPredFailure;
use crate::reject::DisplayExUnits;
use crate::reject::DisplayScriptHash;
use crate::reject::DisplayVKeyWitness;
use crate::reject::DisplayValue;
use crate::reject::PlutusPurpose;
use crate::reject::PredErrorV;
use crate::reject::ScriptIntegrityHash;
use crate::reject::SerializableTxIn;
use crate::reject::SerializableTxOut;
use crate::reject::TxInV;
use crate::reject::TxOutV;
use crate::reject::UtxoFailureV;
use crate::reject::UtxowFailureV;
use crate::reject::VKeyWitnessV;
use crate::reject::ValidityInterval;
use crate::render::dec_of;
use crate::render::joined;
use crate::render::spec_display_tuple;
use crate::render::spec_display_triple;
use crate::render::u64_to_dec;

verus! {

/// The rendering of a script hash.
pub open spec fn sp_render_script_hash(h: Seq<u8>) -> Seq<char> {
    "ScriptHash \""@ + hex_of(h) + "\""@
}

/// The rendering of a key witness.
pub open spec fn sp_render_vkey_witness(w: VKeyWitnessV) -> Seq<char> {
    "VKeyWitness { vkey: "@ + hex_of(w.vkey) + ", signature: "@ + hex_of(w.signature) + " }"@
}

/// The rendering of a script integrity hash.
pub open spec fn sp_render_script_integrity(h: Seq<u8>) -> Seq<char> {
    "ScriptIntegrityHash("@ + hex_of(h) + ")"@
}

/// The rendering of a transaction input.
pub open spec fn sp_render_txin(t: TxInV) -> Seq<char> {
    "TxIn { id: "@ + hex_of(t.tx_id) + ", index: "@ + dec_of(t.index as int) + " }"@
}

/// The rendering of a transaction output.
pub open spec fn sp_render_txout(t: TxOutV) -> Seq<char> {
    "TxOut { address: "@ + hex_of(t.address) + ", coin: "@ + dec_of(t.coin as int) + " }"@
}

/// The rendering of a pure-coin value, as the reference submission API
/// spells it.
pub open spec fn sp_render_value(v: DisplayValue) -> Seq<char> {
    "MaryValue (Coin "@ + dec_of(v.coin as int) + ") (MultiAsset (fromList []))"@
}

/// The rendering of execution units, in the derived record form.
pub open spec fn sp_render_exunits(e: DisplayExUnits) -> Seq<char> {
    "ExUnits {exUnitsMem = "@ + dec_of(e.mem as int) + ", exUnitsSteps = "@ + dec_of(
        e.steps as int,
    ) + " }"@
}

/// The rendering of an optional slot number, in the strict-maybe form
/// the reference output uses.
pub open spec fn sp_opt_dec(o: Option<u64>) -> Seq<char> {
    match o {
        Option::Some(n) => "SJust (SlotNo "@ + dec_of(n as int) + ")"@,
        Option::None => "SNothing"@,
    }
}

/// The rendering of a validity interval, in the derived record form.
pub open spec fn sp_render_validity(vi: ValidityInterval) -> Seq<char> {
    "ValidityInterval {invalidBefore = "@ + sp_opt_dec(vi.invalid_before)
        + ", invalidHereafter = "@ + sp_opt_dec(vi.invalid_hereafter) + "}"@
}

/// Hex renderings of raw byte strings, joined with spaces.
pub open spec fn sp_hex_list(v: Seq<Seq<u8>>) -> Seq<char> {
    joined(v.map_values(|h: Seq<u8>| hex_of(h)), " "@)
}

/// Script hash renderings joined with spaces.
pub open spec fn sp_script_hash_list(v: Seq<Seq<u8>>) -> Seq<char> {
    joined(v.map_values(|h: Seq<u8>| sp_render_script_hash(h)), " "@)
}

/// Purpose renderings joined with spaces.
pub open spec fn sp_purpose_list(v: Seq<PlutusPurpose>) -> Seq<char> {
    joined(v.map_values(|p: PlutusPurpose| p.spec_render()), " "@)
}

/// Transaction input renderings joined with spaces.
pub open spec fn sp_txin_list(v: Seq<TxInV>) -> Seq<char> {
    joined(v.map_values(|t: TxInV| sp_render_txin(t)), " "@)
}

/// Transaction output renderings joined with spaces.
pub open spec fn sp_txout_list(v: Seq<TxOutV>) -> Seq<char> {
    joined(v.map_values(|t: TxOutV| sp_render_txout(t)), " "@)
}

/// Missing-redeemer pairs, each as `(purpose hash)`, joined with spaces.
pub open spec fn sp_redeemer_list(v: Seq<(PlutusPurpose, Seq<u8>)>) -> Seq<char> {
    joined(
        v.map_values(
            |t: (PlutusPurpose, Seq<u8>)|
                spec_display_tuple(t.0.spec_render(), sp_render_script_hash(t.1)),
        ),
        " "@,
    )
}

/// Oversize-output triples, each as `(actual max output)`, joined with
/// spaces.
pub open spec fn sp_txout_triple_list(v: Seq<(u64, u64, TxOutV)>) -> Seq<char> {
    joined(
        v.map_values(
            |t: (u64, u64, TxOutV)|
                spec_display_triple(dec_of(t.0 as int), dec_of(t.1 as int), sp_render_txout(t.2)),
        ),
        " "@,
    )
}

/// Output-and-minimum pairs, each as `(output coin)`, joined with spaces.
pub open spec fn sp_txout_coin_list(v: Seq<(TxOutV, u64)>) -> Seq<char> {
    joined(
        v.map_values(
            |t: (TxOutV, u64)| spec_display_tuple(sp_render_txout(t.0), dec_of(t.1 as int)),
        ),
        " "@,
    )
}

/// UTxO entries, each as `(input output)`, joined with spaces.
pub open spec fn sp_utxo_pairs(v: Seq<(TxInV, TxOutV)>) -> Seq<char> {
    joined(
        v.map_values(
            |t: (TxInV, TxOutV)| spec_display_tuple(sp_render_txin(t.0), sp_render_txout(t.1)),
        ),
        " "@,
    )
}

impl DisplayScriptHash {
    /// Renders the script hash the way the error output spells it.
    pub fn render(&self) -> (r: String)
        ensures
            r@ == sp_render_script_hash(self@),
    {
        let mut s = String::from_str("ScriptHash \"");
        let h = hex_encode(&self.0);
        s.append(h.as_str());
        s.append("\"");
        s
    }
}

impl DisplayVKeyWitness {
    /// Renders the key witness with its key and signature in hex.
    pub fn render(&self) -> (r: String)
        ensures
            r@ == sp_render_vkey_witness(self@),
    {
        let mut s = String::from_str("VKeyWitness { vkey: ");
        let v = hex_encode(&self.vkey);
        s.append(v.as_str());
        s.append(", signature: ");
        let g = hex_encode(&self.signature);
        s.append(g.as_str());
        s.append(" }");
        s
    }
}

impl ScriptIntegrityHash {
    /// Renders the script integrity hash.
    pub fn render(&self) -> (r: String)
        ensures
            r@ == sp_render_script_integrity(self@),
    {
        let mut s = String::from_str("ScriptIntegrityHash(");
        let h = hex_encode(&self.0);
        s.append(h.as_str());
        s.append(")");
        s
    }
}

impl SerializableTxIn {
    /// Renders the transaction input.
    pub fn render(&self) -> (r: String)
        ensures
            r@ == sp_render_txin(self@),
    {
        let mut s = String::from_str("TxIn { id: ");
        let h = hex_encode(&self.tx_id);
        s.append(h.as_str());
        s.append(", index: ");
        let d = u64_to_dec(self.index);
        s.append(d.as_str());
        s.append(" }");
        s
    }
}

impl SerializableTxOut {
    /// Renders the transaction output.
    pub fn render(&self) -> (r: String)
        ensures
            r@ == sp_render_txout(self@),
    {
        let mut s = String::from_str("TxOut { address: ");
        let h = hex_encode(&self.address);
        s.append(h.as_str());
        s.append(", coin: ");
        let d = u64_to_dec(self.coin);
        s.append(d.as_str());
        s.append(" }");
        s
    }
}

impl DisplayValue {
    /// Renders the value.
    pub fn render(&self) -> (r: String)
        ensures
            r@ == sp_render_value(self@),
    {
        let mut s = String::from_str("MaryValue (Coin ");
        let d = u64_to_dec(self.coin);
        s.append(d.as_str());
        s.append(") (MultiAsset (fromList []))");
        s
    }
}

impl DisplayExUnits {
    /// Renders the execution units.
    pub fn render(&self) -> (r: String)
        ensures
            r@ == sp_render_exunits(self@),
    {
        let mut s = String::from_str("ExUnits {exUnitsMem = ");
        let m = u64_to_dec(self.mem);
        s.append(m.as_str());
        s.append(", exUnitsSteps = ");
        let t = u64_to_dec(self.steps);
        s.append(t.as_str());
        s.append(" }");
        s
    }
}

/// Renders an optional slot number in the strict-maybe form.
pub fn render_opt_dec(o: &Option<u64>) -> (r: String)
    ensures
        r@ == sp_opt_dec(*o),
{
    match o {
        Option::Some(n) => {
            let mut s = String::from_str("SJust (SlotNo ");
            let d = u64_to_dec(*n);
            s.append(d.as_str());
            s.append(")");
            s
        },
        Option::None => String::from_str("SNothing"),
    }
}

impl ValidityInterval {
    /// Renders the validity interval.
    pub fn render(&self) -> (r: String)
        ensures
            r@ == sp_render_validity(self@),
    {
        let mut s = String::from_str("ValidityInterval {invalidBefore = ");
        let a = render_opt_dec(&self.invalid_before);
        s.append(a.as_str());
        s.append(", invalidHereafter = ");
        let b = render_opt_dec(&self.invalid_hereafter);
        s.append(b.as_str());
        s.append("}");
        s
    }
}

/// Renders raw byte strings as hex, joined with spaces.
pub fn render_hex_list(v: &Vec<Vec<u8>>) -> (r: String)
    ensures
        r@ == sp_hex_list(v.deep_view()),
{
    let mut parts: Vec<String> = Vec::new();
    let mut i: usize = 0;
    while i < v.len()
        invariant
            i <= v.len(),
            parts.len() == i,
            forall|k: int| 0 <= k < i ==> (#[trigger] parts@[k])@ == hex_of(v@[k]@),
        decreases v.len() - i,
    {
        parts.push(hex_encode(&v[i]));
        i = i + 1;
    }
    proof {
        let f = |h: Seq<u8>| hex_of(h);
        assert forall|k: int| 0 <= k < parts.deep_view().len() implies parts.deep_view()[k]
            == v.deep_view().map_values(f)[k] by {
            assert(parts.deep_view()[k] == parts@[k]@);
            assert(v.deep_view()[k] == v@[k]@);
        }
        assert(parts.deep_view() =~= v.deep_view().map_values(f));
        assert(v.deep_view().map_values(f) =~= v.deep_view().map_values(|h: Seq<u8>| hex_of(h)));
    }
    crate::render::join_with(&parts, " ")
}

/// Renders script hashes, joined with spaces.
pub fn render_script_hash_list(v: &Vec<DisplayScriptHash>) -> (r: String)
    ensures
        r@ == sp_script_hash_list(v.deep_view()),
{
    let mut parts: Vec<String> = Vec::new();
    let mut i: usize = 0;
    while i < v.len()
        invariant
            i <= v.len(),
            parts.len() == i,
            forall|k: int|
                0 <= k < i ==> (#[trigger] parts@[k])@ == sp_render_script_hash(v@[k]@),
        decreases v.len() - i,
    {
        parts.push(v[i].render());
        i = i + 1;
    }
    proof {
        let f = |h: Seq<u8>| sp_render_script_hash(h);
        assert forall|k: int| 0 <= k < parts.deep_view().len() implies parts.deep_view()[k]
            == v.deep_view().map_values(f)[k] by {
            assert(parts.deep_view()[k] == parts@[k]@);
            assert(v.deep_view()[k] == v@[k]@);
        }
        assert(parts.deep_view() =~= v.deep_view().map_values(f));
        assert(v.deep_view().map_values(f) =~= v.deep_view().map_values(
            |h: Seq<u8>| sp_render_script_hash(h),
        ));
    }
    crate::render::join_with(&parts, " ")
}

/// Renders script purposes, joined with spaces.
pub fn render_purpose_list(v: &Vec<PlutusPurpose>) -> (r: String)
    ensures
        r@ == sp_purpose_list(v.deep_view()),
{
    let mut parts: Vec<String> = Vec::new();
    let mut i: usize = 0;
    while i < v.len()
        invariant
            i <= v.len(),
            parts.len() == i,
            forall|k: int| 0 <= k < i ==> (#[trigger] parts@[k])@ == v@[k].spec_render(),
        decreases v.len() - i,
    {
        parts.push(v[i].render());
        i = i + 1;
    }
    proof {
        let f = |p: PlutusPurpose| p.spec_render();
        assert forall|k: int| 0 <= k < parts.deep_view().len() implies parts.deep_view()[k]
            == v.deep_view().map_values(f)[k] by {
            assert(parts.deep_view()[k] == parts@[k]@);
            assert(v.deep_view()[k] == v@[k]);
        }
        assert(parts.deep_view() =~= v.deep_view().map_values(f));
        assert(v.deep_view().map_values(f) =~= v.deep_view().map_values(
            |p: PlutusPurpose| p.spec_render(),
        ));
    }
    crate::render::join_with(&parts, " ")
}

/// Renders transaction inputs, joined with spaces.
pub fn render_txin_list(v: &Vec<SerializableTxIn>) -> (r: String)
    ensures
        r@ == sp_txin_list(v.deep_view()),
{
    let mut parts: Vec<String> = Vec::new();
    let mut i: usize = 0;
    while i < v.len()
        invariant
            i <= v.len(),
            parts.len() == i,
            forall|k: int| 0 <= k < i ==> (#[trigger] parts@[k])@ == sp_render_txin(v@[k]@),
        decreases v.len() - i,
    {
        parts.push(v[i].render());
        i = i + 1;
    }
    proof {
        let f = |t: TxInV| sp_render_txin(t);
        assert forall|k: int| 0 <= k < parts.deep_view().len() implies parts.deep_view()[k]
            == v.deep_view().map_values(f)[k] by {
            assert(parts.deep_view()[k] == parts@[k]@);
            assert(v.deep_view()[k] == v@[k]@);
        }
        assert(parts.deep_view() =~= v.deep_view().map_values(f));
        assert(v.deep_view().map_values(f) =~= v.deep_view().map_values(
            |t: TxInV| sp_render_txin(t),
        ));
    }
    crate::render::join_with(&parts, " ")
}

/// Renders transaction outputs, joined with spaces.
pub fn render_txout_list(v: &Vec<SerializableTxOut>) -> (r: String)
    ensures
        r@ == sp_txout_list(v.deep_view()),
{
    let mut parts: Vec<String> = Vec::new();
    let mut i: usize = 0;
    while i < v.len()
        invariant
            i <= v.len(),
            parts.len() == i,
            forall|k: int| 0 <= k < i ==> (#[trigger] parts@[k])@ == sp_render_txout(v@[k]@),
        decreases v.len() - i,
    {
        parts.push(v[i].render());
        i = i + 1;
    }
    proof {
        let f = |t: TxOutV| sp_render_txout(t);
        assert forall|k: int| 0 <= k < parts.deep_view().len() implies parts.deep_view()[k]
            == v.deep_view().map_values(f)[k] by {
            assert(parts.deep_view()[k] == parts@[k]@);
            assert(v.deep_view()[k] == v@[k]@);
        }
        assert(parts.deep_view() =~= v.deep_view().map_values(f));
        assert(v.deep_view().map_values(f) =~= v.deep_view().map_values(
            |t: TxOutV| sp_render_txout(t),
        ));
    }
    crate::render::join_with(&parts, " ")
}

/// Renders missing-redeemer pairs, joined with spaces.
pub fn render_redeemer_list(v: &Vec<(PlutusPurpose, DisplayScriptHash)>) -> (r: String)
    ensures
        r@ == sp_redeemer_list(v.deep_view()),
{
    let mut parts: Vec<String> = Vec::new();
    let mut i: usize = 0;
    while i < v.len()
        invariant
            i <= v.len(),
            parts.len() == i,
            forall|k: int|
                0 <= k < i ==> (#[trigger] parts@[k])@ == spec_display_tuple(
                    v@[k].0.spec_render(),
                    sp_render_script_hash(v@[k].1@),
                ),
        decreases v.len() - i,
    {
        let a = v[i].0.render();
        let b = v[i].1.render();
        parts.push(crate::render::display_tuple(&(a, b)));
        i = i + 1;
    }
    proof {
        let f = |t: (PlutusPurpose, Seq<u8>)|
            spec_display_tuple(t.0.spec_render(), sp_render_script_hash(t.1));
        assert forall|k: int| 0 <= k < parts.deep_view().len() implies parts.deep_view()[k]
            == v.deep_view().map_values(f)[k] by {
            assert(parts.deep_view()[k] == parts@[k]@);
            assert(v.deep_view()[k] == (v@[k].0, v@[k].1@));
        }
        assert(parts.deep_view() =~= v.deep_view().map_values(f));
        assert(v.deep_view().map_values(f) =~= v.deep_view().map_values(
            |t: (PlutusPurpose, Seq<u8>)|
                spec_display_tuple(t.0.spec_render(), sp_render_script_hash(t.1)),
        ));
    }
    crate::render::join_with(&parts, " ")
}

/// Renders oversize-output triples, joined with spaces.
pub fn render_txout_triple_list(v: &Vec<(u64, u64, SerializableTxOut)>) -> (r: String)
    ensures
        r@ == sp_txout_triple_list(v.deep_view()),
{
    let mut parts: Vec<String> = Vec::new();
    let mut i: usize = 0;
    while i < v.len()
        invariant
            i <= v.len(),
            parts.len() == i,
            forall|k: int|
                0 <= k < i ==> (#[trigger] parts@[k])@ == spec_display_triple(
                    dec_of(v@[k].0 as int),
                    dec_of(v@[k].1 as int),
                    sp_render_txout(v@[k].2@),
                ),
        decreases v.len() - i,
    {
        let a = u64_to_dec(v[i].0);
        let b = u64_to_dec(v[i].1);
        let c = v[i].2.render();
        parts.push(crate::render::display_triple(&(a, b, c)));
        i = i + 1;
    }
    proof {
        let f = |t: (u64, u64, TxOutV)|
            spec_display_triple(dec_of(t.0 as int), dec_of(t.1 as int), sp_render_txout(t.2));
        assert forall|k: int| 0 <= k < parts.deep_view().len() implies parts.deep_view()[k]
            == v.deep_view().map_values(f)[k] by {
            assert(parts.deep_view()[k] == parts@[k]@);
            assert(v.deep_view()[k] == (v@[k].0, v@[k].1, v@[k].2@));
        }
        assert(parts.deep_view() =~= v.deep_view().map_values(f));
        assert(v.deep_view().map_values(f) =~= v.deep_view().map_values(
            |t: (u64, u64, TxOutV)|
                spec_display_triple(dec_of(t.0 as int), dec_of(t.1 as int), sp_render_txout(t.2)),
        ));
    }
    crate::render::join_with(&parts, " ")
}

/// Renders output-and-minimum pairs, joined with spaces.
pub fn render_txout_coin_list(v: &Vec<(SerializableTxOut, u64)>) -> (r: String)
    ensures
        r@ == sp_txout_coin_list(v.deep_view()),
{
    let mut parts: Vec<String> = Vec::new();
    let mut i: usize = 0;
    while i < v.len()
        invariant
            i <= v.len(),
            parts.len() == i,
            forall|k: int|
                0 <= k < i ==> (#[trigger] parts@[k])@ == spec_display_tuple(
                    sp_render_txout(v@[k].0@),
                    dec_of(v@[k].1 as int),
                ),
        decreases v.len() - i,
    {
        let a = v[i].0.render();
        let b = u64_to_dec(v[i].1);
        parts.push(crate::render::display_tuple(&(a, b)));
        i = i + 1;
    }
    proof {
        let f = |t: (TxOutV, u64)| spec_display_tuple(sp_render_txout(t.0), dec_of(t.1 as int));
        assert forall|k: int| 0 <= k < parts.deep_view().len() implies parts.deep_view()[k]
            == v.deep_view().map_values(f)[k] by {
            assert(parts.deep_view()[k] == parts@[k]@);
            assert(v.deep_view()[k] == (v@[k].0@, v@[k].1));
        }
        assert(parts.deep_view() =~= v.deep_view().map_values(f));
        assert(v.deep_view().map_values(f) =~= v.deep_view().map_values(
            |t: (TxOutV, u64)| spec_display_tuple(sp_render_txout(t.0), dec_of(t.1 as int)),
        ));
    }
    crate::render::join_with(&parts, " ")
}

/// The rendering of a UTxO rule failure.
pub open spec fn sp_render_utxo_failure(f: UtxoFailureV) -> Seq<char>
    decreases f,
{
    match f {
        UtxoFailureV::UtxosFailure(e) => "UtxosFailure ("@ + sp_render_utxo_failure(*e) + ")"@,
        UtxoFailureV::BadInputsUTxO(v) => "BadInputsUTxO ("@ + sp_txin_list(v) + ")"@,
        UtxoFailureV::OutsideValidityIntervalUTxO(vi, s) => "OutsideValidityIntervalUTxO ("@
            + sp_render_validity(vi) + ") (SlotNo "@ + dec_of(s as int) + ")"@,
        UtxoFailureV::MaxTxSizeUTxO(n) => "MaxTxSizeUTxO "@ + dec_of(n as int),
        UtxoFailureV::InputSetEmptyUTxO => "InputSetEmptyUTxO"@,
        UtxoFailureV::FeeTooSmallUTxO(a, b) => "FeeTooSmallUTxO (Coin "@ + dec_of(a as int)
            + ") (Coin "@ + dec_of(b as int) + ")"@,
        UtxoFailureV::ValueNotConservedUTxO(a, b) => "ValueNotConservedUTxO ("@
            + sp_render_value(a) + ") ("@ + sp_render_value(b) + ")"@,
        UtxoFailureV::WrongNetwork(n, v) => "WrongNetwork ("@ + n.spec_render() + ") ("@
            + sp_hex_list(v) + ")"@,
        UtxoFailureV::WrongNetworkWithdrawal(n, v) => "WrongNetworkWithdrawal ("@
            + n.spec_render() + ") ("@ + sp_hex_list(v) + ")"@,
        UtxoFailureV::OutputTooSmallUTxO(v) => "OutputTooSmallUTxO ("@ + sp_txout_list(v) + ")"@,
        UtxoFailureV::OutputBootAddrAttrsTooBig(v) => "OutputBootAddrAttrsTooBig ("@
            + sp_txout_list(v) + ")"@,
        UtxoFailureV::OutputTooBigUTxO(v) => "OutputTooBigUTxO ("@ + sp_txout_triple_list(v)
            + ")"@,
        UtxoFailureV::InsufficientCollateral(a, b) => "InsufficientCollateral (Coin "@
            + dec_of(a as int) + ") (Coin "@ + dec_of(b as int) + ")"@,
        UtxoFailureV::ScriptsNotPaidUTxO(u) => "ScriptsNotPaidUTxO (Utxo("@ + sp_utxo_pairs(u)
            + "))"@,
        UtxoFailureV::ExUnitsTooBigUTxO(e) => "ExUnitsTooBigUTxO ("@ + sp_render_exunits(e)
            + ")"@,
        UtxoFailureV::CollateralContainsNonADA(v) => "CollateralContainsNonADA ("@
            + sp_render_value(v) + ")"@,
        UtxoFailureV::WrongNetworkInTxBody => "WrongNetworkInTxBody"@,
        UtxoFailureV::OutsideForecast(s) => "OutsideForecast (SlotNo "@ + dec_of(s as int)
            + ")"@,
        UtxoFailureV::TooManyCollateralInputs(n) => "TooManyCollateralInputs "@
            + dec_of(n as int),
        UtxoFailureV::NoCollateralInputs => "NoCollateralInputs"@,
        UtxoFailureV::IncorrectTotalCollateralField(a, b) => "IncorrectTotalCollateralField (Coin "@
            + dec_of(a as int) + ") (Coin "@ + dec_of(b as int) + ")"@,
        UtxoFailureV::BabbageOutputTooSmallUTxO(v) => "BabbageOutputTooSmallUTxO ("@
            + sp_txout_coin_list(v) + ")"@,
        UtxoFailureV::BabbageNonDisjointRefInputs(v) => "BabbageNonDisjointRefInputs ("@
            + sp_txin_list(v) + ")"@,
    }
}

/// The rendering of a witnessing rule failure.
pub open spec fn sp_render_utxow_failure(f: UtxowFailureV) -> Seq<char> {
    match f {
        UtxowFailureV::UtxoFailure(e) => "UtxoFailure ("@ + sp_render_utxo_failure(e) + ")"@,
        UtxowFailureV::InvalidWitnessesUTXOW(w) => "InvalidWitnessesUTXOW ("@
            + sp_render_vkey_witness(w) + ")"@,
        UtxowFailureV::MissingVKeyWitnessesUTXOW(w) => "MissingVKeyWitnessesUTXOW ("@
            + sp_render_vkey_witness(w) + ")"@,
        UtxowFailureV::MissingScriptWitnessesUTXOW(h) => "MissingScriptWitnessesUTXOW ("@
            + sp_render_script_hash(h) + ")"@,
        UtxowFailureV::ScriptWitnessNotValidatingUTXOW(h) => "ScriptWitnessNotValidatingUTXOW ("@
            + sp_render_script_hash(h) + ")"@,
        UtxowFailureV::MissingTxBodyMetadataHash(b) => "MissingTxBodyMetadataHash ("@ + hex_of(b)
            + ")"@,
        UtxowFailureV::MissingTxMetadata(b) => "MissingTxMetadata ("@ + hex_of(b) + ")"@,
        UtxowFailureV::ConflictingMetadataHash(a, b) => "ConflictingMetadataHash ("@ + hex_of(a)
            + ") ("@ + hex_of(b) + ")"@,
        UtxowFailureV::InvalidMetadata => "InvalidMetadata"@,
        UtxowFailureV::ExtraneousScriptWitnessesUTXOW(h) => "ExtraneousScriptWitnessesUTXOW ("@
            + sp_render_script_hash(h) + ")"@,
        UtxowFailureV::MissingRedeemers(v) => "MissingRedeemers ("@ + sp_redeemer_list(v) + ")"@,
        UtxowFailureV::MissingRequiredDatums(a, b) => "MissingRequiredDatums ("@ + sp_hex_list(a)
            + ") ("@ + sp_hex_list(b) + ")"@,
        UtxowFailureV::NotAllowedSupplementalDatums(a, b) => "NotAllowedSupplementalDatums ("@
            + sp_hex_list(a) + ") ("@ + sp_hex_list(b) + ")"@,
        UtxowFailureV::PPViewHashesDontMatch(o) => match o {
            Option::Some(h) => "PPViewHashesDontMatch (SJust ("@ + sp_render_script_integrity(h)
                + "))"@,
            Option::None => "PPViewHashesDontMatch SNothing"@,
        },
        UtxowFailureV::UnspendableUTxONoDatumHash(v) => "UnspendableUTxONoDatumHash ("@
            + sp_txin_list(v) + ")"@,
        UtxowFailureV::ExtraRedeemers(v) => "ExtraRedeemers ("@ + sp_purpose_list(v) + ")"@,
        UtxowFailureV::MalformedScriptWitnesses(v) => "MalformedScriptWitnesses ("@
            + sp_script_hash_list(v) + ")"@,
        UtxowFailureV::MalformedReferenceScripts(v) => "MalformedReferenceScripts ("@
            + sp_script_hash_list(v) + ")"@,
    }
}

/// The rendering of a transaction-level failure.
pub open spec fn sp_render_pred_error(e: PredErrorV) -> Seq<char> {
    match e {
        PredErrorV::UtxowFailure(f) => "ConwayUtxowFailure ("@ + sp_render_utxow_failure(f)
            + ")"@,
        PredErrorV::CertsFailure(f) => "ConwayCertsFailure ("@ + sp_render_utxow_failure(f)
            + ")"@,
        PredErrorV::GovFailure(f) => "ConwayGovFailure ("@ + sp_render_utxow_failure(f) + ")"@,
        PredErrorV::WdrlNotDelegatedToDRep(h) => "ConwayWdrlNotDelegatedToDRep ("@ + hex_of(h)
            + ")"@,
        PredErrorV::TreasuryValueMismatch(a, b) => "ConwayTreasuryValueMismatch (Coin "@
            + dec_of(a as int) + ") (Coin "@ + dec_of(b as int) + ")"@,
        PredErrorV::TxRefScriptsSizeTooBig(n) => "ConwayTxRefScriptsSizeTooBig "@
            + dec_of(n as int),
        PredErrorV::MempoolFailure(s) => "ConwayMempoolFailure \""@ + s + "\""@,
    }
}

impl ConwayUtxoPredFailure {
    /// Renders the UTxO rule failure as its constructor string.
    pub fn render(&self) -> (r: String)
        ensures
            r@ == sp_render_utxo_failure(self@),
        decreases self,
    {
        match self {
            ConwayUtxoPredFailure::UtxosFailure(e) => {
                let mut s = String::from_str("UtxosFailure (");
                let inner = (&**e).render();
                s.append(inner.as_str());
                s.append(")");
                s
            },
            ConwayUtxoPredFailure::BadInputsUTxO(v) => {
                let mut s = String::from_str("BadInputsUTxO (");
                let inner = render_txin_list(v);
                s.append(inner.as_str());
                s.append(")");
                s
            },
            ConwayUtxoPredFailure::OutsideValidityIntervalUTxO(vi, sl) => {
                let mut s = String::from_str("OutsideValidityIntervalUTxO (");
                let a = vi.render();
                s.append(a.as_str());
                s.append(") (SlotNo ");
                let b = u64_to_dec(*sl);
                s.append(b.as_str());
                s.append(")");
                s
            },
            ConwayUtxoPredFailure::MaxTxSizeUTxO(n) => {
                let mut s = String::from_str("MaxTxSizeUTxO ");
                let a = u64_to_dec(*n);
                s.append(a.as_str());
                s
            },
            ConwayUtxoPredFailure::InputSetEmptyUTxO() => String::from_str("InputSetEmptyUTxO"),
            ConwayUtxoPredFailure::FeeTooSmallUTxO(a, b) => {
                let mut s = String::from_str("FeeTooSmallUTxO (Coin ");
                let x = u64_to_dec(*a);
                s.append(x.as_str());
                s.append(") (Coin ");
                let y = u64_to_dec(*b);
                s.append(y.as_str());
                s.append(")");
                s
            },
            ConwayUtxoPredFailure::ValueNotConservedUTxO(a, b) => {
                let mut s = String::from_str("ValueNotConservedUTxO (");
                let x = a.render();
                s.append(x.as_str());
                s.append(") (");
                let y = b.render();
                s.append(y.as_str());
                s.append(")");
                s
            },
            ConwayUtxoPredFailure::WrongNetwork(n, v) => {
                let mut s = String::from_str("WrongNetwork (");
                let x = n.render();
                s.append(x.as_str());
                s.append(") (");
                let y = render_hex_list(v);
                s.append(y.as_str());
                s.append(")");
                s
            },
            ConwayUtxoPredFailure::WrongNetworkWithdrawal(n, v) => {
                let mut s = String::from_str("WrongNetworkWithdrawal (");
                let x = n.render();
                s.append(x.as_str());
                s.append(") (");
                let y = render_hex_list(v);
                s.append(y.as_str());
                s.append(")");
                s
            },
            ConwayUtxoPredFailure::OutputTooSmallUTxO(v) => {
                let mut s = String::from_str("OutputTooSmallUTxO (");
                let y = render_txout_list(v);
                s.append(y.as_str());
                s.append(")");
                s
            },
            ConwayUtxoPredFailure::OutputBootAddrAttrsTooBig(v) => {
                let mut s = String::from_str("OutputBootAddrAttrsTooBig (");
                let y = render_txout_list(v);
                s.append(y.as_str());
                s.append(")");
                s
            },
            ConwayUtxoPredFailure::OutputTooBigUTxO(v) => {
                let mut s = String::from_str("OutputTooBigUTxO (");
                let y = render_txout_triple_list(v);
                s.append(y.as_str());
                s.append(")");
                s
            },
            ConwayUtxoPredFailure::InsufficientCollateral(a, b) => {
                let mut s = String::from_str("InsufficientCollateral (Coin ");
                let x = u64_to_dec(*a);
                s.append(x.as_str());
                s.append(") (Coin ");
                let y = u64_to_dec(*b);
                s.append(y.as_str());
                s.append(")");
                s
            },
            ConwayUtxoPredFailure::ScriptsNotPaidUTxO(u) => {
                let mut s = String::from_str("ScriptsNotPaidUTxO (Utxo(");
                let y = render_utxo_pairs(&u.0);
                s.append(y.as_str());
                s.append("))");
                s
            },
            ConwayUtxoPredFailure::ExUnitsTooBigUTxO(e) => {
                let mut s = String::from_str("ExUnitsTooBigUTxO (");
                let y = e.render();
                s.append(y.as_str());
                s.append(")");
                s
            },
            ConwayUtxoPredFailure::CollateralContainsNonADA(v) => {
                let mut s = String::from_str("CollateralContainsNonADA (");
                let y = v.render();
                s.append(y.as_str());
                s.append(")");
                s
            },
            ConwayUtxoPredFailure::WrongNetworkInTxBody() => String::from_str(
                "WrongNetworkInTxBody",
            ),
            ConwayUtxoPredFailure::OutsideForecast(sl) => {
                let mut s = String::from_str("OutsideForecast (SlotNo ");
                let y = u64_to_dec(*sl);
                s.append(y.as_str());
                s.append(")");
                s
            },
            ConwayUtxoPredFailure::TooManyCollateralInputs(n) => {
                let mut s = String::from_str("TooManyCollateralInputs ");
                let y = u64_to_dec(*n);
                s.append(y.as_str());
                s
            },
            ConwayUtxoPredFailure::NoCollateralInputs() => String::from_str("NoCollateralInputs"),
            ConwayUtxoPredFailure::IncorrectTotalCollateralField(a, b) => {
                let mut s = String::from_str("IncorrectTotalCollateralField (Coin ");
                let x = u64_to_dec(*a);
                s.append(x.as_str());
                s.append(") (Coin ");
                let y = u64_to_dec(*b);
                s.append(y.as_str());
                s.append(")");
                s
            },
            ConwayUtxoPredFailure::BabbageOutputTooSmallUTxO(v) => {
                let mut s = String::from_str("BabbageOutputTooSmallUTxO (");
                let y = render_txout_coin_list(v);
                s.append(y.as_str());
                s.append(")");
                s
            },
            ConwayUtxoPredFailure::BabbageNonDisjointRefInputs(v) => {
                let mut s = String::from_str("BabbageNonDisjointRefInputs (");
                let y = render_txin_list(v);
                s.append(y.as_str());
                s.append(")");
                s
            },
        }
    }
}

impl ConwayUtxoWPredFailure {
    /// Renders the witnessing rule failure as its constructor string.
    pub fn render(&self) -> (r: String)
        ensures
            r@ == sp_render_utxow_failure(self@),
    {
        match self {
            ConwayUtxoWPredFailure::UtxoFailure(e) => {
                let mut s = String::from_str("UtxoFailure (");
                let inner = e.render();
                s.append(inner.as_str());
                s.append(")");
                s
            },
            ConwayUtxoWPredFailure::InvalidWitnessesUTXOW(w) => {
                let mut s = String::from_str("InvalidWitnessesUTXOW (");
                let y = w.render();
                s.append(y.as_str());
                s.append(")");
                s
            },
            ConwayUtxoWPredFailure::MissingVKeyWitnessesUTXOW(w) => {
                let mut s = String::from_str("MissingVKeyWitnessesUTXOW (");
                let y = w.render();
                s.append(y.as_str());
                s.append(")");
                s
            },
            ConwayUtxoWPredFailure::MissingScriptWitnessesUTXOW(h) => {
                let mut s = String::from_str("MissingScriptWitnessesUTXOW (");
                let y = h.render();
                s.append(y.as_str());
                s.append(")");
                s
            },
            ConwayUtxoWPredFailure::ScriptWitnessNotValidatingUTXOW(h) => {
                let mut s = String::from_str("ScriptWitnessNotValidatingUTXOW (");
                let y = h.render();
                s.append(y.as_str());
                s.append(")");
                s
            },
            ConwayUtxoWPredFailure::MissingTxBodyMetadataHash(b) => {
                let mut s = String::from_str("MissingTxBodyMetadataHash (");
                let y = hex_encode(b);
                s.append(y.as_str());
                s.append(")");
                s
            },
            ConwayUtxoWPredFailure::MissingTxMetadata(b) => {
                let mut s = String::from_str("MissingTxMetadata (");
                let y = hex_encode(b);
                s.append(y.as_str());
                s.append(")");
                s
            },
            ConwayUtxoWPredFailure::ConflictingMetadataHash(a, b) => {
                let mut s = String::from_str("ConflictingMetadataHash (");
                let x = hex_encode(a);
                s.append(x.as_str());
                s.append(") (");
                let y = hex_encode(b);
                s.append(y.as_str());
                s.append(")");
                s
            },
            ConwayUtxoWPredFailure::InvalidMetadata() => String::from_str("InvalidMetadata"),
            ConwayUtxoWPredFailure::ExtraneousScriptWitnessesUTXOW(h) => {
                let mut s = String::from_str("ExtraneousScriptWitnessesUTXOW (");
                let y = h.render();
                s.append(y.as_str());
                s.append(")");
                s
            },
            ConwayUtxoWPredFailure::MissingRedeemers(v) => {
                let mut s = String::from_str("MissingRedeemers (");
                let y = render_redeemer_list(v);
                s.append(y.as_str());
                s.append(")");
                s
            },
            ConwayUtxoWPredFailure::MissingRequiredDatums(a, b) => {
                let mut s = String::from_str("MissingRequiredDatums (");
                let x = render_hex_list(a);
                s.append(x.as_str());
                s.append(") (");
                let y = render_hex_list(b);
                s.append(y.as_str());
                s.append(")");
                s
            },
            ConwayUtxoWPredFailure::NotAllowedSupplementalDatums(a, b) => {
                let mut s = String::from_str("NotAllowedSupplementalDatums (");
                let x = render_hex_list(a);
                s.append(x.as_str());
                s.append(") (");
                let y = render_hex_list(b);
                s.append(y.as_str());
                s.append(")");
                s
            },
            ConwayUtxoWPredFailure::PPViewHashesDontMatch(o) => {
                match o {
                    Option::Some(h) => {
                        let mut s = String::from_str("PPViewHashesDontMatch (SJust (");
                        let y = h.render();
                        s.append(y.as_str());
                        s.append("))");
                        s
                    },
                    Option::None => String::from_str("PPViewHashesDontMatch SNothing"),
                }
            },
            ConwayUtxoWPredFailure::UnspendableUTxONoDatumHash(v) => {
                let mut s = String::from_str("UnspendableUTxONoDatumHash (");
                let y = render_txin_list(v);
                s.append(y.as_str());
                s.append(")");
                s
            },
            ConwayUtxoWPredFailure::ExtraRedeemers(v) => {
                let mut s = String::from_str("ExtraRedeemers (");
                let y = render_purpose_list(v);
                s.append(y.as_str());
                s.append(")");
                s
            },
            ConwayUtxoWPredFailure::MalformedScriptWitnesses(v) => {
                let mut s = String::from_str("MalformedScriptWitnesses (");
                let y = render_script_hash_list(v);
                s.append(y.as_str());
                s.append(")");
                s
            },
            ConwayUtxoWPredFailure::MalformedReferenceScripts(v) => {
                let mut s = String::from_str("MalformedReferenceScripts (");
                let y = render_script_hash_list(v);
                s.append(y.as_str());
                s.append(")");
                s
            },
        }
    }
}

impl ApplyConwayTxPredError {
    /// Renders the transaction-level failure as its constructor string.
    pub fn render(&self) -> (r: String)
        ensures
            r@ == sp_render_pred_error(self@),
    {
        match self {
            ApplyConwayTxPredError::UtxowFailure(f) => {
                let mut s = String::from_str("ConwayUtxowFailure (");
                let y = f.render();
                s.append(y.as_str());
                s.append(")");
                s
            },
            ApplyConwayTxPredError::CertsFailure(f) => {
                let mut s = String::from_str("ConwayCertsFailure (");
                let y = f.render();
                s.append(y.as_str());
                s.append(")");
                s
            },
            ApplyConwayTxPredError::GovFailure(f) => {
                let mut s = String::from_str("ConwayGovFailure (");
                let y = f.render();
                s.append(y.as_str());
                s.append(")");
                s
            },
            ApplyConwayTxPredError::WdrlNotDelegatedToDRep(h) => {
                let mut s = String::from_str("ConwayWdrlNotDelegatedToDRep (");
                let y = hex_encode(h);
                s.append(y.as_str());
                s.append(")");
                s
            },
            ApplyConwayTxPredError::TreasuryValueMismatch(a, b) => {
                let mut s = String::from_str("ConwayTreasuryValueMismatch (Coin ");
                let x = u64_to_dec(*a);
                s.append(x.as_str());
                s.append(") (Coin ");
                let y = u64_to_dec(*b);
                s.append(y.as_str());
                s.append(")");
                s
            },
            ApplyConwayTxPredError::TxRefScriptsSizeTooBig(n) => {
                let mut s = String::from_str("ConwayTxRefScriptsSizeTooBig ");
                let y = u64_to_dec(*n);
                s.append(y.as_str());
                s
            },
            ApplyConwayTxPredError::MempoolFailure(m) => {
                let mut s = String::from_str("ConwayMempoolFailure \"");
                s.append(m.as_str());
                s.append("\"");
                s
            },
        }
    }
}

/// Renders UTxO entries, joined with spaces.
pub fn render_utxo_pairs(v: &Vec<(SerializableTxIn, SerializableTxOut)>) -> (r: String)
    ensures
        r@ == sp_utxo_pairs(v.deep_view()),
{
    let mut parts: Vec<String> = Vec::new();
    let mut i: usize = 0;
    while i < v.len()
        invariant
            i <= v.len(),
            parts.len() == i,
            forall|k: int|
                0 <= k < i ==> (#[trigger] parts@[k])@ == spec_display_tuple(
                    sp_render_txin(v@[k].0@),
                    sp_render_txout(v@[k].1@),
                ),
        decreases v.len() - i,
    {
        let a = v[i].0.render();
        let b = v[i].1.render();
        parts.push(crate::render::display_tuple(&(a, b)));
        i = i + 1;
    }
    proof {
        let f = |t: (TxInV, TxOutV)| spec_display_tuple(sp_render_txin(t.0), sp_render_txout(t.1));
        assert forall|k: int| 0 <= k < parts.deep_view().len() implies parts.deep_view()[k]
            == v.deep_view().map_values(f)[k] by {
            assert(parts.deep_view()[k] == parts@[k]@);
            assert(v.deep_view()[k] == (v@[k].0@, v@[k].1@));
        }
        assert(parts.deep_view() =~= v.deep_view().map_values(f));
        assert(v.deep_view().map_values(f) =~= v.deep_view().map_values(
            |t: (TxInV, TxOutV)| spec_display_tuple(sp_render_txin(t.0), sp_render_txout(t.1)),
        ));
    }
    crate::render::join_with(&parts, " ")
}

} // verus!
