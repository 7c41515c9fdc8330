//! The executable native decoder for rejection reasons, proved equal to
//! the specification-level grammar in `reject_codec`.

use vstd::prelude::*;

use crate::cbor::read_bytes;
use crate::cbor::read_head;
use crate::cbor::sp_head;
use crate::cbor::sp_text;
use crate::reject::ApplyConwayTxPredError;
use crate::reject::ApplyTxErr;
use crate::reject::ConwayUtxoPredFailure;
use crate::reject::ConwayUtxoWPredFailure;
use crate::reject::DisplayExUnits;
use crate::reject::DisplayScriptHash;
use crate::reject::DisplayVKeyWitness;
use crate::reject::DisplayValue;
use crate::reject::Network;
use crate::reject::PlutusPurpose;
use crate::reject::PredErrorV;
use crate::reject::ScriptIntegrityHash;
use crate::reject::SerializableTxIn;
use crate::reject::ShelleyBasedEra;
use crate::reject::TxInV;
use crate::reject::TxOutV;
use crate::reject::SerializableTxOut;
use crate::reject::Utxo;
use crate::reject::TxValidationError;
use crate::reject::TxValidationErrorV;
use crate::reject::ValidityInterval;
use crate::reject_codec::DecodeError;
use crate::reject_codec::sp_p_bytes_list;
use crate::reject_codec::sp_p_bytes_seq;
use crate::reject_codec::sp_p_era;
use crate::reject_codec::sp_p_errors;
use crate::reject_codec::sp_p_exunits;
use crate::reject_codec::sp_p_opt_hash;
use crate::reject_codec::sp_p_opt_u64;
use crate::reject_codec::sp_p_pred_error;
use crate::reject_codec::sp_p_pred_seq;
use crate::reject_codec::sp_p_purpose;
use crate::reject_codec::sp_p_purpose_list;
use crate::reject_codec::sp_p_purpose_seq;
use crate::reject_codec::sp_p_redeemer;
use crate::reject_codec::sp_p_redeemer_list;
use crate::reject_codec::sp_p_redeemer_seq;
use crate::reject_codec::sp_p_rejection;
use crate::reject_codec::sp_p_network;
use crate::reject_codec::sp_p_txin;
use crate::reject_codec::sp_p_txin_list;
use crate::reject_codec::sp_p_txin_seq;
use crate::reject_codec::sp_p_txout;
use crate::reject_codec::sp_p_txout_list;
use crate::reject_codec::sp_p_txout_seq;
use crate::reject_codec::sp_p_txout_triple;
use crate::reject_codec::sp_p_txout_triple_list;
use crate::reject_codec::sp_p_txout_triple_seq;
use crate::reject_codec::sp_p_txout_coin;
use crate::reject_codec::sp_p_txout_coin_list;
use crate::reject_codec::sp_p_txout_coin_seq;
use crate::reject_codec::sp_p_utxo_pair;
use crate::reject_codec::sp_p_utxo_pair_list;
use crate::reject_codec::sp_p_utxo_pair_seq;
use crate::reject_codec::sp_p_utxo_failure;
use crate::reject_codec::sp_p_utxow_failure;
use crate::reject_codec::sp_p_validity;
use crate::reject_codec::sp_p_vkey;

verus! {

/// Reads a transaction input.
fn read_txin(b: &Vec<u8>, p: usize) -> (r: Option<(SerializableTxIn, usize)>)
    ensures
        r matches Some((t, q)) ==> sp_p_txin(b@, p as int) == Some((t@, q as int)) && p < q
            <= b@.len(),
        r is None ==> sp_p_txin(b@, p as int) is None,
{
    match read_head(4, b, p) {
        None => None,
        Some((n, p1)) => {
            if n != 2 {
                return None;
            }
            match read_bytes(b, p1) {
                None => None,
                Some((id, p2)) => match read_head(0, b, p2) {
                    None => None,
                    Some((ix, p3)) => Some((SerializableTxIn { tx_id: id, index: ix }, p3)),
                },
            }
        },
    }
}

/// Reads a key witness.
fn read_vkey(b: &Vec<u8>, p: usize) -> (r: Option<(DisplayVKeyWitness, usize)>)
    ensures
        r matches Some((t, q)) ==> sp_p_vkey(b@, p as int) == Some((t@, q as int)) && p < q
            <= b@.len(),
        r is None ==> sp_p_vkey(b@, p as int) is None,
{
    match read_head(4, b, p) {
        None => None,
        Some((n, p1)) => {
            if n != 2 {
                return None;
            }
            match read_bytes(b, p1) {
                None => None,
                Some((vk, p2)) => match read_bytes(b, p2) {
                    None => None,
                    Some((sg, p3)) => Some((DisplayVKeyWitness { vkey: vk, signature: sg }, p3)),
                },
            }
        },
    }
}

/// Reads an optional slot number.
fn read_opt_u64(b: &Vec<u8>, p: usize) -> (r: Option<(Option<u64>, usize)>)
    ensures
        r matches Some((t, q)) ==> sp_p_opt_u64(b@, p as int) == Some((t, q as int)) && p < q
            <= b@.len(),
        r is None ==> sp_p_opt_u64(b@, p as int) is None,
{
    if p < b.len() && b[p] == 246 {
        Some((None, p + 1))
    } else {
        match read_head(0, b, p) {
            None => None,
            Some((v, q)) => Some((Some(v), q)),
        }
    }
}

/// Reads a validity interval.
fn read_validity(b: &Vec<u8>, p: usize) -> (r: Option<(ValidityInterval, usize)>)
    ensures
        r matches Some((t, q)) ==> sp_p_validity(b@, p as int) == Some((t, q as int)) && p < q
            <= b@.len(),
        r is None ==> sp_p_validity(b@, p as int) is None,
{
    match read_head(4, b, p) {
        None => None,
        Some((n, p1)) => {
            if n != 2 {
                return None;
            }
            match read_opt_u64(b, p1) {
                None => None,
                Some((a, p2)) => match read_opt_u64(b, p2) {
                    None => None,
                    Some((c, p3)) => Some(
                        (ValidityInterval { invalid_before: a, invalid_hereafter: c }, p3),
                    ),
                },
            }
        },
    }
}

/// Reads execution units.
fn read_exunits(b: &Vec<u8>, p: usize) -> (r: Option<(DisplayExUnits, usize)>)
    ensures
        r matches Some((t, q)) ==> sp_p_exunits(b@, p as int) == Some((t, q as int)) && p < q
            <= b@.len(),
        r is None ==> sp_p_exunits(b@, p as int) is None,
{
    match read_head(4, b, p) {
        None => None,
        Some((n, p1)) => {
            if n != 2 {
                return None;
            }
            match read_head(0, b, p1) {
                None => None,
                Some((m, p2)) => match read_head(0, b, p2) {
                    None => None,
                    Some((st, p3)) => Some((DisplayExUnits { mem: m, steps: st }, p3)),
                },
            }
        },
    }
}

/// Reads an optional script integrity hash.
fn read_opt_hash(b: &Vec<u8>, p: usize) -> (r: Option<(Option<ScriptIntegrityHash>, usize)>)
    ensures
        r matches Some((t, q)) ==> sp_p_opt_hash(b@, p as int) == Some((t.deep_view(), q as int))
            && p < q <= b@.len(),
        r is None ==> sp_p_opt_hash(b@, p as int) is None,
{
    if p < b.len() && b[p] == 246 {
        Some((None, p + 1))
    } else {
        match read_bytes(b, p) {
            None => None,
            Some((h, q)) => Some((Some(ScriptIntegrityHash(h)), q)),
        }
    }
}

/// Reads a script purpose.
fn read_purpose(b: &Vec<u8>, p: usize) -> (r: Option<(PlutusPurpose, usize)>)
    ensures
        r matches Some((t, q)) ==> sp_p_purpose(b@, p as int) == Some((t, q as int)) && p < q
            <= b@.len(),
        r is None ==> sp_p_purpose(b@, p as int) is None,
{
    match read_head(0, b, p) {
        None => None,
        Some((v, q)) => {
            if v == 0 {
                Some((PlutusPurpose::Spending, q))
            } else if v == 1 {
                Some((PlutusPurpose::Minting, q))
            } else if v == 2 {
                Some((PlutusPurpose::Certifying, q))
            } else if v == 3 {
                Some((PlutusPurpose::Rewarding, q))
            } else {
                None
            }
        },
    }
}

/// Reads a network id.
fn read_network(b: &Vec<u8>, p: usize) -> (r: Option<(Network, usize)>)
    ensures
        r matches Some((t, q)) ==> sp_p_network(b@, p as int) == Some((t, q as int)) && p < q
            <= b@.len(),
        r is None ==> sp_p_network(b@, p as int) is None,
{
    match read_head(0, b, p) {
        None => None,
        Some((v, q)) => {
            if v == 0 {
                Some((Network::Mainnet, q))
            } else if v == 1 {
                Some((Network::Testnet, q))
            } else {
                None
            }
        },
    }
}

/// Reads a missing-redeemer entry.
fn read_redeemer(b: &Vec<u8>, p: usize) -> (r: Option<((PlutusPurpose, DisplayScriptHash), usize)>)
    ensures
        r matches Some((t, q)) ==> sp_p_redeemer(b@, p as int) == Some(
            ((t.0, t.1@), q as int),
        ) && p < q <= b@.len(),
        r is None ==> sp_p_redeemer(b@, p as int) is None,
{
    match read_head(4, b, p) {
        None => None,
        Some((n, p1)) => {
            if n != 2 {
                return None;
            }
            match read_purpose(b, p1) {
                None => None,
                Some((pu, p2)) => match read_bytes(b, p2) {
                    None => None,
                    Some((h, p3)) => Some(((pu, DisplayScriptHash(h)), p3)),
                },
            }
        },
    }
}

/// Reads a list of byte strings.
fn read_bytes_list(b: &Vec<u8>, p: usize) -> (r: Option<(Vec<Vec<u8>>, usize)>)
    ensures
        r matches Some((v, q)) ==> sp_p_bytes_list(b@, p as int) == Some(
            (v.deep_view(), q as int),
        ) && p < q <= b@.len(),
        r is None ==> sp_p_bytes_list(b@, p as int) is None,
{
    let (n, p1) = match read_head(4, b, p) {
        Some(x) => x,
        None => {
            return None;
        },
    };
    let mut acc: Vec<Vec<u8>> = Vec::new();
    let mut q: usize = p1;
    let mut i: u64 = 0;
    proof {
        assert(acc.deep_view() + Seq::<Seq<u8>>::empty() =~= acc.deep_view());
        assert(acc.deep_view() =~= Seq::<Seq<u8>>::empty());
    }
    while i < n
        invariant
            i <= n,
            p < p1 <= q <= b@.len(),
            sp_head(4, b@, p as int) == Some((n, p1 as int)),
            match sp_p_bytes_seq(b@, q as int, (n - i) as nat) {
                Some(r2) => sp_p_bytes_seq(b@, p1 as int, n as nat) == Some(
                    (acc.deep_view() + r2.0, r2.1),
                ),
                None => sp_p_bytes_seq(b@, p1 as int, n as nat) is None,
            },
        decreases n - i,
    {
        let ghost old_dv = acc.deep_view();
        match read_bytes(b, q) {
            Some((t, q2)) => {
                proof {
                    let rest = sp_p_bytes_seq(b@, q2 as int, (n - i - 1) as nat);
                    if rest is Some {
                        assert(old_dv + (seq![t@] + rest.unwrap().0) =~= (old_dv + seq![t@])
                            + rest.unwrap().0);
                    }
                }
                acc.push(t);
                q = q2;
                i = i + 1;
                proof {
                    let j = acc.len() - 1;
                    assert(acc@[j as int].deep_view() =~= acc@[j as int]@);
                    assert(acc.deep_view() =~= old_dv + seq![acc@[j as int]@]);
                }
            },
            None => {
                return None;
            },
        }
    }
    proof {
        assert(acc.deep_view() + Seq::<Seq<u8>>::empty() =~= acc.deep_view());
    }
    Some((acc, q))
}

/// Reads a list of transaction inputs.
fn read_txin_list(b: &Vec<u8>, p: usize) -> (r: Option<(Vec<SerializableTxIn>, usize)>)
    ensures
        r matches Some((v, q)) ==> sp_p_txin_list(b@, p as int) == Some(
            (v.deep_view(), q as int),
        ) && p < q <= b@.len(),
        r is None ==> sp_p_txin_list(b@, p as int) is None,
{
    let (n, p1) = match read_head(4, b, p) {
        Some(x) => x,
        None => {
            return None;
        },
    };
    let mut acc: Vec<SerializableTxIn> = Vec::new();
    let mut q: usize = p1;
    let mut i: u64 = 0;
    proof {
        assert(acc.deep_view() =~= Seq::<TxInV>::empty());
        assert(acc.deep_view() + Seq::<TxInV>::empty() =~= acc.deep_view());
    }
    while i < n
        invariant
            i <= n,
            p < p1 <= q <= b@.len(),
            sp_head(4, b@, p as int) == Some((n, p1 as int)),
            match sp_p_txin_seq(b@, q as int, (n - i) as nat) {
                Some(r2) => sp_p_txin_seq(b@, p1 as int, n as nat) == Some(
                    (acc.deep_view() + r2.0, r2.1),
                ),
                None => sp_p_txin_seq(b@, p1 as int, n as nat) is None,
            },
        decreases n - i,
    {
        let ghost old_dv = acc.deep_view();
        match read_txin(b, q) {
            Some((t, q2)) => {
                proof {
                    let rest = sp_p_txin_seq(b@, q2 as int, (n - i - 1) as nat);
                    if rest is Some {
                        assert(old_dv + (seq![t@] + rest.unwrap().0) =~= (old_dv + seq![t@])
                            + rest.unwrap().0);
                    }
                }
                acc.push(t);
                q = q2;
                i = i + 1;
                proof {
                    assert(acc.deep_view() =~= old_dv + seq![acc@[acc.len() - 1]@]);
                }
            },
            None => {
                return None;
            },
        }
    }
    proof {
        assert(acc.deep_view() + Seq::<TxInV>::empty() =~= acc.deep_view());
    }
    Some((acc, q))
}

/// Reads a list of script purposes.
fn read_purpose_list(b: &Vec<u8>, p: usize) -> (r: Option<(Vec<PlutusPurpose>, usize)>)
    ensures
        r matches Some((v, q)) ==> sp_p_purpose_list(b@, p as int) == Some(
            (v.deep_view(), q as int),
        ) && p < q <= b@.len(),
        r is None ==> sp_p_purpose_list(b@, p as int) is None,
{
    let (n, p1) = match read_head(4, b, p) {
        Some(x) => x,
        None => {
            return None;
        },
    };
    let mut acc: Vec<PlutusPurpose> = Vec::new();
    let mut q: usize = p1;
    let mut i: u64 = 0;
    proof {
        assert(acc.deep_view() =~= Seq::<PlutusPurpose>::empty());
        assert(acc.deep_view() + Seq::<PlutusPurpose>::empty() =~= acc.deep_view());
    }
    while i < n
        invariant
            i <= n,
            p < p1 <= q <= b@.len(),
            sp_head(4, b@, p as int) == Some((n, p1 as int)),
            match sp_p_purpose_seq(b@, q as int, (n - i) as nat) {
                Some(r2) => sp_p_purpose_seq(b@, p1 as int, n as nat) == Some(
                    (acc.deep_view() + r2.0, r2.1),
                ),
                None => sp_p_purpose_seq(b@, p1 as int, n as nat) is None,
            },
        decreases n - i,
    {
        let ghost old_dv = acc.deep_view();
        match read_purpose(b, q) {
            Some((t, q2)) => {
                proof {
                    let rest = sp_p_purpose_seq(b@, q2 as int, (n - i - 1) as nat);
                    if rest is Some {
                        assert(old_dv + (seq![t] + rest.unwrap().0) =~= (old_dv + seq![t])
                            + rest.unwrap().0);
                    }
                }
                acc.push(t);
                q = q2;
                i = i + 1;
                proof {
                    assert(acc.deep_view() =~= old_dv + seq![acc@[acc.len() - 1]]);
                }
            },
            None => {
                return None;
            },
        }
    }
    proof {
        assert(acc.deep_view() + Seq::<PlutusPurpose>::empty() =~= acc.deep_view());
    }
    Some((acc, q))
}

/// Reads a list of missing-redeemer entries.
fn read_redeemer_list(b: &Vec<u8>, p: usize) -> (r: Option<
    (Vec<(PlutusPurpose, DisplayScriptHash)>, usize),
>)
    ensures
        r matches Some((v, q)) ==> sp_p_redeemer_list(b@, p as int) == Some(
            (v.deep_view(), q as int),
        ) && p < q <= b@.len(),
        r is None ==> sp_p_redeemer_list(b@, p as int) is None,
{
    let (n, p1) = match read_head(4, b, p) {
        Some(x) => x,
        None => {
            return None;
        },
    };
    let mut acc: Vec<(PlutusPurpose, DisplayScriptHash)> = Vec::new();
    let mut q: usize = p1;
    let mut i: u64 = 0;
    proof {
        assert(acc.deep_view() =~= Seq::<(PlutusPurpose, Seq<u8>)>::empty());
        assert(acc.deep_view() + Seq::<(PlutusPurpose, Seq<u8>)>::empty() =~= acc.deep_view());
    }
    while i < n
        invariant
            i <= n,
            p < p1 <= q <= b@.len(),
            sp_head(4, b@, p as int) == Some((n, p1 as int)),
            match sp_p_redeemer_seq(b@, q as int, (n - i) as nat) {
                Some(r2) => sp_p_redeemer_seq(b@, p1 as int, n as nat) == Some(
                    (acc.deep_view() + r2.0, r2.1),
                ),
                None => sp_p_redeemer_seq(b@, p1 as int, n as nat) is None,
            },
        decreases n - i,
    {
        let ghost old_dv = acc.deep_view();
        match read_redeemer(b, q) {
            Some((t, q2)) => {
                proof {
                    let tv = (t.0, t.1@);
                    let rest = sp_p_redeemer_seq(b@, q2 as int, (n - i - 1) as nat);
                    if rest is Some {
                        assert(old_dv + (seq![tv] + rest.unwrap().0) =~= (old_dv + seq![tv])
                            + rest.unwrap().0);
                    }
                }
                acc.push(t);
                q = q2;
                i = i + 1;
                proof {
                    let j = acc.len() - 1;
                    assert(acc.deep_view()[j as int] == (acc@[j as int].0, acc@[j as int].1@));
                    assert(acc.deep_view() =~= old_dv + seq![
                        (acc@[j as int].0, acc@[j as int].1@),
                    ]);
                }
            },
            None => {
                return None;
            },
        }
    }
    proof {
        assert(acc.deep_view() + Seq::<(PlutusPurpose, Seq<u8>)>::empty() =~= acc.deep_view());
    }
    Some((acc, q))
}

/// Reads a transaction output in the modeled `[address, coin]` shape.
fn read_txout(b: &Vec<u8>, p: usize) -> (r: Option<(SerializableTxOut, usize)>)
    ensures
        r matches Some((t, q)) ==> sp_p_txout(b@, p as int) == Some((t@, q as int)) && p < q
            <= b@.len(),
        r is None ==> sp_p_txout(b@, p as int) is None,
{
    match read_head(4, b, p) {
        None => None,
        Some((n, p1)) => {
            if n != 2 {
                return None;
            }
            match read_bytes(b, p1) {
                None => None,
                Some((addr, p2)) => match read_head(0, b, p2) {
                    None => None,
                    Some((coin, p3)) => Some((SerializableTxOut { address: addr, coin }, p3)),
                },
            }
        },
    }
}

/// Reads an oversize-output report.
fn read_txout_triple(b: &Vec<u8>, p: usize) -> (r: Option<((u64, u64, SerializableTxOut), usize)>)
    ensures
        r matches Some((t, q)) ==> sp_p_txout_triple(b@, p as int) == Some(
            ((t.0, t.1, t.2@), q as int),
        ) && p < q <= b@.len(),
        r is None ==> sp_p_txout_triple(b@, p as int) is None,
{
    match read_head(4, b, p) {
        None => None,
        Some((n, p1)) => {
            if n != 3 {
                return None;
            }
            match read_head(0, b, p1) {
                None => None,
                Some((a, p2)) => match read_head(0, b, p2) {
                    None => None,
                    Some((m, p3)) => match read_txout(b, p3) {
                        None => None,
                        Some((t, p4)) => Some(((a, m, t), p4)),
                    },
                },
            }
        },
    }
}

/// Reads an output with its required minimum.
fn read_txout_coin(b: &Vec<u8>, p: usize) -> (r: Option<((SerializableTxOut, u64), usize)>)
    ensures
        r matches Some((t, q)) ==> sp_p_txout_coin(b@, p as int) == Some(
            ((t.0@, t.1), q as int),
        ) && p < q <= b@.len(),
        r is None ==> sp_p_txout_coin(b@, p as int) is None,
{
    match read_head(4, b, p) {
        None => None,
        Some((n, p1)) => {
            if n != 2 {
                return None;
            }
            match read_txout(b, p1) {
                None => None,
                Some((t, p2)) => match read_head(0, b, p2) {
                    None => None,
                    Some((c, p3)) => Some(((t, c), p3)),
                },
            }
        },
    }
}

/// Reads a UTxO entry.
fn read_utxo_pair(b: &Vec<u8>, p: usize) -> (r: Option<
    ((SerializableTxIn, SerializableTxOut), usize),
>)
    ensures
        r matches Some((t, q)) ==> sp_p_utxo_pair(b@, p as int) == Some(
            ((t.0@, t.1@), q as int),
        ) && p < q <= b@.len(),
        r is None ==> sp_p_utxo_pair(b@, p as int) is None,
{
    match read_head(4, b, p) {
        None => None,
        Some((n, p1)) => {
            if n != 2 {
                return None;
            }
            match read_txin(b, p1) {
                None => None,
                Some((i, p2)) => match read_txout(b, p2) {
                    None => None,
                    Some((o, p3)) => Some(((i, o), p3)),
                },
            }
        },
    }
}

/// Reads a list of transaction outputs.
fn read_txout_list(b: &Vec<u8>, p: usize) -> (r: Option<(Vec<SerializableTxOut>, usize)>)
    ensures
        r matches Some((v, q)) ==> sp_p_txout_list(b@, p as int) == Some(
            (v.deep_view(), q as int),
        ) && p < q <= b@.len(),
        r is None ==> sp_p_txout_list(b@, p as int) is None,
{
    let (n, p1) = match read_head(4, b, p) {
        Some(x) => x,
        None => {
            return None;
        },
    };
    let mut acc: Vec<SerializableTxOut> = Vec::new();
    let mut q: usize = p1;
    let mut i: u64 = 0;
    proof {
        assert(acc.deep_view() =~= Seq::<TxOutV>::empty());
        assert(acc.deep_view() + Seq::<TxOutV>::empty() =~= acc.deep_view());
    }
    while i < n
        invariant
            i <= n,
            p < p1 <= q <= b@.len(),
            sp_head(4, b@, p as int) == Some((n, p1 as int)),
            match sp_p_txout_seq(b@, q as int, (n - i) as nat) {
                Some(r2) => sp_p_txout_seq(b@, p1 as int, n as nat) == Some(
                    (acc.deep_view() + r2.0, r2.1),
                ),
                None => sp_p_txout_seq(b@, p1 as int, n as nat) is None,
            },
        decreases n - i,
    {
        let ghost old_dv = acc.deep_view();
        match read_txout(b, q) {
            Some((t, q2)) => {
                proof {
                    let rest = sp_p_txout_seq(b@, q2 as int, (n - i - 1) as nat);
                    if rest is Some {
                        assert(old_dv + (seq![t@] + rest.unwrap().0) =~= (old_dv + seq![t@])
                            + rest.unwrap().0);
                    }
                }
                acc.push(t);
                q = q2;
                i = i + 1;
                proof {
                    let j = acc.len() - 1;
                    assert(acc.deep_view() =~= old_dv + seq![acc@[j as int]@]);
                }
            },
            None => {
                return None;
            },
        }
    }
    proof {
        assert(acc.deep_view() + Seq::<TxOutV>::empty() =~= acc.deep_view());
    }
    Some((acc, q))
}

/// Reads a list of oversize-output reports.
fn read_txout_triple_list(b: &Vec<u8>, p: usize) -> (r: Option<
    (Vec<(u64, u64, SerializableTxOut)>, usize),
>)
    ensures
        r matches Some((v, q)) ==> sp_p_txout_triple_list(b@, p as int) == Some(
            (v.deep_view(), q as int),
        ) && p < q <= b@.len(),
        r is None ==> sp_p_txout_triple_list(b@, p as int) is None,
{
    let (n, p1) = match read_head(4, b, p) {
        Some(x) => x,
        None => {
            return None;
        },
    };
    let mut acc: Vec<(u64, u64, SerializableTxOut)> = Vec::new();
    let mut q: usize = p1;
    let mut i: u64 = 0;
    proof {
        assert(acc.deep_view() =~= Seq::<(u64, u64, TxOutV)>::empty());
        assert(acc.deep_view() + Seq::<(u64, u64, TxOutV)>::empty() =~= acc.deep_view());
    }
    while i < n
        invariant
            i <= n,
            p < p1 <= q <= b@.len(),
            sp_head(4, b@, p as int) == Some((n, p1 as int)),
            match sp_p_txout_triple_seq(b@, q as int, (n - i) as nat) {
                Some(r2) => sp_p_txout_triple_seq(b@, p1 as int, n as nat) == Some(
                    (acc.deep_view() + r2.0, r2.1),
                ),
                None => sp_p_txout_triple_seq(b@, p1 as int, n as nat) is None,
            },
        decreases n - i,
    {
        let ghost old_dv = acc.deep_view();
        match read_txout_triple(b, q) {
            Some((t, q2)) => {
                proof {
                    let tv = (t.0, t.1, t.2@);
                    let rest = sp_p_txout_triple_seq(b@, q2 as int, (n - i - 1) as nat);
                    if rest is Some {
                        assert(old_dv + (seq![tv] + rest.unwrap().0) =~= (old_dv + seq![tv])
                            + rest.unwrap().0);
                    }
                }
                acc.push(t);
                q = q2;
                i = i + 1;
                proof {
                    let j = acc.len() - 1;
                    assert(acc.deep_view()[j as int] == (
                        acc@[j as int].0,
                        acc@[j as int].1,
                        acc@[j as int].2@,
                    ));
                    assert(acc.deep_view() =~= old_dv + seq![
                        (acc@[j as int].0, acc@[j as int].1, acc@[j as int].2@),
                    ]);
                }
            },
            None => {
                return None;
            },
        }
    }
    proof {
        assert(acc.deep_view() + Seq::<(u64, u64, TxOutV)>::empty() =~= acc.deep_view());
    }
    Some((acc, q))
}

/// Reads a list of outputs with their minimums.
fn read_txout_coin_list(b: &Vec<u8>, p: usize) -> (r: Option<
    (Vec<(SerializableTxOut, u64)>, usize),
>)
    ensures
        r matches Some((v, q)) ==> sp_p_txout_coin_list(b@, p as int) == Some(
            (v.deep_view(), q as int),
        ) && p < q <= b@.len(),
        r is None ==> sp_p_txout_coin_list(b@, p as int) is None,
{
    let (n, p1) = match read_head(4, b, p) {
        Some(x) => x,
        None => {
            return None;
        },
    };
    let mut acc: Vec<(SerializableTxOut, u64)> = Vec::new();
    let mut q: usize = p1;
    let mut i: u64 = 0;
    proof {
        assert(acc.deep_view() =~= Seq::<(TxOutV, u64)>::empty());
        assert(acc.deep_view() + Seq::<(TxOutV, u64)>::empty() =~= acc.deep_view());
    }
    while i < n
        invariant
            i <= n,
            p < p1 <= q <= b@.len(),
            sp_head(4, b@, p as int) == Some((n, p1 as int)),
            match sp_p_txout_coin_seq(b@, q as int, (n - i) as nat) {
                Some(r2) => sp_p_txout_coin_seq(b@, p1 as int, n as nat) == Some(
                    (acc.deep_view() + r2.0, r2.1),
                ),
                None => sp_p_txout_coin_seq(b@, p1 as int, n as nat) is None,
            },
        decreases n - i,
    {
        let ghost old_dv = acc.deep_view();
        match read_txout_coin(b, q) {
            Some((t, q2)) => {
                proof {
                    let tv = (t.0@, t.1);
                    let rest = sp_p_txout_coin_seq(b@, q2 as int, (n - i - 1) as nat);
                    if rest is Some {
                        assert(old_dv + (seq![tv] + rest.unwrap().0) =~= (old_dv + seq![tv])
                            + rest.unwrap().0);
                    }
                }
                acc.push(t);
                q = q2;
                i = i + 1;
                proof {
                    let j = acc.len() - 1;
                    assert(acc.deep_view()[j as int] == (acc@[j as int].0@, acc@[j as int].1));
                    assert(acc.deep_view() =~= old_dv + seq![
                        (acc@[j as int].0@, acc@[j as int].1),
                    ]);
                }
            },
            None => {
                return None;
            },
        }
    }
    proof {
        assert(acc.deep_view() + Seq::<(TxOutV, u64)>::empty() =~= acc.deep_view());
    }
    Some((acc, q))
}

/// Reads a list of UTxO entries.
fn read_utxo_pair_list(b: &Vec<u8>, p: usize) -> (r: Option<
    (Vec<(SerializableTxIn, SerializableTxOut)>, usize),
>)
    ensures
        r matches Some((v, q)) ==> sp_p_utxo_pair_list(b@, p as int) == Some(
            (v.deep_view(), q as int),
        ) && p < q <= b@.len(),
        r is None ==> sp_p_utxo_pair_list(b@, p as int) is None,
{
    let (n, p1) = match read_head(4, b, p) {
        Some(x) => x,
        None => {
            return None;
        },
    };
    let mut acc: Vec<(SerializableTxIn, SerializableTxOut)> = Vec::new();
    let mut q: usize = p1;
    let mut i: u64 = 0;
    proof {
        assert(acc.deep_view() =~= Seq::<(TxInV, TxOutV)>::empty());
        assert(acc.deep_view() + Seq::<(TxInV, TxOutV)>::empty() =~= acc.deep_view());
    }
    while i < n
        invariant
            i <= n,
            p < p1 <= q <= b@.len(),
            sp_head(4, b@, p as int) == Some((n, p1 as int)),
            match sp_p_utxo_pair_seq(b@, q as int, (n - i) as nat) {
                Some(r2) => sp_p_utxo_pair_seq(b@, p1 as int, n as nat) == Some(
                    (acc.deep_view() + r2.0, r2.1),
                ),
                None => sp_p_utxo_pair_seq(b@, p1 as int, n as nat) is None,
            },
        decreases n - i,
    {
        let ghost old_dv = acc.deep_view();
        match read_utxo_pair(b, q) {
            Some((t, q2)) => {
                proof {
                    let tv = (t.0@, t.1@);
                    let rest = sp_p_utxo_pair_seq(b@, q2 as int, (n - i - 1) as nat);
                    if rest is Some {
                        assert(old_dv + (seq![tv] + rest.unwrap().0) =~= (old_dv + seq![tv])
                            + rest.unwrap().0);
                    }
                }
                acc.push(t);
                q = q2;
                i = i + 1;
                proof {
                    let j = acc.len() - 1;
                    assert(acc.deep_view()[j as int] == (acc@[j as int].0@, acc@[j as int].1@));
                    assert(acc.deep_view() =~= old_dv + seq![
                        (acc@[j as int].0@, acc@[j as int].1@),
                    ]);
                }
            },
            None => {
                return None;
            },
        }
    }
    proof {
        assert(acc.deep_view() + Seq::<(TxInV, TxOutV)>::empty() =~= acc.deep_view());
    }
    Some((acc, q))
}

/// Reads a list of byte strings, wrapping each as a script hash.

fn read_wrapped_hash_list(b: &Vec<u8>, p: usize) -> (r: Option<(Vec<DisplayScriptHash>, usize)>)
    ensures
        r matches Some((v, q)) ==> sp_p_bytes_list(b@, p as int) == Some(
            (v.deep_view(), q as int),
        ) && p < q <= b@.len(),
        r is None ==> sp_p_bytes_list(b@, p as int) is None,
{
    let (n, p1) = match read_head(4, b, p) {
        Some(x) => x,
        None => {
            return None;
        },
    };
    let mut acc: Vec<DisplayScriptHash> = Vec::new();
    let mut q: usize = p1;
    let mut i: u64 = 0;
    proof {
        assert(acc.deep_view() =~= Seq::<Seq<u8>>::empty());
        assert(acc.deep_view() + Seq::<Seq<u8>>::empty() =~= acc.deep_view());
    }
    while i < n
        invariant
            i <= n,
            p < p1 <= q <= b@.len(),
            sp_head(4, b@, p as int) == Some((n, p1 as int)),
            match sp_p_bytes_seq(b@, q as int, (n - i) as nat) {
                Some(r2) => sp_p_bytes_seq(b@, p1 as int, n as nat) == Some(
                    (acc.deep_view() + r2.0, r2.1),
                ),
                None => sp_p_bytes_seq(b@, p1 as int, n as nat) is None,
            },
        decreases n - i,
    {
        let ghost old_dv = acc.deep_view();
        match read_bytes(b, q) {
            Some((t, q2)) => {
                proof {
                    let rest = sp_p_bytes_seq(b@, q2 as int, (n - i - 1) as nat);
                    if rest is Some {
                        assert(old_dv + (seq![t@] + rest.unwrap().0) =~= (old_dv + seq![t@])
                            + rest.unwrap().0);
                    }
                }
                acc.push(DisplayScriptHash(t));
                q = q2;
                i = i + 1;
                proof {
                    let j = acc.len() - 1;
                    assert(acc@[j as int].deep_view() =~= acc@[j as int].0@);
                    assert(acc.deep_view() =~= old_dv + seq![acc@[j as int].0@]);
                }
            },
            None => {
                return None;
            },
        }
    }
    proof {
        assert(acc.deep_view() + Seq::<Seq<u8>>::empty() =~= acc.deep_view());
    }
    Some((acc, q))
}

/// Relies on `String::from_utf8` of std: a byte vector that holds only
/// ASCII values is valid UTF-8 and decodes to the characters with those
/// same values.
#[verifier::external_body]
fn string_from_ascii(v: Vec<u8>) -> (r: String)
    requires
        forall|i: int| 0 <= i < v@.len() ==> v@[i] < 128,
    ensures
        r@ == Seq::new(v@.len(), |i: int| v@[i] as char),
{
    String::from_utf8(v).unwrap_or_default()
}

/// Reads an ASCII text string.
fn read_text(b: &Vec<u8>, p: usize) -> (r: Option<(String, usize)>)
    ensures
        r matches Some((s, q)) ==> sp_text(b@, p as int) == Some((s@, q as int)) && p < q
            <= b@.len(),
        r is None ==> sp_text(b@, p as int) is None,
{
    match read_head(3, b, p) {
        None => None,
        Some((n, q)) => {
            if n > (b.len() - q) as u64 {
                return None;
            }
            let n: usize = n as usize;
            let mut v: Vec<u8> = Vec::new();
            let mut k: usize = 0;
            while k < n
                invariant
                    sp_head(3, b@, p as int) == Some((n as u64, q as int)),
                    q + n <= b@.len(),
                    b@.len() <= usize::MAX,
                    k <= n,
                    v@ =~= b@.subrange(q as int, q as int + k as int),
                    forall|i: int| q <= i < q + k ==> b@[i] < 128,
                decreases n - k,
            {
                let c = b[q + k];
                if c >= 128 {
                    proof {
                        assert(!(forall|i: int|
                            q <= i < q + n ==> b@[i] < 128)) by {
                            assert(b@[q + k] >= 128);
                        }
                    }
                    return None;
                }
                v.push(c);
                proof {
                    assert(v@ =~= b@.subrange(q as int, q as int + k as int + 1));
                }
                k = k + 1;
            }
            let s = string_from_ascii(v);
            proof {
                let content = Seq::new(n as nat, |i: int| b@[q + i] as char);
                assert(s@ =~= content);
            }
            Some((s, q + n))
        },
    }
}

/// Reads a UTxO rule failure.
#[verifier::rlimit(60)]
fn read_utxo_failure(b: &Vec<u8>, p: usize, fuel: usize) -> (r: Option<
    (ConwayUtxoPredFailure, usize),
>)
    ensures
        r matches Some((t, q)) ==> sp_p_utxo_failure(b@, p as int, fuel as nat) == Some(
            (t@, q as int),
        ) && p < q <= b@.len(),
        r is None ==> sp_p_utxo_failure(b@, p as int, fuel as nat) is None,
    decreases fuel,
{
    if fuel == 0 {
        return None;
    }
    let (n, p1) = match read_head(4, b, p) {
        Some(x) => x,
        None => {
            return None;
        },
    };
    let (tag, p2) = match read_head(0, b, p1) {
        Some(x) => x,
        None => {
            return None;
        },
    };
    if tag == 0 && n == 2 {
        match read_utxo_failure(b, p2, fuel - 1) {
            Some((e, p3)) => Some((ConwayUtxoPredFailure::UtxosFailure(Box::new(e)), p3)),
            None => None,
        }
    } else if tag == 1 && n == 2 {
        match read_txin_list(b, p2) {
            Some((v, p3)) => Some((ConwayUtxoPredFailure::BadInputsUTxO(v), p3)),
            None => None,
        }
    } else if tag == 2 && n == 3 {
        match read_validity(b, p2) {
            Some((vi, p3)) => match read_head(0, b, p3) {
                Some((s, p4)) => Some(
                    (ConwayUtxoPredFailure::OutsideValidityIntervalUTxO(vi, s), p4),
                ),
                None => None,
            },
            None => None,
        }
    } else if tag == 3 && n == 2 {
        match read_head(0, b, p2) {
            Some((s, p3)) => Some((ConwayUtxoPredFailure::MaxTxSizeUTxO(s), p3)),
            None => None,
        }
    } else if tag == 4 && n == 1 {
        Some((ConwayUtxoPredFailure::InputSetEmptyUTxO(), p2))
    } else if tag == 5 && n == 3 {
        match read_head(0, b, p2) {
            Some((a, p3)) => match read_head(0, b, p3) {
                Some((c, p4)) => Some((ConwayUtxoPredFailure::FeeTooSmallUTxO(a, c), p4)),
                None => None,
            },
            None => None,
        }
    } else if tag == 6 && n == 3 {
        match read_head(0, b, p2) {
            Some((a, p3)) => match read_head(0, b, p3) {
                Some((c, p4)) => Some(
                    (
                        ConwayUtxoPredFailure::ValueNotConservedUTxO(
                            DisplayValue { coin: a },
                            DisplayValue { coin: c },
                        ),
                        p4,
                    ),
                ),
                None => None,
            },
            None => None,
        }
    } else if tag == 7 && n == 3 {
        match read_network(b, p2) {
            Some((nw, p3)) => match read_bytes_list(b, p3) {
                Some((v, p4)) => Some((ConwayUtxoPredFailure::WrongNetwork(nw, v), p4)),
                None => None,
            },
            None => None,
        }
    } else if tag == 8 && n == 3 {
        match read_network(b, p2) {
            Some((nw, p3)) => match read_bytes_list(b, p3) {
                Some((v, p4)) => Some(
                    (ConwayUtxoPredFailure::WrongNetworkWithdrawal(nw, v), p4),
                ),
                None => None,
            },
            None => None,
        }
    } else if tag == 9 && n == 2 {
        match read_txout_list(b, p2) {
            Some((v, p3)) => Some((ConwayUtxoPredFailure::OutputTooSmallUTxO(v), p3)),
            None => None,
        }
    } else if tag == 10 && n == 2 {
        match read_txout_list(b, p2) {
            Some((v, p3)) => Some((ConwayUtxoPredFailure::OutputBootAddrAttrsTooBig(v), p3)),
            None => None,
        }
    } else if tag == 11 && n == 2 {
        match read_txout_triple_list(b, p2) {
            Some((v, p3)) => Some((ConwayUtxoPredFailure::OutputTooBigUTxO(v), p3)),
            None => None,
        }
    } else if tag == 12 && n == 3 {
        match read_head(0, b, p2) {
            Some((a, p3)) => match read_head(0, b, p3) {
                Some((c, p4)) => Some(
                    (ConwayUtxoPredFailure::InsufficientCollateral(a, c), p4),
                ),
                None => None,
            },
            None => None,
        }
    } else if tag == 13 && n == 2 {
        match read_utxo_pair_list(b, p2) {
            Some((v, p3)) => Some((ConwayUtxoPredFailure::ScriptsNotPaidUTxO(Utxo(v)), p3)),
            None => None,
        }
    } else if tag == 14 && n == 2 {
        match read_exunits(b, p2) {
            Some((e, p3)) => Some((ConwayUtxoPredFailure::ExUnitsTooBigUTxO(e), p3)),
            None => None,
        }
    } else if tag == 15 && n == 2 {
        match read_head(0, b, p2) {
            Some((a, p3)) => Some(
                (ConwayUtxoPredFailure::CollateralContainsNonADA(DisplayValue { coin: a }), p3),
            ),
            None => None,
        }
    } else if tag == 16 && n == 1 {
        Some((ConwayUtxoPredFailure::WrongNetworkInTxBody(), p2))
    } else if tag == 17 && n == 2 {
        match read_head(0, b, p2) {
            Some((s, p3)) => Some((ConwayUtxoPredFailure::OutsideForecast(s), p3)),
            None => None,
        }
    } else if tag == 18 && n == 2 {
        match read_head(0, b, p2) {
            Some((s, p3)) => Some((ConwayUtxoPredFailure::TooManyCollateralInputs(s), p3)),
            None => None,
        }
    } else if tag == 19 && n == 1 {
        Some((ConwayUtxoPredFailure::NoCollateralInputs(), p2))
    } else if tag == 20 && n == 3 {
        match read_head(0, b, p2) {
            Some((a, p3)) => match read_head(0, b, p3) {
                Some((c, p4)) => Some(
                    (ConwayUtxoPredFailure::IncorrectTotalCollateralField(a, c), p4),
                ),
                None => None,
            },
            None => None,
        }
    } else if tag == 21 && n == 2 {
        match read_txout_coin_list(b, p2) {
            Some((v, p3)) => Some((ConwayUtxoPredFailure::BabbageOutputTooSmallUTxO(v), p3)),
            None => None,
        }
    } else if tag == 22 && n == 2 {
        match read_txin_list(b, p2) {
            Some((v, p3)) => Some((ConwayUtxoPredFailure::BabbageNonDisjointRefInputs(v), p3)),
            None => None,
        }
    } else {
        None
    }
}

/// Reads a witnessing rule failure.
#[verifier::rlimit(60)]
fn read_utxow_failure(b: &Vec<u8>, p: usize, fuel: usize) -> (r: Option<
    (ConwayUtxoWPredFailure, usize),
>)
    ensures
        r matches Some((t, q)) ==> sp_p_utxow_failure(b@, p as int, fuel as nat) == Some(
            (t@, q as int),
        ) && p < q <= b@.len(),
        r is None ==> sp_p_utxow_failure(b@, p as int, fuel as nat) is None,
{
    let (n, p1) = match read_head(4, b, p) {
        Some(x) => x,
        None => {
            return None;
        },
    };
    let (tag, p2) = match read_head(0, b, p1) {
        Some(x) => x,
        None => {
            return None;
        },
    };
    if tag == 0 && n == 2 {
        match read_utxo_failure(b, p2, fuel) {
            Some((e, p3)) => Some((ConwayUtxoWPredFailure::UtxoFailure(e), p3)),
            None => None,
        }
    } else if tag == 1 && n == 2 {
        match read_vkey(b, p2) {
            Some((w, p3)) => Some((ConwayUtxoWPredFailure::InvalidWitnessesUTXOW(w), p3)),
            None => None,
        }
    } else if tag == 2 && n == 2 {
        match read_vkey(b, p2) {
            Some((w, p3)) => Some((ConwayUtxoWPredFailure::MissingVKeyWitnessesUTXOW(w), p3)),
            None => None,
        }
    } else if tag == 3 && n == 2 {
        match read_bytes(b, p2) {
            Some((h, p3)) => Some(
                (ConwayUtxoWPredFailure::MissingScriptWitnessesUTXOW(DisplayScriptHash(h)), p3),
            ),
            None => None,
        }
    } else if tag == 4 && n == 2 {
        match read_bytes(b, p2) {
            Some((h, p3)) => Some(
                (
                    ConwayUtxoWPredFailure::ScriptWitnessNotValidatingUTXOW(DisplayScriptHash(h)),
                    p3,
                ),
            ),
            None => None,
        }
    } else if tag == 5 && n == 2 {
        match read_bytes(b, p2) {
            Some((h, p3)) => Some((ConwayUtxoWPredFailure::MissingTxBodyMetadataHash(h), p3)),
            None => None,
        }
    } else if tag == 6 && n == 2 {
        match read_bytes(b, p2) {
            Some((h, p3)) => Some((ConwayUtxoWPredFailure::MissingTxMetadata(h), p3)),
            None => None,
        }
    } else if tag == 7 && n == 3 {
        match read_bytes(b, p2) {
            Some((a, p3)) => match read_bytes(b, p3) {
                Some((c, p4)) => Some(
                    (ConwayUtxoWPredFailure::ConflictingMetadataHash(a, c), p4),
                ),
                None => None,
            },
            None => None,
        }
    } else if tag == 8 && n == 1 {
        Some((ConwayUtxoWPredFailure::InvalidMetadata(), p2))
    } else if tag == 9 && n == 2 {
        match read_bytes(b, p2) {
            Some((h, p3)) => Some(
                (ConwayUtxoWPredFailure::ExtraneousScriptWitnessesUTXOW(DisplayScriptHash(h)), p3),
            ),
            None => None,
        }
    } else if tag == 10 && n == 2 {
        match read_redeemer_list(b, p2) {
            Some((v, p3)) => Some((ConwayUtxoWPredFailure::MissingRedeemers(v), p3)),
            None => None,
        }
    } else if tag == 11 && n == 3 {
        match read_bytes_list(b, p2) {
            Some((a, p3)) => match read_bytes_list(b, p3) {
                Some((c, p4)) => Some(
                    (ConwayUtxoWPredFailure::MissingRequiredDatums(a, c), p4),
                ),
                None => None,
            },
            None => None,
        }
    } else if tag == 12 && n == 3 {
        match read_bytes_list(b, p2) {
            Some((a, p3)) => match read_bytes_list(b, p3) {
                Some((c, p4)) => Some(
                    (ConwayUtxoWPredFailure::NotAllowedSupplementalDatums(a, c), p4),
                ),
                None => None,
            },
            None => None,
        }
    } else if tag == 13 && n == 2 {
        match read_opt_hash(b, p2) {
            Some((o, p3)) => Some((ConwayUtxoWPredFailure::PPViewHashesDontMatch(o), p3)),
            None => None,
        }
    } else if tag == 14 && n == 2 {
        match read_txin_list(b, p2) {
            Some((v, p3)) => Some((ConwayUtxoWPredFailure::UnspendableUTxONoDatumHash(v), p3)),
            None => None,
        }
    } else if tag == 15 && n == 2 {
        match read_purpose_list(b, p2) {
            Some((v, p3)) => Some((ConwayUtxoWPredFailure::ExtraRedeemers(v), p3)),
            None => None,
        }
    } else if tag == 16 && n == 2 {
        match read_wrapped_hash_list(b, p2) {
            Some((v, p3)) => Some((ConwayUtxoWPredFailure::MalformedScriptWitnesses(v), p3)),
            None => None,
        }
    } else if tag == 17 && n == 2 {
        match read_wrapped_hash_list(b, p2) {
            Some((v, p3)) => Some((ConwayUtxoWPredFailure::MalformedReferenceScripts(v), p3)),
            None => None,
        }
    } else {
        None
    }
}

/// Reads a transaction-level failure.
#[verifier::rlimit(30)]
fn read_pred_error(b: &Vec<u8>, p: usize, fuel: usize) -> (r: Option<
    (ApplyConwayTxPredError, usize),
>)
    ensures
        r matches Some((t, q)) ==> sp_p_pred_error(b@, p as int, fuel as nat) == Some(
            (t@, q as int),
        ) && p < q <= b@.len(),
        r is None ==> sp_p_pred_error(b@, p as int, fuel as nat) is None,
{
    let (n, p1) = match read_head(4, b, p) {
        Some(x) => x,
        None => {
            return None;
        },
    };
    if n != 2 && n != 3 {
        return None;
    }
    let (tag, p2) = match read_head(0, b, p1) {
        Some(x) => x,
        None => {
            return None;
        },
    };
    if tag == 1 && n == 2 {
        match read_utxow_failure(b, p2, fuel) {
            Some((e, p3)) => Some((ApplyConwayTxPredError::UtxowFailure(e), p3)),
            None => None,
        }
    } else if tag == 2 && n == 2 {
        match read_utxow_failure(b, p2, fuel) {
            Some((e, p3)) => Some((ApplyConwayTxPredError::CertsFailure(e), p3)),
            None => None,
        }
    } else if tag == 3 && n == 2 {
        match read_utxow_failure(b, p2, fuel) {
            Some((e, p3)) => Some((ApplyConwayTxPredError::GovFailure(e), p3)),
            None => None,
        }
    } else if tag == 4 && n == 2 {
        match read_bytes(b, p2) {
            Some((h, p3)) => Some((ApplyConwayTxPredError::WdrlNotDelegatedToDRep(h), p3)),
            None => None,
        }
    } else if tag == 5 && n == 3 {
        match read_head(0, b, p2) {
            Some((c, p3)) => match read_head(0, b, p3) {
                Some((d, p4)) => Some((ApplyConwayTxPredError::TreasuryValueMismatch(c, d), p4)),
                None => None,
            },
            None => None,
        }
    } else if tag == 6 && n == 2 {
        match read_head(0, b, p2) {
            Some((s, p3)) => Some((ApplyConwayTxPredError::TxRefScriptsSizeTooBig(s), p3)),
            None => None,
        }
    } else if tag == 7 && n == 2 {
        match read_text(b, p2) {
            Some((s, p3)) => Some((ApplyConwayTxPredError::MempoolFailure(s), p3)),
            None => None,
        }
    } else {
        None
    }
}

/// Reads the failure list with its array head.
fn read_errors(b: &Vec<u8>, p: usize, fuel: usize) -> (r: Option<
    (Vec<ApplyConwayTxPredError>, usize),
>)
    ensures
        r matches Some((v, q)) ==> sp_p_errors(b@, p as int, fuel as nat) == Some(
            (v.deep_view(), q as int),
        ) && p < q <= b@.len(),
        r is None ==> sp_p_errors(b@, p as int, fuel as nat) is None,
{
    let (n, p1) = match read_head(4, b, p) {
        Some(x) => x,
        None => {
            return None;
        },
    };
    let mut acc: Vec<ApplyConwayTxPredError> = Vec::new();
    let mut q: usize = p1;
    let mut i: u64 = 0;
    proof {
        assert(acc.deep_view() =~= Seq::<PredErrorV>::empty());
        assert(acc.deep_view() + Seq::<PredErrorV>::empty() =~= acc.deep_view());
    }
    while i < n
        invariant
            i <= n,
            p < p1 <= q <= b@.len(),
            sp_head(4, b@, p as int) == Some((n, p1 as int)),
            match sp_p_pred_seq(b@, q as int, (n - i) as nat, fuel as nat) {
                Some(r2) => sp_p_pred_seq(b@, p1 as int, n as nat, fuel as nat) == Some(
                    (acc.deep_view() + r2.0, r2.1),
                ),
                None => sp_p_pred_seq(b@, p1 as int, n as nat, fuel as nat) is None,
            },
        decreases n - i,
    {
        let ghost old_dv = acc.deep_view();
        match read_pred_error(b, q, fuel) {
            Some((t, q2)) => {
                proof {
                    let rest = sp_p_pred_seq(b@, q2 as int, (n - i - 1) as nat, fuel as nat);
                    if rest is Some {
                        assert(old_dv + (seq![t@] + rest.unwrap().0) =~= (old_dv + seq![t@])
                            + rest.unwrap().0);
                    }
                }
                acc.push(t);
                q = q2;
                i = i + 1;
                proof {
                    let j = acc.len() - 1;
                    assert(acc.deep_view() =~= old_dv + seq![acc@[j as int]@]);
                }
            },
            None => {
                return None;
            },
        }
    }
    proof {
        assert(acc.deep_view() + Seq::<PredErrorV>::empty() =~= acc.deep_view());
    }
    Some((acc, q))
}

/// Reads the era tag.
fn read_era(b: &Vec<u8>, p: usize) -> (r: Option<(ShelleyBasedEra, usize)>)
    ensures
        r matches Some((t, q)) ==> sp_p_era(b@, p as int) == Some((t, q as int)) && p < q
            <= b@.len(),
        r is None ==> sp_p_era(b@, p as int) is None,
{
    match read_head(0, b, p) {
        None => None,
        Some((v, q)) => {
            if v == 1 {
                Some((ShelleyBasedEra::ShelleyBasedEraShelley, q))
            } else if v == 2 {
                Some((ShelleyBasedEra::ShelleyBasedEraAllegra, q))
            } else if v == 3 {
                Some((ShelleyBasedEra::ShelleyBasedEraMary, q))
            } else if v == 4 {
                Some((ShelleyBasedEra::ShelleyBasedEraAlonzo, q))
            } else if v == 5 {
                Some((ShelleyBasedEra::ShelleyBasedEraBabbage, q))
            } else if v == 6 {
                Some((ShelleyBasedEra::ShelleyBasedEraConway, q))
            } else {
                None
            }
        },
    }
}

/// The result of decoding a whole rejection-reason buffer: the tree at
/// the front of the buffer, with any trailing bytes ignored.
pub open spec fn sp_decode_rejection(b: Seq<u8>) -> Option<TxValidationErrorV> {
    match sp_p_rejection(b, 0, b.len() + 1) {
        Option::Some((t, _q)) => Option::Some(t),
        Option::None => Option::None,
    }
}

/// Decodes a rejection-reason buffer with the native grammar. The
/// buffer's first two bytes are the transport's `[2, ...]` framing of
/// the reason; the grammar reads them as the outer wrapper rather than
/// skipping them blind, which comes to the same bytes on node data.
/// Fails, so that the caller takes the fallback path, exactly when the
/// buffer is outside the grammar.
pub fn try_decode_error(buffer: &Vec<u8>) -> (r: Result<TxValidationError, DecodeError>)
    requires
        buffer@.len() < usize::MAX,
    ensures
        r matches Ok(t) ==> sp_decode_rejection(buffer@) == Some(t@),
        r is Err <==> sp_decode_rejection(buffer@) is None,
{
    let fuel: usize = buffer.len() + 1;
    let (n, p1) = match read_head(4, buffer, 0) {
        Some(x) => x,
        None => {
            return Err(DecodeError {});
        },
    };
    if n != 2 {
        return Err(DecodeError {});
    }
    let (tag, p2) = match read_head(0, buffer, p1) {
        Some(x) => x,
        None => {
            return Err(DecodeError {});
        },
    };
    if tag == 1 {
        let (n1, p3) = match read_head(4, buffer, p2) {
            Some(x) => x,
            None => {
                return Err(DecodeError {});
            },
        };
        if n1 != 1 {
            return Err(DecodeError {});
        }
        match read_errors(buffer, p3, fuel) {
            Some((es, _p4)) => Ok(
                TxValidationError::ByronTxValidationError { error: ApplyTxErr(es) },
            ),
            None => Err(DecodeError {}),
        }
    } else if tag == 2 {
        let (n1, p3) = match read_head(4, buffer, p2) {
            Some(x) => x,
            None => {
                return Err(DecodeError {});
            },
        };
        if n1 != 1 {
            return Err(DecodeError {});
        }
        let (n2, p4) = match read_head(4, buffer, p3) {
            Some(x) => x,
            None => {
                return Err(DecodeError {});
            },
        };
        if n2 != 2 {
            return Err(DecodeError {});
        }
        let (era, p5) = match read_era(buffer, p4) {
            Some(x) => x,
            None => {
                return Err(DecodeError {});
            },
        };
        match read_errors(buffer, p5, fuel) {
            Some((es, _p6)) => Ok(
                TxValidationError::ShelleyTxValidationError { error: ApplyTxErr(es), era },
            ),
            None => Err(DecodeError {}),
        }
    } else {
        Err(DecodeError {})
    }
}

} // verus!
