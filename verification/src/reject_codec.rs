//! The native decoder for rejection reasons: the grammar of the ledger's
//! CBOR error encoding, as specification-level parsers, and the executable
//! decoder proved against them. Shapes outside this grammar are left to
//! the fallback decoder.

use vstd::prelude::*;

use crate::cbor::sp_bytes;
use crate::cbor::sp_head;
use crate::cbor::sp_text;
use crate::cbor::read_bytes;
use crate::cbor::read_head;
use crate::reject::ApplyConwayTxPredError;
use crate::reject::ApplyTxErr;
use crate::reject::ConwayUtxoPredFailure;
use crate::reject::ConwayUtxoWPredFailure;
use crate::reject::DisplayExUnits;
use crate::reject::DisplayScriptHash;
use crate::reject::DisplayVKeyWitness;
use crate::reject::DisplayValue;
use crate::reject::Network;
use crate::reject::PlutusPurpose;
use crate::reject::PredErrorV;
use crate::reject::ScriptIntegrityHash;
use crate::reject::SerializableTxIn;
use crate::reject::ShelleyBasedEra;
use crate::reject::TxInV;
use crate::reject::TxOutV;
use crate::reject::TxValidationError;
use crate::reject::TxValidationErrorV;
use crate::reject::UtxoFailureV;
use crate::reject::UtxowFailureV;
use crate::reject::VKeyWitnessV;
use crate::reject::ValidityInterval;

verus! {

/// A transaction input: `[id, index]`.
pub open spec fn sp_p_txin(b: Seq<u8>, p: int) -> Option<(TxInV, int)> {
    match sp_head(4, b, p) {
        Option::Some((n, p1)) => if n == 2 {
            match sp_bytes(b, p1) {
                Option::Some((id, p2)) => match sp_head(0, b, p2) {
                    Option::Some((ix, p3)) => Option::Some(
                        (TxInV { tx_id: id, index: ix }, p3),
                    ),
                    Option::None => Option::None,
                },
                Option::None => Option::None,
            }
        } else {
            Option::None
        },
        Option::None => Option::None,
    }
}

/// A key witness: `[vkey, signature]`.
pub open spec fn sp_p_vkey(b: Seq<u8>, p: int) -> Option<(VKeyWitnessV, int)> {
    match sp_head(4, b, p) {
        Option::Some((n, p1)) => if n == 2 {
            match sp_bytes(b, p1) {
                Option::Some((vk, p2)) => match sp_bytes(b, p2) {
                    Option::Some((sg, p3)) => Option::Some(
                        (VKeyWitnessV { vkey: vk, signature: sg }, p3),
                    ),
                    Option::None => Option::None,
                },
                Option::None => Option::None,
            }
        } else {
            Option::None
        },
        Option::None => Option::None,
    }
}

/// An optional slot number: null, or an unsigned integer.
pub open spec fn sp_p_opt_u64(b: Seq<u8>, p: int) -> Option<(Option<u64>, int)> {
    if 0 <= p < b.len() && b[p] == 246 {
        Option::Some((Option::None, p + 1))
    } else {
        match sp_head(0, b, p) {
            Option::Some((v, q)) => Option::Some((Option::Some(v), q)),
            Option::None => Option::None,
        }
    }
}

/// A validity interval: `[invalid_before, invalid_hereafter]`.
pub open spec fn sp_p_validity(b: Seq<u8>, p: int) -> Option<(ValidityInterval, int)> {
    match sp_head(4, b, p) {
        Option::Some((n, p1)) => if n == 2 {
            match sp_p_opt_u64(b, p1) {
                Option::Some((a, p2)) => match sp_p_opt_u64(b, p2) {
                    Option::Some((c, p3)) => Option::Some(
                        (ValidityInterval { invalid_before: a, invalid_hereafter: c }, p3),
                    ),
                    Option::None => Option::None,
                },
                Option::None => Option::None,
            }
        } else {
            Option::None
        },
        Option::None => Option::None,
    }
}

/// Execution units: `[mem, steps]`.
pub open spec fn sp_p_exunits(b: Seq<u8>, p: int) -> Option<(DisplayExUnits, int)> {
    match sp_head(4, b, p) {
        Option::Some((n, p1)) => if n == 2 {
            match sp_head(0, b, p1) {
                Option::Some((m, p2)) => match sp_head(0, b, p2) {
                    Option::Some((st, p3)) => Option::Some(
                        (DisplayExUnits { mem: m, steps: st }, p3),
                    ),
                    Option::None => Option::None,
                },
                Option::None => Option::None,
            }
        } else {
            Option::None
        },
        Option::None => Option::None,
    }
}

/// An optional script integrity hash: null, or a byte string.
pub open spec fn sp_p_opt_hash(b: Seq<u8>, p: int) -> Option<(Option<Seq<u8>>, int)> {
    if 0 <= p < b.len() && b[p] == 246 {
        Option::Some((Option::None, p + 1))
    } else {
        match sp_bytes(b, p) {
            Option::Some((h, q)) => Option::Some((Option::Some(h), q)),
            Option::None => Option::None,
        }
    }
}

/// A script purpose: an unsigned integer below four.
pub open spec fn sp_p_purpose(b: Seq<u8>, p: int) -> Option<(PlutusPurpose, int)> {
    match sp_head(0, b, p) {
        Option::Some((v, q)) => if v == 0 {
            Option::Some((PlutusPurpose::Spending, q))
        } else if v == 1 {
            Option::Some((PlutusPurpose::Minting, q))
        } else if v == 2 {
            Option::Some((PlutusPurpose::Certifying, q))
        } else if v == 3 {
            Option::Some((PlutusPurpose::Rewarding, q))
        } else {
            Option::None
        },
        Option::None => Option::None,
    }
}

/// A network id: zero for mainnet, one for testnet.
pub open spec fn sp_p_network(b: Seq<u8>, p: int) -> Option<(Network, int)> {
    match sp_head(0, b, p) {
        Option::Some((v, q)) => if v == 0 {
            Option::Some((Network::Mainnet, q))
        } else if v == 1 {
            Option::Some((Network::Testnet, q))
        } else {
            Option::None
        },
        Option::None => Option::None,
    }
}

/// A missing-redeemer entry: `[purpose, script hash]`.
pub open spec fn sp_p_redeemer(b: Seq<u8>, p: int) -> Option<((PlutusPurpose, Seq<u8>), int)> {
    match sp_head(4, b, p) {
        Option::Some((n, p1)) => if n == 2 {
            match sp_p_purpose(b, p1) {
                Option::Some((pu, p2)) => match sp_bytes(b, p2) {
                    Option::Some((h, p3)) => Option::Some(((pu, h), p3)),
                    Option::None => Option::None,
                },
                Option::None => Option::None,
            }
        } else {
            Option::None
        },
        Option::None => Option::None,
    }
}

/// `n` consecutive transaction inputs.
pub open spec fn sp_p_txin_seq(b: Seq<u8>, p: int, n: nat) -> Option<(Seq<TxInV>, int)>
    decreases n,
{
    if n == 0 {
        Option::Some((Seq::empty(), p))
    } else {
        match sp_p_txin(b, p) {
            Option::Some((t, q)) => match sp_p_txin_seq(b, q, (n - 1) as nat) {
                Option::Some((rest, r)) => Option::Some((seq![t] + rest, r)),
                Option::None => Option::None,
            },
            Option::None => Option::None,
        }
    }
}

/// `n` consecutive byte strings.
pub open spec fn sp_p_bytes_seq(b: Seq<u8>, p: int, n: nat) -> Option<(Seq<Seq<u8>>, int)>
    decreases n,
{
    if n == 0 {
        Option::Some((Seq::empty(), p))
    } else {
        match sp_bytes(b, p) {
            Option::Some((t, q)) => match sp_p_bytes_seq(b, q, (n - 1) as nat) {
                Option::Some((rest, r)) => Option::Some((seq![t] + rest, r)),
                Option::None => Option::None,
            },
            Option::None => Option::None,
        }
    }
}

/// `n` consecutive script purposes.
pub open spec fn sp_p_purpose_seq(b: Seq<u8>, p: int, n: nat) -> Option<(Seq<PlutusPurpose>, int)>
    decreases n,
{
    if n == 0 {
        Option::Some((Seq::empty(), p))
    } else {
        match sp_p_purpose(b, p) {
            Option::Some((t, q)) => match sp_p_purpose_seq(b, q, (n - 1) as nat) {
                Option::Some((rest, r)) => Option::Some((seq![t] + rest, r)),
                Option::None => Option::None,
            },
            Option::None => Option::None,
        }
    }
}

/// `n` consecutive missing-redeemer entries.
pub open spec fn sp_p_redeemer_seq(b: Seq<u8>, p: int, n: nat) -> Option<
    (Seq<(PlutusPurpose, Seq<u8>)>, int),
>
    decreases n,
{
    if n == 0 {
        Option::Some((Seq::empty(), p))
    } else {
        match sp_p_redeemer(b, p) {
            Option::Some((t, q)) => match sp_p_redeemer_seq(b, q, (n - 1) as nat) {
                Option::Some((rest, r)) => Option::Some((seq![t] + rest, r)),
                Option::None => Option::None,
            },
            Option::None => Option::None,
        }
    }
}

/// A list of transaction inputs with its array head.
pub open spec fn sp_p_txin_list(b: Seq<u8>, p: int) -> Option<(Seq<TxInV>, int)> {
    match sp_head(4, b, p) {
        Option::Some((n, q)) => sp_p_txin_seq(b, q, n as nat),
        Option::None => Option::None,
    }
}

/// A list of byte strings with its array head.
pub open spec fn sp_p_bytes_list(b: Seq<u8>, p: int) -> Option<(Seq<Seq<u8>>, int)> {
    match sp_head(4, b, p) {
        Option::Some((n, q)) => sp_p_bytes_seq(b, q, n as nat),
        Option::None => Option::None,
    }
}

/// A list of script purposes with its array head.
pub open spec fn sp_p_purpose_list(b: Seq<u8>, p: int) -> Option<(Seq<PlutusPurpose>, int)> {
    match sp_head(4, b, p) {
        Option::Some((n, q)) => sp_p_purpose_seq(b, q, n as nat),
        Option::None => Option::None,
    }
}

/// A list of missing-redeemer entries with its array head.
pub open spec fn sp_p_redeemer_list(b: Seq<u8>, p: int) -> Option<
    (Seq<(PlutusPurpose, Seq<u8>)>, int),
> {
    match sp_head(4, b, p) {
        Option::Some((n, q)) => sp_p_redeemer_seq(b, q, n as nat),
        Option::None => Option::None,
    }
}

/// A transaction output: `[address, coin]`. This is the modeled output
/// shape: an output carrying a multiasset value, a datum or a reference
/// script is outside the native grammar and takes the fallback path.
pub open spec fn sp_p_txout(b: Seq<u8>, p: int) -> Option<(TxOutV, int)> {
    match sp_head(4, b, p) {
        Option::Some((n, p1)) => if n == 2 {
            match sp_bytes(b, p1) {
                Option::Some((addr, p2)) => match sp_head(0, b, p2) {
                    Option::Some((coin, p3)) => Option::Some(
                        (TxOutV { address: addr, coin: coin }, p3),
                    ),
                    Option::None => Option::None,
                },
                Option::None => Option::None,
            }
        } else {
            Option::None
        },
        Option::None => Option::None,
    }
}

/// An oversize-output report: `[actual, max, output]`.
pub open spec fn sp_p_txout_triple(b: Seq<u8>, p: int) -> Option<((u64, u64, TxOutV), int)> {
    match sp_head(4, b, p) {
        Option::Some((n, p1)) => if n == 3 {
            match sp_head(0, b, p1) {
                Option::Some((a, p2)) => match sp_head(0, b, p2) {
                    Option::Some((m, p3)) => match sp_p_txout(b, p3) {
                        Option::Some((t, p4)) => Option::Some(((a, m, t), p4)),
                        Option::None => Option::None,
                    },
                    Option::None => Option::None,
                },
                Option::None => Option::None,
            }
        } else {
            Option::None
        },
        Option::None => Option::None,
    }
}

/// An output with its required minimum: `[output, coin]`.
pub open spec fn sp_p_txout_coin(b: Seq<u8>, p: int) -> Option<((TxOutV, u64), int)> {
    match sp_head(4, b, p) {
        Option::Some((n, p1)) => if n == 2 {
            match sp_p_txout(b, p1) {
                Option::Some((t, p2)) => match sp_head(0, b, p2) {
                    Option::Some((c, p3)) => Option::Some(((t, c), p3)),
                    Option::None => Option::None,
                },
                Option::None => Option::None,
            }
        } else {
            Option::None
        },
        Option::None => Option::None,
    }
}

/// A UTxO entry: `[input, output]`.
pub open spec fn sp_p_utxo_pair(b: Seq<u8>, p: int) -> Option<((TxInV, TxOutV), int)> {
    match sp_head(4, b, p) {
        Option::Some((n, p1)) => if n == 2 {
            match sp_p_txin(b, p1) {
                Option::Some((i, p2)) => match sp_p_txout(b, p2) {
                    Option::Some((o, p3)) => Option::Some(((i, o), p3)),
                    Option::None => Option::None,
                },
                Option::None => Option::None,
            }
        } else {
            Option::None
        },
        Option::None => Option::None,
    }
}

/// `n` consecutive transaction outputs.
pub open spec fn sp_p_txout_seq(b: Seq<u8>, p: int, n: nat) -> Option<(Seq<TxOutV>, int)>
    decreases n,
{
    if n == 0 {
        Option::Some((Seq::empty(), p))
    } else {
        match sp_p_txout(b, p) {
            Option::Some((t, q)) => match sp_p_txout_seq(b, q, (n - 1) as nat) {
                Option::Some((rest, r)) => Option::Some((seq![t] + rest, r)),
                Option::None => Option::None,
            },
            Option::None => Option::None,
        }
    }
}

/// `n` consecutive oversize-output reports.
pub open spec fn sp_p_txout_triple_seq(b: Seq<u8>, p: int, n: nat) -> Option<
    (Seq<(u64, u64, TxOutV)>, int),
>
    decreases n,
{
    if n == 0 {
        Option::Some((Seq::empty(), p))
    } else {
        match sp_p_txout_triple(b, p) {
            Option::Some((t, q)) => match sp_p_txout_triple_seq(b, q, (n - 1) as nat) {
                Option::Some((rest, r)) => Option::Some((seq![t] + rest, r)),
                Option::None => Option::None,
            },
            Option::None => Option::None,
        }
    }
}

/// `n` consecutive outputs with their minimums.
pub open spec fn sp_p_txout_coin_seq(b: Seq<u8>, p: int, n: nat) -> Option<
    (Seq<(TxOutV, u64)>, int),
>
    decreases n,
{
    if n == 0 {
        Option::Some((Seq::empty(), p))
    } else {
        match sp_p_txout_coin(b, p) {
            Option::Some((t, q)) => match sp_p_txout_coin_seq(b, q, (n - 1) as nat) {
                Option::Some((rest, r)) => Option::Some((seq![t] + rest, r)),
                Option::None => Option::None,
            },
            Option::None => Option::None,
        }
    }
}

/// `n` consecutive UTxO entries.
pub open spec fn sp_p_utxo_pair_seq(b: Seq<u8>, p: int, n: nat) -> Option<
    (Seq<(TxInV, TxOutV)>, int),
>
    decreases n,
{
    if n == 0 {
        Option::Some((Seq::empty(), p))
    } else {
        match sp_p_utxo_pair(b, p) {
            Option::Some((t, q)) => match sp_p_utxo_pair_seq(b, q, (n - 1) as nat) {
                Option::Some((rest, r)) => Option::Some((seq![t] + rest, r)),
                Option::None => Option::None,
            },
            Option::None => Option::None,
        }
    }
}

/// A list of transaction outputs with its array head.
pub open spec fn sp_p_txout_list(b: Seq<u8>, p: int) -> Option<(Seq<TxOutV>, int)> {
    match sp_head(4, b, p) {
        Option::Some((n, q)) => sp_p_txout_seq(b, q, n as nat),
        Option::None => Option::None,
    }
}

/// A list of oversize-output reports with its array head.
pub open spec fn sp_p_txout_triple_list(b: Seq<u8>, p: int) -> Option<
    (Seq<(u64, u64, TxOutV)>, int),
> {
    match sp_head(4, b, p) {
        Option::Some((n, q)) => sp_p_txout_triple_seq(b, q, n as nat),
        Option::None => Option::None,
    }
}

/// A list of outputs with their minimums, with its array head.
pub open spec fn sp_p_txout_coin_list(b: Seq<u8>, p: int) -> Option<(Seq<(TxOutV, u64)>, int)> {
    match sp_head(4, b, p) {
        Option::Some((n, q)) => sp_p_txout_coin_seq(b, q, n as nat),
        Option::None => Option::None,
    }
}

/// A list of UTxO entries with its array head.
pub open spec fn sp_p_utxo_pair_list(b: Seq<u8>, p: int) -> Option<(Seq<(TxInV, TxOutV)>, int)> {
    match sp_head(4, b, p) {
        Option::Some((n, q)) => sp_p_utxo_pair_seq(b, q, n as nat),
        Option::None => Option::None,
    }
}

/// A UTxO rule failure: `[tag, payload...]`, all tags the ledger emits.
/// Outputs appear in the modeled `[address, coin]` shape and values as
/// pure coins; richer forms take the fallback path.
pub open spec fn sp_p_utxo_failure(b: Seq<u8>, p: int, fuel: nat) -> Option<(UtxoFailureV, int)>
    decreases fuel,
{
    if fuel == 0 {
        Option::None
    } else {
        match sp_head(4, b, p) {
            Option::Some((n, p1)) => match sp_head(0, b, p1) {
                Option::Some((tag, p2)) => {
                    if tag == 0 && n == 2 {
                        match sp_p_utxo_failure(b, p2, (fuel - 1) as nat) {
                            Option::Some((e, p3)) => Option::Some(
                                (UtxoFailureV::UtxosFailure(Box::new(e)), p3),
                            ),
                            Option::None => Option::None,
                        }
                    } else if tag == 1 && n == 2 {
                        match sp_p_txin_list(b, p2) {
                            Option::Some((v, p3)) => Option::Some(
                                (UtxoFailureV::BadInputsUTxO(v), p3),
                            ),
                            Option::None => Option::None,
                        }
                    } else if tag == 2 && n == 3 {
                        match sp_p_validity(b, p2) {
                            Option::Some((vi, p3)) => match sp_head(0, b, p3) {
                                Option::Some((s, p4)) => Option::Some(
                                    (UtxoFailureV::OutsideValidityIntervalUTxO(vi, s), p4),
                                ),
                                Option::None => Option::None,
                            },
                            Option::None => Option::None,
                        }
                    } else if tag == 3 && n == 2 {
                        match sp_head(0, b, p2) {
                            Option::Some((s, p3)) => Option::Some(
                                (UtxoFailureV::MaxTxSizeUTxO(s), p3),
                            ),
                            Option::None => Option::None,
                        }
                    } else if tag == 4 && n == 1 {
                        Option::Some((UtxoFailureV::InputSetEmptyUTxO, p2))
                    } else if tag == 5 && n == 3 {
                        match sp_head(0, b, p2) {
                            Option::Some((a, p3)) => match sp_head(0, b, p3) {
                                Option::Some((c, p4)) => Option::Some(
                                    (UtxoFailureV::FeeTooSmallUTxO(a, c), p4),
                                ),
                                Option::None => Option::None,
                            },
                            Option::None => Option::None,
                        }
                    } else if tag == 6 && n == 3 {
                        match sp_head(0, b, p2) {
                            Option::Some((a, p3)) => match sp_head(0, b, p3) {
                                Option::Some((c, p4)) => Option::Some(
                                    (
                                        UtxoFailureV::ValueNotConservedUTxO(
                                            DisplayValue { coin: a },
                                            DisplayValue { coin: c },
                                        ),
                                        p4,
                                    ),
                                ),
                                Option::None => Option::None,
                            },
                            Option::None => Option::None,
                        }
                    } else if tag == 7 && n == 3 {
                        match sp_p_network(b, p2) {
                            Option::Some((nw, p3)) => match sp_p_bytes_list(b, p3) {
                                Option::Some((v, p4)) => Option::Some(
                                    (UtxoFailureV::WrongNetwork(nw, v), p4),
                                ),
                                Option::None => Option::None,
                            },
                            Option::None => Option::None,
                        }
                    } else if tag == 8 && n == 3 {
                        match sp_p_network(b, p2) {
                            Option::Some((nw, p3)) => match sp_p_bytes_list(b, p3) {
                                Option::Some((v, p4)) => Option::Some(
                                    (UtxoFailureV::WrongNetworkWithdrawal(nw, v), p4),
                                ),
                                Option::None => Option::None,
                            },
                            Option::None => Option::None,
                        }
                    } else if tag == 9 && n == 2 {
                        match sp_p_txout_list(b, p2) {
                            Option::Some((v, p3)) => Option::Some(
                                (UtxoFailureV::OutputTooSmallUTxO(v), p3),
                            ),
                            Option::None => Option::None,
                        }
                    } else if tag == 10 && n == 2 {
                        match sp_p_txout_list(b, p2) {
                            Option::Some((v, p3)) => Option::Some(
                                (UtxoFailureV::OutputBootAddrAttrsTooBig(v), p3),
                            ),
                            Option::None => Option::None,
                        }
                    } else if tag == 11 && n == 2 {
                        match sp_p_txout_triple_list(b, p2) {
                            Option::Some((v, p3)) => Option::Some(
                                (UtxoFailureV::OutputTooBigUTxO(v), p3),
                            ),
                            Option::None => Option::None,
                        }
                    } else if tag == 12 && n == 3 {
                        match sp_head(0, b, p2) {
                            Option::Some((a, p3)) => match sp_head(0, b, p3) {
                                Option::Some((c, p4)) => Option::Some(
                                    (UtxoFailureV::InsufficientCollateral(a, c), p4),
                                ),
                                Option::None => Option::None,
                            },
                            Option::None => Option::None,
                        }
                    } else if tag == 13 && n == 2 {
                        match sp_p_utxo_pair_list(b, p2) {
                            Option::Some((u, p3)) => Option::Some(
                                (UtxoFailureV::ScriptsNotPaidUTxO(u), p3),
                            ),
                            Option::None => Option::None,
                        }
                    } else if tag == 14 && n == 2 {
                        match sp_p_exunits(b, p2) {
                            Option::Some((e, p3)) => Option::Some(
                                (UtxoFailureV::ExUnitsTooBigUTxO(e), p3),
                            ),
                            Option::None => Option::None,
                        }
                    } else if tag == 15 && n == 2 {
                        match sp_head(0, b, p2) {
                            Option::Some((a, p3)) => Option::Some(
                                (
                                    UtxoFailureV::CollateralContainsNonADA(
                                        DisplayValue { coin: a },
                                    ),
                                    p3,
                                ),
                            ),
                            Option::None => Option::None,
                        }
                    } else if tag == 16 && n == 1 {
                        Option::Some((UtxoFailureV::WrongNetworkInTxBody, p2))
                    } else if tag == 17 && n == 2 {
                        match sp_head(0, b, p2) {
                            Option::Some((s, p3)) => Option::Some(
                                (UtxoFailureV::OutsideForecast(s), p3),
                            ),
                            Option::None => Option::None,
                        }
                    } else if tag == 18 && n == 2 {
                        match sp_head(0, b, p2) {
                            Option::Some((s, p3)) => Option::Some(
                                (UtxoFailureV::TooManyCollateralInputs(s), p3),
                            ),
                            Option::None => Option::None,
                        }
                    } else if tag == 19 && n == 1 {
                        Option::Some((UtxoFailureV::NoCollateralInputs, p2))
                    } else if tag == 20 && n == 3 {
                        match sp_head(0, b, p2) {
                            Option::Some((a, p3)) => match sp_head(0, b, p3) {
                                Option::Some((c, p4)) => Option::Some(
                                    (UtxoFailureV::IncorrectTotalCollateralField(a, c), p4),
                                ),
                                Option::None => Option::None,
                            },
                            Option::None => Option::None,
                        }
                    } else if tag == 21 && n == 2 {
                        match sp_p_txout_coin_list(b, p2) {
                            Option::Some((v, p3)) => Option::Some(
                                (UtxoFailureV::BabbageOutputTooSmallUTxO(v), p3),
                            ),
                            Option::None => Option::None,
                        }
                    } else if tag == 22 && n == 2 {
                        match sp_p_txin_list(b, p2) {
                            Option::Some((v, p3)) => Option::Some(
                                (UtxoFailureV::BabbageNonDisjointRefInputs(v), p3),
                            ),
                            Option::None => Option::None,
                        }
                    } else {
                        Option::None
                    }
                },
                Option::None => Option::None,
            },
            Option::None => Option::None,
        }
    }
}

/// A witnessing rule failure: `[tag, payload...]`.
pub open spec fn sp_p_utxow_failure(b: Seq<u8>, p: int, fuel: nat) -> Option<(UtxowFailureV, int)> {
    match sp_head(4, b, p) {
        Option::Some((n, p1)) => match sp_head(0, b, p1) {
            Option::Some((tag, p2)) => {
                if tag == 0 && n == 2 {
                    match sp_p_utxo_failure(b, p2, fuel) {
                        Option::Some((e, p3)) => Option::Some(
                            (UtxowFailureV::UtxoFailure(e), p3),
                        ),
                        Option::None => Option::None,
                    }
                } else if tag == 1 && n == 2 {
                    match sp_p_vkey(b, p2) {
                        Option::Some((w, p3)) => Option::Some(
                            (UtxowFailureV::InvalidWitnessesUTXOW(w), p3),
                        ),
                        Option::None => Option::None,
                    }
                } else if tag == 2 && n == 2 {
                    match sp_p_vkey(b, p2) {
                        Option::Some((w, p3)) => Option::Some(
                            (UtxowFailureV::MissingVKeyWitnessesUTXOW(w), p3),
                        ),
                        Option::None => Option::None,
                    }
                } else if tag == 3 && n == 2 {
                    match sp_bytes(b, p2) {
                        Option::Some((h, p3)) => Option::Some(
                            (UtxowFailureV::MissingScriptWitnessesUTXOW(h), p3),
                        ),
                        Option::None => Option::None,
                    }
                } else if tag == 4 && n == 2 {
                    match sp_bytes(b, p2) {
                        Option::Some((h, p3)) => Option::Some(
                            (UtxowFailureV::ScriptWitnessNotValidatingUTXOW(h), p3),
                        ),
                        Option::None => Option::None,
                    }
                } else if tag == 5 && n == 2 {
                    match sp_bytes(b, p2) {
                        Option::Some((h, p3)) => Option::Some(
                            (UtxowFailureV::MissingTxBodyMetadataHash(h), p3),
                        ),
                        Option::None => Option::None,
                    }
                } else if tag == 6 && n == 2 {
                    match sp_bytes(b, p2) {
                        Option::Some((h, p3)) => Option::Some(
                            (UtxowFailureV::MissingTxMetadata(h), p3),
                        ),
                        Option::None => Option::None,
                    }
                } else if tag == 7 && n == 3 {
                    match sp_bytes(b, p2) {
                        Option::Some((a, p3)) => match sp_bytes(b, p3) {
                            Option::Some((c, p4)) => Option::Some(
                                (UtxowFailureV::ConflictingMetadataHash(a, c), p4),
                            ),
                            Option::None => Option::None,
                        },
                        Option::None => Option::None,
                    }
                } else if tag == 8 && n == 1 {
                    Option::Some((UtxowFailureV::InvalidMetadata, p2))
                } else if tag == 9 && n == 2 {
                    match sp_bytes(b, p2) {
                        Option::Some((h, p3)) => Option::Some(
                            (UtxowFailureV::ExtraneousScriptWitnessesUTXOW(h), p3),
                        ),
                        Option::None => Option::None,
                    }
                } else if tag == 10 && n == 2 {
                    match sp_p_redeemer_list(b, p2) {
                        Option::Some((v, p3)) => Option::Some(
                            (UtxowFailureV::MissingRedeemers(v), p3),
                        ),
                        Option::None => Option::None,
                    }
                } else if tag == 11 && n == 3 {
                    match sp_p_bytes_list(b, p2) {
                        Option::Some((a, p3)) => match sp_p_bytes_list(b, p3) {
                            Option::Some((c, p4)) => Option::Some(
                                (UtxowFailureV::MissingRequiredDatums(a, c), p4),
                            ),
                            Option::None => Option::None,
                        },
                        Option::None => Option::None,
                    }
                } else if tag == 12 && n == 3 {
                    match sp_p_bytes_list(b, p2) {
                        Option::Some((a, p3)) => match sp_p_bytes_list(b, p3) {
                            Option::Some((c, p4)) => Option::Some(
                                (UtxowFailureV::NotAllowedSupplementalDatums(a, c), p4),
                            ),
                            Option::None => Option::None,
                        },
                        Option::None => Option::None,
                    }
                } else if tag == 13 && n == 2 {
                    match sp_p_opt_hash(b, p2) {
                        Option::Some((o, p3)) => Option::Some(
                            (UtxowFailureV::PPViewHashesDontMatch(o), p3),
                        ),
                        Option::None => Option::None,
                    }
                } else if tag == 14 && n == 2 {
                    match sp_p_txin_list(b, p2) {
                        Option::Some((v, p3)) => Option::Some(
                            (UtxowFailureV::UnspendableUTxONoDatumHash(v), p3),
                        ),
                        Option::None => Option::None,
                    }
                } else if tag == 15 && n == 2 {
                    match sp_p_purpose_list(b, p2) {
                        Option::Some((v, p3)) => Option::Some(
                            (UtxowFailureV::ExtraRedeemers(v), p3),
                        ),
                        Option::None => Option::None,
                    }
                } else if tag == 16 && n == 2 {
                    match sp_p_bytes_list(b, p2) {
                        Option::Some((v, p3)) => Option::Some(
                            (UtxowFailureV::MalformedScriptWitnesses(v), p3),
                        ),
                        Option::None => Option::None,
                    }
                } else if tag == 17 && n == 2 {
                    match sp_p_bytes_list(b, p2) {
                        Option::Some((v, p3)) => Option::Some(
                            (UtxowFailureV::MalformedReferenceScripts(v), p3),
                        ),
                        Option::None => Option::None,
                    }
                } else {
                    Option::None
                }
            },
            Option::None => Option::None,
        },
        Option::None => Option::None,
    }
}

/// A transaction-level failure: `[tag, payload...]`; the treasury
/// mismatch carries its two coins beside the tag.
pub open spec fn sp_p_pred_error(b: Seq<u8>, p: int, fuel: nat) -> Option<(PredErrorV, int)> {
    match sp_head(4, b, p) {
        Option::Some((n, p1)) => if n == 2 || n == 3 {
            match sp_head(0, b, p1) {
                Option::Some((tag, p2)) => {
                    if tag == 1 && n == 2 {
                        match sp_p_utxow_failure(b, p2, fuel) {
                            Option::Some((e, p3)) => Option::Some(
                                (PredErrorV::UtxowFailure(e), p3),
                            ),
                            Option::None => Option::None,
                        }
                    } else if tag == 2 && n == 2 {
                        match sp_p_utxow_failure(b, p2, fuel) {
                            Option::Some((e, p3)) => Option::Some(
                                (PredErrorV::CertsFailure(e), p3),
                            ),
                            Option::None => Option::None,
                        }
                    } else if tag == 3 && n == 2 {
                        match sp_p_utxow_failure(b, p2, fuel) {
                            Option::Some((e, p3)) => Option::Some(
                                (PredErrorV::GovFailure(e), p3),
                            ),
                            Option::None => Option::None,
                        }
                    } else if tag == 4 && n == 2 {
                        match sp_bytes(b, p2) {
                            Option::Some((h, p3)) => Option::Some(
                                (PredErrorV::WdrlNotDelegatedToDRep(h), p3),
                            ),
                            Option::None => Option::None,
                        }
                    } else if tag == 5 {
                        if n == 3 {
                            match sp_head(0, b, p2) {
                                Option::Some((c, p3)) => match sp_head(0, b, p3) {
                                    Option::Some((d, p4)) => Option::Some(
                                        (PredErrorV::TreasuryValueMismatch(c, d), p4),
                                    ),
                                    Option::None => Option::None,
                                },
                                Option::None => Option::None,
                            }
                        } else {
                            Option::None
                        }
                    } else if tag == 6 && n == 2 {
                        match sp_head(0, b, p2) {
                            Option::Some((s, p3)) => Option::Some(
                                (PredErrorV::TxRefScriptsSizeTooBig(s), p3),
                            ),
                            Option::None => Option::None,
                        }
                    } else if tag == 7 && n == 2 {
                        match sp_text(b, p2) {
                            Option::Some((s, p3)) => Option::Some(
                                (PredErrorV::MempoolFailure(s), p3),
                            ),
                            Option::None => Option::None,
                        }
                    } else {
                        Option::None
                    }
                },
                Option::None => Option::None,
            }
        } else {
            Option::None
        },
        Option::None => Option::None,
    }
}

/// `n` consecutive transaction-level failures.
pub open spec fn sp_p_pred_seq(b: Seq<u8>, p: int, n: nat, fuel: nat) -> Option<
    (Seq<PredErrorV>, int),
>
    decreases n,
{
    if n == 0 {
        Option::Some((Seq::empty(), p))
    } else {
        match sp_p_pred_error(b, p, fuel) {
            Option::Some((t, q)) => match sp_p_pred_seq(b, q, (n - 1) as nat, fuel) {
                Option::Some((rest, r)) => Option::Some((seq![t] + rest, r)),
                Option::None => Option::None,
            },
            Option::None => Option::None,
        }
    }
}

/// The failure list with its array head.
pub open spec fn sp_p_errors(b: Seq<u8>, p: int, fuel: nat) -> Option<(Seq<PredErrorV>, int)> {
    match sp_head(4, b, p) {
        Option::Some((n, q)) => sp_p_pred_seq(b, q, n as nat, fuel),
        Option::None => Option::None,
    }
}

/// The era tag of a Shelley-based era.
pub open spec fn sp_p_era(b: Seq<u8>, p: int) -> Option<(ShelleyBasedEra, int)> {
    match sp_head(0, b, p) {
        Option::Some((v, q)) => if v == 1 {
            Option::Some((ShelleyBasedEra::ShelleyBasedEraShelley, q))
        } else if v == 2 {
            Option::Some((ShelleyBasedEra::ShelleyBasedEraAllegra, q))
        } else if v == 3 {
            Option::Some((ShelleyBasedEra::ShelleyBasedEraMary, q))
        } else if v == 4 {
            Option::Some((ShelleyBasedEra::ShelleyBasedEraAlonzo, q))
        } else if v == 5 {
            Option::Some((ShelleyBasedEra::ShelleyBasedEraBabbage, q))
        } else if v == 6 {
            Option::Some((ShelleyBasedEra::ShelleyBasedEraConway, q))
        } else {
            Option::None
        },
        Option::None => Option::None,
    }
}

/// A whole rejection reason: `[1, errors]` for a Byron-era error, or
/// `[2, [[era, errors]]]` for a Shelley-based one. Trailing bytes after
/// the reason are ignored, as the transport pads messages.
pub open spec fn sp_p_rejection(b: Seq<u8>, p: int, fuel: nat) -> Option<
    (TxValidationErrorV, int),
> {
    match sp_head(4, b, p) {
        Option::Some((n, p1)) => if n == 2 {
            match sp_head(0, b, p1) {
                Option::Some((tag, p2)) => if tag == 1 {
                    match sp_head(4, b, p2) {
                        Option::Some((n1, p3)) => if n1 == 1 {
                            match sp_p_errors(b, p3, fuel) {
                                Option::Some((es, p4)) => Option::Some(
                                    (TxValidationErrorV::Byron { error: es }, p4),
                                ),
                                Option::None => Option::None,
                            }
                        } else {
                            Option::None
                        },
                        Option::None => Option::None,
                    }
                } else if tag == 2 {
                    match sp_head(4, b, p2) {
                        Option::Some((n1, p3)) => if n1 == 1 {
                            match sp_head(4, b, p3) {
                                Option::Some((n2, p4)) => if n2 == 2 {
                                    match sp_p_era(b, p4) {
                                        Option::Some((era, p5)) => match sp_p_errors(
                                            b,
                                            p5,
                                            fuel,
                                        ) {
                                            Option::Some((es, p6)) => Option::Some(
                                                (
                                                    TxValidationErrorV::Shelley {
                                                        error: es,
                                                        era: era,
                                                    },
                                                    p6,
                                                ),
                                            ),
                                            Option::None => Option::None,
                                        },
                                        Option::None => Option::None,
                                    }
                                } else {
                                    Option::None
                                },
                                Option::None => Option::None,
                            }
                        } else {
                            Option::None
                        },
                        Option::None => Option::None,
                    }
                } else {
                    Option::None
                },
                Option::None => Option::None,
            }
        } else {
            Option::None
        },
        Option::None => Option::None,
    }
}

/// What the decoder reports when the bytes are outside the native
/// grammar, an unknown tag included; the caller then takes the fallback
/// path.
#[derive(Debug, Clone, PartialEq, Eq, Structural)]
pub struct DecodeError {}

impl DecodeError {
    /// A short human-readable account of the failure.
    pub fn message(&self) -> (r: String)
        ensures
            r@ == "rejection reason outside the native decoder's grammar"@,
    {
        <String as vstd::string::StringExecFns>::from_str(
            "rejection reason outside the native decoder's grammar",
        )
    }
}

} // verus!
