//! The native grammar only yields well-formed trees: every successful
//! parse satisfies `wf_rejection`, so the round trip of
//! `reject_roundtrip` covers every decoded rejection reason.

use vstd::prelude::*;

use crate::cbor::is_ascii_char;
use crate::cbor::sp_bytes;
use crate::cbor::sp_head;
use crate::cbor::sp_text;
use crate::reject_codec::sp_p_bytes_list;
use crate::reject_codec::sp_p_bytes_seq;
use crate::reject_codec::sp_p_errors;
use crate::reject_codec::sp_p_pred_error;
use crate::reject_codec::sp_p_pred_seq;
use crate::reject_codec::sp_p_purpose;
use crate::reject_codec::sp_p_purpose_seq;
use crate::reject_codec::sp_p_redeemer;
use crate::reject_codec::sp_p_redeemer_seq;
use crate::reject_codec::sp_p_txin;
use crate::reject_codec::sp_p_txin_seq;
use crate::reject_codec::sp_p_txout;
use crate::reject_codec::sp_p_txout_coin;
use crate::reject_codec::sp_p_txout_coin_seq;
use crate::reject_codec::sp_p_txout_seq;
use crate::reject_codec::sp_p_txout_triple;
use crate::reject_codec::sp_p_txout_triple_seq;
use crate::reject_codec::sp_p_utxo_failure;
use crate::reject_codec::sp_p_utxo_pair;
use crate::reject_codec::sp_p_utxo_pair_seq;
use crate::reject_codec::sp_p_utxow_failure;
use crate::reject_decoder::sp_decode_rejection;
use crate::reject_encoder::enc_rejection;
use crate::reject_encoder::wf_bytes;
use crate::reject_encoder::wf_errors;
use crate::reject_encoder::wf_pred_error;
use crate::reject_encoder::wf_rejection;
use crate::reject_encoder::wf_text;
use crate::reject_encoder::wf_txin;
use crate::reject_encoder::wf_txout;
use crate::reject_encoder::wf_utxo_failure;
use crate::reject_encoder::wf_utxow_failure;
use crate::reject_roundtrip::lemma_rejection_round_trip;

verus! {

proof fn wfp_text(b: Seq<u8>, p: int)
    ensures
        sp_text(b, p) matches Some(r) ==> wf_text(r.0),
{
    match sp_text(b, p) {
        Option::Some((s, _q)) => {
            match sp_head(3, b, p) {
                Option::Some((n, q)) => {
                    assert forall|i: int| 0 <= i < s.len() implies is_ascii_char(
                        #[trigger] s[i],
                    ) by {
                        assert(s[i] == b[q + i] as char);
                        assert(b[q + i] < 128);
                        assert(((b[q + i] as char) as u32) == b[q + i] as u32);
                    }
                },
                Option::None => {},
            }
        },
        Option::None => {},
    }
}

proof fn wfp_txin_seq(b: Seq<u8>, p: int, n: nat)
    ensures
        sp_p_txin_seq(b, p, n) matches Some(r) ==> r.0.len() == n && (forall|i: int|
            0 <= i < r.0.len() ==> wf_txin(#[trigger] r.0[i])),
    decreases n,
{
    if n > 0 {
        match sp_p_txin(b, p) {
            Option::Some((t, q)) => {
                wfp_txin_seq(b, q, (n - 1) as nat);
                match sp_p_txin_seq(b, q, (n - 1) as nat) {
                    Option::Some((rest, _r)) => {
                        assert forall|i: int| 0 <= i < n implies wf_txin(
                            #[trigger] (seq![t] + rest)[i],
                        ) by {
                            if i > 0 {
                                assert((seq![t] + rest)[i] == rest[i - 1]);
                            }
                        }
                    },
                    Option::None => {},
                }
            },
            Option::None => {},
        }
    }
}

proof fn wfp_bytes_seq(b: Seq<u8>, p: int, n: nat)
    ensures
        sp_p_bytes_seq(b, p, n) matches Some(r) ==> r.0.len() == n && (forall|i: int|
            0 <= i < r.0.len() ==> wf_bytes(#[trigger] r.0[i])),
    decreases n,
{
    if n > 0 {
        match sp_bytes(b, p) {
            Option::Some((t, q)) => {
                wfp_bytes_seq(b, q, (n - 1) as nat);
                match sp_p_bytes_seq(b, q, (n - 1) as nat) {
                    Option::Some((rest, _r)) => {
                        assert forall|i: int| 0 <= i < n implies wf_bytes(
                            #[trigger] (seq![t] + rest)[i],
                        ) by {
                            if i > 0 {
                                assert((seq![t] + rest)[i] == rest[i - 1]);
                            }
                        }
                    },
                    Option::None => {},
                }
            },
            Option::None => {},
        }
    }
}

proof fn wfp_redeemer_seq(b: Seq<u8>, p: int, n: nat)
    ensures
        sp_p_redeemer_seq(b, p, n) matches Some(r) ==> r.0.len() == n && (forall|i: int|
            0 <= i < r.0.len() ==> wf_bytes((#[trigger] r.0[i]).1)),
    decreases n,
{
    if n > 0 {
        match sp_p_redeemer(b, p) {
            Option::Some((t, q)) => {
                wfp_redeemer_seq(b, q, (n - 1) as nat);
                match sp_p_redeemer_seq(b, q, (n - 1) as nat) {
                    Option::Some((rest, _r)) => {
                        assert forall|i: int| 0 <= i < n implies wf_bytes(
                            (#[trigger] (seq![t] + rest)[i]).1,
                        ) by {
                            if i > 0 {
                                assert((seq![t] + rest)[i] == rest[i - 1]);
                            }
                        }
                    },
                    Option::None => {},
                }
            },
            Option::None => {},
        }
    }
}

proof fn wfp_txout_seq(b: Seq<u8>, p: int, n: nat)
    ensures
        sp_p_txout_seq(b, p, n) matches Some(r) ==> r.0.len() == n && (forall|i: int|
            0 <= i < r.0.len() ==> wf_txout(#[trigger] r.0[i])),
    decreases n,
{
    if n > 0 {
        match sp_p_txout(b, p) {
            Option::Some((t, q)) => {
                wfp_txout_seq(b, q, (n - 1) as nat);
                match sp_p_txout_seq(b, q, (n - 1) as nat) {
                    Option::Some((rest, _r)) => {
                        assert forall|i: int| 0 <= i < n implies wf_txout(
                            #[trigger] (seq![t] + rest)[i],
                        ) by {
                            if i > 0 {
                                assert((seq![t] + rest)[i] == rest[i - 1]);
                            }
                        }
                    },
                    Option::None => {},
                }
            },
            Option::None => {},
        }
    }
}

proof fn wfp_txout_triple_seq(b: Seq<u8>, p: int, n: nat)
    ensures
        sp_p_txout_triple_seq(b, p, n) matches Some(r) ==> r.0.len() == n && (forall|i: int|
            0 <= i < r.0.len() ==> wf_txout((#[trigger] r.0[i]).2)),
    decreases n,
{
    if n > 0 {
        match sp_p_txout_triple(b, p) {
            Option::Some((t, q)) => {
                wfp_txout_triple_seq(b, q, (n - 1) as nat);
                match sp_p_txout_triple_seq(b, q, (n - 1) as nat) {
                    Option::Some((rest, _r)) => {
                        assert forall|i: int| 0 <= i < n implies wf_txout(
                            (#[trigger] (seq![t] + rest)[i]).2,
                        ) by {
                            if i > 0 {
                                assert((seq![t] + rest)[i] == rest[i - 1]);
                            }
                        }
                    },
                    Option::None => {},
                }
            },
            Option::None => {},
        }
    }
}

proof fn wfp_txout_coin_seq(b: Seq<u8>, p: int, n: nat)
    ensures
        sp_p_txout_coin_seq(b, p, n) matches Some(r) ==> r.0.len() == n && (forall|i: int|
            0 <= i < r.0.len() ==> wf_txout((#[trigger] r.0[i]).0)),
    decreases n,
{
    if n > 0 {
        match sp_p_txout_coin(b, p) {
            Option::Some((t, q)) => {
                wfp_txout_coin_seq(b, q, (n - 1) as nat);
                match sp_p_txout_coin_seq(b, q, (n - 1) as nat) {
                    Option::Some((rest, _r)) => {
                        assert forall|i: int| 0 <= i < n implies wf_txout(
                            (#[trigger] (seq![t] + rest)[i]).0,
                        ) by {
                            if i > 0 {
                                assert((seq![t] + rest)[i] == rest[i - 1]);
                            }
                        }
                    },
                    Option::None => {},
                }
            },
            Option::None => {},
        }
    }
}

proof fn wfp_utxo_pair_seq(b: Seq<u8>, p: int, n: nat)
    ensures
        sp_p_utxo_pair_seq(b, p, n) matches Some(r) ==> r.0.len() == n && (forall|i: int|
            0 <= i < r.0.len() ==> wf_txin((#[trigger] r.0[i]).0) && wf_txout(r.0[i].1)),
    decreases n,
{
    if n > 0 {
        match sp_p_utxo_pair(b, p) {
            Option::Some((t, q)) => {
                wfp_utxo_pair_seq(b, q, (n - 1) as nat);
                match sp_p_utxo_pair_seq(b, q, (n - 1) as nat) {
                    Option::Some((rest, _r)) => {
                        assert forall|i: int| 0 <= i < n implies wf_txin(
                            (#[trigger] (seq![t] + rest)[i]).0,
                        ) && wf_txout((seq![t] + rest)[i].1) by {
                            if i > 0 {
                                assert((seq![t] + rest)[i] == rest[i - 1]);
                            }
                        }
                    },
                    Option::None => {},
                }
            },
            Option::None => {},
        }
    }
}

proof fn wfp_purpose_seq(b: Seq<u8>, p: int, n: nat)
    ensures
        sp_p_purpose_seq(b, p, n) matches Some(r) ==> r.0.len() == n,
    decreases n,
{
    if n > 0 {
        match sp_p_purpose(b, p) {
            Option::Some((_t, q)) => {
                wfp_purpose_seq(b, q, (n - 1) as nat);
            },
            Option::None => {},
        }
    }
}

#[verifier::rlimit(100)]
proof fn wfp_utxo_failure(b: Seq<u8>, p: int, fuel: nat)
    ensures
        sp_p_utxo_failure(b, p, fuel) matches Some(r) ==> wf_utxo_failure(r.0),
    decreases fuel,
{
    if fuel > 0 {
        match sp_head(4, b, p) {
            Option::Some((_n, p1)) => {
                match sp_head(0, b, p1) {
                    Option::Some((tag, p2)) => {
                        if tag == 0 {
                            wfp_utxo_failure(b, p2, (fuel - 1) as nat);
                        } else if tag == 1 || tag == 22 {
                            match sp_head(4, b, p2) {
                                Option::Some((m, q)) => {
                                    wfp_txin_seq(b, q, m as nat);
                                },
                                Option::None => {},
                            }
                        } else if tag == 7 || tag == 8 {
                            match crate::reject_codec::sp_p_network(b, p2) {
                                Option::Some((_nw, p3)) => {
                                    match sp_head(4, b, p3) {
                                        Option::Some((m, q)) => {
                                            wfp_bytes_seq(b, q, m as nat);
                                        },
                                        Option::None => {},
                                    }
                                },
                                Option::None => {},
                            }
                        } else if tag == 9 || tag == 10 {
                            match sp_head(4, b, p2) {
                                Option::Some((m, q)) => {
                                    wfp_txout_seq(b, q, m as nat);
                                },
                                Option::None => {},
                            }
                        } else if tag == 11 {
                            match sp_head(4, b, p2) {
                                Option::Some((m, q)) => {
                                    wfp_txout_triple_seq(b, q, m as nat);
                                },
                                Option::None => {},
                            }
                        } else if tag == 13 {
                            match sp_head(4, b, p2) {
                                Option::Some((m, q)) => {
                                    wfp_utxo_pair_seq(b, q, m as nat);
                                },
                                Option::None => {},
                            }
                        } else if tag == 21 {
                            match sp_head(4, b, p2) {
                                Option::Some((m, q)) => {
                                    wfp_txout_coin_seq(b, q, m as nat);
                                },
                                Option::None => {},
                            }
                        }
                    },
                    Option::None => {},
                }
            },
            Option::None => {},
        }
    }
}

#[verifier::rlimit(100)]
proof fn wfp_utxow_failure(b: Seq<u8>, p: int, fuel: nat)
    ensures
        sp_p_utxow_failure(b, p, fuel) matches Some(r) ==> wf_utxow_failure(r.0),
{
    match sp_head(4, b, p) {
        Option::Some((_n, p1)) => {
            match sp_head(0, b, p1) {
                Option::Some((tag, p2)) => {
                    if tag == 0 {
                        wfp_utxo_failure(b, p2, fuel);
                    } else if tag == 10 {
                        match sp_head(4, b, p2) {
                            Option::Some((m, q)) => {
                                wfp_redeemer_seq(b, q, m as nat);
                            },
                            Option::None => {},
                        }
                    } else if tag == 11 || tag == 12 {
                        match sp_head(4, b, p2) {
                            Option::Some((m, q)) => {
                                wfp_bytes_seq(b, q, m as nat);
                                match sp_p_bytes_list(b, p2) {
                                    Option::Some((_a, p3)) => {
                                        match sp_head(4, b, p3) {
                                            Option::Some((m2, q2)) => {
                                                wfp_bytes_seq(b, q2, m2 as nat);
                                            },
                                            Option::None => {},
                                        }
                                    },
                                    Option::None => {},
                                }
                            },
                            Option::None => {},
                        }
                    } else if tag == 14 {
                        match sp_head(4, b, p2) {
                            Option::Some((m, q)) => {
                                wfp_txin_seq(b, q, m as nat);
                            },
                            Option::None => {},
                        }
                    } else if tag == 15 {
                        match sp_head(4, b, p2) {
                            Option::Some((m, q)) => {
                                wfp_purpose_seq(b, q, m as nat);
                            },
                            Option::None => {},
                        }
                    } else if tag == 16 || tag == 17 {
                        match sp_head(4, b, p2) {
                            Option::Some((m, q)) => {
                                wfp_bytes_seq(b, q, m as nat);
                            },
                            Option::None => {},
                        }
                    }
                },
                Option::None => {},
            }
        },
        Option::None => {},
    }
}

proof fn wfp_pred_error(b: Seq<u8>, p: int, fuel: nat)
    ensures
        sp_p_pred_error(b, p, fuel) matches Some(r) ==> wf_pred_error(r.0),
{
    match sp_head(4, b, p) {
        Option::Some((_n, p1)) => {
            match sp_head(0, b, p1) {
                Option::Some((tag, p2)) => {
                    if tag == 1 || tag == 2 || tag == 3 {
                        wfp_utxow_failure(b, p2, fuel);
                    } else if tag == 7 {
                        wfp_text(b, p2);
                    }
                },
                Option::None => {},
            }
        },
        Option::None => {},
    }
}

proof fn wfp_pred_seq(b: Seq<u8>, p: int, n: nat, fuel: nat)
    ensures
        sp_p_pred_seq(b, p, n, fuel) matches Some(r) ==> r.0.len() == n && (forall|i: int|
            0 <= i < r.0.len() ==> wf_pred_error(#[trigger] r.0[i])),
    decreases n,
{
    if n > 0 {
        match sp_p_pred_error(b, p, fuel) {
            Option::Some((t, q)) => {
                wfp_pred_error(b, p, fuel);
                wfp_pred_seq(b, q, (n - 1) as nat, fuel);
                match sp_p_pred_seq(b, q, (n - 1) as nat, fuel) {
                    Option::Some((rest, _r)) => {
                        assert forall|i: int| 0 <= i < n implies wf_pred_error(
                            #[trigger] (seq![t] + rest)[i],
                        ) by {
                            if i > 0 {
                                assert((seq![t] + rest)[i] == rest[i - 1]);
                            }
                        }
                    },
                    Option::None => {},
                }
            },
            Option::None => {},
        }
    }
}

proof fn wfp_errors(b: Seq<u8>, p: int, fuel: nat)
    ensures
        sp_p_errors(b, p, fuel) matches Some(r) ==> wf_errors(r.0),
{
    match sp_head(4, b, p) {
        Option::Some((n, q)) => {
            wfp_pred_seq(b, q, n as nat, fuel);
        },
        Option::None => {},
    }
}

/// Every tree the native grammar yields is well formed: parsing never
/// produces a shape outside `wf_rejection`.
pub proof fn lemma_decoded_is_wf(b: Seq<u8>)
    ensures
        sp_decode_rejection(b) matches Some(t) ==> wf_rejection(t),
{
    let fuel = b.len() + 1;
    match sp_head(4, b, 0) {
        Option::Some((_n, p1)) => {
            match sp_head(0, b, p1) {
                Option::Some((tag, p2)) => {
                    if tag == 1 {
                        match sp_head(4, b, p2) {
                            Option::Some((_n1, p3)) => {
                                wfp_errors(b, p3, fuel);
                            },
                            Option::None => {},
                        }
                    } else if tag == 2 {
                        match sp_head(4, b, p2) {
                            Option::Some((_n1, p3)) => {
                                match sp_head(4, b, p3) {
                                    Option::Some((_n2, p4)) => {
                                        match crate::reject_codec::sp_p_era(b, p4) {
                                            Option::Some((_era, p5)) => {
                                                wfp_errors(b, p5, fuel);
                                            },
                                            Option::None => {},
                                        }
                                    },
                                    Option::None => {},
                                }
                            },
                            Option::None => {},
                        }
                    }
                },
                Option::None => {},
            }
        },
        Option::None => {},
    }
}

/// The round trip for every decoded reason, with no side condition: a
/// tree the decoder produced re-parses from its own serialization.
pub proof fn lemma_decoded_round_trip(b: Seq<u8>)
    ensures
        sp_decode_rejection(b) matches Some(t) ==> sp_decode_rejection(enc_rejection(t)) == Some(
            t,
        ),
{
    match sp_decode_rejection(b) {
        Option::Some(t) => {
            lemma_decoded_is_wf(b);
            lemma_rejection_round_trip(t);
        },
        Option::None => {},
    }
}

} // verus!
