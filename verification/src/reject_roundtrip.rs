//! Decoding a serialized rejection reason gives the tree back: the round
//! trip between `reject_encoder` and the grammar of `reject_codec`,
//! proved for every tree the native decoder can produce.

use vstd::prelude::*;

use crate::cbor::enc_bytes;
use crate::cbor::enc_head;
use crate::cbor::enc_text;
use crate::cbor::lemma_bytes_enc;
use crate::cbor::lemma_head_enc;
use crate::cbor::lemma_text_enc;
use crate::cbor::sp_head;
use crate::reject::Network;
use crate::reject::PlutusPurpose;
use crate::reject::PredErrorV;
use crate::reject::ShelleyBasedEra;
use crate::reject::TxInV;
use crate::reject::TxOutV;
use crate::reject::TxValidationErrorV;
use crate::reject::UtxoFailureV;
use crate::reject::UtxowFailureV;
use crate::reject::VKeyWitnessV;
use crate::reject::ValidityInterval;
use crate::reject_codec::sp_p_bytes_list;
use crate::reject_codec::sp_p_bytes_seq;
use crate::reject_codec::sp_p_era;
use crate::reject_codec::sp_p_errors;
use crate::reject_codec::sp_p_exunits;
use crate::reject_codec::sp_p_network;
use crate::reject_codec::sp_p_opt_hash;
use crate::reject_codec::sp_p_opt_u64;
use crate::reject_codec::sp_p_pred_error;
use crate::reject_codec::sp_p_pred_seq;
use crate::reject_codec::sp_p_purpose;
use crate::reject_codec::sp_p_purpose_list;
use crate::reject_codec::sp_p_purpose_seq;
use crate::reject_codec::sp_p_redeemer;
use crate::reject_codec::sp_p_redeemer_list;
use crate::reject_codec::sp_p_redeemer_seq;
use crate::reject_codec::sp_p_rejection;
use crate::reject_codec::sp_p_txin;
use crate::reject_codec::sp_p_txin_list;
use crate::reject_codec::sp_p_txin_seq;
use crate::reject_codec::sp_p_txout;
use crate::reject_codec::sp_p_txout_list;
use crate::reject_codec::sp_p_txout_seq;
use crate::reject_codec::sp_p_txout_triple;
use crate::reject_codec::sp_p_txout_triple_list;
use crate::reject_codec::sp_p_txout_triple_seq;
use crate::reject_codec::sp_p_txout_coin;
use crate::reject_codec::sp_p_txout_coin_list;
use crate::reject_codec::sp_p_txout_coin_seq;
use crate::reject_codec::sp_p_utxo_pair;
use crate::reject_codec::sp_p_utxo_pair_list;
use crate::reject_codec::sp_p_utxo_pair_seq;
use crate::reject_codec::sp_p_utxo_failure;
use crate::reject_codec::sp_p_utxow_failure;
use crate::reject_codec::sp_p_validity;
use crate::reject_codec::sp_p_vkey;
use crate::reject_decoder::sp_decode_rejection;
use crate::reject_encoder::depth_errors;
use crate::reject_encoder::depth_pred;
use crate::reject_encoder::depth_utxo;
use crate::reject_encoder::depth_utxow;
use crate::reject_encoder::enc_bytes_list;
use crate::reject_encoder::enc_bytes_seq;
use crate::reject_encoder::enc_errors;
use crate::reject_encoder::enc_exunits;
use crate::reject_encoder::enc_network;
use crate::reject_encoder::enc_opt_hash;
use crate::reject_encoder::enc_opt_u64;
use crate::reject_encoder::enc_pred_error;
use crate::reject_encoder::enc_pred_seq;
use crate::reject_encoder::enc_purpose;
use crate::reject_encoder::enc_purpose_list;
use crate::reject_encoder::enc_purpose_seq;
use crate::reject_encoder::enc_redeemer;
use crate::reject_encoder::enc_redeemer_list;
use crate::reject_encoder::enc_redeemer_seq;
use crate::reject_encoder::enc_rejection;
use crate::reject_encoder::enc_txin;
use crate::reject_encoder::enc_txin_list;
use crate::reject_encoder::enc_txin_seq;
use crate::reject_encoder::enc_txout;
use crate::reject_encoder::enc_txout_list;
use crate::reject_encoder::enc_txout_seq;
use crate::reject_encoder::enc_txout_triple;
use crate::reject_encoder::enc_txout_triple_list;
use crate::reject_encoder::enc_txout_triple_seq;
use crate::reject_encoder::enc_txout_coin;
use crate::reject_encoder::enc_txout_coin_list;
use crate::reject_encoder::enc_txout_coin_seq;
use crate::reject_encoder::enc_utxo_pair;
use crate::reject_encoder::enc_utxo_pair_list;
use crate::reject_encoder::enc_utxo_pair_seq;
use crate::reject_encoder::enc_utxo_failure;
use crate::reject_encoder::enc_utxow_failure;
use crate::reject_encoder::enc_validity;
use crate::reject_encoder::enc_vkey;
use crate::reject_encoder::wf_bytes;
use crate::reject_encoder::wf_bytes_seq;
use crate::reject_encoder::wf_errors;
use crate::reject_encoder::wf_len;
use crate::reject_encoder::wf_pred_error;
use crate::reject_encoder::wf_redeemer_seq;
use crate::reject_encoder::wf_rejection;
use crate::reject_encoder::wf_text;
use crate::reject_encoder::wf_txin;
use crate::reject_encoder::wf_txin_seq;
use crate::reject_encoder::wf_txout;
use crate::reject_encoder::wf_txout_seq;
use crate::reject_encoder::wf_txout_triple_seq;
use crate::reject_encoder::wf_txout_coin_seq;
use crate::reject_encoder::wf_utxo_pair_seq;
use crate::reject_encoder::wf_utxo_failure;
use crate::reject_encoder::wf_utxow_failure;
use crate::reject_encoder::wf_vkey;

verus! {

/// A segment of an embedded encoding is itself embedded at its offset.
proof fn lemma_seg(c: Seq<u8>, p: int, e: Seq<u8>, off: int, seg: Seq<u8>)
    requires
        0 <= p,
        p + e.len() <= c.len(),
        c.subrange(p, p + e.len()) == e,
        0 <= off,
        off + seg.len() <= e.len(),
        e.subrange(off, off + seg.len()) == seg,
    ensures
        c.subrange(p + off, p + off + seg.len()) =~= seg,
{
    assert forall|j: int| 0 <= j < seg.len() implies c.subrange(
        p + off,
        p + off + seg.len(),
    )[j] == seg[j] by {
        assert(c.subrange(p, p + e.len())[off + j] == c[p + off + j]);
        assert(e.subrange(off, off + seg.len())[j] == e[off + j]);
    }
}

proof fn rt_txin(t: TxInV, c: Seq<u8>, p: int)
    requires
        wf_txin(t),
        0 <= p,
        p + enc_txin(t).len() <= c.len(),
        c.subrange(p, p + enc_txin(t).len()) =~= enc_txin(t),
    ensures
        sp_p_txin(c, p) == Some((t, p + enc_txin(t).len())),
{
    let e = enc_txin(t);
    let h0 = enc_head(4, 2);
    let b1 = enc_bytes(t.tx_id);
    let h2 = enc_head(0, t.index);
    assert(e.subrange(0, h0.len() as int) =~= h0);
    lemma_seg(c, p, e, 0, h0);
    lemma_head_enc(4, 2, c, p);
    let p1 = p + h0.len() as int;
    assert(e.subrange(h0.len() as int, (h0.len() + b1.len()) as int) =~= b1);
    lemma_seg(c, p, e, h0.len() as int, b1);
    lemma_bytes_enc(t.tx_id, c, p1);
    let p2 = p1 + b1.len() as int;
    assert(e.subrange((h0.len() + b1.len()) as int, e.len() as int) =~= h2);
    lemma_seg(c, p, e, (h0.len() + b1.len()) as int, h2);
    lemma_head_enc(0, t.index, c, p2);
}

proof fn rt_vkey(w: VKeyWitnessV, c: Seq<u8>, p: int)
    requires
        wf_vkey(w),
        0 <= p,
        p + enc_vkey(w).len() <= c.len(),
        c.subrange(p, p + enc_vkey(w).len()) =~= enc_vkey(w),
    ensures
        sp_p_vkey(c, p) == Some((w, p + enc_vkey(w).len())),
{
    let e = enc_vkey(w);
    let h0 = enc_head(4, 2);
    let b1 = enc_bytes(w.vkey);
    let b2 = enc_bytes(w.signature);
    assert(e.subrange(0, h0.len() as int) =~= h0);
    lemma_seg(c, p, e, 0, h0);
    lemma_head_enc(4, 2, c, p);
    let p1 = p + h0.len() as int;
    assert(e.subrange(h0.len() as int, (h0.len() + b1.len()) as int) =~= b1);
    lemma_seg(c, p, e, h0.len() as int, b1);
    lemma_bytes_enc(w.vkey, c, p1);
    let p2 = p1 + b1.len() as int;
    assert(e.subrange((h0.len() + b1.len()) as int, e.len() as int) =~= b2);
    lemma_seg(c, p, e, (h0.len() + b1.len()) as int, b2);
    lemma_bytes_enc(w.signature, c, p2);
}

proof fn rt_opt_u64(o: Option<u64>, c: Seq<u8>, p: int)
    requires
        0 <= p,
        p + enc_opt_u64(o).len() <= c.len(),
        c.subrange(p, p + enc_opt_u64(o).len()) =~= enc_opt_u64(o),
    ensures
        sp_p_opt_u64(c, p) == Some((o, p + enc_opt_u64(o).len())),
{
    match o {
        Option::None => {
            assert(c.subrange(p, p + 1)[0] == c[p]);
            assert(c[p] == 246);
        },
        Option::Some(v) => {
            lemma_head_enc(0, v, c, p);
            assert(c.subrange(p, p + enc_opt_u64(o).len())[0] == c[p]);
            assert(c[p] == enc_head(0, v)[0]);
            assert(c[p] != 246);
        },
    }
}

proof fn rt_validity(vi: ValidityInterval, c: Seq<u8>, p: int)
    requires
        0 <= p,
        p + enc_validity(vi).len() <= c.len(),
        c.subrange(p, p + enc_validity(vi).len()) =~= enc_validity(vi),
    ensures
        sp_p_validity(c, p) == Some((vi, p + enc_validity(vi).len())),
{
    let e = enc_validity(vi);
    let h0 = enc_head(4, 2);
    let a1 = enc_opt_u64(vi.invalid_before);
    let a2 = enc_opt_u64(vi.invalid_hereafter);
    assert(e.subrange(0, h0.len() as int) =~= h0);
    lemma_seg(c, p, e, 0, h0);
    lemma_head_enc(4, 2, c, p);
    let p1 = p + h0.len() as int;
    assert(e.subrange(h0.len() as int, (h0.len() + a1.len()) as int) =~= a1);
    lemma_seg(c, p, e, h0.len() as int, a1);
    rt_opt_u64(vi.invalid_before, c, p1);
    let p2 = p1 + a1.len() as int;
    assert(e.subrange((h0.len() + a1.len()) as int, e.len() as int) =~= a2);
    lemma_seg(c, p, e, (h0.len() + a1.len()) as int, a2);
    rt_opt_u64(vi.invalid_hereafter, c, p2);
}

proof fn rt_exunits(u: crate::reject::DisplayExUnits, c: Seq<u8>, p: int)
    requires
        0 <= p,
        p + enc_exunits(u).len() <= c.len(),
        c.subrange(p, p + enc_exunits(u).len()) =~= enc_exunits(u),
    ensures
        sp_p_exunits(c, p) == Some((u, p + enc_exunits(u).len())),
{
    let e = enc_exunits(u);
    let h0 = enc_head(4, 2);
    let a1 = enc_head(0, u.mem);
    let a2 = enc_head(0, u.steps);
    assert(e.subrange(0, h0.len() as int) =~= h0);
    lemma_seg(c, p, e, 0, h0);
    lemma_head_enc(4, 2, c, p);
    let p1 = p + h0.len() as int;
    assert(e.subrange(h0.len() as int, (h0.len() + a1.len()) as int) =~= a1);
    lemma_seg(c, p, e, h0.len() as int, a1);
    lemma_head_enc(0, u.mem, c, p1);
    let p2 = p1 + a1.len() as int;
    assert(e.subrange((h0.len() + a1.len()) as int, e.len() as int) =~= a2);
    lemma_seg(c, p, e, (h0.len() + a1.len()) as int, a2);
    lemma_head_enc(0, u.steps, c, p2);
}

proof fn rt_opt_hash(o: Option<Seq<u8>>, c: Seq<u8>, p: int)
    requires
        o matches Some(h) ==> wf_bytes(h),
        0 <= p,
        p + enc_opt_hash(o).len() <= c.len(),
        c.subrange(p, p + enc_opt_hash(o).len()) =~= enc_opt_hash(o),
    ensures
        sp_p_opt_hash(c, p) == Some((o, p + enc_opt_hash(o).len())),
{
    match o {
        Option::None => {
            assert(c.subrange(p, p + 1)[0] == c[p]);
            assert(c[p] == 246);
        },
        Option::Some(h) => {
            lemma_bytes_enc(h, c, p);
            assert(c.subrange(p, p + enc_opt_hash(o).len())[0] == c[p]);
            assert(c[p] == enc_bytes(h)[0]);
            assert(enc_bytes(h)[0] == enc_head(2, h.len() as u64)[0]);
            assert(c[p] != 246);
        },
    }
}

proof fn rt_purpose(t: PlutusPurpose, c: Seq<u8>, p: int)
    requires
        0 <= p,
        p + enc_purpose(t).len() <= c.len(),
        c.subrange(p, p + enc_purpose(t).len()) =~= enc_purpose(t),
    ensures
        sp_p_purpose(c, p) == Some((t, p + enc_purpose(t).len())),
{
    lemma_head_enc(0, t.spec_tag(), c, p);
}

proof fn rt_network(t: Network, c: Seq<u8>, p: int)
    requires
        0 <= p,
        p + enc_network(t).len() <= c.len(),
        c.subrange(p, p + enc_network(t).len()) =~= enc_network(t),
    ensures
        sp_p_network(c, p) == Some((t, p + enc_network(t).len())),
{
    lemma_head_enc(0, t.spec_tag(), c, p);
}

proof fn rt_era(t: ShelleyBasedEra, c: Seq<u8>, p: int)
    requires
        0 <= p,
        p + enc_head(0, t.spec_tag()).len() <= c.len(),
        c.subrange(p, p + enc_head(0, t.spec_tag()).len()) =~= enc_head(0, t.spec_tag()),
    ensures
        sp_p_era(c, p) == Some((t, p + enc_head(0, t.spec_tag()).len())),
{
    lemma_head_enc(0, t.spec_tag(), c, p);
}

proof fn rt_redeemer(t: (PlutusPurpose, Seq<u8>), c: Seq<u8>, p: int)
    requires
        wf_bytes(t.1),
        0 <= p,
        p + enc_redeemer(t).len() <= c.len(),
        c.subrange(p, p + enc_redeemer(t).len()) =~= enc_redeemer(t),
    ensures
        sp_p_redeemer(c, p) == Some((t, p + enc_redeemer(t).len())),
{
    let e = enc_redeemer(t);
    let h0 = enc_head(4, 2);
    let a1 = enc_purpose(t.0);
    let a2 = enc_bytes(t.1);
    assert(e.subrange(0, h0.len() as int) =~= h0);
    lemma_seg(c, p, e, 0, h0);
    lemma_head_enc(4, 2, c, p);
    let p1 = p + h0.len() as int;
    assert(e.subrange(h0.len() as int, (h0.len() + a1.len()) as int) =~= a1);
    lemma_seg(c, p, e, h0.len() as int, a1);
    rt_purpose(t.0, c, p1);
    let p2 = p1 + a1.len() as int;
    assert(e.subrange((h0.len() + a1.len()) as int, e.len() as int) =~= a2);
    lemma_seg(c, p, e, (h0.len() + a1.len()) as int, a2);
    lemma_bytes_enc(t.1, c, p2);
}

} // verus!
verus! {

/// Skipping past two item heads at the front of an embedded encoding.
proof fn rt_heads(c: Seq<u8>, p: int, arity: u64, tag: u64, rest: Seq<u8>)
    requires
        0 <= p,
        p + (enc_head(4, arity) + enc_head(0, tag) + rest).len() <= c.len(),
        c.subrange(p, p + (enc_head(4, arity) + enc_head(0, tag) + rest).len()) =~= enc_head(
            4,
            arity,
        ) + enc_head(0, tag) + rest,
    ensures
        sp_head(4, c, p) == Some((arity, p + enc_head(4, arity).len())),
        sp_head(0, c, p + enc_head(4, arity).len()) == Some(
            (tag, p + enc_head(4, arity).len() + enc_head(0, tag).len()),
        ),
        c.subrange(
            p + enc_head(4, arity).len() + enc_head(0, tag).len(),
            p + (enc_head(4, arity) + enc_head(0, tag) + rest).len(),
        ) =~= rest,
{
    let h0 = enc_head(4, arity);
    let h1 = enc_head(0, tag);
    let e = h0 + h1 + rest;
    assert(e.subrange(0, h0.len() as int) =~= h0);
    lemma_seg(c, p, e, 0, h0);
    lemma_head_enc(4, arity, c, p);
    assert(e.subrange(h0.len() as int, (h0.len() + h1.len()) as int) =~= h1);
    lemma_seg(c, p, e, h0.len() as int, h1);
    lemma_head_enc(0, tag, c, p + h0.len());
    assert(e.subrange((h0.len() + h1.len()) as int, e.len() as int) =~= rest);
    lemma_seg(c, p, e, (h0.len() + h1.len()) as int, rest);
}

proof fn rt_txin_seq(s: Seq<TxInV>, c: Seq<u8>, p: int)
    requires
        forall|i: int| 0 <= i < s.len() ==> wf_txin(#[trigger] s[i]),
        0 <= p,
        p + enc_txin_seq(s).len() <= c.len(),
        c.subrange(p, p + enc_txin_seq(s).len()) =~= enc_txin_seq(s),
    ensures
        sp_p_txin_seq(c, p, s.len()) == Some((s, p + enc_txin_seq(s).len())),
    decreases s.len(),
{
    if s.len() == 0 {
        assert(s =~= Seq::<TxInV>::empty());
    } else {
        let e = enc_txin_seq(s);
        let e0 = enc_txin(s[0]);
        let er = enc_txin_seq(s.drop_first());
        assert(e.subrange(0, e0.len() as int) =~= e0);
        lemma_seg(c, p, e, 0, e0);
        rt_txin(s[0], c, p);
        assert(e.subrange(e0.len() as int, e.len() as int) =~= er);
        lemma_seg(c, p, e, e0.len() as int, er);
        assert forall|i: int| 0 <= i < s.drop_first().len() implies wf_txin(
            #[trigger] s.drop_first()[i],
        ) by {
            assert(s.drop_first()[i] == s[i + 1]);
        }
        rt_txin_seq(s.drop_first(), c, p + e0.len());
        assert(seq![s[0]] + s.drop_first() =~= s);
    }
}

proof fn rt_bytes_seq(s: Seq<Seq<u8>>, c: Seq<u8>, p: int)
    requires
        forall|i: int| 0 <= i < s.len() ==> wf_bytes(#[trigger] s[i]),
        0 <= p,
        p + enc_bytes_seq(s).len() <= c.len(),
        c.subrange(p, p + enc_bytes_seq(s).len()) =~= enc_bytes_seq(s),
    ensures
        sp_p_bytes_seq(c, p, s.len()) == Some((s, p + enc_bytes_seq(s).len())),
    decreases s.len(),
{
    if s.len() == 0 {
        assert(s =~= Seq::<Seq<u8>>::empty());
    } else {
        let e = enc_bytes_seq(s);
        let e0 = enc_bytes(s[0]);
        let er = enc_bytes_seq(s.drop_first());
        assert(e.subrange(0, e0.len() as int) =~= e0);
        lemma_seg(c, p, e, 0, e0);
        lemma_bytes_enc(s[0], c, p);
        assert(e.subrange(e0.len() as int, e.len() as int) =~= er);
        lemma_seg(c, p, e, e0.len() as int, er);
        assert forall|i: int| 0 <= i < s.drop_first().len() implies wf_bytes(
            #[trigger] s.drop_first()[i],
        ) by {
            assert(s.drop_first()[i] == s[i + 1]);
        }
        rt_bytes_seq(s.drop_first(), c, p + e0.len());
        assert(seq![s[0]] + s.drop_first() =~= s);
    }
}

proof fn rt_purpose_seq(s: Seq<PlutusPurpose>, c: Seq<u8>, p: int)
    requires
        0 <= p,
        p + enc_purpose_seq(s).len() <= c.len(),
        c.subrange(p, p + enc_purpose_seq(s).len()) =~= enc_purpose_seq(s),
    ensures
        sp_p_purpose_seq(c, p, s.len()) == Some((s, p + enc_purpose_seq(s).len())),
    decreases s.len(),
{
    if s.len() == 0 {
        assert(s =~= Seq::<PlutusPurpose>::empty());
    } else {
        let e = enc_purpose_seq(s);
        let e0 = enc_purpose(s[0]);
        let er = enc_purpose_seq(s.drop_first());
        assert(e.subrange(0, e0.len() as int) =~= e0);
        lemma_seg(c, p, e, 0, e0);
        rt_purpose(s[0], c, p);
        assert(e.subrange(e0.len() as int, e.len() as int) =~= er);
        lemma_seg(c, p, e, e0.len() as int, er);
        rt_purpose_seq(s.drop_first(), c, p + e0.len());
        assert(seq![s[0]] + s.drop_first() =~= s);
    }
}

proof fn rt_redeemer_seq(s: Seq<(PlutusPurpose, Seq<u8>)>, c: Seq<u8>, p: int)
    requires
        forall|i: int| 0 <= i < s.len() ==> wf_bytes((#[trigger] s[i]).1),
        0 <= p,
        p + enc_redeemer_seq(s).len() <= c.len(),
        c.subrange(p, p + enc_redeemer_seq(s).len()) =~= enc_redeemer_seq(s),
    ensures
        sp_p_redeemer_seq(c, p, s.len()) == Some((s, p + enc_redeemer_seq(s).len())),
    decreases s.len(),
{
    if s.len() == 0 {
        assert(s =~= Seq::<(PlutusPurpose, Seq<u8>)>::empty());
    } else {
        let e = enc_redeemer_seq(s);
        let e0 = enc_redeemer(s[0]);
        let er = enc_redeemer_seq(s.drop_first());
        assert(e.subrange(0, e0.len() as int) =~= e0);
        lemma_seg(c, p, e, 0, e0);
        rt_redeemer(s[0], c, p);
        assert(e.subrange(e0.len() as int, e.len() as int) =~= er);
        lemma_seg(c, p, e, e0.len() as int, er);
        assert forall|i: int| 0 <= i < s.drop_first().len() implies wf_bytes(
            (#[trigger] s.drop_first()[i]).1,
        ) by {
            assert(s.drop_first()[i] == s[i + 1]);
        }
        rt_redeemer_seq(s.drop_first(), c, p + e0.len());
        assert(seq![s[0]] + s.drop_first() =~= s);
    }
}

proof fn rt_txin_list(s: Seq<TxInV>, c: Seq<u8>, p: int)
    requires
        wf_txin_seq(s),
        0 <= p,
        p + enc_txin_list(s).len() <= c.len(),
        c.subrange(p, p + enc_txin_list(s).len()) =~= enc_txin_list(s),
    ensures
        sp_p_txin_list(c, p) == Some((s, p + enc_txin_list(s).len())),
{
    let e = enc_txin_list(s);
    let h = enc_head(4, s.len() as u64);
    let body = enc_txin_seq(s);
    assert(e.subrange(0, h.len() as int) =~= h);
    lemma_seg(c, p, e, 0, h);
    lemma_head_enc(4, s.len() as u64, c, p);
    assert(e.subrange(h.len() as int, e.len() as int) =~= body);
    lemma_seg(c, p, e, h.len() as int, body);
    rt_txin_seq(s, c, p + h.len());
}

proof fn rt_bytes_list(s: Seq<Seq<u8>>, c: Seq<u8>, p: int)
    requires
        wf_bytes_seq(s),
        0 <= p,
        p + enc_bytes_list(s).len() <= c.len(),
        c.subrange(p, p + enc_bytes_list(s).len()) =~= enc_bytes_list(s),
    ensures
        sp_p_bytes_list(c, p) == Some((s, p + enc_bytes_list(s).len())),
{
    let e = enc_bytes_list(s);
    let h = enc_head(4, s.len() as u64);
    let body = enc_bytes_seq(s);
    assert(e.subrange(0, h.len() as int) =~= h);
    lemma_seg(c, p, e, 0, h);
    lemma_head_enc(4, s.len() as u64, c, p);
    assert(e.subrange(h.len() as int, e.len() as int) =~= body);
    lemma_seg(c, p, e, h.len() as int, body);
    rt_bytes_seq(s, c, p + h.len());
}

proof fn rt_purpose_list(s: Seq<PlutusPurpose>, c: Seq<u8>, p: int)
    requires
        wf_len(s.len()),
        0 <= p,
        p + enc_purpose_list(s).len() <= c.len(),
        c.subrange(p, p + enc_purpose_list(s).len()) =~= enc_purpose_list(s),
    ensures
        sp_p_purpose_list(c, p) == Some((s, p + enc_purpose_list(s).len())),
{
    let e = enc_purpose_list(s);
    let h = enc_head(4, s.len() as u64);
    let body = enc_purpose_seq(s);
    assert(e.subrange(0, h.len() as int) =~= h);
    lemma_seg(c, p, e, 0, h);
    lemma_head_enc(4, s.len() as u64, c, p);
    assert(e.subrange(h.len() as int, e.len() as int) =~= body);
    lemma_seg(c, p, e, h.len() as int, body);
    rt_purpose_seq(s, c, p + h.len());
}

proof fn rt_redeemer_list(s: Seq<(PlutusPurpose, Seq<u8>)>, c: Seq<u8>, p: int)
    requires
        wf_redeemer_seq(s),
        0 <= p,
        p + enc_redeemer_list(s).len() <= c.len(),
        c.subrange(p, p + enc_redeemer_list(s).len()) =~= enc_redeemer_list(s),
    ensures
        sp_p_redeemer_list(c, p) == Some((s, p + enc_redeemer_list(s).len())),
{
    let e = enc_redeemer_list(s);
    let h = enc_head(4, s.len() as u64);
    let body = enc_redeemer_seq(s);
    assert(e.subrange(0, h.len() as int) =~= h);
    lemma_seg(c, p, e, 0, h);
    lemma_head_enc(4, s.len() as u64, c, p);
    assert(e.subrange(h.len() as int, e.len() as int) =~= body);
    lemma_seg(c, p, e, h.len() as int, body);
    rt_redeemer_seq(s, c, p + h.len());
}

} // verus!
verus! {

#[verifier::rlimit(100)]
#[verifier::rlimit(100)]
proof fn rt_utxo_failure_hi(f: UtxoFailureV, c: Seq<u8>, p: int, fuel: nat)
    requires
        !(f is UtxosFailure),
        !(f is BadInputsUTxO),
        !(f is OutsideValidityIntervalUTxO),
        !(f is MaxTxSizeUTxO),
        !(f is InputSetEmptyUTxO),
        !(f is FeeTooSmallUTxO),
        !(f is ValueNotConservedUTxO),
        !(f is WrongNetwork),
        !(f is WrongNetworkWithdrawal),
        wf_utxo_failure(f),
        fuel >= depth_utxo(f),
        0 <= p,
        p + enc_utxo_failure(f).len() <= c.len(),
        c.subrange(p, p + enc_utxo_failure(f).len()) =~= enc_utxo_failure(f),
    ensures
        sp_p_utxo_failure(c, p, fuel) == Some((f, p + enc_utxo_failure(f).len())),
{
    let e = enc_utxo_failure(f);
    match f {
        UtxoFailureV::OutputTooSmallUTxO(v) => {
            rt_heads(c, p, 2, 9, enc_txout_list(v));
            rt_txout_list(v, c, p + enc_head(4, 2).len() + enc_head(0, 9).len());
        },
        UtxoFailureV::OutputBootAddrAttrsTooBig(v) => {
            rt_heads(c, p, 2, 10, enc_txout_list(v));
            rt_txout_list(v, c, p + enc_head(4, 2).len() + enc_head(0, 10).len());
        },
        UtxoFailureV::OutputTooBigUTxO(v) => {
            rt_heads(c, p, 2, 11, enc_txout_triple_list(v));
            rt_txout_triple_list(v, c, p + enc_head(4, 2).len() + enc_head(0, 11).len());
        },
        UtxoFailureV::InsufficientCollateral(a, b2) => {
            let rest = enc_head(0, a) + enc_head(0, b2);
            assert(e =~= enc_head(4, 3) + enc_head(0, 12) + rest);
            rt_heads(c, p, 3, 12, rest);
            let pp = p + enc_head(4, 3).len() + enc_head(0, 12).len();
            assert(rest.subrange(0, enc_head(0, a).len() as int) =~= enc_head(0, a));
            lemma_seg(c, pp, rest, 0, enc_head(0, a));
            lemma_head_enc(0, a, c, pp);
            assert(rest.subrange(enc_head(0, a).len() as int, rest.len() as int) =~= enc_head(
                0,
                b2,
            ));
            lemma_seg(c, pp, rest, enc_head(0, a).len() as int, enc_head(0, b2));
            lemma_head_enc(0, b2, c, pp + enc_head(0, a).len());
        },
        UtxoFailureV::ScriptsNotPaidUTxO(u) => {
            rt_heads(c, p, 2, 13, enc_utxo_pair_list(u));
            rt_utxo_pair_list(u, c, p + enc_head(4, 2).len() + enc_head(0, 13).len());
        },
        UtxoFailureV::ExUnitsTooBigUTxO(u) => {
            rt_heads(c, p, 2, 14, enc_exunits(u));
            rt_exunits(u, c, p + enc_head(4, 2).len() + enc_head(0, 14).len());
        },
        UtxoFailureV::CollateralContainsNonADA(v) => {
            rt_heads(c, p, 2, 15, enc_head(0, v.coin));
            lemma_head_enc(0, v.coin, c, p + enc_head(4, 2).len() + enc_head(0, 15).len());
        },
        UtxoFailureV::WrongNetworkInTxBody => {
            assert(e =~= enc_head(4, 1) + enc_head(0, 16) + Seq::<u8>::empty());
            rt_heads(c, p, 1, 16, Seq::empty());
        },
        UtxoFailureV::OutsideForecast(s) => {
            rt_heads(c, p, 2, 17, enc_head(0, s));
            lemma_head_enc(0, s, c, p + enc_head(4, 2).len() + enc_head(0, 17).len());
        },
        UtxoFailureV::TooManyCollateralInputs(n) => {
            rt_heads(c, p, 2, 18, enc_head(0, n));
            lemma_head_enc(0, n, c, p + enc_head(4, 2).len() + enc_head(0, 18).len());
        },
        UtxoFailureV::NoCollateralInputs => {
            assert(e =~= enc_head(4, 1) + enc_head(0, 19) + Seq::<u8>::empty());
            rt_heads(c, p, 1, 19, Seq::empty());
        },
        UtxoFailureV::IncorrectTotalCollateralField(a, b2) => {
            let rest = enc_head(0, a) + enc_head(0, b2);
            assert(e =~= enc_head(4, 3) + enc_head(0, 20) + rest);
            rt_heads(c, p, 3, 20, rest);
            let pp = p + enc_head(4, 3).len() + enc_head(0, 20).len();
            assert(rest.subrange(0, enc_head(0, a).len() as int) =~= enc_head(0, a));
            lemma_seg(c, pp, rest, 0, enc_head(0, a));
            lemma_head_enc(0, a, c, pp);
            assert(rest.subrange(enc_head(0, a).len() as int, rest.len() as int) =~= enc_head(
                0,
                b2,
            ));
            lemma_seg(c, pp, rest, enc_head(0, a).len() as int, enc_head(0, b2));
            lemma_head_enc(0, b2, c, pp + enc_head(0, a).len());
        },
        UtxoFailureV::BabbageOutputTooSmallUTxO(v) => {
            rt_heads(c, p, 2, 21, enc_txout_coin_list(v));
            rt_txout_coin_list(v, c, p + enc_head(4, 2).len() + enc_head(0, 21).len());
        },
        UtxoFailureV::BabbageNonDisjointRefInputs(v) => {
            rt_heads(c, p, 2, 22, enc_txin_list(v));
            rt_txin_list(v, c, p + enc_head(4, 2).len() + enc_head(0, 22).len());
        },
        _ => {
            assert(false);
        },
    }
}

#[verifier::rlimit(100)]
proof fn rt_utxo_failure(f: UtxoFailureV, c: Seq<u8>, p: int, fuel: nat)
    requires
        wf_utxo_failure(f),
        fuel >= depth_utxo(f),
        0 <= p,
        p + enc_utxo_failure(f).len() <= c.len(),
        c.subrange(p, p + enc_utxo_failure(f).len()) =~= enc_utxo_failure(f),
    ensures
        sp_p_utxo_failure(c, p, fuel) == Some((f, p + enc_utxo_failure(f).len())),
    decreases f,
{
    let e = enc_utxo_failure(f);
    match f {
        UtxoFailureV::UtxosFailure(inner) => {
            let rest = enc_utxo_failure(*inner);
            rt_heads(c, p, 2, 0, rest);
            let pp = p + enc_head(4, 2).len() + enc_head(0, 0).len();
            rt_utxo_failure(*inner, c, pp, (fuel - 1) as nat);
        },
        UtxoFailureV::BadInputsUTxO(v) => {
            let rest = enc_txin_list(v);
            rt_heads(c, p, 2, 1, rest);
            let pp = p + enc_head(4, 2).len() + enc_head(0, 1).len();
            rt_txin_list(v, c, pp);
        },
        UtxoFailureV::OutsideValidityIntervalUTxO(vi, s) => {
            let rest = enc_validity(vi) + enc_head(0, s);
            assert(e =~= enc_head(4, 3) + enc_head(0, 2) + rest);
            rt_heads(c, p, 3, 2, rest);
            let pp = p + enc_head(4, 3).len() + enc_head(0, 2).len();
            assert(rest.subrange(0, enc_validity(vi).len() as int) =~= enc_validity(vi));
            lemma_seg(c, pp, rest, 0, enc_validity(vi));
            rt_validity(vi, c, pp);
            assert(rest.subrange(enc_validity(vi).len() as int, rest.len() as int) =~= enc_head(
                0,
                s,
            ));
            lemma_seg(c, pp, rest, enc_validity(vi).len() as int, enc_head(0, s));
            lemma_head_enc(0, s, c, pp + enc_validity(vi).len());
        },
        UtxoFailureV::MaxTxSizeUTxO(n) => {
            rt_heads(c, p, 2, 3, enc_head(0, n));
            lemma_head_enc(0, n, c, p + enc_head(4, 2).len() + enc_head(0, 3).len());
        },
        UtxoFailureV::InputSetEmptyUTxO => {
            assert(e =~= enc_head(4, 1) + enc_head(0, 4) + Seq::<u8>::empty());
            rt_heads(c, p, 1, 4, Seq::empty());
        },
        UtxoFailureV::FeeTooSmallUTxO(a, b2) => {
            let rest = enc_head(0, a) + enc_head(0, b2);
            assert(e =~= enc_head(4, 3) + enc_head(0, 5) + rest);
            rt_heads(c, p, 3, 5, rest);
            let pp = p + enc_head(4, 3).len() + enc_head(0, 5).len();
            assert(rest.subrange(0, enc_head(0, a).len() as int) =~= enc_head(0, a));
            lemma_seg(c, pp, rest, 0, enc_head(0, a));
            lemma_head_enc(0, a, c, pp);
            assert(rest.subrange(enc_head(0, a).len() as int, rest.len() as int) =~= enc_head(
                0,
                b2,
            ));
            lemma_seg(c, pp, rest, enc_head(0, a).len() as int, enc_head(0, b2));
            lemma_head_enc(0, b2, c, pp + enc_head(0, a).len());
        },
        UtxoFailureV::ValueNotConservedUTxO(a, b2) => {
            let rest = enc_head(0, a.coin) + enc_head(0, b2.coin);
            assert(e =~= enc_head(4, 3) + enc_head(0, 6) + rest);
            rt_heads(c, p, 3, 6, rest);
            let pp = p + enc_head(4, 3).len() + enc_head(0, 6).len();
            assert(rest.subrange(0, enc_head(0, a.coin).len() as int) =~= enc_head(0, a.coin));
            lemma_seg(c, pp, rest, 0, enc_head(0, a.coin));
            lemma_head_enc(0, a.coin, c, pp);
            assert(rest.subrange(enc_head(0, a.coin).len() as int, rest.len() as int)
                =~= enc_head(0, b2.coin));
            lemma_seg(c, pp, rest, enc_head(0, a.coin).len() as int, enc_head(0, b2.coin));
            lemma_head_enc(0, b2.coin, c, pp + enc_head(0, a.coin).len());
        },
        UtxoFailureV::WrongNetwork(n, v) => {
            let rest = enc_network(n) + enc_bytes_list(v);
            assert(e =~= enc_head(4, 3) + enc_head(0, 7) + rest);
            rt_heads(c, p, 3, 7, rest);
            let pp = p + enc_head(4, 3).len() + enc_head(0, 7).len();
            assert(rest.subrange(0, enc_network(n).len() as int) =~= enc_network(n));
            lemma_seg(c, pp, rest, 0, enc_network(n));
            rt_network(n, c, pp);
            assert(rest.subrange(enc_network(n).len() as int, rest.len() as int)
                =~= enc_bytes_list(v));
            lemma_seg(c, pp, rest, enc_network(n).len() as int, enc_bytes_list(v));
            rt_bytes_list(v, c, pp + enc_network(n).len());
        },
        UtxoFailureV::WrongNetworkWithdrawal(n, v) => {
            let rest = enc_network(n) + enc_bytes_list(v);
            assert(e =~= enc_head(4, 3) + enc_head(0, 8) + rest);
            rt_heads(c, p, 3, 8, rest);
            let pp = p + enc_head(4, 3).len() + enc_head(0, 8).len();
            assert(rest.subrange(0, enc_network(n).len() as int) =~= enc_network(n));
            lemma_seg(c, pp, rest, 0, enc_network(n));
            rt_network(n, c, pp);
            assert(rest.subrange(enc_network(n).len() as int, rest.len() as int)
                =~= enc_bytes_list(v));
            lemma_seg(c, pp, rest, enc_network(n).len() as int, enc_bytes_list(v));
            rt_bytes_list(v, c, pp + enc_network(n).len());
        },
        _ => {
            rt_utxo_failure_hi(f, c, p, fuel);
        },
    }
}
} // verus!
verus! {

#[verifier::rlimit(100)]
proof fn rt_utxow_failure(f: UtxowFailureV, c: Seq<u8>, p: int, fuel: nat)
    requires
        wf_utxow_failure(f),
        fuel >= depth_utxow(f),
        0 <= p,
        p + enc_utxow_failure(f).len() <= c.len(),
        c.subrange(p, p + enc_utxow_failure(f).len()) =~= enc_utxow_failure(f),
    ensures
        sp_p_utxow_failure(c, p, fuel) == Some((f, p + enc_utxow_failure(f).len())),
{
    let e = enc_utxow_failure(f);
    match f {
        UtxowFailureV::UtxoFailure(inner) => {
            rt_heads(c, p, 2, 0, enc_utxo_failure(inner));
            rt_utxo_failure(inner, c, p + enc_head(4, 2).len() + enc_head(0, 0).len(), fuel);
        },
        UtxowFailureV::InvalidWitnessesUTXOW(w) => {
            rt_heads(c, p, 2, 1, enc_vkey(w));
            rt_vkey(w, c, p + enc_head(4, 2).len() + enc_head(0, 1).len());
        },
        UtxowFailureV::MissingVKeyWitnessesUTXOW(w) => {
            rt_heads(c, p, 2, 2, enc_vkey(w));
            rt_vkey(w, c, p + enc_head(4, 2).len() + enc_head(0, 2).len());
        },
        UtxowFailureV::MissingScriptWitnessesUTXOW(h) => {
            rt_heads(c, p, 2, 3, enc_bytes(h));
            lemma_bytes_enc(h, c, p + enc_head(4, 2).len() + enc_head(0, 3).len());
        },
        UtxowFailureV::ScriptWitnessNotValidatingUTXOW(h) => {
            rt_heads(c, p, 2, 4, enc_bytes(h));
            lemma_bytes_enc(h, c, p + enc_head(4, 2).len() + enc_head(0, 4).len());
        },
        UtxowFailureV::MissingTxBodyMetadataHash(h) => {
            rt_heads(c, p, 2, 5, enc_bytes(h));
            lemma_bytes_enc(h, c, p + enc_head(4, 2).len() + enc_head(0, 5).len());
        },
        UtxowFailureV::MissingTxMetadata(h) => {
            rt_heads(c, p, 2, 6, enc_bytes(h));
            lemma_bytes_enc(h, c, p + enc_head(4, 2).len() + enc_head(0, 6).len());
        },
        UtxowFailureV::ConflictingMetadataHash(a, b2) => {
            let rest = enc_bytes(a) + enc_bytes(b2);
            assert(e =~= enc_head(4, 3) + enc_head(0, 7) + rest);
            rt_heads(c, p, 3, 7, rest);
            let pp = p + enc_head(4, 3).len() + enc_head(0, 7).len();
            assert(rest.subrange(0, enc_bytes(a).len() as int) =~= enc_bytes(a));
            lemma_seg(c, pp, rest, 0, enc_bytes(a));
            lemma_bytes_enc(a, c, pp);
            assert(rest.subrange(enc_bytes(a).len() as int, rest.len() as int) =~= enc_bytes(b2));
            lemma_seg(c, pp, rest, enc_bytes(a).len() as int, enc_bytes(b2));
            lemma_bytes_enc(b2, c, pp + enc_bytes(a).len());
        },
        UtxowFailureV::InvalidMetadata => {
            assert(e =~= enc_head(4, 1) + enc_head(0, 8) + Seq::<u8>::empty());
            rt_heads(c, p, 1, 8, Seq::empty());
        },
        UtxowFailureV::ExtraneousScriptWitnessesUTXOW(h) => {
            rt_heads(c, p, 2, 9, enc_bytes(h));
            lemma_bytes_enc(h, c, p + enc_head(4, 2).len() + enc_head(0, 9).len());
        },
        UtxowFailureV::MissingRedeemers(v) => {
            rt_heads(c, p, 2, 10, enc_redeemer_list(v));
            rt_redeemer_list(v, c, p + enc_head(4, 2).len() + enc_head(0, 10).len());
        },
        UtxowFailureV::MissingRequiredDatums(a, b2) => {
            let rest = enc_bytes_list(a) + enc_bytes_list(b2);
            assert(e =~= enc_head(4, 3) + enc_head(0, 11) + rest);
            rt_heads(c, p, 3, 11, rest);
            let pp = p + enc_head(4, 3).len() + enc_head(0, 11).len();
            assert(rest.subrange(0, enc_bytes_list(a).len() as int) =~= enc_bytes_list(a));
            lemma_seg(c, pp, rest, 0, enc_bytes_list(a));
            rt_bytes_list(a, c, pp);
            assert(rest.subrange(enc_bytes_list(a).len() as int, rest.len() as int)
                =~= enc_bytes_list(b2));
            lemma_seg(c, pp, rest, enc_bytes_list(a).len() as int, enc_bytes_list(b2));
            rt_bytes_list(b2, c, pp + enc_bytes_list(a).len());
        },
        UtxowFailureV::NotAllowedSupplementalDatums(a, b2) => {
            let rest = enc_bytes_list(a) + enc_bytes_list(b2);
            assert(e =~= enc_head(4, 3) + enc_head(0, 12) + rest);
            rt_heads(c, p, 3, 12, rest);
            let pp = p + enc_head(4, 3).len() + enc_head(0, 12).len();
            assert(rest.subrange(0, enc_bytes_list(a).len() as int) =~= enc_bytes_list(a));
            lemma_seg(c, pp, rest, 0, enc_bytes_list(a));
            rt_bytes_list(a, c, pp);
            assert(rest.subrange(enc_bytes_list(a).len() as int, rest.len() as int)
                =~= enc_bytes_list(b2));
            lemma_seg(c, pp, rest, enc_bytes_list(a).len() as int, enc_bytes_list(b2));
            rt_bytes_list(b2, c, pp + enc_bytes_list(a).len());
        },
        UtxowFailureV::PPViewHashesDontMatch(o) => {
            rt_heads(c, p, 2, 13, enc_opt_hash(o));
            rt_opt_hash(o, c, p + enc_head(4, 2).len() + enc_head(0, 13).len());
        },
        UtxowFailureV::UnspendableUTxONoDatumHash(v) => {
            rt_heads(c, p, 2, 14, enc_txin_list(v));
            rt_txin_list(v, c, p + enc_head(4, 2).len() + enc_head(0, 14).len());
        },
        UtxowFailureV::ExtraRedeemers(v) => {
            rt_heads(c, p, 2, 15, enc_purpose_list(v));
            rt_purpose_list(v, c, p + enc_head(4, 2).len() + enc_head(0, 15).len());
        },
        UtxowFailureV::MalformedScriptWitnesses(v) => {
            rt_heads(c, p, 2, 16, enc_bytes_list(v));
            rt_bytes_list(v, c, p + enc_head(4, 2).len() + enc_head(0, 16).len());
        },
        UtxowFailureV::MalformedReferenceScripts(v) => {
            rt_heads(c, p, 2, 17, enc_bytes_list(v));
            rt_bytes_list(v, c, p + enc_head(4, 2).len() + enc_head(0, 17).len());
        },
    }
}

#[verifier::rlimit(60)]
proof fn rt_pred_error(t: PredErrorV, c: Seq<u8>, p: int, fuel: nat)
    requires
        wf_pred_error(t),
        fuel >= depth_pred(t),
        0 <= p,
        p + enc_pred_error(t).len() <= c.len(),
        c.subrange(p, p + enc_pred_error(t).len()) =~= enc_pred_error(t),
    ensures
        sp_p_pred_error(c, p, fuel) == Some((t, p + enc_pred_error(t).len())),
{
    let e = enc_pred_error(t);
    match t {
        PredErrorV::UtxowFailure(f) => {
            rt_heads(c, p, 2, 1, enc_utxow_failure(f));
            rt_utxow_failure(f, c, p + enc_head(4, 2).len() + enc_head(0, 1).len(), fuel);
        },
        PredErrorV::CertsFailure(f) => {
            rt_heads(c, p, 2, 2, enc_utxow_failure(f));
            rt_utxow_failure(f, c, p + enc_head(4, 2).len() + enc_head(0, 2).len(), fuel);
        },
        PredErrorV::GovFailure(f) => {
            rt_heads(c, p, 2, 3, enc_utxow_failure(f));
            rt_utxow_failure(f, c, p + enc_head(4, 2).len() + enc_head(0, 3).len(), fuel);
        },
        PredErrorV::WdrlNotDelegatedToDRep(h) => {
            rt_heads(c, p, 2, 4, enc_bytes(h));
            lemma_bytes_enc(h, c, p + enc_head(4, 2).len() + enc_head(0, 4).len());
        },
        PredErrorV::TreasuryValueMismatch(a, b2) => {
            let rest = enc_head(0, a) + enc_head(0, b2);
            assert(enc_pred_error(t) =~= enc_head(4, 3) + enc_head(0, 5) + rest);
            rt_heads(c, p, 3, 5, rest);
            let pp = p + enc_head(4, 3).len() + enc_head(0, 5).len();
            assert(rest.subrange(0, enc_head(0, a).len() as int) =~= enc_head(0, a));
            lemma_seg(c, pp, rest, 0, enc_head(0, a));
            lemma_head_enc(0, a, c, pp);
            assert(rest.subrange(enc_head(0, a).len() as int, rest.len() as int) =~= enc_head(
                0,
                b2,
            ));
            lemma_seg(c, pp, rest, enc_head(0, a).len() as int, enc_head(0, b2));
            lemma_head_enc(0, b2, c, pp + enc_head(0, a).len());
        },
        PredErrorV::TxRefScriptsSizeTooBig(v) => {
            rt_heads(c, p, 2, 6, enc_head(0, v));
            lemma_head_enc(0, v, c, p + enc_head(4, 2).len() + enc_head(0, 6).len());
        },
        PredErrorV::MempoolFailure(s) => {
            rt_heads(c, p, 2, 7, enc_text(s));
            lemma_text_enc(s, c, p + enc_head(4, 2).len() + enc_head(0, 7).len());
        },
    }
}

proof fn rt_pred_seq(s: Seq<PredErrorV>, c: Seq<u8>, p: int, fuel: nat)
    requires
        forall|i: int| 0 <= i < s.len() ==> wf_pred_error(#[trigger] s[i]),
        fuel >= depth_errors(s),
        0 <= p,
        p + enc_pred_seq(s).len() <= c.len(),
        c.subrange(p, p + enc_pred_seq(s).len()) =~= enc_pred_seq(s),
    ensures
        sp_p_pred_seq(c, p, s.len(), fuel) == Some((s, p + enc_pred_seq(s).len())),
    decreases s.len(),
{
    if s.len() == 0 {
        assert(s =~= Seq::<PredErrorV>::empty());
    } else {
        let e = enc_pred_seq(s);
        let e0 = enc_pred_error(s[0]);
        let er = enc_pred_seq(s.drop_first());
        assert(e.subrange(0, e0.len() as int) =~= e0);
        lemma_seg(c, p, e, 0, e0);
        rt_pred_error(s[0], c, p, fuel);
        assert(e.subrange(e0.len() as int, e.len() as int) =~= er);
        lemma_seg(c, p, e, e0.len() as int, er);
        assert forall|i: int| 0 <= i < s.drop_first().len() implies wf_pred_error(
            #[trigger] s.drop_first()[i],
        ) by {
            assert(s.drop_first()[i] == s[i + 1]);
        }
        rt_pred_seq(s.drop_first(), c, p + e0.len(), fuel);
        assert(seq![s[0]] + s.drop_first() =~= s);
    }
}

proof fn rt_errors(s: Seq<PredErrorV>, c: Seq<u8>, p: int, fuel: nat)
    requires
        wf_errors(s),
        fuel >= depth_errors(s),
        0 <= p,
        p + enc_errors(s).len() <= c.len(),
        c.subrange(p, p + enc_errors(s).len()) =~= enc_errors(s),
    ensures
        sp_p_errors(c, p, fuel) == Some((s, p + enc_errors(s).len())),
{
    let e = enc_errors(s);
    let h = enc_head(4, s.len() as u64);
    let body = enc_pred_seq(s);
    assert(e.subrange(0, h.len() as int) =~= h);
    lemma_seg(c, p, e, 0, h);
    lemma_head_enc(4, s.len() as u64, c, p);
    assert(e.subrange(h.len() as int, e.len() as int) =~= body);
    lemma_seg(c, p, e, h.len() as int, body);
    rt_pred_seq(s, c, p + h.len(), fuel);
}

/// Every encoding has at least one byte per failure, so the fuel that the
/// entry point takes from the buffer length is always enough.
proof fn lemma_enc_pred_ge_depth(t: PredErrorV)
    requires
        wf_pred_error(t),
    ensures
        enc_pred_error(t).len() >= depth_pred(t),
{
    match t {
        PredErrorV::UtxowFailure(f) => lemma_enc_utxow_ge_depth(f),
        PredErrorV::CertsFailure(f) => lemma_enc_utxow_ge_depth(f),
        PredErrorV::GovFailure(f) => lemma_enc_utxow_ge_depth(f),
        _ => {},
    }
}

proof fn lemma_enc_utxow_ge_depth(f: UtxowFailureV)
    requires
        wf_utxow_failure(f),
    ensures
        enc_utxow_failure(f).len() >= depth_utxow(f),
{
    match f {
        UtxowFailureV::UtxoFailure(e) => lemma_enc_utxo_ge_depth(e),
        _ => {},
    }
}

proof fn lemma_enc_utxo_ge_depth(f: UtxoFailureV)
    requires
        wf_utxo_failure(f),
    ensures
        enc_utxo_failure(f).len() >= depth_utxo(f),
    decreases f,
{
    match f {
        UtxoFailureV::UtxosFailure(e) => {
            lemma_enc_utxo_ge_depth(*e);
        },
        _ => {},
    }
}

proof fn lemma_enc_errors_ge_depth(s: Seq<PredErrorV>)
    requires
        forall|i: int| 0 <= i < s.len() ==> wf_pred_error(#[trigger] s[i]),
    ensures
        enc_pred_seq(s).len() + 1 >= depth_errors(s),
    decreases s.len(),
{
    if s.len() == 0 {
    } else {
        lemma_enc_pred_ge_depth(s[0]);
        assert forall|i: int| 0 <= i < s.drop_first().len() implies wf_pred_error(
            #[trigger] s.drop_first()[i],
        ) by {
            assert(s.drop_first()[i] == s[i + 1]);
        }
        lemma_enc_errors_ge_depth(s.drop_first());
    }
}

/// Parsing the serialization of any natively decodable rejection reason
/// gives the tree back, with the whole encoding consumed.
#[verifier::rlimit(100)]
pub proof fn lemma_rejection_round_trip(t: TxValidationErrorV)
    requires
        wf_rejection(t),
    ensures
        sp_decode_rejection(enc_rejection(t)) == Some(t),
{
    let c = enc_rejection(t);
    let fuel = c.len() + 1;
    match t {
        TxValidationErrorV::Byron { error } => {
            let h2 = enc_head(4, 1);
            let er = enc_errors(error);
            let rest = h2 + er;
            lemma_enc_errors_ge_depth(error);
            assert(c =~= enc_head(4, 2) + enc_head(0, 1) + rest);
            assert(c.subrange(0, c.len() as int) =~= c);
            rt_heads(c, 0, 2, 1, rest);
            let pp = (enc_head(4, 2).len() + enc_head(0, 1).len()) as int;
            assert(rest.subrange(0, h2.len() as int) =~= h2);
            lemma_seg(c, pp, rest, 0, h2);
            lemma_head_enc(4, 1, c, pp);
            let p3 = pp + h2.len();
            assert(rest.subrange(h2.len() as int, rest.len() as int) =~= er);
            lemma_seg(c, pp, rest, h2.len() as int, er);
            rt_errors(error, c, p3 as int, fuel);
        },
        TxValidationErrorV::Shelley { error, era } => {
            let h0 = enc_head(4, 2);
            let h1 = enc_head(0, 2);
            let h2 = enc_head(4, 1);
            let h3 = enc_head(4, 2);
            let h4 = enc_head(0, era.spec_tag());
            let er = enc_errors(error);
            lemma_enc_errors_ge_depth(error);
            let rest = h2 + h3 + h4 + er;
            assert(c =~= h0 + h1 + rest);
            assert(c.subrange(0, c.len() as int) =~= c);
            rt_heads(c, 0, 2, 2, rest);
            let pp = (h0.len() + h1.len()) as int;
            assert(rest.subrange(0, h2.len() as int) =~= h2);
            lemma_seg(c, pp, rest, 0, h2);
            lemma_head_enc(4, 1, c, pp);
            let p3 = pp + h2.len();
            assert(rest.subrange(h2.len() as int, (h2.len() + h3.len()) as int) =~= h3);
            lemma_seg(c, pp, rest, h2.len() as int, h3);
            lemma_head_enc(4, 2, c, p3);
            let p4 = p3 + h3.len();
            assert(rest.subrange((h2.len() + h3.len()) as int, (h2.len() + h3.len()
                + h4.len()) as int) =~= h4);
            lemma_seg(c, pp, rest, (h2.len() + h3.len()) as int, h4);
            rt_era(era, c, p4);
            let p5 = p4 + h4.len();
            assert(rest.subrange((h2.len() + h3.len() + h4.len()) as int, rest.len() as int)
                =~= er);
            lemma_seg(c, pp, rest, (h2.len() + h3.len() + h4.len()) as int, er);
            rt_errors(error, c, p5 as int, fuel);
        },
    }
}

} // verus!
verus! {

proof fn rt_txout(t: TxOutV, c: Seq<u8>, p: int)
    requires
        wf_txout(t),
        0 <= p,
        p + enc_txout(t).len() <= c.len(),
        c.subrange(p, p + enc_txout(t).len()) =~= enc_txout(t),
    ensures
        sp_p_txout(c, p) == Some((t, p + enc_txout(t).len())),
{
    let e = enc_txout(t);
    let h0 = enc_head(4, 2);
    let b1 = enc_bytes(t.address);
    let h2 = enc_head(0, t.coin);
    assert(e.subrange(0, h0.len() as int) =~= h0);
    lemma_seg(c, p, e, 0, h0);
    lemma_head_enc(4, 2, c, p);
    let p1 = p + h0.len() as int;
    assert(e.subrange(h0.len() as int, (h0.len() + b1.len()) as int) =~= b1);
    lemma_seg(c, p, e, h0.len() as int, b1);
    lemma_bytes_enc(t.address, c, p1);
    let p2 = p1 + b1.len() as int;
    assert(e.subrange((h0.len() + b1.len()) as int, e.len() as int) =~= h2);
    lemma_seg(c, p, e, (h0.len() + b1.len()) as int, h2);
    lemma_head_enc(0, t.coin, c, p2);
}

proof fn rt_txout_triple(t: (u64, u64, TxOutV), c: Seq<u8>, p: int)
    requires
        wf_txout(t.2),
        0 <= p,
        p + enc_txout_triple(t).len() <= c.len(),
        c.subrange(p, p + enc_txout_triple(t).len()) =~= enc_txout_triple(t),
    ensures
        sp_p_txout_triple(c, p) == Some((t, p + enc_txout_triple(t).len())),
{
    let rest = enc_head(0, t.0) + enc_head(0, t.1) + enc_txout(t.2);
    assert(enc_txout_triple(t) =~= enc_head(4, 3) + enc_head(0, t.0) + (enc_head(0, t.1)
        + enc_txout(t.2)));
    let e = enc_txout_triple(t);
    let h0 = enc_head(4, 3);
    let a1 = enc_head(0, t.0);
    let a2 = enc_head(0, t.1);
    let o = enc_txout(t.2);
    assert(e.subrange(0, h0.len() as int) =~= h0);
    lemma_seg(c, p, e, 0, h0);
    lemma_head_enc(4, 3, c, p);
    let p1 = p + h0.len() as int;
    assert(e.subrange(h0.len() as int, (h0.len() + a1.len()) as int) =~= a1);
    lemma_seg(c, p, e, h0.len() as int, a1);
    lemma_head_enc(0, t.0, c, p1);
    let p2 = p1 + a1.len() as int;
    assert(e.subrange((h0.len() + a1.len()) as int, (h0.len() + a1.len() + a2.len()) as int)
        =~= a2);
    lemma_seg(c, p, e, (h0.len() + a1.len()) as int, a2);
    lemma_head_enc(0, t.1, c, p2);
    let p3 = p2 + a2.len() as int;
    assert(e.subrange((h0.len() + a1.len() + a2.len()) as int, e.len() as int) =~= o);
    lemma_seg(c, p, e, (h0.len() + a1.len() + a2.len()) as int, o);
    rt_txout(t.2, c, p3);
}

proof fn rt_txout_coin(t: (TxOutV, u64), c: Seq<u8>, p: int)
    requires
        wf_txout(t.0),
        0 <= p,
        p + enc_txout_coin(t).len() <= c.len(),
        c.subrange(p, p + enc_txout_coin(t).len()) =~= enc_txout_coin(t),
    ensures
        sp_p_txout_coin(c, p) == Some((t, p + enc_txout_coin(t).len())),
{
    let e = enc_txout_coin(t);
    let h0 = enc_head(4, 2);
    let o = enc_txout(t.0);
    let a = enc_head(0, t.1);
    assert(e.subrange(0, h0.len() as int) =~= h0);
    lemma_seg(c, p, e, 0, h0);
    lemma_head_enc(4, 2, c, p);
    let p1 = p + h0.len() as int;
    assert(e.subrange(h0.len() as int, (h0.len() + o.len()) as int) =~= o);
    lemma_seg(c, p, e, h0.len() as int, o);
    rt_txout(t.0, c, p1);
    let p2 = p1 + o.len() as int;
    assert(e.subrange((h0.len() + o.len()) as int, e.len() as int) =~= a);
    lemma_seg(c, p, e, (h0.len() + o.len()) as int, a);
    lemma_head_enc(0, t.1, c, p2);
}

proof fn rt_utxo_pair(t: (TxInV, TxOutV), c: Seq<u8>, p: int)
    requires
        wf_txin(t.0),
        wf_txout(t.1),
        0 <= p,
        p + enc_utxo_pair(t).len() <= c.len(),
        c.subrange(p, p + enc_utxo_pair(t).len()) =~= enc_utxo_pair(t),
    ensures
        sp_p_utxo_pair(c, p) == Some((t, p + enc_utxo_pair(t).len())),
{
    let e = enc_utxo_pair(t);
    let h0 = enc_head(4, 2);
    let i = enc_txin(t.0);
    let o = enc_txout(t.1);
    assert(e.subrange(0, h0.len() as int) =~= h0);
    lemma_seg(c, p, e, 0, h0);
    lemma_head_enc(4, 2, c, p);
    let p1 = p + h0.len() as int;
    assert(e.subrange(h0.len() as int, (h0.len() + i.len()) as int) =~= i);
    lemma_seg(c, p, e, h0.len() as int, i);
    rt_txin(t.0, c, p1);
    let p2 = p1 + i.len() as int;
    assert(e.subrange((h0.len() + i.len()) as int, e.len() as int) =~= o);
    lemma_seg(c, p, e, (h0.len() + i.len()) as int, o);
    rt_txout(t.1, c, p2);
}

proof fn rt_txout_seq(s: Seq<TxOutV>, c: Seq<u8>, p: int)
    requires
        forall|i: int| 0 <= i < s.len() ==> wf_txout(#[trigger] s[i]),
        0 <= p,
        p + enc_txout_seq(s).len() <= c.len(),
        c.subrange(p, p + enc_txout_seq(s).len()) =~= enc_txout_seq(s),
    ensures
        sp_p_txout_seq(c, p, s.len()) == Some((s, p + enc_txout_seq(s).len())),
    decreases s.len(),
{
    if s.len() == 0 {
        assert(s =~= Seq::<TxOutV>::empty());
    } else {
        let e = enc_txout_seq(s);
        let e0 = enc_txout(s[0]);
        let er = enc_txout_seq(s.drop_first());
        assert(e.subrange(0, e0.len() as int) =~= e0);
        lemma_seg(c, p, e, 0, e0);
        rt_txout(s[0], c, p);
        assert(e.subrange(e0.len() as int, e.len() as int) =~= er);
        lemma_seg(c, p, e, e0.len() as int, er);
        assert forall|i: int| 0 <= i < s.drop_first().len() implies wf_txout(
            #[trigger] s.drop_first()[i],
        ) by {
            assert(s.drop_first()[i] == s[i + 1]);
        }
        rt_txout_seq(s.drop_first(), c, p + e0.len());
        assert(seq![s[0]] + s.drop_first() =~= s);
    }
}

proof fn rt_txout_triple_seq(s: Seq<(u64, u64, TxOutV)>, c: Seq<u8>, p: int)
    requires
        forall|i: int| 0 <= i < s.len() ==> wf_txout((#[trigger] s[i]).2),
        0 <= p,
        p + enc_txout_triple_seq(s).len() <= c.len(),
        c.subrange(p, p + enc_txout_triple_seq(s).len()) =~= enc_txout_triple_seq(s),
    ensures
        sp_p_txout_triple_seq(c, p, s.len()) == Some((s, p + enc_txout_triple_seq(s).len())),
    decreases s.len(),
{
    if s.len() == 0 {
        assert(s =~= Seq::<(u64, u64, TxOutV)>::empty());
    } else {
        let e = enc_txout_triple_seq(s);
        let e0 = enc_txout_triple(s[0]);
        let er = enc_txout_triple_seq(s.drop_first());
        assert(e.subrange(0, e0.len() as int) =~= e0);
        lemma_seg(c, p, e, 0, e0);
        rt_txout_triple(s[0], c, p);
        assert(e.subrange(e0.len() as int, e.len() as int) =~= er);
        lemma_seg(c, p, e, e0.len() as int, er);
        assert forall|i: int| 0 <= i < s.drop_first().len() implies wf_txout(
            (#[trigger] s.drop_first()[i]).2,
        ) by {
            assert(s.drop_first()[i] == s[i + 1]);
        }
        rt_txout_triple_seq(s.drop_first(), c, p + e0.len());
        assert(seq![s[0]] + s.drop_first() =~= s);
    }
}

proof fn rt_txout_coin_seq(s: Seq<(TxOutV, u64)>, c: Seq<u8>, p: int)
    requires
        forall|i: int| 0 <= i < s.len() ==> wf_txout((#[trigger] s[i]).0),
        0 <= p,
        p + enc_txout_coin_seq(s).len() <= c.len(),
        c.subrange(p, p + enc_txout_coin_seq(s).len()) =~= enc_txout_coin_seq(s),
    ensures
        sp_p_txout_coin_seq(c, p, s.len()) == Some((s, p + enc_txout_coin_seq(s).len())),
    decreases s.len(),
{
    if s.len() == 0 {
        assert(s =~= Seq::<(TxOutV, u64)>::empty());
    } else {
        let e = enc_txout_coin_seq(s);
        let e0 = enc_txout_coin(s[0]);
        let er = enc_txout_coin_seq(s.drop_first());
        assert(e.subrange(0, e0.len() as int) =~= e0);
        lemma_seg(c, p, e, 0, e0);
        rt_txout_coin(s[0], c, p);
        assert(e.subrange(e0.len() as int, e.len() as int) =~= er);
        lemma_seg(c, p, e, e0.len() as int, er);
        assert forall|i: int| 0 <= i < s.drop_first().len() implies wf_txout(
            (#[trigger] s.drop_first()[i]).0,
        ) by {
            assert(s.drop_first()[i] == s[i + 1]);
        }
        rt_txout_coin_seq(s.drop_first(), c, p + e0.len());
        assert(seq![s[0]] + s.drop_first() =~= s);
    }
}

proof fn rt_utxo_pair_seq(s: Seq<(TxInV, TxOutV)>, c: Seq<u8>, p: int)
    requires
        forall|i: int|
            0 <= i < s.len() ==> wf_txin((#[trigger] s[i]).0) && wf_txout(s[i].1),
        0 <= p,
        p + enc_utxo_pair_seq(s).len() <= c.len(),
        c.subrange(p, p + enc_utxo_pair_seq(s).len()) =~= enc_utxo_pair_seq(s),
    ensures
        sp_p_utxo_pair_seq(c, p, s.len()) == Some((s, p + enc_utxo_pair_seq(s).len())),
    decreases s.len(),
{
    if s.len() == 0 {
        assert(s =~= Seq::<(TxInV, TxOutV)>::empty());
    } else {
        let e = enc_utxo_pair_seq(s);
        let e0 = enc_utxo_pair(s[0]);
        let er = enc_utxo_pair_seq(s.drop_first());
        assert(e.subrange(0, e0.len() as int) =~= e0);
        lemma_seg(c, p, e, 0, e0);
        rt_utxo_pair(s[0], c, p);
        assert(e.subrange(e0.len() as int, e.len() as int) =~= er);
        lemma_seg(c, p, e, e0.len() as int, er);
        assert forall|i: int| 0 <= i < s.drop_first().len() implies wf_txin(
            (#[trigger] s.drop_first()[i]).0,
        ) && wf_txout(s.drop_first()[i].1) by {
            assert(s.drop_first()[i] == s[i + 1]);
        }
        rt_utxo_pair_seq(s.drop_first(), c, p + e0.len());
        assert(seq![s[0]] + s.drop_first() =~= s);
    }
}

proof fn rt_txout_list(s: Seq<TxOutV>, c: Seq<u8>, p: int)
    requires
        wf_txout_seq(s),
        0 <= p,
        p + enc_txout_list(s).len() <= c.len(),
        c.subrange(p, p + enc_txout_list(s).len()) =~= enc_txout_list(s),
    ensures
        sp_p_txout_list(c, p) == Some((s, p + enc_txout_list(s).len())),
{
    let e = enc_txout_list(s);
    let h = enc_head(4, s.len() as u64);
    let body = enc_txout_seq(s);
    assert(e.subrange(0, h.len() as int) =~= h);
    lemma_seg(c, p, e, 0, h);
    lemma_head_enc(4, s.len() as u64, c, p);
    assert(e.subrange(h.len() as int, e.len() as int) =~= body);
    lemma_seg(c, p, e, h.len() as int, body);
    rt_txout_seq(s, c, p + h.len());
}

proof fn rt_txout_triple_list(s: Seq<(u64, u64, TxOutV)>, c: Seq<u8>, p: int)
    requires
        wf_txout_triple_seq(s),
        0 <= p,
        p + enc_txout_triple_list(s).len() <= c.len(),
        c.subrange(p, p + enc_txout_triple_list(s).len()) =~= enc_txout_triple_list(s),
    ensures
        sp_p_txout_triple_list(c, p) == Some((s, p + enc_txout_triple_list(s).len())),
{
    let e = enc_txout_triple_list(s);
    let h = enc_head(4, s.len() as u64);
    let body = enc_txout_triple_seq(s);
    assert(e.subrange(0, h.len() as int) =~= h);
    lemma_seg(c, p, e, 0, h);
    lemma_head_enc(4, s.len() as u64, c, p);
    assert(e.subrange(h.len() as int, e.len() as int) =~= body);
    lemma_seg(c, p, e, h.len() as int, body);
    rt_txout_triple_seq(s, c, p + h.len());
}

proof fn rt_txout_coin_list(s: Seq<(TxOutV, u64)>, c: Seq<u8>, p: int)
    requires
        wf_txout_coin_seq(s),
        0 <= p,
        p + enc_txout_coin_list(s).len() <= c.len(),
        c.subrange(p, p + enc_txout_coin_list(s).len()) =~= enc_txout_coin_list(s),
    ensures
        sp_p_txout_coin_list(c, p) == Some((s, p + enc_txout_coin_list(s).len())),
{
    let e = enc_txout_coin_list(s);
    let h = enc_head(4, s.len() as u64);
    let body = enc_txout_coin_seq(s);
    assert(e.subrange(0, h.len() as int) =~= h);
    lemma_seg(c, p, e, 0, h);
    lemma_head_enc(4, s.len() as u64, c, p);
    assert(e.subrange(h.len() as int, e.len() as int) =~= body);
    lemma_seg(c, p, e, h.len() as int, body);
    rt_txout_coin_seq(s, c, p + h.len());
}

proof fn rt_utxo_pair_list(s: Seq<(TxInV, TxOutV)>, c: Seq<u8>, p: int)
    requires
        wf_utxo_pair_seq(s),
        0 <= p,
        p + enc_utxo_pair_list(s).len() <= c.len(),
        c.subrange(p, p + enc_utxo_pair_list(s).len()) =~= enc_utxo_pair_list(s),
    ensures
        sp_p_utxo_pair_list(c, p) == Some((s, p + enc_utxo_pair_list(s).len())),
{
    let e = enc_utxo_pair_list(s);
    let h = enc_head(4, s.len() as u64);
    let body = enc_utxo_pair_seq(s);
    assert(e.subrange(0, h.len() as int) =~= h);
    lemma_seg(c, p, e, 0, h);
    lemma_head_enc(4, s.len() as u64, c, p);
    assert(e.subrange(h.len() as int, e.len() as int) =~= body);
    lemma_seg(c, p, e, h.len() as int, body);
    rt_utxo_pair_seq(s, c, p + h.len());
}

} // verus!
