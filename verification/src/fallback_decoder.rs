//! The decision core of the fallback decoder's supervisor: which request
//! a round serves, what each child answer commits to, and the retry-once
//! rule. The child process, its pipes and the queues live outside the
//! library; they drive this machine.

use vstd::prelude::*;
use vstd::string::StringExecFns;

use crate::hex::hex_encode;
use crate::hex::hex_of;
use crate::json::JsonV;
use crate::json::JsonValue;
use crate::common::str_eq;

verus! {

/// A decode request: the reason bytes, and the number of the one-shot
/// reply channel the caller waits on.
pub struct FallbackRequest {
    pub cbor: Vec<u8>,
    pub reply_to: u64,
}

/// A reply sent on a request's channel.
pub struct FallbackReply {
    pub reply_to: u64,
    pub outcome: Result<JsonValue, String>,
}

/// One line read back from the child, already parsed and classified.
pub enum ChildLine {
    Decoded(JsonValue),
    DecodeFailed(String),
    Protocol,
}

/// What the supervisor observed in one round: a classified answer, or an
/// input/output failure before any line came back.
pub enum ChildOutcome {
    Answer(ChildLine),
    Failure,
}

/// The supervisor's own state: the pending-retry slot, which never holds
/// more than one request.
pub struct FallbackDecoder {
    pub pending_retry: Option<FallbackRequest>,
}

impl FallbackDecoder {
    /// A fresh supervisor: nothing pending.
    pub fn new() -> (r: Self)
        ensures
            r.pending_retry is None,
    {
        FallbackDecoder { pending_retry: None }
    }

    /// Whether a request is waiting to be retried; when it is, the next
    /// round must serve it before anything from the queue.
    pub fn has_pending(&self) -> (r: bool)
        ensures
            r == (self.pending_retry is Some),
    {
        match &self.pending_retry {
            Some(_) => true,
            None => false,
        }
    }

    /// Starts a round: the pending retry wins over the freshly dequeued
    /// request; either way the served request sits in the slot until the
    /// round commits. Returns the hex line for the child and whether
    /// this is a retry.
    pub fn begin_round(&mut self, dequeued: Option<FallbackRequest>) -> (r: Option<(String, bool)>)
        requires
            old(self).pending_retry is Some ==> dequeued is None,
        ensures
            old(self).pending_retry matches Some(req) ==> {
                &&& final(self).pending_retry == old(self).pending_retry
                &&& r matches Some((line, retry))
                &&& retry == true
                &&& line@ == hex_of(req.cbor@)
            },
            old(self).pending_retry is None && dequeued is Some ==> {
                &&& final(self).pending_retry == dequeued
                &&& r matches Some((line, retry))
                &&& retry == false
                &&& line@ == hex_of(dequeued.unwrap().cbor@)
            },
            old(self).pending_retry is None && dequeued is None ==> r is None && final(self).pending_retry is None,
    {
        match &self.pending_retry {
            Some(req) => {
                let line = hex_encode(&req.cbor);
                Some((line, true))
            },
            None => {
                match dequeued {
                    Some(req) => {
                        let line = hex_encode(&req.cbor);
                        self.pending_retry = Some(req);
                        Some((line, false))
                    },
                    None => None,
                }
            },
        }
    }

    /// Commits a round. A classified answer, success or decode failure,
    /// is sent to the requester and clears the slot. A child failure on
    /// a first try keeps the request for one retry and asks for a
    /// restart; on a retry it sends the terminal error, clears the slot,
    /// and asks for a restart. At most one reply leaves any round, and a
    /// request never outlives the round that answered it.
    pub fn commit_round(&mut self, is_retry: bool, outcome: ChildOutcome) -> (r: (
        Option<FallbackReply>,
        bool,
    ))
        requires
            old(self).pending_retry is Some,
        ensures
            outcome matches ChildOutcome::Answer(ChildLine::Decoded(j)) ==> {
                &&& r.0 matches Some(rep)
                &&& rep.reply_to == old(self).pending_retry.unwrap().reply_to
                &&& rep.outcome == Result::<JsonValue, String>::Ok(j)
                &&& final(self).pending_retry is None
                &&& r.1 == false
            },
            outcome matches ChildOutcome::Answer(ChildLine::DecodeFailed(m)) ==> {
                &&& r.0 matches Some(rep)
                &&& rep.reply_to == old(self).pending_retry.unwrap().reply_to
                &&& rep.outcome == Result::<JsonValue, String>::Err(m)
                &&& final(self).pending_retry is None
                &&& r.1 == false
            },
            (outcome matches ChildOutcome::Answer(line) && line is Protocol) || outcome is Failure
                ==> r.1 == true && (if is_retry {
                &&& r.0 matches Some(rep)
                &&& rep.reply_to == old(self).pending_retry.unwrap().reply_to
                &&& (rep.outcome matches Err(m) && m@ == "repeated internal failure"@)
                &&& final(self).pending_retry is None
            } else {
                &&& r.0 is None
                &&& final(self).pending_retry == old(self).pending_retry
            }),
    {
        match outcome {
            ChildOutcome::Answer(ChildLine::Decoded(j)) => {
                let req = self.take_pending();
                (Some(FallbackReply { reply_to: req.reply_to, outcome: Ok(j) }), false)
            },
            ChildOutcome::Answer(ChildLine::DecodeFailed(m)) => {
                let req = self.take_pending();
                (Some(FallbackReply { reply_to: req.reply_to, outcome: Err(m) }), false)
            },
            ChildOutcome::Answer(ChildLine::Protocol) | ChildOutcome::Failure => {
                if is_retry {
                    let req = self.take_pending();
                    (
                        Some(
                            FallbackReply {
                                reply_to: req.reply_to,
                                outcome: Err(String::from_str("repeated internal failure")),
                            },
                        ),
                        true,
                    )
                } else {
                    (None, true)
                }
            },
        }
    }

    /// Empties the slot, handing the request out.
    fn take_pending(&mut self) -> (r: FallbackRequest)
        requires
            old(self).pending_retry is Some,
        ensures
            r == old(self).pending_retry.unwrap(),
            final(self).pending_retry is None,
    {
        let mut slot: Option<FallbackRequest> = None;
        core::mem::swap(&mut self.pending_retry, &mut slot);
        match slot {
            Some(req) => req,
            None => {
                proof {
                    assert(false);
                }
                FallbackRequest { cbor: Vec::new(), reply_to: 0 }
            },
        }
    }
}

/// Classifies one parsed line from the child: a lone `error` field is a
/// decode failure, a `json` field is the decoded document, anything
/// else is a protocol violation.
pub fn classify_child_line(v: JsonValue) -> (r: ChildLine)
    ensures
        v@ matches JsonV::Object(fs) ==> {
            if fs.len() == 1 && fs[0].0 == "error"@ && fs[0].1 is Str {
                r matches ChildLine::DecodeFailed(m) && m@ == fs[0].1 -> Str_0
            } else if sp_lookup(fs, "json"@) is Some {
                r matches ChildLine::Decoded(j) && j@ == sp_lookup(fs, "json"@).unwrap()
            } else {
                r is Protocol
            }
        },
        !(v@ is Object) ==> r is Protocol,
{
    match v {
        JsonValue::Object(mut fields) => {
            let ghost fs = (view_of_object(&fields));
            proof {
                assert(fs =~= (v@) -> Object_0);
            }
            if fields.len() == 1 {
                let only_key_is_error = str_eq(fields[0].0.as_str(), "error");
                let only_val_is_str = match &fields[0].1 {
                    JsonValue::Str(_) => true,
                    _ => false,
                };
                proof {
                    assert(fs[0] == (fields@[0].0@, fields@[0].1@));
                }
                if only_key_is_error && only_val_is_str {
                    let (_k, val) = fields.remove(0);
                    match val {
                        JsonValue::Str(m) => {
                            return ChildLine::DecodeFailed(m);
                        },
                        _ => {
                            proof {
                                assert(false);
                            }
                            return ChildLine::Protocol;
                        },
                    }
                }
            }
            let mut i: usize = 0;
            proof {
                assert(fs.skip(0) =~= fs);
            }
            while i < fields.len()
                invariant
                    i <= fields.len(),
                    v@ is Object,
                    fs == (v@) -> Object_0,
                    !(fs.len() == 1 && fs[0].0 == "error"@ && fs[0].1 is Str),
                    fs.len() == fields@.len(),
                    forall|k: int|
                        0 <= k < fields@.len() ==> #[trigger] fs[k] == (
                            fields@[k].0@,
                            fields@[k].1@,
                        ),
                    sp_lookup(fs, "json"@) == sp_lookup(fs.skip(i as int), "json"@),
                decreases fields.len() - i,
            {
                if str_eq(fields[i].0.as_str(), "json") {
                    proof {
                        assert(fs.skip(i as int)[0] == fs[i as int]);
                    }
                    let (_k, val) = fields.remove(i);
                    return ChildLine::Decoded(val);
                }
                i = i + 1;
                proof {
                    assert(fs.skip(i as int - 1).drop_first() =~= fs.skip(i as int));
                    assert(fs.skip(i as int - 1)[0] == fs[i as int - 1]);
                }
            }
            proof {
                assert(fs.skip(fields@.len() as int) =~= Seq::<(Seq<char>, JsonV)>::empty());
            }
            ChildLine::Protocol
        },
        _ => ChildLine::Protocol,
    }
}

/// The view of an object's fields; a helper for ghost bookkeeping.
pub open spec fn view_of_object(fields: &Vec<(String, JsonValue)>) -> Seq<(Seq<char>, JsonV)> {
    Seq::new(
        fields@.len(),
        |i: int|
            if 0 <= i < fields@.len() {
                (fields@[i].0@, fields@[i].1@)
            } else {
                (Seq::empty(), JsonV::Null)
            },
    )
}

/// The first field with the given key, if any: how the child's reply
/// object is searched.
pub open spec fn sp_lookup(fields: Seq<(Seq<char>, JsonV)>, key: Seq<char>) -> Option<JsonV>
    decreases fields.len(),
{
    if fields.len() == 0 {
        None
    } else if fields[0].0 == key {
        Some(fields[0].1)
    } else {
        sp_lookup(fields.drop_first(), key)
    }
}

/// The fixed input of the startup check: a rejection reason whose decode
/// the whole pipeline is compared against before serving traffic.
pub fn startup_sanity_input() -> (r: Vec<u8>)
    ensures
        r@ =~= seq![0x81u8, 0x82u8, 0x06u8, 0x81u8, 0x82u8, 0x02u8, 0x82u8, 0x00u8, 0xa0u8],
{
    let mut v: Vec<u8> = Vec::new();
    v.push(0x81);
    v.push(0x82);
    v.push(0x06);
    v.push(0x81);
    v.push(0x82);
    v.push(0x02);
    v.push(0x82);
    v.push(0x00);
    v.push(0xa0);
    v
}

/// The JSON text the startup check expects for its fixed input, with the
/// object keys in the order the reference decoder prints them.
pub fn startup_sanity_expected() -> (r: String)
    ensures
        r@ == "{\"contents\":{\"contents\":{\"contents\":{\"era\":\"ShelleyBasedEraConway\",\"error\":[\"ConwayCertsFailure (WithdrawalsNotInRewardsCERTS (fromList []))\"],\"kind\":\"ShelleyTxValidationError\"},\"tag\":\"TxValidationErrorInCardanoMode\"},\"tag\":\"TxCmdTxSubmitValidationError\"},\"tag\":\"TxSubmitFail\"}"@,
{
    String::from_str(
        "{\"contents\":{\"contents\":{\"contents\":{\"era\":\"ShelleyBasedEraConway\",\"error\":[\"ConwayCertsFailure (WithdrawalsNotInRewardsCERTS (fromList []))\"],\"kind\":\"ShelleyTxValidationError\"},\"tag\":\"TxValidationErrorInCardanoMode\"},\"tag\":\"TxCmdTxSubmitValidationError\"},\"tag\":\"TxSubmitFail\"}",
    )
}

} // verus!
verus! {

/// One supervisor round, abstractly: the reply channel dequeued when the
/// slot was empty, and whether the child answered the round's request.
pub struct RoundView {
    pub dequeued: Option<u64>,
    pub answered: bool,
}

/// The pending-retry slot after a round: a retry round always empties it,
/// a fresh round keeps its request exactly when the child failed.
pub open spec fn sp_round_state(s: Option<u64>, r: RoundView) -> Option<u64> {
    match s {
        Option::Some(_) => Option::None,
        Option::None => match r.dequeued {
            Option::Some(id) => if r.answered {
                Option::None
            } else {
                Option::Some(id)
            },
            Option::None => Option::None,
        },
    }
}

/// The channels replied to in one round: the retried request's channel,
/// or the fresh request's channel when the child answered.
pub open spec fn sp_round_replies(s: Option<u64>, r: RoundView) -> Seq<u64> {
    match s {
        Option::Some(id) => seq![id],
        Option::None => match r.dequeued {
            Option::Some(id) => if r.answered {
                seq![id]
            } else {
                Seq::empty()
            },
            Option::None => Seq::empty(),
        },
    }
}

/// The channels replied to over a run of rounds.
pub open spec fn sp_replies(s: Option<u64>, rounds: Seq<RoundView>) -> Seq<u64>
    decreases rounds.len(),
{
    if rounds.len() == 0 {
        Seq::empty()
    } else {
        sp_round_replies(s, rounds[0]) + sp_replies(
            sp_round_state(s, rounds[0]),
            rounds.drop_first(),
        )
    }
}

/// Rounds the machine admits: while a retry is pending nothing is
/// dequeued.
pub open spec fn sp_valid_rounds(s: Option<u64>, rounds: Seq<RoundView>) -> bool
    decreases rounds.len(),
{
    if rounds.len() == 0 {
        true
    } else {
        &&& (s is Some ==> rounds[0].dequeued is None)
        &&& sp_valid_rounds(sp_round_state(s, rounds[0]), rounds.drop_first())
    }
}

/// The channels dequeued over a run.
pub open spec fn sp_dequeued(rounds: Seq<RoundView>) -> Seq<u64>
    decreases rounds.len(),
{
    if rounds.len() == 0 {
        Seq::empty()
    } else {
        (match rounds[0].dequeued {
            Option::Some(id) => seq![id],
            Option::None => Seq::empty(),
        }) + sp_dequeued(rounds.drop_first())
    }
}

/// No value appears twice.
pub open spec fn sp_distinct(s: Seq<u64>) -> bool {
    forall|i: int, j: int| 0 <= i < j < s.len() ==> #[trigger] s[i] != #[trigger] s[j]
}

/// Every channel a run replies to was dequeued during the run, or sat in
/// the slot when the run began.
proof fn lemma_replies_source(s: Option<u64>, rounds: Seq<RoundView>, e: u64)
    requires
        sp_valid_rounds(s, rounds),
        sp_replies(s, rounds).contains(e),
    ensures
        (s matches Some(id) && id == e) || sp_dequeued(rounds).contains(e),
    decreases rounds.len(),
{
    if rounds.len() == 0 {
    } else {
        let head = sp_round_replies(s, rounds[0]);
        let s2 = sp_round_state(s, rounds[0]);
        let rest = sp_replies(s2, rounds.drop_first());
        let idx = choose|i: int| 0 <= i < sp_replies(s, rounds).len() && sp_replies(s, rounds)[i] == e;
        if idx < head.len() {
            match s {
                Option::Some(_) => {},
                Option::None => {
                    assert(rounds[0].dequeued is Some);
                    assert(sp_dequeued(rounds)[0] == rounds[0].dequeued.unwrap());
                },
            }
        } else {
            assert(rest[idx - head.len()] == e);
            assert(rest.contains(e));
            lemma_replies_source(s2, rounds.drop_first(), e);
            match s2 {
                Option::Some(id2) => {
                    if id2 == e {
                        assert(rounds[0].dequeued is Some);
                        assert(sp_dequeued(rounds)[0] == e);
                    } else {
                        let j = choose|j: int|
                            0 <= j < sp_dequeued(rounds.drop_first()).len() && sp_dequeued(
                                rounds.drop_first(),
                            )[j] == e;
                        assert(sp_dequeued(rounds)[j + (sp_dequeued(rounds).len() - sp_dequeued(
                            rounds.drop_first(),
                        ).len())] == e);
                    }
                },
                Option::None => {
                    if sp_dequeued(rounds.drop_first()).contains(e) {
                        let j = choose|j: int|
                            0 <= j < sp_dequeued(rounds.drop_first()).len() && sp_dequeued(
                                rounds.drop_first(),
                            )[j] == e;
                        assert(sp_dequeued(rounds)[j + (sp_dequeued(rounds).len() - sp_dequeued(
                            rounds.drop_first(),
                        ).len())] == e);
                    }
                },
            }
        }
    }
}

/// The supervisor never replies twice on one channel: over any run whose
/// dequeued channels are pairwise distinct and distinct from the channel
/// pending at the start, the replied channels are pairwise distinct.
pub proof fn lemma_one_reply_per_channel(s: Option<u64>, rounds: Seq<RoundView>)
    requires
        sp_valid_rounds(s, rounds),
        sp_distinct(sp_dequeued(rounds)),
        s matches Some(id) ==> !sp_dequeued(rounds).contains(id),
    ensures
        sp_distinct(sp_replies(s, rounds)),
    decreases rounds.len(),
{
    if rounds.len() == 0 {
    } else {
        let head = sp_round_replies(s, rounds[0]);
        let s2 = sp_round_state(s, rounds[0]);
        let tail = rounds.drop_first();
        let rest = sp_replies(s2, tail);
        let dq_all = sp_dequeued(rounds);
        let dq_rest = sp_dequeued(tail);
        assert forall|j: int| 0 <= j < dq_rest.len() implies #[trigger] dq_all.contains(
            dq_rest[j],
        ) by {
            assert(dq_all[j + (dq_all.len() - dq_rest.len())] == dq_rest[j]);
        }
        assert(sp_distinct(dq_rest)) by {
            assert forall|i: int, j: int| 0 <= i < j < dq_rest.len() implies #[trigger] dq_rest[i]
                != #[trigger] dq_rest[j] by {
                let off = dq_all.len() - dq_rest.len();
                assert(dq_all[i + off] == dq_rest[i]);
                assert(dq_all[j + off] == dq_rest[j]);
            }
        }
        match s2 {
            Option::Some(id2) => {
                assert(rounds[0].dequeued == Option::Some(id2));
                assert(dq_all[0] == id2);
                assert(!dq_rest.contains(id2)) by {
                    if dq_rest.contains(id2) {
                        let j = choose|j: int| 0 <= j < dq_rest.len() && dq_rest[j] == id2;
                        assert(dq_all[j + (dq_all.len() - dq_rest.len())] == id2);
                    }
                }
            },
            Option::None => {},
        }
        lemma_one_reply_per_channel(s2, tail);
        assert forall|i: int, j: int|
            0 <= i < j < sp_replies(s, rounds).len() implies #[trigger] sp_replies(s, rounds)[i]
            != #[trigger] sp_replies(s, rounds)[j] by {
            let all = sp_replies(s, rounds);
            if i < head.len() {
                if j < head.len() {
                    assert(head.len() <= 1);
                    assert(false);
                } else {
                    assert(all[j] == rest[j - head.len()]);
                    assert(rest.contains(rest[j - head.len()]));
                    lemma_replies_source(s2, tail, rest[j - head.len()]);
                    match s {
                        Option::Some(id) => {
                            assert(all[i] == id);
                            assert(s2 is None);
                            if dq_rest.contains(id) {
                                let k = choose|k: int|
                                    0 <= k < dq_rest.len() && dq_rest[k] == id;
                                assert(dq_all.contains(dq_rest[k]));
                            }
                        },
                        Option::None => {
                            let id = rounds[0].dequeued.unwrap();
                            assert(all[i] == id);
                            assert(rounds[0].answered);
                            assert(s2 is None);
                            assert(dq_all[0] == id);
                            if dq_rest.contains(id) {
                                let k = choose|k: int|
                                    0 <= k < dq_rest.len() && dq_rest[k] == id;
                                assert(dq_all[k + (dq_all.len() - dq_rest.len())] == id);
                            }
                        },
                    }
                }
            } else {
                assert(all[i] == rest[i - head.len()]);
                assert(all[j] == rest[j - head.len()]);
            }
        }
    }
}

} // verus!
