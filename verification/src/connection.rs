//! The node-to-client connection wrapper: the state-query session whose
//! acquire/release discipline the pool relies on, and the decoding entry
//! point for rejection reasons.

use vstd::prelude::*;

use crate::reject::TxValidationError;
use crate::reject_codec::DecodeError;
use crate::reject_decoder::sp_decode_rejection;
use crate::reject_decoder::try_decode_error;
use crate::submit_api::TxCmdError;
use crate::submit_api::TxSubmitFail;
use crate::submit_api::TxValidationErrorInCardanoMode;

verus! {

/// The acquire/release state of one connection's state-query sub-client.
/// At most one acquire is ever outstanding, and the next acquire is only
/// possible after a release.
pub struct StateQuerySession {
    pub acquired: bool,
}

impl StateQuerySession {
    /// A fresh session: nothing acquired.
    pub fn new() -> (r: Self)
        ensures
            !r.acquired,
    {
        StateQuerySession { acquired: false }
    }

    /// Marks the sub-client acquired. Only possible when released.
    pub fn acquire(&mut self)
        requires
            !old(self).acquired,
        ensures
            final(self).acquired,
    {
        self.acquired = true;
    }

    /// Marks the sub-client released. Only possible when acquired.
    pub fn release(&mut self)
        requires
            old(self).acquired,
        ensures
            !final(self).acquired,
    {
        self.acquired = false;
    }

    /// Whether an acquire is outstanding.
    pub fn is_acquired(&self) -> (r: bool)
        ensures
            r == self.acquired,
    {
        self.acquired
    }
}

/// One step of a state-query session's history.
pub enum SqEvent {
    Acquire,
    Release,
}

/// Whether a history is possible starting from the given acquire state:
/// exactly the histories the `StateQuerySession` contracts admit.
pub open spec fn sq_valid_from(state: bool, t: Seq<SqEvent>) -> bool
    decreases t.len(),
{
    if t.len() == 0 {
        true
    } else {
        match t[0] {
            SqEvent::Acquire => !state && sq_valid_from(true, t.drop_first()),
            SqEvent::Release => state && sq_valid_from(false, t.drop_first()),
        }
    }
}

/// In a history that starts acquired, a release comes before the next
/// acquire.
proof fn lemma_release_first(u: Seq<SqEvent>, m: int)
    requires
        sq_valid_from(true, u),
        0 <= m < u.len(),
        u[m] is Acquire,
    ensures
        exists|k: int| 0 <= k < m && #[trigger] u[k] is Release,
    decreases m,
{
    if u[0] is Acquire {
        assert(false);
    } else {
        assert(u[0] is Release);
    }
}

/// Every acquire on a session is matched by a release before the next
/// acquire on the same session: between two acquires of a valid history
/// there is a release.
pub proof fn lemma_release_between_acquires(state: bool, t: Seq<SqEvent>, i: int, j: int)
    requires
        sq_valid_from(state, t),
        0 <= i < j < t.len(),
        t[i] is Acquire,
        t[j] is Acquire,
    ensures
        exists|k: int| i < k < j && #[trigger] t[k] is Release,
    decreases i,
{
    if i == 0 {
        let u = t.drop_first();
        assert(sq_valid_from(true, u));
        assert(u[j - 1] == t[j]);
        lemma_release_first(u, j - 1);
        let k = choose|k: int| 0 <= k < j - 1 && #[trigger] u[k] is Release;
        assert(t[k + 1] == u[k]);
        assert(t[k + 1] is Release);
    } else {
        let u = t.drop_first();
        let s2 = match t[0] {
            SqEvent::Acquire => true,
            SqEvent::Release => false,
        };
        assert(sq_valid_from(s2, u));
        assert(u[i - 1] == t[i]);
        assert(u[j - 1] == t[j]);
        lemma_release_between_acquires(s2, u, i - 1, j - 1);
        let k = choose|k: int| i - 1 < k < j - 1 && #[trigger] u[k] is Release;
        assert(t[k + 1] == u[k]);
        assert(t[k + 1] is Release);
    }
}

/// The verified face of one node-to-client connection. The live socket
/// and mini-protocol clients stay outside the library; this type carries
/// the session discipline and the decoding logic they rely on.
pub struct NodeClient {
    pub statequery: StateQuerySession,
}

impl NodeClient {
    /// A wrapper state for a freshly connected client.
    pub fn new() -> (r: Self)
        ensures
            !r.statequery.acquired,
    {
        NodeClient { statequery: StateQuerySession::new() }
    }

    /// Decodes a rejection-reason buffer with the native grammar; fails,
    /// so that the caller takes the fallback path, exactly when the
    /// buffer is outside the grammar.
    pub fn try_decode_error(buffer: &Vec<u8>) -> (r: Result<TxValidationError, DecodeError>)
        requires
            buffer@.len() < usize::MAX,
        ensures
            r matches Ok(t) ==> sp_decode_rejection(buffer@) == Some(t@),
            r is Err <==> sp_decode_rejection(buffer@) is None,
    {
        try_decode_error(buffer)
    }

    /// Wraps a decoded rejection reason in the envelope of the reference
    /// submission API.
    pub fn _unused_i_i_i_i_i_i_i_generate_error_response(error: TxValidationError) -> (r:
        TxSubmitFail)
        ensures
            r == TxSubmitFail::TxSubmitFail(
                TxCmdError::TxCmdTxSubmitValidationError(
                    TxValidationErrorInCardanoMode::TxValidationErrorInCardanoMode(error),
                ),
            ),
    {
        TxSubmitFail::TxSubmitFail(
            TxCmdError::TxCmdTxSubmitValidationError(
                TxValidationErrorInCardanoMode::TxValidationErrorInCardanoMode(error),
            ),
        )
    }
}

} // verus!
