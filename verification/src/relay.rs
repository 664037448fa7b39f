//! Relay sessions: two peers, whether each has attached, and the messages
//! queued for each.
use crate::model::{envelopes_view, RelayEnvelopeView, RelayMessageEnvelopeModel};
use std::collections::VecDeque;
use vstd::prelude::*;

verus! {

/// A relay session, its expiry in milliseconds of the hub's monotonic clock.
#[derive(Debug, Clone)]
pub struct RelaySessionModel {
    pub source_peer_id: String,
    pub target_peer_id: String,
    pub expires_at: u64,
    pub source_attached: bool,
    pub target_attached: bool,
    pub pending_for_source: VecDeque<RelayMessageEnvelopeModel>,
    pub pending_for_target: VecDeque<RelayMessageEnvelopeModel>,
}

/// The view of a [`RelaySessionModel`].
pub struct SessionView {
    pub source_peer_id: Seq<char>,
    pub target_peer_id: Seq<char>,
    pub expires_at: u64,
    pub source_attached: bool,
    pub target_attached: bool,
    pub pending_for_source: Seq<RelayEnvelopeView>,
    pub pending_for_target: Seq<RelayEnvelopeView>,
}

impl View for RelaySessionModel {
    type V = SessionView;

    open spec fn view(&self) -> SessionView {
        SessionView {
            source_peer_id: self.source_peer_id@,
            target_peer_id: self.target_peer_id@,
            expires_at: self.expires_at,
            source_attached: self.source_attached,
            target_attached: self.target_attached,
            pending_for_source: envelopes_view(self.pending_for_source@),
            pending_for_target: envelopes_view(self.pending_for_target@),
        }
    }
}

/// Whether a session has served its purpose: both peers attached and
/// nothing left to deliver.
pub open spec fn session_finished(s: SessionView) -> bool {
    s.source_attached && s.target_attached && s.pending_for_source.len() == 0
        && s.pending_for_target.len() == 0
}

/// Whether a session has served its purpose.
pub fn relay_session_is_finished(session: &RelaySessionModel) -> (r: bool)
    ensures
        r == session_finished(session@),
{
    session.source_attached && session.target_attached && session.pending_for_source.len() == 0
        && session.pending_for_target.len() == 0
}

/// Moves every message of `queue`, in order, to the end of `output`, and
/// returns how many moved.
pub fn drain_messages(
    output: &mut Vec<RelayMessageEnvelopeModel>,
    queue: &mut VecDeque<RelayMessageEnvelopeModel>,
) -> (drained: usize)
    ensures
        envelopes_view(final(output)@) == envelopes_view(old(output)@) + envelopes_view(old(queue)@),
        final(queue)@.len() == 0,
        drained == old(queue)@.len(),
{
    let ghost out0 = output@;
    let ghost q0 = queue@;
    let queued = queue.len();
    let mut drained: usize = 0;
    loop
        invariant
            drained <= q0.len(),
            queue@ == q0.subrange(drained as int, q0.len() as int),
            output@ == out0 + q0.take(drained as int),
            queued == q0.len(),
        ensures
            drained == q0.len(),
            queue@.len() == 0,
            output@ == out0 + q0.take(drained as int),
        decreases q0.len() - drained,
    {
        match queue.pop_front() {
            Some(message) => {
                assert(q0.take(drained + 1) == q0.take(drained as int).push(message));
                output.push(message);
                drained = drained + 1;
            },
            None => {
                break;
            },
        }
    }
    assert(q0.take(drained as int) == q0);
    assert(envelopes_view(out0 + q0) == envelopes_view(out0) + envelopes_view(q0));
    drained
}

} // verus!
