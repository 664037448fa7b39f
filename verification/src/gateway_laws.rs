//! Properties of a gateway's memory and of sending a message, over all
//! states and events.
use crate::gateway::{CommunicationModeEnum, GatewayConfigView, mode_name, normalized_spec};
use crate::gateway_flow::{
    ActionView, FlowView, SendEvent, StageView, answers, received_spec, send_step_spec,
};
use crate::model::{ConnectDecisionModel, DecisionView};
use crate::gateway_state::{
    EventView, GatewayStateView, InboxEntryView, MAX_EVENTS, keep_last, remembered_spec, with_error, with_event,
};
use vstd::prelude::*;

verus! {

/// Whether the remembered events have strictly increasing identifiers, all
/// below the next one, and are no more than the gateway keeps.
pub open spec fn events_ordered(s: GatewayStateView) -> bool {
    &&& s.events.len() <= (MAX_EVENTS as nat)
    &&& forall|i: int, j: int| 0 <= i < j < s.events.len() ==> (#[trigger] s.events[i]).id < (#[trigger] s.events[j]).id
    &&& forall|i: int| 0 <= i < s.events.len() ==> (#[trigger] s.events[i]).id < s.next_event_id
}

proof fn lemma_keep_last_ordered(t: Seq<EventView>, next: u64)
    requires
        forall|i: int, j: int| 0 <= i < j < t.len() ==> (#[trigger] t[i]).id < (#[trigger] t[j]).id,
        forall|i: int| 0 <= i < t.len() ==> (#[trigger] t[i]).id < next,
    ensures
        keep_last(t, (MAX_EVENTS as nat)).len() <= (MAX_EVENTS as nat),
        forall|i: int, j: int|
            0 <= i < j < keep_last(t, (MAX_EVENTS as nat)).len() ==> (#[trigger] keep_last(t, (MAX_EVENTS as nat))[i]).id
                < (#[trigger] keep_last(t, (MAX_EVENTS as nat))[j]).id,
        forall|i: int| 0 <= i < keep_last(t, (MAX_EVENTS as nat)).len() ==> (#[trigger] keep_last(t, (MAX_EVENTS as nat))[i]).id < next,
{
    let k = keep_last(t, (MAX_EVENTS as nat));
    if t.len() > (MAX_EVENTS as nat) {
        let off = t.len() - (MAX_EVENTS as nat);
        assert forall|i: int, j: int| 0 <= i < j < k.len() implies (#[trigger] k[i]).id < (#[trigger] k[j]).id by {
            assert(k[i] == t[i + off]);
            assert(k[j] == t[j + off]);
        }
        assert forall|i: int| 0 <= i < k.len() implies (#[trigger] k[i]).id < next by {
            assert(k[i] == t[i + off]);
        }
    }
}

/// Recording an event keeps the remembered events in order of their
/// identifiers, below the next identifier, and no more than the gateway
/// keeps; the new event is the last one remembered.
pub proof fn law_recorded_events_stay_ordered(s: GatewayStateView, kind: Seq<char>, message: Seq<char>, now: u64)
    requires
        events_ordered(s),
        s.next_event_id < u64::MAX,
    ensures
        events_ordered(with_event(s, kind, message, now)),
        with_event(s, kind, message, now).events.last() == (EventView {
            id: s.next_event_id,
            kind,
            message,
            created_at_unix_ms: now,
        }),
{
    let e = EventView { id: s.next_event_id, kind, message, created_at_unix_ms: now };
    let t = s.events.push(e);
    assert forall|i: int, j: int| 0 <= i < j < t.len() implies (#[trigger] t[i]).id < (#[trigger] t[j]).id by {
        if j == t.len() - 1 {
            assert(t[i] == s.events[i]);
        } else {
            assert(t[i] == s.events[i]);
            assert(t[j] == s.events[j]);
        }
    }
    assert forall|i: int| 0 <= i < t.len() implies (#[trigger] t[i]).id < s.next_event_id + 1 by {
        if i < t.len() - 1 {
            assert(t[i] == s.events[i]);
        }
    }
    lemma_keep_last_ordered(t, (s.next_event_id + 1) as u64);
}

/// What the action asks for is what the stage waits for.
pub open spec fn waits_for(st: StageView, a: ActionView) -> bool {
    match a {
        ActionView::RequestDecision { .. } => st is Deciding || st is Retrying,
        ActionView::PostDirect { target_url, payload } => st == (StageView::Posting { target_url, payload }),
        ActionView::AttachRelay { relay_session_id } => st is Attaching && st->Attaching_relay_session_id == relay_session_id,
        ActionView::SendRelay { relay_session_id, payload } => st == (StageView::Relaying { relay_session_id, payload }),
        ActionView::Finish { .. } => st is Done,
    }
}

/// Each step of sending leaves the flow waiting for the outcome of exactly
/// what it asks to be done, and a flow that finishes waits for nothing.
pub proof fn law_step_waits_for_its_action(f: FlowView, s: GatewayStateView, e: crate::gateway_flow::SendEvent, now: u64)
    requires
        answers(f.stage, e),
    ensures
        waits_for(send_step_spec(f, s, e, now).stage, send_step_spec(f, s, e, now).action),
{
}

/// In forced direct mode a message is never handed to a relay: from the
/// first decision or a direct post, a step either posts directly or
/// finishes.
pub proof fn law_forced_direct_never_relays(f: FlowView, s: GatewayStateView, e: crate::gateway_flow::SendEvent, now: u64)
    requires
        f.mode == CommunicationModeEnum::Direct,
        f.stage is Deciding || f.stage is Posting,
        answers(f.stage, e),
    ensures
        send_step_spec(f, s, e, now).stage is Posting || send_step_spec(f, s, e, now).stage is Done,
        !(send_step_spec(f, s, e, now).action is AttachRelay),
        !(send_step_spec(f, s, e, now).action is SendRelay),
{
}

/// A message that is sent is accepted, in the gateway's communication mode,
/// through a direct TCP post or the relay.
pub proof fn law_sent_answers_name_mode(f: FlowView, s: GatewayStateView, e: crate::gateway_flow::SendEvent, now: u64)
    requires
        answers(f.stage, e),
    ensures
        send_step_spec(f, s, e, now).action matches ActionView::Finish { outcome: Ok(resp) } ==> {
            &&& resp.accepted
            &&& resp.communication_mode == mode_name(f.mode)
            &&& resp.delivery_mode == "direct_tcp"@ || resp.delivery_mode == "relay"@
        },
{
}

/// A received message joins the end of the inbox, which otherwise stays as
/// it was.
pub proof fn law_received_message_joins_inbox(s: GatewayStateView, entry: InboxEntryView, mode: Seq<char>, now: u64)
    ensures
        received_spec(s, entry, mode, now).inbox == s.inbox.push(entry),
        received_spec(s, entry, mode, now).inbox.last() == entry,
{
}

proof fn lemma_error_keeps_order(s: GatewayStateView, error: Seq<char>, now: u64)
    requires
        events_ordered(s),
        s.next_event_id < u64::MAX,
    ensures
        events_ordered(with_error(s, error, now)),
        with_error(s, error, now).next_event_id == s.next_event_id + 1,
{
    law_recorded_events_stay_ordered(GatewayStateView { last_error: Some(error), ..s }, "error"@, error, now);
}

/// Each step of sending a message keeps the remembered events in order of
/// their identifiers, below the next identifier, and no more than the
/// gateway keeps.
pub proof fn law_sending_keeps_events_ordered(f: FlowView, s: GatewayStateView, e: crate::gateway_flow::SendEvent, now: u64)
    requires
        answers(f.stage, e),
        events_ordered(s),
        s.next_event_id < u64::MAX - 1,
    ensures
        events_ordered(send_step_spec(f, s, e, now).state),
{
    let r = send_step_spec(f, s, e, now);
    match e {
        crate::gateway_flow::SendEvent::Decided { outcome: Ok(d) } => {
            let msg = crate::gateway_flow::decision_message(d@);
            law_recorded_events_stay_ordered(s, "connect_succeeded"@, msg, now);
            let s1 = with_event(s, "connect_succeeded"@, msg, now);
            match d@ {
                crate::model::DecisionView::Relay { decision_reason, .. } => {
                    lemma_error_keeps_order(
                        s1,
                        "forced direct mode could not find a credible direct path: "@ + decision_reason,
                        now,
                    );
                },
                _ => {},
            }
            match f.stage {
                StageView::Retrying { error, .. } => {
                    lemma_error_keeps_order(s1, error, now);
                },
                _ => {},
            }
        },
        crate::gateway_flow::SendEvent::Decided { outcome: Err(err) } => {
            lemma_error_keeps_order(s, err@, now);
        },
        crate::gateway_flow::SendEvent::Posted { outcome } => {
            match f.stage {
                StageView::Posting { target_url, .. } => {
                    match outcome {
                        Ok(_) => {
                            let s1 = remembered_spec(
                                s,
                                "direct"@,
                                "Sent direct_tcp message to "@ + f.target_peer_id + " via "@ + target_url + "."@,
                            );
                            law_recorded_events_stay_ordered(s1, "message_sent"@, "Sent message to "@ + f.target_peer_id + "."@, now);
                        },
                        Err(err) => {
                            lemma_error_keeps_order(s, err@, now);
                            let m = "Direct TCP delivery to "@ + f.target_peer_id + " failed, retrying via relay: "@ + err@;
                            law_recorded_events_stay_ordered(s, "direct_delivery_failed"@, m, now);
                            law_recorded_events_stay_ordered(
                                with_event(s, "direct_delivery_failed"@, m, now),
                                "connect_started"@,
                                crate::gateway_flow::connect_started_message(CommunicationModeEnum::RelayOnly, f.target_peer_id),
                                now,
                            );
                        },
                    }
                },
                _ => {},
            }
        },
        crate::gateway_flow::SendEvent::Attached { .. } => {},
        crate::gateway_flow::SendEvent::Relayed { outcome } => {
            match f.stage {
                StageView::Relaying { relay_session_id, payload } => {
                    let m = crate::gateway_flow::relay_sent_message(payload.to_peer_id, relay_session_id);
                    law_recorded_events_stay_ordered(remembered_spec(s, "relay"@, m), "message_sent"@, m, now);
                },
                _ => {},
            }
        },
    }
}

/// A gateway prefers direct delivery exactly when it advertises a direct
/// endpoint.
pub proof fn law_prefers_direct_iff_advertises(m: CommunicationModeEnum)
    ensures
        m.prefer_direct() <==> m.supports_direct_advertisement(),
{
}

/// Normalizing a configuration twice gives what normalizing it once gives.
pub proof fn law_normalized_is_idempotent(c: GatewayConfigView)
    ensures
        normalized_spec(normalized_spec(c)) == normalized_spec(c),
{
    crate::cli_laws::law_trim_end_idempotent(c.server_base_url, '/');
}

/// The hub's relay decision is followed by attaching to the session it
/// opened, carrying the message, in every mode but forced direct delivery,
/// which instead ends the send with an error and relays nothing. After a
/// failed direct post the relay decision is followed the same way.
pub proof fn law_relay_decision_leads_to_attach(f: FlowView, s: GatewayStateView, d: ConnectDecisionModel, now: u64)
    requires
        f.stage is Deciding || f.stage is Retrying,
        d@ is Relay,
    ensures
        ({
            let r = send_step_spec(f, s, SendEvent::Decided { outcome: Ok(d) }, now);
            let id = d@->Relay_relay_session_id;
            if f.stage is Deciding && f.mode == CommunicationModeEnum::Direct {
                &&& r.stage is Done
                &&& r.action matches ActionView::Finish { outcome: Err(_) }
            } else {
                &&& r.action == (ActionView::AttachRelay { relay_session_id: id })
                &&& r.stage matches StageView::Attaching { relay_session_id, payload } && relay_session_id == id && (
                f.stage is Deciding ==> payload.from_peer_id == f.peer_id && payload.to_peer_id == f.target_peer_id
                    && payload.message == f.message && payload.sent_at_unix_ms == now) && (f.stage matches StageView::Retrying {
                payload: p, .. } ==> payload == p)
            }
        }),
{
}

} // verus!
