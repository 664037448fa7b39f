//! The hub's state: registered peers with their leases and relay sessions,
//! and every request the hub answers on it.
use crate::clock::{cap_u64, duration_millis, duration_ms, instant_now, millis_since, sat_add, TimeUtil};
use crate::ids::{new_relay_session_id, uuid_string, uuid_text};
use crate::model::{
    AttachView, ChatMessageView, ConnectDecisionModel,
    ConnectRequestModel, DecisionView, DirectConnectionInfoModel, PeerRecordModel,
    PeerRecordView, RegisterPeerRequestModel, RelayAttachResponseModel, RelayConnectionInfoModel,
    RelayEnvelopeView, RelayMessageEnvelopeModel, RelaySendRequestModel, RelaySendResponseModel,
    SendView, duplicate_opt_string, envelopes_view, opt_str_view,
};
use crate::peers::{
    ObservedAddress, PeerPresenceModel, PresenceView, apply_observed_reachability,
    apply_observed_spec, observed_view, record_of, relay_decision_reason, relay_reason_spec,
    select_direct_candidates, select_direct_spec,
};
use crate::relay::{RelaySessionModel, SessionView, drain_messages, relay_session_is_finished, session_finished};
use crate::text::{push_str, str_eq, string_of};
use std::collections::VecDeque;
use std::time::{Duration, Instant};
use vstd::prelude::*;

verus! {

// ---------------------------------------------------------------------------
// Errors
// ---------------------------------------------------------------------------

/// An error answer of the hub: an HTTP status code and a message.
#[derive(Debug, Clone)]
pub struct ApiErrorModel {
    pub status: u16,
    pub message: String,
}

/// The view of an [`ApiErrorModel`].
pub struct ErrorView {
    pub status: u16,
    pub message: Seq<char>,
}

impl View for ApiErrorModel {
    type V = ErrorView;

    open spec fn view(&self) -> ErrorView {
        ErrorView { status: self.status, message: self.message@ }
    }
}

/// The status code of a malformed request.
pub const BAD_REQUEST: u16 = 400;

/// The status code of a request for something the hub does not hold.
pub const NOT_FOUND: u16 = 404;

impl ApiErrorModel {
    /// A "bad request" error with `message`.
    pub fn bad_request(message: String) -> (r: Self)
        ensures
            r@ == (ErrorView { status: BAD_REQUEST, message: message@ }),
    {
        ApiErrorModel { status: BAD_REQUEST, message }
    }

    /// A "not found" error with `message`.
    pub fn not_found(message: String) -> (r: Self)
        ensures
            r@ == (ErrorView { status: NOT_FOUND, message: message@ }),
    {
        ApiErrorModel { status: NOT_FOUND, message }
    }
}

/// The view of an error result.
pub open spec fn result_view<T: View>(r: Result<T, ApiErrorModel>) -> Result<T::V, ErrorView> {
    match r {
        Ok(v) => Ok(v@),
        Err(e) => Err(e@),
    }
}

/// The message when the source of a connect request is not registered.
pub open spec fn source_offline_message(id: Seq<char>) -> Seq<char> {
    "source peer '"@ + id + "' is offline"@
}

/// The message when the target of a connect request is not registered.
pub open spec fn target_offline_message(id: Seq<char>) -> Seq<char> {
    "target peer '"@ + id + "' is offline"@
}

/// The message when a peer asks for a connection to itself.
pub open spec fn same_peer_message() -> Seq<char> {
    "source and target peer must differ"@
}

/// The message when a relay session does not exist (or has expired).
pub open spec fn session_missing_message(id: u128) -> Seq<char> {
    "relay session '"@ + uuid_text(id) + "' not found"@
}

/// The message when a peer is neither side of a relay session.
pub open spec fn not_in_session_message(peer: Seq<char>, id: u128) -> Seq<char> {
    "peer '"@ + peer + "' is not part of relay session '"@ + uuid_text(id) + "'"@
}

/// The message when a relayed payload names other peers than its session.
pub open spec fn payload_mismatch_message() -> Seq<char> {
    "relay payload does not match source/target session peers"@
}

fn source_offline(id: &str) -> (r: String)
    ensures
        r@ == source_offline_message(id@),
{
    let mut v: Vec<char> = Vec::new();
    push_str(&mut v, "source peer '");
    push_str(&mut v, id);
    push_str(&mut v, "' is offline");
    string_of(v.as_slice())
}

fn target_offline(id: &str) -> (r: String)
    ensures
        r@ == target_offline_message(id@),
{
    let mut v: Vec<char> = Vec::new();
    push_str(&mut v, "target peer '");
    push_str(&mut v, id);
    push_str(&mut v, "' is offline");
    string_of(v.as_slice())
}

fn session_missing(id: u128) -> (r: String)
    ensures
        r@ == session_missing_message(id),
{
    let mut v: Vec<char> = Vec::new();
    push_str(&mut v, "relay session '");
    let text = uuid_string(id);
    push_str(&mut v, text.as_str());
    push_str(&mut v, "' not found");
    string_of(v.as_slice())
}

fn not_in_session(peer: &str, id: u128) -> (r: String)
    ensures
        r@ == not_in_session_message(peer@, id),
{
    let mut v: Vec<char> = Vec::new();
    push_str(&mut v, "peer '");
    push_str(&mut v, peer);
    push_str(&mut v, "' is not part of relay session '");
    let text = uuid_string(id);
    push_str(&mut v, text.as_str());
    push_str(&mut v, "'");
    string_of(v.as_slice())
}

// ---------------------------------------------------------------------------
// The state and its view
// ---------------------------------------------------------------------------

/// The hub's state. Times are milliseconds of the hub's monotonic clock,
/// which starts at the state's creation.
pub struct ServerStateModel {
    pub peers: Vec<PeerPresenceModel>,
    pub relay_sessions: Vec<(u128, RelaySessionModel)>,
    pub presence_lease_ms: u64,
    pub relay_session_timeout_ms: u64,
    pub clock_origin: Instant,
}

/// The view of the hub's state.
pub struct HubView {
    pub peers: Seq<PresenceView>,
    pub sessions: Seq<(u128, SessionView)>,
    pub lease: u64,
    pub timeout: u64,
}

/// The views of a sequence of peers.
pub open spec fn presences_view(s: Seq<PeerPresenceModel>) -> Seq<PresenceView> {
    s.map_values(|p: PeerPresenceModel| p@)
}

/// The views of a sequence of relay sessions with their identifiers.
pub open spec fn sessions_view(s: Seq<(u128, RelaySessionModel)>) -> Seq<(u128, SessionView)> {
    s.map_values(|e: (u128, RelaySessionModel)| (e.0, e.1@))
}

impl View for ServerStateModel {
    type V = HubView;

    open spec fn view(&self) -> HubView {
        HubView {
            peers: presences_view(self.peers@),
            sessions: sessions_view(self.relay_sessions@),
            lease: self.presence_lease_ms,
            timeout: self.relay_session_timeout_ms,
        }
    }
}

/// No two peers share an identifier.
pub open spec fn peer_ids_unique(peers: Seq<PresenceView>) -> bool {
    forall|i: int, j: int|
        0 <= i < peers.len() && 0 <= j < peers.len() && i != j ==> (#[trigger] peers[i]).peer_id
            != (#[trigger] peers[j]).peer_id
}

/// No two relay sessions share an identifier.
pub open spec fn session_ids_unique(sessions: Seq<(u128, SessionView)>) -> bool {
    forall|i: int, j: int|
        0 <= i < sessions.len() && 0 <= j < sessions.len() && i != j ==> (#[trigger] sessions[i]).0
            != (#[trigger] sessions[j]).0
}

/// Every relay session joins two different peers.
pub open spec fn session_sides_differ(sessions: Seq<(u128, SessionView)>) -> bool {
    forall|j: int| 0 <= j < sessions.len() ==> (#[trigger] sessions[j]).1.source_peer_id != sessions[j].1.target_peer_id
}

/// The hub's state holds at most one peer per identifier and one session per
/// identifier, and every session joins two different peers.
pub open spec fn hub_wf(v: HubView) -> bool {
    peer_ids_unique(v.peers) && session_ids_unique(v.sessions) && session_sides_differ(v.sessions)
}

/// Whether a peer with identifier `id` is registered.
pub open spec fn has_peer(peers: Seq<PresenceView>, id: Seq<char>) -> bool {
    exists|i: int| 0 <= i < peers.len() && (#[trigger] peers[i]).peer_id == id
}

/// The position of the peer with identifier `id`.
pub open spec fn peer_index(peers: Seq<PresenceView>, id: Seq<char>) -> int {
    choose|i: int| 0 <= i < peers.len() && (#[trigger] peers[i]).peer_id == id
}

/// The peer with identifier `id`.
pub open spec fn peer_of(peers: Seq<PresenceView>, id: Seq<char>) -> PresenceView {
    peers[peer_index(peers, id)]
}

/// `peers` with `p` in place of the peer with its identifier, or added at the
/// end when there is none.
pub open spec fn upsert_peer(peers: Seq<PresenceView>, p: PresenceView) -> Seq<PresenceView> {
    if has_peer(peers, p.peer_id) {
        peers.update(peer_index(peers, p.peer_id), p)
    } else {
        peers.push(p)
    }
}

/// Whether a session with identifier `id` exists.
pub open spec fn has_session(sessions: Seq<(u128, SessionView)>, id: u128) -> bool {
    exists|i: int| 0 <= i < sessions.len() && (#[trigger] sessions[i]).0 == id
}

/// The position of the session with identifier `id`.
pub open spec fn session_index(sessions: Seq<(u128, SessionView)>, id: u128) -> int {
    choose|i: int| 0 <= i < sessions.len() && (#[trigger] sessions[i]).0 == id
}

/// The session with identifier `id`.
pub open spec fn session_of(sessions: Seq<(u128, SessionView)>, id: u128) -> SessionView {
    sessions[session_index(sessions, id)].1
}

/// `sessions` with `s` under identifier `id`, replacing the session with
/// that identifier or added at the end.
pub open spec fn upsert_session(sessions: Seq<(u128, SessionView)>, id: u128, s: SessionView) -> Seq<(u128, SessionView)> {
    if has_session(sessions, id) {
        sessions.update(session_index(sessions, id), (id, s))
    } else {
        sessions.push((id, s))
    }
}

/// The peers whose lease runs past `now`, in order.
pub open spec fn live_peers(peers: Seq<PresenceView>, now: u64) -> Seq<PresenceView>
    decreases peers.len(),
{
    if peers.len() == 0 {
        peers
    } else if peers.last().expires_at > now {
        live_peers(peers.drop_last(), now).push(peers.last())
    } else {
        live_peers(peers.drop_last(), now)
    }
}

/// The sessions that expire after `now`, in order.
pub open spec fn live_sessions(sessions: Seq<(u128, SessionView)>, now: u64) -> Seq<(u128, SessionView)>
    decreases sessions.len(),
{
    if sessions.len() == 0 {
        sessions
    } else if sessions.last().1.expires_at > now {
        live_sessions(sessions.drop_last(), now).push(sessions.last())
    } else {
        live_sessions(sessions.drop_last(), now)
    }
}

/// The state without the peers and sessions that have expired at `now`.
pub open spec fn prune_spec(v: HubView, now: u64) -> HubView {
    HubView { peers: live_peers(v.peers, now), sessions: live_sessions(v.sessions, now), ..v }
}

/// The peer that a registration at `now` records.
pub open spec fn registered_presence(
    v: HubView,
    request: RegisterView,
    observed: Option<(Seq<char>, crate::peers::IpAddressFacts)>,
    now: u64,
) -> PresenceView {
    PresenceView {
        peer_id: request.peer_id,
        device_key: request.device_key,
        display_name: request.display_name,
        reachability: apply_observed_spec(request.reachability, observed),
        registered_at: now,
        expires_at: sat_add(now as int, v.lease as int),
    }
}

/// The view of a registration request.
pub struct RegisterView {
    pub peer_id: Seq<char>,
    pub device_key: Seq<char>,
    pub display_name: Option<Seq<char>>,
    pub reachability: crate::model::ReachabilityView,
}

/// The view of a [`RegisterPeerRequestModel`].
pub open spec fn register_view(r: RegisterPeerRequestModel) -> RegisterView {
    RegisterView {
        peer_id: r.peer_id@,
        device_key: r.device_key@,
        display_name: opt_str_view(r.display_name),
        reachability: r.reachability@,
    }
}

/// The peer refreshed by a heartbeat at `now`: its lease starts again.
pub open spec fn refreshed(p: PresenceView, now: u64, lease: u64) -> PresenceView {
    PresenceView { expires_at: sat_add(now as int, lease as int), ..p }
}

/// The state after a heartbeat of `id` at `now`, and the refreshed peer.
pub open spec fn heartbeat_spec(v: HubView, id: Seq<char>, now: u64) -> (HubView, Option<PresenceView>) {
    if has_peer(v.peers, id) {
        let p = refreshed(peer_of(v.peers, id), now, v.lease);
        (HubView { peers: upsert_peer(v.peers, p), ..v }, Some(p))
    } else {
        (v, None)
    }
}

/// The record of an optional peer.
pub open spec fn opt_record(p: Option<PresenceView>, now: u64, unix_now: u64) -> Option<PeerRecordView> {
    match p {
        Some(p) => Some(record_of(p, now, unix_now)),
        None => None,
    }
}

/// The view of an optional record.
pub open spec fn opt_record_view(r: Option<PeerRecordModel>) -> Option<PeerRecordView> {
    match r {
        Some(r) => Some(r@),
        None => None,
    }
}

/// The live peer with identifier `id` at `now`, if any.
pub open spec fn lookup_spec(v: HubView, id: Seq<char>, now: u64) -> Option<PresenceView> {
    let p = prune_spec(v, now);
    if has_peer(p.peers, id) {
        Some(peer_of(p.peers, id))
    } else {
        None
    }
}

/// The session a relay decision at `now` opens between `source` and `target`.
pub open spec fn new_session(source: Seq<char>, target: Seq<char>, now: u64, timeout: u64) -> SessionView {
    SessionView {
        source_peer_id: source,
        target_peer_id: target,
        expires_at: sat_add(now as int, timeout as int),
        source_attached: false,
        target_attached: false,
        pending_for_source: Seq::empty(),
        pending_for_target: Seq::empty(),
    }
}

/// The hub's answer to a connect request from `source` to `target` at `now`
/// (monotonic) and `unix_now` (wall clock), `id` being the identifier for a
/// new relay session, and the state afterwards. Expired peers and sessions
/// are pruned first; both peers must be registered and differ. The answer is
/// direct when direct delivery is preferred and the hub finds a direct path;
/// otherwise a new relay session is opened.
pub open spec fn connect_spec(
    v: HubView,
    source: Seq<char>,
    target: Seq<char>,
    prefer_direct: bool,
    now: u64,
    unix_now: u64,
    id: u128,
) -> (HubView, Result<DecisionView, ErrorView>) {
    let p = prune_spec(v, now);
    if !has_peer(p.peers, source) {
        (p, Err(ErrorView { status: NOT_FOUND, message: source_offline_message(source) }))
    } else if !has_peer(p.peers, target) {
        (p, Err(ErrorView { status: NOT_FOUND, message: target_offline_message(target) }))
    } else if source == target {
        (p, Err(ErrorView { status: BAD_REQUEST, message: same_peer_message() }))
    } else {
        let s = peer_of(p.peers, source);
        let t = peer_of(p.peers, target);
        if prefer_direct && select_direct_spec(s.reachability, t.reachability) is Some {
            let (candidates, reason) = select_direct_spec(s.reachability, t.reachability)->0;
            (p, Ok(DecisionView::Direct {
                peer_id: t.peer_id,
                device_key: t.device_key,
                display_name: t.display_name,
                reachability_candidates: candidates,
                message_endpoint: t.reachability.message_endpoint,
                decision_reason: reason,
            }))
        } else {
            (
                HubView {
                    sessions: upsert_session(p.sessions, id, new_session(source, target, now, p.timeout)),
                    ..p
                },
                Ok(DecisionView::Relay {
                    relay_session_id: id,
                    source_peer_id: source,
                    target_peer_id: target,
                    expires_at_unix_ms: sat_add(unix_now as int, p.timeout as int),
                    decision_reason: relay_reason_spec(s.reachability, t.reachability, prefer_direct),
                }),
            )
        }
    }
}

/// The hub's answer when `peer` attaches to relay session `id` at `now`, and
/// the state afterwards: the peer must be one side of the live session; its
/// side is marked attached and the session's timeout starts again.
pub open spec fn attach_spec(v: HubView, id: u128, peer: Seq<char>, now: u64, unix_now: u64) -> (HubView, Result<AttachView, ErrorView>) {
    let p = prune_spec(v, now);
    if !has_session(p.sessions, id) {
        (p, Err(ErrorView { status: NOT_FOUND, message: session_missing_message(id) }))
    } else {
        let s = session_of(p.sessions, id);
        let expires = sat_add(now as int, p.timeout as int);
        let answer = |counterpart: Seq<char>| AttachView {
            accepted: true,
            relay_session_id: id,
            peer_id: peer,
            counterpart_peer_id: counterpart,
            expires_at_unix_ms: sat_add(unix_now as int, p.timeout as int),
        };
        if peer == s.source_peer_id {
            (
                HubView {
                    sessions: upsert_session(p.sessions, id, SessionView { source_attached: true, expires_at: expires, ..s }),
                    ..p
                },
                Ok(answer(s.target_peer_id)),
            )
        } else if peer == s.target_peer_id {
            (
                HubView {
                    sessions: upsert_session(p.sessions, id, SessionView { target_attached: true, expires_at: expires, ..s }),
                    ..p
                },
                Ok(answer(s.source_peer_id)),
            )
        } else {
            (p, Err(ErrorView { status: BAD_REQUEST, message: not_in_session_message(peer, id) }))
        }
    }
}

/// The relayed form of `payload` in session `id`, queued at `unix_now`.
pub open spec fn relayed(id: u128, payload: ChatMessageView, unix_now: u64) -> RelayEnvelopeView {
    RelayEnvelopeView {
        relay_session_id: id,
        source_peer_id: payload.from_peer_id,
        target_peer_id: payload.to_peer_id,
        queued_at_unix_ms: unix_now,
        payload,
    }
}

/// The hub's answer when `peer` sends `payload` through relay session `id`
/// at `now`, and the state afterwards: the peer must be one side of the
/// live session and the payload must go from that side to the other; the
/// message is queued for the other side and the session's timeout starts
/// again.
pub open spec fn relay_send_spec(
    v: HubView,
    id: u128,
    peer: Seq<char>,
    payload: ChatMessageView,
    now: u64,
    unix_now: u64,
) -> (HubView, Result<SendView, ErrorView>) {
    let p = prune_spec(v, now);
    if !has_session(p.sessions, id) {
        (p, Err(ErrorView { status: NOT_FOUND, message: session_missing_message(id) }))
    } else {
        let s = session_of(p.sessions, id);
        let expires = sat_add(now as int, p.timeout as int);
        let m = relayed(id, payload, unix_now);
        if peer == s.source_peer_id {
            if payload.from_peer_id != s.source_peer_id || payload.to_peer_id != s.target_peer_id {
                (p, Err(ErrorView { status: BAD_REQUEST, message: payload_mismatch_message() }))
            } else {
                let s2 = SessionView { pending_for_target: s.pending_for_target.push(m), expires_at: expires, ..s };
                (
                    HubView { sessions: upsert_session(p.sessions, id, s2), ..p },
                    Ok(SendView {
                        accepted: true,
                        relay_session_id: id,
                        recipient_peer_id: s.target_peer_id,
                        queued_messages: s2.pending_for_target.len() as usize,
                    }),
                )
            }
        } else if peer == s.target_peer_id {
            if payload.from_peer_id != s.target_peer_id || payload.to_peer_id != s.source_peer_id {
                (p, Err(ErrorView { status: BAD_REQUEST, message: payload_mismatch_message() }))
            } else {
                let s2 = SessionView { pending_for_source: s.pending_for_source.push(m), expires_at: expires, ..s };
                (
                    HubView { sessions: upsert_session(p.sessions, id, s2), ..p },
                    Ok(SendView {
                        accepted: true,
                        relay_session_id: id,
                        recipient_peer_id: s.source_peer_id,
                        queued_messages: s2.pending_for_source.len() as usize,
                    }),
                )
            }
        } else {
            (p, Err(ErrorView { status: BAD_REQUEST, message: not_in_session_message(peer, id) }))
        }
    }
}

/// One session as a poll by `peer` at `now` leaves it, and the messages the
/// poll takes from it: all those queued for `peer`. When there were any, the
/// peer's side counts as attached and the session's timeout starts again.
pub open spec fn poll_session(s: SessionView, peer: Seq<char>, now: u64, timeout: u64) -> (SessionView, Seq<RelayEnvelopeView>) {
    if peer == s.source_peer_id {
        if s.pending_for_source.len() > 0 {
            (
                SessionView {
                    pending_for_source: Seq::empty(),
                    source_attached: true,
                    expires_at: sat_add(now as int, timeout as int),
                    ..s
                },
                s.pending_for_source,
            )
        } else {
            (s, Seq::empty())
        }
    } else if peer == s.target_peer_id {
        if s.pending_for_target.len() > 0 {
            (
                SessionView {
                    pending_for_target: Seq::empty(),
                    target_attached: true,
                    expires_at: sat_add(now as int, timeout as int),
                    ..s
                },
                s.pending_for_target,
            )
        } else {
            (s, Seq::empty())
        }
    } else {
        (s, Seq::empty())
    }
}

/// All sessions as a poll by `peer` leaves them, and the messages taken,
/// session after session in order.
pub open spec fn poll_all(sessions: Seq<(u128, SessionView)>, peer: Seq<char>, now: u64, timeout: u64) -> (Seq<(u128, SessionView)>, Seq<RelayEnvelopeView>)
    decreases sessions.len(),
{
    if sessions.len() == 0 {
        (sessions, Seq::empty())
    } else {
        let (rest, taken) = poll_all(sessions.drop_last(), peer, now, timeout);
        let (last, last_taken) = poll_session(sessions.last().1, peer, now, timeout);
        (rest.push((sessions.last().0, last)), taken + last_taken)
    }
}

/// The sessions that have not served their purpose, in order.
pub open spec fn unfinished(sessions: Seq<(u128, SessionView)>) -> Seq<(u128, SessionView)>
    decreases sessions.len(),
{
    if sessions.len() == 0 {
        sessions
    } else if session_finished(sessions.last().1) {
        unfinished(sessions.drop_last())
    } else {
        unfinished(sessions.drop_last()).push(sessions.last())
    }
}

/// The state after `peer` polls at `now`, and the messages it receives:
/// expired entries are pruned, every message queued for the peer is taken,
/// and sessions that have served their purpose are closed.
pub open spec fn poll_spec(v: HubView, peer: Seq<char>, now: u64) -> (HubView, Seq<RelayEnvelopeView>) {
    let p = prune_spec(v, now);
    let (sessions, taken) = poll_all(p.sessions, peer, now, p.timeout);
    (HubView { sessions: unfinished(sessions), ..p }, taken)
}

// ---------------------------------------------------------------------------
// Lemmas on unique identifiers
// ---------------------------------------------------------------------------

proof fn lemma_peer_index(peers: Seq<PresenceView>, i: int)
    requires
        peer_ids_unique(peers),
        0 <= i < peers.len(),
    ensures
        has_peer(peers, peers[i].peer_id),
        peer_index(peers, peers[i].peer_id) == i,
{
    let j = peer_index(peers, peers[i].peer_id);
    assert(0 <= j < peers.len() && peers[j].peer_id == peers[i].peer_id);
}

proof fn lemma_upsert_peer_unique(peers: Seq<PresenceView>, p: PresenceView)
    requires
        peer_ids_unique(peers),
    ensures
        peer_ids_unique(upsert_peer(peers, p)),
{
    if has_peer(peers, p.peer_id) {
        let k = peer_index(peers, p.peer_id);
        let q = upsert_peer(peers, p);
        assert forall|i: int, j: int|
            0 <= i < q.len() && 0 <= j < q.len() && i != j implies (#[trigger] q[i]).peer_id
            != (#[trigger] q[j]).peer_id by {
            if i == k {
                assert(peers[j].peer_id != peers[k].peer_id);
            } else if j == k {
                assert(peers[i].peer_id != peers[k].peer_id);
            }
        }
    } else {
        let q = upsert_peer(peers, p);
        assert forall|i: int, j: int|
            0 <= i < q.len() && 0 <= j < q.len() && i != j implies (#[trigger] q[i]).peer_id
            != (#[trigger] q[j]).peer_id by {
            if i == peers.len() {
                assert(peers[j].peer_id != p.peer_id);
            } else if j == peers.len() {
                assert(peers[i].peer_id != p.peer_id);
            }
        }
    }
}

proof fn lemma_session_index(sessions: Seq<(u128, SessionView)>, i: int)
    requires
        session_ids_unique(sessions),
        0 <= i < sessions.len(),
    ensures
        has_session(sessions, sessions[i].0),
        session_index(sessions, sessions[i].0) == i,
{
    let j = session_index(sessions, sessions[i].0);
    assert(0 <= j < sessions.len() && sessions[j].0 == sessions[i].0);
}

proof fn lemma_upsert_session_unique(sessions: Seq<(u128, SessionView)>, id: u128, s: SessionView)
    requires
        session_ids_unique(sessions),
    ensures
        session_ids_unique(upsert_session(sessions, id, s)),
{
    let q = upsert_session(sessions, id, s);
    if has_session(sessions, id) {
        let k = session_index(sessions, id);
        assert forall|i: int, j: int|
            0 <= i < q.len() && 0 <= j < q.len() && i != j implies (#[trigger] q[i]).0 != (
            #[trigger] q[j]).0 by {
            if i == k {
                assert(sessions[j].0 != sessions[k].0);
            } else if j == k {
                assert(sessions[i].0 != sessions[k].0);
            }
        }
    } else {
        assert forall|i: int, j: int|
            0 <= i < q.len() && 0 <= j < q.len() && i != j implies (#[trigger] q[i]).0 != (
            #[trigger] q[j]).0 by {
            if i == sessions.len() {
                assert(sessions[j].0 != id);
            } else if j == sessions.len() {
                assert(sessions[i].0 != id);
            }
        }
    }
}

// ---------------------------------------------------------------------------
// Searching
// ---------------------------------------------------------------------------

fn find_peer(peers: &Vec<PeerPresenceModel>, id: &str) -> (r: Option<usize>)
    ensures
        match r {
            Some(i) => i < peers@.len() && peers@[i as int]@.peer_id == id@,
            None => !has_peer(presences_view(peers@), id@),
        },
{
    let n = peers.len();
    for i in 0..n
        invariant
            n == peers@.len(),
            forall|j: int| 0 <= j < i ==> (#[trigger] peers@[j])@.peer_id != id@,
    {
        if str_eq(peers[i].peer_id.as_str(), id) {
            return Some(i);
        }
    }
    assert forall|j: int| 0 <= j < presences_view(peers@).len() implies (#[trigger] presences_view(
        peers@,
    )[j]).peer_id != id@ by {
        assert(presences_view(peers@)[j] == peers@[j]@);
    }
    None
}

fn find_session(sessions: &Vec<(u128, RelaySessionModel)>, id: u128) -> (r: Option<usize>)
    ensures
        match r {
            Some(i) => i < sessions@.len() && sessions@[i as int].0 == id,
            None => !has_session(sessions_view(sessions@), id),
        },
{
    let n = sessions.len();
    for i in 0..n
        invariant
            n == sessions@.len(),
            forall|j: int| 0 <= j < i ==> (#[trigger] sessions@[j]).0 != id,
    {
        if sessions[i].0 == id {
            return Some(i);
        }
    }
    assert forall|j: int| 0 <= j < sessions_view(sessions@).len() implies (#[trigger] sessions_view(
        sessions@,
    )[j]).0 != id by {
        assert(sessions_view(sessions@)[j].0 == sessions@[j].0);
    }
    None
}

// ---------------------------------------------------------------------------
// Operations
// ---------------------------------------------------------------------------

impl ServerStateModel {
    /// The state's well-formedness: unique peer and session identifiers.
    pub open spec fn wf(&self) -> bool {
        hub_wf(self@)
    }

    /// An empty hub whose leases last `presence_lease` and whose relay
    /// sessions time out after `relay_session_timeout`.
    pub fn new(presence_lease: Duration, relay_session_timeout: Duration) -> (r: Self)
        ensures
            r.wf(),
            r@ == (HubView {
                peers: Seq::empty(),
                sessions: Seq::empty(),
                lease: cap_u64(duration_ms(presence_lease)),
                timeout: cap_u64(duration_ms(relay_session_timeout)),
            }),
    {
        Self::with_lease_millis(duration_millis(presence_lease), duration_millis(relay_session_timeout))
    }

    /// An empty hub whose leases last `presence_lease_ms` milliseconds and
    /// whose relay sessions time out after `relay_session_timeout_ms`.
    pub fn with_lease_millis(presence_lease_ms: u64, relay_session_timeout_ms: u64) -> (r: Self)
        ensures
            r.wf(),
            r@ == (HubView {
                peers: Seq::empty(),
                sessions: Seq::empty(),
                lease: presence_lease_ms,
                timeout: relay_session_timeout_ms,
            }),
    {
        let r = ServerStateModel {
            peers: Vec::new(),
            relay_sessions: Vec::new(),
            presence_lease_ms,
            relay_session_timeout_ms,
            clock_origin: instant_now(),
        };
        assert(presences_view(r.peers@) == Seq::<PresenceView>::empty());
        assert(sessions_view(r.relay_sessions@) == Seq::<(u128, SessionView)>::empty());
        r
    }

    /// The whole seconds of a presence lease.
    pub fn lease_seconds(&self) -> (r: u64)
        ensures
            r == self.presence_lease_ms / 1000,
    {
        self.presence_lease_ms / 1000
    }

    /// The hub's monotonic clock.
    fn now_ms(&self) -> u64 {
        millis_since(&self.clock_origin)
    }

    /// Drops the peers and sessions that have expired at `now_ms`.
    pub fn prune_expired_at(&mut self, now_ms: u64)
        requires
            old(self).wf(),
        ensures
            final(self).wf(),
            final(self)@ == prune_spec(old(self)@, now_ms),
            final(self).clock_origin == old(self).clock_origin,
    {
        let mut old_peers: Vec<PeerPresenceModel> = Vec::new();
        std::mem::swap(&mut old_peers, &mut self.peers);
        let ghost pv = presences_view(old_peers@);
        let mut kept: Vec<PeerPresenceModel> = Vec::new();
        let mut rest = old_peers;
        let n = rest.len();
        let mut i: usize = 0;
        // Take the peers out front to back, keeping the live ones.
        while i < n
            invariant
                n == pv.len(),
                i <= n,
                peer_ids_unique(pv),
                presences_view(rest@) == pv.subrange(i as int, n as int),
                rest@.len() == n - i,
                presences_view(kept@) == live_peers(pv.take(i as int), now_ms),
                peer_ids_unique(presences_view(kept@)),
                forall|a: int| 0 <= a < kept@.len() ==> exists|b: int| 0 <= b < i && (#[trigger] pv[b]).peer_id == (#[trigger] kept@[a])@.peer_id,
            decreases n - i,
        {
            let ghost before = kept@;
            assert(presences_view(rest@)[0] == pv[i as int]);
            let ghost rest_before = rest@;
            assert(rest@.len() == n - i);
            let p = rest.remove(0);
            assert(presences_view(rest@) =~= presences_view(rest_before).subrange(1, rest_before.len() as int));
            assert(presences_view(rest@) =~= pv.subrange(i + 1, n as int));
            assert(pv.take(i + 1).drop_last() == pv.take(i as int));
            assert(pv.take(i + 1).last() == pv[i as int]);
            if p.expires_at > now_ms {
                kept.push(p);
                assert(presences_view(kept@) == presences_view(before).push(pv[i as int]));
                assert forall|a: int, c: int|
                    0 <= a < presences_view(kept@).len() && 0 <= c < presences_view(kept@).len() && a != c
                    implies (#[trigger] presences_view(kept@)[a]).peer_id != (#[trigger] presences_view(kept@)[c]).peer_id by {
                    if a == before.len() {
                        let b = choose|b: int| 0 <= b < i && (#[trigger] pv[b]).peer_id == kept@[c]@.peer_id;
                        assert(pv[b].peer_id != pv[i as int].peer_id);
                    } else if c == before.len() {
                        let b = choose|b: int| 0 <= b < i && (#[trigger] pv[b]).peer_id == kept@[a]@.peer_id;
                        assert(pv[b].peer_id != pv[i as int].peer_id);
                    } else {
                        assert(presences_view(kept@)[a] == presences_view(before)[a]);
                        assert(presences_view(kept@)[c] == presences_view(before)[c]);
                    }
                }
                assert forall|a: int| 0 <= a < kept@.len() implies exists|b: int| 0 <= b < i + 1 && (#[trigger] pv[b]).peer_id == (#[trigger] kept@[a])@.peer_id by {
                    if a == before.len() {
                        assert(pv[i as int].peer_id == kept@[a]@.peer_id);
                    } else {
                        assert(kept@[a] == before[a]);
                    }
                }
            }
            i = i + 1;
        }
        assert(pv.take(n as int) == pv);
        self.peers = kept;

        let mut old_sessions: Vec<(u128, RelaySessionModel)> = Vec::new();
        std::mem::swap(&mut old_sessions, &mut self.relay_sessions);
        let ghost sv = sessions_view(old_sessions@);
        let mut kept_s: Vec<(u128, RelaySessionModel)> = Vec::new();
        let mut rest_s = old_sessions;
        let m = rest_s.len();
        let mut k: usize = 0;
        while k < m
            invariant
                m == sv.len(),
                k <= m,
                session_ids_unique(sv),
                sessions_view(rest_s@) == sv.subrange(k as int, m as int),
                rest_s@.len() == m - k,
                sessions_view(kept_s@) == live_sessions(sv.take(k as int), now_ms),
                session_ids_unique(sessions_view(kept_s@)),
                session_sides_differ(sv),
                session_sides_differ(sessions_view(kept_s@)),
                forall|a: int| 0 <= a < kept_s@.len() ==> exists|b: int| 0 <= b < k && (#[trigger] sv[b]).0 == (#[trigger] kept_s@[a]).0,
            decreases m - k,
        {
            let ghost before = kept_s@;
            assert(sessions_view(rest_s@)[0] == sv[k as int]);
            let ghost rest_before = rest_s@;
            assert(rest_s@.len() == m - k);
            let e = rest_s.remove(0);
            assert(sessions_view(rest_s@) =~= sessions_view(rest_before).subrange(1, rest_before.len() as int));
            assert(sessions_view(rest_s@) =~= sv.subrange(k + 1, m as int));
            assert(sv.take(k + 1).drop_last() == sv.take(k as int));
            assert(sv.take(k + 1).last() == sv[k as int]);
            if e.1.expires_at > now_ms {
                kept_s.push(e);
                assert(sessions_view(kept_s@) == sessions_view(before).push(sv[k as int]));
                assert forall|a: int, c: int|
                    0 <= a < sessions_view(kept_s@).len() && 0 <= c < sessions_view(kept_s@).len() && a != c
                    implies (#[trigger] sessions_view(kept_s@)[a]).0 != (#[trigger] sessions_view(kept_s@)[c]).0 by {
                    if a == before.len() {
                        let b = choose|b: int| 0 <= b < k && (#[trigger] sv[b]).0 == kept_s@[c].0;
                        assert(sv[b].0 != sv[k as int].0);
                    } else if c == before.len() {
                        let b = choose|b: int| 0 <= b < k && (#[trigger] sv[b]).0 == kept_s@[a].0;
                        assert(sv[b].0 != sv[k as int].0);
                    } else {
                        assert(sessions_view(kept_s@)[a] == sessions_view(before)[a]);
                        assert(sessions_view(kept_s@)[c] == sessions_view(before)[c]);
                    }
                }
                assert forall|a: int| 0 <= a < kept_s@.len() implies exists|b: int| 0 <= b < k + 1 && (#[trigger] sv[b]).0 == (#[trigger] kept_s@[a]).0 by {
                    if a == before.len() {
                        assert(sv[k as int].0 == kept_s@[a].0);
                    } else {
                        assert(kept_s@[a] == before[a]);
                    }
                }
            }
            k = k + 1;
        }
        assert(sv.take(m as int) == sv);
        self.relay_sessions = kept_s;
    }

    /// Drops the peers and sessions that have expired.
    pub fn prune_expired(&mut self)
        requires
            old(self).wf(),
        ensures
            final(self).wf(),
            exists|now: u64| final(self)@ == prune_spec(old(self)@, now),
    {
        let now = self.now_ms();
        self.prune_expired_at(now);
    }

    /// Registers a peer at `now_ms` (monotonic) and `unix_now_ms` (wall
    /// clock), replacing an earlier registration of the same identifier,
    /// and returns its record.
    pub fn register_peer_at(
        &mut self,
        request: RegisterPeerRequestModel,
        observed_remote_addr: Option<ObservedAddress>,
        now_ms: u64,
        unix_now_ms: u64,
    ) -> (r: PeerRecordModel)
        requires
            old(self).wf(),
        ensures
            final(self).wf(),
            final(self).clock_origin == old(self).clock_origin,
            final(self)@ == (HubView {
                peers: upsert_peer(
                    old(self)@.peers,
                    registered_presence(old(self)@, register_view(request), observed_view(observed_remote_addr), now_ms),
                ),
                ..old(self)@
            }),
            r@ == record_of(
                registered_presence(old(self)@, register_view(request), observed_view(observed_remote_addr), now_ms),
                now_ms,
                unix_now_ms,
            ),
    {
        let ghost presence = registered_presence(self@, register_view(request), observed_view(observed_remote_addr), now_ms);
        let reachability = apply_observed_reachability(request.reachability, observed_remote_addr);
        let peer = PeerPresenceModel {
            peer_id: request.peer_id,
            device_key: request.device_key,
            display_name: request.display_name,
            reachability,
            registered_at: now_ms,
            expires_at: now_ms.saturating_add(self.presence_lease_ms),
        };
        assert(peer@ == presence);
        let record = peer.to_record_model(now_ms, unix_now_ms);
        let ghost before = self.peers@;
        proof {
            lemma_upsert_peer_unique(presences_view(before), presence);
        }
        match find_peer(&self.peers, peer.peer_id.as_str()) {
            Some(i) => {
                proof {
                    lemma_peer_index(presences_view(before), i as int);
                }
                self.peers.set(i, peer);
                assert(presences_view(self.peers@) == presences_view(before).update(i as int, presence));
            },
            None => {
                self.peers.push(peer);
                assert(presences_view(self.peers@) == presences_view(before).push(presence));
            },
        }
        record
    }

    /// Registers a peer now, replacing an earlier registration of the same
    /// identifier, and returns its record.
    pub fn register_peer(
        &mut self,
        request: RegisterPeerRequestModel,
        observed_remote_addr: Option<ObservedAddress>,
    ) -> (r: PeerRecordModel)
        requires
            old(self).wf(),
        ensures
            final(self).wf(),
            exists|now: u64, unix_now: u64| {
                &&& final(self)@ == (HubView {
                    peers: upsert_peer(
                        old(self)@.peers,
                        registered_presence(old(self)@, register_view(request), observed_view(observed_remote_addr), now),
                    ),
                    ..old(self)@
                })
                &&& r@ == record_of(
                    registered_presence(old(self)@, register_view(request), observed_view(observed_remote_addr), now),
                    now,
                    unix_now,
                )
            },
    {
        let now = self.now_ms();
        let unix_now = TimeUtil::unix_time_ms();
        self.register_peer_at(request, observed_remote_addr, now, unix_now)
    }

    /// Restarts the lease of peer `peer_id` at `now_ms`; `None` when no such
    /// peer is registered. Expired peers are not pruned first.
    pub fn heartbeat_at(&mut self, peer_id: &str, now_ms: u64, unix_now_ms: u64) -> (r: Option<PeerRecordModel>)
        requires
            old(self).wf(),
        ensures
            final(self).wf(),
            final(self).clock_origin == old(self).clock_origin,
            final(self)@ == heartbeat_spec(old(self)@, peer_id@, now_ms).0,
            opt_record_view(r) == opt_record(heartbeat_spec(old(self)@, peer_id@, now_ms).1, now_ms, unix_now_ms),
    {
        match find_peer(&self.peers, peer_id) {
            Some(i) => {
                let ghost before = self.peers@;
                proof {
                    lemma_peer_index(presences_view(before), i as int);
                    lemma_upsert_peer_unique(presences_view(before), refreshed(presences_view(before)[i as int], now_ms, self.presence_lease_ms));
                }
                let lease = self.presence_lease_ms;
                let entry = &mut self.peers[i];
                entry.expires_at = now_ms.saturating_add(lease);
                assert(presences_view(self.peers@) == presences_view(before).update(
                    i as int,
                    refreshed(presences_view(before)[i as int], now_ms, lease),
                ));
                Some(self.peers[i].to_record_model(now_ms, unix_now_ms))
            },
            None => None,
        }
    }

    /// Restarts the lease of peer `peer_id` now; `None` when no such peer is
    /// registered.
    pub fn heartbeat(&mut self, peer_id: &str) -> (r: Option<PeerRecordModel>)
        requires
            old(self).wf(),
        ensures
            final(self).wf(),
            exists|now: u64, unix_now: u64| {
                &&& final(self)@ == heartbeat_spec(old(self)@, peer_id@, now).0
                &&& opt_record_view(r) == opt_record(heartbeat_spec(old(self)@, peer_id@, now).1, now, unix_now)
            },
    {
        let now = self.now_ms();
        let unix_now = TimeUtil::unix_time_ms();
        self.heartbeat_at(peer_id, now, unix_now)
    }

    /// Prunes what has expired at `now_ms`, then returns the record of peer
    /// `peer_id` if it is still registered.
    pub fn lookup_peer_at(&mut self, peer_id: &str, now_ms: u64, unix_now_ms: u64) -> (r: Option<PeerRecordModel>)
        requires
            old(self).wf(),
        ensures
            final(self).wf(),
            final(self).clock_origin == old(self).clock_origin,
            final(self)@ == prune_spec(old(self)@, now_ms),
            opt_record_view(r) == opt_record(lookup_spec(old(self)@, peer_id@, now_ms), now_ms, unix_now_ms),
    {
        self.prune_expired_at(now_ms);
        match find_peer(&self.peers, peer_id) {
            Some(i) => {
                proof {
                    lemma_peer_index(self@.peers, i as int);
                }
                Some(self.peers[i].to_record_model(now_ms, unix_now_ms))
            },
            None => None,
        }
    }

    /// Prunes what has expired, then returns the record of peer `peer_id` if
    /// it is still registered.
    pub fn lookup_peer(&mut self, peer_id: &str) -> (r: Option<PeerRecordModel>)
        requires
            old(self).wf(),
        ensures
            final(self).wf(),
            exists|now: u64, unix_now: u64| {
                &&& final(self)@ == prune_spec(old(self)@, now)
                &&& opt_record_view(r) == opt_record(lookup_spec(old(self)@, peer_id@, now), now, unix_now)
            },
    {
        let now = self.now_ms();
        let unix_now = TimeUtil::unix_time_ms();
        self.lookup_peer_at(peer_id, now, unix_now)
    }

    /// Stores `session` under `id`, replacing a session with that identifier.
    fn put_session(&mut self, id: u128, session: RelaySessionModel)
        requires
            old(self).wf(),
            session@.source_peer_id != session@.target_peer_id,
        ensures
            final(self).wf(),
            final(self).clock_origin == old(self).clock_origin,
            final(self)@ == (HubView { sessions: upsert_session(old(self)@.sessions, id, session@), ..old(self)@ }),
    {
        let ghost before = self.relay_sessions@;
        proof {
            lemma_upsert_session_unique(sessions_view(before), id, session@);
        }
        match find_session(&self.relay_sessions, id) {
            Some(i) => {
                proof {
                    lemma_session_index(sessions_view(before), i as int);
                }
                self.relay_sessions.set(i, (id, session));
                assert(sessions_view(self.relay_sessions@) == sessions_view(before).update(i as int, (id, session@)));
            },
            None => {
                self.relay_sessions.push((id, session));
                assert(sessions_view(self.relay_sessions@) == sessions_view(before).push((id, session@)));
            },
        }
    }

    /// Answers a connect request at `now_ms` (monotonic) and `unix_now_ms`
    /// (wall clock), opening relay session `relay_session_id` when the
    /// answer is to relay.
    pub fn connect_with(
        &mut self,
        request: ConnectRequestModel,
        now_ms: u64,
        unix_now_ms: u64,
        relay_session_id: u128,
    ) -> (r: Result<ConnectDecisionModel, ApiErrorModel>)
        requires
            old(self).wf(),
        ensures
            final(self).wf(),
            final(self).clock_origin == old(self).clock_origin,
            (final(self)@, result_view(r)) == connect_spec(
                old(self)@,
                request.source_peer_id@,
                request.target_peer_id@,
                request.prefer_direct,
                now_ms,
                unix_now_ms,
                relay_session_id,
            ),
    {
        self.prune_expired_at(now_ms);
        let si = match find_peer(&self.peers, request.source_peer_id.as_str()) {
            Some(i) => i,
            None => return Err(ApiErrorModel::not_found(source_offline(request.source_peer_id.as_str()))),
        };
        proof {
            lemma_peer_index(self@.peers, si as int);
        }
        let ti = match find_peer(&self.peers, request.target_peer_id.as_str()) {
            Some(i) => i,
            None => return Err(ApiErrorModel::not_found(target_offline(request.target_peer_id.as_str()))),
        };
        proof {
            lemma_peer_index(self@.peers, si as int);
            lemma_peer_index(self@.peers, ti as int);
        }
        if request.source_peer_id == request.target_peer_id {
            return Err(ApiErrorModel::bad_request("source and target peer must differ".to_owned()));
        }
        if request.prefer_direct {
            match select_direct_candidates(&self.peers[si], &self.peers[ti]) {
                Some((candidates, decision_reason)) => {
                    let target = &self.peers[ti];
                    return Ok(ConnectDecisionModel::direct(DirectConnectionInfoModel {
                        peer_id: target.peer_id.clone(),
                        device_key: target.device_key.clone(),
                        display_name: duplicate_opt_string(&target.display_name),
                        reachability_candidates: candidates,
                        message_endpoint: duplicate_opt_string(&target.reachability.message_endpoint),
                        decision_reason,
                    }));
                },
                None => {},
            }
        }
        let decision_reason = relay_decision_reason(&self.peers[si], &self.peers[ti], request.prefer_direct);
        let timeout = self.relay_session_timeout_ms;
        let session = RelaySessionModel {
            source_peer_id: request.source_peer_id.clone(),
            target_peer_id: request.target_peer_id.clone(),
            expires_at: now_ms.saturating_add(timeout),
            source_attached: false,
            target_attached: false,
            pending_for_source: VecDeque::new(),
            pending_for_target: VecDeque::new(),
        };
        assert(session@.pending_for_source =~= Seq::<RelayEnvelopeView>::empty());
        assert(session@.pending_for_target =~= Seq::<RelayEnvelopeView>::empty());
        assert(session@ == new_session(request.source_peer_id@, request.target_peer_id@, now_ms, timeout));
        self.put_session(relay_session_id, session);
        Ok(ConnectDecisionModel::relay(RelayConnectionInfoModel {
            relay_session_id,
            source_peer_id: request.source_peer_id,
            target_peer_id: request.target_peer_id,
            expires_at_unix_ms: TimeUtil::shifted_forward(unix_now_ms, timeout),
            decision_reason,
        }))
    }

    /// Answers a connect request now; a relay answer opens a session with a
    /// fresh random identifier.
    pub fn connect(&mut self, request: ConnectRequestModel) -> (r: Result<ConnectDecisionModel, ApiErrorModel>)
        requires
            old(self).wf(),
        ensures
            final(self).wf(),
            exists|now: u64, unix_now: u64, id: u128|
                (id >> 76u128) & 0xfu128 == 4 && (id >> 62u128) & 0x3u128 == 2
                    && (final(self)@, result_view(r)) == connect_spec(
                    old(self)@,
                    request.source_peer_id@,
                    request.target_peer_id@,
                    request.prefer_direct,
                    now,
                    unix_now,
                    id,
                ),
    {
        let now = self.now_ms();
        let unix_now = TimeUtil::unix_time_ms();
        let id = new_relay_session_id();
        self.connect_with(request, now, unix_now, id)
    }

    /// Attaches `peer_id` to relay session `relay_session_id` at `now_ms`
    /// (monotonic) and `unix_now_ms` (wall clock).
    pub fn attach_relay_peer_at(
        &mut self,
        relay_session_id: u128,
        peer_id: &str,
        now_ms: u64,
        unix_now_ms: u64,
    ) -> (r: Result<RelayAttachResponseModel, ApiErrorModel>)
        requires
            old(self).wf(),
        ensures
            final(self).wf(),
            final(self).clock_origin == old(self).clock_origin,
            (final(self)@, result_view(r)) == attach_spec(old(self)@, relay_session_id, peer_id@, now_ms, unix_now_ms),
    {
        self.prune_expired_at(now_ms);
        let i = match find_session(&self.relay_sessions, relay_session_id) {
            Some(i) => i,
            None => return Err(ApiErrorModel::not_found(session_missing(relay_session_id))),
        };
        proof {
            lemma_session_index(self@.sessions, i as int);
        }
        let timeout = self.relay_session_timeout_ms;
        let ghost before = self@.sessions;
        let ghost sess = before[i as int].1;
        let is_source = str_eq(peer_id, self.relay_sessions[i].1.source_peer_id.as_str());
        let is_target = !is_source && str_eq(peer_id, self.relay_sessions[i].1.target_peer_id.as_str());
        if !is_source && !is_target {
            return Err(ApiErrorModel::bad_request(not_in_session(peer_id, relay_session_id)));
        }
        let entry = &mut self.relay_sessions[i];
        let counterpart = if is_source {
            entry.1.source_attached = true;
            entry.1.target_peer_id.clone()
        } else {
            entry.1.target_attached = true;
            entry.1.source_peer_id.clone()
        };
        entry.1.expires_at = now_ms.saturating_add(timeout);
        proof {
            let s2 = self@.sessions[i as int].1;
            assert(self@.sessions == before.update(i as int, (relay_session_id, s2)));
            lemma_upsert_session_unique(before, relay_session_id, s2);
        }
        Ok(RelayAttachResponseModel {
            accepted: true,
            relay_session_id,
            peer_id: peer_id.to_owned(),
            counterpart_peer_id: counterpart,
            expires_at_unix_ms: TimeUtil::shifted_forward(unix_now_ms, timeout),
        })
    }

    /// Attaches `peer_id` to relay session `relay_session_id` now.
    pub fn attach_relay_peer(&mut self, relay_session_id: u128, peer_id: &str) -> (r: Result<RelayAttachResponseModel, ApiErrorModel>)
        requires
            old(self).wf(),
        ensures
            final(self).wf(),
            exists|now: u64, unix_now: u64|
                (final(self)@, result_view(r)) == attach_spec(old(self)@, relay_session_id, peer_id@, now, unix_now),
    {
        let now = self.now_ms();
        let unix_now = TimeUtil::unix_time_ms();
        self.attach_relay_peer_at(relay_session_id, peer_id, now, unix_now)
    }

    /// Queues a message in a relay session at `now_ms` (monotonic) and
    /// `unix_now_ms` (wall clock).
    pub fn relay_send_at(
        &mut self,
        request: RelaySendRequestModel,
        now_ms: u64,
        unix_now_ms: u64,
    ) -> (r: Result<RelaySendResponseModel, ApiErrorModel>)
        requires
            old(self).wf(),
        ensures
            final(self).wf(),
            final(self).clock_origin == old(self).clock_origin,
            (final(self)@, result_view(r)) == relay_send_spec(
                old(self)@,
                request.relay_session_id,
                request.peer_id@,
                request.payload@,
                now_ms,
                unix_now_ms,
            ),
    {
        self.prune_expired_at(now_ms);
        let id = request.relay_session_id;
        let i = match find_session(&self.relay_sessions, id) {
            Some(i) => i,
            None => return Err(ApiErrorModel::not_found(session_missing(id))),
        };
        proof {
            lemma_session_index(self@.sessions, i as int);
        }
        let timeout = self.relay_session_timeout_ms;
        let is_source = str_eq(request.peer_id.as_str(), self.relay_sessions[i].1.source_peer_id.as_str());
        let is_target = !is_source && str_eq(
            request.peer_id.as_str(),
            self.relay_sessions[i].1.target_peer_id.as_str(),
        );
        if !is_source && !is_target {
            return Err(ApiErrorModel::bad_request(not_in_session(request.peer_id.as_str(), id)));
        }
        let matches = if is_source {
            request.payload.from_peer_id == self.relay_sessions[i].1.source_peer_id
                && request.payload.to_peer_id == self.relay_sessions[i].1.target_peer_id
        } else {
            request.payload.from_peer_id == self.relay_sessions[i].1.target_peer_id
                && request.payload.to_peer_id == self.relay_sessions[i].1.source_peer_id
        };
        if !matches {
            return Err(ApiErrorModel::bad_request(
                "relay payload does not match source/target session peers".to_owned(),
            ));
        }
        let recipient_peer_id = if is_source {
            self.relay_sessions[i].1.target_peer_id.clone()
        } else {
            self.relay_sessions[i].1.source_peer_id.clone()
        };
        let envelope = RelayMessageEnvelopeModel {
            relay_session_id: id,
            source_peer_id: request.payload.from_peer_id.clone(),
            target_peer_id: request.payload.to_peer_id.clone(),
            queued_at_unix_ms: unix_now_ms,
            payload: request.payload,
        };
        let ghost m = envelope@;
        let ghost before = self@.sessions;
        let entry = &mut self.relay_sessions[i];
        let queued_messages = if is_source {
            let ghost q = entry.1.pending_for_target@;
            entry.1.pending_for_target.push_back(envelope);
            assert(envelopes_view(entry.1.pending_for_target@) == envelopes_view(q).push(m));
            entry.1.pending_for_target.len()
        } else {
            let ghost q = entry.1.pending_for_source@;
            entry.1.pending_for_source.push_back(envelope);
            assert(envelopes_view(entry.1.pending_for_source@) == envelopes_view(q).push(m));
            entry.1.pending_for_source.len()
        };
        entry.1.expires_at = now_ms.saturating_add(timeout);
        proof {
            let s2 = self@.sessions[i as int].1;
            assert(self@.sessions == before.update(i as int, (id, s2)));
            lemma_upsert_session_unique(before, id, s2);
        }
        Ok(RelaySendResponseModel { accepted: true, relay_session_id: id, recipient_peer_id, queued_messages })
    }

    /// Queues a message in a relay session now.
    pub fn relay_send(&mut self, request: RelaySendRequestModel) -> (r: Result<RelaySendResponseModel, ApiErrorModel>)
        requires
            old(self).wf(),
        ensures
            final(self).wf(),
            exists|now: u64, unix_now: u64|
                (final(self)@, result_view(r)) == relay_send_spec(
                    old(self)@,
                    request.relay_session_id,
                    request.peer_id@,
                    request.payload@,
                    now,
                    unix_now,
                ),
    {
        let now = self.now_ms();
        let unix_now = TimeUtil::unix_time_ms();
        self.relay_send_at(request, now, unix_now)
    }

    /// Closes the sessions that have served their purpose.
    fn drop_finished_sessions(&mut self)
        requires
            old(self).wf(),
        ensures
            final(self).wf(),
            final(self).clock_origin == old(self).clock_origin,
            final(self)@ == (HubView { sessions: unfinished(old(self)@.sessions), ..old(self)@ }),
    {
        let mut old_sessions: Vec<(u128, RelaySessionModel)> = Vec::new();
        std::mem::swap(&mut old_sessions, &mut self.relay_sessions);
        let ghost sv = sessions_view(old_sessions@);
        let mut kept_s: Vec<(u128, RelaySessionModel)> = Vec::new();
        let mut rest_s = old_sessions;
        let m = rest_s.len();
        let mut k: usize = 0;
        while k < m
            invariant
                m == sv.len(),
                k <= m,
                session_ids_unique(sv),
                sessions_view(rest_s@) == sv.subrange(k as int, m as int),
                rest_s@.len() == m - k,
                sessions_view(kept_s@) == unfinished(sv.take(k as int)),
                session_ids_unique(sessions_view(kept_s@)),
                session_sides_differ(sv),
                session_sides_differ(sessions_view(kept_s@)),
                forall|a: int| 0 <= a < kept_s@.len() ==> exists|b: int| 0 <= b < k && (#[trigger] sv[b]).0 == (#[trigger] kept_s@[a]).0,
            decreases m - k,
        {
            let ghost before = kept_s@;
            assert(sessions_view(rest_s@)[0] == sv[k as int]);
            let ghost rest_before = rest_s@;
            let e = rest_s.remove(0);
            assert(sessions_view(rest_s@) =~= sessions_view(rest_before).subrange(1, rest_before.len() as int));
            assert(sessions_view(rest_s@) =~= sv.subrange(k + 1, m as int));
            assert(sv.take(k + 1).drop_last() == sv.take(k as int));
            assert(sv.take(k + 1).last() == sv[k as int]);
            if !relay_session_is_finished(&e.1) {
                kept_s.push(e);
                assert(sessions_view(kept_s@) == sessions_view(before).push(sv[k as int]));
                assert forall|a: int, c: int|
                    0 <= a < sessions_view(kept_s@).len() && 0 <= c < sessions_view(kept_s@).len() && a != c
                    implies (#[trigger] sessions_view(kept_s@)[a]).0 != (#[trigger] sessions_view(kept_s@)[c]).0 by {
                    if a == before.len() {
                        let b = choose|b: int| 0 <= b < k && (#[trigger] sv[b]).0 == kept_s@[c].0;
                        assert(sv[b].0 != sv[k as int].0);
                    } else if c == before.len() {
                        let b = choose|b: int| 0 <= b < k && (#[trigger] sv[b]).0 == kept_s@[a].0;
                        assert(sv[b].0 != sv[k as int].0);
                    } else {
                        assert(sessions_view(kept_s@)[a] == sessions_view(before)[a]);
                        assert(sessions_view(kept_s@)[c] == sessions_view(before)[c]);
                    }
                }
                assert forall|a: int| 0 <= a < kept_s@.len() implies exists|b: int| 0 <= b < k + 1 && (#[trigger] sv[b]).0 == (#[trigger] kept_s@[a]).0 by {
                    if a == before.len() {
                        assert(sv[k as int].0 == kept_s@[a].0);
                    } else {
                        assert(kept_s@[a] == before[a]);
                    }
                }
            }
            k = k + 1;
        }
        assert(sv.take(m as int) == sv);
        self.relay_sessions = kept_s;
    }

    /// Hands `peer_id` every relayed message queued for it at `now_ms`,
    /// session after session, and closes the sessions that have served
    /// their purpose. Never fails.
    pub fn poll_relay_messages_at(&mut self, peer_id: &str, now_ms: u64) -> (r: Result<Vec<RelayMessageEnvelopeModel>, ApiErrorModel>)
        requires
            old(self).wf(),
        ensures
            final(self).wf(),
            final(self).clock_origin == old(self).clock_origin,
            final(self)@ == poll_spec(old(self)@, peer_id@, now_ms).0,
            r is Ok,
            r matches Ok(messages) && envelopes_view(messages@) == poll_spec(old(self)@, peer_id@, now_ms).1,
    {
        self.prune_expired_at(now_ms);
        let ghost p = self@;
        let ghost origin = self.clock_origin;
        let timeout = self.relay_session_timeout_ms;
        let mut messages: Vec<RelayMessageEnvelopeModel> = Vec::new();
        let n = self.relay_sessions.len();
        let mut i: usize = 0;
        assert(p.sessions.take(0) =~= Seq::<(u128, SessionView)>::empty());
        assert(p.sessions.subrange(0, n as int) =~= p.sessions);
        assert(Seq::<(u128, SessionView)>::empty() + p.sessions =~= p.sessions);
        assert(envelopes_view(messages@) =~= Seq::<RelayEnvelopeView>::empty());
        while i < n
            invariant
                self.clock_origin == origin,
                n == p.sessions.len(),
                i <= n,
                hub_wf(p),
                timeout == p.timeout,
                self.relay_sessions@.len() == n,
                self@ == (HubView {
                    sessions: poll_all(p.sessions.take(i as int), peer_id@, now_ms, timeout).0 + p.sessions.subrange(i as int, n as int),
                    ..p
                }),
                envelopes_view(messages@) == poll_all(p.sessions.take(i as int), peer_id@, now_ms, timeout).1,
            decreases n - i,
        {
            proof {
                lemma_poll_all_len(p.sessions.take(i as int), peer_id@, now_ms, timeout);
            }
            let ghost before = self@.sessions;
            let ghost done = poll_all(p.sessions.take(i as int), peer_id@, now_ms, timeout);
            assert(before[i as int] == p.sessions[i as int]);
            assert(p.sessions.take(i + 1).drop_last() == p.sessions.take(i as int));
            assert(p.sessions.take(i + 1).last() == p.sessions[i as int]);
            let is_source = str_eq(peer_id, self.relay_sessions[i].1.source_peer_id.as_str());
            let is_target = !is_source && str_eq(peer_id, self.relay_sessions[i].1.target_peer_id.as_str());
            let ghost msgs_before = messages@;
            let ghost sess = p.sessions[i as int].1;
            let ghost (s2, taken) = poll_session(sess, peer_id@, now_ms, timeout);
            if is_source || is_target {
                let entry = &mut self.relay_sessions[i];
                if is_source {
                    let drained = drain_messages(&mut messages, &mut entry.1.pending_for_source);
                    if drained > 0 {
                        entry.1.source_attached = true;
                        entry.1.expires_at = now_ms.saturating_add(timeout);
                    } else {
                        assert(sess.pending_for_source =~= Seq::<RelayEnvelopeView>::empty());
                    }
                    assert(envelopes_view(entry.1.pending_for_source@) =~= Seq::<RelayEnvelopeView>::empty());
                    assert(entry.1@ == s2);
                } else {
                    let drained = drain_messages(&mut messages, &mut entry.1.pending_for_target);
                    if drained > 0 {
                        entry.1.target_attached = true;
                        entry.1.expires_at = now_ms.saturating_add(timeout);
                    } else {
                        assert(sess.pending_for_target =~= Seq::<RelayEnvelopeView>::empty());
                    }
                    assert(envelopes_view(entry.1.pending_for_target@) =~= Seq::<RelayEnvelopeView>::empty());
                    assert(entry.1@ == s2);
                }
            }
            proof {
                assert(self@.sessions[i as int] == (p.sessions[i as int].0, s2));
                assert(self@.sessions =~= before.update(i as int, (p.sessions[i as int].0, s2)));
                assert(done.0.len() == i);
                assert(envelopes_view(messages@) =~= done.1 + taken);
                assert(self@.sessions =~= done.0.push((p.sessions[i as int].0, s2)) + p.sessions.subrange(i + 1, n as int));
            }
            i = i + 1;
        }
        assert(p.sessions.take(n as int) == p.sessions);
        proof {
            lemma_poll_all_ids(p.sessions, peer_id@, now_ms, timeout);
            assert(self@.sessions =~= poll_all(p.sessions, peer_id@, now_ms, timeout).0);
        }
        self.drop_finished_sessions();
        Ok(messages)
    }

    /// Hands `peer_id` every relayed message queued for it now, and closes
    /// the sessions that have served their purpose. Never fails.
    pub fn poll_relay_messages(&mut self, peer_id: &str) -> (r: Result<Vec<RelayMessageEnvelopeModel>, ApiErrorModel>)
        requires
            old(self).wf(),
        ensures
            final(self).wf(),
            r is Ok,
            exists|now: u64| {
                &&& final(self)@ == poll_spec(old(self)@, peer_id@, now).0
                &&& r matches Ok(messages) && envelopes_view(messages@) == poll_spec(old(self)@, peer_id@, now).1
            },
    {
        let now = self.now_ms();
        self.poll_relay_messages_at(peer_id, now)
    }
}

/// Polling keeps the number of sessions.
proof fn lemma_poll_all_len(sessions: Seq<(u128, SessionView)>, peer: Seq<char>, now: u64, timeout: u64)
    ensures
        poll_all(sessions, peer, now, timeout).0.len() == sessions.len(),
    decreases sessions.len(),
{
    if sessions.len() > 0 {
        lemma_poll_all_len(sessions.drop_last(), peer, now, timeout);
    }
}

/// Polling keeps every session's identifier in place, so identifiers stay
/// unique.
proof fn lemma_poll_all_ids(sessions: Seq<(u128, SessionView)>, peer: Seq<char>, now: u64, timeout: u64)
    ensures
        poll_all(sessions, peer, now, timeout).0.len() == sessions.len(),
        forall|j: int| 0 <= j < sessions.len() ==> (#[trigger] poll_all(sessions, peer, now, timeout).0[j]).0 == sessions[j].0,
        session_ids_unique(sessions) ==> session_ids_unique(poll_all(sessions, peer, now, timeout).0),
        session_sides_differ(sessions) ==> session_sides_differ(poll_all(sessions, peer, now, timeout).0),
    decreases sessions.len(),
{
    if sessions.len() > 0 {
        lemma_poll_all_ids(sessions.drop_last(), peer, now, timeout);
        let q = poll_all(sessions, peer, now, timeout).0;
        if session_sides_differ(sessions) {
            assert forall|j: int| 0 <= j < q.len() implies (#[trigger] q[j]).1.source_peer_id != q[j].1.target_peer_id by {
                if j < sessions.len() - 1 {
                    assert(sessions.drop_last()[j] == sessions[j]);
                    assert(session_sides_differ(sessions.drop_last()));
                }
            }
        }
        assert forall|j: int| 0 <= j < sessions.len() implies (#[trigger] q[j]).0 == sessions[j].0 by {
            if j < sessions.len() - 1 {
                assert(sessions.drop_last()[j] == sessions[j]);
            }
        }
    }
}

// ---------------------------------------------------------------------------
// Request checks of the hub's endpoints
// ---------------------------------------------------------------------------

/// Whether `c` is white space in the sense of Unicode's `White_Space`
/// property, which `char::is_whitespace` follows.
pub open spec fn is_white_space(c: char) -> bool {
    ||| c == ' '
    ||| ('\u{9}' <= c && c <= '\u{d}')
    ||| c == '\u{85}'
    ||| c == '\u{a0}'
    ||| c == '\u{1680}'
    ||| ('\u{2000}' <= c && c <= '\u{200a}')
    ||| c == '\u{2028}'
    ||| c == '\u{2029}'
    ||| c == '\u{202f}'
    ||| c == '\u{205f}'
    ||| c == '\u{3000}'
}

/// Whether `s` is empty once trimmed (`str::trim`): all its characters are
/// white space.
pub open spec fn is_blank(s: Seq<char>) -> bool {
    forall|i: int| 0 <= i < s.len() ==> is_white_space(#[trigger] s[i])
}

pub(crate) fn white_space(c: char) -> (r: bool)
    ensures
        r == is_white_space(c),
{
    c == ' ' || ('\u{9}' <= c && c <= '\u{d}') || c == '\u{85}' || c == '\u{a0}' || c == '\u{1680}'
        || ('\u{2000}' <= c && c <= '\u{200a}') || c == '\u{2028}' || c == '\u{2029}'
        || c == '\u{202f}' || c == '\u{205f}' || c == '\u{3000}'
}

/// Whether `s` holds nothing but white space.
pub fn blank(s: &str) -> (r: bool)
    ensures
        r == is_blank(s@),
{
    let cs = crate::text::chars_of(s);
    let n = cs.len();
    for i in 0..n
        invariant
            n == cs@.len(),
            cs@ == s@,
            forall|j: int| 0 <= j < i ==> is_white_space(#[trigger] cs@[j]),
    {
        if !white_space(cs[i]) {
            return false;
        }
    }
    true
}

/// The hub's check of a registration request: a peer identifier and a
/// device key that are not blank.
pub fn check_register_request(request: &RegisterPeerRequestModel) -> (r: Result<(), ApiErrorModel>)
    ensures
        result_unit_view(r) == (if is_blank(request.peer_id@) {
            Err(ErrorView { status: BAD_REQUEST, message: "peer_id must not be empty"@ })
        } else if is_blank(request.device_key@) {
            Err(ErrorView { status: BAD_REQUEST, message: "device_key must not be empty"@ })
        } else {
            Ok(())
        }),
{
    if blank(request.peer_id.as_str()) {
        return Err(ApiErrorModel::bad_request("peer_id must not be empty".to_owned()));
    }
    if blank(request.device_key.as_str()) {
        return Err(ApiErrorModel::bad_request("device_key must not be empty".to_owned()));
    }
    Ok(())
}

/// The view of a result without a value.
pub open spec fn result_unit_view(r: Result<(), ApiErrorModel>) -> Result<(), ErrorView> {
    match r {
        Ok(()) => Ok(()),
        Err(e) => Err(e@),
    }
}

/// The message when a heartbeat or lookup names a peer that is not
/// registered.
pub open spec fn peer_offline_message(id: Seq<char>) -> Seq<char> {
    "peer '"@ + id + "' is offline"@
}

/// The "not found" error of a heartbeat or lookup for an unregistered peer.
pub fn peer_offline_error(peer_id: &str) -> (r: ApiErrorModel)
    ensures
        r@ == (ErrorView { status: NOT_FOUND, message: peer_offline_message(peer_id@) }),
{
    let mut v: Vec<char> = Vec::new();
    push_str(&mut v, "peer '");
    push_str(&mut v, peer_id);
    push_str(&mut v, "' is offline");
    ApiErrorModel::not_found(string_of(v.as_slice()))
}

} // verus!
