//! Properties of the hub that span several requests: what a lookup gives
//! back after a registration or heartbeat, what a poll gives back after a
//! relayed send, and what the hub's decisions never do.
use crate::clock::sat_add;
use crate::hub::{
    HubView, has_peer, has_session, hub_wf, live_peers, live_sessions, lookup_spec, peer_ids_unique,
    peer_index, peer_of, poll_all, poll_session, poll_spec, prune_spec, registered_presence,
    relay_send_spec, relayed, refreshed, heartbeat_spec, session_ids_unique, session_index,
    session_of, session_sides_differ, unfinished, upsert_peer, upsert_session, RegisterView, attach_spec,
    connect_spec, new_session,
};
use crate::model::{AddressView, ChatMessageView, TransportProtocolEnum};
use crate::peers::{
    dedupe_spec, has_base_url, hinted_lan_tcp, is_tcp_with_scope, scoped_tcp, select_direct_spec,
    IpAddressFacts, PresenceView,
};
use crate::model::RelayEnvelopeView;
use crate::relay::{session_finished, SessionView};
use vstd::prelude::*;

verus! {

// ---------------------------------------------------------------------------
// What filtering keeps
// ---------------------------------------------------------------------------

proof fn lemma_live_peers(peers: Seq<PresenceView>, now: u64)
    ensures
        forall|j: int| 0 <= j < live_peers(peers, now).len() ==> (#[trigger] live_peers(peers, now)[j]).expires_at > now
            && exists|k: int| 0 <= k < peers.len() && peers[k] == live_peers(peers, now)[j],
        forall|k: int| 0 <= k < peers.len() && (#[trigger] peers[k]).expires_at > now ==> exists|j: int|
            0 <= j < live_peers(peers, now).len() && live_peers(peers, now)[j] == peers[k],
        peer_ids_unique(peers) ==> peer_ids_unique(live_peers(peers, now)),
    decreases peers.len(),
{
    if peers.len() > 0 {
        let d = peers.drop_last();
        lemma_live_peers(d, now);
        let l = live_peers(peers, now);
        let ld = live_peers(d, now);
        assert forall|j: int| 0 <= j < l.len() implies (#[trigger] l[j]).expires_at > now
            && exists|k: int| 0 <= k < peers.len() && peers[k] == l[j] by {
            if j < ld.len() {
                assert(l[j] == ld[j]);
                let k = choose|k: int| 0 <= k < d.len() && d[k] == ld[j];
                assert(peers[k] == d[k]);
            } else {
                assert(l[j] == peers.last());
                assert(peers[peers.len() - 1] == l[j]);
            }
        }
        assert forall|k: int| 0 <= k < peers.len() && (#[trigger] peers[k]).expires_at > now implies exists|j: int|
            0 <= j < l.len() && l[j] == peers[k] by {
            if k < peers.len() - 1 {
                assert(d[k] == peers[k]);
                let j = choose|j: int| 0 <= j < ld.len() && ld[j] == d[k];
                assert(l[j] == ld[j]);
            } else {
                assert(l[l.len() - 1] == peers[k]);
            }
        }
        if peer_ids_unique(peers) {
            assert(peer_ids_unique(d)) by {
                assert forall|a: int, b: int| 0 <= a < d.len() && 0 <= b < d.len() && a != b implies (#[trigger] d[a]).peer_id != (#[trigger] d[b]).peer_id by {
                    assert(d[a] == peers[a] && d[b] == peers[b]);
                }
            }
            if peers.last().expires_at > now {
                assert forall|a: int, b: int| 0 <= a < l.len() && 0 <= b < l.len() && a != b implies (#[trigger] l[a]).peer_id != (#[trigger] l[b]).peer_id by {
                    if a == l.len() - 1 {
                        let k = choose|k: int| 0 <= k < d.len() && d[k] == ld[b];
                        assert(peers[k] == d[k]);
                        assert(l[b] == ld[b]);
                    } else if b == l.len() - 1 {
                        let k = choose|k: int| 0 <= k < d.len() && d[k] == ld[a];
                        assert(peers[k] == d[k]);
                        assert(l[a] == ld[a]);
                    } else {
                        assert(l[a] == ld[a] && l[b] == ld[b]);
                    }
                }
            }
        }
    }
}

proof fn lemma_live_sessions(sessions: Seq<(u128, SessionView)>, now: u64)
    ensures
        forall|j: int| 0 <= j < live_sessions(sessions, now).len() ==> exists|k: int|
            0 <= k < sessions.len() && sessions[k] == (#[trigger] live_sessions(sessions, now)[j]),
        forall|k: int| 0 <= k < sessions.len() && (#[trigger] sessions[k]).1.expires_at > now ==> exists|j: int|
            0 <= j < live_sessions(sessions, now).len() && live_sessions(sessions, now)[j] == sessions[k],
        session_ids_unique(sessions) ==> session_ids_unique(live_sessions(sessions, now)),
        session_sides_differ(sessions) ==> session_sides_differ(live_sessions(sessions, now)),
    decreases sessions.len(),
{
    if sessions.len() > 0 {
        let d = sessions.drop_last();
        lemma_live_sessions(d, now);
        let l = live_sessions(sessions, now);
        let ld = live_sessions(d, now);
        assert forall|j: int| 0 <= j < l.len() implies exists|k: int| 0 <= k < sessions.len() && sessions[k] == (#[trigger] l[j]) by {
            if j < ld.len() {
                assert(l[j] == ld[j]);
                let k = choose|k: int| 0 <= k < d.len() && d[k] == ld[j];
                assert(sessions[k] == d[k]);
            } else {
                assert(sessions[sessions.len() - 1] == l[j]);
            }
        }
        assert forall|k: int| 0 <= k < sessions.len() && (#[trigger] sessions[k]).1.expires_at > now implies exists|j: int|
            0 <= j < l.len() && l[j] == sessions[k] by {
            if k < sessions.len() - 1 {
                assert(d[k] == sessions[k]);
                let j = choose|j: int| 0 <= j < ld.len() && ld[j] == d[k];
                assert(l[j] == ld[j]);
            } else {
                assert(l[l.len() - 1] == sessions[k]);
            }
        }
        if session_sides_differ(sessions) {
            assert(session_sides_differ(d)) by {
                assert forall|a: int| 0 <= a < d.len() implies (#[trigger] d[a]).1.source_peer_id != d[a].1.target_peer_id by {
                    assert(d[a] == sessions[a]);
                }
            }
            assert forall|a: int| 0 <= a < l.len() implies (#[trigger] l[a]).1.source_peer_id != l[a].1.target_peer_id by {
                let k = choose|k: int| 0 <= k < sessions.len() && sessions[k] == l[a];
            }
        }
        if session_ids_unique(sessions) {
            assert(session_ids_unique(d)) by {
                assert forall|a: int, b: int| 0 <= a < d.len() && 0 <= b < d.len() && a != b implies (#[trigger] d[a]).0 != (#[trigger] d[b]).0 by {
                    assert(d[a] == sessions[a] && d[b] == sessions[b]);
                }
            }
            if sessions.last().1.expires_at > now {
                assert forall|a: int, b: int| 0 <= a < l.len() && 0 <= b < l.len() && a != b implies (#[trigger] l[a]).0 != (#[trigger] l[b]).0 by {
                    if a == l.len() - 1 {
                        let k = choose|k: int| 0 <= k < d.len() && d[k] == ld[b];
                        assert(sessions[k] == d[k]);
                        assert(l[b] == ld[b]);
                    } else if b == l.len() - 1 {
                        let k = choose|k: int| 0 <= k < d.len() && d[k] == ld[a];
                        assert(sessions[k] == d[k]);
                        assert(l[a] == ld[a]);
                    } else {
                        assert(l[a] == ld[a] && l[b] == ld[b]);
                    }
                }
            }
        }
    }
}

proof fn lemma_unfinished(sessions: Seq<(u128, SessionView)>)
    ensures
        forall|j: int| 0 <= j < unfinished(sessions).len() ==> !session_finished((#[trigger] unfinished(sessions)[j]).1)
            && exists|k: int| 0 <= k < sessions.len() && sessions[k] == unfinished(sessions)[j],
    decreases sessions.len(),
{
    if sessions.len() > 0 {
        let d = sessions.drop_last();
        lemma_unfinished(d);
        let l = unfinished(sessions);
        let ld = unfinished(d);
        assert forall|j: int| 0 <= j < l.len() implies !session_finished((#[trigger] l[j]).1)
            && exists|k: int| 0 <= k < sessions.len() && sessions[k] == l[j] by {
            if j < ld.len() {
                assert(l[j] == ld[j]);
                let k = choose|k: int| 0 <= k < d.len() && d[k] == ld[j];
                assert(sessions[k] == d[k]);
            } else {
                assert(sessions[sessions.len() - 1] == l[j]);
            }
        }
    }
}

proof fn lemma_prune_wf(v: HubView, now: u64)
    requires
        hub_wf(v),
    ensures
        hub_wf(prune_spec(v, now)),
{
    lemma_live_peers(v.peers, now);
    lemma_live_sessions(v.sessions, now);
}

// ---------------------------------------------------------------------------
// Registration, heartbeat and lookup
// ---------------------------------------------------------------------------

proof fn lemma_lookup_finds(peers: Seq<PresenceView>, p: PresenceView, k: int, now: u64)
    requires
        peer_ids_unique(peers),
        0 <= k < peers.len(),
        peers[k] == p,
        p.expires_at > now,
    ensures
        has_peer(live_peers(peers, now), p.peer_id),
        peer_of(live_peers(peers, now), p.peer_id) == p,
{
    lemma_live_peers(peers, now);
    let l = live_peers(peers, now);
    let j = choose|j: int| 0 <= j < l.len() && l[j] == peers[k];
    assert(l[j].peer_id == p.peer_id);
    let i = peer_index(l, p.peer_id);
    assert(0 <= i < l.len() && l[i].peer_id == p.peer_id);
}

proof fn lemma_upsert_places(peers: Seq<PresenceView>, p: PresenceView)
    requires
        peer_ids_unique(peers),
    ensures
        peer_ids_unique(upsert_peer(peers, p)),
        exists|k: int| 0 <= k < upsert_peer(peers, p).len() && upsert_peer(peers, p)[k] == p,
{
    let q = upsert_peer(peers, p);
    if has_peer(peers, p.peer_id) {
        let k = peer_index(peers, p.peer_id);
        assert(q[k] == p);
        assert forall|i: int, j: int| 0 <= i < q.len() && 0 <= j < q.len() && i != j implies (#[trigger] q[i]).peer_id != (#[trigger] q[j]).peer_id by {
            if i == k {
                assert(peers[j].peer_id != peers[k].peer_id);
            } else if j == k {
                assert(peers[i].peer_id != peers[k].peer_id);
            }
        }
    } else {
        assert(q[peers.len() as int] == p);
        assert forall|i: int, j: int| 0 <= i < q.len() && 0 <= j < q.len() && i != j implies (#[trigger] q[i]).peer_id != (#[trigger] q[j]).peer_id by {
            if i == peers.len() {
                assert(peers[j].peer_id != p.peer_id);
            } else if j == peers.len() {
                assert(peers[i].peer_id != p.peer_id);
            }
        }
    }
}

/// A lookup made before a registration's lease runs out finds the peer as
/// registered.
pub proof fn law_lookup_after_register(
    v: HubView,
    request: RegisterView,
    observed: Option<(Seq<char>, IpAddressFacts)>,
    registered_at: u64,
    looked_up_at: u64,
)
    requires
        hub_wf(v),
        looked_up_at < sat_add(registered_at as int, v.lease as int),
    ensures
        lookup_spec(
            HubView { peers: upsert_peer(v.peers, registered_presence(v, request, observed, registered_at)), ..v },
            request.peer_id,
            looked_up_at,
        ) == Some(registered_presence(v, request, observed, registered_at)),
{
    let p = registered_presence(v, request, observed, registered_at);
    lemma_upsert_places(v.peers, p);
    let q = upsert_peer(v.peers, p);
    let k = choose|k: int| 0 <= k < q.len() && q[k] == p;
    lemma_lookup_finds(q, p, k, looked_up_at);
}

/// A lookup made before the lease that a heartbeat restarted runs out finds
/// the peer, with the new lease.
pub proof fn law_lookup_after_heartbeat(v: HubView, id: Seq<char>, beat_at: u64, looked_up_at: u64)
    requires
        hub_wf(v),
        has_peer(v.peers, id),
        looked_up_at < sat_add(beat_at as int, v.lease as int),
    ensures
        heartbeat_spec(v, id, beat_at).1 == Some(refreshed(peer_of(v.peers, id), beat_at, v.lease)),
        lookup_spec(heartbeat_spec(v, id, beat_at).0, id, looked_up_at) == Some(
            refreshed(peer_of(v.peers, id), beat_at, v.lease),
        ),
{
    let p = refreshed(peer_of(v.peers, id), beat_at, v.lease);
    let i = peer_index(v.peers, id);
    assert(v.peers[i].peer_id == id);
    assert(p.peer_id == id);
    lemma_upsert_places(v.peers, p);
    let q = upsert_peer(v.peers, p);
    let k = choose|k: int| 0 <= k < q.len() && q[k] == p;
    lemma_lookup_finds(q, p, k, looked_up_at);
}

/// A lookup only ever finds a peer with the identifier asked for whose lease
/// has not run out.
pub proof fn law_lookup_finds_only_live_peers(v: HubView, id: Seq<char>, now: u64)
    ensures
        lookup_spec(v, id, now) matches Some(p) ==> p.peer_id == id && p.expires_at > now,
{
    lemma_live_peers(v.peers, now);
    let l = live_peers(v.peers, now);
    if has_peer(l, id) {
        let i = peer_index(l, id);
        assert(0 <= i < l.len() && l[i].peer_id == id);
    }
}

// ---------------------------------------------------------------------------
// Relay delivery
// ---------------------------------------------------------------------------

/// Nothing is queued for `peer` in session `s`.
pub open spec fn nothing_pending_for(s: SessionView, peer: Seq<char>) -> bool {
    &&& peer == s.source_peer_id ==> s.pending_for_source.len() == 0
    &&& peer != s.source_peer_id && peer == s.target_peer_id ==> s.pending_for_target.len() == 0
}

proof fn lemma_poll_all_takes(sessions: Seq<(u128, SessionView)>, peer: Seq<char>, now: u64, timeout: u64, k: int, m: RelayEnvelopeView)
    requires
        0 <= k < sessions.len(),
        poll_session(sessions[k].1, peer, now, timeout).1.contains(m),
    ensures
        poll_all(sessions, peer, now, timeout).1.contains(m),
    decreases sessions.len(),
{
    let d = sessions.drop_last();
    let last_taken = poll_session(sessions.last().1, peer, now, timeout).1;
    let rest_taken = poll_all(d, peer, now, timeout).1;
    if k < sessions.len() - 1 {
        assert(d[k] == sessions[k]);
        lemma_poll_all_takes(d, peer, now, timeout, k, m);
        let i = choose|i: int| 0 <= i < rest_taken.len() && rest_taken[i] == m;
        assert((rest_taken + last_taken)[i] == m);
    } else {
        let i = choose|i: int| 0 <= i < last_taken.len() && last_taken[i] == m;
        assert((rest_taken + last_taken)[rest_taken.len() + i] == m);
    }
}

proof fn lemma_poll_all_drains(sessions: Seq<(u128, SessionView)>, peer: Seq<char>, now: u64, timeout: u64)
    ensures
        forall|j: int| 0 <= j < poll_all(sessions, peer, now, timeout).0.len() ==> nothing_pending_for(
            (#[trigger] poll_all(sessions, peer, now, timeout).0[j]).1,
            peer,
        ),
        poll_all(sessions, peer, now, timeout).0.len() == sessions.len(),
    decreases sessions.len(),
{
    if sessions.len() > 0 {
        lemma_poll_all_drains(sessions.drop_last(), peer, now, timeout);
        let q = poll_all(sessions, peer, now, timeout).0;
        let qd = poll_all(sessions.drop_last(), peer, now, timeout).0;
        assert forall|j: int| 0 <= j < q.len() implies nothing_pending_for((#[trigger] q[j]).1, peer) by {
            if j < q.len() - 1 {
                assert(q[j] == qd[j]);
            }
        }
    }
}

proof fn lemma_poll_all_nothing(sessions: Seq<(u128, SessionView)>, peer: Seq<char>, now: u64, timeout: u64)
    requires
        forall|j: int| 0 <= j < sessions.len() ==> nothing_pending_for((#[trigger] sessions[j]).1, peer),
    ensures
        poll_all(sessions, peer, now, timeout).1 == Seq::<RelayEnvelopeView>::empty(),
    decreases sessions.len(),
{
    if sessions.len() > 0 {
        let d = sessions.drop_last();
        assert forall|j: int| 0 <= j < d.len() implies nothing_pending_for((#[trigger] d[j]).1, peer) by {
            assert(d[j] == sessions[j]);
        }
        lemma_poll_all_nothing(d, peer, now, timeout);
        assert(nothing_pending_for(sessions[sessions.len() - 1].1, peer));
        assert(poll_session(sessions.last().1, peer, now, timeout).1 =~= Seq::<RelayEnvelopeView>::empty());
        assert(Seq::<RelayEnvelopeView>::empty() + Seq::<RelayEnvelopeView>::empty() =~= Seq::<RelayEnvelopeView>::empty());
    }
}

/// A message that the hub accepts for relaying is handed to its recipient
/// by the recipient's next poll, made before the session times out.
pub proof fn law_relayed_message_reaches_recipient(
    v: HubView,
    id: u128,
    peer: Seq<char>,
    payload: ChatMessageView,
    sent_at: u64,
    unix_sent_at: u64,
    polled_at: u64,
)
    requires
        hub_wf(v),
        relay_send_spec(v, id, peer, payload, sent_at, unix_sent_at).1 is Ok,
        polled_at < sat_add(sent_at as int, v.timeout as int),
    ensures
        poll_spec(
            relay_send_spec(v, id, peer, payload, sent_at, unix_sent_at).0,
            relay_send_spec(v, id, peer, payload, sent_at, unix_sent_at).1->Ok_0.recipient_peer_id,
            polled_at,
        ).1.contains(relayed(id, payload, unix_sent_at)),
{
    let p = prune_spec(v, sent_at);
    lemma_prune_wf(v, sent_at);
    let k = session_index(p.sessions, id);
    assert(0 <= k < p.sessions.len() && p.sessions[k].0 == id);
    let s = session_of(p.sessions, id);
    let m = relayed(id, payload, unix_sent_at);
    let (v1, r) = relay_send_spec(v, id, peer, payload, sent_at, unix_sent_at);
    let recipient = r->Ok_0.recipient_peer_id;
    assert(v1.sessions == p.sessions.update(k, (id, v1.sessions[k].1)));
    let s2 = v1.sessions[k].1;
    assert(s2.expires_at == sat_add(sent_at as int, v.timeout as int));
    assert(s.source_peer_id != s.target_peer_id);
    // The session survives the poll's pruning.
    lemma_live_sessions(v1.sessions, polled_at);
    let l = live_sessions(v1.sessions, polled_at);
    let j = choose|j: int| 0 <= j < l.len() && l[j] == v1.sessions[k];
    let taken = poll_session(s2, recipient, polled_at, v1.timeout).1;
    if peer == s.source_peer_id {
        assert(s2.pending_for_target == s.pending_for_target.push(m));
        assert(taken == s2.pending_for_target);
        assert(taken[taken.len() - 1] == m);
    } else {
        assert(s2.pending_for_source == s.pending_for_source.push(m));
        assert(taken == s2.pending_for_source);
        assert(taken[taken.len() - 1] == m);
    }
    assert(taken.contains(m));
    assert(l[j].1 == s2);
    lemma_poll_all_takes(l, recipient, polled_at, v1.timeout, j, m);
}

/// Polling twice hands out nothing the second time: the first poll takes
/// everything queued for the peer.
pub proof fn law_second_poll_is_empty(v: HubView, peer: Seq<char>, first_at: u64, second_at: u64)
    ensures
        poll_spec(poll_spec(v, peer, first_at).0, peer, second_at).1 == Seq::<RelayEnvelopeView>::empty(),
{
    let p = prune_spec(v, first_at);
    let polled = poll_all(p.sessions, peer, first_at, p.timeout).0;
    lemma_poll_all_drains(p.sessions, peer, first_at, p.timeout);
    lemma_unfinished(polled);
    let u = unfinished(polled);
    assert forall|j: int| 0 <= j < u.len() implies nothing_pending_for((#[trigger] u[j]).1, peer) by {
        let k = choose|k: int| 0 <= k < polled.len() && polled[k] == u[j];
        assert(nothing_pending_for(polled[k].1, peer));
    }
    let v2 = poll_spec(v, peer, first_at).0;
    lemma_live_sessions(v2.sessions, second_at);
    let l = live_sessions(v2.sessions, second_at);
    assert forall|j: int| 0 <= j < l.len() implies nothing_pending_for((#[trigger] l[j]).1, peer) by {
        let k = choose|k: int| 0 <= k < v2.sessions.len() && v2.sessions[k] == l[j];
        assert(nothing_pending_for(u[k].1, peer));
    }
    lemma_poll_all_nothing(l, peer, second_at, v2.timeout);
}

/// After a poll no session that has served its purpose remains open.
pub proof fn law_poll_closes_finished_sessions(v: HubView, peer: Seq<char>, now: u64)
    ensures
        forall|j: int| 0 <= j < poll_spec(v, peer, now).0.sessions.len() ==> !session_finished(
            (#[trigger] poll_spec(v, peer, now).0.sessions[j]).1,
        ),
{
    let p = prune_spec(v, now);
    lemma_unfinished(poll_all(p.sessions, peer, now, p.timeout).0);
}

// ---------------------------------------------------------------------------
// Direct candidates
// ---------------------------------------------------------------------------

proof fn lemma_scoped_tcp(s: Seq<AddressView>, scope: crate::model::ReachabilityScopeModel)
    ensures
        forall|j: int| 0 <= j < scoped_tcp(s, scope).len() ==> is_tcp_with_scope((#[trigger] scoped_tcp(s, scope)[j]), scope)
            && s.contains(scoped_tcp(s, scope)[j]),
    decreases s.len(),
{
    if s.len() > 0 {
        let d = s.drop_last();
        lemma_scoped_tcp(d, scope);
        let l = scoped_tcp(s, scope);
        let ld = scoped_tcp(d, scope);
        assert forall|j: int| 0 <= j < l.len() implies is_tcp_with_scope((#[trigger] l[j]), scope) && s.contains(l[j]) by {
            if j < ld.len() {
                assert(l[j] == ld[j]);
                let k = choose|k: int| 0 <= k < d.len() && d[k] == ld[j];
                assert(s[k] == d[k]);
            } else {
                assert(s[s.len() - 1] == l[j]);
            }
        }
    }
}

proof fn lemma_hinted_lan_tcp(s: Seq<AddressView>, hints: Seq<Seq<char>>)
    ensures
        forall|j: int| 0 <= j < hinted_lan_tcp(s, hints).len() ==> is_tcp_with_scope(
            (#[trigger] hinted_lan_tcp(s, hints)[j]),
            crate::model::ReachabilityScopeModel::Lan,
        ) && s.contains(hinted_lan_tcp(s, hints)[j]),
    decreases s.len(),
{
    if s.len() > 0 {
        let d = s.drop_last();
        lemma_hinted_lan_tcp(d, hints);
        let l = hinted_lan_tcp(s, hints);
        let ld = hinted_lan_tcp(d, hints);
        assert forall|j: int| 0 <= j < l.len() implies is_tcp_with_scope((#[trigger] l[j]), crate::model::ReachabilityScopeModel::Lan) && s.contains(l[j]) by {
            if j < ld.len() {
                assert(l[j] == ld[j]);
                let k = choose|k: int| 0 <= k < d.len() && d[k] == ld[j];
                assert(s[k] == d[k]);
            } else {
                assert(s[s.len() - 1] == l[j]);
            }
        }
    }
}

/// Removing repeated base URLs keeps the first address of each base URL:
/// what remains has distinct base URLs, comes from the input, and every
/// base URL of the input is still there.
pub proof fn law_dedupe(s: Seq<AddressView>)
    ensures
        forall|a: int, b: int| 0 <= a < dedupe_spec(s).len() && 0 <= b < dedupe_spec(s).len() && a != b
            ==> (#[trigger] dedupe_spec(s)[a]).base_url != (#[trigger] dedupe_spec(s)[b]).base_url,
        forall|j: int| 0 <= j < dedupe_spec(s).len() ==> s.contains(#[trigger] dedupe_spec(s)[j]),
        forall|k: int| 0 <= k < s.len() ==> has_base_url(dedupe_spec(s), (#[trigger] s[k]).base_url),
        s.len() > 0 ==> dedupe_spec(s).len() > 0,
    decreases s.len(),
{
    if s.len() > 0 {
        let d = s.drop_last();
        law_dedupe(d);
        let l = dedupe_spec(s);
        let ld = dedupe_spec(d);
        assert forall|j: int| 0 <= j < l.len() implies s.contains(#[trigger] l[j]) by {
            if j < ld.len() {
                assert(l[j] == ld[j]);
                let k = choose|k: int| 0 <= k < d.len() && d[k] == ld[j];
                assert(s[k] == d[k]);
            } else {
                assert(s[s.len() - 1] == l[j]);
            }
        }
        assert forall|k: int| 0 <= k < s.len() implies has_base_url(l, (#[trigger] s[k]).base_url) by {
            if k < s.len() - 1 {
                assert(d[k] == s[k]);
                assert(has_base_url(ld, d[k].base_url));
                let i = choose|i: int| 0 <= i < ld.len() && (#[trigger] ld[i]).base_url == d[k].base_url;
                assert(l[i] == ld[i]);
            } else if has_base_url(ld, s.last().base_url) {
            } else {
                assert(l[l.len() - 1] == s.last());
            }
        }
        if !has_base_url(ld, s.last().base_url) {
            assert forall|a: int, b: int| 0 <= a < l.len() && 0 <= b < l.len() && a != b implies (#[trigger] l[a]).base_url != (#[trigger] l[b]).base_url by {
                if a == l.len() - 1 {
                    assert(l[b] == ld[b]);
                } else if b == l.len() - 1 {
                    assert(l[a] == ld[a]);
                } else {
                    assert(l[a] == ld[a] && l[b] == ld[b]);
                }
            }
        }
        if ld.len() == 0 {
            assert(!has_base_url(ld, s.last().base_url));
        }
    }
}

/// A direct path is only ever offered over TCP addresses that the target
/// itself advertises (never over addresses the hub observed), at least one,
/// with distinct base URLs.
pub proof fn law_direct_candidates_are_advertised_tcp(source: crate::model::ReachabilityView, target: crate::model::ReachabilityView)
    ensures
        select_direct_spec(source, target) matches Some((c, _)) ==> {
            &&& c.len() > 0
            &&& forall|j: int| 0 <= j < c.len() ==> (#[trigger] c[j]).transport_protocol == TransportProtocolEnum::DirectTcp
                && target.advertised_addresses.contains(c[j])
            &&& forall|a: int, b: int| 0 <= a < c.len() && 0 <= b < c.len() && a != b ==> (#[trigger] c[a]).base_url != (#[trigger] c[b]).base_url
        },
{
    let pub_c = scoped_tcp(target.advertised_addresses, crate::model::ReachabilityScopeModel::Public);
    let lan_c = hinted_lan_tcp(target.advertised_addresses, crate::peers::source_hints_spec(source));
    lemma_scoped_tcp(target.advertised_addresses, crate::model::ReachabilityScopeModel::Public);
    lemma_hinted_lan_tcp(target.advertised_addresses, crate::peers::source_hints_spec(source));
    law_dedupe(pub_c);
    law_dedupe(lan_c);
    if let Some((c, _)) = select_direct_spec(source, target) {
        if pub_c.len() > 0 && target.message_endpoint is Some {
            assert(c == dedupe_spec(pub_c));
            assert forall|j: int| 0 <= j < c.len() implies (#[trigger] c[j]).transport_protocol == TransportProtocolEnum::DirectTcp
                && target.advertised_addresses.contains(c[j]) by {
                let i = choose|i: int| 0 <= i < pub_c.len() && pub_c[i] == c[j];
                assert(target.advertised_addresses.contains(pub_c[i]));
                assert(is_tcp_with_scope(pub_c[i], crate::model::ReachabilityScopeModel::Public));
            }
        } else {
            assert(c == dedupe_spec(lan_c));
            assert forall|j: int| 0 <= j < c.len() implies (#[trigger] c[j]).transport_protocol == TransportProtocolEnum::DirectTcp
                && target.advertised_addresses.contains(c[j]) by {
                let i = choose|i: int| 0 <= i < lan_c.len() && lan_c[i] == c[j];
                assert(target.advertised_addresses.contains(lan_c[i]));
                assert(is_tcp_with_scope(lan_c[i], crate::model::ReachabilityScopeModel::Lan));
            }
        }
    }
}

/// Whether peer `r` advertises or was observed at an address with hint `h`.
pub open spec fn has_hint(r: crate::model::ReachabilityView, h: Seq<char>) -> bool {
    ||| exists|j: int| 0 <= j < r.advertised_addresses.len() && (#[trigger] r.advertised_addresses[j]).address_hint == h
    ||| exists|j: int| 0 <= j < r.observed_addresses.len() && (#[trigger] r.observed_addresses[j]).address_hint == h
}

/// Whether `a` is a local-network TCP address.
pub open spec fn is_lan_tcp(a: AddressView) -> bool {
    a.transport_protocol == TransportProtocolEnum::DirectTcp && a.scope == crate::model::ReachabilityScopeModel::Lan
}

proof fn lemma_source_hints(r: crate::model::ReachabilityView, h: Seq<char>)
    ensures
        crate::peers::source_hints_spec(r).contains(h) <==> has_hint(r, h),
{
    let all = r.advertised_addresses + r.observed_addresses;
    let hs = crate::peers::source_hints_spec(r);
    assert(hs.len() == all.len());
    if hs.contains(h) {
        let i = choose|i: int| 0 <= i < hs.len() && hs[i] == h;
        assert(hs[i] == all[i].address_hint);
        if i < r.advertised_addresses.len() {
            assert(all[i] == r.advertised_addresses[i]);
        } else {
            assert(all[i] == r.observed_addresses[i - r.advertised_addresses.len()]);
        }
    }
    if has_hint(r, h) {
        if exists|j: int| 0 <= j < r.advertised_addresses.len() && (#[trigger] r.advertised_addresses[j]).address_hint == h {
            let j = choose|j: int| 0 <= j < r.advertised_addresses.len() && (#[trigger] r.advertised_addresses[j]).address_hint == h;
            assert(all[j] == r.advertised_addresses[j]);
            assert(hs[j] == h);
        } else {
            let j = choose|j: int| 0 <= j < r.observed_addresses.len() && (#[trigger] r.observed_addresses[j]).address_hint == h;
            let i = j + r.advertised_addresses.len();
            assert(all[i] == r.observed_addresses[j]);
            assert(hs[i] == h);
        }
    }
}

proof fn lemma_hinted_lan_tcp_exact(s: Seq<AddressView>, hints: Seq<Seq<char>>)
    ensures
        forall|j: int| 0 <= j < hinted_lan_tcp(s, hints).len() ==> hints.contains(
            (#[trigger] hinted_lan_tcp(s, hints)[j]).address_hint,
        ),
        forall|k: int| 0 <= k < s.len() && is_lan_tcp(#[trigger] s[k]) && hints.contains(s[k].address_hint)
            ==> hinted_lan_tcp(s, hints).contains(s[k]),
    decreases s.len(),
{
    if s.len() > 0 {
        let d = s.drop_last();
        lemma_hinted_lan_tcp_exact(d, hints);
        let l = hinted_lan_tcp(s, hints);
        let ld = hinted_lan_tcp(d, hints);
        assert forall|j: int| 0 <= j < l.len() implies hints.contains((#[trigger] l[j]).address_hint) by {
            if j < ld.len() {
                assert(l[j] == ld[j]);
            }
        }
        assert forall|k: int| 0 <= k < s.len() && is_lan_tcp(#[trigger] s[k]) && hints.contains(s[k].address_hint)
            implies l.contains(s[k]) by {
            if k < s.len() - 1 {
                assert(d[k] == s[k]);
                let j = choose|j: int| 0 <= j < ld.len() && ld[j] == d[k];
                assert(l[j] == ld[j]);
            } else {
                assert(l[l.len() - 1] == s[k]);
            }
        }
    }
}

/// When the target has no public TCP address but advertises a
/// local-network TCP address whose hint the source also has, and neither
/// peer is relay-only or behind a symmetric NAT and the target has a
/// message endpoint, the hub offers a direct path over exactly those
/// addresses: each such address's base URL once, and nothing else.
pub proof fn law_same_network_is_direct(source: crate::model::ReachabilityView, target: crate::model::ReachabilityView)
    requires
        source.mode != crate::model::DirectReachabilityModeModel::RelayOnly,
        target.mode != crate::model::DirectReachabilityModeModel::RelayOnly,
        source.nat_behavior != crate::model::NatBehaviorModel::Symmetric,
        target.nat_behavior != crate::model::NatBehaviorModel::Symmetric,
        target.message_endpoint is Some,
        forall|k: int| 0 <= k < target.advertised_addresses.len() ==> !((#[trigger] target.advertised_addresses[k]).transport_protocol
            == TransportProtocolEnum::DirectTcp && target.advertised_addresses[k].scope == crate::model::ReachabilityScopeModel::Public),
        exists|k: int| 0 <= k < target.advertised_addresses.len() && is_lan_tcp(#[trigger] target.advertised_addresses[k])
            && has_hint(source, target.advertised_addresses[k].address_hint),
    ensures
        select_direct_spec(source, target) matches Some((c, reason)) && {
            &&& reason == "peers appear to share the same local network reachability hint"@
            &&& forall|j: int| 0 <= j < c.len() ==> is_lan_tcp(#[trigger] c[j]) && target.advertised_addresses.contains(c[j])
                && has_hint(source, c[j].address_hint)
            &&& forall|k: int| 0 <= k < target.advertised_addresses.len() && is_lan_tcp(#[trigger] target.advertised_addresses[k])
                && has_hint(source, target.advertised_addresses[k].address_hint) ==> has_base_url(c, target.advertised_addresses[k].base_url)
            &&& forall|a: int, b: int| 0 <= a < c.len() && 0 <= b < c.len() && a != b ==> (#[trigger] c[a]).base_url != (#[trigger] c[b]).base_url
        },
{
    let adv = target.advertised_addresses;
    let hints = crate::peers::source_hints_spec(source);
    let pub_c = scoped_tcp(adv, crate::model::ReachabilityScopeModel::Public);
    let lan_c = hinted_lan_tcp(adv, hints);
    lemma_scoped_tcp(adv, crate::model::ReachabilityScopeModel::Public);
    if pub_c.len() > 0 {
        let k = choose|k: int| 0 <= k < adv.len() && adv[k] == pub_c[0];
        assert(is_tcp_with_scope(pub_c[0], crate::model::ReachabilityScopeModel::Public));
    }
    assert(pub_c.len() == 0);
    lemma_hinted_lan_tcp(adv, hints);
    lemma_hinted_lan_tcp_exact(adv, hints);
    assert forall|h: Seq<char>| #[trigger] hints.contains(h) <==> has_hint(source, h) by {
        lemma_source_hints(source, h);
    }
    let k0 = choose|k: int| 0 <= k < adv.len() && is_lan_tcp(#[trigger] adv[k]) && has_hint(source, adv[k].address_hint);
    assert(hints.contains(adv[k0].address_hint));
    assert(lan_c.contains(adv[k0]));
    assert(lan_c.len() > 0);
    law_dedupe(lan_c);
    let c = dedupe_spec(lan_c);
    assert(select_direct_spec(source, target) == Some((c, crate::peers::same_network_reason())));
    assert forall|j: int| 0 <= j < c.len() implies is_lan_tcp(#[trigger] c[j]) && adv.contains(c[j]) && has_hint(
        source,
        c[j].address_hint,
    ) by {
        let i = choose|i: int| 0 <= i < lan_c.len() && lan_c[i] == c[j];
        assert(is_tcp_with_scope(lan_c[i], crate::model::ReachabilityScopeModel::Lan));
        assert(hints.contains(lan_c[i].address_hint));
    }
    assert forall|k: int| 0 <= k < adv.len() && is_lan_tcp(#[trigger] adv[k]) && has_hint(source, adv[k].address_hint)
        implies has_base_url(c, adv[k].base_url) by {
        assert(hints.contains(adv[k].address_hint));
        let i = choose|i: int| 0 <= i < lan_c.len() && lan_c[i] == adv[k];
        assert(has_base_url(c, lan_c[i].base_url));
    }
}

// ---------------------------------------------------------------------------
// Relay decisions and attaching
// ---------------------------------------------------------------------------

proof fn lemma_upsert_session_places(sessions: Seq<(u128, SessionView)>, id: u128, s: SessionView)
    requires
        session_ids_unique(sessions),
    ensures
        session_ids_unique(upsert_session(sessions, id, s)),
        exists|k: int| 0 <= k < upsert_session(sessions, id, s).len() && upsert_session(sessions, id, s)[k] == (id, s),
{
    let q = upsert_session(sessions, id, s);
    if has_session(sessions, id) {
        let k = session_index(sessions, id);
        assert(q[k] == (id, s));
        assert forall|i: int, j: int| 0 <= i < q.len() && 0 <= j < q.len() && i != j implies (#[trigger] q[i]).0 != (#[trigger] q[j]).0 by {
            if i == k {
                assert(sessions[j].0 != sessions[k].0);
            } else if j == k {
                assert(sessions[i].0 != sessions[k].0);
            }
        }
    } else {
        assert(q[sessions.len() as int] == (id, s));
        assert forall|i: int, j: int| 0 <= i < q.len() && 0 <= j < q.len() && i != j implies (#[trigger] q[i]).0 != (#[trigger] q[j]).0 by {
            if i == sessions.len() {
                assert(sessions[j].0 != id);
            } else if j == sessions.len() {
                assert(sessions[i].0 != id);
            }
        }
    }
}

/// When the hub decides that two peers are to relay, each of them can
/// attach to the session it opened until the session times out, and is
/// told the other peer as its counterpart.
pub proof fn law_relay_decision_is_attachable(
    v: HubView,
    source: Seq<char>,
    target: Seq<char>,
    prefer_direct: bool,
    now: u64,
    unix_now: u64,
    id: u128,
    peer: Seq<char>,
    later: u64,
    unix_later: u64,
)
    requires
        hub_wf(v),
        connect_spec(v, source, target, prefer_direct, now, unix_now, id).1 matches Ok(d) && d is Relay,
        peer == source || peer == target,
        later < sat_add(now as int, v.timeout as int),
    ensures
        attach_spec(connect_spec(v, source, target, prefer_direct, now, unix_now, id).0, id, peer, later, unix_later).1 matches Ok(
            a,
        ) && a.counterpart_peer_id == (if peer == source {
            target
        } else {
            source
        }),
{
    let p = prune_spec(v, now);
    lemma_prune_wf(v, now);
    let ns = new_session(source, target, now, p.timeout);
    let v1 = connect_spec(v, source, target, prefer_direct, now, unix_now, id).0;
    assert(source != target);
    assert(v1.sessions == upsert_session(p.sessions, id, ns));
    lemma_upsert_session_places(p.sessions, id, ns);
    let q = v1.sessions;
    let k = choose|k: int| 0 <= k < q.len() && q[k] == (id, ns);
    assert(q[k].1.expires_at > later);
    lemma_live_sessions(q, later);
    let l = live_sessions(q, later);
    let j = choose|j: int| 0 <= j < l.len() && l[j] == q[k];
    assert(has_session(l, id));
    let i = session_index(l, id);
    assert(0 <= i < l.len() && l[i].0 == id);
    assert(i == j);
    assert(session_of(l, id) == ns);
    assert(prune_spec(v1, later).sessions == l);
}

// ---------------------------------------------------------------------------
// Which sessions a poll closes
// ---------------------------------------------------------------------------

proof fn lemma_poll_all_entries(sessions: Seq<(u128, SessionView)>, peer: Seq<char>, now: u64, timeout: u64)
    ensures
        poll_all(sessions, peer, now, timeout).0.len() == sessions.len(),
        forall|j: int| 0 <= j < sessions.len() ==> (#[trigger] poll_all(sessions, peer, now, timeout).0[j]) == (
            sessions[j].0,
            poll_session(sessions[j].1, peer, now, timeout).0,
        ),
    decreases sessions.len(),
{
    if sessions.len() > 0 {
        let d = sessions.drop_last();
        lemma_poll_all_entries(d, peer, now, timeout);
        let q = poll_all(sessions, peer, now, timeout).0;
        let qd = poll_all(d, peer, now, timeout).0;
        assert forall|j: int| 0 <= j < sessions.len() implies (#[trigger] q[j]) == (
            sessions[j].0,
            poll_session(sessions[j].1, peer, now, timeout).0,
        ) by {
            if j < sessions.len() - 1 {
                assert(q[j] == qd[j]);
                assert(d[j] == sessions[j]);
            }
        }
    }
}

proof fn lemma_unfinished_keeps(sessions: Seq<(u128, SessionView)>)
    ensures
        forall|k: int| 0 <= k < sessions.len() && !session_finished((#[trigger] sessions[k]).1) ==> unfinished(
            sessions,
        ).contains(sessions[k]),
        session_ids_unique(sessions) ==> session_ids_unique(unfinished(sessions)),
    decreases sessions.len(),
{
    if sessions.len() > 0 {
        let d = sessions.drop_last();
        lemma_unfinished_keeps(d);
        lemma_unfinished(d);
        let l = unfinished(sessions);
        let ld = unfinished(d);
        assert forall|k: int| 0 <= k < sessions.len() && !session_finished((#[trigger] sessions[k]).1) implies l.contains(
            sessions[k],
        ) by {
            if k < sessions.len() - 1 {
                assert(d[k] == sessions[k]);
                let j = choose|j: int| 0 <= j < ld.len() && ld[j] == d[k];
                assert(l[j] == ld[j]);
            } else {
                assert(l[l.len() - 1] == sessions[k]);
            }
        }
        if session_ids_unique(sessions) {
            assert(session_ids_unique(d)) by {
                assert forall|a: int, b: int| 0 <= a < d.len() && 0 <= b < d.len() && a != b implies (#[trigger] d[a]).0
                    != (#[trigger] d[b]).0 by {
                    assert(d[a] == sessions[a] && d[b] == sessions[b]);
                }
            }
            if !session_finished(sessions.last().1) {
                assert forall|a: int, b: int| 0 <= a < l.len() && 0 <= b < l.len() && a != b implies (#[trigger] l[a]).0
                    != (#[trigger] l[b]).0 by {
                    if a == l.len() - 1 {
                        let k = choose|k: int| 0 <= k < d.len() && d[k] == ld[b];
                        assert(sessions[k] == d[k]);
                        assert(l[b] == ld[b]);
                    } else if b == l.len() - 1 {
                        let k = choose|k: int| 0 <= k < d.len() && d[k] == ld[a];
                        assert(sessions[k] == d[k]);
                        assert(l[a] == ld[a]);
                    } else {
                        assert(l[a] == ld[a] && l[b] == ld[b]);
                    }
                }
            }
        }
    }
}

/// A poll closes a relay session only once both of its peers have attached
/// and nothing is queued for either: every session that is still live when
/// `peer` polls stays open, as the poll leaves it, unless by then both sides
/// are attached and both queues are empty.
pub proof fn law_poll_closes_only_served_sessions(v: HubView, peer: Seq<char>, now: u64, id: u128, s: SessionView)
    requires
        v.sessions.contains((id, s)),
        s.expires_at > now,
    ensures
        ({
            let t = poll_session(s, peer, now, v.timeout).0;
            ||| t.source_attached && t.target_attached && t.pending_for_source.len() == 0 && t.pending_for_target.len()
                == 0
            ||| poll_spec(v, peer, now).0.sessions.contains((id, t))
        }),
{
    let p = prune_spec(v, now);
    let k = choose|k: int| 0 <= k < v.sessions.len() && v.sessions[k] == (id, s);
    lemma_live_sessions(v.sessions, now);
    let j = choose|j: int| 0 <= j < p.sessions.len() && p.sessions[j] == v.sessions[k];
    lemma_poll_all_entries(p.sessions, peer, now, p.timeout);
    let q = poll_all(p.sessions, peer, now, p.timeout).0;
    lemma_unfinished_keeps(q);
    assert(q[j] == (id, poll_session(s, peer, now, v.timeout).0));
}

/// A relay session that one of its peers has not attached, with nothing
/// queued for that peer, survives any poll made before it times out, with
/// the same peers attached; and its source can still hand it a message
/// for the target at the time of the poll.
pub proof fn law_half_attached_session_survives_poll(
    v: HubView,
    peer: Seq<char>,
    now: u64,
    id: u128,
    payload: ChatMessageView,
    unix_now: u64,
)
    requires
        hub_wf(v),
        v.timeout > 0,
        has_session(v.sessions, id),
        session_of(v.sessions, id).expires_at > now,
        !(session_of(v.sessions, id).source_attached && session_of(v.sessions, id).target_attached),
        !session_of(v.sessions, id).source_attached ==> session_of(v.sessions, id).pending_for_source.len() == 0,
        !session_of(v.sessions, id).target_attached ==> session_of(v.sessions, id).pending_for_target.len() == 0,
        payload.from_peer_id == session_of(v.sessions, id).source_peer_id,
        payload.to_peer_id == session_of(v.sessions, id).target_peer_id,
    ensures
        has_session(poll_spec(v, peer, now).0.sessions, id),
        session_of(poll_spec(v, peer, now).0.sessions, id).source_attached == session_of(v.sessions, id).source_attached,
        session_of(poll_spec(v, peer, now).0.sessions, id).target_attached == session_of(v.sessions, id).target_attached,
        relay_send_spec(
            poll_spec(v, peer, now).0,
            id,
            session_of(v.sessions, id).source_peer_id,
            payload,
            now,
            unix_now,
        ).1 is Ok,
{
    let s = session_of(v.sessions, id);
    let k = session_index(v.sessions, id);
    assert(v.sessions[k] == (id, s));
    let t = poll_session(s, peer, now, v.timeout).0;
    assert(t.source_attached == s.source_attached && t.target_attached == s.target_attached);
    assert(t.expires_at > now);
    assert(t.source_peer_id == s.source_peer_id && t.target_peer_id == s.target_peer_id);
    law_poll_closes_only_served_sessions(v, peer, now, id, s);
    let p = prune_spec(v, now);
    lemma_prune_wf(v, now);
    lemma_poll_all_entries(p.sessions, peer, now, p.timeout);
    let q = poll_all(p.sessions, peer, now, p.timeout).0;
    assert(session_ids_unique(q)) by {
        assert forall|a: int, b: int| 0 <= a < q.len() && 0 <= b < q.len() && a != b implies (#[trigger] q[a]).0
            != (#[trigger] q[b]).0 by {
            assert(q[a].0 == p.sessions[a].0 && q[b].0 == p.sessions[b].0);
        }
    }
    lemma_unfinished_keeps(q);
    let v2 = poll_spec(v, peer, now).0;
    assert(v2.sessions == unfinished(q));
    let i = choose|i: int| 0 <= i < v2.sessions.len() && v2.sessions[i] == (id, t);
    assert(has_session(v2.sessions, id));
    let i2 = session_index(v2.sessions, id);
    assert(i2 == i);
    assert(session_of(v2.sessions, id) == t);
    lemma_live_sessions(v2.sessions, now);
    let l = live_sessions(v2.sessions, now);
    let j = choose|j: int| 0 <= j < l.len() && l[j] == v2.sessions[i];
    assert(has_session(l, id));
    let j2 = session_index(l, id);
    assert(j2 == j);
    assert(session_of(l, id) == t);
    assert(prune_spec(v2, now).sessions == l);
}

} // verus!
