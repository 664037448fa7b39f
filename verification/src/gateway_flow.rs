//! The decisions a running gateway takes between its calls to the hub and
//! to other peers: what it records about each call's outcome, and, for
//! sending a message, what it does next. The calls themselves are made by
//! whoever drives these functions.
use crate::gateway::{
    CommunicationModeEnum, join_url, join_url_spec, DEFAULT_MESSAGE_ENDPOINT, GatewayProfile, GatewayRuntimeConfig, mode_name, nat_behavior_from_probes,
    nat_behavior_label, nat_label, peer_reachability_for, peer_reachability_spec, reachability_scope_for_ip,
    scope_for_host_spec, scope_for_ip_spec,
};
use crate::peers::IpAddressFacts;
use crate::gateway_state::{
    GatewayRuntimeState, GatewayStateView, InboxEntryModel, InboxEntryView, UiEventModel, received_summary,
    remembered_spec, with_error, with_event,
};
use crate::ids::{uuid_string, uuid_text};
use crate::model::{
    AddressView, NatBehaviorModel, ReachabilityAddressModel, ReachabilityConfidenceModel,
    ReachabilitySourceModel, TransportProtocolEnum, addresses_view, duplicate_opt_string, opt_str_view, ChatMessageEnvelopeModel, ChatMessageView, ConnectDecisionModel, DecisionView,
    PeerLookupResponseModel, RegisterPeerResponseModel, };
use crate::text::{concat, concat3, concat5, decimal, push_decimal, push_str, string_of};
use vstd::prelude::*;

verus! {

// ---------------------------------------------------------------------------
// Event messages
// ---------------------------------------------------------------------------

/// The message of a `connect_started` event.
pub open spec fn connect_started_message(mode: CommunicationModeEnum, target: Seq<char>) -> Seq<char> {
    "Requesting "@ + mode_name(mode) + " connect decision for "@ + target + "."@
}

/// The base URL of the first direct candidate, or `<missing>`.
pub open spec fn first_candidate_url(c: Seq<AddressView>) -> Seq<char> {
    if c.len() > 0 {
        c[0].base_url
    } else {
        "<missing>"@
    }
}

/// The message of a `connect_succeeded` event.
pub open spec fn decision_message(d: DecisionView) -> Seq<char> {
    match d {
        DecisionView::Direct { peer_id, reachability_candidates, decision_reason, .. } =>
            "Connect decision: direct to "@ + peer_id + " via "@ + first_candidate_url(reachability_candidates)
                + " ("@ + decision_reason + ")"@,
        DecisionView::Relay { relay_session_id, source_peer_id, target_peer_id, decision_reason, .. } =>
            "Connect decision: relay "@ + uuid_text(relay_session_id) + " for "@ + source_peer_id + " -> "@
                + target_peer_id + " ("@ + decision_reason + ")"@,
    }
}


/// The message of a `connect_succeeded` event for decision `d`.
pub fn decision_summary(d: &ConnectDecisionModel) -> (r: String)
    ensures
        r@ == decision_message(d@),
{
    let mut v: Vec<char> = Vec::new();
    match d {
        ConnectDecisionModel::Direct { direct } => {
            push_str(&mut v, "Connect decision: direct to ");
            push_str(&mut v, direct.peer_id.as_str());
            push_str(&mut v, " via ");
            if direct.reachability_candidates.len() > 0 {
                push_str(&mut v, direct.reachability_candidates[0].base_url.as_str());
            } else {
                push_str(&mut v, "<missing>");
            }
            push_str(&mut v, " (");
            push_str(&mut v, direct.decision_reason.as_str());
            push_str(&mut v, ")");
        },
        ConnectDecisionModel::Relay { relay } => {
            let id = uuid_string(relay.relay_session_id);
            push_str(&mut v, "Connect decision: relay ");
            push_str(&mut v, id.as_str());
            push_str(&mut v, " for ");
            push_str(&mut v, relay.source_peer_id.as_str());
            push_str(&mut v, " -> ");
            push_str(&mut v, relay.target_peer_id.as_str());
            push_str(&mut v, " (");
            push_str(&mut v, relay.decision_reason.as_str());
            push_str(&mut v, ")");
        },
    }
    string_of(v.as_slice())
}

// ---------------------------------------------------------------------------
// Outcomes of single calls
// ---------------------------------------------------------------------------

impl GatewayRuntimeState {
    /// Records that a connect decision in `mode` for `target_peer_id` is
    /// being asked for.
    pub fn begin_connect(&mut self, mode: CommunicationModeEnum, target_peer_id: &str, now_unix_ms: u64) -> (r: UiEventModel)
        requires
            old(self).next_event_id < u64::MAX,
        ensures
            final(self)@ == with_event(old(self)@, "connect_started"@, connect_started_message(mode, target_peer_id@), now_unix_ms),
            r@ == final(self)@.events.last(),
    {
        let message = concat5("Requesting ", mode.as_str(), " connect decision for ", target_peer_id, ".");
        self.record_event("connect_started".to_owned(), message, now_unix_ms)
    }

    /// Records the outcome of a connect request and hands it back: the
    /// decision as a `connect_succeeded` event, a failure as the error.
    pub fn finish_connect(&mut self, outcome: Result<ConnectDecisionModel, String>, now_unix_ms: u64) -> (r: Result<ConnectDecisionModel, String>)
        requires
            old(self).next_event_id < u64::MAX,
        ensures
            r == outcome,
            final(self)@ == match outcome {
                Ok(d) => with_event(old(self)@, "connect_succeeded"@, decision_message(d@), now_unix_ms),
                Err(e) => with_error(old(self)@, e@, now_unix_ms),
            },
    {
        match outcome {
            Ok(d) => {
                let message = decision_summary(&d);
                self.record_event("connect_succeeded".to_owned(), message, now_unix_ms);
                Ok(d)
            },
            Err(e) => {
                self.record_error(e.clone(), now_unix_ms);
                Err(e)
            },
        }
    }

    /// Records that the target peer is being looked up.
    pub fn begin_lookup(&mut self, target_peer_id: &str, now_unix_ms: u64) -> (r: UiEventModel)
        requires
            old(self).next_event_id < u64::MAX,
        ensures
            final(self)@ == with_event(old(self)@, "lookup_started"@, "Looking up "@ + target_peer_id@ + "."@, now_unix_ms),
            r@ == final(self)@.events.last(),
    {
        let message = concat3("Looking up ", target_peer_id, ".");
        self.record_event("lookup_started".to_owned(), message, now_unix_ms)
    }

    /// Records the outcome of a lookup and hands it back: a found peer as a
    /// `lookup_succeeded` event, a failure as the error.
    pub fn finish_lookup(&mut self, outcome: Result<PeerLookupResponseModel, String>, now_unix_ms: u64) -> (r: Result<PeerLookupResponseModel, String>)
        requires
            old(self).next_event_id < u64::MAX,
        ensures
            r == outcome,
            final(self)@ == match outcome {
                Ok(found) => with_event(old(self)@, "lookup_succeeded"@, found.peer.peer_id@ + " is online."@, now_unix_ms),
                Err(e) => with_error(old(self)@, e@, now_unix_ms),
            },
    {
        match outcome {
            Ok(found) => {
                let message = concat(found.peer.peer_id.as_str(), " is online.");
                self.record_event("lookup_succeeded".to_owned(), message, now_unix_ms);
                Ok(found)
            },
            Err(e) => {
                self.record_error(e.clone(), now_unix_ms);
                Err(e)
            },
        }
    }

    /// Records the outcome of registering `peer_id` and hands it back: on
    /// success the registration time, heartbeat and lease, and a
    /// `register_succeeded` event; a failure as the error.
    pub fn finish_register(&mut self, peer_id: &str, outcome: Result<RegisterPeerResponseModel, String>, now_unix_ms: u64) -> (r: Result<RegisterPeerResponseModel, String>)
        requires
            old(self).next_event_id < u64::MAX,
        ensures
            r == outcome,
            final(self)@ == match outcome {
                Ok(resp) => with_event(
                    GatewayStateView {
                        last_registered_at_unix_ms: Some(now_unix_ms),
                        last_heartbeat_at_unix_ms: Some(now_unix_ms),
                        lease_seconds: Some(resp.lease_seconds),
                        last_error: None,
                        ..old(self)@
                    },
                    "register_succeeded"@,
                    "Registered "@ + peer_id@ + "."@,
                    now_unix_ms,
                ),
                Err(e) => with_error(old(self)@, e@, now_unix_ms),
            },
    {
        match outcome {
            Ok(resp) => {
                self.record_registered(now_unix_ms, resp.lease_seconds);
                let message = concat3("Registered ", peer_id, ".");
                self.record_event("register_succeeded".to_owned(), message, now_unix_ms);
                Ok(resp)
            },
            Err(e) => {
                self.record_error(e.clone(), now_unix_ms);
                Err(e)
            },
        }
    }

    /// Records the outcome of a heartbeat and hands it back: on success the
    /// heartbeat time and lease, with the error cleared; a failure as the
    /// error.
    pub fn finish_heartbeat(&mut self, outcome: Result<RegisterPeerResponseModel, String>, now_unix_ms: u64) -> (r: Result<RegisterPeerResponseModel, String>)
        requires
            old(self).next_event_id < u64::MAX,
        ensures
            r == outcome,
            final(self)@ == match outcome {
                Ok(resp) => GatewayStateView {
                    last_heartbeat_at_unix_ms: Some(now_unix_ms),
                    lease_seconds: Some(resp.lease_seconds),
                    last_error: None,
                    ..old(self)@
                },
                Err(e) => with_error(old(self)@, e@, now_unix_ms),
            },
    {
        match outcome {
            Ok(resp) => {
                self.record_heartbeat(now_unix_ms, resp.lease_seconds);
                Ok(resp)
            },
            Err(e) => {
                self.record_error(e.clone(), now_unix_ms);
                Err(e)
            },
        }
    }
}

// ---------------------------------------------------------------------------
// Received messages, start and stop
// ---------------------------------------------------------------------------

/// The state after a received `entry` was stored: it joins the inbox as
/// [`GatewayRuntimeState::record_received`] says, and a `message_received`
/// event tells who sent what.
pub open spec fn received_spec(s: GatewayStateView, entry: InboxEntryView, mode: Seq<char>, now: u64) -> GatewayStateView {
    let stored = GatewayStateView {
        inbox: s.inbox.push(entry),
        last_delivery_mode: Some(mode),
        last_delivery_summary: Some(received_summary(mode, entry.payload.from_peer_id)),
        direct_received_count: if mode == "direct_tcp"@ {
            (s.direct_received_count + 1) as usize
        } else {
            s.direct_received_count
        },
        relay_received_count: if mode == "relay"@ {
            (s.relay_received_count + 1) as usize
        } else {
            s.relay_received_count
        },
        ..s
    };
    with_event(
        stored,
        "message_received"@,
        "Received "@ + mode + " message from "@ + entry.payload.from_peer_id + ": "@ + entry.payload.message,
        now,
    )
}

/// The inbox entry of `payload` received at `now` by peer `peer_id`.
pub fn inbox_entry(peer_id: &str, payload: ChatMessageEnvelopeModel, now_unix_ms: u64) -> (r: InboxEntryModel)
    ensures
        r@ == (InboxEntryView { received_at_unix_ms: now_unix_ms, peer_id: peer_id@, payload: payload@ }),
{
    InboxEntryModel { received_at_unix_ms: now_unix_ms, peer_id: peer_id.to_owned(), payload }
}

impl GatewayRuntimeState {
    /// Stores a message received in `delivery_mode` once its entry is on
    /// disk, and records a `message_received` event.
    pub fn store_received(&mut self, entry: InboxEntryModel, delivery_mode: &str, now_unix_ms: u64) -> (r: UiEventModel)
        requires
            old(self).next_event_id < u64::MAX,
            delivery_mode@ == "direct_tcp"@ ==> old(self).direct_received_count < usize::MAX,
            delivery_mode@ == "relay"@ ==> old(self).relay_received_count < usize::MAX,
        ensures
            final(self)@ == received_spec(old(self)@, entry@, delivery_mode@, now_unix_ms),
            r@ == final(self)@.events.last(),
    {
        let mut v: Vec<char> = Vec::new();
        push_str(&mut v, "Received ");
        push_str(&mut v, delivery_mode);
        push_str(&mut v, " message from ");
        push_str(&mut v, entry.payload.from_peer_id.as_str());
        push_str(&mut v, ": ");
        push_str(&mut v, entry.payload.message.as_str());
        let message = string_of(v.as_slice());
        self.record_received(entry, delivery_mode);
        self.record_event("message_received".to_owned(), message, now_unix_ms)
    }

    /// Records that a relayed message arrived on session `relay_session_id`.
    pub fn record_relay_arrival(&mut self, relay_session_id: u128, now_unix_ms: u64) -> (r: UiEventModel)
        requires
            old(self).next_event_id < u64::MAX,
        ensures
            final(self)@ == with_event(
                old(self)@,
                "relay_message_received"@,
                "Received relay message on session "@ + uuid_text(relay_session_id) + "."@,
                now_unix_ms,
            ),
            r@ == final(self)@.events.last(),
    {
        let id = uuid_string(relay_session_id);
        let message = concat3("Received relay message on session ", id.as_str(), ".");
        self.record_event("relay_message_received".to_owned(), message, now_unix_ms)
    }

    /// Records that the runtime of `peer_id`, aimed at `target_peer_id`,
    /// started.
    pub fn record_started(&mut self, peer_id: &str, target_peer_id: &str, now_unix_ms: u64) -> (r: UiEventModel)
        requires
            old(self).next_event_id < u64::MAX,
        ensures
            final(self)@ == with_event(
                old(self)@,
                "runtime_started"@,
                "Runtime started for "@ + peer_id@ + " targeting "@ + target_peer_id@ + "."@,
                now_unix_ms,
            ),
            r@ == final(self)@.events.last(),
    {
        let message = concat5("Runtime started for ", peer_id, " targeting ", target_peer_id, ".");
        self.record_event("runtime_started".to_owned(), message, now_unix_ms)
    }

    /// Records that the runtime of `peer_id` stopped.
    pub fn record_stopped(&mut self, peer_id: &str, now_unix_ms: u64) -> (r: UiEventModel)
        requires
            old(self).next_event_id < u64::MAX,
        ensures
            final(self)@ == with_event(old(self)@, "runtime_stopped"@, "Runtime stopped for "@ + peer_id@ + "."@, now_unix_ms),
            r@ == final(self)@.events.last(),
    {
        let message = concat3("Runtime stopped for ", peer_id, ".");
        self.record_event("runtime_stopped".to_owned(), message, now_unix_ms)
    }
}

// ---------------------------------------------------------------------------
// UDP discovery
// ---------------------------------------------------------------------------

/// The mapped address a discovery probe reported: its text as a socket
/// address shows it, its IP address's text, its port, and what the
/// standard library says of the IP address.
#[derive(Debug, Clone)]
pub struct ProbedUdpAddress {
    pub addr_text: String,
    pub ip_text: String,
    pub port: u16,
    pub facts: IpAddressFacts,
}

/// What two discovery probes revealed: the NAT behaviour and the mapped
/// addresses, each once.
#[derive(Debug, Clone)]
pub struct UdpDiscoveryOutcome {
    pub nat_behavior: NatBehaviorModel,
    pub observed_addresses: Vec<ReachabilityAddressModel>,
}

/// The candidate address of a probed mapping, with a confidence that
/// follows the NAT behaviour.
pub open spec fn probed_candidate(p: ProbedUdpAddress, behavior: NatBehaviorModel) -> AddressView {
    AddressView {
        base_url: "udp://"@ + p.addr_text@,
        scope: scope_for_ip_spec(p.facts),
        source: ReachabilitySourceModel::DiscoveryProbe,
        transport_protocol: TransportProtocolEnum::DirectUdp,
        confidence: match behavior {
            NatBehaviorModel::Predictable => ReachabilityConfidenceModel::High,
            NatBehaviorModel::Symmetric => ReachabilityConfidenceModel::Medium,
            NatBehaviorModel::Unknown => ReachabilityConfidenceModel::Low,
        },
        address_hint: p.ip_text@,
    }
}

/// The candidates of two probed mappings: the second is left out when it
/// has the first's base URL.
pub open spec fn probed_candidates(first: ProbedUdpAddress, second: ProbedUdpAddress, behavior: NatBehaviorModel) -> Seq<AddressView> {
    let a = probed_candidate(first, behavior);
    let b = probed_candidate(second, behavior);
    if b.base_url == a.base_url {
        seq![a]
    } else {
        seq![a, b]
    }
}

fn probed_address(p: &ProbedUdpAddress, behavior: NatBehaviorModel) -> (r: ReachabilityAddressModel)
    ensures
        r@ == probed_candidate(*p, behavior),
{
    ReachabilityAddressModel {
        base_url: concat("udp://", p.addr_text.as_str()),
        scope: reachability_scope_for_ip(&p.facts),
        source: ReachabilitySourceModel::DiscoveryProbe,
        transport_protocol: TransportProtocolEnum::DirectUdp,
        confidence: match behavior {
            NatBehaviorModel::Predictable => ReachabilityConfidenceModel::High,
            NatBehaviorModel::Symmetric => ReachabilityConfidenceModel::Medium,
            NatBehaviorModel::Unknown => ReachabilityConfidenceModel::Low,
        },
        address_hint: p.ip_text.clone(),
    }
}

/// What the mappings `first` and `second`, reported by the primary and the
/// secondary discovery port, reveal.
pub fn udp_discovery_outcome(first: &ProbedUdpAddress, second: &ProbedUdpAddress) -> (r: UdpDiscoveryOutcome)
    ensures
        r.nat_behavior == (if first.port == second.port {
            NatBehaviorModel::Predictable
        } else {
            NatBehaviorModel::Symmetric
        }),
        addresses_view(r.observed_addresses@) == probed_candidates(*first, *second, r.nat_behavior),
{
    let behavior = nat_behavior_from_probes(first.port, second.port);
    let a = probed_address(first, behavior);
    let b = probed_address(second, behavior);
    let ghost av = a@;
    let ghost bv = b@;
    let mut observed: Vec<ReachabilityAddressModel> = Vec::new();
    let same = a.base_url == b.base_url;
    observed.push(a);
    if !same {
        observed.push(b);
        assert(addresses_view(observed@) =~= seq![av, bv]);
    } else {
        assert(addresses_view(observed@) =~= seq![av]);
    }
    UdpDiscoveryOutcome { nat_behavior: behavior, observed_addresses: observed }
}

/// The discovery a runtime goes on with: the outcome when there is one,
/// else an unknown NAT and no mapped address.
pub open spec fn discovery_used(d: Result<Option<UdpDiscoveryOutcome>, String>) -> (NatBehaviorModel, Seq<AddressView>) {
    match d {
        Ok(Some(o)) => (o.nat_behavior, addresses_view(o.observed_addresses@)),
        _ => (NatBehaviorModel::Unknown, Seq::empty()),
    }
}

/// The state after recording how discovery went: a success that mapped
/// addresses, or a failure, is an event; no discovery records nothing.
pub open spec fn discovery_recorded(s: GatewayStateView, d: Result<Option<UdpDiscoveryOutcome>, String>, now: u64) -> GatewayStateView {
    match d {
        Ok(Some(o)) => if o.observed_addresses@.len() > 0 {
            with_event(
                s,
                "udp_discovery_succeeded"@,
                "Observed "@ + decimal(o.observed_addresses@.len()) + " UDP mapping(s); NAT classified as "@
                    + nat_label(o.nat_behavior) + "."@,
                now,
            )
        } else {
            s
        },
        Ok(None) => s,
        Err(e) => with_event(s, "udp_discovery_failed"@, "UDP discovery probe failed: "@ + e@, now),
    }
}

/// The profile a started runtime registers: the configuration's identity,
/// and the reachability of the port its direct receiver is bound to, with
/// what discovery revealed. `bind_ip` is the bind host parsed as an IP
/// address.
pub fn started_profile(
    config: &GatewayRuntimeConfig,
    bound_port: u16,
    bind_ip: Option<IpAddressFacts>,
    discovery: &Result<Option<UdpDiscoveryOutcome>, String>,
) -> (r: GatewayProfile)
    ensures
        r.peer_id@ == config.peer_id@,
        r.device_key@ == config.device_key@,
        opt_str_view(r.display_name) == opt_str_view(config.display_name),
        r.reachability@ == peer_reachability_spec(
            config.direct_bind_host@,
            bound_port,
            config.communication_mode != CommunicationModeEnum::RelayOnly,
            DEFAULT_MESSAGE_ENDPOINT@,
            discovery_used(*discovery).0,
            discovery_used(*discovery).1,
            scope_for_host_spec(config.direct_bind_host@, bind_ip),
        ),
{
    let (behavior, observed) = match discovery {
        Ok(Some(o)) => {
            let mut copy: Vec<ReachabilityAddressModel> = Vec::new();
            let n = o.observed_addresses.len();
            for i in 0..n
                invariant
                    n == o.observed_addresses@.len(),
                    addresses_view(copy@) == addresses_view(o.observed_addresses@.take(i as int)),
            {
                copy.push(o.observed_addresses[i].duplicate());
                assert(addresses_view(o.observed_addresses@.take(i + 1)) == addresses_view(
                    o.observed_addresses@.take(i as int),
                ).push(o.observed_addresses@[i as int]@));
            }
            assert(o.observed_addresses@.take(n as int) == o.observed_addresses@);
            (o.nat_behavior, copy)
        },
        _ => {
            let none: Vec<ReachabilityAddressModel> = Vec::new();
            assert(addresses_view(none@) =~= Seq::<AddressView>::empty());
            (NatBehaviorModel::Unknown, none)
        },
    };
    GatewayProfile {
        peer_id: config.peer_id.clone(),
        device_key: config.device_key.clone(),
        display_name: duplicate_opt_string(&config.display_name),
        reachability: peer_reachability_for(
            config.direct_bind_host.as_str(),
            bound_port,
            config.communication_mode.supports_direct_advertisement(),
            DEFAULT_MESSAGE_ENDPOINT,
            behavior,
            observed,
            bind_ip,
        ),
    }
}

impl GatewayRuntimeState {
    /// Records how UDP discovery went.
    pub fn record_discovery(&mut self, discovery: &Result<Option<UdpDiscoveryOutcome>, String>, now_unix_ms: u64)
        requires
            old(self).next_event_id < u64::MAX,
        ensures
            final(self)@ == discovery_recorded(old(self)@, *discovery, now_unix_ms),
    {
        match discovery {
            Ok(Some(o)) => {
                let n = o.observed_addresses.len();
                if n > 0 {
                    let mut v: Vec<char> = Vec::new();
                    push_str(&mut v, "Observed ");
                    push_decimal(&mut v, n as u64);
                    push_str(&mut v, " UDP mapping(s); NAT classified as ");
                    push_str(&mut v, nat_behavior_label(o.nat_behavior));
                    push_str(&mut v, ".");
                    let message = string_of(v.as_slice());
                    self.record_event("udp_discovery_succeeded".to_owned(), message, now_unix_ms);
                }
            },
            Ok(None) => {},
            Err(e) => {
                let message = concat("UDP discovery probe failed: ", e.as_str());
                self.record_event("udp_discovery_failed".to_owned(), message, now_unix_ms);
            },
        }
    }
}

// ---------------------------------------------------------------------------
// Sending a message
// ---------------------------------------------------------------------------

/// The answer to a request to send a message.
#[derive(Debug, Clone)]
pub struct SendMessageResponseModel {
    pub accepted: bool,
    pub delivery_mode: String,
    pub communication_mode: String,
    pub target_url: String,
}

/// The view of a [`SendMessageResponseModel`].
pub struct ResponseView {
    pub accepted: bool,
    pub delivery_mode: Seq<char>,
    pub communication_mode: Seq<char>,
    pub target_url: Seq<char>,
}

impl View for SendMessageResponseModel {
    type V = ResponseView;

    open spec fn view(&self) -> ResponseView {
        ResponseView {
            accepted: self.accepted,
            delivery_mode: self.delivery_mode@,
            communication_mode: self.communication_mode@,
            target_url: self.target_url@,
        }
    }
}

/// Where sending a message stands.
#[derive(Debug, Clone)]
pub enum SendStage {
    /// Waiting for the hub's connect decision.
    Deciding,
    /// Waiting for the outcome of posting `payload` to `target_url`.
    Posting { target_url: String, payload: ChatMessageEnvelopeModel },
    /// Direct delivery failed with `error`; waiting for a relay decision.
    Retrying { payload: ChatMessageEnvelopeModel, error: String },
    /// Waiting to be attached to the relay session.
    Attaching { relay_session_id: u128, payload: ChatMessageEnvelopeModel },
    /// Waiting for the relay session to take `payload`.
    Relaying { relay_session_id: u128, payload: ChatMessageEnvelopeModel },
    /// Finished.
    Done,
}

/// The view of a [`SendStage`].
pub enum StageView {
    Deciding,
    Posting { target_url: Seq<char>, payload: ChatMessageView },
    Retrying { payload: ChatMessageView, error: Seq<char> },
    Attaching { relay_session_id: u128, payload: ChatMessageView },
    Relaying { relay_session_id: u128, payload: ChatMessageView },
    Done,
}

impl View for SendStage {
    type V = StageView;

    open spec fn view(&self) -> StageView {
        match self {
            SendStage::Deciding => StageView::Deciding,
            SendStage::Posting { target_url, payload } => StageView::Posting { target_url: target_url@, payload: payload@ },
            SendStage::Retrying { payload, error } => StageView::Retrying { payload: payload@, error: error@ },
            SendStage::Attaching { relay_session_id, payload } => StageView::Attaching {
                relay_session_id: *relay_session_id,
                payload: payload@,
            },
            SendStage::Relaying { relay_session_id, payload } => StageView::Relaying {
                relay_session_id: *relay_session_id,
                payload: payload@,
            },
            SendStage::Done => StageView::Done,
        }
    }
}

/// What came back from the last thing done for a message.
#[derive(Debug)]
pub enum SendEvent {
    /// The hub's connect decision, or why it could not be had.
    Decided { outcome: Result<ConnectDecisionModel, String> },
    /// The outcome of the direct post.
    Posted { outcome: Result<(), String> },
    /// The outcome of attaching to the relay session.
    Attached { outcome: Result<(), String> },
    /// The outcome of handing the message to the relay session.
    Relayed { outcome: Result<(), String> },
}

/// What is to be done next for a message.
#[derive(Debug)]
pub enum SendAction {
    /// Ask the hub for a connect decision in `mode`.
    RequestDecision { mode: CommunicationModeEnum },
    /// Post `payload` to the peer at `target_url`.
    PostDirect { target_url: String, payload: ChatMessageEnvelopeModel },
    /// Attach this peer to the relay session.
    AttachRelay { relay_session_id: u128 },
    /// Hand `payload` to the relay session.
    SendRelay { relay_session_id: u128, payload: ChatMessageEnvelopeModel },
    /// Nothing more: the answer to the send request.
    Finish { outcome: Result<SendMessageResponseModel, String> },
}

/// The view of a [`SendAction`].
pub enum ActionView {
    RequestDecision { mode: CommunicationModeEnum },
    PostDirect { target_url: Seq<char>, payload: ChatMessageView },
    AttachRelay { relay_session_id: u128 },
    SendRelay { relay_session_id: u128, payload: ChatMessageView },
    Finish { outcome: Result<ResponseView, Seq<char>> },
}

impl View for SendAction {
    type V = ActionView;

    open spec fn view(&self) -> ActionView {
        match self {
            SendAction::RequestDecision { mode } => ActionView::RequestDecision { mode: *mode },
            SendAction::PostDirect { target_url, payload } => ActionView::PostDirect {
                target_url: target_url@,
                payload: payload@,
            },
            SendAction::AttachRelay { relay_session_id } => ActionView::AttachRelay { relay_session_id: *relay_session_id },
            SendAction::SendRelay { relay_session_id, payload } => ActionView::SendRelay {
                relay_session_id: *relay_session_id,
                payload: payload@,
            },
            SendAction::Finish { outcome } => ActionView::Finish {
                outcome: match outcome {
                    Ok(r) => Ok(r@),
                    Err(e) => Err(e@),
                },
            },
        }
    }
}

/// Sending one message from peer `peer_id` to `target_peer_id` in `mode`.
#[derive(Debug, Clone)]
pub struct SendFlow {
    pub mode: CommunicationModeEnum,
    pub peer_id: String,
    pub target_peer_id: String,
    pub server_base_url: String,
    pub message: String,
    pub stage: SendStage,
}

/// The view of a [`SendFlow`].
pub struct FlowView {
    pub mode: CommunicationModeEnum,
    pub peer_id: Seq<char>,
    pub target_peer_id: Seq<char>,
    pub server_base_url: Seq<char>,
    pub message: Seq<char>,
    pub stage: StageView,
}

impl View for SendFlow {
    type V = FlowView;

    open spec fn view(&self) -> FlowView {
        FlowView {
            mode: self.mode,
            peer_id: self.peer_id@,
            target_peer_id: self.target_peer_id@,
            server_base_url: self.server_base_url@,
            message: self.message@,
            stage: self.stage@,
        }
    }
}

/// What a step leads to: the next stage, the gateway's state and the next
/// action.
pub struct StepView {
    pub stage: StageView,
    pub state: GatewayStateView,
    pub action: ActionView,
}

/// Whether `e` answers what stage `st` waits for.
pub open spec fn answers(st: StageView, e: SendEvent) -> bool {
    match st {
        StageView::Deciding => e is Decided,
        StageView::Posting { .. } => e is Posted,
        StageView::Retrying { .. } => e is Decided,
        StageView::Attaching { .. } => e is Attached,
        StageView::Relaying { .. } => e is Relayed,
        StageView::Done => false,
    }
}

/// The view of a unit outcome.
pub open spec fn unit_outcome(o: Result<(), String>) -> Result<(), Seq<char>> {
    match o {
        Ok(_) => Ok(()),
        Err(e) => Err(e@),
    }
}

/// The end of sending: state `s`, answer `outcome`.
pub open spec fn finished(s: GatewayStateView, outcome: Result<ResponseView, Seq<char>>) -> StepView {
    StepView { stage: StageView::Done, state: s, action: ActionView::Finish { outcome } }
}

/// The message of flow `f`, sent at `now`.
pub open spec fn outbound(f: FlowView, now: u64) -> ChatMessageView {
    ChatMessageView { from_peer_id: f.peer_id, to_peer_id: f.target_peer_id, message: f.message, sent_at_unix_ms: now }
}

/// The path a direct decision names, or the default one.
pub open spec fn endpoint_or_default(e: Option<Seq<char>>) -> Seq<char> {
    match e {
        Some(p) => p,
        None => DEFAULT_MESSAGE_ENDPOINT@,
    }
}

/// What follows the first decision `d`, once it is recorded in `s`: a post
/// to the first direct candidate, or, unless direct delivery is forced, an
/// attach to the relay session.
pub open spec fn after_decision(f: FlowView, s: GatewayStateView, d: DecisionView, now: u64) -> StepView {
    match d {
        DecisionView::Direct { peer_id, reachability_candidates, message_endpoint, .. } =>
            if reachability_candidates.len() == 0 {
                finished(s, Err("target peer '"@ + peer_id + "' has no direct address"@))
            } else {
                let url = join_url_spec(reachability_candidates[0].base_url, endpoint_or_default(message_endpoint));
                StepView {
                    stage: StageView::Posting { target_url: url, payload: outbound(f, now) },
                    state: s,
                    action: ActionView::PostDirect { target_url: url, payload: outbound(f, now) },
                }
            },
        DecisionView::Relay { relay_session_id, decision_reason, .. } =>
            if f.mode == CommunicationModeEnum::Direct {
                let e = "forced direct mode could not find a credible direct path: "@ + decision_reason;
                finished(with_error(s, e, now), Err(e))
            } else {
                StepView {
                    stage: StageView::Attaching { relay_session_id, payload: outbound(f, now) },
                    state: s,
                    action: ActionView::AttachRelay { relay_session_id },
                }
            },
    }
}

/// What follows the outcome of a direct post of `payload` to `url`: on
/// success the delivery is remembered and the answer given; on failure an
/// error in forced direct mode, else a retry through the relay.
pub open spec fn after_post(f: FlowView, s: GatewayStateView, url: Seq<char>, payload: ChatMessageView, o: Result<(), Seq<char>>, now: u64) -> StepView {
    match o {
        Ok(_) => finished(
            with_event(
                remembered_spec(s, "direct"@, "Sent direct_tcp message to "@ + f.target_peer_id + " via "@ + url + "."@),
                "message_sent"@,
                "Sent message to "@ + f.target_peer_id + "."@,
                now,
            ),
            Ok(ResponseView { accepted: true, delivery_mode: "direct_tcp"@, communication_mode: mode_name(f.mode), target_url: url }),
        ),
        Err(e) => if f.mode == CommunicationModeEnum::Direct {
            finished(with_error(s, e, now), Err("direct delivery failed in forced direct mode: "@ + e))
        } else {
            StepView {
                stage: StageView::Retrying { payload, error: e },
                state: with_event(
                    with_event(s, "direct_delivery_failed"@, "Direct TCP delivery to "@ + f.target_peer_id + " failed, retrying via relay: "@ + e, now),
                    "connect_started"@,
                    connect_started_message(CommunicationModeEnum::RelayOnly, f.target_peer_id),
                    now,
                ),
                action: ActionView::RequestDecision { mode: CommunicationModeEnum::RelayOnly },
            }
        },
    }
}

/// What follows the relay decision `d` after direct delivery failed with
/// `error`, once `d` is recorded in `s`: an attach to the relay session, or
/// the direct failure when the hub still says direct.
pub open spec fn after_retry(s: GatewayStateView, payload: ChatMessageView, error: Seq<char>, d: DecisionView, now: u64) -> StepView {
    match d {
        DecisionView::Relay { relay_session_id, .. } => StepView {
            stage: StageView::Attaching { relay_session_id, payload },
            state: s,
            action: ActionView::AttachRelay { relay_session_id },
        },
        DecisionView::Direct { .. } => finished(with_error(s, error, now), Err(error)),
    }
}

/// The summary of a relayed message.
pub open spec fn relay_sent_message(to: Seq<char>, id: u128) -> Seq<char> {
    "Sent relay message to "@ + to + " using session "@ + uuid_text(id) + "."@
}

/// One step of sending: how flow `f` and state `s` go on from event `e`.
pub open spec fn send_step_spec(f: FlowView, s: GatewayStateView, e: SendEvent, now: u64) -> StepView {
    match f.stage {
        StageView::Deciding => match e {
            SendEvent::Decided { outcome: Ok(d) } => after_decision(
                f,
                with_event(s, "connect_succeeded"@, decision_message(d@), now),
                d@,
                now,
            ),
            SendEvent::Decided { outcome: Err(err) } => finished(with_error(s, err@, now), Err(err@)),
            _ => StepView { stage: f.stage, state: s, action: ActionView::RequestDecision { mode: f.mode } },
        },
        StageView::Posting { target_url, payload } => match e {
            SendEvent::Posted { outcome } => after_post(f, s, target_url, payload, unit_outcome(outcome), now),
            _ => StepView { stage: f.stage, state: s, action: ActionView::RequestDecision { mode: f.mode } },
        },
        StageView::Retrying { payload, error } => match e {
            SendEvent::Decided { outcome: Ok(d) } => after_retry(
                with_event(s, "connect_succeeded"@, decision_message(d@), now),
                payload,
                error,
                d@,
                now,
            ),
            SendEvent::Decided { outcome: Err(err) } => finished(with_error(s, err@, now), Err(err@)),
            _ => StepView { stage: f.stage, state: s, action: ActionView::RequestDecision { mode: f.mode } },
        },
        StageView::Attaching { relay_session_id, payload } => match e {
            SendEvent::Attached { outcome: Ok(_) } => StepView {
                stage: StageView::Relaying { relay_session_id, payload },
                state: s,
                action: ActionView::SendRelay { relay_session_id, payload },
            },
            SendEvent::Attached { outcome: Err(err) } => finished(s, Err(err@)),
            _ => StepView { stage: f.stage, state: s, action: ActionView::RequestDecision { mode: f.mode } },
        },
        StageView::Relaying { relay_session_id, payload } => match e {
            SendEvent::Relayed { outcome: Ok(_) } => finished(
                with_event(
                    remembered_spec(s, "relay"@, relay_sent_message(payload.to_peer_id, relay_session_id)),
                    "message_sent"@,
                    relay_sent_message(payload.to_peer_id, relay_session_id),
                    now,
                ),
                Ok(ResponseView {
                    accepted: true,
                    delivery_mode: "relay"@,
                    communication_mode: mode_name(f.mode),
                    target_url: join_url_spec(f.server_base_url, "/v1/relay/send"@),
                }),
            ),
            SendEvent::Relayed { outcome: Err(err) } => finished(s, Err(err@)),
            _ => StepView { stage: f.stage, state: s, action: ActionView::RequestDecision { mode: f.mode } },
        },
        StageView::Done => StepView { stage: f.stage, state: s, action: ActionView::RequestDecision { mode: f.mode } },
    }
}

impl SendFlow {
    /// Starts sending `message` from `peer_id` to `target_peer_id` in
    /// `mode`: the first thing to do is to ask the hub for a decision.
    pub fn start(
        mode: CommunicationModeEnum,
        peer_id: String,
        target_peer_id: String,
        server_base_url: String,
        message: String,
        state: &mut GatewayRuntimeState,
        now_unix_ms: u64,
    ) -> (r: (SendFlow, SendAction))
        requires
            old(state).next_event_id < u64::MAX,
        ensures
            r.0@ == (FlowView {
                mode,
                peer_id: peer_id@,
                target_peer_id: target_peer_id@,
                server_base_url: server_base_url@,
                message: message@,
                stage: StageView::Deciding,
            }),
            r.1@ == (ActionView::RequestDecision { mode }),
            final(state)@ == with_event(old(state)@, "connect_started"@, connect_started_message(mode, target_peer_id@), now_unix_ms),
    {
        state.begin_connect(mode, target_peer_id.as_str(), now_unix_ms);
        let flow = SendFlow { mode, peer_id, target_peer_id, server_base_url, message, stage: SendStage::Deciding };
        (flow, SendAction::RequestDecision { mode })
    }

    fn payload(&self, now_unix_ms: u64) -> (r: ChatMessageEnvelopeModel)
        ensures
            r@ == outbound(self@, now_unix_ms),
    {
        ChatMessageEnvelopeModel {
            from_peer_id: self.peer_id.clone(),
            to_peer_id: self.target_peer_id.clone(),
            message: self.message.clone(),
            sent_at_unix_ms: now_unix_ms,
        }
    }

    fn decided(&mut self, state: &mut GatewayRuntimeState, d: ConnectDecisionModel, now_unix_ms: u64) -> (r: SendAction)
        requires
            (old(self).stage is Done),
            old(state).next_event_id < u64::MAX,
        ensures
            final(self)@ == (FlowView {
                stage: after_decision(old(self)@, old(state)@, d@, now_unix_ms).stage,
                ..old(self)@
            }),
            final(state)@ == after_decision(old(self)@, old(state)@, d@, now_unix_ms).state,
            r@ == after_decision(old(self)@, old(state)@, d@, now_unix_ms).action,
    {
        match d {
            ConnectDecisionModel::Direct { direct } => {
                if direct.reachability_candidates.len() == 0 {
                    let e = concat3("target peer '", direct.peer_id.as_str(), "' has no direct address");
                    return SendAction::Finish { outcome: Err(e) };
                }
                let endpoint: &str = match &direct.message_endpoint {
                    Some(p) => p.as_str(),
                    None => DEFAULT_MESSAGE_ENDPOINT,
                };
                let url = join_url(direct.reachability_candidates[0].base_url.as_str(), endpoint);
                let payload = self.payload(now_unix_ms);
                self.stage = SendStage::Posting { target_url: url.clone(), payload: payload.duplicate() };
                SendAction::PostDirect { target_url: url, payload }
            },
            ConnectDecisionModel::Relay { relay } => {
                if self.mode == CommunicationModeEnum::Direct {
                    let e = concat("forced direct mode could not find a credible direct path: ", relay.decision_reason.as_str());
                    state.record_error(e.clone(), now_unix_ms);
                    return SendAction::Finish { outcome: Err(e) };
                }
                let payload = self.payload(now_unix_ms);
                self.stage = SendStage::Attaching { relay_session_id: relay.relay_session_id, payload };
                SendAction::AttachRelay { relay_session_id: relay.relay_session_id }
            },
        }
    }

    fn posted(
        &mut self,
        state: &mut GatewayRuntimeState,
        target_url: String,
        payload: ChatMessageEnvelopeModel,
        outcome: Result<(), String>,
        now_unix_ms: u64,
    ) -> (r: SendAction)
        requires
            (old(self).stage is Done),
            old(state).next_event_id < u64::MAX - 1,
        ensures
            final(self)@ == (FlowView {
                stage: after_post(old(self)@, old(state)@, target_url@, payload@, unit_outcome(outcome), now_unix_ms).stage,
                ..old(self)@
            }),
            final(state)@ == after_post(old(self)@, old(state)@, target_url@, payload@, unit_outcome(outcome), now_unix_ms).state,
            r@ == after_post(old(self)@, old(state)@, target_url@, payload@, unit_outcome(outcome), now_unix_ms).action,
    {
        match outcome {
            Ok(()) => {
                proof {
                    reveal_strlit("direct");
                    reveal_strlit("direct_tcp");
                    reveal_strlit("relay");
                    assert("direct"@.len() != "direct_tcp"@.len());
                    assert("direct"@.len() != "relay"@.len());
                }
                let summary = concat5("Sent direct_tcp message to ", self.target_peer_id.as_str(), " via ", target_url.as_str(), ".");
                state.remember_delivery("direct", summary);
                let message = concat3("Sent message to ", self.target_peer_id.as_str(), ".");
                state.record_event("message_sent".to_owned(), message, now_unix_ms);
                let response = SendMessageResponseModel {
                    accepted: true,
                    delivery_mode: "direct_tcp".to_owned(),
                    communication_mode: self.mode.as_str().to_owned(),
                    target_url,
                };
                SendAction::Finish { outcome: Ok(response) }
            },
            Err(e) => {
                if self.mode == CommunicationModeEnum::Direct {
                    state.record_error(e.clone(), now_unix_ms);
                    let failure = concat("direct delivery failed in forced direct mode: ", e.as_str());
                    return SendAction::Finish { outcome: Err(failure) };
                }
                let mut v: Vec<char> = Vec::new();
                push_str(&mut v, "Direct TCP delivery to ");
                push_str(&mut v, self.target_peer_id.as_str());
                push_str(&mut v, " failed, retrying via relay: ");
                push_str(&mut v, e.as_str());
                let message = string_of(v.as_slice());
                state.record_event("direct_delivery_failed".to_owned(), message, now_unix_ms);
                state.begin_connect(CommunicationModeEnum::RelayOnly, self.target_peer_id.as_str(), now_unix_ms);
                self.stage = SendStage::Retrying { payload, error: e };
                SendAction::RequestDecision { mode: CommunicationModeEnum::RelayOnly }
            },
        }
    }

    fn relayed(
        &mut self,
        state: &mut GatewayRuntimeState,
        relay_session_id: u128,
        payload: ChatMessageEnvelopeModel,
        now_unix_ms: u64,
    ) -> (r: SendAction)
        requires
            (old(self).stage is Done),
            old(state).next_event_id < u64::MAX,
            old(state).relay_sent_count < usize::MAX,
        ensures
            final(self)@ == old(self)@,
            final(state)@ == with_event(
                remembered_spec(old(state)@, "relay"@, relay_sent_message(payload@.to_peer_id, relay_session_id)),
                "message_sent"@,
                relay_sent_message(payload@.to_peer_id, relay_session_id),
                now_unix_ms,
            ),
            r@ == (ActionView::Finish {
                outcome: Ok(ResponseView {
                    accepted: true,
                    delivery_mode: "relay"@,
                    communication_mode: mode_name(old(self).mode),
                    target_url: join_url_spec(old(self)@.server_base_url, "/v1/relay/send"@),
                }),
            }),
    {
        proof {
            reveal_strlit("direct_tcp");
            reveal_strlit("relay");
            assert("relay"@.len() != "direct_tcp"@.len());
        }
        let id = uuid_string(relay_session_id);
        let mut v: Vec<char> = Vec::new();
        push_str(&mut v, "Sent relay message to ");
        push_str(&mut v, payload.to_peer_id.as_str());
        push_str(&mut v, " using session ");
        push_str(&mut v, id.as_str());
        push_str(&mut v, ".");
        let summary = string_of(v.as_slice());
        state.remember_delivery("relay", summary.clone());
        state.record_event("message_sent".to_owned(), summary, now_unix_ms);
        let response = SendMessageResponseModel {
            accepted: true,
            delivery_mode: "relay".to_owned(),
            communication_mode: self.mode.as_str().to_owned(),
            target_url: join_url(self.server_base_url.as_str(), "/v1/relay/send"),
        };
        SendAction::Finish { outcome: Ok(response) }
    }

    /// Goes on from `event`, the outcome of what was last to be done:
    /// records what the gateway remembers of it in `state`, and says what is
    /// to be done next.
    pub fn step(&mut self, state: &mut GatewayRuntimeState, event: SendEvent, now_unix_ms: u64) -> (r: SendAction)
        requires
            answers(old(self)@.stage, event),
            old(state).next_event_id < u64::MAX - 1,
            old(state).relay_sent_count < usize::MAX,
        ensures
            final(self)@ == (FlowView { stage: send_step_spec(old(self)@, old(state)@, event, now_unix_ms).stage, ..old(self)@ }),
            final(state)@ == send_step_spec(old(self)@, old(state)@, event, now_unix_ms).state,
            r@ == send_step_spec(old(self)@, old(state)@, event, now_unix_ms).action,
    {
        let mut stage = SendStage::Done;
        std::mem::swap(&mut stage, &mut self.stage);
        match stage {
            SendStage::Deciding => match event {
                SendEvent::Decided { outcome } => match state.finish_connect(outcome, now_unix_ms) {
                    Ok(d) => self.decided(state, d, now_unix_ms),
                    Err(e) => SendAction::Finish { outcome: Err(e) },
                },
                _ => {
                    proof { assert(false); }
                    SendAction::RequestDecision { mode: self.mode }
                },
            },
            SendStage::Posting { target_url, payload } => match event {
                SendEvent::Posted { outcome } => self.posted(state, target_url, payload, outcome, now_unix_ms),
                _ => {
                    proof { assert(false); }
                    SendAction::RequestDecision { mode: self.mode }
                },
            },
            SendStage::Retrying { payload, error } => match event {
                SendEvent::Decided { outcome } => match state.finish_connect(outcome, now_unix_ms) {
                    Ok(ConnectDecisionModel::Relay { relay }) => {
                        self.stage = SendStage::Attaching { relay_session_id: relay.relay_session_id, payload };
                        SendAction::AttachRelay { relay_session_id: relay.relay_session_id }
                    },
                    Ok(ConnectDecisionModel::Direct { .. }) => {
                        state.record_error(error.clone(), now_unix_ms);
                        SendAction::Finish { outcome: Err(error) }
                    },
                    Err(e) => SendAction::Finish { outcome: Err(e) },
                },
                _ => {
                    proof { assert(false); }
                    SendAction::RequestDecision { mode: self.mode }
                },
            },
            SendStage::Attaching { relay_session_id, payload } => match event {
                SendEvent::Attached { outcome: Ok(()) } => {
                    self.stage = SendStage::Relaying { relay_session_id, payload: payload.duplicate() };
                    SendAction::SendRelay { relay_session_id, payload }
                },
                SendEvent::Attached { outcome: Err(e) } => SendAction::Finish { outcome: Err(e) },
                _ => {
                    proof { assert(false); }
                    SendAction::RequestDecision { mode: self.mode }
                },
            },
            SendStage::Relaying { relay_session_id, payload } => match event {
                SendEvent::Relayed { outcome: Ok(()) } => self.relayed(state, relay_session_id, payload, now_unix_ms),
                SendEvent::Relayed { outcome: Err(e) } => SendAction::Finish { outcome: Err(e) },
                _ => {
                    proof { assert(false); }
                    SendAction::RequestDecision { mode: self.mode }
                },
            },
            SendStage::Done => {
                proof { assert(false); }
                SendAction::RequestDecision { mode: self.mode }
            },
        }
    }
}

} // verus!
