//! Data exchanged between gateways and the hub, with the mathematical view of
//! each (strings as character sequences, lists as sequences).
use vstd::prelude::*;

verus! {

/// The character sequence of an optional string.
pub open spec fn opt_str_view(o: Option<String>) -> Option<Seq<char>> {
    match o {
        Some(s) => Some(s@),
        None => None,
    }
}

/// A copy of an optional string.
pub fn duplicate_opt_string(o: &Option<String>) -> (r: Option<String>)
    ensures
        opt_str_view(r) == opt_str_view(*o),
{
    match o {
        Some(s) => Some(s.clone()),
        None => None,
    }
}

// ---------------------------------------------------------------------------
// Reachability of a peer
// ---------------------------------------------------------------------------

/// How far an address can be reached from.
#[derive(Debug, Clone, Copy, PartialEq, Eq, Structural)]
pub enum ReachabilityScopeModel {
    Loopback,
    Lan,
    Public,
}

/// Where an address came from.
#[derive(Debug, Clone, Copy, PartialEq, Eq, Structural)]
pub enum ReachabilitySourceModel {
    LocalBind,
    LocalDetection,
    HubObserved,
    DiscoveryProbe,
    Manual,
}

/// The transport an address is meant for.
#[derive(Debug, Clone, Copy, PartialEq, Eq, Structural)]
pub enum TransportProtocolEnum {
    Relay,
    DirectTcp,
    /// Reserved for a later UDP hole-punching delivery path.
    DirectUdp,
}

/// How much an address is trusted.
#[derive(Debug, Clone, Copy, PartialEq, Eq, Structural)]
pub enum ReachabilityConfidenceModel {
    Low,
    Medium,
    High,
}

/// What kind of direct reachability a peer claims.
#[derive(Debug, Clone, Copy, PartialEq, Eq, Structural)]
pub enum DirectReachabilityModeModel {
    RelayOnly,
    LocalOnly,
    UnknownExternal,
    PublicDirect,
}

/// How the NAT in front of a peer maps ports.
#[derive(Debug, Clone, Copy, PartialEq, Eq, Structural)]
pub enum NatBehaviorModel {
    Unknown,
    Predictable,
    Symmetric,
}

/// One address under which a peer may be reached.
#[derive(Debug, Clone, PartialEq, Eq)]
pub struct ReachabilityAddressModel {
    pub base_url: String,
    pub scope: ReachabilityScopeModel,
    pub source: ReachabilitySourceModel,
    pub transport_protocol: TransportProtocolEnum,
    pub confidence: ReachabilityConfidenceModel,
    pub address_hint: String,
}

/// The view of a [`ReachabilityAddressModel`].
pub struct AddressView {
    pub base_url: Seq<char>,
    pub scope: ReachabilityScopeModel,
    pub source: ReachabilitySourceModel,
    pub transport_protocol: TransportProtocolEnum,
    pub confidence: ReachabilityConfidenceModel,
    pub address_hint: Seq<char>,
}

impl View for ReachabilityAddressModel {
    type V = AddressView;

    open spec fn view(&self) -> AddressView {
        AddressView {
            base_url: self.base_url@,
            scope: self.scope,
            source: self.source,
            transport_protocol: self.transport_protocol,
            confidence: self.confidence,
            address_hint: self.address_hint@,
        }
    }
}

/// The views of a sequence of addresses.
pub open spec fn addresses_view(s: Seq<ReachabilityAddressModel>) -> Seq<AddressView> {
    s.map_values(|a: ReachabilityAddressModel| a@)
}

/// The view of an optional address.
pub open spec fn opt_address_view(o: Option<ReachabilityAddressModel>) -> Option<AddressView> {
    match o {
        Some(a) => Some(a@),
        None => None,
    }
}

impl ReachabilityAddressModel {
    /// A copy of this address.
    pub fn duplicate(&self) -> (r: Self)
        ensures
            r@ == self@,
    {
        ReachabilityAddressModel {
            base_url: self.base_url.clone(),
            scope: self.scope,
            source: self.source,
            transport_protocol: self.transport_protocol,
            confidence: self.confidence,
            address_hint: self.address_hint.clone(),
        }
    }
}

/// A copy of a list of addresses.
pub fn duplicate_addresses(v: &Vec<ReachabilityAddressModel>) -> (r: Vec<ReachabilityAddressModel>)
    ensures
        addresses_view(r@) == addresses_view(v@),
{
    let mut r: Vec<ReachabilityAddressModel> = Vec::new();
    for i in 0..v.len()
        invariant
            addresses_view(r@) == addresses_view(v@.take(i as int)),
    {
        r.push(v[i].duplicate());
        assert(addresses_view(v@.take(i + 1)) == addresses_view(v@.take(i as int)).push(
            v@[i as int]@,
        ));
    }
    assert(v@.take(v@.len() as int) == v@);
    r
}

/// Everything a peer says about how it can be reached.
#[derive(Debug, Clone, PartialEq, Eq)]
pub struct PeerReachabilityModel {
    pub mode: DirectReachabilityModeModel,
    pub nat_behavior: NatBehaviorModel,
    pub message_endpoint: Option<String>,
    pub bind_address: Option<ReachabilityAddressModel>,
    pub advertised_addresses: Vec<ReachabilityAddressModel>,
    pub observed_addresses: Vec<ReachabilityAddressModel>,
}

/// The view of a [`PeerReachabilityModel`].
pub struct ReachabilityView {
    pub mode: DirectReachabilityModeModel,
    pub nat_behavior: NatBehaviorModel,
    pub message_endpoint: Option<Seq<char>>,
    pub bind_address: Option<AddressView>,
    pub advertised_addresses: Seq<AddressView>,
    pub observed_addresses: Seq<AddressView>,
}

impl View for PeerReachabilityModel {
    type V = ReachabilityView;

    open spec fn view(&self) -> ReachabilityView {
        ReachabilityView {
            mode: self.mode,
            nat_behavior: self.nat_behavior,
            message_endpoint: opt_str_view(self.message_endpoint),
            bind_address: opt_address_view(self.bind_address),
            advertised_addresses: addresses_view(self.advertised_addresses@),
            observed_addresses: addresses_view(self.observed_addresses@),
        }
    }
}

impl PeerReachabilityModel {
    /// A copy of this reachability description.
    pub fn duplicate(&self) -> (r: Self)
        ensures
            r@ == self@,
    {
        PeerReachabilityModel {
            mode: self.mode,
            nat_behavior: self.nat_behavior,
            message_endpoint: duplicate_opt_string(&self.message_endpoint),
            bind_address: match &self.bind_address {
                Some(a) => Some(a.duplicate()),
                None => None,
            },
            advertised_addresses: duplicate_addresses(&self.advertised_addresses),
            observed_addresses: duplicate_addresses(&self.observed_addresses),
        }
    }
}

/// A peer's request to be registered at the hub.
#[derive(Debug, Clone)]
pub struct RegisterPeerRequestModel {
    pub peer_id: String,
    pub device_key: String,
    pub display_name: Option<String>,
    pub reachability: PeerReachabilityModel,
}

/// A peer's request to extend its presence lease.
#[derive(Debug, Clone)]
pub struct HeartbeatRequestModel {
    pub peer_id: String,
}

/// What the hub tells about a registered peer.
#[derive(Debug, Clone)]
pub struct PeerRecordModel {
    pub peer_id: String,
    pub device_key: String,
    pub display_name: Option<String>,
    pub reachability: PeerReachabilityModel,
    pub registered_at_unix_ms: u64,
    pub expires_at_unix_ms: u64,
}

/// The view of a [`PeerRecordModel`].
pub struct PeerRecordView {
    pub peer_id: Seq<char>,
    pub device_key: Seq<char>,
    pub display_name: Option<Seq<char>>,
    pub reachability: ReachabilityView,
    pub registered_at_unix_ms: u64,
    pub expires_at_unix_ms: u64,
}

impl View for PeerRecordModel {
    type V = PeerRecordView;

    open spec fn view(&self) -> PeerRecordView {
        PeerRecordView {
            peer_id: self.peer_id@,
            device_key: self.device_key@,
            display_name: opt_str_view(self.display_name),
            reachability: self.reachability@,
            registered_at_unix_ms: self.registered_at_unix_ms,
            expires_at_unix_ms: self.expires_at_unix_ms,
        }
    }
}

/// The hub's answer to a registration or heartbeat.
#[derive(Debug, Clone)]
pub struct RegisterPeerResponseModel {
    pub lease_seconds: u64,
    pub peer: PeerRecordModel,
}

/// The hub's answer to a lookup.
#[derive(Debug, Clone)]
pub struct PeerLookupResponseModel {
    pub peer: PeerRecordModel,
}

// ---------------------------------------------------------------------------
// Messages
// ---------------------------------------------------------------------------

/// A chat message from one peer to another.
#[derive(Debug, Clone, PartialEq, Eq)]
pub struct ChatMessageEnvelopeModel {
    pub from_peer_id: String,
    pub to_peer_id: String,
    pub message: String,
    pub sent_at_unix_ms: u64,
}

/// The view of a [`ChatMessageEnvelopeModel`].
pub struct ChatMessageView {
    pub from_peer_id: Seq<char>,
    pub to_peer_id: Seq<char>,
    pub message: Seq<char>,
    pub sent_at_unix_ms: u64,
}

impl View for ChatMessageEnvelopeModel {
    type V = ChatMessageView;

    open spec fn view(&self) -> ChatMessageView {
        ChatMessageView {
            from_peer_id: self.from_peer_id@,
            to_peer_id: self.to_peer_id@,
            message: self.message@,
            sent_at_unix_ms: self.sent_at_unix_ms,
        }
    }
}

impl ChatMessageEnvelopeModel {
    /// A copy of this message.
    pub fn duplicate(&self) -> (r: Self)
        ensures
            r@ == self@,
    {
        ChatMessageEnvelopeModel {
            from_peer_id: self.from_peer_id.clone(),
            to_peer_id: self.to_peer_id.clone(),
            message: self.message.clone(),
            sent_at_unix_ms: self.sent_at_unix_ms,
        }
    }
}

// ---------------------------------------------------------------------------
// Connect decisions
// ---------------------------------------------------------------------------

/// A request to be told how to reach another peer.
#[derive(Debug, Clone)]
pub struct ConnectRequestModel {
    pub source_peer_id: String,
    pub target_peer_id: String,
    pub prefer_direct: bool,
}

/// How a source peer is to reach the target directly.
#[derive(Debug, Clone)]
pub struct DirectConnectionInfoModel {
    pub peer_id: String,
    pub device_key: String,
    pub display_name: Option<String>,
    pub reachability_candidates: Vec<ReachabilityAddressModel>,
    pub message_endpoint: Option<String>,
    pub decision_reason: String,
}

/// The relay session through which a source peer is to reach the target.
#[derive(Debug, Clone)]
pub struct RelayConnectionInfoModel {
    /// The session's identifier, the 128 bits of its UUID.
    pub relay_session_id: u128,
    pub source_peer_id: String,
    pub target_peer_id: String,
    pub expires_at_unix_ms: u64,
    pub decision_reason: String,
}

/// The hub's decision on how two peers communicate.
#[derive(Debug, Clone)]
pub enum ConnectDecisionModel {
    Direct { direct: DirectConnectionInfoModel },
    Relay { relay: RelayConnectionInfoModel },
}

/// The view of a [`ConnectDecisionModel`].
pub enum DecisionView {
    Direct {
        peer_id: Seq<char>,
        device_key: Seq<char>,
        display_name: Option<Seq<char>>,
        reachability_candidates: Seq<AddressView>,
        message_endpoint: Option<Seq<char>>,
        decision_reason: Seq<char>,
    },
    Relay {
        relay_session_id: u128,
        source_peer_id: Seq<char>,
        target_peer_id: Seq<char>,
        expires_at_unix_ms: u64,
        decision_reason: Seq<char>,
    },
}

impl View for ConnectDecisionModel {
    type V = DecisionView;

    open spec fn view(&self) -> DecisionView {
        match self {
            ConnectDecisionModel::Direct { direct } => DecisionView::Direct {
                peer_id: direct.peer_id@,
                device_key: direct.device_key@,
                display_name: opt_str_view(direct.display_name),
                reachability_candidates: addresses_view(direct.reachability_candidates@),
                message_endpoint: opt_str_view(direct.message_endpoint),
                decision_reason: direct.decision_reason@,
            },
            ConnectDecisionModel::Relay { relay } => DecisionView::Relay {
                relay_session_id: relay.relay_session_id,
                source_peer_id: relay.source_peer_id@,
                target_peer_id: relay.target_peer_id@,
                expires_at_unix_ms: relay.expires_at_unix_ms,
                decision_reason: relay.decision_reason@,
            },
        }
    }
}

impl ConnectDecisionModel {
    /// A direct decision.
    pub fn direct(direct: DirectConnectionInfoModel) -> (r: Self)
        ensures
            r == (ConnectDecisionModel::Direct { direct }),
    {
        ConnectDecisionModel::Direct { direct }
    }

    /// A relay decision.
    pub fn relay(relay: RelayConnectionInfoModel) -> (r: Self)
        ensures
            r == (ConnectDecisionModel::Relay { relay }),
    {
        ConnectDecisionModel::Relay { relay }
    }
}

/// Whether a connect request prefers direct delivery when it does not say.
pub fn default_true() -> (r: bool)
    ensures
        r,
{
    true
}

// ---------------------------------------------------------------------------
// Relay
// ---------------------------------------------------------------------------

/// A request to attach a peer to a relay session.
#[derive(Debug, Clone)]
pub struct RelayAttachRequestModel {
    pub relay_session_id: u128,
    pub peer_id: String,
}

/// The hub's answer to an attach request.
#[derive(Debug, Clone)]
pub struct RelayAttachResponseModel {
    pub accepted: bool,
    pub relay_session_id: u128,
    pub peer_id: String,
    pub counterpart_peer_id: String,
    pub expires_at_unix_ms: u64,
}

/// The view of a [`RelayAttachResponseModel`].
pub struct AttachView {
    pub accepted: bool,
    pub relay_session_id: u128,
    pub peer_id: Seq<char>,
    pub counterpart_peer_id: Seq<char>,
    pub expires_at_unix_ms: u64,
}

impl View for RelayAttachResponseModel {
    type V = AttachView;

    open spec fn view(&self) -> AttachView {
        AttachView {
            accepted: self.accepted,
            relay_session_id: self.relay_session_id,
            peer_id: self.peer_id@,
            counterpart_peer_id: self.counterpart_peer_id@,
            expires_at_unix_ms: self.expires_at_unix_ms,
        }
    }
}

/// A request to queue a message in a relay session.
#[derive(Debug, Clone)]
pub struct RelaySendRequestModel {
    pub relay_session_id: u128,
    pub peer_id: String,
    pub payload: ChatMessageEnvelopeModel,
}

/// The hub's answer to a relay send.
#[derive(Debug, Clone)]
pub struct RelaySendResponseModel {
    pub accepted: bool,
    pub relay_session_id: u128,
    pub recipient_peer_id: String,
    pub queued_messages: usize,
}

/// The view of a [`RelaySendResponseModel`].
pub struct SendView {
    pub accepted: bool,
    pub relay_session_id: u128,
    pub recipient_peer_id: Seq<char>,
    pub queued_messages: usize,
}

impl View for RelaySendResponseModel {
    type V = SendView;

    open spec fn view(&self) -> SendView {
        SendView {
            accepted: self.accepted,
            relay_session_id: self.relay_session_id,
            recipient_peer_id: self.recipient_peer_id@,
            queued_messages: self.queued_messages,
        }
    }
}

/// A request for the relayed messages waiting for a peer.
#[derive(Debug, Clone)]
pub struct RelayPollRequestModel {
    pub peer_id: String,
}

/// A message queued in a relay session.
#[derive(Debug, Clone, PartialEq, Eq)]
pub struct RelayMessageEnvelopeModel {
    pub relay_session_id: u128,
    pub source_peer_id: String,
    pub target_peer_id: String,
    pub queued_at_unix_ms: u64,
    pub payload: ChatMessageEnvelopeModel,
}

/// The view of a [`RelayMessageEnvelopeModel`].
pub struct RelayEnvelopeView {
    pub relay_session_id: u128,
    pub source_peer_id: Seq<char>,
    pub target_peer_id: Seq<char>,
    pub queued_at_unix_ms: u64,
    pub payload: ChatMessageView,
}

impl View for RelayMessageEnvelopeModel {
    type V = RelayEnvelopeView;

    open spec fn view(&self) -> RelayEnvelopeView {
        RelayEnvelopeView {
            relay_session_id: self.relay_session_id,
            source_peer_id: self.source_peer_id@,
            target_peer_id: self.target_peer_id@,
            queued_at_unix_ms: self.queued_at_unix_ms,
            payload: self.payload@,
        }
    }
}

/// The views of a sequence of relayed messages.
pub open spec fn envelopes_view(s: Seq<RelayMessageEnvelopeModel>) -> Seq<RelayEnvelopeView> {
    s.map_values(|e: RelayMessageEnvelopeModel| e@)
}

/// The relayed messages handed to a polling peer.
#[derive(Debug, Clone)]
pub struct RelayPollResponseModel {
    pub messages: Vec<RelayMessageEnvelopeModel>,
}

// ---------------------------------------------------------------------------
// Discovery and health
// ---------------------------------------------------------------------------

/// A UDP discovery probe.
#[derive(Debug, Clone)]
pub struct DiscoveryProbeRequestModel {
    pub transaction_id: String,
    pub peer_id: Option<String>,
}

/// The hub's answer to a discovery probe: the address it saw.
#[derive(Debug, Clone)]
pub struct DiscoveryProbeResponseModel {
    pub transaction_id: String,
    pub observed_addr: String,
    pub transport_protocol: TransportProtocolEnum,
}

/// The hub's health answer.
#[derive(Debug, Clone)]
pub struct HealthResponseModel {
    pub status: String,
    pub server_time_unix_ms: u64,
}

} // verus!
