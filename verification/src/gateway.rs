//! A gateway's configuration and profile, the addresses it advertises, and
//! the small rules around them.
use crate::model::{
    AddressView, ChatMessageEnvelopeModel, ChatMessageView, ConnectRequestModel,
    DirectReachabilityModeModel, HeartbeatRequestModel, NatBehaviorModel, PeerReachabilityModel,
    ReachabilityAddressModel, ReachabilityConfidenceModel, ReachabilityScopeModel,
    ReachabilitySourceModel, ReachabilityView, RegisterPeerRequestModel, TransportProtocolEnum,
    addresses_view, duplicate_opt_string, opt_str_view,
};
use crate::peers::IpAddressFacts;
use crate::text::{
    chars_of, decimal, has_prefix, push_decimal, push_str, str_eq, string_of, trim_end_char,
    trim_end_vec, trim_start_char, trim_start_vec, vec_has_prefix,
};
use std::hash::{Hash, Hasher};
use vstd::prelude::*;

verus! {

/// The path under which a gateway receives direct messages.
pub const DEFAULT_MESSAGE_ENDPOINT: &'static str = "/message";

/// The heartbeat interval used when a configuration gives none.
pub const DEFAULT_HEARTBEAT_INTERVAL_SECS: u64 = 10;

// ---------------------------------------------------------------------------
// Profile
// ---------------------------------------------------------------------------

/// What a gateway tells the hub about itself.
#[derive(Debug, Clone)]
pub struct GatewayProfile {
    pub peer_id: String,
    pub device_key: String,
    pub display_name: Option<String>,
    pub reachability: PeerReachabilityModel,
}

impl GatewayProfile {
    /// The registration request for this profile.
    pub fn register_request(&self) -> (r: RegisterPeerRequestModel)
        ensures
            r.peer_id@ == self.peer_id@,
            r.device_key@ == self.device_key@,
            opt_str_view(r.display_name) == opt_str_view(self.display_name),
            r.reachability@ == self.reachability@,
    {
        RegisterPeerRequestModel {
            peer_id: self.peer_id.clone(),
            device_key: self.device_key.clone(),
            display_name: duplicate_opt_string(&self.display_name),
            reachability: self.reachability.duplicate(),
        }
    }

    /// The heartbeat request for this profile.
    pub fn heartbeat_request(&self) -> (r: HeartbeatRequestModel)
        ensures
            r.peer_id@ == self.peer_id@,
    {
        HeartbeatRequestModel { peer_id: self.peer_id.clone() }
    }

    /// A request for a connect decision from this peer to `target_peer_id`.
    pub fn connect_request(&self, target_peer_id: String, prefer_direct: bool) -> (r: ConnectRequestModel)
        ensures
            r.source_peer_id@ == self.peer_id@,
            r.target_peer_id@ == target_peer_id@,
            r.prefer_direct == prefer_direct,
    {
        ConnectRequestModel { source_peer_id: self.peer_id.clone(), target_peer_id, prefer_direct }
    }

    /// A chat message from this peer to `target_peer_id`.
    pub fn outbound_message(&self, target_peer_id: String, message: String, sent_at_unix_ms: u64) -> (r: ChatMessageEnvelopeModel)
        ensures
            r@ == (ChatMessageView {
                from_peer_id: self.peer_id@,
                to_peer_id: target_peer_id@,
                message: message@,
                sent_at_unix_ms,
            }),
    {
        ChatMessageEnvelopeModel {
            from_peer_id: self.peer_id.clone(),
            to_peer_id: target_peer_id,
            message,
            sent_at_unix_ms,
        }
    }
}

// ---------------------------------------------------------------------------
// Communication mode
// ---------------------------------------------------------------------------

/// How a gateway wants to deliver messages.
#[derive(Debug, Clone, Copy, PartialEq, Eq, Structural)]
pub enum CommunicationModeEnum {
    Auto,
    Direct,
    RelayOnly,
}

/// The name of a communication mode.
pub open spec fn mode_name(m: CommunicationModeEnum) -> Seq<char> {
    match m {
        CommunicationModeEnum::Auto => "auto"@,
        CommunicationModeEnum::Direct => "direct"@,
        CommunicationModeEnum::RelayOnly => "relay"@,
    }
}

impl CommunicationModeEnum {
    /// Whether connect requests in this mode prefer direct delivery.
    pub open spec fn prefer_direct_spec(self) -> bool {
        self == CommunicationModeEnum::Auto || self == CommunicationModeEnum::Direct
    }

    /// Whether a gateway in this mode advertises a direct endpoint.
    pub open spec fn supports_direct_advertisement_spec(self) -> bool {
        self != CommunicationModeEnum::RelayOnly
    }

    /// Whether connect requests in this mode prefer direct delivery.
    #[verifier::when_used_as_spec(prefer_direct_spec)]
    pub fn prefer_direct(self) -> (r: bool)
        ensures
            r == self.prefer_direct_spec(),
    {
        match self {
            CommunicationModeEnum::Auto | CommunicationModeEnum::Direct => true,
            CommunicationModeEnum::RelayOnly => false,
        }
    }

    /// Whether a gateway in this mode advertises a direct endpoint.
    #[verifier::when_used_as_spec(supports_direct_advertisement_spec)]
    pub fn supports_direct_advertisement(self) -> (r: bool)
        ensures
            r == self.supports_direct_advertisement_spec(),
    {
        match self {
            CommunicationModeEnum::RelayOnly => false,
            _ => true,
        }
    }

    /// The mode's name.
    pub fn as_str(self) -> (r: &'static str)
        ensures
            r@ == mode_name(self),
    {
        match self {
            CommunicationModeEnum::Auto => "auto",
            CommunicationModeEnum::Direct => "direct",
            CommunicationModeEnum::RelayOnly => "relay",
        }
    }
}

/// The communication mode of a configuration that names none.
pub fn default_communication_mode() -> (r: CommunicationModeEnum)
    ensures
        r == CommunicationModeEnum::Auto,
{
    CommunicationModeEnum::Auto
}

// ---------------------------------------------------------------------------
// Hosts, URLs and paths
// ---------------------------------------------------------------------------

/// Whether `host` names the loopback interface.
pub open spec fn is_loopback_host_spec(host: Seq<char>) -> bool {
    host == "127.0.0.1"@ || host == "localhost"@ || host == "::1"@
}

/// Whether `host` names the loopback interface.
pub fn is_loopback_host(host: &str) -> (r: bool)
    ensures
        r == is_loopback_host_spec(host@),
{
    str_eq(host, "127.0.0.1") || str_eq(host, "localhost") || str_eq(host, "::1")
}

/// Whether a gateway bound to `bind_host` can advertise a direct endpoint:
/// only when it is not bound to loopback.
pub fn should_advertise_direct_endpoint(bind_host: &str) -> (r: bool)
    ensures
        r == !is_loopback_host_spec(bind_host@),
{
    !is_loopback_host(bind_host)
}

/// The hosts a gateway tries to bind its direct receiver to, in order.
pub open spec fn direct_bind_candidates_spec(host: Seq<char>, port: u16) -> Seq<Seq<char>> {
    if port == 0 && !is_loopback_host_spec(host) && host != "0.0.0.0"@ {
        seq![host, "0.0.0.0"@]
    } else {
        seq![host]
    }
}

/// The hosts to try binding the direct receiver to: the configured host,
/// then, for an ephemeral port on a host that is neither loopback nor the
/// wildcard, the wildcard address.
pub fn direct_bind_candidates(bind_host: &str, bind_port: u16) -> (r: Vec<String>)
    ensures
        r@.map_values(|s: String| s@) == direct_bind_candidates_spec(bind_host@, bind_port),
{
    let mut candidates: Vec<String> = Vec::new();
    candidates.push(bind_host.to_owned());
    if bind_port == 0 && !is_loopback_host(bind_host) && !str_eq(bind_host, "0.0.0.0") {
        candidates.push("0.0.0.0".to_owned());
    }
    assert(candidates@.map_values(|s: String| s@) =~= direct_bind_candidates_spec(bind_host@, bind_port));
    candidates
}

/// `value` without trailing slashes.
pub fn normalize_server_base_url(value: &str) -> (r: String)
    ensures
        r@ == trim_end_char(value@, '/'),
{
    let mut v = chars_of(value);
    trim_end_vec(&mut v, '/');
    string_of(v.as_slice())
}

/// `suffix` when it is an absolute HTTP(S) URL; otherwise `base` and
/// `suffix` joined by exactly one slash.
pub open spec fn join_url_spec(base: Seq<char>, suffix: Seq<char>) -> Seq<char> {
    if has_prefix(suffix, "http://"@) || has_prefix(suffix, "https://"@) {
        suffix
    } else {
        trim_end_char(base, '/') + "/"@ + trim_start_char(suffix, '/')
    }
}

/// Joins a base URL and a path with one slash; an absolute URL stands for
/// itself.
pub fn join_url(base: &str, suffix: &str) -> (r: String)
    ensures
        r@ == join_url_spec(base@, suffix@),
{
    let sv = chars_of(suffix);
    if vec_has_prefix(&sv, "http://") || vec_has_prefix(&sv, "https://") {
        return suffix.to_owned();
    }
    let mut out = chars_of(base);
    trim_end_vec(&mut out, '/');
    push_str(&mut out, "/");
    let rest = trim_start_vec(&sv, '/');
    let tail = string_of(rest.as_slice());
    push_str(&mut out, tail.as_str());
    string_of(out.as_slice())
}

/// `name` under directory `dir`, as `Path::join` gives it for a relative
/// `name` on Unix.
pub open spec fn join_path_spec(dir: Seq<char>, name: Seq<char>) -> Seq<char> {
    if dir.len() == 0 {
        name
    } else if dir.last() == '/' {
        dir + name
    } else {
        dir + "/"@ + name
    }
}

/// `name` under directory `dir`.
pub fn join_path(dir: &str, name: &str) -> (r: String)
    ensures
        r@ == join_path_spec(dir@, name@),
{
    let mut out = chars_of(dir);
    if out.len() > 0 && out[out.len() - 1] != '/' {
        push_str(&mut out, "/");
    }
    push_str(&mut out, name);
    string_of(out.as_slice())
}

/// The storage directory of peer `peer_id` under `root`.
pub fn default_runtime_storage_dir(root: &str, peer_id: &str) -> (r: String)
    ensures
        r@ == join_path_spec(join_path_spec(root@, "peers"@), peer_id@),
{
    let peers = join_path(root, "peers");
    join_path(peers.as_str(), peer_id)
}

/// The hash of a peer identifier under the standard library's default
/// hasher (`DefaultHasher::new`, which starts from fixed keys).
pub uninterp spec fn peer_id_hash(id: Seq<char>) -> u64;

/// Hashes `peer_id` with a fresh `DefaultHasher` (`Hash for str`, then
/// `Hasher::finish`). Trusted: claims that the hash is the named function of
/// the identifier; the hasher's keys are fixed, so equal identifiers hash
/// alike within a build.
#[verifier::external_body]
fn hash_peer_id(peer_id: &str) -> (h: u64)
    ensures
        h == peer_id_hash(peer_id@),
{
    let mut hasher = std::collections::hash_map::DefaultHasher::new();
    peer_id.hash(&mut hasher);
    hasher.finish()
}

/// The direct port of a peer that configures none.
pub open spec fn default_port_spec(id: Seq<char>) -> u16 {
    if id == "gateway-a"@ {
        17441
    } else if id == "gateway-b"@ {
        17442
    } else {
        (20000 + peer_id_hash(id) % 20000) as u16
    }
}

/// The direct port of a peer that configures none: fixed ports for the two
/// demo gateways, otherwise one from 20000 to 39999 picked by hash.
pub fn default_port_for_peer(peer_id: &str) -> (r: u16)
    ensures
        r == default_port_spec(peer_id@),
        20000 <= r < 40000 || r == 17441 || r == 17442,
{
    if str_eq(peer_id, "gateway-a") {
        17441
    } else if str_eq(peer_id, "gateway-b") {
        17442
    } else {
        let h = hash_peer_id(peer_id);
        let offset: u64 = h % 20000;
        (20000 + offset) as u16
    }
}

/// The upper-case form of `c` (`char::to_uppercase`, possibly several
/// characters).
pub uninterp spec fn char_uppercase(c: char) -> Seq<char>;

/// The upper-case form of `c` (`char::to_uppercase` collected). Trusted:
/// claims that the text is the named function of `c`.
#[verifier::external_body]
fn uppercase_of(c: char) -> (s: String)
    ensures
        s@ == char_uppercase(c),
{
    c.to_uppercase().collect()
}

/// The display name derived from a peer identifier.
pub open spec fn display_name_spec(id: Seq<char>) -> Seq<char> {
    if id.len() == 0 {
        "OpenHanse Peer"@
    } else {
        char_uppercase(id[0]) + id.drop_first()
    }
}

/// The peer identifier with its first character in upper case, or a
/// generic name for an empty identifier.
pub fn display_name_for_peer(peer_id: &str) -> (r: String)
    ensures
        r@ == display_name_spec(peer_id@),
{
    let cs = chars_of(peer_id);
    if cs.len() == 0 {
        return "OpenHanse Peer".to_owned();
    }
    let first = uppercase_of(cs[0]);
    let mut out = chars_of(first.as_str());
    let n = cs.len();
    let ghost start = out@;
    for i in 1..n
        invariant
            n == cs@.len(),
            n >= 1,
            cs@ == peer_id@,
            out@ == start + cs@.subrange(1, i as int),
    {
        out.push(cs[i]);
        assert(cs@.subrange(1, i + 1) == cs@.subrange(1, i as int).push(cs@[i as int]));
    }
    assert(cs@.subrange(1, n as int) == cs@.drop_first());
    string_of(out.as_slice())
}

// ---------------------------------------------------------------------------
// Reachability a gateway advertises
// ---------------------------------------------------------------------------

/// How far a configured bind host reaches: loopback names and addresses,
/// the wildcard and private or link-local addresses count as local, any
/// other address or name as public. `ip` is what the standard library
/// parses from the host, if it is an IP address.
pub open spec fn scope_for_host_spec(host: Seq<char>, ip: Option<IpAddressFacts>) -> ReachabilityScopeModel {
    if is_loopback_host_spec(host) {
        ReachabilityScopeModel::Loopback
    } else if host == "0.0.0.0"@ {
        ReachabilityScopeModel::Lan
    } else {
        match ip {
            Some(f) => if f.is_loopback {
                ReachabilityScopeModel::Loopback
            } else if f.is_ipv4 && (f.is_private || f.is_link_local) {
                ReachabilityScopeModel::Lan
            } else if !f.is_ipv4 && (f.is_unique_local || f.is_unicast_link_local) {
                ReachabilityScopeModel::Lan
            } else {
                ReachabilityScopeModel::Public
            },
            None => ReachabilityScopeModel::Public,
        }
    }
}

/// The scope of a bind host; `ip` is the host parsed as an IP address.
pub fn reachability_scope_for_host(host: &str, ip: Option<IpAddressFacts>) -> (r: ReachabilityScopeModel)
    ensures
        r == scope_for_host_spec(host@, ip),
{
    if is_loopback_host(host) {
        return ReachabilityScopeModel::Loopback;
    }
    if str_eq(host, "0.0.0.0") {
        return ReachabilityScopeModel::Lan;
    }
    match ip {
        Some(f) => {
            if f.is_loopback {
                ReachabilityScopeModel::Loopback
            } else if f.is_ipv4 && (f.is_private || f.is_link_local) {
                ReachabilityScopeModel::Lan
            } else if !f.is_ipv4 && (f.is_unique_local || f.is_unicast_link_local) {
                ReachabilityScopeModel::Lan
            } else {
                ReachabilityScopeModel::Public
            }
        },
        None => ReachabilityScopeModel::Public,
    }
}

/// How far an address observed by a discovery probe reaches.
pub open spec fn scope_for_ip_spec(f: IpAddressFacts) -> ReachabilityScopeModel {
    if f.is_loopback {
        ReachabilityScopeModel::Loopback
    } else if f.is_ipv4 && (f.is_private || f.is_link_local) {
        ReachabilityScopeModel::Lan
    } else if !f.is_ipv4 && (f.is_unique_local || f.is_unicast_link_local) {
        ReachabilityScopeModel::Lan
    } else {
        ReachabilityScopeModel::Public
    }
}

/// The scope of an address observed by a discovery probe.
pub fn reachability_scope_for_ip(f: &IpAddressFacts) -> (r: ReachabilityScopeModel)
    ensures
        r == scope_for_ip_spec(*f),
{
    if f.is_loopback {
        ReachabilityScopeModel::Loopback
    } else if f.is_ipv4 && (f.is_private || f.is_link_local) {
        ReachabilityScopeModel::Lan
    } else if !f.is_ipv4 && (f.is_unique_local || f.is_unicast_link_local) {
        ReachabilityScopeModel::Lan
    } else {
        ReachabilityScopeModel::Public
    }
}

/// `http://host:port`.
pub open spec fn http_url(host: Seq<char>, port: u16) -> Seq<char> {
    "http://"@ + host + ":"@ + decimal(port as nat)
}

/// `http://host:port`.
pub fn http_url_of(host: &str, port: u16) -> (r: String)
    ensures
        r@ == http_url(host@, port),
{
    let mut v: Vec<char> = Vec::new();
    push_str(&mut v, "http://");
    push_str(&mut v, host);
    push_str(&mut v, ":");
    push_decimal(&mut v, port as u64);
    string_of(v.as_slice())
}

/// What a gateway bound to `host:port` says about its reachability. A
/// relay-only gateway advertises nothing; otherwise it advertises its bind
/// address, with a confidence and mode that follow the bind host's scope.
pub open spec fn peer_reachability_spec(
    host: Seq<char>,
    port: u16,
    supports_direct: bool,
    message_endpoint: Seq<char>,
    nat_behavior: NatBehaviorModel,
    observed: Seq<AddressView>,
    scope: ReachabilityScopeModel,
) -> ReachabilityView {
    let bind = AddressView {
        base_url: http_url(host, port),
        scope,
        source: ReachabilitySourceModel::LocalBind,
        transport_protocol: TransportProtocolEnum::DirectTcp,
        confidence: ReachabilityConfidenceModel::High,
        address_hint: host,
    };
    if !supports_direct {
        ReachabilityView {
            mode: DirectReachabilityModeModel::RelayOnly,
            nat_behavior: NatBehaviorModel::Unknown,
            message_endpoint: Some(message_endpoint),
            bind_address: Some(bind),
            advertised_addresses: Seq::empty(),
            observed_addresses: observed,
        }
    } else {
        let advertised = AddressView {
            source: ReachabilitySourceModel::LocalDetection,
            confidence: match scope {
                ReachabilityScopeModel::Public => ReachabilityConfidenceModel::High,
                ReachabilityScopeModel::Lan => ReachabilityConfidenceModel::Medium,
                ReachabilityScopeModel::Loopback => ReachabilityConfidenceModel::Low,
            },
            ..bind
        };
        ReachabilityView {
            mode: match scope {
                ReachabilityScopeModel::Public => DirectReachabilityModeModel::PublicDirect,
                ReachabilityScopeModel::Lan => DirectReachabilityModeModel::UnknownExternal,
                ReachabilityScopeModel::Loopback => DirectReachabilityModeModel::LocalOnly,
            },
            nat_behavior,
            message_endpoint: Some(message_endpoint),
            bind_address: Some(bind),
            advertised_addresses: seq![advertised],
            observed_addresses: observed,
        }
    }
}

/// The reachability a gateway bound to `bind_host:bind_port` advertises;
/// `bind_ip` is the bind host parsed as an IP address.
pub fn peer_reachability_for(
    bind_host: &str,
    bind_port: u16,
    supports_direct: bool,
    message_endpoint: &str,
    nat_behavior: NatBehaviorModel,
    observed_addresses: Vec<ReachabilityAddressModel>,
    bind_ip: Option<IpAddressFacts>,
) -> (r: PeerReachabilityModel)
    ensures
        r@ == peer_reachability_spec(
            bind_host@,
            bind_port,
            supports_direct,
            message_endpoint@,
            nat_behavior,
            addresses_view(observed_addresses@),
            scope_for_host_spec(bind_host@, bind_ip),
        ),
{
    let bind_base_url = http_url_of(bind_host, bind_port);
    let bind_scope = reachability_scope_for_host(bind_host, bind_ip);
    let bind_address = ReachabilityAddressModel {
        base_url: bind_base_url.clone(),
        scope: bind_scope,
        source: ReachabilitySourceModel::LocalBind,
        transport_protocol: TransportProtocolEnum::DirectTcp,
        confidence: ReachabilityConfidenceModel::High,
        address_hint: bind_host.to_owned(),
    };
    if !supports_direct {
        let r = PeerReachabilityModel {
            mode: DirectReachabilityModeModel::RelayOnly,
            nat_behavior: NatBehaviorModel::Unknown,
            message_endpoint: Some(message_endpoint.to_owned()),
            bind_address: Some(bind_address),
            advertised_addresses: Vec::new(),
            observed_addresses,
        };
        assert(addresses_view(r.advertised_addresses@) =~= Seq::<AddressView>::empty());
        return r;
    }
    let advertised_address = ReachabilityAddressModel {
        base_url: bind_base_url,
        scope: bind_scope,
        source: ReachabilitySourceModel::LocalDetection,
        transport_protocol: TransportProtocolEnum::DirectTcp,
        confidence: match bind_scope {
            ReachabilityScopeModel::Public => ReachabilityConfidenceModel::High,
            ReachabilityScopeModel::Lan => ReachabilityConfidenceModel::Medium,
            ReachabilityScopeModel::Loopback => ReachabilityConfidenceModel::Low,
        },
        address_hint: bind_host.to_owned(),
    };
    let ghost adv = advertised_address@;
    let mut advertised: Vec<ReachabilityAddressModel> = Vec::new();
    advertised.push(advertised_address);
    assert(addresses_view(advertised@) =~= seq![adv]);
    PeerReachabilityModel {
        mode: match bind_scope {
            ReachabilityScopeModel::Public => DirectReachabilityModeModel::PublicDirect,
            ReachabilityScopeModel::Lan => DirectReachabilityModeModel::UnknownExternal,
            ReachabilityScopeModel::Loopback => DirectReachabilityModeModel::LocalOnly,
        },
        nat_behavior,
        message_endpoint: Some(message_endpoint.to_owned()),
        bind_address: Some(bind_address),
        advertised_addresses: advertised,
        observed_addresses,
    }
}

/// The name of a NAT behaviour.
pub open spec fn nat_label(nat_behavior: NatBehaviorModel) -> Seq<char> {
    match nat_behavior {
        NatBehaviorModel::Unknown => "unknown"@,
        NatBehaviorModel::Predictable => "predictable"@,
        NatBehaviorModel::Symmetric => "symmetric"@,
    }
}

/// The name of a NAT behaviour.
pub fn nat_behavior_label(nat_behavior: NatBehaviorModel) -> (r: &'static str)
    ensures
        r@ == nat_label(nat_behavior),
{
    match nat_behavior {
        NatBehaviorModel::Unknown => "unknown",
        NatBehaviorModel::Predictable => "predictable",
        NatBehaviorModel::Symmetric => "symmetric",
    }
}

/// The NAT behaviour that two discovery probes reveal: predictable when both
/// saw the same mapped port.
pub fn nat_behavior_from_probes(first_port: u16, second_port: u16) -> (r: NatBehaviorModel)
    ensures
        r == (if first_port == second_port { NatBehaviorModel::Predictable } else { NatBehaviorModel::Symmetric }),
{
    if first_port == second_port {
        NatBehaviorModel::Predictable
    } else {
        NatBehaviorModel::Symmetric
    }
}

// ---------------------------------------------------------------------------
// Runtime configuration
// ---------------------------------------------------------------------------

/// How a gateway runtime is configured. `storage_dir` is a path.
#[derive(Debug, Clone)]
pub struct GatewayRuntimeConfig {
    pub peer_id: String,
    pub device_key: String,
    pub display_name: Option<String>,
    pub target_peer_id: String,
    pub server_base_url: String,
    pub direct_bind_host: String,
    pub direct_bind_port: u16,
    pub communication_mode: CommunicationModeEnum,
    pub heartbeat_interval_secs: u64,
    pub storage_dir: String,
}

/// The view of a [`GatewayRuntimeConfig`].
pub struct GatewayConfigView {
    pub peer_id: Seq<char>,
    pub device_key: Seq<char>,
    pub display_name: Option<Seq<char>>,
    pub target_peer_id: Seq<char>,
    pub server_base_url: Seq<char>,
    pub direct_bind_host: Seq<char>,
    pub direct_bind_port: u16,
    pub communication_mode: CommunicationModeEnum,
    pub heartbeat_interval_secs: u64,
    pub storage_dir: Seq<char>,
}

impl View for GatewayRuntimeConfig {
    type V = GatewayConfigView;

    open spec fn view(&self) -> GatewayConfigView {
        GatewayConfigView {
            peer_id: self.peer_id@,
            device_key: self.device_key@,
            display_name: opt_str_view(self.display_name),
            target_peer_id: self.target_peer_id@,
            server_base_url: self.server_base_url@,
            direct_bind_host: self.direct_bind_host@,
            direct_bind_port: self.direct_bind_port,
            communication_mode: self.communication_mode,
            heartbeat_interval_secs: self.heartbeat_interval_secs,
            storage_dir: self.storage_dir@,
        }
    }
}

/// A configuration once normalized: the server URL without trailing
/// slashes, a heartbeat interval of at least one second, and relay-only
/// delivery when automatic delivery is asked for on a loopback bind host.
pub open spec fn normalized_spec(c: GatewayConfigView) -> GatewayConfigView {
    GatewayConfigView {
        server_base_url: trim_end_char(c.server_base_url, '/'),
        heartbeat_interval_secs: if c.heartbeat_interval_secs == 0 {
            DEFAULT_HEARTBEAT_INTERVAL_SECS
        } else {
            c.heartbeat_interval_secs
        },
        communication_mode: if c.communication_mode == CommunicationModeEnum::Auto && is_loopback_host_spec(
            c.direct_bind_host,
        ) {
            CommunicationModeEnum::RelayOnly
        } else {
            c.communication_mode
        },
        ..c
    }
}

impl GatewayRuntimeConfig {
    /// A configuration for the peer of `profile`; a relay-only profile gives
    /// relay-only delivery, any other automatic delivery.
    pub fn from_profile(
        profile: GatewayProfile,
        target_peer_id: String,
        server_base_url: String,
        direct_bind_host: String,
        direct_bind_port: u16,
        heartbeat_interval_secs: u64,
        storage_dir: String,
    ) -> (r: Self)
        ensures
            r@ == (GatewayConfigView {
                peer_id: profile.peer_id@,
                device_key: profile.device_key@,
                display_name: opt_str_view(profile.display_name),
                target_peer_id: target_peer_id@,
                server_base_url: server_base_url@,
                direct_bind_host: direct_bind_host@,
                direct_bind_port,
                communication_mode: if profile.reachability.mode == DirectReachabilityModeModel::RelayOnly {
                    CommunicationModeEnum::RelayOnly
                } else {
                    CommunicationModeEnum::Auto
                },
                heartbeat_interval_secs,
                storage_dir: storage_dir@,
            }),
    {
        GatewayRuntimeConfig {
            peer_id: profile.peer_id,
            device_key: profile.device_key,
            display_name: profile.display_name,
            target_peer_id,
            server_base_url,
            direct_bind_host,
            direct_bind_port,
            communication_mode: if profile.reachability.mode == DirectReachabilityModeModel::RelayOnly {
                CommunicationModeEnum::RelayOnly
            } else {
                CommunicationModeEnum::Auto
            },
            heartbeat_interval_secs,
            storage_dir,
        }
    }

    /// This configuration normalized.
    pub fn normalized(self) -> (r: Self)
        ensures
            r@ == normalized_spec(self@),
    {
        let mut c = self;
        c.server_base_url = normalize_server_base_url(c.server_base_url.as_str());
        if c.heartbeat_interval_secs == 0 {
            c.heartbeat_interval_secs = DEFAULT_HEARTBEAT_INTERVAL_SECS;
        }
        if c.communication_mode == CommunicationModeEnum::Auto && !should_advertise_direct_endpoint(
            c.direct_bind_host.as_str(),
        ) {
            c.communication_mode = CommunicationModeEnum::RelayOnly;
        }
        c
    }

    /// The profile a gateway with this configuration registers, before any
    /// discovery: its reachability follows the bind host and port, and the
    /// mode. `bind_ip` is the bind host parsed as an IP address.
    pub fn profile(&self, bind_ip: Option<IpAddressFacts>) -> (r: GatewayProfile)
        ensures
            r.peer_id@ == self.peer_id@,
            r.device_key@ == self.device_key@,
            opt_str_view(r.display_name) == opt_str_view(self.display_name),
            r.reachability@ == peer_reachability_spec(
                self.direct_bind_host@,
                self.direct_bind_port,
                self.communication_mode != CommunicationModeEnum::RelayOnly,
                DEFAULT_MESSAGE_ENDPOINT@,
                NatBehaviorModel::Unknown,
                Seq::empty(),
                scope_for_host_spec(self.direct_bind_host@, bind_ip),
            ),
    {
        let observed: Vec<ReachabilityAddressModel> = Vec::new();
        assert(addresses_view(observed@) =~= Seq::<AddressView>::empty());
        GatewayProfile {
            peer_id: self.peer_id.clone(),
            device_key: self.device_key.clone(),
            display_name: duplicate_opt_string(&self.display_name),
            reachability: peer_reachability_for(
                self.direct_bind_host.as_str(),
                self.direct_bind_port,
                self.communication_mode.supports_direct_advertisement(),
                DEFAULT_MESSAGE_ENDPOINT,
                NatBehaviorModel::Unknown,
                observed,
                bind_ip,
            ),
        }
    }

    /// The file of received messages.
    pub fn inbox_file(&self) -> (r: String)
        ensures
            r@ == join_path_spec(self.storage_dir@, "inbox.jsonl"@),
    {
        join_path(self.storage_dir.as_str(), "inbox.jsonl")
    }

    /// The file of recorded events.
    pub fn events_file(&self) -> (r: String)
        ensures
            r@ == join_path_spec(self.storage_dir@, "events.jsonl"@),
    {
        join_path(self.storage_dir.as_str(), "events.jsonl")
    }
}

} // verus!
