//! What a peer runs (a gateway, a hub or both), how each part is
//! configured, and what it reports about itself.
use crate::gateway::{GatewayProfile, GatewayRuntimeConfig, mode_name};
use crate::gateway_flow::endpoint_or_default;
use crate::gateway_state::{GatewayRuntimeState, heartbeat_state_spec};
use crate::hub::{HubView, ServerStateModel};
use crate::model::{duplicate_opt_string, opt_str_view};
use vstd::prelude::*;

verus! {

// ---------------------------------------------------------------------------
// Peer modes
// ---------------------------------------------------------------------------

/// What a peer runs.
#[derive(Debug, Clone, Copy, PartialEq, Eq, Structural)]
pub enum PeerModeEnum {
    Both,
    Hub,
    Gateway,
}

/// The name of a peer mode.
pub open spec fn peer_mode_name(m: PeerModeEnum) -> Seq<char> {
    match m {
        PeerModeEnum::Both => "both"@,
        PeerModeEnum::Hub => "hub"@,
        PeerModeEnum::Gateway => "gateway"@,
    }
}

impl PeerModeEnum {
    /// Whether a peer in this mode runs a gateway.
    pub open spec fn runs_gateway_spec(self) -> bool {
        self == PeerModeEnum::Both || self == PeerModeEnum::Gateway
    }

    /// Whether a peer in this mode runs a hub.
    pub open spec fn runs_hub_spec(self) -> bool {
        self == PeerModeEnum::Both || self == PeerModeEnum::Hub
    }

    /// Whether a peer in this mode runs a gateway.
    #[verifier::when_used_as_spec(runs_gateway_spec)]
    pub fn runs_gateway(self) -> (r: bool)
        ensures
            r == self.runs_gateway_spec(),
    {
        match self {
            PeerModeEnum::Both | PeerModeEnum::Gateway => true,
            PeerModeEnum::Hub => false,
        }
    }

    /// Whether a peer in this mode runs a hub.
    #[verifier::when_used_as_spec(runs_hub_spec)]
    pub fn runs_hub(self) -> (r: bool)
        ensures
            r == self.runs_hub_spec(),
    {
        match self {
            PeerModeEnum::Both | PeerModeEnum::Hub => true,
            PeerModeEnum::Gateway => false,
        }
    }

    /// The mode's name.
    pub fn as_str(self) -> (r: &'static str)
        ensures
            r@ == peer_mode_name(self),
    {
        match self {
            PeerModeEnum::Both => "both",
            PeerModeEnum::Hub => "hub",
            PeerModeEnum::Gateway => "gateway",
        }
    }
}

/// The peer mode of a configuration that names none.
pub fn default_peer_mode() -> (r: PeerModeEnum)
    ensures
        r == PeerModeEnum::Gateway,
{
    PeerModeEnum::Gateway
}

// ---------------------------------------------------------------------------
// Hub runtime
// ---------------------------------------------------------------------------

/// The address a hub serves HTTP on by default.
pub const DEFAULT_BIND_ADDR: &'static str = "0.0.0.0:8080";

/// The address a hub answers UDP discovery probes on by default; the port
/// after it answers too.
pub const DEFAULT_DISCOVERY_UDP_BIND_ADDR: &'static str = "0.0.0.0:3478";

/// How long a registration lasts without a heartbeat, by default.
pub const DEFAULT_PRESENCE_LEASE_SECS: u64 = 30;

/// How often a hub drops what expired, by default.
pub const DEFAULT_CLEANUP_INTERVAL_SECS: u64 = 5;

/// How long a relay session lasts, by default.
pub const DEFAULT_RELAY_SESSION_TIMEOUT_SECS: u64 = 60;

/// How a hub runtime is configured.
#[derive(Debug, Clone)]
pub struct HubRuntimeConfig {
    pub bind_addr: String,
    pub discovery_udp_bind_addr: String,
    pub presence_lease_secs: u64,
    pub cleanup_interval_secs: u64,
    pub relay_session_timeout_secs: u64,
}

impl Default for HubRuntimeConfig {
    fn default() -> (r: Self)
        ensures
            r.bind_addr@ == DEFAULT_BIND_ADDR@,
            r.discovery_udp_bind_addr@ == DEFAULT_DISCOVERY_UDP_BIND_ADDR@,
            r.presence_lease_secs == DEFAULT_PRESENCE_LEASE_SECS,
            r.cleanup_interval_secs == DEFAULT_CLEANUP_INTERVAL_SECS,
            r.relay_session_timeout_secs == DEFAULT_RELAY_SESSION_TIMEOUT_SECS,
    {
        HubRuntimeConfig {
            bind_addr: DEFAULT_BIND_ADDR.to_owned(),
            discovery_udp_bind_addr: DEFAULT_DISCOVERY_UDP_BIND_ADDR.to_owned(),
            presence_lease_secs: DEFAULT_PRESENCE_LEASE_SECS,
            cleanup_interval_secs: DEFAULT_CLEANUP_INTERVAL_SECS,
            relay_session_timeout_secs: DEFAULT_RELAY_SESSION_TIMEOUT_SECS,
        }
    }
}

/// Where a hub runtime listens.
#[derive(Debug, Clone)]
pub struct HubRuntimeInfoModel {
    pub bind_addr: String,
    pub discovery_udp_bind_addr: String,
}

/// What a hub runtime reports about itself.
#[derive(Debug, Clone)]
pub struct HubRuntimeStatusModel {
    pub bind_addr: String,
    pub discovery_udp_bind_addr: String,
    pub presence_lease_secs: u64,
    pub cleanup_interval_secs: u64,
    pub relay_session_timeout_secs: u64,
    pub peer_count: usize,
    pub relay_session_count: usize,
}

/// `secs` seconds in milliseconds, capped at `u64::MAX`.
pub open spec fn secs_to_millis(secs: u64) -> u64 {
    if secs * 1000 > u64::MAX { u64::MAX } else { (secs * 1000) as u64 }
}

/// `secs` seconds in milliseconds, capped at `u64::MAX`.
fn millis_of_secs(secs: u64) -> (r: u64)
    ensures
        r == secs_to_millis(secs),
{
    if secs > u64::MAX / 1000 {
        u64::MAX
    } else {
        secs * 1000
    }
}

impl HubRuntimeConfig {
    /// An empty hub state with this configuration's lease and relay session
    /// timeout.
    pub fn server_state(&self) -> (r: ServerStateModel)
        ensures
            r.wf(),
            r@ == (HubView {
                peers: Seq::empty(),
                sessions: Seq::empty(),
                lease: secs_to_millis(self.presence_lease_secs),
                timeout: secs_to_millis(self.relay_session_timeout_secs),
            }),
    {
        ServerStateModel::with_lease_millis(
            millis_of_secs(self.presence_lease_secs),
            millis_of_secs(self.relay_session_timeout_secs),
        )
    }

    /// Where a hub with this configuration listens.
    pub fn info(&self) -> (r: HubRuntimeInfoModel)
        ensures
            r.bind_addr@ == self.bind_addr@,
            r.discovery_udp_bind_addr@ == self.discovery_udp_bind_addr@,
    {
        HubRuntimeInfoModel {
            bind_addr: self.bind_addr.clone(),
            discovery_udp_bind_addr: self.discovery_udp_bind_addr.clone(),
        }
    }

    /// What a hub with this configuration reports while it holds
    /// `peer_count` peers and `relay_session_count` relay sessions.
    pub fn status(&self, peer_count: usize, relay_session_count: usize) -> (r: HubRuntimeStatusModel)
        ensures
            r.bind_addr@ == self.bind_addr@,
            r.discovery_udp_bind_addr@ == self.discovery_udp_bind_addr@,
            r.presence_lease_secs == self.presence_lease_secs,
            r.cleanup_interval_secs == self.cleanup_interval_secs,
            r.relay_session_timeout_secs == self.relay_session_timeout_secs,
            r.peer_count == peer_count,
            r.relay_session_count == relay_session_count,
    {
        HubRuntimeStatusModel {
            bind_addr: self.bind_addr.clone(),
            discovery_udp_bind_addr: self.discovery_udp_bind_addr.clone(),
            presence_lease_secs: self.presence_lease_secs,
            cleanup_interval_secs: self.cleanup_interval_secs,
            relay_session_timeout_secs: self.relay_session_timeout_secs,
            peer_count,
            relay_session_count,
        }
    }
}

// ---------------------------------------------------------------------------
// Gateway runtime reports
// ---------------------------------------------------------------------------

/// Where a gateway runtime is and what it aims at.
#[derive(Debug, Clone)]
pub struct GatewayRuntimeInfoModel {
    pub peer_id: String,
    pub target_peer_id: String,
    pub server_base_url: String,
    pub direct_base_url: String,
    pub message_endpoint: String,
    pub storage_dir: String,
}

/// What a gateway runtime reports about itself.
#[derive(Debug, Clone)]
pub struct GatewayRuntimeStatusModel {
    pub peer_id: String,
    pub display_name: Option<String>,
    pub target_peer_id: String,
    pub communication_mode: String,
    pub server_base_url: String,
    pub direct_base_url: String,
    pub message_endpoint: String,
    pub heartbeat_interval_secs: u64,
    pub heartbeat_state: String,
    pub last_registered_at_unix_ms: Option<u64>,
    pub last_heartbeat_at_unix_ms: Option<u64>,
    pub last_error: Option<String>,
    pub last_delivery_mode: Option<String>,
    pub last_delivery_summary: Option<String>,
    pub inbox_count: usize,
    pub event_count: usize,
    pub direct_sent_count: usize,
    pub relay_sent_count: usize,
    pub direct_received_count: usize,
    pub relay_received_count: usize,
}

/// The path a profile receives direct messages on, or the default one.
fn message_endpoint_of(profile: &GatewayProfile) -> (r: String)
    ensures
        r@ == endpoint_or_default(profile.reachability@.message_endpoint),
{
    match &profile.reachability.message_endpoint {
        Some(p) => p.clone(),
        None => crate::gateway::DEFAULT_MESSAGE_ENDPOINT.to_owned(),
    }
}

/// Where a gateway runtime with `config`, registered with `profile` and
/// receiving direct messages at `direct_base_url`, is.
pub fn gateway_info(config: &GatewayRuntimeConfig, profile: &GatewayProfile, direct_base_url: &str) -> (r: GatewayRuntimeInfoModel)
    ensures
        r.peer_id@ == profile.peer_id@,
        r.target_peer_id@ == config.target_peer_id@,
        r.server_base_url@ == config.server_base_url@,
        r.direct_base_url@ == direct_base_url@,
        r.message_endpoint@ == endpoint_or_default(profile.reachability@.message_endpoint),
        r.storage_dir@ == config.storage_dir@,
{
    GatewayRuntimeInfoModel {
        peer_id: profile.peer_id.clone(),
        target_peer_id: config.target_peer_id.clone(),
        server_base_url: config.server_base_url.clone(),
        direct_base_url: direct_base_url.to_owned(),
        message_endpoint: message_endpoint_of(profile),
        storage_dir: config.storage_dir.clone(),
    }
}

/// What a gateway runtime with `config`, registered with `profile`,
/// receiving direct messages at `direct_base_url` and remembering `state`,
/// reports.
pub fn gateway_status(
    config: &GatewayRuntimeConfig,
    profile: &GatewayProfile,
    direct_base_url: &str,
    state: &GatewayRuntimeState,
) -> (r: GatewayRuntimeStatusModel)
    ensures
        r.peer_id@ == profile.peer_id@,
        opt_str_view(r.display_name) == opt_str_view(profile.display_name),
        r.target_peer_id@ == config.target_peer_id@,
        r.communication_mode@ == mode_name(config.communication_mode),
        r.server_base_url@ == config.server_base_url@,
        r.direct_base_url@ == direct_base_url@,
        r.message_endpoint@ == endpoint_or_default(profile.reachability@.message_endpoint),
        r.heartbeat_interval_secs == config.heartbeat_interval_secs,
        r.heartbeat_state@ == heartbeat_state_spec(state@),
        r.last_registered_at_unix_ms == state.last_registered_at_unix_ms,
        r.last_heartbeat_at_unix_ms == state.last_heartbeat_at_unix_ms,
        opt_str_view(r.last_error) == opt_str_view(state.last_error),
        opt_str_view(r.last_delivery_mode) == opt_str_view(state.last_delivery_mode),
        opt_str_view(r.last_delivery_summary) == opt_str_view(state.last_delivery_summary),
        r.inbox_count == state.inbox@.len(),
        r.event_count == state.events@.len(),
        r.direct_sent_count == state.direct_sent_count,
        r.relay_sent_count == state.relay_sent_count,
        r.direct_received_count == state.direct_received_count,
        r.relay_received_count == state.relay_received_count,
{
    GatewayRuntimeStatusModel {
        peer_id: profile.peer_id.clone(),
        display_name: duplicate_opt_string(&profile.display_name),
        target_peer_id: config.target_peer_id.clone(),
        communication_mode: config.communication_mode.as_str().to_owned(),
        server_base_url: config.server_base_url.clone(),
        direct_base_url: direct_base_url.to_owned(),
        message_endpoint: message_endpoint_of(profile),
        heartbeat_interval_secs: config.heartbeat_interval_secs,
        heartbeat_state: state.heartbeat_state(),
        last_registered_at_unix_ms: state.last_registered_at_unix_ms,
        last_heartbeat_at_unix_ms: state.last_heartbeat_at_unix_ms,
        last_error: duplicate_opt_string(&state.last_error),
        last_delivery_mode: duplicate_opt_string(&state.last_delivery_mode),
        last_delivery_summary: duplicate_opt_string(&state.last_delivery_summary),
        inbox_count: state.inbox.len(),
        event_count: state.events.len(),
        direct_sent_count: state.direct_sent_count,
        relay_sent_count: state.relay_sent_count,
        direct_received_count: state.direct_received_count,
        relay_received_count: state.relay_received_count,
    }
}

// ---------------------------------------------------------------------------
// Peer runtime
// ---------------------------------------------------------------------------

/// How a peer runtime is configured.
#[derive(Debug, Clone)]
pub struct PeerRuntimeConfig {
    pub peer_mode: PeerModeEnum,
    pub gateway: GatewayRuntimeConfig,
    pub hub: HubRuntimeConfig,
}

/// Where the parts of a peer runtime are.
#[derive(Debug, Clone)]
pub struct PeerRuntimeInfoModel {
    pub peer_mode: String,
    pub gateway: Option<GatewayRuntimeInfoModel>,
    pub hub: Option<HubRuntimeInfoModel>,
}

/// What the parts of a peer runtime report.
#[derive(Debug, Clone)]
pub struct PeerRuntimeStatusModel {
    pub peer_mode: String,
    pub gateway: Option<GatewayRuntimeStatusModel>,
    pub hub: Option<HubRuntimeStatusModel>,
}

/// Where the parts of a peer runtime in `peer_mode` are, given those of
/// its running gateway and hub.
pub fn peer_runtime_info(
    peer_mode: PeerModeEnum,
    gateway: Option<GatewayRuntimeInfoModel>,
    hub: Option<HubRuntimeInfoModel>,
) -> (r: PeerRuntimeInfoModel)
    ensures
        r.peer_mode@ == peer_mode_name(peer_mode),
        r.gateway == gateway,
        r.hub == hub,
{
    PeerRuntimeInfoModel { peer_mode: peer_mode.as_str().to_owned(), gateway, hub }
}

/// What a peer runtime in `peer_mode` reports, given the reports of its
/// running gateway and hub.
pub fn peer_runtime_status(
    peer_mode: PeerModeEnum,
    gateway: Option<GatewayRuntimeStatusModel>,
    hub: Option<HubRuntimeStatusModel>,
) -> (r: PeerRuntimeStatusModel)
    ensures
        r.peer_mode@ == peer_mode_name(peer_mode),
        r.gateway == gateway,
        r.hub == hub,
{
    PeerRuntimeStatusModel { peer_mode: peer_mode.as_str().to_owned(), gateway, hub }
}

} // verus!
