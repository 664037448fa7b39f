//! The web user interface's runtime: its configuration and the reports it
//! serves, built from those of the peer runtime behind it.
use crate::cli::{host_port_spec, hub_config_for, hub_runtime_config};
use crate::gateway::{CommunicationModeEnum, GatewayConfigView, GatewayRuntimeConfig};
use crate::gateway_state::{InboxEntryModel, UiEventModel};
use crate::model::{duplicate_opt_string, opt_str_view};
use crate::runtime::{
    GatewayRuntimeStatusModel, HubRuntimeStatusModel, PeerModeEnum, PeerRuntimeConfig,
    PeerRuntimeInfoModel, PeerRuntimeStatusModel,
};
use vstd::prelude::*;

verus! {

/// How the web user interface's runtime is configured. `storage_dir` is a
/// path.
#[derive(Debug, Clone)]
pub struct GatewayWebRuntimeConfig {
    pub peer_id: String,
    pub device_key: String,
    pub display_name: Option<String>,
    pub target_peer_id: String,
    pub server_base_url: String,
    pub direct_bind_host: String,
    pub direct_bind_port: u16,
    pub peer_mode: PeerModeEnum,
    pub communication_mode: CommunicationModeEnum,
    pub ui_bind_port: u16,
    pub heartbeat_interval_secs: u64,
    pub storage_dir: String,
}

impl GatewayWebRuntimeConfig {
    /// The peer runtime behind the user interface: its gateway as
    /// configured here, and the hub that the server URL derives.
    pub fn peer_config(&self) -> (r: Result<PeerRuntimeConfig, String>)
        ensures
            match r {
                Ok(c) => {
                    &&& c.peer_mode == self.peer_mode
                    &&& c.gateway@ == (GatewayConfigView {
                        peer_id: self.peer_id@,
                        device_key: self.device_key@,
                        display_name: opt_str_view(self.display_name),
                        target_peer_id: self.target_peer_id@,
                        server_base_url: self.server_base_url@,
                        direct_bind_host: self.direct_bind_host@,
                        direct_bind_port: self.direct_bind_port,
                        communication_mode: self.communication_mode,
                        heartbeat_interval_secs: self.heartbeat_interval_secs,
                        storage_dir: self.storage_dir@,
                    })
                    &&& host_port_spec(self.server_base_url@) matches Ok((h, p)) && hub_config_for(c.hub, h, p)
                },
                Err(e) => host_port_spec(self.server_base_url@) == Err::<(Seq<char>, u16), Seq<char>>(e@),
            },
    {
        let hub = hub_runtime_config(self.server_base_url.as_str())?;
        Ok(PeerRuntimeConfig {
            peer_mode: self.peer_mode,
            gateway: GatewayRuntimeConfig {
                peer_id: self.peer_id.clone(),
                device_key: self.device_key.clone(),
                display_name: duplicate_opt_string(&self.display_name),
                target_peer_id: self.target_peer_id.clone(),
                server_base_url: self.server_base_url.clone(),
                direct_bind_host: self.direct_bind_host.clone(),
                direct_bind_port: self.direct_bind_port,
                communication_mode: self.communication_mode,
                heartbeat_interval_secs: self.heartbeat_interval_secs,
                storage_dir: self.storage_dir.clone(),
            },
            hub,
        })
    }
}

/// Where the web user interface's runtime is.
#[derive(Debug, Clone)]
pub struct GatewayWebRuntimeInfoModel {
    pub peer_id: String,
    pub target_peer_id: String,
    pub peer_mode: String,
    pub server_base_url: String,
    pub direct_base_url: String,
    pub message_endpoint: String,
    pub ui_base_url: String,
    pub hub_bind_addr: Option<String>,
    pub discovery_udp_bind_addr: Option<String>,
    pub storage_dir: String,
}

/// What the web user interface's runtime reports.
#[derive(Debug, Clone)]
pub struct GatewayWebRuntimeStatusModel {
    pub peer_id: String,
    pub display_name: Option<String>,
    pub target_peer_id: String,
    pub peer_mode: String,
    pub communication_mode: String,
    pub server_base_url: String,
    pub direct_base_url: String,
    pub message_endpoint: String,
    pub ui_base_url: String,
    pub hub_bind_addr: Option<String>,
    pub discovery_udp_bind_addr: Option<String>,
    pub hub_peer_count: usize,
    pub hub_relay_session_count: usize,
    pub heartbeat_interval_secs: u64,
    pub heartbeat_state: String,
    pub last_registered_at_unix_ms: Option<u64>,
    pub last_heartbeat_at_unix_ms: Option<u64>,
    pub last_error: Option<String>,
    pub last_delivery_mode: Option<String>,
    pub last_delivery_summary: Option<String>,
    pub inbox_count: usize,
    pub event_count: usize,
    pub direct_sent_count: usize,
    pub relay_sent_count: usize,
    pub direct_received_count: usize,
    pub relay_received_count: usize,
}

/// Which events a client asks for: those after an identifier, or all.
#[derive(Debug, Clone)]
pub struct EventQueryModel {
    pub since_event_id: Option<u64>,
}

/// The inbox, as served.
#[derive(Debug, Clone)]
pub struct InboxListResponseModel {
    pub inbox: Vec<InboxEntryModel>,
}

/// Events, as served.
#[derive(Debug, Clone)]
pub struct EventsResponseModel {
    pub events: Vec<UiEventModel>,
}

/// The status, inbox and new events, served together.
#[derive(Debug, Clone)]
pub struct PollResponseModel {
    pub status: GatewayWebRuntimeStatusModel,
    pub inbox: Vec<InboxEntryModel>,
    pub events: Vec<UiEventModel>,
}

/// An error, as served.
#[derive(Debug, Clone)]
pub struct ErrorResponseModel {
    pub error: String,
}

/// A request to send a message to the target peer.
#[derive(Debug, Clone)]
pub struct SendMessageRequestModel {
    pub message: String,
}

/// The text of an optional string, empty when absent.
pub open spec fn text_or_empty(o: Option<Seq<char>>) -> Seq<char> {
    match o {
        Some(t) => t,
        None => Seq::empty(),
    }
}

/// Where the web user interface's runtime is, served at `ui_base_url`,
/// given where the parts of its peer runtime are; what a part that does not
/// run would tell is empty.
pub fn web_info(core: &PeerRuntimeInfoModel, ui_base_url: &str) -> (r: GatewayWebRuntimeInfoModel)
    ensures
        r.peer_id@ == text_or_empty(match core.gateway { Some(g) => Some(g.peer_id@), None => None }),
        r.target_peer_id@ == text_or_empty(match core.gateway { Some(g) => Some(g.target_peer_id@), None => None }),
        r.peer_mode@ == core.peer_mode@,
        r.server_base_url@ == text_or_empty(match core.gateway { Some(g) => Some(g.server_base_url@), None => None }),
        r.direct_base_url@ == text_or_empty(match core.gateway { Some(g) => Some(g.direct_base_url@), None => None }),
        r.message_endpoint@ == text_or_empty(match core.gateway { Some(g) => Some(g.message_endpoint@), None => None }),
        r.ui_base_url@ == ui_base_url@,
        opt_str_view(r.hub_bind_addr) == match core.hub { Some(h) => Some(h.bind_addr@), None => None },
        opt_str_view(r.discovery_udp_bind_addr) == match core.hub { Some(h) => Some(h.discovery_udp_bind_addr@), None => None },
        r.storage_dir@ == text_or_empty(match core.gateway { Some(g) => Some(g.storage_dir@), None => None }),
{
    let g = &core.gateway;
    let (hub_bind_addr, discovery_udp_bind_addr) = match &core.hub {
        Some(h) => (Some(h.bind_addr.clone()), Some(h.discovery_udp_bind_addr.clone())),
        None => (None, None),
    };
    match g {
        Some(g) => GatewayWebRuntimeInfoModel {
            peer_id: g.peer_id.clone(),
            target_peer_id: g.target_peer_id.clone(),
            peer_mode: core.peer_mode.clone(),
            server_base_url: g.server_base_url.clone(),
            direct_base_url: g.direct_base_url.clone(),
            message_endpoint: g.message_endpoint.clone(),
            ui_base_url: ui_base_url.to_owned(),
            hub_bind_addr,
            discovery_udp_bind_addr,
            storage_dir: g.storage_dir.clone(),
        },
        None => GatewayWebRuntimeInfoModel {
            peer_id: String::new(),
            target_peer_id: String::new(),
            peer_mode: core.peer_mode.clone(),
            server_base_url: String::new(),
            direct_base_url: String::new(),
            message_endpoint: String::new(),
            ui_base_url: ui_base_url.to_owned(),
            hub_bind_addr,
            discovery_udp_bind_addr,
            storage_dir: String::new(),
        },
    }
}

/// The field of a gateway report, or `d` when no gateway runs.
pub open spec fn gateway_text(g: Option<GatewayRuntimeStatusModel>, f: spec_fn(GatewayRuntimeStatusModel) -> Seq<char>, d: Seq<char>) -> Seq<char> {
    match g {
        Some(s) => f(s),
        None => d,
    }
}

/// The count of a gateway report, or 0 when no gateway runs.
pub open spec fn gateway_count(g: Option<GatewayRuntimeStatusModel>, f: spec_fn(GatewayRuntimeStatusModel) -> usize) -> usize {
    match g {
        Some(s) => f(s),
        None => 0,
    }
}

/// The optional text of a gateway report, absent when no gateway runs.
pub open spec fn gateway_opt(g: Option<GatewayRuntimeStatusModel>, f: spec_fn(GatewayRuntimeStatusModel) -> Option<String>) -> Option<Seq<char>> {
    match g {
        Some(s) => opt_str_view(f(s)),
        None => None,
    }
}

/// The count of a hub report, or 0 when no hub runs.
pub open spec fn hub_count(h: Option<HubRuntimeStatusModel>, f: spec_fn(HubRuntimeStatusModel) -> usize) -> usize {
    match h {
        Some(s) => f(s),
        None => 0,
    }
}

/// What the web user interface's runtime, served at `ui_base_url`,
/// reports, given what the parts of its peer runtime report: a part that
/// does not run reports empty text, no value and zero counts, and a missing
/// gateway's mode and state read `disabled`.
pub fn web_status(core: &PeerRuntimeStatusModel, ui_base_url: &str) -> (r: GatewayWebRuntimeStatusModel)
    ensures
        r.peer_id@ == gateway_text(core.gateway, |s: GatewayRuntimeStatusModel| s.peer_id@, Seq::empty()),
        opt_str_view(r.display_name) == gateway_opt(core.gateway, |s: GatewayRuntimeStatusModel| s.display_name),
        r.target_peer_id@ == gateway_text(core.gateway, |s: GatewayRuntimeStatusModel| s.target_peer_id@, Seq::empty()),
        r.peer_mode@ == core.peer_mode@,
        r.communication_mode@ == gateway_text(core.gateway, |s: GatewayRuntimeStatusModel| s.communication_mode@, "disabled"@),
        r.server_base_url@ == gateway_text(core.gateway, |s: GatewayRuntimeStatusModel| s.server_base_url@, Seq::empty()),
        r.direct_base_url@ == gateway_text(core.gateway, |s: GatewayRuntimeStatusModel| s.direct_base_url@, Seq::empty()),
        r.message_endpoint@ == gateway_text(core.gateway, |s: GatewayRuntimeStatusModel| s.message_endpoint@, Seq::empty()),
        r.ui_base_url@ == ui_base_url@,
        opt_str_view(r.hub_bind_addr) == match core.hub { Some(h) => Some(h.bind_addr@), None => None },
        opt_str_view(r.discovery_udp_bind_addr) == match core.hub { Some(h) => Some(h.discovery_udp_bind_addr@), None => None },
        r.hub_peer_count == hub_count(core.hub, |h: HubRuntimeStatusModel| h.peer_count),
        r.hub_relay_session_count == hub_count(core.hub, |h: HubRuntimeStatusModel| h.relay_session_count),
        r.heartbeat_interval_secs == match core.gateway { Some(s) => s.heartbeat_interval_secs, None => 0 },
        r.heartbeat_state@ == gateway_text(core.gateway, |s: GatewayRuntimeStatusModel| s.heartbeat_state@, "disabled"@),
        r.last_registered_at_unix_ms == match core.gateway { Some(s) => s.last_registered_at_unix_ms, None => None },
        r.last_heartbeat_at_unix_ms == match core.gateway { Some(s) => s.last_heartbeat_at_unix_ms, None => None },
        opt_str_view(r.last_error) == gateway_opt(core.gateway, |s: GatewayRuntimeStatusModel| s.last_error),
        opt_str_view(r.last_delivery_mode) == gateway_opt(core.gateway, |s: GatewayRuntimeStatusModel| s.last_delivery_mode),
        opt_str_view(r.last_delivery_summary) == gateway_opt(core.gateway, |s: GatewayRuntimeStatusModel| s.last_delivery_summary),
        r.inbox_count == gateway_count(core.gateway, |s: GatewayRuntimeStatusModel| s.inbox_count),
        r.event_count == gateway_count(core.gateway, |s: GatewayRuntimeStatusModel| s.event_count),
        r.direct_sent_count == gateway_count(core.gateway, |s: GatewayRuntimeStatusModel| s.direct_sent_count),
        r.relay_sent_count == gateway_count(core.gateway, |s: GatewayRuntimeStatusModel| s.relay_sent_count),
        r.direct_received_count == gateway_count(core.gateway, |s: GatewayRuntimeStatusModel| s.direct_received_count),
        r.relay_received_count == gateway_count(core.gateway, |s: GatewayRuntimeStatusModel| s.relay_received_count),
{
    let (hub_bind_addr, discovery_udp_bind_addr, hub_peer_count, hub_relay_session_count) = match &core.hub {
        Some(h) => (Some(h.bind_addr.clone()), Some(h.discovery_udp_bind_addr.clone()), h.peer_count, h.relay_session_count),
        None => (None, None, 0, 0),
    };
    match &core.gateway {
        Some(g) => GatewayWebRuntimeStatusModel {
            peer_id: g.peer_id.clone(),
            display_name: duplicate_opt_string(&g.display_name),
            target_peer_id: g.target_peer_id.clone(),
            peer_mode: core.peer_mode.clone(),
            communication_mode: g.communication_mode.clone(),
            server_base_url: g.server_base_url.clone(),
            direct_base_url: g.direct_base_url.clone(),
            message_endpoint: g.message_endpoint.clone(),
            ui_base_url: ui_base_url.to_owned(),
            hub_bind_addr,
            discovery_udp_bind_addr,
            hub_peer_count,
            hub_relay_session_count,
            heartbeat_interval_secs: g.heartbeat_interval_secs,
            heartbeat_state: g.heartbeat_state.clone(),
            last_registered_at_unix_ms: g.last_registered_at_unix_ms,
            last_heartbeat_at_unix_ms: g.last_heartbeat_at_unix_ms,
            last_error: duplicate_opt_string(&g.last_error),
            last_delivery_mode: duplicate_opt_string(&g.last_delivery_mode),
            last_delivery_summary: duplicate_opt_string(&g.last_delivery_summary),
            inbox_count: g.inbox_count,
            event_count: g.event_count,
            direct_sent_count: g.direct_sent_count,
            relay_sent_count: g.relay_sent_count,
            direct_received_count: g.direct_received_count,
            relay_received_count: g.relay_received_count,
        },
        None => GatewayWebRuntimeStatusModel {
            peer_id: String::new(),
            display_name: None,
            target_peer_id: String::new(),
            peer_mode: core.peer_mode.clone(),
            communication_mode: "disabled".to_owned(),
            server_base_url: String::new(),
            direct_base_url: String::new(),
            message_endpoint: String::new(),
            ui_base_url: ui_base_url.to_owned(),
            hub_bind_addr,
            discovery_udp_bind_addr,
            hub_peer_count,
            hub_relay_session_count,
            heartbeat_interval_secs: 0,
            heartbeat_state: "disabled".to_owned(),
            last_registered_at_unix_ms: None,
            last_heartbeat_at_unix_ms: None,
            last_error: None,
            last_delivery_mode: None,
            last_delivery_summary: None,
            inbox_count: 0,
            event_count: 0,
            direct_sent_count: 0,
            relay_sent_count: 0,
            direct_received_count: 0,
            relay_received_count: 0,
        },
    }
}

} // verus!
