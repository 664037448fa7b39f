use openhanse::gateway::{CommunicationModeEnum, GatewayProfile, GatewayRuntimeConfig};
use openhanse::gateway_state::GatewayRuntimeState;
use openhanse::model::{DirectReachabilityModeModel, NatBehaviorModel, PeerReachabilityModel};
use openhanse::runtime::{
    default_peer_mode, gateway_info, gateway_status, peer_runtime_info, peer_runtime_status, HubRuntimeConfig,
    PeerModeEnum,
};
use openhanse::web::{web_info, web_status, GatewayWebRuntimeConfig};

fn config() -> GatewayRuntimeConfig {
    GatewayRuntimeConfig {
        peer_id: "gateway-a".to_string(),
        device_key: "k".to_string(),
        display_name: Some("Gateway-a".to_string()),
        target_peer_id: "gateway-b".to_string(),
        server_base_url: "http://hub:8080".to_string(),
        direct_bind_host: "10.0.0.2".to_string(),
        direct_bind_port: 7443,
        communication_mode: CommunicationModeEnum::Direct,
        heartbeat_interval_secs: 15,
        storage_dir: "/tmp/a".to_string(),
    }
}

fn profile(endpoint: Option<&str>) -> GatewayProfile {
    GatewayProfile {
        peer_id: "gateway-a".to_string(),
        device_key: "k".to_string(),
        display_name: Some("Gateway-a".to_string()),
        reachability: PeerReachabilityModel {
            mode: DirectReachabilityModeModel::RelayOnly,
            nat_behavior: NatBehaviorModel::Unknown,
            message_endpoint: endpoint.map(|e| e.to_string()),
            bind_address: None,
            advertised_addresses: Vec::new(),
            observed_addresses: Vec::new(),
        },
    }
}

#[test]
fn peer_modes_say_what_runs() {
    assert!(PeerModeEnum::Both.runs_gateway() && PeerModeEnum::Both.runs_hub());
    assert!(PeerModeEnum::Hub.runs_hub() && !PeerModeEnum::Hub.runs_gateway());
    assert!(PeerModeEnum::Gateway.runs_gateway() && !PeerModeEnum::Gateway.runs_hub());
    assert_eq!(PeerModeEnum::Both.as_str(), "both");
    assert_eq!(default_peer_mode(), PeerModeEnum::Gateway);
}

#[test]
fn hub_defaults_and_reports() {
    let c = HubRuntimeConfig::default();
    assert_eq!(c.bind_addr, "0.0.0.0:8080");
    assert_eq!(c.discovery_udp_bind_addr, "0.0.0.0:3478");
    assert_eq!(c.presence_lease_secs, 30);
    assert_eq!(c.server_state().lease_seconds(), 30);
    let s = c.status(2, 1);
    assert_eq!(s.peer_count, 2);
    assert_eq!(s.relay_session_count, 1);
    assert_eq!(s.relay_session_timeout_secs, 60);
    assert_eq!(c.info().bind_addr, "0.0.0.0:8080");
}

#[test]
fn gateway_reports_combine_config_profile_and_state() {
    let mut state = GatewayRuntimeState::new(Vec::new(), Vec::new());
    state.record_registered(5, 30);
    let status = gateway_status(&config(), &profile(None), "http://10.0.0.2:7443", &state);
    assert_eq!(status.communication_mode, "direct");
    assert_eq!(status.message_endpoint, "/message");
    assert_eq!(status.heartbeat_state, "online");
    assert_eq!(status.heartbeat_interval_secs, 15);
    assert_eq!(status.last_registered_at_unix_ms, Some(5));
    let info = gateway_info(&config(), &profile(Some("/inbox")), "http://10.0.0.2:7443");
    assert_eq!(info.message_endpoint, "/inbox");
    assert_eq!(info.storage_dir, "/tmp/a");
    let peer = peer_runtime_info(PeerModeEnum::Gateway, Some(info), None);
    assert_eq!(peer.peer_mode, "gateway");
    let web = web_info(&peer, "http://127.0.0.1:9000");
    assert_eq!(web.peer_id, "gateway-a");
    assert_eq!(web.hub_bind_addr, None);
    assert_eq!(web.ui_base_url, "http://127.0.0.1:9000");
    let core = peer_runtime_status(PeerModeEnum::Gateway, Some(status), None);
    let web = web_status(&core, "http://127.0.0.1:9000");
    assert_eq!(web.heartbeat_state, "online");
    assert_eq!(web.hub_peer_count, 0);
}

#[test]
fn web_reports_without_a_gateway_read_disabled() {
    let hub = HubRuntimeConfig::default();
    let core = peer_runtime_status(PeerModeEnum::Hub, None, Some(hub.status(3, 0)));
    let web = web_status(&core, "u");
    assert_eq!(web.peer_mode, "hub");
    assert_eq!(web.communication_mode, "disabled");
    assert_eq!(web.heartbeat_state, "disabled");
    assert_eq!(web.peer_id, "");
    assert_eq!(web.hub_peer_count, 3);
    assert_eq!(web.hub_bind_addr.as_deref(), Some("0.0.0.0:8080"));
}

#[test]
fn web_config_derives_peer_config() {
    let web = GatewayWebRuntimeConfig {
        peer_id: "gateway-a".to_string(),
        device_key: "k".to_string(),
        display_name: None,
        target_peer_id: "gateway-b".to_string(),
        server_base_url: "http://127.0.0.1:8080".to_string(),
        direct_bind_host: "127.0.0.1".to_string(),
        direct_bind_port: 0,
        peer_mode: PeerModeEnum::Both,
        communication_mode: CommunicationModeEnum::Auto,
        ui_bind_port: 0,
        heartbeat_interval_secs: 10,
        storage_dir: "/tmp/web".to_string(),
    };
    let c = web.peer_config().expect("peer config");
    assert_eq!(c.peer_mode, PeerModeEnum::Both);
    assert_eq!(c.gateway.storage_dir, "/tmp/web");
    assert_eq!(c.hub.bind_addr, "127.0.0.1:8080");
    let broken = GatewayWebRuntimeConfig { server_base_url: "http://hub".to_string(), ..web };
    assert_eq!(broken.peer_config().err(), Some("server URL must include a port: http://hub".to_string()));
}
