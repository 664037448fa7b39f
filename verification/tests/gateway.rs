use openhanse::gateway::{
    default_port_for_peer, default_runtime_storage_dir, direct_bind_candidates, display_name_for_peer,
    http_url_of, join_url, nat_behavior_from_probes, nat_behavior_label, normalize_server_base_url,
    peer_reachability_for, reachability_scope_for_host, should_advertise_direct_endpoint, CommunicationModeEnum,
    GatewayProfile, GatewayRuntimeConfig,
};
use openhanse::model::{
    DirectReachabilityModeModel, NatBehaviorModel, PeerReachabilityModel, ReachabilityAddressModel,
    ReachabilityConfidenceModel, ReachabilityScopeModel, ReachabilitySourceModel, TransportProtocolEnum,
};
use openhanse::clock::TimeUtil;
use openhanse::peers::IpAddressFacts;

fn local_candidate(port: u16) -> ReachabilityAddressModel {
    ReachabilityAddressModel {
        base_url: format!("http://127.0.0.1:{port}"),
        scope: ReachabilityScopeModel::Loopback,
        source: ReachabilitySourceModel::LocalDetection,
        transport_protocol: TransportProtocolEnum::DirectTcp,
        confidence: ReachabilityConfidenceModel::Low,
        address_hint: "127.0.0.1".to_string(),
    }
}

fn gateway_profile(peer_id: &str, port: u16) -> GatewayProfile {
    GatewayProfile {
        peer_id: peer_id.to_string(),
        device_key: format!("device-key-{peer_id}"),
        display_name: Some(display_name_for_peer(peer_id)),
        reachability: PeerReachabilityModel {
            mode: DirectReachabilityModeModel::LocalOnly,
            nat_behavior: NatBehaviorModel::Unknown,
            message_endpoint: Some("/message".to_string()),
            bind_address: Some(local_candidate(port)),
            advertised_addresses: vec![local_candidate(port)],
            observed_addresses: Vec::new(),
        },
    }
}

fn private_ipv4() -> IpAddressFacts {
    IpAddressFacts {
        is_ipv4: true,
        is_loopback: false,
        is_private: true,
        is_link_local: false,
        is_unique_local: false,
        is_unicast_link_local: false,
    }
}

fn config(host: &str, mode: CommunicationModeEnum) -> GatewayRuntimeConfig {
    GatewayRuntimeConfig {
        peer_id: "gateway-a".to_string(),
        device_key: "device-key-gateway-a".to_string(),
        display_name: Some("Gateway-a".to_string()),
        target_peer_id: "gateway-b".to_string(),
        server_base_url: "http://127.0.0.1:8080//".to_string(),
        direct_bind_host: host.to_string(),
        direct_bind_port: 7443,
        communication_mode: mode,
        heartbeat_interval_secs: 0,
        storage_dir: "/tmp/peers/gateway-a".to_string(),
    }
}

#[test]
fn builds_register_request_from_profile() {
    let profile = gateway_profile("gateway-a", 7443);
    let request = profile.register_request();

    assert_eq!(request.peer_id, "gateway-a");
    assert_eq!(request.reachability.message_endpoint.as_deref(), Some("/message"));
}

#[test]
fn communication_mode_controls_direct_preference() {
    assert!(CommunicationModeEnum::Auto.prefer_direct());
    assert!(CommunicationModeEnum::Direct.prefer_direct());
    assert!(!CommunicationModeEnum::RelayOnly.prefer_direct());
}

#[test]
fn normalizes_join_url() {
    assert_eq!(join_url("http://127.0.0.1:8080/", "/message"), "http://127.0.0.1:8080/message");
}

#[test]
fn direct_bind_candidates_keep_loopback_hosts() {
    assert_eq!(direct_bind_candidates("127.0.0.1", 0), vec!["127.0.0.1"]);
}

#[test]
fn direct_bind_candidates_fallback_to_any_for_ephemeral_lan_bind() {
    assert_eq!(
        direct_bind_candidates("192.168.1.105", 0),
        vec!["192.168.1.105", "0.0.0.0"]
    );
}

#[test]
fn join_url_keeps_absolute_suffixes_and_single_slashes() {
    assert_eq!(join_url("http://hub:8080", "https://peer/x"), "https://peer/x");
    assert_eq!(join_url("http://hub:8080///", "///v1/relay/send"), "http://hub:8080/v1/relay/send");
    assert_eq!(join_url("http://hub:8080", "message"), "http://hub:8080/message");
}

#[test]
fn server_base_url_loses_trailing_slashes_once_and_for_all() {
    let once = normalize_server_base_url("http://hub:8080///");
    assert_eq!(once, "http://hub:8080");
    assert_eq!(normalize_server_base_url(&once), once);
}

#[test]
fn display_names_capitalise_the_identifier() {
    assert_eq!(display_name_for_peer("gateway-a"), "Gateway-a");
    assert_eq!(display_name_for_peer("ßeta"), "SSeta");
    assert_eq!(display_name_for_peer(""), "OpenHanse Peer");
}

#[test]
fn default_ports_are_fixed_for_demo_gateways_and_hashed_otherwise() {
    assert_eq!(default_port_for_peer("gateway-a"), 17441);
    assert_eq!(default_port_for_peer("gateway-b"), 17442);
    let port = default_port_for_peer("someone-else");
    assert!((20000..40000).contains(&port));
    assert_eq!(port, default_port_for_peer("someone-else"));
}

#[test]
fn storage_dirs_nest_under_peers() {
    assert_eq!(default_runtime_storage_dir("/var/oh", "gateway-a"), "/var/oh/peers/gateway-a");
    assert_eq!(default_runtime_storage_dir("/var/oh/", "x"), "/var/oh/peers/x");
}

#[test]
fn loopback_hosts_do_not_advertise_direct_endpoints() {
    assert!(!should_advertise_direct_endpoint("localhost"));
    assert!(!should_advertise_direct_endpoint("::1"));
    assert!(should_advertise_direct_endpoint("192.168.1.20"));
}

#[test]
fn scopes_follow_the_bind_host() {
    assert_eq!(reachability_scope_for_host("127.0.0.1", None), ReachabilityScopeModel::Loopback);
    assert_eq!(reachability_scope_for_host("0.0.0.0", None), ReachabilityScopeModel::Lan);
    assert_eq!(reachability_scope_for_host("10.0.0.2", Some(private_ipv4())), ReachabilityScopeModel::Lan);
    assert_eq!(reachability_scope_for_host("hub.example", None), ReachabilityScopeModel::Public);
}

#[test]
fn relay_only_reachability_advertises_nothing() {
    let r = peer_reachability_for("10.0.0.2", 7443, false, "/message", NatBehaviorModel::Predictable, Vec::new(), Some(private_ipv4()));
    assert_eq!(r.mode, DirectReachabilityModeModel::RelayOnly);
    assert_eq!(r.nat_behavior, NatBehaviorModel::Unknown);
    assert!(r.advertised_addresses.is_empty());
    assert_eq!(r.bind_address.expect("bind").base_url, "http://10.0.0.2:7443");
}

#[test]
fn lan_reachability_advertises_bind_address_with_medium_confidence() {
    let r = peer_reachability_for("10.0.0.2", 7443, true, "/message", NatBehaviorModel::Symmetric, Vec::new(), Some(private_ipv4()));
    assert_eq!(r.mode, DirectReachabilityModeModel::UnknownExternal);
    assert_eq!(r.nat_behavior, NatBehaviorModel::Symmetric);
    assert_eq!(r.advertised_addresses.len(), 1);
    assert_eq!(r.advertised_addresses[0].confidence, ReachabilityConfidenceModel::Medium);
    assert_eq!(r.advertised_addresses[0].source, ReachabilitySourceModel::LocalDetection);
    assert_eq!(r.message_endpoint.as_deref(), Some("/message"));
}

#[test]
fn http_urls_show_host_and_port() {
    assert_eq!(http_url_of("10.0.0.2", 0), "http://10.0.0.2:0");
    assert_eq!(http_url_of("peer", 65535), "http://peer:65535");
}

#[test]
fn nat_behaviour_follows_probe_ports() {
    assert_eq!(nat_behavior_from_probes(4000, 4000), NatBehaviorModel::Predictable);
    assert_eq!(nat_behavior_from_probes(4000, 4001), NatBehaviorModel::Symmetric);
    assert_eq!(nat_behavior_label(NatBehaviorModel::Symmetric), "symmetric");
}

#[test]
fn normalized_config_trims_url_defaults_interval_and_goes_relay_on_loopback() {
    let c = config("127.0.0.1", CommunicationModeEnum::Auto).normalized();
    assert_eq!(c.server_base_url, "http://127.0.0.1:8080");
    assert_eq!(c.heartbeat_interval_secs, 10);
    assert_eq!(c.communication_mode, CommunicationModeEnum::RelayOnly);
    let d = config("127.0.0.1", CommunicationModeEnum::Direct).normalized();
    assert_eq!(d.communication_mode, CommunicationModeEnum::Direct);
    let lan = config("10.0.0.2", CommunicationModeEnum::Auto).normalized();
    assert_eq!(lan.communication_mode, CommunicationModeEnum::Auto);
}

#[test]
fn config_files_live_in_storage_dir() {
    let c = config("10.0.0.2", CommunicationModeEnum::Auto);
    assert_eq!(c.inbox_file(), "/tmp/peers/gateway-a/inbox.jsonl");
    assert_eq!(c.events_file(), "/tmp/peers/gateway-a/events.jsonl");
}

#[test]
fn profile_of_config_advertises_bind_address() {
    let c = config("10.0.0.2", CommunicationModeEnum::Auto);
    let p = c.profile(Some(private_ipv4()));
    assert_eq!(p.peer_id, "gateway-a");
    assert_eq!(p.reachability.advertised_addresses[0].base_url, "http://10.0.0.2:7443");
    let relay = config("10.0.0.2", CommunicationModeEnum::RelayOnly).profile(Some(private_ipv4()));
    assert_eq!(relay.reachability.mode, DirectReachabilityModeModel::RelayOnly);
}

#[test]
fn config_from_relay_only_profile_is_relay_only() {
    let mut profile = gateway_profile("gateway-a", 7443);
    profile.reachability.mode = DirectReachabilityModeModel::RelayOnly;
    let c = GatewayRuntimeConfig::from_profile(
        profile,
        "gateway-b".to_string(),
        "http://hub:8080".to_string(),
        "10.0.0.2".to_string(),
        0,
        5,
        "/tmp/x".to_string(),
    );
    assert_eq!(c.communication_mode, CommunicationModeEnum::RelayOnly);
    assert_eq!(c.target_peer_id, "gateway-b");
    let auto = GatewayRuntimeConfig::from_profile(
        gateway_profile("gateway-a", 7443),
        "gateway-b".to_string(),
        "http://hub:8080".to_string(),
        "10.0.0.2".to_string(),
        0,
        5,
        "/tmp/x".to_string(),
    );
    assert_eq!(auto.communication_mode, CommunicationModeEnum::Auto);
}

#[test]
fn profile_requests_carry_the_profile() {
    let profile = gateway_profile("gateway-a", 7443);
    assert_eq!(profile.heartbeat_request().peer_id, "gateway-a");
    let connect = profile.connect_request("gateway-b".to_string(), false);
    assert_eq!(connect.source_peer_id, "gateway-a");
    assert_eq!(connect.target_peer_id, "gateway-b");
    assert!(!connect.prefer_direct);
    let message = profile.outbound_message("gateway-b".to_string(), "hi".to_string(), 9);
    assert_eq!(message.from_peer_id, "gateway-a");
    assert_eq!(message.to_peer_id, "gateway-b");
    assert_eq!(message.message, "hi");
    assert_eq!(message.sent_at_unix_ms, 9);
    assert_eq!(openhanse::gateway::default_communication_mode(), CommunicationModeEnum::Auto);
    assert_eq!(CommunicationModeEnum::RelayOnly.as_str(), "relay");
    assert!(!CommunicationModeEnum::RelayOnly.supports_direct_advertisement());
}

#[test]
fn wall_clock_shifts_saturate() {
    assert_eq!(TimeUtil::shifted_forward(u64::MAX - 1, 5), u64::MAX);
    assert_eq!(TimeUtil::shifted_forward(1_000, 5), 1_005);
    assert_eq!(TimeUtil::shifted_back(1_000, 50, 20), 970);
    assert_eq!(TimeUtil::shifted_back(10, 50, 0), 0);
    assert_eq!(TimeUtil::shifted_back(1_000, 20, 50), 1_000);
    assert!(TimeUtil::unix_time_ms_from_now(60_000) >= 60_000);
}
