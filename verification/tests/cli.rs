use openhanse::cli::{
    chat_banner, host_and_port_from_url, hub_banner, hub_runtime_config, inbox_notice, optional_option,
    parse_chat_command, parse_chat_config, parse_communication_mode, parse_peer_mode, required_option, trim,
    ChatCommand,
};
use openhanse::gateway::CommunicationModeEnum;
use openhanse::gateway_state::UiEventModel;
use openhanse::runtime::{GatewayRuntimeInfoModel, HubRuntimeInfoModel, PeerModeEnum};

fn args(list: &[&str]) -> Vec<String> {
    list.iter().map(|s| s.to_string()).collect()
}

#[test]
fn options_take_the_value_after_their_first_occurrence() {
    let a = args(&["--id", "x", "--id", "y", "--port"]);
    assert_eq!(optional_option(&a, "--id").as_deref(), Some("x"));
    assert_eq!(optional_option(&a, "--port"), None);
    assert_eq!(optional_option(&a, "--host"), None);
    assert_eq!(required_option(&a, "--host"), Err("--host is required".to_string()));
    assert_eq!(required_option(&a, "--id"), Ok("x".to_string()));
}

#[test]
fn modes_parse_from_their_names() {
    assert_eq!(parse_communication_mode("relay"), Ok(CommunicationModeEnum::RelayOnly));
    assert_eq!(
        parse_communication_mode("fast"),
        Err("invalid --communication-mode value: fast (expected 'auto', 'direct', or 'relay')".to_string())
    );
    for m in [CommunicationModeEnum::Auto, CommunicationModeEnum::Direct, CommunicationModeEnum::RelayOnly] {
        assert_eq!(parse_communication_mode(m.as_str()), Ok(m));
    }
    for m in [PeerModeEnum::Both, PeerModeEnum::Hub, PeerModeEnum::Gateway] {
        assert_eq!(parse_peer_mode(m.as_str()), Ok(m));
    }
    assert_eq!(
        parse_peer_mode("client"),
        Err("invalid --peer-mode value: client (expected 'both', 'hub', or 'gateway')".to_string())
    );
}

#[test]
fn server_urls_give_host_and_port() {
    assert_eq!(host_and_port_from_url("http://192.168.1.10:8080/api"), Ok(("192.168.1.10".to_string(), 8080)));
    assert_eq!(host_and_port_from_url("hub:9000"), Ok(("hub".to_string(), 9000)));
    assert_eq!(
        host_and_port_from_url("http://hub"),
        Err("server URL must include a port: http://hub".to_string())
    );
    assert_eq!(
        host_and_port_from_url("http://hub:99999"),
        Err("invalid server port in URL: http://hub:99999".to_string())
    );
}

#[test]
fn hub_binds_loopback_or_everything() {
    let local = hub_runtime_config("http://LocalHost:8080").expect("config");
    assert_eq!(local.bind_addr, "LocalHost:8080");
    assert_eq!(local.discovery_udp_bind_addr, "LocalHost:3478");
    assert_eq!(local.presence_lease_secs, 30);
    assert_eq!(local.cleanup_interval_secs, 5);
    assert_eq!(local.relay_session_timeout_secs, 60);
    let lan = hub_runtime_config("http://192.168.1.10:8080").expect("config");
    assert_eq!(lan.bind_addr, "0.0.0.0:8080");
    assert_eq!(lan.discovery_udp_bind_addr, "0.0.0.0:3478");
}

#[test]
fn chat_config_needs_an_id_and_a_target() {
    assert_eq!(parse_chat_config(&args(&[]), "10.0.0.2", "/rt").err(), Some("--id is required".to_string()));
    assert_eq!(
        parse_chat_config(&args(&["--id", "gateway-a"]), "10.0.0.2", "/rt").err(),
        Some("--target is required unless --peer-mode hub is used".to_string())
    );
    assert_eq!(
        parse_chat_config(&args(&["--id", "a", "--target", "b", "--port", "x1"]), "10.0.0.2", "/rt").err(),
        Some("invalid --port value: x1".to_string())
    );
    assert_eq!(
        parse_chat_config(&args(&["--id", "a", "--target", "b", "--heartbeat-interval-secs", "-1"]), "h", "/rt").err(),
        Some("invalid --heartbeat-interval-secs value: -1".to_string())
    );
    assert_eq!(
        parse_chat_config(&args(&["--id", "a", "--target", "b", "--server", "http://hub"]), "h", "/rt").err(),
        Some("server URL must include a port: http://hub".to_string())
    );
}

#[test]
fn chat_config_fills_in_defaults() {
    let c = parse_chat_config(&args(&["--id", "gateway-a", "--target", "gateway-b"]), "10.0.0.2", "/rt")
        .expect("config");
    assert_eq!(c.runtime.peer_mode, PeerModeEnum::Gateway);
    let g = &c.runtime.gateway;
    assert_eq!(g.peer_id, "gateway-a");
    assert_eq!(g.device_key, "device-key-gateway-a");
    assert_eq!(g.display_name.as_deref(), Some("Gateway-a"));
    assert_eq!(g.target_peer_id, "gateway-b");
    assert_eq!(g.server_base_url, "http://127.0.0.1:8080");
    assert_eq!(g.direct_bind_host, "10.0.0.2");
    assert_eq!(g.direct_bind_port, 17441);
    assert_eq!(g.communication_mode, CommunicationModeEnum::Auto);
    assert_eq!(g.heartbeat_interval_secs, 10);
    assert_eq!(g.storage_dir, "/rt/peers/gateway-a");
    assert_eq!(c.inbox_file, "/rt/peers/gateway-a/inbox.jsonl");
    assert_eq!(c.runtime.hub.bind_addr, "127.0.0.1:8080");
}

#[test]
fn hub_peers_need_no_target() {
    let c = parse_chat_config(
        &args(&["--id", "hub-a", "--peer-mode", "hub", "--server", "http://0.0.0.0:8080", "--port", "+42"]),
        "h",
        "/rt",
    )
    .expect("config");
    assert_eq!(c.runtime.peer_mode, PeerModeEnum::Hub);
    assert_eq!(c.runtime.gateway.target_peer_id, "hub-a");
    assert_eq!(c.runtime.gateway.direct_bind_port, 42);
    assert_eq!(c.runtime.hub.bind_addr, "0.0.0.0:8080");
}

#[test]
fn prompt_lines_become_commands() {
    assert_eq!(parse_chat_command("   "), ChatCommand::Nothing);
    assert_eq!(parse_chat_command(" /exit\n"), ChatCommand::Quit);
    assert_eq!(parse_chat_command("/quit"), ChatCommand::Quit);
    assert_eq!(parse_chat_command("/status"), ChatCommand::Status);
    assert_eq!(parse_chat_command("/inbox "), ChatCommand::Inbox);
    assert_eq!(parse_chat_command("\t/lookup"), ChatCommand::Lookup);
    assert_eq!(parse_chat_command("/connect"), ChatCommand::Connect);
    assert_eq!(parse_chat_command("  hello there \r\n"), ChatCommand::Send { message: "hello there".to_string() });
    assert_eq!(trim("\u{3000} x y \u{a0}"), "x y");
}

#[test]
fn only_received_messages_are_printed() {
    let received = UiEventModel { id: 1, kind: "message_received".to_string(), message: "hi".to_string(), created_at_unix_ms: 77 };
    assert_eq!(inbox_notice(&received).as_deref(), Some("[inbox @ 77] hi"));
    let other = UiEventModel { kind: "message_sent".to_string(), ..received };
    assert_eq!(inbox_notice(&other), None);
}

#[test]
fn banners_tell_where_things_are() {
    let c = parse_chat_config(
        &args(&["--id", "gateway-a", "--target", "gateway-b", "--peer-mode", "both"]),
        "127.0.0.1",
        "/rt",
    )
    .expect("config");
    let gateway = GatewayRuntimeInfoModel {
        peer_id: "gateway-a".to_string(),
        target_peer_id: "gateway-b".to_string(),
        server_base_url: "http://127.0.0.1:8080".to_string(),
        direct_base_url: "http://127.0.0.1:17441".to_string(),
        message_endpoint: "/message".to_string(),
        storage_dir: "/rt/peers/gateway-a".to_string(),
    };
    let hub = HubRuntimeInfoModel {
        bind_addr: "127.0.0.1:8080".to_string(),
        discovery_udp_bind_addr: "127.0.0.1:3478".to_string(),
    };
    let lines = chat_banner(&c, &gateway, &Some(hub.clone()));
    assert_eq!(lines[0], "Starting Gateway-a");
    assert_eq!(lines[1], "Peer mode: both");
    assert_eq!(lines[4], "Direct TCP endpoint: http://127.0.0.1:17441/message");
    assert_eq!(lines[5], "Hub HTTP bind: 127.0.0.1:8080");
    assert!(lines[7].starts_with("Warning: advertising 127.0.0.1."));
    assert_eq!(lines[8], "Gateway-a registered and ready.");
    assert_eq!(lines.len(), 11);
    let hub_lines = hub_banner("hub", &hub);
    assert_eq!(hub_lines[3], "Hub is running. Press Ctrl-C to stop.");
}
