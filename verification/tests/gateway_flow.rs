use openhanse::gateway::{CommunicationModeEnum, GatewayRuntimeConfig};
use openhanse::gateway_flow::{
    decision_summary, inbox_entry, started_profile, udp_discovery_outcome, ProbedUdpAddress, SendAction,
    SendEvent, SendFlow, SendStage, UdpDiscoveryOutcome,
};
use openhanse::gateway_state::{GatewayRuntimeState, InboxEntryModel, UiEventModel, MAX_EVENTS};
use openhanse::model::{
    ChatMessageEnvelopeModel, ConnectDecisionModel, DirectConnectionInfoModel, NatBehaviorModel,
    PeerLookupResponseModel, PeerReachabilityModel, PeerRecordModel, DirectReachabilityModeModel,
    ReachabilityAddressModel, ReachabilityConfidenceModel, ReachabilityScopeModel, ReachabilitySourceModel,
    RegisterPeerResponseModel, RelayConnectionInfoModel, TransportProtocolEnum,
};
use openhanse::peers::IpAddressFacts;

fn fresh_state() -> GatewayRuntimeState {
    GatewayRuntimeState::new(Vec::new(), Vec::new())
}

fn kinds(state: &GatewayRuntimeState) -> Vec<String> {
    state.events.iter().map(|e| e.kind.clone()).collect()
}

fn direct_decision(candidates: Vec<&str>) -> ConnectDecisionModel {
    ConnectDecisionModel::Direct {
        direct: DirectConnectionInfoModel {
            peer_id: "gateway-b".to_string(),
            device_key: "device-key-gateway-b".to_string(),
            display_name: None,
            reachability_candidates: candidates
                .into_iter()
                .map(|url| ReachabilityAddressModel {
                    base_url: url.to_string(),
                    scope: ReachabilityScopeModel::Lan,
                    source: ReachabilitySourceModel::LocalDetection,
                    transport_protocol: TransportProtocolEnum::DirectTcp,
                    confidence: ReachabilityConfidenceModel::Medium,
                    address_hint: "10.0.0.3".to_string(),
                })
                .collect(),
            message_endpoint: Some("/message".to_string()),
            decision_reason: "both on the LAN".to_string(),
        },
    }
}

fn relay_decision(id: u128) -> ConnectDecisionModel {
    ConnectDecisionModel::Relay {
        relay: RelayConnectionInfoModel {
            relay_session_id: id,
            source_peer_id: "gateway-a".to_string(),
            target_peer_id: "gateway-b".to_string(),
            expires_at_unix_ms: 99,
            decision_reason: "no direct path".to_string(),
        },
    }
}

fn start(mode: CommunicationModeEnum, state: &mut GatewayRuntimeState) -> SendFlow {
    let (flow, action) = SendFlow::start(
        mode,
        "gateway-a".to_string(),
        "gateway-b".to_string(),
        "http://hub:8080".to_string(),
        "hello".to_string(),
        state,
        1_000,
    );
    match action {
        SendAction::RequestDecision { mode: asked } => assert_eq!(asked, mode),
        other => panic!("unexpected first action {other:?}"),
    }
    flow
}

#[test]
fn direct_send_posts_to_first_candidate_and_answers_direct_tcp() {
    let mut state = fresh_state();
    let mut flow = start(CommunicationModeEnum::Auto, &mut state);
    let action = flow.step(
        &mut state,
        SendEvent::Decided { outcome: Ok(direct_decision(vec!["http://10.0.0.3:7443/", "http://other:1"])) },
        1_001,
    );
    let payload = match action {
        SendAction::PostDirect { target_url, payload } => {
            assert_eq!(target_url, "http://10.0.0.3:7443/message");
            payload
        }
        other => panic!("expected a direct post, got {other:?}"),
    };
    assert_eq!(payload.from_peer_id, "gateway-a");
    assert_eq!(payload.to_peer_id, "gateway-b");
    assert_eq!(payload.message, "hello");
    assert_eq!(payload.sent_at_unix_ms, 1_001);
    let action = flow.step(&mut state, SendEvent::Posted { outcome: Ok(()) }, 1_002);
    match action {
        SendAction::Finish { outcome: Ok(response) } => {
            assert!(response.accepted);
            assert_eq!(response.delivery_mode, "direct_tcp");
            assert_eq!(response.communication_mode, "auto");
            assert_eq!(response.target_url, "http://10.0.0.3:7443/message");
        }
        other => panic!("expected success, got {other:?}"),
    }
    assert!(matches!(flow.stage, SendStage::Done));
    assert_eq!(kinds(&state), vec!["connect_started", "connect_succeeded", "message_sent"]);
    assert_eq!(state.events[0].message, "Requesting auto connect decision for gateway-b.");
    assert_eq!(
        state.events[1].message,
        "Connect decision: direct to gateway-b via http://10.0.0.3:7443/ (both on the LAN)"
    );
    assert_eq!(state.events[2].message, "Sent message to gateway-b.");
    assert_eq!(state.last_delivery_mode.as_deref(), Some("direct"));
    assert_eq!(
        state.last_delivery_summary.as_deref(),
        Some("Sent direct_tcp message to gateway-b via http://10.0.0.3:7443/message.")
    );
    assert_eq!(state.direct_sent_count, 0);
}

#[test]
fn failed_direct_post_retries_through_the_relay() {
    let mut state = fresh_state();
    let mut flow = start(CommunicationModeEnum::Auto, &mut state);
    flow.step(&mut state, SendEvent::Decided { outcome: Ok(direct_decision(vec!["http://10.0.0.3:7443"])) }, 1);
    let action = flow.step(&mut state, SendEvent::Posted { outcome: Err("connection refused".to_string()) }, 2);
    assert!(matches!(action, SendAction::RequestDecision { mode: CommunicationModeEnum::RelayOnly }));
    let action = flow.step(&mut state, SendEvent::Decided { outcome: Ok(relay_decision(7)) }, 3);
    assert!(matches!(action, SendAction::AttachRelay { relay_session_id: 7 }));
    let action = flow.step(&mut state, SendEvent::Attached { outcome: Ok(()) }, 4);
    match action {
        SendAction::SendRelay { relay_session_id, payload } => {
            assert_eq!(relay_session_id, 7);
            assert_eq!(payload.message, "hello");
            assert_eq!(payload.sent_at_unix_ms, 1);
        }
        other => panic!("expected a relay send, got {other:?}"),
    }
    let action = flow.step(&mut state, SendEvent::Relayed { outcome: Ok(()) }, 5);
    match action {
        SendAction::Finish { outcome: Ok(response) } => {
            assert_eq!(response.delivery_mode, "relay");
            assert_eq!(response.communication_mode, "auto");
            assert_eq!(response.target_url, "http://hub:8080/v1/relay/send");
        }
        other => panic!("expected success, got {other:?}"),
    }
    assert_eq!(
        kinds(&state),
        vec![
            "connect_started",
            "connect_succeeded",
            "direct_delivery_failed",
            "connect_started",
            "connect_succeeded",
            "message_sent"
        ]
    );
    assert_eq!(
        state.events[2].message,
        "Direct TCP delivery to gateway-b failed, retrying via relay: connection refused"
    );
    assert_eq!(state.events[3].message, "Requesting relay connect decision for gateway-b.");
    assert_eq!(
        state.events[5].message,
        "Sent relay message to gateway-b using session 00000000-0000-0000-0000-000000000007."
    );
    assert_eq!(state.relay_sent_count, 1);
    assert_eq!(state.last_delivery_mode.as_deref(), Some("relay"));
}

#[test]
fn forced_direct_mode_refuses_a_relay_decision() {
    let mut state = fresh_state();
    let mut flow = start(CommunicationModeEnum::Direct, &mut state);
    let action = flow.step(&mut state, SendEvent::Decided { outcome: Ok(relay_decision(9)) }, 1);
    match action {
        SendAction::Finish { outcome: Err(error) } => {
            assert_eq!(error, "forced direct mode could not find a credible direct path: no direct path");
        }
        other => panic!("expected an error, got {other:?}"),
    }
    assert_eq!(
        state.last_error.as_deref(),
        Some("forced direct mode could not find a credible direct path: no direct path")
    );
    assert_eq!(kinds(&state), vec!["connect_started", "connect_succeeded", "error"]);
    assert_eq!(state.heartbeat_state(), "error");
}

#[test]
fn forced_direct_mode_fails_when_the_post_fails() {
    let mut state = fresh_state();
    let mut flow = start(CommunicationModeEnum::Direct, &mut state);
    flow.step(&mut state, SendEvent::Decided { outcome: Ok(direct_decision(vec!["http://10.0.0.3:7443"])) }, 1);
    let action = flow.step(&mut state, SendEvent::Posted { outcome: Err("timed out".to_string()) }, 2);
    match action {
        SendAction::Finish { outcome: Err(error) } => {
            assert_eq!(error, "direct delivery failed in forced direct mode: timed out");
        }
        other => panic!("expected an error, got {other:?}"),
    }
    assert_eq!(state.last_error.as_deref(), Some("timed out"));
}

#[test]
fn direct_decision_without_candidates_fails() {
    let mut state = fresh_state();
    let mut flow = start(CommunicationModeEnum::Auto, &mut state);
    let action = flow.step(&mut state, SendEvent::Decided { outcome: Ok(direct_decision(vec![])) }, 1);
    match action {
        SendAction::Finish { outcome: Err(error) } => {
            assert_eq!(error, "target peer 'gateway-b' has no direct address");
        }
        other => panic!("expected an error, got {other:?}"),
    }
    assert!(state.last_error.is_none());
    assert_eq!(
        state.events[1].message,
        "Connect decision: direct to gateway-b via <missing> (both on the LAN)"
    );
}

#[test]
fn failed_connect_request_is_recorded_and_returned() {
    let mut state = fresh_state();
    let mut flow = start(CommunicationModeEnum::Auto, &mut state);
    let action = flow.step(&mut state, SendEvent::Decided { outcome: Err("HTTP 404 Not Found".to_string()) }, 1);
    assert!(matches!(action, SendAction::Finish { outcome: Err(ref e) } if e == "HTTP 404 Not Found"));
    assert_eq!(state.last_error.as_deref(), Some("HTTP 404 Not Found"));
    assert_eq!(state.events.last().expect("event").kind, "error");
}

#[test]
fn relay_decision_after_failed_post_that_is_direct_again_returns_the_post_error() {
    let mut state = fresh_state();
    let mut flow = start(CommunicationModeEnum::Auto, &mut state);
    flow.step(&mut state, SendEvent::Decided { outcome: Ok(direct_decision(vec!["http://a:1"])) }, 1);
    flow.step(&mut state, SendEvent::Posted { outcome: Err("refused".to_string()) }, 2);
    let action = flow.step(&mut state, SendEvent::Decided { outcome: Ok(direct_decision(vec!["http://a:1"])) }, 3);
    assert!(matches!(action, SendAction::Finish { outcome: Err(ref e) } if e == "refused"));
}

#[test]
fn relay_attach_failure_ends_the_send() {
    let mut state = fresh_state();
    let mut flow = start(CommunicationModeEnum::RelayOnly, &mut state);
    flow.step(&mut state, SendEvent::Decided { outcome: Ok(relay_decision(3)) }, 1);
    let action = flow.step(&mut state, SendEvent::Attached { outcome: Err("HTTP 400".to_string()) }, 2);
    assert!(matches!(action, SendAction::Finish { outcome: Err(ref e) } if e == "HTTP 400"));
    assert!(state.last_error.is_none());
}

#[test]
fn events_keep_only_the_newest_and_count_on() {
    let mut state = fresh_state();
    for i in 0..(MAX_EVENTS + 10) {
        state.record_event("tick".to_string(), format!("{i}"), i as u64);
    }
    assert_eq!(state.events.len(), MAX_EVENTS);
    assert_eq!(state.events[0].id, 11);
    assert_eq!(state.events.last().expect("event").id, (MAX_EVENTS + 10) as u64);
    assert_eq!(state.next_event_id, (MAX_EVENTS + 11) as u64);
    let recent = state.events_since(Some((MAX_EVENTS + 8) as u64));
    assert_eq!(recent.len(), 2);
    assert_eq!(state.events_since(None).len(), MAX_EVENTS);
}

#[test]
fn new_state_continues_event_ids_after_stored_events() {
    let stored = vec![UiEventModel { id: 41, kind: "x".to_string(), message: "y".to_string(), created_at_unix_ms: 0 }];
    let state = GatewayRuntimeState::new(Vec::new(), stored);
    assert_eq!(state.next_event_id, 42);
    assert_eq!(state.heartbeat_state(), "starting");
}

#[test]
fn register_heartbeat_and_lookup_outcomes_are_recorded() {
    let mut state = fresh_state();
    let registered = state.finish_register("gateway-a", Ok(RegisterPeerResponseModel { lease_seconds: 30, peer: record() }), 5);
    assert!(registered.is_ok());
    assert_eq!(state.last_registered_at_unix_ms, Some(5));
    assert_eq!(state.lease_seconds, Some(30));
    assert_eq!(state.heartbeat_state(), "online");
    assert_eq!(state.events.last().expect("event").message, "Registered gateway-a.");
    let failed = state.finish_heartbeat(Err("HTTP 404 Not Found".to_string()), 6);
    assert!(failed.is_err());
    assert_eq!(state.heartbeat_state(), "error");
    let beat = state.finish_heartbeat(Ok(RegisterPeerResponseModel { lease_seconds: 31, peer: record() }), 7);
    assert!(beat.is_ok());
    assert_eq!(state.last_heartbeat_at_unix_ms, Some(7));
    assert!(state.last_error.is_none());
    state.begin_lookup("gateway-b", 8);
    assert_eq!(state.events.last().expect("event").message, "Looking up gateway-b.");
    let found = state.finish_lookup(Ok(PeerLookupResponseModel { peer: record() }), 9);
    assert!(found.is_ok());
    assert_eq!(state.events.last().expect("event").message, "gateway-b is online.");
}

fn record() -> PeerRecordModel {
    PeerRecordModel {
        peer_id: "gateway-b".to_string(),
        device_key: "k".to_string(),
        display_name: None,
        reachability: PeerReachabilityModel {
            mode: DirectReachabilityModeModel::RelayOnly,
            nat_behavior: NatBehaviorModel::Unknown,
            message_endpoint: None,
            bind_address: None,
            advertised_addresses: Vec::new(),
            observed_addresses: Vec::new(),
        },
        registered_at_unix_ms: 1,
        expires_at_unix_ms: 2,
    }
}

#[test]
fn received_messages_join_the_inbox_and_are_counted() {
    let mut state = fresh_state();
    let payload = ChatMessageEnvelopeModel {
        from_peer_id: "gateway-b".to_string(),
        to_peer_id: "gateway-a".to_string(),
        message: "hi there".to_string(),
        sent_at_unix_ms: 3,
    };
    let entry: InboxEntryModel = inbox_entry("gateway-a", payload, 10);
    let event = state.store_received(entry, "relay", 10);
    assert_eq!(event.kind, "message_received");
    assert_eq!(event.message, "Received relay message from gateway-b: hi there");
    assert_eq!(state.relay_received_count, 1);
    assert_eq!(state.direct_received_count, 0);
    assert_eq!(state.inbox.len(), 1);
    assert_eq!(state.list_inbox()[0].payload.message, "hi there");
    assert_eq!(state.last_delivery_summary.as_deref(), Some("Received relay message from gateway-b."));
    state.record_relay_arrival(5, 11);
    assert_eq!(
        state.events.last().expect("event").message,
        "Received relay message on session 00000000-0000-0000-0000-000000000005."
    );
}

#[test]
fn decision_summaries_describe_both_kinds() {
    assert_eq!(
        decision_summary(&relay_decision(1)),
        "Connect decision: relay 00000000-0000-0000-0000-000000000001 for gateway-a -> gateway-b (no direct path)"
    );
}

fn probed(addr: &str, ip: &str, port: u16) -> ProbedUdpAddress {
    ProbedUdpAddress {
        addr_text: addr.to_string(),
        ip_text: ip.to_string(),
        port,
        facts: IpAddressFacts {
            is_ipv4: true,
            is_loopback: false,
            is_private: false,
            is_link_local: false,
            is_unique_local: false,
            is_unicast_link_local: false,
        },
    }
}

#[test]
fn udp_discovery_of_one_mapping_is_predictable() {
    let first = probed("198.51.100.7:40000", "198.51.100.7", 40000);
    let outcome = udp_discovery_outcome(&first, &first.clone());
    assert_eq!(outcome.nat_behavior, NatBehaviorModel::Predictable);
    assert_eq!(outcome.observed_addresses.len(), 1);
    let a = &outcome.observed_addresses[0];
    assert_eq!(a.base_url, "udp://198.51.100.7:40000");
    assert_eq!(a.transport_protocol, TransportProtocolEnum::DirectUdp);
    assert_eq!(a.source, ReachabilitySourceModel::DiscoveryProbe);
    assert_eq!(a.confidence, ReachabilityConfidenceModel::High);
    assert_eq!(a.scope, ReachabilityScopeModel::Public);
    assert_eq!(a.address_hint, "198.51.100.7");
}

#[test]
fn udp_discovery_of_two_mappings_is_symmetric() {
    let outcome = udp_discovery_outcome(
        &probed("198.51.100.7:40000", "198.51.100.7", 40000),
        &probed("198.51.100.7:41000", "198.51.100.7", 41000),
    );
    assert_eq!(outcome.nat_behavior, NatBehaviorModel::Symmetric);
    assert_eq!(outcome.observed_addresses.len(), 2);
    assert_eq!(outcome.observed_addresses[1].confidence, ReachabilityConfidenceModel::Medium);
    let mut state = fresh_state();
    state.record_discovery(&Ok(Some(outcome)), 1);
    assert_eq!(state.events[0].kind, "udp_discovery_succeeded");
    assert_eq!(state.events[0].message, "Observed 2 UDP mapping(s); NAT classified as symmetric.");
    state.record_discovery(&Err("UDP discovery probe timed out".to_string()), 2);
    assert_eq!(state.events[1].message, "UDP discovery probe failed: UDP discovery probe timed out");
    state.record_discovery(&Ok(None), 3);
    assert_eq!(state.events.len(), 2);
}

#[test]
fn started_profile_uses_bound_port_and_discovery() {
    let config = GatewayRuntimeConfig {
        peer_id: "gateway-a".to_string(),
        device_key: "k".to_string(),
        display_name: None,
        target_peer_id: "gateway-b".to_string(),
        server_base_url: "http://hub:8080".to_string(),
        direct_bind_host: "hub.example".to_string(),
        direct_bind_port: 0,
        communication_mode: CommunicationModeEnum::Auto,
        heartbeat_interval_secs: 10,
        storage_dir: "/tmp/a".to_string(),
    };
    let discovery: Result<Option<UdpDiscoveryOutcome>, String> = Ok(Some(udp_discovery_outcome(
        &probed("198.51.100.7:40000", "198.51.100.7", 40000),
        &probed("198.51.100.7:40000", "198.51.100.7", 40000),
    )));
    let profile = started_profile(&config, 53000, None, &discovery);
    assert_eq!(profile.reachability.mode, DirectReachabilityModeModel::PublicDirect);
    assert_eq!(profile.reachability.nat_behavior, NatBehaviorModel::Predictable);
    assert_eq!(profile.reachability.advertised_addresses[0].base_url, "http://hub.example:53000");
    assert_eq!(profile.reachability.observed_addresses.len(), 1);
    let failed = started_profile(&config, 53000, None, &Err("x".to_string()));
    assert_eq!(failed.reachability.nat_behavior, NatBehaviorModel::Unknown);
    assert!(failed.reachability.observed_addresses.is_empty());
}

#[test]
fn start_and_stop_are_recorded() {
    let mut state = fresh_state();
    state.record_started("gateway-a", "gateway-b", 1);
    state.record_stopped("gateway-a", 2);
    assert_eq!(state.events[0].message, "Runtime started for gateway-a targeting gateway-b.");
    assert_eq!(state.events[1].message, "Runtime stopped for gateway-a.");
}
