use openhanse::hub::{check_register_request, peer_offline_error, ServerStateModel, BAD_REQUEST, NOT_FOUND};
use openhanse::model::{
    ChatMessageEnvelopeModel, ConnectDecisionModel, ConnectRequestModel, DirectReachabilityModeModel,
    NatBehaviorModel, PeerReachabilityModel, ReachabilityAddressModel, ReachabilityConfidenceModel,
    ReachabilityScopeModel, ReachabilitySourceModel, RegisterPeerRequestModel, RelaySendRequestModel,
    TransportProtocolEnum,
};
use openhanse::peers::{IpAddressFacts, ObservedAddress};
use std::time::Duration;

fn candidate(peer_id: &str, scope: ReachabilityScopeModel) -> ReachabilityAddressModel {
    ReachabilityAddressModel {
        base_url: format!("http://{peer_id}.example:7443"),
        scope,
        source: ReachabilitySourceModel::Manual,
        transport_protocol: TransportProtocolEnum::DirectTcp,
        confidence: ReachabilityConfidenceModel::High,
        address_hint: format!("{peer_id}.example"),
    }
}

fn register_request_model(peer_id: &str) -> RegisterPeerRequestModel {
    RegisterPeerRequestModel {
        peer_id: peer_id.to_string(),
        device_key: format!("device-key-{peer_id}"),
        display_name: Some(format!("Peer {peer_id}")),
        reachability: PeerReachabilityModel {
            mode: DirectReachabilityModeModel::PublicDirect,
            nat_behavior: NatBehaviorModel::Unknown,
            message_endpoint: Some("/message".to_string()),
            bind_address: Some(candidate(peer_id, ReachabilityScopeModel::Public)),
            advertised_addresses: vec![candidate(peer_id, ReachabilityScopeModel::Public)],
            observed_addresses: Vec::new(),
        },
    }
}

/// A public IPv4 address, as the hub sees a registration come from it.
fn public_ipv4(ip: &str) -> ObservedAddress {
    ObservedAddress {
        ip_text: ip.to_string(),
        facts: IpAddressFacts {
            is_ipv4: true,
            is_loopback: false,
            is_private: false,
            is_link_local: false,
            is_unique_local: false,
            is_unicast_link_local: false,
        },
    }
}

fn connect_request(source: &str, target: &str, prefer_direct: bool) -> ConnectRequestModel {
    ConnectRequestModel {
        source_peer_id: source.to_string(),
        target_peer_id: target.to_string(),
        prefer_direct,
    }
}

fn hello_bob(relay_session_id: u128) -> RelaySendRequestModel {
    RelaySendRequestModel {
        relay_session_id,
        peer_id: "alice".to_string(),
        payload: ChatMessageEnvelopeModel {
            from_peer_id: "alice".to_string(),
            to_peer_id: "bob".to_string(),
            message: "hello bob".to_string(),
            sent_at_unix_ms: 123,
        },
    }
}

#[test]
fn connect_prefers_direct_when_both_peers_support_it() {
    let mut state = ServerStateModel::new(Duration::from_secs(30), Duration::from_secs(60));
    state.register_peer(register_request_model("alice"), None);
    state.register_peer(register_request_model("bob"), None);

    let decision = state
        .connect(connect_request("alice", "bob", true))
        .expect("connect should succeed");

    match decision {
        ConnectDecisionModel::Direct { direct } => {
            assert_eq!(direct.peer_id, "bob");
            assert_eq!(direct.message_endpoint.as_deref(), Some("/message"));
            assert!(!direct.reachability_candidates.is_empty());
        }
        ConnectDecisionModel::Relay { .. } => panic!("expected direct connection"),
    }
}

#[test]
fn connect_falls_back_to_relay_when_direct_is_unavailable() {
    let mut state = ServerStateModel::new(Duration::from_secs(30), Duration::from_secs(60));
    let mut alice = register_request_model("alice");
    alice.reachability.mode = DirectReachabilityModeModel::RelayOnly;
    alice.reachability.advertised_addresses.clear();
    state.register_peer(alice, None);
    state.register_peer(register_request_model("bob"), None);

    let decision = state
        .connect(connect_request("alice", "bob", true))
        .expect("connect should succeed");

    match decision {
        ConnectDecisionModel::Relay { relay } => {
            assert_eq!(relay.source_peer_id, "alice");
            assert_eq!(relay.target_peer_id, "bob");
            assert_eq!(state.relay_sessions.len(), 1);
        }
        ConnectDecisionModel::Direct { .. } => panic!("expected relay connection"),
    }
}

#[test]
fn connect_does_not_treat_hub_observed_tcp_address_as_public_direct() {
    let mut state = ServerStateModel::new(Duration::from_secs(30), Duration::from_secs(60));
    let mut alice = register_request_model("alice");
    alice.reachability.mode = DirectReachabilityModeModel::UnknownExternal;
    alice.reachability.advertised_addresses = vec![candidate("alice", ReachabilityScopeModel::Lan)];
    state.register_peer(alice, Some(public_ipv4("203.0.113.10")));

    let mut bob = register_request_model("bob");
    bob.reachability.mode = DirectReachabilityModeModel::UnknownExternal;
    bob.reachability.advertised_addresses = vec![candidate("bob", ReachabilityScopeModel::Lan)];
    state.register_peer(bob, Some(public_ipv4("203.0.113.11")));

    let decision = state
        .connect(connect_request("alice", "bob", true))
        .expect("connect should succeed");

    match decision {
        ConnectDecisionModel::Relay { relay } => {
            assert!(relay
                .decision_reason
                .contains("no verified public direct TCP candidate"));
        }
        ConnectDecisionModel::Direct { .. } => {
            panic!("hub-observed public TCP address should not enable direct delivery")
        }
    }
}

#[test]
fn expired_peers_are_removed_from_lookup() {
    let mut state = ServerStateModel::with_lease_millis(1, 60_000);
    state.register_peer_at(register_request_model("alice"), None, 0, 1_000);

    assert!(state.lookup_peer_at("alice", 5, 1_005).is_none());
}

#[test]
fn heartbeat_extends_peer_presence() {
    let mut state = ServerStateModel::with_lease_millis(20, 60_000);
    state.register_peer_at(register_request_model("alice"), None, 0, 1_000);

    let before = state
        .lookup_peer_at("alice", 10, 1_010)
        .expect("peer should still be online");
    state
        .heartbeat_at("alice", 10, 1_010)
        .expect("heartbeat should refresh lease");

    let after = state.lookup_peer_at("alice", 25, 1_025);
    assert!(after.is_some());
    assert!(
        after
            .expect("peer should still be online")
            .expires_at_unix_ms
            >= before.expires_at_unix_ms
    );
}

#[test]
fn relay_send_and_poll_deliver_to_the_other_peer() {
    let mut state = ServerStateModel::new(Duration::from_secs(30), Duration::from_secs(60));
    let mut alice = register_request_model("alice");
    alice.reachability.mode = DirectReachabilityModeModel::RelayOnly;
    alice.reachability.advertised_addresses.clear();
    state.register_peer(alice, None);
    state.register_peer(register_request_model("bob"), None);

    let decision = state
        .connect(connect_request("alice", "bob", false))
        .expect("connect should succeed");

    let relay_session_id = match decision {
        ConnectDecisionModel::Relay { relay } => relay.relay_session_id,
        ConnectDecisionModel::Direct { .. } => panic!("expected relay decision"),
    };

    state
        .attach_relay_peer(relay_session_id, "alice")
        .expect("attach alice");
    state.relay_send(hello_bob(relay_session_id)).expect("relay send");

    let messages = state.poll_relay_messages("bob").expect("poll bob");
    assert_eq!(messages.len(), 1);
    assert_eq!(messages[0].relay_session_id, relay_session_id);
    assert_eq!(messages[0].payload.message, "hello bob");
    assert!(state.poll_relay_messages("bob").expect("poll again").is_empty());
}

#[test]
fn attach_rejects_unknown_peer() {
    let mut state = ServerStateModel::new(Duration::from_secs(30), Duration::from_secs(60));
    state.register_peer(register_request_model("alice"), None);
    state.register_peer(register_request_model("bob"), None);

    let relay_session_id = match state
        .connect(connect_request("alice", "bob", false))
        .expect("connect should succeed")
    {
        ConnectDecisionModel::Relay { relay } => relay.relay_session_id,
        ConnectDecisionModel::Direct { .. } => panic!("expected relay decision"),
    };

    let error = state
        .attach_relay_peer(relay_session_id, "mallory")
        .expect_err("unknown peer should fail");
    assert_eq!(error.status, axum::http::StatusCode::BAD_REQUEST.as_u16());
    assert!(error.message.contains("mallory"));
    assert_ne!(uuid::Uuid::from_u128(relay_session_id), uuid::Uuid::nil());
}

#[test]
fn drained_relay_sessions_are_cleaned_up_after_delivery() {
    let mut state = ServerStateModel::new(Duration::from_secs(30), Duration::from_secs(60));
    let mut alice = register_request_model("alice");
    let mut bob = register_request_model("bob");
    alice.reachability.mode = DirectReachabilityModeModel::RelayOnly;
    bob.reachability.mode = DirectReachabilityModeModel::RelayOnly;
    alice.reachability.advertised_addresses.clear();
    bob.reachability.advertised_addresses.clear();
    state.register_peer(alice, None);
    state.register_peer(bob, None);

    let relay_session_id = match state
        .connect(connect_request("alice", "bob", false))
        .expect("connect should succeed")
    {
        ConnectDecisionModel::Relay { relay } => relay.relay_session_id,
        ConnectDecisionModel::Direct { .. } => panic!("expected relay decision"),
    };

    state
        .attach_relay_peer(relay_session_id, "alice")
        .expect("attach alice");
    state.relay_send(hello_bob(relay_session_id)).expect("relay send");

    let messages = state.poll_relay_messages("bob").expect("poll bob");
    assert_eq!(messages.len(), 1);
    assert!(state.relay_sessions.is_empty());
}

#[test]
fn relay_session_ids_are_version_four_uuids() {
    let mut state = ServerStateModel::new(Duration::from_secs(30), Duration::from_secs(60));
    state.register_peer(register_request_model("alice"), None);
    state.register_peer(register_request_model("bob"), None);
    let id = match state.connect(connect_request("alice", "bob", false)).expect("connect") {
        ConnectDecisionModel::Relay { relay } => relay.relay_session_id,
        ConnectDecisionModel::Direct { .. } => panic!("expected relay decision"),
    };
    assert_eq!(uuid::Uuid::from_u128(id).get_version_num(), 4);
}

#[test]
fn connect_errors_name_the_missing_or_repeated_peer() {
    let mut state = ServerStateModel::with_lease_millis(30_000, 60_000);
    state.register_peer_at(register_request_model("alice"), None, 0, 0);
    let missing = state
        .connect_with(connect_request("alice", "bob", true), 1, 1, 7)
        .expect_err("bob is offline");
    assert_eq!(missing.status, NOT_FOUND);
    assert_eq!(missing.message, "target peer 'bob' is offline");
    let unknown = state
        .connect_with(connect_request("carol", "alice", true), 1, 1, 7)
        .expect_err("carol is offline");
    assert_eq!(unknown.message, "source peer 'carol' is offline");
    let same = state
        .connect_with(connect_request("alice", "alice", true), 1, 1, 7)
        .expect_err("same peer");
    assert_eq!(same.status, BAD_REQUEST);
    assert_eq!(same.message, "source and target peer must differ");
}

#[test]
fn relayed_session_expires_at_timeout_after_connect() {
    let mut state = ServerStateModel::with_lease_millis(30_000, 60_000);
    state.register_peer_at(register_request_model("alice"), None, 0, 1_000);
    state.register_peer_at(register_request_model("bob"), None, 0, 1_000);
    match state
        .connect_with(connect_request("alice", "bob", false), 10, 5_000, 42)
        .expect("connect")
    {
        ConnectDecisionModel::Relay { relay } => {
            assert_eq!(relay.relay_session_id, 42);
            assert_eq!(relay.expires_at_unix_ms, 65_000);
        }
        ConnectDecisionModel::Direct { .. } => panic!("expected relay decision"),
    }
}

#[test]
fn register_request_checks_reject_blank_fields() {
    let mut request = register_request_model("alice");
    assert!(check_register_request(&request).is_ok());
    request.peer_id = "  ".to_string();
    let error = check_register_request(&request).expect_err("blank id");
    assert_eq!(error.status, BAD_REQUEST);
    assert_eq!(error.message, "peer_id must not be empty");
    let mut request = register_request_model("alice");
    request.device_key = String::new();
    let error = check_register_request(&request).expect_err("blank key");
    assert_eq!(error.message, "device_key must not be empty");
}

#[test]
fn offline_error_names_the_peer() {
    let error = peer_offline_error("dave");
    assert_eq!(error.status, NOT_FOUND);
    assert_eq!(error.message, "peer 'dave' is offline");
}

#[test]
fn register_answers_refuse_blank_requests_and_report_the_lease() {
    let mut state = ServerStateModel::new(Duration::from_secs(30), Duration::from_secs(60));
    let mut blank = register_request_model("alice");
    blank.device_key = " \t".to_string();
    let error = state.answer_register(blank, None).expect_err("blank key");
    assert_eq!(error.status, BAD_REQUEST);
    assert_eq!(error.message, "device_key must not be empty");
    assert!(state.peers.is_empty());
    let response = state.answer_register(register_request_model("alice"), None).expect("registered");
    assert_eq!(response.lease_seconds, 30);
    assert_eq!(response.peer.peer_id, "alice");
    let beat = state
        .answer_heartbeat(openhanse::model::HeartbeatRequestModel { peer_id: "alice".to_string() })
        .expect("heartbeat");
    assert_eq!(beat.lease_seconds, 30);
    let missing = state
        .answer_heartbeat(openhanse::model::HeartbeatRequestModel { peer_id: "bob".to_string() })
        .expect_err("bob is offline");
    assert_eq!(missing.status, NOT_FOUND);
    assert_eq!(missing.message, "peer 'bob' is offline");
    assert_eq!(state.answer_lookup("alice").expect("found").peer.peer_id, "alice");
    assert_eq!(state.answer_lookup("bob").expect_err("offline").message, "peer 'bob' is offline");
}

#[test]
fn discovery_answers_echo_the_transaction() {
    let answer = openhanse::hub_api::discovery_answer(
        openhanse::model::DiscoveryProbeRequestModel { transaction_id: "t-1".to_string(), peer_id: None },
        "198.51.100.7:40000".to_string(),
    );
    assert_eq!(answer.transaction_id, "t-1");
    assert_eq!(answer.observed_addr, "198.51.100.7:40000");
    assert_eq!(answer.transport_protocol, TransportProtocolEnum::DirectUdp);
    assert!(openhanse::hub_api::check_probe_response("t-1", &answer).is_ok());
    assert_eq!(
        openhanse::hub_api::check_probe_response("t-2", &answer),
        Err("UDP discovery response transaction mismatch".to_string())
    );
}

#[test]
fn http_errors_show_status_and_body() {
    assert_eq!(openhanse::hub_api::http_error_message("404 Not Found", ""), "HTTP 404 Not Found");
    assert_eq!(
        openhanse::hub_api::http_error_message("400 Bad Request", "{\"error\":\"x\"}"),
        "HTTP 400 Bad Request: {\"error\":\"x\"}"
    );
}

#[test]
fn a_new_hub_keeps_its_lease_in_whole_milliseconds() {
    let state = ServerStateModel::new(Duration::from_millis(2999), Duration::from_secs(60));
    assert_eq!(state.lease_seconds(), 2);
    let state = ServerStateModel::new(Duration::from_secs(30), Duration::from_secs(60));
    assert_eq!(state.lease_seconds(), 30);
}
