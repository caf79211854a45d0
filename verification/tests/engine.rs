use grpc_discovery::discovery::{discover_services, ReflectionOutcome};
use grpc_discovery::health::{health_check_service, HealthOutcome};
use grpc_discovery::scan::{
    candidate_ports, is_grpc_service, scan_localhost_services, scan_port, ReflectionProbe,
    TcpProbe,
};
use grpc_discovery::state::{
    connect_grpc, disconnect_grpc, get_connection_status, get_localhost_services, get_services,
    ChannelOutcome, GrpcToolState,
};
use grpc_discovery::strfmt::{endpoint_key_string, endpoint_uri_string, u64_to_string};
use grpc_discovery::types::{GrpcToolError, HealthStatus, ResponseData};

fn results_for(grpc_ports: &[u16]) -> Vec<bool> {
    candidate_ports().iter().map(|p| grpc_ports.contains(p)).collect()
}

#[test]
fn candidate_list_has_thirty_known_ports() {
    let ports = candidate_ports();
    assert_eq!(ports.len(), 30);
    assert_eq!(ports[0], 9090);
    assert_eq!(ports[1], 8080);
    assert!(ports.contains(&50051));
    assert!(ports.contains(&8002));
}

#[test]
fn open_non_grpc_listener_is_classified_not_grpc() {
    // An open TCP socket alone is not enough: the reflection handshake must
    // answer.
    assert!(!scan_port(TcpProbe::Open, ReflectionProbe::CallFailed));
    assert!(!scan_port(TcpProbe::Open, ReflectionProbe::ChannelFailed));
    assert!(!scan_port(TcpProbe::Open, ReflectionProbe::SendFailed));
    assert!(!scan_port(TcpProbe::Open, ReflectionProbe::InvalidEndpoint));
    assert!(scan_port(TcpProbe::Open, ReflectionProbe::Responded));
    assert!(!scan_port(TcpProbe::Closed, ReflectionProbe::Responded));
    assert!(!scan_port(TcpProbe::TimedOut, ReflectionProbe::Responded));
}

#[test]
fn handshake_classification_only_accepts_a_response() {
    assert!(is_grpc_service(ReflectionProbe::Responded));
    assert!(!is_grpc_service(ReflectionProbe::CallFailed));
    assert!(!is_grpc_service(ReflectionProbe::ChannelFailed));
}

#[test]
fn scan_with_one_grpc_listener_yields_exactly_one_record() {
    // Mock network: 9090 answers reflection, 8080 is a plain echo listener
    // (open but not gRPC), everything else closed.
    let mut state = GrpcToolState::new();
    let results: Vec<bool> = candidate_ports()
        .iter()
        .map(|&p| {
            if p == 9090 {
                scan_port(TcpProbe::Open, ReflectionProbe::Responded)
            } else if p == 8080 {
                scan_port(TcpProbe::Open, ReflectionProbe::CallFailed)
            } else {
                scan_port(TcpProbe::Closed, ReflectionProbe::CallFailed)
            }
        })
        .collect();
    let resp = scan_localhost_services(&mut state, results, 1_700_000_000);
    assert!(resp.success);
    assert_eq!(resp.message, "Discovered 1 gRPC services on localhost");
    let registry = get_localhost_services(&state);
    assert_eq!(registry.len(), 1);
    assert_eq!(registry[0].host, "localhost");
    assert_eq!(registry[0].port, 9090);
    assert!(registry[0].is_grpc);
    assert!(registry[0].services.is_empty());
    assert!(matches!(registry[0].metadata.health_status, HealthStatus::Healthy));
    assert_eq!(registry[0].metadata.discovered_at, 1_700_000_000);
    match resp.data {
        Some(ResponseData::Scan { services, scan_results, ports_scanned, grpc_services_found }) => {
            assert_eq!(services.len(), 1);
            assert_eq!(ports_scanned, 30);
            assert_eq!(grpc_services_found, 1);
            assert_eq!(scan_results.len(), 1);
            assert_eq!(scan_results[0].endpoint, "localhost:9090");
            assert_eq!(scan_results[0].status, "grpc_detected");
            assert_eq!(scan_results[0].port, 9090);
        }
        _ => panic!("scan envelope carried no scan payload"),
    }
}

#[test]
fn scan_reports_only_candidate_ports() {
    let mut state = GrpcToolState::new();
    let results = vec![true; 30];
    let resp = scan_localhost_services(&mut state, results, 7);
    assert!(resp.success);
    let ports = candidate_ports();
    let registry = get_localhost_services(&state);
    assert_eq!(registry.len(), 30);
    for record in &registry {
        assert!(ports.contains(&record.port));
        assert_eq!(record.host, "localhost");
    }
}

#[test]
fn rescan_replaces_the_registry_wholesale() {
    let mut state = GrpcToolState::new();
    scan_localhost_services(&mut state, results_for(&[9090, 8080]), 1);
    assert_eq!(get_localhost_services(&state).len(), 2);
    // The second scan finds only one port: the other record is dropped,
    // not merged.
    scan_localhost_services(&mut state, results_for(&[50051]), 2);
    let registry = get_localhost_services(&state);
    assert_eq!(registry.len(), 1);
    assert_eq!(registry[0].port, 50051);
}

#[test]
fn two_scans_with_unchanged_outcomes_differ_only_in_timestamps() {
    let results = results_for(&[9090, 50051, 8000]);
    let mut s1 = GrpcToolState::new();
    let mut s2 = GrpcToolState::new();
    scan_localhost_services(&mut s1, results.clone(), 100);
    scan_localhost_services(&mut s2, results, 2_000);
    let r1 = get_localhost_services(&s1);
    let r2 = get_localhost_services(&s2);
    assert_eq!(r1.len(), r2.len());
    for (a, b) in r1.iter().zip(r2.iter()) {
        assert_eq!(a.host, b.host);
        assert_eq!(a.port, b.port);
        assert_eq!(a.is_grpc, b.is_grpc);
        assert_eq!(a.services.len(), b.services.len());
        assert_eq!(a.metadata.host, b.metadata.host);
        assert_eq!(a.metadata.port, b.metadata.port);
        assert!(matches!(a.metadata.health_status, HealthStatus::Healthy));
        assert!(matches!(b.metadata.health_status, HealthStatus::Healthy));
        assert_eq!(a.metadata.response_time_ms, b.metadata.response_time_ms);
        // The timestamps are the only permitted difference.
        assert_eq!(a.metadata.discovered_at, 100);
        assert_eq!(b.metadata.discovered_at, 2_000);
    }
}

#[test]
fn connect_then_disconnect_keeps_stale_host_and_port() {
    // Deliberate quirk: disconnect only clears `connected`; the host, port
    // and TLS flag keep whatever the connect set.
    let mut state = GrpcToolState::new();
    let resp = connect_grpc(
        &mut state,
        "localhost".to_string(),
        50051,
        true,
        ChannelOutcome::Connected,
    );
    assert!(resp.success);
    let ack = disconnect_grpc(&mut state);
    assert!(ack.success);
    assert_eq!(ack.message, "Disconnected from gRPC server");
    let status = get_connection_status(&state);
    assert_eq!(status.host, "localhost");
    assert_eq!(status.port, 50051);
    assert!(status.use_tls);
    assert!(!status.connected);
    assert!(state.connection_pool.is_empty());
    assert!(get_services(&state).is_empty());
}

#[test]
fn default_connection_is_localhost_9090() {
    let state = GrpcToolState::new();
    let status = get_connection_status(&state);
    assert_eq!(status.host, "localhost");
    assert_eq!(status.port, 9090);
    assert!(!status.use_tls);
    assert!(!status.connected);
}

#[test]
fn successful_connect_updates_status_and_pool() {
    let mut state = GrpcToolState::new();
    let resp = connect_grpc(
        &mut state,
        "localhost".to_string(),
        9090,
        false,
        ChannelOutcome::Connected,
    );
    assert!(resp.success);
    assert_eq!(resp.message, "Connected to gRPC server at http://localhost:9090");
    match resp.data {
        Some(ResponseData::Connect { endpoint, tls }) => {
            assert_eq!(endpoint, "http://localhost:9090");
            assert!(!tls);
        }
        _ => panic!("connect envelope carried no connect payload"),
    }
    let status = get_connection_status(&state);
    assert!(status.connected);
    assert_eq!(status.port, 9090);
    assert_eq!(state.connection_pool.len(), 1);
    assert_eq!(state.connection_pool[0].host, "localhost");
    assert_eq!(state.connection_pool[0].port, 9090);
    // Connecting to the same endpoint again does not duplicate the pool key.
    connect_grpc(&mut state, "localhost".to_string(), 9090, false, ChannelOutcome::Connected);
    assert_eq!(state.connection_pool.len(), 1);
}

#[test]
fn failed_connect_reports_and_leaves_state_untouched() {
    let mut state = GrpcToolState::new();
    connect_grpc(&mut state, "localhost".to_string(), 9090, false, ChannelOutcome::Connected);
    let before = get_connection_status(&state);
    let resp = connect_grpc(
        &mut state,
        "localhost".to_string(),
        1,
        false,
        ChannelOutcome::ConnectFailed("connection refused".to_string()),
    );
    assert!(!resp.success);
    assert!(!resp.message.is_empty());
    assert_eq!(
        resp.message,
        "Failed to connect to gRPC server: connection refused"
    );
    assert!(resp.data.is_none());
    let after = get_connection_status(&state);
    assert_eq!(after.host, before.host);
    assert_eq!(after.port, before.port);
    assert_eq!(after.connected, before.connected);
    assert!(after.connected);
}

#[test]
fn invalid_endpoint_is_reported_in_the_envelope() {
    let mut state = GrpcToolState::new();
    let resp = connect_grpc(
        &mut state,
        "bad host".to_string(),
        9090,
        false,
        ChannelOutcome::InvalidEndpoint("invalid uri".to_string()),
    );
    assert!(!resp.success);
    assert_eq!(resp.message, "Invalid endpoint: invalid uri");
    assert!(resp.data.is_none());
    assert!(!get_connection_status(&state).connected);
}

#[test]
fn discovery_without_a_client_is_refused_softly() {
    let mut state = GrpcToolState::new();
    let resp = discover_services(&mut state, ReflectionOutcome::NotConnected, 5);
    assert!(!resp.success);
    assert_eq!(resp.message, "Not connected to gRPC server");
    assert!(resp.data.is_none());
    assert!(get_services(&state).is_empty());
}

#[test]
fn discovery_lists_names_with_empty_method_lists() {
    let mut state = GrpcToolState::new();
    connect_grpc(&mut state, "localhost".to_string(), 9090, false, ChannelOutcome::Connected);
    let status = get_connection_status(&state);
    assert!(status.connected);
    assert_eq!(status.port, 9090);
    let names = vec![
        "grpc.reflection.v1.ServerReflection".to_string(),
        "demo.Greeter".to_string(),
    ];
    let resp = discover_services(&mut state, ReflectionOutcome::ServiceNames(names), 42);
    assert!(resp.success);
    assert_eq!(resp.message, "Discovered 2 services");
    let services = get_services(&state);
    assert_eq!(services.len(), 2);
    assert_eq!(services[0].name, "grpc.reflection.v1.ServerReflection");
    assert_eq!(services[1].name, "demo.Greeter");
    for s in &services {
        // Method-level reflection is an unimplemented extension point.
        assert!(s.methods.is_empty());
        assert_eq!(s.metadata.host, "localhost");
        assert_eq!(s.metadata.port, 9090);
        assert_eq!(s.metadata.discovered_at, 42);
    }
    match resp.data {
        Some(ResponseData::Services(list)) => assert_eq!(list.len(), 2),
        _ => panic!("discovery envelope carried no service payload"),
    }
}

#[test]
fn discovery_failure_leaves_services_as_they_were() {
    let mut state = GrpcToolState::new();
    connect_grpc(&mut state, "localhost".to_string(), 9090, false, ChannelOutcome::Connected);
    let names = vec!["demo.Greeter".to_string()];
    discover_services(&mut state, ReflectionOutcome::ServiceNames(names), 1);
    let resp = discover_services(
        &mut state,
        ReflectionOutcome::CallFailed("stream reset".to_string()),
        2,
    );
    assert!(!resp.success);
    assert_eq!(resp.message, "Failed to discover services: stream reset");
    assert_eq!(get_services(&state).len(), 1);
    let resp2 = discover_services(&mut state, ReflectionOutcome::SendFailed, 3);
    assert!(!resp2.success);
    assert_eq!(resp2.message, "Failed to send reflection request");
    assert_eq!(get_services(&state).len(), 1);
}

#[test]
fn health_check_on_unknown_endpoint_creates_no_record() {
    let mut state = GrpcToolState::new();
    scan_localhost_services(&mut state, results_for(&[9090]), 10);
    let before = get_localhost_services(&state);
    let resp = health_check_service(
        &mut state,
        "localhost".to_string(),
        4000,
        HealthOutcome::Completed(true),
        3,
        20,
    );
    assert!(resp.success);
    assert_eq!(resp.message, "Service at localhost:4000 is healthy (3ms)");
    let after = get_localhost_services(&state);
    assert_eq!(after.len(), before.len());
    assert_eq!(after.len(), 1);
    assert_eq!(after[0].port, 9090);
    // The known record is untouched by the foreign check.
    assert_eq!(after[0].metadata.last_health_check, 10);
    assert!(after[0].metadata.response_time_ms.is_none());
}

#[test]
fn health_check_updates_the_matching_record_in_place() {
    let mut state = GrpcToolState::new();
    scan_localhost_services(&mut state, results_for(&[9090, 8080]), 10);
    let resp = health_check_service(
        &mut state,
        "localhost".to_string(),
        9090,
        HealthOutcome::Completed(false),
        250,
        99,
    );
    assert!(!resp.success);
    assert_eq!(resp.message, "Service at localhost:9090 is unhealthy");
    let registry = get_localhost_services(&state);
    let checked = registry.iter().find(|r| r.port == 9090).unwrap();
    assert!(matches!(checked.metadata.health_status, HealthStatus::Unhealthy));
    assert_eq!(checked.metadata.last_health_check, 99);
    assert_eq!(checked.metadata.response_time_ms, Some(250));
    assert_eq!(checked.metadata.discovered_at, 10);
    let other = registry.iter().find(|r| r.port == 8080).unwrap();
    assert!(matches!(other.metadata.health_status, HealthStatus::Healthy));
    assert_eq!(other.metadata.last_health_check, 10);
    match resp.data {
        Some(ResponseData::Health { host, port, healthy, response_time_ms }) => {
            assert_eq!(host, "localhost");
            assert_eq!(port, 9090);
            assert!(!healthy);
            assert_eq!(response_time_ms, 250);
        }
        _ => panic!("health envelope carried no health payload"),
    }
}

#[test]
fn failed_health_probe_is_reported_without_registry_change() {
    let mut state = GrpcToolState::new();
    scan_localhost_services(&mut state, results_for(&[9090]), 10);
    let resp = health_check_service(
        &mut state,
        "localhost".to_string(),
        9090,
        HealthOutcome::Failed("resolver error".to_string()),
        0,
        50,
    );
    assert!(!resp.success);
    assert_eq!(resp.message, "Health check failed: resolver error");
    assert!(resp.data.is_none());
    assert_eq!(get_localhost_services(&state)[0].metadata.last_health_check, 10);
}

#[test]
fn error_messages_carry_their_kind_and_detail() {
    let c = GrpcToolError::ConnectionError("refused".to_string());
    assert_eq!(c.message(), "Connection failed: refused");
    let d = GrpcToolError::DiscoveryError("no stream".to_string());
    assert_eq!(d.message(), "Discovery failed: no stream");
    let r = GrpcToolError::ReflectionError("bad frame".to_string());
    assert_eq!(r.message(), "Reflection failed: bad frame");
}

#[test]
fn decimal_rendering_matches_expected_values() {
    assert_eq!(u64_to_string(0), "0");
    assert_eq!(u64_to_string(7), "7");
    assert_eq!(u64_to_string(50051), "50051");
    assert_eq!(u64_to_string(u64::MAX), "18446744073709551615");
    assert_eq!(endpoint_key_string("localhost", 8080), "localhost:8080");
    assert_eq!(endpoint_uri_string("localhost", 9090, false), "http://localhost:9090");
    assert_eq!(endpoint_uri_string("example", 443, true), "https://example:443");
}

#[test]
fn scan_with_everything_closed_reports_zero_services() {
    let mut state = GrpcToolState::new();
    let resp = scan_localhost_services(&mut state, results_for(&[]), 5);
    assert!(resp.success);
    assert_eq!(resp.message, "Discovered 0 gRPC services on localhost");
    assert!(get_localhost_services(&state).is_empty());
    match resp.data {
        Some(ResponseData::Scan { services, scan_results, ports_scanned, grpc_services_found }) => {
            assert!(services.is_empty());
            assert!(scan_results.is_empty());
            assert_eq!(ports_scanned, 30);
            assert_eq!(grpc_services_found, 0);
        }
        _ => panic!("scan envelope carried no scan payload"),
    }
}

#[test]
fn decimal_rendering_keeps_interior_zeros() {
    assert_eq!(u64_to_string(100), "100");
    assert_eq!(u64_to_string(9090), "9090");
    assert_eq!(u64_to_string(10_007), "10007");
}

#[test]
fn clock_returns_a_plausible_timestamp() {
    // Seconds since the Unix epoch: after 2020-01-01 on any sane clock.
    let t = grpc_discovery::clock::current_timestamp();
    assert!(t > 1_577_836_800);
}
