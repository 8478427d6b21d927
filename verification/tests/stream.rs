use quilkin::config::{ClusterMap, Config, Endpoint};
use quilkin::discovery::{DiscoveryRequest, Resource};
use quilkin::resource::ResourceType;
use quilkin::server::{stream_handshake, ControlPlane, StepResult, StreamError, StreamEvent};

fn request(
    node: Option<&str>,
    type_url: &str,
    names: Vec<String>,
    nonce: &str,
    error: Option<&str>,
) -> DiscoveryRequest {
    DiscoveryRequest {
        node_id: node.map(String::from),
        type_url: String::from(type_url),
        resource_names: names,
        response_nonce: String::from(nonce),
        error_detail: error.map(String::from),
    }
}

fn endpoint_url() -> String {
    String::from(ResourceType::Endpoint.type_url())
}

fn listener_url() -> String {
    String::from(ResourceType::Listener.type_url())
}

#[test]
fn valid_response() {
    let config = Config::new(String::from("server-1"));
    let client = ControlPlane::new(config);

    let first = request(Some("quilkin"), &endpoint_url(), vec![], "", None);
    let start = stream_handshake(&client, Some(first)).unwrap();
    let message = &start.response;

    assert_eq!(message.type_url, endpoint_url());
    assert_eq!(message.version_info, "0");
    assert_eq!(message.control_plane_id, "server-1");
    assert!(message.resources.is_empty());
    assert_eq!(message.nonce.len(), 36);

    let mut engine = start.engine;

    // ACK the response: nothing further leaves the stream.
    let ack = request(
        Some("quilkin"),
        &endpoint_url(),
        vec![],
        &message.nonce,
        None,
    );
    assert!(matches!(
        engine.handle_event(&client, StreamEvent::Request(ack)),
        StepResult::NoAction
    ));

    // A follow-up listener request on the same stream is answered with
    // a listener response carrying the (empty) filter chain.
    let follow_up = request(Some("quilkin"), &listener_url(), vec![], "", None);
    match engine.handle_event(&client, StreamEvent::Request(follow_up)) {
        StepResult::Respond(listener_message) => {
            assert_eq!(listener_message.type_url, listener_url());
            assert_eq!(listener_message.version_info, "0");
            assert_eq!(listener_message.resources.len(), 1);
            match &listener_message.resources[0] {
                Resource::Listener(chain) => assert!(chain.filters.is_empty()),
                other => panic!("expected a listener resource, got {:?} variant", kind(other)),
            }
            assert_ne!(listener_message.nonce, message.nonce);
        }
        _ => panic!("expected a response to the follow-up request"),
    }
}

fn kind(r: &Resource) -> &'static str {
    match r {
        Resource::Cluster(_) => "cluster",
        Resource::ClusterLoadAssignment(_) => "cluster load assignment",
        Resource::Listener(_) => "listener",
    }
}

#[test]
fn handshake_refusals() {
    let client = ControlPlane::new(Config::new(String::from("server-2")));

    assert_eq!(
        stream_handshake(&client, None).unwrap_err(),
        StreamError::NoMessage
    );

    let no_node = request(None, &endpoint_url(), vec![], "", None);
    assert_eq!(
        stream_handshake(&client, Some(no_node)).unwrap_err(),
        StreamError::NodeIdRequired
    );

    let bad_type = request(Some("quilkin"), "invalid", vec![], "", None);
    assert_eq!(
        stream_handshake(&client, Some(bad_type)).unwrap_err(),
        StreamError::UnknownResourceType
    );
}

#[test]
fn delta_discovery_unsupported() {
    let client = ControlPlane::new(Config::new(String::from("server-3")));
    assert_eq!(
        client.delta_aggregated_resources().unwrap_err(),
        StreamError::DeltaUnsupported
    );
}

#[test]
fn nack_triggers_resend() {
    let client = ControlPlane::new(Config::new(String::from("server-4")));
    let first = request(Some("quilkin"), &endpoint_url(), vec![], "", None);
    let start = stream_handshake(&client, Some(first)).unwrap();
    let r1 = start.response;
    let mut engine = start.engine;

    let nack = request(
        Some("quilkin"),
        &endpoint_url(),
        vec![],
        &r1.nonce,
        Some("bad"),
    );
    match engine.handle_event(&client, StreamEvent::Request(nack)) {
        StepResult::Respond(r2) => {
            assert_ne!(r2.nonce, r1.nonce);
            assert_eq!(r2.version_info, r1.version_info);
            assert_eq!(r2.type_url, r1.type_url);
        }
        _ => panic!("a NACK must be answered with exactly one resend"),
    }
}

#[test]
fn unknown_type_url_mid_stream_is_skipped() {
    let client = ControlPlane::new(Config::new(String::from("server-5")));
    let first = request(Some("quilkin"), &endpoint_url(), vec![], "", None);
    let mut engine = stream_handshake(&client, Some(first)).unwrap().engine;

    let invalid = request(Some("quilkin"), "invalid", vec![], "", None);
    assert!(matches!(
        engine.handle_event(&client, StreamEvent::Request(invalid)),
        StepResult::NoAction
    ));

    // The stream is still alive: a later valid request is served.
    let valid = request(Some("quilkin"), &endpoint_url(), vec![], "", None);
    assert!(matches!(
        engine.handle_event(&client, StreamEvent::Request(valid)),
        StepResult::Respond(_)
    ));
}

#[test]
fn mutation_fan_out() {
    let mut client = ControlPlane::new(Config::new(String::from("server-6")));
    let start_a = stream_handshake(
        &client,
        Some(request(Some("proxy-a"), &endpoint_url(), vec![], "", None)),
    )
    .unwrap();
    let start_b = stream_handshake(
        &client,
        Some(request(Some("proxy-b"), &endpoint_url(), vec![], "", None)),
    )
    .unwrap();
    let va: u64 = start_a.response.version_info.parse().unwrap();
    let vb: u64 = start_b.response.version_info.parse().unwrap();
    let mut engine_a = start_a.engine;
    let mut engine_b = start_b.engine;

    client.store_clusters(ClusterMap::new_with_default_cluster(vec![Endpoint::new(
        String::from("127.0.0.1"),
        25999,
    )]));

    match engine_a.handle_event(&client, StreamEvent::ConfigUpdated) {
        StepResult::Respond(resp) => {
            let v: u64 = resp.version_info.parse().unwrap();
            assert!(v > va);
            assert_eq!(resp.resources.len(), 1);
        }
        _ => panic!("a watcher notification must produce a response"),
    }
    match engine_b.handle_event(&client, StreamEvent::ConfigUpdated) {
        StepResult::Respond(resp) => {
            let v: u64 = resp.version_info.parse().unwrap();
            assert!(v > vb);
        }
        _ => panic!("a watcher notification must produce a response"),
    }
}

#[test]
fn versions_strictly_increase_across_mutations() {
    let mut client = ControlPlane::new(Config::new(String::from("server-7")));
    let start = stream_handshake(
        &client,
        Some(request(Some("quilkin"), &endpoint_url(), vec![], "", None)),
    )
    .unwrap();
    let mut engine = start.engine;
    let mut last: u64 = start.response.version_info.parse().unwrap();

    for i in 0..5u16 {
        client.store_clusters(ClusterMap::new_with_default_cluster(vec![Endpoint::new(
            String::from("127.0.0.1"),
            30000 + i,
        )]));
        match engine.handle_event(&client, StreamEvent::ConfigUpdated) {
            StepResult::Respond(resp) => {
                let v: u64 = resp.version_info.parse().unwrap();
                assert!(v > last);
                last = v;
            }
            _ => panic!("a watcher notification must produce a response"),
        }
    }
}

#[test]
fn nonces_are_unique_valid_uuids() {
    let mut client = ControlPlane::new(Config::new(String::from("server-8")));
    let start = stream_handshake(
        &client,
        Some(request(Some("quilkin"), &endpoint_url(), vec![], "", None)),
    )
    .unwrap();
    let mut engine = start.engine;
    let mut nonces = vec![start.response.nonce.clone()];

    for _ in 0..10 {
        client.push_update(ResourceType::Endpoint);
        match engine.handle_event(&client, StreamEvent::ConfigUpdated) {
            StepResult::Respond(resp) => nonces.push(resp.nonce.clone()),
            _ => panic!("a watcher notification must produce a response"),
        }
    }

    for n in &nonces {
        assert_eq!(n.len(), 36);
        assert!(uuid::Uuid::parse_str(n).is_ok());
    }
    for i in 0..nonces.len() {
        for j in 0..i {
            assert_ne!(nonces[i], nonces[j]);
        }
    }
}

#[test]
fn stream_ends_when_inbound_ends() {
    let client = ControlPlane::new(Config::new(String::from("server-9")));
    let start = stream_handshake(
        &client,
        Some(request(Some("quilkin"), &endpoint_url(), vec![], "", None)),
    )
    .unwrap();
    let mut engine = start.engine;
    assert!(matches!(
        engine.handle_event(&client, StreamEvent::InboundClosed),
        StepResult::Terminated
    ));
    let start = stream_handshake(
        &client,
        Some(request(Some("quilkin"), &endpoint_url(), vec![], "", None)),
    )
    .unwrap();
    let mut engine = start.engine;
    assert!(matches!(
        engine.handle_event(&client, StreamEvent::InboundFailed),
        StepResult::Terminated
    ));
}

#[test]
fn pending_ack_expires_after_ttl() {
    let client = ControlPlane::new(Config::new(String::from("server-10")));
    let start = stream_handshake(
        &client,
        Some(request(Some("quilkin"), &endpoint_url(), vec![], "", None)),
    )
    .unwrap();
    let nonce = start.response.nonce.clone();
    let mut engine = start.engine;

    assert!(engine.nonce_pending(&nonce));

    // Wait out the one-second lifespan of the pending-ACK cache.
    let begin = std::time::Instant::now();
    while begin.elapsed().as_millis() < 2500 {}

    assert!(!engine.nonce_pending(&nonce));

    // A late ACK is ignored, not treated as a NACK: no resend, no
    // termination.
    let late_ack = request(Some("quilkin"), &endpoint_url(), vec![], &nonce, None);
    assert!(matches!(
        engine.handle_event(&client, StreamEvent::Request(late_ack)),
        StepResult::NoAction
    ));
}
