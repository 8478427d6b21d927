use quilkin::config::{Cluster, ClusterMap, Config, Endpoint, Filter, FilterChain};
use quilkin::discovery::Resource;
use quilkin::resource::ResourceType;
use quilkin::version::u64_to_decimal;

fn two_cluster_config() -> Config {
    let mut config = Config::new(String::from("encoder"));
    config.clusters = ClusterMap {
        clusters: vec![
            Cluster {
                name: String::from("alpha"),
                endpoints: vec![Endpoint::new(String::from("10.0.0.1"), 1000)],
            },
            Cluster {
                name: String::from("beta"),
                endpoints: vec![
                    Endpoint::new(String::from("10.0.0.2"), 2000),
                    Endpoint::new(String::from("10.0.0.3"), 3000),
                ],
            },
        ],
    };
    config
}

#[test]
fn encodes_all_clusters_when_names_empty() {
    let config = two_cluster_config();
    let response = config.discovery_request(ResourceType::Cluster, &vec![]);
    assert_eq!(response.type_url, ResourceType::Cluster.type_url());
    assert_eq!(response.resources.len(), 2);
    match &response.resources[0] {
        Resource::Cluster(c) => assert_eq!(c.name, "alpha"),
        _ => panic!("expected a cluster resource"),
    }
    match &response.resources[1] {
        Resource::Cluster(c) => {
            assert_eq!(c.name, "beta");
            assert_eq!(c.endpoints.len(), 2);
            assert_eq!(c.endpoints[1].address, "10.0.0.3");
            assert_eq!(c.endpoints[1].port, 3000);
        }
        _ => panic!("expected a cluster resource"),
    }
}

#[test]
fn filters_resources_by_requested_names() {
    let config = two_cluster_config();
    let names = vec![String::from("beta")];
    let response = config.discovery_request(ResourceType::Endpoint, &names);
    assert_eq!(response.type_url, ResourceType::Endpoint.type_url());
    assert_eq!(response.resources.len(), 1);
    match &response.resources[0] {
        Resource::ClusterLoadAssignment(c) => {
            assert_eq!(c.name, "beta");
            assert_eq!(c.endpoints.len(), 2);
        }
        _ => panic!("expected a cluster load assignment resource"),
    }

    let unknown = vec![String::from("gamma")];
    let response = config.discovery_request(ResourceType::Endpoint, &unknown);
    assert!(response.resources.is_empty());
}

#[test]
fn listener_response_carries_filter_chain() {
    let mut config = two_cluster_config();
    config.filters = FilterChain {
        filters: vec![Filter {
            name: String::from("debug"),
            config: Some(String::from("{}")),
        }],
    };
    // The name list does not restrict listener responses.
    let names = vec![String::from("alpha")];
    let response = config.discovery_request(ResourceType::Listener, &names);
    assert_eq!(response.type_url, ResourceType::Listener.type_url());
    assert_eq!(response.resources.len(), 1);
    match &response.resources[0] {
        Resource::Listener(chain) => {
            assert_eq!(chain.filters.len(), 1);
            assert_eq!(chain.filters[0].name, "debug");
            assert_eq!(chain.filters[0].config.as_deref(), Some("{}"));
        }
        _ => panic!("expected a listener resource"),
    }
}

#[test]
fn encoding_is_stable_over_repeated_calls() {
    let config = two_cluster_config();
    let a = config.discovery_request(ResourceType::Cluster, &vec![]);
    let b = config.discovery_request(ResourceType::Cluster, &vec![]);
    assert_eq!(a.resources.len(), b.resources.len());
    for (x, y) in a.resources.iter().zip(b.resources.iter()) {
        match (x, y) {
            (Resource::Cluster(cx), Resource::Cluster(cy)) => assert_eq!(cx.name, cy.name),
            _ => panic!("expected cluster resources in the same order"),
        }
    }
}

#[test]
fn type_urls_round_trip() {
    for rt in [
        ResourceType::Cluster,
        ResourceType::Endpoint,
        ResourceType::Listener,
    ] {
        assert_eq!(ResourceType::parse(rt.type_url()), Some(rt));
    }
    assert_eq!(ResourceType::parse("invalid"), None);
    assert_eq!(ResourceType::parse(""), None);
}

#[test]
fn known_type_urls() {
    assert_eq!(
        ResourceType::Cluster.type_url(),
        "type.googleapis.com/envoy.config.cluster.v3.Cluster"
    );
    assert_eq!(
        ResourceType::Endpoint.type_url(),
        "type.googleapis.com/envoy.config.endpoint.v3.ClusterLoadAssignment"
    );
    assert_eq!(
        ResourceType::Listener.type_url(),
        "type.googleapis.com/envoy.config.listener.v3.Listener"
    );
}

#[test]
fn decimal_rendering_exact_values() {
    assert_eq!(u64_to_decimal(0), "0");
    assert_eq!(u64_to_decimal(7), "7");
    assert_eq!(u64_to_decimal(10), "10");
    assert_eq!(u64_to_decimal(105), "105");
    assert_eq!(u64_to_decimal(123456789), "123456789");
    assert_eq!(u64_to_decimal(u64::MAX), "18446744073709551615");
}
