use quilkin::admin::{check_healthy, readiness_status, route, AdminRoute, Mode};
use quilkin::config::{ClusterMap, Config, Endpoint};

#[test]
fn check_proxy_readiness() {
    let mut config = Config::new(String::from("test-proxy"));
    assert!(!config.clusters.has_endpoints());

    let response = quilkin::admin::check_proxy_readiness(&config);
    assert_eq!(response, 500);

    let cluster = ClusterMap::new_with_default_cluster(vec![Endpoint::new(
        String::from("127.0.0.1"),
        25999,
    )]);
    config.clusters = cluster;

    let response = quilkin::admin::check_proxy_readiness(&config);
    assert_eq!(response, 200);
}

#[test]
fn routes_get_paths() {
    assert_eq!(route(true, "/metrics"), AdminRoute::Metrics);
    assert_eq!(route(true, "/live"), AdminRoute::Liveness);
    assert_eq!(route(true, "/livez"), AdminRoute::Liveness);
    assert_eq!(route(true, "/ready"), AdminRoute::Readiness);
    assert_eq!(route(true, "/readyz"), AdminRoute::Readiness);
    assert_eq!(route(true, "/config"), AdminRoute::ConfigDump);
}

#[test]
fn unknown_route_or_method_is_not_found() {
    assert_eq!(route(true, "/nope"), AdminRoute::NotFound);
    assert_eq!(route(true, ""), AdminRoute::NotFound);
    assert_eq!(route(true, "/metrics/extra"), AdminRoute::NotFound);
    assert_eq!(route(false, "/metrics"), AdminRoute::NotFound);
    assert_eq!(route(false, "/ready"), AdminRoute::NotFound);
    assert_eq!(route(false, "/anything"), AdminRoute::NotFound);
}

#[test]
fn readiness_by_mode() {
    let mut config = Config::new(String::from("test-ready"));

    assert_eq!(readiness_status(Mode::Proxy, true, &config), 500);
    assert_eq!(readiness_status(Mode::Xds, true, &config), 200);
    assert_eq!(readiness_status(Mode::Xds, false, &config), 500);

    config.clusters = ClusterMap::new_with_default_cluster(vec![Endpoint::new(
        String::from("127.0.0.1"),
        26000,
    )]);
    assert_eq!(readiness_status(Mode::Proxy, true, &config), 200);
}

#[test]
fn liveness_follows_health() {
    assert_eq!(check_healthy(true), 200);
    assert_eq!(check_healthy(false), 500);
}

#[test]
fn proxy_readiness_tracks_cluster_map() {
    let mut config = Config::new(String::from("admin-scenario"));
    assert_eq!(quilkin::admin::check_proxy_readiness(&config), 500);

    config.clusters = ClusterMap::new_with_default_cluster(vec![Endpoint::new(
        String::from("10.0.0.1"),
        7777,
    )]);
    assert_eq!(quilkin::admin::check_proxy_readiness(&config), 200);
}
