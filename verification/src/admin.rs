use vstd::prelude::*;

use crate::config::{spec_has_endpoints, Config};

verus! {

/// The port the administrative endpoint binds by default.
pub const PORT: u16 = 8000;

/// Which role the process runs in: a packet proxy, or a management
/// server that only serves configuration to other proxies. Readiness
/// means different things in the two roles.
#[derive(Copy, Clone, Debug)]
pub enum Mode {
    Proxy,
    Xds,
}

/// Where an administrative request is routed.
#[derive(Copy, Clone, Debug, PartialEq, Eq, Structural)]
pub enum AdminRoute {
    /// `GET /metrics`: the metrics registry in the text exposition
    /// format.
    Metrics,
    /// `GET /live` or `GET /livez`: the liveness probe.
    Liveness,
    /// `GET /ready` or `GET /readyz`: the readiness probe.
    Readiness,
    /// `GET /config`: the JSON dump of the configuration.
    ConfigDump,
    /// Anything else, and every non-GET method.
    NotFound,
}

/// The routing table of the administrative endpoint.
pub open spec fn spec_route(is_get: bool, path: Seq<char>) -> AdminRoute {
    if !is_get {
        AdminRoute::NotFound
    } else if path == "/metrics"@ {
        AdminRoute::Metrics
    } else if path == "/live"@ || path == "/livez"@ {
        AdminRoute::Liveness
    } else if path == "/ready"@ || path == "/readyz"@ {
        AdminRoute::Readiness
    } else if path == "/config"@ {
        AdminRoute::ConfigDump
    } else {
        AdminRoute::NotFound
    }
}

/// Routes one request by method and path; only GET requests reach a
/// handler, everything else is not found.
pub fn route(is_get: bool, path: &str) -> (r: AdminRoute)
    ensures
        r == spec_route(is_get, path@),
{
    if !is_get {
        return AdminRoute::NotFound;
    }
    let owned = String::from_str(path);
    if owned == String::from_str("/metrics") {
        AdminRoute::Metrics
    } else if owned == String::from_str("/live") || owned == String::from_str("/livez") {
        AdminRoute::Liveness
    } else if owned == String::from_str("/ready") || owned == String::from_str("/readyz") {
        AdminRoute::Readiness
    } else if owned == String::from_str("/config") {
        AdminRoute::ConfigDump
    } else {
        AdminRoute::NotFound
    }
}

/// The liveness answer: OK while the process reports itself healthy.
pub fn check_healthy(healthy: bool) -> (status: u16)
    ensures
        (status == 200) == healthy,
        status == 200 || status == 500,
{
    if healthy {
        200
    } else {
        500
    }
}

/// The proxy-mode readiness answer: a proxy is ready exactly when it
/// knows at least one endpoint to forward to.
pub fn check_proxy_readiness(config: &Config) -> (status: u16)
    ensures
        (status == 200) == spec_has_endpoints(config@.clusters),
        status == 200 || status == 500,
{
    if config.clusters.has_endpoints() {
        200
    } else {
        500
    }
}

/// The readiness answer for either mode: a proxy is ready when it has
/// an endpoint, a management server whenever it is healthy.
pub fn readiness_status(mode: Mode, healthy: bool, config: &Config) -> (status: u16)
    ensures
        mode is Proxy ==> (status == 200) == spec_has_endpoints(config@.clusters),
        mode is Xds ==> (status == 200) == healthy,
        status == 200 || status == 500,
{
    match mode {
        Mode::Proxy => check_proxy_readiness(config),
        Mode::Xds => check_healthy(healthy),
    }
}

} // verus!
