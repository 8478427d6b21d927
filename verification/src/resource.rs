use vstd::prelude::*;

verus! {

/// The three classes of configuration resource that the control plane
/// can stream to a connected proxy.
#[derive(Copy, Clone, Debug, PartialEq, Eq, Structural)]
pub enum ResourceType {
    Cluster,
    Endpoint,
    Listener,
}

/// The type URL that identifies clusters on the wire.
pub open spec fn spec_cluster_url() -> Seq<char> {
    "type.googleapis.com/envoy.config.cluster.v3.Cluster"@
}

/// The type URL that identifies per-cluster endpoint lists on the wire.
pub open spec fn spec_endpoint_url() -> Seq<char> {
    "type.googleapis.com/envoy.config.endpoint.v3.ClusterLoadAssignment"@
}

/// The type URL that identifies listener / filter-chain resources on the wire.
pub open spec fn spec_listener_url() -> Seq<char> {
    "type.googleapis.com/envoy.config.listener.v3.Listener"@
}

/// The stable protocol identity of each resource type.
pub open spec fn spec_type_url(rt: ResourceType) -> Seq<char> {
    match rt {
        ResourceType::Cluster => spec_cluster_url(),
        ResourceType::Endpoint => spec_endpoint_url(),
        ResourceType::Listener => spec_listener_url(),
    }
}

/// How an arbitrary type URL string is classified: exactly the three
/// known URLs parse, everything else is rejected.
pub open spec fn spec_parse_type_url(s: Seq<char>) -> Option<ResourceType> {
    if s == spec_cluster_url() {
        Some(ResourceType::Cluster)
    } else if s == spec_endpoint_url() {
        Some(ResourceType::Endpoint)
    } else if s == spec_listener_url() {
        Some(ResourceType::Listener)
    } else {
        None
    }
}

impl ResourceType {
    /// The type URL carried in requests and responses for this resource type.
    pub fn type_url(self) -> (r: &'static str)
        ensures
            r@ == spec_type_url(self),
    {
        match self {
            ResourceType::Cluster => "type.googleapis.com/envoy.config.cluster.v3.Cluster",
            ResourceType::Endpoint => "type.googleapis.com/envoy.config.endpoint.v3.ClusterLoadAssignment",
            ResourceType::Listener => "type.googleapis.com/envoy.config.listener.v3.Listener",
        }
    }

    /// Classifies a type URL; unknown URLs yield `None`.
    pub fn parse(s: &str) -> (r: Option<ResourceType>)
        ensures
            r == spec_parse_type_url(s@),
    {
        let owned = String::from_str(s);
        if owned == String::from_str("type.googleapis.com/envoy.config.cluster.v3.Cluster") {
            Some(ResourceType::Cluster)
        } else if owned == String::from_str(
            "type.googleapis.com/envoy.config.endpoint.v3.ClusterLoadAssignment",
        ) {
            Some(ResourceType::Endpoint)
        } else if owned == String::from_str(
            "type.googleapis.com/envoy.config.listener.v3.Listener",
        ) {
            Some(ResourceType::Listener)
        } else {
            None
        }
    }
}

/// The three type URLs are pairwise distinct, so a type URL identifies
/// its resource type unambiguously.
pub proof fn lemma_type_urls_distinct()
    ensures
        spec_cluster_url() != spec_endpoint_url(),
        spec_cluster_url() != spec_listener_url(),
        spec_endpoint_url() != spec_listener_url(),
{
    reveal_strlit("type.googleapis.com/envoy.config.cluster.v3.Cluster");
    reveal_strlit("type.googleapis.com/envoy.config.endpoint.v3.ClusterLoadAssignment");
    reveal_strlit("type.googleapis.com/envoy.config.listener.v3.Listener");
    assert(spec_cluster_url().len() == 51);
    assert(spec_endpoint_url().len() == 66);
    assert(spec_listener_url().len() == 53);
}

/// Parsing the type URL of a resource type gives that resource type back.
pub proof fn lemma_type_url_round_trip(rt: ResourceType)
    ensures
        spec_parse_type_url(spec_type_url(rt)) == Some(rt),
{
    lemma_type_urls_distinct();
}

} // verus!
