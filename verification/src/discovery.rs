use vstd::prelude::*;

use crate::config::{
    Cluster, ClusterView, Config, ConfigView, Endpoint, Filter, FilterChain, FilterView,
};
use crate::resource::{spec_type_url, ResourceType};

verus! {

/// One message from a client on a discovery stream.
#[derive(Debug)]
pub struct DiscoveryRequest {
    pub node_id: Option<String>,
    pub type_url: String,
    pub resource_names: Vec<String>,
    pub response_nonce: String,
    pub error_detail: Option<String>,
}

/// Mathematical image of a [`DiscoveryRequest`].
pub ghost struct DiscoveryRequestView {
    pub node_id: Option<Seq<char>>,
    pub type_url: Seq<char>,
    pub resource_names: Seq<Seq<char>>,
    pub response_nonce: Seq<char>,
    pub error_detail: Option<Seq<char>>,
}

impl View for DiscoveryRequest {
    type V = DiscoveryRequestView;

    open spec fn view(&self) -> DiscoveryRequestView {
        DiscoveryRequestView {
            node_id: match self.node_id {
                Some(ref id) => Some(id@),
                None => None,
            },
            type_url: self.type_url@,
            resource_names: self.resource_names.deep_view(),
            response_nonce: self.response_nonce@,
            error_detail: match self.error_detail {
                Some(ref e) => Some(e@),
                None => None,
            },
        }
    }
}

/// One typed resource in a response: the payload the encoder derives
/// from a configuration snapshot. The serialized wire form is outside
/// this library; the payload here is the logical content.
#[derive(Debug)]
pub enum Resource {
    Cluster(Cluster),
    ClusterLoadAssignment(Cluster),
    Listener(FilterChain),
}

/// Mathematical image of a [`Resource`].
pub ghost enum ResourceView {
    Cluster(ClusterView),
    ClusterLoadAssignment(ClusterView),
    Listener(Seq<FilterView>),
}

impl View for Resource {
    type V = ResourceView;

    open spec fn view(&self) -> ResourceView {
        match self {
            Resource::Cluster(c) => ResourceView::Cluster(c@),
            Resource::ClusterLoadAssignment(c) => ResourceView::ClusterLoadAssignment(c@),
            Resource::Listener(f) => ResourceView::Listener(f@),
        }
    }
}

/// One message from the control plane to a client on a discovery
/// stream.
#[derive(Debug)]
pub struct DiscoveryResponse {
    pub version_info: String,
    pub resources: Vec<Resource>,
    pub type_url: String,
    pub nonce: String,
    pub control_plane_id: String,
}

/// Mathematical image of a [`DiscoveryResponse`].
pub ghost struct DiscoveryResponseView {
    pub version_info: Seq<char>,
    pub resources: Seq<ResourceView>,
    pub type_url: Seq<char>,
    pub nonce: Seq<char>,
    pub control_plane_id: Seq<char>,
}

impl View for DiscoveryResponse {
    type V = DiscoveryResponseView;

    open spec fn view(&self) -> DiscoveryResponseView {
        DiscoveryResponseView {
            version_info: self.version_info@,
            resources: self.resources@.map_values(|r: Resource| r@),
            type_url: self.type_url@,
            nonce: self.nonce@,
            control_plane_id: self.control_plane_id@,
        }
    }
}

/// Whether a cluster name is requested: an empty request list selects
/// everything, a non-empty list selects exactly its members.
pub open spec fn spec_selected(names: Seq<Seq<char>>, name: Seq<char>) -> bool {
    names.len() == 0 || names.contains(name)
}

/// The resource built from one cluster for a cluster-ish resource type.
pub open spec fn spec_cluster_resource(rt: ResourceType, c: ClusterView) -> ResourceView {
    match rt {
        ResourceType::Endpoint => ResourceView::ClusterLoadAssignment(c),
        _ => ResourceView::Cluster(c),
    }
}

/// The encoder's output over the cluster map: one resource per selected
/// cluster, in map order.
pub open spec fn spec_encode_clusters(
    cs: Seq<ClusterView>,
    rt: ResourceType,
    names: Seq<Seq<char>>,
) -> Seq<ResourceView>
    decreases cs.len(),
{
    if cs.len() == 0 {
        Seq::empty()
    } else {
        spec_encode_clusters(cs.drop_last(), rt, names) + if spec_selected(
            names,
            cs.last().name,
        ) {
            seq![spec_cluster_resource(rt, cs.last())]
        } else {
            Seq::empty()
        }
    }
}

/// What the resource encoder yields for a snapshot, a resource type and
/// a request list: cluster and endpoint responses read the cluster map,
/// listener responses carry the filter chain.
pub open spec fn spec_encode(c: ConfigView, rt: ResourceType, names: Seq<Seq<char>>) -> Seq<
    ResourceView,
> {
    match rt {
        ResourceType::Listener => seq![ResourceView::Listener(c.filters)],
        _ => spec_encode_clusters(c.clusters, rt, names),
    }
}

/// Reads the logical cluster set back out of a sequence of resources.
pub open spec fn spec_decode_clusters(rs: Seq<ResourceView>) -> Seq<ClusterView>
    decreases rs.len(),
{
    if rs.len() == 0 {
        Seq::empty()
    } else {
        spec_decode_clusters(rs.drop_last()) + match rs.last() {
            ResourceView::Cluster(c) => seq![c],
            ResourceView::ClusterLoadAssignment(c) => seq![c],
            ResourceView::Listener(_) => Seq::empty(),
        }
    }
}

/// The clusters of a snapshot restricted to the requested names, read
/// directly.
pub open spec fn spec_filter_clusters(cs: Seq<ClusterView>, names: Seq<Seq<char>>) -> Seq<
    ClusterView,
>
    decreases cs.len(),
{
    if cs.len() == 0 {
        Seq::empty()
    } else {
        spec_filter_clusters(cs.drop_last(), names) + if spec_selected(names, cs.last().name) {
            seq![cs.last()]
        } else {
            Seq::empty()
        }
    }
}

proof fn lemma_decode_clusters(cs: Seq<ClusterView>, rt: ResourceType, names: Seq<Seq<char>>)
    requires
        rt != ResourceType::Listener,
    ensures
        spec_decode_clusters(spec_encode_clusters(cs, rt, names)) == spec_filter_clusters(
            cs,
            names,
        ),
    decreases cs.len(),
{
    if cs.len() == 0 {
        assert(spec_decode_clusters(spec_encode_clusters(cs, rt, names))
            =~= spec_filter_clusters(cs, names));
    } else {
        lemma_decode_clusters(cs.drop_last(), rt, names);
        let prefix = spec_encode_clusters(cs.drop_last(), rt, names);
        if spec_selected(names, cs.last().name) {
            let r = spec_cluster_resource(rt, cs.last());
            assert(spec_encode_clusters(cs, rt, names) =~= prefix + seq![r]);
            assert((prefix + seq![r]).drop_last() =~= prefix);
            assert((prefix + seq![r]).last() == r);
            assert(spec_decode_clusters(prefix + seq![r]) =~= spec_decode_clusters(prefix) + seq![
                cs.last(),
            ]);
            assert(spec_decode_clusters(spec_encode_clusters(cs, rt, names))
                =~= spec_filter_clusters(cs, names));
        } else {
            assert(spec_encode_clusters(cs, rt, names) =~= prefix);
            assert(spec_filter_clusters(cs, names) =~= spec_filter_clusters(
                cs.drop_last(),
                names,
            ));
        }
    }
}

/// The round trip of the encoder: decoding what was encoded from a
/// snapshot yields the same logical resource set as reading the
/// snapshot directly and filtering by the requested names — for
/// cluster-ish types the selected clusters in map order, for listeners
/// the filter chain itself.
pub proof fn lemma_encode_decode_round_trip(
    c: ConfigView,
    rt: ResourceType,
    names: Seq<Seq<char>>,
)
    ensures
        rt != ResourceType::Listener ==> spec_decode_clusters(spec_encode(c, rt, names))
            == spec_filter_clusters(c.clusters, names),
        rt == ResourceType::Listener ==> spec_encode(c, rt, names) == seq![
            ResourceView::Listener(c.filters),
        ],
{
    if rt != ResourceType::Listener {
        lemma_decode_clusters(c.clusters, rt, names);
    }
}

impl Endpoint {
    /// A structural copy.
    pub fn duplicate(&self) -> (r: Endpoint)
        ensures
            r@ == self@,
    {
        Endpoint { address: self.address.clone(), port: self.port }
    }
}

impl Cluster {
    /// A structural copy.
    pub fn duplicate(&self) -> (r: Cluster)
        ensures
            r@ == self@,
    {
        let mut endpoints: Vec<Endpoint> = Vec::new();
        let mut i: usize = 0;
        while i < self.endpoints.len()
            invariant
                i <= self.endpoints.len(),
                endpoints@.len() == i,
                forall|k: int| 0 <= k < i ==> endpoints@[k]@ == self.endpoints@[k]@,
            decreases self.endpoints.len() - i,
        {
            endpoints.push(self.endpoints[i].duplicate());
            i = i + 1;
        }
        let r = Cluster { name: self.name.clone(), endpoints };
        proof {
            assert(r@.endpoints =~= self@.endpoints);
        }
        r
    }
}

impl FilterChain {
    /// A structural copy.
    pub fn duplicate(&self) -> (r: FilterChain)
        ensures
            r@ == self@,
    {
        let mut filters: Vec<Filter> = Vec::new();
        let mut i: usize = 0;
        while i < self.filters.len()
            invariant
                i <= self.filters.len(),
                filters@.len() == i,
                forall|k: int| 0 <= k < i ==> filters@[k]@ == self.filters@[k]@,
            decreases self.filters.len() - i,
        {
            let f = &self.filters[i];
            let config = match &f.config {
                Some(c) => Some(c.clone()),
                None => None,
            };
            filters.push(Filter { name: f.name.clone(), config });
            i = i + 1;
        }
        let r = FilterChain { filters };
        proof {
            assert(r@ =~= self@);
        }
        r
    }
}

/// Whether `name` occurs in `names`.
fn name_in_list(names: &Vec<String>, name: &String) -> (r: bool)
    ensures
        r == names.deep_view().contains(name@),
{
    let mut i: usize = 0;
    while i < names.len()
        invariant
            i <= names.len(),
            forall|k: int| 0 <= k < i ==> names.deep_view()[k] != name@,
        decreases names.len() - i,
    {
        if <String as PartialEq>::eq(&names[i], name) {
            proof {
                assert(names.deep_view()[i as int] == names@[i as int]@);
            }
            return true;
        }
        proof {
            assert(names.deep_view()[i as int] == names@[i as int]@);
        }
        i = i + 1;
    }
    proof {
        assert(forall|k: int|
            0 <= k < names.deep_view().len() ==> names.deep_view()[k] != name@);
    }
    false
}

impl Config {
    /// The resource encoder: derives the typed response payload for one
    /// resource type from the current snapshot, restricted to the
    /// requested names (an empty list means all). The version, nonce
    /// and control-plane identity are filled in by the stream layer.
    pub fn discovery_request(&self, resource_type: ResourceType, names: &Vec<String>) -> (r:
        DiscoveryResponse)
        ensures
            r@.resources == spec_encode(self@, resource_type, names.deep_view()),
            r@.type_url == spec_type_url(resource_type),
            r@.version_info == Seq::<char>::empty(),
            r@.nonce == Seq::<char>::empty(),
            r@.control_plane_id == Seq::<char>::empty(),
    {
        let mut resources: Vec<Resource> = Vec::new();
        match resource_type {
            ResourceType::Listener => {
                resources.push(Resource::Listener(self.filters.duplicate()));
                proof {
                    assert(resources@.map_values(|r: Resource| r@) =~= spec_encode(
                        self@,
                        resource_type,
                        names.deep_view(),
                    ));
                }
            },
            _ => {
                let mut i: usize = 0;
                while i < self.clusters.clusters.len()
                    invariant
                        i <= self.clusters.clusters.len(),
                        resource_type != ResourceType::Listener,
                        resources@.map_values(|r: Resource| r@) =~= spec_encode_clusters(
                            self.clusters@.take(i as int),
                            resource_type,
                            names.deep_view(),
                        ),
                    decreases self.clusters.clusters.len() - i,
                {
                    let cluster = &self.clusters.clusters[i];
                    proof {
                        assert(self.clusters@[i as int] == self.clusters.clusters@[i as int]@);
                        assert(self.clusters@.take(i as int + 1).drop_last() =~= self.clusters@.take(
                            i as int,
                        ));
                        assert(self.clusters@.take(i as int + 1).last() == self.clusters@[
                            i as int]);
                    }
                    if names.len() == 0 || name_in_list(names, &cluster.name) {
                        let res = match resource_type {
                            ResourceType::Endpoint => Resource::ClusterLoadAssignment(
                                cluster.duplicate(),
                            ),
                            _ => Resource::Cluster(cluster.duplicate()),
                        };
                        resources.push(res);
                        proof {
                            assert(resources@.map_values(|r: Resource| r@) =~= spec_encode_clusters(
                                self.clusters@.take(i as int + 1),
                                resource_type,
                                names.deep_view(),
                            ));
                        }
                    } else {
                        proof {
                            assert(resources@.map_values(|r: Resource| r@) =~= spec_encode_clusters(
                                self.clusters@.take(i as int + 1),
                                resource_type,
                                names.deep_view(),
                            ));
                        }
                    }
                    i = i + 1;
                }
                proof {
                    assert(self.clusters@.take(self.clusters.clusters.len() as int)
                        =~= self.clusters@);
                }
            },
        }
        DiscoveryResponse {
            version_info: String::new(),
            resources,
            type_url: String::from_str(resource_type.type_url()),
            nonce: String::new(),
            control_plane_id: String::new(),
        }
    }
}

} // verus!
