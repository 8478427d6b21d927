use vstd::prelude::*;

verus! {

/// A backend endpoint: a socket address split into host and port.
#[derive(Debug)]
pub struct Endpoint {
    pub address: String,
    pub port: u16,
}

/// Mathematical image of an [`Endpoint`].
pub ghost struct EndpointView {
    pub address: Seq<char>,
    pub port: u16,
}

impl View for Endpoint {
    type V = EndpointView;

    open spec fn view(&self) -> EndpointView {
        EndpointView { address: self.address@, port: self.port }
    }
}

impl Endpoint {
    /// A new endpoint at the given host and port.
    pub fn new(address: String, port: u16) -> (r: Endpoint)
        ensures
            r@ == (EndpointView { address: address@, port }),
    {
        Endpoint { address, port }
    }
}

/// A named cluster: a set of endpoints sharing one upstream identity.
#[derive(Debug)]
pub struct Cluster {
    pub name: String,
    pub endpoints: Vec<Endpoint>,
}

/// Mathematical image of a [`Cluster`].
pub ghost struct ClusterView {
    pub name: Seq<char>,
    pub endpoints: Seq<EndpointView>,
}

impl View for Cluster {
    type V = ClusterView;

    open spec fn view(&self) -> ClusterView {
        ClusterView { name: self.name@, endpoints: self.endpoints@.map_values(|e: Endpoint| e@) }
    }
}

/// The cluster map cell of the configuration: every known cluster, in a
/// stable order.
#[derive(Debug)]
pub struct ClusterMap {
    pub clusters: Vec<Cluster>,
}

impl View for ClusterMap {
    type V = Seq<ClusterView>;

    open spec fn view(&self) -> Seq<ClusterView> {
        self.clusters@.map_values(|c: Cluster| c@)
    }
}

/// Whether any cluster in the map holds at least one endpoint.
pub open spec fn spec_has_endpoints(cs: Seq<ClusterView>) -> bool {
    exists|i: int| 0 <= i < cs.len() && cs[i].endpoints.len() > 0
}

/// Cluster names are pairwise distinct, so the map is a map.
pub open spec fn spec_names_unique(cs: Seq<ClusterView>) -> bool {
    forall|i: int, j: int| 0 <= i < j < cs.len() ==> cs[i].name != cs[j].name
}

impl ClusterMap {
    /// The well-formedness the constructors establish: no two clusters
    /// share a name.
    pub open spec fn wf(&self) -> bool {
        spec_names_unique(self@)
    }

    /// An empty cluster map.
    pub fn new() -> (r: ClusterMap)
        ensures
            r@ == Seq::<ClusterView>::empty(),
            r.wf(),
    {
        let r = ClusterMap { clusters: Vec::new() };
        proof {
            assert(r@ =~= Seq::<ClusterView>::empty());
        }
        r
    }

    /// A map holding a single cluster named `default` with the given
    /// endpoints.
    pub fn new_with_default_cluster(endpoints: Vec<Endpoint>) -> (r: ClusterMap)
        ensures
            r@.len() == 1,
            r@[0].name == "default"@,
            r@[0].endpoints == endpoints@.map_values(|e: Endpoint| e@),
            r.wf(),
    {
        let cluster = Cluster { name: String::from_str("default"), endpoints };
        let mut clusters: Vec<Cluster> = Vec::new();
        clusters.push(cluster);
        let r = ClusterMap { clusters };
        proof {
            assert(r@.len() == 1);
        }
        r
    }

    /// Whether the map holds any endpoint at all; readiness of a proxy
    /// is defined by this.
    pub fn has_endpoints(&self) -> (r: bool)
        ensures
            r == spec_has_endpoints(self@),
    {
        let mut i: usize = 0;
        while i < self.clusters.len()
            invariant
                i <= self.clusters.len(),
                forall|k: int| 0 <= k < i ==> self@[k].endpoints.len() == 0,
            decreases self.clusters.len() - i,
        {
            if self.clusters[i].endpoints.len() > 0 {
                proof {
                    assert(self@[i as int] == self.clusters@[i as int]@);
                    assert(self@[i as int].endpoints.len() > 0);
                }
                return true;
            }
            i = i + 1;
        }
        false
    }
}

/// One entry of the filter chain: a filter name plus its optional
/// serialized configuration.
#[derive(Debug)]
pub struct Filter {
    pub name: String,
    pub config: Option<String>,
}

/// Mathematical image of a [`Filter`].
pub ghost struct FilterView {
    pub name: Seq<char>,
    pub config: Option<Seq<char>>,
}

impl View for Filter {
    type V = FilterView;

    open spec fn view(&self) -> FilterView {
        FilterView {
            name: self.name@,
            config: match self.config {
                Some(ref c) => Some(c@),
                None => None,
            },
        }
    }
}

/// The filter chain cell of the configuration: an ordered sequence of
/// filter descriptors.
#[derive(Debug)]
pub struct FilterChain {
    pub filters: Vec<Filter>,
}

impl View for FilterChain {
    type V = Seq<FilterView>;

    open spec fn view(&self) -> Seq<FilterView> {
        self.filters@.map_values(|f: Filter| f@)
    }
}

impl FilterChain {
    /// An empty filter chain.
    pub fn new() -> (r: FilterChain)
        ensures
            r@ == Seq::<FilterView>::empty(),
    {
        let r = FilterChain { filters: Vec::new() };
        proof {
            assert(r@ =~= Seq::<FilterView>::empty());
        }
        r
    }
}

/// The configuration snapshot store: the process identifier plus the
/// independently updatable cells the control plane serves from.
#[derive(Debug)]
pub struct Config {
    pub id: String,
    pub clusters: ClusterMap,
    pub filters: FilterChain,
}

/// Mathematical image of a [`Config`].
pub ghost struct ConfigView {
    pub id: Seq<char>,
    pub clusters: Seq<ClusterView>,
    pub filters: Seq<FilterView>,
}

impl View for Config {
    type V = ConfigView;

    open spec fn view(&self) -> ConfigView {
        ConfigView { id: self.id@, clusters: self.clusters@, filters: self.filters@ }
    }
}

impl Config {
    /// A configuration with the given identifier and no clusters or
    /// filters yet.
    pub fn new(id: String) -> (r: Config)
        ensures
            r@.id == id@,
            r@.clusters == Seq::<ClusterView>::empty(),
            r@.filters == Seq::<FilterView>::empty(),
    {
        Config { id, clusters: ClusterMap::new(), filters: FilterChain::new() }
    }
}

} // verus!
