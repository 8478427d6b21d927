use vstd::prelude::*;

use crate::resource::ResourceType;

verus! {

/// The watcher registry: one monotonically non-decreasing version
/// counter per resource type. The broadcast side of a watcher (waking
/// the streams) is transport plumbing and lives with the caller; the
/// version bookkeeping here is what responses are stamped with.
#[derive(Debug)]
pub struct Watchers {
    pub cluster_version: u64,
    pub endpoint_version: u64,
    pub listener_version: u64,
}

impl Watchers {
    /// The version counter of one resource type.
    pub open spec fn spec_version(&self, rt: ResourceType) -> u64 {
        match rt {
            ResourceType::Cluster => self.cluster_version,
            ResourceType::Endpoint => self.endpoint_version,
            ResourceType::Listener => self.listener_version,
        }
    }

    /// A fresh registry: every counter starts at zero.
    pub fn new() -> (r: Watchers)
        ensures
            forall|rt: ResourceType| r.spec_version(rt) == 0,
    {
        Watchers { cluster_version: 0, endpoint_version: 0, listener_version: 0 }
    }

    /// Reads the version counter of one resource type.
    pub fn version(&self, rt: ResourceType) -> (r: u64)
        ensures
            r == self.spec_version(rt),
    {
        match rt {
            ResourceType::Cluster => self.cluster_version,
            ResourceType::Endpoint => self.endpoint_version,
            ResourceType::Listener => self.listener_version,
        }
    }

    /// Advances the version counter of one resource type by one,
    /// leaving the others untouched. The counter never decreases; at
    /// the (unreachable in practice) top of `u64` it stays put rather
    /// than wrap, preserving monotonicity.
    pub fn bump(&mut self, rt: ResourceType)
        ensures
            final(self).spec_version(rt) >= old(self).spec_version(rt),
            old(self).spec_version(rt) < u64::MAX ==> final(self).spec_version(rt) == old(
                self,
            ).spec_version(rt) + 1,
            forall|other: ResourceType|
                other != rt ==> final(self).spec_version(other) == old(self).spec_version(other),
    {
        match rt {
            ResourceType::Cluster => {
                self.cluster_version = saturating_inc(self.cluster_version);
            },
            ResourceType::Endpoint => {
                self.endpoint_version = saturating_inc(self.endpoint_version);
            },
            ResourceType::Listener => {
                self.listener_version = saturating_inc(self.listener_version);
            },
        }
    }

    /// The cluster cell changed: endpoint and cluster resources share
    /// that cell as their source, so both watchers advance.
    pub fn on_clusters_changed(&mut self)
        ensures
            final(self).spec_version(ResourceType::Endpoint) >= old(self).spec_version(
                ResourceType::Endpoint,
            ),
            final(self).spec_version(ResourceType::Cluster) >= old(self).spec_version(
                ResourceType::Cluster,
            ),
            old(self).spec_version(ResourceType::Endpoint) < u64::MAX ==> final(self).spec_version(
                ResourceType::Endpoint,
            ) > old(self).spec_version(ResourceType::Endpoint),
            old(self).spec_version(ResourceType::Cluster) < u64::MAX ==> final(self).spec_version(
                ResourceType::Cluster,
            ) > old(self).spec_version(ResourceType::Cluster),
            final(self).spec_version(ResourceType::Listener) == old(self).spec_version(
                ResourceType::Listener,
            ),
    {
        self.bump(ResourceType::Endpoint);
        self.bump(ResourceType::Cluster);
    }

    /// The filter cell changed: listener resources are a function of
    /// the filter chain alone, so only that watcher advances.
    pub fn on_filters_changed(&mut self)
        ensures
            final(self).spec_version(ResourceType::Listener) >= old(self).spec_version(
                ResourceType::Listener,
            ),
            old(self).spec_version(ResourceType::Listener) < u64::MAX ==> final(self).spec_version(
                ResourceType::Listener,
            ) > old(self).spec_version(ResourceType::Listener),
            final(self).spec_version(ResourceType::Cluster) == old(self).spec_version(
                ResourceType::Cluster,
            ),
            final(self).spec_version(ResourceType::Endpoint) == old(self).spec_version(
                ResourceType::Endpoint,
            ),
    {
        self.bump(ResourceType::Listener);
    }
}

/// Adds one without wrapping.
fn saturating_inc(v: u64) -> (r: u64)
    ensures
        v < u64::MAX ==> r == v + 1,
        v == u64::MAX ==> r == v,
        r >= v,
{
    if v < u64::MAX {
        v + 1
    } else {
        v
    }
}

} // verus!
