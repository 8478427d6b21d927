use vstd::prelude::*;

use crate::config::{ClusterMap, Config, ConfigView, FilterChain};
use crate::discovery::{spec_encode, DiscoveryRequest, DiscoveryRequestView, DiscoveryResponse,
    DiscoveryResponseView};
use crate::resource::{spec_parse_type_url, spec_type_url, ResourceType};
use crate::version::{dec_digits, dec_value, lemma_dec_monotone, u64_to_decimal};
use crate::watch::Watchers;

verus! {

/// How many nonces a stream remembers for ACK matching.
pub const PENDING_ACK_CAPACITY: usize = 50;

/// How long a remembered nonce stays recognisable, in seconds.
pub const PENDING_ACK_LIFESPAN_SECS: u64 = 1;

/// Why a stream could not be served, or was refused at the handshake.
#[derive(Copy, Clone, Debug, PartialEq, Eq, Structural)]
pub enum StreamError {
    /// The inbound half closed before any message arrived.
    NoMessage,
    /// The first message carried no node identifier.
    NodeIdRequired,
    /// The first message carried a type URL this control plane does not
    /// recognise.
    UnknownResourceType,
    /// The delta variant of the discovery protocol is not offered.
    DeltaUnsupported,
}

/// Whether a string is accepted as a UUID; the result of
/// `uuid::Uuid::parse_str`, a function of the characters alone.
pub uninterp spec fn uuid_parse_ok(s: Seq<char>) -> bool;

/// Relies on `uuid::Uuid::new_v4` and uuid's `Display`: a fresh v4
/// UUID rendered in the hyphenated form, which is 36 characters long
/// and is accepted by `uuid::Uuid::parse_str`.
#[verifier::external_body]
fn fresh_nonce() -> (r: String)
    ensures
        r@.len() == 36,
        uuid_parse_ok(r@),
{
    uuid::Uuid::new_v4().to_string()
}

/// Relies on `uuid::Uuid::parse_str`: acceptance depends on the
/// characters alone.
#[verifier::external_body]
fn nonce_is_uuid(s: &str) -> (r: bool)
    ensures
        r == uuid_parse_ok(s@),
{
    uuid::Uuid::parse_str(s).is_ok()
}

#[verifier::external_type_specification]
#[verifier::external_body]
#[verifier::reject_recursive_types(K)]
#[verifier::reject_recursive_types(V)]
pub struct ExTimedSizedCache<K, V>(cached::TimedSizedCache<K, V>);

/// The set of nonces a pending-ACK cache currently holds. Entries
/// expire with time and are evicted on overflow, so the wrappers below
/// promise only that the set never grows behind the caller's back.
pub uninterp spec fn pending_keys(c: cached::TimedSizedCache<String, ()>) -> Set<Seq<char>>;

/// Relies on `cached::TimedSizedCache::with_size_and_lifespan`: a new
/// cache holds nothing; it panics only on a zero size, which the
/// precondition excludes.
#[verifier::external_body]
fn pending_acks_new(size: usize, lifespan_secs: u64) -> (r: cached::TimedSizedCache<String, ()>)
    requires
        size > 0,
    ensures
        pending_keys(r) == Set::<Seq<char>>::empty(),
{
    cached::TimedSizedCache::with_size_and_lifespan(size, lifespan_secs)
}

/// Relies on `cached::Cached::cache_set` for `TimedSizedCache`: the key
/// is stored; a full cache evicts the least recently used entry, so
/// nothing appears that was not already there or inserted now.
#[verifier::external_body]
fn pending_acks_insert(c: &mut cached::TimedSizedCache<String, ()>, nonce: String)
    ensures
        pending_keys(*final(c)).contains(nonce@),
        pending_keys(*final(c)).subset_of(pending_keys(*old(c)).insert(nonce@)),
{
    cached::Cached::cache_set(c, nonce, ());
}

/// Relies on `cached::Cached::cache_get` for `TimedSizedCache`: a hit
/// is possible only for a stored key (a stored key may still miss once
/// its lifespan has passed), and the lookup drops expired entries but
/// adds none.
#[verifier::external_body]
fn pending_acks_contains(c: &mut cached::TimedSizedCache<String, ()>, nonce: &str) -> (r: bool)
    ensures
        r ==> pending_keys(*old(c)).contains(nonce@),
        pending_keys(*final(c)).subset_of(pending_keys(*old(c))),
{
    cached::Cached::cache_get(c, nonce).is_some()
}

/// What a well-formed response looks like, given the snapshot it was
/// encoded from and the version counter it was stamped with.
pub open spec fn spec_response(
    cfg: ConfigView,
    version: u64,
    rt: ResourceType,
    names: Seq<Seq<char>>,
    r: DiscoveryResponseView,
) -> bool {
    &&& r.resources == spec_encode(cfg, rt, names)
    &&& r.type_url == spec_type_url(rt)
    &&& r.version_info == dec_digits(version as nat)
    &&& r.control_plane_id == cfg.id
    &&& uuid_parse_ok(r.nonce)
    &&& r.nonce.len() == 36
}

/// The discovery server's shared state: the configuration snapshot
/// store plus the per-resource-type watcher registry, wired so that a
/// cluster mutation advances the cluster and endpoint watchers and a
/// filter mutation advances the listener watcher.
#[derive(Debug)]
pub struct ControlPlane {
    pub config: Config,
    pub watchers: Watchers,
}

impl ControlPlane {
    /// A control plane serving the given configuration, every version
    /// counter at zero.
    pub fn new(config: Config) -> (r: ControlPlane)
        ensures
            r.config == config,
            forall|rt: ResourceType| r.watchers.spec_version(rt) == 0,
    {
        ControlPlane { config, watchers: Watchers::new() }
    }

    /// Advances the version counter of one resource type, as the
    /// watcher wiring does when the cell that type reads from changes.
    pub fn push_update(&mut self, resource_type: ResourceType)
        ensures
            final(self).config == old(self).config,
            final(self).watchers.spec_version(resource_type) >= old(self).watchers.spec_version(
                resource_type,
            ),
            old(self).watchers.spec_version(resource_type) < u64::MAX ==> final(self).watchers.spec_version(resource_type) == old(self).watchers.spec_version(
                resource_type,
            ) + 1,
            forall|other: ResourceType|
                other != resource_type ==> final(self).watchers.spec_version(other) == old(self).watchers.spec_version(other),
    {
        self.watchers.bump(resource_type);
    }

    /// Replaces the cluster cell and fires its watcher wiring: the
    /// endpoint and cluster versions advance, the listener version does
    /// not.
    pub fn store_clusters(&mut self, clusters: ClusterMap)
        ensures
            final(self).config@.clusters == clusters@,
            final(self).config@.id == old(self).config@.id,
            final(self).config@.filters == old(self).config@.filters,
            old(self).watchers.spec_version(ResourceType::Endpoint) < u64::MAX ==> final(self).watchers.spec_version(ResourceType::Endpoint) > old(self).watchers.spec_version(
                ResourceType::Endpoint,
            ),
            old(self).watchers.spec_version(ResourceType::Cluster) < u64::MAX ==> final(self).watchers.spec_version(ResourceType::Cluster) > old(self).watchers.spec_version(
                ResourceType::Cluster,
            ),
            final(self).watchers.spec_version(ResourceType::Listener) == old(self).watchers.spec_version(ResourceType::Listener),
    {
        self.config.clusters = clusters;
        self.watchers.on_clusters_changed();
    }

    /// Replaces the filter cell and fires its watcher wiring: only the
    /// listener version advances.
    pub fn store_filters(&mut self, filters: FilterChain)
        ensures
            final(self).config@.filters == filters@,
            final(self).config@.id == old(self).config@.id,
            final(self).config@.clusters == old(self).config@.clusters,
            old(self).watchers.spec_version(ResourceType::Listener) < u64::MAX ==> final(self).watchers.spec_version(ResourceType::Listener) > old(self).watchers.spec_version(
                ResourceType::Listener,
            ),
            final(self).watchers.spec_version(ResourceType::Cluster) == old(self).watchers.spec_version(ResourceType::Cluster),
            final(self).watchers.spec_version(ResourceType::Endpoint) == old(self).watchers.spec_version(ResourceType::Endpoint),
    {
        self.config.filters = filters;
        self.watchers.on_filters_changed();
    }

    /// Builds one correctly stamped response: the encoder's payload for
    /// the type and names, the current version of that type's watcher,
    /// this control plane's identity, and a fresh UUID nonce.
    pub fn discovery_response(&self, resource_type: ResourceType, names: &Vec<String>) -> (r:
        DiscoveryResponse)
        ensures
            spec_response(
                self.config@,
                self.watchers.spec_version(resource_type),
                resource_type,
                names.deep_view(),
                r@,
            ),
    {
        let mut resp = self.config.discovery_request(resource_type, names);
        resp.version_info = u64_to_decimal(self.watchers.version(resource_type));
        resp.control_plane_id = self.config.id.clone();
        resp.nonce = fresh_nonce();
        resp
    }

    /// The delta variant of the discovery protocol is deliberately not
    /// offered; peers must fall back to state-of-the-world streams.
    pub fn delta_aggregated_resources(&self) -> (r: Result<(), StreamError>)
        ensures
            r == Err::<(), StreamError>(StreamError::DeltaUnsupported),
    {
        Err(StreamError::DeltaUnsupported)
    }
}

/// How one inbound request is treated once a stream is active.
pub ghost enum RequestClass {
    /// The type URL does not parse: skipped, the stream stays up.
    UnknownType,
    /// An error report from the client: answered with a resend.
    Nack,
    /// A message whose nonce is a UUID and that reports no error: an
    /// ACK or a stale nonce, either way answered with silence.
    AckLike,
    /// A follow-up subscription request: answered with a resend.
    Subsequent,
}

/// The classification the active stream applies to an inbound request.
pub open spec fn spec_classify(m: DiscoveryRequestView) -> RequestClass {
    if spec_parse_type_url(m.type_url) is None {
        RequestClass::UnknownType
    } else if m.error_detail is Some {
        RequestClass::Nack
    } else if uuid_parse_ok(m.response_nonce) {
        RequestClass::AckLike
    } else {
        RequestClass::Subsequent
    }
}

/// One event an active stream can wake on.
#[derive(Debug)]
pub enum StreamEvent {
    /// The watcher of the pinned resource type fired.
    ConfigUpdated,
    /// The client sent another request.
    Request(DiscoveryRequest),
    /// The inbound half ended cleanly.
    InboundClosed,
    /// The inbound half failed.
    InboundFailed,
}

/// What the stream does in reaction to one event.
#[derive(Debug)]
pub enum StepResult {
    /// Push this response to the client.
    Respond(DiscoveryResponse),
    /// Nothing leaves the stream.
    NoAction,
    /// The stream is over; release its resources.
    Terminated,
}

/// The per-stream engine: the subscription pinned by the first request,
/// plus the bounded, time-expiring cache of nonces still awaiting an
/// ACK.
#[derive(Debug)]
pub struct StreamEngine {
    pub node_id: String,
    pub resource_type: ResourceType,
    pub resource_names: Vec<String>,
    pub pending_acks: cached::TimedSizedCache<String, ()>,
}

impl StreamEngine {
    /// The nonces this stream still recognises.
    pub open spec fn pending(&self) -> Set<Seq<char>> {
        pending_keys(self.pending_acks)
    }

    /// Whether a nonce is still recognised. A `true` answer proves the
    /// nonce was recorded; a recorded nonce may answer `false` once its
    /// lifespan has passed.
    pub fn nonce_pending(&mut self, nonce: &str) -> (r: bool)
        ensures
            r ==> old(self).pending().contains(nonce@),
            final(self).pending().subset_of(old(self).pending()),
            final(self).node_id == old(self).node_id,
            final(self).resource_type == old(self).resource_type,
            final(self).resource_names == old(self).resource_names,
    {
        pending_acks_contains(&mut self.pending_acks, nonce)
    }
}

/// The opening of a stream: the engine pinned to the first request,
/// and the initial response already recorded in its pending set.
#[derive(Debug)]
pub struct StreamStart {
    pub engine: StreamEngine,
    pub response: DiscoveryResponse,
}

/// The handshake: reads the first inbound message (or its absence) and
/// either refuses the stream or pins the subscription and produces the
/// initial response.
pub fn stream_handshake(cp: &ControlPlane, first: Option<DiscoveryRequest>) -> (r: Result<
    StreamStart,
    StreamError,
>)
    ensures
        match first {
            None => r matches Err(e) && e == StreamError::NoMessage,
            Some(m) => match m@.node_id {
                None => r matches Err(e) && e == StreamError::NodeIdRequired,
                Some(node_id) => match spec_parse_type_url(m@.type_url) {
                    None => r matches Err(e) && e == StreamError::UnknownResourceType,
                    Some(rt) => r matches Ok(s) && {
                        &&& s.engine.node_id@ == node_id
                        &&& s.engine.resource_type == rt
                        &&& s.engine.resource_names.deep_view() == m@.resource_names
                        &&& spec_response(
                            cp.config@,
                            cp.watchers.spec_version(rt),
                            rt,
                            m@.resource_names,
                            s.response@,
                        )
                        &&& s.engine.pending().contains(s.response@.nonce)
                    },
                },
            },
        },
{
    let m = match first {
        None => {
            return Err(StreamError::NoMessage);
        },
        Some(m) => m,
    };
    let node_id = match m.node_id {
        None => {
            return Err(StreamError::NodeIdRequired);
        },
        Some(id) => id,
    };
    let resource_type = match ResourceType::parse(m.type_url.as_str()) {
        None => {
            return Err(StreamError::UnknownResourceType);
        },
        Some(rt) => rt,
    };
    let response = cp.discovery_response(resource_type, &m.resource_names);
    let mut pending_acks = pending_acks_new(PENDING_ACK_CAPACITY, PENDING_ACK_LIFESPAN_SECS);
    pending_acks_insert(&mut pending_acks, response.nonce.clone());
    let engine = StreamEngine {
        node_id,
        resource_type,
        resource_names: m.resource_names,
        pending_acks,
    };
    Ok(StreamStart { engine, response })
}

impl StreamEngine {
    /// One turn of the active stream: reacts to a watcher notification,
    /// an inbound request, or the end of the inbound half. A watcher
    /// notification and every resend re-encode from the current
    /// snapshot under the pinned name list; ACKs and stale nonces are
    /// absorbed; an unknown type URL is skipped without ending the
    /// stream.
    pub fn handle_event(&mut self, cp: &ControlPlane, event: StreamEvent) -> (r: StepResult)
        ensures
            final(self).node_id == old(self).node_id,
            final(self).resource_type == old(self).resource_type,
            final(self).resource_names == old(self).resource_names,
            event is ConfigUpdated ==> (r matches StepResult::Respond(resp) && spec_response(
                cp.config@,
                cp.watchers.spec_version(old(self).resource_type),
                old(self).resource_type,
                old(self).resource_names.deep_view(),
                resp@,
            )),
            event matches StreamEvent::Request(m) ==> match spec_classify(m@) {
                RequestClass::UnknownType => r is NoAction,
                RequestClass::AckLike => r is NoAction,
                RequestClass::Nack => (r matches StepResult::Respond(resp) && spec_response(
                    cp.config@,
                    cp.watchers.spec_version(spec_parse_type_url(m@.type_url).unwrap()),
                    spec_parse_type_url(m@.type_url).unwrap(),
                    old(self).resource_names.deep_view(),
                    resp@,
                )),
                RequestClass::Subsequent => (r matches StepResult::Respond(resp) && spec_response(
                    cp.config@,
                    cp.watchers.spec_version(spec_parse_type_url(m@.type_url).unwrap()),
                    spec_parse_type_url(m@.type_url).unwrap(),
                    old(self).resource_names.deep_view(),
                    resp@,
                )),
            },
            event is InboundClosed ==> r is Terminated,
            event is InboundFailed ==> r is Terminated,
            r matches StepResult::Respond(resp) ==> (final(self).pending().contains(resp@.nonce)
                && final(self).pending().subset_of(old(self).pending().insert(resp@.nonce))),
            !(r is Respond) ==> final(self).pending().subset_of(old(self).pending()),
    {
        match event {
            StreamEvent::ConfigUpdated => {
                let resp = cp.discovery_response(self.resource_type, &self.resource_names);
                pending_acks_insert(&mut self.pending_acks, resp.nonce.clone());
                StepResult::Respond(resp)
            },
            StreamEvent::Request(m) => {
                let parsed = ResourceType::parse(m.type_url.as_str());
                match parsed {
                    None => StepResult::NoAction,
                    Some(rt) => {
                        if m.error_detail.is_some() {
                            let resp = cp.discovery_response(rt, &self.resource_names);
                            pending_acks_insert(&mut self.pending_acks, resp.nonce.clone());
                            StepResult::Respond(resp)
                        } else if nonce_is_uuid(m.response_nonce.as_str()) {
                            let _known = pending_acks_contains(
                                &mut self.pending_acks,
                                m.response_nonce.as_str(),
                            );
                            StepResult::NoAction
                        } else {
                            let resp = cp.discovery_response(rt, &self.resource_names);
                            pending_acks_insert(&mut self.pending_acks, resp.nonce.clone());
                            StepResult::Respond(resp)
                        }
                    },
                }
            },
            StreamEvent::InboundClosed => StepResult::Terminated,
            StreamEvent::InboundFailed => StepResult::Terminated,
        }
    }
}

/// Whatever snapshots they were encoded from, two responses for one
/// resource type stamped at increasing watcher versions carry version
/// strings whose numeric interpretations strictly increase: on any one
/// stream the versions a client reads never go backwards, and a cluster
/// or filter mutation (which strictly advances the affected watchers)
/// makes every later response on a subscribed stream numerically newer.
pub proof fn lemma_newer_response_newer_version(
    cfg1: ConfigView,
    cfg2: ConfigView,
    v1: u64,
    v2: u64,
    rt: ResourceType,
    names: Seq<Seq<char>>,
    r1: DiscoveryResponseView,
    r2: DiscoveryResponseView,
)
    requires
        spec_response(cfg1, v1, rt, names, r1),
        spec_response(cfg2, v2, rt, names, r2),
    ensures
        v1 < v2 ==> dec_value(r1.version_info) < dec_value(r2.version_info),
        v1 <= v2 ==> dec_value(r1.version_info) <= dec_value(r2.version_info),
        v1 == v2 ==> r1.version_info == r2.version_info,
{
    lemma_dec_monotone(v1 as nat, v2 as nat);
}

} // verus!
