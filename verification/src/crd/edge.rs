//! StreamlineEdge: a fleet of edge nodes that sync with a cluster.

use crate::conditions::ConditionView;
use crate::objects::{ResourceMeta, ResourceMetaView};
use vstd::prelude::*;

verus! {

/// A StreamlineEdge resource.
#[derive(Debug, PartialEq, Eq)]
pub struct StreamlineEdge {
    pub metadata: ResourceMeta,
    pub spec: EdgeSpec,
    pub status: Option<EdgeStatus>,
}

/// What a [`StreamlineEdge`] holds, over characters and sequences.
#[verifier::ext_equal]
pub struct StreamlineEdgeView {
    pub metadata: ResourceMetaView,
    pub spec: EdgeSpecView,
    pub status: Option<EdgeStatusView>,
}

impl DeepView for StreamlineEdge {
    type V = StreamlineEdgeView;

    open spec fn deep_view(&self) -> StreamlineEdgeView {
        StreamlineEdgeView {
            metadata: self.metadata.deep_view(),
            spec: self.spec.deep_view(),
            status: self.status.deep_view(),
        }
    }
}

impl Clone for StreamlineEdge {
    fn clone(&self) -> (copy: Self)
        ensures
            copy.deep_view() == self.deep_view(),
    {
        StreamlineEdge {
            metadata: self.metadata.clone(),
            spec: self.spec.clone(),
            status: self.status.clone(),
        }
    }
}

/// StreamlineEdge is the Schema for the streamlineedges API.
#[derive(Debug, PartialEq, Eq)]
pub struct EdgeSpec {
    /// Reference to the parent StreamlineCluster (by metadata.name).
    pub cluster_ref: String,
    /// Topics to sync with edge nodes.
    pub sync_topics: Vec<String>,
    /// CRDT type for synced topics (lww, gset, or-set).
    pub default_crdt_type: Option<String>,
    /// Maximum number of edge nodes allowed.
    pub max_nodes: u32,
    /// Bootstrap token configuration.
    pub bootstrap: Option<BootstrapConfig>,
    /// Sync configuration.
    pub sync: Option<SyncConfig>,
}

/// What a [`EdgeSpec`] holds, over characters and sequences.
#[verifier::ext_equal]
pub struct EdgeSpecView {
    pub cluster_ref: Seq<char>,
    pub sync_topics: Seq<Seq<char>>,
    pub default_crdt_type: Option<Seq<char>>,
    pub max_nodes: u32,
    pub bootstrap: Option<BootstrapConfigView>,
    pub sync: Option<SyncConfig>,
}

impl DeepView for EdgeSpec {
    type V = EdgeSpecView;

    open spec fn deep_view(&self) -> EdgeSpecView {
        EdgeSpecView {
            cluster_ref: self.cluster_ref@,
            sync_topics: self.sync_topics.deep_view(),
            default_crdt_type: self.default_crdt_type.deep_view(),
            max_nodes: self.max_nodes,
            bootstrap: self.bootstrap.deep_view(),
            sync: self.sync,
        }
    }
}

impl Clone for EdgeSpec {
    fn clone(&self) -> (copy: Self)
        ensures
            copy.deep_view() == self.deep_view(),
    {
        let copy = EdgeSpec {
            cluster_ref: self.cluster_ref.clone(),
            sync_topics: self.sync_topics.clone(),
            default_crdt_type: self.default_crdt_type.clone(),
            max_nodes: self.max_nodes,
            bootstrap: self.bootstrap.clone(),
            sync: self.sync,
        };
        assert(copy.sync_topics.deep_view() =~= self.sync_topics.deep_view());
        copy
    }
}

/// Bootstrap token configuration for edge nodes.
#[derive(Debug, PartialEq, Eq)]
pub struct BootstrapConfig {
    /// Secret name containing the bootstrap token.
    pub token_secret_ref: String,
    /// Token TTL in seconds (0 = no expiry).
    pub ttl_seconds: u64,
    /// Whether tokens are single-use.
    pub single_use: bool,
}

/// What a [`BootstrapConfig`] holds, over characters and sequences.
#[verifier::ext_equal]
pub struct BootstrapConfigView {
    pub token_secret_ref: Seq<char>,
    pub ttl_seconds: u64,
    pub single_use: bool,
}

impl DeepView for BootstrapConfig {
    type V = BootstrapConfigView;

    open spec fn deep_view(&self) -> BootstrapConfigView {
        BootstrapConfigView {
            token_secret_ref: self.token_secret_ref@,
            ttl_seconds: self.ttl_seconds,
            single_use: self.single_use,
        }
    }
}

impl Clone for BootstrapConfig {
    fn clone(&self) -> (copy: Self)
        ensures
            copy.deep_view() == self.deep_view(),
    {
        BootstrapConfig {
            token_secret_ref: self.token_secret_ref.clone(),
            ttl_seconds: self.ttl_seconds,
            single_use: self.single_use,
        }
    }
}

/// Sync protocol configuration.
#[derive(Clone, Copy, Debug, PartialEq, Eq, Structural)]
pub struct SyncConfig {
    /// Sync batch interval in milliseconds.
    pub batch_interval_ms: u64,
    /// Maximum batch size in bytes.
    pub max_batch_bytes: u64,
    /// Enable bandwidth-aware adaptive sync.
    pub adaptive_sync: bool,
}

impl DeepView for SyncConfig {
    type V = Self;

    open spec fn deep_view(&self) -> Self {
        *self
    }
}

/// EdgeStatus defines the observed state of StreamlineEdge.
#[derive(Debug, PartialEq, Eq)]
pub struct EdgeStatus {
    /// Current phase: Provisioning, Active, Degraded, Terminated.
    pub phase: String,
    /// Number of currently connected edge nodes.
    pub connected_nodes: u32,
    /// Total number of registered edge nodes (including offline).
    pub registered_nodes: u32,
    /// Last time any node synced successfully.
    pub last_sync_at: Option<String>,
    /// Status conditions (standard Kubernetes pattern).
    pub conditions: Vec<EdgeCondition>,
}

/// What a [`EdgeStatus`] holds, over characters and sequences.
#[verifier::ext_equal]
pub struct EdgeStatusView {
    pub phase: Seq<char>,
    pub connected_nodes: u32,
    pub registered_nodes: u32,
    pub last_sync_at: Option<Seq<char>>,
    pub conditions: Seq<ConditionView>,
}

impl DeepView for EdgeStatus {
    type V = EdgeStatusView;

    open spec fn deep_view(&self) -> EdgeStatusView {
        EdgeStatusView {
            phase: self.phase@,
            connected_nodes: self.connected_nodes,
            registered_nodes: self.registered_nodes,
            last_sync_at: self.last_sync_at.deep_view(),
            conditions: self.conditions.deep_view(),
        }
    }
}

impl Clone for EdgeStatus {
    fn clone(&self) -> (copy: Self)
        ensures
            copy.deep_view() == self.deep_view(),
    {
        let copy = EdgeStatus {
            phase: self.phase.clone(),
            connected_nodes: self.connected_nodes,
            registered_nodes: self.registered_nodes,
            last_sync_at: self.last_sync_at.clone(),
            conditions: self.conditions.clone(),
        };
        assert(copy.conditions.deep_view() =~= self.conditions.deep_view());
        copy
    }
}

/// Individual status condition for edge fleet.
#[derive(Debug, PartialEq, Eq)]
pub struct EdgeCondition {
    /// Condition type: Ready, SyncHealthy, TokenValid.
    pub type_: String,
    /// True, False, or Unknown.
    pub status: String,
    /// Human-readable reason.
    pub reason: Option<String>,
    /// Human-readable message.
    pub message: Option<String>,
    /// Last transition time (RFC 3339).
    pub last_transition_time: Option<String>,
}

impl DeepView for EdgeCondition {
    type V = ConditionView;

    open spec fn deep_view(&self) -> ConditionView {
        ConditionView {
            condition_type: self.type_@,
            status: self.status@,
            last_transition_time: self.last_transition_time.deep_view(),
            reason: self.reason.deep_view(),
            message: self.message.deep_view(),
        }
    }
}

impl Clone for EdgeCondition {
    fn clone(&self) -> (copy: Self)
        ensures
            copy.deep_view() == self.deep_view(),
    {
        EdgeCondition {
            type_: self.type_.clone(),
            status: self.status.clone(),
            last_transition_time: self.last_transition_time.clone(),
            reason: self.reason.clone(),
            message: self.message.clone(),
        }
    }
}

/// The edge specification that names only its cluster.
pub open spec fn minimal_edge(cluster_ref: Seq<char>) -> EdgeSpecView {
    EdgeSpecView {
        cluster_ref,
        sync_topics: Seq::empty(),
        default_crdt_type: None,
        max_nodes: 100,
        bootstrap: None,
        sync: None,
    }
}

/// The status of a fleet that nothing is known of.
pub open spec fn unknown_edge() -> EdgeStatusView {
    EdgeStatusView {
        phase: Seq::empty(),
        connected_nodes: 0,
        registered_nodes: 0,
        last_sync_at: None,
        conditions: Seq::empty(),
    }
}

/// How many edge nodes are allowed unless the number is set.
pub fn default_max_nodes() -> (count: u32)
    ensures
        count == 100,
{
    100
}

/// Milliseconds between two sync batches unless the number is set.
pub fn default_batch_interval() -> (ms: u64)
    ensures
        ms == 1000,
{
    1000
}

/// The most bytes in a sync batch unless the number is set.
pub fn default_max_batch_bytes() -> (bytes: u64)
    ensures
        bytes == 1_048_576,
{
    1_048_576
}

impl EdgeSpec {
    /// The specification of a manifest that names only its cluster.
    pub fn new(cluster_ref: &str) -> (spec: Self)
        ensures
            spec.deep_view() == minimal_edge(cluster_ref@),
    {
        let spec = EdgeSpec {
            cluster_ref: cluster_ref.to_owned(),
            sync_topics: Vec::new(),
            default_crdt_type: None,
            max_nodes: default_max_nodes(),
            bootstrap: None,
            sync: None,
        };
        assert(spec.sync_topics.deep_view() =~= Seq::empty());
        spec
    }
}

impl SyncConfig {
    /// The sync configuration of a manifest that sets none of its fields.
    pub fn schema_default() -> (config: Self)
        ensures
            config == (SyncConfig {
                batch_interval_ms: 1000,
                max_batch_bytes: 1_048_576,
                adaptive_sync: false,
            }),
    {
        SyncConfig {
            batch_interval_ms: default_batch_interval(),
            max_batch_bytes: default_max_batch_bytes(),
            adaptive_sync: false,
        }
    }
}

impl Default for EdgeStatus {
    fn default() -> (status: Self)
        ensures
            status.deep_view() == unknown_edge(),
    {
        let status = EdgeStatus {
            phase: String::new(),
            connected_nodes: 0,
            registered_nodes: 0,
            last_sync_at: None,
            conditions: Vec::new(),
        };
        assert(status.phase@ =~= Seq::<char>::empty());
        assert(status.conditions.deep_view() =~= Seq::empty());
        status
    }
}

} // verus!
