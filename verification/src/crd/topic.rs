//! StreamlineTopic: a topic within a Streamline cluster.

use crate::conditions::ConditionView;
use crate::objects::{KeyValue, KeyValueView, ResourceMeta, ResourceMetaView};
use vstd::prelude::*;

verus! {

/// A StreamlineTopic resource.
#[derive(Debug, PartialEq, Eq)]
pub struct StreamlineTopic {
    pub metadata: ResourceMeta,
    pub spec: TopicSpec,
    pub status: Option<TopicStatus>,
}

/// What a [`StreamlineTopic`] holds, over characters and sequences.
#[verifier::ext_equal]
pub struct StreamlineTopicView {
    pub metadata: ResourceMetaView,
    pub spec: TopicSpecView,
    pub status: Option<TopicStatusView>,
}

impl DeepView for StreamlineTopic {
    type V = StreamlineTopicView;

    open spec fn deep_view(&self) -> StreamlineTopicView {
        StreamlineTopicView {
            metadata: self.metadata.deep_view(),
            spec: self.spec.deep_view(),
            status: self.status.deep_view(),
        }
    }
}

impl Clone for StreamlineTopic {
    fn clone(&self) -> (copy: Self)
        ensures
            copy.deep_view() == self.deep_view(),
    {
        StreamlineTopic {
            metadata: self.metadata.clone(),
            spec: self.spec.clone(),
            status: self.status.clone(),
        }
    }
}

/// Specification of a StreamlineTopic.
#[derive(Debug, PartialEq, Eq)]
pub struct TopicSpec {
    /// Reference to the StreamlineCluster
    pub cluster_ref: String,
    /// Number of partitions for the topic
    pub partitions: i32,
    /// Replication factor for the topic.
    ///
    /// Defaults to 1: the Streamline topic API creates single-replica topics,
    /// and any other value is rejected rather than reported `Ready` for
    /// durability the cluster does not provide.
    pub replication_factor: i32,
    /// Topic configuration overrides.
    ///
    /// Not applied: the Streamline topic API accepts only a name and a
    /// partition count, so every override here is rejected instead of being
    /// silently discarded. Leave unset.
    pub config: TopicConfig,
    /// Retention configuration.
    ///
    /// Not applied: the Streamline topic API exposes no way to set retention
    /// on a topic, so any value other than the defaults is rejected. The
    /// defaults describe what the broker does: it retains every topic
    /// indefinitely.
    pub retention: RetentionConfig,
    /// Compression configuration.
    ///
    /// Not applied: compression is chosen by the producer, so any value other
    /// than the default (`producer`) is rejected.
    pub compression: CompressionConfig,
}

/// What a [`TopicSpec`] holds, over characters and sequences.
#[verifier::ext_equal]
pub struct TopicSpecView {
    pub cluster_ref: Seq<char>,
    pub partitions: i32,
    pub replication_factor: i32,
    pub config: TopicConfigView,
    pub retention: RetentionConfigView,
    pub compression: CompressionConfigView,
}

impl DeepView for TopicSpec {
    type V = TopicSpecView;

    open spec fn deep_view(&self) -> TopicSpecView {
        TopicSpecView {
            cluster_ref: self.cluster_ref@,
            partitions: self.partitions,
            replication_factor: self.replication_factor,
            config: self.config.deep_view(),
            retention: self.retention.deep_view(),
            compression: self.compression.deep_view(),
        }
    }
}

impl Clone for TopicSpec {
    fn clone(&self) -> (copy: Self)
        ensures
            copy.deep_view() == self.deep_view(),
    {
        TopicSpec {
            cluster_ref: self.cluster_ref.clone(),
            partitions: self.partitions,
            replication_factor: self.replication_factor,
            config: self.config.clone(),
            retention: self.retention.clone(),
            compression: self.compression.clone(),
        }
    }
}

/// The schema defaults for the topic settings the server cannot apply.
///
/// Whatever differs from these is rejected, so the comparison basis stands next
/// to the defaults themselves.
#[derive(Debug, PartialEq, Eq)]
pub struct TopicConfigDefaults {
    /// Default `spec.retention.retentionMs`.
    pub retention_ms: i64,
    /// Default `spec.retention.retentionBytes`.
    pub retention_bytes: i64,
    /// Default `spec.retention.cleanupPolicy`.
    pub cleanup_policy: String,
    /// Default `spec.compression.type`.
    pub compression_type: String,
}

/// What a [`TopicConfigDefaults`] holds, over characters and sequences.
#[verifier::ext_equal]
pub struct TopicConfigDefaultsView {
    pub retention_ms: i64,
    pub retention_bytes: i64,
    pub cleanup_policy: Seq<char>,
    pub compression_type: Seq<char>,
}

impl DeepView for TopicConfigDefaults {
    type V = TopicConfigDefaultsView;

    open spec fn deep_view(&self) -> TopicConfigDefaultsView {
        TopicConfigDefaultsView {
            retention_ms: self.retention_ms,
            retention_bytes: self.retention_bytes,
            cleanup_policy: self.cleanup_policy@,
            compression_type: self.compression_type@,
        }
    }
}

impl Clone for TopicConfigDefaults {
    fn clone(&self) -> (copy: Self)
        ensures
            copy.deep_view() == self.deep_view(),
    {
        TopicConfigDefaults {
            retention_ms: self.retention_ms,
            retention_bytes: self.retention_bytes,
            cleanup_policy: self.cleanup_policy.clone(),
            compression_type: self.compression_type.clone(),
        }
    }
}

/// Topic configuration overrides
#[derive(Debug, PartialEq, Eq)]
pub struct TopicConfig {
    /// Minimum in-sync replicas required for writes
    pub min_insync_replicas: Option<i32>,
    /// Maximum message size in bytes
    pub max_message_bytes: Option<i64>,
    /// Segment size in bytes
    pub segment_bytes: Option<i64>,
    /// Index interval in bytes
    pub index_interval_bytes: Option<i64>,
    /// Flush interval in milliseconds
    pub flush_interval_ms: Option<i64>,
    /// Flush after N messages
    pub flush_messages: Option<i64>,
    /// Additional custom configurations, in key order
    pub custom: Vec<KeyValue>,
}

/// What a [`TopicConfig`] holds, over characters and sequences.
#[verifier::ext_equal]
pub struct TopicConfigView {
    pub min_insync_replicas: Option<i32>,
    pub max_message_bytes: Option<i64>,
    pub segment_bytes: Option<i64>,
    pub index_interval_bytes: Option<i64>,
    pub flush_interval_ms: Option<i64>,
    pub flush_messages: Option<i64>,
    pub custom: Seq<KeyValueView>,
}

impl DeepView for TopicConfig {
    type V = TopicConfigView;

    open spec fn deep_view(&self) -> TopicConfigView {
        TopicConfigView {
            min_insync_replicas: self.min_insync_replicas,
            max_message_bytes: self.max_message_bytes,
            segment_bytes: self.segment_bytes,
            index_interval_bytes: self.index_interval_bytes,
            flush_interval_ms: self.flush_interval_ms,
            flush_messages: self.flush_messages,
            custom: self.custom.deep_view(),
        }
    }
}

impl Clone for TopicConfig {
    fn clone(&self) -> (copy: Self)
        ensures
            copy.deep_view() == self.deep_view(),
    {
        let copy = TopicConfig {
            min_insync_replicas: self.min_insync_replicas,
            max_message_bytes: self.max_message_bytes,
            segment_bytes: self.segment_bytes,
            index_interval_bytes: self.index_interval_bytes,
            flush_interval_ms: self.flush_interval_ms,
            flush_messages: self.flush_messages,
            custom: self.custom.clone(),
        };
        assert(copy.custom.deep_view() =~= self.custom.deep_view());
        copy
    }
}

/// Retention configuration
#[derive(Debug, PartialEq, Eq)]
pub struct RetentionConfig {
    /// Retention time in milliseconds; `-1` (the default) means unlimited.
    pub retention_ms: i64,
    /// Maximum size in bytes per partition; `-1` (the default) means
    /// unlimited, which is what the broker does.
    pub retention_bytes: i64,
    /// Delete or compact cleanup policy
    pub cleanup_policy: String,
}

/// What a [`RetentionConfig`] holds, over characters and sequences.
#[verifier::ext_equal]
pub struct RetentionConfigView {
    pub retention_ms: i64,
    pub retention_bytes: i64,
    pub cleanup_policy: Seq<char>,
}

impl DeepView for RetentionConfig {
    type V = RetentionConfigView;

    open spec fn deep_view(&self) -> RetentionConfigView {
        RetentionConfigView {
            retention_ms: self.retention_ms,
            retention_bytes: self.retention_bytes,
            cleanup_policy: self.cleanup_policy@,
        }
    }
}

impl Clone for RetentionConfig {
    fn clone(&self) -> (copy: Self)
        ensures
            copy.deep_view() == self.deep_view(),
    {
        RetentionConfig {
            retention_ms: self.retention_ms,
            retention_bytes: self.retention_bytes,
            cleanup_policy: self.cleanup_policy.clone(),
        }
    }
}

/// Compression configuration
#[derive(Debug, PartialEq, Eq)]
pub struct CompressionConfig {
    /// Compression type (none, gzip, snappy, lz4, zstd)
    pub type_: String,
}

/// What a [`CompressionConfig`] holds, over characters and sequences.
#[verifier::ext_equal]
pub struct CompressionConfigView {
    pub type_: Seq<char>,
}

impl DeepView for CompressionConfig {
    type V = CompressionConfigView;

    open spec fn deep_view(&self) -> CompressionConfigView {
        CompressionConfigView {
            type_: self.type_@,
        }
    }
}

impl Clone for CompressionConfig {
    fn clone(&self) -> (copy: Self)
        ensures
            copy.deep_view() == self.deep_view(),
    {
        CompressionConfig {
            type_: self.type_.clone(),
        }
    }
}

/// Status of the StreamlineTopic
#[derive(Debug, PartialEq, Eq)]
pub struct TopicStatus {
    /// Whether the topic is ready
    pub ready: bool,
    /// Current phase of the topic
    pub phase: TopicPhase,
    /// Actual number of partitions
    pub partitions: i32,
    /// Actual replication factor
    pub replication_factor: i32,
    /// Partition assignment information
    pub partition_assignments: Vec<PartitionAssignment>,
    /// Conditions representing topic state
    pub conditions: Vec<TopicCondition>,
    /// Last observed generation
    pub observed_generation: Option<i64>,
    /// Last update timestamp
    pub last_updated: Option<String>,
    /// Error message if creation failed
    pub error_message: Option<String>,
}

/// What a [`TopicStatus`] holds, over characters and sequences.
#[verifier::ext_equal]
pub struct TopicStatusView {
    pub ready: bool,
    pub phase: TopicPhase,
    pub partitions: i32,
    pub replication_factor: i32,
    pub partition_assignments: Seq<PartitionAssignmentView>,
    pub conditions: Seq<ConditionView>,
    pub observed_generation: Option<i64>,
    pub last_updated: Option<Seq<char>>,
    pub error_message: Option<Seq<char>>,
}

impl DeepView for TopicStatus {
    type V = TopicStatusView;

    open spec fn deep_view(&self) -> TopicStatusView {
        TopicStatusView {
            ready: self.ready,
            phase: self.phase,
            partitions: self.partitions,
            replication_factor: self.replication_factor,
            partition_assignments: self.partition_assignments.deep_view(),
            conditions: self.conditions.deep_view(),
            observed_generation: self.observed_generation,
            last_updated: self.last_updated.deep_view(),
            error_message: self.error_message.deep_view(),
        }
    }
}

impl Clone for TopicStatus {
    fn clone(&self) -> (copy: Self)
        ensures
            copy.deep_view() == self.deep_view(),
    {
        let copy = TopicStatus {
            ready: self.ready,
            phase: self.phase,
            partitions: self.partitions,
            replication_factor: self.replication_factor,
            partition_assignments: self.partition_assignments.clone(),
            conditions: self.conditions.clone(),
            observed_generation: self.observed_generation,
            last_updated: self.last_updated.clone(),
            error_message: self.error_message.clone(),
        };
        assert(copy.partition_assignments.deep_view() =~= self.partition_assignments.deep_view());
        assert(copy.conditions.deep_view() =~= self.conditions.deep_view());
        copy
    }
}

/// Phase of the topic lifecycle
#[derive(Clone, Copy, Debug, PartialEq, Eq, Structural)]
pub enum TopicPhase {
    /// Topic is being created
    Pending,
    /// Topic is ready
    Ready,
    /// Topic is being updated
    Updating,
    /// Topic creation/update failed
    Failed,
    /// Topic is being deleted
    Terminating,
}

impl DeepView for TopicPhase {
    type V = Self;

    open spec fn deep_view(&self) -> Self {
        *self
    }
}

/// Partition assignment information
#[derive(Debug, PartialEq, Eq)]
pub struct PartitionAssignment {
    /// Partition ID
    pub partition: i32,
    /// Leader broker ID
    pub leader: i32,
    /// Replica broker IDs
    pub replicas: Vec<i32>,
    /// In-sync replica broker IDs
    pub isr: Vec<i32>,
}

/// What a [`PartitionAssignment`] holds, over characters and sequences.
#[verifier::ext_equal]
pub struct PartitionAssignmentView {
    pub partition: i32,
    pub leader: i32,
    pub replicas: Seq<i32>,
    pub isr: Seq<i32>,
}

impl DeepView for PartitionAssignment {
    type V = PartitionAssignmentView;

    open spec fn deep_view(&self) -> PartitionAssignmentView {
        PartitionAssignmentView {
            partition: self.partition,
            leader: self.leader,
            replicas: self.replicas.deep_view(),
            isr: self.isr.deep_view(),
        }
    }
}

impl Clone for PartitionAssignment {
    fn clone(&self) -> (copy: Self)
        ensures
            copy.deep_view() == self.deep_view(),
    {
        let copy = PartitionAssignment {
            partition: self.partition,
            leader: self.leader,
            replicas: self.replicas.clone(),
            isr: self.isr.clone(),
        };
        assert(copy.replicas.deep_view() =~= self.replicas.deep_view());
        assert(copy.isr.deep_view() =~= self.isr.deep_view());
        copy
    }
}

/// Condition of the topic
#[derive(Debug, PartialEq, Eq)]
pub struct TopicCondition {
    /// Type of condition
    pub type_: String,
    /// Status of the condition (True, False, Unknown)
    pub status: String,
    /// Last time the condition transitioned
    pub last_transition_time: Option<String>,
    /// Reason for the condition
    pub reason: Option<String>,
    /// Human-readable message
    pub message: Option<String>,
}

impl DeepView for TopicCondition {
    type V = ConditionView;

    open spec fn deep_view(&self) -> ConditionView {
        ConditionView {
            condition_type: self.type_@,
            status: self.status@,
            last_transition_time: self.last_transition_time.deep_view(),
            reason: self.reason.deep_view(),
            message: self.message.deep_view(),
        }
    }
}

impl Clone for TopicCondition {
    fn clone(&self) -> (copy: Self)
        ensures
            copy.deep_view() == self.deep_view(),
    {
        TopicCondition {
            type_: self.type_.clone(),
            status: self.status.clone(),
            last_transition_time: self.last_transition_time.clone(),
            reason: self.reason.clone(),
            message: self.message.clone(),
        }
    }
}

/// The retention that a manifest without a retention block has: unlimited.
pub open spec fn default_retention() -> RetentionConfigView {
    RetentionConfigView {
        retention_ms: -1i64,
        retention_bytes: -1i64,
        cleanup_policy: "delete"@,
    }
}

/// The compression that a manifest without a compression block has.
pub open spec fn default_compression() -> CompressionConfigView {
    CompressionConfigView { type_: "producer"@ }
}

/// Whether the custom configurations are a string map: their keys rise strictly.
pub open spec fn well_formed(config: TopicConfigView) -> bool {
    crate::objects::in_key_order(config.custom)
}

/// The configuration that a manifest without a config block has: no override.
pub open spec fn no_overrides() -> TopicConfigView {
    TopicConfigView {
        min_insync_replicas: None,
        max_message_bytes: None,
        segment_bytes: None,
        index_interval_bytes: None,
        flush_interval_ms: None,
        flush_messages: None,
        custom: Seq::empty(),
    }
}

/// The specification that a manifest with nothing but a cluster reference has.
pub open spec fn minimal_topic(cluster_ref: Seq<char>) -> TopicSpecView {
    TopicSpecView {
        cluster_ref,
        partitions: 3,
        replication_factor: 1,
        config: no_overrides(),
        retention: default_retention(),
        compression: default_compression(),
    }
}

/// The defaults that [`TopicSpec::config_defaults`] reports.
pub open spec fn config_default_values() -> TopicConfigDefaultsView {
    TopicConfigDefaultsView {
        retention_ms: default_retention().retention_ms,
        retention_bytes: default_retention().retention_bytes,
        cleanup_policy: default_retention().cleanup_policy,
        compression_type: default_compression().type_,
    }
}

impl StreamlineTopic {
    /// A topic resource with a name, a specification and no status yet.
    pub fn new(name: &str, spec: TopicSpec) -> (topic: Self)
        ensures
            topic.deep_view() == (StreamlineTopicView {
                metadata: crate::objects::named_meta(name@),
                spec: spec.deep_view(),
                status: None,
            }),
    {
        StreamlineTopic { metadata: ResourceMeta::named(name), spec, status: None }
    }
}

impl TopicSpec {
    /// The specification of a manifest that only names its cluster.
    pub fn new(cluster_ref: &str) -> (spec: Self)
        ensures
            spec.deep_view() == minimal_topic(cluster_ref@),
    {
        TopicSpec {
            cluster_ref: cluster_ref.to_owned(),
            partitions: default_partitions(),
            replication_factor: default_replication_factor(),
            config: TopicConfig::default(),
            retention: RetentionConfig::default(),
            compression: CompressionConfig::default(),
        }
    }

    /// Schema defaults for the settings the Streamline server does not apply.
    pub fn config_defaults() -> (defaults: TopicConfigDefaults)
        ensures
            defaults.deep_view() == config_default_values(),
    {
        let retention = RetentionConfig::default();
        TopicConfigDefaults {
            retention_ms: retention.retention_ms,
            retention_bytes: retention.retention_bytes,
            cleanup_policy: retention.cleanup_policy,
            compression_type: CompressionConfig::default().type_,
        }
    }
}

impl Default for TopicConfig {
    fn default() -> (config: Self)
        ensures
            config.deep_view() == no_overrides(),
            well_formed(config.deep_view()),
    {
        let config = TopicConfig {
            min_insync_replicas: None,
            max_message_bytes: None,
            segment_bytes: None,
            index_interval_bytes: None,
            flush_interval_ms: None,
            flush_messages: None,
            custom: Vec::new(),
        };
        assert(config.custom.deep_view() =~= Seq::empty());
        config
    }
}

impl Default for RetentionConfig {
    fn default() -> (retention: Self)
        ensures
            retention.deep_view() == default_retention(),
    {
        RetentionConfig {
            retention_ms: default_retention_ms(),
            retention_bytes: default_retention_bytes(),
            cleanup_policy: default_cleanup_policy(),
        }
    }
}

impl Default for CompressionConfig {
    fn default() -> (compression: Self)
        ensures
            compression.deep_view() == default_compression(),
    {
        CompressionConfig { type_: default_compression_type() }
    }
}

impl Default for TopicPhase {
    fn default() -> (phase: Self)
        ensures
            phase == TopicPhase::Pending,
    {
        TopicPhase::Pending
    }
}

impl Default for TopicStatus {
    fn default() -> (status: Self)
        ensures
            status.deep_view() == (TopicStatusView {
                ready: false,
                phase: TopicPhase::Pending,
                partitions: 0,
                replication_factor: 0,
                partition_assignments: Seq::empty(),
                conditions: Seq::empty(),
                observed_generation: None,
                last_updated: None,
                error_message: None,
            }),
    {
        let status = TopicStatus {
            ready: false,
            phase: TopicPhase::default(),
            partitions: 0,
            replication_factor: 0,
            partition_assignments: Vec::new(),
            conditions: Vec::new(),
            observed_generation: None,
            last_updated: None,
            error_message: None,
        };
        assert(status.partition_assignments.deep_view() =~= Seq::empty());
        assert(status.conditions.deep_view() =~= Seq::empty());
        status
    }
}

/// Partition count of a topic that does not set one.
pub fn default_partitions() -> (partitions: i32)
    ensures
        partitions == 3,
{
    3
}

/// Replication factor of a topic that does not set one.
pub fn default_replication_factor() -> (factor: i32)
    ensures
        factor == 1,
{
    1
}

/// Unlimited retention, matching the broker's actual behaviour.
pub fn default_retention_ms() -> (ms: i64)
    ensures
        ms == -1,
{
    -1
}

/// Unlimited size.
pub fn default_retention_bytes() -> (bytes: i64)
    ensures
        bytes == -1,
{
    -1
}

/// Cleanup policy of a topic that does not set one.
pub fn default_cleanup_policy() -> (policy: String)
    ensures
        policy@ == "delete"@,
{
    "delete".to_owned()
}

/// Compression type of a topic that does not set one.
pub fn default_compression_type() -> (compression: String)
    ensures
        compression@ == "producer"@,
{
    "producer".to_owned()
}

} // verus!
