//! StreamlineCluster: a Streamline cluster on Kubernetes.

use crate::conditions::ConditionView;
use crate::objects::{KeyValue, KeyValueView, ResourceMeta, ResourceMetaView};
use crate::text;
use crate::upgrade;
use vstd::prelude::*;
use vstd::string::*;

verus! {

/// A StreamlineCluster resource.
#[derive(Debug, PartialEq, Eq)]
pub struct StreamlineCluster {
    pub metadata: ResourceMeta,
    pub spec: ClusterSpec,
    pub status: Option<ClusterStatus>,
}

/// What a [`StreamlineCluster`] holds, over characters and sequences.
#[verifier::ext_equal]
pub struct StreamlineClusterView {
    pub metadata: ResourceMetaView,
    pub spec: ClusterSpecView,
    pub status: Option<ClusterStatusView>,
}

impl DeepView for StreamlineCluster {
    type V = StreamlineClusterView;

    open spec fn deep_view(&self) -> StreamlineClusterView {
        StreamlineClusterView {
            metadata: self.metadata.deep_view(),
            spec: self.spec.deep_view(),
            status: self.status.deep_view(),
        }
    }
}

impl Clone for StreamlineCluster {
    fn clone(&self) -> (copy: Self)
        ensures
            copy.deep_view() == self.deep_view(),
    {
        StreamlineCluster {
            metadata: self.metadata.clone(),
            spec: self.spec.clone(),
            status: self.status.clone(),
        }
    }
}

/// Specification of a StreamlineCluster.
#[derive(Debug, PartialEq, Eq)]
pub struct ClusterSpec {
    /// Number of Streamline broker replicas.
    ///
    /// Defaults to 1: each replica is rendered as a standalone broker and no
    /// raft peers are bootstrapped, so a larger value would produce independent
    /// brokers rather than a quorum.
    pub replicas: i32,
    /// Container image to use for the Streamline broker.
    ///
    /// This is the Streamline *server* image, not the operator image.
    pub image: String,
    /// Image pull policy
    pub image_pull_policy: String,
    /// Resource requirements for each broker
    pub resources: ResourceRequirements,
    /// Storage configuration
    pub storage: ClusterStorage,
    /// TLS configuration
    pub tls: Option<ClusterTls>,
    /// Kafka protocol port
    pub kafka_port: i32,
    /// HTTP/metrics port
    pub http_port: i32,
    /// Raft port for cluster communication
    pub raft_port: i32,
    /// Additional environment variables
    pub env: Vec<EnvVar>,
    /// Node selector for pod placement, in key order.
    ///
    /// Applied: rendered onto the pod template as `spec.nodeSelector`.
    pub node_selector: Vec<KeyValue>,
    /// Tolerations for pod scheduling.
    ///
    /// Not applied: a non-empty list is rejected rather than silently dropped.
    pub tolerations: Vec<Toleration>,
    /// Spread brokers across nodes with pod anti-affinity.
    ///
    /// Not applied: `true` is rejected rather than silently dropped.
    pub pod_anti_affinity: bool,
    /// Rack awareness configuration.
    ///
    /// Not applied: `enabled: true` is rejected rather than silently dropped.
    pub rack_awareness: Option<RackAwareness>,
    /// Service account name
    pub service_account_name: Option<String>,
    /// Log level for Streamline
    pub log_level: String,
    /// Enable metrics endpoint
    pub metrics_enabled: bool,
    /// Rolling update strategy
    pub update_strategy: UpdateStrategy,
    /// Auto-scaling configuration.
    ///
    /// Enabling autoscaling is rejected until a real multi-broker cluster can
    /// be bootstrapped.
    pub autoscaling: Option<AutoScalingSpec>,
}

/// What a [`ClusterSpec`] holds, over characters and sequences.
#[verifier::ext_equal]
pub struct ClusterSpecView {
    pub replicas: i32,
    pub image: Seq<char>,
    pub image_pull_policy: Seq<char>,
    pub resources: ResourceRequirementsView,
    pub storage: ClusterStorageView,
    pub tls: Option<ClusterTlsView>,
    pub kafka_port: i32,
    pub http_port: i32,
    pub raft_port: i32,
    pub env: Seq<EnvVarView>,
    pub node_selector: Seq<KeyValueView>,
    pub tolerations: Seq<TolerationView>,
    pub pod_anti_affinity: bool,
    pub rack_awareness: Option<RackAwarenessView>,
    pub service_account_name: Option<Seq<char>>,
    pub log_level: Seq<char>,
    pub metrics_enabled: bool,
    pub update_strategy: UpdateStrategyView,
    pub autoscaling: Option<AutoScalingSpecView>,
}

impl DeepView for ClusterSpec {
    type V = ClusterSpecView;

    open spec fn deep_view(&self) -> ClusterSpecView {
        ClusterSpecView {
            replicas: self.replicas,
            image: self.image@,
            image_pull_policy: self.image_pull_policy@,
            resources: self.resources.deep_view(),
            storage: self.storage.deep_view(),
            tls: self.tls.deep_view(),
            kafka_port: self.kafka_port,
            http_port: self.http_port,
            raft_port: self.raft_port,
            env: self.env.deep_view(),
            node_selector: self.node_selector.deep_view(),
            tolerations: self.tolerations.deep_view(),
            pod_anti_affinity: self.pod_anti_affinity,
            rack_awareness: self.rack_awareness.deep_view(),
            service_account_name: self.service_account_name.deep_view(),
            log_level: self.log_level@,
            metrics_enabled: self.metrics_enabled,
            update_strategy: self.update_strategy.deep_view(),
            autoscaling: self.autoscaling.deep_view(),
        }
    }
}

impl Clone for ClusterSpec {
    fn clone(&self) -> (copy: Self)
        ensures
            copy.deep_view() == self.deep_view(),
    {
        let copy = ClusterSpec {
            replicas: self.replicas,
            image: self.image.clone(),
            image_pull_policy: self.image_pull_policy.clone(),
            resources: self.resources.clone(),
            storage: self.storage.clone(),
            tls: self.tls.clone(),
            kafka_port: self.kafka_port,
            http_port: self.http_port,
            raft_port: self.raft_port,
            env: self.env.clone(),
            node_selector: self.node_selector.clone(),
            tolerations: self.tolerations.clone(),
            pod_anti_affinity: self.pod_anti_affinity,
            rack_awareness: self.rack_awareness.clone(),
            service_account_name: self.service_account_name.clone(),
            log_level: self.log_level.clone(),
            metrics_enabled: self.metrics_enabled,
            update_strategy: self.update_strategy.clone(),
            autoscaling: self.autoscaling.clone(),
        };
        assert(copy.env.deep_view() =~= self.env.deep_view());
        assert(copy.node_selector.deep_view() =~= self.node_selector.deep_view());
        assert(copy.tolerations.deep_view() =~= self.tolerations.deep_view());
        copy
    }
}

/// Auto-scaling specification for the cluster
#[derive(Debug, PartialEq, Eq)]
pub struct AutoScalingSpec {
    /// Enable auto-scaling
    pub enabled: bool,
    /// Minimum number of replicas
    pub min_replicas: i32,
    /// Maximum number of replicas
    pub max_replicas: i32,
    /// Target CPU utilization percentage
    pub target_cpu_utilization: i32,
    /// Target memory utilization percentage
    pub target_memory_utilization: i32,
    /// Enable partition-aware scaling
    pub partition_aware: bool,
    /// Target consumer lag per partition
    pub target_lag_per_partition: i64,
    /// Target messages per second per broker
    pub target_messages_per_second: i64,
    /// Scaling behavior configuration
    pub behavior: Option<ScalingBehaviorSpec>,
}

/// What a [`AutoScalingSpec`] holds, over characters and sequences.
#[verifier::ext_equal]
pub struct AutoScalingSpecView {
    pub enabled: bool,
    pub min_replicas: i32,
    pub max_replicas: i32,
    pub target_cpu_utilization: i32,
    pub target_memory_utilization: i32,
    pub partition_aware: bool,
    pub target_lag_per_partition: i64,
    pub target_messages_per_second: i64,
    pub behavior: Option<ScalingBehaviorSpecView>,
}

impl DeepView for AutoScalingSpec {
    type V = AutoScalingSpecView;

    open spec fn deep_view(&self) -> AutoScalingSpecView {
        AutoScalingSpecView {
            enabled: self.enabled,
            min_replicas: self.min_replicas,
            max_replicas: self.max_replicas,
            target_cpu_utilization: self.target_cpu_utilization,
            target_memory_utilization: self.target_memory_utilization,
            partition_aware: self.partition_aware,
            target_lag_per_partition: self.target_lag_per_partition,
            target_messages_per_second: self.target_messages_per_second,
            behavior: self.behavior.deep_view(),
        }
    }
}

impl Clone for AutoScalingSpec {
    fn clone(&self) -> (copy: Self)
        ensures
            copy.deep_view() == self.deep_view(),
    {
        AutoScalingSpec {
            enabled: self.enabled,
            min_replicas: self.min_replicas,
            max_replicas: self.max_replicas,
            target_cpu_utilization: self.target_cpu_utilization,
            target_memory_utilization: self.target_memory_utilization,
            partition_aware: self.partition_aware,
            target_lag_per_partition: self.target_lag_per_partition,
            target_messages_per_second: self.target_messages_per_second,
            behavior: self.behavior.clone(),
        }
    }
}

/// Scaling behavior for up/down operations
#[derive(Debug, PartialEq, Eq)]
pub struct ScalingBehaviorSpec {
    /// Scale-up behavior
    pub scale_up: Option<ScalingRulesSpec>,
    /// Scale-down behavior
    pub scale_down: Option<ScalingRulesSpec>,
}

/// What a [`ScalingBehaviorSpec`] holds, over characters and sequences.
#[verifier::ext_equal]
pub struct ScalingBehaviorSpecView {
    pub scale_up: Option<ScalingRulesSpecView>,
    pub scale_down: Option<ScalingRulesSpecView>,
}

impl DeepView for ScalingBehaviorSpec {
    type V = ScalingBehaviorSpecView;

    open spec fn deep_view(&self) -> ScalingBehaviorSpecView {
        ScalingBehaviorSpecView {
            scale_up: self.scale_up.deep_view(),
            scale_down: self.scale_down.deep_view(),
        }
    }
}

impl Clone for ScalingBehaviorSpec {
    fn clone(&self) -> (copy: Self)
        ensures
            copy.deep_view() == self.deep_view(),
    {
        ScalingBehaviorSpec {
            scale_up: self.scale_up.clone(),
            scale_down: self.scale_down.clone(),
        }
    }
}

/// Scaling rules for up/down operations
#[derive(Debug, PartialEq, Eq)]
pub struct ScalingRulesSpec {
    /// Stabilization window in seconds
    pub stabilization_window_seconds: Option<i32>,
    /// Select policy (Max, Min, Disabled)
    pub select_policy: Option<String>,
    /// Scaling policies
    pub policies: Vec<ScalingPolicySpec>,
}

/// What a [`ScalingRulesSpec`] holds, over characters and sequences.
#[verifier::ext_equal]
pub struct ScalingRulesSpecView {
    pub stabilization_window_seconds: Option<i32>,
    pub select_policy: Option<Seq<char>>,
    pub policies: Seq<ScalingPolicySpecView>,
}

impl DeepView for ScalingRulesSpec {
    type V = ScalingRulesSpecView;

    open spec fn deep_view(&self) -> ScalingRulesSpecView {
        ScalingRulesSpecView {
            stabilization_window_seconds: self.stabilization_window_seconds,
            select_policy: self.select_policy.deep_view(),
            policies: self.policies.deep_view(),
        }
    }
}

impl Clone for ScalingRulesSpec {
    fn clone(&self) -> (copy: Self)
        ensures
            copy.deep_view() == self.deep_view(),
    {
        let copy = ScalingRulesSpec {
            stabilization_window_seconds: self.stabilization_window_seconds,
            select_policy: self.select_policy.clone(),
            policies: self.policies.clone(),
        };
        assert(copy.policies.deep_view() =~= self.policies.deep_view());
        copy
    }
}

/// Individual scaling policy
#[derive(Debug, PartialEq, Eq)]
pub struct ScalingPolicySpec {
    /// Policy type (Pods, Percent)
    pub type_: String,
    /// Value for the policy
    pub value: i32,
    /// Period in seconds
    pub period_seconds: i32,
}

/// What a [`ScalingPolicySpec`] holds, over characters and sequences.
#[verifier::ext_equal]
pub struct ScalingPolicySpecView {
    pub type_: Seq<char>,
    pub value: i32,
    pub period_seconds: i32,
}

impl DeepView for ScalingPolicySpec {
    type V = ScalingPolicySpecView;

    open spec fn deep_view(&self) -> ScalingPolicySpecView {
        ScalingPolicySpecView {
            type_: self.type_@,
            value: self.value,
            period_seconds: self.period_seconds,
        }
    }
}

impl Clone for ScalingPolicySpec {
    fn clone(&self) -> (copy: Self)
        ensures
            copy.deep_view() == self.deep_view(),
    {
        ScalingPolicySpec {
            type_: self.type_.clone(),
            value: self.value,
            period_seconds: self.period_seconds,
        }
    }
}

/// Resource requirements for containers
#[derive(Debug, PartialEq, Eq)]
pub struct ResourceRequirements {
    /// Resource limits
    pub limits: ResourceList,
    /// Resource requests
    pub requests: ResourceList,
}

/// What a [`ResourceRequirements`] holds, over characters and sequences.
#[verifier::ext_equal]
pub struct ResourceRequirementsView {
    pub limits: ResourceListView,
    pub requests: ResourceListView,
}

impl DeepView for ResourceRequirements {
    type V = ResourceRequirementsView;

    open spec fn deep_view(&self) -> ResourceRequirementsView {
        ResourceRequirementsView {
            limits: self.limits.deep_view(),
            requests: self.requests.deep_view(),
        }
    }
}

impl Clone for ResourceRequirements {
    fn clone(&self) -> (copy: Self)
        ensures
            copy.deep_view() == self.deep_view(),
    {
        ResourceRequirements {
            limits: self.limits.clone(),
            requests: self.requests.clone(),
        }
    }
}

/// Resource quantities
#[derive(Debug, PartialEq, Eq)]
pub struct ResourceList {
    /// CPU limit/request (e.g., "500m", "2")
    pub cpu: Option<String>,
    /// Memory limit/request (e.g., "512Mi", "2Gi")
    pub memory: Option<String>,
}

/// What a [`ResourceList`] holds, over characters and sequences.
#[verifier::ext_equal]
pub struct ResourceListView {
    pub cpu: Option<Seq<char>>,
    pub memory: Option<Seq<char>>,
}

impl DeepView for ResourceList {
    type V = ResourceListView;

    open spec fn deep_view(&self) -> ResourceListView {
        ResourceListView {
            cpu: self.cpu.deep_view(),
            memory: self.memory.deep_view(),
        }
    }
}

impl Clone for ResourceList {
    fn clone(&self) -> (copy: Self)
        ensures
            copy.deep_view() == self.deep_view(),
    {
        ResourceList {
            cpu: self.cpu.clone(),
            memory: self.memory.clone(),
        }
    }
}

/// Storage configuration for the cluster
#[derive(Debug, PartialEq, Eq)]
pub struct ClusterStorage {
    /// Storage class name for PVCs
    pub storage_class_name: Option<String>,
    /// Size of the persistent volume (e.g., "10Gi")
    pub size: String,
    /// Access modes for the PVC
    pub access_modes: Vec<String>,
}

/// What a [`ClusterStorage`] holds, over characters and sequences.
#[verifier::ext_equal]
pub struct ClusterStorageView {
    pub storage_class_name: Option<Seq<char>>,
    pub size: Seq<char>,
    pub access_modes: Seq<Seq<char>>,
}

impl DeepView for ClusterStorage {
    type V = ClusterStorageView;

    open spec fn deep_view(&self) -> ClusterStorageView {
        ClusterStorageView {
            storage_class_name: self.storage_class_name.deep_view(),
            size: self.size@,
            access_modes: self.access_modes.deep_view(),
        }
    }
}

impl Clone for ClusterStorage {
    fn clone(&self) -> (copy: Self)
        ensures
            copy.deep_view() == self.deep_view(),
    {
        let copy = ClusterStorage {
            storage_class_name: self.storage_class_name.clone(),
            size: self.size.clone(),
            access_modes: self.access_modes.clone(),
        };
        assert(copy.access_modes.deep_view() =~= self.access_modes.deep_view());
        copy
    }
}

/// TLS configuration
#[derive(Debug, PartialEq, Eq)]
pub struct ClusterTls {
    /// Enable TLS
    pub enabled: bool,
    /// Secret containing TLS certificates
    pub secret_name: String,
    /// Enable mTLS (mutual TLS)
    pub mtls_enabled: bool,
    /// Secret containing CA certificate for mTLS
    pub ca_secret_name: Option<String>,
    /// Skip TLS certificate verification (development only, NOT recommended for production)
    pub insecure_skip_verify: bool,
}

/// What a [`ClusterTls`] holds, over characters and sequences.
#[verifier::ext_equal]
pub struct ClusterTlsView {
    pub enabled: bool,
    pub secret_name: Seq<char>,
    pub mtls_enabled: bool,
    pub ca_secret_name: Option<Seq<char>>,
    pub insecure_skip_verify: bool,
}

impl DeepView for ClusterTls {
    type V = ClusterTlsView;

    open spec fn deep_view(&self) -> ClusterTlsView {
        ClusterTlsView {
            enabled: self.enabled,
            secret_name: self.secret_name@,
            mtls_enabled: self.mtls_enabled,
            ca_secret_name: self.ca_secret_name.deep_view(),
            insecure_skip_verify: self.insecure_skip_verify,
        }
    }
}

impl Clone for ClusterTls {
    fn clone(&self) -> (copy: Self)
        ensures
            copy.deep_view() == self.deep_view(),
    {
        ClusterTls {
            enabled: self.enabled,
            secret_name: self.secret_name.clone(),
            mtls_enabled: self.mtls_enabled,
            ca_secret_name: self.ca_secret_name.clone(),
            insecure_skip_verify: self.insecure_skip_verify,
        }
    }
}

/// Environment variable
///
/// Exactly one of `value` (a literal) or `valueFrom` (a reference) must be set,
/// and a `valueFrom` block must declare exactly one reference. Anything else is
/// rejected rather than rendered as an empty variable.
#[derive(Debug, PartialEq, Eq)]
pub struct EnvVar {
    /// Environment variable name
    pub name: String,
    /// Literal value; mutually exclusive with valueFrom. Use "" for a
    /// deliberately empty variable.
    pub value: Option<String>,
    /// Reference the value is read from; mutually exclusive with value
    pub value_from: Option<EnvVarSource>,
}

/// What a [`EnvVar`] holds, over characters and sequences.
#[verifier::ext_equal]
pub struct EnvVarView {
    pub name: Seq<char>,
    pub value: Option<Seq<char>>,
    pub value_from: Option<EnvVarSourceView>,
}

impl DeepView for EnvVar {
    type V = EnvVarView;

    open spec fn deep_view(&self) -> EnvVarView {
        EnvVarView {
            name: self.name@,
            value: self.value.deep_view(),
            value_from: self.value_from.deep_view(),
        }
    }
}

impl Clone for EnvVar {
    fn clone(&self) -> (copy: Self)
        ensures
            copy.deep_view() == self.deep_view(),
    {
        EnvVar {
            name: self.name.clone(),
            value: self.value.clone(),
            value_from: self.value_from.clone(),
        }
    }
}

/// Source for environment variable value. Exactly one reference must be set.
#[derive(Debug, PartialEq, Eq)]
pub struct EnvVarSource {
    /// Secret key reference
    pub secret_key_ref: Option<SecretKeyRef>,
    /// ConfigMap key reference
    pub config_map_key_ref: Option<ConfigMapKeyRef>,
}

/// What a [`EnvVarSource`] holds, over characters and sequences.
#[verifier::ext_equal]
pub struct EnvVarSourceView {
    pub secret_key_ref: Option<SecretKeyRefView>,
    pub config_map_key_ref: Option<ConfigMapKeyRefView>,
}

impl DeepView for EnvVarSource {
    type V = EnvVarSourceView;

    open spec fn deep_view(&self) -> EnvVarSourceView {
        EnvVarSourceView {
            secret_key_ref: self.secret_key_ref.deep_view(),
            config_map_key_ref: self.config_map_key_ref.deep_view(),
        }
    }
}

impl Clone for EnvVarSource {
    fn clone(&self) -> (copy: Self)
        ensures
            copy.deep_view() == self.deep_view(),
    {
        EnvVarSource {
            secret_key_ref: self.secret_key_ref.clone(),
            config_map_key_ref: self.config_map_key_ref.clone(),
        }
    }
}

/// Reference to a secret key
#[derive(Debug, PartialEq, Eq)]
pub struct SecretKeyRef {
    /// Name of the secret
    pub name: String,
    /// Key within the secret
    pub key: String,
}

/// What a [`SecretKeyRef`] holds, over characters and sequences.
#[verifier::ext_equal]
pub struct SecretKeyRefView {
    pub name: Seq<char>,
    pub key: Seq<char>,
}

impl DeepView for SecretKeyRef {
    type V = SecretKeyRefView;

    open spec fn deep_view(&self) -> SecretKeyRefView {
        SecretKeyRefView {
            name: self.name@,
            key: self.key@,
        }
    }
}

impl Clone for SecretKeyRef {
    fn clone(&self) -> (copy: Self)
        ensures
            copy.deep_view() == self.deep_view(),
    {
        SecretKeyRef {
            name: self.name.clone(),
            key: self.key.clone(),
        }
    }
}

/// Reference to a configmap key
#[derive(Debug, PartialEq, Eq)]
pub struct ConfigMapKeyRef {
    /// Name of the configmap
    pub name: String,
    /// Key within the configmap
    pub key: String,
}

/// What a [`ConfigMapKeyRef`] holds, over characters and sequences.
#[verifier::ext_equal]
pub struct ConfigMapKeyRefView {
    pub name: Seq<char>,
    pub key: Seq<char>,
}

impl DeepView for ConfigMapKeyRef {
    type V = ConfigMapKeyRefView;

    open spec fn deep_view(&self) -> ConfigMapKeyRefView {
        ConfigMapKeyRefView {
            name: self.name@,
            key: self.key@,
        }
    }
}

impl Clone for ConfigMapKeyRef {
    fn clone(&self) -> (copy: Self)
        ensures
            copy.deep_view() == self.deep_view(),
    {
        ConfigMapKeyRef {
            name: self.name.clone(),
            key: self.key.clone(),
        }
    }
}

/// Toleration for pod scheduling
#[derive(Debug, PartialEq, Eq)]
pub struct Toleration {
    /// Taint key
    pub key: Option<String>,
    /// Operator (Exists, Equal)
    pub operator: Option<String>,
    /// Taint value
    pub value: Option<String>,
    /// Effect (NoSchedule, PreferNoSchedule, NoExecute)
    pub effect: Option<String>,
    /// Toleration seconds for NoExecute
    pub toleration_seconds: Option<i64>,
}

/// What a [`Toleration`] holds, over characters and sequences.
#[verifier::ext_equal]
pub struct TolerationView {
    pub key: Option<Seq<char>>,
    pub operator: Option<Seq<char>>,
    pub value: Option<Seq<char>>,
    pub effect: Option<Seq<char>>,
    pub toleration_seconds: Option<i64>,
}

impl DeepView for Toleration {
    type V = TolerationView;

    open spec fn deep_view(&self) -> TolerationView {
        TolerationView {
            key: self.key.deep_view(),
            operator: self.operator.deep_view(),
            value: self.value.deep_view(),
            effect: self.effect.deep_view(),
            toleration_seconds: self.toleration_seconds,
        }
    }
}

impl Clone for Toleration {
    fn clone(&self) -> (copy: Self)
        ensures
            copy.deep_view() == self.deep_view(),
    {
        Toleration {
            key: self.key.clone(),
            operator: self.operator.clone(),
            value: self.value.clone(),
            effect: self.effect.clone(),
            toleration_seconds: self.toleration_seconds,
        }
    }
}

/// Rack awareness configuration
#[derive(Debug, PartialEq, Eq)]
pub struct RackAwareness {
    /// Enable rack awareness
    pub enabled: bool,
    /// Label key to use for rack ID
    pub topology_key: String,
}

/// What a [`RackAwareness`] holds, over characters and sequences.
#[verifier::ext_equal]
pub struct RackAwarenessView {
    pub enabled: bool,
    pub topology_key: Seq<char>,
}

impl DeepView for RackAwareness {
    type V = RackAwarenessView;

    open spec fn deep_view(&self) -> RackAwarenessView {
        RackAwarenessView {
            enabled: self.enabled,
            topology_key: self.topology_key@,
        }
    }
}

impl Clone for RackAwareness {
    fn clone(&self) -> (copy: Self)
        ensures
            copy.deep_view() == self.deep_view(),
    {
        RackAwareness {
            enabled: self.enabled,
            topology_key: self.topology_key.clone(),
        }
    }
}

/// Rolling update strategy
#[derive(Debug, PartialEq, Eq)]
pub struct UpdateStrategy {
    /// Update strategy type (RollingUpdate, OnDelete)
    pub type_: String,
    /// Maximum unavailable pods during rolling update
    pub max_unavailable: Option<i32>,
}

/// What a [`UpdateStrategy`] holds, over characters and sequences.
#[verifier::ext_equal]
pub struct UpdateStrategyView {
    pub type_: Seq<char>,
    pub max_unavailable: Option<i32>,
}

impl DeepView for UpdateStrategy {
    type V = UpdateStrategyView;

    open spec fn deep_view(&self) -> UpdateStrategyView {
        UpdateStrategyView {
            type_: self.type_@,
            max_unavailable: self.max_unavailable,
        }
    }
}

impl Clone for UpdateStrategy {
    fn clone(&self) -> (copy: Self)
        ensures
            copy.deep_view() == self.deep_view(),
    {
        UpdateStrategy {
            type_: self.type_.clone(),
            max_unavailable: self.max_unavailable,
        }
    }
}

/// Status of the StreamlineCluster
#[derive(Debug, PartialEq, Eq)]
pub struct ClusterStatus {
    /// Current phase of the cluster
    pub phase: ClusterPhase,
    /// Number of ready replicas
    pub ready_replicas: i32,
    /// Total number of replicas
    pub replicas: i32,
    /// Current leader node ID
    pub leader_id: Option<i32>,
    /// List of broker endpoints
    pub broker_endpoints: Vec<String>,
    /// Conditions representing cluster state
    pub conditions: Vec<ClusterCondition>,
    /// Last observed generation
    pub observed_generation: Option<i64>,
    /// Last update timestamp
    pub last_updated: Option<String>,
}

/// What a [`ClusterStatus`] holds, over characters and sequences.
#[verifier::ext_equal]
pub struct ClusterStatusView {
    pub phase: ClusterPhase,
    pub ready_replicas: i32,
    pub replicas: i32,
    pub leader_id: Option<i32>,
    pub broker_endpoints: Seq<Seq<char>>,
    pub conditions: Seq<ConditionView>,
    pub observed_generation: Option<i64>,
    pub last_updated: Option<Seq<char>>,
}

impl DeepView for ClusterStatus {
    type V = ClusterStatusView;

    open spec fn deep_view(&self) -> ClusterStatusView {
        ClusterStatusView {
            phase: self.phase,
            ready_replicas: self.ready_replicas,
            replicas: self.replicas,
            leader_id: self.leader_id,
            broker_endpoints: self.broker_endpoints.deep_view(),
            conditions: self.conditions.deep_view(),
            observed_generation: self.observed_generation,
            last_updated: self.last_updated.deep_view(),
        }
    }
}

impl Clone for ClusterStatus {
    fn clone(&self) -> (copy: Self)
        ensures
            copy.deep_view() == self.deep_view(),
    {
        let copy = ClusterStatus {
            phase: self.phase,
            ready_replicas: self.ready_replicas,
            replicas: self.replicas,
            leader_id: self.leader_id,
            broker_endpoints: self.broker_endpoints.clone(),
            conditions: self.conditions.clone(),
            observed_generation: self.observed_generation,
            last_updated: self.last_updated.clone(),
        };
        assert(copy.broker_endpoints.deep_view() =~= self.broker_endpoints.deep_view());
        assert(copy.conditions.deep_view() =~= self.conditions.deep_view());
        copy
    }
}

/// Phase of the cluster lifecycle
#[derive(Clone, Copy, Debug, PartialEq, Eq, Structural)]
pub enum ClusterPhase {
    /// Cluster is being created
    Pending,
    /// Cluster is running
    Running,
    /// Cluster is being scaled
    Scaling,
    /// Cluster is being upgraded
    Upgrading,
    /// Cluster has failed
    Failed,
    /// Cluster is being deleted
    Terminating,
}

impl DeepView for ClusterPhase {
    type V = Self;

    open spec fn deep_view(&self) -> Self {
        *self
    }
}

/// Condition of the cluster
#[derive(Debug, PartialEq, Eq)]
pub struct ClusterCondition {
    /// Type of condition
    pub type_: String,
    /// Status of the condition (True, False, Unknown)
    pub status: String,
    /// Last time the condition transitioned
    pub last_transition_time: Option<String>,
    /// Reason for the condition
    pub reason: Option<String>,
    /// Human-readable message
    pub message: Option<String>,
}

impl DeepView for ClusterCondition {
    type V = ConditionView;

    open spec fn deep_view(&self) -> ConditionView {
        ConditionView {
            condition_type: self.type_@,
            status: self.status@,
            last_transition_time: self.last_transition_time.deep_view(),
            reason: self.reason.deep_view(),
            message: self.message.deep_view(),
        }
    }
}

impl Clone for ClusterCondition {
    fn clone(&self) -> (copy: Self)
        ensures
            copy.deep_view() == self.deep_view(),
    {
        ClusterCondition {
            type_: self.type_.clone(),
            status: self.status.clone(),
            last_transition_time: self.last_transition_time.clone(),
            reason: self.reason.clone(),
            message: self.message.clone(),
        }
    }
}

/// The single reference an [`EnvVarSource`] resolves to.
///
/// Returned by [`EnvVar::resolve_source`] so validation and StatefulSet
/// rendering agree, by construction, on which shapes are supported.
#[derive(Debug, Clone, Copy, PartialEq, Eq)]
pub enum EnvVarRef<'a> {
    /// `valueFrom.secretKeyRef`
    Secret(&'a SecretKeyRef),
    /// `valueFrom.configMapKeyRef`
    ConfigMap(&'a ConfigMapKeyRef),
}

/// What an [`EnvVarRef`] refers to.
#[verifier::ext_equal]
pub enum EnvVarRefView {
    Secret(SecretKeyRefView),
    ConfigMap(ConfigMapKeyRefView),
}

impl<'a> DeepView for EnvVarRef<'a> {
    type V = EnvVarRefView;

    open spec fn deep_view(&self) -> EnvVarRefView {
        match self {
            EnvVarRef::Secret(secret) => EnvVarRefView::Secret(secret.deep_view()),
            EnvVarRef::ConfigMap(config_map) => EnvVarRefView::ConfigMap(config_map.deep_view()),
        }
    }
}

pub const ENV_NAME_EMPTY: &'static str = "name must not be empty";

pub const ENV_NO_VALUE: &'static str = "must set value or valueFrom (use value: \"\" for a deliberately empty variable)";

pub const ENV_BOTH_VALUES: &'static str = "value and valueFrom are mutually exclusive";

pub const ENV_BOTH_REFS: &'static str = "valueFrom must set exactly one of secretKeyRef or configMapKeyRef";

pub const ENV_NO_REF: &'static str = "valueFrom must set secretKeyRef or configMapKeyRef; an empty valueFrom would render the variable as an empty string";

pub const REPLICAS_UNSUPPORTED: &'static str = " is not supported: the operator does not bootstrap Streamline raft peers yet (set replicas: 1), so ";

pub const REPLICAS_INDEPENDENT: &'static str = " independent brokers would be rendered instead of a quorum.";

pub const PORTS_NOT_DISTINCT: &'static str = "kafkaPort, httpPort, and raftPort must all be different";

pub const ANTI_AFFINITY_UNSUPPORTED: &'static str = "podAntiAffinity is not supported: the operator renders no affinity rules onto the broker pod template (omit it or set it to false; with replicas capped at 1 there is no second pod to spread).";

pub const RACK_AWARENESS_UNSUPPORTED: &'static str = "rackAwareness.enabled is not supported: the operator renders no topology spread constraints or rack labelling";

pub const TOLERATIONS_HEAD: &'static str = "tolerations are not supported: the operator renders none onto the broker pod template, so the ";

pub const TOLERATIONS_TAIL: &'static str = " declared here would be silently dropped (nodeSelector is rendered and can be used instead)";

pub const AUTOSCALING_UNSUPPORTED: &'static str = "autoscaling.enabled is not supported: the operator only renders a standalone broker and cannot safely scale it above one replica";

pub const TLS_SECRET_REQUIRED: &'static str = "tls.secretName is required when tls.enabled is true: the operator mounts that Secret at /etc/streamline-tls";

pub const TLS_CA_REQUIRED: &'static str = "tls.caSecretName is required when tls.mtlsEnabled is true: client certificates cannot be verified without a CA bundle";

pub const TLS_SKIP_VERIFY_UNSUPPORTED: &'static str = "tls.insecureSkipVerify is not supported: it is a client-side setting and the operator will not render a broker configuration that disables certificate verification";

pub const MTLS_WITHOUT_TLS: &'static str = "tls.mtlsEnabled requires tls.enabled to be true";

/// Why a key reference cannot be rendered, if its name or its key is blank.
pub open spec fn reference_problem(
    field: Seq<char>,
    name: Seq<char>,
    key: Seq<char>,
) -> Option<Seq<char>> {
    if text::is_blank(name) {
        Some("valueFrom."@ + field + ".name must not be empty"@)
    } else if text::is_blank(key) {
        Some("valueFrom."@ + field + ".key must not be empty"@)
    } else {
        None
    }
}

/// What an environment entry renders to: nothing but its literal, a reference, or a reason
/// why it cannot be rendered faithfully.
pub open spec fn env_resolution(env: EnvVarView) -> Result<Option<EnvVarRefView>, Seq<char>> {
    if text::is_blank(env.name) {
        Err(ENV_NAME_EMPTY@)
    } else {
        match env.value_from {
            None => if env.value is Some {
                Ok(None)
            } else {
                Err(ENV_NO_VALUE@)
            },
            Some(source) => if env.value is Some {
                Err(ENV_BOTH_VALUES@)
            } else {
                match (source.secret_key_ref, source.config_map_key_ref) {
                    (Some(_), Some(_)) => Err(ENV_BOTH_REFS@),
                    (Some(secret), None) => match reference_problem(
                        "secretKeyRef"@,
                        secret.name,
                        secret.key,
                    ) {
                        Some(problem) => Err(problem),
                        None => Ok(Some(EnvVarRefView::Secret(secret))),
                    },
                    (None, Some(config_map)) => match reference_problem(
                        "configMapKeyRef"@,
                        config_map.name,
                        config_map.key,
                    ) {
                        Some(problem) => Err(problem),
                        None => Ok(Some(EnvVarRefView::ConfigMap(config_map))),
                    },
                    (None, None) => Err(ENV_NO_REF@),
                }
            },
        }
    }
}

/// A list with `message` where `wrong` holds, and an empty one otherwise.
pub open spec fn when(wrong: bool, message: Seq<char>) -> Seq<Seq<char>> {
    if wrong {
        seq![message]
    } else {
        Seq::empty()
    }
}

/// Whether `port` is a TCP port number.
pub open spec fn is_port(port: i32) -> bool {
    1 <= port <= 65535
}

/// What is wrong with the replica count.
pub open spec fn replica_violations(replicas: i32) -> Seq<Seq<char>> {
    when(replicas < 1, "replicas must be >= 1, got "@ + text::decimal(replicas as int)) + when(
        replicas > 1,
        "replicas="@ + text::decimal(replicas as int) + REPLICAS_UNSUPPORTED@ + text::decimal(
            replicas as int,
        ) + REPLICAS_INDEPENDENT@ + upgrade::remedy_for(
            "spec.replicas"@,
            replicas == upgrade::LEGACY_CLUSTER_REPLICAS,
        ),
    )
}

/// What is wrong with the ports.
pub open spec fn port_violations(kafka: i32, http: i32, raft: i32) -> Seq<Seq<char>> {
    when(!is_port(kafka), "kafkaPort must be 1-65535, got "@ + text::decimal(kafka as int)) + when(
        !is_port(http),
        "httpPort must be 1-65535, got "@ + text::decimal(http as int),
    ) + when(!is_port(raft), "raftPort must be 1-65535, got "@ + text::decimal(raft as int))
        + when(kafka == http || kafka == raft || http == raft, PORTS_NOT_DISTINCT@)
}

/// How the environment entry at `index` is called in a message.
pub open spec fn env_label(index: int, name: Seq<char>) -> Seq<char> {
    let named = if text::is_blank(name) {
        Seq::empty()
    } else {
        " ("@ + name + ")"@
    };
    "env["@ + text::decimal(index) + "]"@ + named
}

/// What is wrong with the environment entries, in their order.
pub open spec fn env_violations(env: Seq<EnvVarView>) -> Seq<Seq<char>>
    decreases env.len(),
{
    if env.len() == 0 {
        Seq::empty()
    } else {
        env_violations(env.drop_last()) + match env_resolution(env.last()) {
            Err(reason) => seq![env_label(env.len() - 1, env.last().name) + ": "@ + reason],
            Ok(_) => Seq::empty(),
        }
    }
}

/// What is wrong with the scheduling settings.
pub open spec fn scheduling_violations(spec: ClusterSpecView) -> Seq<Seq<char>> {
    when(
        spec.pod_anti_affinity,
        ANTI_AFFINITY_UNSUPPORTED@ + upgrade::remedy_for(
            "spec.podAntiAffinity"@,
            spec.pod_anti_affinity == upgrade::LEGACY_POD_ANTI_AFFINITY,
        ),
    ) + when(
        spec.rack_awareness is Some && spec.rack_awareness->0.enabled,
        RACK_AWARENESS_UNSUPPORTED@,
    ) + when(
        spec.tolerations.len() > 0,
        TOLERATIONS_HEAD@ + text::decimal(spec.tolerations.len() as int) + TOLERATIONS_TAIL@,
    )
}

/// What is wrong with the autoscaling settings.
pub open spec fn autoscaling_violations(autoscaling: Option<AutoScalingSpecView>) -> Seq<Seq<char>> {
    match autoscaling {
        Some(scaling) if scaling.enabled => when(true, AUTOSCALING_UNSUPPORTED@) + when(
            scaling.min_replicas < 1,
            "autoscaling.minReplicas must be >= 1, got "@ + text::decimal(
                scaling.min_replicas as int,
            ),
        ) + when(
            scaling.max_replicas < scaling.min_replicas,
            "autoscaling.maxReplicas ("@ + text::decimal(scaling.max_replicas as int)
                + ") must be >= minReplicas ("@ + text::decimal(scaling.min_replicas as int)
                + ")"@,
        ) + when(
            scaling.target_cpu_utilization < 1 || scaling.target_cpu_utilization > 100,
            "autoscaling.targetCpuUtilization must be 1-100, got "@ + text::decimal(
                scaling.target_cpu_utilization as int,
            ),
        ),
        _ => Seq::empty(),
    }
}

/// Whether the node selector is a string map: its keys rise strictly.
pub open spec fn well_formed(spec: ClusterSpecView) -> bool {
    crate::objects::in_key_order(spec.node_selector)
}

/// Whether the TLS settings name a Secret that holds the client CA bundle.
pub open spec fn names_ca(tls: ClusterTlsView) -> bool {
    tls.ca_secret_name is Some && !text::is_blank(tls.ca_secret_name->0)
}

/// What is wrong with the TLS settings.
pub open spec fn tls_violations(tls: Option<ClusterTlsView>) -> Seq<Seq<char>> {
    match tls {
        None => Seq::empty(),
        Some(tls) => (if tls.enabled {
            when(text::is_blank(tls.secret_name), TLS_SECRET_REQUIRED@) + when(
                tls.mtls_enabled && !names_ca(tls),
                TLS_CA_REQUIRED@,
            )
        } else {
            when(tls.mtls_enabled, MTLS_WITHOUT_TLS@)
        }) + when(tls.insecure_skip_verify, TLS_SKIP_VERIFY_UNSUPPORTED@),
    }
}

/// Everything that is wrong with a cluster specification, in the order it is reported.
pub open spec fn violations(spec: ClusterSpecView) -> Seq<Seq<char>> {
    replica_violations(spec.replicas) + port_violations(
        spec.kafka_port,
        spec.http_port,
        spec.raft_port,
    ) + env_violations(spec.env) + scheduling_violations(spec) + autoscaling_violations(
        spec.autoscaling,
    ) + tls_violations(spec.tls)
}

/// Whether the TLS settings can be honoured.
pub open spec fn tls_acceptable(tls: Option<ClusterTlsView>) -> bool {
    match tls {
        None => true,
        Some(tls) => {
            &&& tls.enabled ==> !text::is_blank(tls.secret_name)
            &&& tls.mtls_enabled ==> tls.enabled && names_ca(tls)
            &&& !tls.insecure_skip_verify
        },
    }
}

/// Whether a cluster specification asks only for what the operator renders.
pub open spec fn acceptable(spec: ClusterSpecView) -> bool {
    &&& spec.replicas == 1
    &&& is_port(spec.kafka_port) && is_port(spec.http_port) && is_port(spec.raft_port)
    &&& spec.kafka_port != spec.http_port && spec.kafka_port != spec.raft_port && spec.http_port
        != spec.raft_port
    &&& forall|i: int| 0 <= i < spec.env.len() ==> env_resolution(#[trigger] spec.env[i]) is Ok
    &&& !spec.pod_anti_affinity
    &&& spec.rack_awareness is None || !spec.rack_awareness->0.enabled
    &&& spec.tolerations.len() == 0
    &&& spec.autoscaling is None || !spec.autoscaling->0.enabled
    &&& tls_acceptable(spec.tls)
}

/// The storage that a manifest without a storage block has.
pub open spec fn default_storage() -> ClusterStorageView {
    ClusterStorageView {
        storage_class_name: None,
        size: "10Gi"@,
        access_modes: seq!["ReadWriteOnce"@],
    }
}

/// The resource requirements that a manifest without a resources block has.
pub open spec fn no_resources() -> ResourceRequirementsView {
    ResourceRequirementsView {
        limits: ResourceListView { cpu: None, memory: None },
        requests: ResourceListView { cpu: None, memory: None },
    }
}

/// The specification that an empty manifest has.
pub open spec fn default_spec() -> ClusterSpecView {
    ClusterSpecView {
        replicas: 1,
        image: "ghcr.io/streamlinelabs/streamline:0.4.0"@,
        image_pull_policy: "IfNotPresent"@,
        resources: no_resources(),
        storage: default_storage(),
        tls: None,
        kafka_port: 9092,
        http_port: 9094,
        raft_port: 9095,
        env: Seq::empty(),
        node_selector: Seq::empty(),
        tolerations: Seq::empty(),
        pod_anti_affinity: false,
        rack_awareness: None,
        service_account_name: None,
        log_level: "info"@,
        metrics_enabled: true,
        update_strategy: UpdateStrategyView { type_: "RollingUpdate"@, max_unavailable: Some(1) },
        autoscaling: None,
    }
}

/// The autoscaling settings of a manifest whose autoscaling block is empty.
pub open spec fn default_autoscaling() -> AutoScalingSpecView {
    AutoScalingSpecView {
        enabled: false,
        min_replicas: 1,
        max_replicas: 10,
        target_cpu_utilization: 70,
        target_memory_utilization: 80,
        partition_aware: false,
        target_lag_per_partition: 10000,
        target_messages_per_second: 100000,
        behavior: None,
    }
}

impl StreamlineCluster {
    /// A cluster resource with a name, a specification and no status yet.
    pub fn new(name: &str, spec: ClusterSpec) -> (cluster: Self)
        ensures
            cluster.deep_view() == (StreamlineClusterView {
                metadata: crate::objects::named_meta(name@),
                spec: spec.deep_view(),
                status: None,
            }),
    {
        StreamlineCluster { metadata: ResourceMeta::named(name), spec, status: None }
    }
}

impl EnvVar {
    /// Resolve what this entry renders to, or describe why it cannot be
    /// rendered faithfully.
    ///
    /// `Ok(None)` is a literal `value`. `Ok(Some(_))` is a reference that maps
    /// onto a container `EnvVarSource` verbatim. `Err` means the entry declares
    /// something that cannot be mapped exactly; rendering it anyway would
    /// silently substitute an empty value for, say, a password.
    pub fn resolve_source(&self) -> (resolved: Result<Option<EnvVarRef<'_>>, String>)
        ensures
            match (resolved, env_resolution(self.deep_view())) {
                (Ok(reference), Ok(expected)) => reference.deep_view() == expected,
                (Err(reason), Err(expected)) => reason@ == expected,
                _ => false,
            },
    {
        if text::text_is_blank(self.name.as_str()) {
            return Err(ENV_NAME_EMPTY.to_owned());
        }
        let source = match &self.value_from {
            Some(source) => source,
            None => {
                // A deliberately empty variable is written `value: ""`. An entry
                // carrying neither is rejected rather than rendered.
                return if self.value.is_some() {
                    Ok(None)
                } else {
                    Err(ENV_NO_VALUE.to_owned())
                };
            },
        };
        if self.value.is_some() {
            return Err(ENV_BOTH_VALUES.to_owned());
        }
        match (&source.secret_key_ref, &source.config_map_key_ref) {
            (Some(_), Some(_)) => Err(ENV_BOTH_REFS.to_owned()),
            (Some(secret), None) => {
                match incomplete_ref("secretKeyRef", secret.name.as_str(), secret.key.as_str()) {
                    Err(problem) => Err(problem),
                    Ok(()) => Ok(Some(EnvVarRef::Secret(secret))),
                }
            },
            (None, Some(config_map)) => {
                match incomplete_ref(
                    "configMapKeyRef",
                    config_map.name.as_str(),
                    config_map.key.as_str(),
                ) {
                    Err(problem) => Err(problem),
                    Ok(()) => Ok(Some(EnvVarRef::ConfigMap(config_map))),
                }
            },
            (None, None) => Err(ENV_NO_REF.to_owned()),
        }
    }
}

/// Reject a key reference whose name or key is blank.
///
/// Both are required by the schema, so only whitespace-only values reach here,
/// and a blank name or key resolves to nothing at pod start.
pub fn incomplete_ref(field: &str, name: &str, key: &str) -> (checked: Result<(), String>)
    ensures
        match checked {
            Ok(()) => reference_problem(field@, name@, key@) is None,
            Err(problem) => reference_problem(field@, name@, key@) == Some(problem@),
        },
{
    if text::text_is_blank(name) {
        return Err("valueFrom.".to_owned().concat(field).concat(".name must not be empty"));
    }
    if text::text_is_blank(key) {
        return Err("valueFrom.".to_owned().concat(field).concat(".key must not be empty"));
    }
    Ok(())
}

/// Append a message to a list of messages.
pub fn report(errors: &mut Vec<String>, message: String)
    ensures
        final(errors).deep_view() == old(errors).deep_view() + seq![message@],
{
    let ghost before = errors.deep_view();
    errors.push(message);
    assert(errors.deep_view() =~= before + seq![message@]);
}

impl ClusterSpec {
    /// Validate the cluster specification, returning errors for invalid values.
    pub fn validate(&self) -> (checked: Result<(), Vec<String>>)
        ensures
            match checked {
                Ok(()) => violations(self.deep_view()).len() == 0,
                Err(errors) => {
                    &&& errors.deep_view() == violations(self.deep_view())
                    &&& violations(self.deep_view()).len() > 0
                },
            },
    {
        let mut errors: Vec<String> = Vec::new();
        assert(errors.deep_view() =~= Seq::empty());
        self.report_replicas(&mut errors);
        assert(errors.deep_view() =~= replica_violations(self.replicas));
        self.report_ports(&mut errors);
        self.report_env(&mut errors);
        self.report_scheduling(&mut errors);
        self.report_autoscaling(&mut errors);
        self.report_tls(&mut errors);
        assert(errors.len() == errors.deep_view().len());
        if errors.is_empty() {
            Ok(())
        } else {
            Err(errors)
        }
    }

    fn report_replicas(&self, errors: &mut Vec<String>)
        ensures
            final(errors).deep_view() == old(errors).deep_view() + replica_violations(self.replicas),
    {
        let ghost before = errors.deep_view();
        if self.replicas < 1 {
            report(
                errors,
                "replicas must be >= 1, got ".to_owned().concat(
                    text::i32_text(self.replicas).as_str(),
                ),
            );
        }
        if self.replicas > 1 {
            // The v0.3.0 CRD defaulted this to 3, so an untouched resource from
            // that release arrives here. The message therefore has to explain
            // an upgrade, not just a bad value.
            let replicas = text::i32_text(self.replicas);
            let remedy = upgrade::remediation_for(
                "spec.replicas",
                self.replicas == upgrade::LEGACY_CLUSTER_REPLICAS,
            );
            report(
                errors,
                "replicas=".to_owned().concat(replicas.as_str()).concat(REPLICAS_UNSUPPORTED)
                    .concat(replicas.as_str()).concat(REPLICAS_INDEPENDENT).concat(
                    remedy.as_str(),
                ),
            );
        }
        assert(errors.deep_view() =~= before + replica_violations(self.replicas));
    }

    fn report_ports(&self, errors: &mut Vec<String>)
        ensures
            final(errors).deep_view() == old(errors).deep_view() + port_violations(
                self.kafka_port,
                self.http_port,
                self.raft_port,
            ),
    {
        let ghost before = errors.deep_view();
        if self.kafka_port < 1 || self.kafka_port > 65535 {
            report(
                errors,
                "kafkaPort must be 1-65535, got ".to_owned().concat(
                    text::i32_text(self.kafka_port).as_str(),
                ),
            );
        }
        if self.http_port < 1 || self.http_port > 65535 {
            report(
                errors,
                "httpPort must be 1-65535, got ".to_owned().concat(
                    text::i32_text(self.http_port).as_str(),
                ),
            );
        }
        if self.raft_port < 1 || self.raft_port > 65535 {
            report(
                errors,
                "raftPort must be 1-65535, got ".to_owned().concat(
                    text::i32_text(self.raft_port).as_str(),
                ),
            );
        }
        if self.kafka_port == self.http_port || self.kafka_port == self.raft_port || self.http_port
            == self.raft_port {
            report(errors, PORTS_NOT_DISTINCT.to_owned());
        }
        assert(errors.deep_view() =~= before + port_violations(
            self.kafka_port,
            self.http_port,
            self.raft_port,
        ));
    }

    // Environment entries that do not map exactly onto a container `EnvVar` are
    // rejected here, so the StatefulSet never has to choose between dropping a
    // reference and rendering an empty value.
    fn report_env(&self, errors: &mut Vec<String>)
        ensures
            final(errors).deep_view() == old(errors).deep_view() + env_violations(
                self.env.deep_view(),
            ),
    {
        let ghost before = errors.deep_view();
        let ghost all = self.env.deep_view();
        let mut index: usize = 0;
        assert(before + env_violations(all.subrange(0, 0)) =~= before);
        while index < self.env.len()
            invariant
                index <= self.env.len(),
                all == self.env.deep_view(),
                errors.deep_view() == before + env_violations(all.subrange(0, index as int)),
            decreases self.env.len() - index,
        {
            let env = &self.env[index];
            let ghost seen = all.subrange(0, index + 1);
            assert(seen.drop_last() =~= all.subrange(0, index as int));
            assert(seen.last() == env.deep_view());
            let ghost so_far = errors.deep_view();
            match env.resolve_source() {
                Err(reason) => {
                    let named = if text::text_is_blank(env.name.as_str()) {
                        String::new()
                    } else {
                        " (".to_owned().concat(env.name.as_str()).concat(")")
                    };
                    let label = "env[".to_owned().concat(text::usize_text(index).as_str()).concat(
                        "]",
                    ).concat(named.as_str());
                    report(errors, label.concat(": ").concat(reason.as_str()));
                },
                Ok(_) => {},
            }
            assert(errors.deep_view() =~= before + env_violations(seen));
            index = index + 1;
        }
        assert(all.subrange(0, all.len() as int) =~= all);
    }

    // Scheduling settings the pod template does not carry. Rendering nothing
    // while reporting `Ready` is what made these advertised but inert.
    fn report_scheduling(&self, errors: &mut Vec<String>)
        ensures
            final(errors).deep_view() == old(errors).deep_view() + scheduling_violations(
                self.deep_view(),
            ),
    {
        let ghost before = errors.deep_view();
        if self.pod_anti_affinity {
            // `true` is both the rejected value and the value v0.3.0
            // persisted, so this is always an upgrade message.
            let remedy = upgrade::remediation_for(
                "spec.podAntiAffinity",
                self.pod_anti_affinity == upgrade::LEGACY_POD_ANTI_AFFINITY,
            );
            report(errors, ANTI_AFFINITY_UNSUPPORTED.to_owned().concat(remedy.as_str()));
        }
        match &self.rack_awareness {
            Some(rack) => {
                if rack.enabled {
                    report(errors, RACK_AWARENESS_UNSUPPORTED.to_owned());
                }
            },
            None => {},
        }
        assert(self.tolerations.len() == self.tolerations.deep_view().len());
        if !self.tolerations.is_empty() {
            report(
                errors,
                TOLERATIONS_HEAD.to_owned().concat(
                    text::usize_text(self.tolerations.len()).as_str(),
                ).concat(TOLERATIONS_TAIL),
            );
        }
        assert(errors.deep_view() =~= before + scheduling_violations(self.deep_view()));
    }

    fn report_autoscaling(&self, errors: &mut Vec<String>)
        ensures
            final(errors).deep_view() == old(errors).deep_view() + autoscaling_violations(
                self.autoscaling.deep_view(),
            ),
    {
        let ghost before = errors.deep_view();
        match &self.autoscaling {
            Some(autoscaling) => {
                if autoscaling.enabled {
                    report(errors, AUTOSCALING_UNSUPPORTED.to_owned());
                    if autoscaling.min_replicas < 1 {
                        report(
                            errors,
                            "autoscaling.minReplicas must be >= 1, got ".to_owned().concat(
                                text::i32_text(autoscaling.min_replicas).as_str(),
                            ),
                        );
                    }
                    if autoscaling.max_replicas < autoscaling.min_replicas {
                        report(
                            errors,
                            "autoscaling.maxReplicas (".to_owned().concat(
                                text::i32_text(autoscaling.max_replicas).as_str(),
                            ).concat(") must be >= minReplicas (").concat(
                                text::i32_text(autoscaling.min_replicas).as_str(),
                            ).concat(")"),
                        );
                    }
                    if autoscaling.target_cpu_utilization < 1 || autoscaling.target_cpu_utilization
                        > 100 {
                        report(
                            errors,
                            "autoscaling.targetCpuUtilization must be 1-100, got ".to_owned().concat(
                                text::i32_text(autoscaling.target_cpu_utilization).as_str(),
                            ),
                        );
                    }
                }
            },
            None => {},
        }
        assert(errors.deep_view() =~= before + autoscaling_violations(
            self.autoscaling.deep_view(),
        ));
    }

    fn report_tls(&self, errors: &mut Vec<String>)
        ensures
            final(errors).deep_view() == old(errors).deep_view() + tls_violations(
                self.tls.deep_view(),
            ),
    {
        let ghost before = errors.deep_view();
        match &self.tls {
            Some(tls) => {
                if tls.enabled {
                    if text::text_is_blank(tls.secret_name.as_str()) {
                        report(errors, TLS_SECRET_REQUIRED.to_owned());
                    }
                    if tls.mtls_enabled && !tls.names_ca() {
                        report(errors, TLS_CA_REQUIRED.to_owned());
                    }
                } else if tls.mtls_enabled {
                    report(errors, MTLS_WITHOUT_TLS.to_owned());
                }
                if tls.insecure_skip_verify {
                    report(errors, TLS_SKIP_VERIFY_UNSUPPORTED.to_owned());
                }
            },
            None => {},
        }
        assert(errors.deep_view() =~= before + tls_violations(self.tls.deep_view()));
    }
}

impl ClusterTls {
    /// Whether the settings name a Secret that holds the client CA bundle: one with a blank
    /// name cannot be mounted.
    fn names_ca(&self) -> (named: bool)
        ensures
            named == names_ca(self.deep_view()),
    {
        match &self.ca_secret_name {
            Some(name) => !text::text_is_blank(name.as_str()),
            None => false,
        }
    }
}

impl Default for ClusterSpec {
    fn default() -> (spec: Self)
        ensures
            spec.deep_view() == default_spec(),
            well_formed(spec.deep_view()),
    {
        let spec = ClusterSpec {
            replicas: default_replicas(),
            image: default_image(),
            image_pull_policy: default_pull_policy(),
            resources: ResourceRequirements::default(),
            storage: ClusterStorage::default(),
            tls: None,
            kafka_port: default_kafka_port(),
            http_port: default_http_port(),
            raft_port: default_raft_port(),
            env: Vec::new(),
            node_selector: Vec::new(),
            tolerations: Vec::new(),
            pod_anti_affinity: false,
            rack_awareness: None,
            service_account_name: None,
            log_level: default_log_level(),
            metrics_enabled: default_true(),
            update_strategy: UpdateStrategy::default(),
            autoscaling: None,
        };
        assert(spec.env.deep_view() =~= Seq::empty());
        assert(spec.node_selector.deep_view() =~= Seq::empty());
        assert(spec.tolerations.deep_view() =~= Seq::empty());
        spec
    }
}

impl AutoScalingSpec {
    /// The settings of a manifest whose autoscaling block is empty.
    pub fn schema_default() -> (autoscaling: Self)
        ensures
            autoscaling.deep_view() == default_autoscaling(),
    {
        AutoScalingSpec {
            enabled: false,
            min_replicas: default_min_replicas(),
            max_replicas: default_max_replicas(),
            target_cpu_utilization: default_cpu_target(),
            target_memory_utilization: default_memory_target(),
            partition_aware: false,
            target_lag_per_partition: default_lag_threshold(),
            target_messages_per_second: default_mps_threshold(),
            behavior: None,
        }
    }
}

impl Default for AutoScalingSpec {
    fn default() -> (autoscaling: Self)
        ensures
            autoscaling.deep_view() == (AutoScalingSpecView {
                enabled: false,
                min_replicas: 0,
                max_replicas: 0,
                target_cpu_utilization: 0,
                target_memory_utilization: 0,
                partition_aware: false,
                target_lag_per_partition: 0,
                target_messages_per_second: 0,
                behavior: None,
            }),
    {
        AutoScalingSpec {
            enabled: false,
            min_replicas: 0,
            max_replicas: 0,
            target_cpu_utilization: 0,
            target_memory_utilization: 0,
            partition_aware: false,
            target_lag_per_partition: 0,
            target_messages_per_second: 0,
            behavior: None,
        }
    }
}

impl Default for ResourceList {
    fn default() -> (list: Self)
        ensures
            list.deep_view() == (ResourceListView { cpu: None, memory: None }),
    {
        ResourceList { cpu: None, memory: None }
    }
}

impl Default for ResourceRequirements {
    fn default() -> (resources: Self)
        ensures
            resources.deep_view() == no_resources(),
    {
        ResourceRequirements { limits: ResourceList::default(), requests: ResourceList::default() }
    }
}

impl Default for ClusterStorage {
    fn default() -> (storage: Self)
        ensures
            storage.deep_view() == default_storage(),
    {
        ClusterStorage {
            storage_class_name: None,
            size: default_storage_size(),
            access_modes: default_access_modes(),
        }
    }
}

impl Default for UpdateStrategy {
    fn default() -> (strategy: Self)
        ensures
            strategy.deep_view() == (UpdateStrategyView {
                type_: "RollingUpdate"@,
                max_unavailable: Some(1),
            }),
    {
        UpdateStrategy { type_: default_update_type(), max_unavailable: Some(1) }
    }
}

impl Default for ClusterPhase {
    fn default() -> (phase: Self)
        ensures
            phase == ClusterPhase::Pending,
    {
        ClusterPhase::Pending
    }
}

impl Default for ClusterStatus {
    fn default() -> (status: Self)
        ensures
            status.deep_view() == (ClusterStatusView {
                phase: ClusterPhase::Pending,
                ready_replicas: 0,
                replicas: 0,
                leader_id: None,
                broker_endpoints: Seq::empty(),
                conditions: Seq::empty(),
                observed_generation: None,
                last_updated: None,
            }),
    {
        let status = ClusterStatus {
            phase: ClusterPhase::default(),
            ready_replicas: 0,
            replicas: 0,
            leader_id: None,
            broker_endpoints: Vec::new(),
            conditions: Vec::new(),
            observed_generation: None,
            last_updated: None,
        };
        assert(status.broker_endpoints.deep_view() =~= Seq::empty());
        assert(status.conditions.deep_view() =~= Seq::empty());
        status
    }
}

/// Replica count of a cluster that does not set one: the operator bootstraps no raft
/// peers, so a single broker is the only count it renders a working cluster for.
pub fn default_replicas() -> (value: i32)
    ensures
        value == 1,
{
    1
}

/// Default Streamline *server* image, pinned rather than `latest`.
pub fn default_image() -> (value: String)
    ensures
        value@ == "ghcr.io/streamlinelabs/streamline:0.4.0"@,
{
    "ghcr.io/streamlinelabs/streamline:0.4.0".to_owned()
}

/// Image pull policy of a cluster that does not set one.
pub fn default_pull_policy() -> (value: String)
    ensures
        value@ == "IfNotPresent"@,
{
    "IfNotPresent".to_owned()
}

/// Kafka protocol port of a cluster that does not set one.
pub fn default_kafka_port() -> (value: i32)
    ensures
        value == 9092,
{
    9092
}

/// HTTP port of a cluster that does not set one.
pub fn default_http_port() -> (value: i32)
    ensures
        value == 9094,
{
    9094
}

/// Raft port of a cluster that does not set one.
pub fn default_raft_port() -> (value: i32)
    ensures
        value == 9095,
{
    9095
}

/// Volume size of a cluster that does not set one.
pub fn default_storage_size() -> (value: String)
    ensures
        value@ == "10Gi"@,
{
    "10Gi".to_owned()
}

/// Rack label of a cluster that does not set one.
pub fn default_rack_label() -> (value: String)
    ensures
        value@ == "topology.kubernetes.io/zone"@,
{
    "topology.kubernetes.io/zone".to_owned()
}

/// Log level of a cluster that does not set one.
pub fn default_log_level() -> (value: String)
    ensures
        value@ == "info"@,
{
    "info".to_owned()
}

/// The default of a switch that is on.
pub fn default_true() -> (value: bool)
    ensures
        value,
{
    true
}

/// Update strategy of a cluster that does not set one.
pub fn default_update_type() -> (value: String)
    ensures
        value@ == "RollingUpdate"@,
{
    "RollingUpdate".to_owned()
}

/// Lower replica bound of an autoscaling block that does not set one.
pub fn default_min_replicas() -> (value: i32)
    ensures
        value == 1,
{
    1
}

/// Upper replica bound of an autoscaling block that does not set one.
pub fn default_max_replicas() -> (value: i32)
    ensures
        value == 10,
{
    10
}

/// CPU target of an autoscaling block that does not set one.
pub fn default_cpu_target() -> (value: i32)
    ensures
        value == 70,
{
    70
}

/// Memory target of an autoscaling block that does not set one.
pub fn default_memory_target() -> (value: i32)
    ensures
        value == 80,
{
    80
}

/// Lag target of an autoscaling block that does not set one.
pub fn default_lag_threshold() -> (value: i64)
    ensures
        value == 10000,
{
    10000
}

/// Throughput target of an autoscaling block that does not set one.
pub fn default_mps_threshold() -> (value: i64)
    ensures
        value == 100000,
{
    100000
}

/// Access modes of a volume that does not set any.
pub fn default_access_modes() -> (modes: Vec<String>)
    ensures
        modes.deep_view() == seq!["ReadWriteOnce"@],
{
    let modes = vec!["ReadWriteOnce".to_owned()];
    assert(modes.deep_view() =~= seq!["ReadWriteOnce"@]);
    modes
}

/// A specification is accepted exactly when it asks only for what the operator renders.
pub proof fn law_validation_accepts_exactly_what_is_rendered(spec: ClusterSpecView)
    ensures
        violations(spec).len() == 0 <==> acceptable(spec),
{
    lemma_env_violations(spec.env);
}

proof fn lemma_env_violations(env: Seq<EnvVarView>)
    ensures
        env_violations(env).len() == 0 <==> (forall|i: int|
            0 <= i < env.len() ==> env_resolution(#[trigger] env[i]) is Ok),
    decreases env.len(),
{
    if env.len() > 0 {
        let front = env.drop_last();
        lemma_env_violations(front);
        if env_violations(env).len() == 0 {
            assert forall|i: int| 0 <= i < env.len() implies env_resolution(
                #[trigger] env[i],
            ) is Ok by {
                if i < front.len() {
                    assert(front[i] == env[i]);
                }
            }
        } else if forall|i: int| 0 <= i < env.len() ==> env_resolution(#[trigger] env[i]) is Ok {
            assert forall|i: int| 0 <= i < front.len() implies env_resolution(
                #[trigger] front[i],
            ) is Ok by {
                assert(front[i] == env[i]);
            }
            assert(env_resolution(env[env.len() - 1]) is Ok);
        }
    }
}

/// An empty manifest is accepted.
pub proof fn law_the_default_specification_is_accepted()
    ensures
        acceptable(default_spec()),
        violations(default_spec()).len() == 0,
{
    law_validation_accepts_exactly_what_is_rendered(default_spec());
}

/// The replica count and the anti-affinity that v0.3.0 persisted are rejected, and the
/// rejections carry the remediation that names v0.3.0.
pub proof fn law_legacy_cluster_defaults_are_rejected(spec: ClusterSpecView)
    ensures
        spec.replicas == upgrade::LEGACY_CLUSTER_REPLICAS ==> violations(spec).len() > 0
            && text::occurs(violations(spec)[0], upgrade::remedy_for("spec.replicas"@, true))
            && text::occurs(violations(spec)[0], "v0.3.0"@),
        spec.pod_anti_affinity == upgrade::LEGACY_POD_ANTI_AFFINITY ==> exists|i: int|
            0 <= i < violations(spec).len() && text::occurs(
                #[trigger] violations(spec)[i],
                upgrade::remedy_for("spec.podAntiAffinity"@, true),
            ) && text::occurs(violations(spec)[i], "v0.3.0"@),
{
    upgrade::law_legacy_values_are_blamed_on_the_upgrade(0);
    upgrade::law_legacy_values_are_blamed_on_the_upgrade(1);
    let first = "replicas="@ + text::decimal(spec.replicas as int) + REPLICAS_UNSUPPORTED@
        + text::decimal(spec.replicas as int) + REPLICAS_INDEPENDENT@;
    text::lemma_end_occurs(first, upgrade::remedy_for("spec.replicas"@, true));
    text::lemma_occurs_in_end(first, upgrade::remedy_for("spec.replicas"@, true), "v0.3.0"@);
    if spec.replicas == upgrade::LEGACY_CLUSTER_REPLICAS {
        assert(replica_violations(spec.replicas)[0] == violations(spec)[0]);
    }
    let remedy = upgrade::remedy_for("spec.podAntiAffinity"@, true);
    text::lemma_end_occurs(ANTI_AFFINITY_UNSUPPORTED@, remedy);
    text::lemma_occurs_in_end(ANTI_AFFINITY_UNSUPPORTED@, remedy, "v0.3.0"@);
    if spec.pod_anti_affinity {
        let before = replica_violations(spec.replicas) + port_violations(
            spec.kafka_port,
            spec.http_port,
            spec.raft_port,
        ) + env_violations(spec.env);
        let i = before.len() as int;
        assert(violations(spec)[i] == scheduling_violations(spec)[0]);
        assert(text::occurs(violations(spec)[i], remedy));
    }
}

/// Whatever the rest of the specification says, autoscaling that is enabled is rejected.
pub proof fn law_enabled_autoscaling_is_never_accepted(spec: ClusterSpecView)
    requires
        spec.autoscaling is Some,
        spec.autoscaling->0.enabled,
    ensures
        violations(spec).contains(AUTOSCALING_UNSUPPORTED@),
{
    let before = replica_violations(spec.replicas) + port_violations(
        spec.kafka_port,
        spec.http_port,
        spec.raft_port,
    ) + env_violations(spec.env) + scheduling_violations(spec);
    assert(violations(spec)[before.len() as int] == AUTOSCALING_UNSUPPORTED@);
}

/// An environment entry that is accepted renders to exactly one of a literal and a reference,
/// and a reference names a key of a named object.
pub proof fn law_accepted_entries_have_one_source(env: EnvVarView)
    requires
        env_resolution(env) is Ok,
    ensures
        !text::is_blank(env.name),
        env.value is Some <==> env_resolution(env)->Ok_0 is None,
        env.value_from is Some <==> env_resolution(env)->Ok_0 is Some,
        match env_resolution(env)->Ok_0 {
            None => true,
            Some(EnvVarRefView::Secret(secret)) => {
                &&& env.value_from->0.secret_key_ref == Some(secret)
                &&& env.value_from->0.config_map_key_ref is None
                &&& !text::is_blank(secret.name) && !text::is_blank(secret.key)
            },
            Some(EnvVarRefView::ConfigMap(config_map)) => {
                &&& env.value_from->0.config_map_key_ref == Some(config_map)
                &&& env.value_from->0.secret_key_ref is None
                &&& !text::is_blank(config_map.name) && !text::is_blank(config_map.key)
            },
        },
{
}

} // verus!
