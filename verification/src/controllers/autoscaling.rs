//! Auto-scaling for StreamlineCluster.
//!
//! Renders the HorizontalPodAutoscaler of a cluster and turns readings of its
//! partitions into scaling recommendations.

use crate::clock;
use crate::controllers::cluster;
use crate::controllers::cluster::ClusterController;
use crate::crd::cluster::{
    default_cpu_target, default_lag_threshold, default_max_replicas, default_memory_target,
    default_min_replicas, default_mps_threshold,
};
use crate::crd::{StreamlineCluster, StreamlineClusterView};
use crate::manifests::{
    CrossVersionObjectReference, CrossVersionObjectReferenceView, HorizontalPodAutoscaler,
    HorizontalPodAutoscalerBehavior, HorizontalPodAutoscalerBehaviorView,
    HorizontalPodAutoscalerSpec, HorizontalPodAutoscalerSpecView, HorizontalPodAutoscalerView,
    HpaScalingPolicy, HpaScalingPolicyView, HpaScalingRules, HpaScalingRulesView, MetricSource,
    MetricSourceView, MetricSpec, MetricSpecView, MetricTarget, MetricTargetView, ObjectMeta,
    ObjectMetaView,
};
use crate::objects;
use crate::objects::{KeyValue, KeyValueView};
use crate::text;
use vstd::prelude::*;
use vstd::string::*;

verus! {

/// Auto-scaling configuration for a StreamlineCluster
#[derive(Debug, PartialEq, Eq)]
pub struct AutoScalingConfig {
    /// Enable auto-scaling
    pub enabled: bool,
    /// Minimum number of replicas
    pub min_replicas: i32,
    /// Maximum number of replicas
    pub max_replicas: i32,
    /// Target CPU utilization percentage
    pub target_cpu_utilization: i32,
    /// Target memory utilization percentage
    pub target_memory_utilization: i32,
    /// Custom metrics for scaling
    pub custom_metrics: Vec<CustomMetric>,
    /// Scaling behavior configuration
    pub behavior: Option<ScalingBehavior>,
    /// Enable partition-aware scaling
    pub partition_aware: bool,
    /// Target consumer lag per partition
    pub target_lag_per_partition: i64,
    /// Target messages per second per broker
    pub target_messages_per_second: i64,
}

/// What a [`AutoScalingConfig`] holds, over characters and sequences.
#[verifier::ext_equal]
pub struct AutoScalingConfigView {
    pub enabled: bool,
    pub min_replicas: i32,
    pub max_replicas: i32,
    pub target_cpu_utilization: i32,
    pub target_memory_utilization: i32,
    pub custom_metrics: Seq<CustomMetricView>,
    pub behavior: Option<ScalingBehaviorView>,
    pub partition_aware: bool,
    pub target_lag_per_partition: i64,
    pub target_messages_per_second: i64,
}

impl DeepView for AutoScalingConfig {
    type V = AutoScalingConfigView;

    open spec fn deep_view(&self) -> AutoScalingConfigView {
        AutoScalingConfigView {
            enabled: self.enabled,
            min_replicas: self.min_replicas,
            max_replicas: self.max_replicas,
            target_cpu_utilization: self.target_cpu_utilization,
            target_memory_utilization: self.target_memory_utilization,
            custom_metrics: self.custom_metrics.deep_view(),
            behavior: self.behavior.deep_view(),
            partition_aware: self.partition_aware,
            target_lag_per_partition: self.target_lag_per_partition,
            target_messages_per_second: self.target_messages_per_second,
        }
    }
}

impl Clone for AutoScalingConfig {
    fn clone(&self) -> (copy: Self)
        ensures
            copy.deep_view() == self.deep_view(),
    {
        let copy = AutoScalingConfig {
            enabled: self.enabled,
            min_replicas: self.min_replicas,
            max_replicas: self.max_replicas,
            target_cpu_utilization: self.target_cpu_utilization,
            target_memory_utilization: self.target_memory_utilization,
            custom_metrics: self.custom_metrics.clone(),
            behavior: self.behavior.clone(),
            partition_aware: self.partition_aware,
            target_lag_per_partition: self.target_lag_per_partition,
            target_messages_per_second: self.target_messages_per_second,
        };
        assert(copy.custom_metrics.deep_view() =~= self.custom_metrics.deep_view());
        copy
    }
}

/// Custom metric for auto-scaling
#[derive(Debug, PartialEq, Eq)]
pub struct CustomMetric {
    /// Metric name
    pub name: String,
    /// Metric type (Pods, Object, External)
    pub metric_type: String,
    /// Target value or average value
    pub target: MetricTargetSpec,
}

/// What a [`CustomMetric`] holds, over characters and sequences.
#[verifier::ext_equal]
pub struct CustomMetricView {
    pub name: Seq<char>,
    pub metric_type: Seq<char>,
    pub target: MetricTargetSpecView,
}

impl DeepView for CustomMetric {
    type V = CustomMetricView;

    open spec fn deep_view(&self) -> CustomMetricView {
        CustomMetricView {
            name: self.name@,
            metric_type: self.metric_type@,
            target: self.target.deep_view(),
        }
    }
}

impl Clone for CustomMetric {
    fn clone(&self) -> (copy: Self)
        ensures
            copy.deep_view() == self.deep_view(),
    {
        CustomMetric {
            name: self.name.clone(),
            metric_type: self.metric_type.clone(),
            target: self.target.clone(),
        }
    }
}

/// Metric target specification
#[derive(Debug, PartialEq, Eq)]
pub struct MetricTargetSpec {
    /// Target type (Utilization, Value, AverageValue)
    pub type_: String,
    /// Target value (for Value and AverageValue types)
    pub value: Option<String>,
    /// Average value across pods
    pub average_value: Option<String>,
    /// Target utilization percentage (for Utilization type)
    pub average_utilization: Option<i32>,
}

/// What a [`MetricTargetSpec`] holds, over characters and sequences.
#[verifier::ext_equal]
pub struct MetricTargetSpecView {
    pub type_: Seq<char>,
    pub value: Option<Seq<char>>,
    pub average_value: Option<Seq<char>>,
    pub average_utilization: Option<i32>,
}

impl DeepView for MetricTargetSpec {
    type V = MetricTargetSpecView;

    open spec fn deep_view(&self) -> MetricTargetSpecView {
        MetricTargetSpecView {
            type_: self.type_@,
            value: self.value.deep_view(),
            average_value: self.average_value.deep_view(),
            average_utilization: self.average_utilization,
        }
    }
}

impl Clone for MetricTargetSpec {
    fn clone(&self) -> (copy: Self)
        ensures
            copy.deep_view() == self.deep_view(),
    {
        MetricTargetSpec {
            type_: self.type_.clone(),
            value: self.value.clone(),
            average_value: self.average_value.clone(),
            average_utilization: self.average_utilization,
        }
    }
}

/// Scaling behavior configuration
#[derive(Debug, PartialEq, Eq)]
pub struct ScalingBehavior {
    /// Scale-up behavior
    pub scale_up: Option<ScalingRules>,
    /// Scale-down behavior
    pub scale_down: Option<ScalingRules>,
}

/// What a [`ScalingBehavior`] holds, over characters and sequences.
#[verifier::ext_equal]
pub struct ScalingBehaviorView {
    pub scale_up: Option<ScalingRulesView>,
    pub scale_down: Option<ScalingRulesView>,
}

impl DeepView for ScalingBehavior {
    type V = ScalingBehaviorView;

    open spec fn deep_view(&self) -> ScalingBehaviorView {
        ScalingBehaviorView {
            scale_up: self.scale_up.deep_view(),
            scale_down: self.scale_down.deep_view(),
        }
    }
}

impl Clone for ScalingBehavior {
    fn clone(&self) -> (copy: Self)
        ensures
            copy.deep_view() == self.deep_view(),
    {
        ScalingBehavior {
            scale_up: self.scale_up.clone(),
            scale_down: self.scale_down.clone(),
        }
    }
}

/// Scaling rules for up/down behavior
#[derive(Debug, PartialEq, Eq)]
pub struct ScalingRules {
    /// Stabilization window in seconds
    pub stabilization_window_seconds: Option<i32>,
    /// Select policy (Max, Min, Disabled)
    pub select_policy: Option<String>,
    /// Scaling policies
    pub policies: Vec<ScalingPolicy>,
}

/// What a [`ScalingRules`] holds, over characters and sequences.
#[verifier::ext_equal]
pub struct ScalingRulesView {
    pub stabilization_window_seconds: Option<i32>,
    pub select_policy: Option<Seq<char>>,
    pub policies: Seq<ScalingPolicyView>,
}

impl DeepView for ScalingRules {
    type V = ScalingRulesView;

    open spec fn deep_view(&self) -> ScalingRulesView {
        ScalingRulesView {
            stabilization_window_seconds: self.stabilization_window_seconds,
            select_policy: self.select_policy.deep_view(),
            policies: self.policies.deep_view(),
        }
    }
}

impl Clone for ScalingRules {
    fn clone(&self) -> (copy: Self)
        ensures
            copy.deep_view() == self.deep_view(),
    {
        let copy = ScalingRules {
            stabilization_window_seconds: self.stabilization_window_seconds,
            select_policy: self.select_policy.clone(),
            policies: self.policies.clone(),
        };
        assert(copy.policies.deep_view() =~= self.policies.deep_view());
        copy
    }
}

/// Individual scaling policy
#[derive(Debug, PartialEq, Eq)]
pub struct ScalingPolicy {
    /// Policy type (Pods, Percent)
    pub type_: String,
    /// Value for the policy
    pub value: i32,
    /// Period in seconds
    pub period_seconds: i32,
}

/// What a [`ScalingPolicy`] holds, over characters and sequences.
#[verifier::ext_equal]
pub struct ScalingPolicyView {
    pub type_: Seq<char>,
    pub value: i32,
    pub period_seconds: i32,
}

impl DeepView for ScalingPolicy {
    type V = ScalingPolicyView;

    open spec fn deep_view(&self) -> ScalingPolicyView {
        ScalingPolicyView {
            type_: self.type_@,
            value: self.value,
            period_seconds: self.period_seconds,
        }
    }
}

impl Clone for ScalingPolicy {
    fn clone(&self) -> (copy: Self)
        ensures
            copy.deep_view() == self.deep_view(),
    {
        ScalingPolicy {
            type_: self.type_.clone(),
            value: self.value,
            period_seconds: self.period_seconds,
        }
    }
}

/// Scaling recommendation from the auto-scaler
#[derive(Debug, PartialEq, Eq)]
pub struct ScalingRecommendation {
    /// Recommended replica count
    pub recommended_replicas: i32,
    /// Current replica count
    pub current_replicas: i32,
    /// Reason for the recommendation
    pub reason: String,
    /// Confidence score (0-100)
    pub confidence: i32,
    /// Metrics that triggered the recommendation
    pub triggering_metrics: Vec<String>,
    /// Timestamp of the recommendation
    pub timestamp: String,
}

/// What a [`ScalingRecommendation`] holds, over characters and sequences.
#[verifier::ext_equal]
pub struct ScalingRecommendationView {
    pub recommended_replicas: i32,
    pub current_replicas: i32,
    pub reason: Seq<char>,
    pub confidence: i32,
    pub triggering_metrics: Seq<Seq<char>>,
    pub timestamp: Seq<char>,
}

impl DeepView for ScalingRecommendation {
    type V = ScalingRecommendationView;

    open spec fn deep_view(&self) -> ScalingRecommendationView {
        ScalingRecommendationView {
            recommended_replicas: self.recommended_replicas,
            current_replicas: self.current_replicas,
            reason: self.reason@,
            confidence: self.confidence,
            triggering_metrics: self.triggering_metrics.deep_view(),
            timestamp: self.timestamp@,
        }
    }
}

impl Clone for ScalingRecommendation {
    fn clone(&self) -> (copy: Self)
        ensures
            copy.deep_view() == self.deep_view(),
    {
        let copy = ScalingRecommendation {
            recommended_replicas: self.recommended_replicas,
            current_replicas: self.current_replicas,
            reason: self.reason.clone(),
            confidence: self.confidence,
            triggering_metrics: self.triggering_metrics.clone(),
            timestamp: self.timestamp.clone(),
        };
        assert(copy.triggering_metrics.deep_view() =~= self.triggering_metrics.deep_view());
        copy
    }
}

/// Partition-aware scaling metrics
#[derive(Debug, PartialEq, Eq)]
pub struct PartitionMetrics {
    /// Total number of partitions
    pub total_partitions: i32,
    /// Total consumer lag across all partitions
    pub total_lag: i64,
    /// Maximum lag for any single partition
    pub max_partition_lag: i64,
    /// Number of under-replicated partitions
    pub under_replicated_partitions: i32,
    /// The total lag over the lag that all partitions together may have, rounded up
    pub lag_quotient: i32,
    /// The message rate, if there is any
    pub throughput: Option<ThroughputReading>,
}

/// What a [`PartitionMetrics`] holds, over characters and sequences.
#[verifier::ext_equal]
pub struct PartitionMetricsView {
    pub total_partitions: i32,
    pub total_lag: i64,
    pub max_partition_lag: i64,
    pub under_replicated_partitions: i32,
    pub lag_quotient: i32,
    pub throughput: Option<ThroughputReadingView>,
}

impl DeepView for PartitionMetrics {
    type V = PartitionMetricsView;

    open spec fn deep_view(&self) -> PartitionMetricsView {
        PartitionMetricsView {
            total_partitions: self.total_partitions,
            total_lag: self.total_lag,
            max_partition_lag: self.max_partition_lag,
            under_replicated_partitions: self.under_replicated_partitions,
            lag_quotient: self.lag_quotient,
            throughput: self.throughput.deep_view(),
        }
    }
}

impl Clone for PartitionMetrics {
    fn clone(&self) -> (copy: Self)
        ensures
            copy.deep_view() == self.deep_view(),
    {
        PartitionMetrics {
            total_partitions: self.total_partitions,
            total_lag: self.total_lag,
            max_partition_lag: self.max_partition_lag,
            under_replicated_partitions: self.under_replicated_partitions,
            lag_quotient: self.lag_quotient,
            throughput: self.throughput.clone(),
        }
    }
}

/// What the message rate of a cluster amounts to.
#[derive(Debug, PartialEq, Eq)]
pub struct ThroughputReading {
    /// Whether the rate per broker is above one and a half times its target
    pub overloaded: bool,
    /// The rate over the target per broker, rounded up
    pub needed: i32,
    /// The rate per broker, rounded to a whole number
    pub per_broker: String,
    /// The target rate per broker
    pub target: String,
}

/// What a [`ThroughputReading`] holds, over characters and sequences.
#[verifier::ext_equal]
pub struct ThroughputReadingView {
    pub overloaded: bool,
    pub needed: i32,
    pub per_broker: Seq<char>,
    pub target: Seq<char>,
}

impl DeepView for ThroughputReading {
    type V = ThroughputReadingView;

    open spec fn deep_view(&self) -> ThroughputReadingView {
        ThroughputReadingView {
            overloaded: self.overloaded,
            needed: self.needed,
            per_broker: self.per_broker@,
            target: self.target@,
        }
    }
}

impl Clone for ThroughputReading {
    fn clone(&self) -> (copy: Self)
        ensures
            copy.deep_view() == self.deep_view(),
    {
        ThroughputReading {
            overloaded: self.overloaded,
            needed: self.needed,
            per_broker: self.per_broker.clone(),
            target: self.target.clone(),
        }
    }
}

/// What is done about the HorizontalPodAutoscaler of a cluster.
#[derive(Clone, Copy, Debug, PartialEq, Eq, Structural)]
pub enum HpaAction {
    /// Create or update it
    Apply,
    /// Delete whatever there is of it
    Delete,
}

impl DeepView for HpaAction {
    type V = Self;

    open spec fn deep_view(&self) -> Self {
        *self
    }
}

/// What came of deleting a HorizontalPodAutoscaler.
#[derive(Clone, Copy, Debug, PartialEq, Eq, Structural)]
pub enum DeleteOutcome {
    /// It was deleted
    Deleted,
    /// There was none
    AlreadyAbsent,
    /// The API server refused; the next reconcile tries again
    Failed,
}

impl DeepView for DeleteOutcome {
    type V = Self;

    open spec fn deep_view(&self) -> Self {
        *self
    }
}

/// Auto-scaling controller for StreamlineCluster resources
#[derive(Clone, Copy, Debug)]
pub struct AutoScalingController;

/// The configuration that has every number at zero.
pub open spec fn zero_config() -> AutoScalingConfigView {
    AutoScalingConfigView {
        enabled: false,
        min_replicas: 0,
        max_replicas: 0,
        target_cpu_utilization: 0,
        target_memory_utilization: 0,
        custom_metrics: Seq::empty(),
        behavior: None,
        partition_aware: false,
        target_lag_per_partition: 0,
        target_messages_per_second: 0,
    }
}

/// The configuration of an empty autoscaling document.
pub open spec fn schema_config() -> AutoScalingConfigView {
    AutoScalingConfigView {
        enabled: false,
        min_replicas: 1,
        max_replicas: 10,
        target_cpu_utilization: 70,
        target_memory_utilization: 80,
        custom_metrics: Seq::empty(),
        behavior: None,
        partition_aware: false,
        target_lag_per_partition: 10000,
        target_messages_per_second: 100000,
    }
}

/// The name of the autoscaler of a cluster.
pub open spec fn hpa_name(cluster: StreamlineClusterView) -> Seq<char> {
    cluster.metadata.name + "-hpa"@
}

/// The labels of the autoscaler of a cluster, in key order.
pub open spec fn hpa_labels(cluster: StreamlineClusterView) -> Seq<KeyValueView> {
    seq![
        KeyValueView { key: "app.kubernetes.io/component"@, value: "autoscaling"@ },
        KeyValueView { key: "app.kubernetes.io/instance"@, value: cluster.metadata.name },
        KeyValueView { key: "app.kubernetes.io/managed-by"@, value: "streamline-operator"@ },
        KeyValueView { key: "app.kubernetes.io/name"@, value: "streamline"@ },
    ]
}

/// A metric on the utilization of a resource.
pub open spec fn utilization_metric(resource: Seq<char>, percent: i32) -> MetricSpecView {
    MetricSpecView {
        type_: "Resource"@,
        resource: Some(
            MetricSourceView {
                name: resource,
                target: MetricTargetView {
                    type_: "Utilization"@,
                    value: None,
                    average_value: None,
                    average_utilization: Some(percent),
                },
            },
        ),
        pods: None,
        external: None,
    }
}

/// A metric on the average of a value over the pods.
pub open spec fn pods_average_metric(name: Seq<char>, average: int) -> MetricSpecView {
    MetricSpecView {
        type_: "Pods"@,
        resource: None,
        pods: Some(
            MetricSourceView {
                name,
                target: MetricTargetView {
                    type_: "AverageValue"@,
                    value: None,
                    average_value: Some(text::decimal(average)),
                    average_utilization: None,
                },
            },
        ),
        external: None,
    }
}

/// The target that a metric target specification asks for.
pub open spec fn metric_target(target: MetricTargetSpecView) -> MetricTargetView {
    MetricTargetView {
        type_: target.type_,
        value: target.value,
        average_value: target.average_value,
        average_utilization: target.average_utilization,
    }
}

/// A custom metric: external if it says so, per pod otherwise.
pub open spec fn custom_metric(custom: CustomMetricView) -> MetricSpecView {
    let source = MetricSourceView { name: custom.name, target: metric_target(custom.target) };
    if custom.metric_type == "External"@ {
        MetricSpecView {
            type_: "External"@,
            resource: None,
            pods: None,
            external: Some(source),
        }
    } else {
        MetricSpecView { type_: "Pods"@, resource: None, pods: Some(source), external: None }
    }
}

/// The metrics of the autoscaler: CPU, memory, the custom ones, and those on partitions.
pub open spec fn hpa_metrics(config: AutoScalingConfigView) -> Seq<MetricSpecView> {
    seq![
        utilization_metric("cpu"@, config.target_cpu_utilization),
        utilization_metric("memory"@, config.target_memory_utilization),
    ] + config.custom_metrics.map_values(|custom: CustomMetricView| custom_metric(custom))
        + if config.partition_aware {
        seq![
            pods_average_metric(
                "streamline_consumer_lag"@,
                config.target_lag_per_partition as int,
            ),
            pods_average_metric(
                "streamline_messages_per_second"@,
                config.target_messages_per_second as int,
            ),
        ]
    } else {
        Seq::empty()
    }
}

/// A scaling policy as the autoscaler takes it.
pub open spec fn hpa_policy(policy: ScalingPolicyView) -> HpaScalingPolicyView {
    HpaScalingPolicyView {
        type_: policy.type_,
        value: policy.value,
        period_seconds: policy.period_seconds,
    }
}

/// Scaling rules as the autoscaler takes them; an empty list of policies is left out.
pub open spec fn hpa_rules(rules: ScalingRulesView) -> HpaScalingRulesView {
    HpaScalingRulesView {
        stabilization_window_seconds: rules.stabilization_window_seconds,
        select_policy: rules.select_policy,
        policies: if rules.policies.len() == 0 {
            None
        } else {
            Some(rules.policies.map_values(|policy: ScalingPolicyView| hpa_policy(policy)))
        },
    }
}

/// Optional scaling rules as the autoscaler takes them.
pub open spec fn optional_hpa_rules(rules: Option<ScalingRulesView>) -> Option<HpaScalingRulesView> {
    match rules {
        Some(rules) => Some(hpa_rules(rules)),
        None => None,
    }
}

/// Scaling behavior as the autoscaler takes it.
pub open spec fn hpa_behavior(behavior: ScalingBehaviorView) -> HorizontalPodAutoscalerBehaviorView {
    HorizontalPodAutoscalerBehaviorView {
        scale_up: optional_hpa_rules(behavior.scale_up),
        scale_down: optional_hpa_rules(behavior.scale_down),
    }
}

/// The autoscaler of a cluster.
pub open spec fn hpa(
    cluster: StreamlineClusterView,
    namespace: Seq<char>,
    config: AutoScalingConfigView,
) -> HorizontalPodAutoscalerView {
    HorizontalPodAutoscalerView {
        metadata: ObjectMetaView {
            name: Some(hpa_name(cluster)),
            namespace: Some(namespace),
            labels: Some(hpa_labels(cluster)),
            owner_references: Some(seq![cluster::owned_by(cluster)]),
        },
        spec: Some(
            HorizontalPodAutoscalerSpecView {
                scale_target_ref: CrossVersionObjectReferenceView {
                    api_version: Some("apps/v1"@),
                    kind: "StatefulSet"@,
                    name: cluster.metadata.name,
                },
                min_replicas: Some(config.min_replicas),
                max_replicas: config.max_replicas,
                metrics: Some(hpa_metrics(config)),
                behavior: match config.behavior {
                    Some(behavior) => Some(hpa_behavior(behavior)),
                    None => None,
                },
            },
        ),
    }
}

/// Division that rounds toward zero.
pub open spec fn truncated_quotient(a: int, b: int) -> int {
    let magnitude = (if a < 0 {
        -a
    } else {
        a
    }) / (if b < 0 {
        -b
    } else {
        b
    });
    if (a < 0) == (b < 0) {
        magnitude
    } else {
        -magnitude
    }
}

/// The larger of two numbers.
pub open spec fn larger(a: int, b: int) -> int {
    if a >= b {
        a
    } else {
        b
    }
}

/// `replicas`, raised to the lower bound and then lowered to the upper bound.
pub open spec fn bounded(replicas: i32, min: i32, max: i32) -> i32 {
    let raised = if replicas >= min {
        replicas
    } else {
        min
    };
    if raised <= max {
        raised
    } else {
        max
    }
}

/// The advice that the signals so far amount to.
#[verifier::ext_equal]
pub struct Advice {
    /// The replica count that is advised.
    pub replicas: i32,
    /// A reason for each signal that counted.
    pub reasons: Seq<Seq<char>>,
    /// The metric of each signal that counted.
    pub triggers: Seq<Seq<char>>,
}

impl Advice {
    /// The advice after a signal that asks for `wanted` replicas has counted.
    pub open spec fn changed_to(self, wanted: i32, reason: Seq<char>, trigger: Seq<char>) -> Advice {
        Advice {
            replicas: wanted,
            reasons: self.reasons.push(reason),
            triggers: self.triggers.push(trigger),
        }
    }
}

/// The lag that one broker carries.
pub open spec fn lag_per_broker(metrics: PartitionMetricsView, replicas: i32) -> int {
    truncated_quotient(metrics.total_lag as int, replicas as int)
}

/// The lag that all partitions together may have.
pub open spec fn target_lag(metrics: PartitionMetricsView, config: AutoScalingConfigView) -> int {
    config.target_lag_per_partition * metrics.total_partitions
}

/// The replica count that a high lag asks for.
pub open spec fn high_lag_replicas(
    metrics: PartitionMetricsView,
    config: AutoScalingConfigView,
) -> i32 {
    (larger(
        truncated_quotient(metrics.total_lag as int, target_lag(metrics, config)),
        1,
    ) as i64) as i32
}

/// The advice on consumer lag alone, starting from the current replica count.
///
/// A lag per broker above twice its target raises the count, and one below a quarter of it
/// lowers the count, as long as it is above the lower bound.
pub open spec fn lag_advice(
    metrics: PartitionMetricsView,
    config: AutoScalingConfigView,
    replicas: i32,
) -> Advice {
    let start = Advice { replicas, reasons: Seq::empty(), triggers: Seq::empty() };
    let target = config.target_lag_per_partition;
    if !config.partition_aware || metrics.total_lag <= 0 {
        start
    } else if lag_per_broker(metrics, replicas) > target * 2 {
        let wanted = high_lag_replicas(metrics, config);
        if wanted > replicas {
            start.changed_to(
                wanted,
                "High consumer lag: "@ + text::decimal(metrics.total_lag as int) + ". Target: "@
                    + text::decimal(target_lag(metrics, config)),
                "consumer_lag"@,
            )
        } else {
            start
        }
    } else if lag_per_broker(metrics, replicas) < truncated_quotient(target as int, 4) && replicas
        > config.min_replicas {
        let wanted = larger(metrics.lag_quotient as int, 1) as i32;
        if wanted < replicas {
            start.changed_to(
                wanted,
                "Low consumer lag: "@ + text::decimal(metrics.total_lag as int) + ". Target: "@
                    + text::decimal(target_lag(metrics, config)),
                "consumer_lag"@,
            )
        } else {
            start
        }
    } else {
        start
    }
}

/// The advice once the message rate has counted too.
pub open spec fn throughput_advice(advice: Advice, throughput: Option<ThroughputReadingView>) -> Advice {
    match throughput {
        Some(reading) => if reading.overloaded && reading.needed > advice.replicas {
            advice.changed_to(
                reading.needed,
                "High throughput: "@ + reading.per_broker + " msg/s per broker. Target: "@
                    + reading.target,
                "messages_per_second"@,
            )
        } else {
            advice
        },
        None => advice,
    }
}

/// The advice once the number of partitions has counted too: a broker per hundred partitions.
pub open spec fn partition_advice(advice: Advice, partitions: i32, replicas: i32) -> Advice {
    let wanted = larger(partitions as int / 100, 1);
    if partitions > 0 && wanted > advice.replicas {
        advice.changed_to(
            wanted as i32,
            "High partition count: "@ + text::decimal(partitions as int) + ". "@ + text::decimal(
                truncated_quotient(partitions as int, replicas as int),
            ) + " partitions per broker"@,
            "partition_count"@,
        )
    } else {
        advice
    }
}

/// The advice that all signals together amount to.
pub open spec fn advice(
    metrics: PartitionMetricsView,
    config: AutoScalingConfigView,
    replicas: i32,
) -> Advice {
    partition_advice(
        throughput_advice(lag_advice(metrics, config, replicas), metrics.throughput),
        metrics.total_partitions,
        replicas,
    )
}

/// The recommendation for a cluster with `replicas` brokers.
pub open spec fn recommendation(
    metrics: PartitionMetricsView,
    config: AutoScalingConfigView,
    replicas: i32,
    now: Seq<char>,
) -> ScalingRecommendationView {
    let advice = advice(metrics, config, replicas);
    ScalingRecommendationView {
        recommended_replicas: bounded(advice.replicas, config.min_replicas, config.max_replicas),
        current_replicas: replicas,
        reason: if advice.reasons.len() == 0 {
            "No scaling needed"@
        } else {
            text::joined(advice.reasons, "; "@)
        },
        confidence: if advice.triggers.len() == 0 {
            50
        } else if advice.triggers.len() == 1 {
            70
        } else {
            90
        },
        triggering_metrics: advice.triggers,
        timestamp: now,
    }
}

/// Whether the recommendation can be computed: no division by zero and no overflow.
pub open spec fn computable(
    metrics: PartitionMetricsView,
    config: AutoScalingConfigView,
    replicas: i32,
) -> bool {
    let lag = config.partition_aware && metrics.total_lag > 0;
    &&& lag || metrics.total_partitions > 0 ==> replicas != 0
    &&& lag ==> i64::MIN <= target_lag(metrics, config) <= i64::MAX
    &&& lag ==> i64::MIN <= config.target_lag_per_partition * 2 <= i64::MAX
    &&& lag && lag_per_broker(metrics, replicas) > config.target_lag_per_partition * 2
        ==> target_lag(metrics, config) != 0
}

impl AutoScalingConfig {
    /// The configuration of an empty autoscaling document.
    pub fn schema_default() -> (config: Self)
        ensures
            config.deep_view() == schema_config(),
    {
        let config = AutoScalingConfig {
            enabled: false,
            min_replicas: default_min_replicas(),
            max_replicas: default_max_replicas(),
            target_cpu_utilization: default_cpu_target(),
            target_memory_utilization: default_memory_target(),
            custom_metrics: Vec::new(),
            behavior: None,
            partition_aware: false,
            target_lag_per_partition: default_lag_threshold(),
            target_messages_per_second: default_mps_threshold(),
        };
        assert(config.custom_metrics.deep_view() =~= Seq::empty());
        config
    }
}

impl Default for AutoScalingConfig {
    fn default() -> (config: Self)
        ensures
            config.deep_view() == zero_config(),
    {
        let config = AutoScalingConfig {
            enabled: false,
            min_replicas: 0,
            max_replicas: 0,
            target_cpu_utilization: 0,
            target_memory_utilization: 0,
            custom_metrics: Vec::new(),
            behavior: None,
            partition_aware: false,
            target_lag_per_partition: 0,
            target_messages_per_second: 0,
        };
        assert(config.custom_metrics.deep_view() =~= Seq::empty());
        config
    }
}

/// Metric type of a custom metric that does not set one.
pub fn default_metric_type() -> (metric_type: String)
    ensures
        metric_type@ == "Pods"@,
{
    "Pods".to_owned()
}

/// Target type of a metric target that does not set one.
pub fn default_target_type() -> (target_type: String)
    ensures
        target_type@ == "AverageValue"@,
{
    "AverageValue".to_owned()
}

/// What is done about the autoscaler: only an enabled configuration applies one.
pub fn hpa_action(config: &AutoScalingConfig) -> (action: HpaAction)
    ensures
        action == if config.enabled {
            HpaAction::Apply
        } else {
            HpaAction::Delete
        },
{
    if config.enabled {
        HpaAction::Apply
    } else {
        HpaAction::Delete
    }
}

/// What came of a delete request: success, an error of the API with a status code, or another
/// error. An object that is not found is gone already.
pub fn delete_outcome(result: core::result::Result<(), Option<u16>>) -> (outcome: DeleteOutcome)
    ensures
        outcome == match result {
            Ok(()) => DeleteOutcome::Deleted,
            Err(Some(code)) => if code == 404 {
                DeleteOutcome::AlreadyAbsent
            } else {
                DeleteOutcome::Failed
            },
            Err(None) => DeleteOutcome::Failed,
        },
{
    match result {
        Ok(()) => DeleteOutcome::Deleted,
        Err(Some(code)) => if code == 404 {
            DeleteOutcome::AlreadyAbsent
        } else {
            DeleteOutcome::Failed
        },
        Err(None) => DeleteOutcome::Failed,
    }
}

fn text_metric(name: &str, average: i64) -> (metric: MetricSpec)
    ensures
        metric.deep_view() == pods_average_metric(name@, average as int),
{
    MetricSpec {
        type_: "Pods".to_owned(),
        resource: None,
        pods: Some(
            MetricSource {
                name: name.to_owned(),
                target: MetricTarget {
                    type_: "AverageValue".to_owned(),
                    value: None,
                    average_value: Some(text::i64_text(average)),
                    average_utilization: None,
                },
            },
        ),
        external: None,
    }
}

fn resource_metric(resource: &str, percent: i32) -> (metric: MetricSpec)
    ensures
        metric.deep_view() == utilization_metric(resource@, percent),
{
    MetricSpec {
        type_: "Resource".to_owned(),
        resource: Some(
            MetricSource {
                name: resource.to_owned(),
                target: MetricTarget {
                    type_: "Utilization".to_owned(),
                    value: None,
                    average_value: None,
                    average_utilization: Some(percent),
                },
            },
        ),
        pods: None,
        external: None,
    }
}

/// Division that rounds toward zero.
fn divide(a: i64, b: i64) -> (quotient: i64)
    requires
        b != 0,
        a > i64::MIN || b != -1,
    ensures
        quotient == truncated_quotient(a as int, b as int),
{
    let dividend: i128 = if a < 0 {
        -(a as i128)
    } else {
        a as i128
    };
    let divisor: i128 = if b < 0 {
        -(b as i128)
    } else {
        b as i128
    };
    let magnitude: i128 = dividend / divisor;
    assert(0 <= magnitude <= dividend && (divisor >= 2 ==> magnitude * 2 <= dividend)) by (
    nonlinear_arith)
        requires
            dividend >= 0,
            divisor >= 1,
            magnitude == dividend / divisor,
    ;
    if (a < 0) == (b < 0) {
        magnitude as i64
    } else {
        (-magnitude) as i64
    }
}

impl AutoScalingController {
    /// Build an HPA resource from the cluster spec
    pub fn build_hpa(
        cluster: &StreamlineCluster,
        namespace: &str,
        autoscaling: &AutoScalingConfig,
    ) -> (rendered: HorizontalPodAutoscaler)
        ensures
            rendered.deep_view() == hpa(
                cluster.deep_view(),
                namespace@,
                autoscaling.deep_view(),
            ),
    {
        let metrics = Self::build_metrics(autoscaling);
        let behavior = match &autoscaling.behavior {
            Some(behavior) => Some(Self::build_behavior(behavior)),
            None => None,
        };
        let owner_references = vec![ClusterController::owner_reference(cluster)];
        assert(owner_references.deep_view() =~= seq![cluster::owned_by(cluster.deep_view())]);
        HorizontalPodAutoscaler {
            metadata: ObjectMeta {
                name: Some(cluster.metadata.name.clone().concat("-hpa")),
                namespace: Some(namespace.to_owned()),
                labels: Some(Self::common_labels(cluster)),
                owner_references: Some(owner_references),
            },
            spec: Some(
                HorizontalPodAutoscalerSpec {
                    scale_target_ref: CrossVersionObjectReference {
                        api_version: Some("apps/v1".to_owned()),
                        kind: "StatefulSet".to_owned(),
                        name: cluster.metadata.name.clone(),
                    },
                    min_replicas: Some(autoscaling.min_replicas),
                    max_replicas: autoscaling.max_replicas,
                    metrics: Some(metrics),
                    behavior,
                },
            ),
        }
    }

    fn build_metrics(autoscaling: &AutoScalingConfig) -> (metrics: Vec<MetricSpec>)
        ensures
            metrics.deep_view() == hpa_metrics(autoscaling.deep_view()),
    {
        let ghost config = autoscaling.deep_view();
        let ghost base = seq![
            utilization_metric("cpu"@, config.target_cpu_utilization),
            utilization_metric("memory"@, config.target_memory_utilization),
        ];
        let ghost custom = config.custom_metrics.map_values(
            |custom: CustomMetricView| custom_metric(custom),
        );
        let mut metrics = vec![
            resource_metric("cpu", autoscaling.target_cpu_utilization),
            resource_metric("memory", autoscaling.target_memory_utilization),
        ];
        assert(metrics.deep_view() =~= base + custom.subrange(0, 0));
        let mut i: usize = 0;
        while i < autoscaling.custom_metrics.len()
            invariant
                i <= autoscaling.custom_metrics.len(),
                config == autoscaling.deep_view(),
                custom == config.custom_metrics.map_values(
                    |custom: CustomMetricView| custom_metric(custom),
                ),
                metrics.deep_view() == base + custom.subrange(0, i as int),
            decreases autoscaling.custom_metrics.len() - i,
        {
            let ghost before = metrics.deep_view();
            metrics.push(Self::build_custom_metric(&autoscaling.custom_metrics[i]));
            assert(metrics.deep_view() =~= before.push(custom[i as int]));
            assert(before.push(custom[i as int]) =~= base + custom.subrange(0, i + 1));
            i = i + 1;
        }
        assert(custom.subrange(0, i as int) =~= custom);
        if autoscaling.partition_aware {
            let ghost before = metrics.deep_view();
            metrics.push(
                text_metric("streamline_consumer_lag", autoscaling.target_lag_per_partition),
            );
            metrics.push(
                text_metric(
                    "streamline_messages_per_second",
                    autoscaling.target_messages_per_second,
                ),
            );
        }
        assert(metrics.deep_view() =~= hpa_metrics(config));
        metrics
    }

    /// Build a custom metric specification
    pub fn build_custom_metric(custom: &CustomMetric) -> (metric: MetricSpec)
        ensures
            metric.deep_view() == custom_metric(custom.deep_view()),
    {
        let source = MetricSource {
            name: custom.name.clone(),
            target: Self::build_metric_target(&custom.target),
        };
        if text::text_eq(custom.metric_type.as_str(), "External") {
            MetricSpec {
                type_: "External".to_owned(),
                resource: None,
                pods: None,
                external: Some(source),
            }
        } else {
            MetricSpec {
                type_: "Pods".to_owned(),
                resource: None,
                pods: Some(source),
                external: None,
            }
        }
    }

    /// Build a metric target
    pub fn build_metric_target(target: &MetricTargetSpec) -> (built: MetricTarget)
        ensures
            built.deep_view() == metric_target(target.deep_view()),
    {
        MetricTarget {
            type_: target.type_.clone(),
            value: target.value.clone(),
            average_value: target.average_value.clone(),
            average_utilization: target.average_utilization,
        }
    }

    /// Build HPA scaling behavior
    pub fn build_behavior(behavior: &ScalingBehavior) -> (built: HorizontalPodAutoscalerBehavior)
        ensures
            built.deep_view() == hpa_behavior(behavior.deep_view()),
    {
        HorizontalPodAutoscalerBehavior {
            scale_up: match &behavior.scale_up {
                Some(rules) => Some(Self::build_scaling_rules(rules)),
                None => None,
            },
            scale_down: match &behavior.scale_down {
                Some(rules) => Some(Self::build_scaling_rules(rules)),
                None => None,
            },
        }
    }

    /// Build scaling rules
    pub fn build_scaling_rules(rules: &ScalingRules) -> (built: HpaScalingRules)
        ensures
            built.deep_view() == hpa_rules(rules.deep_view()),
    {
        let ghost all = rules.policies.deep_view().map_values(
            |policy: ScalingPolicyView| hpa_policy(policy),
        );
        let mut policies: Vec<HpaScalingPolicy> = Vec::new();
        let mut i: usize = 0;
        assert(policies.deep_view() =~= all.subrange(0, 0));
        while i < rules.policies.len()
            invariant
                i <= rules.policies.len(),
                all == rules.policies.deep_view().map_values(
                    |policy: ScalingPolicyView| hpa_policy(policy),
                ),
                policies.deep_view() == all.subrange(0, i as int),
            decreases rules.policies.len() - i,
        {
            let ghost before = policies.deep_view();
            let policy = &rules.policies[i];
            policies.push(
                HpaScalingPolicy {
                    type_: policy.type_.clone(),
                    value: policy.value,
                    period_seconds: policy.period_seconds,
                },
            );
            assert(policies.deep_view() =~= before.push(all[i as int]));
            assert(before.push(all[i as int]) =~= all.subrange(0, i + 1));
            i = i + 1;
        }
        assert(all.subrange(0, i as int) =~= all);
        assert(rules.policies.deep_view().len() == rules.policies.len());
        HpaScalingRules {
            stabilization_window_seconds: rules.stabilization_window_seconds,
            select_policy: rules.select_policy.clone(),
            policies: if rules.policies.is_empty() {
                None
            } else {
                Some(policies)
            },
        }
    }

    /// Whether a recommendation can be computed: no division by zero and no overflow.
    pub fn can_recommend(
        replicas: i32,
        metrics: &PartitionMetrics,
        autoscaling: &AutoScalingConfig,
    ) -> (possible: bool)
        ensures
            possible == computable(metrics.deep_view(), autoscaling.deep_view(), replicas),
    {
        let lag = autoscaling.partition_aware && metrics.total_lag > 0;
        if (lag || metrics.total_partitions > 0) && replicas == 0 {
            return false;
        }
        if !lag {
            return true;
        }
        let per_partition: i128 = autoscaling.target_lag_per_partition as i128;
        let partitions: i128 = metrics.total_partitions as i128;
        assert(-0x8000_0000_0000_0000_0000_0000 <= per_partition * partitions
            <= 0x8000_0000_0000_0000_0000_0000) by (nonlinear_arith)
            requires
                -0x8000_0000_0000_0000 <= per_partition <= 0x7fff_ffff_ffff_ffff,
                -0x8000_0000 <= partitions <= 0x7fff_ffff,
        ;
        let target: i128 = per_partition * partitions;
        let doubled: i128 = per_partition * 2;
        target >= i64::MIN as i128 && target <= i64::MAX as i128 && doubled >= i64::MIN as i128
            && doubled <= i64::MAX as i128 && (divide(
            metrics.total_lag,
            replicas as i64,
        ) as i128 <= doubled || target != 0)
    }

    /// Generate scaling recommendation based on metrics
    pub fn generate_recommendation(
        cluster: &StreamlineCluster,
        metrics: &PartitionMetrics,
        autoscaling: &AutoScalingConfig,
    ) -> (advised: ScalingRecommendation)
        requires
            computable(metrics.deep_view(), autoscaling.deep_view(), cluster.spec.replicas),
        ensures
            exists|now: Seq<char>|
                clock::is_stamp(now) && advised.deep_view() == #[trigger] recommendation(
                    metrics.deep_view(),
                    autoscaling.deep_view(),
                    cluster.spec.replicas,
                    now,
                ),
    {
        Self::recommendation_at(
            cluster.spec.replicas,
            metrics,
            autoscaling,
            clock::now_rfc3339().as_str(),
        )
    }

    /// The scaling recommendation for `replicas` brokers, stamped `now`.
    pub fn recommendation_at(
        replicas: i32,
        metrics: &PartitionMetrics,
        autoscaling: &AutoScalingConfig,
        now: &str,
    ) -> (advised: ScalingRecommendation)
        requires
            computable(metrics.deep_view(), autoscaling.deep_view(), replicas),
        ensures
            advised.deep_view() == recommendation(
                metrics.deep_view(),
                autoscaling.deep_view(),
                replicas,
                now@,
            ),
    {
        let ghost m = metrics.deep_view();
        let ghost config = autoscaling.deep_view();
        let mut recommended: i32 = replicas;
        let mut reasons: Vec<String> = Vec::new();
        let mut triggering: Vec<String> = Vec::new();
        assert(reasons.deep_view() =~= Seq::empty());
        assert(triggering.deep_view() =~= Seq::empty());

        // Lag-based scaling
        if autoscaling.partition_aware && metrics.total_lag > 0 {
            let lag_per_broker: i64 = divide(metrics.total_lag, replicas as i64);
            let target_lag: i64 = autoscaling.target_lag_per_partition
                * (metrics.total_partitions as i64);
            if lag_per_broker > autoscaling.target_lag_per_partition * 2 {
                // Scale up if lag is more than 2x target
                let brokers: i64 = divide(metrics.total_lag, target_lag);
                let at_least_one: i64 = if brokers >= 1 {
                    brokers
                } else {
                    1
                };
                let needed: i32 = #[verifier::truncate] (at_least_one as i32);
                if needed > recommended {
                    recommended = needed;
                    reasons.push(
                        "High consumer lag: ".to_owned().concat(
                            text::i64_text(metrics.total_lag).as_str(),
                        ).concat(". Target: ").concat(text::i64_text(target_lag).as_str()),
                    );
                    triggering.push("consumer_lag".to_owned());
                }
            } else if lag_per_broker < divide(autoscaling.target_lag_per_partition, 4)
                && recommended > autoscaling.min_replicas {
                // Scale down if lag is less than 25% of target
                let needed: i32 = if metrics.lag_quotient >= 1 {
                    metrics.lag_quotient
                } else {
                    1
                };
                if needed < recommended {
                    recommended = needed;
                    reasons.push(
                        "Low consumer lag: ".to_owned().concat(
                            text::i64_text(metrics.total_lag).as_str(),
                        ).concat(". Target: ").concat(text::i64_text(target_lag).as_str()),
                    );
                    triggering.push("consumer_lag".to_owned());
                }
            }
        }
        let ghost lag = lag_advice(m, config, replicas);
        assert(reasons.deep_view() =~= lag.reasons);
        assert(triggering.deep_view() =~= lag.triggers);
        assert(recommended == lag.replicas);

        // Throughput-based scaling
        match &metrics.throughput {
            Some(reading) => {
                if reading.overloaded && reading.needed > recommended {
                    recommended = reading.needed;
                    reasons.push(
                        "High throughput: ".to_owned().concat(reading.per_broker.as_str()).concat(
                            " msg/s per broker. Target: ",
                        ).concat(reading.target.as_str()),
                    );
                    triggering.push("messages_per_second".to_owned());
                }
            },
            None => {},
        }
        let ghost rate = throughput_advice(lag, m.throughput);
        assert(reasons.deep_view() =~= rate.reasons);
        assert(triggering.deep_view() =~= rate.triggers);

        // Partition distribution
        if metrics.total_partitions > 0 {
            let partitions_per_broker: i64 = divide(
                metrics.total_partitions as i64,
                replicas as i64,
            );
            // Recommend at least 1 broker per 100 partitions for good distribution
            let hundreds: i32 = metrics.total_partitions / 100;
            let min_for_partitions: i32 = if hundreds >= 1 {
                hundreds
            } else {
                1
            };
            if min_for_partitions > recommended {
                recommended = min_for_partitions;
                reasons.push(
                    "High partition count: ".to_owned().concat(
                        text::i32_text(metrics.total_partitions).as_str(),
                    ).concat(". ").concat(text::i64_text(partitions_per_broker).as_str()).concat(
                        " partitions per broker",
                    ),
                );
                triggering.push("partition_count".to_owned());
            }
        }
        let ghost all = advice(m, config, replicas);
        assert(reasons.deep_view() =~= all.reasons);
        assert(triggering.deep_view() =~= all.triggers);
        assert(recommended == all.replicas);

        // Apply limits
        if recommended < autoscaling.min_replicas {
            recommended = autoscaling.min_replicas;
        }
        if recommended > autoscaling.max_replicas {
            recommended = autoscaling.max_replicas;
        }
        let confidence: i32 = if triggering.len() == 0 {
            50  // No strong signal
        } else if triggering.len() == 1 {
            70  // Single metric trigger
        } else {
            90  // Multiple metrics agree
        };
        assert(reasons.len() == all.reasons.len());
        let reason = if reasons.is_empty() {
            "No scaling needed".to_owned()
        } else {
            text::join_texts(&reasons, "; ")
        };
        ScalingRecommendation {
            recommended_replicas: recommended,
            current_replicas: replicas,
            reason,
            confidence,
            triggering_metrics: triggering,
            timestamp: now.to_owned(),
        }
    }

    /// The labels of the autoscaler of a cluster.
    pub fn common_labels(cluster: &StreamlineCluster) -> (labels: Vec<KeyValue>)
        ensures
            labels.deep_view() == hpa_labels(cluster.deep_view()),
    {
        let labels = vec![
            KeyValue::new("app.kubernetes.io/component", "autoscaling"),
            KeyValue::new("app.kubernetes.io/instance", cluster.metadata.name.as_str()),
            KeyValue::new("app.kubernetes.io/managed-by", "streamline-operator"),
            KeyValue::new("app.kubernetes.io/name", "streamline"),
        ];
        assert(labels.deep_view() =~= hpa_labels(cluster.deep_view()));
        labels
    }
}

/// A recommendation stays within the configured bounds, if there is a count that does.
pub proof fn law_recommendations_respect_the_bounds(
    metrics: PartitionMetricsView,
    config: AutoScalingConfigView,
    replicas: i32,
    now: Seq<char>,
)
    requires
        config.min_replicas <= config.max_replicas,
    ensures
        config.min_replicas <= recommendation(metrics, config, replicas, now).recommended_replicas
            <= config.max_replicas,
{
}

/// Without a signal the current count is kept, within the bounds, and the recommendation says
/// so with the lowest confidence. With one signal it is surer, and with several surer still.
pub proof fn law_confidence_counts_the_signals(
    metrics: PartitionMetricsView,
    config: AutoScalingConfigView,
    replicas: i32,
    now: Seq<char>,
)
    ensures
        ({
            let advised = recommendation(metrics, config, replicas, now);
            &&& advised.triggering_metrics.len() == advice(metrics, config, replicas).reasons.len()
            &&& advised.triggering_metrics.len() <= 3
            &&& advised.confidence == 50 <==> advised.triggering_metrics.len() == 0
            &&& advised.confidence == 70 <==> advised.triggering_metrics.len() == 1
            &&& advised.confidence == 90 <==> advised.triggering_metrics.len() >= 2
            &&& advised.triggering_metrics.len() == 0 ==> advised.recommended_replicas == bounded(
                replicas,
                config.min_replicas,
                config.max_replicas,
            ) && advised.reason == "No scaling needed"@
        }),
{
}

/// Every autoscaler carries the CPU and memory targets, whatever else is configured.
pub proof fn law_cpu_and_memory_always_count(config: AutoScalingConfigView)
    ensures
        hpa_metrics(config).len() == 2 + config.custom_metrics.len() + if config.partition_aware {
            2int
        } else {
            0
        },
        hpa_metrics(config)[0] == utilization_metric("cpu"@, config.target_cpu_utilization),
        hpa_metrics(config)[1] == utilization_metric("memory"@, config.target_memory_utilization),
{
}

/// The labels of an autoscaler are in key order.
pub proof fn law_autoscaler_labels_are_in_key_order(cluster: StreamlineClusterView)
    ensures
        objects::in_key_order(hpa_labels(cluster)),
{
    objects::lemma_label_keys_rise();
}

} // verus!
