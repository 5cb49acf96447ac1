//! Laws of scaling: recommendations, autoscalers, and scaling to zero and back.

use crate::clock;
use crate::controllers::autoscaling;
use crate::controllers::autoscaling::ThroughputReading;
use crate::controllers::scale_to_zero;
use crate::controllers::scale_to_zero::{
    activity_snapshot_at, KedaPlan, RateReading, ScaledObject,
};
use crate::controllers::{
    AutoScalingConfig, AutoScalingController, ClusterActivitySnapshot, ClusterController,
    CustomMetric, DeleteOutcome, HpaAction, KedaConfig, MetricTargetSpec, PartitionMetrics,
    ScaleAction, ScaleToZeroAction, ScaleToZeroConfig, ScaleToZeroController, ScalingBehavior,
    ScalingRecommendation, ScalingRules,
};
use crate::crd::StreamlineCluster;
use crate::error::OperatorError;
use crate::laws::rendering;
use crate::manifests::{
    HorizontalPodAutoscaler, HorizontalPodAutoscalerBehavior, HpaScalingRules, MetricSpec,
    MetricSpecView, MetricTarget, OwnerReference,
};
use crate::objects::KeyValue;
use crate::text;
use vstd::prelude::*;

verus! {

// ---------------------------------------------------------------------------
// Recommendations
// ---------------------------------------------------------------------------

/// The larger of two counts.
pub open spec fn most(a: int, b: int) -> int {
    if a < b {
        b
    } else {
        a
    }
}

/// The smaller of two counts.
pub open spec fn least(a: int, b: int) -> int {
    if a < b {
        a
    } else {
        b
    }
}

/// The brokers that the lag asks for: enough to share it where a broker carries more than twice
/// what a partition may have, those that are left to share it where a broker carries less than a
/// quarter of that, and those that are there otherwise.
pub open spec fn brokers_for_lag(
    replicas: i32,
    metrics: PartitionMetrics,
    config: AutoScalingConfig,
) -> int {
    let carried = metrics.total_lag as int / replicas as int;
    let allowed = config.target_lag_per_partition as int;
    if !config.partition_aware || metrics.total_lag <= 0 {
        replicas as int
    } else if carried > 2 * allowed {
        most(
            replicas as int,
            most(1, metrics.total_lag as int / (allowed * metrics.total_partitions)),
        )
    } else if carried < allowed / 4 && replicas > config.min_replicas {
        least(replicas as int, most(1, metrics.lag_quotient as int))
    } else {
        replicas as int
    }
}

/// The brokers that an overload asks for on top of a count.
pub open spec fn brokers_for_rate(count: int, throughput: Option<ThroughputReading>) -> int {
    if throughput is Some && throughput->0.overloaded {
        most(count, throughput->0.needed as int)
    } else {
        count
    }
}

/// The brokers that the partitions ask for on top of a count: one for every hundred.
pub open spec fn brokers_for_partitions(count: int, partitions: i32) -> int {
    if partitions > 0 {
        most(count, most(1, partitions as int / 100))
    } else {
        count
    }
}

/// A recommendation is what the lag, the message rate and the partitions ask for together, held
/// within the bounds. It names each of the three that changed the count, and is the surer the
/// more of them did.
pub proof fn law_a_recommendation_meets_every_demand(
    replicas: i32,
    metrics: PartitionMetrics,
    config: AutoScalingConfig,
    now: &str,
    advised: ScalingRecommendation,
)
    requires
        call_ensures(
            AutoScalingController::recommendation_at,
            (replicas, &metrics, &config, now),
            advised,
        ),
        replicas >= 1,
        config.target_lag_per_partition >= 1,
        metrics.total_partitions >= 1,
        config.min_replicas <= config.max_replicas,
        metrics.total_lag as int / (config.target_lag_per_partition * metrics.total_partitions)
            <= i32::MAX,
    ensures
        ({
            let for_lag = brokers_for_lag(replicas, metrics, config);
            let for_rate = brokers_for_rate(for_lag, metrics.throughput);
            let for_all = brokers_for_partitions(for_rate, metrics.total_partitions);
            let named = advised.triggering_metrics.deep_view();
            &&& advised.recommended_replicas == most(
                config.min_replicas as int,
                least(config.max_replicas as int, for_all),
            )
            &&& advised.current_replicas == replicas
            &&& advised.timestamp@ == now@
            &&& named.contains("consumer_lag"@) <==> for_lag != replicas
            &&& named.contains("messages_per_second"@) <==> for_rate != for_lag
            &&& named.contains("partition_count"@) <==> for_all != for_rate
            &&& named.len() <= 3
            &&& named.no_duplicates()
            &&& named.len() == 0 ==> advised.confidence == 50 && advised.reason@
                == "No scaling needed"@
            &&& named.len() == 1 ==> advised.confidence == 70
            &&& named.len() >= 2 ==> advised.confidence == 90
        }),
{
    let m = metrics.deep_view();
    let c = config.deep_view();
    let view = advised.deep_view();
    assert(m.throughput == metrics.throughput.deep_view());
    let allowed = config.target_lag_per_partition as int;
    let partitions = metrics.total_partitions as int;
    assert(allowed * partitions >= 1) by (nonlinear_arith)
        requires
            allowed >= 1,
            partitions >= 1,
    ;
    assert(autoscaling::target_lag(m, c) == allowed * partitions);
    let lag = autoscaling::lag_advice(m, c, replicas);
    let rate = autoscaling::throughput_advice(lag, m.throughput);
    let all = autoscaling::advice(m, c, replicas);
    assert(lag.replicas == brokers_for_lag(replicas, metrics, config));
    assert(rate.replicas == brokers_for_rate(lag.replicas as int, metrics.throughput));
    assert(all.replicas == brokers_for_partitions(rate.replicas as int, metrics.total_partitions));
    reveal_strlit("consumer_lag");
    reveal_strlit("messages_per_second");
    reveal_strlit("partition_count");
    assert("consumer_lag"@.len() == 12);
    assert("messages_per_second"@.len() == 19);
    assert("partition_count"@.len() == 15);
    let named = advised.triggering_metrics.deep_view();
    assert(named == all.triggers);
    if lag.replicas != replicas {
        assert(named[0] == "consumer_lag"@);
    }
    if rate.replicas != lag.replicas {
        assert(named[lag.triggers.len() as int] == "messages_per_second"@);
    }
    if all.replicas != rate.replicas {
        assert(named[rate.triggers.len() as int] == "partition_count"@);
    }
}

proof fn lemma_occurs_through(hay: Seq<char>, mid: Seq<char>, needle: Seq<char>)
    requires
        text::occurs(hay, mid),
        text::occurs(mid, needle),
    ensures
        text::occurs(hay, needle),
{
    let a = choose|at: int| text::occurs_at(hay, mid, at);
    let b = choose|at: int| text::occurs_at(mid, needle, at);
    assert(hay.subrange(a + b, a + b + needle.len()) =~= mid.subrange(b, b + needle.len()));
    assert(text::occurs_at(hay, needle, a + b));
}

proof fn lemma_reason_is_given(reasons: Seq<Seq<char>>, i: int, front: Seq<char>, rest: Seq<char>)
    requires
        0 <= i < reasons.len(),
        reasons[i] == front + rest,
    ensures
        text::occurs(text::joined(reasons, "; "@), front),
{
    text::law_every_part_is_joined(reasons, "; "@, i);
    assert(Seq::<char>::empty() + front + rest =~= front + rest);
    text::lemma_occurs_between(Seq::empty(), front, rest);
    lemma_occurs_through(text::joined(reasons, "; "@), reasons[i], front);
}

/// Each demand that changed the count is given as a reason, with the number behind it.
pub proof fn law_a_recommendation_gives_its_reasons(
    replicas: i32,
    metrics: PartitionMetrics,
    config: AutoScalingConfig,
    now: &str,
    advised: ScalingRecommendation,
)
    requires
        call_ensures(
            AutoScalingController::recommendation_at,
            (replicas, &metrics, &config, now),
            advised,
        ),
        replicas >= 1,
        config.target_lag_per_partition >= 1,
        metrics.total_partitions >= 1,
        metrics.total_lag as int / (config.target_lag_per_partition * metrics.total_partitions)
            <= i32::MAX,
    ensures
        ({
            let for_lag = brokers_for_lag(replicas, metrics, config);
            let for_rate = brokers_for_rate(for_lag, metrics.throughput);
            let for_all = brokers_for_partitions(for_rate, metrics.total_partitions);
            &&& for_lag > replicas ==> text::occurs(
                advised.reason@,
                "High consumer lag: "@ + text::decimal(metrics.total_lag as int),
            )
            &&& for_lag < replicas ==> text::occurs(
                advised.reason@,
                "Low consumer lag: "@ + text::decimal(metrics.total_lag as int),
            )
            &&& for_rate != for_lag ==> text::occurs(
                advised.reason@,
                "High throughput: "@ + metrics.throughput->0.per_broker@,
            )
            &&& for_all != for_rate ==> text::occurs(
                advised.reason@,
                "High partition count: "@ + text::decimal(metrics.total_partitions as int),
            )
        }),
{
    let m = metrics.deep_view();
    let c = config.deep_view();
    let view = advised.deep_view();
    assert(m.throughput == metrics.throughput.deep_view());
    let allowed = config.target_lag_per_partition as int;
    let partitions = metrics.total_partitions as int;
    assert(allowed * partitions >= 1) by (nonlinear_arith)
        requires
            allowed >= 1,
            partitions >= 1,
    ;
    assert(autoscaling::target_lag(m, c) == allowed * partitions);
    let lag = autoscaling::lag_advice(m, c, replicas);
    let rate = autoscaling::throughput_advice(lag, m.throughput);
    let all = autoscaling::advice(m, c, replicas);
    assert(lag.replicas == brokers_for_lag(replicas, metrics, config));
    assert(rate.replicas == brokers_for_rate(lag.replicas as int, metrics.throughput));
    let reasons = all.reasons;
    let n = text::decimal(metrics.total_lag as int);
    let target = ". Target: "@ + text::decimal(allowed * partitions);
    if lag.replicas != replicas {
        let word = if lag.replicas > replicas {
            "High consumer lag: "@
        } else {
            "Low consumer lag: "@
        };
        assert(reasons[0] == lag.reasons[0]);
        assert(word + n + ". Target: "@ + text::decimal(allowed * partitions) =~= word + n
            + target);
        lemma_reason_is_given(reasons, 0, word + n, target);
    }
    if rate.replicas != lag.replicas {
        let reading = metrics.throughput->0;
        let i = lag.reasons.len() as int;
        let front = "High throughput: "@ + reading.per_broker@;
        let rest = " msg/s per broker. Target: "@ + reading.target@;
        assert(reasons[i] == rate.reasons[i]);
        assert(front + " msg/s per broker. Target: "@ + reading.target@ =~= front + rest);
        lemma_reason_is_given(reasons, i, front, rest);
    }
    if all.replicas != rate.replicas {
        let i = rate.reasons.len() as int;
        let front = "High partition count: "@ + text::decimal(partitions);
        let per = text::decimal(autoscaling::truncated_quotient(partitions, replicas as int));
        let rest = ". "@ + per + " partitions per broker"@;
        assert(front + ". "@ + per + " partitions per broker"@ =~= front + rest);
        lemma_reason_is_given(reasons, i, front, rest);
    }
}

/// A recommendation is possible unless it would divide by no brokers or by no lag, or leave the
/// range of its numbers.
pub proof fn law_a_recommendation_needs_a_broker(
    replicas: i32,
    metrics: PartitionMetrics,
    config: AutoScalingConfig,
    possible: bool,
)
    requires
        call_ensures(AutoScalingController::can_recommend, (replicas, &metrics, &config), possible),
    ensures
        ({
            let lagging = config.partition_aware && metrics.total_lag > 0;
            let allowed = config.target_lag_per_partition as int;
            let target = config.target_lag_per_partition * metrics.total_partitions;
            &&& replicas == 0 && (lagging || metrics.total_partitions > 0) ==> !possible
            &&& replicas != 0 && !lagging ==> possible
            &&& metrics.total_partitions <= 0 && !lagging ==> possible
            &&& replicas > 0 && lagging && 2 * allowed <= i64::MAX && 2 * allowed >= i64::MIN
                && target <= i64::MAX && target >= i64::MIN ==> (possible <==> target != 0
                || metrics.total_lag as int / replicas as int <= 2 * allowed)
            &&& lagging && (target > i64::MAX || target < i64::MIN) ==> !possible
            &&& lagging && (2 * allowed > i64::MAX || 2 * allowed < i64::MIN) ==> !possible
        }),
{
}

// ---------------------------------------------------------------------------
// Autoscalers
// ---------------------------------------------------------------------------

/// An autoscaler is applied exactly where autoscaling is enabled; one that is not found when it
/// is deleted is gone, and no other answer but success is taken for that.
pub proof fn law_an_autoscaler_is_there_iff_enabled(
    config: AutoScalingConfig,
    action: HpaAction,
    answer: core::result::Result<(), Option<u16>>,
    outcome: DeleteOutcome,
)
    requires
        call_ensures(autoscaling::hpa_action, (&config,), action),
        call_ensures(autoscaling::delete_outcome, (answer,), outcome),
    ensures
        action == HpaAction::Apply <==> config.enabled,
        action == HpaAction::Delete <==> !config.enabled,
        outcome == DeleteOutcome::Deleted <==> answer is Ok,
        outcome == DeleteOutcome::AlreadyAbsent <==> answer == core::result::Result::<
            (),
            Option<u16>,
        >::Err(Some(404u16)),
        outcome == DeleteOutcome::Failed <==> answer is Err && answer->Err_0 != Some(404u16),
{
}

/// Whether a metric targets a utilization of a resource.
pub open spec fn holds_utilization(
    metric: MetricSpecView,
    resource: Seq<char>,
    percent: i32,
) -> bool {
    &&& metric.type_ == "Resource"@
    &&& metric.resource is Some && metric.pods is None && metric.external is None
    &&& metric.resource->0.name == resource
    &&& metric.resource->0.target.type_ == "Utilization"@
    &&& metric.resource->0.target.average_utilization == Some(percent)
    &&& metric.resource->0.target.value is None
    &&& metric.resource->0.target.average_value is None
}

/// Whether a metric targets an average over the pods.
pub open spec fn holds_average(metric: MetricSpecView, name: Seq<char>, average: i64) -> bool {
    &&& metric.type_ == "Pods"@
    &&& metric.pods is Some && metric.resource is None && metric.external is None
    &&& metric.pods->0.name == name
    &&& metric.pods->0.target.type_ == "AverageValue"@
    &&& metric.pods->0.target.average_value == Some(text::decimal(average as int))
    &&& metric.pods->0.target.value is None
    &&& metric.pods->0.target.average_utilization is None
}

/// The autoscaler of a cluster scales the StatefulSet of that cluster, within the bounds of the
/// configuration. It belongs to the cluster and stands in the given namespace.
pub proof fn law_an_autoscaler_scales_its_cluster(
    cluster: StreamlineCluster,
    namespace: &str,
    config: AutoScalingConfig,
    built: HorizontalPodAutoscaler,
    owner: OwnerReference,
    labels: Vec<KeyValue>,
)
    requires
        call_ensures(AutoScalingController::build_hpa, (&cluster, namespace, &config), built),
        call_ensures(ClusterController::owner_reference, (&cluster,), owner),
        call_ensures(AutoScalingController::common_labels, (&cluster,), labels),
    ensures
        ({
            let view = built.deep_view();
            &&& view.metadata.name == Some(cluster.metadata.name@ + "-hpa"@)
            &&& view.metadata.namespace == Some(namespace@)
            &&& view.metadata.labels == Some(labels.deep_view())
            &&& view.metadata.owner_references == Some(seq![owner.deep_view()])
            &&& view.spec is Some
            &&& view.spec->0.scale_target_ref.api_version == Some("apps/v1"@)
            &&& view.spec->0.scale_target_ref.kind == "StatefulSet"@
            &&& view.spec->0.scale_target_ref.name == cluster.metadata.name@
            &&& view.spec->0.min_replicas == Some(config.min_replicas)
            &&& view.spec->0.max_replicas == config.max_replicas
            &&& view.spec->0.behavior is Some <==> config.behavior is Some
        }),
        labels@.len() == 4,
        labels@[0].key@ == "app.kubernetes.io/component"@ && labels@[0].value@ == "autoscaling"@,
        labels@[1].key@ == "app.kubernetes.io/instance"@ && labels@[1].value@
            == cluster.metadata.name@,
        labels@[2].key@ == "app.kubernetes.io/managed-by"@ && labels@[2].value@
            == "streamline-operator"@,
        labels@[3].key@ == "app.kubernetes.io/name"@ && labels@[3].value@ == "streamline"@,
{
    let view = built.deep_view();
    let all = labels.deep_view();
    assert(all.len() == labels@.len());
    assert(all[0] == labels@[0].deep_view());
    assert(all[1] == labels@[1].deep_view());
    assert(all[2] == labels@[2].deep_view());
    assert(all[3] == labels@[3].deep_view());
    assert(config.deep_view().behavior == config.behavior.deep_view());
}

/// The metrics of an autoscaler are the targets of the configuration: CPU and memory first, then
/// each custom metric, and lag and message rate where scaling is aware of partitions.
pub proof fn law_an_autoscaler_holds_its_targets(
    cluster: StreamlineCluster,
    namespace: &str,
    config: AutoScalingConfig,
    built: HorizontalPodAutoscaler,
    i: int,
    custom: MetricSpec,
)
    requires
        call_ensures(AutoScalingController::build_hpa, (&cluster, namespace, &config), built),
        0 <= i < config.custom_metrics@.len() ==> call_ensures(
            AutoScalingController::build_custom_metric,
            (&config.custom_metrics@[i],),
            custom,
        ),
    ensures
        ({
            let metrics = built.deep_view().spec->0.metrics;
            let all = metrics->0;
            let n = config.custom_metrics@.len() as int;
            &&& metrics is Some
            &&& all.len() == 2 + n + if config.partition_aware {
                2int
            } else {
                0
            }
            &&& holds_utilization(all[0], "cpu"@, config.target_cpu_utilization)
            &&& holds_utilization(all[1], "memory"@, config.target_memory_utilization)
            &&& 0 <= i < n ==> all[2 + i] == custom.deep_view()
            &&& config.partition_aware ==> holds_average(
                all[2 + n],
                "streamline_consumer_lag"@,
                config.target_lag_per_partition,
            )
            &&& config.partition_aware ==> holds_average(
                all[3 + n],
                "streamline_messages_per_second"@,
                config.target_messages_per_second,
            )
        }),
{
    let view = config.deep_view();
    let all = built.deep_view().spec->0.metrics->0;
    assert(view.custom_metrics.len() == config.custom_metrics@.len());
    if 0 <= i < config.custom_metrics@.len() {
        assert(view.custom_metrics[i] == config.custom_metrics@[i].deep_view());
    }
}

/// A custom metric keeps its name and its target, and is external exactly if it says so; any
/// other one is measured on the pods.
pub proof fn law_a_custom_metric_is_measured_where_it_says(
    custom: CustomMetric,
    built: MetricSpec,
    target: MetricTarget,
)
    requires
        call_ensures(AutoScalingController::build_custom_metric, (&custom,), built),
        call_ensures(AutoScalingController::build_metric_target, (&custom.target,), target),
    ensures
        ({
            let view = built.deep_view();
            let outside = custom.metric_type@ == "External"@;
            let source = if outside {
                view.external
            } else {
                view.pods
            };
            &&& view.type_ == (if outside {
                "External"@
            } else {
                "Pods"@
            })
            &&& view.resource is None
            &&& outside ==> view.pods is None
            &&& !outside ==> view.external is None
            &&& source is Some
            &&& source->0.name == custom.name@
            &&& source->0.target == target.deep_view()
        }),
{
}

/// A metric target is rendered as it is set.
pub proof fn law_a_metric_target_is_kept(target: MetricTargetSpec, built: MetricTarget)
    requires
        call_ensures(AutoScalingController::build_metric_target, (&target,), built),
    ensures
        built.type_@ == target.type_@,
        built.value.deep_view() == target.value.deep_view(),
        built.average_value.deep_view() == target.average_value.deep_view(),
        built.average_utilization == target.average_utilization,
{
    let view = built.deep_view();
    assert(view.value == built.value.deep_view());
    assert(view.average_value == built.average_value.deep_view());
}

/// What is said of scaling up is rendered for scaling up, and what is said of scaling down for
/// scaling down.
pub proof fn law_behavior_keeps_its_directions(
    behavior: ScalingBehavior,
    built: HorizontalPodAutoscalerBehavior,
    up: HpaScalingRules,
    down: HpaScalingRules,
)
    requires
        call_ensures(AutoScalingController::build_behavior, (&behavior,), built),
        behavior.scale_up is Some ==> call_ensures(
            AutoScalingController::build_scaling_rules,
            (&behavior.scale_up->0,),
            up,
        ),
        behavior.scale_down is Some ==> call_ensures(
            AutoScalingController::build_scaling_rules,
            (&behavior.scale_down->0,),
            down,
        ),
    ensures
        built.deep_view().scale_up is Some <==> behavior.scale_up is Some,
        built.deep_view().scale_down is Some <==> behavior.scale_down is Some,
        behavior.scale_up is Some ==> built.deep_view().scale_up == Some(up.deep_view()),
        behavior.scale_down is Some ==> built.deep_view().scale_down == Some(down.deep_view()),
{
    assert(behavior.deep_view().scale_up == behavior.scale_up.deep_view());
    assert(behavior.deep_view().scale_down == behavior.scale_down.deep_view());
}

/// Scaling rules keep their window, their choice and each of their policies in order; where there
/// is no policy none is rendered.
pub proof fn law_scaling_rules_keep_their_policies(
    rules: ScalingRules,
    built: HpaScalingRules,
    i: int,
)
    requires
        call_ensures(AutoScalingController::build_scaling_rules, (&rules,), built),
    ensures
        ({
            let view = built.deep_view();
            let n = rules.policies@.len();
            &&& view.stabilization_window_seconds == rules.stabilization_window_seconds
            &&& view.select_policy == rules.select_policy.deep_view()
            &&& view.policies is None <==> n == 0
            &&& n > 0 ==> view.policies->0.len() == n
            &&& 0 <= i < n ==> view.policies->0[i].type_ == rules.policies@[i].type_@
                && view.policies->0[i].value == rules.policies@[i].value
                && view.policies->0[i].period_seconds == rules.policies@[i].period_seconds
        }),
{
    let all = rules.deep_view().policies;
    assert(all == rules.policies.deep_view());
    assert(all.len() == rules.policies@.len());
    if 0 <= i < all.len() {
        assert(all[i] == rules.policies@[i].deep_view());
    }
}

// ---------------------------------------------------------------------------
// To zero and back
// ---------------------------------------------------------------------------

/// A cluster is taken to zero exactly when scaling to zero is enabled, it is idle and has been
/// for the configured time, and the last scale-up is as long ago as the cooldown asks. It is
/// woken exactly when it is at zero and active, cooldown or not. Otherwise it keeps its brokers.
pub proof fn law_a_cluster_sleeps_only_when_idle(
    controller: ScaleToZeroController,
    snapshot: ClusterActivitySnapshot,
    config: ScaleToZeroConfig,
    current: i32,
    last_scale_up: Option<u64>,
    now: u64,
    timestamp: &str,
    action: ScaleToZeroAction,
    applied: Option<i32>,
)
    requires
        call_ensures(
            ScaleToZeroController::evaluate_at,
            (&controller, &snapshot, &config, current, last_scale_up, now, timestamp),
            action,
        ),
        call_ensures(ScaleToZeroController::replicas_to_apply, (&action,), applied),
    ensures
        ({
            let resting = last_scale_up is Some && now - last_scale_up->0
                < config.cooldown_seconds && config.cooldown_seconds > 0;
            let wakes = config.enabled && current == 0 && !snapshot.is_idle;
            let sleeps = config.enabled && snapshot.is_idle && snapshot.idle_duration_seconds
                >= config.idle_timeout_seconds && !resting;
            &&& action.action == ScaleAction::Activate <==> wakes
            &&& action.action == ScaleAction::ScaleToZero <==> sleeps
            &&& action.action == ScaleAction::InCooldown <==> config.enabled && !wakes && resting
            &&& applied == if wakes {
                Some(config.min_active_replicas)
            } else if sleeps {
                Some(0i32)
            } else {
                None
            }
            &&& applied is None ==> action.target_replicas == current
            &&& applied is Some ==> action.target_replicas == applied->0
            &&& action.timestamp@ == timestamp@
        }),
{
    let view = action.deep_view();
}

/// An action gives its reason, with the numbers behind it.
pub proof fn law_an_action_gives_its_reason(
    controller: ScaleToZeroController,
    snapshot: ClusterActivitySnapshot,
    config: ScaleToZeroConfig,
    current: i32,
    last_scale_up: Option<u64>,
    now: u64,
    timestamp: &str,
    action: ScaleToZeroAction,
)
    requires
        call_ensures(
            ScaleToZeroController::evaluate_at,
            (&controller, &snapshot, &config, current, last_scale_up, now, timestamp),
            action,
        ),
    ensures
        action.action == ScaleAction::Activate ==> action.reason@
            == "Activity detected (connections="@ + text::decimal(
            snapshot.active_connections as int,
        ) + ", mps="@ + snapshot.messages_per_second.tenths@ + "); activating from zero"@,
        action.action == ScaleAction::ScaleToZero ==> action.reason@ == "Cluster idle for "@
            + text::decimal(snapshot.idle_duration_seconds as int) + "s (threshold: "@
            + text::decimal(config.idle_timeout_seconds as int) + "s)"@,
        action.action == ScaleAction::InCooldown ==> action.reason@
            == "Within cooldown period ("@ + text::decimal(
            config.cooldown_seconds - (if now >= last_scale_up->0 {
                now - last_scale_up->0
            } else {
                0
            }),
        ) + "s remaining)"@,
        action.action == ScaleAction::NoAction && !config.enabled ==> action.reason@
            == "Scale-to-zero is disabled"@,
        action.action == ScaleAction::NoAction && config.enabled ==> action.reason@
            == "Cluster is active or within idle threshold"@,
{
    let view = action.deep_view();
}

/// A cluster is idle exactly when no message and no connection is measured and the last activity
/// is as long ago as the timeout; its lag and its bytes have no part in that. The rest of the
/// snapshot is what was measured.
pub proof fn law_idleness_is_measured_by_messages_and_connections(
    name: &str,
    namespace: &str,
    messages: RateReading,
    bytes: RateReading,
    connections: u64,
    lag: i64,
    last_activity: i64,
    timeout: u64,
    now: i64,
    snapshot: ClusterActivitySnapshot,
)
    requires
        now - last_activity <= i64::MAX,
        call_ensures(
            activity_snapshot_at,
            (
                name,
                namespace,
                messages,
                bytes,
                connections,
                lag,
                last_activity,
                timeout,
                now,
            ),
            snapshot,
        ),
    ensures
        snapshot.is_idle <==> messages.is_zero && connections == 0 && (now - last_activity
            >= timeout || timeout == 0),
        now >= last_activity ==> snapshot.idle_duration_seconds == now - last_activity,
        now < last_activity ==> snapshot.idle_duration_seconds == 0,
        snapshot.cluster_name@ == name@,
        snapshot.namespace@ == namespace@,
        snapshot.messages_per_second.deep_view() == messages.deep_view(),
        snapshot.bytes_per_second.deep_view() == bytes.deep_view(),
        snapshot.active_connections == connections,
        snapshot.consumer_lag == lag,
        snapshot.last_activity_at@ == clock::rfc3339_of(last_activity, 0),
{
    let view = snapshot.deep_view();
}

/// The ScaledObject of a cluster is deleted where KEDA is not enabled and applied where it is,
/// under one name; KEDA without its configuration is refused.
pub proof fn law_a_scaled_object_is_there_iff_enabled(
    cluster: StreamlineCluster,
    namespace: &str,
    config: ScaleToZeroConfig,
    plan: core::result::Result<KedaPlan, OperatorError>,
    object: ScaledObject,
)
    requires
        call_ensures(ScaleToZeroController::keda_plan, (&cluster, namespace, &config), plan),
        config.keda is Some ==> call_ensures(
            ScaleToZeroController::build_keda_scaled_object,
            (&cluster, namespace, &config.keda->0),
            object,
        ),
    ensures
        !config.keda_enabled ==> (plan matches Ok(KedaPlan::Delete(name)) && name@
            == cluster.metadata.name@ + "-scaledobject"@),
        config.keda_enabled && config.keda is Some ==> (plan matches Ok(
            KedaPlan::Apply(name, applied),
        ) && name@ == cluster.metadata.name@ + "-scaledobject"@ && applied.deep_view()
            == object.deep_view() && applied.deep_view().metadata.name == Some(name@)),
        config.keda_enabled && config.keda is None ==> (plan matches Err(
            OperatorError::Configuration(message),
        ) && message@ == "KEDA is enabled but no keda config block was provided"@),
{
    let view = config.deep_view();
    assert(view.keda == config.keda.deep_view());
    match plan {
        Ok(decided) => {
            let seen = decided.deep_view();
            match decided {
                KedaPlan::Apply(name, applied) => {
                    assert(seen->Apply_1 == applied.deep_view());
                },
                KedaPlan::Delete(_) => {},
            }
        },
        Err(error) => {
            let seen = error.deep_view();
        },
    }
}

/// A ScaledObject scales the StatefulSet of its cluster by the configuration, and belongs to the
/// cluster. Its triggers are the configured ones, or one on the connections of the cluster where
/// none is configured.
pub proof fn law_a_scaled_object_scales_its_cluster(
    cluster: StreamlineCluster,
    namespace: &str,
    keda: KedaConfig,
    object: ScaledObject,
    owner: OwnerReference,
    labels: Vec<KeyValue>,
)
    requires
        call_ensures(
            ScaleToZeroController::build_keda_scaled_object,
            (&cluster, namespace, &keda),
            object,
        ),
        call_ensures(ClusterController::owner_reference, (&cluster,), owner),
        call_ensures(ScaleToZeroController::common_labels, (&cluster,), labels),
    ensures
        object.api_version@ == "keda.sh/v1alpha1"@,
        object.kind@ == "ScaledObject"@,
        ({
            let metadata = object.deep_view().metadata;
            &&& metadata.name == Some(cluster.metadata.name@ + "-scaledobject"@)
            &&& metadata.namespace == Some(namespace@)
            &&& metadata.labels == Some(labels.deep_view())
            &&& metadata.owner_references == Some(seq![owner.deep_view()])
        }),
        object.target_api_version@ == "apps/v1"@,
        object.target_kind@ == "StatefulSet"@,
        object.target_name@ == cluster.metadata.name@,
        object.polling_interval == keda.polling_interval,
        object.cooldown_period == keda.cooldown_period,
        object.min_replica_count == keda.min_replica_count,
        object.max_replica_count == keda.max_replica_count,
        keda.triggers@.len() > 0 ==> object.triggers.deep_view() == keda.triggers.deep_view(),
        keda.triggers@.len() == 0 ==> {
            let given = object.deep_view().triggers;
            &&& given.len() == 1
            &&& given[0].type_ == "metrics-api"@
            &&& given[0].metadata.len() == 3
            &&& rendering::gives(Some(given[0].metadata), "targetValue"@, Some("1"@))
            &&& rendering::gives(
                Some(given[0].metadata),
                "url"@,
                Some(
                    "http://"@ + cluster.metadata.name@ + "."@ + namespace@
                        + ".svc.cluster.local:9094/scaling/metrics"@,
                ),
            )
            &&& rendering::gives(
                Some(given[0].metadata),
                "valueLocation"@,
                Some("active_connections"@),
            )
        },
        labels@.len() == 4,
        labels@[0].key@ == "app.kubernetes.io/component"@ && labels@[0].value@ == "scale-to-zero"@,
        labels@[1].key@ == "app.kubernetes.io/instance"@ && labels@[1].value@
            == cluster.metadata.name@,
        labels@[2].key@ == "app.kubernetes.io/managed-by"@ && labels@[2].value@
            == "streamline-operator"@,
        labels@[3].key@ == "app.kubernetes.io/name"@ && labels@[3].value@ == "streamline"@,
{
    let view = object.deep_view();
    let all = labels.deep_view();
    assert(all.len() == labels@.len());
    assert(all[0] == labels@[0].deep_view());
    assert(all[1] == labels@[1].deep_view());
    assert(all[2] == labels@[2].deep_view());
    assert(all[3] == labels@[3].deep_view());
    assert(keda.deep_view().triggers == keda.triggers.deep_view());
    assert(keda.triggers.deep_view().len() == keda.triggers@.len());
    assert(view.triggers == object.triggers.deep_view());
    if keda.triggers@.len() == 0 {
        reveal_strlit("targetValue");
        reveal_strlit("url");
        reveal_strlit("valueLocation");
        assert("targetValue"@.len() == 11 && "url"@.len() == 3 && "valueLocation"@.len() == 13);
        let given = view.triggers[0].metadata;
        assert(given == scale_to_zero::default_trigger(cluster.deep_view(), namespace@).metadata);
        rendering::lemma_gives(given, 0);
        rendering::lemma_gives(given, 1);
        rendering::lemma_gives(given, 2);
    }
}

/// The autoscaler behaves as its configuration says.
pub proof fn law_an_autoscaler_behaves_as_configured(
    cluster: StreamlineCluster,
    namespace: &str,
    config: AutoScalingConfig,
    built: HorizontalPodAutoscaler,
    behavior: HorizontalPodAutoscalerBehavior,
)
    requires
        call_ensures(AutoScalingController::build_hpa, (&cluster, namespace, &config), built),
        config.behavior is Some,
        call_ensures(AutoScalingController::build_behavior, (&config.behavior->0,), behavior),
    ensures
        built.deep_view().spec is Some,
        built.deep_view().spec->0.behavior == Some(behavior.deep_view()),
{
    assert(config.deep_view().behavior == config.behavior.deep_view());
}

} // verus!
