use streamline_operator::controllers::autoscaling::{
    default_metric_type, default_target_type, AutoScalingConfig, AutoScalingController,
    CustomMetric, MetricTargetSpec, PartitionMetrics,
    ScalingBehavior, ScalingPolicy, ScalingRules, ThroughputReading,
};
use streamline_operator::{ClusterSpec, StreamlineCluster};

fn cluster(replicas: i32) -> StreamlineCluster {
    StreamlineCluster::new(
        "test",
        ClusterSpec {
            replicas,
            ..Default::default()
        },
    )
}

/// The readings of a cluster, as they follow from what was measured.
fn measured(
    config: &AutoScalingConfig,
    replicas: i32,
    total_partitions: i32,
    total_lag: i64,
    messages_per_second: f64,
) -> PartitionMetrics {
    let target_lag = config.target_lag_per_partition * i64::from(total_partitions);
    let target_mps = config.target_messages_per_second as f64;
    let per_broker = messages_per_second / f64::from(replicas);
    PartitionMetrics {
        total_partitions,
        total_lag,
        max_partition_lag: 1000,
        under_replicated_partitions: 0,
        lag_quotient: (total_lag as f64 / target_lag as f64).ceil() as i32,
        throughput: if messages_per_second > 0.0 {
            Some(ThroughputReading {
                overloaded: per_broker > target_mps * 1.5,
                needed: (messages_per_second / target_mps).ceil() as i32,
                per_broker: format!("{per_broker:.0}"),
                target: format!("{target_mps}"),
            })
        } else {
            None
        },
    }
}

fn lag_aware() -> AutoScalingConfig {
    AutoScalingConfig {
        enabled: true,
        min_replicas: 1,
        max_replicas: 10,
        partition_aware: true,
        target_lag_per_partition: 10000,
        target_messages_per_second: 100000,
        ..AutoScalingConfig::schema_default()
    }
}

#[test]
fn test_autoscaling_config_defaults() {
    let config = AutoScalingConfig::schema_default();
    assert!(!config.enabled);
    assert_eq!(config.min_replicas, 1);
    assert_eq!(config.max_replicas, 10);
    assert_eq!(config.target_cpu_utilization, 70);
}

#[test]
fn test_scaling_recommendation_no_change() {
    let config = lag_aware();
    let metrics = measured(&config, 3, 30, 15000, 50000.0);
    assert_eq!(metrics.total_partitions, 30);
    assert_eq!(config.target_lag_per_partition, 10000);

    // 5000 messages of lag per broker lie between a quarter of the target and its double.
    let advised =
        AutoScalingController::recommendation_at(3, &metrics, &config, "t0");
    assert_eq!(advised.recommended_replicas, 3);
    assert_eq!(advised.reason, "No scaling needed");
    assert_eq!(advised.confidence, 50);
    assert!(advised.triggering_metrics.is_empty());
    assert_eq!(advised.timestamp, "t0");
}

#[test]
fn a_high_lag_asks_for_more_brokers() {
    let config = lag_aware();
    let metrics = measured(&config, 1, 2, 100_000, 0.0);
    let advised =
        AutoScalingController::recommendation_at(1, &metrics, &config, "t0");
    assert_eq!(advised.recommended_replicas, 5);
    assert_eq!(advised.reason, "High consumer lag: 100000. Target: 20000");
    assert_eq!(advised.triggering_metrics, vec!["consumer_lag"]);
    assert_eq!(advised.confidence, 70);
}

#[test]
fn a_low_lag_asks_for_fewer_brokers() {
    let config = lag_aware();
    let metrics = measured(&config, 4, 2, 400, 0.0);
    let advised =
        AutoScalingController::recommendation_at(4, &metrics, &config, "t0");
    assert_eq!(advised.recommended_replicas, 1);
    assert_eq!(advised.reason, "Low consumer lag: 400. Target: 20000");
}

#[test]
fn signals_add_up_and_the_bounds_hold() {
    let config = lag_aware();
    let metrics = measured(&config, 1, 2000, 0, 500_000.0);
    let advised =
        AutoScalingController::recommendation_at(1, &metrics, &config, "t0");
    assert_eq!(advised.recommended_replicas, 10);
    assert_eq!(
        advised.reason,
        "High throughput: 500000 msg/s per broker. Target: 100000; \
         High partition count: 2000. 2000 partitions per broker"
    );
    assert_eq!(advised.triggering_metrics, vec!["messages_per_second", "partition_count"]);
    assert_eq!(advised.confidence, 90);
    let before = chrono::Utc::now();
    let stamped = AutoScalingController::generate_recommendation(&cluster(1), &metrics, &config);
    let after = chrono::Utc::now();
    assert_eq!(stamped.recommended_replicas, 10);
    let stamp = chrono::DateTime::parse_from_rfc3339(&stamped.timestamp).unwrap();
    assert!(stamp >= before && stamp <= after);
}

#[test]
fn test_custom_metric_parsing() {
    let metric = CustomMetric {
        name: "custom_requests".to_string(),
        metric_type: "Pods".to_string(),
        target: MetricTargetSpec {
            type_: "AverageValue".to_string(),
            value: None,
            average_value: Some("1000".to_string()),
            average_utilization: None,
        },
    };
    assert_eq!(metric.name, "custom_requests");
    assert_eq!(metric.metric_type, "Pods");
    assert_eq!(metric.target.average_value, Some("1000".to_string()));

    let config = AutoScalingConfig {
        custom_metrics: vec![metric],
        ..AutoScalingConfig::schema_default()
    };
    let hpa = AutoScalingController::build_hpa(&cluster(1), "prod", &config);
    let metrics = hpa.spec.unwrap().metrics.unwrap();
    assert_eq!(metrics.len(), 3);
    assert_eq!(metrics[0].type_, "Resource");
    assert_eq!(metrics[2].pods.as_ref().unwrap().name, "custom_requests");
    assert_eq!(
        metrics[2].pods.as_ref().unwrap().target.average_value.as_deref(),
        Some("1000")
    );
}

#[test]
fn test_scaling_behavior_parsing() {
    let policy = |type_: &str, value| ScalingPolicy {
        type_: type_.to_string(),
        value,
        period_seconds: 60,
    };
    let behavior = ScalingBehavior {
        scale_up: Some(ScalingRules {
            stabilization_window_seconds: Some(60),
            select_policy: Some("Max".to_string()),
            policies: vec![policy("Pods", 4), policy("Percent", 100)],
        }),
        scale_down: Some(ScalingRules {
            stabilization_window_seconds: Some(300),
            select_policy: Some("Min".to_string()),
            policies: vec![policy("Pods", 1)],
        }),
    };
    assert!(behavior.scale_up.is_some());
    assert!(behavior.scale_down.is_some());

    let config = AutoScalingConfig {
        behavior: Some(behavior.clone()),
        ..AutoScalingConfig::schema_default()
    };
    let hpa = AutoScalingController::build_hpa(&cluster(1), "prod", &config);
    assert_eq!(hpa.metadata.name.as_deref(), Some("test-hpa"));
    let rendered = hpa.spec.unwrap().behavior.unwrap();
    assert_eq!(
        rendered.scale_down.unwrap().select_policy.as_deref(),
        Some("Min")
    );

    let scale_up = behavior.scale_up.unwrap();
    assert_eq!(scale_up.stabilization_window_seconds, Some(60));
    assert_eq!(scale_up.policies.len(), 2);
}

#[test]
fn what_cannot_be_computed_is_told() {
    let config = lag_aware();
    let metrics = measured(&config, 3, 30, 15000, 50000.0);
    assert!(AutoScalingController::can_recommend(3, &metrics, &config));
    assert!(AutoScalingController::can_recommend(-1, &metrics, &config));
    assert!(!AutoScalingController::can_recommend(0, &metrics, &config));
    let idle = measured(&config, 1, 0, 0, 0.0);
    assert!(AutoScalingController::can_recommend(0, &idle, &config));
    // A lag above no target at all has nothing to be divided by.
    let unpartitioned = measured(&config, 1, 0, 100_000, 0.0);
    assert!(!AutoScalingController::can_recommend(1, &unpartitioned, &config));
    let boundless = AutoScalingConfig {
        target_lag_per_partition: i64::MAX,
        ..lag_aware()
    };
    assert!(!AutoScalingController::can_recommend(3, &metrics, &boundless));
}

#[test]
fn metrics_of_no_given_type_are_per_pod_averages() {
    assert_eq!(default_metric_type(), "Pods");
    assert_eq!(default_target_type(), "AverageValue");
}
