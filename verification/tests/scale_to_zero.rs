use streamline_operator::controllers::scale_to_zero::{
    activity_snapshot_at, build_activity_snapshot, ClusterActivitySnapshot, KedaConfig, KedaPlan,
    KedaTrigger, RateReading, ScaleAction, ScaleToZeroConfig, ScaleToZeroController,
};
use streamline_operator::objects::KeyValue;
use streamline_operator::{ClusterSpec, OperatorError, StreamlineCluster};

fn default_config() -> ScaleToZeroConfig {
    ScaleToZeroConfig::schema_default()
}

fn rate(per_second: f64) -> RateReading {
    RateReading {
        is_zero: per_second == 0.0,
        tenths: format!("{:.1}", per_second),
    }
}

#[test]
fn test_scale_to_zero_config_defaults() {
    let config = ScaleToZeroConfig::schema_default();
    assert!(!config.enabled);
    assert_eq!(config.idle_timeout_seconds, 300);
    assert_eq!(config.min_active_replicas, 1);
    assert_eq!(config.cooldown_seconds, 120);
    assert_eq!(config.polling_interval_seconds, 30);
    assert!(!config.keda_enabled);
}

#[test]
fn keda_config_defaults() {
    let keda = KedaConfig::schema_default();
    assert_eq!(keda.polling_interval, 30);
    assert_eq!(keda.cooldown_period, 300);
    assert_eq!(keda.min_replica_count, 0);
    assert_eq!(keda.max_replica_count, 10);
    assert!(keda.triggers.is_empty());
}

#[test]
fn test_evaluate_disabled() {
    let controller = ScaleToZeroController;
    let config = default_config(); // enabled = false
    let snapshot = ClusterActivitySnapshot {
        cluster_name: "test".into(),
        namespace: "default".into(),
        messages_per_second: rate(0.0),
        bytes_per_second: rate(0.0),
        active_connections: 0,
        consumer_lag: 0,
        last_activity_at: chrono::Utc::now().to_rfc3339(),
        idle_duration_seconds: 999,
        is_idle: true,
    };

    let action = controller.evaluate(&snapshot, &config, 3, None);
    assert_eq!(action.action, ScaleAction::NoAction);
    assert_eq!(action.target_replicas, 3);
    assert_eq!(ScaleToZeroController::replicas_to_apply(&action), None);
}

#[test]
fn test_evaluate_scale_to_zero() {
    let mut config = default_config();
    config.enabled = true;
    config.idle_timeout_seconds = 300;

    let snapshot = ClusterActivitySnapshot {
        cluster_name: "test".into(),
        namespace: "default".into(),
        messages_per_second: rate(0.0),
        bytes_per_second: rate(0.0),
        active_connections: 0,
        consumer_lag: 0,
        last_activity_at: "2024-01-01T00:00:00Z".into(),
        idle_duration_seconds: 600,
        is_idle: true,
    };

    let before = chrono::Utc::now();
    let action = ScaleToZeroController.evaluate(&snapshot, &config, 3, None);
    let after = chrono::Utc::now();
    assert_eq!(action.action, ScaleAction::ScaleToZero);
    assert_eq!(action.target_replicas, 0);
    assert_eq!(action.reason, "Cluster idle for 600s (threshold: 300s)");
    assert_eq!(ScaleToZeroController::replicas_to_apply(&action), Some(0));
    let stamp = chrono::DateTime::parse_from_rfc3339(&action.timestamp).unwrap();
    assert!(stamp >= before && stamp <= after);
}

#[test]
fn test_evaluate_activate_from_zero() {
    let mut config = default_config();
    config.enabled = true;
    config.min_active_replicas = 2;

    let snapshot = ClusterActivitySnapshot {
        cluster_name: "test".into(),
        namespace: "default".into(),
        messages_per_second: rate(10.0),
        bytes_per_second: rate(1000.0),
        active_connections: 1,
        consumer_lag: 0,
        last_activity_at: chrono::Utc::now().to_rfc3339(),
        idle_duration_seconds: 0,
        is_idle: false,
    };

    let action = ScaleToZeroController.evaluate(&snapshot, &config, 0, None);
    assert_eq!(action.action, ScaleAction::Activate);
    assert_eq!(action.target_replicas, 2);
    assert_eq!(
        action.reason,
        "Activity detected (connections=1, mps=10.0); activating from zero"
    );
}

#[test]
fn test_evaluate_cooldown() {
    let mut config = default_config();
    config.enabled = true;
    config.cooldown_seconds = 120;

    let snapshot = ClusterActivitySnapshot {
        cluster_name: "test".into(),
        namespace: "default".into(),
        messages_per_second: rate(0.0),
        bytes_per_second: rate(0.0),
        active_connections: 0,
        consumer_lag: 0,
        last_activity_at: "2024-01-01T00:00:00Z".into(),
        idle_duration_seconds: 600,
        is_idle: true,
    };

    // last_scale_up is very recent (essentially "now")
    let now_epoch = chrono::Utc::now().timestamp() as u64;
    let action = ScaleToZeroController.evaluate(&snapshot, &config, 3, Some(now_epoch));
    assert_eq!(action.action, ScaleAction::InCooldown);
    assert_eq!(action.target_replicas, 3);

    let action =
        ScaleToZeroController.evaluate_at(&snapshot, &config, 3, Some(1_000), 1_050, "t");
    assert_eq!(action.reason, "Within cooldown period (70s remaining)");
    assert_eq!(action.timestamp, "t");
    let action =
        ScaleToZeroController.evaluate_at(&snapshot, &config, 3, Some(1_000), 1_120, "t");
    assert_eq!(action.action, ScaleAction::ScaleToZero);
    // A scale-up that lies ahead counts as just now.
    let action =
        ScaleToZeroController.evaluate_at(&snapshot, &config, 3, Some(2_000), 1_000, "t");
    assert_eq!(action.reason, "Within cooldown period (120s remaining)");
}

#[test]
fn an_active_cluster_is_left_alone() {
    let mut config = default_config();
    config.enabled = true;
    let snapshot = activity_snapshot_at("c", "n", rate(1.0), rate(8.0), 2, 0, 100, 300, 100);
    let action = ScaleToZeroController.evaluate_at(&snapshot, &config, 3, None, 100, "t");
    assert_eq!(action.action, ScaleAction::NoAction);
    assert_eq!(action.reason, "Cluster is active or within idle threshold");
    assert_eq!(action.target_replicas, 3);
}

#[test]
fn test_build_activity_snapshot_idle() {
    let now = chrono::Utc::now().timestamp();
    let last_activity = now - 600;

    let snap = build_activity_snapshot(
        "my-cluster",
        "prod",
        rate(0.0),
        rate(0.0),
        0,
        0,
        last_activity,
        300,
    );

    assert!(snap.is_idle);
    assert!(snap.idle_duration_seconds >= 300);
    assert_eq!(snap.cluster_name, "my-cluster");
    let stamp = chrono::DateTime::parse_from_rfc3339(&snap.last_activity_at).unwrap();
    assert_eq!(stamp.timestamp(), last_activity);
}

#[test]
fn test_build_activity_snapshot_active() {
    let now = chrono::Utc::now().timestamp();

    let snap = build_activity_snapshot(
        "my-cluster",
        "prod",
        rate(500.0),
        rate(100_000.0),
        5,
        200,
        now,
        300,
    );

    assert!(!snap.is_idle);
    assert_eq!(snap.active_connections, 5);
}

#[test]
fn a_snapshot_is_idle_from_the_timeout_on() {
    let at = |now| activity_snapshot_at("c", "n", rate(0.0), rate(0.0), 0, 0, 1_000, 300, now);
    assert!(!at(1_299).is_idle);
    assert!(at(1_300).is_idle);
    assert_eq!(at(1_300).idle_duration_seconds, 300);
    assert_eq!(at(900).idle_duration_seconds, 0);
    assert_eq!(at(1_300).last_activity_at, "1970-01-01T00:16:40+00:00");
    // A moment that no time stamp can name stands as the epoch.
    let far = activity_snapshot_at("c", "n", rate(0.0), rate(0.0), 0, 0, i64::MAX, 300, 0);
    assert_eq!(far.last_activity_at, "1970-01-01T00:00:00+00:00");
}

#[test]
fn test_keda_trigger_parsing() {
    let trigger = KedaTrigger {
        type_: "prometheus".to_string(),
        metadata: vec![
            KeyValue::new("metricName", "streamline_messages_total"),
            KeyValue::new("query", "sum(rate(streamline_messages_total[1m]))"),
            KeyValue::new("serverAddress", "http://prometheus:9090"),
            KeyValue::new("threshold", "100"),
        ],
    };
    assert_eq!(trigger.type_, "prometheus");
    assert_eq!(trigger.metadata.len(), 4);
    let threshold = trigger.metadata.iter().find(|e| e.key == "threshold").unwrap();
    assert_eq!(threshold.value, "100");
}

fn cluster() -> StreamlineCluster {
    let mut cluster = StreamlineCluster::new("orders", ClusterSpec::default());
    cluster.metadata.uid = Some("u-1".to_string());
    cluster
}

#[test]
fn without_keda_the_scaled_object_is_deleted() {
    let plan = ScaleToZeroController::keda_plan(&cluster(), "prod", &default_config()).unwrap();
    assert_eq!(plan, KedaPlan::Delete("orders-scaledobject".to_string()));
}

#[test]
fn keda_needs_its_configuration() {
    let mut config = default_config();
    config.keda_enabled = true;
    let error = ScaleToZeroController::keda_plan(&cluster(), "prod", &config).unwrap_err();
    assert!(matches!(&error, OperatorError::Configuration(_)));
    assert_eq!(
        error.to_string(),
        "Configuration error: KEDA is enabled but no keda config block was provided"
    );
}

#[test]
fn a_scaled_object_falls_back_to_the_metrics_of_the_cluster() {
    let mut config = default_config();
    config.keda_enabled = true;
    config.keda = Some(KedaConfig::schema_default());
    let plan = ScaleToZeroController::keda_plan(&cluster(), "prod", &config).unwrap();
    let object = match plan {
        KedaPlan::Apply(name, object) => {
            assert_eq!(name, "orders-scaledobject");
            object
        }
        other => panic!("{other:?}"),
    };
    assert_eq!(object.api_version, "keda.sh/v1alpha1");
    assert_eq!(object.kind, "ScaledObject");
    assert_eq!(object.metadata.name.as_deref(), Some("orders-scaledobject"));
    assert_eq!(object.metadata.namespace.as_deref(), Some("prod"));
    assert_eq!(object.target_kind, "StatefulSet");
    assert_eq!(object.target_name, "orders");
    assert_eq!(object.max_replica_count, 10);
    let owners = object.metadata.owner_references.unwrap();
    assert_eq!(owners[0].uid, "u-1");
    let labels = object.metadata.labels.unwrap();
    assert!(labels.contains(&KeyValue::new("app.kubernetes.io/component", "scale-to-zero")));
    assert!(labels.windows(2).all(|pair| pair[0].key < pair[1].key));
    let metadata = &object.triggers[0].metadata;
    assert!(metadata.windows(2).all(|pair| pair[0].key < pair[1].key));
    assert_eq!(object.triggers.len(), 1);
    assert_eq!(object.triggers[0].type_, "metrics-api");
    assert!(object.triggers[0].metadata.contains(&KeyValue::new(
        "url",
        "http://orders.prod.svc.cluster.local:9094/scaling/metrics"
    )));
}

#[test]
fn configured_triggers_are_kept() {
    let mut keda = KedaConfig::schema_default();
    keda.triggers = vec![KedaTrigger {
        type_: "kafka".to_string(),
        metadata: vec![KeyValue::new("topic", "my-topic")],
    }];
    let object = ScaleToZeroController::build_keda_scaled_object(&cluster(), "prod", &keda);
    assert_eq!(object.triggers, keda.triggers);
}

#[test]
fn test_scale_to_zero_config_custom_values() {
    let config = ScaleToZeroConfig {
        enabled: true,
        idle_timeout_seconds: 600,
        min_active_replicas: 2,
        cooldown_seconds: 60,
        keda_enabled: true,
        keda: Some(KedaConfig {
            polling_interval: 15,
            cooldown_period: 120,
            min_replica_count: 0,
            max_replica_count: 20,
            triggers: vec![KedaTrigger {
                type_: "kafka".to_string(),
                metadata: vec![
                    KeyValue::new("bootstrapServers", "streamline.default.svc:9092"),
                    KeyValue::new("consumerGroup", "my-group"),
                    KeyValue::new("lagThreshold", "10"),
                    KeyValue::new("topic", "my-topic"),
                ],
            }],
        }),
        ..default_config()
    };
    assert!(config.enabled);
    assert_eq!(config.idle_timeout_seconds, 600);
    assert_eq!(config.min_active_replicas, 2);
    assert!(config.keda_enabled);

    let keda = config.keda.unwrap();
    assert_eq!(keda.polling_interval, 15);
    assert_eq!(keda.max_replica_count, 20);
    assert_eq!(keda.triggers.len(), 1);
    assert_eq!(keda.triggers[0].type_, "kafka");
}
