use streamline_operator::fixture::{validate_fixture_contents, PlannedCluster, PlannedTopic};
use streamline_operator::{
    ClusterSpec, ClusterTls, StreamlineCluster, StreamlineTopic, TopicSpec,
};

fn valid_cluster() -> PlannedCluster {
    let mut spec = ClusterSpec {
        replicas: 1,
        image: "registry.example/streamline-cloud-data-plane:test".to_string(),
        image_pull_policy: "IfNotPresent".to_string(),
        tls: Some(ClusterTls {
            enabled: true,
            secret_name: "orders-tls".to_string(),
            mtls_enabled: false,
            ca_secret_name: None,
            insecure_skip_verify: false,
        }),
        kafka_port: 9092,
        http_port: 9094,
        metrics_enabled: true,
        log_level: "info".to_string(),
        ..Default::default()
    };
    spec.resources.requests.cpu = Some("500m".to_string());
    spec.resources.requests.memory = Some("1Gi".to_string());
    spec.resources.limits.cpu = Some("2".to_string());
    spec.resources.limits.memory = Some("4Gi".to_string());
    spec.storage.size = "10Gi".to_string();
    spec.storage.storage_class_name = Some("gp3".to_string());
    spec.update_strategy.type_ = "RollingUpdate".to_string();
    spec.update_strategy.max_unavailable = Some(1);
    PlannedCluster {
        plan: "pro".to_string(),
        cluster: StreamlineCluster::new("orders", spec),
    }
}

fn valid_topic() -> PlannedTopic {
    let mut topic = StreamlineTopic::new(
        "events",
        TopicSpec {
            partitions: 3,
            replication_factor: 1,
            ..TopicSpec::new("orders")
        },
    );
    topic.metadata.namespace = Some("sl-fixture".to_string());
    PlannedTopic {
        plan: "pro".to_string(),
        topic,
    }
}

#[test]
fn accepts_resources_the_operator_accepts() {
    assert_eq!(
        validate_fixture_contents(&vec![valid_cluster()], &vec![valid_topic()]).unwrap(),
        (1, 1)
    );
}

#[test]
fn rejects_a_cluster_the_operator_rejects() {
    let mut entry = valid_cluster();
    entry.cluster.spec.pod_anti_affinity = true;

    let error = validate_fixture_contents(&vec![entry], &vec![valid_topic()])
        .expect_err("pod anti-affinity must be rejected");
    assert!(error.contains("ClusterSpec::validate()"));
    assert!(error.contains("podAntiAffinity"));
    assert!(error.starts_with("streamlineClusters.pro is rejected by"));
}

#[test]
fn rejects_a_topic_the_operator_rejects() {
    let mut entry = valid_topic();
    entry.topic.spec.retention.retention_ms = 604_800_000;

    let error = validate_fixture_contents(&vec![valid_cluster()], &vec![valid_topic(), entry])
        .expect_err("finite retention must be rejected");
    assert!(error.contains("TopicController::unsupported_fields()"));
    assert!(error.contains("retention.retentionMs"));
}

#[test]
fn a_fixture_holds_both_kinds() {
    assert_eq!(
        validate_fixture_contents(&vec![], &vec![valid_topic()]).unwrap_err(),
        "cloud fixture contains no StreamlineCluster resources"
    );
    assert_eq!(
        validate_fixture_contents(&vec![valid_cluster()], &vec![]).unwrap_err(),
        "cloud fixture contains no StreamlineTopic resources"
    );
}

#[test]
fn of_two_rejected_plans_the_first_is_reported() {
    let mut basic = valid_cluster();
    basic.plan = "basic".to_string();
    basic.cluster.spec.replicas = 3;
    let mut pro = valid_cluster();
    pro.cluster.spec.replicas = 3;
    let message = validate_fixture_contents(&vec![basic, pro], &vec![valid_topic()]).unwrap_err();
    assert!(message.starts_with("streamlineClusters.basic is rejected"), "{message}");
    let mut topic = valid_topic();
    topic.topic.spec.replication_factor = 2;
    let mut later = valid_topic();
    later.plan = "scale".to_string();
    later.topic.spec.replication_factor = 2;
    let message =
        validate_fixture_contents(&vec![valid_cluster()], &vec![topic, later]).unwrap_err();
    assert!(message.starts_with("streamlineTopics.pro is rejected"), "{message}");
}
