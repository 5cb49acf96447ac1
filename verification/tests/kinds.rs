use streamline_operator::crd::branch::{BranchCondition, BranchRetention};
use streamline_operator::crd::user::{
    AuthenticationType, PatternType, PermissionType, ResourceType, UserAcl,
};
use streamline_operator::crd::topic::RetentionConfig;
use streamline_operator::crd::{
    BackupStorageType, BootstrapConfig, EdgeSpec, EdgeStatus, SyncConfig, TopicPhase, UserPhase,
};
use streamline_operator::upgrade::SUPPORTED_TOPIC_RETENTION_MS;
use streamline_operator::{
    BackupPhase, BackupSpec, BackupStatus, BackupStorage, BackupType, BranchPhase, BranchSpec,
    BranchStatus, ContractCompatibility, ContractPhase, ContractSpec, ContractStatus, MemoryCondition,
    MemoryDecay, MemoryPhase, MemorySpec, MemoryStatus, MemoryTiers, StreamlineBranch,
    StreamlineContract, StreamlineMemory, TopicSpec, UserPermission, UserSpec,
};

// -- Backups -----------------------------------------------------------

fn bucket() -> BackupStorage {
    BackupStorage {
        storage_type: BackupStorageType::S3,
        bucket: Some("my-backups".to_string()),
        endpoint: None,
        prefix: Some("streamline/".to_string()),
        credentials_secret: Some("backup-creds".to_string()),
        region: Some("us-east-1".to_string()),
        pvc_name: None,
    }
}

#[test]
fn test_backup_spec_defaults() {
    let spec = BackupSpec {
        cluster_ref: "my-cluster".to_string(),
        backup_type: BackupType::Full,
        storage: bucket(),
        schedule: Some("0 2 * * *".to_string()),
        retention_count: 7,
        topics: vec![],
        include_offsets: true,
        include_acls: true,
        include_configs: true,
        compression: "zstd".to_string(),
    };

    assert_eq!(spec.cluster_ref, "my-cluster");
    assert_eq!(spec.retention_count, 7);
    assert!(spec.include_offsets);
}

#[test]
fn test_backup_phase_default() {
    let status = BackupStatus::default();
    assert_eq!(status.phase, BackupPhase::Pending);
    assert_eq!(status.completed_backups, 0);
}

#[test]
fn a_minimal_backup_takes_the_defaults() {
    let spec = BackupSpec::new("my-cluster", bucket());
    assert_eq!(spec.backup_type, BackupType::default());
    assert_eq!(spec.retention_count, 5);
    assert_eq!(spec.compression, "zstd");
    assert!(spec.include_offsets && spec.include_acls && spec.include_configs);
    assert_eq!(spec.schedule, None);
    assert!(spec.topics.is_empty());
}

// -- Branches ----------------------------------------------------------

#[test]
fn test_branch_spec_minimal() {
    let spec = BranchSpec::new("prod");
    assert_eq!(spec.cluster_ref, "prod");
    assert!(spec.parent.is_none());
    assert!(spec.retention.is_none());
}

#[test]
fn test_branch_spec_with_parent_and_retention() {
    let spec = BranchSpec {
        parent: Some("main".to_string()),
        retention: Some(BranchRetention { ttl_seconds: 86400 }),
        ..BranchSpec::new("prod")
    };
    assert_eq!(spec.parent.as_deref(), Some("main"));
    assert_eq!(spec.retention.unwrap().ttl_seconds, 86400);
    assert_eq!(BranchRetention::default().ttl_seconds, 0);
}

#[test]
fn test_branch_phase_default_pending() {
    assert_eq!(BranchPhase::default(), BranchPhase::Pending);
}

#[test]
fn branch_statuses_copy_whole() {
    let s = BranchStatus {
        phase: BranchPhase::Ready,
        ready: true,
        created_at_ms: Some(99),
        message: Some("ok".into()),
        conditions: vec![BranchCondition {
            type_: "Ready".into(),
            status: "True".into(),
            last_transition_time: None,
            reason: None,
            message: None,
        }],
    };
    let back = s.clone();
    assert_eq!(back, s);
    assert_ne!(back, BranchStatus::default());
}

#[test]
fn test_branch_crd_renders() {
    let crd = StreamlineBranch::crd();
    assert_eq!(crd.spec.group, "streamline.io");
    assert_eq!(crd.spec.names.kind, "StreamlineBranch");
    assert_eq!(crd.spec.names.plural, "streamlinebranches");
    assert_eq!(crd.spec.names.short_name, "slb");
}

// -- Contracts ---------------------------------------------------------

#[test]
fn test_contract_spec_minimal() {
    let spec = ContractSpec::new("prod", r#"{"type":"object"}"#);
    assert_eq!(spec.cluster_ref, "prod");
    assert!(spec.schema_json.contains("object"));
    assert_eq!(spec.compatibility, ContractCompatibility::Backward);
    assert!(spec.bind_topics.is_empty());
}

#[test]
fn compatibility_policies_are_written_in_capitals() {
    assert_eq!(ContractCompatibility::Full.as_text(), "FULL");
    assert_eq!(ContractCompatibility::Unchecked.as_text(), "NONE");
    assert_eq!(ContractCompatibility::Forward.as_text(), "FORWARD");
    assert_eq!(ContractCompatibility::default().as_text(), "BACKWARD");
}

#[test]
fn test_contract_spec_with_bindings() {
    let spec = ContractSpec {
        compatibility: ContractCompatibility::Forward,
        bind_topics: vec!["orders".to_string(), "payments".to_string()],
        ..ContractSpec::new("prod", "{}")
    };
    assert_eq!(spec.compatibility, ContractCompatibility::Forward);
    assert_eq!(spec.bind_topics, vec!["orders", "payments"]);
}

#[test]
fn test_contract_phase_default() {
    assert_eq!(ContractPhase::default(), ContractPhase::Pending);
    assert!(!ContractStatus::default().registered);
}

#[test]
fn test_contract_crd_renders() {
    let crd = StreamlineContract::crd();
    assert_eq!(crd.spec.group, "streamline.io");
    assert_eq!(crd.spec.names.kind, "StreamlineContract");
}

// -- Memories ----------------------------------------------------------

#[test]
fn test_memory_spec_minimal() {
    let spec = MemorySpec::new("agent-001", "default", "prod");
    assert_eq!(spec.agent_id, "agent-001");
    assert_eq!(spec.tenant, "default");
    assert_eq!(spec.cluster_ref, "prod");
    assert_eq!(spec.tiers.episodic_retention_days, 30);
    assert_eq!(spec.tiers.semantic_retention_days, 365);
    assert_eq!(spec.tiers.procedural_retention_days, -1);
    assert!(spec.decay.is_none());
    assert!(!spec.encryption_enabled);
}

#[test]
fn test_memory_spec_full() {
    let spec = MemorySpec {
        tiers: MemoryTiers {
            episodic_retention_days: 7,
            semantic_retention_days: 90,
            procedural_retention_days: 180,
        },
        decay: Some(MemoryDecay {
            half_life_days_bits: 14.0f64.to_bits(),
            threshold_bits: 0.05f64.to_bits(),
        }),
        encryption_enabled: true,
        ..MemorySpec::new("agent-002", "acme", "staging")
    };
    assert_eq!(spec.tiers.episodic_retention_days, 7);
    assert_eq!(spec.tiers.semantic_retention_days, 90);
    assert_eq!(spec.tiers.procedural_retention_days, 180);
    let decay = spec.decay.unwrap();
    assert!((f64::from_bits(decay.half_life_days_bits) - 14.0).abs() < f64::EPSILON);
    assert!((f64::from_bits(decay.threshold_bits) - 0.05).abs() < f64::EPSILON);
    assert!(spec.encryption_enabled);
}

#[test]
fn the_default_decay_is_seven_days_and_a_tenth() {
    let decay = MemoryDecay::default();
    assert_eq!(f64::from_bits(decay.half_life_days_bits), 7.0);
    assert_eq!(f64::from_bits(decay.threshold_bits), 0.1);
}

#[test]
fn test_memory_phase_default() {
    assert_eq!(MemoryPhase::default(), MemoryPhase::Pending);
}

#[test]
fn memory_statuses_copy_whole() {
    let s = MemoryStatus {
        phase: MemoryPhase::Ready,
        ready: true,
        episodic_event_count: 42,
        semantic_event_count: 10,
        procedural_event_count: 3,
        message: Some("ok".into()),
        conditions: vec![MemoryCondition {
            type_: "Ready".into(),
            status: "True".into(),
            last_transition_time: None,
            reason: None,
            message: None,
        }],
    };
    let back = s.clone();
    assert_eq!(back, s);
    assert_eq!(MemoryStatus::default().episodic_event_count, 0);
}

#[test]
fn test_memory_crd_renders() {
    let crd = StreamlineMemory::crd();
    assert_eq!(crd.spec.group, "streamline.io");
    assert_eq!(crd.spec.names.kind, "StreamlineMemory");
}

// -- Topics ------------------------------------------------------------

#[test]
fn test_topic_spec_defaults() {
    let spec = TopicSpec::new("my-cluster");
    assert_eq!(spec.partitions, 3);
    assert_eq!(spec.replication_factor, 1);
    assert_eq!(spec.cluster_ref, "my-cluster");
}

/// The schema defaults must describe what the broker does, not a policy it
/// does not implement. Core applies no topic configuration, so retention
/// is unlimited on both axes.
#[test]
fn test_retention_defaults() {
    let retention = RetentionConfig::default();
    assert_eq!(
        retention.retention_ms, -1,
        "retentionMs must default to unlimited: core never expires a segment on age"
    );
    assert_eq!(retention.retention_bytes, -1);
    assert_eq!(retention.cleanup_policy, "delete");
}

/// A spec that omits `retention` must land on the same unlimited defaults, so
/// the value the controller compares against can never be a seven-day claim.
#[test]
fn an_unspecified_retention_is_unlimited_not_seven_days() {
    let spec = TopicSpec::new("my-cluster");

    assert_eq!(spec.retention.retention_ms, -1);
    assert_ne!(
        spec.retention.retention_ms, 604_800_000,
        "the 7-day default described retention the server never applies"
    );
    assert_eq!(
        spec.retention.retention_ms, spec.retention.retention_bytes,
        "both retention axes are unlimited; they must not disagree"
    );
    assert_eq!(TopicSpec::config_defaults().retention_ms, -1);
}

#[test]
fn config_defaults_match_the_schema_defaults() {
    let defaults = TopicSpec::config_defaults();
    let spec = TopicSpec::new("c");

    assert_eq!(defaults.retention_ms, spec.retention.retention_ms);
    assert_eq!(defaults.retention_bytes, spec.retention.retention_bytes);
    assert_eq!(defaults.cleanup_policy, spec.retention.cleanup_policy);
    assert_eq!(defaults.compression_type, spec.compression.type_);
    assert!(spec.config.min_insync_replicas.is_none());
    assert!(spec.config.custom.is_empty());
}

#[test]
fn test_topic_phase_default() {
    let phase = TopicPhase::default();
    assert_eq!(phase, TopicPhase::Pending);
}

/// The three nested defaults must agree with the schema they are corrected
/// against, or the guide sends people to patch a field into a value the
/// operator still rejects.
#[test]
fn the_supported_values_are_the_ones_the_current_schema_accepts() {
    let defaults = TopicSpec::config_defaults();
    assert_eq!(
        defaults.retention_ms, SUPPORTED_TOPIC_RETENTION_MS,
        "the guide patches retentionMs to the current schema default"
    );

    let spec = TopicSpec::new("c");
    assert!(
        spec.config.min_insync_replicas.is_none() && spec.config.max_message_bytes.is_none(),
        "the two config leaves must be optional, or removal would not be a valid fix"
    );
}

// -- Users -------------------------------------------------------------

#[test]
fn test_user_spec_parsing() {
    let spec = UserSpec::new("my-cluster", AuthenticationType::ScramSha256);
    assert_eq!(spec.cluster_ref, "my-cluster");
    assert_eq!(spec.authentication.type_, AuthenticationType::ScramSha256);
}

#[test]
fn test_acl_parsing() {
    let acl = UserAcl {
        resource_type: ResourceType::Topic,
        resource_name: "my-topic".to_string(),
        pattern_type: PatternType::Literal,
        operations: vec![UserPermission::Read, UserPermission::Write],
        permission: PermissionType::Allow,
    };
    assert_eq!(acl.resource_type, ResourceType::Topic);
    assert_eq!(acl.resource_name, "my-topic");
    assert_eq!(acl.operations.len(), 2);
}

#[test]
fn test_user_phase_default() {
    let phase = UserPhase::default();
    assert_eq!(phase, UserPhase::Pending);
}

// -- Edges -------------------------------------------------------------

#[test]
fn a_minimal_edge_takes_the_defaults() {
    let spec = EdgeSpec::new("prod");
    assert_eq!(spec.max_nodes, 100);
    assert!(spec.sync_topics.is_empty());
    assert_eq!(spec.bootstrap, None);
    let sync = SyncConfig::schema_default();
    assert_eq!((sync.batch_interval_ms, sync.max_batch_bytes), (1000, 1_048_576));
    assert!(!sync.adaptive_sync);
    assert_eq!(EdgeStatus::default().phase, "");
    let bootstrap = BootstrapConfig {
        token_secret_ref: "token".to_string(),
        ttl_seconds: 0,
        single_use: true,
    };
    assert_eq!(bootstrap.clone(), bootstrap);
}
