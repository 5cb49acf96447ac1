//! Laws of defaults: what a manifest has that leaves something out.

use crate::controllers::autoscaling;
use crate::controllers::operator_hub;
use crate::controllers::scale_to_zero;
use crate::controllers::{
    AutoScalingConfig, HubConfig, KedaConfig, ScaleToZeroConfig, TopicController,
};
use crate::crd::backup;
use crate::crd::cluster;
use crate::crd::contract;
use crate::crd::definition;
use crate::crd::definition::ResourceDefinition;
use crate::crd::edge;
use crate::crd::memory;
use crate::crd::topic;
use crate::crd::topic::TopicConfigDefaults;
use crate::crd::user;
use crate::crd::user::{AuthenticationType, AuthorizationType};
use crate::crd::{
    AutoScalingSpec, BackupSpec, BackupStorage, BackupType, BranchSpec, ClusterSpec,
    ContractCompatibility, ContractSpec, EdgeSpec, MemorySpec, StreamlineBranch,
    StreamlineCluster, StreamlineContract, StreamlineMemory, StreamlineTopic, StreamlineUser,
    SyncConfig, TopicSpec, UserSpec,
};
use crate::objects::ResourceMeta;
use vstd::prelude::*;

verus! {

/// Whether an object has a name and nothing else is known of it.
pub open spec fn only_named(metadata: ResourceMeta, name: Seq<char>) -> bool {
    &&& metadata.name@ == name
    &&& metadata.namespace is None
    &&& metadata.uid is None
    &&& metadata.generation is None
    &&& !metadata.deleting
    &&& metadata.finalizers@.len() == 0
}

proof fn lemma_only_named(metadata: ResourceMeta, name: Seq<char>)
    requires
        metadata.deep_view() == crate::objects::named_meta(name),
    ensures
        only_named(metadata, name),
{
    let view = metadata.deep_view();
    assert(view.namespace == metadata.namespace.deep_view());
    assert(view.uid == metadata.uid.deep_view());
    assert(view.finalizers == metadata.finalizers.deep_view());
    assert(view.finalizers.len() == metadata.finalizers@.len());
}

/// A new object has the given name and specification, and no status.
pub proof fn law_a_new_object_has_no_status(
    name: &str,
    cluster_spec: ClusterSpec,
    cluster: StreamlineCluster,
    topic_spec: TopicSpec,
    topic: StreamlineTopic,
    user_spec: UserSpec,
    user: StreamlineUser,
)
    requires
        call_ensures(StreamlineCluster::new, (name, cluster_spec), cluster),
        call_ensures(StreamlineTopic::new, (name, topic_spec), topic),
        call_ensures(StreamlineUser::new, (name, user_spec), user),
    ensures
        only_named(cluster.metadata, name@) && cluster.status is None,
        cluster.spec.deep_view() == cluster_spec.deep_view(),
        only_named(topic.metadata, name@) && topic.status is None,
        topic.spec.deep_view() == topic_spec.deep_view(),
        only_named(user.metadata, name@) && user.status is None,
        user.spec.deep_view() == user_spec.deep_view(),
{
    assert(cluster.deep_view().metadata == cluster.metadata.deep_view());
    assert(topic.deep_view().metadata == topic.metadata.deep_view());
    assert(user.deep_view().metadata == user.metadata.deep_view());
    assert(cluster.deep_view().status == cluster.status.deep_view());
    assert(topic.deep_view().status == topic.status.deep_view());
    assert(user.deep_view().status == user.status.deep_view());
    lemma_only_named(cluster.metadata, name@);
    lemma_only_named(topic.metadata, name@);
    lemma_only_named(user.metadata, name@);
}

/// The same holds of branches, contracts and memories.
pub proof fn law_every_new_object_has_no_status(
    name: &str,
    branch_spec: BranchSpec,
    branch: StreamlineBranch,
    contract_spec: ContractSpec,
    contract: StreamlineContract,
    memory_spec: MemorySpec,
    memory: StreamlineMemory,
)
    requires
        call_ensures(StreamlineBranch::new, (name, branch_spec), branch),
        call_ensures(StreamlineContract::new, (name, contract_spec), contract),
        call_ensures(StreamlineMemory::new, (name, memory_spec), memory),
    ensures
        only_named(branch.metadata, name@) && branch.status is None,
        branch.spec.deep_view() == branch_spec.deep_view(),
        only_named(contract.metadata, name@) && contract.status is None,
        contract.spec.deep_view() == contract_spec.deep_view(),
        only_named(memory.metadata, name@) && memory.status is None,
        memory.spec.deep_view() == memory_spec.deep_view(),
{
    assert(branch.deep_view().metadata == branch.metadata.deep_view());
    assert(contract.deep_view().metadata == contract.metadata.deep_view());
    assert(memory.deep_view().metadata == memory.metadata.deep_view());
    assert(branch.deep_view().status == branch.status.deep_view());
    assert(contract.deep_view().status == contract.status.deep_view());
    assert(memory.deep_view().status == memory.status.deep_view());
    lemma_only_named(branch.metadata, name@);
    lemma_only_named(contract.metadata, name@);
    lemma_only_named(memory.metadata, name@);
}

/// An empty cluster specification asks for one broker of the shipped image on the three usual
/// ports, with ten gigabytes and without limits, and passes validation.
pub proof fn law_an_empty_cluster_is_one_broker(
    spec: ClusterSpec,
    checked: core::result::Result<(), Vec<String>>,
)
    requires
        call_ensures(<ClusterSpec as Default>::default, (), spec),
        call_ensures(ClusterSpec::validate, (&spec,), checked),
    ensures
        checked is Ok,
        spec.replicas == 1,
        spec.image@ == "ghcr.io/streamlinelabs/streamline:0.4.0"@,
        spec.image_pull_policy@ == "IfNotPresent"@,
        spec.resources.limits.cpu is None && spec.resources.limits.memory is None,
        spec.resources.requests.cpu is None && spec.resources.requests.memory is None,
        spec.storage.storage_class_name is None && spec.storage.size@ == "10Gi"@,
        spec.storage.access_modes.deep_view() == seq!["ReadWriteOnce"@],
        spec.tls is None,
        spec.kafka_port == 9092 && spec.http_port == 9094 && spec.raft_port == 9095,
        spec.env@.len() == 0,
        spec.node_selector@.len() == 0,
        spec.tolerations@.len() == 0,
        !spec.pod_anti_affinity,
        spec.rack_awareness is None,
        spec.service_account_name is None,
        spec.log_level@ == "info"@,
        spec.metrics_enabled,
        spec.update_strategy.type_@ == "RollingUpdate"@,
        spec.update_strategy.max_unavailable == Some(1i32),
        spec.autoscaling is None,
{
    let view = spec.deep_view();
    cluster::law_the_default_specification_is_accepted();
    assert(view.env.len() == spec.env@.len());
    assert(view.node_selector.len() == spec.node_selector@.len());
    assert(view.tolerations.len() == spec.tolerations@.len());
    assert(view.tls == spec.tls.deep_view());
    assert(view.rack_awareness == spec.rack_awareness.deep_view());
    assert(view.autoscaling == spec.autoscaling.deep_view());
    assert(view.service_account_name == spec.service_account_name.deep_view());
    let resources = spec.resources;
    assert(view.resources == resources.deep_view());
    assert(resources.deep_view().limits == resources.limits.deep_view());
    assert(resources.deep_view().requests == resources.requests.deep_view());
    assert(resources.limits.deep_view().cpu == resources.limits.cpu.deep_view());
    assert(resources.limits.deep_view().memory == resources.limits.memory.deep_view());
    assert(resources.requests.deep_view().cpu == resources.requests.cpu.deep_view());
    assert(resources.requests.deep_view().memory == resources.requests.memory.deep_view());
    let storage = spec.storage;
    assert(view.storage == storage.deep_view());
    assert(storage.deep_view().storage_class_name == storage.storage_class_name.deep_view());
}

/// Each field of a cluster that is left out has its default.
pub proof fn law_cluster_fields_have_defaults(
    replicas: i32,
    image: String,
    policy: String,
    kafka: i32,
    http: i32,
    raft: i32,
    size: String,
    rack: String,
    level: String,
    flag: bool,
    update: String,
    modes: Vec<String>,
)
    requires
        call_ensures(cluster::default_replicas, (), replicas),
        call_ensures(cluster::default_image, (), image),
        call_ensures(cluster::default_pull_policy, (), policy),
        call_ensures(cluster::default_kafka_port, (), kafka),
        call_ensures(cluster::default_http_port, (), http),
        call_ensures(cluster::default_raft_port, (), raft),
        call_ensures(cluster::default_storage_size, (), size),
        call_ensures(cluster::default_rack_label, (), rack),
        call_ensures(cluster::default_log_level, (), level),
        call_ensures(cluster::default_true, (), flag),
        call_ensures(cluster::default_update_type, (), update),
        call_ensures(cluster::default_access_modes, (), modes),
    ensures
        replicas == 1,
        image@ == "ghcr.io/streamlinelabs/streamline:0.4.0"@,
        policy@ == "IfNotPresent"@,
        kafka == 9092,
        http == 9094,
        raft == 9095,
        size@ == "10Gi"@,
        rack@ == "topology.kubernetes.io/zone"@,
        level@ == "info"@,
        flag,
        update@ == "RollingUpdate"@,
        modes.deep_view() == seq!["ReadWriteOnce"@],
{
}

/// Autoscaling that is left out, or opened and left empty, is off and has the same numbers in the
/// manifest and in the autoscaler.
pub proof fn law_autoscaling_is_off_unless_asked_for(
    spec: AutoScalingSpec,
    config: AutoScalingConfig,
    least: i32,
    most: i32,
    cpu: i32,
    memory: i32,
    lag: i64,
    rate: i64,
    metric: String,
    target: String,
)
    requires
        call_ensures(AutoScalingSpec::schema_default, (), spec),
        call_ensures(AutoScalingConfig::schema_default, (), config),
        call_ensures(cluster::default_min_replicas, (), least),
        call_ensures(cluster::default_max_replicas, (), most),
        call_ensures(cluster::default_cpu_target, (), cpu),
        call_ensures(cluster::default_memory_target, (), memory),
        call_ensures(cluster::default_lag_threshold, (), lag),
        call_ensures(cluster::default_mps_threshold, (), rate),
        call_ensures(autoscaling::default_metric_type, (), metric),
        call_ensures(autoscaling::default_target_type, (), target),
    ensures
        !spec.enabled && !config.enabled,
        !spec.partition_aware && !config.partition_aware,
        spec.min_replicas == least && config.min_replicas == least && least == 1,
        spec.max_replicas == most && config.max_replicas == most && most == 10,
        spec.target_cpu_utilization == cpu && config.target_cpu_utilization == cpu && cpu == 70,
        spec.target_memory_utilization == memory && config.target_memory_utilization == memory
            && memory == 80,
        spec.target_lag_per_partition == lag && config.target_lag_per_partition == lag && lag
            == 10_000,
        spec.target_messages_per_second == rate && config.target_messages_per_second == rate && rate
            == 100_000,
        spec.behavior is None && config.behavior is None,
        config.custom_metrics@.len() == 0,
        metric@ == "Pods"@,
        target@ == "AverageValue"@,
{
    let a = spec.deep_view();
    let b = config.deep_view();
    assert(a.behavior == spec.behavior.deep_view());
    assert(b.behavior == config.behavior.deep_view());
    assert(b.custom_metrics.len() == config.custom_metrics@.len());
}

/// Scaling to zero is off unless it is asked for, and waits five minutes of idleness and two of
/// cooldown.
pub proof fn law_scaling_to_zero_is_off_unless_asked_for(
    config: ScaleToZeroConfig,
    keda: KedaConfig,
    idle: u64,
    active: i32,
    cooldown: u64,
    polling: u64,
    keda_polling: i32,
    keda_cooldown: i32,
    keda_most: i32,
)
    requires
        call_ensures(ScaleToZeroConfig::schema_default, (), config),
        call_ensures(KedaConfig::schema_default, (), keda),
        call_ensures(scale_to_zero::default_idle_timeout_seconds, (), idle),
        call_ensures(scale_to_zero::default_min_active_replicas, (), active),
        call_ensures(scale_to_zero::default_cooldown_seconds, (), cooldown),
        call_ensures(scale_to_zero::default_polling_interval_seconds, (), polling),
        call_ensures(scale_to_zero::default_keda_polling_interval, (), keda_polling),
        call_ensures(scale_to_zero::default_keda_cooldown_period, (), keda_cooldown),
        call_ensures(scale_to_zero::default_keda_max_replicas, (), keda_most),
    ensures
        !config.enabled && !config.keda_enabled && config.keda is None,
        config.idle_timeout_seconds == idle && idle == 300,
        config.min_active_replicas == active && active == 1,
        config.cooldown_seconds == cooldown && cooldown == 120,
        config.polling_interval_seconds == polling && polling == 30,
        keda.polling_interval == keda_polling && keda_polling == 30,
        keda.cooldown_period == keda_cooldown && keda_cooldown == 300,
        keda.min_replica_count == 0,
        keda.max_replica_count == keda_most && keda_most == 10,
        keda.triggers@.len() == 0,
{
    let a = config.deep_view();
    let b = keda.deep_view();
    assert(a.keda == config.keda.deep_view());
    assert(b.triggers.len() == keda.triggers@.len());
}

/// A topic that names only its cluster asks for three partitions in one copy and for nothing that
/// the server cannot apply.
pub proof fn law_a_minimal_topic_is_supported(
    cluster_ref: &str,
    spec: TopicSpec,
    unsupported: Vec<String>,
    defaults: TopicConfigDefaults,
    partitions: i32,
    copies: i32,
    ms: i64,
    bytes: i64,
    policy: String,
    compression: String,
)
    requires
        call_ensures(TopicSpec::new, (cluster_ref,), spec),
        call_ensures(TopicController::unsupported_fields, (&spec,), unsupported),
        call_ensures(TopicSpec::config_defaults, (), defaults),
        call_ensures(topic::default_partitions, (), partitions),
        call_ensures(topic::default_replication_factor, (), copies),
        call_ensures(topic::default_retention_ms, (), ms),
        call_ensures(topic::default_retention_bytes, (), bytes),
        call_ensures(topic::default_cleanup_policy, (), policy),
        call_ensures(topic::default_compression_type, (), compression),
    ensures
        unsupported@.len() == 0,
        spec.cluster_ref@ == cluster_ref@,
        spec.partitions == partitions && partitions == 3,
        spec.replication_factor == copies && copies == 1,
        spec.retention.retention_ms == ms && defaults.retention_ms == ms && ms == -1,
        spec.retention.retention_bytes == bytes && defaults.retention_bytes == bytes && bytes == -1,
        spec.retention.cleanup_policy@ == policy@ && defaults.cleanup_policy@ == policy@ && policy@
            == "delete"@,
        spec.compression.type_@ == compression@ && defaults.compression_type@ == compression@
            && compression@ == "producer"@,
{
    let view = spec.deep_view();
    crate::controllers::topic::law_the_default_topic_is_accepted(cluster_ref@);
    assert(unsupported.deep_view().len() == unsupported@.len());
    let seen = defaults.deep_view();
}

/// The other kinds, where they name no more than they must.
pub proof fn law_other_kinds_have_defaults(
    cluster_ref: &str,
    text: &str,
    agent: &str,
    tenant: &str,
    storage: BackupStorage,
    authentication: AuthenticationType,
    contract: ContractSpec,
    branch: BranchSpec,
    memory: MemorySpec,
    backup: BackupSpec,
    edge: EdgeSpec,
    user: UserSpec,
)
    requires
        call_ensures(ContractSpec::new, (cluster_ref, text), contract),
        call_ensures(BranchSpec::new, (cluster_ref,), branch),
        call_ensures(MemorySpec::new, (agent, tenant, cluster_ref), memory),
        call_ensures(BackupSpec::new, (cluster_ref, storage), backup),
        call_ensures(EdgeSpec::new, (cluster_ref,), edge),
        call_ensures(UserSpec::new, (cluster_ref, authentication), user),
    ensures
        contract.cluster_ref@ == cluster_ref@ && contract.schema_json@ == text@
            && contract.compatibility == ContractCompatibility::Backward
            && contract.bind_topics@.len() == 0,
        branch.cluster_ref@ == cluster_ref@ && branch.parent is None && branch.description is None
            && branch.retention is None,
        memory.cluster_ref@ == cluster_ref@ && memory.agent_id@ == agent@ && memory.tenant@
            == tenant@ && memory.decay is None,
        memory.tiers.episodic_retention_days == 30 && memory.tiers.semantic_retention_days == 365
            && memory.tiers.procedural_retention_days == -1,
        backup.cluster_ref@ == cluster_ref@ && backup.backup_type == BackupType::Full
            && backup.retention_count == 5 && backup.compression@ == "zstd"@
            && backup.include_offsets && backup.include_acls && backup.include_configs
            && backup.schedule is None && backup.topics@.len() == 0
            && backup.storage.deep_view() == storage.deep_view(),
        edge.cluster_ref@ == cluster_ref@ && edge.max_nodes == 100 && edge.sync_topics@.len() == 0
            && edge.bootstrap is None && edge.sync is None,
        user.cluster_ref@ == cluster_ref@ && user.authentication.type_ == authentication
            && user.authentication.credentials is None && user.authorization.type_
            == AuthorizationType::Simple && user.authorization.acls@.len() == 0
            && user.quotas is None,
{
    assert(contract.deep_view().bind_topics.len() == contract.bind_topics@.len());
    assert(branch.deep_view().parent == branch.parent.deep_view());
    assert(branch.deep_view().description == branch.description.deep_view());
    assert(branch.deep_view().retention == branch.retention.deep_view());
    assert(memory.deep_view().decay == memory.decay.deep_view());
    assert(backup.deep_view().schedule == backup.schedule.deep_view());
    assert(backup.deep_view().topics.len() == backup.topics@.len());
    assert(edge.deep_view().sync_topics.len() == edge.sync_topics@.len());
    assert(edge.deep_view().bootstrap == edge.bootstrap.deep_view());
    assert(edge.deep_view().sync == edge.sync.deep_view());
    let view = user.deep_view();
    assert(view.authentication == user.authentication.deep_view());
    assert(user.authentication.deep_view().credentials
        == user.authentication.credentials.deep_view());
    assert(view.authorization == user.authorization.deep_view());
    assert(user.authorization.deep_view().acls.len() == user.authorization.acls@.len());
    assert(view.quotas == user.quotas.deep_view());
}

/// The remaining fields that are left out have their defaults.
pub proof fn law_remaining_fields_have_defaults(
    kind: BackupType,
    kept: u32,
    flag: bool,
    compression: String,
    nodes: u32,
    interval: u64,
    bytes: u64,
    sync: SyncConfig,
    episodic: i64,
    semantic: i64,
    procedural: i64,
    half_life: u64,
    threshold: u64,
    compatibility: ContractCompatibility,
    key: String,
    registry: String,
    installed: usize,
    hub: HubConfig,
)
    requires
        call_ensures(backup::default_backup_type, (), kind),
        call_ensures(backup::default_retention_count, (), kept),
        call_ensures(backup::default_true, (), flag),
        call_ensures(backup::default_compression, (), compression),
        call_ensures(edge::default_max_nodes, (), nodes),
        call_ensures(edge::default_batch_interval, (), interval),
        call_ensures(edge::default_max_batch_bytes, (), bytes),
        call_ensures(SyncConfig::schema_default, (), sync),
        call_ensures(memory::default_episodic_retention, (), episodic),
        call_ensures(memory::default_semantic_retention, (), semantic),
        call_ensures(memory::default_procedural_retention, (), procedural),
        call_ensures(memory::default_half_life, (), half_life),
        call_ensures(memory::default_threshold, (), threshold),
        call_ensures(contract::default_compatibility, (), compatibility),
        call_ensures(user::default_password_key, (), key),
        call_ensures(operator_hub::default_registry_url, (), registry),
        call_ensures(operator_hub::default_max_installed, (), installed),
        call_ensures(<HubConfig as Default>::default, (), hub),
    ensures
        kind == BackupType::Full,
        kept == 5,
        flag,
        compression@ == "zstd"@,
        nodes == 100,
        sync.batch_interval_ms == interval && interval == 1000,
        sync.max_batch_bytes == bytes && bytes == 1024 * 1024,
        !sync.adaptive_sync,
        episodic == 30,
        semantic == 365,
        procedural == -1,
        half_life == 0x401c_0000_0000_0000,
        threshold == 0x3fb9_9999_9999_999a,
        compatibility == ContractCompatibility::Backward,
        key@ == "password"@,
        hub.registry_url@ == registry@ && registry@ == "https://hub.streamline.dev/operators"@,
        hub.max_installed == installed && installed == 50,
        !hub.auto_update,
        !hub.require_verified,
{
    let view = hub.deep_view();
}

/// A kind is defined in the group of the operator, in a namespace, under the names it is given;
/// the branch, the contract and the memory each have theirs.
pub proof fn law_every_kind_is_defined_in_one_group(
    kind: &str,
    plural: &str,
    short_name: &str,
    defined: ResourceDefinition,
    branch: ResourceDefinition,
    contract: ResourceDefinition,
    memory: ResourceDefinition,
)
    requires
        call_ensures(definition::define, (kind, plural, short_name), defined),
        call_ensures(StreamlineBranch::crd, (), branch),
        call_ensures(StreamlineContract::crd, (), contract),
        call_ensures(StreamlineMemory::crd, (), memory),
    ensures
        defined.spec.group@ == "streamline.io"@,
        defined.spec.version@ == "v1alpha1"@,
        defined.spec.namespaced,
        defined.spec.names.kind@ == kind@,
        defined.spec.names.plural@ == plural@,
        defined.spec.names.short_name@ == short_name@,
        kind@ == "StreamlineBranch"@ && plural@ == "streamlinebranches"@ && short_name@ == "slb"@
            ==> branch.deep_view() == defined.deep_view(),
        kind@ == "StreamlineContract"@ && plural@ == "streamlinecontracts"@ && short_name@
            == "slc"@ ==> contract.deep_view() == defined.deep_view(),
        kind@ == "StreamlineMemory"@ && plural@ == "streamlinememories"@ && short_name@ == "slm"@
            ==> memory.deep_view() == defined.deep_view(),
{
    let view = defined.deep_view();
    assert(view.spec == defined.spec.deep_view());
    assert(view.spec.names == defined.spec.names.deep_view());
}

} // verus!
