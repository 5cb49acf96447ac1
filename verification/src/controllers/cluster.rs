//! Cluster controller.
//!
//! Renders the StatefulSet, Services and ConfigMap of a StreamlineCluster, decides what a
//! reconcile does, and builds the status it publishes.

use crate::clock;
use crate::conditions;
use crate::conditions::{
    condition_at, set_conditions, ConditionFields, ConditionView, CLUSTER_CONDITION_AVAILABLE,
    CLUSTER_CONDITION_DEGRADED, CLUSTER_CONDITION_PROGRESSING, CLUSTER_CONDITION_READY,
    CLUSTER_FINALIZER, CONDITION_FALSE, CONDITION_TRUE,
};
use crate::controllers;
use crate::controllers::autoscaling;
use crate::controllers::autoscaling::{AutoScalingConfig, AutoScalingConfigView};
use crate::controllers::{NextReconcile, ReconcileVerdict};
use crate::crd::cluster;
use crate::crd::cluster::{
    AutoScalingSpecView, ClusterSpecView, ClusterStatusView, ClusterStorageView, ClusterTlsView,
    EnvVarRef, EnvVarRefView, EnvVarView, ResourceList, ResourceListView,
    ResourceRequirementsView, UpdateStrategy, UpdateStrategyView,
};
use crate::crd::{
    ClusterCondition, ClusterPhase, ClusterSpec, ClusterStatus, ClusterStorage,
    ResourceRequirements, StreamlineCluster, StreamlineClusterView,
};
use crate::manifests::{
    ConfigMap, ConfigMapView, ConfigMapVolumeSource, ConfigMapVolumeSourceView, Container,
    ContainerEnvVar, ContainerEnvVarSource, ContainerEnvVarSourceView, ContainerEnvVarView,
    ContainerPort, ContainerPortView, ContainerResources, ContainerResourcesView, ContainerView,
    HttpGetAction, HttpGetActionView, KeySelector, KeySelectorView, LabelSelector,
    LabelSelectorView, ObjectFieldSelector, ObjectFieldSelectorView, ObjectMeta, ObjectMetaView,
    OwnerReference, OwnerReferenceView, PersistentVolumeClaim, PersistentVolumeClaimSpec,
    PersistentVolumeClaimSpecView, PersistentVolumeClaimView, PodSecurityContext,
    PodSecurityContextView, PodSpec, PodSpecView, PodTemplateSpec, PodTemplateSpecView, Probe,
    ProbeView, RollingUpdateStatefulSetStrategy, RollingUpdateStatefulSetStrategyView,
    SecretVolumeSource, SecretVolumeSourceView, Service, ServicePort, ServicePortView, ServiceSpec,
    ServiceSpecView, ServiceView, StatefulSet, StatefulSetSpec, StatefulSetSpecView,
    StatefulSetUpdateStrategy, StatefulSetUpdateStrategyView, StatefulSetView, Volume, VolumeMount,
    VolumeMountView, VolumeView,
};
use crate::objects;
use crate::objects::{KeyValue, KeyValueView};
use crate::text;
use vstd::prelude::*;
use vstd::string::*;

verus! {

/// File name of the rendered broker configuration inside the ConfigMap and the
/// mounted config directory.
pub const CONFIG_FILE_NAME: &'static str = "streamline.toml";

/// Directory the rendered configuration is mounted at inside the broker pod.
pub const CONFIG_MOUNT_PATH: &'static str = "/etc/streamline";

/// Absolute path of the rendered configuration inside the broker pod.
pub const CONFIG_FILE_PATH: &'static str = "/etc/streamline/streamline.toml";

/// Directory the server TLS keypair is mounted at inside the broker pod.
///
/// This is deliberately a **sibling** of [`CONFIG_MOUNT_PATH`], not a
/// subdirectory of it: a Secret volume nested inside the read-only ConfigMap
/// mount is not a layout kubelet guarantees.
pub const TLS_MOUNT_PATH: &'static str = "/etc/streamline-tls";

/// Directory the client CA bundle (mTLS) is mounted at inside the broker pod.
pub const TLS_CA_MOUNT_PATH: &'static str = "/etc/streamline-tls-ca";

/// Volume name for the server TLS keypair.
pub const TLS_VOLUME_NAME: &'static str = "tls";

/// Volume name for the client CA bundle.
pub const TLS_CA_VOLUME_NAME: &'static str = "tls-ca";

/// Directory the broker keeps its data in.
pub const DATA_MOUNT_PATH: &'static str = "/data";

/// Message of the Progressing condition of a spec that failed validation.
pub const BLOCKED_MESSAGE: &'static str = "Reconciliation is blocked until the spec is corrected";

/// The cluster controller.
#[derive(Clone, Copy, Debug)]
pub struct ClusterController;

/// One step of reconciling a cluster.
#[derive(Clone, Copy, Debug, PartialEq, Eq, Structural)]
pub enum ClusterStep {
    /// Delete the volume claims that carry the instance label of the cluster
    CleanUpVolumes,
    /// Write back the finalizers without the one of this operator
    RemoveFinalizer,
    /// Set the finalizer of this operator
    AddFinalizer,
    /// Delete the autoscaler, if there is one
    DeleteHpa,
    /// Create or update the ConfigMap
    ApplyConfigMap,
    /// Create or update the headless Service
    ApplyHeadlessService,
    /// Create or update the client-facing Service
    ApplyClientService,
    /// Create or update the StatefulSet
    ApplyStatefulSet,
    /// Create or update the autoscaler
    ApplyHpa,
    /// Publish the status of a spec that failed validation
    PublishInvalidStatus,
    /// Count the ready pods and publish the status they amount to
    PublishObservedStatus,
}

impl DeepView for ClusterStep {
    type V = Self;

    open spec fn deep_view(&self) -> Self {
        *self
    }
}

/// What reconciling a cluster amounts to.
#[derive(Debug, PartialEq, Eq)]
pub struct ClusterPlan {
    /// The steps, in order; a step that fails ends the reconcile.
    pub steps: Vec<ClusterStep>,
    /// When the cluster is reconciled next.
    pub next: NextReconcile,
    /// How the reconcile counts.
    pub verdict: ReconcileVerdict,
}

/// What a [`ClusterPlan`] holds, over characters and sequences.
#[verifier::ext_equal]
pub struct ClusterPlanView {
    pub steps: Seq<ClusterStep>,
    pub next: NextReconcile,
    pub verdict: ReconcileVerdict,
}

impl DeepView for ClusterPlan {
    type V = ClusterPlanView;

    open spec fn deep_view(&self) -> ClusterPlanView {
        ClusterPlanView {
            steps: self.steps.deep_view(),
            next: self.next,
            verdict: self.verdict,
        }
    }
}

/// The conditions of a pod, as far as it has published any.
#[derive(Debug, PartialEq, Eq)]
pub struct PodReport {
    pub conditions: Option<Vec<PodCondition>>,
}

/// What a [`PodReport`] holds, over characters and sequences.
#[verifier::ext_equal]
pub struct PodReportView {
    pub conditions: Option<Seq<PodConditionView>>,
}

impl DeepView for PodReport {
    type V = PodReportView;

    open spec fn deep_view(&self) -> PodReportView {
        PodReportView {
            conditions: self.conditions.deep_view(),
        }
    }
}

/// One condition of a pod.
#[derive(Debug, PartialEq, Eq)]
pub struct PodCondition {
    pub type_: String,
    pub status: String,
}

/// What a [`PodCondition`] holds, over characters and sequences.
#[verifier::ext_equal]
pub struct PodConditionView {
    pub type_: Seq<char>,
    pub status: Seq<char>,
}

impl DeepView for PodCondition {
    type V = PodConditionView;

    open spec fn deep_view(&self) -> PodConditionView {
        PodConditionView {
            type_: self.type_@,
            status: self.status@,
        }
    }
}

// ---------------------------------------------------------------------------
// Names, labels and ownership
// ---------------------------------------------------------------------------

/// The labels of everything rendered for a cluster, in key order.
pub open spec fn cluster_labels(name: Seq<char>) -> Seq<KeyValueView> {
    seq![
        KeyValueView { key: "app.kubernetes.io/instance"@, value: name },
        KeyValueView { key: "app.kubernetes.io/managed-by"@, value: "streamline-operator"@ },
        KeyValueView { key: "app.kubernetes.io/name"@, value: "streamline"@ },
    ]
}

/// The labels that select the pods of a cluster, in key order.
pub open spec fn selector_labels(name: Seq<char>) -> Seq<KeyValueView> {
    seq![
        KeyValueView { key: "app.kubernetes.io/instance"@, value: name },
        KeyValueView { key: "app.kubernetes.io/name"@, value: "streamline"@ },
    ]
}

/// The owner that a cluster is to everything rendered for it.
pub open spec fn owned_by(cluster: StreamlineClusterView) -> OwnerReferenceView {
    OwnerReferenceView {
        api_version: "streamline.io/v1alpha1"@,
        kind: "StreamlineCluster"@,
        name: cluster.metadata.name,
        uid: match cluster.metadata.uid {
            Some(uid) => uid,
            None => Seq::empty(),
        },
        controller: Some(true),
        block_owner_deletion: Some(true),
    }
}

/// The metadata of an object rendered for a cluster.
pub open spec fn rendered_meta(
    cluster: StreamlineClusterView,
    name: Seq<char>,
    namespace: Seq<char>,
) -> ObjectMetaView {
    ObjectMetaView {
        name: Some(name),
        namespace: Some(namespace),
        labels: Some(cluster_labels(cluster.metadata.name)),
        owner_references: Some(seq![owned_by(cluster)]),
    }
}

/// The label selector that finds the pods and the volume claims of a cluster.
pub open spec fn instance_selector(name: Seq<char>) -> Seq<char> {
    "app.kubernetes.io/instance="@ + name
}

// ---------------------------------------------------------------------------
// Configuration, Services
// ---------------------------------------------------------------------------

/// The `[tls]` section of the broker configuration, if TLS is enabled.
pub open spec fn tls_config(tls: Option<ClusterTlsView>) -> Seq<char> {
    match tls {
        Some(tls) if tls.enabled => {
            let section = "\n[tls]\n"@ + "enabled = true\n"@ + "cert = \""@ + TLS_MOUNT_PATH@
                + "/tls.crt\"\n"@ + "key = \""@ + TLS_MOUNT_PATH@ + "/tls.key\"\n"@;
            if tls.mtls_enabled {
                section + "require_client_cert = true\n"@ + "ca_cert = \""@ + TLS_CA_MOUNT_PATH@
                    + "/ca.crt\"\n"@
            } else {
                section
            }
        },
        _ => Seq::empty(),
    }
}

/// The `[server]` section of the broker configuration.
pub open spec fn server_config(spec: ClusterSpecView) -> Seq<char> {
    "[server]\n"@ + "listen_addr = \"0.0.0.0:"@ + text::decimal(spec.kafka_port as int) + "\"\n"@
        + "http_addr = \"0.0.0.0:"@ + text::decimal(spec.http_port as int) + "\"\n"@
        + "data_dir = \"/data\"\n"@ + "log_level = \""@ + spec.log_level + "\"\n"@
}

/// The broker configuration file of a cluster.
pub open spec fn config_file(cluster: StreamlineClusterView) -> Seq<char> {
    "# Managed by streamline-operator. Do not edit.\n"@ + "# Rendered from StreamlineCluster/"@
        + cluster.metadata.name + "\n\n"@ + server_config(cluster.spec) + tls_config(
        cluster.spec.tls,
    )
}

/// The ConfigMap that holds the broker configuration.
pub open spec fn config_map(cluster: StreamlineClusterView, namespace: Seq<char>) -> ConfigMapView {
    ConfigMapView {
        metadata: rendered_meta(cluster, cluster.metadata.name + "-config"@, namespace),
        data: Some(seq![KeyValueView { key: CONFIG_FILE_NAME@, value: config_file(cluster) }]),
    }
}

/// A named port of a Service.
pub open spec fn service_port(name: Seq<char>, port: i32) -> ServicePortView {
    ServicePortView { name: Some(name), port }
}

/// The Service that gives the brokers their DNS names.
pub open spec fn headless_service(
    cluster: StreamlineClusterView,
    namespace: Seq<char>,
) -> ServiceView {
    ServiceView {
        metadata: rendered_meta(cluster, cluster.metadata.name + "-headless"@, namespace),
        spec: Some(
            ServiceSpecView {
                cluster_ip: Some("None"@),
                selector: Some(selector_labels(cluster.metadata.name)),
                ports: Some(
                    seq![
                        service_port("kafka"@, cluster.spec.kafka_port),
                        service_port("http"@, cluster.spec.http_port),
                        service_port("raft"@, cluster.spec.raft_port),
                    ],
                ),
                publish_not_ready_addresses: Some(true),
            },
        ),
    }
}

/// The Service that clients connect to.
pub open spec fn client_service(cluster: StreamlineClusterView, namespace: Seq<char>) -> ServiceView {
    ServiceView {
        metadata: rendered_meta(cluster, cluster.metadata.name, namespace),
        spec: Some(
            ServiceSpecView {
                cluster_ip: None,
                selector: Some(selector_labels(cluster.metadata.name)),
                ports: Some(
                    seq![
                        service_port("kafka"@, cluster.spec.kafka_port),
                        service_port("http"@, cluster.spec.http_port),
                    ],
                ),
                publish_not_ready_addresses: None,
            },
        ),
    }
}

// ---------------------------------------------------------------------------
// StatefulSet
// ---------------------------------------------------------------------------

/// A variable with a literal value.
pub open spec fn literal_env(name: Seq<char>, value: Seq<char>) -> ContainerEnvVarView {
    ContainerEnvVarView { name, value: Some(value), value_from: None }
}

/// A variable that holds a field of the pod.
pub open spec fn field_env(name: Seq<char>, field_path: Seq<char>) -> ContainerEnvVarView {
    ContainerEnvVarView {
        name,
        value: None,
        value_from: Some(
            ContainerEnvVarSourceView {
                field_ref: Some(ObjectFieldSelectorView { field_path }),
                secret_key_ref: None,
                config_map_key_ref: None,
            },
        ),
    }
}

/// The variables that every broker gets.
pub open spec fn operator_env(spec: ClusterSpecView) -> Seq<ContainerEnvVarView> {
    seq![
        literal_env("STREAMLINE_CONFIG"@, CONFIG_FILE_PATH@),
        literal_env("STREAMLINE_DATA_DIR"@, DATA_MOUNT_PATH@),
        literal_env(
            "STREAMLINE_LISTEN_ADDR"@,
            "0.0.0.0:"@ + text::decimal(spec.kafka_port as int),
        ),
        literal_env("STREAMLINE_HTTP_ADDR"@, "0.0.0.0:"@ + text::decimal(spec.http_port as int)),
        literal_env("STREAMLINE_LOG_LEVEL"@, spec.log_level),
        field_env("POD_NAME"@, "metadata.name"@),
        field_env("POD_NAMESPACE"@, "metadata.namespace"@),
    ]
}

/// A resolved reference as the container takes it.
pub open spec fn env_source(source: EnvVarRefView) -> ContainerEnvVarSourceView {
    match source {
        EnvVarRefView::Secret(secret) => ContainerEnvVarSourceView {
            field_ref: None,
            secret_key_ref: Some(
                KeySelectorView { name: secret.name, key: secret.key, optional: None },
            ),
            config_map_key_ref: None,
        },
        EnvVarRefView::ConfigMap(config_map) => ContainerEnvVarSourceView {
            field_ref: None,
            secret_key_ref: None,
            config_map_key_ref: Some(
                KeySelectorView { name: config_map.name, key: config_map.key, optional: None },
            ),
        },
    }
}

/// What one entry of the spec renders to: one variable, or none if it cannot be mapped.
pub open spec fn rendered_entry(env: EnvVarView) -> Seq<ContainerEnvVarView> {
    match cluster::env_resolution(env) {
        Ok(None) => seq![
            ContainerEnvVarView { name: env.name, value: env.value, value_from: None },
        ],
        Ok(Some(source)) => seq![
            ContainerEnvVarView {
                name: env.name,
                value: None,
                value_from: Some(env_source(source)),
            },
        ],
        Err(_) => Seq::empty(),
    }
}

/// What the entries of the spec render to, in their order.
pub open spec fn rendered_entries(env: Seq<EnvVarView>) -> Seq<ContainerEnvVarView>
    decreases env.len(),
{
    if env.len() == 0 {
        Seq::empty()
    } else {
        rendered_entries(env.drop_last()) + rendered_entry(env.last())
    }
}

/// The environment of the broker container.
pub open spec fn broker_env(spec: ClusterSpecView) -> Seq<ContainerEnvVarView> {
    operator_env(spec) + rendered_entries(spec.env)
}

/// The quantities of a resource list, in key order; none if nothing is set.
pub open spec fn quantities(list: ResourceListView) -> Option<Seq<KeyValueView>> {
    let cpu = match list.cpu {
        Some(cpu) => seq![KeyValueView { key: "cpu"@, value: cpu }],
        None => Seq::empty(),
    };
    let memory = match list.memory {
        Some(memory) => seq![KeyValueView { key: "memory"@, value: memory }],
        None => Seq::empty(),
    };
    if list.cpu is None && list.memory is None {
        None
    } else {
        Some(cpu + memory)
    }
}

/// The resources of the broker container.
pub open spec fn broker_resources(resources: ResourceRequirementsView) -> ContainerResourcesView {
    ContainerResourcesView {
        limits: quantities(resources.limits),
        requests: quantities(resources.requests),
    }
}

/// The claim for the data volume of each broker.
pub open spec fn data_claims(storage: ClusterStorageView) -> Seq<PersistentVolumeClaimView> {
    seq![
        PersistentVolumeClaimView {
            metadata: ObjectMetaView {
                name: Some("data"@),
                namespace: None,
                labels: None,
                owner_references: None,
            },
            spec: Some(
                PersistentVolumeClaimSpecView {
                    access_modes: Some(storage.access_modes),
                    storage_class_name: storage.storage_class_name,
                    resources: Some(
                        ContainerResourcesView {
                            limits: None,
                            requests: Some(
                                seq![KeyValueView { key: "storage"@, value: storage.size }],
                            ),
                        },
                    ),
                },
            ),
        },
    ]
}

/// A volume that holds a Secret, readable by the owner and the group.
pub open spec fn secret_volume(name: Seq<char>, secret: Seq<char>) -> VolumeView {
    VolumeView {
        name,
        config_map: None,
        secret: Some(
            SecretVolumeSourceView { secret_name: Some(secret), default_mode: Some(288) },
        ),
    }
}

/// A read-only mount.
pub open spec fn read_only_mount(name: Seq<char>, path: Seq<char>) -> VolumeMountView {
    VolumeMountView { name, mount_path: path, read_only: Some(true) }
}

/// Whether the server keypair is mounted.
pub open spec fn mounts_tls(spec: ClusterSpecView) -> bool {
    spec.tls is Some && spec.tls->0.enabled && !text::is_blank(spec.tls->0.secret_name)
}

/// Whether the client CA bundle is mounted.
pub open spec fn mounts_ca(spec: ClusterSpecView) -> bool {
    mounts_tls(spec) && spec.tls->0.mtls_enabled && spec.tls->0.ca_secret_name is Some
}

/// The volumes of a broker pod: the configuration, the keypair, and the client CA bundle.
pub open spec fn broker_volumes(cluster: StreamlineClusterView) -> Seq<VolumeView> {
    seq![
        VolumeView {
            name: "config"@,
            config_map: Some(
                ConfigMapVolumeSourceView { name: cluster.metadata.name + "-config"@ },
            ),
            secret: None,
        },
    ] + if mounts_tls(cluster.spec) {
        seq![secret_volume(TLS_VOLUME_NAME@, cluster.spec.tls->0.secret_name)]
    } else {
        Seq::empty()
    } + if mounts_ca(cluster.spec) {
        seq![secret_volume(TLS_CA_VOLUME_NAME@, cluster.spec.tls->0.ca_secret_name->0)]
    } else {
        Seq::empty()
    }
}

/// The mounts of the configuration, the keypair, and the client CA bundle.
pub open spec fn config_and_tls_mounts(spec: ClusterSpecView) -> Seq<VolumeMountView> {
    seq![read_only_mount("config"@, CONFIG_MOUNT_PATH@)] + if mounts_tls(spec) {
        seq![read_only_mount(TLS_VOLUME_NAME@, TLS_MOUNT_PATH@)]
    } else {
        Seq::empty()
    } + if mounts_ca(spec) {
        seq![read_only_mount(TLS_CA_VOLUME_NAME@, TLS_CA_MOUNT_PATH@)]
    } else {
        Seq::empty()
    }
}

/// The mounts of the broker container: the data volume, then the others.
pub open spec fn broker_mounts(spec: ClusterSpecView) -> Seq<VolumeMountView> {
    seq![VolumeMountView { name: "data"@, mount_path: DATA_MOUNT_PATH@, read_only: None }]
        + config_and_tls_mounts(spec)
}

/// A probe that asks the broker for `path`.
pub open spec fn http_probe(
    path: Seq<char>,
    port: i32,
    delay: i32,
    period: i32,
    timeout: i32,
    failures: i32,
) -> ProbeView {
    ProbeView {
        http_get: Some(HttpGetActionView { path: Some(path), port }),
        initial_delay_seconds: Some(delay),
        period_seconds: Some(period),
        timeout_seconds: Some(timeout),
        failure_threshold: Some(failures),
    }
}

/// A named port of a container.
pub open spec fn container_port(name: Seq<char>, port: i32) -> ContainerPortView {
    ContainerPortView { name: Some(name), container_port: port }
}

/// The broker container.
pub open spec fn broker_container(spec: ClusterSpecView) -> ContainerView {
    ContainerView {
        name: "streamline"@,
        image: Some(spec.image),
        image_pull_policy: Some(spec.image_pull_policy),
        ports: Some(
            seq![
                container_port("kafka"@, spec.kafka_port),
                container_port("http"@, spec.http_port),
                container_port("raft"@, spec.raft_port),
            ],
        ),
        env: Some(broker_env(spec)),
        resources: Some(broker_resources(spec.resources)),
        volume_mounts: Some(broker_mounts(spec)),
        liveness_probe: Some(http_probe("/health"@, spec.http_port, 30, 10, 5, 3)),
        readiness_probe: Some(http_probe("/health/ready"@, spec.http_port, 10, 5, 3, 3)),
        startup_probe: Some(http_probe("/health"@, spec.http_port, 5, 5, 3, 30)),
    }
}

/// The broker pod.
pub open spec fn broker_pod(cluster: StreamlineClusterView) -> PodTemplateSpecView {
    PodTemplateSpecView {
        metadata: Some(
            ObjectMetaView {
                name: None,
                namespace: None,
                labels: Some(selector_labels(cluster.metadata.name)),
                owner_references: None,
            },
        ),
        spec: Some(
            PodSpecView {
                service_account_name: cluster.spec.service_account_name,
                containers: seq![broker_container(cluster.spec)],
                security_context: Some(
                    PodSecurityContextView { fs_group: Some(1000), run_as_non_root: Some(true) },
                ),
                node_selector: if cluster.spec.node_selector.len() == 0 {
                    None
                } else {
                    Some(cluster.spec.node_selector)
                },
                affinity: None,
                tolerations: None,
                topology_spread_constraints: None,
                volumes: Some(broker_volumes(cluster)),
            },
        ),
    }
}

/// The update strategy of the StatefulSet.
pub open spec fn rollout(strategy: UpdateStrategyView) -> StatefulSetUpdateStrategyView {
    if strategy.type_ == "OnDelete"@ {
        StatefulSetUpdateStrategyView { type_: Some("OnDelete"@), rolling_update: None }
    } else {
        StatefulSetUpdateStrategyView {
            type_: Some("RollingUpdate"@),
            rolling_update: match strategy.max_unavailable {
                Some(max) => Some(
                    RollingUpdateStatefulSetStrategyView { max_unavailable: Some(max) },
                ),
                None => None,
            },
        }
    }
}

/// The StatefulSet that runs the brokers.
pub open spec fn broker_set(cluster: StreamlineClusterView, namespace: Seq<char>) -> StatefulSetView {
    StatefulSetView {
        metadata: rendered_meta(cluster, cluster.metadata.name, namespace),
        spec: Some(
            StatefulSetSpecView {
                replicas: Some(cluster.spec.replicas),
                selector: LabelSelectorView {
                    match_labels: Some(selector_labels(cluster.metadata.name)),
                },
                service_name: cluster.metadata.name + "-headless"@,
                template: broker_pod(cluster),
                volume_claim_templates: Some(data_claims(cluster.spec.storage)),
                pod_management_policy: Some("Parallel"@),
                update_strategy: Some(rollout(cluster.spec.update_strategy)),
            },
        ),
    }
}

// ---------------------------------------------------------------------------
// Autoscaling decision, plan
// ---------------------------------------------------------------------------

/// The autoscaling configuration that is reconciled for a spec.
pub open spec fn desired_hpa(
    autoscaling: Option<AutoScalingSpecView>,
    spec_is_valid: bool,
) -> AutoScalingConfigView {
    match autoscaling {
        None => autoscaling::zero_config(),
        Some(scaling) => AutoScalingConfigView {
            enabled: scaling.enabled && spec_is_valid,
            min_replicas: scaling.min_replicas,
            max_replicas: scaling.max_replicas,
            target_cpu_utilization: scaling.target_cpu_utilization,
            target_memory_utilization: scaling.target_memory_utilization,
            custom_metrics: Seq::empty(),
            behavior: None,
            partition_aware: scaling.partition_aware,
            target_lag_per_partition: scaling.target_lag_per_partition,
            target_messages_per_second: scaling.target_messages_per_second,
        },
    }
}

/// Whether a cluster passes validation.
pub open spec fn is_valid(spec: ClusterSpecView) -> bool {
    cluster::violations(spec).len() == 0
}

/// A list with `step` where `wanted` holds, and an empty one otherwise.
pub open spec fn step_if(wanted: bool, step: ClusterStep) -> Seq<ClusterStep> {
    if wanted {
        seq![step]
    } else {
        Seq::empty()
    }
}

/// What reconciling a cluster amounts to.
///
/// A deletion cleans up and releases the resource. Otherwise the finalizer is set, an
/// autoscaler that is not wanted goes first, and a spec that fails validation renders nothing.
pub open spec fn reconcile_plan(cluster: StreamlineClusterView) -> ClusterPlanView {
    let valid = is_valid(cluster.spec);
    let scaled = desired_hpa(cluster.spec.autoscaling, valid).enabled;
    let finalized = cluster.metadata.finalizers.contains(CLUSTER_FINALIZER@);
    let start = step_if(!finalized, ClusterStep::AddFinalizer) + step_if(
        !scaled,
        ClusterStep::DeleteHpa,
    );
    if cluster.metadata.deleting {
        ClusterPlanView {
            steps: seq![ClusterStep::CleanUpVolumes, ClusterStep::RemoveFinalizer],
            next: NextReconcile::AwaitChange,
            verdict: ReconcileVerdict::Uncounted,
        }
    } else if !valid {
        ClusterPlanView {
            steps: start + seq![ClusterStep::PublishInvalidStatus],
            next: NextReconcile::After(300),
            verdict: ReconcileVerdict::Error,
        }
    } else {
        ClusterPlanView {
            steps: start + seq![
                ClusterStep::ApplyConfigMap,
                ClusterStep::ApplyHeadlessService,
                ClusterStep::ApplyClientService,
                ClusterStep::ApplyStatefulSet,
            ] + step_if(scaled, ClusterStep::ApplyHpa) + seq![ClusterStep::PublishObservedStatus],
            next: NextReconcile::After(60),
            verdict: ReconcileVerdict::Success,
        }
    }
}

// ---------------------------------------------------------------------------
// Status
// ---------------------------------------------------------------------------

/// The conditions that a cluster has published.
pub open spec fn published_conditions(status: Option<ClusterStatusView>) -> Seq<ConditionView> {
    match status {
        Some(status) => status.conditions,
        None => Seq::empty(),
    }
}

/// The status with a time stamp that moves only when the rest of the status changes.
pub open spec fn stabilized(
    current: Option<ClusterStatusView>,
    status: ClusterStatusView,
    now: Seq<char>,
) -> ClusterStatusView {
    match current {
        Some(published) if (ClusterStatusView { last_updated: None, ..published }) == status =>
            ClusterStatusView { last_updated: published.last_updated, ..status },
        _ => ClusterStatusView { last_updated: Some(now), ..status },
    }
}

/// The conditions that say why a spec is refused.
pub open spec fn invalid_conditions(message: Seq<char>, now: Seq<char>) -> Seq<ConditionView> {
    seq![
        conditions::stamped(
            CLUSTER_CONDITION_READY@,
            CONDITION_FALSE@,
            "InvalidSpec"@,
            message,
            now,
        ),
        conditions::stamped(
            CLUSTER_CONDITION_AVAILABLE@,
            CONDITION_FALSE@,
            "InvalidSpec"@,
            message,
            now,
        ),
        conditions::stamped(
            CLUSTER_CONDITION_PROGRESSING@,
            CONDITION_FALSE@,
            "InvalidSpec"@,
            BLOCKED_MESSAGE@,
            now,
        ),
        conditions::stamped(
            CLUSTER_CONDITION_DEGRADED@,
            CONDITION_TRUE@,
            "InvalidSpec"@,
            message,
            now,
        ),
    ]
}

/// The status of a spec that failed validation.
pub open spec fn invalid_report(
    cluster: StreamlineClusterView,
    message: Seq<char>,
    now: Seq<char>,
) -> ClusterStatusView {
    stabilized(
        cluster.status,
        ClusterStatusView {
            phase: ClusterPhase::Failed,
            ready_replicas: 0,
            replicas: cluster.spec.replicas,
            leader_id: None,
            broker_endpoints: Seq::empty(),
            conditions: conditions::with_conditions(
                published_conditions(cluster.status),
                invalid_conditions(message, now),
            ),
            observed_generation: cluster.metadata.generation,
            last_updated: None,
        },
        now,
    )
}

/// The phase that a ready count amounts to.
pub open spec fn observed_phase(ready: i32, desired: i32) -> ClusterPhase {
    if ready == desired {
        ClusterPhase::Running
    } else if ready > 0 {
        ClusterPhase::Scaling
    } else {
        ClusterPhase::Pending
    }
}

/// The address of the broker with the given ordinal.
pub open spec fn broker_endpoint(
    name: Seq<char>,
    ordinal: int,
    namespace: Seq<char>,
    port: i32,
) -> Seq<char> {
    name + "-"@ + text::decimal(ordinal) + "."@ + name + "-headless."@ + namespace + ".svc:"@
        + text::decimal(port as int)
}

/// The addresses of the desired brokers, by ordinal.
pub open spec fn broker_endpoints(
    name: Seq<char>,
    desired: i32,
    namespace: Seq<char>,
    port: i32,
) -> Seq<Seq<char>> {
    Seq::new(
        (if desired < 0 {
            0
        } else {
            desired
        }) as nat,
        |ordinal: int| broker_endpoint(name, ordinal, namespace, port),
    )
}

/// `ready/desired brokers ready`
pub open spec fn ready_message(ready: i32, desired: i32) -> Seq<char> {
    text::decimal(ready as int) + "/"@ + text::decimal(desired as int) + " brokers ready"@
}

/// The Ready condition: exactly the desired brokers are ready.
pub open spec fn ready_condition(ready: i32, desired: i32, now: Seq<char>) -> ConditionView {
    if ready == desired {
        conditions::stamped(
            CLUSTER_CONDITION_READY@,
            CONDITION_TRUE@,
            "AllBrokersReady"@,
            ready_message(ready, desired),
            now,
        )
    } else {
        conditions::stamped(
            CLUSTER_CONDITION_READY@,
            CONDITION_FALSE@,
            "BrokersNotReady"@,
            ready_message(ready, desired),
            now,
        )
    }
}

/// The Available condition: at least one broker is ready.
pub open spec fn available_condition(ready: i32, now: Seq<char>) -> ConditionView {
    if ready > 0 {
        conditions::stamped(
            CLUSTER_CONDITION_AVAILABLE@,
            CONDITION_TRUE@,
            "MinimumAvailable"@,
            text::decimal(ready as int) + " broker(s) available"@,
            now,
        )
    } else {
        conditions::stamped(
            CLUSTER_CONDITION_AVAILABLE@,
            CONDITION_FALSE@,
            "NoBrokersAvailable"@,
            "No brokers are available"@,
            now,
        )
    }
}

/// The Progressing condition: the ready count is on its way to the desired one.
pub open spec fn progressing_condition(ready: i32, desired: i32, now: Seq<char>) -> ConditionView {
    if ready < desired {
        conditions::stamped(
            CLUSTER_CONDITION_PROGRESSING@,
            CONDITION_TRUE@,
            "ScalingUp"@,
            "Scaling from "@ + text::decimal(ready as int) + " to "@ + text::decimal(
                desired as int,
            ) + " replicas"@,
            now,
        )
    } else if ready > desired {
        conditions::stamped(
            CLUSTER_CONDITION_PROGRESSING@,
            CONDITION_TRUE@,
            "ScalingDown"@,
            "Scaling down from "@ + text::decimal(ready as int) + " to "@ + text::decimal(
                desired as int,
            ) + " replicas"@,
            now,
        )
    } else {
        conditions::stamped(
            CLUSTER_CONDITION_PROGRESSING@,
            CONDITION_FALSE@,
            "UpToDate"@,
            "All replicas are up to date"@,
            now,
        )
    }
}

/// The Degraded condition: false only at exactly the desired count.
pub open spec fn degraded_condition(ready: i32, desired: i32, now: Seq<char>) -> ConditionView {
    if ready == desired {
        conditions::stamped(
            CLUSTER_CONDITION_DEGRADED@,
            CONDITION_FALSE@,
            "Healthy"@,
            "Cluster is healthy"@,
            now,
        )
    } else if ready == 0 {
        conditions::stamped(
            CLUSTER_CONDITION_DEGRADED@,
            CONDITION_TRUE@,
            "NoBrokersReady"@,
            "No brokers are ready (0/"@ + text::decimal(desired as int) + ")"@,
            now,
        )
    } else if ready < desired {
        conditions::stamped(
            CLUSTER_CONDITION_DEGRADED@,
            CONDITION_TRUE@,
            "PartiallyReady"@,
            "Only "@ + ready_message(ready, desired),
            now,
        )
    } else {
        conditions::stamped(
            CLUSTER_CONDITION_DEGRADED@,
            CONDITION_TRUE@,
            "TooManyReadyBrokers"@,
            ready_message(ready, desired) + "; expected exactly "@ + text::decimal(desired as int),
            now,
        )
    }
}

/// The conditions that a ready count amounts to.
pub open spec fn observed_conditions(
    ready: i32,
    desired: i32,
    now: Seq<char>,
) -> Seq<ConditionView> {
    seq![
        ready_condition(ready, desired, now),
        available_condition(ready, now),
        progressing_condition(ready, desired, now),
        degraded_condition(ready, desired, now),
    ]
}

/// The status that a ready count amounts to.
pub open spec fn observed_report(
    cluster: StreamlineClusterView,
    namespace: Seq<char>,
    ready: i32,
    now: Seq<char>,
) -> ClusterStatusView {
    stabilized(
        cluster.status,
        ClusterStatusView {
            phase: observed_phase(ready, cluster.spec.replicas),
            ready_replicas: ready,
            replicas: cluster.spec.replicas,
            leader_id: None,
            broker_endpoints: broker_endpoints(
                cluster.metadata.name,
                cluster.spec.replicas,
                namespace,
                cluster.spec.kafka_port,
            ),
            conditions: conditions::with_conditions(
                published_conditions(cluster.status),
                observed_conditions(ready, cluster.spec.replicas, now),
            ),
            observed_generation: cluster.metadata.generation,
            last_updated: None,
        },
        now,
    )
}

/// Whether one of the conditions is a Ready condition that is true.
pub open spec fn says_ready(reported: Seq<PodConditionView>) -> bool {
    exists|i: int|
        0 <= i < reported.len() && (#[trigger] reported[i]).type_ == "Ready"@ && reported[i].status
            == "True"@
}

/// Whether a pod reports itself ready.
pub open spec fn pod_is_ready(pod: PodReportView) -> bool {
    pod.conditions is Some && says_ready(pod.conditions->0)
}

/// How many of the pods report themselves ready.
pub open spec fn ready_pods(pods: Seq<PodReportView>) -> nat {
    pods.filter(|pod: PodReportView| pod_is_ready(pod)).len()
}

// ---------------------------------------------------------------------------
// Rendering
// ---------------------------------------------------------------------------

/// Render the broker configuration file contents for a cluster.
///
/// The output is TOML because that is what the Streamline server parses from
/// `$STREAMLINE_CONFIG`. Only keys the server actually reads are emitted, under
/// the section the server parses them from: `[server]` and `[tls]`.
pub fn render_config(cluster: &StreamlineCluster) -> (config: String)
    ensures
        config@ == config_file(cluster.deep_view()),
{
    let spec = &cluster.spec;
    let server = "[server]\n".to_owned().concat("listen_addr = \"0.0.0.0:").concat(
        text::i32_text(spec.kafka_port).as_str(),
    ).concat("\"\n").concat("http_addr = \"0.0.0.0:").concat(
        text::i32_text(spec.http_port).as_str(),
    ).concat("\"\n").concat("data_dir = \"/data\"\n").concat("log_level = \"").concat(
        spec.log_level.as_str(),
    ).concat("\"\n");
    let tls = match &spec.tls {
        Some(tls) => {
            // Unsupported combinations are rejected by `ClusterSpec::validate`
            // before rendering, so anything reaching here is mountable.
            if tls.enabled {
                let section = "\n[tls]\n".to_owned().concat("enabled = true\n").concat(
                    "cert = \"",
                ).concat(TLS_MOUNT_PATH).concat("/tls.crt\"\n").concat("key = \"").concat(
                    TLS_MOUNT_PATH,
                ).concat("/tls.key\"\n");
                if tls.mtls_enabled {
                    section.concat("require_client_cert = true\n").concat("ca_cert = \"").concat(
                        TLS_CA_MOUNT_PATH,
                    ).concat("/ca.crt\"\n")
                } else {
                    section
                }
            } else {
                String::new()
            }
        },
        None => String::new(),
    };
    "# Managed by streamline-operator. Do not edit.\n".to_owned().concat(
        "# Rendered from StreamlineCluster/",
    ).concat(cluster.metadata.name.as_str()).concat("\n\n").concat(server.as_str()).concat(
        tls.as_str(),
    )
}

impl ClusterController {
    /// Build the ConfigMap holding the rendered broker configuration.
    pub fn build_configmap(cluster: &StreamlineCluster, namespace: &str) -> (rendered: ConfigMap)
        ensures
            rendered.deep_view() == config_map(cluster.deep_view(), namespace@),
    {
        let data = vec![KeyValue::new(CONFIG_FILE_NAME, render_config(cluster).as_str())];
        assert(data.deep_view() =~= seq![
            KeyValueView { key: CONFIG_FILE_NAME@, value: config_file(cluster.deep_view()) },
        ]);
        let name = cluster.metadata.name.clone().concat("-config");
        ConfigMap {
            metadata: Self::build_meta(cluster, name.as_str(), namespace),
            data: Some(data),
        }
    }

    /// Build the headless Service for StatefulSet DNS.
    pub fn build_headless_service(cluster: &StreamlineCluster, namespace: &str) -> (rendered: Service)
        ensures
            rendered.deep_view() == headless_service(cluster.deep_view(), namespace@),
    {
        let ports = vec![
            Self::build_service_port("kafka", cluster.spec.kafka_port),
            Self::build_service_port("http", cluster.spec.http_port),
            Self::build_service_port("raft", cluster.spec.raft_port),
        ];
        assert(ports.deep_view() =~= seq![
            service_port("kafka"@, cluster.spec.kafka_port),
            service_port("http"@, cluster.spec.http_port),
            service_port("raft"@, cluster.spec.raft_port),
        ]);
        let name = cluster.metadata.name.clone().concat("-headless");
        Service {
            metadata: Self::build_meta(cluster, name.as_str(), namespace),
            spec: Some(
                ServiceSpec {
                    cluster_ip: Some("None".to_owned()),
                    selector: Some(Self::pod_selector(cluster)),
                    ports: Some(ports),
                    publish_not_ready_addresses: Some(true),
                },
            ),
        }
    }

    /// Build the client-facing Service.
    pub fn build_client_service(cluster: &StreamlineCluster, namespace: &str) -> (rendered: Service)
        ensures
            rendered.deep_view() == client_service(cluster.deep_view(), namespace@),
    {
        let ports = vec![
            Self::build_service_port("kafka", cluster.spec.kafka_port),
            Self::build_service_port("http", cluster.spec.http_port),
        ];
        assert(ports.deep_view() =~= seq![
            service_port("kafka"@, cluster.spec.kafka_port),
            service_port("http"@, cluster.spec.http_port),
        ]);
        Service {
            metadata: Self::build_meta(cluster, cluster.metadata.name.as_str(), namespace),
            spec: Some(
                ServiceSpec {
                    cluster_ip: None,
                    selector: Some(Self::pod_selector(cluster)),
                    ports: Some(ports),
                    publish_not_ready_addresses: None,
                },
            ),
        }
    }

    fn build_service_port(name: &str, port: i32) -> (built: ServicePort)
        ensures
            built.deep_view() == service_port(name@, port),
    {
        ServicePort { name: Some(name.to_owned()), port }
    }

    fn build_meta(cluster: &StreamlineCluster, name: &str, namespace: &str) -> (meta: ObjectMeta)
        ensures
            meta.deep_view() == rendered_meta(cluster.deep_view(), name@, namespace@),
    {
        let owner_references = vec![Self::owner_reference(cluster)];
        assert(owner_references.deep_view() =~= seq![owned_by(cluster.deep_view())]);
        ObjectMeta {
            name: Some(name.to_owned()),
            namespace: Some(namespace.to_owned()),
            labels: Some(Self::common_labels(cluster)),
            owner_references: Some(owner_references),
        }
    }

    /// Build the desired StatefulSet for a cluster.
    ///
    /// Every rendering decision (image, probes, mounts, environment) is a function of the spec.
    pub fn build_statefulset(cluster: &StreamlineCluster, namespace: &str) -> (rendered: StatefulSet)
        ensures
            rendered.deep_view() == broker_set(cluster.deep_view(), namespace@),
    {
        StatefulSet {
            metadata: Self::build_meta(cluster, cluster.metadata.name.as_str(), namespace),
            spec: Some(
                StatefulSetSpec {
                    replicas: Some(cluster.spec.replicas),
                    selector: LabelSelector { match_labels: Some(Self::pod_selector(cluster)) },
                    service_name: cluster.metadata.name.clone().concat("-headless"),
                    template: Self::build_pod_template(cluster),
                    volume_claim_templates: Some(
                        Self::build_volume_claim_templates(&cluster.spec.storage),
                    ),
                    pod_management_policy: Some("Parallel".to_owned()),
                    update_strategy: Some(
                        Self::build_update_strategy(&cluster.spec.update_strategy),
                    ),
                },
            ),
        }
    }

    fn build_update_strategy(strategy: &UpdateStrategy) -> (built: StatefulSetUpdateStrategy)
        ensures
            built.deep_view() == rollout(strategy.deep_view()),
    {
        if text::text_eq(strategy.type_.as_str(), "OnDelete") {
            StatefulSetUpdateStrategy { type_: Some("OnDelete".to_owned()), rolling_update: None }
        } else {
            StatefulSetUpdateStrategy {
                type_: Some("RollingUpdate".to_owned()),
                rolling_update: match strategy.max_unavailable {
                    Some(max) => Some(
                        RollingUpdateStatefulSetStrategy { max_unavailable: Some(max) },
                    ),
                    None => None,
                },
            }
        }
    }

    fn build_pod_template(cluster: &StreamlineCluster) -> (template: PodTemplateSpec)
        ensures
            template.deep_view() == broker_pod(cluster.deep_view()),
    {
        let (volumes, config_mounts) = Self::build_config_and_tls_volumes(cluster);
        let mut volume_mounts = vec![
            VolumeMount {
                name: "data".to_owned(),
                mount_path: DATA_MOUNT_PATH.to_owned(),
                read_only: None,
            },
        ];
        let mut config_mounts = config_mounts;
        let ghost config = config_mounts.deep_view();
        volume_mounts.append(&mut config_mounts);
        assert(volume_mounts.deep_view() =~= broker_mounts(cluster.deep_view().spec));
        let containers = vec![Self::build_container(&cluster.spec, volume_mounts)];
        assert(containers.deep_view() =~= seq![broker_container(cluster.deep_view().spec)]);
        assert(cluster.spec.node_selector.deep_view().len() == cluster.spec.node_selector.len());
        PodTemplateSpec {
            metadata: Some(
                ObjectMeta {
                    name: None,
                    namespace: None,
                    labels: Some(Self::pod_selector(cluster)),
                    owner_references: None,
                },
            ),
            spec: Some(
                PodSpec {
                    service_account_name: cluster.spec.service_account_name.clone(),
                    containers,
                    // The published broker image runs as a non-root user. Secret
                    // volume ownership is adjusted through fsGroup so TLS files
                    // are readable without making private keys world-readable.
                    security_context: Some(
                        PodSecurityContext { fs_group: Some(1000), run_as_non_root: Some(true) },
                    ),
                    node_selector: if cluster.spec.node_selector.is_empty() {
                        None
                    } else {
                        Some(Self::copy_entries(&cluster.spec.node_selector))
                    },
                    affinity: None,
                    tolerations: None,
                    topology_spread_constraints: None,
                    volumes: Some(volumes),
                },
            ),
        }
    }

    fn copy_entries(entries: &Vec<KeyValue>) -> (copy: Vec<KeyValue>)
        ensures
            copy.deep_view() == entries.deep_view(),
    {
        let copy = entries.clone();
        assert(copy.deep_view() =~= entries.deep_view());
        copy
    }

    fn build_container(spec: &ClusterSpec, volume_mounts: Vec<VolumeMount>) -> (container: Container)
        requires
            volume_mounts.deep_view() == broker_mounts(spec.deep_view()),
        ensures
            container.deep_view() == broker_container(spec.deep_view()),
    {
        let ports = vec![
            Self::build_container_port("kafka", spec.kafka_port),
            Self::build_container_port("http", spec.http_port),
            Self::build_container_port("raft", spec.raft_port),
        ];
        assert(ports.deep_view() =~= seq![
            container_port("kafka"@, spec.kafka_port),
            container_port("http"@, spec.http_port),
            container_port("raft"@, spec.raft_port),
        ]);
        Container {
            name: "streamline".to_owned(),
            image: Some(spec.image.clone()),
            image_pull_policy: Some(spec.image_pull_policy.clone()),
            ports: Some(ports),
            env: Some(Self::build_env(spec)),
            resources: Some(Self::build_resource_requirements(&spec.resources)),
            volume_mounts: Some(volume_mounts),
            liveness_probe: Some(Self::build_probe("/health", spec.http_port, 30, 10, 5, 3)),
            // The broker exposes readiness under /health/ready; /ready is not served.
            readiness_probe: Some(Self::build_probe("/health/ready", spec.http_port, 10, 5, 3, 3)),
            startup_probe: Some(Self::build_probe("/health", spec.http_port, 5, 5, 3, 30)),
        }
    }

    fn build_container_port(name: &str, port: i32) -> (built: ContainerPort)
        ensures
            built.deep_view() == container_port(name@, port),
    {
        ContainerPort { name: Some(name.to_owned()), container_port: port }
    }

    fn build_probe(
        path: &str,
        port: i32,
        delay: i32,
        period: i32,
        timeout: i32,
        failures: i32,
    ) -> (probe: Probe)
        ensures
            probe.deep_view() == http_probe(path@, port, delay, period, timeout, failures),
    {
        Probe {
            http_get: Some(HttpGetAction { path: Some(path.to_owned()), port }),
            initial_delay_seconds: Some(delay),
            period_seconds: Some(period),
            timeout_seconds: Some(timeout),
            failure_threshold: Some(failures),
        }
    }

    fn build_literal_env(name: &str, value: &str) -> (variable: ContainerEnvVar)
        ensures
            variable.deep_view() == literal_env(name@, value@),
    {
        ContainerEnvVar { name: name.to_owned(), value: Some(value.to_owned()), value_from: None }
    }

    fn build_field_env(name: &str, field_path: &str) -> (variable: ContainerEnvVar)
        ensures
            variable.deep_view() == field_env(name@, field_path@),
    {
        ContainerEnvVar {
            name: name.to_owned(),
            value: None,
            value_from: Some(
                ContainerEnvVarSource {
                    field_ref: Some(ObjectFieldSelector { field_path: field_path.to_owned() }),
                    secret_key_ref: None,
                    config_map_key_ref: None,
                },
            ),
        }
    }

    /// Build the environment of the broker container.
    ///
    /// `valueFrom` is mapped onto the container's own source, so the kubelet resolves the
    /// reference at pod start. Entries that cannot be mapped exactly are rejected by
    /// `ClusterSpec::validate`; skipping them here too means that an unmappable entry can
    /// never be rendered as an empty variable.
    pub fn build_env(spec: &ClusterSpec) -> (variables: Vec<ContainerEnvVar>)
        ensures
            variables.deep_view() == broker_env(spec.deep_view()),
    {
        let ghost base = operator_env(spec.deep_view());
        let ghost all = spec.env.deep_view();
        let listen = "0.0.0.0:".to_owned().concat(text::i32_text(spec.kafka_port).as_str());
        let http = "0.0.0.0:".to_owned().concat(text::i32_text(spec.http_port).as_str());
        let mut variables = vec![
            Self::build_literal_env("STREAMLINE_CONFIG", CONFIG_FILE_PATH),
            Self::build_literal_env("STREAMLINE_DATA_DIR", DATA_MOUNT_PATH),
            Self::build_literal_env("STREAMLINE_LISTEN_ADDR", listen.as_str()),
            Self::build_literal_env("STREAMLINE_HTTP_ADDR", http.as_str()),
            Self::build_literal_env("STREAMLINE_LOG_LEVEL", spec.log_level.as_str()),
            Self::build_field_env("POD_NAME", "metadata.name"),
            Self::build_field_env("POD_NAMESPACE", "metadata.namespace"),
        ];
        assert(variables.deep_view() =~= base + rendered_entries(all.subrange(0, 0)));
        let mut i: usize = 0;
        while i < spec.env.len()
            invariant
                i <= spec.env.len(),
                all == spec.env.deep_view(),
                variables.deep_view() == base + rendered_entries(all.subrange(0, i as int)),
            decreases spec.env.len() - i,
        {
            let env = &spec.env[i];
            let ghost before = variables.deep_view();
            let ghost seen = all.subrange(0, i + 1);
            assert(seen.drop_last() =~= all.subrange(0, i as int));
            assert(seen.last() == env.deep_view());
            match env.resolve_source() {
                Ok(None) => {
                    variables.push(
                        ContainerEnvVar {
                            name: env.name.clone(),
                            value: env.value.clone(),
                            value_from: None,
                        },
                    );
                    assert(variables.deep_view() =~= before + rendered_entry(env.deep_view()));
                },
                Ok(Some(source)) => {
                    variables.push(
                        ContainerEnvVar {
                            name: env.name.clone(),
                            value: None,
                            value_from: Some(Self::build_env_var_source(source)),
                        },
                    );
                    assert(variables.deep_view() =~= before + rendered_entry(env.deep_view()));
                },
                Err(_) => {
                    assert(variables.deep_view() =~= before + rendered_entry(env.deep_view()));
                },
            }
            assert(variables.deep_view() =~= base + rendered_entries(seen));
            i = i + 1;
        }
        assert(all.subrange(0, all.len() as int) =~= all);
        variables
    }

    /// Map a validated `spec.env[].valueFrom` reference onto the container's source.
    ///
    /// The reference is handed to the kubelet verbatim: the operator never
    /// reads the Secret or ConfigMap itself.
    pub fn build_env_var_source(source: EnvVarRef<'_>) -> (built: ContainerEnvVarSource)
        ensures
            built.deep_view() == env_source(source.deep_view()),
    {
        match source {
            EnvVarRef::Secret(secret) => ContainerEnvVarSource {
                field_ref: None,
                secret_key_ref: Some(
                    KeySelector {
                        name: secret.name.clone(),
                        key: secret.key.clone(),
                        optional: None,
                    },
                ),
                config_map_key_ref: None,
            },
            EnvVarRef::ConfigMap(config_map) => ContainerEnvVarSource {
                field_ref: None,
                secret_key_ref: None,
                config_map_key_ref: Some(
                    KeySelector {
                        name: config_map.name.clone(),
                        key: config_map.key.clone(),
                        optional: None,
                    },
                ),
            },
        }
    }

    /// Build the config (and, when TLS is enabled, certificate) volumes plus
    /// their container mounts.
    ///
    /// TLS Secrets are mounted read-only. The TLS and CA mounts are siblings of
    /// the config mount, never nested below it.
    pub fn build_config_and_tls_volumes(cluster: &StreamlineCluster) -> (built: (
        Vec<Volume>,
        Vec<VolumeMount>,
    ))
        ensures
            built.0.deep_view() == broker_volumes(cluster.deep_view()),
            built.1.deep_view() == config_and_tls_mounts(cluster.deep_view().spec),
    {
        let mut volumes = vec![
            Volume {
                name: "config".to_owned(),
                config_map: Some(
                    ConfigMapVolumeSource { name: cluster.metadata.name.clone().concat("-config") },
                ),
                secret: None,
            },
        ];
        let mut mounts = vec![Self::build_read_only_mount("config", CONFIG_MOUNT_PATH)];
        match &cluster.spec.tls {
            Some(tls) => {
                if tls.enabled && !text::text_is_blank(tls.secret_name.as_str()) {
                    volumes.push(
                        Self::build_secret_volume(TLS_VOLUME_NAME, tls.secret_name.as_str()),
                    );
                    mounts.push(Self::build_read_only_mount(TLS_VOLUME_NAME, TLS_MOUNT_PATH));
                    match &tls.ca_secret_name {
                        Some(ca_secret) => {
                            if tls.mtls_enabled {
                                volumes.push(
                                    Self::build_secret_volume(
                                        TLS_CA_VOLUME_NAME,
                                        ca_secret.as_str(),
                                    ),
                                );
                                mounts.push(
                                    Self::build_read_only_mount(
                                        TLS_CA_VOLUME_NAME,
                                        TLS_CA_MOUNT_PATH,
                                    ),
                                );
                            }
                        },
                        None => {},
                    }
                }
            },
            None => {},
        }
        assert(volumes.deep_view() =~= broker_volumes(cluster.deep_view()));
        assert(mounts.deep_view() =~= config_and_tls_mounts(cluster.deep_view().spec));
        (volumes, mounts)
    }

    fn build_secret_volume(name: &str, secret: &str) -> (volume: Volume)
        ensures
            volume.deep_view() == secret_volume(name@, secret@),
    {
        Volume {
            name: name.to_owned(),
            config_map: None,
            secret: Some(
                SecretVolumeSource {
                    secret_name: Some(secret.to_owned()),
                    default_mode: Some(0o440),
                },
            ),
        }
    }

    fn build_read_only_mount(name: &str, path: &str) -> (mount: VolumeMount)
        ensures
            mount.deep_view() == read_only_mount(name@, path@),
    {
        VolumeMount { name: name.to_owned(), mount_path: path.to_owned(), read_only: Some(true) }
    }

    /// Build the resource requirements of the broker container.
    pub fn build_resource_requirements(spec: &ResourceRequirements) -> (built: ContainerResources)
        ensures
            built.deep_view() == broker_resources(spec.deep_view()),
    {
        ContainerResources {
            limits: Self::build_quantities(&spec.limits),
            requests: Self::build_quantities(&spec.requests),
        }
    }

    fn build_quantities(list: &ResourceList) -> (built: Option<Vec<KeyValue>>)
        ensures
            built.deep_view() == quantities(list.deep_view()),
    {
        let mut entries: Vec<KeyValue> = Vec::new();
        match &list.cpu {
            Some(cpu) => {
                entries.push(KeyValue::new("cpu", cpu.as_str()));
            },
            None => {},
        }
        match &list.memory {
            Some(memory) => {
                entries.push(KeyValue::new("memory", memory.as_str()));
            },
            None => {},
        }
        if entries.is_empty() {
            None
        } else {
            assert(entries.deep_view() =~= quantities(list.deep_view())->0);
            Some(entries)
        }
    }

    /// Build the claims for the data volumes.
    pub fn build_volume_claim_templates(storage: &ClusterStorage) -> (built: Vec<
        PersistentVolumeClaim,
    >)
        ensures
            built.deep_view() == data_claims(storage.deep_view()),
    {
        let requests = vec![KeyValue::new("storage", storage.size.as_str())];
        assert(requests.deep_view() =~= seq![
            KeyValueView { key: "storage"@, value: storage.size@ },
        ]);
        let access_modes = storage.access_modes.clone();
        assert(access_modes.deep_view() =~= storage.access_modes.deep_view());
        let built = vec![
            PersistentVolumeClaim {
                metadata: ObjectMeta {
                    name: Some("data".to_owned()),
                    namespace: None,
                    labels: None,
                    owner_references: None,
                },
                spec: Some(
                    PersistentVolumeClaimSpec {
                        access_modes: Some(access_modes),
                        storage_class_name: storage.storage_class_name.clone(),
                        resources: Some(
                            ContainerResources { limits: None, requests: Some(requests) },
                        ),
                    },
                ),
            },
        ];
        assert(built.deep_view() =~= data_claims(storage.deep_view()));
        built
    }

    /// The labels of everything rendered for a cluster.
    pub fn common_labels(cluster: &StreamlineCluster) -> (labels: Vec<KeyValue>)
        ensures
            labels.deep_view() == cluster_labels(cluster.metadata.name@),
    {
        let labels = vec![
            KeyValue::new("app.kubernetes.io/instance", cluster.metadata.name.as_str()),
            KeyValue::new("app.kubernetes.io/managed-by", "streamline-operator"),
            KeyValue::new("app.kubernetes.io/name", "streamline"),
        ];
        assert(labels.deep_view() =~= cluster_labels(cluster.metadata.name@));
        labels
    }

    /// The labels that select the pods of a cluster.
    pub fn pod_selector(cluster: &StreamlineCluster) -> (labels: Vec<KeyValue>)
        ensures
            labels.deep_view() == selector_labels(cluster.metadata.name@),
    {
        let labels = vec![
            KeyValue::new("app.kubernetes.io/instance", cluster.metadata.name.as_str()),
            KeyValue::new("app.kubernetes.io/name", "streamline"),
        ];
        assert(labels.deep_view() =~= selector_labels(cluster.metadata.name@));
        labels
    }

    /// The reference that makes a cluster the owner of what is rendered for it.
    pub fn owner_reference(cluster: &StreamlineCluster) -> (owner: OwnerReference)
        ensures
            owner.deep_view() == owned_by(cluster.deep_view()),
    {
        OwnerReference {
            api_version: "streamline.io/v1alpha1".to_owned(),
            kind: "StreamlineCluster".to_owned(),
            name: cluster.metadata.name.clone(),
            uid: match &cluster.metadata.uid {
                Some(uid) => uid.clone(),
                None => String::new(),
            },
            controller: Some(true),
            block_owner_deletion: Some(true),
        }
    }

    /// The label selector that finds the pods and the volume claims of a cluster.
    pub fn list_selector(cluster: &StreamlineCluster) -> (selector: String)
        ensures
            selector@ == instance_selector(cluster.metadata.name@),
    {
        "app.kubernetes.io/instance=".to_owned().concat(cluster.metadata.name.as_str())
    }

    /// Decide what the operator should do about this cluster's HPA.
    ///
    /// Always returns a configuration, so every reconcile makes a decision:
    /// `enabled: true` creates/updates the HPA, `enabled: false` deletes any
    /// HPA the operator owns. Only an autoscaling spec that is both requested
    /// *and* accepted may result in an HPA; everything else is a cleanup.
    pub fn desired_hpa_config(spec: &ClusterSpec, spec_is_valid: bool) -> (config: AutoScalingConfig)
        ensures
            config.deep_view() == desired_hpa(spec.autoscaling.deep_view(), spec_is_valid),
    {
        match &spec.autoscaling {
            // No autoscaling block: the operator owns no HPA, so reconciling
            // means removing any HPA it left behind.
            None => AutoScalingConfig::default(),
            Some(autoscaling) => {
                let base = AutoScalingConfig::default();
                AutoScalingConfig {
                    enabled: autoscaling.enabled && spec_is_valid,
                    min_replicas: autoscaling.min_replicas,
                    max_replicas: autoscaling.max_replicas,
                    target_cpu_utilization: autoscaling.target_cpu_utilization,
                    target_memory_utilization: autoscaling.target_memory_utilization,
                    custom_metrics: base.custom_metrics,
                    behavior: None,
                    partition_aware: autoscaling.partition_aware,
                    target_lag_per_partition: autoscaling.target_lag_per_partition,
                    target_messages_per_second: autoscaling.target_messages_per_second,
                }
            },
        }
    }

    /// Decide what reconciling a cluster amounts to.
    pub fn plan(cluster: &StreamlineCluster) -> (plan: ClusterPlan)
        ensures
            plan.deep_view() == reconcile_plan(cluster.deep_view()),
    {
        let mut steps: Vec<ClusterStep> = Vec::new();
        if cluster.metadata.deleting {
            steps.push(ClusterStep::CleanUpVolumes);
            steps.push(ClusterStep::RemoveFinalizer);
            let plan = ClusterPlan {
                steps,
                next: NextReconcile::AwaitChange,
                verdict: ReconcileVerdict::Uncounted,
            };
            assert(plan.steps.deep_view() =~= reconcile_plan(cluster.deep_view()).steps);
            return plan;
        }
        if !cluster.metadata.has_finalizer(CLUSTER_FINALIZER) {
            steps.push(ClusterStep::AddFinalizer);
        }
        let valid = cluster.spec.validate().is_ok();
        let hpa_config = Self::desired_hpa_config(&cluster.spec, valid);
        // An autoscaler that is not wanted is torn down before anything else, on
        // every reconcile and before the spec is refused: one that is left over
        // would go on scaling the StatefulSet.
        if !hpa_config.enabled {
            steps.push(ClusterStep::DeleteHpa);
        }
        if !valid {
            steps.push(ClusterStep::PublishInvalidStatus);
            let plan = ClusterPlan {
                steps,
                next: NextReconcile::After(300),
                verdict: ReconcileVerdict::Error,
            };
            assert(plan.steps.deep_view() =~= reconcile_plan(cluster.deep_view()).steps);
            return plan;
        }
        steps.push(ClusterStep::ApplyConfigMap);
        steps.push(ClusterStep::ApplyHeadlessService);
        steps.push(ClusterStep::ApplyClientService);
        steps.push(ClusterStep::ApplyStatefulSet);
        if hpa_config.enabled {
            steps.push(ClusterStep::ApplyHpa);
        }
        steps.push(ClusterStep::PublishObservedStatus);
        let plan = ClusterPlan {
            steps,
            next: NextReconcile::After(60),
            verdict: ReconcileVerdict::Success,
        };
        assert(plan.steps.deep_view() =~= reconcile_plan(cluster.deep_view()).steps);
        plan
    }

    /// The message that a spec which failed validation is refused with.
    pub fn invalid_message(cluster: &StreamlineCluster) -> (message: String)
        ensures
            message@ == text::joined(cluster::violations(cluster.deep_view().spec), "; "@),
    {
        match cluster.spec.validate() {
            Ok(()) => String::new(),
            Err(errors) => text::join_texts(&errors, "; "),
        }
    }

    /// Build the status published for a spec that failed validation.
    pub fn invalid_status(cluster: &StreamlineCluster, message: &str) -> (status: ClusterStatus)
        ensures
            exists|now: Seq<char>|
                clock::is_stamp(now) && status.deep_view() == #[trigger] invalid_report(
                    cluster.deep_view(),
                    message@,
                    now,
                ),
    {
        let now = clock::now_rfc3339();
        Self::invalid_status_at(cluster, message, now.as_str())
    }

    /// Build the status published for a spec that failed validation at `now`.
    pub fn invalid_status_at(
        cluster: &StreamlineCluster,
        message: &str,
        now: &str,
    ) -> (status: ClusterStatus)
        ensures
            status.deep_view() == invalid_report(cluster.deep_view(), message@, now@),
    {
        let status = ClusterStatus {
            phase: ClusterPhase::Failed,
            ready_replicas: 0,
            replicas: cluster.spec.replicas,
            leader_id: None,
            broker_endpoints: Vec::new(),
            conditions: Self::invalid_spec_conditions_at(cluster, message, now),
            observed_generation: cluster.metadata.generation,
            last_updated: None,
        };
        assert(status.broker_endpoints.deep_view() =~= Seq::empty());
        Self::with_stable_timestamp_at(cluster, status, now)
    }

    /// Stamp `lastUpdated` only when the rest of the status actually changed.
    ///
    /// `lastUpdated` is excluded from the comparison: it is derived from the
    /// clock rather than from cluster state, so including it would make every
    /// status differ from the previous one.
    pub fn with_stable_timestamp(cluster: &StreamlineCluster, status: ClusterStatus) -> (stamped:
        ClusterStatus)
        ensures
            exists|now: Seq<char>|
                clock::is_stamp(now) && stamped.deep_view() == #[trigger] stabilized(
                    cluster.deep_view().status,
                    status.deep_view(),
                    now,
                ),
    {
        let now = clock::now_rfc3339();
        Self::with_stable_timestamp_at(cluster, status, now.as_str())
    }

    /// Stamp `lastUpdated` with `now` if the rest of the status changed.
    pub fn with_stable_timestamp_at(
        cluster: &StreamlineCluster,
        status: ClusterStatus,
        now: &str,
    ) -> (stamped: ClusterStatus)
        ensures
            stamped.deep_view() == stabilized(
                cluster.deep_view().status,
                status.deep_view(),
                now@,
            ),
    {
        let mut stamped = status;
        match &cluster.status {
            Some(current) => {
                let mut comparable = current.clone();
                comparable.last_updated = None;
                assert(comparable.deep_view() =~= (ClusterStatusView {
                    last_updated: None,
                    ..current.deep_view()
                }));
                if statuses_eq(&comparable, &stamped) {
                    stamped.last_updated = current.last_updated.clone();
                } else {
                    stamped.last_updated = Some(now.to_owned());
                }
            },
            None => {
                stamped.last_updated = Some(now.to_owned());
            },
        }
        stamped
    }

    /// Whether publishing `status` would change what the cluster has published.
    ///
    /// A status patch produces a watch event for the same object, so patching an
    /// unchanged status would re-enter the reconcile at once.
    pub fn status_changed(cluster: &StreamlineCluster, status: &ClusterStatus) -> (changed: bool)
        ensures
            changed == (cluster.deep_view().status != Some(status.deep_view())),
    {
        match &cluster.status {
            Some(current) => !statuses_eq(current, status),
            None => true,
        }
    }

    /// Seed the condition helper from the conditions already published.
    pub fn seeded_conditions(cluster: &StreamlineCluster) -> (fields: Vec<ConditionFields>)
        ensures
            fields.deep_view() == published_conditions(cluster.deep_view().status),
    {
        let mut fields: Vec<ConditionFields> = Vec::new();
        match &cluster.status {
            Some(status) => {
                let ghost all = status.conditions.deep_view();
                let mut i: usize = 0;
                assert(fields.deep_view() =~= all.subrange(0, 0));
                while i < status.conditions.len()
                    invariant
                        i <= status.conditions.len(),
                        all == status.conditions.deep_view(),
                        fields.deep_view() == all.subrange(0, i as int),
                    decreases status.conditions.len() - i,
                {
                    let condition = &status.conditions[i];
                    let ghost before = fields.deep_view();
                    fields.push(
                        ConditionFields {
                            condition_type: condition.type_.clone(),
                            status: condition.status.clone(),
                            last_transition_time: condition.last_transition_time.clone(),
                            reason: condition.reason.clone(),
                            message: condition.message.clone(),
                        },
                    );
                    assert(fields.deep_view() =~= before.push(all[i as int]));
                    assert(before.push(all[i as int]) =~= all.subrange(0, i + 1));
                    i = i + 1;
                }
                assert(all.subrange(0, all.len() as int) =~= all);
            },
            None => {
                assert(fields.deep_view() =~= Seq::empty());
            },
        }
        fields
    }

    /// Conditions published when a spec fails validation.
    pub fn invalid_spec_conditions(cluster: &StreamlineCluster, message: &str) -> (published: Vec<
        ClusterCondition,
    >)
        ensures
            exists|now: Seq<char>|
                clock::is_stamp(now) && published.deep_view() == conditions::with_conditions(
                    published_conditions(cluster.deep_view().status),
                    #[trigger] invalid_conditions(message@, now),
                ),
    {
        let now = clock::now_rfc3339();
        Self::invalid_spec_conditions_at(cluster, message, now.as_str())
    }

    /// Conditions published when a spec fails validation at `now`.
    pub fn invalid_spec_conditions_at(
        cluster: &StreamlineCluster,
        message: &str,
        now: &str,
    ) -> (published: Vec<ClusterCondition>)
        ensures
            published.deep_view() == conditions::with_conditions(
                published_conditions(cluster.deep_view().status),
                invalid_conditions(message@, now@),
            ),
    {
        let news = vec![
            condition_at(CLUSTER_CONDITION_READY, CONDITION_FALSE, "InvalidSpec", message, now),
            condition_at(CLUSTER_CONDITION_AVAILABLE, CONDITION_FALSE, "InvalidSpec", message, now),
            condition_at(
                CLUSTER_CONDITION_PROGRESSING,
                CONDITION_FALSE,
                "InvalidSpec",
                BLOCKED_MESSAGE,
                now,
            ),
            condition_at(CLUSTER_CONDITION_DEGRADED, CONDITION_TRUE, "InvalidSpec", message, now),
        ];
        assert(news.deep_view() =~= invalid_conditions(message@, now@));
        let mut fields = Self::seeded_conditions(cluster);
        set_conditions(&mut fields, &news);
        into_cluster_conditions(fields)
    }

    /// How many of the pods report themselves ready, as the 32-bit number that a status holds.
    pub fn count_ready(pods: &Vec<PodReport>) -> (count: i32)
        ensures
            count == ready_pods(pods.deep_view()) as i32,
    {
        let ghost all = pods.deep_view();
        let ghost ready = |pod: PodReportView| pod_is_ready(pod);
        let mut count: usize = 0;
        let mut i: usize = 0;
        reveal(Seq::filter);
        while i < pods.len()
            invariant
                i <= pods.len(),
                all == pods.deep_view(),
                ready == (|pod: PodReportView| pod_is_ready(pod)),
                0 <= count <= i,
                count == all.subrange(0, i as int).filter(ready).len(),
            decreases pods.len() - i,
        {
            reveal(Seq::filter);
            assert(all.subrange(0, i + 1).drop_last() =~= all.subrange(0, i as int));
            assert(all.subrange(0, i + 1).last() == pods[i as int].deep_view());
            if report_is_ready(&pods[i]) {
                count = count + 1;
            }
            i = i + 1;
        }
        assert(all.subrange(0, all.len() as int) =~= all);
        #[verifier::truncate]
        (count as i32)
    }

    /// Build the status for an observed broker count.
    pub fn observed_status(cluster: &StreamlineCluster, namespace: &str, ready_count: i32) -> (status:
        ClusterStatus)
        ensures
            exists|now: Seq<char>|
                clock::is_stamp(now) && status.deep_view() == #[trigger] observed_report(
                    cluster.deep_view(),
                    namespace@,
                    ready_count,
                    now,
                ),
    {
        let now = clock::now_rfc3339();
        Self::observed_status_at(cluster, namespace, ready_count, now.as_str())
    }

    /// Build the status for a broker count observed at `now`.
    pub fn observed_status_at(
        cluster: &StreamlineCluster,
        namespace: &str,
        ready_count: i32,
        now: &str,
    ) -> (status: ClusterStatus)
        ensures
            status.deep_view() == observed_report(
                cluster.deep_view(),
                namespace@,
                ready_count,
                now@,
            ),
    {
        let desired = cluster.spec.replicas;
        let phase = if ready_count == desired {
            ClusterPhase::Running
        } else if ready_count > 0 {
            ClusterPhase::Scaling
        } else {
            ClusterPhase::Pending
        };
        let news = vec![
            Self::build_ready_condition(ready_count, desired, now),
            Self::build_available_condition(ready_count, now),
            Self::build_progressing_condition(ready_count, desired, now),
            Self::build_degraded_condition(ready_count, desired, now),
        ];
        assert(news.deep_view() =~= observed_conditions(ready_count, desired, now@));
        // Seeded from the conditions already published, so unchanged ones keep
        // their transition timestamps.
        let mut fields = Self::seeded_conditions(cluster);
        set_conditions(&mut fields, &news);
        let status = ClusterStatus {
            phase,
            ready_replicas: ready_count,
            replicas: desired,
            leader_id: None,
            broker_endpoints: Self::build_broker_endpoints(
                cluster.metadata.name.as_str(),
                desired,
                namespace,
                cluster.spec.kafka_port,
            ),
            conditions: into_cluster_conditions(fields),
            observed_generation: cluster.metadata.generation,
            last_updated: None,
        };
        Self::with_stable_timestamp_at(cluster, status, now)
    }

    fn build_broker_endpoints(name: &str, desired: i32, namespace: &str, port: i32) -> (endpoints: Vec<
        String,
    >)
        ensures
            endpoints.deep_view() == broker_endpoints(name@, desired, namespace@, port),
    {
        let ghost all = broker_endpoints(name@, desired, namespace@, port);
        let mut endpoints: Vec<String> = Vec::new();
        let mut ordinal: i32 = 0;
        assert(endpoints.deep_view() =~= all.subrange(0, 0));
        while ordinal < desired
            invariant
                0 <= ordinal,
                desired >= 0 ==> ordinal <= desired,
                desired < 0 ==> ordinal == 0,
                all == broker_endpoints(name@, desired, namespace@, port),
                endpoints.deep_view() == all.subrange(0, ordinal as int),
            decreases desired - ordinal,
        {
            let ghost before = endpoints.deep_view();
            endpoints.push(
                name.to_owned().concat("-").concat(text::i32_text(ordinal).as_str()).concat(
                    ".",
                ).concat(name).concat("-headless.").concat(namespace).concat(".svc:").concat(
                    text::i32_text(port).as_str(),
                ),
            );
            assert(endpoints.deep_view() =~= before.push(all[ordinal as int]));
            assert(before.push(all[ordinal as int]) =~= all.subrange(0, ordinal + 1));
            ordinal = ordinal + 1;
        }
        assert(all.subrange(0, ordinal as int) =~= all);
        endpoints
    }

    fn build_ready_message(ready: i32, desired: i32) -> (message: String)
        ensures
            message@ == ready_message(ready, desired),
    {
        text::i32_text(ready).concat("/").concat(text::i32_text(desired).as_str()).concat(
            " brokers ready",
        )
    }

    fn build_ready_condition(ready: i32, desired: i32, now: &str) -> (condition: ConditionFields)
        ensures
            condition.deep_view() == ready_condition(ready, desired, now@),
    {
        let message = Self::build_ready_message(ready, desired);
        if ready == desired {
            condition_at(
                CLUSTER_CONDITION_READY,
                CONDITION_TRUE,
                "AllBrokersReady",
                message.as_str(),
                now,
            )
        } else {
            condition_at(
                CLUSTER_CONDITION_READY,
                CONDITION_FALSE,
                "BrokersNotReady",
                message.as_str(),
                now,
            )
        }
    }

    fn build_available_condition(ready: i32, now: &str) -> (condition: ConditionFields)
        ensures
            condition.deep_view() == available_condition(ready, now@),
    {
        if ready > 0 {
            let message = text::i32_text(ready).concat(" broker(s) available");
            condition_at(
                CLUSTER_CONDITION_AVAILABLE,
                CONDITION_TRUE,
                "MinimumAvailable",
                message.as_str(),
                now,
            )
        } else {
            condition_at(
                CLUSTER_CONDITION_AVAILABLE,
                CONDITION_FALSE,
                "NoBrokersAvailable",
                "No brokers are available",
                now,
            )
        }
    }

    fn build_progressing_condition(ready: i32, desired: i32, now: &str) -> (condition:
        ConditionFields)
        ensures
            condition.deep_view() == progressing_condition(ready, desired, now@),
    {
        if ready < desired {
            let message = "Scaling from ".to_owned().concat(text::i32_text(ready).as_str()).concat(
                " to ",
            ).concat(text::i32_text(desired).as_str()).concat(" replicas");
            condition_at(
                CLUSTER_CONDITION_PROGRESSING,
                CONDITION_TRUE,
                "ScalingUp",
                message.as_str(),
                now,
            )
        } else if ready > desired {
            let message = "Scaling down from ".to_owned().concat(
                text::i32_text(ready).as_str(),
            ).concat(" to ").concat(text::i32_text(desired).as_str()).concat(" replicas");
            condition_at(
                CLUSTER_CONDITION_PROGRESSING,
                CONDITION_TRUE,
                "ScalingDown",
                message.as_str(),
                now,
            )
        } else {
            condition_at(
                CLUSTER_CONDITION_PROGRESSING,
                CONDITION_FALSE,
                "UpToDate",
                "All replicas are up to date",
                now,
            )
        }
    }

    // Degraded is false only at the exact desired count. Zero, partial, and
    // excess ready pods all mean the observed state is not healthy.
    fn build_degraded_condition(ready: i32, desired: i32, now: &str) -> (condition: ConditionFields)
        ensures
            condition.deep_view() == degraded_condition(ready, desired, now@),
    {
        if ready == desired {
            condition_at(
                CLUSTER_CONDITION_DEGRADED,
                CONDITION_FALSE,
                "Healthy",
                "Cluster is healthy",
                now,
            )
        } else if ready == 0 {
            let message = "No brokers are ready (0/".to_owned().concat(
                text::i32_text(desired).as_str(),
            ).concat(")");
            condition_at(
                CLUSTER_CONDITION_DEGRADED,
                CONDITION_TRUE,
                "NoBrokersReady",
                message.as_str(),
                now,
            )
        } else if ready < desired {
            let message = "Only ".to_owned().concat(
                Self::build_ready_message(ready, desired).as_str(),
            );
            condition_at(
                CLUSTER_CONDITION_DEGRADED,
                CONDITION_TRUE,
                "PartiallyReady",
                message.as_str(),
                now,
            )
        } else {
            let message = Self::build_ready_message(ready, desired).concat(
                "; expected exactly ",
            ).concat(text::i32_text(desired).as_str());
            condition_at(
                CLUSTER_CONDITION_DEGRADED,
                CONDITION_TRUE,
                "TooManyReadyBrokers",
                message.as_str(),
                now,
            )
        }
    }
}

fn report_is_ready(pod: &PodReport) -> (ready: bool)
    ensures
        ready == pod_is_ready(pod.deep_view()),
{
    match &pod.conditions {
        Some(all) => {
            let ghost reported = all.deep_view();
            let mut i: usize = 0;
            while i < all.len()
                invariant
                    i <= all.len(),
                    reported == all.deep_view(),
                    pod.deep_view().conditions == Some(reported),
                    forall|j: int|
                        0 <= j < i ==> !((#[trigger] reported[j]).type_ == "Ready"@
                            && reported[j].status == "True"@),
                decreases all.len() - i,
            {
                if text::text_eq(all[i].type_.as_str(), "Ready") && text::text_eq(
                    all[i].status.as_str(),
                    "True",
                ) {
                    assert(reported[i as int] == all[i as int].deep_view());
                    assert(says_ready(reported));
                    return true;
                }
                i = i + 1;
            }
            false
        },
        None => false,
    }
}

fn into_cluster_conditions(fields: Vec<ConditionFields>) -> (published: Vec<ClusterCondition>)
    ensures
        published.deep_view() == fields.deep_view(),
{
    let ghost all = fields.deep_view();
    let mut published: Vec<ClusterCondition> = Vec::new();
    let mut i: usize = 0;
    assert(published.deep_view() =~= all.subrange(0, 0));
    while i < fields.len()
        invariant
            i <= fields.len(),
            all == fields.deep_view(),
            published.deep_view() == all.subrange(0, i as int),
        decreases fields.len() - i,
    {
        let ghost before = published.deep_view();
        published.push(fields[i].clone().into_cluster_condition());
        assert(published.deep_view() =~= before.push(all[i as int]));
        assert(before.push(all[i as int]) =~= all.subrange(0, i + 1));
        i = i + 1;
    }
    assert(all.subrange(0, all.len() as int) =~= all);
    published
}

fn cluster_conditions_eq(left: &Vec<ClusterCondition>, right: &Vec<ClusterCondition>) -> (same:
    bool)
    ensures
        same == (left.deep_view() == right.deep_view()),
{
    if left.len() != right.len() {
        assert(left.deep_view().len() != right.deep_view().len());
        return false;
    }
    let mut i: usize = 0;
    while i < left.len()
        invariant
            i <= left.len(),
            left.len() == right.len(),
            forall|j: int| 0 <= j < i ==> left.deep_view()[j] == right.deep_view()[j],
        decreases left.len() - i,
    {
        let a = &left[i];
        let b = &right[i];
        if !(text::text_eq(a.type_.as_str(), b.type_.as_str()) && text::text_eq(
            a.status.as_str(),
            b.status.as_str(),
        ) && text::optional_text_eq(&a.last_transition_time, &b.last_transition_time)
            && text::optional_text_eq(&a.reason, &b.reason) && text::optional_text_eq(
            &a.message,
            &b.message,
        )) {
            assert(left.deep_view()[i as int] != right.deep_view()[i as int]);
            return false;
        }
        assert(left.deep_view()[i as int] == right.deep_view()[i as int]);
        i = i + 1;
    }
    assert(left.deep_view() =~= right.deep_view());
    true
}

/// Whether two statuses say the same.
pub fn statuses_eq(left: &ClusterStatus, right: &ClusterStatus) -> (same: bool)
    ensures
        same == (left.deep_view() == right.deep_view()),
{
    left.phase == right.phase && left.ready_replicas == right.ready_replicas && left.replicas
        == right.replicas && left.leader_id == right.leader_id && text::texts_eq(
        &left.broker_endpoints,
        &right.broker_endpoints,
    ) && cluster_conditions_eq(&left.conditions, &right.conditions) && left.observed_generation
        == right.observed_generation && text::optional_text_eq(
        &left.last_updated,
        &right.last_updated,
    )
}

// ---------------------------------------------------------------------------
// Laws
// ---------------------------------------------------------------------------

proof fn lemma_condition_types_differ()
    ensures
        CLUSTER_CONDITION_READY@.len() == 5,
        CLUSTER_CONDITION_AVAILABLE@.len() == 9,
        CLUSTER_CONDITION_PROGRESSING@.len() == 11,
        CLUSTER_CONDITION_DEGRADED@.len() == 8,
{
    reveal_strlit("Ready");
    reveal_strlit("Available");
    reveal_strlit("Progressing");
    reveal_strlit("Degraded");
}

/// Rebuilding the status of a refused spec from the status it published gives the same status
/// back, time stamps included: reconciling an unchanged resource publishes nothing new.
pub proof fn law_invalid_status_is_stable(
    cluster: StreamlineClusterView,
    message: Seq<char>,
    first: Seq<char>,
    later: Seq<char>,
)
    ensures
        ({
            let published = invalid_report(cluster, message, first);
            invalid_report(
                StreamlineClusterView { status: Some(published), ..cluster },
                message,
                later,
            ) == published
        }),
{
    let published = invalid_report(cluster, message, first);
    let seed = published_conditions(cluster.status);
    let news = invalid_conditions(message, first);
    let again = invalid_conditions(message, later);
    lemma_condition_types_differ();
    conditions::law_recorded_conditions_are_stable(seed, news, again);
    let next = StreamlineClusterView { status: Some(published), ..cluster };
    assert(invalid_report(next, message, later) =~= published);
}

/// Rebuilding the status of an unchanged cluster from the status it published gives the same
/// status back, whatever the ready count, time stamps included.
pub proof fn law_observed_status_is_stable(
    cluster: StreamlineClusterView,
    namespace: Seq<char>,
    ready: i32,
    first: Seq<char>,
    later: Seq<char>,
)
    ensures
        ({
            let published = observed_report(cluster, namespace, ready, first);
            observed_report(
                StreamlineClusterView { status: Some(published), ..cluster },
                namespace,
                ready,
                later,
            ) == published
        }),
{
    let published = observed_report(cluster, namespace, ready, first);
    let seed = published_conditions(cluster.status);
    let news = observed_conditions(ready, cluster.spec.replicas, first);
    let again = observed_conditions(ready, cluster.spec.replicas, later);
    lemma_condition_types_differ();
    conditions::law_recorded_conditions_are_stable(seed, news, again);
    let next = StreamlineClusterView { status: Some(published), ..cluster };
    assert(observed_report(next, namespace, ready, later) =~= published);
}

/// A status that differs from the published one in its time stamp alone is no change: the
/// published time stamp is kept. Any other difference takes the new one.
pub proof fn law_the_timestamp_alone_is_no_change(
    published: ClusterStatusView,
    status: ClusterStatusView,
    now: Seq<char>,
)
    requires
        status.last_updated is None,
    ensures
        (ClusterStatusView { last_updated: None, ..published }) == status ==> stabilized(
            Some(published),
            status,
            now,
        ) == published,
        (ClusterStatusView { last_updated: None, ..published }) != status ==> stabilized(
            Some(published),
            status,
            now,
        ).last_updated == Some(now),
        stabilized(None, status, now).last_updated == Some(now),
{
    if (ClusterStatusView { last_updated: None, ..published }) == status {
        assert(stabilized(Some(published), status, now) =~= published);
    }
}

/// Whatever a cluster published before, its status says what was observed: the first condition
/// of each type is the one that the ready count amounts to.
pub proof fn law_the_status_says_what_was_observed(
    cluster: StreamlineClusterView,
    namespace: Seq<char>,
    ready: i32,
    now: Seq<char>,
    i: int,
)
    requires
        0 <= i < 4,
    ensures
        conditions::settled(
            observed_report(cluster, namespace, ready, now).conditions,
            observed_conditions(ready, cluster.spec.replicas, now)[i],
        ),
{
    let seed = published_conditions(cluster.status);
    let news = observed_conditions(ready, cluster.spec.replicas, now);
    lemma_condition_types_differ();
    conditions::law_recorded_statements_hold(seed, news);
    assert(conditions::settled(conditions::with_conditions(seed, news), news[i]));
}

/// A refused cluster is reported as failed, with the refusal in its conditions and no broker to
/// send requests to, whatever it published before.
pub proof fn law_a_refused_cluster_is_reported_as_failed(
    cluster: StreamlineClusterView,
    message: Seq<char>,
    now: Seq<char>,
    i: int,
)
    requires
        0 <= i < 4,
    ensures
        ({
            let status = invalid_report(cluster, message, now);
            &&& status.phase == ClusterPhase::Failed
            &&& conditions::settled(status.conditions, invalid_conditions(message, now)[i])
            &&& !controllers::takes_requests(
                StreamlineClusterView { status: Some(status), ..cluster },
            )
        }),
{
    let seed = published_conditions(cluster.status);
    let news = invalid_conditions(message, now);
    lemma_condition_types_differ();
    conditions::law_recorded_statements_hold(seed, news);
    assert(conditions::settled(conditions::with_conditions(seed, news), news[i]));
}

/// A running cluster with at least one desired broker takes requests.
pub proof fn law_a_running_cluster_takes_requests(
    cluster: StreamlineClusterView,
    namespace: Seq<char>,
    ready: i32,
    now: Seq<char>,
)
    requires
        cluster.spec.replicas > 0,
    ensures
        ({
            let status = observed_report(cluster, namespace, ready, now);
            controllers::takes_requests(StreamlineClusterView { status: Some(status), ..cluster })
                <==> ready > 0
        }),
        observed_phase(ready, cluster.spec.replicas) == ClusterPhase::Running ==> ready > 0,
{
}

/// A cluster is running, ready and not degraded at exactly the desired count of ready brokers,
/// and neither below it nor above it.
pub proof fn law_only_the_exact_count_is_healthy(ready: i32, desired: i32, now: Seq<char>)
    ensures
        observed_phase(ready, desired) == ClusterPhase::Running <==> ready == desired,
        ready_condition(ready, desired, now).status == CONDITION_TRUE@ <==> ready == desired,
        degraded_condition(ready, desired, now).status == CONDITION_FALSE@ <==> ready == desired,
        progressing_condition(ready, desired, now).status == CONDITION_FALSE@ <==> ready
            == desired,
        available_condition(ready, now).status == CONDITION_TRUE@ <==> ready > 0,
{
    reveal_strlit("True");
    reveal_strlit("False");
    assert(CONDITION_TRUE@.len() == 4);
    assert(CONDITION_FALSE@.len() == 5);
}

/// Each desired broker has an address of its own.
pub proof fn law_broker_endpoints_are_distinct(
    name: Seq<char>,
    desired: i32,
    namespace: Seq<char>,
    port: i32,
    i: int,
    j: int,
)
    requires
        0 <= i < j < desired,
    ensures
        broker_endpoints(name, desired, namespace, port).len() == desired,
        broker_endpoints(name, desired, namespace, port)[i] != broker_endpoints(
            name,
            desired,
            namespace,
            port,
        )[j],
{
    let front = name + "-"@;
    let back = "."@ + name + "-headless."@ + namespace + ".svc:"@ + text::decimal(port as int);
    let left = broker_endpoint(name, i, namespace, port);
    let right = broker_endpoint(name, j, namespace, port);
    assert(left =~= front + text::decimal(i) + back);
    assert(right =~= front + text::decimal(j) + back);
    if left == right {
        assert(text::decimal(i).len() == text::decimal(j).len());
        assert forall|k: int| 0 <= k < text::decimal(i).len() implies text::decimal(i)[k]
            == text::decimal(j)[k] by {
            assert(left[front.len() + k] == text::decimal(i)[k]);
            assert(right[front.len() + k] == text::decimal(j)[k]);
        }
        assert(text::decimal(i) =~= text::decimal(j));
        text::law_decimal_is_injective(i, j);
    }
}

/// Every variable of the broker has exactly one of a value and a source.
pub proof fn law_no_variable_is_left_empty(spec: ClusterSpecView, i: int)
    requires
        0 <= i < broker_env(spec).len(),
    ensures
        broker_env(spec)[i].value is Some <==> broker_env(spec)[i].value_from is None,
{
    lemma_rendered_entries(spec.env);
    let base = operator_env(spec);
    if i >= base.len() {
        assert(broker_env(spec)[i] == rendered_entries(spec.env)[i - base.len()]);
    }
}

proof fn lemma_rendered_entries(env: Seq<EnvVarView>)
    ensures
        forall|i: int|
            0 <= i < rendered_entries(env).len() ==> ((#[trigger] rendered_entries(
                env,
            )[i]).value is Some <==> rendered_entries(env)[i].value_from is None),
        rendered_entries(env).len() <= env.len(),
        (forall|i: int| 0 <= i < env.len() ==> cluster::env_resolution(#[trigger] env[i]) is Ok)
            ==> rendered_entries(env).len() == env.len() && (forall|i: int|
            0 <= i < env.len() ==> (#[trigger] rendered_entries(env)[i]).name == env[i].name),
    decreases env.len(),
{
    if env.len() > 0 {
        let front = env.drop_last();
        lemma_rendered_entries(front);
        let before = rendered_entries(front);
        let last = rendered_entry(env.last());
        assert(rendered_entries(env) == before + last);
        if cluster::env_resolution(env.last()) is Ok {
            cluster::law_accepted_entries_have_one_source(env.last());
        }
        assert forall|i: int| 0 <= i < rendered_entries(env).len() implies ((
        #[trigger] rendered_entries(env)[i]).value is Some <==> rendered_entries(
            env,
        )[i].value_from is None) by {
            if i < before.len() {
                assert(rendered_entries(env)[i] == before[i]);
            }
        }
        if forall|i: int| 0 <= i < env.len() ==> cluster::env_resolution(#[trigger] env[i]) is Ok {
            assert forall|i: int| 0 <= i < front.len() implies cluster::env_resolution(
                #[trigger] front[i],
            ) is Ok by {
                assert(front[i] == env[i]);
            }
            assert(cluster::env_resolution(env[env.len() - 1]) is Ok);
            assert forall|i: int| 0 <= i < env.len() implies (#[trigger] rendered_entries(
                env,
            )[i]).name == env[i].name by {
                if i < front.len() {
                    assert(rendered_entries(env)[i] == before[i]);
                    assert(front[i] == env[i]);
                }
            }
        }
    }
}

/// An accepted spec has every one of its variables rendered, in order, after those of the
/// operator; a spec entry that cannot be mapped is never rendered.
pub proof fn law_accepted_variables_are_all_rendered(spec: ClusterSpecView)
    ensures
        cluster::acceptable(spec) ==> broker_env(spec).len() == operator_env(spec).len()
            + spec.env.len() && (forall|i: int|
            0 <= i < spec.env.len() ==> broker_env(spec)[operator_env(spec).len() + i].name
                == #[trigger] spec.env[i].name),
        forall|i: int|
            0 <= i < spec.env.len() && cluster::env_resolution(#[trigger] spec.env[i]) is Err
                ==> rendered_entry(spec.env[i]).len() == 0,
{
    lemma_rendered_entries(spec.env);
    if cluster::acceptable(spec) {
        assert forall|i: int| 0 <= i < spec.env.len() implies broker_env(spec)[operator_env(
            spec,
        ).len() + i].name == #[trigger] spec.env[i].name by {
            assert(broker_env(spec)[operator_env(spec).len() + i] == rendered_entries(
                spec.env,
            )[i]);
        }
    }
}

/// Whether `inner` lies inside the directory `outer`.
pub open spec fn nested(outer: Seq<char>, inner: Seq<char>) -> bool {
    outer.len() < inner.len() && inner.subrange(0, outer.len() as int) == outer
        && inner[outer.len() as int] == '/'
}

/// No mount of the broker lies inside another, and no two share a path.
pub proof fn law_mounts_are_siblings(spec: ClusterSpecView, i: int, j: int)
    requires
        0 <= i < broker_mounts(spec).len(),
        0 <= j < broker_mounts(spec).len(),
        i != j,
    ensures
        !nested(broker_mounts(spec)[i].mount_path, broker_mounts(spec)[j].mount_path),
        broker_mounts(spec)[i].mount_path != broker_mounts(spec)[j].mount_path,
{
    reveal_strlit("/data");
    reveal_strlit("/etc/streamline");
    reveal_strlit("/etc/streamline-tls");
    reveal_strlit("/etc/streamline-tls-ca");
    assert(DATA_MOUNT_PATH@.len() == 5 && DATA_MOUNT_PATH@[1] == 'd');
    assert(CONFIG_MOUNT_PATH@.len() == 15 && CONFIG_MOUNT_PATH@[1] == 'e');
    assert(TLS_MOUNT_PATH@.len() == 19 && TLS_MOUNT_PATH@[1] == 'e' && TLS_MOUNT_PATH@[15] == '-');
    assert(TLS_CA_MOUNT_PATH@.len() == 22 && TLS_CA_MOUNT_PATH@[1] == 'e' && TLS_CA_MOUNT_PATH@[15]
        == '-' && TLS_CA_MOUNT_PATH@[19] == '-');
    let outer = broker_mounts(spec)[i].mount_path;
    let inner = broker_mounts(spec)[j].mount_path;
    if nested(outer, inner) {
        assert(inner.subrange(0, outer.len() as int)[1] == inner[1]);
    }
}

/// For an accepted spec the configuration turns TLS on exactly when the keypair is mounted,
/// and asks for client certificates exactly when the CA bundle is mounted too.
pub proof fn law_tls_is_configured_iff_it_is_mounted(cluster: StreamlineClusterView)
    requires
        cluster::acceptable(cluster.spec),
    ensures
        tls_config(cluster.spec.tls).len() > 0 <==> mounts_tls(cluster.spec),
        mounts_ca(cluster.spec) <==> cluster.spec.tls is Some && cluster.spec.tls->0.enabled
            && cluster.spec.tls->0.mtls_enabled,
        mounts_tls(cluster.spec) ==> broker_volumes(cluster).contains(
            secret_volume(TLS_VOLUME_NAME@, cluster.spec.tls->0.secret_name),
        ) && broker_mounts(cluster.spec).contains(
            read_only_mount(TLS_VOLUME_NAME@, TLS_MOUNT_PATH@),
        ),
        mounts_ca(cluster.spec) ==> broker_volumes(cluster).contains(
            secret_volume(TLS_CA_VOLUME_NAME@, cluster.spec.tls->0.ca_secret_name->0),
        ) && broker_mounts(cluster.spec).contains(
            read_only_mount(TLS_CA_VOLUME_NAME@, TLS_CA_MOUNT_PATH@),
        ),
        !mounts_tls(cluster.spec) ==> broker_volumes(cluster).len() == 1,
{
    reveal_strlit("\n[tls]\n");
    if mounts_tls(cluster.spec) {
        assert(broker_volumes(cluster)[1] == secret_volume(
            TLS_VOLUME_NAME@,
            cluster.spec.tls->0.secret_name,
        ));
        assert(broker_mounts(cluster.spec)[2] == read_only_mount(
            TLS_VOLUME_NAME@,
            TLS_MOUNT_PATH@,
        ));
    }
    if mounts_ca(cluster.spec) {
        assert(broker_volumes(cluster)[2] == secret_volume(
            TLS_CA_VOLUME_NAME@,
            cluster.spec.tls->0.ca_secret_name->0,
        ));
        assert(broker_mounts(cluster.spec)[3] == read_only_mount(
            TLS_CA_VOLUME_NAME@,
            TLS_CA_MOUNT_PATH@,
        ));
    }
}

/// An autoscaler is applied only for a spec that asks for one and passes validation. As no
/// spec does both, every reconcile of a cluster that is not being deleted removes a stale
/// autoscaler, and none ever creates one.
pub proof fn law_stale_autoscalers_are_always_removed(cluster: StreamlineClusterView)
    ensures
        forall|valid: bool|
            (#[trigger] desired_hpa(cluster.spec.autoscaling, valid)).enabled ==> valid
                && cluster.spec.autoscaling is Some && cluster.spec.autoscaling->0.enabled,
        !reconcile_plan(cluster).steps.contains(ClusterStep::ApplyHpa),
        !cluster.metadata.deleting ==> reconcile_plan(cluster).steps.contains(
            ClusterStep::DeleteHpa,
        ),
{
    let plan = reconcile_plan(cluster);
    if cluster.spec.autoscaling is Some && cluster.spec.autoscaling->0.enabled {
        cluster::law_enabled_autoscaling_is_never_accepted(cluster.spec);
        assert(cluster::violations(cluster.spec).len() > 0);
    }
    if !cluster.metadata.deleting {
        let finalized = cluster.metadata.finalizers.contains(CLUSTER_FINALIZER@);
        let at = if finalized {
            0int
        } else {
            1
        };
        assert(plan.steps[at] == ClusterStep::DeleteHpa);
    }
}

/// A spec that fails validation renders no workload: nothing is applied, the refusal is
/// published, and the next attempt is far off. Nor is anything applied to a cluster that is
/// being deleted.
pub proof fn law_refused_specs_render_nothing(cluster: StreamlineClusterView)
    requires
        cluster.metadata.deleting || !is_valid(cluster.spec),
    ensures
        forall|i: int|
            0 <= i < reconcile_plan(cluster).steps.len() ==> {
                let step = #[trigger] reconcile_plan(cluster).steps[i];
                step != ClusterStep::ApplyConfigMap && step != ClusterStep::ApplyHeadlessService
                    && step != ClusterStep::ApplyClientService && step
                    != ClusterStep::ApplyStatefulSet && step != ClusterStep::ApplyHpa
            },
        !cluster.metadata.deleting ==> reconcile_plan(cluster).steps.last()
            == ClusterStep::PublishInvalidStatus && reconcile_plan(cluster).next
            == NextReconcile::After(300),
{
}

/// The node selector is the one scheduling setting that a pod carries, and it is carried as
/// the spec has it.
pub proof fn law_only_the_node_selector_is_rendered(cluster: StreamlineClusterView)
    ensures
        ({
            let pod = broker_pod(cluster).spec->0;
            &&& pod.affinity is None
            &&& pod.tolerations is None
            &&& pod.topology_spread_constraints is None
            &&& pod.node_selector is Some <==> cluster.spec.node_selector.len() > 0
            &&& pod.node_selector is Some ==> pod.node_selector->0 == cluster.spec.node_selector
        }),
{
}

/// Every string map of the rendered objects is in key order: the labels, the pod selector, the
/// configuration data, the quantities, and the node selector of a well-formed spec.
pub proof fn law_rendered_string_maps_are_in_key_order(
    cluster: StreamlineClusterView,
    namespace: Seq<char>,
)
    requires
        cluster::well_formed(cluster.spec),
    ensures
        objects::in_key_order(cluster_labels(cluster.metadata.name)),
        objects::in_key_order(selector_labels(cluster.metadata.name)),
        objects::in_key_order(config_map(cluster, namespace).data->0),
        ({
            let resources = broker_resources(cluster.spec.resources);
            &&& resources.limits is Some ==> objects::in_key_order(resources.limits->0)
            &&& resources.requests is Some ==> objects::in_key_order(resources.requests->0)
        }),
        objects::in_key_order(
            data_claims(cluster.spec.storage)[0].spec->0.resources->0.requests->0,
        ),
        ({
            let pod = broker_pod(cluster).spec->0;
            pod.node_selector is Some ==> objects::in_key_order(pod.node_selector->0)
        }),
{
    objects::lemma_label_keys_rise();
    reveal_strlit("cpu");
    reveal_strlit("memory");
    text::lemma_precedes_at("cpu"@, "memory"@, 0);
}

} // verus!
