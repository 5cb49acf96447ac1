//! Plain counterparts of the Kubernetes objects that the operator renders.
//!
//! Each type holds the fields that the operator can set; whatever is missing
//! from a type is left unset in the object sent to the API server. String maps
//! are lists of entries in key order.

use crate::crd::cluster::{Toleration, TolerationView};
use crate::objects::{KeyValue, KeyValueView};
use vstd::prelude::*;

verus! {

/// Object metadata.
#[derive(Debug, PartialEq, Eq)]
pub struct ObjectMeta {
    pub name: Option<String>,
    pub namespace: Option<String>,
    pub labels: Option<Vec<KeyValue>>,
    pub owner_references: Option<Vec<OwnerReference>>,
}

/// What a [`ObjectMeta`] holds, over characters and sequences.
#[verifier::ext_equal]
pub struct ObjectMetaView {
    pub name: Option<Seq<char>>,
    pub namespace: Option<Seq<char>>,
    pub labels: Option<Seq<KeyValueView>>,
    pub owner_references: Option<Seq<OwnerReferenceView>>,
}

impl DeepView for ObjectMeta {
    type V = ObjectMetaView;

    open spec fn deep_view(&self) -> ObjectMetaView {
        ObjectMetaView {
            name: self.name.deep_view(),
            namespace: self.namespace.deep_view(),
            labels: self.labels.deep_view(),
            owner_references: self.owner_references.deep_view(),
        }
    }
}

/// Reference to the object that owns another.
#[derive(Debug, PartialEq, Eq)]
pub struct OwnerReference {
    pub api_version: String,
    pub kind: String,
    pub name: String,
    pub uid: String,
    pub controller: Option<bool>,
    pub block_owner_deletion: Option<bool>,
}

/// What a [`OwnerReference`] holds, over characters and sequences.
#[verifier::ext_equal]
pub struct OwnerReferenceView {
    pub api_version: Seq<char>,
    pub kind: Seq<char>,
    pub name: Seq<char>,
    pub uid: Seq<char>,
    pub controller: Option<bool>,
    pub block_owner_deletion: Option<bool>,
}

impl DeepView for OwnerReference {
    type V = OwnerReferenceView;

    open spec fn deep_view(&self) -> OwnerReferenceView {
        OwnerReferenceView {
            api_version: self.api_version@,
            kind: self.kind@,
            name: self.name@,
            uid: self.uid@,
            controller: self.controller,
            block_owner_deletion: self.block_owner_deletion,
        }
    }
}

/// A ConfigMap.
#[derive(Debug, PartialEq, Eq)]
pub struct ConfigMap {
    pub metadata: ObjectMeta,
    pub data: Option<Vec<KeyValue>>,
}

/// What a [`ConfigMap`] holds, over characters and sequences.
#[verifier::ext_equal]
pub struct ConfigMapView {
    pub metadata: ObjectMetaView,
    pub data: Option<Seq<KeyValueView>>,
}

impl DeepView for ConfigMap {
    type V = ConfigMapView;

    open spec fn deep_view(&self) -> ConfigMapView {
        ConfigMapView {
            metadata: self.metadata.deep_view(),
            data: self.data.deep_view(),
        }
    }
}

/// A Service.
#[derive(Debug, PartialEq, Eq)]
pub struct Service {
    pub metadata: ObjectMeta,
    pub spec: Option<ServiceSpec>,
}

/// What a [`Service`] holds, over characters and sequences.
#[verifier::ext_equal]
pub struct ServiceView {
    pub metadata: ObjectMetaView,
    pub spec: Option<ServiceSpecView>,
}

impl DeepView for Service {
    type V = ServiceView;

    open spec fn deep_view(&self) -> ServiceView {
        ServiceView {
            metadata: self.metadata.deep_view(),
            spec: self.spec.deep_view(),
        }
    }
}

/// Specification of a Service.
#[derive(Debug, PartialEq, Eq)]
pub struct ServiceSpec {
    pub cluster_ip: Option<String>,
    pub selector: Option<Vec<KeyValue>>,
    pub ports: Option<Vec<ServicePort>>,
    pub publish_not_ready_addresses: Option<bool>,
}

/// What a [`ServiceSpec`] holds, over characters and sequences.
#[verifier::ext_equal]
pub struct ServiceSpecView {
    pub cluster_ip: Option<Seq<char>>,
    pub selector: Option<Seq<KeyValueView>>,
    pub ports: Option<Seq<ServicePortView>>,
    pub publish_not_ready_addresses: Option<bool>,
}

impl DeepView for ServiceSpec {
    type V = ServiceSpecView;

    open spec fn deep_view(&self) -> ServiceSpecView {
        ServiceSpecView {
            cluster_ip: self.cluster_ip.deep_view(),
            selector: self.selector.deep_view(),
            ports: self.ports.deep_view(),
            publish_not_ready_addresses: self.publish_not_ready_addresses,
        }
    }
}

/// A port of a Service.
#[derive(Debug, PartialEq, Eq)]
pub struct ServicePort {
    pub name: Option<String>,
    pub port: i32,
}

/// What a [`ServicePort`] holds, over characters and sequences.
#[verifier::ext_equal]
pub struct ServicePortView {
    pub name: Option<Seq<char>>,
    pub port: i32,
}

impl DeepView for ServicePort {
    type V = ServicePortView;

    open spec fn deep_view(&self) -> ServicePortView {
        ServicePortView {
            name: self.name.deep_view(),
            port: self.port,
        }
    }
}

/// A StatefulSet.
#[derive(Debug, PartialEq, Eq)]
pub struct StatefulSet {
    pub metadata: ObjectMeta,
    pub spec: Option<StatefulSetSpec>,
}

/// What a [`StatefulSet`] holds, over characters and sequences.
#[verifier::ext_equal]
pub struct StatefulSetView {
    pub metadata: ObjectMetaView,
    pub spec: Option<StatefulSetSpecView>,
}

impl DeepView for StatefulSet {
    type V = StatefulSetView;

    open spec fn deep_view(&self) -> StatefulSetView {
        StatefulSetView {
            metadata: self.metadata.deep_view(),
            spec: self.spec.deep_view(),
        }
    }
}

/// Specification of a StatefulSet.
#[derive(Debug, PartialEq, Eq)]
pub struct StatefulSetSpec {
    pub replicas: Option<i32>,
    pub selector: LabelSelector,
    pub service_name: String,
    pub template: PodTemplateSpec,
    pub volume_claim_templates: Option<Vec<PersistentVolumeClaim>>,
    pub pod_management_policy: Option<String>,
    pub update_strategy: Option<StatefulSetUpdateStrategy>,
}

/// What a [`StatefulSetSpec`] holds, over characters and sequences.
#[verifier::ext_equal]
pub struct StatefulSetSpecView {
    pub replicas: Option<i32>,
    pub selector: LabelSelectorView,
    pub service_name: Seq<char>,
    pub template: PodTemplateSpecView,
    pub volume_claim_templates: Option<Seq<PersistentVolumeClaimView>>,
    pub pod_management_policy: Option<Seq<char>>,
    pub update_strategy: Option<StatefulSetUpdateStrategyView>,
}

impl DeepView for StatefulSetSpec {
    type V = StatefulSetSpecView;

    open spec fn deep_view(&self) -> StatefulSetSpecView {
        StatefulSetSpecView {
            replicas: self.replicas,
            selector: self.selector.deep_view(),
            service_name: self.service_name@,
            template: self.template.deep_view(),
            volume_claim_templates: self.volume_claim_templates.deep_view(),
            pod_management_policy: self.pod_management_policy.deep_view(),
            update_strategy: self.update_strategy.deep_view(),
        }
    }
}

/// A label selector.
#[derive(Debug, PartialEq, Eq)]
pub struct LabelSelector {
    pub match_labels: Option<Vec<KeyValue>>,
}

/// What a [`LabelSelector`] holds, over characters and sequences.
#[verifier::ext_equal]
pub struct LabelSelectorView {
    pub match_labels: Option<Seq<KeyValueView>>,
}

impl DeepView for LabelSelector {
    type V = LabelSelectorView;

    open spec fn deep_view(&self) -> LabelSelectorView {
        LabelSelectorView {
            match_labels: self.match_labels.deep_view(),
        }
    }
}

/// Update strategy of a StatefulSet.
#[derive(Debug, PartialEq, Eq)]
pub struct StatefulSetUpdateStrategy {
    pub type_: Option<String>,
    pub rolling_update: Option<RollingUpdateStatefulSetStrategy>,
}

/// What a [`StatefulSetUpdateStrategy`] holds, over characters and sequences.
#[verifier::ext_equal]
pub struct StatefulSetUpdateStrategyView {
    pub type_: Option<Seq<char>>,
    pub rolling_update: Option<RollingUpdateStatefulSetStrategyView>,
}

impl DeepView for StatefulSetUpdateStrategy {
    type V = StatefulSetUpdateStrategyView;

    open spec fn deep_view(&self) -> StatefulSetUpdateStrategyView {
        StatefulSetUpdateStrategyView {
            type_: self.type_.deep_view(),
            rolling_update: self.rolling_update.deep_view(),
        }
    }
}

/// Parameters of a rolling update.
#[derive(Debug, PartialEq, Eq)]
pub struct RollingUpdateStatefulSetStrategy {
    pub max_unavailable: Option<i32>,
}

/// What a [`RollingUpdateStatefulSetStrategy`] holds, over characters and sequences.
#[verifier::ext_equal]
pub struct RollingUpdateStatefulSetStrategyView {
    pub max_unavailable: Option<i32>,
}

impl DeepView for RollingUpdateStatefulSetStrategy {
    type V = RollingUpdateStatefulSetStrategyView;

    open spec fn deep_view(&self) -> RollingUpdateStatefulSetStrategyView {
        RollingUpdateStatefulSetStrategyView {
            max_unavailable: self.max_unavailable,
        }
    }
}

/// Template of the pods of a StatefulSet.
#[derive(Debug, PartialEq, Eq)]
pub struct PodTemplateSpec {
    pub metadata: Option<ObjectMeta>,
    pub spec: Option<PodSpec>,
}

/// What a [`PodTemplateSpec`] holds, over characters and sequences.
#[verifier::ext_equal]
pub struct PodTemplateSpecView {
    pub metadata: Option<ObjectMetaView>,
    pub spec: Option<PodSpecView>,
}

impl DeepView for PodTemplateSpec {
    type V = PodTemplateSpecView;

    open spec fn deep_view(&self) -> PodTemplateSpecView {
        PodTemplateSpecView {
            metadata: self.metadata.deep_view(),
            spec: self.spec.deep_view(),
        }
    }
}

/// Specification of a pod.
#[derive(Debug, PartialEq, Eq)]
pub struct PodSpec {
    pub service_account_name: Option<String>,
    pub containers: Vec<Container>,
    pub security_context: Option<PodSecurityContext>,
    pub node_selector: Option<Vec<KeyValue>>,
    pub affinity: Option<Affinity>,
    pub tolerations: Option<Vec<Toleration>>,
    pub topology_spread_constraints: Option<Vec<TopologySpreadConstraint>>,
    pub volumes: Option<Vec<Volume>>,
}

/// What a [`PodSpec`] holds, over characters and sequences.
#[verifier::ext_equal]
pub struct PodSpecView {
    pub service_account_name: Option<Seq<char>>,
    pub containers: Seq<ContainerView>,
    pub security_context: Option<PodSecurityContextView>,
    pub node_selector: Option<Seq<KeyValueView>>,
    pub affinity: Option<AffinityView>,
    pub tolerations: Option<Seq<TolerationView>>,
    pub topology_spread_constraints: Option<Seq<TopologySpreadConstraintView>>,
    pub volumes: Option<Seq<VolumeView>>,
}

impl DeepView for PodSpec {
    type V = PodSpecView;

    open spec fn deep_view(&self) -> PodSpecView {
        PodSpecView {
            service_account_name: self.service_account_name.deep_view(),
            containers: self.containers.deep_view(),
            security_context: self.security_context.deep_view(),
            node_selector: self.node_selector.deep_view(),
            affinity: self.affinity.deep_view(),
            tolerations: self.tolerations.deep_view(),
            topology_spread_constraints: self.topology_spread_constraints.deep_view(),
            volumes: self.volumes.deep_view(),
        }
    }
}

/// Affinity rules of a pod.
#[derive(Debug, PartialEq, Eq)]
pub struct Affinity {
    pub anti_affinity_topology_key: String,
}

/// What a [`Affinity`] holds, over characters and sequences.
#[verifier::ext_equal]
pub struct AffinityView {
    pub anti_affinity_topology_key: Seq<char>,
}

impl DeepView for Affinity {
    type V = AffinityView;

    open spec fn deep_view(&self) -> AffinityView {
        AffinityView {
            anti_affinity_topology_key: self.anti_affinity_topology_key@,
        }
    }
}

/// A topology spread constraint of a pod.
#[derive(Debug, PartialEq, Eq)]
pub struct TopologySpreadConstraint {
    pub max_skew: i32,
    pub topology_key: String,
    pub when_unsatisfiable: String,
}

/// What a [`TopologySpreadConstraint`] holds, over characters and sequences.
#[verifier::ext_equal]
pub struct TopologySpreadConstraintView {
    pub max_skew: i32,
    pub topology_key: Seq<char>,
    pub when_unsatisfiable: Seq<char>,
}

impl DeepView for TopologySpreadConstraint {
    type V = TopologySpreadConstraintView;

    open spec fn deep_view(&self) -> TopologySpreadConstraintView {
        TopologySpreadConstraintView {
            max_skew: self.max_skew,
            topology_key: self.topology_key@,
            when_unsatisfiable: self.when_unsatisfiable@,
        }
    }
}

/// Security context of a pod.
#[derive(Debug, PartialEq, Eq)]
pub struct PodSecurityContext {
    pub fs_group: Option<i64>,
    pub run_as_non_root: Option<bool>,
}

/// What a [`PodSecurityContext`] holds, over characters and sequences.
#[verifier::ext_equal]
pub struct PodSecurityContextView {
    pub fs_group: Option<i64>,
    pub run_as_non_root: Option<bool>,
}

impl DeepView for PodSecurityContext {
    type V = PodSecurityContextView;

    open spec fn deep_view(&self) -> PodSecurityContextView {
        PodSecurityContextView {
            fs_group: self.fs_group,
            run_as_non_root: self.run_as_non_root,
        }
    }
}

/// A container of a pod.
#[derive(Debug, PartialEq, Eq)]
pub struct Container {
    pub name: String,
    pub image: Option<String>,
    pub image_pull_policy: Option<String>,
    pub ports: Option<Vec<ContainerPort>>,
    pub env: Option<Vec<ContainerEnvVar>>,
    pub resources: Option<ContainerResources>,
    pub volume_mounts: Option<Vec<VolumeMount>>,
    pub liveness_probe: Option<Probe>,
    pub readiness_probe: Option<Probe>,
    pub startup_probe: Option<Probe>,
}

/// What a [`Container`] holds, over characters and sequences.
#[verifier::ext_equal]
pub struct ContainerView {
    pub name: Seq<char>,
    pub image: Option<Seq<char>>,
    pub image_pull_policy: Option<Seq<char>>,
    pub ports: Option<Seq<ContainerPortView>>,
    pub env: Option<Seq<ContainerEnvVarView>>,
    pub resources: Option<ContainerResourcesView>,
    pub volume_mounts: Option<Seq<VolumeMountView>>,
    pub liveness_probe: Option<ProbeView>,
    pub readiness_probe: Option<ProbeView>,
    pub startup_probe: Option<ProbeView>,
}

impl DeepView for Container {
    type V = ContainerView;

    open spec fn deep_view(&self) -> ContainerView {
        ContainerView {
            name: self.name@,
            image: self.image.deep_view(),
            image_pull_policy: self.image_pull_policy.deep_view(),
            ports: self.ports.deep_view(),
            env: self.env.deep_view(),
            resources: self.resources.deep_view(),
            volume_mounts: self.volume_mounts.deep_view(),
            liveness_probe: self.liveness_probe.deep_view(),
            readiness_probe: self.readiness_probe.deep_view(),
            startup_probe: self.startup_probe.deep_view(),
        }
    }
}

/// A port of a container.
#[derive(Debug, PartialEq, Eq)]
pub struct ContainerPort {
    pub name: Option<String>,
    pub container_port: i32,
}

/// What a [`ContainerPort`] holds, over characters and sequences.
#[verifier::ext_equal]
pub struct ContainerPortView {
    pub name: Option<Seq<char>>,
    pub container_port: i32,
}

impl DeepView for ContainerPort {
    type V = ContainerPortView;

    open spec fn deep_view(&self) -> ContainerPortView {
        ContainerPortView {
            name: self.name.deep_view(),
            container_port: self.container_port,
        }
    }
}

/// An environment variable of a container.
#[derive(Debug, PartialEq, Eq)]
pub struct ContainerEnvVar {
    pub name: String,
    pub value: Option<String>,
    pub value_from: Option<ContainerEnvVarSource>,
}

/// What a [`ContainerEnvVar`] holds, over characters and sequences.
#[verifier::ext_equal]
pub struct ContainerEnvVarView {
    pub name: Seq<char>,
    pub value: Option<Seq<char>>,
    pub value_from: Option<ContainerEnvVarSourceView>,
}

impl DeepView for ContainerEnvVar {
    type V = ContainerEnvVarView;

    open spec fn deep_view(&self) -> ContainerEnvVarView {
        ContainerEnvVarView {
            name: self.name@,
            value: self.value.deep_view(),
            value_from: self.value_from.deep_view(),
        }
    }
}

/// Where the value of an environment variable comes from.
#[derive(Debug, PartialEq, Eq)]
pub struct ContainerEnvVarSource {
    pub field_ref: Option<ObjectFieldSelector>,
    pub secret_key_ref: Option<KeySelector>,
    pub config_map_key_ref: Option<KeySelector>,
}

/// What a [`ContainerEnvVarSource`] holds, over characters and sequences.
#[verifier::ext_equal]
pub struct ContainerEnvVarSourceView {
    pub field_ref: Option<ObjectFieldSelectorView>,
    pub secret_key_ref: Option<KeySelectorView>,
    pub config_map_key_ref: Option<KeySelectorView>,
}

impl DeepView for ContainerEnvVarSource {
    type V = ContainerEnvVarSourceView;

    open spec fn deep_view(&self) -> ContainerEnvVarSourceView {
        ContainerEnvVarSourceView {
            field_ref: self.field_ref.deep_view(),
            secret_key_ref: self.secret_key_ref.deep_view(),
            config_map_key_ref: self.config_map_key_ref.deep_view(),
        }
    }
}

/// A field of the pod itself.
#[derive(Debug, PartialEq, Eq)]
pub struct ObjectFieldSelector {
    pub field_path: String,
}

/// What a [`ObjectFieldSelector`] holds, over characters and sequences.
#[verifier::ext_equal]
pub struct ObjectFieldSelectorView {
    pub field_path: Seq<char>,
}

impl DeepView for ObjectFieldSelector {
    type V = ObjectFieldSelectorView;

    open spec fn deep_view(&self) -> ObjectFieldSelectorView {
        ObjectFieldSelectorView {
            field_path: self.field_path@,
        }
    }
}

/// A key of a Secret or a ConfigMap.
#[derive(Debug, PartialEq, Eq)]
pub struct KeySelector {
    pub name: String,
    pub key: String,
    pub optional: Option<bool>,
}

/// What a [`KeySelector`] holds, over characters and sequences.
#[verifier::ext_equal]
pub struct KeySelectorView {
    pub name: Seq<char>,
    pub key: Seq<char>,
    pub optional: Option<bool>,
}

impl DeepView for KeySelector {
    type V = KeySelectorView;

    open spec fn deep_view(&self) -> KeySelectorView {
        KeySelectorView {
            name: self.name@,
            key: self.key@,
            optional: self.optional,
        }
    }
}

/// Resource quantities of a container.
#[derive(Debug, PartialEq, Eq)]
pub struct ContainerResources {
    pub limits: Option<Vec<KeyValue>>,
    pub requests: Option<Vec<KeyValue>>,
}

/// What a [`ContainerResources`] holds, over characters and sequences.
#[verifier::ext_equal]
pub struct ContainerResourcesView {
    pub limits: Option<Seq<KeyValueView>>,
    pub requests: Option<Seq<KeyValueView>>,
}

impl DeepView for ContainerResources {
    type V = ContainerResourcesView;

    open spec fn deep_view(&self) -> ContainerResourcesView {
        ContainerResourcesView {
            limits: self.limits.deep_view(),
            requests: self.requests.deep_view(),
        }
    }
}

/// Where a volume is mounted in a container.
#[derive(Debug, PartialEq, Eq)]
pub struct VolumeMount {
    pub name: String,
    pub mount_path: String,
    pub read_only: Option<bool>,
}

/// What a [`VolumeMount`] holds, over characters and sequences.
#[verifier::ext_equal]
pub struct VolumeMountView {
    pub name: Seq<char>,
    pub mount_path: Seq<char>,
    pub read_only: Option<bool>,
}

impl DeepView for VolumeMount {
    type V = VolumeMountView;

    open spec fn deep_view(&self) -> VolumeMountView {
        VolumeMountView {
            name: self.name@,
            mount_path: self.mount_path@,
            read_only: self.read_only,
        }
    }
}

/// A probe of a container.
#[derive(Debug, PartialEq, Eq)]
pub struct Probe {
    pub http_get: Option<HttpGetAction>,
    pub initial_delay_seconds: Option<i32>,
    pub period_seconds: Option<i32>,
    pub timeout_seconds: Option<i32>,
    pub failure_threshold: Option<i32>,
}

/// What a [`Probe`] holds, over characters and sequences.
#[verifier::ext_equal]
pub struct ProbeView {
    pub http_get: Option<HttpGetActionView>,
    pub initial_delay_seconds: Option<i32>,
    pub period_seconds: Option<i32>,
    pub timeout_seconds: Option<i32>,
    pub failure_threshold: Option<i32>,
}

impl DeepView for Probe {
    type V = ProbeView;

    open spec fn deep_view(&self) -> ProbeView {
        ProbeView {
            http_get: self.http_get.deep_view(),
            initial_delay_seconds: self.initial_delay_seconds,
            period_seconds: self.period_seconds,
            timeout_seconds: self.timeout_seconds,
            failure_threshold: self.failure_threshold,
        }
    }
}

/// The HTTP request that a probe makes.
#[derive(Debug, PartialEq, Eq)]
pub struct HttpGetAction {
    pub path: Option<String>,
    pub port: i32,
}

/// What a [`HttpGetAction`] holds, over characters and sequences.
#[verifier::ext_equal]
pub struct HttpGetActionView {
    pub path: Option<Seq<char>>,
    pub port: i32,
}

impl DeepView for HttpGetAction {
    type V = HttpGetActionView;

    open spec fn deep_view(&self) -> HttpGetActionView {
        HttpGetActionView {
            path: self.path.deep_view(),
            port: self.port,
        }
    }
}

/// A volume of a pod.
#[derive(Debug, PartialEq, Eq)]
pub struct Volume {
    pub name: String,
    pub config_map: Option<ConfigMapVolumeSource>,
    pub secret: Option<SecretVolumeSource>,
}

/// What a [`Volume`] holds, over characters and sequences.
#[verifier::ext_equal]
pub struct VolumeView {
    pub name: Seq<char>,
    pub config_map: Option<ConfigMapVolumeSourceView>,
    pub secret: Option<SecretVolumeSourceView>,
}

impl DeepView for Volume {
    type V = VolumeView;

    open spec fn deep_view(&self) -> VolumeView {
        VolumeView {
            name: self.name@,
            config_map: self.config_map.deep_view(),
            secret: self.secret.deep_view(),
        }
    }
}

/// A volume that holds a ConfigMap.
#[derive(Debug, PartialEq, Eq)]
pub struct ConfigMapVolumeSource {
    pub name: String,
}

/// What a [`ConfigMapVolumeSource`] holds, over characters and sequences.
#[verifier::ext_equal]
pub struct ConfigMapVolumeSourceView {
    pub name: Seq<char>,
}

impl DeepView for ConfigMapVolumeSource {
    type V = ConfigMapVolumeSourceView;

    open spec fn deep_view(&self) -> ConfigMapVolumeSourceView {
        ConfigMapVolumeSourceView {
            name: self.name@,
        }
    }
}

/// A volume that holds a Secret.
#[derive(Debug, PartialEq, Eq)]
pub struct SecretVolumeSource {
    pub secret_name: Option<String>,
    pub default_mode: Option<i32>,
}

/// What a [`SecretVolumeSource`] holds, over characters and sequences.
#[verifier::ext_equal]
pub struct SecretVolumeSourceView {
    pub secret_name: Option<Seq<char>>,
    pub default_mode: Option<i32>,
}

impl DeepView for SecretVolumeSource {
    type V = SecretVolumeSourceView;

    open spec fn deep_view(&self) -> SecretVolumeSourceView {
        SecretVolumeSourceView {
            secret_name: self.secret_name.deep_view(),
            default_mode: self.default_mode,
        }
    }
}

/// A claim for a persistent volume.
#[derive(Debug, PartialEq, Eq)]
pub struct PersistentVolumeClaim {
    pub metadata: ObjectMeta,
    pub spec: Option<PersistentVolumeClaimSpec>,
}

/// What a [`PersistentVolumeClaim`] holds, over characters and sequences.
#[verifier::ext_equal]
pub struct PersistentVolumeClaimView {
    pub metadata: ObjectMetaView,
    pub spec: Option<PersistentVolumeClaimSpecView>,
}

impl DeepView for PersistentVolumeClaim {
    type V = PersistentVolumeClaimView;

    open spec fn deep_view(&self) -> PersistentVolumeClaimView {
        PersistentVolumeClaimView {
            metadata: self.metadata.deep_view(),
            spec: self.spec.deep_view(),
        }
    }
}

/// Specification of a claim for a persistent volume.
#[derive(Debug, PartialEq, Eq)]
pub struct PersistentVolumeClaimSpec {
    pub access_modes: Option<Vec<String>>,
    pub storage_class_name: Option<String>,
    pub resources: Option<ContainerResources>,
}

/// What a [`PersistentVolumeClaimSpec`] holds, over characters and sequences.
#[verifier::ext_equal]
pub struct PersistentVolumeClaimSpecView {
    pub access_modes: Option<Seq<Seq<char>>>,
    pub storage_class_name: Option<Seq<char>>,
    pub resources: Option<ContainerResourcesView>,
}

impl DeepView for PersistentVolumeClaimSpec {
    type V = PersistentVolumeClaimSpecView;

    open spec fn deep_view(&self) -> PersistentVolumeClaimSpecView {
        PersistentVolumeClaimSpecView {
            access_modes: self.access_modes.deep_view(),
            storage_class_name: self.storage_class_name.deep_view(),
            resources: self.resources.deep_view(),
        }
    }
}

/// A HorizontalPodAutoscaler.
#[derive(Debug, PartialEq, Eq)]
pub struct HorizontalPodAutoscaler {
    pub metadata: ObjectMeta,
    pub spec: Option<HorizontalPodAutoscalerSpec>,
}

/// What a [`HorizontalPodAutoscaler`] holds, over characters and sequences.
#[verifier::ext_equal]
pub struct HorizontalPodAutoscalerView {
    pub metadata: ObjectMetaView,
    pub spec: Option<HorizontalPodAutoscalerSpecView>,
}

impl DeepView for HorizontalPodAutoscaler {
    type V = HorizontalPodAutoscalerView;

    open spec fn deep_view(&self) -> HorizontalPodAutoscalerView {
        HorizontalPodAutoscalerView {
            metadata: self.metadata.deep_view(),
            spec: self.spec.deep_view(),
        }
    }
}

/// Specification of a HorizontalPodAutoscaler.
#[derive(Debug, PartialEq, Eq)]
pub struct HorizontalPodAutoscalerSpec {
    pub scale_target_ref: CrossVersionObjectReference,
    pub min_replicas: Option<i32>,
    pub max_replicas: i32,
    pub metrics: Option<Vec<MetricSpec>>,
    pub behavior: Option<HorizontalPodAutoscalerBehavior>,
}

/// What a [`HorizontalPodAutoscalerSpec`] holds, over characters and sequences.
#[verifier::ext_equal]
pub struct HorizontalPodAutoscalerSpecView {
    pub scale_target_ref: CrossVersionObjectReferenceView,
    pub min_replicas: Option<i32>,
    pub max_replicas: i32,
    pub metrics: Option<Seq<MetricSpecView>>,
    pub behavior: Option<HorizontalPodAutoscalerBehaviorView>,
}

impl DeepView for HorizontalPodAutoscalerSpec {
    type V = HorizontalPodAutoscalerSpecView;

    open spec fn deep_view(&self) -> HorizontalPodAutoscalerSpecView {
        HorizontalPodAutoscalerSpecView {
            scale_target_ref: self.scale_target_ref.deep_view(),
            min_replicas: self.min_replicas,
            max_replicas: self.max_replicas,
            metrics: self.metrics.deep_view(),
            behavior: self.behavior.deep_view(),
        }
    }
}

/// The object that an autoscaler scales.
#[derive(Debug, PartialEq, Eq)]
pub struct CrossVersionObjectReference {
    pub api_version: Option<String>,
    pub kind: String,
    pub name: String,
}

/// What a [`CrossVersionObjectReference`] holds, over characters and sequences.
#[verifier::ext_equal]
pub struct CrossVersionObjectReferenceView {
    pub api_version: Option<Seq<char>>,
    pub kind: Seq<char>,
    pub name: Seq<char>,
}

impl DeepView for CrossVersionObjectReference {
    type V = CrossVersionObjectReferenceView;

    open spec fn deep_view(&self) -> CrossVersionObjectReferenceView {
        CrossVersionObjectReferenceView {
            api_version: self.api_version.deep_view(),
            kind: self.kind@,
            name: self.name@,
        }
    }
}

/// A metric of an autoscaler.
#[derive(Debug, PartialEq, Eq)]
pub struct MetricSpec {
    pub type_: String,
    pub resource: Option<MetricSource>,
    pub pods: Option<MetricSource>,
    pub external: Option<MetricSource>,
}

/// What a [`MetricSpec`] holds, over characters and sequences.
#[verifier::ext_equal]
pub struct MetricSpecView {
    pub type_: Seq<char>,
    pub resource: Option<MetricSourceView>,
    pub pods: Option<MetricSourceView>,
    pub external: Option<MetricSourceView>,
}

impl DeepView for MetricSpec {
    type V = MetricSpecView;

    open spec fn deep_view(&self) -> MetricSpecView {
        MetricSpecView {
            type_: self.type_@,
            resource: self.resource.deep_view(),
            pods: self.pods.deep_view(),
            external: self.external.deep_view(),
        }
    }
}

/// The name and the target of a metric.
#[derive(Debug, PartialEq, Eq)]
pub struct MetricSource {
    pub name: String,
    pub target: MetricTarget,
}

/// What a [`MetricSource`] holds, over characters and sequences.
#[verifier::ext_equal]
pub struct MetricSourceView {
    pub name: Seq<char>,
    pub target: MetricTargetView,
}

impl DeepView for MetricSource {
    type V = MetricSourceView;

    open spec fn deep_view(&self) -> MetricSourceView {
        MetricSourceView {
            name: self.name@,
            target: self.target.deep_view(),
        }
    }
}

/// The target of a metric.
#[derive(Debug, PartialEq, Eq)]
pub struct MetricTarget {
    pub type_: String,
    pub value: Option<String>,
    pub average_value: Option<String>,
    pub average_utilization: Option<i32>,
}

/// What a [`MetricTarget`] holds, over characters and sequences.
#[verifier::ext_equal]
pub struct MetricTargetView {
    pub type_: Seq<char>,
    pub value: Option<Seq<char>>,
    pub average_value: Option<Seq<char>>,
    pub average_utilization: Option<i32>,
}

impl DeepView for MetricTarget {
    type V = MetricTargetView;

    open spec fn deep_view(&self) -> MetricTargetView {
        MetricTargetView {
            type_: self.type_@,
            value: self.value.deep_view(),
            average_value: self.average_value.deep_view(),
            average_utilization: self.average_utilization,
        }
    }
}

/// How fast an autoscaler scales.
#[derive(Debug, PartialEq, Eq)]
pub struct HorizontalPodAutoscalerBehavior {
    pub scale_up: Option<HpaScalingRules>,
    pub scale_down: Option<HpaScalingRules>,
}

/// What a [`HorizontalPodAutoscalerBehavior`] holds, over characters and sequences.
#[verifier::ext_equal]
pub struct HorizontalPodAutoscalerBehaviorView {
    pub scale_up: Option<HpaScalingRulesView>,
    pub scale_down: Option<HpaScalingRulesView>,
}

impl DeepView for HorizontalPodAutoscalerBehavior {
    type V = HorizontalPodAutoscalerBehaviorView;

    open spec fn deep_view(&self) -> HorizontalPodAutoscalerBehaviorView {
        HorizontalPodAutoscalerBehaviorView {
            scale_up: self.scale_up.deep_view(),
            scale_down: self.scale_down.deep_view(),
        }
    }
}

/// How fast an autoscaler scales in one direction.
#[derive(Debug, PartialEq, Eq)]
pub struct HpaScalingRules {
    pub stabilization_window_seconds: Option<i32>,
    pub select_policy: Option<String>,
    pub policies: Option<Vec<HpaScalingPolicy>>,
}

/// What a [`HpaScalingRules`] holds, over characters and sequences.
#[verifier::ext_equal]
pub struct HpaScalingRulesView {
    pub stabilization_window_seconds: Option<i32>,
    pub select_policy: Option<Seq<char>>,
    pub policies: Option<Seq<HpaScalingPolicyView>>,
}

impl DeepView for HpaScalingRules {
    type V = HpaScalingRulesView;

    open spec fn deep_view(&self) -> HpaScalingRulesView {
        HpaScalingRulesView {
            stabilization_window_seconds: self.stabilization_window_seconds,
            select_policy: self.select_policy.deep_view(),
            policies: self.policies.deep_view(),
        }
    }
}

/// One scaling policy of an autoscaler.
#[derive(Debug, PartialEq, Eq)]
pub struct HpaScalingPolicy {
    pub type_: String,
    pub value: i32,
    pub period_seconds: i32,
}

/// What a [`HpaScalingPolicy`] holds, over characters and sequences.
#[verifier::ext_equal]
pub struct HpaScalingPolicyView {
    pub type_: Seq<char>,
    pub value: i32,
    pub period_seconds: i32,
}

impl DeepView for HpaScalingPolicy {
    type V = HpaScalingPolicyView;

    open spec fn deep_view(&self) -> HpaScalingPolicyView {
        HpaScalingPolicyView {
            type_: self.type_@,
            value: self.value,
            period_seconds: self.period_seconds,
        }
    }
}

} // verus!
