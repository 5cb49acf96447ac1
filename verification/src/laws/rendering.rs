//! Laws of rendering clusters: the ConfigMap, the Services and the StatefulSet.

use crate::controllers::cluster;
use crate::controllers::cluster::render_config;
use crate::controllers::{AutoScalingConfig, ClusterController};
use crate::crd::cluster::{EnvVar, EnvVarRef, EnvVarView, ResourceRequirements};
use crate::crd::{ClusterSpec, ClusterStorage, StreamlineCluster};
use crate::manifests::{
    ConfigMap, ContainerEnvVar, ContainerEnvVarSource, ContainerEnvVarView, ContainerPortView,
    ContainerResources,
    OwnerReference, PersistentVolumeClaim, ProbeView, Service, ServicePortView, StatefulSet, Volume,
    VolumeMount, VolumeView,
};
use crate::objects::{KeyValue, KeyValueView};
use crate::text;
use crate::upgrade;
use vstd::prelude::*;

verus! {

// ---------------------------------------------------------------------------
// Resources and storage
// ---------------------------------------------------------------------------

/// Whether a string map gives `value` for `key`, or has no entry for it where there is none.
pub open spec fn gives(
    entries: Option<Seq<KeyValueView>>,
    key: Seq<char>,
    value: Option<Seq<char>>,
) -> bool {
    match value {
        Some(value) => {
            &&& entries is Some
            &&& exists|i: int|
                0 <= i < entries->0.len() && (#[trigger] entries->0[i]).key == key
                    && entries->0[i].value == value
            &&& forall|i: int|
                0 <= i < entries->0.len() && (#[trigger] entries->0[i]).key == key
                    ==> entries->0[i].value == value
        },
        None => entries is Some ==> forall|i: int|
            0 <= i < entries->0.len() ==> (#[trigger] entries->0[i]).key != key,
    }
}

/// A map gives the value of an entry whose key no other entry has.
pub proof fn lemma_gives(entries: Seq<KeyValueView>, i: int)
    requires
        0 <= i < entries.len(),
        forall|j: int|
            0 <= j < entries.len() && j != i ==> (#[trigger] entries[j]).key != entries[i].key,
    ensures
        gives(Some(entries), entries[i].key, Some(entries[i].value)),
{
    let map = Some(entries);
    assert(map->0[i].key == entries[i].key);
}

/// Whether the keys of a string map are among two.
pub open spec fn only_keys(
    entries: Option<Seq<KeyValueView>>,
    one: Seq<char>,
    other: Seq<char>,
) -> bool {
    entries is Some ==> forall|i: int|
        0 <= i < entries->0.len() ==> (#[trigger] entries->0[i]).key == one || entries->0[i].key
            == other
}

/// The limits of the rendered container are the limits of the spec, and its requests are the
/// requests of the spec: for each of cpu and memory the quantity that is set, and no entry where
/// none is set. Nothing else is requested or limited.
pub proof fn law_quantities_are_rendered_as_they_are_set(
    spec: ResourceRequirements,
    built: ContainerResources,
)
    requires
        call_ensures(ClusterController::build_resource_requirements, (&spec,), built),
    ensures
        gives(built.deep_view().limits, "cpu"@, spec.limits.cpu.deep_view()),
        gives(built.deep_view().limits, "memory"@, spec.limits.memory.deep_view()),
        gives(built.deep_view().requests, "cpu"@, spec.requests.cpu.deep_view()),
        gives(built.deep_view().requests, "memory"@, spec.requests.memory.deep_view()),
        only_keys(built.deep_view().limits, "cpu"@, "memory"@),
        only_keys(built.deep_view().requests, "cpu"@, "memory"@),
{
    reveal_strlit("cpu");
    reveal_strlit("memory");
    assert("cpu"@.len() == 3 && "memory"@.len() == 6);
    let view = built.deep_view();
    if spec.limits.cpu is Some {
        assert(view.limits->0[0].key == "cpu"@);
    }
    if spec.limits.memory is Some {
        let i = view.limits->0.len() - 1;
        assert(view.limits->0[i].key == "memory"@);
    }
    if spec.requests.cpu is Some {
        assert(view.requests->0[0].key == "cpu"@);
    }
    if spec.requests.memory is Some {
        let i = view.requests->0.len() - 1;
        assert(view.requests->0[i].key == "memory"@);
    }
}

/// Each broker claims one volume, named `data`, of the size, class and access modes of the spec.
pub proof fn law_the_storage_of_the_spec_is_claimed(
    storage: ClusterStorage,
    claims: Vec<PersistentVolumeClaim>,
)
    requires
        call_ensures(ClusterController::build_volume_claim_templates, (&storage,), claims),
    ensures
        claims@.len() == 1,
        ({
            let claim = claims@[0].deep_view();
            &&& claim.metadata.name == Some("data"@)
            &&& claim.spec is Some
            &&& claim.spec->0.storage_class_name == storage.storage_class_name.deep_view()
            &&& claim.spec->0.access_modes == Some(storage.access_modes.deep_view())
            &&& claim.spec->0.resources is Some
            &&& gives(claim.spec->0.resources->0.requests, "storage"@, Some(storage.size@))
            &&& claim.spec->0.resources->0.limits is None
        }),
{
    let view = claims.deep_view();
    assert(view.len() == claims@.len());
    assert(view[0] == claims@[0].deep_view());
    assert(view[0].spec->0.resources->0.requests->0[0].key == "storage"@);
}

// ---------------------------------------------------------------------------
// Labels, ownership
// ---------------------------------------------------------------------------

/// Everything rendered for a cluster is labelled as an instance of it, managed by this operator,
/// and its pods are selected by the labels that they carry.
pub proof fn law_labels_name_the_cluster(
    cluster: StreamlineCluster,
    labels: Vec<KeyValue>,
    selector: Vec<KeyValue>,
    listed: String,
)
    requires
        call_ensures(ClusterController::common_labels, (&cluster,), labels),
        call_ensures(ClusterController::pod_selector, (&cluster,), selector),
        call_ensures(ClusterController::list_selector, (&cluster,), listed),
    ensures
        gives(
            Some(labels.deep_view()),
            "app.kubernetes.io/instance"@,
            Some(cluster.metadata.name@),
        ),
        gives(
            Some(labels.deep_view()),
            "app.kubernetes.io/managed-by"@,
            Some("streamline-operator"@),
        ),
        gives(Some(labels.deep_view()), "app.kubernetes.io/name"@, Some("streamline"@)),
        labels@.len() == 3,
        gives(
            Some(selector.deep_view()),
            "app.kubernetes.io/instance"@,
            Some(cluster.metadata.name@),
        ),
        gives(Some(selector.deep_view()), "app.kubernetes.io/name"@, Some("streamline"@)),
        selector@.len() == 2,
        listed@ == "app.kubernetes.io/instance"@ + "="@ + cluster.metadata.name@,
{
    lemma_label_keys_differ();
    let all = labels.deep_view();
    let few = selector.deep_view();
    assert(all.len() == labels@.len());
    assert(few.len() == selector@.len());
    lemma_gives(all, 0);
    lemma_gives(all, 1);
    lemma_gives(all, 2);
    lemma_gives(few, 0);
    lemma_gives(few, 1);
    reveal_strlit("app.kubernetes.io/instance");
    reveal_strlit("app.kubernetes.io/instance=");
    reveal_strlit("=");
    assert("app.kubernetes.io/instance"@ + "="@ =~= "app.kubernetes.io/instance="@);
}

proof fn lemma_label_keys_differ()
    ensures
        "app.kubernetes.io/instance"@.len() == 26,
        "app.kubernetes.io/managed-by"@.len() == 28,
        "app.kubernetes.io/name"@.len() == 22,
        "app.kubernetes.io/component"@.len() == 27,
{
    reveal_strlit("app.kubernetes.io/instance");
    reveal_strlit("app.kubernetes.io/managed-by");
    reveal_strlit("app.kubernetes.io/name");
    reveal_strlit("app.kubernetes.io/component");
}

/// What is rendered for a cluster is owned and controlled by it: the API server collects it when
/// the cluster is deleted.
pub proof fn law_the_cluster_owns_what_is_rendered(
    cluster: StreamlineCluster,
    owner: OwnerReference,
)
    requires
        call_ensures(ClusterController::owner_reference, (&cluster,), owner),
    ensures
        owner.api_version@ == "streamline.io/v1alpha1"@,
        owner.kind@ == "StreamlineCluster"@,
        owner.name@ == cluster.metadata.name@,
        cluster.metadata.uid is Some ==> owner.uid@ == cluster.metadata.uid->0@,
        cluster.metadata.uid is None ==> owner.uid@.len() == 0,
        owner.controller == Some(true),
        owner.block_owner_deletion == Some(true),
{
    let view = owner.deep_view();
}

/// The objects rendered for a cluster stand in the given namespace, each under a name of its
/// own, carry the labels of the cluster and are owned by it.
pub proof fn law_rendered_objects_belong_to_the_cluster(
    cluster: StreamlineCluster,
    namespace: &str,
    config: ConfigMap,
    headless: Service,
    client: Service,
    set: StatefulSet,
    labels: Vec<KeyValue>,
    owner: OwnerReference,
)
    requires
        call_ensures(ClusterController::build_configmap, (&cluster, namespace), config),
        call_ensures(ClusterController::build_headless_service, (&cluster, namespace), headless),
        call_ensures(ClusterController::build_client_service, (&cluster, namespace), client),
        call_ensures(ClusterController::build_statefulset, (&cluster, namespace), set),
        call_ensures(ClusterController::common_labels, (&cluster,), labels),
        call_ensures(ClusterController::owner_reference, (&cluster,), owner),
    ensures
        config.deep_view().metadata.name == Some(cluster.metadata.name@ + "-config"@),
        headless.deep_view().metadata.name == Some(cluster.metadata.name@ + "-headless"@),
        client.deep_view().metadata.name == Some(cluster.metadata.name@),
        set.deep_view().metadata.name == Some(cluster.metadata.name@),
        config.deep_view().metadata.namespace == Some(namespace@),
        headless.deep_view().metadata.namespace == Some(namespace@),
        client.deep_view().metadata.namespace == Some(namespace@),
        set.deep_view().metadata.namespace == Some(namespace@),
        config.deep_view().metadata.labels == Some(labels.deep_view()),
        headless.deep_view().metadata.labels == Some(labels.deep_view()),
        client.deep_view().metadata.labels == Some(labels.deep_view()),
        set.deep_view().metadata.labels == Some(labels.deep_view()),
        config.deep_view().metadata.owner_references == Some(seq![owner.deep_view()]),
        headless.deep_view().metadata.owner_references == Some(seq![owner.deep_view()]),
        client.deep_view().metadata.owner_references == Some(seq![owner.deep_view()]),
        set.deep_view().metadata.owner_references == Some(seq![owner.deep_view()]),
{
}

// ---------------------------------------------------------------------------
// Services
// ---------------------------------------------------------------------------

/// Whether one of the ports has the given name and number.
pub open spec fn serves(ports: Seq<ServicePortView>, name: Seq<char>, port: i32) -> bool {
    exists|i: int|
        0 <= i < ports.len() && (#[trigger] ports[i]).name == Some(name) && ports[i].port == port
}

/// Both Services select the pods of the StatefulSet by the labels that the pods carry. The
/// headless one has no address of its own, lists pods that are not ready yet, and serves all
/// three ports; the one for clients has an address and serves clients and HTTP alone.
pub proof fn law_services_lead_to_the_brokers(
    cluster: StreamlineCluster,
    namespace: &str,
    headless: Service,
    client: Service,
    set: StatefulSet,
)
    requires
        call_ensures(ClusterController::build_headless_service, (&cluster, namespace), headless),
        call_ensures(ClusterController::build_client_service, (&cluster, namespace), client),
        call_ensures(ClusterController::build_statefulset, (&cluster, namespace), set),
    ensures
        ({
            let pods = set.deep_view().spec->0.template.metadata->0.labels;
            let bare = headless.deep_view().spec->0;
            let front = client.deep_view().spec->0;
            &&& set.deep_view().spec is Some && headless.deep_view().spec is Some
                && client.deep_view().spec is Some
            &&& pods is Some
            &&& set.deep_view().spec->0.selector.match_labels == pods
            &&& bare.selector == pods
            &&& front.selector == pods
            &&& bare.cluster_ip == Some("None"@)
            &&& bare.publish_not_ready_addresses == Some(true)
            &&& bare.ports is Some && bare.ports->0.len() == 3
            &&& serves(bare.ports->0, "kafka"@, cluster.spec.kafka_port)
            &&& serves(bare.ports->0, "http"@, cluster.spec.http_port)
            &&& serves(bare.ports->0, "raft"@, cluster.spec.raft_port)
            &&& front.cluster_ip is None
            &&& front.publish_not_ready_addresses is None
            &&& front.ports is Some && front.ports->0.len() == 2
            &&& serves(front.ports->0, "kafka"@, cluster.spec.kafka_port)
            &&& serves(front.ports->0, "http"@, cluster.spec.http_port)
        }),
{
    let bare = headless.deep_view().spec->0.ports->0;
    let front = client.deep_view().spec->0.ports->0;
    assert(bare[0].name == Some("kafka"@) && bare[1].name == Some("http"@) && bare[2].name == Some(
        "raft"@,
    ));
    assert(front[0].name == Some("kafka"@) && front[1].name == Some("http"@));
}

// ---------------------------------------------------------------------------
// StatefulSet
// ---------------------------------------------------------------------------

/// Whether one of the container ports has the given name and number.
pub open spec fn listens(ports: Seq<ContainerPortView>, name: Seq<char>, port: i32) -> bool {
    exists|i: int|
        0 <= i < ports.len() && (#[trigger] ports[i]).name == Some(name)
            && ports[i].container_port == port
}

/// Whether a probe asks for `path` at `port`.
pub open spec fn asks_for(probe: Option<ProbeView>, path: Seq<char>, port: i32) -> bool {
    probe is Some && probe->0.http_get is Some && probe->0.http_get->0.path == Some(path)
        && probe->0.http_get->0.port == port
}

/// Whether a probe starts after `delay` seconds, asks every `period` seconds, waits `timeout`
/// seconds for the answer, and gives up after `failures` failures.
pub open spec fn timed(
    probe: Option<ProbeView>,
    delay: i32,
    period: i32,
    timeout: i32,
    failures: i32,
) -> bool {
    probe is Some && probe->0.initial_delay_seconds == Some(delay) && probe->0.period_seconds
        == Some(period) && probe->0.timeout_seconds == Some(timeout) && probe->0.failure_threshold
        == Some(failures)
}

/// The StatefulSet runs the desired number of brokers, one container each: the image and the
/// pull policy of the spec, listening at its three ports, with the resources that the spec
/// asks for, probed over HTTP. Starting up is given more time than failing is afterwards.
pub proof fn law_the_brokers_run_as_specified(
    cluster: StreamlineCluster,
    namespace: &str,
    set: StatefulSet,
    resources: ContainerResources,
    claims: Vec<PersistentVolumeClaim>,
)
    requires
        call_ensures(ClusterController::build_statefulset, (&cluster, namespace), set),
        call_ensures(
            ClusterController::build_resource_requirements,
            (&cluster.spec.resources,),
            resources,
        ),
        call_ensures(
            ClusterController::build_volume_claim_templates,
            (&cluster.spec.storage,),
            claims,
        ),
    ensures
        ({
            let spec = set.deep_view().spec->0;
            let pod = spec.template.spec->0;
            let broker = pod.containers[0];
            let ports = broker.ports->0;
            &&& set.deep_view().spec is Some && spec.template.spec is Some
            &&& spec.replicas == Some(cluster.spec.replicas)
            &&& spec.pod_management_policy == Some("Parallel"@)
            &&& spec.volume_claim_templates == Some(claims.deep_view())
            &&& pod.service_account_name == cluster.spec.service_account_name.deep_view()
            &&& pod.security_context is Some
            &&& pod.security_context->0.run_as_non_root == Some(true)
            &&& pod.security_context->0.fs_group == Some(1000i64)
            &&& pod.containers.len() == 1
            &&& broker.name == "streamline"@
            &&& broker.image == Some(cluster.spec.image@)
            &&& broker.image_pull_policy == Some(cluster.spec.image_pull_policy@)
            &&& broker.ports is Some && ports.len() == 3
            &&& listens(ports, "kafka"@, cluster.spec.kafka_port)
            &&& listens(ports, "http"@, cluster.spec.http_port)
            &&& listens(ports, "raft"@, cluster.spec.raft_port)
            &&& broker.resources == Some(resources.deep_view())
            &&& asks_for(broker.liveness_probe, "/health"@, cluster.spec.http_port)
            &&& asks_for(broker.readiness_probe, "/health/ready"@, cluster.spec.http_port)
            &&& asks_for(broker.startup_probe, "/health"@, cluster.spec.http_port)
            &&& timed(broker.liveness_probe, 30, 10, 5, 3)
            &&& timed(broker.readiness_probe, 10, 5, 3, 3)
            &&& timed(broker.startup_probe, 5, 5, 3, 30)
        }),
{
    let ports = set.deep_view().spec->0.template.spec->0.containers[0].ports->0;
    assert(ports[0].name == Some("kafka"@) && ports[1].name == Some("http"@) && ports[2].name
        == Some("raft"@));
}

/// The broker pods are placed by the node selector of the spec, where it has one, and by nothing
/// else; they carry the labels by which the StatefulSet selects them.
pub proof fn law_the_brokers_are_placed_by_the_node_selector(
    cluster: StreamlineCluster,
    namespace: &str,
    set: StatefulSet,
    selector: Vec<KeyValue>,
)
    requires
        call_ensures(ClusterController::build_statefulset, (&cluster, namespace), set),
        call_ensures(ClusterController::pod_selector, (&cluster,), selector),
    ensures
        ({
            let spec = set.deep_view().spec->0;
            let pod = spec.template.spec->0;
            &&& cluster.spec.node_selector@.len() == 0 ==> pod.node_selector is None
            &&& cluster.spec.node_selector@.len() > 0 ==> pod.node_selector == Some(
                cluster.spec.node_selector.deep_view(),
            )
            &&& pod.affinity is None
            &&& pod.tolerations is None
            &&& pod.topology_spread_constraints is None
            &&& spec.selector.match_labels == Some(selector.deep_view())
            &&& spec.template.metadata is Some
            &&& spec.template.metadata->0.labels == Some(selector.deep_view())
        }),
{
    let view = cluster.deep_view();
    assert(view.spec.node_selector == cluster.spec.node_selector.deep_view());
    assert(view.spec.node_selector.len() == cluster.spec.node_selector@.len());
}

/// The StatefulSet waits for its pods to be deleted exactly where the spec says `OnDelete`, and
/// rolls otherwise, with as many brokers unavailable at a time as the spec allows.
pub proof fn law_the_rollout_follows_the_spec(
    cluster: StreamlineCluster,
    namespace: &str,
    set: StatefulSet,
)
    requires
        call_ensures(ClusterController::build_statefulset, (&cluster, namespace), set),
    ensures
        ({
            let strategy = set.deep_view().spec->0.update_strategy;
            let wanted = cluster.spec.update_strategy;
            &&& strategy is Some
            &&& wanted.type_@ == "OnDelete"@ ==> strategy->0.type_ == Some("OnDelete"@)
                && strategy->0.rolling_update is None
            &&& wanted.type_@ != "OnDelete"@ ==> {
                &&& strategy->0.type_ == Some("RollingUpdate"@)
                &&& wanted.max_unavailable is None <==> strategy->0.rolling_update is None
                &&& wanted.max_unavailable is Some ==> strategy->0.rolling_update->0.max_unavailable
                    == wanted.max_unavailable
            }
        }),
{
}

// ---------------------------------------------------------------------------
// Volumes
// ---------------------------------------------------------------------------

/// Whether the spec turns TLS on with a Secret that has a name.
pub open spec fn wants_keypair(cluster: StreamlineCluster) -> bool {
    cluster.spec.tls is Some && cluster.spec.tls->0.enabled && !text::is_blank(
        cluster.spec.tls->0.secret_name@,
    )
}

/// Whether the spec moreover asks for client certificates and names a CA.
pub open spec fn wants_ca(cluster: StreamlineCluster) -> bool {
    wants_keypair(cluster) && cluster.spec.tls->0.mtls_enabled
        && cluster.spec.tls->0.ca_secret_name is Some
}

/// Whether a volume holds a Secret, readable by its owner and its group.
pub open spec fn holds_secret(volume: VolumeView, secret: Seq<char>) -> bool {
    &&& volume.secret is Some
    &&& volume.secret->0.secret_name == Some(secret)
    &&& volume.secret->0.default_mode == Some(0o440i32)
    &&& volume.config_map is None
}

/// Volumes and mounts go together one by one, each mounted read-only: the rendered ConfigMap
/// first; the Secret of the keypair exactly where the spec turns TLS on with one; and the Secret
/// of the CA exactly where the spec moreover asks for client certificates and names one.
pub proof fn law_every_volume_is_mounted_in_its_place(
    cluster: StreamlineCluster,
    namespace: &str,
    config: ConfigMap,
    built: (Vec<Volume>, Vec<VolumeMount>),
)
    requires
        call_ensures(ClusterController::build_configmap, (&cluster, namespace), config),
        call_ensures(ClusterController::build_config_and_tls_volumes, (&cluster,), built),
    ensures
        ({
            let volumes = built.0.deep_view();
            let mounts = built.1.deep_view();
            &&& volumes.len() == mounts.len() && volumes.len() >= 1
            &&& forall|i: int|
                0 <= i < volumes.len() ==> (#[trigger] volumes[i]).name == mounts[i].name
                    && mounts[i].read_only == Some(true)
            &&& volumes[0].name == "config"@
            &&& volumes[0].config_map is Some
            &&& Some(volumes[0].config_map->0.name) == config.deep_view().metadata.name
            &&& volumes[0].secret is None
            &&& mounts[0].mount_path == "/etc/streamline"@
            &&& volumes.len() > 1 <==> wants_keypair(cluster)
            &&& wants_keypair(cluster) ==> {
                &&& volumes[1].name == "tls"@
                &&& holds_secret(volumes[1], cluster.spec.tls->0.secret_name@)
                &&& mounts[1].mount_path == "/etc/streamline-tls"@
            }
            &&& volumes.len() > 2 <==> wants_ca(cluster)
            &&& wants_ca(cluster) ==> {
                &&& volumes[2].name == "tls-ca"@
                &&& holds_secret(volumes[2], cluster.spec.tls->0.ca_secret_name->0@)
                &&& mounts[2].mount_path == "/etc/streamline-tls-ca"@
            }
            &&& volumes.len() <= 3
        }),
{
}

/// The broker pod carries the configuration and TLS volumes, and its container mounts them after
/// the data volume, which is the one that the broker claims and writes to.
pub proof fn law_the_broker_mounts_its_volumes(
    cluster: StreamlineCluster,
    namespace: &str,
    set: StatefulSet,
    built: (Vec<Volume>, Vec<VolumeMount>),
    claims: Vec<PersistentVolumeClaim>,
)
    requires
        call_ensures(ClusterController::build_statefulset, (&cluster, namespace), set),
        call_ensures(ClusterController::build_config_and_tls_volumes, (&cluster,), built),
        call_ensures(
            ClusterController::build_volume_claim_templates,
            (&cluster.spec.storage,),
            claims,
        ),
    ensures
        ({
            let pod = set.deep_view().spec->0.template.spec->0;
            let mounts = pod.containers[0].volume_mounts;
            &&& pod.volumes == Some(built.0.deep_view())
            &&& mounts is Some
            &&& mounts->0.len() == 1 + built.1@.len()
            &&& mounts->0.drop_first() == built.1.deep_view()
            &&& Some(mounts->0[0].name) == claims.deep_view()[0].metadata.name
            &&& mounts->0[0].mount_path == "/data"@
            &&& mounts->0[0].read_only is None
        }),
{
    let mounts = set.deep_view().spec->0.template.spec->0.containers[0].volume_mounts->0;
    assert(built.1.deep_view().len() == built.1@.len());
    assert(mounts.drop_first() =~= built.1.deep_view());
}

// ---------------------------------------------------------------------------
// Environment
// ---------------------------------------------------------------------------

/// Whether a variable is set to a literal value.
pub open spec fn sets(
    variables: Seq<ContainerEnvVarView>,
    name: Seq<char>,
    value: Seq<char>,
) -> bool {
    exists|i: int|
        0 <= i < variables.len() && (#[trigger] variables[i]).name == name && variables[i].value
            == Some(value) && variables[i].value_from is None
}

/// Whether a variable is taken from a field of the pod.
pub open spec fn takes_field(
    variables: Seq<ContainerEnvVarView>,
    name: Seq<char>,
    path: Seq<char>,
) -> bool {
    exists|i: int|
        0 <= i < variables.len() && (#[trigger] variables[i]).name == name
            && variables[i].value is None && variables[i].value_from is Some
            && variables[i].value_from->0.field_ref is Some
            && variables[i].value_from->0.field_ref->0.field_path == path
            && variables[i].value_from->0.secret_key_ref is None
            && variables[i].value_from->0.config_map_key_ref is None
}

/// Every broker is told where its configuration and its data are mounted, where to listen, how
/// much to log, and which pod it is. A spec without variables of its own sets nothing else.
pub proof fn law_the_broker_is_told_its_settings(
    cluster: StreamlineCluster,
    namespace: &str,
    variables: Vec<ContainerEnvVar>,
    config: ConfigMap,
    built: (Vec<Volume>, Vec<VolumeMount>),
    set: StatefulSet,
)
    requires
        call_ensures(ClusterController::build_env, (&cluster.spec,), variables),
        call_ensures(ClusterController::build_configmap, (&cluster, namespace), config),
        call_ensures(ClusterController::build_config_and_tls_volumes, (&cluster,), built),
        call_ensures(ClusterController::build_statefulset, (&cluster, namespace), set),
    ensures
        ({
            let all = variables.deep_view();
            let spec = cluster.spec;
            let broker = set.deep_view().spec->0.template.spec->0.containers[0];
            &&& broker.env == Some(all)
            &&& sets(
                all,
                "STREAMLINE_CONFIG"@,
                built.1.deep_view()[0].mount_path + "/"@ + config.deep_view().data->0[0].key,
            )
            &&& sets(all, "STREAMLINE_DATA_DIR"@, broker.volume_mounts->0[0].mount_path)
            &&& sets(
                all,
                "STREAMLINE_LISTEN_ADDR"@,
                "0.0.0.0:"@ + text::decimal(spec.kafka_port as int),
            )
            &&& sets(
                all,
                "STREAMLINE_HTTP_ADDR"@,
                "0.0.0.0:"@ + text::decimal(spec.http_port as int),
            )
            &&& sets(all, "STREAMLINE_LOG_LEVEL"@, spec.log_level@)
            &&& takes_field(all, "POD_NAME"@, "metadata.name"@)
            &&& takes_field(all, "POD_NAMESPACE"@, "metadata.namespace"@)
            &&& spec.env@.len() == 0 ==> all.len() == 7
        }),
{
    let all = variables.deep_view();
    let own = cluster.spec.env.deep_view();
    assert(own.len() == cluster.spec.env@.len());
    reveal_strlit("/etc/streamline/streamline.toml");
    reveal_strlit("/etc/streamline");
    reveal_strlit("/");
    reveal_strlit("streamline.toml");
    assert(cluster::CONFIG_FILE_PATH@ =~= "/etc/streamline"@ + "/"@ + "streamline.toml"@);
    assert(all[0].name == "STREAMLINE_CONFIG"@);
    assert(all[1].name == "STREAMLINE_DATA_DIR"@);
    assert(all[2].name == "STREAMLINE_LISTEN_ADDR"@);
    assert(all[3].name == "STREAMLINE_HTTP_ADDR"@);
    assert(all[4].name == "STREAMLINE_LOG_LEVEL"@);
    assert(all[5].name == "POD_NAME"@);
    assert(all[6].name == "POD_NAMESPACE"@);
}

/// The variable that an accepted entry of the spec amounts to: its literal, or a reference to
/// the key that it names.
pub open spec fn stands_for(variable: ContainerEnvVarView, entry: EnvVarView) -> bool {
    &&& variable.name == entry.name
    &&& variable.value == entry.value
    &&& variable.value_from is Some <==> entry.value_from is Some
    &&& variable.value_from is Some ==> {
        let rendered = variable.value_from->0;
        let source = entry.value_from->0;
        &&& rendered.field_ref is None
        &&& rendered.secret_key_ref is Some <==> source.secret_key_ref is Some
        &&& rendered.secret_key_ref is Some ==> rendered.secret_key_ref->0.name
            == source.secret_key_ref->0.name && rendered.secret_key_ref->0.key
            == source.secret_key_ref->0.key && rendered.secret_key_ref->0.optional is None
        &&& rendered.config_map_key_ref is Some <==> source.config_map_key_ref is Some
        &&& rendered.config_map_key_ref is Some ==> rendered.config_map_key_ref->0.name
            == source.config_map_key_ref->0.name && rendered.config_map_key_ref->0.key
            == source.config_map_key_ref->0.key && rendered.config_map_key_ref->0.optional is None
    }
}

/// Whether an entry of the spec says exactly one thing, of a variable that has a name: a literal
/// value, or one key of one named Secret or ConfigMap.
pub open spec fn says_one_thing(entry: EnvVarView) -> bool {
    &&& !text::is_blank(entry.name)
    &&& entry.value is Some <==> entry.value_from is None
    &&& entry.value_from is Some ==> {
        let source = entry.value_from->0;
        &&& source.secret_key_ref is Some <==> source.config_map_key_ref is None
        &&& source.secret_key_ref is Some ==> !text::is_blank(source.secret_key_ref->0.name)
            && !text::is_blank(source.secret_key_ref->0.key)
        &&& source.config_map_key_ref is Some ==> !text::is_blank(
            source.config_map_key_ref->0.name,
        ) && !text::is_blank(source.config_map_key_ref->0.key)
    }
}

/// One more entry in a spec adds the variable that it stands for, after all the others, if it
/// says exactly one thing, and nothing at all otherwise.
pub proof fn law_each_entry_adds_its_variable(
    spec: ClusterSpec,
    longer: ClusterSpec,
    entry: EnvVar,
    variables: Vec<ContainerEnvVar>,
    more: Vec<ContainerEnvVar>,
)
    requires
        call_ensures(ClusterController::build_env, (&spec,), variables),
        call_ensures(ClusterController::build_env, (&longer,), more),
        longer.env@ == spec.env@.push(entry),
        longer.kafka_port == spec.kafka_port,
        longer.http_port == spec.http_port,
        longer.log_level@ == spec.log_level@,
    ensures
        ({
            let before = variables.deep_view();
            let after = more.deep_view();
            if says_one_thing(entry.deep_view()) {
                &&& after.len() == before.len() + 1
                &&& after.drop_last() == before
                &&& stands_for(after.last(), entry.deep_view())
            } else {
                after == before
            }
        }),
{
    let few = spec.env.deep_view();
    let many = longer.env.deep_view();
    assert(many =~= few.push(entry.deep_view()));
    assert(many.drop_last() =~= few);
    let before = variables.deep_view();
    let after = more.deep_view();
    assert(after =~= before + cluster::rendered_entry(entry.deep_view()));
    if says_one_thing(entry.deep_view()) {
        assert(after.drop_last() =~= before);
    }
}

/// A reference is rendered as what it refers to, and as nothing else.
pub proof fn law_a_reference_is_rendered_as_its_kind(
    source: EnvVarRef<'_>,
    built: ContainerEnvVarSource,
)
    requires
        call_ensures(ClusterController::build_env_var_source, (source,), built),
    ensures
        ({
            let view = built.deep_view();
            &&& view.field_ref is None
            &&& source matches EnvVarRef::Secret(secret) ==> {
                &&& view.config_map_key_ref is None
                &&& view.secret_key_ref is Some
                &&& view.secret_key_ref->0.name == secret.name@
                &&& view.secret_key_ref->0.key == secret.key@
                &&& view.secret_key_ref->0.optional is None
            }
            &&& source matches EnvVarRef::ConfigMap(config_map) ==> {
                &&& view.secret_key_ref is None
                &&& view.config_map_key_ref is Some
                &&& view.config_map_key_ref->0.name == config_map.name@
                &&& view.config_map_key_ref->0.key == config_map.key@
                &&& view.config_map_key_ref->0.optional is None
            }
        }),
{
    let seen = source.deep_view();
}

// ---------------------------------------------------------------------------
// Configuration
// ---------------------------------------------------------------------------

/// The ConfigMap holds one file, and it is the configuration rendered for the cluster.
pub proof fn law_the_configmap_holds_the_configuration(
    cluster: StreamlineCluster,
    namespace: &str,
    config: ConfigMap,
    rendered: String,
)
    requires
        call_ensures(ClusterController::build_configmap, (&cluster, namespace), config),
        call_ensures(render_config, (&cluster,), rendered),
    ensures
        config.deep_view().data is Some,
        config.deep_view().data->0.len() == 1,
        config.deep_view().data->0[0].key == "streamline.toml"@,
        config.deep_view().data->0[0].value == rendered@,
{
}

/// The configuration tells the broker where to listen for clients and for HTTP, where its data
/// volume is mounted, and how much to log, and says which cluster it was rendered from.
pub proof fn law_the_configuration_holds_the_settings(
    cluster: StreamlineCluster,
    rendered: String,
)
    requires
        call_ensures(render_config, (&cluster,), rendered),
    ensures
        text::occurs(rendered@, "# Rendered from StreamlineCluster/"@ + cluster.metadata.name@),
        text::occurs(
            rendered@,
            "listen_addr = \"0.0.0.0:"@ + text::decimal(cluster.spec.kafka_port as int) + "\"\n"@,
        ),
        text::occurs(
            rendered@,
            "http_addr = \"0.0.0.0:"@ + text::decimal(cluster.spec.http_port as int) + "\"\n"@,
        ),
        text::occurs(rendered@, "data_dir = \"/data\"\n"@),
        text::occurs(rendered@, "log_level = \""@ + cluster.spec.log_level@ + "\"\n"@),
{
    let spec = cluster.deep_view().spec;
    let kafka = text::decimal(spec.kafka_port as int);
    let http = text::decimal(spec.http_port as int);
    let end = "\"\n"@;
    let a = "[server]\n"@ + "listen_addr = \"0.0.0.0:"@ + kafka + end;
    let b = a + "http_addr = \"0.0.0.0:"@ + http + end;
    let c = b + "data_dir = \"/data\"\n"@;
    let listen = "listen_addr = \"0.0.0.0:"@ + kafka + end;
    let serve = "http_addr = \"0.0.0.0:"@ + http + end;
    let level = "log_level = \""@ + spec.log_level + end;
    text::lemma_row_occurs("[server]\n"@, "listen_addr = \"0.0.0.0:"@, kafka, end);
    text::lemma_row_occurs(a, "http_addr = \"0.0.0.0:"@, http, end);
    text::lemma_end_occurs(b, "data_dir = \"/data\"\n"@);
    text::lemma_row_occurs(c, "log_level = \""@, spec.log_level, end);
    lemma_occurs_in_three_more(a, listen, "http_addr = \"0.0.0.0:"@, http, end);
    text::lemma_occurs_in_longer(b, listen, "data_dir = \"/data\"\n"@);
    lemma_occurs_in_three_more(c, listen, "log_level = \""@, spec.log_level, end);
    text::lemma_occurs_in_longer(b, serve, "data_dir = \"/data\"\n"@);
    lemma_occurs_in_three_more(c, serve, "log_level = \""@, spec.log_level, end);
    lemma_occurs_in_three_more(
        c,
        "data_dir = \"/data\"\n"@,
        "log_level = \""@,
        spec.log_level,
        end,
    );
    let top = "# Managed by streamline-operator. Do not edit.\n"@;
    let from = "# Rendered from StreamlineCluster/"@ + cluster.metadata.name@;
    let head = top + "# Rendered from StreamlineCluster/"@ + cluster.metadata.name@;
    let server = cluster::server_config(spec);
    let tls = cluster::tls_config(spec.tls);
    assert(head =~= top + from);
    text::lemma_end_occurs(top, from);
    lemma_occurs_in_three_more(head, from, "\n\n"@, server, tls);
    lemma_occurs_in_server(head + "\n\n"@, server, tls, listen);
    lemma_occurs_in_server(head + "\n\n"@, server, tls, serve);
    lemma_occurs_in_server(head + "\n\n"@, server, tls, "data_dir = \"/data\"\n"@);
    lemma_occurs_in_server(head + "\n\n"@, server, tls, level);
}

proof fn lemma_occurs_in_three_more(
    hay: Seq<char>,
    needle: Seq<char>,
    a: Seq<char>,
    b: Seq<char>,
    c: Seq<char>,
)
    requires
        text::occurs(hay, needle),
    ensures
        text::occurs(hay + a + b + c, needle),
{
    text::lemma_occurs_in_longer(hay, needle, a);
    text::lemma_occurs_in_longer(hay + a, needle, b);
    text::lemma_occurs_in_longer(hay + a + b, needle, c);
}

proof fn lemma_occurs_in_server(
    head: Seq<char>,
    server: Seq<char>,
    tls: Seq<char>,
    needle: Seq<char>,
)
    requires
        text::occurs(server, needle),
    ensures
        text::occurs(head + server + tls, needle),
{
    text::lemma_occurs_in_end(head, server, needle);
    text::lemma_occurs_in_longer(head + server, needle, tls);
}

/// Without TLS the configuration holds the settings of the server behind two comment lines, and
/// nothing else.
pub proof fn law_the_plain_configuration_holds_nothing_else(
    cluster: StreamlineCluster,
    rendered: String,
)
    requires
        call_ensures(render_config, (&cluster,), rendered),
        cluster.spec.tls is None || !cluster.spec.tls->0.enabled,
    ensures
        ({
            let server = "[server]\n"@ + "listen_addr = \"0.0.0.0:"@ + text::decimal(
                cluster.spec.kafka_port as int,
            ) + "\"\n"@ + "http_addr = \"0.0.0.0:"@ + text::decimal(cluster.spec.http_port as int)
                + "\"\n"@ + "data_dir = \"/data\"\n"@ + "log_level = \""@ + cluster.spec.log_level@
                + "\"\n"@;
            rendered@ == "# Managed by streamline-operator. Do not edit.\n"@
                + "# Rendered from StreamlineCluster/"@ + cluster.metadata.name@ + "\n\n"@ + server
        }),
{
    let view = cluster.deep_view();
    assert(view.spec.tls == cluster.spec.tls.deep_view());
    let front = "# Managed by streamline-operator. Do not edit.\n"@
        + "# Rendered from StreamlineCluster/"@ + cluster.metadata.name@ + "\n\n"@
        + cluster::server_config(view.spec);
    assert(rendered@ == front + Seq::<char>::empty());
    assert(front + Seq::<char>::empty() =~= front);
}

/// Turning TLS on adds a section to the configuration that enables it and names the mounted
/// keypair, and changes nothing else. Asking for client certificates adds two lines more: that
/// they are required, and the mounted CA. Plain TLS adds neither of the two.
pub proof fn law_tls_adds_its_section(
    plain: StreamlineCluster,
    secured: StreamlineCluster,
    without: String,
    rendered: String,
)
    requires
        call_ensures(render_config, (&plain,), without),
        call_ensures(render_config, (&secured,), rendered),
        plain.metadata.name@ == secured.metadata.name@,
        plain.spec.kafka_port == secured.spec.kafka_port,
        plain.spec.http_port == secured.spec.http_port,
        plain.spec.log_level@ == secured.spec.log_level@,
        plain.spec.tls is None || !plain.spec.tls->0.enabled,
    ensures
        ({
            let section = "\n[tls]\nenabled = true\n"@
                + "cert = \"/etc/streamline-tls/tls.crt\"\n"@
                + "key = \"/etc/streamline-tls/tls.key\"\n"@;
            let mutual = "require_client_cert = true\n"@
                + "ca_cert = \"/etc/streamline-tls-ca/ca.crt\"\n"@;
            match secured.spec.tls {
                Some(tls) => if tls.enabled && tls.mtls_enabled {
                    rendered@ == without@ + section + mutual
                } else if tls.enabled {
                    rendered@ == without@ + section
                } else {
                    rendered@ == without@
                },
                None => rendered@ == without@,
            }
        }),
{
    let section = "\n[tls]\nenabled = true\n"@ + "cert = \"/etc/streamline-tls/tls.crt\"\n"@
        + "key = \"/etc/streamline-tls/tls.key\"\n"@;
    let mutual = "require_client_cert = true\n"@ + "ca_cert = \"/etc/streamline-tls-ca/ca.crt\"\n"@;
    reveal_strlit("\n[tls]\nenabled = true\n");
    reveal_strlit("\n[tls]\n");
    reveal_strlit("enabled = true\n");
    reveal_strlit("cert = \"/etc/streamline-tls/tls.crt\"\n");
    reveal_strlit("cert = \"");
    reveal_strlit("/etc/streamline-tls");
    reveal_strlit("/tls.crt\"\n");
    reveal_strlit("key = \"/etc/streamline-tls/tls.key\"\n");
    reveal_strlit("key = \"");
    reveal_strlit("/tls.key\"\n");
    reveal_strlit("ca_cert = \"/etc/streamline-tls-ca/ca.crt\"\n");
    reveal_strlit("ca_cert = \"");
    reveal_strlit("/etc/streamline-tls-ca");
    reveal_strlit("/ca.crt\"\n");
    assert("\n[tls]\nenabled = true\n"@ =~= "\n[tls]\n"@ + "enabled = true\n"@);
    let cert = "cert = \""@ + cluster::TLS_MOUNT_PATH@ + "/tls.crt\"\n"@;
    let key = "key = \""@ + cluster::TLS_MOUNT_PATH@ + "/tls.key\"\n"@;
    let ca = "ca_cert = \""@ + cluster::TLS_CA_MOUNT_PATH@ + "/ca.crt\"\n"@;
    assert(cert =~= "cert = \"/etc/streamline-tls/tls.crt\"\n"@);
    assert(key =~= "key = \"/etc/streamline-tls/tls.key\"\n"@);
    assert(ca =~= "ca_cert = \"/etc/streamline-tls-ca/ca.crt\"\n"@);
    let tls = cluster::tls_config(secured.deep_view().spec.tls);
    let head = cluster::config_file(plain.deep_view());
    assert(head =~= without@);
    assert(rendered@ =~= without@ + tls);
    if secured.spec.tls is Some && secured.spec.tls->0.enabled {
        let opening = "\n[tls]\n"@ + "enabled = true\n"@;
        assert(opening + "cert = \""@ + cluster::TLS_MOUNT_PATH@ + "/tls.crt\"\n"@ =~= opening
            + cert);
        assert(section =~= opening + "cert = \""@ + cluster::TLS_MOUNT_PATH@ + "/tls.crt\"\n"@
            + "key = \""@ + cluster::TLS_MOUNT_PATH@ + "/tls.key\"\n"@);
        if secured.spec.tls->0.mtls_enabled {
            assert(tls =~= section + mutual);
            assert(without@ + (section + mutual) =~= without@ + section + mutual);
        }
    }
}

/// Whether a text holds no underscore, as no name of a Kubernetes object does.
pub open spec fn without_underscore(s: Seq<char>) -> bool {
    forall|i: int| 0 <= i < s.len() ==> #[trigger] s[i] != '_'
}

proof fn lemma_without_underscore(s: Seq<char>)
    requires
        without_underscore(s),
    ensures
        upgrade::apart(s, 't', '_'),
{
    assert forall|k: int| 0 <= k < s.len() implies #[trigger] upgrade::apart_at(s, 't', '_', k) by {
        assert(s[k] != '_');
    }
}

proof fn lemma_configuration_phrases()
    ensures
        upgrade::apart("# Managed by streamline-operator. Do not edit.\n"@, 't', '_'),
        upgrade::apart("# Rendered from StreamlineCluster/"@, 't', '_'),
        upgrade::apart("\n\n"@, 't', '_'),
        upgrade::apart("[server]\n"@, 't', '_'),
        upgrade::apart("listen_addr = \"0.0.0.0:"@, 't', '_'),
        upgrade::apart("\"\n"@, 't', '_'),
        upgrade::apart("http_addr = \"0.0.0.0:"@, 't', '_'),
        upgrade::apart("data_dir = \"/data\"\n"@, 't', '_'),
        upgrade::apart("log_level = \""@, 't', '_'),
        upgrade::apart("\n[tls]\n"@, 't', '_'),
        upgrade::apart("enabled = true\n"@, 't', '_'),
        upgrade::apart("cert = \""@, 't', '_'),
        upgrade::apart("/etc/streamline-tls"@, 't', '_'),
        upgrade::apart("/tls.crt\"\n"@, 't', '_'),
        upgrade::apart("key = \""@, 't', '_'),
        upgrade::apart("/tls.key\"\n"@, 't', '_'),
{
    reveal_strlit("# Managed by streamline-operator. Do not edit.\n");
    reveal_strlit("# Rendered from StreamlineCluster/");
    reveal_strlit("\n\n");
    reveal_strlit("[server]\n");
    reveal_strlit("listen_addr = \"0.0.0.0:");
    reveal_strlit("\"\n");
    reveal_strlit("http_addr = \"0.0.0.0:");
    reveal_strlit("data_dir = \"/data\"\n");
    reveal_strlit("log_level = \"");
    reveal_strlit("\n[tls]\n");
    reveal_strlit("enabled = true\n");
    reveal_strlit("cert = \"");
    reveal_strlit("/etc/streamline-tls");
    reveal_strlit("/tls.crt\"\n");
    reveal_strlit("key = \"");
    reveal_strlit("/tls.key\"\n");
    reveal_with_fuel(upgrade::apart_within, 31);
    upgrade::lemma_apart("# Managed by streamline-operator. Do not edit.\n"@, 't', '_');
    upgrade::lemma_apart("# Rendered from StreamlineCluster/"@, 't', '_');
    upgrade::lemma_apart("\n\n"@, 't', '_');
    upgrade::lemma_apart("[server]\n"@, 't', '_');
    upgrade::lemma_apart("listen_addr = \"0.0.0.0:"@, 't', '_');
    upgrade::lemma_apart("\"\n"@, 't', '_');
    upgrade::lemma_apart("http_addr = \"0.0.0.0:"@, 't', '_');
    upgrade::lemma_apart("data_dir = \"/data\"\n"@, 't', '_');
    upgrade::lemma_apart("log_level = \""@, 't', '_');
    upgrade::lemma_apart("\n[tls]\n"@, 't', '_');
    upgrade::lemma_apart("enabled = true\n"@, 't', '_');
    upgrade::lemma_apart("cert = \""@, 't', '_');
    upgrade::lemma_apart("/etc/streamline-tls"@, 't', '_');
    upgrade::lemma_apart("/tls.crt\"\n"@, 't', '_');
    upgrade::lemma_apart("key = \""@, 't', '_');
    upgrade::lemma_apart("/tls.key\"\n"@, 't', '_');
}

/// The configuration asks for client certificates exactly where the spec turns on both TLS and
/// mutual TLS.
pub proof fn law_client_certificates_are_required_iff_asked_for(
    cluster: StreamlineCluster,
    rendered: String,
)
    requires
        call_ensures(render_config, (&cluster,), rendered),
        without_underscore(cluster.metadata.name@),
        without_underscore(cluster.spec.log_level@),
    ensures
        text::occurs(rendered@, "require_client_cert"@) <==> cluster.spec.tls is Some
            && cluster.spec.tls->0.enabled && cluster.spec.tls->0.mtls_enabled,
{
    broadcast use upgrade::lemma_apart_in_both;

    let spec = cluster.deep_view().spec;
    let needle = "require_client_cert"@;
    reveal_strlit("require_client_cert");
    if spec.tls is Some && spec.tls->0.enabled && spec.tls->0.mtls_enabled {
        reveal_strlit("require_client_cert = true\n");
        let line = "require_client_cert = true\n"@;
        assert(line.subrange(0, 19) =~= needle);
        assert(text::occurs_at(line, needle, 0));
        let section = "\n[tls]\n"@ + "enabled = true\n"@ + "cert = \""@
            + cluster::TLS_MOUNT_PATH@ + "/tls.crt\"\n"@ + "key = \""@ + cluster::TLS_MOUNT_PATH@
            + "/tls.key\"\n"@;
        let end = "ca_cert = \""@ + cluster::TLS_CA_MOUNT_PATH@ + "/ca.crt\"\n"@;
        let tls = cluster::tls_config(spec.tls);
        text::lemma_occurs_in_end(section, line, needle);
        text::lemma_occurs_in_longer(section + line, needle, "ca_cert = \""@);
        text::lemma_occurs_in_longer(
            section + line + "ca_cert = \""@,
            needle,
            cluster::TLS_CA_MOUNT_PATH@,
        );
        text::lemma_occurs_in_longer(
            section + line + "ca_cert = \""@ + cluster::TLS_CA_MOUNT_PATH@,
            needle,
            "/ca.crt\"\n"@,
        );
        let head = "# Managed by streamline-operator. Do not edit.\n"@
            + "# Rendered from StreamlineCluster/"@ + cluster.metadata.name@ + "\n\n"@
            + cluster::server_config(spec);
        text::lemma_occurs_in_end(head, tls, needle);
    } else {
        lemma_configuration_phrases();
        lemma_without_underscore(cluster.metadata.name@);
        lemma_without_underscore(cluster.spec.log_level@);
        text::law_decimal_is_the_number(spec.kafka_port as int);
        text::law_decimal_is_the_number(spec.http_port as int);
        assert(without_underscore(text::decimal(spec.kafka_port as int)));
        assert(without_underscore(text::decimal(spec.http_port as int)));
        lemma_without_underscore(text::decimal(spec.kafka_port as int));
        lemma_without_underscore(text::decimal(spec.http_port as int));
        assert(upgrade::apart(cluster::server_config(spec), 't', '_'));
        assert(upgrade::apart(cluster::tls_config(spec.tls), 't', '_'));
        assert(needle[13] == 't' && needle[14] == '_');
        upgrade::lemma_apart_excludes(rendered@, needle, 't', '_', 13);
    }
}

/// An autoscaler is wanted exactly where the spec enables one and is valid, and then with the
/// bounds and targets of the spec.
pub proof fn law_an_autoscaler_is_wanted_only_by_a_valid_spec(
    spec: ClusterSpec,
    spec_is_valid: bool,
    config: AutoScalingConfig,
)
    requires
        call_ensures(ClusterController::desired_hpa_config, (&spec, spec_is_valid), config),
    ensures
        config.enabled <==> spec_is_valid && spec.autoscaling is Some
            && spec.autoscaling->0.enabled,
        spec.autoscaling is Some ==> {
            let wanted = spec.autoscaling->0;
            &&& config.min_replicas == wanted.min_replicas
            &&& config.max_replicas == wanted.max_replicas
            &&& config.target_cpu_utilization == wanted.target_cpu_utilization
            &&& config.target_memory_utilization == wanted.target_memory_utilization
            &&& config.partition_aware == wanted.partition_aware
            &&& config.target_lag_per_partition == wanted.target_lag_per_partition
            &&& config.target_messages_per_second == wanted.target_messages_per_second
        },
        config.custom_metrics@.len() == 0,
        config.behavior is None,
{
    let view = config.deep_view();
    assert(view.custom_metrics.len() == config.custom_metrics@.len());
    assert(spec.autoscaling.deep_view() is Some <==> spec.autoscaling is Some);
}

} // verus!
