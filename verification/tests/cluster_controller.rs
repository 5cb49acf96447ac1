use std::collections::BTreeMap;
use streamline_operator::conditions::{
    CLUSTER_CONDITION_DEGRADED, CLUSTER_CONDITION_PROGRESSING, CLUSTER_CONDITION_READY,
    CONDITION_FALSE, CONDITION_TRUE,
};
use streamline_operator::controllers::autoscaling::{delete_outcome, hpa_action};
use streamline_operator::controllers::cluster::{
    render_config, ClusterStep, PodCondition, PodReport, CONFIG_FILE_NAME, CONFIG_FILE_PATH,
    CONFIG_MOUNT_PATH, TLS_CA_MOUNT_PATH, TLS_CA_VOLUME_NAME, TLS_MOUNT_PATH, TLS_VOLUME_NAME,
};
use streamline_operator::controllers::{
    cluster_is_ready, ClusterController, DeleteOutcome, HpaAction, NextReconcile,
    ReconcileVerdict,
};
use streamline_operator::crd::cluster::{ConfigMapKeyRef, EnvVar, EnvVarSource, SecretKeyRef};
use streamline_operator::crd::AutoScalingSpec;
use streamline_operator::manifests::{ContainerEnvVar, PodSpec};
use streamline_operator::objects::KeyValue;
use streamline_operator::{
    ClusterCondition, ClusterPhase, ClusterSpec, ClusterStatus, ClusterTls, StreamlineCluster,
};

/// Build a cluster object from a specification.
fn cluster(spec: ClusterSpec) -> StreamlineCluster {
    let mut cluster = StreamlineCluster::new("test-cluster", spec);
    cluster.metadata.namespace = Some("streamline".to_string());
    cluster.metadata.uid = Some("uid-1234".to_string());
    cluster
}

fn replicas(replicas: i32) -> ClusterSpec {
    ClusterSpec {
        replicas,
        ..Default::default()
    }
}

fn mutual_tls() -> ClusterSpec {
    ClusterSpec {
        tls: Some(ClusterTls {
            enabled: true,
            secret_name: "certs".to_string(),
            mtls_enabled: true,
            ca_secret_name: Some("ca".to_string()),
            insecure_skip_verify: false,
        }),
        ..Default::default()
    }
}

fn autoscaled(enabled: bool) -> ClusterSpec {
    ClusterSpec {
        autoscaling: Some(AutoScalingSpec {
            enabled,
            ..AutoScalingSpec::schema_default()
        }),
        ..Default::default()
    }
}

fn on_ssd() -> ClusterSpec {
    ClusterSpec {
        node_selector: vec![KeyValue::new("disktype", "ssd")],
        ..Default::default()
    }
}

fn with_env(env: Vec<EnvVar>) -> ClusterSpec {
    ClusterSpec {
        env,
        ..Default::default()
    }
}

fn literal(name: &str, value: &str) -> EnvVar {
    EnvVar {
        name: name.to_string(),
        value: Some(value.to_string()),
        value_from: None,
    }
}

fn secret(name: &str, key: &str) -> Option<SecretKeyRef> {
    Some(SecretKeyRef {
        name: name.to_string(),
        key: key.to_string(),
    })
}

fn config_map(name: &str, key: &str) -> Option<ConfigMapKeyRef> {
    Some(ConfigMapKeyRef {
        name: name.to_string(),
        key: key.to_string(),
    })
}

fn sourced(
    name: &str,
    secret_key_ref: Option<SecretKeyRef>,
    config_map_key_ref: Option<ConfigMapKeyRef>,
) -> EnvVar {
    EnvVar {
        name: name.to_string(),
        value: None,
        value_from: Some(EnvVarSource {
            secret_key_ref,
            config_map_key_ref,
        }),
    }
}

fn lookup<'a>(entries: &'a [KeyValue], key: &str) -> Option<&'a str> {
    entries
        .iter()
        .find(|entry| entry.key == key)
        .map(|entry| entry.value.as_str())
}

fn status_condition<'a>(status: &'a ClusterStatus, condition_type: &str) -> &'a ClusterCondition {
    status
        .conditions
        .iter()
        .find(|condition| condition.type_ == condition_type)
        .unwrap_or_else(|| panic!("{condition_type} condition"))
}

/// The rendered broker pod template.
fn statefulset_pod_spec(cluster: &StreamlineCluster) -> PodSpec {
    ClusterController::build_statefulset(cluster, "streamline")
        .spec
        .expect("statefulset spec")
        .template
        .spec
        .expect("pod spec")
}

/// The environment the broker container is rendered with.
fn statefulset_env(cluster: &StreamlineCluster) -> Vec<ContainerEnvVar> {
    statefulset_pod_spec(cluster)
        .containers
        .remove(0)
        .env
        .expect("container env")
}

/// The single rendered variable called `name`.
fn find_env<'a>(env: &'a [ContainerEnvVar], name: &str) -> &'a ContainerEnvVar {
    let matches: Vec<&ContainerEnvVar> = env.iter().filter(|e| e.name == name).collect();
    assert_eq!(
        matches.len(),
        1,
        "expected exactly one {name} variable, got {matches:?}"
    );
    matches[0]
}

#[test]
fn config_map_renders_toml_broker_configuration() {
    let cluster = cluster(ClusterSpec::default());
    let cm = ClusterController::build_configmap(&cluster, "streamline");

    let data = cm.data.expect("config map must carry data");
    let config = lookup(&data, CONFIG_FILE_NAME)
        .expect("config map must contain the rendered config file");

    assert_eq!(CONFIG_FILE_NAME, "streamline.toml");
    assert!(config.contains("[server]"));
    assert!(config.contains("listen_addr = \"0.0.0.0:9092\""));
    assert!(config.contains("http_addr = \"0.0.0.0:9094\""));
    assert!(config.contains("data_dir = \"/data\""));
    assert!(config.contains("log_level = \"info\""));
    assert!(!config.contains(": "), "config must be TOML, not YAML");
    assert_eq!(cm.metadata.name.as_deref(), Some("test-cluster-config"));
}

/// The server's `ConfigFile` only defines `[server]`, `[storage]`, `[wal]`,
/// `[tls]`, ... sections; keys it does not define are dead weight in the
/// ConfigMap and mislead operators into thinking they take effect.
#[test]
fn rendered_config_omits_keys_the_server_does_not_define() {
    let cluster = cluster(ClusterSpec {
        raft_port: 9095,
        metrics_enabled: true,
        ..Default::default()
    });
    let config = render_config(&cluster);

    assert!(
        !config.contains("raft_addr"),
        "the server config file has no raft_addr key: {config}"
    );
    assert!(
        !config.contains("metrics_enabled"),
        "the server config file has no metrics_enabled key: {config}"
    );
    assert!(
        !config.contains("9095"),
        "the raft port belongs on the Service, not in the config file: {config}"
    );
}

/// Every rendered key must live under the section the server parses it
/// from: `[server]` for the listen/data/log settings, `[tls]` for TLS.
#[test]
fn rendered_keys_live_under_the_sections_the_server_parses() {
    let cluster = cluster(mutual_tls());
    let config = render_config(&cluster);

    let mut section = String::new();
    let mut keys_by_section: BTreeMap<String, Vec<String>> = BTreeMap::new();
    for line in config
        .lines()
        .map(str::trim)
        .filter(|l| !l.is_empty() && !l.starts_with('#'))
    {
        if let Some(name) = line.strip_prefix('[').and_then(|l| l.strip_suffix(']')) {
            section = name.to_string();
            continue;
        }
        let key = line
            .split_once(" = ")
            .map(|(k, _)| k.to_string())
            .unwrap_or_else(|| panic!("line is not a TOML key/value: {line}"));
        assert!(
            !section.is_empty(),
            "key `{key}` rendered outside a section"
        );
        keys_by_section
            .entry(section.clone())
            .or_default()
            .push(key);
    }

    let section_keys =
        |name: &str| -> Vec<String> { keys_by_section.get(name).cloned().unwrap_or_default() };

    assert_eq!(
        section_keys("server"),
        vec!["listen_addr", "http_addr", "data_dir", "log_level"]
    );
    assert_eq!(
        section_keys("tls"),
        vec!["enabled", "cert", "key", "require_client_cert", "ca_cert"]
    );
}

#[test]
fn rendered_config_is_wellformed_toml() {
    let cluster = cluster(mutual_tls());
    let config = render_config(&cluster);

    for line in config
        .lines()
        .map(str::trim)
        .filter(|l| !l.is_empty() && !l.starts_with('#'))
    {
        let is_table_header = line.starts_with('[') && line.ends_with(']');
        let is_key_value = line
            .split_once(" = ")
            .is_some_and(|(k, v)| !k.trim().is_empty() && !v.trim().is_empty());
        assert!(
            is_table_header || is_key_value,
            "line is not valid TOML: {line}"
        );
    }
}

#[test]
fn tls_configuration_points_at_mounted_paths() {
    let cluster = cluster(mutual_tls());
    let config = render_config(&cluster);

    assert!(config.contains("[tls]"));
    assert!(config.contains(&format!("cert = \"{TLS_MOUNT_PATH}/tls.crt\"")));
    assert!(config.contains(&format!("key = \"{TLS_MOUNT_PATH}/tls.key\"")));
    assert!(config.contains("require_client_cert = true"));
    assert!(config.contains(&format!("ca_cert = \"{TLS_CA_MOUNT_PATH}/ca.crt\"")));

    let sts = ClusterController::build_statefulset(&cluster, "streamline");
    let pod_spec = sts.spec.expect("spec").template.spec.expect("pod spec");
    let pod_security = pod_spec
        .security_context
        .as_ref()
        .expect("pod security context");
    assert_eq!(pod_security.fs_group, Some(1000));
    assert_eq!(pod_security.run_as_non_root, Some(true));

    let volumes = pod_spec.volumes.as_ref().expect("volumes");

    let tls_volume = volumes
        .iter()
        .find(|v| v.name == TLS_VOLUME_NAME)
        .expect("TLS secret must be mounted when TLS is enabled");
    assert_eq!(
        tls_volume
            .secret
            .as_ref()
            .and_then(|s| s.secret_name.as_deref()),
        Some("certs")
    );
    assert_eq!(
        tls_volume.secret.as_ref().and_then(|s| s.default_mode),
        Some(0o440)
    );

    let ca_volume = volumes
        .iter()
        .find(|v| v.name == TLS_CA_VOLUME_NAME)
        .expect("client CA secret must be mounted for mTLS");
    assert_eq!(
        ca_volume.secret.as_ref().and_then(|s| s.default_mode),
        Some(0o440)
    );

    let mounts = pod_spec.containers[0]
        .volume_mounts
        .as_ref()
        .expect("mounts");
    assert!(mounts
        .iter()
        .any(|m| m.mount_path == TLS_MOUNT_PATH && m.read_only == Some(true)));
    assert!(mounts
        .iter()
        .any(|m| m.mount_path == TLS_CA_MOUNT_PATH && m.read_only == Some(true)));
}

/// A Secret volume mounted *inside* the read-only ConfigMap mount is not a
/// layout kubelet guarantees. If the TLS mount is shadowed or dropped, the
/// broker starts with a config file that claims TLS is enabled while
/// `cert`/`key` point at paths that do not exist.
#[test]
fn tls_mounts_are_siblings_of_the_config_mount_not_nested_inside_it() {
    let cluster = cluster(mutual_tls());

    let config_prefix = format!("{CONFIG_MOUNT_PATH}/");
    for path in [TLS_MOUNT_PATH, TLS_CA_MOUNT_PATH] {
        assert!(
            !path.starts_with(&config_prefix),
            "{path} must not be nested below the read-only config mount {CONFIG_MOUNT_PATH}"
        );
    }
    assert_ne!(TLS_MOUNT_PATH, TLS_CA_MOUNT_PATH);
    assert_ne!(TLS_MOUNT_PATH, CONFIG_MOUNT_PATH);
    assert_ne!(TLS_CA_MOUNT_PATH, CONFIG_MOUNT_PATH);

    let sts = ClusterController::build_statefulset(&cluster, "streamline");
    let pod_spec = sts.spec.expect("spec").template.spec.expect("pod spec");
    let mounts = pod_spec.containers[0]
        .volume_mounts
        .as_ref()
        .expect("mounts");
    let paths: Vec<String> = mounts.iter().map(|m| m.mount_path.clone()).collect();

    // No mount path may be a strict prefix of another: nesting one volume
    // inside another is exactly the bug this guards against.
    for outer in &paths {
        for inner in &paths {
            if outer == inner {
                continue;
            }
            assert!(
                !inner.starts_with(&format!("{outer}/")),
                "mount {inner} is nested inside mount {outer}: {paths:?}"
            );
        }
    }

    // The rendered configuration must point at the sibling paths.
    let config = render_config(&cluster);
    assert!(config.contains(&format!("cert = \"{TLS_MOUNT_PATH}/tls.crt\"")));
    assert!(config.contains(&format!("ca_cert = \"{TLS_CA_MOUNT_PATH}/ca.crt\"")));
    assert!(
        !config.contains("\"/etc/streamline/tls"),
        "config still references the nested TLS path: {config}"
    );
}

#[test]
fn tls_volumes_absent_when_tls_disabled() {
    let cluster = cluster(ClusterSpec::default());
    let sts = ClusterController::build_statefulset(&cluster, "streamline");
    let pod_spec = sts.spec.expect("spec").template.spec.expect("pod spec");
    let volumes = pod_spec.volumes.expect("volumes");

    assert_eq!(volumes.len(), 1);
    assert_eq!(volumes[0].name, "config");
    assert!(!render_config(&cluster).contains("[tls]"));
}

#[test]
fn a_ca_secret_is_mounted_wherever_the_configuration_names_its_path() {
    let mut spec = mutual_tls();
    if let Some(tls) = &mut spec.tls {
        tls.ca_secret_name = Some(" ".to_string());
    }
    // Validation refuses the blank name; what is rendered all the same agrees with itself.
    assert!(spec.validate().is_err());
    let cluster = cluster(spec);
    let (volumes, mounts) = ClusterController::build_config_and_tls_volumes(&cluster);
    let names: Vec<&str> = volumes.iter().map(|v| v.name.as_str()).collect();
    assert_eq!(names, vec!["config", "tls", "tls-ca"]);
    assert_eq!(mounts[2].mount_path, "/etc/streamline-tls-ca");
    assert!(render_config(&cluster).contains("/etc/streamline-tls-ca/ca.crt"));
}

#[test]
fn string_maps_are_rendered_in_key_order() {
    fn rising(entries: &[KeyValue]) -> bool {
        entries.windows(2).all(|pair| pair[0].key < pair[1].key)
    }
    let mut spec = ClusterSpec {
        node_selector: vec![KeyValue::new("disktype", "ssd"), KeyValue::new("zone", "a")],
        ..Default::default()
    };
    spec.resources.limits.cpu = Some("2".to_string());
    spec.resources.limits.memory = Some("4Gi".to_string());
    let cluster = cluster(spec);
    assert!(rising(&ClusterController::common_labels(&cluster)));
    assert!(rising(&ClusterController::pod_selector(&cluster)));
    let sts = ClusterController::build_statefulset(&cluster, "streamline");
    assert!(rising(&sts.metadata.labels.expect("labels")));
    let pod_spec = sts.spec.expect("spec").template.spec.expect("pod spec");
    assert_eq!(pod_spec.node_selector.expect("node selector"), cluster.spec.node_selector);
    let resources = pod_spec.containers[0].resources.as_ref().expect("resources");
    let limits = resources.limits.as_ref().expect("limits");
    assert_eq!(limits.len(), 2);
    assert!(rising(limits));
}

#[test]
fn a_changed_status_is_stamped_with_the_current_time() {
    let cluster = cluster(ClusterSpec::default());
    let before = chrono::Utc::now();
    let status = ClusterController::observed_status(&cluster, "streamline", 1);
    let after = chrono::Utc::now();
    let stamp = chrono::DateTime::parse_from_rfc3339(&status.last_updated.unwrap()).unwrap();
    assert!(stamp >= before && stamp <= after);
}

/// `spec.env[]` is the operator's only channel for broker settings the CRD
/// does not model, and `valueFrom` is the only way to feed a broker a
/// secret without putting it in the resource. It was accepted by the
/// schema and then dropped during rendering, so a variable declared as a
/// `secretKeyRef` reached the container as the empty string — a silently
/// mis-configured (or unauthenticated) broker rather than a failure.
#[test]
fn spec_env_literal_values_are_rendered() {
    let cluster = cluster(with_env(vec![literal("STREAMLINE_EXTRA", "on")]));
    let env = statefulset_env(&cluster);
    let rendered = find_env(&env, "STREAMLINE_EXTRA");

    assert_eq!(rendered.value.as_deref(), Some("on"));
    assert!(
        rendered.value_from.is_none(),
        "a literal value must not render a reference"
    );
}

#[test]
fn spec_env_secret_key_ref_is_rendered_as_a_reference() {
    let cluster = cluster(with_env(vec![sourced(
        "SASL_PASSWORD",
        secret("broker-auth", "password"),
        None,
    )]));
    let env = statefulset_env(&cluster);
    let rendered = find_env(&env, "SASL_PASSWORD");

    assert!(
        rendered.value.is_none(),
        "a referenced variable must not also carry a literal value"
    );
    let secret = rendered
        .value_from
        .as_ref()
        .and_then(|source| source.secret_key_ref.as_ref())
        .expect("secretKeyRef must be rendered onto the container");
    assert_eq!(secret.name, "broker-auth");
    assert_eq!(secret.key, "password");

    // The kubelet resolves the reference at pod start; the operator must
    // not need (and does not have) read access to Secrets.
    assert_eq!(secret.optional, None);
}

#[test]
fn spec_env_config_map_key_ref_is_rendered_as_a_reference() {
    let cluster = cluster(with_env(vec![sourced(
        "STREAMLINE_TUNING",
        None,
        config_map("broker-tuning", "flags"),
    )]));
    let env = statefulset_env(&cluster);
    let rendered = find_env(&env, "STREAMLINE_TUNING");

    assert!(rendered.value.is_none());
    let config_map = rendered
        .value_from
        .as_ref()
        .and_then(|source| source.config_map_key_ref.as_ref())
        .expect("configMapKeyRef must be rendered onto the container");
    assert_eq!(config_map.name, "broker-tuning");
    assert_eq!(config_map.key, "flags");
    assert_eq!(config_map.optional, None);
}

/// Rendering must never turn a reference into an empty variable, even if a
/// spec that `ClusterSpec::validate` rejects somehow reaches the renderer.
#[test]
fn unmappable_env_entries_are_never_rendered_as_empty_variables() {
    let unmappable = [
        EnvVar {
            name: "SASL_PASSWORD".to_string(),
            value: None,
            value_from: None,
        },
        sourced("SASL_PASSWORD", None, None),
        EnvVar {
            value: Some("literal".to_string()),
            ..sourced("SASL_PASSWORD", secret("s", "k"), None)
        },
        sourced("SASL_PASSWORD", secret("s", "k"), config_map("c", "k")),
        sourced("SASL_PASSWORD", secret("", "password"), None),
    ];

    for entry in unmappable {
        let spec = format!("{entry:?}");
        let cluster = cluster(with_env(vec![entry]));
        assert!(
            cluster.spec.validate().is_err(),
            "{spec} must be rejected before it reaches the renderer"
        );

        let env = statefulset_env(&cluster);
        assert!(
            !env.iter().any(|e| e.name == "SASL_PASSWORD"),
            "{spec} rendered SASL_PASSWORD instead of dropping it: {env:?}"
        );
    }
}

/// The operator's own downward-API variables must keep working alongside
/// user-supplied references.
#[test]
fn operator_env_survives_alongside_spec_env() {
    let cluster = cluster(with_env(vec![sourced(
        "SASL_PASSWORD",
        secret("broker-auth", "password"),
        None,
    )]));
    let env = statefulset_env(&cluster);

    assert_eq!(
        find_env(&env, "STREAMLINE_CONFIG").value.as_deref(),
        Some(CONFIG_FILE_PATH)
    );
    let pod_name = find_env(&env, "POD_NAME");
    assert_eq!(
        pod_name
            .value_from
            .as_ref()
            .and_then(|source| source.field_ref.as_ref())
            .map(|field| field.field_path.as_str()),
        Some("metadata.name")
    );
}

/// Every rendered variable must carry a value or a source; a variable with
/// neither is the empty-string bug this guards against.
#[test]
fn no_rendered_env_var_is_left_without_a_value_or_a_source() {
    let cluster = cluster(with_env(vec![
        literal("LITERAL", "x"),
        literal("DELIBERATELY_EMPTY", ""),
        sourced("FROM_SECRET", secret("s", "k"), None),
        sourced("FROM_CONFIG_MAP", None, config_map("c", "k")),
    ]));
    assert!(cluster.spec.validate().is_ok());

    for rendered in statefulset_env(&cluster) {
        assert!(
            rendered.value.is_some() || rendered.value_from.is_some(),
            "{} would reach the broker as an empty string",
            rendered.name
        );
    }
}

// --- Scheduling -------------------------------------------------------

/// `nodeSelector` is the one scheduling setting the pod template actually
/// carries, so it must keep being rendered.
#[test]
fn node_selector_is_rendered_onto_the_pod_template() {
    let cluster = cluster(on_ssd());
    let pod_spec = statefulset_pod_spec(&cluster);

    assert_eq!(
        pod_spec
            .node_selector
            .as_ref()
            .and_then(|selector| lookup(selector, "disktype")),
        Some("ssd")
    );
}

/// The pod template renders no affinity, topology spread, or tolerations.
/// `ClusterSpec::validate` rejects those settings for exactly that reason;
/// this pins the render side so the rejection cannot quietly become wrong.
#[test]
fn no_scheduling_settings_beyond_node_selector_are_rendered() {
    let cluster = cluster(on_ssd());
    let pod_spec = statefulset_pod_spec(&cluster);

    assert!(
        pod_spec.affinity.is_none(),
        "podAntiAffinity is rejected by validation because nothing renders affinity"
    );
    assert!(
        pod_spec.tolerations.is_none(),
        "tolerations are rejected by validation because nothing renders them"
    );
    assert!(
        pod_spec.topology_spread_constraints.is_none(),
        "rackAwareness is rejected by validation because nothing renders topology spread"
    );
}

#[test]
fn statefulset_wires_config_probes_and_storage() {
    let cluster = cluster(ClusterSpec::default());
    let sts = ClusterController::build_statefulset(&cluster, "streamline");

    let spec = sts.spec.expect("statefulset spec");
    let pod_spec = spec.template.spec.expect("pod spec");
    let container = &pod_spec.containers[0];

    assert_eq!(container.name, "streamline");
    assert_eq!(spec.service_name, "test-cluster-headless");
    assert_eq!(spec.replicas, Some(1));

    let mounts = container.volume_mounts.as_ref().expect("volume mounts");
    assert!(mounts.iter().any(|m| m.mount_path == CONFIG_MOUNT_PATH));
    assert!(mounts.iter().any(|m| m.mount_path == "/data"));

    // The broker must be told where its rendered configuration lives.
    let env = container.env.as_ref().expect("env");
    let config_env = env
        .iter()
        .find(|e| e.name == "STREAMLINE_CONFIG")
        .expect("STREAMLINE_CONFIG must be set");
    assert_eq!(config_env.value.as_deref(), Some(CONFIG_FILE_PATH));
}

#[test]
fn readiness_probe_uses_the_broker_ready_path() {
    let cluster = cluster(ClusterSpec::default());
    let sts = ClusterController::build_statefulset(&cluster, "streamline");
    let container = sts
        .spec
        .expect("spec")
        .template
        .spec
        .expect("pod")
        .containers
        .remove(0);

    let readiness = container
        .readiness_probe
        .and_then(|p| p.http_get)
        .expect("readiness probe");
    assert_eq!(readiness.path.as_deref(), Some("/health/ready"));

    let liveness = container
        .liveness_probe
        .and_then(|p| p.http_get)
        .expect("liveness probe");
    assert_eq!(liveness.path.as_deref(), Some("/health"));
}

#[test]
fn broker_image_defaults_to_the_server_image() {
    let cluster = cluster(ClusterSpec::default());
    let sts = ClusterController::build_statefulset(&cluster, "streamline");
    let container = sts
        .spec
        .expect("spec")
        .template
        .spec
        .expect("pod")
        .containers
        .remove(0);

    let image = container.image.expect("image");
    assert!(
        !image.contains("streamline-operator"),
        "brokers must not run the operator image, got {image}"
    );
}

#[test]
fn invalid_spec_conditions_report_the_reason() {
    let cluster = cluster(ClusterSpec::default());
    let conditions =
        ClusterController::invalid_spec_conditions(&cluster, "tls.secretName is required");

    let ready = conditions
        .iter()
        .find(|c| c.type_ == CLUSTER_CONDITION_READY)
        .expect("Ready condition");
    assert_eq!(ready.status, CONDITION_FALSE);
    assert_eq!(ready.reason.as_deref(), Some("InvalidSpec"));

    let degraded = conditions
        .iter()
        .find(|c| c.type_ == CLUSTER_CONDITION_DEGRADED)
        .expect("Degraded condition");
    assert_eq!(degraded.status, CONDITION_TRUE);
    assert!(degraded
        .message
        .as_deref()
        .is_some_and(|m| m.contains("tls.secretName")));
}

#[test]
fn zero_ready_replicas_are_neither_ready_nor_healthy() {
    let resource = cluster(replicas(3));
    let status = ClusterController::observed_status(&resource, "streamline", 0);

    assert_eq!(status.phase, ClusterPhase::Pending);
    assert_eq!(
        status_condition(&status, CLUSTER_CONDITION_READY).status,
        CONDITION_FALSE
    );
    let degraded = status_condition(&status, CLUSTER_CONDITION_DEGRADED);
    assert_eq!(degraded.status, CONDITION_TRUE);
    assert_eq!(degraded.reason.as_deref(), Some("NoBrokersReady"));
}

#[test]
fn partially_ready_replicas_are_neither_ready_nor_healthy() {
    let resource = cluster(replicas(3));
    let status = ClusterController::observed_status(&resource, "streamline", 2);

    assert_eq!(status.phase, ClusterPhase::Scaling);
    assert_eq!(
        status_condition(&status, CLUSTER_CONDITION_READY).status,
        CONDITION_FALSE
    );
    let degraded = status_condition(&status, CLUSTER_CONDITION_DEGRADED);
    assert_eq!(degraded.status, CONDITION_TRUE);
    assert_eq!(degraded.reason.as_deref(), Some("PartiallyReady"));
}

#[test]
fn exactly_the_desired_replicas_are_ready_and_healthy() {
    let resource = cluster(replicas(3));
    let status = ClusterController::observed_status(&resource, "streamline", 3);

    assert_eq!(status.phase, ClusterPhase::Running);
    assert_eq!(
        status_condition(&status, CLUSTER_CONDITION_READY).status,
        CONDITION_TRUE
    );
    let degraded = status_condition(&status, CLUSTER_CONDITION_DEGRADED);
    assert_eq!(degraded.status, CONDITION_FALSE);
    assert_eq!(degraded.reason.as_deref(), Some("Healthy"));
}

#[test]
fn excess_ready_replicas_are_neither_ready_nor_healthy() {
    let resource = cluster(ClusterSpec::default());
    let status = ClusterController::observed_status(&resource, "streamline", 2);

    assert_eq!(status.phase, ClusterPhase::Scaling);
    assert_eq!(
        status_condition(&status, CLUSTER_CONDITION_READY).status,
        CONDITION_FALSE
    );
    let progressing = status_condition(&status, CLUSTER_CONDITION_PROGRESSING);
    assert_eq!(progressing.status, CONDITION_TRUE);
    assert_eq!(progressing.reason.as_deref(), Some("ScalingDown"));
    let degraded = status_condition(&status, CLUSTER_CONDITION_DEGRADED);
    assert_eq!(degraded.status, CONDITION_TRUE);
    assert_eq!(degraded.reason.as_deref(), Some("TooManyReadyBrokers"));
}

// --- Status stability -------------------------------------------------
//
// A status patch generates a watch event for the same object. If the
// controller rebuilds `lastUpdated` and every condition timestamp on each
// pass, the patch is never a no-op and the controller re-triggers itself
// forever. These tests pin the fail-closed and healthy paths to a status
// that compares equal when nothing changed.

#[test]
fn repeated_invalid_status_is_stable() {
    let mut resource = cluster(autoscaled(true));
    let message = "autoscaling.enabled is not supported";

    let first = ClusterController::invalid_status(&resource, message);
    assert_eq!(first.phase, ClusterPhase::Failed);
    resource.status = Some(first.clone());

    let second = ClusterController::invalid_status(&resource, message);
    assert_eq!(
        second, first,
        "an unchanged invalid spec must produce an identical status"
    );
}

#[test]
fn repeated_healthy_status_is_stable() {
    let mut resource = cluster(ClusterSpec::default());

    let first = ClusterController::observed_status(&resource, "streamline", 1);
    assert_eq!(first.phase, ClusterPhase::Running);
    assert_eq!(first.ready_replicas, 1);
    resource.status = Some(first.clone());

    let second = ClusterController::observed_status(&resource, "streamline", 1);
    assert_eq!(
        second, first,
        "an unchanged healthy cluster must produce an identical status"
    );
}

#[test]
fn repeated_non_exact_statuses_are_stable() {
    for ready_count in [0, 2, 4] {
        let mut resource = cluster(replicas(3));
        let first = ClusterController::observed_status(&resource, "streamline", ready_count);
        resource.status = Some(first.clone());

        let second = ClusterController::observed_status(&resource, "streamline", ready_count);
        assert_eq!(
            second, first,
            "ready_count={ready_count} must not churn status timestamps"
        );
    }
}

#[test]
fn real_change_updates_status_without_resetting_unchanged_transition_times() {
    let mut resource = cluster(replicas(3));
    let mut first = ClusterController::observed_status(&resource, "streamline", 1);
    first.last_updated = Some("2024-01-01T00:00:00Z".to_string());

    let degraded_transition = first
        .conditions
        .iter()
        .find(|c| c.type_ == CLUSTER_CONDITION_DEGRADED)
        .and_then(|c| c.last_transition_time.clone())
        .expect("Degraded transition time");
    resource.status = Some(first);

    // Another broker became ready, but the cluster is still partial:
    // condition statuses stay unchanged while the observed count changes.
    let second = ClusterController::observed_status(&resource, "streamline", 2);
    assert_eq!(second.phase, ClusterPhase::Scaling);
    assert_ne!(
        second.last_updated.as_deref(),
        Some("2024-01-01T00:00:00Z"),
        "a real state change must refresh lastUpdated"
    );
    assert_eq!(
        second
            .conditions
            .iter()
            .find(|c| c.type_ == CLUSTER_CONDITION_DEGRADED)
            .and_then(|c| c.last_transition_time.clone()),
        Some(degraded_transition),
        "a still-degraded condition must keep its transition time"
    );
}

#[test]
fn cluster_status_only_differing_in_timestamp_is_not_treated_as_a_change() {
    let mut resource = cluster(ClusterSpec::default());
    let mut published = ClusterController::observed_status(&resource, "streamline", 1);
    published.last_updated = Some("2024-01-01T00:00:00Z".to_string());
    resource.status = Some(published.clone());

    let next = ClusterController::observed_status(&resource, "streamline", 1);
    assert_eq!(
        next.last_updated.as_deref(),
        Some("2024-01-01T00:00:00Z"),
        "lastUpdated must be preserved when nothing else changed"
    );
    assert_eq!(next, published);
}

// --- Autoscaling rejection cleanup ------------------------------------
//
// Rejecting `autoscaling.enabled` only prevents the operator from creating
// a *new* HPA. An HPA that is already there would go on
// scaling the StatefulSet into multiple independent standalone
// brokers — the split-brain the rejection exists to prevent.

#[test]
fn rejected_autoscaling_deletes_the_stale_hpa_and_creates_none() {
    let spec = autoscaled(true);
    assert!(
        spec.validate().is_err(),
        "enabled autoscaling must still be rejected"
    );

    let config = ClusterController::desired_hpa_config(&spec, false);

    assert!(
        !config.enabled,
        "a rejected autoscaling spec must not leave the HPA enabled"
    );
    assert_eq!(
        hpa_action(&config),
        HpaAction::Delete,
        "cleanup must delete the stale HPA rather than apply a new one"
    );
}

#[test]
fn explicitly_disabled_autoscaling_also_requests_cleanup() {
    let spec = autoscaled(false);
    assert!(spec.validate().is_ok());

    let config = ClusterController::desired_hpa_config(&spec, true);
    assert_eq!(
        hpa_action(&config),
        HpaAction::Delete
    );
}

/// Deleting the `autoscaling` block must not orphan the HPA it created.
/// Every reconcile of a cluster without autoscaling therefore reconciles a
/// *disabled* configuration, which deletes any operator-owned HPA.
#[test]
fn absent_autoscaling_still_reconciles_a_cleanup() {
    let spec = ClusterSpec::default();
    let config = ClusterController::desired_hpa_config(&spec, true);

    assert!(!config.enabled);
    assert_eq!(
        hpa_action(&config),
        HpaAction::Delete,
        "an absent autoscaling block must still remove a stale HPA"
    );
}

/// An invalid spec that never mentioned autoscaling must also converge on
/// cleanup: the reconcile returns early after the validation gate, so the
/// cleanup has to happen before it.
#[test]
fn an_invalid_spec_without_autoscaling_still_reconciles_a_cleanup() {
    let spec = replicas(3);
    assert!(spec.validate().is_err());

    let config = ClusterController::desired_hpa_config(&spec, false);
    assert_eq!(
        hpa_action(&config),
        HpaAction::Delete
    );
}

/// The cleanup must not become a back door that re-enables autoscaling: an
/// HPA is only ever applied for a spec that both requests it and passes
/// validation.
#[test]
fn an_hpa_is_only_applied_for_a_requested_and_accepted_spec() {
    let mut spec = autoscaled(true);
    if let Some(autoscaling) = spec.autoscaling.as_mut() {
        autoscaling.max_replicas = 5;
    }

    let rejected = ClusterController::desired_hpa_config(&spec, false);
    assert!(!rejected.enabled);

    let accepted = ClusterController::desired_hpa_config(&spec, true);
    assert!(accepted.enabled);
    assert_eq!(accepted.max_replicas, 5);
    assert_eq!(
        hpa_action(&accepted),
        HpaAction::Apply
    );
}

/// Cleaning up the HPA must not soften the single-replica rejection.
#[test]
fn single_replica_rejection_is_unchanged() {
    let spec = replicas(3);
    let errors = spec.validate().unwrap_err();
    assert!(errors
        .iter()
        .any(|e| e.contains("replicas=3 is not supported")));

    let autoscaled = autoscaled(true);
    assert!(autoscaled
        .validate()
        .unwrap_err()
        .iter()
        .any(|e| e.contains("autoscaling.enabled is not supported")));
}

// --- Plan -------------------------------------------------------------

#[test]
fn an_accepted_cluster_is_rendered_and_observed() {
    let plan = ClusterController::plan(&cluster(ClusterSpec::default()));
    assert!(plan.steps.contains(&ClusterStep::AddFinalizer));
    assert!(!plan.steps.contains(&ClusterStep::CleanUpVolumes));
    assert_eq!(plan.verdict, ReconcileVerdict::Success);
    assert_eq!(plan.next, NextReconcile::After(60));
}

#[test]
fn a_refused_cluster_renders_nothing() {
    let resource = cluster(replicas(3));
    let plan = ClusterController::plan(&resource);
    assert_eq!(plan.verdict, ReconcileVerdict::Error);
    let accepted = ClusterController::plan(&cluster(ClusterSpec::default()));
    assert!(plan.steps.len() < accepted.steps.len());
    assert!(ClusterController::invalid_message(&resource).contains("replicas=3"));
}

#[test]
fn a_deleted_cluster_is_cleaned_up() {
    let mut resource = cluster(ClusterSpec::default());
    resource.metadata.deleting = true;
    let plan = ClusterController::plan(&resource);
    assert_eq!(
        plan.steps,
        vec![ClusterStep::CleanUpVolumes, ClusterStep::RemoveFinalizer]
    );
    assert_eq!(plan.next, NextReconcile::AwaitChange);
    assert_eq!(
        ClusterController::list_selector(&resource),
        "app.kubernetes.io/instance=test-cluster"
    );
}

#[test]
fn pods_count_as_ready_by_their_condition() {
    let pod = |type_: &str, status: &str| PodReport {
        conditions: Some(vec![PodCondition {
            type_: type_.to_string(),
            status: status.to_string(),
        }]),
    };
    let pods = vec![
        pod("Ready", "True"),
        pod("Ready", "False"),
        pod("Initialized", "True"),
        PodReport { conditions: None },
    ];
    assert_eq!(ClusterController::count_ready(&pods), 1);
}

#[test]
fn broker_endpoints_are_numbered() {
    let resource = cluster(replicas(2));
    let status = ClusterController::observed_status_at(&resource, "streamline", 2, "t0");
    assert_eq!(
        status.broker_endpoints,
        vec![
            "test-cluster-0.test-cluster-headless.streamline.svc:9092",
            "test-cluster-1.test-cluster-headless.streamline.svc:9092",
        ]
    );
    assert_eq!(status.last_updated.as_deref(), Some("t0"));
}

#[test]
fn services_expose_the_ports() {
    let resource = cluster(ClusterSpec::default());
    let headless = ClusterController::build_headless_service(&resource, "streamline");
    let spec = headless.spec.unwrap();
    assert_eq!(spec.cluster_ip.as_deref(), Some("None"));
    let ports: Vec<i32> = spec.ports.unwrap().iter().map(|p| p.port).collect();
    assert_eq!(ports, vec![9092, 9094, 9095]);
    let client = ClusterController::build_client_service(&resource, "streamline");
    let ports: Vec<i32> = client.spec.unwrap().ports.unwrap().iter().map(|p| p.port).collect();
    assert_eq!(ports, vec![9092, 9094]);
}

#[test]
fn a_missing_autoscaler_counts_as_deleted() {
    assert_eq!(delete_outcome(Ok(())), DeleteOutcome::Deleted);
    assert_eq!(delete_outcome(Err(Some(404))), DeleteOutcome::AlreadyAbsent);
    assert_eq!(delete_outcome(Err(Some(403))), DeleteOutcome::Failed);
    assert_eq!(delete_outcome(Err(None)), DeleteOutcome::Failed);
}

#[test]
fn publishing_the_same_status_is_no_change() {
    let mut resource = cluster(ClusterSpec::default());
    let status = ClusterController::observed_status_at(&resource, "streamline", 1, "t0");
    assert!(ClusterController::status_changed(&resource, &status));
    resource.status = Some(status.clone());
    assert!(!ClusterController::status_changed(&resource, &status));
    let next = ClusterController::observed_status_at(&resource, "streamline", 1, "t9");
    assert!(!ClusterController::status_changed(&resource, &next));
}

#[test]
fn a_refused_cluster_takes_no_requests() {
    let mut resource = cluster(ClusterSpec {
        replicas: 3,
        ..Default::default()
    });
    resource.status = Some(ClusterController::observed_status_at(&resource, "streamline", 3, "t0"));
    assert!(cluster_is_ready(&resource));
    let message = ClusterController::invalid_message(&resource);
    assert!(message.contains("v0.3.0"));
    let refused = ClusterController::invalid_status_at(&resource, &message, "t1");
    assert_eq!(refused.phase, ClusterPhase::Failed);
    let degraded = refused.conditions.iter().find(|c| c.type_ == "Degraded").unwrap();
    assert_eq!(degraded.status, "True");
    assert_eq!(degraded.message.as_deref(), Some(message.as_str()));
    resource.status = Some(refused);
    assert!(!cluster_is_ready(&resource));
}
