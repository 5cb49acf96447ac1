use streamline_operator::crd::cluster::{
    ConfigMapKeyRef, EnvVar, EnvVarRef, EnvVarSource, RackAwareness, SecretKeyRef, Toleration,
};
use streamline_operator::objects::KeyValue;
use streamline_operator::crd::AutoScalingSpec;
use streamline_operator::{ClusterPhase, ClusterSpec, ClusterStorage, ClusterTls};

fn tls(secret_name: &str) -> ClusterTls {
    ClusterTls {
        enabled: true,
        secret_name: secret_name.to_string(),
        mtls_enabled: false,
        ca_secret_name: None,
        insecure_skip_verify: false,
    }
}

fn literal(name: &str, value: &str) -> EnvVar {
    EnvVar {
        name: name.to_string(),
        value: Some(value.to_string()),
        value_from: None,
    }
}

fn secret(name: &str, key: &str) -> Option<SecretKeyRef> {
    Some(SecretKeyRef {
        name: name.to_string(),
        key: key.to_string(),
    })
}

fn config_map(name: &str, key: &str) -> Option<ConfigMapKeyRef> {
    Some(ConfigMapKeyRef {
        name: name.to_string(),
        key: key.to_string(),
    })
}

fn sourced(
    name: &str,
    secret_key_ref: Option<SecretKeyRef>,
    config_map_key_ref: Option<ConfigMapKeyRef>,
) -> EnvVar {
    EnvVar {
        name: name.to_string(),
        value: None,
        value_from: Some(EnvVarSource {
            secret_key_ref,
            config_map_key_ref,
        }),
    }
}

fn with_env(env: Vec<EnvVar>) -> ClusterSpec {
    ClusterSpec {
        env,
        ..Default::default()
    }
}

#[test]
fn test_cluster_spec_defaults() {
    let spec = ClusterSpec::default();
    assert_eq!(spec.replicas, 1);
    assert_eq!(spec.kafka_port, 9092);
    assert_eq!(spec.http_port, 9094);
    assert!(spec.metrics_enabled);
}

#[test]
fn test_default_image_is_the_server_not_the_operator() {
    let spec = ClusterSpec::default();
    assert_eq!(spec.image, "ghcr.io/streamlinelabs/streamline:0.4.0");
    assert!(
        !spec.image.contains("streamline-operator"),
        "brokers must not default to the operator image"
    );
}

#[test]
fn test_tls_enabled_requires_secret_name() {
    let spec = ClusterSpec {
        tls: Some(tls("")),
        ..Default::default()
    };
    let errors = spec.validate().unwrap_err();
    assert!(errors.iter().any(|e| e.contains("tls.secretName")));
}

#[test]
fn test_mtls_requires_ca_secret() {
    let spec = ClusterSpec {
        tls: Some(ClusterTls {
            mtls_enabled: true,
            ..tls("certs")
        }),
        ..Default::default()
    };
    let errors = spec.validate().unwrap_err();
    assert!(errors.iter().any(|e| e.contains("tls.caSecretName")));
}

#[test]
fn test_insecure_skip_verify_is_rejected() {
    let spec = ClusterSpec {
        tls: Some(ClusterTls {
            insecure_skip_verify: true,
            ..tls("certs")
        }),
        ..Default::default()
    };
    let errors = spec.validate().unwrap_err();
    assert!(errors.iter().any(|e| e.contains("insecureSkipVerify")));
}

#[test]
fn test_autoscaling_is_rejected_until_clustering_is_bootstrapped() {
    let spec = ClusterSpec {
        autoscaling: Some(AutoScalingSpec {
            enabled: true,
            ..AutoScalingSpec::schema_default()
        }),
        ..Default::default()
    };
    let errors = spec.validate().unwrap_err();
    assert!(errors
        .iter()
        .any(|e| e.contains("autoscaling.enabled is not supported")));
}

// --- spec.env ---------------------------------------------------------
//
// Every `valueFrom` shape is either mapped exactly onto the container's
// `EnvVarSource` or rejected here.

#[test]
fn test_env_literal_and_supported_value_from_shapes_validate() {
    let spec = with_env(vec![
        literal("LITERAL", "on"),
        literal("DELIBERATELY_EMPTY", ""),
        sourced("FROM_SECRET", secret("broker-auth", "password"), None),
        sourced("FROM_CONFIG_MAP", None, config_map("broker-tuning", "flags")),
    ]);
    assert!(spec.validate().is_ok(), "{:?}", spec.validate());

    assert_eq!(spec.env[0].resolve_source().unwrap(), None);
    assert_eq!(spec.env[1].resolve_source().unwrap(), None);
    assert!(matches!(
        spec.env[2].resolve_source().unwrap(),
        Some(EnvVarRef::Secret(secret)) if secret.name == "broker-auth" && secret.key == "password"
    ));
    assert!(matches!(
        spec.env[3].resolve_source().unwrap(),
        Some(EnvVarRef::ConfigMap(cm)) if cm.name == "broker-tuning" && cm.key == "flags"
    ));
}

/// An entry with neither `value` nor `valueFrom` is rejected; `value: ""` is
/// the explicit way to ask for an empty variable.
#[test]
fn test_env_entry_without_a_value_or_a_source_is_rejected() {
    let spec = with_env(vec![EnvVar {
        name: "SASL_PASSWORD".to_string(),
        value: None,
        value_from: None,
    }]);
    let errors = spec.validate().unwrap_err();
    assert!(
        errors
            .iter()
            .any(|e| e.contains("env[0]") && e.contains("must set value or valueFrom")),
        "{errors:?}"
    );
}

#[test]
fn test_env_value_and_value_from_are_mutually_exclusive() {
    let spec = with_env(vec![EnvVar {
        value: Some("literal".to_string()),
        ..sourced("SASL_PASSWORD", secret("s", "k"), None)
    }]);
    let errors = spec.validate().unwrap_err();
    assert!(
        errors.iter().any(|e| e.contains("env[0]")
            && e.contains("SASL_PASSWORD")
            && e.contains("mutually exclusive")),
        "{errors:?}"
    );
}

#[test]
fn test_env_value_from_must_declare_exactly_one_reference() {
    let empty = with_env(vec![sourced("SASL_PASSWORD", None, None)]);
    let errors = empty.validate().unwrap_err();
    assert!(
        errors
            .iter()
            .any(|e| e.contains("secretKeyRef or configMapKeyRef")),
        "{errors:?}"
    );

    let both = with_env(vec![sourced(
        "SASL_PASSWORD",
        secret("s", "k"),
        config_map("c", "k"),
    )]);
    let errors = both.validate().unwrap_err();
    assert!(
        errors.iter().any(|e| e.contains("exactly one")),
        "{errors:?}"
    );
}

#[test]
fn test_env_incomplete_references_are_rejected() {
    let cases = [
        (sourced("A", secret("", "k"), None), "valueFrom.secretKeyRef.name"),
        (sourced("A", secret("s", " "), None), "valueFrom.secretKeyRef.key"),
        (sourced("A", None, config_map("", "k")), "valueFrom.configMapKeyRef.name"),
        (sourced("A", None, config_map("c", "")), "valueFrom.configMapKeyRef.key"),
    ];

    for (entry, expected) in cases {
        let spec = with_env(vec![entry]);
        let errors = spec.validate().unwrap_err();
        assert!(
            errors.iter().any(|e| e.contains(expected)),
            "{:?} should be rejected with {expected}, got {errors:?}",
            spec.env
        );
    }
}

#[test]
fn test_env_name_must_not_be_empty() {
    let spec = with_env(vec![literal("  ", "x")]);
    let errors = spec.validate().unwrap_err();
    assert!(
        errors
            .iter()
            .any(|e| e.contains("env[0]") && e.contains("name must not be empty")),
        "{errors:?}"
    );
}

// --- Scheduling -------------------------------------------------------
//
// The pod template renders `nodeSelector` and nothing else.

#[test]
fn test_pod_anti_affinity_defaults_to_false_and_is_rejected_when_enabled() {
    let default_spec = ClusterSpec::default();
    assert!(
        !default_spec.pod_anti_affinity,
        "the default must be a setting the operator can honour"
    );
    assert!(default_spec.validate().is_ok());

    let enabled = ClusterSpec {
        pod_anti_affinity: true,
        ..Default::default()
    };
    let errors = enabled.validate().unwrap_err();
    assert!(
        errors
            .iter()
            .any(|e| e.contains("podAntiAffinity is not supported")),
        "{errors:?}"
    );
}

#[test]
fn test_rack_awareness_is_rejected_only_when_enabled() {
    let rack = |enabled| ClusterSpec {
        rack_awareness: Some(RackAwareness {
            enabled,
            topology_key: "topology.kubernetes.io/zone".to_string(),
        }),
        ..Default::default()
    };
    let errors = rack(true).validate().unwrap_err();
    assert!(
        errors
            .iter()
            .any(|e| e.contains("rackAwareness.enabled is not supported")),
        "{errors:?}"
    );

    let disabled = rack(false);
    assert!(disabled.validate().is_ok(), "{:?}", disabled.validate());
}

#[test]
fn test_tolerations_are_rejected_when_present() {
    let spec = ClusterSpec {
        tolerations: vec![Toleration {
            key: Some("dedicated".to_string()),
            operator: Some("Equal".to_string()),
            value: Some("streamline".to_string()),
            effect: Some("NoSchedule".to_string()),
            toleration_seconds: None,
        }],
        ..Default::default()
    };
    let errors = spec.validate().unwrap_err();
    assert!(
        errors
            .iter()
            .any(|e| e.contains("tolerations are not supported")),
        "{errors:?}"
    );

    let empty = ClusterSpec {
        tolerations: vec![],
        ..Default::default()
    };
    assert!(empty.validate().is_ok());
}

/// `nodeSelector` *is* rendered, so it must keep validating.
#[test]
fn test_node_selector_remains_supported() {
    let spec = ClusterSpec {
        node_selector: vec![KeyValue::new("disktype", "ssd")],
        ..Default::default()
    };
    assert!(spec.validate().is_ok(), "{:?}", spec.validate());
    assert_eq!(
        spec.node_selector
            .iter()
            .find(|e| e.key == "disktype")
            .map(|e| e.value.as_str()),
        Some("ssd")
    );
}

#[test]
fn test_supported_tls_config_validates() {
    let spec = ClusterSpec {
        tls: Some(ClusterTls {
            mtls_enabled: true,
            ca_secret_name: Some("ca".to_string()),
            ..tls("certs")
        }),
        ..Default::default()
    };
    assert!(spec.validate().is_ok());
}

#[test]
fn test_cluster_spec_validate_defaults_pass() {
    let spec = ClusterSpec::default();
    assert!(spec.validate().is_ok());
}

#[test]
fn test_cluster_spec_validate_negative_replicas() {
    let spec = ClusterSpec {
        replicas: -1,
        ..Default::default()
    };
    let result = spec.validate();
    assert!(result.is_err());
    assert!(result.unwrap_err()[0].contains("replicas must be >= 1"));
}

#[test]
fn test_cluster_spec_rejects_multiple_standalone_brokers() {
    let spec = ClusterSpec {
        replicas: 3,
        ..Default::default()
    };
    let result = spec.validate();
    assert!(result.is_err());
    assert!(result.unwrap_err()[0].contains("does not bootstrap Streamline raft peers"));
}

#[test]
fn test_cluster_spec_validate_duplicate_ports() {
    let spec = ClusterSpec {
        kafka_port: 9092,
        http_port: 9092,
        ..Default::default()
    };
    let result = spec.validate();
    assert!(result.is_err());
    assert!(result.unwrap_err()[0].contains("must all be different"));
}

#[test]
fn test_cluster_spec_validate_invalid_port() {
    let spec = ClusterSpec {
        kafka_port: 99999,
        ..Default::default()
    };
    let result = spec.validate();
    assert!(result.is_err());
}

#[test]
fn test_cluster_phase_default() {
    let phase = ClusterPhase::default();
    assert_eq!(phase, ClusterPhase::Pending);
}

#[test]
fn test_cluster_storage_defaults() {
    let storage = ClusterStorage::default();
    assert_eq!(storage.size, "10Gi");
    assert_eq!(storage.access_modes, vec!["ReadWriteOnce"]);
}

#[test]
fn legacy_replicas_are_rejected_with_the_patch_that_fixes_them() {
    let legacy = ClusterSpec {
        replicas: 3,
        pod_anti_affinity: true,
        ..Default::default()
    };
    let errors = legacy.validate().unwrap_err();
    assert_eq!(errors.len(), 2);
    assert!(errors.iter().all(|e| e.contains("v0.3.0")), "{errors:?}");
    let deliberate = ClusterSpec {
        replicas: 5,
        ..Default::default()
    };
    let errors = deliberate.validate().unwrap_err();
    assert!(!errors[0].contains("v0.3.0"), "{errors:?}");
}

#[test]
fn mutual_tls_needs_a_ca_secret_that_can_be_mounted() {
    for name in ["", "  \t"] {
        let spec = ClusterSpec {
            tls: Some(ClusterTls {
                mtls_enabled: true,
                ca_secret_name: Some(name.to_string()),
                ..tls("certs")
            }),
            ..Default::default()
        };
        let errors = spec.validate().unwrap_err();
        assert_eq!(errors.len(), 1);
        assert!(errors[0].contains("tls.caSecretName"), "{errors:?}");
    }
    // A CA that nothing asks for is not looked at.
    let one_sided = ClusterSpec {
        tls: Some(ClusterTls {
            ca_secret_name: Some(String::new()),
            ..tls("certs")
        }),
        ..Default::default()
    };
    assert!(one_sided.validate().is_ok());
}

#[test]
fn skipping_verification_is_rejected_with_tls_or_without() {
    for enabled in [true, false] {
        let spec = ClusterSpec {
            tls: Some(ClusterTls {
                enabled,
                insecure_skip_verify: true,
                ..tls("certs")
            }),
            ..Default::default()
        };
        let errors = spec.validate().unwrap_err();
        assert_eq!(errors.len(), 1);
        assert!(errors[0].contains("insecureSkipVerify"), "{errors:?}");
    }
    let both = ClusterSpec {
        tls: Some(ClusterTls {
            enabled: false,
            mtls_enabled: true,
            insecure_skip_verify: true,
            ..tls("certs")
        }),
        ..Default::default()
    };
    let errors = both.validate().unwrap_err();
    assert_eq!(errors.len(), 2);
    assert_eq!(errors[0], "tls.mtlsEnabled requires tls.enabled to be true");
    assert!(errors[1].contains("insecureSkipVerify"), "{errors:?}");
}
