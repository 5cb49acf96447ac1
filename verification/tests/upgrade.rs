use streamline_operator::upgrade::{
    legacy_default, legacy_defaults, remediation_for, remediation_for_value, LegacyDefault,
    DOCS_NAMESPACE, LEGACY_CLUSTER_REPLICAS, LEGACY_POD_ANTI_AFFINITY,
    LEGACY_TOPIC_MAX_MESSAGE_BYTES, LEGACY_TOPIC_MIN_INSYNC_REPLICAS,
    LEGACY_TOPIC_REPLICATION_FACTOR, LEGACY_TOPIC_RETENTION_MS, REMOVED_VALUE,
    SUPPORTED_CLUSTER_REPLICAS, SUPPORTED_POD_ANTI_AFFINITY, SUPPORTED_TOPIC_REPLICATION_FACTOR,
    SUPPORTED_TOPIC_RETENTION_MS, UPGRADE_GUIDE,
};

#[test]
fn the_table_matches_the_typed_constants() {
    let replicas = legacy_default("spec.replicas").expect("spec.replicas is tabled");
    assert_eq!(replicas.legacy_value, LEGACY_CLUSTER_REPLICAS.to_string());
    assert_eq!(
        replicas.supported_value,
        SUPPORTED_CLUSTER_REPLICAS.to_string()
    );

    let affinity =
        legacy_default("spec.podAntiAffinity").expect("spec.podAntiAffinity is tabled");
    assert_eq!(affinity.legacy_value, LEGACY_POD_ANTI_AFFINITY.to_string());
    assert_eq!(
        affinity.supported_value,
        SUPPORTED_POD_ANTI_AFFINITY.to_string()
    );

    let replication =
        legacy_default("spec.replicationFactor").expect("spec.replicationFactor is tabled");
    assert_eq!(
        replication.legacy_value,
        LEGACY_TOPIC_REPLICATION_FACTOR.to_string()
    );
    assert_eq!(
        replication.supported_value,
        SUPPORTED_TOPIC_REPLICATION_FACTOR.to_string()
    );

    let retention =
        legacy_default("spec.retention.retentionMs").expect("retentionMs is tabled");
    assert_eq!(
        retention.legacy_value,
        LEGACY_TOPIC_RETENTION_MS.to_string()
    );
    assert_eq!(
        retention.supported_value,
        SUPPORTED_TOPIC_RETENTION_MS.to_string()
    );

    let min_isr =
        legacy_default("spec.config.minInsyncReplicas").expect("minInsyncReplicas is tabled");
    assert_eq!(
        min_isr.legacy_value,
        LEGACY_TOPIC_MIN_INSYNC_REPLICAS.to_string()
    );
    assert_eq!(min_isr.supported_value, REMOVED_VALUE);

    let max_bytes =
        legacy_default("spec.config.maxMessageBytes").expect("maxMessageBytes is tabled");
    assert_eq!(
        max_bytes.legacy_value,
        LEGACY_TOPIC_MAX_MESSAGE_BYTES.to_string()
    );
    assert_eq!(max_bytes.supported_value, REMOVED_VALUE);
}

#[test]
fn every_entry_changes_the_field_it_names() {
    for entry in legacy_defaults() {
        assert_ne!(
            entry.legacy_value, entry.supported_value,
            "{} would be a no-op",
            entry.field
        );
        assert!(
            entry.merge_patch.contains(entry.key),
            "the patch for {} must name the field it sets",
            entry.field
        );
        assert!(
            entry.merge_patch.contains(entry.supported_value),
            "the patch for {} must set the supported value",
            entry.field
        );
        assert!(
            entry.field.ends_with(entry.key),
            "{} and {} describe different fields",
            entry.field,
            entry.key
        );
        if let Some(parent) = entry.parent {
            assert_eq!(
                entry.field,
                format!("{parent}.{}", entry.key),
                "{} must sit directly inside the block it names",
                entry.field
            );
        }
    }
}

/// A patch that nulls the *block* would delete every sibling setting in it.
/// Removals must reach the leaf and nothing else.
#[test]
fn removals_null_the_leaf_and_never_the_block() {
    for entry in legacy_defaults().iter().filter(|e| e.removes_the_key()) {
        let parent = entry.parent.unwrap_or_else(|| {
            panic!("{} removes a key, so it must name its block", entry.field)
        });
        let block = parent
            .rsplit('.')
            .next()
            .expect("a parent path always has a last segment");

        assert!(
            entry
                .merge_patch
                .contains(&format!(r#""{}":null"#, entry.key)),
            "{} must be nulled by name: {}",
            entry.field,
            entry.merge_patch
        );
        assert!(
            !entry.merge_patch.contains(&format!(r#""{block}":null"#)),
            "{} must not null the whole {parent} block: {}",
            entry.field,
            entry.merge_patch
        );
        assert!(
            entry.merge_patch.contains(&format!(r#""{block}":{{"#)),
            "{} must patch inside {parent}, so siblings survive: {}",
            entry.field,
            entry.merge_patch
        );
        assert!(
            entry.needs_corrected_crds_first(),
            "a removal is undone by v0.3.0 defaulting, so {} must say so",
            entry.field
        );
    }

    assert!(
        legacy_defaults().iter().any(LegacyDefault::removes_the_key),
        "the two spec.config leaves accept no value, so removal must be tabled"
    );
    assert!(
        legacy_defaults()
            .iter()
            .any(|e| !e.needs_corrected_crds_first()),
        "value assignments need no CRD ordering; the flag must not be universal"
    );
}

#[test]
fn patch_commands_are_namespace_aware() {
    for entry in legacy_defaults() {
        let command = entry.patch_command("my-resource", DOCS_NAMESPACE);
        assert!(
            command.contains(&format!("-n {DOCS_NAMESPACE}")),
            "a patch without a namespace targets whatever kubectl defaults to: {command}"
        );
        assert!(command.contains("--type merge"), "{command}");
        assert!(command.contains(entry.resource), "{command}");
    }
}

#[test]
fn remediation_claims_v0_3_0_provenance_only_for_the_legacy_value() {
    let replicas = legacy_default("spec.replicas").expect("spec.replicas is tabled");

    let legacy = replicas.remediation(true);
    assert!(legacy.contains("v0.3.0"), "{legacy}");
    assert!(legacy.contains(UPGRADE_GUIDE), "{legacy}");
    assert!(legacy.contains("spec.replicas: 1"), "{legacy}");
    assert!(legacy.contains(r#"{"spec":{"replicas":1}}"#), "{legacy}");

    // A hand-written `replicas: 5` did not come from an upgrade, so the
    // message must not blame one — but it still has to say what to do.
    let deliberate = replicas.remediation(false);
    assert!(!deliberate.contains("v0.3.0"), "{deliberate}");
    assert!(deliberate.contains(UPGRADE_GUIDE), "{deliberate}");
    assert!(deliberate.contains("spec.replicas: 1"), "{deliberate}");
}

/// A nested default was only injected where the block existed. Claiming it
/// landed in every resource would send readers hunting through topics that
/// never had the field.
#[test]
fn nested_provenance_names_the_block_that_had_to_exist() {
    let min_isr =
        legacy_default("spec.config.minInsyncReplicas").expect("minInsyncReplicas is tabled");
    let message = min_isr.remediation(true);

    assert!(message.contains("spec.config"), "{message}");
    assert!(message.contains("only"), "{message}");
    assert!(
        !message.contains("created against those CRDs"),
        "the top-level wording overclaims for a nested default: {message}"
    );
    assert!(message.contains("does not rewrite specs"), "{message}");
}

/// Removals have to say both what to write and when it takes effect: a
/// removal applied under the v0.3.0 CRDs is silently undone.
#[test]
fn a_removal_explains_the_null_and_the_crd_ordering() {
    for entry in legacy_defaults().iter().filter(|e| e.removes_the_key()) {
        let message = entry.remediation(true);

        assert!(
            message.contains(&entry.supported_yaml()),
            "the reader must be told what to write: {message}"
        );
        assert!(
            message.contains("Remove the key"),
            "`null` alone does not read as a deletion: {message}"
        );
        assert!(
            message.contains("leaves every other"),
            "the reader must know siblings survive: {message}"
        );
        assert!(
            message.contains("corrected CRDs are installed"),
            "a removal under the old CRDs is undone; say so: {message}"
        );
        assert!(message.contains(entry.merge_patch), "{message}");
    }
}

#[test]
fn value_lookup_decides_provenance_from_the_observed_value() {
    assert!(
        remediation_for_value("spec.retention.retentionMs", "604800000").contains("v0.3.0")
    );
    assert!(!remediation_for_value("spec.retention.retentionMs", "3600000").contains("v0.3.0"));
    assert!(
        remediation_for_value("spec.retention.retentionMs", "3600000")
            .contains("spec.retention.retentionMs: -1"),
        "a deliberate value still needs the fix"
    );
    assert!(
        remediation_for_value("spec.config.segmentBytes", "1024").is_empty(),
        "a field that was never a v0.3.0 default must add nothing"
    );
}

#[test]
fn each_entry_is_found_by_its_field() {
    let table = legacy_defaults();
    assert_eq!(table.len(), 6);
    for entry in &table {
        assert_eq!(legacy_default(entry.field).as_ref(), Some(entry));
        assert_eq!(remediation_for(entry.field, true), entry.remediation(true));
        assert!(remediation_for_value(entry.field, entry.legacy_value).contains("v0.3.0"));
    }
    assert!(legacy_default("spec.image").is_none());
    assert_eq!(remediation_for("spec.image", true), "");
}

#[test]
fn a_patch_command_is_spelled_out() {
    let replicas = legacy_default("spec.replicas").unwrap();
    assert_eq!(
        replicas.patch_command("orders", "prod"),
        r#"kubectl patch streamlineclusters orders -n prod --type merge -p '{"spec":{"replicas":1}}'"#
    );
    assert_eq!(
        replicas.patch_template(),
        r#"kubectl patch streamlineclusters <name> -n <namespace> --type merge -p '{"spec":{"replicas":1}}'"#
    );
    assert_eq!(replicas.legacy_yaml(), "spec.replicas: 3");
    assert_eq!(replicas.supported_yaml(), "spec.replicas: 1");
    assert!(replicas.observed_is_legacy("3"));
    assert!(!replicas.observed_is_legacy("03"));
}

#[test]
fn a_remedy_says_only_what_is_true() {
    for entry in &legacy_defaults() {
        for legacy in [true, false] {
            let remedy = entry.remediation(legacy);
            let removes = entry.removes_the_key();
            assert_eq!(remedy.contains("does not rewrite specs"), legacy);
            assert_eq!(
                remedy.contains("created against those CRDs"),
                legacy && entry.parent.is_none()
            );
            assert_eq!(remedy.contains("Remove the key"), removes);
            assert_eq!(remedy.contains("corrected CRDs are installed"), removes);
        }
    }
}
