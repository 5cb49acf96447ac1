use serde_json::Value;
use streamline_operator::conditions::{
    CONDITION_TRUE, CONDITION_UNKNOWN, TOPIC_CONDITION_READY, TOPIC_CONDITION_SYNCED,
};
use streamline_operator::controllers::topic::{
    evaluate_sync, parse_topic_state, state_of_reading, unsupported_fields, ServerReply,
    SyncOutcome, TopicDecision, TopicReading, TopicReport, TopicServerState,
};
use streamline_operator::controllers::{NextReconcile, ReconcileVerdict, TopicController};
use streamline_operator::crd::TopicPhase;
use streamline_operator::objects::KeyValue;
use streamline_operator::upgrade::{legacy_default, UPGRADE_GUIDE};
use streamline_operator::{
    ClusterSpec, ClusterStatus, StreamlineCluster, StreamlineTopic, TopicSpec,
};

/// Build a topic specification from a JSON fragment; defaults fill the rest.
fn spec(json: &str) -> TopicSpec {
    let value: Value = serde_json::from_str(json).unwrap();
    let narrow = |v: &Value| i32::try_from(v.as_i64().unwrap()).unwrap();
    let mut spec = TopicSpec::new(value["clusterRef"].as_str().unwrap());
    if let Some(v) = value.get("partitions") {
        spec.partitions = narrow(v);
    }
    if let Some(v) = value.get("replicationFactor") {
        spec.replication_factor = narrow(v);
    }
    if let Some(v) = value.pointer("/retention/retentionMs") {
        spec.retention.retention_ms = v.as_i64().unwrap();
    }
    if let Some(v) = value.pointer("/retention/retentionBytes") {
        spec.retention.retention_bytes = v.as_i64().unwrap();
    }
    if let Some(v) = value.pointer("/retention/cleanupPolicy") {
        spec.retention.cleanup_policy = v.as_str().unwrap().to_string();
    }
    if let Some(v) = value.pointer("/compression/type") {
        spec.compression.type_ = v.as_str().unwrap().to_string();
    }
    if let Some(v) = value.pointer("/config/minInsyncReplicas") {
        spec.config.min_insync_replicas = Some(narrow(v));
    }
    spec.config.max_message_bytes = number(&value, "/config/maxMessageBytes");
    spec.config.segment_bytes = number(&value, "/config/segmentBytes");
    spec.config.index_interval_bytes = number(&value, "/config/indexIntervalBytes");
    spec.config.flush_interval_ms = number(&value, "/config/flushIntervalMs");
    spec.config.flush_messages = number(&value, "/config/flushMessages");
    if let Some(Value::Object(custom)) = value.pointer("/config/custom") {
        spec.config.custom = custom
            .iter()
            .map(|(key, v)| KeyValue::new(key, v.as_str().unwrap()))
            .collect();
    }
    spec
}

fn number(value: &Value, pointer: &str) -> Option<i64> {
    value.pointer(pointer).map(|v| v.as_i64().unwrap())
}

#[test]
fn default_spec_is_supported() {
    assert!(unsupported_fields(&spec(r#"{"clusterRef": "c"}"#)).is_empty());
}

#[test]
fn replication_factor_above_one_is_rejected() {
    let unsupported =
        unsupported_fields(&spec(r#"{"clusterRef": "c", "replicationFactor": 3}"#));
    assert_eq!(unsupported.len(), 1);
    assert!(unsupported[0].contains("replicationFactor=3"));
}

#[test]
fn any_min_insync_replicas_is_rejected() {
    // Even `1` is a request the server cannot honour: it applies no topic
    // config at all, so accepting the field would imply an ISR guarantee
    // that is never configured.
    for value in [1, 2, 3] {
        let unsupported = unsupported_fields(&spec(&format!(
            r#"{{"clusterRef": "c", "config": {{"minInsyncReplicas": {value}}}}}"#
        )));
        assert!(
            unsupported
                .iter()
                .any(|m| m.contains("config.minInsyncReplicas")),
            "minInsyncReplicas={value} must be rejected"
        );
    }
}

// --- Settings the core API silently discards --------------------------
//
// `POST /api/v1/topics` deserialises into `{ name, partitions }`. Any other
// field would be dropped by the server, and a `Ready` topic would promise
// retention, compaction and compression that the broker does not apply.

#[test]
fn non_default_retention_is_rejected_before_any_api_call() {
    for (field, json) in [
        (
            "retention.retentionMs",
            r#"{"clusterRef": "c", "retention": {"retentionMs": 3600000}}"#,
        ),
        (
            "retention.retentionBytes",
            r#"{"clusterRef": "c", "retention": {"retentionBytes": 1073741824}}"#,
        ),
        (
            "retention.cleanupPolicy",
            r#"{"clusterRef": "c", "retention": {"cleanupPolicy": "compact"}}"#,
        ),
    ] {
        let unsupported = unsupported_fields(&spec(json));
        assert!(
            unsupported.iter().any(|m| m.contains(field)),
            "{field} must be rejected, got {unsupported:?}"
        );
    }
}

#[test]
fn non_default_compression_is_rejected() {
    let unsupported = unsupported_fields(&spec(
        r#"{"clusterRef": "c", "compression": {"type": "lz4"}}"#,
    ));
    assert!(unsupported.iter().any(|m| m.contains("compression.type")));
}

#[test]
fn every_topic_config_override_is_rejected() {
    for (field, json) in [
        (
            "config.maxMessageBytes",
            r#"{"clusterRef": "c", "config": {"maxMessageBytes": 1048576}}"#,
        ),
        (
            "config.segmentBytes",
            r#"{"clusterRef": "c", "config": {"segmentBytes": 1048576}}"#,
        ),
        (
            "config.indexIntervalBytes",
            r#"{"clusterRef": "c", "config": {"indexIntervalBytes": 4096}}"#,
        ),
        (
            "config.flushIntervalMs",
            r#"{"clusterRef": "c", "config": {"flushIntervalMs": 1000}}"#,
        ),
        (
            "config.flushMessages",
            r#"{"clusterRef": "c", "config": {"flushMessages": 10000}}"#,
        ),
        (
            "config.custom[min.cleanable.dirty.ratio]",
            r#"{"clusterRef": "c", "config": {"custom": {"min.cleanable.dirty.ratio": "0.5"}}}"#,
        ),
    ] {
        let unsupported = unsupported_fields(&spec(json));
        assert!(
            unsupported.iter().any(|m| m.contains(field)),
            "{field} must be rejected, got {unsupported:?}"
        );
    }
}

/// The rejection message has to say *why*, or an operator sees a Failed
/// topic with no idea that the field is inert rather than malformed.
#[test]
fn rejection_messages_explain_that_the_server_applies_no_config() {
    let unsupported = unsupported_fields(&spec(
        r#"{"clusterRef": "c", "retention": {"cleanupPolicy": "compact"}}"#,
    ));
    let message = unsupported.join("; ");
    assert!(message.contains("only name and partitions"), "{message}");
    assert!(message.contains("silently discarded"), "{message}");
}

/// Explicitly restating a schema default is not a request for anything, so
/// it must not be rejected — otherwise a round-tripped resource (which
/// serialises every field) could never be applied.
#[test]
fn explicitly_specified_defaults_are_accepted() {
    let defaults = TopicSpec::config_defaults();
    let json = format!(
        r#"{{"clusterRef": "c", "partitions": 3, "replicationFactor": 1,
             "retention": {{"retentionMs": {}, "retentionBytes": {}, "cleanupPolicy": "{}"}},
             "compression": {{"type": "{}"}}}}"#,
        defaults.retention_ms,
        defaults.retention_bytes,
        defaults.cleanup_policy,
        defaults.compression_type,
    );
    assert!(unsupported_fields(&spec(&json)).is_empty());
}

#[test]
fn non_positive_partition_counts_are_rejected() {
    let unsupported = unsupported_fields(&spec(r#"{"clusterRef": "c", "partitions": 0}"#));
    assert!(unsupported
        .iter()
        .any(|m| m.contains("partitions must be >= 1")));
}

#[test]
fn server_state_is_parsed_from_flat_and_wrapped_bodies() {
    assert_eq!(
        parse_topic_state(r#"{"partitions": 6, "replication_factor": 1}"#),
        TopicServerState {
            partitions: Some(6),
            replication_factor: Some(1),
        }
    );
    assert_eq!(
        parse_topic_state(r#"{"topic": {"partitionCount": 2}}"#),
        TopicServerState {
            partitions: Some(2),
            replication_factor: None,
        }
    );
}

#[test]
fn server_state_uses_partition_count_when_partitions_is_an_array() {
    // This mirrors the core server's TopicDetails response: `partitions`
    // is a detail array and the numeric count lives in `partition_count`.
    assert_eq!(
        parse_topic_state(
            r#"{
                "name": "events",
                "partition_count": 3,
                "partitions": [{"id": 0}, {"id": 1}, {"id": 2}],
                "replication_factor": 1
            }"#
        ),
        TopicServerState {
            partitions: Some(3),
            replication_factor: Some(1),
        }
    );
}

#[test]
fn unparseable_or_empty_bodies_report_nothing() {
    assert_eq!(parse_topic_state(""), TopicServerState::default());
    assert_eq!(parse_topic_state("not json"), TopicServerState::default());
    assert_eq!(parse_topic_state("{}"), TopicServerState::default());
}

/// The exact body core returns from `POST /api/v1/topics` (its
/// `TopicDetails`): `config` is empty on create, `replication_factor` is
/// hard-coded to 1, and `partitions` is a detail array.
fn core_create_response(name: &str, partitions: i32) -> String {
    core_response(name, partitions, "{}")
}

fn core_response(name: &str, partitions: i32, config: &str) -> String {
    let details: Vec<String> = (0..partitions)
        .map(|p| {
            format!(
                r#"{{"partition_id":{p},"leader":1,"replicas":[1],"isr":[1],"start_offset":0,"end_offset":0,"size_bytes":0}}"#
            )
        })
        .collect();
    format!(
        r#"{{"name":"{name}","partition_count":{partitions},"replication_factor":1,"is_internal":false,"partitions":[{}],"config":{config},"total_messages":0,"total_bytes":0,"messages_per_second":0.0,"bytes_per_second":0.0}}"#,
        details.join(",")
    )
}

/// The body core returns from `GET /api/v1/topics/{name}`: `config` holds
/// the **server's** defaults, which have nothing to do with the CRD's.
fn core_get_response(name: &str, partitions: i32) -> String {
    core_response(
        name,
        partitions,
        r#"{"retention.ms":"-1","retention.bytes":"-1","segment.bytes":"104857600","cleanup.policy":"delete","message.ttl.ms":"-1"}"#,
    )
}

#[test]
fn core_create_response_is_parsed_into_verifiable_state() {
    assert_eq!(
        parse_topic_state(&core_create_response("events", 3)),
        TopicServerState {
            partitions: Some(3),
            replication_factor: Some(1),
        }
    );
}

#[test]
fn core_get_response_is_parsed_into_verifiable_state() {
    assert_eq!(
        parse_topic_state(&core_get_response("events", 6)),
        TopicServerState {
            partitions: Some(6),
            replication_factor: Some(1),
        }
    );
}

/// The server's `config` map reports the *server's* settings, not the
/// operator's request, so it must never be folded into the sync verdict.
///
/// The CRD default and the server now agree on unlimited retention, so
/// equality alone can no longer prove anything here. The fixture instead
/// makes the server report a retention and a cleanup policy the spec never
/// asked for, and shows neither reaches the parsed state or the status.
#[test]
fn the_servers_own_config_defaults_are_not_treated_as_spec_agreement() {
    let requested = spec(r#"{"clusterRef": "c", "partitions": 6}"#);
    assert!(
        core_get_response("events", 6).contains(r#""retention.ms":"-1""#),
        "fixture must carry the server's own retention default"
    );
    assert_eq!(
        requested.retention.retention_ms, -1,
        "the CRD default now states what the server actually does"
    );

    // Report config that contradicts the spec outright: if the map were
    // ever consulted, this is what would leak into the status.
    let body = core_get_response("events", 6)
        .replace(r#""retention.ms":"-1""#, r#""retention.ms":"604800000""#)
        .replace(r#""cleanup.policy":"delete""#, r#""cleanup.policy":"compact""#);

    let state = parse_topic_state(&body);
    // Only partitions and replication factor are carried forward, so no
    // retention claim of any kind can reach the status.
    assert_eq!(state.partitions, Some(6));
    assert_eq!(state.replication_factor, Some(1));

    let status = TopicController::ready_status(&topic(r#"{"clusterRef": "c"}"#), state, true);
    let rendered = format!("{status:?}");
    assert!(
        !rendered.contains("604800000") && !rendered.contains("compact"),
        "the server's config map must not reach the status: {rendered}"
    );

    let synced = status
        .conditions
        .iter()
        .find(|c| c.type_ == TOPIC_CONDITION_SYNCED)
        .expect("Synced condition");
    let message = synced.message.clone().unwrap_or_default();
    assert!(
        message.contains("partition count and replication factor"),
        "the Synced message must scope its claim: {message}"
    );
    assert!(
        message.contains("No other topic configuration is applied"),
        "the Synced message must disclaim unapplied config: {message}"
    );
}

/// Characterization: the operator never claims a seven-day retention
/// policy, on any path.
///
/// The default says "unlimited", which is what the broker does, and asking for
/// seven days is rejected with an explanation.
#[test]
fn the_operator_never_claims_a_seven_day_retention_policy() {
    const SEVEN_DAYS_MS: i64 = 604_800_000;

    // 1. A default spec asks for nothing, is accepted, and is unlimited.
    let default_spec = spec(r#"{"clusterRef": "c"}"#);
    assert_eq!(
        default_spec.retention.retention_ms, -1,
        "the default must describe the broker's actual behaviour"
    );
    assert_ne!(default_spec.retention.retention_ms, SEVEN_DAYS_MS);
    assert!(
        unsupported_fields(&default_spec).is_empty(),
        "a default spec requests nothing the server cannot do"
    );

    // 2. Nothing the operator publishes for it claims a seven-day window.
    let state = parse_topic_state(&core_create_response("events", 3));
    let status = TopicController::ready_status(&topic(r#"{"clusterRef": "c"}"#), state, true);
    let rendered = format!("{status:?}").to_ascii_lowercase();
    for claim in ["604800000", "7 days", "seven days", "7-day", "seven-day"] {
        assert!(
            !rendered.contains(claim),
            "the published status claims `{claim}`, a retention the server never \
             applies: {rendered}"
        );
    }

    // 3. Explicitly asking for the old default is still fail-closed: the
    //    server applies no retention, so accepting it would re-create
    //    exactly the promise this fix removed.
    let explicit = spec(&format!(
        r#"{{"clusterRef": "c", "retention": {{"retentionMs": {SEVEN_DAYS_MS}}}}}"#
    ));
    let unsupported = unsupported_fields(&explicit);
    let message = unsupported.join("; ");
    assert!(
        message.contains("retention.retentionMs"),
        "an explicit seven-day retention must be rejected, got {unsupported:?}"
    );
    assert!(
        message.contains(&SEVEN_DAYS_MS.to_string()),
        "the rejection must quote what was asked for: {message}"
    );
    assert!(
        message.contains("leave it at the default -1"),
        "the rejection must point at the unlimited default: {message}"
    );
}

/// The three v0.3.0 topic defaults must each be rejected *with the patch
/// that clears them*, or a user reading a `Failed` status learns only that
/// something is wrong.
#[test]
fn v0_3_0_topic_defaults_are_rejected_with_their_patch() {
    for (field, json) in [
        (
            "spec.retention.retentionMs",
            r#"{"clusterRef": "c", "retention": {"retentionMs": 604800000}}"#,
        ),
        (
            "spec.config.minInsyncReplicas",
            r#"{"clusterRef": "c", "config": {"minInsyncReplicas": 1}}"#,
        ),
        (
            "spec.config.maxMessageBytes",
            r#"{"clusterRef": "c", "config": {"maxMessageBytes": 1048576}}"#,
        ),
    ] {
        let entry = legacy_default(field)
            .unwrap_or_else(|| panic!("{field} must be in the upgrade table"));
        let unsupported = unsupported_fields(&spec(json));
        let message = unsupported.join("; ");

        assert!(
            message.contains(&entry.supported_yaml()),
            "{field}: the rejection must name the value to write: {message}"
        );
        assert!(
            message.contains(entry.merge_patch),
            "{field}: the rejection must carry the patch: {message}"
        );
        assert!(
            message.contains(UPGRADE_GUIDE),
            "{field}: the rejection must cite the guide: {message}"
        );
        assert!(
            message.contains("v0.3.0") && message.contains("persisted"),
            "{field}: the stored value came from the old schema; say so: {message}"
        );
    }
}

/// Remediation must not turn an explicit, deliberate value into a message
/// that blames an upgrade — and must not go missing either.
///
/// "Blaming" is the provenance claim (*the API server persisted this into
/// your resource*), not any mention of v0.3.0: a removal has to state that
/// the old CRDs default the key back, because that is true whoever wrote
/// the value.
#[test]
fn a_deliberate_topic_value_is_rejected_without_blaming_the_upgrade() {
    let message = unsupported_fields(&spec(
        r#"{"clusterRef": "c", "retention": {"retentionMs": 3600000},
            "config": {"minInsyncReplicas": 3}}"#,
    ))
    .join("; ");

    assert!(
        message.contains("retention.retentionMs=3600000"),
        "{message}"
    );
    assert!(message.contains("config.minInsyncReplicas=3"), "{message}");
    for blame in [
        "persisted into every",
        "without anyone having written it",
        "does not rewrite specs",
    ] {
        assert!(
            !message.contains(blame),
            "neither value came from an upgrade, so `{blame}` is false here: {message}"
        );
    }
    assert!(
        message.contains("spec.retention.retentionMs: -1")
            && message.contains("spec.config.minInsyncReplicas: null"),
        "a deliberate value still needs an actionable fix: {message}"
    );
}

/// Fields that were never v0.3.0 defaults must keep the plain message: an
/// upgrade patch appended to `segmentBytes` would be an invented fix.
#[test]
fn settings_that_were_never_legacy_defaults_get_no_upgrade_patch() {
    for json in [
        r#"{"clusterRef": "c", "config": {"segmentBytes": 1048576}}"#,
        r#"{"clusterRef": "c", "compression": {"type": "lz4"}}"#,
        r#"{"clusterRef": "c", "retention": {"cleanupPolicy": "compact"}}"#,
    ] {
        let message = unsupported_fields(&spec(json)).join("; ");
        assert!(!message.is_empty(), "{json} must still be rejected");
        assert!(
            !message.contains("kubectl patch"),
            "no upgrade patch exists for this field: {message}"
        );
        assert!(
            !message.contains(UPGRADE_GUIDE),
            "the upgrade guide does not cover this field: {message}"
        );
    }
}

#[test]
fn matching_server_state_is_in_sync() {
    let spec = spec(r#"{"clusterRef": "c", "partitions": 3}"#);
    let state = parse_topic_state(&core_create_response("events", 3));
    assert_eq!(evaluate_sync(&spec, state), SyncOutcome::InSync(state));
}

/// A half-answer is not agreement: claiming `Synced=True` from a partial
/// response asserts a replication factor the server never reported.
#[test]
fn a_partially_reported_topic_is_unverified_not_in_sync() {
    let spec = spec(r#"{"clusterRef": "c", "partitions": 3}"#);

    assert_eq!(
        evaluate_sync(
            &spec,
            TopicServerState {
                partitions: Some(3),
                replication_factor: None,
            }
        ),
        SyncOutcome::Unverified
    );
    assert_eq!(
        evaluate_sync(
            &spec,
            TopicServerState {
                partitions: None,
                replication_factor: Some(1),
            }
        ),
        SyncOutcome::Unverified
    );
}

/// Drift still wins over an incomplete answer: a wrong partition count is
/// an error even when the replication factor is missing.
#[test]
fn partial_but_conflicting_state_is_drift() {
    let spec = spec(r#"{"clusterRef": "c", "partitions": 6}"#);
    let state = TopicServerState {
        partitions: Some(1),
        replication_factor: None,
    };
    assert!(matches!(evaluate_sync(&spec, state), SyncOutcome::Drift(_)));
}

#[test]
fn mismatched_server_state_is_drift_not_ready() {
    let spec = spec(r#"{"clusterRef": "c", "partitions": 6}"#);
    let state = TopicServerState {
        partitions: Some(1),
        replication_factor: None,
    };
    match evaluate_sync(&spec, state) {
        SyncOutcome::Drift(message) => {
            assert!(message.contains("1 partitions"));
            assert!(message.contains("6"));
        }
        other => panic!("expected drift, got {other:?}"),
    }
}

#[test]
fn silent_server_leaves_sync_unverified() {
    let spec = spec(r#"{"clusterRef": "c"}"#);
    assert_eq!(
        evaluate_sync(&spec, TopicServerState::default()),
        SyncOutcome::Unverified
    );
}

// --- Status stability -------------------------------------------------
//
// A status patch generates a watch event for the same object. If the
// controller rebuilds `lastUpdated` and every condition timestamp on each
// pass, the patch is never a no-op and the controller re-triggers itself
// forever. These tests pin the fail-closed and in-sync paths to a status
// that compares equal when nothing changed.

fn topic(json: &str) -> StreamlineTopic {
    let mut topic = StreamlineTopic::new("events", spec(json));
    topic.metadata.namespace = Some("streamline".to_string());
    topic.metadata.generation = Some(1);
    topic
}

#[test]
fn topic_repeated_unsupported_status_is_stable() {
    let mut resource = topic(r#"{"clusterRef": "c", "replicationFactor": 3}"#);
    let message = "replicationFactor=3 is not supported";

    let first = TopicController::unsupported_status(&resource, message);
    assert_eq!(first.phase, TopicPhase::Failed);
    assert!(!first.ready);
    resource.status = Some(first.clone());

    let second = TopicController::unsupported_status(&resource, message);
    assert_eq!(
        second, first,
        "an unchanged unsupported spec must produce an identical status"
    );
}

#[test]
fn repeated_in_sync_status_is_stable() {
    let mut resource = topic(r#"{"clusterRef": "c", "partitions": 3}"#);
    let state = TopicServerState {
        partitions: Some(3),
        replication_factor: Some(1),
    };

    let first = TopicController::ready_status(&resource, state, true);
    assert!(first.ready);
    assert_eq!(first.phase, TopicPhase::Ready);
    assert_eq!(first.partitions, 3);
    resource.status = Some(first.clone());

    let second = TopicController::ready_status(&resource, state, true);
    assert_eq!(
        second, first,
        "an unchanged in-sync topic must produce an identical status"
    );
}

#[test]
fn repeated_pending_and_error_statuses_are_stable() {
    let mut resource = topic(r#"{"clusterRef": "c"}"#);

    let pending = TopicController::pending_status(&resource, "Waiting for cluster to be ready");
    resource.status = Some(pending.clone());
    assert_eq!(
        TopicController::pending_status(&resource, "Waiting for cluster to be ready"),
        pending
    );

    let mut errored = topic(r#"{"clusterRef": "c"}"#);
    let failure = TopicController::error_status(&errored, "Cluster c not found");
    errored.status = Some(failure.clone());
    assert_eq!(
        TopicController::error_status(&errored, "Cluster c not found"),
        failure
    );
}

#[test]
fn becoming_ready_refreshes_the_timestamp_and_transitions_only_what_changed() {
    let mut resource = topic(r#"{"clusterRef": "c", "partitions": 3}"#);
    let mut pending = TopicController::pending_status(&resource, "Waiting for cluster");
    pending.last_updated = Some("2024-01-01T00:00:00Z".to_string());
    resource.status = Some(pending);

    let state = TopicServerState {
        partitions: Some(3),
        replication_factor: Some(1),
    };
    let ready = TopicController::ready_status(&resource, state, true);

    assert!(ready.ready);
    assert_ne!(
        ready.last_updated.as_deref(),
        Some("2024-01-01T00:00:00Z"),
        "a real state change must refresh lastUpdated"
    );
    let ready_condition = ready
        .conditions
        .iter()
        .find(|c| c.type_ == TOPIC_CONDITION_READY)
        .expect("Ready condition");
    assert_eq!(ready_condition.status, CONDITION_TRUE);
}

#[test]
fn topic_status_only_differing_in_timestamp_is_not_treated_as_a_change() {
    let mut resource = topic(r#"{"clusterRef": "c", "partitions": 3}"#);
    let state = TopicServerState {
        partitions: Some(3),
        replication_factor: Some(1),
    };
    let mut published = TopicController::ready_status(&resource, state, true);
    published.last_updated = Some("2024-01-01T00:00:00Z".to_string());
    resource.status = Some(published.clone());

    let next = TopicController::ready_status(&resource, state, true);
    assert_eq!(
        next.last_updated.as_deref(),
        Some("2024-01-01T00:00:00Z"),
        "lastUpdated must be preserved when nothing else changed"
    );
    assert_eq!(next, published);
}

/// An unverified sync must not be able to masquerade as a verified one just
/// because the previous status said `Synced=True`.
#[test]
fn losing_server_verification_changes_the_synced_condition() {
    let mut resource = topic(r#"{"clusterRef": "c", "partitions": 3}"#);
    let state = TopicServerState {
        partitions: Some(3),
        replication_factor: Some(1),
    };
    resource.status = Some(TopicController::ready_status(&resource, state, true));

    let unverified = TopicController::ready_status(&resource, state, false);
    let synced = unverified
        .conditions
        .iter()
        .find(|c| c.type_ == TOPIC_CONDITION_SYNCED)
        .expect("Synced condition");
    assert_eq!(synced.status, CONDITION_UNKNOWN);
    assert_ne!(unverified, resource.status.expect("previous status"));
}

// --- Decisions --------------------------------------------------------

fn ready_cluster() -> StreamlineCluster {
    let mut cluster = StreamlineCluster::new("c", ClusterSpec::default());
    cluster.metadata.namespace = Some("prod".to_string());
    cluster.status = Some(ClusterStatus {
        ready_replicas: 1,
        broker_endpoints: vec!["c-0.c-headless.prod.svc:9092".to_string()],
        ..Default::default()
    });
    cluster
}

fn reply(code: u16, status: &str, body: &str) -> ServerReply {
    ServerReply {
        code,
        status: status.to_string(),
        body: body.to_string(),
    }
}

#[test]
fn a_refused_topic_ends_before_the_cluster_is_looked_up() {
    let resource = topic(r#"{"clusterRef": "c", "partitions": 0}"#);
    let start = TopicController::start(&resource);
    assert!(start.add_finalizer);
    assert!(!start.deleting);
    assert_eq!(
        TopicController::decide(&resource),
        TopicDecision::Finish(
            TopicReport::Unsupported("partitions must be >= 1, got 0".to_string()),
            NextReconcile::After(300),
            ReconcileVerdict::Error,
        )
    );
}

#[test]
fn a_deleted_topic_is_cleaned_up() {
    let mut resource = topic(r#"{"clusterRef": "c", "partitions": 0}"#);
    resource.metadata.deleting = true;
    assert_eq!(TopicController::decide(&resource), TopicDecision::CleanUp);
    assert_eq!(
        TopicController::deletion_url(&resource, &ready_cluster()),
        "http://c-0.c-headless.streamline.svc:9094/api/v1/topics/events"
    );
}

#[test]
fn a_topic_waits_for_its_cluster() {
    let resource = topic(r#"{"clusterRef": "c"}"#);
    assert_eq!(TopicController::decide(&resource), TopicDecision::LookUpCluster);
    assert_eq!(
        TopicController::decide_on_cluster(&resource, None),
        TopicDecision::Finish(
            TopicReport::Failed("Cluster c not found".to_string()),
            NextReconcile::After(30),
            ReconcileVerdict::Uncounted,
        )
    );
    let mut cluster = ready_cluster();
    cluster.status = None;
    assert_eq!(
        TopicController::decide_on_cluster(&resource, Some(&cluster)),
        TopicDecision::Finish(
            TopicReport::Pending("Waiting for cluster to be ready".to_string()),
            NextReconcile::After(10),
            ReconcileVerdict::Uncounted,
        )
    );
    assert_eq!(
        TopicController::decide_on_cluster(&resource, Some(&ready_cluster())),
        TopicDecision::Create(
            "http://c-0.c-headless.prod.svc:9094/api/v1/topics".to_string(),
            "events".to_string(),
            3,
        )
    );
}

#[test]
fn the_reply_to_a_create_request_decides_what_follows() {
    let resource = topic(r#"{"clusterRef": "c", "partitions": 3}"#);
    let cluster = ready_cluster();
    let created = reply(201, "201 Created", &core_create_response("events", 3));
    let state = TopicServerState {
        partitions: Some(3),
        replication_factor: Some(1),
    };
    assert_eq!(
        TopicController::decide_on_reply(&resource, &cluster, &created),
        TopicDecision::Finish(
            TopicReport::Accepted(state, true),
            NextReconcile::After(60),
            ReconcileVerdict::Success,
        )
    );
    let conflict = reply(409, "409 Conflict", "exists");
    assert_eq!(
        TopicController::decide_on_reply(&resource, &cluster, &conflict),
        TopicDecision::ReadBack(
            "http://c-0.c-headless.prod.svc:9094/api/v1/topics/events".to_string()
        )
    );
    let refused = reply(500, "500 Internal Server Error", "boom");
    assert_eq!(
        TopicController::decide_on_reply(&resource, &cluster, &refused),
        TopicDecision::Finish(
            TopicReport::Failed(
                "Internal error: Failed to create topic events \
                 (HTTP 500 Internal Server Error): boom"
                    .to_string()
            ),
            NextReconcile::After(30),
            ReconcileVerdict::Uncounted,
        )
    );
    assert_eq!(
        TopicController::decide_on_failure(&resource, "refused"),
        TopicDecision::Finish(
            TopicReport::Failed(
                "Internal error: HTTP request to create topic events failed: refused".to_string()
            ),
            NextReconcile::After(30),
            ReconcileVerdict::Uncounted,
        )
    );
}

#[test]
fn a_read_back_that_says_nothing_leaves_the_topic_unverified() {
    let resource = topic(r#"{"clusterRef": "c", "partitions": 3}"#);
    let silent = TopicDecision::Finish(
        TopicReport::Accepted(TopicServerState::default(), false),
        NextReconcile::After(60),
        ReconcileVerdict::Success,
    );
    assert_eq!(TopicController::decide_on_read_back(&resource, None), silent);
    let missing = reply(404, "404 Not Found", &core_get_response("events", 3));
    assert_eq!(TopicController::decide_on_read_back(&resource, Some(&missing)), silent);
    let drifted = reply(200, "200 OK", &core_get_response("events", 6));
    assert_eq!(
        TopicController::decide_on_read_back(&resource, Some(&drifted)),
        TopicDecision::Finish(
            TopicReport::Failed("server reports 6 partitions, spec requests 3".to_string()),
            NextReconcile::After(60),
            ReconcileVerdict::Success,
        )
    );
}

#[test]
fn drift_names_every_number_that_differs() {
    let spec = spec(r#"{"clusterRef": "c", "partitions": 3}"#);
    let state = TopicServerState {
        partitions: Some(1),
        replication_factor: Some(2),
    };
    assert_eq!(
        evaluate_sync(&spec, state),
        SyncOutcome::Drift(
            "server reports 1 partitions, spec requests 3; \
             server reports replication factor 2, spec requests 1"
                .to_string()
        )
    );
}

#[test]
fn the_first_spelling_that_holds_a_number_counts() {
    let reading = TopicReading {
        partitions: None,
        partition_count: Some(4),
        partition_count_camel: Some(9),
        replication_factor: Some(3_000_000_000),
        replication_factor_camel: Some(1),
    };
    assert_eq!(
        state_of_reading(&reading),
        TopicServerState {
            partitions: Some(4),
            replication_factor: None,
        }
    );
    assert_eq!(
        parse_topic_state(r#"{"partitions": "6", "partition_count": 7, "replicationFactor": -2}"#),
        TopicServerState {
            partitions: Some(7),
            replication_factor: Some(-2),
        }
    );
    // An inner object under `topic` hides the outer numbers, even if it holds none.
    assert_eq!(
        parse_topic_state(r#"{"partitions": 6, "topic": null}"#),
        TopicServerState::default()
    );
}

#[test]
fn reports_become_statuses() {
    let resource = topic(r#"{"clusterRef": "c", "partitions": 3}"#);
    let status = TopicController::status_of_at(
        &resource,
        &TopicReport::Unsupported("no".to_string()),
        "t0",
    );
    assert_eq!(status.phase, TopicPhase::Failed);
    assert_eq!(status.error_message.as_deref(), Some("no"));
    assert_eq!(status.last_updated.as_deref(), Some("t0"));
    assert_eq!(status.observed_generation, Some(1));
    assert_eq!(status.conditions.len(), 2);
    assert_eq!(status.conditions[0].reason.as_deref(), Some("UnsupportedConfiguration"));
    let drifted =
        TopicController::status_of_at(&resource, &TopicReport::Failed("drift".to_string()), "t0");
    assert_eq!(drifted.conditions[1].reason.as_deref(), Some("SyncFailed"));
    let accepted = TopicController::status_of_at(
        &resource,
        &TopicReport::Accepted(TopicServerState::default(), false),
        "t0",
    );
    assert!(accepted.ready);
    assert_eq!((accepted.partitions, accepted.replication_factor), (0, 0));
    let mut published = resource;
    published.status = Some(accepted.clone());
    assert!(!TopicController::status_changed(&published, &accepted));
    assert!(TopicController::status_changed(&published, &drifted));
}

#[test]
fn a_reconcile_makes_three_requests_at_most() {
    let topic = StreamlineTopic::new("events", TopicSpec::new("prod"));
    let mut cluster = StreamlineCluster::new("prod", ClusterSpec::default());
    cluster.status = Some(ClusterStatus {
        ready_replicas: 1,
        broker_endpoints: vec!["b".to_string()],
        ..Default::default()
    });
    let silent = ServerReply {
        code: 201,
        status: "201 Created".to_string(),
        body: String::new(),
    };
    let mut requests = 0;
    let mut decision = TopicController::decide(&topic);
    loop {
        decision = match decision {
            TopicDecision::LookUpCluster => {
                TopicController::decide_on_cluster(&topic, Some(&cluster))
            }
            TopicDecision::Create(_, _, _) => {
                TopicController::decide_on_reply(&topic, &cluster, &silent)
            }
            TopicDecision::ReadBack(_) => TopicController::decide_on_read_back(&topic, None),
            TopicDecision::Finish(report, _, _) => {
                assert_eq!(report, TopicReport::Accepted(TopicServerState::default(), false));
                break;
            }
            TopicDecision::CleanUp => panic!("nothing is being deleted"),
        };
        requests += 1;
    }
    assert_eq!(requests, 3);
}
