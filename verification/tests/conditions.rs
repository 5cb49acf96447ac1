use streamline_operator::conditions::{
    build_condition, condition_at, set_condition, set_conditions, ConditionFields,
    CLUSTER_CONDITION_READY, CONDITION_FALSE, CONDITION_TRUE,
};

#[test]
fn test_build_condition() {
    let cond = build_condition(
        CLUSTER_CONDITION_READY,
        CONDITION_TRUE,
        "AllReady",
        "All brokers ready",
    );
    assert_eq!(cond.condition_type, "Ready");
    assert_eq!(cond.status, "True");
    assert!(cond.last_transition_time.is_some());
    assert_eq!(cond.reason.as_deref(), Some("AllReady"));
    assert_eq!(cond.message.as_deref(), Some("All brokers ready"));
}

#[test]
fn build_condition_stamps_the_current_time() {
    let before = chrono::Utc::now();
    let cond = build_condition("Ready", CONDITION_TRUE, "OK", "ok");
    let after = chrono::Utc::now();
    let stamp = chrono::DateTime::parse_from_rfc3339(&cond.last_transition_time.unwrap()).unwrap();
    assert!(stamp >= before && stamp <= after);
}

#[test]
fn test_set_condition_adds_new() {
    let mut conditions = Vec::new();
    let cond = build_condition("Ready", CONDITION_TRUE, "OK", "ok");
    set_condition(&mut conditions, cond);
    assert_eq!(conditions.len(), 1);
}

#[test]
fn test_set_condition_preserves_transition_time_on_same_status() {
    let mut conditions = Vec::new();
    let cond1 = ConditionFields {
        condition_type: "Ready".to_string(),
        status: CONDITION_TRUE.to_string(),
        last_transition_time: Some("2024-01-01T00:00:00Z".to_string()),
        reason: Some("First".to_string()),
        message: Some("first".to_string()),
    };
    conditions.push(cond1);

    let cond2 = build_condition("Ready", CONDITION_TRUE, "Second", "second");
    set_condition(&mut conditions, cond2);

    assert_eq!(conditions.len(), 1);
    // Transition time preserved because status didn't change
    assert_eq!(
        conditions[0].last_transition_time.as_deref(),
        Some("2024-01-01T00:00:00Z")
    );
    assert_eq!(conditions[0].reason.as_deref(), Some("Second"));
}

#[test]
fn test_set_condition_updates_transition_time_on_status_change() {
    let mut conditions = Vec::new();
    let cond1 = ConditionFields {
        condition_type: "Ready".to_string(),
        status: CONDITION_FALSE.to_string(),
        last_transition_time: Some("2024-01-01T00:00:00Z".to_string()),
        reason: Some("NotReady".to_string()),
        message: Some("not ready".to_string()),
    };
    conditions.push(cond1);

    let cond2 = build_condition("Ready", CONDITION_TRUE, "AllReady", "all ready");
    set_condition(&mut conditions, cond2);

    assert_eq!(conditions.len(), 1);
    // Transition time updated because status changed
    assert_ne!(
        conditions[0].last_transition_time.as_deref(),
        Some("2024-01-01T00:00:00Z")
    );
}

#[test]
fn test_into_cluster_condition() {
    let cond = build_condition("Ready", CONDITION_TRUE, "OK", "ok");
    let cc = cond.into_cluster_condition();
    assert_eq!(cc.type_, "Ready");
    assert_eq!(cc.status, "True");
}

#[test]
fn test_into_topic_condition() {
    let cond = build_condition("Synced", CONDITION_TRUE, "OK", "ok");
    let tc = cond.into_topic_condition();
    assert_eq!(tc.type_, "Synced");
}

#[test]
fn test_into_user_condition() {
    let cond = build_condition("CredentialsReady", CONDITION_TRUE, "OK", "ok");
    let uc = cond.into_user_condition();
    assert_eq!(uc.type_, "CredentialsReady");
}

#[test]
fn recording_leaves_other_conditions_where_they_were() {
    let mut conditions = vec![
        condition_at("Ready", CONDITION_TRUE, "OK", "ok", "t0"),
        condition_at("Synced", CONDITION_FALSE, "No", "no", "t0"),
    ];
    let untouched = conditions[1].clone();
    set_condition(
        &mut conditions,
        condition_at("Ready", CONDITION_FALSE, "Down", "down", "t1"),
    );
    assert_eq!(conditions.len(), 2);
    assert_eq!(conditions[0].last_transition_time.as_deref(), Some("t1"));
    assert_eq!(conditions[1], untouched);
}

#[test]
fn recording_the_same_statements_again_changes_nothing() {
    let mut conditions = Vec::new();
    let news = vec![
        condition_at("Ready", CONDITION_TRUE, "OK", "ok", "t0"),
        condition_at("Synced", CONDITION_FALSE, "No", "no", "t0"),
    ];
    set_conditions(&mut conditions, &news);
    let once: Vec<ConditionFields> = conditions.to_vec();
    let again = vec![
        condition_at("Ready", CONDITION_TRUE, "OK", "ok", "t9"),
        condition_at("Synced", CONDITION_FALSE, "No", "no", "t9"),
    ];
    set_conditions(&mut conditions, &again);
    assert_eq!(conditions, once);
}
