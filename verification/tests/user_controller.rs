use streamline_operator::conditions::{
    CONDITION_FALSE, USER_CONDITION_CREDENTIALS_READY, USER_CONDITION_READY, USER_FINALIZER,
};
use streamline_operator::controllers::user::UNSUPPORTED_REASON;
use streamline_operator::controllers::{NextReconcile, ReconcileVerdict, UserController};
use streamline_operator::crd::user::AuthenticationType;
use streamline_operator::crd::{UserCondition, UserPhase};
use streamline_operator::{StreamlineUser, UserSpec};

fn user() -> StreamlineUser {
    StreamlineUser::new("app-user", UserSpec::new("c", AuthenticationType::ScramSha512))
}

#[test]
fn status_is_unsupported_and_not_ready() {
    let status = UserController::unsupported_status(&user());

    assert!(!status.ready);
    assert_eq!(status.phase, UserPhase::Unsupported);
    assert!(status.error_message.is_some());
}

#[test]
fn no_credentials_secret_is_claimed() {
    let status = UserController::unsupported_status(&user());
    assert!(status.credentials_secret.is_none());
    assert!(status.username.is_none());
}

#[test]
fn conditions_explain_why_the_user_is_not_reconciled() {
    let status = UserController::unsupported_status(&user());

    let ready = status
        .conditions
        .iter()
        .find(|c| c.type_ == USER_CONDITION_READY)
        .expect("Ready condition");
    assert_eq!(ready.status, CONDITION_FALSE);
    assert_eq!(ready.reason.as_deref(), Some(UNSUPPORTED_REASON));

    let credentials = status
        .conditions
        .iter()
        .find(|c| c.type_ == USER_CONDITION_CREDENTIALS_READY)
        .expect("CredentialsReady condition");
    assert_eq!(credentials.status, CONDITION_FALSE);
}

#[test]
fn user_repeated_unsupported_status_is_stable() {
    let mut resource = user();
    let first = UserController::unsupported_status(&resource);
    resource.status = Some(first.clone());

    let second = UserController::unsupported_status(&resource);
    assert_eq!(second, first);
}

#[test]
fn generation_change_updates_status_without_resetting_condition_transitions() {
    let mut resource = user();
    resource.metadata.generation = Some(1);
    let mut first = UserController::unsupported_status(&resource);
    first.last_updated = Some("2024-01-01T00:00:00Z".to_string());
    let first_transitions: Vec<Option<String>> = first
        .conditions
        .iter()
        .map(|condition| condition.last_transition_time.clone())
        .collect();
    resource.status = Some(first);
    resource.metadata.generation = Some(2);

    let second = UserController::unsupported_status(&resource);
    assert_eq!(second.observed_generation, Some(2));
    assert_ne!(second.last_updated.as_deref(), Some("2024-01-01T00:00:00Z"));
    assert_eq!(
        second
            .conditions
            .iter()
            .map(|condition| condition.last_transition_time.clone())
            .collect::<Vec<_>>(),
        first_transitions
    );
}

#[test]
fn the_finalizer_is_dropped_and_nothing_else() {
    let mut resource = user();
    let plan = UserController::plan(&resource);
    assert_eq!(plan.remaining_finalizers, None);
    assert!(plan.publish);
    assert_eq!(plan.next, NextReconcile::AwaitChange);
    assert_eq!(plan.verdict, ReconcileVerdict::Success);

    resource.metadata.finalizers = vec![
        "other/one".to_string(),
        USER_FINALIZER.to_string(),
        "other/two".to_string(),
    ];
    resource.metadata.deleting = true;
    let plan = UserController::plan(&resource);
    assert_eq!(
        plan.remaining_finalizers,
        Some(vec!["other/one".to_string(), "other/two".to_string()])
    );
    assert!(!plan.publish);
    assert_eq!(plan.verdict, ReconcileVerdict::Uncounted);
}

#[test]
fn conditions_of_other_types_are_not_carried_over() {
    let mut resource = user();
    let mut status = UserController::unsupported_status_at(&resource, "t0");
    status.conditions.insert(
        0,
        UserCondition {
            type_: "AclsReady".to_string(),
            status: "True".to_string(),
            last_transition_time: Some("t0".to_string()),
            reason: None,
            message: None,
        },
    );
    resource.status = Some(status);
    let next = UserController::unsupported_status_at(&resource, "t1");
    assert_eq!(next.conditions.len(), 2);
    assert_eq!(next.last_updated.as_deref(), Some("t1"));
    assert!(next.conditions.iter().all(|c| c.last_transition_time.as_deref() == Some("t0")));
    assert!(UserController::status_changed(&resource, &next));
}
