use streamline_operator::controllers::{error_policy_backoff, NextReconcile};
use streamline_operator::OperatorError;

#[test]
fn test_error_display() {
    let err = OperatorError::KubeApi("test error".to_string());
    assert!(err.to_string().contains("Kubernetes API error"));
}

#[test]
fn test_error_variants() {
    let errors = vec![
        OperatorError::KubeApi("api".to_string()),
        OperatorError::Configuration("config".to_string()),
        OperatorError::Reconciliation("reconcile".to_string()),
        OperatorError::Http("http".to_string()),
        OperatorError::Serialization("serde".to_string()),
        OperatorError::NotFound("resource".to_string()),
        OperatorError::InvalidState("state".to_string()),
    ];

    for err in errors {
        // Every variant has a text
        let _ = format!("{}", err.to_string());
    }
}

#[test]
fn each_category_has_its_own_text() {
    let of = |e: OperatorError| e.to_string();
    assert_eq!(of(OperatorError::KubeApi("x".into())), "Kubernetes API error: x");
    assert_eq!(of(OperatorError::Configuration("x".into())), "Configuration error: x");
    assert_eq!(of(OperatorError::Reconciliation("x".into())), "Reconciliation error: x");
    assert_eq!(of(OperatorError::Http("x".into())), "HTTP error: x");
    assert_eq!(of(OperatorError::Serialization("x".into())), "Serialization error: x");
    assert_eq!(of(OperatorError::NotFound("x".into())), "Resource not found: x");
    assert_eq!(of(OperatorError::InvalidState("x".into())), "Invalid state: x");
    assert_eq!(of(OperatorError::Internal("x".into())), "Internal error: x");
}

#[test]
fn the_backoff_grows_with_the_severity() {
    let after = |e: OperatorError| error_policy_backoff(&e);
    assert_eq!(after(OperatorError::KubeApi(String::new())), NextReconcile::After(10));
    assert_eq!(after(OperatorError::Http(String::new())), NextReconcile::After(10));
    assert_eq!(after(OperatorError::NotFound(String::new())), NextReconcile::After(15));
    assert_eq!(after(OperatorError::Reconciliation(String::new())), NextReconcile::After(30));
    assert_eq!(after(OperatorError::InvalidState(String::new())), NextReconcile::After(30));
    assert_eq!(after(OperatorError::Configuration(String::new())), NextReconcile::After(60));
    assert_eq!(after(OperatorError::Serialization(String::new())), NextReconcile::After(60));
    assert_eq!(after(OperatorError::Internal(String::new())), NextReconcile::After(60));
}
