use streamline_operator::controllers::WatchScope;

#[test]
fn empty_namespace_flag_watches_every_namespace() {
    assert_eq!(WatchScope::from_flag(""), WatchScope::AllNamespaces);
    assert_eq!(WatchScope::from_flag("   "), WatchScope::AllNamespaces);
    assert_eq!(WatchScope::from_flag("").namespace(), None);
}

#[test]
fn a_named_namespace_flag_scopes_the_watch() {
    let scope = WatchScope::from_flag("streamline-system");
    assert_eq!(
        scope,
        WatchScope::Namespace("streamline-system".to_string())
    );
    assert_eq!(scope.namespace(), Some("streamline-system"));
    assert_eq!(scope.describe(), "streamline-system");
}

#[test]
fn surrounding_whitespace_is_not_part_of_the_namespace() {
    // `--namespace=$(OPERATOR_NAMESPACE)` can arrive padded from a manifest.
    assert_eq!(
        WatchScope::from_flag(" streamline-system\n"),
        WatchScope::Namespace("streamline-system".to_string())
    );
}

#[test]
fn cluster_wide_scope_describes_itself_for_logs() {
    assert_eq!(WatchScope::AllNamespaces.describe(), "all namespaces");
}

#[test]
fn unicode_white_space_is_trimmed_too() {
    assert_eq!(WatchScope::from_flag("\u{2003}\u{a0}"), WatchScope::AllNamespaces);
    assert_eq!(
        WatchScope::from_flag("\u{3000}prod\t").namespace(),
        Some("prod")
    );
}
