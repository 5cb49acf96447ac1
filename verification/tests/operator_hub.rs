use streamline_operator::controllers::operator_hub::matches_query;
use streamline_operator::controllers::{
    HubConfig, InstallStatus, IntegrationType, OperatorCategory, OperatorHub, BUNDLED_OPERATORS,
};

fn default_hub() -> OperatorHub {
    OperatorHub::new(HubConfig::default())
}

// -- Config tests --------------------------------------------------------

#[test]
fn test_hub_config_defaults() {
    let cfg = HubConfig::default();
    assert_eq!(cfg.registry_url, "https://hub.streamline.dev/operators");
    assert!(!cfg.auto_update);
    assert_eq!(cfg.max_installed, 50);
    assert!(!cfg.require_verified);
}

// -- Bundled operators ---------------------------------------------------

#[test]
fn test_bundled_operators_count() {
    assert_eq!(BUNDLED_OPERATORS.len(), 5);
}

#[test]
fn test_bundled_operators_seeded() {
    let hub = default_hub();
    let available = hub.list_available();
    assert_eq!(available.len(), 5);
}

#[test]
fn test_bundled_operators_verified() {
    let hub = default_hub();
    let available = hub.list_available();
    assert!(available.iter().all(|op| op.verified));
}

// -- Search --------------------------------------------------------------

#[test]
fn test_search_by_name() {
    let hub = default_hub();
    let results = hub.search("redis");
    assert_eq!(results.len(), 1);
    assert_eq!(results[0].name, "redis");
}

#[test]
fn test_search_by_description() {
    let hub = default_hub();
    let results = hub.search("CDC");
    assert_eq!(results.len(), 1);
    assert_eq!(results[0].name, "postgresql");
}

#[test]
fn test_search_case_insensitive() {
    let hub = default_hub();
    let results = hub.search("REDIS");
    assert_eq!(results.len(), 1);
}

#[test]
fn test_search_no_results() {
    let hub = default_hub();
    let results = hub.search("nonexistent");
    assert!(results.is_empty());
}

// -- Install / uninstall -------------------------------------------------

#[test]
fn test_install_success() {
    let mut hub = default_hub();
    let result = hub.install("redis");
    assert!(result.is_ok());
    let installed = result.unwrap();
    assert_eq!(installed.name, "redis");
    assert_eq!(installed.status, InstallStatus::Running);
}

#[test]
fn test_install_unknown_operator() {
    let mut hub = default_hub();
    let result = hub.install("unknown");
    assert!(result.is_err());
    assert!(result.unwrap_err().contains("not found"));
}

#[test]
fn test_install_duplicate() {
    let mut hub = default_hub();
    hub.install("redis").unwrap();
    let result = hub.install("redis");
    assert!(result.is_err());
    assert!(result.unwrap_err().contains("already installed"));
}

#[test]
fn test_install_max_capacity() {
    let cfg = HubConfig {
        max_installed: 1,
        ..Default::default()
    };
    let mut hub = OperatorHub::new(cfg);
    hub.install("redis").unwrap();
    let result = hub.install("minio");
    assert!(result.is_err());
    assert!(result.unwrap_err().contains("maximum"));
}

#[test]
fn test_install_require_verified() {
    let cfg = HubConfig {
        require_verified: true,
        ..Default::default()
    };
    let mut hub = OperatorHub::new(cfg);
    // Bundled operators are verified, so this should succeed.
    let result = hub.install("redis");
    assert!(result.is_ok());
}

#[test]
fn test_uninstall_success() {
    let mut hub = default_hub();
    hub.install("redis").unwrap();
    let result = hub.uninstall("redis");
    assert!(result.is_ok());
    assert!(hub.get_installed().is_empty());
}

#[test]
fn test_uninstall_not_installed() {
    let mut hub = default_hub();
    let result = hub.uninstall("redis");
    assert!(result.is_err());
    assert!(result.unwrap_err().contains("not installed"));
}

// -- Upgrade -------------------------------------------------------------

#[test]
fn test_upgrade_not_installed() {
    let mut hub = default_hub();
    let result = hub.upgrade("redis");
    assert!(result.is_err());
    assert!(result.unwrap_err().contains("not installed"));
}

#[test]
fn test_upgrade_already_latest() {
    let mut hub = default_hub();
    hub.install("redis").unwrap();
    let result = hub.upgrade("redis");
    assert!(result.is_err());
    assert!(result.unwrap_err().contains("already at latest"));
}

#[test]
fn test_upgrade_unknown_operator() {
    let mut hub = default_hub();
    let result = hub.upgrade("unknown");
    assert!(result.is_err());
    assert!(result.unwrap_err().contains("not found"));
}

// -- Get installed / info ------------------------------------------------

#[test]
fn test_get_installed_empty() {
    let hub = default_hub();
    assert!(hub.get_installed().is_empty());
}

#[test]
fn test_get_installed_after_install() {
    let mut hub = default_hub();
    hub.install("redis").unwrap();
    hub.install("minio").unwrap();
    let installed = hub.get_installed();
    assert_eq!(installed.len(), 2);
}

#[test]
fn test_get_operator_info_exists() {
    let hub = default_hub();
    let info = hub.get_operator_info("postgresql");
    assert!(info.is_some());
    assert_eq!(info.unwrap().name, "postgresql");
}

#[test]
fn test_get_operator_info_missing() {
    let hub = default_hub();
    let info = hub.get_operator_info("nonexistent");
    assert!(info.is_none());
}

// -- Check updates -------------------------------------------------------

#[test]
fn test_check_updates_none() {
    let mut hub = default_hub();
    hub.install("redis").unwrap();
    let updates = hub.check_updates();
    assert!(updates.is_empty());
}

// -- Stats ---------------------------------------------------------------

#[test]
fn test_stats_initial() {
    let hub = default_hub();
    let stats = hub.stats();
    assert_eq!(stats.available_count, 5);
    assert_eq!(stats.installed_count, 0);
    assert_eq!(stats.updates_available, 0);
}

#[test]
fn test_stats_after_installs() {
    let mut hub = default_hub();
    hub.install("redis").unwrap();
    hub.install("minio").unwrap();
    let stats = hub.stats();
    assert_eq!(stats.installed_count, 2);
}

// -- States and values ---------------------------------------------------

#[test]
fn bundled_operators_carry_their_metadata() {
    let hub = default_hub();
    let redis = hub.get_operator_info("redis").unwrap();
    assert_eq!(redis.version, "7.0.0");
    assert_eq!(redis.category, OperatorCategory::Cache);
    assert_eq!(redis.streamline_integration, IntegrationType::Sidecar);
    assert_eq!(redis.crds, vec!["rediss.streamline.dev"]);
    assert_eq!(redis.author, "streamline");
    assert_eq!(redis.downloads, 0);
    assert_eq!(f64::from_bits(redis.rating_bits), 0.0);
    assert_eq!(redis.min_k8s_version, "1.26");
    assert_eq!(redis.published_at, "2025-01-01T00:00:00Z");
    let names: Vec<String> = hub.list_available().into_iter().map(|o| o.name).collect();
    assert_eq!(
        names,
        vec!["postgresql", "redis", "elasticsearch", "minio", "prometheus"]
    );
    let kinds: Vec<IntegrationType> = hub
        .list_available()
        .into_iter()
        .map(|o| o.streamline_integration)
        .collect();
    assert_eq!(
        kinds,
        vec![
            IntegrationType::Source,
            IntegrationType::Sidecar,
            IntegrationType::Sink,
            IntegrationType::Standalone,
            IntegrationType::Sidecar,
        ]
    );
}

#[test]
fn refusals_leave_the_hub_as_it_was() {
    let mut hub = default_hub();
    assert_eq!(
        hub.install_at("nope", "t0").unwrap_err(),
        "operator 'nope' not found in hub"
    );
    assert_eq!(hub.uninstall("redis").unwrap_err(), "operator 'redis' is not installed");
    assert_eq!(hub.upgrade_at("redis", "t0").unwrap_err(), "operator 'redis' is not installed");
    assert!(hub.get_installed().is_empty());
    hub.install_at("redis", "t0").unwrap();
    assert_eq!(
        hub.install_at("redis", "t1").unwrap_err(),
        "operator 'redis' is already installed"
    );
    assert_eq!(
        hub.upgrade_at("redis", "t1").unwrap_err(),
        "operator 'redis' is already at latest version 7.0.0"
    );
    let installed = hub.get_installed();
    assert_eq!(installed.len(), 1);
    assert_eq!(installed[0].installed_at, "t0");
    assert_eq!(installed[0].namespace, "streamline-system");
    assert_eq!(installed[0].last_reconcile_at, None);
}

#[test]
fn the_limit_is_named_in_the_refusal() {
    let mut hub = OperatorHub::new(HubConfig {
        max_installed: 0,
        ..Default::default()
    });
    assert_eq!(
        hub.install_at("redis", "t0").unwrap_err(),
        "maximum installed operators (0) reached"
    );
}

#[test]
fn uninstalling_undoes_installing() {
    let mut hub = default_hub();
    hub.install_at("minio", "t0").unwrap();
    let before = hub.get_installed();
    hub.install_at("redis", "t1").unwrap();
    hub.uninstall("redis").unwrap();
    assert_eq!(hub.get_installed(), before);
    assert_eq!(hub.stats().updates_available, 0);
}

#[test]
fn queries_match_names_and_descriptions() {
    assert!(matches_query("redis", "cache", "edi"));
    assert!(matches_query("redis", "cache", "ach"));
    assert!(matches_query("redis", "cache", ""));
    assert!(!matches_query("redis", "cache", "redis-cache"));
    let hub = default_hub();
    // Upper-case letters of a description are found by a lower-case query, and the reverse.
    assert_eq!(hub.search("s3-COMPATIBLE").len(), 1);
    assert_eq!(hub.search("integration").len(), 2);
}

#[test]
fn states_compare_by_what_they_say() {
    assert_eq!(
        InstallStatus::Failed("timeout".to_string()),
        InstallStatus::Failed("timeout".to_string()).clone()
    );
    assert_ne!(InstallStatus::Failed("timeout".to_string()), InstallStatus::Running);
    assert_eq!(
        OperatorCategory::Custom("ml-pipeline".to_string()).clone(),
        OperatorCategory::Custom("ml-pipeline".to_string())
    );
    assert_eq!(IntegrationType::Sink, IntegrationType::Sink);
}

#[test]
fn test_hub_config_serde_defaults() {
    let cfg = HubConfig::default();
    assert_eq!(cfg.max_installed, 50);
    assert!(!cfg.auto_update);
}

#[test]
fn test_hub_config_serde_override() {
    let cfg = HubConfig {
        auto_update: true,
        max_installed: 10,
        ..HubConfig::default()
    };
    assert!(cfg.auto_update);
    assert_eq!(cfg.max_installed, 10);
}
