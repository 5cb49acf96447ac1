//! Operator hub: a local registry of companion operators that integrate with Streamline.
//!
//! The hub knows operators that can be installed alongside the Streamline operator to provide
//! CDC sources, search sinks, tiered storage, and observability integrations.

use crate::clock;
use crate::text;
use vstd::prelude::*;
use vstd::string::*;

verus! {

/// Bundled operators shipped with every Streamline operator release: name, version and
/// description of each.
pub const BUNDLED_OPERATORS: [(&'static str, &'static str, &'static str); 5] = [
    ("postgresql", "5.0.0", "PostgreSQL operator for CDC source integration"),
    ("redis", "7.0.0", "Redis operator for cache-aside streaming patterns"),
    ("elasticsearch", "8.0.0", "Elasticsearch operator for search sink integration"),
    ("minio", "5.0.0", "MinIO operator for S3-compatible tiered storage"),
    ("prometheus", "0.70.0", "Prometheus operator for metrics collection"),
];

// ---------------------------------------------------------------------------
// Types
// ---------------------------------------------------------------------------

/// Configuration for the operator hub.
#[derive(Debug, PartialEq, Eq)]
pub struct HubConfig {
    pub registry_url: String,
    pub auto_update: bool,
    pub max_installed: usize,
    pub require_verified: bool,
}

/// What a [`HubConfig`] holds, over characters and sequences.
#[verifier::ext_equal]
pub struct HubConfigView {
    pub registry_url: Seq<char>,
    pub auto_update: bool,
    pub max_installed: usize,
    pub require_verified: bool,
}

impl DeepView for HubConfig {
    type V = HubConfigView;

    open spec fn deep_view(&self) -> HubConfigView {
        HubConfigView {
            registry_url: self.registry_url@,
            auto_update: self.auto_update,
            max_installed: self.max_installed,
            require_verified: self.require_verified,
        }
    }
}

impl Clone for HubConfig {
    fn clone(&self) -> (copy: Self)
        ensures
            copy.deep_view() == self.deep_view(),
    {
        HubConfig {
            registry_url: self.registry_url.clone(),
            auto_update: self.auto_update,
            max_installed: self.max_installed,
            require_verified: self.require_verified,
        }
    }
}

/// Category of an operator in the hub.
#[derive(Debug, PartialEq, Eq)]
pub enum OperatorCategory {
    Database,
    Cache,
    MessageQueue,
    Monitoring,
    Storage,
    Networking,
    Security,
    Custom(String),
}

/// What [`OperatorCategory`] says, over characters and sequences.
#[verifier::ext_equal]
pub enum OperatorCategoryView {
    Database,
    Cache,
    MessageQueue,
    Monitoring,
    Storage,
    Networking,
    Security,
    Custom(Seq<char>),
}

impl DeepView for OperatorCategory {
    type V = OperatorCategoryView;

    open spec fn deep_view(&self) -> OperatorCategoryView {
        match self {
            OperatorCategory::Database => OperatorCategoryView::Database,
            OperatorCategory::Cache => OperatorCategoryView::Cache,
            OperatorCategory::MessageQueue => OperatorCategoryView::MessageQueue,
            OperatorCategory::Monitoring => OperatorCategoryView::Monitoring,
            OperatorCategory::Storage => OperatorCategoryView::Storage,
            OperatorCategory::Networking => OperatorCategoryView::Networking,
            OperatorCategory::Security => OperatorCategoryView::Security,
            OperatorCategory::Custom(v0) => OperatorCategoryView::Custom(v0@),
        }
    }
}

impl Clone for OperatorCategory {
    fn clone(&self) -> (copy: Self)
        ensures
            copy.deep_view() == self.deep_view(),
    {
        match self {
            OperatorCategory::Database => OperatorCategory::Database,
            OperatorCategory::Cache => OperatorCategory::Cache,
            OperatorCategory::MessageQueue => OperatorCategory::MessageQueue,
            OperatorCategory::Monitoring => OperatorCategory::Monitoring,
            OperatorCategory::Storage => OperatorCategory::Storage,
            OperatorCategory::Networking => OperatorCategory::Networking,
            OperatorCategory::Security => OperatorCategory::Security,
            OperatorCategory::Custom(v0) => OperatorCategory::Custom(v0.clone()),
        }
    }
}

/// How the operator integrates with Streamline.
#[derive(Clone, Copy, Debug, PartialEq, Eq, Structural)]
pub enum IntegrationType {
    Source,
    Sink,
    Sidecar,
    Standalone,
}

impl DeepView for IntegrationType {
    type V = Self;

    open spec fn deep_view(&self) -> Self {
        *self
    }
}

/// An operator available in the hub registry.
#[derive(Debug, PartialEq, Eq)]
pub struct HubOperator {
    pub name: String,
    pub version: String,
    pub description: String,
    pub category: OperatorCategory,
    pub author: String,
    pub verified: bool,
    pub downloads: u64,
    /// The rating, as the bits of a 64-bit binary floating point number
    pub rating_bits: u64,
    pub crds: Vec<String>,
    pub streamline_integration: IntegrationType,
    pub min_k8s_version: String,
    pub published_at: String,
}

/// What a [`HubOperator`] holds, over characters and sequences.
#[verifier::ext_equal]
pub struct HubOperatorView {
    pub name: Seq<char>,
    pub version: Seq<char>,
    pub description: Seq<char>,
    pub category: OperatorCategoryView,
    pub author: Seq<char>,
    pub verified: bool,
    pub downloads: u64,
    pub rating_bits: u64,
    pub crds: Seq<Seq<char>>,
    pub streamline_integration: IntegrationType,
    pub min_k8s_version: Seq<char>,
    pub published_at: Seq<char>,
}

impl DeepView for HubOperator {
    type V = HubOperatorView;

    open spec fn deep_view(&self) -> HubOperatorView {
        HubOperatorView {
            name: self.name@,
            version: self.version@,
            description: self.description@,
            category: self.category.deep_view(),
            author: self.author@,
            verified: self.verified,
            downloads: self.downloads,
            rating_bits: self.rating_bits,
            crds: self.crds.deep_view(),
            streamline_integration: self.streamline_integration,
            min_k8s_version: self.min_k8s_version@,
            published_at: self.published_at@,
        }
    }
}

impl Clone for HubOperator {
    fn clone(&self) -> (copy: Self)
        ensures
            copy.deep_view() == self.deep_view(),
    {
        let copy = HubOperator {
            name: self.name.clone(),
            version: self.version.clone(),
            description: self.description.clone(),
            category: self.category.clone(),
            author: self.author.clone(),
            verified: self.verified,
            downloads: self.downloads,
            rating_bits: self.rating_bits,
            crds: self.crds.clone(),
            streamline_integration: self.streamline_integration,
            min_k8s_version: self.min_k8s_version.clone(),
            published_at: self.published_at.clone(),
        };
        assert(copy.crds.deep_view() =~= self.crds.deep_view());
        copy
    }
}

/// Installation status of an operator.
#[derive(Debug, PartialEq, Eq)]
pub enum InstallStatus {
    Installing,
    Running,
    Failed(String),
    Upgrading,
    Removing,
}

/// What [`InstallStatus`] says, over characters and sequences.
#[verifier::ext_equal]
pub enum InstallStatusView {
    Installing,
    Running,
    Failed(Seq<char>),
    Upgrading,
    Removing,
}

impl DeepView for InstallStatus {
    type V = InstallStatusView;

    open spec fn deep_view(&self) -> InstallStatusView {
        match self {
            InstallStatus::Installing => InstallStatusView::Installing,
            InstallStatus::Running => InstallStatusView::Running,
            InstallStatus::Failed(v0) => InstallStatusView::Failed(v0@),
            InstallStatus::Upgrading => InstallStatusView::Upgrading,
            InstallStatus::Removing => InstallStatusView::Removing,
        }
    }
}

impl Clone for InstallStatus {
    fn clone(&self) -> (copy: Self)
        ensures
            copy.deep_view() == self.deep_view(),
    {
        match self {
            InstallStatus::Installing => InstallStatus::Installing,
            InstallStatus::Running => InstallStatus::Running,
            InstallStatus::Failed(v0) => InstallStatus::Failed(v0.clone()),
            InstallStatus::Upgrading => InstallStatus::Upgrading,
            InstallStatus::Removing => InstallStatus::Removing,
        }
    }
}

/// An operator that has been installed in the cluster.
#[derive(Debug, PartialEq, Eq)]
pub struct InstalledOperator {
    pub name: String,
    pub version: String,
    pub namespace: String,
    pub status: InstallStatus,
    pub installed_at: String,
    pub last_reconcile_at: Option<String>,
}

/// What a [`InstalledOperator`] holds, over characters and sequences.
#[verifier::ext_equal]
pub struct InstalledOperatorView {
    pub name: Seq<char>,
    pub version: Seq<char>,
    pub namespace: Seq<char>,
    pub status: InstallStatusView,
    pub installed_at: Seq<char>,
    pub last_reconcile_at: Option<Seq<char>>,
}

impl DeepView for InstalledOperator {
    type V = InstalledOperatorView;

    open spec fn deep_view(&self) -> InstalledOperatorView {
        InstalledOperatorView {
            name: self.name@,
            version: self.version@,
            namespace: self.namespace@,
            status: self.status.deep_view(),
            installed_at: self.installed_at@,
            last_reconcile_at: self.last_reconcile_at.deep_view(),
        }
    }
}

impl Clone for InstalledOperator {
    fn clone(&self) -> (copy: Self)
        ensures
            copy.deep_view() == self.deep_view(),
    {
        InstalledOperator {
            name: self.name.clone(),
            version: self.version.clone(),
            namespace: self.namespace.clone(),
            status: self.status.clone(),
            installed_at: self.installed_at.clone(),
            last_reconcile_at: self.last_reconcile_at.clone(),
        }
    }
}

/// Summary statistics for the operator hub.
#[derive(Clone, Copy, Debug, PartialEq, Eq, Structural)]
pub struct HubStats {
    pub available_count: usize,
    pub installed_count: usize,
    pub updates_available: usize,
}

impl DeepView for HubStats {
    type V = Self;

    open spec fn deep_view(&self) -> Self {
        *self
    }
}

/// Central registry for discovering, installing, and managing companion
/// operators that integrate with Streamline.
#[derive(Debug)]
pub struct OperatorHub {
    operators: Vec<HubOperator>,
    installed: Vec<InstalledOperator>,
    config: HubConfig,
}

/// What an [`OperatorHub`] holds.
#[verifier::ext_equal]
pub struct OperatorHubView {
    pub operators: Seq<HubOperatorView>,
    pub installed: Seq<InstalledOperatorView>,
    pub config: HubConfigView,
}

impl View for OperatorHub {
    type V = OperatorHubView;

    closed spec fn view(&self) -> OperatorHubView {
        OperatorHubView {
            operators: self.operators.deep_view(),
            installed: self.installed.deep_view(),
            config: self.config.deep_view(),
        }
    }
}

// ---------------------------------------------------------------------------
// Model
// ---------------------------------------------------------------------------

/// The configuration that leaves everything unset.
pub open spec fn unset_config() -> HubConfigView {
    HubConfigView {
        registry_url: "https://hub.streamline.dev/operators"@,
        auto_update: false,
        max_installed: 50,
        require_verified: false,
    }
}

/// The category of a bundled operator.
pub open spec fn category_of(name: Seq<char>) -> OperatorCategoryView {
    if name == "postgresql"@ {
        OperatorCategoryView::Database
    } else if name == "redis"@ {
        OperatorCategoryView::Cache
    } else if name == "elasticsearch"@ {
        OperatorCategoryView::Storage
    } else if name == "minio"@ {
        OperatorCategoryView::Storage
    } else if name == "prometheus"@ {
        OperatorCategoryView::Monitoring
    } else {
        OperatorCategoryView::Custom(name)
    }
}

/// How a bundled operator integrates.
pub open spec fn integration_of(name: Seq<char>) -> IntegrationType {
    if name == "postgresql"@ {
        IntegrationType::Source
    } else if name == "redis"@ {
        IntegrationType::Sidecar
    } else if name == "elasticsearch"@ {
        IntegrationType::Sink
    } else if name == "minio"@ {
        IntegrationType::Standalone
    } else if name == "prometheus"@ {
        IntegrationType::Sidecar
    } else {
        IntegrationType::Standalone
    }
}

/// A bundled operator.
pub open spec fn bundled_operator(
    name: Seq<char>,
    version: Seq<char>,
    description: Seq<char>,
) -> HubOperatorView {
    HubOperatorView {
        name,
        version,
        description,
        category: category_of(name),
        author: "streamline"@,
        verified: true,
        downloads: 0,
        rating_bits: 0,
        crds: seq![name + "s.streamline.dev"@],
        streamline_integration: integration_of(name),
        min_k8s_version: "1.26"@,
        published_at: "2025-01-01T00:00:00Z"@,
    }
}

/// The bundled operators, in their order.
pub open spec fn bundled() -> Seq<HubOperatorView> {
    Seq::new(
        5,
        |i: int|
            bundled_operator(
                BUNDLED_OPERATORS[i].0@,
                BUNDLED_OPERATORS[i].1@,
                BUNDLED_OPERATORS[i].2@,
            ),
    )
}

/// A hub with the bundled operators and nothing installed.
pub open spec fn fresh_hub(config: HubConfigView) -> OperatorHubView {
    OperatorHubView { operators: bundled(), installed: Seq::empty(), config }
}

/// The names of the operators in the registry.
pub open spec fn operator_names(operators: Seq<HubOperatorView>) -> Seq<Seq<char>> {
    Seq::new(operators.len(), |i: int| operators[i].name)
}

/// The names of the installed operators.
pub open spec fn installed_names(installed: Seq<InstalledOperatorView>) -> Seq<Seq<char>> {
    Seq::new(installed.len(), |i: int| installed[i].name)
}

/// The first place of a name, or the number of names if it is not among them.
pub open spec fn first_at(names: Seq<Seq<char>>, name: Seq<char>) -> int
    decreases names.len(),
{
    if names.len() == 0 || names[0] == name {
        0
    } else {
        1 + first_at(names.drop_first(), name)
    }
}

/// The operator of the registry that has a name.
pub open spec fn operator_named(
    operators: Seq<HubOperatorView>,
    name: Seq<char>,
) -> Option<HubOperatorView> {
    let at = first_at(operator_names(operators), name);
    if at < operators.len() {
        Some(operators[at])
    } else {
        None
    }
}

/// Where an operator stands among the installed ones.
pub open spec fn installed_at(hub: OperatorHubView, name: Seq<char>) -> int {
    first_at(installed_names(hub.installed), name)
}

/// Whether an operator is installed.
pub open spec fn is_installed(hub: OperatorHubView, name: Seq<char>) -> bool {
    installed_at(hub, name) < hub.installed.len()
}

/// Whether an operator may stand among the installed ones.
pub open spec fn may_be_installed(hub: OperatorHubView, name: Seq<char>) -> bool {
    match operator_named(hub.operators, name) {
        Some(operator) => hub.config.require_verified ==> operator.verified,
        None => false,
    }
}

/// What always holds of a hub: no name occurs twice, no more operators are installed than the
/// configuration allows, and each installed operator comes from the registry, verified where
/// the configuration asks for it.
pub open spec fn well_formed(hub: OperatorHubView) -> bool {
    &&& operator_names(hub.operators).no_duplicates()
    &&& installed_names(hub.installed).no_duplicates()
    &&& hub.installed.len() <= hub.config.max_installed
    &&& forall|i: int|
        0 <= i < hub.installed.len() ==> may_be_installed(
            hub,
            (#[trigger] hub.installed[i]).name,
        )
}

/// Why an operator cannot be installed, if it cannot.
pub open spec fn install_refusal(hub: OperatorHubView, name: Seq<char>) -> Option<Seq<char>> {
    match operator_named(hub.operators, name) {
        None => Some("operator '"@ + name + "' not found in hub"@),
        Some(operator) => if hub.config.require_verified && !operator.verified {
            Some("operator '"@ + name + "' is not verified"@)
        } else if hub.installed.len() >= hub.config.max_installed {
            Some(
                "maximum installed operators ("@ + text::decimal(hub.config.max_installed as int)
                    + ") reached"@,
            )
        } else if is_installed(hub, name) {
            Some("operator '"@ + name + "' is already installed"@)
        } else {
            None
        },
    }
}

/// The record of an operator installed at `now`.
pub open spec fn installation(
    hub: OperatorHubView,
    name: Seq<char>,
    now: Seq<char>,
) -> InstalledOperatorView {
    InstalledOperatorView {
        name,
        version: operator_named(hub.operators, name)->0.version,
        namespace: "streamline-system"@,
        status: InstallStatusView::Running,
        installed_at: now,
        last_reconcile_at: None,
    }
}

/// The hub after an operator was installed.
pub open spec fn with_installed(
    hub: OperatorHubView,
    name: Seq<char>,
    now: Seq<char>,
) -> OperatorHubView {
    OperatorHubView { installed: hub.installed.push(installation(hub, name, now)), ..hub }
}

/// Why an operator cannot be uninstalled, if it cannot.
pub open spec fn uninstall_refusal(hub: OperatorHubView, name: Seq<char>) -> Option<Seq<char>> {
    if is_installed(hub, name) {
        None
    } else {
        Some("operator '"@ + name + "' is not installed"@)
    }
}

/// The hub after an operator was uninstalled.
pub open spec fn without_installed(hub: OperatorHubView, name: Seq<char>) -> OperatorHubView {
    OperatorHubView { installed: hub.installed.remove(installed_at(hub, name)), ..hub }
}

/// Why an operator cannot be upgraded, if it cannot.
pub open spec fn upgrade_refusal(hub: OperatorHubView, name: Seq<char>) -> Option<Seq<char>> {
    match operator_named(hub.operators, name) {
        None => Some("operator '"@ + name + "' not found in hub"@),
        Some(operator) => if !is_installed(hub, name) {
            Some("operator '"@ + name + "' is not installed"@)
        } else if hub.installed[installed_at(hub, name)].version == operator.version {
            Some(
                "operator '"@ + name + "' is already at latest version "@ + operator.version,
            )
        } else {
            None
        },
    }
}

/// The record of an installed operator upgraded at `now`.
pub open spec fn upgraded(
    hub: OperatorHubView,
    name: Seq<char>,
    now: Seq<char>,
) -> InstalledOperatorView {
    InstalledOperatorView {
        version: operator_named(hub.operators, name)->0.version,
        status: InstallStatusView::Running,
        last_reconcile_at: Some(now),
        ..hub.installed[installed_at(hub, name)]
    }
}

/// The hub after an operator was upgraded.
pub open spec fn with_upgraded(
    hub: OperatorHubView,
    name: Seq<char>,
    now: Seq<char>,
) -> OperatorHubView {
    OperatorHubView {
        installed: hub.installed.update(installed_at(hub, name), upgraded(hub, name, now)),
        ..hub
    }
}

/// Whether the registry holds another version of an installed operator.
pub open spec fn outdated(
    operators: Seq<HubOperatorView>,
    installed: InstalledOperatorView,
) -> bool {
    match operator_named(operators, installed.name) {
        Some(operator) => operator.version != installed.version,
        None => false,
    }
}

/// The updates of the installed operators: name, installed version and available version.
pub open spec fn updates(
    operators: Seq<HubOperatorView>,
    installed: Seq<InstalledOperatorView>,
) -> Seq<(Seq<char>, Seq<char>, Seq<char>)>
    decreases installed.len(),
{
    if installed.len() == 0 {
        Seq::empty()
    } else {
        let front = updates(operators, installed.drop_last());
        let last = installed.last();
        if outdated(operators, last) {
            front.push(
                (last.name, last.version, operator_named(operators, last.name)->0.version),
            )
        } else {
            front
        }
    }
}

/// The lower-case form of a text.
pub uninterp spec fn lowered(s: Seq<char>) -> Seq<char>;

/// Whether an operator's name or description, in lower case, contains a query in lower case.
pub open spec fn found_by(operator: HubOperatorView, query: Seq<char>) -> bool {
    text::occurs(lowered(operator.name), query) || text::occurs(
        lowered(operator.description),
        query,
    )
}

/// The operators that a query in lower case finds, in their order.
pub open spec fn found(operators: Seq<HubOperatorView>, query: Seq<char>) -> Seq<HubOperatorView>
    decreases operators.len(),
{
    if operators.len() == 0 {
        Seq::empty()
    } else if found_by(operators.last(), query) {
        found(operators.drop_last(), query).push(operators.last())
    } else {
        found(operators.drop_last(), query)
    }
}

// ---------------------------------------------------------------------------
// Code
// ---------------------------------------------------------------------------

/// The registry that is used unless one is set.
pub fn default_registry_url() -> (url: String)
    ensures
        url@ == "https://hub.streamline.dev/operators"@,
{
    "https://hub.streamline.dev/operators".to_owned()
}

/// How many operators can be installed unless the number is set.
pub fn default_max_installed() -> (count: usize)
    ensures
        count == 50,
{
    50
}

impl Default for HubConfig {
    fn default() -> (config: Self)
        ensures
            config.deep_view() == unset_config(),
    {
        HubConfig {
            registry_url: default_registry_url(),
            auto_update: false,
            max_installed: default_max_installed(),
            require_verified: false,
        }
    }
}

/// `str::to_lowercase`: the lower-case form of a text, by the Unicode mapping.
///
/// The result is a function of the text alone; what it is, is left unsaid.
#[verifier::external_body]
fn lower_case(s: &str) -> (lower: String)
    ensures
        lower@ == lowered(s@),
{
    s.to_lowercase()
}

/// Whether a query occurs in a name or a description, all three in lower case.
pub fn matches_query(name: &str, description: &str, query: &str) -> (found: bool)
    ensures
        found == (text::occurs(name@, query@) || text::occurs(description@, query@)),
{
    text::text_contains(name, query) || text::text_contains(description, query)
}

fn build_bundled_operator(name: &str, version: &str, description: &str) -> (operator: HubOperator)
    ensures
        operator.deep_view() == bundled_operator(name@, version@, description@),
{
    let category = if text::text_eq(name, "postgresql") {
        OperatorCategory::Database
    } else if text::text_eq(name, "redis") {
        OperatorCategory::Cache
    } else if text::text_eq(name, "elasticsearch") {
        OperatorCategory::Storage
    } else if text::text_eq(name, "minio") {
        OperatorCategory::Storage
    } else if text::text_eq(name, "prometheus") {
        OperatorCategory::Monitoring
    } else {
        OperatorCategory::Custom(name.to_owned())
    };
    let integration = if text::text_eq(name, "postgresql") {
        IntegrationType::Source
    } else if text::text_eq(name, "redis") {
        IntegrationType::Sidecar
    } else if text::text_eq(name, "elasticsearch") {
        IntegrationType::Sink
    } else if text::text_eq(name, "minio") {
        IntegrationType::Standalone
    } else if text::text_eq(name, "prometheus") {
        IntegrationType::Sidecar
    } else {
        IntegrationType::Standalone
    };
    let crds = vec![name.to_owned().concat("s.streamline.dev")];
    assert(crds.deep_view() =~= seq![name@ + "s.streamline.dev"@]);
    HubOperator {
        name: name.to_owned(),
        version: version.to_owned(),
        description: description.to_owned(),
        category,
        author: "streamline".to_owned(),
        verified: true,
        downloads: 0,
        rating_bits: 0,
        crds,
        streamline_integration: integration,
        min_k8s_version: "1.26".to_owned(),
        published_at: "2025-01-01T00:00:00Z".to_owned(),
    }
}

impl OperatorHub {
    /// Create a new hub and seed it with the bundled operators.
    pub fn new(config: HubConfig) -> (hub: Self)
        ensures
            hub@ == fresh_hub(config.deep_view()),
            well_formed(hub@),
    {
        let mut operators: Vec<HubOperator> = Vec::new();
        let mut i: usize = 0;
        assert(operators.deep_view() =~= bundled().subrange(0, 0));
        while i < 5
            invariant
                i <= 5,
                operators.deep_view() == bundled().subrange(0, i as int),
            decreases 5 - i,
        {
            let ghost before = operators.deep_view();
            let (name, version, description) = BUNDLED_OPERATORS[i];
            operators.push(build_bundled_operator(name, version, description));
            assert(operators.deep_view() =~= before.push(bundled()[i as int]));
            assert(before.push(bundled()[i as int]) =~= bundled().subrange(0, i + 1));
            i = i + 1;
        }
        assert(bundled().subrange(0, 5) =~= bundled());
        let hub = OperatorHub { operators, installed: Vec::new(), config };
        assert(hub.installed.deep_view() =~= Seq::empty());
        proof {
            lemma_bundled_names_differ();
        }
        hub
    }

    /// List all operators available in the hub.
    pub fn list_available(&self) -> (available: Vec<HubOperator>)
        ensures
            available.deep_view() == self@.operators,
    {
        let ghost all = self.operators.deep_view();
        let mut available: Vec<HubOperator> = Vec::new();
        let mut i: usize = 0;
        assert(available.deep_view() =~= all.subrange(0, 0));
        while i < self.operators.len()
            invariant
                i <= self.operators.len(),
                all == self.operators.deep_view(),
                available.deep_view() == all.subrange(0, i as int),
            decreases self.operators.len() - i,
        {
            let ghost before = available.deep_view();
            available.push(self.operators[i].clone());
            assert(available.deep_view() =~= before.push(all[i as int]));
            assert(before.push(all[i as int]) =~= all.subrange(0, i + 1));
            i = i + 1;
        }
        assert(all.subrange(0, all.len() as int) =~= all);
        available
    }

    /// Search for operators whose name or description matches `query`.
    pub fn search(&self, query: &str) -> (results: Vec<HubOperator>)
        ensures
            results.deep_view() == found(self@.operators, lowered(query@)),
    {
        let lower = lower_case(query);
        let ghost all = self.operators.deep_view();
        let ghost sought = lowered(query@);
        let mut results: Vec<HubOperator> = Vec::new();
        let mut i: usize = 0;
        assert(results.deep_view() =~= found(all.subrange(0, 0), sought));
        while i < self.operators.len()
            invariant
                i <= self.operators.len(),
                all == self.operators.deep_view(),
                lower@ == sought,
                results.deep_view() == found(all.subrange(0, i as int), sought),
            decreases self.operators.len() - i,
        {
            let operator = &self.operators[i];
            let ghost before = results.deep_view();
            let ghost seen = all.subrange(0, i + 1);
            assert(seen.drop_last() =~= all.subrange(0, i as int));
            assert(seen.last() == operator.deep_view());
            let name = lower_case(operator.name.as_str());
            let description = lower_case(operator.description.as_str());
            if matches_query(name.as_str(), description.as_str(), lower.as_str()) {
                results.push(operator.clone());
                assert(results.deep_view() =~= before.push(all[i as int]));
            }
            i = i + 1;
        }
        assert(all.subrange(0, all.len() as int) =~= all);
        results
    }

    fn operator_place(&self, name: &str) -> (at: usize)
        ensures
            at == first_at(operator_names(self@.operators), name@),
            at <= self.operators.len(),
    {
        let ghost names = operator_names(self.operators.deep_view());
        let mut i: usize = 0;
        while i < self.operators.len()
            invariant
                i <= self.operators.len(),
                names == operator_names(self.operators.deep_view()),
                forall|j: int| 0 <= j < i ==> #[trigger] names[j] != name@,
            decreases self.operators.len() - i,
        {
            assert(names[i as int] == self.operators[i as int].name@);
            if text::text_eq(self.operators[i].name.as_str(), name) {
                proof {
                    lemma_first_at_is(names, name@, i as int);
                }
                return i;
            }
            i = i + 1;
        }
        proof {
            lemma_first_at_is(names, name@, i as int);
        }
        i
    }

    fn installed_place(&self, name: &str) -> (at: usize)
        ensures
            at == installed_at(self@, name@),
            at <= self.installed.len(),
    {
        let ghost names = installed_names(self.installed.deep_view());
        let mut i: usize = 0;
        while i < self.installed.len()
            invariant
                i <= self.installed.len(),
                names == installed_names(self.installed.deep_view()),
                forall|j: int| 0 <= j < i ==> #[trigger] names[j] != name@,
            decreases self.installed.len() - i,
        {
            assert(names[i as int] == self.installed[i as int].name@);
            if text::text_eq(self.installed[i].name.as_str(), name) {
                proof {
                    lemma_first_at_is(names, name@, i as int);
                }
                return i;
            }
            i = i + 1;
        }
        proof {
            lemma_first_at_is(names, name@, i as int);
        }
        i
    }

    /// Get detailed information about a specific operator.
    pub fn get_operator_info(&self, name: &str) -> (info: Option<HubOperator>)
        ensures
            info.deep_view() == operator_named(self@.operators, name@),
    {
        let at = self.operator_place(name);
        if at < self.operators.len() {
            Some(self.operators[at].clone())
        } else {
            None
        }
    }

    /// Install an operator.
    ///
    /// The operator must be in the hub, verified if the configuration asks for it, and not
    /// installed yet, and the configured number of installed operators must not be reached.
    pub fn install(&mut self, name: &str) -> (result: core::result::Result<
        InstalledOperator,
        String,
    >)
        ensures
            well_formed(old(self)@) ==> well_formed(final(self)@),
            match install_refusal(old(self)@, name@) {
                Some(message) => result is Err && result->Err_0@ == message && final(self)@ == old(
                    self,
                )@,
                None => exists|now: Seq<char>|
                    clock::is_stamp(now) && result is Ok && result->Ok_0.deep_view() == installation(old(self)@, name@, now)
                        && final(self)@ == #[trigger] with_installed(old(self)@, name@, now),
            },
    {
        let now = clock::now_rfc3339();
        self.install_at(name, now.as_str())
    }

    /// Install an operator at `now`.
    pub fn install_at(&mut self, name: &str, now: &str) -> (result: core::result::Result<
        InstalledOperator,
        String,
    >)
        ensures
            well_formed(old(self)@) ==> well_formed(final(self)@),
            match install_refusal(old(self)@, name@) {
                Some(message) => result is Err && result->Err_0@ == message && final(self)@ == old(
                    self,
                )@,
                None => result is Ok && result->Ok_0.deep_view() == installation(
                    old(self)@,
                    name@,
                    now@,
                ) && final(self)@ == with_installed(old(self)@, name@, now@),
            },
    {
        let ghost before = self@;
        let at = self.operator_place(name);
        if at >= self.operators.len() {
            return Err("operator '".to_owned().concat(name).concat("' not found in hub"));
        }
        if self.config.require_verified && !self.operators[at].verified {
            return Err("operator '".to_owned().concat(name).concat("' is not verified"));
        }
        if self.installed.len() >= self.config.max_installed {
            return Err(
                "maximum installed operators (".to_owned().concat(
                    text::usize_text(self.config.max_installed).as_str(),
                ).concat(") reached"),
            );
        }
        let place = self.installed_place(name);
        if place < self.installed.len() {
            return Err("operator '".to_owned().concat(name).concat("' is already installed"));
        }
        let record = InstalledOperator {
            name: name.to_owned(),
            version: self.operators[at].version.clone(),
            namespace: "streamline-system".to_owned(),
            status: InstallStatus::Running,
            installed_at: now.to_owned(),
            last_reconcile_at: None,
        };
        self.installed.push(record.clone());
        assert(self@.installed =~= before.installed.push(installation(before, name@, now@)));
        assert(self@ =~= with_installed(before, name@, now@));
        proof {
            if well_formed(before) {
                lemma_install_keeps_the_hub_well_formed(before, name@, now@);
            }
        }
        Ok(record)
    }

    /// Uninstall an operator.
    pub fn uninstall(&mut self, name: &str) -> (result: core::result::Result<(), String>)
        ensures
            well_formed(old(self)@) ==> well_formed(final(self)@),
            match uninstall_refusal(old(self)@, name@) {
                Some(message) => result is Err && result->Err_0@ == message && final(self)@ == old(
                    self,
                )@,
                None => result is Ok && final(self)@ == without_installed(old(self)@, name@),
            },
    {
        let ghost before = self@;
        let place = self.installed_place(name);
        if place >= self.installed.len() {
            return Err("operator '".to_owned().concat(name).concat("' is not installed"));
        }
        let _removed = self.installed.remove(place);
        assert(self@.installed =~= before.installed.remove(place as int));
        assert(self@ =~= without_installed(before, name@));
        proof {
            if well_formed(before) {
                lemma_uninstall_keeps_the_hub_well_formed(before, name@);
            }
        }
        Ok(())
    }

    /// Upgrade an installed operator to the latest available version.
    pub fn upgrade(&mut self, name: &str) -> (result: core::result::Result<
        InstalledOperator,
        String,
    >)
        ensures
            well_formed(old(self)@) ==> well_formed(final(self)@),
            match upgrade_refusal(old(self)@, name@) {
                Some(message) => result is Err && result->Err_0@ == message && final(self)@ == old(
                    self,
                )@,
                None => exists|now: Seq<char>|
                    clock::is_stamp(now) && result is Ok && result->Ok_0.deep_view() == upgraded(old(self)@, name@, now)
                        && final(self)@ == #[trigger] with_upgraded(old(self)@, name@, now),
            },
    {
        let now = clock::now_rfc3339();
        self.upgrade_at(name, now.as_str())
    }

    /// Upgrade an installed operator to the latest available version at `now`.
    pub fn upgrade_at(&mut self, name: &str, now: &str) -> (result: core::result::Result<
        InstalledOperator,
        String,
    >)
        ensures
            well_formed(old(self)@) ==> well_formed(final(self)@),
            match upgrade_refusal(old(self)@, name@) {
                Some(message) => result is Err && result->Err_0@ == message && final(self)@ == old(
                    self,
                )@,
                None => result is Ok && result->Ok_0.deep_view() == upgraded(
                    old(self)@,
                    name@,
                    now@,
                ) && final(self)@ == with_upgraded(old(self)@, name@, now@),
            },
    {
        let ghost before = self@;
        let at = self.operator_place(name);
        if at >= self.operators.len() {
            return Err("operator '".to_owned().concat(name).concat("' not found in hub"));
        }
        let latest = self.operators[at].version.clone();
        let place = self.installed_place(name);
        if place >= self.installed.len() {
            return Err("operator '".to_owned().concat(name).concat("' is not installed"));
        }
        let mut record = self.installed[place].clone();
        if text::text_eq(record.version.as_str(), latest.as_str()) {
            return Err(
                "operator '".to_owned().concat(name).concat(
                    "' is already at latest version ",
                ).concat(latest.as_str()),
            );
        }
        record.version = latest;
        record.status = InstallStatus::Running;
        record.last_reconcile_at = Some(now.to_owned());
        assert(record.deep_view() =~= upgraded(before, name@, now@));
        self.installed.set(place, record.clone());
        assert(self@.installed =~= before.installed.update(
            place as int,
            upgraded(before, name@, now@),
        ));
        assert(self@ =~= with_upgraded(before, name@, now@));
        proof {
            if well_formed(before) {
                lemma_upgrade_keeps_the_hub_well_formed(before, name@, now@);
            }
        }
        Ok(record)
    }

    /// List all installed operators.
    pub fn get_installed(&self) -> (installed: Vec<InstalledOperator>)
        ensures
            installed.deep_view() == self@.installed,
    {
        let ghost all = self.installed.deep_view();
        let mut installed: Vec<InstalledOperator> = Vec::new();
        let mut i: usize = 0;
        assert(installed.deep_view() =~= all.subrange(0, 0));
        while i < self.installed.len()
            invariant
                i <= self.installed.len(),
                all == self.installed.deep_view(),
                installed.deep_view() == all.subrange(0, i as int),
            decreases self.installed.len() - i,
        {
            let ghost before = installed.deep_view();
            installed.push(self.installed[i].clone());
            assert(installed.deep_view() =~= before.push(all[i as int]));
            assert(before.push(all[i as int]) =~= all.subrange(0, i + 1));
            i = i + 1;
        }
        assert(all.subrange(0, all.len() as int) =~= all);
        installed
    }

    /// Check which installed operators have newer versions available.
    pub fn check_updates(&self) -> (available: Vec<(String, String, String)>)
        ensures
            available.deep_view() == updates(self@.operators, self@.installed),
    {
        let ghost all = self.installed.deep_view();
        let ghost registry = self.operators.deep_view();
        let mut available: Vec<(String, String, String)> = Vec::new();
        let mut i: usize = 0;
        assert(available.deep_view() =~= updates(registry, all.subrange(0, 0)));
        while i < self.installed.len()
            invariant
                i <= self.installed.len(),
                all == self.installed.deep_view(),
                registry == self.operators.deep_view(),
                available.deep_view() == updates(registry, all.subrange(0, i as int)),
            decreases self.installed.len() - i,
        {
            let record = &self.installed[i];
            let ghost before = available.deep_view();
            let ghost seen = all.subrange(0, i + 1);
            assert(seen.drop_last() =~= all.subrange(0, i as int));
            assert(seen.last() == record.deep_view());
            let at = self.operator_place(record.name.as_str());
            if at < self.operators.len() {
                let latest = &self.operators[at].version;
                if !text::text_eq(latest.as_str(), record.version.as_str()) {
                    available.push((record.name.clone(), record.version.clone(), latest.clone()));
                    assert(available.deep_view() =~= before.push(
                        (record.name@, record.version@, latest@),
                    ));
                }
            }
            i = i + 1;
        }
        assert(all.subrange(0, all.len() as int) =~= all);
        available
    }

    /// Return summary statistics for the hub.
    pub fn stats(&self) -> (stats: HubStats)
        ensures
            stats.available_count == self@.operators.len(),
            stats.installed_count == self@.installed.len(),
            stats.updates_available == updates(self@.operators, self@.installed).len(),
    {
        let available = self.check_updates();
        assert(available.len() == available.deep_view().len());
        HubStats {
            available_count: self.operators.len(),
            installed_count: self.installed.len(),
            updates_available: available.len(),
        }
    }
}

// ---------------------------------------------------------------------------
// Laws
// ---------------------------------------------------------------------------

/// The first place of a name is where it stands and nothing before it is it.
pub proof fn lemma_first_at_is(names: Seq<Seq<char>>, name: Seq<char>, at: int)
    requires
        0 <= at <= names.len(),
        forall|j: int| 0 <= j < at ==> #[trigger] names[j] != name,
        at < names.len() ==> names[at] == name,
    ensures
        first_at(names, name) == at,
    decreases names.len(),
{
    if at > 0 {
        let rest = names.drop_first();
        assert(names[0] != name);
        assert forall|j: int| 0 <= j < at - 1 implies #[trigger] rest[j] != name by {
            assert(rest[j] == names[j + 1]);
        }
        lemma_first_at_is(rest, name, at - 1);
    }
}

/// The first place of a name holds it, and no place before does.
pub proof fn lemma_first_at(names: Seq<Seq<char>>, name: Seq<char>)
    ensures
        0 <= first_at(names, name) <= names.len(),
        first_at(names, name) < names.len() ==> names[first_at(names, name)] == name,
        forall|j: int| 0 <= j < first_at(names, name) ==> #[trigger] names[j] != name,
    decreases names.len(),
{
    if names.len() > 0 && names[0] != name {
        let rest = names.drop_first();
        lemma_first_at(rest, name);
        assert forall|j: int| 0 <= j < first_at(names, name) implies #[trigger] names[j]
            != name by {
            if j > 0 {
                assert(rest[j - 1] == names[j]);
            }
        }
    }
}

proof fn lemma_bundled_names_differ()
    ensures
        operator_names(bundled()).no_duplicates(),
{
    reveal_strlit("postgresql");
    reveal_strlit("redis");
    reveal_strlit("elasticsearch");
    reveal_strlit("minio");
    reveal_strlit("prometheus");
    let names = operator_names(bundled());
    assert(names[0] == "postgresql"@);
    assert(names[1] == "redis"@);
    assert(names[2] == "elasticsearch"@);
    assert(names[3] == "minio"@);
    assert(names[4] == "prometheus"@);
    assert("redis"@[0] == 'r');
    assert("minio"@[0] == 'm');
    assert("postgresql"@[1] == 'o');
    assert("prometheus"@[1] == 'r');
}

proof fn lemma_install_keeps_the_hub_well_formed(
    hub: OperatorHubView,
    name: Seq<char>,
    now: Seq<char>,
)
    requires
        well_formed(hub),
        install_refusal(hub, name) is None,
    ensures
        well_formed(with_installed(hub, name, now)),
{
    let after = with_installed(hub, name, now);
    let names = installed_names(hub.installed);
    lemma_first_at(names, name);
    assert(installed_names(after.installed) =~= names.push(name));
    assert forall|i: int| 0 <= i < after.installed.len() implies may_be_installed(
        after,
        (#[trigger] after.installed[i]).name,
    ) by {
        if i < hub.installed.len() {
            assert(may_be_installed(hub, hub.installed[i].name));
        }
    }
}

proof fn lemma_uninstall_keeps_the_hub_well_formed(hub: OperatorHubView, name: Seq<char>)
    requires
        well_formed(hub),
        uninstall_refusal(hub, name) is None,
    ensures
        well_formed(without_installed(hub, name)),
{
    let after = without_installed(hub, name);
    let names = installed_names(hub.installed);
    let at = installed_at(hub, name);
    lemma_first_at(names, name);
    assert(installed_names(after.installed) =~= names.remove(at));
    assert forall|i: int| 0 <= i < after.installed.len() implies may_be_installed(
        after,
        (#[trigger] after.installed[i]).name,
    ) by {
        if i < at {
            assert(may_be_installed(hub, hub.installed[i].name));
        } else {
            assert(may_be_installed(hub, hub.installed[i + 1].name));
        }
    }
}

proof fn lemma_upgrade_keeps_the_hub_well_formed(
    hub: OperatorHubView,
    name: Seq<char>,
    now: Seq<char>,
)
    requires
        well_formed(hub),
        upgrade_refusal(hub, name) is None,
    ensures
        well_formed(with_upgraded(hub, name, now)),
{
    let after = with_upgraded(hub, name, now);
    let names = installed_names(hub.installed);
    lemma_first_at(names, name);
    assert(installed_names(after.installed) =~= names);
    assert forall|i: int| 0 <= i < after.installed.len() implies may_be_installed(
        after,
        (#[trigger] after.installed[i]).name,
    ) by {
        assert(may_be_installed(hub, hub.installed[i].name));
    }
}

/// Uninstalling an operator right after installing it gives back the hub as it was.
pub proof fn law_uninstalling_undoes_installing(
    hub: OperatorHubView,
    name: Seq<char>,
    now: Seq<char>,
)
    requires
        well_formed(hub),
        install_refusal(hub, name) is None,
    ensures
        uninstall_refusal(with_installed(hub, name, now), name) is None,
        without_installed(with_installed(hub, name, now), name) == hub,
{
    let after = with_installed(hub, name, now);
    let names = installed_names(hub.installed);
    lemma_first_at(names, name);
    assert(installed_names(after.installed) =~= names.push(name));
    assert forall|j: int| 0 <= j < names.len() implies #[trigger] names.push(name)[j] != name by {
        assert(names.push(name)[j] == names[j]);
    }
    lemma_first_at_is(names.push(name), name, names.len() as int);
    assert(after.installed.remove(hub.installed.len() as int) =~= hub.installed);
    assert(without_installed(after, name) =~= hub);
}

/// An installed operator cannot be installed again, until it is uninstalled.
pub proof fn law_nothing_is_installed_twice(hub: OperatorHubView, name: Seq<char>)
    requires
        is_installed(hub, name),
    ensures
        install_refusal(hub, name) is Some,
{
}

/// An upgrade reaches the version of the registry: upgrading again is refused, and the operator
/// is no longer outdated.
pub proof fn law_an_upgrade_reaches_the_latest_version(
    hub: OperatorHubView,
    name: Seq<char>,
    now: Seq<char>,
)
    requires
        upgrade_refusal(hub, name) is None,
    ensures
        ({
            let after = with_upgraded(hub, name, now);
            let record = after.installed[installed_at(after, name)];
            &&& is_installed(after, name)
            &&& record.version == operator_named(hub.operators, name)->0.version
            &&& !outdated(hub.operators, record)
            &&& upgrade_refusal(after, name) is Some
        }),
{
    let after = with_upgraded(hub, name, now);
    let names = installed_names(hub.installed);
    lemma_first_at(names, name);
    assert(installed_names(after.installed) =~= names);
    assert(names[installed_at(hub, name)] == name);
}

/// An operator is installed at the version of the registry, so it needs no update.
pub proof fn law_a_fresh_install_needs_no_update(
    hub: OperatorHubView,
    name: Seq<char>,
    now: Seq<char>,
)
    requires
        install_refusal(hub, name) is None,
    ensures
        updates(hub.operators, with_installed(hub, name, now).installed) == updates(
            hub.operators,
            hub.installed,
        ),
{
    let after = with_installed(hub, name, now).installed;
    assert(after.drop_last() =~= hub.installed);
}

/// The updates are at most as many as the installed operators.
pub proof fn law_updates_are_for_installed_operators(
    operators: Seq<HubOperatorView>,
    installed: Seq<InstalledOperatorView>,
)
    ensures
        updates(operators, installed).len() <= installed.len(),
        forall|i: int|
            0 <= i < updates(operators, installed).len() ==> installed_names(installed).contains(
                (#[trigger] updates(operators, installed)[i]).0,
            ),
    decreases installed.len(),
{
    if installed.len() > 0 {
        let front = installed.drop_last();
        law_updates_are_for_installed_operators(operators, front);
        let names = installed_names(installed);
        assert forall|i: int| 0 <= i < updates(operators, installed).len() implies names.contains(
            (#[trigger] updates(operators, installed)[i]).0,
        ) by {
            let before = updates(operators, front);
            if i < before.len() {
                assert(installed_names(front).contains(before[i].0));
                let j = choose|j: int|
                    0 <= j < front.len() && installed_names(front)[j] == before[i].0;
                assert(names[j] == before[i].0);
            } else {
                assert(names[installed.len() - 1] == installed.last().name);
            }
        }
    }
}

/// Every bundled operator can be installed in a fresh hub that has room for one.
pub proof fn law_bundled_operators_can_be_installed(config: HubConfigView, i: int)
    requires
        config.max_installed > 0,
        0 <= i < 5,
    ensures
        install_refusal(fresh_hub(config), BUNDLED_OPERATORS[i].0@) is None,
{
    lemma_bundled_names_differ();
    let hub = fresh_hub(config);
    let names = operator_names(hub.operators);
    let name = BUNDLED_OPERATORS[i].0@;
    assert(names[i] == name);
    lemma_first_at(names, name);
    let at = first_at(names, name);
    assert(at <= i);
    lemma_first_at(installed_names(hub.installed), name);
}

} // verus!
