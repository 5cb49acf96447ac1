//! Reconciliation logic of the Streamline operator.
//!
//! Each controller decides, for one custom resource, what a reconcile does and which status
//! it publishes. What a decision needs from the outside comes in as plain values.

use crate::crd::{StreamlineCluster, StreamlineClusterView};
use crate::error::{OperatorError, OperatorErrorView};
use crate::text;
use vstd::prelude::*;
use vstd::string::*;

pub mod autoscaling;
pub mod branch;
pub mod cluster;
pub mod contract;
pub mod memory;
pub mod operator_hub;
pub mod scale_to_zero;
pub mod topic;
pub mod user;

pub use autoscaling::{
    AutoScalingConfig, AutoScalingController, CustomMetric, DeleteOutcome, HpaAction,
    MetricTargetSpec, PartitionMetrics, ScalingBehavior, ScalingPolicy, ScalingRecommendation,
    ScalingRules,
};
pub use branch::BranchController;
pub use cluster::ClusterController;
pub use contract::ContractController;
pub use memory::MemoryController;
pub use operator_hub::{
    HubConfig, HubOperator, HubStats, InstallStatus, InstalledOperator, IntegrationType,
    OperatorCategory, OperatorHub, BUNDLED_OPERATORS,
};
pub use scale_to_zero::{
    build_activity_snapshot, ClusterActivitySnapshot, KedaConfig, KedaTrigger, ScaleAction,
    ScaleToZeroAction, ScaleToZeroConfig, ScaleToZeroController,
};
pub use topic::TopicController;
pub use user::UserController;

verus! {

/// Which namespaces a controller watches.
#[derive(Debug, PartialEq, Eq)]
pub enum WatchScope {
    /// Watch custom resources in every namespace. Requires cluster-wide RBAC.
    AllNamespaces,
    /// Watch custom resources in exactly one namespace.
    Namespace(String),
}

/// What a [`WatchScope`] covers.
#[verifier::ext_equal]
pub enum WatchScopeView {
    AllNamespaces,
    Namespace(Seq<char>),
}

impl DeepView for WatchScope {
    type V = WatchScopeView;

    open spec fn deep_view(&self) -> WatchScopeView {
        match self {
            WatchScope::AllNamespaces => WatchScopeView::AllNamespaces,
            WatchScope::Namespace(ns) => WatchScopeView::Namespace(ns@),
        }
    }
}

impl Clone for WatchScope {
    fn clone(&self) -> (copy: Self)
        ensures
            copy.deep_view() == self.deep_view(),
    {
        match self {
            WatchScope::AllNamespaces => WatchScope::AllNamespaces,
            WatchScope::Namespace(ns) => WatchScope::Namespace(ns.clone()),
        }
    }
}

/// The scope that a `--namespace` flag asks for.
pub open spec fn scope_of_flag(flag: Seq<char>) -> WatchScopeView {
    if text::trimmed(flag).len() == 0 {
        WatchScopeView::AllNamespaces
    } else {
        WatchScopeView::Namespace(text::trimmed(flag))
    }
}

impl WatchScope {
    /// Build a scope from the `--namespace` flag: empty (or whitespace) means
    /// cluster-wide, anything else names the single namespace to watch.
    pub fn from_flag(namespace: &str) -> (scope: Self)
        ensures
            scope.deep_view() == scope_of_flag(namespace@),
    {
        let trimmed = text::trim_text(namespace);
        if trimmed.is_empty() {
            WatchScope::AllNamespaces
        } else {
            WatchScope::Namespace(trimmed.to_owned())
        }
    }

    /// The namespace being watched, or `None` for cluster-wide.
    pub fn namespace(&self) -> (namespace: Option<&str>)
        ensures
            namespace.deep_view() == match self.deep_view() {
                WatchScopeView::AllNamespaces => None,
                WatchScopeView::Namespace(ns) => Some(ns),
            },
    {
        match self {
            WatchScope::AllNamespaces => None,
            WatchScope::Namespace(ns) => Some(ns.as_str()),
        }
    }

    /// Human-readable description for startup logging.
    pub fn describe(&self) -> (description: &str)
        ensures
            description@ == match self.deep_view() {
                WatchScopeView::AllNamespaces => "all namespaces"@,
                WatchScopeView::Namespace(ns) => ns,
            },
    {
        match self {
            WatchScope::AllNamespaces => "all namespaces",
            WatchScope::Namespace(ns) => ns.as_str(),
        }
    }
}

/// When a resource is reconciled next.
#[derive(Clone, Copy, Debug, PartialEq, Eq, Structural)]
pub enum NextReconcile {
    /// Only after it changes
    AwaitChange,
    /// After this many seconds at the latest
    After(u64),
}

impl DeepView for NextReconcile {
    type V = Self;

    open spec fn deep_view(&self) -> Self {
        *self
    }
}

/// How a reconcile counts in the metrics.
#[derive(Clone, Copy, Debug, PartialEq, Eq, Structural)]
pub enum ReconcileVerdict {
    /// As a success
    Success,
    /// As an error
    Error,
    /// As neither
    Uncounted,
}

impl DeepView for ReconcileVerdict {
    type V = Self;

    open spec fn deep_view(&self) -> Self {
        *self
    }
}

/// How long a failed reconcile waits, by the category of its error.
pub open spec fn backoff_secs(error: OperatorErrorView) -> u64 {
    match error {
        // Transient API errors: retry quickly
        OperatorErrorView::KubeApi(_) | OperatorErrorView::Http(_) => 10,
        // Resource not yet available: moderate wait
        OperatorErrorView::NotFound(_) => 15,
        // Reconciliation/state issues: longer wait
        OperatorErrorView::Reconciliation(_) | OperatorErrorView::InvalidState(_) => 30,
        // Errors that are unlikely to heal by themselves: back off further
        OperatorErrorView::Configuration(_) | OperatorErrorView::Serialization(_) => 60,
        OperatorErrorView::Internal(_) => 60,
    }
}

/// Backoff error policy for controller reconciliation failures.
/// Categorizes errors by severity to choose appropriate retry delays.
pub fn error_policy_backoff(error: &OperatorError) -> (next: NextReconcile)
    ensures
        next == NextReconcile::After(backoff_secs(error.deep_view())),
{
    let delay_secs: u64 = match error {
        // Transient K8s API errors: retry quickly
        OperatorError::KubeApi(_) => 10,
        OperatorError::Http(_) => 10,
        // Resource not yet available: moderate wait
        OperatorError::NotFound(_) => 15,
        // Reconciliation/state issues: longer wait
        OperatorError::Reconciliation(_) => 30,
        OperatorError::InvalidState(_) => 30,
        // Config/serialization errors unlikely to self-heal: back off further
        OperatorError::Configuration(_) => 60,
        OperatorError::Serialization(_) => 60,
        // Internal errors: back off further
        OperatorError::Internal(_) => 60,
    };
    NextReconcile::After(delay_secs)
}

/// Whether a cluster can take requests: it has a ready broker and a known address.
pub open spec fn takes_requests(cluster: StreamlineClusterView) -> bool {
    cluster.status is Some && cluster.status->0.ready_replicas > 0
        && cluster.status->0.broker_endpoints.len() > 0
}

/// The HTTP address of the first broker of a cluster.
pub open spec fn http_endpoint(cluster: StreamlineClusterView, namespace: Seq<char>) -> Seq<char> {
    "http://"@ + cluster.metadata.name + "-0."@ + cluster.metadata.name + "-headless."@ + namespace
        + ".svc:"@ + text::decimal(cluster.spec.http_port as int)
}

/// Whether an HTTP status code reports success.
pub open spec fn is_success(code: u16) -> bool {
    200 <= code < 300
}

/// Whether a create request was honoured: it succeeded, or the object is there already.
pub open spec fn is_accepted(code: u16) -> bool {
    is_success(code) || code == 409
}

/// Whether a cluster can take requests: it has a ready broker and a known address.
pub fn cluster_is_ready(cluster: &StreamlineCluster) -> (ready: bool)
    ensures
        ready == takes_requests(cluster.deep_view()),
{
    match &cluster.status {
        Some(status) => {
            assert(status.broker_endpoints.deep_view().len() == status.broker_endpoints.len());
            status.ready_replicas > 0 && !status.broker_endpoints.is_empty()
        },
        None => false,
    }
}

/// The HTTP address of the first broker of a cluster.
pub fn broker_http_endpoint(cluster: &StreamlineCluster, namespace: &str) -> (endpoint: String)
    ensures
        endpoint@ == http_endpoint(cluster.deep_view(), namespace@),
{
    "http://".to_owned().concat(cluster.metadata.name.as_str()).concat("-0.").concat(
        cluster.metadata.name.as_str(),
    ).concat("-headless.").concat(namespace).concat(".svc:").concat(
        text::i32_text(cluster.spec.http_port).as_str(),
    )
}

/// Whether an HTTP status code reports success.
pub fn http_success(code: u16) -> (success: bool)
    ensures
        success == is_success(code),
{
    200 <= code && code < 300
}

/// Whether a create request was honoured: it succeeded, or the object is there already.
pub fn create_accepted(code: u16) -> (accepted: bool)
    ensures
        accepted == is_accepted(code),
{
    http_success(code) || code == 409
}

/// A scope is cluster-wide exactly when its flag is blank, and white space around the flag is
/// no part of the namespace.
pub proof fn law_a_blank_flag_watches_everything(flag: Seq<char>)
    ensures
        scope_of_flag(flag) == WatchScopeView::AllNamespaces <==> text::is_blank(flag),
        !text::is_blank(flag) ==> scope_of_flag(flag) == WatchScopeView::Namespace(
            text::trimmed(flag),
        ),
{
    text::law_blank_is_trimmed_away(flag);
}

} // verus!
