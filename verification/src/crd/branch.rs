//! StreamlineBranch: a declarative time-travel branch.
//!
//! A `StreamlineBranch` references a parent cluster and an optional source branch, and exposes
//! the branch's lifecycle through `status`.

use crate::conditions::ConditionView;
use crate::crd::definition;
use crate::crd::definition::ResourceDefinition;
use crate::objects::{ResourceMeta, ResourceMetaView};
use vstd::prelude::*;

verus! {

/// A StreamlineBranch resource.
#[derive(Debug, PartialEq, Eq)]
pub struct StreamlineBranch {
    pub metadata: ResourceMeta,
    pub spec: BranchSpec,
    pub status: Option<BranchStatus>,
}

/// What a [`StreamlineBranch`] holds, over characters and sequences.
#[verifier::ext_equal]
pub struct StreamlineBranchView {
    pub metadata: ResourceMetaView,
    pub spec: BranchSpecView,
    pub status: Option<BranchStatusView>,
}

impl DeepView for StreamlineBranch {
    type V = StreamlineBranchView;

    open spec fn deep_view(&self) -> StreamlineBranchView {
        StreamlineBranchView {
            metadata: self.metadata.deep_view(),
            spec: self.spec.deep_view(),
            status: self.status.deep_view(),
        }
    }
}

impl Clone for StreamlineBranch {
    fn clone(&self) -> (copy: Self)
        ensures
            copy.deep_view() == self.deep_view(),
    {
        StreamlineBranch {
            metadata: self.metadata.clone(),
            spec: self.spec.clone(),
            status: self.status.clone(),
        }
    }
}

/// StreamlineBranch is the Schema for the streamlinebranches API.
#[derive(Debug, PartialEq, Eq)]
pub struct BranchSpec {
    /// Reference to the parent StreamlineCluster (by metadata.name).
    pub cluster_ref: String,
    /// Parent branch name. Defaults to the cluster's main branch when empty.
    pub parent: Option<String>,
    /// Optional human-readable description.
    pub description: Option<String>,
    /// Optional retention policy for branch state. When `None`, the cluster
    /// default applies.
    pub retention: Option<BranchRetention>,
}

/// What a [`BranchSpec`] holds, over characters and sequences.
#[verifier::ext_equal]
pub struct BranchSpecView {
    pub cluster_ref: Seq<char>,
    pub parent: Option<Seq<char>>,
    pub description: Option<Seq<char>>,
    pub retention: Option<BranchRetention>,
}

impl DeepView for BranchSpec {
    type V = BranchSpecView;

    open spec fn deep_view(&self) -> BranchSpecView {
        BranchSpecView {
            cluster_ref: self.cluster_ref@,
            parent: self.parent.deep_view(),
            description: self.description.deep_view(),
            retention: self.retention,
        }
    }
}

impl Clone for BranchSpec {
    fn clone(&self) -> (copy: Self)
        ensures
            copy.deep_view() == self.deep_view(),
    {
        BranchSpec {
            cluster_ref: self.cluster_ref.clone(),
            parent: self.parent.clone(),
            description: self.description.clone(),
            retention: self.retention,
        }
    }
}

/// Branch retention policy.
#[derive(Clone, Copy, Debug, PartialEq, Eq, Structural)]
pub struct BranchRetention {
    /// TTL in seconds after which the branch may be GC'd. 0 = keep forever.
    pub ttl_seconds: i64,
}

impl DeepView for BranchRetention {
    type V = Self;

    open spec fn deep_view(&self) -> Self {
        *self
    }
}

/// Lifecycle phase reported by the controller.
#[derive(Clone, Copy, Debug, PartialEq, Eq, Structural)]
pub enum BranchPhase {
    Pending,
    Creating,
    Ready,
    Failed,
    Deleting,
}

impl DeepView for BranchPhase {
    type V = Self;

    open spec fn deep_view(&self) -> Self {
        *self
    }
}

/// BranchStatus describes the observed state of a branch.
#[derive(Debug, PartialEq, Eq)]
pub struct BranchStatus {
    /// Current lifecycle phase.
    pub phase: BranchPhase,
    /// Whether the branch is ready for reads.
    pub ready: bool,
    /// Branch creation timestamp (Unix epoch milliseconds), as reported by
    /// the broker.
    pub created_at_ms: Option<i64>,
    /// Last observed message from the broker / reconciler.
    pub message: Option<String>,
    /// Standard k8s-style conditions.
    pub conditions: Vec<BranchCondition>,
}

/// What a [`BranchStatus`] holds, over characters and sequences.
#[verifier::ext_equal]
pub struct BranchStatusView {
    pub phase: BranchPhase,
    pub ready: bool,
    pub created_at_ms: Option<i64>,
    pub message: Option<Seq<char>>,
    pub conditions: Seq<ConditionView>,
}

impl DeepView for BranchStatus {
    type V = BranchStatusView;

    open spec fn deep_view(&self) -> BranchStatusView {
        BranchStatusView {
            phase: self.phase,
            ready: self.ready,
            created_at_ms: self.created_at_ms,
            message: self.message.deep_view(),
            conditions: self.conditions.deep_view(),
        }
    }
}

impl Clone for BranchStatus {
    fn clone(&self) -> (copy: Self)
        ensures
            copy.deep_view() == self.deep_view(),
    {
        let copy = BranchStatus {
            phase: self.phase,
            ready: self.ready,
            created_at_ms: self.created_at_ms,
            message: self.message.clone(),
            conditions: self.conditions.clone(),
        };
        assert(copy.conditions.deep_view() =~= self.conditions.deep_view());
        copy
    }
}

/// A single status condition.
#[derive(Debug, PartialEq, Eq)]
pub struct BranchCondition {
    pub type_: String,
    pub status: String,
    pub last_transition_time: Option<String>,
    pub reason: Option<String>,
    pub message: Option<String>,
}

impl DeepView for BranchCondition {
    type V = ConditionView;

    open spec fn deep_view(&self) -> ConditionView {
        ConditionView {
            condition_type: self.type_@,
            status: self.status@,
            last_transition_time: self.last_transition_time.deep_view(),
            reason: self.reason.deep_view(),
            message: self.message.deep_view(),
        }
    }
}

impl Clone for BranchCondition {
    fn clone(&self) -> (copy: Self)
        ensures
            copy.deep_view() == self.deep_view(),
    {
        BranchCondition {
            type_: self.type_.clone(),
            status: self.status.clone(),
            last_transition_time: self.last_transition_time.clone(),
            reason: self.reason.clone(),
            message: self.message.clone(),
        }
    }
}

/// The branch specification that names only its cluster.
pub open spec fn minimal_branch(cluster_ref: Seq<char>) -> BranchSpecView {
    BranchSpecView { cluster_ref, parent: None, description: None, retention: None }
}

/// The status of a branch that nothing is known of.
pub open spec fn unknown_branch() -> BranchStatusView {
    BranchStatusView {
        phase: BranchPhase::Pending,
        ready: false,
        created_at_ms: None,
        message: None,
        conditions: Seq::empty(),
    }
}

impl BranchSpec {
    /// The specification of a manifest that names only its cluster.
    pub fn new(cluster_ref: &str) -> (spec: Self)
        ensures
            spec.deep_view() == minimal_branch(cluster_ref@),
    {
        BranchSpec {
            cluster_ref: cluster_ref.to_owned(),
            parent: None,
            description: None,
            retention: None,
        }
    }
}

impl StreamlineBranch {
    /// A branch that no status was published for yet.
    pub fn new(name: &str, spec: BranchSpec) -> (branch: Self)
        ensures
            branch.deep_view() == (StreamlineBranchView {
                metadata: crate::objects::named_meta(name@),
                spec: spec.deep_view(),
                status: None,
            }),
    {
        StreamlineBranch { metadata: ResourceMeta::named(name), spec, status: None }
    }

    /// How the kind is known to the API server.
    pub fn crd() -> (definition: ResourceDefinition)
        ensures
            definition.deep_view() == definition::definition_of(
                "StreamlineBranch"@,
                "streamlinebranches"@,
                "slb"@,
            ),
    {
        definition::define("StreamlineBranch", "streamlinebranches", "slb")
    }
}

impl Default for BranchRetention {
    fn default() -> (retention: Self)
        ensures
            retention.ttl_seconds == 0,
    {
        BranchRetention { ttl_seconds: 0 }
    }
}

impl Default for BranchPhase {
    fn default() -> (phase: Self)
        ensures
            phase == BranchPhase::Pending,
    {
        BranchPhase::Pending
    }
}

impl Default for BranchStatus {
    fn default() -> (status: Self)
        ensures
            status.deep_view() == unknown_branch(),
    {
        let status = BranchStatus {
            phase: BranchPhase::Pending,
            ready: false,
            created_at_ms: None,
            message: None,
            conditions: Vec::new(),
        };
        assert(status.conditions.deep_view() =~= Seq::empty());
        status
    }
}

} // verus!
