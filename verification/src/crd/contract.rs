//! StreamlineContract: a declarative data contract.
//!
//! A `StreamlineContract` registers an enforced schema with the broker; producers writing to
//! topics bound to the contract must satisfy it.

use crate::conditions::ConditionView;
use crate::crd::definition;
use crate::crd::definition::ResourceDefinition;
use crate::objects::{ResourceMeta, ResourceMetaView};
use vstd::prelude::*;

verus! {

/// A StreamlineContract resource.
#[derive(Debug, PartialEq, Eq)]
pub struct StreamlineContract {
    pub metadata: ResourceMeta,
    pub spec: ContractSpec,
    pub status: Option<ContractStatus>,
}

/// What a [`StreamlineContract`] holds, over characters and sequences.
#[verifier::ext_equal]
pub struct StreamlineContractView {
    pub metadata: ResourceMetaView,
    pub spec: ContractSpecView,
    pub status: Option<ContractStatusView>,
}

impl DeepView for StreamlineContract {
    type V = StreamlineContractView;

    open spec fn deep_view(&self) -> StreamlineContractView {
        StreamlineContractView {
            metadata: self.metadata.deep_view(),
            spec: self.spec.deep_view(),
            status: self.status.deep_view(),
        }
    }
}

impl Clone for StreamlineContract {
    fn clone(&self) -> (copy: Self)
        ensures
            copy.deep_view() == self.deep_view(),
    {
        StreamlineContract {
            metadata: self.metadata.clone(),
            spec: self.spec.clone(),
            status: self.status.clone(),
        }
    }
}

/// StreamlineContract is the Schema for the streamlinecontracts API.
#[derive(Debug, PartialEq, Eq)]
pub struct ContractSpec {
    /// Reference to the parent StreamlineCluster.
    pub cluster_ref: String,
    /// JSON-encoded schema body. Stored verbatim; the broker validates it on
    /// register. Kept as a string so the CRD schema does not have to anticipate
    /// every schema dialect.
    pub schema_json: String,
    /// Compatibility policy. Defaults to `BACKWARD` server-side when empty.
    pub compatibility: ContractCompatibility,
    /// Optional list of topic name patterns this contract should bind to.
    pub bind_topics: Vec<String>,
}

/// What a [`ContractSpec`] holds, over characters and sequences.
#[verifier::ext_equal]
pub struct ContractSpecView {
    pub cluster_ref: Seq<char>,
    pub schema_json: Seq<char>,
    pub compatibility: ContractCompatibility,
    pub bind_topics: Seq<Seq<char>>,
}

impl DeepView for ContractSpec {
    type V = ContractSpecView;

    open spec fn deep_view(&self) -> ContractSpecView {
        ContractSpecView {
            cluster_ref: self.cluster_ref@,
            schema_json: self.schema_json@,
            compatibility: self.compatibility,
            bind_topics: self.bind_topics.deep_view(),
        }
    }
}

impl Clone for ContractSpec {
    fn clone(&self) -> (copy: Self)
        ensures
            copy.deep_view() == self.deep_view(),
    {
        let copy = ContractSpec {
            cluster_ref: self.cluster_ref.clone(),
            schema_json: self.schema_json.clone(),
            compatibility: self.compatibility,
            bind_topics: self.bind_topics.clone(),
        };
        assert(copy.bind_topics.deep_view() =~= self.bind_topics.deep_view());
        copy
    }
}

/// Schema compatibility policies recognised by the control plane.
#[derive(Clone, Copy, Debug, PartialEq, Eq, Structural)]
pub enum ContractCompatibility {
    Backward,
    Forward,
    Full,
    /// Any change of the schema is accepted
    Unchecked,
}

impl DeepView for ContractCompatibility {
    type V = Self;

    open spec fn deep_view(&self) -> Self {
        *self
    }
}

/// Lifecycle phase reported by the controller.
#[derive(Clone, Copy, Debug, PartialEq, Eq, Structural)]
pub enum ContractPhase {
    Pending,
    Registering,
    Active,
    Failed,
    Deleting,
}

impl DeepView for ContractPhase {
    type V = Self;

    open spec fn deep_view(&self) -> Self {
        *self
    }
}

/// ContractStatus describes the observed state of a contract.
#[derive(Debug, PartialEq, Eq)]
pub struct ContractStatus {
    /// Current lifecycle phase.
    pub phase: ContractPhase,
    /// Whether the contract is currently registered and active.
    pub registered: bool,
    /// Topics the broker confirms are bound to this contract.
    pub bound_topics: Vec<String>,
    /// Last observed message from the broker / reconciler.
    pub message: Option<String>,
    /// Standard k8s-style conditions.
    pub conditions: Vec<ContractCondition>,
}

/// What a [`ContractStatus`] holds, over characters and sequences.
#[verifier::ext_equal]
pub struct ContractStatusView {
    pub phase: ContractPhase,
    pub registered: bool,
    pub bound_topics: Seq<Seq<char>>,
    pub message: Option<Seq<char>>,
    pub conditions: Seq<ConditionView>,
}

impl DeepView for ContractStatus {
    type V = ContractStatusView;

    open spec fn deep_view(&self) -> ContractStatusView {
        ContractStatusView {
            phase: self.phase,
            registered: self.registered,
            bound_topics: self.bound_topics.deep_view(),
            message: self.message.deep_view(),
            conditions: self.conditions.deep_view(),
        }
    }
}

impl Clone for ContractStatus {
    fn clone(&self) -> (copy: Self)
        ensures
            copy.deep_view() == self.deep_view(),
    {
        let copy = ContractStatus {
            phase: self.phase,
            registered: self.registered,
            bound_topics: self.bound_topics.clone(),
            message: self.message.clone(),
            conditions: self.conditions.clone(),
        };
        assert(copy.bound_topics.deep_view() =~= self.bound_topics.deep_view());
        assert(copy.conditions.deep_view() =~= self.conditions.deep_view());
        copy
    }
}

/// A single status condition.
#[derive(Debug, PartialEq, Eq)]
pub struct ContractCondition {
    pub type_: String,
    pub status: String,
    pub last_transition_time: Option<String>,
    pub reason: Option<String>,
    pub message: Option<String>,
}

impl DeepView for ContractCondition {
    type V = ConditionView;

    open spec fn deep_view(&self) -> ConditionView {
        ConditionView {
            condition_type: self.type_@,
            status: self.status@,
            last_transition_time: self.last_transition_time.deep_view(),
            reason: self.reason.deep_view(),
            message: self.message.deep_view(),
        }
    }
}

impl Clone for ContractCondition {
    fn clone(&self) -> (copy: Self)
        ensures
            copy.deep_view() == self.deep_view(),
    {
        ContractCondition {
            type_: self.type_.clone(),
            status: self.status.clone(),
            last_transition_time: self.last_transition_time.clone(),
            reason: self.reason.clone(),
            message: self.message.clone(),
        }
    }
}

/// The contract specification that sets nothing but its cluster and its schema.
pub open spec fn minimal_contract(
    cluster_ref: Seq<char>,
    schema_json: Seq<char>,
) -> ContractSpecView {
    ContractSpecView {
        cluster_ref,
        schema_json,
        compatibility: ContractCompatibility::Backward,
        bind_topics: Seq::empty(),
    }
}

/// The status of a contract that nothing is known of.
pub open spec fn unknown_contract() -> ContractStatusView {
    ContractStatusView {
        phase: ContractPhase::Pending,
        registered: false,
        bound_topics: Seq::empty(),
        message: None,
        conditions: Seq::empty(),
    }
}

/// How a compatibility policy is written in manifests and requests.
pub open spec fn compatibility_text(compatibility: ContractCompatibility) -> Seq<char> {
    match compatibility {
        ContractCompatibility::Backward => "BACKWARD"@,
        ContractCompatibility::Forward => "FORWARD"@,
        ContractCompatibility::Full => "FULL"@,
        ContractCompatibility::Unchecked => "NONE"@,
    }
}

/// The compatibility policy that is used unless one is set.
pub fn default_compatibility() -> (compatibility: ContractCompatibility)
    ensures
        compatibility == ContractCompatibility::Backward,
{
    ContractCompatibility::Backward
}

impl ContractCompatibility {
    /// How the policy is written in manifests and requests.
    pub fn as_text(&self) -> (text: &'static str)
        ensures
            text@ == compatibility_text(*self),
    {
        match self {
            ContractCompatibility::Backward => "BACKWARD",
            ContractCompatibility::Forward => "FORWARD",
            ContractCompatibility::Full => "FULL",
            ContractCompatibility::Unchecked => "NONE",
        }
    }
}

impl ContractSpec {
    /// The specification of a manifest that sets nothing but its cluster and its schema.
    pub fn new(cluster_ref: &str, schema_json: &str) -> (spec: Self)
        ensures
            spec.deep_view() == minimal_contract(cluster_ref@, schema_json@),
    {
        let spec = ContractSpec {
            cluster_ref: cluster_ref.to_owned(),
            schema_json: schema_json.to_owned(),
            compatibility: default_compatibility(),
            bind_topics: Vec::new(),
        };
        assert(spec.bind_topics.deep_view() =~= Seq::empty());
        spec
    }
}

impl StreamlineContract {
    /// A contract that no status was published for yet.
    pub fn new(name: &str, spec: ContractSpec) -> (contract: Self)
        ensures
            contract.deep_view() == (StreamlineContractView {
                metadata: crate::objects::named_meta(name@),
                spec: spec.deep_view(),
                status: None,
            }),
    {
        StreamlineContract { metadata: ResourceMeta::named(name), spec, status: None }
    }

    /// How the kind is known to the API server.
    pub fn crd() -> (definition: ResourceDefinition)
        ensures
            definition.deep_view() == definition::definition_of(
                "StreamlineContract"@,
                "streamlinecontracts"@,
                "slc"@,
            ),
    {
        definition::define("StreamlineContract", "streamlinecontracts", "slc")
    }
}

impl Default for ContractCompatibility {
    fn default() -> (compatibility: Self)
        ensures
            compatibility == ContractCompatibility::Backward,
    {
        ContractCompatibility::Backward
    }
}

impl Default for ContractPhase {
    fn default() -> (phase: Self)
        ensures
            phase == ContractPhase::Pending,
    {
        ContractPhase::Pending
    }
}

impl Default for ContractStatus {
    fn default() -> (status: Self)
        ensures
            status.deep_view() == unknown_contract(),
    {
        let status = ContractStatus {
            phase: ContractPhase::Pending,
            registered: false,
            bound_topics: Vec::new(),
            message: None,
            conditions: Vec::new(),
        };
        assert(status.bound_topics.deep_view() =~= Seq::empty());
        assert(status.conditions.deep_view() =~= Seq::empty());
        status
    }
}

/// No two compatibility policies are written alike.
pub proof fn law_compatibility_texts_differ(one: ContractCompatibility, other: ContractCompatibility)
    ensures
        compatibility_text(one) == compatibility_text(other) ==> one == other,
{
    reveal_strlit("BACKWARD");
    reveal_strlit("FORWARD");
    reveal_strlit("FULL");
    reveal_strlit("NONE");
    assert("BACKWARD"@.len() == 8);
    assert("FORWARD"@.len() == 7);
    assert("FULL"@[0] == 'F');
    assert("NONE"@[0] == 'N');
}

} // verus!
