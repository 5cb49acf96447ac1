//! StreamlineMemory: the memory topics of an AI agent.
//!
//! A `StreamlineMemory` manages episodic, semantic, and procedural memory topics for a specific
//! agent, including retention policies, decay configuration, and optional encryption.

use crate::conditions::ConditionView;
use crate::crd::definition;
use crate::crd::definition::ResourceDefinition;
use crate::objects::{ResourceMeta, ResourceMetaView};
use vstd::prelude::*;

verus! {

/// A StreamlineMemory resource.
#[derive(Debug, PartialEq, Eq)]
pub struct StreamlineMemory {
    pub metadata: ResourceMeta,
    pub spec: MemorySpec,
    pub status: Option<MemoryStatus>,
}

/// What a [`StreamlineMemory`] holds, over characters and sequences.
#[verifier::ext_equal]
pub struct StreamlineMemoryView {
    pub metadata: ResourceMetaView,
    pub spec: MemorySpecView,
    pub status: Option<MemoryStatusView>,
}

impl DeepView for StreamlineMemory {
    type V = StreamlineMemoryView;

    open spec fn deep_view(&self) -> StreamlineMemoryView {
        StreamlineMemoryView {
            metadata: self.metadata.deep_view(),
            spec: self.spec.deep_view(),
            status: self.status.deep_view(),
        }
    }
}

impl Clone for StreamlineMemory {
    fn clone(&self) -> (copy: Self)
        ensures
            copy.deep_view() == self.deep_view(),
    {
        StreamlineMemory {
            metadata: self.metadata.clone(),
            spec: self.spec.clone(),
            status: self.status.clone(),
        }
    }
}

/// StreamlineMemory is the Schema for the streamlinememories API.
#[derive(Debug, PartialEq, Eq)]
pub struct MemorySpec {
    /// Unique agent identifier that owns this memory partition.
    pub agent_id: String,
    /// Tenant or namespace for multi-tenant deployments.
    pub tenant: String,
    /// Reference to the parent StreamlineCluster (by metadata.name).
    pub cluster_ref: String,
    /// Memory tier retention configuration.
    pub tiers: MemoryTiers,
    /// Memory decay configuration for automatic relevance scoring.
    pub decay: Option<MemoryDecay>,
    /// Whether to enable encryption at rest for memory topics.
    pub encryption_enabled: bool,
}

/// What a [`MemorySpec`] holds, over characters and sequences.
#[verifier::ext_equal]
pub struct MemorySpecView {
    pub agent_id: Seq<char>,
    pub tenant: Seq<char>,
    pub cluster_ref: Seq<char>,
    pub tiers: MemoryTiers,
    pub decay: Option<MemoryDecay>,
    pub encryption_enabled: bool,
}

impl DeepView for MemorySpec {
    type V = MemorySpecView;

    open spec fn deep_view(&self) -> MemorySpecView {
        MemorySpecView {
            agent_id: self.agent_id@,
            tenant: self.tenant@,
            cluster_ref: self.cluster_ref@,
            tiers: self.tiers,
            decay: self.decay,
            encryption_enabled: self.encryption_enabled,
        }
    }
}

impl Clone for MemorySpec {
    fn clone(&self) -> (copy: Self)
        ensures
            copy.deep_view() == self.deep_view(),
    {
        MemorySpec {
            agent_id: self.agent_id.clone(),
            tenant: self.tenant.clone(),
            cluster_ref: self.cluster_ref.clone(),
            tiers: self.tiers,
            decay: self.decay,
            encryption_enabled: self.encryption_enabled,
        }
    }
}

/// Retention configuration for each memory tier.
#[derive(Clone, Copy, Debug, PartialEq, Eq, Structural)]
pub struct MemoryTiers {
    /// Retention in days for episodic (event-based) memories. Default: 30.
    pub episodic_retention_days: i64,
    /// Retention in days for semantic (knowledge) memories. Default: 365.
    pub semantic_retention_days: i64,
    /// Retention in days for procedural (skill/habit) memories. Default: -1 (infinite).
    pub procedural_retention_days: i64,
}

impl DeepView for MemoryTiers {
    type V = Self;

    open spec fn deep_view(&self) -> Self {
        *self
    }
}

/// Decay configuration for automatic memory relevance scoring. Its numbers are kept as the bits
/// of 64-bit binary floating point numbers.
#[derive(Clone, Copy, Debug, PartialEq, Eq, Structural)]
pub struct MemoryDecay {
    /// Half-life in days for memory decay scoring. Default: 7.
    pub half_life_days_bits: u64,
    /// Threshold below which memories are eligible for garbage collection. Default: 0.1.
    pub threshold_bits: u64,
}

impl DeepView for MemoryDecay {
    type V = Self;

    open spec fn deep_view(&self) -> Self {
        *self
    }
}

/// Lifecycle phase reported by the controller.
#[derive(Clone, Copy, Debug, PartialEq, Eq, Structural)]
pub enum MemoryPhase {
    Pending,
    Provisioning,
    Ready,
    Decaying,
    Failed,
    Deleting,
}

impl DeepView for MemoryPhase {
    type V = Self;

    open spec fn deep_view(&self) -> Self {
        *self
    }
}

/// MemoryStatus describes the observed state of an agent's memory.
#[derive(Debug, PartialEq, Eq)]
pub struct MemoryStatus {
    /// Current lifecycle phase.
    pub phase: MemoryPhase,
    /// Whether the memory topics are ready.
    pub ready: bool,
    /// Number of episodic memory events stored.
    pub episodic_event_count: i64,
    /// Number of semantic memory entries stored.
    pub semantic_event_count: i64,
    /// Number of procedural memory entries stored.
    pub procedural_event_count: i64,
    /// Last observed message from the reconciler.
    pub message: Option<String>,
    /// Standard k8s-style conditions.
    pub conditions: Vec<MemoryCondition>,
}

/// What a [`MemoryStatus`] holds, over characters and sequences.
#[verifier::ext_equal]
pub struct MemoryStatusView {
    pub phase: MemoryPhase,
    pub ready: bool,
    pub episodic_event_count: i64,
    pub semantic_event_count: i64,
    pub procedural_event_count: i64,
    pub message: Option<Seq<char>>,
    pub conditions: Seq<ConditionView>,
}

impl DeepView for MemoryStatus {
    type V = MemoryStatusView;

    open spec fn deep_view(&self) -> MemoryStatusView {
        MemoryStatusView {
            phase: self.phase,
            ready: self.ready,
            episodic_event_count: self.episodic_event_count,
            semantic_event_count: self.semantic_event_count,
            procedural_event_count: self.procedural_event_count,
            message: self.message.deep_view(),
            conditions: self.conditions.deep_view(),
        }
    }
}

impl Clone for MemoryStatus {
    fn clone(&self) -> (copy: Self)
        ensures
            copy.deep_view() == self.deep_view(),
    {
        let copy = MemoryStatus {
            phase: self.phase,
            ready: self.ready,
            episodic_event_count: self.episodic_event_count,
            semantic_event_count: self.semantic_event_count,
            procedural_event_count: self.procedural_event_count,
            message: self.message.clone(),
            conditions: self.conditions.clone(),
        };
        assert(copy.conditions.deep_view() =~= self.conditions.deep_view());
        copy
    }
}

/// A single status condition.
#[derive(Debug, PartialEq, Eq)]
pub struct MemoryCondition {
    pub type_: String,
    pub status: String,
    pub last_transition_time: Option<String>,
    pub reason: Option<String>,
    pub message: Option<String>,
}

impl DeepView for MemoryCondition {
    type V = ConditionView;

    open spec fn deep_view(&self) -> ConditionView {
        ConditionView {
            condition_type: self.type_@,
            status: self.status@,
            last_transition_time: self.last_transition_time.deep_view(),
            reason: self.reason.deep_view(),
            message: self.message.deep_view(),
        }
    }
}

impl Clone for MemoryCondition {
    fn clone(&self) -> (copy: Self)
        ensures
            copy.deep_view() == self.deep_view(),
    {
        MemoryCondition {
            type_: self.type_.clone(),
            status: self.status.clone(),
            last_transition_time: self.last_transition_time.clone(),
            reason: self.reason.clone(),
            message: self.message.clone(),
        }
    }
}

/// The retention of tiers that none is set for.
pub open spec fn default_tiers() -> MemoryTiers {
    MemoryTiers {
        episodic_retention_days: 30,
        semantic_retention_days: 365,
        procedural_retention_days: -1i64,
    }
}

/// The memory specification that sets nothing but its agent, its tenant and its cluster.
pub open spec fn minimal_memory(
    agent_id: Seq<char>,
    tenant: Seq<char>,
    cluster_ref: Seq<char>,
) -> MemorySpecView {
    MemorySpecView {
        agent_id,
        tenant,
        cluster_ref,
        tiers: default_tiers(),
        decay: None,
        encryption_enabled: false,
    }
}

/// The status of a memory that nothing is known of.
pub open spec fn unknown_memory() -> MemoryStatusView {
    MemoryStatusView {
        phase: MemoryPhase::Pending,
        ready: false,
        episodic_event_count: 0,
        semantic_event_count: 0,
        procedural_event_count: 0,
        message: None,
        conditions: Seq::empty(),
    }
}

impl MemorySpec {
    /// The specification of a manifest that sets nothing but its agent, its tenant and its
    /// cluster.
    pub fn new(agent_id: &str, tenant: &str, cluster_ref: &str) -> (spec: Self)
        ensures
            spec.deep_view() == minimal_memory(agent_id@, tenant@, cluster_ref@),
    {
        MemorySpec {
            agent_id: agent_id.to_owned(),
            tenant: tenant.to_owned(),
            cluster_ref: cluster_ref.to_owned(),
            tiers: MemoryTiers::default(),
            decay: None,
            encryption_enabled: false,
        }
    }
}

impl StreamlineMemory {
    /// A memory that no status was published for yet.
    pub fn new(name: &str, spec: MemorySpec) -> (memory: Self)
        ensures
            memory.deep_view() == (StreamlineMemoryView {
                metadata: crate::objects::named_meta(name@),
                spec: spec.deep_view(),
                status: None,
            }),
    {
        StreamlineMemory { metadata: ResourceMeta::named(name), spec, status: None }
    }

    /// How the kind is known to the API server.
    pub fn crd() -> (definition: ResourceDefinition)
        ensures
            definition.deep_view() == definition::definition_of(
                "StreamlineMemory"@,
                "streamlinememories"@,
                "slm"@,
            ),
    {
        definition::define("StreamlineMemory", "streamlinememories", "slm")
    }
}

/// Days that episodic memories are retained unless the number is set.
pub fn default_episodic_retention() -> (days: i64)
    ensures
        days == 30,
{
    30
}

/// Days that semantic memories are retained unless the number is set.
pub fn default_semantic_retention() -> (days: i64)
    ensures
        days == 365,
{
    365
}

/// Days that procedural memories are retained unless the number is set: without limit.
pub fn default_procedural_retention() -> (days: i64)
    ensures
        days == -1,
{
    -1
}

impl Default for MemoryTiers {
    fn default() -> (tiers: Self)
        ensures
            tiers == default_tiers(),
    {
        MemoryTiers {
            episodic_retention_days: default_episodic_retention(),
            semantic_retention_days: default_semantic_retention(),
            procedural_retention_days: default_procedural_retention(),
        }
    }
}

/// The bits of the half-life that is used unless one is set.
pub fn default_half_life() -> (bits: u64)
    ensures
        bits == 0x401c_0000_0000_0000,
{
    0x401c_0000_0000_0000
}

/// The bits of the threshold that is used unless one is set.
pub fn default_threshold() -> (bits: u64)
    ensures
        bits == 0x3fb9_9999_9999_999a,
{
    0x3fb9_9999_9999_999a
}

impl Default for MemoryDecay {
    fn default() -> (decay: Self)
        ensures
            decay.half_life_days_bits == 0x401c_0000_0000_0000,
            decay.threshold_bits == 0x3fb9_9999_9999_999a,
    {
        MemoryDecay {
            half_life_days_bits: default_half_life(),
            threshold_bits: default_threshold(),
        }
    }
}

impl Default for MemoryPhase {
    fn default() -> (phase: Self)
        ensures
            phase == MemoryPhase::Pending,
    {
        MemoryPhase::Pending
    }
}

impl Default for MemoryStatus {
    fn default() -> (status: Self)
        ensures
            status.deep_view() == unknown_memory(),
    {
        let status = MemoryStatus {
            phase: MemoryPhase::Pending,
            ready: false,
            episodic_event_count: 0,
            semantic_event_count: 0,
            procedural_event_count: 0,
            message: None,
            conditions: Vec::new(),
        };
        assert(status.conditions.deep_view() =~= Seq::empty());
        status
    }
}

} // verus!
