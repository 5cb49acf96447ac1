//! Custom resource types of the Streamline operator.
//!
//! - `StreamlineCluster`: a Streamline cluster deployment
//! - `StreamlineTopic`: a topic within a cluster
//! - `StreamlineUser`: a user with authentication credentials
//! - `StreamlineBackup`: a backup schedule and retention policy
//! - `StreamlineBranch`: a time-travel branch
//! - `StreamlineContract`: an enforced data contract
//! - `StreamlineEdge`: a fleet of edge nodes
//! - `StreamlineMemory`: the memory topics of an agent

pub mod backup;
pub mod branch;
pub mod cluster;
pub mod contract;
pub mod definition;
pub mod edge;
pub mod memory;
pub mod topic;
pub mod user;

pub use backup::{
    BackupCondition, BackupPhase, BackupSpec, BackupStatus, BackupStorage, BackupStorageType,
    BackupType, StreamlineBackup,
};
pub use branch::{
    BranchCondition, BranchPhase, BranchRetention, BranchSpec, BranchStatus, StreamlineBranch,
    StreamlineBranchView,
};
pub use cluster::{
    AutoScalingSpec, ClusterCondition, ClusterPhase, ClusterSpec, ClusterStatus, ClusterStorage,
    ClusterTls, ResourceRequirements, ScalingBehaviorSpec, ScalingPolicySpec, ScalingRulesSpec,
    StreamlineCluster, StreamlineClusterView,
};
pub use contract::{
    ContractCompatibility, ContractCondition, ContractPhase, ContractSpec, ContractStatus,
    StreamlineContract, StreamlineContractView,
};
pub use edge::{
    BootstrapConfig, EdgeCondition, EdgeSpec, EdgeStatus, StreamlineEdge, SyncConfig,
};
pub use memory::{
    MemoryCondition, MemoryDecay, MemoryPhase, MemorySpec, MemoryStatus, MemoryTiers,
    StreamlineMemory, StreamlineMemoryView,
};
pub use topic::{
    StreamlineTopic, StreamlineTopicView, TopicCondition, TopicConfigDefaults, TopicPhase,
    TopicSpec, TopicStatus,
};
pub use user::{
    StreamlineUser, StreamlineUserView, UserCondition, UserCredentials, UserPermission, UserPhase,
    UserSpec, UserStatus,
};
