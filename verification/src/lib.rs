//! The verified core of a Kubernetes operator for Streamline clusters.
//!
//! ## Installed custom resources
//!
//! - `StreamlineCluster`: deploys a Streamline cluster as a StatefulSet.
//!   Each replica is a standalone broker, so `spec.replicas` must be `1` and
//!   `spec.autoscaling.enabled: true` is rejected.
//! - `StreamlineTopic`: creates topics through the Streamline HTTP API, which
//!   accepts only a name and a partition count. `replicationFactor` must be
//!   `1`, and retention/compression/cleanup/`config` overrides are rejected
//!   rather than silently discarded.
//! - `StreamlineUser`: **unsupported**. The server has no user API, so the
//!   controller reports `Unsupported` and creates nothing.
//!
//! ## Upgrading from v0.3.0
//!
//! The v0.3.0 CRDs persisted `spec.replicas: 3`, `spec.podAntiAffinity: true`,
//! and `spec.replicationFactor: 2` into stored objects. This operator rejects
//! all three, so resources created against those CRDs must be patched before
//! it is deployed. See [`upgrade`].
//!
//! ## How the crate is laid out
//!
//! Everything here is a function of plain values. What the operator asks of the API server, of
//! the brokers and of the clock comes in as arguments, and what is to be done about it goes out
//! as a decision, a manifest or a status. Each executable function states what it returns over
//! the `deep_view` of its arguments: texts as sequences of characters, lists as sequences,
//! resources as records of these. The public proof functions named `law_..` state what holds of
//! several functions together.

pub mod clock;
pub mod conditions;
pub mod controllers;
pub mod crd;
pub mod error;
pub mod fixture;
pub mod health;
pub mod json;
pub mod laws;
pub mod leader_election;
pub mod manifests;
pub mod metrics;
pub mod objects;
pub mod text;
pub mod upgrade;

pub use controllers::{ClusterController, TopicController, UserController};
pub use crd::{
    BackupCondition, BackupPhase, BackupSpec, BackupStatus, BackupStorage, BackupType, BranchPhase,
    BranchSpec, BranchStatus, ClusterCondition, ClusterPhase, ClusterSpec, ClusterStatus,
    ClusterStorage, ClusterTls, ContractCompatibility, ContractPhase, ContractSpec, ContractStatus,
    MemoryCondition, MemoryDecay, MemoryPhase, MemorySpec, MemoryStatus, MemoryTiers,
    ResourceRequirements, StreamlineBackup, StreamlineBranch, StreamlineCluster,
    StreamlineContract, StreamlineMemory, StreamlineTopic, StreamlineUser, TopicConfigDefaults,
    TopicSpec, TopicStatus, UserCredentials, UserPermission, UserSpec, UserStatus,
};
pub use error::{OperatorError, Result};
