//! StreamlineBackup: a backup schedule and retention policy.

use crate::objects::{ResourceMeta, ResourceMetaView};
use vstd::prelude::*;

verus! {

/// A StreamlineBackup resource.
#[derive(Debug, PartialEq, Eq)]
pub struct StreamlineBackup {
    pub metadata: ResourceMeta,
    pub spec: BackupSpec,
    pub status: Option<BackupStatus>,
}

/// What a [`StreamlineBackup`] holds, over characters and sequences.
#[verifier::ext_equal]
pub struct StreamlineBackupView {
    pub metadata: ResourceMetaView,
    pub spec: BackupSpecView,
    pub status: Option<BackupStatusView>,
}

impl DeepView for StreamlineBackup {
    type V = StreamlineBackupView;

    open spec fn deep_view(&self) -> StreamlineBackupView {
        StreamlineBackupView {
            metadata: self.metadata.deep_view(),
            spec: self.spec.deep_view(),
            status: self.status.deep_view(),
        }
    }
}

impl Clone for StreamlineBackup {
    fn clone(&self) -> (copy: Self)
        ensures
            copy.deep_view() == self.deep_view(),
    {
        StreamlineBackup {
            metadata: self.metadata.clone(),
            spec: self.spec.clone(),
            status: self.status.clone(),
        }
    }
}

/// Spec for a StreamlineBackup resource
#[derive(Debug, PartialEq, Eq)]
pub struct BackupSpec {
    /// Reference to the StreamlineCluster to back up
    pub cluster_ref: String,
    /// Type of backup
    pub backup_type: BackupType,
    /// Storage destination for the backup
    pub storage: BackupStorage,
    /// Schedule (cron expression) for recurring backups (empty = one-shot)
    pub schedule: Option<String>,
    /// Maximum number of backups to retain
    pub retention_count: u32,
    /// Topics to back up (empty = all topics)
    pub topics: Vec<String>,
    /// Include consumer group offsets in backup
    pub include_offsets: bool,
    /// Include ACLs and user credentials in backup
    pub include_acls: bool,
    /// Include topic configurations
    pub include_configs: bool,
    /// Compression algorithm for backup data
    pub compression: String,
}

/// What a [`BackupSpec`] holds, over characters and sequences.
#[verifier::ext_equal]
pub struct BackupSpecView {
    pub cluster_ref: Seq<char>,
    pub backup_type: BackupType,
    pub storage: BackupStorageView,
    pub schedule: Option<Seq<char>>,
    pub retention_count: u32,
    pub topics: Seq<Seq<char>>,
    pub include_offsets: bool,
    pub include_acls: bool,
    pub include_configs: bool,
    pub compression: Seq<char>,
}

impl DeepView for BackupSpec {
    type V = BackupSpecView;

    open spec fn deep_view(&self) -> BackupSpecView {
        BackupSpecView {
            cluster_ref: self.cluster_ref@,
            backup_type: self.backup_type,
            storage: self.storage.deep_view(),
            schedule: self.schedule.deep_view(),
            retention_count: self.retention_count,
            topics: self.topics.deep_view(),
            include_offsets: self.include_offsets,
            include_acls: self.include_acls,
            include_configs: self.include_configs,
            compression: self.compression@,
        }
    }
}

impl Clone for BackupSpec {
    fn clone(&self) -> (copy: Self)
        ensures
            copy.deep_view() == self.deep_view(),
    {
        let copy = BackupSpec {
            cluster_ref: self.cluster_ref.clone(),
            backup_type: self.backup_type,
            storage: self.storage.clone(),
            schedule: self.schedule.clone(),
            retention_count: self.retention_count,
            topics: self.topics.clone(),
            include_offsets: self.include_offsets,
            include_acls: self.include_acls,
            include_configs: self.include_configs,
            compression: self.compression.clone(),
        };
        assert(copy.topics.deep_view() =~= self.topics.deep_view());
        copy
    }
}

/// Type of backup operation
#[derive(Clone, Copy, Debug, PartialEq, Eq, Structural)]
pub enum BackupType {
    /// Full backup of all data and metadata
    Full,
    /// Incremental backup since last full/incremental backup
    Incremental,
    /// Metadata-only backup (topics, configs, ACLs, offsets — no message data)
    MetadataOnly,
}

impl DeepView for BackupType {
    type V = Self;

    open spec fn deep_view(&self) -> Self {
        *self
    }
}

/// Backup storage destination
#[derive(Debug, PartialEq, Eq)]
pub struct BackupStorage {
    /// Storage type
    pub storage_type: BackupStorageType,
    /// S3-compatible bucket name
    pub bucket: Option<String>,
    /// S3-compatible endpoint URL
    pub endpoint: Option<String>,
    /// Storage prefix/path
    pub prefix: Option<String>,
    /// Secret reference for storage credentials
    pub credentials_secret: Option<String>,
    /// AWS/GCS region
    pub region: Option<String>,
    /// PVC name for local storage
    pub pvc_name: Option<String>,
}

/// What a [`BackupStorage`] holds, over characters and sequences.
#[verifier::ext_equal]
pub struct BackupStorageView {
    pub storage_type: BackupStorageType,
    pub bucket: Option<Seq<char>>,
    pub endpoint: Option<Seq<char>>,
    pub prefix: Option<Seq<char>>,
    pub credentials_secret: Option<Seq<char>>,
    pub region: Option<Seq<char>>,
    pub pvc_name: Option<Seq<char>>,
}

impl DeepView for BackupStorage {
    type V = BackupStorageView;

    open spec fn deep_view(&self) -> BackupStorageView {
        BackupStorageView {
            storage_type: self.storage_type,
            bucket: self.bucket.deep_view(),
            endpoint: self.endpoint.deep_view(),
            prefix: self.prefix.deep_view(),
            credentials_secret: self.credentials_secret.deep_view(),
            region: self.region.deep_view(),
            pvc_name: self.pvc_name.deep_view(),
        }
    }
}

impl Clone for BackupStorage {
    fn clone(&self) -> (copy: Self)
        ensures
            copy.deep_view() == self.deep_view(),
    {
        BackupStorage {
            storage_type: self.storage_type,
            bucket: self.bucket.clone(),
            endpoint: self.endpoint.clone(),
            prefix: self.prefix.clone(),
            credentials_secret: self.credentials_secret.clone(),
            region: self.region.clone(),
            pvc_name: self.pvc_name.clone(),
        }
    }
}

/// Storage types for backups
#[derive(Clone, Copy, Debug, PartialEq, Eq, Structural)]
pub enum BackupStorageType {
    /// Amazon S3 or S3-compatible storage
    S3,
    /// Google Cloud Storage
    GCS,
    /// Azure Blob Storage
    AzureBlob,
    /// Persistent Volume Claim (local K8s storage)
    PVC,
}

impl DeepView for BackupStorageType {
    type V = Self;

    open spec fn deep_view(&self) -> Self {
        *self
    }
}

/// Status of a StreamlineBackup resource
#[derive(Debug, PartialEq, Eq)]
pub struct BackupStatus {
    /// Current phase of the backup
    pub phase: BackupPhase,
    /// Timestamp when the last backup started
    pub last_backup_time: Option<String>,
    /// Timestamp when the last backup completed
    pub last_successful_time: Option<String>,
    /// Number of completed backups
    pub completed_backups: u32,
    /// Size of the last backup in bytes
    pub last_backup_size_bytes: Option<u64>,
    /// Duration of the last backup in seconds
    pub last_backup_duration_secs: Option<u64>,
    /// Number of topics backed up
    pub topics_backed_up: u32,
    /// Error message (if phase is Failed)
    pub error: Option<String>,
    /// Conditions
    pub conditions: Vec<BackupCondition>,
}

/// What a [`BackupStatus`] holds, over characters and sequences.
#[verifier::ext_equal]
pub struct BackupStatusView {
    pub phase: BackupPhase,
    pub last_backup_time: Option<Seq<char>>,
    pub last_successful_time: Option<Seq<char>>,
    pub completed_backups: u32,
    pub last_backup_size_bytes: Option<u64>,
    pub last_backup_duration_secs: Option<u64>,
    pub topics_backed_up: u32,
    pub error: Option<Seq<char>>,
    pub conditions: Seq<BackupConditionView>,
}

impl DeepView for BackupStatus {
    type V = BackupStatusView;

    open spec fn deep_view(&self) -> BackupStatusView {
        BackupStatusView {
            phase: self.phase,
            last_backup_time: self.last_backup_time.deep_view(),
            last_successful_time: self.last_successful_time.deep_view(),
            completed_backups: self.completed_backups,
            last_backup_size_bytes: self.last_backup_size_bytes,
            last_backup_duration_secs: self.last_backup_duration_secs,
            topics_backed_up: self.topics_backed_up,
            error: self.error.deep_view(),
            conditions: self.conditions.deep_view(),
        }
    }
}

impl Clone for BackupStatus {
    fn clone(&self) -> (copy: Self)
        ensures
            copy.deep_view() == self.deep_view(),
    {
        let copy = BackupStatus {
            phase: self.phase,
            last_backup_time: self.last_backup_time.clone(),
            last_successful_time: self.last_successful_time.clone(),
            completed_backups: self.completed_backups,
            last_backup_size_bytes: self.last_backup_size_bytes,
            last_backup_duration_secs: self.last_backup_duration_secs,
            topics_backed_up: self.topics_backed_up,
            error: self.error.clone(),
            conditions: self.conditions.clone(),
        };
        assert(copy.conditions.deep_view() =~= self.conditions.deep_view());
        copy
    }
}

/// Phase of a backup operation
#[derive(Clone, Copy, Debug, PartialEq, Eq, Structural)]
pub enum BackupPhase {
    /// Backup is pending scheduling
    Pending,
    /// Backup is in progress
    Running,
    /// Backup completed successfully
    Completed,
    /// Backup failed
    Failed,
    /// Backup was deleted/expired by retention policy
    Expired,
}

impl DeepView for BackupPhase {
    type V = Self;

    open spec fn deep_view(&self) -> Self {
        *self
    }
}

/// Condition for backup status
#[derive(Debug, PartialEq, Eq)]
pub struct BackupCondition {
    /// Type of condition
    pub condition_type: String,
    /// Whether the condition is met
    pub status: String,
    /// Human-readable reason
    pub reason: String,
    /// Detailed message
    pub message: String,
    /// Last transition time
    pub last_transition_time: String,
}

/// What a [`BackupCondition`] holds, over characters and sequences.
#[verifier::ext_equal]
pub struct BackupConditionView {
    pub condition_type: Seq<char>,
    pub status: Seq<char>,
    pub reason: Seq<char>,
    pub message: Seq<char>,
    pub last_transition_time: Seq<char>,
}

impl DeepView for BackupCondition {
    type V = BackupConditionView;

    open spec fn deep_view(&self) -> BackupConditionView {
        BackupConditionView {
            condition_type: self.condition_type@,
            status: self.status@,
            reason: self.reason@,
            message: self.message@,
            last_transition_time: self.last_transition_time@,
        }
    }
}

impl Clone for BackupCondition {
    fn clone(&self) -> (copy: Self)
        ensures
            copy.deep_view() == self.deep_view(),
    {
        BackupCondition {
            condition_type: self.condition_type.clone(),
            status: self.status.clone(),
            reason: self.reason.clone(),
            message: self.message.clone(),
            last_transition_time: self.last_transition_time.clone(),
        }
    }
}

/// The backup specification that sets nothing but its cluster and its destination.
pub open spec fn minimal_backup(
    cluster_ref: Seq<char>,
    storage: BackupStorageView,
) -> BackupSpecView {
    BackupSpecView {
        cluster_ref,
        backup_type: BackupType::Full,
        storage,
        schedule: None,
        retention_count: 5,
        topics: Seq::empty(),
        include_offsets: true,
        include_acls: true,
        include_configs: true,
        compression: "zstd"@,
    }
}

/// The status of a backup that has not run.
pub open spec fn unknown_backup() -> BackupStatusView {
    BackupStatusView {
        phase: BackupPhase::Pending,
        last_backup_time: None,
        last_successful_time: None,
        completed_backups: 0,
        last_backup_size_bytes: None,
        last_backup_duration_secs: None,
        topics_backed_up: 0,
        error: None,
        conditions: Seq::empty(),
    }
}

/// The type of backup that is made unless one is set.
pub fn default_backup_type() -> (backup_type: BackupType)
    ensures
        backup_type == BackupType::Full,
{
    BackupType::Full
}

/// How many backups are retained unless the number is set.
pub fn default_retention_count() -> (count: u32)
    ensures
        count == 5,
{
    5
}

/// Whether each part is backed up unless it is set.
pub fn default_true() -> (flag: bool)
    ensures
        flag,
{
    true
}

/// The compression that is used unless one is set.
pub fn default_compression() -> (compression: String)
    ensures
        compression@ == "zstd"@,
{
    "zstd".to_owned()
}

impl BackupSpec {
    /// The specification of a manifest that sets nothing but its cluster and its destination.
    pub fn new(cluster_ref: &str, storage: BackupStorage) -> (spec: Self)
        ensures
            spec.deep_view() == minimal_backup(cluster_ref@, storage.deep_view()),
    {
        let spec = BackupSpec {
            cluster_ref: cluster_ref.to_owned(),
            backup_type: default_backup_type(),
            storage,
            schedule: None,
            retention_count: default_retention_count(),
            topics: Vec::new(),
            include_offsets: default_true(),
            include_acls: default_true(),
            include_configs: default_true(),
            compression: default_compression(),
        };
        assert(spec.topics.deep_view() =~= Seq::empty());
        spec
    }
}

impl Default for BackupType {
    fn default() -> (backup_type: Self)
        ensures
            backup_type == BackupType::Full,
    {
        BackupType::Full
    }
}

impl Default for BackupPhase {
    fn default() -> (phase: Self)
        ensures
            phase == BackupPhase::Pending,
    {
        BackupPhase::Pending
    }
}

impl Default for BackupStatus {
    fn default() -> (status: Self)
        ensures
            status.deep_view() == unknown_backup(),
    {
        let status = BackupStatus {
            phase: BackupPhase::Pending,
            last_backup_time: None,
            last_successful_time: None,
            completed_backups: 0,
            last_backup_size_bytes: None,
            last_backup_duration_secs: None,
            topics_backed_up: 0,
            error: None,
            conditions: Vec::new(),
        };
        assert(status.conditions.deep_view() =~= Seq::empty());
        status
    }
}

} // verus!
