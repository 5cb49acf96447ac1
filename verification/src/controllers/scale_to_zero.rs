//! Scale-to-zero and KEDA integration.
//!
//! Serverless auto-scaling for StreamlineCluster resources: idle detection, scale-to-zero, cold
//! start activation, and the KEDA ScaledObject that drives event-driven scaling.

use crate::clock;
use crate::controllers::cluster;
use crate::controllers::ClusterController;
use crate::crd::{StreamlineCluster, StreamlineClusterView};
use crate::error::{OperatorError, OperatorErrorView, Result};
use crate::manifests::{ObjectMeta, ObjectMetaView};
use crate::objects;
use crate::objects::{KeyValue, KeyValueView};
use crate::text;
use vstd::prelude::*;
use vstd::string::*;

verus! {

// ---------------------------------------------------------------------------
// Configuration types
// ---------------------------------------------------------------------------

/// Scale-to-zero configuration for a StreamlineCluster
#[derive(Debug, PartialEq, Eq)]
pub struct ScaleToZeroConfig {
    /// Enable scale-to-zero behaviour
    pub enabled: bool,
    /// Seconds of zero throughput before scaling to zero
    pub idle_timeout_seconds: u64,
    /// Minimum replicas to keep when *not* idle (overrides HPA min)
    pub min_active_replicas: i32,
    /// Cooldown period (seconds) after a scale-up before another scale-to-zero is allowed
    pub cooldown_seconds: u64,
    /// Enable KEDA integration for event-driven activation
    pub keda_enabled: bool,
    /// KEDA ScaledObject configuration (only used when `keda_enabled` is true)
    pub keda: Option<KedaConfig>,
    /// Polling interval (seconds) for the idle-check loop
    pub polling_interval_seconds: u64,
}

/// What a [`ScaleToZeroConfig`] holds, over characters and sequences.
#[verifier::ext_equal]
pub struct ScaleToZeroConfigView {
    pub enabled: bool,
    pub idle_timeout_seconds: u64,
    pub min_active_replicas: i32,
    pub cooldown_seconds: u64,
    pub keda_enabled: bool,
    pub keda: Option<KedaConfigView>,
    pub polling_interval_seconds: u64,
}

impl DeepView for ScaleToZeroConfig {
    type V = ScaleToZeroConfigView;

    open spec fn deep_view(&self) -> ScaleToZeroConfigView {
        ScaleToZeroConfigView {
            enabled: self.enabled,
            idle_timeout_seconds: self.idle_timeout_seconds,
            min_active_replicas: self.min_active_replicas,
            cooldown_seconds: self.cooldown_seconds,
            keda_enabled: self.keda_enabled,
            keda: self.keda.deep_view(),
            polling_interval_seconds: self.polling_interval_seconds,
        }
    }
}

impl Clone for ScaleToZeroConfig {
    fn clone(&self) -> (copy: Self)
        ensures
            copy.deep_view() == self.deep_view(),
    {
        ScaleToZeroConfig {
            enabled: self.enabled,
            idle_timeout_seconds: self.idle_timeout_seconds,
            min_active_replicas: self.min_active_replicas,
            cooldown_seconds: self.cooldown_seconds,
            keda_enabled: self.keda_enabled,
            keda: self.keda.clone(),
            polling_interval_seconds: self.polling_interval_seconds,
        }
    }
}

/// KEDA ScaledObject configuration
#[derive(Debug, PartialEq, Eq)]
pub struct KedaConfig {
    /// Polling interval for KEDA (seconds)
    pub polling_interval: i32,
    /// Cooldown period for KEDA (seconds)
    pub cooldown_period: i32,
    /// Minimum replica count (0 enables scale-to-zero via KEDA)
    pub min_replica_count: i32,
    /// Maximum replica count
    pub max_replica_count: i32,
    /// KEDA triggers
    pub triggers: Vec<KedaTrigger>,
}

/// What a [`KedaConfig`] holds, over characters and sequences.
#[verifier::ext_equal]
pub struct KedaConfigView {
    pub polling_interval: i32,
    pub cooldown_period: i32,
    pub min_replica_count: i32,
    pub max_replica_count: i32,
    pub triggers: Seq<KedaTriggerView>,
}

impl DeepView for KedaConfig {
    type V = KedaConfigView;

    open spec fn deep_view(&self) -> KedaConfigView {
        KedaConfigView {
            polling_interval: self.polling_interval,
            cooldown_period: self.cooldown_period,
            min_replica_count: self.min_replica_count,
            max_replica_count: self.max_replica_count,
            triggers: self.triggers.deep_view(),
        }
    }
}

impl Clone for KedaConfig {
    fn clone(&self) -> (copy: Self)
        ensures
            copy.deep_view() == self.deep_view(),
    {
        let copy = KedaConfig {
            polling_interval: self.polling_interval,
            cooldown_period: self.cooldown_period,
            min_replica_count: self.min_replica_count,
            max_replica_count: self.max_replica_count,
            triggers: self.triggers.clone(),
        };
        assert(copy.triggers.deep_view() =~= self.triggers.deep_view());
        copy
    }
}

/// A single KEDA trigger definition
#[derive(Debug, PartialEq, Eq)]
pub struct KedaTrigger {
    /// Trigger type (e.g. "kafka", "prometheus", "metrics-api")
    pub type_: String,
    /// Trigger metadata (key-value pairs interpreted by KEDA), in key order
    pub metadata: Vec<KeyValue>,
}

/// What a [`KedaTrigger`] holds, over characters and sequences.
#[verifier::ext_equal]
pub struct KedaTriggerView {
    pub type_: Seq<char>,
    pub metadata: Seq<KeyValueView>,
}

impl DeepView for KedaTrigger {
    type V = KedaTriggerView;

    open spec fn deep_view(&self) -> KedaTriggerView {
        KedaTriggerView {
            type_: self.type_@,
            metadata: self.metadata.deep_view(),
        }
    }
}

impl Clone for KedaTrigger {
    fn clone(&self) -> (copy: Self)
        ensures
            copy.deep_view() == self.deep_view(),
    {
        let copy = KedaTrigger {
            type_: self.type_.clone(),
            metadata: self.metadata.clone(),
        };
        assert(copy.metadata.deep_view() =~= self.metadata.deep_view());
        copy
    }
}

// ---------------------------------------------------------------------------
// Idle-detection state
// ---------------------------------------------------------------------------

/// A measured rate per second.
#[derive(Debug, PartialEq, Eq)]
pub struct RateReading {
    /// Whether nothing was measured at all
    pub is_zero: bool,
    /// The rate as decimal text with one digit after the point
    pub tenths: String,
}

/// What a [`RateReading`] holds, over characters and sequences.
#[verifier::ext_equal]
pub struct RateReadingView {
    pub is_zero: bool,
    pub tenths: Seq<char>,
}

impl DeepView for RateReading {
    type V = RateReadingView;

    open spec fn deep_view(&self) -> RateReadingView {
        RateReadingView {
            is_zero: self.is_zero,
            tenths: self.tenths@,
        }
    }
}

impl Clone for RateReading {
    fn clone(&self) -> (copy: Self)
        ensures
            copy.deep_view() == self.deep_view(),
    {
        RateReading {
            is_zero: self.is_zero,
            tenths: self.tenths.clone(),
        }
    }
}

/// Snapshot of cluster activity used for idle detection
#[derive(Debug, PartialEq, Eq)]
pub struct ClusterActivitySnapshot {
    /// Cluster name
    pub cluster_name: String,
    /// Namespace
    pub namespace: String,
    /// Messages per second at the time of the snapshot
    pub messages_per_second: RateReading,
    /// Bytes per second at the time of the snapshot
    pub bytes_per_second: RateReading,
    /// Number of active client connections
    pub active_connections: u64,
    /// Total consumer lag across all partitions
    pub consumer_lag: i64,
    /// RFC 3339 timestamp of last observed activity (throughput > 0 or connections > 0)
    pub last_activity_at: String,
    /// Duration in seconds since the last activity
    pub idle_duration_seconds: u64,
    /// Whether the cluster is considered idle (idle_duration >= configured timeout)
    pub is_idle: bool,
}

/// What a [`ClusterActivitySnapshot`] holds, over characters and sequences.
#[verifier::ext_equal]
pub struct ClusterActivitySnapshotView {
    pub cluster_name: Seq<char>,
    pub namespace: Seq<char>,
    pub messages_per_second: RateReadingView,
    pub bytes_per_second: RateReadingView,
    pub active_connections: u64,
    pub consumer_lag: i64,
    pub last_activity_at: Seq<char>,
    pub idle_duration_seconds: u64,
    pub is_idle: bool,
}

impl DeepView for ClusterActivitySnapshot {
    type V = ClusterActivitySnapshotView;

    open spec fn deep_view(&self) -> ClusterActivitySnapshotView {
        ClusterActivitySnapshotView {
            cluster_name: self.cluster_name@,
            namespace: self.namespace@,
            messages_per_second: self.messages_per_second.deep_view(),
            bytes_per_second: self.bytes_per_second.deep_view(),
            active_connections: self.active_connections,
            consumer_lag: self.consumer_lag,
            last_activity_at: self.last_activity_at@,
            idle_duration_seconds: self.idle_duration_seconds,
            is_idle: self.is_idle,
        }
    }
}

impl Clone for ClusterActivitySnapshot {
    fn clone(&self) -> (copy: Self)
        ensures
            copy.deep_view() == self.deep_view(),
    {
        ClusterActivitySnapshot {
            cluster_name: self.cluster_name.clone(),
            namespace: self.namespace.clone(),
            messages_per_second: self.messages_per_second.clone(),
            bytes_per_second: self.bytes_per_second.clone(),
            active_connections: self.active_connections,
            consumer_lag: self.consumer_lag,
            last_activity_at: self.last_activity_at.clone(),
            idle_duration_seconds: self.idle_duration_seconds,
            is_idle: self.is_idle,
        }
    }
}

/// Result of a scale-to-zero reconciliation cycle
#[derive(Debug, PartialEq, Eq)]
pub struct ScaleToZeroAction {
    /// The action taken
    pub action: ScaleAction,
    /// Human-readable reason
    pub reason: String,
    /// Target replica count after the action
    pub target_replicas: i32,
    /// RFC 3339 timestamp
    pub timestamp: String,
}

/// What a [`ScaleToZeroAction`] holds, over characters and sequences.
#[verifier::ext_equal]
pub struct ScaleToZeroActionView {
    pub action: ScaleAction,
    pub reason: Seq<char>,
    pub target_replicas: i32,
    pub timestamp: Seq<char>,
}

impl DeepView for ScaleToZeroAction {
    type V = ScaleToZeroActionView;

    open spec fn deep_view(&self) -> ScaleToZeroActionView {
        ScaleToZeroActionView {
            action: self.action,
            reason: self.reason@,
            target_replicas: self.target_replicas,
            timestamp: self.timestamp@,
        }
    }
}

impl Clone for ScaleToZeroAction {
    fn clone(&self) -> (copy: Self)
        ensures
            copy.deep_view() == self.deep_view(),
    {
        ScaleToZeroAction {
            action: self.action,
            reason: self.reason.clone(),
            target_replicas: self.target_replicas,
            timestamp: self.timestamp.clone(),
        }
    }
}

/// Possible scale actions
#[derive(Clone, Copy, Debug, PartialEq, Eq, Structural)]
pub enum ScaleAction {
    /// No change needed
    NoAction,
    /// Scale the StatefulSet to zero
    ScaleToZero,
    /// Activate from zero (cold start)
    Activate,
    /// Still within cooldown; no action
    InCooldown,
}

impl DeepView for ScaleAction {
    type V = Self;

    open spec fn deep_view(&self) -> Self {
        *self
    }
}

/// The KEDA `ScaledObject` that scales the StatefulSet of a cluster.
#[derive(Debug, PartialEq, Eq)]
pub struct ScaledObject {
    pub api_version: String,
    pub kind: String,
    pub metadata: ObjectMeta,
    pub target_api_version: String,
    pub target_kind: String,
    pub target_name: String,
    pub polling_interval: i32,
    pub cooldown_period: i32,
    pub min_replica_count: i32,
    pub max_replica_count: i32,
    pub triggers: Vec<KedaTrigger>,
}

/// What a [`ScaledObject`] holds, over characters and sequences.
#[verifier::ext_equal]
pub struct ScaledObjectView {
    pub api_version: Seq<char>,
    pub kind: Seq<char>,
    pub metadata: ObjectMetaView,
    pub target_api_version: Seq<char>,
    pub target_kind: Seq<char>,
    pub target_name: Seq<char>,
    pub polling_interval: i32,
    pub cooldown_period: i32,
    pub min_replica_count: i32,
    pub max_replica_count: i32,
    pub triggers: Seq<KedaTriggerView>,
}

impl DeepView for ScaledObject {
    type V = ScaledObjectView;

    open spec fn deep_view(&self) -> ScaledObjectView {
        ScaledObjectView {
            api_version: self.api_version@,
            kind: self.kind@,
            metadata: self.metadata.deep_view(),
            target_api_version: self.target_api_version@,
            target_kind: self.target_kind@,
            target_name: self.target_name@,
            polling_interval: self.polling_interval,
            cooldown_period: self.cooldown_period,
            min_replica_count: self.min_replica_count,
            max_replica_count: self.max_replica_count,
            triggers: self.triggers.deep_view(),
        }
    }
}

/// What happens to the ScaledObject of a cluster.
#[derive(Debug, PartialEq, Eq)]
pub enum KedaPlan {
    /// Delete the object with this name, if it is there
    Delete(String),
    /// Create or update the object with this name
    Apply(String, ScaledObject),
}

/// What [`KedaPlan`] says, over characters and sequences.
#[verifier::ext_equal]
pub enum KedaPlanView {
    Delete(Seq<char>),
    Apply(Seq<char>, ScaledObjectView),
}

impl DeepView for KedaPlan {
    type V = KedaPlanView;

    open spec fn deep_view(&self) -> KedaPlanView {
        match self {
            KedaPlan::Delete(v0) => KedaPlanView::Delete(v0@),
            KedaPlan::Apply(v0, v1) => KedaPlanView::Apply(v0@, v1.deep_view()),
        }
    }
}

// ---------------------------------------------------------------------------
// Model
// ---------------------------------------------------------------------------

/// The configuration that leaves everything unset.
pub open spec fn unset_config() -> ScaleToZeroConfigView {
    ScaleToZeroConfigView {
        enabled: false,
        idle_timeout_seconds: 300,
        min_active_replicas: 1,
        cooldown_seconds: 120,
        keda_enabled: false,
        keda: None,
        polling_interval_seconds: 30,
    }
}

/// The KEDA configuration that leaves everything unset.
pub open spec fn unset_keda() -> KedaConfigView {
    KedaConfigView {
        polling_interval: 30,
        cooldown_period: 300,
        min_replica_count: 0,
        max_replica_count: 10,
        triggers: Seq::empty(),
    }
}

/// Seconds since the last scale-up: zero if it lies ahead.
pub open spec fn seconds_since(now: u64, then: u64) -> int {
    if now >= then {
        now - then
    } else {
        0
    }
}

/// Whether a recent scale-up still holds back a scale-down.
pub open spec fn in_cooldown(cooldown: u64, now: u64, last_scale_up: Option<u64>) -> bool {
    match last_scale_up {
        Some(then) => seconds_since(now, then) < cooldown,
        None => false,
    }
}

/// What a scaling cycle decides.
pub open spec fn decided(
    snapshot: ClusterActivitySnapshotView,
    config: ScaleToZeroConfigView,
    current_replicas: i32,
    last_scale_up: Option<u64>,
    now: u64,
    timestamp: Seq<char>,
) -> ScaleToZeroActionView {
    if !config.enabled {
        ScaleToZeroActionView {
            action: ScaleAction::NoAction,
            reason: "Scale-to-zero is disabled"@,
            target_replicas: current_replicas,
            timestamp,
        }
    } else if current_replicas == 0 && !snapshot.is_idle {
        ScaleToZeroActionView {
            action: ScaleAction::Activate,
            reason: "Activity detected (connections="@ + text::decimal(
                snapshot.active_connections as int,
            ) + ", mps="@ + snapshot.messages_per_second.tenths + "); activating from zero"@,
            target_replicas: config.min_active_replicas,
            timestamp,
        }
    } else if in_cooldown(config.cooldown_seconds, now, last_scale_up) {
        ScaleToZeroActionView {
            action: ScaleAction::InCooldown,
            reason: "Within cooldown period ("@ + text::decimal(
                config.cooldown_seconds - seconds_since(now, last_scale_up->0),
            ) + "s remaining)"@,
            target_replicas: current_replicas,
            timestamp,
        }
    } else if snapshot.is_idle && snapshot.idle_duration_seconds >= config.idle_timeout_seconds {
        ScaleToZeroActionView {
            action: ScaleAction::ScaleToZero,
            reason: "Cluster idle for "@ + text::decimal(snapshot.idle_duration_seconds as int)
                + "s (threshold: "@ + text::decimal(config.idle_timeout_seconds as int) + "s)"@,
            target_replicas: 0,
            timestamp,
        }
    } else {
        ScaleToZeroActionView {
            action: ScaleAction::NoAction,
            reason: "Cluster is active or within idle threshold"@,
            target_replicas: current_replicas,
            timestamp,
        }
    }
}

/// The replica count that an action asks the StatefulSet for, if it asks for any.
pub open spec fn requested_replicas(action: ScaleToZeroActionView) -> Option<i32> {
    match action.action {
        ScaleAction::NoAction => None,
        ScaleAction::InCooldown => None,
        _ => Some(action.target_replicas),
    }
}

/// Whether the metadata of a trigger is a string map: its keys rise strictly.
pub open spec fn well_formed(trigger: KedaTriggerView) -> bool {
    objects::in_key_order(trigger.metadata)
}

/// The labels of a ScaledObject, in key order.
pub open spec fn scaler_labels(cluster: StreamlineClusterView) -> Seq<KeyValueView> {
    seq![
        KeyValueView {
            key: "app.kubernetes.io/component"@,
            value: "scale-to-zero"@,
        },
        KeyValueView {
            key: "app.kubernetes.io/instance"@,
            value: cluster.metadata.name,
        },
        KeyValueView {
            key: "app.kubernetes.io/managed-by"@,
            value: "streamline-operator"@,
        },
        KeyValueView {
            key: "app.kubernetes.io/name"@,
            value: "streamline"@,
        },
    ]
}

/// The address that the default trigger reads its metric from.
pub open spec fn metrics_url(cluster: StreamlineClusterView, namespace: Seq<char>) -> Seq<char> {
    "http://"@ + cluster.metadata.name + "."@ + namespace
        + ".svc.cluster.local:9094/scaling/metrics"@
}

/// The trigger that stands in when none is configured.
pub open spec fn default_trigger(
    cluster: StreamlineClusterView,
    namespace: Seq<char>,
) -> KedaTriggerView {
    KedaTriggerView {
        type_: "metrics-api"@,
        metadata: seq![
            KeyValueView {
                key: "targetValue"@,
                value: "1"@,
            },
            KeyValueView {
                key: "url"@,
                value: metrics_url(cluster, namespace),
            },
            KeyValueView {
                key: "valueLocation"@,
                value: "active_connections"@,
            },
        ],
    }
}

/// The name of the ScaledObject of a cluster.
pub open spec fn scaled_object_name(cluster: StreamlineClusterView) -> Seq<char> {
    cluster.metadata.name + "-scaledobject"@
}

/// The ScaledObject of a cluster.
pub open spec fn scaled_object(
    cluster: StreamlineClusterView,
    namespace: Seq<char>,
    keda: KedaConfigView,
) -> ScaledObjectView {
    ScaledObjectView {
        api_version: "keda.sh/v1alpha1"@,
        kind: "ScaledObject"@,
        metadata: ObjectMetaView {
            name: Some(scaled_object_name(cluster)),
            namespace: Some(namespace),
            labels: Some(scaler_labels(cluster)),
            owner_references: Some(seq![cluster::owned_by(cluster)]),
        },
        target_api_version: "apps/v1"@,
        target_kind: "StatefulSet"@,
        target_name: cluster.metadata.name,
        polling_interval: keda.polling_interval,
        cooldown_period: keda.cooldown_period,
        min_replica_count: keda.min_replica_count,
        max_replica_count: keda.max_replica_count,
        triggers: if keda.triggers.len() == 0 {
            seq![default_trigger(cluster, namespace)]
        } else {
            keda.triggers
        },
    }
}

/// What happens to the ScaledObject of a cluster, or nothing where KEDA is enabled without its
/// configuration.
pub open spec fn keda_plan(
    cluster: StreamlineClusterView,
    namespace: Seq<char>,
    config: ScaleToZeroConfigView,
) -> Option<KedaPlanView> {
    if !config.keda_enabled {
        Some(KedaPlanView::Delete(scaled_object_name(cluster)))
    } else {
        match config.keda {
            Some(keda) => Some(
                KedaPlanView::Apply(
                    scaled_object_name(cluster),
                    scaled_object(cluster, namespace, keda),
                ),
            ),
            None => None,
        }
    }
}

/// Seconds between the last activity and `now`: zero if it lies ahead.
pub open spec fn idle_seconds(now: i64, last_activity: i64) -> int {
    if now >= last_activity {
        now - last_activity
    } else {
        0
    }
}

/// The snapshot that raw metric values amount to at `now`.
pub open spec fn activity(
    cluster_name: Seq<char>,
    namespace: Seq<char>,
    messages_per_second: RateReadingView,
    bytes_per_second: RateReadingView,
    active_connections: u64,
    consumer_lag: i64,
    last_activity: i64,
    idle_timeout: u64,
    now: i64,
) -> ClusterActivitySnapshotView {
    ClusterActivitySnapshotView {
        cluster_name,
        namespace,
        messages_per_second,
        bytes_per_second,
        active_connections,
        consumer_lag,
        last_activity_at: clock::rfc3339_of(last_activity, 0),
        idle_duration_seconds: idle_seconds(now, last_activity) as u64,
        is_idle: messages_per_second.is_zero && active_connections == 0 && idle_seconds(
            now,
            last_activity,
        ) >= idle_timeout,
    }
}

// ---------------------------------------------------------------------------
// Defaults
// ---------------------------------------------------------------------------

impl ScaleToZeroConfig {
    /// The configuration of a manifest that sets none of its fields.
    pub fn schema_default() -> (config: Self)
        ensures
            config.deep_view() == unset_config(),
    {
        ScaleToZeroConfig {
            enabled: false,
            idle_timeout_seconds: default_idle_timeout_seconds(),
            min_active_replicas: default_min_active_replicas(),
            cooldown_seconds: default_cooldown_seconds(),
            keda_enabled: false,
            keda: None,
            polling_interval_seconds: default_polling_interval_seconds(),
        }
    }
}

impl KedaConfig {
    /// The KEDA configuration of a manifest that sets none of its fields.
    pub fn schema_default() -> (config: Self)
        ensures
            config.deep_view() == unset_keda(),
    {
        let triggers: Vec<KedaTrigger> = Vec::new();
        assert(triggers.deep_view() =~= Seq::empty());
        KedaConfig {
            polling_interval: default_keda_polling_interval(),
            cooldown_period: default_keda_cooldown_period(),
            min_replica_count: 0,
            max_replica_count: default_keda_max_replicas(),
            triggers,
        }
    }
}

/// Seconds of zero throughput before scaling to zero, unless set.
pub fn default_idle_timeout_seconds() -> (seconds: u64)
    ensures
        seconds == 300,
{
    300
}

/// Replicas to activate with, unless set.
pub fn default_min_active_replicas() -> (replicas: i32)
    ensures
        replicas == 1,
{
    1
}

/// Seconds between a scale-up and the next scale-to-zero, unless set.
pub fn default_cooldown_seconds() -> (seconds: u64)
    ensures
        seconds == 120,
{
    120
}

/// Seconds between two idle checks, unless set.
pub fn default_polling_interval_seconds() -> (seconds: u64)
    ensures
        seconds == 30,
{
    30
}

/// Seconds between two polls of KEDA, unless set.
pub fn default_keda_polling_interval() -> (seconds: i32)
    ensures
        seconds == 30,
{
    30
}

/// Cooldown period of KEDA in seconds, unless set.
pub fn default_keda_cooldown_period() -> (seconds: i32)
    ensures
        seconds == 300,
{
    300
}

/// The most replicas that KEDA scales to, unless set.
pub fn default_keda_max_replicas() -> (replicas: i32)
    ensures
        replicas == 10,
{
    10
}

// ---------------------------------------------------------------------------
// Controller
// ---------------------------------------------------------------------------

/// Controller for scale-to-zero and KEDA integration
#[derive(Clone, Copy, Debug)]
pub struct ScaleToZeroController;

impl ScaleToZeroController {
    /// Evaluate the current cluster activity and decide whether to scale to zero,
    /// activate from zero, or do nothing.
    pub fn evaluate(
        &self,
        snapshot: &ClusterActivitySnapshot,
        config: &ScaleToZeroConfig,
        current_replicas: i32,
        last_scale_up_epoch: Option<u64>,
    ) -> (action: ScaleToZeroAction)
        ensures
            exists|seconds: i64, nanos: u32|
                clock::on_the_clock(seconds, nanos) && action.deep_view() == decided(
                    snapshot.deep_view(),
                    config.deep_view(),
                    current_replicas,
                    last_scale_up_epoch,
                    seconds as u64,
                    #[trigger] clock::rfc3339_of(seconds, nanos),
                ),
    {
        let (timestamp, seconds) = clock::now_stamped();
        let now = seconds as u64;
        self.evaluate_at(
            snapshot,
            config,
            current_replicas,
            last_scale_up_epoch,
            now,
            timestamp.as_str(),
        )
    }

    /// Decide what [`Self::evaluate`] decides `now` seconds after the epoch.
    pub fn evaluate_at(
        &self,
        snapshot: &ClusterActivitySnapshot,
        config: &ScaleToZeroConfig,
        current_replicas: i32,
        last_scale_up_epoch: Option<u64>,
        now: u64,
        timestamp: &str,
    ) -> (action: ScaleToZeroAction)
        ensures
            action.deep_view() == decided(
                snapshot.deep_view(),
                config.deep_view(),
                current_replicas,
                last_scale_up_epoch,
                now,
                timestamp@,
            ),
    {
        if !config.enabled {
            return ScaleToZeroAction {
                action: ScaleAction::NoAction,
                reason: "Scale-to-zero is disabled".to_owned(),
                target_replicas: current_replicas,
                timestamp: timestamp.to_owned(),
            };
        }
        // If currently at zero and there is incoming activity, activate
        if current_replicas == 0 && !snapshot.is_idle {
            return ScaleToZeroAction {
                action: ScaleAction::Activate,
                reason: "Activity detected (connections=".to_owned().concat(
                    text::u64_text(snapshot.active_connections).as_str(),
                ).concat(", mps=").concat(snapshot.messages_per_second.tenths.as_str()).concat(
                    "); activating from zero",
                ),
                target_replicas: config.min_active_replicas,
                timestamp: timestamp.to_owned(),
            };
        }
        // Cooldown check: don't scale down if we recently scaled up
        match last_scale_up_epoch {
            Some(last_up) => {
                let elapsed: u64 = now.saturating_sub(last_up);
                if elapsed < config.cooldown_seconds {
                    return ScaleToZeroAction {
                        action: ScaleAction::InCooldown,
                        reason: "Within cooldown period (".to_owned().concat(
                            text::u64_text(config.cooldown_seconds - elapsed).as_str(),
                        ).concat("s remaining)"),
                        target_replicas: current_replicas,
                        timestamp: timestamp.to_owned(),
                    };
                }
            },
            None => {},
        }
        // Idle detection: if the cluster has been idle for longer than the threshold, scale to zero
        if snapshot.is_idle && snapshot.idle_duration_seconds >= config.idle_timeout_seconds {
            return ScaleToZeroAction {
                action: ScaleAction::ScaleToZero,
                reason: "Cluster idle for ".to_owned().concat(
                    text::u64_text(snapshot.idle_duration_seconds).as_str(),
                ).concat("s (threshold: ").concat(
                    text::u64_text(config.idle_timeout_seconds).as_str(),
                ).concat("s)"),
                target_replicas: 0,
                timestamp: timestamp.to_owned(),
            };
        }
        ScaleToZeroAction {
            action: ScaleAction::NoAction,
            reason: "Cluster is active or within idle threshold".to_owned(),
            target_replicas: current_replicas,
            timestamp: timestamp.to_owned(),
        }
    }

    /// The replica count to patch the StatefulSet with, or nothing if it is left alone.
    pub fn replicas_to_apply(action: &ScaleToZeroAction) -> (replicas: Option<i32>)
        ensures
            replicas == requested_replicas(action.deep_view()),
    {
        match action.action {
            ScaleAction::NoAction => None,
            ScaleAction::InCooldown => None,
            _ => Some(action.target_replicas),
        }
    }

    /// Decide what happens to the KEDA ScaledObject of the given cluster.
    ///
    /// When `keda_enabled` is true the `ScaledObject` that KEDA watches is created or updated;
    /// otherwise it is deleted.
    pub fn keda_plan(
        cluster: &StreamlineCluster,
        namespace: &str,
        config: &ScaleToZeroConfig,
    ) -> (plan: Result<KedaPlan>)
        ensures
            match self::keda_plan(cluster.deep_view(), namespace@, config.deep_view()) {
                Some(expected) => plan is Ok && plan->Ok_0.deep_view() == expected,
                None => plan is Err && plan->Err_0.deep_view() == OperatorErrorView::Configuration(
                    "KEDA is enabled but no keda config block was provided"@,
                ),
            },
    {
        let name = cluster.metadata.name.clone().concat("-scaledobject");
        if !config.keda_enabled {
            return Ok(KedaPlan::Delete(name));
        }
        match &config.keda {
            Some(keda) => Ok(
                KedaPlan::Apply(name, Self::build_keda_scaled_object(cluster, namespace, keda)),
            ),
            None => Err(
                OperatorError::Configuration(
                    "KEDA is enabled but no keda config block was provided".to_owned(),
                ),
            ),
        }
    }

    /// Build the KEDA ScaledObject of a cluster.
    pub fn build_keda_scaled_object(
        cluster: &StreamlineCluster,
        namespace: &str,
        keda_config: &KedaConfig,
    ) -> (object: ScaledObject)
        ensures
            object.deep_view() == scaled_object(
                cluster.deep_view(),
                namespace@,
                keda_config.deep_view(),
            ),
    {
        assert(keda_config.triggers.len() == keda_config.triggers.deep_view().len());
        // Fall back to a trigger on the cluster's own metrics when none is specified
        let triggers = if keda_config.triggers.is_empty() {
            let fallback = vec![Self::build_default_trigger(cluster, namespace)];
            assert(fallback.deep_view() =~= seq![
                default_trigger(cluster.deep_view(), namespace@),
            ]);
            fallback
        } else {
            let copies = keda_config.clone().triggers;
            copies
        };
        let owner_references = vec![ClusterController::owner_reference(cluster)];
        assert(owner_references.deep_view() =~= seq![cluster::owned_by(cluster.deep_view())]);
        ScaledObject {
            api_version: "keda.sh/v1alpha1".to_owned(),
            kind: "ScaledObject".to_owned(),
            metadata: ObjectMeta {
                name: Some(cluster.metadata.name.clone().concat("-scaledobject")),
                namespace: Some(namespace.to_owned()),
                labels: Some(Self::common_labels(cluster)),
                owner_references: Some(owner_references),
            },
            target_api_version: "apps/v1".to_owned(),
            target_kind: "StatefulSet".to_owned(),
            target_name: cluster.metadata.name.clone(),
            polling_interval: keda_config.polling_interval,
            cooldown_period: keda_config.cooldown_period,
            min_replica_count: keda_config.min_replica_count,
            max_replica_count: keda_config.max_replica_count,
            triggers,
        }
    }

    fn build_default_trigger(cluster: &StreamlineCluster, namespace: &str) -> (trigger: KedaTrigger)
        ensures
            trigger.deep_view() == default_trigger(cluster.deep_view(), namespace@),
    {
        let url = "http://".to_owned().concat(cluster.metadata.name.as_str()).concat(".").concat(
            namespace,
        ).concat(".svc.cluster.local:9094/scaling/metrics");
        let metadata = vec![
            KeyValue::new("targetValue", "1"),
            KeyValue::new("url", url.as_str()),
            KeyValue::new("valueLocation", "active_connections"),
        ];
        assert(metadata.deep_view() =~= default_trigger(
            cluster.deep_view(),
            namespace@,
        ).metadata);
        KedaTrigger { type_: "metrics-api".to_owned(), metadata }
    }

    /// The labels of a ScaledObject.
    pub fn common_labels(cluster: &StreamlineCluster) -> (labels: Vec<KeyValue>)
        ensures
            labels.deep_view() == scaler_labels(cluster.deep_view()),
    {
        let labels = vec![
            KeyValue::new("app.kubernetes.io/component", "scale-to-zero"),
            KeyValue::new("app.kubernetes.io/instance", cluster.metadata.name.as_str()),
            KeyValue::new("app.kubernetes.io/managed-by", "streamline-operator"),
            KeyValue::new("app.kubernetes.io/name", "streamline"),
        ];
        assert(labels.deep_view() =~= scaler_labels(cluster.deep_view()));
        labels
    }
}

/// Build a [`ClusterActivitySnapshot`] from raw metric values and the configured idle timeout.
#[allow(clippy::too_many_arguments)]
pub fn build_activity_snapshot(
    cluster_name: &str,
    namespace: &str,
    messages_per_second: RateReading,
    bytes_per_second: RateReading,
    active_connections: u64,
    consumer_lag: i64,
    last_activity_epoch: i64,
    idle_timeout_seconds: u64,
) -> (snapshot: ClusterActivitySnapshot)
    requires
        clock::LAST_SECOND - last_activity_epoch <= i64::MAX,
    ensures
        exists|now: i64|
            0 <= now <= clock::LAST_SECOND && snapshot.deep_view() == #[trigger] activity(
                cluster_name@,
                namespace@,
                messages_per_second.deep_view(),
                bytes_per_second.deep_view(),
                active_connections,
                consumer_lag,
                last_activity_epoch,
                idle_timeout_seconds,
                now,
            ),
{
    let (_stamp, now) = clock::now_stamped();
    activity_snapshot_at(
        cluster_name,
        namespace,
        messages_per_second,
        bytes_per_second,
        active_connections,
        consumer_lag,
        last_activity_epoch,
        idle_timeout_seconds,
        now,
    )
}

/// Build what [`build_activity_snapshot`] builds `now` seconds after the epoch.
#[allow(clippy::too_many_arguments)]
pub fn activity_snapshot_at(
    cluster_name: &str,
    namespace: &str,
    messages_per_second: RateReading,
    bytes_per_second: RateReading,
    active_connections: u64,
    consumer_lag: i64,
    last_activity_epoch: i64,
    idle_timeout_seconds: u64,
    now: i64,
) -> (snapshot: ClusterActivitySnapshot)
    requires
        i64::MIN <= now - last_activity_epoch <= i64::MAX,
    ensures
        snapshot.deep_view() == activity(
            cluster_name@,
            namespace@,
            messages_per_second.deep_view(),
            bytes_per_second.deep_view(),
            active_connections,
            consumer_lag,
            last_activity_epoch,
            idle_timeout_seconds,
            now,
        ),
{
    let elapsed: i64 = now - last_activity_epoch;
    let idle_duration: u64 = if elapsed > 0 {
        elapsed as u64
    } else {
        0
    };
    let is_idle = messages_per_second.is_zero && active_connections == 0 && idle_duration
        >= idle_timeout_seconds;
    ClusterActivitySnapshot {
        cluster_name: cluster_name.to_owned(),
        namespace: namespace.to_owned(),
        messages_per_second,
        bytes_per_second,
        active_connections,
        consumer_lag,
        last_activity_at: clock::moment_rfc3339(last_activity_epoch, 0),
        idle_duration_seconds: idle_duration,
        is_idle,
    }
}

// ---------------------------------------------------------------------------
// Laws
// ---------------------------------------------------------------------------

/// Replicas are taken to zero only when scale-to-zero is enabled, the cluster is idle, it has
/// been idle for the configured time, and no recent scale-up holds the decision back.
pub proof fn law_only_idle_clusters_scale_to_zero(
    snapshot: ClusterActivitySnapshotView,
    config: ScaleToZeroConfigView,
    current_replicas: i32,
    last_scale_up: Option<u64>,
    now: u64,
    timestamp: Seq<char>,
)
    ensures
        decided(
            snapshot,
            config,
            current_replicas,
            last_scale_up,
            now,
            timestamp,
        ).action == ScaleAction::ScaleToZero <==> config.enabled && snapshot.is_idle
            && snapshot.idle_duration_seconds >= config.idle_timeout_seconds && !in_cooldown(
            config.cooldown_seconds,
            now,
            last_scale_up,
        ),
{
}

/// A cluster at zero with activity is activated at once, cooldown or not; nothing else is.
pub proof fn law_activity_wakes_a_cluster_at_zero(
    snapshot: ClusterActivitySnapshotView,
    config: ScaleToZeroConfigView,
    current_replicas: i32,
    last_scale_up: Option<u64>,
    now: u64,
    timestamp: Seq<char>,
)
    ensures
        ({
            let action = decided(
                snapshot,
                config,
                current_replicas,
                last_scale_up,
                now,
                timestamp,
            );
            &&& action.action == ScaleAction::Activate <==> config.enabled && current_replicas == 0
                && !snapshot.is_idle
            &&& action.action == ScaleAction::Activate ==> requested_replicas(action) == Some(
                config.min_active_replicas,
            )
        }),
{
}

/// An action that changes nothing names the replicas that are there, and is not applied.
pub proof fn law_no_action_leaves_the_replicas(
    snapshot: ClusterActivitySnapshotView,
    config: ScaleToZeroConfigView,
    current_replicas: i32,
    last_scale_up: Option<u64>,
    now: u64,
    timestamp: Seq<char>,
)
    ensures
        ({
            let action = decided(
                snapshot,
                config,
                current_replicas,
                last_scale_up,
                now,
                timestamp,
            );
            requested_replicas(action) is None ==> action.target_replicas == current_replicas
        }),
        !config.enabled ==> requested_replicas(
            decided(snapshot, config, current_replicas, last_scale_up, now, timestamp),
        ) is None,
{
}

/// A ScaledObject always has a trigger.
pub proof fn law_a_scaled_object_has_a_trigger(
    cluster: StreamlineClusterView,
    namespace: Seq<char>,
    keda: KedaConfigView,
)
    ensures
        scaled_object(cluster, namespace, keda).triggers.len() > 0,
{
}

/// A snapshot with messages or connections is never idle, however long ago the last activity
/// was recorded.
pub proof fn law_an_active_cluster_is_never_idle(
    cluster_name: Seq<char>,
    namespace: Seq<char>,
    messages_per_second: RateReadingView,
    bytes_per_second: RateReadingView,
    active_connections: u64,
    consumer_lag: i64,
    last_activity: i64,
    idle_timeout: u64,
    now: i64,
)
    requires
        !messages_per_second.is_zero || active_connections > 0,
    ensures
        !activity(
            cluster_name,
            namespace,
            messages_per_second,
            bytes_per_second,
            active_connections,
            consumer_lag,
            last_activity,
            idle_timeout,
            now,
        ).is_idle,
{
}

/// The string maps of a ScaledObject are in key order if those of its configuration are: its
/// labels, and the metadata of each trigger, the default trigger among them.
pub proof fn law_scaled_object_maps_are_in_key_order(
    cluster: StreamlineClusterView,
    namespace: Seq<char>,
    keda: KedaConfigView,
)
    requires
        forall|i: int| 0 <= i < keda.triggers.len() ==> well_formed(#[trigger] keda.triggers[i]),
    ensures
        objects::in_key_order(scaled_object(cluster, namespace, keda).metadata.labels->0),
        ({
            let triggers = scaled_object(cluster, namespace, keda).triggers;
            forall|i: int| 0 <= i < triggers.len() ==> well_formed(#[trigger] triggers[i])
        }),
{
    objects::lemma_label_keys_rise();
    reveal_strlit("targetValue");
    reveal_strlit("url");
    reveal_strlit("valueLocation");
    text::lemma_precedes_at("targetValue"@, "url"@, 0);
    text::lemma_precedes_at("targetValue"@, "valueLocation"@, 0);
    text::lemma_precedes_at("url"@, "valueLocation"@, 0);
}

} // verus!
