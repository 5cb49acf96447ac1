//! Topic controller.
//!
//! Decides how a StreamlineTopic is created through the Streamline HTTP API, compares what the
//! server reports with what was asked for, and builds the status that is published.

use crate::clock;
use crate::conditions;
use crate::conditions::{
    condition_at, set_conditions, ConditionFields, ConditionView, CONDITION_FALSE, CONDITION_TRUE,
    CONDITION_UNKNOWN, TOPIC_CONDITION_READY, TOPIC_CONDITION_SYNCED, TOPIC_FINALIZER,
};
use crate::controllers;
use crate::controllers::{NextReconcile, ReconcileVerdict};
use crate::crd::cluster::{report, StreamlineClusterView};
use crate::crd::topic;
use crate::crd::topic::{PartitionAssignment, TopicConfigView, TopicSpecView, TopicStatusView};
use crate::crd::{
    StreamlineCluster, StreamlineTopic, StreamlineTopicView, TopicCondition, TopicPhase, TopicSpec,
    TopicStatus,
};
use crate::error;
use crate::error::{OperatorError, OperatorErrorView};
use crate::json;
use crate::objects;
use crate::objects::{KeyValue, KeyValueView};
use crate::text;
use crate::upgrade;
use vstd::prelude::*;
use vstd::string::*;

verus! {

/// The topic controller.
#[derive(Clone, Copy, Debug)]
pub struct TopicController;

/// State the Streamline server reports for a topic.
///
/// Fields are optional because the server is not required to echo the whole
/// topic back; the operator must not invent values it was not told.
#[derive(Clone, Copy, Debug, PartialEq, Eq, Structural)]
pub struct TopicServerState {
    pub partitions: Option<i32>,
    pub replication_factor: Option<i32>,
}

impl DeepView for TopicServerState {
    type V = Self;

    open spec fn deep_view(&self) -> Self {
        *self
    }
}

/// The numbers that a response body holds under the spellings the server may use.
#[derive(Clone, Copy, Debug, PartialEq, Eq, Structural)]
pub struct TopicReading {
    /// `partitions`
    pub partitions: Option<i64>,
    /// `partition_count`
    pub partition_count: Option<i64>,
    /// `partitionCount`
    pub partition_count_camel: Option<i64>,
    /// `replication_factor`
    pub replication_factor: Option<i64>,
    /// `replicationFactor`
    pub replication_factor_camel: Option<i64>,
}

impl DeepView for TopicReading {
    type V = Self;

    open spec fn deep_view(&self) -> Self {
        *self
    }
}

/// Outcome of comparing the desired spec with what the server reported.
#[derive(Debug, PartialEq, Eq)]
pub enum SyncOutcome {
    /// The server reported values matching the spec.
    InSync(TopicServerState),
    /// The server reported values that differ from the spec.
    Drift(String),
    /// The server accepted the request but reported nothing to verify against.
    Unverified,
}

/// What [`SyncOutcome`] says, over characters and sequences.
#[verifier::ext_equal]
pub enum SyncOutcomeView {
    InSync(TopicServerState),
    Drift(Seq<char>),
    Unverified,
}

impl DeepView for SyncOutcome {
    type V = SyncOutcomeView;

    open spec fn deep_view(&self) -> SyncOutcomeView {
        match self {
            SyncOutcome::InSync(v0) => SyncOutcomeView::InSync(*v0),
            SyncOutcome::Drift(v0) => SyncOutcomeView::Drift(v0@),
            SyncOutcome::Unverified => SyncOutcomeView::Unverified,
        }
    }
}

/// Which status a reconcile publishes.
#[derive(Debug, PartialEq, Eq)]
pub enum TopicReport {
    /// The spec asks for settings the server cannot apply
    Unsupported(String),
    /// The topic waits for its cluster
    Pending(String),
    /// The reconcile failed, or the server disagrees with the spec
    Failed(String),
    /// The server accepted the topic; whether it confirmed the spec
    Accepted(TopicServerState, bool),
}

/// What [`TopicReport`] says, over characters and sequences.
#[verifier::ext_equal]
pub enum TopicReportView {
    Unsupported(Seq<char>),
    Pending(Seq<char>),
    Failed(Seq<char>),
    Accepted(TopicServerState, bool),
}

impl DeepView for TopicReport {
    type V = TopicReportView;

    open spec fn deep_view(&self) -> TopicReportView {
        match self {
            TopicReport::Unsupported(v0) => TopicReportView::Unsupported(v0@),
            TopicReport::Pending(v0) => TopicReportView::Pending(v0@),
            TopicReport::Failed(v0) => TopicReportView::Failed(v0@),
            TopicReport::Accepted(v0, v1) => TopicReportView::Accepted(*v0, *v1),
        }
    }
}

/// What a reconcile does next.
#[derive(Debug, PartialEq, Eq)]
pub enum TopicDecision {
    /// Delete the topic from the server, if its cluster is there, and release the resource
    CleanUp,
    /// Read the referenced cluster
    LookUpCluster,
    /// Ask the server at this address for a topic with this name and partition count
    Create(String, String, i32),
    /// Read the topic back from this address
    ReadBack(String),
    /// Publish a status and end the reconcile
    Finish(TopicReport, NextReconcile, ReconcileVerdict),
}

/// What [`TopicDecision`] says, over characters and sequences.
#[verifier::ext_equal]
pub enum TopicDecisionView {
    CleanUp,
    LookUpCluster,
    Create(Seq<char>, Seq<char>, i32),
    ReadBack(Seq<char>),
    Finish(TopicReportView, NextReconcile, ReconcileVerdict),
}

impl DeepView for TopicDecision {
    type V = TopicDecisionView;

    open spec fn deep_view(&self) -> TopicDecisionView {
        match self {
            TopicDecision::CleanUp => TopicDecisionView::CleanUp,
            TopicDecision::LookUpCluster => TopicDecisionView::LookUpCluster,
            TopicDecision::Create(v0, v1, v2) => TopicDecisionView::Create(v0@, v1@, *v2),
            TopicDecision::ReadBack(v0) => TopicDecisionView::ReadBack(v0@),
            TopicDecision::Finish(v0, v1, v2) => TopicDecisionView::Finish(v0.deep_view(), *v1, *v2),
        }
    }
}

/// How a reconcile starts.
#[derive(Debug, PartialEq, Eq)]
pub struct TopicStart {
    /// Whether the finalizer has to be set first.
    pub add_finalizer: bool,
    /// Whether the resource is released: its topic deleted and its finalizer removed.
    pub deleting: bool,
    /// Why the spec is refused, or nothing if it is not.
    pub refusal: Option<String>,
}

/// What a [`TopicStart`] holds, over characters and sequences.
#[verifier::ext_equal]
pub struct TopicStartView {
    pub add_finalizer: bool,
    pub deleting: bool,
    pub refusal: Option<Seq<char>>,
}

impl DeepView for TopicStart {
    type V = TopicStartView;

    open spec fn deep_view(&self) -> TopicStartView {
        TopicStartView {
            add_finalizer: self.add_finalizer,
            deleting: self.deleting,
            refusal: self.refusal.deep_view(),
        }
    }
}

/// The answer of the server to a request.
#[derive(Debug, PartialEq, Eq)]
pub struct ServerReply {
    /// HTTP status code
    pub code: u16,
    /// HTTP status line, as it is quoted in messages
    pub status: String,
    /// Response body
    pub body: String,
}

/// What a [`ServerReply`] holds, over characters and sequences.
#[verifier::ext_equal]
pub struct ServerReplyView {
    pub code: u16,
    pub status: Seq<char>,
    pub body: Seq<char>,
}

impl DeepView for ServerReply {
    type V = ServerReplyView;

    open spec fn deep_view(&self) -> ServerReplyView {
        ServerReplyView {
            code: self.code,
            status: self.status@,
            body: self.body@,
        }
    }
}

pub const REPLICATION_UNSUPPORTED: &'static str = " is not supported: the Streamline topic API creates single-replica topics (set replicationFactor: 1), so this topic would claim durability the cluster does not provide.";

pub const SETTING_UNSUPPORTED: &'static str = " is not supported: the Streamline topic API applies no topic configuration (it accepts only name and partitions), so this setting would be silently discarded (leave it at the default ";

pub const NOT_CREATED: &'static str = "The topic was not created because the spec requests unsupported settings";

pub const SYNCED_MESSAGE: &'static str = "Server-reported partition count and replication factor match the desired state. No other topic configuration is applied: the Streamline topic API accepts only a name and a partition count";

pub const UNVERIFIED_MESSAGE: &'static str = "The server accepted the topic but did not report both its partition count and replication factor, so the desired state could not be verified";

pub const WAITING_MESSAGE: &'static str = "Topic cannot sync until cluster is ready";

pub const CLUSTER_NOT_READY: &'static str = "Waiting for cluster to be ready";

// ---------------------------------------------------------------------------
// What the server reports
// ---------------------------------------------------------------------------

/// The first number that is there.
pub open spec fn first_number(a: Option<i64>, b: Option<i64>, c: Option<i64>) -> Option<i64> {
    if a is Some {
        a
    } else if b is Some {
        b
    } else {
        c
    }
}

/// A number that fits 32 bits, or nothing.
pub open spec fn narrowed(number: Option<i64>) -> Option<i32> {
    match number {
        Some(n) => if i32::MIN <= n <= i32::MAX {
            Some(n as i32)
        } else {
            None
        },
        None => None,
    }
}

/// The state that a reading amounts to.
pub open spec fn reported_state(reading: TopicReading) -> TopicServerState {
    TopicServerState {
        partitions: narrowed(
            first_number(
                reading.partitions,
                reading.partition_count,
                reading.partition_count_camel,
            ),
        ),
        replication_factor: narrowed(
            first_number(
                reading.replication_factor,
                reading.replication_factor_camel,
                None,
            ),
        ),
    }
}

/// The object that a body describes its topic with: the one under `topic`, or the whole.
pub open spec fn topic_pointer(body: Seq<char>) -> Seq<char> {
    if json::json_present(body, "/topic"@) {
        "/topic"@
    } else {
        ""@
    }
}

/// The numbers that a body holds.
pub open spec fn body_reading(body: Seq<char>) -> TopicReading {
    let root = topic_pointer(body);
    TopicReading {
        partitions: json::json_number(body, root + "/partitions"@),
        partition_count: json::json_number(body, root + "/partition_count"@),
        partition_count_camel: json::json_number(body, root + "/partitionCount"@),
        replication_factor: json::json_number(body, root + "/replication_factor"@),
        replication_factor_camel: json::json_number(body, root + "/replicationFactor"@),
    }
}

/// The state in which nothing is reported.
pub open spec fn silent_state() -> TopicServerState {
    TopicServerState { partitions: None, replication_factor: None }
}

// ---------------------------------------------------------------------------
// What the server cannot apply
// ---------------------------------------------------------------------------

/// The rejection of one setting.
pub open spec fn rejection(
    field: Seq<char>,
    requested: Seq<char>,
    default: Seq<char>,
) -> Seq<char> {
    field + "="@ + requested + SETTING_UNSUPPORTED@ + default + ")."@ + upgrade::remedy_for_value(
        "spec."@ + field,
        requested,
    )
}

/// A list with the rejection of a setting where it is `wrong`, and an empty one otherwise.
pub open spec fn reject_if(
    wrong: bool,
    field: Seq<char>,
    requested: Seq<char>,
    default: Seq<char>,
) -> Seq<Seq<char>> {
    if wrong {
        seq![rejection(field, requested, default)]
    } else {
        Seq::empty()
    }
}

/// The rejection of an override, if it is set.
pub open spec fn reject_override(field: Seq<char>, value: Option<int>) -> Seq<Seq<char>> {
    match value {
        Some(value) => seq![rejection(field, text::decimal(value), "unset"@)],
        None => Seq::empty(),
    }
}

/// An optional 32-bit setting as a number.
pub open spec fn wide32(value: Option<i32>) -> Option<int> {
    match value {
        Some(value) => Some(value as int),
        None => None,
    }
}

/// An optional 64-bit setting as a number.
pub open spec fn wide64(value: Option<i64>) -> Option<int> {
    match value {
        Some(value) => Some(value as int),
        None => None,
    }
}

/// The rejections of the custom settings, in their order.
pub open spec fn custom_rejections(custom: Seq<KeyValueView>) -> Seq<Seq<char>>
    decreases custom.len(),
{
    if custom.len() == 0 {
        Seq::empty()
    } else {
        custom_rejections(custom.drop_last()).push(
            rejection("config.custom["@ + custom.last().key + "]"@, "set"@, "unset"@),
        )
    }
}

/// The rejections of the replication factor and the partition count.
pub open spec fn shape_rejections(spec: TopicSpecView) -> Seq<Seq<char>> {
    (if spec.replication_factor != 1 {
        seq![
            "replicationFactor="@ + text::decimal(spec.replication_factor as int)
                + REPLICATION_UNSUPPORTED@ + upgrade::remedy_for(
                "spec.replicationFactor"@,
                spec.replication_factor == upgrade::LEGACY_TOPIC_REPLICATION_FACTOR,
            ),
        ]
    } else {
        Seq::empty()
    }) + (if spec.partitions < 1 {
        seq!["partitions must be >= 1, got "@ + text::decimal(spec.partitions as int)]
    } else {
        Seq::empty()
    })
}

/// The rejections of the retention and compression settings.
pub open spec fn retention_rejections(spec: TopicSpecView) -> Seq<Seq<char>> {
    let defaults = topic::config_default_values();
    reject_if(
        spec.retention.retention_ms != defaults.retention_ms,
        "retention.retentionMs"@,
        text::decimal(spec.retention.retention_ms as int),
        text::decimal(defaults.retention_ms as int),
    ) + reject_if(
        spec.retention.retention_bytes != defaults.retention_bytes,
        "retention.retentionBytes"@,
        text::decimal(spec.retention.retention_bytes as int),
        text::decimal(defaults.retention_bytes as int),
    ) + reject_if(
        spec.retention.cleanup_policy != defaults.cleanup_policy,
        "retention.cleanupPolicy"@,
        spec.retention.cleanup_policy,
        defaults.cleanup_policy,
    ) + reject_if(
        spec.compression.type_ != defaults.compression_type,
        "compression.type"@,
        spec.compression.type_,
        defaults.compression_type,
    )
}

/// The rejections of the configuration overrides.
pub open spec fn config_rejections(spec: TopicSpecView) -> Seq<Seq<char>> {
    reject_override("config.minInsyncReplicas"@, wide32(spec.config.min_insync_replicas))
        + reject_override("config.maxMessageBytes"@, wide64(spec.config.max_message_bytes))
        + reject_override("config.segmentBytes"@, wide64(spec.config.segment_bytes))
        + reject_override("config.indexIntervalBytes"@, wide64(spec.config.index_interval_bytes))
        + reject_override("config.flushIntervalMs"@, wide64(spec.config.flush_interval_ms))
        + reject_override("config.flushMessages"@, wide64(spec.config.flush_messages))
        + custom_rejections(spec.config.custom)
}

/// Everything in a spec that the server cannot apply, in the order it is reported.
pub open spec fn rejections(spec: TopicSpecView) -> Seq<Seq<char>> {
    shape_rejections(spec) + retention_rejections(spec) + config_rejections(spec)
}

/// Whether a spec asks only for what the server does.
pub open spec fn supported(spec: TopicSpecView) -> bool {
    &&& spec.replication_factor == 1
    &&& spec.partitions >= 1
    &&& spec.retention == topic::default_retention()
    &&& spec.compression == topic::default_compression()
    &&& spec.config == topic::no_overrides()
}

// ---------------------------------------------------------------------------
// Sync
// ---------------------------------------------------------------------------

/// Where the server disagrees with the spec.
pub open spec fn drifts(spec: TopicSpecView, state: TopicServerState) -> Seq<Seq<char>> {
    (if state.partitions is Some && state.partitions->0 != spec.partitions {
        seq![
            "server reports "@ + text::decimal(state.partitions->0 as int)
                + " partitions, spec requests "@ + text::decimal(spec.partitions as int),
        ]
    } else {
        Seq::empty()
    }) + (if state.replication_factor is Some && state.replication_factor->0
        != spec.replication_factor {
        seq![
            "server reports replication factor "@ + text::decimal(
                state.replication_factor->0 as int,
            ) + ", spec requests "@ + text::decimal(spec.replication_factor as int),
        ]
    } else {
        Seq::empty()
    })
}

/// What comparing the spec with the reported state amounts to.
pub open spec fn sync_outcome(spec: TopicSpecView, state: TopicServerState) -> SyncOutcomeView {
    if drifts(spec, state).len() > 0 {
        SyncOutcomeView::Drift(text::joined(drifts(spec, state), "; "@))
    } else if state.partitions is Some && state.replication_factor is Some {
        SyncOutcomeView::InSync(state)
    } else {
        SyncOutcomeView::Unverified
    }
}

/// The report on a topic that the server accepted with the given state.
pub open spec fn sync_report(spec: TopicSpecView, state: TopicServerState) -> TopicReportView {
    match sync_outcome(spec, state) {
        SyncOutcomeView::InSync(state) => TopicReportView::Accepted(state, true),
        SyncOutcomeView::Unverified => TopicReportView::Accepted(state, false),
        SyncOutcomeView::Drift(message) => TopicReportView::Failed(message),
    }
}

// ---------------------------------------------------------------------------
// Decisions
// ---------------------------------------------------------------------------

/// How a reconcile starts.
pub open spec fn topic_start(topic: StreamlineTopicView) -> TopicStartView {
    TopicStartView {
        add_finalizer: !topic.metadata.deleting && !topic.metadata.finalizers.contains(
            TOPIC_FINALIZER@,
        ),
        deleting: topic.metadata.deleting,
        refusal: if !topic.metadata.deleting && rejections(topic.spec).len() > 0 {
            Some(text::joined(rejections(topic.spec), "; "@))
        } else {
            None
        },
    }
}

/// What a reconcile does first, once the finalizer is set.
pub open spec fn first_decision(topic: StreamlineTopicView) -> TopicDecisionView {
    if topic.metadata.deleting {
        TopicDecisionView::CleanUp
    } else if rejections(topic.spec).len() > 0 {
        TopicDecisionView::Finish(
            TopicReportView::Unsupported(text::joined(rejections(topic.spec), "; "@)),
            NextReconcile::After(300),
            ReconcileVerdict::Error,
        )
    } else {
        TopicDecisionView::LookUpCluster
    }
}

/// What a reconcile does once it has looked the cluster up.
pub open spec fn decision_on_cluster(
    topic: StreamlineTopicView,
    cluster: Option<StreamlineClusterView>,
) -> TopicDecisionView {
    match cluster {
        None => TopicDecisionView::Finish(
            TopicReportView::Failed("Cluster "@ + topic.spec.cluster_ref + " not found"@),
            NextReconcile::After(30),
            ReconcileVerdict::Uncounted,
        ),
        Some(cluster) => if !controllers::takes_requests(cluster) {
            TopicDecisionView::Finish(
                TopicReportView::Pending(CLUSTER_NOT_READY@),
                NextReconcile::After(10),
                ReconcileVerdict::Uncounted,
            )
        } else {
            TopicDecisionView::Create(
                controllers::http_endpoint(cluster, objects::namespace_of(cluster.metadata))
                    + "/api/v1/topics"@,
                topic.metadata.name,
                topic.spec.partitions,
            )
        },
    }
}

/// The end of a reconcile whose request failed.
pub open spec fn failed_request(message: Seq<char>) -> TopicDecisionView {
    TopicDecisionView::Finish(
        TopicReportView::Failed(error::error_text(OperatorErrorView::Internal(message))),
        NextReconcile::After(30),
        ReconcileVerdict::Uncounted,
    )
}

/// The end of a reconcile whose request the server accepted.
pub open spec fn accepted_request(
    topic: StreamlineTopicView,
    state: TopicServerState,
) -> TopicDecisionView {
    TopicDecisionView::Finish(
        sync_report(topic.spec, state),
        NextReconcile::After(60),
        ReconcileVerdict::Success,
    )
}

/// What a reconcile does once the server has answered the create request: `state` is what the
/// body reports.
pub open spec fn decision_on_reply(
    topic: StreamlineTopicView,
    cluster: StreamlineClusterView,
    code: u16,
    status: Seq<char>,
    body: Seq<char>,
    state: TopicServerState,
) -> TopicDecisionView {
    if !controllers::is_accepted(code) {
        failed_request(
            "Failed to create topic "@ + topic.metadata.name + " (HTTP "@ + status + "): "@ + body,
        )
    } else if state == silent_state() {
        TopicDecisionView::ReadBack(
            controllers::http_endpoint(cluster, objects::namespace_of(cluster.metadata))
                + "/api/v1/topics/"@ + topic.metadata.name,
        )
    } else {
        accepted_request(topic, state)
    }
}

/// The state that a read-back reports: nothing unless the server answered with success.
pub open spec fn read_back_state(reply: Option<ServerReplyView>) -> TopicServerState {
    match reply {
        Some(reply) => if controllers::is_success(reply.code) {
            reported_state(body_reading(reply.body))
        } else {
            silent_state()
        },
        None => silent_state(),
    }
}

// ---------------------------------------------------------------------------
// Status
// ---------------------------------------------------------------------------

/// The conditions that a topic has published.
pub open spec fn published_conditions(status: Option<TopicStatusView>) -> Seq<ConditionView> {
    match status {
        Some(status) => status.conditions,
        None => Seq::empty(),
    }
}

/// The status with a time stamp that moves only when the rest of the status changes.
pub open spec fn stabilized(
    current: Option<TopicStatusView>,
    status: TopicStatusView,
    now: Seq<char>,
) -> TopicStatusView {
    match current {
        Some(published) if (TopicStatusView { last_updated: None, ..published }) == status =>
            TopicStatusView { last_updated: published.last_updated, ..status },
        _ => TopicStatusView { last_updated: Some(now), ..status },
    }
}

/// The conditions that a report amounts to: Ready, then Synced.
pub open spec fn report_conditions(report: TopicReportView, now: Seq<char>) -> Seq<ConditionView> {
    match report {
        TopicReportView::Unsupported(message) => seq![
            conditions::stamped(
                TOPIC_CONDITION_READY@,
                CONDITION_FALSE@,
                "UnsupportedConfiguration"@,
                message,
                now,
            ),
            conditions::stamped(
                TOPIC_CONDITION_SYNCED@,
                CONDITION_FALSE@,
                "UnsupportedConfiguration"@,
                NOT_CREATED@,
                now,
            ),
        ],
        TopicReportView::Pending(message) => seq![
            conditions::stamped(
                TOPIC_CONDITION_READY@,
                CONDITION_FALSE@,
                "Pending"@,
                message,
                now,
            ),
            conditions::stamped(
                TOPIC_CONDITION_SYNCED@,
                CONDITION_FALSE@,
                "WaitingForCluster"@,
                WAITING_MESSAGE@,
                now,
            ),
        ],
        TopicReportView::Failed(message) => seq![
            conditions::stamped(TOPIC_CONDITION_READY@, CONDITION_FALSE@, "Error"@, message, now),
            conditions::stamped(
                TOPIC_CONDITION_SYNCED@,
                CONDITION_FALSE@,
                "SyncFailed"@,
                message,
                now,
            ),
        ],
        TopicReportView::Accepted(_, verified) => seq![
            conditions::stamped(
                TOPIC_CONDITION_READY@,
                CONDITION_TRUE@,
                "TopicReady"@,
                "Topic successfully created/updated"@,
                now,
            ),
            if verified {
                conditions::stamped(
                    TOPIC_CONDITION_SYNCED@,
                    CONDITION_TRUE@,
                    "ConfigSynced"@,
                    SYNCED_MESSAGE@,
                    now,
                )
            } else {
                conditions::stamped(
                    TOPIC_CONDITION_SYNCED@,
                    CONDITION_UNKNOWN@,
                    "ServerDidNotReportConfiguration"@,
                    UNVERIFIED_MESSAGE@,
                    now,
                )
            },
        ],
    }
}

/// A reported number, or zero where nothing is reported.
pub open spec fn or_zero(number: Option<i32>) -> i32 {
    match number {
        Some(n) => n,
        None => 0,
    }
}

/// The status that a report amounts to, before it is stamped.
pub open spec fn report_body(
    topic: StreamlineTopicView,
    report: TopicReportView,
    now: Seq<char>,
) -> TopicStatusView {
    TopicStatusView {
        ready: report is Accepted,
        phase: match report {
            TopicReportView::Accepted(_, _) => TopicPhase::Ready,
            TopicReportView::Pending(_) => TopicPhase::Pending,
            _ => TopicPhase::Failed,
        },
        partitions: match report {
            TopicReportView::Accepted(state, _) => or_zero(state.partitions),
            _ => 0,
        },
        replication_factor: match report {
            TopicReportView::Accepted(state, _) => or_zero(state.replication_factor),
            _ => 0,
        },
        partition_assignments: Seq::empty(),
        conditions: conditions::with_conditions(
            published_conditions(topic.status),
            report_conditions(report, now),
        ),
        observed_generation: topic.metadata.generation,
        last_updated: None,
        error_message: match report {
            TopicReportView::Unsupported(message) => Some(message),
            TopicReportView::Failed(message) => Some(message),
            _ => None,
        },
    }
}

/// The status that a report amounts to.
pub open spec fn report_status(
    topic: StreamlineTopicView,
    report: TopicReportView,
    now: Seq<char>,
) -> TopicStatusView {
    stabilized(topic.status, report_body(topic, report, now), now)
}

// ---------------------------------------------------------------------------
// Code
// ---------------------------------------------------------------------------

impl Default for TopicServerState {
    fn default() -> (state: Self)
        ensures
            state == silent_state(),
    {
        TopicServerState { partitions: None, replication_factor: None }
    }
}

impl TopicServerState {
    /// Whether the server reported nothing.
    pub fn is_empty(&self) -> (empty: bool)
        ensures
            empty == (*self == silent_state()),
    {
        self.partitions.is_none() && self.replication_factor.is_none()
    }

    /// Whether the server reported every field the operator verifies.
    pub fn is_fully_reported(&self) -> (full: bool)
        ensures
            full == (self.partitions is Some && self.replication_factor is Some),
    {
        self.partitions.is_some() && self.replication_factor.is_some()
    }
}

fn narrow(number: Option<i64>) -> (narrow: Option<i32>)
    ensures
        narrow == narrowed(number),
{
    match number {
        Some(n) => if i32::MIN as i64 <= n && n <= i32::MAX as i64 {
            Some(n as i32)
        } else {
            None
        },
        None => None,
    }
}

fn first(a: Option<i64>, b: Option<i64>, c: Option<i64>) -> (number: Option<i64>)
    ensures
        number == first_number(a, b, c),
{
    if a.is_some() {
        a
    } else if b.is_some() {
        b
    } else {
        c
    }
}

/// The state that the numbers of a response body amount to: the first spelling that holds a
/// number counts, and a number that does not fit is not reported.
pub fn state_of_reading(reading: &TopicReading) -> (state: TopicServerState)
    ensures
        state == reported_state(*reading),
{
    TopicServerState {
        partitions: narrow(
            first(reading.partitions, reading.partition_count, reading.partition_count_camel),
        ),
        replication_factor: narrow(
            first(reading.replication_factor, reading.replication_factor_camel, None),
        ),
    }
}

/// Parse the topic state out of a Streamline API response body.
///
/// Accepts both a bare topic object and one wrapped in `{"topic": {...}}`, and
/// tolerates the `partitionCount`/`partition_count` spellings.
pub fn parse_topic_state(body: &str) -> (state: TopicServerState)
    ensures
        state == reported_state(body_reading(body@)),
{
    let root = if json::present_at(body, "/topic") {
        "/topic"
    } else {
        ""
    };
    let reading = TopicReading {
        partitions: json::number_at(body, root.to_owned().concat("/partitions").as_str()),
        partition_count: json::number_at(body, root.to_owned().concat("/partition_count").as_str()),
        partition_count_camel: json::number_at(
            body,
            root.to_owned().concat("/partitionCount").as_str(),
        ),
        replication_factor: json::number_at(
            body,
            root.to_owned().concat("/replication_factor").as_str(),
        ),
        replication_factor_camel: json::number_at(
            body,
            root.to_owned().concat("/replicationFactor").as_str(),
        ),
    };
    state_of_reading(&reading)
}

fn reject(unsupported: &mut Vec<String>, field: &str, requested: &str, default: &str)
    ensures
        final(unsupported).deep_view() == old(unsupported).deep_view() + seq![
            rejection(field@, requested@, default@),
        ],
{
    // The upgrade table keys on the full spec path. Provenance is decided from
    // the observed value rather than from the field, so a deliberate value is
    // rejected with a fix but never blamed on an upgrade.
    let remediation = upgrade::remediation_for_value(
        "spec.".to_owned().concat(field).as_str(),
        requested,
    );
    report(
        unsupported,
        field.to_owned().concat("=").concat(requested).concat(SETTING_UNSUPPORTED).concat(
            default,
        ).concat(").").concat(remediation.as_str()),
    );
}

fn reject_shape(unsupported: &mut Vec<String>, spec: &TopicSpec)
    ensures
        final(unsupported).deep_view() == old(unsupported).deep_view() + shape_rejections(
            spec.deep_view(),
        ),
{
    let ghost before = unsupported.deep_view();
    if spec.replication_factor != 1 {
        // v0.3.0 defaulted this to 2, so topics created against those CRDs
        // carry a replication factor nobody asked for and the server never
        // honoured. Point at the upgrade path rather than only refusing.
        let remedy = upgrade::remediation_for(
            "spec.replicationFactor",
            spec.replication_factor == upgrade::LEGACY_TOPIC_REPLICATION_FACTOR,
        );
        report(
            unsupported,
            "replicationFactor=".to_owned().concat(
                text::i32_text(spec.replication_factor).as_str(),
            ).concat(REPLICATION_UNSUPPORTED).concat(remedy.as_str()),
        );
    }
    if spec.partitions < 1 {
        report(
            unsupported,
            "partitions must be >= 1, got ".to_owned().concat(
                text::i32_text(spec.partitions).as_str(),
            ),
        );
    }
    assert(unsupported.deep_view() =~= before + shape_rejections(spec.deep_view()));
}

fn reject_retention(unsupported: &mut Vec<String>, spec: &TopicSpec)
    ensures
        final(unsupported).deep_view() == old(unsupported).deep_view() + retention_rejections(
            spec.deep_view(),
        ),
{
    let ghost before = unsupported.deep_view();
    let defaults = TopicSpec::config_defaults();
    if spec.retention.retention_ms != defaults.retention_ms {
        reject(
            unsupported,
            "retention.retentionMs",
            text::i64_text(spec.retention.retention_ms).as_str(),
            text::i64_text(defaults.retention_ms).as_str(),
        );
    }
    if spec.retention.retention_bytes != defaults.retention_bytes {
        reject(
            unsupported,
            "retention.retentionBytes",
            text::i64_text(spec.retention.retention_bytes).as_str(),
            text::i64_text(defaults.retention_bytes).as_str(),
        );
    }
    if !text::text_eq(spec.retention.cleanup_policy.as_str(), defaults.cleanup_policy.as_str()) {
        reject(
            unsupported,
            "retention.cleanupPolicy",
            spec.retention.cleanup_policy.as_str(),
            defaults.cleanup_policy.as_str(),
        );
    }
    if !text::text_eq(spec.compression.type_.as_str(), defaults.compression_type.as_str()) {
        reject(
            unsupported,
            "compression.type",
            spec.compression.type_.as_str(),
            defaults.compression_type.as_str(),
        );
    }
    assert(unsupported.deep_view() =~= before + retention_rejections(spec.deep_view()));
}

fn reject_set32(unsupported: &mut Vec<String>, field: &str, value: Option<i32>)
    ensures
        final(unsupported).deep_view() == old(unsupported).deep_view() + reject_override(
            field@,
            wide32(value),
        ),
{
    let ghost before = unsupported.deep_view();
    match value {
        Some(value) => {
            reject(unsupported, field, text::i32_text(value).as_str(), "unset");
        },
        None => {
            assert(unsupported.deep_view() =~= before + Seq::<Seq<char>>::empty());
        },
    }
}

fn reject_set64(unsupported: &mut Vec<String>, field: &str, value: Option<i64>)
    ensures
        final(unsupported).deep_view() == old(unsupported).deep_view() + reject_override(
            field@,
            wide64(value),
        ),
{
    let ghost before = unsupported.deep_view();
    match value {
        Some(value) => {
            reject(unsupported, field, text::i64_text(value).as_str(), "unset");
        },
        None => {
            assert(unsupported.deep_view() =~= before + Seq::<Seq<char>>::empty());
        },
    }
}

fn reject_custom(unsupported: &mut Vec<String>, custom: &Vec<KeyValue>)
    ensures
        final(unsupported).deep_view() == old(unsupported).deep_view() + custom_rejections(
            custom.deep_view(),
        ),
{
    let ghost before = unsupported.deep_view();
    let ghost all = custom.deep_view();
    let mut i: usize = 0;
    assert(before + custom_rejections(all.subrange(0, 0)) =~= before);
    while i < custom.len()
        invariant
            i <= custom.len(),
            all == custom.deep_view(),
            unsupported.deep_view() == before + custom_rejections(all.subrange(0, i as int)),
        decreases custom.len() - i,
    {
        let ghost seen = all.subrange(0, i + 1);
        assert(seen.drop_last() =~= all.subrange(0, i as int));
        assert(seen.last() == custom[i as int].deep_view());
        let field = "config.custom[".to_owned().concat(custom[i].key.as_str()).concat("]");
        reject(unsupported, field.as_str(), "set", "unset");
        assert(unsupported.deep_view() =~= before + custom_rejections(seen));
        i = i + 1;
    }
    assert(all.subrange(0, all.len() as int) =~= all);
}

proof fn lemma_appended(front: Seq<Seq<char>>, so_far: Seq<Seq<char>>, more: Seq<Seq<char>>)
    ensures
        (front + so_far) + more == front + (so_far + more),
{
    assert((front + so_far) + more =~= front + (so_far + more));
}

fn reject_config(unsupported: &mut Vec<String>, spec: &TopicSpec)
    ensures
        final(unsupported).deep_view() == old(unsupported).deep_view() + config_rejections(
            spec.deep_view(),
        ),
{
    // Every `spec.config` entry is an override, so any value at all is a
    // request the server cannot satisfy.
    let config = &spec.config;
    let ghost before = unsupported.deep_view();
    let ghost r1 = reject_override(
        "config.minInsyncReplicas"@,
        wide32(config.min_insync_replicas),
    );
    let ghost r2 = reject_override("config.maxMessageBytes"@, wide64(config.max_message_bytes));
    let ghost r3 = reject_override("config.segmentBytes"@, wide64(config.segment_bytes));
    let ghost r4 = reject_override(
        "config.indexIntervalBytes"@,
        wide64(config.index_interval_bytes),
    );
    let ghost r5 = reject_override("config.flushIntervalMs"@, wide64(config.flush_interval_ms));
    let ghost r6 = reject_override("config.flushMessages"@, wide64(config.flush_messages));
    let ghost r7 = custom_rejections(config.custom.deep_view());
    reject_set32(unsupported, "config.minInsyncReplicas", config.min_insync_replicas);
    reject_set64(unsupported, "config.maxMessageBytes", config.max_message_bytes);
    reject_set64(unsupported, "config.segmentBytes", config.segment_bytes);
    reject_set64(unsupported, "config.indexIntervalBytes", config.index_interval_bytes);
    reject_set64(unsupported, "config.flushIntervalMs", config.flush_interval_ms);
    reject_set64(unsupported, "config.flushMessages", config.flush_messages);
    reject_custom(unsupported, &config.custom);
    proof {
        lemma_appended(before, r1, r2);
        lemma_appended(before, r1 + r2, r3);
        lemma_appended(before, r1 + r2 + r3, r4);
        lemma_appended(before, r1 + r2 + r3 + r4, r5);
        lemma_appended(before, r1 + r2 + r3 + r4 + r5, r6);
        lemma_appended(before, r1 + r2 + r3 + r4 + r5 + r6, r7);
    }
}

/// Topic settings the Streamline server API cannot honour today.
///
/// The core topic API accepts exactly a name and a partition count, so every
/// other setting is rejected *before* the API call whenever it differs from the
/// CRD default. Leaving a field at its schema default is accepted: the user
/// asked for nothing, and nothing is what the server does.
pub fn unsupported_fields(spec: &TopicSpec) -> (unsupported: Vec<String>)
    ensures
        unsupported.deep_view() == rejections(spec.deep_view()),
{
    let mut unsupported: Vec<String> = Vec::new();
    assert(unsupported.deep_view() =~= Seq::empty());
    reject_shape(&mut unsupported, spec);
    reject_retention(&mut unsupported, spec);
    reject_config(&mut unsupported, spec);
    assert(unsupported.deep_view() =~= rejections(spec.deep_view()));
    unsupported
}

/// Compare the desired spec against what the server reported.
///
/// Only the partition count and the replication factor are verifiable, and both
/// must be present before the topic is called in sync. A partial answer is
/// [`SyncOutcome::Unverified`], which publishes `Synced=Unknown` instead of
/// claiming agreement the server never confirmed.
pub fn evaluate_sync(spec: &TopicSpec, state: TopicServerState) -> (outcome: SyncOutcome)
    ensures
        outcome.deep_view() == sync_outcome(spec.deep_view(), state),
{
    let mut drift: Vec<String> = Vec::new();
    assert(drift.deep_view() =~= Seq::empty());
    match state.partitions {
        Some(partitions) => {
            if partitions != spec.partitions {
                report(
                    &mut drift,
                    "server reports ".to_owned().concat(text::i32_text(partitions).as_str()).concat(
                        " partitions, spec requests ",
                    ).concat(text::i32_text(spec.partitions).as_str()),
                );
            }
        },
        None => {},
    }
    match state.replication_factor {
        Some(factor) => {
            if factor != spec.replication_factor {
                report(
                    &mut drift,
                    "server reports replication factor ".to_owned().concat(
                        text::i32_text(factor).as_str(),
                    ).concat(", spec requests ").concat(
                        text::i32_text(spec.replication_factor).as_str(),
                    ),
                );
            }
        },
        None => {},
    }
    assert(drift.deep_view() =~= drifts(spec.deep_view(), state));
    assert(drift.len() == drift.deep_view().len());
    if !drift.is_empty() {
        return SyncOutcome::Drift(text::join_texts(&drift, "; "));
    }
    if state.is_fully_reported() {
        SyncOutcome::InSync(state)
    } else {
        SyncOutcome::Unverified
    }
}

impl TopicController {
    /// The settings in `spec` the Streamline server cannot apply, worded
    /// exactly as the controller publishes them in `status`.
    #[must_use]
    pub fn unsupported_fields(spec: &TopicSpec) -> (unsupported: Vec<String>)
        ensures
            unsupported.deep_view() == rejections(spec.deep_view()),
    {
        self::unsupported_fields(spec)
    }

    /// How a reconcile starts: whether the finalizer has to be set, whether the resource is
    /// released, and whether its spec is refused.
    pub fn start(topic: &StreamlineTopic) -> (start: TopicStart)
        ensures
            start.deep_view() == topic_start(topic.deep_view()),
    {
        if topic.metadata.deleting {
            return TopicStart { add_finalizer: false, deleting: true, refusal: None };
        }
        let unsupported = self::unsupported_fields(&topic.spec);
        assert(unsupported.len() == unsupported.deep_view().len());
        TopicStart {
            add_finalizer: !topic.metadata.has_finalizer(TOPIC_FINALIZER),
            deleting: false,
            refusal: if unsupported.is_empty() {
                None
            } else {
                Some(text::join_texts(&unsupported, "; "))
            },
        }
    }

    /// What a reconcile does first, once the finalizer is set.
    ///
    /// Settings the server cannot honour are rejected before the cluster is touched: reporting
    /// Ready for an unsupported spec would misrepresent durability.
    pub fn decide(topic: &StreamlineTopic) -> (decision: TopicDecision)
        ensures
            decision.deep_view() == first_decision(topic.deep_view()),
    {
        let start = Self::start(topic);
        if start.deleting {
            return TopicDecision::CleanUp;
        }
        match start.refusal {
            Some(message) => TopicDecision::Finish(
                TopicReport::Unsupported(message),
                NextReconcile::After(300),
                ReconcileVerdict::Error,
            ),
            None => TopicDecision::LookUpCluster,
        }
    }

    /// What a reconcile does once it has looked the cluster up.
    pub fn decide_on_cluster(topic: &StreamlineTopic, cluster: Option<&StreamlineCluster>) -> (decision:
        TopicDecision)
        ensures
            decision.deep_view() == decision_on_cluster(topic.deep_view(), cluster.deep_view()),
    {
        match cluster {
            None => TopicDecision::Finish(
                TopicReport::Failed(
                    "Cluster ".to_owned().concat(topic.spec.cluster_ref.as_str()).concat(
                        " not found",
                    ),
                ),
                NextReconcile::After(30),
                ReconcileVerdict::Uncounted,
            ),
            Some(cluster) => {
                if !controllers::cluster_is_ready(cluster) {
                    TopicDecision::Finish(
                        TopicReport::Pending(CLUSTER_NOT_READY.to_owned()),
                        NextReconcile::After(10),
                        ReconcileVerdict::Uncounted,
                    )
                } else {
                    let namespace = cluster.metadata.namespace_or_default();
                    TopicDecision::Create(
                        controllers::broker_http_endpoint(cluster, namespace.as_str()).concat(
                            "/api/v1/topics",
                        ),
                        topic.metadata.name.clone(),
                        topic.spec.partitions,
                    )
                }
            },
        }
    }

    /// What a reconcile does when the create request could not be sent.
    pub fn decide_on_failure(topic: &StreamlineTopic, failure: &str) -> (decision: TopicDecision)
        ensures
            decision.deep_view() == failed_request(
                "HTTP request to create topic "@ + topic.metadata.name@ + " failed: "@ + failure@,
            ),
    {
        let error = OperatorError::Internal(
            "HTTP request to create topic ".to_owned().concat(topic.metadata.name.as_str()).concat(
                " failed: ",
            ).concat(failure),
        );
        TopicDecision::Finish(
            TopicReport::Failed(error.to_string()),
            NextReconcile::After(30),
            ReconcileVerdict::Uncounted,
        )
    }

    /// What a reconcile does once the server has answered the create request.
    ///
    /// 409 Conflict means the topic already exists, which is as good as success; but the
    /// conflict body says nothing about the existing topic, so it is read back.
    pub fn decide_on_reply(
        topic: &StreamlineTopic,
        cluster: &StreamlineCluster,
        reply: &ServerReply,
    ) -> (decision: TopicDecision)
        ensures
            decision.deep_view() == decision_on_reply(
                topic.deep_view(),
                cluster.deep_view(),
                reply.code,
                reply.status@,
                reply.body@,
                reported_state(body_reading(reply.body@)),
            ),
    {
        Self::decide_on_state(topic, cluster, reply, parse_topic_state(reply.body.as_str()))
    }

    /// What a reconcile does once the server has answered the create request with a body that
    /// reports `state`.
    pub fn decide_on_state(
        topic: &StreamlineTopic,
        cluster: &StreamlineCluster,
        reply: &ServerReply,
        state: TopicServerState,
    ) -> (decision: TopicDecision)
        ensures
            decision.deep_view() == decision_on_reply(
                topic.deep_view(),
                cluster.deep_view(),
                reply.code,
                reply.status@,
                reply.body@,
                state,
            ),
    {
        if !controllers::create_accepted(reply.code) {
            let error = OperatorError::Internal(
                "Failed to create topic ".to_owned().concat(topic.metadata.name.as_str()).concat(
                    " (HTTP ",
                ).concat(reply.status.as_str()).concat("): ").concat(reply.body.as_str()),
            );
            return TopicDecision::Finish(
                TopicReport::Failed(error.to_string()),
                NextReconcile::After(30),
                ReconcileVerdict::Uncounted,
            );
        }
        if state.is_empty() {
            let namespace = cluster.metadata.namespace_or_default();
            return TopicDecision::ReadBack(
                controllers::broker_http_endpoint(cluster, namespace.as_str()).concat(
                    "/api/v1/topics/",
                ).concat(topic.metadata.name.as_str()),
            );
        }
        Self::finish(topic, state)
    }

    /// What a reconcile does once the topic was read back; `None` if no answer came.
    ///
    /// A server that does not expose, or does not answer, the read endpoint reports nothing.
    pub fn decide_on_read_back(topic: &StreamlineTopic, reply: Option<&ServerReply>) -> (decision:
        TopicDecision)
        ensures
            decision.deep_view() == accepted_request(
                topic.deep_view(),
                read_back_state(reply.deep_view()),
            ),
    {
        let state = match reply {
            Some(reply) => if controllers::http_success(reply.code) {
                parse_topic_state(reply.body.as_str())
            } else {
                TopicServerState::default()
            },
            None => TopicServerState::default(),
        };
        Self::finish(topic, state)
    }

    /// The end of a reconcile of a topic that the server accepted with the given state.
    pub fn finish(topic: &StreamlineTopic, state: TopicServerState) -> (decision: TopicDecision)
        ensures
            decision.deep_view() == accepted_request(topic.deep_view(), state),
    {
        let report = match evaluate_sync(&topic.spec, state) {
            SyncOutcome::InSync(state) => TopicReport::Accepted(state, true),
            SyncOutcome::Unverified => TopicReport::Accepted(state, false),
            SyncOutcome::Drift(message) => TopicReport::Failed(message),
        };
        TopicDecision::Finish(report, NextReconcile::After(60), ReconcileVerdict::Success)
    }

    /// The address that a topic is deleted at.
    pub fn deletion_url(topic: &StreamlineTopic, cluster: &StreamlineCluster) -> (url: String)
        ensures
            url@ == controllers::http_endpoint(
                cluster.deep_view(),
                objects::namespace_of(topic.deep_view().metadata),
            ) + "/api/v1/topics/"@ + topic.metadata.name@,
    {
        let namespace = topic.metadata.namespace_or_default();
        controllers::broker_http_endpoint(cluster, namespace.as_str()).concat(
            "/api/v1/topics/",
        ).concat(topic.metadata.name.as_str())
    }

    /// Build the status that a report amounts to.
    pub fn status_of(topic: &StreamlineTopic, report: &TopicReport) -> (status: TopicStatus)
        ensures
            exists|now: Seq<char>|
                clock::is_stamp(now) && status.deep_view() == #[trigger] report_status(
                    topic.deep_view(),
                    report.deep_view(),
                    now,
                ),
    {
        let now = clock::now_rfc3339();
        Self::status_of_at(topic, report, now.as_str())
    }

    /// Build the status that a report amounts to at `now`.
    pub fn status_of_at(topic: &StreamlineTopic, report: &TopicReport, now: &str) -> (status:
        TopicStatus)
        ensures
            status.deep_view() == report_status(topic.deep_view(), report.deep_view(), now@),
    {
        match report {
            TopicReport::Unsupported(message) => Self::unsupported_status_at(
                topic,
                message.as_str(),
                now,
            ),
            TopicReport::Pending(message) => Self::pending_status_at(topic, message.as_str(), now),
            TopicReport::Failed(message) => Self::error_status_at(topic, message.as_str(), now),
            TopicReport::Accepted(state, verified) => Self::ready_status_at(
                topic,
                *state,
                *verified,
                now,
            ),
        }
    }

    /// Build the status published for a spec the server cannot honour.
    pub fn unsupported_status(topic: &StreamlineTopic, message: &str) -> (status: TopicStatus)
        ensures
            exists|now: Seq<char>|
                clock::is_stamp(now) && status.deep_view() == #[trigger] report_status(
                    topic.deep_view(),
                    TopicReportView::Unsupported(message@),
                    now,
                ),
    {
        let now = clock::now_rfc3339();
        Self::unsupported_status_at(topic, message, now.as_str())
    }

    /// Build the status published at `now` for a spec the server cannot honour.
    pub fn unsupported_status_at(topic: &StreamlineTopic, message: &str, now: &str) -> (status:
        TopicStatus)
        ensures
            status.deep_view() == report_status(
                topic.deep_view(),
                TopicReportView::Unsupported(message@),
                now@,
            ),
    {
        let news = vec![
            condition_at(
                TOPIC_CONDITION_READY,
                CONDITION_FALSE,
                "UnsupportedConfiguration",
                message,
                now,
            ),
            condition_at(
                TOPIC_CONDITION_SYNCED,
                CONDITION_FALSE,
                "UnsupportedConfiguration",
                NOT_CREATED,
                now,
            ),
        ];
        let ghost report = TopicReportView::Unsupported(message@);
        assert(news.deep_view() =~= report_conditions(report, now@));
        let status = TopicStatus {
            ready: false,
            phase: TopicPhase::Failed,
            partitions: 0,
            replication_factor: 0,
            partition_assignments: Vec::new(),
            conditions: Self::build_conditions(topic, &news),
            observed_generation: topic.metadata.generation,
            last_updated: None,
            error_message: Some(message.to_owned()),
        };
        assert(status.partition_assignments.deep_view() =~= Seq::empty());
        assert(status.deep_view() =~= report_body(topic.deep_view(), report, now@));
        Self::with_stable_timestamp_at(topic, status, now)
    }

    /// Build the status published for a topic the server accepted.
    ///
    /// `verified` is false when the server accepted the request but reported no
    /// configuration to compare against; the Synced condition then says
    /// `Unknown` rather than claiming the topic matches the spec.
    pub fn ready_status(topic: &StreamlineTopic, state: TopicServerState, verified: bool) -> (status:
        TopicStatus)
        ensures
            exists|now: Seq<char>|
                clock::is_stamp(now) && status.deep_view() == #[trigger] report_status(
                    topic.deep_view(),
                    TopicReportView::Accepted(state, verified),
                    now,
                ),
    {
        let now = clock::now_rfc3339();
        Self::ready_status_at(topic, state, verified, now.as_str())
    }

    /// Build the status published at `now` for a topic the server accepted.
    pub fn ready_status_at(
        topic: &StreamlineTopic,
        state: TopicServerState,
        verified: bool,
        now: &str,
    ) -> (status: TopicStatus)
        ensures
            status.deep_view() == report_status(
                topic.deep_view(),
                TopicReportView::Accepted(state, verified),
                now@,
            ),
    {
        let synced = if verified {
            condition_at(
                TOPIC_CONDITION_SYNCED,
                CONDITION_TRUE,
                "ConfigSynced",
                SYNCED_MESSAGE,
                now,
            )
        } else {
            condition_at(
                TOPIC_CONDITION_SYNCED,
                CONDITION_UNKNOWN,
                "ServerDidNotReportConfiguration",
                UNVERIFIED_MESSAGE,
                now,
            )
        };
        let news = vec![
            condition_at(
                TOPIC_CONDITION_READY,
                CONDITION_TRUE,
                "TopicReady",
                "Topic successfully created/updated",
                now,
            ),
            synced,
        ];
        let ghost report = TopicReportView::Accepted(state, verified);
        assert(news.deep_view() =~= report_conditions(report, now@));
        let status = TopicStatus {
            ready: true,
            phase: TopicPhase::Ready,
            // Report what the server said, not what was asked for.
            partitions: match state.partitions {
                Some(partitions) => partitions,
                None => 0,
            },
            replication_factor: match state.replication_factor {
                Some(factor) => factor,
                None => 0,
            },
            partition_assignments: Vec::new(),
            conditions: Self::build_conditions(topic, &news),
            observed_generation: topic.metadata.generation,
            last_updated: None,
            error_message: None,
        };
        assert(status.partition_assignments.deep_view() =~= Seq::empty());
        assert(status.deep_view() =~= report_body(topic.deep_view(), report, now@));
        Self::with_stable_timestamp_at(topic, status, now)
    }

    /// Build the status published while waiting for the referenced cluster.
    pub fn pending_status(topic: &StreamlineTopic, message: &str) -> (status: TopicStatus)
        ensures
            exists|now: Seq<char>|
                clock::is_stamp(now) && status.deep_view() == #[trigger] report_status(
                    topic.deep_view(),
                    TopicReportView::Pending(message@),
                    now,
                ),
    {
        let now = clock::now_rfc3339();
        Self::pending_status_at(topic, message, now.as_str())
    }

    /// Build the status published at `now` while waiting for the referenced cluster.
    pub fn pending_status_at(topic: &StreamlineTopic, message: &str, now: &str) -> (status:
        TopicStatus)
        ensures
            status.deep_view() == report_status(
                topic.deep_view(),
                TopicReportView::Pending(message@),
                now@,
            ),
    {
        let news = vec![
            condition_at(TOPIC_CONDITION_READY, CONDITION_FALSE, "Pending", message, now),
            condition_at(
                TOPIC_CONDITION_SYNCED,
                CONDITION_FALSE,
                "WaitingForCluster",
                WAITING_MESSAGE,
                now,
            ),
        ];
        let ghost report = TopicReportView::Pending(message@);
        assert(news.deep_view() =~= report_conditions(report, now@));
        let status = TopicStatus {
            ready: false,
            phase: TopicPhase::Pending,
            partitions: 0,
            replication_factor: 0,
            partition_assignments: Vec::new(),
            conditions: Self::build_conditions(topic, &news),
            observed_generation: topic.metadata.generation,
            last_updated: None,
            error_message: None,
        };
        assert(status.partition_assignments.deep_view() =~= Seq::empty());
        assert(status.deep_view() =~= report_body(topic.deep_view(), report, now@));
        Self::with_stable_timestamp_at(topic, status, now)
    }

    /// Build the status published when reconciliation failed or drifted.
    pub fn error_status(topic: &StreamlineTopic, error_message: &str) -> (status: TopicStatus)
        ensures
            exists|now: Seq<char>|
                clock::is_stamp(now) && status.deep_view() == #[trigger] report_status(
                    topic.deep_view(),
                    TopicReportView::Failed(error_message@),
                    now,
                ),
    {
        let now = clock::now_rfc3339();
        Self::error_status_at(topic, error_message, now.as_str())
    }

    /// Build the status published at `now` when reconciliation failed or drifted.
    pub fn error_status_at(topic: &StreamlineTopic, error_message: &str, now: &str) -> (status:
        TopicStatus)
        ensures
            status.deep_view() == report_status(
                topic.deep_view(),
                TopicReportView::Failed(error_message@),
                now@,
            ),
    {
        let news = vec![
            condition_at(TOPIC_CONDITION_READY, CONDITION_FALSE, "Error", error_message, now),
            condition_at(TOPIC_CONDITION_SYNCED, CONDITION_FALSE, "SyncFailed", error_message, now),
        ];
        let ghost report = TopicReportView::Failed(error_message@);
        assert(news.deep_view() =~= report_conditions(report, now@));
        let status = TopicStatus {
            ready: false,
            phase: TopicPhase::Failed,
            partitions: 0,
            replication_factor: 0,
            partition_assignments: Vec::new(),
            conditions: Self::build_conditions(topic, &news),
            observed_generation: topic.metadata.generation,
            last_updated: None,
            error_message: Some(error_message.to_owned()),
        };
        assert(status.partition_assignments.deep_view() =~= Seq::empty());
        assert(status.deep_view() =~= report_body(topic.deep_view(), report, now@));
        Self::with_stable_timestamp_at(topic, status, now)
    }

    /// Stamp `lastUpdated` only when the rest of the status actually changed.
    pub fn with_stable_timestamp(topic: &StreamlineTopic, status: TopicStatus) -> (stamped: TopicStatus)
        ensures
            exists|now: Seq<char>|
                clock::is_stamp(now) && stamped.deep_view() == #[trigger] stabilized(
                    topic.deep_view().status,
                    status.deep_view(),
                    now,
                ),
    {
        let now = clock::now_rfc3339();
        Self::with_stable_timestamp_at(topic, status, now.as_str())
    }

    /// Stamp `lastUpdated` with `now` if the rest of the status changed.
    pub fn with_stable_timestamp_at(topic: &StreamlineTopic, status: TopicStatus, now: &str) -> (stamped:
        TopicStatus)
        ensures
            stamped.deep_view() == stabilized(topic.deep_view().status, status.deep_view(), now@),
    {
        let mut stamped = status;
        match &topic.status {
            Some(current) => {
                let mut comparable = current.clone();
                comparable.last_updated = None;
                assert(comparable.deep_view() =~= (TopicStatusView {
                    last_updated: None,
                    ..current.deep_view()
                }));
                if statuses_eq(&comparable, &stamped) {
                    stamped.last_updated = current.last_updated.clone();
                } else {
                    stamped.last_updated = Some(now.to_owned());
                }
            },
            None => {
                stamped.last_updated = Some(now.to_owned());
            },
        }
        stamped
    }

    /// Whether publishing `status` would change what the topic has published.
    pub fn status_changed(topic: &StreamlineTopic, status: &TopicStatus) -> (changed: bool)
        ensures
            changed == (topic.deep_view().status != Some(status.deep_view())),
    {
        match &topic.status {
            Some(current) => !statuses_eq(current, status),
            None => true,
        }
    }

    fn build_conditions(topic: &StreamlineTopic, news: &Vec<ConditionFields>) -> (published: Vec<
        TopicCondition,
    >)
        ensures
            published.deep_view() == conditions::with_conditions(
                published_conditions(topic.deep_view().status),
                news.deep_view(),
            ),
    {
        let mut fields = Self::seeded_conditions(topic);
        set_conditions(&mut fields, news);
        into_topic_conditions(fields)
    }

    /// Seed the condition helper from the conditions already published.
    pub fn seeded_conditions(topic: &StreamlineTopic) -> (fields: Vec<ConditionFields>)
        ensures
            fields.deep_view() == published_conditions(topic.deep_view().status),
    {
        let mut fields: Vec<ConditionFields> = Vec::new();
        match &topic.status {
            Some(status) => {
                let ghost all = status.conditions.deep_view();
                let mut i: usize = 0;
                assert(fields.deep_view() =~= all.subrange(0, 0));
                while i < status.conditions.len()
                    invariant
                        i <= status.conditions.len(),
                        all == status.conditions.deep_view(),
                        fields.deep_view() == all.subrange(0, i as int),
                    decreases status.conditions.len() - i,
                {
                    let condition = &status.conditions[i];
                    let ghost before = fields.deep_view();
                    fields.push(
                        ConditionFields {
                            condition_type: condition.type_.clone(),
                            status: condition.status.clone(),
                            last_transition_time: condition.last_transition_time.clone(),
                            reason: condition.reason.clone(),
                            message: condition.message.clone(),
                        },
                    );
                    assert(fields.deep_view() =~= before.push(all[i as int]));
                    assert(before.push(all[i as int]) =~= all.subrange(0, i + 1));
                    i = i + 1;
                }
                assert(all.subrange(0, all.len() as int) =~= all);
            },
            None => {
                assert(fields.deep_view() =~= Seq::empty());
            },
        }
        fields
    }
}

fn into_topic_conditions(fields: Vec<ConditionFields>) -> (published: Vec<TopicCondition>)
    ensures
        published.deep_view() == fields.deep_view(),
{
    let ghost all = fields.deep_view();
    let mut published: Vec<TopicCondition> = Vec::new();
    let mut i: usize = 0;
    assert(published.deep_view() =~= all.subrange(0, 0));
    while i < fields.len()
        invariant
            i <= fields.len(),
            all == fields.deep_view(),
            published.deep_view() == all.subrange(0, i as int),
        decreases fields.len() - i,
    {
        let ghost before = published.deep_view();
        published.push(fields[i].clone().into_topic_condition());
        assert(published.deep_view() =~= before.push(all[i as int]));
        assert(before.push(all[i as int]) =~= all.subrange(0, i + 1));
        i = i + 1;
    }
    assert(all.subrange(0, all.len() as int) =~= all);
    published
}

fn topic_conditions_eq(left: &Vec<TopicCondition>, right: &Vec<TopicCondition>) -> (same: bool)
    ensures
        same == (left.deep_view() == right.deep_view()),
{
    if left.len() != right.len() {
        assert(left.deep_view().len() != right.deep_view().len());
        return false;
    }
    let mut i: usize = 0;
    while i < left.len()
        invariant
            i <= left.len(),
            left.len() == right.len(),
            forall|j: int| 0 <= j < i ==> left.deep_view()[j] == right.deep_view()[j],
        decreases left.len() - i,
    {
        let a = &left[i];
        let b = &right[i];
        if !(text::text_eq(a.type_.as_str(), b.type_.as_str()) && text::text_eq(
            a.status.as_str(),
            b.status.as_str(),
        ) && text::optional_text_eq(&a.last_transition_time, &b.last_transition_time)
            && text::optional_text_eq(&a.reason, &b.reason) && text::optional_text_eq(
            &a.message,
            &b.message,
        )) {
            assert(left.deep_view()[i as int] != right.deep_view()[i as int]);
            return false;
        }
        assert(left.deep_view()[i as int] == right.deep_view()[i as int]);
        i = i + 1;
    }
    assert(left.deep_view() =~= right.deep_view());
    true
}

fn numbers_eq(left: &Vec<i32>, right: &Vec<i32>) -> (same: bool)
    ensures
        same == (left.deep_view() == right.deep_view()),
{
    if left.len() != right.len() {
        assert(left.deep_view().len() != right.deep_view().len());
        return false;
    }
    let mut i: usize = 0;
    while i < left.len()
        invariant
            i <= left.len(),
            left.len() == right.len(),
            forall|j: int| 0 <= j < i ==> left.deep_view()[j] == right.deep_view()[j],
        decreases left.len() - i,
    {
        if left[i] != right[i] {
            assert(left.deep_view()[i as int] != right.deep_view()[i as int]);
            return false;
        }
        i = i + 1;
    }
    assert(left.deep_view() =~= right.deep_view());
    true
}

fn assignments_eq(left: &Vec<PartitionAssignment>, right: &Vec<PartitionAssignment>) -> (same: bool)
    ensures
        same == (left.deep_view() == right.deep_view()),
{
    if left.len() != right.len() {
        assert(left.deep_view().len() != right.deep_view().len());
        return false;
    }
    let mut i: usize = 0;
    while i < left.len()
        invariant
            i <= left.len(),
            left.len() == right.len(),
            forall|j: int| 0 <= j < i ==> left.deep_view()[j] == right.deep_view()[j],
        decreases left.len() - i,
    {
        let a = &left[i];
        let b = &right[i];
        if !(a.partition == b.partition && a.leader == b.leader && numbers_eq(
            &a.replicas,
            &b.replicas,
        ) && numbers_eq(&a.isr, &b.isr)) {
            assert(left.deep_view()[i as int] != right.deep_view()[i as int]);
            return false;
        }
        assert(left.deep_view()[i as int] == right.deep_view()[i as int]);
        i = i + 1;
    }
    assert(left.deep_view() =~= right.deep_view());
    true
}

/// Whether two statuses say the same.
pub fn statuses_eq(left: &TopicStatus, right: &TopicStatus) -> (same: bool)
    ensures
        same == (left.deep_view() == right.deep_view()),
{
    left.ready == right.ready && left.phase == right.phase && left.partitions == right.partitions
        && left.replication_factor == right.replication_factor && assignments_eq(
        &left.partition_assignments,
        &right.partition_assignments,
    ) && topic_conditions_eq(&left.conditions, &right.conditions) && left.observed_generation
        == right.observed_generation && text::optional_text_eq(
        &left.last_updated,
        &right.last_updated,
    ) && text::optional_text_eq(&left.error_message, &right.error_message)
}

// ---------------------------------------------------------------------------
// Laws
// ---------------------------------------------------------------------------

/// A spec is accepted exactly when it asks only for what the server does: a partition count,
/// one replica, and every other setting at its default.
pub proof fn law_only_supported_settings_are_accepted(spec: TopicSpecView)
    ensures
        rejections(spec).len() == 0 <==> supported(spec),
{
    assert(custom_rejections(spec.config.custom).len() == spec.config.custom.len()) by {
        lemma_custom_rejections(spec.config.custom);
    }
    if rejections(spec).len() == 0 {
        assert(spec.retention =~= topic::default_retention());
        assert(spec.compression =~= topic::default_compression());
        assert(spec.config.custom =~= Seq::empty());
        assert(spec.config =~= topic::no_overrides());
    }
}

pub proof fn lemma_custom_rejections(custom: Seq<KeyValueView>)
    ensures
        custom_rejections(custom).len() == custom.len(),
        forall|i: int|
            0 <= i < custom.len() ==> #[trigger] custom_rejections(custom)[i] == rejection(
                "config.custom["@ + custom[i].key + "]"@,
                "set"@,
                "unset"@,
            ),
    decreases custom.len(),
{
    if custom.len() > 0 {
        let front = custom.drop_last();
        lemma_custom_rejections(front);
        assert forall|i: int| 0 <= i < front.len() implies #[trigger] custom_rejections(custom)[i]
            == rejection("config.custom["@ + custom[i].key + "]"@, "set"@, "unset"@) by {
            assert(custom_rejections(custom)[i] == custom_rejections(front)[i]);
            assert(front[i] == custom[i]);
        }
    }
}

/// Each custom setting of a well-formed configuration is rejected once, by its key, and the
/// rejections come in the order of the keys.
pub proof fn law_custom_settings_are_rejected_in_key_order(config: TopicConfigView, i: int, j: int)
    requires
        topic::well_formed(config),
        0 <= i < j < config.custom.len(),
    ensures
        custom_rejections(config.custom).len() == config.custom.len(),
        custom_rejections(config.custom)[i] == rejection(
            "config.custom["@ + config.custom[i].key + "]"@,
            "set"@,
            "unset"@,
        ),
        custom_rejections(config.custom)[j] == rejection(
            "config.custom["@ + config.custom[j].key + "]"@,
            "set"@,
            "unset"@,
        ),
        text::precedes(config.custom[i].key, config.custom[j].key),
        config.custom[i].key != config.custom[j].key,
{
    lemma_custom_rejections(config.custom);
    objects::law_keys_in_order_are_distinct(config.custom, i, j);
}

/// A manifest that names only its cluster is accepted, and so is one that restates every
/// default.
pub proof fn law_the_default_topic_is_accepted(cluster_ref: Seq<char>)
    ensures
        rejections(topic::minimal_topic(cluster_ref)).len() == 0,
{
    law_only_supported_settings_are_accepted(topic::minimal_topic(cluster_ref));
}

/// The rejection of the retention that v0.3.0 persisted.
pub open spec fn legacy_retention_rejection() -> Seq<char> {
    rejection(
        "retention.retentionMs"@,
        text::decimal(upgrade::LEGACY_TOPIC_RETENTION_MS as int),
        text::decimal(-1),
    )
}

/// The rejection of the in-sync replica count that v0.3.0 persisted.
pub open spec fn legacy_insync_rejection() -> Seq<char> {
    rejection(
        "config.minInsyncReplicas"@,
        text::decimal(upgrade::LEGACY_TOPIC_MIN_INSYNC_REPLICAS as int),
        "unset"@,
    )
}

/// The rejection of the message size that v0.3.0 persisted.
pub open spec fn legacy_message_rejection() -> Seq<char> {
    rejection(
        "config.maxMessageBytes"@,
        text::decimal(upgrade::LEGACY_TOPIC_MAX_MESSAGE_BYTES as int),
        "unset"@,
    )
}

proof fn lemma_rejection_names_the_release(
    field: Seq<char>,
    requested: Seq<char>,
    default: Seq<char>,
)
    requires
        text::occurs(upgrade::remedy_for_value("spec."@ + field, requested), "v0.3.0"@),
    ensures
        text::occurs(rejection(field, requested, default), "v0.3.0"@),
{
    text::lemma_occurs_in_end(
        field + "="@ + requested + SETTING_UNSUPPORTED@ + default + ")."@,
        upgrade::remedy_for_value("spec."@ + field, requested),
        "v0.3.0"@,
    );
}

proof fn lemma_legacy_rejections_name_the_release()
    ensures
        text::occurs(legacy_retention_rejection(), "v0.3.0"@),
        text::occurs(legacy_insync_rejection(), "v0.3.0"@),
        text::occurs(legacy_message_rejection(), "v0.3.0"@),
{
    reveal_strlit("spec.");
    reveal_strlit("retention.retentionMs");
    reveal_strlit("spec.retention.retentionMs");
    reveal_strlit("config.minInsyncReplicas");
    reveal_strlit("spec.config.minInsyncReplicas");
    reveal_strlit("config.maxMessageBytes");
    reveal_strlit("spec.config.maxMessageBytes");
    assert("spec."@ + "retention.retentionMs"@ =~= "spec.retention.retentionMs"@);
    assert("spec."@ + "config.minInsyncReplicas"@ =~= "spec.config.minInsyncReplicas"@);
    assert("spec."@ + "config.maxMessageBytes"@ =~= "spec.config.maxMessageBytes"@);
    upgrade::law_the_table_spells_the_values();
    upgrade::law_legacy_values_are_blamed_on_the_upgrade(3);
    upgrade::law_legacy_values_are_blamed_on_the_upgrade(4);
    upgrade::law_legacy_values_are_blamed_on_the_upgrade(5);
    lemma_rejection_names_the_release(
        "retention.retentionMs"@,
        text::decimal(upgrade::LEGACY_TOPIC_RETENTION_MS as int),
        text::decimal(-1),
    );
    lemma_rejection_names_the_release(
        "config.minInsyncReplicas"@,
        text::decimal(upgrade::LEGACY_TOPIC_MIN_INSYNC_REPLICAS as int),
        "unset"@,
    );
    lemma_rejection_names_the_release(
        "config.maxMessageBytes"@,
        text::decimal(upgrade::LEGACY_TOPIC_MAX_MESSAGE_BYTES as int),
        "unset"@,
    );
}

/// The topic settings that v0.3.0 persisted are rejected, and each rejection names v0.3.0.
pub proof fn law_legacy_topic_defaults_are_rejected(spec: TopicSpecView)
    ensures
        spec.replication_factor == upgrade::LEGACY_TOPIC_REPLICATION_FACTOR ==> rejections(
            spec,
        ).len() > 0 && text::occurs(
            rejections(spec)[0],
            upgrade::remedy_for("spec.replicationFactor"@, true),
        ) && text::occurs(rejections(spec)[0], "v0.3.0"@),
        spec.retention.retention_ms == upgrade::LEGACY_TOPIC_RETENTION_MS ==> rejections(
            spec,
        ).contains(legacy_retention_rejection()),
        spec.config.min_insync_replicas == Some(upgrade::LEGACY_TOPIC_MIN_INSYNC_REPLICAS)
            ==> rejections(spec).contains(legacy_insync_rejection()),
        spec.config.max_message_bytes == Some(upgrade::LEGACY_TOPIC_MAX_MESSAGE_BYTES)
            ==> rejections(spec).contains(legacy_message_rejection()),
        text::occurs(legacy_retention_rejection(), "v0.3.0"@),
        text::occurs(legacy_insync_rejection(), "v0.3.0"@),
        text::occurs(legacy_message_rejection(), "v0.3.0"@),
{
    lemma_legacy_rejections_name_the_release();
    upgrade::law_legacy_values_are_blamed_on_the_upgrade(2);
    let shape = shape_rejections(spec);
    let retention = retention_rejections(spec);
    let config = config_rejections(spec);
    if spec.replication_factor == upgrade::LEGACY_TOPIC_REPLICATION_FACTOR {
        let front = "replicationFactor="@ + text::decimal(spec.replication_factor as int)
            + REPLICATION_UNSUPPORTED@;
        let remedy = upgrade::remedy_for("spec.replicationFactor"@, true);
        text::lemma_end_occurs(front, remedy);
        text::lemma_occurs_in_end(front, remedy, "v0.3.0"@);
        assert(rejections(spec)[0] == shape[0]);
    }
    if spec.retention.retention_ms == upgrade::LEGACY_TOPIC_RETENTION_MS {
        assert(rejections(spec)[shape.len() as int] == retention[0]);
    }
    let at = shape.len() + retention.len();
    if spec.config.min_insync_replicas == Some(upgrade::LEGACY_TOPIC_MIN_INSYNC_REPLICAS) {
        assert(rejections(spec)[at as int] == config[0]);
    }
    if spec.config.max_message_bytes == Some(upgrade::LEGACY_TOPIC_MAX_MESSAGE_BYTES) {
        let skipped = reject_override(
            "config.minInsyncReplicas"@,
            wide32(spec.config.min_insync_replicas),
        ).len();
        assert(config[skipped as int] == rejection(
            "config.maxMessageBytes"@,
            text::decimal(upgrade::LEGACY_TOPIC_MAX_MESSAGE_BYTES as int),
            "unset"@,
        ));
        assert(rejections(spec)[(at + skipped) as int] == config[skipped as int]);
    }
}

/// A topic is in sync only if the server reported both numbers and both match. A number that
/// differs is drift, whatever else was reported; anything less is unverified.
pub proof fn law_sync_is_never_assumed(spec: TopicSpecView, state: TopicServerState)
    ensures
        sync_outcome(spec, state) == SyncOutcomeView::InSync(state) <==> state.partitions == Some(
            spec.partitions,
        ) && state.replication_factor == Some(spec.replication_factor),
        sync_outcome(spec, state) is Drift <==> (state.partitions is Some && state.partitions->0
            != spec.partitions) || (state.replication_factor is Some
            && state.replication_factor->0 != spec.replication_factor),
        sync_outcome(spec, silent_state()) == SyncOutcomeView::Unverified,
{
}

/// Rebuilding the status of an unchanged topic from the status it published gives the same
/// status back, time stamps included, whatever is reported.
pub proof fn law_topic_status_is_stable(
    topic: StreamlineTopicView,
    report: TopicReportView,
    first: Seq<char>,
    later: Seq<char>,
)
    ensures
        ({
            let published = report_status(topic, report, first);
            report_status(
                StreamlineTopicView { status: Some(published), ..topic },
                report,
                later,
            ) == published
        }),
{
    let published = report_status(topic, report, first);
    let seed = published_conditions(topic.status);
    let news = report_conditions(report, first);
    let again = report_conditions(report, later);
    reveal_strlit("Ready");
    reveal_strlit("Synced");
    assert(TOPIC_CONDITION_READY@.len() == 5);
    assert(TOPIC_CONDITION_SYNCED@.len() == 6);
    conditions::law_recorded_conditions_are_stable(seed, news, again);
    let next = StreamlineTopicView { status: Some(published), ..topic };
    assert(report_status(next, report, later) =~= published);
}

/// A status that differs from the published one in its time stamp alone is no change.
pub proof fn law_the_timestamp_alone_is_no_change(
    published: TopicStatusView,
    status: TopicStatusView,
    now: Seq<char>,
)
    requires
        status.last_updated is None,
    ensures
        (TopicStatusView { last_updated: None, ..published }) == status ==> stabilized(
            Some(published),
            status,
            now,
        ) == published,
        (TopicStatusView { last_updated: None, ..published }) != status ==> stabilized(
            Some(published),
            status,
            now,
        ).last_updated == Some(now),
        stabilized(None, status, now).last_updated == Some(now),
{
    if (TopicStatusView { last_updated: None, ..published }) == status {
        assert(stabilized(Some(published), status, now) =~= published);
    }
}

/// The Synced condition is true only for a report that the server confirmed, and a report that
/// it did not confirm says so, whatever the status said before.
pub proof fn law_synced_means_confirmed(
    topic: StreamlineTopicView,
    report: TopicReportView,
    now: Seq<char>,
)
    ensures
        ({
            let all = report_status(topic, report, now).conditions;
            let at = conditions::position(all, TOPIC_CONDITION_SYNCED@);
            &&& 0 <= at < all.len()
            &&& all[at].status == CONDITION_TRUE@ <==> (report matches TopicReportView::Accepted(
                _,
                verified,
            ) && verified)
            &&& all[at].status == CONDITION_UNKNOWN@ <==> (report matches TopicReportView::Accepted(
                _,
                verified,
            ) && !verified)
        }),
{
    reveal_strlit("True");
    reveal_strlit("False");
    reveal_strlit("Unknown");
    assert(CONDITION_TRUE@.len() == 4);
    assert(CONDITION_FALSE@.len() == 5);
    assert(CONDITION_UNKNOWN@.len() == 7);
    let seed = published_conditions(topic.status);
    let news = report_conditions(report, now);
    let all = report_status(topic, report, now).conditions;
    assert(all == conditions::with_conditions(seed, news));
    let before = conditions::with_conditions(seed, news.drop_last());
    let last = news.last();
    conditions::law_transition_time_follows_the_status(before, last);
    conditions::lemma_position(before, last.condition_type);
    let at = conditions::position(before, last.condition_type);
    assert(all == conditions::with_condition(before, last));
    assert forall|j: int| 0 <= j < at implies (#[trigger] all[j]).condition_type
        != last.condition_type by {
        assert(all[j] == before[j]);
    }
    conditions::lemma_position_is(all, TOPIC_CONDITION_SYNCED@, at);
}

/// Whatever a topic published before, its status says what is reported: the first condition of
/// each type is the one that the report amounts to.
pub proof fn law_the_status_says_what_is_reported(
    topic: StreamlineTopicView,
    report: TopicReportView,
    now: Seq<char>,
    i: int,
)
    requires
        0 <= i < 2,
    ensures
        conditions::settled(
            report_status(topic, report, now).conditions,
            report_conditions(report, now)[i],
        ),
{
    let seed = published_conditions(topic.status);
    let news = report_conditions(report, now);
    reveal_strlit("Ready");
    reveal_strlit("Synced");
    assert(TOPIC_CONDITION_READY@.len() == 5);
    assert(TOPIC_CONDITION_SYNCED@.len() == 6);
    conditions::law_recorded_statements_hold(seed, news);
    assert(conditions::settled(conditions::with_conditions(seed, news), news[i]));
}

/// A topic that the server accepted is published with the numbers that the server reported, and
/// zero for a number that it did not; one that was not accepted is not ready and claims none.
pub proof fn law_only_reported_numbers_are_published(
    topic: StreamlineTopicView,
    report: TopicReportView,
    now: Seq<char>,
)
    ensures
        ({
            let status = report_status(topic, report, now);
            match report {
                TopicReportView::Accepted(state, _) => status.ready && status.partitions
                    == or_zero(state.partitions) && status.replication_factor == or_zero(
                    state.replication_factor,
                ),
                _ => !status.ready && status.partitions == 0 && status.replication_factor == 0,
            }
        }),
{
}

/// A refused spec never reaches the server: the reconcile ends before the cluster is looked up.
pub proof fn law_refused_topics_are_never_created(topic: StreamlineTopicView)
    requires
        !supported(topic.spec),
        !topic.metadata.deleting,
    ensures
        first_decision(topic) == TopicDecisionView::Finish(
            TopicReportView::Unsupported(text::joined(rejections(topic.spec), "; "@)),
            NextReconcile::After(300),
            ReconcileVerdict::Error,
        ),
{
    law_only_supported_settings_are_accepted(topic.spec);
}

/// How many requests a reconcile can still make after a decision.
pub open spec fn requests_left(decision: TopicDecisionView) -> nat {
    match decision {
        TopicDecisionView::LookUpCluster => 3,
        TopicDecisionView::Create(_, _, _) => 2,
        TopicDecisionView::ReadBack(_) => 1,
        _ => 0,
    }
}

/// Every reconcile ends: whatever comes back from a request, the next decision leaves fewer
/// requests to make than the one before it.
pub proof fn law_every_reconcile_ends(
    topic: StreamlineTopicView,
    looked_up: Option<StreamlineClusterView>,
    cluster: StreamlineClusterView,
    reply: ServerReplyView,
    state: TopicServerState,
    failure: Seq<char>,
)
    ensures
        requests_left(first_decision(topic)) <= 3,
        requests_left(decision_on_cluster(topic, looked_up)) < 3,
        requests_left(
            decision_on_reply(topic, cluster, reply.code, reply.status, reply.body, state),
        ) < 2,
        requests_left(failed_request(failure)) == 0,
        requests_left(accepted_request(topic, state)) == 0,
{
}

} // verus!
