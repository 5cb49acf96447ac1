//! Memory controller.
//!
//! Decides how the memory topics of an agent are provisioned: one for each of the episodic, the
//! semantic and the procedural tier. When a StreamlineMemory is deleted, so are its topics.

use crate::clock;
use crate::conditions;
use crate::conditions::{
    condition_at, ConditionFields, ConditionView, CONDITION_FALSE, CONDITION_TRUE, MEMORY_FINALIZER,
};
use crate::controllers;
use crate::controllers::topic::{ServerReply, ServerReplyView};
use crate::controllers::{NextReconcile, ReconcileVerdict};
use crate::crd::memory::MemoryStatusView;
use crate::crd::{
    MemoryCondition, MemoryPhase, MemoryStatus, MemoryTiers, StreamlineCluster,
    StreamlineClusterView, StreamlineMemory, StreamlineMemoryView,
};
use crate::error;
use crate::error::{OperatorError, OperatorErrorView};
use crate::objects;
use crate::text;
use vstd::prelude::*;
use vstd::string::*;

verus! {

/// The memory controller.
#[derive(Clone, Copy, Debug)]
pub struct MemoryController;

// Memory-specific condition types
pub const MEMORY_CONDITION_READY: &'static str = "Ready";
pub const MEMORY_CONDITION_TOPICS_PROVISIONED: &'static str = "TopicsProvisioned";

/// Memory tier topic suffixes
pub const MEMORY_TIERS: [&'static str; 3] = ["episodic", "semantic", "procedural"];

/// Milliseconds in a day.
pub const DAY_MS: i64 = 86_400_000;

/// The request that creates a memory topic.
#[derive(Debug, PartialEq, Eq)]
pub struct MemoryTopicRequest {
    pub name: String,
    pub partitions: i32,
    pub replication_factor: i32,
    /// `cleanup.policy`
    pub cleanup_policy: String,
    /// `retention.ms`, unless the topic is kept without limit
    pub retention_ms: Option<String>,
}

/// What a [`MemoryTopicRequest`] holds, over characters and sequences.
#[verifier::ext_equal]
pub struct MemoryTopicRequestView {
    pub name: Seq<char>,
    pub partitions: i32,
    pub replication_factor: i32,
    pub cleanup_policy: Seq<char>,
    pub retention_ms: Option<Seq<char>>,
}

impl DeepView for MemoryTopicRequest {
    type V = MemoryTopicRequestView;

    open spec fn deep_view(&self) -> MemoryTopicRequestView {
        MemoryTopicRequestView {
            name: self.name@,
            partitions: self.partitions,
            replication_factor: self.replication_factor,
            cleanup_policy: self.cleanup_policy@,
            retention_ms: self.retention_ms.deep_view(),
        }
    }
}

/// Which status a reconcile publishes.
#[derive(Debug, PartialEq, Eq)]
pub enum MemoryReport {
    /// All topics are there
    Ready,
    /// The memory waits for its cluster
    Pending(String),
    /// The reconcile failed
    Failed(String),
}

/// What [`MemoryReport`] says, over characters and sequences.
#[verifier::ext_equal]
pub enum MemoryReportView {
    Ready,
    Pending(Seq<char>),
    Failed(Seq<char>),
}

impl DeepView for MemoryReport {
    type V = MemoryReportView;

    open spec fn deep_view(&self) -> MemoryReportView {
        match self {
            MemoryReport::Ready => MemoryReportView::Ready,
            MemoryReport::Pending(v0) => MemoryReportView::Pending(v0@),
            MemoryReport::Failed(v0) => MemoryReportView::Failed(v0@),
        }
    }
}

/// What a reconcile does next.
#[derive(Debug, PartialEq, Eq)]
pub enum MemoryDecision {
    /// Delete the topics from the server, if its cluster is there, and release the resource
    CleanUp,
    /// Read the referenced cluster
    LookUpCluster,
    /// Ask the server at this address for the topic of the tier with this number
    CreateTopic(usize, String, MemoryTopicRequest),
    /// Publish a status and end the reconcile
    Finish(MemoryReport, NextReconcile, ReconcileVerdict),
}

/// What [`MemoryDecision`] says, over characters and sequences.
#[verifier::ext_equal]
pub enum MemoryDecisionView {
    CleanUp,
    LookUpCluster,
    CreateTopic(usize, Seq<char>, MemoryTopicRequestView),
    Finish(MemoryReportView, NextReconcile, ReconcileVerdict),
}

impl DeepView for MemoryDecision {
    type V = MemoryDecisionView;

    open spec fn deep_view(&self) -> MemoryDecisionView {
        match self {
            MemoryDecision::CleanUp => MemoryDecisionView::CleanUp,
            MemoryDecision::LookUpCluster => MemoryDecisionView::LookUpCluster,
            MemoryDecision::CreateTopic(v0, v1, v2) => MemoryDecisionView::CreateTopic(*v0, v1@, v2.deep_view()),
            MemoryDecision::Finish(v0, v1, v2) => MemoryDecisionView::Finish(v0.deep_view(), *v1, *v2),
        }
    }
}

// ---------------------------------------------------------------------------
// Model
// ---------------------------------------------------------------------------

/// The API endpoint of a memory's cluster.
pub open spec fn memory_endpoint(
    memory: StreamlineMemoryView,
    cluster: StreamlineClusterView,
) -> Seq<char> {
    controllers::http_endpoint(cluster, objects::namespace_of(memory.metadata))
}

/// The name of the topic of a tier.
pub open spec fn tier_topic(memory: StreamlineMemoryView, tier: Seq<char>) -> Seq<char> {
    "_memory."@ + memory.spec.tenant + "."@ + memory.spec.agent_id + "."@ + tier
}

/// Days of retention in milliseconds; any negative number is without limit.
pub open spec fn days_in_ms(days: i64) -> int {
    if days < 0 {
        -1
    } else {
        days * DAY_MS
    }
}

/// Whether days of retention can be told in milliseconds.
pub open spec fn fits(days: i64) -> bool {
    days_in_ms(days) <= i64::MAX
}

/// Whether the retention of every tier can be told in milliseconds.
pub open spec fn tiers_fit(tiers: MemoryTiers) -> bool {
    fits(tiers.episodic_retention_days) && fits(tiers.semantic_retention_days) && fits(
        tiers.procedural_retention_days,
    )
}

/// The retention of a tier in days.
pub open spec fn tier_days(tiers: MemoryTiers, i: int) -> i64 {
    if i == 0 {
        tiers.episodic_retention_days
    } else if i == 1 {
        tiers.semantic_retention_days
    } else {
        tiers.procedural_retention_days
    }
}

/// The request that creates the topic of a tier.
pub open spec fn topic_request(memory: StreamlineMemoryView, i: int) -> MemoryTopicRequestView {
    let days = tier_days(memory.spec.tiers, i);
    MemoryTopicRequestView {
        name: tier_topic(memory, MEMORY_TIERS[i]@),
        partitions: 1,
        replication_factor: 1,
        cleanup_policy: "compact,delete"@,
        retention_ms: if days >= 0 {
            Some(text::decimal(days_in_ms(days)))
        } else {
            None
        },
    }
}

/// What a reconcile does first, once the finalizer is set.
pub open spec fn first_decision(memory: StreamlineMemoryView) -> MemoryDecisionView {
    if memory.metadata.deleting {
        MemoryDecisionView::CleanUp
    } else {
        MemoryDecisionView::LookUpCluster
    }
}

/// The request for the topic of a tier.
pub open spec fn creation(
    memory: StreamlineMemoryView,
    cluster: StreamlineClusterView,
    i: int,
) -> MemoryDecisionView {
    MemoryDecisionView::CreateTopic(
        i as usize,
        memory_endpoint(memory, cluster) + "/api/v1/topics"@,
        topic_request(memory, i),
    )
}

/// What a reconcile does once it has looked the cluster up.
pub open spec fn decision_on_cluster(
    memory: StreamlineMemoryView,
    cluster: Option<StreamlineClusterView>,
) -> MemoryDecisionView {
    match cluster {
        None => MemoryDecisionView::Finish(
            MemoryReportView::Failed("Cluster "@ + memory.spec.cluster_ref + " not found"@),
            NextReconcile::After(30),
            ReconcileVerdict::Uncounted,
        ),
        Some(cluster) => if !controllers::takes_requests(cluster) {
            MemoryDecisionView::Finish(
                MemoryReportView::Pending("Waiting for cluster to be ready"@),
                NextReconcile::After(10),
                ReconcileVerdict::Uncounted,
            )
        } else {
            creation(memory, cluster, 0)
        },
    }
}

/// The end of a reconcile whose request failed.
pub open spec fn failed_request(message: Seq<char>) -> MemoryDecisionView {
    MemoryDecisionView::Finish(
        MemoryReportView::Failed(error::error_text(OperatorErrorView::Internal(message))),
        NextReconcile::After(30),
        ReconcileVerdict::Uncounted,
    )
}

/// What a reconcile does once the server has answered the request for the topic of tier `i`. A
/// conflict means that the topic is there already.
pub open spec fn decision_on_reply(
    memory: StreamlineMemoryView,
    cluster: StreamlineClusterView,
    i: int,
    reply: ServerReplyView,
) -> MemoryDecisionView {
    if !controllers::is_accepted(reply.code) {
        failed_request(
            "Failed to create memory topic "@ + tier_topic(memory, MEMORY_TIERS[i]@) + " (HTTP "@
                + reply.status + "): "@ + reply.body,
        )
    } else if i < 2 {
        creation(memory, cluster, i + 1)
    } else {
        MemoryDecisionView::Finish(
            MemoryReportView::Ready,
            NextReconcile::After(60),
            ReconcileVerdict::Success,
        )
    }
}

/// The addresses that the topics of a memory are deleted at.
pub open spec fn deletions(memory: StreamlineMemoryView, cluster: StreamlineClusterView) -> Seq<
    Seq<char>,
> {
    Seq::new(
        3,
        |i: int|
            memory_endpoint(memory, cluster) + "/api/v1/topics/"@ + tier_topic(
                memory,
                MEMORY_TIERS[i]@,
            ),
    )
}

/// The conditions that a report amounts to: Ready, then TopicsProvisioned.
pub open spec fn report_conditions(report: MemoryReportView, now: Seq<char>) -> Seq<
    ConditionView,
> {
    match report {
        MemoryReportView::Ready => seq![
            conditions::stamped(
                MEMORY_CONDITION_READY@,
                CONDITION_TRUE@,
                "MemoryReady"@,
                "Memory topics provisioned and ready"@,
                now,
            ),
            conditions::stamped(
                MEMORY_CONDITION_TOPICS_PROVISIONED@,
                CONDITION_TRUE@,
                "AllTiersProvisioned"@,
                "Episodic, semantic, and procedural topics created"@,
                now,
            ),
        ],
        MemoryReportView::Pending(message) => seq![
            conditions::stamped(
                MEMORY_CONDITION_READY@,
                CONDITION_FALSE@,
                "Pending"@,
                message,
                now,
            ),
            conditions::stamped(
                MEMORY_CONDITION_TOPICS_PROVISIONED@,
                CONDITION_FALSE@,
                "WaitingForCluster"@,
                "Memory topics cannot be provisioned until cluster is ready"@,
                now,
            ),
        ],
        MemoryReportView::Failed(message) => seq![
            conditions::stamped(
                MEMORY_CONDITION_READY@,
                CONDITION_FALSE@,
                "Error"@,
                message,
                now,
            ),
            conditions::stamped(
                MEMORY_CONDITION_TOPICS_PROVISIONED@,
                CONDITION_FALSE@,
                "ProvisioningFailed"@,
                message,
                now,
            ),
        ],
    }
}

/// The status that a report amounts to.
pub open spec fn report_status(report: MemoryReportView, now: Seq<char>) -> MemoryStatusView {
    MemoryStatusView {
        phase: match report {
            MemoryReportView::Ready => MemoryPhase::Ready,
            MemoryReportView::Pending(_) => MemoryPhase::Pending,
            MemoryReportView::Failed(_) => MemoryPhase::Failed,
        },
        ready: report is Ready,
        episodic_event_count: 0,
        semantic_event_count: 0,
        procedural_event_count: 0,
        message: match report {
            MemoryReportView::Ready => Some("Memory topics provisioned successfully"@),
            MemoryReportView::Pending(message) => Some(message),
            MemoryReportView::Failed(message) => Some(message),
        },
        conditions: report_conditions(report, now),
    }
}

// ---------------------------------------------------------------------------
// Code
// ---------------------------------------------------------------------------

impl MemoryController {
    /// Build topic name for a memory tier
    pub fn topic_name(memory: &StreamlineMemory, tier: &str) -> (name: String)
        ensures
            name@ == tier_topic(memory.deep_view(), tier@),
    {
        "_memory.".to_owned().concat(memory.spec.tenant.as_str()).concat(".").concat(
            memory.spec.agent_id.as_str(),
        ).concat(".").concat(tier)
    }

    /// Compute retention_ms from retention_days (-1 means infinite)
    pub fn retention_ms(days: i64) -> (ms: i64)
        requires
            fits(days),
        ensures
            ms == days_in_ms(days),
    {
        if days < 0 {
            -1
        } else {
            days * DAY_MS
        }
    }

    /// Whether the retention of every tier can be told in milliseconds.
    pub fn retentions_fit(tiers: &MemoryTiers) -> (fit: bool)
        ensures
            fit == tiers_fit(*tiers),
    {
        tiers.episodic_retention_days <= 106_751_991_167 && tiers.semantic_retention_days
            <= 106_751_991_167 && tiers.procedural_retention_days <= 106_751_991_167
    }

    /// Whether the finalizer has to be set before anything else.
    pub fn needs_finalizer(memory: &StreamlineMemory) -> (needed: bool)
        ensures
            needed == (!memory.metadata.deleting
                && !memory.deep_view().metadata.finalizers.contains(MEMORY_FINALIZER@)),
    {
        !memory.metadata.deleting && !memory.metadata.has_finalizer(MEMORY_FINALIZER)
    }

    /// What a reconcile does first, once the finalizer is set.
    pub fn decide(memory: &StreamlineMemory) -> (decision: MemoryDecision)
        ensures
            decision.deep_view() == first_decision(memory.deep_view()),
    {
        if memory.metadata.deleting {
            MemoryDecision::CleanUp
        } else {
            MemoryDecision::LookUpCluster
        }
    }

    fn create(memory: &StreamlineMemory, cluster: &StreamlineCluster, i: usize) -> (decision:
        MemoryDecision)
        requires
            i < 3,
            tiers_fit(memory.spec.tiers),
        ensures
            decision.deep_view() == creation(memory.deep_view(), cluster.deep_view(), i as int),
    {
        let tiers = &memory.spec.tiers;
        let days: i64 = if i == 0 {
            tiers.episodic_retention_days
        } else if i == 1 {
            tiers.semantic_retention_days
        } else {
            tiers.procedural_retention_days
        };
        let retention: i64 = Self::retention_ms(days);
        assert(retention >= 0 <==> days >= 0) by (nonlinear_arith)
            requires
                retention == (if days < 0 {
                    -1
                } else {
                    days * 86_400_000
                }),
        ;
        let namespace = memory.metadata.namespace_or_default();
        MemoryDecision::CreateTopic(
            i,
            controllers::broker_http_endpoint(cluster, namespace.as_str()).concat("/api/v1/topics"),
            MemoryTopicRequest {
                name: Self::topic_name(memory, MEMORY_TIERS[i]),
                partitions: 1,
                replication_factor: 1,
                cleanup_policy: "compact,delete".to_owned(),
                retention_ms: if retention >= 0 {
                    Some(text::i64_text(retention))
                } else {
                    None
                },
            },
        )
    }

    /// What a reconcile does once it has looked the cluster up.
    pub fn decide_on_cluster(
        memory: &StreamlineMemory,
        cluster: Option<&StreamlineCluster>,
    ) -> (decision: MemoryDecision)
        requires
            cluster is Some && controllers::takes_requests(cluster->0.deep_view()) ==> tiers_fit(
                memory.spec.tiers,
            ),
        ensures
            decision.deep_view() == decision_on_cluster(memory.deep_view(), cluster.deep_view()),
    {
        match cluster {
            None => MemoryDecision::Finish(
                MemoryReport::Failed(
                    "Cluster ".to_owned().concat(memory.spec.cluster_ref.as_str()).concat(
                        " not found",
                    ),
                ),
                NextReconcile::After(30),
                ReconcileVerdict::Uncounted,
            ),
            Some(cluster) => {
                if !controllers::cluster_is_ready(cluster) {
                    MemoryDecision::Finish(
                        MemoryReport::Pending("Waiting for cluster to be ready".to_owned()),
                        NextReconcile::After(10),
                        ReconcileVerdict::Uncounted,
                    )
                } else {
                    Self::create(memory, cluster, 0)
                }
            },
        }
    }

    /// What a reconcile does when the request for the topic of tier `i` could not be sent.
    pub fn decide_on_failure(memory: &StreamlineMemory, i: usize, cause: &str) -> (decision:
        MemoryDecision)
        requires
            i < 3,
        ensures
            decision.deep_view() == failed_request(
                "HTTP request to create memory topic "@ + tier_topic(
                    memory.deep_view(),
                    MEMORY_TIERS[i as int]@,
                ) + " failed: "@ + cause@,
            ),
    {
        let topic = Self::topic_name(memory, MEMORY_TIERS[i]);
        let error = OperatorError::Internal(
            "HTTP request to create memory topic ".to_owned().concat(topic.as_str()).concat(
                " failed: ",
            ).concat(cause),
        );
        MemoryDecision::Finish(
            MemoryReport::Failed(error.to_string()),
            NextReconcile::After(30),
            ReconcileVerdict::Uncounted,
        )
    }

    /// What a reconcile does once the server has answered the request for the topic of tier `i`.
    pub fn decide_on_reply(
        memory: &StreamlineMemory,
        cluster: &StreamlineCluster,
        i: usize,
        reply: &ServerReply,
    ) -> (decision: MemoryDecision)
        requires
            i < 3,
            tiers_fit(memory.spec.tiers),
        ensures
            decision.deep_view() == decision_on_reply(
                memory.deep_view(),
                cluster.deep_view(),
                i as int,
                reply.deep_view(),
            ),
    {
        // 409 Conflict means the topic already exists: success
        if !controllers::create_accepted(reply.code) {
            let topic = Self::topic_name(memory, MEMORY_TIERS[i]);
            let error = OperatorError::Internal(
                "Failed to create memory topic ".to_owned().concat(topic.as_str()).concat(
                    " (HTTP ",
                ).concat(reply.status.as_str()).concat("): ").concat(reply.body.as_str()),
            );
            return MemoryDecision::Finish(
                MemoryReport::Failed(error.to_string()),
                NextReconcile::After(30),
                ReconcileVerdict::Uncounted,
            );
        }
        if i < 2 {
            Self::create(memory, cluster, i + 1)
        } else {
            MemoryDecision::Finish(
                MemoryReport::Ready,
                NextReconcile::After(60),
                ReconcileVerdict::Success,
            )
        }
    }

    /// The addresses that the topics of a memory are deleted at.
    pub fn deletion_urls(memory: &StreamlineMemory, cluster: &StreamlineCluster) -> (urls: Vec<
        String,
    >)
        ensures
            urls.deep_view() == deletions(memory.deep_view(), cluster.deep_view()),
    {
        let namespace = memory.metadata.namespace_or_default();
        let ghost all = deletions(memory.deep_view(), cluster.deep_view());
        let mut urls: Vec<String> = Vec::new();
        let mut i: usize = 0;
        assert(urls.deep_view() =~= all.subrange(0, 0));
        while i < 3
            invariant
                i <= 3,
                namespace@ == objects::namespace_of(memory.deep_view().metadata),
                all == deletions(memory.deep_view(), cluster.deep_view()),
                urls.deep_view() == all.subrange(0, i as int),
            decreases 3 - i,
        {
            let ghost before = urls.deep_view();
            let topic = Self::topic_name(memory, MEMORY_TIERS[i]);
            urls.push(
                controllers::broker_http_endpoint(cluster, namespace.as_str()).concat(
                    "/api/v1/topics/",
                ).concat(topic.as_str()),
            );
            assert(urls.deep_view() =~= before.push(all[i as int]));
            assert(before.push(all[i as int]) =~= all.subrange(0, i + 1));
            i = i + 1;
        }
        assert(all.subrange(0, 3) =~= all);
        urls
    }

    /// Build the status that a report amounts to.
    pub fn status_of(report: &MemoryReport) -> (status: MemoryStatus)
        ensures
            exists|now: Seq<char>|
                clock::is_stamp(now) && status.deep_view() == #[trigger] report_status(report.deep_view(), now),
    {
        let now = clock::now_rfc3339();
        Self::status_of_at(report, now.as_str())
    }

    /// Build the status that a report amounts to at `now`.
    pub fn status_of_at(report: &MemoryReport, now: &str) -> (status: MemoryStatus)
        ensures
            status.deep_view() == report_status(report.deep_view(), now@),
    {
        match report {
            MemoryReport::Ready => {
                let published = vec![
                    into_memory_condition(
                        condition_at(
                            MEMORY_CONDITION_READY,
                            CONDITION_TRUE,
                            "MemoryReady",
                            "Memory topics provisioned and ready",
                            now,
                        ),
                    ),
                    into_memory_condition(
                        condition_at(
                            MEMORY_CONDITION_TOPICS_PROVISIONED,
                            CONDITION_TRUE,
                            "AllTiersProvisioned",
                            "Episodic, semantic, and procedural topics created",
                            now,
                        ),
                    ),
                ];
                assert(published.deep_view() =~= report_conditions(report.deep_view(), now@));
                MemoryStatus {
                    phase: MemoryPhase::Ready,
                    ready: true,
                    episodic_event_count: 0,
                    semantic_event_count: 0,
                    procedural_event_count: 0,
                    message: Some("Memory topics provisioned successfully".to_owned()),
                    conditions: published,
                }
            },
            MemoryReport::Pending(message) => {
                let published = vec![
                    into_memory_condition(
                        condition_at(
                            MEMORY_CONDITION_READY,
                            CONDITION_FALSE,
                            "Pending",
                            message.as_str(),
                            now,
                        ),
                    ),
                    into_memory_condition(
                        condition_at(
                            MEMORY_CONDITION_TOPICS_PROVISIONED,
                            CONDITION_FALSE,
                            "WaitingForCluster",
                            "Memory topics cannot be provisioned until cluster is ready",
                            now,
                        ),
                    ),
                ];
                assert(published.deep_view() =~= report_conditions(report.deep_view(), now@));
                MemoryStatus {
                    phase: MemoryPhase::Pending,
                    ready: false,
                    episodic_event_count: 0,
                    semantic_event_count: 0,
                    procedural_event_count: 0,
                    message: Some(message.clone()),
                    conditions: published,
                }
            },
            MemoryReport::Failed(message) => {
                let published = vec![
                    into_memory_condition(
                        condition_at(
                            MEMORY_CONDITION_READY,
                            CONDITION_FALSE,
                            "Error",
                            message.as_str(),
                            now,
                        ),
                    ),
                    into_memory_condition(
                        condition_at(
                            MEMORY_CONDITION_TOPICS_PROVISIONED,
                            CONDITION_FALSE,
                            "ProvisioningFailed",
                            message.as_str(),
                            now,
                        ),
                    ),
                ];
                assert(published.deep_view() =~= report_conditions(report.deep_view(), now@));
                MemoryStatus {
                    phase: MemoryPhase::Failed,
                    ready: false,
                    episodic_event_count: 0,
                    semantic_event_count: 0,
                    procedural_event_count: 0,
                    message: Some(message.clone()),
                    conditions: published,
                }
            },
        }
    }
}

fn into_memory_condition(fields: ConditionFields) -> (condition: MemoryCondition)
    ensures
        condition.deep_view() == fields.deep_view(),
{
    MemoryCondition {
        type_: fields.condition_type,
        status: fields.status,
        last_transition_time: fields.last_transition_time,
        reason: fields.reason,
        message: fields.message,
    }
}

// ---------------------------------------------------------------------------
// Laws
// ---------------------------------------------------------------------------

/// The topics of the tiers have different names.
pub proof fn law_tier_topics_are_distinct(memory: StreamlineMemoryView, i: int, j: int)
    requires
        0 <= i < 3,
        0 <= j < 3,
        i != j,
    ensures
        tier_topic(memory, MEMORY_TIERS[i]@) != tier_topic(memory, MEMORY_TIERS[j]@),
{
    reveal_strlit("episodic");
    reveal_strlit("semantic");
    reveal_strlit("procedural");
    let front = "_memory."@ + memory.spec.tenant + "."@ + memory.spec.agent_id + "."@;
    let one = front + MEMORY_TIERS[i]@;
    let other = front + MEMORY_TIERS[j]@;
    assert("episodic"@[0] == 'e');
    assert("semantic"@[0] == 's');
    assert("procedural"@[0] == 'p');
    assert(one[front.len() as int] == MEMORY_TIERS[i]@[0]);
    assert(other[front.len() as int] == MEMORY_TIERS[j]@[0]);
}

/// Deleting a memory deletes every topic that provisioning it creates, and no other.
pub proof fn law_every_created_topic_is_deleted(
    memory: StreamlineMemoryView,
    cluster: StreamlineClusterView,
    i: int,
)
    requires
        0 <= i < 3,
    ensures
        deletions(memory, cluster).len() == 3,
        creation(memory, cluster, i) matches MemoryDecisionView::CreateTopic(_, url, request)
            && deletions(memory, cluster)[i] == url + "/"@ + request.name,
{
    reveal_strlit("/api/v1/topics");
    reveal_strlit("/api/v1/topics/");
    reveal_strlit("/");
    let endpoint = memory_endpoint(memory, cluster);
    assert("/api/v1/topics"@ + "/"@ =~= "/api/v1/topics/"@);
    assert(endpoint + "/api/v1/topics/"@ =~= endpoint + "/api/v1/topics"@ + "/"@);
}

/// A memory is ready only once the server has accepted the topic of the last tier; and tier
/// follows tier only on acceptance.
pub proof fn law_every_tier_is_provisioned_before_ready(
    memory: StreamlineMemoryView,
    cluster: StreamlineClusterView,
    i: int,
    reply: ServerReplyView,
)
    requires
        0 <= i < 3,
    ensures
        decision_on_reply(memory, cluster, i, reply) == MemoryDecisionView::Finish(
            MemoryReportView::Ready,
            NextReconcile::After(60),
            ReconcileVerdict::Success,
        ) <==> i == 2 && controllers::is_accepted(reply.code),
        decision_on_reply(memory, cluster, i, reply) is CreateTopic <==> i < 2
            && controllers::is_accepted(reply.code),
        decision_on_reply(memory, cluster, i, reply) is CreateTopic ==> decision_on_reply(
            memory,
            cluster,
            i,
            reply,
        ) == creation(memory, cluster, i + 1),
{
}

/// A tier with a negative retention is kept without limit; any other is not.
pub proof fn law_negative_retention_is_unlimited(memory: StreamlineMemoryView, i: int)
    requires
        0 <= i < 3,
    ensures
        topic_request(memory, i).retention_ms is None <==> tier_days(memory.spec.tiers, i) < 0,
        tier_days(memory.spec.tiers, i) < 0 ==> days_in_ms(tier_days(memory.spec.tiers, i)) == -1,
{
}

/// How many requests a reconcile can still make after a decision.
pub open spec fn requests_left(decision: MemoryDecisionView) -> int {
    match decision {
        MemoryDecisionView::LookUpCluster => 4,
        MemoryDecisionView::CreateTopic(i, _, _) => 3 - i,
        _ => 0,
    }
}

/// Every reconcile ends: whatever comes back from a request, the next decision leaves fewer
/// requests to make than the one before it.
pub proof fn law_every_reconcile_ends(
    memory: StreamlineMemoryView,
    looked_up: Option<StreamlineClusterView>,
    cluster: StreamlineClusterView,
    i: int,
    reply: ServerReplyView,
)
    requires
        0 <= i < 3,
    ensures
        requests_left(first_decision(memory)) <= 4,
        0 <= requests_left(decision_on_cluster(memory, looked_up)) < 4,
        0 <= requests_left(decision_on_reply(memory, cluster, i, reply)) < requests_left(
            creation(memory, cluster, i),
        ),
{
}

} // verus!
