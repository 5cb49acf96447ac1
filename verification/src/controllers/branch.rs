//! Branch controller.
//!
//! Decides how a StreamlineBranch is created through the admin API of its cluster, and builds
//! the status that is published.

use crate::clock;
use crate::conditions;
use crate::conditions::{
    condition_at, ConditionFields, ConditionView, BRANCH_FINALIZER, CONDITION_FALSE, CONDITION_TRUE,
};
use crate::controllers;
use crate::controllers::topic::{ServerReply, ServerReplyView};
use crate::controllers::{NextReconcile, ReconcileVerdict};
use crate::crd::branch::BranchStatusView;
use crate::crd::{
    BranchCondition, BranchPhase, BranchStatus, StreamlineBranch, StreamlineBranchView,
    StreamlineCluster, StreamlineClusterView,
};
use crate::error;
use crate::error::{OperatorError, OperatorErrorView};
use crate::json;
use crate::objects;
use vstd::prelude::*;
use vstd::string::*;

verus! {

/// The branch controller.
#[derive(Clone, Copy, Debug)]
pub struct BranchController;

// Branch-specific condition types
pub const BRANCH_CONDITION_ACTIVE: &'static str = "Active";
pub const BRANCH_CONDITION_FROZEN: &'static str = "Frozen";

/// The request that creates a branch.
#[derive(Debug, PartialEq, Eq)]
pub struct BranchRequest {
    pub name: String,
    pub parent: Option<String>,
    pub description: Option<String>,
}

/// What a [`BranchRequest`] holds, over characters and sequences.
#[verifier::ext_equal]
pub struct BranchRequestView {
    pub name: Seq<char>,
    pub parent: Option<Seq<char>>,
    pub description: Option<Seq<char>>,
}

impl DeepView for BranchRequest {
    type V = BranchRequestView;

    open spec fn deep_view(&self) -> BranchRequestView {
        BranchRequestView {
            name: self.name@,
            parent: self.parent.deep_view(),
            description: self.description.deep_view(),
        }
    }
}

/// Which status a reconcile publishes.
#[derive(Debug, PartialEq, Eq)]
pub enum BranchReport {
    /// The branch is there, created at this time if the broker said so
    Active(Option<i64>),
    /// The branch waits for its cluster
    Pending(String),
    /// The reconcile failed
    Failed(String),
}

/// What [`BranchReport`] says, over characters and sequences.
#[verifier::ext_equal]
pub enum BranchReportView {
    Active(Option<i64>),
    Pending(Seq<char>),
    Failed(Seq<char>),
}

impl DeepView for BranchReport {
    type V = BranchReportView;

    open spec fn deep_view(&self) -> BranchReportView {
        match self {
            BranchReport::Active(v0) => BranchReportView::Active(*v0),
            BranchReport::Pending(v0) => BranchReportView::Pending(v0@),
            BranchReport::Failed(v0) => BranchReportView::Failed(v0@),
        }
    }
}

/// What a reconcile does next.
#[derive(Debug, PartialEq, Eq)]
pub enum BranchDecision {
    /// Delete the branch from the server, if its cluster is there, and release the resource
    CleanUp,
    /// Read the referenced cluster
    LookUpCluster,
    /// Ask the server at this address for a branch
    Create(String, BranchRequest),
    /// Publish a status and end the reconcile
    Finish(BranchReport, NextReconcile, ReconcileVerdict),
}

/// What [`BranchDecision`] says, over characters and sequences.
#[verifier::ext_equal]
pub enum BranchDecisionView {
    CleanUp,
    LookUpCluster,
    Create(Seq<char>, BranchRequestView),
    Finish(BranchReportView, NextReconcile, ReconcileVerdict),
}

impl DeepView for BranchDecision {
    type V = BranchDecisionView;

    open spec fn deep_view(&self) -> BranchDecisionView {
        match self {
            BranchDecision::CleanUp => BranchDecisionView::CleanUp,
            BranchDecision::LookUpCluster => BranchDecisionView::LookUpCluster,
            BranchDecision::Create(v0, v1) => BranchDecisionView::Create(v0@, v1.deep_view()),
            BranchDecision::Finish(v0, v1, v2) => BranchDecisionView::Finish(v0.deep_view(), *v1, *v2),
        }
    }
}

// ---------------------------------------------------------------------------
// Model
// ---------------------------------------------------------------------------

/// The API endpoint of a branch's cluster.
pub open spec fn branch_endpoint(
    branch: StreamlineBranchView,
    cluster: StreamlineClusterView,
) -> Seq<char> {
    controllers::http_endpoint(cluster, objects::namespace_of(branch.metadata))
}

/// The request that creates a branch.
pub open spec fn branch_request(branch: StreamlineBranchView) -> BranchRequestView {
    BranchRequestView {
        name: branch.metadata.name,
        parent: branch.spec.parent,
        description: branch.spec.description,
    }
}

/// What a reconcile does first, once the finalizer is set.
pub open spec fn first_decision(branch: StreamlineBranchView) -> BranchDecisionView {
    if branch.metadata.deleting {
        BranchDecisionView::CleanUp
    } else {
        BranchDecisionView::LookUpCluster
    }
}

/// What a reconcile does once it has looked the cluster up.
pub open spec fn decision_on_cluster(
    branch: StreamlineBranchView,
    cluster: Option<StreamlineClusterView>,
) -> BranchDecisionView {
    match cluster {
        None => BranchDecisionView::Finish(
            BranchReportView::Failed("Cluster "@ + branch.spec.cluster_ref + " not found"@),
            NextReconcile::After(30),
            ReconcileVerdict::Uncounted,
        ),
        Some(cluster) => if !controllers::takes_requests(cluster) {
            BranchDecisionView::Finish(
                BranchReportView::Pending("Waiting for cluster to be ready"@),
                NextReconcile::After(10),
                ReconcileVerdict::Uncounted,
            )
        } else {
            BranchDecisionView::Create(
                branch_endpoint(branch, cluster) + "/api/v1/branches"@,
                branch_request(branch),
            )
        },
    }
}

/// The end of a reconcile whose request failed.
pub open spec fn failed_request(message: Seq<char>) -> BranchDecisionView {
    BranchDecisionView::Finish(
        BranchReportView::Failed(error::error_text(OperatorErrorView::Internal(message))),
        NextReconcile::After(30),
        ReconcileVerdict::Uncounted,
    )
}

/// What a reconcile does once the server has answered: `created` is the creation time that the
/// body reports. A conflict means that the branch is there already; its body reports nothing.
pub open spec fn decision_on_reply(
    branch: StreamlineBranchView,
    reply: ServerReplyView,
    created: Option<i64>,
) -> BranchDecisionView {
    if controllers::is_accepted(reply.code) {
        BranchDecisionView::Finish(
            BranchReportView::Active(
                if controllers::is_success(reply.code) {
                    created
                } else {
                    None
                },
            ),
            NextReconcile::After(60),
            ReconcileVerdict::Success,
        )
    } else {
        failed_request(
            "Failed to create branch "@ + branch.metadata.name + " (HTTP "@ + reply.status + "): "@
                + reply.body,
        )
    }
}

/// The conditions that a report amounts to.
pub open spec fn report_conditions(report: BranchReportView, now: Seq<char>) -> Seq<
    ConditionView,
> {
    match report {
        BranchReportView::Active(_) => seq![
            conditions::stamped(
                BRANCH_CONDITION_ACTIVE@,
                CONDITION_TRUE@,
                "BranchActive"@,
                "Branch is active and ready for reads"@,
                now,
            ),
            conditions::stamped(
                BRANCH_CONDITION_FROZEN@,
                CONDITION_FALSE@,
                "NotFrozen"@,
                "Branch is not frozen"@,
                now,
            ),
        ],
        BranchReportView::Pending(message) => seq![
            conditions::stamped(
                BRANCH_CONDITION_ACTIVE@,
                CONDITION_FALSE@,
                "Pending"@,
                message,
                now,
            ),
        ],
        BranchReportView::Failed(message) => seq![
            conditions::stamped(
                BRANCH_CONDITION_ACTIVE@,
                CONDITION_FALSE@,
                "Error"@,
                message,
                now,
            ),
        ],
    }
}

/// The status that a report amounts to.
pub open spec fn report_status(report: BranchReportView, now: Seq<char>) -> BranchStatusView {
    BranchStatusView {
        phase: match report {
            BranchReportView::Active(_) => BranchPhase::Ready,
            BranchReportView::Pending(_) => BranchPhase::Pending,
            BranchReportView::Failed(_) => BranchPhase::Failed,
        },
        ready: report is Active,
        created_at_ms: match report {
            BranchReportView::Active(created) => created,
            _ => None,
        },
        message: match report {
            BranchReportView::Active(_) => Some("Branch created successfully"@),
            BranchReportView::Pending(message) => Some(message),
            BranchReportView::Failed(message) => Some(message),
        },
        conditions: report_conditions(report, now),
    }
}

// ---------------------------------------------------------------------------
// Code
// ---------------------------------------------------------------------------

impl BranchController {
    /// Whether the finalizer has to be set before anything else.
    pub fn needs_finalizer(branch: &StreamlineBranch) -> (needed: bool)
        ensures
            needed == (!branch.metadata.deleting
                && !branch.deep_view().metadata.finalizers.contains(BRANCH_FINALIZER@)),
    {
        !branch.metadata.deleting && !branch.metadata.has_finalizer(BRANCH_FINALIZER)
    }

    /// What a reconcile does first, once the finalizer is set.
    pub fn decide(branch: &StreamlineBranch) -> (decision: BranchDecision)
        ensures
            decision.deep_view() == first_decision(branch.deep_view()),
    {
        if branch.metadata.deleting {
            BranchDecision::CleanUp
        } else {
            BranchDecision::LookUpCluster
        }
    }

    /// What a reconcile does once it has looked the cluster up.
    pub fn decide_on_cluster(
        branch: &StreamlineBranch,
        cluster: Option<&StreamlineCluster>,
    ) -> (decision: BranchDecision)
        ensures
            decision.deep_view() == decision_on_cluster(branch.deep_view(), cluster.deep_view()),
    {
        match cluster {
            None => BranchDecision::Finish(
                BranchReport::Failed(
                    "Cluster ".to_owned().concat(branch.spec.cluster_ref.as_str()).concat(
                        " not found",
                    ),
                ),
                NextReconcile::After(30),
                ReconcileVerdict::Uncounted,
            ),
            Some(cluster) => {
                if !controllers::cluster_is_ready(cluster) {
                    BranchDecision::Finish(
                        BranchReport::Pending("Waiting for cluster to be ready".to_owned()),
                        NextReconcile::After(10),
                        ReconcileVerdict::Uncounted,
                    )
                } else {
                    let namespace = branch.metadata.namespace_or_default();
                    BranchDecision::Create(
                        controllers::broker_http_endpoint(cluster, namespace.as_str()).concat(
                            "/api/v1/branches",
                        ),
                        BranchRequest {
                            name: branch.metadata.name.clone(),
                            parent: branch.spec.parent.clone(),
                            description: branch.spec.description.clone(),
                        },
                    )
                }
            },
        }
    }

    /// What a reconcile does when the request could not be sent.
    pub fn decide_on_failure(branch: &StreamlineBranch, failure: &str) -> (decision: BranchDecision)
        ensures
            decision.deep_view() == failed_request(
                "HTTP request to create branch "@ + branch.metadata.name@ + " failed: "@ + failure@,
            ),
    {
        let error = OperatorError::Internal(
            "HTTP request to create branch ".to_owned().concat(
                branch.metadata.name.as_str(),
            ).concat(" failed: ").concat(failure),
        );
        BranchDecision::Finish(
            BranchReport::Failed(error.to_string()),
            NextReconcile::After(30),
            ReconcileVerdict::Uncounted,
        )
    }

    /// What a reconcile does once the server has answered.
    pub fn decide_on_reply(branch: &StreamlineBranch, reply: &ServerReply) -> (decision:
        BranchDecision)
        ensures
            decision.deep_view() == decision_on_reply(
                branch.deep_view(),
                reply.deep_view(),
                json::json_number(reply.body@, "/created_at_ms"@),
            ),
    {
        let created = json::number_at(reply.body.as_str(), "/created_at_ms");
        Self::decide_on_created(branch, reply, created)
    }

    /// What a reconcile does once the server has answered with a body that reports `created` as
    /// the creation time.
    pub fn decide_on_created(
        branch: &StreamlineBranch,
        reply: &ServerReply,
        created: Option<i64>,
    ) -> (decision: BranchDecision)
        ensures
            decision.deep_view() == decision_on_reply(
                branch.deep_view(),
                reply.deep_view(),
                created,
            ),
    {
        if !controllers::create_accepted(reply.code) {
            let error = OperatorError::Internal(
                "Failed to create branch ".to_owned().concat(branch.metadata.name.as_str()).concat(
                    " (HTTP ",
                ).concat(reply.status.as_str()).concat("): ").concat(reply.body.as_str()),
            );
            return BranchDecision::Finish(
                BranchReport::Failed(error.to_string()),
                NextReconcile::After(30),
                ReconcileVerdict::Uncounted,
            );
        }
        // 409 Conflict means the branch already exists: success, with nothing reported
        let reported = if controllers::http_success(reply.code) {
            created
        } else {
            None
        };
        BranchDecision::Finish(
            BranchReport::Active(reported),
            NextReconcile::After(60),
            ReconcileVerdict::Success,
        )
    }

    /// The address that a branch is deleted at.
    pub fn deletion_url(branch: &StreamlineBranch, cluster: &StreamlineCluster) -> (url: String)
        ensures
            url@ == branch_endpoint(branch.deep_view(), cluster.deep_view()) + "/api/v1/branches/"@
                + branch.metadata.name@,
    {
        let namespace = branch.metadata.namespace_or_default();
        controllers::broker_http_endpoint(cluster, namespace.as_str()).concat(
            "/api/v1/branches/",
        ).concat(branch.metadata.name.as_str())
    }

    /// Build the status that a report amounts to.
    pub fn status_of(report: &BranchReport) -> (status: BranchStatus)
        ensures
            exists|now: Seq<char>|
                clock::is_stamp(now) && status.deep_view() == #[trigger] report_status(report.deep_view(), now),
    {
        let now = clock::now_rfc3339();
        Self::status_of_at(report, now.as_str())
    }

    /// Build the status that a report amounts to at `now`.
    pub fn status_of_at(report: &BranchReport, now: &str) -> (status: BranchStatus)
        ensures
            status.deep_view() == report_status(report.deep_view(), now@),
    {
        match report {
            BranchReport::Active(created) => {
                let published = vec![
                    into_branch_condition(
                        condition_at(
                            BRANCH_CONDITION_ACTIVE,
                            CONDITION_TRUE,
                            "BranchActive",
                            "Branch is active and ready for reads",
                            now,
                        ),
                    ),
                    into_branch_condition(
                        condition_at(
                            BRANCH_CONDITION_FROZEN,
                            CONDITION_FALSE,
                            "NotFrozen",
                            "Branch is not frozen",
                            now,
                        ),
                    ),
                ];
                assert(published.deep_view() =~= report_conditions(report.deep_view(), now@));
                BranchStatus {
                    phase: BranchPhase::Ready,
                    ready: true,
                    created_at_ms: *created,
                    message: Some("Branch created successfully".to_owned()),
                    conditions: published,
                }
            },
            BranchReport::Pending(message) => {
                let published = vec![
                    into_branch_condition(
                        condition_at(
                            BRANCH_CONDITION_ACTIVE,
                            CONDITION_FALSE,
                            "Pending",
                            message.as_str(),
                            now,
                        ),
                    ),
                ];
                assert(published.deep_view() =~= report_conditions(report.deep_view(), now@));
                BranchStatus {
                    phase: BranchPhase::Pending,
                    ready: false,
                    created_at_ms: None,
                    message: Some(message.clone()),
                    conditions: published,
                }
            },
            BranchReport::Failed(message) => {
                let published = vec![
                    into_branch_condition(
                        condition_at(
                            BRANCH_CONDITION_ACTIVE,
                            CONDITION_FALSE,
                            "Error",
                            message.as_str(),
                            now,
                        ),
                    ),
                ];
                assert(published.deep_view() =~= report_conditions(report.deep_view(), now@));
                BranchStatus {
                    phase: BranchPhase::Failed,
                    ready: false,
                    created_at_ms: None,
                    message: Some(message.clone()),
                    conditions: published,
                }
            },
        }
    }
}

fn into_branch_condition(fields: ConditionFields) -> (condition: BranchCondition)
    ensures
        condition.deep_view() == fields.deep_view(),
{
    BranchCondition {
        type_: fields.condition_type,
        status: fields.status,
        last_transition_time: fields.last_transition_time,
        reason: fields.reason,
        message: fields.message,
    }
}

// ---------------------------------------------------------------------------
// Laws
// ---------------------------------------------------------------------------

/// A branch is ready exactly when the server accepted it, be it anew or as one that was there
/// already.
pub proof fn law_a_branch_is_ready_iff_accepted(
    branch: StreamlineBranchView,
    reply: ServerReplyView,
    created: Option<i64>,
    now: Seq<char>,
)
    ensures
        decision_on_reply(branch, reply, created) matches BranchDecisionView::Finish(
            report,
            _,
            verdict,
        ) && (report_status(report, now).ready <==> controllers::is_accepted(reply.code)) && (
        verdict == ReconcileVerdict::Success <==> controllers::is_accepted(reply.code)),
{
}

/// Nothing is asked of a cluster that is missing or takes no requests.
pub proof fn law_branches_wait_for_their_cluster(
    branch: StreamlineBranchView,
    cluster: Option<StreamlineClusterView>,
)
    ensures
        decision_on_cluster(branch, cluster) is Create <==> cluster is Some
            && controllers::takes_requests(cluster->0),
{
}

} // verus!
