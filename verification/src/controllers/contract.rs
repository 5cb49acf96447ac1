//! Contract controller.
//!
//! Decides how a StreamlineContract is validated and applied through the admin API of its
//! cluster, and builds the status that is published.

use crate::clock;
use crate::conditions;
use crate::conditions::{
    condition_at, ConditionFields, ConditionView, CONDITION_FALSE, CONDITION_TRUE,
    CONTRACT_FINALIZER,
};
use crate::controllers;
use crate::controllers::topic::{ServerReply, ServerReplyView};
use crate::controllers::{NextReconcile, ReconcileVerdict};
use crate::crd::contract;
use crate::crd::contract::ContractStatusView;
use crate::crd::{
    ContractCondition, ContractPhase, ContractStatus, StreamlineCluster, StreamlineClusterView,
    StreamlineContract, StreamlineContractView,
};
use crate::error;
use crate::error::{OperatorError, OperatorErrorView};
use crate::objects;
use vstd::prelude::*;
use vstd::string::*;

verus! {

/// The contract controller.
#[derive(Clone, Copy, Debug)]
pub struct ContractController;

// Contract-specific condition types
pub const CONTRACT_CONDITION_APPLIED: &'static str = "Applied";
pub const CONTRACT_CONDITION_VALIDATED: &'static str = "Validated";

/// The request that validates or applies a contract.
#[derive(Debug, PartialEq, Eq)]
pub struct ContractRequest {
    pub name: String,
    pub schema: String,
    pub compatibility: String,
    pub bind_topics: Vec<String>,
}

/// What a [`ContractRequest`] holds, over characters and sequences.
#[verifier::ext_equal]
pub struct ContractRequestView {
    pub name: Seq<char>,
    pub schema: Seq<char>,
    pub compatibility: Seq<char>,
    pub bind_topics: Seq<Seq<char>>,
}

impl DeepView for ContractRequest {
    type V = ContractRequestView;

    open spec fn deep_view(&self) -> ContractRequestView {
        ContractRequestView {
            name: self.name@,
            schema: self.schema@,
            compatibility: self.compatibility@,
            bind_topics: self.bind_topics.deep_view(),
        }
    }
}

/// Which status a reconcile publishes.
#[derive(Debug, PartialEq, Eq)]
pub enum ContractReport {
    /// The contract is applied to these topics
    Applied(Vec<String>),
    /// The contract waits for its cluster
    Pending(String),
    /// The reconcile failed
    Failed(String),
}

/// What [`ContractReport`] says, over characters and sequences.
#[verifier::ext_equal]
pub enum ContractReportView {
    Applied(Seq<Seq<char>>),
    Pending(Seq<char>),
    Failed(Seq<char>),
}

impl DeepView for ContractReport {
    type V = ContractReportView;

    open spec fn deep_view(&self) -> ContractReportView {
        match self {
            ContractReport::Applied(v0) => ContractReportView::Applied(v0.deep_view()),
            ContractReport::Pending(v0) => ContractReportView::Pending(v0@),
            ContractReport::Failed(v0) => ContractReportView::Failed(v0@),
        }
    }
}

/// What a reconcile does next.
#[derive(Debug, PartialEq, Eq)]
pub enum ContractDecision {
    /// Delete the contract from the server, if its cluster is there, and release the resource
    CleanUp,
    /// Read the referenced cluster
    LookUpCluster,
    /// Have the server at this address validate the contract
    Validate(String, ContractRequest),
    /// Have the server at this address apply the contract
    Apply(String, ContractRequest),
    /// Publish a status and end the reconcile
    Finish(ContractReport, NextReconcile, ReconcileVerdict),
}

/// What [`ContractDecision`] says, over characters and sequences.
#[verifier::ext_equal]
pub enum ContractDecisionView {
    CleanUp,
    LookUpCluster,
    Validate(Seq<char>, ContractRequestView),
    Apply(Seq<char>, ContractRequestView),
    Finish(ContractReportView, NextReconcile, ReconcileVerdict),
}

impl DeepView for ContractDecision {
    type V = ContractDecisionView;

    open spec fn deep_view(&self) -> ContractDecisionView {
        match self {
            ContractDecision::CleanUp => ContractDecisionView::CleanUp,
            ContractDecision::LookUpCluster => ContractDecisionView::LookUpCluster,
            ContractDecision::Validate(v0, v1) => ContractDecisionView::Validate(v0@, v1.deep_view()),
            ContractDecision::Apply(v0, v1) => ContractDecisionView::Apply(v0@, v1.deep_view()),
            ContractDecision::Finish(v0, v1, v2) => ContractDecisionView::Finish(v0.deep_view(), *v1, *v2),
        }
    }
}

// ---------------------------------------------------------------------------
// Model
// ---------------------------------------------------------------------------

/// The API endpoint of a contract's cluster.
pub open spec fn contract_endpoint(
    contract: StreamlineContractView,
    cluster: StreamlineClusterView,
) -> Seq<char> {
    controllers::http_endpoint(cluster, objects::namespace_of(contract.metadata))
}

/// The request that validates or applies a contract.
pub open spec fn contract_request(contract: StreamlineContractView) -> ContractRequestView {
    ContractRequestView {
        name: contract.metadata.name,
        schema: contract.spec.schema_json,
        compatibility: contract::compatibility_text(contract.spec.compatibility),
        bind_topics: contract.spec.bind_topics,
    }
}

/// What a reconcile does first, once the finalizer is set.
pub open spec fn first_decision(contract: StreamlineContractView) -> ContractDecisionView {
    if contract.metadata.deleting {
        ContractDecisionView::CleanUp
    } else {
        ContractDecisionView::LookUpCluster
    }
}

/// What a reconcile does once it has looked the cluster up.
pub open spec fn decision_on_cluster(
    contract: StreamlineContractView,
    cluster: Option<StreamlineClusterView>,
) -> ContractDecisionView {
    match cluster {
        None => ContractDecisionView::Finish(
            ContractReportView::Failed("Cluster "@ + contract.spec.cluster_ref + " not found"@),
            NextReconcile::After(30),
            ReconcileVerdict::Uncounted,
        ),
        Some(cluster) => if !controllers::takes_requests(cluster) {
            ContractDecisionView::Finish(
                ContractReportView::Pending("Waiting for cluster to be ready"@),
                NextReconcile::After(10),
                ReconcileVerdict::Uncounted,
            )
        } else {
            ContractDecisionView::Validate(
                contract_endpoint(contract, cluster) + "/api/v1/contracts/validate"@,
                contract_request(contract),
            )
        },
    }
}

/// The end of a reconcile that failed.
pub open spec fn failure(error: OperatorErrorView) -> ContractDecisionView {
    ContractDecisionView::Finish(
        ContractReportView::Failed(error::error_text(error)),
        NextReconcile::After(30),
        ReconcileVerdict::Uncounted,
    )
}

/// What a reconcile does once the server has judged the contract.
pub open spec fn decision_on_validation(
    contract: StreamlineContractView,
    cluster: StreamlineClusterView,
    reply: ServerReplyView,
) -> ContractDecisionView {
    if controllers::is_success(reply.code) {
        ContractDecisionView::Apply(
            contract_endpoint(contract, cluster) + "/api/v1/contracts"@,
            contract_request(contract),
        )
    } else {
        failure(
            OperatorErrorView::Reconciliation(
                "Contract validation failed (HTTP "@ + reply.status + "): "@ + reply.body,
            ),
        )
    }
}

/// What a reconcile does once the server has answered the request to apply the contract. A
/// conflict means that it is there already.
pub open spec fn decision_on_application(
    contract: StreamlineContractView,
    reply: ServerReplyView,
) -> ContractDecisionView {
    if controllers::is_accepted(reply.code) {
        ContractDecisionView::Finish(
            ContractReportView::Applied(contract.spec.bind_topics),
            NextReconcile::After(60),
            ReconcileVerdict::Success,
        )
    } else {
        failure(
            OperatorErrorView::Internal(
                "Failed to apply contract "@ + contract.metadata.name + " (HTTP "@ + reply.status
                    + "): "@ + reply.body,
            ),
        )
    }
}

/// The conditions that a report amounts to: Applied, then Validated.
pub open spec fn report_conditions(report: ContractReportView, now: Seq<char>) -> Seq<
    ConditionView,
> {
    match report {
        ContractReportView::Applied(_) => seq![
            conditions::stamped(
                CONTRACT_CONDITION_APPLIED@,
                CONDITION_TRUE@,
                "ContractApplied"@,
                "Contract successfully applied to the cluster"@,
                now,
            ),
            conditions::stamped(
                CONTRACT_CONDITION_VALIDATED@,
                CONDITION_TRUE@,
                "SchemaValid"@,
                "Contract schema validated successfully"@,
                now,
            ),
        ],
        ContractReportView::Pending(message) => seq![
            conditions::stamped(
                CONTRACT_CONDITION_APPLIED@,
                CONDITION_FALSE@,
                "Pending"@,
                message,
                now,
            ),
            conditions::stamped(
                CONTRACT_CONDITION_VALIDATED@,
                CONDITION_FALSE@,
                "WaitingForCluster"@,
                "Contract cannot be validated until cluster is ready"@,
                now,
            ),
        ],
        ContractReportView::Failed(message) => seq![
            conditions::stamped(
                CONTRACT_CONDITION_APPLIED@,
                CONDITION_FALSE@,
                "Error"@,
                message,
                now,
            ),
            conditions::stamped(
                CONTRACT_CONDITION_VALIDATED@,
                CONDITION_FALSE@,
                "ValidationFailed"@,
                message,
                now,
            ),
        ],
    }
}

/// The status that a report amounts to.
pub open spec fn report_status(report: ContractReportView, now: Seq<char>) -> ContractStatusView {
    ContractStatusView {
        phase: match report {
            ContractReportView::Applied(_) => ContractPhase::Active,
            ContractReportView::Pending(_) => ContractPhase::Pending,
            ContractReportView::Failed(_) => ContractPhase::Failed,
        },
        registered: report is Applied,
        bound_topics: match report {
            ContractReportView::Applied(topics) => topics,
            _ => Seq::empty(),
        },
        message: match report {
            ContractReportView::Applied(_) => Some("Contract applied successfully"@),
            ContractReportView::Pending(message) => Some(message),
            ContractReportView::Failed(message) => Some(message),
        },
        conditions: report_conditions(report, now),
    }
}

// ---------------------------------------------------------------------------
// Code
// ---------------------------------------------------------------------------

impl ContractController {
    /// Whether the finalizer has to be set before anything else.
    pub fn needs_finalizer(contract: &StreamlineContract) -> (needed: bool)
        ensures
            needed == (!contract.metadata.deleting
                && !contract.deep_view().metadata.finalizers.contains(CONTRACT_FINALIZER@)),
    {
        !contract.metadata.deleting && !contract.metadata.has_finalizer(CONTRACT_FINALIZER)
    }

    /// What a reconcile does first, once the finalizer is set.
    pub fn decide(contract: &StreamlineContract) -> (decision: ContractDecision)
        ensures
            decision.deep_view() == first_decision(contract.deep_view()),
    {
        if contract.metadata.deleting {
            ContractDecision::CleanUp
        } else {
            ContractDecision::LookUpCluster
        }
    }

    fn build_request(contract: &StreamlineContract) -> (request: ContractRequest)
        ensures
            request.deep_view() == contract_request(contract.deep_view()),
    {
        let spec = contract.spec.clone();
        ContractRequest {
            name: contract.metadata.name.clone(),
            schema: spec.schema_json,
            compatibility: contract.spec.compatibility.as_text().to_owned(),
            bind_topics: spec.bind_topics,
        }
    }

    fn fail(error: OperatorError) -> (decision: ContractDecision)
        ensures
            decision.deep_view() == failure(error.deep_view()),
    {
        ContractDecision::Finish(
            ContractReport::Failed(error.to_string()),
            NextReconcile::After(30),
            ReconcileVerdict::Uncounted,
        )
    }

    /// What a reconcile does once it has looked the cluster up.
    pub fn decide_on_cluster(
        contract: &StreamlineContract,
        cluster: Option<&StreamlineCluster>,
    ) -> (decision: ContractDecision)
        ensures
            decision.deep_view() == decision_on_cluster(contract.deep_view(), cluster.deep_view()),
    {
        match cluster {
            None => ContractDecision::Finish(
                ContractReport::Failed(
                    "Cluster ".to_owned().concat(contract.spec.cluster_ref.as_str()).concat(
                        " not found",
                    ),
                ),
                NextReconcile::After(30),
                ReconcileVerdict::Uncounted,
            ),
            Some(cluster) => {
                if !controllers::cluster_is_ready(cluster) {
                    ContractDecision::Finish(
                        ContractReport::Pending("Waiting for cluster to be ready".to_owned()),
                        NextReconcile::After(10),
                        ReconcileVerdict::Uncounted,
                    )
                } else {
                    let namespace = contract.metadata.namespace_or_default();
                    ContractDecision::Validate(
                        controllers::broker_http_endpoint(cluster, namespace.as_str()).concat(
                            "/api/v1/contracts/validate",
                        ),
                        Self::build_request(contract),
                    )
                }
            },
        }
    }

    /// What a reconcile does when the request to validate could not be sent.
    pub fn decide_on_validation_failure(contract: &StreamlineContract, cause: &str) -> (decision:
        ContractDecision)
        ensures
            decision.deep_view() == failure(
                OperatorErrorView::Internal(
                    "HTTP request to validate contract "@ + contract.metadata.name@ + " failed: "@
                        + cause@,
                ),
            ),
    {
        Self::fail(
            OperatorError::Internal(
                "HTTP request to validate contract ".to_owned().concat(
                    contract.metadata.name.as_str(),
                ).concat(" failed: ").concat(cause),
            ),
        )
    }

    /// What a reconcile does once the server has judged the contract.
    pub fn decide_on_validation(
        contract: &StreamlineContract,
        cluster: &StreamlineCluster,
        reply: &ServerReply,
    ) -> (decision: ContractDecision)
        ensures
            decision.deep_view() == decision_on_validation(
                contract.deep_view(),
                cluster.deep_view(),
                reply.deep_view(),
            ),
    {
        if controllers::http_success(reply.code) {
            let namespace = contract.metadata.namespace_or_default();
            ContractDecision::Apply(
                controllers::broker_http_endpoint(cluster, namespace.as_str()).concat(
                    "/api/v1/contracts",
                ),
                Self::build_request(contract),
            )
        } else {
            Self::fail(
                OperatorError::Reconciliation(
                    "Contract validation failed (HTTP ".to_owned().concat(
                        reply.status.as_str(),
                    ).concat("): ").concat(reply.body.as_str()),
                ),
            )
        }
    }

    /// What a reconcile does when the request to apply could not be sent.
    pub fn decide_on_application_failure(contract: &StreamlineContract, cause: &str) -> (decision:
        ContractDecision)
        ensures
            decision.deep_view() == failure(
                OperatorErrorView::Internal(
                    "HTTP request to apply contract "@ + contract.metadata.name@ + " failed: "@
                        + cause@,
                ),
            ),
    {
        Self::fail(
            OperatorError::Internal(
                "HTTP request to apply contract ".to_owned().concat(
                    contract.metadata.name.as_str(),
                ).concat(" failed: ").concat(cause),
            ),
        )
    }

    /// What a reconcile does once the server has answered the request to apply the contract.
    pub fn decide_on_application(contract: &StreamlineContract, reply: &ServerReply) -> (decision:
        ContractDecision)
        ensures
            decision.deep_view() == decision_on_application(
                contract.deep_view(),
                reply.deep_view(),
            ),
    {
        // 409 Conflict means the contract already exists: success
        if controllers::create_accepted(reply.code) {
            ContractDecision::Finish(
                // The bound topics are those of the spec
                ContractReport::Applied(contract.spec.clone().bind_topics),
                NextReconcile::After(60),
                ReconcileVerdict::Success,
            )
        } else {
            Self::fail(
                OperatorError::Internal(
                    "Failed to apply contract ".to_owned().concat(
                        contract.metadata.name.as_str(),
                    ).concat(" (HTTP ").concat(reply.status.as_str()).concat("): ").concat(
                        reply.body.as_str(),
                    ),
                ),
            )
        }
    }

    /// The address that a contract is deleted at.
    pub fn deletion_url(contract: &StreamlineContract, cluster: &StreamlineCluster) -> (url: String)
        ensures
            url@ == contract_endpoint(contract.deep_view(), cluster.deep_view())
                + "/api/v1/contracts/"@ + contract.metadata.name@,
    {
        let namespace = contract.metadata.namespace_or_default();
        controllers::broker_http_endpoint(cluster, namespace.as_str()).concat(
            "/api/v1/contracts/",
        ).concat(contract.metadata.name.as_str())
    }

    /// Build the status that a report amounts to.
    pub fn status_of(report: ContractReport) -> (status: ContractStatus)
        ensures
            exists|now: Seq<char>|
                clock::is_stamp(now) && status.deep_view() == #[trigger] report_status(report.deep_view(), now),
    {
        let now = clock::now_rfc3339();
        Self::status_of_at(report, now.as_str())
    }

    /// Build the status that a report amounts to at `now`.
    pub fn status_of_at(report: ContractReport, now: &str) -> (status: ContractStatus)
        ensures
            status.deep_view() == report_status(report.deep_view(), now@),
    {
        let ghost view = report.deep_view();
        match report {
            ContractReport::Applied(topics) => {
                let published = vec![
                    into_contract_condition(
                        condition_at(
                            CONTRACT_CONDITION_APPLIED,
                            CONDITION_TRUE,
                            "ContractApplied",
                            "Contract successfully applied to the cluster",
                            now,
                        ),
                    ),
                    into_contract_condition(
                        condition_at(
                            CONTRACT_CONDITION_VALIDATED,
                            CONDITION_TRUE,
                            "SchemaValid",
                            "Contract schema validated successfully",
                            now,
                        ),
                    ),
                ];
                assert(published.deep_view() =~= report_conditions(view, now@));
                ContractStatus {
                    phase: ContractPhase::Active,
                    registered: true,
                    bound_topics: topics,
                    message: Some("Contract applied successfully".to_owned()),
                    conditions: published,
                }
            },
            ContractReport::Pending(message) => {
                let published = vec![
                    into_contract_condition(
                        condition_at(
                            CONTRACT_CONDITION_APPLIED,
                            CONDITION_FALSE,
                            "Pending",
                            message.as_str(),
                            now,
                        ),
                    ),
                    into_contract_condition(
                        condition_at(
                            CONTRACT_CONDITION_VALIDATED,
                            CONDITION_FALSE,
                            "WaitingForCluster",
                            "Contract cannot be validated until cluster is ready",
                            now,
                        ),
                    ),
                ];
                assert(published.deep_view() =~= report_conditions(view, now@));
                let none: Vec<String> = Vec::new();
                assert(none.deep_view() =~= Seq::empty());
                ContractStatus {
                    phase: ContractPhase::Pending,
                    registered: false,
                    bound_topics: none,
                    message: Some(message),
                    conditions: published,
                }
            },
            ContractReport::Failed(message) => {
                let published = vec![
                    into_contract_condition(
                        condition_at(
                            CONTRACT_CONDITION_APPLIED,
                            CONDITION_FALSE,
                            "Error",
                            message.as_str(),
                            now,
                        ),
                    ),
                    into_contract_condition(
                        condition_at(
                            CONTRACT_CONDITION_VALIDATED,
                            CONDITION_FALSE,
                            "ValidationFailed",
                            message.as_str(),
                            now,
                        ),
                    ),
                ];
                assert(published.deep_view() =~= report_conditions(view, now@));
                let none: Vec<String> = Vec::new();
                assert(none.deep_view() =~= Seq::empty());
                ContractStatus {
                    phase: ContractPhase::Failed,
                    registered: false,
                    bound_topics: none,
                    message: Some(message),
                    conditions: published,
                }
            },
        }
    }
}

fn into_contract_condition(fields: ConditionFields) -> (condition: ContractCondition)
    ensures
        condition.deep_view() == fields.deep_view(),
{
    ContractCondition {
        type_: fields.condition_type,
        status: fields.status,
        last_transition_time: fields.last_transition_time,
        reason: fields.reason,
        message: fields.message,
    }
}

// ---------------------------------------------------------------------------
// Laws
// ---------------------------------------------------------------------------

/// A contract is applied only after the server has validated it: nothing but a successful
/// validation leads to the request to apply.
pub proof fn law_only_valid_contracts_are_applied(
    contract: StreamlineContractView,
    cluster: StreamlineClusterView,
    lookup: Option<StreamlineClusterView>,
    reply: ServerReplyView,
)
    ensures
        first_decision(contract) !is Apply,
        decision_on_cluster(contract, lookup) !is Apply,
        decision_on_validation(contract, cluster, reply) is Apply <==> controllers::is_success(
            reply.code,
        ),
        decision_on_application(contract, reply) !is Apply,
{
}

/// What is applied is what was validated.
pub proof fn law_the_validated_contract_is_applied(
    contract: StreamlineContractView,
    cluster: StreamlineClusterView,
    reply: ServerReplyView,
)
    requires
        controllers::takes_requests(cluster),
        controllers::is_success(reply.code),
    ensures
        decision_on_cluster(contract, Some(cluster)) matches ContractDecisionView::Validate(
            _,
            validated,
        ) && decision_on_validation(contract, cluster, reply) matches ContractDecisionView::Apply(
            _,
            applied,
        ) && validated == applied,
{
}

/// A contract is registered, and bound to topics, only in the status of an applied contract.
pub proof fn law_only_applied_contracts_are_registered(report: ContractReportView, now: Seq<char>)
    ensures
        report_status(report, now).registered <==> report is Applied,
        !(report is Applied) ==> report_status(report, now).bound_topics.len() == 0,
{
}

/// How many requests a reconcile can still make after a decision.
pub open spec fn requests_left(decision: ContractDecisionView) -> nat {
    match decision {
        ContractDecisionView::LookUpCluster => 3,
        ContractDecisionView::Validate(_, _) => 2,
        ContractDecisionView::Apply(_, _) => 1,
        _ => 0,
    }
}

/// Every reconcile ends: whatever comes back from a request, the next decision leaves fewer
/// requests to make than the one before it.
pub proof fn law_every_reconcile_ends(
    contract: StreamlineContractView,
    looked_up: Option<StreamlineClusterView>,
    cluster: StreamlineClusterView,
    reply: ServerReplyView,
)
    ensures
        requests_left(first_decision(contract)) <= 3,
        requests_left(decision_on_cluster(contract, looked_up)) < 3,
        requests_left(decision_on_validation(contract, cluster, reply)) < 2,
        requests_left(decision_on_application(contract, reply)) < 1,
{
}

} // verus!
