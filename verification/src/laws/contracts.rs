//! Laws of reconciling contracts.

use crate::controllers::contract;
use crate::controllers::contract::{ContractDecision, ContractReport, ContractRequest};
use crate::controllers::topic::ServerReply;
use crate::controllers::{ContractController, NextReconcile, ReconcileVerdict};
use crate::crd::{
    ContractCompatibility, ContractPhase, ContractStatus, StreamlineCluster, StreamlineContract,
};
use crate::laws::clusters;
use crate::laws::requests;
use vstd::prelude::*;

verus! {

/// A contract is held back by its finalizer before anything is asked of the server, unless it is on
/// its way out.
pub proof fn law_a_contract_is_held_first(contract: StreamlineContract, needed: bool)
    requires
        call_ensures(ContractController::needs_finalizer, (&contract,), needed),
    ensures
        needed <==> !contract.metadata.deleting && forall|i: int|
            0 <= i < contract.metadata.finalizers@.len() ==> (
            #[trigger] contract.metadata.finalizers@[i])@ != "streamline.io/contract-cleanup"@,
{
    let held = contract.metadata.finalizers.deep_view();
    assert(held == contract.deep_view().metadata.finalizers);
    assert(held.len() == contract.metadata.finalizers@.len());
    if held.contains("streamline.io/contract-cleanup"@) {
        let i = choose|i: int| 0 <= i < held.len() && held[i] == "streamline.io/contract-cleanup"@;
        assert(contract.metadata.finalizers@[i]@ == "streamline.io/contract-cleanup"@);
    } else {
        assert forall|i: int| 0 <= i < contract.metadata.finalizers@.len() implies (
        #[trigger] contract.metadata.finalizers@[i])@ != "streamline.io/contract-cleanup"@ by {
            assert(held[i] == contract.metadata.finalizers@[i]@);
        }
    }
}

/// A contract that is being deleted is cleaned up, and any other one goes on to its cluster.
pub proof fn law_a_deleted_contract_is_cleaned_up(contract: StreamlineContract, decision: ContractDecision)
    requires
        call_ensures(ContractController::decide, (&contract,), decision),
    ensures
        contract.metadata.deleting ==> decision is CleanUp,
        !contract.metadata.deleting ==> decision is LookUpCluster,
{
    let view = decision.deep_view();
}

/// Whether a decision ends the reconcile as failed, with the given message, to be tried again
/// after half a minute.
pub open spec fn fails_with(decision: ContractDecision, message: Seq<char>) -> bool {
    &&& decision matches ContractDecision::Finish(ContractReport::Failed(said), next, verdict)
    &&& said@ == message
    &&& next == NextReconcile::After(30)
    &&& verdict == ReconcileVerdict::Uncounted
}

/// Whether a request carries a contract as its spec has it.
pub open spec fn carries(request: ContractRequest, contract: StreamlineContract) -> bool {
    &&& request.name@ == contract.metadata.name@
    &&& request.schema@ == contract.spec.schema_json@
    &&& request.compatibility@ == match contract.spec.compatibility {
        ContractCompatibility::Backward => "BACKWARD"@,
        ContractCompatibility::Forward => "FORWARD"@,
        ContractCompatibility::Full => "FULL"@,
        ContractCompatibility::Unchecked => "NONE"@,
    }
    &&& request.bind_topics.deep_view() == contract.spec.bind_topics.deep_view()
}

/// The contract is validated first, whole, at the first broker of its cluster, and only where that
/// cluster can serve; a cluster that cannot is waited for, and one that is not there fails the
/// contract by name.
pub proof fn law_a_contract_is_validated_first(
    contract: StreamlineContract,
    cluster: Option<&StreamlineCluster>,
    decision: ContractDecision,
)
    requires
        call_ensures(ContractController::decide_on_cluster, (&contract, cluster), decision),
    ensures
        decision is Validate <==> cluster is Some && requests::can_serve(*cluster->0),
        decision matches ContractDecision::Validate(url, request) ==> {
            &&& url@ == requests::first_broker(*cluster->0, requests::home(contract.metadata))
                + "/api/v1/contracts/validate"@
            &&& carries(request, contract)
        },
        cluster is None ==> fails_with(
            decision,
            "Cluster "@ + contract.spec.cluster_ref@ + " not found"@,
        ),
        cluster is Some && !(decision is Validate) ==> (
        decision matches ContractDecision::Finish(ContractReport::Pending(message), next, verdict)
            && message@ == "Waiting for cluster to be ready"@ && next == NextReconcile::After(10)
            && verdict == ReconcileVerdict::Uncounted),
{
    let view = decision.deep_view();
    if cluster is Some {
        let there = *cluster->0;
        assert(cluster.deep_view() == Some(there.deep_view()));
        if there.status is Some {
            let endpoints = there.status->0.broker_endpoints;
            assert(endpoints.deep_view().len() == endpoints@.len());
        }
    } else {
        assert(cluster.deep_view() is None);
    }
    if decision is Finish {
        assert(decision->Finish_0.deep_view() == view->Finish_0);
    }
}

/// A contract is applied, whole, exactly when the server reports that it is valid. Any other
/// answer fails it, a conflict among them.
pub proof fn law_only_a_valid_contract_is_applied(
    contract: StreamlineContract,
    cluster: StreamlineCluster,
    reply: ServerReply,
    decision: ContractDecision,
)
    requires
        call_ensures(
            ContractController::decide_on_validation,
            (&contract, &cluster, &reply),
            decision,
        ),
    ensures
        200 <= reply.code <= 299 ==> (decision matches ContractDecision::Apply(url, request) && url@
            == requests::first_broker(cluster, requests::home(contract.metadata))
            + "/api/v1/contracts"@ && carries(request, contract)),
        reply.code < 200 || reply.code > 299 ==> fails_with(
            decision,
            "Reconciliation error: "@ + ("Contract validation failed (HTTP "@ + reply.status@
                + "): "@ + reply.body@),
        ),
{
    let view = decision.deep_view();
    if decision is Finish {
        assert(decision->Finish_0.deep_view() == view->Finish_0);
    }
}

/// A contract is applied exactly when the server took it or has it already, and then to the topics
/// that its spec binds.
pub proof fn law_an_applied_contract_binds_its_topics(
    contract: StreamlineContract,
    reply: ServerReply,
    decision: ContractDecision,
)
    requires
        call_ensures(ContractController::decide_on_application, (&contract, &reply), decision),
    ensures
        200 <= reply.code <= 299 || reply.code == 409 ==> (
        decision matches ContractDecision::Finish(ContractReport::Applied(bound), next, verdict)
            && bound.deep_view() == contract.spec.bind_topics.deep_view() && next
            == NextReconcile::After(60) && verdict == ReconcileVerdict::Success),
        (reply.code < 200 || reply.code > 299) && reply.code != 409 ==> fails_with(
            decision,
            "Internal error: "@ + ("Failed to apply contract "@ + contract.metadata.name@
                + " (HTTP "@ + reply.status@ + "): "@ + reply.body@),
        ),
{
    let view = decision.deep_view();
    if decision is Finish {
        assert(decision->Finish_0.deep_view() == view->Finish_0);
    }
}

/// A request that could not be sent fails the contract, by its name and with the reason.
pub proof fn law_an_unsent_request_fails_the_contract(
    contract: StreamlineContract,
    cause: &str,
    on_validation: ContractDecision,
    on_application: ContractDecision,
)
    requires
        call_ensures(
            ContractController::decide_on_validation_failure,
            (&contract, cause),
            on_validation,
        ),
        call_ensures(
            ContractController::decide_on_application_failure,
            (&contract, cause),
            on_application,
        ),
    ensures
        fails_with(
            on_validation,
            "Internal error: "@ + ("HTTP request to validate contract "@ + contract.metadata.name@
                + " failed: "@ + cause@),
        ),
        fails_with(
            on_application,
            "Internal error: "@ + ("HTTP request to apply contract "@ + contract.metadata.name@
                + " failed: "@ + cause@),
        ),
{
    let one = on_validation.deep_view();
    let other = on_application.deep_view();
    if on_validation is Finish {
        assert(on_validation->Finish_0.deep_view() == one->Finish_0);
    }
    if on_application is Finish {
        assert(on_application->Finish_0.deep_view() == other->Finish_0);
    }
}

/// A contract is deleted at the first broker of its cluster, under its own name.
pub proof fn law_a_contract_is_deleted_under_its_name(
    contract: StreamlineContract,
    cluster: StreamlineCluster,
    url: String,
)
    requires
        call_ensures(ContractController::deletion_url, (&contract, &cluster), url),
    ensures
        url@ == requests::first_broker(cluster, requests::home(contract.metadata))
            + "/api/v1/contracts/"@ + contract.metadata.name@,
{
}

/// The status of a contract says what was reported: registered, and bound to topics, exactly if
/// it was applied, and otherwise with the message.
pub proof fn law_the_status_of_a_contract_says_what_was_reported(
    report: ContractReport,
    now: &str,
    status: ContractStatus,
)
    requires
        call_ensures(ContractController::status_of_at, (report, now), status),
    ensures
        status.registered <==> report is Applied,
        status.phase == ContractPhase::Active <==> report is Applied,
        status.phase == ContractPhase::Pending <==> report is Pending,
        status.phase == ContractPhase::Failed <==> report is Failed,
        status.message is Some,
        !(report is Applied) ==> status.bound_topics@.len() == 0,
        ({
            let said = status.conditions.deep_view();
            match report {
                ContractReport::Applied(bound) => {
                    &&& status.bound_topics.deep_view() == bound.deep_view()
                    &&& status.message->0@ == "Contract applied successfully"@
                    &&& clusters::says(
                        said,
                        "Applied"@,
                        "True"@,
                        "ContractApplied"@,
                        "Contract successfully applied to the cluster"@,
                    )
                    &&& clusters::says(
                        said,
                        "Validated"@,
                        "True"@,
                        "SchemaValid"@,
                        "Contract schema validated successfully"@,
                    )
                },
                ContractReport::Pending(m) => {
                    &&& status.message->0@ == m@
                    &&& clusters::says(said, "Applied"@, "False"@, "Pending"@, m@)
                    &&& clusters::says(
                        said,
                        "Validated"@,
                        "False"@,
                        "WaitingForCluster"@,
                        "Contract cannot be validated until cluster is ready"@,
                    )
                },
                ContractReport::Failed(m) => {
                    &&& status.message->0@ == m@
                    &&& clusters::says(said, "Applied"@, "False"@, "Error"@, m@)
                    &&& clusters::says(said, "Validated"@, "False"@, "ValidationFailed"@, m@)
                },
            }
        }),
{
    let view = status.deep_view();
    assert(view.message == status.message.deep_view());
    assert(view.bound_topics == status.bound_topics.deep_view());
    assert(view.bound_topics.len() == status.bound_topics@.len());
    let said = status.conditions.deep_view();
    assert(said == view.conditions);
    assert(said == contract::report_conditions(report.deep_view(), now@));
    reveal_strlit("Applied");
    reveal_strlit("Validated");
    assert("Applied"@[0] != "Validated"@[0]);
    assert(said[0].condition_type == "Applied"@);
    assert(said[1].condition_type == "Validated"@);
}

/// Each policy has its own name.
pub proof fn law_each_policy_has_its_name(policy: ContractCompatibility, name: &'static str)
    requires
        call_ensures(ContractCompatibility::as_text, (&policy,), name),
    ensures
        policy == ContractCompatibility::Backward ==> name@ == "BACKWARD"@,
        policy == ContractCompatibility::Forward ==> name@ == "FORWARD"@,
        policy == ContractCompatibility::Full ==> name@ == "FULL"@,
        policy == ContractCompatibility::Unchecked ==> name@ == "NONE"@,
{
}

} // verus!
