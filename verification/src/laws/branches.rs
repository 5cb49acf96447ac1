//! Laws of reconciling branches.

use crate::controllers::branch;
use crate::controllers::branch::{BranchDecision, BranchReport};
use crate::controllers::topic::ServerReply;
use crate::controllers::{BranchController, NextReconcile, ReconcileVerdict};
use crate::crd::{BranchPhase, BranchStatus, StreamlineBranch, StreamlineCluster};
use crate::json;
use crate::laws::clusters;
use crate::laws::requests;
use vstd::prelude::*;

verus! {

/// A branch is held back by its finalizer before anything is asked of the server, unless it is on
/// its way out.
pub proof fn law_a_branch_is_held_first(branch: StreamlineBranch, needed: bool)
    requires
        call_ensures(BranchController::needs_finalizer, (&branch,), needed),
    ensures
        needed <==> !branch.metadata.deleting && forall|i: int|
            0 <= i < branch.metadata.finalizers@.len() ==> (
            #[trigger] branch.metadata.finalizers@[i])@ != "streamline.io/branch-cleanup"@,
{
    let held = branch.metadata.finalizers.deep_view();
    assert(held == branch.deep_view().metadata.finalizers);
    assert(held.len() == branch.metadata.finalizers@.len());
    if held.contains("streamline.io/branch-cleanup"@) {
        let i = choose|i: int| 0 <= i < held.len() && held[i] == "streamline.io/branch-cleanup"@;
        assert(branch.metadata.finalizers@[i]@ == "streamline.io/branch-cleanup"@);
    } else {
        assert forall|i: int| 0 <= i < branch.metadata.finalizers@.len() implies (
        #[trigger] branch.metadata.finalizers@[i])@ != "streamline.io/branch-cleanup"@ by {
            assert(held[i] == branch.metadata.finalizers@[i]@);
        }
    }
}

/// A branch that is being deleted is cleaned up, and any other one goes on to its cluster.
pub proof fn law_a_deleted_branch_is_cleaned_up(branch: StreamlineBranch, decision: BranchDecision)
    requires
        call_ensures(BranchController::decide, (&branch,), decision),
    ensures
        branch.metadata.deleting ==> decision is CleanUp,
        !branch.metadata.deleting ==> decision is LookUpCluster,
{
    let view = decision.deep_view();
}

/// Whether a decision ends the reconcile as failed, with the given message, to be tried again
/// after half a minute.
pub open spec fn fails_with(decision: BranchDecision, message: Seq<char>) -> bool {
    &&& decision matches BranchDecision::Finish(BranchReport::Failed(said), next, verdict)
    &&& said@ == message
    &&& next == NextReconcile::After(30)
    &&& verdict == ReconcileVerdict::Uncounted
}

/// The branch is created at the first broker of its cluster, as its spec describes it, and only
/// where that cluster can serve; a cluster that cannot is waited for, and one that is not there
/// fails the branch by name.
pub proof fn law_a_branch_is_created_as_described(
    branch: StreamlineBranch,
    cluster: Option<&StreamlineCluster>,
    decision: BranchDecision,
)
    requires
        call_ensures(BranchController::decide_on_cluster, (&branch, cluster), decision),
    ensures
        decision is Create <==> cluster is Some && requests::can_serve(*cluster->0),
        decision matches BranchDecision::Create(url, request) ==> {
            &&& url@ == requests::first_broker(*cluster->0, requests::home(branch.metadata))
                + "/api/v1/branches"@
            &&& request.name@ == branch.metadata.name@
            &&& request.parent.deep_view() == branch.spec.parent.deep_view()
            &&& request.description.deep_view() == branch.spec.description.deep_view()
        },
        cluster is None ==> fails_with(
            decision,
            "Cluster "@ + branch.spec.cluster_ref@ + " not found"@,
        ),
        cluster is Some && !(decision is Create) ==> (
        decision matches BranchDecision::Finish(BranchReport::Pending(message), next, verdict)
            && message@ == "Waiting for cluster to be ready"@ && next == NextReconcile::After(10)
            && verdict == ReconcileVerdict::Uncounted),
{
    let view = decision.deep_view();
    if cluster is Some {
        let there = *cluster->0;
        assert(cluster.deep_view() == Some(there.deep_view()));
        if there.status is Some {
            let endpoints = there.status->0.broker_endpoints;
            assert(endpoints.deep_view().len() == endpoints@.len());
        }
    } else {
        assert(cluster.deep_view() is None);
    }
    if decision is Finish {
        assert(decision->Finish_0.deep_view() == view->Finish_0);
    }
}

/// A request that could not be sent fails the branch, by its name and with the reason.
pub proof fn law_an_unsent_request_fails_the_branch(
    branch: StreamlineBranch,
    failure: &str,
    decision: BranchDecision,
)
    requires
        call_ensures(BranchController::decide_on_failure, (&branch, failure), decision),
    ensures
        fails_with(
            decision,
            "Internal error: "@ + ("HTTP request to create branch "@ + branch.metadata.name@
                + " failed: "@ + failure@),
        ),
{
    let view = decision.deep_view();
    if decision is Finish {
        assert(decision->Finish_0.deep_view() == view->Finish_0);
    }
}

/// A branch is active exactly when the server created it or has it already. Only an answer that
/// reports success is believed about the creation time.
pub proof fn law_a_branch_is_active_once_it_is_there(
    branch: StreamlineBranch,
    reply: ServerReply,
    created: Option<i64>,
    decision: BranchDecision,
)
    requires
        call_ensures(BranchController::decide_on_created, (&branch, &reply, created), decision),
    ensures
        200 <= reply.code <= 299 ==> decision == BranchDecision::Finish(
            BranchReport::Active(created),
            NextReconcile::After(60),
            ReconcileVerdict::Success,
        ),
        reply.code == 409 ==> decision == BranchDecision::Finish(
            BranchReport::Active(None),
            NextReconcile::After(60),
            ReconcileVerdict::Success,
        ),
        (reply.code < 200 || reply.code > 299) && reply.code != 409 ==> fails_with(
            decision,
            "Internal error: "@ + ("Failed to create branch "@ + branch.metadata.name@ + " (HTTP "@
                + reply.status@ + "): "@ + reply.body@),
        ),
{
    let view = decision.deep_view();
    if decision is Finish {
        assert(decision->Finish_0.deep_view() == view->Finish_0);
    }
}

/// The creation time is the one that the body reports.
pub proof fn law_a_branch_was_created_when_the_body_says(
    branch: StreamlineBranch,
    reply: ServerReply,
    by_reply: BranchDecision,
    by_time: BranchDecision,
)
    requires
        call_ensures(BranchController::decide_on_reply, (&branch, &reply), by_reply),
        call_ensures(
            BranchController::decide_on_created,
            (&branch, &reply, json::json_number(reply.body@, "/created_at_ms"@)),
            by_time,
        ),
    ensures
        by_reply.deep_view() == by_time.deep_view(),
{
}

/// A branch is deleted at the first broker of its cluster, under its own name.
pub proof fn law_a_branch_is_deleted_under_its_name(
    branch: StreamlineBranch,
    cluster: StreamlineCluster,
    url: String,
)
    requires
        call_ensures(BranchController::deletion_url, (&branch, &cluster), url),
    ensures
        url@ == requests::first_broker(cluster, requests::home(branch.metadata))
            + "/api/v1/branches/"@ + branch.metadata.name@,
{
}

/// The status of a branch says what was reported: ready exactly if it is active, with the time it
/// was created, and otherwise with the message.
pub proof fn law_the_status_of_a_branch_says_what_was_reported(
    report: BranchReport,
    now: &str,
    status: BranchStatus,
)
    requires
        call_ensures(BranchController::status_of_at, (&report, now), status),
    ensures
        status.ready <==> report is Active,
        status.phase == BranchPhase::Ready <==> report is Active,
        status.phase == BranchPhase::Pending <==> report is Pending,
        status.phase == BranchPhase::Failed <==> report is Failed,
        status.message is Some,
        ({
            let said = status.conditions.deep_view();
            match report {
                BranchReport::Active(created) => {
                    &&& status.created_at_ms == created
                    &&& status.message->0@ == "Branch created successfully"@
                    &&& clusters::says(
                        said,
                        "Active"@,
                        "True"@,
                        "BranchActive"@,
                        "Branch is active and ready for reads"@,
                    )
                    &&& clusters::says(
                        said,
                        "Frozen"@,
                        "False"@,
                        "NotFrozen"@,
                        "Branch is not frozen"@,
                    )
                },
                BranchReport::Pending(m) => {
                    &&& status.created_at_ms is None
                    &&& status.message->0@ == m@
                    &&& clusters::says(said, "Active"@, "False"@, "Pending"@, m@)
                },
                BranchReport::Failed(m) => {
                    &&& status.created_at_ms is None
                    &&& status.message->0@ == m@
                    &&& clusters::says(said, "Active"@, "False"@, "Error"@, m@)
                },
            }
        }),
{
    let view = status.deep_view();
    assert(view.message == status.message.deep_view());
    let said = status.conditions.deep_view();
    assert(said == view.conditions);
    assert(said == branch::report_conditions(report.deep_view(), now@));
    reveal_strlit("Active");
    reveal_strlit("Frozen");
    assert("Active"@[0] != "Frozen"@[0]);
    assert(said[0].condition_type == "Active"@);
    if report is Active {
        assert(said[1].condition_type == "Frozen"@);
    }
}

} // verus!
