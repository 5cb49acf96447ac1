//! Laws of reconciling memories.

use crate::controllers::memory;
use crate::controllers::memory::{MemoryDecision, MemoryReport, MemoryTopicRequest};
use crate::controllers::topic::ServerReply;
use crate::controllers::{MemoryController, NextReconcile, ReconcileVerdict};
use crate::crd::{MemoryPhase, MemoryStatus, MemoryTiers, StreamlineCluster, StreamlineMemory};
use crate::laws::clusters;
use crate::laws::requests;
use crate::text;
use vstd::prelude::*;

verus! {

/// A memory is held back by its finalizer before anything is asked of the server, unless it is on
/// its way out.
pub proof fn law_a_memory_is_held_first(memory: StreamlineMemory, needed: bool)
    requires
        call_ensures(MemoryController::needs_finalizer, (&memory,), needed),
    ensures
        needed <==> !memory.metadata.deleting && forall|i: int|
            0 <= i < memory.metadata.finalizers@.len() ==> (
            #[trigger] memory.metadata.finalizers@[i])@ != "streamline.io/memory-cleanup"@,
{
    let held = memory.metadata.finalizers.deep_view();
    assert(held == memory.deep_view().metadata.finalizers);
    assert(held.len() == memory.metadata.finalizers@.len());
    if held.contains("streamline.io/memory-cleanup"@) {
        let i = choose|i: int| 0 <= i < held.len() && held[i] == "streamline.io/memory-cleanup"@;
        assert(memory.metadata.finalizers@[i]@ == "streamline.io/memory-cleanup"@);
    } else {
        assert forall|i: int| 0 <= i < memory.metadata.finalizers@.len() implies (
        #[trigger] memory.metadata.finalizers@[i])@ != "streamline.io/memory-cleanup"@ by {
            assert(held[i] == memory.metadata.finalizers@[i]@);
        }
    }
}

/// A memory that is being deleted is cleaned up, and any other one goes on to its cluster.
pub proof fn law_a_deleted_memory_is_cleaned_up(memory: StreamlineMemory, decision: MemoryDecision)
    requires
        call_ensures(MemoryController::decide, (&memory,), decision),
    ensures
        memory.metadata.deleting ==> decision is CleanUp,
        !memory.metadata.deleting ==> decision is LookUpCluster,
{
    let view = decision.deep_view();
}

/// Whether a decision ends the reconcile as failed, with the given message, to be tried again
/// after half a minute.
pub open spec fn fails_with(decision: MemoryDecision, message: Seq<char>) -> bool {
    &&& decision matches MemoryDecision::Finish(MemoryReport::Failed(said), next, verdict)
    &&& said@ == message
    &&& next == NextReconcile::After(30)
    &&& verdict == ReconcileVerdict::Uncounted
}

/// The name of the topic that holds a tier of a memory.
pub open spec fn topic_of(memory: StreamlineMemory, tier: Seq<char>) -> Seq<char> {
    "_memory."@ + memory.spec.tenant@ + "."@ + memory.spec.agent_id@ + "."@ + tier
}

/// The tiers, in the order in which they are created.
pub open spec fn tier(i: int) -> Seq<char> {
    if i == 0 {
        "episodic"@
    } else if i == 1 {
        "semantic"@
    } else {
        "procedural"@
    }
}

/// The topic of a tier is named after the tenant, the agent and the tier.
pub proof fn law_a_tier_has_its_topic(memory: StreamlineMemory, tier: &str, name: String)
    requires
        call_ensures(MemoryController::topic_name, (&memory, tier), name),
    ensures
        name@ == topic_of(memory, tier@),
{
}

/// A day is kept for 24 hours of 60 minutes of 60 seconds of a thousand milliseconds, and any
/// negative number of days without limit.
pub proof fn law_retention_is_told_in_milliseconds(days: i64, ms: i64)
    requires
        days <= 106_751_991_167,
        call_ensures(MemoryController::retention_ms, (days,), ms),
    ensures
        days < 0 ==> ms == -1,
        days >= 0 ==> ms == days * (24 * 60 * 60 * 1000),
{
}

/// A retention is told in milliseconds up to the number of days that 64 bits hold.
pub proof fn law_long_retentions_do_not_fit(tiers: MemoryTiers, fit: bool)
    requires
        call_ensures(MemoryController::retentions_fit, (&tiers,), fit),
    ensures
        fit <==> tiers.episodic_retention_days * 86_400_000 <= i64::MAX
            && tiers.semantic_retention_days * 86_400_000 <= i64::MAX
            && tiers.procedural_retention_days * 86_400_000 <= i64::MAX,
{
}

/// Whether a request asks for the topic of a tier: one partition in one copy, compacted, and kept
/// as many days as the tier says.
pub open spec fn asks_for_tier(
    request: MemoryTopicRequest,
    memory: StreamlineMemory,
    i: int,
) -> bool {
    let days = if i == 0 {
        memory.spec.tiers.episodic_retention_days
    } else if i == 1 {
        memory.spec.tiers.semantic_retention_days
    } else {
        memory.spec.tiers.procedural_retention_days
    };
    &&& request.name@ == topic_of(memory, tier(i))
    &&& request.partitions == 1
    &&& request.replication_factor == 1
    &&& request.cleanup_policy@ == "compact,delete"@
    &&& request.retention_ms is None <==> days < 0
    &&& request.retention_ms is Some ==> request.retention_ms->0@ == text::decimal(
        days * 86_400_000,
    )
}

/// Whether a decision asks the first broker of a cluster for the topic of a tier.
pub open spec fn creates_tier(
    decision: MemoryDecision,
    memory: StreamlineMemory,
    cluster: StreamlineCluster,
    i: int,
) -> bool {
    &&& decision matches MemoryDecision::CreateTopic(at, url, request)
    &&& at == i
    &&& url@ == requests::first_broker(cluster, requests::home(memory.metadata))
        + "/api/v1/topics"@
    &&& asks_for_tier(request, memory, i)
}

proof fn lemma_creates_tier(
    decision: MemoryDecision,
    memory: StreamlineMemory,
    cluster: StreamlineCluster,
    i: int,
)
    requires
        0 <= i < 3,
        decision.deep_view() == memory::creation(memory.deep_view(), cluster.deep_view(), i),
    ensures
        creates_tier(decision, memory, cluster, i),
{
    let view = decision.deep_view();
    let request = decision->CreateTopic_2;
    assert(request.deep_view() == view->CreateTopic_2);
    assert(request.deep_view().retention_ms == request.retention_ms.deep_view());
}

/// The topic of the first tier is created first, where the cluster of the memory can serve; a
/// cluster that cannot is waited for, and one that is not there fails the memory by name.
pub proof fn law_the_first_tier_is_created_first(
    memory: StreamlineMemory,
    cluster: Option<&StreamlineCluster>,
    decision: MemoryDecision,
)
    requires
        call_ensures(MemoryController::decide_on_cluster, (&memory, cluster), decision),
    ensures
        decision is CreateTopic <==> cluster is Some && requests::can_serve(*cluster->0),
        decision is CreateTopic ==> creates_tier(decision, memory, *cluster->0, 0),
        cluster is None ==> fails_with(
            decision,
            "Cluster "@ + memory.spec.cluster_ref@ + " not found"@,
        ),
        cluster is Some && !(decision is CreateTopic) ==> (
        decision matches MemoryDecision::Finish(MemoryReport::Pending(message), next, verdict)
            && message@ == "Waiting for cluster to be ready"@ && next == NextReconcile::After(10)
            && verdict == ReconcileVerdict::Uncounted),
{
    let view = decision.deep_view();
    if cluster is Some {
        let there = *cluster->0;
        assert(cluster.deep_view() == Some(there.deep_view()));
        if there.status is Some {
            let endpoints = there.status->0.broker_endpoints;
            assert(endpoints.deep_view().len() == endpoints@.len());
        }
    } else {
        assert(cluster.deep_view() is None);
    }
    if decision is CreateTopic {
        lemma_creates_tier(decision, memory, *cluster->0, 0);
    }
    if decision is Finish {
        assert(decision->Finish_0.deep_view() == view->Finish_0);
    }
}

/// Tier follows tier once the server took its topic or has it already, and the memory is ready
/// after the third. Any other answer fails the memory, by the name of the topic.
pub proof fn law_every_tier_is_created_in_turn(
    memory: StreamlineMemory,
    cluster: StreamlineCluster,
    i: usize,
    reply: ServerReply,
    decision: MemoryDecision,
)
    requires
        i < 3,
        call_ensures(MemoryController::decide_on_reply, (&memory, &cluster, i, &reply), decision),
    ensures
        ({
            let taken = 200 <= reply.code <= 299 || reply.code == 409;
            &&& taken && i < 2 ==> creates_tier(decision, memory, cluster, i + 1)
            &&& taken && i == 2 ==> decision == MemoryDecision::Finish(
                MemoryReport::Ready,
                NextReconcile::After(60),
                ReconcileVerdict::Success,
            )
            &&& !taken ==> fails_with(
                decision,
                "Internal error: "@ + ("Failed to create memory topic "@ + topic_of(
                    memory,
                    tier(i as int),
                ) + " (HTTP "@ + reply.status@ + "): "@ + reply.body@),
            )
        }),
{
    let view = decision.deep_view();
    if decision is CreateTopic {
        lemma_creates_tier(decision, memory, cluster, i + 1);
    }
    if decision is Finish {
        assert(decision->Finish_0.deep_view() == view->Finish_0);
    }
}

/// A request that could not be sent fails the memory, by the name of the topic and with the
/// reason.
pub proof fn law_an_unsent_request_fails_the_memory(
    memory: StreamlineMemory,
    i: usize,
    cause: &str,
    decision: MemoryDecision,
)
    requires
        i < 3,
        call_ensures(MemoryController::decide_on_failure, (&memory, i, cause), decision),
    ensures
        fails_with(
            decision,
            "Internal error: "@ + ("HTTP request to create memory topic "@ + topic_of(
                memory,
                tier(i as int),
            ) + " failed: "@ + cause@),
        ),
{
    let view = decision.deep_view();
    if decision is Finish {
        assert(decision->Finish_0.deep_view() == view->Finish_0);
    }
}

/// Deleting a memory deletes the topic of each tier, and no other.
pub proof fn law_every_tier_is_deleted(
    memory: StreamlineMemory,
    cluster: StreamlineCluster,
    urls: Vec<String>,
    i: int,
)
    requires
        call_ensures(MemoryController::deletion_urls, (&memory, &cluster), urls),
        0 <= i < 3,
    ensures
        urls@.len() == 3,
        urls@[i]@ == requests::first_broker(cluster, requests::home(memory.metadata))
            + "/api/v1/topics/"@ + topic_of(memory, tier(i)),
{
    let all = urls.deep_view();
    assert(all.len() == urls@.len());
    assert(all[i] == urls@[i]@);
}

/// The status of a memory says what was reported: ready exactly if every tier is there, and
/// otherwise with the message; it counts no event.
pub proof fn law_the_status_of_a_memory_says_what_was_reported(
    report: MemoryReport,
    now: &str,
    status: MemoryStatus,
)
    requires
        call_ensures(MemoryController::status_of_at, (&report, now), status),
    ensures
        status.ready <==> report is Ready,
        status.phase == MemoryPhase::Ready <==> report is Ready,
        status.phase == MemoryPhase::Pending <==> report is Pending,
        status.phase == MemoryPhase::Failed <==> report is Failed,
        status.episodic_event_count == 0,
        status.semantic_event_count == 0,
        status.procedural_event_count == 0,
        status.message is Some,
        ({
            let said = status.conditions.deep_view();
            match report {
                MemoryReport::Ready => {
                    &&& status.message->0@ == "Memory topics provisioned successfully"@
                    &&& clusters::says(
                        said,
                        "Ready"@,
                        "True"@,
                        "MemoryReady"@,
                        "Memory topics provisioned and ready"@,
                    )
                    &&& clusters::says(
                        said,
                        "TopicsProvisioned"@,
                        "True"@,
                        "AllTiersProvisioned"@,
                        "Episodic, semantic, and procedural topics created"@,
                    )
                },
                MemoryReport::Pending(m) => {
                    &&& status.message->0@ == m@
                    &&& clusters::says(said, "Ready"@, "False"@, "Pending"@, m@)
                    &&& clusters::says(
                        said,
                        "TopicsProvisioned"@,
                        "False"@,
                        "WaitingForCluster"@,
                        "Memory topics cannot be provisioned until cluster is ready"@,
                    )
                },
                MemoryReport::Failed(m) => {
                    &&& status.message->0@ == m@
                    &&& clusters::says(said, "Ready"@, "False"@, "Error"@, m@)
                    &&& clusters::says(
                        said,
                        "TopicsProvisioned"@,
                        "False"@,
                        "ProvisioningFailed"@,
                        m@,
                    )
                },
            }
        }),
{
    let view = status.deep_view();
    assert(view.message == status.message.deep_view());
    let said = status.conditions.deep_view();
    assert(said == view.conditions);
    assert(said == memory::report_conditions(report.deep_view(), now@));
    reveal_strlit("Ready");
    reveal_strlit("TopicsProvisioned");
    assert("Ready"@[0] != "TopicsProvisioned"@[0]);
    assert(said[0].condition_type == "Ready"@);
    assert(said[1].condition_type == "TopicsProvisioned"@);
}

} // verus!
