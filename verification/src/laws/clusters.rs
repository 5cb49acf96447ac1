//! Laws of reconciling clusters: the steps, the ready count and the published status.

use crate::conditions;
use crate::conditions::ConditionView;
use crate::controllers::cluster;
use crate::controllers::cluster::{
    ClusterPlan, ClusterStep, PodConditionView, PodReport, PodReportView,
};
use crate::controllers::{ClusterController, NextReconcile, ReconcileVerdict};
use crate::crd::cluster::ClusterStatusView;
use crate::crd::{ClusterPhase, ClusterSpec, ClusterStatus, StreamlineCluster};
use crate::manifests::{Service, StatefulSet};
use crate::text;
use vstd::prelude::*;

verus! {

/// Whether `first` is taken before `second`.
pub open spec fn taken_before(
    steps: Seq<ClusterStep>,
    first: ClusterStep,
    second: ClusterStep,
) -> bool {
    exists|i: int, j: int|
        0 <= i < j < steps.len() && #[trigger] steps[i] == first && #[trigger] steps[j] == second
}

/// A cluster that is not being deleted and passes validation gets its whole workload: the
/// configuration, both Services and the StatefulSet are applied, in this order, and the status
/// is observed once all of them are there. Nothing is taken away but a stale autoscaler, no step
/// is taken twice, and the reconcile counts as a success.
pub proof fn law_a_valid_cluster_gets_its_workload(cluster: StreamlineCluster, plan: ClusterPlan)
    requires
        call_ensures(ClusterController::plan, (&cluster,), plan),
        call_ensures(ClusterSpec::validate, (&cluster.spec,), Ok(())),
        !cluster.metadata.deleting,
    ensures
        ({
            let steps = plan.steps@;
            &&& taken_before(steps, ClusterStep::ApplyConfigMap, ClusterStep::ApplyHeadlessService)
            &&& taken_before(
                steps,
                ClusterStep::ApplyHeadlessService,
                ClusterStep::ApplyClientService,
            )
            &&& taken_before(steps, ClusterStep::ApplyClientService, ClusterStep::ApplyStatefulSet)
            &&& taken_before(
                steps,
                ClusterStep::ApplyStatefulSet,
                ClusterStep::PublishObservedStatus,
            )
            &&& steps.last() == ClusterStep::PublishObservedStatus
            &&& steps.no_duplicates()
            &&& !steps.contains(ClusterStep::PublishInvalidStatus)
            &&& !steps.contains(ClusterStep::CleanUpVolumes)
            &&& !steps.contains(ClusterStep::RemoveFinalizer)
        }),
        plan.next == NextReconcile::After(60),
        plan.verdict == ReconcileVerdict::Success,
{
    let steps = plan.steps@;
    assert(plan.steps.deep_view() =~= steps);
    let n = steps.len() as int;
    let scaled = steps[n - 2] == ClusterStep::ApplyHpa;
    let at = if scaled {
        n - 6
    } else {
        n - 5
    };
    assert(steps[at] == ClusterStep::ApplyConfigMap);
    assert(steps[at + 1] == ClusterStep::ApplyHeadlessService);
    assert(steps[at + 2] == ClusterStep::ApplyClientService);
    assert(steps[at + 3] == ClusterStep::ApplyStatefulSet);
    assert(steps[n - 1] == ClusterStep::PublishObservedStatus);
}

/// A cluster that fails validation and is not being deleted has its refusal published as the
/// last step, and nothing applied or cleaned up; it is looked at again after five minutes, and
/// the reconcile counts as an error.
pub proof fn law_a_refused_cluster_is_only_reported(
    cluster: StreamlineCluster,
    plan: ClusterPlan,
    errors: Vec<String>,
)
    requires
        call_ensures(ClusterController::plan, (&cluster,), plan),
        call_ensures(ClusterSpec::validate, (&cluster.spec,), Err(errors)),
        !cluster.metadata.deleting,
    ensures
        ({
            let steps = plan.steps@;
            &&& steps.len() > 0
            &&& steps.last() == ClusterStep::PublishInvalidStatus
            &&& forall|i: int|
                0 <= i < steps.len() - 1 ==> #[trigger] steps[i] == ClusterStep::AddFinalizer
                    || steps[i] == ClusterStep::DeleteHpa
            &&& steps.no_duplicates()
        }),
        plan.next == NextReconcile::After(300),
        plan.verdict == ReconcileVerdict::Error,
{
    assert(plan.steps.deep_view() =~= plan.steps@);
}

/// A cluster that is being deleted has its volumes cleaned up and then its finalizer removed,
/// and nothing else happens to it, whatever its spec says.
pub proof fn law_a_deleted_cluster_is_cleaned_up_and_released(
    cluster: StreamlineCluster,
    plan: ClusterPlan,
)
    requires
        call_ensures(ClusterController::plan, (&cluster,), plan),
        cluster.metadata.deleting,
    ensures
        plan.steps@.len() == 2,
        plan.steps@[0] == ClusterStep::CleanUpVolumes,
        plan.steps@[1] == ClusterStep::RemoveFinalizer,
        plan.next == NextReconcile::AwaitChange,
        plan.verdict == ReconcileVerdict::Uncounted,
{
    assert(plan.steps.deep_view() =~= plan.steps@);
}

/// A cluster that is not being deleted is held by the finalizer before anything else happens:
/// the finalizer is set first where it is missing, and never where it is there. A stale
/// autoscaler is deleted before anything is applied or published.
pub proof fn law_the_finalizer_comes_first(cluster: StreamlineCluster, plan: ClusterPlan)
    requires
        call_ensures(ClusterController::plan, (&cluster,), plan),
        !cluster.metadata.deleting,
    ensures
        ({
            let steps = plan.steps@;
            let held = cluster.metadata.finalizers.deep_view().contains(
                "streamline.io/cluster-cleanup"@,
            );
            &&& held ==> steps.len() > 0 && steps[0] == ClusterStep::DeleteHpa && !steps.contains(
                ClusterStep::AddFinalizer,
            )
            &&& !held ==> steps.len() > 1 && steps[0] == ClusterStep::AddFinalizer && steps[1]
                == ClusterStep::DeleteHpa
            &&& !steps.contains(ClusterStep::ApplyHpa)
        }),
{
    let view = cluster.deep_view();
    assert(plan.steps.deep_view() =~= plan.steps@);
    cluster::law_stale_autoscalers_are_always_removed(view);
    if view.spec.autoscaling is Some && view.spec.autoscaling->0.enabled {
        crate::crd::cluster::law_enabled_autoscaling_is_never_accepted(view.spec);
        assert(crate::crd::cluster::violations(view.spec).len() > 0);
    }
}

// ---------------------------------------------------------------------------
// Ready count
// ---------------------------------------------------------------------------

/// Whether a condition is the one that makes a pod ready.
pub open spec fn is_true_ready(condition: PodConditionView) -> bool {
    condition.type_ == "Ready"@ && condition.status == "True"@
}

/// One pod counts as ready exactly when it has published a condition of type `Ready` with
/// status `True`, wherever that condition stands.
pub proof fn law_a_pod_is_ready_by_any_of_its_conditions(pods: Vec<PodReport>, count: i32)
    requires
        call_ensures(ClusterController::count_ready, (&pods,), count),
        pods@.len() == 1,
    ensures
        count == 0 || count == 1,
        count == 1 <==> pods@[0].conditions is Some && exists|i: int|
            0 <= i < pods@[0].conditions->0@.len() && is_true_ready(
                (#[trigger] pods@[0].conditions->0@[i]).deep_view(),
            ),
{
    reveal(Seq::filter);
    let all = pods.deep_view();
    let ready = |pod: PodReportView| cluster::pod_is_ready(pod);
    assert(all.drop_last() =~= Seq::empty());
    assert(all.drop_last().filter(ready).len() == 0);
    assert(all.last() == pods@[0].deep_view());
    if pods@[0].conditions is Some {
        let reported = pods@[0].conditions->0;
        assert(pods@[0].deep_view().conditions->0 =~= reported.deep_view());
        assert forall|i: int| 0 <= i < reported@.len() implies reported.deep_view()[i]
            == #[trigger] reported@[i].deep_view() by {}
    }
}

/// The ready count of two groups of pods together is the sum of their ready counts, so the
/// order of the pods does not matter.
pub proof fn law_ready_counts_add_up(
    some: Vec<PodReport>,
    others: Vec<PodReport>,
    all: Vec<PodReport>,
    ready_some: i32,
    ready_others: i32,
    ready: i32,
)
    requires
        call_ensures(ClusterController::count_ready, (&some,), ready_some),
        call_ensures(ClusterController::count_ready, (&others,), ready_others),
        call_ensures(ClusterController::count_ready, (&all,), ready),
        all@ == some@ + others@,
        all@.len() <= i32::MAX,
    ensures
        ready == ready_some + ready_others,
        0 <= ready <= all@.len(),
{
    let kept = |pod: PodReportView| cluster::pod_is_ready(pod);
    assert(all.deep_view() =~= some.deep_view() + others.deep_view());
    Seq::filter_distributes_over_add(some.deep_view(), others.deep_view(), kept);
    some.deep_view().lemma_filter_len(kept);
    others.deep_view().lemma_filter_len(kept);
}

// ---------------------------------------------------------------------------
// Status
// ---------------------------------------------------------------------------

/// The status of an observed cluster says what was observed and of what: the ready count, the
/// desired count and the generation. The phase follows the two counts.
pub proof fn law_the_status_carries_the_counts(
    cluster: StreamlineCluster,
    namespace: &str,
    ready: i32,
    now: &str,
    status: ClusterStatus,
)
    requires
        call_ensures(
            ClusterController::observed_status_at,
            (&cluster, namespace, ready, now),
            status,
        ),
    ensures
        status.ready_replicas == ready,
        status.replicas == cluster.spec.replicas,
        status.observed_generation == cluster.metadata.generation,
        status.leader_id is None,
        status.phase == ClusterPhase::Running <==> ready == cluster.spec.replicas,
        status.phase == ClusterPhase::Scaling <==> ready != cluster.spec.replicas && ready > 0,
        status.phase == ClusterPhase::Pending <==> ready != cluster.spec.replicas && ready <= 0,
{
    let observed = status.deep_view();
}

/// The status lists one address per desired broker: that of the pod with its ordinal behind the
/// headless Service, at the port that serves clients.
pub proof fn law_brokers_are_addressed_behind_the_headless_service(
    cluster: StreamlineCluster,
    namespace: &str,
    ready: i32,
    now: &str,
    status: ClusterStatus,
    service: Service,
    set: StatefulSet,
    i: int,
)
    requires
        call_ensures(
            ClusterController::observed_status_at,
            (&cluster, namespace, ready, now),
            status,
        ),
        call_ensures(ClusterController::build_headless_service, (&cluster, namespace), service),
        call_ensures(ClusterController::build_statefulset, (&cluster, namespace), set),
        0 <= i < cluster.spec.replicas,
    ensures
        status.broker_endpoints@.len() == cluster.spec.replicas,
        service.metadata.name is Some && set.metadata.name is Some,
        status.broker_endpoints@[i]@ == set.metadata.name->0@ + "-"@ + text::decimal(i) + "."@
            + service.metadata.name->0@ + "."@ + namespace@ + ".svc:"@ + text::decimal(
            cluster.spec.kafka_port as int,
        ),
        set.spec is Some && set.spec->0.service_name@ == service.metadata.name->0@,
{
    let endpoints = status.deep_view().broker_endpoints;
    assert(endpoints == status.broker_endpoints.deep_view());
    assert(endpoints.len() == status.broker_endpoints@.len());
    assert(endpoints[i] == status.broker_endpoints@[i]@);
    let name = cluster.metadata.name@;
    reveal_strlit("-headless");
    reveal_strlit("-headless.");
    reveal_strlit(".");
    assert("-headless."@ =~= "-headless"@ + "."@);
    let front = name + "-"@ + text::decimal(i) + "."@;
    assert(service.deep_view().metadata.name == Some(name + "-headless"@));
    assert(set.deep_view().metadata.name == Some(name));
    assert(front + name + "-headless."@ =~= front + (name + "-headless"@) + "."@);
}

/// A status lists no address where no broker is desired.
pub proof fn law_no_broker_has_no_address(
    cluster: StreamlineCluster,
    namespace: &str,
    ready: i32,
    now: &str,
    status: ClusterStatus,
)
    requires
        call_ensures(
            ClusterController::observed_status_at,
            (&cluster, namespace, ready, now),
            status,
        ),
        cluster.spec.replicas <= 0,
    ensures
        status.broker_endpoints@.len() == 0,
{
    let endpoints = status.deep_view().broker_endpoints;
    assert(endpoints == status.broker_endpoints.deep_view());
    assert(endpoints.len() == status.broker_endpoints@.len());
}

/// Whether the first condition of a type has the given status, reason and message.
pub open spec fn says(
    published: Seq<ConditionView>,
    ty: Seq<char>,
    status: Seq<char>,
    reason: Seq<char>,
    message: Seq<char>,
) -> bool {
    exists|i: int|
        0 <= i < published.len() && (#[trigger] published[i]).condition_type == ty && (forall|j: int|
            0 <= j < i ==> (#[trigger] published[j]).condition_type != ty) && published[i].status
            == status && published[i].reason == Some(reason) && published[i].message == Some(
            message,
        )
}

/// A condition that recording would not change is one that the list says.
pub proof fn lemma_settled_is_said(published: Seq<ConditionView>, new: ConditionView)
    requires
        conditions::settled(published, new),
        new.reason is Some,
        new.message is Some,
    ensures
        says(published, new.condition_type, new.status, new.reason->0, new.message->0),
{
    conditions::lemma_position(published, new.condition_type);
    let at = conditions::position(published, new.condition_type);
    assert(published[at].condition_type == new.condition_type);
}

/// Whatever a cluster published before, the conditions of its status say how the ready count
/// stands to the desired one: ready and not degraded at exactly the desired count, available
/// with at least one ready broker, and progressing while the counts differ.
pub proof fn law_the_conditions_say_how_the_counts_stand(
    cluster: StreamlineCluster,
    namespace: &str,
    ready: i32,
    now: &str,
    status: ClusterStatus,
)
    requires
        call_ensures(
            ClusterController::observed_status_at,
            (&cluster, namespace, ready, now),
            status,
        ),
    ensures
        ({
            let said = status.conditions.deep_view();
            let desired = cluster.spec.replicas;
            let have = text::decimal(ready as int);
            let want = text::decimal(desired as int);
            let counts = have + "/"@ + want + " brokers ready"@;
            &&& ready == desired ==> {
                &&& says(said, "Ready"@, "True"@, "AllBrokersReady"@, counts)
                &&& says(said, "Degraded"@, "False"@, "Healthy"@, "Cluster is healthy"@)
                &&& says(
                    said,
                    "Progressing"@,
                    "False"@,
                    "UpToDate"@,
                    "All replicas are up to date"@,
                )
            }
            &&& ready != desired ==> says(said, "Ready"@, "False"@, "BrokersNotReady"@, counts)
            &&& ready < desired ==> says(
                said,
                "Progressing"@,
                "True"@,
                "ScalingUp"@,
                "Scaling from "@ + have + " to "@ + want + " replicas"@,
            )
            &&& ready > desired ==> says(
                said,
                "Progressing"@,
                "True"@,
                "ScalingDown"@,
                "Scaling down from "@ + have + " to "@ + want + " replicas"@,
            )
            &&& ready > 0 ==> says(
                said,
                "Available"@,
                "True"@,
                "MinimumAvailable"@,
                have + " broker(s) available"@,
            )
            &&& ready <= 0 ==> says(
                said,
                "Available"@,
                "False"@,
                "NoBrokersAvailable"@,
                "No brokers are available"@,
            )
            &&& ready == 0 && desired != 0 ==> says(
                said,
                "Degraded"@,
                "True"@,
                "NoBrokersReady"@,
                "No brokers are ready (0/"@ + want + ")"@,
            )
            &&& ready != 0 && ready < desired ==> says(
                said,
                "Degraded"@,
                "True"@,
                "PartiallyReady"@,
                "Only "@ + counts,
            )
            &&& ready != 0 && ready > desired ==> says(
                said,
                "Degraded"@,
                "True"@,
                "TooManyReadyBrokers"@,
                counts + "; expected exactly "@ + want,
            )
        }),
{
    let view = cluster.deep_view();
    let said = status.deep_view().conditions;
    assert(said == status.conditions.deep_view());
    let news = cluster::observed_conditions(ready, cluster.spec.replicas, now@);
    cluster::law_the_status_says_what_was_observed(view, namespace@, ready, now@, 0);
    cluster::law_the_status_says_what_was_observed(view, namespace@, ready, now@, 1);
    cluster::law_the_status_says_what_was_observed(view, namespace@, ready, now@, 2);
    cluster::law_the_status_says_what_was_observed(view, namespace@, ready, now@, 3);
    lemma_settled_is_said(said, news[0]);
    lemma_settled_is_said(said, news[1]);
    lemma_settled_is_said(said, news[2]);
    lemma_settled_is_said(said, news[3]);
}

/// The status of a refused cluster is failed, names no ready broker and no address, and each of
/// its conditions says that the spec is invalid and why, whatever was published before.
pub proof fn law_a_refusal_is_published_with_its_reason(
    cluster: StreamlineCluster,
    message: &str,
    now: &str,
    status: ClusterStatus,
)
    requires
        call_ensures(ClusterController::invalid_status_at, (&cluster, message, now), status),
    ensures
        status.phase == ClusterPhase::Failed,
        status.ready_replicas == 0,
        status.replicas == cluster.spec.replicas,
        status.leader_id is None,
        status.broker_endpoints@.len() == 0,
        status.observed_generation == cluster.metadata.generation,
        ({
            let said = status.conditions.deep_view();
            &&& says(said, "Ready"@, "False"@, "InvalidSpec"@, message@)
            &&& says(said, "Available"@, "False"@, "InvalidSpec"@, message@)
            &&& says(
                said,
                "Progressing"@,
                "False"@,
                "InvalidSpec"@,
                "Reconciliation is blocked until the spec is corrected"@,
            )
            &&& says(said, "Degraded"@, "True"@, "InvalidSpec"@, message@)
        }),
{
    let view = cluster.deep_view();
    let said = status.deep_view().conditions;
    assert(status.deep_view().broker_endpoints.len() == status.broker_endpoints@.len());
    assert(said == status.conditions.deep_view());
    let news = cluster::invalid_conditions(message@, now@);
    cluster::law_a_refused_cluster_is_reported_as_failed(view, message@, now@, 0);
    cluster::law_a_refused_cluster_is_reported_as_failed(view, message@, now@, 1);
    cluster::law_a_refused_cluster_is_reported_as_failed(view, message@, now@, 2);
    cluster::law_a_refused_cluster_is_reported_as_failed(view, message@, now@, 3);
    lemma_settled_is_said(said, news[0]);
    lemma_settled_is_said(said, news[1]);
    lemma_settled_is_said(said, news[2]);
    lemma_settled_is_said(said, news[3]);
}

/// The refusal message of a cluster is every validation error in order, separated by semicolons,
/// and empty for a valid spec.
pub proof fn law_the_refusal_names_every_error(
    cluster: StreamlineCluster,
    message: String,
    checked: core::result::Result<(), Vec<String>>,
)
    requires
        call_ensures(ClusterController::invalid_message, (&cluster,), message),
        call_ensures(ClusterSpec::validate, (&cluster.spec,), checked),
    ensures
        match checked {
            Ok(()) => message@.len() == 0,
            Err(errors) => errors@.len() > 0 && (errors@.len() == 1 ==> message@ == errors@[0]@)
                && forall|i: int|
                0 <= i < errors@.len() ==> text::occurs(message@, (#[trigger] errors@[i])@),
        },
{
    match checked {
        Ok(()) => {},
        Err(errors) => {
            let all = errors.deep_view();
            assert(all.len() == errors@.len());
            assert forall|i: int| 0 <= i < errors@.len() implies text::occurs(
                message@,
                (#[trigger] errors@[i])@,
            ) by {
                assert(all[i] == errors@[i]@);
                text::law_every_part_is_joined(all, "; "@, i);
            }
        },
    }
}

/// Stamping a status changes nothing but the time stamp. The time stamp is the published one if
/// the rest is what was published, and the current one otherwise.
pub proof fn law_stamping_changes_only_the_stamp(
    cluster: StreamlineCluster,
    status: ClusterStatus,
    now: &str,
    stamped: ClusterStatus,
)
    requires
        call_ensures(
            ClusterController::with_stable_timestamp_at,
            (&cluster, status, now),
            stamped,
        ),
        status.last_updated is None,
    ensures
        ({
            let before = status.deep_view();
            let after = stamped.deep_view();
            &&& after == (ClusterStatusView { last_updated: after.last_updated, ..before })
            &&& after.last_updated == Some(now@) || (cluster.status is Some && after
                == cluster.status->0.deep_view())
            &&& cluster.status is Some && (ClusterStatusView {
                last_updated: None,
                ..cluster.status->0.deep_view()
            }) == before ==> after == cluster.status->0.deep_view()
        }),
{
    let before = status.deep_view();
    let after = stamped.deep_view();
    assert(after =~= (ClusterStatusView { last_updated: after.last_updated, ..before }));
    if cluster.status is Some {
        let published = cluster.status->0.deep_view();
        assert(cluster.deep_view().status == Some(published));
        cluster::law_the_timestamp_alone_is_no_change(published, before, now@);
    }
}

/// A status is published again exactly when it differs from the one that is published.
pub proof fn law_an_unchanged_status_is_not_published_again(
    cluster: StreamlineCluster,
    status: ClusterStatus,
    changed: bool,
)
    requires
        call_ensures(ClusterController::status_changed, (&cluster, &status), changed),
    ensures
        cluster.status is None ==> changed,
        cluster.status is Some ==> (!changed <==> cluster.status->0.deep_view()
            == status.deep_view()),
{
}

/// A status starts from the conditions that were published, and two statuses are the same exactly
/// when they say the same.
pub proof fn law_a_cluster_status_starts_from_the_published_conditions(
    cluster: StreamlineCluster,
    fields: Vec<conditions::ConditionFields>,
    left: ClusterStatus,
    right: ClusterStatus,
    same: bool,
)
    requires
        call_ensures(ClusterController::seeded_conditions, (&cluster,), fields),
        call_ensures(cluster::statuses_eq, (&left, &right), same),
    ensures
        cluster.status is None ==> fields@.len() == 0,
        cluster.status is Some ==> fields.deep_view() == cluster.status->0.conditions.deep_view(),
        same <==> left.deep_view() == right.deep_view(),
{
    assert(fields.deep_view().len() == fields@.len());
    if cluster.status is Some {
        let status = cluster.status->0;
        assert(cluster.deep_view().status == Some(status.deep_view()));
        assert(status.deep_view().conditions == status.conditions.deep_view());
    } else {
        assert(cluster.deep_view().status is None);
    }
}

} // verus!
