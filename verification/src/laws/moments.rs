//! Laws of the clock: what is read off it stamps a result and decides no more than it has to.
//!
//! Each operation that reads the clock agrees with its counterpart that is handed the time, in
//! everything but the time.

use crate::conditions;
use crate::conditions::ConditionView;
use crate::controllers::branch::BranchReport;
use crate::controllers::cluster;
use crate::controllers::contract::ContractReport;
use crate::controllers::memory::MemoryReport;
use crate::controllers::operator_hub;
use crate::controllers::operator_hub::InstalledOperatorView;
use crate::controllers::scale_to_zero::RateReading;
use crate::controllers::topic;
use crate::controllers::topic::{TopicReport, TopicServerState};
use crate::controllers::user;
use crate::controllers::{
    build_activity_snapshot, AutoScalingConfig, AutoScalingController, BranchController,
    ClusterActivitySnapshot, ClusterController, ContractController, InstalledOperator,
    MemoryController, OperatorHub, PartitionMetrics, ScaleAction, ScaleToZeroAction,
    ScaleToZeroConfig, ScaleToZeroController, ScalingRecommendation, TopicController,
    UserController,
};
use crate::crd::{
    BranchStatus, ClusterCondition, ClusterStatus, ContractStatus, MemoryStatus, StreamlineCluster,
    StreamlineTopic, StreamlineUser, TopicStatus, UserStatus,
};
use crate::leader_election::{AcquireStep, LeaderElector, LeaseSpec};
use vstd::prelude::*;

verus! {

// ---------------------------------------------------------------------------
// Conditions
// ---------------------------------------------------------------------------

proof fn lemma_same_position(a: Seq<ConditionView>, b: Seq<ConditionView>, ty: Seq<char>)
    requires
        conditions::same_statements(a, b),
    ensures
        conditions::position(a, ty) == conditions::position(b, ty),
{
    conditions::lemma_position(a, ty);
    let at = conditions::position(a, ty);
    assert forall|j: int| 0 <= j < at implies (#[trigger] b[j]).condition_type != ty by {
        assert(conditions::same_statement(a[j], b[j]));
    }
    if at < b.len() {
        assert(conditions::same_statement(a[at], b[at]));
    }
    conditions::lemma_position_is(b, ty, at);
}

/// What is said does not depend on when it is recorded.
pub proof fn law_recording_says_the_same_at_any_time(
    seed: Seq<ConditionView>,
    a: Seq<ConditionView>,
    b: Seq<ConditionView>,
)
    requires
        conditions::same_statements(a, b),
    ensures
        conditions::same_statements(
            conditions::with_conditions(seed, a),
            conditions::with_conditions(seed, b),
        ),
    decreases a.len(),
{
    if a.len() > 0 {
        let x = a.drop_last();
        let y = b.drop_last();
        assert forall|i: int| 0 <= i < x.len() implies conditions::same_statement(
            #[trigger] x[i],
            y[i],
        ) by {
            assert(conditions::same_statement(a[i], b[i]));
        }
        law_recording_says_the_same_at_any_time(seed, x, y);
        let before = conditions::with_conditions(seed, x);
        let other = conditions::with_conditions(seed, y);
        assert(conditions::same_statement(a[a.len() - 1], b[b.len() - 1]));
        let new = a.last();
        lemma_same_position(before, other, new.condition_type);
        conditions::lemma_position(before, new.condition_type);
        let at = conditions::position(before, new.condition_type);
        let after = conditions::with_condition(before, new);
        let after_other = conditions::with_condition(other, b.last());
        assert forall|i: int| 0 <= i < after.len() implies conditions::same_statement(
            #[trigger] after[i],
            after_other[i],
        ) by {
            if i < before.len() {
                assert(conditions::same_statement(before[i], other[i]));
            }
        }
    } else {
        assert(b.len() == 0);
    }
}

// ---------------------------------------------------------------------------
// Statuses
// ---------------------------------------------------------------------------

/// The observed status of a cluster is the same at any time, but for its stamps.
pub proof fn law_an_observed_cluster_is_the_same_at_any_time(
    cluster: StreamlineCluster,
    namespace: &str,
    ready: i32,
    now: &str,
    status: ClusterStatus,
    at: ClusterStatus,
)
    requires
        call_ensures(ClusterController::observed_status, (&cluster, namespace, ready), status),
        call_ensures(
            ClusterController::observed_status_at,
            (&cluster, namespace, ready, now),
            at,
        ),
    ensures
        status.phase == at.phase,
        status.ready_replicas == at.ready_replicas,
        status.replicas == at.replicas,
        status.observed_generation == at.observed_generation,
        status.leader_id == at.leader_id,
        status.broker_endpoints.deep_view() == at.broker_endpoints.deep_view(),
        conditions::same_statements(status.conditions.deep_view(), at.conditions.deep_view()),
{
    let view = cluster.deep_view();
    let then = choose|then: Seq<char>|
        status.deep_view() == #[trigger] cluster::observed_report(view, namespace@, ready, then);
    let seed = cluster::published_conditions(view.status);
    law_recording_says_the_same_at_any_time(
        seed,
        cluster::observed_conditions(ready, cluster.spec.replicas, then),
        cluster::observed_conditions(ready, cluster.spec.replicas, now@),
    );
    assert(status.deep_view().conditions == status.conditions.deep_view());
    assert(at.deep_view().conditions == at.conditions.deep_view());
}

/// The status of a refused cluster is the same at any time, but for its stamps.
pub proof fn law_a_refused_cluster_is_the_same_at_any_time(
    cluster: StreamlineCluster,
    message: &str,
    now: &str,
    status: ClusterStatus,
    at: ClusterStatus,
    listed: Vec<ClusterCondition>,
    listed_at: Vec<ClusterCondition>,
)
    requires
        call_ensures(ClusterController::invalid_status, (&cluster, message), status),
        call_ensures(ClusterController::invalid_status_at, (&cluster, message, now), at),
        call_ensures(ClusterController::invalid_spec_conditions, (&cluster, message), listed),
        call_ensures(
            ClusterController::invalid_spec_conditions_at,
            (&cluster, message, now),
            listed_at,
        ),
    ensures
        status.phase == at.phase,
        status.ready_replicas == at.ready_replicas,
        status.replicas == at.replicas,
        status.observed_generation == at.observed_generation,
        status.leader_id == at.leader_id,
        status.broker_endpoints.deep_view() == at.broker_endpoints.deep_view(),
        conditions::same_statements(status.conditions.deep_view(), at.conditions.deep_view()),
        conditions::same_statements(listed.deep_view(), at.conditions.deep_view()),
        listed_at.deep_view() == at.conditions.deep_view(),
{
    let view = cluster.deep_view();
    let then = choose|then: Seq<char>|
        status.deep_view() == #[trigger] cluster::invalid_report(view, message@, then);
    let seed = cluster::published_conditions(view.status);
    law_recording_says_the_same_at_any_time(
        seed,
        cluster::invalid_conditions(message@, then),
        cluster::invalid_conditions(message@, now@),
    );
    let once = choose|once: Seq<char>|
        listed.deep_view() == conditions::with_conditions(
            seed,
            #[trigger] cluster::invalid_conditions(message@, once),
        );
    law_recording_says_the_same_at_any_time(
        seed,
        cluster::invalid_conditions(message@, once),
        cluster::invalid_conditions(message@, now@),
    );
    assert(status.deep_view().conditions == status.conditions.deep_view());
    assert(at.deep_view().conditions == at.conditions.deep_view());
}

/// Stamping a status by the clock changes nothing but the stamp.
pub proof fn law_the_clock_changes_only_the_stamp(
    cluster: StreamlineCluster,
    cluster_status: ClusterStatus,
    cluster_stamped: ClusterStatus,
    topic: StreamlineTopic,
    topic_status: TopicStatus,
    topic_stamped: TopicStatus,
)
    requires
        call_ensures(
            ClusterController::with_stable_timestamp,
            (&cluster, cluster_status),
            cluster_stamped,
        ),
        call_ensures(
            TopicController::with_stable_timestamp,
            (&topic, topic_status),
            topic_stamped,
        ),
    ensures
        cluster_stamped.deep_view() == (crate::crd::cluster::ClusterStatusView {
            last_updated: cluster_stamped.deep_view().last_updated,
            ..cluster_status.deep_view()
        }),
        topic_stamped.deep_view() == (crate::crd::topic::TopicStatusView {
            last_updated: topic_stamped.deep_view().last_updated,
            ..topic_status.deep_view()
        }),
        cluster.status is None ==> cluster_stamped.last_updated is Some,
        topic.status is None ==> topic_stamped.last_updated is Some,
{
    let a = cluster_stamped.deep_view();
    let b = topic_stamped.deep_view();
    assert(a.last_updated == cluster_stamped.last_updated.deep_view());
    assert(b.last_updated == topic_stamped.last_updated.deep_view());
    assert(a =~= (crate::crd::cluster::ClusterStatusView {
        last_updated: a.last_updated,
        ..cluster_status.deep_view()
    }));
    assert(b =~= (crate::crd::topic::TopicStatusView {
        last_updated: b.last_updated,
        ..topic_status.deep_view()
    }));
}

/// Whether two statuses of a topic say the same, whatever their time stamps.
pub open spec fn topics_agree(a: TopicStatus, b: TopicStatus) -> bool {
    &&& a.ready == b.ready
    &&& a.phase == b.phase
    &&& a.partitions == b.partitions
    &&& a.replication_factor == b.replication_factor
    &&& a.observed_generation == b.observed_generation
    &&& a.error_message.deep_view() == b.error_message.deep_view()
    &&& conditions::same_statements(a.conditions.deep_view(), b.conditions.deep_view())
}

proof fn lemma_topics_agree(
    topic: StreamlineTopic,
    report: topic::TopicReportView,
    then: Seq<char>,
    now: Seq<char>,
    a: TopicStatus,
    b: TopicStatus,
)
    requires
        a.deep_view() == topic::report_status(topic.deep_view(), report, then),
        b.deep_view() == topic::report_status(topic.deep_view(), report, now),
    ensures
        topics_agree(a, b),
{
    law_recording_says_the_same_at_any_time(
        topic::published_conditions(topic.deep_view().status),
        topic::report_conditions(report, then),
        topic::report_conditions(report, now),
    );
    assert(a.deep_view().conditions == a.conditions.deep_view());
    assert(b.deep_view().conditions == b.conditions.deep_view());
    assert(a.deep_view().error_message == a.error_message.deep_view());
    assert(b.deep_view().error_message == b.error_message.deep_view());
}

/// The status of a topic is the same at any time, but for its stamps.
pub proof fn law_a_topic_status_is_the_same_at_any_time(
    topic: StreamlineTopic,
    report: TopicReport,
    now: &str,
    status: TopicStatus,
    at: TopicStatus,
)
    requires
        call_ensures(TopicController::status_of, (&topic, &report), status),
        call_ensures(TopicController::status_of_at, (&topic, &report, now), at),
    ensures
        topics_agree(status, at),
{
    let then = choose|then: Seq<char>|
        status.deep_view() == #[trigger] topic::report_status(
            topic.deep_view(),
            report.deep_view(),
            then,
        );
    lemma_topics_agree(topic, report.deep_view(), then, now@, status, at);
}

/// The status of each kind of report is the one that the report amounts to.
pub proof fn law_each_topic_status_is_that_of_its_report(
    topic: StreamlineTopic,
    message: &str,
    said: String,
    state: TopicServerState,
    verified: bool,
    now: &str,
    refused: TopicStatus,
    refused_at: TopicStatus,
    refused_report: TopicStatus,
    waiting: TopicStatus,
    waiting_at: TopicStatus,
    waiting_report: TopicStatus,
    failed: TopicStatus,
    failed_at: TopicStatus,
    failed_report: TopicStatus,
    ready: TopicStatus,
    ready_at: TopicStatus,
    ready_report: TopicStatus,
)
    requires
        said@ == message@,
        call_ensures(TopicController::unsupported_status, (&topic, message), refused),
        call_ensures(TopicController::unsupported_status_at, (&topic, message, now), refused_at),
        call_ensures(
            TopicController::status_of_at,
            (&topic, &TopicReport::Unsupported(said), now),
            refused_report,
        ),
        call_ensures(TopicController::pending_status, (&topic, message), waiting),
        call_ensures(TopicController::pending_status_at, (&topic, message, now), waiting_at),
        call_ensures(
            TopicController::status_of_at,
            (&topic, &TopicReport::Pending(said), now),
            waiting_report,
        ),
        call_ensures(TopicController::error_status, (&topic, message), failed),
        call_ensures(TopicController::error_status_at, (&topic, message, now), failed_at),
        call_ensures(
            TopicController::status_of_at,
            (&topic, &TopicReport::Failed(said), now),
            failed_report,
        ),
        call_ensures(TopicController::ready_status, (&topic, state, verified), ready),
        call_ensures(TopicController::ready_status_at, (&topic, state, verified, now), ready_at),
        call_ensures(
            TopicController::status_of_at,
            (&topic, &TopicReport::Accepted(state, verified), now),
            ready_report,
        ),
    ensures
        refused_at.deep_view() == refused_report.deep_view(),
        waiting_at.deep_view() == waiting_report.deep_view(),
        failed_at.deep_view() == failed_report.deep_view(),
        ready_at.deep_view() == ready_report.deep_view(),
        topics_agree(refused, refused_report),
        topics_agree(waiting, waiting_report),
        topics_agree(failed, failed_report),
        topics_agree(ready, ready_report),
{
    let view = topic.deep_view();
    let refusal = topic::TopicReportView::Unsupported(message@);
    let pending = topic::TopicReportView::Pending(message@);
    let failure = topic::TopicReportView::Failed(message@);
    let accepted = topic::TopicReportView::Accepted(state, verified);
    assert(TopicReport::Unsupported(said).deep_view() == refusal);
    assert(TopicReport::Pending(said).deep_view() == pending);
    assert(TopicReport::Failed(said).deep_view() == failure);
    assert(TopicReport::Accepted(state, verified).deep_view() == accepted);
    let a = choose|then: Seq<char>|
        refused.deep_view() == #[trigger] topic::report_status(view, refusal, then);
    let b = choose|then: Seq<char>|
        waiting.deep_view() == #[trigger] topic::report_status(view, pending, then);
    let c = choose|then: Seq<char>|
        failed.deep_view() == #[trigger] topic::report_status(view, failure, then);
    let d = choose|then: Seq<char>|
        ready.deep_view() == #[trigger] topic::report_status(view, accepted, then);
    lemma_topics_agree(topic, refusal, a, now@, refused, refused_report);
    lemma_topics_agree(topic, pending, b, now@, waiting, waiting_report);
    lemma_topics_agree(topic, failure, c, now@, failed, failed_report);
    lemma_topics_agree(topic, accepted, d, now@, ready, ready_report);
}

/// The statuses of branches, contracts and memories are the same at any time, but for their
/// stamps.
pub proof fn law_other_statuses_are_the_same_at_any_time(
    branch: BranchReport,
    branch_status: BranchStatus,
    branch_at: BranchStatus,
    contract: ContractReport,
    contract_status: ContractStatus,
    contract_at: ContractStatus,
    memory: MemoryReport,
    memory_status: MemoryStatus,
    memory_at: MemoryStatus,
    now: &str,
)
    requires
        call_ensures(BranchController::status_of, (&branch,), branch_status),
        call_ensures(BranchController::status_of_at, (&branch, now), branch_at),
        call_ensures(ContractController::status_of, (contract,), contract_status),
        call_ensures(ContractController::status_of_at, (contract, now), contract_at),
        call_ensures(MemoryController::status_of, (&memory,), memory_status),
        call_ensures(MemoryController::status_of_at, (&memory, now), memory_at),
    ensures
        branch_status.deep_view() == (crate::crd::branch::BranchStatusView {
            conditions: branch_status.deep_view().conditions,
            ..branch_at.deep_view()
        }),
        conditions::same_statements(
            branch_status.deep_view().conditions,
            branch_at.deep_view().conditions,
        ),
        contract_status.deep_view() == (crate::crd::contract::ContractStatusView {
            conditions: contract_status.deep_view().conditions,
            ..contract_at.deep_view()
        }),
        conditions::same_statements(
            contract_status.deep_view().conditions,
            contract_at.deep_view().conditions,
        ),
        memory_status.deep_view() == (crate::crd::memory::MemoryStatusView {
            conditions: memory_status.deep_view().conditions,
            ..memory_at.deep_view()
        }),
        conditions::same_statements(
            memory_status.deep_view().conditions,
            memory_at.deep_view().conditions,
        ),
{
}

/// The status of a user is the same at any time, but for its stamps.
pub proof fn law_a_user_status_is_the_same_at_any_time(
    user: StreamlineUser,
    now: &str,
    status: UserStatus,
    at: UserStatus,
)
    requires
        call_ensures(UserController::unsupported_status, (&user,), status),
        call_ensures(UserController::unsupported_status_at, (&user, now), at),
    ensures
        status.ready == at.ready,
        status.phase == at.phase,
        status.username.deep_view() == at.username.deep_view(),
        status.credentials_secret.deep_view() == at.credentials_secret.deep_view(),
        status.observed_generation == at.observed_generation,
        status.error_message.deep_view() == at.error_message.deep_view(),
        conditions::same_statements(status.conditions.deep_view(), at.conditions.deep_view()),
{
    let view = user.deep_view();
    let then = choose|then: Seq<char>|
        status.deep_view() == #[trigger] user::unsupported_report(view, then);
    law_recording_says_the_same_at_any_time(
        user::seed(view.status),
        user::unsupported_conditions(then),
        user::unsupported_conditions(now@),
    );
    assert(status.deep_view().conditions == status.conditions.deep_view());
    assert(at.deep_view().conditions == at.conditions.deep_view());
    assert(status.deep_view().error_message == status.error_message.deep_view());
    assert(at.deep_view().error_message == at.error_message.deep_view());
    assert(status.deep_view().username == status.username.deep_view());
    assert(at.deep_view().username == at.username.deep_view());
    assert(status.deep_view().credentials_secret == status.credentials_secret.deep_view());
    assert(at.deep_view().credentials_secret == at.credentials_secret.deep_view());
}

// ---------------------------------------------------------------------------
// Scaling
// ---------------------------------------------------------------------------

/// A recommendation is made for the brokers that the cluster asks for, and is the same at any
/// time.
pub proof fn law_a_recommendation_is_the_same_at_any_time(
    cluster: StreamlineCluster,
    metrics: PartitionMetrics,
    config: AutoScalingConfig,
    now: &str,
    advised: ScalingRecommendation,
    at: ScalingRecommendation,
)
    requires
        call_ensures(
            AutoScalingController::generate_recommendation,
            (&cluster, &metrics, &config),
            advised,
        ),
        call_ensures(
            AutoScalingController::recommendation_at,
            (cluster.spec.replicas, &metrics, &config, now),
            at,
        ),
    ensures
        advised.recommended_replicas == at.recommended_replicas,
        advised.current_replicas == cluster.spec.replicas,
        advised.reason@ == at.reason@,
        advised.confidence == at.confidence,
        advised.triggering_metrics.deep_view() == at.triggering_metrics.deep_view(),
{
    let a = advised.deep_view();
    let b = at.deep_view();
    assert(a.triggering_metrics == advised.triggering_metrics.deep_view());
    assert(b.triggering_metrics == at.triggering_metrics.deep_view());
}

/// Where no scale-up is to be waited for, the clock has no part in what a scaling cycle does; and
/// a cluster that is at zero and active wakes whatever the clock says.
pub proof fn law_only_a_cooldown_is_told_by_the_clock(
    controller: ScaleToZeroController,
    snapshot: ClusterActivitySnapshot,
    config: ScaleToZeroConfig,
    current: i32,
    last_scale_up: Option<u64>,
    now: u64,
    timestamp: &str,
    action: ScaleToZeroAction,
    at: ScaleToZeroAction,
)
    requires
        call_ensures(
            ScaleToZeroController::evaluate,
            (&controller, &snapshot, &config, current, last_scale_up),
            action,
        ),
        call_ensures(
            ScaleToZeroController::evaluate_at,
            (&controller, &snapshot, &config, current, last_scale_up, now, timestamp),
            at,
        ),
    ensures
        last_scale_up is None || !config.enabled || (current == 0 && !snapshot.is_idle)
            ==> action.action == at.action && action.target_replicas == at.target_replicas
            && action.reason@ == at.reason@,
        action.action == ScaleAction::ScaleToZero ==> config.enabled && snapshot.is_idle
            && snapshot.idle_duration_seconds >= config.idle_timeout_seconds
            && action.target_replicas == 0,
        action.action == ScaleAction::Activate ==> config.enabled && current == 0
            && !snapshot.is_idle && action.target_replicas == config.min_active_replicas,
        action.action == ScaleAction::NoAction || action.action == ScaleAction::InCooldown
            ==> action.target_replicas == current,
{
    let a = action.deep_view();
    let b = at.deep_view();
}

/// A snapshot by the clock holds what was measured, and no cluster with a message or a connection
/// is idle in it.
pub proof fn law_a_snapshot_holds_what_was_measured(
    name: &str,
    namespace: &str,
    messages: RateReading,
    bytes: RateReading,
    connections: u64,
    lag: i64,
    last_activity: i64,
    timeout: u64,
    snapshot: ClusterActivitySnapshot,
)
    requires
        call_ensures(
            build_activity_snapshot,
            (name, namespace, messages, bytes, connections, lag, last_activity, timeout),
            snapshot,
        ),
    ensures
        snapshot.cluster_name@ == name@,
        snapshot.namespace@ == namespace@,
        snapshot.messages_per_second.deep_view() == messages.deep_view(),
        snapshot.bytes_per_second.deep_view() == bytes.deep_view(),
        snapshot.active_connections == connections,
        snapshot.consumer_lag == lag,
        !messages.is_zero || connections > 0 ==> !snapshot.is_idle,
{
    let view = snapshot.deep_view();
}

// ---------------------------------------------------------------------------
// The hub and the Lease
// ---------------------------------------------------------------------------

/// Installing and upgrading by the clock succeed where they do at a given time, say the same where
/// they do not, and leave the same records but for the time.
pub proof fn law_the_hub_does_the_same_at_any_time(
    installing: &mut OperatorHub,
    installing_at: &mut OperatorHub,
    upgrading: &mut OperatorHub,
    upgrading_at: &mut OperatorHub,
    name: &str,
    now: &str,
    installed: core::result::Result<InstalledOperator, String>,
    installed_at: core::result::Result<InstalledOperator, String>,
    upgraded: core::result::Result<InstalledOperator, String>,
    upgraded_at: core::result::Result<InstalledOperator, String>,
)
    requires
        old(installing)@ == old(installing_at)@,
        old(upgrading)@ == old(upgrading_at)@,
        call_ensures(OperatorHub::install, (installing, name), installed),
        call_ensures(OperatorHub::install_at, (installing_at, name, now), installed_at),
        call_ensures(OperatorHub::upgrade, (upgrading, name), upgraded),
        call_ensures(OperatorHub::upgrade_at, (upgrading_at, name, now), upgraded_at),
    ensures
        installed is Ok <==> installed_at is Ok,
        installed is Err ==> installed->Err_0@ == installed_at->Err_0@ && final(installing)@ == old(
            installing,
        )@,
        installed is Ok ==> {
            &&& installed->Ok_0.deep_view() == (InstalledOperatorView {
                installed_at: installed->Ok_0.deep_view().installed_at,
                ..installed_at->Ok_0.deep_view()
            })
            &&& final(installing)@.installed == old(installing)@.installed.push(
                installed->Ok_0.deep_view(),
            )
            &&& final(installing)@.operators == old(installing)@.operators
            &&& final(installing)@.config == old(installing)@.config
        },
        upgraded is Ok <==> upgraded_at is Ok,
        upgraded is Err ==> upgraded->Err_0@ == upgraded_at->Err_0@ && final(upgrading)@ == old(
            upgrading,
        )@,
        upgraded is Ok ==> {
            &&& upgraded->Ok_0.deep_view() == (InstalledOperatorView {
                last_reconcile_at: upgraded->Ok_0.deep_view().last_reconcile_at,
                ..upgraded_at->Ok_0.deep_view()
            })
            &&& upgraded->Ok_0.last_reconcile_at is Some
            &&& final(upgrading)@.installed.len() == old(upgrading)@.installed.len()
            &&& final(upgrading)@.operators == old(upgrading)@.operators
        },
{
    if upgraded is Ok {
        let record = upgraded->Ok_0;
        let names = operator_hub::installed_names(old(upgrading)@.installed);
        operator_hub::lemma_first_at(names, name@);
        assert(record.deep_view().last_reconcile_at == record.last_reconcile_at.deep_view());
    }
}

/// A lease that was never renewed has expired whatever the clock says, and one that a replica
/// holds itself is renewed whatever it says.
pub proof fn law_only_a_renewed_lease_is_judged_by_the_clock(
    elector: LeaderElector,
    spec: Option<&LeaseSpec>,
    stamp: i64,
    now: i64,
    is_expired: bool,
    step: AcquireStep,
    at: AcquireStep,
)
    requires
        call_ensures(LeaderElector::is_expired, (spec,), is_expired),
        call_ensures(LeaderElector::on_lease, (&elector, spec, stamp), step),
        call_ensures(LeaderElector::on_lease_at, (&elector, spec, stamp, now), at),
    ensures
        spec is None || spec->0.renew_time is None ==> is_expired && step.deep_view()
            == at.deep_view(),
        spec is Some && spec->0.holder_identity is Some && spec->0.holder_identity->0@
            == elector.identity@ ==> step is Replace && step.deep_view() == at.deep_view(),
        !(step is Create),
{
    if spec is Some {
        let view = spec->0.deep_view();
        assert(spec.deep_view() == Some(view));
        assert(view.holder_identity == spec->0.holder_identity.deep_view());
    }
    let one = step.deep_view();
}

} // verus!
