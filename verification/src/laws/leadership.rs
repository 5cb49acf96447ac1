//! Laws of leadership: who holds the Lease, and what the probes answer.

use crate::health;
use crate::health::{ProbeAnswer, ReadinessState};
use crate::leader_election;
use crate::leader_election::{
    AcquireStep, LeaderElector, LeaseSpec, LeaseSpecView, ReadFailure, WriteOutcome,
};
use crate::metrics::{OperatorMetrics, OperatorMetricsView};
use crate::text;
use vstd::prelude::*;

verus! {

// ---------------------------------------------------------------------------
// The Lease
// ---------------------------------------------------------------------------

/// Whether a lease names a replica as its holder.
pub open spec fn is_holder(spec: Option<&LeaseSpec>, identity: Seq<char>) -> bool {
    spec is Some && spec->0.holder_identity is Some && spec->0.holder_identity->0@ == identity
}

/// A lease expires a whole second after the time that it holds, which is fifteen seconds unless
/// it says otherwise; one that was never renewed has expired.
pub proof fn law_a_lease_expires_after_its_duration(
    spec: Option<&LeaseSpec>,
    now: i64,
    is_expired: bool,
)
    requires
        call_ensures(LeaderElector::is_expired_at, (spec, now), is_expired),
    ensures
        ({
            let renewed = spec->0.renew_time;
            let seconds = if spec->0.lease_duration_seconds is Some {
                spec->0.lease_duration_seconds->0 as int
            } else {
                15
            };
            &&& spec is None ==> is_expired
            &&& spec is Some && renewed is None ==> is_expired
            &&& spec is Some && renewed is Some && seconds >= 0 ==> (is_expired <==> now
                - renewed->0 >= (seconds + 1) * 1_000_000)
            &&& spec is Some && renewed is Some && seconds < 0 ==> (is_expired <==> now
                - renewed->0 > seconds * 1_000_000)
        }),
{
    if spec is Some {
        assert(spec.deep_view() == Some(spec->0.deep_view()));
    }
}

/// A replica takes a lease over exactly when it does not hold it and nobody else does: the lease
/// has expired, or its holder released it.
pub proof fn law_only_a_free_lease_is_taken_over(
    elector: LeaderElector,
    spec: Option<&LeaseSpec>,
    now: i64,
    is_expired: bool,
    taken: bool,
)
    requires
        call_ensures(LeaderElector::is_expired_at, (spec, now), is_expired),
        call_ensures(LeaderElector::takes_over_at, (&elector, spec, now), taken),
    ensures
        taken <==> !is_holder(spec, elector.identity@) && (is_expired || spec is None
            || spec->0.holder_identity is None),
{
    lemma_holder(spec, elector.identity@);
    if spec is Some {
        let view = spec->0.deep_view();
        assert(spec.deep_view() == Some(view));
        assert(view.holder_identity == spec->0.holder_identity.deep_view());
    }
}

proof fn lemma_holder(spec: Option<&LeaseSpec>, identity: Seq<char>)
    ensures
        leader_election::held_by(spec.deep_view(), identity) <==> is_holder(spec, identity),
{
    if spec is Some {
        let view = spec->0.deep_view();
        assert(spec.deep_view() == Some(view));
        assert(view.holder_identity == spec->0.holder_identity.deep_view());
    }
}

/// A replica renews its own lease, which keeps its term and its count; it takes over a free one,
/// which starts a term and counts a change of hands; it leaves a lease to any other holder. A
/// lease that it writes names it and was renewed when the attempt began.
pub proof fn law_a_replica_renews_takes_over_or_waits(
    elector: LeaderElector,
    spec: Option<&LeaseSpec>,
    stamp: i64,
    now: i64,
    taken: bool,
    step: AcquireStep,
)
    requires
        call_ensures(LeaderElector::takes_over_at, (&elector, spec, now), taken),
        call_ensures(LeaderElector::on_lease_at, (&elector, spec, stamp, now), step),
        taken && spec is Some && spec->0.lease_transitions is Some
            ==> spec->0.lease_transitions->0 < i32::MAX,
    ensures
        ({
            let own = is_holder(spec, elector.identity@);
            let count = if spec is Some && spec->0.lease_transitions is Some {
                spec->0.lease_transitions->0 as int
            } else {
                0
            };
            &&& step is Replace <==> own || taken
            &&& step is Wait <==> !own && !taken
            &&& step matches AcquireStep::Replace(written) ==> {
                &&& written.holder_identity is Some
                &&& written.holder_identity->0@ == elector.identity@
                &&& written.lease_duration_seconds == Some(15i32)
                &&& written.renew_time == Some(stamp)
                &&& own ==> written.acquire_time == spec->0.acquire_time
                    && written.lease_transitions == Some(count as i32)
                &&& !own ==> written.acquire_time == Some(stamp) && written.lease_transitions
                    == Some((count + 1) as i32)
            }
        }),
{
    lemma_holder(spec, elector.identity@);
    if spec is Some {
        assert(spec.deep_view() == Some(spec->0.deep_view()));
    }
    match step {
        AcquireStep::Replace(written) => {
            let view = written.deep_view();
            assert(step.deep_view()->Replace_0 == view);
            assert(view.holder_identity == written.holder_identity.deep_view());
        },
        _ => {},
    }
}

/// A lease that is not there is created for the replica, held from now on and never yet handed
/// over.
pub proof fn law_a_missing_lease_is_created(elector: LeaderElector, stamp: i64, step: AcquireStep)
    requires
        call_ensures(LeaderElector::on_missing_lease, (&elector, stamp), step),
    ensures
        step matches AcquireStep::Create(written) && {
            &&& written.holder_identity is Some
            &&& written.holder_identity->0@ == elector.identity@
            &&& written.lease_duration_seconds == Some(15i32)
            &&& written.acquire_time == Some(stamp)
            &&& written.renew_time == Some(stamp)
            &&& written.lease_transitions == Some(0i32)
        },
{
    match step {
        AcquireStep::Create(written) => {
            let view = written.deep_view();
            assert(step.deep_view()->Create_0 == view);
            assert(view.holder_identity == written.holder_identity.deep_view());
        },
        _ => {},
    }
}

/// Only the holder renews and releases a lease. Renewing changes the time of the renewal alone,
/// and releasing the holder alone.
pub proof fn law_only_the_holder_renews_and_releases(
    elector: LeaderElector,
    spec: Option<&LeaseSpec>,
    now: i64,
    renewed: Option<LeaseSpec>,
    cleared: Option<LeaseSpec>,
)
    requires
        call_ensures(LeaderElector::renew, (&elector, spec, now), renewed),
        call_ensures(LeaderElector::release, (&elector, spec), cleared),
    ensures
        renewed is Some <==> is_holder(spec, elector.identity@),
        cleared is Some <==> is_holder(spec, elector.identity@),
        renewed is Some ==> renewed->0.deep_view() == (LeaseSpecView {
            renew_time: Some(now),
            ..spec->0.deep_view()
        }),
        cleared is Some ==> cleared->0.deep_view() == (LeaseSpecView {
            holder_identity: None,
            ..spec->0.deep_view()
        }),
        cleared is Some ==> !is_holder(Some(&cleared->0), elector.identity@),
{
    lemma_holder(spec, elector.identity@);
    if spec is Some {
        assert(spec.deep_view() == Some(spec->0.deep_view()));
    }
    if cleared is Some {
        assert(cleared->0.deep_view().holder_identity == cleared->0.holder_identity.deep_view());
    }
}

/// A replica leads only on a write that succeeded. A conflict means that another one wrote first,
/// and any other error that the write failed; both cost the leadership and lead to another
/// attempt after five seconds.
pub proof fn law_a_replica_leads_only_on_a_written_lease(
    answer: core::result::Result<(), Option<u16>>,
    outcome: WriteOutcome,
    kept: bool,
    wait: Option<u64>,
)
    requires
        call_ensures(leader_election::write_outcome, (answer,), outcome),
        call_ensures(leader_election::after_renewal, (outcome,), kept),
        call_ensures(leader_election::retry_after, (outcome,), wait),
    ensures
        outcome == WriteOutcome::Held <==> answer is Ok,
        outcome == WriteOutcome::Lost <==> answer is Err && answer->Err_0 == Some(409u16),
        outcome == WriteOutcome::Failed <==> answer is Err && answer->Err_0 != Some(409u16),
        kept <==> answer is Ok,
        wait is None <==> answer is Ok,
        wait is Some ==> wait->0 == 5,
{
}

/// A lease is missing exactly when the API says that it is not found.
pub proof fn law_a_lease_is_missing_iff_not_found(code: Option<u16>, failure: ReadFailure)
    requires
        call_ensures(leader_election::read_failure, (code,), failure),
    ensures
        failure == ReadFailure::Missing <==> code is Some && code->0 == 404,
        failure == ReadFailure::Failed <==> code is None || code->0 != 404,
{
}

/// A lease that is renewed as often as recommended is renewed before it expires.
pub proof fn law_renewals_come_before_expiry(
    elector: LeaderElector,
    seconds: u64,
    spec: &LeaseSpec,
    now: i64,
    is_expired: bool,
)
    requires
        call_ensures(LeaderElector::renew_interval, (&elector,), seconds),
        call_ensures(LeaderElector::is_expired_at, (Some(spec), now), is_expired),
        spec.renew_time is Some,
        spec.lease_duration_seconds is None || spec.lease_duration_seconds->0 == 15,
        now - spec.renew_time->0 <= seconds * 1_000_000,
    ensures
        !is_expired,
        seconds == 10,
{
    law_a_lease_expires_after_its_duration(Some(spec), now, is_expired);
}

/// A replica is named after its pod, else after its host, else by a number in eight digits.
pub proof fn law_a_replica_is_named_after_its_pod(
    pod: Option<&str>,
    host: Option<&str>,
    number: u32,
    identity: String,
)
    requires
        call_ensures(leader_election::identity_from, (pod, host, number), identity),
    ensures
        pod is Some ==> identity@ == pod->0@,
        pod is None && host is Some ==> identity@ == host->0@,
        pod is None && host is None ==> identity@ == "operator-"@ + text::hex8(number as nat)
            && identity@.len() == "operator-"@.len() + 8,
{
    if pod is Some {
        assert(pod.deep_view() == Some(pod->0@));
    }
    if host is Some {
        assert(host.deep_view() == Some(host->0@));
    }
}

/// The lease lives in the namespace that was asked for, else in that of the service account, else
/// in `default`.
pub proof fn law_the_lease_lives_where_the_operator_does(
    explicit: &str,
    service_account: Option<&str>,
    namespace: String,
)
    requires
        call_ensures(leader_election::detect_namespace, (explicit, service_account), namespace),
    ensures
        explicit@.len() > 0 ==> namespace@ == explicit@,
        explicit@.len() == 0 && service_account is None ==> namespace@ == "default"@,
        explicit@.len() == 0 && service_account is Some ==> {
            let contents = service_account->0@;
            &&& text::occurs(contents, namespace@)
            &&& namespace@.len() > 0 ==> !text::is_white_space(namespace@.first())
                && !text::is_white_space(namespace@.last())
            &&& namespace@.len() == 0 <==> forall|i: int|
                0 <= i < contents.len() ==> text::is_white_space(#[trigger] contents[i])
        },
{
    if service_account is Some {
        assert(service_account.deep_view() == Some(service_account->0@));
        text::law_trimming_leaves_the_core(service_account->0@);
        text::law_blank_is_trimmed_away(service_account->0@);
    }
}

// ---------------------------------------------------------------------------
// The probes
// ---------------------------------------------------------------------------

/// A process starts neither ready nor leading.
pub proof fn law_a_process_starts_unready(state: ReadinessState)
    requires
        call_ensures(ReadinessState::new, (), state),
    ensures
        !state@.ready,
        !state@.leader,
{
}

/// Becoming ready says nothing of leadership.
pub proof fn law_readiness_is_no_leadership(state: &mut ReadinessState)
    requires
        call_ensures(ReadinessState::mark_ready, (state,), ()),
    ensures
        final(state)@.ready,
        final(state)@.leader == old(state)@.leader,
{
}

/// Leading and standing by leave readiness as it is, and becoming unready ends leadership; the
/// gauge says whether the replica leads after each of them, and no other metric changes.
pub proof fn law_the_gauge_says_who_leads(
    leading: &mut ReadinessState,
    leading_metrics: &mut OperatorMetrics,
    standing_by: &mut ReadinessState,
    standing_by_metrics: &mut OperatorMetrics,
    failing: &mut ReadinessState,
    failing_metrics: &mut OperatorMetrics,
)
    requires
        call_ensures(ReadinessState::mark_leader, (leading, leading_metrics), ()),
        call_ensures(ReadinessState::mark_standby, (standing_by, standing_by_metrics), ()),
        call_ensures(ReadinessState::mark_unready, (failing, failing_metrics), ()),
    ensures
        final(leading)@.leader && final(leading)@.ready == old(leading)@.ready,
        !final(standing_by)@.leader && final(standing_by)@.ready == old(standing_by)@.ready,
        !final(failing)@.leader && !final(failing)@.ready,
        final(leading_metrics).deep_view() == (OperatorMetricsView {
            leader: true,
            ..old(leading_metrics).deep_view()
        }),
        final(standing_by_metrics).deep_view() == (OperatorMetricsView {
            leader: false,
            ..old(standing_by_metrics).deep_view()
        }),
        final(failing_metrics).deep_view() == (OperatorMetricsView {
            leader: false,
            ..old(failing_metrics).deep_view()
        }),
{
}

/// The readiness probe passes exactly for a ready process, leading or not, and the leadership
/// probe exactly for a leading one; the liveness probe always says the same.
pub proof fn law_the_probes_answer_their_own_question(
    state: ReadinessState,
    ready: bool,
    leader: bool,
    readiness: ProbeAnswer,
    leadership: ProbeAnswer,
    alive: &'static str,
)
    requires
        call_ensures(ReadinessState::is_ready, (&state,), ready),
        call_ensures(ReadinessState::is_leader, (&state,), leader),
        call_ensures(health::readyz, (&state,), readiness),
        call_ensures(health::leaderz, (&state,), leadership),
        call_ensures(health::healthz, (), alive),
    ensures
        ready == state@.ready,
        leader == state@.leader,
        ready ==> readiness.status == 200 && readiness.body@ == "ok"@,
        !ready ==> readiness.status == 503 && readiness.body@ == "operator not initialised"@,
        leader ==> leadership.status == 200 && leadership.body@ == "leader"@,
        !leader ==> leadership.status == 503 && leadership.body@ == "standby"@,
        alive@ == "ok"@,
{
}

/// The contents that create a lease, take it over and renew it are those that the steps write.
pub proof fn law_the_steps_write_the_contents(
    elector: LeaderElector,
    spec: Option<&LeaseSpec>,
    stamp: i64,
    now: i64,
    taken: bool,
    created: LeaseSpec,
    renewed: LeaseSpec,
    updated: LeaseSpec,
    missing: AcquireStep,
    step: AcquireStep,
)
    requires
        call_ensures(LeaderElector::create_lease, (&elector, stamp), created),
        call_ensures(LeaderElector::update_lease, (&elector, spec, stamp, false), renewed),
        call_ensures(LeaderElector::update_lease, (&elector, spec, stamp, true), updated),
        call_ensures(LeaderElector::on_missing_lease, (&elector, stamp), missing),
        call_ensures(LeaderElector::takes_over_at, (&elector, spec, now), taken),
        call_ensures(LeaderElector::on_lease_at, (&elector, spec, stamp, now), step),
    ensures
        missing matches AcquireStep::Create(contents) && contents.deep_view()
            == created.deep_view(),
        step matches AcquireStep::Replace(contents) ==> contents.deep_view() == if taken {
            updated.deep_view()
        } else {
            renewed.deep_view()
        },
{
    match step {
        AcquireStep::Replace(contents) => {
            assert(step.deep_view()->Replace_0 == contents.deep_view());
        },
        _ => {},
    }
    match missing {
        AcquireStep::Create(contents) => {
            assert(missing.deep_view()->Create_0 == contents.deep_view());
        },
        _ => {},
    }
}

} // verus!
