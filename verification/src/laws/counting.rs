//! Laws of the metrics: what is counted, and what is told of it.

use crate::metrics;
use crate::metrics::{DurationHistogram, OperatorMetrics, OperatorMetricsView};
use crate::text;
use vstd::prelude::*;

verus! {

/// Whether a counter went up by one, or started again after the largest number.
pub open spec fn went_up(before: u64, after: u64) -> bool {
    after == before + 1 || (before == 0xffff_ffff_ffff_ffff && after == 0)
}

/// Whether a counter went up by one exactly where it should, and stayed otherwise.
pub open spec fn went_up_iff(should: bool, before: u64, after: u64) -> bool {
    if should {
        went_up(before, after)
    } else {
        after == before
    }
}

/// A reconcile counts once in the total and once for its kind of resource, and nowhere else.
pub proof fn law_a_reconcile_counts_for_its_resource(metrics: &mut OperatorMetrics, resource: &str)
    requires
        call_ensures(OperatorMetrics::inc_reconcile, (metrics, resource), ()),
    ensures
        ({
            let before = old(metrics).deep_view();
            let after = final(metrics).deep_view();
            &&& went_up(before.reconcile_total, after.reconcile_total)
            &&& went_up_iff(
                resource@ == "cluster"@,
                before.reconcile_cluster_total,
                after.reconcile_cluster_total,
            )
            &&& went_up_iff(
                resource@ == "topic"@,
                before.reconcile_topic_total,
                after.reconcile_topic_total,
            )
            &&& went_up_iff(
                resource@ == "user"@,
                before.reconcile_user_total,
                after.reconcile_user_total,
            )
            &&& after == (OperatorMetricsView {
                reconcile_total: after.reconcile_total,
                reconcile_cluster_total: after.reconcile_cluster_total,
                reconcile_topic_total: after.reconcile_topic_total,
                reconcile_user_total: after.reconcile_user_total,
                ..before
            })
        }),
{
}

/// A failed reconcile counts once among the errors and once among those of its kind of resource,
/// and nowhere else.
pub proof fn law_an_error_counts_for_its_resource(metrics: &mut OperatorMetrics, resource: &str)
    requires
        call_ensures(OperatorMetrics::inc_error, (metrics, resource), ()),
    ensures
        ({
            let before = old(metrics).deep_view();
            let after = final(metrics).deep_view();
            &&& went_up(before.reconcile_errors, after.reconcile_errors)
            &&& went_up_iff(
                resource@ == "cluster"@,
                before.reconcile_cluster_errors,
                after.reconcile_cluster_errors,
            )
            &&& went_up_iff(
                resource@ == "topic"@,
                before.reconcile_topic_errors,
                after.reconcile_topic_errors,
            )
            &&& went_up_iff(
                resource@ == "user"@,
                before.reconcile_user_errors,
                after.reconcile_user_errors,
            )
            &&& after == (OperatorMetricsView {
                reconcile_errors: after.reconcile_errors,
                reconcile_cluster_errors: after.reconcile_cluster_errors,
                reconcile_topic_errors: after.reconcile_topic_errors,
                reconcile_user_errors: after.reconcile_user_errors,
                ..before
            })
        }),
{
}

/// A success, a change of the leader and the leader flag each change their own metric alone.
pub proof fn law_each_event_changes_its_own_metric(
    succeeding: &mut OperatorMetrics,
    handing_over: &mut OperatorMetrics,
    flagged: &mut OperatorMetrics,
    leader: bool,
)
    requires
        call_ensures(OperatorMetrics::inc_success, (succeeding,), ()),
        call_ensures(OperatorMetrics::inc_leader_transition, (handing_over,), ()),
        call_ensures(OperatorMetrics::set_leader, (flagged, leader), ()),
    ensures
        ({
            let before = old(succeeding).deep_view();
            let after = final(succeeding).deep_view();
            &&& went_up(before.reconcile_success, after.reconcile_success)
            &&& after == (OperatorMetricsView {
                reconcile_success: after.reconcile_success,
                ..before
            })
        }),
        ({
            let before = old(handing_over).deep_view();
            let after = final(handing_over).deep_view();
            &&& went_up(before.leader_transitions, after.leader_transitions)
            &&& after == (OperatorMetricsView {
                leader_transitions: after.leader_transitions,
                ..before
            })
        }),
        final(flagged).deep_view() == (OperatorMetricsView { leader, ..old(flagged).deep_view() }),
{
}

/// Everything starts at zero.
pub proof fn law_counting_starts_at_zero(
    metrics: OperatorMetrics,
    histogram: DurationHistogram,
    i: int,
)
    requires
        call_ensures(OperatorMetrics::new, (), metrics),
        call_ensures(DurationHistogram::new, (), histogram),
    ensures
        metrics.reconcile_total == 0,
        metrics.reconcile_success == 0,
        metrics.reconcile_errors == 0,
        metrics.reconcile_cluster_total == 0,
        metrics.reconcile_topic_total == 0,
        metrics.reconcile_user_total == 0,
        metrics.reconcile_cluster_errors == 0,
        metrics.reconcile_topic_errors == 0,
        metrics.reconcile_user_errors == 0,
        metrics.leader_transitions == 0,
        !metrics.leader,
        metrics.duration_buckets.deep_view() == histogram.deep_view(),
        histogram.sum == 0,
        histogram.count == 0,
        histogram.buckets@.len() == 12,
        0 <= i < 12 ==> histogram.buckets@[i] == 0,
{
    let view = metrics.deep_view();
    let buckets = histogram.buckets.deep_view();
    assert(buckets == histogram.deep_view().buckets);
    assert(buckets.len() == histogram.buckets@.len());
    if 0 <= i < 12 {
        assert(buckets[i] == histogram.buckets@[i]);
    }
}

/// The upper boundary of a bucket, in milliseconds.
pub open spec fn boundary(i: int) -> int {
    if i == 0 {
        5
    } else if i == 1 {
        10
    } else if i == 2 {
        25
    } else if i == 3 {
        50
    } else if i == 4 {
        100
    } else if i == 5 {
        250
    } else if i == 6 {
        500
    } else if i == 7 {
        1000
    } else if i == 8 {
        2500
    } else if i == 9 {
        5000
    } else {
        10000
    }
}

/// Whether a duration lies above the boundary before a bucket and not above its own.
pub open spec fn belongs(ms: u64, i: int) -> bool {
    &&& i == 0 || ms > boundary(i - 1)
    &&& i == 11 || ms <= boundary(i)
}

/// A duration is added to the sum and counted once, in the bucket that it belongs to.
pub proof fn law_a_duration_is_counted_in_its_bucket(
    histogram: &mut DurationHistogram,
    ms: u64,
    i: int,
)
    requires
        call_ensures(DurationHistogram::observe, (histogram, ms), ()),
        metrics::histogram_well_formed(old(histogram).deep_view()),
        old(histogram).sum + ms <= u64::MAX,
        old(histogram).count < u64::MAX,
        0 <= i < 12,
    ensures
        final(histogram).sum == old(histogram).sum + ms,
        final(histogram).count == old(histogram).count + 1,
        final(histogram).deep_view().buckets.len() == 12,
        final(histogram).deep_view().buckets[i] == old(histogram).deep_view().buckets[i]
            + if belongs(ms, i) {
            1int
        } else {
            0
        },
{
    metrics::law_each_duration_has_one_bucket(ms, i);
    let before = old(histogram).deep_view();
    metrics::lemma_total_bounds(before.buckets, i);
    assert(metrics::in_bucket(ms, i) <==> belongs(ms, i)) by {
        lemma_boundary(i);
        if i > 0 {
            lemma_boundary(i - 1);
        }
    }
}

proof fn lemma_boundary(i: int)
    requires
        0 <= i < 12,
    ensures
        i < 11 ==> metrics::DURATION_BUCKETS_MS[i] == boundary(i),
{
}

/// The duration of a reconcile goes into the histogram and nowhere else.
pub proof fn law_a_duration_changes_the_histogram_alone(
    metrics: &mut OperatorMetrics,
    histogram: &mut DurationHistogram,
    ms: u64,
)
    requires
        call_ensures(OperatorMetrics::observe_duration_ms, (metrics, ms), ()),
        call_ensures(DurationHistogram::observe, (histogram, ms), ()),
        old(histogram).deep_view() == old(metrics).deep_view().duration_buckets,
    ensures
        final(metrics).deep_view() == (OperatorMetricsView {
            duration_buckets: final(histogram).deep_view(),
            ..old(metrics).deep_view()
        }),
{
}

/// A histogram has room exactly as long as neither its sum nor its count passes the largest
/// number.
pub proof fn law_a_histogram_has_room_up_to_the_largest_number(
    histogram: DurationHistogram,
    ms: u64,
    room: bool,
)
    requires
        call_ensures(DurationHistogram::has_room_for, (&histogram, ms), room),
    ensures
        room <==> histogram.sum + ms <= 0xffff_ffff_ffff_ffff && histogram.count
            + 1 <= 0xffff_ffff_ffff_ffff,
{
}

// ---------------------------------------------------------------------------
// The exposition
// ---------------------------------------------------------------------------

spec fn part(m: OperatorMetricsView, i: int) -> Seq<char> {
    if i == 0 {
        metrics::single(
            "streamline_operator_reconcile_total"@,
            "Total reconciliation attempts"@,
            "counter"@,
            m.reconcile_total,
        )
    } else if i == 1 {
        metrics::single(
            "streamline_operator_reconcile_success_total"@,
            "Successful reconciliations"@,
            "counter"@,
            m.reconcile_success,
        )
    } else if i == 2 {
        metrics::single(
            "streamline_operator_reconcile_errors_total"@,
            "Failed reconciliations"@,
            "counter"@,
            m.reconcile_errors,
        )
    } else if i == 3 {
        metrics::by_resource(
            "streamline_operator_reconcile_by_resource_total"@,
            "Reconciliations per resource type"@,
            m.reconcile_cluster_total,
            m.reconcile_topic_total,
            m.reconcile_user_total,
        )
    } else if i == 4 {
        metrics::by_resource(
            "streamline_operator_reconcile_errors_by_resource_total"@,
            "Errors per resource type"@,
            m.reconcile_cluster_errors,
            m.reconcile_topic_errors,
            m.reconcile_user_errors,
        )
    } else if i == 5 {
        metrics::single(
            "streamline_operator_leader_transitions_total"@,
            "Leader election transitions"@,
            "counter"@,
            m.leader_transitions,
        )
    } else if i == 6 {
        metrics::single(
            "streamline_operator_leader"@,
            "Whether this replica holds the leader Lease"@,
            "gauge"@,
            metrics::gauge(m.leader),
        )
    } else {
        metrics::histogram_text(m.duration_buckets)
    }
}

spec fn parts(m: OperatorMetricsView, n: int) -> Seq<char>
    decreases n,
{
    if n <= 1 {
        part(m, 0)
    } else {
        parts(m, n - 1) + part(m, n - 1)
    }
}

proof fn lemma_parts(m: OperatorMetricsView)
    ensures
        metrics::rendered(m) == parts(m, 8),
{
    reveal_with_fuel(parts, 9);
}

proof fn lemma_part_is_shown(m: OperatorMetricsView, i: int, n: int, line: Seq<char>)
    requires
        0 <= i < n <= 8,
        text::occurs(part(m, i), line),
    ensures
        text::occurs(parts(m, n), line),
    decreases n,
{
    if i < n - 1 {
        lemma_part_is_shown(m, i, n - 1, line);
        text::lemma_occurs_in_longer(parts(m, n - 1), line, part(m, n - 1));
    } else if n > 1 {
        text::lemma_occurs_in_end(parts(m, n - 1), part(m, n - 1), line);
    }
}

/// The line of a metric that has one sample.
pub open spec fn line_of(name: Seq<char>, value: int) -> Seq<char> {
    name + " "@ + text::decimal(value) + "\n"@
}

/// The line of a metric for a kind of resource.
pub open spec fn resource_line(name: Seq<char>, resource: Seq<char>, value: int) -> Seq<char> {
    name + "{"@ + ("resource"@ + "=\""@ + resource + "\""@) + "}"@ + " "@ + text::decimal(value)
        + "\n"@
}

/// The line that tells what kind of metric a name is.
pub open spec fn kind_line(name: Seq<char>, kind: Seq<char>) -> Seq<char> {
    "# TYPE "@ + name + " "@ + kind + "\n"@
}

/// The line that tells what a metric is for.
pub open spec fn help_line(name: Seq<char>, help: Seq<char>) -> Seq<char> {
    "# HELP "@ + name + " "@ + help
}

proof fn lemma_help_line(name: Seq<char>, help: Seq<char>, kind: Seq<char>)
    ensures
        text::occurs(metrics::family(name, help, kind), help_line(name, help)),
{
    let rest = "\n# TYPE "@ + name + " "@ + kind + "\n"@;
    let line = help_line(name, help);
    assert(metrics::family(name, help, kind) =~= Seq::empty() + line + rest);
    text::lemma_occurs_between(Seq::empty(), line, rest);
}

/// Every family is introduced by what it is for and by its kind.
pub proof fn law_every_family_is_introduced(metrics: OperatorMetrics, out: String)
    requires
        metrics::histogram_well_formed(metrics.deep_view().duration_buckets),
        call_ensures(OperatorMetrics::render, (&metrics,), out),
    ensures
        ({
            let by_resource = "streamline_operator_reconcile_by_resource_total"@;
            let errors_by_resource = "streamline_operator_reconcile_errors_by_resource_total"@;
            &&& text::occurs(
                out@,
                help_line(
                    "streamline_operator_reconcile_total"@,
                    "Total reconciliation attempts"@,
                ),
            )
            &&& text::occurs(
                out@,
                help_line(
                    "streamline_operator_reconcile_success_total"@,
                    "Successful reconciliations"@,
                ),
            )
            &&& text::occurs(
                out@,
                help_line(
                    "streamline_operator_reconcile_errors_total"@,
                    "Failed reconciliations"@,
                ),
            )
            &&& text::occurs(
                out@,
                help_line(by_resource, "Reconciliations per resource type"@),
            )
            &&& text::occurs(out@, help_line(errors_by_resource, "Errors per resource type"@))
            &&& text::occurs(
                out@,
                help_line(
                    "streamline_operator_leader_transitions_total"@,
                    "Leader election transitions"@,
                ),
            )
            &&& text::occurs(
                out@,
                help_line(
                    "streamline_operator_leader"@,
                    "Whether this replica holds the leader Lease"@,
                ),
            )
            &&& text::occurs(
                out@,
                help_line(
                    "streamline_operator_reconcile_duration_ms"@,
                    "Reconciliation duration in milliseconds"@,
                ),
            )
            &&& text::occurs(out@, kind_line(by_resource, "counter"@))
            &&& text::occurs(out@, kind_line(errors_by_resource, "counter"@))
        }),
{
    let m = metrics.deep_view();
    lemma_introduced(
        m,
        0,
        "streamline_operator_reconcile_total"@,
        "Total reconciliation attempts"@,
        "counter"@,
    );
    lemma_introduced(
        m,
        1,
        "streamline_operator_reconcile_success_total"@,
        "Successful reconciliations"@,
        "counter"@,
    );
    lemma_introduced(
        m,
        2,
        "streamline_operator_reconcile_errors_total"@,
        "Failed reconciliations"@,
        "counter"@,
    );
    lemma_introduced(
        m,
        3,
        "streamline_operator_reconcile_by_resource_total"@,
        "Reconciliations per resource type"@,
        "counter"@,
    );
    lemma_introduced(
        m,
        4,
        "streamline_operator_reconcile_errors_by_resource_total"@,
        "Errors per resource type"@,
        "counter"@,
    );
    lemma_introduced(
        m,
        5,
        "streamline_operator_leader_transitions_total"@,
        "Leader election transitions"@,
        "counter"@,
    );
    lemma_introduced(
        m,
        6,
        "streamline_operator_leader"@,
        "Whether this replica holds the leader Lease"@,
        "gauge"@,
    );
    lemma_introduced(
        m,
        7,
        "streamline_operator_reconcile_duration_ms"@,
        "Reconciliation duration in milliseconds"@,
        "histogram"@,
    );
}

proof fn lemma_introduced(
    m: OperatorMetricsView,
    i: int,
    name: Seq<char>,
    help: Seq<char>,
    kind: Seq<char>,
)
    requires
        0 <= i < 8,
        part(m, i).len() >= metrics::family(name, help, kind).len(),
        part(m, i).subrange(0, metrics::family(name, help, kind).len() as int) =~= metrics::family(
            name,
            help,
            kind,
        ),
    ensures
        text::occurs(metrics::rendered(m), help_line(name, help)),
        text::occurs(metrics::rendered(m), kind_line(name, kind)),
{
    lemma_parts(m);
    let family = metrics::family(name, help, kind);
    let rest = part(m, i).subrange(family.len() as int, part(m, i).len() as int);
    assert(part(m, i) =~= family + rest);
    lemma_help_line(name, help, kind);
    lemma_kind_line(name, help, kind);
    text::lemma_occurs_in_longer(family, help_line(name, help), rest);
    text::lemma_occurs_in_longer(family, kind_line(name, kind), rest);
    lemma_part_is_shown(m, i, 8, help_line(name, help));
    lemma_part_is_shown(m, i, 8, kind_line(name, kind));
}

proof fn lemma_sample_line(name: Seq<char>, value: u64)
    ensures
        metrics::sample(name, Seq::empty(), value) == line_of(name, value as int),
{
}

proof fn lemma_resource_line(name: Seq<char>, resource: Seq<char>, value: u64)
    ensures
        metrics::sample(name, seq![("resource"@, resource)], value) == resource_line(
            name,
            resource,
            value as int,
        ),
{
    let labels = seq![("resource"@, resource)];
    assert(labels.drop_last() =~= Seq::empty());
    reveal_with_fuel(metrics::label_list, 2);
    assert(metrics::label_list(labels) =~= "resource"@ + "=\""@ + resource + "\""@);
}

proof fn lemma_kind_line(name: Seq<char>, help: Seq<char>, kind: Seq<char>)
    ensures
        text::occurs(metrics::family(name, help, kind), kind_line(name, kind)),
{
    reveal_strlit("\n# TYPE ");
    reveal_strlit("\n");
    reveal_strlit("# TYPE ");
    let front = "# HELP "@ + name + " "@ + help;
    assert("\n# TYPE "@ =~= "\n"@ + "# TYPE "@);
    assert(metrics::family(name, help, kind) =~= front + "\n"@ + kind_line(name, kind));
    text::lemma_end_occurs(front + "\n"@, kind_line(name, kind));
}

proof fn lemma_single(m: OperatorMetricsView, i: int, name: Seq<char>, help: Seq<char>, kind: Seq<char>, value: u64)
    requires
        0 <= i < 8,
        part(m, i) == metrics::single(name, help, kind, value),
    ensures
        text::occurs(metrics::rendered(m), line_of(name, value as int)),
        text::occurs(metrics::rendered(m), kind_line(name, kind)),
{
    lemma_parts(m);
    let family = metrics::family(name, help, kind);
    lemma_sample_line(name, value);
    lemma_kind_line(name, help, kind);
    text::lemma_end_occurs(family, line_of(name, value as int));
    text::lemma_occurs_in_longer(family, kind_line(name, kind), line_of(name, value as int));
    lemma_part_is_shown(m, i, 8, line_of(name, value as int));
    lemma_part_is_shown(m, i, 8, kind_line(name, kind));
}

/// Each counter is told with its number, and as a counter, and the leader as a gauge.
pub proof fn law_every_counter_is_told(metrics: OperatorMetrics, out: String)
    requires
        metrics::histogram_well_formed(metrics.deep_view().duration_buckets),
        call_ensures(OperatorMetrics::render, (&metrics,), out),
    ensures
        ({
            let total = "streamline_operator_reconcile_total"@;
            let success = "streamline_operator_reconcile_success_total"@;
            let errors = "streamline_operator_reconcile_errors_total"@;
            let transitions = "streamline_operator_leader_transitions_total"@;
            let leader = "streamline_operator_leader"@;
            &&& text::occurs(out@, line_of(total, metrics.reconcile_total as int))
            &&& text::occurs(out@, line_of(success, metrics.reconcile_success as int))
            &&& text::occurs(out@, line_of(errors, metrics.reconcile_errors as int))
            &&& text::occurs(out@, line_of(transitions, metrics.leader_transitions as int))
            &&& text::occurs(
                out@,
                line_of(
                    leader,
                    if metrics.leader {
                        1
                    } else {
                        0
                    },
                ),
            )
            &&& text::occurs(out@, kind_line(total, "counter"@))
            &&& text::occurs(out@, kind_line(success, "counter"@))
            &&& text::occurs(out@, kind_line(errors, "counter"@))
            &&& text::occurs(out@, kind_line(transitions, "counter"@))
            &&& text::occurs(out@, kind_line(leader, "gauge"@))
        }),
{
    let m = metrics.deep_view();
    lemma_single(
        m,
        0,
        "streamline_operator_reconcile_total"@,
        "Total reconciliation attempts"@,
        "counter"@,
        m.reconcile_total,
    );
    lemma_single(
        m,
        1,
        "streamline_operator_reconcile_success_total"@,
        "Successful reconciliations"@,
        "counter"@,
        m.reconcile_success,
    );
    lemma_single(
        m,
        2,
        "streamline_operator_reconcile_errors_total"@,
        "Failed reconciliations"@,
        "counter"@,
        m.reconcile_errors,
    );
    lemma_single(
        m,
        5,
        "streamline_operator_leader_transitions_total"@,
        "Leader election transitions"@,
        "counter"@,
        m.leader_transitions,
    );
    lemma_single(
        m,
        6,
        "streamline_operator_leader"@,
        "Whether this replica holds the leader Lease"@,
        "gauge"@,
        metrics::gauge(m.leader),
    );
}

proof fn lemma_by_resource(
    m: OperatorMetricsView,
    i: int,
    name: Seq<char>,
    help: Seq<char>,
    cluster: u64,
    topic: u64,
    user: u64,
)
    requires
        0 <= i < 8,
        part(m, i) == metrics::by_resource(name, help, cluster, topic, user),
    ensures
        text::occurs(metrics::rendered(m), resource_line(name, "cluster"@, cluster as int)),
        text::occurs(metrics::rendered(m), resource_line(name, "topic"@, topic as int)),
        text::occurs(metrics::rendered(m), resource_line(name, "user"@, user as int)),
{
    lemma_parts(m);
    let family = metrics::family(name, help, "counter"@);
    let c = resource_line(name, "cluster"@, cluster as int);
    let t = resource_line(name, "topic"@, topic as int);
    let u = resource_line(name, "user"@, user as int);
    lemma_resource_line(name, "cluster"@, cluster);
    lemma_resource_line(name, "topic"@, topic);
    lemma_resource_line(name, "user"@, user);
    text::lemma_end_occurs(family, c);
    text::lemma_end_occurs(family + c, t);
    text::lemma_end_occurs(family + c + t, u);
    text::lemma_occurs_in_longer(family + c, c, t);
    text::lemma_occurs_in_longer(family + c + t, c, u);
    text::lemma_occurs_in_longer(family + c + t, t, u);
    lemma_part_is_shown(m, i, 8, c);
    lemma_part_is_shown(m, i, 8, t);
    lemma_part_is_shown(m, i, 8, u);
}

/// The counters of each kind of resource are told under its name.
pub proof fn law_every_resource_is_told(metrics: OperatorMetrics, out: String)
    requires
        metrics::histogram_well_formed(metrics.deep_view().duration_buckets),
        call_ensures(OperatorMetrics::render, (&metrics,), out),
    ensures
        ({
            let total = "streamline_operator_reconcile_by_resource_total"@;
            let errors = "streamline_operator_reconcile_errors_by_resource_total"@;
            let m = metrics;
            let said = out@;
            &&& text::occurs(
                said,
                resource_line(total, "cluster"@, m.reconcile_cluster_total as int),
            )
            &&& text::occurs(said, resource_line(total, "topic"@, m.reconcile_topic_total as int))
            &&& text::occurs(said, resource_line(total, "user"@, m.reconcile_user_total as int))
            &&& text::occurs(
                said,
                resource_line(errors, "cluster"@, m.reconcile_cluster_errors as int),
            )
            &&& text::occurs(said, resource_line(errors, "topic"@, m.reconcile_topic_errors as int))
            &&& text::occurs(said, resource_line(errors, "user"@, m.reconcile_user_errors as int))
        }),
{
    let m = metrics.deep_view();
    lemma_by_resource(
        m,
        3,
        "streamline_operator_reconcile_by_resource_total"@,
        "Reconciliations per resource type"@,
        m.reconcile_cluster_total,
        m.reconcile_topic_total,
        m.reconcile_user_total,
    );
    lemma_by_resource(
        m,
        4,
        "streamline_operator_reconcile_errors_by_resource_total"@,
        "Errors per resource type"@,
        m.reconcile_cluster_errors,
        m.reconcile_topic_errors,
        m.reconcile_user_errors,
    );
}

/// The line of a bucket that counts the durations up to a boundary.
pub open spec fn up_to(boundary: Seq<char>, count: int) -> Seq<char> {
    "streamline_operator_reconcile_duration_ms_bucket{le=\""@ + boundary + "\"} "@ + text::decimal(
        count,
    ) + "\n"@
}

/// How many durations lie in the first buckets.
pub open spec fn first_counts(buckets: Seq<u64>, n: int) -> int
    decreases n,
{
    if n <= 0 {
        0
    } else {
        first_counts(buckets, n - 1) + buckets[n - 1]
    }
}

proof fn lemma_first_counts(buckets: Seq<u64>, n: int)
    requires
        0 <= n <= buckets.len(),
    ensures
        metrics::total(buckets.subrange(0, n)) == first_counts(buckets, n),
    decreases n,
{
    if n > 0 {
        lemma_first_counts(buckets, n - 1);
        assert(buckets.subrange(0, n).drop_last() =~= buckets.subrange(0, n - 1));
    }
}

proof fn lemma_bucket_is_shown(buckets: Seq<u64>, i: int, n: nat)
    requires
        0 <= i < n <= 11,
        buckets.len() == 12,
    ensures
        text::occurs(
            metrics::bucket_lines(buckets, n),
            up_to(text::decimal(boundary(i)), first_counts(buckets, i + 1)),
        ),
    decreases n,
{
    let before = metrics::bucket_lines(buckets, (n - 1) as nat);
    let last = metrics::bucket_line(
        text::decimal(metrics::DURATION_BUCKETS_MS[n - 1] as int),
        metrics::total(buckets.subrange(0, n as int)),
    );
    let line = up_to(text::decimal(boundary(i)), first_counts(buckets, i + 1));
    lemma_boundary(n - 1);
    lemma_first_counts(buckets, n as int);
    if i < n - 1 {
        lemma_bucket_is_shown(buckets, i, (n - 1) as nat);
        text::lemma_occurs_in_longer(before, line, last);
    } else {
        text::lemma_end_occurs(before, last);
    }
}

/// The histogram is told as a whole: for each boundary how many durations did not exceed it, how
/// many there were at all, and their sum.
pub proof fn law_the_histogram_is_told_cumulatively(
    metrics: OperatorMetrics,
    out: String,
    i: int,
)
    requires
        metrics::histogram_well_formed(metrics.deep_view().duration_buckets),
        call_ensures(OperatorMetrics::render, (&metrics,), out),
        0 <= i < 11,
    ensures
        ({
            let histogram = metrics.duration_buckets;
            let name = "streamline_operator_reconcile_duration_ms"@;
            &&& text::occurs(
                out@,
                up_to(
                    text::decimal(boundary(i)),
                    first_counts(histogram.deep_view().buckets, i + 1),
                ),
            )
            &&& text::occurs(out@, up_to("+Inf"@, histogram.count as int))
            &&& text::occurs(
                out@,
                line_of(
                    "streamline_operator_reconcile_duration_ms_sum"@,
                    histogram.sum as int,
                ),
            )
            &&& text::occurs(
                out@,
                line_of(
                    "streamline_operator_reconcile_duration_ms_count"@,
                    histogram.count as int,
                ),
            )
            &&& text::occurs(out@, kind_line(name, "histogram"@))
        }),
{
    let m = metrics.deep_view();
    let h = m.duration_buckets;
    lemma_parts(m);
    let name = "streamline_operator_reconcile_duration_ms"@;
    let family = metrics::family(
        name,
        "Reconciliation duration in milliseconds"@,
        "histogram"@,
    );
    let lines = metrics::bucket_lines(h.buckets, 11);
    let all = metrics::bucket_line("+Inf"@, metrics::total(h.buckets));
    let sum = line_of("streamline_operator_reconcile_duration_ms_sum"@, h.sum as int);
    let count = line_of("streamline_operator_reconcile_duration_ms_count"@, h.count as int);
    let line = up_to(text::decimal(boundary(i)), first_counts(h.buckets, i + 1));
    let kind = kind_line(name, "histogram"@);
    lemma_sample_line("streamline_operator_reconcile_duration_ms_sum"@, h.sum);
    lemma_sample_line("streamline_operator_reconcile_duration_ms_count"@, h.count);
    assert(part(m, 7) == family + lines + all + sum + count);
    lemma_bucket_is_shown(h.buckets, i, 11);
    lemma_kind_line(name, "Reconciliation duration in milliseconds"@, "histogram"@);
    text::lemma_occurs_in_longer(family, kind, lines);
    text::lemma_occurs_in_longer(family + lines, kind, all);
    text::lemma_occurs_in_longer(family + lines + all, kind, sum);
    text::lemma_occurs_in_longer(family + lines + all + sum, kind, count);
    text::lemma_occurs_in_end(family, lines, line);
    text::lemma_occurs_in_longer(family + lines, line, all);
    text::lemma_occurs_in_longer(family + lines + all, line, sum);
    text::lemma_occurs_in_longer(family + lines + all + sum, line, count);
    text::lemma_end_occurs(family + lines, all);
    text::lemma_occurs_in_longer(family + lines + all, all, sum);
    text::lemma_occurs_in_longer(family + lines + all + sum, all, count);
    text::lemma_end_occurs(family + lines + all, sum);
    text::lemma_occurs_in_longer(family + lines + all + sum, sum, count);
    text::lemma_end_occurs(family + lines + all + sum, count);
    lemma_part_is_shown(m, 7, 8, kind);
    lemma_part_is_shown(m, 7, 8, line);
    lemma_part_is_shown(m, 7, 8, all);
    lemma_part_is_shown(m, 7, 8, sum);
    lemma_part_is_shown(m, 7, 8, count);
}

/// How long the two lines are that introduce a family.
pub open spec fn introduction(name: Seq<char>, help: Seq<char>, kind: Seq<char>) -> int {
    help_line(name, help).len() as int + 1 + kind_line(name, kind).len()
}

/// The exposition is as long as the introductions and the samples of its eight families together:
/// nothing else is told.
pub proof fn law_nothing_else_is_told(metrics: OperatorMetrics, out: String)
    requires
        metrics::histogram_well_formed(metrics.deep_view().duration_buckets),
        call_ensures(OperatorMetrics::render, (&metrics,), out),
    ensures
        ({
            let m = metrics;
            let total = "streamline_operator_reconcile_total"@;
            let success = "streamline_operator_reconcile_success_total"@;
            let errors = "streamline_operator_reconcile_errors_total"@;
            let by_resource = "streamline_operator_reconcile_by_resource_total"@;
            let errors_by_resource = "streamline_operator_reconcile_errors_by_resource_total"@;
            let transitions = "streamline_operator_leader_transitions_total"@;
            let leader = "streamline_operator_leader"@;
            let duration = "streamline_operator_reconcile_duration_ms"@;
            let counter = "counter"@;
            let lines = metrics::bucket_lines(m.deep_view().duration_buckets.buckets, 11);
            out@.len() == introduction(total, "Total reconciliation attempts"@, counter) + line_of(
                total,
                m.reconcile_total as int,
            ).len() + introduction(success, "Successful reconciliations"@, counter) + line_of(
                success,
                m.reconcile_success as int,
            ).len() + introduction(errors, "Failed reconciliations"@, counter) + line_of(
                errors,
                m.reconcile_errors as int,
            ).len() + introduction(by_resource, "Reconciliations per resource type"@, counter)
                + resource_line(by_resource, "cluster"@, m.reconcile_cluster_total as int).len()
                + resource_line(by_resource, "topic"@, m.reconcile_topic_total as int).len()
                + resource_line(by_resource, "user"@, m.reconcile_user_total as int).len()
                + introduction(errors_by_resource, "Errors per resource type"@, counter)
                + resource_line(
                errors_by_resource,
                "cluster"@,
                m.reconcile_cluster_errors as int,
            ).len() + resource_line(
                errors_by_resource,
                "topic"@,
                m.reconcile_topic_errors as int,
            ).len() + resource_line(
                errors_by_resource,
                "user"@,
                m.reconcile_user_errors as int,
            ).len() + introduction(transitions, "Leader election transitions"@, counter) + line_of(
                transitions,
                m.leader_transitions as int,
            ).len() + introduction(
                leader,
                "Whether this replica holds the leader Lease"@,
                "gauge"@,
            ) + line_of(
                leader,
                if m.leader {
                    1
                } else {
                    0
                },
            ).len() + introduction(
                duration,
                "Reconciliation duration in milliseconds"@,
                "histogram"@,
            ) + lines.len() + up_to("+Inf"@, m.duration_buckets.count as int).len() + line_of(
                "streamline_operator_reconcile_duration_ms_sum"@,
                m.duration_buckets.sum as int,
            ).len() + line_of(
                "streamline_operator_reconcile_duration_ms_count"@,
                m.duration_buckets.count as int,
            ).len()
        }),
{
    let m = metrics.deep_view();
    lemma_parts(m);
    reveal_with_fuel(parts, 9);
    lemma_single_length(
        "streamline_operator_reconcile_total"@,
        "Total reconciliation attempts"@,
        "counter"@,
        m.reconcile_total,
    );
    lemma_single_length(
        "streamline_operator_reconcile_success_total"@,
        "Successful reconciliations"@,
        "counter"@,
        m.reconcile_success,
    );
    lemma_single_length(
        "streamline_operator_reconcile_errors_total"@,
        "Failed reconciliations"@,
        "counter"@,
        m.reconcile_errors,
    );
    lemma_resources_length(
        "streamline_operator_reconcile_by_resource_total"@,
        "Reconciliations per resource type"@,
        m.reconcile_cluster_total,
        m.reconcile_topic_total,
        m.reconcile_user_total,
    );
    lemma_resources_length(
        "streamline_operator_reconcile_errors_by_resource_total"@,
        "Errors per resource type"@,
        m.reconcile_cluster_errors,
        m.reconcile_topic_errors,
        m.reconcile_user_errors,
    );
    lemma_single_length(
        "streamline_operator_leader_transitions_total"@,
        "Leader election transitions"@,
        "counter"@,
        m.leader_transitions,
    );
    lemma_single_length(
        "streamline_operator_leader"@,
        "Whether this replica holds the leader Lease"@,
        "gauge"@,
        metrics::gauge(m.leader),
    );
    lemma_family_length(
        "streamline_operator_reconcile_duration_ms"@,
        "Reconciliation duration in milliseconds"@,
        "histogram"@,
    );
    lemma_sample_line("streamline_operator_reconcile_duration_ms_sum"@, m.duration_buckets.sum);
    lemma_sample_line("streamline_operator_reconcile_duration_ms_count"@, m.duration_buckets.count);
}

proof fn lemma_family_length(name: Seq<char>, help: Seq<char>, kind: Seq<char>)
    ensures
        metrics::family(name, help, kind).len() == introduction(name, help, kind),
{
    reveal_strlit("\n# TYPE ");
    reveal_strlit("# TYPE ");
}

proof fn lemma_single_length(name: Seq<char>, help: Seq<char>, kind: Seq<char>, value: u64)
    ensures
        metrics::single(name, help, kind, value).len() == introduction(name, help, kind) + line_of(
            name,
            value as int,
        ).len(),
{
    lemma_family_length(name, help, kind);
    lemma_sample_line(name, value);
}

proof fn lemma_resources_length(
    name: Seq<char>,
    help: Seq<char>,
    cluster: u64,
    topic: u64,
    user: u64,
)
    ensures
        metrics::by_resource(name, help, cluster, topic, user).len() == introduction(
            name,
            help,
            "counter"@,
        ) + resource_line(name, "cluster"@, cluster as int).len() + resource_line(
            name,
            "topic"@,
            topic as int,
        ).len() + resource_line(name, "user"@, user as int).len(),
{
    lemma_family_length(name, help, "counter"@);
    lemma_resource_line(name, "cluster"@, cluster);
    lemma_resource_line(name, "topic"@, topic);
    lemma_resource_line(name, "user"@, user);
}

/// A sample is put behind what is there: its name, its labels in braces where it has any, and its
/// value.
pub proof fn law_a_sample_is_put_at_the_end(
    out: &mut String,
    name: &str,
    labels: Vec<(&str, &str)>,
    value: u64,
)
    requires
        call_ensures(metrics::push_counter, (out, name, &labels, value), ()),
    ensures
        labels@.len() == 0 ==> final(out)@ == old(out)@ + line_of(name@, value as int),
        labels@.len() == 1 ==> final(out)@ == old(out)@ + (name@ + "{"@ + (labels@[0].0@ + "=\""@
            + labels@[0].1@ + "\""@) + "}"@ + " "@ + text::decimal(value as int) + "\n"@),
        labels@.len() == 2 ==> final(out)@ == old(out)@ + (name@ + "{"@ + ((labels@[0].0@ + "=\""@
            + labels@[0].1@ + "\""@) + ","@ + labels@[1].0@ + "=\""@ + labels@[1].1@ + "\""@)
            + "}"@ + " "@ + text::decimal(value as int) + "\n"@),
{
    let views = metrics::label_views(labels@);
    reveal_with_fuel(metrics::label_list, 3);
    if labels@.len() == 1 {
        assert(views.drop_last() =~= Seq::empty());
        assert(metrics::label_list(views) =~= labels@[0].0@ + "=\""@ + labels@[0].1@ + "\""@);
    }
    if labels@.len() == 2 {
        let front = views.drop_last();
        assert(front.drop_last() =~= Seq::empty());
        assert(metrics::label_list(front) =~= labels@[0].0@ + "=\""@ + labels@[0].1@ + "\""@);
        assert(metrics::label_list(views) =~= (labels@[0].0@ + "=\""@ + labels@[0].1@ + "\""@)
            + ","@ + labels@[1].0@ + "=\""@ + labels@[1].1@ + "\""@);
    }
}

} // verus!
