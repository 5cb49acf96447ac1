//! Lightweight Prometheus metrics for the operator.
//!
//! Plain counters, rendered as Prometheus text format on the `/metrics` endpoint.

use crate::text;
use vstd::prelude::*;
use vstd::string::*;

verus! {

/// Histogram bucket boundaries in milliseconds.
pub const DURATION_BUCKETS_MS: [u64; 11] = [
    5,
    10,
    25,
    50,
    100,
    250,
    500,
    1000,
    2500,
    5000,
    10000,
];

/// Simple fixed-bucket histogram.
#[derive(Debug, PartialEq, Eq)]
pub struct DurationHistogram {
    /// `buckets[i]` counts the observations in `(BUCKETS[i-1], BUCKETS[i]]`, and the last one
    /// those above every boundary.
    pub buckets: Vec<u64>,
    pub sum: u64,
    pub count: u64,
}

/// What a [`DurationHistogram`] holds, over characters and sequences.
#[verifier::ext_equal]
pub struct DurationHistogramView {
    pub buckets: Seq<u64>,
    pub sum: u64,
    pub count: u64,
}

impl DeepView for DurationHistogram {
    type V = DurationHistogramView;

    open spec fn deep_view(&self) -> DurationHistogramView {
        DurationHistogramView {
            buckets: self.buckets.deep_view(),
            sum: self.sum,
            count: self.count,
        }
    }
}

/// The operator metrics.
#[derive(Debug, PartialEq, Eq)]
pub struct OperatorMetrics {
    pub reconcile_total: u64,
    pub reconcile_success: u64,
    pub reconcile_errors: u64,
    pub reconcile_cluster_total: u64,
    pub reconcile_topic_total: u64,
    pub reconcile_user_total: u64,
    pub reconcile_cluster_errors: u64,
    pub reconcile_topic_errors: u64,
    pub reconcile_user_errors: u64,
    pub leader_transitions: u64,
    /// Whether this replica holds the leader Lease
    pub leader: bool,
    pub duration_buckets: DurationHistogram,
}

/// What a [`OperatorMetrics`] holds, over characters and sequences.
#[verifier::ext_equal]
pub struct OperatorMetricsView {
    pub reconcile_total: u64,
    pub reconcile_success: u64,
    pub reconcile_errors: u64,
    pub reconcile_cluster_total: u64,
    pub reconcile_topic_total: u64,
    pub reconcile_user_total: u64,
    pub reconcile_cluster_errors: u64,
    pub reconcile_topic_errors: u64,
    pub reconcile_user_errors: u64,
    pub leader_transitions: u64,
    pub leader: bool,
    pub duration_buckets: DurationHistogramView,
}

impl DeepView for OperatorMetrics {
    type V = OperatorMetricsView;

    open spec fn deep_view(&self) -> OperatorMetricsView {
        OperatorMetricsView {
            reconcile_total: self.reconcile_total,
            reconcile_success: self.reconcile_success,
            reconcile_errors: self.reconcile_errors,
            reconcile_cluster_total: self.reconcile_cluster_total,
            reconcile_topic_total: self.reconcile_topic_total,
            reconcile_user_total: self.reconcile_user_total,
            reconcile_cluster_errors: self.reconcile_cluster_errors,
            reconcile_topic_errors: self.reconcile_topic_errors,
            reconcile_user_errors: self.reconcile_user_errors,
            leader_transitions: self.leader_transitions,
            leader: self.leader,
            duration_buckets: self.duration_buckets.deep_view(),
        }
    }
}

// ---------------------------------------------------------------------------
// Model
// ---------------------------------------------------------------------------

/// The sum of some counts.
pub open spec fn total(counts: Seq<u64>) -> int
    decreases counts.len(),
{
    if counts.len() == 0 {
        0
    } else {
        total(counts.drop_last()) + counts.last()
    }
}

/// What always holds of a histogram: one bucket per boundary and one above them, which together
/// hold every observation once.
pub open spec fn histogram_well_formed(histogram: DurationHistogramView) -> bool {
    &&& histogram.buckets.len() == 12
    &&& total(histogram.buckets) == histogram.count
}

/// The histogram without observations.
pub open spec fn empty_histogram() -> DurationHistogramView {
    DurationHistogramView { buckets: Seq::new(12, |i: int| 0u64), sum: 0, count: 0 }
}

/// Whether a duration belongs into a bucket.
pub open spec fn in_bucket(ms: u64, i: int) -> bool {
    &&& 0 <= i <= 11
    &&& i > 0 ==> ms > DURATION_BUCKETS_MS[i - 1]
    &&& i < 11 ==> ms <= DURATION_BUCKETS_MS[i]
}

/// The first bucket, from `i` on, whose boundary a duration does not exceed.
pub open spec fn bucket_from(ms: u64, i: int) -> int
    decreases 11 - i,
{
    if i >= 11 || ms <= DURATION_BUCKETS_MS[i] {
        i
    } else {
        bucket_from(ms, i + 1)
    }
}

/// The bucket of a duration.
pub open spec fn bucket_of(ms: u64) -> int {
    bucket_from(ms, 0)
}

/// Whether a histogram can take one more observation.
pub open spec fn has_room(histogram: DurationHistogramView, ms: u64) -> bool {
    histogram.sum + ms <= u64::MAX && histogram.count < u64::MAX
}

/// The histogram after one more observation.
pub open spec fn observed(histogram: DurationHistogramView, ms: u64) -> DurationHistogramView {
    DurationHistogramView {
        buckets: histogram.buckets.update(
            bucket_of(ms),
            (histogram.buckets[bucket_of(ms)] + 1) as u64,
        ),
        sum: (histogram.sum + ms) as u64,
        count: (histogram.count + 1) as u64,
    }
}

/// The metrics of an operator that has done nothing yet.
pub open spec fn fresh_metrics() -> OperatorMetricsView {
    OperatorMetricsView {
        reconcile_total: 0,
        reconcile_success: 0,
        reconcile_errors: 0,
        reconcile_cluster_total: 0,
        reconcile_topic_total: 0,
        reconcile_user_total: 0,
        reconcile_cluster_errors: 0,
        reconcile_topic_errors: 0,
        reconcile_user_errors: 0,
        leader_transitions: 0,
        leader: false,
        duration_buckets: empty_histogram(),
    }
}

/// A counter after one more count. It starts again from zero after the largest number.
pub open spec fn counted(n: u64) -> u64 {
    if n == u64::MAX {
        0
    } else {
        (n + 1) as u64
    }
}

/// A counter after one more count, where the count is for it.
pub open spec fn counted_if(is_for_it: bool, n: u64) -> u64 {
    if is_for_it {
        counted(n)
    } else {
        n
    }
}

/// The metrics after one more reconcile of a kind of resource.
pub open spec fn reconcile_counted(
    metrics: OperatorMetricsView,
    resource: Seq<char>,
) -> OperatorMetricsView {
    OperatorMetricsView {
        reconcile_total: counted(metrics.reconcile_total),
        reconcile_cluster_total: counted_if(
            resource == "cluster"@,
            metrics.reconcile_cluster_total,
        ),
        reconcile_topic_total: counted_if(resource == "topic"@, metrics.reconcile_topic_total),
        reconcile_user_total: counted_if(resource == "user"@, metrics.reconcile_user_total),
        ..metrics
    }
}

/// The metrics after one more failed reconcile of a kind of resource.
pub open spec fn error_counted(
    metrics: OperatorMetricsView,
    resource: Seq<char>,
) -> OperatorMetricsView {
    OperatorMetricsView {
        reconcile_errors: counted(metrics.reconcile_errors),
        reconcile_cluster_errors: counted_if(
            resource == "cluster"@,
            metrics.reconcile_cluster_errors,
        ),
        reconcile_topic_errors: counted_if(resource == "topic"@, metrics.reconcile_topic_errors),
        reconcile_user_errors: counted_if(resource == "user"@, metrics.reconcile_user_errors),
        ..metrics
    }
}

/// The two comment lines that introduce a metric.
pub open spec fn family(name: Seq<char>, help: Seq<char>, kind: Seq<char>) -> Seq<char> {
    "# HELP "@ + name + " "@ + help + "\n# TYPE "@ + name + " "@ + kind + "\n"@
}

/// The labels of a sample, separated by commas.
pub open spec fn label_list(labels: Seq<(Seq<char>, Seq<char>)>) -> Seq<char>
    decreases labels.len(),
{
    if labels.len() == 0 {
        Seq::empty()
    } else {
        let front = label_list(labels.drop_last());
        let (key, value) = labels.last();
        (if labels.len() > 1 {
            front + ","@
        } else {
            front
        }) + key + "=\""@ + value + "\""@
    }
}

/// A sample: its name, its labels in braces if it has any, and its value.
pub open spec fn sample(
    name: Seq<char>,
    labels: Seq<(Seq<char>, Seq<char>)>,
    value: u64,
) -> Seq<char> {
    (if labels.len() == 0 {
        name
    } else {
        name + "{"@ + label_list(labels) + "}"@
    }) + " "@ + text::decimal(value as int) + "\n"@
}

/// A metric with one sample.
pub open spec fn single(
    name: Seq<char>,
    help: Seq<char>,
    kind: Seq<char>,
    value: u64,
) -> Seq<char> {
    family(name, help, kind) + sample(name, Seq::empty(), value)
}

/// A counter with one sample per kind of resource.
pub open spec fn by_resource(
    name: Seq<char>,
    help: Seq<char>,
    cluster: u64,
    topic: u64,
    user: u64,
) -> Seq<char> {
    family(name, help, "counter"@) + sample(name, seq![("resource"@, "cluster"@)], cluster)
        + sample(name, seq![("resource"@, "topic"@)], topic) + sample(
        name,
        seq![("resource"@, "user"@)],
        user,
    )
}

/// A cumulative bucket of the duration histogram.
pub open spec fn bucket_line(boundary: Seq<char>, cumulative: int) -> Seq<char> {
    "streamline_operator_reconcile_duration_ms_bucket{le=\""@ + boundary + "\"} "@
        + text::decimal(cumulative) + "\n"@
}

/// The first cumulative buckets of the duration histogram.
pub open spec fn bucket_lines(buckets: Seq<u64>, n: nat) -> Seq<char>
    decreases n,
{
    if n == 0 {
        Seq::empty()
    } else {
        bucket_lines(buckets, (n - 1) as nat) + bucket_line(
            text::decimal(DURATION_BUCKETS_MS[n - 1] as int),
            total(buckets.subrange(0, n as int)),
        )
    }
}

/// The duration histogram: its cumulative buckets, its sum and its count.
pub open spec fn histogram_text(histogram: DurationHistogramView) -> Seq<char> {
    family(
        "streamline_operator_reconcile_duration_ms"@,
        "Reconciliation duration in milliseconds"@,
        "histogram"@,
    ) + bucket_lines(histogram.buckets, 11) + bucket_line("+Inf"@, total(histogram.buckets))
        + sample(
        "streamline_operator_reconcile_duration_ms_sum"@,
        Seq::empty(),
        histogram.sum,
    ) + sample(
        "streamline_operator_reconcile_duration_ms_count"@,
        Seq::empty(),
        histogram.count,
    )
}

/// A flag as a gauge.
pub open spec fn gauge(flag: bool) -> u64 {
    if flag {
        1
    } else {
        0
    }
}

/// The metrics in Prometheus text exposition format.
pub open spec fn rendered(metrics: OperatorMetricsView) -> Seq<char> {
    single(
        "streamline_operator_reconcile_total"@,
        "Total reconciliation attempts"@,
        "counter"@,
        metrics.reconcile_total,
    ) + single(
        "streamline_operator_reconcile_success_total"@,
        "Successful reconciliations"@,
        "counter"@,
        metrics.reconcile_success,
    ) + single(
        "streamline_operator_reconcile_errors_total"@,
        "Failed reconciliations"@,
        "counter"@,
        metrics.reconcile_errors,
    ) + by_resource(
        "streamline_operator_reconcile_by_resource_total"@,
        "Reconciliations per resource type"@,
        metrics.reconcile_cluster_total,
        metrics.reconcile_topic_total,
        metrics.reconcile_user_total,
    ) + by_resource(
        "streamline_operator_reconcile_errors_by_resource_total"@,
        "Errors per resource type"@,
        metrics.reconcile_cluster_errors,
        metrics.reconcile_topic_errors,
        metrics.reconcile_user_errors,
    ) + single(
        "streamline_operator_leader_transitions_total"@,
        "Leader election transitions"@,
        "counter"@,
        metrics.leader_transitions,
    ) + single(
        "streamline_operator_leader"@,
        "Whether this replica holds the leader Lease"@,
        "gauge"@,
        gauge(metrics.leader),
    ) + histogram_text(metrics.duration_buckets)
}

// ---------------------------------------------------------------------------
// Code
// ---------------------------------------------------------------------------

fn next_count(n: u64) -> (next: u64)
    ensures
        next == counted(n),
{
    if n == u64::MAX {
        0
    } else {
        n + 1
    }
}

impl DurationHistogram {
    /// The histogram without observations.
    pub fn new() -> (histogram: Self)
        ensures
            histogram.deep_view() == empty_histogram(),
            histogram_well_formed(histogram.deep_view()),
    {
        let buckets: Vec<u64> = vec![0; 12];
        let histogram = DurationHistogram { buckets, sum: 0, count: 0 };
        assert(histogram.deep_view().buckets =~= empty_histogram().buckets);
        proof {
            lemma_total_of_zeros(12);
        }
        histogram
    }

    /// Count a duration into its bucket.
    pub fn observe(&mut self, value_ms: u64)
        requires
            histogram_well_formed(old(self).deep_view()),
            has_room(old(self).deep_view(), value_ms),
        ensures
            final(self).deep_view() == observed(old(self).deep_view(), value_ms),
            histogram_well_formed(final(self).deep_view()),
    {
        let ghost before = self.deep_view();
        self.sum = self.sum + value_ms;
        self.count = self.count + 1;
        let mut i: usize = 0;
        while i < 11 && value_ms > DURATION_BUCKETS_MS[i]
            invariant
                i <= 11,
                bucket_from(value_ms, i as int) == bucket_of(value_ms),
            decreases 11 - i,
        {
            i = i + 1;
        }
        assert(i as int == bucket_of(value_ms));
        proof {
            lemma_total_bounds(before.buckets, i as int);
            lemma_total_update(
                before.buckets,
                i as int,
                (before.buckets[i as int] + 1) as u64,
            );
        }
        assert(self.buckets.deep_view() =~= before.buckets);
        assert(self.buckets[i as int] == before.buckets[i as int]);
        let raised: u64 = self.buckets[i] + 1;
        self.buckets.set(i, raised);
        assert(self.deep_view().buckets =~= observed(before, value_ms).buckets);
    }

    /// Whether one more duration can be counted without passing the largest number.
    pub fn has_room_for(&self, value_ms: u64) -> (room: bool)
        ensures
            room == has_room(self.deep_view(), value_ms),
    {
        value_ms <= u64::MAX - self.sum && self.count < u64::MAX
    }
}

impl Default for DurationHistogram {
    fn default() -> (histogram: Self)
        ensures
            histogram.deep_view() == empty_histogram(),
    {
        DurationHistogram::new()
    }
}

impl OperatorMetrics {
    /// The metrics of an operator that has done nothing yet.
    pub fn new() -> (metrics: Self)
        ensures
            metrics.deep_view() == fresh_metrics(),
            histogram_well_formed(metrics.deep_view().duration_buckets),
    {
        OperatorMetrics {
            reconcile_total: 0,
            reconcile_success: 0,
            reconcile_errors: 0,
            reconcile_cluster_total: 0,
            reconcile_topic_total: 0,
            reconcile_user_total: 0,
            reconcile_cluster_errors: 0,
            reconcile_topic_errors: 0,
            reconcile_user_errors: 0,
            leader_transitions: 0,
            leader: false,
            duration_buckets: DurationHistogram::new(),
        }
    }

    /// Count a reconcile of a kind of resource.
    pub fn inc_reconcile(&mut self, resource: &str)
        ensures
            final(self).deep_view() == reconcile_counted(old(self).deep_view(), resource@),
    {
        self.reconcile_total = next_count(self.reconcile_total);
        if text::text_eq(resource, "cluster") {
            self.reconcile_cluster_total = next_count(self.reconcile_cluster_total);
        }
        if text::text_eq(resource, "topic") {
            self.reconcile_topic_total = next_count(self.reconcile_topic_total);
        }
        if text::text_eq(resource, "user") {
            self.reconcile_user_total = next_count(self.reconcile_user_total);
        }
    }

    /// Count a successful reconcile.
    pub fn inc_success(&mut self)
        ensures
            final(self).deep_view() == (OperatorMetricsView {
                reconcile_success: counted(old(self).deep_view().reconcile_success),
                ..old(self).deep_view()
            }),
    {
        self.reconcile_success = next_count(self.reconcile_success);
    }

    /// Count a failed reconcile of a kind of resource.
    pub fn inc_error(&mut self, resource: &str)
        ensures
            final(self).deep_view() == error_counted(old(self).deep_view(), resource@),
    {
        self.reconcile_errors = next_count(self.reconcile_errors);
        if text::text_eq(resource, "cluster") {
            self.reconcile_cluster_errors = next_count(self.reconcile_cluster_errors);
        }
        if text::text_eq(resource, "topic") {
            self.reconcile_topic_errors = next_count(self.reconcile_topic_errors);
        }
        if text::text_eq(resource, "user") {
            self.reconcile_user_errors = next_count(self.reconcile_user_errors);
        }
    }

    /// Count a change of the leader.
    pub fn inc_leader_transition(&mut self)
        ensures
            final(self).deep_view() == (OperatorMetricsView {
                leader_transitions: counted(old(self).deep_view().leader_transitions),
                ..old(self).deep_view()
            }),
    {
        self.leader_transitions = next_count(self.leader_transitions);
    }

    /// Record whether this replica holds the leader Lease.
    pub fn set_leader(&mut self, leader: bool)
        ensures
            final(self).deep_view() == (OperatorMetricsView { leader, ..old(self).deep_view() }),
    {
        self.leader = leader;
    }

    /// Record a reconciliation duration in milliseconds.
    pub fn observe_duration_ms(&mut self, ms: u64)
        requires
            histogram_well_formed(old(self).deep_view().duration_buckets),
            has_room(old(self).deep_view().duration_buckets, ms),
        ensures
            final(self).deep_view() == (OperatorMetricsView {
                duration_buckets: observed(old(self).deep_view().duration_buckets, ms),
                ..old(self).deep_view()
            }),
            histogram_well_formed(final(self).deep_view().duration_buckets),
    {
        self.duration_buckets.observe(ms);
    }

    /// Render metrics in Prometheus text exposition format.
    pub fn render(&self) -> (out: String)
        requires
            histogram_well_formed(self.deep_view().duration_buckets),
        ensures
            out@ == rendered(self.deep_view()),
    {
        let mut out = String::new();
        assert(out@ =~= Seq::<char>::empty());
        push_single(
            &mut out,
            "streamline_operator_reconcile_total",
            "Total reconciliation attempts",
            "counter",
            self.reconcile_total,
        );
        assert(out@ =~= single(
            "streamline_operator_reconcile_total"@,
            "Total reconciliation attempts"@,
            "counter"@,
            self.reconcile_total,
        ));
        push_single(
            &mut out,
            "streamline_operator_reconcile_success_total",
            "Successful reconciliations",
            "counter",
            self.reconcile_success,
        );
        push_single(
            &mut out,
            "streamline_operator_reconcile_errors_total",
            "Failed reconciliations",
            "counter",
            self.reconcile_errors,
        );
        push_by_resource(
            &mut out,
            "streamline_operator_reconcile_by_resource_total",
            "Reconciliations per resource type",
            self.reconcile_cluster_total,
            self.reconcile_topic_total,
            self.reconcile_user_total,
        );
        push_by_resource(
            &mut out,
            "streamline_operator_reconcile_errors_by_resource_total",
            "Errors per resource type",
            self.reconcile_cluster_errors,
            self.reconcile_topic_errors,
            self.reconcile_user_errors,
        );
        push_single(
            &mut out,
            "streamline_operator_leader_transitions_total",
            "Leader election transitions",
            "counter",
            self.leader_transitions,
        );
        push_single(
            &mut out,
            "streamline_operator_leader",
            "Whether this replica holds the leader Lease",
            "gauge",
            if self.leader {
                1
            } else {
                0
            },
        );
        push_histogram(&mut out, &self.duration_buckets);
        out
    }
}

impl Default for OperatorMetrics {
    fn default() -> (metrics: Self)
        ensures
            metrics.deep_view() == fresh_metrics(),
    {
        OperatorMetrics::new()
    }
}

fn push_text(out: &mut String, more: &str)
    ensures
        final(out)@ == old(out)@ + more@,
{
    out.append(more);
}

fn push_family(out: &mut String, name: &str, help: &str, kind: &str)
    ensures
        final(out)@ == old(out)@ + family(name@, help@, kind@),
{
    let lines = "# HELP ".to_owned().concat(name).concat(" ").concat(help).concat(
        "\n# TYPE ",
    ).concat(name).concat(" ").concat(kind).concat("\n");
    push_text(out, lines.as_str());
}

fn push_single(out: &mut String, name: &str, help: &str, kind: &str, value: u64)
    ensures
        final(out)@ == old(out)@ + single(name@, help@, kind@, value),
{
    let ghost before = out@;
    push_family(out, name, help, kind);
    let labels: Vec<(&str, &str)> = Vec::new();
    push_counter(out, name, &labels, value);
    assert(label_views(labels@) =~= Seq::empty());
    assert(out@ =~= before + single(name@, help@, kind@, value));
}

fn push_resource(out: &mut String, name: &str, resource: &str, value: u64)
    ensures
        final(out)@ == old(out)@ + sample(name@, seq![("resource"@, resource@)], value),
{
    let labels: Vec<(&str, &str)> = vec![("resource", resource)];
    assert(label_views(labels@) =~= seq![("resource"@, resource@)]);
    push_counter(out, name, &labels, value);
}

fn push_by_resource(out: &mut String, name: &str, help: &str, cluster: u64, topic: u64, user: u64)
    ensures
        final(out)@ == old(out)@ + by_resource(name@, help@, cluster, topic, user),
{
    let ghost before = out@;
    let ghost s0 = family(name@, help@, "counter"@);
    let ghost s1 = sample(name@, seq![("resource"@, "cluster"@)], cluster);
    let ghost s2 = sample(name@, seq![("resource"@, "topic"@)], topic);
    let ghost s3 = sample(name@, seq![("resource"@, "user"@)], user);
    push_family(out, name, help, "counter");
    push_resource(out, name, "cluster", cluster);
    push_resource(out, name, "topic", topic);
    push_resource(out, name, "user", user);
    proof {
        lemma_appended(before, s0, s1);
        lemma_appended(before, s0 + s1, s2);
        lemma_appended(before, s0 + s1 + s2, s3);
    }
}

/// What a list of labels holds.
pub open spec fn label_views(labels: Seq<(&str, &str)>) -> Seq<(Seq<char>, Seq<char>)> {
    Seq::new(labels.len(), |i: int| (labels[i].0@, labels[i].1@))
}

/// Append a sample to a text.
pub fn push_counter(out: &mut String, name: &str, labels: &Vec<(&str, &str)>, value: u64)
    ensures
        final(out)@ == old(out)@ + sample(name@, label_views(labels@), value),
{
    let ghost before = out@;
    let ghost views = label_views(labels@);
    let mut line = name.to_owned();
    if labels.len() > 0 {
        let mut list = String::new();
        let mut i: usize = 0;
        assert(list@ =~= label_list(views.subrange(0, 0)));
        while i < labels.len()
            invariant
                i <= labels.len(),
                views == label_views(labels@),
                list@ == label_list(views.subrange(0, i as int)),
            decreases labels.len() - i,
        {
            let ghost seen = views.subrange(0, i + 1);
            assert(seen.drop_last() =~= views.subrange(0, i as int));
            if i > 0 {
                list = list.concat(",");
            }
            let (key, label) = labels[i];
            assert(seen.last() == (key@, label@));
            list = list.concat(key).concat("=\"").concat(label).concat("\"");
            i = i + 1;
        }
        assert(views.subrange(0, views.len() as int) =~= views);
        line = line.concat("{").concat(list.as_str()).concat("}");
    }
    let line = line.concat(" ").concat(text::u64_text(value).as_str()).concat("\n");
    assert(line@ == sample(name@, views, value));
    push_text(out, line.as_str());
}

fn push_bucket(out: &mut String, boundary: &str, cumulative: u64)
    ensures
        final(out)@ == old(out)@ + bucket_line(boundary@, cumulative as int),
{
    let line = "streamline_operator_reconcile_duration_ms_bucket{le=\"".to_owned().concat(
        boundary,
    ).concat("\"} ").concat(text::u64_text(cumulative).as_str()).concat("\n");
    push_text(out, line.as_str());
}

fn push_histogram(out: &mut String, histogram: &DurationHistogram)
    requires
        histogram_well_formed(histogram.deep_view()),
    ensures
        final(out)@ == old(out)@ + histogram_text(histogram.deep_view()),
{
    let ghost before = out@;
    let ghost buckets = histogram.buckets.deep_view();
    let ghost s0 = family(
        "streamline_operator_reconcile_duration_ms"@,
        "Reconciliation duration in milliseconds"@,
        "histogram"@,
    );
    push_family(
        out,
        "streamline_operator_reconcile_duration_ms",
        "Reconciliation duration in milliseconds",
        "histogram",
    );
    let ghost start = out@;
    let mut cumulative: u64 = 0;
    let mut i: usize = 0;
    assert(start + bucket_lines(buckets, 0) =~= start);
    while i < 11
        invariant
            i <= 11,
            buckets == histogram.buckets.deep_view(),
            buckets.len() == 12,
            total(buckets) == histogram.count,
            cumulative == total(buckets.subrange(0, i as int)),
            out@ == start + bucket_lines(buckets, i as nat),
        decreases 11 - i,
    {
        proof {
            lemma_total_prefix(buckets, i + 1);
            lemma_total_step(buckets, i as int);
            lemma_appended(
                start,
                bucket_lines(buckets, i as nat),
                bucket_line(
                    text::decimal(DURATION_BUCKETS_MS[i as int] as int),
                    total(buckets.subrange(0, i + 1)),
                ),
            );
        }
        assert(histogram.buckets[i as int] == buckets[i as int]);
        cumulative = cumulative + histogram.buckets[i];
        push_bucket(out, text::u64_text(DURATION_BUCKETS_MS[i]).as_str(), cumulative);
        i = i + 1;
    }
    proof {
        lemma_total_step(buckets, 11);
    }
    assert(buckets.subrange(0, 12) =~= buckets);
    assert(histogram.buckets[11] == buckets[11]);
    cumulative = cumulative + histogram.buckets[11];
    push_bucket(out, "+Inf", cumulative);
    let labels: Vec<(&str, &str)> = Vec::new();
    assert(label_views(labels@) =~= Seq::empty());
    push_counter(
        out,
        "streamline_operator_reconcile_duration_ms_sum",
        &labels,
        histogram.sum,
    );
    push_counter(
        out,
        "streamline_operator_reconcile_duration_ms_count",
        &labels,
        histogram.count,
    );
    proof {
        let s1 = bucket_lines(buckets, 11);
        let s2 = bucket_line("+Inf"@, total(buckets));
        let s3 = sample(
            "streamline_operator_reconcile_duration_ms_sum"@,
            Seq::empty(),
            histogram.sum,
        );
        let s4 = sample(
            "streamline_operator_reconcile_duration_ms_count"@,
            Seq::empty(),
            histogram.count,
        );
        lemma_appended(before, s0, s1);
        lemma_appended(before, s0 + s1, s2);
        lemma_appended(before, s0 + s1 + s2, s3);
        lemma_appended(before, s0 + s1 + s2 + s3, s4);
    }
}

// ---------------------------------------------------------------------------
// Laws
// ---------------------------------------------------------------------------

proof fn lemma_appended(front: Seq<char>, so_far: Seq<char>, more: Seq<char>)
    ensures
        (front + so_far) + more == front + (so_far + more),
{
    assert((front + so_far) + more =~= front + (so_far + more));
}

proof fn lemma_total_of_zeros(n: nat)
    ensures
        total(Seq::new(n, |i: int| 0u64)) == 0,
    decreases n,
{
    if n > 0 {
        lemma_total_of_zeros((n - 1) as nat);
        assert(Seq::new(n, |i: int| 0u64).drop_last() =~= Seq::new(
            (n - 1) as nat,
            |i: int| 0u64,
        ));
    }
}

/// No count exceeds the sum of the counts.
pub proof fn lemma_total_bounds(counts: Seq<u64>, i: int)
    requires
        0 <= i < counts.len(),
    ensures
        0 <= counts[i] <= total(counts),
    decreases counts.len(),
{
    if i < counts.len() - 1 {
        lemma_total_bounds(counts.drop_last(), i);
    } else {
        lemma_total_not_negative(counts.drop_last());
    }
}

proof fn lemma_total_not_negative(counts: Seq<u64>)
    ensures
        total(counts) >= 0,
    decreases counts.len(),
{
    if counts.len() > 0 {
        lemma_total_not_negative(counts.drop_last());
    }
}

proof fn lemma_total_update(counts: Seq<u64>, i: int, count: u64)
    requires
        0 <= i < counts.len(),
    ensures
        total(counts.update(i, count)) == total(counts) - counts[i] + count,
    decreases counts.len(),
{
    let front = counts.drop_last();
    if i < counts.len() - 1 {
        lemma_total_update(front, i, count);
        assert(counts.update(i, count).drop_last() =~= front.update(i, count));
    } else {
        assert(counts.update(i, count).drop_last() =~= front);
    }
}

proof fn lemma_total_prefix(counts: Seq<u64>, n: int)
    requires
        0 <= n <= counts.len(),
    ensures
        0 <= total(counts.subrange(0, n)) <= total(counts),
    decreases counts.len() - n,
{
    lemma_total_not_negative(counts.subrange(0, n));
    if n < counts.len() {
        lemma_total_prefix(counts, n + 1);
        lemma_total_step(counts, n);
    } else {
        assert(counts.subrange(0, n) =~= counts);
    }
}

proof fn lemma_total_step(counts: Seq<u64>, n: int)
    requires
        0 <= n < counts.len(),
    ensures
        total(counts.subrange(0, n + 1)) == total(counts.subrange(0, n)) + counts[n],
{
    let longer = counts.subrange(0, n + 1);
    assert(longer.drop_last() =~= counts.subrange(0, n));
}

proof fn lemma_bucket_from(ms: u64, i: int)
    requires
        0 <= i <= 11,
        i > 0 ==> ms > DURATION_BUCKETS_MS[i - 1],
    ensures
        in_bucket(ms, bucket_from(ms, i)),
    decreases 11 - i,
{
    if i < 11 && ms > DURATION_BUCKETS_MS[i] {
        lemma_bucket_from(ms, i + 1);
    }
}

/// Every duration belongs into one bucket, and is counted there.
pub proof fn law_each_duration_has_one_bucket(ms: u64, i: int)
    ensures
        0 <= bucket_of(ms) <= 11,
        in_bucket(ms, i) <==> i == bucket_of(ms),
{
    lemma_bucket_from(ms, 0);
    let b = bucket_of(ms);
    if in_bucket(ms, i) && i != b {
        if i < b {
            lemma_boundaries_rise(i, b - 1);
        } else {
            lemma_boundaries_rise(b, i - 1);
        }
    }
}

proof fn lemma_boundaries_rise(i: int, j: int)
    requires
        0 <= i <= j < 11,
    ensures
        DURATION_BUCKETS_MS[i] <= DURATION_BUCKETS_MS[j],
    decreases j - i,
{
    if i < j {
        lemma_boundaries_rise(i, j - 1);
        assert(DURATION_BUCKETS_MS[j - 1] <= DURATION_BUCKETS_MS[j]);
    }
}

/// The histogram after a sequence of observations.
pub open spec fn observed_all(values: Seq<u64>) -> DurationHistogramView
    decreases values.len(),
{
    if values.len() == 0 {
        empty_histogram()
    } else {
        observed(observed_all(values.drop_last()), values.last())
    }
}

/// How many of some durations belong into a bucket.
pub open spec fn members(values: Seq<u64>, i: int) -> nat
    decreases values.len(),
{
    if values.len() == 0 {
        0
    } else {
        members(values.drop_last(), i) + (if in_bucket(values.last(), i) {
            1nat
        } else {
            0
        })
    }
}

/// After any sequence of observations whose sum and number can be counted, each bucket holds
/// the number of durations that belong into it, and the sum and the count are those of the
/// sequence.
pub proof fn law_buckets_count_the_observations(values: Seq<u64>, i: int)
    requires
        total(values) <= u64::MAX,
        values.len() <= u64::MAX,
        0 <= i < 12,
    ensures
        observed_all(values).buckets.len() == 12,
        observed_all(values).buckets[i] == members(values, i),
        observed_all(values).sum == total(values),
        observed_all(values).count == values.len(),
    decreases values.len(),
{
    lemma_members_bounded(values, i);
    if values.len() > 0 {
        let front = values.drop_last();
        lemma_total_not_negative(front);
        let b = bucket_of(values.last());
        law_each_duration_has_one_bucket(values.last(), i);
        law_buckets_count_the_observations(front, i);
        lemma_members_bounded(front, i);
    }
}

proof fn lemma_members_bounded(values: Seq<u64>, i: int)
    ensures
        members(values, i) <= values.len(),
    decreases values.len(),
{
    if values.len() > 0 {
        lemma_members_bounded(values.drop_last(), i);
    }
}

/// The last cumulative bucket of a rendered histogram is its count.
pub proof fn law_the_last_bucket_is_the_count(histogram: DurationHistogramView)
    requires
        histogram_well_formed(histogram),
    ensures
        bucket_line("+Inf"@, total(histogram.buckets)) == bucket_line(
            "+Inf"@,
            histogram.count as int,
        ),
{
}

/// Counting a reconcile or an error of one kind of resource leaves the counters of the other
/// kinds, and everything else, as they were; one of no known kind counts only in the total.
pub proof fn law_only_the_named_resource_is_counted(
    metrics: OperatorMetricsView,
    resource: Seq<char>,
)
    ensures
        ({
            let after = reconcile_counted(metrics, resource);
            let base = OperatorMetricsView {
                reconcile_total: counted(metrics.reconcile_total),
                ..metrics
            };
            after == if resource == "cluster"@ {
                OperatorMetricsView {
                    reconcile_cluster_total: counted(metrics.reconcile_cluster_total),
                    ..base
                }
            } else if resource == "topic"@ {
                OperatorMetricsView {
                    reconcile_topic_total: counted(metrics.reconcile_topic_total),
                    ..base
                }
            } else if resource == "user"@ {
                OperatorMetricsView {
                    reconcile_user_total: counted(metrics.reconcile_user_total),
                    ..base
                }
            } else {
                base
            }
        }),
        ({
            let after = error_counted(metrics, resource);
            let base = OperatorMetricsView {
                reconcile_errors: counted(metrics.reconcile_errors),
                ..metrics
            };
            after == if resource == "cluster"@ {
                OperatorMetricsView {
                    reconcile_cluster_errors: counted(metrics.reconcile_cluster_errors),
                    ..base
                }
            } else if resource == "topic"@ {
                OperatorMetricsView {
                    reconcile_topic_errors: counted(metrics.reconcile_topic_errors),
                    ..base
                }
            } else if resource == "user"@ {
                OperatorMetricsView {
                    reconcile_user_errors: counted(metrics.reconcile_user_errors),
                    ..base
                }
            } else {
                base
            }
        }),
{
    reveal_strlit("cluster");
    reveal_strlit("topic");
    reveal_strlit("user");
    assert("cluster"@.len() == 7);
    assert("topic"@.len() == 5);
    assert("user"@.len() == 4);
}

} // verus!
