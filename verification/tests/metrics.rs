use streamline_operator::metrics::{push_counter, DurationHistogram, OperatorMetrics};

#[test]
fn test_inc_reconcile() {
    let mut m = OperatorMetrics::new();
    m.inc_reconcile("cluster");
    m.inc_reconcile("topic");
    m.inc_reconcile("topic");
    assert_eq!(m.reconcile_total, 3);
    assert_eq!(m.reconcile_cluster_total, 1);
    assert_eq!(m.reconcile_topic_total, 2);
}

#[test]
fn test_inc_success_and_error() {
    let mut m = OperatorMetrics::new();
    m.inc_success();
    m.inc_success();
    m.inc_error("cluster");
    assert_eq!(m.reconcile_success, 2);
    assert_eq!(m.reconcile_errors, 1);
    assert_eq!(m.reconcile_cluster_errors, 1);
}

#[test]
fn test_render_prometheus_format() {
    let mut m = OperatorMetrics::new();
    m.inc_reconcile("cluster");
    m.inc_success();
    let output = m.render();
    assert!(output.contains("streamline_operator_reconcile_total 1"));
    assert!(output.contains("streamline_operator_reconcile_success_total 1"));
    assert!(output.contains("# TYPE streamline_operator_reconcile_total counter"));
    assert!(output.contains(r#"resource="cluster""#));
}

#[test]
fn test_leader_transitions() {
    let mut m = OperatorMetrics::new();
    m.inc_leader_transition();
    m.inc_leader_transition();
    assert_eq!(m.leader_transitions, 2);
}

#[test]
fn test_duration_histogram() {
    let mut m = OperatorMetrics::new();
    m.observe_duration_ms(3); // bucket: ≤5
    m.observe_duration_ms(50); // bucket: ≤50
    m.observe_duration_ms(500); // bucket: ≤500
    m.observe_duration_ms(20000); // bucket: +Inf
    let output = m.render();
    assert!(output.contains("reconcile_duration_ms_bucket"));
    assert!(output.contains("reconcile_duration_ms_sum 20553"));
    assert!(output.contains("reconcile_duration_ms_count 4"));
    assert!(output.contains(r#"le="+Inf"} 4"#));
}

#[test]
fn test_duration_histogram_buckets_cumulative() {
    let h = &mut DurationHistogram::new();
    h.observe(1); // ≤5
    h.observe(7); // ≤10
    h.observe(100); // ≤100
    assert_eq!(h.count, 3);
    assert_eq!(h.sum, 108);
    assert_eq!(h.buckets[0], 1); // ≤5
    assert_eq!(h.buckets[1], 1); // ≤10
}

#[test]
fn boundaries_belong_to_the_bucket_that_they_close() {
    let mut h = DurationHistogram::new();
    h.observe(5);
    h.observe(6);
    h.observe(10);
    h.observe(10_000);
    h.observe(10_001);
    h.observe(0);
    assert_eq!(h.buckets, vec![2, 2, 0, 0, 0, 0, 0, 0, 0, 0, 1, 1]);
}

#[test]
fn a_full_histogram_has_no_room() {
    let mut h = DurationHistogram::new();
    assert!(h.has_room_for(u64::MAX));
    h.observe(u64::MAX - 1);
    assert!(h.has_room_for(1));
    assert!(!h.has_room_for(2));
}

#[test]
fn counters_start_again_after_the_largest_number() {
    let mut m = OperatorMetrics::new();
    m.reconcile_success = u64::MAX;
    m.inc_success();
    assert_eq!(m.reconcile_success, 0);
}

#[test]
fn unknown_resources_count_only_in_the_totals() {
    let mut m = OperatorMetrics::new();
    m.inc_reconcile("branch");
    m.inc_error("memory");
    assert_eq!((m.reconcile_total, m.reconcile_errors), (1, 1));
    assert_eq!(
        (m.reconcile_cluster_total, m.reconcile_topic_total, m.reconcile_user_total),
        (0, 0, 0)
    );
    assert_eq!(
        (m.reconcile_cluster_errors, m.reconcile_topic_errors, m.reconcile_user_errors),
        (0, 0, 0)
    );
}

#[test]
fn samples_list_their_labels() {
    let mut out = String::from("# before\n");
    push_counter(&mut out, "hits", &vec![], 7);
    push_counter(&mut out, "hits", &vec![("a", "x")], 8);
    push_counter(&mut out, "hits", &vec![("a", "x"), ("b", "y")], 9);
    assert_eq!(out, "# before\nhits 7\nhits{a=\"x\"} 8\nhits{a=\"x\",b=\"y\"} 9\n");
}

#[test]
fn the_whole_exposition_of_a_busy_operator() {
    let mut m = OperatorMetrics::new();
    m.inc_reconcile("cluster");
    m.inc_reconcile("user");
    m.inc_success();
    m.inc_error("topic");
    m.inc_leader_transition();
    m.set_leader(true);
    m.observe_duration_ms(12);
    m.observe_duration_ms(70_000);
    let expected = "\
# HELP streamline_operator_reconcile_total Total reconciliation attempts
# TYPE streamline_operator_reconcile_total counter
streamline_operator_reconcile_total 2
# HELP streamline_operator_reconcile_success_total Successful reconciliations
# TYPE streamline_operator_reconcile_success_total counter
streamline_operator_reconcile_success_total 1
# HELP streamline_operator_reconcile_errors_total Failed reconciliations
# TYPE streamline_operator_reconcile_errors_total counter
streamline_operator_reconcile_errors_total 1
# HELP streamline_operator_reconcile_by_resource_total Reconciliations per resource type
# TYPE streamline_operator_reconcile_by_resource_total counter
streamline_operator_reconcile_by_resource_total{resource=\"cluster\"} 1
streamline_operator_reconcile_by_resource_total{resource=\"topic\"} 0
streamline_operator_reconcile_by_resource_total{resource=\"user\"} 1
# HELP streamline_operator_reconcile_errors_by_resource_total Errors per resource type
# TYPE streamline_operator_reconcile_errors_by_resource_total counter
streamline_operator_reconcile_errors_by_resource_total{resource=\"cluster\"} 0
streamline_operator_reconcile_errors_by_resource_total{resource=\"topic\"} 1
streamline_operator_reconcile_errors_by_resource_total{resource=\"user\"} 0
# HELP streamline_operator_leader_transitions_total Leader election transitions
# TYPE streamline_operator_leader_transitions_total counter
streamline_operator_leader_transitions_total 1
# HELP streamline_operator_leader Whether this replica holds the leader Lease
# TYPE streamline_operator_leader gauge
streamline_operator_leader 1
# HELP streamline_operator_reconcile_duration_ms Reconciliation duration in milliseconds
# TYPE streamline_operator_reconcile_duration_ms histogram
streamline_operator_reconcile_duration_ms_bucket{le=\"5\"} 0
streamline_operator_reconcile_duration_ms_bucket{le=\"10\"} 0
streamline_operator_reconcile_duration_ms_bucket{le=\"25\"} 1
streamline_operator_reconcile_duration_ms_bucket{le=\"50\"} 1
streamline_operator_reconcile_duration_ms_bucket{le=\"100\"} 1
streamline_operator_reconcile_duration_ms_bucket{le=\"250\"} 1
streamline_operator_reconcile_duration_ms_bucket{le=\"500\"} 1
streamline_operator_reconcile_duration_ms_bucket{le=\"1000\"} 1
streamline_operator_reconcile_duration_ms_bucket{le=\"2500\"} 1
streamline_operator_reconcile_duration_ms_bucket{le=\"5000\"} 1
streamline_operator_reconcile_duration_ms_bucket{le=\"10000\"} 1
streamline_operator_reconcile_duration_ms_bucket{le=\"+Inf\"} 2
streamline_operator_reconcile_duration_ms_sum 70012
streamline_operator_reconcile_duration_ms_count 2
";
    assert_eq!(m.render(), expected);
}
