use std::sync::{Arc, Mutex};
use streamline_operator::health::{healthz, leaderz, readyz, ReadinessState};
use streamline_operator::metrics::OperatorMetrics;

#[test]
fn state_starts_unready_and_not_leader() {
    let state = ReadinessState::new();
    assert!(!state.is_ready());
    assert!(!state.is_leader());
}

#[test]
fn readiness_and_leadership_are_independent() {
    let mut state = ReadinessState::new();
    let mut metrics = OperatorMetrics::new();

    // A standby: ready, but not the leader.
    state.mark_ready();
    assert!(state.is_ready());
    assert!(!state.is_leader());

    // Acquiring the lease does not change readiness.
    state.mark_leader(&mut metrics);
    assert!(state.is_ready());
    assert!(state.is_leader());

    // Losing the lease demotes to standby but keeps the process ready, so
    // the replica can take the lease again without a restart.
    state.mark_standby(&mut metrics);
    assert!(state.is_ready());
    assert!(!state.is_leader());
}

#[test]
fn losing_readiness_also_drops_leadership() {
    let mut state = ReadinessState::new();
    let mut metrics = OperatorMetrics::new();
    state.mark_ready();
    state.mark_leader(&mut metrics);

    state.mark_unready(&mut metrics);
    assert!(!state.is_ready());
    assert!(
        !state.is_leader(),
        "a process that cannot reconcile must not claim leadership"
    );
}

#[test]
fn clones_share_the_same_flags() {
    let state = Arc::new(Mutex::new(ReadinessState::new()));
    let clone = Arc::clone(&state);
    let mut metrics = OperatorMetrics::new();

    state.lock().unwrap().mark_ready();
    assert!(clone.lock().unwrap().is_ready());

    clone.lock().unwrap().mark_leader(&mut metrics);
    assert!(state.lock().unwrap().is_leader());

    clone.lock().unwrap().mark_unready(&mut metrics);
    assert!(!state.lock().unwrap().is_ready());
}

#[test]
fn readyz_reports_service_unavailable_until_the_process_is_initialised() {
    let mut state = ReadinessState::new();
    let mut metrics = OperatorMetrics::new();

    assert_eq!(readyz(&state).status, 503);
    assert_eq!(readyz(&state).body, "operator not initialised");

    state.mark_ready();
    assert_eq!(readyz(&state).status, 200);
    assert_eq!(readyz(&state).body, "ok");

    state.mark_unready(&mut metrics);
    assert_eq!(readyz(&state).status, 503);
}

/// A standby replica must pass the readiness probe so a rolling update of an
/// HA Deployment can finish.
#[test]
fn a_leader_election_standby_is_ready_but_not_leader() {
    let mut state = ReadinessState::new();
    state.mark_ready();

    assert_eq!(
        readyz(&state).status,
        200,
        "a standby must pass /readyz or rolling updates deadlock"
    );
    assert_eq!(leaderz(&state).status, 503, "a standby must not answer /leaderz");
    assert_eq!(leaderz(&state).body, "standby");
}

#[test]
fn leaderz_tracks_lease_acquisition_and_loss() {
    let mut state = ReadinessState::new();
    let mut metrics = OperatorMetrics::new();
    state.mark_ready();

    state.mark_leader(&mut metrics);
    assert_eq!(leaderz(&state).status, 200);
    assert_eq!(leaderz(&state).body, "leader");

    state.mark_standby(&mut metrics);
    assert_eq!(leaderz(&state).status, 503);
    assert_eq!(
        readyz(&state).status,
        200,
        "losing the lease must not make a healthy process unready"
    );
}

#[test]
fn healthz_is_independent_of_readiness_and_leadership() {
    assert_eq!(healthz(), "ok");
}

#[test]
fn the_leader_gauge_follows_the_leader_flag() {
    let mut state = ReadinessState::default();
    let mut metrics = OperatorMetrics::new();
    assert!(!metrics.leader);
    state.mark_leader(&mut metrics);
    assert!(metrics.leader);
    state.mark_standby(&mut metrics);
    assert!(!metrics.leader);
    state.mark_leader(&mut metrics);
    state.mark_unready(&mut metrics);
    assert!(!metrics.leader);
}
