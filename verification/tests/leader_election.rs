use streamline_operator::leader_election::{
    after_renewal, detect_namespace, identity_from, read_failure, retry_after, write_outcome,
    AcquireStep, LeaderElector, LeaseSpec, ReadFailure, WriteOutcome, LEASE_DURATION_SECS,
    LEASE_NAME, RENEW_INTERVAL_SECS,
};

const SECOND: i64 = 1_000_000;

fn elector(identity: &str) -> LeaderElector {
    LeaderElector {
        identity: identity.to_string(),
    }
}

fn lease(holder: Option<&str>, renewed: i64) -> LeaseSpec {
    LeaseSpec {
        holder_identity: holder.map(str::to_string),
        lease_duration_seconds: Some(LEASE_DURATION_SECS),
        acquire_time: Some(7),
        renew_time: Some(renewed),
        lease_transitions: Some(4),
    }
}

#[test]
fn the_namespace_is_explicit_or_that_of_the_service_account() {
    assert_eq!(detect_namespace("ops", Some("sa")), "ops");
    assert_eq!(detect_namespace("", Some(" streamline-system\n")), "streamline-system");
    assert_eq!(detect_namespace("", None), "default");
}

#[test]
fn the_identity_is_the_pod_the_host_or_made_up() {
    assert_eq!(identity_from(Some("pod-0"), Some("host"), 1), "pod-0");
    assert_eq!(identity_from(None, Some("host"), 1), "host");
    assert_eq!(identity_from(None, None, 0xbeef), "operator-0000beef");
    assert_eq!(LeaderElector::new(Some("pod-0"), None).identity, "pod-0");
    let one = LeaderElector::new(None, None).identity;
    assert!(one.starts_with("operator-"));
    assert_eq!(one.len(), "operator-".len() + 8);
    // Sixteen draws of 32 random bits are not all alike.
    assert!((0..16).any(|_| LeaderElector::new(None, None).identity != one));
}

#[test]
fn a_lease_expires_after_its_whole_seconds() {
    let spec = lease(Some("a"), 0);
    assert!(!LeaderElector::is_expired_at(Some(&spec), 15 * SECOND));
    assert!(!LeaderElector::is_expired_at(Some(&spec), 16 * SECOND - 1));
    assert!(LeaderElector::is_expired_at(Some(&spec), 16 * SECOND));
    assert!(LeaderElector::is_expired_at(None, 0));
    let mut unset = lease(Some("a"), 0);
    unset.renew_time = None;
    assert!(LeaderElector::is_expired_at(Some(&unset), 0));
    unset.renew_time = Some(0);
    unset.lease_duration_seconds = None;
    assert!(!LeaderElector::is_expired_at(Some(&unset), 15 * SECOND));
    assert!(LeaderElector::is_expired_at(Some(&unset), 16 * SECOND));
    // The far ends of time neither overflow nor expire ahead of it.
    let future = lease(Some("a"), i64::MAX);
    assert!(!LeaderElector::is_expired_at(Some(&future), i64::MIN));
}

#[test]
fn expiry_is_judged_by_the_clock() {
    let now = chrono::Utc::now().timestamp_micros();
    assert!(!LeaderElector::is_expired(Some(&lease(Some("a"), now))));
    assert!(LeaderElector::is_expired(Some(&lease(Some("a"), now - 60 * SECOND))));
}

#[test]
fn a_held_lease_is_left_alone() {
    let spec = lease(Some("a"), 100);
    assert_eq!(elector("b").on_lease_at(Some(&spec), 200, 200), AcquireStep::Wait);
    assert_eq!(elector("b").renew(Some(&spec), 200), None);
    assert_eq!(elector("b").release(Some(&spec)), None);
}

#[test]
fn an_expired_lease_is_taken_over() {
    let spec = lease(Some("a"), 0);
    let step = elector("b").on_lease_at(Some(&spec), 20 * SECOND, 20 * SECOND);
    assert_eq!(
        step,
        AcquireStep::Replace(LeaseSpec {
            holder_identity: Some("b".to_string()),
            lease_duration_seconds: Some(15),
            acquire_time: Some(20 * SECOND),
            renew_time: Some(20 * SECOND),
            lease_transitions: Some(5),
        })
    );
    let now = chrono::Utc::now().timestamp_micros();
    assert_eq!(
        elector("b").on_lease(Some(&lease(Some("a"), now)), now),
        AcquireStep::Wait
    );
}

#[test]
fn an_own_lease_is_renewed_in_its_term() {
    let spec = lease(Some("a"), 0);
    let step = elector("a").on_lease_at(Some(&spec), 3, 3);
    let expected = LeaseSpec {
        renew_time: Some(3),
        ..lease(Some("a"), 0)
    };
    assert_eq!(step, AcquireStep::Replace(expected.clone()));
    assert_eq!(elector("a").renew(Some(&spec), 3), Some(expected));
    assert_eq!(elector("a").renew(None, 3), None);
}

#[test]
fn a_missing_lease_is_created() {
    assert_eq!(
        elector("a").on_missing_lease(9),
        AcquireStep::Create(LeaseSpec {
            holder_identity: Some("a".to_string()),
            lease_duration_seconds: Some(15),
            acquire_time: Some(9),
            renew_time: Some(9),
            lease_transitions: Some(0),
        })
    );
    assert_eq!(LEASE_NAME, "streamline-operator-leader");
}

#[test]
fn a_released_lease_has_no_holder() {
    let released = elector("a").release(Some(&lease(Some("a"), 0))).unwrap();
    assert_eq!(released.holder_identity, None);
    assert_eq!(released.renew_time, Some(0));
    assert_eq!(elector("a").release(Some(&released)), None);
}

#[test]
fn a_released_lease_is_taken_over_at_once() {
    let released = elector("a").release(Some(&lease(Some("a"), 0))).unwrap();
    for now in [SECOND, 16 * SECOND] {
        assert!(elector("b").takes_over_at(Some(&released), now));
        assert_eq!(
            elector("b").on_lease_at(Some(&released), now, now),
            AcquireStep::Replace(LeaseSpec {
                holder_identity: Some("b".to_string()),
                lease_duration_seconds: Some(15),
                acquire_time: Some(now),
                renew_time: Some(now),
                lease_transitions: Some(5),
            })
        );
    }
    let now = chrono::Utc::now().timestamp_micros();
    assert!(matches!(
        elector("b").on_lease(Some(&lease(None, now)), now),
        AcquireStep::Replace(_)
    ));
}

#[test]
fn only_a_free_lease_of_another_replica_is_taken_over() {
    let spec = lease(Some("a"), 0);
    assert!(!elector("a").takes_over_at(Some(&spec), 60 * SECOND));
    assert!(!elector("b").takes_over_at(Some(&spec), SECOND));
    assert!(elector("b").takes_over_at(Some(&spec), 60 * SECOND));
    assert!(elector("b").takes_over_at(None, 0));
    // A full count matters only to a replica that takes over.
    let full = LeaseSpec {
        lease_transitions: Some(i32::MAX),
        ..lease(Some("a"), 0)
    };
    assert_eq!(elector("b").on_lease_at(Some(&full), 1, 1), AcquireStep::Wait);
}

#[test]
fn only_a_conflict_means_that_the_lease_was_lost() {
    assert_eq!(write_outcome(Ok(())), WriteOutcome::Held);
    assert_eq!(write_outcome(Err(Some(409))), WriteOutcome::Lost);
    assert_eq!(write_outcome(Err(Some(500))), WriteOutcome::Failed);
    assert_eq!(write_outcome(Err(None)), WriteOutcome::Failed);
    assert_eq!(retry_after(WriteOutcome::Held), None);
    assert_eq!(retry_after(WriteOutcome::Lost), Some(5));
    assert_eq!(retry_after(WriteOutcome::Failed), Some(5));
    assert_eq!(elector("a").renew_interval(), RENEW_INTERVAL_SECS);
}

#[test]
fn only_a_held_lease_keeps_the_leadership() {
    assert!(after_renewal(WriteOutcome::Held));
    assert!(!after_renewal(WriteOutcome::Lost));
    assert!(!after_renewal(WriteOutcome::Failed));
}

#[test]
fn only_a_404_means_that_there_is_no_lease() {
    assert_eq!(read_failure(Some(404)), ReadFailure::Missing);
    assert_eq!(read_failure(Some(403)), ReadFailure::Failed);
    assert_eq!(read_failure(None), ReadFailure::Failed);
}
