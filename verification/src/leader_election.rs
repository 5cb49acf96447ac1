//! Kubernetes Lease-based leader election for HA operator deployments.
//!
//! When multiple operator replicas run simultaneously, only the leader
//! (the holder of the Lease) runs the reconciliation controllers. Other
//! replicas wait until the current leader's lease expires or is released.

use crate::clock;
use crate::text;
use vstd::prelude::*;
use vstd::string::*;

verus! {

/// The name of the Lease.
pub const LEASE_NAME: &'static str = "streamline-operator-leader";

/// How long a lease holds after it was renewed.
pub const LEASE_DURATION_SECS: i32 = 15;

/// Seconds between two renewals of a held lease.
pub const RENEW_INTERVAL_SECS: u64 = 10;

/// Seconds between two attempts to acquire a lease.
pub const RETRY_INTERVAL_SECS: u64 = 5;

/// The contents of a `coordination.k8s.io/v1` Lease. Times are in microseconds since the Unix
/// epoch, which is the precision that Kubernetes keeps them with.
#[derive(Debug, PartialEq, Eq)]
pub struct LeaseSpec {
    pub holder_identity: Option<String>,
    pub lease_duration_seconds: Option<i32>,
    pub acquire_time: Option<i64>,
    pub renew_time: Option<i64>,
    pub lease_transitions: Option<i32>,
}

/// What a [`LeaseSpec`] holds, over characters and sequences.
#[verifier::ext_equal]
pub struct LeaseSpecView {
    pub holder_identity: Option<Seq<char>>,
    pub lease_duration_seconds: Option<i32>,
    pub acquire_time: Option<i64>,
    pub renew_time: Option<i64>,
    pub lease_transitions: Option<i32>,
}

impl DeepView for LeaseSpec {
    type V = LeaseSpecView;

    open spec fn deep_view(&self) -> LeaseSpecView {
        LeaseSpecView {
            holder_identity: self.holder_identity.deep_view(),
            lease_duration_seconds: self.lease_duration_seconds,
            acquire_time: self.acquire_time,
            renew_time: self.renew_time,
            lease_transitions: self.lease_transitions,
        }
    }
}

impl Clone for LeaseSpec {
    fn clone(&self) -> (copy: Self)
        ensures
            copy.deep_view() == self.deep_view(),
    {
        LeaseSpec {
            holder_identity: self.holder_identity.clone(),
            lease_duration_seconds: self.lease_duration_seconds,
            acquire_time: self.acquire_time,
            renew_time: self.renew_time,
            lease_transitions: self.lease_transitions,
        }
    }
}

/// How writing a lease ended.
#[derive(Clone, Copy, Debug, PartialEq, Eq, Structural)]
pub enum WriteOutcome {
    /// The lease is ours
    Held,
    /// Someone else wrote it in between
    Lost,
    /// The write failed
    Failed,
}

impl DeepView for WriteOutcome {
    type V = Self;

    open spec fn deep_view(&self) -> Self {
        *self
    }
}

/// Why the lease could not be read.
#[derive(Clone, Copy, Debug, PartialEq, Eq, Structural)]
pub enum ReadFailure {
    /// There is no lease yet
    Missing,
    /// The read failed
    Failed,
}

impl DeepView for ReadFailure {
    type V = Self;

    open spec fn deep_view(&self) -> Self {
        *self
    }
}

/// What an attempt to acquire the lease does once it has read it.
#[derive(Debug, PartialEq, Eq)]
pub enum AcquireStep {
    /// Replace the contents of the lease
    Replace(LeaseSpec),
    /// Create the lease with these contents
    Create(LeaseSpec),
    /// Leave the lease to its holder
    Wait,
}

/// What [`AcquireStep`] says, over characters and sequences.
#[verifier::ext_equal]
pub enum AcquireStepView {
    Replace(LeaseSpecView),
    Create(LeaseSpecView),
    Wait,
}

impl DeepView for AcquireStep {
    type V = AcquireStepView;

    open spec fn deep_view(&self) -> AcquireStepView {
        match self {
            AcquireStep::Replace(v0) => AcquireStepView::Replace(v0.deep_view()),
            AcquireStep::Create(v0) => AcquireStepView::Create(v0.deep_view()),
            AcquireStep::Wait => AcquireStepView::Wait,
        }
    }
}

/// Lease-based leader election for Kubernetes operator HA deployments.
///
/// Uses a Lease object with optimistic concurrency to ensure only one operator instance
/// runs the controllers at a time.
#[derive(Debug, PartialEq, Eq)]
pub struct LeaderElector {
    /// The name by which this replica holds the lease
    pub identity: String,
}

/// What a [`LeaderElector`] holds, over characters and sequences.
#[verifier::ext_equal]
pub struct LeaderElectorView {
    pub identity: Seq<char>,
}

impl DeepView for LeaderElector {
    type V = LeaderElectorView;

    open spec fn deep_view(&self) -> LeaderElectorView {
        LeaderElectorView {
            identity: self.identity@,
        }
    }
}

// ---------------------------------------------------------------------------
// Model
// ---------------------------------------------------------------------------

/// The namespace of the lease, given the contents of the service account file if it could be
/// read.
pub open spec fn lease_namespace(
    explicit: Seq<char>,
    service_account: Option<Seq<char>>,
) -> Seq<char> {
    if explicit.len() > 0 {
        explicit
    } else {
        match service_account {
            Some(contents) => text::trimmed(contents),
            None => "default"@,
        }
    }
}

/// The identity of a replica, given the names that its environment tells and a number to make
/// one up from.
pub open spec fn identity_of(
    pod_name: Option<Seq<char>>,
    host_name: Option<Seq<char>>,
    number: u32,
) -> Seq<char> {
    match pod_name {
        Some(name) => name,
        None => match host_name {
            Some(name) => name,
            None => "operator-"@ + text::hex8(number as nat),
        },
    }
}

/// Microseconds as whole seconds, rounded towards zero.
pub open spec fn whole_seconds(micros: int) -> int {
    if micros >= 0 {
        micros / 1_000_000
    } else {
        -((-micros) / 1_000_000)
    }
}

/// How long a lease holds after it was renewed.
pub open spec fn lease_duration(spec: Option<LeaseSpecView>) -> int {
    match spec {
        Some(LeaseSpecView { lease_duration_seconds: Some(seconds), .. }) => seconds as int,
        _ => LEASE_DURATION_SECS as int,
    }
}

/// Whether a lease has expired at `now`: it was never renewed, or longer ago than it holds.
pub open spec fn expired(spec: Option<LeaseSpecView>, now: i64) -> bool {
    match spec {
        Some(LeaseSpecView { renew_time: Some(renewed), .. }) => whole_seconds(now - renewed)
            > lease_duration(spec),
        _ => true,
    }
}

/// Whether a lease is held by a replica.
pub open spec fn held_by(spec: Option<LeaseSpecView>, identity: Seq<char>) -> bool {
    match spec {
        Some(spec) => spec.holder_identity == Some(identity),
        None => false,
    }
}

/// Whether a lease is free at `now`: it has expired, or its holder released it.
pub open spec fn vacant(spec: Option<LeaseSpecView>, now: i64) -> bool {
    expired(spec, now) || spec->0.holder_identity is None
}

/// Whether a replica that reads a lease takes it over: it is free, and not the replica's own.
pub open spec fn taken_over(identity: Seq<char>, spec: Option<LeaseSpecView>, now: i64) -> bool {
    !held_by(spec, identity) && vacant(spec, now)
}

/// How often a lease has changed hands.
pub open spec fn transitions(spec: Option<LeaseSpecView>) -> i32 {
    match spec {
        Some(LeaseSpecView { lease_transitions: Some(count), .. }) => count,
        _ => 0,
    }
}

/// The first contents of a lease.
pub open spec fn created(identity: Seq<char>, now: i64) -> LeaseSpecView {
    LeaseSpecView {
        holder_identity: Some(identity),
        lease_duration_seconds: Some(LEASE_DURATION_SECS),
        acquire_time: Some(now),
        renew_time: Some(now),
        lease_transitions: Some(0),
    }
}

/// The contents of a lease that a replica took over or renewed.
pub open spec fn updated(
    spec: Option<LeaseSpecView>,
    identity: Seq<char>,
    now: i64,
    takeover: bool,
) -> LeaseSpecView {
    LeaseSpecView {
        holder_identity: Some(identity),
        lease_duration_seconds: Some(LEASE_DURATION_SECS),
        acquire_time: if takeover {
            Some(now)
        } else {
            match spec {
                Some(spec) => spec.acquire_time,
                None => None,
            }
        },
        renew_time: Some(now),
        lease_transitions: Some(
            if takeover {
                (transitions(spec) + 1) as i32
            } else {
                transitions(spec)
            },
        ),
    }
}

/// What an attempt to acquire a lease does once it has read it: `stamp` is the time that the
/// attempt started at, `now` the time at which expiry is judged. A lease that its holder
/// released is taken over at once.
pub open spec fn step_on_lease(
    identity: Seq<char>,
    spec: Option<LeaseSpecView>,
    stamp: i64,
    now: i64,
) -> AcquireStepView {
    if held_by(spec, identity) {
        AcquireStepView::Replace(updated(spec, identity, stamp, false))
    } else if vacant(spec, now) {
        AcquireStepView::Replace(updated(spec, identity, stamp, true))
    } else {
        AcquireStepView::Wait
    }
}

/// The contents that renew a lease, or nothing if the replica does not hold it.
pub open spec fn renewal(
    identity: Seq<char>,
    spec: Option<LeaseSpecView>,
    now: i64,
) -> Option<LeaseSpecView> {
    match spec {
        Some(held) if held_by(spec, identity) => Some(
            LeaseSpecView { renew_time: Some(now), ..held },
        ),
        _ => None,
    }
}

/// The contents that release a lease, or nothing if the replica does not hold it.
pub open spec fn released(
    identity: Seq<char>,
    spec: Option<LeaseSpecView>,
) -> Option<LeaseSpecView> {
    match spec {
        Some(held) if held_by(spec, identity) => Some(
            LeaseSpecView { holder_identity: None, ..held },
        ),
        _ => None,
    }
}

// ---------------------------------------------------------------------------
// Code
// ---------------------------------------------------------------------------

/// Detects the namespace for leader election.
///
/// Priority: explicit argument → service account file → `"default"`. The contents of the file
/// are handed in, or nothing where it cannot be read.
pub fn detect_namespace(explicit: &str, service_account: Option<&str>) -> (namespace: String)
    ensures
        namespace@ == lease_namespace(explicit@, service_account.deep_view()),
{
    if explicit.unicode_len() > 0 {
        return explicit.to_owned();
    }
    match service_account {
        Some(contents) => text::trim_text(contents).to_owned(),
        None => "default".to_owned(),
    }
}

/// `rand::random::<u32>()`: a random number. Nothing is claimed of it.
#[verifier::external_body]
fn random_u32() -> (number: u32) {
    rand::random::<u32>()
}

/// The identity of a replica: the name of its pod, else of its host, else a name made up from
/// `number`.
pub fn identity_from(
    pod_name: Option<&str>,
    host_name: Option<&str>,
    number: u32,
) -> (identity: String)
    ensures
        identity@ == identity_of(pod_name.deep_view(), host_name.deep_view(), number),
{
    match pod_name {
        Some(name) => name.to_owned(),
        None => match host_name {
            Some(name) => name.to_owned(),
            None => "operator-".to_owned().concat(text::hex8_text(number).as_str()),
        },
    }
}

/// Judge how writing a lease ended: by success, by an error of the API with a status code, or
/// by another error. A conflict means that someone else wrote the lease.
pub fn write_outcome(result: core::result::Result<(), Option<u16>>) -> (outcome: WriteOutcome)
    ensures
        outcome == match result {
            Ok(()) => WriteOutcome::Held,
            Err(Some(code)) => if code == 409 {
                WriteOutcome::Lost
            } else {
                WriteOutcome::Failed
            },
            Err(None) => WriteOutcome::Failed,
        },
{
    match result {
        Ok(()) => WriteOutcome::Held,
        Err(Some(code)) => if code == 409 {
            WriteOutcome::Lost
        } else {
            WriteOutcome::Failed
        },
        Err(None) => WriteOutcome::Failed,
    }
}

/// Judge why the lease could not be read: by an error of the API with a status code, or by
/// another error.
pub fn read_failure(code: Option<u16>) -> (failure: ReadFailure)
    ensures
        failure == if code == Some(404u16) {
            ReadFailure::Missing
        } else {
            ReadFailure::Failed
        },
{
    match code {
        Some(404) => ReadFailure::Missing,
        _ => ReadFailure::Failed,
    }
}

/// Whether a replica leads on after an attempt to renew the lease: only if it holds the lease
/// still. A renewal that failed costs the leadership as one that was lost does.
pub fn after_renewal(outcome: WriteOutcome) -> (kept: bool)
    ensures
        kept == (outcome == WriteOutcome::Held),
{
    matches!(outcome, WriteOutcome::Held)
}

/// Seconds to wait before the next attempt to acquire the lease, or nothing once it is held.
pub fn retry_after(outcome: WriteOutcome) -> (wait: Option<u64>)
    ensures
        wait == match outcome {
            WriteOutcome::Held => None,
            _ => Some(RETRY_INTERVAL_SECS),
        },
{
    match outcome {
        WriteOutcome::Held => None,
        _ => Some(RETRY_INTERVAL_SECS),
    }
}

impl LeaderElector {
    /// An elector that acts under the name of its pod, else of its host, else under a random
    /// name.
    pub fn new(pod_name: Option<&str>, host_name: Option<&str>) -> (elector: Self)
        ensures
            exists|number: u32|
                elector.identity@ == #[trigger] identity_of(
                    pod_name.deep_view(),
                    host_name.deep_view(),
                    number,
                ),
    {
        let number = random_u32();
        let identity = identity_from(pod_name, host_name, number);
        LeaderElector { identity }
    }

    /// Returns the recommended number of seconds between lease renewals.
    pub fn renew_interval(&self) -> (seconds: u64)
        ensures
            seconds == RENEW_INTERVAL_SECS,
    {
        RENEW_INTERVAL_SECS
    }

    fn holds(&self, spec: Option<&LeaseSpec>) -> (held: bool)
        ensures
            held == held_by(spec.deep_view(), self.identity@),
    {
        match spec {
            Some(spec) => match &spec.holder_identity {
                Some(holder) => text::text_eq(holder.as_str(), self.identity.as_str()),
                None => false,
            },
            None => false,
        }
    }

    /// Whether a lease has expired.
    pub fn is_expired(spec: Option<&LeaseSpec>) -> (is_expired: bool)
        ensures
            exists|now: i64|
                0 <= now <= clock::LAST_MICROSECOND && is_expired == #[trigger] expired(
                    spec.deep_view(),
                    now,
                ),
    {
        let now = clock::now_micros();
        Self::is_expired_at(spec, now)
    }

    /// Whether a lease has expired at `now`.
    pub fn is_expired_at(spec: Option<&LeaseSpec>, now: i64) -> (is_expired: bool)
        ensures
            is_expired == expired(spec.deep_view(), now),
    {
        match spec {
            Some(spec) => {
                let duration: i128 = match spec.lease_duration_seconds {
                    Some(seconds) => seconds as i128,
                    None => LEASE_DURATION_SECS as i128,
                };
                match spec.renew_time {
                    Some(renewed) => {
                        let elapsed: i128 = now as i128 - renewed as i128;
                        let seconds: i128 = if elapsed >= 0 {
                            (elapsed as u128 / 1_000_000) as i128
                        } else {
                            -(((-elapsed) as u128 / 1_000_000) as i128)
                        };
                        seconds > duration
                    },
                    None => true,
                }
            },
            None => true,
        }
    }

    /// Whether this replica takes the lease over at `now`: it is not its own, and has expired
    /// or was released.
    pub fn takes_over_at(&self, spec: Option<&LeaseSpec>, now: i64) -> (taken: bool)
        ensures
            taken == taken_over(self.identity@, spec.deep_view(), now),
    {
        let free = match spec {
            Some(spec) => spec.holder_identity.is_none(),
            None => true,
        };
        !self.holds(spec) && (free || Self::is_expired_at(spec, now))
    }

    /// What an attempt to acquire the lease does once it has read it. The attempt started at
    /// `stamp`; whether the lease has expired is judged by the clock.
    pub fn on_lease(&self, spec: Option<&LeaseSpec>, stamp: i64) -> (step: AcquireStep)
        requires
            held_by(spec.deep_view(), self.identity@) || transitions(spec.deep_view()) < i32::MAX,
        ensures
            exists|now: i64|
                0 <= now <= clock::LAST_MICROSECOND && step.deep_view() == #[trigger] step_on_lease(
                    self.identity@,
                    spec.deep_view(),
                    stamp,
                    now,
                ),
    {
        let now = clock::now_micros();
        self.on_lease_at(spec, stamp, now)
    }

    /// What an attempt to acquire the lease does once it has read it, judged at `now`.
    pub fn on_lease_at(&self, spec: Option<&LeaseSpec>, stamp: i64, now: i64) -> (step: AcquireStep)
        requires
            taken_over(self.identity@, spec.deep_view(), now) ==> transitions(spec.deep_view())
                < i32::MAX,
        ensures
            step.deep_view() == step_on_lease(self.identity@, spec.deep_view(), stamp, now),
    {
        if self.holds(spec) {
            // Already ours — renew
            AcquireStep::Replace(self.update_lease(spec, stamp, false))
        } else if self.takes_over_at(spec, now) {
            // Expired or released — attempt takeover
            AcquireStep::Replace(self.update_lease(spec, stamp, true))
        } else {
            AcquireStep::Wait
        }
    }

    /// What an attempt to acquire the lease does when there is none.
    pub fn on_missing_lease(&self, stamp: i64) -> (step: AcquireStep)
        ensures
            step.deep_view() == AcquireStepView::Create(created(self.identity@, stamp)),
    {
        AcquireStep::Create(self.create_lease(stamp))
    }

    /// The first contents of the lease.
    pub fn create_lease(&self, now: i64) -> (spec: LeaseSpec)
        ensures
            spec.deep_view() == created(self.identity@, now),
    {
        LeaseSpec {
            holder_identity: Some(self.identity.clone()),
            lease_duration_seconds: Some(LEASE_DURATION_SECS),
            acquire_time: Some(now),
            renew_time: Some(now),
            lease_transitions: Some(0),
        }
    }

    /// The contents of a lease that this replica takes over or renews.
    pub fn update_lease(&self, existing: Option<&LeaseSpec>, now: i64, takeover: bool) -> (spec:
        LeaseSpec)
        requires
            takeover ==> transitions(existing.deep_view()) < i32::MAX,
        ensures
            spec.deep_view() == updated(existing.deep_view(), self.identity@, now, takeover),
    {
        let count: i32 = match existing {
            Some(spec) => match spec.lease_transitions {
                Some(count) => count,
                None => 0,
            },
            None => 0,
        };
        LeaseSpec {
            holder_identity: Some(self.identity.clone()),
            lease_duration_seconds: Some(LEASE_DURATION_SECS),
            acquire_time: if takeover {
                Some(now)
            } else {
                match existing {
                    Some(spec) => spec.acquire_time,
                    None => None,
                }
            },
            renew_time: Some(now),
            lease_transitions: Some(
                if takeover {
                    count + 1
                } else {
                    count
                },
            ),
        }
    }

    /// The contents that renew the lease at `now`, or nothing if this replica lost it.
    pub fn renew(&self, spec: Option<&LeaseSpec>, now: i64) -> (renewed: Option<LeaseSpec>)
        ensures
            renewed.deep_view() == renewal(self.identity@, spec.deep_view(), now),
    {
        if !self.holds(spec) {
            return None;
        }
        match spec {
            Some(held) => {
                let mut renewed = held.clone();
                renewed.renew_time = Some(now);
                Some(renewed)
            },
            None => None,
        }
    }

    /// The contents that release the lease by clearing the holder identity, or nothing if this
    /// replica does not hold it.
    pub fn release(&self, spec: Option<&LeaseSpec>) -> (cleared: Option<LeaseSpec>)
        ensures
            cleared.deep_view() == released(self.identity@, spec.deep_view()),
    {
        if !self.holds(spec) {
            return None;
        }
        match spec {
            Some(held) => {
                let mut cleared = held.clone();
                cleared.holder_identity = None;
                Some(cleared)
            },
            None => None,
        }
    }
}

// ---------------------------------------------------------------------------
// Laws
// ---------------------------------------------------------------------------

/// A lease that another replica holds and that has not expired is left alone: it is neither
/// taken over nor renewed nor released.
pub proof fn law_a_held_lease_is_left_alone(
    identity: Seq<char>,
    spec: Option<LeaseSpecView>,
    stamp: i64,
    now: i64,
)
    requires
        !held_by(spec, identity),
        !vacant(spec, now),
    ensures
        step_on_lease(identity, spec, stamp, now) == AcquireStepView::Wait,
        renewal(identity, spec, stamp) is None,
        released(identity, spec) is None,
{
}

/// Two replicas never both hold a lease.
pub proof fn law_a_lease_has_one_holder(
    spec: Option<LeaseSpecView>,
    one: Seq<char>,
    other: Seq<char>,
)
    requires
        held_by(spec, one),
        held_by(spec, other),
    ensures
        one == other,
{
}

/// However a lease is acquired, the replica that writes it holds it, and it has not expired
/// for as long as it is due to hold.
pub proof fn law_an_acquired_lease_is_held(
    identity: Seq<char>,
    spec: Option<LeaseSpecView>,
    stamp: i64,
    now: i64,
    later: i64,
)
    requires
        stamp <= later,
        later - stamp <= LEASE_DURATION_SECS * 1_000_000,
    ensures
        held_by(Some(created(identity, stamp)), identity),
        !expired(Some(created(identity, stamp)), later),
        step_on_lease(identity, spec, stamp, now) matches AcquireStepView::Replace(contents) ==> {
            &&& held_by(Some(contents), identity)
            &&& !expired(Some(contents), later)
        },
{
    assert((later - stamp) / 1_000_000 <= 15) by (nonlinear_arith)
        requires
            0 <= later - stamp <= 15_000_000,
    ;
}

/// A holder that renews its lease at the recommended interval keeps it: the lease does not
/// expire between two renewals, so nobody takes it over.
pub proof fn law_a_renewed_lease_is_kept(
    identity: Seq<char>,
    other: Seq<char>,
    spec: Option<LeaseSpecView>,
    renewed_at: i64,
    stamp: i64,
    now: i64,
)
    requires
        held_by(spec, identity),
        lease_duration(spec) == LEASE_DURATION_SECS,
        other != identity,
        renewed_at <= now,
        now - renewed_at <= RENEW_INTERVAL_SECS * 1_000_000,
    ensures
        renewal(identity, spec, renewed_at) is Some,
        step_on_lease(other, renewal(identity, spec, renewed_at), stamp, now)
            == AcquireStepView::Wait,
        held_by(renewal(identity, spec, renewed_at), identity),
{
    assert((now - renewed_at) / 1_000_000 <= 10) by (nonlinear_arith)
        requires
            0 <= now - renewed_at <= 10_000_000,
    ;
}

/// A takeover counts one change of hands and starts a new term; a renewal by the holder does
/// neither.
pub proof fn law_only_a_takeover_is_a_transition(
    identity: Seq<char>,
    spec: Option<LeaseSpecView>,
    stamp: i64,
    now: i64,
)
    requires
        transitions(spec) < i32::MAX,
    ensures
        step_on_lease(identity, spec, stamp, now) matches AcquireStepView::Replace(contents) ==> if held_by(
            spec,
            identity,
        ) {
            &&& transitions(Some(contents)) == transitions(spec)
            &&& contents.acquire_time == spec->0.acquire_time
        } else {
            &&& transitions(Some(contents)) == transitions(spec) + 1
            &&& contents.acquire_time == Some(stamp)
        },
{
}

/// A released lease is held by nobody, and releasing it again does nothing. Whenever a waiting
/// replica next reads it, before it has expired or after, the replica takes it over.
pub proof fn law_a_released_lease_is_taken_over_at_once(
    identity: Seq<char>,
    spec: Option<LeaseSpecView>,
    anyone: Seq<char>,
    stamp: i64,
    now: i64,
)
    requires
        held_by(spec, identity),
    ensures
        !held_by(released(identity, spec), anyone),
        released(anyone, released(identity, spec)) is None,
        taken_over(anyone, released(identity, spec), now),
        step_on_lease(anyone, released(identity, spec), stamp, now) == AcquireStepView::Replace(
            updated(released(identity, spec), anyone, stamp, true),
        ),
{
}

} // verus!
