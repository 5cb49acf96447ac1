//! Liveness, readiness, and leadership state for the operator's probe server.
//!
//! The three endpoints answer three different questions, and conflating them
//! breaks HA rollouts:
//!
//! * `/healthz` — is the process alive? Answers `200` as long as it runs.
//! * `/readyz`  — is *this* process a healthy operator, able to reconcile the
//!   moment it holds the lease? A leader-election **standby** is ready: it has
//!   a working Kubernetes client and serves its probes, it is simply waiting
//!   for the current leader to go away.
//! * `/leaderz` — does this replica currently hold the leader Lease?

use crate::metrics::{OperatorMetrics, OperatorMetricsView};
use vstd::prelude::*;

verus! {

/// Readiness and leadership flags for the probe server.
#[derive(Debug, PartialEq, Eq)]
pub struct ReadinessState {
    ready: bool,
    leader: bool,
}

/// What a [`ReadinessState`] holds.
#[verifier::ext_equal]
pub struct ReadinessView {
    pub ready: bool,
    pub leader: bool,
}

impl View for ReadinessState {
    type V = ReadinessView;

    closed spec fn view(&self) -> ReadinessView {
        ReadinessView { ready: self.ready, leader: self.leader }
    }
}

/// The answer of a probe.
#[derive(Clone, Copy, Debug, PartialEq, Eq)]
pub struct ProbeAnswer {
    /// HTTP status code
    pub status: u16,
    /// Response body
    pub body: &'static str,
}

/// Whether a probe passes.
pub open spec fn passes(answer: ProbeAnswer) -> bool {
    answer.status == 200
}

/// The leader gauge agrees with the leader flag.
pub open spec fn gauge_agrees(state: ReadinessView, metrics: OperatorMetricsView) -> bool {
    metrics.leader == state.leader
}

/// What can happen to the flags.
pub enum Transition {
    Ready,
    Unready,
    Leader,
    Standby,
}

/// The flags after a transition.
pub open spec fn flags_after(state: ReadinessView, transition: Transition) -> ReadinessView {
    match transition {
        Transition::Ready => ReadinessView { ready: true, ..state },
        Transition::Unready => ReadinessView { ready: false, leader: false },
        Transition::Leader => ReadinessView { leader: true, ..state },
        Transition::Standby => ReadinessView { leader: false, ..state },
    }
}

/// The metrics after a transition.
pub open spec fn metrics_after(
    metrics: OperatorMetricsView,
    transition: Transition,
) -> OperatorMetricsView {
    match transition {
        Transition::Ready => metrics,
        Transition::Unready => OperatorMetricsView { leader: false, ..metrics },
        Transition::Leader => OperatorMetricsView { leader: true, ..metrics },
        Transition::Standby => OperatorMetricsView { leader: false, ..metrics },
    }
}

impl ReadinessState {
    /// Create a state that is neither ready nor leader yet.
    pub fn new() -> (state: Self)
        ensures
            state@ == (ReadinessView { ready: false, leader: false }),
    {
        ReadinessState { ready: false, leader: false }
    }

    /// Mark the operator process ready: the Kubernetes client is built and the
    /// probe server is serving. This says nothing about leadership.
    pub fn mark_ready(&mut self)
        ensures
            final(self)@ == flags_after(old(self)@, Transition::Ready),
    {
        self.ready = true;
    }

    /// Mark the operator process not ready: it can no longer do its job, even
    /// if it were handed the lease right now.
    ///
    /// Losing readiness also loses leadership: a process that cannot reconcile
    /// must not advertise itself as the active replica, neither on its probe nor
    /// on its gauge.
    pub fn mark_unready(&mut self, metrics: &mut OperatorMetrics)
        ensures
            final(self)@ == flags_after(old(self)@, Transition::Unready),
            final(metrics).deep_view() == metrics_after(
                old(metrics).deep_view(),
                Transition::Unready,
            ),
    {
        self.ready = false;
        self.leader = false;
        metrics.set_leader(false);
    }

    /// Record that this replica acquired the leader Lease.
    pub fn mark_leader(&mut self, metrics: &mut OperatorMetrics)
        ensures
            final(self)@ == flags_after(old(self)@, Transition::Leader),
            final(metrics).deep_view() == metrics_after(
                old(metrics).deep_view(),
                Transition::Leader,
            ),
    {
        self.leader = true;
        metrics.set_leader(true);
    }

    /// Record that this replica lost (or released) the leader Lease.
    ///
    /// The replica stays *ready*: a standby is a healthy operator process.
    pub fn mark_standby(&mut self, metrics: &mut OperatorMetrics)
        ensures
            final(self)@ == flags_after(old(self)@, Transition::Standby),
            final(metrics).deep_view() == metrics_after(
                old(metrics).deep_view(),
                Transition::Standby,
            ),
    {
        self.leader = false;
        metrics.set_leader(false);
    }

    /// Whether the operator process currently considers itself ready.
    pub fn is_ready(&self) -> (ready: bool)
        ensures
            ready == self@.ready,
    {
        self.ready
    }

    /// Whether this replica currently holds the leader Lease.
    pub fn is_leader(&self) -> (leader: bool)
        ensures
            leader == self@.leader,
    {
        self.leader
    }
}

impl Default for ReadinessState {
    fn default() -> (state: Self)
        ensures
            state@ == (ReadinessView { ready: false, leader: false }),
    {
        ReadinessState::new()
    }
}

/// The answer of the readiness probe.
pub open spec fn readiness_answer(state: ReadinessView) -> ProbeAnswer {
    if state.ready {
        ProbeAnswer { status: 200, body: "ok" }
    } else {
        ProbeAnswer { status: 503, body: "operator not initialised" }
    }
}

/// The answer of the leadership probe.
pub open spec fn leadership_answer(state: ReadinessView) -> ProbeAnswer {
    if state.leader {
        ProbeAnswer { status: 200, body: "leader" }
    } else {
        ProbeAnswer { status: 503, body: "standby" }
    }
}

/// Liveness handler: the process is up.
pub fn healthz() -> (body: &'static str)
    ensures
        body@ == "ok"@,
{
    "ok"
}

/// Readiness handler: `503` until the operator process is initialised.
///
/// A leader-election standby answers `200`: it is a healthy operator waiting
/// for the lease, and failing it here would deadlock rolling updates.
pub fn readyz(state: &ReadinessState) -> (answer: ProbeAnswer)
    ensures
        answer == readiness_answer(state@),
{
    if state.is_ready() {
        ProbeAnswer { status: 200, body: "ok" }
    } else {
        ProbeAnswer { status: 503, body: "operator not initialised" }
    }
}

/// Leadership handler: `200` only while this replica holds the leader Lease.
pub fn leaderz(state: &ReadinessState) -> (answer: ProbeAnswer)
    ensures
        answer == leadership_answer(state@),
{
    if state.is_leader() {
        ProbeAnswer { status: 200, body: "leader" }
    } else {
        ProbeAnswer { status: 503, body: "standby" }
    }
}

/// Readiness and leadership are independent: whether the readiness probe passes does not depend
/// on the leader flag, nor the leadership probe on the ready flag. A standby passes the one and
/// fails the other.
pub proof fn law_readiness_and_leadership_are_independent(state: ReadinessView, flag: bool)
    ensures
        readiness_answer(ReadinessView { leader: flag, ..state }) == readiness_answer(state),
        leadership_answer(ReadinessView { ready: flag, ..state }) == leadership_answer(state),
        passes(readiness_answer(state)) <==> state.ready,
        passes(leadership_answer(state)) <==> state.leader,
{
}

/// The leader gauge follows the leader flag: once they agree, every transition keeps them so.
pub proof fn law_the_gauge_follows_the_flag(
    state: ReadinessView,
    metrics: OperatorMetricsView,
    transition: Transition,
)
    requires
        gauge_agrees(state, metrics),
    ensures
        gauge_agrees(flags_after(state, transition), metrics_after(metrics, transition)),
{
}

} // verus!
