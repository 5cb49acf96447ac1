//! User controller.
//!
//! Reports, explicitly, that user management is not supported.
//!
//! The Streamline server exposes no user API, so there is nothing for this controller to
//! create. Provisioning a Secret with a generated password would make a `StreamlineUser` look
//! `Ready` while the cluster knew nothing about the user. The controller fails closed: it
//! publishes an `Unsupported` status and provisions nothing.

use crate::clock;
use crate::conditions;
use crate::conditions::{
    condition_at, set_conditions, ConditionFields, ConditionView, CONDITION_FALSE,
    USER_CONDITION_CREDENTIALS_READY, USER_CONDITION_READY, USER_FINALIZER,
};
use crate::controllers::{NextReconcile, ReconcileVerdict};
use crate::crd::user::UserStatusView;
use crate::crd::{StreamlineUser, StreamlineUserView, UserCondition, UserPhase, UserStatus};
use crate::objects;
use crate::objects::ResourceMetaView;
use crate::text;
use vstd::prelude::*;
use vstd::string::*;

verus! {

/// The user controller.
#[derive(Clone, Copy, Debug)]
pub struct UserController;

/// Condition reason published on every StreamlineUser.
pub const UNSUPPORTED_REASON: &'static str = "UnsupportedByServer";

/// Condition/status message published on every StreamlineUser.
pub const UNSUPPORTED_MESSAGE: &'static str = "User management is not supported: the Streamline server exposes no user API, so this operator does not create users, credentials, ACLs, or quotas";

/// Why a StreamlineUser has no credentials.
pub const NO_CREDENTIALS_MESSAGE: &'static str = "No credentials Secret is provisioned: the server cannot be told about credentials, so generating them would be misleading";

/// What a reconcile of a user does.
#[derive(Debug, PartialEq, Eq)]
pub struct UserPlan {
    /// The finalizers to leave, if this operator's finalizer is still present.
    pub remaining_finalizers: Option<Vec<String>>,
    /// Whether the `Unsupported` status is published.
    pub publish: bool,
    /// When the user is reconciled next.
    pub next: NextReconcile,
    /// How the reconcile counts.
    pub verdict: ReconcileVerdict,
}

/// What a [`UserPlan`] holds, over characters and sequences.
#[verifier::ext_equal]
pub struct UserPlanView {
    pub remaining_finalizers: Option<Seq<Seq<char>>>,
    pub publish: bool,
    pub next: NextReconcile,
    pub verdict: ReconcileVerdict,
}

impl DeepView for UserPlan {
    type V = UserPlanView;

    open spec fn deep_view(&self) -> UserPlanView {
        UserPlanView {
            remaining_finalizers: self.remaining_finalizers.deep_view(),
            publish: self.publish,
            next: self.next,
            verdict: self.verdict,
        }
    }
}

/// What a reconcile of a user does: nothing is created for a user, so its finalizer is dropped;
/// unless it is being deleted, its status is published.
pub open spec fn user_plan(user: StreamlineUserView) -> UserPlanView {
    UserPlanView {
        remaining_finalizers: if user.metadata.finalizers.contains(USER_FINALIZER@) {
            Some(objects::without_finalizer(user.metadata.finalizers, USER_FINALIZER@))
        } else {
            None
        },
        publish: !user.metadata.deleting,
        next: NextReconcile::AwaitChange,
        verdict: if user.metadata.deleting {
            ReconcileVerdict::Uncounted
        } else {
            ReconcileVerdict::Success
        },
    }
}

/// Whether a condition is one that this controller publishes.
pub open spec fn is_published_type(condition: ConditionView) -> bool {
    condition.condition_type == USER_CONDITION_READY@ || condition.condition_type
        == USER_CONDITION_CREDENTIALS_READY@
}

/// The conditions that this controller publishes, in their order.
pub open spec fn known_conditions(all: Seq<ConditionView>) -> Seq<ConditionView>
    decreases all.len(),
{
    if all.len() == 0 {
        Seq::empty()
    } else if is_published_type(all.last()) {
        known_conditions(all.drop_last()).push(all.last())
    } else {
        known_conditions(all.drop_last())
    }
}

/// The conditions that a user's next status starts from.
pub open spec fn seed(status: Option<UserStatusView>) -> Seq<ConditionView> {
    match status {
        Some(status) => known_conditions(status.conditions),
        None => Seq::empty(),
    }
}

/// The two conditions that say why a user is not reconciled.
pub open spec fn unsupported_conditions(now: Seq<char>) -> Seq<ConditionView> {
    seq![
        conditions::stamped(
            USER_CONDITION_READY@,
            CONDITION_FALSE@,
            UNSUPPORTED_REASON@,
            UNSUPPORTED_MESSAGE@,
            now,
        ),
        conditions::stamped(
            USER_CONDITION_CREDENTIALS_READY@,
            CONDITION_FALSE@,
            UNSUPPORTED_REASON@,
            NO_CREDENTIALS_MESSAGE@,
            now,
        ),
    ]
}

/// The `Unsupported` status before it is stamped.
pub open spec fn unsupported_body(user: StreamlineUserView, now: Seq<char>) -> UserStatusView {
    UserStatusView {
        ready: false,
        phase: UserPhase::Unsupported,
        username: None,
        credentials_secret: None,
        conditions: conditions::with_conditions(seed(user.status), unsupported_conditions(now)),
        observed_generation: user.metadata.generation,
        last_updated: None,
        error_message: Some(UNSUPPORTED_MESSAGE@),
    }
}

/// The status with a time stamp that moves only when the rest of the status changes.
pub open spec fn stabilized(
    current: Option<UserStatusView>,
    status: UserStatusView,
    now: Seq<char>,
) -> UserStatusView {
    match current {
        Some(published) if (UserStatusView { last_updated: None, ..published }) == status =>
            UserStatusView { last_updated: published.last_updated, ..status },
        _ => UserStatusView { last_updated: Some(now), ..status },
    }
}

/// The `Unsupported` status of a user.
pub open spec fn unsupported_report(user: StreamlineUserView, now: Seq<char>) -> UserStatusView {
    stabilized(user.status, unsupported_body(user, now), now)
}

impl UserController {
    /// What a reconcile of a user does.
    ///
    /// Rather than silently doing nothing, or reporting `Ready` for a user that does not exist,
    /// the reconcile publishes an explicit `Unsupported` status. It clears any finalizer, so
    /// that deletion is never blocked. Only a change can alter the outcome.
    pub fn plan(user: &StreamlineUser) -> (plan: UserPlan)
        ensures
            plan.deep_view() == user_plan(user.deep_view()),
    {
        let remaining_finalizers = if user.metadata.has_finalizer(USER_FINALIZER) {
            Some(user.metadata.remaining_finalizers(USER_FINALIZER))
        } else {
            None
        };
        UserPlan {
            remaining_finalizers,
            publish: !user.metadata.deleting,
            next: NextReconcile::AwaitChange,
            verdict: if user.metadata.deleting {
                ReconcileVerdict::Uncounted
            } else {
                ReconcileVerdict::Success
            },
        }
    }

    /// Build the `Unsupported` status object.
    pub fn unsupported_status(user: &StreamlineUser) -> (status: UserStatus)
        ensures
            exists|now: Seq<char>|
                clock::is_stamp(now) && status.deep_view() == #[trigger] unsupported_report(user.deep_view(), now),
    {
        let now = clock::now_rfc3339();
        Self::unsupported_status_at(user, now.as_str())
    }

    /// Build the `Unsupported` status object at `now`.
    ///
    /// The conditions start from the current status, so an unchanged condition keeps its
    /// transition time. A reconcile of an unchanged user can then produce an identical status
    /// and skip the API patch instead of triggering an unbounded reconcile loop.
    pub fn unsupported_status_at(user: &StreamlineUser, now: &str) -> (status: UserStatus)
        ensures
            status.deep_view() == unsupported_report(user.deep_view(), now@),
    {
        let mut fields = Self::seeded_conditions(user);
        let news = vec![
            condition_at(
                USER_CONDITION_READY,
                CONDITION_FALSE,
                UNSUPPORTED_REASON,
                UNSUPPORTED_MESSAGE,
                now,
            ),
            condition_at(
                USER_CONDITION_CREDENTIALS_READY,
                CONDITION_FALSE,
                UNSUPPORTED_REASON,
                NO_CREDENTIALS_MESSAGE,
                now,
            ),
        ];
        assert(news.deep_view() =~= unsupported_conditions(now@));
        set_conditions(&mut fields, &news);
        let mut status = UserStatus {
            ready: false,
            phase: UserPhase::Unsupported,
            username: None,
            credentials_secret: None,
            conditions: into_user_conditions(fields),
            observed_generation: user.metadata.generation,
            last_updated: None,
            error_message: Some(UNSUPPORTED_MESSAGE.to_owned()),
        };
        assert(status.deep_view() =~= unsupported_body(user.deep_view(), now@));
        match &user.status {
            Some(current) => {
                let mut comparable = current.clone();
                comparable.last_updated = None;
                assert(comparable.deep_view() =~= (UserStatusView {
                    last_updated: None,
                    ..current.deep_view()
                }));
                if statuses_eq(&comparable, &status) {
                    status.last_updated = current.last_updated.clone();
                } else {
                    status.last_updated = Some(now.to_owned());
                }
            },
            None => {
                status.last_updated = Some(now.to_owned());
            },
        }
        status
    }

    /// Whether publishing `status` would change what the user has published.
    pub fn status_changed(user: &StreamlineUser, status: &UserStatus) -> (changed: bool)
        ensures
            changed == (user.deep_view().status != Some(status.deep_view())),
    {
        match &user.status {
            Some(current) => !statuses_eq(current, status),
            None => true,
        }
    }

    fn seeded_conditions(user: &StreamlineUser) -> (fields: Vec<ConditionFields>)
        ensures
            fields.deep_view() == seed(user.deep_view().status),
    {
        let mut fields: Vec<ConditionFields> = Vec::new();
        match &user.status {
            Some(status) => {
                let ghost all = status.conditions.deep_view();
                let mut i: usize = 0;
                assert(fields.deep_view() =~= known_conditions(all.subrange(0, 0)));
                while i < status.conditions.len()
                    invariant
                        i <= status.conditions.len(),
                        all == status.conditions.deep_view(),
                        fields.deep_view() == known_conditions(all.subrange(0, i as int)),
                    decreases status.conditions.len() - i,
                {
                    let condition = &status.conditions[i];
                    let ghost before = fields.deep_view();
                    let ghost seen = all.subrange(0, i + 1);
                    assert(seen.drop_last() =~= all.subrange(0, i as int));
                    assert(seen.last() == condition.deep_view());
                    if text::text_eq(condition.type_.as_str(), USER_CONDITION_READY)
                        || text::text_eq(
                        condition.type_.as_str(),
                        USER_CONDITION_CREDENTIALS_READY,
                    ) {
                        fields.push(
                            ConditionFields {
                                condition_type: condition.type_.clone(),
                                status: condition.status.clone(),
                                last_transition_time: condition.last_transition_time.clone(),
                                reason: condition.reason.clone(),
                                message: condition.message.clone(),
                            },
                        );
                        assert(fields.deep_view() =~= before.push(all[i as int]));
                    }
                    i = i + 1;
                }
                assert(all.subrange(0, all.len() as int) =~= all);
            },
            None => {
                assert(fields.deep_view() =~= Seq::empty());
            },
        }
        fields
    }
}

fn into_user_conditions(fields: Vec<ConditionFields>) -> (published: Vec<UserCondition>)
    ensures
        published.deep_view() == fields.deep_view(),
{
    let ghost all = fields.deep_view();
    let mut published: Vec<UserCondition> = Vec::new();
    let mut i: usize = 0;
    assert(published.deep_view() =~= all.subrange(0, 0));
    while i < fields.len()
        invariant
            i <= fields.len(),
            all == fields.deep_view(),
            published.deep_view() == all.subrange(0, i as int),
        decreases fields.len() - i,
    {
        let ghost before = published.deep_view();
        published.push(fields[i].clone().into_user_condition());
        assert(published.deep_view() =~= before.push(all[i as int]));
        assert(before.push(all[i as int]) =~= all.subrange(0, i + 1));
        i = i + 1;
    }
    assert(all.subrange(0, all.len() as int) =~= all);
    published
}

fn user_conditions_eq(left: &Vec<UserCondition>, right: &Vec<UserCondition>) -> (same: bool)
    ensures
        same == (left.deep_view() == right.deep_view()),
{
    if left.len() != right.len() {
        assert(left.deep_view().len() != right.deep_view().len());
        return false;
    }
    let mut i: usize = 0;
    while i < left.len()
        invariant
            i <= left.len(),
            left.len() == right.len(),
            forall|j: int| 0 <= j < i ==> left.deep_view()[j] == right.deep_view()[j],
        decreases left.len() - i,
    {
        let a = &left[i];
        let b = &right[i];
        if !(text::text_eq(a.type_.as_str(), b.type_.as_str()) && text::text_eq(
            a.status.as_str(),
            b.status.as_str(),
        ) && text::optional_text_eq(&a.last_transition_time, &b.last_transition_time)
            && text::optional_text_eq(&a.reason, &b.reason) && text::optional_text_eq(
            &a.message,
            &b.message,
        )) {
            assert(left.deep_view()[i as int] != right.deep_view()[i as int]);
            return false;
        }
        assert(left.deep_view()[i as int] == right.deep_view()[i as int]);
        i = i + 1;
    }
    assert(left.deep_view() =~= right.deep_view());
    true
}

/// Whether two statuses say the same.
pub fn statuses_eq(left: &UserStatus, right: &UserStatus) -> (same: bool)
    ensures
        same == (left.deep_view() == right.deep_view()),
{
    left.ready == right.ready && left.phase == right.phase && text::optional_text_eq(
        &left.username,
        &right.username,
    ) && text::optional_text_eq(&left.credentials_secret, &right.credentials_secret)
        && user_conditions_eq(&left.conditions, &right.conditions) && left.observed_generation
        == right.observed_generation && text::optional_text_eq(
        &left.last_updated,
        &right.last_updated,
    ) && text::optional_text_eq(&left.error_message, &right.error_message)
}

// ---------------------------------------------------------------------------
// Laws
// ---------------------------------------------------------------------------

proof fn lemma_known_are_known(all: Seq<ConditionView>)
    ensures
        forall|i: int|
            0 <= i < known_conditions(all).len() ==> is_published_type(
                #[trigger] known_conditions(all)[i],
            ),
    decreases all.len(),
{
    if all.len() > 0 {
        let known = known_conditions(all.drop_last());
        lemma_known_are_known(all.drop_last());
        assert forall|i: int| 0 <= i < known_conditions(all).len() implies is_published_type(
            #[trigger] known_conditions(all)[i],
        ) by {
            if i < known.len() {
                assert(is_published_type(known[i]));
            }
        }
    }
}

proof fn lemma_known_stay(all: Seq<ConditionView>)
    requires
        forall|i: int| 0 <= i < all.len() ==> is_published_type(#[trigger] all[i]),
    ensures
        known_conditions(all) == all,
    decreases all.len(),
{
    if all.len() > 0 {
        let front = all.drop_last();
        assert forall|i: int| 0 <= i < front.len() implies is_published_type(
            #[trigger] front[i],
        ) by {
            assert(front[i] == all[i]);
        }
        lemma_known_stay(front);
        assert(is_published_type(all[all.len() - 1]));
        assert(front.push(all.last()) =~= all);
    } else {
        assert(all =~= Seq::empty());
    }
}

proof fn lemma_recording_keeps_known(all: Seq<ConditionView>, news: Seq<ConditionView>)
    requires
        forall|i: int| 0 <= i < all.len() ==> is_published_type(#[trigger] all[i]),
        forall|i: int| 0 <= i < news.len() ==> is_published_type(#[trigger] news[i]),
    ensures
        forall|i: int|
            0 <= i < conditions::with_conditions(all, news).len() ==> is_published_type(
                #[trigger] conditions::with_conditions(all, news)[i],
            ),
    decreases news.len(),
{
    if news.len() > 0 {
        let front = news.drop_last();
        assert forall|i: int| 0 <= i < front.len() implies is_published_type(
            #[trigger] front[i],
        ) by {
            assert(front[i] == news[i]);
        }
        lemma_recording_keeps_known(all, front);
        let so_far = conditions::with_conditions(all, front);
        let last = news[news.len() - 1];
        assert(is_published_type(last));
        conditions::lemma_position(so_far, last.condition_type);
    }
}

/// A status says nothing but what this controller publishes, whatever was published before.
pub proof fn lemma_only_known_are_published(user: StreamlineUserView, now: Seq<char>)
    ensures
        ({
            let all = unsupported_report(user, now).conditions;
            forall|i: int| 0 <= i < all.len() ==> is_published_type(#[trigger] all[i])
        }),
{
    let start = seed(user.status);
    match user.status {
        Some(status) => lemma_known_are_known(status.conditions),
        None => {},
    }
    assert forall|i: int| 0 <= i < start.len() implies is_published_type(#[trigger] start[i]) by {}
    lemma_recording_keeps_known(start, unsupported_conditions(now));
}

proof fn lemma_rebuilt_conditions(user: StreamlineUserView, first: Seq<char>, later: Seq<char>)
    ensures
        ({
            let published = unsupported_report(user, first);
            conditions::with_conditions(seed(Some(published)), unsupported_conditions(later))
                == published.conditions
        }),
{
    let news = unsupported_conditions(first);
    let again = unsupported_conditions(later);
    let start = seed(user.status);
    let published = conditions::with_conditions(start, news);
    reveal_strlit("Ready");
    reveal_strlit("CredentialsReady");
    assert(USER_CONDITION_READY@.len() == 5);
    assert(USER_CONDITION_CREDENTIALS_READY@.len() == 16);
    match user.status {
        Some(status) => lemma_known_are_known(status.conditions),
        None => {},
    }
    assert forall|i: int| 0 <= i < start.len() implies is_published_type(#[trigger] start[i]) by {}
    lemma_recording_keeps_known(start, news);
    lemma_known_stay(published);
    conditions::law_recorded_conditions_are_stable(start, news, again);
}

/// Rebuilding the status of an unchanged user from the status it published gives the same
/// status back, time stamps included.
pub proof fn law_unsupported_status_is_stable(
    user: StreamlineUserView,
    first: Seq<char>,
    later: Seq<char>,
)
    ensures
        ({
            let published = unsupported_report(user, first);
            unsupported_report(
                StreamlineUserView { status: Some(published), ..user },
                later,
            ) == published
        }),
{
    let published = unsupported_report(user, first);
    lemma_rebuilt_conditions(user, first, later);
    let next = StreamlineUserView { status: Some(published), ..user };
    assert(unsupported_report(next, later) =~= published);
}

/// A new generation is observed and stamped, and no condition changes with it: every transition
/// time is kept.
pub proof fn law_a_new_generation_keeps_the_transitions(
    user: StreamlineUserView,
    generation: Option<i64>,
    first: Seq<char>,
    later: Seq<char>,
)
    requires
        generation != user.metadata.generation,
    ensures
        ({
            let published = unsupported_report(user, first);
            let next = unsupported_report(
                StreamlineUserView {
                    status: Some(published),
                    metadata: ResourceMetaView { generation, ..user.metadata },
                    ..user
                },
                later,
            );
            &&& next.observed_generation == generation
            &&& next.last_updated == Some(later)
            &&& next.conditions == published.conditions
        }),
{
    lemma_rebuilt_conditions(user, first, later);
}

/// Whatever a user asks for, its status is not ready and claims no credentials.
pub proof fn law_no_user_is_ever_ready(user: StreamlineUserView, now: Seq<char>)
    ensures
        ({
            let status = unsupported_report(user, now);
            &&& !status.ready
            &&& status.phase == UserPhase::Unsupported
            &&& status.username is None
            &&& status.credentials_secret is None
        }),
{
}

} // verus!
