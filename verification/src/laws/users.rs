//! Laws of reconciling users, which the server has no way to create.

use crate::conditions;
use crate::controllers::user;
use crate::controllers::user::UserPlan;
use crate::controllers::{NextReconcile, ReconcileVerdict, UserController};
use crate::crd::user::UserStatusView;
use crate::crd::{StreamlineUser, UserPhase, UserStatus};
use crate::laws::clusters;
use crate::objects;
use crate::objects::ResourceMeta;
use vstd::prelude::*;

verus! {

/// Whether a finalizer is set.
pub open spec fn is_held(finalizers: Seq<Seq<char>>, finalizer: Seq<char>) -> bool {
    exists|i: int| 0 <= i < finalizers.len() && #[trigger] finalizers[i] == finalizer
}

/// A user is never held back: the finalizer of the operator is taken away where it is set, every
/// other one is left, and none is added. A status is published unless the user is on its way out,
/// and only a change brings the user up again.
pub proof fn law_a_user_is_never_held_back(user: StreamlineUser, plan: UserPlan)
    requires
        call_ensures(UserController::plan, (&user,), plan),
    ensures
        ({
            let held = user.metadata.finalizers.deep_view();
            let ours = "streamline.io/user-cleanup"@;
            let left = plan.remaining_finalizers->0.deep_view();
            &&& plan.remaining_finalizers is Some <==> is_held(held, ours)
            &&& plan.remaining_finalizers is Some ==> !is_held(left, ours)
            &&& plan.remaining_finalizers is Some ==> forall|other: Seq<char>|
                other != ours ==> (#[trigger] is_held(left, other) <==> is_held(held, other))
        }),
        plan.publish <==> !user.metadata.deleting,
        plan.verdict == ReconcileVerdict::Success <==> !user.metadata.deleting,
        plan.verdict == ReconcileVerdict::Uncounted <==> user.metadata.deleting,
        plan.next == NextReconcile::AwaitChange,
{
    let view = plan.deep_view();
    let held = user.metadata.finalizers.deep_view();
    let ours = "streamline.io/user-cleanup"@;
    assert(held == user.deep_view().metadata.finalizers);
    assert(view.remaining_finalizers == plan.remaining_finalizers.deep_view());
    lemma_held(held, ours);
    objects::law_only_the_named_finalizer_is_removed(held, ours);
    if plan.remaining_finalizers is Some {
        let left = plan.remaining_finalizers->0.deep_view();
        assert(left == objects::without_finalizer(held, ours));
        lemma_held(left, ours);
        assert forall|other: Seq<char>| other != ours implies (#[trigger] is_held(left, other)
            <==> is_held(held, other)) by {
            lemma_held(left, other);
            lemma_held(held, other);
            assert(held.contains(other) <==> left.contains(other));
        }
    }
}

proof fn lemma_held(finalizers: Seq<Seq<char>>, finalizer: Seq<char>)
    ensures
        is_held(finalizers, finalizer) <==> finalizers.contains(finalizer),
{
}

/// Whatever a user asks for and whatever it published, its status says that users are not
/// supported: it is never ready and never names credentials.
pub proof fn law_a_user_is_reported_as_unsupported(
    user: StreamlineUser,
    now: &str,
    status: UserStatus,
)
    requires
        call_ensures(UserController::unsupported_status_at, (&user, now), status),
    ensures
        !status.ready,
        status.phase == UserPhase::Unsupported,
        status.username is None,
        status.credentials_secret is None,
        status.observed_generation == user.metadata.generation,
        ({
            let why = "User management is not supported: the Streamline server exposes no user API, so this operator does not create users, credentials, ACLs, or quotas"@;
            let said = status.conditions.deep_view();
            &&& status.error_message is Some && status.error_message->0@ == why
            &&& clusters::says(said, "Ready"@, "False"@, "UnsupportedByServer"@, why)
            &&& clusters::says(
                said,
                "CredentialsReady"@,
                "False"@,
                "UnsupportedByServer"@,
                "No credentials Secret is provisioned: the server cannot be told about credentials, so generating them would be misleading"@,
            )
            &&& forall|i: int|
                0 <= i < said.len() ==> (#[trigger] said[i]).condition_type == "Ready"@
                    || said[i].condition_type == "CredentialsReady"@
        }),
{
    let view = status.deep_view();
    assert(view.error_message == status.error_message.deep_view());
    assert(view.username == status.username.deep_view());
    assert(view.credentials_secret == status.credentials_secret.deep_view());
    let said = status.conditions.deep_view();
    let seed = user::seed(user.deep_view().status);
    let news = user::unsupported_conditions(now@);
    assert(said == conditions::with_conditions(seed, news));
    reveal_strlit("Ready");
    reveal_strlit("CredentialsReady");
    assert("Ready"@.len() == 5 && "CredentialsReady"@.len() == 16);
    conditions::law_recorded_statements_hold(seed, news);
    assert(conditions::settled(said, news[0]));
    assert(conditions::settled(said, news[1]));
    clusters::lemma_settled_is_said(said, news[0]);
    clusters::lemma_settled_is_said(said, news[1]);
    user::lemma_only_known_are_published(user.deep_view(), now@);
    let all = user::unsupported_report(user.deep_view(), now@).conditions;
    assert(all == said);
    assert forall|i: int| 0 <= i < said.len() implies (#[trigger] said[i]).condition_type
        == "Ready"@ || said[i].condition_type == "CredentialsReady"@ by {
        assert(user::is_published_type(all[i]));
    }
}

/// The status of a user that already says so is not stamped anew, and a status is written exactly
/// when it differs from the published one.
pub proof fn law_an_unchanged_user_is_not_published_again(
    user: StreamlineUser,
    now: &str,
    status: UserStatus,
    changed: bool,
)
    requires
        call_ensures(UserController::unsupported_status_at, (&user, now), status),
        call_ensures(UserController::status_changed, (&user, &status), changed),
    ensures
        ({
            let after = status.deep_view();
            let published = user.status->0.deep_view();
            &&& user.status is None ==> changed && after.last_updated == Some(now@)
            &&& user.status is Some ==> (changed <==> after != published)
            &&& user.status is Some && (UserStatusView { last_updated: None, ..after }) == (
            UserStatusView { last_updated: None, ..published }) ==> !changed
            &&& changed ==> after.last_updated == Some(now@)
        }),
{
    let after = status.deep_view();
    if user.status is Some {
        let published = user.status->0.deep_view();
        assert(user.deep_view().status == Some(published));
        let body = user::unsupported_body(user.deep_view(), now@);
        let bare = UserStatusView { last_updated: None, ..after };
        assert(bare =~= body);
        if bare == (UserStatusView { last_updated: None, ..published }) {
            assert(after =~= published);
        }
    } else {
        assert(user.deep_view().status is None);
    }
}

/// Two statuses of a user are the same exactly when they say the same.
pub proof fn law_user_statuses_are_told_apart(left: UserStatus, right: UserStatus, same: bool)
    requires
        call_ensures(user::statuses_eq, (&left, &right), same),
    ensures
        same <==> left.deep_view() == right.deep_view(),
{
}

/// A finalizer is set exactly if it is listed, and taking it away leaves every other one.
pub proof fn law_taking_a_finalizer_away_leaves_the_others(
    metadata: ResourceMeta,
    finalizer: &str,
    set: bool,
    remaining: Vec<String>,
    other: Seq<char>,
)
    requires
        call_ensures(ResourceMeta::has_finalizer, (&metadata, finalizer), set),
        call_ensures(ResourceMeta::remaining_finalizers, (&metadata, finalizer), remaining),
    ensures
        ({
            let held = metadata.finalizers.deep_view();
            let left = remaining.deep_view();
            &&& set <==> is_held(held, finalizer@)
            &&& !is_held(left, finalizer@)
            &&& other != finalizer@ ==> (is_held(left, other) <==> is_held(held, other))
            &&& !set ==> left == held
        }),
{
    let held = metadata.finalizers.deep_view();
    let left = remaining.deep_view();
    objects::law_only_the_named_finalizer_is_removed(held, finalizer@);
    lemma_held(held, finalizer@);
    lemma_held(left, finalizer@);
    lemma_held(held, other);
    lemma_held(left, other);
    assert(held.contains(other) || !held.contains(other));
}

} // verus!
