//! Laws of conditions: how they are built, and how they are recorded over what was said before.

use crate::conditions;
use crate::conditions::{ConditionFields, ConditionView};
use crate::crd::{ClusterCondition, TopicCondition, UserCondition};
use crate::laws::clusters;
use vstd::prelude::*;

verus! {

/// A condition says what it is built from, and is stamped with the given time.
pub proof fn law_a_condition_says_what_it_is_built_from(
    condition_type: &str,
    status: &str,
    reason: &str,
    message: &str,
    now: &str,
    built: ConditionFields,
    stamped: ConditionFields,
)
    requires
        call_ensures(
            conditions::condition_at,
            (condition_type, status, reason, message, now),
            built,
        ),
        call_ensures(
            conditions::build_condition,
            (condition_type, status, reason, message),
            stamped,
        ),
    ensures
        ({
            let view = built.deep_view();
            &&& view.condition_type == condition_type@
            &&& view.status == status@
            &&& view.reason == Some(reason@)
            &&& view.message == Some(message@)
            &&& view.last_transition_time == Some(now@)
            &&& stamped.deep_view() == (ConditionView {
                last_transition_time: stamped.deep_view().last_transition_time,
                ..view
            })
            &&& stamped.deep_view().last_transition_time is Some
        }),
{
}

/// Turning a condition into that of a resource changes nothing that it says.
pub proof fn law_a_condition_stays_what_it_is(
    fields: ConditionFields,
    of_cluster: ClusterCondition,
    of_topic: TopicCondition,
    of_user: UserCondition,
)
    requires
        call_ensures(ConditionFields::into_cluster_condition, (fields,), of_cluster),
        call_ensures(ConditionFields::into_topic_condition, (fields,), of_topic),
        call_ensures(ConditionFields::into_user_condition, (fields,), of_user),
    ensures
        of_cluster.type_@ == fields.condition_type@,
        of_cluster.status@ == fields.status@,
        of_cluster.last_transition_time.deep_view() == fields.last_transition_time.deep_view(),
        of_cluster.reason.deep_view() == fields.reason.deep_view(),
        of_cluster.message.deep_view() == fields.message.deep_view(),
        of_topic.type_@ == fields.condition_type@,
        of_topic.status@ == fields.status@,
        of_topic.last_transition_time.deep_view() == fields.last_transition_time.deep_view(),
        of_topic.reason.deep_view() == fields.reason.deep_view(),
        of_topic.message.deep_view() == fields.message.deep_view(),
        of_user.type_@ == fields.condition_type@,
        of_user.status@ == fields.status@,
        of_user.last_transition_time.deep_view() == fields.last_transition_time.deep_view(),
        of_user.reason.deep_view() == fields.reason.deep_view(),
        of_user.message.deep_view() == fields.message.deep_view(),
{
    let view = fields.deep_view();
    assert(of_cluster.deep_view() == view);
    assert(of_topic.deep_view() == view);
    assert(of_user.deep_view() == view);
}

/// Recording a condition replaces the first of its type, or adds it at the end where there is
/// none, and touches no other. The time of the transition moves exactly when the status changes;
/// the reason and the message are always the new ones.
pub proof fn law_recording_moves_the_time_only_with_the_status(
    all: &mut Vec<ConditionFields>,
    new: ConditionFields,
    at: int,
)
    requires
        call_ensures(conditions::set_condition, (all, new), ()),
        0 <= at <= old(all).deep_view().len(),
        forall|j: int|
            0 <= j < at ==> (#[trigger] old(all).deep_view()[j]).condition_type
                != new.condition_type@,
        at < old(all).deep_view().len() ==> old(all).deep_view()[at].condition_type
            == new.condition_type@,
    ensures
        ({
            let before = old(all).deep_view();
            let after = final(all).deep_view();
            let said = new.deep_view();
            &&& at == before.len() ==> after == before.push(said)
            &&& at < before.len() ==> {
                &&& after.len() == before.len()
                &&& after == before.update(at, after[at])
                &&& after[at].condition_type == said.condition_type
                &&& after[at].status == said.status
                &&& after[at].reason == said.reason
                &&& after[at].message == said.message
                &&& after[at].last_transition_time == if before[at].status == said.status {
                    before[at].last_transition_time
                } else {
                    said.last_transition_time
                }
            }
        }),
{
    let before = old(all).deep_view();
    let said = new.deep_view();
    conditions::lemma_position_is(before, said.condition_type, at);
}

/// Once several conditions of different types are recorded, the list says each of them, whatever
/// it said before.
pub proof fn law_everything_recorded_is_said(
    all: &mut Vec<ConditionFields>,
    news: Vec<ConditionFields>,
    i: int,
)
    requires
        call_ensures(conditions::set_conditions, (all, &news), ()),
        conditions::types_distinct(news.deep_view()),
        0 <= i < news.deep_view().len(),
        news.deep_view()[i].reason is Some,
        news.deep_view()[i].message is Some,
    ensures
        ({
            let new = news.deep_view()[i];
            clusters::says(
                final(all).deep_view(),
                new.condition_type,
                new.status,
                new.reason->0,
                new.message->0,
            )
        }),
{
    let before = old(all).deep_view();
    let views = news.deep_view();
    conditions::law_recorded_statements_hold(before, views);
    assert(conditions::settled(conditions::with_conditions(before, views), views[i]));
    clusters::lemma_settled_is_said(final(all).deep_view(), views[i]);
}

} // verus!
