//! Kubernetes-standard status condition helpers.
//!
//! Constants and builders for the status conditions of every custom resource,
//! following the Kubernetes API conventions: a condition keeps its
//! `lastTransitionTime` for as long as its status stays the same.

use crate::clock;
use crate::crd::{ClusterCondition, TopicCondition, UserCondition};
use crate::text;
use vstd::prelude::*;

verus! {

// Condition status values
pub const CONDITION_TRUE: &'static str = "True";
pub const CONDITION_FALSE: &'static str = "False";
pub const CONDITION_UNKNOWN: &'static str = "Unknown";

// StreamlineCluster condition types
pub const CLUSTER_CONDITION_READY: &'static str = "Ready";
pub const CLUSTER_CONDITION_PROGRESSING: &'static str = "Progressing";
pub const CLUSTER_CONDITION_DEGRADED: &'static str = "Degraded";
pub const CLUSTER_CONDITION_AVAILABLE: &'static str = "Available";

// StreamlineTopic condition types
pub const TOPIC_CONDITION_READY: &'static str = "Ready";
pub const TOPIC_CONDITION_SYNCED: &'static str = "Synced";

// StreamlineUser condition types
pub const USER_CONDITION_READY: &'static str = "Ready";
pub const USER_CONDITION_CREDENTIALS_READY: &'static str = "CredentialsReady";

// Finalizer names
pub const CLUSTER_FINALIZER: &'static str = "streamline.io/cluster-cleanup";
pub const TOPIC_FINALIZER: &'static str = "streamline.io/topic-cleanup";
pub const USER_FINALIZER: &'static str = "streamline.io/user-cleanup";
pub const BRANCH_FINALIZER: &'static str = "streamline.io/branch-cleanup";
pub const CONTRACT_FINALIZER: &'static str = "streamline.io/contract-cleanup";
pub const MEMORY_FINALIZER: &'static str = "streamline.io/memory-cleanup";

/// What a status condition says, whichever custom resource carries it.
#[verifier::ext_equal]
pub struct ConditionView {
    pub condition_type: Seq<char>,
    pub status: Seq<char>,
    pub last_transition_time: Option<Seq<char>>,
    pub reason: Option<Seq<char>>,
    pub message: Option<Seq<char>>,
}

/// Generic condition fields that can be converted into any CRD-specific condition type.
#[derive(Debug, PartialEq, Eq)]
pub struct ConditionFields {
    pub condition_type: String,
    pub status: String,
    pub last_transition_time: Option<String>,
    pub reason: Option<String>,
    pub message: Option<String>,
}

impl DeepView for ConditionFields {
    type V = ConditionView;

    open spec fn deep_view(&self) -> ConditionView {
        ConditionView {
            condition_type: self.condition_type@,
            status: self.status@,
            last_transition_time: self.last_transition_time.deep_view(),
            reason: self.reason.deep_view(),
            message: self.message.deep_view(),
        }
    }
}

impl Clone for ConditionFields {
    fn clone(&self) -> (copy: Self)
        ensures
            copy.deep_view() == self.deep_view(),
    {
        ConditionFields {
            condition_type: self.condition_type.clone(),
            status: self.status.clone(),
            last_transition_time: self.last_transition_time.clone(),
            reason: self.reason.clone(),
            message: self.message.clone(),
        }
    }
}

/// A condition of the given type, status, reason and message, stamped `now`.
pub open spec fn stamped(
    condition_type: Seq<char>,
    status: Seq<char>,
    reason: Seq<char>,
    message: Seq<char>,
    now: Seq<char>,
) -> ConditionView {
    ConditionView {
        condition_type,
        status,
        last_transition_time: Some(now),
        reason: Some(reason),
        message: Some(message),
    }
}

/// Where the first condition of type `ty` stands, or the length if there is none.
pub open spec fn position(conditions: Seq<ConditionView>, ty: Seq<char>) -> int
    decreases conditions.len(),
{
    if conditions.len() == 0 || conditions[0].condition_type == ty {
        0
    } else {
        1 + position(conditions.drop_first(), ty)
    }
}

/// What becomes of an existing condition when `new` is recorded over it.
///
/// A changed status replaces the whole condition, transition time included. An
/// unchanged status takes over only the reason and the message.
pub open spec fn recorded(existing: ConditionView, new: ConditionView) -> ConditionView {
    if existing.status != new.status {
        new
    } else {
        ConditionView { reason: new.reason, message: new.message, ..existing }
    }
}

/// The conditions after `new` is recorded: over the first of its type, or at the end.
pub open spec fn with_condition(
    conditions: Seq<ConditionView>,
    new: ConditionView,
) -> Seq<ConditionView> {
    let at = position(conditions, new.condition_type);
    if at < conditions.len() {
        conditions.update(at, recorded(conditions[at], new))
    } else {
        conditions.push(new)
    }
}

/// The conditions after each of `news` is recorded, in order.
pub open spec fn with_conditions(
    conditions: Seq<ConditionView>,
    news: Seq<ConditionView>,
) -> Seq<ConditionView>
    decreases news.len(),
{
    if news.len() == 0 {
        conditions
    } else {
        with_condition(with_conditions(conditions, news.drop_last()), news.last())
    }
}

/// Two conditions that say the same, whatever their time stamps.
pub open spec fn same_statement(left: ConditionView, right: ConditionView) -> bool {
    &&& left.condition_type == right.condition_type
    &&& left.status == right.status
    &&& left.reason == right.reason
    &&& left.message == right.message
}

/// The same conditions in the same order, whatever their time stamps.
pub open spec fn same_statements(left: Seq<ConditionView>, right: Seq<ConditionView>) -> bool {
    &&& left.len() == right.len()
    &&& forall|i: int| 0 <= i < left.len() ==> same_statement(#[trigger] left[i], right[i])
}

/// No condition type occurs twice.
pub open spec fn types_distinct(conditions: Seq<ConditionView>) -> bool {
    forall|i: int, j: int|
        0 <= i < j < conditions.len() ==> (#[trigger] conditions[i]).condition_type
            != (#[trigger] conditions[j]).condition_type
}

/// Build a condition with the current timestamp.
pub fn build_condition(
    condition_type: &str,
    status: &str,
    reason: &str,
    message: &str,
) -> (condition: ConditionFields)
    ensures
        exists|now: Seq<char>|
            clock::is_stamp(now) && condition.deep_view() == #[trigger] stamped(
                condition_type@,
                status@,
                reason@,
                message@,
                now,
            ),
{
    condition_at(condition_type, status, reason, message, clock::now_rfc3339().as_str())
}

/// Build a condition that is stamped with `now`.
pub fn condition_at(
    condition_type: &str,
    status: &str,
    reason: &str,
    message: &str,
    now: &str,
) -> (condition: ConditionFields)
    ensures
        condition.deep_view() == stamped(condition_type@, status@, reason@, message@, now@),
{
    ConditionFields {
        condition_type: condition_type.to_owned(),
        status: status.to_owned(),
        last_transition_time: Some(now.to_owned()),
        reason: Some(reason.to_owned()),
        message: Some(message.to_owned()),
    }
}

impl ConditionFields {
    pub fn into_cluster_condition(self) -> (condition: ClusterCondition)
        ensures
            condition.deep_view() == self.deep_view(),
    {
        ClusterCondition {
            type_: self.condition_type,
            status: self.status,
            last_transition_time: self.last_transition_time,
            reason: self.reason,
            message: self.message,
        }
    }

    pub fn into_topic_condition(self) -> (condition: TopicCondition)
        ensures
            condition.deep_view() == self.deep_view(),
    {
        TopicCondition {
            type_: self.condition_type,
            status: self.status,
            last_transition_time: self.last_transition_time,
            reason: self.reason,
            message: self.message,
        }
    }

    pub fn into_user_condition(self) -> (condition: UserCondition)
        ensures
            condition.deep_view() == self.deep_view(),
    {
        UserCondition {
            type_: self.condition_type,
            status: self.status,
            last_transition_time: self.last_transition_time,
            reason: self.reason,
            message: self.message,
        }
    }
}

/// Set or update a condition in a list, preserving lastTransitionTime when status hasn't changed.
pub fn set_condition(conditions: &mut Vec<ConditionFields>, new: ConditionFields)
    ensures
        final(conditions).deep_view() == with_condition(old(conditions).deep_view(), new.deep_view()),
{
    let ghost before = conditions.deep_view();
    let mut at: usize = 0;
    while at < conditions.len() && !text::text_eq(
        conditions[at].condition_type.as_str(),
        new.condition_type.as_str(),
    )
        invariant
            at <= conditions.len(),
            conditions.deep_view() == before,
            forall|j: int|
                0 <= j < at ==> (#[trigger] before[j]).condition_type
                    != new.deep_view().condition_type,
        decreases conditions.len() - at,
    {
        at = at + 1;
    }
    proof {
        lemma_position_is(before, new.deep_view().condition_type, at as int);
    }
    if at < conditions.len() {
        let ghost existing = conditions[at as int].deep_view();
        if !text::text_eq(conditions[at].status.as_str(), new.status.as_str()) {
            conditions.set(at, new);
        } else {
            let updated = ConditionFields {
                condition_type: conditions[at].condition_type.clone(),
                status: conditions[at].status.clone(),
                last_transition_time: conditions[at].last_transition_time.clone(),
                reason: new.reason,
                message: new.message,
            };
            conditions.set(at, updated);
        }
        assert(conditions.deep_view() =~= with_condition(before, new.deep_view()));
    } else {
        conditions.push(new);
        assert(conditions.deep_view() =~= with_condition(before, new.deep_view()));
    }
}

/// Record each of `news` in order.
pub fn set_conditions(conditions: &mut Vec<ConditionFields>, news: &Vec<ConditionFields>)
    ensures
        final(conditions).deep_view() == with_conditions(
            old(conditions).deep_view(),
            news.deep_view(),
        ),
{
    let ghost before = conditions.deep_view();
    let ghost all = news.deep_view();
    let mut i: usize = 0;
    while i < news.len()
        invariant
            i <= news.len(),
            all == news.deep_view(),
            conditions.deep_view() == with_conditions(before, all.subrange(0, i as int)),
        decreases news.len() - i,
    {
        assert(all.subrange(0, i + 1).drop_last() =~= all.subrange(0, i as int));
        assert(all.subrange(0, i + 1).last() == news[i as int].deep_view());
        set_condition(conditions, news[i].clone());
        i = i + 1;
    }
    assert(all.subrange(0, all.len() as int) =~= all);
}

/// The first position of a type is the one with the type that nothing before it has.
pub proof fn lemma_position_is(conditions: Seq<ConditionView>, ty: Seq<char>, at: int)
    requires
        0 <= at <= conditions.len(),
        forall|j: int| 0 <= j < at ==> (#[trigger] conditions[j]).condition_type != ty,
        at < conditions.len() ==> conditions[at].condition_type == ty,
    ensures
        position(conditions, ty) == at,
    decreases conditions.len(),
{
    if at > 0 {
        let rest = conditions.drop_first();
        assert forall|j: int| 0 <= j < at - 1 implies (#[trigger] rest[j]).condition_type
            != ty by {
            assert(rest[j] == conditions[j + 1]);
        }
        lemma_position_is(rest, ty, at - 1);
    }
}

/// The first position of a type is in range, holds the type, and nothing before it does.
pub proof fn lemma_position(conditions: Seq<ConditionView>, ty: Seq<char>)
    ensures
        0 <= position(conditions, ty) <= conditions.len(),
        position(conditions, ty) < conditions.len() ==> conditions[position(
            conditions,
            ty,
        )].condition_type == ty,
        forall|j: int|
            0 <= j < position(conditions, ty) ==> (#[trigger] conditions[j]).condition_type != ty,
    decreases conditions.len(),
{
    if conditions.len() > 0 && conditions[0].condition_type != ty {
        let rest = conditions.drop_first();
        lemma_position(rest, ty);
        assert forall|j: int| 0 <= j < position(conditions, ty) implies (
        #[trigger] conditions[j]).condition_type != ty by {
            if j > 0 {
                assert(rest[j - 1] == conditions[j]);
            }
        }
    }
}

/// Recording a condition leaves every condition of another type as it was and where it was.
pub proof fn law_other_conditions_are_untouched(
    conditions: Seq<ConditionView>,
    new: ConditionView,
    i: int,
)
    requires
        0 <= i < conditions.len(),
        conditions[i].condition_type != new.condition_type,
    ensures
        with_condition(conditions, new)[i] == conditions[i],
{
    lemma_position(conditions, new.condition_type);
}

/// A recorded condition keeps its transition time when its status is unchanged, and takes
/// the new one when the status changes. Either way it carries the new status, reason and
/// message.
pub proof fn law_transition_time_follows_the_status(
    conditions: Seq<ConditionView>,
    new: ConditionView,
)
    ensures
        ({
            let at = position(conditions, new.condition_type);
            let after = with_condition(conditions, new)[at];
            &&& 0 <= at < with_condition(conditions, new).len()
            &&& after.condition_type == new.condition_type
            &&& after.status == new.status
            &&& after.reason == new.reason
            &&& after.message == new.message
            &&& at < conditions.len() && conditions[at].status == new.status
                ==> after.last_transition_time == conditions[at].last_transition_time
            &&& at == conditions.len() || conditions[at].status != new.status
                ==> after.last_transition_time == new.last_transition_time
        }),
{
    lemma_position(conditions, new.condition_type);
}

/// Recording a condition again, whatever its time stamp, changes nothing.
pub proof fn law_recording_twice_is_recording_once(
    conditions: Seq<ConditionView>,
    new: ConditionView,
    again: ConditionView,
)
    requires
        again == (ConditionView { last_transition_time: again.last_transition_time, ..new }),
    ensures
        with_condition(with_condition(conditions, new), again) == with_condition(conditions, new),
{
    let once = with_condition(conditions, new);
    let at = position(conditions, new.condition_type);
    lemma_position(conditions, new.condition_type);
    assert forall|j: int| 0 <= j < at implies (#[trigger] once[j]).condition_type
        != new.condition_type by {
        assert(once[j] == conditions[j]);
    }
    lemma_position_is(once, again.condition_type, at);
    assert(with_condition(once, again) =~= once);
}

/// Whether recording `new` would change nothing: the first condition of its type says the same.
pub open spec fn settled(conditions: Seq<ConditionView>, new: ConditionView) -> bool {
    let at = position(conditions, new.condition_type);
    at < conditions.len() && same_statement(conditions[at], new)
}

proof fn lemma_settled_is_unchanged(conditions: Seq<ConditionView>, new: ConditionView)
    requires
        settled(conditions, new),
    ensures
        with_condition(conditions, new) == conditions,
{
    lemma_position(conditions, new.condition_type);
    assert(with_condition(conditions, new) =~= conditions);
}

proof fn lemma_recording_settles(conditions: Seq<ConditionView>, new: ConditionView)
    ensures
        settled(with_condition(conditions, new), new),
{
    let once = with_condition(conditions, new);
    let at = position(conditions, new.condition_type);
    lemma_position(conditions, new.condition_type);
    assert forall|j: int| 0 <= j < at implies (#[trigger] once[j]).condition_type
        != new.condition_type by {
        assert(once[j] == conditions[j]);
    }
    lemma_position_is(once, new.condition_type, at);
}

proof fn lemma_settled_survives(
    conditions: Seq<ConditionView>,
    old_one: ConditionView,
    new: ConditionView,
)
    requires
        settled(conditions, old_one),
        old_one.condition_type != new.condition_type,
    ensures
        settled(with_condition(conditions, new), old_one),
{
    let after = with_condition(conditions, new);
    let at = position(conditions, old_one.condition_type);
    lemma_position(conditions, old_one.condition_type);
    lemma_position(conditions, new.condition_type);
    assert(after[at] == conditions[at]);
    assert forall|j: int| 0 <= j < at implies (#[trigger] after[j]).condition_type
        != old_one.condition_type by {
        if j != position(conditions, new.condition_type) {
            assert(after[j] == conditions[j]);
        }
    }
    lemma_position_is(after, old_one.condition_type, at);
}

/// Once conditions of different types are recorded, the first condition of each of their types
/// says what was recorded, whatever the list said before.
pub proof fn law_recorded_statements_hold(
    conditions: Seq<ConditionView>,
    news: Seq<ConditionView>,
)
    requires
        types_distinct(news),
    ensures
        forall|i: int|
            0 <= i < news.len() ==> settled(with_conditions(conditions, news), #[trigger] news[i]),
    decreases news.len(),
{
    if news.len() > 0 {
        let front = news.drop_last();
        let so_far = with_conditions(conditions, front);
        assert forall|i: int, j: int| 0 <= i < j < front.len() implies (
        #[trigger] front[i]).condition_type != (#[trigger] front[j]).condition_type by {
            assert(front[i] == news[i] && front[j] == news[j]);
        }
        law_recorded_statements_hold(conditions, front);
        assert forall|i: int| 0 <= i < news.len() implies settled(
            with_conditions(conditions, news),
            #[trigger] news[i],
        ) by {
            if i < front.len() {
                assert(settled(so_far, front[i]));
                lemma_settled_survives(so_far, news[i], news.last());
            } else {
                lemma_recording_settles(so_far, news.last());
            }
        }
    }
}

proof fn lemma_settled_all_is_unchanged(conditions: Seq<ConditionView>, news: Seq<ConditionView>)
    requires
        forall|i: int| 0 <= i < news.len() ==> settled(conditions, #[trigger] news[i]),
    ensures
        with_conditions(conditions, news) == conditions,
    decreases news.len(),
{
    if news.len() > 0 {
        let front = news.drop_last();
        assert forall|i: int| 0 <= i < front.len() implies settled(
            conditions,
            #[trigger] front[i],
        ) by {
            assert(front[i] == news[i]);
        }
        lemma_settled_all_is_unchanged(conditions, front);
        assert(settled(conditions, news[news.len() - 1]));
        lemma_settled_is_unchanged(conditions, news.last());
    }
}

/// Recording the same statements again, with other time stamps, changes nothing: a status that
/// is rebuilt from itself keeps every condition and every transition time.
pub proof fn law_recorded_conditions_are_stable(
    conditions: Seq<ConditionView>,
    news: Seq<ConditionView>,
    again: Seq<ConditionView>,
)
    requires
        types_distinct(news),
        same_statements(news, again),
    ensures
        with_conditions(with_conditions(conditions, news), again) == with_conditions(
            conditions,
            news,
        ),
{
    let once = with_conditions(conditions, news);
    law_recorded_statements_hold(conditions, news);
    assert forall|i: int| 0 <= i < again.len() implies settled(once, #[trigger] again[i]) by {
        assert(settled(once, news[i]));
    }
    lemma_settled_all_is_unchanged(once, again);
}

/// Recording conditions leaves every condition whose type is not among them as it was and
/// where it was.
pub proof fn law_unnamed_conditions_are_untouched(
    conditions: Seq<ConditionView>,
    news: Seq<ConditionView>,
    i: int,
)
    requires
        0 <= i < conditions.len(),
        forall|j: int|
            0 <= j < news.len() ==> (#[trigger] news[j]).condition_type
                != conditions[i].condition_type,
    ensures
        i < with_conditions(conditions, news).len(),
        with_conditions(conditions, news)[i] == conditions[i],
    decreases news.len(),
{
    if news.len() > 0 {
        let front = news.drop_last();
        assert forall|j: int| 0 <= j < front.len() implies (#[trigger] front[j]).condition_type
            != conditions[i].condition_type by {
            assert(front[j] == news[j]);
        }
        law_unnamed_conditions_are_untouched(conditions, front, i);
        let so_far = with_conditions(conditions, front);
        assert(news[news.len() - 1].condition_type != so_far[i].condition_type);
        lemma_position(so_far, news.last().condition_type);
        law_other_conditions_are_untouched(so_far, news.last(), i);
    }
}

} // verus!
