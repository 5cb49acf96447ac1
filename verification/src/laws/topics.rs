//! Laws of reconciling topics: what is refused, what is asked of the server, what its answers
//! amount to, and what is published.

use crate::conditions::ConditionFields;
use crate::controllers::topic;
use crate::controllers::topic::{
    evaluate_sync, parse_topic_state, state_of_reading, unsupported_fields, ServerReply,
    SyncOutcome, TopicDecision, TopicReading, TopicReport, TopicReportView, TopicServerState,
    TopicStart,
};
use crate::controllers::{NextReconcile, ReconcileVerdict, TopicController};
use crate::crd::topic::{TopicPhase, TopicStatusView};
use crate::crd::{StreamlineCluster, StreamlineTopic, TopicSpec, TopicStatus};
use crate::json;
use crate::laws::clusters;
use crate::laws::requests;
use crate::text;
use crate::upgrade;
use vstd::prelude::*;

verus! {

// ---------------------------------------------------------------------------
// What is refused
// ---------------------------------------------------------------------------

/// Whether a text starts with another.
pub open spec fn starts_with(s: Seq<char>, front: Seq<char>) -> bool {
    front.len() <= s.len() && s.subrange(0, front.len() as int) == front
}

/// Whether one of the texts starts with the given one.
pub open spec fn names(texts: Seq<Seq<char>>, front: Seq<char>) -> bool {
    exists|i: int| 0 <= i < texts.len() && starts_with(#[trigger] texts[i], front)
}

/// Whether a topic leaves everything unset that the server cannot apply.
pub open spec fn asks_for_partitions_only(spec: TopicSpec) -> bool {
    &&& spec.replication_factor == 1
    &&& spec.partitions >= 1
    &&& spec.retention.retention_ms == -1
    &&& spec.retention.retention_bytes == -1
    &&& spec.retention.cleanup_policy@ == "delete"@
    &&& spec.compression.type_@ == "producer"@
    &&& spec.config.min_insync_replicas is None
    &&& spec.config.max_message_bytes is None
    &&& spec.config.segment_bytes is None
    &&& spec.config.index_interval_bytes is None
    &&& spec.config.flush_interval_ms is None
    &&& spec.config.flush_messages is None
    &&& spec.config.custom@.len() == 0
}

/// A topic is refused exactly when it asks for anything but a partition count.
pub proof fn law_a_topic_may_only_ask_for_partitions(spec: TopicSpec, unsupported: Vec<String>)
    requires
        call_ensures(TopicController::unsupported_fields, (&spec,), unsupported),
    ensures
        unsupported@.len() == 0 <==> asks_for_partitions_only(spec),
{
    let view = spec.deep_view();
    assert(unsupported.deep_view().len() == unsupported@.len());
    assert(view.config.custom.len() == spec.config.custom@.len());
    topic::law_only_supported_settings_are_accepted(view);
    if asks_for_partitions_only(spec) {
        assert(view.config.custom =~= Seq::empty());
        assert(view.config =~= crate::crd::topic::no_overrides());
        assert(view.retention =~= crate::crd::topic::default_retention());
        assert(view.compression =~= crate::crd::topic::default_compression());
    }
}

proof fn lemma_starts_with(front: Seq<char>, rest: Seq<char>)
    ensures
        starts_with(front + rest, front),
{
    assert((front + rest).subrange(0, front.len() as int) =~= front);
}

proof fn lemma_still_starts(s: Seq<char>, front: Seq<char>, rest: Seq<char>)
    requires
        starts_with(s, front),
    ensures
        starts_with(s + rest, front),
{
    assert((s + rest).subrange(0, front.len() as int) =~= s.subrange(0, front.len() as int));
}

proof fn lemma_rejection_starts(field: Seq<char>, requested: Seq<char>, default: Seq<char>)
    ensures
        starts_with(
            topic::rejection(field, requested, default),
            field + "="@ + requested + " is not supported"@,
        ),
{
    let start = field + "="@ + requested;
    let said = " is not supported"@;
    reveal_strlit(" is not supported");
    reveal_strlit(
        " is not supported: the Streamline topic API applies no topic configuration (it accepts only name and partitions), so this setting would be silently discarded (leave it at the default ",
    );
    let rest = topic::SETTING_UNSUPPORTED@.subrange(17, topic::SETTING_UNSUPPORTED@.len() as int);
    assert(said + rest =~= topic::SETTING_UNSUPPORTED@);
    assert(start + topic::SETTING_UNSUPPORTED@ =~= start + said + rest);
    lemma_starts_with(start + said, rest);
    lemma_still_starts(start + topic::SETTING_UNSUPPORTED@, start + said, default);
    lemma_still_starts(start + topic::SETTING_UNSUPPORTED@ + default, start + said, ")."@);
    lemma_still_starts(
        start + topic::SETTING_UNSUPPORTED@ + default + ")."@,
        start + said,
        crate::upgrade::remedy_for_value("spec."@ + field, requested),
    );
}

/// A list that holds a text holds one that starts as it does.
pub proof fn lemma_named(texts: Seq<Seq<char>>, said: Seq<char>, front: Seq<char>)
    requires
        texts.contains(said),
        starts_with(said, front),
    ensures
        names(texts, front),
{
    let i = choose|i: int| 0 <= i < texts.len() && texts[i] == said;
    assert(starts_with(texts[i], front));
}

/// Each setting that the server cannot apply is named in the refusal with the value that was
/// asked for.
pub proof fn law_every_refused_setting_is_named(
    spec: TopicSpec,
    unsupported: Vec<String>,
    custom: int,
)
    requires
        call_ensures(TopicController::unsupported_fields, (&spec,), unsupported),
    ensures
        ({
            let all = unsupported.deep_view();
            let no = " is not supported"@;
            &&& spec.replication_factor != 1 ==> names(
                all,
                "replicationFactor="@ + text::decimal(spec.replication_factor as int) + no,
            )
            &&& spec.partitions < 1 ==> names(
                all,
                "partitions must be >= 1, got "@ + text::decimal(spec.partitions as int),
            )
            &&& spec.retention.retention_ms != -1 ==> names(
                all,
                "retention.retentionMs"@ + "="@ + text::decimal(spec.retention.retention_ms as int)
                    + no,
            )
            &&& spec.retention.retention_bytes != -1 ==> names(
                all,
                "retention.retentionBytes"@ + "="@ + text::decimal(
                    spec.retention.retention_bytes as int,
                ) + no,
            )
            &&& spec.retention.cleanup_policy@ != "delete"@ ==> names(
                all,
                "retention.cleanupPolicy"@ + "="@ + spec.retention.cleanup_policy@ + no,
            )
            &&& spec.compression.type_@ != "producer"@ ==> names(
                all,
                "compression.type"@ + "="@ + spec.compression.type_@ + no,
            )
            &&& spec.config.min_insync_replicas is Some ==> names(
                all,
                "config.minInsyncReplicas"@ + "="@ + text::decimal(
                    spec.config.min_insync_replicas->0 as int,
                ) + no,
            )
            &&& spec.config.max_message_bytes is Some ==> names(
                all,
                "config.maxMessageBytes"@ + "="@ + text::decimal(
                    spec.config.max_message_bytes->0 as int,
                ) + no,
            )
            &&& spec.config.segment_bytes is Some ==> names(
                all,
                "config.segmentBytes"@ + "="@ + text::decimal(spec.config.segment_bytes->0 as int)
                    + no,
            )
            &&& spec.config.index_interval_bytes is Some ==> names(
                all,
                "config.indexIntervalBytes"@ + "="@ + text::decimal(
                    spec.config.index_interval_bytes->0 as int,
                ) + no,
            )
            &&& spec.config.flush_interval_ms is Some ==> names(
                all,
                "config.flushIntervalMs"@ + "="@ + text::decimal(
                    spec.config.flush_interval_ms->0 as int,
                ) + no,
            )
            &&& spec.config.flush_messages is Some ==> names(
                all,
                "config.flushMessages"@ + "="@ + text::decimal(spec.config.flush_messages->0 as int)
                    + no,
            )
            &&& 0 <= custom < spec.config.custom@.len() ==> names(
                all,
                "config.custom["@ + spec.config.custom@[custom].key@ + "]"@ + "="@ + "set"@ + no,
            )
        }),
{
    broadcast use vstd::seq_lib::group_seq_properties;

    let view = spec.deep_view();
    let all = unsupported.deep_view();
    assert(all == topic::rejections(view));
    let shape = topic::shape_rejections(view);
    let retention = topic::retention_rejections(view);
    let config = topic::config_rejections(view);
    if spec.replication_factor != 1 {
        let front = "replicationFactor="@ + text::decimal(spec.replication_factor as int);
        let said = " is not supported"@;
        reveal_strlit(" is not supported");
        reveal_strlit(
            " is not supported: the Streamline topic API creates single-replica topics (set replicationFactor: 1), so this topic would claim durability the cluster does not provide.",
        );
        let rest = topic::REPLICATION_UNSUPPORTED@.subrange(
            17,
            topic::REPLICATION_UNSUPPORTED@.len() as int,
        );
        assert(said + rest =~= topic::REPLICATION_UNSUPPORTED@);
        assert(front + topic::REPLICATION_UNSUPPORTED@ =~= front + said + rest);
        lemma_starts_with(front + said, rest);
        let remedy = crate::upgrade::remedy_for(
            "spec.replicationFactor"@,
            spec.replication_factor == 2,
        );
        lemma_still_starts(front + topic::REPLICATION_UNSUPPORTED@, front + said, remedy);
        assert(all[0] == front + topic::REPLICATION_UNSUPPORTED@ + remedy);
        assert(starts_with(all[0], front + said));
    }
    if spec.partitions < 1 {
        let said = "partitions must be >= 1, got "@ + text::decimal(spec.partitions as int);
        assert(shape.last() == said);
        assert(shape.contains(said));
        lemma_starts_with(said, Seq::empty());
        assert(said + Seq::<char>::empty() =~= said);
        lemma_named(all, said, said);
    }
    let ms = text::decimal(spec.retention.retention_ms as int);
    let bytes = text::decimal(spec.retention.retention_bytes as int);
    lemma_reject_if(all, spec.retention.retention_ms != -1, "retention.retentionMs"@, ms, text::decimal(-1));
    lemma_reject_if(
        all,
        spec.retention.retention_bytes != -1,
        "retention.retentionBytes"@,
        bytes,
        text::decimal(-1),
    );
    lemma_reject_if(
        all,
        spec.retention.cleanup_policy@ != "delete"@,
        "retention.cleanupPolicy"@,
        spec.retention.cleanup_policy@,
        "delete"@,
    );
    lemma_reject_if(
        all,
        spec.compression.type_@ != "producer"@,
        "compression.type"@,
        spec.compression.type_@,
        "producer"@,
    );
    lemma_override(all, "config.minInsyncReplicas"@, topic::wide32(spec.config.min_insync_replicas));
    lemma_override(all, "config.maxMessageBytes"@, topic::wide64(spec.config.max_message_bytes));
    lemma_override(all, "config.segmentBytes"@, topic::wide64(spec.config.segment_bytes));
    lemma_override(
        all,
        "config.indexIntervalBytes"@,
        topic::wide64(spec.config.index_interval_bytes),
    );
    lemma_override(all, "config.flushIntervalMs"@, topic::wide64(spec.config.flush_interval_ms));
    lemma_override(all, "config.flushMessages"@, topic::wide64(spec.config.flush_messages));
    if 0 <= custom < spec.config.custom@.len() {
        let entries = view.config.custom;
        assert(entries.len() == spec.config.custom@.len());
        assert(entries[custom].key == spec.config.custom@[custom].key@);
        topic::lemma_custom_rejections(entries);
        let field = "config.custom["@ + entries[custom].key + "]"@;
        let said = topic::rejection(field, "set"@, "unset"@);
        assert(topic::custom_rejections(entries)[custom] == said);
        assert(topic::custom_rejections(entries).contains(said));
        assert(config.contains(said));
        assert(all.contains(said));
        lemma_rejection_starts(field, "set"@, "unset"@);
        lemma_named(all, said, field + "="@ + "set"@ + " is not supported"@);
    }
}

proof fn lemma_reject_if(
    all: Seq<Seq<char>>,
    wrong: bool,
    field: Seq<char>,
    requested: Seq<char>,
    default: Seq<char>,
)
    requires
        wrong ==> all.contains(topic::rejection(field, requested, default)),
    ensures
        wrong ==> names(all, field + "="@ + requested + " is not supported"@),
{
    if wrong {
        lemma_rejection_starts(field, requested, default);
        lemma_named(
            all,
            topic::rejection(field, requested, default),
            field + "="@ + requested + " is not supported"@,
        );
    }
}

proof fn lemma_override(all: Seq<Seq<char>>, field: Seq<char>, value: Option<int>)
    requires
        value is Some ==> all.contains(
            topic::rejection(field, text::decimal(value->0), "unset"@),
        ),
    ensures
        value is Some ==> names(
            all,
            field + "="@ + text::decimal(value->0) + " is not supported"@,
        ),
{
    if value is Some {
        lemma_reject_if(all, true, field, text::decimal(value->0), "unset"@);
    }
}

// ---------------------------------------------------------------------------
// What is asked of the server
// ---------------------------------------------------------------------------

/// A topic that is being deleted is cleaned up; a refused one is only reported, with every
/// reason; any other one goes on to its cluster.
pub proof fn law_only_a_supported_topic_reaches_its_cluster(
    topic: StreamlineTopic,
    unsupported: Vec<String>,
    decision: TopicDecision,
)
    requires
        call_ensures(TopicController::decide, (&topic,), decision),
        call_ensures(TopicController::unsupported_fields, (&topic.spec,), unsupported),
    ensures
        decision is CleanUp <==> topic.metadata.deleting,
        decision is LookUpCluster <==> !topic.metadata.deleting && unsupported@.len() == 0,
        decision is Create == false,
        decision is ReadBack == false,
        decision matches TopicDecision::Finish(report, next, verdict) ==> {
            &&& report is Unsupported
            &&& next == NextReconcile::After(300)
            &&& verdict == ReconcileVerdict::Error
            &&& forall|i: int|
                0 <= i < unsupported@.len() ==> text::occurs(
                    report->Unsupported_0@,
                    (#[trigger] unsupported@[i])@,
                )
        },
{
    let all = unsupported.deep_view();
    assert(all.len() == unsupported@.len());
    assert(all == topic::rejections(topic.deep_view().spec));
    let view = decision.deep_view();
    if decision is Finish {
        let said = decision->Finish_0;
        assert(said.deep_view() == TopicReportView::Unsupported(text::joined(all, "; "@)));
        assert forall|i: int| 0 <= i < unsupported@.len() implies text::occurs(
            said->Unsupported_0@,
            (#[trigger] unsupported@[i])@,
        ) by {
            assert(all[i] == unsupported@[i]@);
            text::law_every_part_is_joined(all, "; "@, i);
        }
    }
}

/// A reconcile sets the finalizer first unless it is there or the topic is on its way out, and
/// refuses a topic exactly when it asks for something that the server cannot apply.
pub proof fn law_a_topic_is_held_before_it_is_created(
    topic: StreamlineTopic,
    unsupported: Vec<String>,
    start: TopicStart,
)
    requires
        call_ensures(TopicController::start, (&topic,), start),
        call_ensures(TopicController::unsupported_fields, (&topic.spec,), unsupported),
    ensures
        start.deleting == topic.metadata.deleting,
        start.add_finalizer <==> !topic.metadata.deleting && forall|i: int|
            0 <= i < topic.metadata.finalizers@.len() ==> (
            #[trigger] topic.metadata.finalizers@[i])@ != "streamline.io/topic-cleanup"@,
        start.refusal is Some <==> !topic.metadata.deleting && unsupported@.len() > 0,
        start.refusal is Some ==> forall|i: int|
            0 <= i < unsupported@.len() ==> text::occurs(
                start.refusal->0@,
                (#[trigger] unsupported@[i])@,
            ),
{
    let all = unsupported.deep_view();
    assert(all.len() == unsupported@.len());
    let held = topic.metadata.finalizers.deep_view();
    assert(held == topic.deep_view().metadata.finalizers);
    assert(held.len() == topic.metadata.finalizers@.len());
    assert forall|i: int| 0 <= i < held.len() implies #[trigger] held[i]
        == topic.metadata.finalizers@[i]@ by {}
    if held.contains("streamline.io/topic-cleanup"@) {
        let i = choose|i: int| 0 <= i < held.len() && held[i] == "streamline.io/topic-cleanup"@;
        assert(topic.metadata.finalizers@[i]@ == "streamline.io/topic-cleanup"@);
    } else {
        assert forall|i: int| 0 <= i < topic.metadata.finalizers@.len() implies (
        #[trigger] topic.metadata.finalizers@[i])@ != "streamline.io/topic-cleanup"@ by {
            assert(held[i] == topic.metadata.finalizers@[i]@);
        }
    }
    let view = start.deep_view();
    assert(view.refusal == start.refusal.deep_view());
    if start.refusal is Some {
        assert(start.refusal->0@ == text::joined(all, "; "@));
        assert forall|i: int| 0 <= i < unsupported@.len() implies text::occurs(
            start.refusal->0@,
            (#[trigger] unsupported@[i])@,
        ) by {
            assert(all[i] == unsupported@[i]@);
            text::law_every_part_is_joined(all, "; "@, i);
        }
    }
}

/// The topic is created, under its own name and with the partitions it asks for, at the first
/// broker of its cluster, and only where that cluster can serve; a cluster that cannot is waited
/// for, and one that is not there fails the topic by name.
pub proof fn law_a_topic_is_created_where_its_cluster_serves(
    topic: StreamlineTopic,
    cluster: Option<&StreamlineCluster>,
    decision: TopicDecision,
)
    requires
        call_ensures(TopicController::decide_on_cluster, (&topic, cluster), decision),
    ensures
        decision is Create <==> cluster is Some && requests::can_serve(*cluster->0),
        decision matches TopicDecision::Create(url, name, partitions) ==> {
            let there = *cluster->0;
            &&& url@ == requests::first_broker(there, requests::home(there.metadata))
                + "/api/v1/topics"@
            &&& name@ == topic.metadata.name@
            &&& partitions == topic.spec.partitions
        },
        !(decision is Create) ==> {
            &&& decision is Finish
            &&& decision->Finish_2 == ReconcileVerdict::Uncounted
        },
        cluster is None ==> decision->Finish_1 == NextReconcile::After(30) && (
        decision->Finish_0 matches TopicReport::Failed(message) && message@ == "Cluster "@
            + topic.spec.cluster_ref@ + " not found"@),
        cluster is Some && !(decision is Create) ==> decision->Finish_1 == NextReconcile::After(10)
            && (decision->Finish_0 matches TopicReport::Pending(message) && message@
            == "Waiting for cluster to be ready"@),
{
    let view = decision.deep_view();
    if cluster is Some {
        let there = *cluster->0;
        assert(cluster.deep_view() == Some(there.deep_view()));
        if there.status is Some {
            let endpoints = there.status->0.broker_endpoints;
            assert(endpoints.deep_view().len() == endpoints@.len());
        }
    }
    if decision is Finish {
        let report = decision->Finish_0;
        assert(report.deep_view() == view->Finish_0);
    }
}

/// Whether a decision ends the reconcile of a topic as failed, with the given message, to be
/// tried again after half a minute.
pub open spec fn fails_with(decision: TopicDecision, message: Seq<char>) -> bool {
    &&& decision matches TopicDecision::Finish(TopicReport::Failed(said), next, verdict)
    &&& said@ == message
    &&& next == NextReconcile::After(30)
    &&& verdict == ReconcileVerdict::Uncounted
}

/// A request that could not be sent fails the topic, by its name and with the reason.
pub proof fn law_an_unsent_request_fails_the_topic(
    topic: StreamlineTopic,
    failure: &str,
    decision: TopicDecision,
)
    requires
        call_ensures(TopicController::decide_on_failure, (&topic, failure), decision),
    ensures
        fails_with(
            decision,
            "Internal error: "@ + ("HTTP request to create topic "@ + topic.metadata.name@
                + " failed: "@ + failure@),
        ),
{
    let view = decision.deep_view();
    if decision is Finish {
        assert(decision->Finish_0.deep_view() == view->Finish_0);
    }
}

/// Whatever the server answers to a create request but success or a conflict fails the topic:
/// it is neither read back nor taken as accepted, whatever the body reports. An honoured request
/// whose body reports nothing is read back where the topic was created, and one whose body
/// reports something ends as that state does.
pub proof fn law_only_an_honoured_request_is_followed_up(
    topic: StreamlineTopic,
    cluster: StreamlineCluster,
    reply: ServerReply,
    state: TopicServerState,
    decision: TopicDecision,
    finished: TopicDecision,
)
    requires
        call_ensures(
            TopicController::decide_on_state,
            (&topic, &cluster, &reply, state),
            decision,
        ),
        call_ensures(TopicController::finish, (&topic, state), finished),
    ensures
        (reply.code < 200 || reply.code > 299) && reply.code != 409 ==> fails_with(
            decision,
            "Internal error: "@ + ("Failed to create topic "@ + topic.metadata.name@ + " (HTTP "@
                + reply.status@ + "): "@ + reply.body@),
        ) && !(decision is ReadBack) && !(decision->Finish_0 is Accepted),
        200 <= reply.code <= 299 || reply.code == 409 ==> {
            let nothing = state.partitions is None && state.replication_factor is None;
            &&& nothing ==> (decision matches TopicDecision::ReadBack(url) && url@
                == requests::first_broker(cluster, requests::home(cluster.metadata))
                + "/api/v1/topics/"@ + topic.metadata.name@)
            &&& !nothing ==> decision.deep_view() == finished.deep_view() && decision is Finish
        },
{
    let view = decision.deep_view();
    if decision is Finish {
        assert(decision->Finish_0.deep_view() == view->Finish_0);
    }
}

/// The same holds of the answer itself, whose body says what the state is.
pub proof fn law_an_answer_is_followed_up_by_its_state(
    topic: StreamlineTopic,
    cluster: StreamlineCluster,
    reply: ServerReply,
    body: &str,
    state: TopicServerState,
    by_reply: TopicDecision,
    by_state: TopicDecision,
)
    requires
        body@ == reply.body@,
        call_ensures(parse_topic_state, (body,), state),
        call_ensures(TopicController::decide_on_reply, (&topic, &cluster, &reply), by_reply),
        call_ensures(
            TopicController::decide_on_state,
            (&topic, &cluster, &reply, state),
            by_state,
        ),
    ensures
        by_reply.deep_view() == by_state.deep_view(),
        (reply.code < 200 || reply.code > 299) && reply.code != 409 ==> fails_with(
            by_reply,
            "Internal error: "@ + ("Failed to create topic "@ + topic.metadata.name@ + " (HTTP "@
                + reply.status@ + "): "@ + reply.body@),
        ),
{
    let view = by_reply.deep_view();
    if by_reply is Finish {
        assert(by_reply->Finish_0.deep_view() == view->Finish_0);
    }
}

/// A topic that was accepted is verified exactly when the server reports both numbers that it
/// asks for, failed exactly when the server reports another number, and unverified otherwise.
/// Either way the reconcile counts and is repeated after a minute.
pub proof fn law_a_topic_is_verified_by_both_numbers(
    topic: StreamlineTopic,
    state: TopicServerState,
    decision: TopicDecision,
)
    requires
        call_ensures(TopicController::finish, (&topic, state), decision),
    ensures
        decision matches TopicDecision::Finish(report, next, verdict) && {
            let more = state.partitions is Some && state.partitions->0 != topic.spec.partitions;
            let copies = state.replication_factor is Some && state.replication_factor->0
                != topic.spec.replication_factor;
            &&& next == NextReconcile::After(60)
            &&& verdict == ReconcileVerdict::Success
            &&& !more && !copies ==> report == TopicReport::Accepted(
                state,
                state.partitions is Some && state.replication_factor is Some,
            )
            &&& more || copies ==> {
                let by_partitions = "server reports "@ + text::decimal(state.partitions->0 as int)
                    + " partitions, spec requests "@ + text::decimal(topic.spec.partitions as int);
                let by_copies = "server reports replication factor "@ + text::decimal(
                    state.replication_factor->0 as int,
                ) + ", spec requests "@ + text::decimal(topic.spec.replication_factor as int);
                &&& report is Failed
                &&& report->Failed_0@ == if more && copies {
                    by_partitions + "; "@ + by_copies
                } else if more {
                    by_partitions
                } else {
                    by_copies
                }
            }
        },
{
    let view = decision.deep_view();
    let report = decision->Finish_0;
    assert(report.deep_view() == view->Finish_0);
    let drifts = topic::drifts(topic.deep_view().spec, state);
    reveal_with_fuel(text::joined, 3);
    if drifts.len() == 2 {
        assert(drifts.drop_last() =~= seq![drifts[0]]);
    }
}

/// A topic whose read-back failed, in whatever way, is accepted without being verified, and one
/// that was read back ends as the state in the body does.
pub proof fn law_a_failed_read_back_verifies_nothing(
    topic: StreamlineTopic,
    reply: Option<&ServerReply>,
    body: &str,
    state: TopicServerState,
    decision: TopicDecision,
    finished: TopicDecision,
)
    requires
        call_ensures(TopicController::decide_on_read_back, (&topic, reply), decision),
        reply is Some ==> body@ == reply->0.body@,
        call_ensures(parse_topic_state, (body,), state),
        call_ensures(TopicController::finish, (&topic, state), finished),
    ensures
        reply is None || reply->0.code < 200 || reply->0.code > 299 ==> decision
            == TopicDecision::Finish(
            TopicReport::Accepted(
                TopicServerState { partitions: None, replication_factor: None },
                false,
            ),
            NextReconcile::After(60),
            ReconcileVerdict::Success,
        ),
        reply is Some && 200 <= reply->0.code <= 299 ==> decision.deep_view()
            == finished.deep_view(),
{
    let view = decision.deep_view();
    if reply is Some {
        assert(reply.deep_view() == Some(reply->0.deep_view()));
    } else {
        assert(reply.deep_view() is None);
    }
    if decision is Finish {
        assert(decision->Finish_0.deep_view() == view->Finish_0);
    }
}

/// A topic is deleted at the first broker of its cluster, under its own name.
pub proof fn law_a_topic_is_deleted_under_its_name(
    topic: StreamlineTopic,
    cluster: StreamlineCluster,
    url: String,
)
    requires
        call_ensures(TopicController::deletion_url, (&topic, &cluster), url),
    ensures
        url@ == requests::first_broker(cluster, requests::home(topic.metadata))
            + "/api/v1/topics/"@ + topic.metadata.name@,
{
}

// ---------------------------------------------------------------------------
// What the server reports
// ---------------------------------------------------------------------------

/// A reported number is taken under whatever spelling it comes, in their order, if it fits; the
/// other number has no part in it.
pub proof fn law_a_number_is_read_under_any_spelling(
    reading: TopicReading,
    state: TopicServerState,
)
    requires
        call_ensures(state_of_reading, (&reading,), state),
    ensures
        state.partitions matches Some(n) ==> {
            ||| reading.partitions == Some(n as i64)
            ||| reading.partitions is None && reading.partition_count == Some(n as i64)
            ||| reading.partitions is None && reading.partition_count is None
                && reading.partition_count_camel == Some(n as i64)
        },
        state.partitions is None ==> {
            let n = if reading.partitions is Some {
                reading.partitions
            } else if reading.partition_count is Some {
                reading.partition_count
            } else {
                reading.partition_count_camel
            };
            n is None || n->0 > 0x7fff_ffff || n->0 < -0x8000_0000
        },
        state.replication_factor matches Some(n) ==> {
            ||| reading.replication_factor == Some(n as i64)
            ||| reading.replication_factor is None && reading.replication_factor_camel == Some(
                n as i64,
            )
        },
        state.replication_factor is None ==> {
            let n = if reading.replication_factor is Some {
                reading.replication_factor
            } else {
                reading.replication_factor_camel
            };
            n is None || n->0 > 0x7fff_ffff || n->0 < -0x8000_0000
        },
{
}

/// A body is read under `topic` where it has one, and as a whole otherwise, and each number
/// under its own names.
pub proof fn law_a_body_is_read_under_its_topic(
    body: &str,
    reading: TopicReading,
    by_body: TopicServerState,
    by_reading: TopicServerState,
)
    requires
        call_ensures(parse_topic_state, (body,), by_body),
        call_ensures(state_of_reading, (&reading,), by_reading),
        ({
            let root = if json::json_present(body@, "/topic"@) {
                "/topic"@
            } else {
                ""@
            };
            &&& reading.partitions == json::json_number(body@, root + "/partitions"@)
            &&& reading.partition_count == json::json_number(body@, root + "/partition_count"@)
            &&& reading.partition_count_camel == json::json_number(
                body@,
                root + "/partitionCount"@,
            )
            &&& reading.replication_factor == json::json_number(
                body@,
                root + "/replication_factor"@,
            )
            &&& reading.replication_factor_camel == json::json_number(
                body@,
                root + "/replicationFactor"@,
            )
        }),
    ensures
        by_body == by_reading,
{
}

// ---------------------------------------------------------------------------
// What is published
// ---------------------------------------------------------------------------

/// The status of a topic says what was reported, whatever it said before: ready exactly if the
/// server accepted it, with the numbers that the server reported and no others, and with the
/// message of a refusal or failure.
pub proof fn law_the_status_of_a_topic_says_what_was_reported(
    topic: StreamlineTopic,
    report: TopicReport,
    now: &str,
    status: TopicStatus,
)
    requires
        call_ensures(TopicController::status_of_at, (&topic, &report, now), status),
    ensures
        status.ready <==> report is Accepted,
        status.phase == TopicPhase::Ready <==> report is Accepted,
        status.phase == TopicPhase::Pending <==> report is Pending,
        status.phase == TopicPhase::Failed <==> report is Failed || report is Unsupported,
        status.observed_generation == topic.metadata.generation,
        status.partition_assignments@.len() == 0,
        report matches TopicReport::Accepted(state, _) ==> {
            &&& status.partitions == (if state.partitions is Some {
                state.partitions->0
            } else {
                0
            })
            &&& status.replication_factor == (if state.replication_factor is Some {
                state.replication_factor->0
            } else {
                0
            })
            &&& status.error_message is None
        },
        report matches TopicReport::Pending(_) ==> status.error_message is None,
        report matches TopicReport::Failed(m) ==> status.error_message is Some
            && status.error_message->0@ == m@,
        report matches TopicReport::Unsupported(m) ==> status.error_message is Some
            && status.error_message->0@ == m@,
        !(report is Accepted) ==> status.partitions == 0 && status.replication_factor == 0,
{
    let view = status.deep_view();
    assert(view.partition_assignments.len() == status.partition_assignments@.len());
    assert(view.error_message == status.error_message.deep_view());
}

/// The conditions of a topic say what was reported, whatever they said before: Synced is true
/// only if the server confirmed both numbers, and unknown if it accepted without confirming.
pub proof fn law_the_conditions_of_a_topic_say_what_was_reported(
    topic: StreamlineTopic,
    report: TopicReport,
    now: &str,
    status: TopicStatus,
)
    requires
        call_ensures(TopicController::status_of_at, (&topic, &report, now), status),
    ensures
        ({
            let said = status.conditions.deep_view();
            match report {
                TopicReport::Unsupported(m) => {
                    &&& clusters::says(said, "Ready"@, "False"@, "UnsupportedConfiguration"@, m@)
                    &&& clusters::says(
                        said,
                        "Synced"@,
                        "False"@,
                        "UnsupportedConfiguration"@,
                        "The topic was not created because the spec requests unsupported settings"@,
                    )
                },
                TopicReport::Pending(m) => {
                    &&& clusters::says(said, "Ready"@, "False"@, "Pending"@, m@)
                    &&& clusters::says(
                        said,
                        "Synced"@,
                        "False"@,
                        "WaitingForCluster"@,
                        "Topic cannot sync until cluster is ready"@,
                    )
                },
                TopicReport::Failed(m) => {
                    &&& clusters::says(said, "Ready"@, "False"@, "Error"@, m@)
                    &&& clusters::says(said, "Synced"@, "False"@, "SyncFailed"@, m@)
                },
                TopicReport::Accepted(_, verified) => {
                    &&& clusters::says(
                        said,
                        "Ready"@,
                        "True"@,
                        "TopicReady"@,
                        "Topic successfully created/updated"@,
                    )
                    &&& verified ==> clusters::says(
                        said,
                        "Synced"@,
                        "True"@,
                        "ConfigSynced"@,
                        "Server-reported partition count and replication factor match the desired state. No other topic configuration is applied: the Streamline topic API accepts only a name and a partition count"@,
                    )
                    &&& !verified ==> clusters::says(
                        said,
                        "Synced"@,
                        "Unknown"@,
                        "ServerDidNotReportConfiguration"@,
                        "The server accepted the topic but did not report both its partition count and replication factor, so the desired state could not be verified"@,
                    )
                },
            }
        }),
{
    let view = topic.deep_view();
    let reported = report.deep_view();
    let said = status.deep_view().conditions;
    assert(said == status.conditions.deep_view());
    let news = topic::report_conditions(reported, now@);
    topic::law_the_status_says_what_is_reported(view, reported, now@, 0);
    topic::law_the_status_says_what_is_reported(view, reported, now@, 1);
    clusters::lemma_settled_is_said(said, news[0]);
    clusters::lemma_settled_is_said(said, news[1]);
}

/// Publishing what was published before changes nothing, not even the time stamp, and publishing
/// anything else moves it; a status is written exactly when it differs from the published one.
pub proof fn law_an_unchanged_topic_is_not_published_again(
    topic: StreamlineTopic,
    status: TopicStatus,
    now: &str,
    stamped: TopicStatus,
    changed: bool,
)
    requires
        status.last_updated is None,
        call_ensures(TopicController::with_stable_timestamp_at, (&topic, status, now), stamped),
        call_ensures(TopicController::status_changed, (&topic, &stamped), changed),
    ensures
        ({
            let before = status.deep_view();
            let after = stamped.deep_view();
            let unchanged = topic.status is Some && (TopicStatusView {
                last_updated: None,
                ..topic.status->0.deep_view()
            }) == before;
            &&& unchanged ==> after == topic.status->0.deep_view() && !changed
            &&& !unchanged ==> after == (TopicStatusView { last_updated: Some(now@), ..before })
            &&& topic.status is None ==> changed
            &&& topic.status is Some ==> (changed <==> after != topic.status->0.deep_view())
        }),
{
    let before = status.deep_view();
    let after = stamped.deep_view();
    if topic.status is Some {
        let published = topic.status->0.deep_view();
        assert(topic.deep_view().status == Some(published));
        topic::law_the_timestamp_alone_is_no_change(published, before, now@);
    } else {
        assert(topic.deep_view().status is None);
    }
}

/// Comparing with what the server reports tells the same three cases apart, and says in which
/// numbers they differ.
pub proof fn law_a_comparison_tells_drift_from_silence(
    spec: TopicSpec,
    state: TopicServerState,
    outcome: SyncOutcome,
    silent: bool,
    full: bool,
)
    requires
        call_ensures(evaluate_sync, (&spec, state), outcome),
        call_ensures(TopicServerState::is_empty, (&state,), silent),
        call_ensures(TopicServerState::is_fully_reported, (&state,), full),
    ensures
        silent <==> state.partitions is None && state.replication_factor is None,
        full <==> state.partitions is Some && state.replication_factor is Some,
        ({
            let more = state.partitions is Some && state.partitions->0 != spec.partitions;
            let copies = state.replication_factor is Some && state.replication_factor->0
                != spec.replication_factor;
            &&& outcome is Drift <==> more || copies
            &&& outcome is InSync <==> full && !more && !copies
            &&& outcome is Unverified <==> !full && !more && !copies
            &&& outcome matches SyncOutcome::InSync(seen) ==> seen == state
            &&& outcome matches SyncOutcome::Drift(message) ==> {
                &&& more ==> text::occurs(
                    message@,
                    "server reports "@ + text::decimal(state.partitions->0 as int)
                        + " partitions, spec requests "@ + text::decimal(spec.partitions as int),
                )
                &&& copies ==> text::occurs(
                    message@,
                    "server reports replication factor "@ + text::decimal(
                        state.replication_factor->0 as int,
                    ) + ", spec requests "@ + text::decimal(spec.replication_factor as int),
                )
            }
        }),
{
    let view = outcome.deep_view();
    let drifts = topic::drifts(spec.deep_view(), state);
    if drifts.len() > 0 {
        text::law_every_part_is_joined(drifts, "; "@, 0);
        text::law_every_part_is_joined(drifts, "; "@, drifts.len() - 1);
    }
}

/// Refusing is the same by the function and by the controller.
pub proof fn law_both_ways_of_refusing_agree(
    spec: TopicSpec,
    by_function: Vec<String>,
    by_controller: Vec<String>,
)
    requires
        call_ensures(unsupported_fields, (&spec,), by_function),
        call_ensures(TopicController::unsupported_fields, (&spec,), by_controller),
    ensures
        by_function.deep_view() == by_controller.deep_view(),
{
}

/// A status starts from the conditions that were published, and two statuses are the same exactly
/// when they say the same.
pub proof fn law_a_topic_status_starts_from_the_published_conditions(
    topic: StreamlineTopic,
    fields: Vec<ConditionFields>,
    left: TopicStatus,
    right: TopicStatus,
    same: bool,
)
    requires
        call_ensures(TopicController::seeded_conditions, (&topic,), fields),
        call_ensures(topic::statuses_eq, (&left, &right), same),
    ensures
        topic.status is None ==> fields@.len() == 0,
        topic.status is Some ==> fields.deep_view() == topic.status->0.conditions.deep_view(),
        same <==> left.deep_view() == right.deep_view(),
{
    assert(fields.deep_view().len() == fields@.len());
    if topic.status is Some {
        let status = topic.status->0;
        assert(topic.deep_view().status == Some(status.deep_view()));
        assert(status.deep_view().conditions == status.conditions.deep_view());
    } else {
        assert(topic.deep_view().status is None);
    }
}

proof fn lemma_rejection_ends(
    all: Seq<Seq<char>>,
    field: Seq<char>,
    requested: Seq<char>,
    default: Seq<char>,
)
    requires
        all.contains(topic::rejection(field, requested, default)),
    ensures
        exists|i: int|
            0 <= i < all.len() && starts_with(
                #[trigger] all[i],
                field + "="@ + requested + " is not supported"@,
            ) && text::occurs(all[i], upgrade::remedy_for_value("spec."@ + field, requested)),
{
    let said = topic::rejection(field, requested, default);
    lemma_rejection_starts(field, requested, default);
    text::lemma_end_occurs(
        field + "="@ + requested + topic::SETTING_UNSUPPORTED@ + default + ")."@,
        upgrade::remedy_for_value("spec."@ + field, requested),
    );
    let i = choose|i: int| 0 <= i < all.len() && all[i] == said;
    assert(starts_with(all[i], field + "="@ + requested + " is not supported"@));
}

/// Whether one of the texts refuses a value of a field and holds the advice for it.
pub open spec fn refused_with(
    texts: Seq<Seq<char>>,
    field: Seq<char>,
    value: Seq<char>,
    advice: Seq<char>,
) -> bool {
    exists|i: int|
        0 <= i < texts.len() && starts_with(
            #[trigger] texts[i],
            field + "="@ + value + " is not supported"@,
        ) && text::occurs(texts[i], advice)
}

/// A refused setting that was persisted by default comes with the advice for its field and for the
/// value that is refused.
pub proof fn law_refused_topic_defaults_come_with_advice(
    spec: TopicSpec,
    unsupported: Vec<String>,
    retention: &str,
    insync: &str,
    bytes: &str,
    ms_text: &str,
    insync_text: &str,
    bytes_text: &str,
    on_retention: String,
    on_insync: String,
    on_bytes: String,
)
    requires
        call_ensures(TopicController::unsupported_fields, (&spec,), unsupported),
        retention@ == "spec.retention.retentionMs"@,
        insync@ == "spec.config.minInsyncReplicas"@,
        bytes@ == "spec.config.maxMessageBytes"@,
        ms_text@ == text::decimal(spec.retention.retention_ms as int),
        spec.config.min_insync_replicas is Some ==> insync_text@ == text::decimal(
            spec.config.min_insync_replicas->0 as int,
        ),
        spec.config.max_message_bytes is Some ==> bytes_text@ == text::decimal(
            spec.config.max_message_bytes->0 as int,
        ),
        call_ensures(upgrade::remediation_for_value, (retention, ms_text), on_retention),
        call_ensures(upgrade::remediation_for_value, (insync, insync_text), on_insync),
        call_ensures(upgrade::remediation_for_value, (bytes, bytes_text), on_bytes),
    ensures
        ({
            let all = unsupported.deep_view();
            &&& spec.retention.retention_ms != -1 ==> refused_with(
                all,
                "retention.retentionMs"@,
                ms_text@,
                on_retention@,
            )
            &&& spec.config.min_insync_replicas is Some ==> refused_with(
                all,
                "config.minInsyncReplicas"@,
                insync_text@,
                on_insync@,
            )
            &&& spec.config.max_message_bytes is Some ==> refused_with(
                all,
                "config.maxMessageBytes"@,
                bytes_text@,
                on_bytes@,
            )
        }),
{
    broadcast use vstd::seq_lib::group_seq_properties;

    let view = spec.deep_view();
    let all = unsupported.deep_view();
    assert(all == topic::rejections(view));
    reveal_strlit("spec.");
    reveal_strlit("retention.retentionMs");
    reveal_strlit("config.minInsyncReplicas");
    reveal_strlit("config.maxMessageBytes");
    reveal_strlit("spec.retention.retentionMs");
    reveal_strlit("spec.config.minInsyncReplicas");
    reveal_strlit("spec.config.maxMessageBytes");
    assert("spec."@ + "retention.retentionMs"@ =~= retention@);
    assert("spec."@ + "config.minInsyncReplicas"@ =~= insync@);
    assert("spec."@ + "config.maxMessageBytes"@ =~= bytes@);
    if spec.retention.retention_ms != -1 {
        lemma_rejection_ends(all, "retention.retentionMs"@, ms_text@, text::decimal(-1));
    }
    if spec.config.min_insync_replicas is Some {
        lemma_rejection_ends(all, "config.minInsyncReplicas"@, insync_text@, "unset"@);
    }
    if spec.config.max_message_bytes is Some {
        lemma_rejection_ends(all, "config.maxMessageBytes"@, bytes_text@, "unset"@);
    }
}

/// A refused replication factor comes first, with the advice for its field.
pub proof fn law_a_refused_replication_factor_comes_with_advice(
    spec: TopicSpec,
    unsupported: Vec<String>,
    field: &str,
    advice: String,
)
    requires
        call_ensures(TopicController::unsupported_fields, (&spec,), unsupported),
        field@ == "spec.replicationFactor"@,
        call_ensures(upgrade::remediation_for, (field, spec.replication_factor == 2), advice),
        spec.replication_factor != 1,
    ensures
        unsupported@.len() > 0,
        text::occurs(unsupported@[0]@, advice@),
        starts_with(
            unsupported@[0]@,
            "replicationFactor="@ + text::decimal(spec.replication_factor as int),
        ),
{
    let all = unsupported.deep_view();
    assert(all.len() == unsupported@.len());
    assert(all[0] == unsupported@[0]@);
    let start = "replicationFactor="@ + text::decimal(spec.replication_factor as int);
    let front = start + topic::REPLICATION_UNSUPPORTED@;
    assert(all[0] == front + advice@);
    text::lemma_end_occurs(front, advice@);
    assert(all[0].subrange(0, start.len() as int) =~= start);
}

} // verus!
