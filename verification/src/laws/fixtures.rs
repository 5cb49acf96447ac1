//! Laws of fixtures: generated resources are held to what reconciling holds them to.

use crate::controllers::TopicController;
use crate::crd::ClusterSpec;
use crate::fixture;
use crate::fixture::{PlannedCluster, PlannedTopic};
use crate::text;
use vstd::prelude::*;

verus! {

/// A fixture without clusters or without topics is refused. Otherwise it is accepted only if every
/// cluster passes validation and every topic asks for what is supported, and it is accepted if all
/// do; its counts are those of its resources.
pub proof fn law_a_fixture_holds_only_what_is_reconciled(
    clusters: Vec<PlannedCluster>,
    topics: Vec<PlannedTopic>,
    counts: core::result::Result<(usize, usize), String>,
    i: int,
    checked: core::result::Result<(), Vec<String>>,
    j: int,
    unsupported: Vec<String>,
)
    requires
        call_ensures(fixture::validate_fixture_contents, (&clusters, &topics), counts),
        0 <= i < clusters@.len() ==> call_ensures(
            ClusterSpec::validate,
            (&clusters@[i].cluster.spec,),
            checked,
        ),
        0 <= j < topics@.len() ==> call_ensures(
            TopicController::unsupported_fields,
            (&topics@[j].topic.spec,),
            unsupported,
        ),
    ensures
        clusters@.len() == 0 ==> counts is Err && counts->Err_0@
            == "cloud fixture contains no StreamlineCluster resources"@,
        clusters@.len() > 0 && topics@.len() == 0 ==> counts is Err && counts->Err_0@
            == "cloud fixture contains no StreamlineTopic resources"@,
        counts is Ok ==> counts->Ok_0.0 == clusters@.len() && counts->Ok_0.1 == topics@.len(),
        counts is Ok && 0 <= i < clusters@.len() ==> checked is Ok,
        counts is Ok && 0 <= j < topics@.len() ==> unsupported@.len() == 0,
{
    let cs = clusters.deep_view();
    let ts = topics.deep_view();
    assert(cs.len() == clusters@.len() && ts.len() == topics@.len());
    fixture::law_a_fixture_is_accepted_iff_its_resources_are(cs, ts);
    if 0 <= i < clusters@.len() {
        assert(cs[i] == clusters@[i].deep_view());
        if counts is Ok {
            assert(fixture::cluster_rejection(cs[i]) is None);
        }
    }
    if 0 <= j < topics@.len() {
        assert(ts[j] == topics@[j].deep_view());
        assert(unsupported.deep_view().len() == unsupported@.len());
        if counts is Ok {
            assert(fixture::topic_rejection(ts[j]) is None);
        }
    }
}

/// The first cluster that is refused is reported by its plan and with every error, though clusters
/// behind it and topics may be refused as well.
pub proof fn law_the_first_refused_cluster_is_reported(
    clusters: Vec<PlannedCluster>,
    topics: Vec<PlannedTopic>,
    counts: core::result::Result<(usize, usize), String>,
    i: int,
    errors: Vec<String>,
    k: int,
)
    requires
        call_ensures(fixture::validate_fixture_contents, (&clusters, &topics), counts),
        topics@.len() > 0,
        0 <= i < clusters@.len(),
        call_ensures(ClusterSpec::validate, (&clusters@[i].cluster.spec,), Err(errors)),
        forall|j: int|
            0 <= j < i ==> call_ensures(
                ClusterSpec::validate,
                (&(#[trigger] clusters@[j]).cluster.spec,),
                Ok(()),
            ),
        0 <= k < errors@.len(),
    ensures
        counts is Err,
        text::occurs(counts->Err_0@, errors@[k]@),
        text::occurs(
            counts->Err_0@,
            "streamlineClusters."@ + clusters@[i].plan@
                + " is rejected by ClusterSpec::validate(): "@,
        ),
{
    let cs = clusters.deep_view();
    let ts = topics.deep_view();
    assert(cs.len() == clusters@.len() && ts.len() == topics@.len());
    assert(cs[i] == clusters@[i].deep_view());
    assert forall|j: int| 0 <= j < i implies fixture::cluster_rejection(
        #[trigger] cs[j],
    ) is None by {
        assert(call_ensures(ClusterSpec::validate, (&clusters@[j].cluster.spec,), Ok(())));
        assert(cs[j] == clusters@[j].deep_view());
    }
    let all = errors.deep_view();
    assert(all.len() == errors@.len());
    assert(all[k] == errors@[k]@);
    lemma_first_cluster(cs, i);
    let front = "streamlineClusters."@ + clusters@[i].plan@
        + " is rejected by ClusterSpec::validate(): "@;
    let said = text::joined(all, "; "@);
    assert(counts->Err_0@ == front + said);
    text::law_every_part_is_joined(all, "; "@, k);
    text::lemma_occurs_in_end(front, said, all[k]);
    text::lemma_end_occurs(Seq::empty(), front);
    assert(Seq::<char>::empty() + front =~= front);
    text::lemma_occurs_in_longer(front, front, said);
}

proof fn lemma_first_cluster(clusters: Seq<fixture::PlannedClusterView>, i: int)
    requires
        0 <= i < clusters.len(),
        fixture::cluster_rejection(clusters[i]) is Some,
        forall|j: int| 0 <= j < i ==> fixture::cluster_rejection(#[trigger] clusters[j]) is None,
    ensures
        fixture::first_cluster_rejection(clusters) == fixture::cluster_rejection(clusters[i]),
    decreases clusters.len(),
{
    if i > 0 {
        let rest = clusters.drop_first();
        assert(fixture::cluster_rejection(clusters[0]) is None);
        assert forall|j: int| 0 <= j < i - 1 implies fixture::cluster_rejection(
            #[trigger] rest[j],
        ) is None by {
            assert(rest[j] == clusters[j + 1]);
        }
        lemma_first_cluster(rest, i - 1);
    }
}

/// Where every cluster passes, the first topic that is refused is reported by its plan and with
/// every setting that is not supported.
pub proof fn law_the_first_refused_topic_is_reported(
    clusters: Vec<PlannedCluster>,
    topics: Vec<PlannedTopic>,
    counts: core::result::Result<(usize, usize), String>,
    i: int,
    unsupported: Vec<String>,
    none: Vec<String>,
    k: int,
)
    requires
        call_ensures(fixture::validate_fixture_contents, (&clusters, &topics), counts),
        clusters@.len() > 0,
        forall|j: int|
            0 <= j < clusters@.len() ==> call_ensures(
                ClusterSpec::validate,
                (&(#[trigger] clusters@[j]).cluster.spec,),
                Ok(()),
            ),
        0 <= i < topics@.len(),
        call_ensures(
            TopicController::unsupported_fields,
            (&topics@[i].topic.spec,),
            unsupported,
        ),
        none@.len() == 0,
        forall|j: int|
            0 <= j < i ==> call_ensures(
                TopicController::unsupported_fields,
                (&(#[trigger] topics@[j]).topic.spec,),
                none,
            ),
        0 <= k < unsupported@.len(),
    ensures
        counts is Err,
        text::occurs(counts->Err_0@, unsupported@[k]@),
        text::occurs(
            counts->Err_0@,
            "streamlineTopics."@ + topics@[i].plan@
                + " is rejected by TopicController::unsupported_fields(): "@,
        ),
{
    let cs = clusters.deep_view();
    let ts = topics.deep_view();
    assert(cs.len() == clusters@.len() && ts.len() == topics@.len());
    assert(ts[i] == topics@[i].deep_view());
    assert forall|j: int| 0 <= j < cs.len() implies fixture::cluster_rejection(
        #[trigger] cs[j],
    ) is None by {
        assert(call_ensures(ClusterSpec::validate, (&clusters@[j].cluster.spec,), Ok(())));
        assert(cs[j] == clusters@[j].deep_view());
    }
    assert(none.deep_view().len() == none@.len());
    assert forall|j: int| 0 <= j < i implies fixture::topic_rejection(#[trigger] ts[j]) is None by {
        assert(call_ensures(
            TopicController::unsupported_fields,
            (&topics@[j].topic.spec,),
            none,
        ));
        assert(ts[j] == topics@[j].deep_view());
    }
    let all = unsupported.deep_view();
    assert(all.len() == unsupported@.len());
    assert(all[k] == unsupported@[k]@);
    lemma_no_cluster(cs);
    lemma_first_topic(ts, i);
    let front = "streamlineTopics."@ + topics@[i].plan@
        + " is rejected by TopicController::unsupported_fields(): "@;
    let said = text::joined(all, "; "@);
    assert(counts->Err_0@ == front + said);
    text::law_every_part_is_joined(all, "; "@, k);
    text::lemma_occurs_in_end(front, said, all[k]);
    text::lemma_end_occurs(Seq::empty(), front);
    assert(Seq::<char>::empty() + front =~= front);
    text::lemma_occurs_in_longer(front, front, said);
}

proof fn lemma_no_cluster(clusters: Seq<fixture::PlannedClusterView>)
    requires
        forall|j: int|
            0 <= j < clusters.len() ==> fixture::cluster_rejection(#[trigger] clusters[j]) is None,
    ensures
        fixture::first_cluster_rejection(clusters) is None,
    decreases clusters.len(),
{
    if clusters.len() > 0 {
        let rest = clusters.drop_first();
        assert forall|j: int| 0 <= j < rest.len() implies fixture::cluster_rejection(
            #[trigger] rest[j],
        ) is None by {
            assert(rest[j] == clusters[j + 1]);
        }
        lemma_no_cluster(rest);
    }
}

proof fn lemma_first_topic(topics: Seq<fixture::PlannedTopicView>, i: int)
    requires
        0 <= i < topics.len(),
        fixture::topic_rejection(topics[i]) is Some,
        forall|j: int| 0 <= j < i ==> fixture::topic_rejection(#[trigger] topics[j]) is None,
    ensures
        fixture::first_topic_rejection(topics) == fixture::topic_rejection(topics[i]),
    decreases topics.len(),
{
    if i > 0 {
        let rest = topics.drop_first();
        assert(fixture::topic_rejection(topics[0]) is None);
        assert forall|j: int| 0 <= j < i - 1 implies fixture::topic_rejection(
            #[trigger] rest[j],
        ) is None by {
            assert(rest[j] == topics[j + 1]);
        }
        lemma_first_topic(rest, i - 1);
    }
}

} // verus!
