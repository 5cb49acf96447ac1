//! Validation of generated custom resources with operator code.
//!
//! Semantic acceptance uses the same validation functions as reconciliation instead of a
//! separately maintained reimplementation.

use crate::controllers::topic;
use crate::controllers::TopicController;
use crate::crd::cluster;
use crate::crd::{StreamlineCluster, StreamlineClusterView, StreamlineTopic, StreamlineTopicView};
use crate::text;
use vstd::prelude::*;
use vstd::string::*;

verus! {

/// A cluster of a fixture and the plan that it is generated for.
#[derive(Debug, PartialEq, Eq)]
pub struct PlannedCluster {
    pub plan: String,
    pub cluster: StreamlineCluster,
}

/// What a [`PlannedCluster`] holds, over characters and sequences.
#[verifier::ext_equal]
pub struct PlannedClusterView {
    pub plan: Seq<char>,
    pub cluster: StreamlineClusterView,
}

impl DeepView for PlannedCluster {
    type V = PlannedClusterView;

    open spec fn deep_view(&self) -> PlannedClusterView {
        PlannedClusterView {
            plan: self.plan@,
            cluster: self.cluster.deep_view(),
        }
    }
}

/// A topic of a fixture and the plan that it is generated for.
#[derive(Debug, PartialEq, Eq)]
pub struct PlannedTopic {
    pub plan: String,
    pub topic: StreamlineTopic,
}

/// What a [`PlannedTopic`] holds, over characters and sequences.
#[verifier::ext_equal]
pub struct PlannedTopicView {
    pub plan: Seq<char>,
    pub topic: StreamlineTopicView,
}

impl DeepView for PlannedTopic {
    type V = PlannedTopicView;

    open spec fn deep_view(&self) -> PlannedTopicView {
        PlannedTopicView {
            plan: self.plan@,
            topic: self.topic.deep_view(),
        }
    }
}

/// Whether the clusters are a map by plan: their plans rise strictly.
pub open spec fn clusters_in_plan_order(clusters: Seq<PlannedClusterView>) -> bool {
    forall|i: int, j: int|
        0 <= i < j < clusters.len() ==> text::precedes(
            (#[trigger] clusters[i]).plan,
            (#[trigger] clusters[j]).plan,
        )
}

/// Whether the topics are a map by plan: their plans rise strictly.
pub open spec fn topics_in_plan_order(topics: Seq<PlannedTopicView>) -> bool {
    forall|i: int, j: int|
        0 <= i < j < topics.len() ==> text::precedes(
            (#[trigger] topics[i]).plan,
            (#[trigger] topics[j]).plan,
        )
}

/// Why a cluster is rejected, if it is.
pub open spec fn cluster_rejection(entry: PlannedClusterView) -> Option<Seq<char>> {
    let violations = cluster::violations(entry.cluster.spec);
    if violations.len() > 0 {
        Some(
            "streamlineClusters."@ + entry.plan + " is rejected by ClusterSpec::validate(): "@
                + text::joined(violations, "; "@),
        )
    } else {
        None
    }
}

/// Why a topic is rejected, if it is.
pub open spec fn topic_rejection(entry: PlannedTopicView) -> Option<Seq<char>> {
    let rejections = topic::rejections(entry.topic.spec);
    if rejections.len() > 0 {
        Some(
            "streamlineTopics."@ + entry.plan
                + " is rejected by TopicController::unsupported_fields(): "@ + text::joined(
                rejections,
                "; "@,
            ),
        )
    } else {
        None
    }
}

/// Why the first rejected cluster is rejected, if any is.
pub open spec fn first_cluster_rejection(clusters: Seq<PlannedClusterView>) -> Option<Seq<char>>
    decreases clusters.len(),
{
    if clusters.len() == 0 {
        None
    } else {
        match cluster_rejection(clusters[0]) {
            Some(message) => Some(message),
            None => first_cluster_rejection(clusters.drop_first()),
        }
    }
}

/// Why the first rejected topic is rejected, if any is.
pub open spec fn first_topic_rejection(topics: Seq<PlannedTopicView>) -> Option<Seq<char>>
    decreases topics.len(),
{
    if topics.len() == 0 {
        None
    } else {
        match topic_rejection(topics[0]) {
            Some(message) => Some(message),
            None => first_topic_rejection(topics.drop_first()),
        }
    }
}

/// Why a fixture is rejected, if it is.
pub open spec fn fixture_rejection(
    clusters: Seq<PlannedClusterView>,
    topics: Seq<PlannedTopicView>,
) -> Option<Seq<char>> {
    if clusters.len() == 0 {
        Some("cloud fixture contains no StreamlineCluster resources"@)
    } else if topics.len() == 0 {
        Some("cloud fixture contains no StreamlineTopic resources"@)
    } else {
        match first_cluster_rejection(clusters) {
            Some(message) => Some(message),
            None => first_topic_rejection(topics),
        }
    }
}

fn check_clusters(clusters: &Vec<PlannedCluster>) -> (rejection: Option<String>)
    ensures
        rejection.deep_view() == first_cluster_rejection(clusters.deep_view()),
{
    let ghost all = clusters.deep_view();
    let mut i: usize = 0;
    assert(all.skip(0) =~= all);
    while i < clusters.len()
        invariant
            i <= clusters.len(),
            all == clusters.deep_view(),
            first_cluster_rejection(all) == first_cluster_rejection(all.skip(i as int)),
        decreases clusters.len() - i,
    {
        let entry = &clusters[i];
        assert(all.skip(i as int)[0] == entry.deep_view());
        assert(all.skip(i as int).drop_first() =~= all.skip(i + 1));
        match entry.cluster.spec.validate() {
            Ok(()) => {},
            Err(errors) => {
                return Some(
                    "streamlineClusters.".to_owned().concat(entry.plan.as_str()).concat(
                        " is rejected by ClusterSpec::validate(): ",
                    ).concat(text::join_texts(&errors, "; ").as_str()),
                );
            },
        }
        i = i + 1;
    }
    None
}

fn check_topics(topics: &Vec<PlannedTopic>) -> (rejection: Option<String>)
    ensures
        rejection.deep_view() == first_topic_rejection(topics.deep_view()),
{
    let ghost all = topics.deep_view();
    let mut i: usize = 0;
    assert(all.skip(0) =~= all);
    while i < topics.len()
        invariant
            i <= topics.len(),
            all == topics.deep_view(),
            first_topic_rejection(all) == first_topic_rejection(all.skip(i as int)),
        decreases topics.len() - i,
    {
        let entry = &topics[i];
        assert(all.skip(i as int)[0] == entry.deep_view());
        assert(all.skip(i as int).drop_first() =~= all.skip(i + 1));
        let unsupported = TopicController::unsupported_fields(&entry.topic.spec);
        assert(unsupported.len() == unsupported.deep_view().len());
        if !unsupported.is_empty() {
            return Some(
                "streamlineTopics.".to_owned().concat(entry.plan.as_str()).concat(
                    " is rejected by TopicController::unsupported_fields(): ",
                ).concat(text::join_texts(&unsupported, "; ").as_str()),
            );
        }
        i = i + 1;
    }
    None
}

/// Validate the resources of a fixture, clusters first and each kind in its order. Returns how
/// many there are of each, or why the first rejected one is rejected.
pub fn validate_fixture_contents(
    clusters: &Vec<PlannedCluster>,
    topics: &Vec<PlannedTopic>,
) -> (counts: core::result::Result<(usize, usize), String>)
    ensures
        match fixture_rejection(clusters.deep_view(), topics.deep_view()) {
            Some(message) => counts is Err && counts->Err_0@ == message,
            None => counts == Ok::<(usize, usize), String>((clusters.len(), topics.len())),
        },
{
    assert(clusters.len() == clusters.deep_view().len());
    assert(topics.len() == topics.deep_view().len());
    if clusters.is_empty() {
        return Err("cloud fixture contains no StreamlineCluster resources".to_owned());
    }
    if topics.is_empty() {
        return Err("cloud fixture contains no StreamlineTopic resources".to_owned());
    }
    match check_clusters(clusters) {
        Some(message) => {
            return Err(message);
        },
        None => {},
    }
    match check_topics(topics) {
        Some(message) => {
            return Err(message);
        },
        None => {},
    }
    Ok((clusters.len(), topics.len()))
}

/// A fixture is accepted exactly when it holds resources of both kinds and the operator accepts
/// each of them.
pub proof fn law_a_fixture_is_accepted_iff_its_resources_are(
    clusters: Seq<PlannedClusterView>,
    topics: Seq<PlannedTopicView>,
)
    ensures
        fixture_rejection(clusters, topics) is None <==> {
            &&& clusters.len() > 0
            &&& topics.len() > 0
            &&& forall|i: int|
                0 <= i < clusters.len() ==> cluster_rejection(#[trigger] clusters[i]) is None
            &&& forall|i: int|
                0 <= i < topics.len() ==> topic_rejection(#[trigger] topics[i]) is None
        },
{
    lemma_first_cluster_rejection(clusters);
    lemma_first_topic_rejection(topics);
}

proof fn lemma_first_cluster_rejection(clusters: Seq<PlannedClusterView>)
    ensures
        first_cluster_rejection(clusters) is None <==> forall|i: int|
            0 <= i < clusters.len() ==> cluster_rejection(#[trigger] clusters[i]) is None,
    decreases clusters.len(),
{
    if clusters.len() > 0 {
        let rest = clusters.drop_first();
        lemma_first_cluster_rejection(rest);
        if first_cluster_rejection(clusters) is None {
            assert forall|i: int| 0 <= i < clusters.len() implies cluster_rejection(
                #[trigger] clusters[i],
            ) is None by {
                if i > 0 {
                    assert(cluster_rejection(rest[i - 1]) is None);
                }
            }
        } else if cluster_rejection(clusters[0]) is None {
            let i = choose|i: int|
                0 <= i < rest.len() && !(cluster_rejection(#[trigger] rest[i]) is None);
            assert(clusters[i + 1] == rest[i]);
        }
    }
}

proof fn lemma_first_topic_rejection(topics: Seq<PlannedTopicView>)
    ensures
        first_topic_rejection(topics) is None <==> forall|i: int|
            0 <= i < topics.len() ==> topic_rejection(#[trigger] topics[i]) is None,
    decreases topics.len(),
{
    if topics.len() > 0 {
        let rest = topics.drop_first();
        lemma_first_topic_rejection(rest);
        if first_topic_rejection(topics) is None {
            assert forall|i: int| 0 <= i < topics.len() implies topic_rejection(
                #[trigger] topics[i],
            ) is None by {
                if i > 0 {
                    assert(topic_rejection(rest[i - 1]) is None);
                }
            }
        } else if topic_rejection(topics[0]) is None {
            let i = choose|i: int|
                0 <= i < rest.len() && !(topic_rejection(#[trigger] rest[i]) is None);
            assert(topics[i + 1] == rest[i]);
        }
    }
}

/// Of the rejected clusters of a fixture the one whose plan comes first is reported.
pub proof fn law_the_first_rejected_cluster_plan_is_reported(clusters: Seq<PlannedClusterView>)
    requires
        clusters_in_plan_order(clusters),
        first_cluster_rejection(clusters) is Some,
    ensures
        exists|i: int|
            0 <= i < clusters.len() && cluster_rejection(#[trigger] clusters[i])
                == first_cluster_rejection(clusters) && forall|j: int|
                0 <= j < clusters.len() && j != i && cluster_rejection(#[trigger] clusters[j]) is Some
                    ==> text::precedes(clusters[i].plan, clusters[j].plan),
    decreases clusters.len(),
{
    if cluster_rejection(clusters[0]) is None {
        let rest = clusters.drop_first();
        assert forall|i: int, j: int| 0 <= i < j < rest.len() implies text::precedes(
            (#[trigger] rest[i]).plan,
            (#[trigger] rest[j]).plan,
        ) by {
            assert(rest[i] == clusters[i + 1] && rest[j] == clusters[j + 1]);
        }
        law_the_first_rejected_cluster_plan_is_reported(rest);
        let at = choose|i: int|
            0 <= i < rest.len() && cluster_rejection(#[trigger] rest[i])
                == first_cluster_rejection(rest) && forall|j: int|
                0 <= j < rest.len() && j != i && cluster_rejection(#[trigger] rest[j]) is Some
                    ==> text::precedes(rest[i].plan, rest[j].plan);
        assert(clusters[at + 1] == rest[at]);
        assert forall|j: int|
            0 <= j < clusters.len() && j != at + 1 && cluster_rejection(
                #[trigger] clusters[j],
            ) is Some implies text::precedes(clusters[at + 1].plan, clusters[j].plan) by {
            assert(rest[j - 1] == clusters[j]);
        }
    } else {
        assert(cluster_rejection(clusters[0]) == first_cluster_rejection(clusters));
    }
}

/// Of the rejected topics of a fixture the one whose plan comes first is reported.
pub proof fn law_the_first_rejected_topic_plan_is_reported(topics: Seq<PlannedTopicView>)
    requires
        topics_in_plan_order(topics),
        first_topic_rejection(topics) is Some,
    ensures
        exists|i: int|
            0 <= i < topics.len() && topic_rejection(#[trigger] topics[i])
                == first_topic_rejection(topics) && forall|j: int|
                0 <= j < topics.len() && j != i && topic_rejection(#[trigger] topics[j]) is Some
                    ==> text::precedes(topics[i].plan, topics[j].plan),
    decreases topics.len(),
{
    if topic_rejection(topics[0]) is None {
        let rest = topics.drop_first();
        assert forall|i: int, j: int| 0 <= i < j < rest.len() implies text::precedes(
            (#[trigger] rest[i]).plan,
            (#[trigger] rest[j]).plan,
        ) by {
            assert(rest[i] == topics[i + 1] && rest[j] == topics[j + 1]);
        }
        law_the_first_rejected_topic_plan_is_reported(rest);
        let at = choose|i: int|
            0 <= i < rest.len() && topic_rejection(#[trigger] rest[i])
                == first_topic_rejection(rest) && forall|j: int|
                0 <= j < rest.len() && j != i && topic_rejection(#[trigger] rest[j]) is Some
                    ==> text::precedes(rest[i].plan, rest[j].plan);
        assert(topics[at + 1] == rest[at]);
        assert forall|j: int|
            0 <= j < topics.len() && j != at + 1 && topic_rejection(
                #[trigger] topics[j],
            ) is Some implies text::precedes(topics[at + 1].plan, topics[j].plan) by {
            assert(rest[j - 1] == topics[j]);
        }
    } else {
        assert(topic_rejection(topics[0]) == first_topic_rejection(topics));
    }
}

} // verus!
