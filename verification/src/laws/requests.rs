//! Laws of the requests to brokers: when a cluster takes them, where they go, what the answers
//! mean and how long a failed reconcile waits.

use crate::controllers;
use crate::controllers::{NextReconcile, WatchScope};
use crate::crd::StreamlineCluster;
use crate::error::OperatorError;
use crate::objects::ResourceMeta;
use crate::text;
use vstd::prelude::*;

verus! {

/// The namespace that an object lives in.
pub open spec fn home(metadata: ResourceMeta) -> Seq<char> {
    if metadata.namespace is Some {
        metadata.namespace->0@
    } else {
        "default"@
    }
}

/// The address of the first broker of a cluster in a namespace: the pod with ordinal zero behind
/// the headless Service, at the port that serves HTTP.
pub open spec fn first_broker(cluster: StreamlineCluster, namespace: Seq<char>) -> Seq<char> {
    "http://"@ + cluster.metadata.name@ + "-0."@ + cluster.metadata.name@ + "-headless."@
        + namespace + ".svc:"@ + text::decimal(cluster.spec.http_port as int)
}

/// Whether a cluster has a ready broker and published an address.
pub open spec fn can_serve(cluster: StreamlineCluster) -> bool {
    &&& cluster.status is Some
    &&& cluster.status->0.ready_replicas >= 1
    &&& cluster.status->0.broker_endpoints@.len() >= 1
}

/// A cluster takes requests exactly when it has published a ready broker and an address.
pub proof fn law_a_cluster_serves_with_a_ready_broker(cluster: StreamlineCluster, ready: bool)
    requires
        call_ensures(controllers::cluster_is_ready, (&cluster,), ready),
    ensures
        ready <==> can_serve(cluster),
{
    if cluster.status is Some {
        let status = cluster.status->0;
        assert(status.broker_endpoints.deep_view().len() == status.broker_endpoints@.len());
    }
}

/// Requests go to the first broker of the cluster.
pub proof fn law_requests_go_to_the_first_broker(
    cluster: StreamlineCluster,
    namespace: &str,
    endpoint: String,
)
    requires
        call_ensures(controllers::broker_http_endpoint, (&cluster, namespace), endpoint),
    ensures
        endpoint@ == first_broker(cluster, namespace@),
{
}

/// An answer is a success exactly from 200 to 299, and a create request is honoured exactly by a
/// success or a conflict.
pub proof fn law_a_conflict_honours_a_create_request(code: u16, success: bool, accepted: bool)
    requires
        call_ensures(controllers::http_success, (code,), success),
        call_ensures(controllers::create_accepted, (code,), accepted),
    ensures
        success <==> 200 <= code <= 299,
        accepted <==> success || code == 409,
{
}

/// A failed reconcile is retried, within ten seconds to a minute: an error that passes by itself
/// soonest, one that waits for another object next, a bad state later, and one that is unlikely
/// to heal last.
pub proof fn law_lasting_errors_wait_longer(error: OperatorError, next: NextReconcile)
    requires
        call_ensures(controllers::error_policy_backoff, (&error,), next),
    ensures
        next matches NextReconcile::After(seconds) && {
            &&& error is KubeApi || error is Http <==> seconds == 10
            &&& error is NotFound <==> seconds == 15
            &&& error is Reconciliation || error is InvalidState <==> seconds == 30
            &&& error is Configuration || error is Serialization || error is Internal <==> seconds
                == 60
        },
{
}

/// The text of an error ends with its message, and starts with its category.
pub proof fn law_an_error_names_its_category(error: OperatorError, said: String)
    requires
        call_ensures(OperatorError::to_string, (&error,), said),
    ensures
        match error {
            OperatorError::KubeApi(m) => said@ == "Kubernetes API error: "@ + m@,
            OperatorError::Configuration(m) => said@ == "Configuration error: "@ + m@,
            OperatorError::Reconciliation(m) => said@ == "Reconciliation error: "@ + m@,
            OperatorError::Http(m) => said@ == "HTTP error: "@ + m@,
            OperatorError::Serialization(m) => said@ == "Serialization error: "@ + m@,
            OperatorError::NotFound(m) => said@ == "Resource not found: "@ + m@,
            OperatorError::InvalidState(m) => said@ == "Invalid state: "@ + m@,
            OperatorError::Internal(m) => said@ == "Internal error: "@ + m@,
        },
{
}

/// An object without a namespace lives in `default`.
pub proof fn law_objects_live_in_their_namespace(metadata: ResourceMeta, namespace: String)
    requires
        call_ensures(ResourceMeta::namespace_or_default, (&metadata,), namespace),
    ensures
        namespace@ == home(metadata),
{
}

/// A scope is that of its flag: what stands between the white space is the one namespace that is
/// watched, and a flag of white space alone watches every namespace.
pub proof fn law_a_scope_is_what_its_flag_names(
    flag: &str,
    scope: WatchScope,
    namespace: Option<&str>,
    description: &str,
)
    requires
        call_ensures(WatchScope::from_flag, (flag,), scope),
        call_ensures(WatchScope::namespace, (&scope,), namespace),
        call_ensures(WatchScope::describe, (&scope,), description),
    ensures
        namespace is None <==> (forall|i: int|
            0 <= i < flag@.len() ==> text::is_white_space(#[trigger] flag@[i])),
        namespace is None ==> description@ == "all namespaces"@,
        namespace is Some ==> {
            let ns = namespace->0@;
            &&& description@ == ns
            &&& ns.len() > 0
            &&& !text::is_white_space(ns.first())
            &&& !text::is_white_space(ns.last())
            &&& text::occurs(flag@, ns)
        },
        flag@.len() > 0 && !text::is_white_space(flag@.first()) && !text::is_white_space(
            flag@.last(),
        ) ==> namespace is Some && namespace->0@ == flag@,
{
    controllers::law_a_blank_flag_watches_everything(flag@);
    text::law_trimming_leaves_the_core(flag@);
}

} // verus!
