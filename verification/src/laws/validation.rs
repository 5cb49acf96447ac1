//! Laws of validation: what a cluster specification may ask for, and what is said where it asks
//! for more.

use crate::crd::cluster;
use crate::crd::cluster::{AutoScalingSpec, ClusterTls, EnvVar, EnvVarRef, EnvVarSource};
use crate::crd::ClusterSpec;
use crate::laws::topics;
use crate::text;
use crate::upgrade;
use vstd::prelude::*;

verus! {

/// A text is blank exactly when it holds white space alone, which an empty text does.
pub proof fn law_a_blank_text_holds_white_space_alone(s: &str, blank: bool)
    requires
        call_ensures(text::text_is_blank, (s,), blank),
    ensures
        blank <==> forall|i: int| 0 <= i < s@.len() ==> text::is_white_space(#[trigger] s@[i]),
        s@.len() == 0 ==> blank,
{
}

/// Of the ASCII characters, the space and the five control characters from tab to carriage return
/// are white space.
pub proof fn law_white_space_is_space_and_layout(c: char, white: bool)
    requires
        call_ensures(text::char_is_white_space, (c,), white),
    ensures
        (c as int) < 128 ==> (white <==> c == ' ' || 9 <= c as int <= 13),
        c as int > 0x3000 ==> !white,
{
}

/// Whether every character is white space.
pub open spec fn blank(s: Seq<char>) -> bool {
    forall|i: int| 0 <= i < s.len() ==> text::is_white_space(#[trigger] s[i])
}

/// Whether a source refers to exactly one key of one named object.
pub open spec fn refers_once(source: EnvVarSource) -> bool {
    ||| {
        &&& source.secret_key_ref is Some
        &&& source.config_map_key_ref is None
        &&& !blank(source.secret_key_ref->0.name@)
        &&& !blank(source.secret_key_ref->0.key@)
    }
    ||| {
        &&& source.config_map_key_ref is Some
        &&& source.secret_key_ref is None
        &&& !blank(source.config_map_key_ref->0.name@)
        &&& !blank(source.config_map_key_ref->0.key@)
    }
}

/// Whether an environment entry has a name and exactly one value.
pub open spec fn has_one_value(entry: EnvVar) -> bool {
    &&& !blank(entry.name@)
    &&& entry.value is Some || entry.value_from is Some
    &&& entry.value is None || entry.value_from is None
    &&& entry.value_from is Some ==> refers_once(entry.value_from->0)
}

/// An environment entry is rendered exactly when it has a name and one value, and then to that
/// value: nothing but the literal, or the one reference. Where it is not, the reason says what is
/// missing or in excess.
pub proof fn law_an_entry_is_rendered_with_its_one_value(
    entry: &EnvVar,
    resolved: core::result::Result<Option<EnvVarRef<'_>>, String>,
)
    requires
        call_ensures(EnvVar::resolve_source, (entry,), resolved),
    ensures
        resolved is Ok <==> has_one_value(*entry),
        resolved is Ok ==> (resolved->Ok_0 is None <==> entry.value is Some),
        resolved matches Ok(Some(EnvVarRef::Secret(secret))) ==> {
            &&& entry.value_from is Some && entry.value_from->0.secret_key_ref is Some
            &&& secret.name@ == entry.value_from->0.secret_key_ref->0.name@
            &&& secret.key@ == entry.value_from->0.secret_key_ref->0.key@
        },
        resolved matches Ok(Some(EnvVarRef::ConfigMap(config_map))) ==> {
            &&& entry.value_from is Some && entry.value_from->0.config_map_key_ref is Some
            &&& config_map.name@ == entry.value_from->0.config_map_key_ref->0.name@
            &&& config_map.key@ == entry.value_from->0.config_map_key_ref->0.key@
        },
        resolved matches Err(reason) ==> {
            let named = !blank(entry.name@);
            &&& !named ==> reason@ == "name must not be empty"@
            &&& named && entry.value is None && entry.value_from is None ==> reason@
                == "must set value or valueFrom (use value: \"\" for a deliberately empty variable)"@
            &&& named && entry.value is Some ==> reason@
                == "value and valueFrom are mutually exclusive"@
            &&& named && entry.value is None && entry.value_from is Some ==> {
                let secret = entry.value_from->0.secret_key_ref;
                let config_map = entry.value_from->0.config_map_key_ref;
                &&& secret is Some && config_map is Some ==> reason@
                    == "valueFrom must set exactly one of secretKeyRef or configMapKeyRef"@
                &&& secret is None && config_map is None ==> reason@
                    == "valueFrom must set secretKeyRef or configMapKeyRef; an empty valueFrom would render the variable as an empty string"@
                &&& secret is Some && config_map is None ==> reason@ == "valueFrom."@
                    + "secretKeyRef"@ + (if blank(secret->0.name@) {
                    ".name must not be empty"@
                } else {
                    ".key must not be empty"@
                })
                &&& secret is None && config_map is Some ==> reason@ == "valueFrom."@
                    + "configMapKeyRef"@ + (if blank(config_map->0.name@) {
                    ".name must not be empty"@
                } else {
                    ".key must not be empty"@
                })
            }
        },
{
    assert(entry.deep_view().value == entry.value.deep_view());
    assert(entry.deep_view().value_from == entry.value_from.deep_view());
    if entry.value_from is Some {
        let source = entry.value_from->0;
        let view = source.deep_view();
        assert(entry.value_from.deep_view() == Some(view));
        assert(view.secret_key_ref == source.secret_key_ref.deep_view());
        assert(view.config_map_key_ref == source.config_map_key_ref.deep_view());
        if source.secret_key_ref is Some {
            assert(view.secret_key_ref == Some(source.secret_key_ref->0.deep_view()));
        }
        if source.config_map_key_ref is Some {
            assert(view.config_map_key_ref == Some(source.config_map_key_ref->0.deep_view()));
        }
    }
    if resolved is Ok {
        assert(resolved->Ok_0.deep_view() == cluster::env_resolution(entry.deep_view())->Ok_0);
        if resolved->Ok_0 is Some {
            assert(resolved->Ok_0.deep_view() == Some(resolved->Ok_0->0.deep_view()));
        }
    }
}

/// Whether a number can be listened on.
pub open spec fn can_listen(port: i32) -> bool {
    0 < port < 65536
}

/// Whether TLS settings are whole: the certificate is named where TLS is on, and the client CA is
/// named where client certificates are asked for, which needs TLS.
pub open spec fn whole(tls: ClusterTls) -> bool {
    &&& tls.enabled ==> !blank(tls.secret_name@)
    &&& tls.mtls_enabled ==> tls.enabled
    &&& tls.mtls_enabled ==> tls.ca_secret_name is Some && !blank(tls.ca_secret_name->0@)
    &&& !tls.insecure_skip_verify
}

/// A specification passes validation exactly when it asks for one broker with three different
/// ports, with entries of one value each, with whole TLS settings, and for none of what is not
/// rendered: affinity, racks, tolerations and autoscaling.
pub proof fn law_validation_passes_what_can_be_rendered(
    spec: ClusterSpec,
    checked: core::result::Result<(), Vec<String>>,
)
    requires
        call_ensures(ClusterSpec::validate, (&spec,), checked),
    ensures
        checked is Ok <==> {
            &&& spec.replicas == 1
            &&& can_listen(spec.kafka_port) && can_listen(spec.http_port) && can_listen(
                spec.raft_port,
            )
            &&& spec.kafka_port != spec.http_port
            &&& spec.http_port != spec.raft_port
            &&& spec.raft_port != spec.kafka_port
            &&& forall|i: int| 0 <= i < spec.env@.len() ==> has_one_value(#[trigger] spec.env@[i])
            &&& !spec.pod_anti_affinity
            &&& spec.rack_awareness is Some ==> !spec.rack_awareness->0.enabled
            &&& spec.tolerations@.len() == 0
            &&& spec.autoscaling is Some ==> !spec.autoscaling->0.enabled
            &&& spec.tls is Some ==> whole(spec.tls->0)
        },
        checked matches Err(errors) ==> errors@.len() > 0,
{
    let view = spec.deep_view();
    cluster::law_validation_accepts_exactly_what_is_rendered(view);
    assert(view.env.len() == spec.env@.len());
    assert(view.tolerations.len() == spec.tolerations@.len());
    assert forall|i: int| 0 <= i < spec.env@.len() implies (cluster::env_resolution(
        #[trigger] view.env[i],
    ) is Ok <==> has_one_value(spec.env@[i])) by {
        lemma_resolves(spec.env@[i]);
        assert(view.env[i] == spec.env@[i].deep_view());
    }
    if forall|i: int| 0 <= i < spec.env@.len() ==> has_one_value(#[trigger] spec.env@[i]) {
        assert forall|i: int| 0 <= i < view.env.len() implies cluster::env_resolution(
            #[trigger] view.env[i],
        ) is Ok by {
            assert(has_one_value(spec.env@[i]));
        }
    }
    if cluster::acceptable(view) {
        assert forall|i: int| 0 <= i < spec.env@.len() implies has_one_value(
            #[trigger] spec.env@[i],
        ) by {
            assert(cluster::env_resolution(view.env[i]) is Ok);
        }
    }
    if spec.tls is Some {
        let tls = spec.tls->0;
        assert(view.tls == Some(tls.deep_view()));
        assert(tls.deep_view().ca_secret_name == tls.ca_secret_name.deep_view());
    }
    match checked {
        Ok(()) => {},
        Err(errors) => {
            assert(errors.deep_view().len() == errors@.len());
        },
    }
}

proof fn lemma_resolves(entry: EnvVar)
    ensures
        cluster::env_resolution(entry.deep_view()) is Ok <==> has_one_value(entry),
{
    assert(entry.deep_view().value == entry.value.deep_view());
    assert(entry.deep_view().value_from == entry.value_from.deep_view());
    if entry.value_from is Some {
        let source = entry.value_from->0;
        let view = source.deep_view();
        assert(entry.value_from.deep_view() == Some(view));
        assert(view.secret_key_ref == source.secret_key_ref.deep_view());
        assert(view.config_map_key_ref == source.config_map_key_ref.deep_view());
        if source.secret_key_ref is Some {
            assert(view.secret_key_ref == Some(source.secret_key_ref->0.deep_view()));
        }
        if source.config_map_key_ref is Some {
            assert(view.config_map_key_ref == Some(source.config_map_key_ref->0.deep_view()));
        }
    }
}

proof fn lemma_parts_are_said(spec: ClusterSpec, errors: Vec<String>, m: Seq<char>)
    requires
        call_ensures(ClusterSpec::validate, (&spec,), Err(errors)),
    ensures
        ({
            let view = spec.deep_view();
            cluster::replica_violations(spec.replicas).contains(m) || cluster::port_violations(
                spec.kafka_port,
                spec.http_port,
                spec.raft_port,
            ).contains(m) || cluster::scheduling_violations(view).contains(m)
                || cluster::autoscaling_violations(view.autoscaling).contains(m)
                || cluster::tls_violations(view.tls).contains(m)
        }) ==> errors.deep_view().contains(m),
{
    let view = spec.deep_view();
    let a = cluster::replica_violations(spec.replicas);
    let b = cluster::port_violations(spec.kafka_port, spec.http_port, spec.raft_port);
    let c = cluster::env_violations(view.env);
    let d = cluster::scheduling_violations(view);
    let e = cluster::autoscaling_violations(view.autoscaling);
    let f = cluster::tls_violations(view.tls);
    lemma_sum_holds(a, b, m);
    lemma_sum_holds(a + b, c, m);
    lemma_sum_holds(a + b + c, d, m);
    lemma_sum_holds(a + b + c + d, e, m);
    lemma_sum_holds(a + b + c + d + e, f, m);
}

proof fn lemma_sum_holds(front: Seq<Seq<char>>, back: Seq<Seq<char>>, m: Seq<char>)
    ensures
        (front + back).contains(m) <==> front.contains(m) || back.contains(m),
{
    let all = front + back;
    if front.contains(m) {
        let i = choose|i: int| 0 <= i < front.len() && front[i] == m;
        assert(all[i] == m);
    }
    if back.contains(m) {
        let i = choose|i: int| 0 <= i < back.len() && back[i] == m;
        assert(all[front.len() + i] == m);
    }
    if all.contains(m) {
        let i = choose|i: int| 0 <= i < all.len() && all[i] == m;
        if i < front.len() {
            assert(front[i] == m);
        } else {
            assert(back[i - front.len()] == m);
        }
    }
}

proof fn lemma_when_holds(wrong: bool, m: Seq<char>)
    ensures
        wrong ==> cluster::when(wrong, m).contains(m),
{
    if wrong {
        assert(cluster::when(wrong, m)[0] == m);
    }
}

/// A replica count that is not one is said, with the count.
pub proof fn law_a_bad_replica_count_is_said(spec: ClusterSpec, errors: Vec<String>)
    requires
        call_ensures(ClusterSpec::validate, (&spec,), Err(errors)),
    ensures
        ({
            let said = errors.deep_view();
            let n = text::decimal(spec.replicas as int);
            &&& spec.replicas < 1 ==> said.contains("replicas must be >= 1, got "@ + n)
            &&& spec.replicas > 1 ==> topics::names(said, "replicas="@ + n)
        }),
{
    let said = errors.deep_view();
    let n = text::decimal(spec.replicas as int);
    let replicas = cluster::replica_violations(spec.replicas);
    if spec.replicas != 1 {
        let all = replicas[0];
        assert(replicas.contains(all));
        lemma_parts_are_said(spec, errors, all);
        if spec.replicas > 1 {
            let front = "replicas="@ + n;
            assert(all.subrange(0, front.len() as int) =~= front);
            topics::lemma_named(said, all, front);
        }
    }
}

/// Each port that cannot be listened on is said, with its number, and so is a port that is used
/// twice.
pub proof fn law_a_bad_port_is_said(spec: ClusterSpec, errors: Vec<String>)
    requires
        call_ensures(ClusterSpec::validate, (&spec,), Err(errors)),
    ensures
        ({
            let said = errors.deep_view();
            &&& !can_listen(spec.kafka_port) ==> said.contains(
                "kafkaPort must be 1-65535, got "@ + text::decimal(spec.kafka_port as int),
            )
            &&& !can_listen(spec.http_port) ==> said.contains(
                "httpPort must be 1-65535, got "@ + text::decimal(spec.http_port as int),
            )
            &&& !can_listen(spec.raft_port) ==> said.contains(
                "raftPort must be 1-65535, got "@ + text::decimal(spec.raft_port as int),
            )
            &&& spec.kafka_port == spec.http_port || spec.http_port == spec.raft_port
                || spec.raft_port == spec.kafka_port ==> said.contains(
                "kafkaPort, httpPort, and raftPort must all be different"@,
            )
        }),
{
    let k = "kafkaPort must be 1-65535, got "@ + text::decimal(spec.kafka_port as int);
    let h = "httpPort must be 1-65535, got "@ + text::decimal(spec.http_port as int);
    let r = "raftPort must be 1-65535, got "@ + text::decimal(spec.raft_port as int);
    let d = "kafkaPort, httpPort, and raftPort must all be different"@;
    let twice = spec.kafka_port == spec.http_port || spec.kafka_port == spec.raft_port
        || spec.http_port == spec.raft_port;
    let ks = cluster::when(!cluster::is_port(spec.kafka_port), k);
    let hs = cluster::when(!cluster::is_port(spec.http_port), h);
    let rs = cluster::when(!cluster::is_port(spec.raft_port), r);
    let ds = cluster::when(twice, d);
    lemma_when_holds(!cluster::is_port(spec.kafka_port), k);
    lemma_when_holds(!cluster::is_port(spec.http_port), h);
    lemma_when_holds(!cluster::is_port(spec.raft_port), r);
    lemma_when_holds(twice, d);
    lemma_sum_holds(ks, hs, k);
    lemma_sum_holds(ks, hs, h);
    lemma_sum_holds(ks + hs, rs, k);
    lemma_sum_holds(ks + hs, rs, h);
    lemma_sum_holds(ks + hs, rs, r);
    lemma_sum_holds(ks + hs + rs, ds, k);
    lemma_sum_holds(ks + hs + rs, ds, h);
    lemma_sum_holds(ks + hs + rs, ds, r);
    lemma_sum_holds(ks + hs + rs, ds, d);
    lemma_parts_are_said(spec, errors, k);
    lemma_parts_are_said(spec, errors, h);
    lemma_parts_are_said(spec, errors, r);
    lemma_parts_are_said(spec, errors, d);
}

/// Each scheduling setting that is not rendered is said, and so is autoscaling.
pub proof fn law_what_is_not_rendered_is_said(spec: ClusterSpec, errors: Vec<String>)
    requires
        call_ensures(ClusterSpec::validate, (&spec,), Err(errors)),
    ensures
        ({
            let said = errors.deep_view();
            &&& spec.pod_anti_affinity ==> topics::names(said, "podAntiAffinity is not supported"@)
            &&& spec.rack_awareness is Some && spec.rack_awareness->0.enabled ==> topics::names(
                said,
                "rackAwareness.enabled is not supported"@,
            )
            &&& spec.tolerations@.len() > 0 ==> topics::names(
                said,
                "tolerations are not supported"@,
            )
            &&& spec.autoscaling is Some && spec.autoscaling->0.enabled ==> topics::names(
                said,
                "autoscaling.enabled is not supported"@,
            )
        }),
{
    let view = spec.deep_view();
    let said = errors.deep_view();
    assert(view.tolerations.len() == spec.tolerations@.len());
    let scheduling = cluster::scheduling_violations(view);
    let scaling = cluster::autoscaling_violations(view.autoscaling);
    if spec.pod_anti_affinity {
        let all = scheduling[0];
        let front = "podAntiAffinity is not supported"@;
        assert(topics::starts_with(all, front)) by {
            reveal_strlit("podAntiAffinity is not supported");
            reveal_strlit(
                "podAntiAffinity is not supported: the operator renders no affinity rules onto the broker pod template (omit it or set it to false; with replicas capped at 1 there is no second pod to spread).",
            );
            assert(all.subrange(0, front.len() as int) =~= front);
        }
        assert(scheduling.contains(all));
        lemma_parts_are_said(spec, errors, all);
        topics::lemma_named(said, all, front);
    }
    if spec.rack_awareness is Some && spec.rack_awareness->0.enabled {
        let all = cluster::RACK_AWARENESS_UNSUPPORTED@;
        let front = "rackAwareness.enabled is not supported"@;
        assert(topics::starts_with(all, front)) by {
            reveal_strlit("rackAwareness.enabled is not supported");
            reveal_strlit(
                "rackAwareness.enabled is not supported: the operator renders no topology spread constraints or rack labelling",
            );
            assert(all.subrange(0, front.len() as int) =~= front);
        }
        let at = if spec.pod_anti_affinity {
            1int
        } else {
            0
        };
        assert(view.rack_awareness == Some(spec.rack_awareness->0.deep_view()));
        assert(scheduling[at] == all);
        lemma_parts_are_said(spec, errors, all);
        topics::lemma_named(said, all, front);
    }
    if spec.tolerations@.len() > 0 {
        let all = scheduling.last();
        let front = "tolerations are not supported"@;
        assert(topics::starts_with(all, front)) by {
            reveal_strlit("tolerations are not supported");
            reveal_strlit(
                "tolerations are not supported: the operator renders none onto the broker pod template, so the ",
            );
            assert(all.subrange(0, front.len() as int) =~= front);
        }
        assert(scheduling.contains(all));
        lemma_parts_are_said(spec, errors, all);
        topics::lemma_named(said, all, front);
    }
    if spec.autoscaling is Some && spec.autoscaling->0.enabled {
        let all = cluster::AUTOSCALING_UNSUPPORTED@;
        let front = "autoscaling.enabled is not supported"@;
        assert(topics::starts_with(all, front)) by {
            reveal_strlit("autoscaling.enabled is not supported");
            reveal_strlit(
                "autoscaling.enabled is not supported: the operator only renders a standalone broker and cannot safely scale it above one replica",
            );
            assert(all.subrange(0, front.len() as int) =~= front);
        }
        assert(view.autoscaling == Some(spec.autoscaling->0.deep_view()));
        assert(scaling[0] == all);
        lemma_parts_are_said(spec, errors, all);
        topics::lemma_named(said, all, front);
    }
}

/// Each TLS setting that is missing, or that cannot be honoured, is said.
pub proof fn law_missing_tls_settings_are_said(spec: ClusterSpec, errors: Vec<String>)
    requires
        call_ensures(ClusterSpec::validate, (&spec,), Err(errors)),
    ensures
        ({
            let said = errors.deep_view();
            let tls = spec.tls->0;
            spec.tls is Some ==> {
                &&& tls.enabled && blank(tls.secret_name@) ==> topics::names(
                    said,
                    "tls.secretName is required"@,
                )
                &&& tls.enabled && tls.mtls_enabled && (tls.ca_secret_name is None || blank(
                    tls.ca_secret_name->0@,
                )) ==> topics::names(said, "tls.caSecretName is required"@)
                &&& !tls.enabled && tls.mtls_enabled ==> said.contains(
                    "tls.mtlsEnabled requires tls.enabled to be true"@,
                )
                &&& tls.insecure_skip_verify ==> topics::names(
                    said,
                    "tls.insecureSkipVerify is not supported"@,
                )
            }
        }),
{
    let said = errors.deep_view();
    assert forall|m: Seq<char>| #[trigger]
        cluster::tls_violations(spec.deep_view().tls).contains(m) implies said.contains(m) by {
        lemma_parts_are_said(spec, errors, m);
    }
    lemma_tls_is_said(spec, said);
}

proof fn lemma_tls_is_said(spec: ClusterSpec, said: Seq<Seq<char>>)
    requires
        forall|m: Seq<char>| #[trigger]
            cluster::tls_violations(spec.deep_view().tls).contains(m) ==> said.contains(m),
    ensures
        spec.tls is Some && spec.tls->0.enabled && blank(spec.tls->0.secret_name@)
            ==> topics::names(said, "tls.secretName is required"@),
        spec.tls is Some && spec.tls->0.enabled && spec.tls->0.mtls_enabled && (
        spec.tls->0.ca_secret_name is None || blank(spec.tls->0.ca_secret_name->0@))
            ==> topics::names(said, "tls.caSecretName is required"@),
        spec.tls is Some && !spec.tls->0.enabled && spec.tls->0.mtls_enabled ==> said.contains(
            "tls.mtlsEnabled requires tls.enabled to be true"@,
        ),
        spec.tls is Some && spec.tls->0.insecure_skip_verify ==> topics::names(
            said,
            "tls.insecureSkipVerify is not supported"@,
        ),
{
    broadcast use vstd::seq_lib::group_seq_properties;

    let view = spec.deep_view();
    let all = cluster::tls_violations(view.tls);
    if spec.tls is Some {
        let tls = spec.tls->0;
        assert(view.tls == Some(tls.deep_view()));
        assert(tls.deep_view().ca_secret_name == tls.ca_secret_name.deep_view());
        if tls.enabled && blank(tls.secret_name@) {
            let m = cluster::TLS_SECRET_REQUIRED@;
            let front = "tls.secretName is required"@;
            reveal_strlit("tls.secretName is required");
            reveal_strlit(
                "tls.secretName is required when tls.enabled is true: the operator mounts that Secret at /etc/streamline-tls",
            );
            assert(m.subrange(0, front.len() as int) =~= front);
            assert(all.contains(m));
            topics::lemma_named(said, m, front);
        }
        if tls.enabled && tls.mtls_enabled && (tls.ca_secret_name is None || blank(
            tls.ca_secret_name->0@,
        )) {
            let m = cluster::TLS_CA_REQUIRED@;
            let front = "tls.caSecretName is required"@;
            reveal_strlit("tls.caSecretName is required");
            reveal_strlit(
                "tls.caSecretName is required when tls.mtlsEnabled is true: client certificates cannot be verified without a CA bundle",
            );
            assert(m.subrange(0, front.len() as int) =~= front);
            assert(!cluster::names_ca(tls.deep_view()));
            assert(all.contains(m));
            topics::lemma_named(said, m, front);
        }
        if !tls.enabled && tls.mtls_enabled {
            assert(all.contains(cluster::MTLS_WITHOUT_TLS@));
        }
        if tls.insecure_skip_verify {
            let m = cluster::TLS_SKIP_VERIFY_UNSUPPORTED@;
            let front = "tls.insecureSkipVerify is not supported"@;
            reveal_strlit("tls.insecureSkipVerify is not supported");
            reveal_strlit(
                "tls.insecureSkipVerify is not supported: it is a client-side setting and the operator will not render a broker configuration that disables certificate verification",
            );
            assert(m.subrange(0, front.len() as int) =~= front);
            assert(all.contains(m));
            topics::lemma_named(said, m, front);
        }
    }
}

/// The settings of autoscaling are held to their ranges where it is asked for.
pub proof fn law_autoscaling_ranges_are_said(spec: ClusterSpec, errors: Vec<String>)
    requires
        call_ensures(ClusterSpec::validate, (&spec,), Err(errors)),
        spec.autoscaling is Some,
        spec.autoscaling->0.enabled,
    ensures
        ({
            let said = errors.deep_view();
            let scaling = spec.autoscaling->0;
            let least = text::decimal(scaling.min_replicas as int);
            let most = text::decimal(scaling.max_replicas as int);
            &&& scaling.min_replicas < 1 ==> said.contains(
                "autoscaling.minReplicas must be >= 1, got "@ + least,
            )
            &&& scaling.max_replicas < scaling.min_replicas ==> said.contains(
                "autoscaling.maxReplicas ("@ + most + ") must be >= minReplicas ("@ + least + ")"@,
            )
            &&& scaling.target_cpu_utilization < 1 || scaling.target_cpu_utilization > 100
                ==> said.contains(
                "autoscaling.targetCpuUtilization must be 1-100, got "@ + text::decimal(
                    scaling.target_cpu_utilization as int,
                ),
            )
        }),
{
    broadcast use vstd::seq_lib::group_seq_properties;

    let view = spec.deep_view();
    let said = errors.deep_view();
    let scaling = cluster::autoscaling_violations(view.autoscaling);
    assert(view.autoscaling == Some(spec.autoscaling->0.deep_view()));
    assert forall|m: Seq<char>| #[trigger] scaling.contains(m) implies said.contains(m) by {
        lemma_parts_are_said(spec, errors, m);
    }
}

/// An entry that cannot be rendered is named by its position, by its name if it has one, and with
/// the reason.
pub proof fn law_a_bad_entry_is_named_with_its_reason(
    spec: ClusterSpec,
    errors: Vec<String>,
    i: int,
    entry: &EnvVar,
    reason: String,
)
    requires
        call_ensures(ClusterSpec::validate, (&spec,), Err(errors)),
        0 <= i < spec.env@.len(),
        *entry == spec.env@[i],
        call_ensures(EnvVar::resolve_source, (entry,), Err(reason)),
    ensures
        errors.deep_view().contains(
            if blank(entry.name@) {
                "env["@ + text::decimal(i) + "]"@ + ": "@ + reason@
            } else {
                "env["@ + text::decimal(i) + "]"@ + (" ("@ + entry.name@ + ")"@) + ": "@ + reason@
            },
        ),
{
    broadcast use vstd::seq_lib::group_seq_properties;

    let view = spec.deep_view();
    let said = errors.deep_view();
    assert(view.env.len() == spec.env@.len());
    assert(view.env[i] == spec.env@[i].deep_view());
    lemma_env_violation(view.env, i);
    let env = cluster::env_violations(view.env);
    let m = cluster::env_label(i, entry.name@) + ": "@ + reason@;
    assert(env.contains(m));
    assert(said.contains(m));
    if blank(entry.name@) {
        let front = "env["@ + text::decimal(i) + "]"@;
        assert(front + Seq::<char>::empty() =~= front);
    }
}

proof fn lemma_env_violation(env: Seq<cluster::EnvVarView>, i: int)
    requires
        0 <= i < env.len(),
        cluster::env_resolution(env[i]) is Err,
    ensures
        cluster::env_violations(env).contains(
            cluster::env_label(i, env[i].name) + ": "@ + cluster::env_resolution(env[i])->Err_0,
        ),
    decreases env.len(),
{
    broadcast use vstd::seq_lib::group_seq_properties;

    if i < env.len() - 1 {
        assert(env.drop_last()[i] == env[i]);
        lemma_env_violation(env.drop_last(), i);
    } else {
        let m = cluster::env_label(i, env[i].name) + ": "@ + cluster::env_resolution(
            env[i],
        )->Err_0;
        assert(seq![m][0] == m);
        assert(seq![m].contains(m));
    }
}

/// How many entries cannot be rendered.
pub open spec fn bad_entries(env: Seq<EnvVar>) -> nat
    decreases env.len(),
{
    if env.len() == 0 {
        0
    } else {
        bad_entries(env.drop_last()) + if has_one_value(env.last()) {
            0nat
        } else {
            1
        }
    }
}

/// One for a claim that holds.
pub open spec fn one(claim: bool) -> int {
    if claim {
        1
    } else {
        0
    }
}

/// How many of the TLS settings are wrong.
pub open spec fn bad_tls_settings(tls: ClusterTls) -> int {
    one(tls.enabled && blank(tls.secret_name@)) + one(
        tls.enabled && tls.mtls_enabled && (tls.ca_secret_name is None || blank(
            tls.ca_secret_name->0@,
        )),
    ) + one(!tls.enabled && tls.mtls_enabled) + one(tls.insecure_skip_verify)
}

/// How many of the autoscaling settings are wrong.
pub open spec fn bad_scaling_settings(scaling: AutoScalingSpec) -> int {
    if scaling.enabled {
        1 + one(scaling.min_replicas < 1) + one(scaling.max_replicas < scaling.min_replicas) + one(
            scaling.target_cpu_utilization < 1 || scaling.target_cpu_utilization > 100,
        )
    } else {
        0
    }
}

/// Nothing is said of what is right: there are as many errors as there are wrong settings.
pub proof fn law_nothing_right_is_refused(spec: ClusterSpec, errors: Vec<String>)
    requires
        call_ensures(ClusterSpec::validate, (&spec,), Err(errors)),
    ensures
        errors@.len() == one(spec.replicas != 1) + one(!can_listen(spec.kafka_port)) + one(
            !can_listen(spec.http_port),
        ) + one(!can_listen(spec.raft_port)) + one(
            spec.kafka_port == spec.http_port || spec.http_port == spec.raft_port || spec.raft_port
                == spec.kafka_port,
        ) + bad_entries(spec.env@) + one(spec.pod_anti_affinity) + one(
            spec.rack_awareness is Some && spec.rack_awareness->0.enabled,
        ) + one(spec.tolerations@.len() > 0) + (if spec.autoscaling is Some {
            bad_scaling_settings(spec.autoscaling->0)
        } else {
            0
        }) + (if spec.tls is Some {
            bad_tls_settings(spec.tls->0)
        } else {
            0
        }),
{
    let view = spec.deep_view();
    assert(errors.deep_view().len() == errors@.len());
    lemma_bad_entries(spec.env@, view.env);
    lemma_bad_shape(spec);
    lemma_bad_scheduling(spec);
    lemma_bad_scaling(spec);
    lemma_bad_tls(spec);
}

proof fn lemma_bad_shape(spec: ClusterSpec)
    ensures
        cluster::replica_violations(spec.replicas).len() == one(spec.replicas != 1),
        cluster::port_violations(spec.kafka_port, spec.http_port, spec.raft_port).len() == one(
            !can_listen(spec.kafka_port),
        ) + one(!can_listen(spec.http_port)) + one(!can_listen(spec.raft_port)) + one(
            spec.kafka_port == spec.http_port || spec.http_port == spec.raft_port || spec.raft_port
                == spec.kafka_port,
        ),
{
}

proof fn lemma_bad_scheduling(spec: ClusterSpec)
    ensures
        cluster::scheduling_violations(spec.deep_view()).len() == one(spec.pod_anti_affinity) + one(
            spec.rack_awareness is Some && spec.rack_awareness->0.enabled,
        ) + one(spec.tolerations@.len() > 0),
{
    let view = spec.deep_view();
    assert(view.tolerations.len() == spec.tolerations@.len());
    assert(view.rack_awareness == spec.rack_awareness.deep_view());
}

proof fn lemma_bad_scaling(spec: ClusterSpec)
    ensures
        cluster::autoscaling_violations(spec.deep_view().autoscaling).len() == (
        if spec.autoscaling is Some {
            bad_scaling_settings(spec.autoscaling->0)
        } else {
            0
        }),
{
    assert(spec.deep_view().autoscaling == spec.autoscaling.deep_view());
}

proof fn lemma_bad_tls(spec: ClusterSpec)
    ensures
        cluster::tls_violations(spec.deep_view().tls).len() == (if spec.tls is Some {
            bad_tls_settings(spec.tls->0)
        } else {
            0
        }),
{
    assert(spec.deep_view().tls == spec.tls.deep_view());
    if spec.tls is Some {
        let tls = spec.tls->0;
        assert(tls.deep_view().ca_secret_name == tls.ca_secret_name.deep_view());
    }
}

proof fn lemma_bad_entries(env: Seq<EnvVar>, view: Seq<cluster::EnvVarView>)
    requires
        env.len() == view.len(),
        forall|i: int| 0 <= i < env.len() ==> #[trigger] view[i] == env[i].deep_view(),
    ensures
        cluster::env_violations(view).len() == bad_entries(env),
    decreases env.len(),
{
    if env.len() > 0 {
        lemma_resolves(env.last());
        assert(view.last() == env.last().deep_view());
        lemma_bad_entries(env.drop_last(), view.drop_last());
    }
}

/// A reference is incomplete exactly when its name or its key is blank, and the name is looked at
/// first.
pub proof fn law_a_reference_needs_a_name_and_a_key(
    field: &str,
    name: &str,
    key: &str,
    checked: core::result::Result<(), String>,
)
    requires
        call_ensures(cluster::incomplete_ref, (field, name, key), checked),
    ensures
        checked is Ok <==> !blank(name@) && !blank(key@),
        checked matches Err(problem) ==> problem@ == "valueFrom."@ + field@ + if blank(name@) {
            ".name must not be empty"@
        } else {
            ".key must not be empty"@
        },
{
}

/// Whether one of the texts starts with one text and holds another.
pub open spec fn told(texts: Seq<Seq<char>>, front: Seq<char>, advice: Seq<char>) -> bool {
    exists|i: int|
        0 <= i < texts.len() && topics::starts_with(#[trigger] texts[i], front) && text::occurs(
            texts[i],
            advice,
        )
}

/// A refused replica count and a refused affinity come with the advice for their field, which
/// blames the upgrade exactly for the values that were persisted by default.
pub proof fn law_refused_cluster_defaults_come_with_advice(
    spec: ClusterSpec,
    errors: Vec<String>,
    replicas: &str,
    affinity: &str,
    on_replicas: String,
    on_affinity: String,
)
    requires
        call_ensures(ClusterSpec::validate, (&spec,), Err(errors)),
        replicas@ == "spec.replicas"@,
        affinity@ == "spec.podAntiAffinity"@,
        call_ensures(upgrade::remediation_for, (replicas, spec.replicas == 3), on_replicas),
        call_ensures(upgrade::remediation_for, (affinity, true), on_affinity),
    ensures
        spec.replicas > 1 ==> told(errors.deep_view(), "replicas="@, on_replicas@),
        spec.pod_anti_affinity ==> told(
            errors.deep_view(),
            "podAntiAffinity is not supported"@,
            on_affinity@,
        ),
{
    let said = errors.deep_view();
    let view = spec.deep_view();
    if spec.replicas > 1 {
        let listed = cluster::replica_violations(spec.replicas);
        let all = listed[0];
        let n = text::decimal(spec.replicas as int);
        let front = "replicas="@ + n + cluster::REPLICAS_UNSUPPORTED@ + n
            + cluster::REPLICAS_INDEPENDENT@;
        assert(all == front + on_replicas@);
        assert(all.subrange(0, "replicas="@.len() as int) =~= "replicas="@);
        text::lemma_end_occurs(front, on_replicas@);
        assert(listed.contains(all));
        lemma_parts_are_said(spec, errors, all);
        let i = choose|i: int| 0 <= i < said.len() && said[i] == all;
        assert(topics::starts_with(said[i], "replicas="@));
    }
    if spec.pod_anti_affinity {
        let listed = cluster::scheduling_violations(view);
        let all = listed[0];
        let front = "podAntiAffinity is not supported"@;
        assert(all == cluster::ANTI_AFFINITY_UNSUPPORTED@ + on_affinity@);
        assert(topics::starts_with(all, front)) by {
            reveal_strlit("podAntiAffinity is not supported");
            reveal_strlit(
                "podAntiAffinity is not supported: the operator renders no affinity rules onto the broker pod template (omit it or set it to false; with replicas capped at 1 there is no second pod to spread).",
            );
            assert(all.subrange(0, front.len() as int) =~= front);
        }
        text::lemma_end_occurs(cluster::ANTI_AFFINITY_UNSUPPORTED@, on_affinity@);
        assert(listed.contains(all));
        lemma_parts_are_said(spec, errors, all);
        let i = choose|i: int| 0 <= i < said.len() && said[i] == all;
        assert(topics::starts_with(said[i], front));
    }
}

} // verus!
