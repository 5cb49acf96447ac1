//! Plain counterparts of the Kubernetes metadata that the operator reads.

use crate::text;
use vstd::prelude::*;

verus! {

/// One entry of a string map such as labels or a node selector.
#[derive(Debug, PartialEq, Eq)]
pub struct KeyValue {
    pub key: String,
    pub value: String,
}

/// What a [`KeyValue`] holds, over characters and sequences.
#[verifier::ext_equal]
pub struct KeyValueView {
    pub key: Seq<char>,
    pub value: Seq<char>,
}

impl DeepView for KeyValue {
    type V = KeyValueView;

    open spec fn deep_view(&self) -> KeyValueView {
        KeyValueView {
            key: self.key@,
            value: self.value@,
        }
    }
}

impl Clone for KeyValue {
    fn clone(&self) -> (copy: Self)
        ensures
            copy.deep_view() == self.deep_view(),
    {
        KeyValue {
            key: self.key.clone(),
            value: self.value.clone(),
        }
    }
}

impl KeyValue {
    /// An entry that maps `key` to `value`.
    pub fn new(key: &str, value: &str) -> (entry: Self)
        ensures
            entry.deep_view() == (KeyValueView { key: key@, value: value@ }),
    {
        KeyValue { key: key.to_owned(), value: value.to_owned() }
    }
}

/// Whether a list of entries is a string map: its keys rise strictly.
pub open spec fn in_key_order(entries: Seq<KeyValueView>) -> bool {
    forall|i: int, j: int|
        0 <= i < j < entries.len() ==> text::precedes(
            (#[trigger] entries[i]).key,
            (#[trigger] entries[j]).key,
        )
}

/// No key occurs twice in a list that is in key order.
pub proof fn law_keys_in_order_are_distinct(entries: Seq<KeyValueView>, i: int, j: int)
    requires
        in_key_order(entries),
        0 <= i < j < entries.len(),
    ensures
        entries[i].key != entries[j].key,
{
    assert(text::precedes(entries[i].key, entries[j].key));
}

/// The keys of the recommended labels, in their order.
pub(crate) proof fn lemma_label_keys_rise()
    ensures
        text::precedes("app.kubernetes.io/component"@, "app.kubernetes.io/instance"@),
        text::precedes("app.kubernetes.io/component"@, "app.kubernetes.io/managed-by"@),
        text::precedes("app.kubernetes.io/component"@, "app.kubernetes.io/name"@),
        text::precedes("app.kubernetes.io/instance"@, "app.kubernetes.io/managed-by"@),
        text::precedes("app.kubernetes.io/instance"@, "app.kubernetes.io/name"@),
        text::precedes("app.kubernetes.io/managed-by"@, "app.kubernetes.io/name"@),
{
    reveal_strlit("app.kubernetes.io/component");
    reveal_strlit("app.kubernetes.io/instance");
    reveal_strlit("app.kubernetes.io/managed-by");
    reveal_strlit("app.kubernetes.io/name");
    text::lemma_precedes_at("app.kubernetes.io/component"@, "app.kubernetes.io/instance"@, 18);
    text::lemma_precedes_at("app.kubernetes.io/component"@, "app.kubernetes.io/managed-by"@, 18);
    text::lemma_precedes_at("app.kubernetes.io/component"@, "app.kubernetes.io/name"@, 18);
    text::lemma_precedes_at("app.kubernetes.io/instance"@, "app.kubernetes.io/managed-by"@, 18);
    text::lemma_precedes_at("app.kubernetes.io/instance"@, "app.kubernetes.io/name"@, 18);
    text::lemma_precedes_at("app.kubernetes.io/managed-by"@, "app.kubernetes.io/name"@, 18);
}

/// The metadata of a custom resource, as far as the operator reads it.
#[derive(Debug, PartialEq, Eq)]
pub struct ResourceMeta {
    /// Name of the resource.
    pub name: String,
    /// Namespace of the resource, if it is set.
    pub namespace: Option<String>,
    /// Unique identifier that the API server assigned.
    pub uid: Option<String>,
    /// Generation of the spec.
    pub generation: Option<i64>,
    /// Whether a deletion timestamp is set.
    pub deleting: bool,
    /// Finalizers that hold the resource back.
    pub finalizers: Vec<String>,
}

/// What a [`ResourceMeta`] holds, over characters and sequences.
#[verifier::ext_equal]
pub struct ResourceMetaView {
    pub name: Seq<char>,
    pub namespace: Option<Seq<char>>,
    pub uid: Option<Seq<char>>,
    pub generation: Option<i64>,
    pub deleting: bool,
    pub finalizers: Seq<Seq<char>>,
}

impl DeepView for ResourceMeta {
    type V = ResourceMetaView;

    open spec fn deep_view(&self) -> ResourceMetaView {
        ResourceMetaView {
            name: self.name@,
            namespace: self.namespace.deep_view(),
            uid: self.uid.deep_view(),
            generation: self.generation,
            deleting: self.deleting,
            finalizers: self.finalizers.deep_view(),
        }
    }
}

impl Clone for ResourceMeta {
    fn clone(&self) -> (copy: Self)
        ensures
            copy.deep_view() == self.deep_view(),
    {
        let copy = ResourceMeta {
            name: self.name.clone(),
            namespace: self.namespace.clone(),
            uid: self.uid.clone(),
            generation: self.generation,
            deleting: self.deleting,
            finalizers: self.finalizers.clone(),
        };
        assert(copy.finalizers.deep_view() =~= self.finalizers.deep_view());
        copy
    }
}

/// The metadata of a resource that only has a name.
pub open spec fn named_meta(name: Seq<char>) -> ResourceMetaView {
    ResourceMetaView {
        name,
        namespace: None,
        uid: None,
        generation: None,
        deleting: false,
        finalizers: Seq::empty(),
    }
}

/// The namespace that a resource is handled in: its own, or `default`.
pub open spec fn namespace_of(meta: ResourceMetaView) -> Seq<char> {
    match meta.namespace {
        Some(namespace) => namespace,
        None => "default"@,
    }
}

/// The finalizers that are left when `finalizer` is taken away.
pub open spec fn without_finalizer(
    finalizers: Seq<Seq<char>>,
    finalizer: Seq<char>,
) -> Seq<Seq<char>> {
    finalizers.filter(|f: Seq<char>| f != finalizer)
}

impl ResourceMeta {
    /// The metadata of a resource that only has a name.
    pub fn named(name: &str) -> (meta: Self)
        ensures
            meta.deep_view() == named_meta(name@),
    {
        let meta = ResourceMeta {
            name: name.to_owned(),
            namespace: None,
            uid: None,
            generation: None,
            deleting: false,
            finalizers: Vec::new(),
        };
        assert(meta.finalizers.deep_view() =~= Seq::empty());
        meta
    }

    /// The namespace that the resource is handled in: its own, or `default`.
    pub fn namespace_or_default(&self) -> (namespace: String)
        ensures
            namespace@ == namespace_of(self.deep_view()),
    {
        match &self.namespace {
            Some(namespace) => namespace.clone(),
            None => "default".to_owned(),
        }
    }

    /// Whether `finalizer` is set.
    pub fn has_finalizer(&self, finalizer: &str) -> (set: bool)
        ensures
            set == self.deep_view().finalizers.contains(finalizer@),
    {
        let ghost all = self.finalizers.deep_view();
        let mut i: usize = 0;
        while i < self.finalizers.len()
            invariant
                i <= self.finalizers.len(),
                all == self.finalizers.deep_view(),
                forall|j: int| 0 <= j < i ==> all[j] != finalizer@,
            decreases self.finalizers.len() - i,
        {
            if text::text_eq(self.finalizers[i].as_str(), finalizer) {
                assert(all[i as int] == finalizer@);
                return true;
            }
            i = i + 1;
        }
        false
    }

    /// The finalizers that are left when `finalizer` is taken away, in their order.
    pub fn remaining_finalizers(&self, finalizer: &str) -> (remaining: Vec<String>)
        ensures
            remaining.deep_view() == without_finalizer(self.deep_view().finalizers, finalizer@),
    {
        let ghost all = self.finalizers.deep_view();
        let ghost keep = |f: Seq<char>| f != finalizer@;
        let mut remaining: Vec<String> = Vec::new();
        let mut i: usize = 0;
        assert(remaining.deep_view() =~= all.subrange(0, 0).filter(keep)) by {
            reveal(Seq::filter);
        }
        while i < self.finalizers.len()
            invariant
                i <= self.finalizers.len(),
                all == self.finalizers.deep_view(),
                keep == (|f: Seq<char>| f != finalizer@),
                remaining.deep_view() == all.subrange(0, i as int).filter(keep),
            decreases self.finalizers.len() - i,
        {
            let ghost before = remaining.deep_view();
            assert(all.subrange(0, i + 1).drop_last() =~= all.subrange(0, i as int));
            assert(all.subrange(0, i + 1).last() == all[i as int]);
            reveal(Seq::filter);
            if !text::text_eq(self.finalizers[i].as_str(), finalizer) {
                remaining.push(self.finalizers[i].clone());
                assert(remaining.deep_view() =~= before.push(all[i as int]));
            }
            i = i + 1;
        }
        assert(all.subrange(0, all.len() as int) =~= all);
        remaining
    }
}

/// Taking a finalizer away leaves none of it, and leaves every other finalizer in place.
pub proof fn law_only_the_named_finalizer_is_removed(
    finalizers: Seq<Seq<char>>,
    finalizer: Seq<char>,
)
    ensures
        !without_finalizer(finalizers, finalizer).contains(finalizer),
        forall|other: Seq<char>|
            other != finalizer ==> (without_finalizer(finalizers, finalizer).contains(other)
                <==> #[trigger] finalizers.contains(other)),
        !finalizers.contains(finalizer) ==> without_finalizer(finalizers, finalizer) == finalizers,
    decreases finalizers.len(),
{
    reveal(Seq::filter);
    if finalizers.len() > 0 {
        let front = finalizers.drop_last();
        let keep = |f: Seq<char>| f != finalizer;
        law_only_the_named_finalizer_is_removed(front, finalizer);
        let rest = without_finalizer(front, finalizer);
        let after = without_finalizer(finalizers, finalizer);
        assert(after == if keep(finalizers.last()) {
            rest.push(finalizers.last())
        } else {
            rest
        });
        assert forall|other: Seq<char>| other != finalizer implies (after.contains(other)
            <==> #[trigger] finalizers.contains(other)) by {
            if finalizers.contains(other) {
                let i = choose|i: int| 0 <= i < finalizers.len() && finalizers[i] == other;
                if i < front.len() {
                    assert(front[i] == other);
                    assert(front.contains(other));
                    let k = choose|k: int| 0 <= k < rest.len() && rest[k] == other;
                    assert(after[k] == other);
                } else {
                    assert(after[rest.len() as int] == other);
                }
            }
            if after.contains(other) {
                let k = choose|k: int| 0 <= k < after.len() && after[k] == other;
                if k < rest.len() {
                    assert(rest[k] == other);
                    assert(front.contains(other));
                    let i = choose|i: int| 0 <= i < front.len() && front[i] == other;
                    assert(finalizers[i] == other);
                } else {
                    assert(finalizers[finalizers.len() - 1] == other);
                }
            }
        }
        if after.contains(finalizer) {
            let k = choose|k: int| 0 <= k < after.len() && after[k] == finalizer;
            if k < rest.len() {
                assert(rest[k] == finalizer);
            }
        }
        if !finalizers.contains(finalizer) {
            if front.contains(finalizer) {
                let i = choose|i: int| 0 <= i < front.len() && front[i] == finalizer;
                assert(finalizers[i] == finalizer);
            }
            assert(finalizers[finalizers.len() - 1] != finalizer);
            assert(after =~= finalizers);
        }
    }
}

} // verus!
