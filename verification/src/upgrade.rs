//! Upgrade metadata for the incompatible defaults shipped in v0.3.0.
//!
//! The v0.3.0 CRDs declared schema defaults that this operator refuses to render:
//!
//! | Field | v0.3.0 default | Supported value |
//! |-------|----------------|-----------------|
//! | `StreamlineCluster.spec.replicas` | `3` | `1` |
//! | `StreamlineCluster.spec.podAntiAffinity` | `true` | `false` |
//! | `StreamlineTopic.spec.replicationFactor` | `2` | `1` |
//! | `StreamlineTopic.spec.retention.retentionMs` | `604800000` | `-1` (unlimited) |
//! | `StreamlineTopic.spec.config.minInsyncReplicas` | `1` | removed |
//! | `StreamlineTopic.spec.config.maxMessageBytes` | `1048576` | removed |
//!
//! Structural-schema defaulting is applied by the API server on write, so those
//! values were persisted into the stored objects. The first three are top-level
//! and were injected into every resource. The last three sit inside
//! `spec.retention` and `spec.config`, and reached only the resources whose
//! manifest opened the surrounding block; [`LegacyDefault::parent`] records that.
//!
//! Every rejection of such a value names the exact field, the value to set, the
//! namespaced `kubectl patch` that sets it, and [`UPGRADE_GUIDE`]. The operator
//! never rewrites a user's spec.

use crate::text;
use vstd::prelude::*;
use vstd::string::*;

verus! {

/// Repository-relative path of the upgrade guide every legacy rejection cites.
pub const UPGRADE_GUIDE: &'static str = "docs/UPGRADING.md";

/// The namespace the shipped `deploy/` watches, and the one every documented
/// command is written against.
pub const DOCS_NAMESPACE: &'static str = "streamline-system";

/// `StreamlineCluster.spec.replicas` as persisted by the v0.3.0 schema default.
pub const LEGACY_CLUSTER_REPLICAS: i32 = 3;

/// The only broker count this operator renders without inventing a quorum.
pub const SUPPORTED_CLUSTER_REPLICAS: i32 = 1;

/// `StreamlineCluster.spec.podAntiAffinity` as persisted by v0.3.0.
pub const LEGACY_POD_ANTI_AFFINITY: bool = true;

/// The only value that matches what the pod template actually renders.
pub const SUPPORTED_POD_ANTI_AFFINITY: bool = false;

/// `StreamlineTopic.spec.replicationFactor` as persisted by v0.3.0.
pub const LEGACY_TOPIC_REPLICATION_FACTOR: i32 = 2;

/// The only replication factor the Streamline topic API creates.
pub const SUPPORTED_TOPIC_REPLICATION_FACTOR: i32 = 1;

/// `StreamlineTopic.spec.retention.retentionMs` as persisted by v0.3.0: seven
/// days, a window nothing ever enforced.
pub const LEGACY_TOPIC_RETENTION_MS: i64 = 604_800_000;

/// Unlimited retention: the current schema default, and what the broker does.
pub const SUPPORTED_TOPIC_RETENTION_MS: i64 = -1;

/// `StreamlineTopic.spec.config.minInsyncReplicas` as persisted by v0.3.0.
pub const LEGACY_TOPIC_MIN_INSYNC_REPLICAS: i32 = 1;

/// `StreamlineTopic.spec.config.maxMessageBytes` as persisted by v0.3.0.
pub const LEGACY_TOPIC_MAX_MESSAGE_BYTES: i64 = 1_048_576;

/// The YAML/JSON literal that deletes a key in an RFC 7386 merge patch.
pub const REMOVED_VALUE: &'static str = "null";

/// How a rejected value is corrected.
#[derive(Debug, Clone, Copy, PartialEq, Eq, Structural)]
pub enum Remediation {
    /// Write [`LegacyDefault::supported_value`] into the field.
    SetValue,
    /// Delete the key with a JSON merge-patch `null`.
    ///
    /// While the v0.3.0 CRDs are still installed the API server puts the key
    /// back on the same write, so the corrected CRDs go first.
    RemoveKey,
}

/// One field whose v0.3.0 schema default is rejected by this operator.
#[derive(Debug, Clone, Copy, PartialEq, Eq)]
pub struct LegacyDefault {
    /// Kind carrying the field, e.g. `StreamlineCluster`.
    pub kind: &'static str,
    /// Plural resource name for `kubectl`, e.g. `streamlineclusters`.
    pub resource: &'static str,
    /// Fully qualified field path, e.g. `spec.replicas`.
    pub field: &'static str,
    /// Leaf key as it appears in a spec block and in rejection messages.
    pub key: &'static str,
    /// The spec block that had to be present for v0.3.0 to inject this
    /// default, or `None` for a top-level field that was always injected.
    pub parent: Option<&'static str>,
    /// The value v0.3.0 persisted, rendered exactly as it appears in YAML.
    pub legacy_value: &'static str,
    /// The value this operator supports, rendered exactly as it appears in
    /// YAML, or [`REMOVED_VALUE`] when the fix is to delete the key.
    pub supported_value: &'static str,
    /// Whether the fix sets a value or deletes the key.
    pub remediation: Remediation,
    /// The merge-patch body that moves the field from legacy to supported,
    /// always nested to the leaf.
    pub merge_patch: &'static str,
}

/// What a [`LegacyDefault`] holds, over characters.
#[verifier::ext_equal]
pub struct LegacyDefaultView {
    pub kind: Seq<char>,
    pub resource: Seq<char>,
    pub field: Seq<char>,
    pub key: Seq<char>,
    pub parent: Option<Seq<char>>,
    pub legacy_value: Seq<char>,
    pub supported_value: Seq<char>,
    pub remediation: Remediation,
    pub merge_patch: Seq<char>,
}

impl DeepView for LegacyDefault {
    type V = LegacyDefaultView;

    open spec fn deep_view(&self) -> LegacyDefaultView {
        LegacyDefaultView {
            kind: self.kind@,
            resource: self.resource@,
            field: self.field@,
            key: self.key@,
            parent: self.parent.deep_view(),
            legacy_value: self.legacy_value@,
            supported_value: self.supported_value@,
            remediation: self.remediation,
            merge_patch: self.merge_patch@,
        }
    }
}

/// How a provenance sentence starts, up to the kind.
pub const PROVENANCE_HEAD: &'static str = " It is the v0.3.0 CRD schema default, which the API server persisted into every ";

/// How it goes on for a top-level field.
pub const PROVENANCE_TOP_LEVEL: &'static str = " created against those CRDs, so the spec can carry it without anyone having written it. The operator does not rewrite specs.";

/// How it goes on for a nested field, up to the block.
pub const PROVENANCE_NESTED_HEAD: &'static str = " whose manifest opened a `";

/// How it ends for a nested field.
pub const PROVENANCE_NESTED_TAIL: &'static str = "` block (structural defaults are only injected into objects that are present), so the spec can carry it without anyone having written it. The operator does not rewrite specs.";

/// How the instruction to remove a key starts, up to what to write.
pub const REMOVE_HEAD: &'static str = "Remove the key — writing `";

/// How it goes on, up to the surrounding block.
pub const REMOVE_LEAF: &'static str = "` deletes this one leaf and leaves every other ";

/// How it goes on, up to the patch command.
pub const REMOVE_PATCH: &'static str = " setting in place — and re-apply, or patch the stored object in place with `";

/// How it ends.
pub const REMOVE_TAIL: &'static str = "`. The removal only sticks once the corrected CRDs are installed: v0.3.0 declares a default for this field, and defaulting runs after the patch is merged, so the API server puts the key back on the same write.";

/// How the instruction to set a value goes on, up to the patch command.
pub const SET_PATCH: &'static str = " and re-apply, or patch the stored object in place with `";

/// How every remediation ends, after the guide.
pub const GUIDE_TAIL: &'static str = " for the full upgrade path, including how to find every affected resource.";

impl LegacyDefaultView {
    /// The namespaced `kubectl patch` that corrects one named object.
    pub open spec fn patch_command(self, name: Seq<char>, namespace: Seq<char>) -> Seq<char> {
        "kubectl patch "@ + self.resource + " "@ + name + " -n "@ + namespace
            + " --type merge -p '"@ + self.merge_patch + "'"@
    }

    /// The patch with placeholders for the name and the namespace.
    pub open spec fn patch_template(self) -> Seq<char> {
        self.patch_command("<name>"@, "<namespace>"@)
    }

    /// The field with the value v0.3.0 persisted, as a manifest writes it.
    pub open spec fn legacy_yaml(self) -> Seq<char> {
        self.field + ": "@ + self.legacy_value
    }

    /// The field with the supported value, as a manifest writes it.
    pub open spec fn supported_yaml(self) -> Seq<char> {
        self.field + ": "@ + self.supported_value
    }

    /// The sentence on where the value came from: one for a legacy value, none otherwise.
    pub open spec fn provenance(self, observed_is_legacy: bool) -> Seq<char> {
        if !observed_is_legacy {
            Seq::empty()
        } else {
            match self.parent {
                None => PROVENANCE_HEAD@ + self.kind + PROVENANCE_TOP_LEVEL@,
                Some(parent) => PROVENANCE_HEAD@ + self.kind + PROVENANCE_NESTED_HEAD@ + parent
                    + PROVENANCE_NESTED_TAIL@,
            }
        }
    }

    /// The instruction that corrects the field.
    pub open spec fn action(self) -> Seq<char> {
        if self.remediation == Remediation::RemoveKey {
            let block = match self.parent {
                Some(parent) => parent,
                None => "spec"@,
            };
            REMOVE_HEAD@ + self.supported_yaml() + REMOVE_LEAF@ + block + REMOVE_PATCH@
                + self.patch_template() + REMOVE_TAIL@
        } else {
            "Set "@ + self.supported_yaml() + SET_PATCH@ + self.patch_template() + "`."@
        }
    }

    /// The remediation sentence appended to a rejection.
    pub open spec fn remedy(self, observed_is_legacy: bool) -> Seq<char> {
        " "@ + self.action() + self.provenance(observed_is_legacy) + " See "@ + UPGRADE_GUIDE@
            + GUIDE_TAIL@
    }
}

/// Every v0.3.0 default this operator rejects, in the order the upgrade guide
/// presents them.
pub open spec fn legacy_table() -> Seq<LegacyDefaultView> {
    seq![
        LegacyDefaultView {
            kind: "StreamlineCluster"@,
            resource: "streamlineclusters"@,
            field: "spec.replicas"@,
            key: "replicas"@,
            parent: None,
            legacy_value: "3"@,
            supported_value: "1"@,
            remediation: Remediation::SetValue,
            merge_patch: "{\"spec\":{\"replicas\":1}}"@,
        },
        LegacyDefaultView {
            kind: "StreamlineCluster"@,
            resource: "streamlineclusters"@,
            field: "spec.podAntiAffinity"@,
            key: "podAntiAffinity"@,
            parent: None,
            legacy_value: "true"@,
            supported_value: "false"@,
            remediation: Remediation::SetValue,
            merge_patch: "{\"spec\":{\"podAntiAffinity\":false}}"@,
        },
        LegacyDefaultView {
            kind: "StreamlineTopic"@,
            resource: "streamlinetopics"@,
            field: "spec.replicationFactor"@,
            key: "replicationFactor"@,
            parent: None,
            legacy_value: "2"@,
            supported_value: "1"@,
            remediation: Remediation::SetValue,
            merge_patch: "{\"spec\":{\"replicationFactor\":1}}"@,
        },
        LegacyDefaultView {
            kind: "StreamlineTopic"@,
            resource: "streamlinetopics"@,
            field: "spec.retention.retentionMs"@,
            key: "retentionMs"@,
            parent: Some("spec.retention"@),
            legacy_value: "604800000"@,
            supported_value: "-1"@,
            remediation: Remediation::SetValue,
            merge_patch: "{\"spec\":{\"retention\":{\"retentionMs\":-1}}}"@,
        },
        LegacyDefaultView {
            kind: "StreamlineTopic"@,
            resource: "streamlinetopics"@,
            field: "spec.config.minInsyncReplicas"@,
            key: "minInsyncReplicas"@,
            parent: Some("spec.config"@),
            legacy_value: "1"@,
            supported_value: REMOVED_VALUE@,
            remediation: Remediation::RemoveKey,
            merge_patch: "{\"spec\":{\"config\":{\"minInsyncReplicas\":null}}}"@,
        },
        LegacyDefaultView {
            kind: "StreamlineTopic"@,
            resource: "streamlinetopics"@,
            field: "spec.config.maxMessageBytes"@,
            key: "maxMessageBytes"@,
            parent: Some("spec.config"@),
            legacy_value: "1048576"@,
            supported_value: REMOVED_VALUE@,
            remediation: Remediation::RemoveKey,
            merge_patch: "{\"spec\":{\"config\":{\"maxMessageBytes\":null}}}"@,
        },
    ]
}

/// Where the first entry for `field` stands, or the length if there is none.
pub open spec fn field_position(table: Seq<LegacyDefaultView>, field: Seq<char>) -> int
    decreases table.len(),
{
    if table.len() == 0 || table[0].field == field {
        0
    } else {
        1 + field_position(table.drop_first(), field)
    }
}

/// The entry for `field`, if `field` had a v0.3.0 default that is rejected.
pub open spec fn tabled(field: Seq<char>) -> Option<LegacyDefaultView> {
    let at = field_position(legacy_table(), field);
    if at < legacy_table().len() {
        Some(legacy_table()[at])
    } else {
        None
    }
}

/// The remediation sentence for `field`, or nothing for a field that is not tabled.
pub open spec fn remedy_for(field: Seq<char>, observed_is_legacy: bool) -> Seq<char> {
    match tabled(field) {
        Some(entry) => entry.remedy(observed_is_legacy),
        None => Seq::empty(),
    }
}

/// The remediation sentence for `field` when `observed` is the value to reject.
pub open spec fn remedy_for_value(field: Seq<char>, observed: Seq<char>) -> Seq<char> {
    match tabled(field) {
        Some(entry) => entry.remedy(observed == entry.legacy_value),
        None => Seq::empty(),
    }
}

impl LegacyDefault {
    /// The namespaced `kubectl patch` that corrects one named object.
    ///
    /// Namespace is a required argument rather than a default: the shipped
    /// operator watches exactly one namespace, and a patch run against the
    /// wrong one succeeds while leaving the broken object untouched.
    #[must_use]
    pub fn patch_command(&self, name: &str, namespace: &str) -> (command: String)
        ensures
            command@ == self.deep_view().patch_command(name@, namespace@),
    {
        "kubectl patch ".to_owned().concat(self.resource).concat(" ").concat(name).concat(" -n ")
            .concat(namespace).concat(" --type merge -p '").concat(self.merge_patch).concat("'")
    }

    /// The patch with placeholders, for messages that have no object in hand.
    #[must_use]
    pub fn patch_template(&self) -> (command: String)
        ensures
            command@ == self.deep_view().patch_template(),
    {
        self.patch_command("<name>", "<namespace>")
    }

    /// `spec.replicas: 3`: the field with the old value.
    #[must_use]
    pub fn legacy_yaml(&self) -> (yaml: String)
        ensures
            yaml@ == self.deep_view().legacy_yaml(),
    {
        self.field.to_owned().concat(": ").concat(self.legacy_value)
    }

    /// `spec.replicas: 1`: the field with the new value.
    ///
    /// For a [`Remediation::RemoveKey`] field this is
    /// `spec.config.minInsyncReplicas: null`, which is literally what both a
    /// manifest and a merge patch have to say to make the field go away.
    #[must_use]
    pub fn supported_yaml(&self) -> (yaml: String)
        ensures
            yaml@ == self.deep_view().supported_yaml(),
    {
        self.field.to_owned().concat(": ").concat(self.supported_value)
    }

    /// Whether the fix deletes the key instead of setting it.
    #[must_use]
    pub fn removes_the_key(&self) -> (removes: bool)
        ensures
            removes == (self.remediation == Remediation::RemoveKey),
    {
        matches!(self.remediation, Remediation::RemoveKey)
    }

    /// Whether the corrected CRDs must be installed *before* the patch for the
    /// patch to survive the write it is part of: exactly for the key removals.
    #[must_use]
    pub fn needs_corrected_crds_first(&self) -> (first: bool)
        ensures
            first == (self.remediation == Remediation::RemoveKey),
    {
        self.removes_the_key()
    }

    /// Whether `observed`, rendered the way the rejection renders it, is the
    /// value v0.3.0 persisted, rather than one the user chose.
    #[must_use]
    pub fn observed_is_legacy(&self, observed: &str) -> (legacy: bool)
        ensures
            legacy == (observed@ == self.legacy_value@),
    {
        text::text_eq(observed, self.legacy_value)
    }

    /// The remediation sentence appended to a rejection.
    ///
    /// A user who deliberately wrote `replicas: 5` is not upgrading from
    /// anything, so only a legacy value is said to come from v0.3.0. Both forms
    /// carry the field, the target value, the patch, and the guide.
    #[must_use]
    pub fn remediation(&self, observed_is_legacy: bool) -> (remedy: String)
        ensures
            remedy@ == self.deep_view().remedy(observed_is_legacy),
    {
        let provenance = if observed_is_legacy {
            match self.parent {
                None => PROVENANCE_HEAD.to_owned().concat(self.kind).concat(PROVENANCE_TOP_LEVEL),
                Some(parent) => PROVENANCE_HEAD.to_owned().concat(self.kind).concat(
                    PROVENANCE_NESTED_HEAD,
                ).concat(parent).concat(PROVENANCE_NESTED_TAIL),
            }
        } else {
            String::new()
        };

        let action = if self.removes_the_key() {
            let parent = match self.parent {
                Some(parent) => parent,
                None => "spec",
            };
            REMOVE_HEAD.to_owned().concat(self.supported_yaml().as_str()).concat(REMOVE_LEAF)
                .concat(parent).concat(REMOVE_PATCH).concat(self.patch_template().as_str())
                .concat(REMOVE_TAIL)
        } else {
            "Set ".to_owned().concat(self.supported_yaml().as_str()).concat(SET_PATCH).concat(
                self.patch_template().as_str(),
            ).concat("`.")
        };

        " ".to_owned().concat(action.as_str()).concat(provenance.as_str()).concat(" See ").concat(
            UPGRADE_GUIDE,
        ).concat(GUIDE_TAIL)
    }
}

/// Every v0.3.0 default this operator rejects, in the order the upgrade guide
/// presents them.
pub fn legacy_defaults() -> (table: Vec<LegacyDefault>)
    ensures
        table.deep_view() == legacy_table(),
{
    let table = vec![
        LegacyDefault {
            kind: "StreamlineCluster",
            resource: "streamlineclusters",
            field: "spec.replicas",
            key: "replicas",
            parent: None,
            legacy_value: "3",
            supported_value: "1",
            remediation: Remediation::SetValue,
            merge_patch: "{\"spec\":{\"replicas\":1}}",
        },
        LegacyDefault {
            kind: "StreamlineCluster",
            resource: "streamlineclusters",
            field: "spec.podAntiAffinity",
            key: "podAntiAffinity",
            parent: None,
            legacy_value: "true",
            supported_value: "false",
            remediation: Remediation::SetValue,
            merge_patch: "{\"spec\":{\"podAntiAffinity\":false}}",
        },
        LegacyDefault {
            kind: "StreamlineTopic",
            resource: "streamlinetopics",
            field: "spec.replicationFactor",
            key: "replicationFactor",
            parent: None,
            legacy_value: "2",
            supported_value: "1",
            remediation: Remediation::SetValue,
            merge_patch: "{\"spec\":{\"replicationFactor\":1}}",
        },
        LegacyDefault {
            kind: "StreamlineTopic",
            resource: "streamlinetopics",
            field: "spec.retention.retentionMs",
            key: "retentionMs",
            parent: Some("spec.retention"),
            legacy_value: "604800000",
            supported_value: "-1",
            remediation: Remediation::SetValue,
            merge_patch: "{\"spec\":{\"retention\":{\"retentionMs\":-1}}}",
        },
        LegacyDefault {
            kind: "StreamlineTopic",
            resource: "streamlinetopics",
            field: "spec.config.minInsyncReplicas",
            key: "minInsyncReplicas",
            parent: Some("spec.config"),
            legacy_value: "1",
            supported_value: REMOVED_VALUE,
            remediation: Remediation::RemoveKey,
            merge_patch: "{\"spec\":{\"config\":{\"minInsyncReplicas\":null}}}",
        },
        LegacyDefault {
            kind: "StreamlineTopic",
            resource: "streamlinetopics",
            field: "spec.config.maxMessageBytes",
            key: "maxMessageBytes",
            parent: Some("spec.config"),
            legacy_value: "1048576",
            supported_value: REMOVED_VALUE,
            remediation: Remediation::RemoveKey,
            merge_patch: "{\"spec\":{\"config\":{\"maxMessageBytes\":null}}}",
        },
    ];
    assert(table.deep_view() =~= legacy_table());
    table
}

/// Look up one entry by its fully qualified field path.
#[must_use]
pub fn legacy_default(field: &str) -> (entry: Option<LegacyDefault>)
    ensures
        entry.deep_view() == tabled(field@),
{
    let table = legacy_defaults();
    let ghost all = table.deep_view();
    let mut i: usize = 0;
    while i < table.len() && !text::text_eq(table[i].field, field)
        invariant
            i <= table.len(),
            all == table.deep_view(),
            forall|j: int| 0 <= j < i ==> (#[trigger] all[j]).field != field@,
        decreases table.len() - i,
    {
        i = i + 1;
    }
    proof {
        lemma_field_position_is(all, field@, i as int);
    }
    if i < table.len() {
        assert(all[i as int] == table[i as int].deep_view());
        Some(table[i])
    } else {
        None
    }
}

/// The remediation sentence for `field`, or an empty string if it is not a
/// v0.3.0 default.
#[must_use]
pub fn remediation_for(field: &str, observed_is_legacy: bool) -> (remedy: String)
    ensures
        remedy@ == remedy_for(field@, observed_is_legacy),
{
    match legacy_default(field) {
        Some(entry) => entry.remediation(observed_is_legacy),
        None => String::new(),
    }
}

/// The remediation sentence for `field`, deciding the v0.3.0 provenance from
/// the value the caller is about to reject.
///
/// `observed` is the value rendered exactly as the rejection renders it.
#[must_use]
pub fn remediation_for_value(field: &str, observed: &str) -> (remedy: String)
    ensures
        remedy@ == remedy_for_value(field@, observed@),
{
    match legacy_default(field) {
        Some(entry) => entry.remediation(entry.observed_is_legacy(observed)),
        None => String::new(),
    }
}

proof fn lemma_field_position_is(table: Seq<LegacyDefaultView>, field: Seq<char>, at: int)
    requires
        0 <= at <= table.len(),
        forall|j: int| 0 <= j < at ==> (#[trigger] table[j]).field != field,
        at < table.len() ==> table[at].field == field,
    ensures
        field_position(table, field) == at,
    decreases table.len(),
{
    if at > 0 {
        let rest = table.drop_first();
        assert forall|j: int| 0 <= j < at - 1 implies (#[trigger] rest[j]).field != field by {
            assert(rest[j] == table[j + 1]);
        }
        lemma_field_position_is(rest, field, at - 1);
    }
}

/// Every entry of the table is found under its own field, and nothing else is.
pub proof fn law_each_entry_is_found_by_its_field(i: int)
    requires
        0 <= i < legacy_table().len(),
    ensures
        tabled(legacy_table()[i].field) == Some(legacy_table()[i]),
{
    reveal_strlit("spec.replicas");
    reveal_strlit("spec.podAntiAffinity");
    reveal_strlit("spec.replicationFactor");
    reveal_strlit("spec.retention.retentionMs");
    reveal_strlit("spec.config.minInsyncReplicas");
    reveal_strlit("spec.config.maxMessageBytes");
    let table = legacy_table();
    assert(table[0].field.len() == 13);
    assert(table[1].field.len() == 20);
    assert(table[2].field.len() == 22);
    assert(table[3].field.len() == 26);
    assert(table[4].field.len() == 29);
    assert(table[5].field.len() == 27);
    lemma_field_position_is(table, table[i].field, i);
}

/// A field that no entry is for is not in the table.
pub proof fn lemma_untabled(field: Seq<char>)
    requires
        field != "spec.replicas"@,
        field != "spec.podAntiAffinity"@,
        field != "spec.replicationFactor"@,
        field != "spec.retention.retentionMs"@,
        field != "spec.config.minInsyncReplicas"@,
        field != "spec.config.maxMessageBytes"@,
    ensures
        tabled(field) is None,
        remedy_for(field, true).len() == 0,
        remedy_for(field, false).len() == 0,
{
    let table = legacy_table();
    assert forall|j: int| 0 <= j < table.len() implies (#[trigger] table[j]).field != field by {
        assert(j == 0 || j == 1 || j == 2 || j == 3 || j == 4 || j == 5);
    }
    lemma_field_position_is(table, field, table.len() as int);
}

/// A field that is not in the table gets no remediation at all.
pub proof fn law_untabled_fields_add_nothing(field: Seq<char>, observed: Seq<char>, legacy: bool)
    requires
        forall|i: int| 0 <= i < legacy_table().len() ==> (#[trigger] legacy_table()[i]).field != field,
    ensures
        remedy_for(field, legacy) == Seq::<char>::empty(),
        remedy_for_value(field, observed) == Seq::<char>::empty(),
{
    lemma_field_position_is(legacy_table(), field, legacy_table().len() as int);
}

/// A legacy value and a deliberate one get the same instruction: the sentence on the v0.3.0
/// provenance is all that the remediation of a deliberate value lacks.
pub proof fn law_only_the_legacy_value_is_blamed_on_the_upgrade(entry: LegacyDefaultView)
    ensures
        entry.provenance(false).len() == 0,
        entry.remedy(false) == " "@ + entry.action() + " See "@ + UPGRADE_GUIDE@ + GUIDE_TAIL@,
        entry.remedy(true) == " "@ + entry.action() + entry.provenance(true) + " See "@
            + UPGRADE_GUIDE@ + GUIDE_TAIL@,
        text::occurs(entry.provenance(true), "v0.3.0"@),
{
    assert(" "@ + entry.action() + Seq::<char>::empty() =~= " "@ + entry.action());
    reveal_strlit("v0.3.0");
    reveal_strlit(" It is the v0.3.0 CRD schema default, which the API server persisted into every ");
    assert(PROVENANCE_HEAD@.subrange(11, 17) =~= "v0.3.0"@);
    assert(entry.provenance(true).subrange(11, 17) =~= PROVENANCE_HEAD@.subrange(11, 17));
    assert(text::occurs_at(entry.provenance(true), "v0.3.0"@, 11));
}

/// The remediation of every tabled value that v0.3.0 persisted names v0.3.0.
pub proof fn law_legacy_values_are_blamed_on_the_upgrade(i: int)
    requires
        0 <= i < legacy_table().len(),
    ensures
        ({
            let entry = legacy_table()[i];
            &&& text::occurs(remedy_for(entry.field, true), "v0.3.0"@)
            &&& text::occurs(remedy_for_value(entry.field, entry.legacy_value), "v0.3.0"@)
        }),
{
    let entry = legacy_table()[i];
    law_each_entry_is_found_by_its_field(i);
    law_only_the_legacy_value_is_blamed_on_the_upgrade(entry);
    let front = " "@ + entry.action();
    let blamed = front + entry.provenance(true);
    text::lemma_occurs_in_end(front, entry.provenance(true), "v0.3.0"@);
    text::lemma_occurs_in_longer(blamed, "v0.3.0"@, " See "@);
    text::lemma_occurs_in_longer(blamed + " See "@, "v0.3.0"@, UPGRADE_GUIDE@);
    text::lemma_occurs_in_longer(blamed + " See "@ + UPGRADE_GUIDE@, "v0.3.0"@, GUIDE_TAIL@);
}

/// The table spells the values as the rejections render them, and no entry keeps the value that
/// it corrects.
pub proof fn law_the_table_spells_the_values()
    ensures
        legacy_table()[0].legacy_value == text::decimal(LEGACY_CLUSTER_REPLICAS as int),
        legacy_table()[0].supported_value == text::decimal(SUPPORTED_CLUSTER_REPLICAS as int),
        legacy_table()[2].legacy_value == text::decimal(LEGACY_TOPIC_REPLICATION_FACTOR as int),
        legacy_table()[2].supported_value == text::decimal(
            SUPPORTED_TOPIC_REPLICATION_FACTOR as int,
        ),
        legacy_table()[3].legacy_value == text::decimal(LEGACY_TOPIC_RETENTION_MS as int),
        legacy_table()[3].supported_value == text::decimal(SUPPORTED_TOPIC_RETENTION_MS as int),
        legacy_table()[4].legacy_value == text::decimal(LEGACY_TOPIC_MIN_INSYNC_REPLICAS as int),
        legacy_table()[5].legacy_value == text::decimal(LEGACY_TOPIC_MAX_MESSAGE_BYTES as int),
        forall|i: int|
            0 <= i < legacy_table().len() ==> (#[trigger] legacy_table()[i]).legacy_value
                != legacy_table()[i].supported_value,
{
    reveal_strlit("3");
    reveal_strlit("2");
    reveal_strlit("1");
    reveal_strlit("-1");
    reveal_strlit("true");
    reveal_strlit("false");
    reveal_strlit("null");
    reveal_strlit("604800000");
    reveal_strlit("1048576");
    reveal_with_fuel(text::digits, 9);
    assert("3"@ =~= text::decimal(3));
    assert("2"@ =~= text::decimal(2));
    assert("1"@ =~= text::decimal(1));
    assert("-1"@ =~= text::decimal(-1));
    assert("604800000"@ =~= text::decimal(604_800_000));
    assert("1048576"@ =~= text::decimal(1_048_576));
    assert("3"@[0] == '3' && "2"@[0] == '2' && "1"@[0] == '1');
    assert("true"@.len() == 4 && "false"@.len() == 5);
    assert("604800000"@.len() == 9 && "-1"@.len() == 2);
    assert("1"@.len() == 1 && "null"@.len() == 4 && "1048576"@.len() == 7);
}

/// Whether the value is legacy or deliberate, the remediation names the supported value, the
/// patch command and the upgrade guide.
pub proof fn law_every_remedy_says_what_to_do(entry: LegacyDefaultView, legacy: bool)
    ensures
        text::occurs(entry.remedy(legacy), entry.supported_yaml()),
        text::occurs(entry.remedy(legacy), entry.patch_template()),
        text::occurs(entry.remedy(legacy), UPGRADE_GUIDE@),
{
    let yaml = entry.supported_yaml();
    let patch = entry.patch_template();
    let action = entry.action();
    lemma_action_says_what_to_do(entry);
    let before_guide = " "@ + action + entry.provenance(legacy) + " See "@;
    text::lemma_occurs_in_end(" "@, action, yaml);
    text::lemma_occurs_in_longer(" "@ + action, yaml, entry.provenance(legacy));
    text::lemma_occurs_in_longer(" "@ + action + entry.provenance(legacy), yaml, " See "@);
    text::lemma_occurs_in_longer(before_guide, yaml, UPGRADE_GUIDE@);
    text::lemma_occurs_in_longer(before_guide + UPGRADE_GUIDE@, yaml, GUIDE_TAIL@);
    text::lemma_occurs_in_end(" "@, action, patch);
    text::lemma_occurs_in_longer(" "@ + action, patch, entry.provenance(legacy));
    text::lemma_occurs_in_longer(" "@ + action + entry.provenance(legacy), patch, " See "@);
    text::lemma_occurs_in_longer(before_guide, patch, UPGRADE_GUIDE@);
    text::lemma_occurs_in_longer(before_guide + UPGRADE_GUIDE@, patch, GUIDE_TAIL@);
    text::lemma_end_occurs(before_guide, UPGRADE_GUIDE@);
    text::lemma_occurs_in_longer(before_guide + UPGRADE_GUIDE@, UPGRADE_GUIDE@, GUIDE_TAIL@);
}

proof fn lemma_action_says_what_to_do(entry: LegacyDefaultView)
    ensures
        text::occurs(entry.action(), entry.supported_yaml()),
        text::occurs(entry.action(), entry.patch_template()),
{
    let yaml = entry.supported_yaml();
    let patch = entry.patch_template();
    if entry.remediation == Remediation::RemoveKey {
        let block = match entry.parent {
            Some(parent) => parent,
            None => "spec"@,
        };
        let s1 = REMOVE_HEAD@ + yaml;
        let s2 = s1 + REMOVE_LEAF@;
        let s3 = s2 + block;
        let s4 = s3 + REMOVE_PATCH@;
        text::lemma_end_occurs(REMOVE_HEAD@, yaml);
        text::lemma_occurs_in_longer(s1, yaml, REMOVE_LEAF@);
        text::lemma_occurs_in_longer(s2, yaml, block);
        text::lemma_occurs_in_longer(s3, yaml, REMOVE_PATCH@);
        text::lemma_occurs_in_longer(s4, yaml, patch);
        text::lemma_occurs_in_longer(s4 + patch, yaml, REMOVE_TAIL@);
        text::lemma_end_occurs(s4, patch);
        text::lemma_occurs_in_longer(s4 + patch, patch, REMOVE_TAIL@);
    } else {
        let s1 = "Set "@ + yaml;
        let s2 = s1 + SET_PATCH@;
        text::lemma_end_occurs("Set "@, yaml);
        text::lemma_occurs_in_longer(s1, yaml, SET_PATCH@);
        text::lemma_occurs_in_longer(s2, yaml, patch);
        text::lemma_occurs_in_longer(s2 + patch, yaml, "`."@);
        text::lemma_end_occurs(s2, patch);
        text::lemma_occurs_in_longer(s2 + patch, patch, "`."@);
    }
}

/// A sentence that some remediations hold and others do not.
pub enum Sentence {
    /// That the operator leaves specs alone, which ends the sentences on where a value came from
    Provenance,
    /// That the value reached every object of its kind
    EveryObject,
    /// That the key is to be removed
    Removal,
    /// That the corrected CRDs go first
    CorrectedCrds,
}

/// The words by which a sentence is known.
pub open spec fn words(sentence: Sentence) -> Seq<char> {
    match sentence {
        Sentence::Provenance => "does not rewrite specs"@,
        Sentence::EveryObject => "created against those CRDs"@,
        Sentence::Removal => "Remove the key"@,
        Sentence::CorrectedCrds => "corrected CRDs are installed"@,
    }
}

/// Whether a sentence is true of an entry whose value is legacy or deliberate.
pub open spec fn holds(sentence: Sentence, entry: LegacyDefaultView, legacy: bool) -> bool {
    match sentence {
        Sentence::Provenance => legacy,
        Sentence::EveryObject => legacy && entry.parent is None,
        Sentence::Removal | Sentence::CorrectedCrds => entry.remediation == Remediation::RemoveKey,
    }
}

/// The remediation of a tabled field holds each sentence exactly where the sentence is true: a
/// legacy value alone is said to come from the old CRDs, a top-level one alone to have reached
/// every object, and only for a key that is removed does the text say so and name the CRDs that
/// go first.
pub proof fn law_a_remedy_says_only_what_is_true(i: int, legacy: bool, sentence: Sentence)
    requires
        0 <= i < legacy_table().len(),
    ensures
        text::occurs(legacy_table()[i].remedy(legacy), words(sentence)) <==> holds(
            sentence,
            legacy_table()[i],
            legacy,
        ),
{
    let entry = legacy_table()[i];
    if holds(sentence, entry, legacy) {
        lemma_true_sentences_are_said(entry, legacy, sentence);
    } else {
        let (first, second, at) = mark(sentence);
        lemma_false_sentences_leave_no_mark(i, legacy, sentence);
        lemma_apart_excludes(entry.remedy(legacy), words(sentence), first, second, at);
    }
}

proof fn lemma_true_sentences_are_said(entry: LegacyDefaultView, legacy: bool, sentence: Sentence)
    requires
        holds(sentence, entry, legacy),
    ensures
        text::occurs(entry.remedy(legacy), words(sentence)),
{
    let said = words(sentence);
    let action = entry.action();
    let provenance = entry.provenance(legacy);
    reveal_strlit("does not rewrite specs");
    reveal_strlit("created against those CRDs");
    reveal_strlit("Remove the key");
    reveal_strlit("corrected CRDs are installed");
    match sentence {
        Sentence::Provenance | Sentence::EveryObject => {
            lemma_provenance_says(entry, sentence);
            text::lemma_occurs_in_end(" "@ + action, provenance, said);
        },
        Sentence::Removal | Sentence::CorrectedCrds => {
            lemma_removal_says(entry, sentence);
            text::lemma_occurs_in_end(" "@, action, said);
            text::lemma_occurs_in_longer(" "@ + action, said, provenance);
        },
    }
    let front = " "@ + action + provenance;
    text::lemma_occurs_in_longer(front, said, " See "@);
    text::lemma_occurs_in_longer(front + " See "@, said, UPGRADE_GUIDE@);
    text::lemma_occurs_in_longer(front + " See "@ + UPGRADE_GUIDE@, said, GUIDE_TAIL@);
}

proof fn lemma_provenance_says(entry: LegacyDefaultView, sentence: Sentence)
    requires
        sentence is Provenance || sentence is EveryObject && entry.parent is None,
    ensures
        text::occurs(entry.provenance(true), words(sentence)),
{
    let said = words(sentence);
    reveal_strlit("does not rewrite specs");
    reveal_strlit("created against those CRDs");
    let start = PROVENANCE_HEAD@ + entry.kind;
    match entry.parent {
        None => {
            reveal_strlit(" created against those CRDs, so the spec can carry it without anyone having written it. The operator does not rewrite specs.");
            let at: int = if sentence is Provenance {
                101
            } else {
                1
            };
            assert(PROVENANCE_TOP_LEVEL@.subrange(at, at + said.len()) =~= said);
            assert(text::occurs_at(PROVENANCE_TOP_LEVEL@, said, at));
            text::lemma_occurs_in_end(start, PROVENANCE_TOP_LEVEL@, said);
        },
        Some(parent) => {
            reveal_strlit("` block (structural defaults are only injected into objects that are present), so the spec can carry it without anyone having written it. The operator does not rewrite specs.");
            assert(PROVENANCE_NESTED_TAIL@.subrange(151, 173) =~= said);
            assert(text::occurs_at(PROVENANCE_NESTED_TAIL@, said, 151));
            text::lemma_occurs_in_end(
                start + PROVENANCE_NESTED_HEAD@ + parent,
                PROVENANCE_NESTED_TAIL@,
                said,
            );
        },
    }
}

proof fn lemma_removal_says(entry: LegacyDefaultView, sentence: Sentence)
    requires
        sentence is Removal || sentence is CorrectedCrds,
        entry.remediation == Remediation::RemoveKey,
    ensures
        text::occurs(entry.action(), words(sentence)),
{
    let said = words(sentence);
    reveal_strlit("Remove the key");
    reveal_strlit("corrected CRDs are installed");
    if sentence is Removal {
        reveal_strlit("Remove the key — writing `");
        assert(entry.action().subrange(0, said.len() as int) =~= said);
        assert(text::occurs_at(entry.action(), said, 0));
    } else {
        reveal_strlit("`. The removal only sticks once the corrected CRDs are installed: v0.3.0 declares a default for this field, and defaulting runs after the patch is merged, so the API server puts the key back on the same write.");
        assert(REMOVE_TAIL@.subrange(36, 64) =~= said);
        assert(text::occurs_at(REMOVE_TAIL@, said, 36));
        let front = entry.action().subrange(0, entry.action().len() - REMOVE_TAIL@.len());
        assert(front + REMOVE_TAIL@ =~= entry.action());
        text::lemma_occurs_in_end(front, REMOVE_TAIL@, said);
    }
}

/// Two neighbouring characters of a sentence, and where they stand in its words. The
/// remediations of which the sentence is not true never hold the two side by side.
spec fn mark(sentence: Sentence) -> (char, char, int) {
    match sentence {
        Sentence::Provenance => ('e', 'w', 10),
        Sentence::EveryObject => ('c', 'r', 0),
        Sentence::Removal => ('R', 'e', 0),
        Sentence::CorrectedCrds => ('c', 'o', 0),
    }
}

/// If `second` stands at `k`, it stands behind a character other than `first`.
pub open spec fn apart_at(s: Seq<char>, first: char, second: char, k: int) -> bool {
    s[k] == second ==> k > 0 && s[k - 1] != first
}

/// `second` neither starts `s` nor stands directly behind `first` in it.
pub open spec fn apart(s: Seq<char>, first: char, second: char) -> bool {
    forall|k: int| 0 <= k < s.len() ==> #[trigger] apart_at(s, first, second, k)
}

/// [`apart`], checked one by one for the characters from `from` on, thirty at most.
pub open spec fn apart_from(s: Seq<char>, first: char, second: char, from: int) -> bool {
    apart_within(s, first, second, from, if s.len() < from + 30 {
        s.len() as int
    } else {
        from + 30
    })
}

pub open spec fn apart_within(s: Seq<char>, first: char, second: char, from: int, to: int) -> bool
    decreases to - from,
{
    from >= to || (apart_at(s, first, second, from) && apart_within(
        s,
        first,
        second,
        from + 1,
        to,
    ))
}

/// Nothing of any mark stands in `s`.
spec fn unmarked(s: Seq<char>) -> bool {
    apart(s, 'e', 'w') && apart(s, 'c', 'r') && apart(s, 'R', 'e') && apart(s, 'c', 'o')
}

/// No mark stands among the thirty characters from `from` on.
spec fn unmarked_from(s: Seq<char>, from: int) -> bool {
    &&& apart_from(s, 'e', 'w', from)
    &&& apart_from(s, 'c', 'r', from)
    &&& apart_from(s, 'R', 'e', from)
    &&& apart_from(s, 'c', 'o', from)
}

proof fn lemma_apart_within(s: Seq<char>, first: char, second: char, from: int, to: int)
    requires
        apart_within(s, first, second, from, to),
    ensures
        forall|k: int| from <= k < to ==> #[trigger] apart_at(s, first, second, k),
    decreases to - from,
{
    if from < to {
        lemma_apart_within(s, first, second, from + 1, to);
    }
}

pub proof fn lemma_apart(s: Seq<char>, first: char, second: char)
    requires
        s.len() <= 210,
        apart_from(s, first, second, 0),
        apart_from(s, first, second, 30),
        apart_from(s, first, second, 60),
        apart_from(s, first, second, 90),
        apart_from(s, first, second, 120),
        apart_from(s, first, second, 150),
        apart_from(s, first, second, 180),
    ensures
        apart(s, first, second),
{
    let len = s.len() as int;
    let end = |n: int| if len < n { len } else { n };
    lemma_apart_within(s, first, second, 0, end(30));
    lemma_apart_within(s, first, second, 30, end(60));
    lemma_apart_within(s, first, second, 60, end(90));
    lemma_apart_within(s, first, second, 90, end(120));
    lemma_apart_within(s, first, second, 120, end(150));
    lemma_apart_within(s, first, second, 150, end(180));
    lemma_apart_within(s, first, second, 180, end(210));
}

proof fn lemma_unmarked(s: Seq<char>)
    requires
        s.len() <= 90,
        unmarked_from(s, 0),
        unmarked_from(s, 30),
        unmarked_from(s, 60),
    ensures
        unmarked(s),
{
    lemma_apart(s, 'e', 'w');
    lemma_apart(s, 'c', 'r');
    lemma_apart(s, 'R', 'e');
    lemma_apart(s, 'c', 'o');
}

pub broadcast proof fn lemma_apart_in_both(s: Seq<char>, t: Seq<char>, first: char, second: char)
    requires
        apart(s, first, second),
        apart(t, first, second),
    ensures
        #[trigger] apart(s + t, first, second),
{
    let whole = s + t;
    assert forall|k: int| 0 <= k < whole.len() implies #[trigger] apart_at(
        whole,
        first,
        second,
        k,
    ) by {
        if k < s.len() {
            assert(apart_at(s, first, second, k));
        } else {
            assert(apart_at(t, first, second, k - s.len()));
        }
    }
}

pub proof fn lemma_apart_excludes(s: Seq<char>, said: Seq<char>, first: char, second: char, at: int)
    requires
        apart(s, first, second),
        0 <= at < said.len() - 1,
        said[at] == first,
        said[at + 1] == second,
    ensures
        !text::occurs(s, said),
{
    if text::occurs(s, said) {
        let from = choose|from: int| text::occurs_at(s, said, from);
        assert(s.subrange(from, from + said.len())[at] == s[from + at]);
        assert(s.subrange(from, from + said.len())[at + 1] == s[from + at + 1]);
        assert(apart_at(s, first, second, from + at + 1));
    }
}

#[verifier::spinoff_prover]
proof fn lemma_phrases_are_unmarked()
    ensures
        unmarked(" "@),
        unmarked("Set "@),
        unmarked(": "@),
        unmarked("kubectl patch "@),
        unmarked("<name>"@),
        unmarked(" -n "@),
        unmarked("<namespace>"@),
        unmarked(" --type merge -p '"@),
        unmarked("'"@),
        unmarked("`."@),
        unmarked(" See "@),
        unmarked(UPGRADE_GUIDE@),
{
    reveal_strlit(" ");
    reveal_strlit("Set ");
    reveal_strlit(": ");
    reveal_strlit("kubectl patch ");
    reveal_strlit("<name>");
    reveal_strlit(" -n ");
    reveal_strlit("<namespace>");
    reveal_strlit(" --type merge -p '");
    reveal_strlit("'");
    reveal_strlit("`.");
    reveal_strlit(" See ");
    reveal_strlit("docs/UPGRADING.md");
    reveal_with_fuel(apart_within, 31);
    lemma_unmarked(" "@);
    lemma_unmarked("Set "@);
    lemma_unmarked(": "@);
    lemma_unmarked("kubectl patch "@);
    lemma_unmarked("<name>"@);
    lemma_unmarked(" -n "@);
    lemma_unmarked("<namespace>"@);
    lemma_unmarked(" --type merge -p '"@);
    lemma_unmarked("'"@);
    lemma_unmarked("`."@);
    lemma_unmarked(" See "@);
    lemma_unmarked(UPGRADE_GUIDE@);
}

#[verifier::spinoff_prover]
proof fn lemma_long_phrases_are_unmarked()
    ensures
        unmarked(SET_PATCH@),
        unmarked(GUIDE_TAIL@),
        unmarked(REMOVE_LEAF@),
        unmarked(REMOVE_PATCH@),
        unmarked(PROVENANCE_HEAD@),
        unmarked(PROVENANCE_NESTED_HEAD@),
{
    reveal_strlit(" and re-apply, or patch the stored object in place with `");
    reveal_strlit(" for the full upgrade path, including how to find every affected resource.");
    reveal_strlit("` deletes this one leaf and leaves every other ");
    reveal_strlit(" setting in place — and re-apply, or patch the stored object in place with `");
    reveal_strlit(" It is the v0.3.0 CRD schema default, which the API server persisted into every ");
    reveal_strlit(" whose manifest opened a `");
    reveal_with_fuel(apart_within, 31);
    lemma_unmarked(SET_PATCH@);
    lemma_unmarked(GUIDE_TAIL@);
    lemma_unmarked(REMOVE_LEAF@);
    lemma_unmarked(REMOVE_PATCH@);
    lemma_unmarked(PROVENANCE_HEAD@);
    lemma_unmarked(PROVENANCE_NESTED_HEAD@);
}

#[verifier::spinoff_prover]
proof fn lemma_names_are_unmarked()
    ensures
        unmarked("StreamlineCluster"@),
        unmarked("StreamlineTopic"@),
        unmarked("streamlineclusters"@),
        unmarked("streamlinetopics"@),
        unmarked("spec.replicas"@),
        unmarked("spec.podAntiAffinity"@),
        unmarked("spec.replicationFactor"@),
        unmarked("spec.retention.retentionMs"@),
        unmarked("spec.retention"@),
        unmarked("1"@),
        unmarked("false"@),
        unmarked("-1"@),
        unmarked("null"@),
{
    reveal_strlit("StreamlineCluster");
    reveal_strlit("StreamlineTopic");
    reveal_strlit("streamlineclusters");
    reveal_strlit("streamlinetopics");
    reveal_strlit("spec.replicas");
    reveal_strlit("spec.podAntiAffinity");
    reveal_strlit("spec.replicationFactor");
    reveal_strlit("spec.retention.retentionMs");
    reveal_strlit("spec.retention");
    reveal_strlit("1");
    reveal_strlit("false");
    reveal_strlit("-1");
    reveal_strlit("null");
    reveal_with_fuel(apart_within, 31);
    lemma_unmarked("StreamlineCluster"@);
    lemma_unmarked("StreamlineTopic"@);
    lemma_unmarked("streamlineclusters"@);
    lemma_unmarked("streamlinetopics"@);
    lemma_unmarked("spec.replicas"@);
    lemma_unmarked("spec.podAntiAffinity"@);
    lemma_unmarked("spec.replicationFactor"@);
    lemma_unmarked("spec.retention.retentionMs"@);
    lemma_unmarked("spec.retention"@);
    lemma_unmarked("1"@);
    lemma_unmarked("false"@);
    lemma_unmarked("-1"@);
    lemma_unmarked("null"@);
}

#[verifier::spinoff_prover]
proof fn lemma_patches_are_unmarked()
    ensures
        unmarked("{\"spec\":{\"replicas\":1}}"@),
        unmarked("{\"spec\":{\"podAntiAffinity\":false}}"@),
        unmarked("{\"spec\":{\"replicationFactor\":1}}"@),
        unmarked("{\"spec\":{\"retention\":{\"retentionMs\":-1}}}"@),
{
    reveal_strlit("{\"spec\":{\"replicas\":1}}");
    reveal_strlit("{\"spec\":{\"podAntiAffinity\":false}}");
    reveal_strlit("{\"spec\":{\"replicationFactor\":1}}");
    reveal_strlit("{\"spec\":{\"retention\":{\"retentionMs\":-1}}}");
    reveal_with_fuel(apart_within, 31);
    lemma_unmarked("{\"spec\":{\"replicas\":1}}"@);
    lemma_unmarked("{\"spec\":{\"podAntiAffinity\":false}}"@);
    lemma_unmarked("{\"spec\":{\"replicationFactor\":1}}"@);
    lemma_unmarked("{\"spec\":{\"retention\":{\"retentionMs\":-1}}}"@);
}

#[verifier::spinoff_prover]
proof fn lemma_removals_without_provenance()
    ensures
        apart(REMOVE_HEAD@, 'e', 'w'),
        apart(REMOVE_TAIL@, 'e', 'w'),
        apart("spec.config.minInsyncReplicas"@, 'e', 'w'),
        apart("spec.config.maxMessageBytes"@, 'e', 'w'),
        apart("spec.config"@, 'e', 'w'),
        apart("{\"spec\":{\"config\":{\"minInsyncReplicas\":null}}}"@, 'e', 'w'),
        apart("{\"spec\":{\"config\":{\"maxMessageBytes\":null}}}"@, 'e', 'w'),
{
    reveal_strlit("Remove the key — writing `");
    reveal_strlit("`. The removal only sticks once the corrected CRDs are installed: v0.3.0 declares a default for this field, and defaulting runs after the patch is merged, so the API server puts the key back on the same write.");
    reveal_strlit("spec.config.minInsyncReplicas");
    reveal_strlit("spec.config.maxMessageBytes");
    reveal_strlit("spec.config");
    reveal_strlit("{\"spec\":{\"config\":{\"minInsyncReplicas\":null}}}");
    reveal_strlit("{\"spec\":{\"config\":{\"maxMessageBytes\":null}}}");
    reveal_with_fuel(apart_within, 31);
    lemma_apart(REMOVE_HEAD@, 'e', 'w');
    lemma_apart(REMOVE_TAIL@, 'e', 'w');
    lemma_apart("spec.config.minInsyncReplicas"@, 'e', 'w');
    lemma_apart("spec.config.maxMessageBytes"@, 'e', 'w');
    lemma_apart("spec.config"@, 'e', 'w');
    lemma_apart("{\"spec\":{\"config\":{\"minInsyncReplicas\":null}}}"@, 'e', 'w');
    lemma_apart("{\"spec\":{\"config\":{\"maxMessageBytes\":null}}}"@, 'e', 'w');
}

#[verifier::spinoff_prover]
proof fn lemma_removals_without_every_object()
    ensures
        apart(REMOVE_HEAD@, 'c', 'r'),
        apart(REMOVE_TAIL@, 'c', 'r'),
        apart("spec.config.minInsyncReplicas"@, 'c', 'r'),
        apart("spec.config.maxMessageBytes"@, 'c', 'r'),
        apart("spec.config"@, 'c', 'r'),
        apart("{\"spec\":{\"config\":{\"minInsyncReplicas\":null}}}"@, 'c', 'r'),
        apart("{\"spec\":{\"config\":{\"maxMessageBytes\":null}}}"@, 'c', 'r'),
{
    reveal_strlit("Remove the key — writing `");
    reveal_strlit("`. The removal only sticks once the corrected CRDs are installed: v0.3.0 declares a default for this field, and defaulting runs after the patch is merged, so the API server puts the key back on the same write.");
    reveal_strlit("spec.config.minInsyncReplicas");
    reveal_strlit("spec.config.maxMessageBytes");
    reveal_strlit("spec.config");
    reveal_strlit("{\"spec\":{\"config\":{\"minInsyncReplicas\":null}}}");
    reveal_strlit("{\"spec\":{\"config\":{\"maxMessageBytes\":null}}}");
    reveal_with_fuel(apart_within, 31);
    lemma_apart(REMOVE_HEAD@, 'c', 'r');
    lemma_apart(REMOVE_TAIL@, 'c', 'r');
    lemma_apart("spec.config.minInsyncReplicas"@, 'c', 'r');
    lemma_apart("spec.config.maxMessageBytes"@, 'c', 'r');
    lemma_apart("spec.config"@, 'c', 'r');
    lemma_apart("{\"spec\":{\"config\":{\"minInsyncReplicas\":null}}}"@, 'c', 'r');
    lemma_apart("{\"spec\":{\"config\":{\"maxMessageBytes\":null}}}"@, 'c', 'r');
}

#[verifier::spinoff_prover]
proof fn lemma_nested_provenance_without_every_object()
    ensures
        apart(PROVENANCE_NESTED_TAIL@, 'c', 'r'),
{
    reveal_strlit("` block (structural defaults are only injected into objects that are present), so the spec can carry it without anyone having written it. The operator does not rewrite specs.");
    reveal_with_fuel(apart_within, 31);
    lemma_apart(PROVENANCE_NESTED_TAIL@, 'c', 'r');
}

#[verifier::spinoff_prover]
proof fn lemma_provenance_without_removal()
    ensures
        apart(PROVENANCE_TOP_LEVEL@, 'R', 'e'),
        apart(PROVENANCE_NESTED_TAIL@, 'R', 'e'),
{
    reveal_strlit(" created against those CRDs, so the spec can carry it without anyone having written it. The operator does not rewrite specs.");
    reveal_strlit("` block (structural defaults are only injected into objects that are present), so the spec can carry it without anyone having written it. The operator does not rewrite specs.");
    reveal_with_fuel(apart_within, 31);
    lemma_apart(PROVENANCE_TOP_LEVEL@, 'R', 'e');
    lemma_apart(PROVENANCE_NESTED_TAIL@, 'R', 'e');
}

#[verifier::spinoff_prover]
proof fn lemma_provenance_without_corrected_crds()
    ensures
        apart(PROVENANCE_TOP_LEVEL@, 'c', 'o'),
        apart(PROVENANCE_NESTED_TAIL@, 'c', 'o'),
{
    reveal_strlit(" created against those CRDs, so the spec can carry it without anyone having written it. The operator does not rewrite specs.");
    reveal_strlit("` block (structural defaults are only injected into objects that are present), so the spec can carry it without anyone having written it. The operator does not rewrite specs.");
    reveal_with_fuel(apart_within, 31);
    lemma_apart(PROVENANCE_TOP_LEVEL@, 'c', 'o');
    lemma_apart(PROVENANCE_NESTED_TAIL@, 'c', 'o');
}

proof fn lemma_false_sentences_leave_no_mark(i: int, legacy: bool, sentence: Sentence)
    requires
        0 <= i < legacy_table().len(),
        !holds(sentence, legacy_table()[i], legacy),
    ensures
        apart(legacy_table()[i].remedy(legacy), mark(sentence).0, mark(sentence).1),
        0 <= mark(sentence).2 < words(sentence).len() - 1,
        words(sentence)[mark(sentence).2] == mark(sentence).0,
        words(sentence)[mark(sentence).2 + 1] == mark(sentence).1,
{
    broadcast use lemma_apart_in_both;

    lemma_phrases_are_unmarked();
    lemma_long_phrases_are_unmarked();
    lemma_names_are_unmarked();
    lemma_patches_are_unmarked();
    match sentence {
        Sentence::Provenance => {
            reveal_strlit("does not rewrite specs");
            lemma_removals_without_provenance();
        },
        Sentence::EveryObject => {
            reveal_strlit("created against those CRDs");
            lemma_removals_without_every_object();
            lemma_nested_provenance_without_every_object();
        },
        Sentence::Removal => {
            reveal_strlit("Remove the key");
            lemma_provenance_without_removal();
        },
        Sentence::CorrectedCrds => {
            reveal_strlit("corrected CRDs are installed");
            lemma_provenance_without_corrected_crds();
        },
    }
    assert(i == 0 || i == 1 || i == 2 || i == 3 || i == 4 || i == 5);
}

} // verus!
