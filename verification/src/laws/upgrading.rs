//! Laws of the advice on upgrading: which values it is given for, and what it says.

use crate::text;
use crate::upgrade;
use crate::upgrade::{LegacyDefault, Remediation};
use vstd::prelude::*;

verus! {

/// The command names the object, its namespace and the patch; the template has placeholders for
/// the first two.
pub proof fn law_the_patch_names_its_object(
    entry: LegacyDefault,
    name: &str,
    namespace: &str,
    command: String,
    template: String,
)
    requires
        call_ensures(LegacyDefault::patch_command, (&entry, name, namespace), command),
        call_ensures(LegacyDefault::patch_template, (&entry,), template),
    ensures
        command@ == "kubectl patch "@ + entry.resource@ + " "@ + name@ + " -n "@ + namespace@
            + " --type merge -p '"@ + entry.merge_patch@ + "'"@,
        name@ == "<name>"@ && namespace@ == "<namespace>"@ ==> template@ == command@,
{
}

/// The field is written with the value that it had and with the one that it should have.
pub proof fn law_the_field_is_written_with_its_value(
    entry: LegacyDefault,
    legacy: String,
    supported: String,
)
    requires
        call_ensures(LegacyDefault::legacy_yaml, (&entry,), legacy),
        call_ensures(LegacyDefault::supported_yaml, (&entry,), supported),
    ensures
        legacy@ == entry.field@ + ": "@ + entry.legacy_value@,
        supported@ == entry.field@ + ": "@ + entry.supported_value@,
{
}

/// A key is removed, and the corrected definitions go first, exactly where the remedy is to remove
/// it; a value is a legacy one exactly when it is the one that was persisted.
pub proof fn law_only_a_removal_needs_the_definitions_first(
    entry: LegacyDefault,
    observed: &str,
    removes: bool,
    first: bool,
    legacy: bool,
)
    requires
        call_ensures(LegacyDefault::removes_the_key, (&entry,), removes),
        call_ensures(LegacyDefault::needs_corrected_crds_first, (&entry,), first),
        call_ensures(LegacyDefault::observed_is_legacy, (&entry, observed), legacy),
    ensures
        removes <==> entry.remediation == Remediation::RemoveKey,
        first == removes,
        legacy <==> observed@ == entry.legacy_value@,
{
}

/// Whether a text is another one with something put into it.
pub open spec fn widened(long: Seq<char>, short: Seq<char>, extra: Seq<char>) -> bool {
    exists|at: int|
        0 <= at <= short.len() && #[trigger] short.subrange(0, at) + extra + short.subrange(
            at,
            short.len() as int,
        ) == long
}

/// The remediation names the value to write, the patch that writes it and the guide, whatever the
/// value was. A legacy value is told where it came from on top, and nothing else is different.
pub proof fn law_a_remediation_says_what_to_do(
    entry: LegacyDefault,
    on_legacy: String,
    on_other: String,
    supported: String,
    template: String,
)
    requires
        call_ensures(LegacyDefault::remediation, (&entry, true), on_legacy),
        call_ensures(LegacyDefault::remediation, (&entry, false), on_other),
        call_ensures(LegacyDefault::supported_yaml, (&entry,), supported),
        call_ensures(LegacyDefault::patch_template, (&entry,), template),
    ensures
        text::occurs(on_legacy@, supported@) && text::occurs(on_other@, supported@),
        text::occurs(on_legacy@, template@) && text::occurs(on_other@, template@),
        text::occurs(on_legacy@, "docs/UPGRADING.md"@) && text::occurs(
            on_other@,
            "docs/UPGRADING.md"@,
        ),
        exists|extra: Seq<char>| #[trigger]
            widened(on_legacy@, on_other@, extra) && text::occurs(extra, "v0.3.0"@)
                && text::occurs(extra, entry.kind@),
{
    let view = entry.deep_view();
    upgrade::law_every_remedy_says_what_to_do(view, true);
    upgrade::law_every_remedy_says_what_to_do(view, false);
    upgrade::law_only_the_legacy_value_is_blamed_on_the_upgrade(view);
    let front = " "@ + view.action();
    let extra = view.provenance(true);
    let back = " See "@ + upgrade::UPGRADE_GUIDE@ + upgrade::GUIDE_TAIL@;
    assert(on_other@ =~= front + back);
    assert(on_legacy@ =~= front + extra + back);
    let at = front.len() as int;
    assert(on_other@.subrange(0, at) =~= front);
    assert(on_other@.subrange(at, on_other@.len() as int) =~= back);
    assert(widened(on_legacy@, on_other@, extra));
    let start = upgrade::PROVENANCE_HEAD@ + view.kind;
    text::lemma_end_occurs(upgrade::PROVENANCE_HEAD@, view.kind);
    let rest = extra.subrange(start.len() as int, extra.len() as int);
    assert(extra =~= start + rest);
    text::lemma_occurs_in_longer(start, view.kind, rest);
}

/// The values that were persisted by default and are refused, with what to write in their place.
pub open spec fn is_refused_default(
    field: Seq<char>,
    legacy: Seq<char>,
    supported: Seq<char>,
    patch: Seq<char>,
) -> bool {
    ||| field == "spec.replicas"@ && legacy == "3"@ && supported == "1"@ && patch
        == "{\"spec\":{\"replicas\":1}}"@
    ||| field == "spec.podAntiAffinity"@ && legacy == "true"@ && supported == "false"@ && patch
        == "{\"spec\":{\"podAntiAffinity\":false}}"@
    ||| field == "spec.replicationFactor"@ && legacy == "2"@ && supported == "1"@ && patch
        == "{\"spec\":{\"replicationFactor\":1}}"@
    ||| field == "spec.retention.retentionMs"@ && legacy == "604800000"@ && supported == "-1"@
        && patch == "{\"spec\":{\"retention\":{\"retentionMs\":-1}}}"@
    ||| field == "spec.config.minInsyncReplicas"@ && legacy == "1"@ && supported == "null"@
        && patch == "{\"spec\":{\"config\":{\"minInsyncReplicas\":null}}}"@
    ||| field == "spec.config.maxMessageBytes"@ && legacy == "1048576"@ && supported == "null"@
        && patch == "{\"spec\":{\"config\":{\"maxMessageBytes\":null}}}"@
}

/// Whether a field was persisted with a default that is refused.
pub open spec fn had_a_refused_default(field: Seq<char>) -> bool {
    ||| field == "spec.replicas"@
    ||| field == "spec.podAntiAffinity"@
    ||| field == "spec.replicationFactor"@
    ||| field == "spec.retention.retentionMs"@
    ||| field == "spec.config.minInsyncReplicas"@
    ||| field == "spec.config.maxMessageBytes"@
}

/// An entry is found for a field exactly when the field had a refused default, and it is the entry
/// of that field. A key is removed exactly where there is no value to write.
pub proof fn law_each_refused_default_is_found(field: &str, entry: Option<LegacyDefault>)
    requires
        call_ensures(upgrade::legacy_default, (field,), entry),
    ensures
        entry is Some <==> had_a_refused_default(field@),
        entry is Some ==> {
            &&& entry->0.field@ == field@
            &&& is_refused_default(
                field@,
                entry->0.legacy_value@,
                entry->0.supported_value@,
                entry->0.merge_patch@,
            )
            &&& entry->0.remediation == Remediation::RemoveKey <==> entry->0.supported_value@
                == "null"@
        },
{
    reveal_strlit("null");
    reveal_strlit("1");
    reveal_strlit("-1");
    reveal_strlit("false");
    assert("null"@.len() == 4 && "1"@.len() == 1 && "-1"@.len() == 2 && "false"@.len() == 5);
    let table = upgrade::legacy_table();
    if had_a_refused_default(field@) {
        let i = if field@ == "spec.replicas"@ {
            0int
        } else if field@ == "spec.podAntiAffinity"@ {
            1
        } else if field@ == "spec.replicationFactor"@ {
            2
        } else if field@ == "spec.retention.retentionMs"@ {
            3
        } else if field@ == "spec.config.minInsyncReplicas"@ {
            4
        } else {
            5
        };
        assert(table[i].field == field@);
        upgrade::law_each_entry_is_found_by_its_field(i);
        assert(entry.deep_view() == Some(table[i]));
        assert(entry->0.deep_view() == table[i]);
    } else {
        upgrade::lemma_untabled(field@);
        assert(entry.deep_view() is None);
    }
}

/// The remediation of a field is that of its entry, and empty where it has none; whether the value
/// is a legacy one is decided by the value itself.
pub proof fn law_only_refused_defaults_get_advice(
    field: &str,
    observed: &str,
    entry: LegacyDefault,
    legacy: bool,
    advice: String,
    by_flag: String,
    by_value: String,
)
    requires
        call_ensures(upgrade::remediation_for, (field, legacy), by_flag),
        call_ensures(upgrade::remediation_for_value, (field, observed), by_value),
        had_a_refused_default(field@) ==> call_ensures(
            upgrade::legacy_default,
            (field,),
            Some(entry),
        ),
        had_a_refused_default(field@) ==> call_ensures(
            LegacyDefault::remediation,
            (&entry, legacy),
            advice,
        ),
        had_a_refused_default(field@) ==> (legacy <==> observed@ == entry.legacy_value@),
    ensures
        had_a_refused_default(field@) ==> by_flag@ == advice@ && by_value@ == advice@,
        !had_a_refused_default(field@) ==> by_flag@.len() == 0 && by_value@.len() == 0,
{
    if had_a_refused_default(field@) {
        assert(upgrade::tabled(field@) == Some(entry.deep_view()));
    } else {
        upgrade::lemma_untabled(field@);
    }
}

/// The table holds the six entries, those of clusters first.
pub proof fn law_the_table_holds_every_refused_default(table: Vec<LegacyDefault>, i: int)
    requires
        call_ensures(upgrade::legacy_defaults, (), table),
        0 <= i < 6,
    ensures
        table@.len() == 6,
        is_refused_default(
            table@[i].field@,
            table@[i].legacy_value@,
            table@[i].supported_value@,
            table@[i].merge_patch@,
        ),
        i < 2 ==> table@[i].kind@ == "StreamlineCluster"@ && table@[i].resource@
            == "streamlineclusters"@,
        i >= 2 ==> table@[i].kind@ == "StreamlineTopic"@ && table@[i].resource@
            == "streamlinetopics"@,
        i < 3 ==> table@[i].parent is None,
        i == 3 ==> table@[i].parent is Some && table@[i].parent->0@ == "spec.retention"@,
        i > 3 ==> table@[i].parent is Some && table@[i].parent->0@ == "spec.config"@,
{
    let views = table.deep_view();
    assert(views.len() == table@.len());
    assert(views[i] == table@[i].deep_view());
    assert(views[i].parent == table@[i].parent.deep_view());
}

} // verus!
