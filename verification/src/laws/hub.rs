//! Laws of the operator hub: what can be found, installed, upgraded and removed.

use crate::controllers::operator_hub;
use crate::controllers::operator_hub::{
    HubOperatorView, InstallStatusView, InstalledOperatorView, OperatorCategoryView,
};
use crate::controllers::{
    HubConfig, HubOperator, HubStats, InstalledOperator, IntegrationType, OperatorHub,
};
use crate::text;
use vstd::prelude::*;

verus! {

/// Whether the registry offers an operator of a name as its first.
pub open spec fn offers(
    operators: Seq<HubOperatorView>,
    name: Seq<char>,
    operator: HubOperatorView,
) -> bool {
    exists|i: int|
        0 <= i < operators.len() && #[trigger] operators[i] == operator && operator.name == name
            && forall|j: int| 0 <= j < i ==> (#[trigger] operators[j]).name != name
}

/// Whether the registry knows a name.
pub open spec fn knows(operators: Seq<HubOperatorView>, name: Seq<char>) -> bool {
    exists|i: int| 0 <= i < operators.len() && (#[trigger] operators[i]).name == name
}

/// Whether an operator of a name is installed.
pub open spec fn runs(installed: Seq<InstalledOperatorView>, name: Seq<char>) -> bool {
    exists|i: int| 0 <= i < installed.len() && (#[trigger] installed[i]).name == name
}

proof fn lemma_offers(operators: Seq<HubOperatorView>, name: Seq<char>)
    ensures
        operator_hub::operator_named(operators, name) is Some <==> knows(operators, name),
        operator_hub::operator_named(operators, name) is Some ==> offers(
            operators,
            name,
            operator_hub::operator_named(operators, name)->0,
        ),
        forall|operator: HubOperatorView| #[trigger]
            offers(operators, name, operator) ==> operator_hub::operator_named(operators, name)
                == Some(operator),
{
    let names = operator_hub::operator_names(operators);
    let at = operator_hub::first_at(names, name);
    operator_hub::lemma_first_at(names, name);
    if at < operators.len() {
        assert(names[at] == operators[at].name);
        assert forall|j: int| 0 <= j < at implies (#[trigger] operators[j]).name != name by {
            assert(names[j] == operators[j].name);
        }
        assert(operators[at].name == name);
    } else {
        assert forall|j: int| 0 <= j < operators.len() implies (#[trigger] operators[j]).name
            != name by {
            assert(names[j] == operators[j].name);
        }
    }
    assert forall|operator: HubOperatorView| #[trigger] offers(operators, name, operator) implies
        operator_hub::operator_named(operators, name) == Some(operator) by {
        let i = choose|i: int|
            0 <= i < operators.len() && #[trigger] operators[i] == operator && operator.name == name
                && forall|j: int| 0 <= j < i ==> (#[trigger] operators[j]).name != name;
        assert forall|j: int| 0 <= j < i implies #[trigger] names[j] != name by {
            assert(names[j] == operators[j].name);
        }
        operator_hub::lemma_first_at_is(names, name, i);
    }
}

proof fn lemma_runs(hub: operator_hub::OperatorHubView, name: Seq<char>)
    ensures
        operator_hub::is_installed(hub, name) <==> runs(hub.installed, name),
        ({
            let at = operator_hub::installed_at(hub, name);
            &&& 0 <= at <= hub.installed.len()
            &&& at < hub.installed.len() ==> hub.installed[at].name == name
            &&& forall|j: int| 0 <= j < at ==> (#[trigger] hub.installed[j]).name != name
        }),
{
    let names = operator_hub::installed_names(hub.installed);
    let at = operator_hub::installed_at(hub, name);
    operator_hub::lemma_first_at(names, name);
    if at < hub.installed.len() {
        assert(names[at] == hub.installed[at].name);
    }
    assert forall|j: int| 0 <= j < at implies (#[trigger] hub.installed[j]).name != name by {
        assert(names[j] == hub.installed[j].name);
    }
}

/// An operator is installed exactly when the registry knows it, it is verified where that is
/// asked for, there is room, and it is not installed yet. What is added is its record at the
/// version of the registry, behind the others; nothing else changes. A refusal changes nothing
/// and says which of these is in the way.
pub proof fn law_an_operator_is_installed_once_and_last(
    hub: &mut OperatorHub,
    name: &str,
    now: &str,
    result: core::result::Result<InstalledOperator, String>,
    operator: HubOperatorView,
)
    requires
        call_ensures(OperatorHub::install_at, (hub, name, now), result),
        knows(old(hub)@.operators, name@) ==> offers(old(hub)@.operators, name@, operator),
    ensures
        ({
            let before = old(hub)@;
            let after = final(hub)@;
            let trusted = before.config.require_verified ==> operator.verified;
            let room = before.installed.len() < before.config.max_installed;
            let known = knows(before.operators, name@);
            &&& result is Ok <==> known && trusted && room && !runs(before.installed, name@)
            &&& result matches Ok(record) ==> {
                &&& after.installed == before.installed.push(record.deep_view())
                &&& after.operators == before.operators
                &&& after.config == before.config
                &&& record.name@ == name@
                &&& record.version@ == operator.version
                &&& record.namespace@ == "streamline-system"@
                &&& record.deep_view().status == InstallStatusView::Running
                &&& record.installed_at@ == now@
                &&& record.last_reconcile_at is None
            }
            &&& result matches Err(message) ==> {
                &&& after == before
                &&& !known ==> message@ == "operator '"@ + name@ + "' not found in hub"@
                &&& known && !trusted ==> message@ == "operator '"@ + name@ + "' is not verified"@
                &&& known && trusted && !room ==> message@ == "maximum installed operators ("@
                    + text::decimal(before.config.max_installed as int) + ") reached"@
                &&& known && trusted && room ==> message@ == "operator '"@ + name@
                    + "' is already installed"@
            }
        }),
{
    let before = old(hub)@;
    lemma_offers(before.operators, name@);
    lemma_runs(before, name@);
    match result {
        Ok(record) => {
            let view = record.deep_view();
            assert(view.last_reconcile_at == record.last_reconcile_at.deep_view());
        },
        Err(_) => {},
    }
}

/// An operator is removed exactly when it is installed, and it alone: the others stay as they are
/// and in their order. Nothing of its name is left, as no name is installed twice.
pub proof fn law_only_the_named_operator_is_removed(
    hub: &mut OperatorHub,
    name: &str,
    result: core::result::Result<(), String>,
)
    requires
        call_ensures(OperatorHub::uninstall, (hub, name), result),
        operator_hub::well_formed(old(hub)@),
    ensures
        ({
            let before = old(hub)@;
            let after = final(hub)@;
            &&& result is Ok <==> runs(before.installed, name@)
            &&& result is Ok ==> {
                &&& after.installed.len() + 1 == before.installed.len()
                &&& !runs(after.installed, name@)
                &&& after.operators == before.operators
                &&& after.config == before.config
                &&& exists|at: int|
                    0 <= at < before.installed.len() && #[trigger] before.installed.remove(at)
                        == after.installed && before.installed[at].name == name@
            }
            &&& result matches Err(message) ==> after == before && message@ == "operator '"@
                + name@ + "' is not installed"@
        }),
{
    let before = old(hub)@;
    let after = final(hub)@;
    lemma_runs(before, name@);
    if result is Ok {
        let at = operator_hub::installed_at(before, name@);
        assert(before.installed.remove(at) == after.installed);
        let names = operator_hub::installed_names(before.installed);
        assert forall|i: int| 0 <= i < after.installed.len() implies (
        #[trigger] after.installed[i]).name != name@ by {
            let j = if i < at {
                i
            } else {
                i + 1
            };
            assert(after.installed[i] == before.installed[j]);
            assert(names[j] == before.installed[j].name);
            assert(names[at] == before.installed[at].name);
        }
    }
}

/// An operator is upgraded exactly when it is installed at another version than the registry
/// has. Its record gets that version and the time; the rest of it and all other records stay.
pub proof fn law_an_upgrade_changes_one_record(
    hub: &mut OperatorHub,
    name: &str,
    now: &str,
    result: core::result::Result<InstalledOperator, String>,
    operator: HubOperatorView,
    at: int,
)
    requires
        call_ensures(OperatorHub::upgrade_at, (hub, name, now), result),
        knows(old(hub)@.operators, name@) ==> offers(old(hub)@.operators, name@, operator),
        operator_hub::well_formed(old(hub)@),
        runs(old(hub)@.installed, name@) ==> 0 <= at < old(hub)@.installed.len() && old(
            hub,
        )@.installed[at].name == name@,
    ensures
        ({
            let before = old(hub)@;
            let after = final(hub)@;
            let known = knows(before.operators, name@);
            let there = runs(before.installed, name@);
            &&& result is Ok <==> known && there && before.installed[at].version
                != operator.version
            &&& result matches Ok(record) ==> {
                &&& after.installed == before.installed.update(at, record.deep_view())
                &&& after.operators == before.operators
                &&& after.config == before.config
                &&& record.name@ == name@
                &&& record.version@ == operator.version
                &&& record.namespace@ == before.installed[at].namespace
                &&& record.installed_at@ == before.installed[at].installed_at
                &&& record.deep_view().status == InstallStatusView::Running
                &&& record.deep_view().last_reconcile_at == Some(now@)
            }
            &&& result matches Err(message) ==> {
                &&& after == before
                &&& !known ==> message@ == "operator '"@ + name@ + "' not found in hub"@
                &&& known && !there ==> message@ == "operator '"@ + name@ + "' is not installed"@
                &&& known && there ==> message@ == "operator '"@ + name@
                    + "' is already at latest version "@ + operator.version
            }
        }),
{
    let before = old(hub)@;
    lemma_offers(before.operators, name@);
    lemma_runs(before, name@);
    if runs(before.installed, name@) {
        let place = operator_hub::installed_at(before, name@);
        let names = operator_hub::installed_names(before.installed);
        assert(names[place] == before.installed[place].name);
        assert(names[at] == before.installed[at].name);
        assert(place == at);
    }
    match result {
        Ok(record) => {
            let view = record.deep_view();
        },
        Err(_) => {},
    }
}

/// The hub lists its registry and its installed operators as they are, and tells of the first
/// operator of a name exactly if there is one.
pub proof fn law_the_hub_lists_what_it_holds(
    hub: OperatorHub,
    name: &str,
    available: Vec<HubOperator>,
    installed: Vec<InstalledOperator>,
    info: Option<HubOperator>,
)
    requires
        call_ensures(OperatorHub::list_available, (&hub,), available),
        call_ensures(OperatorHub::get_installed, (&hub,), installed),
        call_ensures(OperatorHub::get_operator_info, (&hub, name), info),
    ensures
        available.deep_view() == hub@.operators,
        installed.deep_view() == hub@.installed,
        info is Some <==> knows(hub@.operators, name@),
        info is Some ==> offers(hub@.operators, name@, info->0.deep_view()),
{
    lemma_offers(hub@.operators, name@);
}

/// A search finds an operator exactly when the query occurs in its name or in its description,
/// whatever the case of either, and finds nothing that the registry does not hold.
pub proof fn law_a_search_finds_names_and_descriptions(
    hub: OperatorHub,
    query: &str,
    results: Vec<HubOperator>,
    operator: HubOperatorView,
)
    requires
        call_ensures(OperatorHub::search, (&hub, query), results),
    ensures
        ({
            let sought = operator_hub::lowered(query@);
            let in_name = text::occurs(operator_hub::lowered(operator.name), sought);
            let in_description = text::occurs(operator_hub::lowered(operator.description), sought);
            results.deep_view().contains(operator) <==> hub@.operators.contains(operator) && (
            in_name || in_description)
        }),
        results@.len() <= hub@.operators.len(),
{
    assert(results.deep_view().len() == results@.len());
    lemma_found(hub@.operators, operator_hub::lowered(query@), operator);
}

proof fn lemma_found(operators: Seq<HubOperatorView>, query: Seq<char>, operator: HubOperatorView)
    ensures
        operator_hub::found(operators, query).contains(operator) <==> operators.contains(operator)
            && operator_hub::found_by(operator, query),
        operator_hub::found(operators, query).len() <= operators.len(),
    decreases operators.len(),
{
    let all = operator_hub::found(operators, query);
    if operators.len() > 0 {
        let front = operators.drop_last();
        let before = operator_hub::found(front, query);
        lemma_found(front, query, operator);
        if operators.contains(operator) {
            let i = choose|i: int| 0 <= i < operators.len() && operators[i] == operator;
            if i < front.len() {
                assert(front[i] == operator);
            }
        }
        if front.contains(operator) {
            let i = choose|i: int| 0 <= i < front.len() && front[i] == operator;
            assert(operators[i] == operator);
        }
        if before.contains(operator) {
            let i = choose|i: int| 0 <= i < before.len() && before[i] == operator;
            assert(all[i] == operator);
        }
        if operators.last() == operator {
            assert(operators[operators.len() - 1] == operator);
            if operator_hub::found_by(operator, query) {
                assert(all[all.len() - 1] == operator);
            }
        }
        if all.contains(operator) {
            let i = choose|i: int| 0 <= i < all.len() && all[i] == operator;
            if i < before.len() {
                assert(before[i] == operator);
            } else {
                assert(operators.last() == operator);
            }
        }
    }
}

/// The query is looked for in both texts.
pub proof fn law_a_query_matches_in_either_text(
    name: &str,
    description: &str,
    query: &str,
    found: bool,
)
    requires
        call_ensures(operator_hub::matches_query, (name, description, query), found),
    ensures
        text::occurs(name@, query@) ==> found,
        text::occurs(description@, query@) ==> found,
        found ==> text::occurs(name@, query@) || text::occurs(description@, query@),
{
}

/// An update is announced for an installed operator exactly when the registry has another version
/// of it, with its name and both versions; nothing else is announced, and the summary counts them.
pub proof fn law_an_update_is_announced_iff_versions_differ(
    hub: OperatorHub,
    available: Vec<(String, String, String)>,
    stats: HubStats,
    i: int,
    k: int,
    operator: HubOperatorView,
)
    requires
        call_ensures(OperatorHub::check_updates, (&hub,), available),
        call_ensures(OperatorHub::stats, (&hub,), stats),
    ensures
        ({
            let all = available.deep_view();
            let record = hub@.installed[i];
            &&& 0 <= i < hub@.installed.len() && offers(hub@.operators, record.name, operator)
                && operator.version != record.version ==> all.contains(
                (record.name, record.version, operator.version),
            )
            &&& 0 <= k < all.len() ==> exists|j: int|
                0 <= j < hub@.installed.len() && (#[trigger] hub@.installed[j]).name == all[k].0
                    && hub@.installed[j].version == all[k].1 && all[k].1 != all[k].2 && exists|
                    o: HubOperatorView,
                | #[trigger]
                    offers(hub@.operators, all[k].0, o) && o.version == all[k].2
            &&& all.len() <= hub@.installed.len()
            &&& stats.updates_available == all.len()
            &&& stats.available_count == hub@.operators.len()
            &&& stats.installed_count == hub@.installed.len()
        }),
{
    let all = available.deep_view();
    assert(all == operator_hub::updates(hub@.operators, hub@.installed));
    operator_hub::law_updates_are_for_installed_operators(hub@.operators, hub@.installed);
    if 0 <= i < hub@.installed.len() {
        lemma_offers(hub@.operators, hub@.installed[i].name);
        lemma_announced(hub@.operators, hub@.installed, i);
    }
    if 0 <= k < all.len() {
        let j = lemma_announced_for(hub@.operators, hub@.installed, k);
        lemma_offers(hub@.operators, hub@.installed[j].name);
    }
}

proof fn lemma_announced(
    operators: Seq<HubOperatorView>,
    installed: Seq<InstalledOperatorView>,
    i: int,
)
    requires
        0 <= i < installed.len(),
    ensures
        operator_hub::outdated(operators, installed[i]) ==> operator_hub::updates(
            operators,
            installed,
        ).contains(
            (
                installed[i].name,
                installed[i].version,
                operator_hub::operator_named(operators, installed[i].name)->0.version,
            ),
        ),
    decreases installed.len(),
{
    let all = operator_hub::updates(operators, installed);
    let front = installed.drop_last();
    let before = operator_hub::updates(operators, front);
    if operator_hub::outdated(operators, installed[i]) {
        let one = (
            installed[i].name,
            installed[i].version,
            operator_hub::operator_named(operators, installed[i].name)->0.version,
        );
        if i < front.len() {
            assert(front[i] == installed[i]);
            lemma_announced(operators, front, i);
            let k = choose|k: int| 0 <= k < before.len() && before[k] == one;
            assert(all[k] == one);
        } else {
            assert(all[all.len() - 1] == one);
        }
    }
}

proof fn lemma_announced_for(
    operators: Seq<HubOperatorView>,
    installed: Seq<InstalledOperatorView>,
    k: int,
) -> (j: int)
    requires
        0 <= k < operator_hub::updates(operators, installed).len(),
    ensures
        0 <= j < installed.len(),
        operator_hub::outdated(operators, installed[j]),
        operator_hub::updates(operators, installed)[k] == (
            installed[j].name,
            installed[j].version,
            operator_hub::operator_named(operators, installed[j].name)->0.version,
        ),
    decreases installed.len(),
{
    let front = installed.drop_last();
    let before = operator_hub::updates(operators, front);
    if k < before.len() {
        let j = lemma_announced_for(operators, front, k);
        assert(front[j] == installed[j]);
        j
    } else {
        installed.len() - 1
    }
}

/// A new hub knows the five bundled operators, each verified and with its own definition, and has
/// none installed.
pub proof fn law_a_new_hub_offers_the_bundled_operators(config: HubConfig, hub: OperatorHub, i: int)
    requires
        call_ensures(OperatorHub::new, (config,), hub),
        0 <= i < 5,
    ensures
        hub@.installed.len() == 0,
        hub@.config == config.deep_view(),
        hub@.operators.len() == 5,
        ({
            let operator = hub@.operators[i];
            &&& operator.author == "streamline"@
            &&& operator.verified
            &&& operator.downloads == 0
            &&& operator.min_k8s_version == "1.26"@
            &&& operator.published_at == "2025-01-01T00:00:00Z"@
            &&& operator.crds == seq![operator.name + "s.streamline.dev"@]
            &&& i == 0 ==> operator.name == "postgresql"@ && operator.version == "5.0.0"@
                && operator.category == OperatorCategoryView::Database
                && operator.streamline_integration == IntegrationType::Source
                && operator.description == "PostgreSQL operator for CDC source integration"@
            &&& i == 1 ==> operator.name == "redis"@ && operator.version == "7.0.0"@
                && operator.category == OperatorCategoryView::Cache
                && operator.streamline_integration == IntegrationType::Sidecar
                && operator.description == "Redis operator for cache-aside streaming patterns"@
            &&& i == 2 ==> operator.name == "elasticsearch"@ && operator.version == "8.0.0"@
                && operator.category == OperatorCategoryView::Storage
                && operator.streamline_integration == IntegrationType::Sink
                && operator.description == "Elasticsearch operator for search sink integration"@
            &&& i == 3 ==> operator.name == "minio"@ && operator.version == "5.0.0"@
                && operator.category == OperatorCategoryView::Storage
                && operator.streamline_integration == IntegrationType::Standalone
                && operator.description == "MinIO operator for S3-compatible tiered storage"@
            &&& i == 4 ==> operator.name == "prometheus"@ && operator.version == "0.70.0"@
                && operator.category == OperatorCategoryView::Monitoring
                && operator.streamline_integration == IntegrationType::Sidecar
                && operator.description == "Prometheus operator for metrics collection"@
        }),
{
    reveal_strlit("postgresql");
    reveal_strlit("redis");
    reveal_strlit("elasticsearch");
    reveal_strlit("minio");
    reveal_strlit("prometheus");
    assert("redis"@[0] == 'r');
    assert("minio"@[0] == 'm');
    assert("elasticsearch"@[0] == 'e');
    assert("postgresql"@[1] == 'o');
    assert("prometheus"@[1] == 'r');
}

} // verus!
