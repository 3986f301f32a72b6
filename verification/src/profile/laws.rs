//! What holds of the profiles as a whole.

use vstd::prelude::*;

use crate::agents::{AgentView, BaseCodingAgent};

use super::configs;
use super::configs::{ConfigMap, ConfigsMap};
use super::ProfileIdView;

verus! {

/// Whether two collections hold the same configurations under the same names,
/// up to the approval services that are attached to them.
pub open spec fn same_settings(a: ConfigsMap, b: ConfigsMap) -> bool {
    &&& a.dom() == b.dom()
    &&& forall|executor: BaseCodingAgent| #[trigger]
        a.dom().contains(executor) ==> same_profile(a[executor], b[executor])
}

/// Whether two profiles hold the same configurations under the same names.
pub open spec fn same_profile(a: ConfigMap, b: ConfigMap) -> bool {
    &&& a.dom() == b.dom()
    &&& forall|name: Seq<char>| #[trigger]
        a.dom().contains(name) ==> a[name].detached() == b[name].detached()
}

/// Whether every name is canonical.
pub open spec fn has_canonical_names(configs: ConfigsMap) -> bool {
    forall|executor: BaseCodingAgent, name: Seq<char>|
        configs.dom().contains(executor) && #[trigger] configs[executor].dom().contains(name)
            ==> super::canonical_key(name) == name
}

/// A configuration of the user takes the place of a default one with the same
/// name; where the user has none, the default one stays.
pub proof fn law_overrides_win(
    defaults: ConfigsMap,
    overrides: ConfigsMap,
    executor: BaseCodingAgent,
    name: Seq<char>,
)
    ensures
        configs::lookup(configs::merged(defaults, overrides), executor, name)
            == match configs::lookup(overrides, executor, name) {
            Some(agent) => Some(agent),
            None => configs::lookup(defaults, executor, name),
        },
{
}

/// Putting the overrides that were worked out over the defaults gives the
/// current configurations again.
pub proof fn law_overrides_restore_current(defaults: ConfigsMap, current: ConfigsMap)
    requires
        configs::deletes_nothing(defaults, current),
    ensures
        same_settings(
            configs::merged(defaults, configs::overriding(defaults, current)),
            current,
        ),
{
    let overrides = configs::overriding(defaults, current);
    let together = configs::merged(defaults, overrides);
    assert(together.dom() =~= current.dom()) by {
        assert forall|executor: BaseCodingAgent| #[trigger]
            together.dom().contains(executor) <==> current.dom().contains(executor) by {
            if current.dom().contains(executor) && !defaults.dom().contains(executor) {
                assert(overrides.dom().contains(executor));
            }
        }
    }
    assert forall|executor: BaseCodingAgent| #[trigger]
        together.dom().contains(executor) implies same_profile(
        together[executor],
        current[executor],
    ) by {
        lemma_profile_is_restored(defaults, current, executor);
    }
}

proof fn lemma_profile_is_restored(
    defaults: ConfigsMap,
    current: ConfigsMap,
    executor: BaseCodingAgent,
)
    requires
        configs::deletes_nothing(defaults, current),
        current.dom().contains(executor),
    ensures
        same_profile(
            configs::merged(defaults, configs::overriding(defaults, current))[executor],
            current[executor],
        ),
{
    let overrides = configs::overriding(defaults, current);
    let together = configs::merged(defaults, overrides)[executor];
    let now = current[executor];
    if defaults.dom().contains(executor) {
        let built_in = defaults[executor];
        let changed = configs::differing(built_in, now);
        if !configs::differs(built_in, now) {
            assert(!overrides.dom().contains(executor));
            assert forall|name: Seq<char>| #[trigger]
                now.dom().contains(name) implies built_in.dom().contains(name)
                && built_in[name].detached() == now[name].detached() by {
                assert(!changed.dom().contains(name));
            }
        } else {
            assert(overrides.dom().contains(executor));
            assert(together == built_in.union_prefer_right(changed));
            assert forall|name: Seq<char>| #[trigger]
                now.dom().contains(name) implies together.dom().contains(name)
                && together[name].detached() == now[name].detached() by {
                if !changed.dom().contains(name) {
                    assert(built_in.dom().contains(name));
                }
            }
        }
        assert(together.dom() =~= now.dom());
    } else {
        assert(overrides.dom().contains(executor));
    }
}

/// Configurations that are the defaults need no overrides.
pub proof fn law_defaults_need_no_overrides(defaults: ConfigsMap)
    ensures
        configs::overriding(defaults, defaults).dom() == Set::<BaseCodingAgent>::empty(),
{
    let overrides = configs::overriding(defaults, defaults);
    assert forall|executor: BaseCodingAgent| !(#[trigger] overrides.dom().contains(executor)) by {
        if overrides.dom().contains(executor) {
            let name = choose|name: Seq<char>| #[trigger]
                configs::differing(defaults[executor], defaults[executor]).dom().contains(name);
            assert(configs::differing(defaults[executor], defaults[executor]).dom().contains(name));
        }
    }
    assert(overrides.dom() =~= Set::<BaseCodingAgent>::empty());
}

/// Overrides never make the configurations unusable: where the defaults can be
/// used, so can what comes of them.
pub proof fn law_merging_keeps_validity(defaults: ConfigsMap, overrides: ConfigsMap)
    requires
        configs::is_valid(defaults),
    ensures
        configs::is_valid(configs::merged_if_valid(defaults, overrides)),
{
}

/// Configurations whose names are canonical stay as they are when names are made
/// canonical.
pub proof fn law_canonical_names_stay(raw: ConfigsMap, canonical: ConfigsMap)
    requires
        has_canonical_names(raw),
        configs::all_canonical_form(raw, canonical),
    ensures
        canonical == raw,
{
    assert forall|executor: BaseCodingAgent| #[trigger]
        raw.dom().contains(executor) implies canonical[executor] == raw[executor] by {
        let before = raw[executor];
        let after = canonical[executor];
        assert forall|name: Seq<char>| #[trigger]
            before.dom().contains(name) <==> after.dom().contains(name) by {
            if before.dom().contains(name) {
                assert(super::canonical_key(name) == name);
            }
            if after.dom().contains(name) {
                let from = choose|from: Seq<char>| #[trigger]
                    before.dom().contains(from) && super::canonical_key(from) == name
                        && after[name] == before[from];
                assert(before.dom().contains(from));
                assert(super::canonical_key(from) == from);
            }
        }
        assert forall|name: Seq<char>| #[trigger] before.dom().contains(name) implies after[name]
            == before[name] by {
            assert(super::canonical_key(name) == name);
        }
        assert(after =~= before);
    }
    assert(canonical =~= raw);
}

/// Whether the canonical form of every name is canonical itself.
pub open spec fn has_settled_names(configs: ConfigsMap) -> bool {
    forall|executor: BaseCodingAgent, name: Seq<char>|
        configs.dom().contains(executor) && #[trigger] configs[executor].dom().contains(name)
            ==> super::canonical_key(super::canonical_key(name)) == super::canonical_key(name)
}

/// Whether there is only one way to put some configurations under their
/// canonical names.
pub open spec fn has_one_canonical_form(configs: ConfigsMap) -> bool {
    forall|a: ConfigsMap, b: ConfigsMap| #[trigger]
        configs::all_canonical_form(configs, a) && #[trigger] configs::all_canonical_form(
            configs,
            b,
        ) ==> a == b
}

/// Configurations whose names are canonical have one canonical form.
pub proof fn law_canonical_names_have_one_form(configs: ConfigsMap)
    requires
        has_canonical_names(configs),
    ensures
        has_one_canonical_form(configs),
{
    assert forall|a: ConfigsMap, b: ConfigsMap| #[trigger]
        configs::all_canonical_form(configs, a) && #[trigger] configs::all_canonical_form(
            configs,
            b,
        ) implies a == b by {
        law_canonical_names_stay(configs, a);
        law_canonical_names_stay(configs, b);
    }
}

/// Settled names are canonical once they have been made canonical.
pub proof fn law_settled_names_become_canonical(raw: ConfigsMap, canonical: ConfigsMap)
    requires
        has_settled_names(raw),
        configs::all_canonical_form(raw, canonical),
    ensures
        has_canonical_names(canonical),
{
    assert forall|executor: BaseCodingAgent, name: Seq<char>|
        canonical.dom().contains(executor) && #[trigger] canonical[executor].dom().contains(
            name,
        ) implies super::canonical_key(name) == name by {
        let before = raw[executor];
        assert(configs::is_canonical_form(before, canonical[executor]));
        let from = choose|from: Seq<char>| #[trigger]
            before.dom().contains(from) && super::canonical_key(from) == name
                && canonical[executor][name] == before[from];
        assert(raw[executor].dom().contains(from));
    }
}

/// What was stored of the current configurations is loaded again as they were,
/// under their canonical names.
pub proof fn law_saved_profiles_are_loaded_again(
    defaults: ConfigsMap,
    current: ConfigsMap,
    saved: Result<configs::ExecutorConfigs, super::ProfileError>,
    loaded: ConfigsMap,
)
    requires
        has_one_canonical_form(defaults),
        has_settled_names(current),
        configs::is_save(defaults, current, saved),
        saved is Ok,
        configs::is_load(defaults, saved->Ok_0@, loaded),
    ensures
        exists|canonical: ConfigsMap| #[trigger]
            configs::all_canonical_form(current, canonical) && same_settings(loaded, canonical),
{
    let overrides = saved->Ok_0@;
    let (base, now) = choose|base: ConfigsMap, now: ConfigsMap| #[trigger]
        configs::all_canonical_form(defaults, base) && #[trigger] configs::all_canonical_form(
            current,
            now,
        ) && configs::is_save_result(base, now, saved);
    law_settled_names_become_canonical(current, now);
    assert(has_canonical_names(overrides)) by {
        assert forall|executor: BaseCodingAgent, name: Seq<char>|
            overrides.dom().contains(executor) && #[trigger] overrides[executor].dom().contains(
                name,
            ) implies super::canonical_key(name) == name by {
            assert(now.dom().contains(executor));
            assert(now[executor].dom().contains(name));
        }
    }
    let (built_in, changes) = choose|built_in: ConfigsMap, changes: ConfigsMap| #[trigger]
        configs::all_canonical_form(defaults, built_in) && #[trigger] configs::all_canonical_form(
            overrides,
            changes,
        ) && loaded == configs::merged_if_valid(built_in, changes);
    assert(built_in == base);
    law_canonical_names_stay(overrides, changes);
    law_overrides_restore_current(base, now);
}

/// However the name of a variant is written, the same canonical name gives the
/// same configuration.
pub proof fn law_same_canonical_name_same_configuration(
    configs: ConfigsMap,
    a: ProfileIdView,
    b: ProfileIdView,
)
    requires
        a.executor == b.executor,
        a.key() == b.key(),
    ensures
        configs::resolved(configs, a) == configs::resolved(configs, b),
{
}

/// A variant that is missing falls back to the default configuration of its own
/// agent wherever there is one.
pub proof fn law_missing_variant_falls_back(
    configs: ConfigsMap,
    builtin: ConfigsMap,
    id: ProfileIdView,
)
    requires
        configs::resolved(configs, id) is None,
        configs::lookup(configs, id.executor, "DEFAULT"@) is Some,
    ensures
        configs::resolved_or_default(configs, builtin, id) == configs::lookup(
            configs,
            id.executor,
            "DEFAULT"@,
        ),
{
}

/// Among configurations that can be used, the default one of an agent is one of
/// that agent.
pub proof fn law_default_is_of_its_agent(
    configs: ConfigsMap,
    executor: BaseCodingAgent,
    agent: AgentView,
)
    requires
        configs::is_valid(configs),
        configs::lookup(configs, executor, "DEFAULT"@) == Some(agent),
    ensures
        agent.kind() == executor,
{
}

} // verus!
