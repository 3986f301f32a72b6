//! The configurations of all agents, and what a user changes of those that are
//! built in.

use vstd::prelude::*;
use vstd::string::*;

use crate::agents;
use crate::agents::{AgentView, AvailabilityInfo, BaseCodingAgent, CodingAgent};
use crate::collections;
use crate::collections::AssocMap;
use crate::text;

use super::{canonical_variant_key, ExecutorConfig, ExecutorProfileId, ProfileError, ProfileIdView};

verus! {

/// The configurations of one agent, by their names.
pub type ConfigMap = Map<Seq<char>, AgentView>;

/// The configurations of all agents.
pub type ConfigsMap = Map<BaseCodingAgent, Map<Seq<char>, AgentView>>;

/// The configurations of all agents.
#[derive(Debug)]
pub struct ExecutorConfigs {
    pub executors: AssocMap<BaseCodingAgent, ExecutorConfig>,
}

impl View for ExecutorConfigs {
    type V = ConfigsMap;

    open spec fn view(&self) -> ConfigsMap {
        self.executors@
    }
}

impl Clone for ExecutorConfigs {
    fn clone(&self) -> (res: Self)
        ensures
            res@ == self@,
    {
        let mut executors: AssocMap<BaseCodingAgent, ExecutorConfig> = AssocMap::new();
        let ghost keys = self.executors.keys();
        let mut i: usize = 0;
        while i < self.executors.len()
            invariant
                i <= keys.len(),
                keys == self.executors.keys(),
                executors@.dom() =~= Set::new(
                    |k: BaseCodingAgent| keys.take(i as int).contains(k),
                ),
                forall|k: BaseCodingAgent| #[trigger]
                    executors@.dom().contains(k) ==> executors@[k] == self@[k],
            decreases keys.len() - i,
        {
            proof {
                collections::lemma_next_key(keys, i as int);
            }
            let executor = *self.executors.key_at(i);
            let profile = self.executors.value_at(i).clone();
            executors.insert(executor, profile);
            i += 1;
        }
        assert(keys.take(i as int) =~= keys);
        assert(executors@ =~= self@);
        ExecutorConfigs { executors }
    }
}

/// Whether the canonical name of a configuration stays in use: no other one had
/// it that goes on to a name of its own.
pub open spec fn keeps_name(raw: ConfigMap, key: Seq<char>) -> bool {
    let name = super::canonical_key(key);
    !raw.dom().contains(name) || super::canonical_key(name) == name
}

/// Whether some configurations are others under their canonical names. Each
/// comes from one whose canonical name it has; one that had a canonical name
/// stays; and the name of each is in use, unless another one that had it goes on
/// to a name of its own.
pub open spec fn is_canonical_form(raw: ConfigMap, canonical: ConfigMap) -> bool {
    &&& forall|key: Seq<char>| #[trigger]
        canonical.dom().contains(key) ==> exists|from: Seq<char>| #[trigger]
            raw.dom().contains(from) && super::canonical_key(from) == key && canonical[key]
                == raw[from]
    &&& forall|key: Seq<char>| #[trigger]
        raw.dom().contains(key) && super::canonical_key(key) == key
            ==> canonical.dom().contains(key) && canonical[key] == raw[key]
    &&& forall|key: Seq<char>| #[trigger]
        raw.dom().contains(key) && keeps_name(raw, key) ==> canonical.dom().contains(
            super::canonical_key(key),
        )
}

/// Whether all configurations are those of others under their canonical names.
pub open spec fn all_canonical_form(raw: ConfigsMap, canonical: ConfigsMap) -> bool {
    &&& canonical.dom() == raw.dom()
    &&& forall|executor: BaseCodingAgent| #[trigger]
        raw.dom().contains(executor) ==> is_canonical_form(raw[executor], canonical[executor])
}

/// The configurations that come of putting overrides over defaults.
pub open spec fn merged(defaults: ConfigsMap, overrides: ConfigsMap) -> ConfigsMap {
    Map::new(
        |executor: BaseCodingAgent|
            defaults.dom().contains(executor) || overrides.dom().contains(executor),
        |executor: BaseCodingAgent|
            if !overrides.dom().contains(executor) {
                defaults[executor]
            } else if !defaults.dom().contains(executor) {
                overrides[executor]
            } else {
                defaults[executor].union_prefer_right(overrides[executor])
            },
    )
}

/// The configurations of an agent that are new or differ from the default ones.
pub open spec fn differing(defaults: ConfigMap, current: ConfigMap) -> ConfigMap {
    Map::new(
        |name: Seq<char>|
            current.dom().contains(name) && !(defaults.dom().contains(name)
                && defaults[name].detached() == current[name].detached()),
        |name: Seq<char>| current[name],
    )
}

/// Whether an agent has a configuration that differs from the default ones.
pub open spec fn differs(defaults: ConfigMap, current: ConfigMap) -> bool {
    exists|name: Seq<char>| #[trigger] differing(defaults, current).dom().contains(name)
}

/// What has to be put over the defaults to get to the current configurations.
pub open spec fn overriding(defaults: ConfigsMap, current: ConfigsMap) -> ConfigsMap {
    Map::new(
        |executor: BaseCodingAgent|
            current.dom().contains(executor) && (defaults.dom().contains(executor) ==> differs(
                defaults[executor],
                current[executor],
            )),
        |executor: BaseCodingAgent|
            if defaults.dom().contains(executor) {
                differing(defaults[executor], current[executor])
            } else {
                current[executor]
            },
    )
}

/// Whether every built-in configuration is still there.
pub open spec fn deletes_nothing(defaults: ConfigsMap, current: ConfigsMap) -> bool {
    &&& forall|executor: BaseCodingAgent| #[trigger]
        defaults.dom().contains(executor) ==> current.dom().contains(executor)
    &&& forall|executor: BaseCodingAgent, name: Seq<char>|
        defaults.dom().contains(executor) && #[trigger] defaults[executor].dom().contains(name)
            ==> current[executor].dom().contains(name)
}

/// Whether an error names something built in that is gone.
pub open spec fn is_deletion(
    defaults: ConfigsMap,
    current: ConfigsMap,
    error: ProfileError,
) -> bool {
    match error {
        ProfileError::CannotDeleteExecutor { executor } => defaults.dom().contains(executor)
            && !current.dom().contains(executor),
        ProfileError::CannotDeleteBuiltInConfig { executor, variant } => {
            &&& defaults.dom().contains(executor)
            &&& current.dom().contains(executor)
            &&& defaults[executor].dom().contains(variant@)
            &&& !current[executor].dom().contains(variant@)
        },
        _ => false,
    }
}

/// Whether the configurations of an agent can be used: there is a default one,
/// of the agent itself, and no name is reserved.
pub open spec fn is_valid_profile(executor: BaseCodingAgent, profile: ConfigMap) -> bool {
    &&& profile.dom().contains("DEFAULT"@)
    &&& profile["DEFAULT"@].kind() == executor
    &&& forall|name: Seq<char>| #[trigger]
        profile.dom().contains(name) ==> !text::begins_with(name, "__"@)
}

/// Whether the configurations of all agents can be used.
pub open spec fn is_valid(configs: ConfigsMap) -> bool {
    forall|executor: BaseCodingAgent| #[trigger]
        configs.dom().contains(executor) ==> is_valid_profile(executor, configs[executor])
}

/// The configurations that come of putting overrides over defaults, or the
/// defaults where those cannot be used.
pub open spec fn merged_if_valid(defaults: ConfigsMap, overrides: ConfigsMap) -> ConfigsMap {
    if is_valid(merged(defaults, overrides)) {
        merged(defaults, overrides)
    } else {
        defaults
    }
}

/// Whether some configurations are what is loaded: overrides over defaults, both
/// under their canonical names.
pub open spec fn is_load(defaults: ConfigsMap, overrides: ConfigsMap, loaded: ConfigsMap) -> bool {
    exists|built_in: ConfigsMap, changes: ConfigsMap| #[trigger]
        all_canonical_form(defaults, built_in) && #[trigger] all_canonical_form(
            overrides,
            changes,
        ) && loaded == merged_if_valid(built_in, changes)
}

/// Whether a text says what is wrong with the configurations of an agent.
pub open spec fn is_problem_of(
    executor: BaseCodingAgent,
    profile: ConfigMap,
    problem: Seq<char>,
) -> bool {
    if !profile.dom().contains("DEFAULT"@) {
        problem == "Executor '"@ + executor.name()
            + "' is missing required 'DEFAULT' configuration"@
    } else if profile["DEFAULT"@].kind() != executor {
        problem == "Executor key '"@ + executor.name() + "' does not match the agent variant '"@
            + profile["DEFAULT"@].kind().name() + "'"@
    } else {
        exists|name: Seq<char>| #[trigger]
            profile.dom().contains(name) && text::begins_with(name, "__"@) && problem
                == "Configuration name '"@ + name + "' is reserved (starts with '__')"@
    }
}

/// Whether an error says what is wrong with some configurations.
pub open spec fn is_problem(configs: ConfigsMap, error: ProfileError) -> bool {
    error matches ProfileError::Validation(problem) && exists|executor: BaseCodingAgent| #[trigger]
        configs.dom().contains(executor) && is_problem_of(executor, configs[executor], problem@)
}

/// The configuration of an agent with the given name.
pub open spec fn lookup(
    configs: ConfigsMap,
    executor: BaseCodingAgent,
    name: Seq<char>,
) -> Option<AgentView> {
    if configs.dom().contains(executor) && configs[executor].dom().contains(name) {
        Some(configs[executor][name])
    } else {
        None
    }
}

/// The configuration that a profile names.
pub open spec fn resolved(configs: ConfigsMap, id: ProfileIdView) -> Option<AgentView> {
    lookup(configs, id.executor, id.key())
}

/// The configuration that is used for a profile: the one it names, or else the
/// default one of its agent, here or built in, or else that of `ClaudeCode`.
pub open spec fn resolved_or_default(
    configs: ConfigsMap,
    builtin: ConfigsMap,
    id: ProfileIdView,
) -> Option<AgentView> {
    match resolved(configs, id) {
        Some(agent) => Some(agent),
        None => match lookup(configs, id.executor, "DEFAULT"@) {
            Some(agent) => Some(agent),
            None => match lookup(builtin, id.executor, "DEFAULT"@) {
                Some(agent) => Some(agent),
                None => lookup(builtin, BaseCodingAgent::ClaudeCode, "DEFAULT"@),
            },
        },
    }
}

/// Whether a result of storing is as it should be, for defaults and current
/// configurations under their canonical names.
pub open spec fn is_save_result(
    defaults: ConfigsMap,
    current: ConfigsMap,
    res: Result<ExecutorConfigs, ProfileError>,
) -> bool {
    if !deletes_nothing(defaults, current) {
        res matches Err(error) && is_deletion(defaults, current, error)
    } else if !is_valid(merged(defaults, overriding(defaults, current))) {
        res matches Err(error) && is_problem(
            merged(defaults, overriding(defaults, current)),
            error,
        )
    } else {
        res matches Ok(overrides) && overrides@ == overriding(defaults, current)
    }
}

/// Whether a result of storing is as it should be: defaults and current
/// configurations are put under their canonical names first.
pub open spec fn is_save(
    defaults: ConfigsMap,
    current: ConfigsMap,
    res: Result<ExecutorConfigs, ProfileError>,
) -> bool {
    exists|built_in: ConfigsMap, now: ConfigsMap| #[trigger]
        all_canonical_form(defaults, built_in) && #[trigger] all_canonical_form(current, now)
            && is_save_result(built_in, now, res)
}

/// What a probe found of an agent.
pub open spec fn probed(
    probes: Seq<(BaseCodingAgent, AvailabilityInfo)>,
    agent: BaseCodingAgent,
) -> Option<AvailabilityInfo>
    decreases probes.len(),
{
    if probes.len() == 0 {
        None
    } else if probes[0].0 == agent {
        Some(probes[0].1)
    } else {
        probed(probes.drop_first(), agent)
    }
}

/// Whether an agent can be recommended: it has a default configuration, and it
/// is available.
pub open spec fn is_candidate(
    configs: ConfigsMap,
    probes: Seq<(BaseCodingAgent, AvailabilityInfo)>,
    agent: BaseCodingAgent,
) -> bool {
    &&& lookup(configs, agent, "DEFAULT"@) is Some
    &&& probed(probes, agent) matches Some(info) && info != AvailabilityInfo::NotFound
}

/// Whether there is an agent that can be recommended at all.
pub open spec fn has_candidate(
    configs: ConfigsMap,
    probes: Seq<(BaseCodingAgent, AvailabilityInfo)>,
) -> bool {
    exists|agent: BaseCodingAgent| #[trigger] is_candidate(configs, probes, agent)
}

/// Whether one agent is recommended rather than another one: a login counts more
/// than an installation, a later login more than an earlier one, and in the end
/// the names decide.
pub open spec fn ranks_before(
    a: BaseCodingAgent,
    a_info: AvailabilityInfo,
    b: BaseCodingAgent,
    b_info: AvailabilityInfo,
) -> bool {
    match (a_info, b_info) {
        (
            AvailabilityInfo::LoginDetected { last_auth_timestamp: a_time },
            AvailabilityInfo::LoginDetected { last_auth_timestamp: b_time },
        ) => a_time > b_time || (a_time == b_time && text::precedes(a.name(), b.name())),
        (AvailabilityInfo::LoginDetected { .. }, _) => true,
        (_, AvailabilityInfo::LoginDetected { .. }) => false,
        (AvailabilityInfo::InstallationFound, AvailabilityInfo::NotFound) => true,
        (AvailabilityInfo::NotFound, AvailabilityInfo::InstallationFound) => false,
        _ => text::precedes(a.name(), b.name()),
    }
}

/// Whether an agent is the one to recommend.
pub open spec fn is_best(
    configs: ConfigsMap,
    probes: Seq<(BaseCodingAgent, AvailabilityInfo)>,
    agent: BaseCodingAgent,
) -> bool {
    &&& is_candidate(configs, probes, agent)
    &&& forall|other: BaseCodingAgent| #[trigger]
        is_candidate(configs, probes, other) && other != agent ==> ranks_before(
            agent,
            probed(probes, agent)->0,
            other,
            probed(probes, other)->0,
        )
}

fn ranks_higher(
    a: BaseCodingAgent,
    a_info: &AvailabilityInfo,
    b: BaseCodingAgent,
    b_info: &AvailabilityInfo,
) -> (res: bool)
    ensures
        res == ranks_before(a, *a_info, b, *b_info),
{
    match (a_info, b_info) {
        (
            AvailabilityInfo::LoginDetected { last_auth_timestamp: a_time },
            AvailabilityInfo::LoginDetected { last_auth_timestamp: b_time },
        ) => *a_time > *b_time || (*a_time == *b_time && text::is_before(
            a.as_str(),
            b.as_str(),
        )),
        (AvailabilityInfo::LoginDetected { .. }, _) => true,
        (_, AvailabilityInfo::LoginDetected { .. }) => false,
        (AvailabilityInfo::InstallationFound, AvailabilityInfo::NotFound) => true,
        (AvailabilityInfo::NotFound, AvailabilityInfo::InstallationFound) => false,
        _ => text::is_before(a.as_str(), b.as_str()),
    }
}

fn find_probe(probes: &Vec<(BaseCodingAgent, AvailabilityInfo)>, agent: BaseCodingAgent) -> (res:
    Option<AvailabilityInfo>)
    ensures
        res == probed(probes@, agent),
{
    let mut i: usize = 0;
    assert(probes@.skip(0) =~= probes@);
    while i < probes.len()
        invariant
            i <= probes@.len(),
            probed(probes@, agent) == probed(probes@.skip(i as int), agent),
        decreases probes.len() - i,
    {
        if probes[i].0 == agent {
            return Some(probes[i].1);
        }
        assert(probes@.skip(i as int).drop_first() =~= probes@.skip(i + 1));
        i += 1;
    }
    None
}

/// Of two different agents, exactly one ranks before the other.
pub proof fn law_agents_are_ranked(
    a: BaseCodingAgent,
    a_info: AvailabilityInfo,
    b: BaseCodingAgent,
    b_info: AvailabilityInfo,
)
    requires
        a != b,
    ensures
        ranks_before(a, a_info, b, b_info) != ranks_before(b, b_info, a, a_info),
{
    agents::law_name_stands_for_its_agent(a);
    agents::law_name_stands_for_its_agent(b);
    text::law_texts_are_ordered(a.name(), b.name());
}

/// The ranks of agents are transitive.
pub proof fn law_ranks_are_transitive(
    a: BaseCodingAgent,
    a_info: AvailabilityInfo,
    b: BaseCodingAgent,
    b_info: AvailabilityInfo,
    c: BaseCodingAgent,
    c_info: AvailabilityInfo,
)
    requires
        ranks_before(a, a_info, b, b_info),
        ranks_before(b, b_info, c, c_info),
    ensures
        ranks_before(a, a_info, c, c_info),
{
    if text::precedes(a.name(), b.name()) && text::precedes(b.name(), c.name()) {
        text::law_text_order_is_transitive(a.name(), b.name(), c.name());
    }
}

/// There is at most one agent to recommend, in whatever order the probes and the
/// configurations come.
pub proof fn law_recommendation_is_unique(
    configs: ConfigsMap,
    probes: Seq<(BaseCodingAgent, AvailabilityInfo)>,
    a: BaseCodingAgent,
    b: BaseCodingAgent,
)
    requires
        is_best(configs, probes, a),
        is_best(configs, probes, b),
    ensures
        a == b,
{
    if a != b {
        law_agents_are_ranked(a, probed(probes, a)->0, b, probed(probes, b)->0);
    }
}

fn canonicalise_profile(profile: &mut ExecutorConfig)
    ensures
        is_canonical_form(old(profile)@, final(profile)@),
{
    let ghost raw = profile@;
    let ghost keys = profile.configurations.keys();
    let count = profile.configurations.len();
    let mut names: Vec<String> = Vec::new();
    let mut i: usize = 0;
    while i < count
        invariant
            i <= count,
            count == keys.len(),
            keys == profile.configurations.keys(),
            names@.len() == i,
            forall|j: int| 0 <= j < i ==> (#[trigger] names@[j])@ == keys[j],
        decreases count - i,
    {
        names.push(profile.configurations.key_at(i).clone());
        i += 1;
    }
    assert forall|key: Seq<char>| #[trigger] raw.dom().contains(key) <==> keys.contains(key) by {}
    let mut n: usize = 0;
    assert(keys.skip(0) =~= keys);
    while n < names.len()
        invariant
            n <= names@.len(),
            names@.len() == keys.len(),
            keys.no_duplicates(),
            forall|j: int| 0 <= j < keys.len() ==> (#[trigger] names@[j])@ == keys[j],
            forall|key: Seq<char>| #[trigger] raw.dom().contains(key) <==> keys.contains(key),
            forall|j: int|
                n <= j < keys.len() ==> profile@.dom().contains(#[trigger] keys[j])
                    && profile@[keys[j]] == raw[keys[j]],
            forall|key: Seq<char>| #[trigger]
                raw.dom().contains(key) && super::canonical_key(key) == key
                    ==> profile@.dom().contains(key) && profile@[key] == raw[key],
            forall|key: Seq<char>| #[trigger]
                profile@.dom().contains(key) ==> keys.skip(n as int).contains(key) || (
                exists|from: Seq<char>| #[trigger]
                    raw.dom().contains(from) && super::canonical_key(from) == key && profile@[key]
                        == raw[from]),
            forall|j: int|
                0 <= j < n && keeps_name(raw, #[trigger] keys[j]) ==> profile@.dom().contains(
                    super::canonical_key(keys[j]),
                ),
        decreases names.len() - n,
    {
        let ghost name = keys[n as int];
        let ghost before = profile@;
        assert(names@[n as int]@ == name);
        assert(keys.contains(name));
        assert(raw.dom().contains(name));
        let canonical = canonical_variant_key(names[n].as_str());
        if !canonical.eq(&names[n]) {
            profile.rename(&names[n], canonical);
        }
        proof {
            assert forall|j: int| n + 1 <= j < keys.len() implies profile@.dom().contains(
                #[trigger] keys[j],
            ) && profile@[keys[j]] == raw[keys[j]] by {
                assert(keys[j] != name);
            }
            assert forall|key: Seq<char>| #[trigger] profile@.dom().contains(key) implies keys.skip(
                n + 1,
            ).contains(key) || (exists|from: Seq<char>| #[trigger]
                raw.dom().contains(from) && super::canonical_key(from) == key && profile@[key]
                    == raw[from]) by {
                if before.dom().contains(key) && key != name {
                    if keys.skip(n as int).contains(key) {
                        let at = keys.skip(n as int).index_of(key);
                        assert(at > 0);
                        assert(keys.skip(n + 1)[at - 1] == key);
                    }
                } else if key == name && super::canonical_key(name) == name {
                    assert(raw.dom().contains(name));
                } else {
                    assert(raw.dom().contains(name) && super::canonical_key(name) == key);
                }
            }
        }
        n += 1;
    }
    assert(keys.skip(n as int) =~= Seq::empty());
    assert forall|key: Seq<char>| #[trigger]
        raw.dom().contains(key) && keeps_name(raw, key) implies profile@.dom().contains(
        super::canonical_key(key),
    ) by {
        let at = keys.index_of(key);
        assert(keys[at] == key);
    }
}

fn merge_profile(defaults: &mut ExecutorConfig, overrides: &ExecutorConfig)
    ensures
        final(defaults)@ == old(defaults)@.union_prefer_right(overrides@),
{
    let ghost start = defaults@;
    let ghost keys = overrides.configurations.keys();
    let mut i: usize = 0;
    while i < overrides.configurations.len()
        invariant
            i <= keys.len(),
            keys == overrides.configurations.keys(),
            forall|k: Seq<char>| #[trigger]
                defaults@.dom().contains(k) <==> start.dom().contains(k) || keys.take(
                    i as int,
                ).contains(k),
            forall|k: Seq<char>| #[trigger]
                defaults@.dom().contains(k) ==> defaults@[k] == if keys.take(i as int).contains(
                    k,
                ) {
                    overrides@[k]
                } else {
                    start[k]
                },
        decreases keys.len() - i,
    {
        proof {
            collections::lemma_next_key(keys, i as int);
        }
        let ghost before = defaults@;
        let name = overrides.configurations.key_at(i).clone();
        let agent = overrides.configurations.value_at(i).clone();
        let ghost next = keys.take(i + 1);
        defaults.configurations.insert(name, agent);
        assert(defaults@ == before.insert(name@, agent@));
        assert forall|k: Seq<char>| #[trigger] defaults@.dom().contains(k) <==> start.dom().contains(
            k,
        ) || next.contains(k) by {
            assert(before.dom().contains(k) || !before.dom().contains(k));
        }
        assert forall|k: Seq<char>| #[trigger] defaults@.dom().contains(k) implies defaults@[k]
            == if next.contains(k) {
            overrides@[k]
        } else {
            start[k]
        } by {
            assert(before.dom().contains(k) || k == name@);
        }
        i += 1;
    }
    assert(keys.take(i as int) =~= keys);
    assert(defaults@ =~= start.union_prefer_right(overrides@));
}

fn differing_configurations(defaults: &ExecutorConfig, current: &ExecutorConfig) -> (res:
    ExecutorConfig)
    ensures
        res@ == differing(defaults@, current@),
{
    let mut configurations: AssocMap<String, CodingAgent> = AssocMap::new();
    let ghost keys = current.configurations.keys();
    let ghost wanted = differing(defaults@, current@);
    let mut i: usize = 0;
    while i < current.configurations.len()
        invariant
            i <= keys.len(),
            keys == current.configurations.keys(),
            wanted == differing(defaults@, current@),
            forall|k: Seq<char>| #[trigger]
                configurations@.dom().contains(k) <==> wanted.dom().contains(k) && keys.take(
                    i as int,
                ).contains(k),
            forall|k: Seq<char>| #[trigger]
                configurations@.dom().contains(k) ==> configurations@[k] == current@[k],
        decreases keys.len() - i,
    {
        proof {
            collections::lemma_next_key(keys, i as int);
        }
        let name = current.configurations.key_at(i);
        let agent = current.configurations.value_at(i);
        let changed = match defaults.configurations.get(name) {
            Some(default_agent) => !agent.same_as(default_agent),
            None => true,
        };
        if changed {
            configurations.insert(name.clone(), agent.clone());
        }
        i += 1;
    }
    assert(keys.take(i as int) =~= keys);
    assert(configurations@ =~= wanted);
    ExecutorConfig { configurations }
}

fn find_deleted(defaults: &ExecutorConfig, current: &ExecutorConfig) -> (res: Option<String>)
    ensures
        match res {
            Some(name) => defaults@.dom().contains(name@) && !current@.dom().contains(name@),
            None => forall|name: Seq<char>| #[trigger]
                defaults@.dom().contains(name) ==> current@.dom().contains(name),
        },
{
    let ghost keys = defaults.configurations.keys();
    let mut i: usize = 0;
    while i < defaults.configurations.len()
        invariant
            i <= keys.len(),
            keys == defaults.configurations.keys(),
            forall|j: int| 0 <= j < i ==> current@.dom().contains(#[trigger] keys[j]),
        decreases keys.len() - i,
    {
        let name = defaults.configurations.key_at(i);
        if !current.configurations.contains_key(name) {
            return Some(name.clone());
        }
        i += 1;
    }
    assert forall|name: Seq<char>| #[trigger]
        defaults@.dom().contains(name) implies current@.dom().contains(name) by {
        let at = keys.index_of(name);
        assert(keys[at] == name);
    }
    None
}

fn find_problem(executor: BaseCodingAgent, profile: &ExecutorConfig) -> (res: Option<String>)
    ensures
        match res {
            Some(problem) => !is_valid_profile(executor, profile@) && is_problem_of(
                executor,
                profile@,
                problem@,
            ),
            None => is_valid_profile(executor, profile@),
        },
{
    let default_agent = match profile.get_default() {
        Some(agent) => agent,
        None => {
            return Some(
                text::concat3(
                    "Executor '",
                    executor.as_str(),
                    "' is missing required 'DEFAULT' configuration",
                ),
            );
        },
    };
    let kind = default_agent.base();
    if kind != executor {
        let start = text::concat3(
            "Executor key '",
            executor.as_str(),
            "' does not match the agent variant '",
        );
        return Some(text::concat3(start.as_str(), kind.as_str(), "'"));
    }
    let ghost keys = profile.configurations.keys();
    let mut i: usize = 0;
    while i < profile.configurations.len()
        invariant
            i <= keys.len(),
            keys == profile.configurations.keys(),
            profile@.dom().contains("DEFAULT"@),
            profile@["DEFAULT"@].kind() == executor,
            forall|j: int| 0 <= j < i ==> !text::begins_with(#[trigger] keys[j], "__"@),
        decreases keys.len() - i,
    {
        let name = profile.configurations.key_at(i);
        if text::starts_with(name.as_str(), "__") {
            assert(profile@.dom().contains(name@));
            return Some(
                text::concat3(
                    "Configuration name '",
                    name.as_str(),
                    "' is reserved (starts with '__')",
                ),
            );
        }
        i += 1;
    }
    assert forall|name: Seq<char>| #[trigger]
        profile@.dom().contains(name) implies !text::begins_with(name, "__"@) by {
        let at = keys.index_of(name);
        assert(keys[at] == name);
    }
    None
}

impl ExecutorConfigs {
    /// Puts every configuration under its canonical name.
    pub fn canonicalise(&mut self)
        ensures
            all_canonical_form(old(self)@, final(self)@),
    {
        let ghost raw = self@;
        let ghost keys = self.executors.keys();
        let count = self.executors.len();
        let mut executors: AssocMap<BaseCodingAgent, ExecutorConfig> = AssocMap::new();
        let mut i: usize = 0;
        while i < count
            invariant
                i <= count,
                count == keys.len(),
                keys == self.executors.keys(),
                raw == self@,
                forall|k: BaseCodingAgent| #[trigger]
                    executors@.dom().contains(k) <==> keys.take(i as int).contains(k),
                forall|k: BaseCodingAgent| #[trigger]
                    executors@.dom().contains(k) ==> is_canonical_form(raw[k], executors@[k]),
            decreases count - i,
        {
            proof {
                collections::lemma_next_key(keys, i as int);
            }
            let executor = *self.executors.key_at(i);
            let mut profile = self.executors.value_at(i).clone();
            canonicalise_profile(&mut profile);
            executors.insert(executor, profile);
            i += 1;
        }
        assert(keys.take(i as int) =~= keys);
        assert(executors@.dom() =~= raw.dom());
        self.executors = executors;
    }

    /// Puts overrides over defaults.
    pub fn merge_with_defaults(defaults: Self, overrides: Self) -> (res: Self)
        ensures
            res@ == merged(defaults@, overrides@),
    {
        let ghost start = defaults@;
        let ghost keys = overrides.executors.keys();
        let ghost wanted = merged(defaults@, overrides@);
        let mut executors = defaults.executors;
        let count = overrides.executors.len();
        let mut i: usize = 0;
        while i < count
            invariant
                i <= count,
                count == keys.len(),
                keys == overrides.executors.keys(),
                wanted == merged(start, overrides@),
                forall|k: BaseCodingAgent| #[trigger]
                    executors@.dom().contains(k) <==> start.dom().contains(k) || keys.take(
                        i as int,
                    ).contains(k),
                forall|k: BaseCodingAgent| #[trigger]
                    executors@.dom().contains(k) ==> executors@[k] == if keys.take(
                        i as int,
                    ).contains(k) {
                        wanted[k]
                    } else {
                        start[k]
                    },
                keys.no_duplicates(),
            decreases keys.len() - i,
        {
            proof {
                collections::lemma_next_key(keys, i as int);
            }
            let executor = *overrides.executors.key_at(i);
            assert(!keys.take(i as int).contains(executor)) by {
                if keys.take(i as int).contains(executor) {
                    let at = keys.take(i as int).index_of(executor);
                    assert(keys[at] == keys[i as int]);
                }
            }
            let profile = overrides.executors.value_at(i);
            match executors.remove(&executor) {
                Some(mut default_profile) => {
                    merge_profile(&mut default_profile, profile);
                    executors.insert(executor, default_profile);
                },
                None => {
                    executors.insert(executor, profile.clone());
                },
            }
            i += 1;
        }
        assert(keys.take(i as int) =~= keys);
        assert(executors@ =~= wanted);
        ExecutorConfigs { executors }
    }

    /// Puts overrides over defaults. Where the result cannot be used, the
    /// defaults stay.
    pub fn merge_with_defaults_validated(defaults: Self, overrides: Self) -> (res: Self)
        ensures
            res@ == merged_if_valid(defaults@, overrides@),
    {
        let merged_configs = Self::merge_with_defaults(defaults.clone(), overrides);
        match Self::validate_merged(&merged_configs) {
            Ok(_) => merged_configs,
            Err(_) => defaults,
        }
    }

    /// What has to be put over the defaults to get to the current
    /// configurations. Nothing that is built in may be gone.
    pub fn compute_overrides(defaults: &Self, current: &Self) -> (res: Result<Self, ProfileError>)
        ensures
            match res {
                Ok(overrides) => deletes_nothing(defaults@, current@) && overrides@ == overriding(
                    defaults@,
                    current@,
                ),
                Err(error) => !deletes_nothing(defaults@, current@) && is_deletion(
                    defaults@,
                    current@,
                    error,
                ),
            },
    {
        let ghost default_keys = defaults.executors.keys();
        let mut i: usize = 0;
        while i < defaults.executors.len()
            invariant
                i <= default_keys.len(),
                default_keys == defaults.executors.keys(),
                forall|j: int|
                    0 <= j < i ==> current@.dom().contains(#[trigger] default_keys[j]) && forall|
                        name: Seq<char>,
                    | #[trigger]
                        defaults@[default_keys[j]].dom().contains(name)
                            ==> current@[default_keys[j]].dom().contains(name),
            decreases default_keys.len() - i,
        {
            let executor = *defaults.executors.key_at(i);
            let default_profile = defaults.executors.value_at(i);
            match current.executors.get(&executor) {
                None => {
                    return Err(ProfileError::CannotDeleteExecutor { executor });
                },
                Some(current_profile) => {
                    if let Some(variant) = find_deleted(default_profile, current_profile) {
                        assert(defaults@[executor].dom().contains(variant@));
                        return Err(
                            ProfileError::CannotDeleteBuiltInConfig { executor, variant },
                        );
                    }
                },
            }
            i += 1;
        }
        assert forall|executor: BaseCodingAgent| #[trigger]
            defaults@.dom().contains(executor) implies current@.dom().contains(executor) && forall|
            name: Seq<char>,
        | #[trigger]
            defaults@[executor].dom().contains(name) ==> current@[executor].dom().contains(
                name,
            ) by {
            let at = default_keys.index_of(executor);
            assert(default_keys[at] == executor);
        }
        assert(deletes_nothing(defaults@, current@));

        let ghost keys = current.executors.keys();
        let ghost wanted = overriding(defaults@, current@);
        let mut executors: AssocMap<BaseCodingAgent, ExecutorConfig> = AssocMap::new();
        let mut n: usize = 0;
        while n < current.executors.len()
            invariant
                n <= keys.len(),
                keys == current.executors.keys(),
                wanted == overriding(defaults@, current@),
                forall|k: BaseCodingAgent| #[trigger]
                    executors@.dom().contains(k) <==> wanted.dom().contains(k) && keys.take(
                        n as int,
                    ).contains(k),
                forall|k: BaseCodingAgent| #[trigger]
                    executors@.dom().contains(k) ==> executors@[k] == wanted[k],
            decreases keys.len() - n,
        {
            proof {
                collections::lemma_next_key(keys, n as int);
            }
            let executor = *current.executors.key_at(n);
            let current_profile = current.executors.value_at(n);
            match defaults.executors.get(&executor) {
                Some(default_profile) => {
                    let changed = differing_configurations(default_profile, current_profile);
                    if changed.configurations.len() > 0 {
                        let first = changed.configurations.key_at(0);
                        assert(differing(defaults@[executor], current@[executor]).dom().contains(
                            first@,
                        ));
                        executors.insert(executor, changed);
                    } else {
                        assert forall|name: Seq<char>| !(#[trigger] differing(
                            defaults@[executor],
                            current@[executor],
                        ).dom().contains(name)) by {}
                    }
                },
                None => {
                    executors.insert(executor, current_profile.clone());
                },
            }
            n += 1;
        }
        assert(keys.take(n as int) =~= keys);
        assert(executors@ =~= wanted);
        Ok(ExecutorConfigs { executors })
    }

    /// Whether configurations can be used.
    pub fn validate_merged(configs: &Self) -> (res: Result<(), ProfileError>)
        ensures
            match res {
                Ok(_) => is_valid(configs@),
                Err(error) => !is_valid(configs@) && is_problem(configs@, error),
            },
    {
        let ghost keys = configs.executors.keys();
        let mut i: usize = 0;
        while i < configs.executors.len()
            invariant
                i <= keys.len(),
                keys == configs.executors.keys(),
                forall|j: int|
                    0 <= j < i ==> is_valid_profile(#[trigger] keys[j], configs@[keys[j]]),
            decreases keys.len() - i,
        {
            let executor = *configs.executors.key_at(i);
            if let Some(problem) = find_problem(executor, configs.executors.value_at(i)) {
                assert(configs@.dom().contains(executor));
                return Err(ProfileError::Validation(problem));
            }
            i += 1;
        }
        assert forall|executor: BaseCodingAgent| #[trigger]
            configs@.dom().contains(executor) implies is_valid_profile(
            executor,
            configs@[executor],
        ) by {
            let at = keys.index_of(executor);
            assert(keys[at] == executor);
        }
        Ok(())
    }

    /// The configurations that are used: the defaults, with those of the user
    /// over them where there are any that can be read and used.
    pub fn load(defaults: Self, user_overrides: Option<Self>) -> (res: Self)
        ensures
            match user_overrides {
                None => all_canonical_form(defaults@, res@),
                Some(overrides) => is_load(defaults@, overrides@, res@),
            },
    {
        let mut defaults_now = defaults;
        defaults_now.canonicalise();
        match user_overrides {
            None => defaults_now,
            Some(overrides) => {
                let mut overrides_now = overrides;
                overrides_now.canonicalise();
                assert(all_canonical_form(defaults@, defaults_now@));
                assert(all_canonical_form(overrides@, overrides_now@));
                Self::merge_with_defaults_validated(defaults_now, overrides_now)
            },
        }
    }

    /// What is to be stored of the current configurations: only what differs
    /// from the defaults.
    pub fn save_overrides(&self, defaults: &Self) -> (res: Result<Self, ProfileError>)
        ensures
            is_save(defaults@, self@, res),
    {
        let mut built_in = defaults.clone();
        built_in.canonicalise();
        let mut current = self.clone();
        current.canonicalise();
        assert(all_canonical_form(defaults@, built_in@));
        assert(all_canonical_form(self@, current@));
        let overrides = match Self::compute_overrides(&built_in, &current) {
            Ok(overrides) => overrides,
            Err(error) => {
                assert(is_save_result(built_in@, current@, Err(error)));
                return Err(error);
            },
        };
        let ghost base = built_in@;
        let together = Self::merge_with_defaults(built_in, overrides.clone());
        match Self::validate_merged(&together) {
            Ok(_) => {
                assert(is_save_result(base, current@, Ok(overrides)));
                Ok(overrides)
            },
            Err(error) => {
                assert(is_save_result(base, current@, Err(error)));
                Err(error)
            },
        }
    }

    /// The configuration of an agent with the given name.
    pub fn find_agent(&self, executor: BaseCodingAgent, name: &str) -> (res: Option<CodingAgent>)
        ensures
            match res {
                Some(agent) => lookup(self@, executor, name@) == Some(agent@),
                None => lookup(self@, executor, name@) is None,
            },
    {
        match self.executors.get(&executor) {
            Some(profile) => match profile.get_variant(name) {
                Some(agent) => Some(agent.clone()),
                None => None,
            },
            None => None,
        }
    }

    /// The configuration that a profile names. Its variant may be written in any
    /// letter case.
    pub fn get_coding_agent(&self, executor_profile_id: &ExecutorProfileId) -> (res: Option<
        CodingAgent,
    >)
        ensures
            match res {
                Some(agent) => resolved(self@, executor_profile_id@) == Some(agent@),
                None => resolved(self@, executor_profile_id@) is None,
            },
    {
        let key = executor_profile_id.variant_key();
        self.find_agent(executor_profile_id.executor, key.as_str())
    }

    /// The configuration that is used for a profile, which there always is.
    pub fn get_coding_agent_or_default(
        &self,
        executor_profile_id: &ExecutorProfileId,
        builtin: &Self,
    ) -> (res: CodingAgent)
        requires
            lookup(builtin@, BaseCodingAgent::ClaudeCode, "DEFAULT"@) is Some,
        ensures
            resolved_or_default(self@, builtin@, executor_profile_id@) == Some(res@),
    {
        if let Some(agent) = self.get_coding_agent(executor_profile_id) {
            return agent;
        }
        let executor = executor_profile_id.executor;
        if let Some(agent) = self.find_agent(executor, "DEFAULT") {
            return agent;
        }
        if let Some(agent) = builtin.find_agent(executor, "DEFAULT") {
            return agent;
        }
        builtin.find_agent(BaseCodingAgent::ClaudeCode, "DEFAULT").unwrap()
    }

    /// The profile to recommend, from what probes of the agents found.
    pub fn get_recommended_executor_profile(
        &self,
        probes: &Vec<(BaseCodingAgent, AvailabilityInfo)>,
    ) -> (res: Result<ExecutorProfileId, ProfileError>)
        ensures
            match res {
                Ok(id) => id@.variant is None && is_best(self@, probes@, id.executor),
                Err(error) => error == ProfileError::NoAvailableExecutorProfile && forall|
                    agent: BaseCodingAgent,
                | !(#[trigger] is_candidate(self@, probes@, agent)),
            },
            res is Ok <==> has_candidate(self@, probes@),
    {
        let ghost keys = self.executors.keys();
        let count = self.executors.len();
        let mut best: Option<(BaseCodingAgent, AvailabilityInfo)> = None;
        let mut i: usize = 0;
        while i < count
            invariant
                i <= count,
                count == keys.len(),
                keys == self.executors.keys(),
                keys.no_duplicates(),
                match best {
                    Some((agent, info)) => {
                        &&& is_candidate(self@, probes@, agent)
                        &&& probed(probes@, agent) == Some(info)
                        &&& keys.take(i as int).contains(agent)
                        &&& forall|j: int|
                            0 <= j < i && is_candidate(self@, probes@, #[trigger] keys[j])
                                && keys[j] != agent ==> ranks_before(
                                agent,
                                info,
                                keys[j],
                                probed(probes@, keys[j])->0,
                            )
                    },
                    None => forall|j: int|
                        0 <= j < i ==> !is_candidate(self@, probes@, #[trigger] keys[j]),
                },
            decreases count - i,
        {
            proof {
                collections::lemma_next_key(keys, i as int);
            }
            let agent = *self.executors.key_at(i);
            assert(!keys.take(i as int).contains(agent)) by {
                if keys.take(i as int).contains(agent) {
                    let at = keys.take(i as int).index_of(agent);
                    assert(keys[at] == keys[i as int]);
                }
            }
            let configured = self.executors.value_at(i).get_default().is_some();
            assert(configured == (lookup(self@, agent, "DEFAULT"@) is Some));
            if configured {
                if let Some(info) = find_probe(probes, agent) {
                    if info.is_available() {
                        match best {
                            Some((other, other_info)) => {
                                proof {
                                    law_agents_are_ranked(agent, info, other, other_info);
                                    assert forall|j: int|
                                        0 <= j < i && is_candidate(
                                            self@,
                                            probes@,
                                            #[trigger] keys[j],
                                        ) && keys[j] != other && ranks_before(
                                            agent,
                                            info,
                                            other,
                                            other_info,
                                        ) implies ranks_before(
                                        agent,
                                        info,
                                        keys[j],
                                        probed(probes@, keys[j])->0,
                                    ) by {
                                        law_ranks_are_transitive(
                                            agent,
                                            info,
                                            other,
                                            other_info,
                                            keys[j],
                                            probed(probes@, keys[j])->0,
                                        );
                                    }
                                }
                                if ranks_higher(agent, &info, other, &other_info) {
                                    best = Some((agent, info));
                                }
                            },
                            None => {
                                best = Some((agent, info));
                            },
                        }
                    }
                }
            }
            i += 1;
        }
        assert(keys.take(i as int) =~= keys);
        proof {
            assert forall|agent: BaseCodingAgent| #[trigger]
                is_candidate(self@, probes@, agent) implies keys.contains(agent) by {}
            assert forall|agent: BaseCodingAgent| #[trigger]
                is_candidate(self@, probes@, agent) implies exists|j: int|
                0 <= j < keys.len() && #[trigger] keys[j] == agent by {
                let at = keys.index_of(agent);
                assert(keys[at] == agent);
            }
        }
        match best {
            Some((agent, _)) => Ok(ExecutorProfileId::new(agent)),
            None => Err(ProfileError::NoAvailableExecutorProfile),
        }
    }
}

} // verus!
