//! What becomes of the settings of the user and of the built-in ones.

use vstd::prelude::*;

use crate::agents::laws::law_detached_agents_keep_every_setting;
use crate::agents::{AgentView, AvailabilityInfo, BaseCodingAgent, CodingAgent};
use crate::text;

use super::configs;
use super::configs::ExecutorConfigs;
use super::laws;
use super::{
    canonical_variant_key, de_base_coding_agent_kebab, to_default_variant, ExecutorConfig,
    ExecutorProfileId, ProfileError,
};

verus! {

/// Whether an agent has a configuration with the given name.
pub open spec fn has_config(
    configs: ExecutorConfigs,
    executor: BaseCodingAgent,
    name: Seq<char>,
) -> bool {
    configs@.dom().contains(executor) && configs@[executor].dom().contains(name)
}

/// What was saved is loaded again: under canonical names, each current
/// configuration comes back with all its settings, and no other one does.
pub proof fn law_saved_settings_come_back(
    defaults: ExecutorConfigs,
    current: ExecutorConfigs,
    saved: Result<ExecutorConfigs, ProfileError>,
    loaded: ExecutorConfigs,
    executor: BaseCodingAgent,
    name: Seq<char>,
)
    requires
        call_ensures(ExecutorConfigs::save_overrides, (&current, &defaults), saved),
        saved is Ok,
        call_ensures(ExecutorConfigs::load, (defaults, Some(saved->Ok_0)), loaded),
        laws::has_canonical_names(defaults@),
        laws::has_canonical_names(current@),
    ensures
        has_config(loaded, executor, name) <==> has_config(current, executor, name),
        has_config(current, executor, name) ==> match (
            loaded@[executor][name],
            current@[executor][name],
        ) {
            (AgentView::ClaudeCode(x), AgentView::ClaudeCode(y)) => x.plan == y.plan && x.model
                == y.model && x.settings == y.settings,
            (AgentView::Amp(x), AgentView::Amp(y)) => x == y,
            (AgentView::Gemini(x), AgentView::Gemini(y)) => x == y,
            (AgentView::CursorAgent(x), AgentView::CursorAgent(y)) => x == y,
            (AgentView::QwenCode(x), AgentView::QwenCode(y)) => x == y,
            (AgentView::KimiCli(x), AgentView::KimiCli(y)) => x.append_prompt == y.append_prompt
                && x.mode == y.mode && x.model == y.model && x.cmd == y.cmd,
            (AgentView::Reasonix(x), AgentView::Reasonix(y)) => x.append_prompt
                == y.append_prompt && x.model == y.model && x.dangerously_skip_permissions
                == y.dangerously_skip_permissions && x.use_code_mode == y.use_code_mode && x.cmd
                == y.cmd,
            (AgentView::DeepseekHarness(x), AgentView::DeepseekHarness(y)) => x.append_prompt
                == y.append_prompt && x.model == y.model && x.dangerously_skip_permissions
                == y.dangerously_skip_permissions && x.cmd == y.cmd,
            _ => false,
        },
{
    laws::law_canonical_names_have_one_form(defaults@);
    assert(laws::has_settled_names(current@)) by {
        assert forall|e: BaseCodingAgent, n: Seq<char>|
            current@.dom().contains(e) && #[trigger] current@[e].dom().contains(n) implies super::canonical_key(
            super::canonical_key(n),
        ) == super::canonical_key(n) by {
            assert(super::canonical_key(n) == n);
        }
    }
    laws::law_saved_profiles_are_loaded_again(defaults@, current@, saved, loaded@);
    let canonical = choose|canonical: configs::ConfigsMap| #[trigger]
        configs::all_canonical_form(current@, canonical) && laws::same_settings(
            loaded@,
            canonical,
        );
    laws::law_canonical_names_stay(current@, canonical);
    assert(laws::same_settings(loaded@, current@));
    if current@.dom().contains(executor) {
        assert(laws::same_profile(loaded@[executor], current@[executor]));
        if has_config(current, executor, name) {
            law_detached_agents_keep_every_setting(
                loaded@[executor][name],
                current@[executor][name],
            );
        }
    }
}

/// Saving fails exactly if something built in is gone, or what would be loaded
/// cannot be used.
pub proof fn law_saving_succeeds_for_usable_settings(
    defaults: ExecutorConfigs,
    current: ExecutorConfigs,
    saved: Result<ExecutorConfigs, ProfileError>,
    executor: BaseCodingAgent,
    name: Seq<char>,
)
    requires
        call_ensures(ExecutorConfigs::save_overrides, (&current, &defaults), saved),
        laws::has_canonical_names(defaults@),
        laws::has_canonical_names(current@),
    ensures
        has_config(defaults, executor, name) && !has_config(current, executor, name)
            ==> saved is Err,
{
    let (built_in, now) = choose|built_in: configs::ConfigsMap, now: configs::ConfigsMap| #[trigger]
        configs::all_canonical_form(defaults@, built_in) && #[trigger] configs::all_canonical_form(
            current@,
            now,
        ) && configs::is_save_result(built_in, now, saved);
    laws::law_canonical_names_stay(defaults@, built_in);
    laws::law_canonical_names_stay(current@, now);
}

/// A configuration of the user takes the place of the built-in one with its
/// name, and where the user has none the built-in one stays.
pub proof fn law_user_comes_before_built_in(
    defaults: ExecutorConfigs,
    overrides: ExecutorConfigs,
    merged: ExecutorConfigs,
    executor: BaseCodingAgent,
    name: Seq<char>,
)
    requires
        call_ensures(ExecutorConfigs::merge_with_defaults, (defaults, overrides), merged),
    ensures
        has_config(merged, executor, name) <==> has_config(defaults, executor, name) || has_config(
            overrides,
            executor,
            name,
        ),
        has_config(overrides, executor, name) ==> merged@[executor][name]
            == overrides@[executor][name],
        has_config(defaults, executor, name) && !has_config(overrides, executor, name)
            ==> merged@[executor][name] == defaults@[executor][name],
{
}

/// The settings of the user are put over the built-in ones as a whole, or not at
/// all: where what comes of it cannot be used, the built-in ones stay.
pub proof fn law_unusable_settings_are_dropped(
    defaults: ExecutorConfigs,
    overrides: ExecutorConfigs,
    merged: ExecutorConfigs,
    used: ExecutorConfigs,
    valid: Result<(), ProfileError>,
)
    requires
        call_ensures(ExecutorConfigs::merge_with_defaults, (defaults, overrides), merged),
        call_ensures(ExecutorConfigs::validate_merged, (&merged,), valid),
        call_ensures(ExecutorConfigs::merge_with_defaults_validated, (defaults, overrides), used),
    ensures
        valid is Ok ==> used@ == merged@,
        valid is Err ==> used@ == defaults@,
{
}

/// Settings can be used exactly if every agent has a default configuration of its
/// own kind, and no name begins with two underscores.
pub proof fn law_usable_settings_have_their_defaults(
    configs: ExecutorConfigs,
    valid: Result<(), ProfileError>,
)
    requires
        call_ensures(ExecutorConfigs::validate_merged, (&configs,), valid),
    ensures
        valid is Ok <==> forall|executor: BaseCodingAgent| #[trigger]
            configs@.dom().contains(executor) ==> {
                &&& configs@[executor].dom().contains("DEFAULT"@)
                &&& configs@[executor]["DEFAULT"@].kind() == executor
                &&& forall|name: Seq<char>| #[trigger]
                    configs@[executor].dom().contains(name) ==> !(name.len() >= 2 && name[0] == '_'
                        && name[1] == '_')
            },
        valid matches Err(error) ==> error is Validation,
{
    reveal_strlit("__");
    assert("__"@.len() == 2);
    assert forall|name: Seq<char>| #[trigger] text::begins_with(name, "__"@) <==> (name.len() >= 2
        && name[0] == '_' && name[1] == '_') by {
        if name.len() >= 2 && name[0] == '_' && name[1] == '_' {
            assert(name.take(2) =~= "__"@);
        }
        if text::begins_with(name, "__"@) {
            assert(name.take(2)[0] == name[0]);
            assert(name.take(2)[1] == name[1]);
        }
    }
    if forall|executor: BaseCodingAgent| #[trigger]
        configs@.dom().contains(executor) ==> {
            &&& configs@[executor].dom().contains("DEFAULT"@)
            &&& configs@[executor]["DEFAULT"@].kind() == executor
            &&& forall|name: Seq<char>| #[trigger]
                configs@[executor].dom().contains(name) ==> !(name.len() >= 2 && name[0] == '_'
                    && name[1] == '_')
        } {
        assert(configs::is_valid(configs@));
    }
    if configs::is_valid(configs@) {
        assert forall|executor: BaseCodingAgent| #[trigger]
            configs@.dom().contains(executor) implies {
            &&& configs@[executor].dom().contains("DEFAULT"@)
            &&& configs@[executor]["DEFAULT"@].kind() == executor
            &&& forall|name: Seq<char>| #[trigger]
                configs@[executor].dom().contains(name) ==> !(name.len() >= 2 && name[0] == '_'
                    && name[1] == '_')
        } by {
            assert(configs::is_valid_profile(executor, configs@[executor]));
            assert forall|name: Seq<char>| #[trigger]
                configs@[executor].dom().contains(name) implies !(name.len() >= 2 && name[0] == '_'
                && name[1] == '_') by {
                assert(!text::begins_with(name, "__"@));
            }
        }
    }
}

/// What is stored is what is new or differs from the built-in settings: a
/// current configuration that is left out is built in, with all its settings;
/// one that is stored is the current one.
pub proof fn law_only_differences_are_stored(
    defaults: ExecutorConfigs,
    current: ExecutorConfigs,
    overrides: Result<ExecutorConfigs, ProfileError>,
    executor: BaseCodingAgent,
    name: Seq<char>,
)
    requires
        call_ensures(ExecutorConfigs::compute_overrides, (&defaults, &current), overrides),
        overrides is Ok,
    ensures
        has_config(overrides->Ok_0, executor, name) ==> has_config(current, executor, name)
            && overrides->Ok_0@[executor][name] == current@[executor][name],
        has_config(current, executor, name) && !has_config(overrides->Ok_0, executor, name)
            ==> has_config(defaults, executor, name) && match (
            defaults@[executor][name],
            current@[executor][name],
        ) {
            (AgentView::ClaudeCode(x), AgentView::ClaudeCode(y)) => x.plan == y.plan && x.model
                == y.model && x.settings == y.settings,
            (AgentView::Amp(x), AgentView::Amp(y)) => x == y,
            (AgentView::Gemini(x), AgentView::Gemini(y)) => x == y,
            (AgentView::CursorAgent(x), AgentView::CursorAgent(y)) => x == y,
            (AgentView::QwenCode(x), AgentView::QwenCode(y)) => x == y,
            (AgentView::KimiCli(x), AgentView::KimiCli(y)) => x.append_prompt == y.append_prompt
                && x.mode == y.mode && x.model == y.model && x.cmd == y.cmd,
            (AgentView::Reasonix(x), AgentView::Reasonix(y)) => x.append_prompt
                == y.append_prompt && x.model == y.model && x.dangerously_skip_permissions
                == y.dangerously_skip_permissions && x.use_code_mode == y.use_code_mode && x.cmd
                == y.cmd,
            (AgentView::DeepseekHarness(x), AgentView::DeepseekHarness(y)) => x.append_prompt
                == y.append_prompt && x.model == y.model && x.dangerously_skip_permissions
                == y.dangerously_skip_permissions && x.cmd == y.cmd,
            _ => false,
        },
        has_config(overrides->Ok_0, executor, name) && has_config(defaults, executor, name)
            ==> defaults@[executor][name] != current@[executor][name],
        has_config(defaults, executor, name) ==> has_config(current, executor, name),
{
    let stored = overrides->Ok_0;
    if has_config(current, executor, name) && !has_config(stored, executor, name) {
        if defaults@.dom().contains(executor) {
            let changed = configs::differing(defaults@[executor], current@[executor]);
            if !stored@.dom().contains(executor) {
                assert(!configs::differs(defaults@[executor], current@[executor]));
                assert(!changed.dom().contains(name));
            } else {
                assert(stored@[executor] == changed);
            }
        } else {
            assert(stored@.dom().contains(executor));
        }
        law_detached_agents_keep_every_setting(
            defaults@[executor][name],
            current@[executor][name],
        );
    }
}

/// Something built in cannot be deleted: the error says which agent or which
/// configuration is gone.
pub proof fn law_deleting_built_in_settings_is_refused(
    defaults: ExecutorConfigs,
    current: ExecutorConfigs,
    overrides: Result<ExecutorConfigs, ProfileError>,
)
    requires
        call_ensures(ExecutorConfigs::compute_overrides, (&defaults, &current), overrides),
        overrides is Err,
    ensures
        overrides->Err_0 matches ProfileError::CannotDeleteExecutor { executor }
            ==> defaults@.dom().contains(executor) && !current@.dom().contains(executor),
        overrides->Err_0 matches ProfileError::CannotDeleteBuiltInConfig { executor, variant }
            ==> has_config(defaults, executor, variant@) && !has_config(
            current,
            executor,
            variant@,
        ) && current@.dom().contains(executor),
        overrides->Err_0 is CannotDeleteExecutor || overrides->Err_0 is CannotDeleteBuiltInConfig,
{
}

/// Without settings of the user, the built-in ones are used.
pub proof fn law_built_in_settings_are_used_alone(
    defaults: ExecutorConfigs,
    loaded: ExecutorConfigs,
)
    requires
        call_ensures(ExecutorConfigs::load, (defaults, None), loaded),
        laws::has_canonical_names(defaults@),
    ensures
        loaded@ == defaults@,
{
    laws::law_canonical_names_stay(defaults@, loaded@);
}

/// Making names canonical keeps the agents, makes no configuration up, and
/// leaves those under canonical names as they are.
pub proof fn law_canonical_names_hold_what_was_there(
    configs: &mut ExecutorConfigs,
    executor: BaseCodingAgent,
    name: Seq<char>,
)
    requires
        call_ensures(ExecutorConfigs::canonicalise, (configs,), ()),
    ensures
        final(configs)@.dom() == old(configs)@.dom(),
        has_config(*final(configs), executor, name) ==> exists|from: Seq<char>| #[trigger]
            old(configs)@[executor].dom().contains(from) && super::canonical_key(from) == name
                && final(configs)@[executor][name] == old(configs)@[executor][from],
        has_config(*old(configs), executor, name) && super::canonical_key(name) == name
            ==> has_config(*final(configs), executor, name) && final(configs)@[executor][name]
            == old(configs)@[executor][name],
        has_config(*old(configs), executor, name) && super::is_plain_words(name) ==> has_config(
            *final(configs),
            executor,
            super::canonical_key(name),
        ),
{
    if old(configs)@.dom().contains(executor) {
        assert(configs::is_canonical_form(old(configs)@[executor], final(configs)@[executor]));
        if super::is_plain_words(name) {
            super::law_plain_words_are_settled(name);
            assert(configs::keeps_name(old(configs)@[executor], name));
        }
    }
}

/// A configuration is found under its own name, and only there.
pub proof fn law_configuration_is_found_by_its_name(
    configs: ExecutorConfigs,
    executor: BaseCodingAgent,
    name: &str,
    found: Option<CodingAgent>,
)
    requires
        call_ensures(ExecutorConfigs::find_agent, (&configs, executor, name), found),
    ensures
        found is Some <==> has_config(configs, executor, name@),
        found matches Some(agent) ==> agent@ == configs@[executor][name@],
{
}

/// A profile without a variant is the default configuration of its agent, and
/// one with a variant the configuration under the canonical name of it.
pub proof fn law_profile_names_its_configuration(
    configs: ExecutorConfigs,
    id: ExecutorProfileId,
    variant: &str,
    key: String,
    found: Option<CodingAgent>,
)
    requires
        call_ensures(ExecutorConfigs::get_coding_agent, (&configs, &id), found),
        call_ensures(canonical_variant_key, (variant,), key),
        id.variant is Some ==> id.variant->0@ == variant@,
    ensures
        id.variant is None ==> (found is Some <==> has_config(configs, id.executor, "DEFAULT"@)),
        id.variant is None && found is Some ==> found->0@ == configs@[id.executor]["DEFAULT"@],
        id.variant is Some ==> (found is Some <==> has_config(configs, id.executor, key@)),
        id.variant is Some && found is Some ==> found->0@ == configs@[id.executor][key@],
{
}

/// There is always a configuration for a profile: the one that it names, or else
/// the default one of its agent, here or built in, or else one that is always
/// there.
pub proof fn law_profile_falls_back_to_defaults(
    configs: ExecutorConfigs,
    builtin: ExecutorConfigs,
    id: ExecutorProfileId,
    named: Option<CodingAgent>,
    used: CodingAgent,
)
    requires
        has_config(builtin, BaseCodingAgent::ClaudeCode, "DEFAULT"@),
        call_ensures(ExecutorConfigs::get_coding_agent, (&configs, &id), named),
        call_ensures(ExecutorConfigs::get_coding_agent_or_default, (&configs, &id, &builtin), used),
    ensures
        named matches Some(agent) ==> used@ == agent@,
        named is None && has_config(configs, id.executor, "DEFAULT"@) ==> used@
            == configs@[id.executor]["DEFAULT"@],
        named is None && !has_config(configs, id.executor, "DEFAULT"@) && has_config(
            builtin,
            id.executor,
            "DEFAULT"@,
        ) ==> used@ == builtin@[id.executor]["DEFAULT"@],
        named is None && !has_config(configs, id.executor, "DEFAULT"@) && !has_config(
            builtin,
            id.executor,
            "DEFAULT"@,
        ) ==> used@ == builtin@[BaseCodingAgent::ClaudeCode]["DEFAULT"@],
{
}

/// Whether a probe found an agent as given, and no earlier probe was of it.
pub open spec fn was_found(
    probes: Seq<(BaseCodingAgent, AvailabilityInfo)>,
    agent: BaseCodingAgent,
    info: AvailabilityInfo,
) -> bool {
    exists|i: int|
        0 <= i < probes.len() && #[trigger] probes[i] == (agent, info) && forall|j: int|
            0 <= j < i ==> (#[trigger] probes[j]).0 != agent
}

proof fn lemma_was_found(
    probes: Seq<(BaseCodingAgent, AvailabilityInfo)>,
    agent: BaseCodingAgent,
    info: AvailabilityInfo,
)
    requires
        was_found(probes, agent, info),
    ensures
        configs::probed(probes, agent) == Some(info),
    decreases probes.len(),
{
    let i = choose|i: int|
        0 <= i < probes.len() && #[trigger] probes[i] == (agent, info) && forall|j: int|
            0 <= j < i ==> (#[trigger] probes[j]).0 != agent;
    if i > 0 {
        assert(probes[0].0 != agent);
        let rest = probes.drop_first();
        assert(rest[i - 1] == (agent, info));
        assert forall|j: int| 0 <= j < i - 1 implies (#[trigger] rest[j]).0 != agent by {
            assert(rest[j] == probes[j + 1]);
        }
        lemma_was_found(rest, agent, info);
    }
}

/// The agent that is recommended has a default configuration and is available;
/// where any such agent has a login, it has one that is no older; and none is
/// recommended only where there is no such agent.
pub proof fn law_latest_login_is_recommended(
    configs: ExecutorConfigs,
    probes: Vec<(BaseCodingAgent, AvailabilityInfo)>,
    recommended: Result<ExecutorProfileId, ProfileError>,
    other: BaseCodingAgent,
    other_info: AvailabilityInfo,
    info: AvailabilityInfo,
)
    requires
        call_ensures(
            ExecutorConfigs::get_recommended_executor_profile,
            (&configs, &probes),
            recommended,
        ),
        was_found(probes@, other, other_info),
        other_info !is NotFound,
        has_config(configs, other, "DEFAULT"@),
    ensures
        recommended is Ok,
        recommended->Ok_0.variant is None,
        has_config(configs, recommended->Ok_0.executor, "DEFAULT"@),
        was_found(probes@, recommended->Ok_0.executor, info) ==> {
            &&& info !is NotFound
            &&& other_info matches AvailabilityInfo::LoginDetected { last_auth_timestamp } ==> (
            info is LoginDetected && info->last_auth_timestamp >= last_auth_timestamp)
        },
{
    lemma_was_found(probes@, other, other_info);
    assert(configs::is_candidate(configs@, probes@, other));
    if recommended is Ok {
        let agent = recommended->Ok_0.executor;
        assert(recommended->Ok_0@.variant is None);
        if was_found(probes@, agent, info) {
            lemma_was_found(probes@, agent, info);
        }
    }
}

/// A canonical name has as many characters as the plain words that it is made
/// from: letters in uppercase, and underscores between words.
pub proof fn law_canonical_name_is_in_uppercase(raw: &str, key: String, at: int)
    requires
        call_ensures(canonical_variant_key, (raw,), key),
        super::is_plain_words(raw@),
        0 <= at < raw@.len(),
    ensures
        key@.len() == raw@.len(),
        'A' <= raw@[at] <= 'Z' ==> key@[at] == raw@[at],
        'a' <= raw@[at] <= 'z' ==> key@[at] as u32 + 32 == raw@[at] as u32,
        raw@[at] == '-' || raw@[at] == ' ' || raw@[at] == '_' ==> key@[at] == '_',
{
}

/// However the name of the default configuration is written, it is the same one.
pub proof fn law_default_is_known_in_any_case(raw: &str, upper: String, key: String)
    requires
        call_ensures(canonical_variant_key, (raw,), key),
        call_ensures(text::to_ascii_uppercase, (raw,), upper),
        upper@ == "DEFAULT"@,
    ensures
        key@ == "DEFAULT"@,
{
}

/// A name is canonical once it was made canonical, for plain words.
pub proof fn law_canonical_name_stays(raw: &str, key: String, once: &str, again: String)
    requires
        call_ensures(canonical_variant_key, (raw,), key),
        once@ == key@,
        call_ensures(canonical_variant_key, (once,), again),
        super::is_plain_words(raw@),
    ensures
        again@ == key@,
{
    super::law_plain_words_are_settled(raw@);
}

/// Whether a name is written in kebab case: in lowercase, with hyphens between
/// its words.
pub open spec fn is_kebab_of(kebab: Seq<char>, name: Seq<char>) -> bool {
    &&& kebab.len() == name.len()
    &&& forall|i: int|
        0 <= i < name.len() ==> if #[trigger] name[i] == '_' {
            kebab[i] == '-'
        } else {
            kebab[i] as u32 == name[i] as u32 + 32
        }
}

/// The name of an agent is read in uppercase as in kebab case.
pub proof fn law_agent_is_read_by_its_name(
    agent: BaseCodingAgent,
    name: &str,
    kebab: &str,
    read: Result<BaseCodingAgent, String>,
    read_kebab: Result<BaseCodingAgent, String>,
)
    requires
        call_ensures(BaseCodingAgent::as_str, (&agent,), name),
        call_ensures(de_base_coding_agent_kebab, (name,), read),
        call_ensures(de_base_coding_agent_kebab, (kebab,), read_kebab),
        is_kebab_of(kebab@, name@),
    ensures
        read matches Ok(found) && found == agent,
        read_kebab matches Ok(found) && found == agent,
{
    crate::agents::law_name_stands_for_its_agent(agent);
    lemma_names_are_modern(agent);
    assert(super::modern_name(name@) =~= name@);
    lemma_kebab_is_modern(agent, kebab@);
}

/// The name of an agent in kebab case stands for it.
pub proof fn lemma_kebab_is_modern(agent: BaseCodingAgent, kebab: Seq<char>)
    requires
        is_kebab_of(kebab, agent.name()),
    ensures
        super::modern_name(kebab) == agent.name(),
        text::all_ascii(kebab),
{
    lemma_names_are_modern(agent);
    let name = agent.name();
    let written = super::modern_name(kebab);
    assert forall|i: int| 0 <= i < name.len() implies written[i] == name[i] by {
        assert('A' <= name[i] <= 'Z' || name[i] == '_');
    }
    assert(written =~= name);
    assert forall|i: int| 0 <= i < kebab.len() implies (#[trigger] kebab[i]) as u32 <= 0x7f by {
        assert('A' <= name[i] <= 'Z' || name[i] == '_');
    }
}

proof fn lemma_names_are_modern(agent: BaseCodingAgent)
    ensures
        forall|i: int|
            0 <= i < agent.name().len() ==> 'A' <= #[trigger] agent.name()[i] <= 'Z'
                || agent.name()[i] == '_',
{
    reveal_strlit("CLAUDE_CODE");
    reveal_strlit("AMP");
    reveal_strlit("GEMINI");
    reveal_strlit("CURSOR_AGENT");
    reveal_strlit("QWEN_CODE");
    reveal_strlit("KIMI_CLI");
    reveal_strlit("REASONIX");
    reveal_strlit("DEEPSEEK_HARNESS");
}

/// A profile is of its agent, and of the variant that it is made with, if any.
pub proof fn law_profile_is_what_it_is_made_of(
    executor: BaseCodingAgent,
    variant: String,
    plain: ExecutorProfileId,
    named: ExecutorProfileId,
    back: ExecutorProfileId,
)
    requires
        call_ensures(ExecutorProfileId::new, (executor,), plain),
        call_ensures(ExecutorProfileId::with_variant, (executor, variant), named),
        call_ensures(to_default_variant, (&named,), back),
    ensures
        plain.executor == executor,
        plain.variant is None,
        named.executor == executor,
        named.variant is Some,
        named.variant->0@ == variant@,
        back.executor == executor,
        back.variant is None,
{
    assert(plain@.variant is None);
    assert(named@.variant == Some(variant@));
    assert(back@.variant is None);
}

/// Different profiles are cached under different keys, and are written like
/// them.
pub proof fn law_profiles_are_cached_apart(
    a: ExecutorProfileId,
    b: ExecutorProfileId,
    a_key: String,
    b_key: String,
    a_text: String,
)
    requires
        call_ensures(ExecutorProfileId::cache_key, (&a,), a_key),
        call_ensures(ExecutorProfileId::cache_key, (&b,), b_key),
        call_ensures(ExecutorProfileId::to_string, (&a,), a_text),
    ensures
        a_key@ == b_key@ <==> a.executor == b.executor && a.variant.deep_view()
            == b.variant.deep_view(),
        a_text@ == a_key@,
        a.variant is None ==> a_key@ == a.executor.name(),
        a.variant is Some ==> a_key@ == a.executor.name() + ":"@ + a.variant->0@,
{
    if a@ != b@ {
        super::law_profiles_have_keys_of_their_own(a@, b@);
    }
    if a.variant is Some {
        assert(a.variant.deep_view() == Some(a.variant->0@));
    }
}

/// A configuration that was set is found again, and no other one is changed. The
/// default one is not set as a variant.
pub proof fn law_variant_that_was_set_is_found(
    profile: &mut ExecutorConfig,
    name: String,
    config: CodingAgent,
    set: Result<(), &'static str>,
    raw: &str,
    key: String,
    other: Seq<char>,
)
    requires
        call_ensures(ExecutorConfig::set_variant, (profile, name, config), set),
        call_ensures(canonical_variant_key, (raw,), key),
        raw@ == name@,
    ensures
        set is Ok <==> key@ != "DEFAULT"@,
        set is Ok ==> final(profile)@.dom().contains(key@) && final(profile)@[key@] == config@,
        set is Err ==> final(profile)@ == old(profile)@,
        other != key@ ==> (final(profile)@.dom().contains(other) <==> old(
            profile,
        )@.dom().contains(other)) && final(profile)@[other] == old(profile)@[other],
{
}

/// The default configuration that was set is found again, and no other one is
/// changed.
pub proof fn law_default_that_was_set_is_found(
    profile: &mut ExecutorConfig,
    config: CodingAgent,
    other: Seq<char>,
    found: Option<&CodingAgent>,
)
    requires
        call_ensures(ExecutorConfig::set_default, (profile, config), ()),
        call_ensures(ExecutorConfig::get_default, (final(profile),), found),
    ensures
        found is Some,
        found->0@ == config@,
        other != "DEFAULT"@ ==> (final(profile)@.dom().contains(other) <==> old(
            profile,
        )@.dom().contains(other)) && final(profile)@[other] == old(profile)@[other],
{
}

/// A new collection has its default configuration and no other one.
pub proof fn law_new_collection_has_its_default(
    config: CodingAgent,
    profile: ExecutorConfig,
    name: &str,
    found: Option<&CodingAgent>,
)
    requires
        call_ensures(ExecutorConfig::new_with_default, (config,), profile),
        call_ensures(ExecutorConfig::get_variant, (&profile, name), found),
    ensures
        found is Some <==> name@ == "DEFAULT"@,
        found is Some ==> found->0@ == config@,
{
}

/// The names that are listed are those of all configurations but the default one.
pub proof fn law_variants_are_listed(profile: ExecutorConfig, names: Vec<&String>, name: Seq<char>)
    requires
        call_ensures(ExecutorConfig::variant_names, (&profile,), names),
    ensures
        (exists|i: int| 0 <= i < names@.len() && (#[trigger] names@[i])@ == name) <==> (
        profile@.dom().contains(name) && name != "DEFAULT"@),
{
    let shown = super::names_of(names@);
    if shown.contains(name) {
        let i = shown.index_of(name);
        assert(names@[i]@ == name);
    }
    if exists|i: int| 0 <= i < names@.len() && (#[trigger] names@[i])@ == name {
        let i = choose|i: int| 0 <= i < names@.len() && (#[trigger] names@[i])@ == name;
        assert(shown[i] == name);
    }
}

/// What an error says has the name of what it is about in it.
pub proof fn law_error_says_what_it_is_about(error: ProfileError, message: String)
    requires
        call_ensures(ProfileError::message, (&error,), message),
    ensures
        error matches ProfileError::CannotDeleteExecutor { executor }
            ==> crate::agents::laws::holds(message@, executor.name()),
        error matches ProfileError::CannotDeleteBuiltInConfig { executor, variant }
            ==> crate::agents::laws::holds(message@, executor.name() + ":"@ + variant@),
        error matches ProfileError::Validation(problem) ==> crate::agents::laws::holds(
            message@,
            problem@,
        ),
        error is NoAvailableExecutorProfile ==> message@ == "No available executor profile"@,
        error matches ProfileError::Io(problem) ==> message@ == problem@,
        error matches ProfileError::Serde(problem) ==> message@ == problem@,
{
    match error {
        ProfileError::CannotDeleteExecutor { executor } => {
            let at = "Built-in executor '"@.len() as int;
            assert(message@.subrange(at, at + executor.name().len()) =~= executor.name());
        },
        ProfileError::CannotDeleteBuiltInConfig { executor, variant } => {
            let at = "Built-in configuration '"@.len() as int;
            let part = executor.name() + ":"@ + variant@;
            assert(message@.subrange(at, at + part.len()) =~= part);
        },
        ProfileError::Validation(problem) => {
            let at = "Validation error: "@.len() as int;
            assert(message@.subrange(at, at + problem@.len()) =~= problem@);
        },
        _ => {},
    }
}

/// A configuration that is renamed moves to its new name, unless one is there
/// already, which then stays. No other one is changed.
pub proof fn law_renamed_configuration_moves(
    profile: &mut ExecutorConfig,
    from: String,
    to: String,
    other: Seq<char>,
)
    requires
        from@ != to@,
        call_ensures(ExecutorConfig::rename, (profile, &from, to), ()),
    ensures
        !final(profile)@.dom().contains(from@),
        old(profile)@.dom().contains(to@) ==> final(profile)@.dom().contains(to@) && final(profile)@[to@] == old(profile)@[to@],
        !old(profile)@.dom().contains(to@) && old(profile)@.dom().contains(from@) ==> final(profile)@.dom().contains(to@) && final(profile)@[to@] == old(profile)@[from@],
        other != from@ && other != to@ ==> (final(profile)@.dom().contains(other) <==> old(
            profile,
        )@.dom().contains(other)) && final(profile)@[other] == old(profile)@[other],
{
}

/// A configuration that is set under a canonical name is found there, and no other
/// one is changed. The default one is not set so.
pub proof fn law_canonical_variant_that_was_set_is_found(
    profile: &mut ExecutorConfig,
    key: String,
    config: CodingAgent,
    set: Result<(), &'static str>,
    other: Seq<char>,
)
    requires
        call_ensures(ExecutorConfig::set_canonical_variant, (profile, key, config), set),
    ensures
        set is Ok <==> key@ != "DEFAULT"@,
        set is Ok ==> final(profile)@.dom().contains(key@) && final(profile)@[key@] == config@,
        set is Err ==> final(profile)@ == old(profile)@,
        other != key@ ==> (final(profile)@.dom().contains(other) <==> old(
            profile,
        )@.dom().contains(other)) && final(profile)@[other] == old(profile)@[other],
{
}

/// Where nothing built in is gone, what differs can be stored.
pub proof fn law_kept_settings_can_be_stored(
    defaults: ExecutorConfigs,
    current: ExecutorConfigs,
    overrides: Result<ExecutorConfigs, ProfileError>,
)
    requires
        call_ensures(ExecutorConfigs::compute_overrides, (&defaults, &current), overrides),
        forall|executor: BaseCodingAgent| #[trigger]
            defaults@.dom().contains(executor) ==> current@.dom().contains(executor),
        forall|executor: BaseCodingAgent, name: Seq<char>| #[trigger]
            has_config(defaults, executor, name) ==> has_config(current, executor, name),
    ensures
        overrides is Ok,
{
    assert forall|executor: BaseCodingAgent, name: Seq<char>|
        defaults@.dom().contains(executor) && #[trigger] defaults@[executor].dom().contains(
            name,
        ) implies current@[executor].dom().contains(name) by {
        assert(has_config(defaults, executor, name));
    }
    assert(configs::deletes_nothing(defaults@, current@));
}

/// Loading puts the settings of the user over the built-in ones, where what comes
/// of it can be used.
pub proof fn law_loading_puts_user_settings_on_top(
    defaults: ExecutorConfigs,
    overrides: ExecutorConfigs,
    loaded: ExecutorConfigs,
    merged: ExecutorConfigs,
    valid: Result<(), ProfileError>,
)
    requires
        call_ensures(ExecutorConfigs::load, (defaults, Some(overrides)), loaded),
        call_ensures(ExecutorConfigs::merge_with_defaults, (defaults, overrides), merged),
        call_ensures(ExecutorConfigs::validate_merged, (&merged,), valid),
        laws::has_canonical_names(defaults@),
        laws::has_canonical_names(overrides@),
    ensures
        valid is Ok ==> loaded@ == merged@,
        valid is Err ==> loaded@ == defaults@,
{
    let (built_in, changes) = choose|
        built_in: configs::ConfigsMap,
        changes: configs::ConfigsMap,
    | #[trigger]
        configs::all_canonical_form(defaults@, built_in) && #[trigger] configs::all_canonical_form(
            overrides@,
            changes,
        ) && loaded@ == configs::merged_if_valid(built_in, changes);
    laws::law_canonical_names_stay(defaults@, built_in);
    laws::law_canonical_names_stay(overrides@, changes);
}

/// Saving gives what differs, where that can be used once it is loaded.
pub proof fn law_saving_gives_what_differs(
    defaults: ExecutorConfigs,
    current: ExecutorConfigs,
    saved: Result<ExecutorConfigs, ProfileError>,
    overrides: Result<ExecutorConfigs, ProfileError>,
    merged: ExecutorConfigs,
    valid: Result<(), ProfileError>,
)
    requires
        call_ensures(ExecutorConfigs::save_overrides, (&current, &defaults), saved),
        call_ensures(ExecutorConfigs::compute_overrides, (&defaults, &current), overrides),
        overrides is Ok ==> call_ensures(
            ExecutorConfigs::merge_with_defaults,
            (defaults, overrides->Ok_0),
            merged,
        ),
        call_ensures(ExecutorConfigs::validate_merged, (&merged,), valid),
        laws::has_canonical_names(defaults@),
        laws::has_canonical_names(current@),
    ensures
        saved is Ok <==> overrides is Ok && valid is Ok,
        saved is Ok ==> saved->Ok_0@ == overrides->Ok_0@,
{
    let (built_in, now) = choose|built_in: configs::ConfigsMap, now: configs::ConfigsMap| #[trigger]
        configs::all_canonical_form(defaults@, built_in) && #[trigger] configs::all_canonical_form(
            current@,
            now,
        ) && configs::is_save_result(built_in, now, saved);
    laws::law_canonical_names_stay(defaults@, built_in);
    laws::law_canonical_names_stay(current@, now);
}

/// The error for settings of a single agent that cannot be used names the agent
/// where its default configuration is missing or of another kind, and else the
/// name that is not allowed.
pub proof fn law_unusable_settings_are_explained(
    configs: ExecutorConfigs,
    executor: BaseCodingAgent,
    reserved: Seq<char>,
    valid: Result<(), ProfileError>,
)
    requires
        call_ensures(ExecutorConfigs::validate_merged, (&configs,), valid),
        valid is Err,
        configs@.dom().contains(executor),
        forall|other: BaseCodingAgent| #[trigger]
            configs@.dom().contains(other) ==> other == executor,
        forall|name: Seq<char>| #[trigger]
            configs@[executor].dom().contains(name) && text::begins_with(name, "__"@) ==> name
                == reserved,
    ensures
        valid->Err_0 is Validation,
        !configs@[executor].dom().contains("DEFAULT"@) ==> crate::agents::laws::holds(
            valid->Err_0->Validation_0@,
            executor.name(),
        ),
        configs@[executor].dom().contains("DEFAULT"@) && configs@[executor]["DEFAULT"@].kind()
            != executor ==> crate::agents::laws::holds(
            valid->Err_0->Validation_0@,
            executor.name(),
        ) && crate::agents::laws::holds(
            valid->Err_0->Validation_0@,
            configs@[executor]["DEFAULT"@].kind().name(),
        ),
        configs@[executor].dom().contains("DEFAULT"@) && configs@[executor]["DEFAULT"@].kind()
            == executor ==> crate::agents::laws::holds(valid->Err_0->Validation_0@, reserved),
{
    let problem = valid->Err_0->Validation_0@;
    assert(configs::is_problem_of(executor, configs@[executor], problem));
    let profile = configs@[executor];
    if !profile.dom().contains("DEFAULT"@) {
        let at = "Executor '"@.len() as int;
        assert(problem.subrange(at, at + executor.name().len()) =~= executor.name());
    } else if profile["DEFAULT"@].kind() != executor {
        let at = "Executor key '"@.len() as int;
        assert(problem.subrange(at, at + executor.name().len()) =~= executor.name());
        let start = ("Executor key '"@ + executor.name()
            + "' does not match the agent variant '"@).len() as int;
        let kind = profile["DEFAULT"@].kind().name();
        assert(problem.subrange(start, start + kind.len()) =~= kind);
    } else {
        let at = "Configuration name '"@.len() as int;
        assert(problem.subrange(at, at + reserved.len()) =~= reserved);
    }
}

/// Of agents that were found alike, the one with the first name is recommended.
pub proof fn law_names_decide_in_the_end(
    configs: ExecutorConfigs,
    probes: Vec<(BaseCodingAgent, AvailabilityInfo)>,
    recommended: Result<ExecutorProfileId, ProfileError>,
    other: BaseCodingAgent,
    info: AvailabilityInfo,
    name: &str,
    other_name: &str,
    first: bool,
)
    requires
        call_ensures(
            ExecutorConfigs::get_recommended_executor_profile,
            (&configs, &probes),
            recommended,
        ),
        recommended is Ok,
        other != recommended->Ok_0.executor,
        has_config(configs, other, "DEFAULT"@),
        was_found(probes@, other, info),
        was_found(probes@, recommended->Ok_0.executor, info),
        call_ensures(BaseCodingAgent::as_str, (&recommended->Ok_0.executor,), name),
        call_ensures(BaseCodingAgent::as_str, (&other,), other_name),
        call_ensures(text::is_before, (name, other_name), first),
    ensures
        first,
{
    lemma_was_found(probes@, other, info);
    lemma_was_found(probes@, recommended->Ok_0.executor, info);
    assert(configs::is_best(configs@, probes@, recommended->Ok_0.executor));
    assert(configs::is_candidate(configs@, probes@, other));
}

proof fn lemma_probed_was_found(
    probes: Seq<(BaseCodingAgent, AvailabilityInfo)>,
    agent: BaseCodingAgent,
)
    requires
        configs::probed(probes, agent) is Some,
    ensures
        was_found(probes, agent, configs::probed(probes, agent)->0),
    decreases probes.len(),
{
    let info = configs::probed(probes, agent)->0;
    if probes[0].0 == agent {
        assert(probes[0] == (agent, info));
    } else {
        let rest = probes.drop_first();
        lemma_probed_was_found(rest, agent);
        let i = choose|i: int|
            0 <= i < rest.len() && #[trigger] rest[i] == (agent, info) && forall|j: int|
                0 <= j < i ==> (#[trigger] rest[j]).0 != agent;
        assert(probes[i + 1] == (agent, info));
        assert forall|j: int| 0 <= j < i + 1 implies (#[trigger] probes[j]).0 != agent by {
            if j > 0 {
                assert(rest[j - 1] == probes[j]);
            }
        }
    }
}

/// An agent is recommended only if it was found and has a default configuration.
pub proof fn law_recommended_agent_was_found(
    configs: ExecutorConfigs,
    probes: Vec<(BaseCodingAgent, AvailabilityInfo)>,
    recommended: Result<ExecutorProfileId, ProfileError>,
)
    requires
        call_ensures(
            ExecutorConfigs::get_recommended_executor_profile,
            (&configs, &probes),
            recommended,
        ),
    ensures
        recommended is Ok ==> has_config(configs, recommended->Ok_0.executor, "DEFAULT"@)
            && recommended->Ok_0.variant is None && exists|info: AvailabilityInfo| #[trigger]
            was_found(probes@, recommended->Ok_0.executor, info) && info !is NotFound,
        recommended is Err ==> recommended->Err_0 is NoAvailableExecutorProfile,
{
    if recommended is Ok {
        let agent = recommended->Ok_0.executor;
        assert(recommended->Ok_0@.variant is None);
        assert(configs::is_best(configs@, probes@, agent));
        lemma_probed_was_found(probes@, agent);
    }
}

/// A name that no agent has is reported as it was given, with the form in which
/// it was looked for.
pub proof fn law_unknown_name_is_reported(
    raw: &str,
    underscored: String,
    upper: &str,
    read: Result<BaseCodingAgent, String>,
    of_upper: Option<BaseCodingAgent>,
)
    requires
        call_ensures(de_base_coding_agent_kebab, (raw,), read),
        call_ensures(text::replace_char, (raw, '-', '_'), underscored),
        upper@ == text::ascii_upper(underscored@),
        call_ensures(BaseCodingAgent::from_name, (upper,), of_upper),
    ensures
        read is Ok <==> of_upper is Some,
        read is Ok ==> read->Ok_0 == of_upper->0,
        read is Err ==> read->Err_0@ == "unknown executor '"@ + raw@ + "' (normalized to '"@
            + upper@ + "')"@,
{
}

/// A variant is found under its own name, and only there.
pub proof fn law_variant_is_found_by_its_name(
    profile: ExecutorConfig,
    name: &str,
    found: Option<&CodingAgent>,
)
    requires
        call_ensures(ExecutorConfig::get_variant, (&profile, name), found),
    ensures
        found is Some <==> profile@.dom().contains(name@),
        found is Some ==> found->0@ == profile@[name@],
{
}

/// Each variant is listed once.
pub proof fn law_variants_are_listed_once(
    profile: ExecutorConfig,
    names: Vec<&String>,
    i: int,
    j: int,
)
    requires
        call_ensures(ExecutorConfig::variant_names, (&profile,), names),
        0 <= i < j < names@.len(),
    ensures
        names@[i]@ != names@[j]@,
{
    let shown = super::names_of(names@);
    assert(shown[i] == names@[i]@);
    assert(shown[j] == names@[j]@);
}

} // verus!
