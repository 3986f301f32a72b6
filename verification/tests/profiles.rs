use executors::agents::deepseek_harness::DeepseekHarness;
use executors::agents::kimi::{KimiCli, KimiMode};
use executors::agents::reasonix::Reasonix;
use executors::agents::{
    AgentSettings, AppendPrompt, AvailabilityInfo, BaseCodingAgent, ClaudeCode, CodingAgent,
};
use executors::approvals::ApprovalService;
use executors::collections::AssocMap;
use executors::command::CmdOverrides;
use executors::profile::{
    canonical_variant_key, de_base_coding_agent_kebab, to_default_variant, ExecutorConfig,
    ExecutorConfigs, ExecutorProfileId, ProfileError,
};

fn claude(plan: Option<bool>, model: Option<&str>) -> CodingAgent {
    CodingAgent::ClaudeCode(ClaudeCode {
        plan,
        model: model.map(|m| m.to_string()),
        settings: "{}".to_string(),
        approvals: None,
    })
}

fn amp() -> CodingAgent {
    CodingAgent::Amp(AgentSettings { settings: "{}".to_string() })
}

fn qwen(settings: &str) -> CodingAgent {
    CodingAgent::QwenCode(AgentSettings { settings: settings.to_string() })
}

fn configs(entries: Vec<(BaseCodingAgent, Vec<(&str, CodingAgent)>)>) -> ExecutorConfigs {
    let mut executors = AssocMap::new();
    for (executor, profile) in entries {
        let mut configurations = AssocMap::new();
        for (name, agent) in profile {
            configurations.insert(name.to_string(), agent);
        }
        executors.insert(executor, ExecutorConfig { configurations });
    }
    ExecutorConfigs { executors }
}

/// The built-in configurations of these tests.
fn builtin() -> ExecutorConfigs {
    configs(vec![
        (
            BaseCodingAgent::ClaudeCode,
            vec![("DEFAULT", claude(None, None)), ("PLAN", claude(Some(true), None))],
        ),
        (BaseCodingAgent::Amp, vec![("DEFAULT", amp())]),
        (BaseCodingAgent::QwenCode, vec![("DEFAULT", qwen("{\"yolo\":true}"))]),
    ])
}

fn variant(executor: BaseCodingAgent, name: &str) -> ExecutorProfileId {
    ExecutorProfileId::with_variant(executor, name.to_string())
}

fn same(a: &ExecutorConfigs, b: &ExecutorConfigs) -> bool {
    if a.executors.len() != b.executors.len() {
        return false;
    }
    for i in 0..a.executors.len() {
        let left = a.executors.value_at(i);
        let Some(right) = b.executors.get(a.executors.key_at(i)) else {
            return false;
        };
        if left.configurations.len() != right.configurations.len() {
            return false;
        }
        for j in 0..left.configurations.len() {
            match right.configurations.get(left.configurations.key_at(j)) {
                Some(agent) if agent.same_as(left.configurations.value_at(j)) => {}
                _ => return false,
            }
        }
    }
    true
}

#[test]
fn canonical_names_are_in_screaming_snake_case() {
    assert_eq!(canonical_variant_key("my-variant"), "MY_VARIANT");
    assert_eq!(canonical_variant_key("myVariant"), "MY_VARIANT");
    assert_eq!(canonical_variant_key("MY_VARIANT"), "MY_VARIANT");
    assert_eq!(canonical_variant_key("default"), "DEFAULT");
    assert_eq!(canonical_variant_key("DeFaUlT"), "DEFAULT");
    assert_eq!(canonical_variant_key(""), "");
}

#[test]
fn get_coding_agent_normalises_variant_key() {
    let configs = configs(vec![(
        BaseCodingAgent::ClaudeCode,
        vec![("DEFAULT", claude(None, None)), ("PLAN", claude(Some(true), None))],
    )]);
    for raw in ["plan", "Plan", "PLAN"] {
        let agent = configs
            .get_coding_agent(&variant(BaseCodingAgent::ClaudeCode, raw))
            .unwrap_or_else(|| panic!("variant '{raw}' should resolve"));
        match agent {
            CodingAgent::ClaudeCode(claude) => {
                assert_eq!(claude.plan, Some(true), "variant '{raw}' should map to PLAN")
            }
            other => panic!("expected ClaudeCode config, got {other:?}"),
        }
    }
    assert!(configs.get_coding_agent(&ExecutorProfileId::new(BaseCodingAgent::Amp)).is_none());
}

#[test]
fn missing_variant_falls_back_to_default_config() {
    let configs = configs(vec![(
        BaseCodingAgent::ClaudeCode,
        vec![("DEFAULT", claude(None, Some("opus")))],
    )]);
    let agent = configs.get_coding_agent_or_default(
        &variant(BaseCodingAgent::ClaudeCode, "DOES_NOT_EXIST"),
        &builtin(),
    );
    match agent {
        CodingAgent::ClaudeCode(claude) => assert_eq!(claude.model.as_deref(), Some("opus")),
        other => panic!("expected ClaudeCode DEFAULT config, got {other:?}"),
    }
}

#[test]
fn missing_default_config_recovers_from_builtin_defaults() {
    let configs = configs(vec![(BaseCodingAgent::QwenCode, vec![("FOO", qwen("{}"))])]);
    let id = ExecutorProfileId::new(BaseCodingAgent::QwenCode);
    let agent = configs.get_coding_agent_or_default(&id, &builtin());
    let expected =
        builtin().get_coding_agent(&id).expect("built-in defaults must contain QWEN_CODE");
    assert!(agent.same_as(&expected));
    let id = ExecutorProfileId::new(BaseCodingAgent::Gemini);
    let agent = configs.get_coding_agent_or_default(&id, &builtin());
    assert_eq!(agent.base(), BaseCodingAgent::ClaudeCode);
}

#[test]
fn invalid_merged_profiles_fall_back_to_defaults() {
    let mut defaults = builtin();
    defaults.canonicalise();
    let invalid = configs(vec![(BaseCodingAgent::ClaudeCode, vec![("DEFAULT", amp())])]);
    let merged = ExecutorConfigs::merge_with_defaults_validated(defaults.clone(), invalid);
    assert!(same(&merged, &defaults));
}

#[test]
fn valid_overrides_still_merge() {
    let mut defaults = builtin();
    defaults.canonicalise();
    let overrides = configs(vec![(
        BaseCodingAgent::ClaudeCode,
        vec![("MY_VARIANT", claude(None, Some("sonnet")))],
    )]);
    let merged = ExecutorConfigs::merge_with_defaults_validated(defaults, overrides);
    let agent = merged
        .get_coding_agent(&variant(BaseCodingAgent::ClaudeCode, "my-variant"))
        .expect("custom variant should be merged in");
    match agent {
        CodingAgent::ClaudeCode(claude) => assert_eq!(claude.model.as_deref(), Some("sonnet")),
        other => panic!("expected ClaudeCode config, got {other:?}"),
    }
}

#[test]
fn names_are_made_canonical() {
    let mut raw = configs(vec![(
        BaseCodingAgent::ClaudeCode,
        vec![
            ("default", claude(None, Some("a"))),
            ("plan-mode", claude(None, Some("b"))),
            ("PLAN_MODE", claude(None, Some("c"))),
            ("other", claude(None, Some("d"))),
        ],
    )]);
    raw.canonicalise();
    let profile = raw.executors.get(&BaseCodingAgent::ClaudeCode).unwrap();
    assert_eq!(profile.configurations.len(), 3);
    let model = |name: &str| match profile.get_variant(name) {
        Some(CodingAgent::ClaudeCode(claude)) => claude.model.clone().unwrap(),
        other => panic!("expected ClaudeCode config, got {other:?}"),
    };
    assert_eq!(model("DEFAULT"), "a");
    assert_eq!(model("PLAN_MODE"), "c");
    assert_eq!(model("OTHER"), "d");
    assert!(profile.get_default().is_some());
    let mut names: Vec<&String> = profile.variant_names();
    names.sort();
    assert_eq!(names, vec!["OTHER", "PLAN_MODE"]);
}

#[test]
fn only_differences_are_stored_and_loading_restores_them() {
    let defaults = builtin();
    let mut current = builtin();
    let mut profile = current.executors.remove(&BaseCodingAgent::ClaudeCode).unwrap();
    profile.set_variant("fast".to_string(), claude(None, Some("haiku"))).unwrap();
    profile.set_default(claude(None, Some("opus")));
    current.executors.insert(BaseCodingAgent::ClaudeCode, profile);
    current
        .executors
        .insert(BaseCodingAgent::Gemini, ExecutorConfig::new_with_default(CodingAgent::Gemini(
            AgentSettings { settings: "{}".to_string() },
        )));

    let overrides = current.save_overrides(&defaults).unwrap();
    assert_eq!(overrides.executors.len(), 2);
    let changed = overrides.executors.get(&BaseCodingAgent::ClaudeCode).unwrap();
    assert_eq!(changed.configurations.len(), 2);
    assert!(changed.get_variant("FAST").is_some());

    let loaded = ExecutorConfigs::load(builtin(), Some(overrides));
    assert!(same(&loaded, &current));
    assert!(same(&ExecutorConfigs::load(builtin(), None), &defaults));
    assert_eq!(builtin().save_overrides(&defaults).unwrap().executors.len(), 0);
}

#[test]
fn names_that_are_not_canonical_are_loaded_under_their_canonical_names() {
    let mut current = builtin();
    let mut profile = current.executors.remove(&BaseCodingAgent::ClaudeCode).unwrap();
    profile.configurations.insert("very fast".to_string(), claude(None, Some("haiku")));
    current.executors.insert(BaseCodingAgent::ClaudeCode, profile);

    let overrides = current.save_overrides(&builtin()).unwrap();
    let loaded = ExecutorConfigs::load(builtin(), Some(overrides));
    current.canonicalise();
    assert!(same(&loaded, &current));
    let names = loaded.executors.get(&BaseCodingAgent::ClaudeCode).unwrap();
    assert!(names.get_variant("VERY_FAST").is_some());
    assert!(names.get_variant("very fast").is_none());
}

#[test]
fn the_canonical_form_of_plain_words_is_canonical() {
    for (name, canonical) in
        [("very-fast", "VERY_FAST"), ("Very Fast", "VERY_FAST"), ("default", "DEFAULT"), ("", "")]
    {
        assert_eq!(canonical_variant_key(name), canonical);
        assert_eq!(canonical_variant_key(canonical), canonical);
    }
}

#[test]
fn a_name_stays_though_its_canonical_form_is_not_canonical() {
    let mut odd = configs(vec![(
        BaseCodingAgent::ClaudeCode,
        vec![("DEFAULT", claude(None, None)), ("1\u{345}", claude(None, Some("m")))],
    )]);
    odd.canonicalise();
    let profile = odd.executors.get(&BaseCodingAgent::ClaudeCode).unwrap();
    let name = canonical_variant_key("1\u{345}");
    assert_eq!(name, "1\u{399}");
    assert_eq!(canonical_variant_key(&name), "1_\u{399}");
    assert!(profile.get_variant(&name).is_some());
    assert_eq!(profile.configurations.len(), 2);
}

#[test]
fn built_in_profiles_cannot_be_deleted() {
    let defaults = builtin();
    let mut current = builtin();
    current.executors.remove(&BaseCodingAgent::Amp);
    let error = current.save_overrides(&defaults).unwrap_err();
    assert!(matches!(
        error,
        ProfileError::CannotDeleteExecutor { executor: BaseCodingAgent::Amp }
    ));
    assert_eq!(error.message(), "Built-in executor 'AMP' cannot be deleted");

    let mut current = builtin();
    current.executors.insert(
        BaseCodingAgent::ClaudeCode,
        ExecutorConfig::new_with_default(claude(None, None)),
    );
    let error = current.save_overrides(&defaults).unwrap_err();
    assert_eq!(
        error.message(),
        "Built-in configuration 'CLAUDE_CODE:PLAN' cannot be deleted"
    );
}

#[test]
fn profiles_that_cannot_be_used_are_refused() {
    let message = |profile: Vec<(&str, CodingAgent)>| {
        let configs = configs(vec![(BaseCodingAgent::ClaudeCode, profile)]);
        ExecutorConfigs::validate_merged(&configs).unwrap_err().message()
    };
    assert_eq!(
        message(vec![("PLAN", claude(None, None))]),
        "Validation error: Executor 'CLAUDE_CODE' is missing required 'DEFAULT' configuration"
    );
    assert_eq!(
        message(vec![("DEFAULT", amp())]),
        "Validation error: Executor key 'CLAUDE_CODE' does not match the agent variant 'AMP'"
    );
    assert_eq!(
        message(vec![("DEFAULT", claude(None, None)), ("__X", amp())]),
        "Validation error: Configuration name '__X' is reserved (starts with '__')"
    );
    assert!(ExecutorConfigs::validate_merged(&builtin()).is_ok());
    let mut current = builtin();
    let mut profile = current.executors.remove(&BaseCodingAgent::Amp).unwrap();
    profile.set_default(claude(None, None));
    current.executors.insert(BaseCodingAgent::Amp, profile);
    assert!(matches!(
        current.save_overrides(&builtin()).unwrap_err(),
        ProfileError::Validation(_)
    ));
}

#[test]
fn the_default_variant_is_set_on_its_own() {
    let mut profile = ExecutorConfig::new_with_default(amp());
    assert_eq!(
        profile.set_variant("Default".to_string(), amp()).unwrap_err(),
        "Cannot override 'DEFAULT' variant using set_variant, use set_default instead"
    );
    assert!(profile.set_variant("x".to_string(), amp()).is_ok());
    assert!(profile.get_variant("X").is_some());
    assert!(profile.get_variant("x").is_none());
}

#[test]
fn profile_ids_are_written_with_their_variant() {
    let id = ExecutorProfileId::new(BaseCodingAgent::DeepseekHarness);
    assert_eq!(id.cache_key(), "DEEPSEEK_HARNESS");
    let id = variant(BaseCodingAgent::ClaudeCode, "PLAN");
    assert_eq!(id.cache_key(), "CLAUDE_CODE:PLAN");
    assert_eq!(id.to_string(), "CLAUDE_CODE:PLAN");
    let default = to_default_variant(&id);
    assert_eq!(default.executor, BaseCodingAgent::ClaudeCode);
    assert_eq!(default.variant, None);
}

#[test]
fn different_profiles_have_different_keys() {
    let ids = [
        ExecutorProfileId::new(BaseCodingAgent::ClaudeCode),
        ExecutorProfileId::new(BaseCodingAgent::Amp),
        variant(BaseCodingAgent::ClaudeCode, "PLAN"),
        variant(BaseCodingAgent::ClaudeCode, ":PLAN"),
        variant(BaseCodingAgent::ClaudeCode, ""),
        variant(BaseCodingAgent::Amp, "PLAN"),
    ];
    for i in 0..ids.len() {
        for j in 0..i {
            assert_ne!(ids[i].cache_key(), ids[j].cache_key());
        }
    }
}

#[test]
fn old_names_of_agents_are_read() {
    assert_eq!(de_base_coding_agent_kebab("qwen-code").unwrap(), BaseCodingAgent::QwenCode);
    assert_eq!(de_base_coding_agent_kebab("CURSOR").unwrap(), BaseCodingAgent::CursorAgent);
    assert_eq!(de_base_coding_agent_kebab("cursor-agent").unwrap(), BaseCodingAgent::CursorAgent);
    assert_eq!(
        de_base_coding_agent_kebab("no-agent").unwrap_err(),
        "unknown executor 'no-agent' (normalized to 'NO_AGENT')"
    );
    for agent in [
        BaseCodingAgent::ClaudeCode,
        BaseCodingAgent::Amp,
        BaseCodingAgent::Gemini,
        BaseCodingAgent::CursorAgent,
        BaseCodingAgent::QwenCode,
        BaseCodingAgent::KimiCli,
        BaseCodingAgent::Reasonix,
        BaseCodingAgent::DeepseekHarness,
    ] {
        assert_eq!(BaseCodingAgent::from_name(agent.as_str()), Some(agent));
    }
}

#[test]
fn the_best_available_agent_is_recommended() {
    let configs = builtin();
    let login = |at: i64| AvailabilityInfo::LoginDetected { last_auth_timestamp: at };
    let recommended = |probes: Vec<(BaseCodingAgent, AvailabilityInfo)>| {
        configs.get_recommended_executor_profile(&probes).map(|id| id.executor)
    };
    assert_eq!(
        recommended(vec![
            (BaseCodingAgent::Amp, AvailabilityInfo::InstallationFound),
            (BaseCodingAgent::QwenCode, login(1)),
            (BaseCodingAgent::ClaudeCode, login(2)),
        ])
        .unwrap(),
        BaseCodingAgent::ClaudeCode
    );
    assert_eq!(
        recommended(vec![
            (BaseCodingAgent::QwenCode, login(5)),
            (BaseCodingAgent::ClaudeCode, login(2)),
        ])
        .unwrap(),
        BaseCodingAgent::QwenCode
    );
    for probes in [
        vec![BaseCodingAgent::QwenCode, BaseCodingAgent::ClaudeCode, BaseCodingAgent::Amp],
        vec![BaseCodingAgent::Amp, BaseCodingAgent::ClaudeCode, BaseCodingAgent::QwenCode],
    ] {
        let probes = probes.into_iter().map(|a| (a, AvailabilityInfo::InstallationFound)).collect();
        assert_eq!(recommended(probes).unwrap(), BaseCodingAgent::Amp);
    }
    let error = recommended(vec![
        (BaseCodingAgent::Amp, AvailabilityInfo::NotFound),
        (BaseCodingAgent::Gemini, login(9)),
    ])
    .unwrap_err();
    assert_eq!(error.message(), "No available executor profile");
    assert!(!AvailabilityInfo::NotFound.is_available());
    assert!(login(0).is_available());
}

fn kimi(mode: Option<KimiMode>) -> KimiCli {
    KimiCli {
        append_prompt: AppendPrompt { text: None },
        mode,
        model: Some("k2".to_string()),
        cmd: CmdOverrides { settings: "{}".to_string() },
        approvals: None,
    }
}

fn reasonix() -> Reasonix {
    Reasonix {
        append_prompt: AppendPrompt { text: None },
        model: None,
        dangerously_skip_permissions: None,
        use_code_mode: None,
        cmd: CmdOverrides { settings: "{}".to_string() },
        approvals: None,
    }
}

fn deepseek(model: Option<&str>) -> DeepseekHarness {
    DeepseekHarness {
        append_prompt: AppendPrompt { text: None },
        model: model.map(|m| m.to_string()),
        dangerously_skip_permissions: None,
        cmd: CmdOverrides { settings: "{}".to_string() },
        approvals: None,
    }
}

#[test]
fn an_attached_service_is_no_setting() {
    let mut attached = kimi(Some(KimiMode::Plan));
    attached.use_approvals(ApprovalService { handle: 3 });
    let plain = CodingAgent::KimiCli(kimi(Some(KimiMode::Plan)));
    let attached = CodingAgent::KimiCli(attached);
    assert!(plain.same_as(&attached));
    assert!(!plain.same_as(&CodingAgent::KimiCli(kimi(None))));
    assert!(CodingAgent::Reasonix(reasonix()).same_as(&CodingAgent::Reasonix(reasonix())));
    let deep = CodingAgent::DeepseekHarness(deepseek(None));
    assert!(!deep.same_as(&CodingAgent::DeepseekHarness(deepseek(Some("m")))));
    assert!(!deep.same_as(&plain));
    assert_eq!(deep.clone().base(), BaseCodingAgent::DeepseekHarness);
}

#[test]
fn a_configuration_is_renamed_unless_the_name_is_taken() {
    let mut profile = ExecutorConfig::new_with_default(amp());
    profile.set_canonical_variant("A".to_string(), qwen("1")).unwrap();
    profile.set_canonical_variant("B".to_string(), qwen("2")).unwrap();
    profile.rename(&"A".to_string(), "C".to_string());
    assert!(profile.get_variant("A").is_none());
    assert!(profile.get_variant("C").unwrap().same_as(&qwen("1")));
    profile.rename(&"C".to_string(), "B".to_string());
    assert!(profile.get_variant("C").is_none());
    assert!(profile.get_variant("B").unwrap().same_as(&qwen("2")));
    profile.rename(&"none".to_string(), "D".to_string());
    assert_eq!(profile.configurations.len(), 2);
    assert!(profile.set_canonical_variant("DEFAULT".to_string(), amp()).is_err());
}

#[test]
fn a_configuration_is_found_by_its_exact_name() {
    let configs = builtin();
    assert!(configs.find_agent(BaseCodingAgent::ClaudeCode, "PLAN").is_some());
    assert!(configs.find_agent(BaseCodingAgent::ClaudeCode, "plan").is_none());
    assert!(configs.find_agent(BaseCodingAgent::KimiCli, "DEFAULT").is_none());
}

#[test]
fn entries_keep_the_order_in_which_they_came() {
    let mut map: AssocMap<String, CodingAgent> = AssocMap::new();
    for name in ["b", "a", "c"] {
        map.insert(name.to_string(), amp());
    }
    map.insert("a".to_string(), qwen("{}"));
    assert_eq!(map.len(), 3);
    assert_eq!(map.key_at(1), "a");
    assert!(map.value_at(1).same_as(&qwen("{}")));
    assert!(map.remove(&"b".to_string()).is_some());
    assert!(map.remove(&"b".to_string()).is_none());
    assert_eq!(map.key_at(0), "a");
    assert_eq!(map.position(&"c".to_string()), Some(1));
    assert!(!map.contains_key(&"b".to_string()));
}
