use executors::agents::deepseek_harness::{
    dsh_acp_plugin_entry, dsh_home, DeepseekHarness, ProfileAction, DEFAULT_MODEL,
};
use executors::agents::kimi::{KimiCli, KimiMode};
use executors::agents::reasonix::{detect_reasonix_binary, switches_off, Reasonix};
use executors::agents::{AppendPrompt, AvailabilityInfo, BaseCodingAgent};
use executors::approvals::ApprovalService;
use executors::command::CmdOverrides;
use executors::config::{
    agent_of_name, executor_profile_from_v5, profiles_backup_name, CarriedSettings, Config, PreviousConfig,
    ProfileVariantLabel, UiLanguage,
};
use executors::path::PathParts;
use executors::process::{next_signal, KillSignal, GRACE_SECONDS};

const SERVICE: ApprovalService = ApprovalService { handle: 1 };

/// A name in small letters, with hyphens between its words.
fn hyphened(name: &str) -> String {
    name.to_lowercase().replace('_', "-")
}

fn cmd() -> CmdOverrides {
    CmdOverrides { settings: "{}".to_string() }
}

fn prompt() -> AppendPrompt {
    AppendPrompt { text: None }
}

fn kimi(mode: Option<KimiMode>) -> KimiCli {
    KimiCli { append_prompt: prompt(), mode, model: None, cmd: cmd(), approvals: Some(SERVICE) }
}

fn reasonix(model: Option<&str>, skip: Option<bool>, code: Option<bool>) -> Reasonix {
    Reasonix {
        append_prompt: prompt(),
        model: model.map(|m| m.to_string()),
        dangerously_skip_permissions: skip,
        use_code_mode: code,
        cmd: cmd(),
        approvals: None,
    }
}

fn deepseek(model: Option<&str>, skip: Option<bool>) -> DeepseekHarness {
    DeepseekHarness {
        append_prompt: prompt(),
        model: model.map(|m| m.to_string()),
        dangerously_skip_permissions: skip,
        cmd: cmd(),
        approvals: Some(SERVICE),
    }
}

#[test]
fn kimi_resumes_its_own_sessions() {
    let agent = kimi(Some(KimiMode::Auto));
    let command = agent.build_command_builder();
    assert_eq!(command.base, "npx -y @moonshot-ai/kimi-code");
    assert_eq!(command.params, vec!["acp"]);
    let harness = agent.acp_harness();
    assert_eq!(harness.session_namespace, "kimi_sessions");
    assert!(harness.native_session_resume);
    assert_eq!(harness.mode.as_deref(), Some("auto"));
    assert_eq!(harness.model, None);
    assert_eq!(kimi(None).acp_harness().mode, None);
    let ids: Vec<&str> = [KimiMode::Default, KimiMode::Plan, KimiMode::Auto, KimiMode::Yolo]
        .into_iter()
        .map(|mode| mode.as_acp_mode_id())
        .collect();
    assert_eq!(ids, vec!["default", "plan", "auto", "yolo"]);
}

#[test]
fn kimi_asks_nobody_in_its_freest_mode() {
    assert_eq!(kimi(Some(KimiMode::Yolo)).approvals_for_mode(), None);
    assert_eq!(kimi(Some(KimiMode::Default)).approvals_for_mode(), Some(SERVICE));
    assert_eq!(kimi(None).approvals_for_mode(), Some(SERVICE));
}

#[test]
fn kimi_is_found_by_its_directory() {
    let home = Some("/home/u".to_string());
    let agent = kimi(None);
    let config = agent.default_mcp_config_path(home.clone()).unwrap();
    assert_eq!(config.parts, vec![".kimi-code", "mcp.json"]);
    assert!(agent.default_mcp_config_path(None).is_none());
    assert_eq!(agent.installation_dir(home).unwrap().parts, vec![".kimi-code"]);
    assert_eq!(agent.get_availability_info(true), AvailabilityInfo::InstallationFound);
    assert_eq!(agent.get_availability_info(false), AvailabilityInfo::NotFound);
}

#[test]
fn reasonix_runs_in_a_terminal() {
    let command = reasonix(None, None, None).build_command_builder(true, false);
    assert_eq!(command.base, "script -q /dev/null reasonix run");
    assert!(command.params.is_empty());
    let command = reasonix(Some("mimo-pro"), Some(true), Some(true)).build_command_builder(false, true);
    assert_eq!(command.base, "npx -y reasonix@latest code");
    assert_eq!(command.params, vec!["--model", "mimo-pro", "--yolo"]);
    let command = reasonix(None, Some(true), None).spawn_command(true, false, "do it");
    assert_eq!(command.params, vec!["do it"]);
    assert_eq!(
        reasonix(None, None, None).follow_up_error(),
        "Reasonix does not support session resume via CLI"
    );
}

#[test]
fn the_binary_of_reasonix_can_be_switched_off() {
    assert!(detect_reasonix_binary(None, true));
    assert!(!detect_reasonix_binary(None, false));
    assert!(!detect_reasonix_binary(Some("1"), true));
    assert!(!detect_reasonix_binary(Some("TRUE"), true));
    assert!(!detect_reasonix_binary(Some("tRuE"), true));
    assert!(detect_reasonix_binary(Some("true "), true));
    assert!(!detect_reasonix_binary(Some("true"), true));
    assert!(detect_reasonix_binary(Some("0"), true));
    assert!(switches_off("1", ""));
    assert!(switches_off("", "true"));
    assert!(!switches_off("true", "1"));
}

#[test]
fn reasonix_is_found_by_its_directory_or_its_file() {
    let agent = reasonix(None, None, None);
    let home = || Some("/home/u".to_string());
    assert_eq!(
        agent.default_mcp_config_path(home(), true).unwrap().parts,
        vec![".reasonix", "config.toml"]
    );
    assert_eq!(
        agent.default_mcp_config_path(home(), false).unwrap().parts,
        vec![".reasonix", "config.json"]
    );
    assert!(agent.default_mcp_config_path(None, true).is_none());
    assert_eq!(agent.get_availability_info(false, true), AvailabilityInfo::InstallationFound);
    assert_eq!(agent.get_availability_info(false, false), AvailabilityInfo::NotFound);
}

#[test]
fn test_deserialize_empty_config() {
    let settings: serde_json::Value = serde_json::from_str("{}").unwrap();
    let agent = deepseek(settings.get("model").and_then(|model| model.as_str()), None);
    assert!(agent.model.is_none());
    assert_eq!(agent.model(), DEFAULT_MODEL);
}

#[test]
fn deepseek_has_a_default_model() {
    assert_eq!(deepseek(None, None).model(), DEFAULT_MODEL);
    assert_eq!(DEFAULT_MODEL, "deepseek-v4-flash");
    assert_eq!(deepseek(Some("deepseek-v4-pro"), None).model(), "deepseek-v4-pro");
    assert_eq!(deepseek(None, Some(true)).acp_approvals(), None);
    assert_eq!(deepseek(None, Some(false)).acp_approvals(), Some(SERVICE));
    let harness = deepseek(None, None).acp_harness();
    assert_eq!(harness.session_namespace, "deepseek_harness_sessions");
    assert!(!harness.native_session_resume);
    assert!(deepseek(None, None).default_mcp_config_path().is_none());
    assert_eq!(
        deepseek(None, None).get_availability_info(false, true),
        AvailabilityInfo::InstallationFound
    );
}

#[test]
fn deepseek_lives_where_the_environment_says() {
    let named = dsh_home(Some("/opt/dsh".to_string()), Some("/home/u".to_string())).unwrap();
    assert_eq!(named.root, "/opt/dsh");
    assert!(named.parts.is_empty());
    let home = dsh_home(None, Some("/home/u".to_string())).unwrap();
    assert_eq!(home.parts, vec![".dsh"]);
    assert!(dsh_home(None, None).is_none());
    assert_eq!(
        dsh_acp_plugin_entry(&home).parts,
        vec![".dsh", "profiles", "acp", "node_modules", "@deepseek-ai/dsh-acp", "lib", "index.js"]
    );
    let overlay = deepseek(Some("a.b/C1"), None).overlay_path(&home);
    assert_eq!(overlay.parts.last().unwrap(), "helios-acp-overlay-a_2e_b_2f_C1.yml");
}

#[test]
fn every_model_has_an_overlay_of_its_own() {
    let home = PathParts::of_root("/d".to_string());
    let file = |model: Option<&str>| {
        deepseek(model, None).overlay_path(&home).parts.last().unwrap().clone()
    };
    assert_eq!(file(None), "helios-acp-overlay-deepseek-v4-flash.yml");
    assert_eq!(file(Some("m.1")), "helios-acp-overlay-m_2e_1.yml");
    assert_eq!(file(Some("m-1")), "helios-acp-overlay-m-1.yml");
    assert_eq!(file(Some("m_1")), "helios-acp-overlay-m_5f_1.yml");
    assert_eq!(file(Some("m\u{e9}")), "helios-acp-overlay-m_e9_.yml");
    assert_eq!(file(Some("")), "helios-acp-overlay-.yml");
}

#[test]
fn deepseek_is_installed_before_it_is_used() {
    let agent = deepseek(None, None);
    let home = PathParts::of_root("/d".to_string());
    match agent.ensure_acp_profile(None, "", false, true) {
        ProfileAction::Fail(message) => assert_eq!(message, "cannot resolve dsh home"),
        other => panic!("expected a failure, got {other:?}"),
    }
    match agent.ensure_acp_profile(Some(&home), "/d/e.js", false, false) {
        ProfileAction::Bootstrap(command) => {
            assert_eq!(command.base, "npx -y @deepseek-ai/dsh");
            assert_eq!(
                command.params,
                vec!["plugin", "--profile", "acp", "add", "@deepseek-ai/dsh-acp"]
            );
        }
        other => panic!("expected an installation, got {other:?}"),
    }
    match agent.profile_bootstrapped(&home, "/d/e.js", true, false, "exit status: 0") {
        ProfileAction::Fail(message) => assert_eq!(
            message,
            "failed to bootstrap dsh ACP profile: `@deepseek-ai/dsh-acp` install exited with exit status: 0"
        ),
        other => panic!("expected a failure, got {other:?}"),
    }
    for action in [
        agent.ensure_acp_profile(Some(&home), "/d/e.js", true, true),
        agent.profile_bootstrapped(&home, "/d/e.js", true, true, ""),
    ] {
        match action {
            ProfileAction::WriteOverlay { path, content } => {
                assert_eq!(
                    path.parts,
                    vec!["profiles", "acp", "helios-acp-overlay-deepseek-v4-flash.yml"]
                );
                assert_eq!(
                    content,
                    "- insert:\n    - id: acp\n      name: '/d/e.js'\n      config:\n        provider: deepseek-official\n        model: deepseek-v4-flash\n"
                );
            }
            other => panic!("expected an overlay, got {other:?}"),
        }
    }
    let command = agent.build_command_builder("/d/o.yml", true);
    assert_eq!(command.base, "dsh");
    assert_eq!(command.params, vec!["--profile", "acp", "--patch", "/d/o.yml"]);
}

#[test]
fn signals_escalate_until_the_process_is_gone() {
    assert_eq!(GRACE_SECONDS, 2);
    let first = next_signal(None, false);
    assert_eq!(first, Some(KillSignal::Interrupt));
    let second = next_signal(first, false);
    assert_eq!(second, Some(KillSignal::Terminate));
    let third = next_signal(second, false);
    assert_eq!(third, Some(KillSignal::Kill));
    assert_eq!(next_signal(third, false), None);
    assert_eq!(next_signal(first, true), None);
}

#[test]
fn migrates_multi_word_kebab_case_profile_name() {
    let profile = ProfileVariantLabel::default("qwen-code".to_string());
    let id = executor_profile_from_v5(&profile);
    assert_eq!(id.executor, BaseCodingAgent::QwenCode);
    assert_eq!(id.variant, None);
}

#[test]
fn migrates_single_word_profile_name() {
    let profile = ProfileVariantLabel::default(hyphened("CLAUDE_CODE"));
    let id = executor_profile_from_v5(&profile);
    assert_eq!(id.executor, BaseCodingAgent::ClaudeCode);
    assert_eq!(id.variant, None);
}

#[test]
fn preserves_variant_during_migration() {
    let profile = ProfileVariantLabel::with_variant(hyphened("CLAUDE_CODE"), "plan".to_string());
    let id = executor_profile_from_v5(&profile);
    assert_eq!(id.executor, BaseCodingAgent::ClaudeCode);
    assert_eq!(id.variant.as_deref(), Some("PLAN"));
}

#[test]
fn unknown_profile_falls_back_to_claude_code() {
    let profile = ProfileVariantLabel::default("not-a-real-agent".to_string());
    let id = executor_profile_from_v5(&profile);
    assert_eq!(id.executor, BaseCodingAgent::ClaudeCode);
    assert_eq!(id.variant, None);
}

fn settings(theme: &str) -> CarriedSettings {
    CarriedSettings {
        theme: theme.to_string(),
        notifications: "{}".to_string(),
        editor: "{}".to_string(),
        github: "{}".to_string(),
    }
}

fn previous() -> PreviousConfig {
    PreviousConfig {
        profile: ProfileVariantLabel::default("amp".to_string()),
        disclaimer_acknowledged: true,
        onboarding_acknowledged: false,
        github_login_acknowledged: true,
        telemetry_acknowledged: false,
        settings: settings("\"DARK\""),
        analytics_enabled: Some(false),
        workspace_dir: Some("/w".to_string()),
        last_app_version: None,
        show_release_notes: true,
    }
}

#[test]
fn settings_of_the_version_before_are_taken_over() {
    let config = Config::from_previous_version(previous());
    assert_eq!(config.config_version, "v6");
    assert_eq!(config.executor_profile.executor, BaseCodingAgent::Amp);
    assert!(config.disclaimer_acknowledged);
    assert!(!config.onboarding_acknowledged);
    assert_eq!(config.settings.theme, "\"DARK\"");
    assert_eq!(config.analytics_enabled, Some(false));
    assert_eq!(config.workspace_dir.as_deref(), Some("/w"));
    assert!(config.show_release_notes);
    assert_eq!(config.language, UiLanguage::default());
    assert_eq!(config.language, UiLanguage::Browser);
}

#[test]
fn stored_settings_are_used_where_they_can_be() {
    let mut current = Config::initial(settings("a"));
    current.language = UiLanguage::Ja;
    let used = Config::from_stored(Some(current), Some(previous()), settings("b"));
    assert_eq!(used.language, UiLanguage::Ja);
    let mut older = Config::initial(settings("a"));
    older.config_version = "v5".to_string();
    let used = Config::from_stored(Some(older), Some(previous()), settings("b"));
    assert_eq!(used.executor_profile.executor, BaseCodingAgent::Amp);
    let used = Config::from_stored(None, None, settings("b"));
    assert_eq!(used.executor_profile.executor, BaseCodingAgent::ClaudeCode);
    assert_eq!(used.settings.theme, "b");
    assert!(!used.show_release_notes);
}

#[test]
fn old_profiles_are_kept_under_a_dated_name() {
    assert_eq!(profiles_backup_name(1_700_000_000), "profiles_v5_backup_1700000000.json");
    assert_eq!(profiles_backup_name(0), "profiles_v5_backup_0.json");
}

#[test]
fn names_in_uppercase_stand_for_agents() {
    assert_eq!(agent_of_name("KIMI_CLI"), BaseCodingAgent::KimiCli);
    assert_eq!(agent_of_name("kimi_cli"), BaseCodingAgent::ClaudeCode);
    let profile = ProfileVariantLabel::default("\u{df}".to_string());
    assert_eq!(executor_profile_from_v5(&profile).executor, BaseCodingAgent::ClaudeCode);
}

#[test]
fn a_run_of_kimi_is_never_rolled_back() {
    let agent = kimi(Some(KimiMode::Plan));
    let plan = agent.spawn("do it");
    assert_eq!(plan.prompt, "do it");
    assert_eq!(plan.command.params, vec!["acp"]);
    assert_eq!(plan.harness.mode.as_deref(), Some("plan"));
    assert_eq!(plan.approvals, Some(SERVICE));
    assert!(plan.resumed.is_none());
    let plan = agent.spawn_follow_up("go on", "session-1", Some("message-1"));
    let resumed = plan.resumed.unwrap();
    assert_eq!(resumed.session_id, "session-1");
    assert_eq!(resumed.reset_to_message_id, None);
}

#[test]
fn a_run_of_deepseek_can_be_rolled_back() {
    let agent = deepseek(None, Some(true));
    let plan = agent.spawn("/o.yml", true, "do it");
    assert_eq!(plan.command.base, "dsh");
    assert_eq!(plan.overrides.settings, "{}");
    assert_eq!(plan.approvals, None);
    assert!(plan.append_prompt.text.is_none());
    assert!(plan.resumed.is_none());
    let plan = agent.spawn_follow_up("/o.yml", false, "go on", "session-1", Some("message-1"));
    assert_eq!(plan.command.params.last().unwrap(), "/o.yml");
    let resumed = plan.resumed.unwrap();
    assert_eq!(resumed.session_id, "session-1");
    assert_eq!(resumed.reset_to_message_id.as_deref(), Some("message-1"));
}
