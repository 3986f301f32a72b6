//! What holds of the agents, whatever their settings.

use vstd::prelude::*;

use crate::approvals::ApprovalService;
use crate::command::CommandBuilder;
use crate::path::PathParts;

use super::deepseek_harness::{
    dsh_acp_plugin_entry, dsh_home, dsh_profile_dir, DeepseekHarness, ProfileAction,
};
use super::kimi::{KimiCli, KimiMode};
use super::reasonix::{detect_reasonix_binary, Reasonix};
use super::{
    AgentView, AvailabilityInfo, BaseCodingAgent, CodingAgent, HarnessSetup, SpawnPlan,
};

verus! {

/// Two agents count as the same exactly if they are of the same kind and agree
/// on every setting. The approval service that is attached to one is no setting.
pub proof fn law_same_agents_agree_on_every_setting(a: CodingAgent, b: CodingAgent, same: bool)
    requires
        call_ensures(CodingAgent::same_as, (&a, &b), same),
    ensures
        match (a, b) {
            (CodingAgent::ClaudeCode(x), CodingAgent::ClaudeCode(y)) => same == (x.plan == y.plan
                && x.model.deep_view() == y.model.deep_view() && x.settings@ == y.settings@),
            (CodingAgent::Amp(x), CodingAgent::Amp(y)) => same == (x.settings@ == y.settings@),
            (CodingAgent::Gemini(x), CodingAgent::Gemini(y)) => same == (x.settings@
                == y.settings@),
            (CodingAgent::CursorAgent(x), CodingAgent::CursorAgent(y)) => same == (x.settings@
                == y.settings@),
            (CodingAgent::QwenCode(x), CodingAgent::QwenCode(y)) => same == (x.settings@
                == y.settings@),
            (CodingAgent::KimiCli(x), CodingAgent::KimiCli(y)) => same == (
            x.append_prompt.text.deep_view() == y.append_prompt.text.deep_view() && x.mode
                == y.mode && x.model.deep_view() == y.model.deep_view() && x.cmd.settings@
                == y.cmd.settings@),
            (CodingAgent::Reasonix(x), CodingAgent::Reasonix(y)) => same == (
            x.append_prompt.text.deep_view() == y.append_prompt.text.deep_view()
                && x.model.deep_view() == y.model.deep_view() && x.dangerously_skip_permissions
                == y.dangerously_skip_permissions && x.use_code_mode == y.use_code_mode
                && x.cmd.settings@ == y.cmd.settings@),
            (CodingAgent::DeepseekHarness(x), CodingAgent::DeepseekHarness(y)) => same == (
            x.append_prompt.text.deep_view() == y.append_prompt.text.deep_view()
                && x.model.deep_view() == y.model.deep_view() && x.dangerously_skip_permissions
                == y.dangerously_skip_permissions && x.cmd.settings@ == y.cmd.settings@),
            _ => !same,
        },
{
}

/// The same for two agents of one kind, when they are asked themselves.
pub proof fn law_same_kimis_agree_on_every_setting(a: KimiCli, b: KimiCli, same: bool)
    requires
        call_ensures(KimiCli::same_as, (&a, &b), same),
    ensures
        same == (a.append_prompt.text.deep_view() == b.append_prompt.text.deep_view() && a.mode
            == b.mode && a.model.deep_view() == b.model.deep_view() && a.cmd.settings@
            == b.cmd.settings@),
{
}

/// The same for two agents of one kind, when they are asked themselves.
pub proof fn law_same_reasonixes_agree_on_every_setting(a: Reasonix, b: Reasonix, same: bool)
    requires
        call_ensures(Reasonix::same_as, (&a, &b), same),
    ensures
        same == (a.append_prompt.text.deep_view() == b.append_prompt.text.deep_view()
            && a.model.deep_view() == b.model.deep_view() && a.dangerously_skip_permissions
            == b.dangerously_skip_permissions && a.use_code_mode == b.use_code_mode
            && a.cmd.settings@ == b.cmd.settings@),
{
}

/// The same for two agents of one kind, when they are asked themselves.
pub proof fn law_same_harnesses_agree_on_every_setting(
    a: DeepseekHarness,
    b: DeepseekHarness,
    same: bool,
)
    requires
        call_ensures(DeepseekHarness::same_as, (&a, &b), same),
    ensures
        same == (a.append_prompt.text.deep_view() == b.append_prompt.text.deep_view()
            && a.model.deep_view() == b.model.deep_view() && a.dangerously_skip_permissions
            == b.dangerously_skip_permissions && a.cmd.settings@ == b.cmd.settings@),
{
}

/// Agents that are equal but for their approval services agree on every setting.
pub proof fn law_detached_agents_keep_every_setting(a: AgentView, b: AgentView)
    requires
        a.detached() == b.detached(),
    ensures
        match (a, b) {
            (AgentView::ClaudeCode(x), AgentView::ClaudeCode(y)) => x.plan == y.plan && x.model
                == y.model && x.settings == y.settings,
            (AgentView::Amp(x), AgentView::Amp(y)) => x == y,
            (AgentView::Gemini(x), AgentView::Gemini(y)) => x == y,
            (AgentView::CursorAgent(x), AgentView::CursorAgent(y)) => x == y,
            (AgentView::QwenCode(x), AgentView::QwenCode(y)) => x == y,
            (AgentView::KimiCli(x), AgentView::KimiCli(y)) => x.append_prompt == y.append_prompt
                && x.mode == y.mode && x.model == y.model && x.cmd == y.cmd,
            (AgentView::Reasonix(x), AgentView::Reasonix(y)) => x.append_prompt
                == y.append_prompt && x.model == y.model && x.dangerously_skip_permissions
                == y.dangerously_skip_permissions && x.use_code_mode == y.use_code_mode && x.cmd
                == y.cmd,
            (AgentView::DeepseekHarness(x), AgentView::DeepseekHarness(y)) => x.append_prompt
                == y.append_prompt && x.model == y.model && x.dangerously_skip_permissions
                == y.dangerously_skip_permissions && x.cmd == y.cmd,
            _ => false,
        },
{
}

/// The kind of an agent is that of its settings.
pub proof fn law_kind_is_that_of_the_settings(agent: CodingAgent, kind: BaseCodingAgent)
    requires
        call_ensures(CodingAgent::base, (&agent,), kind),
    ensures
        kind == BaseCodingAgent::ClaudeCode <==> agent is ClaudeCode,
        kind == BaseCodingAgent::Amp <==> agent is Amp,
        kind == BaseCodingAgent::Gemini <==> agent is Gemini,
        kind == BaseCodingAgent::CursorAgent <==> agent is CursorAgent,
        kind == BaseCodingAgent::QwenCode <==> agent is QwenCode,
        kind == BaseCodingAgent::KimiCli <==> agent is KimiCli,
        kind == BaseCodingAgent::Reasonix <==> agent is Reasonix,
        kind == BaseCodingAgent::DeepseekHarness <==> agent is DeepseekHarness,
{
}

/// The name of a kind of agent is read as that kind again.
pub proof fn law_name_is_read_as_its_agent(
    agent: BaseCodingAgent,
    name: &str,
    read: Option<BaseCodingAgent>,
)
    requires
        call_ensures(BaseCodingAgent::as_str, (&agent,), name),
        call_ensures(BaseCodingAgent::from_name, (name,), read),
    ensures
        read == Some(agent),
{
    super::law_name_stands_for_its_agent(agent);
}

/// A name is read as a kind of agent only if it is the name of that kind, or the
/// name that the Cursor agent had in the past.
pub proof fn law_only_names_of_agents_are_read(
    name: &str,
    read: Option<BaseCodingAgent>,
    own: &str,
)
    requires
        call_ensures(BaseCodingAgent::from_name, (name,), read),
        read is Some ==> call_ensures(BaseCodingAgent::as_str, (&read->0,), own),
    ensures
        read is Some ==> name@ == own@ || (read == Some(BaseCodingAgent::CursorAgent) && name@
            == "CURSOR"@),
        name@ == "CURSOR"@ ==> read == Some(BaseCodingAgent::CursorAgent),
{
    reveal_strlit("CURSOR");
    reveal_strlit("CLAUDE_CODE");
    reveal_strlit("AMP");
    reveal_strlit("GEMINI");
    assert("CURSOR"@.len() == 6);
    assert("CLAUDE_CODE"@.len() == 11);
    assert("AMP"@.len() == 3);
    assert("GEMINI"@[0] == 'G');
    assert("CURSOR"@[0] == 'C');
}

/// Each kind of agent goes by its own name.
pub proof fn law_agents_have_their_names(agent: BaseCodingAgent, name: &str)
    requires
        call_ensures(BaseCodingAgent::as_str, (&agent,), name),
    ensures
        name@ == match agent {
            BaseCodingAgent::ClaudeCode => "CLAUDE_CODE"@,
            BaseCodingAgent::Amp => "AMP"@,
            BaseCodingAgent::Gemini => "GEMINI"@,
            BaseCodingAgent::CursorAgent => "CURSOR_AGENT"@,
            BaseCodingAgent::QwenCode => "QWEN_CODE"@,
            BaseCodingAgent::KimiCli => "KIMI_CLI"@,
            BaseCodingAgent::Reasonix => "REASONIX"@,
            BaseCodingAgent::DeepseekHarness => "DEEPSEEK_HARNESS"@,
        },
{
}

/// An agent is available exactly if something was found of it.
pub proof fn law_available_is_what_was_found(info: AvailabilityInfo, available: bool)
    requires
        call_ensures(AvailabilityInfo::is_available, (&info,), available),
    ensures
        available <==> info is LoginDetected || info is InstallationFound,
{
}

/// The model of a run of Kimi is the one that is set, and there is none exactly
/// where none is set; so runs of settings with different models differ in their
/// model.
pub proof fn law_kimi_runs_with_its_model(
    a: KimiCli,
    b: KimiCli,
    a_harness: HarnessSetup,
    b_harness: HarnessSetup,
)
    requires
        call_ensures(KimiCli::acp_harness, (&a,), a_harness),
        call_ensures(KimiCli::acp_harness, (&b,), b_harness),
    ensures
        a_harness.model is Some <==> a.model is Some,
        a.model matches Some(model) ==> a_harness.model matches Some(used) && used@ == model@,
        a.model.deep_view() != b.model.deep_view() ==> a_harness.model.deep_view()
            != b_harness.model.deep_view(),
{
}

/// A run of Kimi is in the mode that is set, each of which has an id of its own,
/// and in none exactly where none is set.
pub proof fn law_kimi_runs_in_its_mode(
    a: KimiCli,
    b: KimiCli,
    a_harness: HarnessSetup,
    b_harness: HarnessSetup,
)
    requires
        call_ensures(KimiCli::acp_harness, (&a,), a_harness),
        call_ensures(KimiCli::acp_harness, (&b,), b_harness),
    ensures
        a_harness.mode is Some <==> a.mode is Some,
        a.mode == b.mode <==> a_harness.mode.deep_view() == b_harness.mode.deep_view(),
        a.mode == Some(KimiMode::Default) ==> a_harness.mode->0@ == "default"@,
        a.mode == Some(KimiMode::Plan) ==> a_harness.mode->0@ == "plan"@,
        a.mode == Some(KimiMode::Auto) ==> a_harness.mode->0@ == "auto"@,
        a.mode == Some(KimiMode::Yolo) ==> a_harness.mode->0@ == "yolo"@,
{
    reveal_strlit("default");
    reveal_strlit("plan");
    reveal_strlit("auto");
    reveal_strlit("yolo");
    assert("default"@.len() == 7);
    assert("plan"@[0] == 'p');
    assert("auto"@[0] == 'a');
    assert("yolo"@[0] == 'y');
}

/// Kimi asks for approvals unless its mode allows everything.
pub proof fn law_kimi_asks_unless_it_may_do_anything(
    agent: KimiCli,
    used: Option<ApprovalService>,
)
    requires
        call_ensures(KimiCli::approvals_for_mode, (&agent,), used),
    ensures
        agent.mode == Some(KimiMode::Yolo) ==> used is None,
        agent.mode != Some(KimiMode::Yolo) ==> used == agent.approvals,
{
}

/// A run of Kimi has its prompt, what the user puts after prompts and changes of
/// the command, the model and mode that are set, and the approvals of its mode.
pub proof fn law_kimi_run_has_all_settings(agent: KimiCli, prompt: &str, plan: SpawnPlan)
    requires
        call_ensures(KimiCli::spawn, (&agent, prompt), plan),
    ensures
        plan.prompt@ == prompt@,
        plan.append_prompt.text.deep_view() == agent.append_prompt.text.deep_view(),
        plan.overrides.settings@ == agent.cmd.settings@,
        plan.harness.model.deep_view() == agent.model.deep_view(),
        plan.harness.mode is Some <==> agent.mode is Some,
        plan.approvals == if agent.mode == Some(KimiMode::Yolo) {
            None
        } else {
            agent.approvals
        },
        plan.resumed is None,
        plan.command.base@ == "npx -y @moonshot-ai/kimi-code"@,
        plan.command.params@.len() == 1,
        plan.command.params@[0]@ == "acp"@,
{
    assert(plan.command@.params.len() == 1);
    assert(plan.command@.params[0] == plan.command.params@[0]@);
}

/// A further run of Kimi differs from a first one in the session that it takes
/// up, and in nothing else. It is never rolled back.
pub proof fn law_kimi_follow_up_takes_up_its_session(
    agent: KimiCli,
    prompt: &str,
    session_id: &str,
    reset: Option<&str>,
    first: SpawnPlan,
    further: SpawnPlan,
)
    requires
        call_ensures(KimiCli::spawn, (&agent, prompt), first),
        call_ensures(KimiCli::spawn_follow_up, (&agent, prompt, session_id, reset), further),
    ensures
        further.resumed matches Some(resumed) && resumed.session_id@ == session_id@
            && resumed.reset_to_message_id is None,
        further.command@ == first.command@,
        further.overrides.settings@ == first.overrides.settings@,
        further.prompt@ == first.prompt@,
        further.append_prompt.text.deep_view() == first.append_prompt.text.deep_view(),
        further.harness.model.deep_view() == first.harness.model.deep_view(),
        further.harness.mode.deep_view() == first.harness.mode.deep_view(),
        further.harness.session_namespace@ == first.harness.session_namespace@,
        further.harness.native_session_resume == first.harness.native_session_resume,
        further.approvals == first.approvals,
{
}

/// Kimi takes up a session by itself, the DeepSeek Harness does not, and their
/// sessions are stored apart.
pub proof fn law_sessions_of_agents_are_kept_apart(
    kimi: KimiCli,
    deepseek: DeepseekHarness,
    kimi_harness: HarnessSetup,
    deepseek_harness: HarnessSetup,
)
    requires
        call_ensures(KimiCli::acp_harness, (&kimi,), kimi_harness),
        call_ensures(DeepseekHarness::acp_harness, (&deepseek,), deepseek_harness),
    ensures
        kimi_harness.native_session_resume,
        !deepseek_harness.native_session_resume,
        kimi_harness.session_namespace@ != deepseek_harness.session_namespace@,
        kimi_harness.session_namespace@ == "kimi_sessions"@,
        deepseek_harness.session_namespace@ == "deepseek_harness_sessions"@,
        deepseek_harness.mode is None,
        deepseek_harness.model is None,
{
    reveal_strlit("kimi_sessions");
    reveal_strlit("deepseek_harness_sessions");
    assert("kimi_sessions"@.len() == 13);
    assert("deepseek_harness_sessions"@.len() == 25);
}

/// Attaching an approval service changes no setting, and the service is used.
pub proof fn law_attached_service_is_used_by_kimi(
    agent: &mut KimiCli,
    service: ApprovalService,
    used: Option<ApprovalService>,
)
    requires
        call_ensures(KimiCli::use_approvals, (agent, service), ()),
        call_ensures(KimiCli::approvals_for_mode, (final(agent),), used),
    ensures
        old(agent).mode != Some(KimiMode::Yolo) ==> used == Some(service),
        final(agent).mode == old(agent).mode,
        final(agent).model.deep_view() == old(agent).model.deep_view(),
        final(agent).append_prompt.text.deep_view() == old(agent).append_prompt.text.deep_view(),
        final(agent).cmd.settings@ == old(agent).cmd.settings@,
{
}

/// Attaching an approval service changes no setting, and the service is used
/// unless permissions are skipped.
pub proof fn law_attached_service_is_used_by_deepseek(
    agent: &mut DeepseekHarness,
    service: ApprovalService,
    used: Option<ApprovalService>,
)
    requires
        call_ensures(DeepseekHarness::use_approvals, (agent, service), ()),
        call_ensures(DeepseekHarness::acp_approvals, (final(agent),), used),
    ensures
        used == if old(agent).dangerously_skip_permissions == Some(true) {
            None
        } else {
            Some(service)
        },
        final(agent).model.deep_view() == old(agent).model.deep_view(),
        final(agent).dangerously_skip_permissions == old(agent).dangerously_skip_permissions,
        final(agent).append_prompt.text.deep_view() == old(agent).append_prompt.text.deep_view(),
        final(agent).cmd.settings@ == old(agent).cmd.settings@,
{
}

/// The DeepSeek Harness uses the model that is set, and else one that is always
/// the same.
pub proof fn law_deepseek_uses_its_model(
    a: DeepseekHarness,
    b: DeepseekHarness,
    a_model: &str,
    b_model: &str,
)
    requires
        call_ensures(DeepseekHarness::model, (&a,), a_model),
        call_ensures(DeepseekHarness::model, (&b,), b_model),
    ensures
        a.model matches Some(model) ==> a_model@ == model@,
        a.model is None ==> a_model@ == "deepseek-v4-flash"@,
        a.model is None && b.model is None ==> a_model@ == b_model@,
{
}

/// A run of the DeepSeek Harness has its prompt, its overlay as the last
/// parameter, and what the user set.
pub proof fn law_deepseek_run_has_all_settings(
    agent: DeepseekHarness,
    overlay: &str,
    native_binary: bool,
    prompt: &str,
    plan: SpawnPlan,
)
    requires
        call_ensures(DeepseekHarness::spawn, (&agent, overlay, native_binary, prompt), plan),
    ensures
        plan.prompt@ == prompt@,
        plan.append_prompt.text.deep_view() == agent.append_prompt.text.deep_view(),
        plan.overrides.settings@ == agent.cmd.settings@,
        plan.approvals == if agent.dangerously_skip_permissions == Some(true) {
            None
        } else {
            agent.approvals
        },
        plan.resumed is None,
        plan.command.base@ == if native_binary {
            "dsh"@
        } else {
            "npx -y @deepseek-ai/dsh"@
        },
        plan.command.params@.len() == 4,
        plan.command.params@[0]@ == "--profile"@,
        plan.command.params@[1]@ == "acp"@,
        plan.command.params@[2]@ == "--patch"@,
        plan.command.params@[3]@ == overlay@,
{
    let params = plan.command@.params;
    assert(params.len() == 4);
    assert(params[0] == plan.command.params@[0]@);
    assert(params[1] == plan.command.params@[1]@);
    assert(params[2] == plan.command.params@[2]@);
    assert(params[3] == plan.command.params@[3]@);
}

/// A further run of the DeepSeek Harness differs from a first one in the session
/// that it takes up and the message that it is rolled back to.
pub proof fn law_deepseek_follow_up_takes_up_its_session(
    agent: DeepseekHarness,
    overlay: &str,
    native_binary: bool,
    prompt: &str,
    session_id: &str,
    reset: Option<&str>,
    first: SpawnPlan,
    further: SpawnPlan,
)
    requires
        call_ensures(DeepseekHarness::spawn, (&agent, overlay, native_binary, prompt), first),
        call_ensures(
            DeepseekHarness::spawn_follow_up,
            (&agent, overlay, native_binary, prompt, session_id, reset),
            further,
        ),
    ensures
        further.resumed matches Some(resumed) && resumed.session_id@ == session_id@ && (
        resumed.reset_to_message_id is Some <==> reset is Some) && (reset matches Some(id)
            ==> resumed.reset_to_message_id->0@ == id@),
        further.command@ == first.command@,
        further.overrides.settings@ == first.overrides.settings@,
        further.prompt@ == first.prompt@,
        further.append_prompt.text.deep_view() == first.append_prompt.text.deep_view(),
        further.harness.session_namespace@ == first.harness.session_namespace@,
        further.approvals == first.approvals,
{
}

/// The server of the DeepSeek Harness is installed where its entry is missing,
/// and else told of the entry and the model; without a directory nothing can be
/// done.
pub proof fn law_profile_is_installed_before_it_is_used(
    agent: DeepseekHarness,
    home: Option<&PathParts>,
    entry: &str,
    entry_exists: bool,
    native_binary: bool,
    action: ProfileAction,
)
    requires
        call_ensures(
            DeepseekHarness::ensure_acp_profile,
            (&agent, home, entry, entry_exists, native_binary),
            action,
        ),
    ensures
        action is Fail <==> home is None,
        action is Bootstrap <==> home is Some && !entry_exists,
        action is WriteOverlay <==> home is Some && entry_exists,
        action matches ProfileAction::Bootstrap(command) ==> command.params@.len() == 5
            && command.params@[0]@ == "plugin"@ && command.params@[1]@ == "--profile"@
            && command.params@[2]@ == "acp"@ && command.params@[3]@ == "add"@
            && command.params@[4]@ == "@deepseek-ai/dsh-acp"@,
{
    if let ProfileAction::Bootstrap(command) = action {
        let params = command@.params;
        assert(params.len() == 5);
        assert(params[0] == command.params@[0]@);
        assert(params[1] == command.params@[1]@);
        assert(params[2] == command.params@[2]@);
        assert(params[3] == command.params@[3]@);
        assert(params[4] == command.params@[4]@);
    }
}

/// Whether a text has another one in it.
pub open spec fn holds(whole: Seq<char>, part: Seq<char>) -> bool {
    exists|at: int|
        0 <= at && at + part.len() <= whole.len() && #[trigger] whole.subrange(
            at,
            at + part.len(),
        ) == part
}

/// An overlay names the entry of the server and the model in use.
pub proof fn law_overlay_names_entry_and_model(
    agent: DeepseekHarness,
    home: Option<&PathParts>,
    entry: &str,
    native_binary: bool,
    action: ProfileAction,
    model: &str,
)
    requires
        call_ensures(
            DeepseekHarness::ensure_acp_profile,
            (&agent, home, entry, true, native_binary),
            action,
        ),
        call_ensures(DeepseekHarness::model, (&agent,), model),
    ensures
        action matches ProfileAction::WriteOverlay { path, content } ==> {
            &&& holds(content@, "      name: '"@ + entry@ + "'\n"@)
            &&& holds(content@, "        model: "@ + model@ + "\n"@)
            &&& holds(content@, "        provider: deepseek-official\n"@)
        },
{
    reveal_strlit("- insert:\n    - id: acp\n      name: '");
    reveal_strlit("      name: '");
    reveal_strlit("'\n");
    reveal_strlit("'\n      config:\n        provider: ");
    reveal_strlit("deepseek-official");
    reveal_strlit("        provider: deepseek-official\n");
    reveal_strlit("\n        model: ");
    reveal_strlit("        model: ");
    reveal_strlit("\n");
    if let ProfileAction::WriteOverlay { path, content } = action {
        let whole = content@;
        let head = "- insert:\n    - id: acp\n      name: '"@;
        let middle = "'\n      config:\n        provider: "@;
        let name = "      name: '"@ + entry@ + "'\n"@;
        let at = head.len() - "      name: '"@.len();
        assert(whole.subrange(at, at + name.len()) =~= name);
        let provider = "        provider: deepseek-official\n"@;
        let before = head.len() + entry@.len() + middle.len() - "        provider: "@.len();
        reveal_strlit("        provider: ");
        assert(whole.subrange(before, before + provider.len()) =~= provider);
        let shown = "        model: "@ + model@ + "\n"@;
        let end = whole.len() - shown.len();
        assert(whole.subrange(end, end + shown.len()) =~= shown);
    }
}

/// After the installation the overlay is written exactly if it succeeded and
/// the entry is there, and it is the one that would be written without one.
pub proof fn law_installation_is_checked(
    agent: DeepseekHarness,
    home: &PathParts,
    entry: &str,
    succeeded: bool,
    entry_exists: bool,
    status: &str,
    native_binary: bool,
    after: ProfileAction,
    direct: ProfileAction,
)
    requires
        call_ensures(
            DeepseekHarness::profile_bootstrapped,
            (&agent, home, entry, succeeded, entry_exists, status),
            after,
        ),
        call_ensures(
            DeepseekHarness::ensure_acp_profile,
            (&agent, Some(home), entry, true, native_binary),
            direct,
        ),
    ensures
        after is WriteOverlay <==> succeeded && entry_exists,
        after is Fail <==> !(succeeded && entry_exists),
        after is WriteOverlay ==> after->content@ == direct->content@ && after->path@
            == direct->path@,
        after matches ProfileAction::Fail(message) ==> message@.len() >= status@.len()
            && message@.skip(message@.len() - status@.len()) == status@,
{
    if let ProfileAction::Fail(message) = after {
        assert(message@.skip(message@.len() - status@.len()) =~= status@);
    }
}

/// The directory of the DeepSeek Harness is the one that is named, or else one
/// in the home directory; without either there is none.
pub proof fn law_named_directory_comes_first(
    named: Option<String>,
    home: Option<String>,
    found: Option<PathParts>,
)
    requires
        call_ensures(dsh_home, (named, home), found),
    ensures
        found is Some <==> named is Some || home is Some,
        named matches Some(dir) ==> found->0.root@ == dir@ && found->0.parts@.len() == 0,
        named is None && home is Some ==> found->0.root@ == home->0@ && found->0.parts@.len() == 1
            && found->0.parts@[0]@ == ".dsh"@,
{
    if found is Some {
        assert(found.deep_view() == Some(found->0@));
        assert(found->0@.parts.len() == found->0.parts@.len());
        if named is None {
            assert(found->0@.parts[0] == found->0.parts@[0]@);
        }
    }
}

/// What is installed, and the overlays, lie in the directory of the profile.
pub proof fn law_files_lie_in_the_profile(
    agent: DeepseekHarness,
    home: &PathParts,
    dir: PathParts,
    entry: PathParts,
    overlay: PathParts,
)
    requires
        call_ensures(dsh_profile_dir, (home,), dir),
        call_ensures(dsh_acp_plugin_entry, (home,), entry),
        call_ensures(DeepseekHarness::overlay_path, (&agent, home), overlay),
    ensures
        dir.root@ == home.root@,
        entry.root@ == home.root@,
        overlay.root@ == home.root@,
        dir@.parts == home@.parts + seq!["profiles"@, "acp"@],
        entry@.parts == dir@.parts + seq![
            "node_modules"@,
            "@deepseek-ai/dsh-acp"@,
            "lib"@,
            "index.js"@,
        ],
        overlay@.parts.len() == dir@.parts.len() + 1,
        overlay@.parts.drop_last() == dir@.parts,
{
    assert(dir@.parts =~= home@.parts + seq!["profiles"@, "acp"@]);
    assert(entry@.parts =~= dir@.parts + seq![
        "node_modules"@,
        "@deepseek-ai/dsh-acp"@,
        "lib"@,
        "index.js"@,
    ]);
    assert(overlay@.parts.drop_last() =~= dir@.parts);
}

/// Different models of the DeepSeek Harness have different overlays.
pub proof fn law_different_models_have_different_overlays(
    a: DeepseekHarness,
    b: DeepseekHarness,
    home: &PathParts,
    a_model: &str,
    b_model: &str,
    a_overlay: PathParts,
    b_overlay: PathParts,
)
    requires
        call_ensures(DeepseekHarness::model, (&a,), a_model),
        call_ensures(DeepseekHarness::model, (&b,), b_model),
        call_ensures(DeepseekHarness::overlay_path, (&a, home), a_overlay),
        call_ensures(DeepseekHarness::overlay_path, (&b, home), b_overlay),
    ensures
        a_model@ == b_model@ <==> a_overlay@ == b_overlay@,
{
    if a_model@ != b_model@ {
        super::deepseek_harness::law_models_have_overlays_of_their_own(a@, b@, home@);
    }
}

/// Reasonix is told the model that is set, and that permissions are skipped
/// exactly if they are in code mode.
pub proof fn law_reasonix_is_told_its_settings(
    agent: Reasonix,
    native_binary: bool,
    windows: bool,
    command: CommandBuilder,
)
    requires
        call_ensures(Reasonix::build_command_builder, (&agent, native_binary, windows), command),
    ensures
        agent.model is Some ==> command.params@.len() >= 2 && command.params@[0]@ == "--model"@
            && command.params@[1]@ == agent.model->0@,
        agent.model is None && command.params@.len() > 0 ==> command.params@[0]@ == "--yolo"@,
        command.params@.len() == (if agent.model is Some {
            2int
        } else {
            0
        }) + (if agent.dangerously_skip_permissions == Some(true) && agent.use_code_mode == Some(
            true,
        ) {
            1int
        } else {
            0
        }),
        agent.dangerously_skip_permissions == Some(true) && agent.use_code_mode == Some(true)
            ==> command.params@[command.params@.len() - 1]@ == "--yolo"@,
{
    let params = command@.params;
    assert(params.len() == command.params@.len());
    if params.len() > 0 {
        assert(params[0] == command.params@[0]@);
        assert(params.last() == command.params@[params.len() - 1]@);
    }
    if params.len() > 1 {
        assert(params[1] == command.params@[1]@);
    }
}

/// The command of Reasonix names the binary or the package, and the mode; outside
/// Windows it is wrapped into a terminal of its own, and is else the same.
pub proof fn law_reasonix_is_wrapped_outside_windows(
    agent: Reasonix,
    native_binary: bool,
    wrapped: CommandBuilder,
    plain: CommandBuilder,
)
    requires
        call_ensures(Reasonix::build_command_builder, (&agent, native_binary, false), wrapped),
        call_ensures(Reasonix::build_command_builder, (&agent, native_binary, true), plain),
    ensures
        wrapped.base@ == "script -q /dev/null "@ + plain.base@,
        wrapped@.params == plain@.params,
        plain.base@ == (if native_binary {
            "reasonix"@
        } else {
            "npx -y reasonix@latest"@
        }) + (if agent.use_code_mode == Some(true) {
            " code"@
        } else {
            " run"@
        }),
{
    reveal_strlit(" ");
    reveal_strlit("code");
    reveal_strlit("run");
    reveal_strlit(" code");
    reveal_strlit(" run");
    assert(" "@ + "code"@ =~= " code"@);
    assert(" "@ + "run"@ =~= " run"@);
    let base = if native_binary {
        "reasonix"@
    } else {
        "npx -y reasonix@latest"@
    };
    assert(base + " "@ + "code"@ =~= base + " code"@);
    assert(base + " "@ + "run"@ =~= base + " run"@);
}

/// A run of Reasonix has its prompt as the last parameter after those that are
/// set.
pub proof fn law_reasonix_runs_on_its_prompt(
    agent: Reasonix,
    native_binary: bool,
    windows: bool,
    prompt: &str,
    start: CommandBuilder,
    run: CommandBuilder,
)
    requires
        call_ensures(Reasonix::build_command_builder, (&agent, native_binary, windows), start),
        call_ensures(Reasonix::spawn_command, (&agent, native_binary, windows, prompt), run),
    ensures
        run.base@ == start.base@,
        run.params@.len() == start.params@.len() + 1,
        run.params@[run.params@.len() - 1]@ == prompt@,
        forall|i: int|
            0 <= i < start.params@.len() ==> (#[trigger] run.params@[i])@ == start.params@[i]@,
{
    assert(run@.params == start@.params.push(prompt@));
    assert forall|i: int| 0 <= i < run@.params.len() implies #[trigger] run@.params[i]
        == run.params@[i]@ by {}
    assert forall|i: int| 0 <= i < start.params@.len() implies (#[trigger] run.params@[i])@
        == start.params@[i]@ by {
        assert(run@.params[i] == start@.params[i]);
    }
    assert(run@.params[run@.params.len() - 1] == prompt@);
}

/// The binary of Reasonix is used only if it is there, and not where it is
/// switched off.
pub proof fn law_binary_is_used_unless_switched_off(
    disabled: Option<&str>,
    on_path: bool,
    used: bool,
)
    requires
        call_ensures(detect_reasonix_binary, (disabled, on_path), used),
    ensures
        used ==> on_path,
        disabled is None ==> used == on_path,
        disabled matches Some(value) && value@ == "1"@ ==> !used,
        disabled matches Some(value) && value@ == "true"@ ==> !used,
        disabled matches Some(value) && value@ == "TRUE"@ ==> !used,
        disabled matches Some(value) && value@.len() == 0 ==> used == on_path,
{
    reveal_strlit("1");
    reveal_strlit("true");
    reveal_strlit("TRUE");
    assert(crate::text::ascii_lower("true"@) =~= "true"@);
    assert(crate::text::ascii_lower("TRUE"@) =~= "true"@);
    assert(crate::text::ascii_lower(Seq::<char>::empty()) =~= Seq::empty());
    if let Some(value) = disabled {
        if value@.len() == 0 {
            assert(value@ =~= Seq::empty());
        }
    }
}

/// Each agent counts as installed exactly if one of its signs is there.
pub proof fn law_installed_is_what_shows_signs(
    kimi: KimiCli,
    reasonix: Reasonix,
    deepseek: DeepseekHarness,
    a: bool,
    b: bool,
    of_kimi: AvailabilityInfo,
    of_reasonix: AvailabilityInfo,
    of_deepseek: AvailabilityInfo,
)
    requires
        call_ensures(KimiCli::get_availability_info, (&kimi, a), of_kimi),
        call_ensures(Reasonix::get_availability_info, (&reasonix, a, b), of_reasonix),
        call_ensures(DeepseekHarness::get_availability_info, (&deepseek, a, b), of_deepseek),
    ensures
        of_kimi is InstallationFound <==> a,
        of_kimi is NotFound <==> !a,
        of_reasonix is InstallationFound <==> a || b,
        of_reasonix is NotFound <==> !(a || b),
        of_deepseek is InstallationFound <==> a || b,
        of_deepseek is NotFound <==> !(a || b),
{
}

/// The files of tools lie in the home directory, and where it is not known there
/// are none.
pub proof fn law_tool_files_lie_in_the_home_directory(
    kimi: KimiCli,
    reasonix: Reasonix,
    home: Option<String>,
    toml_exists: bool,
    of_kimi: Option<PathParts>,
    dir_of_kimi: Option<PathParts>,
    of_reasonix: Option<PathParts>,
)
    requires
        call_ensures(KimiCli::default_mcp_config_path, (&kimi, home), of_kimi),
        call_ensures(KimiCli::installation_dir, (&kimi, home), dir_of_kimi),
        call_ensures(Reasonix::default_mcp_config_path, (&reasonix, home, toml_exists), of_reasonix),
    ensures
        of_kimi is Some <==> home is Some,
        dir_of_kimi is Some <==> home is Some,
        of_reasonix is Some <==> home is Some,
        home matches Some(dir) ==> {
            &&& of_kimi->0.root@ == dir@
            &&& of_kimi->0@.parts == seq![".kimi-code"@, "mcp.json"@]
            &&& dir_of_kimi->0.root@ == dir@
            &&& dir_of_kimi->0@.parts == seq![".kimi-code"@]
            &&& of_reasonix->0.root@ == dir@
            &&& of_reasonix->0@.parts == seq![
                ".reasonix"@,
                if toml_exists {
                    "config.toml"@
                } else {
                    "config.json"@
                },
            ]
        },
{
    if home is Some {
        assert(of_kimi.deep_view() == Some(of_kimi->0@));
        assert(dir_of_kimi.deep_view() == Some(dir_of_kimi->0@));
        assert(of_reasonix.deep_view() == Some(of_reasonix->0@));
        assert(of_kimi->0@.parts =~= seq![".kimi-code"@, "mcp.json"@]);
        assert(dir_of_kimi->0@.parts =~= seq![".kimi-code"@]);
        assert(of_reasonix->0@.parts =~= seq![
            ".reasonix"@,
            if toml_exists {
                "config.toml"@
            } else {
                "config.json"@
            },
        ]);
    }
}

} // verus!
