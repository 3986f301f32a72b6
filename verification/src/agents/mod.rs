//! The coding agents, and how each of them is set up.

pub mod deepseek_harness;
pub mod kimi;
pub mod laws;
pub mod reasonix;
pub mod start_laws;

use vstd::prelude::*;

use crate::approvals::ApprovalService;
use crate::collections::Key;
use crate::command::{CmdOverrides, CommandBuilder, CommandView};

use deepseek_harness::{DeepseekHarness, DeepseekView};
use kimi::{KimiCli, KimiView};
use reasonix::{Reasonix, ReasonixView};

verus! {

/// A kind of coding agent.
#[derive(Debug, Clone, Copy, PartialEq, Eq, Structural)]
pub enum BaseCodingAgent {
    ClaudeCode,
    Amp,
    Gemini,
    CursorAgent,
    QwenCode,
    KimiCli,
    Reasonix,
    DeepseekHarness,
}

impl View for BaseCodingAgent {
    type V = BaseCodingAgent;

    open spec fn view(&self) -> BaseCodingAgent {
        *self
    }
}

impl Key for BaseCodingAgent {
    fn same(&self, other: &Self) -> (res: bool) {
        *self == *other
    }
}

impl BaseCodingAgent {
    /// The name of the kind of agent.
    pub open spec fn name(self) -> Seq<char> {
        match self {
            BaseCodingAgent::ClaudeCode => "CLAUDE_CODE"@,
            BaseCodingAgent::Amp => "AMP"@,
            BaseCodingAgent::Gemini => "GEMINI"@,
            BaseCodingAgent::CursorAgent => "CURSOR_AGENT"@,
            BaseCodingAgent::QwenCode => "QWEN_CODE"@,
            BaseCodingAgent::KimiCli => "KIMI_CLI"@,
            BaseCodingAgent::Reasonix => "REASONIX"@,
            BaseCodingAgent::DeepseekHarness => "DEEPSEEK_HARNESS"@,
        }
    }

    /// The name of the kind of agent.
    pub fn as_str(&self) -> (res: &'static str)
        ensures
            res@ == self.name(),
    {
        match self {
            BaseCodingAgent::ClaudeCode => "CLAUDE_CODE",
            BaseCodingAgent::Amp => "AMP",
            BaseCodingAgent::Gemini => "GEMINI",
            BaseCodingAgent::CursorAgent => "CURSOR_AGENT",
            BaseCodingAgent::QwenCode => "QWEN_CODE",
            BaseCodingAgent::KimiCli => "KIMI_CLI",
            BaseCodingAgent::Reasonix => "REASONIX",
            BaseCodingAgent::DeepseekHarness => "DEEPSEEK_HARNESS",
        }
    }

    /// The kind of agent that a name stands for. The Cursor agent also has the
    /// shorter name that it was stored under in the past.
    pub open spec fn named(name: Seq<char>) -> Option<BaseCodingAgent> {
        if name == "CLAUDE_CODE"@ {
            Some(BaseCodingAgent::ClaudeCode)
        } else if name == "AMP"@ {
            Some(BaseCodingAgent::Amp)
        } else if name == "GEMINI"@ {
            Some(BaseCodingAgent::Gemini)
        } else if name == "CURSOR_AGENT"@ || name == "CURSOR"@ {
            Some(BaseCodingAgent::CursorAgent)
        } else if name == "QWEN_CODE"@ {
            Some(BaseCodingAgent::QwenCode)
        } else if name == "KIMI_CLI"@ {
            Some(BaseCodingAgent::KimiCli)
        } else if name == "REASONIX"@ {
            Some(BaseCodingAgent::Reasonix)
        } else if name == "DEEPSEEK_HARNESS"@ {
            Some(BaseCodingAgent::DeepseekHarness)
        } else {
            None
        }
    }

    /// The kind of agent that a name stands for.
    pub fn from_name(name: &str) -> (res: Option<Self>)
        ensures
            res == Self::named(name@),
    {
        if *name == *"CLAUDE_CODE" {
            Some(BaseCodingAgent::ClaudeCode)
        } else if *name == *"AMP" {
            Some(BaseCodingAgent::Amp)
        } else if *name == *"GEMINI" {
            Some(BaseCodingAgent::Gemini)
        } else if *name == *"CURSOR_AGENT" || *name == *"CURSOR" {
            Some(BaseCodingAgent::CursorAgent)
        } else if *name == *"QWEN_CODE" {
            Some(BaseCodingAgent::QwenCode)
        } else if *name == *"KIMI_CLI" {
            Some(BaseCodingAgent::KimiCli)
        } else if *name == *"REASONIX" {
            Some(BaseCodingAgent::Reasonix)
        } else if *name == *"DEEPSEEK_HARNESS" {
            Some(BaseCodingAgent::DeepseekHarness)
        } else {
            None
        }
    }
}

proof fn lemma_names_differ()
    ensures
        forall|i: int, j: int|
            0 <= i < j < 8 ==> #[trigger] all_names()[i] != #[trigger] all_names()[j],
        forall|i: int|
            0 <= i < 8 && #[trigger] all_names()[i].len() == 6 ==> all_names()[i][0] == 'G',
{
    reveal_strlit("CLAUDE_CODE");
    reveal_strlit("AMP");
    reveal_strlit("GEMINI");
    reveal_strlit("CURSOR_AGENT");
    reveal_strlit("QWEN_CODE");
    reveal_strlit("KIMI_CLI");
    reveal_strlit("REASONIX");
    reveal_strlit("DEEPSEEK_HARNESS");
    let names = all_names();
    assert(names[0].len() == 11);
    assert(names[1].len() == 3);
    assert(names[2].len() == 6);
    assert(names[3].len() == 12);
    assert(names[4].len() == 9);
    assert(names[5].len() == 8);
    assert(names[6].len() == 8);
    assert(names[7].len() == 16);
    assert(names[2][0] == 'G');
    assert(names[5][0] == 'K');
    assert(names[6][0] == 'R');
}

spec fn all_names() -> Seq<Seq<char>> {
    seq![
        "CLAUDE_CODE"@,
        "AMP"@,
        "GEMINI"@,
        "CURSOR_AGENT"@,
        "QWEN_CODE"@,
        "KIMI_CLI"@,
        "REASONIX"@,
        "DEEPSEEK_HARNESS"@,
    ]
}

spec fn number(agent: BaseCodingAgent) -> int {
    match agent {
        BaseCodingAgent::ClaudeCode => 0,
        BaseCodingAgent::Amp => 1,
        BaseCodingAgent::Gemini => 2,
        BaseCodingAgent::CursorAgent => 3,
        BaseCodingAgent::QwenCode => 4,
        BaseCodingAgent::KimiCli => 5,
        BaseCodingAgent::Reasonix => 6,
        BaseCodingAgent::DeepseekHarness => 7,
    }
}

/// The name of a kind of agent stands for it, and for no other one.
pub proof fn law_name_stands_for_its_agent(agent: BaseCodingAgent)
    ensures
        BaseCodingAgent::named(agent.name()) == Some(agent),
{
    lemma_names_differ();
    reveal_strlit("CURSOR");
    let names = all_names();
    let n = number(agent);
    assert(agent.name() == names[n]);
    assert(forall|i: int| 0 <= i < 8 && i != n ==> #[trigger] names[i] != agent.name());
    assert(names[n].len() == 6 ==> names[n][0] == 'G');
    assert("CURSOR"@.len() == 6 && "CURSOR"@[0] == 'C');
    assert(names[0] == "CLAUDE_CODE"@ && names[1] == "AMP"@ && names[2] == "GEMINI"@);
    assert(names[3] == "CURSOR_AGENT"@ && names[4] == "QWEN_CODE"@ && names[5] == "KIMI_CLI"@);
    assert(names[6] == "REASONIX"@ && names[7] == "DEEPSEEK_HARNESS"@);
}

/// No name of a kind of agent has a colon in it.
pub proof fn law_names_have_no_colon(agent: BaseCodingAgent)
    ensures
        !agent.name().contains(':'),
{
    reveal_strlit("CLAUDE_CODE");
    reveal_strlit("AMP");
    reveal_strlit("GEMINI");
    reveal_strlit("CURSOR_AGENT");
    reveal_strlit("QWEN_CODE");
    reveal_strlit("KIMI_CLI");
    reveal_strlit("REASONIX");
    reveal_strlit("DEEPSEEK_HARNESS");
}

/// How available an agent is on this machine.
#[derive(Debug, Clone, Copy, PartialEq, Eq, Structural)]
pub enum AvailabilityInfo {
    /// A login was found, with the time of the last one.
    LoginDetected { last_auth_timestamp: i64 },
    InstallationFound,
    NotFound,
}

impl AvailabilityInfo {
    pub fn is_available(&self) -> (res: bool)
        ensures
            res == (*self != AvailabilityInfo::NotFound),
    {
        match self {
            AvailabilityInfo::NotFound => false,
            _ => true,
        }
    }

    /// An agent that shows signs of being installed, or none.
    pub fn of_installation(found: bool) -> (res: Self)
        ensures
            res == if found {
                AvailabilityInfo::InstallationFound
            } else {
                AvailabilityInfo::NotFound
            },
    {
        if found {
            AvailabilityInfo::InstallationFound
        } else {
            AvailabilityInfo::NotFound
        }
    }
}

/// What is put after every prompt, where anything is.
#[derive(Debug)]
pub struct AppendPrompt {
    pub text: Option<String>,
}

impl Clone for AppendPrompt {
    fn clone(&self) -> (res: Self)
        ensures
            res == *self,
    {
        AppendPrompt { text: self.text.clone() }
    }
}

/// How an agent talks to its harness.
#[derive(Debug)]
pub struct HarnessSetup {
    /// Where the sessions are stored.
    pub session_namespace: String,
    /// Whether the agent itself takes up a session again.
    pub native_session_resume: bool,
    pub mode: Option<String>,
    pub model: Option<String>,
}

#[verifier::ext_equal]
pub struct HarnessView {
    pub session_namespace: Seq<char>,
    pub native_session_resume: bool,
    pub mode: Option<Seq<char>>,
    pub model: Option<Seq<char>>,
}

impl View for HarnessSetup {
    type V = HarnessView;

    open spec fn view(&self) -> HarnessView {
        HarnessView {
            session_namespace: self.session_namespace@,
            native_session_resume: self.native_session_resume,
            mode: self.mode.deep_view(),
            model: self.model.deep_view(),
        }
    }
}

/// A session that is to be taken up again, up to a message where one is given.
#[derive(Debug)]
pub struct ResumedSession {
    pub session_id: String,
    pub reset_to_message_id: Option<String>,
}

/// A run of an agent that is to be started.
#[derive(Debug)]
pub struct SpawnPlan {
    pub command: CommandBuilder,
    /// What the user changes about the command.
    pub overrides: CmdOverrides,
    pub prompt: String,
    /// What is put after the prompt.
    pub append_prompt: AppendPrompt,
    pub harness: HarnessSetup,
    pub approvals: Option<ApprovalService>,
    pub resumed: Option<ResumedSession>,
}

#[verifier::ext_equal]
pub struct ResumedView {
    pub session_id: Seq<char>,
    pub reset_to_message_id: Option<Seq<char>>,
}

#[verifier::ext_equal]
pub struct SpawnView {
    pub command: CommandView,
    pub overrides: Seq<char>,
    pub prompt: Seq<char>,
    pub append_prompt: Option<Seq<char>>,
    pub harness: HarnessView,
    pub approvals: Option<ApprovalService>,
    pub resumed: Option<ResumedView>,
}

impl DeepView for ResumedSession {
    type V = ResumedView;

    open spec fn deep_view(&self) -> ResumedView {
        ResumedView {
            session_id: self.session_id@,
            reset_to_message_id: self.reset_to_message_id.deep_view(),
        }
    }
}

impl View for SpawnPlan {
    type V = SpawnView;

    open spec fn view(&self) -> SpawnView {
        SpawnView {
            command: self.command@,
            overrides: self.overrides.settings@,
            prompt: self.prompt@,
            append_prompt: self.append_prompt.text.deep_view(),
            harness: self.harness@,
            approvals: self.approvals,
            resumed: self.resumed.deep_view(),
        }
    }
}

/// Whether two optional texts are the same.
pub fn same_text(a: &Option<String>, b: &Option<String>) -> (res: bool)
    ensures
        res == (a.deep_view() == b.deep_view()),
{
    match (a, b) {
        (Some(left), Some(right)) => left.eq(right),
        (None, None) => true,
        _ => false,
    }
}

/// The settings of the `ClaudeCode` agent. Those that nothing here reads are kept
/// in their JSON form.
#[derive(Debug)]
pub struct ClaudeCode {
    pub plan: Option<bool>,
    pub model: Option<String>,
    pub settings: String,
    pub approvals: Option<ApprovalService>,
}

#[verifier::ext_equal]
pub struct ClaudeView {
    pub plan: Option<bool>,
    pub model: Option<Seq<char>>,
    pub settings: Seq<char>,
    pub approvals: Option<ApprovalService>,
}

impl View for ClaudeCode {
    type V = ClaudeView;

    open spec fn view(&self) -> ClaudeView {
        ClaudeView {
            plan: self.plan,
            model: self.model.deep_view(),
            settings: self.settings@,
            approvals: self.approvals,
        }
    }
}

impl Clone for ClaudeCode {
    fn clone(&self) -> (res: Self)
        ensures
            res == *self,
    {
        ClaudeCode {
            plan: self.plan,
            model: self.model.clone(),
            settings: self.settings.clone(),
            approvals: self.approvals,
        }
    }
}

/// The settings of an agent that nothing here reads, in their JSON form.
#[derive(Debug)]
pub struct AgentSettings {
    pub settings: String,
}

impl Clone for AgentSettings {
    fn clone(&self) -> (res: Self)
        ensures
            res == *self,
    {
        AgentSettings { settings: self.settings.clone() }
    }
}

/// A coding agent with its settings.
#[derive(Debug)]
pub enum CodingAgent {
    ClaudeCode(ClaudeCode),
    Amp(AgentSettings),
    Gemini(AgentSettings),
    CursorAgent(AgentSettings),
    QwenCode(AgentSettings),
    KimiCli(KimiCli),
    Reasonix(Reasonix),
    DeepseekHarness(DeepseekHarness),
}

#[verifier::ext_equal]
pub enum AgentView {
    ClaudeCode(ClaudeView),
    Amp(Seq<char>),
    Gemini(Seq<char>),
    CursorAgent(Seq<char>),
    QwenCode(Seq<char>),
    KimiCli(KimiView),
    Reasonix(ReasonixView),
    DeepseekHarness(DeepseekView),
}

impl View for CodingAgent {
    type V = AgentView;

    open spec fn view(&self) -> AgentView {
        match self {
            CodingAgent::ClaudeCode(agent) => AgentView::ClaudeCode(agent@),
            CodingAgent::Amp(agent) => AgentView::Amp(agent.settings@),
            CodingAgent::Gemini(agent) => AgentView::Gemini(agent.settings@),
            CodingAgent::CursorAgent(agent) => AgentView::CursorAgent(agent.settings@),
            CodingAgent::QwenCode(agent) => AgentView::QwenCode(agent.settings@),
            CodingAgent::KimiCli(agent) => AgentView::KimiCli(agent@),
            CodingAgent::Reasonix(agent) => AgentView::Reasonix(agent@),
            CodingAgent::DeepseekHarness(agent) => AgentView::DeepseekHarness(agent@),
        }
    }
}

impl AgentView {
    /// The kind of agent that this is.
    pub open spec fn kind(self) -> BaseCodingAgent {
        match self {
            AgentView::ClaudeCode(_) => BaseCodingAgent::ClaudeCode,
            AgentView::Amp(_) => BaseCodingAgent::Amp,
            AgentView::Gemini(_) => BaseCodingAgent::Gemini,
            AgentView::CursorAgent(_) => BaseCodingAgent::CursorAgent,
            AgentView::QwenCode(_) => BaseCodingAgent::QwenCode,
            AgentView::KimiCli(_) => BaseCodingAgent::KimiCli,
            AgentView::Reasonix(_) => BaseCodingAgent::Reasonix,
            AgentView::DeepseekHarness(_) => BaseCodingAgent::DeepseekHarness,
        }
    }

    /// The agent by its settings alone, without the approval service that is
    /// attached to it.
    pub open spec fn detached(self) -> AgentView {
        match self {
            AgentView::ClaudeCode(agent) => AgentView::ClaudeCode(
                ClaudeView { approvals: None, ..agent },
            ),
            AgentView::KimiCli(agent) => AgentView::KimiCli(KimiView { approvals: None, ..agent }),
            AgentView::Reasonix(agent) => AgentView::Reasonix(
                ReasonixView { approvals: None, ..agent },
            ),
            AgentView::DeepseekHarness(agent) => AgentView::DeepseekHarness(
                DeepseekView { approvals: None, ..agent },
            ),
            _ => self,
        }
    }
}

impl Clone for CodingAgent {
    fn clone(&self) -> (res: Self)
        ensures
            res == *self,
    {
        match self {
            CodingAgent::ClaudeCode(agent) => CodingAgent::ClaudeCode(agent.clone()),
            CodingAgent::Amp(agent) => CodingAgent::Amp(agent.clone()),
            CodingAgent::Gemini(agent) => CodingAgent::Gemini(agent.clone()),
            CodingAgent::CursorAgent(agent) => CodingAgent::CursorAgent(agent.clone()),
            CodingAgent::QwenCode(agent) => CodingAgent::QwenCode(agent.clone()),
            CodingAgent::KimiCli(agent) => CodingAgent::KimiCli(agent.clone()),
            CodingAgent::Reasonix(agent) => CodingAgent::Reasonix(agent.clone()),
            CodingAgent::DeepseekHarness(agent) => CodingAgent::DeepseekHarness(agent.clone()),
        }
    }
}

impl CodingAgent {
    /// The kind of agent that this is.
    pub fn base(&self) -> (res: BaseCodingAgent)
        ensures
            res == self@.kind(),
    {
        match self {
            CodingAgent::ClaudeCode(_) => BaseCodingAgent::ClaudeCode,
            CodingAgent::Amp(_) => BaseCodingAgent::Amp,
            CodingAgent::Gemini(_) => BaseCodingAgent::Gemini,
            CodingAgent::CursorAgent(_) => BaseCodingAgent::CursorAgent,
            CodingAgent::QwenCode(_) => BaseCodingAgent::QwenCode,
            CodingAgent::KimiCli(_) => BaseCodingAgent::KimiCli,
            CodingAgent::Reasonix(_) => BaseCodingAgent::Reasonix,
            CodingAgent::DeepseekHarness(_) => BaseCodingAgent::DeepseekHarness,
        }
    }

    /// Whether two agents have the same settings. An attached approval service
    /// is no setting.
    pub fn same_as(&self, other: &Self) -> (res: bool)
        ensures
            res == (self@.detached() == other@.detached()),
    {
        match (self, other) {
            (CodingAgent::ClaudeCode(a), CodingAgent::ClaudeCode(b)) => {
                a.plan == b.plan && same_text(&a.model, &b.model) && a.settings.eq(&b.settings)
            },
            (CodingAgent::Amp(a), CodingAgent::Amp(b)) => a.settings.eq(&b.settings),
            (CodingAgent::Gemini(a), CodingAgent::Gemini(b)) => a.settings.eq(&b.settings),
            (CodingAgent::CursorAgent(a), CodingAgent::CursorAgent(b)) => {
                a.settings.eq(&b.settings)
            },
            (CodingAgent::QwenCode(a), CodingAgent::QwenCode(b)) => a.settings.eq(&b.settings),
            (CodingAgent::KimiCli(a), CodingAgent::KimiCli(b)) => a.same_as(b),
            (CodingAgent::Reasonix(a), CodingAgent::Reasonix(b)) => a.same_as(b),
            (CodingAgent::DeepseekHarness(a), CodingAgent::DeepseekHarness(b)) => a.same_as(b),
            _ => false,
        }
    }
}

} // verus!
