//! The Kimi command line agent.

use vstd::prelude::*;
use vstd::string::*;

use crate::approvals::ApprovalService;
use crate::command::{CmdOverrides, CommandBuilder, CommandView};
use crate::path::{PathParts, PathView};

use super::{
    same_text, AppendPrompt, AvailabilityInfo, HarnessSetup, HarnessView, ResumedSession,
    ResumedView, SpawnPlan, SpawnView,
};

verus! {

/// How freely Kimi acts.
#[derive(Debug, Clone, Copy, PartialEq, Eq, Structural)]
pub enum KimiMode {
    Default,
    Plan,
    Auto,
    Yolo,
}

impl KimiMode {
    /// The id of the mode in a session.
    pub open spec fn mode_id(self) -> Seq<char> {
        match self {
            KimiMode::Default => "default"@,
            KimiMode::Plan => "plan"@,
            KimiMode::Auto => "auto"@,
            KimiMode::Yolo => "yolo"@,
        }
    }

    /// The id of the mode in a session.
    pub fn as_acp_mode_id(self) -> (res: &'static str)
        ensures
            res@ == self.mode_id(),
    {
        match self {
            KimiMode::Default => "default",
            KimiMode::Plan => "plan",
            KimiMode::Auto => "auto",
            KimiMode::Yolo => "yolo",
        }
    }
}

/// The settings of Kimi.
#[derive(Debug)]
pub struct KimiCli {
    pub append_prompt: AppendPrompt,
    pub mode: Option<KimiMode>,
    pub model: Option<String>,
    pub cmd: CmdOverrides,
    pub approvals: Option<ApprovalService>,
}

#[verifier::ext_equal]
pub struct KimiView {
    pub append_prompt: Option<Seq<char>>,
    pub mode: Option<KimiMode>,
    pub model: Option<Seq<char>>,
    pub cmd: Seq<char>,
    pub approvals: Option<ApprovalService>,
}

impl View for KimiCli {
    type V = KimiView;

    open spec fn view(&self) -> KimiView {
        KimiView {
            append_prompt: self.append_prompt.text.deep_view(),
            mode: self.mode,
            model: self.model.deep_view(),
            cmd: self.cmd.settings@,
            approvals: self.approvals,
        }
    }
}

impl Clone for KimiCli {
    fn clone(&self) -> (res: Self)
        ensures
            res == *self,
    {
        KimiCli {
            append_prompt: self.append_prompt.clone(),
            mode: self.mode,
            model: self.model.clone(),
            cmd: self.cmd.clone(),
            approvals: self.approvals,
        }
    }
}

impl KimiView {
    /// The command that starts the agent.
    pub open spec fn command(self) -> CommandView {
        CommandView::of_base("npx -y @moonshot-ai/kimi-code"@).with_param("acp"@)
    }

    /// How the agent talks to its harness.
    pub open spec fn harness(self) -> HarnessView {
        HarnessView {
            session_namespace: "kimi_sessions"@,
            native_session_resume: true,
            mode: match self.mode {
                Some(mode) => Some(mode.mode_id()),
                None => None,
            },
            model: self.model,
        }
    }

    /// The approval service that requests go to.
    pub open spec fn used_approvals(self) -> Option<ApprovalService> {
        if self.mode == Some(KimiMode::Yolo) {
            None
        } else {
            self.approvals
        }
    }

    /// A run of the agent on a prompt.
    pub open spec fn run(self, prompt: Seq<char>, resumed: Option<ResumedView>) -> SpawnView {
        SpawnView {
            command: self.command(),
            overrides: self.cmd,
            prompt,
            append_prompt: self.append_prompt,
            harness: self.harness(),
            approvals: self.used_approvals(),
            resumed,
        }
    }
}

impl KimiCli {
    /// Whether two agents have the same settings.
    pub fn same_as(&self, other: &Self) -> (res: bool)
        ensures
            res == ((KimiView { approvals: None, ..self@ }) == (KimiView {
                approvals: None,
                ..other@
            })),
    {
        let same_mode = match (self.mode, other.mode) {
            (Some(a), Some(b)) => a == b,
            (None, None) => true,
            _ => false,
        };
        same_mode && same_text(&self.append_prompt.text, &other.append_prompt.text) && same_text(
            &self.model,
            &other.model,
        ) && self.cmd.settings.eq(&other.cmd.settings)
    }

    /// The command that starts the agent, before what the user changes of it.
    pub fn build_command_builder(&self) -> (res: CommandBuilder)
        ensures
            res@ == self@.command(),
    {
        CommandBuilder::new("npx -y @moonshot-ai/kimi-code".to_owned()).extend_param("acp")
    }

    /// How the agent talks to its harness. It takes up its sessions again by
    /// itself.
    pub fn acp_harness(&self) -> (res: HarnessSetup)
        ensures
            res@ == self@.harness(),
    {
        HarnessSetup {
            session_namespace: "kimi_sessions".to_owned(),
            native_session_resume: true,
            mode: match self.mode {
                Some(mode) => Some(mode.as_acp_mode_id().to_owned()),
                None => None,
            },
            model: self.model.clone(),
        }
    }

    /// The approval service that requests go to. In the freest mode there is
    /// none, so that every request is granted.
    pub fn approvals_for_mode(&self) -> (res: Option<ApprovalService>)
        ensures
            res == self@.used_approvals(),
    {
        match self.mode {
            Some(KimiMode::Yolo) => None,
            _ => self.approvals,
        }
    }

    /// A first run of the agent.
    pub fn spawn(&self, prompt: &str) -> (res: SpawnPlan)
        ensures
            res@ == self@.run(prompt@, None),
    {
        self.plan(prompt, None)
    }

    /// A further run of the agent in a session. The agent keeps its sessions
    /// itself, so none of it can be undone.
    pub fn spawn_follow_up(
        &self,
        prompt: &str,
        session_id: &str,
        _reset_to_message_id: Option<&str>,
    ) -> (res: SpawnPlan)
        ensures
            res@ == self@.run(
                prompt@,
                Some(ResumedView { session_id: session_id@, reset_to_message_id: None }),
            ),
    {
        self.plan(
            prompt,
            Some(
                ResumedSession { session_id: session_id.to_owned(), reset_to_message_id: None },
            ),
        )
    }

    fn plan(&self, prompt: &str, resumed: Option<ResumedSession>) -> (res: SpawnPlan)
        ensures
            res@ == self@.run(prompt@, resumed.deep_view()),
    {
        SpawnPlan {
            command: self.build_command_builder(),
            overrides: self.cmd.clone(),
            prompt: prompt.to_owned(),
            append_prompt: self.append_prompt.clone(),
            harness: self.acp_harness(),
            approvals: self.approvals_for_mode(),
            resumed,
        }
    }

    /// Attaches an approval service.
    pub fn use_approvals(&mut self, approvals: ApprovalService)
        ensures
            final(self)@ == (KimiView { approvals: Some(approvals), ..old(self)@ }),
    {
        self.approvals = Some(approvals);
    }

    /// The file in which the agent looks for its tools.
    pub fn default_mcp_config_path(&self, home_dir: Option<String>) -> (res: Option<PathParts>)
        ensures
            res.deep_view() == match home_dir {
                Some(home) => Some(
                    PathView::of_root(home@).join(".kimi-code"@).join("mcp.json"@),
                ),
                None => None,
            },
    {
        match home_dir {
            Some(home) => {
                Some(PathParts::of_root(home).join(".kimi-code").join("mcp.json"))
            },
            None => None,
        }
    }

    /// The directory that shows that the agent is installed.
    pub fn installation_dir(&self, home_dir: Option<String>) -> (res: Option<PathParts>)
        ensures
            res.deep_view() == match home_dir {
                Some(home) => Some(PathView::of_root(home@).join(".kimi-code"@)),
                None => None,
            },
    {
        match home_dir {
            Some(home) => Some(PathParts::of_root(home).join(".kimi-code")),
            None => None,
        }
    }

    /// How available the agent is, by whether its directory is there.
    pub fn get_availability_info(&self, installation_dir_exists: bool) -> (res: AvailabilityInfo)
        ensures
            res == if installation_dir_exists {
                AvailabilityInfo::InstallationFound
            } else {
                AvailabilityInfo::NotFound
            },
    {
        AvailabilityInfo::of_installation(installation_dir_exists)
    }
}

} // verus!
