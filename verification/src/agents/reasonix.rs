//! The Reasonix command line agent.

use vstd::prelude::*;
use vstd::string::*;

use crate::approvals::ApprovalService;
use crate::command::{CmdOverrides, CommandBuilder, CommandView};
use crate::path::{PathParts, PathView};
use crate::text;

use super::{same_text, AppendPrompt, AvailabilityInfo};

verus! {

/// The settings of Reasonix.
#[derive(Debug)]
pub struct Reasonix {
    pub append_prompt: AppendPrompt,
    pub model: Option<String>,
    pub dangerously_skip_permissions: Option<bool>,
    pub use_code_mode: Option<bool>,
    pub cmd: CmdOverrides,
    pub approvals: Option<ApprovalService>,
}

#[verifier::ext_equal]
pub struct ReasonixView {
    pub append_prompt: Option<Seq<char>>,
    pub model: Option<Seq<char>>,
    pub dangerously_skip_permissions: Option<bool>,
    pub use_code_mode: Option<bool>,
    pub cmd: Seq<char>,
    pub approvals: Option<ApprovalService>,
}

impl View for Reasonix {
    type V = ReasonixView;

    open spec fn view(&self) -> ReasonixView {
        ReasonixView {
            append_prompt: self.append_prompt.text.deep_view(),
            model: self.model.deep_view(),
            dangerously_skip_permissions: self.dangerously_skip_permissions,
            use_code_mode: self.use_code_mode,
            cmd: self.cmd.settings@,
            approvals: self.approvals,
        }
    }
}

impl Clone for Reasonix {
    fn clone(&self) -> (res: Self)
        ensures
            res == *self,
    {
        Reasonix {
            append_prompt: self.append_prompt.clone(),
            model: self.model.clone(),
            dangerously_skip_permissions: self.dangerously_skip_permissions,
            use_code_mode: self.use_code_mode,
            cmd: self.cmd.clone(),
            approvals: self.approvals,
        }
    }
}

/// The command of the agent: its own binary, or the package that brings it.
pub open spec fn reasonix_base(native_binary: bool) -> Seq<char> {
    if native_binary {
        "reasonix"@
    } else {
        "npx -y reasonix@latest"@
    }
}

fn base_command(native_binary: bool) -> (res: &'static str)
    ensures
        res@ == reasonix_base(native_binary),
{
    if native_binary {
        "reasonix"
    } else {
        "npx -y reasonix@latest"
    }
}

/// Whether a setting, which is also given in lowercase, switches something off.
pub fn switches_off(value: &str, lowercase: &str) -> (res: bool)
    ensures
        res == (value@ == "1"@ || lowercase@ == "true"@),
{
    *value == *"1" || *lowercase == *"true"
}

/// Whether the binary of the agent is to be used: it is there, and the user did
/// not switch it off.
pub fn detect_reasonix_binary(disabled: Option<&str>, on_path: bool) -> (res: bool)
    ensures
        res == (on_path && !(disabled matches Some(value) && (value@ == "1"@
            || text::unicode_lower(value@) == "true"@))),
        disabled matches Some(value) ==> (text::all_ascii(value@) ==> res == (on_path && value@
            != "1"@ && text::ascii_lower(value@) != "true"@)),
{
    if let Some(value) = disabled {
        if switches_off(value, text::to_lowercase(value).as_str()) {
            return false;
        }
    }
    on_path
}

impl ReasonixView {
    pub open spec fn code_mode(self) -> bool {
        self.use_code_mode == Some(true)
    }

    /// The command that starts the agent. Outside Windows it runs in a terminal
    /// of its own, which the agent needs. Permissions can be skipped in code mode
    /// only.
    pub open spec fn command(self, native_binary: bool, windows: bool) -> CommandView {
        let subcommand = if self.code_mode() {
            "code"@
        } else {
            "run"@
        };
        let plain = reasonix_base(native_binary) + " "@ + subcommand;
        let base = CommandView::of_base(
            if windows {
                plain
            } else {
                "script -q /dev/null "@ + plain
            },
        );
        let with_model = match self.model {
            Some(model) => base.with_param("--model"@).with_param(model),
            None => base,
        };
        if self.dangerously_skip_permissions == Some(true) && self.code_mode() {
            with_model.with_param("--yolo"@)
        } else {
            with_model
        }
    }
}

impl Reasonix {
    /// Whether two agents have the same settings.
    pub fn same_as(&self, other: &Self) -> (res: bool)
        ensures
            res == ((ReasonixView { approvals: None, ..self@ }) == (ReasonixView {
                approvals: None,
                ..other@
            })),
    {
        same_text(&self.append_prompt.text, &other.append_prompt.text) && same_text(
            &self.model,
            &other.model,
        ) && self.dangerously_skip_permissions == other.dangerously_skip_permissions
            && self.use_code_mode == other.use_code_mode && self.cmd.settings.eq(
            &other.cmd.settings,
        )
    }

    /// The command that starts the agent, before what the user changes of it.
    pub fn build_command_builder(&self, native_binary: bool, windows: bool) -> (res:
        CommandBuilder)
        ensures
            res@ == self@.command(native_binary, windows),
    {
        let code_mode = match self.use_code_mode {
            Some(used) => used,
            None => false,
        };
        let skip_permissions = match self.dangerously_skip_permissions {
            Some(skipped) => skipped,
            None => false,
        };
        let subcommand = if code_mode {
            "code"
        } else {
            "run"
        };
        let plain = text::concat3(base_command(native_binary), " ", subcommand);
        let mut builder = if windows {
            CommandBuilder::new(plain)
        } else {
            CommandBuilder::new(text::concat("script -q /dev/null ", plain.as_str()))
        };
        if let Some(model) = &self.model {
            builder = builder.extend_param("--model").extend_param(model.as_str());
        }
        if skip_permissions && code_mode {
            builder = builder.extend_param("--yolo");
        }
        builder
    }

    /// The command that runs the agent on a prompt.
    pub fn spawn_command(&self, native_binary: bool, windows: bool, prompt: &str) -> (res:
        CommandBuilder)
        ensures
            res@ == self@.command(native_binary, windows).with_param(prompt@),
    {
        self.build_command_builder(native_binary, windows).extend_param(prompt)
    }

    /// Why the agent cannot take up a session again.
    pub fn follow_up_error(&self) -> (res: String)
        ensures
            res@ == "Reasonix does not support session resume via CLI"@,
    {
        "Reasonix does not support session resume via CLI".to_owned()
    }

    /// The file in which the agent looks for its tools, by whether there is one
    /// in the newer format.
    pub fn default_mcp_config_path(&self, home_dir: Option<String>, toml_exists: bool) -> (res:
        Option<PathParts>)
        ensures
            res.deep_view() == match home_dir {
                Some(home) => Some(
                    PathView::of_root(home@).join(".reasonix"@).join(
                        if toml_exists {
                            "config.toml"@
                        } else {
                            "config.json"@
                        },
                    ),
                ),
                None => None,
            },
    {
        let home = match home_dir {
            Some(home) => home,
            None => return None,
        };
        let name = if toml_exists {
            "config.toml"
        } else {
            "config.json"
        };
        Some(PathParts::of_root(home).join(".reasonix").join(name))
    }

    /// How available the agent is, by whether its directory or else its file of
    /// tools is there.
    pub fn get_availability_info(&self, dir_exists: bool, config_exists: bool) -> (res:
        AvailabilityInfo)
        ensures
            res == if dir_exists || config_exists {
                AvailabilityInfo::InstallationFound
            } else {
                AvailabilityInfo::NotFound
            },
    {
        AvailabilityInfo::of_installation(dir_exists || config_exists)
    }
}

} // verus!
