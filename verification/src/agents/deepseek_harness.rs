//! The DeepSeek Harness, which is driven through its server for the Agent Client
//! Protocol.

use vstd::prelude::*;
use vstd::string::*;

use crate::approvals::ApprovalService;
use crate::command::{CmdOverrides, CommandBuilder, CommandView};
use crate::path::{PathParts, PathView};
use crate::text;

use super::{
    same_text, AppendPrompt, AvailabilityInfo, HarnessSetup, HarnessView, ResumedSession,
    ResumedView, SpawnPlan, SpawnView,
};

verus! {

/// The profile that the server is installed into.
pub const DSH_PROFILE: &'static str = "acp";

/// The package of the server.
pub const DSH_ACP_PACKAGE: &'static str = "@deepseek-ai/dsh-acp";

/// The provider that serves the models.
pub const DSH_PROVIDER: &'static str = "deepseek-official";

/// The model that is used where none is set.
pub const DEFAULT_MODEL: &'static str = "deepseek-v4-flash";

/// Where the sessions of the agent are stored.
pub const SESSION_NAMESPACE: &'static str = "deepseek_harness_sessions";

/// The settings of the DeepSeek Harness.
#[derive(Debug)]
pub struct DeepseekHarness {
    pub append_prompt: AppendPrompt,
    pub model: Option<String>,
    pub dangerously_skip_permissions: Option<bool>,
    pub cmd: CmdOverrides,
    pub approvals: Option<ApprovalService>,
}

#[verifier::ext_equal]
pub struct DeepseekView {
    pub append_prompt: Option<Seq<char>>,
    pub model: Option<Seq<char>>,
    pub dangerously_skip_permissions: Option<bool>,
    pub cmd: Seq<char>,
    pub approvals: Option<ApprovalService>,
}

impl View for DeepseekHarness {
    type V = DeepseekView;

    open spec fn view(&self) -> DeepseekView {
        DeepseekView {
            append_prompt: self.append_prompt.text.deep_view(),
            model: self.model.deep_view(),
            dangerously_skip_permissions: self.dangerously_skip_permissions,
            cmd: self.cmd.settings@,
            approvals: self.approvals,
        }
    }
}

impl Clone for DeepseekHarness {
    fn clone(&self) -> (res: Self)
        ensures
            res == *self,
    {
        DeepseekHarness {
            append_prompt: self.append_prompt.clone(),
            model: self.model.clone(),
            dangerously_skip_permissions: self.dangerously_skip_permissions,
            cmd: self.cmd.clone(),
            approvals: self.approvals,
        }
    }
}

/// The command of the agent: its own binary, or the package that brings it.
pub open spec fn dsh_base(native_binary: bool) -> Seq<char> {
    if native_binary {
        "dsh"@
    } else {
        "npx -y @deepseek-ai/dsh"@
    }
}

fn base_command(native_binary: bool) -> (res: &'static str)
    ensures
        res@ == dsh_base(native_binary),
{
    if native_binary {
        "dsh"
    } else {
        "npx -y @deepseek-ai/dsh"
    }
}

/// The directory of the agent: the one that the environment names, or else the
/// one in the home directory of the user.
pub open spec fn home_of_dsh(named: Option<Seq<char>>, home: Option<Seq<char>>) -> Option<
    PathView,
> {
    match (named, home) {
        (Some(dir), _) => Some(PathView::of_root(dir)),
        (None, Some(dir)) => Some(PathView::of_root(dir).join(".dsh"@)),
        (None, None) => None,
    }
}

/// The directory of the agent.
pub fn dsh_home(named: Option<String>, home_dir: Option<String>) -> (res: Option<PathParts>)
    ensures
        res.deep_view() == home_of_dsh(named.deep_view(), home_dir.deep_view()),
{
    match named {
        Some(dir) => Some(PathParts::of_root(dir)),
        None => match home_dir {
            Some(dir) => Some(PathParts::of_root(dir).join(".dsh")),
            None => None,
        },
    }
}

/// The directory of the profile that the server is installed into.
pub open spec fn profile_dir(dsh_home: PathView) -> PathView {
    dsh_home.join("profiles"@).join(DSH_PROFILE@)
}

/// The directory of the profile that the server is installed into.
pub fn dsh_profile_dir(dsh_home: &PathParts) -> (res: PathParts)
    ensures
        res@ == profile_dir(dsh_home@),
{
    dsh_home.join("profiles").join(DSH_PROFILE)
}

/// The file that the installed server starts from.
pub open spec fn plugin_entry(dsh_home: PathView) -> PathView {
    profile_dir(dsh_home).join("node_modules"@).join("@deepseek-ai/dsh-acp"@).join("lib"@).join(
        "index.js"@,
    )
}

/// The file that the installed server starts from.
pub fn dsh_acp_plugin_entry(dsh_home: &PathParts) -> (res: PathParts)
    ensures
        res@ == plugin_entry(dsh_home@),
{
    dsh_profile_dir(dsh_home).join("node_modules").join("@deepseek-ai/dsh-acp").join("lib").join(
        "index.js",
    )
}

/// How a character stands in the name of a file: ASCII letters, digits and
/// hyphens as they are, and any other one as its code between underscores.
pub open spec fn escaped_char(c: char) -> Seq<char> {
    if text::is_alphanumeric(c) || c == '-' {
        seq![c]
    } else {
        seq!['_'] + text::hexadecimal(c as nat) + seq!['_']
    }
}

/// How a text stands in the name of a file.
pub open spec fn escaped(text: Seq<char>) -> Seq<char>
    decreases text.len(),
{
    if text.len() == 0 {
        Seq::empty()
    } else {
        escaped_char(text[0]) + escaped(text.drop_first())
    }
}

/// The code of a character.
fn code_of(c: char) -> (res: u32)
    ensures
        res as nat == c as nat,
{
    c as u32
}

fn escape(text: &str) -> (res: String)
    ensures
        res@ == escaped(text@),
{
    let chars = text::chars_of(text);
    let mut out = String::new();
    let mut i: usize = 0;
    assert(text@.skip(0) =~= text@);
    assert(out@ + escaped(text@) =~= escaped(text@));
    while i < chars.len()
        invariant
            i <= chars@.len(),
            chars@ == text@,
            escaped(text@) == out@ + escaped(text@.skip(i as int)),
        decreases chars.len() - i,
    {
        let c = chars[i];
        let ghost before = out@;
        let ghost rest = escaped(text@.skip(i + 1));
        assert(text@.skip(i as int).drop_first() =~= text@.skip(i + 1));
        if ('0' <= c && c <= '9') || ('a' <= c && c <= 'z') || ('A' <= c && c <= 'Z') || c == '-' {
            out.push(c);
        } else {
            let code = text::hexadecimal_of(code_of(c));
            out.push('_');
            out.append(code.as_str());
            out.push('_');
        }
        assert(out@ =~= before + escaped_char(c));
        assert(before + (escaped_char(c) + rest) =~= before + escaped_char(c) + rest);
        i += 1;
    }
    assert(escaped(text@.skip(i as int)) =~= Seq::empty());
    assert(out@ + Seq::empty() =~= out@);
    out
}

/// What is to be done next to make the server ready.
#[derive(Debug)]
pub enum ProfileAction {
    /// The server is to be installed with a command.
    Bootstrap(CommandBuilder),
    /// The overlay of this run is to be written.
    WriteOverlay { path: PathParts, content: String },
    /// The server cannot be made ready.
    Fail(String),
}

impl DeepseekView {
    /// The model that is used.
    pub open spec fn used_model(self) -> Seq<char> {
        match self.model {
            Some(model) => model,
            None => DEFAULT_MODEL@,
        }
    }

    /// The command that starts the agent with an overlay.
    pub open spec fn command(self, overlay: Seq<char>, native_binary: bool) -> CommandView {
        CommandView::of_base(dsh_base(native_binary)).with_param("--profile"@).with_param(
            DSH_PROFILE@,
        ).with_param("--patch"@).with_param(overlay)
    }

    /// How the agent talks to its harness.
    pub open spec fn harness(self) -> HarnessView {
        HarnessView {
            session_namespace: SESSION_NAMESPACE@,
            native_session_resume: false,
            mode: None,
            model: None,
        }
    }

    /// The approval service that requests go to.
    pub open spec fn used_approvals(self) -> Option<ApprovalService> {
        if self.dangerously_skip_permissions == Some(true) {
            None
        } else {
            self.approvals
        }
    }

    /// A run of the agent on a prompt, with an overlay.
    pub open spec fn run(
        self,
        overlay: Seq<char>,
        native_binary: bool,
        prompt: Seq<char>,
        resumed: Option<ResumedView>,
    ) -> SpawnView {
        SpawnView {
            command: self.command(overlay, native_binary),
            overrides: self.cmd,
            prompt,
            append_prompt: self.append_prompt,
            harness: self.harness(),
            approvals: self.used_approvals(),
            resumed,
        }
    }

    /// The file of the overlay for the model in use: each model has one of its
    /// own.
    pub open spec fn overlay_path(self, dsh_home: PathView) -> PathView {
        profile_dir(dsh_home).join(
            "helios-acp-overlay-"@ + escaped(self.used_model()) + ".yml"@,
        )
    }

    /// The text of the overlay.
    pub open spec fn overlay(self, entry: Seq<char>) -> Seq<char> {
        "- insert:\n    - id: acp\n      name: '"@ + entry
            + "'\n      config:\n        provider: "@ + DSH_PROVIDER@ + "\n        model: "@
            + self.used_model() + "\n"@
    }
}

impl DeepseekHarness {
    /// Whether two agents have the same settings.
    pub fn same_as(&self, other: &Self) -> (res: bool)
        ensures
            res == ((DeepseekView { approvals: None, ..self@ }) == (DeepseekView {
                approvals: None,
                ..other@
            })),
    {
        same_text(&self.append_prompt.text, &other.append_prompt.text) && same_text(
            &self.model,
            &other.model,
        ) && self.dangerously_skip_permissions == other.dangerously_skip_permissions
            && self.cmd.settings.eq(&other.cmd.settings)
    }

    /// The model that is used.
    pub fn model(&self) -> (res: &str)
        ensures
            res@ == self@.used_model(),
    {
        match &self.model {
            Some(model) => model.as_str(),
            None => DEFAULT_MODEL,
        }
    }

    /// The approval service that requests go to: none where permissions are
    /// skipped, so that every request is granted.
    pub fn acp_approvals(&self) -> (res: Option<ApprovalService>)
        ensures
            res == self@.used_approvals(),
    {
        match self.dangerously_skip_permissions {
            Some(true) => None,
            _ => self.approvals,
        }
    }

    /// Attaches an approval service.
    pub fn use_approvals(&mut self, approvals: ApprovalService)
        ensures
            final(self)@ == (DeepseekView { approvals: Some(approvals), ..old(self)@ }),
    {
        self.approvals = Some(approvals);
    }

    /// The file of the overlay for the model in use.
    pub fn overlay_path(&self, dsh_home: &PathParts) -> (res: PathParts)
        ensures
            res@ == self@.overlay_path(dsh_home@),
    {
        let model = escape(self.model());
        let name = text::concat3("helios-acp-overlay-", model.as_str(), ".yml");
        dsh_profile_dir(dsh_home).join(name.as_str())
    }

    fn overlay_content(&self, entry: &str) -> (res: String)
        ensures
            res@ == self@.overlay(entry@),
    {
        let mut content = "- insert:\n    - id: acp\n      name: '".to_owned();
        content.append(entry);
        content.append("'\n      config:\n        provider: ");
        content.append(DSH_PROVIDER);
        content.append("\n        model: ");
        content.append(self.model());
        content.append("\n");
        content
    }

    /// Starts to make the server ready: it is installed where its entry is not
    /// there, and else its overlay is written. `shown_entry` is the path of the
    /// entry as it is shown.
    pub fn ensure_acp_profile(
        &self,
        dsh_home: Option<&PathParts>,
        shown_entry: &str,
        entry_exists: bool,
        native_binary: bool,
    ) -> (res: ProfileAction)
        ensures
            match dsh_home {
                None => res matches ProfileAction::Fail(message) && message@
                    == "cannot resolve dsh home"@,
                Some(home) => if entry_exists {
                    res matches ProfileAction::WriteOverlay { path, content } && path@
                        == self@.overlay_path(home@) && content@ == self@.overlay(shown_entry@)
                } else {
                    res matches ProfileAction::Bootstrap(command) && command@
                        == CommandView::of_base(dsh_base(native_binary)).with_param(
                        "plugin"@,
                    ).with_param("--profile"@).with_param(DSH_PROFILE@).with_param(
                        "add"@,
                    ).with_param(DSH_ACP_PACKAGE@)
                },
            },
    {
        let home = match dsh_home {
            Some(home) => home,
            None => return ProfileAction::Fail("cannot resolve dsh home".to_owned()),
        };
        if !entry_exists {
            let command = CommandBuilder::new(base_command(native_binary).to_owned());
            return ProfileAction::Bootstrap(
                command.extend_param("plugin").extend_param("--profile").extend_param(
                    DSH_PROFILE,
                ).extend_param("add").extend_param(DSH_ACP_PACKAGE),
            );
        }
        ProfileAction::WriteOverlay {
            path: self.overlay_path(home),
            content: self.overlay_content(shown_entry),
        }
    }

    /// Goes on after the installation: it must have succeeded, and the entry must
    /// be there. `shown_status` is the exit status as it is shown.
    pub fn profile_bootstrapped(
        &self,
        dsh_home: &PathParts,
        shown_entry: &str,
        succeeded: bool,
        entry_exists: bool,
        shown_status: &str,
    ) -> (res: ProfileAction)
        ensures
            if succeeded && entry_exists {
                res matches ProfileAction::WriteOverlay { path, content } && path@
                    == self@.overlay_path(dsh_home@) && content@ == self@.overlay(shown_entry@)
            } else {
                res matches ProfileAction::Fail(message) && message@
                    == "failed to bootstrap dsh ACP profile: `"@ + DSH_ACP_PACKAGE@
                    + "` install exited with "@ + shown_status@
            },
    {
        if !succeeded || !entry_exists {
            let start = text::concat3(
                "failed to bootstrap dsh ACP profile: `",
                DSH_ACP_PACKAGE,
                "` install exited with ",
            );
            return ProfileAction::Fail(text::concat(start.as_str(), shown_status));
        }
        ProfileAction::WriteOverlay {
            path: self.overlay_path(dsh_home),
            content: self.overlay_content(shown_entry),
        }
    }

    /// The command that starts the agent with an overlay, before what the user
    /// changes of it.
    pub fn build_command_builder(&self, overlay: &str, native_binary: bool) -> (res:
        CommandBuilder)
        ensures
            res@ == self@.command(overlay@, native_binary),
    {
        CommandBuilder::new(base_command(native_binary).to_owned()).extend_param(
            "--profile",
        ).extend_param(DSH_PROFILE).extend_param("--patch").extend_param(overlay)
    }

    /// How the agent talks to its harness. It cannot take up a session again by
    /// itself.
    pub fn acp_harness(&self) -> (res: HarnessSetup)
        ensures
            res@ == self@.harness(),
    {
        HarnessSetup {
            session_namespace: SESSION_NAMESPACE.to_owned(),
            native_session_resume: false,
            mode: None,
            model: None,
        }
    }

    /// A first run of the agent, with an overlay.
    pub fn spawn(&self, overlay: &str, native_binary: bool, prompt: &str) -> (res: SpawnPlan)
        ensures
            res@ == self@.run(overlay@, native_binary, prompt@, None),
    {
        self.plan(overlay, native_binary, prompt, None)
    }

    /// A further run of the agent in a session, up to a message where one is
    /// given.
    pub fn spawn_follow_up(
        &self,
        overlay: &str,
        native_binary: bool,
        prompt: &str,
        session_id: &str,
        reset_to_message_id: Option<&str>,
    ) -> (res: SpawnPlan)
        ensures
            res@ == self@.run(
                overlay@,
                native_binary,
                prompt@,
                Some(
                    ResumedView {
                        session_id: session_id@,
                        reset_to_message_id: match reset_to_message_id {
                            Some(id) => Some(id@),
                            None => None,
                        },
                    },
                ),
            ),
    {
        let reset_to_message_id = match reset_to_message_id {
            Some(id) => Some(id.to_owned()),
            None => None,
        };
        self.plan(
            overlay,
            native_binary,
            prompt,
            Some(ResumedSession { session_id: session_id.to_owned(), reset_to_message_id }),
        )
    }

    fn plan(
        &self,
        overlay: &str,
        native_binary: bool,
        prompt: &str,
        resumed: Option<ResumedSession>,
    ) -> (res: SpawnPlan)
        ensures
            res@ == self@.run(overlay@, native_binary, prompt@, resumed.deep_view()),
    {
        SpawnPlan {
            command: self.build_command_builder(overlay, native_binary),
            overrides: self.cmd.clone(),
            prompt: prompt.to_owned(),
            append_prompt: self.append_prompt.clone(),
            harness: self.acp_harness(),
            approvals: self.acp_approvals(),
            resumed,
        }
    }

    /// The file in which the agent looks for its tools: it has none.
    pub fn default_mcp_config_path(&self) -> (res: Option<PathParts>)
        ensures
            res is None,
    {
        None
    }

    /// How available the agent is, by whether its directory or its binary is
    /// there.
    pub fn get_availability_info(&self, home_exists: bool, binary_found: bool) -> (res:
        AvailabilityInfo)
        ensures
            res == if home_exists || binary_found {
                AvailabilityInfo::InstallationFound
            } else {
                AvailabilityInfo::NotFound
            },
    {
        AvailabilityInfo::of_installation(home_exists || binary_found)
    }
}

proof fn lemma_escaped_first(text: Seq<char>)
    requires
        text.len() > 0,
    ensures
        escaped(text).len() > 0,
        (escaped(text)[0] == '_') == !(text::is_alphanumeric(text[0]) || text[0] == '-'),
{
    assert(escaped(text)[0] == escaped_char(text[0])[0]);
}

proof fn lemma_codes_are_equal(a: char, b: char, left: Seq<char>, right: Seq<char>)
    requires
        !(text::is_alphanumeric(a) || a == '-'),
        !(text::is_alphanumeric(b) || b == '-'),
        escaped_char(a) + left == escaped_char(b) + right,
    ensures
        a == b,
{
    text::law_hexadecimal_tells_numbers_apart(a as nat, b as nat);
    text::law_hexadecimal_tells_numbers_apart(b as nat, a as nat);
    let whole = escaped_char(a) + left;
    let x = text::hexadecimal(a as nat);
    let y = text::hexadecimal(b as nat);
    assert(whole[x.len() as int + 1] == '_');
    assert((escaped_char(b) + right)[y.len() as int + 1] == '_');
    assert forall|i: int| 0 <= i < x.len() implies whole[i + 1] == #[trigger] x[i] by {}
    assert forall|i: int| 0 <= i < y.len() implies whole[i + 1] == #[trigger] y[i] by {
        assert((escaped_char(b) + right)[i + 1] == y[i]);
    }
    if x.len() < y.len() {
        assert(whole[x.len() as int + 1] == y[x.len() as int]);
    }
    if y.len() < x.len() {
        assert(whole[y.len() as int + 1] == x[y.len() as int]);
    }
    assert(x =~= y);
}

proof fn lemma_escaped_differ(a: Seq<char>, b: Seq<char>)
    requires
        escaped(a) == escaped(b),
    ensures
        a == b,
    decreases a.len(),
{
    if a.len() == 0 {
        if b.len() > 0 {
            lemma_escaped_first(b);
        }
        assert(a =~= b);
    } else {
        lemma_escaped_first(a);
        if b.len() > 0 {
            lemma_escaped_first(b);
            let left = escaped(a.drop_first());
            let right = escaped(b.drop_first());
            if escaped(a)[0] == '_' {
                lemma_codes_are_equal(a[0], b[0], left, right);
            } else {
                assert(escaped(a)[0] == a[0]);
                assert(escaped(b)[0] == b[0]);
            }
            let width = escaped_char(a[0]).len() as int;
            assert(left =~= escaped(a).skip(width));
            assert(right =~= escaped(b).skip(width));
            lemma_escaped_differ(a.drop_first(), b.drop_first());
            assert(a =~= seq![a[0]] + a.drop_first());
            assert(b =~= seq![b[0]] + b.drop_first());
        }
    }
}

/// The overlay of a model is kept in a file of its own: agents of different
/// models never write the same one.
pub proof fn law_models_have_overlays_of_their_own(a: DeepseekView, b: DeepseekView, home: PathView)
    requires
        a.used_model() != b.used_model(),
    ensures
        a.overlay_path(home) != b.overlay_path(home),
{
    let left = a.overlay_path(home).parts.last();
    let right = b.overlay_path(home).parts.last();
    if a.overlay_path(home) == b.overlay_path(home) {
        assert(left == right);
        let prefix = "helios-acp-overlay-"@.len() as int;
        let suffix = ".yml"@.len() as int;
        assert(left.subrange(prefix, left.len() - suffix) =~= escaped(a.used_model()));
        assert(right.subrange(prefix, right.len() - suffix) =~= escaped(b.used_model()));
        lemma_escaped_differ(a.used_model(), b.used_model());
    }
}

} // verus!
