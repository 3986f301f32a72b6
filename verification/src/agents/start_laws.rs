//! How agents are started, and what they need for it.

use vstd::prelude::*;

use crate::command::CommandBuilder;
use crate::path::PathParts;
use crate::text;

use super::deepseek_harness::{DeepseekHarness, ProfileAction};
use super::kimi::{KimiCli, KimiMode};
use super::reasonix::{detect_reasonix_binary, switches_off, Reasonix};
use super::{same_text, AvailabilityInfo};

verus! {

/// The overlay is written to the file of the model in use, and is one text but
/// for the entry and the model in it.
pub proof fn law_overlay_is_written_to_its_file(
    agent: DeepseekHarness,
    home: PathParts,
    entry: &str,
    native_binary: bool,
    model: &str,
    file: PathParts,
    action: ProfileAction,
)
    requires
        call_ensures(
            DeepseekHarness::ensure_acp_profile,
            (&agent, Some(&home), entry, true, native_binary),
            action,
        ),
        call_ensures(DeepseekHarness::overlay_path, (&agent, &home), file),
        call_ensures(DeepseekHarness::model, (&agent,), model),
    ensures
        action is WriteOverlay,
        action->path@ == file@,
        action->content@ == "- insert:\n    - id: acp\n      name: '"@ + entry@
            + "'\n      config:\n        provider: "@ + "deepseek-official"@ + "\n        model: "@
            + model@ + "\n"@,
{
}

/// The server is installed by the command of the agent.
pub proof fn law_server_is_installed_by_the_agent(
    agent: DeepseekHarness,
    home: PathParts,
    entry: &str,
    native_binary: bool,
    overlay: &str,
    started: CommandBuilder,
    action: ProfileAction,
)
    requires
        call_ensures(
            DeepseekHarness::ensure_acp_profile,
            (&agent, Some(&home), entry, false, native_binary),
            action,
        ),
        call_ensures(
            DeepseekHarness::build_command_builder,
            (&agent, overlay, native_binary),
            started,
        ),
    ensures
        action is Bootstrap,
        action->Bootstrap_0.base@ == started.base@,
        started.base@ == if native_binary {
            "dsh"@
        } else {
            "npx -y @deepseek-ai/dsh"@
        },
        started.params@.len() == 4,
        started.params@[0]@ == "--profile"@,
        started.params@[1]@ == "acp"@,
        started.params@[2]@ == "--patch"@,
        started.params@[3]@ == overlay@,
{
    let params = started.params.deep_view();
    assert(params.len() == started.params@.len());
    assert(params[0] == started.params@[0]@);
    assert(params[1] == started.params@[1]@);
    assert(params[2] == started.params@[2]@);
    assert(params[3] == started.params@[3]@);
}

/// Where the directory of the agent is not known, it says so.
pub proof fn law_unknown_directory_is_explained(
    agent: DeepseekHarness,
    entry: &str,
    entry_exists: bool,
    native_binary: bool,
    action: ProfileAction,
)
    requires
        call_ensures(
            DeepseekHarness::ensure_acp_profile,
            (&agent, None, entry, entry_exists, native_binary),
            action,
        ),
    ensures
        action is Fail,
        action->Fail_0@ == "cannot resolve dsh home"@,
{
}

/// The name of an overlay is made from the name of the model: characters that can
/// stand in any file name stay.
pub proof fn law_overlay_is_named_after_its_model(
    agent: DeepseekHarness,
    home: PathParts,
    model: &str,
    file: PathParts,
)
    requires
        call_ensures(DeepseekHarness::overlay_path, (&agent, &home), file),
        call_ensures(DeepseekHarness::model, (&agent,), model),
        forall|i: int|
            0 <= i < model@.len() ==> 'a' <= #[trigger] model@[i] <= 'z' || 'A' <= model@[i] <= 'Z'
                || '0' <= model@[i] <= '9' || model@[i] == '-',
    ensures
        file.parts@.len() > 0,
        file.parts@.last()@ == "helios-acp-overlay-"@ + model@ + ".yml"@,
{
    lemma_plain_names_stay(model@);
    let parts = file.parts.deep_view();
    assert(parts.len() == file.parts@.len());
    assert(parts.last() == file.parts@.last()@);
}

proof fn lemma_plain_names_stay(name: Seq<char>)
    requires
        forall|i: int|
            0 <= i < name.len() ==> 'a' <= #[trigger] name[i] <= 'z' || 'A' <= name[i] <= 'Z' || '0'
                <= name[i] <= '9' || name[i] == '-',
    ensures
        super::deepseek_harness::escaped(name) == name,
    decreases name.len(),
{
    if name.len() > 0 {
        let rest = name.drop_first();
        assert forall|i: int| 0 <= i < rest.len() implies 'a' <= #[trigger] rest[i] <= 'z' || 'A'
            <= rest[i] <= 'Z' || '0' <= rest[i] <= '9' || rest[i] == '-' by {
            assert(rest[i] == name[i + 1]);
        }
        lemma_plain_names_stay(rest);
        assert(seq![name[0]] + rest =~= name);
    }
}

/// Kimi is started by its package, as a server of the protocol.
pub proof fn law_kimi_is_started_by_its_package(agent: KimiCli, command: CommandBuilder)
    requires
        call_ensures(KimiCli::build_command_builder, (&agent,), command),
    ensures
        command.base@ == "npx -y @moonshot-ai/kimi-code"@,
        command.params@.len() == 1,
        command.params@[0]@ == "acp"@,
{
    let params = command.params.deep_view();
    assert(params.len() == command.params@.len());
    assert(params[0] == command.params@[0]@);
}

/// Each mode of Kimi has its id.
pub proof fn law_modes_have_their_ids(mode: KimiMode, id: &'static str)
    requires
        call_ensures(KimiMode::as_acp_mode_id, (mode,), id),
    ensures
        id@ == match mode {
            KimiMode::Default => "default"@,
            KimiMode::Plan => "plan"@,
            KimiMode::Auto => "auto"@,
            KimiMode::Yolo => "yolo"@,
        },
{
}

/// An agent that shows signs of being installed counts as installed.
pub proof fn law_signs_make_an_installation(found: bool, info: AvailabilityInfo)
    requires
        call_ensures(AvailabilityInfo::of_installation, (found,), info),
    ensures
        info is InstallationFound <==> found,
        info is NotFound <==> !found,
{
}

/// Two texts that may be left out are the same if both are left out, or both are
/// there with the same characters.
pub proof fn law_same_texts_have_the_same_characters(
    a: Option<String>,
    b: Option<String>,
    same: bool,
)
    requires
        call_ensures(same_text, (&a, &b), same),
    ensures
        a is Some != b is Some ==> !same,
        a is None && b is None ==> same,
        a is Some && b is Some ==> same == (a->0@ == b->0@),
{
    if a is Some && b is Some {
        assert(a.deep_view() == Some(a->0@));
        assert(b.deep_view() == Some(b->0@));
    }
}

/// A setting switches something off exactly if it is a one, or says so in any
/// letter case.
pub proof fn law_binary_is_switched_off_in_words(
    value: &str,
    upper: String,
    on_path: bool,
    used: bool,
)
    requires
        call_ensures(detect_reasonix_binary, (Some(value), on_path), used),
        call_ensures(text::to_ascii_uppercase, (value,), upper),
        text::all_ascii(value@),
    ensures
        used == (on_path && value@ != "1"@ && upper@ != "TRUE"@),
{
    reveal_strlit("TRUE");
    reveal_strlit("true");
    let lower = text::ascii_lower(value@);
    assert("TRUE"@.len() == 4);
    assert("true"@.len() == 4);
    if upper@ == "TRUE"@ {
        assert forall|i: int| 0 <= i < 4 implies lower[i] == "true"@[i] by {
            assert(upper@[i] == "TRUE"@[i]);
            assert(upper@[i] == text::upper_char(value@[i]));
        }
        assert(lower =~= "true"@);
    }
    if lower == "true"@ {
        assert forall|i: int| 0 <= i < 4 implies upper@[i] == "TRUE"@[i] by {
            assert(lower[i] == "true"@[i]);
            assert(lower[i] == text::lower_char(value@[i]));
        }
        assert(upper@ =~= "TRUE"@);
    }
}

/// The same, where the setting is also given in lowercase.
pub proof fn law_one_or_true_switches_off(value: &str, lowercase: &str, off: bool)
    requires
        call_ensures(switches_off, (value, lowercase), off),
    ensures
        value@ == "1"@ ==> off,
        lowercase@ == "true"@ ==> off,
        off ==> value@ == "1"@ || lowercase@ == "true"@,
{
}

/// Reasonix says that it cannot take up a session again.
pub proof fn law_reasonix_takes_up_no_session(agent: Reasonix, message: String)
    requires
        call_ensures(Reasonix::follow_up_error, (&agent,), message),
    ensures
        message@ == "Reasonix does not support session resume via CLI"@,
{
}

/// The tools of the DeepSeek harness are in no file.
pub proof fn law_deepseek_has_no_file_of_tools(agent: DeepseekHarness, file: Option<PathParts>)
    requires
        call_ensures(DeepseekHarness::default_mcp_config_path, (&agent,), file),
    ensures
        file is None,
{
}

} // verus!
