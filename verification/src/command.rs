//! Command lines that start an agent.

use vstd::prelude::*;

verus! {

/// What a user changes about the command of an agent, in its JSON form.
#[derive(Debug)]
pub struct CmdOverrides {
    pub settings: String,
}

impl Clone for CmdOverrides {
    fn clone(&self) -> (res: Self)
        ensures
            res == *self,
    {
        CmdOverrides { settings: self.settings.clone() }
    }
}

/// A command that is put together bit by bit: its base, which a shell would
/// split into words, and the parameters after it.
#[derive(Debug)]
pub struct CommandBuilder {
    pub base: String,
    pub params: Vec<String>,
}

#[verifier::ext_equal]
pub struct CommandView {
    pub base: Seq<char>,
    pub params: Seq<Seq<char>>,
}

impl View for CommandBuilder {
    type V = CommandView;

    open spec fn view(&self) -> CommandView {
        CommandView { base: self.base@, params: self.params.deep_view() }
    }
}

impl CommandView {
    pub open spec fn of_base(base: Seq<char>) -> CommandView {
        CommandView { base, params: Seq::empty() }
    }

    pub open spec fn with_param(self, param: Seq<char>) -> CommandView {
        CommandView { params: self.params.push(param), ..self }
    }
}

impl CommandBuilder {
    pub fn new(base: String) -> (res: Self)
        ensures
            res@ == CommandView::of_base(base@),
    {
        let res = CommandBuilder { base, params: Vec::new() };
        assert(res@.params =~= Seq::empty());
        res
    }

    /// The command with one more parameter.
    pub fn extend_param(self, param: &str) -> (res: Self)
        ensures
            res@ == self@.with_param(param@),
    {
        let CommandBuilder { base, params } = self;
        let ghost before = params.deep_view();
        let mut params = params;
        params.push(param.to_owned());
        assert(params.deep_view() =~= before.push(param@));
        CommandBuilder { base, params }
    }
}

/// A command has the base that it is made with, and each parameter after those
/// that it had.
pub proof fn law_parameters_are_appended(
    base: String,
    begun: CommandBuilder,
    command: CommandBuilder,
    param: &str,
    longer: CommandBuilder,
)
    requires
        call_ensures(CommandBuilder::new, (base,), begun),
        call_ensures(CommandBuilder::extend_param, (command, param), longer),
    ensures
        begun.base@ == base@,
        begun.params@.len() == 0,
        longer.base@ == command.base@,
        longer.params@.len() == command.params@.len() + 1,
        longer.params@.last()@ == param@,
        forall|i: int|
            0 <= i < command.params@.len() ==> longer.params@[i]@ == (
            #[trigger] command.params@[i])@,
{
    assert(begun.params.deep_view().len() == begun.params@.len());
    let before = command.params.deep_view();
    let after = longer.params.deep_view();
    assert(before.len() == command.params@.len());
    assert(after.len() == longer.params@.len());
    assert(after[before.len() as int] == longer.params@[before.len() as int]@);
    assert forall|i: int| 0 <= i < command.params@.len() implies longer.params@[i]@ == (
    #[trigger] command.params@[i])@ by {
        assert(before[i] == command.params@[i]@);
        assert(after[i] == longer.params@[i]@);
    }
}

} // verus!
