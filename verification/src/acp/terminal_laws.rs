//! What becomes of the output and the end of a command in a terminal.

use vstd::prelude::*;
use vstd::utf8::*;

use crate::text;

use super::client::ClientError;
use super::terminal;
use super::terminal::{
    exit_status_lost, spawn_failed, terminal_exit_status, ExitWait, TerminalBuffer,
    TerminalExitStatus, TerminalOutput, Terminals,
};

verus! {

/// A buffer that has room for all of its output keeps all of it.
pub proof fn law_output_within_the_limit_is_kept(
    buffer: &mut TerminalBuffer,
    chunk: &[u8],
    byte_limit: u64,
)
    requires
        call_ensures(TerminalBuffer::push, (buffer, chunk, byte_limit), ()),
        old(buffer).output@.len() + chunk@.len() <= byte_limit as usize,
    ensures
        final(buffer).output@ == old(buffer).output@ + chunk@,
        final(buffer).truncated == old(buffer).truncated,
{
}

/// A buffer without room for all of its output keeps the end of it, within the
/// limit, and says so. It leaves out no more than it has to: what goes beyond
/// the limit, and what is left then of a character.
pub proof fn law_output_beyond_the_limit_is_cut(
    buffer: &mut TerminalBuffer,
    chunk: &[u8],
    byte_limit: u64,
)
    requires
        call_ensures(TerminalBuffer::push, (buffer, chunk, byte_limit), ()),
        old(buffer).output@.len() + chunk@.len() > byte_limit as usize,
    ensures
        final(buffer).truncated,
        final(buffer).output@.len() <= byte_limit as usize,
        final(buffer).output@ == (old(buffer).output@ + chunk@).skip(
            old(buffer).output@.len() + chunk@.len() - final(buffer).output@.len(),
        ),
        final(buffer).output@.len() > 0 ==> !is_continuation_byte(final(buffer).output@[0]),
        forall|i: int|
            old(buffer).output@.len() + chunk@.len() - byte_limit as usize <= i < old(
                buffer,
            ).output@.len() + chunk@.len() - final(buffer).output@.len()
                ==> is_continuation_byte(#[trigger] (old(buffer).output@ + chunk@)[i]),
{
    let all = old(buffer).output@ + chunk@;
    let limit = byte_limit as usize as nat;
    terminal::law_kept_output_is_a_bounded_suffix(all, limit);
    terminal::law_cut_output_begins_at_a_character(all, limit);
    let cut = all.len() - limit;
    let tail = all.skip(cut);
    terminal::lemma_only_continuations_are_skipped(tail);
    assert forall|i: int| cut <= i < all.len() - final(buffer).output@.len() implies is_continuation_byte(
        #[trigger] all[i],
    ) by {
        assert(tail[i - cut] == all[i]);
    }
}

/// A new buffer is empty and nothing was cut from it.
pub proof fn law_new_buffer_is_empty(buffer: TerminalBuffer)
    requires
        call_ensures(<TerminalBuffer as Default>::default, (), buffer),
    ensures
        buffer.output@.len() == 0,
        !buffer.truncated,
{
}

/// A process that ended by itself has an exit code, and one that was ended by a
/// signal the number of it.
pub proof fn law_exit_status_tells_code_and_signal(
    code: Option<i32>,
    signal: Option<i32>,
    number: i32,
    digits: String,
    status: TerminalExitStatus,
)
    requires
        call_ensures(terminal_exit_status, (code, signal), status),
        call_ensures(text::signed_decimal_of, (number,), digits),
    ensures
        code is None <==> status.exit_code is None,
        code is Some && code->0 >= 0 ==> status.exit_code->0 == code->0,
        code is Some && code->0 < 0 ==> status.exit_code->0 == code->0 + 0x1_0000_0000,
        signal is None <==> status.signal is None,
        signal == Some(number) ==> status.signal is Some && status.signal->0@ == digits@,
{
    if status.signal is Some {
        assert(status.signal.deep_view() == Some(status.signal->0@));
    }
    if code is Some {
        let value = code->0;
        assert(value < 0 ==> value as u32 == value + 0x1_0000_0000) by (bit_vector);
    }
}

/// A new terminal has shown nothing yet and its command still runs; the other
/// terminals stay as they are.
pub proof fn law_new_terminal_has_no_output(
    terminals: &mut Terminals,
    output_byte_limit: Option<u64>,
    id: String,
    shown: Result<TerminalOutput, ClientError>,
    wait: Result<ExitWait, ClientError>,
    other: Seq<char>,
)
    requires
        call_ensures(Terminals::create_terminal, (terminals, output_byte_limit), id),
        call_ensures(Terminals::terminal_output, (final(terminals), &id), shown),
        call_ensures(Terminals::wait_for_terminal_exit, (final(terminals), &id), wait),
    ensures
        shown is Ok,
        shown->Ok_0.output@.len() == 0,
        !shown->Ok_0.truncated,
        shown->Ok_0.exit_status is None,
        wait is Ok,
        wait->Ok_0 is StillRunning,
        id@.len() > 5,
        id@.take(5) == "term-"@,
        final(terminals)@[id@].byte_limit == if output_byte_limit is Some {
            output_byte_limit->0
        } else {
            1_048_576u64
        },
        other != id@ ==> (final(terminals)@.dom().contains(other) <==> old(
            terminals,
        )@.dom().contains(other)) && final(terminals)@[other] == old(terminals)@[other],
{
    reveal_strlit("term-");
    assert("term-"@.len() == 5);
    let uuid = choose|uuid: Seq<char>|
        super::is_random_uuid(uuid) && id@ == #[trigger] ("term-"@ + uuid);
    assert(id@.take(5) =~= "term-"@);
    let none = final(terminals)@[id@].output;
    assert(none == Seq::<u8>::empty());
    assert(valid_utf8(none));
    assert(decode_utf8(none).len() == 0);
}

/// What a command puts out is shown, as long as there is room for it.
pub proof fn law_output_of_a_terminal_is_shown(
    terminals: &mut Terminals,
    id: String,
    chunk: &[u8],
    before: Result<TerminalOutput, ClientError>,
    after: Result<TerminalOutput, ClientError>,
    other: Seq<char>,
)
    requires
        call_ensures(Terminals::push_output, (terminals, &id, chunk), ()),
        call_ensures(Terminals::terminal_output, (old(terminals), &id), before),
        call_ensures(Terminals::terminal_output, (final(terminals), &id), after),
        old(terminals)@.dom().contains(id@),
        old(terminals)@[id@].output.len() + chunk@.len() <= old(
            terminals,
        )@[id@].byte_limit as usize,
        valid_utf8(old(terminals)@[id@].output),
        valid_utf8(chunk@),
    ensures
        before is Ok,
        after is Ok,
        after->Ok_0.output@ == before->Ok_0.output@ + decode_utf8(chunk@),
        after->Ok_0.truncated == before->Ok_0.truncated,
        after->Ok_0.exit_status == before->Ok_0.exit_status,
        other != id@ ==> (final(terminals)@.dom().contains(other) <==> old(
            terminals,
        )@.dom().contains(other)) && final(terminals)@[other] == old(terminals)@[other],
{
    let had = old(terminals)@[id@].output;
    assert(final(terminals)@[id@].output == had + chunk@);
    lemma_texts_one_after_the_other(had, chunk@);
}

proof fn lemma_texts_one_after_the_other(a: Seq<u8>, b: Seq<u8>)
    requires
        valid_utf8(a),
        valid_utf8(b),
    ensures
        valid_utf8(a + b),
        decode_utf8(a + b) == decode_utf8(a) + decode_utf8(b),
    decreases a.len(),
{
    if a.len() == 0 {
        assert(a + b =~= b);
        assert(decode_utf8(a) + decode_utf8(b) =~= decode_utf8(b));
    } else {
        let rest = pop_first_scalar(a);
        let width = length_of_first_scalar(a);
        lemma_texts_one_after_the_other(rest, b);
        assert((a + b)[0] == a[0]);
        assert(pop_first_scalar(a + b) =~= rest + b);
        assert(decode_utf8(a + b) =~= decode_utf8(a) + decode_utf8(b));
    }
}

/// How a command ended is shown from then on, to those who look and to those who
/// wait; its output stays.
pub proof fn law_end_of_a_command_is_shown(
    terminals: &mut Terminals,
    id: String,
    status: TerminalExitStatus,
    shown: Result<TerminalOutput, ClientError>,
    wait: Result<ExitWait, ClientError>,
    other: Seq<char>,
)
    requires
        call_ensures(Terminals::record_exit, (terminals, &id, status), ()),
        call_ensures(Terminals::terminal_output, (final(terminals), &id), shown),
        call_ensures(Terminals::wait_for_terminal_exit, (final(terminals), &id), wait),
        old(terminals)@.dom().contains(id@),
    ensures
        shown is Ok,
        shown->Ok_0.exit_status == Some(status),
        wait is Ok,
        wait->Ok_0 == ExitWait::Exited(status),
        final(terminals)@[id@].output == old(terminals)@[id@].output,
        final(terminals)@[id@].truncated == old(terminals)@[id@].truncated,
        final(terminals)@[id@].byte_limit == old(terminals)@[id@].byte_limit,
        other != id@ ==> (final(terminals)@.dom().contains(other) <==> old(
            terminals,
        )@.dom().contains(other)) && final(terminals)@[other] == old(terminals)@[other],
{
}

/// A terminal that was released is unknown from then on, and the others stay.
pub proof fn law_released_terminal_is_unknown(
    terminals: &mut Terminals,
    id: String,
    released: bool,
    shown: Result<TerminalOutput, ClientError>,
    wait: Result<ExitWait, ClientError>,
    kill: Result<(), ClientError>,
    other: Seq<char>,
)
    requires
        call_ensures(Terminals::release_terminal, (terminals, &id), released),
        call_ensures(Terminals::terminal_output, (final(terminals), &id), shown),
        call_ensures(Terminals::wait_for_terminal_exit, (final(terminals), &id), wait),
        call_ensures(Terminals::kill_terminal_command, (final(terminals), &id), kill),
    ensures
        released <==> old(terminals)@.dom().contains(id@),
        is_unknown_id(shown),
        is_unknown_id(wait),
        is_unknown_id(kill),
        other != id@ ==> (final(terminals)@.dom().contains(other) <==> old(
            terminals,
        )@.dom().contains(other)) && final(terminals)@[other] == old(terminals)@[other],
{
}

/// Whether something was refused for an id that no terminal has.
pub open spec fn is_unknown_id<T>(res: Result<T, ClientError>) -> bool {
    &&& res is Err
    &&& res->Err_0 is InvalidParams
    &&& res->Err_0->InvalidParams_data@ == "unknown terminal id"@
}

/// The command of a terminal that is known may be killed.
pub proof fn law_known_command_may_be_killed(
    terminals: Terminals,
    id: String,
    kill: Result<(), ClientError>,
)
    requires
        call_ensures(Terminals::kill_terminal_command, (&terminals, &id), kill),
        terminals@.dom().contains(id@),
    ensures
        kill is Ok,
{
}

/// There are no terminals at first, and what concerns one that is unknown is
/// dropped.
pub proof fn law_output_of_unknown_terminals_is_dropped(
    fresh: Terminals,
    terminals: &mut Terminals,
    id: String,
    chunk: &[u8],
    at: Seq<char>,
)
    requires
        call_ensures(Terminals::new, (), fresh),
        call_ensures(Terminals::push_output, (terminals, &id, chunk), ()),
        !old(terminals)@.dom().contains(id@),
    ensures
        !fresh@.dom().contains(at),
        final(terminals)@ == old(terminals)@,
{
}

/// The error for a command that could not be started has the command and the
/// problem in it.
pub proof fn law_failed_start_is_explained(command: &str, problem: &str, error: ClientError)
    requires
        call_ensures(spawn_failed, (command, problem), error),
    ensures
        error matches ClientError::InternalError { data } && data is Some && data->0@
            == "failed to spawn `"@ + command@ + "`: "@ + problem@,
{
    if let ClientError::InternalError { data } = error {
        assert(data.deep_view() == Some(data->0@));
    }
}

/// The error for an end that nobody saw says so.
pub proof fn law_lost_end_is_explained(error: ClientError)
    requires
        call_ensures(exit_status_lost, (), error),
    ensures
        error matches ClientError::InternalError { data } && data is Some && data->0@
            == "terminal exited without status"@,
{
    if let ClientError::InternalError { data } = error {
        assert(data.deep_view() == Some(data->0@));
    }
}

} // verus!
