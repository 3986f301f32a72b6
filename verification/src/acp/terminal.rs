//! Terminals that run commands for an agent.

use vstd::prelude::*;
use vstd::string::*;
use vstd::utf8::*;

use crate::collections::AssocMap;
use crate::text;

use super::client::ClientError;

verus! {

/// The number of bytes of output that are kept where the agent sets no limit.
pub const DEFAULT_TERMINAL_OUTPUT_BYTE_LIMIT: u64 = 1_048_576;

/// The output of a command. Once there is more than its limit, it is cut at the
/// beginning.
#[derive(Debug)]
pub struct TerminalBuffer {
    pub output: Vec<u8>,
    pub truncated: bool,
}

/// The bytes from the first one on that does not continue a character.
pub open spec fn from_boundary(bytes: Seq<u8>) -> Seq<u8>
    decreases bytes.len(),
{
    if bytes.len() > 0 && is_continuation_byte(bytes[0]) {
        from_boundary(bytes.drop_first())
    } else {
        bytes
    }
}

/// What is kept of an output: all of it within the limit, or else the last
/// bytes that the limit has room for, from the first character that begins
/// among them.
pub open spec fn kept(bytes: Seq<u8>, limit: int) -> Seq<u8> {
    if bytes.len() <= limit {
        bytes
    } else {
        from_boundary(bytes.skip(bytes.len() - limit))
    }
}

impl Default for TerminalBuffer {
    fn default() -> (res: Self)
        ensures
            res.output@ == Seq::<u8>::empty(),
            !res.truncated,
    {
        TerminalBuffer { output: Vec::new(), truncated: false }
    }
}

impl TerminalBuffer {
    /// Takes in a piece of output.
    pub fn push(&mut self, chunk: &[u8], byte_limit: u64)
        ensures
            final(self).output@ == kept(
                old(self).output@ + chunk@,
                (byte_limit as usize) as int,
            ),
            final(self).truncated == (old(self).truncated || old(self).output@.len() + chunk@.len()
                > byte_limit as usize),
    {
        let ghost all = self.output@ + chunk@;
        self.output.extend_from_slice(chunk);
        assert(self.output@ =~= all);
        let limit = byte_limit as usize;
        if self.output.len() > limit {
            let mut start: usize = self.output.len() - limit;
            let ghost tail = all.skip(start as int);
            while start < self.output.len() && (self.output[start] & 0b1100_0000) == 0b1000_0000
                invariant
                    start <= self.output@.len(),
                    self.output@ == all,
                    from_boundary(tail) == from_boundary(all.skip(start as int)),
                decreases self.output.len() - start,
            {
                let byte = self.output[start];
                assert((byte & 0b1100_0000) == 0b1000_0000 ==> 0x80 <= byte <= 0xbf) by (bit_vector);
                assert(all.skip(start as int).drop_first() =~= all.skip(start + 1));
                start += 1;
            }
            if start < self.output.len() {
                let byte = self.output[start];
                assert(0x80 <= byte <= 0xbf ==> (byte & 0b1100_0000) == 0b1000_0000) by (bit_vector);
            }
            assert(from_boundary(tail) == all.skip(start as int));
            let kept_output = self.output.split_off(start);
            assert(kept_output@ =~= all.skip(start as int));
            self.output = kept_output;
            self.truncated = true;
        }
    }
}

proof fn lemma_from_boundary(bytes: Seq<u8>)
    ensures
        from_boundary(bytes).len() <= bytes.len(),
        from_boundary(bytes) == bytes.skip(bytes.len() - from_boundary(bytes).len()),
        from_boundary(bytes).len() > 0 ==> !is_continuation_byte(from_boundary(bytes)[0]),
    decreases bytes.len(),
{
    if bytes.len() > 0 && is_continuation_byte(bytes[0]) {
        let rest = bytes.drop_first();
        lemma_from_boundary(rest);
        assert(rest.skip(rest.len() - from_boundary(rest).len()) =~= bytes.skip(
            bytes.len() - from_boundary(rest).len(),
        ));
    } else {
        assert(bytes.skip(0) =~= bytes);
    }
}

/// What is kept is within the limit, and is the end of the output.
pub proof fn law_kept_output_is_a_bounded_suffix(bytes: Seq<u8>, limit: nat)
    ensures
        kept(bytes, limit as int).len() <= limit,
        kept(bytes, limit as int) == bytes.skip(bytes.len() - kept(bytes, limit as int).len()),
{
    if bytes.len() <= limit {
        assert(bytes.skip(0) =~= bytes);
    } else {
        let tail = bytes.skip(bytes.len() - limit);
        lemma_from_boundary(tail);
        assert(tail.skip(tail.len() - from_boundary(tail).len()) =~= bytes.skip(
            bytes.len() - from_boundary(tail).len(),
        ));
    }
}

/// An output that was cut begins with the first byte of a character.
pub proof fn law_cut_output_begins_at_a_character(bytes: Seq<u8>, limit: nat)
    requires
        bytes.len() > limit,
    ensures
        kept(bytes, limit as int).len() > 0 ==> !is_continuation_byte(
            kept(bytes, limit as int)[0],
        ),
{
    lemma_from_boundary(bytes.skip(bytes.len() - limit));
}

proof fn lemma_rest_of_text(bytes: Seq<u8>, at: int)
    requires
        valid_utf8(bytes),
        0 <= at <= bytes.len(),
    ensures
        valid_utf8(from_boundary(bytes.skip(at))),
    decreases bytes.len(), bytes.len() - at,
{
    if bytes.len() == 0 {
        assert(bytes.skip(at) =~= bytes);
    } else {
        let width = length_of_first_scalar(bytes);
        let rest = pop_first_scalar(bytes);
        assert(1 <= width <= bytes.len());
        if at == 0 {
            assert(bytes.skip(at) =~= bytes);
            assert(!is_continuation_byte(bytes[0]));
        } else if at >= width {
            assert(bytes.skip(at) =~= rest.skip(at - width));
            lemma_rest_of_text(rest, at - width);
        } else {
            assert(is_continuation_byte(bytes[at]));
            assert(bytes.skip(at).drop_first() =~= bytes.skip(at + 1));
            lemma_rest_of_text(bytes, at + 1);
        }
    }
}

/// No character is split: what is kept of a text is a text.
pub proof fn law_kept_text_is_text(bytes: Seq<u8>, limit: nat)
    requires
        valid_utf8(bytes),
    ensures
        valid_utf8(kept(bytes, limit as int)),
{
    if bytes.len() > limit {
        lemma_rest_of_text(bytes, bytes.len() - limit);
    }
}

/// Pieces of output one after the other.
pub open spec fn whole_output(pieces: Seq<Seq<u8>>) -> Seq<u8>
    decreases pieces.len(),
{
    if pieces.len() == 0 {
        Seq::empty()
    } else {
        whole_output(pieces.drop_last()) + pieces.last()
    }
}

/// What a buffer holds after some pieces of output, and whether it was cut.
pub open spec fn buffered(pieces: Seq<Seq<u8>>, limit: int) -> (Seq<u8>, bool)
    decreases pieces.len(),
{
    if pieces.len() == 0 {
        (Seq::empty(), false)
    } else {
        let (output, truncated) = buffered(pieces.drop_last(), limit);
        (
            kept(output + pieces.last(), limit),
            truncated || output.len() + pieces.last().len() > limit,
        )
    }
}

/// Whether no four bytes in a row continue a character.
spec fn has_short_characters(bytes: Seq<u8>) -> bool {
    forall|at: int|
        0 <= at && at + 4 <= bytes.len() ==> !(is_continuation_byte(#[trigger] bytes[at])
            && is_continuation_byte(bytes[at + 1]) && is_continuation_byte(bytes[at + 2])
            && is_continuation_byte(bytes[at + 3]))
}

proof fn lemma_characters_are_short(bytes: Seq<u8>, at: int)
    requires
        valid_utf8(bytes),
        0 <= at,
        at + 4 <= bytes.len(),
    ensures
        !(is_continuation_byte(bytes[at]) && is_continuation_byte(bytes[at + 1])
            && is_continuation_byte(bytes[at + 2]) && is_continuation_byte(bytes[at + 3])),
    decreases bytes.len(),
{
    let width = length_of_first_scalar(bytes);
    let rest = pop_first_scalar(bytes);
    assert(1 <= width <= 4);
    assert(!is_continuation_byte(bytes[0]));
    if at >= width {
        lemma_characters_are_short(rest, at - width);
        assert(rest[at - width] == bytes[at]);
        assert(rest[at - width + 1] == bytes[at + 1]);
        assert(rest[at - width + 2] == bytes[at + 2]);
        assert(rest[at - width + 3] == bytes[at + 3]);
    } else if at > 0 {
        assert(valid_utf8(rest));
        assert(rest.len() > 0);
        assert(1 <= length_of_first_scalar(rest));
        assert(!is_continuation_byte(rest[0]));
        assert(rest[0] == bytes[width]);
    }
}

proof fn lemma_boundary_is_passed(bytes: Seq<u8>, from: int, to: int)
    requires
        0 <= from <= to <= bytes.len(),
        forall|i: int| from <= i < to ==> is_continuation_byte(#[trigger] bytes[i]),
    ensures
        from_boundary(bytes.skip(from)) == from_boundary(bytes.skip(to)),
    decreases to - from,
{
    if from < to {
        assert(bytes.skip(from)[0] == bytes[from]);
        assert(bytes.skip(from).drop_first() =~= bytes.skip(from + 1));
        lemma_boundary_is_passed(bytes, from + 1, to);
    }
}

pub proof fn lemma_only_continuations_are_skipped(bytes: Seq<u8>)
    ensures
        forall|i: int|
            0 <= i < bytes.len() - from_boundary(bytes).len() ==> is_continuation_byte(
                #[trigger] bytes[i],
            ),
    decreases bytes.len(),
{
    if bytes.len() > 0 && is_continuation_byte(bytes[0]) {
        let rest = bytes.drop_first();
        lemma_only_continuations_are_skipped(rest);
        assert forall|i: int|
            0 <= i < bytes.len() - from_boundary(bytes).len() implies is_continuation_byte(
            #[trigger] bytes[i],
        ) by {
            if i > 0 {
                assert(rest[i - 1] == bytes[i]);
            }
        }
    }
}

proof fn lemma_cut_is_made_once(a: Seq<u8>, b: Seq<u8>, limit: int)
    requires
        has_short_characters(a),
        4 <= limit,
    ensures
        kept(kept(a, limit) + b, limit) == kept(a + b, limit),
        (a.len() > limit || kept(a, limit).len() + b.len() > limit) == (a.len() + b.len() > limit),
{
    let whole = a + b;
    if a.len() > limit {
        let start = a.len() - limit;
        let tail = a.skip(start);
        let output = kept(a, limit);
        lemma_from_boundary(tail);
        lemma_only_continuations_are_skipped(tail);
        let at = a.len() - output.len();
        assert(output =~= a.skip(at));
        assert(output + b =~= whole.skip(at));
        assert forall|i: int| start <= i < at implies is_continuation_byte(
            #[trigger] whole[i],
        ) by {
            assert(tail[i - start] == whole[i]);
        }
        assert(output.len() > 0) by {
            if output.len() == 0 {
                assert(is_continuation_byte(whole[start]));
                assert(is_continuation_byte(whole[start + 1]));
                assert(is_continuation_byte(whole[start + 2]));
                assert(is_continuation_byte(whole[start + 3]));
                assert(a[start] == whole[start]);
            }
        }
        let cut = whole.len() - limit;
        if output.len() + b.len() > limit {
            assert(whole.skip(at).skip(cut - at) =~= whole.skip(cut));
        } else {
            lemma_boundary_is_passed(whole, cut, at);
            assert(whole.skip(at)[0] == output[0]);
        }
    }
}

proof fn lemma_pieces_do_not_show(pieces: Seq<Seq<u8>>, limit: int)
    requires
        has_short_characters(whole_output(pieces)),
        4 <= limit,
    ensures
        buffered(pieces, limit) == (
            kept(whole_output(pieces), limit),
            whole_output(pieces).len() > limit,
        ),
    decreases pieces.len(),
{
    if pieces.len() > 0 {
        let before = whole_output(pieces.drop_last());
        assert(has_short_characters(before)) by {
            assert forall|at: int| 0 <= at && at + 4 <= before.len() implies !(
            is_continuation_byte(#[trigger] before[at]) && is_continuation_byte(before[at + 1])
                && is_continuation_byte(before[at + 2]) && is_continuation_byte(
                before[at + 3],
            )) by {
                let whole = whole_output(pieces);
                assert(whole[at] == before[at]);
            }
        }
        lemma_pieces_do_not_show(pieces.drop_last(), limit);
        lemma_cut_is_made_once(before, pieces.last(), limit);
    }
}

/// How the output of a command is cut into pieces does not show, wherever a cut
/// falls: a buffer with room for a character holds the same as if all of the
/// text had come at once.
pub proof fn law_pieces_of_output_do_not_show(pieces: Seq<Seq<u8>>, limit: int)
    requires
        valid_utf8(whole_output(pieces)),
        4 <= limit,
    ensures
        buffered(pieces, limit) == buffered(seq![whole_output(pieces)], limit),
        buffered(pieces, limit) == (
            kept(whole_output(pieces), limit),
            whole_output(pieces).len() > limit,
        ),
{
    let whole = whole_output(pieces);
    assert forall|at: int| 0 <= at && at + 4 <= whole.len() implies !(is_continuation_byte(
        #[trigger] whole[at],
    ) && is_continuation_byte(whole[at + 1]) && is_continuation_byte(whole[at + 2])
        && is_continuation_byte(whole[at + 3])) by {
        lemma_characters_are_short(whole, at);
    }
    lemma_pieces_do_not_show(pieces, limit);
    let once = seq![whole];
    reveal_with_fuel(whole_output, 2);
    assert(whole_output(once) =~= whole);
    lemma_pieces_do_not_show(once, limit);
}

/// Text that comes in two pieces leaves the same buffer as text that comes in
/// one, even where a character is split between them.
pub proof fn law_two_pieces_are_like_one(a: Seq<u8>, b: Seq<u8>, limit: int)
    requires
        valid_utf8(a + b),
        4 <= limit,
    ensures
        kept(kept(a, limit) + b, limit) == kept(a + b, limit),
        (a.len() > limit || kept(a, limit).len() + b.len() > limit) == ((a + b).len() > limit),
{
    let whole = a + b;
    assert forall|at: int| 0 <= at && at + 4 <= a.len() implies !(is_continuation_byte(
        #[trigger] a[at],
    ) && is_continuation_byte(a[at + 1]) && is_continuation_byte(a[at + 2])
        && is_continuation_byte(a[at + 3])) by {
        lemma_characters_are_short(whole, at);
    }
    lemma_cut_is_made_once(a, b, limit);
}

/// How a command ended: its exit code, or the number of the signal that ended
/// it.
#[derive(Debug)]
pub struct TerminalExitStatus {
    pub exit_code: Option<u32>,
    pub signal: Option<String>,
}

impl Clone for TerminalExitStatus {
    fn clone(&self) -> (res: Self)
        ensures
            res == *self,
    {
        TerminalExitStatus { exit_code: self.exit_code, signal: self.signal.clone() }
    }
}

/// The exit status of a process, from the exit code and the signal that the
/// system reports for it.
pub fn terminal_exit_status(code: Option<i32>, signal: Option<i32>) -> (res: TerminalExitStatus)
    ensures
        res.exit_code == match code {
            Some(code) => Some(code as u32),
            None => None,
        },
        res.signal.deep_view() == match signal {
            Some(signal) => Some(text::signed_decimal(signal as int)),
            None => None,
        },
{
    TerminalExitStatus {
        exit_code: match code {
            Some(code) => Some(code as u32),
            None => None,
        },
        signal: match signal {
            Some(signal) => Some(text::signed_decimal_of(signal)),
            None => None,
        },
    }
}

/// A terminal that runs a command for the agent.
#[derive(Debug)]
pub struct Terminal {
    pub buffer: TerminalBuffer,
    pub byte_limit: u64,
    pub exit_status: Option<TerminalExitStatus>,
}

#[verifier::ext_equal]
pub struct TerminalView {
    pub output: Seq<u8>,
    pub truncated: bool,
    pub byte_limit: u64,
    pub exit_status: Option<TerminalExitStatus>,
}

impl View for Terminal {
    type V = TerminalView;

    open spec fn view(&self) -> TerminalView {
        TerminalView {
            output: self.buffer.output@,
            truncated: self.buffer.truncated,
            byte_limit: self.byte_limit,
            exit_status: self.exit_status,
        }
    }
}

impl TerminalView {
    /// A terminal whose command has just started.
    pub open spec fn started(output_byte_limit: Option<u64>) -> TerminalView {
        TerminalView {
            output: Seq::empty(),
            truncated: false,
            byte_limit: match output_byte_limit {
                Some(limit) => limit,
                None => DEFAULT_TERMINAL_OUTPUT_BYTE_LIMIT,
            },
            exit_status: None,
        }
    }

    /// A terminal whose command has put out some more.
    pub open spec fn with_output(self, chunk: Seq<u8>) -> TerminalView {
        let limit = self.byte_limit as usize;
        TerminalView {
            output: kept(self.output + chunk, limit as int),
            truncated: self.truncated || self.output.len() + chunk.len() > limit,
            ..self
        }
    }
}

/// The text that some bytes are, with a mark in place of what is no text.
pub uninterp spec fn lossy_text(bytes: Seq<u8>) -> Seq<char>;

/// `String::from_utf8_lossy` reads bytes as UTF-8. Where all of them are, the
/// text is the one that they encode; else each part that is not is replaced by
/// the character U+FFFD.
#[verifier::external_body]
fn read_lossy(bytes: &Vec<u8>) -> (res: String)
    ensures
        res@ == lossy_text(bytes@),
        valid_utf8(bytes@) ==> res@ == decode_utf8(bytes@),
{
    String::from_utf8_lossy(bytes).into_owned()
}

/// What is known of a command at some time.
#[derive(Debug)]
pub struct TerminalOutput {
    pub output: String,
    pub truncated: bool,
    pub exit_status: Option<TerminalExitStatus>,
}

/// How far the wait for a command has come.
#[derive(Debug)]
pub enum ExitWait {
    Exited(TerminalExitStatus),
    StillRunning,
}

/// The terminals of an agent, each under its id.
#[derive(Debug)]
pub struct Terminals {
    terminals: AssocMap<String, Terminal>,
}

impl View for Terminals {
    type V = Map<Seq<char>, TerminalView>;

    closed spec fn view(&self) -> Map<Seq<char>, TerminalView> {
        self.terminals@
    }
}

/// The error for an id that no terminal has.
pub open spec fn is_unknown_terminal(error: ClientError) -> bool {
    error matches ClientError::InvalidParams { data } && data@ == "unknown terminal id"@
}

fn unknown_terminal() -> (res: ClientError)
    ensures
        is_unknown_terminal(res),
{
    ClientError::InvalidParams { data: "unknown terminal id".to_owned() }
}

/// The error for a command that could not be started.
pub fn spawn_failed(command: &str, problem: &str) -> (res: ClientError)
    ensures
        res matches ClientError::InternalError { data } && data.deep_view() == Some(
            "failed to spawn `"@ + command@ + "`: "@ + problem@,
        ),
{
    let start = text::concat3("failed to spawn `", command, "`: ");
    ClientError::InternalError { data: Some(text::concat(start.as_str(), problem)) }
}

/// The error for a terminal that is gone before its command was seen to end.
pub fn exit_status_lost() -> (res: ClientError)
    ensures
        res matches ClientError::InternalError { data } && data.deep_view() == Some(
            "terminal exited without status"@,
        ),
{
    ClientError::InternalError { data: Some("terminal exited without status".to_owned()) }
}

impl Terminals {
    pub fn new() -> (res: Self)
        ensures
            res@ == Map::<Seq<char>, TerminalView>::empty(),
    {
        Terminals { terminals: AssocMap::new() }
    }

    /// Registers a terminal whose command has started, under a fresh id.
    pub fn create_terminal(&mut self, output_byte_limit: Option<u64>) -> (res: String)
        ensures
            exists|uuid: Seq<char>|
                super::is_random_uuid(uuid) && res@ == #[trigger] ("term-"@ + uuid),
            final(self)@ == old(self)@.insert(res@, TerminalView::started(output_byte_limit)),
    {
        let uuid = super::random_uuid();
        let id = text::concat("term-", uuid.as_str());
        let byte_limit = match output_byte_limit {
            Some(limit) => limit,
            None => DEFAULT_TERMINAL_OUTPUT_BYTE_LIMIT,
        };
        self.terminals.insert(
            id.clone(),
            Terminal { buffer: TerminalBuffer::default(), byte_limit, exit_status: None },
        );
        assert(super::is_random_uuid(uuid@) && id@ == "term-"@ + uuid@);
        id
    }

    /// Takes in a piece of output of a terminal. What comes after a terminal was
    /// released is dropped.
    pub fn push_output(&mut self, id: &String, chunk: &[u8])
        ensures
            final(self)@ == if old(self)@.dom().contains(id@) {
                old(self)@.insert(id@, old(self)@[id@].with_output(chunk@))
            } else {
                old(self)@
            },
    {
        let ghost before = self@;
        if let Some(mut terminal) = self.terminals.remove(id) {
            terminal.buffer.push(chunk, terminal.byte_limit);
            assert(terminal@ =~= before[id@].with_output(chunk@));
            assert(before.remove(id@).insert(id@, terminal@) =~= before.insert(id@, terminal@));
            self.terminals.insert(id.clone(), terminal);
        } else {
            assert(before.remove(id@) =~= before);
        }
    }

    /// Records how the command of a terminal ended.
    pub fn record_exit(&mut self, id: &String, status: TerminalExitStatus)
        ensures
            final(self)@ == if old(self)@.dom().contains(id@) {
                old(self)@.insert(
                    id@,
                    TerminalView { exit_status: Some(status), ..old(self)@[id@] },
                )
            } else {
                old(self)@
            },
    {
        let ghost before = self@;
        if let Some(mut terminal) = self.terminals.remove(id) {
            terminal.exit_status = Some(status);
            assert(before.remove(id@).insert(id@, terminal@) =~= before.insert(id@, terminal@));
            self.terminals.insert(id.clone(), terminal);
        } else {
            assert(before.remove(id@) =~= before);
        }
    }

    /// The output of a terminal so far, and how its command ended if it did.
    pub fn terminal_output(&self, id: &String) -> (res: Result<TerminalOutput, ClientError>)
        ensures
            match res {
                Ok(shown) => {
                    &&& self@.dom().contains(id@)
                    &&& shown.output@ == lossy_text(self@[id@].output)
                    &&& valid_utf8(self@[id@].output) ==> shown.output@ == decode_utf8(
                        self@[id@].output,
                    )
                    &&& shown.truncated == self@[id@].truncated
                    &&& shown.exit_status == self@[id@].exit_status
                },
                Err(error) => !self@.dom().contains(id@) && is_unknown_terminal(error),
            },
    {
        match self.terminals.get(id) {
            Some(terminal) => Ok(
                TerminalOutput {
                    output: read_lossy(&terminal.buffer.output),
                    truncated: terminal.buffer.truncated,
                    exit_status: terminal.exit_status.clone(),
                },
            ),
            None => Err(unknown_terminal()),
        }
    }

    /// Forgets a terminal. Gives whether there was one, whose command is then to
    /// be killed.
    pub fn release_terminal(&mut self, id: &String) -> (res: bool)
        ensures
            res == old(self)@.dom().contains(id@),
            final(self)@ == old(self)@.remove(id@),
    {
        self.terminals.remove(id).is_some()
    }

    /// Whether the command of a terminal has ended, and how.
    pub fn wait_for_terminal_exit(&self, id: &String) -> (res: Result<ExitWait, ClientError>)
        ensures
            match res {
                Ok(ExitWait::Exited(status)) => self@.dom().contains(id@)
                    && self@[id@].exit_status == Some(status),
                Ok(ExitWait::StillRunning) => self@.dom().contains(id@)
                    && self@[id@].exit_status is None,
                Err(error) => !self@.dom().contains(id@) && is_unknown_terminal(error),
            },
    {
        match self.terminals.get(id) {
            Some(terminal) => match &terminal.exit_status {
                Some(status) => Ok(ExitWait::Exited(status.clone())),
                None => Ok(ExitWait::StillRunning),
            },
            None => Err(unknown_terminal()),
        }
    }

    /// Whether the command of a terminal may be killed: any that is known may.
    pub fn kill_terminal_command(&self, id: &String) -> (res: Result<(), ClientError>)
        ensures
            match res {
                Ok(_) => self@.dom().contains(id@),
                Err(error) => !self@.dom().contains(id@) && is_unknown_terminal(error),
            },
    {
        if self.terminals.contains_key(id) {
            Ok(())
        } else {
            Err(unknown_terminal())
        }
    }
}

/// Releasing a terminal twice is the same as releasing it once, and after it the
/// terminal is unknown.
pub proof fn law_release_is_idempotent(terminals: Map<Seq<char>, TerminalView>, id: Seq<char>)
    ensures
        terminals.remove(id).remove(id) == terminals.remove(id),
        !terminals.remove(id).dom().contains(id),
{
    assert(terminals.remove(id).remove(id) =~= terminals.remove(id));
}

} // verus!
