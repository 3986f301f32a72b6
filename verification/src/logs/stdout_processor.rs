//! Entries from the plain output of an agent that runs in a terminal.

use vstd::prelude::*;

use crate::text;

use super::{NormalizedEntry, NormalizedEntryType, NormalizedEntryTypeView, NormalizedEntryView};

verus! {

/// A text without the escape sequences of a terminal.
pub uninterp spec fn without_escapes(text: Seq<char>) -> Seq<char>;

/// Whether a character is a control character.
pub open spec fn is_control(c: char) -> bool {
    c as u32 <= 0x1f || 0x80 <= c as u32 <= 0x9f
}

/// A text without its control characters but for line feeds.
pub open spec fn printed(text: Seq<char>) -> Seq<char> {
    text.filter(|c: char| c == '\n' || !is_control(c))
}

/// `strip_ansi_escapes::strip_str` takes the escape sequences out of a text. In
/// a text without the escape character it takes out the control characters but
/// for line feeds, and nothing else.
#[verifier::external_body]
fn strip_escapes(text: &str) -> (res: String)
    ensures
        res@ == without_escapes(text@),
        !text@.contains('\u{1b}') ==> res@ == printed(text@),
{
    strip_ansi_escapes::strip_str(text)
}

/// The entry for a piece of output. The terminal ends its lines in a carriage
/// return and a line feed, of which the first is dropped. Where nothing is
/// escaped, only the other control characters go with it.
pub fn stdout_entry(content: &str) -> (res: NormalizedEntry)
    ensures
        res@ == NormalizedEntryView::plain(
            NormalizedEntryTypeView::AssistantMessage,
            without_escapes(text::without(content@, '\r')),
        ),
        !text::without(content@, '\r').contains('\u{1b}') ==> res@.content == printed(
            text::without(content@, '\r'),
        ),
{
    let without_returns = text::remove_char(content, '\r');
    NormalizedEntry::plain(
        NormalizedEntryType::AssistantMessage,
        strip_escapes(without_returns.as_str()),
    )
}

} // verus!
