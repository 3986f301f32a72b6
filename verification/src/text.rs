//! Text, seen as a sequence of characters.
//!
//! The specification half says what each operation means on `Seq<char>`; the
//! executable half carries it out on strings.

use vstd::prelude::*;
use vstd::string::*;

verus! {

/// `String::push` appends one character.
pub assume_specification[ String::push ](s: &mut String, c: char)
    ensures
        final(s)@ == old(s)@.push(c),
;

/// `==` on `str` holds exactly when both hold the same characters.
pub assume_specification[ <str as PartialEq>::eq ](a: &str, b: &str) -> (res: bool)
    ensures
        res == (a@ == b@),
;

/// Whether a character has the Unicode property `White_Space`.
pub open spec fn white_space(c: char) -> bool {
    ||| '\t' <= c <= '\r'
    ||| c == ' '
    ||| c == '\u{85}'
    ||| c == '\u{a0}'
    ||| c == '\u{1680}'
    ||| '\u{2000}' <= c <= '\u{200a}'
    ||| c == '\u{2028}'
    ||| c == '\u{2029}'
    ||| c == '\u{202f}'
    ||| c == '\u{205f}'
    ||| c == '\u{3000}'
}

/// `char::is_whitespace` decides the Unicode property `White_Space`.
pub assume_specification[ char::is_whitespace ](c: char) -> (res: bool)
    ensures
        res == white_space(c),
;

/// Whether all characters of a text are ASCII characters.
pub open spec fn all_ascii(s: Seq<char>) -> bool {
    forall|i: int| 0 <= i < s.len() ==> (#[trigger] s[i]) as u32 <= 0x7f
}

/// The uppercase form of a text under the full Unicode mapping.
pub uninterp spec fn unicode_upper(text: Seq<char>) -> Seq<char>;

/// `str::to_uppercase` maps a text to its Unicode uppercase form, which on
/// ASCII text changes the letters `a` to `z` alone.
#[verifier::external_body]
pub(crate) fn to_uppercase(text: &str) -> (res: String)
    ensures
        res@ == unicode_upper(text@),
        all_ascii(text@) ==> res@ == ascii_upper(text@),
{
    text.to_uppercase()
}

/// The lowercase form of a text under the full Unicode mapping.
pub uninterp spec fn unicode_lower(text: Seq<char>) -> Seq<char>;

/// `str::to_lowercase` maps a text to its Unicode lowercase form, which on
/// ASCII text changes the letters `A` to `Z` alone.
#[verifier::external_body]
pub(crate) fn to_lowercase(text: &str) -> (res: String)
    ensures
        res@ == unicode_lower(text@),
        all_ascii(text@) ==> res@ == ascii_lower(text@),
{
    text.to_lowercase()
}

/// One ASCII letter in uppercase; every other character as it is.
pub open spec fn upper_char(c: char) -> char {
    if 'a' <= c <= 'z' {
        ((c as u32) - 32) as char
    } else {
        c
    }
}

/// A text with its ASCII letters in uppercase.
pub open spec fn ascii_upper(s: Seq<char>) -> Seq<char> {
    s.map_values(|c: char| upper_char(c))
}

/// One ASCII letter in lowercase; every other character as it is.
pub open spec fn lower_char(c: char) -> char {
    if 'A' <= c <= 'Z' {
        ((c as u32) + 32) as char
    } else {
        c
    }
}

/// A text with its ASCII letters in lowercase.
pub open spec fn ascii_lower(s: Seq<char>) -> Seq<char> {
    s.map_values(|c: char| lower_char(c))
}

/// A text with every `from` replaced by `to`.
pub open spec fn replaced(s: Seq<char>, from: char, to: char) -> Seq<char> {
    s.map_values(
        |c: char|
            if c == from {
                to
            } else {
                c
            },
    )
}

/// A name in camel case, from one whose words stand apart by underscores: those
/// are gone, and each word but the first begins with a capital.
pub open spec fn camel_case(s: Seq<char>) -> Seq<char>
    decreases s.len(),
{
    if s.len() == 0 {
        Seq::empty()
    } else {
        let before = camel_case(s.drop_last());
        if s.last() == '_' {
            before
        } else if before.len() > 0 && s[s.len() - 2] == '_' {
            before.push(upper_char(s.last()))
        } else {
            before.push(s.last())
        }
    }
}

/// A text without any occurrence of `c`.
pub open spec fn without(s: Seq<char>, c: char) -> Seq<char> {
    s.filter(|x: char| x != c)
}

/// A text from its first character that is not white space on.
pub open spec fn trim_start(s: Seq<char>) -> Seq<char>
    decreases s.len(),
{
    if s.len() > 0 && white_space(s[0]) {
        trim_start(s.drop_first())
    } else {
        s
    }
}

/// A text up to its last character that is not white space.
pub open spec fn trim_end(s: Seq<char>) -> Seq<char>
    decreases s.len(),
{
    if s.len() > 0 && white_space(s.last()) {
        trim_end(s.drop_last())
    } else {
        s
    }
}

/// A text without the white space around it.
pub open spec fn trimmed(s: Seq<char>) -> Seq<char> {
    trim_end(trim_start(s))
}

/// Whether a text begins with `prefix`.
pub open spec fn begins_with(s: Seq<char>, prefix: Seq<char>) -> bool {
    prefix.len() <= s.len() && s.take(prefix.len() as int) == prefix
}

/// The part of a text before the first occurrence of `sep`, or the whole text
/// where `sep` does not occur.
pub open spec fn before(s: Seq<char>, sep: Seq<char>) -> Seq<char>
    decreases s.len(),
{
    if s.len() == 0 || begins_with(s, sep) {
        Seq::empty()
    } else {
        seq![s[0]] + before(s.drop_first(), sep)
    }
}

/// The index of the first line feed of a text, or its length where it has none.
pub open spec fn line_end(s: Seq<char>) -> nat
    decreases s.len(),
{
    if s.len() == 0 || s[0] == '\n' {
        0
    } else {
        1 + line_end(s.drop_first())
    }
}

/// A line without the carriage return it ends in, if it ends in one.
pub open spec fn without_return(line: Seq<char>) -> Seq<char> {
    if line.len() > 0 && line.last() == '\r' {
        line.drop_last()
    } else {
        line
    }
}

/// The lines of a text. A line ends in a line feed, or in a carriage return and
/// a line feed, which do not belong to it; the last line may end without.
pub open spec fn lines(s: Seq<char>) -> Seq<Seq<char>>
    decreases s.len(),
{
    let end = line_end(s);
    if s.len() == 0 {
        Seq::empty()
    } else if end >= s.len() {
        seq![s]
    } else {
        seq![without_return(s.take(end as int))] + lines(s.skip(end as int + 1))
    }
}

/// Parts put together with `sep` between each two of them.
pub open spec fn joined(parts: Seq<Seq<char>>, sep: Seq<char>) -> Seq<char>
    decreases parts.len(),
{
    if parts.len() == 0 {
        Seq::empty()
    } else if parts.len() == 1 {
        parts[0]
    } else {
        joined(parts.drop_last(), sep) + sep + parts.last()
    }
}

/// The character of a decimal digit.
pub open spec fn digit_char(d: nat) -> char {
    ('0' as u32 + d) as char
}

/// A number in decimal notation, without leading zeros.
pub open spec fn decimal(n: nat) -> Seq<char>
    decreases n,
{
    if n < 10 {
        seq![digit_char(n)]
    } else {
        decimal(n / 10).push(digit_char(n % 10))
    }
}

/// The character of a hexadecimal digit.
pub open spec fn hex_char(d: nat) -> char {
    if d < 10 {
        ('0' as u32 + d) as char
    } else {
        ('a' as u32 + d - 10) as char
    }
}

/// A number in hexadecimal notation, without leading zeros.
pub open spec fn hexadecimal(n: nat) -> Seq<char>
    decreases n,
{
    if n < 16 {
        seq![hex_char(n)]
    } else {
        hexadecimal(n / 16).push(hex_char(n % 16))
    }
}

/// An integer in decimal notation, with a sign where it is negative.
pub open spec fn signed_decimal(n: int) -> Seq<char> {
    if n < 0 {
        seq!['-'] + decimal((-n) as nat)
    } else {
        decimal(n as nat)
    }
}

/// Whether a character is an ASCII digit.
pub open spec fn is_digit(c: char) -> bool {
    '0' <= c <= '9'
}

/// Whether a character is an ASCII letter or digit.
pub open spec fn is_alphanumeric(c: char) -> bool {
    is_digit(c) || 'a' <= c <= 'z' || 'A' <= c <= 'Z'
}

/// The characters of a text.
pub fn chars_of(text: &str) -> (res: Vec<char>)
    ensures
        res@ == text@,
{
    let mut out: Vec<char> = Vec::new();
    for c in it: text.chars()
        invariant
            it.seq() == text@,
            out@ == it.seq().take(it.index() as int),
    {
        out.push(c);
        assert(it.seq().take(it.index() + 1) == it.seq().take(it.index() as int).push(c));
    }
    out
}

/// The text made of a part of some characters.
pub fn text_of(chars: &Vec<char>, from: usize, to: usize) -> (res: String)
    requires
        from <= to <= chars@.len(),
    ensures
        res@ == chars@.subrange(from as int, to as int),
{
    let mut out = String::new();
    let mut i: usize = from;
    while i < to
        invariant
            from <= i <= to <= chars@.len(),
            out@ == chars@.subrange(from as int, i as int),
        decreases to - i,
    {
        out.push(chars[i]);
        i += 1;
        assert(chars@.subrange(from as int, i as int) == chars@.subrange(
            from as int,
            i - 1,
        ).push(chars@[i - 1]));
    }
    out
}

/// One text after the other.
pub fn concat(a: &str, b: &str) -> (res: String)
    ensures
        res@ == a@ + b@,
{
    let mut out = a.to_owned();
    out.append(b);
    out
}

/// Three texts one after the other.
pub fn concat3(a: &str, b: &str, c: &str) -> (res: String)
    ensures
        res@ == a@ + b@ + c@,
{
    let mut out = a.to_owned();
    out.append(b);
    out.append(c);
    out
}

pub fn to_ascii_uppercase(text: &str) -> (res: String)
    ensures
        res@ == ascii_upper(text@),
{
    let chars = chars_of(text);
    let mut out = String::new();
    let mut i: usize = 0;
    while i < chars.len()
        invariant
            i <= chars@.len(),
            chars@ == text@,
            out@ == ascii_upper(text@).take(i as int),
        decreases chars.len() - i,
    {
        let c = chars[i];
        let u = if 'a' <= c && c <= 'z' {
            ((c as u8) - 32u8) as char
        } else {
            c
        };
        out.push(u);
        i += 1;
        assert(ascii_upper(text@).take(i as int) == ascii_upper(text@).take(i - 1).push(
            upper_char(text@[i - 1]),
        ));
    }
    assert(ascii_upper(text@).take(i as int) == ascii_upper(text@));
    out
}

pub fn replace_char(text: &str, from: char, to: char) -> (res: String)
    ensures
        res@ == replaced(text@, from, to),
{
    let chars = chars_of(text);
    let mut out = String::new();
    let mut i: usize = 0;
    while i < chars.len()
        invariant
            i <= chars@.len(),
            chars@ == text@,
            out@ == replaced(text@, from, to).take(i as int),
        decreases chars.len() - i,
    {
        let c = chars[i];
        out.push(if c == from { to } else { c });
        i += 1;
        assert(replaced(text@, from, to).take(i as int) == replaced(text@, from, to).take(
            i - 1,
        ).push(replaced(text@, from, to)[i - 1]));
    }
    assert(replaced(text@, from, to).take(i as int) == replaced(text@, from, to));
    out
}

/// A name in camel case.
pub fn to_camel_case(text: &str) -> (res: String)
    ensures
        res@ == camel_case(text@),
{
    let chars = chars_of(text);
    let mut out = String::new();
    let mut started = false;
    let mut i: usize = 0;
    assert(text@.take(0) == Seq::<char>::empty());
    while i < chars.len()
        invariant
            i <= chars@.len(),
            chars@ == text@,
            out@ == camel_case(text@.take(i as int)),
            started == (out@.len() > 0),
            started ==> i > 0,
        decreases chars.len() - i,
    {
        let c = chars[i];
        assert(text@.take(i + 1).drop_last() == text@.take(i as int));
        if c != '_' {
            let capital = started && chars[i - 1] == '_' && 'a' <= c && c <= 'z';
            let shown = if capital {
                ((c as u8) - 32u8) as char
            } else {
                c
            };
            out.push(shown);
            started = true;
        }
        i += 1;
    }
    assert(text@.take(i as int) == text@);
    out
}

pub fn remove_char(text: &str, gone: char) -> (res: String)
    ensures
        res@ == without(text@, gone),
{
    let chars = chars_of(text);
    let mut out = String::new();
    let mut i: usize = 0;
    assert(text@.take(0) == Seq::<char>::empty());
    reveal(Seq::filter);
    while i < chars.len()
        invariant
            i <= chars@.len(),
            chars@ == text@,
            out@ == without(text@.take(i as int), gone),
        decreases chars.len() - i,
    {
        reveal(Seq::filter);
        let c = chars[i];
        assert(text@.take(i + 1).drop_last() == text@.take(i as int));
        if c != gone {
            out.push(c);
        }
        i += 1;
    }
    assert(text@.take(i as int) == text@);
    out
}

pub fn trim_start_of(text: &str) -> (res: String)
    ensures
        res@ == trim_start(text@),
{
    let chars = chars_of(text);
    let mut i: usize = 0;
    assert(text@.skip(0) == text@);
    while i < chars.len() && chars[i].is_whitespace()
        invariant
            i <= chars@.len(),
            chars@ == text@,
            trim_start(text@) == trim_start(text@.skip(i as int)),
        decreases chars.len() - i,
    {
        assert(text@.skip(i as int).drop_first() == text@.skip(i + 1));
        i += 1;
    }
    let res = text_of(&chars, i, chars.len());
    assert(res@ == text@.skip(i as int));
    res
}

pub fn trim_end_of(text: &str) -> (res: String)
    ensures
        res@ == trim_end(text@),
{
    let chars = chars_of(text);
    let mut i: usize = chars.len();
    assert(text@.take(i as int) == text@);
    while i > 0 && chars[i - 1].is_whitespace()
        invariant
            i <= chars@.len(),
            chars@ == text@,
            trim_end(text@) == trim_end(text@.take(i as int)),
        decreases i,
    {
        assert(text@.take(i as int).drop_last() == text@.take(i - 1));
        i -= 1;
    }
    let res = text_of(&chars, 0, i);
    assert(res@ == text@.take(i as int));
    res
}

pub fn trim(text: &str) -> (res: String)
    ensures
        res@ == trimmed(text@),
{
    let start = trim_start_of(text);
    trim_end_of(start.as_str())
}

fn begins_at(chars: &Vec<char>, at: usize, prefix: &Vec<char>) -> (res: bool)
    requires
        at <= chars@.len(),
    ensures
        res == begins_with(chars@.skip(at as int), prefix@),
{
    if prefix.len() > chars.len() - at {
        return false;
    }
    let mut i: usize = 0;
    while i < prefix.len()
        invariant
            i <= prefix@.len(),
            at + prefix.len() <= chars.len(),
            forall|j: int| 0 <= j < i ==> #[trigger] prefix@[j] == chars@[at + j],
        decreases prefix.len() - i,
    {
        if chars[at + i] != prefix[i] {
            proof {
                let s = chars@.skip(at as int);
                assert(s.take(prefix@.len() as int)[i as int] == chars@[at + i]);
            }
            return false;
        }
        i += 1;
    }
    assert(chars@.skip(at as int).take(prefix@.len() as int) =~= prefix@);
    true
}

pub fn starts_with(text: &str, prefix: &str) -> (res: bool)
    ensures
        res == begins_with(text@, prefix@),
{
    let chars = chars_of(text);
    let wanted = chars_of(prefix);
    assert(text@.skip(0) == text@);
    begins_at(&chars, 0, &wanted)
}

/// What stands in a text before the first `sep`.
pub fn split_before(text: &str, sep: &str) -> (res: String)
    ensures
        res@ == before(text@, sep@),
{
    let chars = chars_of(text);
    let wanted = chars_of(sep);
    let mut i: usize = 0;
    assert(text@.skip(0) == text@);
    assert(text@.take(0) + before(text@, sep@) == before(text@, sep@));
    while i < chars.len() && !begins_at(&chars, i, &wanted)
        invariant
            i <= chars@.len(),
            chars@ == text@,
            wanted@ == sep@,
            before(text@, sep@) == text@.take(i as int) + before(text@.skip(i as int), sep@),
        decreases chars.len() - i,
    {
        assert(text@.skip(i as int).drop_first() == text@.skip(i + 1));
        assert(text@.take(i as int) + (seq![text@[i as int]] + before(text@.skip(i + 1), sep@))
            == text@.take(i + 1) + before(text@.skip(i + 1), sep@));
        i += 1;
    }
    let res = text_of(&chars, 0, i);
    assert(res@ == text@.take(i as int));
    assert(before(text@.skip(i as int), sep@) == Seq::<char>::empty());
    res
}

/// The lines of a text.
pub fn lines_of(text: &str) -> (res: Vec<String>)
    ensures
        res.deep_view() == lines(text@),
{
    let chars = chars_of(text);
    let mut out: Vec<String> = Vec::new();
    let mut start: usize = 0;
    assert(text@.skip(0) == text@);
    assert(out.deep_view() + lines(text@) == lines(text@));
    while start < chars.len()
        invariant
            start <= chars@.len(),
            chars@ == text@,
            lines(text@) == out.deep_view() + lines(text@.skip(start as int)),
        decreases chars.len() - start,
    {
        let ghost rest = text@.skip(start as int);
        let mut end: usize = start;
        while end < chars.len() && chars[end] != '\n'
            invariant
                start <= end <= chars@.len(),
                chars@ == text@,
                rest == text@.skip(start as int),
                line_end(rest) == (end - start) + line_end(text@.skip(end as int)),
            decreases chars.len() - end,
        {
            assert(text@.skip(end as int).drop_first() == text@.skip(end + 1));
            end += 1;
        }
        assert(line_end(rest) == end - start);
        let ghost before_push = out.deep_view();
        if end == chars.len() {
            let line = text_of(&chars, start, end);
            assert(line@ == rest);
            out.push(line);
            assert(out.deep_view() == before_push.push(rest));
            start = end;
            assert(lines(text@.skip(start as int)) == Seq::<Seq<char>>::empty());
            assert(out.deep_view() + Seq::<Seq<char>>::empty() == before_push + seq![rest]);
        } else {
            let to = if end > start && chars[end - 1] == '\r' {
                end - 1
            } else {
                end
            };
            let line = text_of(&chars, start, to);
            assert(rest.take(end - start) == text@.subrange(start as int, end as int));
            assert(line@ == without_return(rest.take(end - start)));
            out.push(line);
            assert(out.deep_view() == before_push.push(line@));
            assert(rest.skip(end - start + 1) == text@.skip(end + 1));
            assert(before_push + (seq![line@] + lines(text@.skip(end + 1)))
                == before_push.push(line@) + lines(text@.skip(end + 1)));
            start = end + 1;
        }
    }
    assert(lines(text@.skip(start as int)) == Seq::<Seq<char>>::empty());
    assert(out.deep_view() + Seq::<Seq<char>>::empty() == out.deep_view());
    out
}

/// The first `count` of some texts, put together with `sep` between them.
pub fn join(parts: &Vec<String>, count: usize, sep: &str) -> (res: String)
    requires
        count <= parts@.len(),
    ensures
        res@ == joined(parts.deep_view().take(count as int), sep@),
{
    let mut out = String::new();
    let ghost all = parts.deep_view();
    let mut i: usize = 0;
    while i < count
        invariant
            i <= count <= parts@.len(),
            all == parts.deep_view(),
            out@ == joined(all.take(i as int), sep@),
        decreases count - i,
    {
        if i > 0 {
            out.append(sep);
        }
        out.append(parts[i].as_str());
        assert(all.take(i + 1).drop_last() == all.take(i as int));
        assert(all.take(i + 1).last() == parts@[i as int]@);
        i += 1;
    }
    out
}

/// A number in decimal notation.
pub fn decimal_of(n: u64) -> (res: String)
    ensures
        res@ == decimal(n as nat),
    decreases n,
{
    let mut out = if n < 10 {
        String::new()
    } else {
        decimal_of(n / 10)
    };
    let digit = ('0' as u8 + (n % 10) as u8) as char;
    out.push(digit);
    assert(n < 10 ==> out@ == seq![digit_char(n as nat)]);
    out
}

/// A number in hexadecimal notation.
pub fn hexadecimal_of(n: u32) -> (res: String)
    ensures
        res@ == hexadecimal(n as nat),
    decreases n,
{
    let mut out = if n < 16 {
        String::new()
    } else {
        hexadecimal_of(n / 16)
    };
    let d = (n % 16) as u8;
    let digit = if d < 10 {
        ('0' as u8 + d) as char
    } else {
        ('a' as u8 + (d - 10)) as char
    };
    out.push(digit);
    assert(digit == hex_char(n as nat % 16));
    assert(n < 16 ==> out@ == seq![hex_char(n as nat)]);
    out
}

/// An integer in decimal notation.
pub fn signed_decimal_of(n: i32) -> (res: String)
    ensures
        res@ == signed_decimal(n as int),
{
    if n < 0 {
        let magnitude = (-(n as i64)) as u64;
        let digits = decimal_of(magnitude);
        proof {
            reveal_strlit("-");
            assert("-"@ == seq!['-']);
        }
        concat("-", digits.as_str())
    } else {
        decimal_of(n as u64)
    }
}

/// Whether a text stands before another one in the order of their characters.
pub open spec fn precedes(a: Seq<char>, b: Seq<char>) -> bool
    decreases a.len(),
{
    if b.len() == 0 {
        false
    } else if a.len() == 0 {
        true
    } else if a[0] == b[0] {
        precedes(a.drop_first(), b.drop_first())
    } else {
        a[0] < b[0]
    }
}

/// Whether a text stands before another one in the order of their characters.
pub fn is_before(a: &str, b: &str) -> (res: bool)
    ensures
        res == precedes(a@, b@),
{
    let left = chars_of(a);
    let right = chars_of(b);
    let mut i: usize = 0;
    assert(a@.skip(0) == a@);
    assert(b@.skip(0) == b@);
    while i < left.len() && i < right.len() && left[i] == right[i]
        invariant
            i <= left@.len(),
            i <= right@.len(),
            left@ == a@,
            right@ == b@,
            precedes(a@, b@) == precedes(a@.skip(i as int), b@.skip(i as int)),
        decreases left.len() - i,
    {
        assert(a@.skip(i as int).drop_first() == a@.skip(i + 1));
        assert(b@.skip(i as int).drop_first() == b@.skip(i + 1));
        i += 1;
    }
    if i >= right.len() {
        false
    } else if i >= left.len() {
        true
    } else {
        left[i] < right[i]
    }
}

/// Different numbers are written differently in hexadecimal notation, with
/// digits alone.
pub proof fn law_hexadecimal_tells_numbers_apart(a: nat, b: nat)
    ensures
        forall|i: int| 0 <= i < hexadecimal(a).len() ==> is_alphanumeric(#[trigger] hexadecimal(a)[i]),
        hexadecimal(a) == hexadecimal(b) ==> a == b,
    decreases a,
{
    if a >= 16 {
        law_hexadecimal_tells_numbers_apart(a / 16, b / 16);
    }
    let left = hexadecimal(a);
    let right = hexadecimal(b);
    if a >= 16 {
        assert(left.drop_last() =~= hexadecimal(a / 16));
    }
    if b >= 16 {
        assert(right.drop_last() =~= hexadecimal(b / 16));
    }
    assert forall|i: int| 0 <= i < left.len() implies is_alphanumeric(#[trigger] left[i]) by {
        if i < left.len() - 1 {
            assert(left[i] == hexadecimal(a / 16)[i]);
        }
    }
    if left == right {
        assert(left.last() == hex_char(a % 16));
        assert(right.last() == hex_char(b % 16));
        assert(a % 16 == b % 16);
        if a >= 16 && b < 16 {
            assert(hexadecimal(a / 16).len() > 0);
        }
        if a < 16 && b >= 16 {
            assert(hexadecimal(b / 16).len() > 0);
        }
    }
}

/// Of two different texts, exactly one stands before the other.
pub proof fn law_texts_are_ordered(a: Seq<char>, b: Seq<char>)
    ensures
        precedes(a, b) || precedes(b, a) || a == b,
        !(precedes(a, b) && precedes(b, a)),
        a == b ==> !precedes(a, b),
    decreases a.len(),
{
    if a.len() > 0 {
        if b.len() > 0 && a[0] == b[0] {
            law_texts_are_ordered(a.drop_first(), b.drop_first());
            if a.drop_first() == b.drop_first() {
                assert(a =~= seq![a[0]] + a.drop_first());
                assert(b =~= seq![b[0]] + b.drop_first());
            }
        }
    } else if b.len() == 0 {
        assert(a =~= b);
    }
}

/// A text that stands before a second one, which stands before a third one,
/// stands before the third one.
pub proof fn law_text_order_is_transitive(a: Seq<char>, b: Seq<char>, c: Seq<char>)
    requires
        precedes(a, b),
        precedes(b, c),
    ensures
        precedes(a, c),
    decreases a.len(),
{
    if a.len() > 0 && a[0] == b[0] && b[0] == c[0] {
        law_text_order_is_transitive(a.drop_first(), b.drop_first(), c.drop_first());
    }
}

} // verus!
