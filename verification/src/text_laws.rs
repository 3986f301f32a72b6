//! What the operations on texts do, character by character.

use vstd::prelude::*;

use crate::text;

verus! {

/// Each ASCII letter is put in uppercase, and nothing else is changed.
pub proof fn law_uppercase_changes_small_letters(given: &str, res: String, at: int)
    requires
        call_ensures(text::to_ascii_uppercase, (given,), res),
        0 <= at < given@.len(),
    ensures
        res@.len() == given@.len(),
        'a' <= given@[at] <= 'z' ==> res@[at] as u32 + 32 == given@[at] as u32,
        !('a' <= given@[at] <= 'z') ==> res@[at] == given@[at],
{
}

/// A character is replaced wherever it stands, and nothing else is changed.
pub proof fn law_every_occurrence_is_replaced(
    given: &str,
    from: char,
    to: char,
    res: String,
    at: int,
)
    requires
        call_ensures(text::replace_char, (given, from, to), res),
        0 <= at < given@.len(),
    ensures
        res@.len() == given@.len(),
        given@[at] == from ==> res@[at] == to,
        given@[at] != from ==> res@[at] == given@[at],
{
}

pub proof fn lemma_without_of_parts(a: Seq<char>, b: Seq<char>, gone: char)
    ensures
        text::without(a + b, gone) == text::without(a, gone) + text::without(b, gone),
{
    Seq::filter_distributes_over_add(a, b, |x: char| x != gone);
}

/// A character is removed wherever it stands, and nothing else is.
pub proof fn law_every_occurrence_is_removed(
    a: &str,
    b: &str,
    whole: &str,
    gone: char,
    short_a: String,
    short_b: String,
    short_whole: String,
)
    requires
        call_ensures(text::remove_char, (a, gone), short_a),
        call_ensures(text::remove_char, (b, gone), short_b),
        call_ensures(text::remove_char, (whole, gone), short_whole),
        whole@ == a@ + b@,
    ensures
        short_whole@ == short_a@ + short_b@,
        a@.len() == 0 ==> short_a@ == a@,
        a@.len() == 1 && a@[0] != gone ==> short_a@ == a@,
        a@.len() == 1 && a@[0] == gone ==> short_a@.len() == 0,
{
    lemma_without_of_parts(a@, b@, gone);
    reveal(Seq::filter);
    if a@.len() == 1 {
        assert(a@.drop_last() =~= Seq::<char>::empty());
        assert(text::without(Seq::empty(), gone) =~= Seq::<char>::empty());
        assert(text::without(a@, gone) == if a@[0] != gone {
            text::without(a@.drop_last(), gone).push(a@[0])
        } else {
            text::without(a@.drop_last(), gone)
        });
        assert(Seq::<char>::empty().push(a@[0]) =~= a@);
    }
}

proof fn lemma_trim_start(s: Seq<char>) -> (from: int)
    ensures
        0 <= from <= s.len(),
        text::trim_start(s) == s.skip(from),
        forall|i: int| 0 <= i < from ==> text::white_space(#[trigger] s[i]),
        from < s.len() ==> !text::white_space(s[from]),
    decreases s.len(),
{
    if s.len() > 0 && text::white_space(s[0]) {
        let rest = s.drop_first();
        let at = lemma_trim_start(rest);
        assert(rest.skip(at) =~= s.skip(at + 1));
        assert forall|i: int| 0 <= i < at + 1 implies text::white_space(#[trigger] s[i]) by {
            if i > 0 {
                assert(rest[i - 1] == s[i]);
            }
        }
        if at < rest.len() {
            assert(rest[at] == s[at + 1]);
        }
        at + 1
    } else {
        assert(s.skip(0) =~= s);
        0
    }
}

proof fn lemma_trim_end(s: Seq<char>) -> (to: int)
    ensures
        0 <= to <= s.len(),
        text::trim_end(s) == s.take(to),
        forall|i: int| to <= i < s.len() ==> text::white_space(#[trigger] s[i]),
        to > 0 ==> !text::white_space(s[to - 1]),
    decreases s.len(),
{
    if s.len() > 0 && text::white_space(s.last()) {
        let rest = s.drop_last();
        let at = lemma_trim_end(rest);
        assert(rest.take(at) =~= s.take(at));
        assert forall|i: int| at <= i < s.len() implies text::white_space(#[trigger] s[i]) by {
            if i < s.len() - 1 {
                assert(rest[i] == s[i]);
            }
        }
        if at > 0 {
            assert(rest[at - 1] == s[at - 1]);
        }
        at
    } else {
        assert(s.take(s.len() as int) =~= s);
        s.len() as int
    }
}

/// Trimming takes away white space at both ends, all of it and nothing else.
pub proof fn law_trimming_takes_white_space_away(given: &str, res: String)
    requires
        call_ensures(text::trim, (given,), res),
    ensures
        exists|from: int, to: int|
            0 <= from <= to <= given@.len() && #[trigger] given@.subrange(from, to) == res@ && (
            forall|i: int|
                0 <= i < from || to <= i < given@.len() ==> text::white_space(#[trigger] given@[i])),
        res@.len() > 0 ==> !text::white_space(res@[0]) && !text::white_space(res@.last()),
{
    let from = lemma_trim_start(given@);
    let rest = given@.skip(from);
    let count = lemma_trim_end(rest);
    let to = from + count;
    assert(given@.subrange(from, to) =~= rest.take(count));
    assert forall|i: int|
        0 <= i < from || to <= i < given@.len() implies text::white_space(#[trigger] given@[i]) by {
        if i >= to {
            assert(rest[i - from] == given@[i]);
        }
    }
    if res@.len() > 0 {
        assert(res@[0] == given@[from]);
        assert(res@.last() == rest[count - 1]);
    }
}

/// Trimming one end takes away white space there, all of it and nothing else.
pub proof fn law_trimming_one_end_leaves_the_other(
    given: &str,
    without_start: String,
    without_end: String,
)
    requires
        call_ensures(text::trim_start_of, (given,), without_start),
        call_ensures(text::trim_end_of, (given,), without_end),
    ensures
        without_start@.len() <= given@.len(),
        without_start@ == given@.skip(given@.len() - without_start@.len()),
        without_start@.len() > 0 ==> !text::white_space(without_start@[0]),
        forall|i: int|
            0 <= i < given@.len() - without_start@.len() ==> text::white_space(
                #[trigger] given@[i],
            ),
        without_end@.len() <= given@.len(),
        without_end@ == given@.take(without_end@.len() as int),
        without_end@.len() > 0 ==> !text::white_space(without_end@.last()),
        forall|i: int|
            without_end@.len() <= i < given@.len() ==> text::white_space(#[trigger] given@[i]),
{
    let from = lemma_trim_start(given@);
    let to = lemma_trim_end(given@);
}

/// A text starts with another one exactly if it is that one with something after
/// it.
pub proof fn law_text_is_its_start_and_a_rest(given: &str, prefix: &str, res: bool)
    requires
        call_ensures(text::starts_with, (given, prefix), res),
    ensures
        res <==> exists|rest: Seq<char>| given@ == #[trigger] (prefix@ + rest),
{
    if res {
        assert(given@ =~= prefix@ + given@.skip(prefix@.len() as int));
    }
    if exists|rest: Seq<char>| given@ == #[trigger] (prefix@ + rest) {
        let rest = choose|rest: Seq<char>| given@ == #[trigger] (prefix@ + rest);
        assert((prefix@ + rest).take(prefix@.len() as int) =~= prefix@);
    }
}

/// Whether a text stands in another one at some place.
pub open spec fn stands_at(whole: Seq<char>, part: Seq<char>, at: int) -> bool {
    0 <= at && at + part.len() <= whole.len() && whole.subrange(at, at + part.len()) == part
}

pub proof fn lemma_before(s: Seq<char>, sep: Seq<char>)
    requires
        sep.len() > 0,
    ensures
        text::before(s, sep).len() <= s.len(),
        text::before(s, sep) == s.take(text::before(s, sep).len() as int),
        text::before(s, sep).len() < s.len() ==> stands_at(
            s,
            sep,
            text::before(s, sep).len() as int,
        ),
        forall|i: int|
            0 <= i < text::before(s, sep).len() ==> !#[trigger] stands_at(s, sep, i),
    decreases s.len(),
{
    let found = text::before(s, sep);
    if s.len() == 0 || text::begins_with(s, sep) {
        assert(s.take(0) =~= Seq::<char>::empty());
        if s.len() > 0 {
            assert(s.subrange(0, sep.len() as int) =~= s.take(sep.len() as int));
        }
    } else {
        let rest = s.drop_first();
        lemma_before(rest, sep);
        let inner = text::before(rest, sep);
        assert(found =~= s.take(found.len() as int));
        if found.len() < s.len() {
            assert(rest.subrange(inner.len() as int, (inner.len() + sep.len()) as int) =~= s.subrange(
                found.len() as int,
                (found.len() + sep.len()) as int,
            ));
        }
        assert forall|i: int| 0 <= i < found.len() implies !#[trigger] stands_at(s, sep, i) by {
            if stands_at(s, sep, i) {
                if i == 0 {
                    assert(s.take(sep.len() as int) =~= s.subrange(0, sep.len() as int));
                } else {
                    assert(rest.subrange(i - 1, i - 1 + sep.len()) =~= s.subrange(
                        i,
                        i + sep.len(),
                    ));
                    assert(stands_at(rest, sep, i - 1));
                }
            }
        }
    }
}

/// What stands before a separator ends where that stands first, or is the whole
/// text where it stands nowhere.
pub proof fn law_text_is_cut_at_its_first_separator(given: &str, sep: &str, res: String)
    requires
        call_ensures(text::split_before, (given, sep), res),
        sep@.len() > 0,
    ensures
        res@.len() <= given@.len(),
        res@ == given@.take(res@.len() as int),
        res@.len() < given@.len() ==> stands_at(given@, sep@, res@.len() as int),
        forall|i: int| 0 <= i < res@.len() ==> !#[trigger] stands_at(given@, sep@, i),
{
    lemma_before(given@, sep@);
}

proof fn lemma_line_end(line: Seq<char>, rest: Seq<char>)
    requires
        !line.contains('\n'),
    ensures
        text::line_end(line) == line.len(),
        text::line_end(line + seq!['\n'] + rest) == line.len(),
    decreases line.len(),
{
    let whole = line + seq!['\n'] + rest;
    if line.len() > 0 {
        assert(line[0] != '\n') by {
            assert(line.contains(line[0]));
        }
        let shorter = line.drop_first();
        assert(!shorter.contains('\n')) by {
            if shorter.contains('\n') {
                let i = shorter.index_of('\n');
                assert(line[i + 1] == '\n');
            }
        }
        lemma_line_end(shorter, rest);
        assert(whole.drop_first() =~= shorter + seq!['\n'] + rest);
        assert(whole[0] == line[0]);
    } else {
        assert(whole[0] == '\n');
    }
}

/// The first line of a text is what stands before its first line feed, without a
/// carriage return at its end, and the others are those of the rest.
pub proof fn law_first_line_ends_at_the_line_feed(
    whole: &str,
    line: Seq<char>,
    rest: &str,
    lines: Vec<String>,
    further: Vec<String>,
)
    requires
        call_ensures(text::lines_of, (whole,), lines),
        call_ensures(text::lines_of, (rest,), further),
        !line.contains('\n'),
        whole@ == line + seq!['\n'] + rest@,
    ensures
        lines@.len() == further@.len() + 1,
        !(line.len() > 0 && line.last() == '\r') ==> lines@[0]@ == line,
        line.len() > 0 && line.last() == '\r' ==> lines@[0]@ == line.drop_last(),
        forall|i: int| 0 <= i < further@.len() ==> lines@[i + 1]@ == (#[trigger] further@[i])@,
{
    lemma_line_end(line, rest@);
    assert(whole@.take(line.len() as int) =~= line);
    assert(whole@.skip(line.len() as int + 1) =~= rest@);
    assert(text::lines(whole@) == seq![text::without_return(line)] + text::lines(rest@));
    assert(lines.deep_view().len() == lines@.len());
    assert(further.deep_view().len() == further@.len());
    assert(lines.deep_view()[0] == lines@[0]@);
    assert forall|i: int| 0 <= i < further@.len() implies lines@[i + 1]@ == (
    #[trigger] further@[i])@ by {
        assert(lines.deep_view()[i + 1] == lines@[i + 1]@);
        assert(further.deep_view()[i] == further@[i]@);
    }
}

/// A text without a line feed is one line, and an empty text is none.
pub proof fn law_text_without_line_feed_is_one_line(given: &str, lines: Vec<String>)
    requires
        call_ensures(text::lines_of, (given,), lines),
        !given@.contains('\n'),
    ensures
        given@.len() == 0 ==> lines@.len() == 0,
        given@.len() > 0 ==> lines@.len() == 1 && lines@[0]@ == given@,
{
    lemma_line_end(given@, Seq::empty());
    assert(lines.deep_view().len() == lines@.len());
    if given@.len() > 0 {
        assert(text::lines(given@) == seq![given@]);
        assert(lines.deep_view()[0] == lines@[0]@);
    }
}

/// Texts are joined in their order, with the separator between each two.
pub proof fn law_texts_are_joined_in_order(
    parts: Vec<String>,
    count: usize,
    more: usize,
    sep: &str,
    short: String,
    long: String,
)
    requires
        more == count + 1,
        more <= parts@.len(),
        call_ensures(text::join, (&parts, count, sep), short),
        call_ensures(text::join, (&parts, more, sep), long),
    ensures
        count == 0 ==> short@.len() == 0 && long@ == parts@[0]@,
        count > 0 ==> long@ == short@ + sep@ + parts@[count as int]@,
{
    let all = parts.deep_view();
    assert(all.len() == parts@.len());
    assert(all.take(more as int).drop_last() =~= all.take(count as int));
    assert(all.take(more as int).last() == parts@[count as int]@);
}

/// The number that some digits stand for.
pub open spec fn number(digits: Seq<char>, base: nat) -> nat
    decreases digits.len(),
{
    if digits.len() == 0 {
        0
    } else {
        number(digits.drop_last(), base) * base + digit_value(digits.last())
    }
}

/// The number that one digit stands for.
pub open spec fn digit_value(c: char) -> nat {
    if 'a' <= c <= 'f' {
        (c as u32 - 'a' as u32 + 10) as nat
    } else {
        (c as u32 - '0' as u32) as nat
    }
}

pub proof fn lemma_decimal(n: nat)
    ensures
        number(text::decimal(n), 10) == n,
        text::decimal(n).len() > 0,
        n > 0 ==> text::decimal(n)[0] != '0',
        forall|i: int|
            0 <= i < text::decimal(n).len() ==> '0' <= #[trigger] text::decimal(n)[i] <= '9',
    decreases n,
{
    let digits = text::decimal(n);
    reveal_with_fuel(number, 2);
    if n < 10 {
        assert(digits.drop_last() =~= Seq::<char>::empty());
    } else {
        lemma_decimal(n / 10);
        assert(digits.drop_last() =~= text::decimal(n / 10));
        assert(digits[0] == text::decimal(n / 10)[0]);
    }
}

/// A number is written in decimal digits that stand for it, with no zero before
/// them.
pub proof fn law_decimal_digits_stand_for_the_number(n: u64, res: String)
    requires
        call_ensures(text::decimal_of, (n,), res),
    ensures
        number(res@, 10) == n,
        res@.len() > 0,
        res@.len() > 1 ==> res@[0] != '0',
        forall|i: int| 0 <= i < res@.len() ==> '0' <= #[trigger] res@[i] <= '9',
{
    lemma_decimal(n as nat);
}

/// A negative number has a sign before its digits.
pub proof fn law_negative_numbers_have_a_sign(n: i32, res: String)
    requires
        call_ensures(text::signed_decimal_of, (n,), res),
    ensures
        n >= 0 ==> number(res@, 10) == n && res@.len() > 0 && res@[0] != '-',
        n < 0 ==> res@.len() > 1 && res@[0] == '-' && number(res@.skip(1), 10) == -n,
{
    if n < 0 {
        lemma_decimal((-n) as nat);
        assert(res@.skip(1) =~= text::decimal((-n) as nat));
    } else {
        lemma_decimal(n as nat);
    }
}

proof fn lemma_hexadecimal(n: nat)
    ensures
        number(text::hexadecimal(n), 16) == n,
        text::hexadecimal(n).len() > 0,
        n > 0 ==> text::hexadecimal(n)[0] != '0',
    decreases n,
{
    let digits = text::hexadecimal(n);
    reveal_with_fuel(number, 2);
    if n < 16 {
        assert(digits.drop_last() =~= Seq::<char>::empty());
    } else {
        lemma_hexadecimal(n / 16);
        assert(digits.drop_last() =~= text::hexadecimal(n / 16));
        assert(digits[0] == text::hexadecimal(n / 16)[0]);
    }
}

/// A number is written in hexadecimal digits that stand for it, with no zero
/// before them.
pub proof fn law_hexadecimal_digits_stand_for_the_number(n: u32, res: String)
    requires
        call_ensures(text::hexadecimal_of, (n,), res),
    ensures
        number(res@, 16) == n,
        res@.len() > 0,
        res@.len() > 1 ==> res@[0] != '0',
{
    lemma_hexadecimal(n as nat);
}

/// Of two texts, the one with the smaller character where they first differ
/// stands before the other, and the beginning of a text before the text.
pub proof fn law_first_difference_decides(a: &str, b: &str, at: int, res: bool)
    requires
        call_ensures(text::is_before, (a, b), res),
        0 <= at <= a@.len(),
        at <= b@.len(),
        a@.take(at) == b@.take(at),
        at == a@.len() || at == b@.len() || a@[at] != b@[at],
    ensures
        at == b@.len() ==> !res,
        at == a@.len() && at < b@.len() ==> res,
        at < a@.len() && at < b@.len() ==> res == (a@[at] < b@[at]),
{
    lemma_first_difference(a@, b@, at);
}

proof fn lemma_first_difference(a: Seq<char>, b: Seq<char>, at: int)
    requires
        0 <= at <= a.len(),
        at <= b.len(),
        a.take(at) == b.take(at),
        at == a.len() || at == b.len() || a[at] != b[at],
    ensures
        at == b.len() ==> !text::precedes(a, b),
        at == a.len() && at < b.len() ==> text::precedes(a, b),
        at < a.len() && at < b.len() ==> text::precedes(a, b) == (a[at] < b[at]),
    decreases at,
{
    if at > 0 {
        let x = a.drop_first();
        let y = b.drop_first();
        assert forall|i: int| 0 <= i < at implies a[i] == b[i] by {
            assert(a.take(at)[i] == a[i]);
            assert(b.take(at)[i] == b[i]);
        }
        assert(x.take(at - 1) =~= y.take(at - 1));
        lemma_first_difference(x, y, at - 1);
    }
}

proof fn lemma_camel_case_of_word(start: Seq<char>, word: Seq<char>)
    requires
        !word.contains('_'),
        start.len() == 0 || start.last() != '_',
    ensures
        text::camel_case(start + word) == text::camel_case(start) + word,
    decreases word.len(),
{
    if word.len() == 0 {
        assert(start + word =~= start);
        assert(text::camel_case(start) + word =~= text::camel_case(start));
    } else {
        let shorter = word.drop_last();
        assert(!shorter.contains('_')) by {
            if shorter.contains('_') {
                let i = shorter.index_of('_');
                assert(word[i] == '_');
            }
        }
        assert(word.last() != '_') by {
            assert(word.contains(word.last()));
        }
        lemma_camel_case_of_word(start, shorter);
        let whole = start + word;
        assert(whole.drop_last() =~= start + shorter);
        if whole.len() >= 2 {
            if shorter.len() > 0 {
                assert(whole[whole.len() - 2] == shorter.last());
                assert(word.contains(shorter.last())) by {
                    assert(word[shorter.len() - 1] == shorter.last());
                }
            } else {
                assert(whole[whole.len() - 2] == start.last());
            }
        } else {
            assert(text::camel_case(whole.drop_last()).len() == 0) by {
                assert(whole.drop_last().len() == 0);
            }
        }
        assert(text::camel_case(start) + word =~= (text::camel_case(start) + shorter).push(
            word.last(),
        ));
    }
}

/// In camel case, a word after an underscore begins with a capital, and the
/// underscore is gone. The first word stays as it is.
pub proof fn law_camel_case_joins_words(
    start: &str,
    first: char,
    others: Seq<char>,
    whole: &str,
    short: String,
    long: String,
)
    requires
        call_ensures(text::to_camel_case, (start,), short),
        call_ensures(text::to_camel_case, (whole,), long),
        start@.len() > 0,
        start@[0] != '_',
        start@.last() != '_',
        first != '_',
        !others.contains('_'),
        whole@ == start@ + seq!['_', first] + others,
    ensures
        !start@.contains('_') ==> short@ == start@,
        !('a' <= first <= 'z') ==> long@ == short@ + seq![first] + others,
        'a' <= first <= 'z' ==> exists|capital: char|
            capital as u32 + 32 == first as u32 && long@ == short@ + #[trigger] seq![capital]
                + others,
{
    if !start@.contains('_') {
        lemma_camel_case_of_word(Seq::empty(), start@);
        assert(Seq::<char>::empty() + start@ =~= start@);
        assert(text::camel_case(Seq::empty()) + start@ =~= start@);
    }
    let underscored = start@.push('_');
    let begun = underscored.push(first);
    assert(underscored.drop_last() =~= start@);
    assert(text::camel_case(underscored) == text::camel_case(start@));
    assert(begun.drop_last() =~= underscored);
    lemma_camel_case_is_not_empty(start@);
    let capital = text::upper_char(first);
    assert(text::camel_case(begun) == text::camel_case(start@).push(capital));
    assert(start@ + seq!['_', first] =~= begun);
    lemma_camel_case_of_word(begun, others);
    assert(short@.push(capital) + others =~= short@ + seq![capital] + others);
}

proof fn lemma_camel_case_is_not_empty(s: Seq<char>)
    requires
        s.len() > 0,
        s[0] != '_',
    ensures
        text::camel_case(s).len() > 0,
    decreases s.len(),
{
    if s.len() > 1 {
        lemma_camel_case_is_not_empty(s.drop_last());
    }
}

} // verus!
