//! The choices of the menu and how a typed line selects one.
//!
//! A line selects a choice by its digit: `1`, `2` or `3`, with any amount of
//! white space before and after it. Every other line, the empty one included,
//! selects nothing.

use vstd::prelude::*;

verus! {

/// What the user asked for at the menu.
#[derive(Clone, Copy, Debug, PartialEq, Eq, Structural)]
pub enum UserOptions {
    /// Add a note to the diary.
    Insert,
    /// Show the diary.
    Read,
    /// Leave.
    Exit,
    /// A line that is none of the three choices.
    Other,
}

/// The characters that count as white space: those with the Unicode
/// property `White_Space`, line ends among them.
pub open spec fn is_whitespace(c: char) -> bool {
    ||| '\u{9}' <= c <= '\u{d}'
    ||| c == ' '
    ||| c == '\u{85}'
    ||| c == '\u{a0}'
    ||| c == '\u{1680}'
    ||| '\u{2000}' <= c <= '\u{200a}'
    ||| c == '\u{2028}'
    ||| c == '\u{2029}'
    ||| c == '\u{202f}'
    ||| c == '\u{205f}'
    ||| c == '\u{3000}'
}

/// Every character of `s` is white space.
pub open spec fn all_whitespace(s: Seq<char>) -> bool {
    forall|i: int| 0 <= i < s.len() ==> is_whitespace(#[trigger] s[i])
}

/// `s` without the white space it starts with.
pub open spec fn trim_start(s: Seq<char>) -> Seq<char>
    decreases s.len(),
{
    if s.len() > 0 && is_whitespace(s.first()) {
        trim_start(s.drop_first())
    } else {
        s
    }
}

/// `s` without the white space it ends with.
pub open spec fn trim_end(s: Seq<char>) -> Seq<char>
    decreases s.len(),
{
    if s.len() > 0 && is_whitespace(s.last()) {
        trim_end(s.drop_last())
    } else {
        s
    }
}

/// `s` without the white space around it.
pub open spec fn trimmed(s: Seq<char>) -> Seq<char> {
    trim_end(trim_start(s))
}

/// The choice that the line `option` selects.
pub open spec fn chosen(option: Seq<char>) -> UserOptions {
    let word = trimmed(option);
    if word == seq!['1'] {
        UserOptions::Insert
    } else if word == seq!['2'] {
        UserOptions::Read
    } else if word == seq!['3'] {
        UserOptions::Exit
    } else {
        UserOptions::Other
    }
}

/// `s` is the one character `mark` with nothing but white space around it.
pub open spec fn is_padded(s: Seq<char>, mark: char) -> bool {
    exists|before: Seq<char>, after: Seq<char>|
        all_whitespace(before) && all_whitespace(after) && s == #[trigger] (before + seq![mark]
            + after)
}

/// Trimming cuts a line down to the stretch between its first and its last
/// character that is not white space. The result names the two ends of that
/// stretch.
pub proof fn lemma_trimmed_is_core(s: Seq<char>) -> (core: (int, int))
    ensures
        0 <= core.0 <= core.1 <= s.len(),
        trimmed(s) == s.subrange(core.0, core.1),
        all_whitespace(s.take(core.0)),
        all_whitespace(s.skip(core.1)),
        core.0 < core.1 ==> !is_whitespace(s[core.0]) && !is_whitespace(s[core.1 - 1]),
{
    let from = lemma_trim_start_is_suffix(s);
    let rest = s.skip(from);
    let upto = lemma_trim_end_is_prefix(rest);
    assert(rest.take(upto) == s.subrange(from, from + upto));
    assert(s.skip(from + upto) == rest.skip(upto));
    (from, from + upto)
}

proof fn lemma_trim_start_is_suffix(s: Seq<char>) -> (from: int)
    ensures
        0 <= from <= s.len(),
        trim_start(s) == s.skip(from),
        all_whitespace(s.take(from)),
        from < s.len() ==> !is_whitespace(s[from]),
    decreases s.len(),
{
    if s.len() > 0 && is_whitespace(s.first()) {
        let inner = lemma_trim_start_is_suffix(s.drop_first());
        assert(s.drop_first().skip(inner) == s.skip(inner + 1));
        assert forall|i: int| 0 <= i < inner + 1 implies is_whitespace(
            #[trigger] s.take(inner + 1)[i],
        ) by {
            if i > 0 {
                assert(s.take(inner + 1)[i] == s.drop_first().take(inner)[i - 1]);
            }
        }
        inner + 1
    } else {
        assert(s.skip(0) == s);
        0
    }
}

proof fn lemma_trim_end_is_prefix(s: Seq<char>) -> (upto: int)
    ensures
        0 <= upto <= s.len(),
        trim_end(s) == s.take(upto),
        all_whitespace(s.skip(upto)),
        0 < upto ==> !is_whitespace(s[upto - 1]),
    decreases s.len(),
{
    if s.len() > 0 && is_whitespace(s.last()) {
        let inner = lemma_trim_end_is_prefix(s.drop_last());
        assert(s.drop_last().take(inner) == s.take(inner));
        assert forall|i: int| 0 <= i < s.len() - inner implies is_whitespace(
            #[trigger] s.skip(inner)[i],
        ) by {
            if i < s.len() - inner - 1 {
                assert(s.skip(inner)[i] == s.drop_last().skip(inner)[i]);
            }
        }
        inner
    } else {
        assert(s.take(s.len() as int) == s);
        s.len() as int
    }
}

/// A line whose only character that is not white space stands at `at` is
/// trimmed to that character.
pub proof fn lemma_single_mark(s: Seq<char>, at: int)
    requires
        0 <= at < s.len(),
        !is_whitespace(s[at]),
        forall|i: int| 0 <= i < s.len() && i != at ==> is_whitespace(#[trigger] s[i]),
    ensures
        trimmed(s) == seq![s[at]],
{
    let core = lemma_trimmed_is_core(s);
    if core.0 > at {
        assert(s.take(core.0)[at] == s[at]);
    }
    if core.1 <= at {
        assert(s.skip(core.1)[at - core.1] == s[at]);
    }
    assert(s.subrange(core.0, core.1) == seq![s[at]]);
}

/// A line of white space alone, the empty line among them, is trimmed to
/// nothing.
pub proof fn lemma_blank(s: Seq<char>)
    requires
        all_whitespace(s),
    ensures
        trimmed(s) == Seq::<char>::empty(),
{
    let core = lemma_trimmed_is_core(s);
    assert(s.subrange(core.0, core.1) == Seq::<char>::empty());
}

/// A line with two characters that are not white space keeps both of them,
/// and what stands between them, when it is trimmed.
pub proof fn lemma_two_marks(s: Seq<char>, first: int, second: int)
    requires
        0 <= first < second < s.len(),
        !is_whitespace(s[first]),
        !is_whitespace(s[second]),
    ensures
        trimmed(s).len() >= 2,
{
    let core = lemma_trimmed_is_core(s);
    if core.0 > first {
        assert(s.take(core.0)[first] == s[first]);
    }
    if core.1 <= second {
        assert(s.skip(core.1)[second - core.1] == s[second]);
    }
}

/// Trimming leaves one character exactly when the line is that character,
/// itself no white space, with white space around it.
pub proof fn lemma_trimmed_to_mark(s: Seq<char>, mark: char)
    ensures
        trimmed(s) == seq![mark] <==> !is_whitespace(mark) && is_padded(s, mark),
{
    if trimmed(s) == seq![mark] {
        let core = lemma_trimmed_is_core(s);
        assert(s.subrange(core.0, core.1).len() == 1);
        assert(s.subrange(core.0, core.1)[0] == mark);
        let before = s.take(core.0);
        let after = s.skip(core.1);
        assert(s == before + seq![mark] + after);
    }
    if !is_whitespace(mark) && is_padded(s, mark) {
        let (before, after) = choose|before: Seq<char>, after: Seq<char>|
            all_whitespace(before) && all_whitespace(after) && s == #[trigger] (before + seq![mark]
                + after);
        let at = before.len() as int;
        assert(s[at] == mark);
        assert forall|i: int| 0 <= i < s.len() && i != at implies is_whitespace(#[trigger] s[i]) by {
            if i < at {
                assert(s[i] == before[i]);
            } else {
                assert(s[i] == after[i - at - 1]);
            }
        }
        lemma_single_mark(s, at);
    }
}

/// Every line selects exactly one choice, and which one is decided by the
/// digit alone: `1`, `2` and `3`, with any white space around them, select
/// inserting, reading and leaving; every other line selects nothing.
pub proof fn lemma_chosen_by_digit(option: Seq<char>)
    ensures
        chosen(option) == UserOptions::Insert <==> is_padded(option, '1'),
        chosen(option) == UserOptions::Read <==> is_padded(option, '2'),
        chosen(option) == UserOptions::Exit <==> is_padded(option, '3'),
        chosen(option) == UserOptions::Other <==> !is_padded(option, '1') && !is_padded(
            option,
            '2',
        ) && !is_padded(option, '3'),
{
    lemma_trimmed_to_mark(option, '1');
    lemma_trimmed_to_mark(option, '2');
    lemma_trimmed_to_mark(option, '3');
    assert(seq!['1'][0] != seq!['2'][0]);
    assert(seq!['1'][0] != seq!['3'][0]);
    assert(seq!['2'][0] != seq!['3'][0]);
}

/// Tells whether `c` is white space.
pub fn whitespace(c: char) -> (r: bool)
    ensures
        r == is_whitespace(c),
{
    ('\u{9}' <= c && c <= '\u{d}') || c == ' ' || c == '\u{85}' || c == '\u{a0}' || c == '\u{1680}'
        || ('\u{2000}' <= c && c <= '\u{200a}') || c == '\u{2028}' || c == '\u{2029}' || c
        == '\u{202f}' || c == '\u{205f}' || c == '\u{3000}'
}

} // verus!
