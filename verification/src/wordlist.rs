//! The text form of a word list: one five-letter word per line.

use vstd::prelude::*;
use crate::letters::{is_ascii_letter, is_word, lower_word, to_lower};

verus! {

/// Why a text is no word list.
#[derive(Debug, Clone, Copy, PartialEq, Eq)]
pub enum CorpusLoadError {
    /// The text holds no line.
    Empty,
    /// The line with this index, counted from zero, is not five ASCII letters.
    BadLine(usize),
}

/// A line without the carriage return that stood before its line feed.
pub open spec fn without_cr(line: Seq<char>) -> Seq<char> {
    if line.len() > 0 && line.last() == '\r' {
        line.drop_last()
    } else {
        line
    }
}

/// The characters that follow the last line feed of `text`.
pub open spec fn open_line(text: Seq<char>) -> Seq<char>
    decreases text.len(),
{
    if text.len() == 0 || text.last() == '\n' {
        Seq::empty()
    } else {
        open_line(text.drop_last()).push(text.last())
    }
}

/// The lines of `text` that end in a line feed, without their line ending
/// (a line feed, or a carriage return and a line feed).
pub open spec fn closed_lines(text: Seq<char>) -> Seq<Seq<char>>
    decreases text.len(),
{
    if text.len() == 0 {
        Seq::empty()
    } else if text.last() == '\n' {
        closed_lines(text.drop_last()).push(without_cr(open_line(text.drop_last())))
    } else {
        closed_lines(text.drop_last())
    }
}

/// The lines of `text`. The last line needs no line feed; what follows the
/// last line feed is a line only if it holds a character.
pub open spec fn lines_of(text: Seq<char>) -> Seq<Seq<char>> {
    if open_line(text).len() > 0 {
        closed_lines(text).push(open_line(text))
    } else {
        closed_lines(text)
    }
}

/// The index of the first line from `from` on that is no word, or the
/// number of lines if there is none.
pub open spec fn first_bad_line(lines: Seq<Seq<char>>, from: int) -> int
    decreases lines.len() - from,
{
    if from < 0 || from >= lines.len() {
        lines.len() as int
    } else if !is_word(lines[from]) {
        from
    } else {
        first_bad_line(lines, from + 1)
    }
}

/// What is wrong with `lines` as a word list, if anything.
pub open spec fn word_list_problem(lines: Seq<Seq<char>>) -> Option<CorpusLoadError> {
    if lines.len() == 0 {
        Some(CorpusLoadError::Empty)
    } else if first_bad_line(lines, 0) < lines.len() {
        Some(CorpusLoadError::BadLine(first_bad_line(lines, 0) as usize))
    } else {
        None
    }
}

/// What each string of `words` holds.
pub open spec fn word_views(words: Seq<String>) -> Seq<Seq<char>> {
    Seq::new(words.len(), |i: int| words[i]@)
}

/// Each line in lower case.
pub open spec fn lower_lines(lines: Seq<Seq<char>>) -> Seq<Seq<char>> {
    Seq::new(lines.len(), |i: int| lower_word(lines[i]))
}

proof fn lemma_all_words_so_far(lines: Seq<Seq<char>>, from: int)
    requires
        0 <= from <= lines.len(),
        forall|j: int| from <= j < lines.len() ==> is_word(#[trigger] lines[j]),
    ensures
        first_bad_line(lines, from) == lines.len(),
    decreases lines.len() - from,
{
    if from < lines.len() {
        lemma_all_words_so_far(lines, from + 1);
    }
}

proof fn lemma_first_bad_found(lines: Seq<Seq<char>>, from: int, bad: int)
    requires
        0 <= from <= bad < lines.len(),
        forall|j: int| from <= j < bad ==> is_word(#[trigger] lines[j]),
        !is_word(lines[bad]),
    ensures
        first_bad_line(lines, from) == bad,
    decreases bad - from,
{
    if from < bad {
        lemma_first_bad_found(lines, from + 1, bad);
    }
}

/// If `line` is a word, its lower-case form.
fn checked_word(line: &Vec<char>) -> (r: Option<String>)
    ensures
        r is Some <==> is_word(line@),
        r matches Some(w) ==> w@ == lower_word(line@),
{
    if line.len() != 5 {
        return None;
    }
    let mut word = String::new();
    for i in 0..5usize
        invariant
            line@.len() == 5,
            forall|j: int| 0 <= j < i ==> crate::letters::is_letter(#[trigger] line@[j]),
            word@ == lower_word(line@.take(i as int)),
    {
        let c = line[i];
        if !is_ascii_letter(c) {
            return None;
        }
        word.push(to_lower(c));
        assert(word@ =~= lower_word(line@.take(i + 1)));
    }
    assert(line@.take(5) =~= line@);
    Some(word)
}

/// Reads a word list: every line must be five ASCII letters, and at least
/// one line must be there. The words come back in lower case, in the order
/// of the lines.
pub fn parse_word_list(text: &str) -> (r: Result<Vec<String>, CorpusLoadError>)
    ensures
        match r {
            Ok(words) => word_list_problem(lines_of(text@)) is None && word_views(words@)
                == lower_lines(lines_of(text@)),
            Err(e) => word_list_problem(lines_of(text@)) == Some(e),
        },
{
    let mut words: Vec<String> = Vec::new();
    let mut line: Vec<char> = Vec::new();
    for c in it: text.chars()
        invariant
            it.seq() == text@,
            line@ == open_line(text@.take(it.index() as int)),
            words@.len() == closed_lines(text@.take(it.index() as int)).len(),
            word_views(words@) == lower_lines(closed_lines(text@.take(it.index() as int))),
            forall|j: int|
                0 <= j < words@.len() ==> is_word(
                    #[trigger] closed_lines(text@.take(it.index() as int))[j],
                ),
    {
        let ghost seen = text@.take(it.index() as int);
        let ghost next = text@.take(it.index() + 1);
        assert(next.drop_last() =~= seen);
        assert(next.last() == c);
        if c == '\n' {
            if line.len() > 0 && line[line.len() - 1] == '\r' {
                line.pop();
            }
            assert(line@ == without_cr(open_line(seen)));
            assert(closed_lines(next) == closed_lines(seen).push(line@));
            assert(open_line(next) == Seq::<char>::empty());
            match checked_word(&line) {
                Some(word) => {
                    assert(word_views(words@.push(word)) =~= lower_lines(closed_lines(next))) by {
                        assert forall|j: int| 0 <= j < words@.len() implies word_views(
                            words@.push(word),
                        )[j] == lower_lines(closed_lines(next))[j] by {
                            assert(word_views(words@)[j] == lower_lines(closed_lines(seen))[j]);
                        }
                    }
                    words.push(word);
                    line.clear();
                },
                None => {
                    proof {
                        lemma_bad_line_stays(text@, it.index() + 1, words@.len() as int);
                    }
                    return Err(CorpusLoadError::BadLine(words.len()));
                },
            }
        } else {
            line.push(c);
            assert(closed_lines(next) == closed_lines(seen));
            assert(open_line(next) == open_line(seen).push(c));
        }
    }
    assert(text@.take(text@.len() as int) =~= text@);
    if line.len() > 0 {
        match checked_word(&line) {
            Some(word) => {
                assert(word_views(words@.push(word)) =~= lower_lines(lines_of(text@))) by {
                    assert forall|j: int| 0 <= j < words@.len() implies word_views(
                        words@.push(word),
                    )[j] == lower_lines(lines_of(text@))[j] by {
                        assert(word_views(words@)[j] == lower_lines(closed_lines(text@))[j]);
                    }
                }
                words.push(word);
            },
            None => {
                proof {
                    lemma_first_bad_found(lines_of(text@), 0, words@.len() as int);
                }
                return Err(CorpusLoadError::BadLine(words.len()));
            },
        }
    }
    if words.len() == 0 {
        return Err(CorpusLoadError::Empty);
    }
    proof {
        lemma_all_words_so_far(lines_of(text@), 0);
    }
    Ok(words)
}

/// The closed lines of a prefix are the first closed lines of the whole.
proof fn lemma_closed_lines_grow(text: Seq<char>, n: int)
    requires
        0 <= n <= text.len(),
    ensures
        closed_lines(text.take(n)).len() <= closed_lines(text).len(),
        forall|j: int|
            0 <= j < closed_lines(text.take(n)).len() ==> closed_lines(text.take(n))[j]
                == #[trigger] closed_lines(text)[j],
    decreases text.len() - n,
{
    if n < text.len() {
        lemma_closed_lines_grow(text, n + 1);
        assert(text.take(n + 1).drop_last() =~= text.take(n));
    } else {
        assert(text.take(n) =~= text);
    }
}

/// A line that is no word, closed within the first `n` characters, is the
/// first bad line of the whole text if the lines before it are words.
proof fn lemma_bad_line_stays(text: Seq<char>, n: int, bad: int)
    requires
        0 <= n <= text.len(),
        0 <= bad < closed_lines(text.take(n)).len(),
        !is_word(closed_lines(text.take(n))[bad]),
        forall|j: int| 0 <= j < bad ==> is_word(#[trigger] closed_lines(text.take(n))[j]),
    ensures
        lines_of(text).len() > 0,
        first_bad_line(lines_of(text), 0) == bad,
        bad < lines_of(text).len(),
{
    lemma_closed_lines_grow(text, n);
    let all = lines_of(text);
    assert forall|j: int| 0 <= j < bad implies is_word(#[trigger] all[j]) by {
        assert(is_word(closed_lines(text.take(n))[j]));
        assert(closed_lines(text.take(n))[j] == closed_lines(text)[j]);
    }
    assert(all[bad] == closed_lines(text)[bad]);
    lemma_first_bad_found(all, 0, bad);
}

} // verus!
