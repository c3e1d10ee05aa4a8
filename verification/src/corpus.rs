//! The corpus: the words a hidden word is taken from, and the further words
//! that are accepted as guesses.

use vstd::prelude::*;
use vstd::arithmetic::div_mod::lemma_fundamental_div_mod_converse;
use crate::builtin::{BUILTIN_GUESSES, BUILTIN_WORDLIST};
use crate::host::{choose_word, local_date_today, local_timestamp};
use crate::letters::{
    is_lower_word, is_upper_word, is_word, lemma_case_of_word, lower_word, lowercase, upper_word,
    uppercase,
};
use crate::wordlist::{
    first_bad_line, lines_of, lower_lines, parse_word_list, word_list_problem, word_views,
    CorpusLoadError,
};

verus! {

/// The first day of the daily puzzle: 19 June 2021, local midnight.
pub const EPOCH_YEAR: i32 = 2021;

pub const EPOCH_MONTH: u32 = 6;

pub const EPOCH_DAY: u32 = 19;

pub const SECONDS_PER_DAY: i64 = 86400;

/// The number of whole days from `epoch` to `today`, both in seconds,
/// rounded down, reduced to a position among `n` words.
pub open spec fn daily_index_of(today: int, epoch: int, n: int) -> int {
    ((today - epoch) / 86400) % n
}

/// Computes [`daily_index_of`].
pub fn daily_index(today: i64, epoch: i64, n: usize) -> (idx: usize)
    requires
        n > 0,
    ensures
        idx == daily_index_of(today as int, epoch as int, n as int),
        idx < n,
{
    let diff: i128 = today as i128 - epoch as i128;
    let day: i128 = SECONDS_PER_DAY as i128;
    let count: i128 = n as i128;
    if diff >= 0 {
        let days: i128 = diff / day;
        let rest: i128 = days % count;
        rest as usize
    } else {
        // Rounding down: -1 second is day -1.
        let back: i128 = (day - 1 - diff) / day;
        let over: i128 = (day - 1 - diff) % day;
        proof {
            lemma_fundamental_div_mod_converse(diff as int, 86400, -back, 86399 - over);
        }
        let rest: i128 = back % count;
        let turns: i128 = back / count;
        if rest == 0 {
            proof {
                assert(back == count * turns) by (nonlinear_arith)
                    requires
                        count > 0,
                        turns == back / count,
                        0 == back % count,
                ;
                assert(-back == (-turns) * count) by (nonlinear_arith)
                    requires
                        back == count * turns,
                ;
                lemma_fundamental_div_mod_converse(-back, count as int, -turns, 0);
            }
            0
        } else {
            proof {
                assert(back == count * turns + rest) by (nonlinear_arith)
                    requires
                        count > 0,
                        turns == back / count,
                        rest == back % count,
                ;
                assert(-back == (-turns - 1) * count + (count - rest)) by (nonlinear_arith)
                    requires
                        back == count * turns + rest,
                ;
                lemma_fundamental_div_mod_converse(
                    -back,
                    count as int,
                    -turns - 1,
                    count - rest,
                );
            }
            (count - rest) as usize
        }
    }
}

/// Two word lists.
#[derive(Clone, Debug)]
pub struct WordSet {
    wordlist: Vec<String>,
    valid_guesses: Vec<String>,
}

/// Whether `list` holds `needle`.
fn list_holds(list: &Vec<String>, needle: &String) -> (found: bool)
    ensures
        found == word_views(list@).contains(needle@),
{
    let n = list.len();
    for i in 0..n
        invariant
            n == list@.len(),
            forall|j: int| 0 <= j < i ==> word_views(list@)[j] != needle@,
    {
        if list[i] == *needle {
            assert(word_views(list@)[i as int] == needle@);
            return true;
        }
    }
    false
}

impl WordSet {
    /// The words a hidden word is taken from, in order.
    pub closed spec fn solutions(&self) -> Seq<Seq<char>> {
        word_views(self.wordlist@)
    }

    /// The further words that are accepted as guesses.
    pub closed spec fn extras(&self) -> Seq<Seq<char>> {
        word_views(self.valid_guesses@)
    }

    /// Neither list is empty, and every word is five letters `a`..=`z`.
    pub open spec fn wf(&self) -> bool {
        &&& self.solutions().len() > 0
        &&& self.extras().len() > 0
        &&& forall|i: int|
            0 <= i < self.solutions().len() ==> is_lower_word(#[trigger] self.solutions()[i])
        &&& forall|i: int|
            0 <= i < self.extras().len() ==> is_lower_word(#[trigger] self.extras()[i])
    }

    /// `word` is acceptable as a guess: in lower case it is in one of the
    /// two lists.
    pub open spec fn accepts(&self, word: Seq<char>) -> bool {
        self.solutions().contains(lower_word(word)) || self.extras().contains(lower_word(word))
    }

    /// The text that `source` stands for: itself, or the built-in list.
    pub open spec fn text_of(source: Option<&str>, builtin: &str) -> Seq<char> {
        match source {
            Some(text) => text@,
            None => builtin@,
        }
    }

    /// Builds the corpus from the texts of the two lists, each one word per
    /// line; where a text is absent the built-in list stands in. Fails on
    /// the first text, solutions before guesses, that is no word list.
    pub fn load(wordlist: Option<&str>, guesses: Option<&str>) -> (r: Result<
        WordSet,
        CorpusLoadError,
    >)
        ensures
            ({
                let first = Self::text_of(wordlist, BUILTIN_WORDLIST);
                let second = Self::text_of(guesses, BUILTIN_GUESSES);
                match r {
                    Ok(words) => {
                        &&& words.wf()
                        &&& word_list_problem(lines_of(first)) is None
                        &&& word_list_problem(lines_of(second)) is None
                        &&& words.solutions() == lower_lines(lines_of(first))
                        &&& words.extras() == lower_lines(lines_of(second))
                    },
                    Err(e) => if word_list_problem(lines_of(first)) is Some {
                        word_list_problem(lines_of(first)) == Some(e)
                    } else {
                        word_list_problem(lines_of(second)) == Some(e)
                    },
                }
            }),
    {
        let first = match wordlist {
            Some(text) => text,
            None => BUILTIN_WORDLIST,
        };
        let second = match guesses {
            Some(text) => text,
            None => BUILTIN_GUESSES,
        };
        let wordlist = match parse_word_list(first) {
            Ok(words) => words,
            Err(e) => {
                return Err(e);
            },
        };
        let valid_guesses = match parse_word_list(second) {
            Ok(words) => words,
            Err(e) => {
                return Err(e);
            },
        };
        proof {
            lemma_lower_lines_are_words(lines_of(first@));
            lemma_lower_lines_are_words(lines_of(second@));
        }
        Ok(WordSet { wordlist, valid_guesses })
    }

    /// Whether `word` is acceptable as a guess, whatever its case.
    pub fn is_valid(&self, word: &str) -> (valid: bool)
        ensures
            valid == self.accepts(word@),
    {
        let needle = lowercase(word);
        list_holds(&self.wordlist, &needle) || list_holds(&self.valid_guesses, &needle)
    }

    /// The hidden word for the day whose local midnight is `today`, counted
    /// from the local midnight `epoch`, both in seconds: the solution at
    /// [`daily_index_of`], in upper case.
    pub fn word_for_day(&self, today: i64, epoch: i64) -> (word: String)
        requires
            self.wf(),
        ensures
            word@ == upper_word(
                self.solutions()[daily_index_of(
                    today as int,
                    epoch as int,
                    self.solutions().len() as int,
                )],
            ),
            is_upper_word(word@),
            self.accepts(word@),
    {
        let idx = daily_index(today, epoch, self.wordlist.len());
        let word = uppercase(self.wordlist[idx].as_str());
        proof {
            self.lemma_solution_accepted(idx as int);
        }
        word
    }

    /// Today's hidden word: [`WordSet::word_for_day`] for the local midnight of
    /// the host's date, counted from the local midnight of the first day.
    /// `None` where the host's time zone has no single midnight on one of
    /// the two dates.
    pub fn word_of_the_day(&self) -> (word: Option<String>)
        requires
            self.wf(),
        ensures
            word matches Some(w) ==> self.is_solution_in_upper_case(w@),
            word matches Some(w) ==> exists|today: i64, epoch: i64|
                w@ == #[trigger] self.word_on(today as int, epoch as int),
    {
        let (year, month, day) = local_date_today();
        let today = local_timestamp(year, month, day, 0, 0, 0);
        let epoch = local_timestamp(EPOCH_YEAR, EPOCH_MONTH, EPOCH_DAY, 0, 0, 0);
        let word = self.word_for_moments(today, epoch);
        proof {
            if word is Some {
                assert(word->0@ == self.word_on(today->0 as int, epoch->0 as int));
            }
        }
        word
    }

    /// The solution for the day that begins at `today`, counted from the day
    /// that begins at `epoch`, both in seconds, in upper case.
    pub open spec fn word_on(&self, today: int, epoch: int) -> Seq<char> {
        upper_word(self.solutions()[daily_index_of(today, epoch, self.solutions().len() as int)])
    }

    /// The day's word from what the host gave for the two midnights: a word
    /// exactly when both are known, and then the one of
    /// [`WordSet::word_for_day`].
    pub fn word_for_moments(&self, today: Option<i64>, epoch: Option<i64>) -> (word: Option<
        String,
    >)
        requires
            self.wf(),
        ensures
            word is Some <==> today is Some && epoch is Some,
            word matches Some(w) ==> {
                &&& w@ == self.word_on(today->0 as int, epoch->0 as int)
                &&& self.is_solution_in_upper_case(w@)
            },
    {
        match (today, epoch) {
            (Some(t), Some(e)) => {
                let word = self.word_for_day(t, e);
                proof {
                    lemma_index_in_range(t as int, e as int, self.solutions().len() as int);
                }
                Some(word)
            },
            _ => None,
        }
    }

    /// A solution picked by chance, in upper case.
    pub fn random_word(&self) -> (word: String)
        requires
            self.wf(),
        ensures
            self.is_solution_in_upper_case(word@),
    {
        match choose_word(&self.wordlist) {
            Some(chosen) => {
                let word = uppercase(chosen.as_str());
                proof {
                    let i = choose|i: int|
                        0 <= i < self.wordlist@.len() && self.wordlist@[i]@ == chosen@;
                    assert(self.solutions()[i] == chosen@);
                    self.lemma_solution_accepted(i);
                }
                word
            },
            None => vstd::pervasive::unreached(),
        }
    }

    /// `word` is one of the solutions, in upper case; so it is five letters
    /// `A`..=`Z` and acceptable as a guess.
    pub open spec fn is_solution_in_upper_case(&self, word: Seq<char>) -> bool {
        &&& exists|i: int|
            0 <= i < self.solutions().len() && word == upper_word(#[trigger] self.solutions()[i])
        &&& is_upper_word(word)
        &&& self.accepts(word)
    }

    /// Every solution, put in upper case, is an upper-case word that the
    /// corpus accepts.
    pub proof fn lemma_solution_accepted(&self, i: int)
        requires
            self.wf(),
            0 <= i < self.solutions().len(),
        ensures
            self.is_solution_in_upper_case(upper_word(self.solutions()[i])),
    {
        let word = self.solutions()[i];
        assert(is_lower_word(word));
        lemma_case_of_word(word);
        assert(lower_word(upper_word(word)) == word);
        assert(self.solutions().contains(word));
    }

    /// Whatever the corpus accepts is five ASCII letters.
    pub proof fn lemma_accepted_is_word(&self, word: Seq<char>)
        requires
            self.wf(),
            self.accepts(word),
        ensures
            is_word(word),
    {
        lemma_case_of_word(word);
        lemma_case_of_word(lower_word(word));
        if self.solutions().contains(lower_word(word)) {
            let i = choose|i: int|
                0 <= i < self.solutions().len() && self.solutions()[i] == lower_word(word);
            assert(is_lower_word(self.solutions()[i]));
        } else {
            let i = choose|i: int|
                0 <= i < self.extras().len() && self.extras()[i] == lower_word(word);
            assert(is_lower_word(self.extras()[i]));
        }
    }
}

proof fn lemma_index_in_range(today: int, epoch: int, n: int)
    requires
        n > 0,
    ensures
        0 <= daily_index_of(today, epoch, n) < n,
{
}

proof fn lemma_lower_lines_are_words(lines: Seq<Seq<char>>)
    requires
        word_list_problem(lines) is None,
    ensures
        lower_lines(lines).len() > 0,
        forall|i: int| 0 <= i < lines.len() ==> is_lower_word(#[trigger] lower_lines(lines)[i]),
{
    assert forall|i: int| 0 <= i < lines.len() implies is_lower_word(
        #[trigger] lower_lines(lines)[i],
    ) by {
        lemma_no_bad_line(lines, 0, i);
        lemma_case_of_word(lines[i]);
    }
}

proof fn lemma_no_bad_line(lines: Seq<Seq<char>>, from: int, i: int)
    requires
        0 <= from <= i < lines.len(),
        first_bad_line(lines, from) >= lines.len(),
    ensures
        is_word(lines[i]),
    decreases i - from,
{
    if from < i {
        lemma_no_bad_line(lines, from + 1, i);
    }
}

} // verus!
