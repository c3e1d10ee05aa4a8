//! One game in play: the state that the player's inputs act on.

use std::collections::HashMap;
use vstd::prelude::*;
use vstd::string::*;
use crate::clue::{better, is_all_correct, merge};
use crate::corpus::WordSet;
use crate::evaluator::{evaluate, evaluation};
use crate::letters::{
    chars_of, is_ascii_letter, is_upper, lemma_case_of_word, to_upper, upper_word, uppercase,
};
use crate::session::{
    best_in_guess, clue_of, law_step_keeps_wf, merged, stands_in, GameInput, Record, Session,
};

verus! {

/// How the hidden word is picked.
#[derive(Clone, Copy, Debug)]
pub enum GameMode {
    /// The word of the day.
    Wordle,
    /// A word by chance.
    RandomWord,
}

/// A game in play.
#[derive(Debug)]
pub struct RusdleState {
    words: WordSet,
    target: Vec<char>,
    entry: String,
    last_error: Option<String>,
    guesses: Vec<(String, [u8; 5])>,
    clues: HashMap<u32, u8>,
}

/// The clues by letter, from the clues by the letter's number. Only the
/// letters `A`..=`Z` are ever guessed.
pub open spec fn by_letter(clues: Map<u32, u8>) -> Map<char, u8> {
    Map::new(|c: char| is_upper(c) && clues.contains_key(c as u32), |c: char| clues[c as u32])
}

/// The records that `guesses` holds.
pub open spec fn records(guesses: Seq<(String, [u8; 5])>) -> Seq<Record> {
    Seq::new(guesses.len(), |i: int| Record { word: guesses[i].0@, clues: guesses[i].1@ })
}

impl View for RusdleState {
    type V = Session;

    closed spec fn view(&self) -> Session {
        Session {
            target: self.target@,
            entry: self.entry@,
            history: records(self.guesses@),
            clues: by_letter(self.clues@),
            last_error: match self.last_error {
                Some(message) => Some(message@),
                None => None,
            },
        }
    }
}

impl RusdleState {
    /// The corpus that the game is played with.
    pub closed spec fn corpus(&self) -> WordSet {
        self.words
    }

    /// The corpus and the game are well formed.
    pub open spec fn wf(&self) -> bool {
        self.corpus().wf() && self@.wf(self.corpus())
    }

    /// A game whose hidden word is picked as `mode` says. `None` only for the
    /// word of the day, where the host's time zone gives the day no number.
    pub fn new(words: WordSet, mode: GameMode) -> (game: Option<Self>)
        requires
            words.wf(),
        ensures
            mode is RandomWord ==> game is Some,
            game matches Some(g) ==> {
                &&& g.wf()
                &&& g.corpus() == words
                &&& g@ == Session::fresh(g@.target)
                &&& words.is_solution_in_upper_case(g@.target)
            },
    {
        let word = match mode {
            GameMode::RandomWord => words.random_word(),
            GameMode::Wordle => match words.word_of_the_day() {
                Some(word) => word,
                None => {
                    return None;
                },
            },
        };
        proof {
            lemma_case_of_word(word@);
        }
        Some(Self::new_with_target(words, word.as_str()))
    }

    /// A game with the hidden word `target`, put in upper case.
    pub fn new_with_target(words: WordSet, target: &str) -> (game: Self)
        requires
            words.wf(),
            words.accepts(target@),
        ensures
            game.wf(),
            game.corpus() == words,
            game@ == Session::fresh(upper_word(target@)),
    {
        let hidden = uppercase(target);
        proof {
            words.lemma_accepted_is_word(target@);
            lemma_case_of_word(target@);
        }
        let game = RusdleState {
            words,
            target: chars_of(hidden.as_str()),
            entry: String::new(),
            last_error: None,
            guesses: Vec::new(),
            clues: HashMap::new(),
        };
        assert(game@.history =~= Seq::<Record>::empty());
        assert(game@.clues =~= Map::<char, u8>::empty());
        game
    }

    /// Lets `input` act on the game.
    pub fn handle_input(&mut self, input: GameInput)
        requires
            old(self).wf(),
        ensures
            final(self).wf(),
            final(self).corpus() == old(self).corpus(),
            final(self)@ == old(self)@.step(old(self).corpus(), input),
    {
        proof {
            law_step_keeps_wf(self@, self.corpus(), input);
        }
        match input {
            GameInput::Input(c) => {
                if !self.is_over() && is_ascii_letter(c) && self.entry.as_str().unicode_len() < 5 {
                    self.entry.push(to_upper(c));
                }
            },
            GameInput::Delete => {
                if self.entry.as_str().unicode_len() > 0 {
                    self.entry.pop();
                }
            },
            GameInput::Submit => {
                if self.entry.as_str().unicode_len() == 5 && !self.is_over() {
                    self.process_guess();
                }
            },
        }
    }

    /// Whether the game has ended: it is won, or six guesses were made.
    pub fn is_over(&self) -> (over: bool)
        ensures
            over == self@.is_over(),
    {
        self.guesses.len() == 6 || self.is_win()
    }

    /// Whether the last guess was the hidden word.
    pub fn is_win(&self) -> (win: bool)
        ensures
            win == self@.is_win(),
    {
        let n = self.guesses.len();
        if n == 0 {
            false
        } else {
            is_all_correct(&self.guesses[n - 1].1)
        }
    }

    /// Takes the entry as a guess: records it with its clues if the corpus
    /// holds it, and leaves a message if not.
    fn process_guess(&mut self)
        requires
            old(self).wf(),
            old(self)@.entry.len() == 5,
            !old(self)@.is_over(),
        ensures
            final(self).corpus() == old(self).corpus(),
            final(self)@ == old(self)@.submit(old(self).corpus()),
    {
        if !self.words.is_valid(self.entry.as_str()) {
            let mut message = String::from_str("Word '");
            message.append(self.entry.as_str());
            message.append("' is not valid.");
            self.last_error = Some(message);
        } else {
            self.last_error = None;
            let guess = self.entry.clone();
            let result = self.compare_guess(guess.as_str());
            let letters = chars_of(guess.as_str());
            let ghost before = self.clues@;
            for i in 0..5usize
                invariant
                    letters@.len() == 5,
                    forall|j: int| 0 <= j < 5 ==> is_upper(#[trigger] letters@[j]),
                    by_letter(self.clues@) == merged(
                        by_letter(before),
                        letters@,
                        result@,
                        i as int,
                    ),
                    self.words == old(self).words,
                    self.target == old(self).target,
                    self.entry == old(self).entry,
                    self.guesses == old(self).guesses,
                    self.last_error is None,
            {
                let key = letters[i] as u32;
                let got = result[i];
                let best = match self.clues.get(&key) {
                    Some(had) => merge(*had, got),
                    None => got,
                };
                let ghost prior = self.clues@;
                self.clues.insert(key, best);
                proof {
                    lemma_take_in_letter(
                        prior,
                        by_letter(before),
                        letters@,
                        result@,
                        i as int,
                        best,
                    );
                }
            }
            self.guesses.push((guess, result));
            self.entry.clear();
            proof {
                let s = old(self)@;
                let t = s.submit(old(self).corpus());
                assert(self@.history =~= t.history);
            }
        }
    }

    /// The clues for `guess` against the hidden word.
    pub fn compare_guess(&self, guess: &str) -> (result: [u8; 5])
        requires
            self.wf(),
            guess@.len() == 5,
        ensures
            result@ == evaluation(self@.target, guess@),
    {
        let letters = chars_of(guess);
        evaluate(&self.target, &letters)
    }

    /// The letters typed so far.
    pub fn entry(&self) -> (entry: &String)
        ensures
            entry@ == self@.entry,
    {
        &self.entry
    }

    /// The message about the last entry that was refused, if it stands.
    pub fn last_error(&self) -> (message: &Option<String>)
        ensures
            match *message {
                Some(text) => self@.last_error == Some(text@),
                None => self@.last_error is None,
            },
    {
        &self.last_error
    }

    /// The guesses handed in, oldest first, each with its clues.
    pub fn guesses(&self) -> (guesses: &Vec<(String, [u8; 5])>)
        ensures
            records(guesses@) == self@.history,
    {
        &self.guesses
    }

    /// The best clue that `letter` got so far; `None` before it was guessed.
    pub fn clue(&self, letter: char) -> (best: Option<u8>)
        ensures
            match best {
                Some(code) => self@.clues.contains_key(letter) && self@.clues[letter] == code,
                None => !self@.clues.contains_key(letter),
            },
    {
        if !('A' <= letter && letter <= 'Z') {
            return None;
        }
        let key = letter as u32;
        match self.clues.get(&key) {
            Some(code) => Some(*code),
            None => None,
        }
    }
}

/// Taking in the letter at `i` with its clue, by the letter's number, is
/// one more step of [`merged`].
proof fn lemma_take_in_letter(
    prior: Map<u32, u8>,
    start: Map<char, u8>,
    letters: Seq<char>,
    result: Seq<u8>,
    i: int,
    best: u8,
)
    requires
        0 <= i < letters.len(),
        letters.len() == result.len(),
        forall|j: int| 0 <= j < letters.len() ==> is_upper(#[trigger] letters[j]),
        by_letter(prior) == merged(start, letters, result, i),
        best == if prior.contains_key(letters[i] as u32) {
            better(prior[letters[i] as u32], result[i])
        } else {
            result[i]
        },
    ensures
        by_letter(prior.insert(letters[i] as u32, best)) == merged(start, letters, result, i + 1),
{
    let was = merged(start, letters, result, i);
    let now = by_letter(prior.insert(letters[i] as u32, best));
    let want = merged(start, letters, result, i + 1);
    let here = letters[i];
    assert(is_upper(here));
    assert(stands_in(letters, here, i + 1));
    assert forall|c: char| now.contains_key(c) == want.contains_key(c) by {
        assert(by_letter(prior).contains_key(c) == was.contains_key(c));
        assert(want.contains_key(c) == (start.contains_key(c) || stands_in(letters, c, i + 1)));
        assert(was.contains_key(c) == (start.contains_key(c) || stands_in(letters, c, i)));
        assert(now.contains_key(c) == (is_upper(c) && (c as u32 == here as u32
            || prior.contains_key(c as u32))));
        assert(is_upper(c) ==> ((c as u32 == here as u32) == (c == here)));
        if c != here {
            if stands_in(letters, c, i + 1) {
                let k = choose|k: int| 0 <= k < i + 1 && k < letters.len() && letters[k] == c;
                assert(stands_in(letters, c, i));
            }
            if stands_in(letters, c, i) {
                let k = choose|k: int| 0 <= k < i && k < letters.len() && letters[k] == c;
                assert(stands_in(letters, c, i + 1));
            }
        }
    }
    assert forall|c: char| now.contains_key(c) implies now[c] == want[c] by {
        assert(is_upper(c));
        assert((c as u32 == here as u32) == (c == here));
        assert(by_letter(prior).contains_key(c) == was.contains_key(c));
        assert(by_letter(prior).contains_key(c) == prior.contains_key(c as u32));
        assert(was.contains_key(c) == (start.contains_key(c) || stands_in(letters, c, i)));
        assert(now[c] == prior.insert(here as u32, best)[c as u32]);
        assert(want[c] == better(clue_of(start, c), best_in_guess(letters, result, c, i + 1)));
        if prior.contains_key(c as u32) {
            assert(by_letter(prior)[c] == prior[c as u32]);
            assert(was[c] == better(clue_of(start, c), best_in_guess(letters, result, c, i)));
        } else if c == here {
            lemma_best_of_absent(letters, result, c, i);
        }
    }
    assert(now =~= want);
}

proof fn lemma_best_of_absent(word: Seq<char>, result: Seq<u8>, c: char, n: int)
    requires
        0 <= n <= word.len(),
        !stands_in(word, c, n),
    ensures
        best_in_guess(word, result, c, n) == crate::clue::RES_DEFAULT,
    decreases n,
{
    if n > 0 {
        assert(!stands_in(word, c, n - 1)) by {
            if stands_in(word, c, n - 1) {
                let k = choose|k: int| 0 <= k < n - 1 && k < word.len() && word[k] == c;
                assert(stands_in(word, c, n));
            }
        }
        if word[n - 1] == c {
            assert(stands_in(word, c, n));
        }
        lemma_best_of_absent(word, result, c, n - 1);
    }
}

} // verus!
