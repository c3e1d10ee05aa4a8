//! The session as a mathematical state machine: what a game is, and what
//! each input makes of it.

use vstd::prelude::*;
use crate::clue::{all_correct, better, RES_DEFAULT};
use crate::corpus::WordSet;
use crate::evaluator::evaluation;
use crate::letters::{is_letter, is_upper, is_upper_word, upper};

verus! {

/// What the player can do.
pub enum GameInput {
    /// Take the last letter of the entry back.
    Delete,
    /// Hand the entry in as a guess.
    Submit,
    /// Type a letter.
    Input(char),
}

/// One guess that was handed in, with its clues.
pub struct Record {
    pub word: Seq<char>,
    pub clues: Seq<u8>,
}

/// The state of a game.
pub struct Session {
    /// The hidden word.
    pub target: Seq<char>,
    /// The letters typed so far.
    pub entry: Seq<char>,
    /// The guesses handed in, oldest first.
    pub history: Seq<Record>,
    /// For each letter guessed so far, the best clue it ever got.
    pub clues: Map<char, u8>,
    /// The message about the last entry that was refused.
    pub last_error: Option<Seq<char>>,
}

/// The message for an entry that is not in the corpus.
pub open spec fn invalid_word_message(entry: Seq<char>) -> Seq<char> {
    "Word '"@ + entry + "' is not valid."@
}

/// What `clues` holds for `c`: `RES_DEFAULT` for a letter not guessed yet.
pub open spec fn clue_of(clues: Map<char, u8>, c: char) -> u8 {
    if clues.contains_key(c) {
        clues[c]
    } else {
        RES_DEFAULT
    }
}

/// The best clue that `c` got at the first `n` positions of one guess, and
/// `RES_DEFAULT` if it stands at none of them.
pub open spec fn best_in_guess(word: Seq<char>, result: Seq<u8>, c: char, n: int) -> u8
    decreases n,
{
    if n <= 0 {
        RES_DEFAULT
    } else if word[n - 1] == c {
        better(best_in_guess(word, result, c, n - 1), result[n - 1])
    } else {
        best_in_guess(word, result, c, n - 1)
    }
}

/// Whether `c` stands at one of the first `n` positions of `word`.
pub open spec fn stands_in(word: Seq<char>, c: char, n: int) -> bool {
    exists|k: int| 0 <= k < n && k < word.len() && word[k] == c
}

/// `clues` after the first `n` letters of a guess and their clues were
/// taken in: each letter keeps the better of what it had and what it got.
pub open spec fn merged(clues: Map<char, u8>, word: Seq<char>, result: Seq<u8>, n: int) -> Map<
    char,
    u8,
> {
    Map::new(
        |c: char| clues.contains_key(c) || stands_in(word, c, n),
        |c: char| better(clue_of(clues, c), best_in_guess(word, result, c, n)),
    )
}

/// The best clue of every letter over a whole history.
pub open spec fn summary(history: Seq<Record>) -> Map<char, u8>
    decreases history.len(),
{
    if history.len() == 0 {
        Map::empty()
    } else {
        merged(summary(history.drop_last()), history.last().word, history.last().clues, 5)
    }
}

impl Session {
    /// A game that has just begun.
    pub open spec fn fresh(target: Seq<char>) -> Session {
        Session {
            target,
            entry: Seq::empty(),
            history: Seq::empty(),
            clues: Map::empty(),
            last_error: None,
        }
    }

    /// The last guess was right at every position.
    pub open spec fn is_win(self) -> bool {
        self.history.len() > 0 && all_correct(self.history.last().clues)
    }

    /// The game is won, or six guesses were made.
    pub open spec fn is_over(self) -> bool {
        self.is_win() || self.history.len() == 6
    }

    /// What holds of every game played with `corpus`.
    pub open spec fn wf(self, corpus: WordSet) -> bool {
        &&& is_upper_word(self.target)
        &&& corpus.accepts(self.target)
        &&& self.entry.len() <= 5
        &&& forall|i: int| 0 <= i < self.entry.len() ==> is_upper(#[trigger] self.entry[i])
        &&& self.history.len() <= 6
        &&& forall|i: int|
            0 <= i < self.history.len() ==> {
                &&& is_upper_word((#[trigger] self.history[i]).word)
                &&& corpus.accepts(self.history[i].word)
                &&& self.history[i].clues == evaluation(self.target, self.history[i].word)
            }
        &&& forall|i: int|
            0 <= i < self.history.len() - 1 ==> !all_correct((#[trigger] self.history[i]).clues)
        &&& self.clues == summary(self.history)
        &&& self.is_over() ==> self.entry.len() == 0
    }

    /// The game after the entry, five letters long, was handed in.
    pub open spec fn submit(self, corpus: WordSet) -> Session {
        if corpus.accepts(self.entry) {
            let result = evaluation(self.target, self.entry);
            Session {
                target: self.target,
                entry: Seq::empty(),
                history: self.history.push(Record { word: self.entry, clues: result }),
                clues: merged(self.clues, self.entry, result, 5),
                last_error: None,
            }
        } else {
            Session { last_error: Some(invalid_word_message(self.entry)), ..self }
        }
    }

    /// The game after `input`.
    pub open spec fn step(self, corpus: WordSet, input: GameInput) -> Session {
        match input {
            GameInput::Input(c) => if !self.is_over() && is_letter(c) && self.entry.len() < 5 {
                Session { entry: self.entry.push(upper(c)), ..self }
            } else {
                self
            },
            GameInput::Delete => if self.entry.len() > 0 {
                Session { entry: self.entry.drop_last(), ..self }
            } else {
                self
            },
            GameInput::Submit => if self.entry.len() == 5 && !self.is_over() {
                self.submit(corpus)
            } else {
                self
            },
        }
    }

    /// The game after each of `inputs` in turn.
    pub open spec fn run(self, corpus: WordSet, inputs: Seq<GameInput>) -> Session
        decreases inputs.len(),
    {
        if inputs.len() == 0 {
            self
        } else {
            self.run(corpus, inputs.drop_last()).step(corpus, inputs.last())
        }
    }
}

/// A game that has just begun is well formed.
pub proof fn law_fresh_is_wf(corpus: WordSet, target: Seq<char>)
    requires
        is_upper_word(target),
        corpus.accepts(target),
    ensures
        Session::fresh(target).wf(corpus),
        !Session::fresh(target).is_over(),
{
}

/// Every input leaves a well-formed game well formed; so the history never
/// grows beyond six guesses, every record holds the evaluation of its word
/// against the hidden word, and the clues are the best over the history.
pub proof fn law_step_keeps_wf(s: Session, corpus: WordSet, input: GameInput)
    requires
        s.wf(corpus),
    ensures
        s.step(corpus, input).wf(corpus),
        s.step(corpus, input).history.len() <= 6,
        s.step(corpus, input).target == s.target,
{
    let t = s.step(corpus, input);
    match input {
        GameInput::Input(c) => {
            if !s.is_over() && is_letter(c) && s.entry.len() < 5 {
                assert forall|i: int| 0 <= i < t.entry.len() implies is_upper(
                    #[trigger] t.entry[i],
                ) by {
                    if i < s.entry.len() {
                        assert(is_upper(s.entry[i]));
                    }
                }
            }
        },
        GameInput::Delete => {
            if s.entry.len() > 0 {
                assert forall|i: int| 0 <= i < t.entry.len() implies is_upper(
                    #[trigger] t.entry[i],
                ) by {
                    assert(is_upper(s.entry[i]));
                }
            }
        },
        GameInput::Submit => {
            if s.entry.len() == 5 && !s.is_over() && corpus.accepts(s.entry) {
                assert(t.history.drop_last() =~= s.history);
                assert(is_upper_word(s.entry)) by {
                    assert forall|i: int| 0 <= i < 5 implies is_upper(#[trigger] s.entry[i]) by {}
                }
                assert forall|i: int| 0 <= i < t.history.len() implies {
                    &&& is_upper_word((#[trigger] t.history[i]).word)
                    &&& corpus.accepts(t.history[i].word)
                    &&& t.history[i].clues == evaluation(t.target, t.history[i].word)
                } by {
                    if i < s.history.len() {
                        assert(t.history[i] == s.history[i]);
                    }
                }
                assert forall|i: int| 0 <= i < t.history.len() - 1 implies !all_correct(
                    (#[trigger] t.history[i]).clues,
                ) by {
                    assert(t.history[i] == s.history[i]);
                    if i == s.history.len() - 1 {
                        assert(!s.is_win());
                    }
                }
            }
        },
    }
}

/// Once the game is over, no input changes it: no guess is taken after a
/// win or after the sixth guess.
pub proof fn law_over_is_final(s: Session, corpus: WordSet, input: GameInput)
    requires
        s.wf(corpus),
        s.is_over(),
    ensures
        s.step(corpus, input) == s,
{
}

/// No input lowers the clue of any letter.
pub proof fn law_clues_never_decrease(s: Session, corpus: WordSet, input: GameInput, c: char)
    ensures
        clue_of(s.step(corpus, input).clues, c) >= clue_of(s.clues, c),
{
}

/// An entry that the corpus does not hold leaves history, entry and clues as
/// they were and sets the message; one that it holds is recorded with its
/// evaluation, empties the entry and clears the message.
pub proof fn law_submit(s: Session, corpus: WordSet)
    requires
        s.wf(corpus),
        s.entry.len() == 5,
        !s.is_over(),
    ensures
        ({
            let t = s.step(corpus, GameInput::Submit);
            if corpus.accepts(s.entry) {
                &&& t.last_error is None
                &&& t.entry.len() == 0
                &&& t.history.len() == s.history.len() + 1
                &&& t.history.last().word == s.entry
                &&& t.history.last().clues == evaluation(s.target, s.entry)
                &&& t.is_win() <==> s.entry == s.target
            } else {
                &&& t.last_error == Some(invalid_word_message(s.entry))
                &&& t.entry == s.entry
                &&& t.history == s.history
                &&& t.clues == s.clues
            }
        }),
{
    let t = s.step(corpus, GameInput::Submit);
    if corpus.accepts(s.entry) {
        let r = evaluation(s.target, s.entry);
        if s.entry == s.target {
            assert(r =~= Seq::new(5, |i: int| crate::clue::RES_CORRECT));
        }
        if all_correct(r) {
            assert forall|i: int| 0 <= i < 5 implies s.entry[i] == s.target[i] by {
                assert(r[i] == crate::clue::RES_CORRECT);
            }
            assert(s.entry =~= s.target);
        }
    }
}

/// Whatever is typed and handed in, in whatever order, a well-formed game
/// stays well formed: its history never holds more than six guesses.
pub proof fn law_history_bound(s: Session, corpus: WordSet, inputs: Seq<GameInput>)
    requires
        s.wf(corpus),
    ensures
        s.run(corpus, inputs).wf(corpus),
        s.run(corpus, inputs).history.len() <= 6,
        s.run(corpus, inputs).target == s.target,
    decreases inputs.len(),
{
    if inputs.len() > 0 {
        law_history_bound(s, corpus, inputs.drop_last());
        law_step_keeps_wf(s.run(corpus, inputs.drop_last()), corpus, inputs.last());
    }
}

/// Over any sequence of inputs the clue of a letter never goes down.
pub proof fn law_clues_monotone(s: Session, corpus: WordSet, inputs: Seq<GameInput>, c: char)
    ensures
        clue_of(s.run(corpus, inputs).clues, c) >= clue_of(s.clues, c),
    decreases inputs.len(),
{
    if inputs.len() > 0 {
        law_clues_monotone(s, corpus, inputs.drop_last(), c);
        law_clues_never_decrease(s.run(corpus, inputs.drop_last()), corpus, inputs.last(), c);
    }
}

/// A game that is over stays as it is through any sequence of inputs.
pub proof fn law_nothing_after_the_end(s: Session, corpus: WordSet, inputs: Seq<GameInput>)
    requires
        s.wf(corpus),
        s.is_over(),
    ensures
        s.run(corpus, inputs) == s,
    decreases inputs.len(),
{
    if inputs.len() > 0 {
        law_nothing_after_the_end(s, corpus, inputs.drop_last());
        law_over_is_final(s, corpus, inputs.last());
    }
}

} // verus!
