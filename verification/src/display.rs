//! What a game shows: the six rows of the board and the line beneath it.
//! How they are drawn is not decided here.

use vstd::prelude::*;
use vstd::string::*;
use crate::clue::RES_DEFAULT;
use crate::game::RusdleState;
use crate::letters::{chars_of, string_of};
use crate::session::{Record, Session};

verus! {

/// The kinds of line beneath the board.
#[derive(Clone, Copy, Debug, PartialEq, Eq)]
pub enum MessageKind {
    /// The game is won.
    Winner,
    /// Six guesses were made and none was right.
    Loser,
    /// The last entry was refused.
    Warning,
    /// There is nothing to say.
    Empty,
}

/// Five codes, all `RES_DEFAULT`.
pub open spec fn no_clues() -> Seq<u8> {
    Seq::new(5, |i: int| RES_DEFAULT)
}

/// The row that shows the entry: its letters, a mark where the next letter
/// goes, and blanks, cut to five characters.
pub open spec fn entry_row(entry: Seq<char>) -> Seq<char> {
    (entry + "_    "@).take(5)
}

/// The six rows of the board: the guesses with their clues, then, while
/// the game goes on, the entry, then empty rows.
pub open spec fn board(s: Session) -> Seq<Record> {
    Seq::new(
        6,
        |i: int|
            if i < s.history.len() {
                s.history[i]
            } else if !s.is_over() && i == s.history.len() {
                Record { word: entry_row(s.entry), clues: no_clues() }
            } else {
                Record { word: "     "@, clues: no_clues() }
            },
    )
}

/// The line beneath the board.
pub open spec fn message_of(s: Session) -> (MessageKind, Seq<char>) {
    if s.is_win() {
        (MessageKind::Winner, "Winner!"@)
    } else if s.is_over() {
        (MessageKind::Loser, "Loser!"@)
    } else {
        match s.last_error {
            Some(text) => (MessageKind::Warning, text),
            None => (MessageKind::Empty, ""@),
        }
    }
}

/// Computes [`entry_row`] for an entry of at most five letters.
fn entry_row_of(entry: &String) -> (row: String)
    ensures
        row@ == entry_row(entry@),
{
    let mut padded = entry.clone();
    padded.append("_    ");
    proof {
        reveal_strlit("_    ");
    }
    let letters = chars_of(padded.as_str());
    let mut first: Vec<char> = Vec::new();
    for i in 0..5usize
        invariant
            letters@.len() >= 5,
            first@ == letters@.take(i as int),
    {
        first.push(letters[i]);
    }
    string_of(&first)
}

/// Row `j` of `rows` is the record `want`.
pub open spec fn shows(rows: Seq<(String, [u8; 5])>, j: int, want: Record) -> bool {
    rows[j].0@ == want.word && rows[j].1@ == want.clues
}

/// The rows of the board, ready to be drawn: computes [`board`].
pub fn guess_rows(state: &RusdleState) -> (rows: Vec<(String, [u8; 5])>)
    requires
        state.wf(),
    ensures
        crate::game::records(rows@) == board(state@),
{
    let guesses = state.guesses();
    let n = guesses.len();
    let mut rows: Vec<(String, [u8; 5])> = Vec::new();
    for i in 0..n
        invariant
            n == guesses@.len(),
            n == state@.history.len(),
            n <= 6,
            crate::game::records(guesses@) == state@.history,
            rows@.len() == i,
            forall|j: int| 0 <= j < i ==> #[trigger] shows(rows@, j, board(state@)[j]),
    {
        let row = (guesses[i].0.clone(), guesses[i].1);
        assert(crate::game::records(guesses@)[i as int] == state@.history[i as int]);
        let ghost before = rows@;
        rows.push(row);
        assert forall|j: int| 0 <= j < i + 1 implies #[trigger] shows(
            rows@,
            j,
            board(state@)[j],
        ) by {
            if j < i {
                assert(shows(before, j, board(state@)[j]));
            }
        }
    }
    if !state.is_over() {
        let blank: [u8; 5] = [RES_DEFAULT;5];
        assert(blank@ =~= no_clues());
        let ghost before = rows@;
        rows.push((entry_row_of(state.entry()), blank));
        assert forall|j: int| 0 <= j < rows@.len() implies #[trigger] shows(
            rows@,
            j,
            board(state@)[j],
        ) by {
            if j < n {
                assert(shows(before, j, board(state@)[j]));
            }
        }
    }
    while rows.len() < 6
        invariant
            n == state@.history.len(),
            n <= rows@.len() <= 6,
            !state@.is_over() ==> rows@.len() > n,
            forall|j: int| 0 <= j < rows@.len() ==> #[trigger] shows(rows@, j, board(state@)[j]),
        decreases 6 - rows@.len(),
    {
        let blank: [u8; 5] = [RES_DEFAULT;5];
        assert(blank@ =~= no_clues());
        let ghost before = rows@;
        rows.push((String::from_str("     "), blank));
        assert forall|j: int| 0 <= j < rows@.len() implies #[trigger] shows(
            rows@,
            j,
            board(state@)[j],
        ) by {
            if j < before.len() {
                assert(shows(before, j, board(state@)[j]));
            }
        }
    }
    assert forall|j: int| 0 <= j < 6 implies crate::game::records(rows@)[j] == board(state@)[j] by {
        assert(shows(rows@, j, board(state@)[j]));
    }
    assert(crate::game::records(rows@) =~= board(state@));
    rows
}

/// The line beneath the board: computes [`message_of`].
pub fn message(state: &RusdleState) -> (line: (MessageKind, String))
    requires
        state.wf(),
    ensures
        line.0 == message_of(state@).0,
        line.1@ == message_of(state@).1,
{
    if state.is_over() {
        if state.is_win() {
            (MessageKind::Winner, String::from_str("Winner!"))
        } else {
            (MessageKind::Loser, String::from_str("Loser!"))
        }
    } else {
        match state.last_error() {
            Some(text) => (MessageKind::Warning, text.clone()),
            None => (MessageKind::Empty, String::from_str("")),
        }
    }
}

} // verus!
