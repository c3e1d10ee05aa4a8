//! Five-letter word guessing: the corpus of words, the evaluator that marks a
//! guess against the hidden word, and the state machine of one session.

pub mod builtin;
pub mod clue;
pub mod corpus;
pub mod display;
pub mod evaluator;
pub mod game;
mod host;
pub mod letters;
pub mod session;
pub mod wordlist;

pub use crate::corpus::WordSet;
pub use crate::game::{GameMode, RusdleState};
pub use crate::session::GameInput;
pub use crate::wordlist::CorpusLoadError;
