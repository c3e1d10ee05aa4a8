use rusdle::clue::{RES_CORRECT, RES_PRESENT, RES_WRONG};
use rusdle::corpus::WordSet;
use rusdle::game::{GameMode, RusdleState};
use rusdle::session::GameInput;

fn default_words() -> WordSet {
    WordSet::load(None, None).unwrap()
}

fn test_game(target: &str) -> RusdleState {
    RusdleState::new_with_target(default_words(), target)
}

fn type_word(game: &mut RusdleState, word: &str) {
    for c in word.chars() {
        game.handle_input(GameInput::Input(c));
    }
}

fn guess(game: &mut RusdleState, word: &str) {
    type_word(game, word);
    game.handle_input(GameInput::Submit);
}

#[test]
fn a_new_game_is_empty() {
    let game = test_game("MATCH");
    assert_eq!(game.entry(), "");
    assert!(game.guesses().is_empty());
    assert_eq!(*game.last_error(), None);
    assert!(!game.is_over());
    assert!(!game.is_win());
    for c in 'A'..='Z' {
        assert_eq!(game.clue(c), None);
    }
}

#[test]
fn new_with_target_takes_the_word_in_any_case() {
    let mut game = test_game("match");
    guess(&mut game, "MATCH");
    assert!(game.is_win());
}

#[test]
fn new_by_chance_starts_a_game_on_a_solution() {
    let words = WordSet::load(Some("cigar\n"), Some("rebut\n")).unwrap();
    let mut game = RusdleState::new(words, GameMode::RandomWord).unwrap();
    assert!(game.guesses().is_empty());
    assert_eq!(game.entry(), "");
    assert!(!game.is_over());
    assert_eq!(game.compare_guess("CIGAR"), [RES_CORRECT; 5]);
    guess(&mut game, "cigar");
    assert!(game.is_win());
}

#[test]
fn new_for_the_day_starts_a_game_on_a_solution() {
    let words = WordSet::load(Some("cigar\n"), Some("rebut\n")).unwrap();
    if let Some(game) = RusdleState::new(words, GameMode::Wordle) {
        assert!(game.guesses().is_empty());
        assert!(!game.is_over());
        assert_eq!(game.compare_guess("CIGAR"), [RES_CORRECT; 5]);
    }
}

#[test]
fn letters_fill_the_entry_in_upper_case() {
    let mut game = test_game("MATCH");
    game.handle_input(GameInput::Input('r'));
    assert_eq!(game.entry(), "R");
    game.handle_input(GameInput::Input('O'));
    assert_eq!(game.entry(), "RO");
    type_word(&mut game, "oty");
    assert_eq!(game.entry(), "ROOTY");
    game.handle_input(GameInput::Input('x'));
    assert_eq!(game.entry(), "ROOTY");
}

#[test]
fn what_is_no_letter_is_ignored() {
    let mut game = test_game("MATCH");
    for c in ['1', ' ', '_', '\u{e9}', '\n', '[', '`', '{', '@'] {
        game.handle_input(GameInput::Input(c));
    }
    assert_eq!(game.entry(), "");
}

#[test]
fn delete_takes_the_last_letter() {
    let mut game = test_game("MATCH");
    game.handle_input(GameInput::Delete);
    assert_eq!(game.entry(), "");
    type_word(&mut game, "abc");
    game.handle_input(GameInput::Delete);
    assert_eq!(game.entry(), "AB");
    game.handle_input(GameInput::Delete);
    game.handle_input(GameInput::Delete);
    assert_eq!(game.entry(), "");
    game.handle_input(GameInput::Delete);
    assert_eq!(game.entry(), "");
}

#[test]
fn submit_needs_five_letters() {
    let mut game = test_game("MATCH");
    game.handle_input(GameInput::Submit);
    assert!(game.guesses().is_empty());
    assert_eq!(*game.last_error(), None);
    type_word(&mut game, "matc");
    game.handle_input(GameInput::Submit);
    assert!(game.guesses().is_empty());
    assert_eq!(game.entry(), "MATC");
    assert_eq!(*game.last_error(), None);
}

#[test]
fn submit_of_an_unknown_word_leaves_a_message() {
    let mut game = test_game("MATCH");
    guess(&mut game, "zzzzz");
    assert!(game.guesses().is_empty());
    assert_eq!(game.entry(), "ZZZZZ");
    assert_eq!(*game.last_error(), Some("Word 'ZZZZZ' is not valid.".to_string()));
    assert_eq!(game.clue('Z'), None);
    // The message stays while the entry is edited.
    game.handle_input(GameInput::Delete);
    assert_eq!(*game.last_error(), Some("Word 'ZZZZZ' is not valid.".to_string()));
    for _ in 0..4 {
        game.handle_input(GameInput::Delete);
    }
    guess(&mut game, "rooty");
    assert_eq!(*game.last_error(), None);
    assert_eq!(game.guesses().len(), 1);
    assert_eq!(game.entry(), "");
}

#[test]
fn submit_records_the_guess_with_its_clues() {
    let mut game = test_game("NOOBS");
    guess(&mut game, "rooty");
    assert_eq!(
        *game.guesses(),
        vec![("ROOTY".to_string(), [RES_WRONG, RES_CORRECT, RES_CORRECT, RES_WRONG, RES_WRONG])]
    );
    assert_eq!(game.entry(), "");
    guess(&mut game, "igloo");
    assert_eq!(game.guesses().len(), 2);
    assert_eq!(
        game.guesses()[1],
        ("IGLOO".to_string(), [RES_WRONG, RES_WRONG, RES_WRONG, RES_PRESENT, RES_PRESENT])
    );
    assert!(!game.is_over());
}

#[test]
fn clues_keep_the_best_of_each_letter() {
    let mut game = test_game("NOOBS");
    guess(&mut game, "igloo");
    assert_eq!(game.clue('O'), Some(RES_PRESENT));
    assert_eq!(game.clue('I'), Some(RES_WRONG));
    assert_eq!(game.clue('R'), None);
    guess(&mut game, "rooty");
    assert_eq!(game.clue('O'), Some(RES_CORRECT));
    assert_eq!(game.clue('R'), Some(RES_WRONG));
    // O out of place again: the letter stays correct.
    guess(&mut game, "igloo");
    assert_eq!(game.clue('O'), Some(RES_CORRECT));
    assert_eq!(game.clue('o'), None);
    assert_eq!(game.clue('N'), None);
}

#[test]
fn clues_within_one_guess_keep_the_best() {
    let mut game = test_game("FRAME");
    guess(&mut game, "elide");
    // E is wrong at the first place and correct at the last.
    assert_eq!(game.clue('E'), Some(RES_CORRECT));
    assert_eq!(game.clue('L'), Some(RES_WRONG));
    let mut game = test_game("ABBEY");
    guess(&mut game, "babes");
    assert_eq!(game.clue('B'), Some(RES_CORRECT));
    assert_eq!(game.clue('A'), Some(RES_PRESENT));
    assert_eq!(game.clue('S'), Some(RES_WRONG));
}

#[test]
fn clues_never_go_down() {
    let mut game = test_game("ABBEY");
    let mut last = [0u8; 26];
    for word in ["babes", "zzzzz", "abbot", "rooty", "abate", "elide"] {
        guess(&mut game, word);
        for _ in 0..5 {
            game.handle_input(GameInput::Delete);
        }
        for (i, c) in ('A'..='Z').enumerate() {
            let now = game.clue(c).unwrap_or(0);
            assert!(now >= last[i], "{word} {c}");
            last[i] = now;
        }
    }
}

#[test]
fn the_right_word_wins_and_ends_the_game() {
    let mut game = test_game("MATCH");
    guess(&mut game, "frame");
    assert!(!game.is_win());
    guess(&mut game, "match");
    assert!(game.is_win());
    assert!(game.is_over());
    assert_eq!(game.guesses().len(), 2);
    assert_eq!(game.guesses()[1].1, [RES_CORRECT; 5]);
}

#[test]
fn six_guesses_end_the_game() {
    let mut game = test_game("MATCH");
    for (i, word) in ["cigar", "rebut", "sissy", "humph", "awake", "blush"].iter().enumerate() {
        assert!(!game.is_over());
        guess(&mut game, word);
        assert_eq!(game.guesses().len(), i + 1);
    }
    assert!(game.is_over());
    assert!(!game.is_win());
}

#[test]
fn the_sixth_guess_can_win() {
    let mut game = test_game("MATCH");
    for word in ["cigar", "rebut", "sissy", "humph", "awake", "match"] {
        guess(&mut game, word);
    }
    assert_eq!(game.guesses().len(), 6);
    assert!(game.is_over());
    assert!(game.is_win());
}

#[test]
fn nothing_changes_once_the_game_is_over() {
    let mut lost = test_game("MATCH");
    for word in ["cigar", "rebut", "sissy", "humph", "awake", "blush"] {
        guess(&mut lost, word);
    }
    let mut won = test_game("MATCH");
    guess(&mut won, "match");
    for game in [&mut lost, &mut won] {
        let before = game.guesses().clone();
        let clue = game.clue('A');
        guess(game, "frame");
        game.handle_input(GameInput::Delete);
        game.handle_input(GameInput::Input('q'));
        game.handle_input(GameInput::Submit);
        assert_eq!(*game.guesses(), before);
        assert_eq!(game.entry(), "");
        assert_eq!(*game.last_error(), None);
        assert_eq!(game.clue('A'), clue);
        assert!(game.guesses().len() <= 6);
        assert!(game.is_over());
    }
}

#[test]
fn an_unknown_word_does_not_count_as_a_guess() {
    let mut game = test_game("MATCH");
    for _ in 0..10 {
        guess(&mut game, "qqqqq");
        for _ in 0..5 {
            game.handle_input(GameInput::Delete);
        }
    }
    assert!(game.guesses().is_empty());
    assert!(!game.is_over());
}
