use rusdle::clue::{RES_CORRECT, RES_DEFAULT, RES_WRONG};
use rusdle::corpus::WordSet;
use rusdle::display::{guess_rows, message, MessageKind};
use rusdle::game::RusdleState;
use rusdle::session::GameInput;

fn test_game(target: &str) -> RusdleState {
    RusdleState::new_with_target(WordSet::load(None, None).unwrap(), target)
}

fn guess(game: &mut RusdleState, word: &str) {
    for c in word.chars() {
        game.handle_input(GameInput::Input(c));
    }
    game.handle_input(GameInput::Submit);
}

fn blank() -> (String, [u8; 5]) {
    ("     ".to_string(), [RES_DEFAULT; 5])
}

#[test]
fn the_board_of_a_new_game_shows_the_entry_first() {
    let mut game = test_game("MATCH");
    let rows = guess_rows(&game);
    assert_eq!(rows.len(), 6);
    assert_eq!(rows[0], ("_    ".to_string(), [RES_DEFAULT; 5]));
    for row in &rows[1..] {
        assert_eq!(*row, blank());
    }
    game.handle_input(GameInput::Input('m'));
    game.handle_input(GameInput::Input('a'));
    assert_eq!(guess_rows(&game)[0].0, "MA_  ");
    for c in "tch".chars() {
        game.handle_input(GameInput::Input(c));
    }
    assert_eq!(guess_rows(&game)[0].0, "MATCH");
}

#[test]
fn the_board_shows_guesses_then_the_entry_then_blanks() {
    let mut game = test_game("MATCH");
    guess(&mut game, "cigar");
    guess(&mut game, "rebut");
    game.handle_input(GameInput::Input('s'));
    let rows = guess_rows(&game);
    assert_eq!(rows.len(), 6);
    assert_eq!(rows[0], game.guesses()[0]);
    assert_eq!(rows[1], game.guesses()[1]);
    assert_eq!(rows[2], ("S_   ".to_string(), [RES_DEFAULT; 5]));
    assert_eq!(rows[3], blank());
    assert_eq!(rows[5], blank());
}

#[test]
fn the_board_of_a_finished_game_has_no_entry_row() {
    let mut game = test_game("MATCH");
    guess(&mut game, "cigar");
    guess(&mut game, "match");
    let rows = guess_rows(&game);
    assert_eq!(rows.len(), 6);
    assert_eq!(rows[0].0, "CIGAR");
    assert_eq!(rows[0].1[1], RES_WRONG);
    assert_eq!(rows[1], ("MATCH".to_string(), [RES_CORRECT; 5]));
    for row in &rows[2..] {
        assert_eq!(*row, blank());
    }
    let mut lost = test_game("MATCH");
    for word in ["cigar", "rebut", "sissy", "humph", "awake", "blush"] {
        guess(&mut lost, word);
    }
    let rows = guess_rows(&lost);
    assert_eq!(rows.len(), 6);
    assert_eq!(rows, *lost.guesses());
}

#[test]
fn the_message_follows_the_game() {
    let mut game = test_game("MATCH");
    assert_eq!(message(&game), (MessageKind::Empty, String::new()));
    guess(&mut game, "zzzzz");
    assert_eq!(
        message(&game),
        (MessageKind::Warning, "Word 'ZZZZZ' is not valid.".to_string())
    );
    for _ in 0..5 {
        game.handle_input(GameInput::Delete);
    }
    guess(&mut game, "match");
    assert_eq!(message(&game), (MessageKind::Winner, "Winner!".to_string()));
    let mut lost = test_game("MATCH");
    for word in ["cigar", "rebut", "sissy", "humph", "awake", "blush"] {
        guess(&mut lost, word);
    }
    assert_eq!(message(&lost), (MessageKind::Loser, "Loser!".to_string()));
}
