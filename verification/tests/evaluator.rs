use rusdle::clue::{merge, is_all_correct, RES_CORRECT, RES_DEFAULT, RES_PRESENT, RES_WRONG};
use rusdle::corpus::WordSet;
use rusdle::evaluator::{evaluate, remove_item};
use rusdle::game::RusdleState;

fn default_words() -> WordSet {
    WordSet::load(None::<&str>, None::<&str>).unwrap()
}

fn test_game(target: &str) -> RusdleState {
    RusdleState::new_with_target(default_words(), target)
}

fn result(code: &str) -> [u8; 5] {
    code.chars()
        .map(|c| match c {
            '!' => RES_CORRECT,
            '?' => RES_PRESENT,
            'x' => RES_WRONG,
            _ => panic!("unknown code char {}", c),
        })
        .collect::<Vec<u8>>()
        .try_into()
        .unwrap()
}

fn letters(word: &str) -> Vec<char> {
    word.chars().collect()
}

fn count(word: &str, c: char) -> usize {
    word.chars().filter(|x| *x == c).count()
}

#[test]
fn compare_guess_confirms_all_match() {
    assert_eq!(test_game("MATCH").compare_guess("MATCH"), result("!!!!!"))
}

#[test]
fn compare_guess_allows_double_correct() {
    assert_eq!(test_game("NOOBS").compare_guess("ROOTY"), result("x!!xx"))
}

#[test]
fn compare_guess_allows_double_present() {
    assert_eq!(test_game("NOOBS").compare_guess("IGLOO"), result("xxx??"))
}

#[test]
fn compare_guess_isnt_greedy() {
    assert_eq!(test_game("FRAME").compare_guess("ELIDE"), result("xxxx!"))
}

#[test]
fn compare_guess_consumes_the_pool_in_order() {
    assert_eq!(test_game("ABBEY").compare_guess("BABES"), result("??!!x"))
}

#[test]
fn evaluate_matches_the_scenarios() {
    assert_eq!(evaluate(&letters("MATCH"), &letters("MATCH")), result("!!!!!"));
    assert_eq!(evaluate(&letters("NOOBS"), &letters("ROOTY")), result("x!!xx"));
    assert_eq!(evaluate(&letters("NOOBS"), &letters("IGLOO")), result("xxx??"));
    assert_eq!(evaluate(&letters("FRAME"), &letters("ELIDE")), result("xxxx!"));
    assert_eq!(evaluate(&letters("ABBEY"), &letters("BABES")), result("??!!x"));
}

#[test]
fn evaluate_gives_present_only_while_copies_are_left() {
    // One E in the hidden word, out of place in the guess three times.
    assert_eq!(evaluate(&letters("ABCDE"), &letters("EEEXX")), result("?xxxx"));
    // Two copies unmet, three asked for.
    assert_eq!(evaluate(&letters("EEABC"), &letters("XXEEE")), result("xx??x"));
    // The copy met in place is not in the pool.
    assert_eq!(evaluate(&letters("SPEED"), &letters("EERIE")), result("??xxx"));
    assert_eq!(evaluate(&letters("SPEED"), &letters("ABIDE")), result("xxx??"));
    assert_eq!(evaluate(&letters("SPEED"), &letters("STEAL")), result("!x!xx"));
}

#[test]
fn evaluate_never_gives_the_default_code() {
    for (target, guess) in [("CIGAR", "REBUT"), ("HUMPH", "AWAKE"), ("MATCH", "CHAMP")] {
        for code in evaluate(&letters(target), &letters(guess)) {
            assert_ne!(code, RES_DEFAULT);
        }
    }
    assert_eq!(evaluate(&letters("MATCH"), &letters("CHAMP")), result("????x"));
}

#[test]
fn a_word_against_itself_is_all_correct() {
    let words = rusdle::builtin::BUILTIN_WORDLIST;
    let mut seen = 0;
    for line in words.lines() {
        let word = letters(&line.to_ascii_uppercase());
        assert_eq!(evaluate(&word, &word), [RES_CORRECT; 5]);
        seen += 1;
    }
    assert!(seen > 1000);
}

#[test]
fn credit_per_letter_is_the_smaller_count() {
    let pairs = [
        ("NOOBS", "IGLOO"),
        ("FRAME", "ELIDE"),
        ("ABBEY", "BABES"),
        ("SPEED", "EERIE"),
        ("LLAMA", "ALLAY"),
        ("MAMMA", "MADAM"),
        ("ERROR", "ROVER"),
    ];
    for (target, guess) in pairs {
        let marks = evaluate(&letters(target), &letters(guess));
        for c in 'A'..='Z' {
            let credited = guess
                .chars()
                .zip(marks.iter())
                .filter(|(g, r)| *g == c && (**r == RES_CORRECT || **r == RES_PRESENT))
                .count();
            assert_eq!(credited, count(guess, c).min(count(target, c)), "{target} {guess} {c}");
        }
    }
}

#[test]
fn a_letter_in_place_is_correct_and_no_other_is() {
    for (target, guess) in [("NOOBS", "ROOTY"), ("LLAMA", "ALLAY"), ("MAMMA", "MADAM")] {
        let marks = evaluate(&letters(target), &letters(guess));
        for i in 0..5 {
            let same = target.as_bytes()[i] == guess.as_bytes()[i];
            assert_eq!(marks[i] == RES_CORRECT, same);
        }
    }
    assert_eq!(evaluate(&letters("LLAMA"), &letters("ALLAY")), result("?!??x"));
    assert_eq!(evaluate(&letters("MAMMA"), &letters("MADAM")), result("!!x??"));
}

#[test]
fn evaluate_twice_gives_the_same_and_leaves_its_arguments() {
    let target = letters("ABBEY");
    let guess = letters("BABES");
    let first = evaluate(&target, &guess);
    let second = evaluate(&target, &guess);
    assert_eq!(first, second);
    assert_eq!(target, letters("ABBEY"));
    assert_eq!(guess, letters("BABES"));
    let game = test_game("ABBEY");
    assert_eq!(game.compare_guess("BABES"), game.compare_guess("BABES"));
    assert!(game.guesses().is_empty());
}

#[test]
fn remove_item_takes_the_first_and_moves_the_last_in() {
    let mut pool = vec!['a', 'b', 'c', 'b', 'd'];
    assert!(remove_item(&mut pool, 'b'));
    assert_eq!(pool, vec!['a', 'd', 'c', 'b']);
    assert!(remove_item(&mut pool, 'b'));
    assert_eq!(pool, vec!['a', 'd', 'c']);
    assert!(!remove_item(&mut pool, 'b'));
    assert_eq!(pool, vec!['a', 'd', 'c']);
    assert!(remove_item(&mut pool, 'c'));
    assert_eq!(pool, vec!['a', 'd']);
    let mut empty: Vec<char> = Vec::new();
    assert!(!remove_item(&mut empty, 'x'));
    assert!(empty.is_empty());
}

#[test]
fn merge_takes_the_greater_code() {
    assert!(RES_DEFAULT < RES_WRONG && RES_WRONG < RES_PRESENT && RES_PRESENT < RES_CORRECT);
    assert_eq!(merge(RES_WRONG, RES_PRESENT), RES_PRESENT);
    assert_eq!(merge(RES_CORRECT, RES_WRONG), RES_CORRECT);
    assert_eq!(merge(RES_DEFAULT, RES_DEFAULT), RES_DEFAULT);
    assert_eq!(merge(RES_PRESENT, RES_PRESENT), RES_PRESENT);
}

#[test]
fn all_correct_needs_every_position() {
    assert!(is_all_correct(&[RES_CORRECT; 5]));
    for i in 0..5 {
        let mut marks = [RES_CORRECT; 5];
        marks[i] = RES_PRESENT;
        assert!(!is_all_correct(&marks));
    }
}
