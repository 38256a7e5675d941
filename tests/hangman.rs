use hangman::game::{
    closing_message, guess_from_line, outcome_message, Game, ALLOWED_ATTEMPTS, QUIT,
};
use hangman::puzzle::{check_progress, progress_line, reveal_matches, GameProgress, Letter};
use hangman::words::{select_word, split_candidates, word_candidates};

fn cell(value: char, is_revealed: bool) -> Letter {
    Letter { value, is_revealed }
}

#[test]
fn from_string_builds_unrevealed_cells_in_order() {
    let letters = Letter::from_string(&String::from("apple"));
    assert_eq!(letters.len(), 5);
    let values: Vec<char> = letters.iter().map(|l| l.value).collect();
    assert_eq!(values, vec!['a', 'p', 'p', 'l', 'e']);
    assert!(letters.iter().all(|l| !l.is_revealed));
}

#[test]
fn from_string_of_empty_word_is_empty() {
    assert!(Letter::from_string(&String::new()).is_empty());
}

#[test]
fn from_string_keeps_spaces_and_punctuation() {
    let letters = Letter::from_string(&String::from("a b!"));
    let values: Vec<char> = letters.iter().map(|l| l.value).collect();
    assert_eq!(values, vec!['a', ' ', 'b', '!']);
}

#[test]
fn reveal_marks_every_matching_cell_and_nothing_else() {
    let mut letters = Letter::from_string(&String::from("banana"));
    let hit = reveal_matches(&mut letters, 'a');
    assert!(hit);
    let shown: Vec<bool> = letters.iter().map(|l| l.is_revealed).collect();
    assert_eq!(shown, vec![false, true, false, true, false, true]);
}

#[test]
fn reveal_of_absent_character_is_a_miss() {
    let mut letters = Letter::from_string(&String::from("cat"));
    let before = letters.clone();
    assert!(!reveal_matches(&mut letters, 'z'));
    assert_eq!(letters, before);
}

#[test]
fn repeating_a_correct_guess_changes_nothing_and_costs_nothing() {
    let mut game = Game::new(String::from("cat"));
    assert_eq!(game.play_turn('a'), Some(GameProgress::InProgress));
    let letters = game.letters.clone();
    assert_eq!(game.play_turn('a'), Some(GameProgress::InProgress));
    assert_eq!(game.letters, letters);
    assert_eq!(game.attempts_left, ALLOWED_ATTEMPTS);
    assert!(game.letters[1].is_revealed);
}

#[test]
fn no_attempts_left_is_lost_even_when_all_revealed() {
    let all = vec![cell('c', true), cell('a', true)];
    let none = vec![cell('c', false), cell('a', false)];
    assert_eq!(check_progress(0, &all), GameProgress::Lost);
    assert_eq!(check_progress(0, &none), GameProgress::Lost);
    assert_eq!(check_progress(0, &Vec::new()), GameProgress::Lost);
}

#[test]
fn attempts_left_and_all_revealed_is_won() {
    let all = vec![cell('c', true), cell('a', true)];
    assert_eq!(check_progress(1, &all), GameProgress::Won);
    assert_eq!(check_progress(5, &Vec::new()), GameProgress::Won);
}

#[test]
fn attempts_left_and_one_hidden_is_in_progress() {
    let some = vec![cell('c', true), cell('a', false)];
    assert_eq!(check_progress(3, &some), GameProgress::InProgress);
}

#[test]
fn progress_line_shows_revealed_and_hidden_cells() {
    let letters = vec![cell('c', true), cell('a', false), cell('t', true)];
    assert_eq!(progress_line(&letters), "Progress: c  _  t ");
    assert_eq!(progress_line(&Vec::new()), "Progress:");
}

#[test]
fn split_keeps_empty_pieces() {
    assert_eq!(split_candidates("apple,banana,cherry"), vec!["apple", "banana", "cherry"]);
    assert_eq!(split_candidates(""), vec![""]);
    assert_eq!(split_candidates(",a,"), vec!["", "a", ""]);
    assert_eq!(split_candidates(" a , b"), vec![" a ", " b"]);
}

#[test]
fn candidates_trim_the_whole_contents_only() {
    assert_eq!(word_candidates("  apple, banana\n"), vec!["apple", " banana"]);
    assert_eq!(word_candidates("\n"), vec![""]);
}

#[test]
fn select_word_picks_one_candidate() {
    let word = select_word("apple,banana,cherry\n");
    assert!(["apple", "banana", "cherry"].contains(&word.as_str()));
}

#[test]
fn guess_is_first_character_of_line() {
    assert_eq!(guess_from_line(Some("cat\n")), 'c');
    assert_eq!(guess_from_line(Some("*\n")), QUIT);
    assert_eq!(guess_from_line(Some("\n")), '\n');
    assert_eq!(guess_from_line(Some("")), QUIT);
    assert_eq!(guess_from_line(None), QUIT);
}

#[test]
fn outcome_messages() {
    assert_eq!(outcome_message(GameProgress::Won), Some("\nCongrats, you have won!"));
    assert_eq!(outcome_message(GameProgress::Lost), Some("\nSorry, you have lost..."));
    assert_eq!(outcome_message(GameProgress::InProgress), None);
}

#[test]
fn single_candidate_game_is_won_by_three_correct_guesses() {
    let word = select_word("cat");
    assert_eq!(word, "cat");
    let mut game = Game::new(word);
    assert_eq!(game.play_turn('c'), Some(GameProgress::InProgress));
    assert_eq!(game.play_turn('a'), Some(GameProgress::InProgress));
    assert_eq!(game.play_turn('t'), Some(GameProgress::Won));
    assert_eq!(progress_line(&game.letters), "Progress: c  a  t ");
    assert_eq!(game.attempts_left, ALLOWED_ATTEMPTS);
}

#[test]
fn five_misses_lose_the_game() {
    let mut game = Game::new(String::from("cat"));
    assert_eq!(game.attempts_left, 5);
    let misses = ['z', 'x', 'y', 'q'];
    for m in misses {
        assert_eq!(game.play_turn(m), Some(GameProgress::InProgress));
    }
    assert_eq!(game.play_turn('w'), Some(GameProgress::Lost));
    assert_eq!(game.attempts_left, 0);
    assert_eq!(closing_message(&game.word), "The word was 'cat'\n\nGoodbye");
}

#[test]
fn empty_first_line_quits_at_once() {
    let mut game = Game::new(String::from("cat"));
    let guess = guess_from_line(Some(""));
    assert_eq!(game.play_turn(guess), None);
    assert_eq!(game.attempts_left, ALLOWED_ATTEMPTS);
    assert!(game.letters.iter().all(|l| !l.is_revealed));
    assert!(closing_message(&game.word).starts_with("The word was 'cat'"));
}
