use vstd::prelude::*;
use vstd::string::StrSliceExecFns;
use vstd::string::StringExecFns;
use crate::puzzle::{
    after_guess, check_progress, evaluate, guessed_cell, has_match, reveal_matches, cells_of,
    GameProgress, Letter,
};

verus! {

/// Wrong guesses a player may make in one game.
pub const ALLOWED_ATTEMPTS: u8 = 5;

/// The guess that ends the game at once, with no winner.
pub const QUIT: char = '*';

/// Wrong guesses left after `guess`: one fewer when no cell holds it.
pub open spec fn attempts_after(attempts: int, cells: Seq<Letter>, guess: char) -> int {
    if has_match(cells, guess) {
        attempts
    } else {
        attempts - 1
    }
}

/// The guess read from one line of input: its first character, or the quit
/// guess when the line is empty or could not be read.
pub open spec fn guess_of(line: Option<Seq<char>>) -> char {
    match line {
        Some(l) => if l.len() > 0 {
            l[0]
        } else {
            QUIT
        },
        None => QUIT,
    }
}

/// One game: the secret word, its cells and the wrong guesses left.
pub struct Game {
    pub word: String,
    pub letters: Vec<Letter>,
    pub attempts_left: u8,
}

impl Game {
    /// The cells spell the secret word, in order.
    pub open spec fn wf(&self) -> bool {
        &&& self.letters@.len() == self.word@.len()
        &&& forall|i: int|
            0 <= i < self.letters@.len() ==> (#[trigger] self.letters@[i]).value == self.word@[i]
    }

    /// Starts a game on `word`, with nothing revealed and every attempt left.
    pub fn new(word: String) -> (game: Game)
        ensures
            game.wf(),
            game.word@ == word@,
            game.letters@ == cells_of(word@),
            game.attempts_left == ALLOWED_ATTEMPTS,
    {
        let letters = Letter::from_string(&word);
        Game { word, letters, attempts_left: ALLOWED_ATTEMPTS }
    }

    /// Plays one guess. The quit guess ends the game with no outcome and no
    /// change. Any other guess reveals the cells that hold it, costs an
    /// attempt when none does, and gives the progress that follows.
    pub fn play_turn(&mut self, guess: char) -> (r: Option<GameProgress>)
        requires
            old(self).wf(),
            old(self).attempts_left > 0,
        ensures
            final(self).wf(),
            final(self).word@ == old(self).word@,
            guess == QUIT ==> r is None && final(self).letters@ == old(self).letters@
                && final(self).attempts_left == old(self).attempts_left,
            guess != QUIT ==> {
                &&& final(self).letters@ == after_guess(old(self).letters@, guess)
                &&& final(self).attempts_left == attempts_after(
                    old(self).attempts_left as int,
                    old(self).letters@,
                    guess,
                )
                &&& r == Some(evaluate(final(self).attempts_left as int, final(self).letters@))
            },
    {
        if guess == QUIT {
            return None;
        }
        let hit = reveal_matches(&mut self.letters, guess);
        if !hit {
            self.attempts_left = self.attempts_left - 1;
        }
        assert forall|i: int| 0 <= i < self.letters@.len() implies (
        #[trigger] self.letters@[i]).value == self.word@[i] by {
            assert(self.letters@[i] == guessed_cell(old(self).letters@[i], guess));
        }
        Some(check_progress(self.attempts_left, &self.letters))
    }
}

/// Reads a guess from one line of input; `None` stands for a line that could
/// not be read.
pub fn guess_from_line(line: Option<&str>) -> (guess: char)
    ensures
        guess == guess_of(
            match line {
                Some(l) => Some(l@),
                None => None,
            },
        ),
{
    match line {
        Some(l) => {
            if l.unicode_len() > 0 {
                l.get_char(0)
            } else {
                QUIT
            }
        },
        None => QUIT,
    }
}

/// The message shown when a game ends with an outcome; none while it goes on.
pub fn outcome_message(progress: GameProgress) -> (msg: Option<&'static str>)
    ensures
        progress == GameProgress::InProgress ==> msg is None,
        progress == GameProgress::Won ==> msg is Some && msg->0@ == "\nCongrats, you have won!"@,
        progress == GameProgress::Lost ==> msg is Some && msg->0@ == "\nSorry, you have lost..."@,
{
    match progress {
        GameProgress::InProgress => None,
        GameProgress::Won => Some("\nCongrats, you have won!"),
        GameProgress::Lost => Some("\nSorry, you have lost..."),
    }
}

/// The words shown after every game, whatever its end: the secret word, then
/// a goodbye.
pub fn closing_message(word: &str) -> (msg: String)
    ensures
        msg@ == "The word was '"@ + word@ + "'\n\nGoodbye"@,
{
    let mut msg = String::from_str("The word was '");
    msg.append(word);
    msg.append("'\n\nGoodbye");
    msg
}

/// Guessing a character that the word holds a second time changes no cell
/// and costs no attempt: the first guess already revealed every cell holding
/// it, and those cells still count as a match.
pub proof fn lemma_repeat_correct_guess(cells: Seq<Letter>, guess: char, attempts: int)
    requires
        has_match(cells, guess),
    ensures
        forall|i: int|
            0 <= i < cells.len() && (#[trigger] cells[i]).is_revealed ==> after_guess(
                cells,
                guess,
            )[i].is_revealed,
        after_guess(after_guess(cells, guess), guess) == after_guess(cells, guess),
        attempts_after(attempts, cells, guess) == attempts,
        attempts_after(attempts, after_guess(cells, guess), guess) == attempts,
{
    let once = after_guess(cells, guess);
    let i = choose|i: int| 0 <= i < cells.len() && (#[trigger] cells[i]).value == guess;
    assert(once[i].value == guess);
    assert(after_guess(once, guess) =~= once);
}

} // verus!
