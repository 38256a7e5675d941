use vstd::prelude::*;
use vstd::string::StrSliceExecFns;
use vstd::string::StringExecFns;
use crate::text::push_char;

verus! {

/// One position of the secret word: its character and whether it has been guessed.
#[derive(Debug, Clone, Copy, PartialEq, Eq, Structural)]
pub struct Letter {
    pub value: char,
    pub is_revealed: bool,
}

/// A fresh cell holding `c`, not yet revealed.
pub open spec fn unrevealed(c: char) -> Letter {
    Letter { value: c, is_revealed: false }
}

/// The puzzle for `word`: one unrevealed cell per character, in order.
pub open spec fn cells_of(word: Seq<char>) -> Seq<Letter> {
    Seq::new(word.len(), |i: int| unrevealed(word[i]))
}

/// Where a game stands after a turn.
#[derive(Debug, Clone, Copy, PartialEq, Eq, Structural)]
pub enum GameProgress {
    InProgress,
    Won,
    Lost,
}

/// Every cell has been revealed.
pub open spec fn all_revealed(cells: Seq<Letter>) -> bool {
    forall|i: int| 0 <= i < cells.len() ==> (#[trigger] cells[i]).is_revealed
}

/// The outcome for `attempts` wrong guesses left on `cells`; running out of
/// attempts is checked first, so it wins over a fully revealed word.
pub open spec fn evaluate(attempts: int, cells: Seq<Letter>) -> GameProgress {
    if attempts <= 0 {
        GameProgress::Lost
    } else if all_revealed(cells) {
        GameProgress::Won
    } else {
        GameProgress::InProgress
    }
}

/// `cell` after `guess`: revealed if it holds that character, unchanged otherwise.
pub open spec fn guessed_cell(cell: Letter, guess: char) -> Letter {
    if cell.value == guess {
        Letter { value: cell.value, is_revealed: true }
    } else {
        cell
    }
}

/// The cells after `guess` has been applied to each of them.
pub open spec fn after_guess(cells: Seq<Letter>, guess: char) -> Seq<Letter> {
    Seq::new(cells.len(), |i: int| guessed_cell(cells[i], guess))
}

/// Some cell holds `guess`, revealed or not.
pub open spec fn has_match(cells: Seq<Letter>, guess: char) -> bool {
    exists|i: int| 0 <= i < cells.len() && (#[trigger] cells[i]).value == guess
}

/// How a cell is drawn: its character once revealed, `_` before.
pub open spec fn shown(cell: Letter) -> char {
    if cell.is_revealed {
        cell.value
    } else {
        '_'
    }
}

/// Each cell drawn between two spaces, in order.
pub open spec fn rendered(cells: Seq<Letter>) -> Seq<char>
    decreases cells.len(),
{
    if cells.len() == 0 {
        Seq::empty()
    } else {
        rendered(cells.drop_last()) + seq![' ', shown(cells.last()), ' ']
    }
}

/// The line that shows the player how far the word has been uncovered.
pub open spec fn progress_text(cells: Seq<Letter>) -> Seq<char> {
    "Progress:"@ + rendered(cells)
}

/// Reveals every cell that holds `guess`; returns whether any cell holds it,
/// including cells that were revealed already.
pub fn reveal_matches(letters: &mut Vec<Letter>, guess: char) -> (hit: bool)
    ensures
        final(letters)@ == after_guess(old(letters)@, guess),
        hit == has_match(old(letters)@, guess),
        final(letters)@.len() == old(letters)@.len(),
        forall|i: int|
            0 <= i < final(letters)@.len() && (#[trigger] final(letters)@[i]).value == guess
                ==> final(letters)@[i].is_revealed,
        forall|i: int|
            0 <= i < old(letters)@.len() && (#[trigger] old(letters)@[i]).value != guess
                ==> final(letters)@[i] == old(letters)@[i],
{
    let ghost start = letters@;
    let n = letters.len();
    let mut hit = false;
    let mut i: usize = 0;
    while i < n
        invariant
            n == start.len(),
            i <= n,
            letters@.len() == n,
            forall|j: int| 0 <= j < i ==> #[trigger] letters@[j] == guessed_cell(start[j], guess),
            forall|j: int| i <= j < n ==> #[trigger] letters@[j] == start[j],
            hit == exists|j: int| 0 <= j < i && (#[trigger] start[j]).value == guess,
        decreases n - i,
    {
        if letters[i].value == guess {
            let cell = Letter { value: letters[i].value, is_revealed: true };
            letters.set(i, cell);
            hit = true;
        }
        i = i + 1;
    }
    assert(letters@ =~= after_guess(start, guess));
    hit
}

/// Whether the game is won, lost or still going with `turns_left` wrong
/// guesses to spare.
pub fn check_progress(turns_left: u8, letters: &Vec<Letter>) -> (r: GameProgress)
    ensures
        r == evaluate(turns_left as int, letters@),
        turns_left == 0 ==> r == GameProgress::Lost,
        turns_left > 0 ==> (r == GameProgress::Won <==> all_revealed(letters@)),
        r == GameProgress::InProgress <==> (turns_left > 0 && !all_revealed(letters@)),
{
    if turns_left == 0 {
        return GameProgress::Lost;
    }
    let mut all = true;
    let mut i: usize = 0;
    while i < letters.len()
        invariant
            i <= letters@.len(),
            all == forall|j: int| 0 <= j < i ==> (#[trigger] letters@[j]).is_revealed,
        decreases letters@.len() - i,
    {
        if !letters[i].is_revealed {
            all = false;
        }
        i = i + 1;
    }
    if all {
        GameProgress::Won
    } else {
        GameProgress::InProgress
    }
}

/// The progress line: `Progress:` then each cell between two spaces, `_`
/// for a cell not yet revealed.
pub fn progress_line(letters: &Vec<Letter>) -> (line: String)
    ensures
        line@ == progress_text(letters@),
{
    let mut line = String::from_str("Progress:");
    let mut i: usize = 0;
    while i < letters.len()
        invariant
            i <= letters@.len(),
            line@ == "Progress:"@ + rendered(letters@.take(i as int)),
        decreases letters@.len() - i,
    {
        let cell = letters[i];
        push_char(&mut line, ' ');
        if cell.is_revealed {
            push_char(&mut line, cell.value);
        } else {
            push_char(&mut line, '_');
        }
        push_char(&mut line, ' ');
        proof {
            assert(letters@.take(i + 1).drop_last() =~= letters@.take(i as int));
        }
        i = i + 1;
    }
    assert(letters@.take(i as int) =~= letters@);
    line
}

impl Letter {
    /// Splits `word` into its cells, none of them revealed yet.
    pub fn from_string(word: &String) -> (letters: Vec<Letter>)
        ensures
            letters@ == cells_of(word@),
    {
        let text = word.as_str();
        let n = text.unicode_len();
        let mut letters: Vec<Letter> = Vec::new();
        let mut i: usize = 0;
        while i < n
            invariant
                text@ == word@,
                n == word@.len(),
                i <= n,
                letters@.len() == i,
                forall|j: int| 0 <= j < i ==> #[trigger] letters@[j] == unrevealed(word@[j]),
            decreases n - i,
        {
            letters.push(Letter { value: text.get_char(i), is_revealed: false });
            i = i + 1;
        }
        assert(letters@ =~= cells_of(word@));
        letters
    }
}

} // verus!
