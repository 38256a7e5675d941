//! A word-guessing game: the secret word is drawn from a comma-separated word
//! list, split into cells, and uncovered one guessed character at a time until
//! every cell shows or the wrong guesses run out.

pub mod game;
pub mod puzzle;
pub mod text;
pub mod words;
