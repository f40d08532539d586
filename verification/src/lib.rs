//! A player for the game in which a hidden five-letter word is guessed from
//! clues, in hard mode: every guess is a word that the clues so far allow.
//!
//! - [`setter`] scores a guess against the hidden word.
//! - [`lists`] narrows a list of words to those that a clue vector allows.
//! - [`solver`] keeps the candidates and picks each next guess.
//! - [`game`] plays whole games and states what holds of them.
//! - [`words`] and [`lexicon`] hold the words of the game.

pub mod game;
pub mod lexicon;
pub mod lists;
pub mod setter;
pub mod solver;
pub mod words;
