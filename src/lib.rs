//! Card, deck and game-session state for a terminal dungeon-crawl solitaire.

pub mod card;
pub mod deck;
pub mod app;
