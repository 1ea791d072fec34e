//! Game logic of a terminal "Simon says" memory game: the four coloured
//! buttons, the menus and their selection cursor, the pattern that the game
//! shows and the player repeats, the high-score table, and the decisions that
//! the event loop takes on each key press, mouse event and clock tick.

pub mod colors;
pub mod game;
pub mod menu;
pub mod scores;
pub mod selection;
pub mod simon;
pub mod text;

pub use colors::Colors;
pub use game::{Area, GameMode, GameState, Key};
pub use menu::{AppState, MenuItem, MenuList, Scene};
pub use scores::{ScoreItem, ScoreList, ScoreState};
pub use selection::ListSelection;
pub use simon::{MouseAction, Simon};
