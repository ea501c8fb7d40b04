//! Rules and decisions of a game of Pong against a computer opponent: the
//! match and its score, the end screen, the decisions taken on the court, the
//! opponent's reaction timer and the scoreboard's text.

pub mod clock;
pub mod court;
pub mod end_screen;
pub mod random;
pub mod rules;
pub mod scoreboard;
