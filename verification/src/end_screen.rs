//! The screen shown once a match is over: a message, drawn at random from the
//! list for a win or the list for a loss, in the colour of the outcome.

use vstd::prelude::*;
use crate::random::index_below;
use crate::rules::{Score, Tally, WINNING_SCORE, reset_score};

verus! {

/// Number of messages that greet a win.
pub const NUM_WIN_MESSAGES: usize = 8;

/// Number of messages that greet a loss.
pub const NUM_LOSS_MESSAGES: usize = 8;

/// The messages that greet a win, in order.
pub open spec fn win_messages() -> Seq<Seq<char>> {
    seq![
        "You Win"@,
        "Easy Dubs"@,
        "Aura Farmed"@,
        "A+"@,
        "Slaughtered"@,
        "Veni, Vidi, Vici"@,
        "Easy Mode"@,
        "You Ate That"@,
    ]
}

/// The messages that greet a loss, in order.
pub open spec fn loss_messages() -> Seq<Seq<char>> {
    seq![
        "Game Over"@,
        "Wops Moment"@,
        "Major L"@,
        "Rigged!"@,
        "Skill Issue"@,
        "Forgot Keybinds"@,
        "It Glitched!"@,
        "Couldn't Count to 10"@,
    ]
}

/// A colour given by its 8-bit sRGB channels.
#[derive(Clone, Copy, Debug, PartialEq, Eq, Structural)]
pub struct Rgb {
    pub r: u8,
    pub g: u8,
    pub b: u8,
}

/// The colour of a win message (the paddles' colour).
pub open spec fn win_color() -> Rgb {
    Rgb { r: 0x73, g: 0xee, b: 0xdc }
}

/// The colour of a loss message (the ball's colour).
pub open spec fn loss_color() -> Rgb {
    Rgb { r: 0xf7, g: 0x25, b: 0x85 }
}

/// What the end screen shows.
#[derive(Clone, Copy, Debug)]
pub struct EndScreen {
    pub message: &'static str,
    pub color: Rgb,
    pub player_won: bool,
}

/// The player won a match that ended on `final_score` when the player is
/// ahead: a match ends when one side reaches the winning score, and that side
/// is then ahead.
pub open spec fn player_won(final_score: Tally) -> bool {
    final_score.0 > final_score.1
}

/// `screen` is the end screen of a match that ended on `final_score`, with
/// message number `pick` of the list for its outcome.
pub open spec fn shows_outcome(screen: EndScreen, final_score: Tally, pick: int) -> bool {
    &&& screen.player_won == player_won(final_score)
    &&& screen.player_won ==> screen.message@ == win_messages()[pick] && screen.color
        == win_color()
    &&& !screen.player_won ==> screen.message@ == loss_messages()[pick] && screen.color
        == loss_color()
}

/// The end screen is a win exactly when the player finished with more points
/// than the computer, and then it shows a win message in the win colour; a
/// loss shows a loss message in the loss colour. In particular, a match that
/// the computer decided by reaching the winning score first is a loss, and one
/// that the player decided is a win.
pub proof fn lemma_outcome_follows_score(screen: EndScreen, final_score: Tally, pick: int)
    requires
        0 <= pick < NUM_WIN_MESSAGES,
        shows_outcome(screen, final_score, pick),
    ensures
        screen.player_won <==> final_score.0 > final_score.1,
        final_score.0 > final_score.1 ==> win_messages().contains(screen.message@)
            && screen.color == (Rgb { r: 0x73, g: 0xee, b: 0xdc }),
        final_score.0 <= final_score.1 ==> loss_messages().contains(screen.message@)
            && screen.color == (Rgb { r: 0xf7, g: 0x25, b: 0x85 }),
        final_score.1 == WINNING_SCORE && final_score.0 < WINNING_SCORE ==> !screen.player_won,
        final_score.0 == WINNING_SCORE && final_score.1 < WINNING_SCORE ==> screen.player_won,
{
    if final_score.0 > final_score.1 {
        assert(win_messages()[pick] == screen.message@);
    } else {
        assert(loss_messages()[pick] == screen.message@);
    }
}

/// Win message number `index`.
pub fn win_message(index: usize) -> (message: &'static str)
    requires
        index < NUM_WIN_MESSAGES,
    ensures
        message@ == win_messages()[index as int],
{
    if index == 0 {
        "You Win"
    } else if index == 1 {
        "Easy Dubs"
    } else if index == 2 {
        "Aura Farmed"
    } else if index == 3 {
        "A+"
    } else if index == 4 {
        "Slaughtered"
    } else if index == 5 {
        "Veni, Vidi, Vici"
    } else if index == 6 {
        "Easy Mode"
    } else {
        "You Ate That"
    }
}

/// Loss message number `index`.
pub fn loss_message(index: usize) -> (message: &'static str)
    requires
        index < NUM_LOSS_MESSAGES,
    ensures
        message@ == loss_messages()[index as int],
{
    if index == 0 {
        "Game Over"
    } else if index == 1 {
        "Wops Moment"
    } else if index == 2 {
        "Major L"
    } else if index == 3 {
        "Rigged!"
    } else if index == 4 {
        "Skill Issue"
    } else if index == 5 {
        "Forgot Keybinds"
    } else if index == 6 {
        "It Glitched!"
    } else {
        "Couldn't Count to 10"
    }
}

/// The end screen of a match that ended on `score`, showing message number
/// `pick` of the list for its outcome: the player won when the player is
/// ahead.
pub fn end_screen(score: &Score, pick: usize) -> (screen: EndScreen)
    requires
        pick < NUM_WIN_MESSAGES,
        pick < NUM_LOSS_MESSAGES,
    ensures
        shows_outcome(screen, score@, pick as int),
{
    if score.player > score.ai {
        EndScreen {
            message: win_message(pick),
            color: Rgb { r: 0x73, g: 0xee, b: 0xdc },
            player_won: true,
        }
    } else {
        EndScreen {
            message: loss_message(pick),
            color: Rgb { r: 0xf7, g: 0x25, b: 0x85 },
            player_won: false,
        }
    }
}

/// Closes a match: picks the end screen for the final `score`, with a message
/// drawn from `rng`, and sets the score back to nil-nil for the next match.
pub fn spawn_end(score: &mut Score, rng: &mut fastrand::Rng) -> (screen: EndScreen)
    ensures
        exists|pick: int|
            0 <= pick < NUM_WIN_MESSAGES && #[trigger] shows_outcome(
                screen,
                old(score)@,
                pick,
            ),
        final(score)@ == (0nat, 0nat),
{
    let pick = if score.player > score.ai {
        index_below(rng, NUM_WIN_MESSAGES)
    } else {
        index_below(rng, NUM_LOSS_MESSAGES)
    };
    let screen = end_screen(score, pick);
    reset_score(score);
    screen
}

} // verus!
