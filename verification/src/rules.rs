//! The match: its states, the score, and the rules that end it.

use vstd::prelude::*;

verus! {

/// Points a side needs to win the match: the first to reach it wins.
pub const WINNING_SCORE: u8 = 5;

/// The screen the game shows.
#[derive(Clone, Copy, Debug, PartialEq, Eq, Structural)]
pub enum GameState {
    Menu,
    Playing,
    End,
}

/// One of the two sides of the court: the human player or the computer.
#[derive(Clone, Copy, Debug, PartialEq, Eq, Structural)]
pub enum Side {
    Player,
    Ai,
}

/// The other side of the court.
pub open spec fn opponent(side: Side) -> Side {
    match side {
        Side::Player => Side::Ai,
        Side::Ai => Side::Player,
    }
}

/// Points scored by each side in the current match.
#[derive(Clone, Copy, Debug, PartialEq, Eq, Structural)]
pub struct Score {
    pub player: u8,
    pub ai: u8,
}

/// A tally of points: the player's, then the computer's.
pub type Tally = (nat, nat);

impl View for Score {
    type V = Tally;

    open spec fn view(&self) -> Tally {
        (self.player as nat, self.ai as nat)
    }
}

/// The points of `side` in a tally.
pub open spec fn points(tally: Tally, side: Side) -> nat {
    match side {
        Side::Player => tally.0,
        Side::Ai => tally.1,
    }
}

/// The tally once `scorer` has scored one more point.
pub open spec fn credit(tally: Tally, scorer: Side) -> Tally {
    match scorer {
        Side::Player => (tally.0 + 1, tally.1),
        Side::Ai => (tally.0, tally.1 + 1),
    }
}

/// The match is over once a side has exactly the winning score.
pub open spec fn decided(tally: Tally) -> bool {
    tally.0 == WINNING_SCORE || tally.1 == WINNING_SCORE
}

/// The tally of a match that starts at nil-nil and in which the points go to
/// the sides in `goals`, in order.
pub open spec fn replay(goals: Seq<Side>) -> Tally
    decreases goals.len(),
{
    if goals.len() == 0 {
        (0, 0)
    } else {
        credit(replay(goals.drop_last()), goals.last())
    }
}

impl Score {
    /// The score of a match that has not started: nil-nil.
    pub fn new() -> (score: Score)
        ensures
            score@ == (0nat, 0nat),
    {
        Score { player: 0, ai: 0 }
    }

    /// The points of one side.
    pub fn points_of(&self, side: Side) -> (p: u8)
        ensures
            p == points(self@, side),
    {
        match side {
            Side::Player => self.player,
            Side::Ai => self.ai,
        }
    }
}

/// Credits `scorer` with a point and tells whether the match is now over,
/// that is whether a side has reached the winning score.
pub fn update_score(score: &mut Score, scorer: Side) -> (over: bool)
    requires
        points(old(score)@, scorer) < u8::MAX,
    ensures
        final(score)@ == credit(old(score)@, scorer),
        over == decided(final(score)@),
{
    match scorer {
        Side::Ai => {
            score.ai = score.ai + 1;
        },
        Side::Player => {
            score.player = score.player + 1;
        },
    }
    score.ai == WINNING_SCORE || score.player == WINNING_SCORE
}

/// Sets the score back to nil-nil.
pub fn reset_score(score: &mut Score)
    ensures
        final(score)@ == (0nat, 0nat),
{
    score.player = 0;
    score.ai = 0;
}

/// How a start button reacted to the pointer in one frame.
#[derive(Clone, Copy, Debug, PartialEq, Eq, Structural)]
pub enum ButtonState {
    Pressed,
    Hovered,
    Untouched,
}

/// The start button is only shown, and only listened to, on the menu and on
/// the end screen.
pub open spec fn shows_start_button(state: GameState) -> bool {
    state == GameState::Menu || state == GameState::End
}

/// The state to switch to after the start buttons changed as `changes` says:
/// a new match starts when one of them was pressed on a screen that shows it.
pub fn handle_start_button(state: GameState, changes: &Vec<ButtonState>) -> (next: Option<
    GameState,
>)
    ensures
        next == (if shows_start_button(state) && changes@.contains(ButtonState::Pressed) {
            Some(GameState::Playing)
        } else {
            None::<GameState>
        }),
{
    if !(state == GameState::Menu || state == GameState::End) {
        return None;
    }
    let mut next: Option<GameState> = None;
    let n: usize = changes.len();
    for i in 0..n
        invariant
            n == changes@.len(),
            shows_start_button(state),
            next == (if (exists|j: int| 0 <= j < i && changes@[j] == ButtonState::Pressed) {
                Some(GameState::Playing)
            } else {
                None::<GameState>
            }),
    {
        if changes[i] == ButtonState::Pressed {
            next = Some(GameState::Playing);
        }
    }
    proof {
        if changes@.contains(ButtonState::Pressed) {
            let j = choose|j: int| 0 <= j < changes@.len() && changes@[j] == ButtonState::Pressed;
            assert(0 <= j < n && changes@[j] == ButtonState::Pressed);
        }
    }
    next
}

/// Every goal of a replay is one point: the two tallies add up to the number
/// of goals.
proof fn lemma_points_count_goals(goals: Seq<Side>)
    ensures
        replay(goals).0 + replay(goals).1 == goals.len(),
    decreases goals.len(),
{
    if goals.len() > 0 {
        lemma_points_count_goals(goals.drop_last());
    }
}

/// While no prefix of the goals (up to the first `n`) has decided the match,
/// both sides stay below the winning score.
proof fn lemma_undecided_below_winning(goals: Seq<Side>, n: int)
    requires
        0 <= n <= goals.len(),
        forall|k: int| 0 < k <= n ==> !decided(#[trigger] replay(goals.take(k))),
    ensures
        replay(goals.take(n)).0 < WINNING_SCORE,
        replay(goals.take(n)).1 < WINNING_SCORE,
    decreases n,
{
    if n > 0 {
        lemma_undecided_below_winning(goals, n - 1);
        assert(goals.take(n).drop_last() =~= goals.take(n - 1));
        assert(!decided(replay(goals.take(n))));
    }
}

/// First to the winning score wins: when a match that starts at nil-nil is
/// decided by its last goal and by no earlier one, the side that scored that
/// goal has exactly the winning score and the other side has less.
pub proof fn lemma_first_to_winning_score_wins(goals: Seq<Side>)
    requires
        goals.len() > 0,
        forall|k: int| 0 < k < goals.len() ==> !decided(#[trigger] replay(goals.take(k))),
        decided(replay(goals)),
    ensures
        points(replay(goals), goals.last()) == WINNING_SCORE,
        points(replay(goals), opponent(goals.last())) < WINNING_SCORE,
{
    let n = goals.len() - 1;
    lemma_undecided_below_winning(goals, n);
    assert(goals.take(n) =~= goals.drop_last());
}

/// A match cannot go on for ever: within twice the winning score less one
/// goals, some goal decides it.
pub proof fn lemma_match_is_decided_in_time(goals: Seq<Side>)
    requires
        goals.len() == 2 * WINNING_SCORE - 1,
    ensures
        exists|k: int| 0 < k <= goals.len() && decided(#[trigger] replay(goals.take(k))),
{
    if !(exists|k: int| 0 < k <= goals.len() && decided(#[trigger] replay(goals.take(k)))) {
        lemma_undecided_below_winning(goals, goals.len() as int);
        assert(goals.take(goals.len() as int) =~= goals);
        lemma_points_count_goals(goals);
        assert(false);
    }
}

/// One call of `update_score` per goal, from nil-nil, keeps the score equal to
/// the replay of the goals so far.
pub proof fn lemma_update_score_follows_replay(goals: Seq<Side>, scorer: Side)
    ensures
        credit(replay(goals), scorer) == replay(goals.push(scorer)),
{
    assert(goals.push(scorer).drop_last() =~= goals);
}

} // verus!
