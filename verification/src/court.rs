//! Decisions on the court: which side of a wall the ball touched, how it
//! bounces, how the paddles are kept in bounds, when a goal is scored, how the
//! paddles are steered and where the ball is served.
//!
//! The positions and speeds themselves are floating-point values; what is
//! decided here is taken from, and handed back as, signs and comparisons.

use vstd::prelude::*;
use crate::random::coin_flip;
use crate::rules::Side;

verus! {

/// The side of a wall on which the ball (or a paddle) touched it.
#[derive(Clone, Copy, Debug, PartialEq, Eq, Structural)]
pub enum Collision {
    Left,
    Right,
    Top,
    Bottom,
}

/// What is known of two boxes that may overlap, from their float geometry:
/// whether they intersect, and how the centre of the first box lies relative
/// to the point of the second box closest to it.
#[derive(Clone, Copy, Debug, PartialEq, Eq, Structural)]
pub struct Contact {
    /// The two boxes intersect.
    pub intersects: bool,
    /// The horizontal offset is larger in magnitude than the vertical one.
    pub horizontal: bool,
    /// The horizontal offset is below zero.
    pub offset_x_negative: bool,
    /// The vertical offset is above zero.
    pub offset_y_positive: bool,
}

/// The side of the second box that the first box touches, if they touch.
pub open spec fn side_of(contact: Contact) -> Option<Collision> {
    if !contact.intersects {
        None
    } else if contact.horizontal {
        if contact.offset_x_negative {
            Some(Collision::Left)
        } else {
            Some(Collision::Right)
        }
    } else if contact.offset_y_positive {
        Some(Collision::Top)
    } else {
        Some(Collision::Bottom)
    }
}

/// Which side of the wall a box touched: none when they do not intersect,
/// else left or right when the offset is mostly horizontal, top or bottom when
/// it is not.
pub fn collide_with_side(contact: Contact) -> (side: Option<Collision>)
    ensures
        side == side_of(contact),
        side is None <==> !contact.intersects,
        side matches Some(s) ==> ((s == Collision::Left || s == Collision::Right)
            <==> contact.horizontal),
{
    if !contact.intersects {
        return None;
    }
    let side = if contact.horizontal {
        if contact.offset_x_negative {
            Collision::Left
        } else {
            Collision::Right
        }
    } else if contact.offset_y_positive {
        Collision::Top
    } else {
        Collision::Bottom
    };
    Some(side)
}

/// An axis of the court.
#[derive(Clone, Copy, Debug, PartialEq, Eq, Structural)]
pub enum Axis {
    X,
    Y,
}

/// A direction along an axis.
#[derive(Clone, Copy, Debug, PartialEq, Eq, Structural)]
pub enum Sign {
    Positive,
    Negative,
}

/// The opposite direction.
pub open spec fn flip(sign: Sign) -> Sign {
    match sign {
        Sign::Positive => Sign::Negative,
        Sign::Negative => Sign::Positive,
    }
}

/// How the ball leaves a wall it hit: along `axis` it is moved to the wall's
/// edge on the `away` side and its speed along that axis points `away`; along
/// the other axis it keeps its direction.
#[derive(Clone, Copy, Debug, PartialEq, Eq, Structural)]
pub struct Bounce {
    pub axis: Axis,
    pub away: Sign,
}

/// The bounce off the given side of a wall.
pub open spec fn bounce_off(side: Collision) -> Bounce {
    match side {
        Collision::Left => Bounce { axis: Axis::X, away: Sign::Negative },
        Collision::Right => Bounce { axis: Axis::X, away: Sign::Positive },
        Collision::Top => Bounce { axis: Axis::Y, away: Sign::Positive },
        Collision::Bottom => Bounce { axis: Axis::Y, away: Sign::Negative },
    }
}

/// How the ball bounces off the side of a wall that it hit.
pub fn bounce(side: Collision) -> (b: Bounce)
    ensures
        b == bounce_off(side),
{
    match side {
        Collision::Left => Bounce { axis: Axis::X, away: Sign::Negative },
        Collision::Right => Bounce { axis: Axis::X, away: Sign::Positive },
        Collision::Top => Bounce { axis: Axis::Y, away: Sign::Positive },
        Collision::Bottom => Bounce { axis: Axis::Y, away: Sign::Negative },
    }
}

/// Opposite sides of a wall send the ball off along the same axis in opposite
/// directions.
pub proof fn lemma_opposite_sides_bounce_opposite()
    ensures
        bounce_off(Collision::Left).axis == bounce_off(Collision::Right).axis,
        bounce_off(Collision::Left).away == flip(bounce_off(Collision::Right).away),
        bounce_off(Collision::Top).axis == bounce_off(Collision::Bottom).axis,
        bounce_off(Collision::Top).away == flip(bounce_off(Collision::Bottom).away),
{
}

/// The side touched follows the offset between the boxes: when the offset is
/// mostly horizontal the box is on the left exactly when the horizontal offset
/// is negative, else on the right, whatever the vertical offset; when it is
/// not, the box is on top exactly when the vertical offset is positive, else
/// at the bottom, whatever the horizontal offset; and there is no side exactly
/// when the boxes do not intersect.
pub proof fn lemma_side_follows_offset(contact: Contact)
    ensures
        side_of(contact) == Some(Collision::Left) <==> contact.intersects && contact.horizontal
            && contact.offset_x_negative,
        side_of(contact) == Some(Collision::Right) <==> contact.intersects && contact.horizontal
            && !contact.offset_x_negative,
        side_of(contact) == Some(Collision::Top) <==> contact.intersects && !contact.horizontal
            && contact.offset_y_positive,
        side_of(contact) == Some(Collision::Bottom) <==> contact.intersects
            && !contact.horizontal && !contact.offset_y_positive,
        side_of(contact) == None::<Collision> <==> !contact.intersects,
{
}

/// A bounce sends the ball away from the wall, on the side where it touched:
/// along the horizontal axis when the offset is mostly horizontal, and then
/// towards negative x exactly when the horizontal offset is negative; along the
/// vertical axis otherwise, and then towards positive y exactly when the
/// vertical offset is positive.
pub proof fn lemma_bounce_follows_offset(contact: Contact)
    requires
        contact.intersects,
    ensures
        side_of(contact) is Some,
        (bounce_off(side_of(contact).unwrap()).axis == Axis::X) == contact.horizontal,
        contact.horizontal ==> ((bounce_off(side_of(contact).unwrap()).away == Sign::Negative)
            == contact.offset_x_negative),
        !contact.horizontal ==> ((bounce_off(side_of(contact).unwrap()).away == Sign::Positive)
            == contact.offset_y_positive),
{
}

/// Where a paddle that touches a gutter is pushed, vertically: above a gutter
/// it touched from the top, below one it touched from the bottom; a touch on
/// the left or right leaves it where it is.
pub fn paddle_push(side: Option<Collision>) -> (push: Option<Sign>)
    ensures
        push == (match side {
            Some(Collision::Top) => Some(Sign::Positive),
            Some(Collision::Bottom) => Some(Sign::Negative),
            _ => None::<Sign>,
        }),
{
    match side {
        Some(Collision::Top) => Some(Sign::Positive),
        Some(Collision::Bottom) => Some(Sign::Negative),
        _ => None,
    }
}

/// The goals scored in one step: the player scores when the ball's right
/// edge has passed the right edge of the window, the computer when it has
/// passed the left edge; in that order.
pub fn detect_goal(past_right_edge: bool, past_left_edge: bool) -> (scorers: Vec<Side>)
    ensures
        scorers@ == (if past_right_edge { seq![Side::Player] } else { Seq::<Side>::empty() }) + (
        if past_left_edge {
            seq![Side::Ai]
        } else {
            Seq::<Side>::empty()
        }),
{
    let mut scorers: Vec<Side> = Vec::new();
    if past_right_edge {
        scorers.push(Side::Player);
    }
    if past_left_edge {
        scorers.push(Side::Ai);
    }
    proof {
        if past_right_edge && past_left_edge {
            assert(scorers@ =~= seq![Side::Player] + seq![Side::Ai]);
        } else if past_right_edge {
            assert(scorers@ =~= seq![Side::Player] + Seq::<Side>::empty());
        } else if past_left_edge {
            assert(scorers@ =~= Seq::<Side>::empty() + seq![Side::Ai]);
        } else {
            assert(scorers@ =~= Seq::<Side>::empty() + Seq::<Side>::empty());
        }
    }
    scorers
}

/// How a paddle moves: up or down at paddle speed, or not at all.
#[derive(Clone, Copy, Debug, PartialEq, Eq, Structural)]
pub enum PaddleMove {
    Up,
    Down,
    Stop,
}

/// The keys that steer the player's paddle, and whether each is held down.
#[derive(Clone, Copy, Debug, PartialEq, Eq, Structural)]
pub struct HeldKeys {
    pub arrow_up: bool,
    pub w: bool,
    pub arrow_down: bool,
    pub s: bool,
}

/// The player's paddle goes up while an up key (arrow or W) is held, else down
/// while a down key (arrow or S) is held, else it stops; up wins over down.
pub fn handle_player_input(keys: HeldKeys) -> (m: PaddleMove)
    ensures
        m == (if keys.arrow_up || keys.w {
            PaddleMove::Up
        } else if keys.arrow_down || keys.s {
            PaddleMove::Down
        } else {
            PaddleMove::Stop
        }),
{
    if keys.arrow_up || keys.w {
        PaddleMove::Up
    } else if keys.arrow_down || keys.s {
        PaddleMove::Down
    } else {
        PaddleMove::Stop
    }
}

/// The computer's paddle heads for the ball: down when the ball is below it
/// (the vertical offset to the ball has a negative sign), up otherwise; it
/// never stops.
pub open spec fn ai_heading(ball_below: bool) -> PaddleMove {
    if ball_below {
        PaddleMove::Down
    } else {
        PaddleMove::Up
    }
}

/// The way the computer's paddle heads for the ball.
pub fn ai_paddle_move(ball_below: bool) -> (m: PaddleMove)
    ensures
        m == ai_heading(ball_below),
{
    if ball_below {
        PaddleMove::Down
    } else {
        PaddleMove::Up
    }
}

/// The directions of a served ball.
#[derive(Clone, Copy, Debug, PartialEq, Eq, Structural)]
pub struct Serve {
    pub horizontal: Sign,
    pub vertical: Sign,
}

/// The horizontal direction of the serve after a goal: towards the side that
/// scored (the player plays on the left, the computer on the right).
pub open spec fn serve_towards(scorer: Side) -> Sign {
    match scorer {
        Side::Player => Sign::Negative,
        Side::Ai => Sign::Positive,
    }
}

/// The serve after a goal by `scorer`, when two coin flips gave `first` and
/// `second`: each flip that came up false turns the vertical direction over.
pub open spec fn serve_of(scorer: Side, first: bool, second: bool) -> Serve {
    Serve {
        horizontal: serve_towards(scorer),
        vertical: if first == second { Sign::Positive } else { Sign::Negative },
    }
}

/// The serve goes towards the scorer's own side, whoever flipped what: to
/// negative x after a goal by the player, to positive x after one by the
/// computer; it goes up exactly when the two flips agree, and its vertical
/// direction does not depend on who scored.
pub proof fn lemma_serve_directions(scorer: Side, first: bool, second: bool)
    ensures
        (serve_of(scorer, first, second).horizontal == Sign::Negative) == (scorer
            == Side::Player),
        (serve_of(scorer, first, second).vertical == Sign::Positive) == (first == second),
        serve_of(Side::Player, first, second).vertical == serve_of(
            Side::Ai,
            first,
            second,
        ).vertical,
        serve_of(scorer, first, second).vertical == flip(serve_of(scorer, !first, second).vertical),
        serve_of(scorer, first, second).vertical == flip(serve_of(scorer, first, !second).vertical),
{
}

/// The serve after a goal by `scorer`, for two given coin flips.
pub fn serve_from_flips(scorer: Side, first: bool, second: bool) -> (serve: Serve)
    ensures
        serve == serve_of(scorer, first, second),
{
    let horizontal = match scorer {
        Side::Player => Sign::Negative,
        Side::Ai => Sign::Positive,
    };
    let vertical = if first == second {
        Sign::Positive
    } else {
        Sign::Negative
    };
    Serve { horizontal, vertical }
}

/// Serves the ball after a goal by `scorer`: horizontally towards the scorer,
/// vertically up or down as two coin flips drawn from `rng` decide.
pub fn reset_ball(scorer: Side, rng: &mut fastrand::Rng) -> (serve: Serve)
    ensures
        exists|first: bool, second: bool| serve == #[trigger] serve_of(scorer, first, second),
        serve.horizontal == serve_towards(scorer),
{
    let first = coin_flip(rng);
    let second = coin_flip(rng);
    serve_from_flips(scorer, first, second)
}

} // verus!
