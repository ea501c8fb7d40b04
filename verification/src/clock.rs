//! The computer's reaction time: it re-aims its paddle only when a `bevy`
//! timer runs out.

use vstd::prelude::*;
use core::time::Duration;
use crate::court::{PaddleMove, ai_heading, ai_paddle_move};

verus! {

/// The timer of `bevy`. Its fields are not visible here; what a tick does to
/// it, and whether it has just finished, are named by `ticked` and
/// `timer_finished`.
#[verifier::external_type_specification]
#[verifier::external_body]
pub struct ExTimer(bevy::time::Timer);

/// The timer that `bevy::time::Timer::tick` leaves after advancing `timer` by
/// `delta`. The tick reads only the timer and `delta`.
pub uninterp spec fn ticked(timer: bevy::time::Timer, delta: Duration) -> bevy::time::Timer;

/// What `bevy::time::Timer::just_finished` says of `timer`: whether its last
/// tick made it reach its duration. It reads only the timer.
pub uninterp spec fn timer_finished(timer: bevy::time::Timer) -> bool;

/// Calls `bevy::time::Timer::tick`, which advances the timer by `delta`; the
/// timer afterwards is named `ticked` of the timer before and `delta`. How the
/// tick changes the elapsed time and the finished flags is not spelt out.
#[verifier::external_body]
pub(crate) fn tick(timer: &mut bevy::time::Timer, delta: Duration)
    ensures
        *final(timer) == ticked(*old(timer), delta),
{
    timer.tick(delta);
}

/// Calls `bevy::time::Timer::just_finished`; its result is named
/// `timer_finished` of the timer.
#[verifier::external_body]
pub(crate) fn just_finished(timer: &bevy::time::Timer) -> (r: bool)
    ensures
        r == timer_finished(*timer),
{
    timer.just_finished()
}

/// The new heading of the computer's paddle, if it re-aims: only when its
/// timer has just finished, and then towards the ball.
pub fn ai_retarget(timer_finished: bool, ball_below: bool) -> (m: Option<PaddleMove>)
    ensures
        m == (if timer_finished { Some(ai_heading(ball_below)) } else { None::<PaddleMove> }),
{
    if timer_finished {
        Some(ai_paddle_move(ball_below))
    } else {
        None
    }
}

/// Advances the computer's reaction timer by `delta`; when it has just run
/// out, the paddle re-aims at the ball and the new heading is returned.
pub fn move_ai(timer: &mut bevy::time::Timer, delta: Duration, ball_below: bool) -> (m: Option<
    PaddleMove,
>)
    ensures
        *final(timer) == ticked(*old(timer), delta),
        m == (if timer_finished(ticked(*old(timer), delta)) {
            Some(ai_heading(ball_below))
        } else {
            None::<PaddleMove>
        }),
{
    tick(timer, delta);
    let finished = just_finished(timer);
    ai_retarget(finished, ball_below)
}

} // verus!
