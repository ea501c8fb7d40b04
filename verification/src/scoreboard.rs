//! The scoreboard: each side's points, written in decimal.

use vstd::prelude::*;
use crate::rules::Score;

verus! {

/// The character of a decimal digit.
pub open spec fn digit_char(d: nat) -> char {
    if d == 0 {
        '0'
    } else if d == 1 {
        '1'
    } else if d == 2 {
        '2'
    } else if d == 3 {
        '3'
    } else if d == 4 {
        '4'
    } else if d == 5 {
        '5'
    } else if d == 6 {
        '6'
    } else if d == 7 {
        '7'
    } else if d == 8 {
        '8'
    } else {
        '9'
    }
}

/// `n` written in decimal, without leading zeros.
pub open spec fn decimal(n: nat) -> Seq<char>
    decreases n,
{
    if n < 10 {
        seq![digit_char(n)]
    } else {
        decimal(n / 10).push(digit_char(n % 10))
    }
}

/// The text of one decimal digit.
fn digit_text(d: u8) -> (t: &'static str)
    requires
        d < 10,
    ensures
        t@ == seq![digit_char(d as nat)],
{
    proof {
        reveal_strlit("0");
        reveal_strlit("1");
        reveal_strlit("2");
        reveal_strlit("3");
        reveal_strlit("4");
        reveal_strlit("5");
        reveal_strlit("6");
        reveal_strlit("7");
        reveal_strlit("8");
        reveal_strlit("9");
    }
    if d == 0 {
        "0"
    } else if d == 1 {
        "1"
    } else if d == 2 {
        "2"
    } else if d == 3 {
        "3"
    } else if d == 4 {
        "4"
    } else if d == 5 {
        "5"
    } else if d == 6 {
        "6"
    } else if d == 7 {
        "7"
    } else if d == 8 {
        "8"
    } else {
        "9"
    }
}

/// A number of points, written in decimal.
pub fn points_text(n: u8) -> (t: String)
    ensures
        t@ == decimal(n as nat),
{
    let mut t = String::new();
    if n >= 100 {
        t.append(digit_text(n / 100));
    }
    if n >= 10 {
        t.append(digit_text((n / 10) % 10));
    }
    t.append(digit_text(n % 10));
    proof {
        let m = n as nat;
        if m >= 100 {
            assert(decimal(m / 100) == seq![digit_char(m / 100)]);
            assert((m / 10) / 10 == m / 100);
            assert(decimal(m / 10) == decimal(m / 100).push(digit_char((m / 10) % 10)));
        } else if m >= 10 {
            assert(decimal(m / 10) == seq![digit_char(m / 10)]);
        }
    }
    t
}

/// The texts of the scoreboard: the player's points, then the computer's.
pub fn update_scoreboard(score: &Score) -> (texts: (String, String))
    ensures
        texts.0@ == decimal(score.player as nat),
        texts.1@ == decimal(score.ai as nat),
{
    (points_text(score.player), points_text(score.ai))
}

} // verus!
