use pong::court::{
    ai_paddle_move, bounce, collide_with_side, detect_goal, handle_player_input, paddle_push,
    reset_ball, serve_from_flips, Axis, Bounce, Collision, Contact, HeldKeys, PaddleMove, Serve,
    Sign,
};
use pong::rules::Side;

fn contact(intersects: bool, horizontal: bool, x_neg: bool, y_pos: bool) -> Contact {
    Contact { intersects, horizontal, offset_x_negative: x_neg, offset_y_positive: y_pos }
}

#[test]
fn no_intersection_no_collision() {
    assert_eq!(collide_with_side(contact(false, true, true, true)), None);
    assert_eq!(collide_with_side(contact(false, false, false, false)), None);
}

#[test]
fn horizontal_offsets_hit_left_or_right() {
    assert_eq!(collide_with_side(contact(true, true, true, false)), Some(Collision::Left));
    assert_eq!(collide_with_side(contact(true, true, false, true)), Some(Collision::Right));
}

#[test]
fn vertical_offsets_hit_top_or_bottom() {
    assert_eq!(collide_with_side(contact(true, false, true, true)), Some(Collision::Top));
    assert_eq!(collide_with_side(contact(true, false, false, false)), Some(Collision::Bottom));
}

#[test]
fn bounces_point_away_from_the_wall() {
    assert_eq!(bounce(Collision::Left), Bounce { axis: Axis::X, away: Sign::Negative });
    assert_eq!(bounce(Collision::Right), Bounce { axis: Axis::X, away: Sign::Positive });
    assert_eq!(bounce(Collision::Top), Bounce { axis: Axis::Y, away: Sign::Positive });
    assert_eq!(bounce(Collision::Bottom), Bounce { axis: Axis::Y, away: Sign::Negative });
}

#[test]
fn paddles_are_pushed_out_of_gutters_vertically_only() {
    assert_eq!(paddle_push(Some(Collision::Top)), Some(Sign::Positive));
    assert_eq!(paddle_push(Some(Collision::Bottom)), Some(Sign::Negative));
    assert_eq!(paddle_push(Some(Collision::Left)), None);
    assert_eq!(paddle_push(Some(Collision::Right)), None);
    assert_eq!(paddle_push(None), None);
}

#[test]
fn goals_on_each_edge() {
    assert_eq!(detect_goal(true, false), vec![Side::Player]);
    assert_eq!(detect_goal(false, true), vec![Side::Ai]);
    assert_eq!(detect_goal(false, false), Vec::<Side>::new());
    assert_eq!(detect_goal(true, true), vec![Side::Player, Side::Ai]);
}

fn keys(arrow_up: bool, w: bool, arrow_down: bool, s: bool) -> HeldKeys {
    HeldKeys { arrow_up, w, arrow_down, s }
}

#[test]
fn player_input_steers_the_paddle() {
    assert_eq!(handle_player_input(keys(true, false, false, false)), PaddleMove::Up);
    assert_eq!(handle_player_input(keys(false, true, false, false)), PaddleMove::Up);
    assert_eq!(handle_player_input(keys(false, false, true, false)), PaddleMove::Down);
    assert_eq!(handle_player_input(keys(false, false, false, true)), PaddleMove::Down);
    assert_eq!(handle_player_input(keys(false, false, false, false)), PaddleMove::Stop);
}

#[test]
fn up_wins_over_down() {
    assert_eq!(handle_player_input(keys(true, false, true, true)), PaddleMove::Up);
    assert_eq!(handle_player_input(keys(false, true, false, true)), PaddleMove::Up);
}

#[test]
fn ai_heads_for_the_ball() {
    assert_eq!(ai_paddle_move(true), PaddleMove::Down);
    assert_eq!(ai_paddle_move(false), PaddleMove::Up);
}

#[test]
fn serve_goes_towards_the_scorer() {
    assert_eq!(
        serve_from_flips(Side::Player, true, true),
        Serve { horizontal: Sign::Negative, vertical: Sign::Positive }
    );
    assert_eq!(
        serve_from_flips(Side::Ai, true, false),
        Serve { horizontal: Sign::Positive, vertical: Sign::Negative }
    );
    assert_eq!(
        serve_from_flips(Side::Ai, false, true),
        Serve { horizontal: Sign::Positive, vertical: Sign::Negative }
    );
    assert_eq!(
        serve_from_flips(Side::Player, false, false),
        Serve { horizontal: Sign::Negative, vertical: Sign::Positive }
    );
}

#[test]
fn random_serve_keeps_the_horizontal_direction() {
    let mut rng = fastrand::Rng::with_seed(7);
    let mut seen_up = false;
    let mut seen_down = false;
    for _ in 0..200 {
        let serve = reset_ball(Side::Player, &mut rng);
        assert_eq!(serve.horizontal, Sign::Negative);
        match serve.vertical {
            Sign::Positive => seen_up = true,
            Sign::Negative => seen_down = true,
        }
        assert_eq!(reset_ball(Side::Ai, &mut rng).horizontal, Sign::Positive);
    }
    assert!(seen_up && seen_down);
}

#[test]
fn random_serve_matches_the_flips_drawn() {
    let mut rng = fastrand::Rng::with_seed(42);
    let mut copy = fastrand::Rng::with_seed(42);
    for _ in 0..50 {
        let serve = reset_ball(Side::Ai, &mut rng);
        let first = copy.bool();
        let second = copy.bool();
        assert_eq!(serve, serve_from_flips(Side::Ai, first, second));
    }
}
