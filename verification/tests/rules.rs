use pong::rules::{handle_start_button, reset_score, update_score, ButtonState, GameState, Score, Side, WINNING_SCORE};

fn play(goals: &[Side]) -> (Score, Option<usize>) {
    let mut score = Score::new();
    for (i, side) in goals.iter().enumerate() {
        if update_score(&mut score, *side) {
            return (score, Some(i + 1));
        }
    }
    (score, None)
}

#[test]
fn new_score_is_nil_nil() {
    let score = Score::new();
    assert_eq!(score, Score { player: 0, ai: 0 });
}

#[test]
fn points_of_reads_each_side() {
    let score = Score { player: 3, ai: 1 };
    assert_eq!(score.points_of(Side::Player), 3);
    assert_eq!(score.points_of(Side::Ai), 1);
}

#[test]
fn goal_credits_only_the_scorer() {
    let mut score = Score { player: 2, ai: 3 };
    assert!(!update_score(&mut score, Side::Ai));
    assert_eq!(score, Score { player: 2, ai: 4 });
    assert!(!update_score(&mut score, Side::Player));
    assert_eq!(score, Score { player: 3, ai: 4 });
}

#[test]
fn reaching_the_winning_score_ends_the_match() {
    let mut score = Score { player: 4, ai: 0 };
    assert!(update_score(&mut score, Side::Player));
    assert_eq!(score.player, WINNING_SCORE);
    let mut score = Score { player: 4, ai: 4 };
    assert!(update_score(&mut score, Side::Ai));
    assert_eq!(score, Score { player: 4, ai: 5 });
}

#[test]
fn winning_score_is_five() {
    assert_eq!(WINNING_SCORE, 5);
}

#[test]
fn passing_the_winning_score_does_not_end_again() {
    let mut score = Score { player: 5, ai: 0 };
    assert!(!update_score(&mut score, Side::Player));
    assert_eq!(score.player, 6);
}

#[test]
fn first_to_five_wins() {
    let (a, p) = (Side::Ai, Side::Player);
    let goals = [a, p, a, a, p, p, a, p, p, a];
    let (score, ended) = play(&goals);
    assert_eq!(ended, Some(9));
    assert_eq!(score, Score { player: 5, ai: 4 });
}

#[test]
fn a_shutout_ends_after_five_goals() {
    let goals = [Side::Ai; 7];
    let (score, ended) = play(&goals);
    assert_eq!(ended, Some(5));
    assert_eq!(score, Score { player: 0, ai: 5 });
}

#[test]
fn every_match_is_decided_within_nine_goals() {
    for mask in 0u32..(1 << 9) {
        let goals: Vec<Side> = (0..9)
            .map(|i| if mask & (1 << i) != 0 { Side::Player } else { Side::Ai })
            .collect();
        let (score, ended) = play(&goals);
        let n = ended.expect("a match of nine goals is decided");
        let last = goals[n - 1];
        assert_eq!(score.points_of(last), WINNING_SCORE);
        let other = if last == Side::Player { Side::Ai } else { Side::Player };
        assert!(score.points_of(other) < WINNING_SCORE);
        assert_eq!(score.player as usize + score.ai as usize, n);
    }
}

#[test]
fn reset_score_gives_nil_nil() {
    let mut score = Score { player: 5, ai: 2 };
    reset_score(&mut score);
    assert_eq!(score, Score::new());
}

#[test]
fn start_button_pressed_on_menu_starts_a_match() {
    let changes = vec![ButtonState::Hovered, ButtonState::Pressed];
    assert_eq!(handle_start_button(GameState::Menu, &changes), Some(GameState::Playing));
    assert_eq!(handle_start_button(GameState::End, &changes), Some(GameState::Playing));
}

#[test]
fn start_button_ignored_while_playing() {
    let changes = vec![ButtonState::Pressed];
    assert_eq!(handle_start_button(GameState::Playing, &changes), None);
}

#[test]
fn start_button_needs_a_press() {
    let changes = vec![ButtonState::Hovered, ButtonState::Untouched];
    assert_eq!(handle_start_button(GameState::Menu, &changes), None);
    assert_eq!(handle_start_button(GameState::End, &Vec::new()), None);
}
