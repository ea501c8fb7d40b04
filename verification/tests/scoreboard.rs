use pong::rules::Score;
use pong::scoreboard::{points_text, update_scoreboard};

#[test]
fn points_are_written_in_decimal() {
    for n in 0..=u8::MAX {
        assert_eq!(points_text(n), n.to_string());
    }
}

#[test]
fn scoreboard_texts() {
    let (player, ai) = update_scoreboard(&Score { player: 3, ai: 0 });
    assert_eq!(player, "3");
    assert_eq!(ai, "0");
    let (player, ai) = update_scoreboard(&Score { player: 10, ai: 105 });
    assert_eq!(player, "10");
    assert_eq!(ai, "105");
}
