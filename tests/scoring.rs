use arcade::ball::{ball_reset, check_for_ball_score, setup_ball, Ball, Score, BALL_SPEED};
use arcade::geometry::{Point, Velocity};

#[test]
fn right_exit_scores_for_left_once() {
    let mut score = Score::new();
    let mut ball = Ball { active: true };
    check_for_ball_score(&mut score, &mut ball, 601, 600);
    assert_eq!(score.player1_score, 1);
    assert_eq!(score.player2_score, 0);
    assert!(!ball.active);
    check_for_ball_score(&mut score, &mut ball, 601, 600);
    check_for_ball_score(&mut score, &mut ball, -700, 600);
    assert_eq!(score.player1_score, 1);
    assert_eq!(score.player2_score, 0);
}

#[test]
fn left_exit_scores_for_right() {
    let mut score = Score { player1_score: 2, player2_score: 3 };
    let mut ball = Ball { active: true };
    check_for_ball_score(&mut score, &mut ball, -601, 600);
    assert_eq!(score, Score { player1_score: 2, player2_score: 4 });
    assert!(!ball.active);
}

#[test]
fn edge_of_field_does_not_score() {
    let mut score = Score::new();
    let mut ball = Ball { active: true };
    check_for_ball_score(&mut score, &mut ball, 600, 600);
    check_for_ball_score(&mut score, &mut ball, -600, 600);
    assert_eq!(score, Score::new());
    assert!(ball.active);
}

#[test]
fn reset_recenters_and_reactivates() {
    let mut pos = Point::new(640, -20);
    let mut ball = Ball { active: false };
    let mut vel = Velocity::new(-1, 1, 805);
    ball_reset(true, &mut pos, &mut ball, &mut vel);
    assert_eq!(pos, Point::new(0, 0));
    assert!(ball.active);
    assert_eq!(vel, Velocity::new(-1, 1, BALL_SPEED));
}

#[test]
fn reset_not_requested_changes_nothing() {
    let mut pos = Point::new(640, -20);
    let mut ball = Ball { active: false };
    let mut vel = Velocity::new(-1, 1, 805);
    ball_reset(false, &mut pos, &mut ball, &mut vel);
    assert_eq!(pos, Point::new(640, -20));
    assert!(!ball.active);
    assert_eq!(vel.speed, 805);
}

#[test]
fn reset_allows_scoring_again() {
    let mut score = Score::new();
    let (mut pos, mut vel, _, mut ball) = setup_ball();
    check_for_ball_score(&mut score, &mut ball, 601, 600);
    ball_reset(true, &mut pos, &mut ball, &mut vel);
    check_for_ball_score(&mut score, &mut ball, 601, 600);
    assert_eq!(score.player1_score, 2);
}

#[test]
fn new_ball_is_centered_and_active() {
    let (pos, vel, collider, ball) = setup_ball();
    assert_eq!(pos, Point::new(0, 0));
    assert_eq!(vel, Velocity::new(1, 1, 500));
    assert_eq!(collider.radius, 5);
    assert!(ball.active);
}

#[test]
fn score_text_format() {
    assert_eq!(Score::new().text(), "0 - 0");
    assert_eq!(Score { player1_score: 12, player2_score: 7 }.text(), "12 - 7");
}

#[test]
fn largest_score_still_counts_when_other_side_scores() {
    let mut score = Score { player1_score: u64::MAX, player2_score: 0 };
    let mut ball = Ball { active: true };
    check_for_ball_score(&mut score, &mut ball, -601, 600);
    assert_eq!(score, Score { player1_score: u64::MAX, player2_score: 1 });
    assert_eq!(score.text(), "18446744073709551615 - 1");
}
