use vstd::prelude::*;
use vstd::string::StringExecFns;

use crate::collisions::BallCollider;
use crate::geometry::{Point, Velocity};

verus! {

pub const BALL_DIAMETER: u32 = 10;

/// Speed of a disc at the start and after a reset.
pub const BALL_SPEED: u64 = 500;

/// The disc's play state: active while in play, inactive once it has scored
/// and until it is reset.
#[derive(Clone, Copy, Debug, PartialEq, Eq, Structural)]
pub struct Ball {
    pub active: bool,
}

/// Points of the left (`player1_score`) and the right (`player2_score`) side.
#[derive(Clone, Copy, Debug, PartialEq, Eq, Structural)]
pub struct Score {
    pub player1_score: u64,
    pub player2_score: u64,
}

/// The outcome of the scoring check: the score and the disc's state after it.
pub open spec fn scored(score: Score, ball: Ball, x: i32, half_width: u32) -> (Score, Ball) {
    if ball.active && x > half_width {
        (Score { player1_score: (score.player1_score + 1) as u64, ..score }, Ball { active: false })
    } else if ball.active && x < -half_width {
        (Score { player2_score: (score.player2_score + 1) as u64, ..score }, Ball { active: false })
    } else {
        (score, ball)
    }
}

/// A disc past the right edge while active gives the left side exactly one
/// point and becomes inactive; a second check before a reset, wherever the
/// disc then is, scores nothing more.
pub proof fn lemma_score_once(score: Score, ball: Ball, half_width: u32, later_x: i32)
    requires
        ball.active,
        half_width < i32::MAX,
        score.player1_score < u64::MAX,
    ensures
        scored(score, ball, (half_width + 1) as i32, half_width).0 == (Score {
            player1_score: (score.player1_score + 1) as u64,
            ..score
        }),
        !scored(score, ball, (half_width + 1) as i32, half_width).1.active,
        ({
            let (s1, b1) = scored(score, ball, (half_width + 1) as i32, half_width);
            scored(s1, b1, later_x, half_width) == (s1, b1)
        }),
{
}

/// An inactive disc never scores, wherever it is, until it is reset.
pub proof fn lemma_inactive_never_scores(score: Score, ball: Ball, x: i32, half_width: u32)
    requires
        !ball.active,
    ensures
        scored(score, ball, x, half_width) == (score, ball),
{
}

/// Decimal digits of `n`, most significant first, without sign or padding.
pub open spec fn decimal(n: nat) -> Seq<char>
    decreases n,
{
    let digit = seq!['0', '1', '2', '3', '4', '5', '6', '7', '8', '9'][(n % 10) as int];
    if n < 10 {
        seq![digit]
    } else {
        decimal(n / 10).push(digit)
    }
}

/// The score as it is shown: `"<left> - <right>"`.
pub open spec fn score_line(score: Score) -> Seq<char> {
    decimal(score.player1_score as nat) + seq![' ', '-', ' '] + decimal(score.player2_score as nat)
}

impl Score {
    pub fn new() -> (r: Score)
        ensures
            r.player1_score == 0,
            r.player2_score == 0,
    {
        Score { player1_score: 0, player2_score: 0 }
    }

    /// The score as it is shown on screen, e.g. `"3 - 1"`.
    pub fn text(&self) -> (r: String)
        ensures
            r@ == score_line(*self),
    {
        let mut r = String::new();
        push_decimal(&mut r, self.player1_score);
        proof {
            reveal_strlit(" - ");
        }
        r.append(" - ");
        push_decimal(&mut r, self.player2_score);
        r
    }
}

/// The single character of digit `d`.
fn digit_str(d: u64) -> (r: &'static str)
    requires
        d < 10,
    ensures
        r@ == seq![seq!['0', '1', '2', '3', '4', '5', '6', '7', '8', '9'][d as int]],
{
    proof {
        reveal_strlit("0");
        reveal_strlit("1");
        reveal_strlit("2");
        reveal_strlit("3");
        reveal_strlit("4");
        reveal_strlit("5");
        reveal_strlit("6");
        reveal_strlit("7");
        reveal_strlit("8");
        reveal_strlit("9");
    }
    match d {
        0 => "0",
        1 => "1",
        2 => "2",
        3 => "3",
        4 => "4",
        5 => "5",
        6 => "6",
        7 => "7",
        8 => "8",
        _ => "9",
    }
}

/// Appends the decimal digits of `n` to `s`.
fn push_decimal(s: &mut String, n: u64)
    ensures
        final(s)@ == old(s)@ + decimal(n as nat),
    decreases n,
{
    if n >= 10 {
        push_decimal(s, n / 10);
    }
    s.append(digit_str(n % 10));
    assert(s@ =~= old(s)@ + decimal(n as nat));
}

/// A new disc at the center: moving up and right at `BALL_SPEED`, active.
pub fn setup_ball() -> (r: (Point, Velocity, BallCollider, Ball))
    ensures
        r.0 == Point::origin_spec(),
        r.1 == (Velocity { dir_x: 1, dir_y: 1, speed: BALL_SPEED }),
        r.2.radius == BALL_DIAMETER / 2,
        r.3.active,
{
    (Point::origin(), Velocity::new(1, 1, BALL_SPEED), BallCollider { radius: BALL_DIAMETER / 2 }, Ball { active: true })
}

/// Scores an active disc that has left a field `2 * half_width` wide: past
/// the right edge the left side scores, past the left edge the right side
/// does, and the disc becomes inactive. An inactive disc, or one inside the
/// field (edges included), changes nothing.
pub fn check_for_ball_score(score: &mut Score, ball: &mut Ball, x: i32, half_width: u32)
    requires
        old(ball).active && x > half_width ==> old(score).player1_score < u64::MAX,
        old(ball).active && x < -half_width ==> old(score).player2_score < u64::MAX,
    ensures
        (*final(score), *final(ball)) == scored(*old(score), *old(ball), x, half_width),
{
    if ball.active {
        if x as i64 > half_width as i64 {
            score.player1_score = score.player1_score + 1;
            ball.active = false;
        } else if (x as i64) < -(half_width as i64) {
            score.player2_score = score.player2_score + 1;
            ball.active = false;
        }
    }
}

/// When a reset is requested, puts the disc back at the center, active, at
/// `BALL_SPEED`, keeping its direction; otherwise changes nothing.
pub fn ball_reset(reset_requested: bool, pos: &mut Point, ball: &mut Ball, vel: &mut Velocity)
    ensures
        reset_requested ==> {
            &&& *final(pos) == Point::origin_spec()
            &&& final(ball).active
            &&& *final(vel) == (Velocity { speed: BALL_SPEED, ..*old(vel) })
        },
        !reset_requested ==> {
            &&& *final(pos) == *old(pos)
            &&& *final(ball) == *old(ball)
            &&& *final(vel) == *old(vel)
        },
{
    if reset_requested {
        *pos = Point::origin();
        ball.active = true;
        vel.speed = BALL_SPEED;
    }
}

} // verus!
