use vstd::prelude::*;

use crate::geometry::{Point, Velocity};

verus! {

/// Factor by which a paddle hit speeds the disc up: `GROWTH_NUM / GROWTH_DEN`.
pub const GROWTH_NUM: u64 = 11;

pub const GROWTH_DEN: u64 = 10;

/// The disc's collision shape: a square of half-side `radius` round its center.
#[derive(Clone, Copy, Debug, PartialEq, Eq, Structural)]
pub struct BallCollider {
    pub radius: u32,
}

/// A paddle's collision shape: a `width` by `height` box round its center.
#[derive(Clone, Copy, Debug, PartialEq, Eq, Structural)]
pub struct PlayerCollider {
    pub width: u32,
    pub height: u32,
}

/// The disc's edge passes the top or the bottom of the field (strictly).
pub open spec fn hits_wall(pos: Point, ball: BallCollider, half_height: u32) -> bool {
    pos.y + ball.radius > half_height || pos.y - ball.radius < -half_height
}

/// Closed intervals `[lo1, hi1]` and `[lo2, hi2]` share a point.
pub open spec fn intervals_meet(lo1: int, hi1: int, lo2: int, hi2: int) -> bool {
    lo1 <= hi2 && lo2 <= hi1
}

/// The disc's box and the paddle's box overlap, touching edges included.
///
/// Coordinates are doubled so that half a paddle's width stays integral.
pub open spec fn boxes_overlap(
    ball_pos: Point,
    ball: BallCollider,
    paddle_pos: Point,
    paddle: PlayerCollider,
) -> bool {
    &&& intervals_meet(
        2 * (ball_pos.x - ball.radius),
        2 * (ball_pos.x + ball.radius),
        2 * paddle_pos.x - paddle.width,
        2 * paddle_pos.x + paddle.width,
    )
    &&& intervals_meet(
        2 * (ball_pos.y - ball.radius),
        2 * (ball_pos.y + ball.radius),
        2 * paddle_pos.y - paddle.height,
        2 * paddle_pos.y + paddle.height,
    )
}

/// Speed after one paddle hit.
pub open spec fn grown_speed(speed: nat) -> nat {
    speed * GROWTH_NUM as nat / GROWTH_DEN as nat
}

/// Speed after `n` paddle hits.
pub open spec fn grown_speed_n(speed: nat, n: nat) -> nat
    decreases n,
{
    if n == 0 {
        speed
    } else {
        grown_speed(grown_speed_n(speed, (n - 1) as nat))
    }
}

/// Velocity after a paddle hit: horizontal direction reversed, speed grown.
pub open spec fn bounced(vel: Velocity) -> Velocity {
    Velocity { speed: grown_speed(vel.speed as nat) as u64, ..vel.flipped_x() }
}

/// Velocity after the wall check.
pub open spec fn after_wall(
    pos: Point,
    ball: BallCollider,
    vel: Velocity,
    half_height: u32,
) -> Velocity {
    if hits_wall(pos, ball, half_height) {
        vel.flipped_y()
    } else {
        vel
    }
}

/// Reverses the vertical direction of a disc whose edge passes the top or the
/// bottom of a field `2 * half_height` high; the speed is kept.
pub fn wall_check(pos: Point, ball: BallCollider, vel: Velocity, half_height: u32) -> (r: Velocity)
    requires
        vel.wf(),
    ensures
        r == after_wall(pos, ball, vel, half_height),
        r.wf(),
{
    let top = pos.y as i64 + ball.radius as i64;
    let bottom = pos.y as i64 - ball.radius as i64;
    if top > half_height as i64 || bottom < -(half_height as i64) {
        vel.flip_y()
    } else {
        vel
    }
}

/// A disc whose vertical extent lies strictly inside the field keeps its
/// velocity through the wall check.
pub proof fn lemma_wall_inside_keeps_velocity(
    pos: Point,
    ball: BallCollider,
    vel: Velocity,
    half_height: u32,
)
    requires
        -half_height < pos.y - ball.radius,
        pos.y + ball.radius < half_height,
    ensures
        after_wall(pos, ball, vel, half_height) == vel,
{
}

/// A disc whose top edge passes the top of the field, or whose bottom edge
/// passes the bottom, has its vertical direction reversed once; the
/// horizontal direction and the speed are kept.
pub proof fn lemma_wall_outside_flips_vertical(
    pos: Point,
    ball: BallCollider,
    vel: Velocity,
    half_height: u32,
)
    requires
        vel.wf(),
        pos.y + ball.radius > half_height || pos.y - ball.radius < -half_height,
    ensures
        after_wall(pos, ball, vel, half_height).dir_y == -vel.dir_y,
        after_wall(pos, ball, vel, half_height).dir_x == vel.dir_x,
        after_wall(pos, ball, vel, half_height).speed == vel.speed,
{
}

/// A paddle hit reverses the horizontal direction, keeps the vertical one,
/// and multiplies the speed by `GROWTH_NUM / GROWTH_DEN`, rounded down.
pub proof fn lemma_bounce(vel: Velocity)
    requires
        vel.wf(),
        grown_speed(vel.speed as nat) <= u64::MAX,
    ensures
        bounced(vel).dir_x == -vel.dir_x,
        bounced(vel).dir_y == vel.dir_y,
        bounced(vel).speed == vel.speed * (GROWTH_NUM as int) / (GROWTH_DEN as int),
{
}

/// Velocity after checking the paddles of `paddles` in order, and the number
/// of them that the disc overlapped.
pub open spec fn after_paddles(
    pos: Point,
    ball: BallCollider,
    vel: Velocity,
    paddles: Seq<(Point, PlayerCollider)>,
) -> (Velocity, nat)
    decreases paddles.len(),
{
    if paddles.len() == 0 {
        (vel, 0)
    } else {
        let (v, n) = after_paddles(pos, ball, vel, paddles.drop_last());
        let (p, c) = paddles.last();
        if boxes_overlap(pos, ball, p, c) {
            (bounced(v), n + 1)
        } else {
            (v, n)
        }
    }
}

/// How many of `paddles` the disc overlaps.
pub open spec fn paddle_hits(
    pos: Point,
    ball: BallCollider,
    paddles: Seq<(Point, PlayerCollider)>,
) -> nat {
    after_paddles(pos, ball, Velocity { dir_x: 0, dir_y: 0, speed: 0 }, paddles).1
}

proof fn lemma_grown_speed_n_monotone(speed: nat, n: nat, m: nat)
    requires
        n <= m,
    ensures
        grown_speed_n(speed, n) <= grown_speed_n(speed, m),
    decreases m - n,
{
    if n < m {
        lemma_grown_speed_n_monotone(speed, n, (m - 1) as nat);
        let s = grown_speed_n(speed, (m - 1) as nat);
        assert(s <= grown_speed(s));
    }
}

/// The hit count does not depend on the velocity, and the speed after the
/// hits is the speed grown once per hit.
proof fn lemma_after_paddles(
    pos: Point,
    ball: BallCollider,
    vel: Velocity,
    paddles: Seq<(Point, PlayerCollider)>,
)
    requires
        grown_speed_n(vel.speed as nat, paddle_hits(pos, ball, paddles)) <= u64::MAX,
    ensures
        after_paddles(pos, ball, vel, paddles).1 == paddle_hits(pos, ball, paddles),
        after_paddles(pos, ball, vel, paddles).0.speed == grown_speed_n(
            vel.speed as nat,
            paddle_hits(pos, ball, paddles),
        ),
        after_paddles(pos, ball, vel, paddles).0.dir_y == vel.dir_y,
        vel.wf() ==> after_paddles(pos, ball, vel, paddles).0.wf(),
    decreases paddles.len(),
{
    if paddles.len() > 0 {
        let rest = paddles.drop_last();
        let zero = Velocity { dir_x: 0, dir_y: 0, speed: 0 };
        let n = after_paddles(pos, ball, zero, rest).1;
        lemma_grown_speed_n_monotone(vel.speed as nat, n, paddle_hits(pos, ball, paddles));
        lemma_after_paddles(pos, ball, vel, rest);
        lemma_after_paddles_count(pos, ball, zero, rest);
    }
}

proof fn lemma_after_paddles_count(
    pos: Point,
    ball: BallCollider,
    vel: Velocity,
    paddles: Seq<(Point, PlayerCollider)>,
)
    ensures
        after_paddles(pos, ball, vel, paddles).1 == paddle_hits(pos, ball, paddles),
    decreases paddles.len(),
{
    if paddles.len() > 0 {
        let zero = Velocity { dir_x: 0, dir_y: 0, speed: 0 };
        lemma_after_paddles_count(pos, ball, vel, paddles.drop_last());
        lemma_after_paddles_count(pos, ball, zero, paddles.drop_last());
    }
}

/// Whether the disc's box and the paddle's box overlap.
pub fn overlaps(ball_pos: Point, ball: BallCollider, paddle_pos: Point, paddle: PlayerCollider) -> (r:
    bool)
    ensures
        r == boxes_overlap(ball_pos, ball, paddle_pos, paddle),
{
    let b_left = 2 * (ball_pos.x as i64 - ball.radius as i64);
    let b_right = 2 * (ball_pos.x as i64 + ball.radius as i64);
    let b_bottom = 2 * (ball_pos.y as i64 - ball.radius as i64);
    let b_top = 2 * (ball_pos.y as i64 + ball.radius as i64);
    let p_left = 2 * paddle_pos.x as i64 - paddle.width as i64;
    let p_right = 2 * paddle_pos.x as i64 + paddle.width as i64;
    let p_bottom = 2 * paddle_pos.y as i64 - paddle.height as i64;
    let p_top = 2 * paddle_pos.y as i64 + paddle.height as i64;
    !(p_right < b_left || b_right < p_left || p_top < b_bottom || b_top < p_bottom)
}

/// Reverses the horizontal direction of the disc and speeds it up by
/// `GROWTH_NUM / GROWTH_DEN` (rounded down) when it overlaps the paddle.
pub fn paddle_check(
    pos: Point,
    ball: BallCollider,
    vel: Velocity,
    paddle_pos: Point,
    paddle: PlayerCollider,
) -> (r: Velocity)
    requires
        vel.wf(),
        boxes_overlap(pos, ball, paddle_pos, paddle) ==> grown_speed(vel.speed as nat) <= u64::MAX,
    ensures
        r == if boxes_overlap(pos, ball, paddle_pos, paddle) {
            bounced(vel)
        } else {
            vel
        },
        r.wf(),
{
    if overlaps(pos, ball, paddle_pos, paddle) {
        let speed = (vel.speed as u128 * GROWTH_NUM as u128 / GROWTH_DEN as u128) as u64;
        Velocity { speed, ..vel.flip_x() }
    } else {
        vel
    }
}

/// Checks the disc against every paddle in order: each overlap reverses the
/// horizontal direction again and grows the speed again. Returns the new
/// velocity and the number of paddles overlapped.
pub fn paddles_check(
    pos: Point,
    ball: BallCollider,
    vel: Velocity,
    paddles: &Vec<(Point, PlayerCollider)>,
) -> (r: (Velocity, usize))
    requires
        vel.wf(),
        grown_speed_n(vel.speed as nat, paddle_hits(pos, ball, paddles@)) <= u64::MAX,
    ensures
        r.0 == after_paddles(pos, ball, vel, paddles@).0,
        r.1 == paddle_hits(pos, ball, paddles@),
        r.0.speed == grown_speed_n(vel.speed as nat, paddle_hits(pos, ball, paddles@)),
        r.0.wf(),
{
    let mut v = vel;
    let mut hits: usize = 0;
    let mut i: usize = 0;
    proof {
        lemma_after_paddles(pos, ball, vel, paddles@);
    }
    while i < paddles.len()
        invariant
            i <= paddles.len(),
            vel.wf(),
            grown_speed_n(vel.speed as nat, paddle_hits(pos, ball, paddles@)) <= u64::MAX,
            (v, hits as nat) == after_paddles(pos, ball, vel, paddles@.subrange(0, i as int)),
            v.wf(),
            hits <= i,
        decreases paddles.len() - i,
    {
        let ghost prefix = paddles@.subrange(0, i as int);
        let ghost next = paddles@.subrange(0, i + 1);
        assert(next.drop_last() =~= prefix);
        proof {
            lemma_after_paddles_count(pos, ball, vel, next);
            lemma_after_paddles_prefix(pos, ball, paddles@, i + 1);
            lemma_grown_speed_n_monotone(
                vel.speed as nat,
                paddle_hits(pos, ball, next),
                paddle_hits(pos, ball, paddles@),
            );
            lemma_after_paddles(pos, ball, vel, next);
            lemma_after_paddles_prefix(pos, ball, paddles@, i as int);
            lemma_grown_speed_n_monotone(
                vel.speed as nat,
                paddle_hits(pos, ball, prefix),
                paddle_hits(pos, ball, paddles@),
            );
            lemma_after_paddles(pos, ball, vel, prefix);
        }
        let (p, c) = paddles[i];
        if overlaps(pos, ball, p, c) {
            assert(grown_speed(v.speed as nat) <= u64::MAX);
            let speed = (v.speed as u128 * GROWTH_NUM as u128 / GROWTH_DEN as u128) as u64;
            v = Velocity { speed, ..v.flip_x() };
            hits = hits + 1;
        }
        i = i + 1;
    }
    assert(paddles@.subrange(0, i as int) =~= paddles@);
    (v, hits)
}

/// Hits over a prefix are at most the hits over the whole sequence.
proof fn lemma_after_paddles_prefix(
    pos: Point,
    ball: BallCollider,
    paddles: Seq<(Point, PlayerCollider)>,
    k: int,
)
    requires
        0 <= k <= paddles.len(),
    ensures
        paddle_hits(pos, ball, paddles.subrange(0, k)) <= paddle_hits(pos, ball, paddles),
    decreases paddles.len() - k,
{
    if k < paddles.len() {
        assert(paddles.subrange(0, k + 1).drop_last() =~= paddles.subrange(0, k));
        lemma_after_paddles_prefix(pos, ball, paddles, k + 1);
    } else {
        assert(paddles.subrange(0, k) =~= paddles);
    }
}

} // verus!
