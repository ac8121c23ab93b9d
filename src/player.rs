use vstd::prelude::*;

verus! {

/// Speed of a paddle, in world units per second.
pub const PLAYERS_SPEED: u64 = 500;

pub const PLAYER_WIDTH: u32 = 10;

pub const PLAYER_HEIGHT: u32 = 120;

/// Distance between a side paddle and the edge of the field.
pub const PLAYER_FROM_EDGE_MARGIN: u32 = 40;

/// An action of a paddle.
#[derive(Clone, Copy, Debug, PartialEq, Eq, Structural)]
pub enum PlayerInput {
    Up,
    Down,
}

/// Whether the match runs or is paused.
#[derive(Clone, Copy, Debug, PartialEq, Eq, Structural)]
pub enum GameState {
    InGame,
    Paused,
}

/// Vertical direction of a paddle: up wins over down, none pressed is still.
pub open spec fn direction_of(up: bool, down: bool) -> int {
    if up {
        1
    } else if down {
        -1
    } else {
        0
    }
}

/// Sum of a sequence of integers.
pub open spec fn sum(s: Seq<i32>) -> int
    decreases s.len(),
{
    if s.len() == 0 {
        0
    } else {
        sum(s.drop_last()) + s.last()
    }
}

/// What a computer paddle at height `y` does: move towards the mean height of
/// the discs, or nothing when it is level with it or there are no discs.
pub open spec fn ai_choice(y: int, ball_ys: Seq<i32>) -> Option<PlayerInput> {
    let n = ball_ys.len() as int;
    if n == 0 {
        None
    } else if y * n > sum(ball_ys) {
        Some(PlayerInput::Down)
    } else if y * n < sum(ball_ys) {
        Some(PlayerInput::Up)
    } else {
        None
    }
}

/// The state after a frame: the pause key toggles between playing and paused.
pub open spec fn next_state_spec(state: GameState, pause_pressed: bool) -> GameState {
    if !pause_pressed {
        state
    } else {
        match state {
            GameState::InGame => GameState::Paused,
            GameState::Paused => GameState::InGame,
        }
    }
}

/// Direction of a paddle from its two keys: 1 up, -1 down, 0 still.
pub fn movement_direction(up_pressed: bool, down_pressed: bool) -> (r: i32)
    ensures
        r == direction_of(up_pressed, down_pressed),
{
    if up_pressed {
        1
    } else if down_pressed {
        -1
    } else {
        0
    }
}

proof fn lemma_sum_bound(s: Seq<i32>)
    ensures
        -0x8000_0000 * s.len() <= sum(s) <= 0x7fff_ffff * s.len(),
    decreases s.len(),
{
    if s.len() > 0 {
        lemma_sum_bound(s.drop_last());
    }
}

/// The action of a computer paddle at height `ai_y` that follows the mean
/// height of the discs at `ball_ys`.
pub fn ai_action(ai_y: i32, ball_ys: &Vec<i32>) -> (r: Option<PlayerInput>)
    ensures
        r == ai_choice(ai_y as int, ball_ys@),
{
    let n = ball_ys.len();
    if n == 0 {
        return None;
    }
    let mut total: i128 = 0;
    let mut i: usize = 0;
    while i < n
        invariant
            n == ball_ys@.len(),
            i <= n,
            total == sum(ball_ys@.subrange(0, i as int)),
        decreases n - i,
    {
        proof {
            assert(ball_ys@.subrange(0, i + 1).drop_last() =~= ball_ys@.subrange(0, i as int));
            lemma_sum_bound(ball_ys@.subrange(0, i + 1));
        }
        total = total + ball_ys[i] as i128;
        i = i + 1;
    }
    assert(ball_ys@.subrange(0, n as int) =~= ball_ys@);
    assert(-0x8000_0000 * n <= ai_y * n <= 0x7fff_ffff * n) by (nonlinear_arith)
        requires -0x8000_0000 <= ai_y <= 0x7fff_ffff, n >= 0;
    let scaled = ai_y as i128 * n as i128;
    if scaled > total {
        Some(PlayerInput::Down)
    } else if scaled < total {
        Some(PlayerInput::Up)
    } else {
        None
    }
}

/// Toggles between playing and paused when the pause key was pressed.
pub fn next_game_state(state: GameState, pause_pressed: bool) -> (r: GameState)
    ensures
        r == next_state_spec(state, pause_pressed),
{
    if !pause_pressed {
        state
    } else {
        match state {
            GameState::InGame => GameState::Paused,
            GameState::Paused => GameState::InGame,
        }
    }
}

} // verus!
