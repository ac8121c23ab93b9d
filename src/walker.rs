use vstd::laws_eq::obeys_concrete_eq;
use vstd::prelude::*;

use crate::animation::{AnimationData, AnimationStateMachine, MachineModel, DEFAULT_FRAME_NANOS};
use crate::timer::{FrameTimer, TimerMode};

verus! {

/// Distance a walking character covers per frame on each axis.
pub const WALK_STEP: i32 = 5;

/// Period of a walking frame: 0.2 s.
pub const WALK_FRAME_NANOS: u64 = 200_000_000;

/// The way a walking character faces.
#[derive(Clone, Copy, Debug)]
pub enum PlayerDir {
    Up,
    Down,
    Left,
    Right,
}

/// Whether a character walks or stands.
#[derive(Clone, Copy, Debug)]
pub enum PlayerState {
    Walk,
    Idle,
}

impl PartialEq for PlayerDir {
    fn eq(&self, other: &PlayerDir) -> (r: bool) {
        match (self, other) {
            (PlayerDir::Up, PlayerDir::Up) => true,
            (PlayerDir::Down, PlayerDir::Down) => true,
            (PlayerDir::Left, PlayerDir::Left) => true,
            (PlayerDir::Right, PlayerDir::Right) => true,
            _ => false,
        }
    }
}

impl vstd::std_specs::cmp::PartialEqSpecImpl for PlayerDir {
    open spec fn obeys_eq_spec() -> bool {
        true
    }

    open spec fn eq_spec(&self, other: &PlayerDir) -> bool {
        *self == *other
    }
}

impl Eq for PlayerDir {}

impl PartialEq for PlayerState {
    fn eq(&self, other: &PlayerState) -> (r: bool) {
        match (self, other) {
            (PlayerState::Walk, PlayerState::Walk) => true,
            (PlayerState::Idle, PlayerState::Idle) => true,
            _ => false,
        }
    }
}

impl vstd::std_specs::cmp::PartialEqSpecImpl for PlayerState {
    open spec fn obeys_eq_spec() -> bool {
        true
    }

    open spec fn eq_spec(&self, other: &PlayerState) -> bool {
        *self == *other
    }
}

impl Eq for PlayerState {}

/// The key of a walking character's animations.
pub type WalkKey = (PlayerDir, PlayerState);

/// Equality on animation keys is equality of the values.
pub proof fn lemma_walk_key_eq()
    ensures
        obeys_concrete_eq::<WalkKey>(),
{
    reveal(obeys_concrete_eq);
}

/// Direction from the four keys: right and left cancel, as do up and down.
pub open spec fn direction_from_keys(right: bool, up: bool, down: bool, left: bool) -> (int, int) {
    (
        (if right { 1int } else { 0 }) - (if left { 1int } else { 0 }),
        (if up { 1int } else { 0 }) - (if down { 1int } else { 0 }),
    )
}

/// The animation state for a direction: vertical movement wins over
/// horizontal; standing still keeps the facing and stands idle.
pub open spec fn walk_state(current: WalkKey, dir: (int, int)) -> WalkKey {
    if dir.1 == 1 {
        (PlayerDir::Up, PlayerState::Walk)
    } else if dir.1 == -1 {
        (PlayerDir::Down, PlayerState::Walk)
    } else if dir.0 == 1 {
        (PlayerDir::Right, PlayerState::Walk)
    } else if dir.0 == -1 {
        (PlayerDir::Left, PlayerState::Walk)
    } else {
        (current.0, PlayerState::Idle)
    }
}

pub fn walk_direction(right: bool, up: bool, down: bool, left: bool) -> (r: (i32, i32))
    ensures
        (r.0 as int, r.1 as int) == direction_from_keys(right, up, down, left),
{
    let mut dir: (i32, i32) = (0, 0);
    if right {
        dir.0 = dir.0 + 1;
    }
    if up {
        dir.1 = dir.1 + 1;
    }
    if down {
        dir.1 = dir.1 - 1;
    }
    if left {
        dir.0 = dir.0 - 1;
    }
    dir
}

pub fn next_walk_state(current: WalkKey, dir: (i32, i32)) -> (r: WalkKey)
    ensures
        r == walk_state(current, (dir.0 as int, dir.1 as int)),
{
    if dir.1 == 1 {
        (PlayerDir::Up, PlayerState::Walk)
    } else if dir.1 == -1 {
        (PlayerDir::Down, PlayerState::Walk)
    } else if dir.0 == 1 {
        (PlayerDir::Right, PlayerState::Walk)
    } else if dir.0 == -1 {
        (PlayerDir::Left, PlayerState::Walk)
    } else {
        (current.0, PlayerState::Idle)
    }
}

/// One frame of a walking character: picks the animation for the keys held
/// and returns the displacement, `WALK_STEP` per axis of movement.
pub fn walk(
    anim: &mut AnimationStateMachine<WalkKey>,
    right: bool,
    up: bool,
    down: bool,
    left: bool,
) -> (r: (i32, i32))
    requires
        old(anim)@.wf(),
    ensures
        ({
            let dir = direction_from_keys(right, up, down, left);
            &&& final(anim)@ == old(anim)@.switched(walk_state(old(anim)@.current_state, dir))
            &&& r.0 == dir.0 * WALK_STEP
            &&& r.1 == dir.1 * WALK_STEP
        }),
        final(anim)@.wf(),
{
    proof {
        lemma_walk_key_eq();
    }
    let dir = walk_direction(right, up, down, left);
    let state = next_walk_state(anim.current_state, dir);
    anim.switch_state(state);
    (dir.0 * WALK_STEP, dir.1 * WALK_STEP)
}

/// A two-frame walking cycle from `start`, at `WALK_FRAME_NANOS` a frame.
pub open spec fn walk_cycle(start: usize) -> AnimationData {
    AnimationData {
        start_index: start,
        len: 2,
        timer: FrameTimer {
            duration: WALK_FRAME_NANOS,
            elapsed: 0,
            mode: TimerMode::Repeating,
            finished: false,
        },
    }
}

/// A single standing frame at `start`.
pub open spec fn standing(start: usize, mode: TimerMode) -> AnimationData {
    AnimationData {
        start_index: start,
        len: 1,
        timer: FrameTimer { duration: DEFAULT_FRAME_NANOS, elapsed: 0, mode, finished: false },
    }
}

/// The animations of the walking character on its sprite sheet.
pub open spec fn walk_table() -> Seq<(WalkKey, AnimationData)> {
    seq![
        ((PlayerDir::Down, PlayerState::Walk), walk_cycle(53)),
        ((PlayerDir::Up, PlayerState::Walk), walk_cycle(56)),
        ((PlayerDir::Right, PlayerState::Walk), walk_cycle(79)),
        ((PlayerDir::Left, PlayerState::Walk), walk_cycle(82)),
        ((PlayerDir::Down, PlayerState::Idle), standing(52, TimerMode::Repeating)),
        ((PlayerDir::Up, PlayerState::Idle), standing(55, TimerMode::Repeating)),
        ((PlayerDir::Right, PlayerState::Idle), standing(78, TimerMode::Repeating)),
        ((PlayerDir::Left, PlayerState::Idle), standing(81, TimerMode::Once)),
    ]
}

fn make_walk_cycle(start: usize) -> (r: AnimationData)
    ensures
        r == walk_cycle(start),
{
    AnimationData {
        start_index: start,
        len: 2,
        timer: FrameTimer {
            duration: WALK_FRAME_NANOS,
            elapsed: 0,
            mode: TimerMode::Repeating,
            finished: false,
        },
    }
}

fn make_standing(start: usize, mode: TimerMode) -> (r: AnimationData)
    ensures
        r == standing(start, mode),
{
    AnimationData {
        start_index: start,
        len: 1,
        timer: FrameTimer { duration: DEFAULT_FRAME_NANOS, elapsed: 0, mode, finished: false },
    }
}

/// The walking character's animation state machine, standing and facing down.
pub fn player_animations() -> (r: AnimationStateMachine<WalkKey>)
    ensures
        r@ == (MachineModel {
            entries: walk_table(),
            current_state: (PlayerDir::Down, PlayerState::Idle),
            current_frame: 0,
        }),
        r@.wf(),
{
    let data = vec![
        ((PlayerDir::Down, PlayerState::Walk), make_walk_cycle(53)),
        ((PlayerDir::Up, PlayerState::Walk), make_walk_cycle(56)),
        ((PlayerDir::Right, PlayerState::Walk), make_walk_cycle(79)),
        ((PlayerDir::Left, PlayerState::Walk), make_walk_cycle(82)),
        ((PlayerDir::Down, PlayerState::Idle), make_standing(52, TimerMode::Repeating)),
        ((PlayerDir::Up, PlayerState::Idle), make_standing(55, TimerMode::Repeating)),
        ((PlayerDir::Right, PlayerState::Idle), make_standing(78, TimerMode::Repeating)),
        ((PlayerDir::Left, PlayerState::Idle), make_standing(81, TimerMode::Once)),
    ];
    assert(data@ =~= walk_table());
    AnimationStateMachine::from_data(data, (PlayerDir::Down, PlayerState::Idle))
}

} // verus!
