use vstd::laws_eq::obeys_concrete_eq;
use vstd::prelude::*;
use vstd::std_specs::cmp::PartialEqSpec;

use crate::timer::{ConfigError, FrameTimer, TimerMode, ticked};

verus! {

/// Period of a newly made animation's timer: one second.
pub const DEFAULT_FRAME_NANOS: u64 = 1_000_000_000;

/// One motion on a sprite sheet: `len` frames from `start_index`, one frame
/// per timer period.
#[derive(Clone, Copy, Debug, PartialEq, Eq, Structural)]
pub struct AnimationData {
    pub start_index: usize,
    pub len: usize,
    pub timer: FrameTimer,
}

impl AnimationData {
    pub open spec fn wf(self) -> bool {
        &&& self.len > 0
        &&& self.start_index + self.len <= usize::MAX
        &&& self.timer.wf()
    }

    /// `len` frames from `start_index`, a one-shot timer of one second;
    /// an animation without frames is refused.
    pub fn from_frames(start_index: usize, len: usize) -> (r: Result<AnimationData, ConfigError>)
        requires
            start_index + len <= usize::MAX,
        ensures
            len == 0 <==> r == Err::<AnimationData, ConfigError>(ConfigError::ZeroFrames),
            len > 0 ==> r == Ok::<AnimationData, ConfigError>(
                AnimationData {
                    start_index,
                    len,
                    timer: FrameTimer {
                        duration: DEFAULT_FRAME_NANOS,
                        elapsed: 0,
                        mode: TimerMode::Once,
                        finished: false,
                    },
                },
            ),
            r matches Ok(d) ==> d.wf(),
    {
        if len == 0 {
            return Err(ConfigError::ZeroFrames);
        }
        match FrameTimer::new(DEFAULT_FRAME_NANOS, TimerMode::Once) {
            Ok(timer) => Ok(AnimationData { start_index, len, timer }),
            Err(e) => Err(e),
        }
    }

    /// The same frames with a timer period of `duration` nanoseconds; the
    /// elapsed time, the mode and whether the timer finished are kept. A zero
    /// period is refused.
    pub fn with_duration(self, duration: u64) -> (r: Result<AnimationData, ConfigError>)
        requires
            self.wf(),
        ensures
            duration == 0 <==> r == Err::<AnimationData, ConfigError>(ConfigError::ZeroDuration),
            duration > 0 ==> r == Ok::<AnimationData, ConfigError>(
                AnimationData { timer: FrameTimer { duration, ..self.timer }, ..self },
            ),
            r matches Ok(d) ==> d.wf(),
    {
        if duration == 0 {
            Err(ConfigError::ZeroDuration)
        } else {
            Ok(AnimationData { timer: FrameTimer { duration, ..self.timer }, ..self })
        }
    }

    /// The timer after switching it to `mode`: a finished one-shot timer made
    /// repeating starts over from zero, not finished.
    pub open spec fn with_mode(self, mode: TimerMode) -> AnimationData {
        let t = self.timer;
        if t.mode != TimerMode::Repeating && mode == TimerMode::Repeating && t.finished {
            AnimationData { timer: FrameTimer { mode, elapsed: 0, finished: false, ..t }, ..self }
        } else {
            AnimationData { timer: FrameTimer { mode, ..t }, ..self }
        }
    }

    fn set_mode(self, mode: TimerMode) -> (r: AnimationData)
        requires
            self.wf(),
        ensures
            r == self.with_mode(mode),
            r.wf(),
    {
        let mut timer = self.timer;
        if timer.mode != TimerMode::Repeating && mode == TimerMode::Repeating && timer.finished() {
            timer.reset();
        }
        timer.mode = mode;
        AnimationData { timer, ..self }
    }

    /// The same animation, looping.
    pub fn repeating(self) -> (r: AnimationData)
        requires
            self.wf(),
        ensures
            r == self.with_mode(TimerMode::Repeating),
            r.wf(),
    {
        self.set_mode(TimerMode::Repeating)
    }

    /// The same animation, played once.
    pub fn once(self) -> (r: AnimationData)
        requires
            self.wf(),
        ensures
            r == self.with_mode(TimerMode::Once),
            r.wf(),
    {
        self.set_mode(TimerMode::Once)
    }

    /// The animation after `delta` nanoseconds, and the new frame offset
    /// when it stood at `offset`.
    pub open spec fn stepped(self, offset: nat, delta: nat) -> (AnimationData, nat) {
        let (t, n) = ticked(self.timer, delta);
        (AnimationData { timer: t, ..self }, (offset + n) % (self.len as nat))
    }

    /// Advances the timer by `delta` nanoseconds and moves `offset` on by the
    /// periods completed, modulo the number of frames.
    fn step(&mut self, offset: usize, delta: u64) -> (r: usize)
        requires
            old(self).wf(),
            offset < old(self).len,
        ensures
            (*final(self), r as nat) == old(self).stepped(offset as nat, delta as nat),
            final(self).wf(),
            r < final(self).len,
    {
        let n = self.timer.tick(delta);
        ((offset as u128 + n as u128) % self.len as u128) as usize
    }
}

/// Something that shows one frame of a sprite sheet at a time and moves on
/// as time passes.
pub trait FrameAnimation: View + Sized {
    /// The animation can be advanced and asked for its frame.
    spec fn ready(v: Self::V) -> bool;

    /// The animation after `delta` nanoseconds.
    spec fn advanced(v: Self::V, delta: nat) -> Self::V;

    /// The sprite-sheet index shown.
    spec fn frame_index(v: Self::V) -> int;

    fn advance(&mut self, delta: u64)
        requires
            Self::ready(old(self)@),
        ensures
            final(self)@ == Self::advanced(old(self)@, delta as nat),
            Self::ready(final(self)@),
    ;

    fn current_frame(&self) -> (r: usize)
        requires
            Self::ready(self@),
        ensures
            r == Self::frame_index(self@),
    ;
}

/// A single looping or one-shot animation.
#[derive(Clone, Copy, Debug, PartialEq, Eq, Structural)]
pub struct SimpleAnimation {
    pub data: AnimationData,
    pub current: usize,
}

impl SimpleAnimation {
    pub fn from_data(data: AnimationData) -> (r: SimpleAnimation)
        requires
            data.wf(),
        ensures
            r == (SimpleAnimation { data, current: 0 }),
            SimpleAnimation::ready(r@),
    {
        SimpleAnimation { data, current: 0 }
    }
}

impl View for SimpleAnimation {
    type V = SimpleAnimation;

    open spec fn view(&self) -> SimpleAnimation {
        *self
    }
}

impl FrameAnimation for SimpleAnimation {
    open spec fn ready(v: SimpleAnimation) -> bool {
        v.data.wf() && v.current < v.data.len
    }

    open spec fn advanced(v: SimpleAnimation, delta: nat) -> SimpleAnimation {
        let (d, offset) = v.data.stepped(v.current as nat, delta);
        SimpleAnimation { data: d, current: offset as usize }
    }

    open spec fn frame_index(v: SimpleAnimation) -> int {
        v.data.start_index + v.current
    }

    fn advance(&mut self, delta: u64) {
        let offset = self.data.step(self.current, delta);
        self.current = offset;
    }

    fn current_frame(&self) -> (r: usize) {
        self.current + self.data.start_index
    }
}

/// Index of the last entry for `key`: a later definition replaces an earlier one.
pub open spec fn position<S>(entries: Seq<(S, AnimationData)>, key: S) -> Option<int>
    decreases entries.len(),
{
    if entries.len() == 0 {
        None
    } else if entries.last().0 == key {
        Some(entries.len() - 1)
    } else {
        position(entries.drop_last(), key)
    }
}

/// The definition that `entries` gives for `key`.
pub open spec fn lookup<S>(entries: Seq<(S, AnimationData)>, key: S) -> Option<AnimationData> {
    match position(entries, key) {
        Some(i) => Some(entries[i].1),
        None => None,
    }
}

proof fn lemma_position<S>(entries: Seq<(S, AnimationData)>, key: S)
    ensures
        position(entries, key) matches Some(i) ==> {
            &&& 0 <= i < entries.len()
            &&& entries[i].0 == key
            &&& forall|j: int| i < j < entries.len() ==> entries[j].0 != key
        },
        position(entries, key) is None ==> forall|j: int|
            0 <= j < entries.len() ==> entries[j].0 != key,
    decreases entries.len(),
{
    if entries.len() > 0 {
        let rest = entries.drop_last();
        lemma_position(rest, key);
        assert(forall|j: int| 0 <= j < rest.len() ==> rest[j] == entries[j]);
    }
}

/// The position is found by the last entry with the key.
proof fn lemma_position_at<S>(entries: Seq<(S, AnimationData)>, key: S, i: int)
    requires
        0 <= i < entries.len(),
        entries[i].0 == key,
        forall|j: int| i < j < entries.len() ==> entries[j].0 != key,
    ensures
        position(entries, key) == Some(i),
    decreases entries.len(),
{
    if i < entries.len() - 1 {
        lemma_position_at(entries.drop_last(), key, i);
    }
}

proof fn lemma_position_absent<S>(entries: Seq<(S, AnimationData)>, key: S)
    requires
        forall|j: int| 0 <= j < entries.len() ==> entries[j].0 != key,
    ensures
        position(entries, key) is None,
    decreases entries.len(),
{
    if entries.len() > 0 {
        lemma_position_absent(entries.drop_last(), key);
    }
}

/// Replacing the definition of one entry keeps every key's position.
proof fn lemma_position_update<S>(
    entries: Seq<(S, AnimationData)>,
    i: int,
    d: AnimationData,
    key: S,
)
    requires
        0 <= i < entries.len(),
    ensures
        position(entries.update(i, (entries[i].0, d)), key) == position(entries, key),
    decreases entries.len(),
{
    let e2 = entries.update(i, (entries[i].0, d));
    if i < entries.len() - 1 {
        assert(e2.drop_last() =~= entries.drop_last().update(i, (entries[i].0, d)));
        lemma_position_update(entries.drop_last(), i, d, key);
    } else {
        assert(e2.drop_last() =~= entries.drop_last());
    }
}

/// What a state machine holds: its entries, the current state, and the
/// frame offset within that state's animation.
pub ghost struct MachineModel<S> {
    pub entries: Seq<(S, AnimationData)>,
    pub current_state: S,
    pub current_frame: nat,
}

impl<S> MachineModel<S> {
    /// The animation defined for `key`.
    pub open spec fn definition(self, key: S) -> Option<AnimationData> {
        lookup(self.entries, key)
    }

    pub open spec fn wf(self) -> bool {
        &&& forall|i: int| 0 <= i < self.entries.len() ==> (#[trigger] self.entries[i]).1.wf()
        &&& self.definition(self.current_state) matches Some(d) ==> self.current_frame < d.len
    }

    /// The machine after a switch to `new_state`: nothing changes when it is
    /// the current state; otherwise it becomes current, at frame offset 0,
    /// with its timer back at zero.
    pub open spec fn switched(self, new_state: S) -> MachineModel<S> {
        if new_state == self.current_state {
            self
        } else {
            let entries = match position(self.entries, new_state) {
                Some(i) => {
                    let d = self.entries[i].1;
                    self.entries.update(
                        i,
                        (
                            new_state,
                            AnimationData { timer: FrameTimer { elapsed: 0, finished: false, ..d.timer }, ..d },
                        ),
                    )
                },
                None => self.entries,
            };
            MachineModel { entries, current_state: new_state, current_frame: 0 }
        }
    }

    /// The machine after `delta` nanoseconds: the current state's timer runs
    /// and its frame offset moves on by the periods completed.
    pub open spec fn advanced(self, delta: nat) -> MachineModel<S> {
        match position(self.entries, self.current_state) {
            Some(i) => {
                let (d, offset) = self.entries[i].1.stepped(self.current_frame, delta);
                MachineModel {
                    entries: self.entries.update(i, (self.current_state, d)),
                    current_frame: offset,
                    ..self
                }
            },
            None => self,
        }
    }

    /// The sprite-sheet index shown now.
    pub open spec fn frame_index(self) -> int {
        match self.definition(self.current_state) {
            Some(d) => d.start_index + self.current_frame,
            None => 0,
        }
    }
}

/// Switching to the current state twice in a row changes nothing: the frame
/// offset and the timer keep their progress.
pub proof fn lemma_switch_same_is_noop<S>(m: MachineModel<S>, key: S)
    ensures
        m.switched(key).switched(key) == m.switched(key),
        key == m.current_state ==> m.switched(key) == m,
{
}

/// Switching to another state makes it current at frame offset 0 with its
/// timer at zero elapsed, whatever the progress before.
pub proof fn lemma_switch_other_resets<S>(m: MachineModel<S>, key: S)
    requires
        key != m.current_state,
    ensures
        m.switched(key).current_state == key,
        m.switched(key).current_frame == 0,
        m.definition(key) matches Some(d) ==> m.switched(key).definition(key) == Some(
            AnimationData { timer: FrameTimer { elapsed: 0, finished: false, ..d.timer }, ..d },
        ),
        m.definition(key) is None ==> m.switched(key).definition(key) is None,
{
    lemma_position(m.entries, key);
    if let Some(i) = position(m.entries, key) {
        let d = m.entries[i].1;
        let d2 = AnimationData { timer: FrameTimer { elapsed: 0, finished: false, ..d.timer }, ..d };
        lemma_position_update(m.entries, i, d2, key);
    }
}

/// Maps states to animations and plays the animation of the current state.
///
/// When several entries share a state, the last one defines it, as with
/// inserting them one by one into a map. The entries stay in a `Vec`: a hash
/// map's contract holds only for key types known to hash consistently with
/// their equality, which a caller cannot show for a key type of its own.
pub struct AnimationStateMachine<S> {
    pub map: Vec<(S, AnimationData)>,
    pub current_state: S,
    pub current_frame: usize,
}

impl<S> View for AnimationStateMachine<S> {
    type V = MachineModel<S>;

    open spec fn view(&self) -> MachineModel<S> {
        MachineModel {
            entries: self.map@,
            current_state: self.current_state,
            current_frame: self.current_frame as nat,
        }
    }
}

impl<S: PartialEq> AnimationStateMachine<S> {
    pub fn from_data(data: Vec<(S, AnimationData)>, start_state: S) -> (r: AnimationStateMachine<S>)
        requires
            forall|i: int| 0 <= i < data@.len() ==> (#[trigger] data@[i]).1.wf(),
        ensures
            r@ == (MachineModel { entries: data@, current_state: start_state, current_frame: 0 }),
            r@.wf(),
    {
        proof {
            lemma_position(data@, start_state);
        }
        AnimationStateMachine { map: data, current_state: start_state, current_frame: 0 }
    }

    /// Index of the entry that defines `key`.
    fn find(&self, key: &S) -> (r: Option<usize>)
        requires
            obeys_concrete_eq::<S>(),
        ensures
            r matches Some(i) ==> i < self.map@.len() && position(self.map@, *key) == Some(
                i as int,
            ),
            r is None ==> position(self.map@, *key) is None,
    {
        proof {
            reveal(obeys_concrete_eq);
            assert(S::obeys_eq_spec());
            assert(forall|k: S, l: S| #[trigger] k.eq_spec(&l) <==> (k == l));
        }
        let mut i: usize = self.map.len();
        while i > 0
            invariant
                i <= self.map@.len(),
                S::obeys_eq_spec(),
                forall|k: S, l: S| #[trigger] k.eq_spec(&l) <==> (k == l),
                forall|j: int| i <= j < self.map@.len() ==> self.map@[j].0 != *key,
            decreases i,
        {
            if self.map[i - 1].0.eq(key) {
                proof {
                    lemma_position_at(self.map@, *key, i - 1);
                }
                return Some(i - 1);
            }
            i = i - 1;
        }
        proof {
            lemma_position_absent(self.map@, *key);
        }
        None
    }

    /// Whether the current state has an animation, which `advance` and
    /// `current_frame` need.
    pub fn current_defined(&self) -> (r: bool)
        requires
            obeys_concrete_eq::<S>(),
        ensures
            r == self@.definition(self.current_state) is Some,
    {
        self.find(&self.current_state).is_some()
    }

    /// Makes `new_state` current, unless it already is: its frame offset and
    /// its timer start from zero.
    pub fn switch_state(&mut self, new_state: S)
        requires
            obeys_concrete_eq::<S>(),
            old(self)@.wf(),
        ensures
            final(self)@ == old(self)@.switched(new_state),
            final(self)@.wf(),
    {
        proof {
            reveal(obeys_concrete_eq);
            assert(S::obeys_eq_spec());
            assert(forall|k: S, l: S| #[trigger] k.eq_spec(&l) <==> (k == l));
        }
        let ghost before = self@;
        if !new_state.eq(&self.current_state) {
            let found = self.find(&new_state);
            proof {
                lemma_position(before.entries, new_state);
            }
            match found {
                Some(i) => {
                    self.map[i].1.timer.reset();
                    proof {
                        let d = before.entries[i as int].1;
                        let d2 = AnimationData { timer: FrameTimer { elapsed: 0, finished: false, ..d.timer }, ..d };
                        assert(self.map@ =~= before.entries.update(i as int, (new_state, d2)));
                        lemma_position_update(before.entries, i as int, d2, new_state);
                    }
                },
                None => {},
            }
            self.current_state = new_state;
            self.current_frame = 0;
        }
    }
}

impl<S: PartialEq> FrameAnimation for AnimationStateMachine<S> {
    open spec fn ready(v: MachineModel<S>) -> bool {
        &&& obeys_concrete_eq::<S>()
        &&& v.wf()
        &&& v.definition(v.current_state) is Some
    }

    open spec fn advanced(v: MachineModel<S>, delta: nat) -> MachineModel<S> {
        v.advanced(delta)
    }

    open spec fn frame_index(v: MachineModel<S>) -> int {
        v.frame_index()
    }

    fn advance(&mut self, delta: u64) {
        let ghost before = self@;
        let found = self.find(&self.current_state);
        proof {
            lemma_position(before.entries, before.current_state);
        }
        match found {
            Some(i) => {
                let offset = self.map[i].1.step(self.current_frame, delta);
                self.current_frame = offset;
                proof {
                    let d = self.map@[i as int].1;
                    assert(self.map@ =~= before.entries.update(i as int, (before.current_state, d)));
                    lemma_position_update(before.entries, i as int, d, before.current_state);
                }
            },
            None => {},
        }
    }

    fn current_frame(&self) -> (r: usize) {
        let found = self.find(&self.current_state);
        proof {
            lemma_position(self.map@, self.current_state);
        }
        match found {
            Some(i) => self.current_frame + self.map[i].1.start_index,
            None => 0,
        }
    }
}

} // verus!
