use vstd::prelude::*;

verus! {

/// Whether a timer rearms after completing a period.
#[derive(Clone, Copy, Debug, PartialEq, Eq, Structural)]
pub enum TimerMode {
    Once,
    Repeating,
}

/// A configuration that an animation cannot run with.
#[derive(Clone, Copy, Debug, PartialEq, Eq, Structural)]
pub enum ConfigError {
    /// A timer period of zero length.
    ZeroDuration,
    /// An animation with no frames.
    ZeroFrames,
}

/// Accumulates elapsed time against a period, in nanoseconds.
///
/// `finished` tells whether the last tick completed a period. A one-shot
/// timer that has finished stays put at `duration`; a repeating timer keeps
/// the part of the last period that has not completed yet. The elapsed time
/// may stand at or past the period when the period was shortened; the next
/// tick then completes it.
#[derive(Clone, Copy, Debug, PartialEq, Eq, Structural)]
pub struct FrameTimer {
    pub duration: u64,
    pub elapsed: u64,
    pub mode: TimerMode,
    pub finished: bool,
}

/// The timer after `delta` more nanoseconds, and how many periods completed.
pub open spec fn ticked(t: FrameTimer, delta: nat) -> (FrameTimer, nat) {
    let total = (t.elapsed + delta) as nat;
    let d = t.duration as nat;
    if t.mode == TimerMode::Once && t.finished {
        (t, 0)
    } else if total < d {
        (FrameTimer { elapsed: total as u64, finished: false, ..t }, 0)
    } else {
        match t.mode {
            TimerMode::Once => (FrameTimer { elapsed: t.duration, finished: true, ..t }, 1),
            TimerMode::Repeating => (
                FrameTimer { elapsed: (total % d) as u64, finished: true, ..t },
                total / d,
            ),
        }
    }
}

impl FrameTimer {
    pub open spec fn wf(self) -> bool {
        self.duration > 0
    }

    /// A timer with no time elapsed; a zero period is refused.
    pub fn new(duration: u64, mode: TimerMode) -> (r: Result<FrameTimer, ConfigError>)
        ensures
            duration == 0 <==> r == Err::<FrameTimer, ConfigError>(ConfigError::ZeroDuration),
            duration > 0 ==> r == Ok::<FrameTimer, ConfigError>(
                FrameTimer { duration, elapsed: 0, mode, finished: false },
            ),
            r matches Ok(t) ==> t.wf(),
    {
        if duration == 0 {
            Err(ConfigError::ZeroDuration)
        } else {
            Ok(FrameTimer { duration, elapsed: 0, mode, finished: false })
        }
    }

    /// Whether the last tick completed a period.
    pub fn finished(&self) -> (r: bool)
        ensures
            r == self.finished,
    {
        self.finished
    }

    /// Back to no time elapsed and not finished.
    pub fn reset(&mut self)
        ensures
            *final(self) == (FrameTimer { elapsed: 0, finished: false, ..*old(self) }),
    {
        self.elapsed = 0;
        self.finished = false;
    }

    /// Adds `delta` nanoseconds and returns how many periods completed: any
    /// number for a repeating timer, at most one for a one-shot timer, and none
    /// once a one-shot timer has finished.
    pub fn tick(&mut self, delta: u64) -> (r: u128)
        requires
            old(self).wf(),
        ensures
            (*final(self), r as nat) == ticked(*old(self), delta as nat),
            final(self).wf(),
    {
        if self.mode == TimerMode::Once && self.finished {
            return 0;
        }
        let total = self.elapsed as u128 + delta as u128;
        let d = self.duration as u128;
        if total < d {
            self.elapsed = total as u64;
            self.finished = false;
            return 0;
        }
        self.finished = true;
        match self.mode {
            TimerMode::Once => {
                self.elapsed = self.duration;
                1
            },
            TimerMode::Repeating => {
                proof {
                    vstd::arithmetic::div_mod::lemma_mod_bound(total as int, d as int);
                }
                self.elapsed = (total % d) as u64;
                total / d
            },
        }
    }
}

} // verus!
