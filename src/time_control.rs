//! The time controller: direction, pause state and speed of the simulation,
//! and the signed time delta each frame hands to the integrator.

use vstd::prelude::*;

verus! {

/// Fixed factor applied to the speed multiplier to get one frame's time delta.
pub const BASE_FRAME_SCALE: i64 = 1000;

/// Speed multiplier of a freshly started simulation.
pub const DEFAULT_SPEED: u32 = 1000;

/// Speed preset selected by the "slow" control.
pub const SPEED_SLOW: u32 = 1;

/// Speed preset selected by the "medium" control.
pub const SPEED_MEDIUM: u32 = 5;

/// Speed preset selected by the "fast" control.
pub const SPEED_FAST: u32 = 10;

/// The way simulated time runs.
#[derive(Clone, Copy, Debug, PartialEq, Eq, Structural)]
pub enum Direction {
    Forward,
    Backward,
}

/// Simulation-wide time control state.
#[derive(Clone, Copy, Debug, PartialEq, Eq, Structural)]
pub struct TimeState {
    pub direction: Direction,
    pub paused: bool,
    /// Strictly positive.
    pub speed_multiplier: u32,
    /// Total signed time applied so far, saturating at the bounds of `i128`.
    pub elapsed_time: i128,
}

/// `a + b`, held within the range of `i128`.
pub open spec fn saturated_sum(a: int, b: int) -> int {
    if a + b > i128::MAX {
        i128::MAX as int
    } else if a + b < i128::MIN {
        i128::MIN as int
    } else {
        a + b
    }
}

impl TimeState {
    /// The speed multiplier is strictly positive.
    pub open spec fn wf(self) -> bool {
        self.speed_multiplier > 0
    }

    /// `+1` when time runs forward, `-1` when it runs backward.
    pub open spec fn sign(self) -> int {
        match self.direction {
            Direction::Forward => 1,
            Direction::Backward => -1,
        }
    }

    /// The delta the next frame applies, or `None` when no step is taken.
    pub open spec fn frame_delta(self) -> Option<int> {
        if self.paused {
            None
        } else {
            Some(self.sign() * BASE_FRAME_SCALE * self.speed_multiplier)
        }
    }

    /// The state after one frame has been driven.
    pub open spec fn after_frame(self) -> TimeState {
        match self.frame_delta() {
            None => self,
            Some(d) => TimeState {
                elapsed_time: saturated_sum(self.elapsed_time as int, d) as i128,
                ..self
            },
        }
    }

    /// The state after `n` frames.
    pub open spec fn after_frames(self, n: nat) -> TimeState
        decreases n,
    {
        if n == 0 {
            self
        } else {
            self.after_frame().after_frames((n - 1) as nat)
        }
    }

    /// The deltas of the steps taken over `n` frames, in order.
    pub open spec fn steps_over(self, n: nat) -> Seq<int>
        decreases n,
    {
        if n == 0 {
            Seq::empty()
        } else {
            let rest = self.after_frame().steps_over((n - 1) as nat);
            match self.frame_delta() {
                None => rest,
                Some(d) => seq![d] + rest,
            }
        }
    }

    /// Forward, running, at the default speed, with no time elapsed.
    pub fn new() -> (r: TimeState)
        ensures
            r.wf(),
            r.direction == Direction::Forward,
            !r.paused,
            r.speed_multiplier == DEFAULT_SPEED,
            r.elapsed_time == 0,
    {
        TimeState { direction: Direction::Forward, paused: false, speed_multiplier: DEFAULT_SPEED, elapsed_time: 0 }
    }

    /// Sets the way time runs; nothing else changes.
    pub fn set_direction(&mut self, direction: Direction)
        ensures
            *final(self) == (TimeState { direction, ..*old(self) }),
    {
        self.direction = direction;
    }

    /// Flips the pause state; nothing else changes.
    pub fn toggle_pause(&mut self)
        ensures
            *final(self) == (TimeState { paused: !old(self).paused, ..*old(self) }),
    {
        self.paused = !self.paused;
    }

    /// Sets the speed multiplier; nothing else changes.
    pub fn set_speed(&mut self, speed: u32)
        requires
            speed > 0,
        ensures
            *final(self) == (TimeState { speed_multiplier: speed, ..*old(self) }),
            final(self).wf(),
    {
        self.speed_multiplier = speed;
    }

    /// The signed delta the next frame would apply, or `None` while paused.
    pub fn pending_delta(&self) -> (r: Option<i64>)
        requires
            self.wf(),
        ensures
            r matches Some(d) ==> self.frame_delta() == Some(d as int),
            r is None <==> self.frame_delta() is None,
    {
        if self.paused {
            None
        } else {
            let magnitude: i64 = BASE_FRAME_SCALE * (self.speed_multiplier as i64);
            assert(self.sign() * BASE_FRAME_SCALE * self.speed_multiplier == self.sign() * magnitude)
                by (nonlinear_arith)
                requires
                    magnitude == BASE_FRAME_SCALE * self.speed_multiplier,
            ;
            match self.direction {
                Direction::Forward => Some(magnitude),
                Direction::Backward => Some(-magnitude),
            }
        }
    }

    /// Drives one frame: returns the delta of the step to take, or `None`
    /// while paused, and adds that delta to the elapsed time.
    pub fn advance(&mut self) -> (r: Option<i64>)
        requires
            old(self).wf(),
        ensures
            *final(self) == old(self).after_frame(),
            final(self).wf(),
            r matches Some(d) ==> old(self).frame_delta() == Some(d as int),
            r is None <==> old(self).frame_delta() is None,
    {
        let r = self.pending_delta();
        if let Some(d) = r {
            let e = self.elapsed_time;
            let d = d as i128;
            self.elapsed_time = if d > 0 && e > i128::MAX - d {
                i128::MAX
            } else if d < 0 && e < i128::MIN - d {
                i128::MIN
            } else {
                e + d
            };
        }
        r
    }
}

/// While paused, any number of frames takes no step and leaves the
/// controller's state as it was, so no body changes.
pub proof fn lemma_paused_frames_take_no_step(s: TimeState, n: nat)
    requires
        s.paused,
    ensures
        s.after_frames(n) == s,
        s.steps_over(n) == Seq::<int>::empty(),
    decreases n,
{
    if n > 0 {
        lemma_paused_frames_take_no_step(s, (n - 1) as nat);
    }
}

} // verus!
