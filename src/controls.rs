//! Viewport zoom and the control events that drive the time controller and
//! the view.

use vstd::prelude::*;
use crate::time_control::{Direction, TimeState, SPEED_FAST, SPEED_MEDIUM, SPEED_SLOW};

verus! {

/// Viewport state. The zoom factor is `ZOOM_STEP ^ zoom_level`, where
/// `ZOOM_STEP` is the factor of one zoom control (1.1 in the viewer).
#[derive(Clone, Copy, Debug, PartialEq, Eq, Structural)]
pub struct ViewState {
    pub zoom_level: i32,
}

/// A control intent, already decoded from the input device.
#[derive(Clone, Copy, Debug, PartialEq, Eq, Structural)]
pub enum ControlEvent {
    ZoomIn,
    ZoomOut,
    RunForward,
    RunBackward,
    SpeedSlow,
    SpeedMedium,
    SpeedFast,
    TogglePause,
}

impl ViewState {
    /// Unzoomed view.
    pub fn new() -> (r: ViewState)
        ensures
            r.zoom_level == 0,
    {
        ViewState { zoom_level: 0 }
    }

    /// One zoom step in; the level stays put at the top of its range.
    pub fn zoom_in(&mut self)
        ensures
            final(self).zoom_level == if old(self).zoom_level < i32::MAX {
                old(self).zoom_level + 1
            } else {
                old(self).zoom_level as int
            },
    {
        if self.zoom_level < i32::MAX {
            self.zoom_level = self.zoom_level + 1;
        }
    }

    /// One zoom step out; the level stays put at the bottom of its range.
    pub fn zoom_out(&mut self)
        ensures
            final(self).zoom_level == if old(self).zoom_level > i32::MIN {
                old(self).zoom_level - 1
            } else {
                old(self).zoom_level as int
            },
    {
        if self.zoom_level > i32::MIN {
            self.zoom_level = self.zoom_level - 1;
        }
    }
}

/// The time state after `event`: the direction controls set the direction,
/// the speed controls set a preset speed, the pause control flips the pause
/// state, and the zoom controls leave it alone.
pub open spec fn time_after_event(t: TimeState, event: ControlEvent) -> TimeState {
    match event {
        ControlEvent::RunForward => TimeState { direction: Direction::Forward, ..t },
        ControlEvent::RunBackward => TimeState { direction: Direction::Backward, ..t },
        ControlEvent::SpeedSlow => TimeState { speed_multiplier: SPEED_SLOW, ..t },
        ControlEvent::SpeedMedium => TimeState { speed_multiplier: SPEED_MEDIUM, ..t },
        ControlEvent::SpeedFast => TimeState { speed_multiplier: SPEED_FAST, ..t },
        ControlEvent::TogglePause => TimeState { paused: !t.paused, ..t },
        ControlEvent::ZoomIn | ControlEvent::ZoomOut => t,
    }
}

/// The zoom level after `event`: one step in or out, held within `i32`; the
/// other controls leave it alone.
pub open spec fn zoom_after_event(level: i32, event: ControlEvent) -> i32 {
    match event {
        ControlEvent::ZoomIn => if level < i32::MAX { (level + 1) as i32 } else { level },
        ControlEvent::ZoomOut => if level > i32::MIN { (level - 1) as i32 } else { level },
        _ => level,
    }
}

/// Applies one control event to the time controller and the view.
pub fn apply_control(time: &mut TimeState, view: &mut ViewState, event: ControlEvent)
    requires
        old(time).wf(),
    ensures
        *final(time) == time_after_event(*old(time), event),
        final(time).wf(),
        final(view).zoom_level == zoom_after_event(old(view).zoom_level, event),
{
    match event {
        ControlEvent::ZoomIn => view.zoom_in(),
        ControlEvent::ZoomOut => view.zoom_out(),
        ControlEvent::RunForward => time.set_direction(Direction::Forward),
        ControlEvent::RunBackward => time.set_direction(Direction::Backward),
        ControlEvent::SpeedSlow => time.set_speed(SPEED_SLOW),
        ControlEvent::SpeedMedium => time.set_speed(SPEED_MEDIUM),
        ControlEvent::SpeedFast => time.set_speed(SPEED_FAST),
        ControlEvent::TogglePause => time.toggle_pause(),
    }
}

} // verus!
