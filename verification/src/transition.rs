//! The phases of the fade-to-black transition between screens.
//!
//! A transition runs in two halves: fade out (the current screen darkens to
//! black), then fade in (the new screen brightens from black). The screen swap
//! happens at the midpoint, when the view is fully black. How far each half has
//! progressed is timed by the caller; this module decides the phases: when a
//! fade may start, and what finishing each half does.

use vstd::prelude::*;
use crate::screens::Screen;

verus! {

/// The phase of the fade.
#[derive(Clone, Copy, Debug, PartialEq, Eq, Structural)]
pub enum FadePhase {
    /// No transition running.
    Idle,
    /// Darkening toward a switch to the given screen.
    Out(Screen),
    /// Brightening from black after the switch.
    In,
}

impl FadePhase {
    /// `true` while a fade is in progress; input should be ignored then so a
    /// transition cannot be interrupted or stacked.
    pub fn is_active(self) -> (b: bool)
        ensures
            b == !(self is Idle),
    {
        match self {
            FadePhase::Idle => false,
            _ => true,
        }
    }

    /// Begins fading out toward `target`. Ignored if a fade is already
    /// running, so a key pressed twice cannot queue two switches. Returns
    /// whether a fade started (the caller then restarts its fade clock).
    pub fn start(&mut self, target: Screen) -> (started: bool)
        ensures
            started == (*old(self) is Idle),
            *final(self) == if started { FadePhase::Out(target) } else { *old(self) },
    {
        match *self {
            FadePhase::Idle => {
                *self = FadePhase::Out(target);
                true
            },
            _ => false,
        }
    }

    /// The current half has run to its end. Finishing the fade-out switches
    /// to the fade-in and returns the screen to show now (the midpoint);
    /// finishing the fade-in ends the transition.
    pub fn half_done(&mut self) -> (switch_to: Option<Screen>)
        ensures
            match *old(self) {
                FadePhase::Idle => *final(self) == FadePhase::Idle && switch_to is None,
                FadePhase::Out(t) => *final(self) == FadePhase::In && switch_to == Some(t),
                FadePhase::In => *final(self) == FadePhase::Idle && switch_to is None,
            },
    {
        match *self {
            FadePhase::Idle => None,
            FadePhase::Out(t) => {
                *self = FadePhase::In;
                Some(t)
            },
            FadePhase::In => {
                *self = FadePhase::Idle;
                None
            },
        }
    }
}

} // verus!
