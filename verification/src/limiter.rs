//! The pacing mode a host chooses.

use vstd::prelude::*;
use crate::time::TimeSpan;

verus! {

/// How frames are paced.
#[derive(Clone, Copy, Debug, PartialEq, Eq, Structural)]
pub enum Limiter {
    /// Take the frame time from the refresh rate of the display.
    Auto,
    /// Hold a fixed frame time. It is meant to be positive and no shorter than the
    /// display's own interval; a shorter one costs avoidable oversleep, an empty one
    /// paces nothing.
    Manual(TimeSpan),
    /// Do not wait at all.
    Off,
}

impl Limiter {
    /// The fixed mode with the given frame time, or `None` for an empty one.
    pub fn manual(frametime: TimeSpan) -> (limiter: Option<Limiter>)
        ensures
            limiter == if frametime@ > 0 {
                Some(Limiter::Manual(frametime))
            } else {
                None
            },
    {
        if frametime.is_zero() {
            None
        } else {
            Some(Limiter::Manual(frametime))
        }
    }

    /// Whether this mode lets the pacer wait.
    pub open spec fn enabled(self) -> bool {
        !(self is Off)
    }

    /// Returns `true` unless the mode is [`Limiter::Off`].
    pub fn is_enabled(&self) -> (b: bool)
        ensures
            b == self.enabled(),
    {
        match self {
            Limiter::Off => false,
            _ => true,
        }
    }
}

impl Default for Limiter {
    /// [`Limiter::Auto`].
    fn default() -> (l: Limiter)
        ensures
            l == Limiter::Auto,
    {
        Limiter::Auto
    }
}

/// The configuration a host edits.
#[derive(Clone, Copy, Debug, PartialEq, Eq, Structural)]
pub struct FramepaceSettings {
    /// The pacing mode in force.
    pub limiter: Limiter,
}

impl Default for FramepaceSettings {
    /// Settings with [`Limiter::Auto`].
    fn default() -> (s: FramepaceSettings)
        ensures
            s.limiter == Limiter::Auto,
    {
        FramepaceSettings { limiter: Limiter::Auto }
    }
}

} // verus!
