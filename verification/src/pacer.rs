//! The render side: the pacer, which runs once at the tail of every frame.
//!
//! The pacer neither reads a clock nor blocks. Its host hands it clock readings, as
//! spans since an origin of the host's choosing, and the outcomes of its lock
//! attempts; the pacer says how long to wait and what to publish.
//!
//! One cycle is [`framerate_limiter`], the wait it asks for, then [`complete_frame`].

use vstd::prelude::*;
use crate::limiter::Limiter;
use crate::shared::proxy_is_enabled;
use crate::time::TimeSpan;
use crate::time::monus;
use crate::time::nanos_of;

verus! {

/// The wait that brings a cycle up to its target: what is left of `target` after the
/// frame's own time and the oversleep carried over from the cycle before. Never
/// negative.
pub open spec fn sleep_time(target: nat, frame_time: nat, oversleep: nat) -> nat {
    monus(target, frame_time + oversleep)
}

/// By how much a cycle that took `total` overran `target`. Never negative.
pub open spec fn oversleep(total: nat, target: nat) -> nat {
    monus(total, target)
}

/// The target a cycle works with: the stored one, but only where both the target and
/// the carried oversleep could be read.
pub open spec fn usable_target(target: Option<nat>, carried: Option<nat>) -> Option<nat> {
    match (target, carried) {
        (Some(target), Some(_)) => Some(target),
        _ => None,
    }
}

/// The wait a cycle computes: [`sleep_time`] where it has a target, nothing otherwise.
pub open spec fn planned_sleep(target: Option<nat>, carried: Option<nat>, frame_time: nat) -> nat {
    match (target, carried) {
        (Some(target), Some(carried)) => sleep_time(target, frame_time, carried),
        _ => 0,
    }
}

/// Whether a cycle blocks: it has a target, and the mode it read is not
/// [`Limiter::Off`]. A mode that could not be read counts as enabled.
pub open spec fn pacer_waits(
    target: Option<nat>,
    carried: Option<nat>,
    limiter: Option<Limiter>,
) -> bool {
    &&& usable_target(target, carried) is Some
    &&& limiter matches Some(limiter) ==> limiter.enabled()
}

/// The oversleep on record after a cycle that took `total` and found the lock free:
/// measured against the cycle's target, or left as stored where it had none.
pub open spec fn oversleep_after(stored: nat, target: Option<nat>, total: nat) -> nat {
    match target {
        Some(target) => oversleep(total, target),
        None => stored,
    }
}

/// The clock reading at which the previous pacing cycle ended. Its view is that
/// reading in nanoseconds.
#[derive(Clone, Copy, Debug, PartialEq, Eq, Structural)]
pub struct FrameTimer {
    sleep_end: TimeSpan,
}

impl View for FrameTimer {
    type V = nat;

    closed spec fn view(&self) -> nat {
        self.sleep_end@
    }
}

impl FrameTimer {
    /// A timer started at the clock reading `now`.
    pub fn new(now: TimeSpan) -> (timer: FrameTimer)
        ensures
            timer@ == now@,
    {
        FrameTimer { sleep_end: now }
    }

    /// The clock reading at which the previous cycle ended.
    pub fn sleep_end(&self) -> (at: TimeSpan)
        ensures
            at@ == self@,
    {
        self.sleep_end
    }

    /// The time from the end of the previous cycle to the clock reading `now`; empty
    /// where `now` lies before it.
    pub fn elapsed(&self, now: TimeSpan) -> (span: TimeSpan)
        ensures
            span@ == monus(now@, self@),
    {
        now.saturating_sub(self.sleep_end)
    }
}

/// What the pacer decided for one frame before its wait.
#[derive(Clone, Copy, Debug, PartialEq, Eq, Structural)]
pub struct PacedFrame {
    /// The time the frame's own work took, from the end of the previous cycle.
    pub frame_time: TimeSpan,
    /// The target this cycle works with, if it has one.
    pub target: Option<TimeSpan>,
    /// The wait computed for this cycle.
    pub sleep_time: TimeSpan,
    /// Whether to block for `sleep_time`. Where it is `false` the host does not wait.
    pub wait: bool,
}

/// The last measurements of the pacer, for a host's diagnostics.
#[derive(Clone, Copy, Debug, PartialEq, Eq, Structural)]
pub struct FramePaceStats {
    frametime: TimeSpan,
    oversleep: TimeSpan,
}

impl FramePaceStats {
    /// The frame time on record, in nanoseconds.
    pub closed spec fn frametime_nanos(self) -> nat {
        self.frametime@
    }

    /// The oversleep on record, in nanoseconds.
    pub closed spec fn oversleep_nanos(self) -> nat {
        self.oversleep@
    }

    /// The time the last frame's work took.
    pub fn frametime(&self) -> (span: TimeSpan)
        ensures
            span@ == self.frametime_nanos(),
    {
        self.frametime
    }

    /// By how much the last cycle overran its target.
    pub fn oversleep(&self) -> (span: TimeSpan)
        ensures
            span@ == self.oversleep_nanos(),
    {
        self.oversleep
    }

    /// Takes in fresh reads of the two shared measurements. A measurement whose lock
    /// was held, read as `None`, keeps the value on record.
    pub fn refresh(&mut self, frametime: Option<TimeSpan>, oversleep: Option<TimeSpan>)
        ensures
            final(self).frametime_nanos() == match frametime {
                Some(span) => span@,
                None => old(self).frametime_nanos(),
            },
            final(self).oversleep_nanos() == match oversleep {
                Some(span) => span@,
                None => old(self).oversleep_nanos(),
            },
    {
        match frametime {
            Some(span) => {
                self.frametime = span;
            },
            None => {},
        }
        match oversleep {
            Some(span) => {
                self.oversleep = span;
            },
            None => {},
        }
    }
}

impl Default for FramePaceStats {
    /// Nothing measured yet: both measurements empty.
    fn default() -> (stats: FramePaceStats)
        ensures
            stats.frametime_nanos() == 0,
            stats.oversleep_nanos() == 0,
    {
        FramePaceStats { frametime: TimeSpan::zero(), oversleep: TimeSpan::zero() }
    }
}

/// Computes the wait that brings a cycle up to `target`.
pub fn compute_sleep_time(target: TimeSpan, frame_time: TimeSpan, carried: TimeSpan) -> (wait:
    TimeSpan)
    ensures
        wait@ == sleep_time(target@, frame_time@, carried@),
{
    proof {
        use_type_invariant(target);
    }
    target.saturating_sub(frame_time.saturating_add(carried))
}

/// Measures by how much a cycle that took `total` overran `target`.
pub fn measure_oversleep(total: TimeSpan, target: TimeSpan) -> (over: TimeSpan)
    ensures
        over@ == oversleep(total@, target@),
{
    total.saturating_sub(target)
}

/// Opens a pacing cycle: measures the frame and decides its wait.
///
/// `now` is the clock reading once all of the frame's work has been handed in.
/// `target`, `carried` and `limiter` are non-blocking reads of the stored target, of
/// the oversleep on record and of the settings mirror, each `None` where its lock was
/// held.
///
/// Without a target or without the carried oversleep the cycle has no target: it
/// computes no wait and does not block. With both, the wait is [`sleep_time`]; the
/// host blocks for it unless the mode read is [`Limiter::Off`].
pub fn framerate_limiter(
    timer: &FrameTimer,
    now: TimeSpan,
    target: Option<TimeSpan>,
    carried: Option<TimeSpan>,
    limiter: Option<Limiter>,
) -> (frame: PacedFrame)
    ensures
        frame.frame_time@ == monus(now@, timer@),
        nanos_of(frame.target) == usable_target(nanos_of(target), nanos_of(carried)),
        frame.sleep_time@ == planned_sleep(
            nanos_of(target),
            nanos_of(carried),
            monus(now@, timer@),
        ),
        frame.wait == pacer_waits(nanos_of(target), nanos_of(carried), limiter),
{
    let frame_time = timer.elapsed(now);
    match (target, carried) {
        (Some(target), Some(carried)) => PacedFrame {
            frame_time,
            target: Some(target),
            sleep_time: compute_sleep_time(target, frame_time, carried),
            wait: proxy_is_enabled(limiter),
        },
        _ => PacedFrame { frame_time, target: None, sleep_time: TimeSpan::zero(), wait: false },
    }
}

/// Closes a pacing cycle: restarts the timer and publishes the measurements.
///
/// `now` is the clock reading after the wait, or right away where there was none.
/// `frametime` and `oversleep` are the outcomes of the lock attempts on the two
/// measurements: `Some` with the guarded value, `None` where the lock was held.
///
/// The timer always restarts at `now`. The frame time goes on record where its
/// lock was free. So does the oversleep of the whole cycle, measured from the end of
/// the previous one, where the cycle had a target.
pub fn complete_frame(
    timer: &mut FrameTimer,
    frame: &PacedFrame,
    now: TimeSpan,
    frametime: Option<&mut TimeSpan>,
    oversleep: Option<&mut TimeSpan>,
)
    ensures
        final(timer)@ == now@,
        frametime matches Some(record) ==> final(record)@ == frame.frame_time@,
        oversleep matches Some(record) ==> final(record)@ == oversleep_after(
            record@,
            nanos_of(frame.target),
            monus(now@, old(timer)@),
        ),
{
    let total = timer.elapsed(now);
    timer.sleep_end = now;
    match frametime {
        Some(record) => {
            *record = frame.frame_time;
        },
        None => {},
    }
    match oversleep {
        Some(record) => {
            match frame.target {
                Some(target) => {
                    *record = measure_oversleep(total, target);
                },
                None => {},
            }
        },
        None => {},
    }
}

/// In mode [`Limiter::Off`] a cycle never blocks, whatever the target, yet it still
/// measures: with both reads at hand it has a target to measure the oversleep against.
pub proof fn lemma_off_measures_without_waiting(target: nat, carried: nat, stored: nat, total: nat)
    ensures
        !pacer_waits(Some(target), Some(carried), Some(Limiter::Off)),
        oversleep_after(stored, usable_target(Some(target), Some(carried)), total) == oversleep(
            total,
            target,
        ),
{
}

} // verus!
