//! The two values that the simulation side shares with the pacer: the mirror of the
//! settings and the frame-time target.
//!
//! Each sits behind a lock that is only ever tried, never waited for. A function here
//! that writes one takes the outcome of the attempt: `Some` with the guarded value
//! where the lock was free, `None` where it was held. One that goes by a read takes
//! the value read, or `None`.

use vstd::prelude::*;
use crate::detect::detect_frametime;
use crate::detect::detected_frametime;
use crate::limiter::FramepaceSettings;
use crate::limiter::Limiter;
use crate::time::TimeSpan;
use crate::time::nanos_of;

verus! {

/// The mode in the settings mirror after a tick that found the lock free.
pub open spec fn proxy_after(stored: Limiter, settings: FramepaceSettings, changed: bool) -> Limiter {
    if changed {
        settings.limiter
    } else {
        stored
    }
}

/// The target that a tick computes, in nanoseconds; `None` where it computes none.
pub open spec fn computed_frametime(limiter: Limiter, rates: Seq<Option<u32>>) -> Option<nat> {
    match limiter {
        Limiter::Auto => detected_frametime(rates),
        Limiter::Manual(frametime) => Some(frametime@),
        Limiter::Off => None,
    }
}

/// The frame-time target, in nanoseconds, after a tick that found the lock free.
pub open spec fn frametime_limit_after(stored: nat, limiter: Limiter, rates: Seq<Option<u32>>) -> nat {
    match computed_frametime(limiter, rates) {
        Some(frametime) => frametime,
        None => stored,
    }
}

/// Whether this tick has a copy into the mirror to make: the settings have changed
/// since the previous tick, or the copy of an earlier change is still owed because the
/// mirror's lock was held then.
///
/// Only where a copy is due does the host try the mirror's lock.
pub fn copy_is_due(changed: bool, owed: bool) -> (due: bool)
    ensures
        due == (changed || owed),
{
    changed || owed
}

/// Copies changed settings into the mirror that the render side reads.
///
/// `changed` says whether a copy is due, as [`copy_is_due`] finds. Where the mirror's
/// lock was held the copy is skipped and the function returns `true`: the copy is owed
/// to the next tick.
pub fn update_proxy_resources(
    settings: &FramepaceSettings,
    changed: bool,
    proxy: Option<&mut Limiter>,
) -> (owed: bool)
    ensures
        owed == (changed && proxy is None),
        proxy matches Some(mirror) ==> *final(mirror) == proxy_after(*mirror, *settings, changed),
{
    match proxy {
        Some(mirror) => {
            if changed {
                *mirror = settings.limiter;
            }
            false
        },
        None => changed,
    }
}

/// Whether the pacer may wait, going by a read of the settings mirror.
///
/// `proxy` is `None` where the mirror's lock was held; pacing then stays on.
pub fn proxy_is_enabled(proxy: Option<Limiter>) -> (enabled: bool)
    ensures
        enabled == match proxy {
            Some(limiter) => limiter.enabled(),
            None => true,
        },
{
    match proxy {
        Some(limiter) => limiter.is_enabled(),
        None => true,
    }
}

/// Whether this tick has to ask the displays for their refresh rates.
pub fn wants_detection(settings: &FramepaceSettings) -> (wanted: bool)
    ensures
        wanted == (settings.limiter is Auto),
{
    match settings.limiter {
        Limiter::Auto => true,
        _ => false,
    }
}

/// Computes this tick's frame-time target.
///
/// A fixed mode gives its own frame time, the automatic mode what the detector finds
/// in `rates`, and the switched-off mode nothing. `rates` is read in automatic mode
/// only. Where there is no target to store, the host leaves the target's lock alone.
pub fn target_frametime(settings: &FramepaceSettings, rates: &[Option<u32>]) -> (frametime: Option<
    TimeSpan,
>)
    ensures
        nanos_of(frametime) == computed_frametime(settings.limiter, rates@),
{
    match settings.limiter {
        Limiter::Auto => detect_frametime(rates),
        Limiter::Manual(frametime) => Some(frametime),
        Limiter::Off => None,
    }
}

/// Computes this tick's frame-time target and stores it for the pacer.
///
/// Where the tick computes no target, or the lock of `frame_limit` was held, the
/// stored target stays as it is.
pub fn get_display_refresh_rate(
    settings: &FramepaceSettings,
    rates: &[Option<u32>],
    frame_limit: Option<&mut TimeSpan>,
)
    ensures
        frame_limit matches Some(limit) ==> final(limit)@ == frametime_limit_after(
            limit@,
            settings.limiter,
            rates@,
        ),
{
    match frame_limit {
        Some(limit) => {
            match target_frametime(settings, rates) {
                Some(new_frametime) => {
                    if new_frametime != *limit {
                        *limit = new_frametime;
                    }
                },
                None => {},
            }
        },
        None => {},
    }
}

/// A copy that a held lock put off is made up for: the next tick that finds the
/// mirror's lock free stores the settings' mode, whether or not they changed again.
pub proof fn lemma_owed_copy_is_made(
    stored: Limiter,
    settings: FramepaceSettings,
    changed: bool,
    owed: bool,
)
    requires
        owed,
    ensures
        proxy_after(stored, settings, changed || owed) == settings.limiter,
{
}

/// Setting the mode that is already set changes nothing: once a tick has stored a
/// mode and its target, a further tick with the same settings and the same refresh
/// rates leaves both as they are, whether or not it sees the settings as changed.
pub proof fn lemma_same_mode_twice(
    mirror: Limiter,
    limit: nat,
    settings: FramepaceSettings,
    rates: Seq<Option<u32>>,
    changed_again: bool,
)
    ensures
        proxy_after(proxy_after(mirror, settings, true), settings, changed_again) == proxy_after(
            mirror,
            settings,
            true,
        ),
        frametime_limit_after(
            frametime_limit_after(limit, settings.limiter, rates),
            settings.limiter,
            rates,
        ) == frametime_limit_after(limit, settings.limiter, rates),
{
}

} // verus!
