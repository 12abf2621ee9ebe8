//! What the pacer's feedback achieves over many cycles.
//!
//! The model: a run of cycles against one target in which every read and write finds
//! its lock free, the mode is enabled, and the sleep primitive wakes later than asked
//! by one fixed amount. Cycle `i` spends `works[i]` on the frame itself.

use vstd::prelude::*;
use crate::pacer::oversleep;
use crate::pacer::oversleep_after;
use crate::pacer::planned_sleep;
use crate::pacer::sleep_time;
use crate::pacer::usable_target;
use crate::time::monus;

verus! {

/// How long one cycle takes from the end of the one before: the frame's work, the
/// wait the pacer asks for, and the overshoot of the sleep.
pub open spec fn cycle_time(target: nat, work: nat, carried: nat, overshoot: nat) -> nat {
    work + sleep_time(target, work, carried) + overshoot
}

/// The oversleep on record after the cycles of `works`, starting from none.
pub open spec fn carried_after(target: nat, overshoot: nat, works: Seq<nat>) -> nat
    decreases works.len(),
{
    if works.len() == 0 {
        0
    } else {
        let before = carried_after(target, overshoot, works.drop_last());
        oversleep(cycle_time(target, works.last(), before, overshoot), target)
    }
}

/// The time that the cycles of `works` take together.
pub open spec fn run_time(target: nat, overshoot: nat, works: Seq<nat>) -> nat
    decreases works.len(),
{
    if works.len() == 0 {
        0
    } else {
        let before = carried_after(target, overshoot, works.drop_last());
        run_time(target, overshoot, works.drop_last()) + cycle_time(
            target,
            works.last(),
            before,
            overshoot,
        )
    }
}

/// The model is what the pacer's two steps say of such a cycle. With the timer at
/// `sleep_end`, the frame done `work` later and the host awake `overshoot` after the
/// wait it was asked for: the frame time measured is `work`, the wait computed is
/// [`sleep_time`], the cycle measured is [`cycle_time`] long, and the oversleep put on
/// record is that of the whole cycle.
pub proof fn lemma_cycle_follows_the_pacer(
    sleep_end: nat,
    target: nat,
    work: nat,
    carried: nat,
    overshoot: nat,
)
    ensures
        ({
            let frame_time = monus(sleep_end + work, sleep_end);
            let wait = planned_sleep(Some(target), Some(carried), frame_time);
            let total = monus(sleep_end + work + wait + overshoot, sleep_end);
            &&& frame_time == work
            &&& wait == sleep_time(target, work, carried)
            &&& total == cycle_time(target, work, carried, overshoot)
            &&& oversleep_after(carried, usable_target(Some(target), Some(carried)), total)
                == oversleep(cycle_time(target, work, carried, overshoot), target)
        }),
{
}

/// Drift stays bounded. Where no frame's work is longer than the target, then after
/// any number of cycles the oversleep carried forward is at most one overshoot, and
/// the cycles have taken at least the target each and at most the target and one
/// overshoot each: the average frame period lies within one overshoot of the target,
/// however long the run.
pub proof fn lemma_drift_bounded(target: nat, overshoot: nat, works: Seq<nat>)
    requires
        forall|i: int| 0 <= i < works.len() ==> works[i] <= target,
    ensures
        carried_after(target, overshoot, works) <= overshoot,
        works.len() * target <= run_time(target, overshoot, works),
        run_time(target, overshoot, works) <= works.len() * (target + overshoot),
    decreases works.len(),
{
    if works.len() > 0 {
        let init = works.drop_last();
        let n = init.len();
        lemma_drift_bounded(target, overshoot, init);
        assert(works.last() <= target);
        assert((n + 1) * target == n * target + target) by (nonlinear_arith);
        assert((n + 1) * (target + overshoot) == n * (target + overshoot) + (target + overshoot))
            by (nonlinear_arith);
    } else {
        assert(works.len() * target == 0) by (nonlinear_arith)
            requires
                works.len() == 0,
        ;
        assert(works.len() * (target + overshoot) == 0) by (nonlinear_arith)
            requires
                works.len() == 0,
        ;
    }
}

/// Feedback halves the drift. Where every frame's work leaves room for the overshoot
/// within the target, each cycle's oversleep is taken off the next wait, so that the
/// excess over the target, summed over the run, is half an overshoot per cycle and the
/// oversleep still carried: twice the run's time is exactly twice the targets, one
/// overshoot per cycle, and the carried oversleep.
pub proof fn lemma_drift_halved(target: nat, overshoot: nat, works: Seq<nat>)
    requires
        forall|i: int| 0 <= i < works.len() ==> works[i] + overshoot <= target,
    ensures
        carried_after(target, overshoot, works) <= overshoot,
        2 * run_time(target, overshoot, works) == 2 * (works.len() * target) + works.len()
            * overshoot + carried_after(target, overshoot, works),
    decreases works.len(),
{
    if works.len() > 0 {
        let init = works.drop_last();
        let n = init.len();
        lemma_drift_halved(target, overshoot, init);
        assert(works.last() + overshoot <= target);
        assert((n + 1) * target == n * target + target) by (nonlinear_arith);
        assert((n + 1) * overshoot == n * overshoot + overshoot) by (nonlinear_arith);
    } else {
        assert(works.len() * target == 0) by (nonlinear_arith)
            requires
                works.len() == 0,
        ;
        assert(works.len() * overshoot == 0) by (nonlinear_arith)
            requires
                works.len() == 0,
        ;
    }
}

} // verus!
