//! Transitions: timed crossfades between two states, gated by a named
//! boolean rule parameter.
//!
//! A transition accumulates elapsed time, clamped to its total duration,
//! and derives a blend factor of elapsed over duration at fixed-point
//! scale: exactly zero at reset, exactly `FRAC_ONE` at completion, and
//! non-decreasing in between. It is done exactly when the clamped elapsed
//! time equals the duration; a zero-duration transition completes on its
//! first update.

use vstd::prelude::*;

use crate::fixed::FRAC_ONE;
use crate::pool::Handle;

verus! {

/// The blend factor of `elapsed` out of `total` time, in raw fixed-point
/// units: `FRAC_ONE` means the destination state alone.
pub open spec fn spec_factor(elapsed: u64, total: u64) -> int {
    if total == 0 {
        FRAC_ONE as int
    } else {
        (elapsed * FRAC_ONE) / (total as int)
    }
}

/// A timed crossfade from state `src` to state `dest`, activated when the
/// `Rule` parameter named `rule` reads true.
#[derive(PartialEq, Debug)]
pub struct Transition {
    pub name: String,
    /// Total amount of time to crossfade from `src` to `dest`, in raw
    /// fixed-point units.
    pub transition_time: u64,
    pub elapsed_time: u64,
    pub src: Handle,
    pub dest: Handle,
    /// Name of the `Rule` parameter that activates this transition.
    pub rule: String,
    /// Zero evaluates `src` alone, `FRAC_ONE` evaluates `dest` alone, and
    /// values in between blend the two.
    pub blend_factor: i64,
}

/// Elapsed time after advancing by `dt`: accumulated, and clamped to the
/// total duration.
pub open spec fn spec_elapsed_after(t: Transition, dt: u64) -> u64 {
    if t.elapsed_time + dt >= t.transition_time {
        t.transition_time
    } else {
        (t.elapsed_time + dt) as u64
    }
}

/// The transition after advancing by `dt`: elapsed time clamped to the
/// duration, blend factor rederived from it.
pub open spec fn spec_updated(t: Transition, dt: u64) -> Transition {
    Transition {
        elapsed_time: spec_elapsed_after(t, dt),
        blend_factor: spec_factor(spec_elapsed_after(t, dt), t.transition_time) as i64,
        ..t
    }
}

/// The transition returned to a fresh idle instance.
pub open spec fn spec_reset(t: Transition) -> Transition {
    Transition { elapsed_time: 0u64, blend_factor: 0i64, ..t }
}

/// A transition whose stored fields agree: elapsed time within the
/// duration, and the blend factor either rederived from it or zeroed
/// together with it by a reset that has not yet been advanced.
pub open spec fn spec_consistent(t: Transition) -> bool {
    &&& t.elapsed_time <= t.transition_time
    &&& (t.blend_factor as int == spec_factor(t.elapsed_time, t.transition_time) || (
    t.elapsed_time == 0 && t.blend_factor == 0))
}

impl Transition {
    /// True when the crossfade has consumed its whole duration.
    pub open spec fn spec_is_done(self) -> bool {
        self.elapsed_time == self.transition_time
    }

    /// A fresh transition: no time elapsed, blend factor zero.
    pub fn new(name: &str, src: Handle, dest: Handle, time: u64, rule: &str) -> (t: Transition)
        ensures
            t.name@ == name@,
            t.transition_time == time,
            t.elapsed_time == 0,
            t.src == src,
            t.dest == dest,
            t.rule@ == rule@,
            t.blend_factor == 0,
    {
        Transition {
            name: name.to_owned(),
            transition_time: time,
            elapsed_time: 0,
            src,
            dest,
            rule: rule.to_owned(),
            blend_factor: 0,
        }
    }

    /// Returns to a fresh idle instance: no time elapsed, blend factor
    /// zero.
    pub fn reset(&mut self)
        ensures
            *final(self) == spec_reset(*old(self)),
    {
        self.elapsed_time = 0;
        self.blend_factor = 0;
    }

    /// Advances by `dt`: elapsed time accumulates, clamped to the
    /// duration, and the blend factor is rederived as elapsed over
    /// duration.
    pub fn update(&mut self, dt: u64)
        ensures
            *final(self) == spec_updated(*old(self), dt),
            final(self).elapsed_time <= final(self).transition_time,
            0 <= final(self).blend_factor <= FRAC_ONE,
    {
        if dt >= self.transition_time || self.elapsed_time >= self.transition_time
            - dt {
            self.elapsed_time = self.transition_time;
        } else {
            self.elapsed_time = self.elapsed_time + dt;
        }
        self.blend_factor = factor_raw(self.elapsed_time, self.transition_time);
    }

    /// True when the crossfade has consumed its whole duration.
    pub fn is_done(&self) -> (r: bool)
        ensures
            r == self.spec_is_done(),
    {
        self.transition_time == self.elapsed_time
    }
}

/// The blend factor of `elapsed` out of `total` time, in raw fixed-point
/// units.
fn factor_raw(elapsed: u64, total: u64) -> (r: i64)
    requires
        elapsed <= total,
    ensures
        r as int == spec_factor(elapsed, total),
        0 <= r <= FRAC_ONE,
{
    if total == 0 {
        FRAC_ONE
    } else {
        proof {
            assert(0 <= (elapsed as int) * (FRAC_ONE as int)
                <= 0x1_0000_0000_0000_0000_0000_0000int) by (nonlinear_arith)
                requires
                    0 <= elapsed as int <= 0xffff_ffff_ffff_ffffint,
            ;
        }
        let q: u128 = ((elapsed as u128) * (FRAC_ONE as u128)) / (total as u128);
        proof {
            vstd::arithmetic::div_mod::lemma_div_is_ordered(
                (elapsed as int) * (FRAC_ONE as int),
                (total as int) * (FRAC_ONE as int),
                total as int,
            );
            vstd::arithmetic::mul::lemma_mul_inequality(
                elapsed as int,
                total as int,
                FRAC_ONE as int,
            );
            vstd::arithmetic::div_mod::lemma_div_multiples_vanish(FRAC_ONE as int, total as int);
            assert((total as int) * (FRAC_ONE as int) == (FRAC_ONE as int) * (total as int));
        }
        q as i64
    }
}

} // verus!
