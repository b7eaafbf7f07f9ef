//! The time coordinate fed to the noise field, with pause and resume.
//!
//! Wall-clock time is given in milliseconds and the speed in thousandths, so
//! their product, like the effective time coordinate, is in millionths of a
//! noise unit.

use vstd::prelude::*;

verus! {

/// Whether `x` fits in an `i64`.
pub open spec fn fits_i64(x: int) -> bool {
    i64::MIN <= x <= i64::MAX
}

/// The scaled wall-clock time `wall * speed`.
pub open spec fn scaled(wall: i64, speed: i64) -> int {
    wall as int * speed as int
}

/// Running or paused time, with the reference offset that keeps the
/// effective time continuous across toggles.
pub struct TimeController {
    pub running: bool,
    pub reference: i64,
}

impl TimeController {
    /// The effective time coordinate at wall-clock time `wall` and speed `speed`.
    pub open spec fn effective(self, wall: i64, speed: i64) -> int {
        if self.running {
            scaled(wall, speed) - self.reference
        } else {
            self.reference as int
        }
    }

    /// Whether the effective time and a toggle at `(wall, speed)` fit in `i64`.
    pub open spec fn in_range(self, wall: i64, speed: i64) -> bool {
        &&& fits_i64(scaled(wall, speed))
        &&& fits_i64(scaled(wall, speed) - self.reference)
    }

    /// The controller after a toggle at `(wall, speed)`.
    pub open spec fn toggled(self, wall: i64, speed: i64) -> TimeController {
        TimeController {
            running: !self.running,
            reference: (scaled(wall, speed) - self.reference) as i64,
        }
    }

    /// A controller whose reference offset is zero.
    pub fn new(running: bool) -> (r: Self)
        ensures
            r.running == running,
            r.reference == 0,
    {
        TimeController { running, reference: 0 }
    }

    /// The effective time coordinate: `wall * speed - reference` while
    /// running, `reference` while paused.
    pub fn effective_time(&self, wall: i64, speed: i64) -> (r: i64)
        requires
            self.in_range(wall, speed),
        ensures
            r == self.effective(wall, speed),
    {
        if self.running {
            wall * speed - self.reference
        } else {
            self.reference
        }
    }

    /// Switches between running and paused at wall-clock time `wall`; the
    /// effective time at that instant is the same before and after.
    pub fn toggle(&mut self, wall: i64, speed: i64)
        requires
            old(self).in_range(wall, speed),
        ensures
            *final(self) == old(self).toggled(wall, speed),
            final(self).running == !old(self).running,
            final(self).in_range(wall, speed),
            final(self).effective(wall, speed) == old(self).effective(wall, speed),
    {
        self.reference = wall * speed - self.reference;
        self.running = !self.running;
    }

    /// Sets the running state at wall-clock time `wall`, toggling only when
    /// it differs from the current one.
    pub fn set_running(&mut self, running: bool, wall: i64, speed: i64)
        requires
            old(self).in_range(wall, speed),
        ensures
            final(self).running == running,
            running != old(self).running ==> *final(self) == old(self).toggled(wall, speed),
            running == old(self).running ==> *final(self) == *old(self),
            final(self).effective(wall, speed) == old(self).effective(wall, speed),
    {
        if running != self.running {
            self.toggle(wall, speed);
        }
    }
}

/// Pausing at `paused_at` and resuming at `resumed_at` leaves the effective
/// time at the resume instant equal to the one at the pause instant; when
/// both instants coincide the round trip leaves the controller's time
/// unchanged, and afterwards the clock runs behind by exactly the paused span.
pub proof fn lemma_pause_resume_continuous(
    c: TimeController,
    paused_at: i64,
    resumed_at: i64,
    speed: i64,
    later: i64,
)
    requires
        c.running,
        c.in_range(paused_at, speed),
        c.toggled(paused_at, speed).in_range(resumed_at, speed),
    ensures
        ({
            let back = c.toggled(paused_at, speed).toggled(resumed_at, speed);
            &&& back.running
            &&& back.effective(resumed_at, speed) == c.effective(paused_at, speed)
            &&& back.effective(later, speed) == c.effective(later, speed) - (scaled(
                resumed_at,
                speed,
            ) - scaled(paused_at, speed))
            &&& resumed_at == paused_at ==> back == c
        }),
{
}

/// While running with a non-negative speed, the effective time never
/// decreases as wall-clock time advances.
pub proof fn lemma_running_monotone(c: TimeController, w1: i64, w2: i64, speed: i64)
    requires
        c.running,
        speed >= 0,
        w1 <= w2,
    ensures
        c.effective(w1, speed) <= c.effective(w2, speed),
{
    assert(w1 as int * speed as int <= w2 as int * speed as int) by (nonlinear_arith)
        requires
            w1 <= w2,
            speed >= 0,
    ;
}

} // verus!
