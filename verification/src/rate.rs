//! Rate/drift compensation inside the playback path.
//!
//! Capture and playback clocks drift apart; the playback thread keeps an
//! internal buffer whose fill level shows the mismatch. A [`RateController`]
//! re-evaluates that level once per adjustment period and asks for a small,
//! bounded rate correction toward the configured target level: persistently
//! above target means the sink is fed faster than it drains, so playback
//! must speed its consumption down, and below target the other way round.
//! Corrections are capped per tick so convergence is gradual and inaudible
//! rather than a single step to the target.

use vstd::prelude::*;

verus! {

/// One requested rate correction. The amount is a rate nudge in the
/// caller's unit (for example parts per million); its magnitude never
/// exceeds the controller's configured cap.
pub enum RateAdjustment {
    SpeedUp { amount: u64 },
    SlowDown { amount: u64 },
    Hold,
}

/// What the bounded correction toward `target` looks like at fill level
/// `level`: hold on target, otherwise nudge against the deviation, by the
/// deviation itself or by the cap `max_step`, whichever is smaller.
pub open spec fn spec_is_correction(target: int, max_step: int, level: int, adj: RateAdjustment) -> bool {
    if level == target {
        adj == RateAdjustment::Hold
    } else if level > target {
        adj matches RateAdjustment::SlowDown { amount } && amount == if level - target
            <= max_step {
            level - target
        } else {
            max_step
        }
    } else {
        adj matches RateAdjustment::SpeedUp { amount } && amount == if target - level
            <= max_step {
            target - level
        } else {
            max_step
        }
    }
}

/// The drift compensator of one playback thread.
pub struct RateController {
    /// Desired buffer occupancy, in frames.
    pub target_level: u64,
    /// Ticks (chunks played) between two corrections.
    pub adjust_period: u64,
    /// Cap on the magnitude of one correction.
    pub max_step: u64,
    /// Ticks left until the next evaluation.
    pub countdown: u64,
}

impl RateController {
    /// The controller's invariant: the period is at least one tick and the
    /// countdown stays within it.
    pub open spec fn wf(self) -> bool {
        &&& self.adjust_period >= 1
        &&& 1 <= self.countdown <= self.adjust_period
    }

    pub fn new(target_level: u64, adjust_period: u64, max_step: u64) -> (c: Self)
        requires
            adjust_period >= 1,
        ensures
            c.wf(),
            c.target_level == target_level,
            c.adjust_period == adjust_period,
            c.max_step == max_step,
            c.countdown == adjust_period,
    {
        RateController { target_level, adjust_period, max_step, countdown: adjust_period }
    }

    /// The bounded correction for the current fill level, independent of
    /// the period.
    pub fn correction(&self, level: u64) -> (adj: RateAdjustment)
        ensures
            spec_is_correction(self.target_level as int, self.max_step as int, level as int, adj),
    {
        if level == self.target_level {
            RateAdjustment::Hold
        } else if level > self.target_level {
            let diff = level - self.target_level;
            let amount = if diff <= self.max_step {
                diff
            } else {
                self.max_step
            };
            RateAdjustment::SlowDown { amount }
        } else {
            let diff = self.target_level - level;
            let amount = if diff <= self.max_step {
                diff
            } else {
                self.max_step
            };
            RateAdjustment::SpeedUp { amount }
        }
    }

    /// One tick of the playback loop, with the buffer fill level measured
    /// now. Corrections are applied only on the tick that ends an
    /// adjustment period; every other tick holds the rate, so this never
    /// delays the chunk path.
    pub fn tick(&mut self, level: u64) -> (adj: RateAdjustment)
        requires
            old(self).wf(),
        ensures
            final(self).wf(),
            final(self).target_level == old(self).target_level,
            final(self).adjust_period == old(self).adjust_period,
            final(self).max_step == old(self).max_step,
            old(self).countdown > 1 ==> {
                &&& final(self).countdown == old(self).countdown - 1
                &&& adj == RateAdjustment::Hold
            },
            old(self).countdown == 1 ==> {
                &&& final(self).countdown == old(self).adjust_period
                &&& spec_is_correction(
                    old(self).target_level as int,
                    old(self).max_step as int,
                    level as int,
                    adj,
                )
            },
    {
        if self.countdown > 1 {
            self.countdown = self.countdown - 1;
            RateAdjustment::Hold
        } else {
            self.countdown = self.adjust_period;
            self.correction(level)
        }
    }
}

} // verus!
