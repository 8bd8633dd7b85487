use vstd::prelude::*;
use crate::multiplier::{MultiplierStack, scaled_down};

verus! {

/// The longest step the clock takes, in milliseconds; a cap, not an event.
pub const MAX_STEP: i64 = 10_000;

/// The shortest step, so that time always moves on.
pub const MIN_STEP: i64 = 10;

/// Interval between two energy ticks.
pub const ENERGY_TICK: i64 = 2_000;

/// Length of the global cooldown.
pub const GLOBAL_COOLDOWN: i64 = 1_000;

/// Countdown timers in milliseconds.
#[derive(Clone, Copy, Debug, PartialEq, Eq, Structural)]
pub struct Timers {
    pub energy_refill: i64,
    pub slice_and_dice: i64,
    pub time_left: i64,
    pub global_cd: i64,
    pub mh_swing: i64,
    pub oh_swing: i64,
    pub glob_cd_previously_available: bool,
}

pub open spec fn min_int(a: int, b: int) -> int {
    if a < b { a } else { b }
}

/// The largest step that skips no pending event: the energy tick, both
/// swings and, when the global cooldown was running at the end of the last
/// step, the global cooldown; capped at ten seconds and floored at ten ms.
pub open spec fn max_step_spec(t: Timers) -> int {
    let a = min_int(MAX_STEP as int, t.energy_refill as int);
    let b = min_int(min_int(a, t.mh_swing as int), t.oh_swing as int);
    let c = if !t.glob_cd_previously_available { min_int(b, t.global_cd as int) } else { b };
    if c > MIN_STEP { c } else { MIN_STEP as int }
}

/// A timer after a step: lowered by `dt` only while it is positive.
pub open spec fn advanced(v: i64, dt: i64) -> i64 {
    if v > 0 { (v - dt) as i64 } else { v }
}

/// Every running timer lowered by `dt`.
pub open spec fn advance_spec(t: Timers, dt: i64) -> Timers {
    Timers {
        energy_refill: advanced(t.energy_refill, dt),
        slice_and_dice: advanced(t.slice_and_dice, dt),
        time_left: advanced(t.time_left, dt),
        global_cd: advanced(t.global_cd, dt),
        mh_swing: advanced(t.mh_swing, dt),
        oh_swing: advanced(t.oh_swing, dt),
        glob_cd_previously_available: t.glob_cd_previously_available,
    }
}

/// The timers at the start of a fight of `fight_length` ms.
pub open spec fn fresh_timers(fight_length: i64) -> Timers {
    Timers {
        energy_refill: 1_000,
        slice_and_dice: 0,
        time_left: fight_length,
        global_cd: 0,
        mh_swing: 0,
        oh_swing: 0,
        glob_cd_previously_available: true,
    }
}

impl Timers {
    pub fn new() -> (r: Timers)
        ensures
            r == fresh_timers(0),
    {
        Timers {
            energy_refill: 1_000,
            slice_and_dice: 0,
            time_left: 0,
            global_cd: 0,
            mh_swing: 0,
            oh_swing: 0,
            glob_cd_previously_available: true,
        }
    }

    /// The largest safe step; records whether the global cooldown is
    /// available now, for the next call.
    pub fn get_max_time_step(&mut self) -> (r: i64)
        ensures
            r == max_step_spec(*old(self)),
            MIN_STEP <= r <= MAX_STEP,
            *final(self) == (Timers {
                glob_cd_previously_available: old(self).global_cd <= 0,
                ..*old(self)
            }),
    {
        let mut step: i64 = MAX_STEP;
        if self.energy_refill < step {
            step = self.energy_refill;
        }
        if self.mh_swing < step {
            step = self.mh_swing;
        }
        if self.oh_swing < step {
            step = self.oh_swing;
        }
        if !self.glob_cd_previously_available && self.global_cd < step {
            step = self.global_cd;
        }
        if step < MIN_STEP {
            step = MIN_STEP;
        }
        self.glob_cd_previously_available = self.global_cd <= 0;
        step
    }

    /// Sets every timer for a new fight of `fight_length` ms.
    pub fn reset_with_fight_length(&mut self, fight_length: i64)
        ensures
            *final(self) == fresh_timers(fight_length),
    {
        self.energy_refill = 1_000;
        self.slice_and_dice = 0;
        self.time_left = fight_length;
        self.global_cd = 0;
        self.glob_cd_previously_available = true;
        self.mh_swing = 0;
        self.oh_swing = 0;
    }

    /// Lowers every positive timer by `dt`.
    pub fn advance(&mut self, dt: i64)
        requires
            0 <= dt <= MAX_STEP,
        ensures
            *final(self) == advance_spec(*old(self), dt),
    {
        if self.energy_refill > 0 {
            self.energy_refill = self.energy_refill - dt;
        }
        if self.slice_and_dice > 0 {
            self.slice_and_dice = self.slice_and_dice - dt;
        }
        if self.time_left > 0 {
            self.time_left = self.time_left - dt;
        }
        if self.global_cd > 0 {
            self.global_cd = self.global_cd - dt;
        }
        if self.mh_swing > 0 {
            self.mh_swing = self.mh_swing - dt;
        }
        if self.oh_swing > 0 {
            self.oh_swing = self.oh_swing - dt;
        }
    }
}

/// The timers with the step of the last call and both swing intervals.
#[derive(Debug)]
pub struct TimeKeeper {
    pub timers: Timers,
    pub fight_length: i64,
    pub dt: i64,
    pub mh_swing_interval: u32,
    pub oh_swing_interval: u32,
}

impl TimeKeeper {
    pub fn new() -> (r: TimeKeeper)
        ensures
            r.timers == fresh_timers(0),
            r.fight_length == 0,
            r.dt == 0,
            r.mh_swing_interval == 0,
            r.oh_swing_interval == 0,
    {
        TimeKeeper {
            timers: Timers::new(),
            fight_length: 0,
            dt: 0,
            mh_swing_interval: 0,
            oh_swing_interval: 0,
        }
    }

    /// Takes the largest safe step as the next one.
    pub fn set_time_step(&mut self)
        ensures
            final(self).dt == max_step_spec(old(self).timers),
            final(self).timers == (Timers {
                glob_cd_previously_available: old(self).timers.global_cd <= 0,
                ..old(self).timers
            }),
            final(self).fight_length == old(self).fight_length,
            final(self).mh_swing_interval == old(self).mh_swing_interval,
            final(self).oh_swing_interval == old(self).oh_swing_interval,
    {
        self.dt = self.timers.get_max_time_step();
    }

    pub fn set_mh_swing_interval(&mut self, interval: u32)
        ensures
            final(self).mh_swing_interval == interval,
            final(self).oh_swing_interval == old(self).oh_swing_interval,
            final(self).timers == old(self).timers,
            final(self).fight_length == old(self).fight_length,
            final(self).dt == old(self).dt,
    {
        self.mh_swing_interval = interval;
    }

    pub fn set_oh_swing_interval(&mut self, interval: u32)
        ensures
            final(self).oh_swing_interval == interval,
            final(self).mh_swing_interval == old(self).mh_swing_interval,
            final(self).timers == old(self).timers,
            final(self).fight_length == old(self).fight_length,
            final(self).dt == old(self).dt,
    {
        self.oh_swing_interval = interval;
    }

    /// Restarts the main-hand swing: its interval under the speed
    /// multipliers in force.
    pub fn reset_mh_swing_timer(&mut self, speed: &MultiplierStack)
        requires
            forall|k: int| 0 <= k < speed@.len() ==> speed@[k] >= 1_000_000,
        ensures
            final(self).timers == (Timers {
                mh_swing: scaled_down(old(self).mh_swing_interval as int, speed@) as i64,
                ..old(self).timers
            }),
            0 <= final(self).timers.mh_swing <= old(self).mh_swing_interval,
            final(self).mh_swing_interval == old(self).mh_swing_interval,
            final(self).oh_swing_interval == old(self).oh_swing_interval,
            final(self).fight_length == old(self).fight_length,
            final(self).dt == old(self).dt,
    {
        let t = speed.scale_down(self.mh_swing_interval as u64);
        self.timers.mh_swing = t as i64;
    }

    /// Restarts the off-hand swing.
    pub fn reset_oh_swing_timer(&mut self, speed: &MultiplierStack)
        requires
            forall|k: int| 0 <= k < speed@.len() ==> speed@[k] >= 1_000_000,
        ensures
            final(self).timers == (Timers {
                oh_swing: scaled_down(old(self).oh_swing_interval as int, speed@) as i64,
                ..old(self).timers
            }),
            0 <= final(self).timers.oh_swing <= old(self).oh_swing_interval,
            final(self).mh_swing_interval == old(self).mh_swing_interval,
            final(self).oh_swing_interval == old(self).oh_swing_interval,
            final(self).fight_length == old(self).fight_length,
            final(self).dt == old(self).dt,
    {
        let t = speed.scale_down(self.oh_swing_interval as u64);
        self.timers.oh_swing = t as i64;
    }

    pub fn reset_energy_timer(&mut self)
        ensures
            final(self).timers == (Timers { energy_refill: ENERGY_TICK, ..old(self).timers }),
            final(self).mh_swing_interval == old(self).mh_swing_interval,
            final(self).oh_swing_interval == old(self).oh_swing_interval,
            final(self).fight_length == old(self).fight_length,
            final(self).dt == old(self).dt,
    {
        self.timers.energy_refill = ENERGY_TICK;
    }

    /// Sets the timers for a new fight of the configured length.
    pub fn reset_timers(&mut self)
        ensures
            final(self).timers == fresh_timers(old(self).fight_length),
            final(self).mh_swing_interval == old(self).mh_swing_interval,
            final(self).oh_swing_interval == old(self).oh_swing_interval,
            final(self).fight_length == old(self).fight_length,
            final(self).dt == old(self).dt,
    {
        self.timers.reset_with_fight_length(self.fight_length);
    }

    /// Lowers every running timer by the step set last.
    pub fn take_time_step(&mut self)
        requires
            0 <= old(self).dt <= MAX_STEP,
        ensures
            final(self).timers == advance_spec(old(self).timers, old(self).dt),
            final(self).mh_swing_interval == old(self).mh_swing_interval,
            final(self).oh_swing_interval == old(self).oh_swing_interval,
            final(self).fight_length == old(self).fight_length,
            final(self).dt == old(self).dt,
    {
        self.timers.advance(self.dt);
    }
}

} // verus!
