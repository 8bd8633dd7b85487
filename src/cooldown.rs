use vstd::prelude::*;
use crate::character::{Cooldown, CooldownEffect};

verus! {

/// A cooldown's running state: ready, on cooldown, or active with an effect
/// that wears off. Times in milliseconds.
#[derive(Clone, Copy, Debug, PartialEq, Eq, Structural)]
pub struct CooldownState {
    pub cost: u32,
    pub cd: i64,
    pub cd_left: i64,
    pub time_left: i64,
    pub effect: CooldownEffect,
    pub is_active: bool,
    pub use_below_energy: u32,
}

/// A cooldown cannot be used while it is cooling down or active, when its
/// cost exceeds the energy, when the energy is above its threshold, or when
/// it costs energy and the global cooldown runs.
pub open spec fn lacks_prerequisite_spec(c: CooldownState, energy: u32, global_cd: i64) -> bool {
    ||| c.cd_left > 0
    ||| c.is_active
    ||| c.cost > energy
    ||| energy > c.use_below_energy
    ||| (c.cost > 0 && global_cd > 0)
}

/// The state after a step of `dt`: both timers lowered while positive.
pub open spec fn ticked(c: CooldownState, dt: i64) -> CooldownState {
    CooldownState {
        cd_left: if c.cd_left > 0 { (c.cd_left - dt) as i64 } else { c.cd_left },
        time_left: if c.time_left > 0 { (c.time_left - dt) as i64 } else { c.time_left },
        ..c
    }
}

/// The state right after use: a multiplier becomes active for its duration,
/// and every kind starts its cooldown.
pub open spec fn activated(c: CooldownState) -> CooldownState {
    match c.effect {
        CooldownEffect::InstantEnergyRefill(_) => CooldownState { cd_left: c.cd, ..c },
        CooldownEffect::EnergyRegenMultiplier(_, d) => CooldownState {
            is_active: true,
            cd_left: c.cd,
            time_left: d,
            ..c
        },
        CooldownEffect::AttackSpeedMultiplier(_, d) => CooldownState {
            is_active: true,
            cd_left: c.cd,
            time_left: d,
            ..c
        },
    }
}

/// The state at the start of a fight: ready and inactive.
pub open spec fn ready(c: CooldownState) -> CooldownState {
    match c.effect {
        CooldownEffect::InstantEnergyRefill(_) => CooldownState { is_active: false, cd_left: 0, ..c },
        _ => CooldownState { is_active: false, cd_left: 0, time_left: 0, ..c },
    }
}

impl CooldownState {
    /// The ready state of a declared cooldown.
    pub fn from_declaration(c: &Cooldown) -> (r: CooldownState)
        ensures
            r == (CooldownState {
                cost: c.cost,
                cd: c.cd,
                cd_left: 0,
                time_left: 0,
                effect: c.effect,
                is_active: false,
                use_below_energy: c.use_below_energy,
            }),
    {
        CooldownState {
            cost: c.cost,
            cd: c.cd,
            cd_left: 0,
            time_left: 0,
            effect: c.effect,
            is_active: false,
            use_below_energy: c.use_below_energy,
        }
    }

    /// Whether the cooldown cannot be used now.
    pub fn lacks_prerequisite(&self, energy: u32, global_cd: i64) -> (r: bool)
        ensures
            r == lacks_prerequisite_spec(*self, energy, global_cd),
    {
        if self.cd_left > 0 {
            true
        } else if self.is_active {
            true
        } else if self.cost > energy {
            true
        } else if energy > self.use_below_energy {
            true
        } else {
            self.cost > 0 && global_cd > 0
        }
    }

    /// Whether the cooldown can be used now.
    pub fn is_usable(&self, energy: u32, global_cd: i64) -> (r: bool)
        ensures
            r == !lacks_prerequisite_spec(*self, energy, global_cd),
    {
        !self.lacks_prerequisite(energy, global_cd)
    }

    /// Lowers both timers by `dt` while they are positive.
    pub fn tick(&mut self, dt: i64)
        requires
            0 <= dt,
        ensures
            *final(self) == ticked(*old(self), dt),
    {
        if self.cd_left > 0 {
            self.cd_left = self.cd_left - dt;
        }
        if self.time_left > 0 {
            self.time_left = self.time_left - dt;
        }
    }

    /// Starts the cooldown and, for a multiplier, its effect.
    pub fn activate(&mut self)
        ensures
            *final(self) == activated(*old(self)),
    {
        match self.effect {
            CooldownEffect::InstantEnergyRefill(_) => {
                self.cd_left = self.cd;
            },
            CooldownEffect::EnergyRegenMultiplier(_, d) => {
                self.is_active = true;
                self.cd_left = self.cd;
                self.time_left = d;
            },
            CooldownEffect::AttackSpeedMultiplier(_, d) => {
                self.is_active = true;
                self.cd_left = self.cd;
                self.time_left = d;
            },
        }
    }

    /// Makes the cooldown ready and inactive.
    pub fn reset(&mut self)
        ensures
            *final(self) == ready(*old(self)),
    {
        self.is_active = false;
        self.cd_left = 0;
        match self.effect {
            CooldownEffect::InstantEnergyRefill(_) => {},
            _ => {
                self.time_left = 0;
            },
        }
    }
}

} // verus!
