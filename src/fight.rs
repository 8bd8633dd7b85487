use vstd::prelude::*;
use crate::abilities::{backstab_tally, energy_gain, eviscerate_tally, mh_white_tally, oh_white_tally};
use crate::damage::{permille, snd_base_spec};
use crate::clock::{ENERGY_TICK, MIN_STEP, Timers, advance_spec, max_step_spec};
use crate::dice::{roll_value, rolled};
use crate::events::Event;
use crate::model::{
    energy_step, extra_fold, fight, fight_fuel, loop_step, mh_swing_step, oh_swing_step, refill_step,
    reset_char_state, rotation_step, run, setup_of, state_of, time_step, yellow_step, cleared,
};
use crate::multiplier::{scaled_down, scaled_up_capped, without_last};
use crate::rotation::{Action, Rotation, backstab_evis_spec, choose_action};
use crate::engine::{CooldownPass, pass_of, wear_pass};
use crate::simulator::{HIGH_TICK_CHANCE, SND_SPEED, Simulator, ability_frame, same_fight_time, same_setup};

verus! {

/// The most extra swings resolved in one pass of the fight loop.
pub const EXTRA_SWING_CHAIN: u32 = 1_000;

/// Nothing that the steps of the fight loop leave alone has changed: the
/// fight clock and the configuration.
pub open spec fn loop_frame(a: Simulator, b: Simulator) -> bool {
    &&& same_fight_time(a, b)
    &&& same_setup(a, b)
    &&& a.cooldowns@.len() == b.cooldowns@.len()
    &&& a.stats.fight_length == b.stats.fight_length
}

/// Base energy of a tick: 21 for a roll under a quarter, else 20.
pub open spec fn tick_base(die: int) -> int {
    if die < HIGH_TICK_CHANCE { 21 } else { 20 }
}

impl Simulator {
    /// The rotation of a dagger: the action that the finisher-builder loop
    /// picks, carried out.
    pub fn backstab_evis_rotation(&mut self)
        requires
            old(self).wf(),
        ensures
            final(self).wf(),
            ability_frame(*old(self), *final(self)),
            backstab_evis_spec(
                old(self).combo_points,
                old(self).energy,
                old(self).timekeep.timers.slice_and_dice > 0,
                old(self).ability_costs,
            ) == Action::Nothing ==> *final(self) == *old(self),
            ({
                let a = backstab_evis_spec(
                    old(self).combo_points,
                    old(self).energy,
                    old(self).timekeep.timers.slice_and_dice > 0,
                    old(self).ability_costs,
                );
                &&& a == Action::Backstab ==> final(self).stats.backstab == backstab_tally(
                    *old(self),
                ) && final(self).stats.eviscerate == old(self).stats.eviscerate
                &&& a == Action::Eviscerate ==> final(self).stats.eviscerate == eviscerate_tally(
                    *old(self),
                ) && final(self).stats.backstab == old(self).stats.backstab
                &&& a == Action::SliceAndDice ==> final(self).active_buffs.slice_and_dice
                    && final(self).stats == old(self).stats
                    && final(self).timekeep.timers.slice_and_dice == permille(
                    snd_base_spec(old(self).combo_points as int),
                    old(self).modifiers.general.slice_and_dice_duration_modifier as int,
                )
            }),
            state_of(*final(self)) == rotation_step(state_of(*old(self)), setup_of(*old(self))),
    {
        let snd_active = self.timekeep.timers.slice_and_dice > 0;
        let action = choose_action(
            Rotation::BackstabEvis,
            self.combo_points,
            self.energy,
            snd_active,
            &self.ability_costs,
        );
        match action {
            Action::SliceAndDice => self.slice_and_dice(),
            Action::Backstab => self.backstab(),
            Action::Eviscerate => self.eviscerate(),
            Action::Nothing => {},
        }
    }

    /// The rotation of a sword: it takes no action.
    pub fn sin_strike_evis_rotation(&mut self)
        ensures
            *final(self) == *old(self),
    {
    }

    /// Runs the rotation when the global cooldown is down.
    pub fn perform_apt_yellow_ability(&mut self)
        requires
            old(self).wf(),
        ensures
            final(self).wf(),
            ability_frame(*old(self), *final(self)),
            old(self).timekeep.timers.global_cd > 0 ==> *final(self) == *old(self),
            old(self).rotation != Rotation::BackstabEvis ==> *final(self) == *old(self),
            state_of(*final(self)) == yellow_step(state_of(*old(self)), setup_of(*old(self))),
    {
        if self.timekeep.timers.global_cd > 0 {
            return;
        }
        match self.rotation {
            Rotation::BackstabEvis => self.backstab_evis_rotation(),
            Rotation::SinStrikeEvis => self.sin_strike_evis_rotation(),
            Rotation::Unset => {},
        }
    }

    /// Swings the off hand when its timer has run out, then restarts it.
    pub fn check_oh_swing_timer_and_strike(&mut self)
        requires
            old(self).wf(),
        ensures
            final(self).wf(),
            ability_frame(*old(self), *final(self)),
            old(self).timekeep.timers.oh_swing > 0 ==> *final(self) == *old(self),
            old(self).timekeep.timers.oh_swing <= 0 ==> final(self).stats.oh_white == oh_white_tally(
                *old(self),
            ) && final(self).timekeep.timers.oh_swing == scaled_down(
                old(self).timekeep.oh_swing_interval as int,
                old(self).modifiers.general.attack_speed@,
            ) as i64,
            state_of(*final(self)) == oh_swing_step(state_of(*old(self)), setup_of(*old(self))),
    {
        if self.timekeep.timers.oh_swing > 0 {
            return;
        }
        self.perform_oh_strike();
        self.reset_oh_swing();
    }

    /// Swings the main hand when its timer has run out, then restarts it.
    pub fn check_mh_swing_timer_and_strike(&mut self)
        requires
            old(self).wf(),
        ensures
            final(self).wf(),
            ability_frame(*old(self), *final(self)),
            old(self).timekeep.timers.mh_swing > 0 ==> *final(self) == *old(self),
            old(self).timekeep.timers.mh_swing <= 0 ==> final(self).stats.mh_white == mh_white_tally(
                *old(self),
            ) && final(self).timekeep.timers.mh_swing == scaled_down(
                old(self).timekeep.mh_swing_interval as int,
                old(self).modifiers.general.attack_speed@,
            ) as i64,
            state_of(*final(self)) == mh_swing_step(state_of(*old(self)), setup_of(*old(self))),
    {
        if self.timekeep.timers.mh_swing > 0 {
            return;
        }
        self.perform_mh_strike();
        self.reset_mh_swing();
    }

    /// Resolves the queued extra swings, each a main-hand swing that takes
    /// one off the queue, including those that these swings grant in turn;
    /// past `EXTRA_SWING_CHAIN` swings in one pass the rest wait for the next
    /// pass.
    pub fn do_extra_attacks(&mut self)
        requires
            old(self).wf(),
        ensures
            final(self).wf(),
            ability_frame(*old(self), *final(self)),
            old(self).extra_attacks == 0 ==> *final(self) == *old(self),
            state_of(*final(self)) == extra_fold(state_of(*old(self)), setup_of(*old(self)), EXTRA_SWING_CHAIN as nat),
    {
        let mut budget: u32 = EXTRA_SWING_CHAIN;
        while self.extra_attacks > 0 && budget > 0
            invariant
                self.wf(),
                ability_frame(*old(self), *self),
                old(self).extra_attacks == 0 ==> *self == *old(self),
                extra_fold(state_of(*self), setup_of(*old(self)), budget as nat) == extra_fold(
                    state_of(*old(self)),
                    setup_of(*old(self)),
                    EXTRA_SWING_CHAIN as nat,
                ),
            decreases budget,
        {
            proof {
                assert(setup_of(*self) == setup_of(*old(self)));
            }
            self.perform_mh_strike();
            self.extra_attacks = self.extra_attacks.saturating_sub(1);
            budget = budget - 1;
        }
    }

    /// One energy tick: 20 or 21 energy, by a roll, times the regeneration
    /// multipliers in force, up to the cap.
    pub fn refill_energy(&mut self)
        requires
            old(self).wf(),
        ensures
            final(self).wf(),
            ability_frame(*old(self), *final(self)),
            final(self).energy == energy_gain(
                old(self).energy as int,
                scaled_up_capped(
                    tick_base(roll_value(old(self).dice)),
                    old(self).modifiers.general.energy_regen@,
                    old(self).modifiers.general.energy_max as int,
                ),
                old(self).modifiers.general.energy_max as int,
            ),
            final(self).dice == rolled(old(self).dice),
            final(self).timekeep == old(self).timekeep,
            final(self).stats == old(self).stats,
            final(self).combo_points == old(self).combo_points,
            final(self).active_buffs == old(self).active_buffs,
            final(self).modifiers.general.attack_speed == old(self).modifiers.general.attack_speed,
            state_of(*final(self)) == refill_step(state_of(*old(self)), setup_of(*old(self))),
    {
        let die = self.dice.roll();
        let base: u64 = if die < HIGH_TICK_CHANCE { 21 } else { 20 };
        let refill = self.modifiers.general.energy_regen.scale_up_capped(
            base,
            self.modifiers.general.energy_max,
        );
        self.add_energy(refill);
        self.log(Event::EnergyTick { energy: self.energy });
    }

    /// When the energy timer has run out: restarts it and ticks energy.
    pub fn check_energy_timer_and_refill_energy(&mut self)
        requires
            old(self).wf(),
        ensures
            final(self).wf(),
            loop_frame(*old(self), *final(self)),
            old(self).timekeep.timers.energy_refill > 0 ==> *final(self) == *old(self),
            old(self).timekeep.timers.energy_refill <= 0
                ==> final(self).timekeep.timers.energy_refill == ENERGY_TICK,
            state_of(*final(self)) == energy_step(state_of(*old(self)), setup_of(*old(self))),
    {
        if self.timekeep.timers.energy_refill <= 0 {
            self.timekeep.reset_energy_timer();
            self.refill_energy();
        }
    }

    /// Takes the largest safe step.
    pub fn set_max_time_step_possible(&mut self)
        requires
            old(self).wf(),
        ensures
            final(self).wf(),
            final(self).timekeep.dt == max_step_spec(old(self).timekeep.timers),
            final(self).timekeep.timers == (Timers {
                glob_cd_previously_available: old(self).timekeep.timers.global_cd <= 0,
                ..old(self).timekeep.timers
            }),
            *final(self) == (Simulator { timekeep: final(self).timekeep, ..*old(self) }),
            final(self).timekeep.fight_length == old(self).timekeep.fight_length,
            final(self).timekeep.mh_swing_interval == old(self).timekeep.mh_swing_interval,
            final(self).timekeep.oh_swing_interval == old(self).timekeep.oh_swing_interval,
    {
        self.timekeep.set_time_step();
    }

    /// Takes slice and dice down once its timer has gone below zero.
    pub fn check_slice_and_dice_wearing_off(&mut self)
        requires
            old(self).wf(),
        ensures
            final(self).wf(),
            ability_frame(*old(self), *final(self)),
            old(self).active_buffs.slice_and_dice && old(self).timekeep.timers.slice_and_dice < 0
                ==> !final(self).active_buffs.slice_and_dice
                && final(self).modifiers.general.attack_speed@ == without_last(
                old(self).modifiers.general.attack_speed@,
                SND_SPEED,
            ),
            final(self).timekeep == old(self).timekeep,
            final(self).energy == old(self).energy,
            final(self).combo_points == old(self).combo_points,
            final(self).stats == old(self).stats,
            final(self).dice == old(self).dice,
            !(old(self).active_buffs.slice_and_dice && old(self).timekeep.timers.slice_and_dice
                < 0) ==> *final(self) == *old(self),
            final(self).extra_attacks == old(self).extra_attacks,
    {
        if self.active_buffs.slice_and_dice && self.timekeep.timers.slice_and_dice < 0 {
            self.disable_slice_and_dice();
            self.log(Event::SliceAndDiceDown);
        }
    }

    /// Steps the clock as far as is safe, then ends the cooldown effects and
    /// the buff that ran out.
    pub fn take_time_step_and_remove_buffs(&mut self)
        requires
            old(self).wf(),
        ensures
            final(self).wf(),
            same_setup(*old(self), *final(self)),
            final(self).cooldowns@.len() == old(self).cooldowns@.len(),
            final(self).stats.fight_length == old(self).stats.fight_length,
            final(self).timekeep.fight_length == old(self).timekeep.fight_length,
            final(self).timekeep.timers.time_left == advance_spec(
                old(self).timekeep.timers,
                max_step_spec(old(self).timekeep.timers) as i64,
            ).time_left,
            MIN_STEP <= final(self).timekeep.dt,
            ({
                let dt = max_step_spec(old(self).timekeep.timers) as i64;
                let t = advance_spec(
                    Timers {
                        glob_cd_previously_available: old(self).timekeep.timers.global_cd <= 0,
                        ..old(self).timekeep.timers
                    },
                    dt,
                );
                let w = wear_pass(
                    CooldownPass { global_cd: t.global_cd, ..pass_of(*old(self)) },
                    old(self).cooldowns@.len(),
                    dt,
                );
                let snd_ends = old(self).active_buffs.slice_and_dice && t.slice_and_dice < 0;
                &&& final(self).timekeep.dt == dt
                &&& final(self).timekeep.timers == t
                &&& final(self).cooldowns@ == w.cooldowns
                &&& final(self).modifiers.general.energy_regen@ == w.regen
                &&& final(self).modifiers.general.attack_speed@ == if snd_ends {
                    without_last(w.speed, SND_SPEED)
                } else {
                    w.speed
                }
                &&& final(self).active_buffs.slice_and_dice == (
                old(self).active_buffs.slice_and_dice && !snd_ends)
            }),
            final(self).energy == old(self).energy,
            final(self).combo_points == old(self).combo_points,
            final(self).stats == old(self).stats,
            final(self).dice == old(self).dice,
            final(self).extra_attacks == old(self).extra_attacks,
            state_of(*final(self)) == time_step(state_of(*old(self))),
    {
        self.set_max_time_step_possible();
        self.timekeep.take_time_step();
        self.check_cds_wearing_off();
        self.check_slice_and_dice_wearing_off();
    }

    /// Readies the character for a fight: full energy, no combo points and
    /// no queued swing, every cooldown ready with its multiplier reverted,
    /// and the buff down.
    pub fn reset_char(&mut self)
        requires
            old(self).wf(),
        ensures
            final(self).wf(),
            loop_frame(*old(self), *final(self)),
            final(self).energy == final(self).modifiers.general.energy_max,
            final(self).combo_points == 0,
            final(self).extra_attacks == 0,
            !final(self).active_buffs.slice_and_dice,
            final(self).stats == old(self).stats,
            final(self).timekeep == old(self).timekeep,
            forall|i: int|
                0 <= i < final(self).cooldowns@.len() ==> !(#[trigger] final(self).cooldowns@[i]).is_active
                    && final(self).cooldowns@[i].cd_left == 0,
            state_of(*final(self)) == reset_char_state(state_of(*old(self)), setup_of(*old(self))),
    {
        self.energy = self.modifiers.general.energy_max;
        self.combo_points = 0;
        self.extra_attacks = 0;
        self.reset_cooldowns();
        if self.active_buffs.slice_and_dice {
            self.disable_slice_and_dice();
        }
    }

    /// One fight: clears the stats and the event log, resets the clock and the
    /// character, then
    /// runs the loop until the fight timer runs out. Each pass uses the
    /// usable cooldowns, runs the rotation, swings the off hand and the main
    /// hand when due, resolves the queued swings, ticks energy when due, and
    /// steps the clock, ending the effects that ran out. Every state the loop
    /// passes through is well formed, so energy stays within `[0, cap]` and
    /// combo points within `[0, 5]`.
    pub fn simulate(&mut self)
        requires
            old(self).wf(),
        ensures
            final(self).wf(),
            final(self).energy <= final(self).modifiers.general.energy_max,
            final(self).combo_points <= 5,
            same_setup(*old(self), *final(self)),
            final(self).cooldowns@.len() == old(self).cooldowns@.len(),
            final(self).stats.fight_length == old(self).stats.fight_length,
            final(self).timekeep.timers.time_left <= 0,
            state_of(*final(self)) == fight(state_of(*old(self)), setup_of(*old(self))),
    {
        self.stats.clear();
        self.events.clear();
        self.timekeep.reset_timers();
        let ghost su = setup_of(*old(self));
        proof {
            assert(state_of(*self).mh_procs =~= cleared(state_of(*old(self)), su).mh_procs);
            assert(state_of(*self).oh_procs =~= cleared(state_of(*old(self)), su).oh_procs);
            assert(state_of(*self) == cleared(state_of(*old(self)), su));
            assert(setup_of(*self) == su);
        }
        self.reset_char();
        let ghost mut fuel: nat = fight_fuel(su.fight_length);
        while self.timekeep.timers.time_left > 0
            invariant
                self.wf(),
                same_setup(*old(self), *self),
                self.cooldowns@.len() == old(self).cooldowns@.len(),
                self.stats.fight_length == old(self).stats.fight_length,
                self.timekeep.fight_length == old(self).timekeep.fight_length,
                setup_of(*self) == su,
                su == setup_of(*old(self)),
                run(state_of(*self), su, fuel) == fight(state_of(*old(self)), su),
                self.timekeep.timers.time_left > 0 ==> fuel > self.timekeep.timers.time_left,
            decreases if self.timekeep.timers.time_left > 0 {
                self.timekeep.timers.time_left as int
            } else {
                0
            },
        {
            let ghost start = self.timekeep.timers.time_left;
            let ghost st0 = state_of(*self);
            self.use_ready_cooldowns();
            self.perform_apt_yellow_ability();
            self.check_oh_swing_timer_and_strike();
            self.check_mh_swing_timer_and_strike();
            self.do_extra_attacks();
            self.check_energy_timer_and_refill_energy();
            let ghost before = self.timekeep.timers;
            assert(before.time_left == start);
            assert(MIN_STEP <= max_step_spec(before) <= crate::clock::MAX_STEP);
            self.take_time_step_and_remove_buffs();
            proof {
                assert(state_of(*self) == loop_step(st0, su));
                fuel = (fuel - 1) as nat;
            }
            assert(self.timekeep.timers.time_left < start);
        }
    }
}

} // verus!
