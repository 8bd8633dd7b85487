use vstd::prelude::*;
use crate::clock::GLOBAL_COOLDOWN;
use crate::damage::{backstab_base_spec, backstab_damage, eviscerate_base_spec, eviscerate_damage, permille, snd_base_spec, snd_duration, special_damage_spec, white_damage, white_damage_spec};
use crate::dice::{roll_value, rolled};
use crate::hit_table::{Hit, white_outcome, yellow_outcome};
use crate::modifiers::mitigated;
use crate::simulator::{FINISHER_ENERGY, SND_SPEED, Simulator, ability_frame, timers_but_swings};
use crate::events::{Attack, Event};
use crate::stats::{OutcomeStats, tallied};
use crate::model::{backstab_step, eviscerate_step, finisher_step, mh_strike_step, oh_strike_step, setup_of, snd_step, state_of};

verus! {

/// Energy after gaining `e`, held at the cap.
pub open spec fn energy_gain(energy: int, e: int, max: int) -> int {
    if energy + e < max { energy + e } else { max }
}

/// Energy after spending `e`, held at zero.
pub open spec fn energy_spend(energy: int, e: int) -> int {
    if energy >= e { energy - e } else { 0 }
}

/// The outcome of the next eviscerate from state `s`.
pub open spec fn eviscerate_hit(s: Simulator) -> Hit {
    yellow_outcome(s.mh.hit_table_yellow, roll_value(s.dice))
}

/// The eviscerate record after the next eviscerate from state `s`.
pub open spec fn eviscerate_tally(s: Simulator) -> OutcomeStats {
    let hit = eviscerate_hit(s);
    let dmg = special_damage_spec(
        eviscerate_base_spec(s.combo_points as int),
        hit,
        s.modifiers.hit.eviscerate as int,
        s.modifiers.crit.eviscerate as int,
    );
    tallied(s.stats.eviscerate, hit, mitigated(dmg, s.modifiers.armor as int) as u64)
}

/// The outcome of the next backstab from state `s`.
pub open spec fn backstab_hit(s: Simulator) -> Hit {
    yellow_outcome(s.mh.hit_table_backstab, roll_value(s.dice))
}

/// The backstab record after the next backstab from state `s`.
pub open spec fn backstab_tally(s: Simulator) -> OutcomeStats {
    let hit = backstab_hit(s);
    let dmg = special_damage_spec(
        backstab_base_spec(s.mh.mean_yellow_dmg as int),
        hit,
        s.modifiers.hit.backstab as int,
        s.modifiers.crit.backstab as int,
    );
    tallied(s.stats.backstab, hit, mitigated(dmg, s.modifiers.armor as int) as u64)
}

/// The main-hand autoattack record after the next main-hand swing from `s`.
pub open spec fn mh_white_tally(s: Simulator) -> OutcomeStats {
    let hit = white_outcome(s.mh.hit_table_white, roll_value(s.dice));
    let dmg = white_damage_spec(s.mh.mean_white_dmg as int, hit, 1000, s.modifiers.hit.glancing_mh as int);
    tallied(s.stats.mh_white, hit, mitigated(dmg, s.modifiers.armor as int) as u64)
}

/// The off-hand autoattack record after the next off-hand swing from `s`.
pub open spec fn oh_white_tally(s: Simulator) -> OutcomeStats {
    let hit = white_outcome(s.oh.hit_table_white, roll_value(s.dice));
    let dmg = white_damage_spec(
        s.oh.mean_white_dmg as int,
        hit,
        s.modifiers.hit.oh as int,
        s.modifiers.hit.glancing_oh as int,
    );
    tallied(s.stats.oh_white, hit, mitigated(dmg, s.modifiers.armor as int) as u64)
}

impl Simulator {
    /// The bonus rolls of a finisher: the combo points become one when the
    /// first roll grants a point, else zero; the second roll, against the
    /// chance per combo point times the points now held, restores energy.
    pub fn clear_combo_points_and_roll_for_finisher_procs(&mut self)
        requires
            old(self).wf(),
        ensures
            final(self).wf(),
            ability_frame(*old(self), *final(self)),
            final(self).combo_points == if roll_value(old(self).dice)
                < old(self).modifiers.finisher.add_combo_point_chance {
                1u32
            } else {
                0u32
            },
            final(self).dice == rolled(rolled(old(self).dice)),
            final(self).energy == if roll_value(rolled(old(self).dice)) < (final(self).combo_points as int) * (
            old(self).modifiers.finisher.restore_energy_chance_per_combo_point as int) {
                energy_gain(
                    old(self).energy as int,
                    FINISHER_ENERGY as int,
                    old(self).modifiers.general.energy_max as int,
                )
            } else {
                old(self).energy as int
            },
            final(self).stats == old(self).stats,
            final(self).timekeep == old(self).timekeep,
            final(self).active_buffs == old(self).active_buffs,
            final(self).modifiers.general.attack_speed == old(self).modifiers.general.attack_speed,
            final(self).extra_attacks == old(self).extra_attacks,
            state_of(*final(self)) == finisher_step(state_of(*old(self)), setup_of(*old(self))),
    {
        let die = self.dice.roll();
        if self.modifiers.finisher.gets_extra_combo_point(die) {
            self.combo_points = 1;
        } else {
            self.combo_points = 0;
        }
        let die2 = self.dice.roll();
        if self.modifiers.finisher.gets_extra_energy(self.combo_points, die2) {
            self.add_energy(FINISHER_ENERGY);
        }
    }

    /// Eviscerate: spends its cost and starts the global cooldown whatever
    /// the outcome. On a hit or crit it rolls the main-hand procs and the
    /// finisher bonuses; its damage, nothing on a miss or dodge, goes through
    /// armor and is recorded.
    pub fn eviscerate(&mut self)
        requires
            old(self).wf(),
            1 <= old(self).combo_points <= 5,
        ensures
            final(self).wf(),
            ability_frame(*old(self), *final(self)),
            ({
                let hit = yellow_outcome(old(self).mh.hit_table_yellow, roll_value(old(self).dice));
                let dmg = special_damage_spec(
                    eviscerate_base_spec(old(self).combo_points as int),
                    hit,
                    old(self).modifiers.hit.eviscerate as int,
                    old(self).modifiers.crit.eviscerate as int,
                );
                &&& final(self).stats.eviscerate == tallied(
                    old(self).stats.eviscerate,
                    hit,
                    mitigated(dmg, old(self).modifiers.armor as int) as u64,
                )
                &&& (hit == Hit::Miss || hit == Hit::Dodge) ==> final(self).combo_points == old(self).combo_points
                    && final(self).energy == energy_spend(
                    old(self).energy as int,
                    old(self).ability_costs.eviscerate as int,
                ) && final(self).dice == rolled(old(self).dice)
                &&& !(hit == Hit::Miss || hit == Hit::Dodge) ==> final(self).combo_points <= 1
            }),
            final(self).stats.eviscerate == eviscerate_tally(*old(self)),
            final(self).timekeep.timers.global_cd == GLOBAL_COOLDOWN,
            final(self).timekeep.timers.slice_and_dice == old(self).timekeep.timers.slice_and_dice,
            final(self).active_buffs == old(self).active_buffs,
            final(self).modifiers.general.attack_speed == old(self).modifiers.general.attack_speed,
            final(self).stats.backstab == old(self).stats.backstab,
            final(self).stats.mh_white == old(self).stats.mh_white,
            final(self).stats.oh_white == old(self).stats.oh_white,
            state_of(*final(self)) == eviscerate_step(state_of(*old(self)), setup_of(*old(self))),
    {
        let die = self.dice.roll();
        let hit = self.mh.hit_table_yellow.roll_for_hit(die);
        let cp = self.combo_points;
        self.subtract_energy(self.ability_costs.eviscerate);
        self.start_global_cd();
        if hit.lands() {
            self.trigger_hit_procc_mh();
            self.clear_combo_points_and_roll_for_finisher_procs();
        }
        let dmg = eviscerate_damage(
            cp,
            hit,
            self.modifiers.hit.eviscerate,
            self.modifiers.crit.eviscerate,
        );
        let dmg = self.modifiers.armor_reduction(dmg);
        self.stats.eviscerate.record(hit, dmg);
        self.log(Event::Strike { attack: Attack::Eviscerate, hit, damage: dmg });
    }

    /// Puts slice and dice up: its speed multiplier is applied only when it
    /// was down.
    pub fn enable_slice_and_dice(&mut self)
        requires
            old(self).wf(),
        ensures
            final(self).wf(),
            ability_frame(*old(self), *final(self)),
            final(self).active_buffs.slice_and_dice,
            old(self).active_buffs.slice_and_dice ==> final(self).modifiers.general.attack_speed@
                == old(self).modifiers.general.attack_speed@,
            !old(self).active_buffs.slice_and_dice ==> final(self).modifiers.general.attack_speed@
                == old(self).modifiers.general.attack_speed@.push(SND_SPEED),
            final(self).timekeep == old(self).timekeep,
            final(self).stats == old(self).stats,
            final(self).energy == old(self).energy,
            final(self).combo_points == old(self).combo_points,
            final(self).dice == old(self).dice,
            final(self).extra_attacks == old(self).extra_attacks,
    {
        if self.active_buffs.slice_and_dice {
            return;
        }
        self.modifiers.general.attack_speed.apply(SND_SPEED);
        self.active_buffs.slice_and_dice = true;
    }

    /// Takes slice and dice down, reverting exactly the multiplier it
    /// applied; nothing happens when it is down.
    pub fn disable_slice_and_dice(&mut self)
        requires
            old(self).wf(),
        ensures
            final(self).wf(),
            ability_frame(*old(self), *final(self)),
            !final(self).active_buffs.slice_and_dice,
            !old(self).active_buffs.slice_and_dice ==> final(self).modifiers.general.attack_speed@
                == old(self).modifiers.general.attack_speed@,
            old(self).active_buffs.slice_and_dice ==> final(self).modifiers.general.attack_speed@
                == crate::multiplier::without_last(
                old(self).modifiers.general.attack_speed@,
                SND_SPEED,
            ),
            final(self).timekeep == old(self).timekeep,
            final(self).stats == old(self).stats,
            final(self).energy == old(self).energy,
            final(self).combo_points == old(self).combo_points,
            final(self).dice == old(self).dice,
            final(self).extra_attacks == old(self).extra_attacks,
    {
        if !self.active_buffs.slice_and_dice {
            return;
        }
        proof {
            crate::engine::lemma_without_last_speeds(
                self.modifiers.general.attack_speed@,
                SND_SPEED,
            );
        }
        self.modifiers.general.attack_speed.revert(SND_SPEED);
        self.active_buffs.slice_and_dice = false;
    }

    /// Slice and dice: a duration from the combo points, scaled by its
    /// modifier; the buff goes up, the global cooldown starts, the cost is
    /// spent and the finisher bonuses are rolled.
    pub fn slice_and_dice(&mut self)
        requires
            old(self).wf(),
        ensures
            final(self).wf(),
            ability_frame(*old(self), *final(self)),
            final(self).active_buffs.slice_and_dice,
            final(self).timekeep.timers.slice_and_dice == permille(
                snd_base_spec(old(self).combo_points as int),
                old(self).modifiers.general.slice_and_dice_duration_modifier as int,
            ),
            final(self).timekeep.timers.global_cd == GLOBAL_COOLDOWN,
            final(self).combo_points <= 1,
            final(self).stats == old(self).stats,
            final(self).dice == rolled(rolled(old(self).dice)),
            final(self).extra_attacks == old(self).extra_attacks,
            state_of(*final(self)) == snd_step(state_of(*old(self)), setup_of(*old(self))),
    {
        let dur = snd_duration(
            self.combo_points,
            self.modifiers.general.slice_and_dice_duration_modifier,
        );
        self.enable_slice_and_dice();
        self.timekeep.timers.slice_and_dice = dur;
        self.start_global_cd();
        self.subtract_energy(self.ability_costs.slice_and_dice);
        self.clear_combo_points_and_roll_for_finisher_procs();
        self.log(Event::SliceAndDiceUp { duration: dur });
    }

    /// Backstab: a miss or dodge spends a fifth of its cost and grants
    /// nothing; a hit or crit rolls the main-hand procs, spends the full
    /// cost and grants a combo point. The damage goes through armor and is
    /// recorded, and the global cooldown starts whatever the outcome.
    pub fn backstab(&mut self)
        requires
            old(self).wf(),
        ensures
            final(self).wf(),
            ability_frame(*old(self), *final(self)),
            ({
                let hit = yellow_outcome(old(self).mh.hit_table_backstab, roll_value(old(self).dice));
                let dmg = special_damage_spec(
                    backstab_base_spec(old(self).mh.mean_yellow_dmg as int),
                    hit,
                    old(self).modifiers.hit.backstab as int,
                    old(self).modifiers.crit.backstab as int,
                );
                &&& final(self).stats.backstab == tallied(
                    old(self).stats.backstab,
                    hit,
                    mitigated(dmg, old(self).modifiers.armor as int) as u64,
                )
                &&& (hit == Hit::Miss || hit == Hit::Dodge) ==> final(self).combo_points == old(self).combo_points
                    && final(self).energy == energy_spend(
                    old(self).energy as int,
                    old(self).ability_costs.backstab as int / 5,
                ) && final(self).dice == rolled(old(self).dice)
                &&& !(hit == Hit::Miss || hit == Hit::Dodge) ==> final(self).combo_points == if old(self).combo_points
                    < 5 {
                    old(self).combo_points + 1
                } else {
                    5
                } && final(self).energy == energy_spend(
                    old(self).energy as int,
                    old(self).ability_costs.backstab as int,
                )
            }),
            final(self).stats.backstab == backstab_tally(*old(self)),
            final(self).timekeep.timers.global_cd == GLOBAL_COOLDOWN,
            final(self).timekeep.timers.slice_and_dice == old(self).timekeep.timers.slice_and_dice,
            final(self).active_buffs == old(self).active_buffs,
            final(self).modifiers.general.attack_speed == old(self).modifiers.general.attack_speed,
            final(self).stats.eviscerate == old(self).stats.eviscerate,
            final(self).stats.mh_white == old(self).stats.mh_white,
            final(self).stats.oh_white == old(self).stats.oh_white,
            state_of(*final(self)) == backstab_step(state_of(*old(self)), setup_of(*old(self))),
    {
        let die = self.dice.roll();
        let hit = self.mh.hit_table_backstab.roll_for_hit(die);
        if !hit.lands() {
            self.subtract_energy(self.ability_costs.backstab / 5);
        } else {
            self.trigger_hit_procc_mh();
            self.subtract_energy(self.ability_costs.backstab);
            self.add_combo_point();
        }
        let dmg = backstab_damage(
            self.mh.mean_yellow_dmg,
            hit,
            self.modifiers.hit.backstab,
            self.modifiers.crit.backstab,
        );
        let dmg = self.modifiers.armor_reduction(dmg);
        self.stats.backstab.record(hit, dmg);
        self.log(Event::Strike { attack: Attack::Backstab, hit, damage: dmg });
        self.start_global_cd();
    }

    /// A main-hand autoattack: a landing blow rolls the main-hand procs;
    /// the damage, reduced on a glancing blow and doubled on a crit, goes
    /// through armor and is recorded.
    pub fn perform_mh_strike(&mut self)
        requires
            old(self).wf(),
        ensures
            final(self).wf(),
            ability_frame(*old(self), *final(self)),
            ({
                let hit = white_outcome(old(self).mh.hit_table_white, roll_value(old(self).dice));
                let dmg = white_damage_spec(
                    old(self).mh.mean_white_dmg as int,
                    hit,
                    1000,
                    old(self).modifiers.hit.glancing_mh as int,
                );
                final(self).stats.mh_white == tallied(
                    old(self).stats.mh_white,
                    hit,
                    mitigated(dmg, old(self).modifiers.armor as int) as u64,
                )
            }),
            timers_but_swings(old(self).timekeep.timers, final(self).timekeep.timers),
            final(self).energy == old(self).energy,
            final(self).combo_points == old(self).combo_points,
            final(self).active_buffs == old(self).active_buffs,
            final(self).modifiers.general.attack_speed == old(self).modifiers.general.attack_speed,
            final(self).stats.backstab == old(self).stats.backstab,
            final(self).stats.eviscerate == old(self).stats.eviscerate,
            final(self).stats.oh_white == old(self).stats.oh_white,
            final(self).stats.mh_white == mh_white_tally(*old(self)),
            state_of(*final(self)) == mh_strike_step(state_of(*old(self)), setup_of(*old(self))),
    {
        let die = self.dice.roll();
        let hit = self.mh.hit_table_white.roll_for_hit(die);
        if hit.lands() {
            self.trigger_hit_procc_mh();
        }
        let dmg = white_damage(self.mh.mean_white_dmg, hit, 1000, self.modifiers.hit.glancing_mh);
        let dmg = self.modifiers.armor_reduction(dmg);
        self.stats.mh_white.record(hit, dmg);
        self.log(Event::Strike { attack: Attack::MhWhite, hit, damage: dmg });
    }

    /// An off-hand autoattack, scaled by the off-hand modifier.
    pub fn perform_oh_strike(&mut self)
        requires
            old(self).wf(),
        ensures
            final(self).wf(),
            ability_frame(*old(self), *final(self)),
            ({
                let hit = white_outcome(old(self).oh.hit_table_white, roll_value(old(self).dice));
                let dmg = white_damage_spec(
                    old(self).oh.mean_white_dmg as int,
                    hit,
                    old(self).modifiers.hit.oh as int,
                    old(self).modifiers.hit.glancing_oh as int,
                );
                final(self).stats.oh_white == tallied(
                    old(self).stats.oh_white,
                    hit,
                    mitigated(dmg, old(self).modifiers.armor as int) as u64,
                )
            }),
            timers_but_swings(old(self).timekeep.timers, final(self).timekeep.timers),
            final(self).energy == old(self).energy,
            final(self).combo_points == old(self).combo_points,
            final(self).active_buffs == old(self).active_buffs,
            final(self).modifiers.general.attack_speed == old(self).modifiers.general.attack_speed,
            final(self).stats.backstab == old(self).stats.backstab,
            final(self).stats.eviscerate == old(self).stats.eviscerate,
            final(self).stats.mh_white == old(self).stats.mh_white,
            final(self).stats.oh_white == oh_white_tally(*old(self)),
            state_of(*final(self)) == oh_strike_step(state_of(*old(self)), setup_of(*old(self))),
    {
        let die = self.dice.roll();
        let hit = self.oh.hit_table_white.roll_for_hit(die);
        if hit.lands() {
            self.trigger_hit_procc_oh();
        }
        let dmg = white_damage(
            self.oh.mean_white_dmg,
            hit,
            self.modifiers.hit.oh,
            self.modifiers.hit.glancing_oh,
        );
        let dmg = self.modifiers.armor_reduction(dmg);
        self.stats.oh_white.record(hit, dmg);
        self.log(Event::Strike { attack: Attack::OhWhite, hit, damage: dmg });
    }
}

} // verus!
