use vstd::prelude::*;
use crate::character::{Character, Talents, WeaponType};
use crate::configure::{talent_ranks_ok, talented_crit, talented_finisher, talented_hit, talented_sinister_cost};
use crate::error::ConfigError;
use crate::hit_table::{WhiteHitTable, YellowHitTable, white_within, yellow_within};
use crate::modifiers::{CritModifiers, FinisherModifiers};
use crate::rotation::AbilityCosts;
use crate::simulator::{Simulator, modifiers_bounded};
use crate::weapon::{BUILT_BOUND, WeaponSlot};

verus! {

/// Whether every talent is within its ranks and none is one whose effect
/// is not modelled.
pub fn check_talents(t: &Talents) -> (r: Result<(), ConfigError>)
    ensures
        !talent_ranks_ok(*t) ==> r == Err::<(), ConfigError>(ConfigError::IllegalTalentPoints),
        talent_ranks_ok(*t) && !talents_modelled(*t) ==> r == Err::<(), ConfigError>(
            ConfigError::UnimplementedTalent,
        ),
        talent_ranks_ok(*t) && talents_modelled(*t) ==> r is Ok,
{
    if t.improved_eviscerate > 3 || t.malice > 5 || t.relentless_strikes > 1 || t.ruthlessness > 3
        || t.improved_slice_and_dice > 3 || t.lethality > 5 || t.improved_sinister_strike > 2
        || t.improved_backstab > 3 || t.precision > 5 || t.dagger_specialization > 5
        || t.dual_wield_specialization > 5 || t.sword_specialization > 5 || t.aggression > 3
        || t.opportunity > 5 {
        return Err(ConfigError::IllegalTalentPoints);
    }
    if t.sword_specialization > 0 || t.malice > 0 || t.precision > 0 {
        return Err(ConfigError::UnimplementedTalent);
    }
    Ok(())
}

/// No point in a talent whose effect is not modelled: malice and precision,
/// whose crit and hit belong to the character's stats, and sword
/// specialization.
pub open spec fn talents_modelled(t: Talents) -> bool {
    t.malice == 0 && t.precision == 0 && t.sword_specialization == 0
}

/// The state that configuration has built when the talents come in.
pub open spec fn ready_for_talents(s: Simulator) -> bool {
    &&& s.modifiers.hit.sinister_strike == 1000
    &&& s.modifiers.hit.backstab == 1000
    &&& s.modifiers.hit.eviscerate == 1000
    &&& s.modifiers.hit.oh == 500
    &&& s.modifiers.hit.glancing_mh <= 1000
    &&& s.modifiers.hit.glancing_oh <= 1000
    &&& s.modifiers.crit == CritModifiers { sinister_strike: 1000, backstab: 1000, eviscerate: 1000 }
    &&& s.modifiers.finisher == FinisherModifiers {
        restore_energy_chance_per_combo_point: 0,
        add_combo_point_chance: 0,
    }
    &&& s.modifiers.general.slice_and_dice_duration_modifier == 1000
    &&& s.ability_costs.sinister_strike == 45
    &&& s.mh.weapon_slot == WeaponSlot::Mh
    &&& s.oh.weapon_slot == WeaponSlot::Oh
    &&& white_within(s.mh.hit_table_white, BUILT_BOUND as int)
    &&& yellow_within(s.mh.hit_table_yellow, BUILT_BOUND as int)
    &&& yellow_within(s.mh.hit_table_backstab, BUILT_BOUND as int)
    &&& white_within(s.oh.hit_table_white, BUILT_BOUND as int)
}

impl Simulator {
    /// Applies the talents: the finisher and ability modifiers, sinister
    /// strike's cost, backstab's own crit, dagger specialization's crit on
    /// every table of each dagger, and the off-hand damage of dual wield specialization.
    /// A talent past its ranks, or any point in a talent that is not
    /// modelled, is refused and changes nothing.
    pub fn incorporate_talents(&mut self, character: &Character) -> (r: Result<(), ConfigError>)
        requires
            ready_for_talents(*old(self)),
        ensures
            ({
                let t = character.talents;
                &&& !talent_ranks_ok(t) ==> r == Err::<(), ConfigError>(
                    ConfigError::IllegalTalentPoints,
                )
                &&& talent_ranks_ok(t) && !talents_modelled(t) ==> r == Err::<
                    (),
                    ConfigError,
                >(ConfigError::UnimplementedTalent)
                &&& talent_ranks_ok(t) && talents_modelled(t) ==> r is Ok
                &&& r is Err ==> *final(self) == *old(self)
                &&& r is Ok ==> final(self).modifiers.hit == talented_hit(old(self).modifiers.hit, t)
                    && final(self).modifiers.crit == talented_crit(old(self).modifiers.crit, t)
                    && final(self).modifiers.finisher == talented_finisher(
                    old(self).modifiers.finisher,
                    t,
                ) && final(self).modifiers.general.slice_and_dice_duration_modifier == 1000 + 150
                    * t.improved_slice_and_dice && final(self).ability_costs == (AbilityCosts {
                    sinister_strike: talented_sinister_cost(45, t) as u32,
                    ..old(self).ability_costs
                }) && final(self).mh.hit_table_backstab.crit_value
                    == old(self).mh.hit_table_backstab.crit_value + 100_000 * t.improved_backstab + (
                if old(self).mh.weapon_type == WeaponType::Dagger {
                    10_000 * t.dagger_specialization
                } else {
                    0
                })
                &&& r is Ok ==> modifiers_bounded(final(self).modifiers)
                &&& r is Ok ==> {
                    let dm: int = if old(self).mh.weapon_type == WeaponType::Dagger {
                        10_000 * t.dagger_specialization
                    } else {
                        0
                    };
                    let d_o: int = if old(self).oh.weapon_type == WeaponType::Dagger {
                        10_000 * t.dagger_specialization
                    } else {
                        0
                    };
                    &&& final(self).mh.hit_table_white == (WhiteHitTable {
                        crit_value: (old(self).mh.hit_table_white.crit_value + dm) as i64,
                        ..old(self).mh.hit_table_white
                    })
                    &&& final(self).mh.hit_table_yellow == (YellowHitTable {
                        crit_value: (old(self).mh.hit_table_yellow.crit_value + dm) as i64,
                        ..old(self).mh.hit_table_yellow
                    })
                    &&& final(self).mh.hit_table_backstab == (YellowHitTable {
                        crit_value: (old(self).mh.hit_table_backstab.crit_value + 100_000
                            * t.improved_backstab + dm) as i64,
                        ..old(self).mh.hit_table_backstab
                    })
                    &&& final(self).oh.hit_table_white == (WhiteHitTable {
                        crit_value: (old(self).oh.hit_table_white.crit_value + d_o) as i64,
                        ..old(self).oh.hit_table_white
                    })
                }
            }),
            final(self).modifiers.general.attack_speed == old(self).modifiers.general.attack_speed,
            final(self).modifiers.general.energy_regen == old(self).modifiers.general.energy_regen,
            final(self).modifiers.general.energy_max == old(self).modifiers.general.energy_max,
            final(self).modifiers.armor == old(self).modifiers.armor,
            final(self).mh.weapon_slot == old(self).mh.weapon_slot,
            final(self).oh.weapon_slot == old(self).oh.weapon_slot,
            final(self).mh.weapon_type == old(self).mh.weapon_type,
            final(self).oh.weapon_type == old(self).oh.weapon_type,
            final(self).mh.mean_white_dmg == old(self).mh.mean_white_dmg,
            final(self).mh.mean_yellow_dmg == old(self).mh.mean_yellow_dmg,
            final(self).oh.mean_white_dmg == old(self).oh.mean_white_dmg,
            final(self).oh.mean_yellow_dmg == old(self).oh.mean_yellow_dmg,
            final(self).mh.hit_proccs@ == old(self).mh.hit_proccs@,
            final(self).oh.hit_proccs@ == old(self).oh.hit_proccs@,
            final(self).stats == old(self).stats,
            final(self).cooldowns == old(self).cooldowns,
            final(self).energy == old(self).energy,
            final(self).combo_points == old(self).combo_points,
            final(self).timekeep == old(self).timekeep,
            final(self).dice == old(self).dice,
            final(self).rotation == old(self).rotation,
    {
        let t = character.talents;
        match check_talents(&t) {
            Ok(()) => {},
            Err(e) => return Err(e),
        }
        // assassination
        self.modifiers.hit.eviscerate = self.modifiers.hit.eviscerate + 50
            * t.improved_eviscerate;
        if t.relentless_strikes == 1 {
            self.modifiers.finisher.restore_energy_chance_per_combo_point = 200_000;
        }
        self.modifiers.finisher.add_combo_point_chance = 200_000 * t.ruthlessness;
        self.modifiers.general.slice_and_dice_duration_modifier = self.modifiers.general.slice_and_dice_duration_modifier
            + 150 * t.improved_slice_and_dice;
        self.modifiers.crit.backstab = self.modifiers.crit.backstab + 60 * t.lethality;
        self.modifiers.crit.sinister_strike = self.modifiers.crit.sinister_strike + 60
            * t.lethality;
        // combat
        if t.improved_sinister_strike == 1 {
            self.ability_costs.sinister_strike = self.ability_costs.sinister_strike - 3;
        } else if t.improved_sinister_strike == 2 {
            self.ability_costs.sinister_strike = self.ability_costs.sinister_strike - 5;
        }
        self.mh.hit_table_backstab.add_crit(100_000 * t.improved_backstab as i64);
        if self.mh.weapon_type == WeaponType::Dagger {
            self.mh.add_crit(10_000 * t.dagger_specialization as i64);
        }
        if self.oh.weapon_type == WeaponType::Dagger {
            self.oh.add_crit(10_000 * t.dagger_specialization as i64);
        }
        proof {
            let dw = t.dual_wield_specialization as int;
            let ag = t.aggression as int;
            let op = t.opportunity as int;
            let ev = self.modifiers.hit.eviscerate as int;
            assert(500 * (1000 + 100 * dw) <= 750_000) by (nonlinear_arith)
                requires 0 <= dw <= 5;
            assert(ev * (1000 + 20 * ag) <= 1150 * 1060) by (nonlinear_arith)
                requires 0 <= ev <= 1150, 0 <= ag <= 3;
            assert(1000 * (1000 + 20 * ag) <= 1_060_000) by (nonlinear_arith)
                requires 0 <= ag <= 3;
            assert(1000 * (1000 + 40 * op) <= 1_200_000) by (nonlinear_arith)
                requires 0 <= op <= 5;
        }
        self.modifiers.hit.oh = self.modifiers.hit.oh * (1000 + 100 * t.dual_wield_specialization)
            / 1000;
        self.modifiers.hit.eviscerate = self.modifiers.hit.eviscerate * (1000 + 20 * t.aggression)
            / 1000;
        self.modifiers.hit.sinister_strike = self.modifiers.hit.sinister_strike * (1000 + 20
            * t.aggression) / 1000;
        // subtlety
        self.modifiers.hit.backstab = self.modifiers.hit.backstab * (1000 + 40 * t.opportunity)
            / 1000;
        Ok(())
    }
}

} // verus!
