use vstd::prelude::*;
use crate::character::{Character, CooldownEffect, Talents, WeaponType};
use crate::clock::MAX_STEP;
use crate::cooldown::CooldownState;
use crate::dice::Dice;
use crate::error::ConfigError;
use crate::modifiers::{CritModifiers, FinisherModifiers, HitModifiers, glancing_factor_spec};
use crate::rotation::{AbilityCosts, Rotation};
use crate::simulator::{Simulator, cooldown_ok};
use crate::hit_table::{WhiteHitTable, YellowHitTable, white_table_spec, yellow_table_spec};
use crate::modifiers::{effective_armor_spec, energy_cap};
use crate::weapon::{
    WeaponSlot, ap_bonus, damage_valid, enchant_damage, normalized_speed_spec, sat, skill_delta_spec,
    slot_procs, tables_valid,
};

verus! {

/// Every talent within its ranks.
pub open spec fn talent_ranks_ok(t: Talents) -> bool {
    &&& t.improved_eviscerate <= 3
    &&& t.malice <= 5
    &&& t.relentless_strikes <= 1
    &&& t.ruthlessness <= 3
    &&& t.improved_slice_and_dice <= 3
    &&& t.lethality <= 5
    &&& t.improved_sinister_strike <= 2
    &&& t.improved_backstab <= 3
    &&& t.precision <= 5
    &&& t.dagger_specialization <= 5
    &&& t.dual_wield_specialization <= 5
    &&& t.sword_specialization <= 5
    &&& t.aggression <= 3
    &&& t.opportunity <= 5
}

/// The hit modifiers after the talents, from their starting values.
pub open spec fn talented_hit(h: HitModifiers, t: Talents) -> HitModifiers {
    HitModifiers {
        eviscerate: ((h.eviscerate + 50 * t.improved_eviscerate) * (1000 + 20 * t.aggression)
            / 1000) as u32,
        sinister_strike: (h.sinister_strike * (1000 + 20 * t.aggression) / 1000) as u32,
        backstab: (h.backstab * (1000 + 40 * t.opportunity) / 1000) as u32,
        oh: (h.oh * (1000 + 100 * t.dual_wield_specialization) / 1000) as u32,
        ..h
    }
}

/// The crit modifiers after the talents.
pub open spec fn talented_crit(c: CritModifiers, t: Talents) -> CritModifiers {
    CritModifiers {
        backstab: (c.backstab + 60 * t.lethality) as u32,
        sinister_strike: (c.sinister_strike + 60 * t.lethality) as u32,
        ..c
    }
}

/// The finisher chances after the talents.
pub open spec fn talented_finisher(f: FinisherModifiers, t: Talents) -> FinisherModifiers {
    FinisherModifiers {
        restore_energy_chance_per_combo_point: if t.relentless_strikes == 1 {
            200_000
        } else {
            f.restore_energy_chance_per_combo_point
        },
        add_combo_point_chance: (200_000 * t.ruthlessness) as u32,
    }
}

/// Sinister strike's cost after its talent.
pub open spec fn talented_sinister_cost(cost: int, t: Talents) -> int {
    if t.improved_sinister_strike == 1 {
        cost - 3
    } else if t.improved_sinister_strike == 2 {
        cost - 5
    } else {
        cost
    }
}

/// A character that configures a simulator, each hand at its own target
/// level: both weapon classes are modelled, both hands' tables and damage can
/// be built, haste does not slow, no cooldown slows, both skill deltas have a
/// glancing factor, and the talents are within ranks with none unmodelled.
pub open spec fn config_valid(s: Simulator, c: Character) -> bool {
    let dm = skill_delta_spec(c, true, s.mh.enemy_lvl as int);
    let d_o = skill_delta_spec(c, false, s.oh.enemy_lvl as int);
    &&& normalized_speed_spec(c.mh.weapon_type) is Some
    &&& normalized_speed_spec(c.oh.weapon_type) is Some
    &&& tables_valid(c, true, s.mh.enemy_lvl as int)
    &&& damage_valid(c, true, normalized_speed_spec(c.mh.weapon_type)->Some_0 as int)
    &&& tables_valid(c, false, s.oh.enemy_lvl as int)
    &&& damage_valid(c, false, normalized_speed_spec(c.oh.weapon_type)->Some_0 as int)
    &&& c.sec_stats.haste >= 0
    &&& forall|i: int|
        0 <= i < c.cooldowns@.len() ==> cooldown_ok(
            CooldownState::from_declaration_spec(#[trigger] c.cooldowns@[i]),
        )
    &&& glancing_factor_spec(dm->Some_0) is Some
    &&& glancing_factor_spec(d_o->Some_0) is Some
    &&& talent_ranks_ok(c.talents)
    &&& crate::talents::talents_modelled(c.talents)
}

/// `t` with `extra` more crit.
pub open spec fn white_plus_crit(t: WhiteHitTable, extra: int) -> WhiteHitTable {
    WhiteHitTable { crit_value: (t.crit_value + extra) as i64, ..t }
}

/// `t` with `extra` more crit.
pub open spec fn yellow_plus_crit(t: YellowHitTable, extra: int) -> YellowHitTable {
    YellowHitTable { crit_value: (t.crit_value + extra) as i64, ..t }
}

/// Dagger specialization's crit for a hand holding a weapon of type `w`.
pub open spec fn dagger_crit(w: WeaponType, t: Talents) -> int {
    if w == WeaponType::Dagger { 10_000 * t.dagger_specialization } else { 0 }
}

/// The hands, tables, damages, procs, modifiers and cooldowns that a
/// successful configuration from a fresh simulator `s` builds for `c`.
pub open spec fn configured_as(f: Simulator, s: Simulator, c: Character) -> bool {
    let t = c.talents;
    let hit = c.sec_stats.hit as int;
    let crit = c.sec_stats.crit as int;
    let lm = s.mh.enemy_lvl as int;
    let lo = s.oh.enemy_lvl as int;
    let dm = skill_delta_spec(c, true, lm)->Some_0;
    let d_o = skill_delta_spec(c, false, lo)->Some_0;
    let ap = c.sec_stats.attack_power as int;
    let em = enchant_damage(c.mh_enchants@);
    let eo = enchant_damage(c.oh_enchants@);
    let nm = normalized_speed_spec(c.mh.weapon_type)->Some_0 as int;
    let no = normalized_speed_spec(c.oh.weapon_type)->Some_0 as int;
    let bs_base = if c.mh.weapon_type == WeaponType::Dagger {
        yellow_table_spec(dm, hit, crit, lm)
    } else {
        YellowHitTable { miss_value: 0, dodge_value: 0, crit_value: 0 }
    };
    &&& f.mh.hit_table_white == white_plus_crit(white_table_spec(dm, hit, crit, lm), dagger_crit(c.mh.weapon_type, t))
    &&& f.mh.hit_table_yellow == yellow_plus_crit(yellow_table_spec(dm, hit, crit, lm), dagger_crit(c.mh.weapon_type, t))
    &&& f.mh.hit_table_backstab == yellow_plus_crit(
        bs_base,
        100_000 * t.improved_backstab + dagger_crit(c.mh.weapon_type, t),
    )
    &&& f.oh.hit_table_white == white_plus_crit(white_table_spec(d_o, hit, crit, lo), dagger_crit(c.oh.weapon_type, t))
    &&& f.mh.mean_white_dmg == sat(c.mh.mean_dmg + ap_bonus(c.mh.swing_interval as int, ap)) + em
    &&& f.mh.mean_yellow_dmg == sat(c.mh.mean_dmg + ap_bonus(nm, ap)) + em
    &&& f.oh.mean_white_dmg == sat(c.oh.mean_dmg + ap_bonus(c.oh.swing_interval as int, ap)) + eo
    &&& f.oh.mean_yellow_dmg == sat(c.oh.mean_dmg + ap_bonus(no, ap)) + eo
    &&& f.mh.hit_proccs@ == slot_procs(c, true)
    &&& f.oh.hit_proccs@ == slot_procs(c, false)
    &&& f.modifiers.hit == talented_hit(
        HitModifiers {
            glancing_mh: glancing_factor_spec(dm)->Some_0 as u32,
            glancing_oh: glancing_factor_spec(d_o)->Some_0 as u32,
            sinister_strike: 1000,
            backstab: 1000,
            eviscerate: 1000,
            oh: 500,
        },
        t,
    )
    &&& f.modifiers.crit == talented_crit(
        CritModifiers { sinister_strike: 1000, backstab: 1000, eviscerate: 1000 },
        t,
    )
    &&& f.modifiers.finisher == talented_finisher(
        FinisherModifiers { restore_energy_chance_per_combo_point: 0, add_combo_point_chance: 0 },
        t,
    )
    &&& f.modifiers.general.slice_and_dice_duration_modifier == 1000 + 150 * t.improved_slice_and_dice
    &&& f.modifiers.general.energy_max == energy_cap(s.modifiers.general.energy_max, c.set_bonuses@)
    &&& f.modifiers.armor == effective_armor_spec()
    &&& f.modifiers.general.attack_speed@ == seq![(1_000_000 + c.sec_stats.haste as int) as u32]
    &&& f.modifiers.general.energy_regen@.len() == 0
    &&& f.cooldowns@.len() == c.cooldowns@.len()
    &&& forall|i: int|
        0 <= i < c.cooldowns@.len() ==> #[trigger] f.cooldowns@[i]
            == CooldownState::from_declaration_spec(c.cooldowns@[i])
}

impl Simulator {
    /// As [`Simulator::new`] leaves it, up to the fight settings.
    pub open spec fn unconfigured(&self) -> bool {
        &&& self.modifiers.hit == HitModifiers {
            glancing_mh: 1000,
            glancing_oh: 1000,
            sinister_strike: 1000,
            backstab: 1000,
            eviscerate: 1000,
            oh: 500,
        }
        &&& self.modifiers.crit == CritModifiers {
            sinister_strike: 1000,
            backstab: 1000,
            eviscerate: 1000,
        }
        &&& self.modifiers.finisher == FinisherModifiers {
            restore_energy_chance_per_combo_point: 0,
            add_combo_point_chance: 0,
        }
        &&& self.modifiers.general.slice_and_dice_duration_modifier == 1000
        &&& self.modifiers.general.attack_speed@.len() == 0
        &&& self.modifiers.general.energy_regen@.len() == 0
        &&& self.ability_costs == AbilityCosts {
            sinister_strike: 45,
            backstab: 60,
            eviscerate: 35,
            slice_and_dice: 25,
            blade_flurry: 25,
        }
        &&& self.mh.hit_proccs@.len() == 0
        &&& self.oh.hit_proccs@.len() == 0
        &&& self.energy == 0
        &&& self.combo_points == 0
        &&& 0 <= self.timekeep.dt <= MAX_STEP
    }

    /// Takes the fight settings: its length in ms, the target level and the
    /// seed of the dice.
    pub fn apply_input_arguments(&mut self, fight_length: i64, enemy_lvl: i32, seed: u64)
        requires
            old(self).unconfigured(),
        ensures
            final(self).unconfigured(),
            final(self).fight_length == fight_length,
            final(self).timekeep.fight_length == fight_length,
            final(self).stats.fight_length == fight_length,
            final(self).mh.enemy_lvl == enemy_lvl,
            final(self).oh.enemy_lvl == enemy_lvl,
            final(self).dice == (Dice { seed, pos: 0 }),
            final(self).mh.weapon_slot == old(self).mh.weapon_slot,
            final(self).oh.weapon_slot == old(self).oh.weapon_slot,
            final(self).cooldowns@ == old(self).cooldowns@,
    {
        self.timekeep.fight_length = fight_length;
        self.fight_length = fight_length;
        self.stats.set_fight_length(fight_length);
        self.mh.enemy_lvl = enemy_lvl;
        self.oh.enemy_lvl = enemy_lvl;
        self.dice = Dice::new(seed);
    }

    /// The ready states of the declared cooldowns, and their names; a speed
    /// multiplier below one is refused.
    pub fn set_cooldowns(&mut self, character: &Character) -> (r: Result<(), ConfigError>)
        ensures
            r is Err <==> exists|i: int|
                0 <= i < character.cooldowns@.len() && !cooldown_ok(
                    CooldownState::from_declaration_spec(#[trigger] character.cooldowns@[i]),
                ),
            r is Err ==> r == Err::<(), ConfigError>(ConfigError::SlowingMultiplier),
            r is Ok ==> final(self).cooldowns@.len() == character.cooldowns@.len()
                && forall|i: int|
                0 <= i < character.cooldowns@.len() ==> #[trigger] final(self).cooldowns@[i]
                    == CooldownState::from_declaration_spec(character.cooldowns@[i]),
            r is Ok ==> forall|i: int|
                0 <= i < final(self).cooldowns@.len() ==> cooldown_ok(
                    #[trigger] final(self).cooldowns@[i],
                ),
            final(self).modifiers == old(self).modifiers,
            final(self).mh == old(self).mh,
            final(self).oh == old(self).oh,
            final(self).stats == old(self).stats,
            final(self).energy == old(self).energy,
            final(self).combo_points == old(self).combo_points,
            final(self).timekeep == old(self).timekeep,
            final(self).ability_costs == old(self).ability_costs,
            final(self).dice == old(self).dice,
    {
        let mut states: Vec<CooldownState> = Vec::new();
        let mut names: Vec<String> = Vec::new();
        let mut i: usize = 0;
        while i < character.cooldowns.len()
            invariant
                0 <= i <= character.cooldowns@.len(),
                states@.len() == i,
                forall|k: int|
                    0 <= k < i ==> #[trigger] states@[k] == CooldownState::from_declaration_spec(
                        character.cooldowns@[k],
                    ),
                forall|k: int| 0 <= k < i ==> cooldown_ok(#[trigger] states@[k]),
            decreases character.cooldowns@.len() - i,
        {
            let c = CooldownState::from_declaration(&character.cooldowns[i]);
            match c.effect {
                CooldownEffect::AttackSpeedMultiplier(m, _) => {
                    if m < 1_000_000 {
                        assert(!cooldown_ok(
                            CooldownState::from_declaration_spec(character.cooldowns@[i as int]),
                        ));
                        return Err(ConfigError::SlowingMultiplier);
                    }
                },
                _ => {},
            }
            states.push(c);
            names.push(character.cooldowns[i].name.clone());
            i = i + 1;
        }
        proof {
            assert forall|k: int| 0 <= k < character.cooldowns@.len() implies cooldown_ok(
                CooldownState::from_declaration_spec(#[trigger] character.cooldowns@[k]),
            ) by {
                assert(cooldown_ok(states@[k]));
            }
        }
        self.cooldowns = states;
        self.cooldown_names = names;
        Ok(())
    }

    /// Makes room in the stats for one count per proc of each hand.
    pub fn declare_proccs(&mut self)
        ensures
            final(self).stats.mh_procs@.len() == old(self).mh.hit_proccs@.len(),
            final(self).stats.oh_procs@.len() == old(self).oh.hit_proccs@.len(),
            final(self).stats.fight_length == old(self).stats.fight_length,
            *final(self) == (Simulator { stats: final(self).stats, ..*old(self) }),
    {
        let mh_count = self.mh.hit_proccs.len();
        let oh_count = self.oh.hit_proccs.len();
        self.stats.declare_proccs(mh_count, oh_count);
    }

    /// The glancing-blow factor of each hand, from its skill delta.
    pub fn set_glancing_reduction(&mut self, character: &Character) -> (r: Result<(), ConfigError>)
        requires
            old(self).mh.weapon_slot == WeaponSlot::Mh,
            old(self).oh.weapon_slot == WeaponSlot::Oh,
        ensures
            r is Ok <==> ({
                let dm = skill_delta_spec(*character, true, old(self).mh.enemy_lvl as int);
                let d_o = skill_delta_spec(*character, false, old(self).oh.enemy_lvl as int);
                &&& dm is Some && d_o is Some
                &&& glancing_factor_spec(dm->Some_0) is Some
                &&& glancing_factor_spec(d_o->Some_0) is Some
            }),
            r is Ok ==> ({
                let dm = skill_delta_spec(*character, true, old(self).mh.enemy_lvl as int);
                let d_o = skill_delta_spec(*character, false, old(self).oh.enemy_lvl as int);
                &&& dm is Some && d_o is Some
                &&& glancing_factor_spec(dm->Some_0) is Some
                &&& glancing_factor_spec(d_o->Some_0) is Some
                &&& final(self).modifiers.hit == (HitModifiers {
                    glancing_mh: glancing_factor_spec(dm->Some_0)->Some_0 as u32,
                    glancing_oh: glancing_factor_spec(d_o->Some_0)->Some_0 as u32,
                    ..old(self).modifiers.hit
                })
            }),
            final(self).modifiers.hit.glancing_mh <= 1000 || final(self).modifiers.hit
                == old(self).modifiers.hit,
            final(self).modifiers.hit.glancing_oh <= 1000 || final(self).modifiers.hit
                == old(self).modifiers.hit,
            final(self).modifiers.crit == old(self).modifiers.crit,
            final(self).modifiers.finisher == old(self).modifiers.finisher,
            final(self).modifiers.armor == old(self).modifiers.armor,
            final(self).modifiers.general == old(self).modifiers.general,
            final(self).mh == old(self).mh,
            final(self).oh == old(self).oh,
            final(self).stats == old(self).stats,
            final(self).cooldowns == old(self).cooldowns,
            final(self).energy == old(self).energy,
            final(self).combo_points == old(self).combo_points,
            final(self).timekeep == old(self).timekeep,
            final(self).ability_costs == old(self).ability_costs,
            final(self).dice == old(self).dice,
    {
        let dm = match self.mh.get_skill_delta(character) {
            Ok(d) => d,
            Err(e) => return Err(e),
        };
        let d_o = match self.oh.get_skill_delta(character) {
            Ok(d) => d,
            Err(e) => return Err(e),
        };
        let gm = match crate::modifiers::get_glancing_red_factor_from_skill_delta(dm) {
            Ok(g) => g,
            Err(e) => return Err(e),
        };
        let go = match crate::modifiers::get_glancing_red_factor_from_skill_delta(d_o) {
            Ok(g) => g,
            Err(e) => return Err(e),
        };
        self.modifiers.hit.glancing_mh = gm;
        self.modifiers.hit.glancing_oh = go;
        Ok(())
    }

    /// The rotation follows the main-hand weapon: daggers backstab, other
    /// weapons use the sinister strike rotation.
    pub fn set_rotation(&mut self)
        ensures
            final(self).rotation == if old(self).mh.weapon_type == WeaponType::Dagger {
                Rotation::BackstabEvis
            } else {
                Rotation::SinStrikeEvis
            },
            *final(self) == (Simulator { rotation: final(self).rotation, ..*old(self) }),
    {
        if self.mh.weapon_type == WeaponType::Dagger {
            self.rotation = Rotation::BackstabEvis;
        } else {
            self.rotation = Rotation::SinStrikeEvis;
        }
    }
}

impl Simulator {
    /// Configures the simulator from a resolved character: swing intervals,
    /// both hands, haste, set bonuses and armor, procs, cooldowns, glancing
    /// factors, talents and the rotation. The first configuration error met
    /// is returned; on success the simulator is well formed.
    pub fn configure_with_character(&mut self, character: &Character) -> (r: Result<
        (),
        ConfigError,
    >)
        requires
            old(self).unconfigured(),
        ensures
            r is Ok <==> config_valid(*old(self), *character),
            r is Ok ==> final(self).wf(),
            r is Ok ==> configured_as(*final(self), *old(self), *character),
            r is Ok ==> final(self).rotation == if character.mh.weapon_type == WeaponType::Dagger {
                Rotation::BackstabEvis
            } else {
                Rotation::SinStrikeEvis
            },
            r is Ok ==> final(self).timekeep.mh_swing_interval == character.mh.swing_interval
                && final(self).timekeep.oh_swing_interval == character.oh.swing_interval,
            r is Ok ==> final(self).cooldowns@.len() == character.cooldowns@.len(),
            normalized_speed_spec(character.mh.weapon_type) is None ==> r == Err::<(), ConfigError>(
                ConfigError::UnknownWeaponType,
            ),
            r is Ok ==> normalized_speed_spec(character.oh.weapon_type) is Some,
            r is Ok ==> crate::configure::talent_ranks_ok(character.talents)
                && crate::talents::talents_modelled(character.talents),
            r is Ok ==> character.sec_stats.haste >= 0,
            final(self).dice == old(self).dice,
    {
        self.timekeep.set_mh_swing_interval(character.mh.swing_interval);
        self.timekeep.set_oh_swing_interval(character.oh.swing_interval);
        match self.mh.set_weapon_type_and_normalized_speed(&character.mh) {
            Ok(()) => {},
            Err(e) => return Err(e),
        }
        self.mh.set_main_hand();
        match self.mh.set_mechanics_from_character(character) {
            Ok(()) => {},
            Err(e) => return Err(e),
        }
        assert(self.mh.hit_proccs@ =~= slot_procs(*character, true));
        match self.oh.set_weapon_type_and_normalized_speed(&character.oh) {
            Ok(()) => {},
            Err(e) => return Err(e),
        }
        self.oh.set_off_hand();
        match self.oh.set_mechanics_from_character(character) {
            Ok(()) => {},
            Err(e) => return Err(e),
        }
        assert(self.oh.hit_proccs@ =~= slot_procs(*character, false));
        match self.modifiers.set_modifiers(character) {
            Ok(()) => {},
            Err(e) => return Err(e),
        }
        assert(self.modifiers.general.attack_speed@ =~= seq![
            (1_000_000 + character.sec_stats.haste as int) as u32,
        ]);
        self.declare_proccs();
        match self.set_cooldowns(character) {
            Ok(()) => {},
            Err(e) => return Err(e),
        }
        match self.set_glancing_reduction(character) {
            Ok(()) => {},
            Err(e) => return Err(e),
        }
        match self.incorporate_talents(character) {
            Ok(()) => {},
            Err(e) => return Err(e),
        }
        self.set_rotation();
        Ok(())
    }
}

impl CooldownState {
    pub open spec fn from_declaration_spec(c: crate::character::Cooldown) -> CooldownState {
        CooldownState {
            cost: c.cost,
            cd: c.cd,
            cd_left: 0,
            time_left: 0,
            effect: c.effect,
            is_active: false,
            use_below_energy: c.use_below_energy,
        }
    }
}

} // verus!
