use vstd::prelude::*;
use crate::character::{Character, SetBonus};
use crate::error::ConfigError;
use crate::multiplier::MultiplierStack;

verus! {

/// Armor constant of a level 60 attacker: 85 times 60 plus 40.
pub const ARMOR_K: u64 = 5140;

/// Target armor before debuffs.
pub const BASE_TARGET_ARMOR: i64 = 3731;

/// Armor removed by five sunders, curse of recklessness and faerie fire.
pub const SUNDER_ARMOR: i64 = 2250;
pub const CURSE_ARMOR: i64 = 640;
pub const FAERIE_FIRE_ARMOR: i64 = 505;

/// The largest damage, in hundredths, that a single hit may carry.
pub const MAX_HIT_DAMAGE: u64 = 1_000_000_000_000_000;

/// Damage left of `d` against `armor`: `d` times `K / (K + armor)`.
pub open spec fn mitigated(d: int, armor: int) -> int {
    d * (ARMOR_K as int) / ((ARMOR_K as int) + armor)
}

/// Permille damage kept by a glancing blow at a skill delta; `None` past the
/// modelled range.
pub open spec fn glancing_factor_spec(delta: int) -> Option<int> {
    if delta == 15 {
        Some(650)
    } else if delta == 14 {
        Some(690)
    } else if delta == 13 {
        Some(730)
    } else if delta == 12 {
        Some(770)
    } else if delta == 11 {
        Some(810)
    } else if delta == 10 {
        Some(850)
    } else if delta == 9 {
        Some(890)
    } else if delta == 8 {
        Some(930)
    } else if -300 <= delta <= 7 {
        Some(950)
    } else {
        None
    }
}

/// Permille damage kept by a glancing blow at a skill delta.
pub fn get_glancing_red_factor_from_skill_delta(delta: i64) -> (r: Result<u32, ConfigError>)
    ensures
        match glancing_factor_spec(delta as int) {
            Some(g) => r == Ok::<u32, ConfigError>(g as u32),
            None => r == Err::<u32, ConfigError>(ConfigError::SkillDeltaOutOfRange(delta)),
        },
{
    match delta {
        15 => Ok(650),
        14 => Ok(690),
        13 => Ok(730),
        12 => Ok(770),
        11 => Ok(810),
        10 => Ok(850),
        9 => Ok(890),
        8 => Ok(930),
        -300..=7 => Ok(950),
        _ => Err(ConfigError::SkillDeltaOutOfRange(delta)),
    }
}

/// Modifiers that act on the whole character.
#[derive(Debug)]
pub struct GeneralModifiers {
    /// Permille scale of the slice and dice duration.
    pub slice_and_dice_duration_modifier: u32,
    /// Attack speed multipliers in force, in parts per million.
    pub attack_speed: MultiplierStack,
    /// Energy regeneration multipliers in force.
    pub energy_regen: MultiplierStack,
    pub energy_max: u32,
}

/// Permille damage multipliers of each attack.
#[derive(Clone, Copy, Debug, PartialEq, Eq, Structural)]
pub struct HitModifiers {
    pub glancing_mh: u32,
    pub glancing_oh: u32,
    pub sinister_strike: u32,
    pub backstab: u32,
    pub eviscerate: u32,
    pub oh: u32,
}

/// Permille extra damage of a critical strike of each ability.
#[derive(Clone, Copy, Debug, PartialEq, Eq, Structural)]
pub struct CritModifiers {
    pub sinister_strike: u32,
    pub backstab: u32,
    pub eviscerate: u32,
}

/// Chances, in parts per million, of the bonuses that a finisher may give.
#[derive(Clone, Copy, Debug, PartialEq, Eq, Structural)]
pub struct FinisherModifiers {
    pub restore_energy_chance_per_combo_point: u32,
    pub add_combo_point_chance: u32,
}

/// Every modifier of a configured character.
#[derive(Debug)]
pub struct Modifiers {
    pub general: GeneralModifiers,
    pub hit: HitModifiers,
    pub crit: CritModifiers,
    pub finisher: FinisherModifiers,
    /// Effective target armor after debuffs.
    pub armor: u32,
}

impl GeneralModifiers {
    pub fn new() -> (r: GeneralModifiers)
        ensures
            r.slice_and_dice_duration_modifier == 1000,
            r.attack_speed@ == Seq::<u32>::empty(),
            r.energy_regen@ == Seq::<u32>::empty(),
            r.energy_max == 100,
    {
        GeneralModifiers {
            slice_and_dice_duration_modifier: 1000,
            attack_speed: MultiplierStack::new(),
            energy_regen: MultiplierStack::new(),
            energy_max: 100,
        }
    }

    /// Applies haste and set bonuses; a negative haste is refused, since
    /// slowing effects are not modelled.
    pub fn set_modifiers(&mut self, character: &Character) -> (r: Result<(), ConfigError>)
        ensures
            character.sec_stats.haste < 0 <==> r is Err,
            r is Err ==> r == Err::<(), ConfigError>(ConfigError::SlowingMultiplier),
            r is Ok ==> final(self).attack_speed@ == old(self).attack_speed@.push(
                (1_000_000 + character.sec_stats.haste as int) as u32,
            ),
            r is Ok ==> final(self).energy_max == energy_cap(
                old(self).energy_max,
                character.set_bonuses@,
            ),
            final(self).energy_regen@ == old(self).energy_regen@,
            final(self).slice_and_dice_duration_modifier == old(
                self,
            ).slice_and_dice_duration_modifier,
    {
        if character.sec_stats.haste < 0 {
            return Err(ConfigError::SlowingMultiplier);
        }
        self.attack_speed.apply(1_000_000 + character.sec_stats.haste as u32);
        let mut i: usize = 0;
        let ghost start = self.energy_max;
        while i < character.set_bonuses.len()
            invariant
                0 <= i <= character.set_bonuses@.len(),
                self.energy_max == energy_cap(start, character.set_bonuses@.take(i as int)),
                self.attack_speed@ == old(self).attack_speed@.push(
                    (1_000_000 + character.sec_stats.haste as int) as u32,
                ),
                self.energy_regen@ == old(self).energy_regen@,
                self.slice_and_dice_duration_modifier == old(
                    self,
                ).slice_and_dice_duration_modifier,
                start == old(self).energy_max,
            decreases character.set_bonuses@.len() - i,
        {
            proof {
                assert(character.set_bonuses@.take(i + 1).drop_last() =~= character.set_bonuses@.take(
                    i as int,
                ));
            }
            match character.set_bonuses[i] {
                SetBonus::NewEnergyCap(max) => {
                    self.energy_max = max;
                },
            }
            i = i + 1;
        }
        proof {
            assert(character.set_bonuses@.take(i as int) =~= character.set_bonuses@);
        }
        Ok(())
    }
}

/// The energy cap after the set bonuses, the last one winning.
pub open spec fn energy_cap(start: u32, bonuses: Seq<SetBonus>) -> u32 {
    if bonuses.len() == 0 {
        start
    } else {
        match bonuses.last() {
            SetBonus::NewEnergyCap(max) => max,
        }
    }
}

impl HitModifiers {
    pub fn new() -> (r: HitModifiers)
        ensures
            r == (HitModifiers {
                glancing_mh: 1000,
                glancing_oh: 1000,
                sinister_strike: 1000,
                backstab: 1000,
                eviscerate: 1000,
                oh: 500,
            }),
    {
        HitModifiers {
            glancing_mh: 1000,
            glancing_oh: 1000,
            sinister_strike: 1000,
            backstab: 1000,
            eviscerate: 1000,
            oh: 500,
        }
    }
}

impl CritModifiers {
    pub fn new() -> (r: CritModifiers)
        ensures
            r == (CritModifiers { sinister_strike: 1000, backstab: 1000, eviscerate: 1000 }),
    {
        CritModifiers { sinister_strike: 1000, backstab: 1000, eviscerate: 1000 }
    }
}

impl FinisherModifiers {
    pub fn new() -> (r: FinisherModifiers)
        ensures
            r == (FinisherModifiers {
                restore_energy_chance_per_combo_point: 0,
                add_combo_point_chance: 0,
            }),
    {
        FinisherModifiers { restore_energy_chance_per_combo_point: 0, add_combo_point_chance: 0 }
    }

    /// Whether a finisher leaves one combo point behind, for a roll in parts
    /// per million.
    pub fn gets_extra_combo_point(&self, die: u32) -> (r: bool)
        ensures
            r == (die < self.add_combo_point_chance),
    {
        die < self.add_combo_point_chance
    }

    /// Whether a finisher restores energy: the chance grows with the combo
    /// points given.
    pub fn gets_extra_energy(&self, combo_points: u32, die: u32) -> (r: bool)
        ensures
            r == ((die as int) < (combo_points as int) * (
            self.restore_energy_chance_per_combo_point as int)),
    {
        proof {
            let c = combo_points as int;
            let p = self.restore_energy_chance_per_combo_point as int;
            assert(c * p <= 4294967295 * 4294967295) by (nonlinear_arith)
                requires 0 <= c <= 4294967295, 0 <= p <= 4294967295;
        }
        (die as u64) < (combo_points as u64) * (self.restore_energy_chance_per_combo_point as u64)
    }
}

/// Effective armor after the fixed debuffs, never below zero.
pub open spec fn effective_armor_spec() -> int {
    let a = BASE_TARGET_ARMOR - SUNDER_ARMOR - CURSE_ARMOR - FAERIE_FIRE_ARMOR;
    if a > 0 { a } else { 0 }
}

impl Modifiers {
    pub fn new() -> (r: Modifiers)
        ensures
            r.general.slice_and_dice_duration_modifier == 1000,
            r.general.attack_speed@ == Seq::<u32>::empty(),
            r.general.energy_regen@ == Seq::<u32>::empty(),
            r.general.energy_max == 100,
            r.hit == (HitModifiers {
                glancing_mh: 1000,
                glancing_oh: 1000,
                sinister_strike: 1000,
                backstab: 1000,
                eviscerate: 1000,
                oh: 500,
            }),
            r.crit == (CritModifiers { sinister_strike: 1000, backstab: 1000, eviscerate: 1000 }),
            r.finisher == (FinisherModifiers {
                restore_energy_chance_per_combo_point: 0,
                add_combo_point_chance: 0,
            }),
            r.armor == 0,
    {
        Modifiers {
            general: GeneralModifiers::new(),
            hit: HitModifiers::new(),
            crit: CritModifiers::new(),
            finisher: FinisherModifiers::new(),
            armor: 0,
        }
    }

    /// Damage left after armor.
    pub fn armor_reduction(&self, dmg: u64) -> (r: u64)
        requires
            dmg <= MAX_HIT_DAMAGE,
        ensures
            r == mitigated(dmg as int, self.armor as int),
            r <= dmg,
    {
        proof {
            lemma_mitigation(self.armor as int, self.armor as int, dmg as int);
            assert(dmg as int * 5140 <= MAX_HIT_DAMAGE * 5140) by (nonlinear_arith)
                requires dmg <= MAX_HIT_DAMAGE;
        }
        dmg * ARMOR_K / (ARMOR_K + self.armor as u64)
    }

    /// Applies haste and set bonuses, and sets the target armor.
    pub fn set_modifiers(&mut self, character: &Character) -> (r: Result<(), ConfigError>)
        ensures
            character.sec_stats.haste < 0 <==> r is Err,
            r is Err ==> r == Err::<(), ConfigError>(ConfigError::SlowingMultiplier),
            r is Ok ==> final(self).general.attack_speed@ == old(self).general.attack_speed@.push(
                (1_000_000 + character.sec_stats.haste as int) as u32,
            ),
            r is Ok ==> final(self).general.energy_max == energy_cap(
                old(self).general.energy_max,
                character.set_bonuses@,
            ),
            r is Ok ==> final(self).armor == effective_armor_spec(),
            final(self).general.energy_regen@ == old(self).general.energy_regen@,
            final(self).general.slice_and_dice_duration_modifier == old(
                self,
            ).general.slice_and_dice_duration_modifier,
            final(self).hit == old(self).hit,
            final(self).crit == old(self).crit,
            final(self).finisher == old(self).finisher,
    {
        match self.general.set_modifiers(character) {
            Ok(()) => {},
            Err(e) => return Err(e),
        }
        self.set_armor_factor();
        Ok(())
    }

    /// Target armor less the fixed debuffs, floored at zero.
    pub fn set_armor_factor(&mut self)
        ensures
            final(self).armor == effective_armor_spec(),
            final(self).general == old(self).general,
            final(self).hit == old(self).hit,
            final(self).crit == old(self).crit,
            final(self).finisher == old(self).finisher,
    {
        let mut armor: i64 = BASE_TARGET_ARMOR;
        armor = armor - SUNDER_ARMOR;
        armor = armor - CURSE_ARMOR;
        armor = armor - FAERIE_FIRE_ARMOR;
        if armor < 0 {
            armor = 0;
        }
        self.armor = armor as u32;
    }
}

/// The armor factor `K / (K + armor)` lies in (0, 1] and falls as armor
/// rises, and so does the damage left of any hit.
pub proof fn lemma_mitigation(a1: int, a2: int, d: int)
    requires
        0 <= a1 <= a2,
        0 <= d,
    ensures
        0 < ARMOR_K <= ARMOR_K + a1,
        a1 < a2 ==> (ARMOR_K as int) * (ARMOR_K + a2) > (ARMOR_K as int) * (ARMOR_K + a1),
        0 <= mitigated(d, a2) <= mitigated(d, a1) <= d,
{
    let k = ARMOR_K as int;
    assert(d * k / (k + a2) <= d * k / (k + a1)) by (nonlinear_arith)
        requires 0 <= a1 <= a2, 0 <= d, k == 5140;
    assert(d * k / (k + a1) <= d) by (nonlinear_arith)
        requires 0 <= a1, 0 <= d, k == 5140;
    assert(0 <= d * k / (k + a2)) by (nonlinear_arith)
        requires 0 <= a2, 0 <= d, k == 5140;
}

} // verus!
