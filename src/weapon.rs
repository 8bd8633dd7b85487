use vstd::prelude::*;
use crate::character::{ArmorPiece, Character, Enchant, HitProc, Weapon, WeaponType};
use crate::error::ConfigError;
use crate::hit_table::{
    WhiteHitTable, YellowHitTable, miss_chance_spec, white_table_spec, white_within,
    yellow_table_spec, yellow_within,
};

verus! {

/// The largest mean damage per hit, in hundredths, that a weapon may reach.
pub const MAX_MEAN_DAMAGE: u64 = 1_000_000_000_000;

/// Bound on every hit-table threshold of a configured weapon.
pub const TABLE_BOUND: i64 = 1_000_000_000_000_000;

/// Bound on every threshold of a freshly built hit table.
pub const BUILT_BOUND: i64 = 200_000_000_000_000;

/// Which hand a weapon simulator stands for.
#[derive(Clone, Copy, Debug, PartialEq, Eq, Structural)]
pub enum WeaponSlot {
    Mh,
    Oh,
    Unset,
}

/// Normalized speed of a weapon class in ms; `None` for classes not modelled.
pub open spec fn normalized_speed_spec(t: WeaponType) -> Option<u32> {
    match t {
        WeaponType::Dagger => Some(1_700),
        WeaponType::Sword => Some(2_400),
        _ => None,
    }
}

/// Attack power's share of a hit, in hundredths: `ms / 1000 * ap / 14`
/// points.
pub open spec fn ap_bonus(ms: int, ap: int) -> int {
    ms * ap / 140
}

/// Flat enchant damage of `es`, summed.
pub open spec fn enchant_damage(es: Seq<Enchant>) -> int
    decreases es.len(),
{
    if es.len() == 0 {
        0
    } else {
        enchant_damage(es.drop_last()) + es.last().extra_damage
    }
}

/// The procs that the armor carries, in order.
pub open spec fn armor_procs(a: Seq<ArmorPiece>) -> Seq<HitProc>
    decreases a.len(),
{
    if a.len() == 0 {
        Seq::empty()
    } else {
        match a.last().hit_proc {
            Some(p) => armor_procs(a.drop_last()).push(p),
            None => armor_procs(a.drop_last()),
        }
    }
}

/// The procs that the enchants carry, in order.
pub open spec fn enchant_procs(e: Seq<Enchant>) -> Seq<HitProc>
    decreases e.len(),
{
    if e.len() == 0 {
        Seq::empty()
    } else {
        match e.last().hit_proc {
            Some(p) => enchant_procs(e.drop_last()).push(p),
            None => enchant_procs(e.drop_last()),
        }
    }
}

/// The weapon's own proc, as a sequence of at most one.
pub open spec fn weapon_procs(w: Weapon) -> Seq<HitProc> {
    match w.hit_proc {
        Some(p) => seq![p],
        None => Seq::empty(),
    }
}

/// Every proc of a hand: the armor's first, then the weapon's, then its
/// enchants'.
pub open spec fn slot_procs(c: Character, main_hand: bool) -> Seq<HitProc> {
    if main_hand {
        armor_procs(c.armor@) + weapon_procs(c.mh) + enchant_procs(c.mh_enchants@)
    } else {
        armor_procs(c.armor@) + weapon_procs(c.oh) + enchant_procs(c.oh_enchants@)
    }
}

/// The skill delta of a hand: five times the target level less the weapon
/// skill of its class.
pub open spec fn skill_delta_spec(c: Character, main_hand: bool, level: int) -> Option<int> {
    let t = if main_hand { c.mh.weapon_type } else { c.oh.weapon_type };
    match t {
        WeaponType::Dagger => Some(5 * level - c.prim_stats.dagger_skill),
        WeaponType::Sword => Some(5 * level - c.prim_stats.sword_skill),
        _ => None,
    }
}

/// The hit tables of a hand can be built: its weapon class is modelled,
/// the target level is set, the skill delta has a miss chance, and the
/// level has glancing numbers.
pub open spec fn tables_valid(c: Character, main_hand: bool, level: int) -> bool {
    match skill_delta_spec(c, main_hand, level) {
        None => false,
        Some(d) => level != 0 && miss_chance_spec(d) is Some && 60 <= level <= 63,
    }
}

/// Both mean damages of a hand, with its enchants, stay within bounds.
pub open spec fn damage_valid(c: Character, main_hand: bool, normalized_speed: int) -> bool {
    let w = if main_hand { c.mh } else { c.oh };
    let e = if main_hand { enchant_damage(c.mh_enchants@) } else { enchant_damage(c.oh_enchants@) };
    let ap = c.sec_stats.attack_power as int;
    &&& sat(w.mean_dmg + ap_bonus(w.swing_interval as int, ap)) + e <= MAX_MEAN_DAMAGE
    &&& sat(w.mean_dmg + ap_bonus(normalized_speed, ap)) + e <= MAX_MEAN_DAMAGE
}

/// One hand's tables, damage and procs.
#[derive(Debug)]
pub struct WepSimulator {
    pub weapon_type: WeaponType,
    /// Mean autoattack damage in hundredths.
    pub mean_white_dmg: u64,
    /// Mean special-attack damage in hundredths.
    pub mean_yellow_dmg: u64,
    /// Normalized swing speed in ms.
    pub normalized_speed: u32,
    pub hit_table_yellow: YellowHitTable,
    pub hit_table_backstab: YellowHitTable,
    pub hit_table_white: WhiteHitTable,
    pub hit_proccs: Vec<HitProc>,
    pub enemy_lvl: i32,
    pub weapon_slot: WeaponSlot,
}

impl WepSimulator {
    pub fn new() -> (r: WepSimulator)
        ensures
            r.weapon_type == WeaponType::Dagger,
            r.mean_white_dmg == 0,
            r.mean_yellow_dmg == 0,
            r.normalized_speed == 0,
            r.hit_table_yellow == (YellowHitTable { miss_value: 0, dodge_value: 0, crit_value: 0 }),
            r.hit_table_backstab == (YellowHitTable { miss_value: 0, dodge_value: 0, crit_value: 0 }),
            r.hit_table_white == (WhiteHitTable { miss_value: 0, dodge_value: 0, glancing_value: 0, crit_value: 0 }),
            r.hit_proccs@.len() == 0,
            r.enemy_lvl == 0,
            r.weapon_slot == WeaponSlot::Unset,
    {
        WepSimulator {
            weapon_type: WeaponType::Dagger,
            mean_white_dmg: 0,
            mean_yellow_dmg: 0,
            normalized_speed: 0,
            hit_table_yellow: YellowHitTable::new(),
            hit_table_backstab: YellowHitTable::new(),
            hit_table_white: WhiteHitTable::new(),
            hit_proccs: Vec::new(),
            enemy_lvl: 0,
            weapon_slot: WeaponSlot::Unset,
        }
    }

    /// Takes the weapon's class and its normalized speed; a class that is
    /// not modelled is refused.
    pub fn set_weapon_type_and_normalized_speed(&mut self, weapon: &Weapon) -> (r: Result<
        (),
        ConfigError,
    >)
        ensures
            normalized_speed_spec(weapon.weapon_type) is None <==> r == Err::<(), ConfigError>(
                ConfigError::UnknownWeaponType,
            ),
            r is Ok <==> normalized_speed_spec(weapon.weapon_type) is Some,
            r is Ok ==> final(self).weapon_type == weapon.weapon_type
                && final(self).normalized_speed == normalized_speed_spec(
                weapon.weapon_type,
            )->Some_0,
            final(self).weapon_slot == old(self).weapon_slot,
            final(self).enemy_lvl == old(self).enemy_lvl,
            final(self).hit_proccs@ == old(self).hit_proccs@,
    {
        self.weapon_type = weapon.weapon_type;
        self.set_normalized_speed()
    }

    pub fn get_weapon_type(&self) -> (r: WeaponType)
        ensures
            r == self.weapon_type,
    {
        self.weapon_type
    }

    /// Normalized speed of the weapon class.
    pub fn set_normalized_speed(&mut self) -> (r: Result<(), ConfigError>)
        ensures
            normalized_speed_spec(old(self).weapon_type) is None <==> r == Err::<(), ConfigError>(
                ConfigError::UnknownWeaponType,
            ),
            r is Ok <==> normalized_speed_spec(old(self).weapon_type) is Some,
            r is Ok ==> final(self).normalized_speed == normalized_speed_spec(
                old(self).weapon_type,
            )->Some_0,
            final(self).weapon_type == old(self).weapon_type,
            final(self).weapon_slot == old(self).weapon_slot,
            final(self).enemy_lvl == old(self).enemy_lvl,
            final(self).hit_proccs@ == old(self).hit_proccs@,
    {
        match self.weapon_type {
            WeaponType::Dagger => {
                self.normalized_speed = 1_700;
                Ok(())
            },
            WeaponType::Sword => {
                self.normalized_speed = 2_400;
                Ok(())
            },
            _ => Err(ConfigError::UnknownWeaponType),
        }
    }

    pub fn set_main_hand(&mut self)
        ensures
            final(self).weapon_slot == WeaponSlot::Mh,
            final(self).weapon_type == old(self).weapon_type,
            final(self).normalized_speed == old(self).normalized_speed,
            final(self).enemy_lvl == old(self).enemy_lvl,
            final(self).hit_proccs@ == old(self).hit_proccs@,
    {
        self.weapon_slot = WeaponSlot::Mh;
    }

    pub fn set_off_hand(&mut self)
        ensures
            final(self).weapon_slot == WeaponSlot::Oh,
            final(self).weapon_type == old(self).weapon_type,
            final(self).normalized_speed == old(self).normalized_speed,
            final(self).enemy_lvl == old(self).enemy_lvl,
            final(self).hit_proccs@ == old(self).hit_proccs@,
    {
        self.weapon_slot = WeaponSlot::Oh;
    }

    /// Whether this is the main hand; the slot must have been set.
    pub fn is_main_hand(&self) -> (r: bool)
        requires
            self.weapon_slot != WeaponSlot::Unset,
        ensures
            r == (self.weapon_slot == WeaponSlot::Mh),
    {
        self.weapon_slot == WeaponSlot::Mh
    }

    /// Whether this is the off hand; the slot must have been set.
    pub fn is_off_hand(&self) -> (r: bool)
        requires
            self.weapon_slot != WeaponSlot::Unset,
        ensures
            r == (self.weapon_slot == WeaponSlot::Oh),
    {
        self.weapon_slot == WeaponSlot::Oh
    }

    /// The skill delta against the target for this hand's weapon class.
    pub fn get_skill_delta(&self, character: &Character) -> (r: Result<i64, ConfigError>)
        requires
            self.weapon_slot != WeaponSlot::Unset,
        ensures
            match skill_delta_spec(
                *character,
                self.weapon_slot == WeaponSlot::Mh,
                self.enemy_lvl as int,
            ) {
                Some(d) => r == Ok::<i64, ConfigError>(d as i64),
                None => r == Err::<i64, ConfigError>(ConfigError::UnknownWeaponType),
            },
            r is Ok ==> -100_000_000_000 <= r->Ok_0 <= 100_000_000_000,
    {
        let t = if self.is_off_hand() {
            character.oh.weapon_type
        } else {
            character.mh.weapon_type
        };
        match t {
            WeaponType::Dagger => Ok(
                5 * self.enemy_lvl as i64 - character.prim_stats.dagger_skill as i64,
            ),
            WeaponType::Sword => Ok(
                5 * self.enemy_lvl as i64 - character.prim_stats.sword_skill as i64,
            ),
            _ => Err(ConfigError::UnknownWeaponType),
        }
    }

    /// Mean autoattack damage: the weapon's mean roll plus attack power over
    /// the swing interval.
    pub fn set_wep_white_dmg(&mut self, character: &Character)
        requires
            old(self).weapon_slot != WeaponSlot::Unset,
        ensures
            ({
                let w = if old(self).weapon_slot == WeaponSlot::Mh {
                    character.mh
                } else {
                    character.oh
                };
                final(self).mean_white_dmg as int == sat(
                    w.mean_dmg + ap_bonus(w.swing_interval as int, character.sec_stats.attack_power as int),
                )
            }),
            same_but_damage(*old(self), *final(self)),
            final(self).mean_yellow_dmg == old(self).mean_yellow_dmg,
    {
        let w = if self.is_main_hand() {
            &character.mh
        } else {
            &character.oh
        };
        proof {
            let a = w.swing_interval as int;
            let b = character.sec_stats.attack_power as int;
            assert(a * b <= 4294967295 * 4294967295) by (nonlinear_arith)
                requires 0 <= a <= 4294967295, 0 <= b <= 4294967295;
        }
        let bonus = (w.swing_interval as u64) * (character.sec_stats.attack_power as u64) / 140;
        self.mean_white_dmg = w.mean_dmg.saturating_add(bonus);
    }

    /// Mean special-attack damage: as for autoattacks, over the normalized
    /// speed.
    pub fn set_wep_yellow_dmg(&mut self, character: &Character)
        requires
            old(self).weapon_slot != WeaponSlot::Unset,
        ensures
            ({
                let w = if old(self).weapon_slot == WeaponSlot::Mh {
                    character.mh
                } else {
                    character.oh
                };
                final(self).mean_yellow_dmg as int == sat(
                    w.mean_dmg + ap_bonus(old(self).normalized_speed as int, character.sec_stats.attack_power as int),
                )
            }),
            same_but_damage(*old(self), *final(self)),
            final(self).mean_white_dmg == old(self).mean_white_dmg,
    {
        let mean = if self.is_off_hand() {
            character.oh.mean_dmg
        } else {
            character.mh.mean_dmg
        };
        proof {
            let a = self.normalized_speed as int;
            let b = character.sec_stats.attack_power as int;
            assert(a * b <= 4294967295 * 4294967295) by (nonlinear_arith)
                requires 0 <= a <= 4294967295, 0 <= b <= 4294967295;
        }
        let bonus = (self.normalized_speed as u64) * (character.sec_stats.attack_power as u64) / 140;
        self.mean_yellow_dmg = mean.saturating_add(bonus);
    }

    /// Adds the flat damage of this hand's enchants to both mean damages;
    /// a total past the modelled bound is refused.
    pub fn apply_enchant_dmg(&mut self, character: &Character) -> (r: Result<(), ConfigError>)
        requires
            old(self).weapon_slot != WeaponSlot::Unset,
        ensures
            ({
                let e = if old(self).weapon_slot == WeaponSlot::Mh {
                    enchant_damage(character.mh_enchants@)
                } else {
                    enchant_damage(character.oh_enchants@)
                };
                &&& (r is Ok <==> old(self).mean_white_dmg + e <= MAX_MEAN_DAMAGE
                    && old(self).mean_yellow_dmg + e <= MAX_MEAN_DAMAGE)
                &&& r is Err ==> r == Err::<(), ConfigError>(ConfigError::DamageOutOfRange)
                &&& r is Ok ==> final(self).mean_white_dmg == old(self).mean_white_dmg + e
                    && final(self).mean_yellow_dmg == old(self).mean_yellow_dmg + e
            }),
            same_but_damage(*old(self), *final(self)),
    {
        let es = if self.is_main_hand() {
            &character.mh_enchants
        } else {
            &character.oh_enchants
        };
        let extra = enchant_total(es);
        let white = self.mean_white_dmg.saturating_add(extra);
        let yellow = self.mean_yellow_dmg.saturating_add(extra);
        if white > MAX_MEAN_DAMAGE || yellow > MAX_MEAN_DAMAGE {
            return Err(ConfigError::DamageOutOfRange);
        }
        self.mean_white_dmg = white;
        self.mean_yellow_dmg = yellow;
        Ok(())
    }

    /// Gathers this hand's procs: the armor's, then the weapon's own, then
    /// its enchants'.
    pub fn set_hit_proccs(&mut self, character: &Character)
        requires
            old(self).weapon_slot != WeaponSlot::Unset,
        ensures
            final(self).hit_proccs@ == old(self).hit_proccs@ + slot_procs(
                *character,
                old(self).weapon_slot == WeaponSlot::Mh,
            ),
            same_but_procs(*old(self), *final(self)),
    {
        let main_hand = self.is_main_hand();
        let ghost start = self.hit_proccs@;
        let mut i: usize = 0;
        while i < character.armor.len()
            invariant
                0 <= i <= character.armor@.len(),
                self.hit_proccs@ == start + armor_procs(character.armor@.take(i as int)),
                same_but_procs(*old(self), *self),
                start == old(self).hit_proccs@,
            decreases character.armor@.len() - i,
        {
            proof {
                assert(character.armor@.take(i + 1).drop_last() =~= character.armor@.take(i as int));
            }
            match &character.armor[i].hit_proc {
                Some(p) => {
                    self.hit_proccs.push(p.duplicate());
                    proof {
                        assert(self.hit_proccs@ =~= start + armor_procs(character.armor@.take(i + 1)));
                    }
                },
                None => {},
            }
            i = i + 1;
        }
        proof {
            assert(character.armor@.take(i as int) =~= character.armor@);
        }
        let ghost mid = self.hit_proccs@;
        let (w, es) = if main_hand {
            (&character.mh, &character.mh_enchants)
        } else {
            (&character.oh, &character.oh_enchants)
        };
        match &w.hit_proc {
            Some(p) => {
                self.hit_proccs.push(p.duplicate());
            },
            None => {},
        }
        proof {
            assert(self.hit_proccs@ =~= mid + weapon_procs(*w));
        }
        let ghost mid2 = self.hit_proccs@;
        let mut j: usize = 0;
        while j < es.len()
            invariant
                0 <= j <= es@.len(),
                self.hit_proccs@ == mid2 + enchant_procs(es@.take(j as int)),
                same_but_procs(*old(self), *self),
            decreases es@.len() - j,
        {
            proof {
                assert(es@.take(j + 1).drop_last() =~= es@.take(j as int));
            }
            match &es[j].hit_proc {
                Some(p) => {
                    self.hit_proccs.push(p.duplicate());
                    proof {
                        assert(self.hit_proccs@ =~= mid2 + enchant_procs(es@.take(j + 1)));
                    }
                },
                None => {},
            }
            j = j + 1;
        }
        proof {
            assert(es@.take(j as int) =~= es@);
            assert(self.hit_proccs@ =~= start + slot_procs(*character, main_hand));
        }
    }

    /// The special-attack table of this hand.
    pub fn set_yellow_hit_table(&mut self, character: &Character) -> (r: Result<(), ConfigError>)
        requires
            old(self).weapon_slot != WeaponSlot::Unset,
        ensures
            match skill_delta_spec(
                *character,
                old(self).weapon_slot == WeaponSlot::Mh,
                old(self).enemy_lvl as int,
            ) {
                None => r == Err::<(), ConfigError>(ConfigError::UnknownWeaponType),
                Some(d) => {
                    &&& old(self).enemy_lvl == 0 ==> r == Err::<(), ConfigError>(
                        ConfigError::ZeroTargetLevel,
                    )
                    &&& old(self).enemy_lvl != 0 && miss_chance_spec(d) is None ==> r == Err::<
                        (),
                        ConfigError,
                    >(ConfigError::SkillDeltaOutOfRange(d as i64))
                    &&& old(self).enemy_lvl != 0 && miss_chance_spec(d) is Some && !(60
                        <= old(self).enemy_lvl <= 63) ==> r == Err::<(), ConfigError>(
                        ConfigError::TargetLevelOutOfRange(old(self).enemy_lvl),
                    )
                    &&& old(self).enemy_lvl != 0 && miss_chance_spec(d) is Some && 60
                        <= old(self).enemy_lvl <= 63 ==> r is Ok
                        && final(self).hit_table_yellow == yellow_table_spec(
                        d,
                        character.sec_stats.hit as int,
                        character.sec_stats.crit as int,
                        old(self).enemy_lvl as int,
                    )
                },
            },
            r is Ok ==> yellow_within(final(self).hit_table_yellow, BUILT_BOUND as int),
            same_but_tables(*old(self), *final(self)),
            final(self).hit_table_white == old(self).hit_table_white,
            final(self).hit_table_backstab == old(self).hit_table_backstab,
    {
        let delta = match self.get_skill_delta(character) {
            Ok(d) => d,
            Err(e) => return Err(e),
        };
        match YellowHitTable::from_ratings(
            delta,
            character.sec_stats.hit,
            character.sec_stats.crit,
            self.enemy_lvl,
        ) {
            Ok(t) => {
                self.hit_table_yellow = t;
                Ok(())
            },
            Err(e) => Err(e),
        }
    }

    /// The autoattack table of this hand.
    pub fn set_white_hit_table(&mut self, character: &Character) -> (r: Result<(), ConfigError>)
        requires
            old(self).weapon_slot != WeaponSlot::Unset,
        ensures
            match skill_delta_spec(
                *character,
                old(self).weapon_slot == WeaponSlot::Mh,
                old(self).enemy_lvl as int,
            ) {
                None => r == Err::<(), ConfigError>(ConfigError::UnknownWeaponType),
                Some(d) => {
                    let lvl = old(self).enemy_lvl;
                    &&& lvl == 0 ==> r == Err::<(), ConfigError>(ConfigError::ZeroTargetLevel)
                    &&& lvl != 0 && miss_chance_spec(d) is None ==> r == Err::<(), ConfigError>(
                        ConfigError::SkillDeltaOutOfRange(d as i64),
                    )
                    &&& lvl != 0 && miss_chance_spec(d) is Some && !(60 <= lvl <= 63) ==> r
                        == Err::<(), ConfigError>(ConfigError::TargetLevelOutOfRange(lvl))
                    &&& lvl != 0 && miss_chance_spec(d) is Some && 60 <= lvl <= 63 ==> r is Ok
                        && final(self).hit_table_white == white_table_spec(
                        d,
                        character.sec_stats.hit as int,
                        character.sec_stats.crit as int,
                        lvl as int,
                    )
                },
            },
            r is Ok ==> white_within(final(self).hit_table_white, BUILT_BOUND as int),
            same_but_tables(*old(self), *final(self)),
            final(self).hit_table_yellow == old(self).hit_table_yellow,
            final(self).hit_table_backstab == old(self).hit_table_backstab,
    {
        let delta = match self.get_skill_delta(character) {
            Ok(d) => d,
            Err(e) => return Err(e),
        };
        match WhiteHitTable::from_ratings(
            delta,
            character.sec_stats.hit,
            character.sec_stats.crit,
            self.enemy_lvl,
        ) {
            Ok(t) => {
                self.hit_table_white = t;
                Ok(())
            },
            Err(e) => Err(e),
        }
    }

    /// Backstab keeps its own copy of the main-hand special-attack table.
    pub fn set_backstab_hit_table(&mut self)
        ensures
            final(self).hit_table_backstab == old(self).hit_table_yellow,
            final(self).hit_table_yellow == old(self).hit_table_yellow,
            final(self).hit_table_white == old(self).hit_table_white,
            same_but_tables(*old(self), *final(self)),
    {
        self.hit_table_backstab = self.hit_table_yellow;
    }

    /// The tables of this hand: the special-attack table, and backstab's copy
    /// of it for a dagger, on the main hand only; the autoattack table on
    /// both.
    pub fn set_hit_tables(&mut self, character: &Character) -> (r: Result<(), ConfigError>)
        requires
            old(self).weapon_slot != WeaponSlot::Unset,
        ensures
            same_but_tables(*old(self), *final(self)),
            r is Ok ==> white_within(final(self).hit_table_white, BUILT_BOUND as int),
            r is Ok && old(self).weapon_slot == WeaponSlot::Mh ==> yellow_within(
                final(self).hit_table_yellow,
                BUILT_BOUND as int,
            ) && yellow_within(final(self).hit_table_backstab, BUILT_BOUND as int),
            r is Ok && old(self).weapon_slot == WeaponSlot::Mh && old(self).weapon_type
                == WeaponType::Dagger ==> final(self).hit_table_backstab == final(self).hit_table_yellow,
            r is Ok <==> tables_valid(
                *character,
                old(self).weapon_slot == WeaponSlot::Mh,
                old(self).enemy_lvl as int,
            ),
            r is Ok ==> ({
                let d = skill_delta_spec(
                    *character,
                    old(self).weapon_slot == WeaponSlot::Mh,
                    old(self).enemy_lvl as int,
                )->Some_0;
                let hit = character.sec_stats.hit as int;
                let crit = character.sec_stats.crit as int;
                let lvl = old(self).enemy_lvl as int;
                &&& final(self).hit_table_white == white_table_spec(d, hit, crit, lvl)
                &&& old(self).weapon_slot == WeaponSlot::Mh ==> final(self).hit_table_yellow
                    == yellow_table_spec(d, hit, crit, lvl)
                &&& old(self).weapon_slot == WeaponSlot::Mh ==> final(self).hit_table_backstab
                    == if old(self).weapon_type == WeaponType::Dagger {
                    yellow_table_spec(d, hit, crit, lvl)
                } else {
                    YellowHitTable { miss_value: 0, dodge_value: 0, crit_value: 0 }
                }
            }),
    {
        if self.is_main_hand() {
            match self.set_yellow_hit_table(character) {
                Ok(()) => {},
                Err(e) => return Err(e),
            }
            if self.weapon_type == WeaponType::Dagger {
                self.set_backstab_hit_table();
            } else {
                self.hit_table_backstab = YellowHitTable::new();
            }
        }
        self.set_white_hit_table(character)
    }

    /// Everything of this hand that the character decides.
    pub fn set_mechanics_from_character(&mut self, character: &Character) -> (r: Result<
        (),
        ConfigError,
    >)
        requires
            old(self).weapon_slot != WeaponSlot::Unset,
        ensures
            final(self).weapon_slot == old(self).weapon_slot,
            final(self).weapon_type == old(self).weapon_type,
            final(self).enemy_lvl == old(self).enemy_lvl,
            final(self).normalized_speed == old(self).normalized_speed,
            r is Ok ==> final(self).mean_white_dmg <= MAX_MEAN_DAMAGE,
            r is Ok ==> final(self).mean_yellow_dmg <= MAX_MEAN_DAMAGE,
            r is Ok ==> final(self).hit_proccs@ == old(self).hit_proccs@ + slot_procs(
                *character,
                old(self).weapon_slot == WeaponSlot::Mh,
            ),
            r is Ok ==> white_within(final(self).hit_table_white, BUILT_BOUND as int),
            r is Ok && old(self).weapon_slot == WeaponSlot::Mh ==> yellow_within(
                final(self).hit_table_yellow,
                BUILT_BOUND as int,
            ) && yellow_within(final(self).hit_table_backstab, BUILT_BOUND as int),
            r is Ok <==> tables_valid(
                *character,
                old(self).weapon_slot == WeaponSlot::Mh,
                old(self).enemy_lvl as int,
            ) && damage_valid(
                *character,
                old(self).weapon_slot == WeaponSlot::Mh,
                old(self).normalized_speed as int,
            ),
            r is Ok ==> ({
                let d = skill_delta_spec(
                    *character,
                    old(self).weapon_slot == WeaponSlot::Mh,
                    old(self).enemy_lvl as int,
                )->Some_0;
                let hit = character.sec_stats.hit as int;
                let crit = character.sec_stats.crit as int;
                let lvl = old(self).enemy_lvl as int;
                &&& final(self).hit_table_white == white_table_spec(d, hit, crit, lvl)
                &&& old(self).weapon_slot == WeaponSlot::Mh ==> final(self).hit_table_yellow
                    == yellow_table_spec(d, hit, crit, lvl)
                &&& old(self).weapon_slot == WeaponSlot::Mh ==> final(self).hit_table_backstab
                    == if old(self).weapon_type == WeaponType::Dagger {
                    yellow_table_spec(d, hit, crit, lvl)
                } else {
                    YellowHitTable { miss_value: 0, dodge_value: 0, crit_value: 0 }
                }
            }),
            r is Ok ==> ({
                let main = old(self).weapon_slot == WeaponSlot::Mh;
                let w = if main { character.mh } else { character.oh };
                let e = if main {
                    enchant_damage(character.mh_enchants@)
                } else {
                    enchant_damage(character.oh_enchants@)
                };
                let ap = character.sec_stats.attack_power as int;
                &&& final(self).mean_white_dmg == sat(
                    w.mean_dmg + ap_bonus(w.swing_interval as int, ap),
                ) + e
                &&& final(self).mean_yellow_dmg == sat(
                    w.mean_dmg + ap_bonus(old(self).normalized_speed as int, ap),
                ) + e
            }),
    {
        self.set_wep_white_dmg(character);
        self.set_wep_yellow_dmg(character);
        match self.set_hit_tables(character) {
            Ok(()) => {},
            Err(e) => return Err(e),
        }
        self.set_hit_proccs(character);
        self.apply_enchant_dmg(character)
    }

    /// Adds crit chance to every table this hand uses: the autoattack table,
    /// and on the main hand the special-attack table and, for a dagger,
    /// backstab's table.
    pub fn add_crit(&mut self, crit: i64)
        requires
            -1_000_000_000 <= crit <= 1_000_000_000,
            old(self).weapon_slot != WeaponSlot::Unset,
            white_within(old(self).hit_table_white, TABLE_BOUND as int),
            old(self).weapon_slot == WeaponSlot::Mh ==> yellow_within(
                old(self).hit_table_yellow,
                TABLE_BOUND as int,
            ) && yellow_within(old(self).hit_table_backstab, TABLE_BOUND as int),
        ensures
            final(self).hit_table_white == (WhiteHitTable {
                crit_value: (old(self).hit_table_white.crit_value + crit) as i64,
                ..old(self).hit_table_white
            }),
            old(self).weapon_slot == WeaponSlot::Mh ==> final(self).hit_table_yellow == (
            YellowHitTable {
                crit_value: (old(self).hit_table_yellow.crit_value + crit) as i64,
                ..old(self).hit_table_yellow
            }),
            old(self).weapon_slot != WeaponSlot::Mh ==> final(self).hit_table_yellow == old(self).hit_table_yellow,
            old(self).weapon_slot == WeaponSlot::Mh && old(self).weapon_type == WeaponType::Dagger
                ==> final(self).hit_table_backstab == (YellowHitTable {
                crit_value: (old(self).hit_table_backstab.crit_value + crit) as i64,
                ..old(self).hit_table_backstab
            }),
            !(old(self).weapon_slot == WeaponSlot::Mh && old(self).weapon_type
                == WeaponType::Dagger) ==> final(self).hit_table_backstab == old(self).hit_table_backstab,
            same_but_tables(*old(self), *final(self)),
    {
        self.hit_table_white.add_crit(crit);
        if self.is_main_hand() {
            self.hit_table_yellow.add_crit(crit);
            if self.weapon_type == WeaponType::Dagger {
                self.hit_table_backstab.add_crit(crit);
            }
        }
    }
}

/// `a + b` held at the largest `u64`.
pub open spec fn sat(x: int) -> int {
    if x > u64::MAX { u64::MAX as int } else { x }
}

/// Only the mean damages may differ.
pub open spec fn same_but_damage(a: WepSimulator, b: WepSimulator) -> bool {
    &&& a.weapon_type == b.weapon_type
    &&& a.normalized_speed == b.normalized_speed
    &&& a.hit_table_yellow == b.hit_table_yellow
    &&& a.hit_table_backstab == b.hit_table_backstab
    &&& a.hit_table_white == b.hit_table_white
    &&& a.hit_proccs@ == b.hit_proccs@
    &&& a.enemy_lvl == b.enemy_lvl
    &&& a.weapon_slot == b.weapon_slot
}

/// Only the procs may differ.
pub open spec fn same_but_procs(a: WepSimulator, b: WepSimulator) -> bool {
    &&& a.weapon_type == b.weapon_type
    &&& a.mean_white_dmg == b.mean_white_dmg
    &&& a.mean_yellow_dmg == b.mean_yellow_dmg
    &&& a.normalized_speed == b.normalized_speed
    &&& a.hit_table_yellow == b.hit_table_yellow
    &&& a.hit_table_backstab == b.hit_table_backstab
    &&& a.hit_table_white == b.hit_table_white
    &&& a.enemy_lvl == b.enemy_lvl
    &&& a.weapon_slot == b.weapon_slot
}

/// Only the hit tables may differ.
pub open spec fn same_but_tables(a: WepSimulator, b: WepSimulator) -> bool {
    &&& a.weapon_type == b.weapon_type
    &&& a.mean_white_dmg == b.mean_white_dmg
    &&& a.mean_yellow_dmg == b.mean_yellow_dmg
    &&& a.normalized_speed == b.normalized_speed
    &&& a.hit_proccs@ == b.hit_proccs@
    &&& a.enemy_lvl == b.enemy_lvl
    &&& a.weapon_slot == b.weapon_slot
}

/// Flat damage of the enchants, held at the largest `u64`.
pub fn enchant_total(es: &Vec<Enchant>) -> (r: u64)
    ensures
        r == sat(enchant_damage(es@)),
{
    let mut total: u64 = 0;
    let mut i: usize = 0;
    while i < es.len()
        invariant
            0 <= i <= es@.len(),
            total == sat(enchant_damage(es@.take(i as int))),
        decreases es@.len() - i,
    {
        proof {
            assert(es@.take(i + 1).drop_last() =~= es@.take(i as int));
            lemma_enchant_damage_nonneg(es@.take(i as int));
        }
        total = total.saturating_add(es[i].extra_damage);
        i = i + 1;
    }
    proof {
        assert(es@.take(i as int) =~= es@);
    }
    total
}

pub proof fn lemma_enchant_damage_nonneg(es: Seq<Enchant>)
    ensures
        enchant_damage(es) >= 0,
    decreases es.len(),
{
    if es.len() > 0 {
        lemma_enchant_damage_nonneg(es.drop_last());
    }
}

} // verus!
