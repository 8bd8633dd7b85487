use vstd::prelude::*;

verus! {

/// Weapon classification; only daggers and swords are modelled.
#[derive(Clone, Copy, Debug, PartialEq, Eq, Structural)]
pub enum WeaponType {
    Dagger,
    Sword,
    Mace,
    Fist,
}

/// An effect that a landing hit may set off. Chances are in parts per
/// million, damage in hundredths of a point, durations in milliseconds.
#[derive(Clone, Debug)]
pub enum HitProc {
    Dmg { name: String, amount: u64, resist_chance: u32, proc_chance: u32 },
    Strength { name: String, strength: i32, duration: u32, proc_chance: u32 },
    ExtraAttack { name: String, proc_chance: u32 },
}

impl HitProc {
    /// A copy of this proc.
    pub fn duplicate(&self) -> (r: HitProc)
        ensures
            r == *self,
    {
        match self {
            HitProc::Dmg { name, amount, resist_chance, proc_chance } => HitProc::Dmg {
                name: name.clone(),
                amount: *amount,
                resist_chance: *resist_chance,
                proc_chance: *proc_chance,
            },
            HitProc::Strength { name, strength, duration, proc_chance } => HitProc::Strength {
                name: name.clone(),
                strength: *strength,
                duration: *duration,
                proc_chance: *proc_chance,
            },
            HitProc::ExtraAttack { name, proc_chance } => HitProc::ExtraAttack {
                name: name.clone(),
                proc_chance: *proc_chance,
            },
        }
    }
}

/// What an on-use cooldown does: a whole-number energy regeneration
/// multiplier, or an attack speed multiplier in parts per million, each for
/// a duration in milliseconds; or energy at once.
#[derive(Clone, Copy, Debug, PartialEq, Eq, Structural)]
pub enum CooldownEffect {
    EnergyRegenMultiplier(u32, i64),
    AttackSpeedMultiplier(u32, i64),
    InstantEnergyRefill(u32),
}

/// An on-use cooldown as the character declares it: its energy cost, its
/// cooldown in milliseconds, its effect, and the energy below which it may
/// be used.
#[derive(Clone, Debug)]
pub struct Cooldown {
    pub name: String,
    pub cost: u32,
    pub cd: i64,
    pub effect: CooldownEffect,
    pub use_below_energy: u32,
}

/// A weapon: mean damage per swing in hundredths, swing interval in ms.
#[derive(Clone, Debug)]
pub struct Weapon {
    pub weapon_type: WeaponType,
    pub mean_dmg: u64,
    pub swing_interval: u32,
    pub hit_proc: Option<HitProc>,
}

/// A weapon enchant: flat damage in hundredths and an optional proc.
#[derive(Clone, Debug)]
pub struct Enchant {
    pub extra_damage: u64,
    pub hit_proc: Option<HitProc>,
}

/// A piece of armor; its proc, if any, goes on both weapons.
#[derive(Clone, Debug)]
pub struct ArmorPiece {
    pub hit_proc: Option<HitProc>,
}

/// A set bonus; the one modelled raises the energy cap.
#[derive(Clone, Copy, Debug, PartialEq, Eq, Structural)]
pub enum SetBonus {
    NewEnergyCap(u32),
}

/// Talent points, one field per talent.
#[derive(Clone, Copy, Debug, PartialEq, Eq, Structural)]
pub struct Talents {
    pub improved_eviscerate: u32,
    pub malice: u32,
    pub relentless_strikes: u32,
    pub ruthlessness: u32,
    pub improved_slice_and_dice: u32,
    pub lethality: u32,
    pub improved_sinister_strike: u32,
    pub improved_backstab: u32,
    pub precision: u32,
    pub dagger_specialization: u32,
    pub dual_wield_specialization: u32,
    pub sword_specialization: u32,
    pub aggression: u32,
    pub opportunity: u32,
}

/// Primary stats.
#[derive(Clone, Copy, Debug, PartialEq, Eq, Structural)]
pub struct PrimStats {
    pub agility: i32,
    pub strength: i32,
    pub dagger_skill: i32,
    pub sword_skill: i32,
}

/// Secondary stats; hit, crit and haste in parts per million.
#[derive(Clone, Copy, Debug, PartialEq, Eq, Structural)]
pub struct SecStats {
    pub attack_power: u32,
    pub hit: i32,
    pub crit: i32,
    pub haste: i32,
}

/// The resolved character that configures a simulator.
#[derive(Clone, Debug)]
pub struct Character {
    pub prim_stats: PrimStats,
    pub sec_stats: SecStats,
    pub mh: Weapon,
    pub oh: Weapon,
    pub armor: Vec<ArmorPiece>,
    pub mh_enchants: Vec<Enchant>,
    pub oh_enchants: Vec<Enchant>,
    pub cooldowns: Vec<Cooldown>,
    pub talents: Talents,
    pub set_bonuses: Vec<SetBonus>,
}

impl PrimStats {
    /// All primary stats at zero.
    pub fn zero() -> (r: PrimStats)
        ensures
            r == (PrimStats { agility: 0, strength: 0, dagger_skill: 0, sword_skill: 0 }),
    {
        PrimStats { agility: 0, strength: 0, dagger_skill: 0, sword_skill: 0 }
    }
}

impl SecStats {
    /// All secondary stats at zero.
    pub fn zero() -> (r: SecStats)
        ensures
            r == (SecStats { attack_power: 0, hit: 0, crit: 0, haste: 0 }),
    {
        SecStats { attack_power: 0, hit: 0, crit: 0, haste: 0 }
    }
}

/// The numbers that rolling a proc needs.
#[derive(Clone, Copy, Debug, PartialEq, Eq, Structural)]
pub enum ProcRoll {
    Dmg { amount: u64, resist_chance: u32, proc_chance: u32 },
    Strength { proc_chance: u32 },
    ExtraAttack { proc_chance: u32 },
}

pub open spec fn roll_params_spec(p: HitProc) -> ProcRoll {
    match p {
        HitProc::Dmg { amount, resist_chance, proc_chance, .. } => ProcRoll::Dmg {
            amount,
            resist_chance,
            proc_chance,
        },
        HitProc::Strength { proc_chance, .. } => ProcRoll::Strength { proc_chance },
        HitProc::ExtraAttack { proc_chance, .. } => ProcRoll::ExtraAttack { proc_chance },
    }
}

impl HitProc {
    /// The chances and damage of this proc.
    pub fn roll_params(&self) -> (r: ProcRoll)
        ensures
            r == roll_params_spec(*self),
    {
        match self {
            HitProc::Dmg { amount, resist_chance, proc_chance, .. } => ProcRoll::Dmg {
                amount: *amount,
                resist_chance: *resist_chance,
                proc_chance: *proc_chance,
            },
            HitProc::Strength { proc_chance, .. } => ProcRoll::Strength {
                proc_chance: *proc_chance,
            },
            HitProc::ExtraAttack { proc_chance, .. } => ProcRoll::ExtraAttack {
                proc_chance: *proc_chance,
            },
        }
    }
}

} // verus!
