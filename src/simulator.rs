use vstd::prelude::*;
use crate::character::{CooldownEffect, ProcRoll};
use crate::clock::{GLOBAL_COOLDOWN, MAX_STEP, TimeKeeper};
use crate::cooldown::CooldownState;
use crate::damage::MAX_MODIFIER;
use crate::dice::{Dice, roll_value, rolled};
use crate::events::{Event, LogEntry};
use crate::modifiers::Modifiers;
use crate::multiplier::{lemma_scaled_down_bounded, scaled_down};
use crate::model::{all_procs, proc_step, procs_fold, sat_inc, setup_of, state_of};
use crate::rotation::{AbilityCosts, Rotation};
use crate::stats::CurrentStats;
use crate::weapon::{MAX_MEAN_DAMAGE, WeaponSlot, WepSimulator};

verus! {

/// Attack speed multiplier of slice and dice, in parts per million.
pub const SND_SPEED: u32 = 1_300_000;

/// Energy a finisher may restore.
pub const FINISHER_ENERGY: u64 = 25;

/// Chance, in parts per million, that an energy tick gives 21 rather than 20.
pub const HIGH_TICK_CHANCE: u32 = 250_000;

/// Whether the buff is up.
#[derive(Clone, Copy, Debug, PartialEq, Eq, Structural)]
pub struct ActiveBuffs {
    pub slice_and_dice: bool,
}

impl ActiveBuffs {
    pub fn new() -> (r: ActiveBuffs)
        ensures
            r == (ActiveBuffs { slice_and_dice: false }),
    {
        ActiveBuffs { slice_and_dice: false }
    }
}

/// The combat simulation: two hands, the clock, resources, modifiers,
/// cooldowns, the buff, the stats of the running fight and the dice.
#[derive(Debug)]
pub struct Simulator {
    pub timekeep: TimeKeeper,
    /// Fight length in ms.
    pub fight_length: i64,
    pub mh: WepSimulator,
    pub oh: WepSimulator,
    pub rotation: Rotation,
    pub ability_costs: AbilityCosts,
    pub modifiers: Modifiers,
    pub cooldowns: Vec<CooldownState>,
    pub cooldown_names: Vec<String>,
    pub active_buffs: ActiveBuffs,
    pub stats: CurrentStats,
    pub extra_attacks: u32,
    pub energy: u32,
    pub combo_points: u32,
    pub dice: Dice,
    /// Whether the events of a fight are kept.
    pub log_events: bool,
    /// The events of the running fight, oldest first, when kept.
    pub events: Vec<LogEntry>,
}

/// No attack speed multiplier below one.
pub open spec fn speeds_ok(s: Seq<u32>) -> bool {
    forall|k: int| 0 <= k < s.len() ==> s[k] >= 1_000_000
}

/// A speed cooldown never slows.
pub open spec fn cooldown_ok(c: CooldownState) -> bool {
    match c.effect {
        CooldownEffect::AttackSpeedMultiplier(m, _) => m >= 1_000_000,
        _ => true,
    }
}

/// Every permille modifier within bounds.
pub open spec fn modifiers_bounded(m: Modifiers) -> bool {
    &&& m.hit.glancing_mh <= MAX_MODIFIER
    &&& m.hit.glancing_oh <= MAX_MODIFIER
    &&& m.hit.sinister_strike <= MAX_MODIFIER
    &&& m.hit.backstab <= MAX_MODIFIER
    &&& m.hit.eviscerate <= MAX_MODIFIER
    &&& m.hit.oh <= MAX_MODIFIER
    &&& m.crit.sinister_strike <= MAX_MODIFIER
    &&& m.crit.backstab <= MAX_MODIFIER
    &&& m.crit.eviscerate <= MAX_MODIFIER
    &&& m.general.slice_and_dice_duration_modifier <= MAX_MODIFIER
}

/// Only the swing timers may differ.
pub open spec fn timers_but_swings(a: crate::clock::Timers, b: crate::clock::Timers) -> bool {
    &&& a.energy_refill == b.energy_refill
    &&& a.slice_and_dice == b.slice_and_dice
    &&& a.time_left == b.time_left
    &&& a.global_cd == b.global_cd
    &&& a.glob_cd_previously_available == b.glob_cd_previously_available
}

/// The same fight clock: only the rest of the state may differ.
pub open spec fn same_fight_time(a: Simulator, b: Simulator) -> bool {
    &&& a.timekeep.timers.time_left == b.timekeep.timers.time_left
    &&& a.timekeep.fight_length == b.timekeep.fight_length
    &&& a.timekeep.dt == b.timekeep.dt
}

/// The configuration of the fight is untouched: hands, costs, rotation and
/// every modifier but the multipliers that cooldowns and the buff toggle.
pub open spec fn same_setup(a: Simulator, b: Simulator) -> bool {
    &&& a.mh == b.mh
    &&& a.oh == b.oh
    &&& a.rotation == b.rotation
    &&& a.ability_costs == b.ability_costs
    &&& a.modifiers.hit == b.modifiers.hit
    &&& a.modifiers.crit == b.modifiers.crit
    &&& a.modifiers.finisher == b.modifiers.finisher
    &&& a.modifiers.armor == b.modifiers.armor
    &&& a.modifiers.general.energy_max == b.modifiers.general.energy_max
    &&& a.modifiers.general.slice_and_dice_duration_modifier
        == b.modifiers.general.slice_and_dice_duration_modifier
    &&& a.fight_length == b.fight_length
    &&& a.timekeep.mh_swing_interval == b.timekeep.mh_swing_interval
    &&& a.timekeep.oh_swing_interval == b.timekeep.oh_swing_interval
}

impl Simulator {
    /// A configured simulator: energy within `[0, energy_max]`, at most five
    /// combo points, both hands set, damage and modifiers within bounds, no
    /// slowing multiplier, one proc count per proc.
    pub open spec fn wf(&self) -> bool {
        &&& self.energy <= self.modifiers.general.energy_max
        &&& self.combo_points <= 5
        &&& self.mh.weapon_slot == WeaponSlot::Mh
        &&& self.oh.weapon_slot == WeaponSlot::Oh
        &&& self.mh.mean_white_dmg <= MAX_MEAN_DAMAGE
        &&& self.mh.mean_yellow_dmg <= MAX_MEAN_DAMAGE
        &&& self.oh.mean_white_dmg <= MAX_MEAN_DAMAGE
        &&& self.oh.mean_yellow_dmg <= MAX_MEAN_DAMAGE
        &&& modifiers_bounded(self.modifiers)
        &&& speeds_ok(self.modifiers.general.attack_speed@)
        &&& forall|i: int| 0 <= i < self.cooldowns@.len() ==> cooldown_ok(#[trigger] self.cooldowns@[i])
        &&& self.stats.mh_procs@.len() == self.mh.hit_proccs@.len()
        &&& self.stats.oh_procs@.len() == self.oh.hit_proccs@.len()
        &&& 0 <= self.timekeep.dt <= MAX_STEP
    }

    /// An unconfigured simulator, with the dice at the start of stream 0.
    pub fn new() -> (r: Simulator)
        ensures
            r.energy == 0,
            r.combo_points == 0,
            r.extra_attacks == 0,
            r.cooldowns@.len() == 0,
            r.dice == Dice::new_spec(0),
            r.rotation == Rotation::Unset,
            r.mh.weapon_slot == WeaponSlot::Unset,
            r.oh.weapon_slot == WeaponSlot::Unset,
            r.modifiers.general.attack_speed@ == Seq::<u32>::empty(),
            r.modifiers.general.energy_regen@ == Seq::<u32>::empty(),
            r.unconfigured(),
    {
        Simulator {
            timekeep: TimeKeeper::new(),
            fight_length: 0,
            mh: WepSimulator::new(),
            oh: WepSimulator::new(),
            rotation: Rotation::Unset,
            ability_costs: AbilityCosts::new(),
            modifiers: Modifiers::new(),
            cooldowns: Vec::new(),
            cooldown_names: Vec::new(),
            active_buffs: ActiveBuffs::new(),
            stats: CurrentStats::new(),
            extra_attacks: 0,
            energy: 0,
            combo_points: 0,
            dice: Dice::new(0),
            log_events: false,
            events: Vec::new(),
        }
    }

    /// Turns the keeping of events on or off.
    pub fn set_event_logging(&mut self, on: bool)
        ensures
            *final(self) == (Simulator { log_events: on, ..*old(self) }),
    {
        self.log_events = on;
    }

    /// Records an event at the current fight time, when events are kept.
    pub fn log(&mut self, event: Event)
        ensures
            final(self).events@ == if old(self).log_events {
                old(self).events@.push(
                    LogEntry { time_left: old(self).timekeep.timers.time_left, event },
                )
            } else {
                old(self).events@
            },
            *final(self) == (Simulator { events: final(self).events, ..*old(self) }),
    {
        if self.log_events {
            let entry = LogEntry { time_left: self.timekeep.timers.time_left, event };
            self.events.push(entry);
        }
    }

    /// A copy of the stats of the last fight.
    pub fn get_stats(&self) -> (r: CurrentStats)
        ensures
            r.mh_white == self.stats.mh_white,
            r.oh_white == self.stats.oh_white,
            r.backstab == self.stats.backstab,
            r.eviscerate == self.stats.eviscerate,
            r.mh_procs@ == self.stats.mh_procs@,
            r.oh_procs@ == self.stats.oh_procs@,
            r.proc_damage == self.stats.proc_damage,
            r.fight_length == self.stats.fight_length,
    {
        self.stats.copy()
    }

    /// Spends energy, never going below zero.
    pub fn subtract_energy(&mut self, energy: u32)
        ensures
            *final(self) == (Simulator {
                energy: if old(self).energy >= energy { (old(self).energy - energy) as u32 } else { 0 },
                ..*old(self)
            }),
    {
        self.energy = self.energy.saturating_sub(energy);
    }

    /// Gains energy, never going above the cap.
    pub fn add_energy(&mut self, energy_refill: u64)
        ensures
            *final(self) == (Simulator {
                energy: if old(self).energy + energy_refill < old(self).modifiers.general.energy_max {
                    (old(self).energy + energy_refill) as u32
                } else {
                    old(self).modifiers.general.energy_max
                },
                ..*old(self)
            }),
    {
        let sum = (self.energy as u64).saturating_add(energy_refill);
        let max = self.modifiers.general.energy_max;
        self.energy = if sum < max as u64 { sum as u32 } else { max };
    }

    /// One more combo point, at most five.
    pub fn add_combo_point(&mut self)
        ensures
            *final(self) == (Simulator {
                combo_points: if old(self).combo_points + 1 < 5 { (old(self).combo_points + 1) as u32 } else { 5 },
                ..*old(self)
            }),
    {
        self.combo_points = if self.combo_points < 4 { self.combo_points + 1 } else { 5 };
    }

    /// Starts the global cooldown.
    pub fn start_global_cd(&mut self)
        ensures
            final(self).timekeep.timers == (crate::clock::Timers {
                global_cd: GLOBAL_COOLDOWN,
                ..old(self).timekeep.timers
            }),
            final(self).timekeep.dt == old(self).timekeep.dt,
            final(self).timekeep.fight_length == old(self).timekeep.fight_length,
            final(self).timekeep.mh_swing_interval == old(self).timekeep.mh_swing_interval,
            final(self).timekeep.oh_swing_interval == old(self).timekeep.oh_swing_interval,
            *final(self) == (Simulator { timekeep: final(self).timekeep, ..*old(self) }),
    {
        self.timekeep.timers.global_cd = GLOBAL_COOLDOWN;
    }

    /// Restarts the main-hand swing under the speed multipliers in force.
    pub fn reset_mh_swing(&mut self)
        requires
            speeds_ok(old(self).modifiers.general.attack_speed@),
        ensures
            final(self).timekeep.timers.time_left == old(self).timekeep.timers.time_left,
            final(self).timekeep.dt == old(self).timekeep.dt,
            final(self).timekeep.fight_length == old(self).timekeep.fight_length,
            final(self).timekeep.mh_swing_interval == old(self).timekeep.mh_swing_interval,
            final(self).timekeep.oh_swing_interval == old(self).timekeep.oh_swing_interval,
            *final(self) == (Simulator { timekeep: final(self).timekeep, ..*old(self) }),
            timers_but_swings(old(self).timekeep.timers, final(self).timekeep.timers),
            final(self).timekeep.timers == (crate::clock::Timers {
                mh_swing: scaled_down(
                    old(self).timekeep.mh_swing_interval as int,
                    old(self).modifiers.general.attack_speed@,
                ) as i64,
                ..old(self).timekeep.timers
            }),
    {
        proof {
            lemma_scaled_down_bounded(
                self.timekeep.mh_swing_interval as int,
                self.modifiers.general.attack_speed@,
            );
        }
        self.timekeep.reset_mh_swing_timer(&self.modifiers.general.attack_speed);
    }

    /// Restarts the off-hand swing under the speed multipliers in force.
    pub fn reset_oh_swing(&mut self)
        requires
            speeds_ok(old(self).modifiers.general.attack_speed@),
        ensures
            final(self).timekeep.timers.time_left == old(self).timekeep.timers.time_left,
            final(self).timekeep.dt == old(self).timekeep.dt,
            final(self).timekeep.fight_length == old(self).timekeep.fight_length,
            final(self).timekeep.mh_swing_interval == old(self).timekeep.mh_swing_interval,
            final(self).timekeep.oh_swing_interval == old(self).timekeep.oh_swing_interval,
            *final(self) == (Simulator { timekeep: final(self).timekeep, ..*old(self) }),
            timers_but_swings(old(self).timekeep.timers, final(self).timekeep.timers),
            final(self).timekeep.timers == (crate::clock::Timers {
                oh_swing: scaled_down(
                    old(self).timekeep.oh_swing_interval as int,
                    old(self).modifiers.general.attack_speed@,
                ) as i64,
                ..old(self).timekeep.timers
            }),
    {
        proof {
            lemma_scaled_down_bounded(
                self.timekeep.oh_swing_interval as int,
                self.modifiers.general.attack_speed@,
            );
        }
        self.timekeep.reset_oh_swing_timer(&self.modifiers.general.attack_speed);
    }

    /// Queues one extra main-hand swing.
    pub fn add_extra_attack(&mut self)
        ensures
            *final(self) == (Simulator {
                extra_attacks: if old(self).extra_attacks == u32::MAX { u32::MAX } else { (old(self).extra_attacks + 1) as u32 },
                ..*old(self)
            }),
    {
        self.extra_attacks = self.extra_attacks.saturating_add(1);
    }

    /// An extra attack: the main-hand swing restarts and one extra swing is
    /// queued.
    pub fn extra_attack_procc(&mut self)
        requires
            speeds_ok(old(self).modifiers.general.attack_speed@),
        ensures
            same_fight_time(*old(self), *final(self)),
            same_setup(*old(self), *final(self)),
            final(self).extra_attacks == if old(self).extra_attacks == u32::MAX { u32::MAX } else { (old(self).extra_attacks + 1) as u32 },
            final(self).energy == old(self).energy,
            final(self).combo_points == old(self).combo_points,
            final(self).stats == old(self).stats,
            final(self).dice == old(self).dice,
            final(self).modifiers.general.attack_speed == old(self).modifiers.general.attack_speed,
            final(self).modifiers.general.energy_regen == old(self).modifiers.general.energy_regen,
            final(self).cooldowns == old(self).cooldowns,
            final(self).active_buffs == old(self).active_buffs,
            final(self).timekeep.timers == (crate::clock::Timers {
                mh_swing: scaled_down(
                    old(self).timekeep.mh_swing_interval as int,
                    old(self).modifiers.general.attack_speed@,
                ) as i64,
                ..old(self).timekeep.timers
            }),
            final(self).timekeep.dt == old(self).timekeep.dt,
    {
        self.reset_mh_swing();
        self.add_extra_attack();
    }
}

} // verus!

verus! {

/// Whether a proc goes off for the rolls that `d` gives: a damage proc must
/// first land and then not be resisted; the others need one roll.
pub open spec fn proc_fires(pr: ProcRoll, d: Dice) -> bool {
    match pr {
        ProcRoll::Dmg { resist_chance, proc_chance, .. } => roll_value(d) < proc_chance
            && roll_value(rolled(d)) > resist_chance,
        ProcRoll::Strength { proc_chance } => roll_value(d) < proc_chance,
        ProcRoll::ExtraAttack { proc_chance } => roll_value(d) < proc_chance,
    }
}

/// The dice after a proc roll: a damage proc that lands takes a second
/// roll for the resist.
pub open spec fn dice_after_proc(pr: ProcRoll, d: Dice) -> Dice {
    match pr {
        ProcRoll::Dmg { proc_chance, .. } => if roll_value(d) < proc_chance {
            rolled(rolled(d))
        } else {
            rolled(d)
        },
        _ => rolled(d),
    }
}

/// Damage that a proc deals when it goes off.
pub open spec fn proc_damage(pr: ProcRoll) -> u64 {
    match pr {
        ProcRoll::Dmg { amount, .. } => amount,
        _ => 0,
    }
}

/// Nothing that the abilities leave alone has changed.
pub open spec fn ability_frame(a: Simulator, b: Simulator) -> bool {
    &&& same_fight_time(a, b)
    &&& same_setup(a, b)
    &&& a.cooldowns == b.cooldowns
    &&& a.modifiers.general.energy_regen == b.modifiers.general.energy_regen
    &&& a.stats.fight_length == b.stats.fight_length
}

impl Simulator {
    /// Rolls one proc of a hand; when it goes off it is counted, and an
    /// extra attack restarts the main-hand swing and queues a swing.
    pub fn roll_for_procc(&mut self, pr: ProcRoll, main_hand: bool, index: usize)
        requires
            old(self).wf(),
            main_hand ==> index < old(self).mh.hit_proccs@.len(),
            !main_hand ==> index < old(self).oh.hit_proccs@.len(),
        ensures
            final(self).wf(),
            ability_frame(*old(self), *final(self)),
            final(self).energy == old(self).energy,
            final(self).combo_points == old(self).combo_points,
            final(self).active_buffs == old(self).active_buffs,
            final(self).modifiers.general.attack_speed == old(self).modifiers.general.attack_speed,
            final(self).dice == dice_after_proc(pr, old(self).dice),
            timers_but_swings(old(self).timekeep.timers, final(self).timekeep.timers),
            final(self).stats.mh_white == old(self).stats.mh_white,
            final(self).stats.oh_white == old(self).stats.oh_white,
            final(self).stats.backstab == old(self).stats.backstab,
            final(self).stats.eviscerate == old(self).stats.eviscerate,
            !proc_fires(pr, old(self).dice) ==> final(self).stats == old(self).stats
                && final(self).extra_attacks == old(self).extra_attacks
                && final(self).timekeep == old(self).timekeep,
            proc_fires(pr, old(self).dice) && main_hand ==> final(self).stats.mh_procs@
                == old(self).stats.mh_procs@.update(
                index as int,
                crate::stats::sat_add(old(self).stats.mh_procs@[index as int], 1),
            ),
            proc_fires(pr, old(self).dice) && !main_hand ==> final(self).stats.oh_procs@
                == old(self).stats.oh_procs@.update(
                index as int,
                crate::stats::sat_add(old(self).stats.oh_procs@[index as int], 1),
            ),
            proc_fires(pr, old(self).dice) ==> final(self).stats.proc_damage == crate::stats::sat_add(
                old(self).stats.proc_damage,
                proc_damage(pr),
            ),
            state_of(*final(self)) == proc_step(
                state_of(*old(self)),
                setup_of(*old(self)),
                pr,
                main_hand,
                index as int,
            ),
            proc_fires(pr, old(self).dice) && pr is ExtraAttack ==> final(self).extra_attacks
                == sat_inc(old(self).extra_attacks) && final(self).timekeep.timers.mh_swing
                == scaled_down(
                old(self).timekeep.mh_swing_interval as int,
                old(self).modifiers.general.attack_speed@,
            ) as i64,
            !(pr is ExtraAttack) ==> final(self).extra_attacks == old(self).extra_attacks
                && final(self).timekeep == old(self).timekeep,
    {
        let die = self.dice.roll();
        let (fires, dmg) = match pr {
            ProcRoll::Dmg { amount, resist_chance, proc_chance } => {
                if die < proc_chance {
                    let resist_roll = self.dice.roll();
                    (resist_roll > resist_chance, amount)
                } else {
                    (false, amount)
                }
            },
            ProcRoll::Strength { proc_chance } => (die < proc_chance, 0),
            ProcRoll::ExtraAttack { proc_chance } => {
                if die < proc_chance {
                    self.extra_attack_procc();
                    (true, 0)
                } else {
                    (false, 0)
                }
            },
        };
        if fires {
            self.stats.record_procc(main_hand, index, dmg);
            self.log(Event::Proc { main_hand, index });
        }
    }

    /// Rolls every proc of the main hand, in order; with none, nothing
    /// changes at all.
    pub fn trigger_hit_procc_mh(&mut self)
        requires
            old(self).wf(),
        ensures
            final(self).wf(),
            ability_frame(*old(self), *final(self)),
            final(self).energy == old(self).energy,
            final(self).combo_points == old(self).combo_points,
            final(self).active_buffs == old(self).active_buffs,
            final(self).modifiers.general.attack_speed == old(self).modifiers.general.attack_speed,
            final(self).stats.mh_white == old(self).stats.mh_white,
            final(self).stats.oh_white == old(self).stats.oh_white,
            final(self).stats.backstab == old(self).stats.backstab,
            final(self).stats.eviscerate == old(self).stats.eviscerate,
            old(self).mh.hit_proccs@.len() == 0 ==> *final(self) == *old(self),
            timers_but_swings(old(self).timekeep.timers, final(self).timekeep.timers),
            state_of(*final(self)) == all_procs(state_of(*old(self)), setup_of(*old(self)), true),
    {
        let n = self.mh.hit_proccs.len();
        let mut i: usize = 0;
        while i < n
            invariant
                0 <= i <= n,
                n == self.mh.hit_proccs@.len(),
                self.wf(),
                ability_frame(*old(self), *self),
                self.energy == old(self).energy,
                self.combo_points == old(self).combo_points,
                self.active_buffs == old(self).active_buffs,
                self.modifiers.general.attack_speed == old(self).modifiers.general.attack_speed,
                self.stats.mh_white == old(self).stats.mh_white,
                self.stats.oh_white == old(self).stats.oh_white,
                self.stats.backstab == old(self).stats.backstab,
                self.stats.eviscerate == old(self).stats.eviscerate,
                n == 0 ==> *self == *old(self),
                timers_but_swings(old(self).timekeep.timers, self.timekeep.timers),
                state_of(*self) == procs_fold(state_of(*old(self)), setup_of(*old(self)), true, i as nat),
            decreases n - i,
        {
            let pr = self.mh.hit_proccs[i].roll_params();
            proof {
                assert(setup_of(*self) == setup_of(*old(self)));
            }
            self.roll_for_procc(pr, true, i);
            i = i + 1;
        }
    }

    /// Rolls every proc of the off hand, in order; with none, nothing
    /// changes at all.
    pub fn trigger_hit_procc_oh(&mut self)
        requires
            old(self).wf(),
        ensures
            final(self).wf(),
            ability_frame(*old(self), *final(self)),
            final(self).energy == old(self).energy,
            final(self).combo_points == old(self).combo_points,
            final(self).active_buffs == old(self).active_buffs,
            final(self).modifiers.general.attack_speed == old(self).modifiers.general.attack_speed,
            final(self).stats.mh_white == old(self).stats.mh_white,
            final(self).stats.oh_white == old(self).stats.oh_white,
            final(self).stats.backstab == old(self).stats.backstab,
            final(self).stats.eviscerate == old(self).stats.eviscerate,
            old(self).oh.hit_proccs@.len() == 0 ==> *final(self) == *old(self),
            timers_but_swings(old(self).timekeep.timers, final(self).timekeep.timers),
            state_of(*final(self)) == all_procs(state_of(*old(self)), setup_of(*old(self)), false),
    {
        let n = self.oh.hit_proccs.len();
        let mut i: usize = 0;
        while i < n
            invariant
                0 <= i <= n,
                n == self.oh.hit_proccs@.len(),
                self.wf(),
                ability_frame(*old(self), *self),
                self.energy == old(self).energy,
                self.combo_points == old(self).combo_points,
                self.active_buffs == old(self).active_buffs,
                self.modifiers.general.attack_speed == old(self).modifiers.general.attack_speed,
                self.stats.mh_white == old(self).stats.mh_white,
                self.stats.oh_white == old(self).stats.oh_white,
                self.stats.backstab == old(self).stats.backstab,
                self.stats.eviscerate == old(self).stats.eviscerate,
                n == 0 ==> *self == *old(self),
                timers_but_swings(old(self).timekeep.timers, self.timekeep.timers),
                state_of(*self) == procs_fold(state_of(*old(self)), setup_of(*old(self)), false, i as nat),
            decreases n - i,
        {
            let pr = self.oh.hit_proccs[i].roll_params();
            proof {
                assert(setup_of(*self) == setup_of(*old(self)));
            }
            self.roll_for_procc(pr, false, i);
            i = i + 1;
        }
    }
}

} // verus!
