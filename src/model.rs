use vstd::prelude::*;
use crate::abilities::{energy_gain, energy_spend};
use crate::character::{ProcRoll, roll_params_spec};
use crate::clock::{ENERGY_TICK, GLOBAL_COOLDOWN, Timers, advance_spec, fresh_timers, max_step_spec};
use crate::cooldown::CooldownState;
use crate::damage::{
    backstab_base_spec, eviscerate_base_spec, permille, snd_base_spec, special_damage_spec,
    white_damage_spec,
};
use crate::dice::{Dice, roll_value, rolled};
use crate::engine::{CooldownPass, reset_pass, use_pass, wear_pass};
use crate::fight::{EXTRA_SWING_CHAIN, tick_base};
use crate::hit_table::{Hit, white_outcome, yellow_outcome};
use crate::modifiers::{CritModifiers, FinisherModifiers, HitModifiers, mitigated};
use crate::multiplier::{scaled_down, scaled_up_capped, without_last};
use crate::rotation::{AbilityCosts, Action, Rotation, backstab_evis_spec};
use crate::simulator::{FINISHER_ENERGY, SND_SPEED, Simulator, proc_damage, proc_fires, dice_after_proc};
use crate::stats::{OutcomeStats, sat_add, tallied, zero_outcomes};
use crate::weapon::WepSimulator;

verus! {

/// Everything a fight changes: the clock, the multipliers in force, the
/// cooldowns, the buff, the records, the queued swings, the resources and
/// the dice.
pub struct FightState {
    pub timers: Timers,
    pub dt: i64,
    pub speed: Seq<u32>,
    pub regen: Seq<u32>,
    pub cooldowns: Seq<CooldownState>,
    pub snd: bool,
    pub mh_white: OutcomeStats,
    pub oh_white: OutcomeStats,
    pub backstab: OutcomeStats,
    pub eviscerate: OutcomeStats,
    pub mh_procs: Seq<u64>,
    pub oh_procs: Seq<u64>,
    pub proc_damage: u64,
    pub extra_attacks: u32,
    pub energy: u32,
    pub combo_points: u32,
    pub dice: Dice,
}

/// Everything that configuration fixed and a fight only reads.
pub struct Setup {
    pub mh: WepSimulator,
    pub oh: WepSimulator,
    pub rotation: Rotation,
    pub costs: AbilityCosts,
    pub hit: HitModifiers,
    pub crit: CritModifiers,
    pub finisher: FinisherModifiers,
    pub armor: u32,
    pub energy_max: u32,
    pub snd_mod: u32,
    pub mh_interval: u32,
    pub oh_interval: u32,
    pub fight_length: i64,
}

pub open spec fn state_of(s: Simulator) -> FightState {
    FightState {
        timers: s.timekeep.timers,
        dt: s.timekeep.dt,
        speed: s.modifiers.general.attack_speed@,
        regen: s.modifiers.general.energy_regen@,
        cooldowns: s.cooldowns@,
        snd: s.active_buffs.slice_and_dice,
        mh_white: s.stats.mh_white,
        oh_white: s.stats.oh_white,
        backstab: s.stats.backstab,
        eviscerate: s.stats.eviscerate,
        mh_procs: s.stats.mh_procs@,
        oh_procs: s.stats.oh_procs@,
        proc_damage: s.stats.proc_damage,
        extra_attacks: s.extra_attacks,
        energy: s.energy,
        combo_points: s.combo_points,
        dice: s.dice,
    }
}

pub open spec fn setup_of(s: Simulator) -> Setup {
    Setup {
        mh: s.mh,
        oh: s.oh,
        rotation: s.rotation,
        costs: s.ability_costs,
        hit: s.modifiers.hit,
        crit: s.modifiers.crit,
        finisher: s.modifiers.finisher,
        armor: s.modifiers.armor,
        energy_max: s.modifiers.general.energy_max,
        snd_mod: s.modifiers.general.slice_and_dice_duration_modifier,
        mh_interval: s.timekeep.mh_swing_interval,
        oh_interval: s.timekeep.oh_swing_interval,
        fight_length: s.timekeep.fight_length,
    }
}

pub open spec fn lands(h: Hit) -> bool {
    h != Hit::Miss && h != Hit::Dodge
}

pub open spec fn sat_inc(x: u32) -> u32 {
    if x == u32::MAX { u32::MAX } else { (x + 1) as u32 }
}

/// One proc roll: when it goes off it is counted with its damage, and an
/// extra attack queues a swing and restarts the main-hand swing.
pub open spec fn proc_step(st: FightState, u: Setup, pr: ProcRoll, main_hand: bool, index: int) -> FightState {
    let d = dice_after_proc(pr, st.dice);
    if !proc_fires(pr, st.dice) {
        FightState { dice: d, ..st }
    } else {
        let counted = FightState {
            dice: d,
            mh_procs: if main_hand {
                st.mh_procs.update(index, sat_add(st.mh_procs[index], 1))
            } else {
                st.mh_procs
            },
            oh_procs: if main_hand {
                st.oh_procs
            } else {
                st.oh_procs.update(index, sat_add(st.oh_procs[index], 1))
            },
            proc_damage: sat_add(st.proc_damage, proc_damage(pr)),
            ..st
        };
        match pr {
            ProcRoll::ExtraAttack { .. } => FightState {
                extra_attacks: sat_inc(st.extra_attacks),
                timers: Timers {
                    mh_swing: scaled_down(u.mh_interval as int, st.speed) as i64,
                    ..st.timers
                },
                ..counted
            },
            _ => counted,
        }
    }
}

/// The procs of a hand.
pub open spec fn hand(u: Setup, main_hand: bool) -> WepSimulator {
    if main_hand { u.mh } else { u.oh }
}

/// The first `n` procs of a hand rolled in order.
pub open spec fn procs_fold(st: FightState, u: Setup, main_hand: bool, n: nat) -> FightState
    decreases n,
{
    if n == 0 {
        st
    } else {
        let before = procs_fold(st, u, main_hand, (n - 1) as nat);
        proc_step(
            before,
            u,
            roll_params_spec(hand(u, main_hand).hit_proccs@[n - 1]),
            main_hand,
            n - 1,
        )
    }
}

/// Every proc of a hand rolled in order.
pub open spec fn all_procs(st: FightState, u: Setup, main_hand: bool) -> FightState {
    procs_fold(st, u, main_hand, hand(u, main_hand).hit_proccs@.len())
}

/// The finisher bonus rolls.
pub open spec fn finisher_step(st: FightState, u: Setup) -> FightState {
    let cp: u32 = if roll_value(st.dice) < u.finisher.add_combo_point_chance { 1 } else { 0 };
    let d2 = rolled(st.dice);
    let energy = if roll_value(d2) < (cp as int) * (
    u.finisher.restore_energy_chance_per_combo_point as int) {
        energy_gain(st.energy as int, FINISHER_ENERGY as int, u.energy_max as int) as u32
    } else {
        st.energy
    };
    FightState { combo_points: cp, dice: rolled(d2), energy, ..st }
}

/// A main-hand autoattack.
pub open spec fn mh_strike_step(st: FightState, u: Setup) -> FightState {
    let hit = white_outcome(u.mh.hit_table_white, roll_value(st.dice));
    let rolled_st = FightState { dice: rolled(st.dice), ..st };
    let after = if lands(hit) { all_procs(rolled_st, u, true) } else { rolled_st };
    let dmg = mitigated(
        white_damage_spec(u.mh.mean_white_dmg as int, hit, 1000, u.hit.glancing_mh as int),
        u.armor as int,
    );
    FightState { mh_white: tallied(st.mh_white, hit, dmg as u64), ..after }
}

/// An off-hand autoattack.
pub open spec fn oh_strike_step(st: FightState, u: Setup) -> FightState {
    let hit = white_outcome(u.oh.hit_table_white, roll_value(st.dice));
    let rolled_st = FightState { dice: rolled(st.dice), ..st };
    let after = if lands(hit) { all_procs(rolled_st, u, false) } else { rolled_st };
    let dmg = mitigated(
        white_damage_spec(u.oh.mean_white_dmg as int, hit, u.hit.oh as int, u.hit.glancing_oh as int),
        u.armor as int,
    );
    FightState { oh_white: tallied(st.oh_white, hit, dmg as u64), ..after }
}

/// Eviscerate.
pub open spec fn eviscerate_step(st: FightState, u: Setup) -> FightState {
    let hit = yellow_outcome(u.mh.hit_table_yellow, roll_value(st.dice));
    let paid = FightState {
        dice: rolled(st.dice),
        energy: energy_spend(st.energy as int, u.costs.eviscerate as int) as u32,
        timers: Timers { global_cd: GLOBAL_COOLDOWN, ..st.timers },
        ..st
    };
    let after = if lands(hit) { finisher_step(all_procs(paid, u, true), u) } else { paid };
    let dmg = mitigated(
        special_damage_spec(
            eviscerate_base_spec(st.combo_points as int),
            hit,
            u.hit.eviscerate as int,
            u.crit.eviscerate as int,
        ),
        u.armor as int,
    );
    FightState { eviscerate: tallied(st.eviscerate, hit, dmg as u64), ..after }
}

/// Backstab.
pub open spec fn backstab_step(st: FightState, u: Setup) -> FightState {
    let hit = yellow_outcome(u.mh.hit_table_backstab, roll_value(st.dice));
    let rolled_st = FightState { dice: rolled(st.dice), ..st };
    let after = if !lands(hit) {
        FightState {
            energy: energy_spend(st.energy as int, u.costs.backstab as int / 5) as u32,
            ..rolled_st
        }
    } else {
        let p = all_procs(rolled_st, u, true);
        FightState {
            energy: energy_spend(p.energy as int, u.costs.backstab as int) as u32,
            combo_points: if p.combo_points < 5 { (p.combo_points + 1) as u32 } else { 5 },
            ..p
        }
    };
    let dmg = mitigated(
        special_damage_spec(
            backstab_base_spec(u.mh.mean_yellow_dmg as int),
            hit,
            u.hit.backstab as int,
            u.crit.backstab as int,
        ),
        u.armor as int,
    );
    FightState {
        backstab: tallied(st.backstab, hit, dmg as u64),
        timers: Timers { global_cd: GLOBAL_COOLDOWN, ..after.timers },
        ..after
    }
}

/// Slice and dice.
pub open spec fn snd_step(st: FightState, u: Setup) -> FightState {
    let dur = permille(snd_base_spec(st.combo_points as int), u.snd_mod as int);
    let up = FightState {
        speed: if st.snd { st.speed } else { st.speed.push(SND_SPEED) },
        snd: true,
        timers: Timers { slice_and_dice: dur as i64, global_cd: GLOBAL_COOLDOWN, ..st.timers },
        energy: energy_spend(st.energy as int, u.costs.slice_and_dice as int) as u32,
        ..st
    };
    finisher_step(up, u)
}

/// The finisher-builder loop's action, carried out.
pub open spec fn rotation_step(st: FightState, u: Setup) -> FightState {
    match backstab_evis_spec(st.combo_points, st.energy, st.timers.slice_and_dice > 0, u.costs) {
        Action::SliceAndDice => snd_step(st, u),
        Action::Backstab => backstab_step(st, u),
        Action::Eviscerate => eviscerate_step(st, u),
        Action::Nothing => st,
    }
}

/// The rotation, when the global cooldown is down and it is the dagger's.
pub open spec fn yellow_step(st: FightState, u: Setup) -> FightState {
    if st.timers.global_cd > 0 || u.rotation != Rotation::BackstabEvis {
        st
    } else {
        rotation_step(st, u)
    }
}

/// The off-hand swing, when due, and its timer restarted.
pub open spec fn oh_swing_step(st: FightState, u: Setup) -> FightState {
    if st.timers.oh_swing > 0 {
        st
    } else {
        let x = oh_strike_step(st, u);
        FightState {
            timers: Timers { oh_swing: scaled_down(u.oh_interval as int, x.speed) as i64, ..x.timers },
            ..x
        }
    }
}

/// The main-hand swing, when due, and its timer restarted.
pub open spec fn mh_swing_step(st: FightState, u: Setup) -> FightState {
    if st.timers.mh_swing > 0 {
        st
    } else {
        let x = mh_strike_step(st, u);
        FightState {
            timers: Timers { mh_swing: scaled_down(u.mh_interval as int, x.speed) as i64, ..x.timers },
            ..x
        }
    }
}

/// Queued swings resolved one by one, at most `budget` of them.
pub open spec fn extra_fold(st: FightState, u: Setup, budget: nat) -> FightState
    decreases budget,
{
    if st.extra_attacks > 0 && budget > 0 {
        let x = mh_strike_step(st, u);
        extra_fold(
            FightState {
                extra_attacks: if x.extra_attacks > 0 { (x.extra_attacks - 1) as u32 } else { 0 },
                ..x
            },
            u,
            (budget - 1) as nat,
        )
    } else {
        st
    }
}

/// One energy tick.
pub open spec fn refill_step(st: FightState, u: Setup) -> FightState {
    let amount = scaled_up_capped(tick_base(roll_value(st.dice)), st.regen, u.energy_max as int);
    FightState {
        energy: energy_gain(st.energy as int, amount, u.energy_max as int) as u32,
        dice: rolled(st.dice),
        ..st
    }
}

/// The energy tick, when due, with its timer restarted.
pub open spec fn energy_step(st: FightState, u: Setup) -> FightState {
    if st.timers.energy_refill <= 0 {
        refill_step(FightState { timers: Timers { energy_refill: ENERGY_TICK, ..st.timers }, ..st }, u)
    } else {
        st
    }
}

pub open spec fn pass_of_state(st: FightState) -> CooldownPass {
    CooldownPass {
        energy: st.energy as int,
        global_cd: st.timers.global_cd,
        cooldowns: st.cooldowns,
        regen: st.regen,
        speed: st.speed,
    }
}

pub open spec fn with_pass(st: FightState, p: CooldownPass) -> FightState {
    FightState {
        energy: p.energy as u32,
        timers: Timers { global_cd: p.global_cd, ..st.timers },
        cooldowns: p.cooldowns,
        regen: p.regen,
        speed: p.speed,
        ..st
    }
}

/// Every usable cooldown used, in declaration order.
pub open spec fn cooldowns_step(st: FightState, u: Setup) -> FightState {
    with_pass(st, use_pass(pass_of_state(st), st.cooldowns.len(), u.energy_max as int))
}

/// The clock stepped as far as is safe, then the effects and the buff that
/// ran out ended.
pub open spec fn time_step(st: FightState) -> FightState {
    let dt = max_step_spec(st.timers) as i64;
    let t = advance_spec(Timers { glob_cd_previously_available: st.timers.global_cd <= 0, ..st.timers }, dt);
    let w = wear_pass(CooldownPass { global_cd: t.global_cd, ..pass_of_state(st) }, st.cooldowns.len(), dt);
    let snd_ends = st.snd && t.slice_and_dice < 0;
    FightState {
        dt,
        timers: t,
        cooldowns: w.cooldowns,
        regen: w.regen,
        speed: if snd_ends { without_last(w.speed, SND_SPEED) } else { w.speed },
        snd: st.snd && !snd_ends,
        ..st
    }
}

/// One pass of the fight loop.
pub open spec fn loop_step(st: FightState, u: Setup) -> FightState {
    let a = cooldowns_step(st, u);
    let b = yellow_step(a, u);
    let c = oh_swing_step(b, u);
    let d = mh_swing_step(c, u);
    let e = extra_fold(d, u, EXTRA_SWING_CHAIN as nat);
    time_step(energy_step(e, u))
}

/// Passes of the fight loop while fight time is left, at most `fuel`.
pub open spec fn run(st: FightState, u: Setup, fuel: nat) -> FightState
    decreases fuel,
{
    if fuel == 0 || st.timers.time_left <= 0 {
        st
    } else {
        run(loop_step(st, u), u, (fuel - 1) as nat)
    }
}

/// The records cleared and the timers set for a new fight.
pub open spec fn cleared(st: FightState, u: Setup) -> FightState {
    FightState {
        timers: fresh_timers(u.fight_length),
        mh_white: zero_outcomes(),
        oh_white: zero_outcomes(),
        backstab: zero_outcomes(),
        eviscerate: zero_outcomes(),
        mh_procs: Seq::new(st.mh_procs.len(), |i: int| 0u64),
        oh_procs: Seq::new(st.oh_procs.len(), |i: int| 0u64),
        proc_damage: 0,
        ..st
    }
}

/// The character readied: full energy, no combo points or queued swings,
/// every cooldown ready with its multiplier reverted, and the buff down.
pub open spec fn reset_char_state(st: FightState, u: Setup) -> FightState {
    let p = reset_pass(
        CooldownPass { energy: u.energy_max as int, ..pass_of_state(st) },
        st.cooldowns.len(),
    );
    FightState {
        energy: u.energy_max,
        combo_points: 0,
        extra_attacks: 0,
        cooldowns: p.cooldowns,
        regen: p.regen,
        speed: if st.snd { without_last(p.speed, SND_SPEED) } else { p.speed },
        snd: false,
        ..st
    }
}

/// The state at the start of a fight.
pub open spec fn start_state(st: FightState, u: Setup) -> FightState {
    reset_char_state(cleared(st, u), u)
}

/// Enough passes for a fight of `fight_length` ms: each takes at least one.
pub open spec fn fight_fuel(fight_length: i64) -> nat {
    (if fight_length > 0 { fight_length as int } else { 0 }) as nat + 1
}

/// Two simulators that agree on their fight state and their setup run the
/// same fight: the same records, rolls and resources at its end.
pub proof fn lemma_same_start_same_fight(a: Simulator, b: Simulator)
    requires
        state_of(a) == state_of(b),
        setup_of(a) == setup_of(b),
    ensures
        fight(state_of(a), setup_of(a)) == fight(state_of(b), setup_of(b)),
{
}

/// A whole fight from state `st`.
pub open spec fn fight(st: FightState, u: Setup) -> FightState {
    run(start_state(st, u), u, fight_fuel(u.fight_length))
}

} // verus!
