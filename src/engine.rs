use vstd::prelude::*;
use crate::abilities::{energy_gain, energy_spend};
use crate::character::CooldownEffect;
use crate::events::Event;
use crate::clock::GLOBAL_COOLDOWN;
use crate::cooldown::{CooldownState, activated, lacks_prerequisite_spec, ready, ticked};
use crate::multiplier::{last_index_of, lemma_last_index_bounds, without_last};
use crate::model::{cooldowns_step, pass_of_state, setup_of, state_of};
use crate::simulator::{Simulator, cooldown_ok, same_fight_time, same_setup, speeds_ok};

verus! {

/// The regeneration multipliers after a cooldown with effect `e` is used.
pub open spec fn regen_after_use(s: Seq<u32>, e: CooldownEffect) -> Seq<u32> {
    match e {
        CooldownEffect::EnergyRegenMultiplier(m, _) => s.push(m),
        _ => s,
    }
}

/// The attack speed multipliers after a cooldown with effect `e` is used.
pub open spec fn speed_after_use(s: Seq<u32>, e: CooldownEffect) -> Seq<u32> {
    match e {
        CooldownEffect::AttackSpeedMultiplier(m, _) => s.push(m),
        _ => s,
    }
}

/// The regeneration multipliers after the effect `e` wears off.
pub open spec fn regen_after_wear_off(s: Seq<u32>, e: CooldownEffect) -> Seq<u32> {
    match e {
        CooldownEffect::EnergyRegenMultiplier(m, _) => without_last(s, m),
        _ => s,
    }
}

/// The attack speed multipliers after the effect `e` wears off.
pub open spec fn speed_after_wear_off(s: Seq<u32>, e: CooldownEffect) -> Seq<u32> {
    match e {
        CooldownEffect::AttackSpeedMultiplier(m, _) => without_last(s, m),
        _ => s,
    }
}

/// Using a cooldown and then letting its effect wear off gives back both
/// multiplier stacks exactly as they stood before.
pub proof fn lemma_cooldown_round_trip(regen: Seq<u32>, speed: Seq<u32>, e: CooldownEffect)
    ensures
        regen_after_wear_off(regen_after_use(regen, e), e) == regen,
        speed_after_wear_off(speed_after_use(speed, e), e) == speed,
{
    match e {
        CooldownEffect::EnergyRegenMultiplier(m, _) => {
            crate::multiplier::lemma_apply_revert_round_trip(regen, m);
        },
        CooldownEffect::AttackSpeedMultiplier(m, _) => {
            crate::multiplier::lemma_apply_revert_round_trip(speed, m);
        },
        _ => {},
    }
}

/// Taking out a multiplier leaves no slowing one behind.
pub proof fn lemma_without_last_speeds(s: Seq<u32>, f: u32)
    requires
        speeds_ok(s),
    ensures
        speeds_ok(without_last(s, f)),
{
    lemma_last_index_bounds(s, f);
    let i = last_index_of(s, f);
    if i >= 0 {
        assert forall|k: int| 0 <= k < s.remove(i).len() implies s.remove(i)[k] >= 1_000_000 by {
            if k < i {
                assert(s.remove(i)[k] == s[k]);
            } else {
                assert(s.remove(i)[k] == s[k + 1]);
            }
        }
    }
}

/// Nothing but the cooldowns, the multipliers, the energy and the clock of
/// the global cooldown has changed.
pub open spec fn cooldown_frame(a: Simulator, b: Simulator) -> bool {
    &&& same_fight_time(a, b)
    &&& same_setup(a, b)
    &&& a.stats == b.stats
    &&& a.dice == b.dice
    &&& a.combo_points == b.combo_points
    &&& a.active_buffs == b.active_buffs
    &&& a.extra_attacks == b.extra_attacks
    &&& a.cooldowns@.len() == b.cooldowns@.len()
    &&& a.timekeep.timers.slice_and_dice == b.timekeep.timers.slice_and_dice
    &&& a.timekeep.timers.mh_swing == b.timekeep.timers.mh_swing
    &&& a.timekeep.timers.oh_swing == b.timekeep.timers.oh_swing
    &&& a.timekeep.timers.energy_refill == b.timekeep.timers.energy_refill
    &&& a.timekeep.timers.glob_cd_previously_available
        == b.timekeep.timers.glob_cd_previously_available
}

/// What a pass over the cooldowns reads and changes: the energy, the global
/// cooldown, the cooldowns and both multiplier stacks.
pub struct CooldownPass {
    pub energy: int,
    pub global_cd: i64,
    pub cooldowns: Seq<CooldownState>,
    pub regen: Seq<u32>,
    pub speed: Seq<u32>,
}

/// The part of `s` that a pass over the cooldowns reads and changes.
pub open spec fn pass_of(s: Simulator) -> CooldownPass {
    CooldownPass {
        energy: s.energy as int,
        global_cd: s.timekeep.timers.global_cd,
        cooldowns: s.cooldowns@,
        regen: s.modifiers.general.energy_regen@,
        speed: s.modifiers.general.attack_speed@,
    }
}

/// Cooldown `i` used if nothing stands in its way: its cost spent, the
/// global cooldown started when it costs energy, its effect applied, its
/// cooldown started.
pub open spec fn use_step(p: CooldownPass, i: int, energy_max: int) -> CooldownPass {
    let c = p.cooldowns[i];
    if lacks_prerequisite_spec(c, p.energy as u32, p.global_cd) {
        p
    } else {
        let spent = energy_spend(p.energy, c.cost as int);
        CooldownPass {
            energy: match c.effect {
                CooldownEffect::InstantEnergyRefill(a) => energy_gain(spent, a as int, energy_max),
                _ => spent,
            },
            global_cd: if c.cost > 0 { GLOBAL_COOLDOWN } else { p.global_cd },
            cooldowns: p.cooldowns.update(i, activated(c)),
            regen: regen_after_use(p.regen, c.effect),
            speed: speed_after_use(p.speed, c.effect),
        }
    }
}

/// The first `n` cooldowns used in declaration order, each seeing what
/// the ones before it left.
pub open spec fn use_pass(p: CooldownPass, n: nat, energy_max: int) -> CooldownPass
    decreases n,
{
    if n == 0 {
        p
    } else {
        use_step(use_pass(p, (n - 1) as nat, energy_max), n - 1, energy_max)
    }
}

/// Cooldown `i` after a step of `dt`: its timers lowered, and its effect
/// ended, with its multiplier reverted, once its duration has run out.
pub open spec fn wear_step(p: CooldownPass, i: int, dt: i64) -> CooldownPass {
    let t = ticked(p.cooldowns[i], dt);
    if t.time_left <= 0 && t.is_active {
        CooldownPass {
            cooldowns: p.cooldowns.update(i, CooldownState { is_active: false, ..t }),
            regen: regen_after_wear_off(p.regen, t.effect),
            speed: speed_after_wear_off(p.speed, t.effect),
            ..p
        }
    } else {
        CooldownPass { cooldowns: p.cooldowns.update(i, t), ..p }
    }
}

/// The first `n` cooldowns stepped by `dt`, in declaration order.
pub open spec fn wear_pass(p: CooldownPass, n: nat, dt: i64) -> CooldownPass
    decreases n,
{
    if n == 0 {
        p
    } else {
        wear_step(wear_pass(p, (n - 1) as nat, dt), n - 1, dt)
    }
}

/// Cooldown `i` made ready, its multiplier first reverted if it was
/// active.
pub open spec fn reset_step(p: CooldownPass, i: int) -> CooldownPass {
    let c = p.cooldowns[i];
    CooldownPass {
        cooldowns: p.cooldowns.update(i, ready(c)),
        regen: if c.is_active { regen_after_wear_off(p.regen, c.effect) } else { p.regen },
        speed: if c.is_active { speed_after_wear_off(p.speed, c.effect) } else { p.speed },
        ..p
    }
}

/// The first `n` cooldowns made ready, in declaration order.
pub open spec fn reset_pass(p: CooldownPass, n: nat) -> CooldownPass
    decreases n,
{
    if n == 0 {
        p
    } else {
        reset_step(reset_pass(p, (n - 1) as nat), n - 1)
    }
}

impl Simulator {
    /// Whether cooldown `nr` cannot be used now.
    pub fn cd_by_nr_lacks_prerequisite(&self, nr: usize) -> (r: bool)
        requires
            nr < self.cooldowns@.len(),
        ensures
            r == lacks_prerequisite_spec(
                self.cooldowns@[nr as int],
                self.energy,
                self.timekeep.timers.global_cd,
            ),
    {
        self.cooldowns[nr].lacks_prerequisite(self.energy, self.timekeep.timers.global_cd)
    }

    /// Uses cooldown `nr`: spends its cost, starts the global cooldown when
    /// it costs energy, and applies its effect: a multiplier goes into force
    /// for its duration, an instant refill adds energy.
    pub fn enable_cd_by_nr(&mut self, nr: usize)
        requires
            old(self).wf(),
            nr < old(self).cooldowns@.len(),
        ensures
            final(self).wf(),
            cooldown_frame(*old(self), *final(self)),
            ({
                let c = old(self).cooldowns@[nr as int];
                let spent = energy_spend(old(self).energy as int, c.cost as int);
                &&& final(self).cooldowns@ == old(self).cooldowns@.update(nr as int, activated(c))
                &&& final(self).modifiers.general.energy_regen@ == regen_after_use(
                    old(self).modifiers.general.energy_regen@,
                    c.effect,
                )
                &&& final(self).modifiers.general.attack_speed@ == speed_after_use(
                    old(self).modifiers.general.attack_speed@,
                    c.effect,
                )
                &&& final(self).energy == match c.effect {
                    CooldownEffect::InstantEnergyRefill(a) => energy_gain(
                        spent,
                        a as int,
                        old(self).modifiers.general.energy_max as int,
                    ),
                    _ => spent,
                }
                &&& final(self).timekeep.timers.global_cd == if c.cost > 0 {
                    GLOBAL_COOLDOWN
                } else {
                    old(self).timekeep.timers.global_cd
                }
            }),
    {
        let mut c = self.cooldowns[nr];
        self.subtract_energy(c.cost);
        if c.cost > 0 {
            self.start_global_cd();
        }
        match c.effect {
            CooldownEffect::EnergyRegenMultiplier(mult, _) => {
                self.modifiers.general.energy_regen.apply(mult);
            },
            CooldownEffect::AttackSpeedMultiplier(mult, _) => {
                assert(cooldown_ok(self.cooldowns@[nr as int]));
                self.modifiers.general.attack_speed.apply(mult);
            },
            CooldownEffect::InstantEnergyRefill(energy) => {
                self.add_energy(energy as u64);
            },
        }
        c.activate();
        self.cooldowns.set(nr, c);
        proof {
            assert forall|i: int| 0 <= i < self.cooldowns@.len() implies cooldown_ok(
                #[trigger] self.cooldowns@[i],
            ) by {
                if i != nr {
                    assert(self.cooldowns@[i] == old(self).cooldowns@[i]);
                }
            }
        }
    }

    /// Ends the effect of cooldown `nr`, reverting exactly the multiplier it
    /// applied.
    pub fn disable_cd_by_nr(&mut self, nr: usize)
        requires
            old(self).wf(),
            nr < old(self).cooldowns@.len(),
        ensures
            final(self).wf(),
            cooldown_frame(*old(self), *final(self)),
            ({
                let c = old(self).cooldowns@[nr as int];
                &&& final(self).cooldowns@ == old(self).cooldowns@.update(
                    nr as int,
                    CooldownState { is_active: false, ..c },
                )
                &&& final(self).modifiers.general.energy_regen@ == regen_after_wear_off(
                    old(self).modifiers.general.energy_regen@,
                    c.effect,
                )
                &&& final(self).modifiers.general.attack_speed@ == speed_after_wear_off(
                    old(self).modifiers.general.attack_speed@,
                    c.effect,
                )
            }),
            final(self).energy == old(self).energy,
            final(self).timekeep == old(self).timekeep,
    {
        let mut c = self.cooldowns[nr];
        c.is_active = false;
        match c.effect {
            CooldownEffect::EnergyRegenMultiplier(mult, _) => {
                self.modifiers.general.energy_regen.revert(mult);
            },
            CooldownEffect::AttackSpeedMultiplier(mult, _) => {
                proof {
                    lemma_without_last_speeds(self.modifiers.general.attack_speed@, mult);
                }
                self.modifiers.general.attack_speed.revert(mult);
            },
            CooldownEffect::InstantEnergyRefill(_) => {},
        }
        self.cooldowns.set(nr, c);
        proof {
            assert forall|i: int| 0 <= i < self.cooldowns@.len() implies cooldown_ok(
                #[trigger] self.cooldowns@[i],
            ) by {
                if i != nr {
                    assert(self.cooldowns@[i] == old(self).cooldowns@[i]);
                } else {
                    assert(cooldown_ok(old(self).cooldowns@[i]));
                }
            }
        }
    }

    /// Uses cooldown `nr` when nothing stands in its way.
    pub fn use_cd_by_nr(&mut self, nr: usize)
        requires
            old(self).wf(),
            nr < old(self).cooldowns@.len(),
        ensures
            final(self).wf(),
            cooldown_frame(*old(self), *final(self)),
            lacks_prerequisite_spec(
                old(self).cooldowns@[nr as int],
                old(self).energy,
                old(self).timekeep.timers.global_cd,
            ) ==> *final(self) == *old(self),
            pass_of(*final(self)) == use_step(
                pass_of(*old(self)),
                nr as int,
                old(self).modifiers.general.energy_max as int,
            ),
    {
        if self.cd_by_nr_lacks_prerequisite(nr) {
            return;
        }
        self.enable_cd_by_nr(nr);
        self.log(Event::CooldownUsed { index: nr });
    }

    /// Uses every usable cooldown, in declaration order; each use may spend
    /// energy or start the global cooldown for those after it.
    pub fn use_ready_cooldowns(&mut self)
        requires
            old(self).wf(),
        ensures
            final(self).wf(),
            cooldown_frame(*old(self), *final(self)),
            pass_of(*final(self)) == use_pass(
                pass_of(*old(self)),
                old(self).cooldowns@.len(),
                old(self).modifiers.general.energy_max as int,
            ),            state_of(*final(self)) == cooldowns_step(state_of(*old(self)), setup_of(*old(self))),
    {
        proof {
            assert(pass_of(*old(self)) == pass_of_state(state_of(*old(self))));
        }
        let n = self.cooldowns.len();
        let mut i: usize = 0;
        while i < n
            invariant
                0 <= i <= n,
                n == self.cooldowns@.len(),
                self.wf(),
                cooldown_frame(*old(self), *self),
                pass_of(*self) == use_pass(
                    pass_of(*old(self)),
                    i as nat,
                    old(self).modifiers.general.energy_max as int,
                ),
            decreases n - i,
        {
            self.use_cd_by_nr(i);
            i = i + 1;
        }
    }

    /// Makes cooldown `nr` ready, first reverting its multiplier if it is
    /// still active.
    pub fn reset_cd_by_nr(&mut self, nr: usize)
        requires
            old(self).wf(),
            nr < old(self).cooldowns@.len(),
        ensures
            final(self).wf(),
            cooldown_frame(*old(self), *final(self)),
            final(self).energy == old(self).energy,
            final(self).timekeep == old(self).timekeep,
            ({
                let c = old(self).cooldowns@[nr as int];
                &&& final(self).cooldowns@ == old(self).cooldowns@.update(nr as int, ready(c))
                &&& final(self).modifiers.general.energy_regen@ == if c.is_active {
                    regen_after_wear_off(old(self).modifiers.general.energy_regen@, c.effect)
                } else {
                    old(self).modifiers.general.energy_regen@
                }
                &&& final(self).modifiers.general.attack_speed@ == if c.is_active {
                    speed_after_wear_off(old(self).modifiers.general.attack_speed@, c.effect)
                } else {
                    old(self).modifiers.general.attack_speed@
                }
            }),
    {
        if self.cooldowns[nr].is_active {
            self.disable_cd_by_nr(nr);
        }
        let mut c = self.cooldowns[nr];
        c.reset();
        self.cooldowns.set(nr, c);
        proof {
            assert forall|i: int| 0 <= i < self.cooldowns@.len() implies cooldown_ok(
                #[trigger] self.cooldowns@[i],
            ) by {
                if i != nr {
                    assert(self.cooldowns@[i] == old(self).cooldowns@[i]);
                } else {
                    assert(cooldown_ok(old(self).cooldowns@[i]));
                }
            }
            assert(self.cooldowns@ =~= old(self).cooldowns@.update(
                nr as int,
                ready(old(self).cooldowns@[nr as int]),
            ));
        }
    }

    /// Makes every cooldown ready.
    pub fn reset_cooldowns(&mut self)
        requires
            old(self).wf(),
        ensures
            final(self).wf(),
            cooldown_frame(*old(self), *final(self)),
            final(self).energy == old(self).energy,
            final(self).timekeep == old(self).timekeep,
            forall|i: int|
                0 <= i < final(self).cooldowns@.len() ==> #[trigger] final(self).cooldowns@[i]
                    == ready(old(self).cooldowns@[i]),
            pass_of(*final(self)) == reset_pass(pass_of(*old(self)), old(self).cooldowns@.len()),
    {
        let n = self.cooldowns.len();
        let mut i: usize = 0;
        while i < n
            invariant
                0 <= i <= n,
                n == self.cooldowns@.len(),
                self.wf(),
                cooldown_frame(*old(self), *self),
                self.energy == old(self).energy,
                self.timekeep == old(self).timekeep,
                forall|k: int| 0 <= k < i ==> #[trigger] self.cooldowns@[k] == ready(
                    old(self).cooldowns@[k],
                ),
                forall|k: int| i <= k < n ==> #[trigger] self.cooldowns@[k] == old(
                    self,
                ).cooldowns@[k],
                pass_of(*self) == reset_pass(pass_of(*old(self)), i as nat),
            decreases n - i,
        {
            let ghost prev_pass = pass_of(*self);
            self.reset_cd_by_nr(i);
            proof {
                assert(pass_of(*self).cooldowns =~= reset_step(prev_pass, i as int).cooldowns);
            }
            i = i + 1;
        }
    }

    /// Lowers the timers of every cooldown by the step just taken, and ends
    /// each active effect whose duration has run out.
    pub fn check_cds_wearing_off(&mut self)
        requires
            old(self).wf(),
        ensures
            final(self).wf(),
            cooldown_frame(*old(self), *final(self)),
            final(self).energy == old(self).energy,
            final(self).timekeep == old(self).timekeep,
            pass_of(*final(self)) == wear_pass(
                pass_of(*old(self)),
                old(self).cooldowns@.len(),
                old(self).timekeep.dt,
            ),
    {
        let n = self.cooldowns.len();
        let dt = self.timekeep.dt;
        let mut i: usize = 0;
        while i < n
            invariant
                0 <= i <= n,
                n == self.cooldowns@.len(),
                dt == self.timekeep.dt,
                self.wf(),
                cooldown_frame(*old(self), *self),
                self.energy == old(self).energy,
                self.timekeep == old(self).timekeep,
                pass_of(*self) == wear_pass(pass_of(*old(self)), i as nat, dt),
            decreases n - i,
        {
            let mut c = self.cooldowns[i];
            let ghost prev = self.cooldowns@;
            let ghost prev_pass = pass_of(*self);
            c.tick(dt);
            self.cooldowns.set(i, c);
            proof {
                assert forall|k: int| 0 <= k < self.cooldowns@.len() implies cooldown_ok(
                    #[trigger] self.cooldowns@[k],
                ) by {
                    assert(cooldown_ok(prev[k]));
                }
            }
            if c.time_left <= 0 && c.is_active {
                self.disable_cd_by_nr(i);
                self.log(Event::CooldownFaded { index: i });
            }
            proof {
                assert(pass_of(*self).cooldowns =~= wear_step(prev_pass, i as int, dt).cooldowns);
                assert(pass_of(*self) == wear_step(prev_pass, i as int, dt));
            }
            i = i + 1;
        }
    }
}

} // verus!
