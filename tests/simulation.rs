use rand_chacha::rand_core::{RngCore, SeedableRng};
use rogue_sim::character::{
    ArmorPiece, Character, Cooldown, CooldownEffect, Enchant, HitProc, PrimStats, ProcRoll,
    SecStats, SetBonus, Talents, Weapon, WeaponType,
};
use rogue_sim::cooldown::CooldownState;
use rogue_sim::damage::{backstab_damage, eviscerate_damage, snd_duration, white_damage};
use rogue_sim::dice::{die_from_word, Dice};
use rogue_sim::error::ConfigError;
use rogue_sim::events::{Attack, Event};
use rogue_sim::hit_table::{get_miss_chance_from_skill_delta, Hit, WhiteHitTable, YellowHitTable};
use rogue_sim::modifiers::{get_glancing_red_factor_from_skill_delta, Modifiers};
use rogue_sim::multiplier::MultiplierStack;
use rogue_sim::rotation::{backstab_evis_choice, AbilityCosts, Action, Rotation};
use rogue_sim::simulator::Simulator;
use rogue_sim::clock::Timers;
use rogue_sim::weights::StatShift;

fn weapon(weapon_type: WeaponType, mean_dmg: u64, swing_interval: u32) -> Weapon {
    Weapon { weapon_type, mean_dmg, swing_interval, hit_proc: None }
}

fn no_talents() -> Talents {
    Talents {
        improved_eviscerate: 0,
        malice: 0,
        relentless_strikes: 0,
        ruthlessness: 0,
        improved_slice_and_dice: 0,
        lethality: 0,
        improved_sinister_strike: 0,
        improved_backstab: 0,
        precision: 0,
        dagger_specialization: 0,
        dual_wield_specialization: 0,
        sword_specialization: 0,
        aggression: 0,
        opportunity: 0,
    }
}

fn build_talents() -> Talents {
    Talents {
        improved_eviscerate: 3,
        malice: 0,
        relentless_strikes: 1,
        ruthlessness: 3,
        improved_slice_and_dice: 3,
        lethality: 5,
        improved_sinister_strike: 2,
        improved_backstab: 3,
        precision: 0,
        dagger_specialization: 5,
        dual_wield_specialization: 5,
        sword_specialization: 0,
        aggression: 3,
        opportunity: 5,
    }
}

fn rogue() -> Character {
    Character {
        prim_stats: PrimStats { agility: 300, strength: 100, dagger_skill: 300, sword_skill: 300 },
        sec_stats: SecStats { attack_power: 1000, hit: 50_000, crit: 200_000, haste: 0 },
        mh: weapon(WeaponType::Dagger, 6_050, 1_800),
        oh: weapon(WeaponType::Dagger, 5_000, 1_500),
        armor: Vec::new(),
        mh_enchants: Vec::new(),
        oh_enchants: Vec::new(),
        cooldowns: Vec::new(),
        talents: no_talents(),
        set_bonuses: Vec::new(),
    }
}

fn rogue_with_extras() -> Character {
    let mut c = rogue();
    c.talents = build_talents();
    c.armor.push(ArmorPiece {
        hit_proc: Some(HitProc::Strength {
            name: "Kiss of the Spider".to_string(),
            strength: 100,
            duration: 10_000,
            proc_chance: 50_000,
        }),
    });
    c.mh.hit_proc = Some(HitProc::ExtraAttack { name: "Hand of Justice".to_string(), proc_chance: 20_000 });
    c.mh_enchants.push(Enchant {
        extra_damage: 200,
        hit_proc: Some(HitProc::Dmg {
            name: "Crusader".to_string(),
            amount: 13_000,
            resist_chance: 200_000,
            proc_chance: 100_000,
        }),
    });
    c.oh_enchants.push(Enchant { extra_damage: 300, hit_proc: None });
    c.cooldowns.push(Cooldown {
        name: "Adrenaline Rush".to_string(),
        cost: 0,
        cd: 300_000,
        effect: CooldownEffect::EnergyRegenMultiplier(2, 15_000),
        use_below_energy: 100,
    });
    c.cooldowns.push(Cooldown {
        name: "Blade Flurry".to_string(),
        cost: 25,
        cd: 120_000,
        effect: CooldownEffect::AttackSpeedMultiplier(1_200_000, 15_000),
        use_below_energy: 100,
    });
    c.cooldowns.push(Cooldown {
        name: "Thistle Tea".to_string(),
        cost: 0,
        cd: 300_000,
        effect: CooldownEffect::InstantEnergyRefill(100),
        use_below_energy: 20,
    });
    c.set_bonuses.push(SetBonus::NewEnergyCap(110));
    c
}

fn configured(c: &Character, seed: u64) -> Simulator {
    let mut s = Simulator::new();
    s.apply_input_arguments(120_000, 63, seed);
    s.configure_with_character(c).unwrap();
    s
}

fn configure_error(c: &Character, level: i32) -> ConfigError {
    let mut s = Simulator::new();
    s.apply_input_arguments(60_000, level, 1);
    s.configure_with_character(c).unwrap_err()
}

#[test]
fn thresholds_ordered_for_every_valid_delta() {
    for delta in -50i64..=15 {
        for level in 60..=63 {
            let y = YellowHitTable::from_ratings(delta, 20_000, 271_000, level).unwrap();
            assert!(0 <= y.miss_value && y.miss_value <= y.dodge_value);
            assert!(y.dodge_value <= y.crit_value && y.crit_value <= 1_000_000);
            let w = WhiteHitTable::from_ratings(delta, 20_000, 271_000, level).unwrap();
            assert!(w.miss_value <= w.dodge_value && w.dodge_value <= w.glancing_value);
            assert!(w.glancing_value <= w.crit_value && w.crit_value <= 1_000_000);
        }
    }
}

#[test]
fn resources_stay_in_bounds_over_fights() {
    let c = rogue_with_extras();
    let mut s = configured(&c, 7);
    for _ in 0..5 {
        s.simulate();
        assert!(s.energy <= s.modifiers.general.energy_max);
        assert!(s.combo_points <= 5);
        assert!(s.timekeep.timers.time_left <= 0);
    }
    assert_eq!(s.modifiers.general.energy_max, 110);
}

#[test]
fn cooldown_round_trip_restores_multipliers() {
    let c = rogue_with_extras();
    let mut s = configured(&c, 3);
    let speed_before = s.modifiers.general.attack_speed.factors().clone();
    let regen_before = s.modifiers.general.energy_regen.factors().clone();
    s.enable_cd_by_nr(1);
    assert_eq!(s.modifiers.general.attack_speed.factors().len(), speed_before.len() + 1);
    s.disable_cd_by_nr(1);
    assert_eq!(*s.modifiers.general.attack_speed.factors(), speed_before);
    s.enable_cd_by_nr(0);
    assert_eq!(*s.modifiers.general.energy_regen.factors(), vec![2]);
    s.disable_cd_by_nr(0);
    assert_eq!(*s.modifiers.general.energy_regen.factors(), regen_before);
}

#[test]
fn same_seed_gives_same_fight() {
    let c = rogue_with_extras();
    let mut a = configured(&c, 42);
    let mut b = configured(&c, 42);
    a.simulate();
    b.simulate();
    let (sa, sb) = (a.get_stats(), b.get_stats());
    assert_eq!(sa.mh_white, sb.mh_white);
    assert_eq!(sa.oh_white, sb.oh_white);
    assert_eq!(sa.backstab, sb.backstab);
    assert_eq!(sa.eviscerate, sb.eviscerate);
    assert_eq!(sa.mh_procs, sb.mh_procs);
    assert_eq!(sa.total_damage(), sb.total_damage());
    assert!(sa.total_damage() > 0);
}

#[test]
fn armor_mitigation_falls_with_armor() {
    let mut m = Modifiers::new();
    let mut last = u64::MAX;
    for armor in [0u32, 100, 336, 1_000, 5_000] {
        m.armor = armor;
        let d = m.armor_reduction(1_000_000);
        assert!(d <= 1_000_000 && d > 0 && d <= last);
        last = d;
    }
    m.armor = 0;
    assert_eq!(m.armor_reduction(12_345), 12_345);
    m.set_armor_factor();
    assert_eq!(m.armor, 336);
    assert_eq!(m.armor_reduction(10_000), 9_386);
}

#[test]
fn level_63_against_skill_300() {
    let c = rogue();
    let s = configured(&c, 1);
    assert_eq!(s.mh.get_skill_delta(&c), Ok(15));
    assert_eq!(get_miss_chance_from_skill_delta(15), Ok(80_000));
    let w = s.mh.hit_table_white;
    assert_eq!(w.glancing_value - w.dodge_value, 400_000);
    assert_eq!(w.miss_value, 80_000 * 4 / 5 + 200_000 - 40_000);
    assert_eq!(s.modifiers.hit.glancing_mh, 650);
}

#[test]
fn eviscerate_five_points_hit() {
    assert_eq!(eviscerate_damage(5, Hit::Hit, 1000, 0), 85_100);
    assert_eq!(eviscerate_damage(5, Hit::Crit, 1000, 0), 85_100);
    assert_eq!(eviscerate_damage(5, Hit::Crit, 1000, 1000), 170_200);
    assert_eq!(eviscerate_damage(1, Hit::Hit, 1000, 0), 24_700);
    assert_eq!(eviscerate_damage(5, Hit::Miss, 1000, 0), 0);
}

#[test]
fn pooling_cooldown_not_usable_above_threshold() {
    let c = CooldownState {
        cost: 25,
        cd: 120_000,
        cd_left: 0,
        time_left: 0,
        effect: CooldownEffect::InstantEnergyRefill(40),
        is_active: false,
        use_below_energy: 50,
    };
    assert!(!c.is_usable(80, 0));
    assert!(c.is_usable(40, 0));
    assert!(!c.is_usable(40, 500));
    assert!(!c.is_usable(20, 0));
}

#[test]
fn no_procs_trigger_changes_nothing() {
    let c = rogue();
    let mut s = configured(&c, 9);
    assert_eq!(s.mh.hit_proccs.len(), 0);
    let before = s.get_stats();
    let dice = s.dice;
    let timers = s.timekeep.timers;
    s.trigger_hit_procc_mh();
    s.trigger_hit_procc_oh();
    let after = s.get_stats();
    assert_eq!(after.mh_procs, before.mh_procs);
    assert_eq!(after.proc_damage, before.proc_damage);
    assert_eq!(s.dice, dice);
    assert_eq!(s.timekeep.timers, timers);
    assert_eq!(s.extra_attacks, 0);
}

#[test]
fn configuration_errors() {
    let mut c = rogue();
    c.mh.weapon_type = WeaponType::Mace;
    assert_eq!(configure_error(&c, 63), ConfigError::UnknownWeaponType);
    assert_eq!(configure_error(&rogue(), 0), ConfigError::ZeroTargetLevel);
    assert_eq!(configure_error(&rogue(), 64), ConfigError::SkillDeltaOutOfRange(20));
    let mut c = rogue();
    c.prim_stats.dagger_skill = 320;
    assert_eq!(configure_error(&c, 64), ConfigError::TargetLevelOutOfRange(64));
    let mut c = rogue();
    c.talents.relentless_strikes = 2;
    assert_eq!(configure_error(&c, 63), ConfigError::IllegalTalentPoints);
    let mut c = rogue();
    c.talents.sword_specialization = 1;
    assert_eq!(configure_error(&c, 63), ConfigError::UnimplementedTalent);
    let mut c = rogue();
    c.sec_stats.haste = -1;
    assert_eq!(configure_error(&c, 63), ConfigError::SlowingMultiplier);
    let mut c = rogue();
    c.mh.mean_dmg = 2_000_000_000_000;
    assert_eq!(configure_error(&c, 63), ConfigError::DamageOutOfRange);
    let mut c = rogue();
    c.cooldowns.push(Cooldown {
        name: "Slow".to_string(),
        cost: 0,
        cd: 1_000,
        effect: CooldownEffect::AttackSpeedMultiplier(900_000, 1_000),
        use_below_energy: 100,
    });
    assert_eq!(configure_error(&c, 63), ConfigError::SlowingMultiplier);
    assert_eq!(
        get_glancing_red_factor_from_skill_delta(-301),
        Err(ConfigError::SkillDeltaOutOfRange(-301))
    );
}

#[test]
fn dice_follow_the_chacha_stream() {
    let mut rng = rand_chacha::ChaCha8Rng::seed_from_u64(7);
    rng.set_word_pos(3);
    let word = rng.next_u32();
    let mut d = Dice { seed: 7, pos: 3 };
    assert_eq!(d.roll(), die_from_word(word));
    assert_eq!(d.pos, 4);
    assert_eq!(die_from_word(0), 0);
    assert_eq!(die_from_word(u32::MAX), 999_999);
    assert_eq!(die_from_word(1 << 31), 500_000);
}

#[test]
fn stat_shift_labels_and_values() {
    let shifts = StatShift::new(true, 1);
    assert_eq!(shifts.len(), 11);
    assert_eq!(shifts[0].text, "Base dps:\t");
    assert_eq!(shifts[1].text, "\n-10 agility:\t");
    assert_eq!(shifts[2].text, "+10 agility:\t");
    assert_eq!(shifts[4].text, "+10 strength:\t");
    assert_eq!(shifts[5].text, "\n-0.01 crit:\t");
    assert_eq!(shifts[6].sec_stats.crit, 10_000);
    assert_eq!(shifts[8].text, "+0.01 hit:\t");
    assert_eq!(shifts[10].text, "+1 dagger skill:\t");
    assert_eq!(shifts[9].prim_stats.dagger_skill, -1);
    assert_eq!(StatShift::new(false, 1).len(), 1);
    assert_eq!(StatShift::get_hit_object_from_sign(rogue_sim::weights::Sign::Positive, 150).text, "+1.5 hit:\t");
    assert_eq!(StatShift::get_crit_object_from_sign(rogue_sim::weights::Sign::Positive, 205).text, "+2.05 crit:\t");
}

#[test]
fn talents_shape_modifiers_and_tables() {
    let c = rogue_with_extras();
    let s = configured(&c, 5);
    assert_eq!(s.modifiers.hit.eviscerate, 1150 * 1060 / 1000);
    assert_eq!(s.modifiers.hit.backstab, 1200);
    assert_eq!(s.modifiers.hit.oh, 750);
    assert_eq!(s.modifiers.crit.backstab, 1300);
    assert_eq!(s.modifiers.finisher.restore_energy_chance_per_combo_point, 200_000);
    assert_eq!(s.modifiers.finisher.add_combo_point_chance, 600_000);
    assert_eq!(s.modifiers.general.slice_and_dice_duration_modifier, 1450);
    assert_eq!(s.ability_costs.sinister_strike, 40);
    let y = s.mh.hit_table_yellow;
    let b = s.mh.hit_table_backstab;
    assert_eq!(b.crit_value - y.crit_value, 300_000);
    assert_eq!(s.rotation, Rotation::BackstabEvis);
    assert_eq!(s.mh.hit_proccs.len(), 3);
    assert_eq!(s.oh.hit_proccs.len(), 1);
    assert_eq!(s.mh.mean_white_dmg, 6_050 + 1_800 * 1_000 / 140 + 200);
    assert_eq!(s.mh.mean_yellow_dmg, 6_050 + 1_700 * 1_000 / 140 + 200);
}

#[test]
fn energy_tick_gives_twenty_or_twenty_one() {
    let mut s = configured(&rogue(), 11);
    s.energy = 0;
    s.refill_energy();
    assert!(s.energy == 20 || s.energy == 21);
    s.energy = 95;
    s.refill_energy();
    assert_eq!(s.energy, 100);
}

#[test]
fn rotation_choices() {
    let costs = AbilityCosts::new();
    assert_eq!(backstab_evis_choice(2, 30, false, &costs), Action::SliceAndDice);
    assert_eq!(backstab_evis_choice(2, 60, true, &costs), Action::Backstab);
    assert_eq!(backstab_evis_choice(4, 59, true, &costs), Action::Nothing);
    assert_eq!(backstab_evis_choice(5, 30, false, &costs), Action::SliceAndDice);
    assert_eq!(backstab_evis_choice(5, 35, true, &costs), Action::Eviscerate);
    assert_eq!(backstab_evis_choice(5, 34, true, &costs), Action::Nothing);
}

#[test]
fn clock_takes_largest_safe_step() {
    let mut t = Timers::new();
    t.energy_refill = 700;
    t.mh_swing = 300;
    t.oh_swing = 900;
    t.global_cd = 100;
    t.glob_cd_previously_available = false;
    assert_eq!(t.get_max_time_step(), 100);
    assert!(!t.glob_cd_previously_available);
    t.global_cd = 0;
    t.mh_swing = 0;
    assert_eq!(t.get_max_time_step(), 10);
    assert!(t.glob_cd_previously_available);
    t.energy_refill = 50_000;
    t.mh_swing = 50_000;
    t.oh_swing = 50_000;
    assert_eq!(t.get_max_time_step(), 10_000);
    t.advance(10_000);
    assert_eq!(t.energy_refill, 40_000);
    assert_eq!(t.global_cd, 0);
}

#[test]
fn revert_takes_out_the_last_occurrence() {
    let mut m = MultiplierStack::new();
    m.apply(1_300_000);
    m.apply(1_200_000);
    m.apply(1_300_000);
    m.revert(1_300_000);
    assert_eq!(*m.factors(), vec![1_300_000, 1_200_000]);
    m.revert(2_000_000);
    assert_eq!(*m.factors(), vec![1_300_000, 1_200_000]);
    assert_eq!(m.scale_down(2_600), 1_666);
    let mut regen = MultiplierStack::new();
    regen.apply(2);
    assert_eq!(regen.scale_up_capped(21, 100), 42);
    assert_eq!(regen.scale_up_capped(60, 100), 100);
}

#[test]
fn ability_damage_formulas() {
    assert_eq!(backstab_damage(10_000, Hit::Hit, 1000, 1000), 36_000);
    assert_eq!(backstab_damage(10_000, Hit::Crit, 1000, 1000), 72_000);
    assert_eq!(backstab_damage(10_000, Hit::Dodge, 1000, 1000), 0);
    assert_eq!(white_damage(10_000, Hit::Glancing, 500, 650), 3_250);
    assert_eq!(white_damage(10_000, Hit::Crit, 1000, 650), 20_000);
    assert_eq!(snd_duration(5, 1450), 30_450);
    assert_eq!(snd_duration(0, 1450), 0);
}

#[test]
fn hit_labels() {
    assert_eq!(Hit::Glancing.label(), "Glancing");
    assert!(Hit::Crit.lands());
    assert!(!Hit::Dodge.lands());
}

#[test]
fn queued_extra_swings_resolve() {
    let mut s = configured(&rogue(), 13);
    s.extra_attacks = 3;
    s.do_extra_attacks();
    assert_eq!(s.extra_attacks, 0);
    assert_eq!(s.get_stats().mh_white.count(), 3);
    s.do_extra_attacks();
    assert_eq!(s.get_stats().mh_white.count(), 3);
}

#[test]
fn pooling_cooldown_waits_for_low_energy() {
    let c = rogue_with_extras();
    let mut s = configured(&c, 17);
    s.energy = 80;
    s.use_cd_by_nr(2);
    assert_eq!(s.energy, 80);
    assert_eq!(s.cooldowns[2].cd_left, 0);
    s.energy = 10;
    s.use_cd_by_nr(2);
    assert_eq!(s.energy, 110);
    assert_eq!(s.cooldowns[2].cd_left, 300_000);
    assert!(s.cd_by_nr_lacks_prerequisite(2));
}

#[test]
fn event_log_agrees_with_stats() {
    let c = rogue_with_extras();
    let mut s = configured(&c, 21);
    s.simulate();
    assert!(s.events.is_empty());
    s.set_event_logging(true);
    s.simulate();
    let stats = s.get_stats();
    let mh = s
        .events
        .iter()
        .filter(|e| matches!(e.event, Event::Strike { attack: Attack::MhWhite, .. }))
        .count() as u64;
    assert_eq!(mh, stats.mh_white.count());
    let procs = s.events.iter().filter(|e| matches!(e.event, Event::Proc { .. })).count() as u64;
    let counted: u64 = stats.mh_procs.iter().sum::<u64>() + stats.oh_procs.iter().sum::<u64>();
    assert_eq!(procs, counted);
    assert!(s.events.iter().all(|e| e.time_left <= 120_000));
}

#[test]
fn white_miss_never_below_zero() {
    let w = WhiteHitTable::from_ratings(0, 500_000, 100_000, 60).unwrap();
    assert_eq!(w.miss_value, 0);
    assert_eq!(w.dodge_value, 50_000);
    assert_eq!(w.glancing_value, 150_000);
    assert_eq!(w.crit_value, 250_000);
}

#[test]
fn yellow_table_refuses_levels_outside_band() {
    assert_eq!(
        YellowHitTable::from_ratings(0, 0, 850_000, 1),
        Err(ConfigError::TargetLevelOutOfRange(1))
    );
    assert_eq!(
        YellowHitTable::from_ratings(0, 0, 100_000, 64),
        Err(ConfigError::TargetLevelOutOfRange(64))
    );
    assert!(YellowHitTable::from_ratings(0, 0, 100_000, 60).is_ok());
    let mut c = rogue();
    c.prim_stats.dagger_skill = 290;
    assert_eq!(configure_error(&c, 59), ConfigError::TargetLevelOutOfRange(59));
}

#[test]
fn unmodelled_talents_refused() {
    let mut c = rogue();
    c.talents.malice = 1;
    assert_eq!(configure_error(&c, 63), ConfigError::UnimplementedTalent);
    let mut c = rogue();
    c.talents.precision = 3;
    assert_eq!(configure_error(&c, 63), ConfigError::UnimplementedTalent);
}

#[test]
fn extra_attack_proc_queues_a_swing() {
    let mut s = configured(&rogue_with_extras(), 5);
    s.timekeep.timers.mh_swing = 7;
    s.roll_for_procc(ProcRoll::ExtraAttack { proc_chance: 1_000_000 }, true, 0);
    assert_eq!(s.extra_attacks, 1);
    assert_eq!(s.timekeep.timers.mh_swing, 1_800);
    s.timekeep.timers.mh_swing = 7;
    s.roll_for_procc(ProcRoll::Strength { proc_chance: 1_000_000 }, true, 0);
    assert_eq!(s.extra_attacks, 1);
    assert_eq!(s.timekeep.timers.mh_swing, 7);
}
