use vstd::prelude::*;
use crate::hit_table::Hit;
use crate::weapon::MAX_MEAN_DAMAGE;

verus! {

/// The largest permille modifier that a configured character carries.
pub const MAX_MODIFIER: u32 = 10_000;

/// Base eviscerate damage in hundredths for 1 to 5 combo points: 247, 398,
/// 549, 700 and 851 points.
pub open spec fn eviscerate_base_spec(combo_points: int) -> int {
    24_700 + 15_100 * (combo_points - 1)
}

/// `d` scaled by a permille modifier, rounding down.
pub open spec fn permille(d: int, m: int) -> int {
    d * m / 1000
}

/// Damage of a finisher or special attack before armor: nothing unless it
/// lands; scaled by the hit modifier, and by one plus the crit modifier on a
/// crit.
pub open spec fn special_damage_spec(base: int, hit: Hit, hit_mod: int, crit_mod: int) -> int {
    if hit == Hit::Hit || hit == Hit::Crit {
        let d = permille(base, hit_mod);
        if hit == Hit::Crit { d + permille(d, crit_mod) } else { d }
    } else {
        0
    }
}

/// Backstab's base: one and a half mean special-attack damage plus 210
/// points.
pub open spec fn backstab_base_spec(mean_yellow: int) -> int {
    mean_yellow * 3 / 2 + 21_000
}

/// Autoattack damage before armor: the hand's share of the mean damage,
/// reduced on a glancing blow and doubled on a crit; nothing on a miss or
/// dodge.
pub open spec fn white_damage_spec(mean: int, hit: Hit, hand_mod: int, glancing_mod: int) -> int {
    let d = permille(mean, hand_mod);
    match hit {
        Hit::Hit => d,
        Hit::Crit => d * 2,
        Hit::Glancing => permille(d, glancing_mod),
        _ => 0,
    }
}

/// Slice and dice duration in ms for 0 to 5 combo points, before its
/// modifier: 0, 9, 12, 15, 18 and 21 seconds.
pub open spec fn snd_base_spec(combo_points: int) -> int {
    if combo_points == 0 { 0 } else { 6_000 + 3_000 * combo_points }
}

proof fn lemma_permille_bounds(d: int, m: int)
    requires
        0 <= d,
        0 <= m <= MAX_MODIFIER,
    ensures
        0 <= permille(d, m) <= d * 10,
        d * m <= d * 10_000,
{
    assert(d * m <= d * 10_000) by (nonlinear_arith)
        requires 0 <= d, 0 <= m <= 10_000;
    assert(0 <= d * m / 1000 <= d * 10) by (nonlinear_arith)
        requires 0 <= d, 0 <= m, d * m <= d * 10_000;
}

/// Eviscerate's base damage for 1 to 5 combo points, in hundredths.
pub fn eviscerate_base(combo_points: u32) -> (r: u64)
    requires
        1 <= combo_points <= 5,
    ensures
        r == eviscerate_base_spec(combo_points as int),
{
    if combo_points == 1 {
        24_700
    } else if combo_points == 2 {
        39_800
    } else if combo_points == 3 {
        54_900
    } else if combo_points == 4 {
        70_000
    } else {
        85_100
    }
}

/// Damage of a landing special attack from its base, before armor.
pub fn special_damage(base: u64, hit: Hit, hit_mod: u32, crit_mod: u32) -> (r: u64)
    requires
        base <= 2 * MAX_MEAN_DAMAGE,
        hit_mod <= MAX_MODIFIER,
        crit_mod <= MAX_MODIFIER,
    ensures
        r == special_damage_spec(base as int, hit, hit_mod as int, crit_mod as int),
        r <= 220 * MAX_MEAN_DAMAGE,
{
    if hit == Hit::Hit || hit == Hit::Crit {
        proof {
            lemma_permille_bounds(base as int, hit_mod as int);
            lemma_permille_bounds(permille(base as int, hit_mod as int), crit_mod as int);
        }
        let d = base * (hit_mod as u64) / 1000;
        if hit == Hit::Crit {
            d + d * (crit_mod as u64) / 1000
        } else {
            d
        }
    } else {
        0
    }
}

/// Eviscerate's damage before armor.
pub fn eviscerate_damage(combo_points: u32, hit: Hit, hit_mod: u32, crit_mod: u32) -> (r: u64)
    requires
        1 <= combo_points <= 5,
        hit_mod <= MAX_MODIFIER,
        crit_mod <= MAX_MODIFIER,
    ensures
        r == special_damage_spec(
            eviscerate_base_spec(combo_points as int),
            hit,
            hit_mod as int,
            crit_mod as int,
        ),
        r <= 220 * MAX_MEAN_DAMAGE,
{
    special_damage(eviscerate_base(combo_points), hit, hit_mod, crit_mod)
}

/// Backstab's damage before armor.
pub fn backstab_damage(mean_yellow: u64, hit: Hit, hit_mod: u32, crit_mod: u32) -> (r: u64)
    requires
        mean_yellow <= MAX_MEAN_DAMAGE,
        hit_mod <= MAX_MODIFIER,
        crit_mod <= MAX_MODIFIER,
    ensures
        r == special_damage_spec(
            backstab_base_spec(mean_yellow as int),
            hit,
            hit_mod as int,
            crit_mod as int,
        ),
        r <= 220 * MAX_MEAN_DAMAGE,
{
    special_damage(mean_yellow * 3 / 2 + 21_000, hit, hit_mod, crit_mod)
}

/// An autoattack's damage before armor.
pub fn white_damage(mean: u64, hit: Hit, hand_mod: u32, glancing_mod: u32) -> (r: u64)
    requires
        mean <= MAX_MEAN_DAMAGE,
        hand_mod <= MAX_MODIFIER,
        glancing_mod <= MAX_MODIFIER,
    ensures
        r == white_damage_spec(mean as int, hit, hand_mod as int, glancing_mod as int),
        r <= 100 * MAX_MEAN_DAMAGE,
{
    proof {
        lemma_permille_bounds(mean as int, hand_mod as int);
        lemma_permille_bounds(permille(mean as int, hand_mod as int), glancing_mod as int);
    }
    let d = mean * (hand_mod as u64) / 1000;
    match hit {
        Hit::Hit => d,
        Hit::Crit => d * 2,
        Hit::Glancing => d * (glancing_mod as u64) / 1000,
        _ => 0,
    }
}

/// Slice and dice duration in ms for 0 to 5 combo points, scaled by a
/// permille modifier.
pub fn snd_duration(combo_points: u32, modifier: u32) -> (r: i64)
    requires
        combo_points <= 5,
        modifier <= MAX_MODIFIER,
    ensures
        r == permille(snd_base_spec(combo_points as int), modifier as int),
        0 <= r <= 210_000,
{
    let base: i64 = if combo_points == 0 {
        0
    } else {
        6_000 + 3_000 * combo_points as i64
    };
    proof {
        lemma_permille_bounds(base as int, modifier as int);
    }
    base * (modifier as i64) / 1000
}

} // verus!
