use vstd::prelude::*;
use crate::character::{PrimStats, SecStats};

verus! {

/// Which way a stat is shifted.
#[derive(Clone, Copy, Debug, PartialEq, Eq, Structural)]
pub enum Sign {
    Positive,
    Negative,
}

/// A variant of the character with one stat shifted, and its label.
#[derive(Debug)]
pub struct StatShift {
    pub text: String,
    pub prim_stats: PrimStats,
    pub sec_stats: SecStats,
}

/// The character of a decimal digit.
pub open spec fn digit_char(d: nat) -> char {
    if d == 0 {
        '0'
    } else if d == 1 {
        '1'
    } else if d == 2 {
        '2'
    } else if d == 3 {
        '3'
    } else if d == 4 {
        '4'
    } else if d == 5 {
        '5'
    } else if d == 6 {
        '6'
    } else if d == 7 {
        '7'
    } else if d == 8 {
        '8'
    } else {
        '9'
    }
}

/// The decimal digits of `n`, without leading zeros.
pub open spec fn decimal(n: nat) -> Seq<char>
    decreases n,
{
    if n < 10 {
        seq![digit_char(n)]
    } else {
        decimal(n / 10) + seq![digit_char(n % 10)]
    }
}

/// `n` with an explicit sign: `+` for zero and above.
pub open spec fn signed_decimal(v: int) -> Seq<char> {
    if v >= 0 {
        seq!['+'] + decimal(v as nat)
    } else {
        seq!['-'] + decimal((-v) as nat)
    }
}

/// `n` hundredths as a decimal number, without trailing zeros.
pub open spec fn hundredths(n: nat) -> Seq<char> {
    let whole = decimal(n / 100);
    let tenths = (n % 100) / 10;
    let rest = n % 10;
    if n % 100 == 0 {
        whole
    } else if rest == 0 {
        whole + seq!['.', digit_char(tenths)]
    } else {
        whole + seq!['.', digit_char(tenths), digit_char(rest)]
    }
}

/// `v` hundredths with an explicit sign.
pub open spec fn signed_hundredths(v: int) -> Seq<char> {
    if v >= 0 {
        seq!['+'] + hundredths(v as nat)
    } else {
        seq!['-'] + hundredths((-v) as nat)
    }
}

/// The label of a shift of `value` in `stat`: a negative shift starts a new
/// line.
pub open spec fn shift_label(sign: Sign, value: Seq<char>, stat: Seq<char>) -> Seq<char> {
    let body = value + seq![' '] + stat + seq![':', '\t'];
    if sign == Sign::Negative { seq!['\n'] + body } else { body }
}

/// Appends one decimal digit.
fn push_digit(s: &mut String, d: u64)
    requires
        d < 10,
    ensures
        final(s)@ == old(s)@ + seq![digit_char(d as nat)],
{
    proof {
        reveal_strlit("0");
        reveal_strlit("1");
        reveal_strlit("2");
        reveal_strlit("3");
        reveal_strlit("4");
        reveal_strlit("5");
        reveal_strlit("6");
        reveal_strlit("7");
        reveal_strlit("8");
        reveal_strlit("9");
    }
    let t = if d == 0 {
        "0"
    } else if d == 1 {
        "1"
    } else if d == 2 {
        "2"
    } else if d == 3 {
        "3"
    } else if d == 4 {
        "4"
    } else if d == 5 {
        "5"
    } else if d == 6 {
        "6"
    } else if d == 7 {
        "7"
    } else if d == 8 {
        "8"
    } else {
        "9"
    };
    s.append(t);
}

/// Appends the decimal digits of `n`.
fn push_decimal(s: &mut String, n: u64)
    ensures
        final(s)@ == old(s)@ + decimal(n as nat),
    decreases n,
{
    if n >= 10 {
        push_decimal(s, n / 10);
        push_digit(s, n % 10);
        proof {
            assert(final(s)@ =~= old(s)@ + decimal(n as nat));
        }
    } else {
        push_digit(s, n);
    }
}

/// Appends `c` with an explicit sign.
fn push_sign(s: &mut String, negative: bool)
    ensures
        final(s)@ == old(s)@ + if negative { seq!['-'] } else { seq!['+'] },
{
    proof {
        reveal_strlit("-");
        reveal_strlit("+");
    }
    if negative {
        s.append("-");
    } else {
        s.append("+");
    }
}

/// `v` with an explicit sign.
pub fn signed_text(v: i64) -> (r: String)
    ensures
        r@ == signed_decimal(v as int),
{
    proof {
        reveal_strlit("");
    }
    let mut s = String::from_str("");
    push_sign(&mut s, v < 0);
    let m: u64 = if v >= 0 { v as u64 } else { (-(v as i128)) as u64 };
    push_decimal(&mut s, m);
    proof {
        assert(s@ =~= signed_decimal(v as int));
    }
    s
}

/// `v` hundredths with an explicit sign.
pub fn signed_hundredths_text(v: i64) -> (r: String)
    ensures
        r@ == signed_hundredths(v as int),
{
    proof {
        reveal_strlit("");
        reveal_strlit(".");
    }
    let mut s = String::from_str("");
    push_sign(&mut s, v < 0);
    let m: u64 = if v >= 0 { v as u64 } else { (-(v as i128)) as u64 };
    push_decimal(&mut s, m / 100);
    if m % 100 != 0 {
        s.append(".");
        push_digit(&mut s, (m % 100) / 10);
        if m % 10 != 0 {
            push_digit(&mut s, m % 10);
        }
    }
    proof {
        assert(s@ =~= signed_hundredths(v as int));
    }
    s
}

/// The label of a shift: the signed value, the stat's name, a colon and a
/// tab, on a new line for a negative shift.
pub fn label(sign: Sign, value: String, stat: &str) -> (r: String)
    ensures
        r@ == shift_label(sign, value@, stat@),
{
    proof {
        reveal_strlit("");
        reveal_strlit("\n");
        reveal_strlit(" ");
        reveal_strlit(":\t");
    }
    let mut s = String::from_str("");
    if sign == Sign::Negative {
        s.append("\n");
    }
    s.append(value.as_str());
    s.append(" ");
    s.append(stat);
    s.append(":\t");
    proof {
        assert(s@ =~= shift_label(sign, value@, stat@));
    }
    s
}

/// A shift of `magnitude` with the given sign.
pub open spec fn signed(sign: Sign, magnitude: int) -> int {
    if sign == Sign::Positive { magnitude } else { -magnitude }
}

/// The sign of entry `k` of the shift list: odd entries lower a stat, even
/// ones raise it.
pub open spec fn entry_sign(k: int) -> Sign {
    if k % 2 == 1 { Sign::Negative } else { Sign::Positive }
}

/// Entry `k`, from 1 to 10, of the shift list for weight step `w`: only its
/// own stat differs from zero, and its label names that stat.
pub open spec fn entry_ok(e: StatShift, k: int, w: int) -> bool {
    let sign = entry_sign(k);
    let zp = PrimStats { agility: 0, strength: 0, dagger_skill: 0, sword_skill: 0 };
    let zs = SecStats { attack_power: 0, hit: 0, crit: 0, haste: 0 };
    if k == 1 || k == 2 {
        &&& e.prim_stats == (PrimStats { agility: signed(sign, 10 * w) as i32, ..zp })
        &&& e.sec_stats == zs
        &&& e.text@ == shift_label(sign, signed_decimal(signed(sign, 10 * w)), "agility"@)
    } else if k == 3 || k == 4 {
        &&& e.prim_stats == (PrimStats { strength: signed(sign, 10 * w) as i32, ..zp })
        &&& e.sec_stats == zs
        &&& e.text@ == shift_label(sign, signed_decimal(signed(sign, 10 * w)), "strength"@)
    } else if k == 5 || k == 6 {
        &&& e.prim_stats == zp
        &&& e.sec_stats == (SecStats { crit: signed(sign, 10_000 * w) as i32, ..zs })
        &&& e.text@ == shift_label(sign, signed_hundredths(signed(sign, w)), "crit"@)
    } else if k == 7 || k == 8 {
        &&& e.prim_stats == zp
        &&& e.sec_stats == (SecStats { hit: signed(sign, 10_000 * w) as i32, ..zs })
        &&& e.text@ == shift_label(sign, signed_hundredths(signed(sign, w)), "hit"@)
    } else {
        &&& e.prim_stats == (PrimStats { dagger_skill: signed(sign, w) as i32, ..zp })
        &&& e.sec_stats == zs
        &&& e.text@ == shift_label(sign, signed_decimal(signed(sign, w)), "dagger skill"@)
    }
}

impl StatShift {
    /// The unshifted character.
    pub fn get_zero_object() -> (r: StatShift)
        ensures
            r.text@ == "Base dps:\t"@,
            r.prim_stats == (PrimStats { agility: 0, strength: 0, dagger_skill: 0, sword_skill: 0 }),
            r.sec_stats == (SecStats { attack_power: 0, hit: 0, crit: 0, haste: 0 }),
    {
        StatShift {
            text: String::from_str("Base dps:\t"),
            prim_stats: PrimStats::zero(),
            sec_stats: SecStats::zero(),
        }
    }

    /// Agility shifted by ten points per weight step.
    pub fn get_agility_object_from_sign(sign: Sign, weight_mult: i32) -> (r: StatShift)
        requires
            -200_000 <= weight_mult <= 200_000,
        ensures
            r.prim_stats == (PrimStats {
                agility: signed(sign, 10 * weight_mult) as i32,
                strength: 0,
                dagger_skill: 0,
                sword_skill: 0,
            }),
            r.sec_stats == (SecStats { attack_power: 0, hit: 0, crit: 0, haste: 0 }),
            r.text@ == shift_label(sign, signed_decimal(signed(sign, 10 * weight_mult)), "agility"@),
    {
        let mut obj = StatShift::get_zero_object();
        assert(-2_000_000 <= 10 * weight_mult <= 2_000_000);
        let value: i32 = if sign == Sign::Positive { 10 * weight_mult } else { -(10 * weight_mult) };
        obj.text = label(sign, signed_text(value as i64), "agility");
        obj.prim_stats.agility = value;
        obj
    }

    /// Strength shifted by ten points per weight step.
    pub fn get_strength_object_from_sign(sign: Sign, weight_mult: i32) -> (r: StatShift)
        requires
            -200_000 <= weight_mult <= 200_000,
        ensures
            r.prim_stats == (PrimStats {
                agility: 0,
                strength: signed(sign, 10 * weight_mult) as i32,
                dagger_skill: 0,
                sword_skill: 0,
            }),
            r.sec_stats == (SecStats { attack_power: 0, hit: 0, crit: 0, haste: 0 }),
            r.text@ == shift_label(sign, signed_decimal(signed(sign, 10 * weight_mult)), "strength"@),
    {
        let mut obj = StatShift::get_zero_object();
        assert(-2_000_000 <= 10 * weight_mult <= 2_000_000);
        let value: i32 = if sign == Sign::Positive { 10 * weight_mult } else { -(10 * weight_mult) };
        obj.text = label(sign, signed_text(value as i64), "strength");
        obj.prim_stats.strength = value;
        obj
    }

    /// Hit shifted by one percent per weight step.
    pub fn get_hit_object_from_sign(sign: Sign, weight_mult: i32) -> (r: StatShift)
        requires
            -200_000 <= weight_mult <= 200_000,
        ensures
            r.prim_stats == (PrimStats { agility: 0, strength: 0, dagger_skill: 0, sword_skill: 0 }),
            r.sec_stats == (SecStats {
                attack_power: 0,
                hit: signed(sign, 10_000 * weight_mult) as i32,
                crit: 0,
                haste: 0,
            }),
            r.text@ == shift_label(sign, signed_hundredths(signed(sign, weight_mult as int)), "hit"@),
    {
        let mut obj = StatShift::get_zero_object();
        let steps: i32 = if sign == Sign::Positive { weight_mult } else { -weight_mult };
        obj.text = label(sign, signed_hundredths_text(steps as i64), "hit");
        obj.sec_stats.hit = 10_000 * steps;
        obj
    }

    /// Crit shifted by one percent per weight step.
    pub fn get_crit_object_from_sign(sign: Sign, weight_mult: i32) -> (r: StatShift)
        requires
            -200_000 <= weight_mult <= 200_000,
        ensures
            r.prim_stats == (PrimStats { agility: 0, strength: 0, dagger_skill: 0, sword_skill: 0 }),
            r.sec_stats == (SecStats {
                attack_power: 0,
                hit: 0,
                crit: signed(sign, 10_000 * weight_mult) as i32,
                haste: 0,
            }),
            r.text@ == shift_label(sign, signed_hundredths(signed(sign, weight_mult as int)), "crit"@),
    {
        let mut obj = StatShift::get_zero_object();
        let steps: i32 = if sign == Sign::Positive { weight_mult } else { -weight_mult };
        obj.text = label(sign, signed_hundredths_text(steps as i64), "crit");
        obj.sec_stats.crit = 10_000 * steps;
        obj
    }

    /// Dagger skill shifted by one point per weight step.
    pub fn get_dagger_skill_object_from_sign(sign: Sign, weight_mult: i32) -> (r: StatShift)
        requires
            -200_000 <= weight_mult <= 200_000,
        ensures
            r.prim_stats == (PrimStats {
                agility: 0,
                strength: 0,
                dagger_skill: signed(sign, weight_mult as int) as i32,
                sword_skill: 0,
            }),
            r.sec_stats == (SecStats { attack_power: 0, hit: 0, crit: 0, haste: 0 }),
            r.text@ == shift_label(sign, signed_decimal(signed(sign, weight_mult as int)), "dagger skill"@),
    {
        let mut obj = StatShift::get_zero_object();
        let value: i32 = if sign == Sign::Positive { weight_mult } else { -weight_mult };
        obj.text = label(sign, signed_text(value as i64), "dagger skill");
        obj.prim_stats.dagger_skill = value;
        obj
    }

    /// The shifts to simulate: the unshifted character, and with `weights`
    /// a lower and a higher value of agility, strength, crit, hit and dagger
    /// skill, in that order.
    pub fn new(weights: bool, weight_mult: i32) -> (r: Vec<StatShift>)
        requires
            -200_000 <= weight_mult <= 200_000,
        ensures
            r@.len() == if weights { 11int } else { 1int },
            r@[0].text@ == "Base dps:\t"@,
            r@[0].prim_stats == (PrimStats { agility: 0, strength: 0, dagger_skill: 0, sword_skill: 0 }),
            r@[0].sec_stats == (SecStats { attack_power: 0, hit: 0, crit: 0, haste: 0 }),
            weights ==> {
                let w = weight_mult as int;
                &&& entry_ok(r@[1], 1, w)
                &&& entry_ok(r@[2], 2, w)
                &&& entry_ok(r@[3], 3, w)
                &&& entry_ok(r@[4], 4, w)
                &&& entry_ok(r@[5], 5, w)
                &&& entry_ok(r@[6], 6, w)
                &&& entry_ok(r@[7], 7, w)
                &&& entry_ok(r@[8], 8, w)
                &&& entry_ok(r@[9], 9, w)
                &&& entry_ok(r@[10], 10, w)
            },
    {
        let mut v: Vec<StatShift> = Vec::new();
        v.push(StatShift::get_zero_object());
        if weights {
            v.push(StatShift::get_agility_object_from_sign(Sign::Negative, weight_mult));
            v.push(StatShift::get_agility_object_from_sign(Sign::Positive, weight_mult));
            v.push(StatShift::get_strength_object_from_sign(Sign::Negative, weight_mult));
            v.push(StatShift::get_strength_object_from_sign(Sign::Positive, weight_mult));
            v.push(StatShift::get_crit_object_from_sign(Sign::Negative, weight_mult));
            v.push(StatShift::get_crit_object_from_sign(Sign::Positive, weight_mult));
            v.push(StatShift::get_hit_object_from_sign(Sign::Negative, weight_mult));
            v.push(StatShift::get_hit_object_from_sign(Sign::Positive, weight_mult));
            v.push(StatShift::get_dagger_skill_object_from_sign(Sign::Negative, weight_mult));
            v.push(StatShift::get_dagger_skill_object_from_sign(Sign::Positive, weight_mult));
        }
        v
    }
}

} // verus!
