use vstd::prelude::*;
use crate::error::ConfigError;

verus! {

/// One million: the unit of every chance and of every die roll.
pub const PPM: i64 = 1_000_000;

/// The outcome of one attack.
#[derive(Clone, Copy, Debug, PartialEq, Eq, Structural)]
pub enum Hit {
    Hit,
    Crit,
    Miss,
    Glancing,
    Dodge,
}

impl Hit {
    /// The outcome's name, as a log line shows it.
    pub fn label(self) -> (r: &'static str)
        ensures
            r@ == hit_label(self),
    {
        match self {
            Hit::Hit => "Hit",
            Hit::Crit => "Crit",
            Hit::Miss => "Miss",
            Hit::Glancing => "Glancing",
            Hit::Dodge => "Dodge",
        }
    }

    /// An outcome that lands: anything but a miss or a dodge.
    pub fn lands(self) -> (r: bool)
        ensures
            r == (self != Hit::Miss && self != Hit::Dodge),
    {
        !matches!(self, Hit::Miss | Hit::Dodge)
    }
}

pub open spec fn hit_label(h: Hit) -> Seq<char> {
    match h {
        Hit::Hit => "Hit"@,
        Hit::Crit => "Crit"@,
        Hit::Miss => "Miss"@,
        Hit::Glancing => "Glancing"@,
        Hit::Dodge => "Dodge"@,
    }
}

/// Base miss chance against a defender whose skill exceeds the weapon skill
/// by `delta`; `None` beyond the modelled bands.
pub open spec fn miss_chance_spec(delta: int) -> Option<int> {
    if delta < 0 {
        Some(50_000)
    } else if delta <= 10 {
        Some(50_000 + 1_000 * delta)
    } else if delta <= 15 {
        Some(70_000 + 2_000 * (delta - 10))
    } else {
        None
    }
}

/// Hit rating after the penalty that applies past a skill delta of ten.
pub open spec fn effective_hit_spec(hit: int, delta: int) -> int {
    if delta > 10 {
        if hit - 10_000 > 0 { hit - 10_000 } else { 0 }
    } else {
        hit
    }
}

pub open spec fn dodge_chance_spec(delta: int) -> int {
    50_000 + 1_000 * delta
}

pub open spec fn glancing_chance_spec(level: int) -> int {
    100_000 + 100_000 * (level - 60)
}

/// Crit chance left against a target of `level`: one percent per level
/// above 60, and a further 1.8 percent at level 63.
pub open spec fn crit_chance_spec(crit: int, level: int) -> int {
    let c = if crit - 10_000 * (level - 60) > 0 { crit - 10_000 * (level - 60) } else { 0 };
    if level == 63 {
        if c - 18_000 > 0 { c - 18_000 } else { 0 }
    } else {
        c
    }
}

/// Thresholds of a special-attack table, each cumulative.
#[derive(Clone, Copy, Debug, PartialEq, Eq, Structural)]
pub struct YellowHitTable {
    pub miss_value: i64,
    pub dodge_value: i64,
    pub crit_value: i64,
}

/// Thresholds of an autoattack table, each cumulative.
#[derive(Clone, Copy, Debug, PartialEq, Eq, Structural)]
pub struct WhiteHitTable {
    pub miss_value: i64,
    pub dodge_value: i64,
    pub glancing_value: i64,
    pub crit_value: i64,
}

/// The yellow table for the given skill delta, hit and crit rating and
/// target level, when the skill delta has a miss chance.
pub open spec fn yellow_table_spec(delta: int, hit: int, crit: int, level: int) -> YellowHitTable
    recommends
        miss_chance_spec(delta) is Some,
{
    let base = miss_chance_spec(delta)->Some_0 - effective_hit_spec(hit, delta);
    let miss = if base > 0 { base } else { 0 };
    let dodge = miss + dodge_chance_spec(delta);
    YellowHitTable {
        miss_value: miss as i64,
        dodge_value: dodge as i64,
        crit_value: (dodge + crit_chance_spec(crit, level)) as i64,
    }
}

/// The white table: the base miss chance is scaled by 0.8 and raised by 20
/// percent for dual wielding; hit lowers it down to zero and no further.
pub open spec fn white_table_spec(delta: int, hit: int, crit: int, level: int) -> WhiteHitTable
    recommends
        miss_chance_spec(delta) is Some,
{
    let base = miss_chance_spec(delta)->Some_0 * 4 / 5 + 200_000 - effective_hit_spec(hit, delta);
    let miss = if base > 0 { base } else { 0 };
    let dodge = miss + dodge_chance_spec(delta);
    let glancing = dodge + glancing_chance_spec(level);
    WhiteHitTable {
        miss_value: miss as i64,
        dodge_value: dodge as i64,
        glancing_value: glancing as i64,
        crit_value: (glancing + crit_chance_spec(crit, level)) as i64,
    }
}

/// Every threshold of `t` lies within `b` of zero.
pub open spec fn yellow_within(t: YellowHitTable, b: int) -> bool {
    &&& -b <= t.miss_value <= b
    &&& -b <= t.dodge_value <= b
    &&& -b <= t.crit_value <= b
}

/// Every threshold of `t` lies within `b` of zero.
pub open spec fn white_within(t: WhiteHitTable, b: int) -> bool {
    &&& -b <= t.miss_value <= b
    &&& -b <= t.dodge_value <= b
    &&& -b <= t.glancing_value <= b
    &&& -b <= t.crit_value <= b
}

/// The first outcome, in the order miss, dodge, crit, whose threshold
/// exceeds the roll; a hit past them all.
pub open spec fn yellow_outcome(t: YellowHitTable, die: int) -> Hit {
    if die < t.miss_value {
        Hit::Miss
    } else if die < t.dodge_value {
        Hit::Dodge
    } else if die < t.crit_value {
        Hit::Crit
    } else {
        Hit::Hit
    }
}

/// As [`yellow_outcome`], with glancing blows between dodge and crit.
pub open spec fn white_outcome(t: WhiteHitTable, die: int) -> Hit {
    if die < t.miss_value {
        Hit::Miss
    } else if die < t.dodge_value {
        Hit::Dodge
    } else if die < t.glancing_value {
        Hit::Glancing
    } else if die < t.crit_value {
        Hit::Crit
    } else {
        Hit::Hit
    }
}

/// Base miss chance for a skill delta.
pub fn get_miss_chance_from_skill_delta(delta: i64) -> (r: Result<i64, ConfigError>)
    ensures
        match miss_chance_spec(delta as int) {
            Some(m) => r == Ok::<i64, ConfigError>(m as i64),
            None => r == Err::<i64, ConfigError>(ConfigError::SkillDeltaOutOfRange(delta)),
        },
{
    if delta < 0 {
        Ok(50_000)
    } else if delta <= 10 {
        Ok(50_000 + 1_000 * delta)
    } else if delta <= 15 {
        Ok(70_000 + 2_000 * (delta - 10))
    } else {
        Err(ConfigError::SkillDeltaOutOfRange(delta))
    }
}

/// Hit rating after the penalty past a skill delta of ten.
pub fn effective_hit_chance(hit: i32, delta: i64) -> (r: i64)
    ensures
        r == effective_hit_spec(hit as int, delta as int),
{
    if delta > 10 {
        if hit as i64 - 10_000 > 0 { hit as i64 - 10_000 } else { 0 }
    } else {
        hit as i64
    }
}

/// Crit chance against a target level.
pub fn crit_chance_against(crit: i32, level: i32) -> (r: i64)
    ensures
        r == crit_chance_spec(crit as int, level as int),
{
    let reduced = crit as i64 - 10_000 * (level as i64 - 60);
    let c: i64 = if reduced > 0 { reduced } else { 0 };
    if level == 63 {
        if c - 18_000 > 0 { c - 18_000 } else { 0 }
    } else {
        c
    }
}

impl YellowHitTable {
    /// A table whose every threshold is zero, so that each roll is a hit.
    pub fn new() -> (r: YellowHitTable)
        ensures
            r == (YellowHitTable { miss_value: 0, dodge_value: 0, crit_value: 0 }),
    {
        YellowHitTable { miss_value: 0, dodge_value: 0, crit_value: 0 }
    }

    /// Builds the table for a skill delta, hit and crit rating and a target
    /// level; a zero level, a delta past the bands or a level outside 60 to
    /// 63 is refused, in that order.
    pub fn from_ratings(delta: i64, hit: i32, crit: i32, level: i32) -> (r: Result<
        YellowHitTable,
        ConfigError,
    >)
        requires
            -100_000_000_000 <= delta <= 100_000_000_000,
        ensures
            level == 0 ==> r == Err::<YellowHitTable, ConfigError>(ConfigError::ZeroTargetLevel),
            level != 0 && miss_chance_spec(delta as int) is None ==> r == Err::<
                YellowHitTable,
                ConfigError,
            >(ConfigError::SkillDeltaOutOfRange(delta)),
            level != 0 && miss_chance_spec(delta as int) is Some && !(60 <= level <= 63) ==> r
                == Err::<YellowHitTable, ConfigError>(ConfigError::TargetLevelOutOfRange(level)),
            level != 0 && miss_chance_spec(delta as int) is Some && 60 <= level <= 63 ==> r == Ok::<
                YellowHitTable,
                ConfigError,
            >(yellow_table_spec(delta as int, hit as int, crit as int, level as int)),
            r is Ok ==> yellow_within(r->Ok_0, 200_000_000_000_000),
    {
        if level == 0 {
            return Err(ConfigError::ZeroTargetLevel);
        }
        let base = match get_miss_chance_from_skill_delta(delta) {
            Ok(m) => m,
            Err(e) => return Err(e),
        };
        if level < 60 || level > 63 {
            return Err(ConfigError::TargetLevelOutOfRange(level));
        }
        let hit_chance = effective_hit_chance(hit, delta);
        let missed = base - hit_chance;
        let miss: i64 = if missed > 0 { missed } else { 0 };
        let dodge = miss + (50_000 + 1_000 * delta);
        let crit_value = dodge + crit_chance_against(crit, level);
        Ok(YellowHitTable { miss_value: miss, dodge_value: dodge, crit_value })
    }

    /// The outcome for a roll in parts per million.
    pub fn roll_for_hit(&self, die: u32) -> (r: Hit)
        ensures
            r == yellow_outcome(*self, die as int),
    {
        let d = die as i64;
        if d < self.miss_value {
            Hit::Miss
        } else if d < self.dodge_value {
            Hit::Dodge
        } else if d < self.crit_value {
            Hit::Crit
        } else {
            Hit::Hit
        }
    }

    /// Raises the crit threshold alone, leaving miss and dodge as they are.
    pub fn add_crit(&mut self, crit: i64)
        requires
            i64::MIN <= old(self).crit_value + crit <= i64::MAX,
        ensures
            *final(self) == (YellowHitTable { crit_value: (old(self).crit_value + crit) as i64, ..*old(self) }),
    {
        self.crit_value = self.crit_value + crit;
    }
}

impl WhiteHitTable {
    /// A table whose every threshold is zero, so that each roll is a hit.
    pub fn new() -> (r: WhiteHitTable)
        ensures
            r == (WhiteHitTable { miss_value: 0, dodge_value: 0, glancing_value: 0, crit_value: 0 }),
    {
        WhiteHitTable { miss_value: 0, dodge_value: 0, glancing_value: 0, crit_value: 0 }
    }

    /// Builds the autoattack table; a zero level, a delta past the bands or
    /// a level outside 60 to 63 is refused, in that order.
    pub fn from_ratings(delta: i64, hit: i32, crit: i32, level: i32) -> (r: Result<
        WhiteHitTable,
        ConfigError,
    >)
        requires
            -100_000_000_000 <= delta <= 100_000_000_000,
        ensures
            level == 0 ==> r == Err::<WhiteHitTable, ConfigError>(ConfigError::ZeroTargetLevel),
            level != 0 && miss_chance_spec(delta as int) is None ==> r == Err::<
                WhiteHitTable,
                ConfigError,
            >(ConfigError::SkillDeltaOutOfRange(delta)),
            level != 0 && miss_chance_spec(delta as int) is Some && !(60 <= level <= 63) ==> r
                == Err::<WhiteHitTable, ConfigError>(ConfigError::TargetLevelOutOfRange(level)),
            level != 0 && miss_chance_spec(delta as int) is Some && 60 <= level <= 63 ==> r
                == Ok::<WhiteHitTable, ConfigError>(
                white_table_spec(delta as int, hit as int, crit as int, level as int),
            ),
            r is Ok ==> white_within(r->Ok_0, 200_000_000_000_000),
    {
        if level == 0 {
            return Err(ConfigError::ZeroTargetLevel);
        }
        let base = match get_miss_chance_from_skill_delta(delta) {
            Ok(m) => m,
            Err(e) => return Err(e),
        };
        let hit_chance = effective_hit_chance(hit, delta);
        let missed = base * 4 / 5 + 200_000 - hit_chance;
        let miss: i64 = if missed > 0 { missed } else { 0 };
        let dodge = miss + (50_000 + 1_000 * delta);
        if level < 60 || level > 63 {
            return Err(ConfigError::TargetLevelOutOfRange(level));
        }
        let glancing = dodge + (100_000 + 100_000 * (level as i64 - 60));
        let crit_value = glancing + crit_chance_against(crit, level);
        Ok(WhiteHitTable { miss_value: miss, dodge_value: dodge, glancing_value: glancing, crit_value })
    }

    /// The outcome for a roll in parts per million.
    pub fn roll_for_hit(&self, die: u32) -> (r: Hit)
        ensures
            r == white_outcome(*self, die as int),
    {
        let d = die as i64;
        if d < self.miss_value {
            Hit::Miss
        } else if d < self.dodge_value {
            Hit::Dodge
        } else if d < self.glancing_value {
            Hit::Glancing
        } else if d < self.crit_value {
            Hit::Crit
        } else {
            Hit::Hit
        }
    }

    /// Raises the crit threshold alone.
    pub fn add_crit(&mut self, crit: i64)
        requires
            i64::MIN <= old(self).crit_value + crit <= i64::MAX,
        ensures
            *final(self) == (WhiteHitTable { crit_value: (old(self).crit_value + crit) as i64, ..*old(self) }),
    {
        self.crit_value = self.crit_value + crit;
    }
}

/// For every skill delta that has a miss chance and leaves a non-negative
/// dodge chance, at a target level of 60 to 63, with a non-negative hit
/// rating and a crit rating of at most 27.1 percent, both tables have
/// non-decreasing thresholds, and the chance of a plain hit, one million
/// minus the crit threshold, is not negative.
pub proof fn lemma_thresholds_ordered(delta: int, hit: int, crit: int, level: int)
    requires
        -50 <= delta <= 15,
        60 <= level <= 63,
        0 <= hit <= PPM,
        0 <= crit <= 271_000,
    ensures
        ({
            let y = yellow_table_spec(delta, hit, crit, level);
            &&& 0 <= y.miss_value <= y.dodge_value <= y.crit_value <= PPM
            &&& PPM - y.crit_value >= 0
        }),
        ({
            let w = white_table_spec(delta, hit, crit, level);
            &&& 0 <= w.miss_value <= w.dodge_value <= w.glancing_value <= w.crit_value <= PPM
            &&& PPM - w.crit_value >= 0
        }),
{
}

} // verus!
