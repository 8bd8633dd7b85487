use vstd::prelude::*;

verus! {

/// A configuration that asks for a mechanic the engine does not model.
#[derive(Clone, Copy, Debug, PartialEq, Eq, Structural)]
pub enum ConfigError {
    /// The skill delta lies beyond the modelled miss-chance bands.
    SkillDeltaOutOfRange(i64),
    /// Hit tables only exist for target levels 60 to 63.
    TargetLevelOutOfRange(i32),
    /// Hit tables were asked for before a target level was set.
    ZeroTargetLevel,
    /// A weapon classification that the engine does not model.
    UnknownWeaponType,
    /// A talent holds more points than it has ranks.
    IllegalTalentPoints,
    /// Points in a talent whose effect is not modelled.
    UnimplementedTalent,
    /// A multiplier below one on attack speed: slowing is not modelled.
    SlowingMultiplier,
    /// A mean damage per hit past the modelled bound.
    DamageOutOfRange,
}

} // verus!
