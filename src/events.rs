use vstd::prelude::*;
use crate::hit_table::Hit;

verus! {

/// The attacks that deal damage.
#[derive(Clone, Copy, Debug, PartialEq, Eq, Structural)]
pub enum Attack {
    MhWhite,
    OhWhite,
    Backstab,
    Eviscerate,
}

/// Something that happened in a fight, for diagnostics.
#[derive(Clone, Copy, Debug, PartialEq, Eq, Structural)]
pub enum Event {
    /// An attack with its outcome and its damage after armor, in hundredths.
    Strike { attack: Attack, hit: Hit, damage: u64 },
    /// Proc `index` of a hand went off.
    Proc { main_hand: bool, index: usize },
    /// Slice and dice went up for a duration in ms.
    SliceAndDiceUp { duration: i64 },
    /// Slice and dice wore off.
    SliceAndDiceDown,
    /// Cooldown `index` was used.
    CooldownUsed { index: usize },
    /// The effect of cooldown `index` wore off.
    CooldownFaded { index: usize },
    /// An energy tick left this much energy.
    EnergyTick { energy: u32 },
}

/// An event and the fight time left when it happened, in ms.
#[derive(Clone, Copy, Debug, PartialEq, Eq, Structural)]
pub struct LogEntry {
    pub time_left: i64,
    pub event: Event,
}

} // verus!
