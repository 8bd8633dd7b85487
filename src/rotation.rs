use vstd::prelude::*;

verus! {

/// The strategy picked once from the main-hand weapon.
#[derive(Clone, Copy, Debug, PartialEq, Eq, Structural)]
pub enum Rotation {
    /// For a sword in the main hand; it takes no action yet.
    SinStrikeEvis,
    /// For a dagger in the main hand: backstab to build, slice and dice and
    /// eviscerate to finish.
    BackstabEvis,
    Unset,
}

/// What the rotation does this tick.
#[derive(Clone, Copy, Debug, PartialEq, Eq, Structural)]
pub enum Action {
    SliceAndDice,
    Backstab,
    Eviscerate,
    Nothing,
}

/// Energy cost of each ability.
#[derive(Clone, Copy, Debug, PartialEq, Eq, Structural)]
pub struct AbilityCosts {
    pub sinister_strike: u32,
    pub backstab: u32,
    pub eviscerate: u32,
    pub slice_and_dice: u32,
    pub blade_flurry: u32,
}

impl AbilityCosts {
    pub fn new() -> (r: AbilityCosts)
        ensures
            r == (AbilityCosts {
                sinister_strike: 45,
                backstab: 60,
                eviscerate: 35,
                slice_and_dice: 25,
                blade_flurry: 25,
            }),
    {
        AbilityCosts {
            sinister_strike: 45,
            backstab: 60,
            eviscerate: 35,
            slice_and_dice: 25,
            blade_flurry: 25,
        }
    }
}

/// The finisher-builder loop: slice and dice at two combo points while it is
/// down; backstab below five; at five, slice and dice while it is down, else
/// eviscerate; each only when affordable, else nothing.
pub open spec fn backstab_evis_spec(
    combo_points: u32,
    energy: u32,
    snd_active: bool,
    costs: AbilityCosts,
) -> Action {
    let can_backstab = energy >= costs.backstab;
    let can_eviscerate = energy >= costs.eviscerate;
    let can_snd = energy >= costs.slice_and_dice;
    if combo_points == 2 && !snd_active && can_snd {
        Action::SliceAndDice
    } else if combo_points < 5 && can_backstab {
        Action::Backstab
    } else if combo_points == 5 && !snd_active && can_snd {
        Action::SliceAndDice
    } else if combo_points == 5 && snd_active && can_eviscerate {
        Action::Eviscerate
    } else {
        Action::Nothing
    }
}

/// The action of the finisher-builder loop for the given resources.
pub fn backstab_evis_choice(
    combo_points: u32,
    energy: u32,
    snd_active: bool,
    costs: &AbilityCosts,
) -> (r: Action)
    ensures
        r == backstab_evis_spec(combo_points, energy, snd_active, *costs),
{
    let can_backstab = energy >= costs.backstab;
    let can_eviscerate = energy >= costs.eviscerate;
    let can_snd = energy >= costs.slice_and_dice;
    if combo_points == 2 && !snd_active && can_snd {
        Action::SliceAndDice
    } else if combo_points < 5 && can_backstab {
        Action::Backstab
    } else if combo_points == 5 && !snd_active && can_snd {
        Action::SliceAndDice
    } else if combo_points == 5 && snd_active && can_eviscerate {
        Action::Eviscerate
    } else {
        Action::Nothing
    }
}

/// The action that `rotation` takes; only the finisher-builder loop acts.
pub fn choose_action(
    rotation: Rotation,
    combo_points: u32,
    energy: u32,
    snd_active: bool,
    costs: &AbilityCosts,
) -> (r: Action)
    ensures
        rotation == Rotation::BackstabEvis ==> r == backstab_evis_spec(
            combo_points,
            energy,
            snd_active,
            *costs,
        ),
        rotation != Rotation::BackstabEvis ==> r == Action::Nothing,
{
    match rotation {
        Rotation::BackstabEvis => backstab_evis_choice(combo_points, energy, snd_active, costs),
        _ => Action::Nothing,
    }
}

} // verus!
