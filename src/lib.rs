//! A discrete-event combat simulator for a dual-wielding melee build.
//!
//! Every quantity is held as an integer in a fixed unit: chances and attack
//! speed multipliers in parts per million, time in milliseconds, damage in
//! hundredths of a point and damage modifiers in thousandths. Rolls come
//! from a seeded ChaCha stream, so a fight is reproducible from its seed.
pub mod error;
pub mod events;
pub mod hit_table;
pub mod multiplier;
pub mod character;
pub mod modifiers;
pub mod clock;
pub mod dice;
pub mod rotation;
pub mod weapon;
pub mod cooldown;
pub mod stats;
pub mod damage;
pub mod simulator;
pub mod abilities;
pub mod engine;
pub mod fight;
pub mod configure;
pub mod talents;
pub mod weights;
pub mod model;
