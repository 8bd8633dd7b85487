use vstd::prelude::*;
use rand_chacha::rand_core::{RngCore, SeedableRng};

verus! {

/// The 32-bit word at position `pos` of the ChaCha8 stream seeded with
/// `seed`.
pub uninterp spec fn chacha_word(seed: u64, pos: u64) -> u32;

/// Relies on rand_chacha's `ChaCha8Rng`: `seed_from_u64(seed)` derives the
/// key from the seed alone (rand_core counts a change of it as
/// value-breaking), `set_word_pos(pos)` moves to word `pos` of that key's
/// stream, and `next_u32` returns that word, so the result depends on `seed`
/// and `pos` alone.
#[verifier::external_body]
fn stream_word(seed: u64, pos: u64) -> (r: u32)
    ensures
        r == chacha_word(seed, pos),
{
    let mut rng = rand_chacha::ChaCha8Rng::seed_from_u64(seed);
    rng.set_word_pos(pos as u128);
    rng.next_u32()
}

/// A 32-bit word scaled to a roll in [0, 1_000_000).
pub open spec fn die_spec(w: u32) -> int {
    (w as int) * 1_000_000 / 0x1_0000_0000
}

/// Scales a 32-bit word to a roll in parts per million, keeping its
/// uniformity up to rounding.
pub fn die_from_word(w: u32) -> (r: u32)
    ensures
        r == die_spec(w),
        r < 1_000_000,
{
    proof {
        assert((w as int) * 1_000_000 / 0x1_0000_0000 < 1_000_000) by (nonlinear_arith)
            requires 0 <= w < 0x1_0000_0000int;
    }
    ((w as u64) * 1_000_000 / 0x1_0000_0000) as u32
}

/// A reproducible source of rolls: the seed and the position of the next
/// word in its stream.
#[derive(Clone, Copy, Debug, PartialEq, Eq, Structural)]
pub struct Dice {
    pub seed: u64,
    pub pos: u64,
}

/// The position after `pos`, wrapping at the end of the stream.
pub open spec fn next_pos(pos: u64) -> u64 {
    if pos == u64::MAX { 0 } else { (pos + 1) as u64 }
}

/// The roll that `d` gives next.
pub open spec fn roll_value(d: Dice) -> int {
    die_spec(chacha_word(d.seed, d.pos))
}

/// `d` after one roll.
pub open spec fn rolled(d: Dice) -> Dice {
    Dice { seed: d.seed, pos: next_pos(d.pos) }
}

impl Dice {
    pub open spec fn new_spec(seed: u64) -> Dice {
        Dice { seed, pos: 0 }
    }

    /// Rolls start at the beginning of the stream of `seed`.
    pub fn new(seed: u64) -> (r: Dice)
        ensures
            r == (Dice { seed, pos: 0 }),
    {
        Dice { seed, pos: 0 }
    }

    /// The next roll, in parts per million.
    pub fn roll(&mut self) -> (r: u32)
        ensures
            r == roll_value(*old(self)),
            r < 1_000_000,
            *final(self) == rolled(*old(self)),
    {
        let w = stream_word(self.seed, self.pos);
        self.pos = if self.pos == u64::MAX { 0 } else { self.pos + 1 };
        die_from_word(w)
    }
}

} // verus!
