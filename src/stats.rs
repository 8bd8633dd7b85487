use vstd::prelude::*;
use crate::hit_table::Hit;

verus! {

/// `a + b` held at the largest `u64`.
pub open spec fn sat_add(a: u64, b: u64) -> u64 {
    if a + b > u64::MAX { u64::MAX } else { (a + b) as u64 }
}

/// Outcome counts and damage of one attack over a fight; damage in
/// hundredths.
#[derive(Clone, Copy, Debug, PartialEq, Eq, Structural)]
pub struct OutcomeStats {
    pub hits: u64,
    pub crits: u64,
    pub misses: u64,
    pub glancings: u64,
    pub dodges: u64,
    pub damage: u64,
}

/// `s` with one more outcome `h` and `dmg` more damage.
pub open spec fn tallied(s: OutcomeStats, h: Hit, dmg: u64) -> OutcomeStats {
    let s2 = OutcomeStats { damage: sat_add(s.damage, dmg), ..s };
    match h {
        Hit::Hit => OutcomeStats { hits: sat_add(s.hits, 1), ..s2 },
        Hit::Crit => OutcomeStats { crits: sat_add(s.crits, 1), ..s2 },
        Hit::Miss => OutcomeStats { misses: sat_add(s.misses, 1), ..s2 },
        Hit::Glancing => OutcomeStats { glancings: sat_add(s.glancings, 1), ..s2 },
        Hit::Dodge => OutcomeStats { dodges: sat_add(s.dodges, 1), ..s2 },
    }
}

pub open spec fn zero_outcomes() -> OutcomeStats {
    OutcomeStats { hits: 0, crits: 0, misses: 0, glancings: 0, dodges: 0, damage: 0 }
}

impl OutcomeStats {
    pub fn new() -> (r: OutcomeStats)
        ensures
            r == zero_outcomes(),
    {
        OutcomeStats { hits: 0, crits: 0, misses: 0, glancings: 0, dodges: 0, damage: 0 }
    }

    /// Counts one outcome and its damage.
    pub fn record(&mut self, h: Hit, dmg: u64)
        ensures
            *final(self) == tallied(*old(self), h, dmg),
    {
        self.damage = self.damage.saturating_add(dmg);
        match h {
            Hit::Hit => self.hits = self.hits.saturating_add(1),
            Hit::Crit => self.crits = self.crits.saturating_add(1),
            Hit::Miss => self.misses = self.misses.saturating_add(1),
            Hit::Glancing => self.glancings = self.glancings.saturating_add(1),
            Hit::Dodge => self.dodges = self.dodges.saturating_add(1),
        }
    }

    /// Number of outcomes counted.
    pub fn count(&self) -> (r: u64)
        ensures
            r == sat_add(
                sat_add(sat_add(sat_add(self.hits, self.crits), self.misses), self.glancings),
                self.dodges,
            ),
    {
        self.hits.saturating_add(self.crits).saturating_add(self.misses).saturating_add(
            self.glancings,
        ).saturating_add(self.dodges)
    }
}

/// What one fight recorded: outcomes and damage of each attack, and how
/// often each proc of each hand went off, in the order of the hand's procs.
#[derive(Clone, Debug)]
pub struct CurrentStats {
    pub mh_white: OutcomeStats,
    pub oh_white: OutcomeStats,
    pub backstab: OutcomeStats,
    pub eviscerate: OutcomeStats,
    pub mh_procs: Vec<u64>,
    pub oh_procs: Vec<u64>,
    /// Damage of damage procs, in hundredths.
    pub proc_damage: u64,
    /// Fight length in ms.
    pub fight_length: i64,
}

/// Every outcome count and damage total at zero.
pub open spec fn tallies_clear(s: CurrentStats) -> bool {
    &&& s.mh_white == zero_outcomes()
    &&& s.oh_white == zero_outcomes()
    &&& s.backstab == zero_outcomes()
    &&& s.eviscerate == zero_outcomes()
    &&& s.proc_damage == 0
    &&& forall|i: int| 0 <= i < s.mh_procs@.len() ==> s.mh_procs@[i] == 0
    &&& forall|i: int| 0 <= i < s.oh_procs@.len() ==> s.oh_procs@[i] == 0
}

/// A vector of `n` zeros.
pub fn zeros(n: usize) -> (r: Vec<u64>)
    ensures
        r@.len() == n,
        forall|i: int| 0 <= i < n ==> r@[i] == 0,
{
    let mut v: Vec<u64> = Vec::new();
    let mut i: usize = 0;
    while i < n
        invariant
            0 <= i <= n,
            v@.len() == i,
            forall|k: int| 0 <= k < i ==> v@[k] == 0,
        decreases n - i,
    {
        v.push(0);
        i = i + 1;
    }
    v
}

impl CurrentStats {
    pub fn new() -> (r: CurrentStats)
        ensures
            tallies_clear(r),
            r.mh_procs@.len() == 0,
            r.oh_procs@.len() == 0,
            r.fight_length == 0,
    {
        CurrentStats {
            mh_white: OutcomeStats::new(),
            oh_white: OutcomeStats::new(),
            backstab: OutcomeStats::new(),
            eviscerate: OutcomeStats::new(),
            mh_procs: Vec::new(),
            oh_procs: Vec::new(),
            proc_damage: 0,
            fight_length: 0,
        }
    }

    pub fn set_fight_length(&mut self, fight_length: i64)
        ensures
            *final(self) == (CurrentStats { fight_length, ..*old(self) }),
    {
        self.fight_length = fight_length;
    }

    /// Makes room for one count per proc of each hand.
    pub fn declare_proccs(&mut self, mh_count: usize, oh_count: usize)
        ensures
            final(self).mh_procs@.len() == mh_count,
            final(self).oh_procs@.len() == oh_count,
            tallies_clear(*old(self)) ==> tallies_clear(*final(self)),
            final(self).fight_length == old(self).fight_length,
    {
        self.mh_procs = zeros(mh_count);
        self.oh_procs = zeros(oh_count);
    }

    /// Sets every count and total back to zero, keeping the declared procs.
    pub fn clear(&mut self)
        ensures
            tallies_clear(*final(self)),
            final(self).mh_procs@.len() == old(self).mh_procs@.len(),
            final(self).oh_procs@.len() == old(self).oh_procs@.len(),
            final(self).fight_length == old(self).fight_length,
    {
        self.mh_white = OutcomeStats::new();
        self.oh_white = OutcomeStats::new();
        self.backstab = OutcomeStats::new();
        self.eviscerate = OutcomeStats::new();
        self.proc_damage = 0;
        self.mh_procs = zeros(self.mh_procs.len());
        self.oh_procs = zeros(self.oh_procs.len());
    }

    /// Counts one proc of a hand, with the damage it dealt.
    pub fn record_procc(&mut self, main_hand: bool, index: usize, dmg: u64)
        requires
            main_hand ==> index < old(self).mh_procs@.len(),
            !main_hand ==> index < old(self).oh_procs@.len(),
        ensures
            main_hand ==> final(self).mh_procs@ == old(self).mh_procs@.update(
                index as int,
                sat_add(old(self).mh_procs@[index as int], 1),
            ) && final(self).oh_procs@ == old(self).oh_procs@,
            !main_hand ==> final(self).oh_procs@ == old(self).oh_procs@.update(
                index as int,
                sat_add(old(self).oh_procs@[index as int], 1),
            ) && final(self).mh_procs@ == old(self).mh_procs@,
            final(self).proc_damage == sat_add(old(self).proc_damage, dmg),
            final(self).mh_white == old(self).mh_white,
            final(self).oh_white == old(self).oh_white,
            final(self).backstab == old(self).backstab,
            final(self).eviscerate == old(self).eviscerate,
            final(self).fight_length == old(self).fight_length,
    {
        if main_hand {
            let c = self.mh_procs[index];
            self.mh_procs.set(index, c.saturating_add(1));
        } else {
            let c = self.oh_procs[index];
            self.oh_procs.set(index, c.saturating_add(1));
        }
        self.proc_damage = self.proc_damage.saturating_add(dmg);
    }

    /// A copy of these stats.
    pub fn copy(&self) -> (r: CurrentStats)
        ensures
            r.mh_white == self.mh_white,
            r.oh_white == self.oh_white,
            r.backstab == self.backstab,
            r.eviscerate == self.eviscerate,
            r.mh_procs@ == self.mh_procs@,
            r.oh_procs@ == self.oh_procs@,
            r.proc_damage == self.proc_damage,
            r.fight_length == self.fight_length,
    {
        CurrentStats {
            mh_white: self.mh_white,
            oh_white: self.oh_white,
            backstab: self.backstab,
            eviscerate: self.eviscerate,
            mh_procs: copy_counts(&self.mh_procs),
            oh_procs: copy_counts(&self.oh_procs),
            proc_damage: self.proc_damage,
            fight_length: self.fight_length,
        }
    }

    /// Damage of every attack and proc together, in hundredths.
    pub fn total_damage(&self) -> (r: u64)
        ensures
            r == sat_add(
                sat_add(
                    sat_add(sat_add(self.mh_white.damage, self.oh_white.damage), self.backstab.damage),
                    self.eviscerate.damage,
                ),
                self.proc_damage,
            ),
    {
        self.mh_white.damage.saturating_add(self.oh_white.damage).saturating_add(
            self.backstab.damage,
        ).saturating_add(self.eviscerate.damage).saturating_add(self.proc_damage)
    }
}

/// An element-for-element copy of `v`.
pub fn copy_counts(v: &Vec<u64>) -> (r: Vec<u64>)
    ensures
        r@ == v@,
{
    let mut out: Vec<u64> = Vec::new();
    let mut i: usize = 0;
    while i < v.len()
        invariant
            0 <= i <= v@.len(),
            out@ == v@.take(i as int),
        decreases v@.len() - i,
    {
        out.push(v[i]);
        proof {
            assert(out@ =~= v@.take(i + 1));
        }
        i = i + 1;
    }
    proof {
        assert(v@.take(i as int) =~= v@);
    }
    out
}

} // verus!
