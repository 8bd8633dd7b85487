use vstd::prelude::*;

verus! {

/// The multipliers in force on one quantity, in the order they were applied.
///
/// Applying a multiplier pushes it; reverting it removes its last occurrence,
/// so that reverting right after applying gives back the very same stack.
#[derive(Debug)]
pub struct MultiplierStack {
    factors: Vec<u32>,
}

/// The index of the last occurrence of `f` in `s`, or -1.
pub open spec fn last_index_of(s: Seq<u32>, f: u32) -> int
    decreases s.len(),
{
    if s.len() == 0 {
        -1
    } else if s.last() == f {
        s.len() - 1
    } else {
        last_index_of(s.drop_last(), f)
    }
}

/// `s` with the last occurrence of `f` taken out; `s` itself if none.
pub open spec fn without_last(s: Seq<u32>, f: u32) -> Seq<u32> {
    let i = last_index_of(s, f);
    if i < 0 { s } else { s.remove(i) }
}

/// `t` divided by each factor over one million in turn, rounding down at
/// each step: a duration under the speed multipliers of `fs`.
pub open spec fn scaled_down(t: int, fs: Seq<u32>) -> int
    decreases fs.len(),
{
    if fs.len() == 0 {
        t
    } else {
        scaled_down(t, fs.drop_last()) * 1_000_000 / (fs.last() as int)
    }
}

/// `b` times every factor of `fs`, held at `cap` once it reaches it.
pub open spec fn scaled_up_capped(b: int, fs: Seq<u32>, cap: int) -> int
    decreases fs.len(),
{
    if fs.len() == 0 {
        if b < cap { b } else { cap }
    } else {
        let p = scaled_up_capped(b, fs.drop_last(), cap) * (fs.last() as int);
        if p < cap { p } else { cap }
    }
}

pub proof fn lemma_last_index_bounds(s: Seq<u32>, f: u32)
    ensures
        -1 <= last_index_of(s, f) < s.len(),
        last_index_of(s, f) >= 0 ==> s[last_index_of(s, f)] == f,
        last_index_of(s, f) < 0 ==> !s.contains(f),
    decreases s.len(),
{
    if s.len() > 0 && s.last() != f {
        lemma_last_index_bounds(s.drop_last(), f);
        if last_index_of(s, f) < 0 {
            assert forall|k: int| 0 <= k < s.len() implies s[k] != f by {
                if k < s.len() - 1 {
                    assert(s.drop_last()[k] == s[k]);
                }
            }
        }
    }
}

pub proof fn lemma_scaled_down_bounded(t: int, fs: Seq<u32>)
    requires
        0 <= t,
        forall|k: int| 0 <= k < fs.len() ==> fs[k] >= 1_000_000,
    ensures
        0 <= scaled_down(t, fs) <= t,
    decreases fs.len(),
{
    if fs.len() > 0 {
        lemma_scaled_down_bounded(t, fs.drop_last());
        let p = scaled_down(t, fs.drop_last());
        let f = fs.last() as int;
        assert(p * 1_000_000 <= p * f) by (nonlinear_arith)
            requires 0 <= p, f >= 1_000_000;
        assert(p * 1_000_000 / f <= p) by (nonlinear_arith)
            requires 0 <= p, f >= 1_000_000, p * 1_000_000 <= p * f;
        assert(0 <= p * 1_000_000 / f) by (nonlinear_arith)
            requires 0 <= p, f >= 1_000_000;
    }
}

/// Reverting a multiplier right after applying it gives back the stack
/// exactly as it stood before.
pub proof fn lemma_apply_revert_round_trip(s: Seq<u32>, f: u32)
    ensures
        without_last(s.push(f), f) == s,
{
    assert(s.push(f).drop_last() == s);
    assert(s.push(f).remove(s.len() as int) =~= s);
}

impl View for MultiplierStack {
    type V = Seq<u32>;

    closed spec fn view(&self) -> Seq<u32> {
        self.factors@
    }
}

impl MultiplierStack {
    /// A stack with no multiplier in force.
    pub fn new() -> (r: MultiplierStack)
        ensures
            r@ == Seq::<u32>::empty(),
    {
        MultiplierStack { factors: Vec::new() }
    }

    /// Puts `f` in force.
    pub fn apply(&mut self, f: u32)
        ensures
            final(self)@ == old(self)@.push(f),
    {
        self.factors.push(f);
    }

    /// Takes the last occurrence of `f` out of force; nothing changes when
    /// `f` is not in force.
    pub fn revert(&mut self, f: u32)
        ensures
            final(self)@ == without_last(old(self)@, f),
    {
        let n = self.factors.len();
        let mut i: usize = n;
        proof {
            assert(self.factors@.take(n as int) =~= self.factors@);
        }
        while i > 0
            invariant
                0 <= i <= n,
                n == self.factors@.len(),
                self.factors@ == old(self)@,
                forall|k: int| i <= k < n ==> self.factors@[k] != f,
                last_index_of(self.factors@.take(i as int), f) == last_index_of(
                    self.factors@,
                    f,
                ),
            decreases i,
        {
            proof {
                let s = self.factors@.take(i as int);
                assert(s.drop_last() =~= self.factors@.take(i - 1));
            }
            if self.factors[i - 1] == f {
                self.factors.remove(i - 1);
                return;
            }
            i = i - 1;
        }
        proof {
            assert(self.factors@.take(0) =~= Seq::<u32>::empty());
        }
    }

    /// The multipliers in force, oldest first.
    pub fn factors(&self) -> (r: &Vec<u32>)
        ensures
            r@ == self@,
    {
        &self.factors
    }

    /// Drops every multiplier.
    pub fn clear(&mut self)
        ensures
            final(self)@ == Seq::<u32>::empty(),
    {
        self.factors.clear();
    }

    /// `t` divided by each factor over one million in turn.
    pub fn scale_down(&self, t: u64) -> (r: u64)
        requires
            t <= 1_000_000_000_000,
            forall|k: int| 0 <= k < self@.len() ==> self@[k] >= 1_000_000,
        ensures
            r == scaled_down(t as int, self@),
            r <= t,
    {
        let mut acc: u64 = t;
        let mut i: usize = 0;
        while i < self.factors.len()
            invariant
                0 <= i <= self@.len(),
                forall|k: int| 0 <= k < self@.len() ==> self@[k] >= 1_000_000,
                acc == scaled_down(t as int, self@.take(i as int)),
                acc <= t,
                t <= 1_000_000_000_000,
            decreases self@.len() - i,
        {
            proof {
                assert(self@.take(i + 1).drop_last() =~= self@.take(i as int));
                lemma_scaled_down_bounded(t as int, self@.take(i + 1));
            }
            acc = acc * 1_000_000 / (self.factors[i] as u64);
            i = i + 1;
        }
        proof {
            assert(self@.take(i as int) =~= self@);
        }
        acc
    }

    /// `b` times every factor in turn, held at `cap` once it reaches it.
    pub fn scale_up_capped(&self, b: u64, cap: u32) -> (r: u64)
        ensures
            r == scaled_up_capped(b as int, self@, cap as int),
            r <= cap,
    {
        let mut acc: u64 = if b < cap as u64 { b } else { cap as u64 };
        let mut i: usize = 0;
        proof {
            assert(self@.take(0) =~= Seq::<u32>::empty());
        }
        while i < self.factors.len()
            invariant
                0 <= i <= self@.len(),
                acc == scaled_up_capped(b as int, self@.take(i as int), cap as int),
                acc <= cap,
            decreases self@.len() - i,
        {
            proof {
                assert(self@.take(i + 1).drop_last() =~= self@.take(i as int));
            }
            proof {
                let a = acc as int;
                let g = self@[i as int] as int;
                assert(a * g <= 4294967295 * 4294967295) by (nonlinear_arith)
                    requires 0 <= a <= 4294967295, 0 <= g <= 4294967295;
            }
            let p = acc * (self.factors[i] as u64);
            acc = if p < cap as u64 { p } else { cap as u64 };
            i = i + 1;
        }
        proof {
            assert(self@.take(i as int) =~= self@);
        }
        acc
    }
}

} // verus!
