use vstd::prelude::*;

verus! {

/// The four counters of one guide, as mathematical integers.
pub struct Counts {
    pub g1: int,
    pub g2: int,
    pub paired: int,
    pub unpaired: int,
}

pub open spec fn zero_tally() -> Counts {
    Counts { g1: 0, g2: 0, paired: 0, unpaired: 0 }
}

pub open spec fn plus(a: Counts, b: Counts) -> Counts {
    Counts {
        g1: a.g1 + b.g1,
        g2: a.g2 + b.g2,
        paired: a.paired + b.paired,
        unpaired: a.unpaired + b.unpaired,
    }
}

/// What one record contributes to a guide, given whether each probe was found.
pub open spec fn outcome(m1: bool, m2: bool) -> Counts {
    Counts {
        g1: if m1 { 1 } else { 0 },
        g2: if m2 { 1 } else { 0 },
        paired: if m1 && m2 { 1 } else { 0 },
        unpaired: if m1 != m2 { 1 } else { 0 },
    }
}

/// Per-guide counters: records in which g1 was found, g2 was found, both were
/// found, and exactly one was found.
#[derive(Clone, Copy, Debug, PartialEq, Eq, Structural)]
pub struct GuideStats {
    pub count_g1: usize,
    pub count_g2: usize,
    pub count_paired: usize,
    pub count_unpaired: usize,
}

impl GuideStats {
    pub open spec fn counts(self) -> Counts {
        Counts {
            g1: self.count_g1 as int,
            g2: self.count_g2 as int,
            paired: self.count_paired as int,
            unpaired: self.count_unpaired as int,
        }
    }

    /// No counter is at its largest value, so one more record can be counted.
    pub open spec fn has_room(self) -> bool {
        self.count_g1 < usize::MAX && self.count_g2 < usize::MAX && self.count_paired < usize::MAX
            && self.count_unpaired < usize::MAX
    }

    /// The element-wise sum of `self` and `rhs` fits in `usize`.
    pub open spec fn sum_fits(self, rhs: GuideStats) -> bool {
        self.count_g1 + rhs.count_g1 <= usize::MAX && self.count_g2 + rhs.count_g2 <= usize::MAX
            && self.count_paired + rhs.count_paired <= usize::MAX && self.count_unpaired
            + rhs.count_unpaired <= usize::MAX
    }

    pub fn zero() -> (r: GuideStats)
        ensures
            r.counts() == zero_tally(),
    {
        GuideStats { count_g1: 0, count_g2: 0, count_paired: 0, count_unpaired: 0 }
    }

    /// Resets every counter to zero.
    pub fn clear(&mut self)
        ensures
            final(self).counts() == zero_tally(),
    {
        *self = GuideStats::zero();
    }

    /// Element-wise addition of `rhs` into `self`.
    pub fn add_assign(&mut self, rhs: GuideStats)
        requires
            old(self).sum_fits(rhs),
        ensures
            final(self).counts() == plus(old(self).counts(), rhs.counts()),
    {
        self.count_g1 = self.count_g1 + rhs.count_g1;
        self.count_g2 = self.count_g2 + rhs.count_g2;
        self.count_paired = self.count_paired + rhs.count_paired;
        self.count_unpaired = self.count_unpaired + rhs.count_unpaired;
    }

    /// Applies the outcome of one record: `m1` and `m2` tell whether g1 and g2
    /// were found in it.
    pub fn record(&mut self, m1: bool, m2: bool)
        requires
            old(self).has_room(),
        ensures
            final(self).counts() == plus(old(self).counts(), outcome(m1, m2)),
    {
        if m1 && m2 {
            self.count_g1 = self.count_g1 + 1;
            self.count_g2 = self.count_g2 + 1;
            self.count_paired = self.count_paired + 1;
        } else if m1 {
            self.count_g1 = self.count_g1 + 1;
            self.count_unpaired = self.count_unpaired + 1;
        } else if m2 {
            self.count_g2 = self.count_g2 + 1;
            self.count_unpaired = self.count_unpaired + 1;
        }
    }
}

impl Default for GuideStats {
    fn default() -> (r: GuideStats)
        ensures
            r.counts() == zero_tally(),
    {
        GuideStats::zero()
    }
}

} // verus!
