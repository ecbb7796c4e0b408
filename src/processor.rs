use crate::guides::Guides;
use crate::search::{found_within, iupac_pattern, iupac_hit, new_searcher, IupacSearcher, MAX_BUDGET};
use crate::stats::{outcome, plus, zero_tally, Counts, GuideStats};
use std::sync::Arc;
use vstd::prelude::*;

verus! {

/// What one record contributes to a guide with probes `p1` and `p2`.
pub open spec fn record_counts(p1: Seq<u8>, p2: Seq<u8>, text: Seq<u8>, k: nat) -> Counts {
    outcome(iupac_hit(p1, text, k), iupac_hit(p2, text, k))
}

/// A table of `n` zeroed counters.
pub fn zero_counts(n: usize) -> (r: Vec<GuideStats>)
    ensures
        r.len() == n,
        forall|i: int| 0 <= i < n ==> (#[trigger] r@[i]).counts() == zero_tally(),
{
    let mut r: Vec<GuideStats> = Vec::new();
    let mut i: usize = 0;
    while i < n
        invariant
            i <= n,
            r.len() == i,
            forall|j: int| 0 <= j < i ==> (#[trigger] r@[j]).counts() == zero_tally(),
        decreases n - i,
    {
        r.push(GuideStats::zero());
        i = i + 1;
    }
    r
}

/// The matching engine of one worker: it classifies records against every
/// guide and counts into its own table, which it folds into a shared table at
/// each batch boundary.
#[derive(Clone)]
pub struct PatternProcessor {
    /// All the guides to match
    guides: Arc<Guides>,
    /// Maximum alignment cost
    k: usize,
    /// Searcher for the guides (reusable buffer)
    searcher: IupacSearcher,
    /// Counts of the current batch
    tl_counts: Vec<GuideStats>,
}

impl PatternProcessor {
    pub closed spec fn catalog(&self) -> Guides {
        *self.guides
    }

    pub closed spec fn budget(&self) -> nat {
        self.k as nat
    }

    pub closed spec fn local(&self) -> Seq<GuideStats> {
        self.tl_counts@
    }

    pub open spec fn wf(&self) -> bool {
        &&& self.catalog().wf()
        &&& self.catalog().searchable()
        &&& self.budget() <= MAX_BUDGET
        &&& self.local().len() == self.catalog().size()
    }

    /// Every local counter can take one more record.
    pub open spec fn has_room(&self) -> bool {
        forall|i: int| 0 <= i < self.local().len() ==> (#[trigger] self.local()[i]).has_room()
    }

    /// `global` matches the local table in length, and every sum fits.
    pub open spec fn fold_fits(&self, global: Seq<GuideStats>) -> bool {
        &&& global.len() == self.local().len()
        &&& forall|i: int|
            0 <= i < global.len() ==> (#[trigger] global[i]).sum_fits(self.local()[i])
    }

    /// An engine over `guides` with edit budget `k` and zeroed counters.
    pub fn new(guides: Guides, k: usize) -> (r: PatternProcessor)
        requires
            guides.wf(),
            guides.searchable(),
            k <= MAX_BUDGET,
        ensures
            r.wf(),
            r.catalog() == guides,
            r.budget() == k,
            forall|i: int| 0 <= i < r.local().len() ==> (#[trigger] r.local()[i]).counts() == zero_tally(),
    {
        let n = guides.len();
        PatternProcessor { guides: Arc::new(guides), k, searcher: new_searcher(), tl_counts: zero_counts(n) }
    }

    /// The maximum edit cost.
    pub fn budget_value(&self) -> (r: usize)
        ensures
            r == self.budget(),
    {
        self.k
    }

    /// The counts of the current batch, one per guide.
    pub fn local_counts(&self) -> (r: &Vec<GuideStats>)
        ensures
            r@ == self.local(),
    {
        &self.tl_counts
    }

    /// Tests that one more record can be counted without overflow.
    pub fn has_headroom(&self) -> (r: bool)
        ensures
            r == self.has_room(),
    {
        let mut i: usize = 0;
        while i < self.tl_counts.len()
            invariant
                i <= self.local().len(),
                forall|j: int| 0 <= j < i ==> (#[trigger] self.local()[j]).has_room(),
            decreases self.local().len() - i,
        {
            let s = self.tl_counts[i];
            if s.count_g1 == usize::MAX || s.count_g2 == usize::MAX || s.count_paired == usize::MAX
                || s.count_unpaired == usize::MAX {
                assert(!self.local()[i as int].has_room());
                return false;
            }
            i = i + 1;
        }
        true
    }

    /// Tests that `global` can take the local table: same length, no sum overflows.
    pub fn can_fold(&self, global: &Vec<GuideStats>) -> (r: bool)
        ensures
            r == self.fold_fits(global@),
    {
        if global.len() != self.tl_counts.len() {
            return false;
        }
        let mut i: usize = 0;
        while i < global.len()
            invariant
                global.len() == self.local().len(),
                i <= global.len(),
                forall|j: int| 0 <= j < i ==> (#[trigger] global@[j]).sum_fits(self.local()[j]),
            decreases global.len() - i,
        {
            let g = global[i];
            let l = self.tl_counts[i];
            if g.count_g1 > usize::MAX - l.count_g1 || g.count_g2 > usize::MAX - l.count_g2
                || g.count_paired > usize::MAX - l.count_paired || g.count_unpaired > usize::MAX
                - l.count_unpaired {
                assert(!global@[i as int].sum_fits(self.local()[i as int]));
                return false;
            }
            i = i + 1;
        }
        true
    }

    /// Classifies one record's sequence against every guide and counts the
    /// outcome of each guide in the local table.
    pub fn process_record(&mut self, seq: &[u8])
        requires
            old(self).wf(),
            old(self).has_room(),
        ensures
            final(self).wf(),
            final(self).catalog() == old(self).catalog(),
            final(self).budget() == old(self).budget(),
            forall|i: int|
                0 <= i < final(self).local().len() ==> (#[trigger] final(self).local()[i]).counts()
                    == plus(
                    old(self).local()[i].counts(),
                    record_counts(
                        old(self).catalog().probe1(i),
                        old(self).catalog().probe2(i),
                        seq@,
                        old(self).budget(),
                    ),
                ),
    {
        let n = self.guides.len();
        let mut idx: usize = 0;
        while idx < n
            invariant
                self.wf(),
                self.catalog() == old(self).catalog(),
                self.budget() == old(self).budget(),
                n == self.catalog().size(),
                old(self).has_room(),
                old(self).local().len() == n,
                idx <= n,
                forall|i: int|
                    0 <= i < idx ==> (#[trigger] self.local()[i]).counts() == plus(
                        old(self).local()[i].counts(),
                        record_counts(
                            old(self).catalog().probe1(i),
                            old(self).catalog().probe2(i),
                            seq@,
                            old(self).budget(),
                        ),
                    ),
                forall|i: int| idx <= i < n ==> #[trigger] self.local()[i] == old(self).local()[i],
            decreases n - idx,
        {
            let g1 = &self.guides.g1[idx];
            let g2 = &self.guides.g2[idx];
            assert(iupac_pattern(self.catalog().probe1(idx as int)));
            assert(iupac_pattern(self.catalog().probe2(idx as int)));
            let match_g1 = found_within(&mut self.searcher, g1.as_slice(), seq, self.k);
            let match_g2 = found_within(&mut self.searcher, g2.as_slice(), seq, self.k);
            let mut stats = self.tl_counts[idx];
            assert(old(self).local()[idx as int].has_room());
            stats.record(match_g1, match_g2);
            self.tl_counts.set(idx, stats);
            idx = idx + 1;
        }
    }

    /// At a batch boundary: adds the local table into `global`, element by
    /// element, and zeroes the local table.
    pub fn on_batch_complete(&mut self, global: &mut Vec<GuideStats>)
        requires
            old(self).wf(),
            old(self).fold_fits(old(global)@),
        ensures
            final(self).wf(),
            final(self).catalog() == old(self).catalog(),
            final(self).budget() == old(self).budget(),
            final(global).len() == old(global).len(),
            forall|i: int|
                0 <= i < final(global).len() ==> (#[trigger] final(global)@[i]).counts() == plus(
                    old(global)@[i].counts(),
                    old(self).local()[i].counts(),
                ),
            forall|i: int|
                0 <= i < final(self).local().len() ==> (#[trigger] final(self).local()[i]).counts()
                    == zero_tally(),
    {
        let n = self.tl_counts.len();
        let mut idx: usize = 0;
        while idx < n
            invariant
                self.wf(),
                self.catalog() == old(self).catalog(),
                self.budget() == old(self).budget(),
                n == self.local().len(),
                global.len() == n,
                old(self).fold_fits(old(global)@),
                old(global).len() == n,
                idx <= n,
                forall|i: int|
                    0 <= i < idx ==> (#[trigger] global@[i]).counts() == plus(
                        old(global)@[i].counts(),
                        old(self).local()[i].counts(),
                    ),
                forall|i: int| 0 <= i < idx ==> (#[trigger] self.local()[i]).counts() == zero_tally(),
                forall|i: int| idx <= i < n ==> #[trigger] self.local()[i] == old(self).local()[i],
                forall|i: int| idx <= i < n ==> #[trigger] global@[i] == old(global)@[i],
            decreases n - idx,
        {
            let mut g = global[idx];
            let mut l = self.tl_counts[idx];
            assert(old(global)@[idx as int].sum_fits(old(self).local()[idx as int]));
            g.add_assign(l);
            l.clear();
            global.set(idx, g);
            self.tl_counts.set(idx, l);
            idx = idx + 1;
        }
    }
}

} // verus!
