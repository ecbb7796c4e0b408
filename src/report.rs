use crate::guides::Guides;
use crate::stats::GuideStats;
use crate::text::utf8_text;
use vstd::prelude::*;
use vstd::utf8::{decode_utf8, valid_utf8};

verus! {

/// Why the report cannot be assembled.
#[derive(Clone, Copy, Debug, PartialEq, Eq, Structural)]
pub enum ReportError {
    /// A stored name or sequence is not valid UTF-8.
    NonUtf8Sequence,
}

/// One row of the report: a guide's text columns and its four counters.
pub struct OutputStats {
    pub construct: String,
    pub alias: String,
    pub g1: String,
    pub g2: String,
    pub count_g1: usize,
    pub count_g2: usize,
    pub count_paired: usize,
    pub count_unpaired: usize,
}

/// All four byte strings read as text.
pub open spec fn all_text(c: Seq<u8>, a: Seq<u8>, p1: Seq<u8>, p2: Seq<u8>) -> bool {
    valid_utf8(c) && valid_utf8(a) && valid_utf8(p1) && valid_utf8(p2)
}

impl OutputStats {
    /// `self` renders the given columns and counters.
    pub open spec fn renders(
        &self,
        c: Seq<u8>,
        a: Seq<u8>,
        p1: Seq<u8>,
        p2: Seq<u8>,
        stats: GuideStats,
    ) -> bool {
        &&& self.construct@ == decode_utf8(c)
        &&& self.alias@ == decode_utf8(a)
        &&& self.g1@ == decode_utf8(p1)
        &&& self.g2@ == decode_utf8(p2)
        &&& self.count_g1 == stats.count_g1
        &&& self.count_g2 == stats.count_g2
        &&& self.count_paired == stats.count_paired
        &&& self.count_unpaired == stats.count_unpaired
    }

    /// Builds one row; fails when a column is not valid UTF-8.
    pub fn new(construct: &[u8], alias: &[u8], g1: &[u8], g2: &[u8], stats: GuideStats) -> (r: Result<
        OutputStats,
        ReportError,
    >)
        ensures
            r is Ok <==> all_text(construct@, alias@, g1@, g2@),
            r is Ok ==> r->Ok_0.renders(construct@, alias@, g1@, g2@, stats),
            r is Err ==> r->Err_0 == ReportError::NonUtf8Sequence,
    {
        let construct = match utf8_text(construct) {
            Some(s) => s,
            None => return Err(ReportError::NonUtf8Sequence),
        };
        let alias = match utf8_text(alias) {
            Some(s) => s,
            None => return Err(ReportError::NonUtf8Sequence),
        };
        let g1 = match utf8_text(g1) {
            Some(s) => s,
            None => return Err(ReportError::NonUtf8Sequence),
        };
        let g2 = match utf8_text(g2) {
            Some(s) => s,
            None => return Err(ReportError::NonUtf8Sequence),
        };
        Ok(
            OutputStats {
                construct,
                alias,
                g1,
                g2,
                count_g1: stats.count_g1,
                count_g2: stats.count_g2,
                count_paired: stats.count_paired,
                count_unpaired: stats.count_unpaired,
            },
        )
    }
}

/// Every column of guide `i` reads as text.
pub open spec fn entry_is_text(g: Guides, i: int) -> bool {
    all_text(g.name(i), g.alias_of(i), g.probe1(i), g.probe2(i))
}

/// The report: one row per guide, in catalog order, each joined with the
/// counters at the same index. Fails when some column is not valid UTF-8.
pub fn report_rows(guides: &Guides, global: &Vec<GuideStats>) -> (r: Result<
    Vec<OutputStats>,
    ReportError,
>)
    requires
        guides.wf(),
        global.len() == guides.size(),
    ensures
        r is Ok <==> forall|i: int| 0 <= i < guides.size() ==> #[trigger] entry_is_text(*guides, i),
        r is Ok ==> r->Ok_0.len() == guides.size() && forall|i: int|
            0 <= i < guides.size() ==> (#[trigger] r->Ok_0@[i]).renders(
                guides.name(i),
                guides.alias_of(i),
                guides.probe1(i),
                guides.probe2(i),
                global@[i],
            ),
        r is Err ==> r->Err_0 == ReportError::NonUtf8Sequence,
{
    let entries = guides.iter_all();
    let mut rows: Vec<OutputStats> = Vec::new();
    let mut n: usize = 0;
    while n < entries.len()
        invariant
            entries.len() == guides.size(),
            forall|i: int|
                0 <= i < entries.len() ==> (#[trigger] entries@[i]).0 == i && entries@[i].1@
                    == guides.name(i) && entries@[i].2@ == guides.alias_of(i) && entries@[i].3@
                    == guides.probe1(i) && entries@[i].4@ == guides.probe2(i),
            global.len() == guides.size(),
            n <= entries.len(),
            rows.len() == n,
            forall|i: int| 0 <= i < n ==> #[trigger] entry_is_text(*guides, i),
            forall|i: int|
                0 <= i < n ==> (#[trigger] rows@[i]).renders(
                    guides.name(i),
                    guides.alias_of(i),
                    guides.probe1(i),
                    guides.probe2(i),
                    global@[i],
                ),
        decreases entries.len() - n,
    {
        let (idx, construct, alias, g1, g2) = entries[n];
        let row = OutputStats::new(
            construct.as_slice(),
            alias.as_slice(),
            g1.as_slice(),
            g2.as_slice(),
            global[idx],
        );
        match row {
            Ok(row) => {
                rows.push(row);
            },
            Err(e) => {
                assert(!entry_is_text(*guides, n as int));
                return Err(e);
            },
        }
        n = n + 1;
    }
    Ok(rows)
}

} // verus!
