use crate::guides::Guides;
use crate::processor::record_counts;
use crate::report::OutputStats;
use crate::search::iupac_hit;
use crate::stats::{outcome, plus, zero_tally, Counts, GuideStats};
use crate::text::ascii_upper_bytes;
use vstd::prelude::*;
use vstd::utf8::{encode_utf8, is_ascii_chars, is_ascii_chars_encode_utf8};

verus! {

/// The outcome policy of one record on a guide's counters `c`: g1 alone adds
/// one to `g1` and to `unpaired`; g2 alone adds one to `g2` and to `unpaired`;
/// both add one to `g1`, `g2` and `paired`; neither changes nothing.
pub proof fn outcome_policy(c: Counts)
    ensures
        plus(c, outcome(true, false)) == (Counts { g1: c.g1 + 1, unpaired: c.unpaired + 1, ..c }),
        plus(c, outcome(false, true)) == (Counts { g2: c.g2 + 1, unpaired: c.unpaired + 1, ..c }),
        plus(c, outcome(true, true)) == (Counts {
            g1: c.g1 + 1,
            g2: c.g2 + 1,
            paired: c.paired + 1,
            ..c
        }),
        plus(c, outcome(false, false)) == c,
{
}

/// What a sequence of records contributes, in total, to a guide with probes
/// `p1` and `p2` under edit budget `k`.
pub open spec fn tally(p1: Seq<u8>, p2: Seq<u8>, rs: Seq<Seq<u8>>, k: nat) -> Counts
    decreases rs.len(),
{
    if rs.len() == 0 {
        zero_tally()
    } else {
        plus(tally(p1, p2, rs.drop_last(), k), record_counts(p1, p2, rs.last(), k))
    }
}

/// Counting the records of `a` and then those of `b` (two batches, folded one
/// after the other) gives the same totals as counting `a + b` in one go.
pub proof fn tally_split(p1: Seq<u8>, p2: Seq<u8>, a: Seq<Seq<u8>>, b: Seq<Seq<u8>>, k: nat)
    ensures
        tally(p1, p2, a + b, k) == plus(tally(p1, p2, a, k), tally(p1, p2, b, k)),
    decreases b.len(),
{
    if b.len() == 0 {
        assert(a + b =~= a);
    } else {
        assert((a + b).drop_last() =~= a + b.drop_last());
        assert((a + b).last() == b.last());
        tally_split(p1, p2, a, b.drop_last(), k);
    }
}

/// The totals depend only on which records were counted, as a multiset: any
/// order, and so any split into batches and workers, gives the same totals.
pub proof fn tally_order_free(p1: Seq<u8>, p2: Seq<u8>, rs: Seq<Seq<u8>>, ts: Seq<Seq<u8>>, k: nat)
    requires
        rs.to_multiset() == ts.to_multiset(),
    ensures
        tally(p1, p2, rs, k) == tally(p1, p2, ts, k),
    decreases rs.len(),
{
    broadcast use vstd::seq_lib::group_to_multiset_ensures;

    if rs.len() == 0 {
        assert(ts.to_multiset().len() == 0);
        assert(ts =~= rs);
    } else {
        let x = rs.last();
        let front = rs.drop_last();
        assert(front.push(x) =~= rs);
        assert(rs.to_multiset().count(x) > 0);
        assert(ts.contains(x));
        let j = choose|j: int| 0 <= j < ts.len() && ts[j] == x;
        let rest = ts.remove(j);
        assert(rest.to_multiset() =~= ts.to_multiset().remove(x));
        assert(front.to_multiset() =~= rs.to_multiset().remove(x));
        tally_order_free(p1, p2, front, rest, k);
        let pre = ts.subrange(0, j);
        let post = ts.subrange(j + 1, ts.len() as int);
        assert(rest =~= pre + post);
        assert(ts =~= (pre + seq![x]) + post);
        tally_split(p1, p2, pre, post, k);
        tally_split(p1, p2, pre + seq![x], post, k);
        tally_split(p1, p2, pre, seq![x], k);
        assert(seq![x].drop_last() =~= Seq::<Seq<u8>>::empty());
        tally_split(p1, p2, front, seq![x], k);
        assert(front + seq![x] =~= rs);
    }
}

/// The totals of a list of batches, each counted on its own and folded into
/// one table.
pub open spec fn batch_sum(p1: Seq<u8>, p2: Seq<u8>, bs: Seq<Seq<Seq<u8>>>, k: nat) -> Counts
    decreases bs.len(),
{
    if bs.len() == 0 {
        zero_tally()
    } else {
        plus(tally(p1, p2, bs[0], k), batch_sum(p1, p2, bs.drop_first(), k))
    }
}

/// Folding the totals of each batch gives the totals of all their records.
pub proof fn batch_sum_is_tally(p1: Seq<u8>, p2: Seq<u8>, bs: Seq<Seq<Seq<u8>>>, k: nat)
    ensures
        batch_sum(p1, p2, bs, k) == tally(p1, p2, bs.flatten(), k),
    decreases bs.len(),
{
    if bs.len() > 0 {
        batch_sum_is_tally(p1, p2, bs.drop_first(), k);
        tally_split(p1, p2, bs[0], bs.drop_first().flatten(), k);
    }
}

/// Two partitions of the same records into batches, in any order and over any
/// number of workers, fold to the same totals.
pub proof fn partitions_agree(
    p1: Seq<u8>,
    p2: Seq<u8>,
    bs: Seq<Seq<Seq<u8>>>,
    cs: Seq<Seq<Seq<u8>>>,
    k: nat,
)
    requires
        bs.flatten().to_multiset() == cs.flatten().to_multiset(),
    ensures
        batch_sum(p1, p2, bs, k) == batch_sum(p1, p2, cs, k),
{
    batch_sum_is_tally(p1, p2, bs, k);
    batch_sum_is_tally(p1, p2, cs, k);
    tally_order_free(p1, p2, bs.flatten(), cs.flatten(), k);
}

/// A run of steps that each add one record's contribution, as
/// `process_record` does to a guide's local counters, ends at its start plus
/// the tally of those records.
pub proof fn steps_make_tally(
    p1: Seq<u8>,
    p2: Seq<u8>,
    states: Seq<Counts>,
    rs: Seq<Seq<u8>>,
    k: nat,
)
    requires
        states.len() == rs.len() + 1,
        forall|j: int|
            0 <= j < rs.len() ==> states[j + 1] == plus(
                states[j],
                record_counts(p1, p2, #[trigger] rs[j], k),
            ),
    ensures
        states.last() == plus(states[0], tally(p1, p2, rs, k)),
    decreases rs.len(),
{
    if rs.len() > 0 {
        let n = rs.len() - 1;
        assert forall|j: int| 0 <= j < rs.drop_last().len() implies states.drop_last()[j + 1] == plus(
            states.drop_last()[j],
            record_counts(p1, p2, #[trigger] rs.drop_last()[j], k),
        ) by {
            assert(rs.drop_last()[j] == rs[j]);
        }
        steps_make_tally(p1, p2, states.drop_last(), rs.drop_last(), k);
        assert(rs[n] == rs.last());
    }
}

/// A run of batch folds that each add one batch's tally, as
/// `on_batch_complete` does to a guide's global counters when the local
/// counters started the batch at zero, ends at its start plus the batch sum.
pub proof fn folds_make_batch_sum(
    p1: Seq<u8>,
    p2: Seq<u8>,
    globals: Seq<Counts>,
    bs: Seq<Seq<Seq<u8>>>,
    k: nat,
)
    requires
        globals.len() == bs.len() + 1,
        forall|j: int|
            0 <= j < bs.len() ==> globals[j + 1] == plus(globals[j], tally(p1, p2, #[trigger] bs[j], k)),
    ensures
        globals.last() == plus(globals[0], batch_sum(p1, p2, bs, k)),
    decreases bs.len(),
{
    if bs.len() > 0 {
        assert forall|j: int| 0 <= j < bs.drop_first().len() implies globals.drop_first()[j + 1]
            == plus(globals.drop_first()[j], tally(p1, p2, #[trigger] bs.drop_first()[j], k)) by {
            assert(bs.drop_first()[j] == bs[j + 1]);
        }
        folds_make_batch_sum(p1, p2, globals.drop_first(), bs.drop_first(), k);
    }
}

/// Two characters that are equal, or the two cases of one ASCII letter.
pub open spec fn same_ignoring_case(x: char, y: char) -> bool {
    x == y || ('a' <= x && x <= 'z' && (x as u32) == (y as u32) + 32) || ('a' <= y && y <= 'z'
        && (y as u32) == (x as u32) + 32)
}

/// Two ASCII probe texts that differ only in letter case are stored as the same
/// bytes, and so are found, or not, in every record alike.
pub proof fn probes_ignore_case(a: Seq<char>, b: Seq<char>, text: Seq<u8>, k: nat)
    requires
        is_ascii_chars(a),
        is_ascii_chars(b),
        a.len() == b.len(),
        forall|i: int| 0 <= i < a.len() ==> same_ignoring_case(#[trigger] a[i], b[i]),
    ensures
        ascii_upper_bytes(encode_utf8(a)) == ascii_upper_bytes(encode_utf8(b)),
        iupac_hit(ascii_upper_bytes(encode_utf8(a)), text, k) == iupac_hit(
            ascii_upper_bytes(encode_utf8(b)),
            text,
            k,
        ),
{
    is_ascii_chars_encode_utf8(a);
    is_ascii_chars_encode_utf8(b);
    let ea = encode_utf8(a);
    let eb = encode_utf8(b);
    assert forall|i: int| 0 <= i < ea.len() implies #[trigger] ascii_upper_bytes(ea)[i]
        == ascii_upper_bytes(eb)[i] by {
        assert(ea[i] == a[i] as u8);
        assert(eb[i] == b[i] as u8);
        assert(same_ignoring_case(a[i], b[i]));
    }
    assert(ascii_upper_bytes(ea) =~= ascii_upper_bytes(eb));
}

/// The report is a function of the catalog and the final counters alone: two
/// row lists that both render every guide with the same counters are equal
/// column by column.
pub proof fn report_determined(
    g: Guides,
    stats: Seq<GuideStats>,
    r1: Seq<OutputStats>,
    r2: Seq<OutputStats>,
)
    requires
        r1.len() == g.size(),
        r2.len() == g.size(),
        stats.len() == g.size(),
        forall|i: int|
            0 <= i < g.size() ==> (#[trigger] r1[i]).renders(
                g.name(i),
                g.alias_of(i),
                g.probe1(i),
                g.probe2(i),
                stats[i],
            ),
        forall|i: int|
            0 <= i < g.size() ==> (#[trigger] r2[i]).renders(
                g.name(i),
                g.alias_of(i),
                g.probe1(i),
                g.probe2(i),
                stats[i],
            ),
    ensures
        forall|i: int|
            0 <= i < g.size() ==> (#[trigger] r1[i]).construct@ == r2[i].construct@ && r1[i].alias@
                == r2[i].alias@ && r1[i].g1@ == r2[i].g1@ && r1[i].g2@ == r2[i].g2@
                && r1[i].count_g1 == r2[i].count_g1 && r1[i].count_g2 == r2[i].count_g2
                && r1[i].count_paired == r2[i].count_paired && r1[i].count_unpaired
                == r2[i].count_unpaired,
{
    assert forall|i: int| 0 <= i < g.size() implies #[trigger] r1[i].construct@ == r2[i].construct@
        && r1[i].alias@ == r2[i].alias@ && r1[i].g1@ == r2[i].g1@ && r1[i].g2@ == r2[i].g2@
        && r1[i].count_g1 == r2[i].count_g1 && r1[i].count_g2 == r2[i].count_g2
        && r1[i].count_paired == r2[i].count_paired && r1[i].count_unpaired
        == r2[i].count_unpaired by {
        assert(r1[i].renders(g.name(i), g.alias_of(i), g.probe1(i), g.probe2(i), stats[i]));
        assert(r2[i].renders(g.name(i), g.alias_of(i), g.probe1(i), g.probe2(i), stats[i]));
    }
}

} // verus!
