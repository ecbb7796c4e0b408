use crate::search::{iupac_pattern, is_iupac};
use crate::text::{ascii_upper_bytes, upper_of, uppercase};
use vstd::prelude::*;
use vstd::slice::slice_to_vec;
use vstd::utf8::{encode_utf8, is_ascii_chars};

verus! {

/// One line of the guide table: the pair's name, its alias and the two probes
/// as written in the source.
pub struct GuideRow {
    pub construct: String,
    pub alias: String,
    pub g1: String,
    pub g2: String,
}

/// The bytes stored for a probe written as `s`: its upper-case form in UTF-8.
pub open spec fn stored_probe(s: Seq<char>) -> Seq<u8> {
    encode_utf8(upper_of(s))
}

/// The guide catalog, as four index-aligned columns.
#[derive(Clone)]
pub struct Guides {
    pub construct: Vec<Vec<u8>>,
    pub alias: Vec<Vec<u8>>,
    pub g1: Vec<Vec<u8>>,
    pub g2: Vec<Vec<u8>>,
}

impl Guides {
    /// The four columns have one entry per guide.
    pub open spec fn wf(&self) -> bool {
        self.alias.len() == self.construct.len() && self.g1.len() == self.construct.len()
            && self.g2.len() == self.construct.len()
    }

    pub open spec fn size(&self) -> nat {
        self.construct.len() as nat
    }

    pub open spec fn name(&self, i: int) -> Seq<u8> {
        self.construct@[i]@
    }

    pub open spec fn alias_of(&self, i: int) -> Seq<u8> {
        self.alias@[i]@
    }

    pub open spec fn probe1(&self, i: int) -> Seq<u8> {
        self.g1@[i]@
    }

    pub open spec fn probe2(&self, i: int) -> Seq<u8> {
        self.g2@[i]@
    }

    /// Every probe of every guide is a non-empty IUPAC pattern.
    pub open spec fn searchable(&self) -> bool {
        forall|i: int|
            0 <= i < self.size() ==> iupac_pattern(#[trigger] self.probe1(i)) && iupac_pattern(
                self.probe2(i),
            )
    }

    /// `self` is `old` with one more guide at the end.
    pub open spec fn extends(&self, old: &Guides, c: Seq<u8>, a: Seq<u8>, p1: Seq<u8>, p2: Seq<u8>) -> bool {
        &&& self.wf()
        &&& self.size() == old.size() + 1
        &&& forall|i: int|
            #![trigger self.name(i)]
            #![trigger self.probe1(i)]
            #![trigger self.probe2(i)]
            0 <= i < old.size() ==> self.name(i) == old.name(i) && self.alias_of(i)
                == old.alias_of(i) && self.probe1(i) == old.probe1(i) && self.probe2(i)
                == old.probe2(i)
        &&& self.name(old.size() as int) == c
        &&& self.alias_of(old.size() as int) == a
        &&& self.probe1(old.size() as int) == p1
        &&& self.probe2(old.size() as int) == p2
    }

    /// An empty catalog.
    pub fn new() -> (r: Guides)
        ensures
            r.wf(),
            r.size() == 0,
    {
        Guides { construct: Vec::new(), alias: Vec::new(), g1: Vec::new(), g2: Vec::new() }
    }

    /// The number of guides.
    pub fn len(&self) -> (r: usize)
        ensures
            r == self.size(),
    {
        self.construct.len()
    }

    /// Appends one guide, storing the four byte strings as given.
    pub fn add_record(&mut self, construct: &[u8], alias: &[u8], g1: &[u8], g2: &[u8])
        requires
            old(self).wf(),
        ensures
            final(self).extends(old(self), construct@, alias@, g1@, g2@),
    {
        self.construct.push(slice_to_vec(construct));
        self.alias.push(slice_to_vec(alias));
        self.g1.push(slice_to_vec(g1));
        self.g2.push(slice_to_vec(g2));
    }

    /// Appends the guide of one table line; its probes are stored in upper case.
    pub fn add_row(&mut self, row: &GuideRow)
        requires
            old(self).wf(),
        ensures
            final(self).extends(
                old(self),
                encode_utf8(row.construct@),
                encode_utf8(row.alias@),
                stored_probe(row.g1@),
                stored_probe(row.g2@),
            ),
            is_ascii_chars(row.g1@) ==> final(self).probe1(old(self).size() as int)
                == ascii_upper_bytes(encode_utf8(row.g1@)),
            is_ascii_chars(row.g2@) ==> final(self).probe2(old(self).size() as int)
                == ascii_upper_bytes(encode_utf8(row.g2@)),
    {
        let u1 = uppercase(row.g1.as_str());
        let u2 = uppercase(row.g2.as_str());
        self.add_record(
            row.construct.as_str().as_bytes(),
            row.alias.as_str().as_bytes(),
            u1.as_str().as_bytes(),
            u2.as_str().as_bytes(),
        );
    }

    /// Builds the catalog from the table's lines, in order.
    pub fn from_rows(rows: &Vec<GuideRow>) -> (r: Guides)
        ensures
            r.wf(),
            r.size() == rows.len(),
            forall|i: int|
                0 <= i < rows.len() ==> #[trigger] r.name(i) == encode_utf8(rows@[i].construct@)
                    && r.alias_of(i) == encode_utf8(rows@[i].alias@) && r.probe1(i)
                    == stored_probe(rows@[i].g1@) && r.probe2(i) == stored_probe(rows@[i].g2@),
            forall|i: int|
                0 <= i < rows.len() && is_ascii_chars(rows@[i].g1@) ==> #[trigger] r.probe1(i)
                    == ascii_upper_bytes(encode_utf8(rows@[i].g1@)),
            forall|i: int|
                0 <= i < rows.len() && is_ascii_chars(rows@[i].g2@) ==> #[trigger] r.probe2(i)
                    == ascii_upper_bytes(encode_utf8(rows@[i].g2@)),
    {
        let mut guides = Guides::new();
        let mut n: usize = 0;
        while n < rows.len()
            invariant
                n <= rows.len(),
                guides.wf(),
                guides.size() == n,
                forall|i: int|
                    0 <= i < n ==> #[trigger] guides.name(i) == encode_utf8(rows@[i].construct@)
                        && guides.alias_of(i) == encode_utf8(rows@[i].alias@) && guides.probe1(i)
                        == stored_probe(rows@[i].g1@) && guides.probe2(i) == stored_probe(
                        rows@[i].g2@,
                    ),
                forall|i: int|
                    0 <= i < n && is_ascii_chars(rows@[i].g1@) ==> #[trigger] guides.probe1(i)
                        == ascii_upper_bytes(encode_utf8(rows@[i].g1@)),
                forall|i: int|
                    0 <= i < n && is_ascii_chars(rows@[i].g2@) ==> #[trigger] guides.probe2(i)
                        == ascii_upper_bytes(encode_utf8(rows@[i].g2@)),
            decreases rows.len() - n,
        {
            guides.add_row(&rows[n]);
            n = n + 1;
        }
        guides
    }

    /// Tests that every probe is a non-empty IUPAC pattern, which searching requires.
    pub fn all_iupac(&self) -> (r: bool)
        requires
            self.wf(),
        ensures
            r == self.searchable(),
    {
        let mut i: usize = 0;
        while i < self.g1.len()
            invariant
                self.wf(),
                i <= self.size(),
                forall|j: int|
                    0 <= j < i ==> iupac_pattern(#[trigger] self.probe1(j)) && iupac_pattern(
                        self.probe2(j),
                    ),
            decreases self.size() - i,
        {
            let s1 = self.g1[i].as_slice();
            let s2 = self.g2[i].as_slice();
            assert(s1@ == self.probe1(i as int));
            assert(s2@ == self.probe2(i as int));
            let ok1 = is_iupac(s1);
            let ok2 = is_iupac(s2);
            if !ok1 || !ok2 {
                assert(!(iupac_pattern(self.probe1(i as int)) && iupac_pattern(self.probe2(i as int))));
                return false;
            }
            i = i + 1;
        }
        true
    }

    /// The (index, g1, g2) view of every guide, in catalog order.
    pub fn iter_patterns(&self) -> (r: Vec<(usize, &Vec<u8>, &Vec<u8>)>)
        requires
            self.wf(),
        ensures
            r.len() == self.size(),
            forall|i: int|
                0 <= i < r.len() ==> (#[trigger] r@[i]).0 == i && r@[i].1@ == self.probe1(i)
                    && r@[i].2@ == self.probe2(i),
    {
        let mut out: Vec<(usize, &Vec<u8>, &Vec<u8>)> = Vec::new();
        let mut i: usize = 0;
        while i < self.g1.len()
            invariant
                self.wf(),
                i <= self.size(),
                out.len() == i,
                forall|j: int|
                    0 <= j < i ==> (#[trigger] out@[j]).0 == j && out@[j].1@ == self.probe1(j)
                        && out@[j].2@ == self.probe2(j),
            decreases self.size() - i,
        {
            out.push((i, &self.g1[i], &self.g2[i]));
            i = i + 1;
        }
        out
    }

    /// The (index, construct, alias, g1, g2) view of every guide, in catalog order.
    pub fn iter_all(&self) -> (r: Vec<(usize, &Vec<u8>, &Vec<u8>, &Vec<u8>, &Vec<u8>)>)
        requires
            self.wf(),
        ensures
            r.len() == self.size(),
            forall|i: int|
                0 <= i < r.len() ==> (#[trigger] r@[i]).0 == i && r@[i].1@ == self.name(i)
                    && r@[i].2@ == self.alias_of(i) && r@[i].3@ == self.probe1(i) && r@[i].4@
                    == self.probe2(i),
    {
        let mut out: Vec<(usize, &Vec<u8>, &Vec<u8>, &Vec<u8>, &Vec<u8>)> = Vec::new();
        let mut i: usize = 0;
        while i < self.construct.len()
            invariant
                self.wf(),
                i <= self.size(),
                out.len() == i,
                forall|j: int|
                    0 <= j < i ==> (#[trigger] out@[j]).0 == j && out@[j].1@ == self.name(j)
                        && out@[j].2@ == self.alias_of(j) && out@[j].3@ == self.probe1(j)
                        && out@[j].4@ == self.probe2(j),
            decreases self.size() - i,
        {
            out.push((i, &self.construct[i], &self.alias[i], &self.g1[i], &self.g2[i]));
            i = i + 1;
        }
        out
    }
}

impl Default for Guides {
    fn default() -> (r: Guides)
        ensures
            r.wf(),
            r.size() == 0,
    {
        Guides::new()
    }
}

} // verus!
