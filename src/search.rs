use sassy::profiles::Iupac;
use sassy::Searcher;
use vstd::prelude::*;

verus! {

/// A forward IUPAC searcher of sassy, opaque. It holds only configuration,
/// fixed at creation, and reusable buffers: no answer depends on its past.
#[verifier::external_body]
pub struct IupacSearcher {
    inner: Searcher<Iupac>,
}

impl Clone for IupacSearcher {
    /// Relies on sassy's `Searcher::clone`: a searcher of the same configuration.
    #[verifier::external_body]
    fn clone(&self) -> (r: IupacSearcher) {
        IupacSearcher { inner: self.inner.clone() }
    }
}

/// ASCII upper-casing of one byte.
pub open spec fn fold_case(c: u8) -> u8 {
    if 97 <= c && c <= 122 {
        (c - 32) as u8
    } else {
        c
    }
}

/// A byte of the IUPAC nucleotide alphabet, in either case: the bases, `U`,
/// the ambiguity codes and `X`.
pub open spec fn iupac_byte(c: u8) -> bool {
    let u = fold_case(c);
    u == 65 /* A */ || u == 67 /* C */ || u == 71 /* G */ || u == 84 /* T */ || u == 85 /* U */
        || u == 78 /* N */ || u == 82 /* R */ || u == 89 /* Y */ || u == 83 /* S */ || u == 87 /* W */
        || u == 75 /* K */ || u == 77 /* M */ || u == 66 /* B */ || u == 68 /* D */ || u == 72 /* H */
        || u == 86 /* V */ || u == 88 /* X */
}

/// The upper-case code `u` occurs in `p`, in either case.
pub open spec fn uses_code(p: Seq<u8>, u: u8) -> bool {
    exists|i: int| 0 <= i < p.len() && fold_case(#[trigger] p[i]) == u
}

/// The searcher's profile holds sixteen codes: A, C, G, T and at most twelve
/// others, so `p` leaves at least one of the thirteen other codes unused.
pub open spec fn codes_fit(p: Seq<u8>) -> bool {
    !(uses_code(p, 85) && uses_code(p, 78) && uses_code(p, 82) && uses_code(p, 89) && uses_code(
        p,
        83,
    ) && uses_code(p, 87) && uses_code(p, 75) && uses_code(p, 77) && uses_code(p, 66)
        && uses_code(p, 68) && uses_code(p, 72) && uses_code(p, 86) && uses_code(p, 88))
}

/// A pattern that the IUPAC searcher accepts: non-empty, IUPAC throughout, and
/// with room for its codes in the profile.
pub open spec fn iupac_pattern(p: Seq<u8>) -> bool {
    &&& p.len() > 0
    &&& forall|i: int| 0 <= i < p.len() ==> iupac_byte(#[trigger] p[i])
    &&& codes_fit(p)
}

/// The largest edit budget that the searcher takes: it computes costs in `i32`.
pub const MAX_BUDGET: usize = 2147483647;

/// Whether `pattern` occurs in `text` with an edit cost of at most `k`, under
/// the IUPAC alphabet (forward strand, no overhang).
pub uninterp spec fn iupac_hit(pattern: Seq<u8>, text: Seq<u8>, k: nat) -> bool;

/// Relies on sassy's `Searcher::new_fwd`: a searcher of the forward strand
/// only, with no overhang cost; its buffers are only a cache.
#[verifier::external_body]
pub(crate) fn new_searcher() -> (r: IupacSearcher) {
    IupacSearcher { inner: Searcher::<Iupac>::new_fwd() }
}

/// Relies on sassy's `Searcher::search` on a forward searcher: the returned
/// match list is non-empty exactly when the pattern occurs in the text within
/// cost `k`, which depends on the three arguments alone. The pattern must be
/// IUPAC, else the profile's encoder panics, and non-empty, else the row reset
/// indexes an empty buffer; its codes must fit the profile's sixteen, else the
/// text encoder's assertion fails; and `k` must fit the `i32` cost type.
#[verifier::external_body]
pub(crate) fn found_within(
    searcher: &mut IupacSearcher,
    pattern: &[u8],
    text: &[u8],
    k: usize,
) -> (r: bool)
    requires
        iupac_pattern(pattern@),
        k <= MAX_BUDGET,
    ensures
        r == iupac_hit(pattern@, text@, k as nat),
{
    !searcher.inner.search(pattern, text, k).is_empty()
}

/// Tests whether `p` is a pattern that the searcher accepts.
pub fn is_iupac(p: &[u8]) -> (r: bool)
    ensures
        r == iupac_pattern(p@),
{
    if p.len() == 0 {
        return false;
    }
    let mut i: usize = 0;
    while i < p.len()
        invariant
            0 < p.len(),
            0 <= i <= p.len(),
            forall|j: int| 0 <= j < i ==> iupac_byte(#[trigger] p@[j]),
        decreases p.len() - i,
    {
        let u = upper(p[i]);
        let ok = u == 65 || u == 67 || u == 71 || u == 84 || u == 85 || u == 78 || u == 82 || u == 89
            || u == 83 || u == 87 || u == 75 || u == 77 || u == 66 || u == 68 || u == 72 || u == 86
            || u == 88;
        if !ok {
            assert(!iupac_byte(p@[i as int]));
            return false;
        }
        i = i + 1;
    }
    !(has_code(p, 85) && has_code(p, 78) && has_code(p, 82) && has_code(p, 89) && has_code(p, 83)
        && has_code(p, 87) && has_code(p, 75) && has_code(p, 77) && has_code(p, 66) && has_code(
        p,
        68,
    ) && has_code(p, 72) && has_code(p, 86) && has_code(p, 88))
}

fn upper(c: u8) -> (r: u8)
    ensures
        r == fold_case(c),
{
    if 97 <= c && c <= 122 {
        c - 32
    } else {
        c
    }
}

/// Tests whether the upper-case code `u` occurs in `p`, in either case.
fn has_code(p: &[u8], u: u8) -> (r: bool)
    ensures
        r == uses_code(p@, u),
{
    let mut i: usize = 0;
    while i < p.len()
        invariant
            0 <= i <= p.len(),
            forall|j: int| 0 <= j < i ==> fold_case(#[trigger] p@[j]) != u,
        decreases p.len() - i,
    {
        if upper(p[i]) == u {
            return true;
        }
        i = i + 1;
    }
    false
}

} // verus!
