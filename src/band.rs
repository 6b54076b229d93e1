//! Byte bands: contiguous sub-ranges of a channel's value domain, each with
//! one meaning for the fixture.
use vstd::prelude::*;

verus! {

/// The inclusive byte range `start..=end`.
#[derive(Clone, Copy, Debug, PartialEq, Eq, Structural)]
pub struct Band {
    pub start: u8,
    pub end: u8,
}

/// Whether byte `v` falls inside band `b`.
pub open spec fn band_contains(b: Band, v: int) -> bool {
    b.start <= v <= b.end
}

/// Two bands share no byte.
pub open spec fn bands_disjoint(a: Band, b: Band) -> bool {
    a.end < b.start || b.end < a.start
}

/// A table of bands: each band is non-empty, and no two distinct bands of the
/// table intersect.
pub open spec fn table_well_formed(t: Seq<Band>) -> bool {
    &&& forall|i: int| 0 <= i < t.len() ==> #[trigger] t[i].start <= t[i].end
    &&& forall|i: int, j: int|
        0 <= i < t.len() && 0 <= j < t.len() && i != j ==> bands_disjoint(#[trigger] t[i], #[trigger] t[j])
}

/// Bands listed in increasing order, each ending before the next starts.
pub open spec fn table_ascending(t: Seq<Band>) -> bool {
    &&& forall|i: int| 0 <= i < t.len() ==> #[trigger] t[i].start <= t[i].end
    &&& forall|i: int| 0 <= i < t.len() - 1 ==> #[trigger] t[i].end < t[i + 1].start
}

/// The ascending order checked band by band from position `i` on, a form
/// that a table written out literally can be unfolded against.
pub open spec fn ascending_from(t: Seq<Band>, i: int) -> bool
    decreases t.len() - i,
{
    if i < 0 || i >= t.len() {
        true
    } else {
        &&& t[i].start <= t[i].end
        &&& (i == t.len() - 1 || t[i].end < t[i + 1].start)
        &&& ascending_from(t, i + 1)
    }
}

proof fn lemma_ascending_from(t: Seq<Band>, i: int, k: int)
    requires
        0 <= i <= k < t.len(),
        ascending_from(t, i),
    ensures
        t[k].start <= t[k].end,
        k < t.len() - 1 ==> t[k].end < t[k + 1].start,
    decreases k - i,
{
    if i < k {
        lemma_ascending_from(t, i + 1, k);
    }
}

/// A table that passes the band-by-band check is ascending.
pub proof fn lemma_chain_ascending(t: Seq<Band>)
    requires
        ascending_from(t, 0),
    ensures
        table_ascending(t),
{
    assert forall|k: int| 0 <= k < t.len() implies #[trigger] t[k].start <= t[k].end by {
        lemma_ascending_from(t, 0, k);
    }
    assert forall|k: int| 0 <= k < t.len() - 1 implies #[trigger] t[k].end < t[k + 1].start by {
        lemma_ascending_from(t, 0, k);
    }
}

/// The byte for sub-parameter `sub` inside band `b`, where each sub-parameter
/// step advances `step` bytes: `sub` is clamped to the largest step count that
/// still fits in the band.
pub open spec fn stepped_value(b: Band, sub: u8, step: u8) -> int
    recommends
        b.start <= b.end,
        step >= 1,
{
    let steps = (b.end - b.start) / (step as int);
    b.start + (if (sub as int) < steps { sub as int } else { steps }) * step
}

/// Ascending order makes any two distinct bands disjoint.
pub proof fn lemma_ascending_well_formed(t: Seq<Band>)
    requires
        table_ascending(t),
    ensures
        table_well_formed(t),
{
    assert forall|i: int, j: int|
        0 <= i < t.len() && 0 <= j < t.len() && i < j implies t[i].end < t[j].start by {
        lemma_ascending_gap(t, i, j);
    }
}

proof fn lemma_ascending_gap(t: Seq<Band>, i: int, j: int)
    requires
        table_ascending(t),
        0 <= i < j < t.len(),
    ensures
        t[i].end < t[j].start,
    decreases j - i,
{
    assert(t[j - 1].end < t[j].start);
    if i < j - 1 {
        lemma_ascending_gap(t, i, j - 1);
    }
}

/// The byte for sub-parameter `sub` in band `b`, clamped so that it never
/// leaves the band.
pub fn stepped(b: Band, sub: u8, step: u8) -> (r: u8)
    requires
        b.start <= b.end,
        step >= 1,
    ensures
        r == stepped_value(b, sub, step),
        band_contains(b, r as int),
{
    let width: u8 = b.end - b.start;
    let steps: u8 = width / step;
    let k: u8 = if sub < steps { sub } else { steps };
    proof {
        let w = width as int;
        let s = step as int;
        assert((w / s) * s <= w) by (nonlinear_arith)
            requires s >= 1, w >= 0;
        assert((k as int) * s <= (w / s) * s) by (nonlinear_arith)
            requires 0 <= k <= w / s, s >= 1;
    }
    b.start + k * step
}

} // verus!
