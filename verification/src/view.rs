//! View and selection rectangles.

use vstd::prelude::*;

verus! {

/// An axis-aligned region given by its four edges, used both for the
/// complex-plane view and for screen-space selections.
///
/// No ordering is enforced between `left`/`right` or `top`/`bottom`:
/// consumers that need a width or height take `right - left` and
/// `bottom - top`, which may be negative if the caller has not maintained
/// the ordering. Callers that compose views must therefore guard against
/// degenerate (zero-area or inverted) regions before mapping pixels
/// through them.
#[derive(Debug)]
pub struct Rectangle<T> {
    pub left: T,
    pub top: T,
    pub right: T,
    pub bottom: T,
}

/// Scale composition, in exact arithmetic: each edge of the normalized
/// sub-rectangle `s` is mapped into the frame of the view `v`, a
/// fraction of the view's width or height past its left or top edge.
/// This is the rule by which a zoom or pan selection becomes a new
/// view; the host evaluates the same formula over floating-point
/// coordinates and so follows it up to rounding.
pub open spec fn spec_scale_view(v: Rectangle<int>, s: Rectangle<int>) -> Rectangle<int> {
    let width = v.right - v.left;
    let height = v.bottom - v.top;
    Rectangle {
        left: v.left + s.left * width,
        top: v.top + s.top * height,
        right: v.left + s.right * width,
        bottom: v.top + s.bottom * height,
    }
}

/// One edge of a composed scale: refining an edge at fraction `e1` of a
/// frame of origin `a` and extent `w`, then taking fraction `e2` of the
/// refined extent (up to the opposite edge at fraction `o1`), lands on
/// the single combined fraction `e1 + e2 * (o1 - e1)` of the original
/// frame.
proof fn lemma_compose_edge(a: int, w: int, e1: int, o1: int, e2: int)
    ensures
        (a + e1 * w) + e2 * ((a + o1 * w) - (a + e1 * w)) == a + (e1 + e2 * (o1 - e1)) * w,
{
    assert((a + e1 * w) + e2 * ((a + o1 * w) - (a + e1 * w)) == a + (e1 + e2 * (o1 - e1)) * w)
        by (nonlinear_arith);
}

/// Scale composition is associative: applying two sub-rectangle scales
/// one after the other yields the same view as applying, once, the
/// composition of the two scales (the second mapped into the frame of
/// the first). In exact arithmetic the agreement is exact; evaluated
/// over floating-point coordinates it holds up to rounding.
pub proof fn lemma_scale_view_associative(
    v: Rectangle<int>,
    s1: Rectangle<int>,
    s2: Rectangle<int>,
)
    ensures
        spec_scale_view(spec_scale_view(v, s1), s2) == spec_scale_view(v, spec_scale_view(s1, s2)),
{
    let width = v.right - v.left;
    let height = v.bottom - v.top;
    lemma_compose_edge(v.left, width, s1.left, s1.right, s2.left);
    lemma_compose_edge(v.left, width, s1.left, s1.right, s2.right);
    lemma_compose_edge(v.top, height, s1.top, s1.bottom, s2.top);
    lemma_compose_edge(v.top, height, s1.top, s1.bottom, s2.bottom);
}

} // verus!
