//! The fractal engine core.
//!
//! A render pass walks the viewport row-major, top-left origin. For each
//! pixel the host runs the Newton iteration on the source polynomial and
//! reports the outcome to the engine as plain values: either
//! non-convergence, or a converged root together with the iteration count
//! at which convergence was detected and the closeness verdicts against
//! the roots discovered so far. The engine owns everything downstream of
//! that boundary: the per-pass root registry with its
//! first-match-wins index assignment, the recorded per-pixel outcomes,
//! and the RGBA pixel buffer the renderer fills from a shading table.

use vstd::prelude::*;

verus! {

/// Upper bound on Newton iterations per starting point. A recorded
/// iteration count is the 0-based index of the iteration at which
/// convergence was detected, so it is always below this bound.
pub const MAX_ITERS: u32 = 100;

/// The alpha byte written for every pixel: full opacity.
pub const ALPHA: u8 = 255;

/// A complex value carried as the IEEE-754 bit patterns of its real and
/// imaginary parts. The engine stores discovered roots in this form and
/// treats them as opaque identities; all arithmetic on the underlying
/// floating-point values happens in the host, outside the engine.
#[derive(Clone, Copy, Debug, PartialEq, Eq, Structural)]
pub struct ComplexBits {
    pub re_bits: u64,
    pub im_bits: u64,
}

/// Why a construction request was rejected.
#[derive(Clone, Copy, Debug, PartialEq, Eq, Structural)]
pub enum FractalError {
    /// The viewport has zero width or zero height.
    ZeroDimension,
    /// Fewer than two polynomial coefficients were declared: the source
    /// polynomial would have degree zero.
    DegreeTooSmall,
    /// The requested pixel buffer would not fit in memory:
    /// `width * height * 4` overflows `usize`.
    TooLarge,
}

/// The registry's matching rule, as a relation between the closeness
/// verdicts of a candidate against the previously discovered roots (in
/// discovery order), the index the registry assigns, and whether the
/// candidate becomes a new registry entry.
///
/// The candidate is matched to the *first* root it is close to — no
/// best-match search — and only becomes a new entry when it is close to
/// none.
pub open spec fn assigns(close: Seq<bool>, idx: int, is_new: bool) -> bool {
    if is_new {
        &&& idx == close.len()
        &&& forall|j: int| 0 <= j < close.len() ==> !close[j]
    } else {
        &&& 0 <= idx < close.len()
        &&& close[idx]
        &&& forall|j: int| 0 <= j < idx ==> !close[j]
    }
}

/// The base color of a recorded pixel outcome under a shading table:
/// black for non-convergence, else the table entry for the pixel's root
/// index (cycling through the table) and iteration count.
pub open spec fn pixel_color(
    cand: Option<(usize, u32)>,
    shading: Seq<Seq<(u8, u8, u8)>>,
) -> (u8, u8, u8) {
    match cand {
        None => (0u8, 0u8, 0u8),
        Some(c) => shading[c.0 as int % shading.len() as int][c.1 as int],
    }
}

/// `buf` is exactly the RGBA buffer that the recorded outcomes `cands`
/// produce under the shading table: 4 bytes per outcome in recording
/// order, RGB from `pixel_color`, alpha constant.
pub open spec fn renders(
    cands: Seq<Option<(usize, u32)>>,
    shading: Seq<Seq<(u8, u8, u8)>>,
    buf: Seq<u8>,
) -> bool {
    &&& buf.len() == 4 * cands.len()
    &&& forall|p: int| 0 <= p < cands.len() ==> {
        let color = pixel_color(#[trigger] cands[p], shading);
        &&& buf[4 * p] == color.0
        &&& buf[4 * p + 1] == color.1
        &&& buf[4 * p + 2] == color.2
        &&& buf[4 * p + 3] == ALPHA
    }
}

/// The rows of a shading table, as mathematical sequences.
pub open spec fn rows(shading: Seq<Vec<(u8, u8, u8)>>) -> Seq<Seq<(u8, u8, u8)>> {
    Seq::new(shading.len(), |i: int| shading[i]@)
}

/// The Newton-fractal engine.
///
/// It owns the per-pass root registry, the per-pixel outcomes of the
/// current pass, and the RGBA pixel buffer. The host drives it through
/// `begin_pass`, one `record_*` call per pixel in row-major order, and
/// `render`.
#[derive(Debug)]
pub struct Fractal {
    /// Viewport width in pixels.
    pub width: usize,
    /// Viewport height in pixels.
    pub height: usize,
    /// Number of coefficients of the source polynomial (degree + 1).
    pub num_coefficients: usize,
    /// Roots discovered in the current pass, in discovery order. A
    /// root's position in this list is its identity: the index the
    /// palette is keyed on.
    pub roots: Vec<ComplexBits>,
    /// Per-pixel outcomes of the current pass in row-major recording
    /// order: `None` for non-convergence, else the assigned root index
    /// and the iteration count.
    pub candidates: Vec<Option<(usize, u32)>>,
    /// RGBA bytes, row-major, top-left origin, 4 per pixel.
    pub pixels: Vec<u8>,
}

impl Fractal {
    /// Some recorded outcome carries the root index `r`.
    pub open spec fn index_discovered(self, r: int) -> bool {
        exists|p: int|
            0 <= p < self.candidates@.len() && ((#[trigger] self.candidates@[p]) matches Some(c)
                && c.0 == r)
    }

    /// Well-formedness: the buffer always holds `width * height * 4`
    /// bytes, at most one outcome is recorded per pixel, and every
    /// recorded outcome carries an iteration count below the iteration
    /// bound and a root index that is dense: indices are 0-based,
    /// stay below the registry's size, and each one was assigned to at
    /// least one pixel when its root was discovered.
    pub open spec fn wf(self) -> bool {
        &&& self.width >= 1
        &&& self.height >= 1
        &&& self.num_coefficients >= 2
        &&& self.width * self.height * 4 <= usize::MAX
        &&& self.pixels@.len() == self.width * self.height * 4
        &&& self.candidates@.len() <= self.width * self.height
        &&& forall|p: int| 0 <= p < self.candidates@.len() ==>
            ((#[trigger] self.candidates@[p]) matches Some(c) ==>
                c.0 < self.roots@.len() && c.1 < MAX_ITERS)
        &&& forall|r: int| 0 <= r < self.roots@.len() ==> #[trigger] self.index_discovered(r)
    }

    /// Appending outcomes never un-discovers a root index: any index
    /// carried by a recorded outcome is still carried after the list of
    /// outcomes is extended.
    proof fn lemma_discovered_preserved(pre: Fractal, post: Fractal)
        requires
            post.candidates@.len() >= pre.candidates@.len(),
            forall|p: int| 0 <= p < pre.candidates@.len() ==> post.candidates@[p]
                == pre.candidates@[p],
        ensures
            forall|r: int| pre.index_discovered(r) ==> #[trigger] post.index_discovered(r),
    {
        assert forall|r: int| pre.index_discovered(r) implies #[trigger] post.index_discovered(
            r,
        ) by {
            let p = choose|p: int|
                0 <= p < pre.candidates@.len() && ((#[trigger] pre.candidates@[p]) matches Some(c)
                    && c.0 == r);
            assert(post.candidates@[p] == pre.candidates@[p]);
        }
    }

    /// Builds an engine for a `width` by `height` viewport over a source
    /// polynomial with `num_coefficients` coefficients. Malformed inputs
    /// are rejected here, never mid-pass: a zero dimension, a
    /// zero-degree polynomial, or a buffer size that overflows.
    /// On success the buffer is zeroed and the registry empty.
    pub fn new(width: usize, height: usize, num_coefficients: usize) -> (r: Result<
        Fractal,
        FractalError,
    >)
        ensures
            match r {
                Ok(f) => {
                    &&& width >= 1 && height >= 1 && num_coefficients >= 2
                    &&& width * height * 4 <= usize::MAX
                    &&& f.wf()
                    &&& f.width == width
                    &&& f.height == height
                    &&& f.num_coefficients == num_coefficients
                    &&& f.roots@.len() == 0
                    &&& f.candidates@.len() == 0
                    &&& forall|i: int| 0 <= i < f.pixels@.len() ==> f.pixels@[i] == 0u8
                },
                Err(FractalError::ZeroDimension) => width == 0 || height == 0,
                Err(FractalError::DegreeTooSmall) => width >= 1 && height >= 1
                    && num_coefficients < 2,
                Err(FractalError::TooLarge) => width >= 1 && height >= 1 && num_coefficients >= 2
                    && width * height * 4 > usize::MAX,
            },
    {
        if width == 0 || height == 0 {
            return Err(FractalError::ZeroDimension);
        }
        if num_coefficients < 2 {
            return Err(FractalError::DegreeTooSmall);
        }
        let area = match width.checked_mul(height) {
            Some(a) => a,
            None => {
                return Err(FractalError::TooLarge);
            },
        };
        let total = match area.checked_mul(4) {
            Some(t) => t,
            None => {
                return Err(FractalError::TooLarge);
            },
        };

        let mut pixels: Vec<u8> = Vec::new();
        let mut i: usize = 0;
        while i < total
            invariant
                i <= total,
                pixels@.len() == i,
                forall|k: int| 0 <= k < i ==> pixels@[k] == 0u8,
            decreases total - i,
        {
            pixels.push(0u8);
            i = i + 1;
        }

        Ok(Fractal {
            width,
            height,
            num_coefficients,
            roots: Vec::new(),
            candidates: Vec::new(),
            pixels,
        })
    }

    /// Starts a new render pass: clears the root registry and the
    /// recorded outcomes. Root identities are per-pass, not cumulative
    /// across renders; the pixel buffer keeps its previous contents
    /// until the next `render`.
    pub fn begin_pass(&mut self)
        requires
            old(self).wf(),
        ensures
            final(self).wf(),
            final(self).width == old(self).width,
            final(self).height == old(self).height,
            final(self).num_coefficients == old(self).num_coefficients,
            final(self).pixels@ == old(self).pixels@,
            final(self).roots@.len() == 0,
            final(self).candidates@.len() == 0,
    {
        self.roots = Vec::new();
        self.candidates = Vec::new();
    }

    /// Records a pixel whose starting point did not converge within the
    /// iteration bound. Non-convergence is a valid terminal state, not
    /// an error; the renderer colors such a pixel black.
    pub fn record_diverged(&mut self)
        requires
            old(self).wf(),
            old(self).candidates@.len() < old(self).width * old(self).height,
        ensures
            final(self).wf(),
            final(self).width == old(self).width,
            final(self).height == old(self).height,
            final(self).num_coefficients == old(self).num_coefficients,
            final(self).pixels@ == old(self).pixels@,
            final(self).roots@ == old(self).roots@,
            final(self).candidates@ == old(self).candidates@.push(None),
    {
        self.candidates.push(None);
        proof {
            Self::lemma_discovered_preserved(*old(self), *self);
        }
    }

    /// Records a pixel that converged to `root` after `iters`
    /// iterations. `close` holds the host's closeness verdicts of the
    /// candidate against each previously discovered root, in discovery
    /// order. The registry scans them in that order: the candidate is
    /// assigned the index of the first root it is close to, or becomes a
    /// new entry with the next dense index if it is close to none.
    /// Returns the assigned index.
    pub fn record_converged(&mut self, root: ComplexBits, close: &Vec<bool>, iters: u32) -> (idx:
        usize)
        requires
            old(self).wf(),
            old(self).candidates@.len() < old(self).width * old(self).height,
            close@.len() == old(self).roots@.len(),
            iters < MAX_ITERS,
        ensures
            final(self).wf(),
            final(self).width == old(self).width,
            final(self).height == old(self).height,
            final(self).num_coefficients == old(self).num_coefficients,
            final(self).pixels@ == old(self).pixels@,
            final(self).candidates@ == old(self).candidates@.push(Some((idx, iters))),
            ({
                let is_new = forall|j: int| 0 <= j < close@.len() ==> !close@[j];
                &&& assigns(close@, idx as int, is_new)
                &&& final(self).roots@ == (if is_new {
                    old(self).roots@.push(root)
                } else {
                    old(self).roots@
                })
            }),
    {
        let n = close.len();
        let mut i: usize = 0;
        while i < n
            invariant
                i <= n,
                n == close@.len(),
                forall|j: int| 0 <= j < i ==> !close@[j],
            ensures
                i <= n,
                forall|j: int| 0 <= j < i ==> !close@[j],
                i < n ==> close@[i as int],
            decreases n - i,
        {
            if close[i] {
                break;
            }
            i = i + 1;
        }

        if i < n {
            self.candidates.push(Some((i, iters)));
            proof {
                Self::lemma_discovered_preserved(*old(self), *self);
            }
            i
        } else {
            let idx = self.roots.len();
            self.roots.push(root);
            self.candidates.push(Some((idx, iters)));
            proof {
                Self::lemma_discovered_preserved(*old(self), *self);
                assert(self.candidates@[old(self).candidates@.len() as int] == Some(
                    (idx, iters),
                ));
                assert(self.index_discovered(idx as int));
            }
            idx
        }
    }

    /// Rebuilds the pixel buffer wholesale from the recorded outcomes.
    ///
    /// `shading` is the precomputed table of base colors: one row per
    /// palette color, one entry per possible iteration count. A pixel
    /// that converged to root index `r` after `i` iterations gets the
    /// RGB bytes of `shading[r % shading.len()][i]` — root indices
    /// beyond the table cycle through it — and a non-convergent pixel
    /// gets black. Every pixel's alpha byte is full opacity.
    #[verifier::loop_isolation(false)]
    pub fn render(&mut self, shading: &Vec<Vec<(u8, u8, u8)>>)
        requires
            old(self).wf(),
            old(self).candidates@.len() == old(self).width * old(self).height,
            shading@.len() >= 1,
            forall|c: int| 0 <= c < shading@.len() ==> (#[trigger] shading@[c])@.len()
                == MAX_ITERS,
        ensures
            final(self).wf(),
            final(self).width == old(self).width,
            final(self).height == old(self).height,
            final(self).num_coefficients == old(self).num_coefficients,
            final(self).roots@ == old(self).roots@,
            final(self).candidates@ == old(self).candidates@,
            renders(old(self).candidates@, rows(shading@), final(self).pixels@),
            final(self).pixels@.len() == old(self).width * old(self).height * 4,
    {
        let n = self.candidates.len();
        let mut buf: Vec<u8> = Vec::new();
        let mut p: usize = 0;
        while p < n
            invariant
                p <= n,
                buf@.len() == 4 * p,
                forall|q: int| 0 <= q < p ==> {
                    let color = pixel_color(#[trigger] self.candidates@[q], rows(shading@));
                    &&& buf@[4 * q] == color.0
                    &&& buf@[4 * q + 1] == color.1
                    &&& buf@[4 * q + 2] == color.2
                    &&& buf@[4 * q + 3] == ALPHA
                },
            decreases n - p,
        {
            match self.candidates[p] {
                None => {
                    buf.push(0u8);
                    buf.push(0u8);
                    buf.push(0u8);
                    buf.push(ALPHA);
                },
                Some((ri, it)) => {
                    let ci = ri % shading.len();
                    let color = shading[ci][it as usize];
                    buf.push(color.0);
                    buf.push(color.1);
                    buf.push(color.2);
                    buf.push(ALPHA);
                },
            }
            p = p + 1;
        }
        self.pixels = buf;
        proof {
            Self::lemma_discovered_preserved(*old(self), *self);
        }
    }

    /// The RGBA bytes of the pixel at column `x`, row `y`.
    pub fn pixel(&self, x: usize, y: usize) -> (rgba: (u8, u8, u8, u8))
        requires
            self.wf(),
            x < self.width,
            y < self.height,
        ensures
            rgba.0 == self.pixels@[4 * (y * self.width + x)],
            rgba.1 == self.pixels@[4 * (y * self.width + x) + 1],
            rgba.2 == self.pixels@[4 * (y * self.width + x) + 2],
            rgba.3 == self.pixels@[4 * (y * self.width + x) + 3],
    {
        proof {
            assert(4 * ((y as int) * (self.width as int) + (x as int)) + 3 < (self.width as int)
                * (self.height as int) * 4) by (nonlinear_arith)
                requires
                    (x as int) < (self.width as int),
                    (y as int) < (self.height as int),
                    0 <= (x as int),
                    0 <= (y as int),
                    1 <= (self.width as int),
                    1 <= (self.height as int),
            ;
        }
        let off = 4 * (y * self.width + x);
        (self.pixels[off], self.pixels[off + 1], self.pixels[off + 2], self.pixels[off + 3])
    }
}

/// Root-registry determinism: the matching rule is a function. For one
/// closeness outcome against one registry, only one index and one
/// new-entry decision satisfy the rule, so identical scans assign
/// identical root indices.
pub proof fn lemma_assignment_deterministic(
    close: Seq<bool>,
    i1: int,
    new1: bool,
    i2: int,
    new2: bool,
)
    requires
        assigns(close, i1, new1),
        assigns(close, i2, new2),
    ensures
        i1 == i2,
        new1 == new2,
{
    if new1 && !new2 {
        assert(!close[i2]);
    }
    if !new1 && new2 {
        assert(!close[i1]);
    }
    if !new1 && !new2 && i1 != i2 {
        if i1 < i2 {
            assert(!close[i1]);
        } else {
            assert(!close[i2]);
        }
    }
}

/// Rendering is a pure function of the recorded outcomes and the shading
/// table: two buffers rendered from equal outcomes under equal tables
/// are byte-identical. With `render`'s postcondition this gives
/// idempotence: rendering twice with no outcome recorded in between
/// leaves the buffer unchanged.
pub proof fn lemma_render_deterministic(
    cands: Seq<Option<(usize, u32)>>,
    shading: Seq<Seq<(u8, u8, u8)>>,
    b1: Seq<u8>,
    b2: Seq<u8>,
)
    requires
        renders(cands, shading, b1),
        renders(cands, shading, b2),
    ensures
        b1 == b2,
{
    assert forall|k: int| 0 <= k < b1.len() implies b1[k] == b2[k] by {
        let p = k / 4;
        let r = k % 4;
        assert(0 <= r < 4);
        assert(k == 4 * p + r);
        assert(0 <= p);
        if p >= cands.len() {
            assert(k >= 4 * cands.len());
            assert(false);
        }
        let color = pixel_color(cands[p], shading);
        assert(b1[4 * p] == color.0 && b1[4 * p + 1] == color.1 && b1[4 * p + 2] == color.2 && b1[4
            * p + 3] == ALPHA);
        assert(b2[4 * p] == color.0 && b2[4 * p + 1] == color.1 && b2[4 * p + 2] == color.2 && b2[4
            * p + 3] == ALPHA);
    }
    assert(b1 =~= b2);
}

/// Row-major addressing: in a buffer rendered from a full pass, the four
/// bytes of the pixel at column `x`, row `y` show exactly the color of
/// the outcome recorded at scan position `y * width + x`.
pub proof fn lemma_row_major_addressing(
    f: Fractal,
    shading: Seq<Seq<(u8, u8, u8)>>,
    x: int,
    y: int,
)
    requires
        f.wf(),
        f.candidates@.len() == f.width * f.height,
        renders(f.candidates@, shading, f.pixels@),
        0 <= x < f.width,
        0 <= y < f.height,
    ensures
        ({
            let p = y * f.width + x;
            let color = pixel_color(f.candidates@[p], shading);
            &&& f.pixels@[4 * p] == color.0
            &&& f.pixels@[4 * p + 1] == color.1
            &&& f.pixels@[4 * p + 2] == color.2
            &&& f.pixels@[4 * p + 3] == ALPHA
        }),
{
    let p = y * f.width + x;
    assert(0 <= p < f.width * f.height) by (nonlinear_arith)
        requires
            0 <= x < f.width,
            0 <= y < f.height,
            p == y * f.width + x,
    ;
}

/// Buffer sizing: a well-formed engine's pixel buffer holds exactly
/// `width * height * 4` bytes, whatever was recorded or rendered.
pub proof fn lemma_buffer_sizing(f: Fractal)
    requires
        f.wf(),
    ensures
        f.pixels@.len() == f.width * f.height * 4,
{
}

} // verus!
