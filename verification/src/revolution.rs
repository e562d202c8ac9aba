//! A surface of revolution, swept from a 2-D generatrix curve.
//!
//! The curve is an ordered sequence of `(x, y)` points, sampled once at
//! construction; the sweep angle `theta(i) = i / n * 2 * pi` runs over a full
//! turn. Each mesh vertex carries the projection inputs `(px, py, theta)`;
//! the embedding renderer rotates the point about the x axis:
//! `(px, py * cos(theta), py * sin(theta))`. A curve point with negative `y`
//! sweeps to a mirrored, self-intersecting surface; that is documented
//! behaviour, not a fault.
//!
//! Unlike the other surfaces, a revolution is one-shot: `update` signals a
//! redraw exactly once, so the mesh is generated once and reused on every
//! later frame.

use crate::angle::{full_turn, lemma_full_turn_seam, same_direction, spec_full_turn, Angle};
use crate::error::Error;
use crate::tessellate::{lemma_cell_count, lemma_cell_index, push_cell, wound_cell, wound_slot};
use vstd::prelude::*;

verus! {

/// A surface of revolution: a resolution around the sweep axis, the
/// generatrix curve, and the one-shot redraw flag. The coordinate type `S`
/// is carried through tessellation untouched.
pub struct Revolution<S> {
    smoothness: u32,
    curve: Vec<(S, S)>,
    accessed: bool,
}

/// The projection inputs of the revolution's corner at curve index `p` and
/// sweep index `i`: the curve point's two coordinates and the sweep angle
/// `theta(i)`.
pub open spec fn revolution_corner<S>(curve: Seq<(S, S)>, n: u32, p: int, i: int) -> (
    S,
    S,
    Angle,
) {
    (curve[p].0, curve[p].1, spec_full_turn(i, n as int))
}

/// The vertex at flat position `k` of the revolution mesh: position `k`
/// belongs to slot `k % 6` of the grid cell `(i, p)` with flat index
/// `k / 6`, cells row-major with the sweep index `i` outermost and the curve
/// segment `p` innermost. The curve axis is open: `p + 1` is clamped by the
/// cell walk, never wrapped.
pub open spec fn revolution_vertex<S>(curve: Seq<(S, S)>, n: u32, k: int) -> (S, S, Angle) {
    let segs = (curve.len() as int) - 1;
    let c = k / 6;
    let i = c / segs;
    let p = c % segs;
    wound_slot(
        revolution_corner(curve, n, p, i),
        revolution_corner(curve, n, p, i + 1),
        revolution_corner(curve, n, p + 1, i),
        revolution_corner(curve, n, p + 1, i + 1),
        k % 6,
    )
}

/// The full revolution mesh: six vertices for each of the
/// `n * (curve.len() - 1)` grid cells.
pub open spec fn revolution_mesh<S>(curve: Seq<(S, S)>, n: u32) -> Seq<(S, S, Angle)> {
    Seq::new(
        (6 * (n as int) * ((curve.len() as int) - 1)) as nat,
        |k: int| revolution_vertex(curve, n, k),
    )
}

/// The redraw signals produced by `count` successive `update` calls on a
/// revolution whose accessed flag starts at `accessed`.
pub open spec fn update_signals(accessed: bool, count: nat) -> Seq<bool>
    decreases count,
{
    if count == 0 {
        Seq::empty()
    } else {
        seq![!accessed] + update_signals(true, (count - 1) as nat)
    }
}

/// Once the accessed flag is set, every later `update` stays silent.
pub proof fn lemma_update_silent(count: nat)
    ensures
        update_signals(true, count).len() == count,
        forall|k: int| 0 <= k < count ==> !update_signals(true, count)[k],
    decreases count,
{
    if count > 0 {
        lemma_update_silent((count - 1) as nat);
        assert forall|k: int| 0 <= k < count implies !update_signals(true, count)[k] by {
            if k > 0 {
                assert(update_signals(true, count)[k] == update_signals(
                    true,
                    (count - 1) as nat,
                )[k - 1]);
            }
        }
    }
}

/// One-shot lifecycle: starting from a fresh revolution, a run of `count`
/// successive `update` calls signals a redraw on the first call and on no
/// later one, however large `count` is.
pub proof fn lemma_update_one_shot(count: nat)
    ensures
        update_signals(false, count).len() == count,
        forall|k: int| 0 <= k < count ==> (update_signals(false, count)[k] <==> k == 0),
{
    if count > 0 {
        lemma_update_silent((count - 1) as nat);
        assert forall|k: int| 0 <= k < count implies (update_signals(false, count)[k] <==> k
            == 0) by {
            if k > 0 {
                assert(update_signals(false, count)[k] == update_signals(
                    true,
                    (count - 1) as nat,
                )[k - 1]);
            }
        }
    }
}

/// The parametric positions at which a generatrix function is sampled: the
/// exact rationals `2 * i / samples` for `i` from `-samples / 2` up to but
/// not including `samples / 2`, each returned as the pair
/// `(numerator, denominator)`. For even `samples >= 2` this covers the
/// domain `[-1, 1)` with `samples` evaluations centred at zero, excluding
/// the exact right endpoint; a `samples` below 2 yields no positions.
pub fn sample_positions(samples: i32) -> (r: Vec<(i64, i64)>)
    ensures
        samples >= 2 ==> r@.len() == 2 * ((samples as int) / 2),
        samples < 2 ==> r@.len() == 0,
        forall|k: int|
            0 <= k < r@.len() ==> r@[k].0 == 2 * (k - (samples as int) / 2) && r@[k].1
                == samples as int,
{
    let mut r: Vec<(i64, i64)> = Vec::new();
    if samples < 2 {
        return r;
    }
    let lim = samples / 2;
    let mut i: i32 = -lim;
    while i < lim
        invariant
            1 <= lim == (samples as int) / 2,
            -lim <= i <= lim,
            samples >= 2,
            r@.len() == (i as int) + (lim as int),
            forall|k: int|
                0 <= k < r@.len() ==> r@[k].0 == 2 * (k - (lim as int)) && r@[k].1
                    == samples as int,
        decreases lim - i,
    {
        r.push((2 * (i as i64), samples as i64));
        i = i + 1;
    }
    r
}

impl<S: Copy> Revolution<S> {
    /// The configured resolution: subdivisions around the sweep axis.
    pub closed spec fn spec_smoothness(&self) -> u32 {
        self.smoothness
    }

    /// The generatrix curve.
    pub closed spec fn spec_curve(&self) -> Seq<(S, S)> {
        self.curve@
    }

    /// Whether the one-shot redraw has already been handed out.
    pub closed spec fn spec_accessed(&self) -> bool {
        self.accessed
    }

    /// A surface of revolution over the given curve at the default
    /// resolution, with its one-shot redraw still pending.
    pub fn new(curve: Vec<(S, S)>) -> (s: Self)
        ensures
            s.spec_smoothness() == 24,
            s.spec_curve() == curve@,
            s.spec_accessed() == false,
    {
        Revolution { smoothness: 24, curve, accessed: false }
    }

    /// Builder override: the same surface at another resolution.
    pub fn smoothness(self, smoothness: u32) -> (s: Self)
        ensures
            s.spec_smoothness() == smoothness,
            s.spec_curve() == self.spec_curve(),
            s.spec_accessed() == self.spec_accessed(),
    {
        Revolution { smoothness, ..self }
    }

    /// One-shot redraw: signals a redraw on the first call, sets the
    /// accessed flag, and stays silent on every later call — the signals of
    /// a call run are exactly `update_signals`.
    pub fn update(&mut self) -> (redraw: bool)
        ensures
            redraw == !old(self).spec_accessed(),
            final(self).spec_accessed() == true,
            final(self).spec_smoothness() == old(self).spec_smoothness(),
            final(self).spec_curve() == old(self).spec_curve(),
    {
        if self.accessed {
            false
        } else {
            self.accessed = true;
            true
        }
    }

    /// Tessellate the surface of revolution: for each sweep step, walk the
    /// curve's consecutive point pairs and emit two wound triangles per
    /// cell. Regenerates the whole mesh on every call; two calls on the same
    /// surface return the same vertex sequence. Fails on a degenerate
    /// configuration — resolution 0, or a curve with fewer than two points —
    /// instead of returning an empty mesh.
    #[verifier::loop_isolation(false)]
    pub fn render(&self) -> (r: Result<Vec<(S, S, Angle)>, Error>)
        ensures
            match r {
                Ok(mesh) => self.spec_smoothness() >= 1 && self.spec_curve().len() >= 2 && mesh@
                    == revolution_mesh(self.spec_curve(), self.spec_smoothness()) && mesh@.len()
                    == 6 * self.spec_smoothness() * (self.spec_curve().len() - 1),
                Err(e) => (self.spec_smoothness() == 0 || self.spec_curve().len() < 2) && e
                    == Error::DegenerateSurface,
            },
    {
        let n = self.smoothness;
        if n == 0 || self.curve.len() < 2 {
            return Err(Error::DegenerateSurface);
        }
        let segs = self.curve.len() - 1;
        let ghost mesh = revolution_mesh(self.spec_curve(), n);
        proof {
            assert(6 * ((n as int) * (segs as int)) == 6 * (n as int) * (segs as int))
                by (nonlinear_arith);
            assert(6 * (n as int) * (segs as int) >= 0) by (nonlinear_arith)
                requires
                    n >= 1,
                    segs >= 1,
            ;
        }
        let mut out: Vec<(S, S, Angle)> = Vec::new();
        let mut i: u32 = 0;
        while i < n
            invariant
                i <= n,
                out@ == mesh.take(6 * ((i as int) * (segs as int))),
            decreases n - i,
        {
            let theta = full_turn(i, n);
            let theta_next = full_turn(i + 1, n);
            let mut p: usize = 0;
            while p < segs
                invariant
                    i < n,
                    p <= segs,
                    out@ == mesh.take(6 * ((i as int) * (segs as int) + (p as int))),
                decreases segs - p,
            {
                let lower = self.curve[p];
                let upper = self.curve[p + 1];
                let p0 = (lower.0, lower.1, theta);
                let p1 = (lower.0, lower.1, theta_next);
                let p2 = (upper.0, upper.1, theta);
                let p3 = (upper.0, upper.1, theta_next);
                push_cell(&mut out, p0, p1, p2, p3);
                proof {
                    let c = (i as int) * (segs as int) + (p as int);
                    lemma_cell_count(n as int, segs as int, i as int, p as int);
                    assert forall|l: int| 6 * c <= l < 6 * c + 6 implies mesh[l] == wound_cell(
                        p0,
                        p1,
                        p2,
                        p3,
                    )[l - 6 * c] by {
                        lemma_cell_index(segs as int, i as int, p as int, l - 6 * c);
                    }
                    assert(out@ =~= mesh.take(6 * c + 6));
                }
                p = p + 1;
            }
            proof {
                assert(((i + 1) as int) * (segs as int) == (i as int) * (segs as int) + (
                segs as int)) by (nonlinear_arith);
            }
            i = i + 1;
        }
        proof {
            assert(out@ =~= mesh);
        }
        Ok(out)
    }
}

/// Winding consistency of the revolution mesh: the cell at sweep index `i`
/// and curve segment `p` occupies flat positions `6 * c` to `6 * c + 5`
/// (with `c = i * (curve.len() - 1) + p`) and emits exactly the triangles
/// `(p0, p2, p1)` and `(p3, p1, p2)` over its four corner samples, each
/// corner computed independently from the sweep and curve indices.
pub proof fn lemma_revolution_winding<S>(curve: Seq<(S, S)>, n: u32, i: int, p: int)
    requires
        curve.len() >= 2,
        0 <= i < n,
        0 <= p < curve.len() - 1,
    ensures
        ({
            let segs = (curve.len() as int) - 1;
            let mesh = revolution_mesh(curve, n);
            let c = i * segs + p;
            let p0 = revolution_corner(curve, n, p, i);
            let p1 = revolution_corner(curve, n, p, i + 1);
            let p2 = revolution_corner(curve, n, p + 1, i);
            let p3 = revolution_corner(curve, n, p + 1, i + 1);
            &&& mesh[6 * c + 0] == p0
            &&& mesh[6 * c + 1] == p2
            &&& mesh[6 * c + 2] == p1
            &&& mesh[6 * c + 3] == p3
            &&& mesh[6 * c + 4] == p1
            &&& mesh[6 * c + 5] == p2
        }),
{
    let segs = (curve.len() as int) - 1;
    assert(6 * ((n as int) * segs) == 6 * (n as int) * segs) by (nonlinear_arith);
    lemma_cell_count(n as int, segs, i, p);
    lemma_cell_index(segs, i, p, 0);
    lemma_cell_index(segs, i, p, 1);
    lemma_cell_index(segs, i, p, 2);
    lemma_cell_index(segs, i, p, 3);
    lemma_cell_index(segs, i, p, 4);
    lemma_cell_index(segs, i, p, 5);
}

/// Seam closure of the revolution: the corner sampled at sweep index `n` —
/// the wrap boundary of the periodic axis — carries the same curve point as
/// the corner at sweep index 0, and its sweep angle points the same way, so
/// the last sweep step meets the first without a gap. The curve axis itself
/// is open and has no seam.
pub proof fn lemma_revolution_seam<S>(curve: Seq<(S, S)>, n: u32, p: int)
    requires
        n >= 1,
    ensures
        ({
            let wrapped = revolution_corner(curve, n, p, n as int);
            let start = revolution_corner(curve, n, p, 0);
            &&& wrapped.0 == start.0
            &&& wrapped.1 == start.1
            &&& same_direction(wrapped.2, start.2)
        }),
{
    lemma_full_turn_seam(n);
}

} // verus!
