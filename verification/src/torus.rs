//! A torus, tessellated on an `n`-by-`n` parameter grid.
//!
//! Both the major angle `theta(i) = i / n * 2 * pi` (around the main axis)
//! and the minor angle `phi(j) = j / n * 2 * pi` (around the tube) run over a
//! full turn. Each mesh vertex carries the projection inputs
//! `(major_radius, minor_radius, theta, phi)`; with the tube radius
//! `r = major_radius + minor_radius * cos(phi)`, the embedding renderer
//! evaluates `(r * cos(theta), r * sin(theta), minor_radius * sin(phi))` —
//! the z offset uses `minor_radius * sin(phi)`, not `r * sin(phi)`, which
//! keeps the tube's cross-section circular.

use crate::angle::{full_turn, lemma_full_turn_seam, same_direction, spec_full_turn, Angle};
use crate::error::Error;
use crate::tessellate::{lemma_cell_count, lemma_cell_index, push_cell, wound_cell, wound_slot};
use vstd::prelude::*;

verus! {

/// A torus: a resolution, the radius of the main ring, and the radius of the
/// tube around it. A non-self-intersecting tube is expected to have
/// `minor_radius < major_radius`; this is documented, not enforced. The
/// radius type `S` is carried through tessellation untouched.
pub struct Torus<S> {
    smoothness: u32,
    major_radius: S,
    minor_radius: S,
}

/// The projection inputs of the torus's corner at grid point `(i, j)`: the
/// two radii, the major angle `theta(i)` and the minor angle `phi(j)`.
pub open spec fn torus_corner<S>(major: S, minor: S, n: u32, i: int, j: int) -> (
    S,
    S,
    Angle,
    Angle,
) {
    (major, minor, spec_full_turn(i, n as int), spec_full_turn(j, n as int))
}

/// The vertex at flat position `k` of the torus mesh: position `k` belongs
/// to slot `k % 6` of the grid cell `(i, j)` with flat index `k / 6`, cells
/// row-major with `i` outermost.
pub open spec fn torus_vertex<S>(major: S, minor: S, n: u32, k: int) -> (S, S, Angle, Angle) {
    let c = k / 6;
    let i = c / (n as int);
    let j = c % (n as int);
    wound_slot(
        torus_corner(major, minor, n, i, j),
        torus_corner(major, minor, n, i, j + 1),
        torus_corner(major, minor, n, i + 1, j),
        torus_corner(major, minor, n, i + 1, j + 1),
        k % 6,
    )
}

/// The full torus mesh: six vertices for each of the `n * n` grid cells.
pub open spec fn torus_mesh<S>(major: S, minor: S, n: u32) -> Seq<(S, S, Angle, Angle)> {
    Seq::new((6 * (n as int) * (n as int)) as nat, |k: int| torus_vertex(major, minor, n, k))
}

impl<S: Copy> Torus<S> {
    /// The configured resolution: subdivisions per grid axis.
    pub closed spec fn spec_smoothness(&self) -> u32 {
        self.smoothness
    }

    /// The configured radius of the main ring.
    pub closed spec fn spec_major_radius(&self) -> S {
        self.major_radius
    }

    /// The configured radius of the tube.
    pub closed spec fn spec_minor_radius(&self) -> S {
        self.minor_radius
    }

    /// A torus of the given radii at the default resolution.
    pub fn new(major_radius: S, minor_radius: S) -> (t: Self)
        ensures
            t.spec_smoothness() == 24,
            t.spec_major_radius() == major_radius,
            t.spec_minor_radius() == minor_radius,
    {
        Torus { smoothness: 24, major_radius, minor_radius }
    }

    /// Builder override: the same torus at another resolution.
    pub fn smoothness(self, smoothness: u32) -> (t: Self)
        ensures
            t.spec_smoothness() == smoothness,
            t.spec_major_radius() == self.spec_major_radius(),
            t.spec_minor_radius() == self.spec_minor_radius(),
    {
        Torus { smoothness, ..self }
    }

    /// Builder override: the same torus with another main-ring radius.
    pub fn major_radius(self, major_radius: S) -> (t: Self)
        ensures
            t.spec_smoothness() == self.spec_smoothness(),
            t.spec_major_radius() == major_radius,
            t.spec_minor_radius() == self.spec_minor_radius(),
    {
        Torus { major_radius, ..self }
    }

    /// Builder override: the same torus with another tube radius.
    pub fn minor_radius(self, minor_radius: S) -> (t: Self)
        ensures
            t.spec_smoothness() == self.spec_smoothness(),
            t.spec_major_radius() == self.spec_major_radius(),
            t.spec_minor_radius() == minor_radius,
    {
        Torus { minor_radius, ..self }
    }

    /// Always signals a redraw: torus parameters never change after
    /// construction, so the mesh is regenerated every frame.
    pub fn update(&mut self) -> (redraw: bool)
        ensures
            redraw == true,
            *final(self) == *old(self),
    {
        true
    }

    /// Tessellate the torus: walk the `n`-by-`n` grid and emit two wound
    /// triangles per cell. Regenerates the whole mesh on every call; two
    /// calls on the same torus return the same vertex sequence. Fails on the
    /// degenerate resolution 0 instead of returning an empty mesh.
    #[verifier::loop_isolation(false)]
    pub fn render(&self) -> (r: Result<Vec<(S, S, Angle, Angle)>, Error>)
        ensures
            match r {
                Ok(mesh) => self.spec_smoothness() >= 1 && mesh@ == torus_mesh(
                    self.spec_major_radius(),
                    self.spec_minor_radius(),
                    self.spec_smoothness(),
                ) && mesh@.len() == 6 * self.spec_smoothness() * self.spec_smoothness(),
                Err(e) => self.spec_smoothness() == 0 && e == Error::DegenerateSurface,
            },
    {
        let n = self.smoothness;
        if n == 0 {
            return Err(Error::DegenerateSurface);
        }
        let ghost mesh = torus_mesh(self.spec_major_radius(), self.spec_minor_radius(), n);
        proof {
            assert(6 * ((n as int) * (n as int)) == 6 * (n as int) * (n as int))
                by (nonlinear_arith);
        }
        let mut out: Vec<(S, S, Angle, Angle)> = Vec::new();
        let mut i: u32 = 0;
        while i < n
            invariant
                i <= n,
                out@ == mesh.take(6 * ((i as int) * (n as int))),
            decreases n - i,
        {
            let theta = full_turn(i, n);
            let theta_next = full_turn(i + 1, n);
            let mut j: u32 = 0;
            while j < n
                invariant
                    i < n,
                    j <= n,
                    out@ == mesh.take(6 * ((i as int) * (n as int) + (j as int))),
                decreases n - j,
            {
                let phi = full_turn(j, n);
                let phi_next = full_turn(j + 1, n);
                let p0 = (self.major_radius, self.minor_radius, theta, phi);
                let p1 = (self.major_radius, self.minor_radius, theta, phi_next);
                let p2 = (self.major_radius, self.minor_radius, theta_next, phi);
                let p3 = (self.major_radius, self.minor_radius, theta_next, phi_next);
                push_cell(&mut out, p0, p1, p2, p3);
                proof {
                    let c = (i as int) * (n as int) + (j as int);
                    lemma_cell_count(n as int, n as int, i as int, j as int);
                    assert forall|l: int| 6 * c <= l < 6 * c + 6 implies mesh[l] == wound_cell(
                        p0,
                        p1,
                        p2,
                        p3,
                    )[l - 6 * c] by {
                        lemma_cell_index(n as int, i as int, j as int, l - 6 * c);
                    }
                    assert(out@ =~= mesh.take(6 * c + 6));
                }
                j = j + 1;
            }
            proof {
                assert(((i + 1) as int) * (n as int) == (i as int) * (n as int) + (n as int))
                    by (nonlinear_arith);
            }
            i = i + 1;
        }
        proof {
            assert(out@ =~= mesh);
        }
        Ok(out)
    }
}

/// Winding consistency of the torus mesh: the cell at grid position `(i, j)`
/// occupies flat positions `6 * c` to `6 * c + 5` (with `c = i * n + j`) and
/// emits exactly the triangles `(p0, p2, p1)` and `(p3, p1, p2)` over its
/// four corner samples, each corner computed independently from the grid
/// indices.
pub proof fn lemma_torus_winding<S>(major: S, minor: S, n: u32, i: int, j: int)
    requires
        0 <= i < n,
        0 <= j < n,
    ensures
        ({
            let mesh = torus_mesh(major, minor, n);
            let c = i * (n as int) + j;
            let p0 = torus_corner(major, minor, n, i, j);
            let p1 = torus_corner(major, minor, n, i, j + 1);
            let p2 = torus_corner(major, minor, n, i + 1, j);
            let p3 = torus_corner(major, minor, n, i + 1, j + 1);
            &&& mesh[6 * c + 0] == p0
            &&& mesh[6 * c + 1] == p2
            &&& mesh[6 * c + 2] == p1
            &&& mesh[6 * c + 3] == p3
            &&& mesh[6 * c + 4] == p1
            &&& mesh[6 * c + 5] == p2
        }),
{
    assert(6 * ((n as int) * (n as int)) == 6 * (n as int) * (n as int)) by (nonlinear_arith);
    lemma_cell_count(n as int, n as int, i, j);
    lemma_cell_index(n as int, i, j, 0);
    lemma_cell_index(n as int, i, j, 1);
    lemma_cell_index(n as int, i, j, 2);
    lemma_cell_index(n as int, i, j, 3);
    lemma_cell_index(n as int, i, j, 4);
    lemma_cell_index(n as int, i, j, 5);
}

/// Seam closure of the torus: on either periodic axis, the corner sampled at
/// grid index `n` — the wrap boundary — carries the same radii and the same
/// other angle as the corner at index 0, and the wrapped angle points the
/// same way, so the mesh closes around both the ring and the tube.
pub proof fn lemma_torus_seam<S>(major: S, minor: S, n: u32, k: int)
    requires
        n >= 1,
    ensures
        ({
            let wrapped = torus_corner(major, minor, n, n as int, k);
            let start = torus_corner(major, minor, n, 0, k);
            &&& wrapped.0 == start.0
            &&& wrapped.1 == start.1
            &&& wrapped.3 == start.3
            &&& same_direction(wrapped.2, start.2)
        }),
        ({
            let wrapped = torus_corner(major, minor, n, k, n as int);
            let start = torus_corner(major, minor, n, k, 0);
            &&& wrapped.0 == start.0
            &&& wrapped.1 == start.1
            &&& wrapped.2 == start.2
            &&& same_direction(wrapped.3, start.3)
        }),
{
    lemma_full_turn_seam(n);
}

} // verus!
