//! A sphere, tessellated on an `n`-by-`n` parameter grid.
//!
//! The azimuth `theta(i) = i / n * 2 * pi` runs over a full turn, the polar
//! angle `phi(j) = j / n * pi` over a half turn (poles at `j = 0` and
//! `j = n`). Each mesh vertex carries the projection inputs
//! `(radius, theta, phi)`; the standard spherical projection
//! `(radius * cos(theta) * sin(phi), radius * sin(theta) * sin(phi),
//! radius * cos(phi))` is evaluated by the embedding renderer.

use crate::angle::{
    full_turn, half_turn, lemma_full_turn_seam, same_direction, spec_full_turn, spec_half_turn,
    Angle,
};
use crate::error::Error;
use crate::tessellate::{lemma_cell_count, lemma_cell_index, push_cell, wound_cell, wound_slot};
use vstd::prelude::*;

verus! {

/// A sphere: a resolution and a radius. The radius type `S` is carried
/// through tessellation untouched, one copy per emitted vertex.
pub struct Sphere<S> {
    smoothness: u32,
    radius: S,
}

/// The projection inputs of the sphere's corner at grid point `(i, j)`:
/// the radius, the azimuth `theta(i)` and the polar angle `phi(j)`.
pub open spec fn sphere_corner<S>(radius: S, n: u32, i: int, j: int) -> (S, Angle, Angle) {
    (radius, spec_full_turn(i, n as int), spec_half_turn(j, n as int))
}

/// The vertex at flat position `k` of the sphere mesh: position `k` belongs
/// to slot `k % 6` of the grid cell `(i, j)` with flat index `k / 6`, cells
/// row-major with `i` outermost.
pub open spec fn sphere_vertex<S>(radius: S, n: u32, k: int) -> (S, Angle, Angle) {
    let c = k / 6;
    let i = c / (n as int);
    let j = c % (n as int);
    wound_slot(
        sphere_corner(radius, n, i, j),
        sphere_corner(radius, n, i, j + 1),
        sphere_corner(radius, n, i + 1, j),
        sphere_corner(radius, n, i + 1, j + 1),
        k % 6,
    )
}

/// The full sphere mesh: six vertices for each of the `n * n` grid cells.
pub open spec fn sphere_mesh<S>(radius: S, n: u32) -> Seq<(S, Angle, Angle)> {
    Seq::new((6 * (n as int) * (n as int)) as nat, |k: int| sphere_vertex(radius, n, k))
}

impl<S: Copy> Sphere<S> {
    /// The configured resolution: subdivisions per grid axis.
    pub closed spec fn spec_smoothness(&self) -> u32 {
        self.smoothness
    }

    /// The configured radius.
    pub closed spec fn spec_radius(&self) -> S {
        self.radius
    }

    /// A sphere of the given radius at the default resolution.
    pub fn new(radius: S) -> (s: Self)
        ensures
            s.spec_smoothness() == 24,
            s.spec_radius() == radius,
    {
        Sphere { smoothness: 24, radius }
    }

    /// Builder override: the same sphere at another resolution.
    pub fn smoothness(self, smoothness: u32) -> (s: Self)
        ensures
            s.spec_smoothness() == smoothness,
            s.spec_radius() == self.spec_radius(),
    {
        Sphere { smoothness, ..self }
    }

    /// Builder override: the same sphere with another radius.
    pub fn radius(self, radius: S) -> (s: Self)
        ensures
            s.spec_smoothness() == self.spec_smoothness(),
            s.spec_radius() == radius,
    {
        Sphere { radius, ..self }
    }

    /// Always signals a redraw: sphere parameters never change after
    /// construction, so the mesh is regenerated every frame.
    pub fn update(&mut self) -> (redraw: bool)
        ensures
            redraw == true,
            *final(self) == *old(self),
    {
        true
    }

    /// Tessellate the sphere: walk the `n`-by-`n` grid and emit two wound
    /// triangles per cell. Regenerates the whole mesh on every call; two
    /// calls on the same sphere return the same vertex sequence. Fails on
    /// the degenerate resolution 0 instead of returning an empty mesh.
    #[verifier::loop_isolation(false)]
    pub fn render(&self) -> (r: Result<Vec<(S, Angle, Angle)>, Error>)
        ensures
            match r {
                Ok(mesh) => self.spec_smoothness() >= 1 && mesh@ == sphere_mesh(
                    self.spec_radius(),
                    self.spec_smoothness(),
                ) && mesh@.len() == 6 * self.spec_smoothness() * self.spec_smoothness(),
                Err(e) => self.spec_smoothness() == 0 && e == Error::DegenerateSurface,
            },
    {
        let n = self.smoothness;
        if n == 0 {
            return Err(Error::DegenerateSurface);
        }
        let ghost mesh = sphere_mesh(self.spec_radius(), n);
        proof {
            assert(6 * ((n as int) * (n as int)) == 6 * (n as int) * (n as int))
                by (nonlinear_arith);
        }
        let mut out: Vec<(S, Angle, Angle)> = Vec::new();
        let mut i: u32 = 0;
        while i < n
            invariant
                i <= n,
                out@ == mesh.take(6 * ((i as int) * (n as int))),
            decreases n - i,
        {
            let theta = full_turn(i, n);
            let theta_next = full_turn(i + 1, n);
            let mut j: u32 = 0;
            while j < n
                invariant
                    i < n,
                    j <= n,
                    out@ == mesh.take(6 * ((i as int) * (n as int) + (j as int))),
                decreases n - j,
            {
                let phi = half_turn(j, n);
                let phi_next = half_turn(j + 1, n);
                let p0 = (self.radius, theta, phi);
                let p1 = (self.radius, theta, phi_next);
                let p2 = (self.radius, theta_next, phi);
                let p3 = (self.radius, theta_next, phi_next);
                push_cell(&mut out, p0, p1, p2, p3);
                proof {
                    let c = (i as int) * (n as int) + (j as int);
                    lemma_cell_count(n as int, n as int, i as int, j as int);
                    assert forall|l: int| 6 * c <= l < 6 * c + 6 implies mesh[l] == wound_cell(
                        p0,
                        p1,
                        p2,
                        p3,
                    )[l - 6 * c] by {
                        lemma_cell_index(n as int, i as int, j as int, l - 6 * c);
                    }
                    assert(out@ =~= mesh.take(6 * c + 6));
                }
                j = j + 1;
            }
            proof {
                assert(((i + 1) as int) * (n as int) == (i as int) * (n as int) + (n as int))
                    by (nonlinear_arith);
            }
            i = i + 1;
        }
        proof {
            assert(out@ =~= mesh);
        }
        Ok(out)
    }
}

/// Winding consistency of the sphere mesh: the cell at grid position
/// `(i, j)` occupies flat positions `6 * c` to `6 * c + 5` (with
/// `c = i * n + j`) and emits exactly the triangles `(p0, p2, p1)` and
/// `(p3, p1, p2)` over its four corner samples, each corner computed
/// independently from the grid indices.
pub proof fn lemma_sphere_winding<S>(radius: S, n: u32, i: int, j: int)
    requires
        0 <= i < n,
        0 <= j < n,
    ensures
        ({
            let mesh = sphere_mesh(radius, n);
            let c = i * (n as int) + j;
            let p0 = sphere_corner(radius, n, i, j);
            let p1 = sphere_corner(radius, n, i, j + 1);
            let p2 = sphere_corner(radius, n, i + 1, j);
            let p3 = sphere_corner(radius, n, i + 1, j + 1);
            &&& mesh[6 * c + 0] == p0
            &&& mesh[6 * c + 1] == p2
            &&& mesh[6 * c + 2] == p1
            &&& mesh[6 * c + 3] == p3
            &&& mesh[6 * c + 4] == p1
            &&& mesh[6 * c + 5] == p2
        }),
{
    assert(6 * ((n as int) * (n as int)) == 6 * (n as int) * (n as int)) by (nonlinear_arith);
    lemma_cell_count(n as int, n as int, i, j);
    lemma_cell_index(n as int, i, j, 0);
    lemma_cell_index(n as int, i, j, 1);
    lemma_cell_index(n as int, i, j, 2);
    lemma_cell_index(n as int, i, j, 3);
    lemma_cell_index(n as int, i, j, 4);
    lemma_cell_index(n as int, i, j, 5);
}

/// Seam closure of the sphere: the corner sampled at azimuth index `n` — the
/// wrap boundary of the periodic axis — carries the same radius and the same
/// polar angle as the corner at azimuth index 0, and its azimuth points the
/// same way, so the last column of cells meets the first without a gap.
pub proof fn lemma_sphere_seam<S>(radius: S, n: u32, j: int)
    requires
        n >= 1,
    ensures
        ({
            let wrapped = sphere_corner(radius, n, n as int, j);
            let start = sphere_corner(radius, n, 0, j);
            &&& wrapped.0 == start.0
            &&& wrapped.2 == start.2
            &&& same_direction(wrapped.1, start.1)
        }),
{
    lemma_full_turn_seam(n);
}

} // verus!
