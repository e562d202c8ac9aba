//! The shared tessellator.
//!
//! Every surface walks a two-dimensional parameter grid and, for each grid
//! cell, emits the cell's two triangles as six vertices in one fixed order.
//! Naming the cell's corners `p0 = (u, v)`, `p1 = (u, v + 1)`,
//! `p2 = (u + 1, v)` and `p3 = (u + 1, v + 1)`, the triangles are
//! `(p0, p2, p1)` and `(p3, p1, p2)`: the quad is split along the `p1`–`p2`
//! diagonal, and the winding decides which face is front under back-face
//! culling, so this order is load-bearing and shared by all surfaces.

use vstd::arithmetic::div_mod::lemma_fundamental_div_mod_converse;
use vstd::prelude::*;

verus! {

/// The vertex emitted at slot `t` (0 to 5) of one grid cell whose corners are
/// `p0`, `p1`, `p2`, `p3`: the emission order `p0, p2, p1, p3, p1, p2`.
pub open spec fn wound_slot<V>(p0: V, p1: V, p2: V, p3: V, t: int) -> V {
    if t == 0 {
        p0
    } else if t == 1 {
        p2
    } else if t == 2 {
        p1
    } else if t == 3 {
        p3
    } else if t == 4 {
        p1
    } else {
        p2
    }
}

/// The six vertices one grid cell contributes, in emission order.
pub open spec fn wound_cell<V>(p0: V, p1: V, p2: V, p3: V) -> Seq<V> {
    Seq::new(6, |t: int| wound_slot(p0, p1, p2, p3, t))
}

/// Append one grid cell's two triangles to the mesh buffer, with the fixed
/// winding `(p0, p2, p1)`, `(p3, p1, p2)`.
pub fn push_cell<V: Copy>(out: &mut Vec<V>, p0: V, p1: V, p2: V, p3: V)
    ensures
        final(out)@ == old(out)@ + wound_cell(p0, p1, p2, p3),
{
    out.push(p0);
    out.push(p2);
    out.push(p1);
    out.push(p3);
    out.push(p1);
    out.push(p2);
    proof {
        assert(out@ =~= old(out)@ + wound_cell(p0, p1, p2, p3));
    }
}

/// Grid cells are laid out row-major, `cols` cells per row, and each cell
/// holds six vertices. A flat position `6 * (row * cols + col) + t` in the
/// mesh buffer therefore decodes back to the cell `(row, col)` and slot `t`
/// it was emitted for.
pub proof fn lemma_cell_index(cols: int, row: int, col: int, t: int)
    requires
        cols > 0,
        0 <= row,
        0 <= col < cols,
        0 <= t < 6,
    ensures
        (6 * (row * cols + col) + t) / 6 == row * cols + col,
        (6 * (row * cols + col) + t) % 6 == t,
        (row * cols + col) / cols == row,
        (row * cols + col) % cols == col,
{
    let c = row * cols + col;
    assert(row * cols + col >= 0) by (nonlinear_arith)
        requires
            0 <= row,
            0 <= col,
            cols > 0,
    ;
    lemma_fundamental_div_mod_converse(6 * c + t, 6, c, t);
    lemma_fundamental_div_mod_converse(c, cols, row, col);
}

/// A cell inside an `rows`-by-`cols` grid has a flat cell index below
/// `rows * cols`.
pub proof fn lemma_cell_count(rows: int, cols: int, row: int, col: int)
    by (nonlinear_arith)
    requires
        0 <= row < rows,
        0 <= col < cols,
    ensures
        0 <= row * cols + col < rows * cols,
{
}

} // verus!
