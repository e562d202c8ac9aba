//! Exact grid angles.
//!
//! The grid sampler maps an index `i` on an axis of resolution `n` to the
//! angle `i / n * period`. Those angles are rational multiples of pi, so they
//! are kept exactly as a numerator and a denominator in units of pi: every
//! grid line is reproducible from its index alone, and the wrap-around seam
//! can be checked without any floating-point arithmetic. A renderer that
//! needs radians evaluates `num / den * pi` itself.

use vstd::arithmetic::div_mod::lemma_mod_self_0;
use vstd::arithmetic::div_mod::lemma_small_mod;
use vstd::prelude::*;

verus! {

/// An exact angle: the rational `num / den`, in units of pi radians.
#[derive(Clone, Copy, Debug, PartialEq, Eq, Structural)]
pub struct Angle {
    /// Numerator, in units of pi.
    pub num: u64,
    /// Denominator; positive for every angle the samplers produce.
    pub den: u64,
}

/// The angle at index `i` of a full-turn axis (period two pi) of resolution
/// `n`: `i / n` of a full turn, that is `2 * i / n` in units of pi.
pub open spec fn spec_full_turn(i: int, n: int) -> Angle {
    Angle { num: (2 * i) as u64, den: n as u64 }
}

/// The angle at index `j` of a half-turn axis (period pi) of resolution `n`:
/// `j / n` of a half turn, that is `j / n` in units of pi.
pub open spec fn spec_half_turn(j: int, n: int) -> Angle {
    Angle { num: j as u64, den: n as u64 }
}

/// Sample a full-turn axis: the angle at grid index `i` of an axis with `n`
/// subdivisions, computed from the index alone so that adjacent cells share
/// exact boundary angles.
pub fn full_turn(i: u32, n: u32) -> (a: Angle)
    ensures
        a == spec_full_turn(i as int, n as int),
{
    Angle { num: 2 * (i as u64), den: n as u64 }
}

/// Sample a half-turn axis: the angle at grid index `j` of an axis with `n`
/// subdivisions, computed from the index alone.
pub fn half_turn(j: u32, n: u32) -> (a: Angle)
    ensures
        a == spec_half_turn(j as int, n as int),
{
    Angle { num: j as u64, den: n as u64 }
}

/// Whether two angles point the same way on a periodic axis: their
/// difference, in units of pi, is an even integer, so they differ by a whole
/// number of full turns.
pub open spec fn same_direction(a: Angle, b: Angle) -> bool {
    &&& a.den > 0
    &&& b.den > 0
    &&& (a.num * b.den) % (2 * a.den * b.den) == (b.num * a.den) % (2 * a.den * b.den)
}

/// Seam closure: on a full-turn axis of resolution `n`, the angle sampled at
/// grid index `n` points the same way as the angle sampled at index 0, so a
/// mesh that wraps around the axis meets itself exactly at the seam.
pub proof fn lemma_full_turn_seam(n: u32)
    requires
        n >= 1,
    ensures
        same_direction(spec_full_turn(n as int, n as int), spec_full_turn(0, n as int)),
{
    let a = spec_full_turn(n as int, n as int);
    let b = spec_full_turn(0, n as int);
    let m = 2 * (n as int) * (n as int);
    assert(a.num == 2 * (n as int));
    assert(b.num == 0);
    assert(2 * (n as int) * (n as int) > 0) by (nonlinear_arith)
        requires
            n >= 1,
    ;
    assert(a.num * b.den == m);
    assert(2 * a.den * b.den == m);
    lemma_mod_self_0(m);
    assert(b.num * a.den == 0);
    lemma_small_mod(0, m as nat);
}

} // verus!
