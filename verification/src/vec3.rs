//! A 3-vector of fixed-point scalars, with the exact (unscaled) integer
//! dot and cross products that the hitscan geometry is stated over.

use vstd::prelude::*;

verus! {

/// A point or direction; each component is a fixed-point scalar.
#[derive(Clone, Copy, Debug, PartialEq, Eq, Structural)]
pub struct Vec3x {
    pub x: i64,
    pub y: i64,
    pub z: i64,
}

impl Vec3x {
    /// Every component's magnitude is at most `m`.
    pub open spec fn bounded(self, m: int) -> bool {
        &&& -m <= self.x <= m
        &&& -m <= self.y <= m
        &&& -m <= self.z <= m
    }
}

/// Unscaled dot product of two integer triples.
pub open spec fn dot3(a: (int, int, int), b: (int, int, int)) -> int {
    a.0 * b.0 + a.1 * b.1 + a.2 * b.2
}

/// Unscaled cross product of two integer triples.
pub open spec fn cross3(a: (int, int, int), b: (int, int, int)) -> (int, int, int) {
    (a.1 * b.2 - a.2 * b.1, a.2 * b.0 - a.0 * b.2, a.0 * b.1 - a.1 * b.0)
}

/// Squaring a three-term sum, written over the terms themselves.
proof fn lemma_sq_trinomial(x: int, y: int, z: int)
    ensures
        (x + y + z) * (x + y + z) == x * x + y * y + z * z + 2 * (x * y) + 2 * (x * z) + 2 * (y
            * z),
{
    assert((x + y + z) * (x + y + z) == x * x + y * y + z * z + 2 * (x * y) + 2 * (x * z) + 2 * (y
        * z)) by (nonlinear_arith);
}

/// Squaring a difference, written over the terms themselves.
proof fn lemma_sq_diff(u: int, v: int)
    ensures
        (u - v) * (u - v) == u * u + v * v - 2 * (u * v),
{
    assert((u - v) * (u - v) == u * u + v * v - 2 * (u * v)) by (nonlinear_arith);
}

/// A product of four factors, regrouped every way the assembly below needs.
proof fn lemma_prod_rearrange(x: int, y: int, u: int, v: int)
    ensures
        (x * y) * (u * v) == (x * u) * (y * v),
        (x * y) * (u * v) == (u * x) * (y * v),
        (x * y) * (u * v) == (x * u) * (v * y),
        (x * y) * (u * v) == (u * x) * (v * y),
{
    assert((x * y) * (u * v) == (x * u) * (y * v) && (x * y) * (u * v) == (u * x) * (y * v) && (x
        * y) * (u * v) == (x * u) * (v * y) && (x * y) * (u * v) == (u * x) * (v * y))
        by (nonlinear_arith);
}

/// Distributing a product of two three-term sums.
proof fn lemma_mul_trinomials(p0: int, p1: int, p2: int, q0: int, q1: int, q2: int)
    ensures
        (p0 + p1 + p2) * (q0 + q1 + q2) == p0 * q0 + p0 * q1 + p0 * q2 + p1 * q0 + p1 * q1 + p1
            * q2 + p2 * q0 + p2 * q1 + p2 * q2,
{
    assert((p0 + p1 + p2) * (q0 + q1 + q2) == p0 * q0 + p0 * q1 + p0 * q2 + p1 * q0 + p1 * q1 + p1
        * q2 + p2 * q0 + p2 * q1 + p2 * q2) by (nonlinear_arith);
}

/// Lagrange's identity in three dimensions: the squared dot product and the
/// squared cross product of two vectors partition the product of their
/// squared norms.
pub proof fn lemma_lagrange_identity(a: (int, int, int), b: (int, int, int))
    ensures
        dot3(a, b) * dot3(a, b) + dot3(cross3(a, b), cross3(a, b)) == dot3(a, a) * dot3(b, b),
{
    let (a0, a1, a2) = a;
    let (b0, b1, b2) = b;
    lemma_sq_trinomial(a0 * b0, a1 * b1, a2 * b2);
    lemma_sq_diff(a1 * b2, a2 * b1);
    lemma_sq_diff(a2 * b0, a0 * b2);
    lemma_sq_diff(a0 * b1, a1 * b0);
    // Diagonal squares of the dot expansion.
    lemma_prod_rearrange(a0, b0, a0, b0);
    lemma_prod_rearrange(a1, b1, a1, b1);
    lemma_prod_rearrange(a2, b2, a2, b2);
    // Mixed terms of the dot expansion, normalized to (ai*aj)*(bi*bj).
    lemma_prod_rearrange(a0, b0, a1, b1);
    lemma_prod_rearrange(a0, b0, a2, b2);
    lemma_prod_rearrange(a1, b1, a2, b2);
    // Squares of the cross components.
    lemma_prod_rearrange(a1, b2, a1, b2);
    lemma_prod_rearrange(a2, b1, a2, b1);
    lemma_prod_rearrange(a2, b0, a2, b0);
    lemma_prod_rearrange(a0, b2, a0, b2);
    lemma_prod_rearrange(a0, b1, a0, b1);
    lemma_prod_rearrange(a1, b0, a1, b0);
    // Mixed terms of the cross squares, normalized the same way.
    lemma_prod_rearrange(a1, b2, a2, b1);
    lemma_prod_rearrange(a2, b0, a0, b2);
    lemma_prod_rearrange(a0, b1, a1, b0);
    // The product of the two squared norms, fully distributed.
    lemma_mul_trinomials(a0 * a0, a1 * a1, a2 * a2, b0 * b0, b1 * b1, b2 * b2);
}

} // verus!
