use vstd::prelude::*;
use vstd::std_specs::cmp::{OrdSpec, PartialEqSpec, PartialOrdSpec};
use vstd::std_specs::ops::{AddSpec, NegSpec};
use crate::transform::{dot_of, lexicographic, Vec2};
use std::cmp::Ordering;

verus! {

/// The default vector is the zero vector: `default() == new(0, 0)`.
pub proof fn default_is_zero(zero: Vec2)
    requires
        call_ensures(Vec2::<i32, i32>::default, (), zero),
    ensures
        zero.x == 0 && zero.y == 0,
{
}

/// Vector addition is commutative: `a + b == b + a`.
pub proof fn add_commutes(a: Vec2, b: Vec2)
    requires
        a.add_req(b),
    ensures
        b.add_req(a),
        a.add_spec(b) == b.add_spec(a),
{
}

/// Vector addition is associative: `(a + b) + c == a + (b + c)` wherever
/// both sides are free of overflow.
pub proof fn add_associates(a: Vec2, b: Vec2, c: Vec2)
    requires
        a.add_req(b),
        a.add_spec(b).add_req(c),
        b.add_req(c),
        a.add_req(b.add_spec(c)),
    ensures
        a.add_spec(b).add_spec(c) == a.add_spec(b.add_spec(c)),
{
}

/// The default vector is the additive identity: `a + default() == a`.
pub proof fn add_default_is_identity(a: Vec2, zero: Vec2)
    requires
        call_ensures(Vec2::<i32, i32>::default, (), zero),
    ensures
        a.add_req(zero),
        a.add_spec(zero) == a,
{
}

/// A vector plus its negation is the default vector: `a + (-a) == default()`.
pub proof fn add_negation_is_default(a: Vec2, zero: Vec2)
    requires
        a.neg_req(),
        call_ensures(Vec2::<i32, i32>::default, (), zero),
    ensures
        a.add_req(a.neg_spec()),
        a.add_spec(a.neg_spec()) == zero,
{
}

/// Adding a scalar is adding the vector with that scalar on both axes:
/// `a + n == a + iso(n)`.
pub proof fn add_scalar_is_add_iso(a: Vec2, n: i32)
    requires
        a.add_req(n),
    ensures
        a.add_req(Vec2 { x: n, y: n }),
        a.add_spec(n) == a.add_spec(Vec2 { x: n, y: n }),
{
}

/// The dot product is symmetric: `dot(a, b) == dot(b, a)`.
pub proof fn dot_symmetric(a: Vec2, b: Vec2)
    ensures
        dot_of(a, b) == dot_of(b, a),
{
}

/// Every vector equals itself.
pub proof fn eq_reflexive(a: Vec2)
    ensures
        a.eq_spec(&a),
{
}

/// In the partial order, `a < b` exactly when neither axis of `a` is above
/// that of `b` and at least one is below.
pub proof fn lt_is_both_axes(a: Vec2, b: Vec2)
    ensures
        (a.partial_cmp_spec(&b) == Some(Ordering::Less)) <==> (a.x <= b.x && a.y <= b.y && (a.x < b.x
            || a.y < b.y)),
{
}

/// Vectors whose axes are ordered opposite ways are incomparable.
pub proof fn opposite_axes_incomparable(a: Vec2, b: Vec2)
    requires
        a.x < b.x,
        a.y > b.y,
    ensures
        a.partial_cmp_spec(&b) == None::<Ordering>,
{
}

/// In the total order, `a` comes before `b` exactly when `a.x < b.x`, or the
/// x components are equal and `a.y < b.y`.
pub proof fn total_order_is_lexicographic(a: Vec2, b: Vec2)
    ensures
        (lexicographic(a.x.cmp_spec(&b.x), a.y.cmp_spec(&b.y)) == Ordering::Less) <==> (a.x < b.x
            || (a.x == b.x && a.y < b.y)),
{
}

} // verus!
