//! Algebraic laws of the vector operations, stated over the same spec
//! functions that the operations' own contracts use.
//!
//! Laws that rest on the algebra of the scalars themselves are stated for
//! 64-bit integer scalars, whose arithmetic is known exactly; the ones that
//! hold for every scalar type are stated generically.

use core::ops::{Add, Mul};
use vstd::prelude::*;
use vstd::std_specs::ops::{AddSpec, DivSpec, MulSpec, NegSpec, SubSpec};

use crate::vector::Vector2;

verus! {

/// The zero vector is the additive identity: adding it changes no vector,
/// and subtracting a vector from itself yields it.
pub proof fn lemma_zero_additive_identity(v: Vector2<i64>)
    ensures
        v.add_spec((Vector2(0i64, 0i64))) == v,
        v.sub_spec(v) == (Vector2(0i64, 0i64)),
{
}

/// Dividing an exact product by its own factor gives the other factor back,
/// for any nonzero `s`, whatever the signs.
proof fn lemma_cancel_mul_div(x: int, s: int)
    requires
        s != 0,
    ensures
        (x * s) / s == x,
        (-(x * s)) / s == -x,
{
    assert((x * s) / s == x && (-(x * s)) / s == -x) by (nonlinear_arith)
        requires
            s != 0,
    ;
}

/// Scaling a vector by a nonzero scalar and dividing by the same scalar
/// returns the original vector, whenever the products stay within the
/// scalar's own limits; the division is then within its limits too.
pub proof fn lemma_scale_round_trip(v: Vector2<i64>, s: i64)
    requires
        s != 0,
        v.0.mul_req(s),
        v.1.mul_req(s),
    ensures
        (v.mul_spec(s)).div_req(s),
        (v.mul_spec(s)).div_spec(s) == v,
{
    lemma_cancel_mul_div(v.0 as int, s as int);
    lemma_cancel_mul_div(v.1 as int, s as int);
    lemma_cancel_mul_div(-(v.0 as int), s as int);
    lemma_cancel_mul_div(-(v.1 as int), s as int);
}

/// The squared length of a vector is its dot product with itself, for every
/// scalar type: the two are computed from the very same scalar operations.
pub proof fn lemma_length_squared_is_dot<T: Mul + Copy>(v: Vector2<T>) where <T as Mul>::Output: Add
    ensures
        v.length_squared_spec() == v.dot_spec(v),
{
}

/// The normal vector is perpendicular: its dot product with the original
/// vector is zero, whenever the negation and the products stay within the
/// scalar's own limits.
pub proof fn lemma_normal_perpendicular(v: Vector2<i64>)
    requires
        v.1.neg_req(),
        (v.normal_spec()).dot_req(v),
    ensures
        (v.normal_spec()).dot_spec(v) == 0i64,
{
    assert(-(v.1 as int) * (v.0 as int) + (v.0 as int) * (v.1 as int) == 0) by (nonlinear_arith);
}

/// The determinant of a vector with itself is zero, whenever the products
/// stay within the scalar's own limits.
pub proof fn lemma_det_self_zero(v: Vector2<i64>)
    requires
        v.det_req(v),
    ensures
        v.det_spec(v) == 0i64,
{
}

/// The determinant is antisymmetric: `det(a, b) == -det(b, a)`, whenever
/// the products and differences stay within the scalar's own limits; the
/// negation is then within its limits too.
pub proof fn lemma_det_antisymmetric(a: Vector2<i64>, b: Vector2<i64>)
    requires
        a.det_req(b),
        b.det_req(a),
    ensures
        (b.det_spec(a)).neg_req(),
        a.det_spec(b) == (b.det_spec(a)).neg_spec(),
{
    assert((a.0 as int) * (b.1 as int) - (a.1 as int) * (b.0 as int) == -((b.0 as int) * (a.1
        as int) - (b.1 as int) * (a.0 as int))) by (nonlinear_arith);
}

/// Turning a vector into a tuple and back returns the original vector, for
/// every scalar type.
pub proof fn lemma_tuple_round_trip<T>(v: Vector2<T>)
    ensures
        Vector2::from_tuple_spec(v.into_tuple_spec()) == v,
{
}

/// Turning a vector into an array and back returns the original vector, for
/// every scalar type: the premises are exactly what `into_array` ensures of
/// its result.
pub proof fn lemma_array_round_trip<T>(v: Vector2<T>, array: [T; 2])
    requires
        array[0] == v.0,
        array[1] == v.1,
    ensures
        Vector2::from_array_spec(array) == v,
{
}

} // verus!
