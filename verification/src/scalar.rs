//! Capabilities a scalar type may offer beyond the standard operators.
//!
//! The vector type never interprets its scalars: every geometric query is
//! stated over the spec functions declared here, so each scalar type says,
//! through its own implementation, what its square root, angle and
//! classification operations return. Floating-point scalars implement these
//! traits outside the verified core; integer scalars implement the ones that
//! make sense for them here, with exact meanings.

use vstd::prelude::*;

verus! {

/// A scalar with a square root operation.
pub trait Sqrt: Sized {
    /// The value the scalar type's square root returns.
    spec fn sqrt_spec(self) -> Self;

    /// The scalar type's own square root.
    fn sqrt(self) -> (r: Self)
        ensures
            r == self.sqrt_spec(),
    ;
}

/// A scalar with a two-argument arctangent, `self.atan2(x)` being the angle
/// of the point `(x, self)` with the standard sign and quadrant conventions.
pub trait Atan2: Sized {
    /// The value the scalar type's two-argument arctangent returns.
    spec fn atan2_spec(self, x: Self) -> Self;

    /// The scalar type's own two-argument arctangent.
    fn atan2(self, x: Self) -> (r: Self)
        ensures
            r == self.atan2_spec(x),
    ;
}

/// A scalar, read as an angle in radians, whose sine and cosine can be taken.
pub trait SinCos: Sized {
    /// The value the scalar type's sine returns.
    spec fn sin_spec(self) -> Self;

    /// The value the scalar type's cosine returns.
    spec fn cos_spec(self) -> Self;

    /// The scalar type's own simultaneous sine and cosine, `(sin, cos)`.
    fn sin_cos(self) -> (r: (Self, Self))
        ensures
            r == ((self.sin_spec(), self.cos_spec())),
    ;
}

/// A scalar whose values can be classified as in IEEE floating point:
/// not-a-number, infinite, finite, normal.
pub trait Classify: Sized {
    /// Whether the value is a not-a-number.
    spec fn is_nan_spec(self) -> bool;

    /// Whether the value is positive or negative infinity.
    spec fn is_infinite_spec(self) -> bool;

    /// Whether the value is neither infinite nor a not-a-number.
    spec fn is_finite_spec(self) -> bool;

    /// Whether the value is normal: neither zero, subnormal, infinite nor a
    /// not-a-number.
    spec fn is_normal_spec(self) -> bool;

    /// A finite value is exactly one that is neither a not-a-number nor
    /// infinite; every implementation has to prove it of its classification.
    proof fn finite_is_neither_nan_nor_infinite(self)
        ensures
            self.is_finite_spec() <==> (!self.is_nan_spec() && !self.is_infinite_spec()),
    ;

    /// Returns `true` if the value is a not-a-number.
    fn is_nan(self) -> (r: bool)
        ensures
            r == self.is_nan_spec(),
    ;

    /// Returns `true` if the value is positive or negative infinity.
    fn is_infinite(self) -> (r: bool)
        ensures
            r == self.is_infinite_spec(),
    ;

    /// Returns `true` if the value is neither infinite nor a not-a-number.
    fn is_finite(self) -> (r: bool)
        ensures
            r == self.is_finite_spec(),
    ;

    /// Returns `true` if the value is normal.
    fn is_normal(self) -> (r: bool)
        ensures
            r == self.is_normal_spec(),
    ;
}

/// The floor of the square root of `n`: the greatest `r` with `r * r <= n`,
/// and zero when `n` is negative.
pub open spec fn floor_sqrt(n: int) -> int
    decreases n,
{
    if n < 1 {
        0
    } else if (floor_sqrt(n - 1) + 1) * (floor_sqrt(n - 1) + 1) <= n {
        floor_sqrt(n - 1) + 1
    } else {
        floor_sqrt(n - 1)
    }
}

/// The floor of the square root squares to at most its argument, and the
/// next integer up squares to more.
pub proof fn lemma_floor_sqrt_bounds(n: int)
    requires
        n >= 0,
    ensures
        floor_sqrt(n) >= 0,
        floor_sqrt(n) * floor_sqrt(n) <= n,
        n < (floor_sqrt(n) + 1) * (floor_sqrt(n) + 1),
    decreases n,
{
    if n >= 1 {
        lemma_floor_sqrt_bounds(n - 1);
        let r = floor_sqrt(n - 1);
        if (r + 1) * (r + 1) <= n {
            assert((r + 1) * (r + 1) < (r + 2) * (r + 2)) by (nonlinear_arith)
                requires
                    r >= 0,
            ;
        }
    }
}

/// Any nonnegative number whose square is at most `n`, while the square of
/// the next number up exceeds `n`, is the floor of the square root of `n`.
pub proof fn lemma_floor_sqrt_unique(n: int, r: int)
    requires
        n >= 0,
        r >= 0,
        r * r <= n,
        n < (r + 1) * (r + 1),
    ensures
        r == floor_sqrt(n),
{
    lemma_floor_sqrt_bounds(n);
    let f = floor_sqrt(n);
    assert(r == f) by (nonlinear_arith)
        requires
            r >= 0 && f >= 0 && r * r <= n && n < (r + 1) * (r + 1) && f * f <= n && n < (f + 1) * (
            f + 1),
    ;
}

/// For integer scalars the square root is the floor of the real square
/// root, computed by bisection; on a negative value it is zero.
impl Sqrt for i64 {
    open spec fn sqrt_spec(self) -> i64 {
        floor_sqrt(self as int) as i64
    }

    fn sqrt(self) -> (r: i64) {
        if self <= 0 {
            0
        } else {
            let mut lo: i64 = 0;
            let mut hi: i64 = 3037000500;
            proof {
                assert((3037000500 as int) * (3037000500 as int) > i64::MAX as int);
            }
            while hi - lo > 1
                invariant
                    0 <= lo < hi <= 3037000500,
                    self > 0,
                    (lo as int) * (lo as int) <= self as int,
                    (self as int) < (hi as int) * (hi as int),
                decreases hi - lo,
            {
                let mid = lo + (hi - lo) / 2;
                proof {
                    assert((mid as int) * (mid as int) <= (3037000499 as int) * (3037000499 as int))
                        by (nonlinear_arith)
                        requires
                            0 <= mid <= 3037000499,
                    ;
                }
                if mid * mid <= self {
                    lo = mid;
                } else {
                    hi = mid;
                }
            }
            proof {
                lemma_floor_sqrt_unique(self as int, lo as int);
            }
            lo
        }
    }
}

/// Integers are never a not-a-number and never infinite; a normal integer is
/// a nonzero one, as zero is excluded from the normal floating-point values.
impl Classify for i64 {
    open spec fn is_nan_spec(self) -> bool {
        false
    }

    open spec fn is_infinite_spec(self) -> bool {
        false
    }

    open spec fn is_finite_spec(self) -> bool {
        true
    }

    open spec fn is_normal_spec(self) -> bool {
        self != 0
    }

    proof fn finite_is_neither_nan_nor_infinite(self) {
    }

    fn is_nan(self) -> bool {
        false
    }

    fn is_infinite(self) -> bool {
        false
    }

    fn is_finite(self) -> bool {
        true
    }

    fn is_normal(self) -> bool {
        self != 0
    }
}

} // verus!
