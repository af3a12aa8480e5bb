//! The vector type, its component-wise arithmetic and its conversions.

use core::ops::{Add, Div, Mul, Neg, Sub};
use vstd::prelude::*;
use vstd::std_specs::ops::{AddSpec, DivSpec, MulSpec, NegSpec, SubSpec};

use crate::scalar::{Atan2, Classify, SinCos, Sqrt};

verus! {

/// Representation of a mathematical vector e.g. a position or velocity
#[derive(Copy, Clone, Debug, PartialEq, Eq, Default, Structural)]
pub struct Vector2<T>(pub T, pub T);

// Conversions to and from arrays and tuples: index 0 maps to the first
// component and index 1 to the second, with no further structure.
impl<T> Vector2<T> {
    /// The pair of components `(x, y)` of the vector, as a tuple.
    pub open spec fn into_tuple_spec(self) -> (T, T) {
        (self.0, self.1)
    }

    /// The vector whose components are the two elements of a tuple, in order.
    pub open spec fn from_tuple_spec(tuple: (T, T)) -> Self {
        Vector2(tuple.0, tuple.1)
    }

    /// The vector whose components are the two elements of an array, in order.
    pub open spec fn from_array_spec(array: [T; 2]) -> Self {
        Vector2(array[0], array[1])
    }

    /// Creates a vector from a 2-tuple: the first element becomes the first component.
    pub fn from_tuple(tuple: (T, T)) -> (r: Self)
        ensures
            r == Self::from_tuple_spec(tuple),
    {
        Vector2(tuple.0, tuple.1)
    }

    /// Turns the vector into a 2-tuple, components in order.
    pub fn into_tuple(self) -> (r: (T, T))
        ensures
            r == self.into_tuple_spec(),
    {
        (self.0, self.1)
    }

    /// Turns the vector into a 2-element array, components in order.
    pub fn into_array(self) -> (r: [T; 2])
        ensures
            r[0] == self.0,
            r[1] == self.1,
    {
        [self.0, self.1]
    }
}

impl<T: Copy> Vector2<T> {
    /// Creates a vector from a 2-element array: index 0 becomes the first component.
    pub fn from_array(array: [T; 2]) -> (r: Self)
        ensures
            r == Self::from_array_spec(array),
    {
        Vector2(array[0], array[1])
    }
}

impl<T: Copy> From<[T; 2]> for Vector2<T> {
    /// The same conversion as `from_array`, through the standard trait.
    fn from(array: [T; 2]) -> (r: Vector2<T>)
        ensures
            r == Vector2::from_array_spec(array),
    {
        Vector2(array[0], array[1])
    }
}

impl<T: Copy> vstd::std_specs::convert::FromSpecImpl<[T; 2]> for Vector2<T> {
    open spec fn obeys_from_spec() -> bool {
        true
    }

    open spec fn from_spec(array: [T; 2]) -> Vector2<T> {
        Vector2::from_array_spec(array)
    }
}

impl<T> From<(T, T)> for Vector2<T> {
    /// The same conversion as `from_tuple`, through the standard trait.
    fn from(tuple: (T, T)) -> (r: Vector2<T>)
        ensures
            r == Vector2::from_tuple_spec(tuple),
    {
        Vector2(tuple.0, tuple.1)
    }
}

impl<T> vstd::std_specs::convert::FromSpecImpl<(T, T)> for Vector2<T> {
    open spec fn obeys_from_spec() -> bool {
        true
    }

    open spec fn from_spec(tuple: (T, T)) -> Vector2<T> {
        Vector2::from_tuple_spec(tuple)
    }
}

impl<T> Vector2<T> {
    /// Returns the normal vector (aka. hat vector) of this vector i.e. a perpendicular vector
    ///
    /// Not to be confused with `normalise` which returns a unit vector
    ///
    /// Defined as (-y, x)
    pub fn normal(self) -> (r: Self) where T: Neg<Output = T>
        requires
            self.1.neg_req(),
        ensures
            T::obeys_neg_spec() ==> r == self.normal_spec(),
    {
        let Vector2(x, y) = self;
        Vector2(y.neg(), x)
    }

    /// The perpendicular vector `(-y, x)`, over the scalar type's own negation.
    pub open spec fn normal_spec(self) -> Self where T: Neg<Output = T> {
        Vector2(self.1.neg_spec(), self.0)
    }

    /// The dot product, `x1 * x2 + y1 * y2`, over the scalar type's own
    /// multiplication and addition.
    pub open spec fn dot_spec(self, other: Self) -> <<T as Mul>::Output as Add>::Output
        where T: Mul, <T as Mul>::Output: Add,
    {
        (self.0.mul_spec(other.0)).add_spec(self.1.mul_spec(other.1))
    }

    /// The determinant, `x1 * y2 - y1 * x2`, over the scalar type's own
    /// multiplication and subtraction.
    pub open spec fn det_spec(self, other: Self) -> <<T as Mul>::Output as Sub>::Output
        where T: Mul, <T as Mul>::Output: Sub,
    {
        (self.0.mul_spec(other.1)).sub_spec(self.1.mul_spec(other.0))
    }

    /// The conditions under which the scalar operations of the dot product
    /// are within their own limits.
    pub open spec fn dot_req(self, other: Self) -> bool
        where T: Mul, <T as Mul>::Output: Add,
    {
        self.0.mul_req(other.0) && self.1.mul_req(other.1)
            && (self.0.mul_spec(other.0)).add_req(self.1.mul_spec(other.1))
    }

    /// The conditions under which the scalar operations of the determinant
    /// are within their own limits.
    pub open spec fn det_req(self, other: Self) -> bool
        where T: Mul, <T as Mul>::Output: Sub,
    {
        self.0.mul_req(other.1) && self.1.mul_req(other.0)
            && (self.0.mul_spec(other.1)).sub_req(self.1.mul_spec(other.0))
    }

    /// Returns the dot product of two vectors
    pub fn dot(self, other: Self) -> (r: <<T as Mul>::Output as Add>::Output)
        where T: Mul, <T as Mul>::Output: Add,
        requires
            T::obeys_mul_spec(),
            self.dot_req(other),
        ensures
            <<T as Mul>::Output as AddSpec>::obeys_add_spec() ==> r == self.dot_spec(other),
    {
        self.0 * other.0 + self.1 * other.1
    }

    /// Returns the determinant of two vectors
    pub fn det(self, other: Self) -> (r: <<T as Mul>::Output as Sub>::Output)
        where T: Mul, <T as Mul>::Output: Sub,
        requires
            T::obeys_mul_spec(),
            self.det_req(other),
        ensures
            <<T as Mul>::Output as SubSpec>::obeys_sub_spec() ==> r == self.det_spec(other),
    {
        self.0 * other.1 - self.1 * other.0
    }
}

// Geometric queries. Each one is stated over the scalar type's own spec
// functions: the square root, trigonometry and classification of the scalars
// are whatever the scalar type says they are.
impl<T> Vector2<T> {
    /// The squared length, `x * x + y * y`, over the scalar type's own
    /// multiplication and addition.
    pub open spec fn length_squared_spec(self) -> <<T as Mul>::Output as Add>::Output
        where T: Mul + Copy, <T as Mul>::Output: Add,
    {
        (self.0.mul_spec(self.0)).add_spec(self.1.mul_spec(self.1))
    }

    /// The length: the scalar type's square root of the squared length.
    pub open spec fn length_spec(self) -> T
        where T: Mul<Output = T> + Add<Output = T> + Sqrt + Copy,
    {
        self.length_squared_spec().sqrt_spec()
    }

    /// The normalised vector: each component divided by the length.
    pub open spec fn normalise_spec(self) -> Self
        where T: Mul<Output = T> + Add<Output = T> + Sqrt + Div<Output = T> + Copy,
    {
        Vector2(
            self.0.div_spec(self.length_spec()),
            self.1.div_spec(self.length_spec()),
        )
    }

    /// Creates a new unit vector in a specific direction
    pub fn unit_vector(direction: T) -> (r: Self) where T: SinCos
        ensures
            r == (Vector2(direction.cos_spec(), direction.sin_spec())),
    {
        let (y, x) = direction.sin_cos();
        Vector2(x, y)
    }

    /// Normalises the vector
    ///
    /// On a zero-length vector the division is the scalar type's own
    /// division by its zero-length value; avoiding that is the caller's
    /// responsibility, as nothing is special-cased here.
    pub fn normalise(self) -> (r: Self)
        where T: Mul<Output = T> + Add<Output = T> + Sqrt + Div<Output = T> + Copy,
        requires
            T::obeys_mul_spec(),
            T::obeys_add_spec(),
            T::obeys_div_spec(),
            self.dot_req(self),
            self.0.div_req(self.length_spec()),
            self.1.div_req(self.length_spec()),
        ensures
            r == self.normalise_spec(),
    {
        self / self.length()
    }

    /// Returns the magnitude/length of the vector
    pub fn length(self) -> (r: T)
        where T: Mul<Output = T> + Add<Output = T> + Sqrt + Copy,
        requires
            T::obeys_mul_spec(),
            T::obeys_add_spec(),
            self.dot_req(self),
        ensures
            r == self.length_spec(),
    {
        // This is apparently faster than using hypot
        self.length_squared().sqrt()
    }

    /// Returns the magnitude/length of the vector squared
    pub fn length_squared(self) -> (r: <<T as Mul>::Output as Add>::Output)
        where T: Mul + Copy, <T as Mul>::Output: Add,
        requires
            T::obeys_mul_spec(),
            self.dot_req(self),
        ensures
            <<T as Mul>::Output as AddSpec>::obeys_add_spec() ==> r == self.length_squared_spec(),
    {
        self.0 * self.0 + self.1 * self.1
    }

    /// Returns direction the vector is pointing
    pub fn direction(self) -> (r: T) where T: Atan2
        ensures
            r == self.1.atan2_spec(self.0),
    {
        self.1.atan2(self.0)
    }

    /// Returns direction towards another vector
    pub fn direction_to(self, other: Self) -> (r: T)
        where T: Sub<Output = T> + Atan2 + Copy,
        requires
            T::obeys_sub_spec(),
            other.0.sub_req(self.0),
            other.1.sub_req(self.1),
        ensures
            r == (other.1.sub_spec(self.1)).atan2_spec(other.0.sub_spec(self.0)),
    {
        (other - self).direction()
    }

    /// Returns the distance betweens two vectors
    pub fn distance_to(self, other: Self) -> (r: T)
        where T: Sub<Output = T> + Mul<Output = T> + Add<Output = T> + Sqrt + Copy,
        requires
            T::obeys_sub_spec(),
            T::obeys_mul_spec(),
            T::obeys_add_spec(),
            other.0.sub_req(self.0),
            other.1.sub_req(self.1),
            (other.sub_spec(self)).dot_req(other.sub_spec(self)),
        ensures
            r == (other.sub_spec(self)).length_spec(),
    {
        (other - self).length()
    }

    /// Returns the distance betweens two vectors
    pub fn distance_to_squared(self, other: Self) -> (r: <<T as Mul>::Output as Add>::Output)
        where T: Sub<Output = T> + Mul + Copy, <T as Mul>::Output: Add,
        requires
            T::obeys_sub_spec(),
            T::obeys_mul_spec(),
            other.0.sub_req(self.0),
            other.1.sub_req(self.1),
            (other.sub_spec(self)).dot_req(other.sub_spec(self)),
        ensures
            <<T as Mul>::Output as AddSpec>::obeys_add_spec() ==> r == (other.sub_spec(
                self,
            )).length_squared_spec(),
    {
        (other - self).length_squared()
    }

    /// Returns `true` if either component is `NaN`.
    pub fn is_any_nan(&self) -> (r: bool) where T: Classify + Copy
        ensures
            r == (self.0.is_nan_spec() || self.1.is_nan_spec()),
    {
        self.0.is_nan() || self.1.is_nan()
    }

    /// Returns `true` if either component is positive or negative infinity.
    pub fn is_any_infinite(&self) -> (r: bool) where T: Classify + Copy
        ensures
            r == (self.0.is_infinite_spec() || self.1.is_infinite_spec()),
    {
        self.0.is_infinite() || self.1.is_infinite()
    }

    /// Returns `true` if both components are neither infinite nor `NaN`.
    pub fn is_all_finite(&self) -> (r: bool) where T: Classify + Copy
        ensures
            r == (self.0.is_finite_spec() && self.1.is_finite_spec()),
    {
        self.0.is_finite() && self.1.is_finite()
    }

    /// Returns `true` if both components are neither zero, infinite, subnormal nor `NaN`.
    pub fn is_all_normal(&self) -> (r: bool) where T: Classify + Copy
        ensures
            r == (self.0.is_normal_spec() && self.1.is_normal_spec()),
    {
        self.0.is_normal() && self.1.is_normal()
    }
}

impl<T: Add> Add for Vector2<T> {
    type Output = Vector2<T::Output>;

    /// Component-wise addition.
    fn add(self, rhs: Self) -> Vector2<T::Output> {
        Vector2(self.0 + rhs.0, self.1 + rhs.1)
    }
}

impl<T: Add> vstd::std_specs::ops::AddSpecImpl for Vector2<T> {
    open spec fn obeys_add_spec() -> bool {
        T::obeys_add_spec()
    }

    open spec fn add_req(self, rhs: Self) -> bool {
        self.0.add_req(rhs.0) && self.1.add_req(rhs.1)
    }

    open spec fn add_spec(self, rhs: Self) -> Vector2<T::Output> {
        Vector2(self.0.add_spec(rhs.0), self.1.add_spec(rhs.1))
    }
}

impl<T: Sub> Sub for Vector2<T> {
    type Output = Vector2<T::Output>;

    /// Component-wise subtraction.
    fn sub(self, rhs: Self) -> Vector2<T::Output> {
        Vector2(self.0 - rhs.0, self.1 - rhs.1)
    }
}

impl<T: Sub> vstd::std_specs::ops::SubSpecImpl for Vector2<T> {
    open spec fn obeys_sub_spec() -> bool {
        T::obeys_sub_spec()
    }

    open spec fn sub_req(self, rhs: Self) -> bool {
        self.0.sub_req(rhs.0) && self.1.sub_req(rhs.1)
    }

    open spec fn sub_spec(self, rhs: Self) -> Vector2<T::Output> {
        Vector2(self.0.sub_spec(rhs.0), self.1.sub_spec(rhs.1))
    }
}

impl<T: Mul + Copy> Mul<T> for Vector2<T> {
    type Output = Vector2<T::Output>;

    /// Multiplication of both components by a scalar.
    fn mul(self, rhs: T) -> Vector2<T::Output> {
        Vector2(self.0 * rhs, self.1 * rhs)
    }
}

impl<T: Mul + Copy> vstd::std_specs::ops::MulSpecImpl<T> for Vector2<T> {
    open spec fn obeys_mul_spec() -> bool {
        T::obeys_mul_spec()
    }

    open spec fn mul_req(self, rhs: T) -> bool {
        self.0.mul_req(rhs) && self.1.mul_req(rhs)
    }

    open spec fn mul_spec(self, rhs: T) -> Vector2<T::Output> {
        Vector2(self.0.mul_spec(rhs), self.1.mul_spec(rhs))
    }
}

impl<T: Div + Copy> Div<T> for Vector2<T> {
    type Output = Vector2<T::Output>;

    /// Division of both components by a scalar.
    fn div(self, rhs: T) -> Vector2<T::Output> {
        Vector2(self.0 / rhs, self.1 / rhs)
    }
}

impl<T: Div + Copy> vstd::std_specs::ops::DivSpecImpl<T> for Vector2<T> {
    open spec fn obeys_div_spec() -> bool {
        T::obeys_div_spec()
    }

    open spec fn div_req(self, rhs: T) -> bool {
        self.0.div_req(rhs) && self.1.div_req(rhs)
    }

    open spec fn div_spec(self, rhs: T) -> Vector2<T::Output> {
        Vector2(self.0.div_spec(rhs), self.1.div_spec(rhs))
    }
}

impl<T: Neg> Neg for Vector2<T> {
    type Output = Vector2<T::Output>;

    /// Component-wise negation.
    fn neg(self) -> Vector2<T::Output> {
        Vector2(self.0.neg(), self.1.neg())
    }
}

impl<T: Neg> vstd::std_specs::ops::NegSpecImpl for Vector2<T> {
    open spec fn obeys_neg_spec() -> bool {
        T::obeys_neg_spec()
    }

    open spec fn neg_req(self) -> bool {
        self.0.neg_req() && self.1.neg_req()
    }

    open spec fn neg_spec(self) -> Vector2<T::Output> {
        Vector2(self.0.neg_spec(), self.1.neg_spec())
    }
}

// In-place compound assignment, component by component. The scalar type must
// be duplicable and its operation must close over the type itself.
impl<T: Copy> Vector2<T> {
    /// Adds another vector to this one, in place.
    pub fn add_assign(&mut self, rhs: Vector2<T>) where T: Add<Output = T>
        requires
            T::obeys_add_spec(),
            old(self).0.add_req(rhs.0),
            old(self).1.add_req(rhs.1),
        ensures
            *final(self) == (old(self).add_spec(rhs)),
    {
        self.0 = self.0 + rhs.0;
        self.1 = self.1 + rhs.1;
    }

    /// Subtracts another vector from this one, in place.
    pub fn sub_assign(&mut self, rhs: Vector2<T>) where T: Sub<Output = T>
        requires
            T::obeys_sub_spec(),
            old(self).0.sub_req(rhs.0),
            old(self).1.sub_req(rhs.1),
        ensures
            *final(self) == (old(self).sub_spec(rhs)),
    {
        self.0 = self.0 - rhs.0;
        self.1 = self.1 - rhs.1;
    }

    /// Multiplies both components by a scalar, in place.
    pub fn mul_assign(&mut self, rhs: T) where T: Mul<Output = T>
        requires
            T::obeys_mul_spec(),
            old(self).0.mul_req(rhs),
            old(self).1.mul_req(rhs),
        ensures
            *final(self) == (old(self).mul_spec(rhs)),
    {
        self.0 = self.0 * rhs;
        self.1 = self.1 * rhs;
    }

    /// Divides both components by a scalar, in place.
    pub fn div_assign(&mut self, rhs: T) where T: Div<Output = T>
        requires
            T::obeys_div_spec(),
            old(self).0.div_req(rhs),
            old(self).1.div_req(rhs),
        ensures
            *final(self) == (old(self).div_spec(rhs)),
    {
        self.0 = self.0 / rhs;
        self.1 = self.1 / rhs;
    }
}

} // verus!
