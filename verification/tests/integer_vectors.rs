use vector2::{Sqrt, Vector2};

#[test]
fn add_and_sub_of_integer_vectors() {
    assert_eq!(Vector2(1, 2) + Vector2(3, 4), Vector2(4, 6));
    assert_eq!(Vector2(1, 2) - Vector2(3, 4), Vector2(-2, -2));
}

#[test]
fn zero_vector_is_additive_identity() {
    let v = Vector2(17i64, -9i64);
    let zero = Vector2(0i64, 0i64);
    assert_eq!(v + zero, v);
    assert_eq!(v - v, zero);
}

#[test]
fn scale_round_trip_restores_integer_vector() {
    let v = Vector2(12i64, -42i64);
    assert_eq!((v * 7) / 7, v);
    assert_eq!((v * -3) / -3, v);
}

#[test]
fn length_squared_equals_self_dot() {
    let v = Vector2(5i64, -8i64);
    assert_eq!(v.length_squared(), v.dot(v));
}

#[test]
fn normal_is_perpendicular() {
    let v = Vector2(3i64, 7i64);
    assert_eq!(v.normal(), Vector2(-7, 3));
    assert_eq!(v.normal().dot(v), 0);
}

#[test]
fn determinant_laws() {
    let a = Vector2(2i64, 5i64);
    let b = Vector2(-3i64, 4i64);
    assert_eq!(a.det(a), 0);
    assert_eq!(a.det(b), -b.det(a));
    assert_eq!(a.det(b), 2 * 4 - 5 * -3);
}

#[test]
fn array_and_tuple_round_trip() {
    let v = Vector2(10i64, -20i64);
    assert_eq!(Vector2::from_array(v.into_array()), v);
    assert_eq!(Vector2::from_tuple(v.into_tuple()), v);
    assert_eq!(v.into_array(), [10, -20]);
    assert_eq!(v.into_tuple(), (10, -20));
}

#[test]
fn integer_length_is_floor_of_root() {
    assert_eq!(Vector2(3i64, 4i64).length_squared(), 25);
    assert_eq!(Vector2(3i64, 4i64).length(), 5);
    assert_eq!(Vector2(1i64, 1i64).length(), 1);
    assert_eq!(Vector2(0i64, 0i64).length(), 0);
}

#[test]
fn integer_scalar_square_root_is_floored() {
    assert_eq!(17i64.sqrt(), 4);
    assert_eq!(16i64.sqrt(), 4);
    assert_eq!(15i64.sqrt(), 3);
    assert_eq!(0i64.sqrt(), 0);
    assert_eq!((-5i64).sqrt(), 0);
    assert_eq!(i64::MAX.sqrt(), 3037000499);
}

#[test]
fn dot_product_value() {
    assert_eq!(Vector2(1i64, 2i64).dot(Vector2(3, 4)), 11);
}

#[test]
fn compound_assignment_operations() {
    let mut v = Vector2(1i64, 2i64);
    v.add_assign(Vector2(10, 20));
    assert_eq!(v, Vector2(11, 22));
    v.sub_assign(Vector2(1, 2));
    assert_eq!(v, Vector2(10, 20));
    v.mul_assign(3);
    assert_eq!(v, Vector2(30, 60));
    v.div_assign(6);
    assert_eq!(v, Vector2(5, 10));
}

#[test]
fn scalar_multiplication_and_division() {
    assert_eq!(Vector2(5i64, 6i64) * 2, Vector2(10, 12));
    assert_eq!(Vector2(10i64, 21i64) / 10, Vector2(1, 2));
    assert_eq!(-Vector2(1i64, -2i64), Vector2(-1, 2));
}

#[test]
fn integer_distance_between_vectors() {
    assert_eq!(Vector2(1i64, 2i64).distance_to(Vector2(4, 6)), 5);
    assert_eq!(Vector2(1i64, 2i64).distance_to_squared(Vector2(4, 6)), 25);
}

#[test]
fn integer_normalise_truncates() {
    assert_eq!(Vector2(4i64, 0i64).normalise(), Vector2(1, 0));
    assert_eq!(Vector2(3i64, 4i64).normalise(), Vector2(0, 0));
}

#[test]
fn integers_are_always_finite() {
    let v = Vector2(1i64, 2i64);
    assert!(v.is_all_finite());
    assert!(!v.is_any_nan());
    assert!(!v.is_any_infinite());
    assert!(v.is_all_normal());
    assert!(!Vector2(0i64, 2i64).is_all_normal());
}

#[test]
fn default_vector_is_zero() {
    assert_eq!(Vector2::<i64>::default(), Vector2(0, 0));
}

#[test]
fn conversion_through_standard_traits() {
    assert_eq!(Vector2::from([1i64, 2]), Vector2(1, 2));
    assert_eq!(Vector2::from((3i64, 4i64)), Vector2(3, 4));
    let v: Vector2<i64> = (5i64, 6i64).into();
    assert_eq!(v, Vector2(5, 6));
}
