//! Simple and generic implementation of 2D vectors
//!
//! Intended for use in 2D game engines.
//!
//! The vector type is generic over its scalar type: arithmetic is stated
//! through the standard operator traits, so the result type of every
//! component operation follows whatever the scalar operation itself yields.

mod laws;
mod scalar;
mod vector;

pub use laws::lemma_array_round_trip;
pub use laws::lemma_det_antisymmetric;
pub use laws::lemma_det_self_zero;
pub use laws::lemma_length_squared_is_dot;
pub use laws::lemma_normal_perpendicular;
pub use laws::lemma_scale_round_trip;
pub use laws::lemma_tuple_round_trip;
pub use laws::lemma_zero_additive_identity;
pub use scalar::floor_sqrt;
pub use scalar::lemma_floor_sqrt_bounds;
pub use scalar::lemma_floor_sqrt_unique;
pub use scalar::Atan2;
pub use scalar::Classify;
pub use scalar::SinCos;
pub use scalar::Sqrt;
pub use vector::Vector2;


