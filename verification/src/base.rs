//! Scalar types and vector helpers shared by the whole engine.

pub mod math;
pub mod types;

pub use self::math::{vec2, vec2_to_vec3, vec2_xy, vec3, vec3_to_vec2, vec3_xyz};
pub use self::types::{i64max, PosScalar, SizeScalar, POS_ABS_MAX};
