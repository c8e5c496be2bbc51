//! Integer vectors: `nalgebra`'s fixed-size vectors of [`PosScalar`], and the
//! plain [`Veci`] triple.

use vstd::prelude::*;
use nalgebra::{Vector2, Vector3};
use crate::base::types::PosScalar;

pub mod veci;

pub use self::veci::Veci;

verus! {

/// `nalgebra::Matrix`, the type behind `Vector2` and `Vector3`. Its contents
/// are hidden from the verifier; see [`vector2_coords`] and
/// [`vector3_coords`].
#[verifier::external_type_specification]
#[verifier::external_body]
#[verifier::reject_recursive_types(T)]
#[verifier::reject_recursive_types(R)]
#[verifier::reject_recursive_types(C)]
#[verifier::reject_recursive_types(S)]
pub struct ExMatrix<T, R, C, S>(nalgebra::Matrix<T, R, C, S>);

/// `nalgebra::Const`, the type-level dimension of a fixed-size vector.
#[verifier::external_type_specification]
#[verifier::external_body]
pub struct ExConst<const R: usize>(nalgebra::Const<R>);

/// `nalgebra::ArrayStorage`, the storage of a fixed-size vector.
#[verifier::external_type_specification]
#[verifier::external_body]
#[verifier::reject_recursive_types(T)]
pub struct ExArrayStorage<T, const R: usize, const C: usize>(nalgebra::ArrayStorage<T, R, C>);

/// The components that a `Vector2` holds, in the order `x`, `y`.
pub uninterp spec fn vector2_coords(v: Vector2<PosScalar>) -> Seq<PosScalar>;

/// The components that a `Vector3` holds, in the order `x`, `y`, `z`.
pub uninterp spec fn vector3_coords(v: Vector3<PosScalar>) -> Seq<PosScalar>;

/// The `x` component of a two-dimensional vector.
pub open spec fn x2(v: Vector2<PosScalar>) -> int {
    vector2_coords(v)[0] as int
}

/// The `y` component of a two-dimensional vector.
pub open spec fn y2(v: Vector2<PosScalar>) -> int {
    vector2_coords(v)[1] as int
}

/// The `x` component of a three-dimensional vector.
pub open spec fn x3(v: Vector3<PosScalar>) -> int {
    vector3_coords(v)[0] as int
}

/// The `y` component of a three-dimensional vector.
pub open spec fn y3(v: Vector3<PosScalar>) -> int {
    vector3_coords(v)[1] as int
}

/// The `z` component of a three-dimensional vector.
pub open spec fn z3(v: Vector3<PosScalar>) -> int {
    vector3_coords(v)[2] as int
}

/// Calls `nalgebra::Vector2::new`. Trusted: the vector built holds exactly
/// the two arguments, `x` first.
#[verifier::external_body]
pub(crate) fn vector2_new(x: PosScalar, y: PosScalar) -> (v: Vector2<PosScalar>)
    ensures
        vector2_coords(v) == seq![x, y],
{
    Vector2::new(x, y)
}

/// Calls `nalgebra::Vector3::new`. Trusted: the vector built holds exactly
/// the three arguments, in the order given.
#[verifier::external_body]
pub(crate) fn vector3_new(x: PosScalar, y: PosScalar, z: PosScalar) -> (v: Vector3<PosScalar>)
    ensures
        vector3_coords(v) == seq![x, y, z],
{
    Vector3::new(x, y, z)
}

/// Reads the fields `x` and `y` that `nalgebra` gives a `Vector2` through
/// `Deref`. Trusted: a two-dimensional vector holds two components, and the
/// fields are the first and the second of them.
#[verifier::external_body]
pub(crate) fn vector2_xy(v: &Vector2<PosScalar>) -> (c: (PosScalar, PosScalar))
    ensures
        vector2_coords(*v) == seq![c.0, c.1],
{
    (v.x, v.y)
}

/// Reads the fields `x`, `y` and `z` that `nalgebra` gives a `Vector3`
/// through `Deref`. Trusted: a three-dimensional vector holds three
/// components, and the fields are these in order.
#[verifier::external_body]
pub(crate) fn vector3_xyz(v: &Vector3<PosScalar>) -> (c: (PosScalar, PosScalar, PosScalar))
    ensures
        vector3_coords(*v) == seq![c.0, c.1, c.2],
{
    (v.x, v.y, v.z)
}

/// The two-dimensional vector with the components `x` and `y`.
pub fn vec2(x: PosScalar, y: PosScalar) -> (v: Vector2<PosScalar>)
    ensures
        vector2_coords(v) == seq![x, y],
{
    vector2_new(x, y)
}

/// The three-dimensional vector with the components `x`, `y` and `z`.
pub fn vec3(x: PosScalar, y: PosScalar, z: PosScalar) -> (v: Vector3<PosScalar>)
    ensures
        vector3_coords(v) == seq![x, y, z],
{
    vector3_new(x, y, z)
}

/// The components of a two-dimensional vector, of which it has two.
pub fn vec2_xy(v: &Vector2<PosScalar>) -> (c: (PosScalar, PosScalar))
    ensures
        vector2_coords(*v) == seq![c.0, c.1],
{
    vector2_xy(v)
}

/// The components of a three-dimensional vector, of which it has three.
pub fn vec3_xyz(v: &Vector3<PosScalar>) -> (c: (PosScalar, PosScalar, PosScalar))
    ensures
        vector3_coords(*v) == seq![c.0, c.1, c.2],
{
    vector3_xyz(v)
}

/// The vector with the components of `v2` and the third component `z`.
pub fn vec2_to_vec3(v2: Vector2<PosScalar>, z: PosScalar) -> (v3: Vector3<PosScalar>)
    ensures
        vector3_coords(v3) == seq![vector2_coords(v2)[0], vector2_coords(v2)[1], z],
{
    let (x, y) = vector2_xy(&v2);
    vector3_new(x, y, z)
}

/// The vector with the first two components of `v3`.
pub fn vec3_to_vec2(v3: Vector3<PosScalar>) -> (v2: Vector2<PosScalar>)
    ensures
        vector2_coords(v2) == seq![vector3_coords(v3)[0], vector3_coords(v3)[1]],
{
    let (x, y, _z) = vector3_xyz(&v3);
    vector2_new(x, y)
}

} // verus!
