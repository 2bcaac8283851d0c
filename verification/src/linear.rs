//! What the library has `glam` compute: vectors, rotations and matrices.
//!
//! Their values are single precision numbers, of which nothing is proved
//! here. Each call stands behind a function of its own, and what it returns
//! has a name, so that the contracts of the library can say which value a
//! result is without saying what it is made of.

use vstd::prelude::*;

verus! {

/// `glam::Vec3`, a vector of three single precision numbers.
#[verifier::external_type_specification]
#[verifier::external_body]
pub struct ExVec3(glam::Vec3);

/// `glam::Quat`, a rotation.
#[verifier::external_type_specification]
#[verifier::external_body]
pub struct ExQuat(glam::Quat);

/// `glam::Mat3`, a matrix of three columns and three rows.
#[verifier::external_type_specification]
#[verifier::external_body]
pub struct ExMat3(glam::Mat3);

/// `glam::Mat4`, a matrix of four columns and four rows.
#[verifier::external_type_specification]
#[verifier::external_body]
pub struct ExMat4(glam::Mat4);

/// The unit vector along axis 0, 1 or 2 (x, y or z).
pub uninterp spec fn basis_vector(axis: int) -> glam::Vec3;

/// Whether the vector passes for one of length one.
pub uninterp spec fn unit_length(v: glam::Vec3) -> bool;

/// The vector scaled to length one.
pub uninterp spec fn normalized(v: glam::Vec3) -> glam::Vec3;

/// The vector that is picked as perpendicular to a given one.
pub uninterp spec fn orthonormal_to(v: glam::Vec3) -> glam::Vec3;

/// The bit pattern of the coordinate of a vector along axis 0, 1 or 2.
pub uninterp spec fn coordinate_bits(v: glam::Vec3, axis: int) -> u32;

/// The bit pattern of the dot product of two vectors.
pub uninterp spec fn dot_bits(a: glam::Vec3, b: glam::Vec3) -> u32;

/// The vector that holds the dot product of two vectors at each place.
pub uninterp spec fn dot_vector(a: glam::Vec3, b: glam::Vec3) -> glam::Vec3;

/// The vector of the sums of the coordinates of two vectors.
pub uninterp spec fn vector_sum(a: glam::Vec3, b: glam::Vec3) -> glam::Vec3;

/// The vector of the differences of the coordinates of two vectors.
pub uninterp spec fn vector_difference(a: glam::Vec3, b: glam::Vec3) -> glam::Vec3;

/// The vector of the products of the coordinates of two vectors.
pub uninterp spec fn vector_product(a: glam::Vec3, b: glam::Vec3) -> glam::Vec3;

/// The matrix that moves every point by `by`.
pub uninterp spec fn translation_matrix(by: glam::Vec3) -> glam::Mat4;

/// The matrix that stretches each axis by the matching component of `by`.
pub uninterp spec fn scale_matrix(by: glam::Vec3) -> glam::Mat4;

/// The shortest rotation that turns `from` into `to`.
pub uninterp spec fn arc_rotation(from: glam::Vec3, to: glam::Vec3) -> glam::Quat;

/// The matrix of a rotation.
pub uninterp spec fn rotation_matrix(rotation: glam::Quat) -> glam::Mat4;

/// The matrix that applies `second`, then `first`.
pub uninterp spec fn matrix_product(first: glam::Mat4, second: glam::Mat4) -> glam::Mat4;

/// The inverse of a matrix.
pub uninterp spec fn matrix_inverse(m: glam::Mat4) -> glam::Mat4;

/// The upper left three by three block of a matrix.
pub uninterp spec fn linear_part(m: glam::Mat4) -> glam::Mat3;

/// The inverse of a three by three matrix.
pub uninterp spec fn linear_inverse(m: glam::Mat3) -> glam::Mat3;

/// The transpose of a three by three matrix.
pub uninterp spec fn linear_transpose(m: glam::Mat3) -> glam::Mat3;

/// Where a matrix takes a point.
pub uninterp spec fn point_image(m: glam::Mat4, p: glam::Vec3) -> glam::Vec3;

/// Where a matrix takes a free vector: the translation is left out.
pub uninterp spec fn vector_image(m: glam::Mat4, v: glam::Vec3) -> glam::Vec3;

/// Where a three by three matrix takes a vector.
pub uninterp spec fn linear_image(m: glam::Mat3, v: glam::Vec3) -> glam::Vec3;

/// Reads `glam::Vec3::AXES`, the three unit vectors along x, y and z, in
/// that order. Trusted: the entry read is the one that `basis_vector` names,
/// and `glam::Vec3::is_normalized` accepts it, its length being one exactly.
#[verifier::external_body]
pub(crate) fn vec3_axis(axis: usize) -> (r: glam::Vec3)
    requires
        axis < 3,
    ensures
        r == basis_vector(axis as int),
        unit_length(r),
{
    glam::Vec3::AXES[axis]
}

/// Calls `glam::Vec3::is_normalized`, which tests the squared length against
/// one with a small tolerance. Trusted: the answer is a function of the
/// vector alone.
#[verifier::external_body]
pub(crate) fn vec3_is_normalized(v: glam::Vec3) -> (r: bool)
    ensures
        r == unit_length(v),
{
    v.is_normalized()
}

/// Calls `glam::Vec3::normalize`, which multiplies the vector by the
/// reciprocal of its length. Trusted: the result is a function of the vector
/// alone. Nothing is claimed of its length: for a vector of length zero the
/// call gives no usable direction.
#[verifier::external_body]
pub(crate) fn vec3_normalize(v: glam::Vec3) -> (r: glam::Vec3)
    ensures
        r == normalized(v),
{
    v.normalize()
}

/// Calls `glam::Vec3::any_orthonormal_vector`. Trusted: the result is a
/// function of the vector alone. Nothing is claimed of its direction or
/// length, which are as documented only for a unit vector.
#[verifier::external_body]
pub(crate) fn vec3_any_orthonormal(v: glam::Vec3) -> (r: glam::Vec3)
    ensures
        r == orthonormal_to(v),
{
    v.any_orthonormal_vector()
}

/// Reads a coordinate of a `glam::Vec3` by its index and hands it on as
/// `to_bits` of the standard library gives it: bit for bit. Trusted: the
/// pattern is a function of the vector and the axis alone.
#[verifier::external_body]
pub(crate) fn vec3_coordinate_bits(v: glam::Vec3, axis: usize) -> (r: u32)
    requires
        axis < 3,
    ensures
        r == coordinate_bits(v, axis as int),
{
    v[axis].to_bits()
}

/// Calls `glam::Vec3::dot` and hands the product on as `to_bits` of the
/// standard library gives it: bit for bit. Trusted: the pattern is a
/// function of the two vectors alone.
#[verifier::external_body]
pub(crate) fn vec3_dot_bits(a: glam::Vec3, b: glam::Vec3) -> (r: u32)
    ensures
        r == dot_bits(a, b),
{
    a.dot(b).to_bits()
}

/// Calls `glam::Vec3::dot_into_vec`, which gives the vector whose every
/// coordinate is the dot product. Trusted: the result is a function of the
/// two vectors alone.
#[verifier::external_body]
pub(crate) fn vec3_dot_into_vec(a: glam::Vec3, b: glam::Vec3) -> (r: glam::Vec3)
    ensures
        r == dot_vector(a, b),
{
    a.dot_into_vec(b)
}

/// Adds two `glam::Vec3`, coordinate by coordinate. Trusted: the result is
/// a function of the two vectors alone.
#[verifier::external_body]
pub(crate) fn vec3_add(a: glam::Vec3, b: glam::Vec3) -> (r: glam::Vec3)
    ensures
        r == vector_sum(a, b),
{
    a + b
}

/// Subtracts one `glam::Vec3` from another, coordinate by coordinate.
/// Trusted: the result is a function of the two vectors alone.
#[verifier::external_body]
pub(crate) fn vec3_sub(a: glam::Vec3, b: glam::Vec3) -> (r: glam::Vec3)
    ensures
        r == vector_difference(a, b),
{
    a - b
}

/// Multiplies two `glam::Vec3`, coordinate by coordinate. Trusted: the
/// result is a function of the two vectors alone.
#[verifier::external_body]
pub(crate) fn vec3_mul(a: glam::Vec3, b: glam::Vec3) -> (r: glam::Vec3)
    ensures
        r == vector_product(a, b),
{
    a * b
}

/// Calls `glam::Mat4::from_translation`. Trusted: the result is a function
/// of the vector alone.
#[verifier::external_body]
pub(crate) fn mat4_from_translation(by: glam::Vec3) -> (r: glam::Mat4)
    ensures
        r == translation_matrix(by),
{
    glam::Mat4::from_translation(by)
}

/// Calls `glam::Mat4::from_scale`. Trusted: the result is a function of the
/// vector alone.
#[verifier::external_body]
pub(crate) fn mat4_from_scale(by: glam::Vec3) -> (r: glam::Mat4)
    ensures
        r == scale_matrix(by),
{
    glam::Mat4::from_scale(by)
}

/// Calls `glam::Quat::from_rotation_arc`. Trusted: the result is a function
/// of the two vectors alone. That it turns the first into the second is
/// documented for unit vectors only, and is not claimed.
#[verifier::external_body]
pub(crate) fn quat_from_rotation_arc(from: glam::Vec3, to: glam::Vec3) -> (r: glam::Quat)
    ensures
        r == arc_rotation(from, to),
{
    glam::Quat::from_rotation_arc(from, to)
}

/// Calls `glam::Mat4::from_quat`. Trusted: the result is a function of the
/// rotation alone.
#[verifier::external_body]
pub(crate) fn mat4_from_quat(turn: glam::Quat) -> (r: glam::Mat4)
    ensures
        r == rotation_matrix(turn),
{
    glam::Mat4::from_quat(turn)
}

/// Calls `glam::Mat4::mul_mat4`, the matrix product. Trusted: the result is
/// a function of the two matrices alone.
#[verifier::external_body]
pub(crate) fn mat4_mul(first: &glam::Mat4, second: &glam::Mat4) -> (r: glam::Mat4)
    ensures
        r == matrix_product(*first, *second),
{
    first.mul_mat4(second)
}

/// Calls `glam::Mat4::inverse`. Trusted: the result is a function of the
/// matrix alone. For a matrix that has no inverse the call returns a matrix
/// of no use, and nothing is claimed of it.
#[verifier::external_body]
pub(crate) fn mat4_inverse(m: &glam::Mat4) -> (r: glam::Mat4)
    ensures
        r == matrix_inverse(*m),
{
    m.inverse()
}

/// Calls `glam::Mat3::from_mat4`, which drops the fourth row and column.
/// Trusted: the result is a function of the matrix alone.
#[verifier::external_body]
pub(crate) fn mat3_from_mat4(m: &glam::Mat4) -> (r: glam::Mat3)
    ensures
        r == linear_part(*m),
{
    glam::Mat3::from_mat4(*m)
}

/// Calls `glam::Mat3::inverse`. Trusted: the result is a function of the
/// matrix alone.
#[verifier::external_body]
pub(crate) fn mat3_inverse(m: &glam::Mat3) -> (r: glam::Mat3)
    ensures
        r == linear_inverse(*m),
{
    m.inverse()
}

/// Calls `glam::Mat3::transpose`. Trusted: the result is a function of the
/// matrix alone.
#[verifier::external_body]
pub(crate) fn mat3_transpose(m: &glam::Mat3) -> (r: glam::Mat3)
    ensures
        r == linear_transpose(*m),
{
    m.transpose()
}

/// Calls `glam::Mat4::transform_point3`. Trusted: the result is a function
/// of the matrix and the point alone.
#[verifier::external_body]
pub(crate) fn mat4_transform_point3(m: &glam::Mat4, p: glam::Vec3) -> (r: glam::Vec3)
    ensures
        r == point_image(*m, p),
{
    m.transform_point3(p)
}

/// Calls `glam::Mat4::transform_vector3`. Trusted: the result is a function
/// of the matrix and the vector alone.
#[verifier::external_body]
pub(crate) fn mat4_transform_vector3(m: &glam::Mat4, v: glam::Vec3) -> (r: glam::Vec3)
    ensures
        r == vector_image(*m, v),
{
    m.transform_vector3(v)
}

/// Calls `glam::Mat3::mul_vec3`. Trusted: the result is a function of the
/// matrix and the vector alone.
#[verifier::external_body]
pub(crate) fn mat3_mul_vec3(m: &glam::Mat3, v: glam::Vec3) -> (r: glam::Vec3)
    ensures
        r == linear_image(*m, v),
{
    m.mul_vec3(v)
}

} // verus!
