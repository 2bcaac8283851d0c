//! The side of the cone whose base is the circle of radius one about the
//! origin in the plane z = 0, and whose tip lies at height one.

use crate::linear::{
    basis_vector, vec3_add, vec3_axis, vec3_mul, vec3_sub, vector_difference, vector_product,
    vector_sum,
};
use crate::scalar::{Scalar, ONE_BITS};
use crate::surfaces::{
    can_be_hit_beyond, comes_to, coordinate, coordinate_of, hit_along, number, Crossing,
};
use crate::{Hit, Point};
use vstd::prelude::*;

verus! {

/// The direction in which the side of the cone faces at the point (x, y, z):
/// along (x, y, 1 - z).
pub open spec fn outward(p: Point) -> glam::Vec3 {
    let flip = vector_difference(vector_sum(basis_vector(0), basis_vector(1)), basis_vector(2));
    vector_sum(vector_product(p.0, flip), basis_vector(2))
}

/// Whether a ray hits the side of the cone at a crossing: further along the
/// ray than one ten thousandth, and higher than the base and lower than the
/// tip. Neither the rim of the base nor the tip is part of the side.
pub open spec fn is_on_the_side(crossing: Crossing) -> bool {
    &&& can_be_hit_beyond(crossing.t)
    &&& in_height(crossing.position)
}

/// Whether a point lies higher than the base of the cone and lower than its
/// tip.
pub open spec fn in_height(p: Point) -> bool {
    coordinate(p, 2).between(number(0), number(ONE_BITS))
}

/// The crossing at which a ray hits the side of the cone whose base is the
/// circle of radius one about the origin in the plane z = 0, and whose tip
/// lies at height one. `a` is the leading coefficient and `discriminant` the
/// discriminant of the equation for the parameters at which the ray meets
/// the endless double cone, `one` and `other` are the crossings at its two
/// roots. Where `a` is zero there are no two roots. Of two crossings on the
/// side the ray hits at the nearer.
pub open spec fn hit_crossing(a: Scalar, discriminant: Scalar, one: Crossing, other: Crossing)
    -> Option<Crossing> {
    let (near, far) = if other.t.below(one.t) {
        (other, one)
    } else {
        (one, other)
    };
    if discriminant.below(number(0)) || a.zero() {
        None
    } else if is_on_the_side(near) {
        Some(near)
    } else if is_on_the_side(far) {
        Some(far)
    } else {
        None
    }
}

/// Where a ray hits the side of the cone of radius one and height one that
/// stands on the plane z = 0.
pub fn intersect(a: Scalar, discriminant: Scalar, one: Crossing, other: Crossing) -> (r: Option<
    Hit,
>)
    ensures
        match hit_crossing(a, discriminant, one, other) {
            Some(crossing) => comes_to(crossing, outward(crossing.position), r),
            None => r.is_none(),
        },
        a.zero() ==> r.is_none(),
        discriminant.below(number(0)) ==> r.is_none(),
        !is_on_the_side(one) && !is_on_the_side(other) ==> r.is_none(),
        r.is_some() ==> can_be_hit_beyond(number(r.unwrap().t@ as u32)) && in_height(
            r.unwrap().position,
        ),
{
    if discriminant.is_below(Scalar::from_bits(0)) || a.is_zero() {
        return None;
    }
    let (near, far) = if other.t.is_below(one.t) {
        (other, one)
    } else {
        (one, other)
    };
    if on_the_side(near) {
        hit_along(near, facing(near.position))
    } else if on_the_side(far) {
        hit_along(far, facing(far.position))
    } else {
        None
    }
}

fn on_the_side(crossing: Crossing) -> (r: bool)
    ensures
        r == is_on_the_side(crossing),
{
    crate::NEAREST_BITS < crossing.t.bits && crossing.t.bits < crate::scalar::INFINITE_BITS
        && coordinate_of(crossing.position, 2).is_between(
        Scalar::from_bits(0),
        Scalar::from_bits(ONE_BITS),
    )
}

fn facing(p: Point) -> (r: glam::Vec3)
    ensures
        r == outward(p),
{
    let flip = vec3_sub(vec3_add(vec3_axis(0), vec3_axis(1)), vec3_axis(2));
    vec3_add(vec3_mul(p.0, flip), vec3_axis(2))
}

} // verus!
