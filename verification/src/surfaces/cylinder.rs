//! The wall of the cylinder of radius one about the z axis, half a unit to
//! either side of the plane z = 0.

use crate::linear::{basis_vector, vec3_add, vec3_axis, vec3_mul, vector_product, vector_sum};
use crate::scalar::{Scalar, HALF_BITS, SIGN_BIT};
use crate::surfaces::{
    can_be_hit, comes_to, coordinate, coordinate_of, hit_along, number, Crossing,
};
use crate::{Hit, Point};
use vstd::prelude::*;

verus! {

/// The direction in which the wall of the cylinder faces at a point: away
/// from the axis. It is the point with its height struck out.
pub open spec fn outward(p: Point) -> glam::Vec3 {
    vector_product(p.0, vector_sum(basis_vector(0), basis_vector(1)))
}

/// Whether a point lies no higher and no lower than the wall reaches: half
/// a unit to either side of the plane z = 0.
pub open spec fn on_the_wall(p: Point) -> bool {
    coordinate(p, 2).within(number((HALF_BITS + SIGN_BIT) as u32), number(HALF_BITS))
}

/// The crossing at which a ray hits the wall of the cylinder of radius one
/// about the z axis, if it does. `a` is the leading coefficient and
/// `discriminant` the discriminant of the equation for the parameters at
/// which the ray is at distance one from the axis, `near` and `far` are the
/// crossings at its smaller and its larger root. A ray along the axis
/// crosses nothing. Another ray meets the endless cylinder at the nearer
/// crossing that it can hit at, and hits the wall if it meets it there.
pub open spec fn hit_crossing(a: Scalar, discriminant: Scalar, near: Crossing, far: Crossing)
    -> Option<Crossing> {
    if discriminant.below(number(0)) || a.zero() {
        None
    } else {
        let met = if can_be_hit(near.t) {
            near
        } else {
            far
        };
        if can_be_hit(met.t) && on_the_wall(met.position) {
            Some(met)
        } else {
            None
        }
    }
}

/// Where a ray hits the wall of the cylinder of radius one about the z
/// axis, which reaches half a unit to either side of the plane z = 0.
pub fn intersect(a: Scalar, discriminant: Scalar, near: Crossing, far: Crossing) -> (r: Option<
    Hit,
>)
    ensures
        match hit_crossing(a, discriminant, near, far) {
            Some(crossing) => comes_to(crossing, outward(crossing.position), r),
            None => r.is_none(),
        },
        a.zero() ==> r.is_none(),
        discriminant.below(number(0)) ==> r.is_none(),
        !can_be_hit(near.t) && !can_be_hit(far.t) ==> r.is_none(),
        r.is_some() ==> can_be_hit(number(r.unwrap().t@ as u32)) && on_the_wall(
            r.unwrap().position,
        ),
{
    if discriminant.is_below(Scalar::from_bits(0)) || a.is_zero() {
        return None;
    }
    let met = if near.t.bits >= crate::NEAREST_BITS && near.t.bits < crate::scalar::INFINITE_BITS {
        near
    } else {
        far
    };
    if met.t.bits < crate::NEAREST_BITS || met.t.bits >= crate::scalar::INFINITE_BITS {
        return None;
    }
    let half = Scalar::from_bits(HALF_BITS);
    if coordinate_of(met.position, 2).is_within(half.negated(), half) {
        hit_along(met, vec3_mul(met.position.0, vec3_add(vec3_axis(0), vec3_axis(1))))
    } else {
        None
    }
}

} // verus!
