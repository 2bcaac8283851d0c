//! The square of side one about the origin in the plane z = 0.

use crate::linear::{basis_vector, vec3_axis};
use crate::scalar::{Scalar, HALF_BITS, SIGN_BIT};
use crate::surfaces::{
    can_be_hit, coordinate, coordinate_of, hit_facing, is_hit_at, number, Crossing,
};
use crate::{Hit, Normal, Point};
use vstd::prelude::*;

verus! {

/// Whether a point lies within the square of side one about the z axis: less
/// than half a unit to either side of it along x and along y.
pub open spec fn in_the_square(p: Point) -> bool {
    let half = number(HALF_BITS);
    let minus_half = number((HALF_BITS + SIGN_BIT) as u32);
    &&& coordinate(p, 0).between(minus_half, half)
    &&& coordinate(p, 1).between(minus_half, half)
}

/// Whether a ray hits the square of side one about the origin in the plane
/// z = 0. `direction_z` is how fast the ray runs along z, `crossing` is where
/// it crosses the plane. A ray along the plane does not cross it. The edges
/// are not part of the square.
pub open spec fn is_hit(direction_z: Scalar, crossing: Crossing) -> bool {
    &&& !direction_z.zero()
    &&& can_be_hit(crossing.t)
    &&& in_the_square(crossing.position)
}

/// Where a ray hits the square of side one about the origin in the plane
/// z = 0. The square faces along z.
pub fn intersect(direction_z: Scalar, crossing: Crossing) -> (r: Option<Hit>)
    ensures
        r.is_some() == is_hit(direction_z, crossing),
        r.is_some() ==> is_hit_at(crossing, basis_vector(2), r.unwrap()),
        direction_z.zero() ==> r.is_none(),
        r.is_some() ==> can_be_hit(number(r.unwrap().t@ as u32)) && in_the_square(
            r.unwrap().position,
        ),
{
    if direction_z.is_zero() {
        return None;
    }
    if crossing.t.bits < crate::NEAREST_BITS || crossing.t.bits >= crate::scalar::INFINITE_BITS {
        return None;
    }
    let half = Scalar::from_bits(HALF_BITS);
    let minus_half = half.negated();
    let x = coordinate_of(crossing.position, 0);
    let y = coordinate_of(crossing.position, 1);
    if x.is_between(minus_half, half) && y.is_between(minus_half, half) {
        Some(hit_facing(crossing, Normal::new(vec3_axis(2))))
    } else {
        None
    }
}

} // verus!
