//! The disk of radius one about the origin in the plane z = 0.

use crate::linear::{basis_vector, dot_bits, vec3_axis, vec3_dot_bits};
use crate::scalar::{Scalar, ONE_BITS};
use crate::surfaces::{can_be_hit, hit_facing, is_hit_at, number, Crossing};
use crate::{Hit, Normal, Point};
use vstd::prelude::*;

verus! {

/// The square of the distance of a point from the origin.
pub open spec fn radius_squared(p: Point) -> Scalar {
    number(dot_bits(p.0, p.0))
}

/// Whether a ray hits the disk of radius one about the origin in the plane
/// z = 0. `direction_z` is how fast the ray runs along z, `crossing` is where
/// it crosses the plane. A ray along the plane does not cross it. The rim is
/// not part of the disk.
pub open spec fn is_hit(direction_z: Scalar, crossing: Crossing) -> bool {
    &&& !direction_z.zero()
    &&& can_be_hit(crossing.t)
    &&& radius_squared(crossing.position).below(number(ONE_BITS))
}

/// Where a ray hits the disk of radius one about the origin in the plane
/// z = 0. The disk faces along z.
pub fn intersect(direction_z: Scalar, crossing: Crossing) -> (r: Option<Hit>)
    ensures
        r.is_some() == is_hit(direction_z, crossing),
        r.is_some() ==> is_hit_at(crossing, basis_vector(2), r.unwrap()),
        direction_z.zero() ==> r.is_none(),
        r.is_some() ==> can_be_hit(number(r.unwrap().t@ as u32)) && radius_squared(
            r.unwrap().position,
        ).below(number(ONE_BITS)),
{
    if direction_z.is_zero() {
        return None;
    }
    if crossing.t.bits < crate::NEAREST_BITS || crossing.t.bits >= crate::scalar::INFINITE_BITS {
        return None;
    }
    let p = crossing.position.0;
    if Scalar::from_bits(vec3_dot_bits(p, p)).is_below(Scalar::from_bits(ONE_BITS)) {
        Some(hit_facing(crossing, Normal::new(vec3_axis(2))))
    } else {
        None
    }
}

} // verus!
