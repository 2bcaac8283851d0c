//! The sphere of radius one about the origin.

use crate::scalar::Scalar;
use crate::surfaces::{comes_to, hit_along, number, Crossing};
use crate::{Hit, NEAREST_BITS};
use vstd::prelude::*;

verus! {

/// The bit pattern of the largest parameter at which a ray hits the sphere:
/// a hundred.
pub const FARTHEST_BITS: u32 = 0x42C8_0000;

/// Whether a ray hits the sphere at the parameter `t`: it is at least one
/// ten thousandth and at most a hundred.
pub open spec fn in_reach(t: Scalar) -> bool {
    t.within(number(NEAREST_BITS), number(FARTHEST_BITS))
}

/// The crossing at which a ray hits the sphere of radius one about the
/// origin, if it does. `discriminant` is that of the equation for the
/// parameters at which the ray is at distance one from the origin, `near`
/// and `far` are the crossings at its smaller and its larger root. A ray
/// hits at the nearer crossing that is in reach.
pub open spec fn hit_crossing(discriminant: Scalar, near: Crossing, far: Crossing) -> Option<
    Crossing,
> {
    if discriminant.below(number(0)) {
        None
    } else if in_reach(near.t) {
        Some(near)
    } else if in_reach(far.t) {
        Some(far)
    } else {
        None
    }
}

/// Where a ray hits the sphere of radius one about the origin. The normal
/// at a point of this sphere is the point itself.
pub fn intersect(discriminant: Scalar, near: Crossing, far: Crossing) -> (r: Option<Hit>)
    ensures
        match hit_crossing(discriminant, near, far) {
            Some(crossing) => comes_to(crossing, crossing.position.0, r),
            None => r.is_none(),
        },
        discriminant.below(number(0)) ==> r.is_none(),
        !in_reach(near.t) && !in_reach(far.t) ==> r.is_none(),
        r.is_some() ==> in_reach(number(r.unwrap().t@ as u32)),
{
    if discriminant.is_below(Scalar::from_bits(0)) {
        return None;
    }
    let nearest = Scalar::from_bits(NEAREST_BITS);
    let farthest = Scalar::from_bits(FARTHEST_BITS);
    if near.t.is_within(nearest, farthest) {
        hit_along(near, near.position.0)
    } else if far.t.is_within(nearest, farthest) {
        hit_along(far, far.position.0)
    } else {
        None
    }
}

} // verus!
