//! View factors by ray tracing: the bookkeeping.
//!
//! A view factor is the share of the radiation leaving one surface that
//! another absorbs, directly or after reflections. It is estimated by
//! sending rays out from the first surface and following each of them from
//! reflection to reflection.
//!
//! This library holds what can be said exactly about such an estimate: how
//! surfaces are placed, which crossings of a ray with a shape are hits,
//! which hit is the nearest, what a reflection takes from a ray and when its
//! path ends, how paths are tallied, and how the tallies of several workers
//! are combined. Energy is counted in billionths of what a ray sets out
//! with. Coordinates are single precision numbers: they are computed by the
//! caller and by `glam`, and the library compares them by their bit
//! patterns.

pub mod energy;
pub mod estimate;
pub mod linear;
pub mod parallel;
pub mod path;
pub mod primitives;
pub mod scalar;
pub mod scene;
pub mod surfaces;
pub mod trace_record;
pub mod transform;

pub use scene::Scene;
pub use trace_record::TraceRecord;

use crate::linear::{normalized, unit_length, vec3_is_normalized, vec3_normalize};
use crate::scalar::INFINITE_BITS;
use vstd::prelude::*;

verus! {

/// The bit pattern of the smallest parameter at which a ray can hit, one ten
/// thousandth: nearer than that a ray would meet the surface it leaves.
pub const NEAREST_BITS: u32 = 0x38D1_B717;

/// A position in space, in the world frame or in a surface's own.
#[derive(Clone, Copy, Debug)]
pub struct Point(pub glam::Vec3);

/// A direction of length one.
#[derive(Clone, Copy, Debug)]
pub struct Normal(glam::Vec3);

impl Normal {
    #[verifier::type_invariant]
    spec fn has_unit_length(self) -> bool {
        unit_length(self.0)
    }

    /// The vector that the normal holds.
    pub closed spec fn direction(self) -> glam::Vec3 {
        self.0
    }

    /// The normal along a vector that has length one already.
    pub fn new(unit_normal: glam::Vec3) -> (r: Normal)
        requires
            unit_length(unit_normal),
        ensures
            r.direction() == unit_normal,
    {
        Normal(unit_normal)
    }

    /// The normal along `v` where `v` has length one, and nothing otherwise.
    pub fn try_new(v: glam::Vec3) -> (r: Option<Normal>)
        ensures
            unit_length(v) ==> r.is_some() && r.unwrap().direction() == v,
            !unit_length(v) ==> r.is_none(),
    {
        if vec3_is_normalized(v) {
            Some(Normal::new(v))
        } else {
            None
        }
    }

    /// The normal along `v` scaled to length one. There is none where the
    /// scaling fails to give a vector of length one, as for a vector of
    /// length zero.
    pub fn new_from_unnormalized(v: glam::Vec3) -> (r: Option<Normal>)
        ensures
            unit_length(normalized(v)) ==> r.is_some() && r.unwrap().direction() == normalized(v),
            !unit_length(normalized(v)) ==> r.is_none(),
    {
        Normal::try_new(vec3_normalize(v))
    }

    /// The vector that the normal holds: one of length one.
    pub fn vec(&self) -> (r: glam::Vec3)
        ensures
            r == self.direction(),
            unit_length(r),
    {
        proof {
            use_type_invariant(self);
        }
        self.0
    }
}

/// How far along a ray a hit lies, in units of the ray's direction: a finite
/// number, at least one ten thousandth. It is held as the bit pattern of its
/// single precision value. Among positive numbers the order of the patterns,
/// read as integers, is the order of the numbers, so distances are compared
/// by their patterns and never computed with.
#[derive(Clone, Copy, Debug)]
pub struct Distance {
    bits: u32,
}

impl View for Distance {
    type V = nat;

    closed spec fn view(&self) -> nat {
        self.bits as nat
    }
}

impl Distance {
    #[verifier::type_invariant]
    spec fn in_range(self) -> bool {
        NEAREST_BITS <= self.bits < INFINITE_BITS
    }

    /// The distance with the given pattern, where that is the pattern of a
    /// finite number of at least one ten thousandth.
    pub fn from_bits(bits: u32) -> (r: Option<Distance>)
        ensures
            NEAREST_BITS <= bits < INFINITE_BITS ==> r.is_some() && r.unwrap()@ == bits,
            !(NEAREST_BITS <= bits < INFINITE_BITS) ==> r.is_none(),
    {
        if NEAREST_BITS <= bits && bits < INFINITE_BITS {
            Some(Distance { bits })
        } else {
            None
        }
    }

    /// The bit pattern of the distance.
    pub fn bits(&self) -> (r: u32)
        ensures
            r == self@,
            NEAREST_BITS <= r < INFINITE_BITS,
    {
        proof {
            use_type_invariant(self);
        }
        self.bits
    }

    /// Whether this distance is less than the other.
    pub fn is_nearer_than(&self, other: Distance) -> (r: bool)
        ensures
            r == (self@ < other@),
    {
        self.bits < other.bits
    }
}

/// Where a ray meets a surface: the outward normal there, the point, and how
/// far along the ray it lies.
#[derive(Clone, Copy, Debug)]
pub struct Hit {
    pub normal: Normal,
    pub position: Point,
    pub t: Distance,
}

/// A half line: where it starts, and the direction it runs in, which need
/// not have length one.
#[derive(Clone, Copy, Debug)]
pub struct Ray {
    pub origin: Point,
    pub direction: glam::Vec3,
}

/// A point drawn on a surface, with the outward normal there.
#[derive(Clone, Copy, Debug)]
pub struct SurfaceSample {
    pub position: Point,
    pub normal: Normal,
}

/// A hit, and the surface of the scene that was hit.
#[derive(Clone, Copy, Debug)]
pub struct HitRecord {
    pub hit: Hit,
    pub surface_id: usize,
}

} // verus!
