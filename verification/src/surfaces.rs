//! Surfaces: a shape of unit size, its placement in the world, and what it
//! does to radiation.

pub mod cone;
pub mod cylinder;
pub mod disk;
pub mod rectangle;
pub mod sphere;

use crate::energy::{Fraction, UNIT};
use crate::linear::{
    basis_vector, coordinate_bits, normalized, orthonormal_to, unit_length,
    vec3_any_orthonormal, vec3_axis, vec3_coordinate_bits,
};
use crate::scalar::{Scalar, INFINITE_BITS};
use crate::transform::{placement, Transform};
use crate::{Distance, Hit, Normal, Point, Ray, SurfaceSample, NEAREST_BITS};
use vstd::prelude::*;

verus! {

/// A place where a ray crosses the whole of what a shape is cut from: the
/// sphere, the plane, the endless cylinder or cone. It lies at the
/// parameter `t` of the ray.
#[derive(Clone, Copy, Debug)]
pub struct Crossing {
    pub t: Scalar,
    pub position: Point,
}

/// The number with the given bit pattern.
pub open spec fn number(bits: u32) -> Scalar {
    Scalar { bits }
}

/// Whether a ray can hit at the parameter `t`: it is a finite number, at
/// least one ten thousandth.
pub open spec fn can_be_hit(t: Scalar) -> bool {
    NEAREST_BITS <= t.bits < INFINITE_BITS
}

/// Whether a ray can hit at the parameter `t`, and that is more than one ten
/// thousandth.
pub open spec fn can_be_hit_beyond(t: Scalar) -> bool {
    NEAREST_BITS < t.bits < INFINITE_BITS
}

/// The coordinate of a point along axis 0, 1 or 2.
pub open spec fn coordinate(p: Point, axis: int) -> Scalar {
    number(coordinate_bits(p.0, axis))
}

/// Whether `hit` is the hit at a crossing where the surface faces along
/// `normal`.
pub open spec fn is_hit_at(crossing: Crossing, normal: glam::Vec3, hit: Hit) -> bool {
    &&& hit.t@ == crossing.t.bits
    &&& hit.position == crossing.position
    &&& hit.normal.direction() == normal
}

/// Whether `hit` is what a crossing that passed for a hit comes to, seen
/// from a surface that faces along `outward` there: a hit with the normal
/// along `outward`, and no hit where `outward` gives no direction.
pub open spec fn comes_to(crossing: Crossing, outward: glam::Vec3, hit: Option<Hit>) -> bool {
    &&& hit.is_some() == unit_length(normalized(outward))
    &&& hit.is_some() ==> is_hit_at(crossing, normalized(outward), hit.unwrap())
}

/// The coordinate of a point along an axis.
pub(crate) fn coordinate_of(p: Point, axis: usize) -> (r: Scalar)
    requires
        axis < 3,
    ensures
        r == coordinate(p, axis as int),
{
    Scalar::from_bits(vec3_coordinate_bits(p.0, axis))
}

/// The hit at a crossing of a surface that faces along `outward` there.
pub(crate) fn hit_along(crossing: Crossing, outward: glam::Vec3) -> (r: Option<Hit>)
    requires
        can_be_hit(crossing.t),
    ensures
        comes_to(crossing, outward, r),
{
    match (Distance::from_bits(crossing.t.bits), Normal::new_from_unnormalized(outward)) {
        (Some(t), Some(normal)) => Some(Hit { normal, position: crossing.position, t }),
        _ => None,
    }
}

/// The hit at a crossing of a surface with the given normal.
pub(crate) fn hit_facing(crossing: Crossing, normal: Normal) -> (r: Hit)
    requires
        can_be_hit(crossing.t),
    ensures
        is_hit_at(crossing, normal.direction(), r),
{
    let t = Distance::from_bits(crossing.t.bits).unwrap();
    Hit { normal, position: crossing.position, t }
}

/// The shape of a surface in its own frame, where every shape has unit size
/// and sits at the origin.
#[derive(Clone, Copy, Debug, PartialEq, Eq, Structural)]
pub enum Collider {
    /// The sphere of radius one.
    Sphere,
    /// The disk of radius one in the plane z = 0.
    Disk,
    /// The side of the cylinder of radius one about the z axis, between
    /// z = -1/2 and z = 1/2.
    Cylinder,
    /// The square of side one in the plane z = 0.
    Rectangle,
    /// The side of the cone about the z axis with its base circle of radius
    /// one at z = 0 and its tip at z = 1.
    Cone,
}

/// How a surface sends on the energy that it does not absorb.
#[derive(Clone, Copy, Debug, PartialEq, Eq, Structural)]
pub enum Material {
    /// Into a random direction, most likely along the normal.
    Diffuse,
    /// As a mirror does.
    Specular,
}

/// A shape, its placement in the world, and what it does to radiation.
#[derive(Clone, Copy, Debug)]
pub struct Surface {
    pub transform: Transform,
    pub collider: Collider,
    /// The share of the energy of an arriving ray that the surface absorbs.
    pub emissivity: Fraction,
    pub material: Material,
}

impl Surface {
    /// Whether this is the surface of the given shape and placement as it is
    /// first made: it absorbs all that arrives, and would reflect diffusely.
    pub open spec fn is_black(self, shape: Collider, local_to_world: glam::Mat4) -> bool {
        &&& self.collider == shape
        &&& self.transform.local_to_world() == local_to_world
        &&& self.emissivity@ == UNIT
        &&& self.material == Material::Diffuse
    }

    /// The ray as the shape sees it: in the surface's own frame.
    pub fn local_ray(&self, ray: &Ray) -> (r: Ray)
        ensures
            r == self.transform.ray_in_own_frame(*ray),
    {
        self.transform.ray_world_to_local(*ray)
    }

    /// Given what the shape found for a ray in its own frame, the hit in the
    /// world. A ray that misses the shape misses the surface.
    pub fn intersect(&self, local_hit: Option<Hit>) -> (r: Option<Hit>)
        ensures
            local_hit.is_none() ==> r.is_none(),
            local_hit.is_some() ==> self.transform.takes_hit_to(local_hit.unwrap(), r),
    {
        match local_hit {
            Some(hit) => self.transform.hit_local_to_world(hit),
            None => None,
        }
    }

    /// Given a point drawn on the shape in its own frame, the point on the
    /// surface in the world.
    pub fn sample(&self, local_sample: SurfaceSample) -> (r: Option<SurfaceSample>)
        ensures
            self.transform.takes_sample_to(local_sample, r),
    {
        self.transform.surface_sample_local_to_world(local_sample)
    }

    /// A sphere about `position`. Its radius along each of the world's axes
    /// is the matching component of `scale`.
    pub fn new_sphere(position: glam::Vec3, scale: glam::Vec3) -> (r: Surface)
        ensures
            r.is_black(
                Collider::Sphere,
                placement(position, scale, basis_vector(2), basis_vector(0)),
            ),
    {
        let transform = Transform::new(position, scale, vec3_axis(2), vec3_axis(0));
        Surface {
            transform,
            collider: Collider::Sphere,
            emissivity: Fraction::one(),
            material: Material::Diffuse,
        }
    }

    /// A disk about `position` that faces along `normal`. The first two
    /// components of `scale` are its radii.
    pub fn new_disk(position: glam::Vec3, scale: glam::Vec3, normal: glam::Vec3) -> (r: Option<
        Surface,
    >)
        ensures
            r.is_some() == (unit_length(normal) && unit_length(orthonormal_to(normal))),
            r.is_some() ==> r.unwrap().is_black(
                Collider::Disk,
                placement(position, scale, normal, orthonormal_to(normal)),
            ),
    {
        Self::placed(Collider::Disk, position, scale, normal, vec3_any_orthonormal(normal))
    }

    /// The side of a cylinder about `position` whose axis runs along `axis`.
    /// The first two components of `scale` are its radii, the third is its
    /// height.
    pub fn new_cylinder(position: glam::Vec3, scale: glam::Vec3, axis: glam::Vec3) -> (r:
        Option<Surface>)
        ensures
            r.is_some() == (unit_length(axis) && unit_length(orthonormal_to(axis))),
            r.is_some() ==> r.unwrap().is_black(
                Collider::Cylinder,
                placement(position, scale, axis, orthonormal_to(axis)),
            ),
    {
        Self::placed(Collider::Cylinder, position, scale, axis, vec3_any_orthonormal(axis))
    }

    /// A rectangle about `position` that faces along `normal`, with its
    /// width along `axis_x`. The first two components of `scale` are its
    /// width and its height.
    pub fn new_rectangle(
        position: glam::Vec3,
        scale: glam::Vec3,
        normal: glam::Vec3,
        axis_x: glam::Vec3,
    ) -> (r: Option<Surface>)
        ensures
            r.is_some() == (unit_length(normal) && unit_length(axis_x)),
            r.is_some() ==> r.unwrap().is_black(
                Collider::Rectangle,
                placement(position, scale, normal, axis_x),
            ),
    {
        Self::placed(Collider::Rectangle, position, scale, normal, axis_x)
    }

    /// The side of a cone whose base circle lies about `position` and whose
    /// tip points along `axis`. The first two components of `scale` are the
    /// radii of the base, the third is the height.
    pub fn new_cone(position: glam::Vec3, scale: glam::Vec3, axis: glam::Vec3) -> (r: Option<
        Surface,
    >)
        ensures
            r.is_some() == (unit_length(axis) && unit_length(orthonormal_to(axis))),
            r.is_some() ==> r.unwrap().is_black(
                Collider::Cone,
                placement(position, scale, axis, orthonormal_to(axis)),
            ),
    {
        Self::placed(Collider::Cone, position, scale, axis, vec3_any_orthonormal(axis))
    }

    fn placed(
        collider: Collider,
        position: glam::Vec3,
        scale: glam::Vec3,
        axis_z: glam::Vec3,
        axis_x: glam::Vec3,
    ) -> (r: Option<Surface>)
        ensures
            r.is_some() == (unit_length(axis_z) && unit_length(axis_x)),
            r.is_some() ==> r.unwrap().is_black(
                collider,
                placement(position, scale, axis_z, axis_x),
            ),
    {
        match Transform::try_new(position, scale, axis_z, axis_x) {
            Some(transform) => Some(
                Surface {
                    transform,
                    collider,
                    emissivity: Fraction::one(),
                    material: Material::Diffuse,
                },
            ),
            None => None,
        }
    }

    /// The same surface as a gray body that absorbs the given share of what
    /// arrives.
    pub fn to_gray_body(self, emissivity: Fraction) -> (r: Surface)
        ensures
            r.emissivity == emissivity,
            r.transform == self.transform,
            r.collider == self.collider,
            r.material == self.material,
    {
        Surface { emissivity, ..self }
    }

    /// The same surface, reflecting diffusely.
    pub fn set_diffuse(self) -> (r: Surface)
        ensures
            r.material == Material::Diffuse,
            r.transform == self.transform,
            r.collider == self.collider,
            r.emissivity == self.emissivity,
    {
        Surface { material: Material::Diffuse, ..self }
    }

    /// The same surface, reflecting as a mirror.
    pub fn set_specular(self) -> (r: Surface)
        ensures
            r.material == Material::Specular,
            r.transform == self.transform,
            r.collider == self.collider,
            r.emissivity == self.emissivity,
    {
        Surface { material: Material::Specular, ..self }
    }
}

} // verus!
