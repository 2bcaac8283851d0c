//! The placement of a surface: the maps between its own frame and the
//! world.

use crate::linear::{
    arc_rotation, basis_vector, linear_image, linear_inverse, linear_part, linear_transpose,
    mat3_from_mat4, mat3_inverse, mat3_mul_vec3, mat3_transpose, mat4_from_quat,
    mat4_from_scale, mat4_from_translation, mat4_inverse, mat4_mul, mat4_transform_point3,
    mat4_transform_vector3, matrix_inverse, matrix_product, normalized, point_image,
    quat_from_rotation_arc, rotation_matrix, scale_matrix, translation_matrix, unit_length,
    vec3_axis, vec3_is_normalized, vector_image,
};
use crate::{Hit, Normal, Point, Ray, SurfaceSample};
use vstd::prelude::*;

verus! {

/// The matrix that places a surface: it stretches the surface's own axes by
/// `scale`, turns its z axis onto `axis_z`, turns about that axis until its
/// x axis lies along `axis_x`, and moves its centre to `translation`.
pub open spec fn placement(
    translation: glam::Vec3,
    scale: glam::Vec3,
    axis_z: glam::Vec3,
    axis_x: glam::Vec3,
) -> glam::Mat4 {
    let first = rotation_matrix(arc_rotation(basis_vector(2), axis_z));
    let second = rotation_matrix(arc_rotation(vector_image(first, basis_vector(0)), axis_x));
    matrix_product(
        matrix_product(translation_matrix(translation), matrix_product(second, first)),
        scale_matrix(scale),
    )
}

/// The matrix that takes normals from the frame of `m` to the world: the
/// transpose of the inverse of its linear part. Under a stretch that differs
/// between the axes, `m` itself would tilt them.
pub open spec fn normal_matrix(m: glam::Mat4) -> glam::Mat3 {
    linear_transpose(linear_inverse(linear_part(m)))
}

/// The placement of a surface: the map from its own frame to the world,
/// kept together with the two maps that are derived from it.
#[derive(Clone, Copy, Debug)]
pub struct Transform {
    m: glam::Mat4,
    m_inv: glam::Mat4,
    m_inv_trans: glam::Mat3,
}

impl Transform {
    #[verifier::type_invariant]
    spec fn derived_maps_agree(self) -> bool {
        &&& self.m_inv == matrix_inverse(self.m)
        &&& self.m_inv_trans == normal_matrix(self.m)
    }

    /// The map from the surface's own frame to the world.
    pub closed spec fn local_to_world(self) -> glam::Mat4 {
        self.m
    }

    /// Places a surface. The two axes are directions: they have length one.
    pub fn new(
        translation: glam::Vec3,
        scale: glam::Vec3,
        axis_z: glam::Vec3,
        axis_x: glam::Vec3,
    ) -> (r: Transform)
        requires
            unit_length(axis_z),
            unit_length(axis_x),
        ensures
            r.local_to_world() == placement(translation, scale, axis_z, axis_x),
    {
        let translate = mat4_from_translation(translation);
        let stretch = mat4_from_scale(scale);
        let first = mat4_from_quat(quat_from_rotation_arc(vec3_axis(2), axis_z));
        let turned_x = mat4_transform_vector3(&first, vec3_axis(0));
        let second = mat4_from_quat(quat_from_rotation_arc(turned_x, axis_x));
        let turn = mat4_mul(&second, &first);
        let m = mat4_mul(&mat4_mul(&translate, &turn), &stretch);
        let m_inv = mat4_inverse(&m);
        let m_inv_trans = mat3_transpose(&mat3_inverse(&mat3_from_mat4(&m)));
        Transform { m, m_inv, m_inv_trans }
    }

    /// Places a surface where both axes have length one, and returns nothing
    /// where one of them has not: a vector of length zero gives no direction.
    pub fn try_new(
        translation: glam::Vec3,
        scale: glam::Vec3,
        axis_z: glam::Vec3,
        axis_x: glam::Vec3,
    ) -> (r: Option<Transform>)
        ensures
            r.is_some() == (unit_length(axis_z) && unit_length(axis_x)),
            r.is_some() ==> r.unwrap().local_to_world() == placement(
                translation,
                scale,
                axis_z,
                axis_x,
            ),
    {
        if vec3_is_normalized(axis_z) && vec3_is_normalized(axis_x) {
            Some(Transform::new(translation, scale, axis_z, axis_x))
        } else {
            None
        }
    }

    /// The map from the surface's own frame to the world.
    pub fn matrix(&self) -> (r: glam::Mat4)
        ensures
            r == self.local_to_world(),
    {
        self.m
    }

    /// The map from the world to the surface's own frame.
    pub fn inverse_matrix(&self) -> (r: glam::Mat4)
        ensures
            r == matrix_inverse(self.local_to_world()),
    {
        proof {
            use_type_invariant(self);
        }
        self.m_inv
    }

    /// The map that takes normals from the surface's own frame to the world,
    /// up to their length.
    pub fn inverse_transpose(&self) -> (r: glam::Mat3)
        ensures
            r == normal_matrix(self.local_to_world()),
    {
        proof {
            use_type_invariant(self);
        }
        self.m_inv_trans
    }

    /// Takes a normal to the world, and scales it to length one again. There
    /// is none where that scaling fails, as under a placement that flattens
    /// the surface.
    pub fn normal_local_to_world(&self, normal: Normal) -> (r: Option<Normal>)
        ensures
            r.is_some() == unit_length(self.world_normal(normal)),
            r.is_some() ==> r.unwrap().direction() == self.world_normal(normal),
    {
        proof {
            use_type_invariant(self);
        }
        Normal::new_from_unnormalized(mat3_mul_vec3(&self.m_inv_trans, normal.vec()))
    }

    /// The direction in the world of a normal of the surface's own frame.
    pub open spec fn world_normal(self, normal: Normal) -> glam::Vec3 {
        normalized(linear_image(normal_matrix(self.local_to_world()), normal.direction()))
    }

    /// Takes a point of the world to the surface's own frame.
    pub fn point_world_to_local(&self, point: Point) -> (r: Point)
        ensures
            r.0 == point_image(matrix_inverse(self.local_to_world()), point.0),
    {
        proof {
            use_type_invariant(self);
        }
        Point(mat4_transform_point3(&self.m_inv, point.0))
    }

    /// Takes a point of the surface's own frame to the world.
    pub fn point_local_to_world(&self, point: Point) -> (r: Point)
        ensures
            r.0 == point_image(self.local_to_world(), point.0),
    {
        Point(mat4_transform_point3(&self.m, point.0))
    }

    /// Takes a free vector of the world to the surface's own frame: it is
    /// turned and stretched, and not moved.
    pub fn vec_world_to_local(&self, vector: glam::Vec3) -> (r: glam::Vec3)
        ensures
            r == vector_image(matrix_inverse(self.local_to_world()), vector),
    {
        proof {
            use_type_invariant(self);
        }
        mat4_transform_vector3(&self.m_inv, vector)
    }

    /// Takes a free vector of the surface's own frame to the world.
    pub fn vec_local_to_world(&self, vector: glam::Vec3) -> (r: glam::Vec3)
        ensures
            r == vector_image(self.local_to_world(), vector),
    {
        mat4_transform_vector3(&self.m, vector)
    }

    /// The ray in the surface's own frame: its origin is taken as a point,
    /// its direction as a free vector.
    pub open spec fn ray_in_own_frame(self, ray: Ray) -> Ray {
        Ray {
            origin: Point(point_image(matrix_inverse(self.local_to_world()), ray.origin.0)),
            direction: vector_image(matrix_inverse(self.local_to_world()), ray.direction),
        }
    }

    /// Takes a ray of the world to the surface's own frame.
    pub fn ray_world_to_local(&self, ray: Ray) -> (r: Ray)
        ensures
            r == self.ray_in_own_frame(ray),
    {
        Ray {
            origin: self.point_world_to_local(ray.origin),
            direction: self.vec_world_to_local(ray.direction),
        }
    }

    /// Takes a ray of the surface's own frame to the world: its origin as a
    /// point, its direction as a free vector.
    pub fn ray_local_to_world(&self, ray: Ray) -> (r: Ray)
        ensures
            r == (Ray {
                origin: Point(point_image(self.local_to_world(), ray.origin.0)),
                direction: vector_image(self.local_to_world(), ray.direction),
            }),
    {
        Ray {
            origin: self.point_local_to_world(ray.origin),
            direction: self.vec_local_to_world(ray.direction),
        }
    }

    /// Whether `world` is what a hit of the surface's own frame comes to in
    /// the world. The distance along the ray stays: a ray and its image are
    /// run through at the same pace. There is no hit where the normal has no
    /// image.
    pub open spec fn takes_hit_to(self, hit: Hit, world: Option<Hit>) -> bool {
        &&& world.is_some() == unit_length(self.world_normal(hit.normal))
        &&& world.is_some() ==> {
            &&& world.unwrap().position.0 == point_image(self.local_to_world(), hit.position.0)
            &&& world.unwrap().normal.direction() == self.world_normal(hit.normal)
            &&& world.unwrap().t == hit.t
        }
    }

    /// Takes a hit of the surface's own frame to the world.
    pub fn hit_local_to_world(&self, hit: Hit) -> (r: Option<Hit>)
        ensures
            self.takes_hit_to(hit, r),
    {
        match self.normal_local_to_world(hit.normal) {
            Some(normal) => Some(
                Hit { position: self.point_local_to_world(hit.position), normal, t: hit.t },
            ),
            None => None,
        }
    }

    /// Whether `world` is what a point drawn in the surface's own frame, with
    /// its normal, comes to in the world. There is no sample where the normal
    /// has no image.
    pub open spec fn takes_sample_to(
        self,
        sample: SurfaceSample,
        world: Option<SurfaceSample>,
    ) -> bool {
        &&& world.is_some() == unit_length(self.world_normal(sample.normal))
        &&& world.is_some() ==> {
            &&& world.unwrap().position.0 == point_image(
                self.local_to_world(),
                sample.position.0,
            )
            &&& world.unwrap().normal.direction() == self.world_normal(sample.normal)
        }
    }

    /// Takes a point drawn in the surface's own frame, with its normal, to the
    /// world.
    pub fn surface_sample_local_to_world(&self, sample: SurfaceSample) -> (r: Option<
        SurfaceSample,
    >)
        ensures
            self.takes_sample_to(sample, r),
    {
        match self.normal_local_to_world(sample.normal) {
            Some(normal) => Some(
                SurfaceSample { position: self.point_local_to_world(sample.position), normal },
            ),
            None => None,
        }
    }
}

} // verus!
