//! The scene: the surfaces in their order, and the choice of the nearest
//! hit.

use crate::estimate::Estimate;
use crate::linear::{
    dot_vector, vec3_add, vec3_dot_into_vec, vec3_mul, vec3_sub, vector_difference,
    vector_product, vector_sum,
};
use crate::parallel::{current_num_threads, rays_per_worker, ParallelEstimate};
use crate::path::Path;
use crate::primitives::Primitive;
use crate::surfaces::{Material, Surface};
use crate::{Hit, HitRecord, Normal, Ray};
use vstd::prelude::*;

verus! {

/// Whether `nearest` is the choice among what the surfaces of a scene, in
/// their order, returned for one ray: nothing where no surface was hit, and
/// else the hit with the smallest distance, with the surface it belongs to.
/// Of hits at the same distance the one of the earliest surface is chosen.
pub open spec fn is_nearest(hits: Seq<Option<Hit>>, nearest: Option<HitRecord>) -> bool {
    match nearest {
        None => forall|i: int| 0 <= i < hits.len() ==> (#[trigger] hits[i]).is_none(),
        Some(record) => {
            &&& record.surface_id < hits.len()
            &&& hits[record.surface_id as int] == Some(record.hit)
            &&& forall|i: int|
                0 <= i < record.surface_id && (#[trigger] hits[i]).is_some()
                    ==> hits[i].unwrap().t@ > record.hit.t@
            &&& forall|i: int|
                record.surface_id < i < hits.len() && (#[trigger] hits[i]).is_some()
                    ==> hits[i].unwrap().t@ >= record.hit.t@
        },
    }
}

/// There is one nearest hit: the choice among what the surfaces returned is
/// settled by their answers, down to the surface.
pub proof fn nearest_is_settled(
    hits: Seq<Option<Hit>>,
    one: Option<HitRecord>,
    other: Option<HitRecord>,
)
    requires
        is_nearest(hits, one),
        is_nearest(hits, other),
    ensures
        one == other,
{
    match (one, other) {
        (Some(a), Some(b)) => {
            assert(hits[a.surface_id as int].is_some());
            assert(hits[b.surface_id as int].is_some());
        },
        (Some(a), None) => {
            assert(hits[a.surface_id as int].is_some());
        },
        (None, Some(b)) => {
            assert(hits[b.surface_id as int].is_some());
        },
        (None, None) => {},
    }
}

/// The direction in which a mirror with the given normal sends on a ray
/// that arrives in the direction `incoming`: the part of `incoming` along
/// the normal is turned round, which takes twice that part away.
pub open spec fn mirrored(incoming: glam::Vec3, normal: glam::Vec3) -> glam::Vec3 {
    let along = dot_vector(incoming, normal);
    vector_difference(incoming, vector_product(vector_sum(along, along), normal))
}

/// The direction in which a mirror sends on a ray.
pub fn mirror(incoming: glam::Vec3, about: &Normal) -> (r: glam::Vec3)
    ensures
        r == mirrored(incoming, about.direction()),
{
    let normal = about.vec();
    let along = vec3_dot_into_vec(incoming, normal);
    vec3_sub(incoming, vec3_mul(vec3_add(along, along), normal))
}

/// What a surface does to a ray that it does not absorb.
#[derive(Clone, Copy, Debug)]
pub enum Reflection {
    /// The ray leaves into a random direction of the half space about the
    /// normal, most likely along it: the direction is for the caller to
    /// draw.
    Diffuse { about: Normal },
    /// The ray leaves as from a mirror, in the given direction.
    Specular { direction: glam::Vec3 },
}

/// The surfaces among which radiation is traced. A surface is known by its
/// place in `surfaces`, which it keeps: surfaces are added at the end, and
/// none is taken out.
#[derive(Debug)]
pub struct Scene {
    pub surfaces: Vec<Surface>,
}

impl Default for Scene {
    fn default() -> (r: Scene)
        ensures
            r.surfaces@.len() == 0,
    {
        Scene { surfaces: Vec::new() }
    }
}

impl Scene {
    /// Chooses the nearest of the hits that the surfaces of the scene, in
    /// their order, returned for one ray.
    pub fn cast_ray(&self, hits: &Vec<Option<Hit>>) -> (r: Option<HitRecord>)
        requires
            hits@.len() == self.surfaces@.len(),
        ensures
            is_nearest(hits@, r),
    {
        let mut closest: Option<HitRecord> = None;
        let mut surface_id: usize = 0;
        while surface_id < hits.len()
            invariant
                surface_id <= hits@.len(),
                is_nearest(hits@.take(surface_id as int), closest),
            decreases hits@.len() - surface_id,
        {
            let ghost seen = hits@.take(surface_id as int);
            let ghost next = hits@.take(surface_id as int + 1);
            assert(forall|i: int| 0 <= i < seen.len() ==> seen[i] == next[i]);
            assert(next[surface_id as int] == hits@[surface_id as int]);
            if let Some(hit) = hits[surface_id] {
                match closest {
                    None => {
                        closest = Some(HitRecord { surface_id, hit });
                    },
                    Some(record) => {
                        if hit.t.is_nearer_than(record.hit.t) {
                            closest = Some(HitRecord { surface_id, hit });
                        }
                    },
                }
            }
            surface_id += 1;
        }
        assert(hits@.take(surface_id as int) =~= hits@);
        closest
    }

    /// Which way a ray goes on from a hit: that is for the surface that was
    /// hit to say.
    pub fn reflection(&self, ray: &Ray, hit_record: &HitRecord) -> (r: Reflection)
        requires
            hit_record.surface_id < self.surfaces@.len(),
        ensures
            r == match self.surfaces@[hit_record.surface_id as int].material {
                Material::Diffuse => Reflection::Diffuse { about: hit_record.hit.normal },
                Material::Specular => Reflection::Specular {
                    direction: mirrored(ray.direction, hit_record.hit.normal.direction()),
                },
            },
    {
        match self.surfaces[hit_record.surface_id].material {
            Material::Diffuse => Reflection::Diffuse { about: hit_record.hit.normal },
            Material::Specular => Reflection::Specular {
                direction: mirror(ray.direction, &hit_record.hit.normal),
            },
        }
    }

    /// Sets a ray on its path through the scene: with all of its energy, and
    /// nothing hit yet.
    pub fn trace_ray(&self, ray: Ray) -> (r: Path)
        ensures
            r.is_fresh(ray),
    {
        Path::new(ray)
    }

    /// Begins an estimate of the view factors from one surface of the scene
    /// to all of them, to be made from `num_rays` rays. The rays are to be
    /// sent out from the surface diffusely, whatever its own material is.
    pub fn view_factors_for_surface(&self, surface: usize, num_rays: usize) -> (r: Estimate)
        requires
            surface < self.surfaces@.len(),
        ensures
            r.is_empty(self.surfaces@.len(), surface as nat, num_rays as nat),
    {
        Estimate::new(self.surfaces.len(), surface, num_rays)
    }

    /// Begins an estimate of view factors that is shared out among as many
    /// workers as the pool of threads has. Each worker makes an estimate of
    /// its own from an equal share of the rays, rounded down: where the
    /// rays cannot be shared out evenly, fewer are traced than were asked
    /// for.
    pub fn view_factors_for_surface_parallel(&self, surface: usize, num_rays: usize) -> (r:
        ParallelEstimate)
        requires
            surface < self.surfaces@.len(),
        ensures
            r.source == surface,
            r.surface_count == self.surfaces@.len(),
            r.rays_per_thread == rays_per_worker(num_rays as nat, r.workers as nat),
            r.workers * r.rays_per_thread <= num_rays,
    {
        ParallelEstimate::split(self.surfaces.len(), surface, num_rays, current_num_threads())
    }

    /// Adds a surface at the end. The surfaces that are there stay as they
    /// are, each in its place.
    pub fn add_surface(&mut self, surface: Surface)
        ensures
            final(self).surfaces@ == old(self).surfaces@.push(surface),
    {
        self.surfaces.push(surface);
    }

    /// Lets a solid add the surfaces that bound it. Which surfaces those are
    /// is for the solid to say. Whatever it adds, the surfaces that are there
    /// stay as they are, each in its place.
    pub fn add_primitive<P: Primitive>(&mut self, primitive: &P)
        ensures
            old(self).surfaces@.is_prefix_of(final(self).surfaces@),
    {
        primitive.add_surfaces(self);
    }
}

} // verus!
