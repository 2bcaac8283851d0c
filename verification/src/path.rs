//! A ray on its path through a scene: what each reflection takes from it,
//! and when the path ends.

use crate::energy::{share_of, share_of_is_bounded, Fraction, UNIT};
use crate::scene::Scene;
use crate::trace_record::{
    absorbed_total, absorbed_total_of_push, ids_below, TraceRecord, TraceView,
};
use crate::{HitRecord, Ray};
use vstd::prelude::*;

verus! {

/// A path is cut short at the reflection after this many.
pub const MAX_REFLECTIONS: u32 = 100;

/// A path is cut short when less than this is left of its energy: a
/// thousandth.
pub const MIN_ENERGY: u32 = 1_000_000;

/// A ray on its way through a scene: the energy that it still carries, and
/// the record of what it has hit.
#[derive(Debug)]
pub struct Path {
    energy: Fraction,
    reflections: u32,
    record: TraceRecord,
}

/// How a path stands after a reflection.
#[derive(Debug)]
pub enum Step {
    /// The path goes on along the last ray of its record.
    Flying(Path),
    /// The path was cut short.
    Ended(TraceRecord),
}

impl Path {
    /// The energy that the ray still carries, in billionths.
    pub closed spec fn energy(self) -> nat {
        self.energy@
    }

    /// How often the ray has been reflected.
    pub closed spec fn reflections(self) -> nat {
        self.reflections as nat
    }

    /// What the record of the path holds so far.
    pub closed spec fn record(self) -> TraceView {
        self.record@
    }

    /// What holds of every path that is under way. The energy that the ray
    /// carries and the energy that its reflections absorbed are together
    /// what it set out with. Each reflection has its entry in the record.
    /// And the path has not been cut short: not by the number of its
    /// reflections, and not by its energy.
    #[verifier::type_invariant]
    pub closed spec fn wf(self) -> bool {
        &&& self.energy@ + absorbed_total(self.record@.entries) == UNIT
        &&& self.reflections == self.record@.entries.len()
        &&& self.reflections <= MAX_REFLECTIONS
        &&& self.energy@ >= MIN_ENERGY
        &&& !self.record@.terminated_early
    }

    /// Whether the path is that of `ray` before anything was hit.
    pub open spec fn is_fresh(self, ray: Ray) -> bool {
        &&& self.wf()
        &&& self.energy() == UNIT
        &&& self.reflections() == 0
        &&& self.record() == (TraceView {
            terminated_early: false,
            origin: ray.origin.0,
            last_ray: ray,
            entries: Seq::empty(),
        })
    }

    /// The energy that a surface of the given emissivity takes from the ray.
    pub open spec fn absorbed_by(self, emissivity: nat) -> nat {
        share_of(self.energy(), emissivity)
    }

    /// Whether the path ends with a reflection at a surface of the given
    /// emissivity: with its hundred and first reflection, or with less than
    /// a thousandth of its energy left.
    pub open spec fn ends_at(self, emissivity: nat) -> bool {
        ||| self.reflections() + 1 > MAX_REFLECTIONS
        ||| self.energy() - self.absorbed_by(emissivity) < MIN_ENERGY
    }

    /// What the record holds after a reflection at `hit_record`, from which
    /// the ray leaves in `direction`, when `absorbed` stays in the surface.
    pub open spec fn recorded(
        self,
        hit_record: HitRecord,
        direction: glam::Vec3,
        absorbed: nat,
        after: TraceView,
    ) -> bool {
        &&& after.origin == self.record().origin
        &&& after.last_ray == (Ray { origin: hit_record.hit.position, direction })
        &&& after.entries.len() == self.record().entries.len() + 1
        &&& after.entries.drop_last() == self.record().entries
        &&& after.entries.last().surface_id == hit_record.surface_id
        &&& after.entries.last().energy_absorbed@ == absorbed
        &&& after.entries.last().point == hit_record.hit.position
    }

    /// Whether `step` is how the path stands after a reflection at
    /// `hit_record`, from which the ray leaves in `direction`. The surface
    /// takes its share of the energy that arrives, and the ray goes on with
    /// the rest.
    pub open spec fn lands(
        self,
        scene: Scene,
        hit_record: HitRecord,
        direction: glam::Vec3,
        step: Step,
    ) -> bool {
        let emissivity = scene.surfaces@[hit_record.surface_id as int].emissivity@;
        let absorbed = self.absorbed_by(emissivity);
        match step {
            Step::Flying(path) => {
                &&& !self.ends_at(emissivity)
                &&& path.wf()
                &&& path.energy() == self.energy() - absorbed
                &&& path.reflections() == self.reflections() + 1
                &&& !path.record().terminated_early
                &&& self.recorded(hit_record, direction, absorbed, path.record())
            },
            Step::Ended(record) => {
                &&& self.ends_at(emissivity)
                &&& record.wf()
                &&& record@.terminated_early
                &&& self.recorded(hit_record, direction, absorbed, record@)
            },
        }
    }

    /// The path of `ray` before anything was hit.
    pub fn new(ray: Ray) -> (r: Path)
        ensures
            r.is_fresh(ray),
    {
        Path { energy: Fraction::one(), reflections: 0, record: TraceRecord::new(ray) }
    }

    /// The ray along which the path goes on: the one to cast next.
    pub fn ray(&self) -> (r: Ray)
        ensures
            r == self.record().last_ray,
    {
        self.record.last_ray()
    }

    /// Reflects the ray at the surface that it hit. The ray leaves the point
    /// of the hit in `direction`.
    pub fn bounce(self, scene: &Scene, hit_record: HitRecord, direction: glam::Vec3) -> (r: Step)
        requires
            hit_record.surface_id < scene.surfaces@.len(),
        ensures
            self.lands(*scene, hit_record, direction, r),
    {
        proof {
            use_type_invariant(&self);
        }
        let emissivity = scene.surfaces[hit_record.surface_id].emissivity;
        let absorbed = emissivity.of(self.energy);
        let energy = self.energy.less(absorbed);
        let reflections = self.reflections + 1;
        let ray = Ray { origin: hit_record.hit.position, direction };
        let mut record = self.record;
        proof {
            absorbed_total_of_push(
                record@.entries,
                crate::trace_record::TraceRecordEntry {
                    surface_id: hit_record.surface_id,
                    energy_absorbed: absorbed,
                    point: hit_record.hit.position,
                },
            );
        }
        record.add_entry(ray, hit_record, absorbed);
        assert(record@.entries.drop_last() =~= self.record@.entries);
        if reflections > MAX_REFLECTIONS || energy.parts() < MIN_ENERGY {
            record.terminate_early();
            Step::Ended(record)
        } else {
            Step::Flying(Path { energy, reflections, record })
        }
    }

    /// Ends the path of a ray that hits nothing more: it leaves the scene
    /// with the energy that it still carries.
    pub fn escape(self) -> (r: TraceRecord)
        ensures
            r.wf(),
            r@ == self.record(),
            !r@.terminated_early,
            absorbed_total(r@.entries) + self.energy() == UNIT,
    {
        proof {
            use_type_invariant(&self);
        }
        self.record
    }
}

/// Whether each path of the list but the first is the one before it after
/// one more reflection in the scene.
pub open spec fn follow_on(paths: Seq<Path>, scene: Scene) -> bool {
    forall|k: int| 0 < k < paths.len() ==> goes_on_as(paths[k - 1], #[trigger] paths[k], scene)
}

/// Whether `after` is the path `before` after one more reflection in the
/// scene, at some surface and into some direction.
pub open spec fn goes_on_as(before: Path, after: Path, scene: Scene) -> bool {
    exists|hit_record: HitRecord, direction: glam::Vec3| #[trigger]
        before.lands(scene, hit_record, direction, Step::Flying(after))
}

/// Of every path that is under way: the energy that the ray carries and the
/// energy that its reflections absorbed are together what it set out with,
/// so neither is more than that. The ray has been reflected a hundred times
/// at most, once for each entry of the record, and carries a thousandth of
/// its energy at least.
pub proof fn path_keeps_energy(path: Path)
    requires
        path.wf(),
    ensures
        path.energy() + absorbed_total(path.record().entries) == UNIT,
        path.reflections() == path.record().entries.len(),
        path.reflections() <= MAX_REFLECTIONS,
        path.energy() >= MIN_ENERGY,
        !path.record().terminated_early,
{
}

/// A reflection takes from the ray no more than it carries, whatever share
/// the surface absorbs. What all the reflections absorbed and what the ray
/// still carries stay together what the ray set out with: after a path was
/// cut short too. A path that was cut short before its hundred and first
/// reflection has left all its energy on surfaces but for less than a
/// thousandth.
pub proof fn reflection_keeps_energy(
    path: Path,
    scene: Scene,
    hit_record: HitRecord,
    direction: glam::Vec3,
    step: Step,
)
    requires
        path.wf(),
        hit_record.surface_id < scene.surfaces@.len(),
        scene.surfaces@[hit_record.surface_id as int].emissivity@ <= UNIT,
        path.lands(scene, hit_record, direction, step),
    ensures
        path.absorbed_by(scene.surfaces@[hit_record.surface_id as int].emissivity@)
            <= path.energy(),
        match step {
            Step::Flying(after) => after.energy() + absorbed_total(after.record().entries)
                == UNIT,
            Step::Ended(record) => absorbed_total(record@.entries) + path.energy()
                - path.absorbed_by(scene.surfaces@[hit_record.surface_id as int].emissivity@)
                == UNIT,
        },
        path.reflections() < MAX_REFLECTIONS ==> (step matches Step::Ended(record)
            ==> absorbed_total(record@.entries) + MIN_ENERGY > UNIT),
{
    let emissivity = scene.surfaces@[hit_record.surface_id as int].emissivity@;
    share_of_is_bounded(path.energy(), emissivity);
    match step {
        Step::Flying(after) => {},
        Step::Ended(record) => {
            let entries = record@.entries;
            assert(entries =~= entries.drop_last().push(entries.last()));
            absorbed_total_of_push(entries.drop_last(), entries.last());
        },
    }
}

/// A path stays in its scene: where the reflections so far name surfaces of
/// the scene, and the ray hits one of them, the reflections name surfaces of
/// the scene after that too. So the record of a path can be tallied in an
/// estimate for the scene.
pub proof fn path_stays_in_scene(
    path: Path,
    scene: Scene,
    hit_record: HitRecord,
    direction: glam::Vec3,
    step: Step,
)
    requires
        ids_below(path.record().entries, scene.surfaces@.len()),
        hit_record.surface_id < scene.surfaces@.len(),
        path.lands(scene, hit_record, direction, step),
    ensures
        match step {
            Step::Flying(after) => ids_below(after.record().entries, scene.surfaces@.len()),
            Step::Ended(record) => ids_below(record@.entries, scene.surfaces@.len()),
        },
{
    let after = match step {
        Step::Flying(after) => after.record().entries,
        Step::Ended(record) => record@.entries,
    };
    assert forall|i: int| 0 <= i < after.len() implies (#[trigger] after[i]).surface_id
        < scene.surfaces@.len() by {
        if i < after.len() - 1 {
            assert(after[i] == after.drop_last()[i]);
        }
    }
}

/// No path goes on for ever. A path that is under way in a scene has been
/// reflected a hundred times at most, so with the first ray there are at
/// most a hundred and one stretches to it: whatever the ray hits, and
/// however little the surfaces absorb.
pub proof fn path_is_bounded(paths: Seq<Path>, scene: Scene, ray: Ray)
    requires
        paths.len() > 0,
        paths[0].is_fresh(ray),
        follow_on(paths, scene),
    ensures
        paths.len() <= MAX_REFLECTIONS + 1,
        forall|k: int| 0 <= k < paths.len() ==> (#[trigger] paths[k]).reflections() == k,
{
    assert forall|k: int| 0 <= k < paths.len() implies (#[trigger] paths[k]).reflections() == k
        && paths[k].wf() by {
        reflections_count_up(paths, scene, ray, k);
    }
    let last = paths.len() - 1;
    assert(paths[last].wf());
}

proof fn reflections_count_up(paths: Seq<Path>, scene: Scene, ray: Ray, k: int)
    requires
        paths.len() > 0,
        paths[0].is_fresh(ray),
        follow_on(paths, scene),
        0 <= k < paths.len(),
    ensures
        paths[k].reflections() == k,
        paths[k].wf(),
    decreases k,
{
    if k > 0 {
        reflections_count_up(paths, scene, ray, k - 1);
        assert(goes_on_as(paths[k - 1], paths[k], scene));
    }
}

/// The reflection of a path that has been reflected a hundred times ends it,
/// and the record says that the path was cut short. So does a reflection
/// that leaves the ray with less than a thousandth of its energy.
pub proof fn path_is_cut_short(
    path: Path,
    scene: Scene,
    hit_record: HitRecord,
    direction: glam::Vec3,
    step: Step,
)
    requires
        path.wf(),
        path.lands(scene, hit_record, direction, step),
    ensures
        path.reflections() == MAX_REFLECTIONS ==> step is Ended,
        path.energy() - path.absorbed_by(
            scene.surfaces@[hit_record.surface_id as int].emissivity@,
        ) < MIN_ENERGY ==> step is Ended,
        step matches Step::Ended(record) ==> record@.terminated_early && record@.entries.len()
            <= MAX_REFLECTIONS + 1,
        step matches Step::Flying(after) ==> after.reflections() <= MAX_REFLECTIONS,
{
}

} // verus!
