//! The record of a path: its reflections, in their order.

use crate::energy::{Fraction, UNIT};
use crate::{HitRecord, Point, Ray};
use vstd::prelude::*;

verus! {

/// One reflection of a path: the surface that was hit, the energy that it
/// absorbed, and the point in the world where that happened.
#[derive(Clone, Copy, Debug)]
pub struct TraceRecordEntry {
    pub surface_id: usize,
    pub energy_absorbed: Fraction,
    pub point: Point,
}

/// All the energy that the reflections of a path have absorbed.
pub open spec fn absorbed_total(entries: Seq<TraceRecordEntry>) -> nat
    decreases entries.len(),
{
    if entries.len() == 0 {
        0
    } else {
        absorbed_total(entries.drop_last()) + entries.last().energy_absorbed@
    }
}

/// Whether every reflection of a path names one of the first `surface_count`
/// surfaces.
pub open spec fn ids_below(entries: Seq<TraceRecordEntry>, surface_count: nat) -> bool {
    forall|i: int| 0 <= i < entries.len() ==> (#[trigger] entries[i]).surface_id < surface_count
}

/// One more reflection adds what it absorbed to the total.
pub proof fn absorbed_total_of_push(entries: Seq<TraceRecordEntry>, entry: TraceRecordEntry)
    ensures
        absorbed_total(entries.push(entry)) == absorbed_total(entries) + entry.energy_absorbed@,
{
    assert(entries.push(entry).drop_last() =~= entries);
}

/// What a record of a path holds.
pub struct TraceView {
    /// Whether the path was cut short, and did not leave the scene.
    pub terminated_early: bool,
    /// Where the path started.
    pub origin: glam::Vec3,
    /// The last stretch of the path.
    pub last_ray: Ray,
    /// The reflections, in the order in which they happened.
    pub entries: Seq<TraceRecordEntry>,
}

/// The record of one path through a scene. Over a whole path no more energy
/// is absorbed than the ray set out with.
#[derive(Debug)]
pub struct TraceRecord {
    terminated_early: bool,
    origin: glam::Vec3,
    last_ray: Ray,
    entries: Vec<TraceRecordEntry>,
}

impl View for TraceRecord {
    type V = TraceView;

    closed spec fn view(&self) -> TraceView {
        TraceView {
            terminated_early: self.terminated_early,
            origin: self.origin,
            last_ray: self.last_ray,
            entries: self.entries@,
        }
    }
}

impl TraceRecord {
    /// Whether the record is one of a path: over all its reflections no more
    /// energy is absorbed than a ray sets out with.
    pub open spec fn wf(&self) -> bool {
        absorbed_total(self@.entries) <= UNIT
    }

    /// The record of a path that starts with `ray` and has hit nothing yet.
    pub fn new(ray: Ray) -> (r: TraceRecord)
        ensures
            r.wf(),
            r@ == (TraceView {
                terminated_early: false,
                origin: ray.origin.0,
                last_ray: ray,
                entries: Seq::empty(),
            }),
    {
        TraceRecord {
            terminated_early: false,
            origin: ray.origin.0,
            last_ray: ray,
            entries: Vec::new(),
        }
    }

    /// Notes a reflection: what was hit, how much energy stayed there, and
    /// the ray on which the path goes on.
    pub fn add_entry(&mut self, ray: Ray, hit_record: HitRecord, energy_absorbed: Fraction)
        requires
            absorbed_total(old(self)@.entries) + energy_absorbed@ <= UNIT,
        ensures
            final(self).wf(),
            final(self)@ == (TraceView {
                last_ray: ray,
                entries: old(self)@.entries.push(
                    TraceRecordEntry {
                        surface_id: hit_record.surface_id,
                        energy_absorbed,
                        point: hit_record.hit.position,
                    },
                ),
                ..old(self)@
            }),
    {
        let entry = TraceRecordEntry {
            surface_id: hit_record.surface_id,
            energy_absorbed,
            point: hit_record.hit.position,
        };
        proof {
            absorbed_total_of_push(self.entries@, entry);
        }
        self.last_ray = ray;
        self.entries.push(entry);
    }

    /// Marks the path as cut short.
    pub fn terminate_early(&mut self)
        ensures
            old(self).wf() ==> final(self).wf(),
            final(self)@ == (TraceView { terminated_early: true, ..old(self)@ }),
    {
        self.terminated_early = true;
    }

    /// Whether the path was cut short, and did not leave the scene.
    pub fn terminated_early(&self) -> (r: bool)
        ensures
            r == self@.terminated_early,
    {
        self.terminated_early
    }

    /// Where the path started.
    pub fn origin(&self) -> (r: glam::Vec3)
        ensures
            r == self@.origin,
    {
        self.origin
    }

    /// The last stretch of the path.
    pub fn last_ray(&self) -> (r: Ray)
        ensures
            r == self@.last_ray,
    {
        self.last_ray
    }

    /// The reflections, in the order in which they happened.
    pub fn entries(&self) -> (r: &Vec<TraceRecordEntry>)
        ensures
            r@ == self@.entries,
    {
        &self.entries
    }

    /// All the energy that the path has left on surfaces.
    pub fn absorbed(&self) -> (r: Fraction)
        requires
            self.wf(),
        ensures
            r@ == absorbed_total(self@.entries),
    {
        let mut total = Fraction::zero();
        let mut i: usize = 0;
        while i < self.entries.len()
            invariant
                i <= self.entries.len(),
                total@ == absorbed_total(self.entries@.take(i as int)),
                absorbed_total(self.entries@) <= UNIT,
            decreases self.entries.len() - i,
        {
            proof {
                absorbed_total_of_take(self.entries@, i as int + 1);
                absorbed_total_grows(self.entries@, i as int + 1);
            }
            total = total.plus(self.entries[i].energy_absorbed);
            i += 1;
        }
        assert(self.entries@.take(i as int) =~= self.entries@);
        total
    }

    /// Whether every reflection names one of the first `surface_count`
    /// surfaces: whether the path can have run in a scene of that many.
    pub fn fits(&self, surface_count: usize) -> (r: bool)
        ensures
            r == ids_below(self@.entries, surface_count as nat),
    {
        let mut i: usize = 0;
        while i < self.entries.len()
            invariant
                i <= self.entries.len(),
                ids_below(self.entries@.take(i as int), surface_count as nat),
            decreases self.entries.len() - i,
        {
            if self.entries[i].surface_id >= surface_count {
                return false;
            }
            assert forall|j: int| 0 <= j < i + 1 implies (#[trigger] self.entries@.take(
                i + 1,
            )[j]).surface_id < surface_count by {
                if j < i {
                    assert(self.entries@.take(i as int)[j] == self.entries@[j]);
                }
            }
            i += 1;
        }
        assert(self.entries@.take(i as int) =~= self.entries@);
        true
    }
}

/// The total over the first `n` reflections is the total over one fewer, and
/// what the last of them absorbed.
pub proof fn absorbed_total_of_take(entries: Seq<TraceRecordEntry>, n: int)
    requires
        0 < n <= entries.len(),
    ensures
        absorbed_total(entries.take(n)) == absorbed_total(entries.take(n - 1)) + entries[n
            - 1].energy_absorbed@,
{
    assert(entries.take(n).drop_last() =~= entries.take(n - 1));
}

/// The first reflections of a path absorb no more than all of them.
pub proof fn absorbed_total_grows(entries: Seq<TraceRecordEntry>, n: int)
    requires
        0 <= n <= entries.len(),
    ensures
        absorbed_total(entries.take(n)) <= absorbed_total(entries),
    decreases entries.len() - n,
{
    if n < entries.len() {
        absorbed_total_of_take(entries, n + 1);
        absorbed_total_grows(entries, n + 1);
    } else {
        assert(entries.take(n) =~= entries);
    }
}

} // verus!
