//! The tally of an estimate: what the paths traced so far have left on each
//! surface, and the view factors that this comes to.

use crate::energy::{Fraction, UNIT};
use crate::trace_record::{
    absorbed_total, absorbed_total_grows, absorbed_total_of_take, ids_below, TraceRecord,
    TraceRecordEntry,
};
use vstd::prelude::*;

verus! {

/// The energy that the reflections of a path left on one surface.
pub open spec fn absorbed_at(entries: Seq<TraceRecordEntry>, surface: int) -> nat
    decreases entries.len(),
{
    if entries.len() == 0 {
        0
    } else {
        absorbed_at(entries.drop_last(), surface) + if entries.last().surface_id == surface {
            entries.last().energy_absorbed@
        } else {
            0
        }
    }
}

/// The sum of a list of numbers.
pub open spec fn total(sums: Seq<u128>) -> nat
    decreases sums.len(),
{
    if sums.len() == 0 {
        0
    } else {
        total(sums.drop_last()) + sums.last() as nat
    }
}

/// A change of one number of a list changes the sum by as much.
pub proof fn total_of_update(sums: Seq<u128>, i: int, value: u128)
    requires
        0 <= i < sums.len(),
    ensures
        total(sums.update(i, value)) + sums[i] == total(sums) + value,
    decreases sums.len(),
{
    let last = sums.len() - 1;
    if i == last {
        assert(sums.update(i, value).drop_last() =~= sums.drop_last());
    } else {
        total_of_update(sums.drop_last(), i, value);
        assert(sums.update(i, value).drop_last() =~= sums.drop_last().update(i, value));
    }
}

/// No number of a list is more than the sum of them all.
pub proof fn total_bounds_each(sums: Seq<u128>, i: int)
    requires
        0 <= i < sums.len(),
    ensures
        sums[i] <= total(sums),
    decreases sums.len(),
{
    if i < sums.len() - 1 {
        total_bounds_each(sums.drop_last(), i);
    }
}

/// A list of zeros sums to zero.
pub proof fn total_of_zeros(sums: Seq<u128>)
    requires
        forall|i: int| 0 <= i < sums.len() ==> sums[i] == 0,
    ensures
        total(sums) == 0,
    decreases sums.len(),
{
    if sums.len() > 0 {
        total_of_zeros(sums.drop_last());
    }
}

/// The sum of a list of fractions, in billionths.
pub open spec fn fraction_total(factors: Seq<Fraction>) -> nat
    decreases factors.len(),
{
    if factors.len() == 0 {
        0
    } else {
        fraction_total(factors.drop_last()) + factors.last()@
    }
}

/// Shares that are rounded down come to no more than what they are shares
/// of: where each fraction is the matching sum shared out over `rays`, all
/// the fractions together, taken `rays` times, are at most all the sums.
pub proof fn shares_are_within_sums(factors: Seq<Fraction>, sums: Seq<u128>, rays: nat)
    requires
        rays > 0,
        factors.len() == sums.len(),
        forall|i: int| 0 <= i < factors.len() ==> (#[trigger] factors[i])@ == sums[i] as nat / rays,
    ensures
        fraction_total(factors) * rays <= total(sums),
    decreases factors.len(),
{
    if factors.len() > 0 {
        shares_are_within_sums(factors.drop_last(), sums.drop_last(), rays);
        let share = factors.last()@ as int;
        let sum = sums.last() as int;
        let before = fraction_total(factors.drop_last()) as int;
        let n = rays as int;
        assert(share == sum / n);
        assert((sum / n) * n <= sum) by (nonlinear_arith)
            requires
                n > 0,
                sum >= 0,
        ;
        assert((before + share) * n == before * n + share * n) by (nonlinear_arith);
    } else {
        assert(0 * rays == 0) by (nonlinear_arith);
    }
}

/// Rounding takes less than a billionth from each share: where each fraction
/// is the matching sum shared out over `rays`, all the sums are less than
/// the fractions together, and one billionth more for each, taken `rays`
/// times.
pub proof fn sums_are_within_shares(factors: Seq<Fraction>, sums: Seq<u128>, rays: nat)
    requires
        rays > 0,
        factors.len() == sums.len(),
        forall|i: int| 0 <= i < factors.len() ==> (#[trigger] factors[i])@ == sums[i] as nat / rays,
    ensures
        total(sums) + sums.len() <= (fraction_total(factors) + sums.len()) * rays,
    decreases factors.len(),
{
    if factors.len() > 0 {
        sums_are_within_shares(factors.drop_last(), sums.drop_last(), rays);
        let share = factors.last()@ as int;
        let sum = sums.last() as int;
        let before = fraction_total(factors.drop_last()) as int;
        let len = sums.len() - 1;
        let n = rays as int;
        assert(share == sum / n);
        assert(sum < (share + 1) * n) by (nonlinear_arith)
            requires
                share == sum / n,
                n > 0,
                sum >= 0,
        ;
        assert((before + share + len + 1) * n == (before + len) * n + (share + 1) * n)
            by (nonlinear_arith);
    } else {
        assert((0 + 0) * rays == 0) by (nonlinear_arith);
    }
}

/// The energy that the reflections of all the paths of a list absorbed.
pub open spec fn absorbed_by_all(paths: Seq<Seq<TraceRecordEntry>>) -> nat
    decreases paths.len(),
{
    if paths.len() == 0 {
        0
    } else {
        absorbed_by_all(paths.drop_last()) + absorbed_total(paths.last())
    }
}

/// Whether each estimate of the list but the first is the one before it with
/// the matching path tallied.
pub open spec fn tallied_in_turn(
    estimates: Seq<Estimate>,
    paths: Seq<Seq<TraceRecordEntry>>,
) -> bool {
    &&& estimates.len() == paths.len() + 1
    &&& forall|k: int|
        0 < k < estimates.len() ==> estimates[k - 1].tallies(paths[k - 1], #[trigger] estimates[k])
}

/// An estimate of view factors under way: for each surface of a scene the
/// energy that the paths traced so far have left on it. The paths start on
/// the surface `source`, and there are to be `num_rays` of them.
#[derive(Debug)]
pub struct Estimate {
    source: usize,
    num_rays: usize,
    traced: usize,
    sums: Vec<u128>,
}

impl Estimate {
    /// The surface that the rays are sent out from.
    pub closed spec fn source(self) -> nat {
        self.source as nat
    }

    /// The number of paths that the estimate is to be made from.
    pub closed spec fn num_rays(self) -> nat {
        self.num_rays as nat
    }

    /// The number of paths that have been tallied.
    pub closed spec fn traced(self) -> nat {
        self.traced as nat
    }

    /// For each surface, the energy that the tallied paths have left on it,
    /// in billionths of the energy of one ray.
    pub closed spec fn sums(self) -> Seq<u128> {
        self.sums@
    }

    /// Whether the estimate is one that tallying can have led to: no more
    /// paths are tallied than are to be, the rays start on a surface of the
    /// scene, and all surfaces together hold no more energy than the tallied
    /// rays set out with.
    pub closed spec fn wf(self) -> bool {
        &&& self.traced <= self.num_rays
        &&& self.source < self.sums@.len()
        &&& total(self.sums@) <= self.traced * UNIT
    }

    /// Whether this is the estimate for rays from `source` in a scene of
    /// `surface_count` surfaces before any path is tallied.
    pub open spec fn is_empty(self, surface_count: nat, source: nat, num_rays: nat) -> bool {
        &&& self.wf()
        &&& self.source() == source
        &&& self.num_rays() == num_rays
        &&& self.traced() == 0
        &&& self.sums().len() == surface_count
        &&& forall|i: int| 0 <= i < surface_count ==> self.sums()[i] == 0
    }

    /// Whether `after` is this estimate with one more path tallied: each
    /// surface has received what the reflections at it absorbed, and so all
    /// of them together what the path lost.
    pub open spec fn tallies(self, entries: Seq<TraceRecordEntry>, after: Estimate) -> bool {
        &&& after.wf()
        &&& after.source() == self.source()
        &&& after.num_rays() == self.num_rays()
        &&& after.traced() == self.traced() + 1
        &&& after.sums().len() == self.sums().len()
        &&& forall|s: int|
            0 <= s < self.sums().len() ==> #[trigger] after.sums()[s] == self.sums()[s]
                + absorbed_at(entries, s)
        &&& total(after.sums()) == total(self.sums()) + absorbed_total(entries)
    }

    /// Whether `factors` are the view factors that the estimate gives: for
    /// each surface the energy that it received, shared out over the rays
    /// that the estimate is made from, and rounded down to a billionth.
    pub open spec fn gives(self, factors: Seq<Fraction>) -> bool {
        &&& factors.len() == self.sums().len()
        &&& forall|i: int|
            0 <= i < factors.len() ==> (#[trigger] factors[i])@ == self.sums()[i] as nat
                / self.num_rays()
    }

    /// The estimate for `num_rays` rays from `source` in a scene of
    /// `surface_count` surfaces, with no path tallied yet.
    pub fn new(surface_count: usize, source: usize, num_rays: usize) -> (r: Estimate)
        requires
            source < surface_count,
        ensures
            r.is_empty(surface_count as nat, source as nat, num_rays as nat),
    {
        let mut sums: Vec<u128> = Vec::new();
        let mut i: usize = 0;
        while i < surface_count
            invariant
                i <= surface_count,
                sums@.len() == i,
                forall|j: int| 0 <= j < i ==> sums@[j] == 0,
            decreases surface_count - i,
        {
            sums.push(0);
            i += 1;
        }
        proof {
            total_of_zeros(sums@);
        }
        Estimate { source, num_rays, traced: 0, sums }
    }

    /// The surface to send the next ray out from.
    pub fn surface(&self) -> (r: usize)
        requires
            self.wf(),
        ensures
            r == self.source(),
            r < self.sums().len(),
    {
        self.source
    }

    /// The number of paths that are still to be traced and tallied.
    pub fn remaining(&self) -> (r: usize)
        requires
            self.wf(),
        ensures
            r == self.num_rays() - self.traced(),
    {
        self.num_rays - self.traced
    }

    /// Tallies a path: every surface receives the energy that the
    /// reflections at it absorbed.
    pub fn add(&mut self, record: &TraceRecord)
        requires
            old(self).wf(),
            old(self).traced() < old(self).num_rays(),
            record.wf(),
            ids_below(record@.entries, old(self).sums().len()),
        ensures
            old(self).tallies(record@.entries, *final(self)),
    {
        let ghost before = self.sums@;
        let entries = record.entries();
        let mut k: usize = 0;
        while k < entries.len()
            invariant
                k <= entries@.len(),
                entries@ == record@.entries,
                absorbed_total(entries@) <= UNIT,
                ids_below(entries@, before.len()),
                self.source == old(self).source,
                self.num_rays == old(self).num_rays,
                self.traced == old(self).traced,
                self.traced < self.num_rays,
                self.sums@.len() == before.len(),
                total(before) <= self.traced * UNIT,
                forall|s: int|
                    0 <= s < before.len() ==> #[trigger] self.sums@[s] == before[s] + absorbed_at(
                        entries@.take(k as int),
                        s,
                    ),
                total(self.sums@) == total(before) + absorbed_total(entries@.take(k as int)),
            decreases entries@.len() - k,
        {
            let entry = entries[k];
            let surface = entry.surface_id;
            let ghost held = self.sums@;
            proof {
                absorbed_total_of_take(entries@, k as int + 1);
                absorbed_total_grows(entries@, k as int + 1);
                absorbed_total_grows(entries@, k as int);
                total_bounds_each(held, surface as int);
                assert(entries@.take(k as int + 1).drop_last() =~= entries@.take(k as int));
                assert(self.traced * UNIT + UNIT <= usize::MAX * UNIT + UNIT) by (nonlinear_arith)
                    requires
                        self.traced <= usize::MAX,
                ;
            }
            let received: u128 = self.sums[surface] + entry.energy_absorbed.parts() as u128;
            self.sums.set(surface, received);
            proof {
                total_of_update(held, surface as int, received);
            }
            k += 1;
        }
        proof {
            assert(entries@.take(k as int) =~= entries@);
            assert((self.traced + 1) * UNIT == self.traced * UNIT + UNIT) by (nonlinear_arith);
        }
        self.traced = self.traced + 1;
    }

    /// The view factors from the source to every surface of the scene: for
    /// each surface the energy that it received, shared out over the rays
    /// that the estimate is made from. There are none where it is to be made
    /// from no rays at all. The estimate is complete when no path remains to
    /// be tallied: before that the view factors come out too small.
    pub fn finish(&self) -> (r: Option<Vec<Fraction>>)
        requires
            self.wf(),
        ensures
            r.is_none() == (self.num_rays() == 0),
            r.is_some() ==> self.gives(r.unwrap()@),
    {
        if self.num_rays == 0 {
            return None;
        }
        let mut factors: Vec<Fraction> = Vec::new();
        let mut i: usize = 0;
        while i < self.sums.len()
            invariant
                self.wf(),
                self.num_rays > 0,
                i <= self.sums@.len(),
                factors@.len() == i,
                forall|j: int|
                    0 <= j < i ==> (#[trigger] factors@[j])@ == self.sums@[j] as nat
                        / self.num_rays as nat,
            decreases self.sums@.len() - i,
        {
            proof {
                total_bounds_each(self.sums@, i as int);
                let sum = self.sums@[i as int] as int;
                let rays = self.num_rays as int;
                assert(self.traced * UNIT <= rays * UNIT) by (nonlinear_arith)
                    requires
                        self.traced <= rays,
                ;
                assert(sum / rays <= UNIT) by (nonlinear_arith)
                    requires
                        0 <= sum <= rays * UNIT,
                        rays > 0,
                ;
            }
            let share: u128 = self.sums[i] / (self.num_rays as u128);
            let factor = Fraction::new(share as u32).unwrap();
            factors.push(factor);
            i += 1;
        }
        Some(factors)
    }
}

/// The view factors from a surface come to one at most: the surfaces of a
/// scene cannot absorb more than the rays set out with. They come to less
/// by what the rays carried out of the scene or still carried when their
/// paths were cut short, and by the rounding.
pub proof fn view_factors_are_shares(estimate: Estimate, factors: Seq<Fraction>)
    requires
        estimate.wf(),
        estimate.num_rays() > 0,
        estimate.gives(factors),
    ensures
        fraction_total(factors) <= UNIT,
        fraction_total(factors) * estimate.num_rays() <= total(estimate.sums()),
        total(estimate.sums()) <= estimate.traced() * UNIT,
        estimate.traced() <= estimate.num_rays(),
{
    shares_are_within_sums(factors, estimate.sums(), estimate.num_rays());
    let all = fraction_total(factors) as int;
    let rays = estimate.num_rays() as int;
    let traced = estimate.traced() as int;
    assert(traced * UNIT <= rays * UNIT) by (nonlinear_arith)
        requires
            traced <= rays,
    ;
    assert(all <= UNIT) by (nonlinear_arith)
        requires
            all * rays <= rays * UNIT,
            rays > 0,
    ;
}

/// Tallying keeps the energy: after any number of paths the surfaces hold
/// together what the reflections of all those paths absorbed, no more and no
/// less.
pub proof fn tallies_keep_energy(
    estimates: Seq<Estimate>,
    paths: Seq<Seq<TraceRecordEntry>>,
    surface_count: nat,
    source: nat,
    num_rays: nat,
)
    requires
        tallied_in_turn(estimates, paths),
        estimates[0].is_empty(surface_count, source, num_rays),
    ensures
        total(estimates.last().sums()) == absorbed_by_all(paths),
        estimates.last().traced() == paths.len(),
        estimates.last().num_rays() == num_rays,
        estimates.last().sums().len() == surface_count,
        estimates.last().wf(),
    decreases paths.len(),
{
    if paths.len() == 0 {
        total_of_zeros(estimates[0].sums());
    } else {
        let last = paths.len() as int;
        assert(tallied_in_turn(estimates.drop_last(), paths.drop_last())) by {
            assert forall|k: int| 0 < k < last implies estimates.drop_last()[k - 1].tallies(
                paths.drop_last()[k - 1],
                #[trigger] estimates.drop_last()[k],
            ) by {
                assert(estimates[k - 1].tallies(paths[k - 1], estimates[k]));
            }
        }
        tallies_keep_energy(
            estimates.drop_last(),
            paths.drop_last(),
            surface_count,
            source,
            num_rays,
        );
        assert(estimates[last - 1].tallies(paths[last - 1], estimates[last]));
        assert(estimates.drop_last().last() == estimates[last - 1]);
    }
}

/// What the paths lose is found on the surfaces. Where every path that an
/// estimate is made from left `least` or more on surfaces, the view factors
/// come to `least` at least, but for a billionth of rounding for each
/// surface. In a scene that no ray gets out of every path goes on until less
/// than a thousandth of its energy is left, or until it is cut short after a
/// hundred reflections: where none is, the view factors come to more than
/// nine hundred and ninety-nine thousandths.
pub proof fn closed_scene_keeps_energy(
    estimates: Seq<Estimate>,
    paths: Seq<Seq<TraceRecordEntry>>,
    factors: Seq<Fraction>,
    surface_count: nat,
    source: nat,
    num_rays: nat,
    least: nat,
)
    requires
        tallied_in_turn(estimates, paths),
        estimates[0].is_empty(surface_count, source, num_rays),
        paths.len() == num_rays,
        num_rays > 0,
        forall|k: int| 0 <= k < paths.len() ==> absorbed_total(#[trigger] paths[k]) >= least,
        estimates.last().gives(factors),
    ensures
        fraction_total(factors) + surface_count >= least,
        fraction_total(factors) <= UNIT,
{
    tallies_keep_energy(estimates, paths, surface_count, source, num_rays);
    all_absorb_at_least(paths, least);
    let estimate = estimates.last();
    sums_are_within_shares(factors, estimate.sums(), num_rays);
    view_factors_are_shares(estimate, factors);
    let all = fraction_total(factors) as int;
    let held = total(estimate.sums()) as int;
    let n = num_rays as int;
    let count = surface_count as int;
    assert(all + count >= least) by (nonlinear_arith)
        requires
            held + count <= (all + count) * n,
            held >= n * least,
            n > 0,
            count >= 0,
            all >= 0,
    ;
}

/// Paths that each absorb a given amount at least absorb together as much
/// for each of them.
proof fn all_absorb_at_least(paths: Seq<Seq<TraceRecordEntry>>, least: nat)
    requires
        forall|k: int| 0 <= k < paths.len() ==> absorbed_total(#[trigger] paths[k]) >= least,
    ensures
        absorbed_by_all(paths) >= paths.len() * least,
    decreases paths.len(),
{
    if paths.len() > 0 {
        assert forall|k: int| 0 <= k < paths.len() - 1 implies absorbed_total(
            #[trigger] paths.drop_last()[k],
        ) >= least by {
            assert(paths.drop_last()[k] == paths[k]);
        }
        all_absorb_at_least(paths.drop_last(), least);
        assert(absorbed_total(paths[paths.len() - 1]) >= least);
        assert((paths.len() - 1) * least + least == paths.len() * least) by (nonlinear_arith);
    } else {
        assert(0 * least == 0) by (nonlinear_arith);
    }
}

} // verus!
