//! An estimate that is shared out among workers: how many rays each of them
//! traces, and how their results are combined.

use crate::energy::{Fraction, UNIT};
use crate::estimate::Estimate;
use rayon::iter::{IntoParallelIterator, ParallelIterator};
use vstd::prelude::*;

verus! {

/// The sum of two numbers, or the largest number that 128 bits hold where
/// the sum is more than that.
pub open spec fn capped_sum(x: u128, y: u128) -> u128 {
    if x + y <= u128::MAX {
        (x + y) as u128
    } else {
        u128::MAX
    }
}

/// The list of `width` zeros.
pub open spec fn zero_list(width: nat) -> Seq<u128> {
    Seq::new(width, |i: int| 0u128)
}

/// The list that holds at each place the capped sum of what the two lists
/// hold there. It is as long as the first: where the second is shorter, what
/// the first holds stays.
pub open spec fn pointwise_sum(a: Seq<u128>, b: Seq<u128>) -> Seq<u128> {
    Seq::new(
        a.len(),
        |i: int|
            if i < b.len() {
                capped_sum(a[i], b[i])
            } else {
                a[i]
            },
    )
}

/// The pointwise sum of all the lists, taken from the first to the last.
pub open spec fn folded_sum(lists: Seq<Vec<u128>>, width: nat) -> Seq<u128>
    decreases lists.len(),
{
    if lists.len() == 0 {
        zero_list(width)
    } else {
        pointwise_sum(folded_sum(lists.drop_last(), width), lists.last()@)
    }
}

/// The pointwise sum of two lists of one length does not depend on their
/// order.
pub proof fn pointwise_sum_commutes(a: Seq<u128>, b: Seq<u128>)
    requires
        a.len() == b.len(),
    ensures
        pointwise_sum(a, b) == pointwise_sum(b, a),
{
    assert(pointwise_sum(a, b) =~= pointwise_sum(b, a));
}

/// The pointwise sum of three lists of one length does not depend on which
/// two of them are added first.
pub proof fn pointwise_sum_associates(a: Seq<u128>, b: Seq<u128>, c: Seq<u128>)
    requires
        a.len() == b.len(),
        b.len() == c.len(),
    ensures
        pointwise_sum(pointwise_sum(a, b), c) == pointwise_sum(a, pointwise_sum(b, c)),
{
    assert(pointwise_sum(pointwise_sum(a, b), c) =~= pointwise_sum(a, pointwise_sum(b, c)));
}

/// The list of zeros changes nothing in a pointwise sum, on either side.
pub proof fn pointwise_sum_has_zero(a: Seq<u128>)
    ensures
        pointwise_sum(a, zero_list(a.len())) == a,
        pointwise_sum(zero_list(a.len()), a) == a,
{
    assert(pointwise_sum(a, zero_list(a.len())) =~= a);
    assert(pointwise_sum(zero_list(a.len()), a) =~= a);
}

/// The list of `width` zeros.
pub fn zeros(width: usize) -> (r: Vec<u128>)
    ensures
        r@ == zero_list(width as nat),
{
    let mut list: Vec<u128> = Vec::new();
    let mut i: usize = 0;
    while i < width
        invariant
            i <= width,
            list@.len() == i,
            forall|j: int| 0 <= j < i ==> list@[j] == 0,
        decreases width - i,
    {
        list.push(0);
        i += 1;
    }
    assert(list@ =~= zero_list(width as nat));
    list
}

/// The pointwise sum of two lists.
pub fn add_lists(a: Vec<u128>, b: Vec<u128>) -> (r: Vec<u128>)
    ensures
        r@ == pointwise_sum(a@, b@),
{
    let mut sum = a;
    let mut i: usize = 0;
    while i < sum.len() && i < b.len()
        invariant
            sum@.len() == a@.len(),
            forall|j: int| 0 <= j < i && j < a@.len() ==> sum@[j] == pointwise_sum(a@, b@)[j],
            forall|j: int| i <= j < a@.len() ==> sum@[j] == a@[j],
        decreases sum@.len() - i,
    {
        let both = match sum[i].checked_add(b[i]) {
            Some(both) => both,
            None => u128::MAX,
        };
        sum.set(i, both);
        i += 1;
    }
    assert(sum@ =~= pointwise_sum(a@, b@));
    sum
}

/// Calls `rayon::current_num_threads`, the number of threads of the pool
/// that the caller runs in. Nothing is claimed of it: it depends on the
/// machine and on how the pool was set up.
#[verifier::external_body]
pub(crate) fn current_num_threads() -> (r: usize) {
    rayon::current_num_threads()
}

/// Calls `reduce` on the parallel iterator that rayon gives for a `Vec`,
/// with `zeros` for the identity and `add_lists` for the operation. Rayon
/// leaves open in which grouping the items are added, and puts in identities
/// where it likes. Trusted: for an operation that does not depend on the
/// order or the grouping and whose identity changes nothing, as the three
/// laws above say of the pointwise sum of lists of one length, the outcome
/// is that of adding the lists one after the other.
#[verifier::external_body]
pub(crate) fn reduce_lists(lists: Vec<Vec<u128>>, width: usize) -> (r: Vec<u128>)
    requires
        forall|w: int| 0 <= w < lists@.len() ==> (#[trigger] lists@[w])@.len() == width,
    ensures
        r@ == folded_sum(lists@, width as nat),
{
    lists.into_par_iter().reduce(|| zeros(width), |a, b| add_lists(a, b))
}

/// What the workers' view factors to the surface `i` come to together.
pub open spec fn column_total(results: Seq<Vec<Fraction>>, i: int) -> nat
    decreases results.len(),
{
    if results.len() == 0 {
        0
    } else {
        column_total(results.drop_last(), i) + results.last()@[i]@
    }
}

/// The number of rays that each of `workers` workers traces of `num_rays`:
/// an equal share, rounded down. What is left over is not traced.
pub open spec fn rays_per_worker(num_rays: nat, workers: nat) -> nat {
    if workers == 0 {
        0
    } else {
        num_rays / workers
    }
}

/// An estimate of view factors that is shared out among workers. Each of
/// them makes the estimate from `rays_per_thread` rays of its own, from the
/// surface `source` of a scene of `surface_count` surfaces.
#[derive(Clone, Copy, Debug)]
pub struct ParallelEstimate {
    pub source: usize,
    pub surface_count: usize,
    pub workers: usize,
    pub rays_per_thread: usize,
}

impl ParallelEstimate {
    /// Shares `num_rays` rays out among `workers` workers.
    pub fn split(surface_count: usize, source: usize, num_rays: usize, workers: usize) -> (r:
        ParallelEstimate)
        ensures
            r == (ParallelEstimate {
                source,
                surface_count,
                workers,
                rays_per_thread: rays_per_worker(num_rays as nat, workers as nat) as usize,
            }),
            r.workers * r.rays_per_thread <= num_rays,
            workers > 0 ==> (r.workers * r.rays_per_thread == num_rays) == (num_rays % workers
                == 0),
    {
        let rays_per_thread = if workers == 0 {
            0
        } else {
            num_rays / workers
        };
        proof {
            let n = num_rays as int;
            let w = workers as int;
            if workers > 0 {
                assert(w * (n / w) + n % w == n && 0 <= n % w < w) by (nonlinear_arith)
                    requires
                        w > 0,
                        n >= 0,
                ;
            } else {
                assert(w * 0 == 0);
            }
        }
        ParallelEstimate { source, surface_count, workers, rays_per_thread }
    }

    /// Whether `factors` are what the workers' results come to: for each
    /// surface the mean of the view factors that the workers found, rounded
    /// down to a billionth.
    pub open spec fn combines(self, results: Seq<Vec<Fraction>>, factors: Seq<Fraction>) -> bool {
        &&& factors.len() == self.surface_count
        &&& forall|i: int|
            0 <= i < factors.len() ==> (#[trigger] factors[i])@ == column_total(results, i)
                / self.workers as nat
    }

    /// Combines the view factors that the workers found, one list from each:
    /// adds them up surface by surface, and shares each sum out over the
    /// workers. There is nothing to combine where there is no worker.
    pub fn finish(&self, results: Vec<Vec<Fraction>>) -> (r: Option<Vec<Fraction>>)
        requires
            results@.len() == self.workers,
            forall|w: int|
                0 <= w < results@.len() ==> (#[trigger] results@[w])@.len() == self.surface_count,
        ensures
            r.is_none() == (self.workers == 0),
            r.is_some() ==> self.combines(results@, r.unwrap()@),
    {
        if self.workers == 0 {
            return None;
        }
        let width = self.surface_count;
        let mut lists: Vec<Vec<u128>> = Vec::new();
        let mut w: usize = 0;
        while w < results.len()
            invariant
                w <= results@.len(),
                lists@.len() == w,
                forall|v: int|
                    0 <= v < results@.len() ==> (#[trigger] results@[v])@.len() == width,
                forall|v: int| 0 <= v < w ==> same_parts(#[trigger] lists@[v], results@[v]),
            decreases results@.len() - w,
        {
            lists.push(parts_of(&results[w]));
            w += 1;
        }
        let sums = reduce_lists(lists, width);
        proof {
            folded_sum_is_column_total(lists@, results@, width as nat);
        }
        let mut factors: Vec<Fraction> = Vec::new();
        let mut i: usize = 0;
        while i < width
            invariant
                i <= width,
                width == self.surface_count,
                self.workers > 0,
                results@.len() == self.workers,
                sums@.len() == width,
                factors@.len() == i,
                forall|j: int|
                    0 <= j < width ==> #[trigger] sums@[j] == column_total(results@, j)
                        && sums@[j] <= results@.len() * UNIT,
                forall|j: int|
                    0 <= j < i ==> (#[trigger] factors@[j])@ == column_total(results@, j)
                        / self.workers as nat,
            decreases width - i,
        {
            proof {
                let sum = sums@[i as int] as int;
                let count = self.workers as int;
                assert(sum / count <= UNIT) by (nonlinear_arith)
                    requires
                        0 <= sum <= count * UNIT,
                        count > 0,
                ;
            }
            let mean: u128 = sums[i] / (self.workers as u128);
            factors.push(Fraction::new(mean as u32).unwrap());
            i += 1;
        }
        Some(factors)
    }
}

/// What the workers' tallies for the surface `i` come to together: the
/// energy that all their rays left on it.
pub open spec fn pooled(estimates: Seq<Estimate>, i: int) -> nat
    decreases estimates.len(),
{
    if estimates.len() == 0 {
        0
    } else {
        pooled(estimates.drop_last(), i) + estimates.last().sums()[i] as nat
    }
}

/// Whether `results` are the view factors that the workers' estimates give,
/// each made from `rays` rays in a scene of `surface_count` surfaces.
pub open spec fn worked_out(
    estimates: Seq<Estimate>,
    results: Seq<Vec<Fraction>>,
    rays: nat,
    surface_count: nat,
) -> bool {
    &&& estimates.len() == results.len()
    &&& forall|w: int|
        0 <= w < estimates.len() ==> {
            &&& (#[trigger] estimates[w]).num_rays() == rays
            &&& estimates[w].sums().len() == surface_count
            &&& estimates[w].gives(results[w]@)
        }
}

/// The workers' view factors to a surface, taken together and as often as
/// each worker had rays, are what the rays of all workers left on it, less
/// what the rounding took: for each worker less than one billionth for each
/// of its rays.
proof fn column_total_is_pooled(
    estimates: Seq<Estimate>,
    results: Seq<Vec<Fraction>>,
    rays: nat,
    surface_count: nat,
    i: int,
)
    requires
        rays > 0,
        worked_out(estimates, results, rays, surface_count),
        0 <= i < surface_count,
    ensures
        column_total(results, i) * rays <= pooled(estimates, i),
        pooled(estimates, i) + estimates.len() <= (column_total(results, i) + estimates.len())
            * rays,
    decreases estimates.len(),
{
    if estimates.len() == 0 {
        assert(0 * rays == 0) by (nonlinear_arith);
        assert((0 + 0) * rays == 0) by (nonlinear_arith);
    } else {
        let last = estimates.len() - 1;
        assert(worked_out(estimates.drop_last(), results.drop_last(), rays, surface_count)) by {
            assert forall|w: int| 0 <= w < last implies {
                &&& (#[trigger] estimates.drop_last()[w]).num_rays() == rays
                &&& estimates.drop_last()[w].sums().len() == surface_count
                &&& estimates.drop_last()[w].gives(results.drop_last()[w]@)
            } by {
                assert(estimates.drop_last()[w] == estimates[w]);
                assert(results.drop_last()[w] == results[w]);
            }
        }
        column_total_is_pooled(estimates.drop_last(), results.drop_last(), rays, surface_count, i);
        assert(estimates[last].gives(results[last]@));
        let sum = estimates.last().sums()[i] as int;
        let mean = results.last()@[i]@ as int;
        let means = column_total(results.drop_last(), i) as int;
        let sums = pooled(estimates.drop_last(), i) as int;
        let n = rays as int;
        assert(mean == sum / n);
        assert(mean * n <= sum < (mean + 1) * n) by (nonlinear_arith)
            requires
                mean == sum / n,
                n > 0,
                sum >= 0,
        ;
        assert((means + mean) * n == means * n + mean * n) by (nonlinear_arith);
        assert((means + mean + last + 1) * n == (means + last) * n + (mean + 1) * n)
            by (nonlinear_arith);
    }
}

/// The workers together agree with one that traces all their rays. Where
/// every worker made its estimate from the same number of rays, the mean of
/// their view factors to a surface is the view factor that the rays of all
/// of them give when they are tallied as one, or a billionth less: that much
/// the rounding of the workers' own means can take.
pub proof fn workers_agree_with_one(
    plan: ParallelEstimate,
    estimates: Seq<Estimate>,
    results: Seq<Vec<Fraction>>,
    factors: Seq<Fraction>,
    i: int,
)
    requires
        plan.workers > 0,
        plan.rays_per_thread > 0,
        estimates.len() == plan.workers,
        worked_out(estimates, results, plan.rays_per_thread as nat, plan.surface_count as nat),
        plan.combines(results, factors),
        0 <= i < plan.surface_count,
    ensures
        factors[i]@ <= pooled(estimates, i) / (plan.workers * plan.rays_per_thread) as nat,
        pooled(estimates, i) / (plan.workers * plan.rays_per_thread) as nat <= factors[i]@ + 1,
{
    column_total_is_pooled(
        estimates,
        results,
        plan.rays_per_thread as nat,
        plan.surface_count as nat,
        i,
    );
    let means = column_total(results, i) as int;
    let sums = pooled(estimates, i) as int;
    let w = plan.workers as int;
    let n = plan.rays_per_thread as int;
    let c = factors[i]@ as int;
    assert(c == means / w);
    assert(c * w <= means < (c + 1) * w) by (nonlinear_arith)
        requires
            c == means / w,
            w > 0,
            means >= 0,
    ;
    assert(c * (w * n) <= sums) by (nonlinear_arith)
        requires
            c * w <= means,
            means * n <= sums,
            n > 0,
    ;
    assert(sums < (c + 2) * (w * n)) by (nonlinear_arith)
        requires
            means < (c + 1) * w,
            sums + w <= (means + w) * n,
            n > 0,
            w > 0,
    ;
    assert(w * n > 0) by (nonlinear_arith)
        requires
            n > 0,
            w > 0,
    ;
    assert(c <= sums / (w * n) <= c + 1) by (nonlinear_arith)
        requires
            c * (w * n) <= sums,
            sums < (c + 2) * (w * n),
            w * n > 0,
    ;
}

/// Whether a list of numbers holds the billionths of a list of fractions.
pub open spec fn same_parts(list: Vec<u128>, factors: Vec<Fraction>) -> bool {
    &&& list@.len() == factors@.len()
    &&& forall|i: int|
        0 <= i < list@.len() ==> #[trigger] list@[i] == factors@[i]@ && list@[i] <= UNIT
}

/// The billionths of each of a list of fractions.
fn parts_of(factors: &Vec<Fraction>) -> (r: Vec<u128>)
    ensures
        same_parts(r, *factors),
{
    let mut list: Vec<u128> = Vec::new();
    let mut i: usize = 0;
    while i < factors.len()
        invariant
            i <= factors@.len(),
            list@.len() == i,
            forall|j: int| 0 <= j < i ==> #[trigger] list@[j] == factors@[j]@ && list@[j] <= UNIT,
        decreases factors@.len() - i,
    {
        list.push(factors[i].parts() as u128);
        i += 1;
    }
    list
}

/// Where every list holds the billionths of a worker's view factors, the
/// pointwise sum of the lists holds for each surface what the workers' view
/// factors come to together: no sum is so large that it is capped.
proof fn folded_sum_is_column_total(
    lists: Seq<Vec<u128>>,
    results: Seq<Vec<Fraction>>,
    width: nat,
)
    requires
        lists.len() == results.len(),
        lists.len() <= usize::MAX,
        forall|w: int| 0 <= w < results.len() ==> (#[trigger] results[w])@.len() == width,
        forall|w: int| 0 <= w < lists.len() ==> same_parts(#[trigger] lists[w], results[w]),
    ensures
        folded_sum(lists, width).len() == width,
        forall|i: int|
            0 <= i < width ==> #[trigger] folded_sum(lists, width)[i] == column_total(results, i)
                && folded_sum(lists, width)[i] <= lists.len() * UNIT,
    decreases lists.len(),
{
    if lists.len() > 0 {
        folded_sum_is_column_total(lists.drop_last(), results.drop_last(), width);
        let before = folded_sum(lists.drop_last(), width);
        let last = lists.last();
        assert(same_parts(last, results.last()));
        assert((lists.len() - 1) * UNIT + UNIT == lists.len() * UNIT) by (nonlinear_arith);
        assert(usize::MAX * UNIT < u128::MAX) by (nonlinear_arith);
        assert(lists.len() * UNIT <= usize::MAX * UNIT) by (nonlinear_arith)
            requires
                lists.len() <= usize::MAX,
        ;
        assert forall|i: int| 0 <= i < width implies #[trigger] folded_sum(lists, width)[i]
            == column_total(results, i) && folded_sum(lists, width)[i] <= lists.len() * UNIT by {
            assert(before[i] == column_total(results.drop_last(), i));
            assert(last@[i] == results.last()@[i]@);
        }
    }
}

} // verus!
