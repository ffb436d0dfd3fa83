//! Aggregating a profiling run: a nonempty sequence of timed, sized, coded
//! samples is folded into one report with fastest/slowest/mean/median time,
//! an exact success ratio, the size extremes, and the non-success codes in
//! encounter order.  The median is the element at index `len / 2` of the
//! ascending times (the upper middle for an even count, by design).

use vstd::prelude::*;
use vstd::relations::sorted_by;
use vstd::relations::total_ordering;
use vstd::relations::reflexive;
use vstd::relations::antisymmetric;
use vstd::relations::transitive;
use vstd::relations::strongly_connected;
use vstd::seq_lib::lemma_sorted_unique;
use vstd::arithmetic::div_mod::lemma_div_is_ordered;
use vstd::arithmetic::div_mod::lemma_div_multiples_vanish;
use vstd::pervasive::VecAdditionalExecFns;

use crate::status_code::StatusCode;

verus! {

/// One request/response cycle as the transport observed it: the elapsed
/// whole milliseconds, the bytes read, and the status category parsed out.
#[derive(Clone, Copy, Debug, PartialEq, Eq, Structural)]
pub struct Sample {
    pub time_ms: usize,
    pub byte_count: usize,
    pub status: StatusCode,
}

/// The elapsed times of a run, in encounter order.
pub open spec fn times_of(s: Seq<Sample>) -> Seq<usize> {
    s.map_values(|x: Sample| x.time_ms)
}

/// The response sizes of a run, in encounter order.
pub open spec fn sizes_of(s: Seq<Sample>) -> Seq<usize> {
    s.map_values(|x: Sample| x.byte_count)
}

/// How many samples of the run carry the success category.
pub open spec fn count_ok(s: Seq<Sample>) -> int
    decreases s.len(),
{
    if s.len() == 0 {
        0
    } else {
        count_ok(s.drop_last()) + if s.last().status == StatusCode::Okay {
            1int
        } else {
            0int
        }
    }
}

/// The status categories of the non-success samples, in encounter order.
pub open spec fn error_codes_of(s: Seq<Sample>) -> Seq<StatusCode>
    decreases s.len(),
{
    if s.len() == 0 {
        Seq::empty()
    } else {
        error_codes_of(s.drop_last()) + if s.last().status == StatusCode::Okay {
            Seq::empty()
        } else {
            seq![s.last().status]
        }
    }
}

/// The sum of a sequence of times or sizes.
pub open spec fn sum_of(t: Seq<usize>) -> int
    decreases t.len(),
{
    if t.len() == 0 {
        0
    } else {
        sum_of(t.drop_last()) + t.last()
    }
}

/// The least element of a nonempty sequence.
pub open spec fn min_of(t: Seq<usize>) -> usize
    recommends
        t.len() > 0,
    decreases t.len(),
{
    if t.len() <= 1 {
        t[0]
    } else if t.last() < min_of(t.drop_last()) {
        t.last()
    } else {
        min_of(t.drop_last())
    }
}

/// The greatest element of a nonempty sequence.
pub open spec fn max_of(t: Seq<usize>) -> usize
    recommends
        t.len() > 0,
    decreases t.len(),
{
    if t.len() <= 1 {
        t[0]
    } else if t.last() > max_of(t.drop_last()) {
        t.last()
    } else {
        max_of(t.drop_last())
    }
}

/// The ascending order on times.
pub open spec fn time_le() -> spec_fn(usize, usize) -> bool {
    |x: usize, y: usize| x <= y
}

/// The times of a run in ascending order.
pub open spec fn sorted_times(t: Seq<usize>) -> Seq<usize> {
    t.sort_by(time_le())
}

/// A prefix never sums to more than the whole sequence.
proof fn lemma_sum_take(t: Seq<usize>, i: int)
    requires
        0 <= i <= t.len(),
    ensures
        sum_of(t.take(i)) <= sum_of(t),
    decreases t.len() - i,
{
    if i == t.len() {
        assert(t.take(i) =~= t);
    } else {
        lemma_sum_take(t, i + 1);
        assert(t.take(i + 1).drop_last() =~= t.take(i));
        assert(t.take(i + 1).last() == t[i]);
    }
}

/// A sum of elements between two bounds lies between the bounds scaled by
/// the length.
proof fn lemma_sum_bounds(t: Seq<usize>, lo: int, hi: int)
    requires
        forall|k: int| 0 <= k < t.len() ==> lo <= #[trigger] t[k] <= hi,
    ensures
        t.len() * lo <= sum_of(t) <= t.len() * hi,
    decreases t.len(),
{
    if t.len() == 0 {
    } else {
        assert forall|k: int| 0 <= k < t.drop_last().len() implies lo <= #[trigger] t.drop_last()[k]
            <= hi by {
            assert(t.drop_last()[k] == t[k]);
        }
        lemma_sum_bounds(t.drop_last(), lo, hi);
        assert(lo <= t.last() <= hi);
        assert((t.len() - 1) * lo + lo == t.len() * lo) by (nonlinear_arith);
        assert((t.len() - 1) * hi + hi == t.len() * hi) by (nonlinear_arith);
    }
}

/// Sorts a vector of times ascending, keeping exactly the same elements.
fn sort_times(v: &mut Vec<usize>)
    ensures
        final(v)@.to_multiset() == old(v)@.to_multiset(),
        sorted_by(final(v)@, time_le()),
        final(v)@.len() == old(v)@.len(),
{
    broadcast use vstd::seq_lib::to_multiset_update;

    let mut i: usize = 1;
    while i < v.len()
        invariant
            i >= 1,
            v@.to_multiset() == old(v)@.to_multiset(),
            v@.len() == old(v)@.len(),
            forall|a: int, b: int| 0 <= a < b < i && b < v@.len() ==> v@[a] <= v@[b],
        decreases v@.len() - i,
    {
        let mut j: usize = i;
        while j > 0 && v[j - 1] > v[j]
            invariant
                0 <= j <= i < v@.len(),
                v@.to_multiset() == old(v)@.to_multiset(),
                v@.len() == old(v)@.len(),
                forall|a: int, b: int| 0 <= a < b <= i && b != j ==> v@[a] <= v@[b],
            decreases j,
        {
            let ghost pre = v@;
            let x = v[j - 1];
            let y = v[j];
            v.set(j - 1, y);
            v.set(j, x);
            proof {
                broadcast use vstd::multiset::group_multiset_axioms;
                broadcast use vstd::seq_lib::to_multiset_contains;

                let s1 = pre.update(j - 1, y);
                let s2 = s1.update(j as int, x);
                assert(v@ =~= s2);
                vstd::seq_lib::to_multiset_update(pre, j - 1, y);
                vstd::seq_lib::to_multiset_update(s1, j as int, x);
                assert(s1.to_multiset() == pre.to_multiset().insert(y).remove(pre[j - 1]));
                assert(s1[j as int] == y);
                assert(s2.to_multiset() == s1.to_multiset().insert(x).remove(y));
                assert(pre.contains(pre[j - 1]));
                assert(pre.to_multiset().count(pre[j - 1]) > 0);
                assert forall|e: usize| v@.to_multiset().count(e) == pre.to_multiset().count(
                    e,
                ) by {
                    assert(s2.to_multiset().count(e) == pre.to_multiset().insert(y).remove(
                        x,
                    ).insert(x).remove(y).count(e));
                }
                assert(v@.to_multiset() =~= pre.to_multiset());
            }
            j = j - 1;
        }
        i = i + 1;
    }
    proof {
        assert forall|a: int, b: int| 0 <= a < b < v@.len() implies (time_le())(v@[a], v@[b]) by {
            assert(v@[a] <= v@[b]);
        }
    }
}

/// The least element of a nonempty vector of sizes.
fn vec_min(v: &Vec<usize>) -> (r: usize)
    requires
        v@.len() > 0,
    ensures
        r == min_of(v@),
{
    let mut m = v[0];
    let mut i: usize = 1;
    proof {
        assert(v@.take(1)[0] == v@[0]);
    }
    while i < v.len()
        invariant
            1 <= i <= v@.len(),
            m == min_of(v@.take(i as int)),
        decreases v@.len() - i,
    {
        proof {
            assert(v@.take(i as int + 1).drop_last() =~= v@.take(i as int));
            assert(v@.take(i as int + 1).last() == v@[i as int]);
        }
        if v[i] < m {
            m = v[i];
        }
        i = i + 1;
    }
    proof {
        assert(v@.take(v@.len() as int) =~= v@);
    }
    m
}

/// The greatest element of a nonempty vector of sizes.
fn vec_max(v: &Vec<usize>) -> (r: usize)
    requires
        v@.len() > 0,
    ensures
        r == max_of(v@),
{
    let mut m = v[0];
    let mut i: usize = 1;
    proof {
        assert(v@.take(1)[0] == v@[0]);
    }
    while i < v.len()
        invariant
            1 <= i <= v@.len(),
            m == max_of(v@.take(i as int)),
        decreases v@.len() - i,
    {
        proof {
            assert(v@.take(i as int + 1).drop_last() =~= v@.take(i as int));
            assert(v@.take(i as int + 1).last() == v@[i as int]);
        }
        if v[i] > m {
            m = v[i];
        }
        i = i + 1;
    }
    proof {
        assert(v@.take(v@.len() as int) =~= v@);
    }
    m
}

/// The report of a profiling run over one URL.  The success ratio is kept
/// exact, as the count of success samples over `num_requests`.
#[derive(Debug)]
pub struct ProfileResult {
    pub url: String,
    pub num_requests: usize,
    pub fastest_time_ms: usize,
    pub slowest_time_ms: usize,
    pub mean_time_ms: usize,
    pub median_time_ms: usize,
    pub success_count: usize,
    pub smallest_response_bytes: usize,
    pub largest_response_bytes: usize,
    pub error_codes: Vec<StatusCode>,
}

impl ProfileResult {
    /// Folds the samples of a run into its report.  The run must be
    /// nonempty, and the times must not sum past the machine word.
    ///
    /// The report holds exactly: the number of samples; the success count
    /// and the non-success categories in encounter order; the least and
    /// greatest response size; the least, greatest and upper-middle element
    /// of the ascending times; and their truncated average.  The fastest
    /// time never lies above the median, the mean, or the slowest time,
    /// and neither median nor mean lies above the slowest; with a single
    /// sample all four coincide.
    pub fn from_samples(url: String, samples: &Vec<Sample>) -> (r: ProfileResult)
        requires
            samples@.len() > 0,
            sum_of(times_of(samples@)) <= usize::MAX,
        ensures
            r.url@ == url@,
            r.num_requests == samples@.len(),
            r.success_count == count_ok(samples@),
            r.success_count <= r.num_requests,
            r.error_codes@ == error_codes_of(samples@),
            r.smallest_response_bytes == min_of(sizes_of(samples@)),
            r.largest_response_bytes == max_of(sizes_of(samples@)),
            r.fastest_time_ms == sorted_times(times_of(samples@))[0],
            r.slowest_time_ms == sorted_times(times_of(samples@)).last(),
            r.median_time_ms == sorted_times(times_of(samples@))[samples@.len() as int / 2],
            r.mean_time_ms == sum_of(times_of(samples@)) / samples@.len() as int,
            r.fastest_time_ms <= r.median_time_ms <= r.slowest_time_ms,
            r.fastest_time_ms <= r.mean_time_ms <= r.slowest_time_ms,
            samples@.len() == 1 ==> r.fastest_time_ms == r.slowest_time_ms
                && r.mean_time_ms == r.fastest_time_ms && r.median_time_ms == r.fastest_time_ms,
    {
        broadcast use vstd::seq_lib::to_multiset_contains;
        broadcast use vstd::seq_lib::to_multiset_len;

        let ghost all = samples@;
        let ghost t_all = times_of(all);
        let ghost s_all = sizes_of(all);
        let n = samples.len();
        let mut times: Vec<usize> = Vec::new();
        let mut sizes: Vec<usize> = Vec::new();
        let mut error_codes: Vec<StatusCode> = Vec::new();
        let mut success_count: usize = 0;
        let mut sum: usize = 0;
        let mut idx: usize = 0;
        proof {
            assert(all.take(0) =~= Seq::<Sample>::empty());
            assert(times_of(all.take(0)) =~= Seq::<usize>::empty());
            assert(sizes_of(all.take(0)) =~= Seq::<usize>::empty());
            assert(error_codes_of(all.take(0)) =~= Seq::<StatusCode>::empty());
        }
        while idx < n
            invariant
                0 <= idx <= n,
                n == all.len(),
                all == samples@,
                t_all == times_of(all),
                sum_of(t_all) <= usize::MAX,
                times@ == times_of(all.take(idx as int)),
                sizes@ == sizes_of(all.take(idx as int)),
                error_codes@ == error_codes_of(all.take(idx as int)),
                success_count == count_ok(all.take(idx as int)),
                success_count <= idx,
                sum == sum_of(times_of(all.take(idx as int))),
            decreases n - idx,
        {
            let smp = samples[idx];
            let ghost pre = all.take(idx as int);
            let ghost post = all.take(idx as int + 1);
            proof {
                assert(post.drop_last() =~= pre);
                assert(post.last() == all[idx as int]);
                assert(times_of(post).drop_last() =~= times_of(pre));
                assert(times_of(post).last() == all[idx as int].time_ms);
                assert(times_of(post) =~= times_of(pre).push(all[idx as int].time_ms));
                assert(sizes_of(post) =~= sizes_of(pre).push(all[idx as int].byte_count));
                assert(times_of(post) =~= t_all.take(idx as int + 1));
                lemma_sum_take(t_all, idx as int + 1);
            }
            sum = sum + smp.time_ms;
            times.push(smp.time_ms);
            sizes.push(smp.byte_count);
            if smp.status == StatusCode::Okay {
                success_count = success_count + 1;
                proof {
                    assert(error_codes_of(post) =~= error_codes_of(pre));
                }
            } else {
                error_codes.push(smp.status);
                proof {
                    assert(error_codes_of(post) =~= error_codes_of(pre).push(
                        all[idx as int].status,
                    ));
                }
            }
            idx = idx + 1;
        }
        proof {
            assert(all.take(n as int) =~= all);
            assert(times@ == t_all);
            assert(sizes@ == s_all);
        }
        let smallest = vec_min(&sizes);
        let largest = vec_max(&sizes);
        let mean = sum / n;
        sort_times(&mut times);
        let ghost le = time_le();
        proof {
            assert(reflexive(le)) by {
                assert forall|x: usize| #[trigger] le(x, x) by {}
            }
            assert(antisymmetric(le)) by {
                assert forall|x: usize, y: usize| #[trigger] le(x, y) && #[trigger] le(y, x)
                    implies x == y by {}
            }
            assert(transitive(le)) by {
                assert forall|x: usize, y: usize, z: usize|
                    #[trigger] le(x, y) && #[trigger] le(y, z) implies le(x, z) by {}
            }
            assert(strongly_connected(le)) by {
                assert forall|x: usize, y: usize| #[trigger] le(x, y) || #[trigger] le(y, x) by {}
            }
            assert(total_ordering(le));
            t_all.lemma_sort_by_ensures(le);
            lemma_sorted_unique(times@, t_all.sort_by(le), le);
            assert(times@ == sorted_times(t_all));
            assert(times@.len() == t_all.len());
        }
        let fastest = times[0];
        let slowest = times[n - 1];
        let median = times[n / 2];
        proof {
            let st = times@;
            assert forall|k: int| 0 <= k < t_all.len() implies fastest as int <= #[trigger] t_all[k]
                <= slowest as int by {
                assert(t_all.contains(t_all[k]));
                assert(t_all.to_multiset().count(t_all[k]) > 0);
                assert(st.to_multiset() == t_all.to_multiset());
                assert(st.contains(t_all[k]));
                let m = choose|m: int| 0 <= m < st.len() && st[m] == t_all[k];
                if m > 0 {
                    assert(le(st[0], st[m]));
                }
                if m < st.len() - 1 {
                    assert(le(st[m], st[st.len() - 1]));
                }
            }
            lemma_sum_bounds(t_all, fastest as int, slowest as int);
            lemma_div_is_ordered(t_all.len() * fastest as int, sum_of(t_all), t_all.len() as int);
            lemma_div_is_ordered(sum_of(t_all), t_all.len() * slowest as int, t_all.len() as int);
            lemma_div_multiples_vanish(fastest as int, t_all.len() as int);
            lemma_div_multiples_vanish(slowest as int, t_all.len() as int);
            assert(t_all.len() * fastest as int == fastest as int * t_all.len());
            assert(t_all.len() * slowest as int == slowest as int * t_all.len());
            if 0 < n as int / 2 {
                assert(le(st[0], st[n as int / 2]));
            }
            if n as int / 2 < n - 1 {
                assert(le(st[n as int / 2], st[n as int - 1]));
            }
            if n == 1 {
                assert(st.contains(st[0]));
                assert(st.to_multiset().count(st[0]) > 0);
                assert(t_all.contains(st[0]));
                let m = choose|m: int| 0 <= m < t_all.len() && t_all[m] == st[0];
                assert(m == 0);
                assert(sum_of(t_all.drop_last()) == 0);
                assert(sum_of(t_all) == t_all[0]);
            }
        }
        ProfileResult {
            url,
            num_requests: n,
            fastest_time_ms: fastest,
            slowest_time_ms: slowest,
            mean_time_ms: mean,
            median_time_ms: median,
            success_count,
            smallest_response_bytes: smallest,
            largest_response_bytes: largest,
            error_codes,
        }
    }
}

} // verus!
