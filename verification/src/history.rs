//! Bounded history of the samples of one endpoint, and what is derived from it.

use crate::checker::{CheckResult, Status};
use std::collections::VecDeque;
use vstd::prelude::*;

verus! {

/// A bounded first-in, first-out sequence after one more element: where the
/// bound is reached the oldest element leaves, then the new one is added at
/// the end. A sequence bounded by zero therefore holds the newest element.
pub open spec fn ring_push<T>(s: Seq<T>, max_size: nat, x: T) -> Seq<T> {
    if s.len() >= max_size && s.len() > 0 {
        s.drop_first().push(x)
    } else {
        s.push(x)
    }
}

/// The most elements that a sequence bounded by `max_size` ever holds.
pub open spec fn ring_bound(max_size: nat) -> nat {
    if max_size == 0 {
        1
    } else {
        max_size
    }
}

/// Adds `x` to a bounded queue: evicts the oldest element where the bound is
/// reached, then pushes.
pub fn push_bounded<T>(queue: &mut VecDeque<T>, max_size: usize, x: T)
    ensures
        final(queue)@ == ring_push(old(queue)@, max_size as nat, x),
        old(queue)@.len() <= ring_bound(max_size as nat) ==> final(queue)@.len() <= ring_bound(
            max_size as nat,
        ),
{
    broadcast use vstd::std_specs::vecdeque::group_vec_dequeue_axioms;

    if queue.len() >= max_size {
        let _ = queue.pop_front();
    }
    queue.push_back(x);
}

/// The latencies that a run of samples carries, in order.
pub open spec fn latencies(samples: Seq<CheckResult>) -> Seq<u64> {
    samples.filter_map(|r: CheckResult| r.response_time_ms)
}

/// The sum of a sequence of numbers.
pub open spec fn total(values: Seq<u64>) -> nat
    decreases values.len(),
{
    if values.len() == 0 {
        0
    } else {
        total(values.drop_last()) + values.last() as nat
    }
}

/// How many samples of a run are `Up`.
pub open spec fn up_count(samples: Seq<CheckResult>) -> nat {
    samples.filter(|r: CheckResult| r.status == Status::Up).len()
}

/// The seconds of the instant and the latency of each sample that carries one.
pub open spec fn chart_points(samples: Seq<CheckResult>) -> Seq<(i64, u64)> {
    samples.filter_map(
        |r: CheckResult|
            match r.response_time_ms {
                Some(ms) => Some((r.timestamp.secs, ms)),
                None => None,
            },
    )
}

/// The last `count` elements of a sequence, or all of them where there are
/// fewer.
pub open spec fn newest<T>(s: Seq<T>, count: nat) -> Seq<T> {
    if count >= s.len() {
        s
    } else {
        s.subrange(s.len() - count, s.len() as int)
    }
}

/// A bounded first-in, first-out sequence after a run of elements was added
/// to it, one by one and in order.
pub open spec fn ring_extend<T>(s: Seq<T>, max_size: nat, added: Seq<T>) -> Seq<T>
    decreases added.len(),
{
    if added.len() == 0 {
        s
    } else {
        ring_push(ring_extend(s, max_size, added.drop_last()), max_size, added.last())
    }
}

/// What is added to an empty bounded sequence stays in the order in which it
/// came, and of all that came exactly the newest elements are kept: as many as
/// the bound allows.
pub proof fn lemma_ring_keeps_newest<T>(max_size: nat, added: Seq<T>)
    ensures
        ring_extend(Seq::<T>::empty(), max_size, added) == newest(added, ring_bound(max_size)),
        ring_extend(Seq::<T>::empty(), max_size, added).len() <= ring_bound(max_size),
    decreases added.len(),
{
    if added.len() > 0 {
        lemma_ring_keeps_newest(max_size, added.drop_last());
    }
}

/// Share of `Up` samples in a history, as the two counts it is made of.
#[derive(Clone, Copy, Debug, PartialEq, Eq, Structural)]
pub struct Uptime {
    /// Samples that were `Up`.
    pub up: usize,
    /// All samples.
    pub total: usize,
}

impl Uptime {
    /// The percentage `100 * up / total` rounded down, and 0 of nothing.
    pub open spec fn percent(self) -> nat {
        if self.total == 0 {
            0
        } else {
            (100 * self.up as nat) / self.total as nat
        }
    }

    /// The percentage in whole percent, rounded down; 0 for an empty history.
    pub fn whole_percent(&self) -> (p: u64)
        requires
            self.up <= self.total,
        ensures
            p == self.percent(),
            p <= 100,
    {
        if self.total == 0 {
            0
        } else {
            let scaled: u128 = 100 * (self.up as u128);
            let p = scaled / (self.total as u128);
            assert(p <= 100) by (nonlinear_arith)
                requires
                    p == (100 * self.up as int) / self.total as int,
                    0 <= self.up <= self.total,
                    self.total > 0,
            ;
            p as u64
        }
    }
}

/// Historical data for a single monitored site.
pub struct SiteHistory {
    results: VecDeque<CheckResult>,
    max_size: usize,
}

impl View for SiteHistory {
    type V = Seq<CheckResult>;

    /// The samples, oldest first.
    closed spec fn view(&self) -> Seq<CheckResult> {
        self.results@
    }
}

impl SiteHistory {
    /// The bound that the history was made with.
    pub closed spec fn max_size(self) -> usize {
        self.max_size
    }

    /// The history holds no more samples than its bound allows.
    pub open spec fn within_bound(self) -> bool {
        self@.len() <= ring_bound(self.max_size() as nat)
    }

    /// Create a new SiteHistory with specified maximum size.
    pub fn new(max_size: usize) -> (h: SiteHistory)
        ensures
            h@ == Seq::<CheckResult>::empty(),
            h.max_size() == max_size,
            h.within_bound(),
    {
        SiteHistory { results: VecDeque::new(), max_size }
    }

    /// Add a new check result, maintaining size limit.
    pub fn add_result(&mut self, result: CheckResult)
        ensures
            final(self)@ == ring_push(old(self)@, old(self).max_size() as nat, result),
            final(self).max_size() == old(self).max_size(),
            old(self).within_bound() ==> final(self).within_bound(),
    {
        push_bounded(&mut self.results, self.max_size, result);
    }

    /// Get the most recent check result.
    pub fn latest(&self) -> (r: Option<&CheckResult>)
        ensures
            match r {
                Some(sample) => self@.len() > 0 && *sample == self@.last(),
                None => self@.len() == 0,
            },
    {
        broadcast use vstd::std_specs::vecdeque::group_vec_dequeue_axioms;

        let n = self.results.len();
        if n == 0 {
            None
        } else {
            Some(&self.results[n - 1])
        }
    }

    /// Get the number of stored results.
    pub fn len(&self) -> (n: usize)
        ensures
            n == self@.len(),
    {
        broadcast use vstd::std_specs::vecdeque::group_vec_dequeue_axioms;

        self.results.len()
    }

    /// Check if history is empty.
    pub fn is_empty(&self) -> (e: bool)
        ensures
            e == (self@.len() == 0),
    {
        broadcast use vstd::std_specs::vecdeque::group_vec_dequeue_axioms;

        self.results.len() == 0
    }

    /// Calculate average response time from recent results: the sum of the
    /// latencies that the samples carry, divided by their number and rounded
    /// down; `None` where no sample carries one.
    pub fn avg_response_time(&self) -> (avg: Option<u64>)
        ensures
            match avg {
                Some(a) => latencies(self@).len() > 0 && a == total(latencies(self@)) / latencies(
                    self@,
                ).len(),
                None => latencies(self@).len() == 0,
            },
    {
        broadcast use vstd::std_specs::vecdeque::group_vec_dequeue_axioms;

        let n = self.results.len();
        let mut sum: u128 = 0;
        let mut count: usize = 0;
        let mut i: usize = 0;
        while i < n
            invariant
                n == self@.len(),
                self@ == self.results@,
                i <= n,
                count <= i,
                count == latencies(self@.take(i as int)).len(),
                sum == total(latencies(self@.take(i as int))),
                sum <= count * u64::MAX,
            decreases n - i,
        {
            proof {
                lemma_latencies_step(self@, i as int);
            }
            match self.results[i].response_time_ms {
                Some(ms) => {
                    assert(sum + ms <= (count + 1) * u64::MAX) by (nonlinear_arith)
                        requires
                            sum <= count * u64::MAX,
                            ms <= u64::MAX,
                    ;
                    assert((count + 1) * u64::MAX <= u128::MAX) by (nonlinear_arith)
                        requires
                            count + 1 <= usize::MAX,
                            usize::MAX <= u64::MAX,
                    ;
                    sum = sum + ms as u128;
                    count = count + 1;
                },
                None => {},
            }
            i += 1;
        }
        assert(self@.take(n as int) == self@);
        if count == 0 {
            None
        } else {
            let avg = sum / (count as u128);
            assert(avg <= u64::MAX) by (nonlinear_arith)
                requires
                    avg == sum as int / count as int,
                    0 <= sum <= count * u64::MAX,
                    count > 0,
            ;
            Some(avg as u64)
        }
    }

    /// Calculate uptime: how many of the samples are `Up`, and how many
    /// samples there are.
    pub fn uptime_percentage(&self) -> (u: Uptime)
        ensures
            u.up == up_count(self@),
            u.total == self@.len(),
            u.up <= u.total,
    {
        broadcast use vstd::std_specs::vecdeque::group_vec_dequeue_axioms;

        let n = self.results.len();
        let ghost is_up = |r: CheckResult| r.status == Status::Up;
        let mut up: usize = 0;
        let mut i: usize = 0;
        while i < n
            invariant
                n == self@.len(),
                self@ == self.results@,
                i <= n,
                up <= i,
                is_up == |r: CheckResult| r.status == Status::Up,
                up == self@.take(i as int).filter(is_up).len(),
            decreases n - i,
        {
            proof {
                assert(self@.take(i + 1) == self@.take(i as int).push(self@[i as int]));
                self@.take(i as int).lemma_filter_push(self@[i as int], is_up);
            }
            if self.results[i].status == Status::Up {
                up = up + 1;
            }
            i += 1;
        }
        assert(self@.take(n as int) == self@);
        Uptime { up, total: n }
    }

    /// Get recent response times for sparkline visualization: the last
    /// `limit` latencies that the history carries, oldest first. A sample
    /// without a latency takes no place among them.
    pub fn recent_response_times(&self, limit: usize) -> (times: Vec<u64>)
        ensures
            times@ == newest(latencies(self@), limit as nat),
    {
        broadcast use vstd::std_specs::vecdeque::group_vec_dequeue_axioms;

        let n = self.results.len();
        let mut carried: Vec<u64> = Vec::new();
        let mut i: usize = 0;
        while i < n
            invariant
                n == self@.len(),
                self@ == self.results@,
                i <= n,
                carried@ == latencies(self@.take(i as int)),
            decreases n - i,
        {
            proof {
                lemma_latencies_step(self@, i as int);
            }
            match self.results[i].response_time_ms {
                Some(ms) => {
                    carried.push(ms);
                },
                None => {},
            }
            i += 1;
        }
        assert(self@.take(n as int) == self@);

        let count = carried.len();
        let start = if limit >= count {
            0
        } else {
            count - limit
        };
        let mut times: Vec<u64> = Vec::new();
        let mut k: usize = start;
        while k < count
            invariant
                count == carried@.len(),
                start <= k <= count,
                times@ == carried@.subrange(start as int, k as int),
            decreases count - k,
        {
            times.push(carried[k]);
            k += 1;
        }
        assert(carried@.subrange(0, count as int) == carried@);
        times
    }

    /// Get minimum response time from all results.
    pub fn min_response_time(&self) -> (min: Option<u64>)
        ensures
            match min {
                Some(m) => latencies(self@).contains(m) && forall|k: int|
                    0 <= k < latencies(self@).len() ==> m <= #[trigger] latencies(self@)[k],
                None => latencies(self@).len() == 0,
            },
    {
        broadcast use vstd::std_specs::vecdeque::group_vec_dequeue_axioms;

        let n = self.results.len();
        let mut min: Option<u64> = None;
        let ghost mut at: int = 0;
        let mut i: usize = 0;
        while i < n
            invariant
                n == self@.len(),
                self@ == self.results@,
                i <= n,
                match min {
                    Some(m) => 0 <= at < latencies(self@.take(i as int)).len() && latencies(
                        self@.take(i as int),
                    )[at] == m && forall|k: int|
                        0 <= k < latencies(self@.take(i as int)).len() ==> m <= #[trigger] latencies(
                            self@.take(i as int),
                        )[k],
                    None => latencies(self@.take(i as int)).len() == 0,
                },
            decreases n - i,
        {
            proof {
                lemma_latencies_step(self@, i as int);
            }
            match self.results[i].response_time_ms {
                Some(ms) => {
                    let smaller = match min {
                        Some(m) => ms < m,
                        None => true,
                    };
                    if smaller {
                        min = Some(ms);
                        proof {
                            at = latencies(self@.take(i as int)).len() as int;
                        }
                    }
                },
                None => {},
            }
            i += 1;
        }
        assert(self@.take(n as int) == self@);
        min
    }

    /// Get maximum response time from all results.
    pub fn max_response_time(&self) -> (max: Option<u64>)
        ensures
            match max {
                Some(m) => latencies(self@).contains(m) && forall|k: int|
                    0 <= k < latencies(self@).len() ==> m >= #[trigger] latencies(self@)[k],
                None => latencies(self@).len() == 0,
            },
    {
        broadcast use vstd::std_specs::vecdeque::group_vec_dequeue_axioms;

        let n = self.results.len();
        let mut max: Option<u64> = None;
        let ghost mut at: int = 0;
        let mut i: usize = 0;
        while i < n
            invariant
                n == self@.len(),
                self@ == self.results@,
                i <= n,
                match max {
                    Some(m) => 0 <= at < latencies(self@.take(i as int)).len() && latencies(
                        self@.take(i as int),
                    )[at] == m && forall|k: int|
                        0 <= k < latencies(self@.take(i as int)).len() ==> m >= #[trigger] latencies(
                            self@.take(i as int),
                        )[k],
                    None => latencies(self@.take(i as int)).len() == 0,
                },
            decreases n - i,
        {
            proof {
                lemma_latencies_step(self@, i as int);
            }
            match self.results[i].response_time_ms {
                Some(ms) => {
                    let larger = match max {
                        Some(m) => ms > m,
                        None => true,
                    };
                    if larger {
                        max = Some(ms);
                        proof {
                            at = latencies(self@.take(i as int)).len() as int;
                        }
                    }
                },
                None => {},
            }
            i += 1;
        }
        assert(self@.take(n as int) == self@);
        max
    }

    /// Get chart data points for visualization: for each sample that carries
    /// a latency, the seconds of its instant and the latency in milliseconds.
    pub fn chart_data(&self) -> (points: Vec<(i64, u64)>)
        ensures
            points@ == chart_points(self@),
    {
        broadcast use vstd::std_specs::vecdeque::group_vec_dequeue_axioms;

        let n = self.results.len();
        let ghost point_of = |r: CheckResult|
            match r.response_time_ms {
                Some(ms) => Some((r.timestamp.secs, ms)),
                None => None,
            };
        let mut points: Vec<(i64, u64)> = Vec::new();
        let mut i: usize = 0;
        while i < n
            invariant
                n == self@.len(),
                self@ == self.results@,
                i <= n,
                point_of == |r: CheckResult|
                    match r.response_time_ms {
                        Some(ms) => Some((r.timestamp.secs, ms)),
                        None => None,
                    },
                points@ == self@.take(i as int).filter_map(point_of),
            decreases n - i,
        {
            proof {
                self@.lemma_filter_map_take_succ(point_of, i as int);
            }
            match self.results[i].response_time_ms {
                Some(ms) => {
                    points.push((self.results[i].timestamp.secs, ms));
                },
                None => {},
            }
            i += 1;
        }
        assert(self@.take(n as int) == self@);
        points
    }

    /// Get all results (for detailed view).
    pub fn all_results(&self) -> (r: &VecDeque<CheckResult>)
        ensures
            r@ == self@,
    {
        &self.results
    }
}

/// The latencies of one more sample: those before it, then its own if it
/// carries one.
pub proof fn lemma_latencies_step(samples: Seq<CheckResult>, i: int)
    requires
        0 <= i < samples.len(),
    ensures
        latencies(samples.take(i + 1)) == match samples[i].response_time_ms {
            Some(ms) => latencies(samples.take(i)).push(ms),
            None => latencies(samples.take(i)),
        },
        total(latencies(samples.take(i + 1))) == total(latencies(samples.take(i)))
            + match samples[i].response_time_ms {
            Some(ms) => ms as nat,
            None => 0,
        },
{
    samples.lemma_filter_map_take_succ(|r: CheckResult| r.response_time_ms, i);
    match samples[i].response_time_ms {
        Some(ms) => {
            let before = latencies(samples.take(i));
            assert(before.push(ms).drop_last() == before);
        },
        None => {},
    }
}

} // verus!
