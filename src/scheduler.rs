//! A model of the cooperative scheduler: a fixed set of periodic tasks,
//! registered once before the run loop, each resumed when its wait elapses.
//!
//! Tasks take no simulated time to run. The scheduler jumps to the earliest
//! due time and resumes the first task, in registration order, that is due
//! then; that task waits its interval again.
use vstd::prelude::*;

verus! {

/// Largest time, in milliseconds, that a run may reach.
pub const HORIZON_MS: u64 = 0x4000_0000_0000_0000;

/// Collects the task set before the scheduler starts.
pub struct SchedulerBuilder {
    intervals: Vec<u32>,
}

/// The running scheduler. It has no way to add a task.
pub struct Scheduler {
    intervals: Vec<u32>,
    due: Vec<u64>,
    runs: Vec<u64>,
    now: u64,
}

impl SchedulerBuilder {
    pub closed spec fn spec_intervals(&self) -> Seq<u32> {
        self.intervals@
    }

    /// Every registered interval is positive.
    pub open spec fn wf(&self) -> bool {
        forall|i: int| 0 <= i < self.spec_intervals().len() ==> self.spec_intervals()[i] > 0
    }

    pub fn new() -> (b: SchedulerBuilder)
        ensures
            b.wf(),
            b.spec_intervals() == Seq::<u32>::empty(),
    {
        SchedulerBuilder { intervals: Vec::new() }
    }

    /// Registers a task that waits `interval_ms` between two resumptions and
    /// returns its index. A zero interval is refused: such a task would never
    /// let simulated time move on.
    pub fn register(&mut self, interval_ms: u32) -> (r: Option<usize>)
        requires
            old(self).wf(),
        ensures
            final(self).wf(),
            interval_ms == 0 ==> r is None && final(self).spec_intervals() == old(self).spec_intervals(),
            interval_ms > 0 ==> r == Some(old(self).spec_intervals().len() as usize)
                && final(self).spec_intervals() == old(self).spec_intervals().push(interval_ms),
    {
        if interval_ms == 0 {
            return None;
        }
        let k = self.intervals.len();
        self.intervals.push(interval_ms);
        assert forall|i: int| 0 <= i < self.spec_intervals().len() implies self.spec_intervals()[i] > 0 by {
            if i < k {
                assert(self.spec_intervals()[i] == old(self).spec_intervals()[i]);
            }
        }
        Some(k)
    }

    /// Ends registration. Every task is due at time zero and has not run yet.
    pub fn start(self) -> (s: Scheduler)
        requires
            self.wf(),
        ensures
            s.wf(),
            s.spec_intervals() == self.spec_intervals(),
            s.spec_now() == 0,
            s.spec_runs() == Seq::new(self.spec_intervals().len(), |i: int| 0u64),
    {
        let n = self.intervals.len();
        let mut due: Vec<u64> = Vec::with_capacity(n);
        let mut runs: Vec<u64> = Vec::with_capacity(n);
        let mut i: usize = 0;
        while i < n
            invariant
                i <= n,
                n == self.intervals@.len(),
                due@.len() == i,
                runs@.len() == i,
                forall|j: int| 0 <= j < i ==> due@[j] == 0 && runs@[j] == 0,
                forall|j: int| 0 <= j < n ==> self.spec_intervals()[j] > 0,
            decreases n - i,
        {
            due.push(0);
            runs.push(0);
            i = i + 1;
        }
        let s = Scheduler { intervals: self.intervals, due, runs, now: 0 };
        assert forall|i: int| 0 <= i < s.spec_intervals().len() implies #[trigger] s.spec_intervals()[i] > 0 by {
            assert(s.spec_intervals()[i] == self.spec_intervals()[i]);
        }
        assert forall|i: int| 0 <= i < s.spec_intervals().len() implies #[trigger] s.spec_due()[i] == 0 && s.spec_runs()[i] == 0 by {
        }
        assert(s.due@.len() == n && s.runs@.len() == n && s.intervals@.len() == n);
        assert(s.spec_runs() =~= Seq::new(n as nat, |i: int| 0u64));
        s
    }
}

/// How many more resumptions a task due at `due` with wait `interval` gets up
/// to and including time `end`.
pub open spec fn pending_runs(due: int, interval: int, end: int) -> int {
    if due <= end && interval > 0 {
        (end - due) / interval + 1
    } else {
        0
    }
}

pub open spec fn seq_sum(s: Seq<int>) -> int
    decreases s.len(),
{
    if s.len() == 0 {
        0
    } else {
        seq_sum(s.drop_last()) + s.last()
    }
}

proof fn lemma_seq_sum_update(s: Seq<int>, j: int, v: int)
    requires
        0 <= j < s.len(),
    ensures
        seq_sum(s.update(j, v)) == seq_sum(s) - s[j] + v,
    decreases s.len(),
{
    if j == s.len() - 1 {
        assert(s.update(j, v).drop_last() =~= s.drop_last());
    } else {
        assert(s.update(j, v).drop_last() =~= s.drop_last().update(j, v));
        lemma_seq_sum_update(s.drop_last(), j, v);
    }
}

proof fn lemma_seq_sum_nonneg(s: Seq<int>)
    requires
        forall|i: int| 0 <= i < s.len() ==> s[i] >= 0,
    ensures
        seq_sum(s) >= 0,
    decreases s.len(),
{
    if s.len() > 0 {
        lemma_seq_sum_nonneg(s.drop_last());
    }
}

impl Scheduler {
    pub closed spec fn spec_intervals(&self) -> Seq<u32> {
        self.intervals@
    }

    /// When each task is next resumed.
    pub closed spec fn spec_due(&self) -> Seq<u64> {
        self.due@
    }

    /// How many times each task has been resumed.
    pub closed spec fn spec_runs(&self) -> Seq<u64> {
        self.runs@
    }

    /// The simulated time of the last resumption.
    pub closed spec fn spec_now(&self) -> u64 {
        self.now
    }

    /// Each task is due one interval after each of its resumptions, the first
    /// at time zero, and no task is overdue by more than its interval.
    pub open spec fn wf(&self) -> bool {
        let n = self.spec_intervals().len();
        &&& self.spec_due().len() == n
        &&& self.spec_runs().len() == n
        &&& self.spec_now() <= HORIZON_MS
        &&& forall|i: int|
            #![trigger self.spec_intervals()[i]]
            #![trigger self.spec_due()[i]]
            #![trigger self.spec_runs()[i]]
            0 <= i < n ==> {
                &&& self.spec_intervals()[i] > 0
                &&& self.spec_due()[i] == self.spec_runs()[i] * self.spec_intervals()[i]
                &&& self.spec_now() <= self.spec_due()[i] <= self.spec_now()
                    + self.spec_intervals()[i]
            }
    }

    /// The resumptions still owed up to and including time `end`.
    pub open spec fn spec_pending(&self, end: int) -> Seq<int> {
        Seq::new(
            self.spec_intervals().len(),
            |i: int| pending_runs(self.spec_due()[i] as int, self.spec_intervals()[i] as int, end),
        )
    }

    /// Number of registered tasks.
    pub fn task_count(&self) -> (n: usize)
        ensures
            n == self.spec_intervals().len(),
    {
        self.intervals.len()
    }

    /// How many times task `k` has been resumed.
    pub fn runs(&self, k: usize) -> (r: u64)
        requires
            k < self.spec_intervals().len(),
            self.wf(),
        ensures
            r == self.spec_runs()[k as int],
    {
        self.runs[k]
    }

    /// The simulated time of the last resumption.
    pub fn now(&self) -> (t: u64)
        ensures
            t == self.spec_now(),
    {
        self.now
    }

    /// The first task, in registration order, with the earliest due time.
    fn earliest(&self) -> (k: usize)
        requires
            self.wf(),
            self.spec_intervals().len() > 0,
        ensures
            k < self.spec_intervals().len(),
            forall|i: int| 0 <= i < self.spec_intervals().len() ==> self.spec_due()[k as int] <= self.spec_due()[i],
            forall|i: int| 0 <= i < k ==> self.spec_due()[i] > self.spec_due()[k as int],
    {
        let mut best: usize = 0;
        let mut i: usize = 1;
        while i < self.due.len()
            invariant
                self.wf(),
                1 <= i <= self.due@.len(),
                best < i,
                forall|j: int| 0 <= j < i ==> self.due@[best as int] <= self.due@[j],
                forall|j: int| 0 <= j < best ==> self.due@[j] > self.due@[best as int],
            decreases self.due@.len() - i,
        {
            if self.due[i] < self.due[best] {
                best = i;
            }
            i = i + 1;
        }
        best
    }

    /// The earliest due time of any task.
    pub fn next_due(&self) -> (t: u64)
        requires
            self.wf(),
            self.spec_intervals().len() > 0,
        ensures
            exists|k: int| 0 <= k < self.spec_intervals().len() && t == self.spec_due()[k],
            forall|i: int| 0 <= i < self.spec_intervals().len() ==> t <= self.spec_due()[i],
    {
        let k = self.earliest();
        self.due[k]
    }

    /// Moves time to the earliest due time and resumes the first task due then,
    /// returning its index; that task then waits its interval again.
    pub fn step(&mut self) -> (k: usize)
        requires
            old(self).wf(),
            old(self).spec_intervals().len() > 0,
            exists|j: int| 0 <= j < old(self).spec_intervals().len() && old(self).spec_due()[j] <= HORIZON_MS,
        ensures
            final(self).wf(),
            k < old(self).spec_intervals().len(),
            final(self).spec_intervals() == old(self).spec_intervals(),
            final(self).spec_now() == old(self).spec_due()[k as int],
            forall|i: int| 0 <= i < old(self).spec_intervals().len() ==> old(self).spec_due()[k as int] <= old(self).spec_due()[i],
            forall|i: int| 0 <= i < k ==> old(self).spec_due()[i] > old(self).spec_due()[k as int],
            final(self).spec_runs() == old(self).spec_runs().update(k as int, (old(self).spec_runs()[k as int] + 1) as u64),
            final(self).spec_runs()[k as int] == old(self).spec_runs()[k as int] + 1,
            final(self).spec_due() == old(self).spec_due().update(
                k as int,
                (old(self).spec_due()[k as int] + old(self).spec_intervals()[k as int]) as u64,
            ),
    {
        let k = self.earliest();
        let t = self.due[k];
        let iv = self.intervals[k];
        let r = self.runs[k];
        assert(t <= HORIZON_MS);
        proof {
            assert(self.due@[k as int] == self.runs@[k as int] * self.intervals@[k as int]);
            assert((r + 1) * iv == r * iv + iv) by (nonlinear_arith);
            assert(r <= r * iv) by (nonlinear_arith) requires iv >= 1;
        }
        self.now = t;
        self.due.set(k, t + iv as u64);
        self.runs.set(k, r + 1);
        assert forall|i: int| 0 <= i < self.intervals@.len() implies self.intervals@[i] > 0
            && self.due@[i] == self.runs@[i] * self.intervals@[i] && self.now <= self.due@[i]
            <= self.now + self.intervals@[i] by {
            if i == k as int {
                assert((r + 1) * iv == r * iv + iv) by (nonlinear_arith);
            } else {
                assert(old(self).due@[i] == self.due@[i]);
                assert(old(self).runs@[i] == self.runs@[i]);
            }
        }
        k
    }

    /// Resumes tasks until every task's next due time lies after `end_ms`.
    /// Each task has then run once at time zero and once more for every full
    /// interval up to `end_ms`.
    pub fn run_until(&mut self, end_ms: u64)
        requires
            old(self).wf(),
            end_ms <= HORIZON_MS,
        ensures
            final(self).wf(),
            final(self).spec_intervals() == old(self).spec_intervals(),
            forall|i: int| 0 <= i < final(self).spec_intervals().len() ==> final(self).spec_due()[i] > end_ms,
            forall|i: int|
                0 <= i < final(self).spec_intervals().len() ==> final(self).spec_runs()[i]
                    >= old(self).spec_runs()[i],
            forall|i: int|
                0 <= i < final(self).spec_intervals().len() ==> final(self).spec_runs()[i]
                    >= end_ms as int / final(self).spec_intervals()[i] as int + 1,
    {
        if self.intervals.len() == 0 {
            return;
        }
        let ghost start = *self;
        loop
            invariant
                self.wf(),
                start.wf(),
                end_ms <= HORIZON_MS,
                self.spec_intervals() == start.spec_intervals(),
                self.spec_intervals().len() > 0,
                forall|i: int|
                    0 <= i < self.spec_intervals().len() ==> self.spec_runs()[i] >= start.spec_runs()[i],
            ensures
                self.wf(),
                self.spec_intervals() == start.spec_intervals(),
                forall|i: int| 0 <= i < self.spec_intervals().len() ==> self.spec_due()[i] > end_ms,
                forall|i: int|
                    0 <= i < self.spec_intervals().len() ==> self.spec_runs()[i] >= start.spec_runs()[i],
            decreases seq_sum(self.spec_pending(end_ms as int)),
        {
            let t = self.next_due();
            if t > end_ms {
                break;
            }
            let ghost before = *self;
            let k = self.step();
            proof {
                let iv = before.spec_intervals()[k as int] as int;
                let d = before.spec_due()[k as int] as int;
                assert(pending_runs(d + iv, iv, end_ms as int) == pending_runs(d, iv, end_ms as int) - 1) by {
                    if d + iv <= end_ms {
                        vstd::arithmetic::div_mod::lemma_div_plus_one(end_ms - d - iv, iv);
                    } else {
                        vstd::arithmetic::div_mod::lemma_basic_div(end_ms - d, iv);
                    }
                }
                assert(self.spec_pending(end_ms as int) =~= before.spec_pending(end_ms as int).update(
                    k as int,
                    pending_runs(d, iv, end_ms as int) - 1,
                ));
                lemma_seq_sum_update(before.spec_pending(end_ms as int), k as int, pending_runs(d, iv, end_ms as int) - 1);
                assert forall|i: int| 0 <= i < self.spec_intervals().len() implies self.spec_pending(end_ms as int)[i] >= 0 by {
                    if self.spec_due()[i] <= end_ms {
                        vstd::arithmetic::div_mod::lemma_div_pos_is_pos(end_ms - self.spec_due()[i], self.spec_intervals()[i] as int);
                    }
                }
                lemma_seq_sum_nonneg(self.spec_pending(end_ms as int));
                assert forall|i: int| 0 <= i < self.spec_intervals().len() implies self.spec_runs()[i]
                    >= start.spec_runs()[i] by {
                    assert(before.spec_runs()[i] >= start.spec_runs()[i]);
                    if i != k as int {
                        assert(self.spec_runs()[i] == before.spec_runs()[i]);
                    }
                }
            }
        }
        proof {
            assert forall|i: int| 0 <= i < self.spec_intervals().len() implies self.spec_runs()[i]
                >= end_ms as int / self.spec_intervals()[i] as int + 1 by {
                assert(self.spec_intervals()[i] > 0);
                lemma_runs_cover(self.spec_runs()[i] as int, self.spec_intervals()[i] as int, end_ms as int);
            }
        }
    }
}

/// A task whose next resumption, `runs * interval`, lies after `end` has run
/// at least `end / interval + 1` times.
pub proof fn lemma_runs_cover(runs: int, interval: int, end: int)
    requires
        interval > 0,
        end >= 0,
        runs * interval > end,
    ensures
        runs >= end / interval + 1,
{
    vstd::arithmetic::div_mod::lemma_fundamental_div_mod(end, interval);
    vstd::arithmetic::div_mod::lemma_mod_bound(end, interval);
    if runs < end / interval + 1 {
        assert(runs * interval <= (end / interval) * interval) by (nonlinear_arith)
            requires runs <= end / interval, interval > 0;
    }
}

} // verus!
