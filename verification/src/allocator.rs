//! The job allocator: a shared countdown that hands every job index to
//! exactly one caller.
//!
//! The counter starts at the number of jobs. A claim decrements it in one
//! atomic step and reads what the step left: a value below zero means that
//! the jobs are used up, a value from zero up to the number of jobs is the
//! caller's job.

use std::sync::atomic::AtomicI32;
use std::sync::atomic::Ordering;
use vstd::prelude::*;

verus! {

/// The counter's value after one decrement. The counter wraps around below
/// the smallest `i32`, as the atomic decrement does.
pub open spec fn decremented(previous: i32) -> i32 {
    if previous == i32::MIN {
        i32::MAX
    } else {
        (previous - 1) as i32
    }
}

/// What a claim returns that found `previous` in the counter of an
/// allocator for `total` jobs: the value it left there, if that is the
/// index of a job.
pub open spec fn claimed_index(total: i32, previous: i32) -> Option<u32> {
    let now = decremented(previous);
    if 0 <= now < total {
        Some(now as u32)
    } else {
        None
    }
}

/// The counter's value after `claims` decrements of a counter that started
/// at `total`.
pub open spec fn counter_after(total: i32, claims: nat) -> i32
    decreases claims,
{
    if claims == 0 {
        total
    } else {
        decremented(counter_after(total, (claims - 1) as nat))
    }
}

/// What the claim number `k`, counted from zero in the order in which the
/// decrements take effect, returns for a counter that started at `total`.
pub open spec fn nth_claim(total: i32, k: nat) -> Option<u32> {
    claimed_index(total, counter_after(total, k))
}

/// The largest number of claims before the counter wraps around.
pub open spec fn claim_limit(total: i32) -> nat {
    (total + 0x8000_0000) as nat
}

/// As long as the counter does not wrap around, `k` claims leave it at
/// `total - k`.
pub proof fn lemma_counter_after(total: i32, k: nat)
    requires
        k <= claim_limit(total),
    ensures
        counter_after(total, k) == total - k,
    decreases k,
{
    if k > 0 {
        lemma_counter_after(total, (k - 1) as nat);
    }
}

/// The claim number `k` gets the job `total - 1 - k` while there are jobs
/// left, and nothing after that.
pub proof fn lemma_nth_claim(total: i32, k: nat)
    requires
        k < claim_limit(total),
    ensures
        nth_claim(total, k) == if k < total {
            Some((total - 1 - k) as u32)
        } else {
            None::<u32>
        },
{
    lemma_counter_after(total, k);
}

/// A counter seeded with `total` jobs issues each of the indices
/// `0 .. total` to exactly one claim and issues nothing else, however the
/// claims of the callers interleave: every index is claimed, no two claims
/// get the same index, no claim gets an index outside the range, and every
/// claim after the first `total` finds the jobs used up.
///
/// The claims are numbered in the order in which their decrements take
/// effect on the counter. The statement is about the first `claims` of
/// them, as long as the counter does not wrap around: a pool of workers of
/// which each stops at its first empty claim makes `total` claims and one
/// more for each worker.
pub proof fn lemma_each_job_claimed_once(total: i32, claims: nat)
    requires
        total <= claims <= claim_limit(total),
    ensures
        forall|job: int|
            0 <= job < total ==> {
                &&& total - 1 - job < claims
                &&& #[trigger] nth_claim(total, (total - 1 - job) as nat) == Some(job as u32)
            },
        forall|k: nat, l: nat|
            k < claims && l < claims && nth_claim(total, k) is Some && #[trigger] nth_claim(
                total,
                k,
            ) == #[trigger] nth_claim(total, l) ==> k == l,
        forall|k: nat|
            k < claims && #[trigger] nth_claim(total, k) is Some ==> nth_claim(total, k)->0
                < total,
        forall|k: nat| total <= k < claims ==> #[trigger] nth_claim(total, k) is None,
{
    assert forall|job: int| 0 <= job < total implies {
        &&& total - 1 - job < claims
        &&& #[trigger] nth_claim(total, (total - 1 - job) as nat) == Some(job as u32)
    } by {
        lemma_nth_claim(total, (total - 1 - job) as nat);
    }
    assert forall|k: nat, l: nat|
        k < claims && l < claims && nth_claim(total, k) is Some && #[trigger] nth_claim(total, k)
            == #[trigger] nth_claim(total, l) implies k == l by {
        lemma_nth_claim(total, k);
        lemma_nth_claim(total, l);
    }
    assert forall|k: nat| k < claims && #[trigger] nth_claim(total, k) is Some implies nth_claim(
        total,
        k,
    )->0 < total by {
        lemma_nth_claim(total, k);
    }
    assert forall|k: nat| total <= k < claims implies #[trigger] nth_claim(total, k) is None by {
        lemma_nth_claim(total, k);
    }
}

/// The shared countdown.
pub struct JobAllocator {
    counter: AtomicI32,
    total_jobs: i32,
}

impl JobAllocator {
    /// The number of jobs that the countdown was made for.
    pub closed spec fn jobs(&self) -> i32 {
        self.total_jobs
    }

    /// A countdown over the jobs `0 .. total_jobs`.
    pub fn new(total_jobs: i32) -> (allocator: JobAllocator)
        ensures
            allocator.jobs() == total_jobs,
    {
        JobAllocator { counter: AtomicI32::new(total_jobs), total_jobs }
    }

    /// The number of jobs that the countdown was made for.
    pub fn total_jobs(&self) -> (total: i32)
        ensures
            total == self.jobs(),
    {
        self.total_jobs
    }

    /// The job of a claim that found `previous` in the counter of an
    /// allocator for `total_jobs` jobs.
    pub fn index_after(total_jobs: i32, previous: i32) -> (job: Option<u32>)
        ensures
            job == claimed_index(total_jobs, previous),
    {
        let now: i32 = if previous == i32::MIN {
            i32::MAX
        } else {
            previous - 1
        };
        if 0 <= now && now < total_jobs {
            Some(now as u32)
        } else {
            None
        }
    }

    /// Claims the next job: decrements the counter in one atomic step and
    /// returns what the step left, if that is the index of a job, and
    /// `None` if not. What the step finds in the counter depends on the
    /// other callers; the result is `claimed_index` of whatever it found.
    pub fn claim(&self) -> (job: Option<u32>)
        ensures
            exists|previous: i32| job == claimed_index(self.jobs(), previous),
            job matches Some(index) ==> index < self.jobs(),
    {
        let previous: i32 = self.counter.fetch_sub(1, Ordering::SeqCst);
        let job = JobAllocator::index_after(self.total_jobs, previous);
        assert(job == claimed_index(self.jobs(), previous));
        job
    }
}

} // verus!
