//! The transfer engine: the records of jobs and files, the per-job pause and
//! cancel flags, the global token-bucket rate limiter and the bookkeeping of a
//! chunked file copy.
use vstd::prelude::*;
use std::collections::HashMap;
pub mod conflict;
pub mod file_run;
pub mod hasher;
pub mod queue;

use crate::engine::hasher::{HashAlgorithm, StreamingHasher, hash_hex};
use crate::text::{decimal, u64_to_decimal, u128_to_decimal, push_str};

verus! {

broadcast use vstd::std_specs::hash::group_hash_axioms;

/// Where one file of a job stands.
#[derive(Clone, Debug, PartialEq, Eq)]
pub enum FileStatus {
    Queued,
    Copying,
    Verifying,
    Done,
    Skipped,
    Error(String),
}

/// Where a job stands.
#[derive(Clone, Debug, PartialEq, Eq)]
pub enum JobStatus {
    Queued,
    Running,
    Paused,
    Canceled,
    Done,
    Error(String),
}

/// One file (or directory, with zero bytes) of a transfer job.
#[derive(Clone, Debug)]
pub struct TransferFile {
    pub src: String,
    pub dest: String,
    pub bytes_total: u64,
    pub bytes_done: u64,
    pub status: FileStatus,
    pub hash_src: Option<String>,
    pub hash_dest: Option<String>,
    pub error: Option<String>,
}

/// A copy or move of some source paths into a destination directory. The job
/// identifier is the 128-bit value of its UUID.
#[derive(Clone, Debug)]
pub struct TransferJob {
    pub id: u128,
    pub src_paths: Vec<String>,
    pub dest_dir: String,
    pub is_move: bool,
    pub status: JobStatus,
    pub files: Vec<TransferFile>,
    pub bytes_total: u64,
    pub bytes_done: u64,
    pub speed_bps: u64,
    pub started_at: Option<i64>,
    pub finished_at: Option<i64>,
}

/// The size of the copy buffer chosen for a file of `file_size` bytes.
pub open spec fn spec_buffer_size(file_size: u64) -> nat {
    if file_size < 1024 * 1024 {
        64 * 1024
    } else if file_size < 100 * 1024 * 1024 {
        256 * 1024
    } else if file_size < 1024 * 1024 * 1024 {
        1024 * 1024
    } else {
        4 * 1024 * 1024
    }
}

/// Picks the chunk size used to copy a file: 64 KiB below 1 MiB, 256 KiB below
/// 100 MiB, 1 MiB below 1 GiB and 4 MiB from 1 GiB on.
pub fn get_adaptive_buffer_size(file_size: u64) -> (size: usize)
    ensures
        size == spec_buffer_size(file_size),
{
    if file_size < 1024 * 1024 {
        64 * 1024
    } else if file_size < 100 * 1024 * 1024 {
        256 * 1024
    } else if file_size < 1024 * 1024 * 1024 {
        1024 * 1024
    } else {
        4 * 1024 * 1024
    }
}

/// The value a job's flag has in a flag table: `false` where the job has none.
pub open spec fn flag_of(flags: Map<u128, bool>, job_id: u128) -> bool {
    flags.contains_key(job_id) && flags[job_id]
}

/// The flag table after a job's flag is looked up, and created as `false`
/// where it was missing.
pub open spec fn with_flag(flags: Map<u128, bool>, job_id: u128) -> Map<u128, bool> {
    if flags.contains_key(job_id) {
        flags
    } else {
        flags.insert(job_id, false)
    }
}

/// Bytes per second allowed by a limit in KiB per second.
pub open spec fn rate_bps(limit_kbps: u64) -> nat {
    limit_kbps as nat * 1024
}

/// Tokens are counted in nano-bytes: one byte is `1_000_000_000` tokens, so
/// that elapsed nanoseconds times bytes per second is an exact token count.
pub open spec fn nano_bytes(bytes: nat) -> nat {
    bytes * 1_000_000_000
}

/// Half a second's worth of bytes: what the bucket keeps between writers.
pub open spec fn max_tokens(limit_kbps: u64) -> nat {
    rate_bps(limit_kbps) * 500_000_000
}

/// What the bucket may fill up to for a request of `amount` bytes: half a
/// second's worth, or the request itself when that is larger, so that every
/// request can be let through once enough time has passed.
pub open spec fn bucket_cap(limit_kbps: u64, amount: usize) -> nat {
    if nano_bytes(amount as nat) > max_tokens(limit_kbps) {
        nano_bytes(amount as nat)
    } else {
        max_tokens(limit_kbps)
    }
}

/// A bound on every bucket: no limit's half second and no request is larger.
pub open spec fn max_tokens_any() -> nat {
    u64::MAX as nat * 1_000_000_000
}

/// The bucket after `elapsed_ns` nanoseconds of refill for a request of
/// `amount` bytes, capped at `bucket_cap`.
pub open spec fn refilled(tokens: nat, elapsed_ns: nat, limit_kbps: u64, amount: usize) -> nat {
    let t = tokens + elapsed_ns * rate_bps(limit_kbps);
    if t < bucket_cap(limit_kbps, amount) {
        t
    } else {
        bucket_cap(limit_kbps, amount)
    }
}

/// Nanoseconds that a missing number of tokens takes to refill, rounded up.
pub open spec fn wait_ns(missing: nat, limit_kbps: u64) -> nat {
    ((missing + rate_bps(limit_kbps) - 1) as nat / rate_bps(limit_kbps)) as nat
}

/// What the rate limiter tells a writer that wants to pass some bytes.
#[derive(Clone, Copy, Debug, PartialEq, Eq, Structural)]
pub enum RateDecision {
    /// The bytes may pass now.
    Proceed,
    /// Sleep this many nanoseconds, then ask again.
    Wait(u128),
}

/// A token bucket shared by all running copies. Time is given to it in
/// nanoseconds since the limiter was created.
pub struct GlobalRateLimiter {
    limit_kbps: u64,
    tokens: u128,
    last_refill_ns: u64,
}

impl GlobalRateLimiter {
    /// The limit in KiB per second; zero means unlimited.
    pub closed spec fn limit(&self) -> u64 {
        self.limit_kbps
    }

    /// The tokens in the bucket, in nano-bytes.
    pub closed spec fn tokens(&self) -> nat {
        self.tokens as nat
    }

    /// When the bucket was last refilled.
    pub closed spec fn last_refill(&self) -> u64 {
        self.last_refill_ns
    }

    /// The bucket never holds more than the largest bucket of any limit.
    pub open spec fn wf(&self) -> bool {
        self.tokens() <= max_tokens_any()
    }

    /// An empty bucket with the given limit, created at time zero.
    pub fn new(limit_kbps: u64) -> (r: GlobalRateLimiter)
        ensures
            r.wf(),
            r.limit() == limit_kbps,
            r.tokens() == 0,
            r.last_refill() == 0,
    {
        GlobalRateLimiter { limit_kbps, tokens: 0, last_refill_ns: 0 }
    }

    /// The current limit in KiB per second.
    pub fn limit_kbps(&self) -> (r: u64)
        ensures
            r == self.limit(),
    {
        self.limit_kbps
    }

    /// Changes the limit; the bucket keeps its tokens.
    pub fn set_limit_kbps(&mut self, limit_kbps: u64)
        requires
            old(self).wf(),
        ensures
            final(self).wf(),
            final(self).limit() == limit_kbps,
            final(self).tokens() == old(self).tokens(),
            final(self).last_refill() == old(self).last_refill(),
    {
        self.limit_kbps = limit_kbps;
    }

    /// What one round of `consume` does: see there.
    pub open spec fn consume_post(pre: GlobalRateLimiter, post: GlobalRateLimiter, amount: usize, now_ns: u64, d: RateDecision) -> bool {
        &&& post.limit() == pre.limit()
        &&& pre.limit() == 0 ==> d == RateDecision::Proceed && post == pre
        &&& pre.limit() != 0 ==> {
            let elapsed: nat = if now_ns >= pre.last_refill() {
                (now_ns - pre.last_refill()) as nat
            } else {
                0
            };
            let t = refilled(pre.tokens(), elapsed, pre.limit(), amount);
            &&& post.last_refill() == now_ns
            &&& t >= nano_bytes(amount as nat) ==> d == RateDecision::Proceed
                && post.tokens() == t - nano_bytes(amount as nat)
            &&& t < nano_bytes(amount as nat) ==> d == RateDecision::Wait(
                wait_ns((nano_bytes(amount as nat) - t) as nat, pre.limit()) as u128,
            ) && post.tokens() == t
        }
    }

    /// One round of the limiter's loop for a writer that wants to pass
    /// `amount` bytes at time `now_ns`. Without a limit the bytes pass and
    /// nothing changes. Otherwise the bucket is refilled for the time since the
    /// last refill (capped at half a second's worth of bytes, or at the request
    /// when that is larger); if it then holds
    /// enough the bytes pass and are taken from it, else the writer is told how
    /// long the missing tokens take to come in.
    pub fn consume(&mut self, amount: usize, now_ns: u64) -> (d: RateDecision)
        requires
            old(self).wf(),
            old(self).limit() <= u64::MAX / 1024,
        ensures
            final(self).wf(),
            final(self).limit() == old(self).limit(),
            Self::consume_post(*old(self), *final(self), amount, now_ns, d),
    {
        let limit = self.limit_kbps;
        if limit == 0 {
            return RateDecision::Proceed;
        }
        let rate: u128 = limit as u128 * 1024;
        let half: u128 = rate * 500_000_000;
        assert(half <= max_tokens_any()) by (nonlinear_arith)
            requires
                rate <= u64::MAX,
                half == rate * 500_000_000,
        ;
        let need: u128 = amount as u128 * 1_000_000_000;
        let cap: u128 = if need > half {
            need
        } else {
            half
        };
        let elapsed: u64 = if now_ns >= self.last_refill_ns {
            now_ns - self.last_refill_ns
        } else {
            0
        };
        self.last_refill_ns = now_ns;
        let t: u128 = if self.tokens >= cap {
            cap
        } else {
            let room: u128 = cap - self.tokens;
            if elapsed as u128 <= room / rate {
                assert(elapsed * rate <= room) by (nonlinear_arith)
                    requires
                        elapsed <= room / rate,
                        rate > 0,
                ;
                self.tokens + elapsed as u128 * rate
            } else {
                assert(elapsed * rate > room) by (nonlinear_arith)
                    requires
                        elapsed > room / rate,
                        rate > 0,
                ;
                cap
            }
        };
        if t >= need {
            self.tokens = t - need;
            RateDecision::Proceed
        } else {
            self.tokens = t;
            let missing: u128 = need - t;
            RateDecision::Wait((missing + rate - 1) / rate)
        }
    }
}

/// What the user asks of a job from the window.
#[derive(Clone, Copy, Debug, PartialEq, Eq, Structural)]
pub enum JobControl {
    Pause,
    Resume,
    Cancel,
}

/// What a request to a job records: the job's new status, when it finished
/// (for a cancelled job), and whether the worker is woken to pick it up.
pub struct ControlOutcome {
    pub status: JobStatus,
    pub finished_at: Option<i64>,
    pub wake_worker: bool,
}

/// The pause and cancel flags of the running jobs, and the rate limiter that
/// all copies share.
pub struct TransferEngine {
    pause_flags: HashMap<u128, bool>,
    cancel_flags: HashMap<u128, bool>,
    rate_limiter: GlobalRateLimiter,
}

impl TransferEngine {
    /// The pause flag of each job that has one.
    pub closed spec fn pause_map(&self) -> Map<u128, bool> {
        self.pause_flags@
    }

    /// The cancel flag of each job that has one.
    pub closed spec fn cancel_map(&self) -> Map<u128, bool> {
        self.cancel_flags@
    }

    /// The shared rate limiter.
    pub closed spec fn limiter(&self) -> GlobalRateLimiter {
        self.rate_limiter
    }

    /// The rate limiter is well formed.
    pub open spec fn wf(&self) -> bool {
        self.limiter().wf()
    }

    /// Sets the global speed limit in KiB per second (zero for none).
    pub fn set_speed_limit_kbps(&mut self, limit_kbps: u64)
        requires
            old(self).wf(),
        ensures
            final(self).wf(),
            final(self).limiter().limit() == limit_kbps,
            final(self).limiter().tokens() == old(self).limiter().tokens(),
            final(self).limiter().last_refill() == old(self).limiter().last_refill(),
            final(self).pause_map() == old(self).pause_map(),
            final(self).cancel_map() == old(self).cancel_map(),
    {
        self.rate_limiter.set_limit_kbps(limit_kbps);
    }

    /// The global speed limit in KiB per second.
    pub fn speed_limit_kbps(&self) -> (r: u64)
        ensures
            r == self.limiter().limit(),
    {
        self.rate_limiter.limit_kbps()
    }

    /// One round of the shared limiter for `amount` bytes at `now_ns`
    /// (see `GlobalRateLimiter::consume`).
    pub fn consume_rate(&mut self, amount: usize, now_ns: u64) -> (d: RateDecision)
        requires
            old(self).wf(),
            old(self).limiter().limit() <= u64::MAX / 1024,
        ensures
            final(self).wf(),
            final(self).pause_map() == old(self).pause_map(),
            final(self).cancel_map() == old(self).cancel_map(),
            final(self).limiter().limit() == old(self).limiter().limit(),
            ({
                GlobalRateLimiter::consume_post(old(self).limiter(), final(self).limiter(), amount, now_ns, d)
            }),
    {
        self.rate_limiter.consume(amount, now_ns)
    }

    /// No flags and no speed limit.
    pub fn new() -> (e: TransferEngine)
        ensures
            e.pause_map() == Map::<u128, bool>::empty(),
            e.cancel_map() == Map::<u128, bool>::empty(),
            e.wf(),
            e.limiter().limit() == 0,
            e.limiter().tokens() == 0,
            e.limiter().last_refill() == 0,
    {
        TransferEngine {
            pause_flags: HashMap::new(),
            cancel_flags: HashMap::new(),
            rate_limiter: GlobalRateLimiter::new(0),
        }
    }

    fn get_or_create(flags: &mut HashMap<u128, bool>, job_id: u128) -> (b: bool)
        ensures
            b == flag_of(old(flags)@, job_id),
            final(flags)@ == with_flag(old(flags)@, job_id),
    {
        match flags.get(&job_id) {
            Some(b) => *b,
            None => {
                flags.insert(job_id, false);
                false
            },
        }
    }

    /// Whether the job is paused, creating its flag (unset) if it has none.
    pub fn get_or_create_pause_flag(&mut self, job_id: u128) -> (b: bool)
        ensures
            b == flag_of(old(self).pause_map(), job_id),
            final(self).pause_map() == with_flag(old(self).pause_map(), job_id),
            final(self).cancel_map() == old(self).cancel_map(),
            final(self).limiter() == old(self).limiter(),
    {
        Self::get_or_create(&mut self.pause_flags, job_id)
    }

    /// Whether the job is cancelled, creating its flag (unset) if it has none.
    pub fn get_or_create_cancel_flag(&mut self, job_id: u128) -> (b: bool)
        ensures
            b == flag_of(old(self).cancel_map(), job_id),
            final(self).cancel_map() == with_flag(old(self).cancel_map(), job_id),
            final(self).pause_map() == old(self).pause_map(),
            final(self).limiter() == old(self).limiter(),
    {
        Self::get_or_create(&mut self.cancel_flags, job_id)
    }

    /// Sets the job's pause flag to `value`.
    pub fn set_pause_flag(&mut self, job_id: u128, value: bool)
        ensures
            final(self).pause_map() == old(self).pause_map().insert(job_id, value),
            final(self).cancel_map() == old(self).cancel_map(),
            final(self).limiter() == old(self).limiter(),
    {
        self.pause_flags.insert(job_id, value);
    }

    /// Sets the job's cancel flag to `value`.
    pub fn set_cancel_flag(&mut self, job_id: u128, value: bool)
        ensures
            final(self).cancel_map() == old(self).cancel_map().insert(job_id, value),
            final(self).pause_map() == old(self).pause_map(),
            final(self).limiter() == old(self).limiter(),
    {
        self.cancel_flags.insert(job_id, value);
    }

    /// Pauses the job: its pause flag is set.
    pub fn pause_job(&mut self, job_id: u128)
        ensures
            final(self).pause_map() == old(self).pause_map().insert(job_id, true),
            final(self).cancel_map() == old(self).cancel_map(),
            final(self).limiter() == old(self).limiter(),
    {
        self.set_pause_flag(job_id, true);
    }

    /// Resumes the job: its pause flag is cleared.
    pub fn resume_job(&mut self, job_id: u128)
        ensures
            final(self).pause_map() == old(self).pause_map().insert(job_id, false),
            final(self).cancel_map() == old(self).cancel_map(),
            final(self).limiter() == old(self).limiter(),
    {
        self.set_pause_flag(job_id, false);
    }

    /// Cancels the job: its cancel flag is set.
    pub fn cancel_job(&mut self, job_id: u128)
        ensures
            final(self).cancel_map() == old(self).cancel_map().insert(job_id, true),
            final(self).pause_map() == old(self).pause_map(),
            final(self).limiter() == old(self).limiter(),
    {
        self.set_cancel_flag(job_id, true);
    }

    /// Carries out the user's request on a job at time `now` (seconds since
    /// the epoch): a pause sets its pause flag and records it paused; a
    /// resume clears the flag, records it queued again and wakes the worker;
    /// a cancel sets its cancel flag and records it cancelled, finished now.
    pub fn control_job(&mut self, job_id: u128, control: JobControl, now: i64) -> (o: ControlOutcome)
        ensures
            final(self).limiter() == old(self).limiter(),
            control == JobControl::Pause ==> final(self).pause_map() == old(self).pause_map().insert(job_id, true)
                && final(self).cancel_map() == old(self).cancel_map() && o.status is Paused
                && o.finished_at is None && !o.wake_worker,
            control == JobControl::Resume ==> final(self).pause_map() == old(self).pause_map().insert(job_id, false)
                && final(self).cancel_map() == old(self).cancel_map() && o.status is Queued
                && o.finished_at is None && o.wake_worker,
            control == JobControl::Cancel ==> final(self).cancel_map() == old(self).cancel_map().insert(job_id, true)
                && final(self).pause_map() == old(self).pause_map() && o.status is Canceled
                && o.finished_at == Some(now) && !o.wake_worker,
    {
        match control {
            JobControl::Pause => {
                self.pause_job(job_id);
                ControlOutcome { status: JobStatus::Paused, finished_at: None, wake_worker: false }
            },
            JobControl::Resume => {
                self.resume_job(job_id);
                ControlOutcome { status: JobStatus::Queued, finished_at: None, wake_worker: true }
            },
            JobControl::Cancel => {
                self.cancel_job(job_id);
                ControlOutcome { status: JobStatus::Canceled, finished_at: Some(now), wake_worker: false }
            },
        }
    }

    /// Forgets both flags of the job.
    pub fn remove_job_flags(&mut self, job_id: u128)
        ensures
            final(self).pause_map() == old(self).pause_map().remove(job_id),
            final(self).cancel_map() == old(self).cancel_map().remove(job_id),
            final(self).limiter() == old(self).limiter(),
    {
        self.pause_flags.remove(&job_id);
        self.cancel_flags.remove(&job_id);
    }
}

/// A paused job reads as paused until it is resumed or forgotten; a resumed or
/// forgotten one reads as not paused; the flag of one job never changes another's.
pub proof fn law_flag_reads_back_last_write(flags: Map<u128, bool>, job_id: u128, other: u128, value: bool)
    ensures
        flag_of(flags.insert(job_id, value), job_id) == value,
        !flag_of(flags.remove(job_id), job_id),
        flag_of(with_flag(flags, job_id), job_id) == flag_of(flags, job_id),
        other != job_id ==> flag_of(flags.insert(job_id, value), other) == flag_of(flags, other),
        other != job_id ==> flag_of(flags.remove(job_id), other) == flag_of(flags, other),
{
}


/// After a round with a limit, the bucket holds no more than the cap for that
/// request, and once a request has passed, at most half a second's worth.
pub proof fn law_bucket_bounded(
    pre: GlobalRateLimiter,
    post: GlobalRateLimiter,
    amount: usize,
    now_ns: u64,
    d: RateDecision,
)
    requires
        GlobalRateLimiter::consume_post(pre, post, amount, now_ns, d),
        pre.limit() != 0,
    ensures
        post.tokens() <= bucket_cap(pre.limit(), amount),
        d == RateDecision::Proceed ==> post.tokens() <= max_tokens(pre.limit()),
{
}

/// Every request ends: a writer told to wait, that waits as long as it was
/// told and asks again for the same bytes, may then pass, whatever their
/// number. The wait is the time the missing bytes take at the limit.
pub proof fn law_waiting_as_told_suffices(
    pre: GlobalRateLimiter,
    mid: GlobalRateLimiter,
    post: GlobalRateLimiter,
    amount: usize,
    now_ns: u64,
    wait: u128,
    later_ns: u64,
    d: RateDecision,
)
    requires
        GlobalRateLimiter::consume_post(pre, mid, amount, now_ns, RateDecision::Wait(wait)),
        GlobalRateLimiter::consume_post(mid, post, amount, later_ns, d),
        pre.limit() != 0,
        later_ns >= now_ns + wait,
    ensures
        wait * rate_bps(pre.limit()) >= nano_bytes(amount as nat) - mid.tokens(),
        wait == wait_ns((nano_bytes(amount as nat) - mid.tokens()) as nat, pre.limit()),
        d == RateDecision::Proceed,
{
    let rate = rate_bps(pre.limit());
    let need = nano_bytes(amount as nat);
    let t = mid.tokens();
    assert(t < need);
    let missing: nat = (need - t) as nat;
    let w = wait_ns(missing, pre.limit());
    assert(wait == w);
    assert(w * rate >= missing) by (nonlinear_arith)
        requires
            rate > 0,
            w == (missing + rate - 1) as nat / rate,
    ;
    let elapsed: nat = (later_ns - now_ns) as nat;
    assert(elapsed * rate >= w * rate) by (nonlinear_arith)
        requires
            elapsed >= w,
            rate > 0,
    ;
}

/// The bytes a round let through: all it asked for when told to proceed,
/// none when told to wait.
pub open spec fn passed(amount: usize, d: RateDecision) -> nat {
    if d == RateDecision::Proceed {
        amount as nat
    } else {
        0
    }
}

/// The bytes let through by the first `n` rounds.
pub open spec fn passed_total(amounts: Seq<usize>, ds: Seq<RateDecision>, n: int) -> nat
    decreases n,
{
    if n <= 0 {
        0
    } else {
        passed_total(amounts, ds, n - 1) + passed(amounts[n - 1], ds[n - 1])
    }
}

/// The limiter states `lims` come from the rounds (`amounts`, `times`,
/// `ds`) in order, on a clock that does not go back.
pub open spec fn rounds_of(
    lims: Seq<GlobalRateLimiter>,
    amounts: Seq<usize>,
    times: Seq<u64>,
    ds: Seq<RateDecision>,
) -> bool {
    &&& lims.len() == amounts.len() + 1
    &&& times.len() == amounts.len()
    &&& ds.len() == amounts.len()
    &&& forall|k: int| 0 <= k < amounts.len() ==> #[trigger] GlobalRateLimiter::consume_post(
        lims[k],
        lims[k + 1],
        amounts[k],
        times[k],
        ds[k],
    )
    &&& forall|k: int| 0 <= k < amounts.len() ==> #[trigger] times[k] >= lims[k].last_refill()
}

proof fn lemma_throughput_prefix(
    lims: Seq<GlobalRateLimiter>,
    amounts: Seq<usize>,
    times: Seq<u64>,
    ds: Seq<RateDecision>,
    n: int,
)
    requires
        rounds_of(lims, amounts, times, ds),
        lims[0].limit() != 0,
        0 <= n <= amounts.len(),
    ensures
        lims[n].limit() == lims[0].limit(),
        lims[n].last_refill() >= lims[0].last_refill(),
        nano_bytes(passed_total(amounts, ds, n)) + lims[n].tokens() <= lims[0].tokens() + rate_bps(
            lims[0].limit(),
        ) * (lims[n].last_refill() - lims[0].last_refill()),
    decreases n,
{
    if n > 0 {
        let k = n - 1;
        lemma_throughput_prefix(lims, amounts, times, ds, k);
        let pre = lims[k];
        let post = lims[k + 1];
        assert(GlobalRateLimiter::consume_post(pre, post, amounts[k], times[k], ds[k]));
        assert(times[k] >= pre.last_refill());
        let rate = rate_bps(lims[0].limit());
        let elapsed: nat = (times[k] - pre.last_refill()) as nat;
        let t = refilled(pre.tokens(), elapsed, pre.limit(), amounts[k]);
        assert(t <= pre.tokens() + elapsed * rate);
        assert(nano_bytes(passed(amounts[k], ds[k])) + post.tokens() <= t);
        let before: int = pre.last_refill() - lims[0].last_refill();
        assert(rate * before + elapsed * rate == rate * (post.last_refill() - lims[0].last_refill()))
            by (nonlinear_arith)
            requires
                before == pre.last_refill() - lims[0].last_refill(),
                elapsed == times[k] - pre.last_refill(),
                post.last_refill() == times[k],
        ;
        assert(nano_bytes(passed_total(amounts, ds, n)) == nano_bytes(passed_total(amounts, ds, k))
            + nano_bytes(passed(amounts[k], ds[k]))) by (nonlinear_arith)
            requires
                passed_total(amounts, ds, n) == passed_total(amounts, ds, k) + passed(amounts[k], ds[k]),
        ;
    }
}

/// The limiter holds all copies together to the limit: over any run of
/// rounds on a clock that does not go back, the bytes let through (in
/// nano-bytes), plus what is left in the bucket, never exceed what the bucket
/// held at the start plus the limit times the time elapsed. From a bucket of
/// at most half a second's worth (a new limiter's, or one after any request
/// that passed), no more than the limit times the elapsed time, plus half a
/// second's worth, ever passes.
pub proof fn law_throughput_bounded(
    lims: Seq<GlobalRateLimiter>,
    amounts: Seq<usize>,
    times: Seq<u64>,
    ds: Seq<RateDecision>,
)
    requires
        rounds_of(lims, amounts, times, ds),
        lims[0].limit() != 0,
    ensures
        nano_bytes(passed_total(amounts, ds, amounts.len() as int)) + lims.last().tokens() <= lims[0].tokens()
            + rate_bps(lims[0].limit()) * (lims.last().last_refill() - lims[0].last_refill()),
        lims[0].tokens() <= max_tokens(lims[0].limit()) ==> nano_bytes(
            passed_total(amounts, ds, amounts.len() as int),
        ) <= max_tokens(lims[0].limit()) + rate_bps(lims[0].limit()) * (lims.last().last_refill()
            - lims[0].last_refill()),
{
    lemma_throughput_prefix(lims, amounts, times, ds, amounts.len() as int);
}

/// The message of a copy refused because the source changed size.
pub open spec fn size_changed_message(expected: u64, actual: u64) -> Seq<char> {
    "Source file size changed from "@ + decimal(expected as nat) + " to "@ + decimal(actual as nat)
        + " bytes since the transfer was enqueued. Cannot resume."@
}

/// Builds the message of a copy refused because the source changed size.
pub fn size_changed_error(expected: u64, actual: u64) -> (s: String)
    ensures
        s@ == size_changed_message(expected, actual),
{
    let mut s = String::new();
    push_str(&mut s, "Source file size changed from ");
    let e = u64_to_decimal(expected);
    push_str(&mut s, e.as_str());
    push_str(&mut s, " to ");
    let a = u64_to_decimal(actual);
    push_str(&mut s, a.as_str());
    push_str(&mut s, " bytes since the transfer was enqueued. Cannot resume.");
    proof {
        assert(s@ =~= size_changed_message(expected, actual));
    }
    s
}

/// Why a copy cannot go ahead.
#[derive(Clone, Copy, Debug, PartialEq, Eq, Structural)]
pub enum CopyError {
    /// The source no longer has the size recorded when the job was queued.
    SizeChanged { expected: u64, actual: u64 },
    /// The destination has less free space than the bytes left to copy.
    InsufficientSpace { needed: u128, available: u64 },
}

/// The message of a job refused for lack of space.
pub open spec fn insufficient_space_message(needed: nat, available: nat) -> Seq<char> {
    "Not enough free space on the destination: "@ + decimal(needed) + " bytes needed, "@ + decimal(
        available,
    ) + " bytes available"@
}

/// The message a copy error is reported with.
pub open spec fn copy_error_message(e: CopyError) -> Seq<char> {
    match e {
        CopyError::SizeChanged { expected, actual } => size_changed_message(expected, actual),
        CopyError::InsufficientSpace { needed, available } => insufficient_space_message(
            needed as nat,
            available as nat,
        ),
    }
}

impl CopyError {
    /// The message this error is reported with.
    pub fn message(&self) -> (s: String)
        ensures
            s@ == copy_error_message(*self),
    {
        match self {
            CopyError::SizeChanged { expected, actual } => size_changed_error(*expected, *actual),
            CopyError::InsufficientSpace { needed, available } => {
                let mut s = String::new();
                push_str(&mut s, "Not enough free space on the destination: ");
                let n = u128_to_decimal(*needed);
                push_str(&mut s, n.as_str());
                push_str(&mut s, " bytes needed, ");
                let a = u64_to_decimal(*available);
                push_str(&mut s, a.as_str());
                push_str(&mut s, " bytes available");
                proof {
                    assert(s@ =~= insufficient_space_message(*needed as nat, *available as nat));
                }
                s
            },
        }
    }
}

/// Whether the copy hashes the bytes as it writes them: only a copy from the
/// start of the file, and not for CRC-32.
pub open spec fn hashes_while_copying(start_offset: u64, algorithm: Option<HashAlgorithm>) -> bool {
    start_offset == 0 && match algorithm {
        Some(a) => a != HashAlgorithm::Crc32,
        None => false,
    }
}

/// How many bytes the reader takes next: a buffer's worth or what is left of
/// the file, nothing once it has reached the end.
pub open spec fn spec_next_read_len(file_len: u64, read_pos: u64, buffer_size: usize) -> Option<u64> {
    if read_pos >= file_len {
        None
    } else if (buffer_size as u64) < file_len - read_pos {
        Some(buffer_size as u64)
    } else {
        Some((file_len - read_pos) as u64)
    }
}

/// The reader, from any position within the file, takes a non-empty chunk of
/// at most a buffer that stays within the file, and stops exactly at its end:
/// its reads cover the rest of the file once, and the reading ends.
pub proof fn law_reads_cover_rest_of_file(file_len: u64, read_pos: u64, buffer_size: usize)
    requires
        buffer_size > 0,
        read_pos <= file_len,
    ensures
        spec_next_read_len(file_len, read_pos, buffer_size) is None <==> read_pos == file_len,
        spec_next_read_len(file_len, read_pos, buffer_size) matches Some(n) ==> 0 < n <= buffer_size
            && read_pos + n <= file_len,
{
}

/// The sum of the progress a copy reports for its chunks: each chunk's length.
pub open spec fn reported_total(chunks: Seq<Seq<u8>>) -> nat
    decreases chunks.len(),
{
    if chunks.len() == 0 {
        0
    } else {
        reported_total(chunks.drop_last()) + chunks.last().len()
    }
}

/// Sessions `ss` of one copy fed `chunks` one after another, as
/// `accept_chunk` leaves them.
pub open spec fn chunks_accepted(ss: Seq<CopySession>, chunks: Seq<Seq<u8>>) -> bool {
    &&& ss.len() == chunks.len() + 1
    &&& ss[0].written() == Seq::<u8>::empty()
    &&& ss[0].bytes_copied() == ss[0].start_offset()
    &&& forall|k: int| 0 <= k < chunks.len() ==> {
        &&& #[trigger] ss[k + 1].written() == ss[k].written() + chunks[k]
        &&& ss[k + 1].bytes_copied() == ss[k].bytes_copied() + chunks[k].len()
        &&& ss[k + 1].start_offset() == ss[k].start_offset()
    }
}

proof fn lemma_progress_prefix(ss: Seq<CopySession>, chunks: Seq<Seq<u8>>, i: int)
    requires
        chunks_accepted(ss, chunks),
        0 <= i <= chunks.len(),
    ensures
        ss[i].written() == chunks.take(i).flatten(),
        ss[i].bytes_copied() == ss[0].start_offset() + reported_total(chunks.take(i)),
        ss[i].start_offset() == ss[0].start_offset(),
    decreases i,
{
    if i == 0 {
        assert(chunks.take(0) =~= Seq::<Seq<u8>>::empty());
    } else {
        lemma_progress_prefix(ss, chunks, i - 1);
        assert(chunks.take(i) =~= chunks.take(i - 1).push(chunks[i - 1]));
        chunks.take(i - 1).lemma_flatten_push(chunks[i - 1]);
        assert(chunks.take(i).drop_last() =~= chunks.take(i - 1));
        assert(ss[i].written() == ss[i - 1].written() + chunks[i - 1]);
    }
}

/// Progress adds up: a copy that starts with nothing written and is fed its
/// chunks in order has written exactly their concatenation, and its byte
/// count (what `finish` reports) is the start offset plus the sum of the
/// progress it reported for the chunks.
pub proof fn law_progress_adds_up(ss: Seq<CopySession>, chunks: Seq<Seq<u8>>)
    requires
        chunks_accepted(ss, chunks),
    ensures
        ss.last().written() == chunks.flatten(),
        ss.last().bytes_copied() == ss[0].start_offset() + reported_total(chunks),
{
    lemma_progress_prefix(ss, chunks, chunks.len() as int);
    assert(chunks.take(chunks.len() as int) =~= chunks);
}

/// The length of the next read of a chunked copy.
pub fn next_read_len(file_len: u64, read_pos: u64, buffer_size: usize) -> (r: Option<u64>)
    ensures
        r == spec_next_read_len(file_len, read_pos, buffer_size),
{
    if read_pos >= file_len {
        None
    } else if (buffer_size as u64) < file_len - read_pos {
        Some(buffer_size as u64)
    } else {
        Some(file_len - read_pos)
    }
}

/// What a copy does before its next chunk.
pub enum ChunkGate {
    /// Stop the copy with this error: the job was cancelled.
    Stop(String),
    /// Wait a moment and ask again: the job is paused.
    Hold,
    /// Go on with the chunk.
    Go,
}

/// Decides, before each chunk of a copy, from the job's cancel and pause
/// flags: a cancelled job stops (even while paused), a paused one holds,
/// else the copy goes on.
pub fn chunk_gate(cancelled: bool, paused: bool) -> (g: ChunkGate)
    ensures
        cancelled ==> (g matches ChunkGate::Stop(m) && m@ == crate::engine::queue::cancelled_text()),
        !cancelled && paused ==> g is Hold,
        !cancelled && !paused ==> g is Go,
{
    if cancelled {
        ChunkGate::Stop(crate::engine::queue::cancelled_error())
    } else if paused {
        ChunkGate::Hold
    } else {
        ChunkGate::Go
    }
}

/// The bookkeeping of one chunked copy of a file: where it started, how many
/// bytes it has written, and the checksum of the written bytes when it
/// hashes while copying.
pub struct CopySession {
    start_offset: u64,
    file_len: u64,
    buffer_size: usize,
    bytes_copied: u64,
    algorithm: Option<HashAlgorithm>,
    hasher: Option<StreamingHasher>,
    written: Ghost<Seq<u8>>,
}

impl CopySession {
    pub closed spec fn start_offset(&self) -> u64 {
        self.start_offset
    }

    pub closed spec fn file_len(&self) -> u64 {
        self.file_len
    }

    pub closed spec fn buffer_size(&self) -> usize {
        self.buffer_size
    }

    /// The byte count reported at the end: the start offset plus the bytes written.
    pub closed spec fn bytes_copied(&self) -> u64 {
        self.bytes_copied
    }

    /// The algorithm asked for.
    pub closed spec fn algorithm(&self) -> Option<HashAlgorithm> {
        self.algorithm
    }

    /// The bytes written so far in this session, in order.
    pub closed spec fn written(&self) -> Seq<u8> {
        self.written@
    }

    pub closed spec fn wf(&self) -> bool {
        &&& self.bytes_copied == self.start_offset + self.written@.len()
        &&& (self.hasher is Some) == hashes_while_copying(self.start_offset, self.algorithm)
        &&& self.hasher matches Some(h) ==> h.input() == self.written@ && Some(h.algorithm())
            == self.algorithm
    }

    /// Starts a copy of a source of `file_len` bytes from `start_offset`. The
    /// copy is refused when the size recorded when the job was queued is known
    /// and differs.
    pub fn begin(
        start_offset: u64,
        expected_size: Option<u64>,
        file_len: u64,
        algorithm: Option<HashAlgorithm>,
    ) -> (r: Result<CopySession, CopyError>)
        ensures
            r is Err <==> (expected_size matches Some(e) && e != file_len),
            r matches Err(err) ==> err == (CopyError::SizeChanged { expected: expected_size->0, actual: file_len }),
            r matches Ok(s) ==> {
                &&& s.wf()
                &&& s.start_offset() == start_offset
                &&& s.file_len() == file_len
                &&& s.buffer_size() == spec_buffer_size(file_len)
                &&& s.algorithm() == algorithm
                &&& s.bytes_copied() == start_offset
                &&& s.written() == Seq::<u8>::empty()
            },
    {
        if let Some(expected) = expected_size {
            if expected != file_len {
                return Err(CopyError::SizeChanged { expected, actual: file_len });
            }
        }
        let hashes = start_offset == 0 && match algorithm {
            Some(a) => !matches!(a, HashAlgorithm::Crc32),
            None => false,
        };
        let hasher = if hashes {
            match algorithm {
                Some(a) => Some(StreamingHasher::new(a)),
                None => None,
            }
        } else {
            None
        };
        Ok(CopySession {
            start_offset,
            file_len,
            buffer_size: get_adaptive_buffer_size(file_len),
            bytes_copied: start_offset,
            algorithm,
            hasher,
            written: Ghost(Seq::empty()),
        })
    }

    /// The destination is truncated when the copy starts from the beginning.
    pub fn truncates_destination(&self) -> (r: bool)
        ensures
            r == (self.start_offset() == 0),
    {
        self.start_offset == 0
    }

    /// Both files are positioned at the start offset when it lies inside the file.
    pub fn needs_seek(&self) -> (r: bool)
        ensures
            r == (self.start_offset() > 0 && self.start_offset() < self.file_len()),
    {
        self.start_offset > 0 && self.start_offset < self.file_len
    }

    /// The chunk size for this file.
    pub fn chunk_size(&self) -> (r: usize)
        ensures
            r == self.buffer_size(),
    {
        self.buffer_size
    }

    /// The first position the reader reads from.
    pub fn read_start(&self) -> (r: u64)
        ensures
            r == self.start_offset(),
    {
        self.start_offset
    }

    /// Records a chunk written to the destination: it is hashed when the
    /// session hashes, and counted. Returns the progress to report.
    pub fn accept_chunk(&mut self, chunk: &[u8]) -> (n: u64)
        requires
            old(self).wf(),
            old(self).bytes_copied() + chunk@.len() <= u64::MAX,
        ensures
            final(self).wf(),
            n == chunk@.len(),
            final(self).written() == old(self).written() + chunk@,
            final(self).bytes_copied() == old(self).bytes_copied() + chunk@.len(),
            final(self).start_offset() == old(self).start_offset(),
            final(self).file_len() == old(self).file_len(),
            final(self).buffer_size() == old(self).buffer_size(),
            final(self).algorithm() == old(self).algorithm(),
    {
        let n = chunk.len() as u64;
        if chunk.len() > 0 {
            match &mut self.hasher {
                Some(h) => h.update(chunk),
                None => {},
            }
        } else {
            proof {
                assert(chunk@ =~= Seq::<u8>::empty());
                if self.hasher is Some {
                    assert(self.hasher->0.input() + chunk@ =~= self.hasher->0.input());
                }
            }
        }
        self.written = Ghost(self.written@ + chunk@);
        self.bytes_copied = self.bytes_copied + n;
        n
    }

    /// The bytes copied so far (start offset included).
    pub fn bytes_copied_now(&self) -> (r: u64)
        ensures
            r == self.bytes_copied(),
    {
        self.bytes_copied
    }

    /// Ends the copy: the start offset plus the bytes written, and, when the
    /// session hashes, the checksum of exactly the bytes written.
    pub fn finish(self) -> (r: (u64, Option<String>))
        requires
            self.wf(),
        ensures
            r.0 == self.start_offset() + self.written().len(),
            hashes_while_copying(self.start_offset(), self.algorithm()) ==> (r.1 matches Some(h)
                && h@ == hash_hex(self.algorithm()->0, self.written())),
            !hashes_while_copying(self.start_offset(), self.algorithm()) ==> r.1 is None,
    {
        let hash = match self.hasher {
            Some(h) => Some(h.finalize()),
            None => None,
        };
        (self.bytes_copied, hash)
    }
}

} // verus!
