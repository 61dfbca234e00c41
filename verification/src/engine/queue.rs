//! The decisions of the job queue: which job runs next, how a finished job
//! ends, how settings are read, when a failed copy is retried, how a copied
//! file is verified, and how a new job is put together.
use vstd::prelude::*;
use std::collections::HashSet;
use crate::engine::{CopyError, FileStatus, JobStatus, TransferEngine, TransferFile, TransferJob};
use crate::engine::conflict::ConflictManager;
use crate::ids::{job_id_text, uuid_text};
use crate::engine::hasher::HashAlgorithm;
use crate::text::{contains, contains_spec, decimal, parse_u64, parse_u64_spec, push_str, str_eq, u64_to_decimal, owned};

verus! {

broadcast use vstd::std_specs::hash::group_hash_axioms;

/// The error text of a copy stopped by its cancel flag.
pub open spec fn cancelled_text() -> Seq<char> {
    "Operation cancelled"@
}

/// The error of a copy stopped by its cancel flag.
pub fn cancelled_error() -> (s: String)
    ensures
        s@ == cancelled_text(),
{
    owned("Operation cancelled")
}

/// A job may be started: it is queued and not already running.
pub open spec fn startable(job: TransferJob, running: Set<u128>) -> bool {
    job.status is Queued && !running.contains(job.id)
}

/// The jobs the worker has started and not yet finished.
pub struct RunningJobs {
    ids: HashSet<u128>,
}

impl RunningJobs {
    pub closed spec fn view(&self) -> Set<u128> {
        self.ids@
    }

    /// No job running.
    pub fn new() -> (r: RunningJobs)
        ensures
            r@ == Set::<u128>::empty(),
    {
        RunningJobs { ids: HashSet::new() }
    }

    /// Whether the job is running.
    pub fn contains(&self, id: u128) -> (r: bool)
        ensures
            r == self@.contains(id),
    {
        self.ids.contains(&id)
    }

    /// Picks the first job of `jobs` that is queued and not running, and marks
    /// it running. Returns its position, or nothing (and changes nothing)
    /// when no job can start.
    pub fn pick_next(&mut self, jobs: &[TransferJob]) -> (r: Option<usize>)
        ensures
            r matches Some(i) ==> {
                &&& i < jobs@.len()
                &&& startable(jobs@[i as int], old(self)@)
                &&& forall|j: int| 0 <= j < i ==> !startable(#[trigger] jobs@[j], old(self)@)
                &&& final(self)@ == old(self)@.insert(jobs@[i as int].id)
            },
            r is None ==> {
                &&& forall|j: int| 0 <= j < jobs@.len() ==> !startable(#[trigger] jobs@[j], old(self)@)
                &&& final(self)@ == old(self)@
            },
    {
        let mut i: usize = 0;
        while i < jobs.len()
            invariant
                i <= jobs@.len(),
                self@ == old(self)@,
                forall|j: int| 0 <= j < i ==> !startable(#[trigger] jobs@[j], old(self)@),
            decreases jobs.len() - i,
        {
            let job = &jobs[i];
            let queued = matches!(job.status, JobStatus::Queued);
            if queued && !self.ids.contains(&job.id) {
                self.ids.insert(job.id);
                return Some(i);
            }
            i = i + 1;
        }
        None
    }

    /// Marks the job as no longer running.
    pub fn finish(&mut self, id: u128)
        ensures
            final(self)@ == old(self)@.remove(id),
    {
        self.ids.remove(&id);
    }
}

/// Forgets a job whose run has ended: it is no longer running, it has no
/// pause or cancel flag, and its standing conflict answer is gone. Nothing
/// else changes, so the job can be picked again once it is queued again.
pub fn finish_job(
    running: &mut RunningJobs,
    engine: &mut TransferEngine,
    conflicts: &mut ConflictManager,
    id: u128,
)
    requires
        old(conflicts).wf(),
    ensures
        final(running)@ == old(running)@.remove(id),
        !final(running)@.contains(id),
        final(engine).pause_map() == old(engine).pause_map().remove(id),
        final(engine).cancel_map() == old(engine).cancel_map().remove(id),
        !final(engine).pause_map().contains_key(id) && !final(engine).cancel_map().contains_key(id),
        final(engine).limiter() == old(engine).limiter(),
        final(conflicts).wf(),
        final(conflicts).resolutions() == old(conflicts).resolutions().remove(uuid_text(id)),
        !final(conflicts).resolutions().contains_key(uuid_text(id)),
        final(conflicts).asks() == old(conflicts).asks(),
{
    running.finish(id);
    engine.remove_job_flags(id);
    let text = job_id_text(id);
    conflicts.clear_job(text.as_str());
}

/// A job that was just picked cannot be picked again until it is finished.
pub proof fn law_no_double_start(job: TransferJob, running: Set<u128>)
    ensures
        !startable(job, running.insert(job.id)),
        job.status is Queued ==> startable(job, running.insert(job.id).remove(job.id)),
{
}

/// How a job ends: done when its run succeeded; paused or cancelled when the
/// run was cancelled, according to its pause flag; otherwise in error with
/// the run's message.
pub fn final_job_status(result: &Result<(), String>, paused: bool) -> (s: JobStatus)
    ensures
        result is Ok ==> s is Done,
        result is Err ==> {
            let e = result->Err_0;
            &&& e@ == cancelled_text() && paused ==> s is Paused
            &&& e@ == cancelled_text() && !paused ==> s is Canceled
            &&& e@ != cancelled_text() ==> (s matches JobStatus::Error(m) && m@ == e@)
        },
{
    match result {
        Ok(()) => JobStatus::Done,
        Err(e) => {
            if str_eq(e.as_str(), "Operation cancelled") {
                if paused {
                    JobStatus::Paused
                } else {
                    JobStatus::Canceled
                }
            } else {
                JobStatus::Error(e.clone())
            }
        },
    }
}

/// A boolean setting: on unless its stored text is
/// other than `true`; a missing setting (or one that could not be read) is on.
pub open spec fn spec_flag_setting(value: Option<Seq<char>>) -> bool {
    match value {
        Some(v) => v == "true"@,
        None => true,
    }
}

/// Reads a boolean setting (`auto_verify`, `enable_block_cloning`).
pub fn flag_setting(value: &Option<String>) -> (b: bool)
    ensures
        b == spec_flag_setting(match value { Some(v) => Some(v@), None => None }),
{
    match value {
        Some(v) => str_eq(v.as_str(), "true"),
        None => true,
    }
}

/// The checksum algorithm a `hash_algorithm` setting names; BLAKE3 when it
/// names none of the others or is missing.
pub open spec fn spec_algorithm_setting(value: Option<Seq<char>>) -> HashAlgorithm {
    match value {
        Some(v) => if v == "XxHash3"@ {
            HashAlgorithm::XxHash3
        } else if v == "Crc32"@ {
            HashAlgorithm::Crc32
        } else if v == "Md5"@ {
            HashAlgorithm::Md5
        } else if v == "Sha256"@ {
            HashAlgorithm::Sha256
        } else {
            HashAlgorithm::Blake3
        },
        None => HashAlgorithm::Blake3,
    }
}

/// Reads the `hash_algorithm` setting.
pub fn algorithm_setting(value: &Option<String>) -> (a: HashAlgorithm)
    ensures
        a == spec_algorithm_setting(match value { Some(v) => Some(v@), None => None }),
{
    match value {
        Some(v) => {
            if str_eq(v.as_str(), "XxHash3") {
                HashAlgorithm::XxHash3
            } else if str_eq(v.as_str(), "Crc32") {
                HashAlgorithm::Crc32
            } else if str_eq(v.as_str(), "Md5") {
                HashAlgorithm::Md5
            } else if str_eq(v.as_str(), "Sha256") {
                HashAlgorithm::Sha256
            } else {
                HashAlgorithm::Blake3
            }
        },
        None => HashAlgorithm::Blake3,
    }
}

/// The speed limit a `speed_limit_kbps` setting gives: its decimal value, or
/// zero (no limit) when it is missing or not a valid number.
pub open spec fn spec_speed_limit_setting(value: Option<Seq<char>>) -> u64 {
    match value {
        Some(v) => match parse_u64_spec(v) {
            Some(n) => n,
            None => 0,
        },
        None => 0,
    }
}

/// Reads the `speed_limit_kbps` setting.
pub fn speed_limit_setting(value: &Option<String>) -> (n: u64)
    ensures
        n == spec_speed_limit_setting(match value { Some(v) => Some(v@), None => None }),
{
    match value {
        Some(v) => match parse_u64(v.as_str()) {
            Some(n) => n,
            None => 0,
        },
        None => 0,
    }
}

/// The new speed limit that storing a setting brings: the parsed value (zero
/// when invalid) when the key is `speed_limit_kbps`, nothing for other keys.
pub fn speed_limit_update(key: &str, value: &str) -> (r: Option<u64>)
    ensures
        key@ == "speed_limit_kbps"@ ==> r == Some(spec_speed_limit_setting(Some(value@))),
        key@ != "speed_limit_kbps"@ ==> r is None,
{
    if str_eq(key, "speed_limit_kbps") {
        match parse_u64(value) {
            Some(n) => Some(n),
            None => Some(0),
        }
    } else {
        None
    }
}

/// A file still to transfer: neither done nor skipped.
pub open spec fn spec_needs_transfer(status: FileStatus) -> bool {
    !(status is Done || status is Skipped)
}

/// Whether the file still has to be transferred.
pub fn needs_transfer(status: &FileStatus) -> (b: bool)
    ensures
        b == spec_needs_transfer(*status),
{
    !(matches!(status, FileStatus::Done) || matches!(status, FileStatus::Skipped))
}

/// The bytes a file still has to copy: none once it is done or skipped.
pub open spec fn remaining_bytes(f: TransferFile) -> nat {
    if spec_needs_transfer(f.status) && f.bytes_total >= f.bytes_done {
        (f.bytes_total - f.bytes_done) as nat
    } else {
        0
    }
}

/// The bytes a job still has to copy.
pub open spec fn bytes_to_copy(files: Seq<TransferFile>) -> nat
    decreases files.len(),
{
    if files.len() == 0 {
        0
    } else {
        bytes_to_copy(files.drop_last()) + remaining_bytes(files.last())
    }
}

/// Decides, before any file is copied, whether the destination has room for
/// what the job still has to copy. Without a known amount of free space the
/// job goes ahead.
pub fn check_free_space(files: &Vec<TransferFile>, available: Option<u64>) -> (r: Result<(), CopyError>)
    ensures
        available is None ==> r is Ok,
        available matches Some(a) ==> (r is Err <==> bytes_to_copy(files@) > a),
        r matches Err(e) ==> e == (CopyError::InsufficientSpace {
            needed: bytes_to_copy(files@) as u128,
            available: available->0,
        }),
        bytes_to_copy(files@) <= u128::MAX,
{
    let mut sum: u128 = 0;
    let mut i: usize = 0;
    while i < files.len()
        invariant
            i <= files@.len(),
            sum == bytes_to_copy(files@.take(i as int)),
            sum <= i as int * (u64::MAX as int),
        decreases files.len() - i,
    {
        assert(files@.take(i + 1).drop_last() =~= files@.take(i as int));
        let f = &files[i];
        let add: u64 = if needs_transfer(&f.status) && f.bytes_total >= f.bytes_done {
            f.bytes_total - f.bytes_done
        } else {
            0
        };
        assert((i as int + 1) * (u64::MAX as int) <= u128::MAX) by (nonlinear_arith)
            requires
                i < 0x1_0000_0000_0000_0000int,
        ;
        sum = sum + add as u128;
        i = i + 1;
    }
    assert(files@.take(files@.len() as int) =~= files@);
    match available {
        None => Ok(()),
        Some(a) => {
            if sum > a as u128 {
                Err(CopyError::InsufficientSpace { needed: sum, available: a })
            } else {
                Ok(())
            }
        },
    }
}

/// The most retries after a failed copy attempt.
pub const MAX_RETRIES: u32 = 3;

/// The pause, in seconds, before a failed copy is tried again.
pub const RETRY_PAUSE_SECS: u64 = 5;

/// Copy errors that no retry can cure: a cancellation, a changed source size.
pub open spec fn spec_is_final_copy_error(err: Seq<char>) -> bool {
    contains_spec(err, "cancelled"@) || contains_spec(err, "size changed"@)
}

/// After a failed attempt with `retries` retries so far: the new retry count
/// when the copy is tried again (after a pause), or nothing when it gives up.
pub open spec fn spec_retry_after_failure(err: Seq<char>, retries: u32) -> Option<u32> {
    if spec_is_final_copy_error(err) || retries >= MAX_RETRIES {
        None
    } else {
        Some((retries + 1) as u32)
    }
}

/// Decides whether a failed copy attempt is tried again.
pub fn retry_after_failure(err: &str, retries: u32) -> (r: Option<u32>)
    ensures
        r == spec_retry_after_failure(err@, retries),
{
    if contains(err, "cancelled") || contains(err, "size changed") {
        return None;
    }
    if retries >= MAX_RETRIES {
        None
    } else {
        Some(retries + 1)
    }
}

/// Only a cancellation or a changed source size ends a copy at once: any
/// other failure (an I/O error of any kind) is tried again, up to three
/// retries, each raising the count by one; after the third it gives up.
pub proof fn law_other_failures_are_retried(err: Seq<char>, retries: u32)
    ensures
        MAX_RETRIES == 3,
        !contains_spec(err, "cancelled"@) && !contains_spec(err, "size changed"@) && retries < 3
            ==> spec_retry_after_failure(err, retries) == Some((retries + 1) as u32),
        contains_spec(err, "cancelled"@) || contains_spec(err, "size changed"@) ==> spec_retry_after_failure(
            err,
            retries,
        ) is None,
        retries >= 3 ==> spec_retry_after_failure(err, retries) is None,
{
}

/// A run transfers every file that is not finished: a file still needs it
/// exactly when it is neither done nor skipped, so a queued file, one whose
/// copy or verification was interrupted, and one that failed are all taken
/// up again when the job resumes.
pub proof fn law_unfinished_files_are_transferred(s: FileStatus)
    ensures
        spec_needs_transfer(s) <==> !(s is Done || s is Skipped),
        s is Queued ==> spec_needs_transfer(s),
        s is Copying ==> spec_needs_transfer(s),
        s is Verifying ==> spec_needs_transfer(s),
        s is Error ==> spec_needs_transfer(s),
        s is Done ==> !spec_needs_transfer(s),
        s is Skipped ==> !spec_needs_transfer(s),
{
}

/// A copy is attempted at most `MAX_RETRIES + 1` times: each retry raises the
/// count, and none follows the last allowed one.
pub proof fn law_retries_bounded(err: Seq<char>, retries: u32)
    requires
        retries <= MAX_RETRIES,
    ensures
        spec_retry_after_failure(err, retries) matches Some(n) ==> retries < n <= MAX_RETRIES,
        spec_retry_after_failure(err, MAX_RETRIES) is None,
        spec_is_final_copy_error(err) ==> spec_retry_after_failure(err, retries) is None,
{
}

/// The text that `format!("{:?}", s)` gives for a string: quoted and escaped.
pub uninterp spec fn string_debug_text(s: Seq<char>) -> Seq<char>;

/// `format!("{:?}", s)` on a string slice.
#[verifier::external_body]
fn string_debug(s: &str) -> (r: String)
    ensures
        r@ == string_debug_text(s@),
{
    format!("{:?}", s)
}

/// `format!("{:?}", o)` on an optional error text: `None`, or `Some(` and the
/// quoted text and `)`.
pub open spec fn option_debug_text(o: Option<Seq<char>>) -> Seq<char> {
    match o {
        Some(s) => "Some("@ + string_debug_text(s) + ")"@,
        None => "None"@,
    }
}

fn option_debug(o: &Option<String>) -> (r: String)
    ensures
        r@ == option_debug_text(match o { Some(s) => Some(s@), None => None }),
{
    match o {
        Some(s) => {
            let mut r = owned("Some(");
            let d = string_debug(s.as_str());
            push_str(&mut r, d.as_str());
            push_str(&mut r, ")");
            r
        },
        None => owned("None"),
    }
}

/// The error of a verification whose checksums could not both be computed.
pub open spec fn verification_failed_text(src_err: Option<Seq<char>>, dest_err: Option<Seq<char>>) -> Seq<char> {
    "Verification failed: Src: "@ + option_debug_text(src_err) + ", Dest: "@ + option_debug_text(dest_err)
}

/// The text of a checksum mismatch.
pub open spec fn mismatch_text() -> Seq<char> {
    "Checksum mismatch"@
}

/// What the verification of a copied file records: its status, the two
/// checksums and the error.
pub struct VerifyOutcome {
    pub status: FileStatus,
    pub hash_src: Option<String>,
    pub hash_dest: Option<String>,
    pub error: Option<String>,
}

fn err_text(r: &Result<String, String>) -> (o: Option<String>)
    ensures
        match o { Some(s) => Some(s@), None => None } == match r { Ok(_) => None::<Seq<char>>, Err(e) => Some(e@) },
{
    match r {
        Ok(_) => None,
        Err(e) => Some(e.clone()),
    }
}

/// Compares the checksums of source and destination: done when they are equal,
/// a mismatch error when not, and a verification error naming both failures
/// when either could not be computed.
pub fn verification_outcome(src: &Result<String, String>, dest: &Result<String, String>) -> (o: VerifyOutcome)
    ensures
        (src is Ok && dest is Ok) ==> {
            let sh = src->Ok_0;
            let dh = dest->Ok_0;
            &&& o.hash_src matches Some(h) && h@ == sh@
            &&& o.hash_dest matches Some(h) && h@ == dh@
            &&& sh@ == dh@ ==> o.status is Done && o.error is None
            &&& sh@ != dh@ ==> (o.status matches FileStatus::Error(m) && m@ == mismatch_text())
                && (o.error matches Some(m) && m@ == mismatch_text())
        },
        !(src is Ok && dest is Ok) ==> {
            let msg = verification_failed_text(
                match src { Ok(_) => None::<Seq<char>>, Err(e) => Some(e@) },
                match dest { Ok(_) => None::<Seq<char>>, Err(e) => Some(e@) },
            );
            &&& o.hash_src is None
            &&& o.hash_dest is None
            &&& o.status matches FileStatus::Error(m) && m@ == msg
            &&& o.error matches Some(m) && m@ == msg
        },
{
    match (src, dest) {
        (Ok(sh), Ok(dh)) => {
            if str_eq(sh.as_str(), dh.as_str()) {
                VerifyOutcome {
                    status: FileStatus::Done,
                    hash_src: Some(sh.clone()),
                    hash_dest: Some(dh.clone()),
                    error: None,
                }
            } else {
                VerifyOutcome {
                    status: FileStatus::Error(owned("Checksum mismatch")),
                    hash_src: Some(sh.clone()),
                    hash_dest: Some(dh.clone()),
                    error: Some(owned("Checksum mismatch")),
                }
            }
        },
        _ => {
            let mut msg = owned("Verification failed: Src: ");
            let a = option_debug(&err_text(src));
            push_str(&mut msg, a.as_str());
            push_str(&mut msg, ", Dest: ");
            let b = option_debug(&err_text(dest));
            push_str(&mut msg, b.as_str());
            proof {
                assert(msg@ =~= verification_failed_text(
                    match src { Ok(_) => None::<Seq<char>>, Err(e) => Some(e@) },
                    match dest { Ok(_) => None::<Seq<char>>, Err(e) => Some(e@) },
                ));
            }
            VerifyOutcome {
                status: FileStatus::Error(msg.clone()),
                hash_src: None,
                hash_dest: None,
                error: Some(msg),
            }
        },
    }
}

/// A moved file's source is deleted once the file is done.
pub fn deletes_source(is_move: bool, status: &FileStatus) -> (b: bool)
    ensures
        b == (is_move && *status is Done),
{
    is_move && matches!(status, FileStatus::Done)
}

/// The overall byte count after a file's copy: at least what progress reports
/// counted, and at least the count before the file plus what the copy added
/// beyond the bytes the file had already done.
pub open spec fn spec_overall_after_copy(before: u64, reported: u64, old_done: u64, written: u64) -> nat {
    let added: nat = if written >= old_done { (written - old_done) as nat } else { 0 };
    let expected: nat = before as nat + added;
    if reported < expected {
        expected
    } else {
        reported as nat
    }
}

/// Settles the job's byte count after a successful copy of one file.
pub fn overall_after_copy(before: u64, reported: u64, old_done: u64, written: u64) -> (r: u64)
    requires
        before + (if written >= old_done { written - old_done } else { 0 }) <= u64::MAX,
    ensures
        r == spec_overall_after_copy(before, reported, old_done, written),
{
    let added = written.saturating_sub(old_done);
    let expected = before + added;
    if reported < expected {
        expected
    } else {
        reported
    }
}

/// The sum of the sizes of files.
pub open spec fn total_bytes(files: Seq<TransferFile>) -> nat
    decreases files.len(),
{
    if files.len() == 0 {
        0
    } else {
        total_bytes(files.drop_last()) + files.last().bytes_total as nat
    }
}

/// A file or directory waiting to be copied, with nothing done yet.
pub fn queued_file(src: String, dest: String, bytes_total: u64) -> (f: TransferFile)
    ensures
        f.src == src,
        f.dest == dest,
        f.bytes_total == bytes_total,
        f.bytes_done == 0,
        f.status is Queued,
        f.hash_src is None,
        f.hash_dest is None,
        f.error is None,
{
    TransferFile {
        src,
        dest,
        bytes_total,
        bytes_done: 0,
        status: FileStatus::Queued,
        hash_src: None,
        hash_dest: None,
        error: None,
    }
}

/// A source moved by renaming it, done at once with no bytes to count.
pub fn renamed_file(src: String, dest: String) -> (f: TransferFile)
    ensures
        f.src == src,
        f.dest == dest,
        f.bytes_total == 0,
        f.bytes_done == 0,
        f.status is Done,
        f.hash_src is None,
        f.hash_dest is None,
        f.error is None,
{
    TransferFile {
        src,
        dest,
        bytes_total: 0,
        bytes_done: 0,
        status: FileStatus::Done,
        hash_src: None,
        hash_dest: None,
        error: None,
    }
}

/// Puts a new job together: queued, nothing done, started at `now`, its size
/// the sum of its files' sizes. Nothing when that sum does not fit in 64 bits
/// (a running sum of the sizes would overflow).
pub fn new_job(
    id: u128,
    src_paths: Vec<String>,
    dest_dir: String,
    is_move: bool,
    files: Vec<TransferFile>,
    now: i64,
) -> (r: Option<TransferJob>)
    ensures
        r is Some <==> total_bytes(files@) <= u64::MAX,
        r matches Some(job) ==> {
            &&& job.id == id
            &&& job.src_paths == src_paths
            &&& job.dest_dir == dest_dir
            &&& job.is_move == is_move
            &&& job.status is Queued
            &&& job.files == files
            &&& job.bytes_total == total_bytes(files@)
            &&& job.bytes_done == 0
            &&& job.speed_bps == 0
            &&& job.started_at == Some(now)
            &&& job.finished_at is None
        },
{
    let mut total: u64 = 0;
    let mut i: usize = 0;
    while i < files.len()
        invariant
            i <= files@.len(),
            total == total_bytes(files@.take(i as int)),
        decreases files.len() - i,
    {
        assert(files@.take(i + 1).drop_last() =~= files@.take(i as int));
        let size = files[i].bytes_total;
        if size > u64::MAX - total {
            proof {
                lemma_total_bytes_prefix(files@, i as int + 1);
            }
            return None;
        }
        total = total + size;
        i = i + 1;
    }
    assert(files@.take(files@.len() as int) =~= files@);
    Some(TransferJob {
        id,
        src_paths,
        dest_dir,
        is_move,
        status: JobStatus::Queued,
        files,
        bytes_total: total,
        bytes_done: 0,
        speed_bps: 0,
        started_at: Some(now),
        finished_at: None,
    })
}

proof fn lemma_total_bytes_prefix(files: Seq<TransferFile>, k: int)
    requires
        0 <= k <= files.len(),
    ensures
        total_bytes(files.take(k)) <= total_bytes(files),
    decreases files.len() - k,
{
    if k < files.len() {
        lemma_total_bytes_prefix(files, k + 1);
        assert(files.take(k + 1).drop_last() =~= files.take(k));
    } else {
        assert(files.take(k) =~= files);
    }
}

/// The title of the notification shown when a job is done.
pub open spec fn completion_title() -> Seq<char> {
    "Transfer Completed"@
}

/// The body of the notification shown when a job is done.
pub open spec fn completion_body(items: nat, dest_dir: Seq<char>) -> Seq<char> {
    "Successfully copied "@ + decimal(items) + " items to "@ + dest_dir
}

/// The title and body of the notification shown when a job with `items` files
/// into `dest_dir` is done.
pub fn completion_notification(items: usize, dest_dir: &str) -> (r: (String, String))
    ensures
        r.0@ == completion_title(),
        r.1@ == completion_body(items as nat, dest_dir@),
{
    let title = owned("Transfer Completed");
    let mut body = owned("Successfully copied ");
    let n = u64_to_decimal(items as u64);
    push_str(&mut body, n.as_str());
    push_str(&mut body, " items to ");
    push_str(&mut body, dest_dir);
    proof {
        assert(body@ =~= completion_body(items as nat, dest_dir@));
    }
    (title, body)
}

/// The error of a job whose source path does not exist.
pub open spec fn missing_source_text(path: Seq<char>) -> Seq<char> {
    "Source path does not exist: "@ + path
}

/// Builds the error of a job whose source path does not exist.
pub fn missing_source_error(path: &str) -> (s: String)
    ensures
        s@ == missing_source_text(path@),
{
    let mut s = owned("Source path does not exist: ");
    push_str(&mut s, path);
    s
}

/// Adds `n` bytes to the job's byte count.
pub fn add_bytes(overall: u64, n: u64) -> (r: u64)
    requires
        overall + n <= u64::MAX,
    ensures
        r == overall + n,
{
    overall + n
}

/// Two paths are on the same volume when the first components of their
/// absolute forms are present and equal; a move on one volume is a rename.
pub fn same_volume(src_root: &Option<String>, dest_root: &Option<String>) -> (b: bool)
    ensures
        b == (src_root is Some && dest_root is Some && src_root->0@ == dest_root->0@),
{
    match (src_root, dest_root) {
        (Some(a), Some(b)) => str_eq(a.as_str(), b.as_str()),
        _ => false,
    }
}

} // verus!
