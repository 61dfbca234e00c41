//! How job and file records map to database rows: SQLite stores integers as
//! signed 64-bit values, so byte counts go in and out by the same
//! two's-complement reinterpretation that `as` performs.
use vstd::prelude::*;
use crate::engine::{FileStatus, JobStatus, TransferFile, TransferJob};
use crate::cli::views;
use crate::text::owned;

verus! {

/// The signed value with the same 64 bits as `x` (what `x as i64` gives).
pub open spec fn spec_u64_to_sql(x: u64) -> int {
    if x <= i64::MAX {
        x as int
    } else {
        x as int - 0x1_0000_0000_0000_0000
    }
}

/// The unsigned value with the same 64 bits as `x` (what `x as u64` gives).
pub open spec fn spec_sql_to_u64(x: i64) -> int {
    if x >= 0 {
        x as int
    } else {
        x as int + 0x1_0000_0000_0000_0000
    }
}

/// Stores an unsigned count in a signed column.
pub fn u64_to_sql(x: u64) -> (r: i64)
    ensures
        r == spec_u64_to_sql(x),
{
    if x <= i64::MAX as u64 {
        x as i64
    } else {
        let d: u64 = x - 0x8000_0000_0000_0000;
        (d as i64) + i64::MIN
    }
}

/// Reads an unsigned count back from a signed column.
pub fn sql_to_u64(x: i64) -> (r: u64)
    ensures
        r == spec_sql_to_u64(x),
{
    if x >= 0 {
        x as u64
    } else {
        let d: i64 = x - i64::MIN;
        (d as u64) + 0x8000_0000_0000_0000
    }
}

/// Every byte count reads back as it was stored, and every stored value is
/// the image of exactly one count.
pub proof fn law_counts_read_back_as_stored(x: u64, y: i64)
    ensures
        spec_sql_to_u64(spec_u64_to_sql(x) as i64) == x,
        spec_u64_to_sql(spec_sql_to_u64(y) as u64) == y,
{
}

/// The column value of the move flag: one for a move, zero for a copy.
pub fn bool_to_sql(b: bool) -> (r: i32)
    ensures
        r == (if b { 1i32 } else { 0i32 }),
{
    if b {
        1
    } else {
        0
    }
}

/// Reads the move flag back: any non-zero value is a move.
pub fn sql_to_bool(x: i32) -> (b: bool)
    ensures
        b == (x != 0),
{
    x != 0
}

/// The move flag reads back as stored.
pub proof fn law_flag_reads_back_as_stored(b: bool)
    ensures
        ((if b { 1i32 } else { 0i32 }) != 0) == b,
{
}

/// The integer columns of a job row.
pub struct JobCounts {
    pub bytes_total: i64,
    pub bytes_done: i64,
    pub speed_bps: i64,
}

/// The integer columns a job is stored with.
pub fn job_counts(job: &TransferJob) -> (c: JobCounts)
    ensures
        c.bytes_total == spec_u64_to_sql(job.bytes_total),
        c.bytes_done == spec_u64_to_sql(job.bytes_done),
        c.speed_bps == spec_u64_to_sql(job.speed_bps),
{
    JobCounts {
        bytes_total: u64_to_sql(job.bytes_total),
        bytes_done: u64_to_sql(job.bytes_done),
        speed_bps: u64_to_sql(job.speed_bps),
    }
}

/// A job read back from its row; its files are read separately.
pub fn job_from_row(
    id: u128,
    src_paths: Vec<String>,
    dest_dir: String,
    is_move: i32,
    status: JobStatus,
    counts: JobCounts,
    started_at: Option<i64>,
    finished_at: Option<i64>,
) -> (job: TransferJob)
    ensures
        job.id == id,
        job.src_paths == src_paths,
        job.dest_dir == dest_dir,
        job.is_move == (is_move != 0),
        job.status == status,
        job.files@.len() == 0,
        job.bytes_total == spec_sql_to_u64(counts.bytes_total),
        job.bytes_done == spec_sql_to_u64(counts.bytes_done),
        job.speed_bps == spec_sql_to_u64(counts.speed_bps),
        job.started_at == started_at,
        job.finished_at == finished_at,
{
    TransferJob {
        id,
        src_paths,
        dest_dir,
        is_move: sql_to_bool(is_move),
        status,
        files: Vec::new(),
        bytes_total: sql_to_u64(counts.bytes_total),
        bytes_done: sql_to_u64(counts.bytes_done),
        speed_bps: sql_to_u64(counts.speed_bps),
        started_at,
        finished_at,
    }
}

/// A file read back from its row.
pub fn file_from_row(
    src: String,
    dest: String,
    bytes_total: i64,
    bytes_done: i64,
    status: FileStatus,
    hash_src: Option<String>,
    hash_dest: Option<String>,
    error: Option<String>,
) -> (f: TransferFile)
    ensures
        f.src == src,
        f.dest == dest,
        f.bytes_total == spec_sql_to_u64(bytes_total),
        f.bytes_done == spec_sql_to_u64(bytes_done),
        f.status == status,
        f.hash_src == hash_src,
        f.hash_dest == hash_dest,
        f.error == error,
{
    TransferFile {
        src,
        dest,
        bytes_total: sql_to_u64(bytes_total),
        bytes_done: sql_to_u64(bytes_done),
        status,
        hash_src,
        hash_dest,
        error,
    }
}

/// The JSON text `serde_json::to_string` gives for a list of strings.
pub uninterp spec fn json_of_strings(v: Seq<Seq<char>>) -> Seq<char>;

/// The list of strings `serde_json::from_str` reads from a JSON text, if it reads one.
pub uninterp spec fn strings_of_json(text: Seq<char>) -> Option<Seq<Seq<char>>>;

/// `serde_json::to_string` on a list of strings. By the crate's documentation
/// it fails only for a failing `Serialize` or a map with non-string keys,
/// neither of which a list of strings has, so a text always comes back; and
/// `serde_json::from_str` reads that text back as the same list (every
/// string is written as a JSON string with its characters escaped).
#[verifier::external_body]
fn strings_to_json(v: &Vec<String>) -> (r: Option<String>)
    ensures
        r is Some,
        r->0@ == json_of_strings(views(v@)),
        strings_of_json(r->0@) == Some(views(v@)),
{
    serde_json::to_string(v).ok()
}

/// `serde_json::from_str::<Vec<String>>`: the list a JSON text holds, if it
/// holds a list of strings.
#[verifier::external_body]
fn json_to_strings(text: &str) -> (r: Option<Vec<String>>)
    ensures
        r matches Some(v) ==> strings_of_json(text@) == Some(views(v@)),
        r is None ==> strings_of_json(text@) is None,
{
    serde_json::from_str::<Vec<String>>(text).ok()
}

/// The column text of a job's source paths: their JSON list (empty text if
/// it could not be made).
pub fn encode_src_paths(paths: &Vec<String>) -> (t: String)
    ensures
        t@ == json_of_strings(views(paths@)),
        strings_of_json(t@) == Some(views(paths@)),
{
    match strings_to_json(paths) {
        Some(t) => t,
        None => owned(""),
    }
}

/// The source paths read back from their column: the JSON list, or none when
/// the text is not a list of strings.
pub fn decode_src_paths(text: &str) -> (v: Vec<String>)
    ensures
        strings_of_json(text@) matches Some(l) ==> views(v@) == l,
        strings_of_json(text@) is None ==> v@.len() == 0,
{
    match json_to_strings(text) {
        Some(v) => v,
        None => Vec::new(),
    }
}

/// The source paths of a job read back from their column as they were
/// written: decoding (`back`) the text that encoding gave gives the same list.
pub proof fn law_source_paths_read_back(paths: Seq<Seq<char>>, text: Seq<char>, back: Seq<Seq<char>>)
    requires
        strings_of_json(text) == Some(paths),
        strings_of_json(text) matches Some(l) ==> back == l,
    ensures
        back == paths,
{
}

} // verus!
