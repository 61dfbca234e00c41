use copytej::engine::queue::{new_job, queued_file};
use copytej::engine::{FileStatus, JobStatus};
use copytej::store::db::{
    bool_to_sql, file_from_row, job_counts, job_from_row, sql_to_bool, sql_to_u64, u64_to_sql,
};

#[test]
fn counts_round_trip_through_signed_columns() {
    for x in [0u64, 1, 500, i64::MAX as u64, i64::MAX as u64 + 1, u64::MAX - 1, u64::MAX] {
        assert_eq!(u64_to_sql(x), x as i64);
        assert_eq!(sql_to_u64(u64_to_sql(x)), x);
    }
    for y in [0i64, -1, i64::MIN, i64::MAX, 42] {
        assert_eq!(sql_to_u64(y), y as u64);
    }
    assert_eq!(bool_to_sql(true), 1);
    assert_eq!(bool_to_sql(false), 0);
    assert!(sql_to_bool(2));
    assert!(!sql_to_bool(0));
}

#[test]
fn a_job_reads_back_from_its_row() {
    let files = vec![queued_file("src/path/file.txt".to_string(), "dest/path/file.txt".to_string(), 1000)];
    let mut job = new_job(77, vec!["src/path/file.txt".to_string()], "dest/path".to_string(), false, files, 5).unwrap();
    job.bytes_done = 500;
    job.speed_bps = 100;
    let counts = job_counts(&job);
    let back = job_from_row(
        job.id,
        job.src_paths.clone(),
        job.dest_dir.clone(),
        bool_to_sql(job.is_move),
        JobStatus::Queued,
        counts,
        job.started_at,
        job.finished_at,
    );
    assert_eq!(back.id, 77);
    assert_eq!(back.dest_dir, "dest/path");
    assert_eq!(back.bytes_total, 1000);
    assert_eq!(back.bytes_done, 500);
    assert_eq!(back.speed_bps, 100);
    assert!(!back.is_move);
    assert!(back.files.is_empty());
    let f = file_from_row(
        "src/path/file.txt".to_string(),
        "dest/path/file.txt".to_string(),
        1000,
        500,
        FileStatus::Copying,
        None,
        None,
        None,
    );
    assert_eq!(f.bytes_done, 500);
    assert_eq!(f.status, FileStatus::Copying);
}
