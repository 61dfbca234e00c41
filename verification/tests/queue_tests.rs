use copytej::engine::queue::{
    add_bytes, algorithm_setting, cancelled_error, completion_notification, deletes_source,
    final_job_status, flag_setting, missing_source_error, needs_transfer, new_job,
    overall_after_copy, queued_file, renamed_file, retry_after_failure, speed_limit_setting,
    speed_limit_update, verification_outcome, RunningJobs, MAX_RETRIES,
};
use copytej::engine::hasher::HashAlgorithm;
use copytej::engine::queue::check_free_space;
use copytej::engine::{CopyError, FileStatus, JobStatus, TransferJob};

fn job(id: u128, status: JobStatus) -> TransferJob {
    new_job(id, vec![], "d".to_string(), false, vec![], 0)
        .map(|mut j| {
            j.status = status;
            j
        })
        .unwrap()
}

#[test]
fn worker_picks_the_first_queued_job_not_running() {
    let jobs = vec![
        job(1, JobStatus::Running),
        job(2, JobStatus::Queued),
        job(3, JobStatus::Queued),
    ];
    let mut running = RunningJobs::new();
    assert_eq!(running.pick_next(&jobs), Some(1));
    assert!(running.contains(2));
    // The job just started is not picked again.
    assert_eq!(running.pick_next(&jobs), Some(2));
    assert_eq!(running.pick_next(&jobs), None);
    running.finish(2);
    assert!(!running.contains(2));
    assert_eq!(running.pick_next(&jobs), Some(1));
    let paused = vec![job(4, JobStatus::Paused)];
    assert_eq!(RunningJobs::new().pick_next(&paused), None);
}

#[test]
fn how_a_job_ends() {
    assert_eq!(final_job_status(&Ok(()), false), JobStatus::Done);
    assert_eq!(final_job_status(&Err(cancelled_error()), true), JobStatus::Paused);
    assert_eq!(final_job_status(&Err("Operation cancelled".to_string()), false), JobStatus::Canceled);
    assert_eq!(
        final_job_status(&Err("Read error: boom".to_string()), true),
        JobStatus::Error("Read error: boom".to_string())
    );
}

#[test]
fn settings_are_read_with_their_defaults() {
    assert!(flag_setting(&None));
    assert!(flag_setting(&Some("true".to_string())));
    assert!(!flag_setting(&Some("false".to_string())));
    assert!(!flag_setting(&Some("TRUE".to_string())));
    assert_eq!(algorithm_setting(&None), HashAlgorithm::Blake3);
    assert_eq!(algorithm_setting(&Some("XxHash3".to_string())), HashAlgorithm::XxHash3);
    assert_eq!(algorithm_setting(&Some("Md5".to_string())), HashAlgorithm::Md5);
    assert_eq!(algorithm_setting(&Some("Sha256".to_string())), HashAlgorithm::Sha256);
    assert_eq!(algorithm_setting(&Some("Crc32".to_string())), HashAlgorithm::Crc32);
    assert_eq!(speed_limit_setting(&None), 0);
    assert_eq!(speed_limit_setting(&Some("50000".to_string())), 50000);
    assert_eq!(speed_limit_setting(&Some("fast".to_string())), 0);
    assert_eq!(speed_limit_update("speed_limit_kbps", "128"), Some(128));
    assert_eq!(speed_limit_update("speed_limit_kbps", "-5"), Some(0));
    assert_eq!(speed_limit_update("auto_verify", "128"), None);
}

#[test]
fn retries_up_to_three_times() {
    assert_eq!(MAX_RETRIES, 3);
    assert_eq!(retry_after_failure("Read error: x", 0), Some(1));
    assert_eq!(retry_after_failure("Read error: x", 2), Some(3));
    assert_eq!(retry_after_failure("Read error: x", 3), None);
    assert_eq!(retry_after_failure("Operation cancelled", 0), None);
    assert_eq!(
        retry_after_failure("Source file size changed from 1 to 2 bytes", 0),
        None
    );
}

#[test]
fn verification_outcomes() {
    let ok = verification_outcome(&Ok("aa".to_string()), &Ok("aa".to_string()));
    assert_eq!(ok.status, FileStatus::Done);
    assert_eq!(ok.hash_src, Some("aa".to_string()));
    assert_eq!(ok.error, None);
    let bad = verification_outcome(&Ok("aa".to_string()), &Ok("ab".to_string()));
    assert_eq!(bad.status, FileStatus::Error("Checksum mismatch".to_string()));
    assert_eq!(bad.hash_dest, Some("ab".to_string()));
    assert_eq!(bad.error, Some("Checksum mismatch".to_string()));
    let failed = verification_outcome(&Err("no \"file\"".to_string()), &Ok("aa".to_string()));
    let expected = format!("Verification failed: Src: {:?}, Dest: {:?}", Some("no \"file\""), None::<String>);
    assert_eq!(failed.status, FileStatus::Error(expected.clone()));
    assert_eq!(failed.error, Some(expected));
    assert_eq!(failed.hash_src, None);
}

#[test]
fn file_bookkeeping() {
    assert!(needs_transfer(&FileStatus::Queued));
    assert!(needs_transfer(&FileStatus::Error("x".to_string())));
    assert!(!needs_transfer(&FileStatus::Done));
    assert!(!needs_transfer(&FileStatus::Skipped));
    assert!(deletes_source(true, &FileStatus::Done));
    assert!(!deletes_source(false, &FileStatus::Done));
    assert!(!deletes_source(true, &FileStatus::Error("Checksum mismatch".to_string())));
    assert_eq!(overall_after_copy(100, 150, 0, 80), 180);
    assert_eq!(overall_after_copy(100, 250, 0, 80), 250);
    assert_eq!(overall_after_copy(100, 100, 90, 80), 100);
    assert_eq!(add_bytes(5, 7), 12);
}

#[test]
fn new_jobs_are_queued_with_their_total() {
    let files = vec![
        queued_file("a".to_string(), "d/a".to_string(), 1000),
        queued_file("dir".to_string(), "d/dir".to_string(), 0),
        renamed_file("m".to_string(), "d/m".to_string()),
        queued_file("b".to_string(), "d/b".to_string(), 24),
    ];
    let job = new_job(9, vec!["a".to_string()], "d".to_string(), true, files, 1700000000).unwrap();
    assert_eq!(job.bytes_total, 1024);
    assert_eq!(job.status, JobStatus::Queued);
    assert_eq!(job.files.len(), 4);
    assert_eq!(job.files[2].status, FileStatus::Done);
    assert_eq!(job.started_at, Some(1700000000));
    assert_eq!(job.finished_at, None);
    let huge = vec![
        queued_file("a".to_string(), "d/a".to_string(), u64::MAX),
        queued_file("b".to_string(), "d/b".to_string(), 1),
    ];
    assert!(new_job(1, vec![], "d".to_string(), false, huge, 0).is_none());
}

#[test]
fn messages() {
    let (title, body) = completion_notification(3, "D:\\Backup");
    assert_eq!(title, "Transfer Completed");
    assert_eq!(body, "Successfully copied 3 items to D:\\Backup");
    assert_eq!(missing_source_error("C:\\x"), "Source path does not exist: C:\\x");
    assert_eq!(cancelled_error(), "Operation cancelled");
}

#[test]
fn free_space_is_checked_before_copying() {
    let mut a = queued_file("a".to_string(), "x/a".to_string(), 1000);
    a.bytes_done = 400;
    let b = queued_file("b".to_string(), "x/b".to_string(), 300);
    let mut done = queued_file("c".to_string(), "x/c".to_string(), 5000);
    done.status = FileStatus::Done;
    let files = vec![a, b, done];
    // 600 + 300 bytes left to copy; the finished file needs nothing.
    assert_eq!(check_free_space(&files, Some(900)), Ok(()));
    let e = check_free_space(&files, Some(899)).unwrap_err();
    assert_eq!(e, CopyError::InsufficientSpace { needed: 900, available: 899 });
    assert_eq!(e.message(), "Not enough free space on the destination: 900 bytes needed, 899 bytes available");
    assert_eq!(check_free_space(&files, None), Ok(()));
    let huge = vec![
        queued_file("h1".to_string(), "x/h1".to_string(), u64::MAX),
        queued_file("h2".to_string(), "x/h2".to_string(), u64::MAX),
    ];
    assert_eq!(
        check_free_space(&huge, Some(u64::MAX)),
        Err(CopyError::InsufficientSpace { needed: 2 * (u64::MAX as u128), available: u64::MAX })
    );
}
