use copytej::engine::conflict::{ConflictFacts, ConflictResolution};
use copytej::engine::file_run::{
    overall_after, Destination, FileAction, FileEvent, FileOutcome, FileRun, RunSettings,
};
use copytej::engine::hasher::HashAlgorithm;
use copytej::engine::queue::queued_file;
use copytej::engine::FileStatus;

fn settings(auto_verify: bool, is_move: bool) -> RunSettings {
    RunSettings {
        auto_verify,
        hash_algorithm: HashAlgorithm::Sha256,
        enable_block_cloning: true,
        is_move,
    }
}

fn file(total: u64, done: u64) -> copytej::engine::TransferFile {
    let mut f = queued_file("C:\\src\\a.txt".to_string(), "D:\\dst\\a.txt".to_string(), total);
    f.bytes_done = done;
    f
}

fn step(run: &mut FileRun, e: FileEvent) -> FileAction {
    assert!(run.accepts_now(&e));
    run.step(e)
}

#[test]
fn cancelled_job_stops_before_the_file() {
    let (_, a) = FileRun::begin(file(10, 0), settings(true, false), 0, true, false);
    match a {
        FileAction::AbortJob(m) => assert_eq!(m, "Operation cancelled"),
        _ => panic!("a cancelled job stops"),
    }
}

#[test]
fn copy_then_verify_with_equal_checksums_is_done() {
    let (mut run, a) = FileRun::begin(file(100, 0), settings(true, true), 1000, false, false);
    assert!(matches!(a, FileAction::TryRename));
    let a = step(&mut run, FileEvent::RenameTried(false));
    assert!(matches!(a, FileAction::InspectDestination));
    let a = step(&mut run, FileEvent::DestinationSeen(Destination::Free));
    match a {
        FileAction::Copy { start_offset, expected_size, hash_algorithm, block_cloning, retry } => {
            assert_eq!((start_offset, expected_size), (0, 100));
            assert_eq!(hash_algorithm, Some(HashAlgorithm::Sha256));
            assert!(block_cloning);
            assert!(!retry);
        }
        _ => panic!("copy expected"),
    }
    let a = step(
        &mut run,
        FileEvent::CopyAttempt { result: Ok((100, Some("h".to_string()))), file_bytes: 100, overall: 1100 },
    );
    match a {
        FileAction::Verify { src_hash } => assert_eq!(src_hash, Some("h".to_string())),
        _ => panic!("verify expected"),
    }
    let a = step(&mut run, FileEvent::Hashed { src: Ok("h".to_string()), dest: Ok("h".to_string()) });
    match a {
        FileAction::Finish(FileOutcome::Transferred { status, hash_src, hash_dest, error, delete_source, overall }) => {
            assert_eq!(status, FileStatus::Done);
            assert_eq!(hash_src, Some("h".to_string()));
            assert_eq!(hash_dest, Some("h".to_string()));
            assert_eq!(error, None);
            assert!(delete_source);
            assert_eq!(overall, 1100);
        }
        _ => panic!("finish expected"),
    }
}

#[test]
fn mismatching_checksums_keep_the_source() {
    let (mut run, _) = FileRun::begin(file(5, 0), settings(true, true), 0, false, false);
    step(&mut run, FileEvent::RenameTried(false));
    step(&mut run, FileEvent::DestinationSeen(Destination::Free));
    step(&mut run, FileEvent::CopyAttempt { result: Ok((5, None)), file_bytes: 5, overall: 5 });
    match step(&mut run, FileEvent::Hashed { src: Ok("a".to_string()), dest: Ok("b".to_string()) }) {
        FileAction::Finish(FileOutcome::Transferred { status, delete_source, error, .. }) => {
            assert_eq!(status, FileStatus::Error("Checksum mismatch".to_string()));
            assert_eq!(error, Some("Checksum mismatch".to_string()));
            assert!(!delete_source);
        }
        _ => panic!("finish expected"),
    }
}

#[test]
fn failed_copies_are_retried_three_times_from_where_they_stopped() {
    let (mut run, _) = FileRun::begin(file(50, 10), settings(false, false), 0, false, false);
    step(&mut run, FileEvent::DestinationSeen(Destination::Free));
    for (i, done) in [20u64, 30, 40].iter().enumerate() {
        match step(
            &mut run,
            FileEvent::CopyAttempt { result: Err("Read error: gone".to_string()), file_bytes: *done, overall: 7 },
        ) {
            FileAction::Copy { start_offset, retry, .. } => {
                assert_eq!(start_offset, *done, "attempt {}", i);
                assert!(retry);
            }
            _ => panic!("retry expected"),
        }
    }
    match step(
        &mut run,
        FileEvent::CopyAttempt { result: Err("Read error: gone".to_string()), file_bytes: 45, overall: 8 },
    ) {
        FileAction::Finish(FileOutcome::Transferred { status, overall, delete_source, .. }) => {
            assert_eq!(status, FileStatus::Error("Read error: gone".to_string()));
            assert_eq!(overall, 8);
            assert!(!delete_source);
        }
        _ => panic!("the fourth failure ends the file"),
    }
}

#[test]
fn cancellation_is_not_retried_and_unverified_copies_are_done() {
    let (mut run, _) = FileRun::begin(file(50, 0), settings(false, false), 0, false, false);
    step(&mut run, FileEvent::DestinationSeen(Destination::Free));
    match step(
        &mut run,
        FileEvent::CopyAttempt { result: Err("Operation cancelled".to_string()), file_bytes: 0, overall: 0 },
    ) {
        FileAction::Finish(FileOutcome::Transferred { status, .. }) => {
            assert_eq!(status, FileStatus::Error("Operation cancelled".to_string()))
        }
        _ => panic!("no retry after a cancellation"),
    }
    let (mut run, _) = FileRun::begin(file(50, 0), settings(false, true), 0, false, false);
    step(&mut run, FileEvent::RenameTried(false));
    step(&mut run, FileEvent::DestinationSeen(Destination::Free));
    match step(&mut run, FileEvent::CopyAttempt { result: Ok((50, None)), file_bytes: 50, overall: 50 }) {
        FileAction::Finish(FileOutcome::Transferred { status, delete_source, overall, .. }) => {
            assert_eq!(status, FileStatus::Done);
            assert!(delete_source);
            assert_eq!(overall, 50);
        }
        _ => panic!("finish expected"),
    }
}

#[test]
fn conflicts_skip_rename_or_ask() {
    let facts = ConflictFacts { src_size: 10, src_modified: 5, dest_size: 10, dest_modified: 5 };
    // A standing "skip same size and date" skips an identical file.
    let (mut run, _) = FileRun::begin(file(10, 0), settings(true, false), 100, false, false);
    match step(
        &mut run,
        FileEvent::DestinationSeen(Destination::Taken {
            facts,
            standing: Some(ConflictResolution::SkipSameSizeDateAll),
        }),
    ) {
        FileAction::Finish(o) => {
            assert!(matches!(o, FileOutcome::Skipped { overall: 110 }));
            assert_eq!(overall_after(100, &o), 110);
        }
        _ => panic!("skip expected"),
    }
    // Without a standing answer the user is asked; a rename looks for a free name.
    let (mut run, _) = FileRun::begin(file(10, 0), settings(true, false), 0, false, false);
    let a = step(&mut run, FileEvent::DestinationSeen(Destination::Taken { facts, standing: None }));
    assert!(matches!(a, FileAction::AskUser(_)));
    let a = step(&mut run, FileEvent::Answered(Ok(ConflictResolution::Rename)));
    assert!(matches!(a, FileAction::FindFreeName));
    let a = step(&mut run, FileEvent::FreeName("D:\\dst\\a (1).txt".to_string()));
    assert!(matches!(a, FileAction::Copy { .. }));
    assert_eq!(run.current_file().dest, "D:\\dst\\a (1).txt");
    // No answer stops the job; an unreadable destination too.
    let (mut run, _) = FileRun::begin(file(10, 0), settings(true, false), 0, false, false);
    step(&mut run, FileEvent::DestinationSeen(Destination::Taken { facts, standing: None }));
    assert!(matches!(step(&mut run, FileEvent::Answered(Err("gone".to_string()))), FileAction::AbortJob(_)));
    let (mut run, _) = FileRun::begin(file(10, 0), settings(true, false), 0, false, false);
    assert!(matches!(
        step(&mut run, FileEvent::DestinationSeen(Destination::Unreadable("denied".to_string()))),
        FileAction::AbortJob(_)
    ));
}

#[test]
fn directories_and_renames_finish_at_once() {
    let (mut run, a) = FileRun::begin(file(0, 0), settings(true, false), 3, false, true);
    assert!(matches!(a, FileAction::CreateDirectory));
    match step(&mut run, FileEvent::DirCreated(Err("denied".to_string()))) {
        FileAction::Finish(FileOutcome::DirectoryFailed(m)) => assert_eq!(m, "Failed to create directory: denied"),
        _ => panic!("failure expected"),
    }
    let (mut run, _) = FileRun::begin(file(0, 0), settings(true, false), 3, false, true);
    assert!(matches!(step(&mut run, FileEvent::DirCreated(Ok(()))), FileAction::Finish(FileOutcome::DirectoryCreated)));
    let (mut run, _) = FileRun::begin(file(42, 0), settings(true, true), 3, false, false);
    match step(&mut run, FileEvent::RenameTried(true)) {
        FileAction::Finish(o) => {
            assert!(matches!(o, FileOutcome::Renamed { bytes_total: 42 }));
            assert_eq!(overall_after(3, &o), 3);
        }
        _ => panic!("rename finishes the file"),
    }
}

#[test]
fn events_out_of_order_are_refused() {
    let (run, _) = FileRun::begin(file(10, 0), settings(true, false), 0, false, false);
    assert!(!run.accepts_now(&FileEvent::RenameTried(true)));
    assert!(!run.accepts_now(&FileEvent::Hashed { src: Ok(String::new()), dest: Ok(String::new()) }));
    // A skip that would overflow the job's byte count is refused.
    let (run, _) = FileRun::begin(file(10, 0), settings(true, false), u64::MAX, false, false);
    let facts = ConflictFacts { src_size: 1, src_modified: 1, dest_size: 1, dest_modified: 1 };
    assert!(!run.accepts_now(&FileEvent::DestinationSeen(Destination::Taken {
        facts,
        standing: Some(ConflictResolution::SkipAll)
    })));
    // Progress that went back below the count the file started with is refused.
    let (mut run, _) = FileRun::begin(file(10, 0), settings(false, false), 500, false, false);
    step(&mut run, FileEvent::DestinationSeen(Destination::Free));
    assert!(!run.accepts_now(&FileEvent::CopyAttempt { result: Ok((10, None)), file_bytes: 10, overall: 499 }));
    assert!(run.accepts_now(&FileEvent::CopyAttempt { result: Ok((10, None)), file_bytes: 10, overall: 500 }));
}

#[test]
fn crc32_setting_verifies_with_crc32_after_the_copy() {
    let algo = copytej::engine::queue::algorithm_setting(&Some("Crc32".to_string()));
    assert_eq!(algo, HashAlgorithm::Crc32);
    let s = RunSettings { auto_verify: true, hash_algorithm: algo, enable_block_cloning: false, is_move: false };
    let (mut run, _) = FileRun::begin(file(3, 0), s, 0, false, false);
    let a = step(&mut run, FileEvent::DestinationSeen(Destination::Free));
    let hash_algorithm = match a {
        FileAction::Copy { hash_algorithm, .. } => hash_algorithm,
        _ => panic!("copy expected"),
    };
    assert_eq!(hash_algorithm, Some(HashAlgorithm::Crc32));
    // The copy does not hash CRC-32 on the fly, so both files are hashed afterwards.
    let mut session = copytej::engine::CopySession::begin(0, Some(3), 3, hash_algorithm).unwrap();
    session.accept_chunk(b"abc");
    let (written, src_hash) = session.finish();
    let a = step(&mut run, FileEvent::CopyAttempt { result: Ok((written, src_hash)), file_bytes: 3, overall: 3 });
    assert!(matches!(a, FileAction::Verify { src_hash: None }));
    let crc = copytej::engine::hasher::hash_bytes(b"abc", HashAlgorithm::Crc32);
    assert_eq!(crc, "352441c2");
    let a = step(&mut run, FileEvent::Hashed { src: Ok(crc.clone()), dest: Ok(crc.clone()) });
    match a {
        FileAction::Finish(FileOutcome::Transferred { status, hash_src, hash_dest, .. }) => {
            assert_eq!(status, FileStatus::Done);
            assert_eq!(hash_src, Some(crc.clone()));
            assert_eq!(hash_dest, Some(crc));
        }
        _ => panic!("finish expected"),
    }
}

#[test]
fn the_destination_is_kept_unless_a_free_name_is_chosen() {
    let (mut run, _) = FileRun::begin(file(10, 0), settings(false, true), 0, false, false);
    step(&mut run, FileEvent::RenameTried(false));
    assert_eq!(run.current_file().dest, "D:\\dst\\a.txt");
    step(&mut run, FileEvent::DestinationSeen(Destination::Free));
    assert_eq!(run.current_file().dest, "D:\\dst\\a.txt");
    step(&mut run, FileEvent::CopyAttempt { result: Err("Read error: x".to_string()), file_bytes: 4, overall: 4 });
    assert_eq!(run.current_file().dest, "D:\\dst\\a.txt");
    assert_eq!(run.current_file().bytes_done, 0);
    step(&mut run, FileEvent::CopyAttempt { result: Ok((10, None)), file_bytes: 10, overall: 10 });
    assert_eq!(run.current_file().dest, "D:\\dst\\a.txt");
    assert_eq!(run.current_file().bytes_done, 10);
}

#[test]
fn a_copy_to_a_free_name_gets_all_its_retries() {
    let (mut run, _) = FileRun::begin(file(10, 0), settings(false, false), 0, false, false);
    let facts = ConflictFacts { src_size: 10, src_modified: 1, dest_size: 10, dest_modified: 1 };
    let a = step(&mut run, FileEvent::DestinationSeen(Destination::Taken { facts, standing: Some(ConflictResolution::RenameAll) }));
    assert!(matches!(a, FileAction::FindFreeName));
    step(&mut run, FileEvent::FreeName("D:\\dst\\a (1).txt".to_string()));
    for done in [2u64, 4, 6] {
        let a = step(&mut run, FileEvent::CopyAttempt { result: Err("Write error: x".to_string()), file_bytes: done, overall: done });
        match a {
            FileAction::Copy { start_offset, retry, .. } => {
                assert_eq!(start_offset, done);
                assert!(retry);
            }
            _ => panic!("a retry expected"),
        }
    }
    let a = step(&mut run, FileEvent::CopyAttempt { result: Err("Write error: x".to_string()), file_bytes: 8, overall: 8 });
    assert!(matches!(a, FileAction::Finish(FileOutcome::Transferred { status: FileStatus::Error(_), .. })));
}
